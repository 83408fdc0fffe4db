//! The functions that scripts call: `print`, `load`, and `read` / `readFile`.
//!
//! The engine calls them with its own values; the caller turns those into
//! text, performs the file work, and hands the outcomes over.
use vstd::prelude::*;
use crate::script::FileRead;
use crate::text::{join_with_spaces, joined};

verus! {

/// What a builtin hands back to the engine.
pub enum BuiltinResult {
    /// The call fails; the engine raises it in the calling script.
    Failure,
    /// The call returns no value.
    NoValue,
    /// The call returns this text.
    Text(String),
}

/// What came of a call of `read`.
pub enum ReadAttempt {
    /// The call had no argument.
    NoArgument,
    /// The argument could not be turned into text.
    Unconvertible,
    /// The file named by the argument was read, or not.
    File(FileRead),
}

/// `print`: the display texts of the arguments on one line, separated by
/// single spaces; the call returns no value.
pub fn print_builtin(args: &Vec<String>) -> (r: (String, BuiltinResult))
    ensures
        r.0@ == joined(args@.map_values(|a: String| a@)),
        r.1 is NoValue,
{
    (join_with_spaces(args), BuiltinResult::NoValue)
}

/// `read` and `readFile`: the whole content of the file, or a failure that
/// the calling script can catch.
pub fn read_result(attempt: ReadAttempt) -> (r: BuiltinResult)
    ensures
        (r is Text) == (attempt matches ReadAttempt::File(FileRead::Contents(_))),
        !(r is Text) ==> r is Failure,
        attempt matches ReadAttempt::File(FileRead::Contents(t)) ==> (r matches BuiltinResult::Text(
            s,
        ) && s@ == t@),
{
    match attempt {
        ReadAttempt::File(FileRead::Contents(t)) => BuiltinResult::Text(t),
        _ => BuiltinResult::Failure,
    }
}

/// Where a call of `load` stands.
#[derive(PartialEq, Eq, Structural, Clone, Copy, Debug)]
pub enum LoadPhase {
    /// Ready to move to the next argument.
    Ready,
    /// Waiting for the text of the current argument.
    Converting,
    /// The call has returned.
    Ended,
}

/// What the caller of a `load` call is to do next.
pub enum LoadAction {
    /// Turn the argument at this index into text.
    Convert(u32),
    /// Run the script at this path, relative to the working directory, to
    /// its end, whatever its result; then ask for the next action.
    Run(String),
    /// Return this to the engine.
    Return(BuiltinResult),
}

/// A call of `load`: its arguments are taken in order, each run to its end
/// before the next is looked at.
pub struct LoadCall {
    argc: u32,
    next: u32,
    phase: LoadPhase,
}

/// The abstract state of a `load` call.
pub struct LoadState {
    pub argc: nat,
    pub next: nat,
    pub phase: LoadPhase,
}

impl View for LoadCall {
    type V = LoadState;

    closed spec fn view(&self) -> LoadState {
        LoadState { argc: self.argc as nat, next: self.next as nat, phase: self.phase }
    }
}

impl LoadCall {
    /// A call with `argc` arguments, none of them looked at yet.
    pub fn new(argc: u32) -> (r: LoadCall)
        ensures
            r@ == (LoadState { argc: argc as nat, next: 0, phase: LoadPhase::Ready }),
    {
        LoadCall { argc, next: 0, phase: LoadPhase::Ready }
    }

    /// The next argument to convert, or the end of the call, which returns
    /// no value once every argument has been run.
    pub fn next_action(&mut self) -> (r: LoadAction)
        requires
            old(self)@.phase == LoadPhase::Ready,
            old(self)@.next <= old(self)@.argc,
        ensures
            old(self)@.next < old(self)@.argc ==> r.step() == LoadStep::Convert(old(self)@.next),
            old(self)@.next < old(self)@.argc ==> (r matches LoadAction::Convert(i) && i as nat
                == old(self)@.next),
            old(self)@.next < old(self)@.argc ==> final(self)@ == (LoadState {
                phase: LoadPhase::Converting,
                ..old(self)@
            }),
            old(self)@.next == old(self)@.argc ==> r.step() == LoadStep::ReturnNothing,
            old(self)@.next == old(self)@.argc ==> (r matches LoadAction::Return(b)
                && b is NoValue),
            old(self)@.next == old(self)@.argc ==> final(self)@ == (LoadState {
                phase: LoadPhase::Ended,
                ..old(self)@
            }),
    {
        if self.next < self.argc {
            self.phase = LoadPhase::Converting;
            LoadAction::Convert(self.next)
        } else {
            self.phase = LoadPhase::Ended;
            LoadAction::Return(BuiltinResult::NoValue)
        }
    }

    /// The text of the current argument, or `None` where it could not be
    /// converted: that ends the call with a failure. Otherwise the path is
    /// run and the call moves on to the next argument.
    pub fn on_converted(&mut self, text: Option<String>) -> (r: LoadAction)
        requires
            old(self)@.phase == LoadPhase::Converting,
            old(self)@.next < old(self)@.argc,
        ensures
            text is None ==> (r matches LoadAction::Return(b) && b is Failure),
            text is None ==> r.step() == LoadStep::ReturnFailure,
            text is None ==> final(self)@ == (LoadState {
                phase: LoadPhase::Ended,
                ..old(self)@
            }),
            text matches Some(p) ==> (r matches LoadAction::Run(q) && q@ == p@),
            text matches Some(p) ==> r.step() == LoadStep::Run(p@),
            text is Some ==> final(self)@ == (LoadState {
                next: old(self)@.next + 1,
                phase: LoadPhase::Ready,
                ..old(self)@
            }),
            final(self)@.next <= final(self)@.argc,
    {
        match text {
            None => {
                self.phase = LoadPhase::Ended;
                LoadAction::Return(BuiltinResult::Failure)
            },
            Some(p) => {
                self.next = self.next + 1;
                self.phase = LoadPhase::Ready;
                LoadAction::Run(p)
            },
        }
    }
}

/// The abstract form of a `load` action.
pub enum LoadStep {
    Convert(nat),
    Run(Seq<char>),
    ReturnNothing,
    ReturnFailure,
}

impl LoadAction {
    pub open spec fn step(self) -> LoadStep {
        match self {
            LoadAction::Convert(i) => LoadStep::Convert(i as nat),
            LoadAction::Run(p) => LoadStep::Run(p@),
            LoadAction::Return(BuiltinResult::Failure) => LoadStep::ReturnFailure,
            LoadAction::Return(_) => LoadStep::ReturnNothing,
        }
    }
}

/// The actions a `load` call in state `s` hands out when its arguments turn
/// into `texts` (`None` where one cannot be converted), each `Run` being
/// carried out by the caller before it asks for the next action.
pub open spec fn load_steps(s: LoadState, texts: Seq<Option<Seq<char>>>) -> Seq<LoadStep>
    decreases texts.len(),
{
    if s.phase != LoadPhase::Ready || s.next > s.argc {
        Seq::empty()
    } else if s.next == s.argc {
        seq![LoadStep::ReturnNothing]
    } else if texts.len() == 0 {
        seq![LoadStep::Convert(s.next)]
    } else {
        match texts[0] {
            None => seq![LoadStep::Convert(s.next), LoadStep::ReturnFailure],
            Some(p) => seq![LoadStep::Convert(s.next), LoadStep::Run(p)] + load_steps(
                LoadState { next: s.next + 1, ..s },
                texts.drop_first(),
            ),
        }
    }
}

/// In the actions of a `load` call, the conversion of the `i`-th argument.
pub open spec fn convert_step(steps: Seq<LoadStep>, i: int) -> LoadStep {
    steps[2 * i]
}

/// In the actions of a `load` call, the run of the `i`-th argument.
pub open spec fn run_step(steps: Seq<LoadStep>, i: int) -> LoadStep {
    steps[2 * i + 1]
}

proof fn lemma_load_steps_from(s: LoadState, texts: Seq<Option<Seq<char>>>)
    requires
        s.phase == LoadPhase::Ready,
        s.next + texts.len() == s.argc,
        forall|i: int| 0 <= i < texts.len() ==> texts[i] is Some,
    ensures
        load_steps(s, texts).len() == 2 * texts.len() + 1,
        forall|i: int|
            0 <= i < texts.len() ==> #[trigger] convert_step(load_steps(s, texts), i)
                == LoadStep::Convert(s.next + i as nat),
        forall|i: int|
            0 <= i < texts.len() ==> #[trigger] run_step(load_steps(s, texts), i) == LoadStep::Run(
                texts[i]->Some_0,
            ),
        load_steps(s, texts)[2 * texts.len() as int] == LoadStep::ReturnNothing,
    decreases texts.len(),
{
    if texts.len() > 0 {
        let s1 = LoadState { next: s.next + 1, ..s };
        let tl = texts.drop_first();
        assert forall|i: int| 0 <= i < tl.len() implies tl[i] is Some by {
            assert(tl[i] == texts[i + 1]);
        }
        lemma_load_steps_from(s1, tl);
        let steps = load_steps(s, texts);
        let rest = load_steps(s1, tl);
        assert(steps == seq![LoadStep::Convert(s.next), LoadStep::Run(texts[0]->Some_0)] + rest);
        assert forall|i: int| 0 <= i < texts.len() implies #[trigger] convert_step(steps, i)
            == LoadStep::Convert(s.next + i as nat) by {
            if i > 0 {
                assert(convert_step(steps, i) == convert_step(rest, i - 1));
            }
        }
        assert forall|i: int| 0 <= i < texts.len() implies #[trigger] run_step(steps, i)
            == LoadStep::Run(texts[i]->Some_0) by {
            if i > 0 {
                assert(run_step(steps, i) == run_step(rest, i - 1));
                assert(tl[i - 1] == texts[i]);
            }
        }
        assert(steps[2 * texts.len() as int] == rest[2 * tl.len() as int]);
    }
}

/// A `load` call whose arguments all convert hands out, for each argument in
/// order, its conversion and then the run of its script, and converts the
/// next argument only once that run has been carried out: each script runs
/// to its end, nested loads included, before the next one starts. The call
/// returns no value, and only after the last run.
pub proof fn lemma_load_runs_in_order(argc: nat, texts: Seq<Option<Seq<char>>>)
    requires
        texts.len() == argc,
        forall|i: int| 0 <= i < texts.len() ==> texts[i] is Some,
    ensures
        load_steps(LoadState { argc, next: 0, phase: LoadPhase::Ready }, texts).len() == 2 * argc
            + 1,
        forall|i: int|
            0 <= i < argc ==> #[trigger] convert_step(
                load_steps(LoadState { argc, next: 0, phase: LoadPhase::Ready }, texts),
                i,
            ) == LoadStep::Convert(i as nat),
        forall|i: int|
            0 <= i < argc ==> #[trigger] run_step(
                load_steps(LoadState { argc, next: 0, phase: LoadPhase::Ready }, texts),
                i,
            ) == LoadStep::Run(texts[i]->Some_0),
        load_steps(LoadState { argc, next: 0, phase: LoadPhase::Ready }, texts)[2 * argc as int]
            == LoadStep::ReturnNothing,
{
    lemma_load_steps_from(LoadState { argc, next: 0, phase: LoadPhase::Ready }, texts);
}

} // verus!
