//! The interactive loop as a state machine.
//!
//! The caller owns the terminal and the engine. It performs each
//! [`ReplAction`] it is handed and reports what came of it: a line read or
//! the end of input, the detector's verdict on the buffer, the outcome of an
//! evaluation.
use vstd::prelude::*;
use vstd::string::StringExecFns;
use crate::report::{PendingException, is_pending, pending_after, pending_report_text, report_pending_exception};

verus! {

/// Where a session stands within its current turn.
#[derive(PartialEq, Eq, Structural, Clone, Copy, Debug)]
pub enum Phase {
    /// Waiting for the next line of input.
    Prompting,
    /// Waiting for the detector's verdict on the buffer.
    Checking,
    /// Waiting for the outcome of an evaluation.
    Evaluating,
    /// Input has ended.
    Finished,
}

/// Source text submitted for evaluation, with the name and first line
/// number under which the engine reports positions in it.
pub struct EvaluationUnit {
    pub text: String,
    pub name: String,
    pub start_line: u32,
}

/// What the caller is to do next.
pub enum ReplAction {
    /// Read one more line of input.
    Prompt,
    /// Add the accumulated buffer to the interactive history, then ask the
    /// engine whether it is a compilable unit.
    Check(String),
    /// Evaluate the unit against the global scope.
    Evaluate(EvaluationUnit),
    /// Input has ended: leave the loop.
    Exit,
}

/// How an evaluation ended.
pub enum EvalOutcome {
    /// The evaluation failed; the engine holds the exception.
    Failed,
    /// The evaluation produced no value.
    Undefined,
    /// The evaluation produced a value, given in its display text.
    Value(String),
}

/// What ends a turn: the lines to print, in order, and whether the engine's
/// pending exception is to be cleared.
pub struct TurnReport {
    pub lines: Vec<String>,
    pub clear_pending: bool,
}

/// The interactive session: the running line counter, the line on which the
/// current turn began, and the text buffered in this turn.
pub struct ReplSession {
    line_no: u32,
    start_line: u32,
    buffer: String,
    phase: Phase,
}

/// The abstract state of a session.
pub struct ReplState {
    pub line_no: nat,
    pub start_line: nat,
    pub buffer: Seq<char>,
    pub phase: Phase,
}

/// The abstract form of an action.
pub enum ReplStep {
    Prompt,
    Check(Seq<char>),
    Evaluate { text: Seq<char>, name: Seq<char>, start_line: nat },
    Exit,
}

pub open spec fn typein_name() -> Seq<char> {
    "typein"@
}

pub open spec fn fresh_state() -> ReplState {
    ReplState { line_no: 1, start_line: 1, buffer: Seq::empty(), phase: Phase::Prompting }
}

impl ReplState {
    /// A line has been read: it joins the buffer and the counter moves on.
    pub open spec fn after_line(self, line: Seq<char>) -> ReplState {
        ReplState {
            line_no: self.line_no + 1,
            buffer: self.buffer + line,
            phase: Phase::Checking,
            ..self
        }
    }

    /// The action that follows the detector's verdict.
    pub open spec fn answer_step(self, complete: bool) -> ReplStep {
        if complete {
            ReplStep::Evaluate { text: self.buffer, name: typein_name(), start_line: self.start_line }
        } else {
            ReplStep::Prompt
        }
    }

    /// The detector has answered: a complete buffer goes to evaluation,
    /// an incomplete one waits for more lines.
    pub open spec fn after_answer(self, complete: bool) -> ReplState {
        if complete {
            ReplState { buffer: Seq::empty(), phase: Phase::Evaluating, ..self }
        } else {
            ReplState { phase: Phase::Prompting, ..self }
        }
    }

    /// The evaluation has been handled: the next turn begins on the current line.
    pub open spec fn after_evaluation(self) -> ReplState {
        ReplState { start_line: self.line_no, buffer: Seq::empty(), phase: Phase::Prompting, ..self }
    }
}

/// The lines printed at the end of a turn: the value, if there is one, then
/// the report of what was pending, if anything.
pub open spec fn turn_lines(outcome: EvalOutcome, pending: PendingException) -> Seq<Seq<char>> {
    let value: Seq<Seq<char>> = match outcome {
        EvalOutcome::Value(t) => seq![t@],
        _ => Seq::empty(),
    };
    let report: Seq<Seq<char>> = match pending_report_text(pending) {
        Some(t) => seq![t],
        None => Seq::empty(),
    };
    value + report
}

impl ReplAction {
    pub open spec fn step(self) -> ReplStep {
        match self {
            ReplAction::Prompt => ReplStep::Prompt,
            ReplAction::Check(b) => ReplStep::Check(b@),
            ReplAction::Evaluate(u) => ReplStep::Evaluate {
                text: u.text@,
                name: u.name@,
                start_line: u.start_line as nat,
            },
            ReplAction::Exit => ReplStep::Exit,
        }
    }
}

impl View for ReplSession {
    type V = ReplState;

    closed spec fn view(&self) -> ReplState {
        ReplState {
            line_no: self.line_no as nat,
            start_line: self.start_line as nat,
            buffer: self.buffer@,
            phase: self.phase,
        }
    }
}

impl ReplSession {
    /// A session on line one with nothing buffered, waiting for input.
    pub fn new() -> (r: ReplSession)
        ensures
            r@ == fresh_state(),
    {
        ReplSession { line_no: 1, start_line: 1, buffer: String::new(), phase: Phase::Prompting }
    }

    /// The running line counter.
    pub fn line_no(&self) -> (r: u32)
        ensures
            r as nat == self@.line_no,
    {
        self.line_no
    }

    /// Where the session stands.
    pub fn phase(&self) -> (r: Phase)
        ensures
            r == self@.phase,
    {
        self.phase
    }

    /// A line was read: it is appended to the buffer, and the whole buffer
    /// goes to the history and the detector.
    pub fn on_line(&mut self, line: &str) -> (r: ReplAction)
        requires
            old(self)@.phase == Phase::Prompting,
            old(self)@.line_no < u32::MAX,
        ensures
            final(self)@ == old(self)@.after_line(line@),
            r.step() == ReplStep::Check(final(self)@.buffer),
    {
        self.buffer.append(line);
        self.line_no = self.line_no + 1;
        self.phase = Phase::Checking;
        ReplAction::Check(self.buffer.clone())
    }

    /// Input has ended: the whole loop ends, not just the turn.
    pub fn on_end_of_input(&mut self) -> (r: ReplAction)
        requires
            old(self)@.phase == Phase::Prompting,
        ensures
            final(self)@ == (ReplState { phase: Phase::Finished, ..old(self)@ }),
            r.step() == ReplStep::Exit,
    {
        self.phase = Phase::Finished;
        ReplAction::Exit
    }

    /// The detector's verdict on the buffer.
    pub fn on_detector(&mut self, complete: bool) -> (r: ReplAction)
        requires
            old(self)@.phase == Phase::Checking,
        ensures
            final(self)@ == old(self)@.after_answer(complete),
            r.step() == old(self)@.answer_step(complete),
    {
        if complete {
            let text = self.buffer.clone();
            self.buffer = String::new();
            self.phase = Phase::Evaluating;
            proof {
                reveal_strlit("typein");
            }
            ReplAction::Evaluate(
                EvaluationUnit { text, name: String::from_str("typein"), start_line: self.start_line },
            )
        } else {
            self.phase = Phase::Prompting;
            ReplAction::Prompt
        }
    }

    /// The evaluation is over: its value is printed, the guard reports and
    /// clears whatever it left pending, and the next turn begins.
    pub fn on_evaluated(&mut self, outcome: EvalOutcome, pending: &PendingException) -> (r:
        TurnReport)
        requires
            old(self)@.phase == Phase::Evaluating,
        ensures
            final(self)@ == old(self)@.after_evaluation(),
            r.clear_pending == is_pending(*pending),
            !pending_after(*pending, r.clear_pending),
            r.lines@.map_values(|l: String| l@) == turn_lines(outcome, *pending),
    {
        let mut lines: Vec<String> = Vec::new();
        match outcome {
            EvalOutcome::Value(t) => lines.push(t),
            _ => {},
        }
        let guard = report_pending_exception(pending);
        match guard.message {
            Some(m) => lines.push(m),
            None => {},
        }
        self.start_line = self.line_no;
        self.buffer = String::new();
        self.phase = Phase::Prompting;
        assert(lines@.map_values(|l: String| l@) =~= turn_lines(outcome, *pending));
        TurnReport { lines, clear_pending: guard.clear_pending }
    }
}

/// The lines of `lines` laid end to end.
pub open spec fn concat_lines(lines: Seq<Seq<char>>) -> Seq<char>
    decreases lines.len(),
{
    if lines.len() == 0 {
        Seq::empty()
    } else {
        concat_lines(lines.drop_last()) + lines.last()
    }
}

/// The actions a session hands out from state `s` when the lines read are
/// `lines` and the detector's verdicts are `answers`, up to the end of the turn.
pub open spec fn turn_steps(s: ReplState, lines: Seq<Seq<char>>, answers: Seq<bool>) -> Seq<
    ReplStep,
>
    decreases lines.len(),
{
    if lines.len() == 0 || answers.len() == 0 || s.phase != Phase::Prompting {
        Seq::empty()
    } else {
        let s1 = s.after_line(lines[0]);
        seq![ReplStep::Check(s1.buffer), s1.answer_step(answers[0])] + turn_steps(
            s1.after_answer(answers[0]),
            lines.drop_first(),
            answers.drop_first(),
        )
    }
}

/// In the actions of a turn, the one that follows the `i`-th line read.
pub open spec fn after_line_step(steps: Seq<ReplStep>, i: int) -> ReplStep {
    steps[2 * i]
}

/// In the actions of a turn, the one that follows the `i`-th verdict.
pub open spec fn after_verdict_step(steps: Seq<ReplStep>, i: int) -> ReplStep {
    steps[2 * i + 1]
}

proof fn lemma_concat_prepend(x: Seq<char>, ys: Seq<Seq<char>>)
    ensures
        concat_lines(seq![x] + ys) == x + concat_lines(ys),
    decreases ys.len(),
{
    if ys.len() == 0 {
        assert(seq![x] + ys =~= seq![x]);
        assert(seq![x].drop_last() =~= Seq::<Seq<char>>::empty());
        assert(seq![x].last() == x);
        assert(concat_lines(Seq::<Seq<char>>::empty()) == Seq::<char>::empty());
        assert(concat_lines(seq![x]) =~= x);
    } else {
        lemma_concat_prepend(x, ys.drop_last());
        assert((seq![x] + ys).drop_last() =~= seq![x] + ys.drop_last());
        assert(concat_lines(seq![x] + ys) =~= x + concat_lines(ys));
    }
}

proof fn lemma_turn_steps_from(s: ReplState, lines: Seq<Seq<char>>, answers: Seq<bool>, k: int)
    requires
        s.phase == Phase::Prompting,
        lines.len() == answers.len(),
        0 <= k < lines.len(),
        answers[k],
        forall|i: int| 0 <= i < k ==> !answers[i],
    ensures
        turn_steps(s, lines, answers).len() == 2 * (k + 1),
        forall|i: int|
            0 <= i <= k ==> #[trigger] after_line_step(turn_steps(s, lines, answers), i) == ReplStep::Check(
                s.buffer + concat_lines(lines.take(i + 1)),
            ),
        forall|i: int| 0 <= i < k ==> #[trigger] after_verdict_step(turn_steps(s, lines, answers), i) == ReplStep::Prompt,
        after_verdict_step(turn_steps(s, lines, answers), k) == (ReplStep::Evaluate {
            text: s.buffer + concat_lines(lines.take(k + 1)),
            name: typein_name(),
            start_line: s.start_line,
        }),
    decreases k,
{
    let steps = turn_steps(s, lines, answers);
    let s1 = s.after_line(lines[0]);
    let s2 = s1.after_answer(answers[0]);
    let rest = turn_steps(s2, lines.drop_first(), answers.drop_first());
    assert(steps == seq![ReplStep::Check(s1.buffer), s1.answer_step(answers[0])] + rest);
    assert(lines.take(1) =~= seq![lines[0]]);
    lemma_concat_prepend(lines[0], Seq::empty());
    assert(seq![lines[0]] + Seq::<Seq<char>>::empty() =~= seq![lines[0]]);
    assert(s1.buffer =~= s.buffer + concat_lines(lines.take(1)));
    if k == 0 {
        assert(s2.phase == Phase::Evaluating);
        assert(rest.len() == 0);
    } else {
        let tl = lines.drop_first();
        let ta = answers.drop_first();
        assert forall|i: int| 0 <= i < k - 1 implies !ta[i] by {
            assert(ta[i] == answers[i + 1]);
        }
        lemma_turn_steps_from(s2, tl, ta, k - 1);
        assert forall|i: int|
            0 <= i <= k implies after_line_step(steps, i) == ReplStep::Check(
                s.buffer + concat_lines(lines.take(i + 1)),
            ) by {
            if i > 0 {
                assert(after_line_step(steps, i) == after_line_step(rest, i - 1));
                assert(lines.take(i + 1) =~= seq![lines[0]] + tl.take(i));
                lemma_concat_prepend(lines[0], tl.take(i));
                assert(s2.buffer + concat_lines(tl.take(i)) =~= s.buffer + concat_lines(
                    lines.take(i + 1),
                ));
            }
        }
        assert forall|i: int| 0 <= i < k implies after_verdict_step(steps, i) == ReplStep::Prompt by {
            if i > 0 {
                assert(after_verdict_step(steps, i) == after_verdict_step(rest, i - 1));
            }
        }
        assert(after_verdict_step(steps, k) == after_verdict_step(rest, k - 1));
        assert(lines.take(k + 1) =~= seq![lines[0]] + tl.take(k));
        lemma_concat_prepend(lines[0], tl.take(k));
        assert(s2.buffer + concat_lines(tl.take(k)) =~= s.buffer + concat_lines(lines.take(k + 1)));
    }
}

/// Within one turn the detector is asked about the whole buffer after each
/// line: after the lines up to the `i`-th it sees those lines laid end to
/// end. The turn evaluates exactly once, right after the first verdict of
/// completeness (the `k`-th), the text of all its lines under the name
/// `typein`, starting on the line where the turn began; lines after it are
/// not part of the turn.
pub proof fn lemma_turn_checks_cumulative_buffer(
    s: ReplState,
    lines: Seq<Seq<char>>,
    answers: Seq<bool>,
    k: int,
)
    requires
        s.phase == Phase::Prompting,
        s.buffer.len() == 0,
        s.start_line == s.line_no,
        lines.len() == answers.len(),
        0 <= k < lines.len(),
        answers[k],
        forall|i: int| 0 <= i < k ==> !answers[i],
    ensures
        turn_steps(s, lines, answers).len() == 2 * (k + 1),
        forall|i: int|
            0 <= i <= k ==> #[trigger] after_line_step(turn_steps(s, lines, answers), i) == ReplStep::Check(
                concat_lines(lines.take(i + 1)),
            ),
        forall|i: int| 0 <= i < k ==> #[trigger] after_verdict_step(turn_steps(s, lines, answers), i) == ReplStep::Prompt,
        after_verdict_step(turn_steps(s, lines, answers), k) == (ReplStep::Evaluate {
            text: concat_lines(lines.take(k + 1)),
            name: typein_name(),
            start_line: s.line_no,
        }),
{
    lemma_turn_steps_from(s, lines, answers, k);
    assert forall|x: Seq<char>| #[trigger] (s.buffer + x) == x by {
        assert(s.buffer + x =~= x);
    }
}

} // verus!
