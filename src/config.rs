//! Startup toggles and their translation into engine tuning.
use vstd::prelude::*;

verus! {

/// The toggles collected from the command line, read-only once built.
pub struct RunConfiguration {
    pub interactive: bool,
    pub disable_baseline: bool,
    pub disable_ion: bool,
    pub disable_asmjs: bool,
    pub disable_native_regexp: bool,
    pub disable_parallel_parsing: bool,
    pub disable_offthread_compilation: bool,
    pub enable_baseline_unsafe_eager_compilation: bool,
    pub enable_ion_unsafe_eager_compilation: bool,
    pub enable_discard_system_source: bool,
    pub enable_asyncstack: bool,
    pub enable_throw_on_debugee_would_run: bool,
    pub enable_dump_stack_on_debugee_would_run: bool,
    pub enable_werror: bool,
    pub enable_strict: bool,
    pub enable_incremental: bool,
    pub disable_shared_memory: bool,
    pub disable_gc_per_compartment: bool,
    pub disable_compacting: bool,
    pub disable_dynamic_work_slice: bool,
    pub disable_dynamic_mark_slice: bool,
    pub disable_refresh_frame_slices: bool,
    pub disable_dynamic_heap_growth: bool,
    /// The script to run; empty where none was given.
    pub script: String,
}

/// How the collector schedules its work.
#[derive(PartialEq, Eq, Structural, Clone, Copy, Debug)]
pub enum GcMode {
    Incremental,
    PerCompartment,
    Global,
}

/// The engine's tuning parameters, with the values to install.
pub struct EngineTuning {
    pub baseline: bool,
    pub ion: bool,
    pub asmjs: bool,
    pub extra_warnings: bool,
    pub native_regexp: bool,
    pub werror: bool,
    pub gc_mode: GcMode,
    pub compacting: u32,
    pub dynamic_mark_slice: u32,
    pub dynamic_heap_growth: u32,
    pub parallel_parsing: bool,
    pub offthread_ion_compilation: bool,
    pub baseline_warmup_trigger: u32,
    pub ion_warmup_trigger: u32,
}

/// One of the functions that scripts can call.
#[derive(PartialEq, Eq, Structural, Clone, Copy, Debug)]
pub enum Builtin {
    Print,
    Load,
    Read,
}

/// The collector mode chosen for `c`: incremental wins outright, per
/// compartment is the tie-break, global the fallback.
pub open spec fn gc_mode_of(c: RunConfiguration) -> GcMode {
    if c.enable_incremental {
        GcMode::Incremental
    } else if !c.disable_gc_per_compartment {
        GcMode::PerCompartment
    } else {
        GcMode::Global
    }
}

/// A boolean as the engine's numeric parameter.
pub open spec fn flag_value(b: bool) -> u32 {
    if b {
        1
    } else {
        0
    }
}

/// A warm-up trigger: zero compiles eagerly, all ones keeps the engine's default.
pub open spec fn warmup_trigger(eager: bool) -> u32 {
    if eager {
        0
    } else {
        u32::MAX
    }
}

impl RunConfiguration {
    /// Every toggle off and no script.
    pub fn new() -> (r: RunConfiguration)
        ensures
            !r.interactive,
            !r.disable_baseline,
            !r.disable_ion,
            !r.disable_asmjs,
            !r.disable_native_regexp,
            !r.disable_parallel_parsing,
            !r.disable_offthread_compilation,
            !r.enable_baseline_unsafe_eager_compilation,
            !r.enable_ion_unsafe_eager_compilation,
            !r.enable_discard_system_source,
            !r.enable_asyncstack,
            !r.enable_throw_on_debugee_would_run,
            !r.enable_dump_stack_on_debugee_would_run,
            !r.enable_werror,
            !r.enable_strict,
            !r.enable_incremental,
            !r.disable_shared_memory,
            !r.disable_gc_per_compartment,
            !r.disable_compacting,
            !r.disable_dynamic_work_slice,
            !r.disable_dynamic_mark_slice,
            !r.disable_refresh_frame_slices,
            !r.disable_dynamic_heap_growth,
            r.script@.len() == 0,
    {
        RunConfiguration {
            interactive: false,
            disable_baseline: false,
            disable_ion: false,
            disable_asmjs: false,
            disable_native_regexp: false,
            disable_parallel_parsing: false,
            disable_offthread_compilation: false,
            enable_baseline_unsafe_eager_compilation: false,
            enable_ion_unsafe_eager_compilation: false,
            enable_discard_system_source: false,
            enable_asyncstack: false,
            enable_throw_on_debugee_would_run: false,
            enable_dump_stack_on_debugee_would_run: false,
            enable_werror: false,
            enable_strict: false,
            enable_incremental: false,
            disable_shared_memory: false,
            disable_gc_per_compartment: false,
            disable_compacting: false,
            disable_dynamic_work_slice: false,
            disable_dynamic_mark_slice: false,
            disable_refresh_frame_slices: false,
            disable_dynamic_heap_growth: false,
            script: String::new(),
        }
    }

    /// The collector mode that this configuration selects.
    pub fn gc_mode(&self) -> (r: GcMode)
        ensures
            r == gc_mode_of(*self),
            self.enable_incremental ==> r == GcMode::Incremental,
            !self.enable_incremental && !self.disable_gc_per_compartment ==> r
                == GcMode::PerCompartment,
            !self.enable_incremental && self.disable_gc_per_compartment ==> r == GcMode::Global,
    {
        if self.enable_incremental {
            GcMode::Incremental
        } else if !self.disable_gc_per_compartment {
            GcMode::PerCompartment
        } else {
            GcMode::Global
        }
    }

    /// The tuning to install in the engine: each toggle sets one parameter,
    /// a "disable" toggle with the opposite polarity.
    pub fn tuning(&self) -> (r: EngineTuning)
        ensures
            r.baseline == !self.disable_baseline,
            r.ion == !self.disable_ion,
            r.asmjs == !self.disable_asmjs,
            r.extra_warnings == self.enable_strict,
            r.native_regexp == !self.disable_native_regexp,
            r.werror == self.enable_werror,
            r.gc_mode == gc_mode_of(*self),
            r.compacting == flag_value(!self.disable_compacting),
            r.dynamic_mark_slice == flag_value(!self.disable_dynamic_mark_slice),
            r.dynamic_heap_growth == flag_value(!self.disable_dynamic_heap_growth),
            r.parallel_parsing == !self.disable_parallel_parsing,
            r.offthread_ion_compilation == !self.disable_offthread_compilation,
            r.baseline_warmup_trigger == warmup_trigger(
                self.enable_baseline_unsafe_eager_compilation,
            ),
            r.ion_warmup_trigger == warmup_trigger(self.enable_ion_unsafe_eager_compilation),
    {
        EngineTuning {
            baseline: !self.disable_baseline,
            ion: !self.disable_ion,
            asmjs: !self.disable_asmjs,
            extra_warnings: self.enable_strict,
            native_regexp: !self.disable_native_regexp,
            werror: self.enable_werror,
            gc_mode: self.gc_mode(),
            compacting: if self.disable_compacting { 0 } else { 1 },
            dynamic_mark_slice: if self.disable_dynamic_mark_slice { 0 } else { 1 },
            dynamic_heap_growth: if self.disable_dynamic_heap_growth { 0 } else { 1 },
            parallel_parsing: !self.disable_parallel_parsing,
            offthread_ion_compilation: !self.disable_offthread_compilation,
            baseline_warmup_trigger: if self.enable_baseline_unsafe_eager_compilation {
                0
            } else {
                u32::MAX
            },
            ion_warmup_trigger: if self.enable_ion_unsafe_eager_compilation {
                0
            } else {
                u32::MAX
            },
        }
    }

    /// Whether a script is to be run before anything else.
    pub fn runs_script(&self) -> (r: bool)
        ensures
            r == (self.script@.len() > 0),
    {
        !self.script.as_str().is_empty()
    }

    /// Whether the interactive loop is entered: when no script was given, or
    /// when it was asked for. What the script run returned plays no part.
    pub fn enters_repl(&self) -> (r: bool)
        ensures
            r == (self.script@.len() == 0 || self.interactive),
    {
        !self.runs_script() || self.interactive
    }
}

pub open spec fn builtin_names() -> Seq<Seq<char>> {
    seq!["print"@, "load"@, "read"@, "readFile"@]
}

pub open spec fn builtin_targets() -> Seq<Builtin> {
    seq![Builtin::Print, Builtin::Load, Builtin::Read, Builtin::Read]
}

/// The names under which the builtins are installed in the global scope,
/// each with the function it calls; `read` and `readFile` share one.
pub fn host_builtins() -> (r: Vec<(String, Builtin)>)
    ensures
        r@.len() == 4,
        forall|i: int| 0 <= i < 4 ==> r@[i].0@ == #[trigger] builtin_names()[i] && r@[i].1
            == builtin_targets()[i],
{
    let mut r: Vec<(String, Builtin)> = Vec::new();
    r.push((String::from_str("print"), Builtin::Print));
    r.push((String::from_str("load"), Builtin::Load));
    r.push((String::from_str("read"), Builtin::Read));
    r.push((String::from_str("readFile"), Builtin::Read));
    r
}

} // verus!
