use jsshell::{host_builtins, Builtin, GcMode, RunConfiguration};

#[test]
fn incremental_wins_over_every_other_gc_flag() {
    let mut c = RunConfiguration::new();
    c.enable_incremental = true;
    assert_eq!(c.gc_mode(), GcMode::Incremental);
    c.disable_gc_per_compartment = true;
    assert_eq!(c.gc_mode(), GcMode::Incremental);
}

#[test]
fn per_compartment_is_the_tie_break() {
    let c = RunConfiguration::new();
    assert_eq!(c.gc_mode(), GcMode::PerCompartment);
}

#[test]
fn global_is_the_fallback() {
    let mut c = RunConfiguration::new();
    c.disable_gc_per_compartment = true;
    assert_eq!(c.gc_mode(), GcMode::Global);
}

#[test]
fn default_tuning_enables_everything() {
    let t = RunConfiguration::new().tuning();
    assert!(t.baseline && t.ion && t.asmjs && t.native_regexp);
    assert!(!t.extra_warnings && !t.werror);
    assert!(t.parallel_parsing && t.offthread_ion_compilation);
    assert_eq!(t.gc_mode, GcMode::PerCompartment);
    assert_eq!(t.compacting, 1);
    assert_eq!(t.dynamic_mark_slice, 1);
    assert_eq!(t.dynamic_heap_growth, 1);
    assert_eq!(t.baseline_warmup_trigger, u32::MAX);
    assert_eq!(t.ion_warmup_trigger, u32::MAX);
}

#[test]
fn disable_flags_invert_their_parameter() {
    let mut c = RunConfiguration::new();
    c.disable_baseline = true;
    c.disable_ion = true;
    c.disable_asmjs = true;
    c.disable_native_regexp = true;
    c.disable_parallel_parsing = true;
    c.disable_offthread_compilation = true;
    c.disable_compacting = true;
    c.disable_dynamic_mark_slice = true;
    c.disable_dynamic_heap_growth = true;
    c.enable_strict = true;
    c.enable_werror = true;
    c.enable_baseline_unsafe_eager_compilation = true;
    c.enable_ion_unsafe_eager_compilation = true;
    let t = c.tuning();
    assert!(!t.baseline && !t.ion && !t.asmjs && !t.native_regexp);
    assert!(t.extra_warnings && t.werror);
    assert!(!t.parallel_parsing && !t.offthread_ion_compilation);
    assert_eq!(t.compacting, 0);
    assert_eq!(t.dynamic_mark_slice, 0);
    assert_eq!(t.dynamic_heap_growth, 0);
    assert_eq!(t.baseline_warmup_trigger, 0);
    assert_eq!(t.ion_warmup_trigger, 0);
}

#[test]
fn no_script_means_repl_only() {
    let c = RunConfiguration::new();
    assert!(!c.runs_script());
    assert!(c.enters_repl());
}

#[test]
fn script_without_shell_flag_skips_repl() {
    let mut c = RunConfiguration::new();
    c.script = String::from("boom.js");
    assert!(c.runs_script());
    assert!(!c.enters_repl());
}

#[test]
fn shell_flag_enters_repl_after_script() {
    let mut c = RunConfiguration::new();
    c.script = String::from("boom.js");
    c.interactive = true;
    assert!(c.runs_script());
    assert!(c.enters_repl());
}

#[test]
fn four_builtins_read_and_read_file_share_one() {
    let b = host_builtins();
    let names: Vec<&str> = b.iter().map(|(n, _)| n.as_str()).collect();
    assert_eq!(names, vec!["print", "load", "read", "readFile"]);
    let targets: Vec<Builtin> = b.iter().map(|(_, t)| *t).collect();
    assert_eq!(targets, vec![Builtin::Print, Builtin::Load, Builtin::Read, Builtin::Read]);
}
