use jsshell::{
    finish_script, print_builtin, read_result, script_unit, BuiltinResult, FileRead, LoadAction,
    LoadCall, PendingException, ReadAttempt, ScriptError,
};

#[test]
fn print_joins_arguments_on_one_line() {
    let args = vec![String::from("1"), String::from("a"), String::from("true")];
    let (line, r) = print_builtin(&args);
    assert_eq!(line, "1 a true");
    assert!(matches!(r, BuiltinResult::NoValue));
}

#[test]
fn print_without_arguments_writes_empty_line() {
    let (line, r) = print_builtin(&vec![]);
    assert_eq!(line, "");
    assert!(matches!(r, BuiltinResult::NoValue));
}

#[test]
fn read_of_missing_file_fails_in_script() {
    let r = read_result(ReadAttempt::File(FileRead::OpenFailed));
    assert!(matches!(r, BuiltinResult::Failure));
}

#[test]
fn read_failures_all_reach_the_script() {
    assert!(matches!(read_result(ReadAttempt::NoArgument), BuiltinResult::Failure));
    assert!(matches!(read_result(ReadAttempt::Unconvertible), BuiltinResult::Failure));
    assert!(matches!(
        read_result(ReadAttempt::File(FileRead::ReadFailed)),
        BuiltinResult::Failure
    ));
}

#[test]
fn read_returns_whole_content() {
    let r = read_result(ReadAttempt::File(FileRead::Contents(String::from("a\nb\n"))));
    match r {
        BuiltinResult::Text(t) => assert_eq!(t, "a\nb\n"),
        _ => panic!("expected the file's text"),
    }
}

#[test]
fn script_unit_starts_on_line_one_under_its_path() {
    let u = script_unit("/w/a.js", FileRead::Contents(String::from("x;"))).ok().unwrap();
    assert_eq!(u.text, "x;");
    assert_eq!(u.name, "/w/a.js");
    assert_eq!(u.start_line, 1);
}

#[test]
fn unreadable_script_never_reaches_engine() {
    assert_eq!(script_unit("a.js", FileRead::OpenFailed).err(), Some(ScriptError::Open));
    assert_eq!(script_unit("a.js", FileRead::ReadFailed).err(), Some(ScriptError::Read));
    assert_eq!(ScriptError::Open.message(), "Error opening source file");
    assert_eq!(ScriptError::Read.message(), "Error reading from source file");
    assert_eq!(ScriptError::Execute.message(), "Error executing script");
}

#[test]
fn throwing_script_reports_and_fails_the_run() {
    let p = PendingException::Report {
        filename: Some(String::from("/w/boom.js")),
        lineno: 3,
        column: 7,
        message: String::from("boom"),
    };
    let r = finish_script(false, &p);
    assert_eq!(r.result, Err(ScriptError::Execute));
    assert!(r.guard.clear_pending);
    assert_eq!(
        r.guard.message.as_deref(),
        Some("Uncaught exception at /w/boom.js:3:7 - boom")
    );
}

#[test]
fn clean_script_succeeds_silently() {
    let r = finish_script(true, &PendingException::Nothing);
    assert_eq!(r.result, Ok(1));
    assert!(!r.guard.clear_pending);
    assert!(r.guard.message.is_none());
}

#[test]
fn load_runs_arguments_in_order_then_returns_nothing() {
    let mut call = LoadCall::new(2);
    let mut runs = Vec::new();
    loop {
        match call.next_action() {
            LoadAction::Convert(i) => match call.on_converted(Some(format!("f{}.js", i))) {
                LoadAction::Run(p) => runs.push(p),
                _ => panic!("expected a run"),
            },
            LoadAction::Return(r) => {
                assert!(matches!(r, BuiltinResult::NoValue));
                break;
            }
            LoadAction::Run(_) => panic!("no run without a converted argument"),
        }
    }
    assert_eq!(runs, vec!["f0.js", "f1.js"]);
}

#[test]
fn load_fails_on_unconvertible_argument() {
    let mut call = LoadCall::new(3);
    assert!(matches!(call.next_action(), LoadAction::Convert(0)));
    assert!(matches!(
        call.on_converted(None),
        LoadAction::Return(BuiltinResult::Failure)
    ));
}

// A script here is a list of statements: `load <path>` or `mark <name>`.
fn run(path: &str, files: &[(&str, Vec<&str>)], log: &mut Vec<String>) {
    let body = &files.iter().find(|(p, _)| *p == path).unwrap().1;
    for stmt in body {
        if let Some(target) = stmt.strip_prefix("load ") {
            let mut call = LoadCall::new(1);
            loop {
                match call.next_action() {
                    LoadAction::Convert(_) => match call.on_converted(Some(target.to_string())) {
                        LoadAction::Run(p) => run(&p, files, log),
                        _ => panic!("expected a run"),
                    },
                    LoadAction::Return(_) => break,
                    LoadAction::Run(_) => panic!("unexpected run"),
                }
            }
        } else {
            log.push(format!("{}:{}", path, stmt));
        }
    }
}

#[test]
fn nested_load_runs_depth_first() {
    let files = vec![
        ("a.js", vec!["mark 1", "load b.js", "mark 2"]),
        ("b.js", vec!["load c.js", "mark 1"]),
        ("c.js", vec!["mark 1"]),
    ];
    let mut log = Vec::new();
    run("a.js", &files, &mut log);
    assert_eq!(log, vec!["a.js:mark 1", "c.js:mark 1", "b.js:mark 1", "a.js:mark 2"]);
}

#[test]
fn unreadable_script_is_reported_by_the_host() {
    let open = script_unit("missing.js", FileRead::OpenFailed).err().unwrap();
    assert_eq!(open.host_report().as_deref(), Some("Error opening source file"));
    let read = script_unit("dir.js", FileRead::ReadFailed).err().unwrap();
    assert_eq!(read.host_report().as_deref(), Some("Error reading from source file"));
}

#[test]
fn failed_evaluation_has_no_host_line() {
    let r = finish_script(false, &PendingException::Thrown(String::from("42")));
    assert_eq!(r.result.err().unwrap().host_report(), None);
    assert_eq!(
        r.guard.message.as_deref(),
        Some("Uncaught exception at none:0:0 - Thrown value: 42")
    );
}
