use jsshell::{EvalOutcome, PendingException, Phase, ReplAction, ReplSession};

fn check_text(a: ReplAction) -> String {
    match a {
        ReplAction::Check(b) => b,
        _ => panic!("expected a detector query"),
    }
}

#[test]
fn two_line_function_is_evaluated_once_from_line_one() {
    let mut s = ReplSession::new();
    assert_eq!(check_text(s.on_line("function f() {")), "function f() {");
    assert!(matches!(s.on_detector(false), ReplAction::Prompt));
    assert_eq!(check_text(s.on_line("}")), "function f() {}");
    match s.on_detector(true) {
        ReplAction::Evaluate(u) => {
            assert_eq!(u.text, "function f() {}");
            assert_eq!(u.name, "typein");
            assert_eq!(u.start_line, 1);
        }
        _ => panic!("expected an evaluation"),
    }
    assert_eq!(s.phase(), Phase::Evaluating);
    let r = s.on_evaluated(EvalOutcome::Undefined, &PendingException::Nothing);
    assert!(r.lines.is_empty());
    assert!(!r.clear_pending);
    assert_eq!(s.line_no(), 3);
}

#[test]
fn detector_sees_cumulative_buffer_each_line() {
    let mut s = ReplSession::new();
    let mut seen = Vec::new();
    for line in ["if (x) {", "  y();", "}"] {
        seen.push(check_text(s.on_line(line)));
        if seen.len() < 3 {
            assert!(matches!(s.on_detector(false), ReplAction::Prompt));
        }
    }
    assert_eq!(seen, vec!["if (x) {", "if (x) {  y();", "if (x) {  y();}"]);
    assert!(matches!(s.on_detector(true), ReplAction::Evaluate(_)));
}

#[test]
fn next_turn_starts_on_running_line() {
    let mut s = ReplSession::new();
    s.on_line("a {");
    s.on_detector(false);
    s.on_line("}");
    s.on_detector(true);
    s.on_evaluated(EvalOutcome::Undefined, &PendingException::Nothing);
    s.on_line("1 + 1");
    match s.on_detector(true) {
        ReplAction::Evaluate(u) => {
            assert_eq!(u.text, "1 + 1");
            assert_eq!(u.start_line, 3);
        }
        _ => panic!("expected an evaluation"),
    }
    let r = s.on_evaluated(EvalOutcome::Value(String::from("2")), &PendingException::Nothing);
    assert_eq!(r.lines, vec![String::from("2")]);
    assert_eq!(s.line_no(), 4);
}

#[test]
fn empty_input_is_an_empty_program_with_no_output() {
    let mut s = ReplSession::new();
    assert_eq!(check_text(s.on_line("")), "");
    match s.on_detector(true) {
        ReplAction::Evaluate(u) => assert_eq!(u.text, ""),
        _ => panic!("expected an evaluation"),
    }
    let r = s.on_evaluated(EvalOutcome::Undefined, &PendingException::Nothing);
    assert!(r.lines.is_empty());
}

#[test]
fn failed_turn_reports_and_clears_pending() {
    let mut s = ReplSession::new();
    s.on_line("throw new Error(\"x\")");
    s.on_detector(true);
    let p = PendingException::Report {
        filename: Some(String::from("typein")),
        lineno: 1,
        column: 1,
        message: String::from("x"),
    };
    let r = s.on_evaluated(EvalOutcome::Failed, &p);
    assert!(r.clear_pending);
    assert_eq!(r.lines, vec![String::from("Uncaught exception at typein:1:1 - x")]);
    assert_eq!(s.phase(), Phase::Prompting);
}

#[test]
fn value_is_printed_before_report() {
    let mut s = ReplSession::new();
    s.on_line("v");
    s.on_detector(true);
    let r = s.on_evaluated(
        EvalOutcome::Value(String::from("v")),
        &PendingException::Thrown(String::from("late")),
    );
    assert_eq!(
        r.lines,
        vec![
            String::from("v"),
            String::from("Uncaught exception at none:0:0 - Thrown value: late")
        ]
    );
    assert!(r.clear_pending);
}

#[test]
fn end_of_input_ends_the_loop() {
    let mut s = ReplSession::new();
    assert!(matches!(s.on_end_of_input(), ReplAction::Exit));
    assert_eq!(s.phase(), Phase::Finished);
}
