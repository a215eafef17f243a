use powershell_script::{split_lines, stream_plan, StreamAction};

fn line_of(action: &StreamAction) -> &str {
    match action {
        StreamAction::Echo { line } => line,
        StreamAction::Send { line } => line,
    }
}

fn is_echo(action: &StreamAction) -> bool {
    matches!(action, StreamAction::Echo { .. })
}

fn owned(lines: &[&str]) -> Vec<String> {
    lines.iter().map(|l| l.to_string()).collect()
}

#[test]
fn empty_script_has_no_lines() {
    assert_eq!(split_lines(""), Vec::<String>::new());
}

#[test]
fn single_line_without_terminator() {
    assert_eq!(split_lines("echo \"hello world\""), owned(&["echo \"hello world\""]));
}

#[test]
fn trailing_newline_adds_no_line() {
    assert_eq!(split_lines("a\n"), owned(&["a"]));
}

#[test]
fn carriage_return_stripped_before_newline_only() {
    assert_eq!(split_lines("a\r\nb"), owned(&["a", "b"]));
    assert_eq!(split_lines("a\r"), owned(&["a\r"]));
    assert_eq!(split_lines("a\rb\nc"), owned(&["a\rb", "c"]));
}

#[test]
fn blank_lines_are_kept() {
    assert_eq!(split_lines("\n"), owned(&[""]));
    assert_eq!(split_lines("a\n\nb"), owned(&["a", "", "b"]));
}

#[test]
fn matches_std_line_splitting() {
    let samples = ["", "one", "one\ntwo\nthree", "x\r\n\r\ny\r", "\n\n", "mixed\nunix\r\nwindows"];
    for s in samples {
        let expected: Vec<String> = s.lines().map(|l| l.to_string()).collect();
        assert_eq!(split_lines(s), expected);
    }
}

#[test]
fn plan_without_echo_only_sends_in_order() {
    let plan = stream_plan("a\nb\nc", false);
    assert_eq!(plan.len(), 3);
    for action in &plan {
        assert!(!is_echo(action));
    }
    let sent: Vec<&str> = plan.iter().map(line_of).collect();
    assert_eq!(sent, vec!["a", "b", "c"]);
}

#[test]
fn plan_with_echo_echoes_each_line_before_sending_it() {
    let plan = stream_plan("a\nb", true);
    assert_eq!(plan.len(), 4);
    assert!(is_echo(&plan[0]));
    assert_eq!(line_of(&plan[0]), "a");
    assert!(!is_echo(&plan[1]));
    assert_eq!(line_of(&plan[1]), "a");
    assert!(is_echo(&plan[2]));
    assert_eq!(line_of(&plan[2]), "b");
    assert!(!is_echo(&plan[3]));
    assert_eq!(line_of(&plan[3]), "b");
}

#[test]
fn empty_script_streams_nothing() {
    assert!(stream_plan("", true).is_empty());
    assert!(stream_plan("", false).is_empty());
}
