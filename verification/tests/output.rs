use powershell_script::{collect_outcome, Output, PsError, RawOutput};

fn raw(success: bool, stdout: &[u8], stderr: &[u8]) -> RawOutput {
    RawOutput { status_success: success, stdout: stdout.to_vec(), stderr: stderr.to_vec() }
}

#[test]
fn stdout_is_decoded_text() {
    let out = Output::from(raw(true, b"hello world\n", b""));
    assert_eq!(out.stdout().unwrap(), "hello world\n");
    assert!(out.stderr().is_none());
    assert!(out.success());
}

#[test]
fn empty_captures_collapse_to_none() {
    let out = Output::from(raw(true, b"", b""));
    assert!(out.stdout().is_none());
    assert!(out.stderr().is_none());
}

#[test]
fn invalid_bytes_are_replaced_not_fatal() {
    let out = Output::from(raw(true, &[0xff, b'h', b'i'], b""));
    assert_eq!(out.stdout().unwrap(), "\u{FFFD}hi");
}

#[test]
fn render_concatenates_stdout_then_stderr() {
    let out = Output::from(raw(false, b"out", b"err"));
    assert_eq!(out.render(), "outerr");
    let only_err = Output::from(raw(false, b"", b"err"));
    assert_eq!(only_err.render(), "err");
    let neither = Output::from(raw(true, b"", b""));
    assert_eq!(neither.render(), "");
}

#[test]
fn into_inner_gives_the_capture_back() {
    let out = Output::from(raw(false, b"a", b"b"));
    let inner = out.into_inner();
    assert!(!inner.status_success);
    assert_eq!(inner.stdout, b"a".to_vec());
    assert_eq!(inner.stderr, b"b".to_vec());
}

#[test]
fn successful_exit_collects_to_output() {
    let outcome = collect_outcome(raw(true, b"done", b""));
    let out = outcome.unwrap_or_else(|_| panic!("expected a success"));
    assert_eq!(out.stdout().unwrap(), "done");
    assert!(out.success());
}

#[test]
fn failing_exit_preserves_captures_in_the_error() {
    let outcome = collect_outcome(raw(false, b"partial", b"oops"));
    match outcome {
        Err(PsError::Powershell(out)) => {
            assert_eq!(out.stdout().unwrap(), "partial");
            assert_eq!(out.stderr().unwrap(), "oops");
            assert!(!out.success());
        }
        _ => panic!("expected a script-level failure"),
    }
}

#[test]
fn empty_input_never_classifies_as_io_failure() {
    let success = collect_outcome(raw(true, b"", b""));
    match success {
        Ok(out) => assert!(out.stdout().is_none()),
        Err(_) => panic!("expected a success"),
    }
    let failure = collect_outcome(raw(false, b"", b""));
    assert!(matches!(failure, Err(PsError::Powershell(_))));
}

#[test]
fn classification_follows_exit_status_alone() {
    let first = collect_outcome(raw(false, b"one", b""));
    let second = collect_outcome(raw(false, b"two", b"different text"));
    assert!(matches!(first, Err(PsError::Powershell(_))));
    assert!(matches!(second, Err(PsError::Powershell(_))));
    let third = collect_outcome(raw(true, b"one", b""));
    let fourth = collect_outcome(raw(true, b"two", b""));
    assert!(third.is_ok());
    assert!(fourth.is_ok());
}

#[test]
fn error_messages_render_diagnostics() {
    assert_eq!(
        PsError::PowershellNotFound.message(),
        "Failed to find powershell on this system"
    );
    assert_eq!(
        PsError::ChildStdinNotFound.message(),
        "Failed to acquire a handle to stdin in the child process."
    );
    let script_failure = PsError::Powershell(Output::from(raw(false, b"out", b"err")));
    assert_eq!(script_failure.message(), "outerr");
    let io_failure = PsError::from(std::io::Error::new(std::io::ErrorKind::Other, "boom"));
    assert!(matches!(io_failure, PsError::Io(_)));
    assert_eq!(io_failure.message(), "boom");
}

#[test]
fn cloned_output_reads_the_same() {
    let out = Output::from(raw(true, b"text", b"warn"));
    let copy = out.clone();
    assert_eq!(copy.stdout(), out.stdout());
    assert_eq!(copy.stderr(), out.stderr());
    assert_eq!(copy.success(), out.success());
}
