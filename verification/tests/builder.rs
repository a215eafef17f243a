use powershell_script::PsScriptBuilder;

#[test]
fn default_builder_args_hold_flags_before_directive() {
    let builder = PsScriptBuilder::new();
    let ps = builder.build();
    assert_eq!(
        ps.args,
        vec![
            "-NoProfile".to_string(),
            "-NonInteractive".to_string(),
            "-Command".to_string(),
            "-".to_string(),
        ]
    );
    assert!(ps.hidden);
    assert!(!ps.print_commands);
}

#[test]
fn default_trait_matches_new() {
    let from_new = PsScriptBuilder::new().build();
    let from_default = PsScriptBuilder::default().build();
    assert_eq!(from_new.args, from_default.args);
    assert_eq!(from_new.hidden, from_default.hidden);
    assert_eq!(from_new.print_commands, from_default.print_commands);
}

#[test]
fn disabled_flags_leave_only_the_directive() {
    let mut builder = PsScriptBuilder::new();
    builder.no_profile(false);
    builder.non_interactive(false);
    let ps = builder.build();
    assert_eq!(ps.args, vec!["-Command".to_string(), "-".to_string()]);
}

#[test]
fn single_flag_precedes_directive() {
    let mut builder = PsScriptBuilder::new();
    builder.no_profile(false);
    let ps = builder.build();
    assert_eq!(
        ps.args,
        vec![
            "-NonInteractive".to_string(),
            "-Command".to_string(),
            "-".to_string(),
        ]
    );
}

#[test]
fn visibility_and_echo_flags_are_recorded() {
    let mut builder = PsScriptBuilder::new();
    builder.hidden(false);
    builder.print_commands(true);
    let ps = builder.build();
    assert!(!ps.hidden);
    assert!(ps.print_commands);
}
