use argpars::{Argpars, ArgsObj};

fn registry(tokens: &[&str]) -> ArgsObj {
    Argpars::new(tokens.iter().map(|token| token.to_string()).collect())
}

#[test]
fn flags_and_their_parameters_are_accepted() {
    let mut args = registry(&["prog", "--alpha", "one", "--beta", "--alpha", "--gamma", "two"]);
    args.add_argument("--alpha", "first");
    args.add_argument("--beta", "second");
    args.add_argument("--gamma", "third");
    assert!(!args.wrong_arguments_passed());
    let outcome = args.pars();
    assert_eq!(outcome.exit_code, 0);
    assert_eq!(outcome.stdout, "");
    assert_eq!(outcome.stderr, "");
}

#[test]
fn builtin_flags_are_accepted() {
    let args = registry(&["prog", "--version", "--help"]);
    assert!(!args.wrong_arguments_passed());
    assert!(args.default_arguments_passed());
    assert_eq!(args.pars().exit_code, 0);
}

#[test]
fn single_unknown_flag_is_named() {
    let mut args = registry(&["prog", "--alpha", "one", "--bogus", "--beta"]);
    args.add_argument("--alpha", "first");
    args.add_argument("--beta", "second");
    assert!(args.wrong_arguments_passed());
    let outcome = args.pars();
    assert_eq!(outcome.exit_code, 1);
    assert_eq!(
        outcome.stderr,
        "ERROR: No such option: '--bogus'\nTry: 'prog --help' for more information.\n"
    );
    assert_eq!(outcome.stdout, "");
}

#[test]
fn first_violation_is_the_one_reported() {
    let mut args = registry(&["prog", "--alpha", "one", "two", "--bogus"]);
    args.add_argument("--alpha", "first");
    let outcome = args.pars();
    assert_eq!(outcome.exit_code, 1);
    assert_eq!(
        outcome.stderr,
        "ERROR: No such option: 'two'\nTry: 'prog --help' for more information.\n"
    );
}

#[test]
fn parameter_right_after_program_path_is_rejected() {
    let args = registry(&["prog", "value"]);
    assert!(args.wrong_arguments_passed());
    let outcome = args.pars();
    assert_eq!(outcome.exit_code, 1);
    assert_eq!(
        outcome.stderr,
        "ERROR: No such option: 'value'\nTry: 'prog --help' for more information.\n"
    );
}

#[test]
fn parameter_after_unknown_flag_is_not_reached() {
    let args = registry(&["prog", "--bogus", "value"]);
    let outcome = args.pars();
    assert_eq!(outcome.exit_code, 1);
    assert!(outcome.stderr.starts_with("ERROR: No such option: '--bogus'\n"));
}

#[test]
fn failure_shows_neither_help_nor_version() {
    let args = registry(&["prog", "--help", "--version", "--bogus"]);
    let outcome = args.pars();
    assert_eq!(outcome.exit_code, 1);
    assert_eq!(outcome.stdout, "");
}

#[test]
fn single_dash_counts_as_marked() {
    let mut args = registry(&["prog", "-"]);
    assert!(args.wrong_arguments_passed());
    args.add_argument("-", "standard input");
    assert!(!args.wrong_arguments_passed());
}

#[test]
fn empty_token_is_a_parameter() {
    let mut args = registry(&["prog", "--alpha", ""]);
    args.add_argument("--alpha", "first");
    assert!(!args.wrong_arguments_passed());
    assert_eq!(args.get_parameter_for("--alpha"), "");
    let stray = registry(&["prog", ""]);
    assert!(stray.wrong_arguments_passed());
}

#[test]
fn unmarked_flag_is_read_as_a_parameter() {
    let mut args = registry(&["prog", "plain"]);
    args.add_argument("plain", "registered without the marker");
    assert!(args.passed("plain"));
    assert!(args.wrong_arguments_passed());
    assert_eq!(args.pars().exit_code, 1);
}

#[test]
fn marker_is_the_first_character_only() {
    let mut args = registry(&["prog", "--alpha", "a-b", "\u{2212}x"]);
    args.add_argument("--alpha", "first");
    let outcome = args.pars();
    assert_eq!(outcome.exit_code, 1);
    assert_eq!(
        outcome.stderr,
        "ERROR: No such option: '\u{2212}x'\nTry: 'prog --help' for more information.\n"
    );
}

#[test]
fn version_flag_prints_version_line() {
    let mut args = registry(&["prog", "--version"]);
    args.help_name = "Test App".to_string();
    args.help_version = "v1.0".to_string();
    let outcome = args.pars();
    assert_eq!(outcome.exit_code, 0);
    assert_eq!(outcome.stdout, "Test App version: v1.0\n");
}

#[test]
fn help_comes_before_version() {
    let args = registry(&["prog", "--version", "--help"]);
    let outcome = args.pars();
    let mut expected = args.display_help_screen();
    expected.push_str("Default name version: Default version\n");
    assert_eq!(outcome.stdout, expected);
}

#[test]
fn switched_off_builtins_print_nothing() {
    let mut args = registry(&["prog", "--help"]);
    args.no_default_arguments();
    args.add_argument("--help", "my own help");
    let outcome = args.pars();
    assert_eq!(outcome.exit_code, 0);
    assert_eq!(outcome.stdout, "");
    assert!(args.default_arguments_passed());
}

#[test]
fn switched_off_builtins_are_unknown() {
    let mut args = registry(&["prog", "--help"]);
    args.no_default_arguments();
    let outcome = args.pars();
    assert_eq!(outcome.exit_code, 1);
    assert_eq!(
        outcome.stderr,
        "ERROR: No such option: '--help'\nTry: 'prog --help' for more information.\n"
    );
}

#[test]
fn program_path_named_like_help_is_no_request_for_help() {
    let args = registry(&["--help"]);
    assert!(args.no_arguments_passed());
    assert!(args.passed("--help"));
    let outcome = args.pars();
    assert_eq!(outcome.exit_code, 0);
    assert_eq!(outcome.stdout, "");
}

#[test]
fn error_message_names_token_and_program() {
    let args = registry(&["/usr/bin/tool", "x"]);
    assert_eq!(
        args.display_error_message("no_such_option", "--what"),
        "ERROR: No such option: '--what'\nTry: '/usr/bin/tool --help' for more information.\n"
    );
}

#[test]
fn error_message_of_another_kind_is_empty() {
    let args = registry(&["prog"]);
    assert_eq!(args.display_error_message("something_else", "--what"), "");
    assert_eq!(args.display_error_message("", "--what"), "");
    assert_eq!(args.display_error_message("no_such_option ", "--what"), "");
}

#[test]
fn empty_invocation_has_nothing_to_reject() {
    let mut args = registry(&["prog", "stray"]);
    args.arguments_passed.clear();
    assert!(!args.no_arguments_passed());
    assert!(!args.wrong_arguments_passed());
    args.last_param_ok = true;
    assert!(!args.wrong_arguments_passed());
    let outcome = args.pars();
    assert_eq!(outcome.exit_code, 0);
    assert_eq!(outcome.stdout, "");
    assert_eq!(outcome.stderr, "");
    assert_eq!(args.get_parameter_for("stray"), "");
    assert_eq!(args.display_error_message("other", "x"), "");
}
