use argpars::{Argpars, ArgsObj};

fn registry(tokens: &[&str]) -> ArgsObj {
    Argpars::new(tokens.iter().map(|token| token.to_string()).collect())
}

#[test]
fn no_arguments_means_one_element() {
    assert!(registry(&["prog"]).no_arguments_passed());
    assert!(!registry(&["prog", "--help"]).no_arguments_passed());
    assert!(!registry(&["prog", "a", "b"]).no_arguments_passed());
    assert!(!registry(&["prog", ""]).no_arguments_passed());
}

#[test]
fn passed_is_literal_membership() {
    let args = registry(&["prog", "--alpha", "value", "--Beta"]);
    assert!(args.passed("--alpha"));
    assert!(args.passed("value"));
    assert!(args.passed("prog"));
    assert!(args.passed("--Beta"));
    assert!(!args.passed("--beta"));
    assert!(!args.passed("--alph"));
    assert!(!args.passed("--alpha "));
    assert!(!args.passed(""));
    assert!(!args.passed("--help"));
}

#[test]
fn passed_does_not_depend_on_registration() {
    let mut args = registry(&["prog", "--alpha"]);
    assert!(args.passed("--alpha"));
    args.add_argument("--alpha", "first");
    assert!(args.passed("--alpha"));
    args.add_argument("--beta", "second");
    assert!(!args.passed("--beta"));
}

#[test]
fn default_arguments_passed_looks_for_either() {
    assert!(registry(&["prog", "--help"]).default_arguments_passed());
    assert!(registry(&["prog", "x", "--version"]).default_arguments_passed());
    assert!(!registry(&["prog", "--helpme"]).default_arguments_passed());
    assert!(!registry(&["prog"]).default_arguments_passed());
}

#[test]
fn parameter_is_the_next_token() {
    let mut args = registry(&["prog", "--alpha", "one", "--beta", "two"]);
    args.add_argument("--alpha", "first");
    args.add_argument("--beta", "second");
    assert_eq!(args.get_parameter_for("--alpha"), "one");
    assert_eq!(args.get_parameter_for("--beta"), "two");
}

#[test]
fn parameter_is_empty_before_a_registered_flag() {
    let mut args = registry(&["prog", "--alpha", "--beta", "two"]);
    args.add_argument("--alpha", "first");
    assert_eq!(args.get_parameter_for("--alpha"), "--beta");
    args.add_argument("--beta", "second");
    assert_eq!(args.get_parameter_for("--alpha"), "");
    assert_eq!(args.get_parameter_for("--beta"), "two");
}

#[test]
fn parameter_is_empty_at_the_end() {
    let mut args = registry(&["prog", "--alpha"]);
    args.add_argument("--alpha", "first");
    assert_eq!(args.get_parameter_for("--alpha"), "");
}

#[test]
fn parameter_is_taken_at_the_first_occurrence() {
    let mut args = registry(&["prog", "--alpha", "one", "--alpha", "two"]);
    args.add_argument("--alpha", "first");
    assert_eq!(args.get_parameter_for("--alpha"), "one");
}

#[test]
fn parameter_of_any_token_can_be_asked() {
    let args = registry(&["prog", "left", "right"]);
    assert_eq!(args.get_parameter_for("prog"), "left");
    assert_eq!(args.get_parameter_for("left"), "right");
    assert_eq!(args.get_parameter_for("right"), "");
}

#[test]
fn parameter_of_an_absent_token_is_empty() {
    let mut args = registry(&["prog", "--alpha", "one"]);
    args.add_argument("--alpha", "first");
    args.add_argument("--beta", "second");
    assert_eq!(args.get_parameter_for("--beta"), "");
    assert_eq!(args.get_parameter_for("--gamma"), "");
}

#[test]
fn free_functions_search_lists() {
    let list = vec!["a".to_string(), "b".to_string(), "a".to_string(), "".to_string()];
    assert!(argpars::is_value_in_a_vector_str("a", &list));
    assert!(argpars::is_value_in_a_vector_str("b", &list));
    assert!(argpars::is_value_in_a_vector_str("", &list));
    assert!(!argpars::is_value_in_a_vector_str("c", &list));
    assert!(!argpars::is_value_in_a_vector_str("ab", &list));
    assert!(!argpars::is_value_in_a_vector_str("a", &[]));
    assert_eq!(argpars::text::position_of("a", &list), Some(0));
    assert_eq!(argpars::text::position_of("b", &list), Some(1));
    assert_eq!(argpars::text::position_of("", &list), Some(3));
    assert_eq!(argpars::text::position_of("c", &list), None);
}

#[test]
fn string_equality_is_exact() {
    assert!(argpars::text::str_eq("", ""));
    assert!(argpars::text::str_eq("--help", "--help"));
    assert!(!argpars::text::str_eq("--help", "--hel"));
    assert!(!argpars::text::str_eq("--help", "--helq"));
    assert!(!argpars::text::str_eq("a", "A"));
    assert!(argpars::text::str_eq("na\u{ef}ve \u{1f600}", "na\u{ef}ve \u{1f600}"));
    assert!(!argpars::text::str_eq("nai\u{308}ve", "na\u{ef}ve"));
}

#[test]
fn marker_test_looks_at_the_first_character() {
    assert!(argpars::text::starts_with_marker("-"));
    assert!(argpars::text::starts_with_marker("-x"));
    assert!(argpars::text::starts_with_marker("--long"));
    assert!(!argpars::text::starts_with_marker(""));
    assert!(!argpars::text::starts_with_marker("x-"));
    assert!(!argpars::text::starts_with_marker(" -x"));
    assert!(!argpars::text::starts_with_marker("\u{2212}x"));
    assert!(!argpars::text::starts_with_marker("\u{e9}-"));
}
