use hermit::message::{error, error_str};

#[test]
fn error_names_the_program_then_the_failure() {
    assert_eq!(error("hermit", "No shell is active right now"), "hermit: error: No shell is active right now");
}

#[test]
fn error_str_words_its_details_the_same_way() {
    assert_eq!(error_str("hermit", "unknown subcommand passed"), "hermit: error: unknown subcommand passed");
    assert_eq!(error_str("h", "x"), error("h", "x"));
}

#[test]
fn error_keeps_empty_parts() {
    assert_eq!(error("", ""), ": error: ");
}
