use diagnostics_bridge::error::{external_error, ExternalError, MapErr, ErrorKind};

fn three_levels() -> anyhow::Error {
    anyhow::Error::msg("disk is full")
        .context("could not write the cache")
        .context("transform failed")
}

#[test]
fn success_passes_through_untouched() {
    let outcome: Result<u32, anyhow::Error> = Ok(7);
    assert_eq!(outcome.convert_err(), Ok(7));
}

#[test]
fn failure_becomes_a_generic_failure() {
    let outcome: Result<u32, anyhow::Error> = Err(anyhow::Error::msg("boom"));
    let error = outcome.convert_err().unwrap_err();
    assert_eq!(error.kind, ErrorKind::GenericFailure);
    assert!(error.message.starts_with("boom"));
}

#[test]
fn reason_holds_every_level_of_the_chain() {
    let outcome: Result<(), anyhow::Error> = Err(three_levels());
    let error = outcome.convert_err().unwrap_err();
    assert!(error.message.starts_with("transform failed"));
    assert!(error.message.contains("transform failed"));
    assert!(error.message.contains("could not write the cache"));
    assert!(error.message.contains("disk is full"));
}

#[test]
fn reason_lists_the_causes_in_order() {
    let outcome: Result<(), anyhow::Error> = Err(three_levels());
    let error = outcome.convert_err().unwrap_err();
    let expected =
        "transform failed\n\nCaused by:\n    0: could not write the cache\n    1: disk is full";
    assert!(error.message.starts_with(expected));
}

#[test]
fn reason_of_a_single_cause_is_not_numbered() {
    let err = anyhow::Error::msg("no such file").context("could not read the input");
    let error = external_error(&err);
    let expected = "could not read the input\n\nCaused by:\n    no such file";
    assert!(error.message.starts_with(expected));
}

#[test]
fn a_cause_of_several_lines_is_indented_line_by_line() {
    let err = anyhow::Error::msg("first line\nsecond line").context("outer");
    let error = external_error(&err);
    assert!(error.message.starts_with("outer"));
    assert!(error.message.contains("first line"));
    assert!(error.message.contains("second line"));
    assert!(error.message.contains("    first line\n    second line"));
    assert!(!error.message.contains("first line\nsecond line"));
}

#[test]
fn an_outermost_text_of_several_lines_is_kept_whole() {
    let err = anyhow::Error::msg("cause").context("top\nof the chain");
    let error = external_error(&err);
    assert!(error.message.starts_with("top\nof the chain"));
}

#[test]
fn generic_keeps_the_reason() {
    let error = ExternalError::generic(String::from("it failed"));
    assert_eq!(
        error,
        ExternalError { kind: ErrorKind::GenericFailure, message: String::from("it failed") }
    );
}
