use processing_svc::observability::{tracing_filter, tracing_filter_outcome, TracingInitError};
use tracing_subscriber::EnvFilter;

#[test]
fn accepts_plain_level_filter() {
    assert!(tracing_filter("info").is_ok());
    assert!(tracing_filter("processing_svc=debug,sqlx=warn").is_ok());
}

#[test]
fn accepts_empty_filter() {
    assert!(tracing_filter("").is_ok());
}

#[test]
fn rejects_unknown_level_and_names_the_filter() {
    match tracing_filter("app=notalevel") {
        Err(TracingInitError::InvalidFilter { filter }) => assert_eq!(filter, "app=notalevel"),
        Ok(_) => panic!("filter with an unknown level was accepted"),
    }
}

#[test]
fn invalid_filter_message_quotes_the_filter() {
    let error = tracing_filter("!bad").unwrap_err();
    assert_eq!(error.message(), "invalid tracing filter '!bad'");
}

#[test]
fn outcome_keeps_parsed_filter_and_maps_parse_errors() {
    assert!(tracing_filter_outcome("warn", Ok(EnvFilter::new("warn"))).is_ok());
    let parse_error = EnvFilter::try_new("x=nope").unwrap_err();
    match tracing_filter_outcome("x=nope", Err(parse_error)) {
        Err(TracingInitError::InvalidFilter { filter }) => assert_eq!(filter, "x=nope"),
        Ok(_) => panic!("parse error was not reported"),
    }
}
