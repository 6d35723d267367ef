use slow_scan_print::input::{Error, ErrorKind, InputSource};
use std::io;

#[test]
fn empty_uri_is_refused() {
    let error = InputSource::from_uri("").unwrap_err();
    assert_eq!(error.kind(), ErrorKind::UriIsEmpty);
    assert_eq!(error.uri(), "");
    assert!(error.source().is_none());
}

#[test]
fn dash_names_the_standard_input() {
    assert_eq!(InputSource::from_uri("-").unwrap(), InputSource::Stdin);
}

#[test]
fn any_other_text_names_a_file() {
    for uri in ["a", "a.txt", "/nonexistent/path", "--", "-a", " ", "./-", "文件"] {
        assert_eq!(InputSource::from_uri(uri).unwrap(), InputSource::File, "{}", uri);
    }
}

#[test]
fn failure_to_open_carries_uri_and_cause() {
    let cause = io::Error::new(io::ErrorKind::NotFound, "no such file");
    let error = Error::cannot_open_uri("/nonexistent/path", cause);
    assert_eq!(error.kind(), ErrorKind::CannotOpenUri);
    assert_eq!(error.uri(), "/nonexistent/path");
    let source = error.source().unwrap();
    assert_eq!(source.kind(), io::ErrorKind::NotFound);
    assert_eq!(format!("{}", source), "no such file");
}
