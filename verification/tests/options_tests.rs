use layline::options::{log_destination, resolve, LogDest};

#[test]
fn options_that_were_not_given_have_defaults() {
    let opts = resolve(None, None, false, false, None);
    assert_eq!(opts, (100, 900, false, false, "x-forwarded-for".to_string()));
}

#[test]
fn options_that_were_given_are_kept() {
    let opts = resolve(Some(7), Some(30), true, true, Some("x-real-ip".to_string()));
    assert_eq!(opts, (7, 30, true, true, "x-real-ip".to_string()));
}

#[test]
fn log_goes_to_stderr_or_to_the_directory_named() {
    assert!(matches!(log_destination("stderr"), LogDest::Stderr));
    match log_destination("/var/log/tunnel") {
        LogDest::Directory(path) => assert_eq!(path, "/var/log/tunnel"),
        _ => panic!("expected a directory"),
    }
    assert!(matches!(log_destination("stderr2"), LogDest::Directory(_)));
    assert!(matches!(log_destination(""), LogDest::Directory(_)));
}

#[test]
fn limits_are_as_documented() {
    assert_eq!(layline::constants::BODY_SIZE_LIMIT, 1 << 20);
    assert_eq!(layline::constants::LONG_POLL_TIMEOUT, 10);
    assert_eq!(layline::constants::HTTP_TIMEOUT, 60);
    assert_eq!(layline::constants::ONE_SECOND, 1);
    assert_eq!(layline::constants::ID_SIZE_BINARY * 2, layline::constants::ID_SIZE_ASCII_HEX);
}
