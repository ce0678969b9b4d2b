use hyper::header::HeaderValue;
use hyper::HeaderMap;
use layline::headers::{get_xff_ip, read_header, HeaderRead};

fn map(name: &'static str, value: &[u8]) -> HeaderMap<HeaderValue> {
    let mut headers = HeaderMap::new();
    headers.insert(name, HeaderValue::from_bytes(value).unwrap());
    headers
}

#[test]
fn missing_header_is_missing() {
    let headers = HeaderMap::new();
    assert!(matches!(read_header(&headers, "x-layline-session"), HeaderRead::Missing));
    assert!(get_xff_ip(&headers, "x-forwarded-for").is_none());
}

#[test]
fn header_text_is_read_whatever_the_case_of_its_name() {
    let headers = map("x-forwarded-for", b"1.2.3.4,\t5.6.7.8");
    match read_header(&headers, "X-Forwarded-For") {
        HeaderRead::Text(text) => assert_eq!(text, "1.2.3.4,\t5.6.7.8"),
        _ => panic!("expected text"),
    }
    assert_eq!(
        get_xff_ip(&headers, "x-forwarded-for"),
        Some("1.2.3.4,\t5.6.7.8".to_string())
    );
    assert_eq!(get_xff_ip(&headers, "x-real-ip"), None);
}

#[test]
fn long_header_names_ignore_case_too() {
    let name = "x-0123456789-0123456789-0123456789-0123456789-0123456789-0123456789-0123456789";
    let headers = map(name, b"here");
    assert_eq!(get_xff_ip(&headers, &name.to_uppercase()), Some("here".to_string()));
}

#[test]
fn names_that_no_header_can_have_are_missing() {
    let headers = map("x-forwarded-for", b"1.2.3.4");
    assert!(matches!(read_header(&headers, ""), HeaderRead::Missing));
    assert!(matches!(read_header(&headers, "x forwarded for"), HeaderRead::Missing));
    assert!(matches!(read_header(&headers, "x-forwarded-f\u{f6}r"), HeaderRead::Missing));
}

#[test]
fn first_of_several_values_counts() {
    let mut headers = map("x-forwarded-for", b"first");
    headers.append("x-forwarded-for", HeaderValue::from_static("second"));
    assert_eq!(get_xff_ip(&headers, "x-forwarded-for"), Some("first".to_string()));
}

#[test]
fn value_beyond_ascii_is_unreadable() {
    let headers = map("x-layline-session", b"caf\xc3\xa9");
    assert!(matches!(read_header(&headers, "x-layline-session"), HeaderRead::Unreadable));
    assert!(get_xff_ip(&headers, "x-layline-session").is_none());
}
