use http::{HeaderMap, HeaderName, HeaderValue};
use rustfs::trace::{recorded_fields, records, span_fields, text_or_invalid};

fn field(name: &str, text: &str) -> (String, String) {
    (name.to_string(), text.to_string())
}

#[test]
fn three_headers_are_recorded() {
    let mut headers = HeaderMap::new();
    headers.insert("host", HeaderValue::from_static("example.com"));
    headers.insert("User-Agent", HeaderValue::from_static("aws-cli/2.0 \t(x)"));
    headers.insert("content-type", HeaderValue::from_static("text/plain"));
    headers.insert("authorization", HeaderValue::from_static("AWS4"));
    headers.insert("content-length", HeaderValue::from_static("12"));
    assert_eq!(
        span_fields(&headers),
        vec![
            field("user-agent", "aws-cli/2.0 \t(x)"),
            field("content-type", "text/plain"),
            field("content-length", "12"),
        ]
    );
}

#[test]
fn no_headers_lead_to_no_fields() {
    assert_eq!(span_fields(&HeaderMap::new()), Vec::new());
}

#[test]
fn values_that_are_no_visible_text_are_called_invalid() {
    let mut headers = HeaderMap::new();
    headers.insert("user-agent", HeaderValue::from_bytes(b"caf\xc3\xa9").unwrap());
    headers.insert("content-type", HeaderValue::from_bytes(b"\x80").unwrap());
    headers.insert("content-length", HeaderValue::from_static(""));
    assert_eq!(
        span_fields(&headers),
        vec![
            field("user-agent", "invalid"),
            field("content-type", "invalid"),
            field("content-length", ""),
        ]
    );
}

#[test]
fn every_value_of_a_header_is_recorded() {
    let mut headers = HeaderMap::new();
    let name = HeaderName::from_static("content-type");
    headers.append(name.clone(), HeaderValue::from_static("text/plain"));
    headers.append("x-other", HeaderValue::from_static("1"));
    headers.append(name, HeaderValue::from_static("text/html"));
    assert_eq!(
        span_fields(&headers),
        vec![field("content-type", "text/plain"), field("content-type", "text/html")]
    );
}

#[test]
fn fields_are_printable() {
    for byte in 0..=255_u8 {
        if let Ok(value) = HeaderValue::from_bytes(&[b'a', byte]) {
            let fields = recorded_fields(&vec![("user-agent".to_string(), value)]);
            let text = match std::str::from_utf8(&[b'a', byte]) {
                Ok(text) => text.to_string(),
                Err(_) => "invalid".to_string(),
            };
            assert_eq!(fields, vec![("user-agent".to_string(), text)], "{byte}");
            assert!(fields[0].1.chars().all(|c| c == '\t' || (' '..='~').contains(&c)));
        }
    }
}

#[test]
fn names_are_recorded_in_lower_case_only() {
    assert!(records("user-agent"));
    assert!(records("content-type"));
    assert!(records("content-length"));
    assert!(!records("User-Agent"));
    assert!(!records("content-encoding"));
    assert!(!records(""));
}

#[test]
fn missing_text_is_called_invalid() {
    assert_eq!(text_or_invalid(Some("x".to_string())), "x");
    assert_eq!(text_or_invalid(None), "invalid");
}
