use haproxy_api::headers::{header_lookup_key, ordered_header_values};
use haproxy_api::RequestHeaders;

#[test]
fn header_lookup_accepts_lowercase_and_mixed_case_names() {
    assert_eq!(header_lookup_key("traceparent"), None);
    assert_eq!(header_lookup_key("TraceParent"), Some("traceparent".to_owned()));
    assert_eq!(header_lookup_key("X-ÄB"), Some("x-Äb".to_owned()));
}

#[test]
fn header_values_are_ordered_by_index() {
    let values = ordered_header_values(vec![(2, "c"), (0, "a"), (1, "b")]);
    assert_eq!(values, vec!["a", "b", "c"]);
}

#[test]
fn equal_indices_keep_their_table_order() {
    let values = ordered_header_values(vec![(1, "x"), (0, "a"), (1, "y"), (-3, "m"), (1, "z")]);
    assert_eq!(values, vec!["m", "a", "x", "y", "z"]);
    let empty: Vec<(i32, String)> = Vec::new();
    assert!(ordered_header_values(empty).is_empty());
}

#[test]
fn request_headers_keep_fetched_values_in_order() {
    let headers = RequestHeaders::new(vec![Some(b"example".to_vec()), Some(b"example".to_vec())]);
    assert_eq!(headers.len(), 2);
    assert_eq!(headers.get(0).map(|v| v.as_slice()), Some(b"example".as_slice()));
    assert_eq!(headers.get(1).map(|v| v.as_slice()), Some(b"example".as_slice()));
}

#[test]
fn request_headers_keep_missing_values_and_bounds() {
    let headers = RequestHeaders::new(vec![Some("example"), None]);
    assert_eq!(headers.len(), 2);
    assert!(!headers.is_empty());
    assert_eq!(headers.get(0), Some(&"example"));
    assert!(headers.get(1).is_none());
    assert!(headers.get(2).is_none());
    let none: RequestHeaders<&str> = RequestHeaders::new(Vec::new());
    assert!(none.is_empty());
}
