use plejd_api::decode::decode_string_map;
use plejd_api::greeting::{
    greeting_from_reply, greeting_from_transfer, status_is_success, FetchError, GREETING_URL,
};
use plejd_api::render::{layout_greeting, render_greeting};

fn pair(k: &str, v: &str) -> (String, String) {
    (k.to_string(), v.to_string())
}

#[test]
fn happy_path_contains_prefix_and_origin() {
    let r = greeting_from_reply(200, br#"{"origin": "1.2.3.4"}"#).unwrap();
    assert!(r.contains("Here we go!!"));
    assert!(r.contains("1.2.3.4"));
}

#[test]
fn happy_path_exact_text() {
    let r = greeting_from_reply(200, br#"{"origin": "1.2.3.4"}"#).unwrap();
    assert_eq!(r, "Here we go!! {\n    \"origin\": \"1.2.3.4\",\n}");
}

#[test]
fn shape_mismatch_is_decode_error() {
    let r = greeting_from_reply(200, br#"{"origin": 1234}"#);
    assert_eq!(r, Err(FetchError::Decode));
}

#[test]
fn nested_value_is_decode_error() {
    assert_eq!(greeting_from_reply(200, br#"{"a": {"b": "c"}}"#), Err(FetchError::Decode));
    assert_eq!(greeting_from_reply(200, br#"{"a": ["b"]}"#), Err(FetchError::Decode));
    assert_eq!(greeting_from_reply(200, br#"["a"]"#), Err(FetchError::Decode));
}

#[test]
fn malformed_json_is_decode_error() {
    assert_eq!(greeting_from_reply(200, b"not-json"), Err(FetchError::Decode));
    assert_eq!(greeting_from_reply(200, b""), Err(FetchError::Decode));
}

#[test]
fn network_failure_is_network_error() {
    assert_eq!(greeting_from_transfer(None), Err(FetchError::Network));
}

#[test]
fn non_success_status_is_status_error() {
    assert_eq!(greeting_from_reply(503, b"{}"), Err(FetchError::HttpStatus(503)));
    assert_eq!(
        greeting_from_transfer(Some((503, b"{}".to_vec()))),
        Err(FetchError::HttpStatus(503))
    );
    assert_eq!(greeting_from_reply(199, b"{}"), Err(FetchError::HttpStatus(199)));
    assert_eq!(greeting_from_reply(300, b"{}"), Err(FetchError::HttpStatus(300)));
}

#[test]
fn status_range_edges() {
    assert!(!status_is_success(0));
    assert!(!status_is_success(199));
    assert!(status_is_success(200));
    assert!(status_is_success(204));
    assert!(status_is_success(299));
    assert!(!status_is_success(300));
    assert!(!status_is_success(u16::MAX));
}

#[test]
fn same_reply_twice_gives_equal_results() {
    let body = br#"{"origin": "1.2.3.4"}"#.to_vec();
    let first = greeting_from_transfer(Some((200, body.clone())));
    let second = greeting_from_transfer(Some((200, body)));
    assert_eq!(first, second);
    assert!(first.is_ok());
    let e1 = greeting_from_reply(503, b"{}");
    let e2 = greeting_from_reply(503, b"{}");
    assert_eq!(e1, e2);
}

#[test]
fn empty_object_gives_empty_braces() {
    assert_eq!(greeting_from_reply(200, b"{}").unwrap(), "Here we go!! {}");
}

#[test]
fn entries_come_in_key_order() {
    let r = greeting_from_reply(204, br#"{"b": "2", "a": "1"}"#).unwrap();
    assert_eq!(r, "Here we go!! {\n    \"a\": \"1\",\n    \"b\": \"2\",\n}");
}

#[test]
fn decode_gives_entries() {
    let e = decode_string_map(br#"{"origin": "203.0.113.7", "x": ""}"#).unwrap();
    assert_eq!(e, vec![pair("origin", "203.0.113.7"), pair("x", "")]);
    assert_eq!(decode_string_map(b"{\"origin\": null}"), None);
}

#[test]
fn render_quotes_and_escapes() {
    let r = render_greeting(&vec![pair("k", "a\"b\n")]);
    assert_eq!(r, "Here we go!! {\n    \"k\": \"a\\\"b\\n\",\n}");
}

#[test]
fn layout_keeps_quoted_text() {
    let r = layout_greeting(&vec![pair("K", "V"), pair("<k>", "<v>")]);
    assert_eq!(r, "Here we go!! {\n    K: V,\n    <k>: <v>,\n}");
    assert_eq!(layout_greeting(&vec![]), "Here we go!! {}");
}

#[test]
fn url_is_the_ip_echo_endpoint() {
    assert_eq!(GREETING_URL, "https://httpbin.org/ip");
}
