use rnet_core::error::Error;
use rnet_core::http::{StatusCode, Version};
use rnet_core::response::Response;

use rnet_core::config::RedirectPolicy;

fn fresh_response() -> Response {
    Response::new(
        StatusCode(200),
        Version::HTTP_11,
        vec![("content-type".to_string(), b"text/plain".to_vec())],
        Some(5),
        "http://example.test/".to_string(),
        None,
        None,
        None,
        RedirectPolicy::NoFollow,
        Vec::new(),
    )
}

#[test]
fn bytes_twice_returns_identical_content() {
    let mut r = fresh_response();
    assert!(r.needs_collect());
    let first = r.bytes(Some(Ok(b"hello".to_vec()))).unwrap();
    assert_eq!(first, b"hello".to_vec());
    assert!(!r.needs_collect());
    let second = r.bytes(None).unwrap();
    assert_eq!(second, first);
}

#[test]
fn stream_after_buffering_read_fails_consumed() {
    let mut r = fresh_response();
    r.bytes(Some(Ok(b"hello".to_vec()))).unwrap();
    assert!(matches!(r.stream(), Err(Error::BodyConsumed)));
}

#[test]
fn stream_twice_fails_consumed() {
    let mut r = fresh_response();
    assert!(r.stream().is_ok());
    assert!(matches!(r.stream(), Err(Error::BodyConsumed)));
}

#[test]
fn read_after_stream_fails_consumed() {
    let mut r = fresh_response();
    r.stream().unwrap();
    assert!(matches!(r.bytes(None), Err(Error::BodyConsumed)));
}

#[test]
fn close_twice_does_not_error() {
    let mut r = fresh_response();
    r.close();
    r.close();
    assert!(matches!(r.bytes(None), Err(Error::BodyConsumed)));
}

#[test]
fn close_discards_buffered_body() {
    let mut r = fresh_response();
    r.bytes(Some(Ok(b"hello".to_vec()))).unwrap();
    r.close();
    assert!(matches!(r.bytes(None), Err(Error::BodyConsumed)));
}

#[test]
fn failed_collect_invalidates_body() {
    let mut r = fresh_response();
    let got = r.bytes(Some(Err(Error::Transport)));
    assert!(matches!(got, Err(Error::Transport)));
    assert!(matches!(r.bytes(None), Err(Error::BodyConsumed)));
}

#[test]
fn text_decodes_utf8() {
    let mut r = fresh_response();
    let t = r.text(Some(Ok("grüß".as_bytes().to_vec()))).unwrap();
    assert_eq!(t, "grüß");
}

#[test]
fn text_decode_failure_keeps_body_readable() {
    let mut r = fresh_response();
    let t = r.text(Some(Ok(vec![0xff, 0xfe, 0x01])));
    assert!(matches!(t, Err(Error::Decode)));
    // The buffered body survives the decode failure: raw bytes still work.
    let b = r.bytes(None).unwrap();
    assert_eq!(b, vec![0xff, 0xfe, 0x01]);
}

#[test]
fn json_str_accepts_valid_json() {
    let mut r = fresh_response();
    let s = r.json_str(Some(Ok(b"{\"a\":1}".to_vec()))).unwrap();
    assert_eq!(s, "{\"a\":1}");
}

#[test]
fn json_str_rejects_invalid_json_and_keeps_body() {
    let mut r = fresh_response();
    let s = r.json_str(Some(Ok(b"{not json".to_vec())));
    assert!(matches!(s, Err(Error::Decode)));
    let b = r.bytes(None).unwrap();
    assert_eq!(b, b"{not json".to_vec());
}

#[test]
fn metadata_survives_body_state_changes() {
    let mut r = fresh_response();
    r.bytes(Some(Ok(b"hello".to_vec()))).unwrap();
    r.close();
    assert_eq!(r.status.0, 200);
    assert_eq!(r.content_length, Some(5));
    assert_eq!(r.url, "http://example.test/");
    assert_eq!(r.headers.len(), 1);
}

#[test]
fn encoding_reads_charset_parameter() {
    let r = Response::new(
        StatusCode(200),
        Version::HTTP_11,
        vec![("content-type".to_string(), b"text/html; charset=ISO-8859-1".to_vec())],
        None,
        "http://example.test/".to_string(),
        None,
        None,
        None,
        RedirectPolicy::NoFollow,
        Vec::new(),
    );
    // The mime parser normalizes parameter values to lowercase.
    assert_eq!(r.encoding(), "iso-8859-1");
}

#[test]
fn encoding_defaults_to_utf8_without_header() {
    let r = Response::new(
        StatusCode(200),
        Version::HTTP_11,
        Vec::new(),
        None,
        "http://example.test/".to_string(),
        None,
        None,
        None,
        RedirectPolicy::NoFollow,
        Vec::new(),
    );
    assert_eq!(r.encoding(), "utf-8");
}

#[test]
fn encoding_defaults_to_utf8_without_charset_parameter() {
    let r = Response::new(
        StatusCode(200),
        Version::HTTP_11,
        vec![("content-type".to_string(), b"application/json".to_vec())],
        None,
        "http://example.test/".to_string(),
        None,
        None,
        None,
        RedirectPolicy::NoFollow,
        Vec::new(),
    );
    assert_eq!(r.encoding(), "utf-8");
}

#[test]
fn status_code_classes() {
    assert!(StatusCode(204).is_success());
    assert!(!StatusCode(302).is_success());
    assert!(StatusCode(302).is_redirection());
    assert!(StatusCode(404).is_client_error());
    assert!(StatusCode(503).is_server_error());
    assert_eq!(StatusCode(418).as_int(), 418);
}

#[test]
fn text_decodes_the_announced_charset() {
    let mut r = Response::new(
        StatusCode(200),
        Version::HTTP_11,
        vec![("content-type".to_string(), b"text/plain; charset=ISO-8859-1".to_vec())],
        None,
        "http://example.test/".to_string(),
        None,
        None,
        None,
        RedirectPolicy::NoFollow,
        Vec::new(),
    );
    let t = r.text(Some(Ok(vec![0xE9, 0x21]))).unwrap();
    assert_eq!(t, "é!");
}

#[test]
fn text_with_charset_overrides_the_announced_one() {
    let mut r = fresh_response();
    let t = r.text_with_charset(Some(Ok(vec![0xE9])), "iso-8859-1").unwrap();
    assert_eq!(t, "é");
}

#[test]
fn text_with_charset_rejects_unknown_labels() {
    let mut r = fresh_response();
    let t = r.text_with_charset(Some(Ok(b"abc".to_vec())), "no-such-charset");
    assert!(matches!(t, Err(Error::Decode)));
    // The buffered body survives; raw bytes still work.
    assert_eq!(r.bytes(None).unwrap(), b"abc".to_vec());
}

#[test]
fn text_with_charset_rejects_malformed_sequences() {
    let mut r = fresh_response();
    // A truncated UTF-8 sequence; not a byte-order mark, which the decoder
    // would legitimately honour.
    let t = r.text_with_charset(Some(Ok(vec![0x61, 0xC3])), "utf-8");
    assert!(matches!(t, Err(Error::Decode)));
}
