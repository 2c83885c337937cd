use rnet_core::client::Client;
use rnet_core::headers::{validate_header_name, validate_header_value};
use rnet_core::config::{Builder, RedirectPolicy};
use rnet_core::error::Error;
use rnet_core::http::Method;
use rnet_core::json::Json;
use rnet_core::request::{Auth, RequestSpec};

fn plain_client() -> Client {
    Client::new(Builder::default()).unwrap()
}

fn header_names(plan_headers: &rnet_core::headers::HeaderMap) -> Vec<String> {
    let mut out = Vec::new();
    let mut i = 0;
    while i < plan_headers.len() {
        let (n, _) = plan_headers.entry_at(i);
        out.push(n.clone());
        i += 1;
    }
    out
}

#[test]
fn json_payload_round_trips_through_echo() {
    // A spec with json payload {"a": 1}, sent to an echo endpoint and read
    // back via the json accessor, yields a structurally equal value.
    let client = plain_client();
    let mut spec = RequestSpec::new();
    let mut members: Vec<(String, Json)> = Vec::new();
    members.push(("a".to_string(), Json::Number(1)));
    spec.json(Json::Object(members));
    let plan = client
        .request(Method::POST, "http://echo.test/".to_string(), spec, None)
        .unwrap();
    assert_eq!(plan.body, b"{\"a\":1}".to_vec());

    // The echo endpoint returns the body unchanged.
    let mut resp = rnet_core::response::Response::new(
        rnet_core::http::StatusCode(200),
        rnet_core::http::Version::HTTP_11,
        vec![("content-type".to_string(), b"application/json".to_vec())],
        Some(plan.body.len() as u64),
        "http://echo.test/".to_string(),
        None,
        None,
        None,
        RedirectPolicy::NoFollow,
        Vec::new(),
    );
    let echoed = resp.json_str(Some(Ok(plan.body.clone()))).unwrap();

    // Structural equality, checked with an independent JSON parser.
    let got: serde_json::Value = serde_json::from_str(&echoed).unwrap();
    let mut expected_map = serde_json::Map::new();
    expected_map.insert("a".to_string(), serde_json::Value::from(1i64));
    let expected = serde_json::Value::Object(expected_map);
    assert_eq!(got, expected);
}

#[test]
fn payload_last_setter_wins() {
    let client = plain_client();
    let mut spec = RequestSpec::new();
    spec.form(vec![("a".to_string(), "1".to_string())]);
    spec.json(Json::Boolean(true));
    let plan = client
        .request(Method::POST, "http://x.test/".to_string(), spec, None)
        .unwrap();
    assert_eq!(plan.body, b"true".to_vec());
}

#[test]
fn form_payload_is_urlencoded() {
    let client = plain_client();
    let mut spec = RequestSpec::new();
    let pairs = vec![
        ("key one".to_string(), "a&b".to_string()),
        ("k2".to_string(), "Ä".to_string()),
    ];
    // serde_urlencoded is the independent oracle for the encoding.
    let oracle = serde_urlencoded::to_string(&pairs).unwrap();
    spec.form(pairs);
    let plan = client
        .request(Method::POST, "http://x.test/".to_string(), spec, None)
        .unwrap();
    assert_eq!(plan.body, oracle.as_bytes().to_vec());
    assert_eq!(plan.body, b"key+one=a%26b&k2=%C3%84".to_vec());
}

#[test]
fn query_pairs_are_urlencoded_in_order() {
    let client = plain_client();
    let mut spec = RequestSpec::new();
    spec.query = vec![
        ("q".to_string(), "rust verus".to_string()),
        ("q".to_string(), "two".to_string()),
    ];
    let plan = client
        .request(Method::GET, "http://x.test/".to_string(), spec, None)
        .unwrap();
    assert_eq!(plan.query_string, b"q=rust+verus&q=two".to_vec());
}

#[test]
fn header_application_order_is_documented_order() {
    let mut b = Builder::default();
    b.default_headers = Some(vec![("X-Base".to_string(), b"base".to_vec())]);
    let client = Client::new(b).unwrap();

    let mut spec = RequestSpec::new();
    spec.headers = vec![("X-Extra".to_string(), b"extra".to_vec())];
    spec.cookies = vec![("sid".to_string(), "42".to_string())];
    let plan = client
        .request(
            Method::GET,
            "http://x.test/".to_string(),
            spec,
            Some(b"stored=1".to_vec()),
        )
        .unwrap();

    // Explicit cookies suppress the store-derived Cookie header; order is:
    // defaults, per-call headers, explicit cookie header.
    let names = header_names(&plan.headers);
    assert_eq!(names, vec!["x-base", "x-extra", "cookie"]);
    let (_, cookie_value) = plan.headers.entry_at(2);
    assert_eq!(cookie_value, &b"sid=42".to_vec());
}

#[test]
fn store_cookie_used_when_no_explicit_cookies() {
    let client = plain_client();
    let spec = RequestSpec::new();
    let plan = client
        .request(
            Method::GET,
            "http://x.test/".to_string(),
            spec,
            Some(b"stored=1".to_vec()),
        )
        .unwrap();
    let names = header_names(&plan.headers);
    assert_eq!(names, vec!["cookie"]);
    let (_, v) = plan.headers.entry_at(0);
    assert_eq!(v, &b"stored=1".to_vec());
}

#[test]
fn per_call_header_overrides_default_by_name() {
    let mut b = Builder::default();
    b.default_headers = Some(vec![("X-Tag".to_string(), b"old".to_vec())]);
    let client = Client::new(b).unwrap();
    let mut spec = RequestSpec::new();
    spec.headers = vec![("x-tag".to_string(), b"new".to_vec())];
    let plan = client
        .request(Method::GET, "http://x.test/".to_string(), spec, None)
        .unwrap();
    assert_eq!(header_names(&plan.headers), vec!["x-tag"]);
    let (_, v) = plan.headers.entry_at(0);
    assert_eq!(v, &b"new".to_vec());
}

#[test]
fn per_call_cookie_headers_append() {
    let client = plain_client();
    let mut spec = RequestSpec::new();
    spec.headers = vec![
        ("Cookie".to_string(), b"a=1".to_vec()),
        ("Cookie".to_string(), b"b=2".to_vec()),
    ];
    let plan = client
        .request(Method::GET, "http://x.test/".to_string(), spec, None)
        .unwrap();
    assert_eq!(header_names(&plan.headers), vec!["cookie", "cookie"]);
}

#[test]
fn default_headers_can_be_suppressed() {
    let mut b = Builder::default();
    b.default_headers = Some(vec![("X-Base".to_string(), b"base".to_vec())]);
    let client = Client::new(b).unwrap();
    let mut spec = RequestSpec::new();
    spec.default_headers = Some(false);
    let plan = client
        .request(Method::GET, "http://x.test/".to_string(), spec, None)
        .unwrap();
    assert_eq!(plan.headers.len(), 0);
}

#[test]
fn malformed_header_name_fails_before_send() {
    let client = plain_client();
    let mut spec = RequestSpec::new();
    spec.headers = vec![("bad name".to_string(), b"v".to_vec())];
    let r = client.request(Method::GET, "http://x.test/".to_string(), spec, None);
    assert!(matches!(r, Err(Error::Config)));
}

#[test]
fn malformed_header_value_fails_before_send() {
    let client = plain_client();
    let mut spec = RequestSpec::new();
    spec.headers = vec![("x-ok".to_string(), vec![0x0a])];
    let r = client.request(Method::GET, "http://x.test/".to_string(), spec, None);
    assert!(matches!(r, Err(Error::Config)));
}

#[test]
fn header_name_validation_agrees_with_http_crate() {
    let samples: Vec<&str> = vec![
        "content-type",
        "X-Custom-Header",
        "a",
        "x_y.z~",
        "bad name",
        "",
        "tab\there",
        "colon:name",
        "über",
    ];
    for s in samples {
        let mine = validate_header_name(s).is_ok();
        let oracle = http::header::HeaderName::from_bytes(s.as_bytes()).is_ok();
        assert_eq!(mine, oracle, "disagreement on {:?}", s);
    }
}

#[test]
fn header_value_validation_agrees_with_http_crate() {
    let samples: Vec<Vec<u8>> = vec![
        b"plain".to_vec(),
        b"with space".to_vec(),
        b"tab\there".to_vec(),
        vec![0x00],
        vec![0x0a],
        vec![0x7f],
        vec![0x80, 0xff],
        Vec::new(),
    ];
    for v in samples {
        let mine = validate_header_value(&v).is_ok();
        let oracle = http::header::HeaderValue::from_bytes(&v).is_ok();
        assert_eq!(mine, oracle, "disagreement on {:?}", v);
    }
}

#[test]
fn bearer_auth_builds_authorization_header() {
    let client = plain_client();
    let mut spec = RequestSpec::new();
    spec.auth = Some(Auth::Bearer("tok123".to_string()));
    let plan = client
        .request(Method::GET, "http://x.test/".to_string(), spec, None)
        .unwrap();
    assert_eq!(header_names(&plan.headers), vec!["authorization"]);
    let (_, v) = plan.headers.entry_at(0);
    assert_eq!(v, &b"Bearer tok123".to_vec());
    assert!(plan.basic_auth.is_none());
}

#[test]
fn basic_auth_is_carried_structurally() {
    let client = plain_client();
    let mut spec = RequestSpec::new();
    spec.auth = Some(Auth::Basic("user".to_string(), Some("pw".to_string())));
    let plan = client
        .request(Method::GET, "http://x.test/".to_string(), spec, None)
        .unwrap();
    assert_eq!(plan.headers.len(), 0);
    assert_eq!(plan.basic_auth, Some(("user".to_string(), Some("pw".to_string()))));
}

#[test]
fn json_payload_sets_content_type_when_absent() {
    let client = plain_client();
    let mut spec = RequestSpec::new();
    spec.json(Json::Null);
    let plan = client
        .request(Method::POST, "http://x.test/".to_string(), spec, None)
        .unwrap();
    assert_eq!(header_names(&plan.headers), vec!["content-type"]);
    let (_, v) = plan.headers.entry_at(0);
    assert_eq!(v, &b"application/json".to_vec());
}

#[test]
fn explicit_content_type_is_kept() {
    let client = plain_client();
    let mut spec = RequestSpec::new();
    spec.headers = vec![("content-type".to_string(), b"application/custom".to_vec())];
    spec.json(Json::Null);
    let plan = client
        .request(Method::POST, "http://x.test/".to_string(), spec, None)
        .unwrap();
    assert_eq!(header_names(&plan.headers), vec!["content-type"]);
    let (_, v) = plan.headers.entry_at(0);
    assert_eq!(v, &b"application/custom".to_vec());
}

#[test]
fn redirect_override_disabled_wins_over_cap() {
    let mut b = Builder::default();
    b.allow_redirects = Some(true);
    b.max_redirects = Some(5);
    let client = Client::new(b).unwrap();
    let mut spec = RequestSpec::new();
    spec.allow_redirects = Some(false);
    spec.max_redirects = Some(9);
    let plan = client
        .request(Method::GET, "http://x.test/".to_string(), spec, None)
        .unwrap();
    assert_eq!(plan.redirect, RedirectPolicy::NoFollow);
}

#[test]
fn redirect_override_enabled_uncapped_is_unlimited() {
    let client = plain_client();
    let mut spec = RequestSpec::new();
    spec.allow_redirects = Some(true);
    let plan = client
        .request(Method::GET, "http://x.test/".to_string(), spec, None)
        .unwrap();
    assert_eq!(plan.redirect, RedirectPolicy::Unlimited);
}

#[test]
fn redirect_unset_inherits_client_policy() {
    let mut b = Builder::default();
    b.allow_redirects = Some(true);
    b.max_redirects = Some(4);
    let client = Client::new(b).unwrap();
    let plan = client
        .request(Method::GET, "http://x.test/".to_string(), RequestSpec::new(), None)
        .unwrap();
    assert_eq!(plan.redirect, RedirectPolicy::Limited(4));
}

#[test]
fn timeouts_merge_per_call_over_client() {
    let mut b = Builder::default();
    b.timeout = Some(30);
    b.read_timeout = Some(10);
    let client = Client::new(b).unwrap();
    let mut spec = RequestSpec::new();
    spec.timeout = Some(5);
    let plan = client
        .request(Method::GET, "http://x.test/".to_string(), spec, None)
        .unwrap();
    assert_eq!(plan.timeout, Some(5));
    assert_eq!(plan.read_timeout, Some(10));
}

#[test]
fn verb_helpers_fix_the_method() {
    let client = plain_client();
    let plan = client
        .post("http://x.test/".to_string(), RequestSpec::new(), None)
        .unwrap();
    assert_eq!(plan.method, Method::POST);
    assert_eq!(plan.method.as_str(), "POST");
    let plan = client
        .delete("http://x.test/".to_string(), RequestSpec::new(), None)
        .unwrap();
    assert_eq!(plan.method, Method::DELETE);
}

#[test]
fn websocket_plan_carries_options_and_headers() {
    let client = plain_client();
    let mut req = rnet_core::request::WebSocketRequest {
        emulation: None,
        proxy: None,
        local_address: None,
        interface: None,
        headers: vec![("X-Up".to_string(), b"1".to_vec())],
        default_headers: None,
        cookies: Vec::new(),
        protocols: Some(vec!["chat".to_string()]),
        force_http2: None,
        auth: None,
        query: vec![("room".to_string(), "a b".to_string())],
        read_buffer_size: Some(4096),
        write_buffer_size: None,
        max_write_buffer_size: None,
        max_message_size: None,
        max_frame_size: None,
        accept_unmasked_frames: None,
    };
    req.force_http2 = Some(true);
    let plan = client
        .websocket("ws://x.test/".to_string(), req, None)
        .unwrap();
    assert_eq!(plan.url, "ws://x.test/");
    assert_eq!(plan.query_string, b"room=a+b".to_vec());
    assert!(plan.force_http2);
    assert_eq!(plan.read_buffer_size, Some(4096));
    assert_eq!(plan.protocols, Some(vec!["chat".to_string()]));
    assert_eq!(plan.headers.len(), 1);
    let (n, v) = plan.headers.entry_at(0);
    assert_eq!(n, "x-up");
    assert_eq!(v, &b"1".to_vec());
}

#[test]
fn multipart_payload_encodes_body_and_content_type() {
    let client = plain_client();
    let mut spec = RequestSpec::new();
    spec.multipart(
        vec![rnet_core::multipart::Part::new(
            "field".to_string(),
            b"value".to_vec(),
            None,
            None,
        )],
        b"XBOUND".to_vec(),
    );
    let plan = client
        .request(Method::POST, "http://x.test/".to_string(), spec, None)
        .unwrap();
    assert_eq!(header_names(&plan.headers), vec!["content-type"]);
    let (_, ct) = plan.headers.entry_at(0);
    assert_eq!(ct, &b"multipart/form-data; boundary=XBOUND".to_vec());
    let expected = b"--XBOUND\r\n\
Content-Disposition: form-data; name=\"field\"\r\n\
\r\n\
value\r\n\
--XBOUND--\r\n"
        .to_vec();
    assert_eq!(plan.body, expected);
}

#[test]
fn invalid_multipart_payload_fails_before_send() {
    let client = plain_client();
    let mut spec = RequestSpec::new();
    spec.multipart(
        vec![rnet_core::multipart::Part::new(
            "bad\"name".to_string(),
            b"v".to_vec(),
            None,
            None,
        )],
        b"B".to_vec(),
    );
    let r = client.request(Method::POST, "http://x.test/".to_string(), spec, None);
    assert!(matches!(r, Err(Error::Config)));
}
