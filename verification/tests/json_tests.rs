use rnet_core::json::Json;

fn parse(bytes: &[u8]) -> serde_json::Value {
    serde_json::from_slice(bytes).unwrap()
}

#[test]
fn scalars_serialize_exactly() {
    assert_eq!(Json::Null.to_bytes(), b"null".to_vec());
    assert_eq!(Json::Boolean(true).to_bytes(), b"true".to_vec());
    assert_eq!(Json::Boolean(false).to_bytes(), b"false".to_vec());
    assert_eq!(Json::Number(0).to_bytes(), b"0".to_vec());
    assert_eq!(Json::Number(42).to_bytes(), b"42".to_vec());
    assert_eq!(Json::Number(-7).to_bytes(), b"-7".to_vec());
    assert_eq!(Json::Number(i64::MAX).to_bytes(), b"9223372036854775807".to_vec());
    assert_eq!(Json::Number(i64::MIN).to_bytes(), b"-9223372036854775808".to_vec());
}

#[test]
fn strings_escape_quotes_backslashes_and_controls() {
    assert_eq!(Json::Text("plain".to_string()).to_bytes(), b"\"plain\"".to_vec());
    assert_eq!(
        Json::Text("say \"hi\"".to_string()).to_bytes(),
        b"\"say \\\"hi\\\"\"".to_vec()
    );
    assert_eq!(Json::Text("a\\b".to_string()).to_bytes(), b"\"a\\\\b\"".to_vec());
    assert_eq!(
        Json::Text("line1\nline2\t.".to_string()).to_bytes(),
        b"\"line1\\nline2\\t.\"".to_vec()
    );
    assert_eq!(Json::Text("\u{1}".to_string()).to_bytes(), b"\"\\u0001\"".to_vec());
    // Non-ASCII text passes through as UTF-8.
    assert_eq!(Json::Text("héllo".to_string()).to_bytes(), "\"héllo\"".as_bytes().to_vec());
}

#[test]
fn arrays_and_objects_serialize_in_order() {
    let arr = Json::Array(vec![Json::Number(1), Json::Number(2), Json::Null]);
    assert_eq!(arr.to_bytes(), b"[1,2,null]".to_vec());

    let obj = Json::Object(vec![
        ("b".to_string(), Json::Number(2)),
        ("a".to_string(), Json::Number(1)),
    ]);
    // Insertion order is kept, not sorted.
    assert_eq!(obj.to_bytes(), b"{\"b\":2,\"a\":1}".to_vec());

    let empty_arr = Json::Array(Vec::new());
    assert_eq!(empty_arr.to_bytes(), b"[]".to_vec());
    let empty_obj = Json::Object(Vec::new());
    assert_eq!(empty_obj.to_bytes(), b"{}".to_vec());
}

#[test]
fn serde_json_accepts_and_agrees_on_nested_values() {
    let value = Json::Object(vec![
        ("name".to_string(), Json::Text("engine \"x\"".to_string())),
        ("count".to_string(), Json::Number(-3)),
        (
            "flags".to_string(),
            Json::Array(vec![Json::Boolean(true), Json::Null, Json::Text("a\nb".to_string())]),
        ),
        ("inner".to_string(), Json::Object(vec![("k".to_string(), Json::Number(0))])),
    ]);
    let bytes = value.to_bytes();
    let got = parse(&bytes);

    let mut inner = serde_json::Map::new();
    inner.insert("k".to_string(), serde_json::Value::from(0i64));
    let mut expected = serde_json::Map::new();
    expected.insert("name".to_string(), serde_json::Value::from("engine \"x\""));
    expected.insert("count".to_string(), serde_json::Value::from(-3i64));
    expected.insert(
        "flags".to_string(),
        serde_json::Value::Array(vec![
            serde_json::Value::from(true),
            serde_json::Value::Null,
            serde_json::Value::from("a\nb"),
        ]),
    );
    expected.insert("inner".to_string(), serde_json::Value::Object(inner));
    assert_eq!(got, serde_json::Value::Object(expected));
}
