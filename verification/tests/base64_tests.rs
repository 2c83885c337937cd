use rnet_core::base64::{base64_encode, basic_auth_value};

#[test]
fn known_vectors_encode_exactly() {
    // RFC 4648 test vectors.
    assert_eq!(base64_encode(b""), b"".to_vec());
    assert_eq!(base64_encode(b"f"), b"Zg==".to_vec());
    assert_eq!(base64_encode(b"fo"), b"Zm8=".to_vec());
    assert_eq!(base64_encode(b"foo"), b"Zm9v".to_vec());
    assert_eq!(base64_encode(b"foob"), b"Zm9vYg==".to_vec());
    assert_eq!(base64_encode(b"fooba"), b"Zm9vYmE=".to_vec());
    assert_eq!(base64_encode(b"foobar"), b"Zm9vYmFy".to_vec());
}

#[test]
fn all_alphabet_ranges_appear() {
    // Bytes chosen to hit uppercase, the '+' run and the '/' run.
    assert_eq!(base64_encode(&[0x00, 0x10, 0x83, 0xfb, 0xef, 0xbe]), b"ABCD++++".to_vec());
    assert_eq!(base64_encode(&[0xff, 0xff, 0xff]), b"////".to_vec());
}

#[test]
fn basic_auth_value_matches_the_wire_form() {
    // "Aladdin:open sesame" is the classic RFC 7617 example.
    let v = basic_auth_value("Aladdin", Some("open sesame"));
    assert_eq!(v, b"Basic QWxhZGRpbjpvcGVuIHNlc2FtZQ==".to_vec());
}

#[test]
fn basic_auth_without_password_keeps_the_colon() {
    let v = basic_auth_value("user", None);
    assert_eq!(v, b"Basic dXNlcjo=".to_vec());
}
