use rnet_core::error::Error;
use rnet_core::multipart::{multipart_bytes, multipart_content_type, Part};

#[test]
fn single_text_part_encodes_exactly() {
    let parts = vec![Part::new("field".to_string(), b"value".to_vec(), None, None)];
    let body = multipart_bytes(&parts, &b"XBOUND".to_vec()).unwrap();
    let expected = b"--XBOUND\r\n\
Content-Disposition: form-data; name=\"field\"\r\n\
\r\n\
value\r\n\
--XBOUND--\r\n"
        .to_vec();
    assert_eq!(body, expected);
}

#[test]
fn file_part_announces_filename_and_content_type() {
    let parts = vec![Part::new(
        "upload".to_string(),
        b"\x00\x01data".to_vec(),
        Some("a.bin".to_string()),
        Some("application/octet-stream".to_string()),
    )];
    let body = multipart_bytes(&parts, &b"B7".to_vec()).unwrap();
    let expected = b"--B7\r\n\
Content-Disposition: form-data; name=\"upload\"; filename=\"a.bin\"\r\n\
Content-Type: application/octet-stream\r\n\
\r\n\
\x00\x01data\r\n\
--B7--\r\n"
        .to_vec();
    assert_eq!(body, expected);
}

#[test]
fn parts_keep_their_order() {
    let parts = vec![
        Part::new("a".to_string(), b"1".to_vec(), None, None),
        Part::new("b".to_string(), b"2".to_vec(), None, None),
    ];
    let body = multipart_bytes(&parts, &b"Z".to_vec()).unwrap();
    let text = String::from_utf8(body).unwrap();
    let first = text.find("name=\"a\"").unwrap();
    let second = text.find("name=\"b\"").unwrap();
    assert!(first < second);
    assert!(text.ends_with("--Z--\r\n"));
}

#[test]
fn empty_form_is_just_the_closing_boundary() {
    let body = multipart_bytes(&Vec::new(), &b"END".to_vec()).unwrap();
    assert_eq!(body, b"--END--\r\n".to_vec());
}

#[test]
fn quote_in_field_name_is_rejected() {
    let parts = vec![Part::new("bad\"name".to_string(), b"v".to_vec(), None, None)];
    assert!(matches!(multipart_bytes(&parts, &b"B".to_vec()), Err(Error::Config)));
}

#[test]
fn empty_boundary_is_rejected() {
    let parts = vec![Part::new("a".to_string(), b"v".to_vec(), None, None)];
    assert!(matches!(multipart_bytes(&parts, &Vec::new()), Err(Error::Config)));
}

#[test]
fn content_type_names_the_boundary() {
    let ct = multipart_content_type(&b"XYZ".to_vec());
    assert_eq!(ct, b"multipart/form-data; boundary=XYZ".to_vec());
}
