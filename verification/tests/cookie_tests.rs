use rnet_core::cookies::{cookie_header_value, extract_cookies, Cookie, SameSite};
use rnet_core::error::Error;

#[test]
fn cookie_header_joins_pairs_in_insertion_order() {
    let pairs = vec![
        ("a".to_string(), "1".to_string()),
        ("b".to_string(), "2".to_string()),
        ("c".to_string(), "3".to_string()),
    ];
    let v = cookie_header_value(&pairs).unwrap();
    assert_eq!(v, b"a=1; b=2; c=3".to_vec());
}

#[test]
fn cookie_header_has_exactly_n_segments() {
    for n in 0..6usize {
        let pairs: Vec<(String, String)> =
            (0..n).map(|i| (format!("k{}", i), format!("v{}", i))).collect();
        let v = cookie_header_value(&pairs).unwrap();
        let s = String::from_utf8(v).unwrap();
        if n == 0 {
            assert_eq!(s, "");
        } else {
            let segments: Vec<&str> = s.split("; ").collect();
            assert_eq!(segments.len(), n);
            for (i, seg) in segments.iter().enumerate() {
                assert_eq!(*seg, format!("k{}=v{}", i, i));
            }
        }
    }
}

#[test]
fn cookie_header_single_pair_has_no_separator() {
    let pairs = vec![("sid".to_string(), "42".to_string())];
    let v = cookie_header_value(&pairs).unwrap();
    assert_eq!(v, b"sid=42".to_vec());
}

#[test]
fn cookie_header_rejects_illegal_bytes() {
    let pairs = vec![("a".to_string(), "line\nbreak".to_string())];
    assert!(matches!(cookie_header_value(&pairs), Err(Error::Config)));
}

#[test]
fn parse_splits_name_and_value() {
    let c = Cookie::parse("sid=42; Path=/; HttpOnly").unwrap();
    assert_eq!(c.name(), "sid");
    assert_eq!(c.value(), "42");
}

#[test]
fn parse_agrees_with_cookie_crate() {
    let samples = vec!["a=b", "  a = b ", "name=", "=value", "noequals", "a=b; Secure"];
    for s in samples {
        let mine = Cookie::parse(s);
        let oracle = cookie::Cookie::parse(s);
        assert_eq!(mine.is_ok(), oracle.is_ok(), "disagreement on {:?}", s);
        if let (Ok(m), Ok(o)) = (mine, oracle) {
            assert_eq!(m.name(), o.name());
            assert_eq!(m.value(), o.value());
        }
    }
}

#[test]
fn parse_rejects_unparsable_cookie() {
    assert!(matches!(Cookie::parse("noequals"), Err(Error::Config)));
}

#[test]
fn extract_cookies_reads_set_cookie_headers_in_order() {
    let headers = vec![
        ("content-type".to_string(), b"text/plain".to_vec()),
        ("set-cookie".to_string(), b"first=1; Path=/".to_vec()),
        ("set-cookie".to_string(), b"second=2".to_vec()),
    ];
    let cookies = extract_cookies(&headers);
    assert_eq!(cookies.len(), 2);
    assert_eq!(cookies[0].name(), "first");
    assert_eq!(cookies[0].value(), "1");
    assert_eq!(cookies[1].name(), "second");
    assert_eq!(cookies[1].value(), "2");
}

#[test]
fn extract_cookies_skips_unparsable_entries() {
    let headers = vec![
        ("set-cookie".to_string(), b"noequals".to_vec()),
        ("set-cookie".to_string(), b"ok=yes".to_vec()),
    ];
    let cookies = extract_cookies(&headers);
    assert_eq!(cookies.len(), 1);
    assert_eq!(cookies[0].name(), "ok");
}

#[test]
fn cookie_record_keeps_its_attributes() {
    let c = Cookie::new(
        "sid".to_string(),
        "42".to_string(),
        Some("example.test".to_string()),
        Some("/app".to_string()),
        Some(3600),
        Some(1_700_000_000),
        true,
        true,
        Some(SameSite::Lax),
    );
    assert_eq!(c.name(), "sid");
    assert_eq!(c.value(), "42");
    assert_eq!(c.domain.as_deref(), Some("example.test"));
    assert_eq!(c.path.as_deref(), Some("/app"));
    assert_eq!(c.max_age, Some(3600));
    assert_eq!(c.expires, Some(1_700_000_000));
    assert!(c.http_only);
    assert!(c.secure);
    assert!(c.same_site_lax());
    assert!(!c.same_site_strict());
}
