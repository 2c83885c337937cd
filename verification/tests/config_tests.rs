use rnet_core::client::Client;
use rnet_core::config::{
    build_config, Builder, CookieStoreSetting, Protocol, RedirectPolicy, VerifyMode, VerifySetting,
};
use rnet_core::error::Error;

fn base_builder() -> Builder {
    Builder::default()
}

#[test]
fn protocol_conflict_last_write_wins() {
    let mut b = base_builder();
    b.http1_only = Some(true);
    b.http2_only = Some(true);
    let c = build_config(b).unwrap();
    assert_eq!(c.protocol, Protocol::Http2Only);
}

#[test]
fn protocol_http1_only_alone() {
    let mut b = base_builder();
    b.http1_only = Some(true);
    let c = build_config(b).unwrap();
    assert_eq!(c.protocol, Protocol::Http1Only);
}

#[test]
fn protocol_defaults_to_auto() {
    let c = build_config(base_builder()).unwrap();
    assert_eq!(c.protocol, Protocol::Auto);
}

#[test]
fn defaults_follow_documentation() {
    let c = build_config(base_builder()).unwrap();
    assert_eq!(c.timeout, None);
    assert_eq!(c.redirect, RedirectPolicy::NoFollow);
    assert_eq!(c.cookies, CookieStoreSetting::Disabled);
    assert!(c.gzip && c.brotli && c.deflate && c.zstd);
    assert!(!c.referer);
    assert!(!c.https_only);
    assert!(matches!(c.verify, VerifyMode::Standard));
}

#[test]
fn compression_can_be_disabled_individually() {
    let mut b = base_builder();
    b.gzip = Some(false);
    b.zstd = Some(false);
    let c = build_config(b).unwrap();
    assert!(!c.gzip);
    assert!(c.brotli);
    assert!(c.deflate);
    assert!(!c.zstd);
}

#[test]
fn redirects_enabled_with_cap() {
    let mut b = base_builder();
    b.allow_redirects = Some(true);
    b.max_redirects = Some(3);
    let c = build_config(b).unwrap();
    assert_eq!(c.redirect, RedirectPolicy::Limited(3));
}

#[test]
fn redirects_enabled_without_cap_use_default_cap() {
    let mut b = base_builder();
    b.allow_redirects = Some(true);
    let c = build_config(b).unwrap();
    assert_eq!(c.redirect, RedirectPolicy::Limited(10));
}

#[test]
fn redirects_explicitly_disabled() {
    let mut b = base_builder();
    b.allow_redirects = Some(false);
    b.max_redirects = Some(7);
    let c = build_config(b).unwrap();
    assert_eq!(c.redirect, RedirectPolicy::NoFollow);
}

#[test]
fn cookie_provider_shadows_store_toggle() {
    let mut b = base_builder();
    b.cookie_store = Some(true);
    b.cookie_provider = Some(true);
    let c = build_config(b).unwrap();
    assert_eq!(c.cookies, CookieStoreSetting::External);
}

#[test]
fn cookie_store_enabled() {
    let mut b = base_builder();
    b.cookie_store = Some(true);
    let c = build_config(b).unwrap();
    assert_eq!(c.cookies, CookieStoreSetting::Enabled);
}

#[test]
fn unreadable_root_store_fails_client_build() {
    let mut b = base_builder();
    b.verify = Some(VerifySetting::CertificateLoadError);
    let r = Client::new(b);
    assert!(matches!(r, Err(Error::Config)));
}

#[test]
fn root_store_pem_is_kept() {
    let pem = b"-----BEGIN CERTIFICATE-----\nMIIB\n-----END CERTIFICATE-----\n".to_vec();
    let mut b = base_builder();
    b.verify = Some(VerifySetting::CertificatePem(pem.clone()));
    let c = build_config(b).unwrap();
    match c.verify {
        VerifyMode::RootCertificates(kept) => {
            assert_eq!(kept, pem);
        }
        _ => panic!("expected a custom root store"),
    }
}

#[test]
fn unparsable_root_store_fails_client_build() {
    // Reads fine, but is no PEM certificate stack: the build itself must
    // reject it, never the first request.
    let mut b = base_builder();
    b.verify = Some(VerifySetting::CertificatePem(b"not a certificate".to_vec()));
    assert!(matches!(Client::new(b), Err(Error::Config)));
}

#[test]
fn truncated_root_store_fails_client_build() {
    // An opening marker with no closing marker after it.
    let mut b = base_builder();
    b.verify = Some(VerifySetting::CertificatePem(
        b"-----BEGIN CERTIFICATE-----\nMIIB".to_vec(),
    ));
    assert!(matches!(Client::new(b), Err(Error::Config)));
}

#[test]
fn empty_root_store_fails_client_build() {
    let mut b = base_builder();
    b.verify = Some(VerifySetting::CertificatePem(Vec::new()));
    assert!(matches!(Client::new(b), Err(Error::Config)));
}

#[test]
fn disabled_verification_is_kept() {
    let mut b = base_builder();
    b.verify = Some(VerifySetting::Verification(false));
    let c = build_config(b).unwrap();
    assert!(matches!(c.verify, VerifyMode::Disabled));
}

#[test]
fn invalid_default_header_name_fails_build() {
    let mut b = base_builder();
    b.default_headers = Some(vec![("bad name".to_string(), b"v".to_vec())]);
    assert!(matches!(build_config(b), Err(Error::Config)));
}

#[test]
fn default_header_names_are_canonicalized() {
    let mut b = base_builder();
    b.default_headers = Some(vec![("User-Agent".to_string(), b"tester".to_vec())]);
    let c = build_config(b).unwrap();
    assert_eq!(c.default_headers.len(), 1);
    assert_eq!(c.default_headers[0].0, "user-agent");
    assert_eq!(c.default_headers[0].1, b"tester".to_vec());
}

#[test]
fn tunables_pass_through() {
    let mut b = base_builder();
    b.timeout = Some(30);
    b.pool_max_size = Some(8);
    b.http2_max_retry_count = Some(2);
    let c = build_config(b).unwrap();
    assert_eq!(c.timeout, Some(30));
    assert_eq!(c.pool_max_size, Some(8));
    assert_eq!(c.http2_max_retry_count, Some(2));
}

#[test]
fn client_new_pins_the_assembled_configuration() {
    let mut b = base_builder();
    b.http1_only = Some(true);
    b.http2_only = Some(true);
    b.allow_redirects = Some(true);
    b.max_redirects = Some(2);
    b.proxies = Some(vec!["http://p1.test".to_string(), "http://p2.test".to_string()]);
    let client = Client::new(b).unwrap();
    assert_eq!(client.config.protocol, Protocol::Http2Only);
    assert_eq!(client.config.redirect, RedirectPolicy::Limited(2));
    assert_eq!(
        client.config.proxies,
        vec!["http://p1.test".to_string(), "http://p2.test".to_string()]
    );
}
