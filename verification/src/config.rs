//! Client-wide configuration: a sparse builder of optional knobs and the
//! pure assembly step that turns it into an immutable effective
//! configuration.
//!
//! Every unset option falls back to a documented engine default: no timeout,
//! HTTP/1 and HTTP/2 auto-negotiated, cookies disabled, redirects disabled
//! unless explicitly enabled, all compression codecs enabled at the
//! transport. Conflicting protocol restrictions resolve deterministically by
//! last-write-wins: when both `http1_only` and `http2_only` are set, the
//! HTTP/2-only restriction is applied second and wins.

use vstd::prelude::*;
use vstd::string::StringSliceAdditionalSpecFns;

use crate::error::Error;
use crate::headers::{entries_model, spec_canon_headers, spec_headers_ok, HeaderEntryModel};

verus! {

/// A TLS protocol version bound.
#[allow(non_camel_case_types)]
#[derive(Clone, Copy, PartialEq, Eq, Structural, Debug)]
pub enum TlsVersion {
    TLS_1_0,
    TLS_1_1,
    TLS_1_2,
    TLS_1_3,
}

/// The effective protocol restriction of a client.
#[derive(Clone, Copy, PartialEq, Eq, Structural, Debug)]
pub enum Protocol {
    /// HTTP/1 and HTTP/2, auto-negotiated.
    Auto,
    /// HTTP/1 only.
    Http1Only,
    /// HTTP/2 only.
    Http2Only,
}

/// The effective redirect policy of a client or of one request.
#[derive(Clone, Copy, PartialEq, Eq, Structural, Debug)]
pub enum RedirectPolicy {
    /// Redirect responses are returned to the caller unfollowed.
    NoFollow,
    /// Follow at most this many redirect hops.
    Limited(usize),
    /// Follow without a cap.
    Unlimited,
}

/// The TLS peer-verification setting as the caller supplies it.
///
/// A root-certificate file is read by the host adapter before the client is
/// built; the engine itself performs no file access. A store that could not
/// be read — or that the TLS backend's own loader already refused — is
/// carried in as `CertificateLoadError`, and PEM bytes are checked against
/// the certificate-stack framing here at build time, so that a bad store
/// fails fast with a configuration error, before any connection is
/// attempted.
#[derive(Clone, Debug)]
pub enum VerifySetting {
    /// Verify against the system store (`true`) or disable verification.
    Verification(bool),
    /// Verify against a custom root store, given as PEM bytes.
    CertificatePem(Vec<u8>),
    /// A custom root store was requested but could not be read or loaded.
    CertificateLoadError,
}

/// The effective TLS peer-verification mode.
#[derive(Clone, Debug)]
pub enum VerifyMode {
    /// Verify against the system store (the default).
    Standard,
    /// Certificate verification disabled.
    Disabled,
    /// Verify against a custom root store, held as PEM bytes.
    RootCertificates(Vec<u8>),
}

/// The effective cookie-store setting.
#[derive(Clone, Copy, PartialEq, Eq, Structural, Debug)]
pub enum CookieStoreSetting {
    /// No cookie store (the default).
    Disabled,
    /// The engine's own in-memory cookie store.
    Enabled,
    /// An external cookie provider supplied by the caller.
    External,
}

/// A sparse set of optional client-wide settings.
///
/// Every field is optional; `None` means "use the engine default". The
/// builder is consumed by [`build_config`] exactly once and never mutated
/// afterwards.
#[derive(Clone, Debug, Default)]
pub struct Builder {
    /// Opaque emulation-profile token, applied to the transport unchanged.
    pub emulation: Option<u64>,
    /// The default `User-Agent` value.
    pub user_agent: Option<String>,
    /// Default headers, an ordered name/value list with duplicates kept.
    pub default_headers: Option<Vec<(String, Vec<u8>)>>,
    /// Whether to send a `Referer` header on redirect.
    pub referer: Option<bool>,
    /// Whether to follow redirects at all.
    pub allow_redirects: Option<bool>,
    /// The redirect-hop cap, meaningful only when redirects are allowed.
    pub max_redirects: Option<usize>,
    /// Whether to keep an engine-side cookie store.
    pub cookie_store: Option<bool>,
    /// Whether an external cookie provider was supplied.
    pub cookie_provider: Option<bool>,
    /// Total request timeout, in seconds.
    pub timeout: Option<u64>,
    /// Connect timeout, in seconds.
    pub connect_timeout: Option<u64>,
    /// Read timeout, in seconds.
    pub read_timeout: Option<u64>,
    /// TCP keepalive duration, in seconds.
    pub tcp_keepalive: Option<u64>,
    /// Interval between TCP keepalive probes, in seconds.
    pub tcp_keepalive_interval: Option<u64>,
    /// Number of TCP keepalive retries.
    pub tcp_keepalive_retries: Option<u32>,
    /// TCP user timeout, in seconds.
    pub tcp_user_timeout: Option<u64>,
    /// Whether sockets get `NO_DELAY`.
    pub tcp_nodelay: Option<bool>,
    /// Whether sockets get `SO_REUSEADDR`.
    pub tcp_reuse_address: Option<bool>,
    /// Idle-socket keepalive timeout of the pool, in seconds.
    pub pool_idle_timeout: Option<u64>,
    /// Maximum idle connections per host in the pool.
    pub pool_max_idle_per_host: Option<usize>,
    /// Maximum number of connections in the pool.
    pub pool_max_size: Option<u32>,
    /// Disable keepalive altogether.
    pub no_keepalive: Option<bool>,
    /// Restrict the client to HTTP/1.
    pub http1_only: Option<bool>,
    /// Restrict the client to HTTP/2.
    pub http2_only: Option<bool>,
    /// Refuse plain-text connections.
    pub https_only: Option<bool>,
    /// Retry count for HTTP/2 protocol-level stream errors.
    pub http2_max_retry_count: Option<usize>,
    /// TLS peer-verification setting.
    pub verify: Option<VerifySetting>,
    /// Attach TLS peer information to responses.
    pub tls_info: Option<bool>,
    /// Minimum TLS version.
    pub min_tls_version: Option<TlsVersion>,
    /// Maximum TLS version.
    pub max_tls_version: Option<TlsVersion>,
    /// Ignore all proxies.
    pub no_proxy: Option<bool>,
    /// Proxy list, ordered, first match wins.
    pub proxies: Option<Vec<String>>,
    /// Local address to bind to.
    pub local_address: Option<String>,
    /// Interface to bind to.
    pub interface: Option<String>,
    /// Accept gzip-encoded responses.
    pub gzip: Option<bool>,
    /// Accept brotli-encoded responses.
    pub brotli: Option<bool>,
    /// Accept deflate-encoded responses.
    pub deflate: Option<bool>,
    /// Accept zstd-encoded responses.
    pub zstd: Option<bool>,
}

/// The default redirect-hop cap used when redirects are enabled without an
/// explicit cap at the client level.
pub const DEFAULT_MAX_REDIRECTS: usize = 10;

/// The protocol restriction that a builder resolves to.
///
/// Both restrictions are applied to the transport in a fixed order,
/// `http1_only` first, `http2_only` second, each only when set to `true`; the
/// later write wins, so a builder with both set resolves to `Http2Only`.
pub open spec fn spec_protocol_of(http1_only: Option<bool>, http2_only: Option<bool>) -> Protocol {
    if http2_only == Some(true) {
        Protocol::Http2Only
    } else if http1_only == Some(true) {
        Protocol::Http1Only
    } else {
        Protocol::Auto
    }
}

/// The client-level redirect policy that a builder resolves to: disabled
/// unless explicitly enabled, capped by `max_redirects` when one is given and
/// by the engine default cap otherwise.
pub open spec fn spec_redirect_of(allow: Option<bool>, max: Option<usize>) -> RedirectPolicy {
    if allow == Some(true) {
        match max {
            Some(n) => RedirectPolicy::Limited(n),
            None => RedirectPolicy::Limited(DEFAULT_MAX_REDIRECTS as usize),
        }
    } else {
        RedirectPolicy::NoFollow
    }
}

/// The cookie setting that a builder resolves to: an external provider takes
/// precedence over the store toggle; the default is no store.
pub open spec fn spec_cookies_of(store: Option<bool>, provider: Option<bool>) -> CookieStoreSetting {
    if provider == Some(true) {
        CookieStoreSetting::External
    } else if store == Some(true) {
        CookieStoreSetting::Enabled
    } else {
        CookieStoreSetting::Disabled
    }
}

/// The immutable effective configuration of a client.
///
/// Constructed once by [`build_config`], consumed by exactly one client, and
/// never mutated after build.
#[derive(Clone, Debug)]
pub struct ClientConfig {
    /// Opaque emulation-profile token.
    pub emulation: Option<u64>,
    /// The default `User-Agent` value, if any.
    pub user_agent: Option<String>,
    /// Default headers, ordered, duplicates kept.
    pub default_headers: Vec<(String, Vec<u8>)>,
    /// Whether to send a `Referer` header on redirect.
    pub referer: bool,
    /// The client-level redirect policy.
    pub redirect: RedirectPolicy,
    /// The effective cookie setting.
    pub cookies: CookieStoreSetting,
    /// Total request timeout in seconds; `None` means no timeout.
    pub timeout: Option<u64>,
    /// Connect timeout in seconds; `None` means no timeout.
    pub connect_timeout: Option<u64>,
    /// Read timeout in seconds; `None` means no timeout.
    pub read_timeout: Option<u64>,
    /// TCP keepalive duration, in seconds.
    pub tcp_keepalive: Option<u64>,
    /// Interval between TCP keepalive probes, in seconds.
    pub tcp_keepalive_interval: Option<u64>,
    /// Number of TCP keepalive retries.
    pub tcp_keepalive_retries: Option<u32>,
    /// TCP user timeout, in seconds.
    pub tcp_user_timeout: Option<u64>,
    /// Whether sockets get `NO_DELAY`.
    pub tcp_nodelay: Option<bool>,
    /// Whether sockets get `SO_REUSEADDR`.
    pub tcp_reuse_address: Option<bool>,
    /// Idle-socket keepalive timeout of the pool, in seconds.
    pub pool_idle_timeout: Option<u64>,
    /// Maximum idle connections per host in the pool.
    pub pool_max_idle_per_host: Option<usize>,
    /// Maximum number of connections in the pool.
    pub pool_max_size: Option<u32>,
    /// Whether keepalive is disabled altogether.
    pub no_keepalive: bool,
    /// The effective protocol restriction.
    pub protocol: Protocol,
    /// Refuse plain-text connections.
    pub https_only: bool,
    /// Retry count for HTTP/2 protocol-level stream errors; the engine's only
    /// automatic retry.
    pub http2_max_retry_count: Option<usize>,
    /// The effective TLS verification mode.
    pub verify: VerifyMode,
    /// Attach TLS peer information to responses.
    pub tls_info: bool,
    /// Minimum TLS version.
    pub min_tls_version: Option<TlsVersion>,
    /// Maximum TLS version.
    pub max_tls_version: Option<TlsVersion>,
    /// Whether all proxies are ignored.
    pub no_proxy: bool,
    /// Proxy list, ordered, first match wins.
    pub proxies: Vec<String>,
    /// Local address to bind to.
    pub local_address: Option<String>,
    /// Interface to bind to.
    pub interface: Option<String>,
    /// Accept gzip-encoded responses.
    pub gzip: bool,
    /// Accept brotli-encoded responses.
    pub brotli: bool,
    /// Accept deflate-encoded responses.
    pub deflate: bool,
    /// Accept zstd-encoded responses.
    pub zstd: bool,
}

/// Whether a byte sequence carries the framing of a PEM certificate
/// stack: an opening certificate marker with a closing marker after it.
/// The certificate contents themselves are the TLS backend's to validate.
pub open spec fn spec_pem_ok(bs: Seq<u8>) -> bool {
    exists|i: int, j: int|
        {
            &&& crate::util::spec_match_at(bs, "-----BEGIN CERTIFICATE-----".spec_bytes(), i)
            &&& crate::util::spec_match_at(bs, "-----END CERTIFICATE-----".spec_bytes(), j)
            &&& i + "-----BEGIN CERTIFICATE-----".spec_bytes().len() <= j
        }
}

/// A non-empty character sequence encodes to at least one byte.
proof fn lemma_encode_nonempty(s: Seq<char>)
    requires
        s.len() > 0,
    ensures
        vstd::utf8::encode_utf8(s).len() >= 1,
{
    let c = s[0] as u32;
    assert(vstd::utf8::encode_scalar(c).len() >= 1);
}

/// Checks the PEM certificate-stack framing of root-store bytes.
pub fn pem_stack_ok(pem: &Vec<u8>) -> (r: bool)
    ensures
        r == spec_pem_ok(pem@),
{
    let mut begin_marker: Vec<u8> = Vec::new();
    crate::util::append_str_bytes(&mut begin_marker, "-----BEGIN CERTIFICATE-----");
    let mut end_marker: Vec<u8> = Vec::new();
    crate::util::append_str_bytes(&mut end_marker, "-----END CERTIFICATE-----");
    proof {
        assert(begin_marker@ =~= "-----BEGIN CERTIFICATE-----".spec_bytes());
        assert(end_marker@ =~= "-----END CERTIFICATE-----".spec_bytes());
        reveal_strlit("-----BEGIN CERTIFICATE-----");
        reveal_strlit("-----END CERTIFICATE-----");
        lemma_encode_nonempty("-----BEGIN CERTIFICATE-----"@);
        lemma_encode_nonempty("-----END CERTIFICATE-----"@);
    }
    let ghost gb = "-----BEGIN CERTIFICATE-----".spec_bytes();
    let ghost ge = "-----END CERTIFICATE-----".spec_bytes();
    let pem_len = pem.len();
    match crate::util::find_bytes_from(pem.as_slice(), begin_marker.as_slice(), 0) {
        Some(i) => {
            proof {
                assert(i + begin_marker@.len() <= pem_len);
            }
            match crate::util::find_bytes_from(
                pem.as_slice(),
                end_marker.as_slice(),
                i + begin_marker.len(),
            ) {
                Some(j) => {
                    proof {
                        assert(crate::util::spec_match_at(pem@, gb, i as int));
                        assert(crate::util::spec_match_at(pem@, ge, j as int));
                        assert(i + gb.len() <= j);
                    }
                    true
                },
                None => {
                    proof {
                        assert forall|i2: int, j2: int|
                            !{
                                &&& crate::util::spec_match_at(pem@, gb, i2)
                                &&& crate::util::spec_match_at(pem@, ge, j2)
                                &&& i2 + gb.len() <= j2
                            } by {
                            if crate::util::spec_match_at(pem@, gb, i2)
                                && crate::util::spec_match_at(pem@, ge, j2) {
                                assert(i2 >= i);
                                assert(!crate::util::spec_match_at(pem@, ge, j2) || j2 < i
                                    + gb.len());
                            }
                        }
                    }
                    false
                },
            }
        },
        None => {
            proof {
                assert forall|i2: int, j2: int|
                    !{
                        &&& crate::util::spec_match_at(pem@, gb, i2)
                        &&& crate::util::spec_match_at(pem@, ge, j2)
                        &&& i2 + gb.len() <= j2
                    } by {
                    assert(!crate::util::spec_match_at(pem@, gb, i2));
                }
            }
            false
        },
    }
}

/// Whether the default headers of a builder are well-formed.
pub open spec fn spec_default_headers_ok(h: Option<Vec<(String, Vec<u8>)>>) -> bool {
    match h {
        Some(v) => spec_headers_ok(v@),
        None => true,
    }
}

/// Whether building from this builder succeeds: it does exactly when no
/// root-certificate store was requested that could not be read, any
/// supplied root-store bytes carry PEM certificate-stack framing, and
/// every default header has a token name and a legal value.
pub open spec fn spec_build_ok(b: Builder) -> bool {
    &&& !(b.verify matches Some(VerifySetting::CertificateLoadError))
    &&& (b.verify matches Some(VerifySetting::CertificatePem(p)) ==> spec_pem_ok(p@))
    &&& spec_default_headers_ok(b.default_headers)
}

/// The verification mode that a builder's `verify` setting resolves to, for
/// builders on which building succeeds.
pub open spec fn spec_verify_of(v: Option<VerifySetting>) -> VerifyMode {
    match v {
        Some(VerifySetting::Verification(false)) => VerifyMode::Disabled,
        Some(VerifySetting::CertificatePem(pem)) => VerifyMode::RootCertificates(pem),
        _ => VerifyMode::Standard,
    }
}

/// The relation between a builder and the effective configuration built
/// from it: every effective field is pinned — unset options take the
/// documented defaults, the protocol conflict resolves last-write-wins, an
/// external cookie provider shadows the store toggle, and compression
/// codecs default to enabled.
pub open spec fn spec_config_matches(b: Builder, c: ClientConfig) -> bool {
    &&& c.emulation == b.emulation
    &&& c.user_agent == b.user_agent
    &&& entries_model(c.default_headers@) == match b.default_headers {
        Some(h) => spec_canon_headers(h@),
        None => Seq::<HeaderEntryModel>::empty(),
    }
    &&& c.referer == (b.referer == Some(true))
    &&& c.redirect == spec_redirect_of(b.allow_redirects, b.max_redirects)
    &&& c.cookies == spec_cookies_of(b.cookie_store, b.cookie_provider)
    &&& c.timeout == b.timeout
    &&& c.connect_timeout == b.connect_timeout
    &&& c.read_timeout == b.read_timeout
    &&& c.tcp_keepalive == b.tcp_keepalive
    &&& c.tcp_keepalive_interval == b.tcp_keepalive_interval
    &&& c.tcp_keepalive_retries == b.tcp_keepalive_retries
    &&& c.tcp_user_timeout == b.tcp_user_timeout
    &&& c.tcp_nodelay == b.tcp_nodelay
    &&& c.tcp_reuse_address == b.tcp_reuse_address
    &&& c.pool_idle_timeout == b.pool_idle_timeout
    &&& c.pool_max_idle_per_host == b.pool_max_idle_per_host
    &&& c.pool_max_size == b.pool_max_size
    &&& c.no_keepalive == (b.no_keepalive == Some(true))
    &&& c.protocol == spec_protocol_of(b.http1_only, b.http2_only)
    &&& c.https_only == (b.https_only == Some(true))
    &&& c.http2_max_retry_count == b.http2_max_retry_count
    &&& c.verify == spec_verify_of(b.verify)
    &&& c.tls_info == (b.tls_info == Some(true))
    &&& c.min_tls_version == b.min_tls_version
    &&& c.max_tls_version == b.max_tls_version
    &&& c.no_proxy == (b.no_proxy == Some(true))
    &&& c.proxies@ == match b.proxies {
        Some(p) => p@,
        None => Seq::<String>::empty(),
    }
    &&& c.local_address == b.local_address
    &&& c.interface == b.interface
    &&& c.gzip == (b.gzip != Some(false))
    &&& c.brotli == (b.brotli != Some(false))
    &&& c.deflate == (b.deflate != Some(false))
    &&& c.zstd == (b.zstd != Some(false))
}

/// Assembles the effective configuration from a sparse builder.
///
/// This is the single validation and assembly point: a root-certificate
/// store that could not be read fails here, synchronously, with a
/// configuration error — never deferred to the first request. On success
/// every effective field is pinned: unset options take the documented
/// defaults, the protocol conflict resolves last-write-wins, an external
/// cookie provider shadows the store toggle, and compression codecs default
/// to enabled.
pub fn build_config(b: Builder) -> (r: Result<ClientConfig, Error>)
    ensures
        r is Ok <==> spec_build_ok(b),
        !spec_build_ok(b) ==> r == Result::<ClientConfig, Error>::Err(Error::Config),
        r matches Ok(c) ==> spec_config_matches(b, c),
{
    let default_headers: Vec<(String, Vec<u8>)> = match &b.default_headers {
        Some(h) => match crate::headers::canonicalize_header_list(h) {
            Ok(v) => v,
            Err(e) => {
                return Err(Error::Config);
            },
        },
        None => Vec::new(),
    };
    proof {
        if b.default_headers is None {
            assert(entries_model(default_headers@) =~= Seq::<HeaderEntryModel>::empty());
        }
    }

    let verify: VerifyMode = match b.verify {
        Some(VerifySetting::CertificateLoadError) => {
            return Err(Error::Config);
        },
        Some(VerifySetting::Verification(false)) => VerifyMode::Disabled,
        Some(VerifySetting::Verification(true)) => VerifyMode::Standard,
        Some(VerifySetting::CertificatePem(pem)) => {
            if !pem_stack_ok(&pem) {
                return Err(Error::Config);
            }
            VerifyMode::RootCertificates(pem)
        },
        None => VerifyMode::Standard,
    };

    let redirect: RedirectPolicy = if b.allow_redirects == Some(true) {
        match b.max_redirects {
            Some(n) => RedirectPolicy::Limited(n),
            None => RedirectPolicy::Limited(DEFAULT_MAX_REDIRECTS),
        }
    } else {
        RedirectPolicy::NoFollow
    };

    let cookies: CookieStoreSetting = if b.cookie_provider == Some(true) {
        CookieStoreSetting::External
    } else if b.cookie_store == Some(true) {
        CookieStoreSetting::Enabled
    } else {
        CookieStoreSetting::Disabled
    };

    let protocol: Protocol = if b.http2_only == Some(true) {
        Protocol::Http2Only
    } else if b.http1_only == Some(true) {
        Protocol::Http1Only
    } else {
        Protocol::Auto
    };

    Ok(ClientConfig {
        emulation: b.emulation,
        user_agent: b.user_agent,
        default_headers,
        referer: b.referer == Some(true),
        redirect,
        cookies,
        timeout: b.timeout,
        connect_timeout: b.connect_timeout,
        read_timeout: b.read_timeout,
        tcp_keepalive: b.tcp_keepalive,
        tcp_keepalive_interval: b.tcp_keepalive_interval,
        tcp_keepalive_retries: b.tcp_keepalive_retries,
        tcp_user_timeout: b.tcp_user_timeout,
        tcp_nodelay: b.tcp_nodelay,
        tcp_reuse_address: b.tcp_reuse_address,
        pool_idle_timeout: b.pool_idle_timeout,
        pool_max_idle_per_host: b.pool_max_idle_per_host,
        pool_max_size: b.pool_max_size,
        no_keepalive: b.no_keepalive == Some(true),
        protocol,
        https_only: b.https_only == Some(true),
        http2_max_retry_count: b.http2_max_retry_count,
        verify,
        tls_info: b.tls_info == Some(true),
        min_tls_version: b.min_tls_version,
        max_tls_version: b.max_tls_version,
        no_proxy: b.no_proxy == Some(true),
        proxies: match b.proxies {
            Some(p) => p,
            None => Vec::new(),
        },
        local_address: b.local_address,
        interface: b.interface,
        gzip: b.gzip != Some(false),
        brotli: b.brotli != Some(false),
        deflate: b.deflate != Some(false),
        zstd: b.zstd != Some(false),
    })
}

/// The protocol restriction is deterministic under conflicting options:
/// the conflict itself never fails a build, and whenever both `http1_only`
/// and `http2_only` are set, every configuration built from the builder
/// selects HTTP/2-only — the restriction applied last wins — so two builds
/// from equal builders select the same protocol.
pub proof fn lemma_protocol_last_write_wins(b: Builder, c1: ClientConfig, c2: ClientConfig)
    requires
        b.http1_only == Some(true),
        b.http2_only == Some(true),
        spec_config_matches(b, c1),
        spec_config_matches(b, c2),
    ensures
        c1.protocol == Protocol::Http2Only,
        c2.protocol == c1.protocol,
{
}

} // verus!
