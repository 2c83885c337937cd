//! Per-request configuration and the request planner.
//!
//! A [`RequestSpec`] collects per-call overrides; [`plan_request`] merges
//! them against the client configuration into a [`WirePlan`], the fully
//! resolved request the transport sends: for each optional field a per-call
//! value replaces the client default only if set, redirect overrides follow
//! the documented precedence (an explicit "no redirects" wins over any
//! cap), headers are applied in the documented order, and exactly one
//! payload is encoded to bytes.

use vstd::prelude::*;
use vstd::string::StringSliceAdditionalSpecFns;
use vstd::utf8::encode_utf8;

use crate::config::{ClientConfig, RedirectPolicy};
use crate::cookies::{spec_cookie_header, valid_header_value};
use crate::error::Error;
use crate::headers::{
    entries_model, spec_canonical_name, spec_headers_ok, spec_without, valid_header_name,
    HeaderEntryModel, HeaderMap,
};
use crate::http::{Method, Version};
use crate::json::{spec_json_bytes, Json};
use crate::multipart::{
    spec_multipart_bytes, spec_multipart_content_type, spec_parts_ok, valid_boundary, Part,
};

verus! {

/// Per-request authentication.
#[derive(Debug)]
pub enum Auth {
    /// A raw `Authorization` header value.
    Raw(String),
    /// Bearer-token authentication.
    Bearer(String),
    /// Basic authentication: user and optional password. The credential
    /// pair is carried to the transport, which encodes it on the wire.
    Basic(String, Option<String>),
}

/// The request payload: exactly one kind is ever set. The setters on
/// [`RequestSpec`] overwrite each other, so when several payloads are
/// supplied the last one applied wins, deterministically.
#[derive(Debug)]
pub enum Payload {
    /// No body.
    Empty,
    /// Form pairs, sent URL-encoded.
    Form(Vec<(String, String)>),
    /// A JSON value, sent as canonical JSON bytes.
    JsonValue(Json),
    /// Raw bytes, passed through.
    Raw(Vec<u8>),
    /// A multipart form, encoded against the boundary the transport
    /// supplied (boundary generation is the transport's randomness).
    Multipart(Vec<Part>, Vec<u8>),
}

/// The per-call request configuration, a sparse set of overrides merged
/// against the client defaults by [`plan_request`].
#[derive(Debug)]
pub struct RequestSpec {
    /// Opaque emulation-profile token for this call.
    pub emulation: Option<u64>,
    /// Proxy override for this call.
    pub proxy: Option<String>,
    /// Local address override for this call.
    pub local_address: Option<String>,
    /// Interface override for this call.
    pub interface: Option<String>,
    /// Total timeout override, in seconds.
    pub timeout: Option<u64>,
    /// Read timeout override, in seconds.
    pub read_timeout: Option<u64>,
    /// Forced HTTP version for this call.
    pub version: Option<Version>,
    /// Per-call headers, applied after the client defaults; a name may
    /// appear repeatedly.
    pub headers: Vec<(String, Vec<u8>)>,
    /// `Some(false)` suppresses the client default headers entirely.
    pub default_headers: Option<bool>,
    /// Explicit cookie pairs, appended as one `Cookie` header.
    pub cookies: Vec<(String, String)>,
    /// Redirect override: `Some(false)` disables redirects whatever else is
    /// set; `Some(true)` enables them with `max_redirects` as the cap.
    pub allow_redirects: Option<bool>,
    /// The per-call redirect cap, meaningful only with redirects enabled.
    pub max_redirects: Option<usize>,
    /// Authentication for this call.
    pub auth: Option<Auth>,
    /// Query pairs, ordered, repeatable keys.
    pub query: Vec<(String, String)>,
    /// The payload.
    pub payload: Payload,
    /// Compression overrides for this call.
    pub gzip: Option<bool>,
    /// Compression overrides for this call.
    pub brotli: Option<bool>,
    /// Compression overrides for this call.
    pub deflate: Option<bool>,
    /// Compression overrides for this call.
    pub zstd: Option<bool>,
}

impl RequestSpec {
    /// An empty spec: no overrides, no payload.
    pub fn new() -> (r: RequestSpec)
        ensures
            r.emulation is None,
            r.proxy is None,
            r.local_address is None,
            r.interface is None,
            r.timeout is None,
            r.read_timeout is None,
            r.version is None,
            r.headers@.len() == 0,
            r.default_headers is None,
            r.cookies@.len() == 0,
            r.allow_redirects is None,
            r.max_redirects is None,
            r.auth is None,
            r.query@.len() == 0,
            r.payload is Empty,
            r.gzip is None,
            r.brotli is None,
            r.deflate is None,
            r.zstd is None,
    {
        RequestSpec {
            emulation: None,
            proxy: None,
            local_address: None,
            interface: None,
            timeout: None,
            read_timeout: None,
            version: None,
            headers: Vec::new(),
            default_headers: None,
            cookies: Vec::new(),
            allow_redirects: None,
            max_redirects: None,
            auth: None,
            query: Vec::new(),
            payload: Payload::Empty,
            gzip: None,
            brotli: None,
            deflate: None,
            zstd: None,
        }
    }

    /// Sets a form payload, replacing any payload set before: the last
    /// setter applied wins.
    pub fn form(&mut self, pairs: Vec<(String, String)>)
        ensures
            *final(self) == (RequestSpec { payload: Payload::Form(pairs), ..*old(self) }),
    {
        self.payload = Payload::Form(pairs);
    }

    /// Sets a JSON payload, replacing any payload set before: the last
    /// setter applied wins.
    pub fn json(&mut self, value: Json)
        ensures
            *final(self) == (RequestSpec { payload: Payload::JsonValue(value), ..*old(self) }),
    {
        self.payload = Payload::JsonValue(value);
    }

    /// Sets a raw byte payload, replacing any payload set before: the last
    /// setter applied wins.
    pub fn body(&mut self, bytes: Vec<u8>)
        ensures
            *final(self) == (RequestSpec { payload: Payload::Raw(bytes), ..*old(self) }),
    {
        self.payload = Payload::Raw(bytes);
    }

    /// Sets a multipart payload against a transport-supplied boundary,
    /// replacing any payload set before: the last setter applied wins.
    pub fn multipart(&mut self, parts: Vec<Part>, boundary: Vec<u8>)
        ensures
            *final(self) == (RequestSpec {
                payload: Payload::Multipart(parts, boundary),
                ..*old(self)
            }),
    {
        self.payload = Payload::Multipart(parts, boundary);
    }
}

/// The redirect policy one call runs under: an explicit `false` disables
/// redirects whatever cap is supplied — redirects-disabled wins; an
/// explicit `true` applies the per-call cap, or no cap when none is given;
/// an unset override inherits the client policy unchanged.
pub open spec fn spec_request_redirect(
    client: RedirectPolicy,
    allow: Option<bool>,
    max: Option<usize>,
) -> RedirectPolicy {
    match allow {
        Some(false) => RedirectPolicy::NoFollow,
        Some(true) => match max {
            Some(n) => RedirectPolicy::Limited(n),
            None => RedirectPolicy::Unlimited,
        },
        None => client,
    }
}

/// A per-call optional value replaces the client default only if set.
pub open spec fn spec_override<T>(client: Option<T>, call: Option<T>) -> Option<T> {
    match call {
        Some(v) => Some(v),
        None => client,
    }
}

/// A per-call boolean override on a resolved client flag.
pub open spec fn spec_override_flag(client: bool, call: Option<bool>) -> bool {
    match call {
        Some(v) => v,
        None => client,
    }
}

/// Applying one per-call header: a `cookie` header is appended — multiple
/// cookie headers are legitimate — while any other name replaces all
/// entries it matches.
pub open spec fn spec_apply_header(
    h: Seq<HeaderEntryModel>,
    name: Seq<char>,
    value: Seq<u8>,
) -> Seq<HeaderEntryModel> {
    if name == "cookie"@ {
        h + seq![(name, value)]
    } else {
        spec_without(h, name) + seq![(name, value)]
    }
}

/// Applying a whole per-call header list, in order, each name in canonical
/// form.
pub open spec fn spec_apply_headers(
    h: Seq<HeaderEntryModel>,
    entries: Seq<(Seq<char>, Seq<u8>)>,
) -> Seq<HeaderEntryModel>
    decreases entries.len(),
{
    if entries.len() == 0 {
        h
    } else {
        spec_apply_header(
            spec_apply_headers(h, entries.drop_last()),
            spec_canonical_name(entries.last().0),
            entries.last().1,
        )
    }
}

/// The fully resolved request handed to the transport.
#[derive(Debug)]
pub struct WirePlan {
    /// The request method.
    pub method: Method,
    /// The request URL as given.
    pub url: String,
    /// The URL-encoded query string, empty when no query pairs were given.
    pub query_string: Vec<u8>,
    /// The assembled headers, in application order.
    pub headers: HeaderMap,
    /// Basic-auth credentials, encoded on the wire by the transport.
    pub basic_auth: Option<(String, Option<String>)>,
    /// The encoded payload bytes, empty for no body.
    pub body: Vec<u8>,
    /// The effective total timeout, in seconds.
    pub timeout: Option<u64>,
    /// The effective read timeout, in seconds.
    pub read_timeout: Option<u64>,
    /// The redirect policy this call runs under.
    pub redirect: RedirectPolicy,
    /// The forced HTTP version, if any.
    pub version: Option<Version>,
    /// The effective emulation-profile token.
    pub emulation: Option<u64>,
    /// The effective proxy.
    pub proxy: Option<String>,
    /// The effective local address.
    pub local_address: Option<String>,
    /// The effective interface.
    pub interface: Option<String>,
    /// Accept gzip-encoded responses on this call.
    pub gzip: bool,
    /// Accept brotli-encoded responses on this call.
    pub brotli: bool,
    /// Accept deflate-encoded responses on this call.
    pub deflate: bool,
    /// Accept zstd-encoded responses on this call.
    pub zstd: bool,
    /// Retry count for HTTP/2 protocol-level stream errors.
    pub http2_max_retry_count: Option<usize>,
}

/// The encoded payload bytes of a spec.
pub open spec fn spec_payload_bytes(p: Payload) -> Seq<u8> {
    match p {
        Payload::Empty => Seq::<u8>::empty(),
        Payload::Form(pairs) => crate::form::spec_form_pairs(pairs@),
        Payload::JsonValue(j) => spec_json_bytes(j),
        Payload::Raw(b) => b@,
        Payload::Multipart(parts, boundary) => spec_multipart_bytes(parts@, boundary@),
    }
}

/// Whether a payload can be encoded: a multipart form needs a well-formed
/// boundary and well-formed parts; every other payload always encodes.
pub open spec fn spec_payload_ok(p: Payload) -> bool {
    match p {
        Payload::Multipart(parts, boundary) => valid_boundary(boundary@) && spec_parts_ok(parts@),
        _ => true,
    }
}

/// The content-type announced for a payload, `None` when the engine sets
/// none (raw bytes pass through untyped).
pub open spec fn spec_payload_content_type(p: Payload) -> Option<Seq<u8>> {
    match p {
        Payload::Form(_) => Some("application/x-www-form-urlencoded".spec_bytes()),
        Payload::JsonValue(_) => Some("application/json".spec_bytes()),
        Payload::Multipart(_, boundary) => Some(spec_multipart_content_type(boundary@)),
        _ => None,
    }
}

/// The `Authorization` header produced by an auth setting, `None` for
/// basic auth, which is carried structurally.
pub open spec fn spec_auth_header(a: Auth) -> Option<Seq<u8>> {
    match a {
        Auth::Raw(s) => Some(encode_utf8(s@)),
        Auth::Bearer(t) => Some("Bearer ".spec_bytes() + encode_utf8(t@)),
        Auth::Basic(_, _) => None,
    }
}

/// The assembled header list of one call, in the documented application
/// order: the client default headers (unless suppressed), then the
/// cookie-store `Cookie` header (only when the store supplied one and no
/// explicit cookies override it), then the per-call headers — `cookie`
/// appended, others replacing by name — then the explicit cookie pairs as
/// one appended `Cookie` header, then the `Authorization` header, and a
/// content-type for the payload only when none was set.
pub open spec fn spec_plan_headers(
    defaults: Seq<HeaderEntryModel>,
    suppress: bool,
    store_cookie: Option<Seq<u8>>,
    per_call: Seq<(Seq<char>, Seq<u8>)>,
    explicit_cookies: Seq<(String, String)>,
    auth: Option<Seq<u8>>,
    content_type: Option<Seq<u8>>,
) -> Seq<HeaderEntryModel> {
    let base = if suppress {
        Seq::<HeaderEntryModel>::empty()
    } else {
        defaults
    };
    let with_store = match store_cookie {
        Some(v) => if explicit_cookies.len() == 0 {
            base + seq![("cookie"@, v)]
        } else {
            base
        },
        None => base,
    };
    let with_call = spec_apply_headers(with_store, per_call);
    let with_cookies = if explicit_cookies.len() > 0 {
        with_call + seq![("cookie"@, spec_cookie_header(explicit_cookies))]
    } else {
        with_call
    };
    let with_auth = match auth {
        Some(v) => spec_apply_header(with_cookies, "authorization"@, v),
        None => with_cookies,
    };
    spec_with_content_type(with_auth, content_type)
}

/// Adds the payload content-type when none is present yet.
pub open spec fn spec_with_content_type(
    h: Seq<HeaderEntryModel>,
    content_type: Option<Seq<u8>>,
) -> Seq<HeaderEntryModel> {
    match content_type {
        Some(v) => if exists|i: int| 0 <= i < h.len() && (#[trigger] h[i]).0 == "content-type"@ {
            h
        } else {
            h + seq![("content-type"@, v)]
        },
        None => h,
    }
}


/// Whether planning succeeds for a spec: every supplied header name and
/// value is well-formed, the explicit cookie pairs build a legal header
/// value, and a raw or bearer authorization value is legal. Planning
/// validates everything before anything can reach the wire.
pub open spec fn spec_plan_ok(spec: RequestSpec) -> bool {
    spec_assemble_ok(spec.headers@, spec.cookies@, spec.auth) && spec_payload_ok(spec.payload)
}

/// The auth header of an optional auth setting.
pub open spec fn spec_auth_header_opt(a: Option<Auth>) -> Option<Seq<u8>> {
    match a {
        Some(x) => spec_auth_header(x),
        None => None,
    }
}

/// The view of an optional cookie-store header value.
pub open spec fn spec_opt_bytes(o: Option<Vec<u8>>) -> Option<Seq<u8>> {
    match o {
        Some(v) => Some(v@),
        None => None,
    }
}

/// Whether header assembly succeeds for a call: every supplied header is
/// well-formed, the explicit cookie pairs build a legal header value, and
/// a raw or bearer authorization value is legal.
pub open spec fn spec_assemble_ok(
    per_call: Seq<(String, Vec<u8>)>,
    cookies: Seq<(String, String)>,
    auth: Option<Auth>,
) -> bool {
    &&& spec_headers_ok(per_call)
    &&& (cookies.len() > 0 ==> valid_header_value(spec_cookie_header(cookies)))
    &&& match auth {
        Some(a) => match spec_auth_header(a) {
            Some(v) => valid_header_value(v),
            None => true,
        },
        None => true,
    }
}

/// Assembles the header list of one call in the documented application
/// order; shared by the request and the WebSocket-upgrade planners.
/// Succeeds exactly when the supplied headers, cookies and authorization
/// are well-formed; anything malformed is rejected with a configuration
/// error before it can reach the wire.
fn assemble_headers(
    defaults: &Vec<(String, Vec<u8>)>,
    suppress: bool,
    store_cookie: Option<Vec<u8>>,
    per_call: &Vec<(String, Vec<u8>)>,
    cookies: &Vec<(String, String)>,
    auth: &Option<Auth>,
) -> (r: Result<HeaderMap, Error>)
    ensures
        r is Ok <==> spec_assemble_ok(per_call@, cookies@, *auth),
        r matches Ok(hm) ==> hm@ == spec_plan_headers(
            entries_model(defaults@),
            suppress,
            spec_opt_bytes(store_cookie),
            entries_model(per_call@),
            cookies@,
            spec_auth_header_opt(*auth),
            None,
        ),
        r is Err ==> r == Result::<HeaderMap, Error>::Err(Error::Config),
{
    // Stage 1: the client default headers, unless suppressed.
        let ghost base = if suppress {
        Seq::<HeaderEntryModel>::empty()
    } else {
        entries_model(defaults@)
    };
    let mut hm = HeaderMap::new();
    if !suppress {
        let mut i: usize = 0;
        while i < defaults.len()
            invariant
                i <= defaults@.len(),
                hm@ == entries_model(defaults@).subrange(0, i as int),
            decreases defaults@.len() - i,
        {
            let n = defaults[i].0.clone();
            let v = crate::util::copy_bytes(&defaults[i].1);
            proof {
                assert(n@ == entries_model(defaults@)[i as int].0);
                assert(v@ == entries_model(defaults@)[i as int].1);
            }
            hm.append(n, v);
            proof {
                assert(hm@ =~= entries_model(defaults@).subrange(0, i as int + 1));
            }
            i = i + 1;
        }
        proof {
            assert(entries_model(defaults@).subrange(
                0,
                defaults@.len() as int,
            ) =~= entries_model(defaults@));
        }
    }
    proof {
        assert(hm@ =~= base);
    }

    // Stage 2: the cookie-store header, only when no explicit cookies
    // override it.
    let ghost base2 = match spec_opt_bytes(store_cookie) {
        Some(v) => if cookies@.len() == 0 {
            base + seq![("cookie"@, v)]
        } else {
            base
        },
        None => base,
    };
    match store_cookie {
        Some(v) => {
            if cookies.len() == 0 {
                hm.append("cookie".to_owned(), v);
            }
        },
        None => {},
    }
    proof {
        assert(hm@ =~= base2);
    }

    // Stage 3: the per-call headers, validated, names canonicalized;
    // `cookie` appended, other names replacing their entries.
    let ghost pcall = entries_model(per_call@);
    let mut i: usize = 0;
    while i < per_call.len()
        invariant
            i <= per_call@.len(),
            per_call@ == per_call@,
            pcall == entries_model(per_call@),
            hm@ == spec_apply_headers(base2, pcall.subrange(0, i as int)),
            forall|j: int|
                0 <= j < i ==> valid_header_name(
                    encode_utf8((#[trigger] per_call@[j]).0@),
                ) && valid_header_value(per_call@[j].1@),
        decreases per_call@.len() - i,
    {
        let ghost pre = pcall.subrange(0, i as int);
        let ghost cur = pcall.subrange(0, i as int + 1);
        proof {
            assert(cur.drop_last() =~= pre);
            assert(cur.last() == pcall[i as int]);
            assert(pcall[i as int] == (per_call@[i as int].0@, per_call@[i as int].1@));
        }
        let name = match crate::headers::validate_header_name(per_call[i].0.as_str()) {
            Ok(n) => n,
            Err(_) => {
                proof {
                    assert(!valid_header_name(encode_utf8(per_call@[i as int].0@)));
                    assert(!spec_headers_ok(per_call@));
                }
                return Err(Error::Config);
            },
        };
        let value = crate::util::copy_bytes(&per_call[i].1);
        match crate::headers::validate_header_value(&value) {
            Ok(_) => {},
            Err(_) => {
                proof {
                    assert(!valid_header_value(per_call@[i as int].1@));
                    assert(!spec_headers_ok(per_call@));
                }
                return Err(Error::Config);
            },
        }
        proof {
            vstd::utf8::encode_utf8_decode_utf8(name@);
            assert(name@ == spec_canonical_name(per_call@[i as int].0@));
        }
        if crate::util::str_eq(name.as_str(), "cookie") {
            hm.append(name, value);
        } else {
            hm.insert(name, value);
        }
        proof {
            assert(hm@ =~= spec_apply_headers(base2, cur));
        }
        i = i + 1;
    }
    proof {
        assert(pcall.subrange(0, pcall.len() as int) =~= pcall);
        assert(hm@ == spec_apply_headers(base2, pcall));
    }
    let ghost base3 = spec_apply_headers(base2, pcall);

    // Stage 4: the explicit cookie pairs as one appended `Cookie` header.
    if cookies.len() > 0 {
        match crate::cookies::cookie_header_value(&cookies) {
            Ok(v) => {
                hm.append("cookie".to_owned(), v);
            },
            Err(_) => {
                return Err(Error::Config);
            },
        }
    }
    let ghost base4 = if cookies@.len() > 0 {
        base3 + seq![("cookie"@, spec_cookie_header(cookies@))]
    } else {
        base3
    };
    proof {
        assert(hm@ =~= base4);
    }

    // Stage 5: authentication.
    match auth {
        Option::None => {},
        Option::Some(Auth::Raw(s)) => {
            let mut v: Vec<u8> = Vec::new();
            crate::util::append_str_bytes(&mut v, s.as_str());
            proof {
                assert(v@ =~= encode_utf8(s@));
                assert(*auth == Some(Auth::Raw(*s)));
                assert(spec_auth_header_opt(*auth) == Some(encode_utf8(s@)));
            }
            match crate::headers::validate_header_value(&v) {
                Ok(_) => {},
                Err(_) => {
                    return Err(Error::Config);
                },
            }
            let ghost gv = v@;
            hm.insert("authorization".to_owned(), v);
            proof {
                reveal_strlit("authorization");
                reveal_strlit("cookie");
                assert("authorization"@.len() == 13);
                assert("cookie"@.len() == 6);
                assert("authorization"@ != "cookie"@);
                assert(hm@ =~= spec_apply_header(base4, "authorization"@, gv));
            }
        },
        Option::Some(Auth::Bearer(t)) => {
            let mut v: Vec<u8> = Vec::new();
            crate::util::append_str_bytes(&mut v, "Bearer ");
            crate::util::append_str_bytes(&mut v, t.as_str());
            proof {
                assert(v@ =~= "Bearer ".spec_bytes() + encode_utf8(t@));
                assert(*auth == Some(Auth::Bearer(*t)));
                assert(spec_auth_header_opt(*auth) == Some(
                    "Bearer ".spec_bytes() + encode_utf8(t@),
                ));
            }
            match crate::headers::validate_header_value(&v) {
                Ok(_) => {},
                Err(_) => {
                    return Err(Error::Config);
                },
            }
            let ghost gv = v@;
            hm.insert("authorization".to_owned(), v);
            proof {
                reveal_strlit("authorization");
                reveal_strlit("cookie");
                assert("authorization"@.len() == 13);
                assert("cookie"@.len() == 6);
                assert("authorization"@ != "cookie"@);
                assert(hm@ =~= spec_apply_header(base4, "authorization"@, gv));
            }
        },
        Option::Some(Auth::Basic(_, _)) => {},
    }
    let ghost base5 = match spec_auth_header_opt(*auth) {
        Some(v) => spec_apply_header(base4, "authorization"@, v),
        None => base4,
    };
    proof {
        assert(hm@ =~= base5);
    }

    Ok(hm)
}

/// The relation between a call's inputs and the plan built from them:
/// every field of the plan is pinned — the header list follows the
/// documented application order, the payload is encoded, the redirect
/// override follows the documented precedence, and every optional field
/// either takes the per-call value or inherits the client default.
pub open spec fn spec_plan_matches(
    config: ClientConfig,
    method: Method,
    url: Seq<char>,
    spec: RequestSpec,
    store_cookie: Option<Seq<u8>>,
    p: WirePlan,
) -> bool {
    &&& p.method == method
    &&& p.url@ == url
    &&& p.query_string@ == crate::form::spec_form_pairs(spec.query@)
    &&& p.headers@ == spec_plan_headers(
        entries_model(config.default_headers@),
        spec.default_headers == Some(false),
        store_cookie,
        entries_model(spec.headers@),
        spec.cookies@,
        spec_auth_header_opt(spec.auth),
        spec_payload_content_type(spec.payload),
    )
    &&& match spec.auth {
        Some(Auth::Basic(u, pw)) => (p.basic_auth matches Some(b) && b.0@ == u@ && match (
            b.1,
            pw,
        ) {
            (Some(x), Some(y)) => x@ == y@,
            (None, None) => true,
            _ => false,
        }),
        _ => p.basic_auth is None,
    }
    &&& p.body@ == spec_payload_bytes(spec.payload)
    &&& p.timeout == spec_override(config.timeout, spec.timeout)
    &&& p.read_timeout == spec_override(config.read_timeout, spec.read_timeout)
    &&& p.redirect == spec_request_redirect(
        config.redirect,
        spec.allow_redirects,
        spec.max_redirects,
    )
    &&& p.version == spec.version
    &&& p.emulation == spec.emulation
    &&& p.proxy == spec.proxy
    &&& p.local_address == spec.local_address
    &&& p.interface == spec.interface
    &&& p.gzip == spec_override_flag(config.gzip, spec.gzip)
    &&& p.brotli == spec_override_flag(config.brotli, spec.brotli)
    &&& p.deflate == spec_override_flag(config.deflate, spec.deflate)
    &&& p.zstd == spec_override_flag(config.zstd, spec.zstd)
    &&& p.http2_max_retry_count == config.http2_max_retry_count
}

/// Merges the per-call spec against the client configuration into the
/// fully resolved request the transport sends.
///
/// Succeeds exactly when the spec is well-formed ([`spec_plan_ok`]); a
/// malformed header name or value, cookie pair or authorization value is
/// rejected here, synchronously, with a configuration error — never
/// mid-flight. On success every field of the plan is pinned: the header
/// list follows the documented application order, the payload is encoded,
/// the redirect override follows the documented precedence, and every
/// optional field either takes the per-call value or inherits the client
/// default. `store_cookie` is the `Cookie` value the cookie store derived
/// for this URL, if any; it must be a legal header value.
pub fn plan_request(
    config: &ClientConfig,
    method: Method,
    url: String,
    spec: RequestSpec,
    store_cookie: Option<Vec<u8>>,
) -> (r: Result<WirePlan, Error>)
    requires
        (store_cookie matches Some(v) ==> valid_header_value(v@)),
    ensures
        r is Ok <==> spec_plan_ok(spec),
        r is Err ==> r == Result::<WirePlan, Error>::Err(Error::Config),
        r matches Ok(p) ==> spec_plan_matches(
            *config,
            method,
            url@,
            spec,
            spec_opt_bytes(store_cookie),
            p,
        ),
{
    let RequestSpec {
        emulation,
        proxy,
        local_address,
        interface,
        timeout,
        read_timeout,
        version,
        headers,
        default_headers,
        cookies,
        allow_redirects,
        max_redirects,
        auth,
        query,
        payload,
        gzip,
        brotli,
        deflate,
        zstd,
    } = spec;

    // The header list, assembled in the documented order.
    let suppress = match default_headers {
        Some(false) => true,
        _ => false,
    };
    let mut hm = match assemble_headers(
        &config.default_headers,
        suppress,
        store_cookie,
        &headers,
        &cookies,
        &auth,
    ) {
        Ok(hm) => hm,
        Err(_) => {
            return Err(Error::Config);
        },
    };
    let mut basic_auth: Option<(String, Option<String>)> = None;
    match auth {
        Option::Some(Auth::Basic(u, pw)) => {
            basic_auth = Some((u, pw));
        },
        _ => {},
    }
    let ghost base5 = spec_plan_headers(
        entries_model(config.default_headers@),
        spec.default_headers == Some(false),
        spec_opt_bytes(store_cookie),
        entries_model(spec.headers@),
        spec.cookies@,
        spec_auth_header_opt(spec.auth),
        None,
    );
    proof {
        assert(hm@ == base5);
    }

    // Stage 6: the payload content-type, only when none is present yet.
    match &payload {
        Payload::Form(_) => {
            if !hm.contains_key("content-type") {
                let mut v: Vec<u8> = Vec::new();
                crate::util::append_str_bytes(&mut v, "application/x-www-form-urlencoded");
                hm.append("content-type".to_owned(), v);
            }
        },
        Payload::JsonValue(_) => {
            if !hm.contains_key("content-type") {
                let mut v: Vec<u8> = Vec::new();
                crate::util::append_str_bytes(&mut v, "application/json");
                hm.append("content-type".to_owned(), v);
            }
        },
        Payload::Multipart(_, boundary) => {
            if !hm.contains_key("content-type") {
                let v = crate::multipart::multipart_content_type(boundary);
                hm.append("content-type".to_owned(), v);
            }
        },
        _ => {},
    }
    proof {
        assert(hm@ =~= spec_with_content_type(base5, spec_payload_content_type(spec.payload)));
    }

    // The payload bytes and the query string. An unencodable multipart
    // payload is rejected here, before anything can reach the wire.
    let query_string = crate::form::form_urlencode(&query);
    let body: Vec<u8> = match payload {
        Payload::Empty => Vec::new(),
        Payload::Form(pairs) => crate::form::form_urlencode(&pairs),
        Payload::JsonValue(j) => j.to_bytes(),
        Payload::Raw(b) => b,
        Payload::Multipart(parts, boundary) => {
            match crate::multipart::multipart_bytes(&parts, &boundary) {
                Ok(v) => v,
                Err(_) => {
                    proof {
                        assert(!spec_payload_ok(spec.payload));
                    }
                    return Err(Error::Config);
                },
            }
        },
    };
    proof {
        assert(spec_payload_ok(spec.payload));
        assert(body@ == spec_payload_bytes(spec.payload));
    }

    // The merged optional fields.
    let timeout_eff: Option<u64> = match timeout {
        Some(t) => Some(t),
        None => config.timeout,
    };
    let read_timeout_eff: Option<u64> = match read_timeout {
        Some(t) => Some(t),
        None => config.read_timeout,
    };
    let redirect: RedirectPolicy = match allow_redirects {
        Some(false) => RedirectPolicy::NoFollow,
        Some(true) => match max_redirects {
            Some(n) => RedirectPolicy::Limited(n),
            None => RedirectPolicy::Unlimited,
        },
        None => config.redirect,
    };
    let gzip_eff = match gzip {
        Some(v) => v,
        None => config.gzip,
    };
    let brotli_eff = match brotli {
        Some(v) => v,
        None => config.brotli,
    };
    let deflate_eff = match deflate {
        Some(v) => v,
        None => config.deflate,
    };
    let zstd_eff = match zstd {
        Some(v) => v,
        None => config.zstd,
    };

    Ok(WirePlan {
        method,
        url,
        query_string,
        headers: hm,
        basic_auth,
        body,
        timeout: timeout_eff,
        read_timeout: read_timeout_eff,
        redirect,
        version,
        emulation,
        proxy,
        local_address,
        interface,
        gzip: gzip_eff,
        brotli: brotli_eff,
        deflate: deflate_eff,
        zstd: zstd_eff,
        http2_max_retry_count: config.http2_max_retry_count,
    })
}


/// The per-call configuration of a WebSocket upgrade.
#[derive(Debug)]
pub struct WebSocketRequest {
    /// Opaque emulation-profile token for this call.
    pub emulation: Option<u64>,
    /// Proxy override for this call.
    pub proxy: Option<String>,
    /// Local address override for this call.
    pub local_address: Option<String>,
    /// Interface override for this call.
    pub interface: Option<String>,
    /// Per-call headers, applied after the client defaults.
    pub headers: Vec<(String, Vec<u8>)>,
    /// `Some(false)` suppresses the client default headers entirely.
    pub default_headers: Option<bool>,
    /// Explicit cookie pairs, appended as one `Cookie` header.
    pub cookies: Vec<(String, String)>,
    /// The sub-protocols offered in the upgrade.
    pub protocols: Option<Vec<String>>,
    /// Force the upgrade over HTTP/2.
    pub force_http2: Option<bool>,
    /// Authentication for this call.
    pub auth: Option<Auth>,
    /// Query pairs, ordered, repeatable keys.
    pub query: Vec<(String, String)>,
    /// Read buffer capacity.
    pub read_buffer_size: Option<usize>,
    /// Write buffer target size.
    pub write_buffer_size: Option<usize>,
    /// Write buffer hard bound.
    pub max_write_buffer_size: Option<usize>,
    /// Maximum incoming message size.
    pub max_message_size: Option<usize>,
    /// Maximum incoming frame size.
    pub max_frame_size: Option<usize>,
    /// Accept unmasked frames from the peer.
    pub accept_unmasked_frames: Option<bool>,
}

/// The fully resolved WebSocket upgrade handed to the transport.
#[derive(Debug)]
pub struct WsPlan {
    /// The upgrade URL as given.
    pub url: String,
    /// The URL-encoded query string, empty when no query pairs were given.
    pub query_string: Vec<u8>,
    /// The assembled headers, in application order.
    pub headers: HeaderMap,
    /// Basic-auth credentials, encoded on the wire by the transport.
    pub basic_auth: Option<(String, Option<String>)>,
    /// The sub-protocols offered in the upgrade.
    pub protocols: Option<Vec<String>>,
    /// Whether the upgrade is forced over HTTP/2; plain negotiation
    /// otherwise.
    pub force_http2: bool,
    /// Read buffer capacity.
    pub read_buffer_size: Option<usize>,
    /// Write buffer target size.
    pub write_buffer_size: Option<usize>,
    /// Write buffer hard bound.
    pub max_write_buffer_size: Option<usize>,
    /// Maximum incoming message size.
    pub max_message_size: Option<usize>,
    /// Maximum incoming frame size.
    pub max_frame_size: Option<usize>,
    /// Accept unmasked frames from the peer.
    pub accept_unmasked_frames: Option<bool>,
    /// The effective emulation-profile token.
    pub emulation: Option<u64>,
    /// The effective proxy.
    pub proxy: Option<String>,
    /// The effective local address.
    pub local_address: Option<String>,
    /// The effective interface.
    pub interface: Option<String>,
}

/// Whether planning a WebSocket upgrade succeeds for a request.
pub open spec fn spec_ws_plan_ok(req: WebSocketRequest) -> bool {
    spec_assemble_ok(req.headers@, req.cookies@, req.auth)
}

/// The relation between a WebSocket upgrade's inputs and the plan built
/// from them: the headers follow the documented application order, the
/// query is encoded, and every socket option passes through unchanged.
pub open spec fn spec_ws_plan_matches(
    config: ClientConfig,
    url: Seq<char>,
    req: WebSocketRequest,
    store_cookie: Option<Seq<u8>>,
    p: WsPlan,
) -> bool {
    &&& p.url@ == url
    &&& p.query_string@ == crate::form::spec_form_pairs(req.query@)
    &&& p.headers@ == spec_plan_headers(
        entries_model(config.default_headers@),
        req.default_headers == Some(false),
        store_cookie,
        entries_model(req.headers@),
        req.cookies@,
        spec_auth_header_opt(req.auth),
        None,
    )
    &&& match req.auth {
        Some(Auth::Basic(u, pw)) => (p.basic_auth matches Some(b) && b.0@ == u@ && match (
            b.1,
            pw,
        ) {
            (Some(x), Some(y)) => x@ == y@,
            (None, None) => true,
            _ => false,
        }),
        _ => p.basic_auth is None,
    }
    &&& p.protocols == req.protocols
    &&& p.force_http2 == (req.force_http2 == Some(true))
    &&& p.read_buffer_size == req.read_buffer_size
    &&& p.write_buffer_size == req.write_buffer_size
    &&& p.max_write_buffer_size == req.max_write_buffer_size
    &&& p.max_message_size == req.max_message_size
    &&& p.max_frame_size == req.max_frame_size
    &&& p.accept_unmasked_frames == req.accept_unmasked_frames
    &&& p.emulation == req.emulation
    &&& p.proxy == req.proxy
    &&& p.local_address == req.local_address
    &&& p.interface == req.interface
}

/// Plans one WebSocket upgrade: assembles the headers in the documented
/// order, encodes the query, and passes the socket options through
/// unchanged. Succeeds exactly when the request is well-formed
/// ([`spec_ws_plan_ok`]); anything malformed is rejected with a
/// configuration error before the upgrade is attempted.
pub fn plan_websocket(
    config: &ClientConfig,
    url: String,
    req: WebSocketRequest,
    store_cookie: Option<Vec<u8>>,
) -> (r: Result<WsPlan, Error>)
    requires
        (store_cookie matches Some(v) ==> valid_header_value(v@)),
    ensures
        r is Ok <==> spec_ws_plan_ok(req),
        r is Err ==> r == Result::<WsPlan, Error>::Err(Error::Config),
        r matches Ok(p) ==> spec_ws_plan_matches(
            *config,
            url@,
            req,
            spec_opt_bytes(store_cookie),
            p,
        ),
{
    let WebSocketRequest {
        emulation,
        proxy,
        local_address,
        interface,
        headers,
        default_headers,
        cookies,
        protocols,
        force_http2,
        auth,
        query,
        read_buffer_size,
        write_buffer_size,
        max_write_buffer_size,
        max_message_size,
        max_frame_size,
        accept_unmasked_frames,
    } = req;

    let suppress = match default_headers {
        Some(false) => true,
        _ => false,
    };
    let hm = match assemble_headers(
        &config.default_headers,
        suppress,
        store_cookie,
        &headers,
        &cookies,
        &auth,
    ) {
        Ok(hm) => hm,
        Err(_) => {
            return Err(Error::Config);
        },
    };
    let mut basic_auth: Option<(String, Option<String>)> = None;
    match auth {
        Option::Some(Auth::Basic(u, pw)) => {
            basic_auth = Some((u, pw));
        },
        _ => {},
    }

    let query_string = crate::form::form_urlencode(&query);
    Ok(WsPlan {
        url,
        query_string,
        headers: hm,
        basic_auth,
        protocols,
        force_http2: force_http2 == Some(true),
        read_buffer_size,
        write_buffer_size,
        max_write_buffer_size,
        max_message_size,
        max_frame_size,
        accept_unmasked_frames,
        emulation,
        proxy,
        local_address,
        interface,
    })
}

} // verus!
