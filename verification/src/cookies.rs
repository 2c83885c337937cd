//! Cookies: the engine's own cookie record, the `Cookie` header generator,
//! and extraction of cookies from response headers.

use vstd::prelude::*;
use vstd::string::StringSliceAdditionalSpecFns;
use vstd::utf8::{decode_utf8, encode_utf8, valid_utf8};

use crate::error::Error;
use crate::outside::cookie_pair_of;

verus! {

/// The `SameSite` attribute of a cookie.
#[derive(Clone, Copy, PartialEq, Eq, Structural, Debug)]
pub enum SameSite {
    Strict,
    Lax,
    Empty,
}

/// A cookie, held as plain values.
#[derive(Clone, Debug)]
pub struct Cookie {
    /// The name of the cookie.
    pub name: String,
    /// The value of the cookie.
    pub value: String,
    /// The `Domain` directive, if set.
    pub domain: Option<String>,
    /// The `Path` directive, if set.
    pub path: Option<String>,
    /// The `Max-Age` directive in seconds, if set.
    pub max_age: Option<u64>,
    /// The expiration time as seconds since the Unix epoch, if set.
    pub expires: Option<i64>,
    /// Whether the `HttpOnly` directive is set.
    pub http_only: bool,
    /// Whether the `Secure` directive is set.
    pub secure: bool,
    /// The `SameSite` directive, if set.
    pub same_site: Option<SameSite>,
}

impl Cookie {
    /// Creates a new cookie from its parts.
    pub fn new(
        name: String,
        value: String,
        domain: Option<String>,
        path: Option<String>,
        max_age: Option<u64>,
        expires: Option<i64>,
        http_only: bool,
        secure: bool,
        same_site: Option<SameSite>,
    ) -> (r: Cookie)
        ensures
            r.name@ == name@,
            r.value@ == value@,
            r.domain == domain,
            r.path == path,
            r.max_age == max_age,
            r.expires == expires,
            r.http_only == http_only,
            r.secure == secure,
            r.same_site == same_site,
    {
        Cookie { name, value, domain, path, max_age, expires, http_only, secure, same_site }
    }

    /// The name of the cookie.
    pub fn name(&self) -> (r: &String)
        ensures
            r@ == self.name@,
    {
        &self.name
    }

    /// The value of the cookie.
    pub fn value(&self) -> (r: &String)
        ensures
            r@ == self.value@,
    {
        &self.value
    }

    /// Whether the `SameSite` directive is `Lax`.
    pub fn same_site_lax(&self) -> (r: bool)
        ensures
            r == (self.same_site == Some(SameSite::Lax)),
    {
        match self.same_site {
            Some(SameSite::Lax) => true,
            _ => false,
        }
    }

    /// Whether the `SameSite` directive is `Strict`.
    pub fn same_site_strict(&self) -> (r: bool)
        ensures
            r == (self.same_site == Some(SameSite::Strict)),
    {
        match self.same_site {
            Some(SameSite::Strict) => true,
            _ => false,
        }
    }

    /// Parses a cookie string into a name/value cookie record; the result is
    /// exactly what the cookie grammar admits, and unparsable strings are
    /// rejected with a configuration error.
    pub fn parse(s: &str) -> (r: Result<Cookie, Error>)
        ensures
            r is Ok <==> cookie_pair_of(s@) is Some,
            r matches Ok(c) ==> {
                &&& cookie_pair_of(s@) == Some((c.name@, c.value@))
                &&& c.domain is None
                &&& c.path is None
                &&& c.max_age is None
                &&& c.expires is None
                &&& !c.http_only
                &&& !c.secure
                &&& c.same_site is None
            },
            r is Err ==> r == Result::<Cookie, Error>::Err(Error::Config),
    {
        match crate::outside::parse_cookie_pair(s) {
            Some((name, value)) => Ok(
                Cookie {
                    name,
                    value,
                    domain: None,
                    path: None,
                    max_age: None,
                    expires: None,
                    http_only: false,
                    secure: false,
                    same_site: None,
                },
            ),
            None => Err(Error::Config),
        }
    }
}

/// Whether a byte may appear in an HTTP header value: horizontal tab or any
/// byte from space upwards except delete.
pub open spec fn valid_header_value_byte(b: u8) -> bool {
    b == 9 || (32 <= b && b != 127)
}

/// Whether every byte of the sequence may appear in an HTTP header value.
pub open spec fn valid_header_value(bs: Seq<u8>) -> bool {
    forall|i: int| 0 <= i < bs.len() ==> valid_header_value_byte(#[trigger] bs[i])
}

/// The bytes of one `key=value` segment.
pub open spec fn spec_pair_bytes(k: Seq<char>, v: Seq<char>) -> Seq<u8> {
    encode_utf8(k) + seq![61u8] + encode_utf8(v)
}

/// The bytes of a whole `Cookie` header: one `key=value` segment for each
/// pair, in insertion order, joined by `"; "`.
pub open spec fn spec_cookie_header(ps: Seq<(String, String)>) -> Seq<u8>
    decreases ps.len(),
{
    if ps.len() == 0 {
        Seq::<u8>::empty()
    } else if ps.len() == 1 {
        spec_pair_bytes(ps[0].0@, ps[0].1@)
    } else {
        spec_cookie_header(ps.drop_last()) + seq![59u8, 32u8] + spec_pair_bytes(
            ps.last().0@,
            ps.last().1@,
        )
    }
}

/// Builds the `Cookie` header for a list of name/value pairs: exactly one
/// `key=value` segment per pair, joined by `"; "`, in insertion order.
/// Succeeds exactly when the generated bytes are all legal header-value
/// bytes; otherwise the pairs are rejected with a configuration error
/// before anything is sent.
pub fn cookie_header_value(pairs: &Vec<(String, String)>) -> (r: Result<Vec<u8>, Error>)
    ensures
        r is Ok <==> valid_header_value(spec_cookie_header(pairs@)),
        r matches Ok(v) ==> v@ == spec_cookie_header(pairs@),
        r is Err ==> r == Result::<Vec<u8>, Error>::Err(Error::Config),
{
    let mut out: Vec<u8> = Vec::new();
    let mut i: usize = 0;
    while i < pairs.len()
        invariant
            i <= pairs@.len(),
            out@ == spec_cookie_header(pairs@.subrange(0, i as int)),
        decreases pairs@.len() - i,
    {
        if i > 0 {
            out.push(59u8);
            out.push(32u8);
        }
        crate::util::append_str_bytes(&mut out, pairs[i].0.as_str());
        out.push(61u8);
        crate::util::append_str_bytes(&mut out, pairs[i].1.as_str());
        proof {
            let pre = pairs@.subrange(0, i as int);
            let cur = pairs@.subrange(0, i as int + 1);
            assert(cur.drop_last() =~= pre);
            assert(cur.last() == pairs@[i as int]);
            assert(out@ =~= spec_cookie_header(cur));
        }
        i = i + 1;
    }
    proof {
        assert(pairs@.subrange(0, pairs@.len() as int) =~= pairs@);
    }
    if bytes_all_valid_header_value(out.as_slice()) {
        Ok(out)
    } else {
        Err(Error::Config)
    }
}

/// Checks that every byte of a slice is a legal header-value byte.
pub fn bytes_all_valid_header_value(bs: &[u8]) -> (r: bool)
    ensures
        r == valid_header_value(bs@),
{
    let mut i: usize = 0;
    while i < bs.len()
        invariant
            i <= bs@.len(),
            forall|j: int| 0 <= j < i ==> valid_header_value_byte(#[trigger] bs@[j]),
        decreases bs@.len() - i,
    {
        let b = bs[i];
        if !(b == 9 || (32 <= b && b != 127)) {
            return false;
        }
        i = i + 1;
    }
    true
}

/// The cookies carried by the `Set-Cookie` entries of a header list, in
/// order: each entry whose value is valid UTF-8 and parses as a cookie
/// contributes its name/value pair; the others are skipped.
pub open spec fn spec_extracted_cookies(h: Seq<(String, Vec<u8>)>) -> Seq<(Seq<char>, Seq<char>)>
    decreases h.len(),
{
    if h.len() == 0 {
        Seq::<(Seq<char>, Seq<char>)>::empty()
    } else {
        let rest = spec_extracted_cookies(h.drop_last());
        let last = h.last();
        if last.0@ == "set-cookie"@ && valid_utf8(last.1@) && cookie_pair_of(
            decode_utf8(last.1@),
        ) is Some {
            rest + seq![cookie_pair_of(decode_utf8(last.1@)).unwrap()]
        } else {
            rest
        }
    }
}

/// Extracts the cookies announced by the `Set-Cookie` entries of a header
/// list, in order, skipping entries that are not valid UTF-8 or do not
/// parse.
pub fn extract_cookies(headers: &Vec<(String, Vec<u8>)>) -> (r: Vec<Cookie>)
    ensures
        r@.map_values(|c: Cookie| (c.name@, c.value@)) == spec_extracted_cookies(headers@),
{
    let mut out: Vec<Cookie> = Vec::new();
    let mut i: usize = 0;
    while i < headers.len()
        invariant
            i <= headers@.len(),
            out@.map_values(|c: Cookie| (c.name@, c.value@)) == spec_extracted_cookies(
                headers@.subrange(0, i as int),
            ),
        decreases headers@.len() - i,
    {
        let ghost pre = headers@.subrange(0, i as int);
        let ghost cur = headers@.subrange(0, i as int + 1);
        proof {
            assert(cur.drop_last() =~= pre);
            assert(cur.last() == headers@[i as int]);
        }
        if crate::util::str_eq(headers[i].0.as_str(), "set-cookie") {
            match crate::outside::utf8_to_str(headers[i].1.as_slice()) {
                Some(s) => {
                    match Cookie::parse(s) {
                        Ok(c) => {
                            out.push(c);
                            proof {
                                assert(out@.map_values(|c: Cookie| (c.name@, c.value@))
                                    =~= spec_extracted_cookies(cur));
                            }
                        },
                        Err(_) => {
                            proof {
                                assert(out@.map_values(|c: Cookie| (c.name@, c.value@))
                                    =~= spec_extracted_cookies(cur));
                            }
                        },
                    }
                },
                None => {
                    proof {
                        assert(out@.map_values(|c: Cookie| (c.name@, c.value@))
                            =~= spec_extracted_cookies(cur));
                    }
                },
            }
        } else {
            proof {
                assert(out@.map_values(|c: Cookie| (c.name@, c.value@))
                    =~= spec_extracted_cookies(cur));
            }
        }
        i = i + 1;
    }
    proof {
        assert(headers@.subrange(0, headers@.len() as int) =~= headers@);
    }
    out
}

} // verus!
