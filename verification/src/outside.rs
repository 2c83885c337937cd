//! The engine's seams to outside libraries.
//!
//! Each function here wraps exactly one outside computation the engine
//! relies on; the contract states what that computation returns, and the
//! rest of the crate is verified against these contracts. Results that are
//! functions of the arguments alone but too intricate to spell out are given
//! uninterpreted names that the wrappers' contracts apply.

use vstd::prelude::*;
use vstd::string::StringSliceAdditionalSpecFns;

verus! {

/// Whether a byte sequence is one well-formed JSON document, as decided by
/// `serde_json`'s parser.
pub uninterp spec fn json_wf(b: Seq<u8>) -> bool;

/// The charset parameter of a content-type string, as decided by the `mime`
/// parser: `None` when the string is not a well-formed media type or carries
/// no charset parameter.
pub uninterp spec fn charset_of(s: Seq<char>) -> Option<Seq<char>>;

/// The name/value pair of a cookie string, as decided by the `cookie`
/// parser: `None` when the string is not a parsable cookie.
pub uninterp spec fn cookie_pair_of(s: Seq<char>) -> Option<(Seq<char>, Seq<char>)>;

/// The decode of a byte sequence under a charset label, as decided by the
/// WHATWG encoding machinery: `None` when the label names no usable
/// encoding or the bytes are malformed for it.
pub uninterp spec fn decoded_of(label: Seq<char>, bytes: Seq<u8>) -> Option<Seq<char>>;

/// Relies on `serde_json::from_slice::<serde_json::Value>`: deserializing
/// into `Value` succeeds exactly when the input is one syntactically valid
/// JSON document, and the outcome depends on the bytes alone.
#[verifier::external_body]
pub fn json_check(b: &[u8]) -> (r: bool)
    ensures
        r == json_wf(b@),
{
    serde_json::from_slice::<serde_json::Value>(b).is_ok()
}

/// Relies on `str::parse::<mime::Mime>` and `mime::Mime::get_param`: parsing
/// a media type and reading its charset parameter depend on the string
/// alone.
#[verifier::external_body]
pub fn content_type_charset(s: &str) -> (r: Option<String>)
    ensures
        match r {
            Some(c) => charset_of(s@) == Some(c@),
            None => charset_of(s@) is None,
        },
{
    s.parse::<mime::Mime>().ok().and_then(
        |m| m.get_param("charset").map(|c| c.as_str().to_owned()),
    )
}

/// Relies on `cookie::Cookie::parse`: splitting a cookie string into its
/// name and value depends on the string alone; an unparsable string yields
/// `None`.
#[verifier::external_body]
pub fn parse_cookie_pair(s: &str) -> (r: Option<(String, String)>)
    ensures
        match r {
            Some(p) => cookie_pair_of(s@) == Some((p.0@, p.1@)),
            None => cookie_pair_of(s@) is None,
        },
{
    cookie::Cookie::parse(s).ok().map(
        |c| (c.name().to_owned(), c.value().to_owned()),
    )
}

/// Relies on `core::str::from_utf8`: it succeeds exactly on valid UTF-8
/// input, and the returned slice holds exactly the input bytes.
#[verifier::external_body]
pub fn utf8_to_str(b: &[u8]) -> (r: Option<&str>)
    ensures
        r is Some <==> vstd::utf8::valid_utf8(b@),
        r matches Some(s) ==> s@ == vstd::utf8::decode_utf8(b@) && s.spec_bytes() == b@,
{
    core::str::from_utf8(b).ok()
}

/// Relies on `encoding_rs::Encoding::for_label_no_replacement` and
/// `encoding_rs::Encoding::decode`: which encoding a label names and what
/// that encoding's decoder yields depend on the label and the bytes alone.
/// An unknown label, the replacement encoding, or bytes with malformed
/// sequences yield `None` — a distinguishable failure, never silent
/// replacement characters.
#[verifier::external_body]
pub fn decode_with_charset(label: &str, bytes: &[u8]) -> (r: Option<String>)
    ensures
        match r {
            Some(s) => decoded_of(label@, bytes@) == Some(s@),
            None => decoded_of(label@, bytes@) is None,
        },
{
    let enc = encoding_rs::Encoding::for_label_no_replacement(label.as_bytes())?;
    let (text, _, had_errors) = enc.decode(bytes);
    if had_errors {
        None
    } else {
        Some(text.into_owned())
    }
}

} // verus!
