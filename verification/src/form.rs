//! `application/x-www-form-urlencoded` encoding for form payloads and query
//! strings: `key=value` pairs joined by `&`, each key and value
//! percent-encoded — alphanumerics and `*-._` unchanged, space as `+`,
//! every other byte as `%XX` with uppercase hex.

use vstd::prelude::*;
use vstd::utf8::encode_utf8;

verus! {

/// Whether a byte passes through URL-encoding unchanged.
pub open spec fn form_unchanged_byte(b: u8) -> bool {
    ||| b == 42  // *
    ||| b == 45  // -
    ||| b == 46  // .
    ||| (48 <= b <= 57)  // digits
    ||| (65 <= b <= 90)  // uppercase letters
    ||| b == 95  // _
    ||| (97 <= b <= 122)  // lowercase letters
}

/// The uppercase hex digit for a value below 16.
pub open spec fn spec_hex_upper(n: u8) -> u8 {
    if n < 10 {
        (48 + n) as u8
    } else {
        (55 + n) as u8
    }
}

/// The URL-encoded form of one byte.
pub open spec fn spec_form_byte(b: u8) -> Seq<u8> {
    if form_unchanged_byte(b) {
        seq![b]
    } else if b == 32 {
        seq![43u8]
    } else {
        seq![37u8, spec_hex_upper(b / 16), spec_hex_upper(b % 16)]
    }
}

/// The URL-encoded form of a byte sequence.
pub open spec fn spec_form_encoded(bs: Seq<u8>) -> Seq<u8>
    decreases bs.len(),
{
    if bs.len() == 0 {
        Seq::<u8>::empty()
    } else {
        spec_form_encoded(bs.drop_last()) + spec_form_byte(bs.last())
    }
}

/// The URL-encoded form of a string's UTF-8 bytes.
pub open spec fn spec_form_component(s: Seq<char>) -> Seq<u8> {
    spec_form_encoded(encode_utf8(s))
}

/// A whole encoded pair list: `key=value` segments joined by `&`, in order.
pub open spec fn spec_form_pairs(ps: Seq<(String, String)>) -> Seq<u8>
    decreases ps.len(),
{
    if ps.len() == 0 {
        Seq::<u8>::empty()
    } else if ps.len() == 1 {
        spec_form_component(ps[0].0@) + seq![61u8] + spec_form_component(ps[0].1@)
    } else {
        spec_form_pairs(ps.drop_last()) + seq![38u8] + spec_form_component(ps.last().0@) + seq![
            61u8,
        ] + spec_form_component(ps.last().1@)
    }
}

/// Appends the URL-encoded form of a string.
fn append_component(s: &str, out: &mut Vec<u8>)
    ensures
        final(out)@ == old(out)@ + spec_form_component(s@),
{
    let bs = s.as_bytes();
    let mut i: usize = 0;
    while i < bs.len()
        invariant
            bs@ == encode_utf8(s@),
            i <= bs@.len(),
            out@ == old(out)@ + spec_form_encoded(bs@.subrange(0, i as int)),
        decreases bs@.len() - i,
    {
        let ghost pre = bs@.subrange(0, i as int);
        let ghost cur = bs@.subrange(0, i as int + 1);
        proof {
            assert(cur.drop_last() =~= pre);
            assert(cur.last() == bs@[i as int]);
        }
        let b = bs[i];
        let unchanged = b == 42 || b == 45 || b == 46 || (48 <= b && b <= 57) || (65 <= b && b
            <= 90) || b == 95 || (97 <= b && b <= 122);
        if unchanged {
            out.push(b);
        } else if b == 32 {
            out.push(43u8);
        } else {
            out.push(37u8);
            let hi = b / 16;
            let lo = b % 16;
            out.push(if hi < 10 { 48 + hi } else { 55 + hi });
            out.push(if lo < 10 { 48 + lo } else { 55 + lo });
        }
        proof {
            assert(out@ =~= old(out)@ + spec_form_encoded(cur));
        }
        i = i + 1;
    }
    proof {
        assert(bs@.subrange(0, bs@.len() as int) =~= bs@);
    }
}

/// Encodes a pair list as `application/x-www-form-urlencoded` bytes: one
/// `key=value` segment per pair, joined by `&`, in insertion order, keys
/// and values percent-encoded.
pub fn form_urlencode(pairs: &Vec<(String, String)>) -> (r: Vec<u8>)
    ensures
        r@ == spec_form_pairs(pairs@),
{
    let mut out: Vec<u8> = Vec::new();
    let mut i: usize = 0;
    while i < pairs.len()
        invariant
            i <= pairs@.len(),
            out@ == spec_form_pairs(pairs@.subrange(0, i as int)),
        decreases pairs@.len() - i,
    {
        let ghost pre = pairs@.subrange(0, i as int);
        let ghost cur = pairs@.subrange(0, i as int + 1);
        proof {
            assert(cur.drop_last() =~= pre);
            assert(cur.last() == pairs@[i as int]);
        }
        if i > 0 {
            out.push(38u8);
        }
        append_component(pairs[i].0.as_str(), &mut out);
        out.push(61u8);
        append_component(pairs[i].1.as_str(), &mut out);
        proof {
            assert(out@ =~= spec_form_pairs(cur));
        }
        i = i + 1;
    }
    proof {
        assert(pairs@.subrange(0, pairs@.len() as int) =~= pairs@);
    }
    out
}

} // verus!
