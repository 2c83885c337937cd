//! Small verified byte and string utilities shared across the engine.

use vstd::prelude::*;
use vstd::string::StringSliceAdditionalSpecFns;

verus! {

/// Copies a byte vector.
pub fn copy_bytes(v: &Vec<u8>) -> (r: Vec<u8>)
    ensures
        r@ == v@,
{
    let mut out: Vec<u8> = Vec::new();
    let mut i: usize = 0;
    while i < v.len()
        invariant
            i <= v.len(),
            out@ == v@.subrange(0, i as int),
        decreases v.len() - i,
    {
        out.push(v[i]);
        i = i + 1;
    }
    proof {
        assert(out@ =~= v@);
    }
    out
}

/// Compares two byte slices for equality.
pub fn bytes_eq(a: &[u8], b: &[u8]) -> (r: bool)
    ensures
        r == (a@ == b@),
{
    if a.len() != b.len() {
        proof {
            assert(a@.len() != b@.len());
        }
        return false;
    }
    let mut i: usize = 0;
    while i < a.len()
        invariant
            i <= a.len(),
            a@.len() == b@.len(),
            forall|j: int| 0 <= j < i ==> a@[j] == b@[j],
        decreases a.len() - i,
    {
        if a[i] != b[i] {
            return false;
        }
        i = i + 1;
    }
    proof {
        assert(a@ =~= b@);
    }
    true
}

/// Compares two strings for equality, byte-wise; equal byte encodings mean
/// equal character sequences.
pub fn str_eq(a: &str, b: &str) -> (r: bool)
    ensures
        r == (a@ == b@),
{
    let r = bytes_eq(a.as_bytes(), b.as_bytes());
    proof {
        if a.spec_bytes() == b.spec_bytes() {
            vstd::utf8::encode_utf8_decode_utf8(a@);
            vstd::utf8::encode_utf8_decode_utf8(b@);
        }
    }
    r
}

/// Appends all bytes of `src` to `dst`.
pub fn append_bytes(dst: &mut Vec<u8>, src: &[u8])
    ensures
        final(dst)@ == old(dst)@ + src@,
{
    let mut i: usize = 0;
    while i < src.len()
        invariant
            i <= src.len(),
            dst@ == old(dst)@ + src@.subrange(0, i as int),
        decreases src.len() - i,
    {
        dst.push(src[i]);
        i = i + 1;
    }
    proof {
        assert(dst@ =~= old(dst)@ + src@);
    }
}

/// Appends the UTF-8 bytes of a string to `dst`.
pub fn append_str_bytes(dst: &mut Vec<u8>, src: &str)
    ensures
        final(dst)@ == old(dst)@ + vstd::utf8::encode_utf8(src@),
{
    append_bytes(dst, src.as_bytes());
}


/// Copies a header list; the copy carries the same names and values.
pub fn copy_header_list(src: &Vec<(String, Vec<u8>)>) -> (r: Vec<(String, Vec<u8>)>)
    ensures
        crate::headers::entries_model(r@) == crate::headers::entries_model(src@),
{
    let mut out: Vec<(String, Vec<u8>)> = Vec::new();
    let mut i: usize = 0;
    while i < src.len()
        invariant
            i <= src@.len(),
            out@.len() == i,
            crate::headers::entries_model(out@) == crate::headers::entries_model(
                src@.subrange(0, i as int),
            ),
        decreases src@.len() - i,
    {
        let n = src[i].0.clone();
        let v = copy_bytes(&src[i].1);
        let ghost nv = (n@, v@);
        proof {
            assert(nv == (src@[i as int].0@, src@[i as int].1@));
        }
        out.push((n, v));
        proof {
            let ghost pre = src@.subrange(0, i as int);
            let ghost cur = src@.subrange(0, i as int + 1);
            assert(crate::headers::entries_model(out@).len() == i + 1);
            assert(crate::headers::entries_model(out@)[i as int] == nv);
            assert(forall|j: int|
                0 <= j < i ==> #[trigger] crate::headers::entries_model(out@)[j]
                    == crate::headers::entries_model(pre)[j]);
            assert(forall|j: int|
                0 <= j <= i ==> #[trigger] crate::headers::entries_model(cur)[j] == (
                    src@[j].0@,
                    src@[j].1@,
                ));
            assert(forall|j: int|
                0 <= j < i ==> #[trigger] crate::headers::entries_model(pre)[j] == (
                    src@[j].0@,
                    src@[j].1@,
                ));
            assert(crate::headers::entries_model(out@) =~= crate::headers::entries_model(cur));
        }
        i = i + 1;
    }
    proof {
        assert(src@.subrange(0, src@.len() as int) =~= src@);
    }
    out
}


/// Whether `needle` occurs in `h` starting at position `i`.
pub open spec fn spec_match_at(h: Seq<u8>, needle: Seq<u8>, i: int) -> bool {
    0 <= i && i + needle.len() <= h.len() && h.subrange(i, i + needle.len()) == needle
}

/// Whether `needle` occurs at `k` in `h`, checked byte by byte.
fn match_at(h: &[u8], needle: &[u8], k: usize) -> (r: bool)
    requires
        k + needle@.len() <= h@.len(),
    ensures
        r == spec_match_at(h@, needle@, k as int),
{
    let n = h.len();
    let m = needle.len();
    let mut j: usize = 0;
    while j < m
        invariant
            j <= m,
            n == h@.len(),
            m == needle@.len(),
            k + m <= n,
            forall|t: int| 0 <= t < j ==> #[trigger] h@[k + t] == needle@[t],
        decreases m - j,
    {
        if h[k + j] != needle[j] {
            proof {
                let window = h@.subrange(k as int, k as int + m);
                assert(window[j as int] == h@[k + j]);
                assert(window != needle@);
            }
            return false;
        }
        j = j + 1;
    }
    proof {
        let window = h@.subrange(k as int, k as int + m);
        assert(forall|t: int| 0 <= t < m ==> #[trigger] window[t] == h@[k + t]);
        assert(window =~= needle@);
    }
    true
}


/// Finds the first occurrence of `needle` in `h` at or after `from`.
pub fn find_bytes_from(h: &[u8], needle: &[u8], from: usize) -> (r: Option<usize>)
    requires
        needle@.len() >= 1,
    ensures
        match r {
            Some(k) => {
                &&& from <= k
                &&& spec_match_at(h@, needle@, k as int)
                &&& forall|t: int| from <= t < k ==> !spec_match_at(h@, needle@, t)
            },
            None => forall|t: int| from <= t ==> !spec_match_at(h@, needle@, t),
        },
{
    let n = h.len();
    let m = needle.len();
    if m > n || from > n - m {
        proof {
            assert(forall|t: int| from <= t ==> !spec_match_at(h@, needle@, t));
        }
        return None;
    }
    let mut k = from;
    while k <= n - m
        invariant
            from <= k,
            n == h@.len(),
            m == needle@.len(),
            1 <= m <= n,
            k <= n - m + 1,
            forall|t: int| from <= t < k ==> !spec_match_at(h@, needle@, t),
        decreases n - k,
    {
        if match_at(h, needle, k) {
            return Some(k);
        }
        k = k + 1;
    }
    proof {
        assert(forall|t: int| from <= t ==> !spec_match_at(h@, needle@, t));
    }
    None
}

} // verus!
