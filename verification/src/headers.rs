//! Header names, values, and the engine's ordered header multimap.
//!
//! Header names are RFC 7230 tokens, held lowercase; values are bytes in
//! the legal header-value range. A malformed name or value is rejected with
//! a configuration error before anything is sent. The map keeps insertion
//! order and duplicate names, as the wire format does.

use vstd::prelude::*;
use vstd::string::StringSliceAdditionalSpecFns;
use vstd::utf8::{decode_utf8_encode_utf8, partial_valid_utf8, partial_valid_utf8_extend_ascii_block, valid_utf8};

use crate::cookies::valid_header_value;
use crate::error::Error;

verus! {

/// Whether a byte may appear in an HTTP header name: an RFC 7230 token
/// character.
pub open spec fn valid_header_name_byte(b: u8) -> bool {
    ||| (48 <= b <= 57)  // digits
    ||| (97 <= b <= 122)  // lowercase letters
    ||| (65 <= b <= 90)  // uppercase letters
    ||| b == 33  // !
    ||| b == 35  // #
    ||| b == 36  // $
    ||| b == 37  // %
    ||| b == 38  // &
    ||| b == 39  // '
    ||| b == 42  // *
    ||| b == 43  // +
    ||| b == 45  // -
    ||| b == 46  // .
    ||| b == 94  // ^
    ||| b == 95  // _
    ||| b == 96  // `
    ||| b == 124  // |
    ||| b == 126  // ~
}

/// Whether a byte sequence is a well-formed header name: a non-empty run of
/// token characters.
pub open spec fn valid_header_name(bs: Seq<u8>) -> bool {
    bs.len() > 0 && forall|i: int| 0 <= i < bs.len() ==> valid_header_name_byte(#[trigger] bs[i])
}

/// The ASCII-lowercase image of a byte.
pub open spec fn lower_byte(b: u8) -> u8 {
    if 65 <= b <= 90 {
        (b + 32) as u8
    } else {
        b
    }
}

/// The ASCII-lowercase image of a byte sequence.
pub open spec fn lower_bytes(bs: Seq<u8>) -> Seq<u8> {
    bs.map_values(|b: u8| lower_byte(b))
}

/// Whether a byte sequence is a well-formed header name already in
/// lowercase, the engine's canonical form.
pub open spec fn canonical_header_name(bs: Seq<u8>) -> bool {
    valid_header_name(bs) && lower_bytes(bs) == bs
}

/// A byte sequence whose bytes are all below 128 is valid UTF-8.
pub proof fn lemma_ascii_bytes_valid_utf8(bs: Seq<u8>)
    requires
        forall|i: int| 0 <= i < bs.len() ==> #[trigger] bs[i] < 128,
    ensures
        valid_utf8(bs),
{
    assert(bs.subrange(0, 0) =~= Seq::<u8>::empty());
    assert(partial_valid_utf8(bs, 0));
    assert(forall|i: int|
        0 <= i < bs.len() ==> vstd::utf8::is_leading_byte_width_1(#[trigger] bs[i]));
    partial_valid_utf8_extend_ascii_block(bs, 0, bs.len() as int);
    assert(bs.subrange(0, bs.len() as int) =~= bs);
}

/// Validates and canonicalizes a header name: accepts exactly the non-empty
/// token strings and returns the name lowercased; anything else is rejected
/// with a configuration error.
pub fn validate_header_name(s: &str) -> (r: Result<String, Error>)
    ensures
        r is Ok <==> valid_header_name(s.spec_bytes()),
        r matches Ok(n) ==> vstd::utf8::encode_utf8(n@) == lower_bytes(s.spec_bytes()),
        r matches Ok(n) ==> canonical_header_name(vstd::utf8::encode_utf8(n@)),
        r is Err ==> r == Result::<String, Error>::Err(Error::Config),
{
    let bs = s.as_bytes();
    if bs.len() == 0 {
        return Err(Error::Config);
    }
    let mut lowered: Vec<u8> = Vec::new();
    let mut i: usize = 0;
    while i < bs.len()
        invariant
            bs@ == s.spec_bytes(),
            i <= bs@.len(),
            lowered@ == lower_bytes(bs@.subrange(0, i as int)),
            forall|j: int| 0 <= j < i ==> valid_header_name_byte(#[trigger] bs@[j]),
        decreases bs@.len() - i,
    {
        let b = bs[i];
        let ok = (48 <= b && b <= 57) || (97 <= b && b <= 122) || (65 <= b && b <= 90) || b == 33
            || b == 35 || b == 36 || b == 37 || b == 38 || b == 39 || b == 42 || b == 43 || b == 45
            || b == 46 || b == 94 || b == 95 || b == 96 || b == 124 || b == 126;
        if !ok {
            proof {
                let sb = s.spec_bytes();
                assert(bs@ == sb);
                assert(!valid_header_name_byte(sb[i as int]));
                assert(!valid_header_name(sb));
            }
            return Err(Error::Config);
        }
        if 65 <= b && b <= 90 {
            lowered.push(b + 32);
        } else {
            lowered.push(b);
        }
        proof {
            assert(lowered@ =~= lower_bytes(bs@.subrange(0, i as int + 1)));
        }
        i = i + 1;
    }
    proof {
        assert(bs@.subrange(0, bs@.len() as int) =~= bs@);
        assert(lowered@ == lower_bytes(bs@));
        assert(forall|j: int| 0 <= j < lowered@.len() ==> #[trigger] lowered@[j] < 128);
        lemma_ascii_bytes_valid_utf8(lowered@);
    }
    match crate::outside::utf8_to_str(lowered.as_slice()) {
        Some(t) => {
            let out = t.to_owned();
            proof {
                decode_utf8_encode_utf8(lowered@);
                assert(vstd::utf8::encode_utf8(out@) == lowered@);
                assert(lower_bytes(lower_bytes(bs@)) =~= lower_bytes(bs@));
            }
            Ok(out)
        },
        None => {
            proof {
                assert(false);
            }
            Err(Error::Config)
        },
    }
}

/// Validates a header value: accepts exactly byte sequences in the legal
/// header-value range.
pub fn validate_header_value(v: &Vec<u8>) -> (r: Result<(), Error>)
    ensures
        r is Ok <==> valid_header_value(v@),
        r is Err ==> r == Result::<(), Error>::Err(Error::Config),
{
    if crate::cookies::bytes_all_valid_header_value(v.as_slice()) {
        Ok(())
    } else {
        Err(Error::Config)
    }
}

/// The model of one header entry: name characters and value bytes.
pub type HeaderEntryModel = (Seq<char>, Seq<u8>);

/// The model of a header entry list.
pub open spec fn entries_model(e: Seq<(String, Vec<u8>)>) -> Seq<HeaderEntryModel> {
    e.map_values(|p: (String, Vec<u8>)| (p.0@, p.1@))
}

/// The entries of a header-model sequence that do not carry the given name.
pub open spec fn spec_without(e: Seq<HeaderEntryModel>, name: Seq<char>) -> Seq<HeaderEntryModel>
    decreases e.len(),
{
    if e.len() == 0 {
        Seq::<HeaderEntryModel>::empty()
    } else {
        let rest = spec_without(e.drop_last(), name);
        if e.last().0 == name {
            rest
        } else {
            rest + seq![e.last()]
        }
    }
}

/// An ordered header multimap: insertion order and duplicate names are
/// kept. Names are stored in canonical (lowercase token) form.
#[derive(Debug)]
pub struct HeaderMap {
    /// The entries, in insertion order.
    pub entries: Vec<(String, Vec<u8>)>,
}

impl View for HeaderMap {
    type V = Seq<HeaderEntryModel>;

    open spec fn view(&self) -> Seq<HeaderEntryModel> {
        entries_model(self.entries@)
    }
}

impl HeaderMap {
    /// An empty map.
    pub fn new() -> (r: HeaderMap)
        ensures
            r@.len() == 0,
    {
        HeaderMap { entries: Vec::new() }
    }

    /// The number of entries.
    pub fn len(&self) -> (r: usize)
        ensures
            r == self@.len(),
    {
        self.entries.len()
    }

    /// The name and value of the entry at an index.
    pub fn entry_at(&self, i: usize) -> (r: (&String, &Vec<u8>))
        requires
            i < self@.len(),
        ensures
            r.0@ == self@[i as int].0,
            r.1@ == self@[i as int].1,
    {
        (&self.entries[i].0, &self.entries[i].1)
    }

    /// The value of the first entry with this name, if any.
    pub fn get(&self, name: &str) -> (r: Option<&Vec<u8>>)
        ensures
            match r {
                Some(v) => exists|k: int|
                    {
                        &&& 0 <= k < self@.len()
                        &&& (#[trigger] self@[k]).0 == name@
                        &&& v@ == self@[k].1
                        &&& forall|j: int| 0 <= j < k ==> (#[trigger] self@[j]).0 != name@
                    },
                None => forall|j: int| 0 <= j < self@.len() ==> (#[trigger] self@[j]).0 != name@,
            },
    {
        let mut i: usize = 0;
        while i < self.entries.len()
            invariant
                i <= self@.len(),
                forall|j: int| 0 <= j < i ==> (#[trigger] self@[j]).0 != name@,
            decreases self@.len() - i,
        {
            if crate::util::str_eq(self.entries[i].0.as_str(), name) {
                proof {
                    assert((self@[i as int]).0 == name@);
                    assert((self@[i as int]).1 == self.entries@[i as int].1@);
                }
                return Some(&self.entries[i].1);
            }
            i = i + 1;
        }
        None
    }

    /// Whether some entry carries this name.
    pub fn contains_key(&self, name: &str) -> (r: bool)
        ensures
            r == exists|k: int| 0 <= k < self@.len() && (#[trigger] self@[k]).0 == name@,
    {
        match self.get(name) {
            Some(_) => true,
            None => false,
        }
    }

    /// Appends an entry, keeping any existing entries with the same name —
    /// the multimap semantics used for `Cookie` headers.
    pub fn append(&mut self, name: String, value: Vec<u8>)
        ensures
            final(self)@ == old(self)@ + seq![(name@, value@)],
    {
        let ghost nv = (name@, value@);
        self.entries.push((name, value));
        proof {
            assert(self@ =~= old(self)@ + seq![nv]);
        }
    }

    /// Replaces all entries with this name by the single new entry,
    /// appended at the end.
    pub fn insert(&mut self, name: String, value: Vec<u8>)
        ensures
            final(self)@ == spec_without(old(self)@, name@) + seq![(name@, value@)],
    {
        let ghost nv = (name@, value@);
        self.remove_in_place(&name);
        self.entries.push((name, value));
        proof {
            assert(self@ =~= spec_without(old(self)@, nv.0) + seq![nv]);
        }
    }

    /// Removes all entries with this name.
    pub fn remove(&mut self, name: &str)
        ensures
            final(self)@ == spec_without(old(self)@, name@),
    {
        let n = self.entries.len();
        let mut kept: Vec<(String, Vec<u8>)> = Vec::new();
        let mut i: usize = 0;
        while i < self.entries.len()
            invariant
                i <= self@.len(),
                self@.len() == n,
                entries_model(kept@) == spec_without(self@.subrange(0, i as int), name@),
            decreases self@.len() - i,
        {
            let ghost pre = self@.subrange(0, i as int);
            let ghost cur = self@.subrange(0, i as int + 1);
            proof {
                assert(cur.drop_last() =~= pre);
                assert(cur.last() == self@[i as int]);
            }
            if !crate::util::str_eq(self.entries[i].0.as_str(), name) {
                let cn = self.entries[i].0.clone();
                let cv = crate::util::copy_bytes(&self.entries[i].1);
                proof {
                    assert(cn@ == self@[i as int].0);
                    assert(cv@ == self@[i as int].1);
                }
                kept.push((cn, cv));
                proof {
                    assert(entries_model(kept@) =~= spec_without(pre, name@) + seq![
                        self@[i as int],
                    ]);
                }
            } else {
                proof {
                    assert(entries_model(kept@) =~= spec_without(cur, name@));
                }
            }
            i = i + 1;
        }
        proof {
            assert(self@.subrange(0, self@.len() as int) =~= self@);
        }
        self.entries = kept;
    }

    /// `remove` with the name given as a `String`.
    fn remove_in_place(&mut self, name: &String)
        ensures
            final(self)@ == spec_without(old(self)@, name@),
    {
        self.remove(name.as_str());
    }
}


/// The canonical (lowercased) form of a header name given as characters.
pub open spec fn spec_canonical_name(s: Seq<char>) -> Seq<char> {
    vstd::utf8::decode_utf8(lower_bytes(vstd::utf8::encode_utf8(s)))
}

/// Whether every header of a raw list is well-formed: a token name and a
/// legal value.
pub open spec fn spec_headers_ok(entries: Seq<(String, Vec<u8>)>) -> bool {
    forall|i: int|
        0 <= i < entries.len() ==> valid_header_name(
            vstd::utf8::encode_utf8((#[trigger] entries[i]).0@),
        ) && valid_header_value(entries[i].1@)
}

/// The model of a raw header list after canonicalizing every name.
pub open spec fn spec_canon_headers(entries: Seq<(String, Vec<u8>)>) -> Seq<HeaderEntryModel> {
    entries.map_values(|p: (String, Vec<u8>)| (spec_canonical_name(p.0@), p.1@))
}

/// Validates a raw header list and canonicalizes every name: accepts
/// exactly the lists whose names are tokens and whose values are legal,
/// rejecting anything else with a configuration error before it can reach
/// the wire.
pub fn canonicalize_header_list(entries: &Vec<(String, Vec<u8>)>) -> (r: Result<
    Vec<(String, Vec<u8>)>,
    Error,
>)
    ensures
        r is Ok <==> spec_headers_ok(entries@),
        r matches Ok(v) ==> entries_model(v@) == spec_canon_headers(entries@),
        r is Err ==> r == Result::<Vec<(String, Vec<u8>)>, Error>::Err(Error::Config),
{
    let mut out: Vec<(String, Vec<u8>)> = Vec::new();
    let mut i: usize = 0;
    while i < entries.len()
        invariant
            i <= entries@.len(),
            out@.len() == i,
            entries_model(out@) == spec_canon_headers(entries@.subrange(0, i as int)),
            forall|j: int|
                0 <= j < i ==> valid_header_name(
                    vstd::utf8::encode_utf8((#[trigger] entries@[j]).0@),
                ) && valid_header_value(entries@[j].1@),
        decreases entries@.len() - i,
    {
        let name = match validate_header_name(entries[i].0.as_str()) {
            Ok(n) => n,
            Err(e) => {
                proof {
                    assert(!valid_header_name(
                        vstd::utf8::encode_utf8(entries@[i as int].0@),
                    ));
                }
                return Err(Error::Config);
            },
        };
        let value = crate::util::copy_bytes(&entries[i].1);
        if let Err(_) = validate_header_value(&value) {
            return Err(Error::Config);
        }
        proof {
            vstd::utf8::encode_utf8_decode_utf8(name@);
            assert(name@ == spec_canonical_name(entries@[i as int].0@));
        }
        let ghost nv = (name@, value@);
        out.push((name, value));
        proof {
            let cur = entries@.subrange(0, i as int + 1);
            assert(out@.last() == out@[i as int]);
            assert(entries_model(out@).len() == i + 1);
            assert(entries_model(out@)[i as int] == nv);
            assert(forall|j: int|
                0 <= j < i ==> #[trigger] entries_model(out@)[j] == spec_canon_headers(
                    entries@.subrange(0, i as int),
                )[j]);
            assert(forall|j: int|
                0 <= j <= i ==> #[trigger] spec_canon_headers(cur)[j] == (
                    spec_canonical_name(entries@[j].0@),
                    entries@[j].1@,
                ));
            assert(entries_model(out@) =~= spec_canon_headers(cur));
        }
        i = i + 1;
    }
    proof {
        assert(entries@.subrange(0, entries@.len() as int) =~= entries@);
    }
    Ok(out)
}

} // verus!
