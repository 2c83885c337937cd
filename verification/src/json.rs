//! The engine's JSON payload model and its serializer.
//!
//! A JSON value is held as plain data — object members keep their insertion
//! order — and is serialized to the canonical byte form given by
//! [`spec_json_bytes`]: no added whitespace, strings escaped, numbers in
//! plain decimal.

use vstd::prelude::*;
use vstd::utf8::{encode_utf8, valid_utf8};

verus! {

/// A JSON value. Object members keep insertion order; duplicate keys are
/// kept as given.
#[derive(Debug)]
pub enum Json {
    /// The JSON `null`.
    Null,
    /// A boolean.
    Boolean(bool),
    /// An integer number.
    Number(i64),
    /// A string.
    Text(String),
    /// An array.
    Array(Vec<Json>),
    /// An object: an ordered member list.
    Object(Vec<(String, Json)>),
}

/// The lowercase hex digit for a value below 16.
pub open spec fn spec_hex_digit(n: u8) -> u8 {
    if n < 10 {
        (48 + n) as u8
    } else {
        (87 + n) as u8
    }
}

/// The escape of one byte inside a JSON string literal: quote and backslash
/// get a backslash escape, control bytes get `\n`, `\r`, `\t` or the
/// `\u00..` form, and every other byte stands for itself.
pub open spec fn spec_escape_byte(b: u8) -> Seq<u8> {
    if b == 34 {
        seq![92u8, 34u8]
    } else if b == 92 {
        seq![92u8, 92u8]
    } else if b == 10 {
        seq![92u8, 110u8]
    } else if b == 13 {
        seq![92u8, 114u8]
    } else if b == 9 {
        seq![92u8, 116u8]
    } else if b < 32 {
        seq![92u8, 117u8, 48u8, 48u8, spec_hex_digit(b / 16), spec_hex_digit(b % 16)]
    } else {
        seq![b]
    }
}

/// The escaped form of a whole byte sequence.
pub open spec fn spec_escape_bytes(bs: Seq<u8>) -> Seq<u8>
    decreases bs.len(),
{
    if bs.len() == 0 {
        Seq::<u8>::empty()
    } else {
        spec_escape_bytes(bs.drop_last()) + spec_escape_byte(bs.last())
    }
}

/// A JSON string literal: the escaped UTF-8 bytes between double quotes.
pub open spec fn spec_string_bytes(s: Seq<char>) -> Seq<u8> {
    seq![34u8] + spec_escape_bytes(encode_utf8(s)) + seq![34u8]
}

/// The decimal digits of a natural number, most significant first.
pub open spec fn spec_dec_digits(n: nat) -> Seq<u8>
    decreases n,
{
    if n < 10 {
        seq![(48 + n) as u8]
    } else {
        spec_dec_digits(n / 10) + seq![(48 + n % 10) as u8]
    }
}

/// The decimal form of an integer, with a leading minus for negatives.
pub open spec fn spec_number_bytes(n: i64) -> Seq<u8> {
    if n < 0 {
        seq![45u8] + spec_dec_digits((-(n as int)) as nat)
    } else {
        spec_dec_digits(n as nat)
    }
}

/// The canonical serialized bytes of a JSON value: `null`, `true`/`false`,
/// plain decimal numbers, escaped quoted strings, `[..]` arrays and `{..}`
/// objects with `,` between items and `:` between key and value, without
/// any added whitespace.
pub open spec fn spec_json_bytes(j: Json) -> Seq<u8>
    decreases j,
{
    match j {
        Json::Null => seq![110u8, 117u8, 108u8, 108u8],
        Json::Boolean(b) => if b {
            seq![116u8, 114u8, 117u8, 101u8]
        } else {
            seq![102u8, 97u8, 108u8, 115u8, 101u8]
        },
        Json::Number(n) => spec_number_bytes(n),
        Json::Text(s) => spec_string_bytes(s@),
        Json::Array(items) => seq![91u8] + spec_array_items(items@) + seq![93u8],
        Json::Object(members) => seq![123u8] + spec_object_members(members@) + seq![125u8],
    }
}

/// The serialized items of an array, joined by commas.
pub open spec fn spec_array_items(items: Seq<Json>) -> Seq<u8>
    decreases items,
{
    if items.len() == 0 {
        Seq::<u8>::empty()
    } else if items.len() == 1 {
        spec_json_bytes(items[0])
    } else {
        spec_array_items(items.drop_last()) + seq![44u8] + spec_json_bytes(items.last())
    }
}

/// The serialized members of an object, `"key":value`, joined by commas.
pub open spec fn spec_object_members(members: Seq<(String, Json)>) -> Seq<u8>
    decreases members,
{
    if members.len() == 0 {
        Seq::<u8>::empty()
    } else if members.len() == 1 {
        spec_string_bytes(members[0].0@) + seq![58u8] + spec_json_bytes(members[0].1)
    } else {
        spec_object_members(members.drop_last()) + seq![44u8] + spec_string_bytes(
            members.last().0@,
        ) + seq![58u8] + spec_json_bytes(members.last().1)
    }
}

/// Appends the decimal digits of `n`.
fn push_dec(n: u64, out: &mut Vec<u8>)
    ensures
        final(out)@ == old(out)@ + spec_dec_digits(n as nat),
    decreases n,
{
    if n < 10 {
        out.push(48 + (n as u8));
        proof {
            assert(out@ =~= old(out)@ + spec_dec_digits(n as nat));
        }
    } else {
        push_dec(n / 10, out);
        out.push(48 + ((n % 10) as u8));
        proof {
            assert(out@ =~= old(out)@ + spec_dec_digits(n as nat));
        }
    }
}

/// Appends the decimal form of `n`, with a leading minus for negatives.
fn push_number(n: i64, out: &mut Vec<u8>)
    ensures
        final(out)@ == old(out)@ + spec_number_bytes(n),
{
    if n < 0 {
        out.push(45u8);
        let mag: u64 = if n == i64::MIN {
            9223372036854775808u64
        } else {
            (-n) as u64
        };
        proof {
            assert(mag as nat == (-(n as int)) as nat);
        }
        push_dec(mag, out);
        proof {
            assert(out@ =~= old(out)@ + spec_number_bytes(n));
        }
    } else {
        push_dec(n as u64, out);
    }
}

/// Appends the escaped form of a string's bytes.
fn push_escaped(s: &str, out: &mut Vec<u8>)
    ensures
        final(out)@ == old(out)@ + spec_escape_bytes(encode_utf8(s@)),
{
    let bs = s.as_bytes();
    let mut i: usize = 0;
    while i < bs.len()
        invariant
            bs@ == encode_utf8(s@),
            i <= bs@.len(),
            out@ == old(out)@ + spec_escape_bytes(bs@.subrange(0, i as int)),
        decreases bs@.len() - i,
    {
        let ghost pre = bs@.subrange(0, i as int);
        let ghost cur = bs@.subrange(0, i as int + 1);
        proof {
            assert(cur.drop_last() =~= pre);
            assert(cur.last() == bs@[i as int]);
        }
        let b = bs[i];
        if b == 34 {
            out.push(92u8);
            out.push(34u8);
        } else if b == 92 {
            out.push(92u8);
            out.push(92u8);
        } else if b == 10 {
            out.push(92u8);
            out.push(110u8);
        } else if b == 13 {
            out.push(92u8);
            out.push(114u8);
        } else if b == 9 {
            out.push(92u8);
            out.push(116u8);
        } else if b < 32 {
            out.push(92u8);
            out.push(117u8);
            out.push(48u8);
            out.push(48u8);
            let hi = b / 16;
            let lo = b % 16;
            out.push(if hi < 10 { 48 + hi } else { 87 + hi });
            out.push(if lo < 10 { 48 + lo } else { 87 + lo });
        } else {
            out.push(b);
        }
        proof {
            assert(out@ =~= old(out)@ + spec_escape_bytes(cur));
        }
        i = i + 1;
    }
    proof {
        assert(bs@.subrange(0, bs@.len() as int) =~= bs@);
    }
}

/// Appends a JSON string literal: the escaped bytes between double quotes.
fn push_string(s: &str, out: &mut Vec<u8>)
    ensures
        final(out)@ == old(out)@ + spec_string_bytes(s@),
{
    out.push(34u8);
    push_escaped(s, out);
    out.push(34u8);
    proof {
        assert(out@ =~= old(out)@ + spec_string_bytes(s@));
    }
}

impl Json {
    /// Serializes the value to its canonical byte form.
    pub fn to_bytes(&self) -> (r: Vec<u8>)
        ensures
            r@ == spec_json_bytes(*self),
    {
        let mut out: Vec<u8> = Vec::new();
        self.emit(&mut out);
        proof {
            assert(out@ =~= spec_json_bytes(*self));
        }
        out
    }

    /// Appends the canonical byte form of the value.
    fn emit(&self, out: &mut Vec<u8>)
        ensures
            final(out)@ == old(out)@ + spec_json_bytes(*self),
        decreases *self,
    {
        match self {
            Json::Null => {
                out.push(110u8);
                out.push(117u8);
                out.push(108u8);
                out.push(108u8);
                proof {
                    assert(out@ =~= old(out)@ + spec_json_bytes(*self));
                }
            },
            Json::Boolean(b) => {
                if *b {
                    out.push(116u8);
                    out.push(114u8);
                    out.push(117u8);
                    out.push(101u8);
                } else {
                    out.push(102u8);
                    out.push(97u8);
                    out.push(108u8);
                    out.push(115u8);
                    out.push(101u8);
                }
                proof {
                    assert(out@ =~= old(out)@ + spec_json_bytes(*self));
                }
            },
            Json::Number(n) => {
                push_number(*n, out);
            },
            Json::Text(s) => {
                push_string(s.as_str(), out);
            },
            Json::Array(items) => {
                out.push(91u8);
                let mut i: usize = 0;
                while i < items.len()
                    invariant
                        *self == Json::Array(*items),
                        i <= items@.len(),
                        out@ == old(out)@ + seq![91u8] + spec_array_items(
                            items@.subrange(0, i as int),
                        ),
                    decreases items@.len() - i,
                {
                    let ghost pre = items@.subrange(0, i as int);
                    let ghost cur = items@.subrange(0, i as int + 1);
                    proof {
                        assert(cur.drop_last() =~= pre);
                        assert(cur.last() == items@[i as int]);
                    }
                    if i > 0 {
                        out.push(44u8);
                    }
                    proof {
                        broadcast use vstd::std_specs::vec::axiom_vec_decreases_to_view;
                        assert(*self == Json::Array(*items));
                        assert(decreases_to!(*self => self->Array_0));
                        assert(decreases_to!(self->Array_0 => items@[i as int]));
                    }
                    items[i].emit(out);
                    proof {
                        assert(out@ =~= old(out)@ + seq![91u8] + spec_array_items(cur));
                    }
                    i = i + 1;
                }
                out.push(93u8);
                proof {
                    assert(items@.subrange(0, items@.len() as int) =~= items@);
                    assert(out@ =~= old(out)@ + spec_json_bytes(*self));
                }
            },
            Json::Object(members) => {
                out.push(123u8);
                let mut i: usize = 0;
                while i < members.len()
                    invariant
                        *self == Json::Object(*members),
                        i <= members@.len(),
                        out@ == old(out)@ + seq![123u8] + spec_object_members(
                            members@.subrange(0, i as int),
                        ),
                    decreases members@.len() - i,
                {
                    let ghost pre = members@.subrange(0, i as int);
                    let ghost cur = members@.subrange(0, i as int + 1);
                    proof {
                        assert(cur.drop_last() =~= pre);
                        assert(cur.last() == members@[i as int]);
                    }
                    if i > 0 {
                        out.push(44u8);
                    }
                    push_string(members[i].0.as_str(), out);
                    out.push(58u8);
                    proof {
                        broadcast use vstd::std_specs::vec::axiom_vec_decreases_to_view;
                        assert(*self == Json::Object(*members));
                        assert(decreases_to!(*self => self->Object_0));
                        assert(decreases_to!(self->Object_0 => members@[i as int].1));
                    }
                    members[i].1.emit(out);
                    proof {
                        assert(out@ =~= old(out)@ + seq![123u8] + spec_object_members(cur));
                    }
                    i = i + 1;
                }
                out.push(125u8);
                proof {
                    assert(members@.subrange(0, members@.len() as int) =~= members@);
                    assert(out@ =~= old(out)@ + spec_json_bytes(*self));
                }
            },
        }
    }
}


/// Escaping distributes over concatenation.
proof fn lemma_escape_concat(a: Seq<u8>, b: Seq<u8>)
    ensures
        spec_escape_bytes(a + b) == spec_escape_bytes(a) + spec_escape_bytes(b),
    decreases b.len(),
{
    if b.len() == 0 {
        assert(a + b =~= a);
        assert(spec_escape_bytes(b) =~= Seq::<u8>::empty());
        assert(spec_escape_bytes(a) + spec_escape_bytes(b) =~= spec_escape_bytes(a));
    } else {
        assert((a + b).drop_last() =~= a + b.drop_last());
        assert((a + b).last() == b.last());
        lemma_escape_concat(a, b.drop_last());
        assert(spec_escape_bytes(a) + spec_escape_bytes(b.drop_last()) + spec_escape_byte(b.last())
            =~= spec_escape_bytes(a) + spec_escape_bytes(b));
    }
}

/// The escape of a byte below 128 consists of bytes below 128.
proof fn lemma_escape_byte_of_ascii(b: u8)
    requires
        b < 128,
    ensures
        forall|i: int|
            0 <= i < spec_escape_byte(b).len() ==> #[trigger] spec_escape_byte(b)[i] < 128,
{
}

/// A sequence of bytes at or above 128 passes through escaping unchanged.
proof fn lemma_escape_high_identity(bs: Seq<u8>)
    requires
        forall|i: int| 0 <= i < bs.len() ==> #[trigger] bs[i] >= 128,
    ensures
        spec_escape_bytes(bs) == bs,
    decreases bs.len(),
{
    if bs.len() == 0 {
        assert(spec_escape_bytes(bs) =~= bs);
    } else {
        lemma_escape_high_identity(bs.drop_last());
        assert(spec_escape_byte(bs.last()) =~= seq![bs.last()]);
        assert(spec_escape_bytes(bs.drop_last()) + seq![bs.last()] =~= bs);
    }
}

/// A sequence of bytes below 128 is valid UTF-8, and so is every escape.
proof fn lemma_ascii_seq_valid(bs: Seq<u8>)
    requires
        forall|i: int| 0 <= i < bs.len() ==> #[trigger] bs[i] < 128,
    ensures
        valid_utf8(bs),
{
    crate::headers::lemma_ascii_bytes_valid_utf8(bs);
}

/// The escaped UTF-8 encoding of any character sequence is valid UTF-8:
/// escapes replace only ASCII bytes by ASCII sequences, and multi-byte
/// encodings pass through untouched.
pub proof fn lemma_escaped_utf8_valid(s: Seq<char>)
    ensures
        valid_utf8(spec_escape_bytes(encode_utf8(s))),
    decreases s.len(),
{
    if s.len() == 0 {
        assert(encode_utf8(s) =~= Seq::<u8>::empty());
        assert(spec_escape_bytes(encode_utf8(s)) =~= Seq::<u8>::empty());
    } else {
        let c = s[0];
        let rest = s.drop_first();
        let u = c as u32;
        let head = vstd::utf8::encode_scalar(u);
        assert(encode_utf8(s) == head + encode_utf8(rest));
        lemma_escape_concat(head, encode_utf8(rest));
        lemma_escaped_utf8_valid(rest);
        if vstd::utf8::has_width_1_encoding(u) {
            let b0 = vstd::utf8::leading_byte_width_1(u);
            assert(b0 < 128) by (bit_vector)
                requires
                    b0 == (u & 0x7F) as u8,
            ;
            assert(head =~= seq![b0]);
            assert(head.drop_last() =~= Seq::<u8>::empty());
            assert(head.last() == b0);
            assert(spec_escape_bytes(Seq::<u8>::empty()) =~= Seq::<u8>::empty());
            assert(spec_escape_bytes(head) =~= Seq::<u8>::empty() + spec_escape_byte(b0));
            assert(spec_escape_bytes(head) =~= spec_escape_byte(b0));
            lemma_escape_byte_of_ascii(b0);
            lemma_ascii_seq_valid(spec_escape_byte(b0));
        } else {
            assert(forall|i: int| 0 <= i < head.len() ==> #[trigger] head[i] >= 128) by {
                lemma_encode_scalar_high(u);
            }
            lemma_escape_high_identity(head);
            assert(encode_utf8(seq![c]) =~= head) by {
                assert(seq![c].drop_first() =~= Seq::<char>::empty());
                assert(encode_utf8(seq![c].drop_first()) =~= Seq::<u8>::empty());
                assert(head + Seq::<u8>::empty() =~= head);
            }
            vstd::utf8::encode_utf8_valid_utf8(seq![c]);
        }
        vstd::utf8::valid_utf8_concat(
            spec_escape_bytes(head),
            spec_escape_bytes(encode_utf8(rest)),
        );
    }
}

/// Every byte of a multi-byte scalar encoding is at or above 128.
proof fn lemma_encode_scalar_high(u: u32)
    requires
        !vstd::utf8::has_width_1_encoding(u),
    ensures
        forall|i: int|
            0 <= i < vstd::utf8::encode_scalar(u).len() ==> #[trigger] vstd::utf8::encode_scalar(
                u,
            )[i] >= 128,
{
    let l2 = vstd::utf8::leading_byte_width_2(u);
    let l3 = vstd::utf8::leading_byte_width_3(u);
    let l4 = vstd::utf8::leading_byte_width_4(u);
    let c1 = vstd::utf8::last_continuation_byte(u);
    let c2 = vstd::utf8::second_last_continuation_byte(u);
    let c3 = vstd::utf8::third_last_continuation_byte(u);
    assert(l2 >= 128) by (bit_vector)
        requires
            l2 == 0xC0 | ((u >> 6) & 0x1F) as u8,
    ;
    assert(l3 >= 128) by (bit_vector)
        requires
            l3 == 0xE0 | ((u >> 12) & 0x0F) as u8,
    ;
    assert(l4 >= 128) by (bit_vector)
        requires
            l4 == 0xF0 | ((u >> 18) & 0x7) as u8,
    ;
    assert(c1 >= 128) by (bit_vector)
        requires
            c1 == 0x80 | (u & 0x3F) as u8,
    ;
    assert(c2 >= 128) by (bit_vector)
        requires
            c2 == 0x80 | ((u >> 6) & 0x3F) as u8,
    ;
    assert(c3 >= 128) by (bit_vector)
        requires
            c3 == 0x80 | ((u >> 12) & 0x3F) as u8,
    ;
}

/// A JSON string literal is valid UTF-8.
proof fn lemma_string_bytes_valid(s: Seq<char>)
    ensures
        valid_utf8(spec_string_bytes(s)),
{
    lemma_ascii_seq_valid(seq![34u8]);
    lemma_escaped_utf8_valid(s);
    vstd::utf8::valid_utf8_concat(seq![34u8], spec_escape_bytes(encode_utf8(s)));
    vstd::utf8::valid_utf8_concat(seq![34u8] + spec_escape_bytes(encode_utf8(s)), seq![34u8]);
}

/// Decimal digits are ASCII.
proof fn lemma_dec_digits_ascii(n: nat)
    ensures
        forall|i: int|
            0 <= i < spec_dec_digits(n).len() ==> #[trigger] spec_dec_digits(n)[i] < 128,
    decreases n,
{
    if n < 10 {
        assert(spec_dec_digits(n) =~= seq![(48 + n) as u8]);
    } else {
        lemma_dec_digits_ascii(n / 10);
        let pre = spec_dec_digits(n / 10);
        assert forall|i: int|
            0 <= i < spec_dec_digits(n).len() implies #[trigger] spec_dec_digits(n)[i]
            < 128 by {
            if i < pre.len() {
                assert(spec_dec_digits(n)[i] == pre[i]);
            } else {
                assert(spec_dec_digits(n)[i] == (48 + n % 10) as u8);
            }
        }
    }
}

/// A serialized number is valid UTF-8.
proof fn lemma_number_bytes_valid(n: i64)
    ensures
        valid_utf8(spec_number_bytes(n)),
{
    if n < 0 {
        lemma_dec_digits_ascii((-(n as int)) as nat);
        assert(forall|i: int|
            0 <= i < spec_number_bytes(n).len() ==> #[trigger] spec_number_bytes(n)[i] < 128);
        lemma_ascii_seq_valid(spec_number_bytes(n));
    } else {
        lemma_dec_digits_ascii(n as nat);
        lemma_ascii_seq_valid(spec_number_bytes(n));
    }
}

/// The canonical serialization of any JSON value is valid UTF-8.
pub proof fn lemma_json_bytes_valid_utf8(j: Json)
    ensures
        valid_utf8(spec_json_bytes(j)),
    decreases j,
{
    match j {
        Json::Null => {
            lemma_ascii_seq_valid(spec_json_bytes(j));
        },
        Json::Boolean(_) => {
            lemma_ascii_seq_valid(spec_json_bytes(j));
        },
        Json::Number(n) => {
            lemma_number_bytes_valid(n);
        },
        Json::Text(s) => {
            lemma_string_bytes_valid(s@);
        },
        Json::Array(items) => {
            lemma_array_json_valid(j, items);
        },
        Json::Object(members) => {
            lemma_object_json_valid(j, members);
        },
    }
}

/// The array case of the serialization validity theorem.
proof fn lemma_array_json_valid(j: Json, items: Vec<Json>)
    requires
        j == Json::Array(items),
    ensures
        valid_utf8(spec_json_bytes(j)),
    decreases j, 1int,
{
    assert(decreases_to!(j => j->Array_0));
    lemma_array_items_valid(items@);
    lemma_ascii_seq_valid(seq![91u8]);
    lemma_ascii_seq_valid(seq![93u8]);
    vstd::utf8::valid_utf8_concat(seq![91u8], spec_array_items(items@));
    vstd::utf8::valid_utf8_concat(seq![91u8] + spec_array_items(items@), seq![93u8]);
}

/// The object case of the serialization validity theorem.
proof fn lemma_object_json_valid(j: Json, members: Vec<(String, Json)>)
    requires
        j == Json::Object(members),
    ensures
        valid_utf8(spec_json_bytes(j)),
    decreases j, 1int,
{
    assert(decreases_to!(j => j->Object_0));
    lemma_object_members_valid(members@);
    lemma_ascii_seq_valid(seq![123u8]);
    lemma_ascii_seq_valid(seq![125u8]);
    vstd::utf8::valid_utf8_concat(seq![123u8], spec_object_members(members@));
    vstd::utf8::valid_utf8_concat(seq![123u8] + spec_object_members(members@), seq![125u8]);
}

/// The serialized items of an array are valid UTF-8.
proof fn lemma_array_items_valid(items: Seq<Json>)
    ensures
        valid_utf8(spec_array_items(items)),
    decreases items,
{
    if items.len() == 0 {
        assert(spec_array_items(items) =~= Seq::<u8>::empty());
    } else if items.len() == 1 {
        lemma_json_bytes_valid_utf8(items[0]);
    } else {
        lemma_array_items_valid(items.drop_last());
        lemma_json_bytes_valid_utf8(items.last());
        lemma_ascii_seq_valid(seq![44u8]);
        vstd::utf8::valid_utf8_concat(spec_array_items(items.drop_last()), seq![44u8]);
        vstd::utf8::valid_utf8_concat(
            spec_array_items(items.drop_last()) + seq![44u8],
            spec_json_bytes(items.last()),
        );
    }
}

/// The serialized members of an object are valid UTF-8.
proof fn lemma_object_members_valid(members: Seq<(String, Json)>)
    ensures
        valid_utf8(spec_object_members(members)),
    decreases members,
{
    if members.len() == 0 {
        assert(spec_object_members(members) =~= Seq::<u8>::empty());
    } else if members.len() == 1 {
        lemma_string_bytes_valid(members[0].0@);
        lemma_json_bytes_valid_utf8(members[0].1);
        lemma_ascii_seq_valid(seq![58u8]);
        vstd::utf8::valid_utf8_concat(spec_string_bytes(members[0].0@), seq![58u8]);
        vstd::utf8::valid_utf8_concat(
            spec_string_bytes(members[0].0@) + seq![58u8],
            spec_json_bytes(members[0].1),
        );
    } else {
        lemma_object_members_valid(members.drop_last());
        lemma_string_bytes_valid(members.last().0@);
        lemma_json_bytes_valid_utf8(members.last().1);
        lemma_ascii_seq_valid(seq![44u8]);
        lemma_ascii_seq_valid(seq![58u8]);
        vstd::utf8::valid_utf8_concat(spec_object_members(members.drop_last()), seq![44u8]);
        vstd::utf8::valid_utf8_concat(
            spec_object_members(members.drop_last()) + seq![44u8],
            spec_string_bytes(members.last().0@),
        );
        vstd::utf8::valid_utf8_concat(
            spec_object_members(members.drop_last()) + seq![44u8] + spec_string_bytes(
                members.last().0@,
            ),
            seq![58u8],
        );
        vstd::utf8::valid_utf8_concat(
            spec_object_members(members.drop_last()) + seq![44u8] + spec_string_bytes(
                members.last().0@,
            ) + seq![58u8],
            spec_json_bytes(members.last().1),
        );
    }
}

} // verus!
