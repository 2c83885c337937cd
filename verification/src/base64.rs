//! Standard base64 encoding, used to put basic-auth credentials on the
//! wire.

use vstd::prelude::*;
use vstd::string::StringSliceAdditionalSpecFns;
use vstd::utf8::encode_utf8;

verus! {

/// The base64 alphabet character for a value below 64.
pub open spec fn spec_b64_char(n: u8) -> u8 {
    if n < 26 {
        (65 + n) as u8  // A-Z
    } else if n < 52 {
        (71 + n) as u8  // a-z
    } else if n < 62 {
        (n - 4) as u8  // 0-9
    } else if n == 62 {
        43u8  // +
    } else {
        47u8  // /
    }
}

/// The standard base64 encoding of a byte sequence: each group of three
/// bytes becomes four alphabet characters, a trailing group of one or two
/// bytes is padded with `=`.
pub open spec fn spec_base64(bs: Seq<u8>) -> Seq<u8>
    decreases bs.len(),
{
    if bs.len() == 0 {
        Seq::<u8>::empty()
    } else if bs.len() == 1 {
        let b0 = bs[0];
        seq![
            spec_b64_char(b0 / 4),
            spec_b64_char(((b0 % 4) * 16) as u8),
            61u8,
            61u8,
        ]
    } else if bs.len() == 2 {
        let b0 = bs[0];
        let b1 = bs[1];
        seq![
            spec_b64_char(b0 / 4),
            spec_b64_char(((b0 % 4) * 16 + b1 / 16) as u8),
            spec_b64_char(((b1 % 16) * 4) as u8),
            61u8,
        ]
    } else {
        let b0 = bs[0];
        let b1 = bs[1];
        let b2 = bs[2];
        seq![
            spec_b64_char(b0 / 4),
            spec_b64_char(((b0 % 4) * 16 + b1 / 16) as u8),
            spec_b64_char(((b1 % 16) * 4 + b2 / 64) as u8),
            spec_b64_char(b2 % 64),
        ] + spec_base64(bs.subrange(3, bs.len() as int))
    }
}

/// The base64 alphabet character for a value below 64.
fn b64_char(n: u8) -> (r: u8)
    requires
        n < 64,
    ensures
        r == spec_b64_char(n),
{
    if n < 26 {
        65 + n
    } else if n < 52 {
        71 + n
    } else if n < 62 {
        n - 4
    } else if n == 62 {
        43
    } else {
        47
    }
}

/// Encodes a byte sequence as standard base64 with padding.
pub fn base64_encode(bs: &[u8]) -> (r: Vec<u8>)
    ensures
        r@ == spec_base64(bs@),
{
    let mut out: Vec<u8> = Vec::new();
    let n = bs.len();
    let mut i: usize = 0;
    proof {
        assert(bs@.subrange(0, n as int) =~= bs@);
        assert(out@ + spec_base64(bs@) =~= spec_base64(bs@));
    }
    while n - i >= 3
        invariant
            i <= n,
            n == bs@.len(),
            out@ + spec_base64(bs@.subrange(i as int, n as int)) == spec_base64(bs@),
        decreases n - i,
    {
        let b0 = bs[i];
        let b1 = bs[i + 1];
        let b2 = bs[i + 2];
        let ghost tail = bs@.subrange(i as int, n as int);
        proof {
            assert(tail.len() >= 3);
            assert(tail[0] == bs@[i as int]);
            assert(tail[1] == bs@[i as int + 1]);
            assert(tail[2] == bs@[i as int + 2]);
            assert(tail.subrange(3, tail.len() as int) =~= bs@.subrange(i as int + 3, n as int));
        }
        out.push(b64_char(b0 / 4));
        out.push(b64_char((b0 % 4) * 16 + b1 / 16));
        out.push(b64_char((b1 % 16) * 4 + b2 / 64));
        out.push(b64_char(b2 % 64));
        proof {
            assert(out@ + spec_base64(bs@.subrange(i as int + 3, n as int)) =~= spec_base64(bs@));
        }
        i = i + 3;
    }
    let ghost tail = bs@.subrange(i as int, n as int);
    if n - i == 1 {
        let b0 = bs[i];
        proof {
            assert(tail.len() == 1);
            assert(tail[0] == bs@[i as int]);
        }
        out.push(b64_char(b0 / 4));
        out.push(b64_char((b0 % 4) * 16));
        out.push(61u8);
        out.push(61u8);
        proof {
            assert(out@ =~= spec_base64(bs@));
        }
    } else if n - i == 2 {
        let b0 = bs[i];
        let b1 = bs[i + 1];
        proof {
            assert(tail.len() == 2);
            assert(tail[0] == bs@[i as int]);
            assert(tail[1] == bs@[i as int + 1]);
        }
        out.push(b64_char(b0 / 4));
        out.push(b64_char((b0 % 4) * 16 + b1 / 16));
        out.push(b64_char((b1 % 16) * 4));
        out.push(61u8);
        proof {
            assert(out@ =~= spec_base64(bs@));
        }
    } else {
        proof {
            assert(tail.len() == 0);
            assert(out@ =~= spec_base64(bs@));
        }
    }
    out
}

/// The basic-auth credential bytes before encoding: the user, a colon,
/// and the password when one is given.
pub open spec fn spec_basic_credentials(user: Seq<char>, password: Option<Seq<char>>) -> Seq<u8> {
    encode_utf8(user) + seq![58u8] + (match password {
        Some(p) => encode_utf8(p),
        None => Seq::<u8>::empty(),
    })
}

/// The `Authorization` value for basic authentication: the base64-encoded
/// `user:password` credentials behind the `Basic ` marker.
pub fn basic_auth_value(user: &str, password: Option<&str>) -> (r: Vec<u8>)
    ensures
        r@ == "Basic ".spec_bytes() + spec_base64(
            spec_basic_credentials(
                user@,
                match password {
                    Some(p) => Some(p@),
                    None => None,
                },
            ),
        ),
{
    let mut creds: Vec<u8> = Vec::new();
    crate::util::append_str_bytes(&mut creds, user);
    creds.push(58u8);
    match password {
        Some(p) => {
            crate::util::append_str_bytes(&mut creds, p);
        },
        None => {},
    }
    proof {
        assert(creds@ =~= spec_basic_credentials(
            user@,
            match password {
                Some(p) => Some(p@),
                None => None::<Seq<char>>,
            },
        ));
    }
    let encoded = base64_encode(creds.as_slice());
    let mut out: Vec<u8> = Vec::new();
    crate::util::append_str_bytes(&mut out, "Basic ");
    crate::util::append_bytes(&mut out, encoded.as_slice());
    proof {
        assert(out@ =~= "Basic ".spec_bytes() + encoded@);
    }
    out
}

} // verus!
