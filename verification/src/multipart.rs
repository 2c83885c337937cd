//! `multipart/form-data` encoding.
//!
//! The engine owns the multipart wire format: given the parts and a
//! boundary supplied by the transport (boundary generation is the
//! transport's randomness, not the engine's), it produces the exact body
//! bytes and the matching content-type value. Malformed part names,
//! filenames, content types or boundaries are rejected with a
//! configuration error before anything is sent.

use vstd::prelude::*;
use vstd::string::StringSliceAdditionalSpecFns;
use vstd::utf8::encode_utf8;

use crate::error::Error;

verus! {

/// One part of a multipart form.
#[derive(Debug)]
pub struct Part {
    /// The field name.
    pub name: String,
    /// The filename announced for file parts.
    pub filename: Option<String>,
    /// The content type announced for this part.
    pub mime: Option<String>,
    /// The payload bytes of the part.
    pub data: Vec<u8>,
}

impl Part {
    /// A part from its field name and payload.
    pub fn new(name: String, data: Vec<u8>, filename: Option<String>, mime: Option<String>) -> (r:
        Part)
        ensures
            r.name@ == name@,
            r.data@ == data@,
            r.filename == filename,
            r.mime == mime,
    {
        Part { name, filename, mime, data }
    }
}

/// Whether a byte may appear in a quoted token of a part header: a legal
/// header-value byte that is not the quote itself.
pub open spec fn valid_token_byte(b: u8) -> bool {
    crate::cookies::valid_header_value_byte(b) && b != 34
}

/// Whether every byte of a quoted token is legal.
pub open spec fn valid_token(bs: Seq<u8>) -> bool {
    forall|i: int| 0 <= i < bs.len() ==> valid_token_byte(#[trigger] bs[i])
}

/// Whether a boundary is well-formed: a non-empty run of legal token
/// bytes.
pub open spec fn valid_boundary(bs: Seq<u8>) -> bool {
    bs.len() > 0 && valid_token(bs)
}

/// Whether a part may be encoded: its name, filename and content type are
/// legal quoted tokens and header values.
pub open spec fn spec_part_ok(p: Part) -> bool {
    &&& valid_token(encode_utf8(p.name@))
    &&& match p.filename {
        Some(f) => valid_token(encode_utf8(f@)),
        None => true,
    }
    &&& match p.mime {
        Some(m) => crate::cookies::valid_header_value(encode_utf8(m@)),
        None => true,
    }
}

/// Whether a whole form may be encoded.
pub open spec fn spec_parts_ok(parts: Seq<Part>) -> bool {
    forall|i: int| 0 <= i < parts.len() ==> spec_part_ok(#[trigger] parts[i])
}

/// The dashed boundary line opening a part.
pub open spec fn spec_boundary_line(boundary: Seq<u8>) -> Seq<u8> {
    "--".spec_bytes() + boundary + "\r\n".spec_bytes()
}

/// The content-disposition header line of a part: the field name, and the
/// filename for file parts.
pub open spec fn spec_disposition_line(p: Part) -> Seq<u8> {
    "Content-Disposition: form-data; name=\"".spec_bytes() + encode_utf8(p.name@)
        + "\"".spec_bytes() + (match p.filename {
        Some(f) => "; filename=\"".spec_bytes() + encode_utf8(f@) + "\"".spec_bytes(),
        None => Seq::<u8>::empty(),
    }) + "\r\n".spec_bytes()
}

/// The optional content-type header line of a part.
pub open spec fn spec_type_line(p: Part) -> Seq<u8> {
    match p.mime {
        Some(m) => "Content-Type: ".spec_bytes() + encode_utf8(m@) + "\r\n".spec_bytes(),
        None => Seq::<u8>::empty(),
    }
}

/// The bytes of one encoded part: the dashed boundary line, the
/// content-disposition header, the optional content-type header, a blank
/// line, the payload, and the closing line break.
pub open spec fn spec_part_bytes(p: Part, boundary: Seq<u8>) -> Seq<u8> {
    spec_boundary_line(boundary) + spec_disposition_line(p) + spec_type_line(p)
        + "\r\n".spec_bytes() + p.data@ + "\r\n".spec_bytes()
}

/// The bytes of the whole form: every part in order, then the closing
/// dashed boundary line.
pub open spec fn spec_multipart_bytes(parts: Seq<Part>, boundary: Seq<u8>) -> Seq<u8>
    decreases parts.len(),
{
    if parts.len() == 0 {
        "--".spec_bytes() + boundary + "--\r\n".spec_bytes()
    } else {
        spec_part_bytes(parts[0], boundary) + spec_multipart_bytes(parts.drop_first(), boundary)
    }
}

/// The content-type value announcing the boundary.
pub open spec fn spec_multipart_content_type(boundary: Seq<u8>) -> Seq<u8> {
    "multipart/form-data; boundary=".spec_bytes() + boundary
}

/// Checks that every byte of a slice is a legal quoted-token byte.
fn bytes_all_valid_token(bs: &[u8]) -> (r: bool)
    ensures
        r == valid_token(bs@),
{
    let mut i: usize = 0;
    while i < bs.len()
        invariant
            i <= bs@.len(),
            forall|j: int| 0 <= j < i ==> valid_token_byte(#[trigger] bs@[j]),
        decreases bs@.len() - i,
    {
        let b = bs[i];
        if !((b == 9 || (32 <= b && b != 127)) && b != 34) {
            return false;
        }
        i = i + 1;
    }
    true
}

/// Checks that one part may be encoded.
fn part_ok(p: &Part) -> (r: bool)
    ensures
        r == spec_part_ok(*p),
{
    if !bytes_all_valid_token(p.name.as_str().as_bytes()) {
        return false;
    }
    match &p.filename {
        Some(f) => {
            if !bytes_all_valid_token(f.as_str().as_bytes()) {
                return false;
            }
        },
        None => {},
    }
    match &p.mime {
        Some(m) => {
            if !crate::cookies::bytes_all_valid_header_value(m.as_str().as_bytes()) {
                return false;
            }
        },
        None => {},
    }
    true
}

/// Appends the dashed boundary line.
fn append_boundary_line(boundary: &Vec<u8>, out: &mut Vec<u8>)
    ensures
        final(out)@ == old(out)@ + spec_boundary_line(boundary@),
{
    crate::util::append_str_bytes(out, "--");
    crate::util::append_bytes(out, boundary.as_slice());
    crate::util::append_str_bytes(out, "\r\n");
    proof {
        assert(out@ =~= old(out)@ + spec_boundary_line(boundary@));
    }
}

/// Appends the content-disposition header line.
fn append_disposition_line(p: &Part, out: &mut Vec<u8>)
    ensures
        final(out)@ == old(out)@ + spec_disposition_line(*p),
{
    crate::util::append_str_bytes(out, "Content-Disposition: form-data; name=\"");
    crate::util::append_str_bytes(out, p.name.as_str());
    crate::util::append_str_bytes(out, "\"");
    match &p.filename {
        Some(f) => {
            crate::util::append_str_bytes(out, "; filename=\"");
            crate::util::append_str_bytes(out, f.as_str());
            crate::util::append_str_bytes(out, "\"");
        },
        None => {},
    }
    crate::util::append_str_bytes(out, "\r\n");
    proof {
        assert(out@ =~= old(out)@ + spec_disposition_line(*p));
    }
}

/// Appends the optional content-type header line.
fn append_type_line(p: &Part, out: &mut Vec<u8>)
    ensures
        final(out)@ == old(out)@ + spec_type_line(*p),
{
    match &p.mime {
        Some(m) => {
            crate::util::append_str_bytes(out, "Content-Type: ");
            crate::util::append_str_bytes(out, m.as_str());
            crate::util::append_str_bytes(out, "\r\n");
        },
        None => {},
    }
    proof {
        assert(out@ =~= old(out)@ + spec_type_line(*p));
    }
}

/// Appends one encoded part.
fn append_part(p: &Part, boundary: &Vec<u8>, out: &mut Vec<u8>)
    ensures
        final(out)@ == old(out)@ + spec_part_bytes(*p, boundary@),
{
    append_boundary_line(boundary, out);
    append_disposition_line(p, out);
    append_type_line(p, out);
    crate::util::append_str_bytes(out, "\r\n");
    crate::util::append_bytes(out, p.data.as_slice());
    crate::util::append_str_bytes(out, "\r\n");
    proof {
        assert(out@ =~= old(out)@ + spec_part_bytes(*p, boundary@));
    }
}

/// Encodes a whole multipart form against a transport-supplied boundary.
/// Succeeds exactly when the boundary and every part are well-formed, and
/// then produces exactly the body bytes of [`spec_multipart_bytes`];
/// anything malformed is rejected with a configuration error before it
/// can reach the wire.
pub fn multipart_bytes(parts: &Vec<Part>, boundary: &Vec<u8>) -> (r: Result<Vec<u8>, Error>)
    ensures
        r is Ok <==> valid_boundary(boundary@) && spec_parts_ok(parts@),
        r matches Ok(v) ==> v@ == spec_multipart_bytes(parts@, boundary@),
        r is Err ==> r == Result::<Vec<u8>, Error>::Err(Error::Config),
{
    if boundary.len() == 0 || !bytes_all_valid_token(boundary.as_slice()) {
        return Err(Error::Config);
    }
    let mut out: Vec<u8> = Vec::new();
    let n = parts.len();
    let mut i: usize = 0;
    proof {
        assert(parts@.subrange(0, n as int) =~= parts@);
        assert(out@ + spec_multipart_bytes(parts@, boundary@) =~= spec_multipart_bytes(
            parts@,
            boundary@,
        ));
    }
    while i < n
        invariant
            i <= n,
            n == parts@.len(),
            forall|j: int| 0 <= j < i ==> spec_part_ok(#[trigger] parts@[j]),
            out@ + spec_multipart_bytes(parts@.subrange(i as int, n as int), boundary@)
                == spec_multipart_bytes(parts@, boundary@),
        decreases n - i,
    {
        if !part_ok(&parts[i]) {
            return Err(Error::Config);
        }
        proof {
            let tail = parts@.subrange(i as int, n as int);
            assert(tail[0] == parts@[i as int]);
            assert(tail.drop_first() =~= parts@.subrange(i as int + 1, n as int));
            assert(spec_multipart_bytes(tail, boundary@) == spec_part_bytes(
                parts@[i as int],
                boundary@,
            ) + spec_multipart_bytes(parts@.subrange(i as int + 1, n as int), boundary@));
        }
        append_part(&parts[i], boundary, &mut out);
        proof {
            assert(out@ + spec_multipart_bytes(
                parts@.subrange(i as int + 1, n as int),
                boundary@,
            ) =~= spec_multipart_bytes(parts@, boundary@));
        }
        i = i + 1;
    }
    proof {
        assert(parts@.subrange(n as int, n as int) =~= Seq::<Part>::empty());
    }
    crate::util::append_str_bytes(&mut out, "--");
    crate::util::append_bytes(&mut out, boundary.as_slice());
    crate::util::append_str_bytes(&mut out, "--\r\n");
    proof {
        assert(out@ =~= spec_multipart_bytes(parts@, boundary@));
    }
    Ok(out)
}

/// The content-type value for a form encoded against this boundary.
pub fn multipart_content_type(boundary: &Vec<u8>) -> (r: Vec<u8>)
    ensures
        r@ == spec_multipart_content_type(boundary@),
{
    let mut out: Vec<u8> = Vec::new();
    crate::util::append_str_bytes(&mut out, "multipart/form-data; boundary=");
    crate::util::append_bytes(&mut out, boundary.as_slice());
    proof {
        assert(out@ =~= spec_multipart_content_type(boundary@));
    }
    out
}

} // verus!
