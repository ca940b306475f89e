//! Field-tagged body encoding. A message is a run of fields, each written as
//! a one-byte tag, a four-byte little-endian payload length and the payload.
//! Fields stand in tag order; an optional field may be left out, and a
//! nested message is the payload of a field.
use vstd::bytes::*;
use vstd::prelude::*;
use vstd::slice::{slice_subrange, slice_to_vec};
use vstd::utf8::*;

verus! {

/// Largest payload length that a field can declare.
pub const MAX_PAYLOAD: usize = 0xFFFF_FFFF;

/// One field on the wire.
pub open spec fn field(tag: u8, payload: Seq<u8>) -> Seq<u8> {
    seq![tag] + spec_u32_to_le_bytes(payload.len() as u32) + payload
}

/// Splits a field with the given tag off the front of `s`, giving its payload
/// and what follows it.
pub open spec fn take_field(s: Seq<u8>, tag: u8) -> Option<(Seq<u8>, Seq<u8>)> {
    if s.len() >= 5 && s[0] == tag {
        let n = spec_u32_from_le_bytes(s.subrange(1, 5)) as int;
        if 5 + n <= s.len() {
            Some((s.subrange(5, 5 + n), s.subrange(5 + n, s.len() as int)))
        } else {
            None
        }
    } else {
        None
    }
}

/// Like `take_field` for a field that may be left out: when `s` does not
/// start with the tag, the field is absent and `s` is untouched.
pub open spec fn take_opt_field(s: Seq<u8>, tag: u8) -> Option<(Option<Seq<u8>>, Seq<u8>)> {
    if s.len() > 0 && s[0] == tag {
        match take_field(s, tag) {
            Some((p, rest)) => Some((Some(p), rest)),
            None => None,
        }
    } else {
        Some((None, s))
    }
}

/// An optional field: its bytes when present, nothing when absent.
pub open spec fn opt_field(tag: u8, payload: Option<Seq<u8>>) -> Seq<u8> {
    match payload {
        Some(p) => field(tag, p),
        None => Seq::empty(),
    }
}

/// Payload of a `u32` field.
pub open spec fn u32_payload(x: u32) -> Seq<u8> {
    spec_u32_to_le_bytes(x)
}

/// The `u32` held by a payload.
pub open spec fn u32_of_payload(p: Seq<u8>) -> Option<u32> {
    if p.len() == 4 {
        Some(spec_u32_from_le_bytes(p))
    } else {
        None
    }
}

/// Payload of a `bool` field.
pub open spec fn bool_payload(b: bool) -> Seq<u8> {
    if b {
        seq![1u8]
    } else {
        seq![0u8]
    }
}

/// The `bool` held by a payload.
pub open spec fn bool_of_payload(p: Seq<u8>) -> Option<bool> {
    if p.len() == 1 && p[0] == 0 {
        Some(false)
    } else if p.len() == 1 && p[0] == 1 {
        Some(true)
    } else {
        None
    }
}

/// The characters held by a UTF-8 payload.
pub open spec fn string_of_payload(p: Seq<u8>) -> Option<Seq<char>> {
    if valid_utf8(p) {
        Some(decode_utf8(p))
    } else {
        None
    }
}

/// A field is split back off the front of any bytes that follow it.
pub proof fn lemma_take_field(tag: u8, p: Seq<u8>, rest: Seq<u8>)
    requires
        p.len() <= MAX_PAYLOAD,
    ensures
        take_field(field(tag, p) + rest, tag) == Some((p, rest)),
        take_opt_field(field(tag, p) + rest, tag) == Some((Some(p), rest)),
        (field(tag, p) + rest)[0] == tag,
        field(tag, p).len() == 5 + p.len(),
{
    lemma_auto_spec_u32_to_from_le_bytes();
    let s = field(tag, p) + rest;
    let n = p.len() as u32;
    assert(s.subrange(1, 5) =~= spec_u32_to_le_bytes(n));
    assert(s.subrange(5, 5 + p.len() as int) =~= p);
    assert(s.subrange(5 + p.len() as int, s.len() as int) =~= rest);
}

/// An optional field round-trips, present or absent, provided that what
/// follows does not start with its tag.
pub proof fn lemma_take_opt_field(tag: u8, p: Option<Seq<u8>>, rest: Seq<u8>)
    requires
        p matches Some(q) ==> q.len() <= MAX_PAYLOAD,
        rest.len() == 0 || rest[0] != tag,
    ensures
        take_opt_field(opt_field(tag, p) + rest, tag) == Some((p, rest)),
{
    match p {
        Some(q) => {
            lemma_take_field(tag, q, rest);
        },
        None => {
            assert(opt_field(tag, p) + rest =~= rest);
        },
    }
}

/// Scalar payloads are read back as written.
pub proof fn lemma_scalar_payloads(x: u32, b: bool)
    ensures
        u32_of_payload(u32_payload(x)) == Some(x),
        u32_payload(x).len() == 4,
        bool_of_payload(bool_payload(b)) == Some(b),
        bool_payload(b).len() == 1,
{
    lemma_auto_spec_u32_to_from_le_bytes();
}

/// The text of a string is read back from its UTF-8 bytes.
pub proof fn lemma_string_payload(c: Seq<char>)
    ensures
        string_of_payload(encode_utf8(c)) == Some(c),
{
    encode_utf8_valid_utf8(c);
    encode_utf8_decode_utf8(c);
}

/// Appends one field to `out`.
pub fn put_field(out: &mut Vec<u8>, tag: u8, payload: &[u8])
    requires
        payload@.len() <= MAX_PAYLOAD,
    ensures
        final(out)@ == old(out)@ + field(tag, payload@),
{
    out.push(tag);
    let len = u32_to_le_bytes(payload.len() as u32);
    out.extend_from_slice(len.as_slice());
    out.extend_from_slice(payload);
    assert(final(out)@ =~= old(out)@ + field(tag, payload@));
}

/// Splits a field with the given tag off the front of `s`.
pub fn get_field<'a>(s: &'a [u8], tag: u8) -> (r: Option<(&'a [u8], &'a [u8])>)
    ensures
        r is Some <==> take_field(s@, tag) is Some,
        r matches Some(pr) ==> take_field(s@, tag) == Some((pr.0@, pr.1@)),
{
    if s.len() < 5 || s[0] != tag {
        return None;
    }
    let n = u32_from_le_bytes(slice_subrange(s, 1, 5)) as usize;
    if n > s.len() - 5 {
        return None;
    }
    let p = slice_subrange(s, 5, 5 + n);
    let rest = slice_subrange(s, 5 + n, s.len());
    Some((p, rest))
}

/// Splits an optional field with the given tag off the front of `s`.
pub fn get_opt_field<'a>(s: &'a [u8], tag: u8) -> (r: Option<(Option<&'a [u8]>, &'a [u8])>)
    ensures
        r is Some <==> take_opt_field(s@, tag) is Some,
        r matches Some(pr) ==> match pr.0 {
            Some(p) => take_opt_field(s@, tag) == Some((Some(p@), pr.1@)),
            None => take_opt_field(s@, tag) == Some((None::<Seq<u8>>, pr.1@)),
        },
{
    if s.len() > 0 && s[0] == tag {
        match get_field(s, tag) {
            Some(pr) => Some((Some(pr.0), pr.1)),
            None => None,
        }
    } else {
        Some((None, s))
    }
}

/// Appends a `u32` field.
pub fn put_u32(out: &mut Vec<u8>, tag: u8, x: u32)
    ensures
        final(out)@ == old(out)@ + field(tag, u32_payload(x)),
{
    let b = u32_to_le_bytes(x);
    put_field(out, tag, b.as_slice());
}

/// Reads the `u32` of a payload.
pub fn read_u32(p: &[u8]) -> (r: Option<u32>)
    ensures
        r == u32_of_payload(p@),
{
    if p.len() == 4 {
        Some(u32_from_le_bytes(p))
    } else {
        None
    }
}

/// Appends a `bool` field.
pub fn put_bool(out: &mut Vec<u8>, tag: u8, b: bool)
    ensures
        final(out)@ == old(out)@ + field(tag, bool_payload(b)),
{
    let v: Vec<u8> = if b {
        vec![1u8]
    } else {
        vec![0u8]
    };
    assert(v@ =~= bool_payload(b));
    put_field(out, tag, v.as_slice());
}

/// Reads the `bool` of a payload.
pub fn read_bool(p: &[u8]) -> (r: Option<bool>)
    ensures
        r == bool_of_payload(p@),
{
    if p.len() == 1 && p[0] == 0 {
        Some(false)
    } else if p.len() == 1 && p[0] == 1 {
        Some(true)
    } else {
        None
    }
}

/// Relies on String::from_utf8: it succeeds exactly on valid UTF-8, and the
/// string it returns holds the characters those bytes encode.
#[verifier::external_body]
fn string_from_utf8(v: Vec<u8>) -> (r: Option<String>)
    ensures
        r is Some <==> valid_utf8(v@),
        r matches Some(s) ==> s@ == decode_utf8(v@),
{
    String::from_utf8(v).ok()
}

/// Reads the string of a UTF-8 payload.
pub fn read_string(p: &[u8]) -> (r: Option<String>)
    ensures
        r is Some <==> string_of_payload(p@) is Some,
        r matches Some(s) ==> string_of_payload(p@) == Some(s@),
{
    string_from_utf8(slice_to_vec(p))
}

} // verus!
