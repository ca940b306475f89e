//! The fixed-layout message header: its raw wire record, its validated native
//! form, and the framing (magic number, header size) around it.
use crate::requests::{
    BodyType, Opcode, ProviderID, ResponseStatus, MAGIC_NUMBER, RESPONSE_HDR_SIZE,
};
use vstd::bytes::*;
use vstd::slice::slice_subrange;
use vstd::prelude::*;

verus! {

/// A raw representation of a header, field for field as on the wire.
#[derive(Clone, Copy, Debug, PartialEq, Eq, Structural)]
pub struct Raw {
    pub version_maj: u8,
    pub version_min: u8,
    pub provider: u8,
    pub session: u64,
    pub content_type: u8,
    pub body_len: u32,
    pub opcode: u16,
    pub status: u16,
}

/// The validated native representation of a header. The body length is a
/// framing detail and is not part of it.
#[derive(Clone, Copy, Debug, PartialEq, Eq, Structural)]
pub struct ResponseHeader {
    /// Only 1 is a supported value for that field currently.
    pub version_maj: u8,
    /// Only 0 is a supported value for that field currently.
    pub version_min: u8,
    pub provider: ProviderID,
    pub session: u64,
    pub content_type: BodyType,
    pub opcode: Opcode,
    pub status: ResponseStatus,
}

/// Little-endian positional layout of the header record.
pub open spec fn raw_bytes(r: Raw) -> Seq<u8> {
    seq![r.version_maj, r.version_min, r.provider] + spec_u64_to_le_bytes(r.session) + seq![
        r.content_type,
    ] + spec_u32_to_le_bytes(r.body_len) + spec_u16_to_le_bytes(r.opcode) + spec_u16_to_le_bytes(
        r.status,
    )
}

/// The record read from the first bytes of `b` (meaningful when `b` holds at
/// least the record's size).
pub open spec fn raw_from_bytes(b: Seq<u8>) -> Raw {
    Raw {
        version_maj: b[0],
        version_min: b[1],
        provider: b[2],
        session: spec_u64_from_le_bytes(b.subrange(3, 11)),
        content_type: b[11],
        body_len: spec_u32_from_le_bytes(b.subrange(12, 16)),
        opcode: spec_u16_from_le_bytes(b.subrange(16, 18)),
        status: spec_u16_from_le_bytes(b.subrange(18, 20)),
    }
}

/// The magic number and the header size, as they open every frame.
pub open spec fn preamble_bytes() -> Seq<u8> {
    spec_u32_to_le_bytes(MAGIC_NUMBER) + spec_u16_to_le_bytes(RESPONSE_HDR_SIZE)
}

/// A whole header frame: preamble, then the record.
pub open spec fn frame_bytes(r: Raw) -> Seq<u8> {
    preamble_bytes() + raw_bytes(r)
}

/// Outcome of checking the six preamble bytes at the start of a stream.
pub open spec fn spec_check_preamble(s: Seq<u8>) -> Result<(), ResponseStatus> {
    if s.len() < 6 {
        Err(ResponseStatus::ConnectionError)
    } else if spec_u32_from_le_bytes(s.subrange(0, 4)) != MAGIC_NUMBER || spec_u16_from_le_bytes(
        s.subrange(4, 6),
    ) != RESPONSE_HDR_SIZE {
        Err(ResponseStatus::InvalidHeader)
    } else {
        Ok(())
    }
}

/// Outcome of decoding the header record at the start of `s`.
pub open spec fn spec_decode_record(s: Seq<u8>) -> Result<Raw, ResponseStatus> {
    if s.len() < RESPONSE_HDR_SIZE {
        Err(ResponseStatus::ConnectionError)
    } else {
        let r = raw_from_bytes(s);
        if r.version_maj != 1 || r.version_min != 0 {
            Err(ResponseStatus::WireProtocolVersionNotSupported)
        } else {
            Ok(r)
        }
    }
}

/// Outcome of reading a raw header from the start of a stream.
pub open spec fn spec_read_raw(s: Seq<u8>) -> Result<Raw, ResponseStatus> {
    match spec_check_preamble(s) {
        Err(e) => Err(e),
        Ok(_) => spec_decode_record(s.subrange(6, s.len() as int)),
    }
}

/// The native header of a raw record, checking the enumerations in the order
/// provider, content type, opcode, status.
pub open spec fn spec_native_of_raw(r: Raw) -> Result<ResponseHeader, ResponseStatus> {
    match ProviderID::spec_from_code(r.provider) {
        None => Err(ResponseStatus::ProviderDoesNotExist),
        Some(provider) => match BodyType::spec_from_code(r.content_type) {
            None => Err(ResponseStatus::ContentTypeNotSupported),
            Some(content_type) => match Opcode::spec_from_code(r.opcode) {
                None => Err(ResponseStatus::OpcodeDoesNotExist),
                Some(opcode) => match ResponseStatus::spec_from_code(r.status) {
                    None => Err(ResponseStatus::InvalidEncoding),
                    Some(status) => Ok(
                        ResponseHeader {
                            version_maj: r.version_maj,
                            version_min: r.version_min,
                            provider,
                            session: r.session,
                            content_type,
                            opcode,
                            status,
                        },
                    ),
                },
            },
        },
    }
}

/// The raw record of a native header, with the given body length.
pub open spec fn spec_raw_of_native(h: ResponseHeader, body_len: u32) -> Raw {
    Raw {
        version_maj: h.version_maj,
        version_min: h.version_min,
        provider: h.provider.spec_code(),
        session: h.session,
        content_type: h.content_type.spec_code(),
        body_len,
        opcode: h.opcode.spec_code(),
        status: h.status.spec_code(),
    }
}

/// Outcome of reading a native header and the declared body length from the
/// start of a stream.
pub open spec fn spec_read_header(s: Seq<u8>) -> Result<(ResponseHeader, u32), ResponseStatus> {
    match spec_read_raw(s) {
        Err(e) => Err(e),
        Ok(r) => match spec_native_of_raw(r) {
            Err(e) => Err(e),
            Ok(h) => Ok((h, r.body_len)),
        },
    }
}

/// Relies on bincode::serialize: a tuple of fixed-width integers is written
/// as the little-endian bytes of each element in turn, and with no size limit
/// the call cannot fail.
#[verifier::external_body]
fn bincode_serialize_frame(magic: u32, size: u16, r: &Raw) -> (v: Option<Vec<u8>>)
    ensures
        v is Some,
        v->Some_0@ == spec_u32_to_le_bytes(magic) + spec_u16_to_le_bytes(size) + raw_bytes(*r),
{
    bincode::serialize(
        &(
            magic,
            size,
            r.version_maj,
            r.version_min,
            r.provider,
            r.session,
            r.content_type,
            r.body_len,
            r.opcode,
            r.status,
        ),
    ).ok()
}

/// Relies on bincode::deserialize: a `(u32, u16)` is read from the first six
/// bytes, little-endian; fewer bytes fail, trailing bytes are allowed.
#[verifier::external_body]
fn bincode_deserialize_preamble(b: &[u8]) -> (r: Option<(u32, u16)>)
    ensures
        r is Some <==> b@.len() >= 6,
        r matches Some(p) ==> p.0 == spec_u32_from_le_bytes(b@.subrange(0, 4)) && p.1
            == spec_u16_from_le_bytes(b@.subrange(4, 6)),
{
    bincode::deserialize::<(u32, u16)>(b).ok()
}

/// Relies on bincode::deserialize: the eight fixed-width fields of the record
/// are read in order from its first twenty bytes, little-endian; fewer bytes
/// fail, trailing bytes are allowed.
#[verifier::external_body]
fn bincode_deserialize_record(b: &[u8]) -> (r: Option<Raw>)
    ensures
        r is Some <==> b@.len() >= 20,
        r matches Some(raw) ==> raw == raw_from_bytes(b@),
{
    match bincode::deserialize::<(u8, u8, u8, u64, u8, u32, u16, u16)>(b) {
        Ok(t) => Some(
            Raw {
                version_maj: t.0,
                version_min: t.1,
                provider: t.2,
                session: t.3,
                content_type: t.4,
                body_len: t.5,
                opcode: t.6,
                status: t.7,
            },
        ),
        Err(_) => None,
    }
}

impl Raw {
    /// A record with every field zero.
    pub fn new() -> (r: Raw)
        ensures
            r == (Raw {
                version_maj: 0,
                version_min: 0,
                provider: 0,
                session: 0,
                content_type: 0,
                body_len: 0,
                opcode: 0,
                status: 0,
            }),
    {
        Raw {
            version_maj: 0,
            version_min: 0,
            provider: 0,
            session: 0,
            content_type: 0,
            body_len: 0,
            opcode: 0,
            status: 0,
        }
    }

    /// The bytes of a whole header frame: magic number, header size, record.
    pub fn to_frame(&self) -> (v: Vec<u8>)
        ensures
            v@ == frame_bytes(*self),
    {
        let v = bincode_serialize_frame(MAGIC_NUMBER, RESPONSE_HDR_SIZE, self);
        match v {
            Some(v) => v,
            None => Vec::new(),
        }
    }

    /// Checks the preamble at the start of `b` and, on success, returns the
    /// number of record bytes that follow it.
    pub fn check_preamble(b: &[u8]) -> (r: Result<usize, ResponseStatus>)
        ensures
            r.is_ok() <==> spec_check_preamble(b@) is Ok,
            r matches Err(e) ==> spec_check_preamble(b@) == Err::<(), ResponseStatus>(e),
            r matches Ok(n) ==> n == RESPONSE_HDR_SIZE,
    {
        match bincode_deserialize_preamble(b) {
            None => Err(ResponseStatus::ConnectionError),
            Some(p) => {
                if p.0 != MAGIC_NUMBER || p.1 != RESPONSE_HDR_SIZE {
                    Err(ResponseStatus::InvalidHeader)
                } else {
                    Ok(RESPONSE_HDR_SIZE as usize)
                }
            },
        }
    }

    /// Decodes the header record at the start of `b` and checks its protocol
    /// version.
    pub fn decode_record(b: &[u8]) -> (r: Result<Raw, ResponseStatus>)
        ensures
            r == spec_decode_record(b@),
    {
        match bincode_deserialize_record(b) {
            None => Err(ResponseStatus::ConnectionError),
            Some(raw) => {
                if raw.version_maj != 1 || raw.version_min != 0 {
                    Err(ResponseStatus::WireProtocolVersionNotSupported)
                } else {
                    Ok(raw)
                }
            },
        }
    }

    /// Reads a raw header from the start of an in-memory stream: preamble
    /// first, then the record, then the version check.
    pub fn from_stream_bytes(s: &[u8]) -> (r: Result<Raw, ResponseStatus>)
        ensures
            r == spec_read_raw(s@),
    {
        match Raw::check_preamble(s) {
            Err(e) => Err(e),
            Ok(_) => {
                let rest = slice_subrange(s, 6, s.len());
                Raw::decode_record(rest)
            },
        }
    }

    /// The raw record of a native header, with the body length left at zero
    /// for the caller to fill in.
    pub fn from_header(h: ResponseHeader) -> (r: Raw)
        ensures
            r == spec_raw_of_native(h, 0),
    {
        Raw {
            version_maj: h.version_maj,
            version_min: h.version_min,
            provider: h.provider.code(),
            session: h.session,
            content_type: h.content_type.code(),
            body_len: 0,
            opcode: h.opcode.code(),
            status: h.status.code(),
        }
    }
}

impl ResponseHeader {
    /// A header with default field values.
    pub fn new() -> (r: ResponseHeader)
        ensures
            r == (ResponseHeader {
                version_maj: 1,
                version_min: 0,
                provider: ProviderID::Core,
                session: 0,
                content_type: BodyType::Protobuf,
                opcode: Opcode::Ping,
                status: ResponseStatus::Success,
            }),
    {
        ResponseHeader {
            version_maj: 1,
            version_min: 0,
            provider: ProviderID::Core,
            session: 0,
            content_type: BodyType::Protobuf,
            opcode: Opcode::Ping,
            status: ResponseStatus::Success,
        }
    }

    /// Converts a raw record to a native header; the first unknown code in
    /// the order provider, content type, opcode, status decides the error.
    pub fn try_from_raw(r: Raw) -> (h: Result<ResponseHeader, ResponseStatus>)
        ensures
            h == spec_native_of_raw(r),
    {
        let provider = match ProviderID::from_code(r.provider) {
            Some(p) => p,
            None => return Err(ResponseStatus::ProviderDoesNotExist),
        };
        let content_type = match BodyType::from_code(r.content_type) {
            Some(c) => c,
            None => return Err(ResponseStatus::ContentTypeNotSupported),
        };
        let opcode = match Opcode::from_code(r.opcode) {
            Some(o) => o,
            None => return Err(ResponseStatus::OpcodeDoesNotExist),
        };
        let status = match ResponseStatus::from_code(r.status) {
            Some(s) => s,
            None => return Err(ResponseStatus::InvalidEncoding),
        };
        Ok(
            ResponseHeader {
                version_maj: r.version_maj,
                version_min: r.version_min,
                provider,
                session: r.session,
                content_type,
                opcode,
                status,
            },
        )
    }
}

/// Serialises a native header with the given body length into a whole frame.
pub fn write_header(h: ResponseHeader, body_len: u32) -> (v: Vec<u8>)
    ensures
        v@ == frame_bytes(spec_raw_of_native(h, body_len)),
{
    let mut raw = Raw::from_header(h);
    raw.body_len = body_len;
    raw.to_frame()
}

/// Reads a native header and the declared body length from the start of an
/// in-memory stream.
pub fn read_header(s: &[u8]) -> (r: Result<(ResponseHeader, u32), ResponseStatus>)
    ensures
        r == spec_read_header(s@),
{
    match Raw::from_stream_bytes(s) {
        Err(e) => Err(e),
        Ok(raw) => match ResponseHeader::try_from_raw(raw) {
            Err(e) => Err(e),
            Ok(h) => Ok((h, raw.body_len)),
        },
    }
}

/// The record layout is read back exactly as it was written.
proof fn lemma_raw_bytes_round_trip(r: Raw)
    ensures
        raw_bytes(r).len() == 20,
        raw_from_bytes(raw_bytes(r)) == r,
{
    lemma_auto_spec_u16_to_from_le_bytes();
    lemma_auto_spec_u32_to_from_le_bytes();
    lemma_auto_spec_u64_to_from_le_bytes();
    let b = raw_bytes(r);
    assert(b.subrange(3, 11) =~= spec_u64_to_le_bytes(r.session));
    assert(b.subrange(12, 16) =~= spec_u32_to_le_bytes(r.body_len));
    assert(b.subrange(16, 18) =~= spec_u16_to_le_bytes(r.opcode));
    assert(b.subrange(18, 20) =~= spec_u16_to_le_bytes(r.status));
}

/// Reading a whole frame gives back the record that was written.
pub proof fn lemma_frame_round_trip(r: Raw)
    ensures
        frame_bytes(r).len() == 26,
        spec_check_preamble(frame_bytes(r)) is Ok,
        frame_bytes(r).subrange(6, 26) == raw_bytes(r),
{
    lemma_auto_spec_u16_to_from_le_bytes();
    lemma_auto_spec_u32_to_from_le_bytes();
    lemma_raw_bytes_round_trip(r);
    let f = frame_bytes(r);
    assert(f.subrange(0, 4) =~= spec_u32_to_le_bytes(MAGIC_NUMBER));
    assert(f.subrange(4, 6) =~= spec_u16_to_le_bytes(RESPONSE_HDR_SIZE));
    assert(f.subrange(6, 26) =~= raw_bytes(r));
}

/// Writing a header of the supported protocol version with any body length,
/// then reading the frame, gives back that header and that body length.
pub proof fn lemma_write_read_header(h: ResponseHeader, body_len: u32)
    requires
        h.version_maj == 1,
        h.version_min == 0,
    ensures
        spec_read_header(frame_bytes(spec_raw_of_native(h, body_len))) == Ok::<
            (ResponseHeader, u32),
            ResponseStatus,
        >((h, body_len)),
{
    let r = spec_raw_of_native(h, body_len);
    lemma_frame_round_trip(r);
    lemma_raw_bytes_round_trip(r);
    crate::requests::lemma_codes_round_trip(h.provider, h.content_type, h.opcode, h.status);
}

/// A stream of at least six bytes whose first four bytes are not the magic
/// number is rejected as a malformed header, whatever follows.
pub proof fn lemma_bad_magic_rejected(s: Seq<u8>)
    requires
        s.len() >= 6,
        s.subrange(0, 4) != spec_u32_to_le_bytes(MAGIC_NUMBER),
    ensures
        spec_read_raw(s) == Err::<Raw, ResponseStatus>(ResponseStatus::InvalidHeader),
        spec_read_header(s) == Err::<(ResponseHeader, u32), ResponseStatus>(
            ResponseStatus::InvalidHeader,
        ),
{
    lemma_auto_spec_u32_to_from_le_bytes();
    assert(s.subrange(0, 4).len() == 4);
}

/// A stream of at least six bytes that declares a header size other than the
/// expected one is rejected as a malformed header.
pub proof fn lemma_bad_size_rejected(s: Seq<u8>)
    requires
        s.len() >= 6,
        s.subrange(4, 6) != spec_u16_to_le_bytes(RESPONSE_HDR_SIZE),
    ensures
        spec_read_raw(s) == Err::<Raw, ResponseStatus>(ResponseStatus::InvalidHeader),
        spec_read_header(s) == Err::<(ResponseHeader, u32), ResponseStatus>(
            ResponseStatus::InvalidHeader,
        ),
{
    lemma_auto_spec_u16_to_from_le_bytes();
    assert(s.subrange(4, 6).len() == 2);
}

/// A stream with a good preamble and a complete record whose version is not
/// 1.0 is rejected as an unsupported version; with a bad magic number as well,
/// the malformed preamble is what is reported.
pub proof fn lemma_bad_version_rejected(s: Seq<u8>)
    requires
        s.len() >= 26,
        s[6] != 1 || s[7] != 0,
    ensures
        s.subrange(0, 6) == preamble_bytes() ==> spec_read_header(s) == Err::<
            (ResponseHeader, u32),
            ResponseStatus,
        >(ResponseStatus::WireProtocolVersionNotSupported),
        s.subrange(0, 4) != spec_u32_to_le_bytes(MAGIC_NUMBER) ==> spec_read_header(s) == Err::<
            (ResponseHeader, u32),
            ResponseStatus,
        >(ResponseStatus::InvalidHeader),
{
    lemma_auto_spec_u16_to_from_le_bytes();
    lemma_auto_spec_u32_to_from_le_bytes();
    if s.subrange(0, 6) == preamble_bytes() {
        assert(s.subrange(0, 4) =~= s.subrange(0, 6).subrange(0, 4));
        assert(s.subrange(4, 6) =~= s.subrange(0, 6).subrange(4, 6));
        assert(preamble_bytes().subrange(0, 4) =~= spec_u32_to_le_bytes(MAGIC_NUMBER));
        assert(preamble_bytes().subrange(4, 6) =~= spec_u16_to_le_bytes(RESPONSE_HDR_SIZE));
        let rest = s.subrange(6, s.len() as int);
        assert(rest[0] == s[6] && rest[1] == s[7]);
    }
    if s.subrange(0, 4) != spec_u32_to_le_bytes(MAGIC_NUMBER) {
        lemma_bad_magic_rejected(s);
    }
}

/// A stream whose preamble is malformed is rejected on its first six bytes
/// alone: any stream that shares them gets the same outcome, so nothing past
/// them is read.
pub proof fn lemma_bad_preamble_reads_six_bytes(s: Seq<u8>, t: Seq<u8>)
    requires
        s.len() >= 6,
        t.len() >= 6,
        t.subrange(0, 6) == s.subrange(0, 6),
        s.subrange(0, 4) != spec_u32_to_le_bytes(MAGIC_NUMBER) || s.subrange(4, 6)
            != spec_u16_to_le_bytes(RESPONSE_HDR_SIZE),
    ensures
        spec_read_header(s) == Err::<(ResponseHeader, u32), ResponseStatus>(
            ResponseStatus::InvalidHeader,
        ),
        spec_read_header(t) == spec_read_header(s),
{
    assert(t.subrange(0, 4) =~= t.subrange(0, 6).subrange(0, 4));
    assert(s.subrange(0, 4) =~= s.subrange(0, 6).subrange(0, 4));
    assert(t.subrange(4, 6) =~= t.subrange(0, 6).subrange(4, 6));
    assert(s.subrange(4, 6) =~= s.subrange(0, 6).subrange(4, 6));
    if s.subrange(0, 4) != spec_u32_to_le_bytes(MAGIC_NUMBER) {
        lemma_bad_magic_rejected(s);
        lemma_bad_magic_rejected(t);
    } else {
        lemma_bad_size_rejected(s);
        lemma_bad_size_rejected(t);
    }
}

} // verus!
