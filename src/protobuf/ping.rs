//! Wire messages of the ping operation and their byte encoding. A ping
//! request has no fields and travels as an empty body.
use crate::operations::ping::{Operation as PingOperation, Result as PingResult};
use crate::requests::ResponseStatus;
use crate::wire::{
    field, get_field, lemma_scalar_payloads, lemma_take_field, put_u32, read_u32, take_field,
    u32_of_payload, u32_payload,
};
use vstd::prelude::*;

verus! {

/// Wire message of a ping request.
#[derive(Clone, Copy, Debug, PartialEq, Eq, Structural)]
pub struct OperationProto {}

/// Wire message of a ping reply; versions travel as 32-bit numbers.
#[derive(Clone, Copy, Debug, PartialEq, Eq, Structural)]
pub struct ResultProto {
    pub wire_protocol_version_maj: u32,
    pub wire_protocol_version_min: u32,
}

pub open spec fn result_proto_bytes(p: ResultProto) -> Seq<u8> {
    field(1, u32_payload(p.wire_protocol_version_maj)) + field(
        2,
        u32_payload(p.wire_protocol_version_min),
    )
}

pub open spec fn result_proto_of_bytes(s: Seq<u8>) -> Option<ResultProto> {
    match take_field(s, 1) {
        None => None,
        Some((p1, r1)) => match take_field(r1, 2) {
            None => None,
            Some((p2, r2)) => match (u32_of_payload(p1), u32_of_payload(p2)) {
                (Some(maj), Some(min)) => if r2.len() == 0 {
                    Some(
                        ResultProto { wire_protocol_version_maj: maj, wire_protocol_version_min: min },
                    )
                } else {
                    None
                },
                _ => None,
            },
        },
    }
}

/// The native reply of a wire message: each version must fit a byte.
pub open spec fn result_from_proto(p: ResultProto) -> Option<PingResult> {
    if p.wire_protocol_version_maj <= 255 && p.wire_protocol_version_min <= 255 {
        Some(
            PingResult {
                wire_protocol_version_maj: p.wire_protocol_version_maj as u8,
                wire_protocol_version_min: p.wire_protocol_version_min as u8,
            },
        )
    } else {
        None
    }
}

pub open spec fn result_to_proto(r: PingResult) -> ResultProto {
    ResultProto {
        wire_protocol_version_maj: r.wire_protocol_version_maj as u32,
        wire_protocol_version_min: r.wire_protocol_version_min as u32,
    }
}

/// Ping replies are read back from their bytes as written, and survive the
/// trip through their wire message.
pub proof fn lemma_result_round_trip(r: PingResult)
    ensures
        result_proto_of_bytes(result_proto_bytes(result_to_proto(r))) == Some(result_to_proto(r)),
        result_from_proto(result_to_proto(r)) == Some(r),
{
    let p = result_to_proto(r);
    lemma_scalar_payloads(p.wire_protocol_version_maj, true);
    lemma_scalar_payloads(p.wire_protocol_version_min, true);
    let f2 = field(2, u32_payload(p.wire_protocol_version_min));
    lemma_take_field(1, u32_payload(p.wire_protocol_version_maj), f2);
    lemma_take_field(2, u32_payload(p.wire_protocol_version_min), Seq::empty());
    assert(f2 + Seq::<u8>::empty() =~= f2);
}

impl PingOperation {
    /// The native request of a wire message.
    pub fn from_proto(_p: OperationProto) -> (r: PingOperation)
        ensures
            r == (PingOperation {}),
    {
        PingOperation {}
    }
}

impl PingResult {
    /// The native reply of a wire message; a version that does not fit a
    /// byte is an invalid encoding.
    pub fn try_from_proto(p: ResultProto) -> (r: Result<PingResult, ResponseStatus>)
        ensures
            match r {
                Ok(v) => result_from_proto(p) == Some(v),
                Err(e) => result_from_proto(p) is None && e == ResponseStatus::InvalidEncoding,
            },
    {
        if p.wire_protocol_version_maj <= 255 && p.wire_protocol_version_min <= 255 {
            Ok(
                PingResult {
                    wire_protocol_version_maj: p.wire_protocol_version_maj as u8,
                    wire_protocol_version_min: p.wire_protocol_version_min as u8,
                },
            )
        } else {
            Err(ResponseStatus::InvalidEncoding)
        }
    }
}

impl ResultProto {
    /// The wire message of a native reply.
    pub fn from_native(r: PingResult) -> (p: ResultProto)
        ensures
            p == result_to_proto(r),
    {
        ResultProto {
            wire_protocol_version_maj: r.wire_protocol_version_maj as u32,
            wire_protocol_version_min: r.wire_protocol_version_min as u32,
        }
    }

    /// The bytes of this message.
    pub fn encode(&self) -> (v: Vec<u8>)
        ensures
            v@ == result_proto_bytes(*self),
    {
        let mut out: Vec<u8> = Vec::new();
        put_u32(&mut out, 1, self.wire_protocol_version_maj);
        put_u32(&mut out, 2, self.wire_protocol_version_min);
        assert(out@ =~= result_proto_bytes(*self));
        out
    }

    /// Reads a whole message from `s`.
    pub fn decode(s: &[u8]) -> (r: Option<ResultProto>)
        ensures
            r == result_proto_of_bytes(s@),
    {
        let (p1, r1) = match get_field(s, 1) {
            Some(x) => x,
            None => return None,
        };
        let (p2, r2) = match get_field(r1, 2) {
            Some(x) => x,
            None => return None,
        };
        match (read_u32(p1), read_u32(p2)) {
            (Some(maj), Some(min)) => if r2.len() == 0 {
                Some(ResultProto { wire_protocol_version_maj: maj, wire_protocol_version_min: min })
            } else {
                None
            },
            _ => None,
        }
    }
}

} // verus!
