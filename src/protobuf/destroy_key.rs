//! Wire messages of the destroy-key operation and their byte encoding.
use crate::operations::destroy_key::{Operation, OperationModel};
use crate::requests::ResponseStatus;
use crate::wire::{
    field, get_field, lemma_string_payload, lemma_take_field, put_field, read_string,
    string_of_payload, take_field, MAX_PAYLOAD,
};
use vstd::prelude::*;
use vstd::utf8::encode_utf8;

verus! {

/// Wire message of a destroy-key request.
#[derive(Clone, Debug)]
pub struct OperationProto {
    pub key_name: String,
}

/// Bytes of a destroy-key request whose name is `key_name`.
pub open spec fn operation_proto_bytes(key_name: Seq<char>) -> Seq<u8> {
    field(1, encode_utf8(key_name))
}

pub open spec fn operation_proto_of_bytes(s: Seq<u8>) -> Option<OperationModel> {
    match take_field(s, 1) {
        None => None,
        Some((p1, r1)) => match string_of_payload(p1) {
            Some(key_name) => if r1.len() == 0 {
                Some(OperationModel { key_name })
            } else {
                None
            },
            None => None,
        },
    }
}

/// Whether the name fits the length that a field can declare.
pub open spec fn name_fits(key_name: Seq<char>) -> bool {
    encode_utf8(key_name).len() <= MAX_PAYLOAD
}

/// Destroy-key requests are read back from their bytes as written.
pub proof fn lemma_operation_proto_bytes(m: OperationModel)
    requires
        name_fits(m.key_name),
    ensures
        operation_proto_of_bytes(operation_proto_bytes(m.key_name)) == Some(m),
{
    lemma_string_payload(m.key_name);
    lemma_take_field(1, encode_utf8(m.key_name), Seq::empty());
    assert(field(1, encode_utf8(m.key_name)) + Seq::<u8>::empty() =~= field(
        1,
        encode_utf8(m.key_name),
    ));
}

impl OperationProto {
    /// The bytes of this message; a name too long for a field is a
    /// serialisation failure.
    pub fn encode(&self) -> (r: Result<Vec<u8>, ResponseStatus>)
        ensures
            match r {
                Ok(v) => name_fits(self.key_name@) && v@ == operation_proto_bytes(self.key_name@),
                Err(e) => !name_fits(self.key_name@) && e == ResponseStatus::SerializingBodyFailed,
            },
    {
        let name = self.key_name.as_str().as_bytes();
        if name.len() > MAX_PAYLOAD {
            return Err(ResponseStatus::SerializingBodyFailed);
        }
        let mut out: Vec<u8> = Vec::new();
        put_field(&mut out, 1, name);
        assert(out@ =~= operation_proto_bytes(self.key_name@));
        Ok(out)
    }

    /// Reads a whole message from `s` as a native request.
    pub fn decode(s: &[u8]) -> (r: Option<Operation>)
        ensures
            match r {
                Some(o) => operation_proto_of_bytes(s@) == Some(o@),
                None => operation_proto_of_bytes(s@) is None,
            },
    {
        let (p1, r1) = match get_field(s, 1) {
            Some(x) => x,
            None => return None,
        };
        let key_name = match read_string(p1) {
            Some(k) => k,
            None => return None,
        };
        if r1.len() == 0 {
            Some(Operation { key_name })
        } else {
            None
        }
    }
}

} // verus!
