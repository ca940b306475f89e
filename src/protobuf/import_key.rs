//! Wire messages of the import-key operation, their conversion to and from
//! the native types, and their byte encoding.
use crate::operations::import_key::{Operation, OperationModel, Result as ImportKeyResult};
use crate::protobuf::key_attributes::{
    attributes_bytes, attributes_from_proto, attributes_of_bytes, attributes_to_proto,
    lemma_attributes_bytes, lemma_attributes_proto_round_trip, KeyAttributesProto,
};
use crate::requests::ResponseStatus;
use crate::wire::{
    field, get_field, get_opt_field, lemma_string_payload, lemma_take_field, lemma_take_opt_field,
    opt_field, put_field, read_string, string_of_payload, take_field, take_opt_field, MAX_PAYLOAD,
};
use vstd::prelude::*;
use vstd::slice::slice_to_vec;
use vstd::utf8::encode_utf8;

verus! {

/// Wire message of an import-key request; the attributes may be absent on
/// the wire.
#[derive(Clone, Debug)]
pub struct OperationProto {
    pub key_name: String,
    pub attributes: Option<KeyAttributesProto>,
    pub data: Vec<u8>,
}

/// Wire message of an import-key reply.
#[derive(Clone, Copy, Debug, PartialEq, Eq, Structural)]
pub struct ResultProto {}

/// Mathematical model of an `OperationProto`.
pub struct OperationProtoModel {
    pub key_name: Seq<char>,
    pub attributes: Option<KeyAttributesProto>,
    pub data: Seq<u8>,
}

impl View for OperationProto {
    type V = OperationProtoModel;

    open spec fn view(&self) -> OperationProtoModel {
        OperationProtoModel {
            key_name: self.key_name@,
            attributes: self.attributes,
            data: self.data@,
        }
    }
}

/// Whether every variable-length field fits the length that a field can
/// declare.
pub open spec fn proto_fits(m: OperationProtoModel) -> bool {
    encode_utf8(m.key_name).len() <= MAX_PAYLOAD && m.data.len() <= MAX_PAYLOAD
}

pub open spec fn opt_attributes_bytes(a: Option<KeyAttributesProto>) -> Option<Seq<u8>> {
    match a {
        Some(a) => Some(attributes_bytes(a)),
        None => None,
    }
}

pub open spec fn opt_attributes_of(o: Option<Seq<u8>>) -> Option<Option<KeyAttributesProto>> {
    match o {
        None => Some(None),
        Some(p) => match attributes_of_bytes(p) {
            Some(a) => Some(Some(a)),
            None => None,
        },
    }
}

/// Bytes of an import-key request message.
pub open spec fn operation_proto_bytes(m: OperationProtoModel) -> Seq<u8> {
    field(1, encode_utf8(m.key_name)) + (opt_field(2, opt_attributes_bytes(m.attributes)) + field(
        3,
        m.data,
    ))
}

pub open spec fn operation_proto_of_bytes(s: Seq<u8>) -> Option<OperationProtoModel> {
    match take_field(s, 1) {
        None => None,
        Some((p1, r1)) => match take_opt_field(r1, 2) {
            None => None,
            Some((o2, r2)) => match take_field(r2, 3) {
                None => None,
                Some((p3, r3)) => match (string_of_payload(p1), opt_attributes_of(o2)) {
                    (Some(key_name), Some(attributes)) => if r3.len() == 0 {
                        Some(OperationProtoModel { key_name, attributes, data: p3 })
                    } else {
                        None
                    },
                    _ => None,
                },
            },
        },
    }
}

/// The native request of a wire message: the attributes must be present and
/// convertible.
pub open spec fn operation_from_proto(m: OperationProtoModel) -> Option<OperationModel> {
    match m.attributes {
        None => None,
        Some(a) => match attributes_from_proto(a) {
            None => None,
            Some(attributes) => Some(
                OperationModel { key_name: m.key_name, attributes, data: m.data },
            ),
        },
    }
}

pub open spec fn operation_to_proto(o: OperationModel) -> OperationProtoModel {
    OperationProtoModel {
        key_name: o.key_name,
        attributes: Some(attributes_to_proto(o.attributes)),
        data: o.data,
    }
}

/// Request messages are read back from their bytes as written.
pub proof fn lemma_operation_proto_bytes(m: OperationProtoModel)
    requires
        proto_fits(m),
    ensures
        operation_proto_of_bytes(operation_proto_bytes(m)) == Some(m),
{
    lemma_string_payload(m.key_name);
    match m.attributes {
        Some(a) => lemma_attributes_bytes(a),
        None => {},
    }
    let f3 = field(3, m.data);
    let o2 = opt_field(2, opt_attributes_bytes(m.attributes));
    lemma_take_field(1, encode_utf8(m.key_name), o2 + f3);
    lemma_take_field(3, m.data, Seq::empty());
    assert(f3 + Seq::<u8>::empty() =~= f3);
    lemma_take_opt_field(2, opt_attributes_bytes(m.attributes), f3);
}

/// A request survives the trip through its wire message.
pub proof fn lemma_operation_proto_round_trip(o: OperationModel)
    ensures
        operation_from_proto(operation_to_proto(o)) == Some(o),
{
    lemma_attributes_proto_round_trip(o.attributes);
}

impl Operation {
    /// The native request of a wire message; a missing or unreadable
    /// attributes sub-message is an invalid encoding.
    pub fn try_from_proto(p: OperationProto) -> (r: Result<Operation, ResponseStatus>)
        ensures
            match r {
                Ok(o) => operation_from_proto(p@) == Some(o@),
                Err(e) => operation_from_proto(p@) is None && e == ResponseStatus::InvalidEncoding,
            },
    {
        let a = match p.attributes {
            Some(a) => a,
            None => return Err(ResponseStatus::InvalidEncoding),
        };
        match a.to_native() {
            Some(attributes) => Ok(Operation { key_name: p.key_name, attributes, data: p.data }),
            None => Err(ResponseStatus::InvalidEncoding),
        }
    }
}

impl OperationProto {
    /// The wire message of a native request.
    pub fn from_native(o: Operation) -> (r: OperationProto)
        ensures
            r@ == operation_to_proto(o@),
    {
        OperationProto {
            key_name: o.key_name,
            attributes: Some(KeyAttributesProto::from_native(o.attributes)),
            data: o.data,
        }
    }

    /// The bytes of this message; a name or key material too long for a
    /// field is a serialisation failure.
    pub fn encode(&self) -> (r: Result<Vec<u8>, ResponseStatus>)
        ensures
            match r {
                Ok(v) => proto_fits(self@) && v@ == operation_proto_bytes(self@),
                Err(e) => !proto_fits(self@) && e == ResponseStatus::SerializingBodyFailed,
            },
    {
        let name = self.key_name.as_str().as_bytes();
        if name.len() > MAX_PAYLOAD || self.data.len() > MAX_PAYLOAD {
            return Err(ResponseStatus::SerializingBodyFailed);
        }
        let mut out: Vec<u8> = Vec::new();
        put_field(&mut out, 1, name);
        match self.attributes {
            Some(a) => {
                proof {
                    lemma_attributes_bytes(a);
                }
                let mut v: Vec<u8> = Vec::new();
                a.encode(&mut v);
                assert(v@ =~= attributes_bytes(a));
                put_field(&mut out, 2, v.as_slice());
            },
            None => {},
        }
        put_field(&mut out, 3, self.data.as_slice());
        assert(out@ =~= operation_proto_bytes(self@));
        Ok(out)
    }

    /// Reads a whole message from `s`.
    pub fn decode(s: &[u8]) -> (r: Option<OperationProto>)
        ensures
            match r {
                Some(p) => operation_proto_of_bytes(s@) == Some(p@),
                None => operation_proto_of_bytes(s@) is None,
            },
    {
        let (p1, r1) = match get_field(s, 1) {
            Some(x) => x,
            None => return None,
        };
        let (o2, r2) = match get_opt_field(r1, 2) {
            Some(x) => x,
            None => return None,
        };
        let (p3, r3) = match get_field(r2, 3) {
            Some(x) => x,
            None => return None,
        };
        let key_name = match read_string(p1) {
            Some(k) => k,
            None => return None,
        };
        let attributes = match o2 {
            None => None,
            Some(p) => match KeyAttributesProto::decode(p) {
                Some(a) => Some(a),
                None => return None,
            },
        };
        if r3.len() != 0 {
            return None;
        }
        let data = slice_to_vec(p3);
        let r = OperationProto { key_name, attributes, data };
        assert(r@ == operation_proto_of_bytes(s@)->Some_0);
        Some(r)
    }
}

impl ImportKeyResult {
    /// The native reply of a wire message.
    pub fn from_proto(_p: ResultProto) -> (r: ImportKeyResult)
        ensures
            r == (ImportKeyResult {}),
    {
        ImportKeyResult {}
    }
}

impl ResultProto {
    /// The wire message of a native reply.
    pub fn from_native(_r: ImportKeyResult) -> (p: ResultProto)
        ensures
            p == (ResultProto {}),
    {
        ResultProto {}
    }
}

} // verus!
