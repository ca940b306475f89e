//! Wire messages of each operation and the body converter built on them.
pub mod key_attributes;
pub mod destroy_key;
pub mod import_key;
pub mod ping;

use crate::operations::destroy_key::Result as DestroyKeyResult;
use crate::operations::import_key::{Operation as ImportKeyOperation, Result as ImportKeyResult};
use crate::operations::ping::{Operation as PingOperation, Result as PingResult};
use crate::operations::{NativeOperation, NativeOperationModel, NativeResult};
use crate::protobuf::destroy_key::{
    lemma_operation_proto_bytes as lemma_destroy_key_bytes, name_fits,
    operation_proto_bytes as destroy_key_bytes, operation_proto_of_bytes as destroy_key_of_bytes,
    OperationProto as DestroyKeyOperationProto,
};
use crate::protobuf::import_key::{
    lemma_operation_proto_bytes, lemma_operation_proto_round_trip, operation_from_proto,
    operation_proto_bytes, operation_proto_of_bytes, operation_to_proto, proto_fits,
    OperationProto as ImportKeyOperationProto, OperationProtoModel,
};
use crate::protobuf::ping::{
    lemma_result_round_trip, result_from_proto, result_proto_bytes, result_proto_of_bytes,
    result_to_proto, ResultProto as PingResultProto,
};
use crate::requests::{Opcode, ResponseStatus};
use vstd::prelude::*;

verus! {

/// Whether an operation can be written as a body: every variable-length
/// field fits the length that a field can declare.
pub open spec fn operation_fits(o: NativeOperationModel) -> bool {
    match o {
        NativeOperationModel::Ping(_) => true,
        NativeOperationModel::DestroyKey(m) => name_fits(m.key_name),
        NativeOperationModel::ImportKey(m) => proto_fits(operation_to_proto(m)),
    }
}

/// The body that carries an operation.
pub open spec fn operation_body(o: NativeOperationModel) -> Seq<u8> {
    match o {
        NativeOperationModel::Ping(_) => Seq::empty(),
        NativeOperationModel::DestroyKey(m) => destroy_key_bytes(m.key_name),
        NativeOperationModel::ImportKey(m) => operation_proto_bytes(operation_to_proto(m)),
    }
}

/// The operation that a body carries under the given opcode: a body that
/// does not parse is a deserialisation failure, one that parses without the
/// required sub-messages an invalid encoding.
pub open spec fn operation_of_body(s: Seq<u8>, opcode: Opcode) -> Result<
    NativeOperationModel,
    ResponseStatus,
> {
    match opcode {
        Opcode::Ping => if s.len() == 0 {
            Ok(NativeOperationModel::Ping(PingOperation {}))
        } else {
            Err(ResponseStatus::DeserializingBodyFailed)
        },
        Opcode::DestroyKey => match destroy_key_of_bytes(s) {
            None => Err(ResponseStatus::DeserializingBodyFailed),
            Some(m) => Ok(NativeOperationModel::DestroyKey(m)),
        },
        Opcode::ImportKey => match operation_proto_of_bytes(s) {
            None => Err(ResponseStatus::DeserializingBodyFailed),
            Some(p) => match operation_from_proto(p) {
                None => Err(ResponseStatus::InvalidEncoding),
                Some(m) => Ok(NativeOperationModel::ImportKey(m)),
            },
        },
    }
}

/// The body that carries a result.
pub open spec fn result_body(r: NativeResult) -> Seq<u8> {
    match r {
        NativeResult::Ping(p) => result_proto_bytes(result_to_proto(p)),
        NativeResult::DestroyKey(_) => Seq::empty(),
        NativeResult::ImportKey(_) => Seq::empty(),
    }
}

/// The result that a body carries under the given opcode.
pub open spec fn result_of_body(s: Seq<u8>, opcode: Opcode) -> Result<NativeResult, ResponseStatus> {
    match opcode {
        Opcode::Ping => match result_proto_of_bytes(s) {
            None => Err(ResponseStatus::DeserializingBodyFailed),
            Some(p) => match result_from_proto(p) {
                None => Err(ResponseStatus::InvalidEncoding),
                Some(r) => Ok(NativeResult::Ping(r)),
            },
        },
        Opcode::DestroyKey => if s.len() == 0 {
            Ok(NativeResult::DestroyKey(DestroyKeyResult {}))
        } else {
            Err(ResponseStatus::DeserializingBodyFailed)
        },
        Opcode::ImportKey => if s.len() == 0 {
            Ok(NativeResult::ImportKey(ImportKeyResult {}))
        } else {
            Err(ResponseStatus::DeserializingBodyFailed)
        },
    }
}

/// Whether a request message leaves out a sub-message that the native
/// request requires.
pub open spec fn omits_required(m: OperationProtoModel) -> bool {
    match m.attributes {
        None => true,
        Some(a) => match a.key_policy {
            None => true,
            Some(p) => p.key_usage_flags is None || p.key_algorithm is None,
        },
    }
}

/// Every operation that fits is read back from its body, under its own
/// opcode, equal in every field.
pub proof fn lemma_operation_body_round_trip(o: NativeOperationModel)
    requires
        operation_fits(o),
    ensures
        operation_of_body(operation_body(o), o.opcode()) == Ok::<
            NativeOperationModel,
            ResponseStatus,
        >(o),
{
    match o {
        NativeOperationModel::Ping(_) => {},
        NativeOperationModel::DestroyKey(m) => lemma_destroy_key_bytes(m),
        NativeOperationModel::ImportKey(m) => {
            lemma_operation_proto_bytes(operation_to_proto(m));
            lemma_operation_proto_round_trip(m);
        },
    }
}

/// Every result is read back from its body, under its own opcode.
pub proof fn lemma_result_body_round_trip(r: NativeResult)
    ensures
        result_of_body(result_body(r), r.spec_opcode()) == Ok::<NativeResult, ResponseStatus>(r),
{
    match r {
        NativeResult::Ping(p) => lemma_result_round_trip(p),
        NativeResult::DestroyKey(_) => {},
        NativeResult::ImportKey(_) => {},
    }
}

/// A request body that leaves out a required sub-message is rejected as an
/// invalid encoding; no default takes its place.
pub proof fn lemma_omitted_sub_message_rejected(m: OperationProtoModel)
    requires
        proto_fits(m),
        omits_required(m),
    ensures
        operation_of_body(operation_proto_bytes(m), Opcode::ImportKey) == Err::<
            NativeOperationModel,
            ResponseStatus,
        >(ResponseStatus::InvalidEncoding),
{
    lemma_operation_proto_bytes(m);
}

/// Converts operations and results to and from field-tagged bodies.
pub struct ProtobufConverter {}

impl ProtobufConverter {
    /// The body of an operation; one with a field too long for the encoding
    /// is a serialisation failure.
    pub fn operation_to_body(&self, op: NativeOperation) -> (r: Result<Vec<u8>, ResponseStatus>)
        ensures
            match r {
                Ok(v) => operation_fits(op@) && v@ == operation_body(op@),
                Err(e) => !operation_fits(op@) && e == ResponseStatus::SerializingBodyFailed,
            },
    {
        match op {
            NativeOperation::Ping(_) => Ok(Vec::new()),
            NativeOperation::DestroyKey(o) => DestroyKeyOperationProto { key_name: o.key_name }.encode(),
            NativeOperation::ImportKey(o) => ImportKeyOperationProto::from_native(o).encode(),
        }
    }

    /// The operation that a body carries under the given opcode.
    pub fn body_to_operation(&self, body: &[u8], opcode: Opcode) -> (r: Result<
        NativeOperation,
        ResponseStatus,
    >)
        ensures
            match r {
                Ok(o) => operation_of_body(body@, opcode) == Ok::<
                    NativeOperationModel,
                    ResponseStatus,
                >(o@),
                Err(e) => operation_of_body(body@, opcode) == Err::<
                    NativeOperationModel,
                    ResponseStatus,
                >(e),
            },
    {
        match opcode {
            Opcode::Ping => if body.len() == 0 {
                Ok(NativeOperation::Ping(PingOperation {}))
            } else {
                Err(ResponseStatus::DeserializingBodyFailed)
            },
            Opcode::DestroyKey => match DestroyKeyOperationProto::decode(body) {
                None => Err(ResponseStatus::DeserializingBodyFailed),
                Some(o) => Ok(NativeOperation::DestroyKey(o)),
            },
            Opcode::ImportKey => match ImportKeyOperationProto::decode(body) {
                None => Err(ResponseStatus::DeserializingBodyFailed),
                Some(p) => match ImportKeyOperation::try_from_proto(p) {
                    Ok(o) => Ok(NativeOperation::ImportKey(o)),
                    Err(e) => Err(e),
                },
            },
        }
    }

    /// The body of a result.
    pub fn result_to_body(&self, r: NativeResult) -> (v: Vec<u8>)
        ensures
            v@ == result_body(r),
    {
        match r {
            NativeResult::Ping(p) => PingResultProto::from_native(p).encode(),
            NativeResult::DestroyKey(_) => Vec::new(),
            NativeResult::ImportKey(_) => Vec::new(),
        }
    }

    /// The result that a body carries under the given opcode.
    pub fn body_to_result(&self, body: &[u8], opcode: Opcode) -> (r: Result<
        NativeResult,
        ResponseStatus,
    >)
        ensures
            r == result_of_body(body@, opcode),
    {
        match opcode {
            Opcode::Ping => match PingResultProto::decode(body) {
                None => Err(ResponseStatus::DeserializingBodyFailed),
                Some(p) => match PingResult::try_from_proto(p) {
                    Ok(v) => Ok(NativeResult::Ping(v)),
                    Err(e) => Err(e),
                },
            },
            Opcode::DestroyKey => if body.len() == 0 {
                Ok(NativeResult::DestroyKey(DestroyKeyResult {}))
            } else {
                Err(ResponseStatus::DeserializingBodyFailed)
            },
            Opcode::ImportKey => if body.len() == 0 {
                Ok(NativeResult::ImportKey(ImportKeyResult {}))
            } else {
                Err(ResponseStatus::DeserializingBodyFailed)
            },
        }
    }
}

} // verus!
