//! The import-key operation: key material is imported under a name with the
//! given attributes.
use crate::operations::key_attributes::KeyAttributes;
use vstd::prelude::*;

verus! {

/// Input of an import-key request.
#[derive(Clone, Debug)]
pub struct Operation {
    pub key_name: String,
    pub attributes: KeyAttributes,
    pub data: Vec<u8>,
}

/// Reply to an import-key request: a bare acknowledgement.
#[derive(Clone, Copy, Debug, PartialEq, Eq, Structural)]
pub struct Result {}

/// Mathematical model of an import-key request.
pub struct OperationModel {
    pub key_name: Seq<char>,
    pub attributes: KeyAttributes,
    pub data: Seq<u8>,
}

impl View for Operation {
    type V = OperationModel;

    open spec fn view(&self) -> OperationModel {
        OperationModel { key_name: self.key_name@, attributes: self.attributes, data: self.data@ }
    }
}

} // verus!
