//! The destroy-key operation: the key of the given name is destroyed.
use vstd::prelude::*;

verus! {

/// Input of a destroy-key request.
#[derive(Clone, Debug)]
pub struct Operation {
    pub key_name: String,
}

/// Reply to a destroy-key request: a bare acknowledgement.
#[derive(Clone, Copy, Debug, PartialEq, Eq, Structural)]
pub struct Result {}

/// Mathematical model of a destroy-key request.
pub struct OperationModel {
    pub key_name: Seq<char>,
}

impl View for Operation {
    type V = OperationModel;

    open spec fn view(&self) -> OperationModel {
        OperationModel { key_name: self.key_name@ }
    }
}

} // verus!
