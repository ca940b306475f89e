//! Native, strongly typed representations of each supported operation and
//! its result, and the tagged unions over them.
pub mod algorithm;
pub mod destroy_key;
pub mod import_key;
pub mod key_attributes;
pub mod ping;

use crate::requests::Opcode;
use vstd::prelude::*;

verus! {

/// A request of any supported kind, one variant per opcode.
#[derive(Debug)]
pub enum NativeOperation {
    Ping(ping::Operation),
    DestroyKey(destroy_key::Operation),
    ImportKey(import_key::Operation),
}

/// A reply of any supported kind, one variant per opcode.
#[derive(Clone, Copy, Debug, PartialEq, Eq, Structural)]
pub enum NativeResult {
    Ping(ping::Result),
    DestroyKey(destroy_key::Result),
    ImportKey(import_key::Result),
}

/// Mathematical model of a `NativeOperation`.
pub enum NativeOperationModel {
    Ping(ping::Operation),
    DestroyKey(destroy_key::OperationModel),
    ImportKey(import_key::OperationModel),
}

impl View for NativeOperation {
    type V = NativeOperationModel;

    open spec fn view(&self) -> NativeOperationModel {
        match self {
            NativeOperation::Ping(o) => NativeOperationModel::Ping(*o),
            NativeOperation::DestroyKey(o) => NativeOperationModel::DestroyKey(o@),
            NativeOperation::ImportKey(o) => NativeOperationModel::ImportKey(o@),
        }
    }
}

impl NativeOperationModel {
    pub open spec fn opcode(self) -> Opcode {
        match self {
            NativeOperationModel::Ping(_) => Opcode::Ping,
            NativeOperationModel::DestroyKey(_) => Opcode::DestroyKey,
            NativeOperationModel::ImportKey(_) => Opcode::ImportKey,
        }
    }
}

impl NativeOperation {
    /// The opcode that selects this operation.
    pub fn opcode(&self) -> (r: Opcode)
        ensures
            r == self@.opcode(),
    {
        match self {
            NativeOperation::Ping(_) => Opcode::Ping,
            NativeOperation::DestroyKey(_) => Opcode::DestroyKey,
            NativeOperation::ImportKey(_) => Opcode::ImportKey,
        }
    }
}

impl NativeResult {
    pub open spec fn spec_opcode(self) -> Opcode {
        match self {
            NativeResult::Ping(_) => Opcode::Ping,
            NativeResult::DestroyKey(_) => Opcode::DestroyKey,
            NativeResult::ImportKey(_) => Opcode::ImportKey,
        }
    }

    /// The opcode that selects this result.
    pub fn opcode(&self) -> (r: Opcode)
        ensures
            r == self.spec_opcode(),
    {
        match self {
            NativeResult::Ping(_) => Opcode::Ping,
            NativeResult::DestroyKey(_) => Opcode::DestroyKey,
            NativeResult::ImportKey(_) => Opcode::ImportKey,
        }
    }
}

} // verus!
