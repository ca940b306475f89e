//! Closed, numerically coded enumerations that travel in a message header,
//! and the protocol-wide framing constants.
use vstd::prelude::*;

verus! {

/// Constant placed at the start of every header.
pub const MAGIC_NUMBER: u32 = 0x5EC0_A710;

/// Size in bytes of the fixed-layout header record that follows the magic
/// number and the size field.
pub const RESPONSE_HDR_SIZE: u16 = 20;

/// Identifier of the backend that services a request.
#[derive(Clone, Copy, Debug, PartialEq, Eq, Structural)]
pub enum ProviderID {
    Core,
    MbedCrypto,
    Pkcs11,
    Tpm,
}

impl ProviderID {
    pub open spec fn spec_code(self) -> u8 {
        match self {
            ProviderID::Core => 0,
            ProviderID::MbedCrypto => 1,
            ProviderID::Pkcs11 => 2,
            ProviderID::Tpm => 3,
        }
    }

    pub open spec fn spec_from_code(c: u8) -> Option<ProviderID> {
        if c == 0 {
            Some(ProviderID::Core)
        } else if c == 1 {
            Some(ProviderID::MbedCrypto)
        } else if c == 2 {
            Some(ProviderID::Pkcs11)
        } else if c == 3 {
            Some(ProviderID::Tpm)
        } else {
            None
        }
    }

    /// Wire code of this provider.
    pub fn code(&self) -> (r: u8)
        ensures
            r == self.spec_code(),
    {
        match self {
            ProviderID::Core => 0,
            ProviderID::MbedCrypto => 1,
            ProviderID::Pkcs11 => 2,
            ProviderID::Tpm => 3,
        }
    }

    /// Reverse lookup of a wire code; unknown codes give `None`.
    pub fn from_code(c: u8) -> (r: Option<ProviderID>)
        ensures
            r == Self::spec_from_code(c),
    {
        if c == 0 {
            Some(ProviderID::Core)
        } else if c == 1 {
            Some(ProviderID::MbedCrypto)
        } else if c == 2 {
            Some(ProviderID::Pkcs11)
        } else if c == 3 {
            Some(ProviderID::Tpm)
        } else {
            None
        }
    }
}

/// Encoding scheme of a message body.
#[derive(Clone, Copy, Debug, PartialEq, Eq, Structural)]
pub enum BodyType {
    Protobuf,
}

impl BodyType {
    pub open spec fn spec_code(self) -> u8 {
        0
    }

    pub open spec fn spec_from_code(c: u8) -> Option<BodyType> {
        if c == 0 {
            Some(BodyType::Protobuf)
        } else {
            None
        }
    }

    /// Wire code of this body type.
    pub fn code(&self) -> (r: u8)
        ensures
            r == self.spec_code(),
    {
        0
    }

    /// Reverse lookup of a wire code; unknown codes give `None`.
    pub fn from_code(c: u8) -> (r: Option<BodyType>)
        ensures
            r == Self::spec_from_code(c),
    {
        if c == 0 {
            Some(BodyType::Protobuf)
        } else {
            None
        }
    }
}

/// Code of the operation that a message carries.
#[derive(Clone, Copy, Debug, PartialEq, Eq, Structural)]
pub enum Opcode {
    Ping,
    DestroyKey,
    ImportKey,
}

impl Opcode {
    pub open spec fn spec_code(self) -> u16 {
        match self {
            Opcode::Ping => 1,
            Opcode::DestroyKey => 3,
            Opcode::ImportKey => 6,
        }
    }

    pub open spec fn spec_from_code(c: u16) -> Option<Opcode> {
        if c == 1 {
            Some(Opcode::Ping)
        } else if c == 3 {
            Some(Opcode::DestroyKey)
        } else if c == 6 {
            Some(Opcode::ImportKey)
        } else {
            None
        }
    }

    /// Wire code of this opcode.
    pub fn code(&self) -> (r: u16)
        ensures
            r == self.spec_code(),
    {
        match self {
            Opcode::Ping => 1,
            Opcode::DestroyKey => 3,
            Opcode::ImportKey => 6,
        }
    }

    /// Reverse lookup of a wire code; unknown codes give `None`.
    pub fn from_code(c: u16) -> (r: Option<Opcode>)
        ensures
            r == Self::spec_from_code(c),
    {
        if c == 1 {
            Some(Opcode::Ping)
        } else if c == 3 {
            Some(Opcode::DestroyKey)
        } else if c == 6 {
            Some(Opcode::ImportKey)
        } else {
            None
        }
    }
}

/// Status of a response, and the error taxonomy of this layer.
#[derive(Clone, Copy, Debug, PartialEq, Eq, Structural)]
pub enum ResponseStatus {
    Success,
    WrongProviderID,
    ContentTypeNotSupported,
    AcceptTypeNotSupported,
    WireProtocolVersionNotSupported,
    ProviderNotRegistered,
    ProviderDoesNotExist,
    DeserializingBodyFailed,
    SerializingBodyFailed,
    OpcodeDoesNotExist,
    ResponseTooLarge,
    UnsupportedOperation,
    KeyDoesNotExist,
    KeyAlreadyExists,
    ConnectionError,
    InvalidEncoding,
    InvalidHeader,
}

impl ResponseStatus {
    pub open spec fn spec_code(self) -> u16 {
        match self {
            ResponseStatus::Success => 0,
            ResponseStatus::WrongProviderID => 1,
            ResponseStatus::ContentTypeNotSupported => 2,
            ResponseStatus::AcceptTypeNotSupported => 3,
            ResponseStatus::WireProtocolVersionNotSupported => 4,
            ResponseStatus::ProviderNotRegistered => 5,
            ResponseStatus::ProviderDoesNotExist => 6,
            ResponseStatus::DeserializingBodyFailed => 7,
            ResponseStatus::SerializingBodyFailed => 8,
            ResponseStatus::OpcodeDoesNotExist => 9,
            ResponseStatus::ResponseTooLarge => 10,
            ResponseStatus::UnsupportedOperation => 11,
            ResponseStatus::KeyDoesNotExist => 12,
            ResponseStatus::KeyAlreadyExists => 13,
            ResponseStatus::ConnectionError => 14,
            ResponseStatus::InvalidEncoding => 15,
            ResponseStatus::InvalidHeader => 16,
        }
    }

    pub open spec fn spec_from_code(c: u16) -> Option<ResponseStatus> {
        if c == 0 {
            Some(ResponseStatus::Success)
        } else if c == 1 {
            Some(ResponseStatus::WrongProviderID)
        } else if c == 2 {
            Some(ResponseStatus::ContentTypeNotSupported)
        } else if c == 3 {
            Some(ResponseStatus::AcceptTypeNotSupported)
        } else if c == 4 {
            Some(ResponseStatus::WireProtocolVersionNotSupported)
        } else if c == 5 {
            Some(ResponseStatus::ProviderNotRegistered)
        } else if c == 6 {
            Some(ResponseStatus::ProviderDoesNotExist)
        } else if c == 7 {
            Some(ResponseStatus::DeserializingBodyFailed)
        } else if c == 8 {
            Some(ResponseStatus::SerializingBodyFailed)
        } else if c == 9 {
            Some(ResponseStatus::OpcodeDoesNotExist)
        } else if c == 10 {
            Some(ResponseStatus::ResponseTooLarge)
        } else if c == 11 {
            Some(ResponseStatus::UnsupportedOperation)
        } else if c == 12 {
            Some(ResponseStatus::KeyDoesNotExist)
        } else if c == 13 {
            Some(ResponseStatus::KeyAlreadyExists)
        } else if c == 14 {
            Some(ResponseStatus::ConnectionError)
        } else if c == 15 {
            Some(ResponseStatus::InvalidEncoding)
        } else if c == 16 {
            Some(ResponseStatus::InvalidHeader)
        } else {
            None
        }
    }

    /// Wire code of this status.
    pub fn code(&self) -> (r: u16)
        ensures
            r == self.spec_code(),
    {
        match self {
            ResponseStatus::Success => 0,
            ResponseStatus::WrongProviderID => 1,
            ResponseStatus::ContentTypeNotSupported => 2,
            ResponseStatus::AcceptTypeNotSupported => 3,
            ResponseStatus::WireProtocolVersionNotSupported => 4,
            ResponseStatus::ProviderNotRegistered => 5,
            ResponseStatus::ProviderDoesNotExist => 6,
            ResponseStatus::DeserializingBodyFailed => 7,
            ResponseStatus::SerializingBodyFailed => 8,
            ResponseStatus::OpcodeDoesNotExist => 9,
            ResponseStatus::ResponseTooLarge => 10,
            ResponseStatus::UnsupportedOperation => 11,
            ResponseStatus::KeyDoesNotExist => 12,
            ResponseStatus::KeyAlreadyExists => 13,
            ResponseStatus::ConnectionError => 14,
            ResponseStatus::InvalidEncoding => 15,
            ResponseStatus::InvalidHeader => 16,
        }
    }

    /// Reverse lookup of a wire code; unknown codes give `None`.
    pub fn from_code(c: u16) -> (r: Option<ResponseStatus>)
        ensures
            r == Self::spec_from_code(c),
    {
        if c == 0 {
            Some(ResponseStatus::Success)
        } else if c == 1 {
            Some(ResponseStatus::WrongProviderID)
        } else if c == 2 {
            Some(ResponseStatus::ContentTypeNotSupported)
        } else if c == 3 {
            Some(ResponseStatus::AcceptTypeNotSupported)
        } else if c == 4 {
            Some(ResponseStatus::WireProtocolVersionNotSupported)
        } else if c == 5 {
            Some(ResponseStatus::ProviderNotRegistered)
        } else if c == 6 {
            Some(ResponseStatus::ProviderDoesNotExist)
        } else if c == 7 {
            Some(ResponseStatus::DeserializingBodyFailed)
        } else if c == 8 {
            Some(ResponseStatus::SerializingBodyFailed)
        } else if c == 9 {
            Some(ResponseStatus::OpcodeDoesNotExist)
        } else if c == 10 {
            Some(ResponseStatus::ResponseTooLarge)
        } else if c == 11 {
            Some(ResponseStatus::UnsupportedOperation)
        } else if c == 12 {
            Some(ResponseStatus::KeyDoesNotExist)
        } else if c == 13 {
            Some(ResponseStatus::KeyAlreadyExists)
        } else if c == 14 {
            Some(ResponseStatus::ConnectionError)
        } else if c == 15 {
            Some(ResponseStatus::InvalidEncoding)
        } else if c == 16 {
            Some(ResponseStatus::InvalidHeader)
        } else {
            None
        }
    }
}

/// Each enumeration's reverse lookup inverts its code.
pub proof fn lemma_codes_round_trip(p: ProviderID, t: BodyType, o: Opcode, s: ResponseStatus)
    ensures
        ProviderID::spec_from_code(p.spec_code()) == Some(p),
        BodyType::spec_from_code(t.spec_code()) == Some(t),
        Opcode::spec_from_code(o.spec_code()) == Some(o),
        ResponseStatus::spec_from_code(s.spec_code()) == Some(s),
{
}

} // verus!
