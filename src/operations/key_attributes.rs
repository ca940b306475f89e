//! Attributes of a key: its type, size and usage policy.
use crate::operations::algorithm::Algorithm;
use vstd::prelude::*;

verus! {

/// Kinds of key material.
#[derive(Clone, Copy, Debug, PartialEq, Eq, Structural)]
pub enum KeyType {
    RawData,
    Aes,
    RsaKeyPair,
    RsaPublicKey,
    EccKeyPair,
    EccPublicKey,
}

/// What a key may be used for.
#[derive(Clone, Copy, Debug, PartialEq, Eq, Structural)]
pub struct UsageFlags {
    pub export: bool,
    pub copy: bool,
    pub cache: bool,
    pub encrypt: bool,
    pub decrypt: bool,
    pub sign_message: bool,
    pub verify_message: bool,
    pub sign_hash: bool,
    pub verify_hash: bool,
    pub derive: bool,
}

/// Usage policy of a key.
#[derive(Clone, Copy, Debug, PartialEq, Eq, Structural)]
pub struct KeyPolicy {
    pub key_usage_flags: UsageFlags,
    pub key_algorithm: Algorithm,
}

/// Attributes of a key.
#[derive(Clone, Copy, Debug, PartialEq, Eq, Structural)]
pub struct KeyAttributes {
    pub key_type: KeyType,
    pub key_bits: u32,
    pub key_policy: KeyPolicy,
}

} // verus!
