//! Wire messages for key attributes, their conversion to and from the native
//! types, and their field-tagged byte encoding.
use crate::operations::algorithm::{self, Algorithm, AsymmetricSignature};
use crate::operations::key_attributes::{KeyAttributes, KeyPolicy, KeyType, UsageFlags};
use crate::wire::{
    field, get_field, get_opt_field, lemma_scalar_payloads, lemma_take_field, lemma_take_opt_field,
    opt_field, put_field, put_u32, read_u32, take_field, take_opt_field, u32_of_payload, u32_payload,
};
use vstd::prelude::*;

verus! {

/// Wire message of an algorithm: a variant code and a hash code.
#[derive(Clone, Copy, Debug, PartialEq, Eq, Structural)]
pub struct AlgorithmProto {
    pub variant: u32,
    pub hash_alg: u32,
}

/// Wire message of a key policy; both sub-messages may be absent on the wire.
#[derive(Clone, Copy, Debug, PartialEq, Eq, Structural)]
pub struct KeyPolicyProto {
    pub key_usage_flags: Option<UsageFlags>,
    pub key_algorithm: Option<AlgorithmProto>,
}

/// Wire message of key attributes; the policy may be absent on the wire.
#[derive(Clone, Copy, Debug, PartialEq, Eq, Structural)]
pub struct KeyAttributesProto {
    pub key_type: u32,
    pub key_bits: u32,
    pub key_policy: Option<KeyPolicyProto>,
}

pub open spec fn key_type_code(k: KeyType) -> u32 {
    match k {
        KeyType::RawData => 0,
        KeyType::Aes => 1,
        KeyType::RsaKeyPair => 2,
        KeyType::RsaPublicKey => 3,
        KeyType::EccKeyPair => 4,
        KeyType::EccPublicKey => 5,
    }
}

pub open spec fn key_type_of_code(c: u32) -> Option<KeyType> {
    if c == 0 {
        Some(KeyType::RawData)
    } else if c == 1 {
        Some(KeyType::Aes)
    } else if c == 2 {
        Some(KeyType::RsaKeyPair)
    } else if c == 3 {
        Some(KeyType::RsaPublicKey)
    } else if c == 4 {
        Some(KeyType::EccKeyPair)
    } else if c == 5 {
        Some(KeyType::EccPublicKey)
    } else {
        None
    }
}

pub open spec fn hash_code(h: algorithm::Hash) -> u32 {
    match h {
        algorithm::Hash::Sha1 => 0,
        algorithm::Hash::Sha224 => 1,
        algorithm::Hash::Sha256 => 2,
        algorithm::Hash::Sha384 => 3,
        algorithm::Hash::Sha512 => 4,
    }
}

pub open spec fn hash_of_code(c: u32) -> Option<algorithm::Hash> {
    if c == 0 {
        Some(algorithm::Hash::Sha1)
    } else if c == 1 {
        Some(algorithm::Hash::Sha224)
    } else if c == 2 {
        Some(algorithm::Hash::Sha256)
    } else if c == 3 {
        Some(algorithm::Hash::Sha384)
    } else if c == 4 {
        Some(algorithm::Hash::Sha512)
    } else {
        None
    }
}

/// Wire message of a native algorithm. `Unspecified` carries hash code 0,
/// which is not read back.
pub open spec fn algorithm_to_proto(a: Algorithm) -> AlgorithmProto {
    match a {
        Algorithm::Unspecified => AlgorithmProto { variant: 0, hash_alg: 0 },
        Algorithm::Hash(h) => AlgorithmProto { variant: 1, hash_alg: hash_code(h) },
        Algorithm::AsymmetricSignature(s) => match s {
            AsymmetricSignature::RsaPkcs1v15Sign { hash_alg } => AlgorithmProto {
                variant: 2,
                hash_alg: hash_code(hash_alg),
            },
            AsymmetricSignature::RsaPss { hash_alg } => AlgorithmProto {
                variant: 3,
                hash_alg: hash_code(hash_alg),
            },
            AsymmetricSignature::Ecdsa { hash_alg } => AlgorithmProto {
                variant: 4,
                hash_alg: hash_code(hash_alg),
            },
        },
    }
}

/// Native algorithm of a wire message; unknown codes give `None`.
pub open spec fn algorithm_from_proto(p: AlgorithmProto) -> Option<Algorithm> {
    if p.variant == 0 {
        Some(Algorithm::Unspecified)
    } else {
        match hash_of_code(p.hash_alg) {
            None => None,
            Some(h) => if p.variant == 1 {
                Some(Algorithm::Hash(h))
            } else if p.variant == 2 {
                Some(Algorithm::AsymmetricSignature(AsymmetricSignature::RsaPkcs1v15Sign { hash_alg: h }))
            } else if p.variant == 3 {
                Some(Algorithm::AsymmetricSignature(AsymmetricSignature::RsaPss { hash_alg: h }))
            } else if p.variant == 4 {
                Some(Algorithm::AsymmetricSignature(AsymmetricSignature::Ecdsa { hash_alg: h }))
            } else {
                None
            },
        }
    }
}

pub open spec fn attributes_to_proto(a: KeyAttributes) -> KeyAttributesProto {
    KeyAttributesProto {
        key_type: key_type_code(a.key_type),
        key_bits: a.key_bits,
        key_policy: Some(
            KeyPolicyProto {
                key_usage_flags: Some(a.key_policy.key_usage_flags),
                key_algorithm: Some(algorithm_to_proto(a.key_policy.key_algorithm)),
            },
        ),
    }
}

/// Native attributes of a wire message: every sub-message must be present
/// and every code known.
pub open spec fn attributes_from_proto(p: KeyAttributesProto) -> Option<KeyAttributes> {
    match (key_type_of_code(p.key_type), p.key_policy) {
        (Some(key_type), Some(pol)) => match (pol.key_usage_flags, pol.key_algorithm) {
            (Some(flags), Some(alg)) => match algorithm_from_proto(alg) {
                Some(key_algorithm) => Some(
                    KeyAttributes {
                        key_type,
                        key_bits: p.key_bits,
                        key_policy: KeyPolicy { key_usage_flags: flags, key_algorithm },
                    },
                ),
                None => None,
            },
            _ => None,
        },
        _ => None,
    }
}

/// Attributes survive the trip through their wire message.
pub proof fn lemma_attributes_proto_round_trip(a: KeyAttributes)
    ensures
        attributes_from_proto(attributes_to_proto(a)) == Some(a),
{
}

fn key_type_to_code(k: KeyType) -> (r: u32)
    ensures
        r == key_type_code(k),
{
    match k {
        KeyType::RawData => 0,
        KeyType::Aes => 1,
        KeyType::RsaKeyPair => 2,
        KeyType::RsaPublicKey => 3,
        KeyType::EccKeyPair => 4,
        KeyType::EccPublicKey => 5,
    }
}

fn key_type_from_code(c: u32) -> (r: Option<KeyType>)
    ensures
        r == key_type_of_code(c),
{
    if c == 0 {
        Some(KeyType::RawData)
    } else if c == 1 {
        Some(KeyType::Aes)
    } else if c == 2 {
        Some(KeyType::RsaKeyPair)
    } else if c == 3 {
        Some(KeyType::RsaPublicKey)
    } else if c == 4 {
        Some(KeyType::EccKeyPair)
    } else if c == 5 {
        Some(KeyType::EccPublicKey)
    } else {
        None
    }
}

fn hash_to_code(h: algorithm::Hash) -> (r: u32)
    ensures
        r == hash_code(h),
{
    match h {
        algorithm::Hash::Sha1 => 0,
        algorithm::Hash::Sha224 => 1,
        algorithm::Hash::Sha256 => 2,
        algorithm::Hash::Sha384 => 3,
        algorithm::Hash::Sha512 => 4,
    }
}

fn hash_from_code(c: u32) -> (r: Option<algorithm::Hash>)
    ensures
        r == hash_of_code(c),
{
    if c == 0 {
        Some(algorithm::Hash::Sha1)
    } else if c == 1 {
        Some(algorithm::Hash::Sha224)
    } else if c == 2 {
        Some(algorithm::Hash::Sha256)
    } else if c == 3 {
        Some(algorithm::Hash::Sha384)
    } else if c == 4 {
        Some(algorithm::Hash::Sha512)
    } else {
        None
    }
}

fn algorithm_into_proto(a: Algorithm) -> (r: AlgorithmProto)
    ensures
        r == algorithm_to_proto(a),
{
    match a {
        Algorithm::Unspecified => AlgorithmProto { variant: 0, hash_alg: 0 },
        Algorithm::Hash(h) => AlgorithmProto { variant: 1, hash_alg: hash_to_code(h) },
        Algorithm::AsymmetricSignature(s) => match s {
            AsymmetricSignature::RsaPkcs1v15Sign { hash_alg } => AlgorithmProto {
                variant: 2,
                hash_alg: hash_to_code(hash_alg),
            },
            AsymmetricSignature::RsaPss { hash_alg } => AlgorithmProto {
                variant: 3,
                hash_alg: hash_to_code(hash_alg),
            },
            AsymmetricSignature::Ecdsa { hash_alg } => AlgorithmProto {
                variant: 4,
                hash_alg: hash_to_code(hash_alg),
            },
        },
    }
}

fn algorithm_from_wire(p: AlgorithmProto) -> (r: Option<Algorithm>)
    ensures
        r == algorithm_from_proto(p),
{
    if p.variant == 0 {
        return Some(Algorithm::Unspecified);
    }
    let h = match hash_from_code(p.hash_alg) {
        Some(h) => h,
        None => return None,
    };
    if p.variant == 1 {
        Some(Algorithm::Hash(h))
    } else if p.variant == 2 {
        Some(Algorithm::AsymmetricSignature(AsymmetricSignature::RsaPkcs1v15Sign { hash_alg: h }))
    } else if p.variant == 3 {
        Some(Algorithm::AsymmetricSignature(AsymmetricSignature::RsaPss { hash_alg: h }))
    } else if p.variant == 4 {
        Some(Algorithm::AsymmetricSignature(AsymmetricSignature::Ecdsa { hash_alg: h }))
    } else {
        None
    }
}

impl KeyAttributesProto {
    /// The wire message of native key attributes, with every sub-message
    /// present.
    pub fn from_native(a: KeyAttributes) -> (r: KeyAttributesProto)
        ensures
            r == attributes_to_proto(a),
    {
        KeyAttributesProto {
            key_type: key_type_to_code(a.key_type),
            key_bits: a.key_bits,
            key_policy: Some(
                KeyPolicyProto {
                    key_usage_flags: Some(a.key_policy.key_usage_flags),
                    key_algorithm: Some(algorithm_into_proto(a.key_policy.key_algorithm)),
                },
            ),
        }
    }

    /// The native attributes of this wire message, or `None` where a
    /// sub-message is absent or a code unknown.
    pub fn to_native(&self) -> (r: Option<KeyAttributes>)
        ensures
            r == attributes_from_proto(*self),
    {
        let key_type = match key_type_from_code(self.key_type) {
            Some(k) => k,
            None => return None,
        };
        let pol = match self.key_policy {
            Some(p) => p,
            None => return None,
        };
        let flags = match pol.key_usage_flags {
            Some(f) => f,
            None => return None,
        };
        let alg = match pol.key_algorithm {
            Some(a) => a,
            None => return None,
        };
        match algorithm_from_wire(alg) {
            Some(key_algorithm) => Some(
                KeyAttributes {
                    key_type,
                    key_bits: self.key_bits,
                    key_policy: KeyPolicy { key_usage_flags: flags, key_algorithm },
                },
            ),
            None => None,
        }
    }
}

pub open spec fn flag_byte(b: bool) -> u8 {
    if b {
        1
    } else {
        0
    }
}

/// Usage flags travel as ten bytes, one per flag, each 0 or 1.
pub open spec fn flags_payload(f: UsageFlags) -> Seq<u8> {
    seq![
        flag_byte(f.export),
        flag_byte(f.copy),
        flag_byte(f.cache),
        flag_byte(f.encrypt),
        flag_byte(f.decrypt),
        flag_byte(f.sign_message),
        flag_byte(f.verify_message),
        flag_byte(f.sign_hash),
        flag_byte(f.verify_hash),
        flag_byte(f.derive),
    ]
}

pub open spec fn flags_of_payload(p: Seq<u8>) -> Option<UsageFlags> {
    if p.len() == 10 && p[0] <= 1 && p[1] <= 1 && p[2] <= 1 && p[3] <= 1 && p[4] <= 1 && p[5] <= 1
        && p[6] <= 1 && p[7] <= 1 && p[8] <= 1 && p[9] <= 1 {
        Some(
            UsageFlags {
                export: p[0] == 1,
                copy: p[1] == 1,
                cache: p[2] == 1,
                encrypt: p[3] == 1,
                decrypt: p[4] == 1,
                sign_message: p[5] == 1,
                verify_message: p[6] == 1,
                sign_hash: p[7] == 1,
                verify_hash: p[8] == 1,
                derive: p[9] == 1,
            },
        )
    } else {
        None
    }
}

/// Bytes of an algorithm message.
pub open spec fn algorithm_bytes(a: AlgorithmProto) -> Seq<u8> {
    field(1, u32_payload(a.variant)) + field(2, u32_payload(a.hash_alg))
}

pub open spec fn algorithm_of_bytes(s: Seq<u8>) -> Option<AlgorithmProto> {
    match take_field(s, 1) {
        None => None,
        Some((p1, r1)) => match take_field(r1, 2) {
            None => None,
            Some((p2, r2)) => match (u32_of_payload(p1), u32_of_payload(p2)) {
                (Some(variant), Some(hash_alg)) => if r2.len() == 0 {
                    Some(AlgorithmProto { variant, hash_alg })
                } else {
                    None
                },
                _ => None,
            },
        },
    }
}

pub open spec fn opt_flags_payload(f: Option<UsageFlags>) -> Option<Seq<u8>> {
    match f {
        Some(f) => Some(flags_payload(f)),
        None => None,
    }
}

pub open spec fn opt_algorithm_bytes(a: Option<AlgorithmProto>) -> Option<Seq<u8>> {
    match a {
        Some(a) => Some(algorithm_bytes(a)),
        None => None,
    }
}

pub open spec fn opt_flags_of(o: Option<Seq<u8>>) -> Option<Option<UsageFlags>> {
    match o {
        None => Some(None),
        Some(p) => match flags_of_payload(p) {
            Some(f) => Some(Some(f)),
            None => None,
        },
    }
}

pub open spec fn opt_algorithm_of(o: Option<Seq<u8>>) -> Option<Option<AlgorithmProto>> {
    match o {
        None => Some(None),
        Some(p) => match algorithm_of_bytes(p) {
            Some(a) => Some(Some(a)),
            None => None,
        },
    }
}

/// Bytes of a key policy message.
pub open spec fn policy_bytes(p: KeyPolicyProto) -> Seq<u8> {
    opt_field(1, opt_flags_payload(p.key_usage_flags)) + opt_field(
        2,
        opt_algorithm_bytes(p.key_algorithm),
    )
}

pub open spec fn policy_of_bytes(s: Seq<u8>) -> Option<KeyPolicyProto> {
    match take_opt_field(s, 1) {
        None => None,
        Some((o1, r1)) => match take_opt_field(r1, 2) {
            None => None,
            Some((o2, r2)) => match (opt_flags_of(o1), opt_algorithm_of(o2)) {
                (Some(key_usage_flags), Some(key_algorithm)) => if r2.len() == 0 {
                    Some(KeyPolicyProto { key_usage_flags, key_algorithm })
                } else {
                    None
                },
                _ => None,
            },
        },
    }
}

pub open spec fn opt_policy_bytes(p: Option<KeyPolicyProto>) -> Option<Seq<u8>> {
    match p {
        Some(p) => Some(policy_bytes(p)),
        None => None,
    }
}

pub open spec fn opt_policy_of(o: Option<Seq<u8>>) -> Option<Option<KeyPolicyProto>> {
    match o {
        None => Some(None),
        Some(p) => match policy_of_bytes(p) {
            Some(q) => Some(Some(q)),
            None => None,
        },
    }
}

/// Bytes of a key attributes message.
pub open spec fn attributes_bytes(a: KeyAttributesProto) -> Seq<u8> {
    field(1, u32_payload(a.key_type)) + (field(2, u32_payload(a.key_bits)) + opt_field(
        3,
        opt_policy_bytes(a.key_policy),
    ))
}

pub open spec fn attributes_of_bytes(s: Seq<u8>) -> Option<KeyAttributesProto> {
    match take_field(s, 1) {
        None => None,
        Some((p1, r1)) => match take_field(r1, 2) {
            None => None,
            Some((p2, r2)) => match take_opt_field(r2, 3) {
                None => None,
                Some((o3, r3)) => match (u32_of_payload(p1), u32_of_payload(p2), opt_policy_of(o3)) {
                    (Some(key_type), Some(key_bits), Some(key_policy)) => if r3.len() == 0 {
                        Some(KeyAttributesProto { key_type, key_bits, key_policy })
                    } else {
                        None
                    },
                    _ => None,
                },
            },
        },
    }
}

proof fn lemma_algorithm_bytes(a: AlgorithmProto)
    ensures
        algorithm_of_bytes(algorithm_bytes(a)) == Some(a),
        algorithm_bytes(a).len() == 18,
{
    lemma_scalar_payloads(a.variant, true);
    lemma_scalar_payloads(a.hash_alg, true);
    let f2 = field(2, u32_payload(a.hash_alg));
    lemma_take_field(1, u32_payload(a.variant), f2);
    lemma_take_field(2, u32_payload(a.hash_alg), Seq::empty());
    assert(f2 + Seq::<u8>::empty() =~= f2);
}

proof fn lemma_policy_bytes(p: KeyPolicyProto)
    ensures
        policy_of_bytes(policy_bytes(p)) == Some(p),
        policy_bytes(p).len() <= 38,
{
    match p.key_algorithm {
        Some(a) => lemma_algorithm_bytes(a),
        None => {},
    }
    match p.key_usage_flags {
        Some(f) => {
            let fp = flags_payload(f);
            assert(flags_of_payload(fp) == Some(f));
        },
        None => {},
    }
    let o2 = opt_field(2, opt_algorithm_bytes(p.key_algorithm));
    if p.key_algorithm is Some {
        lemma_take_field(2, algorithm_bytes(p.key_algorithm->Some_0), Seq::empty());
        assert(o2 + Seq::<u8>::empty() =~= o2);
    }
    lemma_take_opt_field(1, opt_flags_payload(p.key_usage_flags), o2);
    lemma_take_opt_field(2, opt_algorithm_bytes(p.key_algorithm), Seq::empty());
    assert(o2 + Seq::<u8>::empty() =~= o2);
}

/// Key attribute messages are read back from their bytes as written.
pub proof fn lemma_attributes_bytes(a: KeyAttributesProto)
    ensures
        attributes_of_bytes(attributes_bytes(a)) == Some(a),
        attributes_bytes(a).len() <= 61,
{
    lemma_scalar_payloads(a.key_type, true);
    lemma_scalar_payloads(a.key_bits, true);
    match a.key_policy {
        Some(p) => lemma_policy_bytes(p),
        None => {},
    }
    let o3 = opt_field(3, opt_policy_bytes(a.key_policy));
    let f2 = field(2, u32_payload(a.key_bits));
    lemma_take_field(1, u32_payload(a.key_type), f2 + o3);
    lemma_take_field(2, u32_payload(a.key_bits), o3);
    lemma_take_opt_field(3, opt_policy_bytes(a.key_policy), Seq::empty());
    assert(o3 + Seq::<u8>::empty() =~= o3);
}

fn flags_to_payload(f: UsageFlags) -> (v: Vec<u8>)
    ensures
        v@ == flags_payload(f),
{
    let v: Vec<u8> = vec![
        if f.export { 1u8 } else { 0u8 },
        if f.copy { 1u8 } else { 0u8 },
        if f.cache { 1u8 } else { 0u8 },
        if f.encrypt { 1u8 } else { 0u8 },
        if f.decrypt { 1u8 } else { 0u8 },
        if f.sign_message { 1u8 } else { 0u8 },
        if f.verify_message { 1u8 } else { 0u8 },
        if f.sign_hash { 1u8 } else { 0u8 },
        if f.verify_hash { 1u8 } else { 0u8 },
        if f.derive { 1u8 } else { 0u8 },
    ];
    assert(v@ =~= flags_payload(f));
    v
}

fn flags_from_payload(p: &[u8]) -> (r: Option<UsageFlags>)
    ensures
        r == flags_of_payload(p@),
{
    if p.len() == 10 && p[0] <= 1 && p[1] <= 1 && p[2] <= 1 && p[3] <= 1 && p[4] <= 1 && p[5] <= 1
        && p[6] <= 1 && p[7] <= 1 && p[8] <= 1 && p[9] <= 1 {
        Some(
            UsageFlags {
                export: p[0] == 1,
                copy: p[1] == 1,
                cache: p[2] == 1,
                encrypt: p[3] == 1,
                decrypt: p[4] == 1,
                sign_message: p[5] == 1,
                verify_message: p[6] == 1,
                sign_hash: p[7] == 1,
                verify_hash: p[8] == 1,
                derive: p[9] == 1,
            },
        )
    } else {
        None
    }
}

fn encode_algorithm(a: &AlgorithmProto, out: &mut Vec<u8>)
    ensures
        final(out)@ == old(out)@ + algorithm_bytes(*a),
{
    put_u32(out, 1, a.variant);
    put_u32(out, 2, a.hash_alg);
    assert(final(out)@ =~= old(out)@ + algorithm_bytes(*a));
}

fn decode_algorithm(s: &[u8]) -> (r: Option<AlgorithmProto>)
    ensures
        r == algorithm_of_bytes(s@),
{
    let (p1, r1) = match get_field(s, 1) {
        Some(x) => x,
        None => return None,
    };
    let (p2, r2) = match get_field(r1, 2) {
        Some(x) => x,
        None => return None,
    };
    match (read_u32(p1), read_u32(p2)) {
        (Some(variant), Some(hash_alg)) => if r2.len() == 0 {
            Some(AlgorithmProto { variant, hash_alg })
        } else {
            None
        },
        _ => None,
    }
}

fn encode_policy(p: &KeyPolicyProto, out: &mut Vec<u8>)
    ensures
        final(out)@ == old(out)@ + policy_bytes(*p),
{
    match p.key_usage_flags {
        Some(f) => {
            let v = flags_to_payload(f);
            put_field(out, 1, v.as_slice());
        },
        None => {},
    }
    match p.key_algorithm {
        Some(a) => {
            proof {
                lemma_algorithm_bytes(a);
            }
            let mut v: Vec<u8> = Vec::new();
            encode_algorithm(&a, &mut v);
            assert(v@ =~= algorithm_bytes(a));
            put_field(out, 2, v.as_slice());
        },
        None => {},
    }
    assert(final(out)@ =~= old(out)@ + policy_bytes(*p));
}

fn decode_policy(s: &[u8]) -> (r: Option<KeyPolicyProto>)
    ensures
        r == policy_of_bytes(s@),
{
    let (o1, r1) = match get_opt_field(s, 1) {
        Some(x) => x,
        None => return None,
    };
    let (o2, r2) = match get_opt_field(r1, 2) {
        Some(x) => x,
        None => return None,
    };
    let key_usage_flags = match o1 {
        None => None,
        Some(p) => match flags_from_payload(p) {
            Some(f) => Some(f),
            None => return None,
        },
    };
    let key_algorithm = match o2 {
        None => None,
        Some(p) => match decode_algorithm(p) {
            Some(a) => Some(a),
            None => return None,
        },
    };
    if r2.len() == 0 {
        Some(KeyPolicyProto { key_usage_flags, key_algorithm })
    } else {
        None
    }
}

impl KeyAttributesProto {
    /// Appends the bytes of this message to `out`.
    pub fn encode(&self, out: &mut Vec<u8>)
        ensures
            final(out)@ == old(out)@ + attributes_bytes(*self),
    {
        put_u32(out, 1, self.key_type);
        put_u32(out, 2, self.key_bits);
        match self.key_policy {
            Some(p) => {
                proof {
                    lemma_policy_bytes(p);
                }
                let mut v: Vec<u8> = Vec::new();
                encode_policy(&p, &mut v);
                assert(v@ =~= policy_bytes(p));
                put_field(out, 3, v.as_slice());
            },
            None => {},
        }
        assert(final(out)@ =~= old(out)@ + attributes_bytes(*self));
    }

    /// Reads a whole message from `s`.
    pub fn decode(s: &[u8]) -> (r: Option<KeyAttributesProto>)
        ensures
            r == attributes_of_bytes(s@),
    {
        let (p1, r1) = match get_field(s, 1) {
            Some(x) => x,
            None => return None,
        };
        let (p2, r2) = match get_field(r1, 2) {
            Some(x) => x,
            None => return None,
        };
        let (o3, r3) = match get_opt_field(r2, 3) {
            Some(x) => x,
            None => return None,
        };
        let key_type = match read_u32(p1) {
            Some(x) => x,
            None => return None,
        };
        let key_bits = match read_u32(p2) {
            Some(x) => x,
            None => return None,
        };
        let key_policy = match o3 {
            None => None,
            Some(p) => match decode_policy(p) {
                Some(q) => Some(q),
                None => return None,
            },
        };
        if r3.len() == 0 {
            Some(KeyAttributesProto { key_type, key_bits, key_policy })
        } else {
            None
        }
    }
}

} // verus!
