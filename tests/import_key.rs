use parsec_interface::operations::algorithm::{self, Algorithm, AsymmetricSignature};
use parsec_interface::operations::import_key::{Operation, Result as ImportKeyResult};
use parsec_interface::operations::key_attributes::{KeyAttributes, KeyPolicy, KeyType, UsageFlags};
use parsec_interface::operations::{NativeOperation, NativeResult};
use parsec_interface::protobuf::import_key::{OperationProto, ResultProto};
use parsec_interface::protobuf::key_attributes::{
    AlgorithmProto, KeyAttributesProto, KeyPolicyProto,
};
use parsec_interface::protobuf::ProtobufConverter;
use parsec_interface::requests::{Opcode, ResponseStatus};

const CONVERTER: ProtobufConverter = ProtobufConverter {};

fn all_flags() -> UsageFlags {
    UsageFlags {
        export: true,
        copy: true,
        cache: true,
        encrypt: true,
        decrypt: true,
        sign_message: true,
        verify_message: true,
        sign_hash: true,
        verify_hash: true,
        derive: true,
    }
}

fn get_key_attrs() -> KeyAttributes {
    KeyAttributes {
        key_type: KeyType::RsaKeyPair,
        key_bits: 1024,
        key_policy: KeyPolicy {
            key_usage_flags: all_flags(),
            key_algorithm: Algorithm::AsymmetricSignature(AsymmetricSignature::RsaPkcs1v15Sign {
                hash_alg: algorithm::Hash::Sha1,
            }),
        },
    }
}

fn get_key_attrs_proto() -> KeyAttributesProto {
    KeyAttributesProto {
        key_type: 2,
        key_bits: 1024,
        key_policy: Some(KeyPolicyProto {
            key_usage_flags: Some(all_flags()),
            key_algorithm: Some(AlgorithmProto {
                variant: 2,
                hash_alg: 0,
            }),
        }),
    }
}

#[test]
fn import_key_op_from_proto() {
    let name = "test name".to_string();
    let key_data = vec![0x11, 0x22, 0x33];
    let proto = OperationProto {
        key_name: name.clone(),
        attributes: Some(get_key_attrs_proto()),
        data: key_data.clone(),
    };

    let op = Operation::try_from_proto(proto).expect("Failed conversion");
    assert_eq!(op.key_name, name);
    assert_eq!(op.data, key_data);
}

#[test]
fn import_key_op_to_proto() {
    let name = "test name".to_string();
    let key_data = vec![0x11, 0x22, 0x33];
    let op = Operation {
        key_name: name.clone(),
        attributes: get_key_attrs(),
        data: key_data.clone(),
    };

    let proto = OperationProto::from_native(op);
    assert_eq!(proto.key_name, name);
    assert_eq!(proto.data, key_data);
}

#[test]
fn import_key_res_from_proto() {
    let proto = ResultProto {};
    let _res: ImportKeyResult = ImportKeyResult::from_proto(proto);
}

#[test]
fn import_key_res_to_proto() {
    let res = ImportKeyResult {};
    let _proto: ResultProto = ResultProto::from_native(res);
}

#[test]
fn import_key_op_e2e() {
    let name = "test name".to_string();
    let op = Operation {
        key_name: name,
        attributes: get_key_attrs(),
        data: vec![0x11, 0x22, 0x33],
    };

    let body = CONVERTER
        .operation_to_body(NativeOperation::ImportKey(op))
        .expect("Failed to convert to body");

    let _ = CONVERTER
        .body_to_operation(&body, Opcode::ImportKey)
        .expect("Failed to convert to operation");
}

#[test]
fn import_key_attributes_converted_from_proto() {
    let attrs = get_key_attrs_proto().to_native().expect("attributes");
    assert_eq!(attrs, get_key_attrs());
    assert_eq!(KeyAttributesProto::from_native(get_key_attrs()), get_key_attrs_proto());
}

#[test]
fn import_key_body_round_trip_keeps_every_field() {
    let op = Operation {
        key_name: "clé".to_string(),
        attributes: get_key_attrs(),
        data: vec![0x11, 0x22, 0x33],
    };
    let body = CONVERTER
        .operation_to_body(NativeOperation::ImportKey(op))
        .expect("body");
    match CONVERTER.body_to_operation(&body, Opcode::ImportKey) {
        Ok(NativeOperation::ImportKey(back)) => {
            assert_eq!(back.key_name, "clé");
            assert_eq!(back.attributes, get_key_attrs());
            assert_eq!(back.data, vec![0x11, 0x22, 0x33]);
        }
        other => panic!("unexpected {:?}", other),
    }
}

#[test]
fn import_key_body_layout() {
    let op = Operation {
        key_name: "ab".to_string(),
        attributes: get_key_attrs(),
        data: vec![0x33],
    };
    let body = CONVERTER
        .operation_to_body(NativeOperation::ImportKey(op))
        .expect("body");
    assert_eq!(&body[0..7], &[1, 2, 0, 0, 0, b'a', b'b']);
    assert_eq!(&body[body.len() - 6..], &[3, 1, 0, 0, 0, 0x33]);
}

#[test]
fn import_key_missing_attributes_is_invalid_encoding() {
    let proto = OperationProto {
        key_name: "test name".to_string(),
        attributes: None,
        data: vec![0x11, 0x22, 0x33],
    };
    let body = proto.encode().expect("encode");
    assert_eq!(
        CONVERTER.body_to_operation(&body, Opcode::ImportKey).err(),
        Some(ResponseStatus::InvalidEncoding)
    );
    assert_eq!(
        Operation::try_from_proto(proto).err(),
        Some(ResponseStatus::InvalidEncoding)
    );
}

#[test]
fn import_key_missing_policy_is_invalid_encoding() {
    let mut attrs = get_key_attrs_proto();
    attrs.key_policy = None;
    let proto = OperationProto {
        key_name: "k".to_string(),
        attributes: Some(attrs),
        data: vec![],
    };
    let body = proto.encode().expect("encode");
    assert_eq!(
        CONVERTER.body_to_operation(&body, Opcode::ImportKey).err(),
        Some(ResponseStatus::InvalidEncoding)
    );
}

#[test]
fn import_key_invalid_utf8_name_fails_to_deserialize() {
    let body = vec![1u8, 2, 0, 0, 0, 0xff, 0xfe, 3, 0, 0, 0, 0];
    assert_eq!(
        CONVERTER.body_to_operation(&body, Opcode::ImportKey).err(),
        Some(ResponseStatus::DeserializingBodyFailed)
    );
}

#[test]
fn import_key_truncated_body_fails_to_deserialize() {
    let body = vec![1u8, 9, 0, 0, 0, b'a'];
    assert_eq!(
        CONVERTER.body_to_operation(&body, Opcode::ImportKey).err(),
        Some(ResponseStatus::DeserializingBodyFailed)
    );
}

#[test]
fn import_key_result_round_trip() {
    let body = CONVERTER.result_to_body(NativeResult::ImportKey(ImportKeyResult {}));
    assert!(body.is_empty());
    assert_eq!(
        CONVERTER.body_to_result(&body, Opcode::ImportKey),
        Ok(NativeResult::ImportKey(ImportKeyResult {}))
    );
}
