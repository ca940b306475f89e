use parsec_interface::message::{read_request, write_request};
use parsec_interface::operations::destroy_key::{Operation, Result as DestroyKeyResult};
use parsec_interface::operations::{NativeOperation, NativeResult};
use parsec_interface::protobuf::destroy_key::OperationProto;
use parsec_interface::protobuf::ProtobufConverter;
use parsec_interface::requests::{Opcode, ResponseStatus};
use parsec_interface::response_header::ResponseHeader;

#[test]
fn destroy_key_body_layout_and_round_trip() {
    let c = ProtobufConverter {};
    let body = c
        .operation_to_body(NativeOperation::DestroyKey(Operation {
            key_name: "k1".to_string(),
        }))
        .expect("body");
    assert_eq!(body, vec![1, 2, 0, 0, 0, b'k', b'1']);
    match c.body_to_operation(&body, Opcode::DestroyKey) {
        Ok(NativeOperation::DestroyKey(o)) => assert_eq!(o.key_name, "k1"),
        other => panic!("unexpected {:?}", other),
    }
}

#[test]
fn destroy_key_trailing_bytes_fail_to_deserialize() {
    let c = ProtobufConverter {};
    let body = vec![1u8, 1, 0, 0, 0, b'k', 9];
    assert_eq!(
        c.body_to_operation(&body, Opcode::DestroyKey).err(),
        Some(ResponseStatus::DeserializingBodyFailed)
    );
    assert!(OperationProto::decode(&body).is_none());
}

#[test]
fn destroy_key_full_request_path() {
    let op = NativeOperation::DestroyKey(Operation {
        key_name: "old key".to_string(),
    });
    let bytes = write_request(ResponseHeader::new(), op).expect("write");
    assert_eq!(bytes.len(), 26 + 12);
    let (h, back) = read_request(&bytes).expect("read");
    assert_eq!(h.opcode, Opcode::DestroyKey);
    match back {
        NativeOperation::DestroyKey(o) => assert_eq!(o.key_name, "old key"),
        other => panic!("unexpected {:?}", other),
    }
}

#[test]
fn destroy_key_result_has_empty_body() {
    let c = ProtobufConverter {};
    let body = c.result_to_body(NativeResult::DestroyKey(DestroyKeyResult {}));
    assert!(body.is_empty());
    assert_eq!(
        c.body_to_result(&body, Opcode::DestroyKey),
        Ok(NativeResult::DestroyKey(DestroyKeyResult {}))
    );
    assert_eq!(
        c.body_to_result(&[1u8], Opcode::DestroyKey),
        Err(ResponseStatus::DeserializingBodyFailed)
    );
}

#[test]
fn destroy_key_opcode_code() {
    assert_eq!(Opcode::DestroyKey.code(), 3);
    assert_eq!(Opcode::from_code(3), Some(Opcode::DestroyKey));
}
