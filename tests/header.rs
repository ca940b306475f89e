use parsec_interface::message::{read_request, write_request};
use parsec_interface::operations::algorithm::{self, Algorithm};
use parsec_interface::operations::import_key::Operation;
use parsec_interface::operations::key_attributes::{KeyAttributes, KeyPolicy, KeyType, UsageFlags};
use parsec_interface::operations::ping;
use parsec_interface::operations::{NativeOperation, NativeResult};
use parsec_interface::protobuf::ProtobufConverter;
use parsec_interface::requests::{BodyType, Opcode, ProviderID, ResponseStatus};
use parsec_interface::response_header::{read_header, write_header, Raw, ResponseHeader};

fn sample_header() -> ResponseHeader {
    ResponseHeader {
        version_maj: 1,
        version_min: 0,
        provider: ProviderID::MbedCrypto,
        session: 0x0102_0304_0506_0708,
        content_type: BodyType::Protobuf,
        opcode: Opcode::ImportKey,
        status: ResponseStatus::KeyDoesNotExist,
    }
}

fn good_frame() -> Vec<u8> {
    write_header(sample_header(), 3)
}

#[test]
fn raw_new_is_all_zero() {
    let r = Raw::new();
    assert_eq!(r.version_maj, 0);
    assert_eq!(r.session, 0);
    assert_eq!(r.body_len, 0);
    assert_eq!(r.status, 0);
}

#[test]
fn response_header_new_defaults() {
    let h = ResponseHeader::new();
    assert_eq!(h.version_maj, 1);
    assert_eq!(h.version_min, 0);
    assert_eq!(h.provider, ProviderID::Core);
    assert_eq!(h.opcode, Opcode::Ping);
    assert_eq!(h.status, ResponseStatus::Success);
}

#[test]
fn frame_layout_is_little_endian() {
    let f = good_frame();
    assert_eq!(
        f,
        vec![
            0x10, 0xA7, 0xC0, 0x5E, 20, 0, 1, 0, 1, 8, 7, 6, 5, 4, 3, 2, 1, 0, 3, 0, 0, 0, 6, 0,
            12, 0
        ]
    );
}

#[test]
fn header_write_then_read() {
    let f = good_frame();
    assert_eq!(read_header(&f), Ok((sample_header(), 3)));
    let f2 = write_header(sample_header(), 0xDEAD_BEEF);
    assert_eq!(read_header(&f2), Ok((sample_header(), 0xDEAD_BEEF)));
}

#[test]
fn raw_frame_round_trip() {
    let mut raw = Raw::from_header(sample_header());
    assert_eq!(raw.body_len, 0);
    raw.body_len = 77;
    let f = raw.to_frame();
    assert_eq!(f.len(), 26);
    let back = Raw::from_stream_bytes(&f).expect("raw");
    assert_eq!(back, raw);
    assert_eq!(ResponseHeader::try_from_raw(back), Ok(sample_header()));
}

#[test]
fn bad_magic_is_malformed_header() {
    let mut f = good_frame();
    f[3] = 0x5F;
    assert_eq!(read_header(&f), Err(ResponseStatus::InvalidHeader));
}

#[test]
fn zero_magic_is_malformed_header_after_six_bytes() {
    let s = vec![0u8, 0, 0, 0, 20, 0];
    assert_eq!(read_header(&s), Err(ResponseStatus::InvalidHeader));
    assert_eq!(Raw::check_preamble(&s), Err(ResponseStatus::InvalidHeader));
    let mut longer = s.clone();
    longer.extend_from_slice(&good_frame());
    assert_eq!(read_header(&longer), Err(ResponseStatus::InvalidHeader));
}

#[test]
fn bad_header_size_is_malformed_header() {
    let mut f = good_frame();
    f[4] = 22;
    assert_eq!(read_header(&f), Err(ResponseStatus::InvalidHeader));
}

#[test]
fn bad_version_is_unsupported() {
    let mut f = good_frame();
    f[6] = 2;
    assert_eq!(
        read_header(&f),
        Err(ResponseStatus::WireProtocolVersionNotSupported)
    );
    let mut g = good_frame();
    g[7] = 1;
    assert_eq!(
        read_header(&g),
        Err(ResponseStatus::WireProtocolVersionNotSupported)
    );
}

#[test]
fn bad_magic_and_bad_version_reports_malformed_header() {
    let mut f = good_frame();
    f[0] = 0;
    f[6] = 9;
    assert_eq!(read_header(&f), Err(ResponseStatus::InvalidHeader));
}

#[test]
fn short_streams_are_connection_errors() {
    let f = good_frame();
    assert_eq!(read_header(&f[..4]), Err(ResponseStatus::ConnectionError));
    assert_eq!(read_header(&f[..25]), Err(ResponseStatus::ConnectionError));
    assert_eq!(Raw::check_preamble(&f[..6]), Ok(20));
}

#[test]
fn unknown_codes_reported_in_field_order() {
    let mut f = good_frame();
    f[8] = 9; // provider
    f[17] = 9; // content type
    assert_eq!(read_header(&f), Err(ResponseStatus::ProviderDoesNotExist));
    f[8] = 0;
    assert_eq!(read_header(&f), Err(ResponseStatus::ContentTypeNotSupported));
    f[17] = 0;
    f[22] = 99; // opcode
    f[24] = 200; // status
    assert_eq!(read_header(&f), Err(ResponseStatus::OpcodeDoesNotExist));
    f[22] = 1;
    assert_eq!(read_header(&f), Err(ResponseStatus::InvalidEncoding));
}

#[test]
fn enumeration_codes_round_trip() {
    assert_eq!(ProviderID::from_code(ProviderID::Tpm.code()), Some(ProviderID::Tpm));
    assert_eq!(ProviderID::from_code(4), None);
    assert_eq!(BodyType::from_code(1), None);
    assert_eq!(Opcode::ImportKey.code(), 6);
    assert_eq!(Opcode::from_code(6), Some(Opcode::ImportKey));
    assert_eq!(Opcode::from_code(0), None);
    assert_eq!(ResponseStatus::InvalidHeader.code(), 16);
    assert_eq!(ResponseStatus::from_code(16), Some(ResponseStatus::InvalidHeader));
    assert_eq!(ResponseStatus::from_code(17), None);
}

#[test]
fn full_request_path_keeps_name_and_data() {
    let op = Operation {
        key_name: "test name".to_string(),
        attributes: KeyAttributes {
            key_type: KeyType::RsaKeyPair,
            key_bits: 1024,
            key_policy: KeyPolicy {
                key_usage_flags: UsageFlags {
                    export: true,
                    copy: false,
                    cache: true,
                    encrypt: false,
                    decrypt: true,
                    sign_message: true,
                    verify_message: true,
                    sign_hash: true,
                    verify_hash: true,
                    derive: false,
                },
                key_algorithm: Algorithm::Hash(algorithm::Hash::Sha256),
            },
        },
        data: vec![0x11, 0x22, 0x33],
    };
    let mut h = ResponseHeader::new();
    h.session = 42;
    let bytes = write_request(h, NativeOperation::ImportKey(op)).expect("write");
    let (h2, back) = read_request(&bytes).expect("read");
    assert_eq!(h2.session, 42);
    assert_eq!(h2.opcode, Opcode::ImportKey);
    match back {
        NativeOperation::ImportKey(o) => {
            assert_eq!(o.key_name, "test name");
            assert_eq!(o.data, vec![0x11, 0x22, 0x33]);
            assert_eq!(o.attributes.key_bits, 1024);
        }
        other => panic!("unexpected {:?}", other),
    }
}

#[test]
fn truncated_request_body_is_connection_error() {
    let bytes = write_request(ResponseHeader::new(), NativeOperation::Ping(ping::Operation {}))
        .expect("write");
    assert_eq!(bytes.len(), 26);
    let mut h = ResponseHeader::new();
    h.opcode = Opcode::ImportKey;
    let f = write_header(h, 5);
    assert_eq!(read_request(&f).err(), Some(ResponseStatus::ConnectionError));
}

#[test]
fn ping_result_round_trip() {
    let c = ProtobufConverter {};
    let r = NativeResult::Ping(ping::Result {
        wire_protocol_version_maj: 1,
        wire_protocol_version_min: 0,
    });
    let body = c.result_to_body(r);
    assert_eq!(body, vec![1, 4, 0, 0, 0, 1, 0, 0, 0, 2, 4, 0, 0, 0, 0, 0, 0, 0]);
    assert_eq!(c.body_to_result(&body, Opcode::Ping), Ok(r));
}

#[test]
fn ping_result_version_too_large_is_invalid_encoding() {
    let c = ProtobufConverter {};
    let body = vec![1u8, 4, 0, 0, 0, 0, 1, 0, 0, 2, 4, 0, 0, 0, 0, 0, 0, 0];
    assert_eq!(
        c.body_to_result(&body, Opcode::Ping),
        Err(ResponseStatus::InvalidEncoding)
    );
}

#[test]
fn ping_operation_has_empty_body() {
    let c = ProtobufConverter {};
    let body = c
        .operation_to_body(NativeOperation::Ping(ping::Operation {}))
        .expect("body");
    assert!(body.is_empty());
    assert!(matches!(
        c.body_to_operation(&body, Opcode::Ping),
        Ok(NativeOperation::Ping(_))
    ));
    assert_eq!(
        c.body_to_operation(&[0u8], Opcode::Ping).err(),
        Some(ResponseStatus::DeserializingBodyFailed)
    );
}
