use bytes::BytesMut;
use zmtp_core::greeting::{
    encode_signature, encode_v3_tail_post_major, peek_revision, socket_type_code,
    socket_type_name_from_code, NegotiatedVersion, ZmtpGreeting, ZmtpV2Greeting, GREETING_LENGTH,
    V2_GREETING_LENGTH, V2_SOCKET_TYPE_PULL, V2_SOCKET_TYPE_PUSH,
};
use zmtp_core::ZmqError;

#[test]
fn peek_revision_accepts_v2_signature() {
    let buf = [0xff, 0, 0, 0, 0, 0, 0, 0, 0, 0x7f, 0x01];
    assert_eq!(peek_revision(&buf).unwrap(), 0x01);
}

#[test]
fn peek_revision_accepts_v3_signature() {
    let buf = [0xff, 0, 0, 0, 0, 0, 0, 0, 0, 0x7f, 0x03];
    assert_eq!(peek_revision(&buf).unwrap(), 0x03);
}

#[test]
fn peek_revision_rejects_bad_start_byte() {
    let buf = [0xfe, 0, 0, 0, 0, 0, 0, 0, 0, 0x7f, 0x03];
    assert!(peek_revision(&buf).is_err());
}

#[test]
fn peek_revision_rejects_bad_marker_byte() {
    let buf = [0xff, 0, 0, 0, 0, 0, 0, 0, 0, 0x7e, 0x03];
    assert!(peek_revision(&buf).is_err());
}

#[test]
fn peek_revision_requires_enough_bytes() {
    let buf = [0xff, 0, 0, 0, 0, 0, 0, 0, 0, 0x7f]; // only 10 bytes
    assert!(peek_revision(&buf).is_err());
}

#[test]
fn v2_greeting_encodes_to_canonical_bytes() {
    let mut buf = BytesMut::new();
    ZmtpV2Greeting::encode_full(V2_SOCKET_TYPE_PULL, &mut buf);
    assert_eq!(buf.len(), V2_GREETING_LENGTH);
    assert_eq!(
        &buf[..],
        &[0xff, 0, 0, 0, 0, 0, 0, 0, 0, 0x7f, 0x01, 0x07]
    );
}

#[test]
fn v2_greeting_tail_round_trip() {
    let mut buf = BytesMut::new();
    ZmtpV2Greeting::encode_tail(V2_SOCKET_TYPE_PUSH, &mut buf);
    assert_eq!(&buf[..], &[0x01, 0x08]);
    let parsed = ZmtpV2Greeting::decode_tail([buf[0], buf[1]]).unwrap();
    assert_eq!(parsed.revision, 0x01);
    assert_eq!(parsed.socket_type, V2_SOCKET_TYPE_PUSH);
}

#[test]
fn v2_greeting_rejects_wrong_revision() {
    // The revision must be 0x01: neither an unknown later one nor that of
    // ZMTP/3.x is taken.
    assert!(ZmtpV2Greeting::decode_tail([0x02, 0x07]).is_err());
    assert!(ZmtpV2Greeting::decode_tail([0x03, 0x07]).is_err());
}

#[test]
fn socket_type_code_is_inverse_of_name() {
    for name in &[
        "PAIR", "PUB", "SUB", "REQ", "REP", "DEALER", "ROUTER", "PULL", "PUSH",
    ] {
        let code = socket_type_code(name).expect("known socket type");
        assert_eq!(socket_type_name_from_code(code), Some(*name));
    }
    assert_eq!(socket_type_code("UNKNOWN"), None);
    assert_eq!(socket_type_name_from_code(0xff), None);
}

#[test]
fn negotiated_version_branches() {
    assert!(NegotiatedVersion::V2.is_v2());
    assert!(!NegotiatedVersion::V2.is_v3());
    assert!(NegotiatedVersion::V3 { minor: 1 }.is_v3());
    assert!(!NegotiatedVersion::V3 { minor: 1 }.is_v2());
}

#[test]
fn signature_plus_v3_tail_equals_full_v3_encoding() {
    let mech = b"NULL\0\0\0\0\0\0\0\0\0\0\0\0\0\0\0\0";
    let mut full = BytesMut::new();
    ZmtpGreeting::encode(mech, false, &mut full);

    let mut staged = BytesMut::new();
    encode_signature(&mut staged);
    ZmtpGreeting::encode_tail(mech, false, &mut staged);

    assert_eq!(staged.len(), GREETING_LENGTH);
    assert_eq!(&full[..], &staged[..]);
}

const PLAIN: &[u8; 20] = b"PLAIN\0\0\0\0\0\0\0\0\0\0\0\0\0\0\0";

fn greeting_bytes() -> BytesMut {
    let mut bytes = BytesMut::new();
    ZmtpGreeting::encode(PLAIN, true, &mut bytes);
    bytes
}

#[test]
fn prelude_and_the_rest_are_a_whole_greeting() {
    let mut staged = BytesMut::new();
    encode_signature(&mut staged);
    staged.extend_from_slice(&[0x03]);
    encode_v3_tail_post_major(PLAIN, true, &mut staged);
    assert_eq!(&staged[..], &greeting_bytes()[..]);
}

#[test]
fn greeting_is_decoded_and_taken_off_the_buffer() {
    let mut bytes = greeting_bytes();
    bytes.extend_from_slice(&[7, 8, 9]);
    let greeting = ZmtpGreeting::decode(&mut bytes).unwrap().unwrap();
    assert_eq!(greeting.version, (3, 0));
    assert_eq!(&greeting.mechanism, PLAIN);
    assert!(greeting.as_server);
    assert_eq!(greeting.mechanism_name(), "PLAIN");
    assert_eq!(&bytes[..], &[7, 8, 9]);
}

#[test]
fn partial_greeting_is_awaited() {
    let mut bytes = greeting_bytes();
    bytes.truncate(63);
    assert!(ZmtpGreeting::decode(&mut bytes).unwrap().is_none());
    assert_eq!(bytes.len(), 63);
}

fn decode_error(at: usize, byte: u8) -> ZmqError {
    let mut bytes = greeting_bytes();
    bytes[at] = byte;
    let error = ZmtpGreeting::decode(&mut bytes).unwrap_err();
    assert_eq!(bytes.len(), 0);
    error
}

#[test]
fn greeting_errors_name_what_is_wrong() {
    let violation = |text: &str| ZmqError::ProtocolViolation(text.to_string());
    assert_eq!(decode_error(0, 0xfe), violation("Greeting does not start with 0xFF"));
    assert_eq!(decode_error(63, 1), violation("Non-zero byte in greeting padding"));
    assert_eq!(decode_error(33, 1), violation("Non-zero byte in greeting padding"));
    assert_eq!(decode_error(10, 2), violation("Unsupported ZMTP major version 2.0"));
    assert_eq!(decode_error(32, 2), violation("Invalid as-server flag"));
}

#[test]
fn bytes_inside_the_signature_are_zero() {
    for i in 1..9 {
        let mut bytes = greeting_bytes();
        bytes[i] = 0xaa;
        assert_eq!(
            peek_revision(&bytes),
            Err(ZmqError::ProtocolViolation(
                "greeting signature bytes 1 to 8: expected 0x00".to_string()
            ))
        );
        // A greeting that has arrived as a whole is decoded all the same.
        assert!(ZmtpGreeting::decode(&mut bytes).unwrap().is_some());
    }
}

#[test]
fn what_follows_the_version_is_ignored() {
    let mut bytes = greeting_bytes();
    for i in 11..64 {
        bytes[i] = 0xaa;
    }
    assert_eq!(peek_revision(&bytes), Ok(3));
}

#[test]
fn peek_revision_errors_name_the_byte() {
    let mut buf = [0xfe, 0, 0, 0, 0, 0, 0, 0, 0, 0x7f, 0x03];
    assert_eq!(
        peek_revision(&buf).unwrap_err().describe(),
        "protocol violation: greeting signature byte 0: expected 0xff, got 0xfe"
    );
    buf[0] = 0xff;
    buf[9] = 0x0a;
    assert_eq!(
        peek_revision(&buf).unwrap_err(),
        ZmqError::ProtocolViolation(
            "greeting signature byte 9: expected 0x7f, got 0x0a".to_string()
        )
    );
    assert_eq!(
        peek_revision(&buf[..10]).unwrap_err(),
        ZmqError::ProtocolViolation("peek_revision: need 11 bytes, got 10".to_string())
    );
}

#[test]
fn mechanism_that_is_no_text_has_a_stand_in_name() {
    let mut mechanism = *PLAIN;
    mechanism[1] = 0xff;
    let greeting = ZmtpGreeting { version: (3, 0), mechanism, as_server: false };
    assert_eq!(greeting.mechanism_name(), "<invalid_utf8>");
    let full = ZmtpGreeting { version: (3, 1), mechanism: [b'A'; 20], as_server: false };
    assert_eq!(full.mechanism_name(), "AAAAAAAAAAAAAAAAAAAA");
}
