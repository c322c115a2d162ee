use plutus_core::head::{HeadReadError, MessageHead, PacketProtocol, PacketType};
use plutus_core::message::{
    encode_frame, heartbeat_frame, Certificate, CertificateResp, Message, MessagePayload,
    Protocol,
};
use plutus_core::payload::{decode_message, PayloadError};
use plutus_core::wire::{read_u16_be, read_u32_be};

fn frame(protocol: PacketProtocol, pkt_type: PacketType, sequence: u32, body: &[u8]) -> Vec<u8> {
    encode_frame(protocol, pkt_type, sequence, body).unwrap()
}

#[test]
fn envelope_round_trip() {
    let body = b"{\"cmd\":\"A\"}";
    let f = frame(PacketProtocol::Command, PacketType::Command, 7, body);
    let head = MessageHead::from_bytes(&f).unwrap();
    assert_eq!(head.size, 16 + body.len() as u32);
    assert_eq!(head.head_size, 16);
    assert_eq!(head.protocol, PacketProtocol::Command);
    assert_eq!(head.pkt_type, PacketType::Command);
    assert_eq!(head.sequence, 7);
    assert_eq!(&f[16..], body);
}

#[test]
fn frame_size_consistency() {
    let f = frame(PacketProtocol::Special, PacketType::Heartbeat, 1, b"[object Object]");
    assert_eq!(read_u32_be(&f, 0) as usize, f.len());
    assert_eq!(read_u16_be(&f, 4), 16);
}

#[test]
fn unknown_tags_rejected() {
    // a header whose protocol field holds 9
    let mut f = frame(PacketProtocol::Command, PacketType::Command, 0, b"{}");
    f[7] = 9;
    assert_eq!(MessageHead::from_bytes(&f), Err(HeadReadError::InvalidProtocol(9)));
    // a header whose packet-type field holds 99
    let mut f = frame(PacketProtocol::Command, PacketType::Command, 0, b"{}");
    f[11] = 99;
    assert_eq!(MessageHead::from_bytes(&f), Err(HeadReadError::InvalidType(99)));
    // fewer than 16 bytes
    assert_eq!(MessageHead::from_bytes(&[0, 0, 0]), Err(HeadReadError::Truncated));
}

#[test]
fn heartbeat_shape() {
    let f = heartbeat_frame(5);
    let mut expected: Vec<u8> = vec![0, 0, 0, 31, 0, 16, 0, 1, 0, 0, 0, 2, 0, 0, 0, 5];
    expected.extend_from_slice(b"[object Object]");
    assert_eq!(f, expected);
}

#[test]
fn heartbeat_message_write() {
    let mut m = Message::heartbeat(1);
    let mut out: Vec<u8> = Vec::new();
    m.write_to(&mut out).unwrap();
    assert_eq!(out, heartbeat_frame(1));
    assert_eq!(m.head.size, 31);
}

#[test]
fn certificate_body_short_form() {
    let cert = Certificate::new(10, 20, "tok".to_string(), Protocol::Zlib);
    assert_eq!(
        cert.body_bytes(),
        b"{\"uid\":10,\"roomid\":20,\"key\":\"tok\",\"protover\":2}".to_vec()
    );
}

#[test]
fn certificate_body_full_form() {
    let mut cert = Certificate::new(1, 2, "a\"b\\c".to_string(), Protocol::Brotli);
    cert.platform = Some("web".to_string());
    cert.buvid = Some("B-3".to_string());
    assert_eq!(
        cert.body_bytes(),
        b"{\"uid\":1,\"roomid\":2,\"key\":\"a\\\"b\\\\c\",\"platform\":\"web\",\"buvid\":\"B-3\",\"protover\":3}"
            .to_vec()
    );
}

#[test]
fn certificate_body_escapes_controls() {
    let cert = Certificate::new(0, 0, "a\nb\u{1}".to_string(), Protocol::Zlib);
    assert_eq!(
        cert.body_bytes(),
        b"{\"uid\":0,\"roomid\":0,\"key\":\"a\\nb\\u0001\",\"protover\":2}".to_vec()
    );
}

#[test]
fn certificate_message_is_first_class_frame() {
    let cert = Certificate::new(10, 20, "tok".to_string(), Protocol::Brotli);
    let body = cert.body_bytes();
    let mut m = cert.with_head(1);
    let mut out: Vec<u8> = Vec::new();
    m.write_to(&mut out).unwrap();
    let head = MessageHead::from_bytes(&out).unwrap();
    assert_eq!(head.pkt_type, PacketType::Certificate);
    assert_eq!(head.protocol, PacketProtocol::Special);
    assert_eq!(head.sequence, 1);
    assert_eq!(&out[16..], &body[..]);
}

#[test]
fn incoming_payloads_cannot_be_sent() {
    let mut m = Message {
        head: MessageHead::heartbeat(1),
        payload: MessagePayload::HeartbeatResp { popular: 3 },
    };
    let mut out: Vec<u8> = Vec::new();
    assert!(m.write_to(&mut out).is_err());
    assert!(out.is_empty());
}

#[test]
fn decode_single_command() {
    let body = b"{\"cmd\":\"WATCHED_CHANGE\",\"data\":{\"num\":7,\"text_large\":\"7\",\"text_small\":\"7\"}}";
    let f = frame(PacketProtocol::Command, PacketType::Command, 0, body);
    let d = decode_message(&f).unwrap();
    match d.message.payload {
        MessagePayload::Command(cmds) => {
            assert_eq!(cmds.len(), 1);
            assert_eq!(cmds[0].body, body.to_vec());
        }
        _ => panic!("expected a command payload"),
    }
    assert!(d.batch_error.is_none());
    assert_eq!(d.json_errors, 0);
}

#[test]
fn decode_single_command_bad_json() {
    let f = frame(PacketProtocol::Command, PacketType::Command, 0, b"{nope");
    assert!(matches!(decode_message(&f), Err(PayloadError::Json)));
}

#[test]
fn decode_heartbeat_resp() {
    let f = frame(PacketProtocol::Special, PacketType::HeartbeatResp, 0, &[0, 0, 0, 42]);
    let d = decode_message(&f).unwrap();
    assert!(matches!(d.message.payload, MessagePayload::HeartbeatResp { popular: 42 }));
}

#[test]
fn decode_heartbeat_resp_truncated() {
    let f = frame(PacketProtocol::Special, PacketType::HeartbeatResp, 0, &[0, 0]);
    assert!(matches!(
        decode_message(&f),
        Err(PayloadError::TruncatedPopularity { got: 2 })
    ));
}

#[test]
fn decode_certificate_resp() {
    let f = frame(PacketProtocol::Special, PacketType::CertificateResp, 0, b"{\"code\":0}");
    let d = decode_message(&f).unwrap();
    match d.message.payload {
        MessagePayload::CertificateResp(c) => assert!(c.is_success()),
        _ => panic!("expected a certificate response"),
    }
    let f = frame(PacketProtocol::Special, PacketType::CertificateResp, 0, b"not json");
    assert!(matches!(decode_message(&f), Err(PayloadError::CertResp)));
}

#[test]
fn cert_resp_from_body() {
    assert_eq!(CertificateResp::from_body(b"{\"code\":-1}"), Some(CertificateResp { code: -1 }));
    assert_eq!(
        CertificateResp::from_body(b"{\"code\":0,\"message\":\"ok\"}"),
        Some(CertificateResp { code: 0 })
    );
    assert_eq!(CertificateResp::from_body(b"{\"status\":0}"), None);
    assert_eq!(CertificateResp::from_body(b"{\"code\":99999999999}"), None);
}

#[test]
fn decode_unsupported_pair() {
    let f = frame(PacketProtocol::Special, PacketType::Certificate, 0, b"{}");
    match decode_message(&f) {
        Err(PayloadError::UnsupportedPacket(h)) => {
            assert_eq!(h.pkt_type, PacketType::Certificate);
        }
        other => panic!("expected an unsupported packet, got {:?}", other.is_ok()),
    }
}

#[test]
fn decode_rejects_unknown_protocol_value() {
    let mut f = frame(PacketProtocol::Command, PacketType::Command, 0, b"{}");
    f[7] = 9;
    assert!(matches!(
        decode_message(&f),
        Err(PayloadError::Head(HeadReadError::InvalidProtocol(9)))
    ));
}
