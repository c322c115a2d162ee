use std::io::Write;

use plutus_core::head::{MessageHead, PacketProtocol, PacketType};
use plutus_core::message::{encode_frame, Certificate, Protocol, RawCommand};
use plutus_core::pump::{
    CommandQueue, ConnState, ExitCause, MessageConnection, NetworkConfig, ReaderNote, WsEvent,
};

fn frame(protocol: PacketProtocol, pkt_type: PacketType, body: &[u8]) -> Vec<u8> {
    encode_frame(protocol, pkt_type, 0, body).unwrap()
}

fn open_connection() -> MessageConnection {
    let mut conn = MessageConnection::new(&NetworkConfig::default());
    let cert = Certificate::new(1, 2, "k".to_string(), Protocol::Brotli);
    conn.certificate_frame(&cert, 1).unwrap();
    let accept = frame(PacketProtocol::Special, PacketType::CertificateResp, b"{\"code\":0}");
    let out = conn.reader_step(WsEvent::Binary(accept));
    assert!(out.exit.is_none());
    conn
}

#[test]
fn handshake_order() {
    let mut conn = MessageConnection::new(&NetworkConfig::default());
    assert_eq!(conn.lifecycle(), ConnState::Connecting);
    let cert = Certificate::new(10, 20, "tok".to_string(), Protocol::Brotli);
    let first = conn.certificate_frame(&cert, 1).unwrap();
    assert_eq!(conn.lifecycle(), ConnState::Handshaking);
    // what a fake server records first is a certificate packet
    let head = MessageHead::from_bytes(&first).unwrap();
    assert_eq!(head.pkt_type, PacketType::Certificate);
    assert_eq!(head.protocol, PacketProtocol::Special);
    // commands that arrive before the certificate is accepted are not
    // delivered
    let early = frame(PacketProtocol::Command, PacketType::Command, b"{\"cmd\":\"A\"}");
    let out = conn.reader_step(WsEvent::Binary(early));
    assert!(out.deliver.is_empty());
    assert_eq!(out.note, Some(ReaderNote::EarlyCommand));
    assert!(out.exit.is_none());
}

#[test]
fn heartbeat_runs_until_closed() {
    let mut conn = open_connection();
    let hb = conn.heartbeat_step(1).unwrap();
    assert_eq!(hb, plutus_core::message::heartbeat_frame(1));
    conn.close();
    assert!(conn.heartbeat_step(1).is_none());
}

#[test]
fn single_command_delivered() {
    let mut conn = open_connection();
    assert_eq!(conn.lifecycle(), ConnState::Open);
    let body: &[u8] =
        b"{\"cmd\":\"WATCHED_CHANGE\",\"data\":{\"num\":7,\"text_large\":\"7\",\"text_small\":\"7\"}}";
    let out = conn.reader_step(WsEvent::Binary(frame(
        PacketProtocol::Command,
        PacketType::Command,
        body,
    )));
    assert!(out.exit.is_none());
    assert!(out.note.is_none());
    assert_eq!(out.deliver.len(), 1);
    assert_eq!(out.deliver[0].body, body.to_vec());
}

#[test]
fn heartbeat_popularity_logged_not_delivered() {
    let mut conn = open_connection();
    let out = conn.reader_step(WsEvent::Binary(frame(
        PacketProtocol::Special,
        PacketType::HeartbeatResp,
        &[0x00, 0x00, 0x00, 0x2A],
    )));
    assert!(out.deliver.is_empty());
    assert_eq!(out.note, Some(ReaderNote::Popularity(42)));
    assert!(out.exit.is_none());
}

#[test]
fn auth_reject_ends_the_stream() {
    let mut conn = MessageConnection::new(&NetworkConfig::default());
    let cert = Certificate::new(1, 2, "k".to_string(), Protocol::Brotli);
    conn.certificate_frame(&cert, 1).unwrap();
    let reject = frame(PacketProtocol::Special, PacketType::CertificateResp, b"{\"code\":-1}");
    let out = conn.reader_step(WsEvent::Binary(reject));
    assert_eq!(out.exit, Some(ExitCause::AuthRejected(-1)));
    assert!(out.deliver.is_empty());
    assert_eq!(conn.lifecycle(), ConnState::Closed);
    assert!(conn.is_ended());
    // the next close is a no-op
    conn.close();
    assert_eq!(conn.lifecycle(), ConnState::Closed);
}

#[test]
fn graceful_remote_close_is_not_an_error() {
    let mut conn = open_connection();
    let out = conn.reader_step(WsEvent::RemoteClosed);
    let cause = out.exit.unwrap();
    assert_eq!(cause, ExitCause::SocketClosedRemote);
    assert!(!cause.is_error());
    assert!(conn.should_close());
    // every other exit cause is logged at error level
    assert!(ExitCause::SocketError.is_error());
    assert!(ExitCause::AuthRejected(-1).is_error());
}

#[test]
fn non_binary_frames_are_skipped() {
    let mut conn = open_connection();
    let out = conn.reader_step(WsEvent::NonBinary);
    assert!(out.deliver.is_empty());
    assert!(out.note.is_none());
    assert!(out.exit.is_none());
}

#[test]
fn bad_single_frame_does_not_kill_the_connection() {
    let mut conn = open_connection();
    let out = conn.reader_step(WsEvent::Binary(frame(
        PacketProtocol::Command,
        PacketType::Command,
        b"{nope",
    )));
    assert!(out.exit.is_none());
    assert!(matches!(out.note, Some(ReaderNote::BadFrame(_))));
    assert!(!conn.should_close());
}

#[test]
fn unknown_protocol_is_fatal() {
    let mut conn = open_connection();
    let mut f = frame(PacketProtocol::Command, PacketType::Command, b"{}");
    f[7] = 9;
    let out = conn.reader_step(WsEvent::Binary(f));
    assert!(matches!(out.exit, Some(ExitCause::FramingError(_))));
    assert!(conn.should_close());
}

#[test]
fn close_is_idempotent() {
    let mut conn = open_connection();
    conn.push_command(RawCommand { body: b"{}".to_vec() }).unwrap();
    conn.close();
    assert!(conn.should_close());
    assert!(!conn.is_ended());
    conn.close();
    assert!(conn.should_close());
    // queued commands remain available after close, then the stream ends
    let c = conn.next_command().unwrap();
    assert_eq!(c.body, b"{}".to_vec());
    assert!(conn.next_command().is_none());
    assert!(conn.is_ended());
}

#[test]
fn queue_is_bounded_fifo_and_drops_nothing() {
    let mut q = CommandQueue::new(2);
    assert_eq!(q.capacity(), 2);
    q.try_push(RawCommand { body: b"1".to_vec() }).unwrap();
    q.try_push(RawCommand { body: b"2".to_vec() }).unwrap();
    // a full queue hands the command back unchanged
    let refused = q.try_push(RawCommand { body: b"3".to_vec() }).unwrap_err();
    assert_eq!(refused.body, b"3".to_vec());
    assert_eq!(q.len(), 2);
    // the consumer takes one; the producer retries and succeeds; order holds
    assert_eq!(q.pop().unwrap().body, b"1".to_vec());
    q.try_push(refused).unwrap();
    assert_eq!(q.pop().unwrap().body, b"2".to_vec());
    assert_eq!(q.pop().unwrap().body, b"3".to_vec());
    assert!(q.pop().is_none());
}

#[test]
fn default_config() {
    let c = NetworkConfig::default();
    assert_eq!(c.heartbeat_interval, 30);
    assert_eq!(c.channel_buffer, 64);
}

fn zlib_compress(data: &[u8]) -> Vec<u8> {
    let mut enc = flate2::write::ZlibEncoder::new(Vec::new(), flate2::Compression::default());
    enc.write_all(data).unwrap();
    enc.finish().unwrap()
}

#[test]
fn batch_flows_through_reader_and_queue_in_order() {
    let mut conn = open_connection();
    let mut inner = frame(PacketProtocol::Command, PacketType::Command, b"{\"cmd\":\"A\"}");
    inner.extend_from_slice(&frame(PacketProtocol::Command, PacketType::Command, b"{\"cmd\":\"B\"}"));
    let outer = frame(PacketProtocol::CommandZlib, PacketType::Command, &zlib_compress(&inner));
    let out = conn.reader_step(WsEvent::Binary(outer));
    assert!(out.exit.is_none());
    assert!(out.note.is_none());
    assert_eq!(out.deliver.len(), 2);
    for cmd in out.deliver {
        conn.push_command(cmd).unwrap();
    }
    assert_eq!(conn.next_command().unwrap().body, b"{\"cmd\":\"A\"}".to_vec());
    assert_eq!(conn.next_command().unwrap().body, b"{\"cmd\":\"B\"}".to_vec());
    assert!(conn.next_command().is_none());
}

#[test]
fn malformed_inner_json_noted_rest_delivered() {
    let mut conn = open_connection();
    let mut inner = frame(PacketProtocol::Command, PacketType::Command, b"{nope");
    inner.extend_from_slice(&frame(PacketProtocol::Command, PacketType::Command, b"{\"cmd\":\"Z\"}"));
    let outer = frame(PacketProtocol::CommandZlib, PacketType::Command, &zlib_compress(&inner));
    let out = conn.reader_step(WsEvent::Binary(outer));
    assert!(out.exit.is_none());
    assert_eq!(out.note, Some(ReaderNote::JsonErrors(1)));
    assert_eq!(out.deliver.len(), 1);
    assert_eq!(out.deliver[0].body, b"{\"cmd\":\"Z\"}".to_vec());
}

#[test]
fn batch_cut_short_delivers_what_it_has_then_exits() {
    let mut conn = open_connection();
    let mut inner = frame(PacketProtocol::Command, PacketType::Command, b"{\"cmd\":\"A\"}");
    inner.extend_from_slice(&[1, 2, 3]);
    let outer = frame(PacketProtocol::CommandZlib, PacketType::Command, &zlib_compress(&inner));
    let out = conn.reader_step(WsEvent::Binary(outer));
    assert!(matches!(out.exit, Some(ExitCause::CompressionError(Some(_)))));
    assert_eq!(out.deliver.len(), 1);
    assert!(conn.should_close());
}
