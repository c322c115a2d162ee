use std::io::Write;

use plutus_core::batch::{split_batch, BatchError};
use plutus_core::head::{PacketProtocol, PacketType};
use plutus_core::message::{encode_frame, MessagePayload};
use plutus_core::payload::{decode_message, PayloadError};

fn sub_envelope(body: &[u8]) -> Vec<u8> {
    encode_frame(PacketProtocol::Command, PacketType::Command, 1, body).unwrap()
}

fn zlib_compress(data: &[u8]) -> Vec<u8> {
    let mut enc = flate2::write::ZlibEncoder::new(Vec::new(), flate2::Compression::default());
    enc.write_all(data).unwrap();
    enc.finish().unwrap()
}

fn brotli_compress(data: &[u8]) -> Vec<u8> {
    let mut out = Vec::new();
    {
        let mut enc = brotli::CompressorWriter::new(&mut out, 4096, 5, 22);
        enc.write_all(data).unwrap();
        enc.flush().unwrap();
    }
    out
}

fn command_bodies(payload: MessagePayload) -> Vec<Vec<u8>> {
    match payload {
        MessagePayload::Command(cmds) => cmds.into_iter().map(|c| c.body).collect(),
        _ => panic!("expected a command payload"),
    }
}

#[test]
fn split_batch_yields_bodies_in_order() {
    let mut stream = sub_envelope(b"{\"cmd\":\"A\"}");
    stream.extend_from_slice(&sub_envelope(b"{\"cmd\":\"B\"}"));
    let (bodies, err) = split_batch(&stream);
    assert!(err.is_none());
    assert_eq!(bodies, vec![b"{\"cmd\":\"A\"}".to_vec(), b"{\"cmd\":\"B\"}".to_vec()]);
}

#[test]
fn split_batch_reports_truncation_counts() {
    // the stream ends inside the second header
    let mut stream = sub_envelope(b"{}");
    stream.extend_from_slice(&[0, 0, 0]);
    let (bodies, err) = split_batch(&stream);
    assert_eq!(bodies.len(), 1);
    assert_eq!(err, Some(BatchError::TruncatedHeader { got: 3 }));
    // the stream ends inside the second body
    let mut stream = sub_envelope(b"{}");
    let second = sub_envelope(b"{\"cmd\":\"B\"}");
    stream.extend_from_slice(&second[..second.len() - 4]);
    let (bodies, err) = split_batch(&stream);
    assert_eq!(bodies.len(), 1);
    assert_eq!(err, Some(BatchError::TruncatedBody { expected: 11, got: 7 }));
}

#[test]
fn zlib_batch_of_two() {
    let mut inner = sub_envelope(b"{\"cmd\":\"A\"}");
    inner.extend_from_slice(&sub_envelope(b"{\"cmd\":\"B\"}"));
    let outer = encode_frame(
        PacketProtocol::CommandZlib,
        PacketType::Command,
        0,
        &zlib_compress(&inner),
    )
    .unwrap();
    let d = decode_message(&outer).unwrap();
    assert!(d.batch_error.is_none());
    assert_eq!(d.json_errors, 0);
    assert_eq!(
        command_bodies(d.message.payload),
        vec![b"{\"cmd\":\"A\"}".to_vec(), b"{\"cmd\":\"B\"}".to_vec()]
    );
}

#[test]
fn brotli_batch_of_three() {
    let mut inner = sub_envelope(b"{\"cmd\":\"C\"}");
    inner.extend_from_slice(&sub_envelope(b"{\"cmd\":\"D\"}"));
    inner.extend_from_slice(&sub_envelope(b"{\"cmd\":\"E\"}"));
    let outer = encode_frame(
        PacketProtocol::CommandBrotli,
        PacketType::Command,
        0,
        &brotli_compress(&inner),
    )
    .unwrap();
    let d = decode_message(&outer).unwrap();
    assert!(d.batch_error.is_none());
    assert_eq!(d.json_errors, 0);
    assert_eq!(
        command_bodies(d.message.payload),
        vec![b"{\"cmd\":\"C\"}".to_vec(), b"{\"cmd\":\"D\"}".to_vec(), b"{\"cmd\":\"E\"}".to_vec()]
    );
}

#[test]
fn malformed_inner_json_is_dropped_and_counted() {
    let mut inner = sub_envelope(b"{nope");
    inner.extend_from_slice(&sub_envelope(b"{\"cmd\":\"Z\"}"));
    let outer = encode_frame(
        PacketProtocol::CommandZlib,
        PacketType::Command,
        0,
        &zlib_compress(&inner),
    )
    .unwrap();
    let d = decode_message(&outer).unwrap();
    assert!(d.batch_error.is_none());
    assert_eq!(d.json_errors, 1);
    assert_eq!(command_bodies(d.message.payload), vec![b"{\"cmd\":\"Z\"}".to_vec()]);
}

#[test]
fn corrupt_stream_is_a_compression_error() {
    let outer = encode_frame(
        PacketProtocol::CommandZlib,
        PacketType::Command,
        0,
        b"this is not a zlib stream",
    )
    .unwrap();
    assert!(matches!(decode_message(&outer), Err(PayloadError::Compression)));
}

#[test]
fn batch_keeps_commands_before_the_error() {
    // two good sub-envelopes, then a stray half header
    let mut inner = sub_envelope(b"{\"cmd\":\"A\"}");
    inner.extend_from_slice(&sub_envelope(b"{\"cmd\":\"B\"}"));
    inner.extend_from_slice(&[0, 0, 0, 9]);
    let outer = encode_frame(
        PacketProtocol::CommandZlib,
        PacketType::Command,
        0,
        &zlib_compress(&inner),
    )
    .unwrap();
    let d = decode_message(&outer).unwrap();
    assert_eq!(d.batch_error, Some(BatchError::TruncatedHeader { got: 4 }));
    assert_eq!(
        command_bodies(d.message.payload),
        vec![b"{\"cmd\":\"A\"}".to_vec(), b"{\"cmd\":\"B\"}".to_vec()]
    );
}
