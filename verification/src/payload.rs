//! Decoding a whole incoming frame: header, then payload by
//! (packet type, protocol).
//!
//! - heartbeat reply with the special tag: a big-endian `u32` popularity;
//! - certificate reply with the special tag: a JSON body with a `code`;
//! - command with the plain JSON tag: one JSON document;
//! - command with a compression tag: an inflated batch of sub-envelopes;
//! - every other pair: an unsupported packet, reported with its header.

use vstd::prelude::*;

use crate::batch::{
    accept_commands, brotli_decompress, brotli_inflate, command_views, spec_accepted,
    spec_rejected_count, spec_split_batch, split_batch, zlib_decompress, zlib_inflate,
    BatchError,
};
use crate::head::{
    spec_parse_head, HeadReadError, MessageHead, PacketProtocol, PacketType,
};
use crate::json::{json_accepts, json_validate};
use crate::message::{
    spec_cert_resp, CertificateResp, Message, MessagePayload, RawCommand,
};
use crate::wire::{copy_range, read_u32_be, spec_read_u32_be};

verus! {

/// Why a frame could not be decoded.
#[derive(Clone, Copy, Debug, PartialEq, Eq, Structural)]
pub enum PayloadError {
    /// The envelope header was truncated or carried an unknown tag.
    Head(HeadReadError),
    /// The (packet type, protocol) pair is not one the client handles.
    UnsupportedPacket(MessageHead),
    /// A single-command frame whose body is not well-formed JSON.
    Json,
    /// A heartbeat reply whose body holds fewer than the four popularity
    /// bytes; this many arrived.
    TruncatedPopularity { got: usize },
    /// A certificate reply whose body does not decode to a `code`.
    CertResp,
    /// A compressed batch whose stream the decompressor rejects.
    Compression,
}

/// A decoded frame: the message, and for batches what cut the batch short
/// and how many commands were dropped for bad JSON.
#[derive(Debug)]
pub struct Decoded {
    /// The decoded message.
    pub message: Message,
    /// The error that ended a batch early, if one did.
    pub batch_error: Option<BatchError>,
    /// How many command bodies were dropped because their JSON was
    /// malformed.
    pub json_errors: usize,
}

/// What decoding the frame `bytes` must yield.
///
/// The payload body is everything after the 16 header bytes; the header's
/// size field is carried in the decoded header but does not cut the body
/// short, the transport having already delimited the frame.
pub open spec fn decode_matches(bytes: Seq<u8>, r: Result<Decoded, PayloadError>) -> bool {
    match spec_parse_head(bytes) {
        Err(e) => r == Err::<Decoded, PayloadError>(PayloadError::Head(e)),
        Ok(h) => {
            let body = bytes.skip(16);
            match (h.pkt_type, h.protocol) {
                (PacketType::Command, PacketProtocol::Command) => if json_accepts(body) {
                    &&& r matches Ok(d)
                    &&& d.message.head == h
                    &&& d.message.payload matches MessagePayload::Command(cmds)
                        && command_views(cmds@) == seq![body]
                    &&& d.batch_error is None
                    &&& d.json_errors == 0
                } else {
                    r == Err::<Decoded, PayloadError>(PayloadError::Json)
                },
                (PacketType::Command, PacketProtocol::CommandZlib) => match zlib_inflate(body) {
                    Option::None => r == Err::<Decoded, PayloadError>(PayloadError::Compression),
                    Option::Some(inflated) => batch_decode_matches(h, inflated, r),
                },
                (PacketType::Command, PacketProtocol::CommandBrotli) => match brotli_inflate(
                    body,
                ) {
                    Option::None => r == Err::<Decoded, PayloadError>(PayloadError::Compression),
                    Option::Some(inflated) => batch_decode_matches(h, inflated, r),
                },
                (PacketType::HeartbeatResp, PacketProtocol::Special) => if body.len() >= 4 {
                    &&& r matches Ok(d)
                    &&& d.message.head == h
                    &&& d.message.payload == (MessagePayload::HeartbeatResp {
                        popular: spec_read_u32_be(body.subrange(0, 4)),
                    })
                    &&& d.batch_error is None
                    &&& d.json_errors == 0
                } else {
                    r == Err::<Decoded, PayloadError>(
                        PayloadError::TruncatedPopularity { got: body.len() as usize },
                    )
                },
                (PacketType::CertificateResp, PacketProtocol::Special) => match spec_cert_resp(
                    body,
                ) {
                    Option::Some(c) => {
                        &&& r matches Ok(d)
                        &&& d.message.head == h
                        &&& d.message.payload == MessagePayload::CertificateResp(c)
                        &&& d.batch_error is None
                        &&& d.json_errors == 0
                    },
                    Option::None => r == Err::<Decoded, PayloadError>(PayloadError::CertResp),
                },
                _ => r == Err::<Decoded, PayloadError>(PayloadError::UnsupportedPacket(h)),
            }
        },
    }
}

/// What decoding an inflated batch must yield: the well-formed JSON bodies
/// of its sub-envelopes as commands, in order, the error that cut the
/// batch short if one did, and the count of bodies with malformed JSON.
pub open spec fn batch_decode_matches(
    h: MessageHead,
    inflated: Seq<u8>,
    r: Result<Decoded, PayloadError>,
) -> bool {
    &&& r matches Ok(d)
    &&& d.message.head == h
    &&& d.message.payload matches MessagePayload::Command(cmds) && command_views(cmds@)
        == spec_accepted(spec_split_batch(inflated).0)
    &&& d.batch_error == spec_split_batch(inflated).1
    &&& d.json_errors == spec_rejected_count(spec_split_batch(inflated).0)
}

/// Decodes the sub-envelopes of an inflated batch into a message.
fn decode_batch(h: MessageHead, inflated: &Vec<u8>) -> (r: Result<Decoded, PayloadError>)
    ensures
        batch_decode_matches(h, inflated@, r),
{
    let (bodies, batch_error) = split_batch(inflated.as_slice());
    let (cmds, json_errors) = accept_commands(&bodies);
    Ok(
        Decoded {
            message: Message { head: h, payload: MessagePayload::Command(cmds) },
            batch_error,
            json_errors,
        },
    )
}

/// Decodes one incoming frame: the Framer's decode operation.
pub fn decode_message(bytes: &[u8]) -> (r: Result<Decoded, PayloadError>)
    ensures
        decode_matches(bytes@, r),
{
    let h = match MessageHead::from_bytes(bytes) {
        Ok(h) => h,
        Err(e) => {
            return Err(PayloadError::Head(e));
        },
    };
    let ghost body_spec = bytes@.skip(16);
    let body = copy_range(bytes, 16, bytes.len());
    assert(body@ =~= body_spec);
    match (h.pkt_type, h.protocol) {
        (PacketType::Command, PacketProtocol::Command) => {
            if json_validate(body.as_slice()) {
                let mut cmds: Vec<RawCommand> = Vec::new();
                cmds.push(RawCommand { body });
                assert(command_views(cmds@) =~= seq![body_spec]);
                Ok(
                    Decoded {
                        message: Message { head: h, payload: MessagePayload::Command(cmds) },
                        batch_error: None,
                        json_errors: 0,
                    },
                )
            } else {
                Err(PayloadError::Json)
            }
        },
        (PacketType::Command, PacketProtocol::CommandZlib) => {
            match zlib_decompress(body.as_slice()) {
                Some(inflated) => decode_batch(h, &inflated),
                None => Err(PayloadError::Compression),
            }
        },
        (PacketType::Command, PacketProtocol::CommandBrotli) => {
            match brotli_decompress(body.as_slice()) {
                Some(inflated) => decode_batch(h, &inflated),
                None => Err(PayloadError::Compression),
            }
        },
        (PacketType::HeartbeatResp, PacketProtocol::Special) => {
            if body.len() >= 4 {
                let popular = read_u32_be(body.as_slice(), 0);
                Ok(
                    Decoded {
                        message: Message {
                            head: h,
                            payload: MessagePayload::HeartbeatResp { popular },
                        },
                        batch_error: None,
                        json_errors: 0,
                    },
                )
            } else {
                Err(PayloadError::TruncatedPopularity { got: body.len() })
            }
        },
        (PacketType::CertificateResp, PacketProtocol::Special) => {
            match CertificateResp::from_body(body.as_slice()) {
                Some(c) => Ok(
                    Decoded {
                        message: Message { head: h, payload: MessagePayload::CertificateResp(c) },
                        batch_error: None,
                        json_errors: 0,
                    },
                ),
                None => Err(PayloadError::CertResp),
            }
        },
        _ => Err(PayloadError::UnsupportedPacket(h)),
    }
}

} // verus!
