//! The 16-byte envelope header that prefixes every binary frame.
//!
//! Layout, all fields big-endian: `total_size: u32`, `header_size: u16`
//! (always 16 on frames this library builds), `protocol: u16`,
//! `packet_type: u32`, `sequence: u32`. Unknown protocol or packet-type
//! values are decode errors that carry the offending raw value.

use vstd::prelude::*;

use crate::wire::{
    read_u16_be, read_u32_be, spec_read_u16_be, spec_read_u32_be, spec_u16_be, spec_u32_be,
    write_u16_be, write_u32_be,
};

verus! {

/// How the payload of a frame is encoded.
#[derive(Clone, Copy, Debug, PartialEq, Eq, Structural)]
pub enum PacketProtocol {
    /// A single JSON command, wire value 0.
    Command,
    /// Special binary payloads (heartbeat, certificate and their responses), wire value 1.
    Special,
    /// A zlib-compressed batch of framed sub-packets, wire value 2.
    CommandZlib,
    /// A brotli-compressed batch of framed sub-packets, wire value 3.
    CommandBrotli,
}

/// The kind of a frame.
#[derive(Clone, Copy, Debug, PartialEq, Eq, Structural)]
pub enum PacketType {
    /// Client keepalive, wire value 2.
    Heartbeat,
    /// Server reply to a heartbeat carrying the popularity counter, wire value 3.
    HeartbeatResp,
    /// A command frame, wire value 5.
    Command,
    /// The client's first frame carrying identity and auth token, wire value 7.
    Certificate,
    /// Server reply to the certificate, wire value 8.
    CertificateResp,
}

/// Why a header failed to decode.
#[derive(Clone, Copy, Debug, PartialEq, Eq, Structural)]
pub enum HeadReadError {
    /// Fewer than 16 bytes were available.
    Truncated,
    /// The protocol field held this unknown value.
    InvalidProtocol(u16),
    /// The packet-type field held this unknown value.
    InvalidType(u32),
}

/// Wire value of a protocol tag.
pub open spec fn protocol_code(p: PacketProtocol) -> u16 {
    match p {
        PacketProtocol::Command => 0,
        PacketProtocol::Special => 1,
        PacketProtocol::CommandZlib => 2,
        PacketProtocol::CommandBrotli => 3,
    }
}

/// Protocol tag of a wire value, if known.
pub open spec fn protocol_from_code(v: u16) -> Option<PacketProtocol> {
    if v == 0 {
        Some(PacketProtocol::Command)
    } else if v == 1 {
        Some(PacketProtocol::Special)
    } else if v == 2 {
        Some(PacketProtocol::CommandZlib)
    } else if v == 3 {
        Some(PacketProtocol::CommandBrotli)
    } else {
        None
    }
}

/// Wire value of a packet type.
pub open spec fn type_code(t: PacketType) -> u32 {
    match t {
        PacketType::Heartbeat => 2,
        PacketType::HeartbeatResp => 3,
        PacketType::Command => 5,
        PacketType::Certificate => 7,
        PacketType::CertificateResp => 8,
    }
}

/// Packet type of a wire value, if known.
pub open spec fn type_from_code(v: u32) -> Option<PacketType> {
    if v == 2 {
        Some(PacketType::Heartbeat)
    } else if v == 3 {
        Some(PacketType::HeartbeatResp)
    } else if v == 5 {
        Some(PacketType::Command)
    } else if v == 7 {
        Some(PacketType::Certificate)
    } else if v == 8 {
        Some(PacketType::CertificateResp)
    } else {
        None
    }
}

impl PacketProtocol {
    /// The numeric wire value of this tag.
    pub fn to_u16(self) -> (v: u16)
        ensures
            v == protocol_code(self),
    {
        match self {
            PacketProtocol::Command => 0,
            PacketProtocol::Special => 1,
            PacketProtocol::CommandZlib => 2,
            PacketProtocol::CommandBrotli => 3,
        }
    }

    /// The tag for a numeric wire value, `None` when unknown.
    pub fn from_u16(v: u16) -> (p: Option<PacketProtocol>)
        ensures
            p == protocol_from_code(v),
    {
        match v {
            0 => Some(PacketProtocol::Command),
            1 => Some(PacketProtocol::Special),
            2 => Some(PacketProtocol::CommandZlib),
            3 => Some(PacketProtocol::CommandBrotli),
            _ => None,
        }
    }
}

impl PacketType {
    /// The numeric wire value of this type.
    pub fn to_u32(self) -> (v: u32)
        ensures
            v == type_code(self),
    {
        match self {
            PacketType::Heartbeat => 2,
            PacketType::HeartbeatResp => 3,
            PacketType::Command => 5,
            PacketType::Certificate => 7,
            PacketType::CertificateResp => 8,
        }
    }

    /// The type for a numeric wire value, `None` when unknown.
    pub fn from_u32(v: u32) -> (t: Option<PacketType>)
        ensures
            t == type_from_code(v),
    {
        match v {
            2 => Some(PacketType::Heartbeat),
            3 => Some(PacketType::HeartbeatResp),
            5 => Some(PacketType::Command),
            7 => Some(PacketType::Certificate),
            8 => Some(PacketType::CertificateResp),
            _ => None,
        }
    }
}

/// The decoded 16-byte envelope header.
#[derive(Clone, Copy, Debug, PartialEq, Eq, Structural)]
pub struct MessageHead {
    /// Size of the whole frame: header plus payload.
    pub size: u32,
    /// Size of the header itself; 16 on every frame this library builds.
    pub head_size: u16,
    /// Payload encoding.
    pub protocol: PacketProtocol,
    /// Frame kind.
    pub pkt_type: PacketType,
    /// Opaque counter; this library echoes what the caller provides.
    pub sequence: u32,
}

/// Byte image of a header.
pub open spec fn spec_head_bytes(h: MessageHead) -> Seq<u8> {
    spec_u32_be(h.size) + spec_u16_be(h.head_size) + spec_u16_be(protocol_code(h.protocol))
        + spec_u32_be(type_code(h.pkt_type)) + spec_u32_be(h.sequence)
}

/// Header decoded from the first 16 bytes of `s`, or the error the bytes force.
///
/// The protocol field is checked before the packet-type field, as the wire
/// order of the fields suggests: a header with both fields unknown reports
/// the protocol.
pub open spec fn spec_parse_head(s: Seq<u8>) -> Result<MessageHead, HeadReadError> {
    if s.len() < 16 {
        Err(HeadReadError::Truncated)
    } else {
        let proto_raw = spec_read_u16_be(s.subrange(6, 8));
        let type_raw = spec_read_u32_be(s.subrange(8, 12));
        match protocol_from_code(proto_raw) {
            Option::None => Err(HeadReadError::InvalidProtocol(proto_raw)),
            Option::Some(protocol) => match type_from_code(type_raw) {
                Option::None => Err(HeadReadError::InvalidType(type_raw)),
                Option::Some(pkt_type) => Ok(
                    MessageHead {
                        size: spec_read_u32_be(s.subrange(0, 4)),
                        head_size: spec_read_u16_be(s.subrange(4, 6)),
                        protocol,
                        pkt_type,
                        sequence: spec_read_u32_be(s.subrange(12, 16)),
                    },
                ),
            },
        }
    }
}

impl MessageHead {
    /// Header for the client certificate frame; `size` is filled in when the
    /// frame is encoded.
    pub fn certificate(sequence: u32) -> (h: MessageHead)
        ensures
            h == (MessageHead {
                size: 0,
                head_size: 16,
                protocol: PacketProtocol::Special,
                pkt_type: PacketType::Certificate,
                sequence,
            }),
    {
        MessageHead {
            size: 0,
            head_size: 16,
            protocol: PacketProtocol::Special,
            pkt_type: PacketType::Certificate,
            sequence,
        }
    }

    /// Header for a heartbeat frame; `size` is filled in when the frame is
    /// encoded.
    pub fn heartbeat(sequence: u32) -> (h: MessageHead)
        ensures
            h == (MessageHead {
                size: 0,
                head_size: 16,
                protocol: PacketProtocol::Special,
                pkt_type: PacketType::Heartbeat,
                sequence,
            }),
    {
        MessageHead {
            size: 0,
            head_size: 16,
            protocol: PacketProtocol::Special,
            pkt_type: PacketType::Heartbeat,
            sequence,
        }
    }

    /// Appends the 16 header bytes to `out`.
    pub fn write_to(&self, out: &mut Vec<u8>)
        ensures
            final(out)@ == old(out)@ + spec_head_bytes(*self),
    {
        write_u32_be(out, self.size);
        write_u16_be(out, self.head_size);
        write_u16_be(out, self.protocol.to_u16());
        write_u32_be(out, self.pkt_type.to_u32());
        write_u32_be(out, self.sequence);
        assert(final(out)@ =~= old(out)@ + spec_head_bytes(*self));
    }

    /// Decodes a header from the first 16 bytes of `bytes`.
    pub fn from_bytes(bytes: &[u8]) -> (r: Result<MessageHead, HeadReadError>)
        ensures
            r == spec_parse_head(bytes@),
    {
        assert(bytes@.skip(0) =~= bytes@);
        Self::from_bytes_at(bytes, 0)
    }

    /// Decodes a header from the 16 bytes of `bytes` that start at `at`.
    pub fn from_bytes_at(bytes: &[u8], at: usize) -> (r: Result<MessageHead, HeadReadError>)
        requires
            at <= bytes@.len(),
        ensures
            r == spec_parse_head(bytes@.skip(at as int)),
    {
        let ghost s = bytes@.skip(at as int);
        if bytes.len() - at < 16 {
            return Err(HeadReadError::Truncated);
        }
        assert(s.subrange(0, 4) =~= bytes@.subrange(at as int, at + 4));
        assert(s.subrange(4, 6) =~= bytes@.subrange(at + 4, at + 6));
        assert(s.subrange(6, 8) =~= bytes@.subrange(at + 6, at + 8));
        assert(s.subrange(8, 12) =~= bytes@.subrange(at + 8, at + 12));
        assert(s.subrange(12, 16) =~= bytes@.subrange(at + 12, at + 16));
        let size = read_u32_be(bytes, at);
        let head_size = read_u16_be(bytes, at + 4);
        let proto_raw = read_u16_be(bytes, at + 6);
        let type_raw = read_u32_be(bytes, at + 8);
        let sequence = read_u32_be(bytes, at + 12);
        let protocol = match PacketProtocol::from_u16(proto_raw) {
            Option::Some(p) => p,
            Option::None => {
                return Err(HeadReadError::InvalidProtocol(proto_raw));
            },
        };
        let pkt_type = match PacketType::from_u32(type_raw) {
            Option::Some(t) => t,
            Option::None => {
                return Err(HeadReadError::InvalidType(type_raw));
            },
        };
        Ok(MessageHead { size, head_size, protocol, pkt_type, sequence })
    }
}

/// Decoding the byte image of a header recovers every field.
pub proof fn lemma_head_round_trip(h: MessageHead)
    ensures
        spec_parse_head(spec_head_bytes(h)) == Ok::<MessageHead, HeadReadError>(h),
{
    let s = spec_head_bytes(h);
    assert(s.subrange(0, 4) =~= spec_u32_be(h.size));
    assert(s.subrange(4, 6) =~= spec_u16_be(h.head_size));
    assert(s.subrange(6, 8) =~= spec_u16_be(protocol_code(h.protocol)));
    assert(s.subrange(8, 12) =~= spec_u32_be(type_code(h.pkt_type)));
    assert(s.subrange(12, 16) =~= spec_u32_be(h.sequence));
    crate::wire::lemma_u32_be_round_trip(h.size);
    crate::wire::lemma_u16_be_round_trip(h.head_size);
    crate::wire::lemma_u16_be_round_trip(protocol_code(h.protocol));
    crate::wire::lemma_u32_be_round_trip(type_code(h.pkt_type));
    crate::wire::lemma_u32_be_round_trip(h.sequence);
}

/// A header whose protocol field holds an unknown value is rejected with
/// `InvalidProtocol` carrying that value; with the protocol known, an
/// unknown packet-type value is rejected with `InvalidType` carrying it.
pub proof fn lemma_unknown_tags_rejected(s: Seq<u8>)
    requires
        s.len() >= 16,
    ensures
        protocol_from_code(spec_read_u16_be(s.subrange(6, 8))) is None ==> spec_parse_head(s)
            == Err::<MessageHead, HeadReadError>(
            HeadReadError::InvalidProtocol(spec_read_u16_be(s.subrange(6, 8))),
        ),
        protocol_from_code(spec_read_u16_be(s.subrange(6, 8))) is Some && type_from_code(
            spec_read_u32_be(s.subrange(8, 12)),
        ) is None ==> spec_parse_head(s) == Err::<MessageHead, HeadReadError>(
            HeadReadError::InvalidType(spec_read_u32_be(s.subrange(8, 12))),
        ),
{
}

} // verus!
