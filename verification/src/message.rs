//! Outgoing and incoming frames above the bare header: the certificate and
//! heartbeat the client sends, the payload kinds the server answers with,
//! and the byte-exact encoding of a whole frame.

use vstd::prelude::*;

use crate::head::{
    spec_head_bytes, spec_parse_head, HeadReadError, MessageHead, PacketProtocol, PacketType,
};
use crate::json::{
    push_bytes, push_decimal, push_json_string, spec_decimal, spec_json_string,
};
use crate::wire::{spec_read_u16_be, spec_read_u32_be, spec_u16_be, spec_u32_be};
use vstd::utf8::encode_utf8;

verus! {

/// The compression the client asks the server for, sent as `protover`.
#[derive(Clone, Copy, Debug, PartialEq, Eq, Structural)]
pub enum Protocol {
    /// Batches arrive zlib-compressed; wire value 2.
    Zlib,
    /// Batches arrive brotli-compressed; wire value 3.
    Brotli,
}

/// The `protover` value of a compression choice.
pub open spec fn protover_code(p: Protocol) -> u64 {
    match p {
        Protocol::Zlib => 2,
        Protocol::Brotli => 3,
    }
}

impl Protocol {
    /// The numeric `protover` value.
    pub fn to_u64(self) -> (v: u64)
        ensures
            v == protover_code(self),
    {
        match self {
            Protocol::Zlib => 2,
            Protocol::Brotli => 3,
        }
    }
}

/// The client's first frame: identity, room, auth token and the asked-for
/// compression.
#[derive(Debug)]
pub struct Certificate {
    /// User identifier, sent as `uid`.
    pub mid: u64,
    /// Real room identifier, sent as `roomid`.
    pub room_id: u64,
    /// Auth token from the bootstrap, sent as `key`.
    pub key: String,
    /// Client platform, sent as `platform` when present.
    pub platform: Option<String>,
    /// Anti-bot fingerprint cookie, sent as `buvid` when present.
    pub buvid: Option<String>,
    /// Compression choice, sent as `protover`.
    pub protocol: Protocol,
}

/// `{"uid":`
pub open spec fn lit_uid() -> Seq<u8> {
    seq![123u8, 34u8, 117u8, 105u8, 100u8, 34u8, 58u8]
}

/// `,"roomid":`
pub open spec fn lit_roomid() -> Seq<u8> {
    seq![44u8, 34u8, 114u8, 111u8, 111u8, 109u8, 105u8, 100u8, 34u8, 58u8]
}

/// `,"key":`
pub open spec fn lit_key() -> Seq<u8> {
    seq![44u8, 34u8, 107u8, 101u8, 121u8, 34u8, 58u8]
}

/// `,"platform":`
pub open spec fn lit_platform() -> Seq<u8> {
    seq![44u8, 34u8, 112u8, 108u8, 97u8, 116u8, 102u8, 111u8, 114u8, 109u8, 34u8, 58u8]
}

/// `,"buvid":`
pub open spec fn lit_buvid() -> Seq<u8> {
    seq![44u8, 34u8, 98u8, 117u8, 118u8, 105u8, 100u8, 34u8, 58u8]
}

/// `,"protover":`
pub open spec fn lit_protover() -> Seq<u8> {
    seq![44u8, 34u8, 112u8, 114u8, 111u8, 116u8, 111u8, 118u8, 101u8, 114u8, 34u8, 58u8]
}

/// The certificate body: compact JSON with `uid`, `roomid`, `key`, the two
/// optional members, and `protover`, in that order.
pub open spec fn spec_certificate_body(c: Certificate) -> Seq<u8> {
    lit_uid() + spec_decimal(c.mid as nat) + lit_roomid() + spec_decimal(c.room_id as nat)
        + lit_key() + spec_json_string(encode_utf8(c.key@)) + (match c.platform {
        Some(p) => lit_platform() + spec_json_string(encode_utf8(p@)),
        None => Seq::empty(),
    }) + (match c.buvid {
        Some(b) => lit_buvid() + spec_json_string(encode_utf8(b@)),
        None => Seq::empty(),
    }) + lit_protover() + spec_decimal(protover_code(c.protocol) as nat) + seq![125u8]
}


/// Appends `{"uid":` to `out`.
fn push_lit_uid(out: &mut Vec<u8>)
    ensures
        final(out)@ == old(out)@ + lit_uid(),
{
    out.push(123);
    out.push(34);
    out.push(117);
    out.push(105);
    out.push(100);
    out.push(34);
    out.push(58);
    assert(final(out)@ =~= old(out)@ + lit_uid());
}

/// Appends `,"roomid":` to `out`.
fn push_lit_roomid(out: &mut Vec<u8>)
    ensures
        final(out)@ == old(out)@ + lit_roomid(),
{
    out.push(44);
    out.push(34);
    out.push(114);
    out.push(111);
    out.push(111);
    out.push(109);
    out.push(105);
    out.push(100);
    out.push(34);
    out.push(58);
    assert(final(out)@ =~= old(out)@ + lit_roomid());
}

/// Appends `,"key":` to `out`.
fn push_lit_key(out: &mut Vec<u8>)
    ensures
        final(out)@ == old(out)@ + lit_key(),
{
    out.push(44);
    out.push(34);
    out.push(107);
    out.push(101);
    out.push(121);
    out.push(34);
    out.push(58);
    assert(final(out)@ =~= old(out)@ + lit_key());
}

/// Appends `,"platform":` to `out`.
fn push_lit_platform(out: &mut Vec<u8>)
    ensures
        final(out)@ == old(out)@ + lit_platform(),
{
    out.push(44);
    out.push(34);
    out.push(112);
    out.push(108);
    out.push(97);
    out.push(116);
    out.push(102);
    out.push(111);
    out.push(114);
    out.push(109);
    out.push(34);
    out.push(58);
    assert(final(out)@ =~= old(out)@ + lit_platform());
}

/// Appends `,"buvid":` to `out`.
fn push_lit_buvid(out: &mut Vec<u8>)
    ensures
        final(out)@ == old(out)@ + lit_buvid(),
{
    out.push(44);
    out.push(34);
    out.push(98);
    out.push(117);
    out.push(118);
    out.push(105);
    out.push(100);
    out.push(34);
    out.push(58);
    assert(final(out)@ =~= old(out)@ + lit_buvid());
}

/// Appends `,"protover":` to `out`.
fn push_lit_protover(out: &mut Vec<u8>)
    ensures
        final(out)@ == old(out)@ + lit_protover(),
{
    out.push(44);
    out.push(34);
    out.push(112);
    out.push(114);
    out.push(111);
    out.push(116);
    out.push(111);
    out.push(118);
    out.push(101);
    out.push(114);
    out.push(34);
    out.push(58);
    assert(final(out)@ =~= old(out)@ + lit_protover());
}

impl Certificate {
    /// A certificate without the optional `platform` and `buvid` members.
    pub fn new(mid: u64, room_id: u64, key: String, protocol: Protocol) -> (c: Certificate)
        ensures
            c.mid == mid,
            c.room_id == room_id,
            c.key == key,
            c.platform is None,
            c.buvid is None,
            c.protocol == protocol,
    {
        Certificate { mid, room_id, key, platform: None, buvid: None, protocol }
    }

    /// Renders the JSON body of this certificate.
    pub fn body_bytes(&self) -> (r: Vec<u8>)
        ensures
            r@ == spec_certificate_body(*self),
    {
        let mut out: Vec<u8> = Vec::new();
        push_lit_uid(&mut out);
        push_decimal(&mut out, self.mid);
        let ghost s1 = lit_uid() + spec_decimal(self.mid as nat);
        assert(out@ =~= s1);
        push_lit_roomid(&mut out);
        push_decimal(&mut out, self.room_id);
        let ghost s2 = s1 + lit_roomid() + spec_decimal(self.room_id as nat);
        assert(out@ =~= s2);
        push_lit_key(&mut out);
        push_json_string(&mut out, self.key.as_str().as_bytes());
        let ghost s3 = s2 + lit_key() + spec_json_string(encode_utf8(self.key@));
        assert(out@ =~= s3);
        match &self.platform {
            Some(p) => {
                push_lit_platform(&mut out);
                push_json_string(&mut out, p.as_str().as_bytes());
            },
            None => {},
        }
        let ghost s4 = s3 + (match &self.platform {
            Some(p) => lit_platform() + spec_json_string(encode_utf8(p@)),
            None => Seq::empty(),
        });
        assert(out@ =~= s4);
        match &self.buvid {
            Some(b) => {
                push_lit_buvid(&mut out);
                push_json_string(&mut out, b.as_str().as_bytes());
            },
            None => {},
        }
        let ghost s5 = s4 + (match &self.buvid {
            Some(b) => lit_buvid() + spec_json_string(encode_utf8(b@)),
            None => Seq::empty(),
        });
        assert(out@ =~= s5);
        push_lit_protover(&mut out);
        push_decimal(&mut out, self.protocol.to_u64());
        out.push(125);
        assert(out@ =~= spec_certificate_body(*self));
        out
    }

    /// Wraps this certificate in a message carrying the certificate header.
    pub fn with_head(self, sequence: u32) -> (m: Message)
        ensures
            m.head == MessageHead::spec_certificate_head(sequence),
            m.payload == MessagePayload::Certificate(self),
    {
        Message {
            head: MessageHead::certificate(sequence),
            payload: MessagePayload::Certificate(self),
        }
    }
}

/// The server's reply to the certificate.
#[derive(Clone, Copy, Debug, PartialEq, Eq, Structural)]
pub struct CertificateResp {
    /// Zero on success.
    pub code: i32,
}

/// The `code` member of the JSON document in these bytes, if `serde_json`
/// parses them and the member holds an integer that fits `i64`.
pub uninterp spec fn cert_resp_code_of(s: Seq<u8>) -> Option<i64>;

/// Relies on `serde_json::from_slice::<Value>`, `Value::get` and
/// `Value::as_i64`: the `code` member of a JSON document is a function of
/// the bytes alone.
#[verifier::external_body]
fn read_cert_resp_code(bytes: &[u8]) -> (r: Option<i64>)
    ensures
        r == cert_resp_code_of(bytes@),
{
    let v: serde_json::Value = match serde_json::from_slice(bytes) {
        Ok(v) => v,
        Err(_) => return None,
    };
    v.get("code").and_then(|c| c.as_i64())
}

/// The reply a certificate-response body decodes to: its `code` member,
/// narrowed to `i32` as the wire format states it.
pub open spec fn spec_cert_resp(s: Seq<u8>) -> Option<CertificateResp> {
    match cert_resp_code_of(s) {
        Some(c) => if i32::MIN <= c <= i32::MAX {
            Some(CertificateResp { code: c as i32 })
        } else {
            None
        },
        None => None,
    }
}

impl CertificateResp {
    /// Decodes a certificate response from its JSON body.
    pub fn from_body(bytes: &[u8]) -> (r: Option<CertificateResp>)
        ensures
            r == spec_cert_resp(bytes@),
    {
        match read_cert_resp_code(bytes) {
            Some(c) => if i32::MIN as i64 <= c && c <= i32::MAX as i64 {
                Some(CertificateResp { code: c as i32 })
            } else {
                None
            },
            None => None,
        }
    }

    /// Whether the server accepted the certificate.
    pub fn is_success(&self) -> (r: bool)
        ensures
            r == (self.code == 0),
    {
        self.code == 0
    }
}

/// One decoded command: the raw bytes of its JSON document.
#[derive(Debug)]
pub struct RawCommand {
    /// The JSON document, exactly as it stood in the frame.
    pub body: Vec<u8>,
}

/// What a frame carries.
#[derive(Debug)]
pub enum MessagePayload {
    /// Outgoing keepalive; the body is the fixed ASCII bytes `[object Object]`.
    Heartbeat,
    /// The popularity counter of a heartbeat reply.
    HeartbeatResp { popular: u32 },
    /// The outgoing certificate.
    Certificate(Certificate),
    /// The server's answer to the certificate.
    CertificateResp(CertificateResp),
    /// Decoded commands, one per JSON document.
    Command(Vec<RawCommand>),
}

/// The fixed heartbeat body, the ASCII bytes of `[object Object]`.
pub open spec fn spec_heartbeat_body() -> Seq<u8> {
    seq![
        91u8,
        111u8,
        98u8,
        106u8,
        101u8,
        99u8,
        116u8,
        32u8,
        79u8,
        98u8,
        106u8,
        101u8,
        99u8,
        116u8,
        93u8,
    ]
}

/// Appends the heartbeat body to `out`.
pub fn push_heartbeat_body(out: &mut Vec<u8>)
    ensures
        final(out)@ == old(out)@ + spec_heartbeat_body(),
{
    out.push(91);
    out.push(111);
    out.push(98);
    out.push(106);
    out.push(101);
    out.push(99);
    out.push(116);
    out.push(32);
    out.push(79);
    out.push(98);
    out.push(106);
    out.push(101);
    out.push(99);
    out.push(116);
    out.push(93);
    assert(final(out)@ =~= old(out)@ + spec_heartbeat_body());
}

impl MessageHead {
    /// The certificate header as a spec value.
    pub open spec fn spec_certificate_head(sequence: u32) -> MessageHead {
        MessageHead {
            size: 0,
            head_size: 16,
            protocol: PacketProtocol::Special,
            pkt_type: PacketType::Certificate,
            sequence,
        }
    }

    /// The heartbeat header as a spec value.
    pub open spec fn spec_heartbeat_head(sequence: u32) -> MessageHead {
        MessageHead {
            size: 0,
            head_size: 16,
            protocol: PacketProtocol::Special,
            pkt_type: PacketType::Heartbeat,
            sequence,
        }
    }
}

/// Why a message could not be written.
#[derive(Clone, Copy, Debug, PartialEq, Eq, Structural)]
pub enum EncodeError {
    /// The payload is one the client only receives, never sends.
    NotForSending,
    /// The body is too long for the 32-bit size field.
    TooLarge,
}

/// The body bytes of a payload the client may send, `None` for the others.
pub open spec fn spec_sendable_body(p: MessagePayload) -> Option<Seq<u8>> {
    match p {
        MessagePayload::Heartbeat => Some(spec_heartbeat_body()),
        MessagePayload::Certificate(c) => Some(spec_certificate_body(c)),
        _ => None,
    }
}

/// A whole frame: the header, its size field set to cover header and body,
/// followed by the body.
pub open spec fn spec_frame_bytes(
    protocol: PacketProtocol,
    pkt_type: PacketType,
    sequence: u32,
    body: Seq<u8>,
) -> Seq<u8>
    recommends
        16 + body.len() <= u32::MAX,
{
    spec_head_bytes(
        MessageHead {
            size: (16 + body.len()) as u32,
            head_size: 16,
            protocol,
            pkt_type,
            sequence,
        },
    ) + body
}

/// A frame as a header and a payload.
#[derive(Debug)]
pub struct Message {
    /// The envelope header; `size` is set when the frame is written.
    pub head: MessageHead,
    /// What the frame carries.
    pub payload: MessagePayload,
}

impl Message {
    /// A heartbeat message.
    pub fn heartbeat(sequence: u32) -> (m: Message)
        ensures
            m.head == MessageHead::spec_heartbeat_head(sequence),
            m.payload is Heartbeat,
    {
        Message { head: MessageHead::heartbeat(sequence), payload: MessagePayload::Heartbeat }
    }

    /// Writes this message as one frame, filling in the size field first.
    /// Only heartbeat and certificate payloads can be sent; the header's
    /// `head_size` must be 16, as the constructors set it.
    pub fn write_to(&mut self, out: &mut Vec<u8>) -> (r: Result<(), EncodeError>)
        requires
            old(self).head.head_size == 16,
        ensures
            match spec_sendable_body(old(self).payload) {
                Some(body) => if 16 + body.len() <= u32::MAX {
                    &&& r is Ok
                    &&& final(out)@ == old(out)@ + spec_frame_bytes(
                        old(self).head.protocol,
                        old(self).head.pkt_type,
                        old(self).head.sequence,
                        body,
                    )
                    &&& final(self).head == (MessageHead {
                        size: (16 + body.len()) as u32,
                        ..old(self).head
                    })
                    &&& final(self).payload == old(self).payload
                } else {
                    r == Err::<(), EncodeError>(EncodeError::TooLarge) && *final(self) == *old(
                        self,
                    ) && *final(out) == *old(out)
                },
                None => r == Err::<(), EncodeError>(EncodeError::NotForSending) && *final(self)
                    == *old(self) && *final(out) == *old(out),
            },
    {
        let body: Vec<u8> = match &self.payload {
            MessagePayload::Heartbeat => {
                let mut b: Vec<u8> = Vec::new();
                push_heartbeat_body(&mut b);
                b
            },
            MessagePayload::Certificate(c) => c.body_bytes(),
            _ => {
                return Err(EncodeError::NotForSending);
            },
        };
        if body.len() > (u32::MAX - 16) as usize {
            return Err(EncodeError::TooLarge);
        }
        self.head.size = 16 + body.len() as u32;
        self.head.write_to(out);
        push_bytes(out, body.as_slice());
        assert(final(out)@ =~= old(out)@ + spec_frame_bytes(
            old(self).head.protocol,
            old(self).head.pkt_type,
            old(self).head.sequence,
            body@,
        ));
        Ok(())
    }
}

/// Builds one frame from its parts: the Framer's encode operation.
pub fn encode_frame(
    protocol: PacketProtocol,
    pkt_type: PacketType,
    sequence: u32,
    body: &[u8],
) -> (r: Result<Vec<u8>, EncodeError>)
    ensures
        16 + body@.len() <= u32::MAX ==> (r matches Ok(f) && f@ == spec_frame_bytes(
            protocol,
            pkt_type,
            sequence,
            body@,
        )),
        16 + body@.len() > u32::MAX ==> r == Err::<Vec<u8>, EncodeError>(EncodeError::TooLarge),
{
    if body.len() > (u32::MAX - 16) as usize {
        return Err(EncodeError::TooLarge);
    }
    let head = MessageHead {
        size: 16 + body.len() as u32,
        head_size: 16,
        protocol,
        pkt_type,
        sequence,
    };
    let mut out: Vec<u8> = Vec::new();
    head.write_to(&mut out);
    push_bytes(&mut out, body);
    assert(out@ =~= spec_frame_bytes(protocol, pkt_type, sequence, body@));
    Ok(out)
}

/// The heartbeat frame for a sequence number.
pub fn heartbeat_frame(sequence: u32) -> (r: Vec<u8>)
    ensures
        r@ == spec_frame_bytes(
            PacketProtocol::Special,
            PacketType::Heartbeat,
            sequence,
            spec_heartbeat_body(),
        ),
{
    let mut m = Message::heartbeat(sequence);
    let mut out: Vec<u8> = Vec::new();
    let r = m.write_to(&mut out);
    assert(r is Ok);
    out
}

/// Decoding an encoded frame recovers every header field and the body:
/// the envelope round-trip.
pub proof fn lemma_frame_round_trip(
    protocol: PacketProtocol,
    pkt_type: PacketType,
    sequence: u32,
    body: Seq<u8>,
)
    requires
        16 + body.len() <= u32::MAX,
    ensures
        spec_parse_head(spec_frame_bytes(protocol, pkt_type, sequence, body))
            == Ok::<MessageHead, HeadReadError>(
            MessageHead {
                size: (16 + body.len()) as u32,
                head_size: 16,
                protocol,
                pkt_type,
                sequence,
            },
        ),
        spec_frame_bytes(protocol, pkt_type, sequence, body).skip(16) == body,
{
    let h = MessageHead {
        size: (16 + body.len()) as u32,
        head_size: 16,
        protocol,
        pkt_type,
        sequence,
    };
    let f = spec_frame_bytes(protocol, pkt_type, sequence, body);
    crate::head::lemma_head_round_trip(h);
    assert(f.subrange(0, 16) =~= spec_head_bytes(h));
    assert(spec_parse_head(f) == spec_parse_head(spec_head_bytes(h))) by {
        assert(f.subrange(0, 4) =~= spec_head_bytes(h).subrange(0, 4));
        assert(f.subrange(4, 6) =~= spec_head_bytes(h).subrange(4, 6));
        assert(f.subrange(6, 8) =~= spec_head_bytes(h).subrange(6, 8));
        assert(f.subrange(8, 12) =~= spec_head_bytes(h).subrange(8, 12));
        assert(f.subrange(12, 16) =~= spec_head_bytes(h).subrange(12, 16));
    }
    assert(f.skip(16) =~= body);
}

/// Every encoded frame carries its own length in the first four bytes and
/// 16 in the next two: the size consistency of the wire format.
pub proof fn lemma_frame_size_consistency(
    protocol: PacketProtocol,
    pkt_type: PacketType,
    sequence: u32,
    body: Seq<u8>,
)
    requires
        16 + body.len() <= u32::MAX,
    ensures
        spec_read_u32_be(spec_frame_bytes(protocol, pkt_type, sequence, body).subrange(0, 4))
            == spec_frame_bytes(protocol, pkt_type, sequence, body).len(),
        spec_read_u16_be(spec_frame_bytes(protocol, pkt_type, sequence, body).subrange(4, 6))
            == 16,
{
    let f = spec_frame_bytes(protocol, pkt_type, sequence, body);
    let size = (16 + body.len()) as u32;
    assert(f.subrange(0, 4) =~= spec_u32_be(size));
    assert(f.subrange(4, 6) =~= spec_u16_be(16));
    crate::wire::lemma_u32_be_round_trip(size);
    crate::wire::lemma_u16_be_round_trip(16);
}

/// The exact shape of a heartbeat frame: the 16 header bytes
/// `[0,0,0,31, 0,16, 0,1, 0,0,0,2]` and the sequence, then the fixed body.
pub proof fn lemma_heartbeat_shape(sequence: u32)
    ensures
        spec_frame_bytes(
            PacketProtocol::Special,
            PacketType::Heartbeat,
            sequence,
            spec_heartbeat_body(),
        ) == seq![0u8, 0u8, 0u8, 31u8, 0u8, 16u8, 0u8, 1u8, 0u8, 0u8, 0u8, 2u8] + spec_u32_be(
            sequence,
        ) + spec_heartbeat_body(),
{
    assert(spec_frame_bytes(
        PacketProtocol::Special,
        PacketType::Heartbeat,
        sequence,
        spec_heartbeat_body(),
    ) =~= seq![0u8, 0u8, 0u8, 31u8, 0u8, 16u8, 0u8, 1u8, 0u8, 0u8, 0u8, 2u8] + spec_u32_be(
        sequence,
    ) + spec_heartbeat_body());
}

} // verus!
