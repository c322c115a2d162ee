//! The connection's two tasks, as decisions over plain values.
//!
//! One socket feeds two loops: a reader that turns incoming frames into
//! commands, and a heartbeat that sends a fixed frame on a timer. The
//! socket, the timer and the channel live with the caller; this module
//! holds every decision both loops make — what a frame means, what to
//! deliver, when to log at which level, and when to stop — together with
//! the shared lifecycle state and the bounded delivery queue.
//!
//! The certificate is the first frame on any connection: only
//! [`MessageConnection::certificate_frame`] leaves the connecting state,
//! and both [`MessageConnection::heartbeat_step`] and
//! [`MessageConnection::reader_step`] require that it has run. Commands
//! that arrive before the server has accepted the certificate are not
//! delivered.

use vstd::prelude::*;

use crate::batch::{
    brotli_inflate, command_views, spec_accepted, spec_rejected_count, spec_split_batch,
    zlib_inflate, BatchError,
};
use crate::head::{spec_parse_head, HeadReadError, PacketProtocol, PacketType};
use crate::json::json_accepts;
use crate::message::{
    spec_cert_resp, spec_certificate_body, spec_frame_bytes, spec_heartbeat_body, Certificate,
    EncodeError, MessagePayload, RawCommand,
};
use crate::payload::{decode_message, Decoded, PayloadError};
use crate::wire::spec_read_u32_be;

verus! {

/// Knobs of a connection. The two values the core reads; options of the
/// underlying WebSocket library stay with the caller.
#[derive(Clone, Copy, Debug, PartialEq, Eq, Structural)]
pub struct NetworkConfig {
    /// Seconds between heartbeats; must be positive.
    pub heartbeat_interval: u64,
    /// Capacity of the delivery channel; must be positive. Back-pressure
    /// comes from this bound alone.
    pub channel_buffer: usize,
}

impl NetworkConfig {
    /// Whether the knobs are usable: both strictly positive.
    pub open spec fn wf(&self) -> bool {
        self.heartbeat_interval >= 1 && self.channel_buffer >= 1
    }
}

impl Default for NetworkConfig {
    /// Thirty seconds between heartbeats, sixty-four queued commands.
    fn default() -> (c: NetworkConfig)
        ensures
            c.heartbeat_interval == 30,
            c.channel_buffer == 64,
            c.wf(),
    {
        NetworkConfig { heartbeat_interval: 30, channel_buffer: 64 }
    }
}

/// The bounded FIFO queue between the reader and the consumer.
///
/// A full queue refuses the command and hands it back: nothing is ever
/// dropped, the producer waits instead. Commands leave in the order they
/// entered.
pub struct CommandQueue {
    items: Vec<RawCommand>,
    capacity: usize,
}

impl CommandQueue {
    /// The queued command bodies, front first.
    pub closed spec fn view(&self) -> Seq<Seq<u8>> {
        command_views(self.items@)
    }

    /// The fixed capacity.
    pub closed spec fn spec_capacity(&self) -> usize {
        self.capacity
    }

    /// At most `capacity` commands are queued, and the capacity is
    /// positive.
    pub open spec fn wf(&self) -> bool {
        self.view().len() <= self.spec_capacity() && self.spec_capacity() >= 1
    }

    /// An empty queue with the given capacity.
    pub fn new(capacity: usize) -> (q: CommandQueue)
        requires
            capacity >= 1,
        ensures
            q.view() == Seq::<Seq<u8>>::empty(),
            q.spec_capacity() == capacity,
            q.wf(),
    {
        let q = CommandQueue { items: Vec::new(), capacity };
        assert(q.view() =~= Seq::<Seq<u8>>::empty());
        q
    }

    /// How many commands are queued.
    pub fn len(&self) -> (n: usize)
        ensures
            n == self.view().len(),
    {
        self.items.len()
    }

    /// The fixed capacity.
    pub fn capacity(&self) -> (n: usize)
        ensures
            n == self.spec_capacity(),
    {
        self.capacity
    }

    /// Appends a command, or hands it back unchanged when the queue is
    /// full. No command is ever dropped.
    pub fn try_push(&mut self, cmd: RawCommand) -> (r: Result<(), RawCommand>)
        requires
            old(self).wf(),
        ensures
            final(self).wf(),
            final(self).spec_capacity() == old(self).spec_capacity(),
            old(self).view().len() < old(self).spec_capacity() ==> r is Ok && final(self).view()
                == old(self).view().push(cmd.body@),
            old(self).view().len() >= old(self).spec_capacity() ==> (r matches Err(c) && c.body@
                == cmd.body@ && final(self).view() == old(self).view()),
    {
        if self.items.len() < self.capacity {
            let ghost b = cmd.body@;
            self.items.push(cmd);
            assert(self.view() =~= old(self).view().push(b));
            Ok(())
        } else {
            Err(cmd)
        }
    }

    /// Removes and returns the front command; `None` on an empty queue.
    pub fn pop(&mut self) -> (r: Option<RawCommand>)
        requires
            old(self).wf(),
        ensures
            final(self).wf(),
            final(self).spec_capacity() == old(self).spec_capacity(),
            old(self).view().len() == 0 ==> r is None && final(self).view() == old(self).view(),
            old(self).view().len() > 0 ==> (r matches Some(c) && c.body@ == old(self).view()[0]
                && final(self).view() == old(self).view().drop_first()),
    {
        if self.items.len() == 0 {
            None
        } else {
            let c = self.items.remove(0);
            assert(final(self).view() =~= old(self).view().drop_first());
            Some(c)
        }
    }
}

/// Where a connection stands in its life.
#[derive(Clone, Copy, Debug, PartialEq, Eq, Structural)]
pub enum ConnState {
    /// The socket is open but the certificate has not been handed out yet.
    Connecting,
    /// The certificate is out; its answer has not arrived.
    Handshaking,
    /// The server accepted the certificate; commands flow.
    Open,
    /// Closed, by either side or by `close`; never reopened.
    Closed,
}

/// Why the reader loop ended.
#[derive(Clone, Copy, Debug, PartialEq, Eq, Structural)]
pub enum ExitCause {
    /// The peer closed the socket in an orderly way, or reset without a
    /// closing handshake: a normal end of stream, not an error.
    SocketClosedRemote,
    /// Any other transport error.
    SocketError,
    /// The server answered the certificate with this non-zero code.
    AuthRejected(i32),
    /// An envelope header that cannot be resynchronized from.
    FramingError(HeadReadError),
    /// A compressed batch went bad: `None` when the stream itself was
    /// rejected, the batch error when a sub-envelope was.
    CompressionError(Option<BatchError>),
}

impl ExitCause {
    /// Whether this end of the reader is logged at error level. A remote
    /// close is not an error.
    pub open spec fn spec_is_error(&self) -> bool {
        !(*self is SocketClosedRemote)
    }

    /// Whether this end of the reader is logged at error level.
    pub fn is_error(&self) -> (r: bool)
        ensures
            r == self.spec_is_error(),
    {
        !matches!(self, ExitCause::SocketClosedRemote)
    }
}

/// What one reader step wants logged.
#[derive(Clone, Copy, Debug, PartialEq, Eq, Structural)]
pub enum ReaderNote {
    /// Debug: a heartbeat reply carried this popularity.
    Popularity(u32),
    /// Debug: the server accepted the certificate with this code.
    AuthAccepted(i32),
    /// Warn: a frame that could not be decoded; the connection goes on.
    BadFrame(PayloadError),
    /// Warn: this many commands in one frame had malformed JSON and were
    /// dropped; the rest were delivered.
    JsonErrors(usize),
    /// Warn: a command frame arrived before the certificate was accepted
    /// and was not delivered.
    EarlyCommand,
}

/// What one reader step decided.
pub struct ReaderOutput {
    /// Commands to hand to the channel, in frame order.
    pub deliver: Vec<RawCommand>,
    /// What to log, if anything.
    pub note: Option<ReaderNote>,
    /// Set when the reader loop must end, with why.
    pub exit: Option<ExitCause>,
}

/// One observation of the socket by the reader.
pub enum WsEvent {
    /// A binary frame.
    Binary(Vec<u8>),
    /// A text, ping, pong or close frame: skipped.
    NonBinary,
    /// The peer closed in an orderly way or reset without a closing
    /// handshake.
    RemoteClosed,
    /// Any other transport error.
    TransportError,
}

/// The shared state of one connection: the lifecycle flags and the
/// delivery queue. The socket halves and the task handles stay with the
/// caller; both tasks decide through this state.
pub struct MessageConnection {
    close: bool,
    handshake_sent: bool,
    certified: bool,
    queue: CommandQueue,
}

/// What `reader_step` must decide for a binary frame `bytes`, observed
/// with state `pre`, leaving state `post` and output `out`.
pub open spec fn reader_binary_matches(
    pre: MessageConnection,
    post: MessageConnection,
    bytes: Seq<u8>,
    out: ReaderOutput,
) -> bool {
    match spec_parse_head(bytes) {
        Err(e) => {
            // a header that cannot be decoded leaves no resynchronization
            // point: the reader ends
            &&& command_views(out.deliver@) == Seq::<Seq<u8>>::empty()
            &&& out.note is None
            &&& out.exit == Some(ExitCause::FramingError(e))
            &&& post == pre.spec_closed()
        },
        Ok(h) => {
            let body = bytes.skip(16);
            match (h.pkt_type, h.protocol) {
                (PacketType::Command, PacketProtocol::Command) => if json_accepts(body) {
                    reader_commands_match(pre, post, seq![body], 0, None, out)
                } else {
                    reader_warns(pre, post, ReaderNote::BadFrame(PayloadError::Json), out)
                },
                (PacketType::Command, PacketProtocol::CommandZlib) => match zlib_inflate(body) {
                    Option::None => reader_batch_rejected(pre, post, out),
                    Option::Some(inf) => reader_commands_match(
                        pre,
                        post,
                        spec_accepted(spec_split_batch(inf).0),
                        spec_rejected_count(spec_split_batch(inf).0),
                        spec_split_batch(inf).1,
                        out,
                    ),
                },
                (PacketType::Command, PacketProtocol::CommandBrotli) => match brotli_inflate(
                    body,
                ) {
                    Option::None => reader_batch_rejected(pre, post, out),
                    Option::Some(inf) => reader_commands_match(
                        pre,
                        post,
                        spec_accepted(spec_split_batch(inf).0),
                        spec_rejected_count(spec_split_batch(inf).0),
                        spec_split_batch(inf).1,
                        out,
                    ),
                },
                (PacketType::HeartbeatResp, PacketProtocol::Special) => if body.len() >= 4 {
                    &&& command_views(out.deliver@) == Seq::<Seq<u8>>::empty()
                    &&& out.note == Some(
                        ReaderNote::Popularity(spec_read_u32_be(body.subrange(0, 4))),
                    )
                    &&& out.exit is None
                    &&& post == pre
                } else {
                    reader_warns(
                        pre,
                        post,
                        ReaderNote::BadFrame(
                            PayloadError::TruncatedPopularity { got: body.len() as usize },
                        ),
                        out,
                    )
                },
                (PacketType::CertificateResp, PacketProtocol::Special) => match spec_cert_resp(
                    body,
                ) {
                    Option::Some(c) => if c.code == 0 {
                        &&& command_views(out.deliver@) == Seq::<Seq<u8>>::empty()
                        &&& out.note == Some(ReaderNote::AuthAccepted(c.code))
                        &&& out.exit is None
                        &&& post.spec_certified()
                        &&& post.spec_is_closed() == pre.spec_is_closed()
                        &&& post.spec_handshake_sent() == pre.spec_handshake_sent()
                        &&& post.view() == pre.view()
                        &&& post.spec_capacity() == pre.spec_capacity()
                    } else {
                        &&& command_views(out.deliver@) == Seq::<Seq<u8>>::empty()
                        &&& out.note is None
                        &&& out.exit == Some(ExitCause::AuthRejected(c.code))
                        &&& post == pre.spec_closed()
                    },
                    Option::None => reader_warns(
                        pre,
                        post,
                        ReaderNote::BadFrame(PayloadError::CertResp),
                        out,
                    ),
                },
                _ => reader_warns(
                    pre,
                    post,
                    ReaderNote::BadFrame(PayloadError::UnsupportedPacket(h)),
                    out,
                ),
            }
        },
    }
}

/// A recoverable bad frame: log it, deliver nothing, go on unchanged.
pub open spec fn reader_warns(
    pre: MessageConnection,
    post: MessageConnection,
    note: ReaderNote,
    out: ReaderOutput,
) -> bool {
    &&& command_views(out.deliver@) == Seq::<Seq<u8>>::empty()
    &&& out.note == Some(note)
    &&& out.exit is None
    &&& post == pre
}

/// A compressed stream the decompressor rejected: nothing to deliver, the
/// reader ends.
pub open spec fn reader_batch_rejected(
    pre: MessageConnection,
    post: MessageConnection,
    out: ReaderOutput,
) -> bool {
    &&& command_views(out.deliver@) == Seq::<Seq<u8>>::empty()
    &&& out.note is None
    &&& out.exit == Some(ExitCause::CompressionError(None))
    &&& post == pre.spec_closed()
}

/// Command bodies arrived. Before the certificate is accepted they are
/// not delivered. After it, they are delivered in order; malformed JSON
/// among them is only noted; a batch cut short delivers what it has and
/// ends the reader.
pub open spec fn reader_commands_match(
    pre: MessageConnection,
    post: MessageConnection,
    bodies: Seq<Seq<u8>>,
    json_errors: nat,
    batch_error: Option<BatchError>,
    out: ReaderOutput,
) -> bool {
    if !pre.spec_certified() {
        reader_warns(pre, post, ReaderNote::EarlyCommand, out)
    } else {
        &&& command_views(out.deliver@) == bodies
        &&& out.note == (if json_errors > 0 {
            Some(ReaderNote::JsonErrors(json_errors as usize))
        } else {
            Option::<ReaderNote>::None
        })
        &&& match batch_error {
            Some(e) => out.exit == Some(ExitCause::CompressionError(Some(e))) && post
                == pre.spec_closed(),
            None => out.exit is None && post == pre,
        }
    }
}

/// A reader output that delivers nothing.
fn no_commands(note: Option<ReaderNote>, exit: Option<ExitCause>) -> (out: ReaderOutput)
    ensures
        command_views(out.deliver@) == Seq::<Seq<u8>>::empty(),
        out.note == note,
        out.exit == exit,
{
    let deliver: Vec<RawCommand> = Vec::new();
    assert(command_views(deliver@) =~= Seq::<Seq<u8>>::empty());
    ReaderOutput { deliver, note, exit }
}

impl MessageConnection {
    /// The queued command bodies.
    pub closed spec fn view(&self) -> Seq<Seq<u8>> {
        self.queue.view()
    }

    /// Whether the connection was closed.
    pub closed spec fn spec_is_closed(&self) -> bool {
        self.close
    }

    /// Whether the certificate frame was handed out.
    pub closed spec fn spec_handshake_sent(&self) -> bool {
        self.handshake_sent
    }

    /// Whether the server accepted the certificate.
    pub closed spec fn spec_certified(&self) -> bool {
        self.certified
    }

    /// The channel capacity.
    pub closed spec fn spec_capacity(&self) -> usize {
        self.queue.spec_capacity()
    }

    /// This connection with the closed flag set and all else as it is.
    pub closed spec fn spec_closed(self) -> MessageConnection {
        MessageConnection { close: true, ..self }
    }

    /// The queue is well-formed.
    pub closed spec fn wf(&self) -> bool {
        self.queue.wf()
    }

    /// Where the connection stands: closed wins; otherwise it moves from
    /// connecting through handshaking to open.
    pub open spec fn spec_lifecycle(&self) -> ConnState {
        if self.spec_is_closed() {
            ConnState::Closed
        } else if self.spec_certified() {
            ConnState::Open
        } else if self.spec_handshake_sent() {
            ConnState::Handshaking
        } else {
            ConnState::Connecting
        }
    }

    /// A fresh connection: nothing sent, nothing queued.
    pub fn new(config: &NetworkConfig) -> (c: MessageConnection)
        requires
            config.wf(),
        ensures
            !c.spec_is_closed(),
            !c.spec_handshake_sent(),
            !c.spec_certified(),
            c.view() == Seq::<Seq<u8>>::empty(),
            c.spec_capacity() == config.channel_buffer,
            c.wf(),
    {
        MessageConnection {
            close: false,
            handshake_sent: false,
            certified: false,
            queue: CommandQueue::new(config.channel_buffer),
        }
    }

    /// Where the connection stands.
    pub fn lifecycle(&self) -> (s: ConnState)
        ensures
            s == self.spec_lifecycle(),
    {
        if self.close {
            ConnState::Closed
        } else if self.certified {
            ConnState::Open
        } else if self.handshake_sent {
            ConnState::Handshaking
        } else {
            ConnState::Connecting
        }
    }

    /// The certificate frame, the first frame of every connection: only
    /// callable before anything was sent, and the only way out of the
    /// connecting state.
    pub fn certificate_frame(&mut self, cert: &Certificate, sequence: u32) -> (r: Result<
        Vec<u8>,
        EncodeError,
    >)
        requires
            !old(self).spec_handshake_sent(),
            !old(self).spec_is_closed(),
        ensures
            16 + spec_certificate_body(*cert).len() <= u32::MAX ==> (r matches Ok(f) && f@
                == spec_frame_bytes(
                PacketProtocol::Special,
                PacketType::Certificate,
                sequence,
                spec_certificate_body(*cert),
            ) && final(self).spec_handshake_sent() && final(self).spec_is_closed() == old(
                self,
            ).spec_is_closed() && final(self).spec_certified() == old(self).spec_certified()
                && final(self).view() == old(self).view() && final(self).spec_capacity() == old(
                self,
            ).spec_capacity() && final(self).wf() == old(self).wf()),
            16 + spec_certificate_body(*cert).len() > u32::MAX ==> r == Err::<
                Vec<u8>,
                EncodeError,
            >(EncodeError::TooLarge) && *final(self) == *old(self),
    {
        let body = cert.body_bytes();
        match crate::message::encode_frame(
            PacketProtocol::Special,
            PacketType::Certificate,
            sequence,
            body.as_slice(),
        ) {
            Ok(f) => {
                self.handshake_sent = true;
                Ok(f)
            },
            Err(e) => Err(e),
        }
    }

    /// One turn of the heartbeat loop: `None` to end the loop once the
    /// connection is closed, else the frame to send. Runs only after the
    /// certificate went out.
    pub fn heartbeat_step(&self, sequence: u32) -> (r: Option<Vec<u8>>)
        requires
            self.spec_handshake_sent(),
        ensures
            self.spec_is_closed() ==> r is None,
            !self.spec_is_closed() ==> (r matches Some(f) && f@ == spec_frame_bytes(
                PacketProtocol::Special,
                PacketType::Heartbeat,
                sequence,
                spec_heartbeat_body(),
            )),
    {
        if self.close {
            None
        } else {
            Some(crate::message::heartbeat_frame(sequence))
        }
    }

    /// One turn of the reader loop. Runs only after the certificate went
    /// out and while the reader has not ended.
    pub fn reader_step(&mut self, event: WsEvent) -> (out: ReaderOutput)
        requires
            old(self).spec_handshake_sent(),
            !old(self).spec_is_closed(),
        ensures
            match event {
                WsEvent::Binary(b) => reader_binary_matches(*old(self), *final(self), b@, out),
                WsEvent::NonBinary => {
                    &&& command_views(out.deliver@) == Seq::<Seq<u8>>::empty()
                    &&& out.note is None
                    &&& out.exit is None
                    &&& *final(self) == *old(self)
                },
                WsEvent::RemoteClosed => {
                    &&& command_views(out.deliver@) == Seq::<Seq<u8>>::empty()
                    &&& out.note is None
                    &&& out.exit == Some(ExitCause::SocketClosedRemote)
                    &&& *final(self) == old(self).spec_closed()
                },
                WsEvent::TransportError => {
                    &&& command_views(out.deliver@) == Seq::<Seq<u8>>::empty()
                    &&& out.note is None
                    &&& out.exit == Some(ExitCause::SocketError)
                    &&& *final(self) == old(self).spec_closed()
                },
            },
    {
        match event {
            WsEvent::NonBinary => no_commands(None, None),
            WsEvent::RemoteClosed => {
                self.close = true;
                no_commands(None, Some(ExitCause::SocketClosedRemote))
            },
            WsEvent::TransportError => {
                self.close = true;
                no_commands(None, Some(ExitCause::SocketError))
            },
            WsEvent::Binary(bytes) => self.reader_binary(bytes),
        }
    }

    /// Applies one binary frame.
    fn reader_binary(&mut self, bytes: Vec<u8>) -> (out: ReaderOutput)
        requires
            old(self).spec_handshake_sent(),
            !old(self).spec_is_closed(),
        ensures
            reader_binary_matches(*old(self), *final(self), bytes@, out),
    {
        let decoded = match decode_message(bytes.as_slice()) {
            Ok(d) => d,
            Err(PayloadError::Head(e)) => {
                self.close = true;
                return no_commands(None, Some(ExitCause::FramingError(e)));
            },
            Err(PayloadError::Compression) => {
                self.close = true;
                return no_commands(None, Some(ExitCause::CompressionError(None)));
            },
            Err(e) => {
                return no_commands(Some(ReaderNote::BadFrame(e)), None);
            },
        };
        let Decoded { message, batch_error, json_errors } = decoded;
        match message.payload {
            MessagePayload::HeartbeatResp { popular } => no_commands(
                Some(ReaderNote::Popularity(popular)),
                None,
            ),
            MessagePayload::CertificateResp(c) => {
                if c.code == 0 {
                    self.certified = true;
                    no_commands(Some(ReaderNote::AuthAccepted(c.code)), None)
                } else {
                    self.close = true;
                    no_commands(None, Some(ExitCause::AuthRejected(c.code)))
                }
            },
            MessagePayload::Command(cmds) => {
                if !self.certified {
                    return no_commands(Some(ReaderNote::EarlyCommand), None);
                }
                let note = if json_errors > 0 {
                    Some(ReaderNote::JsonErrors(json_errors))
                } else {
                    None
                };
                match batch_error {
                    Some(e) => {
                        self.close = true;
                        ReaderOutput {
                            deliver: cmds,
                            note,
                            exit: Some(ExitCause::CompressionError(Some(e))),
                        }
                    },
                    None => ReaderOutput { deliver: cmds, note, exit: None },
                }
            },
            MessagePayload::Heartbeat | MessagePayload::Certificate(_) => {
                // decode_message never yields these payloads
                proof {
                    assert(false);
                }
                no_commands(None, None)
            },
        }
    }

    /// Queues one command for the consumer; hands it back when the queue
    /// is full, so the caller waits instead of dropping it.
    pub fn push_command(&mut self, cmd: RawCommand) -> (r: Result<(), RawCommand>)
        requires
            old(self).wf(),
        ensures
            final(self).wf(),
            final(self).spec_capacity() == old(self).spec_capacity(),
            final(self).spec_is_closed() == old(self).spec_is_closed(),
            final(self).spec_handshake_sent() == old(self).spec_handshake_sent(),
            final(self).spec_certified() == old(self).spec_certified(),
            old(self).view().len() < old(self).spec_capacity() ==> r is Ok && final(self).view()
                == old(self).view().push(cmd.body@),
            old(self).view().len() >= old(self).spec_capacity() ==> (r matches Err(c) && c.body@
                == cmd.body@ && final(self).view() == old(self).view()),
    {
        self.queue.try_push(cmd)
    }

    /// The pull side of the stream: the front command while any is
    /// queued — also after `close`, so queued commands drain — and `None`
    /// on an empty queue.
    pub fn next_command(&mut self) -> (r: Option<RawCommand>)
        requires
            old(self).wf(),
        ensures
            final(self).wf(),
            final(self).spec_capacity() == old(self).spec_capacity(),
            final(self).spec_is_closed() == old(self).spec_is_closed(),
            final(self).spec_handshake_sent() == old(self).spec_handshake_sent(),
            final(self).spec_certified() == old(self).spec_certified(),
            old(self).view().len() == 0 ==> r is None && final(self).view() == old(self).view(),
            old(self).view().len() > 0 ==> (r matches Some(c) && c.body@ == old(self).view()[0]
                && final(self).view() == old(self).view().drop_first()),
    {
        self.queue.pop()
    }

    /// Whether the stream has ended: the connection is closed and the
    /// queue is drained.
    pub fn is_ended(&self) -> (r: bool)
        ensures
            r == (self.spec_is_closed() && self.view().len() == 0),
    {
        self.close && self.queue.len() == 0
    }

    /// Whether the loops should end.
    pub fn should_close(&self) -> (r: bool)
        ensures
            r == self.spec_is_closed(),
    {
        self.close
    }

    /// Closes the connection: idempotent, and the queued commands stay
    /// for the consumer to drain.
    pub fn close(&mut self)
        ensures
            *final(self) == old(self).spec_closed(),
            old(self).spec_is_closed() ==> *final(self) == *old(self),
    {
        if self.close {
            return;
        }
        self.close = true;
    }
}

/// Closing twice is the same as closing once, whatever the state:
/// cancellation is idempotent.
pub proof fn lemma_close_idempotent(c: MessageConnection)
    ensures
        c.spec_closed().spec_closed() == c.spec_closed(),
{
}

/// The handshake order: the frame `certificate_frame` emits — the only
/// frame a connection can produce before `heartbeat_step` and
/// `reader_step` become callable — decodes as a certificate packet. A
/// server that records incoming frames therefore sees a certificate
/// first, and no command frame before it.
pub proof fn lemma_first_frame_is_certificate(cert: Certificate, sequence: u32)
    requires
        16 + spec_certificate_body(cert).len() <= u32::MAX,
    ensures
        spec_parse_head(
            spec_frame_bytes(
                PacketProtocol::Special,
                PacketType::Certificate,
                sequence,
                spec_certificate_body(cert),
            ),
        ) matches Ok(h) && h.pkt_type == PacketType::Certificate && h.protocol
            == PacketProtocol::Special,
{
    crate::message::lemma_frame_round_trip(
        PacketProtocol::Special,
        PacketType::Certificate,
        sequence,
        spec_certificate_body(cert),
    );
}

/// What closing changes: the closed flag, and nothing else. The queued
/// commands stay for the consumer.
pub proof fn lemma_closed_fields(c: MessageConnection)
    ensures
        c.spec_closed().spec_is_closed(),
        c.spec_closed().spec_handshake_sent() == c.spec_handshake_sent(),
        c.spec_closed().spec_certified() == c.spec_certified(),
        c.spec_closed().view() == c.view(),
        c.spec_closed().spec_capacity() == c.spec_capacity(),
        c.spec_closed().wf() == c.wf(),
{
}

} // verus!
