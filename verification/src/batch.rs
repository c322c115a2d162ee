//! Compressed command batches.
//!
//! A batch frame's payload is a zlib- or brotli-compressed stream that,
//! once inflated, holds a concatenation of sub-envelopes: each a 16-byte
//! header followed by a JSON command body. Inflation goes through the
//! outside crates; splitting the inflated stream and checking each body is
//! verified here. A malformed sub-envelope ends the batch, but the bodies
//! split off before it are kept and handed on: deliver what you have.

use vstd::prelude::*;

use crate::head::{spec_parse_head, HeadReadError, MessageHead};
use crate::json::{json_accepts, json_validate};
use crate::message::RawCommand;
use crate::wire::copy_range;

verus! {

/// What the zlib stream `s` inflates to, or `None` when flate2 rejects it.
pub uninterp spec fn zlib_inflate(s: Seq<u8>) -> Option<Seq<u8>>;

/// Relies on `flate2::read::ZlibDecoder` read to the end: what a zlib
/// stream inflates to, and whether it is well-formed, is a function of the
/// compressed bytes alone.
#[verifier::external_body]
pub(crate) fn zlib_decompress(bytes: &[u8]) -> (r: Option<Vec<u8>>)
    ensures
        match r {
            Some(v) => zlib_inflate(bytes@) == Some(v@),
            None => zlib_inflate(bytes@) is None,
        },
{
    let mut out: Vec<u8> = Vec::new();
    match std::io::Read::read_to_end(&mut flate2::read::ZlibDecoder::new(bytes), &mut out) {
        Ok(_) => Some(out),
        Err(_) => None,
    }
}

/// What the brotli stream `s` inflates to, or `None` when the decoder
/// rejects it.
pub uninterp spec fn brotli_inflate(s: Seq<u8>) -> Option<Seq<u8>>;

/// Relies on `brotli::Decompressor` read to the end: what a brotli stream
/// inflates to, and whether it is well-formed, is a function of the
/// compressed bytes alone.
#[verifier::external_body]
pub(crate) fn brotli_decompress(bytes: &[u8]) -> (r: Option<Vec<u8>>)
    ensures
        match r {
            Some(v) => brotli_inflate(bytes@) == Some(v@),
            None => brotli_inflate(bytes@) is None,
        },
{
    let mut out: Vec<u8> = Vec::new();
    match std::io::Read::read_to_end(&mut brotli::Decompressor::new(bytes, 4096), &mut out) {
        Ok(_) => Some(out),
        Err(_) => None,
    }
}

/// Why a batch ended before its stream did.
#[derive(Clone, Copy, Debug, PartialEq, Eq, Structural)]
pub enum BatchError {
    /// A sub-envelope header failed to decode.
    Head(HeadReadError),
    /// The stream ended inside a header; this many of its 16 bytes arrived.
    TruncatedHeader { got: usize },
    /// A sub-envelope declared a total size below its header size.
    BadSize { size: u32, head_size: u16 },
    /// The stream ended inside a body; `expected` bytes were declared,
    /// `got` actually arrived.
    TruncatedBody { expected: usize, got: usize },
}

/// Splits an inflated stream into its command bodies, in order, with the
/// error that ended the batch if one did. Bodies split off before the
/// error are kept.
pub open spec fn spec_split_batch(s: Seq<u8>) -> (Seq<Seq<u8>>, Option<BatchError>)
    decreases s.len(),
{
    if s.len() == 0 {
        (Seq::empty(), None)
    } else if s.len() < 16 {
        (Seq::empty(), Some(BatchError::TruncatedHeader { got: s.len() as usize }))
    } else {
        match spec_parse_head(s) {
            Err(e) => (Seq::empty(), Some(BatchError::Head(e))),
            Ok(h) => {
                if h.size < h.head_size {
                    (
                        Seq::empty(),
                        Some(BatchError::BadSize { size: h.size, head_size: h.head_size }),
                    )
                } else {
                    let body_len = h.size - h.head_size;
                    if s.len() - 16 < body_len {
                        (
                            Seq::empty(),
                            Some(
                                BatchError::TruncatedBody {
                                    expected: body_len as usize,
                                    got: (s.len() - 16) as usize,
                                },
                            ),
                        )
                    } else {
                        let rest = spec_split_batch(s.skip(16 + body_len));
                        (seq![s.subrange(16, 16 + body_len)] + rest.0, rest.1)
                    }
                }
            },
        }
    }
}

/// The views of a vector of byte vectors.
pub open spec fn byte_views(v: Seq<Vec<u8>>) -> Seq<Seq<u8>> {
    v.map_values(|b: Vec<u8>| b@)
}

/// Splits an inflated batch stream into the bodies of its sub-envelopes.
#[verifier::loop_isolation(false)]
pub fn split_batch(s: &[u8]) -> (r: (Vec<Vec<u8>>, Option<BatchError>))
    ensures
        byte_views(r.0@) == spec_split_batch(s@).0,
        r.1 == spec_split_batch(s@).1,
{
    let mut bodies: Vec<Vec<u8>> = Vec::new();
    let mut pos: usize = 0;
    assert(s@.skip(0) =~= s@);
    loop
        invariant
            pos <= s@.len(),
            spec_split_batch(s@).0 =~= byte_views(bodies@) + spec_split_batch(
                s@.skip(pos as int),
            ).0,
            spec_split_batch(s@).1 == spec_split_batch(s@.skip(pos as int)).1,
        decreases s@.len() - pos,
    {
        let ghost rem = s@.skip(pos as int);
        let remaining = s.len() - pos;
        if remaining == 0 {
            assert(byte_views(bodies@) + spec_split_batch(rem).0 =~= byte_views(bodies@));
            return (bodies, None);
        }
        if remaining < 16 {
            assert(byte_views(bodies@) + spec_split_batch(rem).0 =~= byte_views(bodies@));
            return (bodies, Some(BatchError::TruncatedHeader { got: remaining }));
        }
        let h = match MessageHead::from_bytes_at(s, pos) {
            Ok(h) => h,
            Err(e) => {
                assert(byte_views(bodies@) + spec_split_batch(rem).0 =~= byte_views(bodies@));
                return (bodies, Some(BatchError::Head(e)));
            },
        };
        if h.size < h.head_size as u32 {
            assert(byte_views(bodies@) + spec_split_batch(rem).0 =~= byte_views(bodies@));
            return (bodies, Some(BatchError::BadSize { size: h.size, head_size: h.head_size }));
        }
        let body_len_32 = h.size - h.head_size as u32;
        let body_len: usize = body_len_32 as usize;
        if remaining - 16 < body_len {
            assert(byte_views(bodies@) + spec_split_batch(rem).0 =~= byte_views(bodies@));
            return (
                bodies,
                Some(BatchError::TruncatedBody { expected: body_len, got: remaining - 16 }),
            );
        }
        let body = copy_range(s, pos + 16, pos + 16 + body_len);
        proof {
            assert(rem.subrange(16, 16 + body_len) =~= s@.subrange(
                pos + 16,
                pos + 16 + body_len,
            ));
            assert(rem.skip(16 + body_len) =~= s@.skip(pos + 16 + body_len));
        }
        bodies.push(body);
        proof {
            assert(byte_views(bodies@) =~= byte_views(bodies@.drop_last()) + seq![
                s@.subrange(pos + 16, pos + 16 + body_len),
            ]);
            assert(spec_split_batch(s@).0 =~= byte_views(bodies@) + spec_split_batch(
                s@.skip(pos + 16 + body_len),
            ).0);
        }
        pos = pos + 16 + body_len;
    }
}

/// The bodies of `bodies` that are well-formed JSON, in order.
pub open spec fn spec_accepted(bodies: Seq<Seq<u8>>) -> Seq<Seq<u8>>
    decreases bodies.len(),
{
    if bodies.len() == 0 {
        Seq::empty()
    } else if json_accepts(bodies[0]) {
        seq![bodies[0]] + spec_accepted(bodies.drop_first())
    } else {
        spec_accepted(bodies.drop_first())
    }
}

/// How many bodies of `bodies` are not well-formed JSON.
pub open spec fn spec_rejected_count(bodies: Seq<Seq<u8>>) -> nat
    decreases bodies.len(),
{
    if bodies.len() == 0 {
        0
    } else if json_accepts(bodies[0]) {
        spec_rejected_count(bodies.drop_first())
    } else {
        1 + spec_rejected_count(bodies.drop_first())
    }
}

/// The command views of decoded commands.
pub open spec fn command_views(cmds: Seq<RawCommand>) -> Seq<Seq<u8>> {
    cmds.map_values(|c: RawCommand| c.body@)
}

/// Keeps the bodies that are well-formed JSON as commands, in order, and
/// counts the ones that are not: a bad command is dropped, the batch goes
/// on.
#[verifier::loop_isolation(false)]
pub fn accept_commands(bodies: &Vec<Vec<u8>>) -> (r: (Vec<RawCommand>, usize))
    ensures
        command_views(r.0@) == spec_accepted(byte_views(bodies@)),
        r.1 == spec_rejected_count(byte_views(bodies@)),
{
    let mut cmds: Vec<RawCommand> = Vec::new();
    let mut rejected: usize = 0;
    let mut i: usize = 0;
    let ghost all = byte_views(bodies@);
    assert(all.skip(0) =~= all);
    let n = bodies.len();
    while i < n
        invariant
            i <= n == all.len(),
            rejected <= i,
            spec_accepted(all) =~= command_views(cmds@) + spec_accepted(all.skip(i as int)),
            rejected == spec_rejected_count(all) - spec_rejected_count(all.skip(i as int)),
        decreases n - i,
    {
        assert(all.skip(i as int)[0] == all[i as int]);
        assert(all.skip(i as int).drop_first() =~= all.skip(i + 1));
        let bref = &bodies[i];
        if json_validate(bref.as_slice()) {
            let body = copy_range(bref.as_slice(), 0, bref.len());
            assert(body@ =~= all[i as int]);
            cmds.push(RawCommand { body });
            assert(command_views(cmds@) =~= command_views(cmds@.drop_last()) + seq![
                all[i as int],
            ]);
            assert(spec_accepted(all) =~= command_views(cmds@) + spec_accepted(all.skip(i + 1)));
        } else {
            rejected = rejected + 1;
        }
        i = i + 1;
    }
    assert(all.skip(n as int) =~= Seq::<Seq<u8>>::empty());
    (cmds, rejected)
}

/// When every body of a batch is well-formed JSON, all of them become
/// commands, in order, and none is counted as rejected. Together with
/// [`lemma_split_concat`]: a compressed batch of N well-formed
/// sub-envelopes with valid bodies decodes to exactly N commands in order.
pub proof fn lemma_accepted_all(bodies: Seq<Seq<u8>>)
    requires
        forall|i: int| 0 <= i < bodies.len() ==> json_accepts(#[trigger] bodies[i]),
    ensures
        spec_accepted(bodies) == bodies,
        spec_rejected_count(bodies) == 0,
    decreases bodies.len(),
{
    if bodies.len() == 0 {
        assert(spec_accepted(bodies) =~= bodies);
    } else {
        assert(forall|i: int|
            0 <= i < bodies.drop_first().len() ==> json_accepts(
                #[trigger] bodies.drop_first()[i],
            ));
        lemma_accepted_all(bodies.drop_first());
        assert(spec_accepted(bodies) =~= bodies);
    }
}

/// Splitting the concatenation of well-formed sub-envelopes yields exactly
/// their bodies, in order, and no error: what a well-formed compressed
/// batch of N commands decodes to.
pub proof fn lemma_split_concat(frames: Seq<Seq<u8>>, bodies: Seq<Seq<u8>>)
    requires
        frames.len() == bodies.len(),
        forall|i: int|
            0 <= i < frames.len() ==> {
                &&& #[trigger] frames[i].len() == 16 + bodies[i].len()
                &&& bodies[i].len() + 16 <= u32::MAX
                &&& spec_parse_head(frames[i]) matches Ok(h) && h.size == frames[i].len()
                    && h.head_size == 16
                &&& frames[i].skip(16) == bodies[i]
            },
    ensures
        spec_split_batch(frames.flatten()) == (bodies, Option::<BatchError>::None),
    decreases frames.len(),
{
    if frames.len() == 0 {
        assert(frames.flatten() =~= Seq::<u8>::empty());
        assert(spec_split_batch(frames.flatten()).0 =~= bodies);
    } else {
        let s = frames.flatten();
        let f0 = frames[0];
        let b0 = bodies[0];
        let tail = frames.drop_first().flatten();
        assert(s =~= f0 + tail) by {
            assert(frames =~= seq![f0] + frames.drop_first());
            vstd::seq_lib::lemma_flatten_concat(seq![f0], frames.drop_first());
            assert(seq![f0].flatten() =~= f0);
        }
        lemma_split_concat(frames.drop_first(), bodies.drop_first());
        assert(s.len() >= 16);
        // the head of the concatenation parses as the head of the first frame
        let h = spec_parse_head(f0)->Ok_0;
        assert(spec_parse_head(s) == Ok::<MessageHead, HeadReadError>(h)) by {
            assert(s.subrange(0, 4) =~= f0.subrange(0, 4));
            assert(s.subrange(4, 6) =~= f0.subrange(4, 6));
            assert(s.subrange(6, 8) =~= f0.subrange(6, 8));
            assert(s.subrange(8, 12) =~= f0.subrange(8, 12));
            assert(s.subrange(12, 16) =~= f0.subrange(12, 16));
        }
        assert(h.size - h.head_size == b0.len());
        assert(s.subrange(16, 16 + b0.len() as int) =~= f0.skip(16));
        assert(s.skip(16 + b0.len() as int) =~= tail);
        assert(spec_split_batch(s).0 =~= bodies) by {
            assert(spec_split_batch(s).0 =~= seq![b0] + bodies.drop_first());
            assert(seq![b0] + bodies.drop_first() =~= bodies);
        }
    }
}

} // verus!
