//! JSON values and JSON text, as far as the wire logic needs them.
//!
//! Incoming command payloads are JSON documents; the library checks their
//! validity through `serde_json` and otherwise treats them as opaque bytes.
//! Consumers that do inspect a document (the danmaku decoder) work on
//! [`JsonNode`], a tree of plain values; whoever parses the document hands
//! the library that tree. Outgoing payloads (the certificate body) are JSON
//! text that this module renders byte by byte, with the same string escapes
//! that `serde_json` writes.

use vstd::prelude::*;

verus! {

/// Appends all of `bytes` to `out`.
pub fn push_bytes(out: &mut Vec<u8>, bytes: &[u8])
    ensures
        final(out)@ == old(out)@ + bytes@,
{
    let mut i: usize = 0;
    while i < bytes.len()
        invariant
            i <= bytes@.len(),
            out@ == old(out)@ + bytes@.take(i as int),
        decreases bytes@.len() - i,
    {
        out.push(bytes[i]);
        assert(out@ =~= old(out)@ + bytes@.take(i + 1));
        i = i + 1;
    }
    assert(out@ =~= old(out)@ + bytes@);
}

/// Decimal digits of `n`, most significant first, no sign and no padding.
pub open spec fn spec_decimal(n: nat) -> Seq<u8>
    decreases n,
{
    if n < 10 {
        seq![(48 + n) as u8]
    } else {
        spec_decimal(n / 10) + seq![(48 + n % 10) as u8]
    }
}

/// Appends the decimal digits of `n` to `out`.
pub fn push_decimal(out: &mut Vec<u8>, n: u64)
    ensures
        final(out)@ == old(out)@ + spec_decimal(n as nat),
    decreases n,
{
    if n < 10 {
        out.push(48 + n as u8);
        assert(final(out)@ =~= old(out)@ + spec_decimal(n as nat));
    } else {
        push_decimal(out, n / 10);
        out.push(48 + (n % 10) as u8);
        assert(final(out)@ =~= old(out)@ + spec_decimal(n as nat));
    }
}

/// Lowercase hex digit for a value below 16.
pub open spec fn spec_hex_char(v: u8) -> u8 {
    if v < 10 {
        (48 + v) as u8
    } else {
        (87 + v) as u8
    }
}

/// How one byte of a JSON string is written: `"` and `\` get a backslash,
/// the control bytes with short escapes get those, the other control bytes
/// get `\u00XX` with lowercase hex, everything else stands as it is.
pub open spec fn spec_escape_byte(b: u8) -> Seq<u8> {
    if b == 34 {
        seq![92u8, 34u8]
    } else if b == 92 {
        seq![92u8, 92u8]
    } else if b == 8 {
        seq![92u8, 98u8]
    } else if b == 9 {
        seq![92u8, 116u8]
    } else if b == 10 {
        seq![92u8, 110u8]
    } else if b == 12 {
        seq![92u8, 102u8]
    } else if b == 13 {
        seq![92u8, 114u8]
    } else if b < 32 {
        seq![92u8, 117u8, 48u8, 48u8, spec_hex_char(b / 16), spec_hex_char(b % 16)]
    } else {
        seq![b]
    }
}

/// The escaped form of a whole string body.
pub open spec fn spec_escape(s: Seq<u8>) -> Seq<u8>
    decreases s.len(),
{
    if s.len() == 0 {
        Seq::empty()
    } else {
        spec_escape_byte(s[0]) + spec_escape(s.drop_first())
    }
}

/// Escaping distributes over concatenation.
pub proof fn lemma_escape_concat(a: Seq<u8>, b: Seq<u8>)
    ensures
        spec_escape(a + b) == spec_escape(a) + spec_escape(b),
    decreases a.len(),
{
    if a.len() == 0 {
        assert(a + b =~= b);
        assert(spec_escape(a) + spec_escape(b) =~= spec_escape(b));
    } else {
        assert((a + b).drop_first() =~= a.drop_first() + b);
        lemma_escape_concat(a.drop_first(), b);
        assert(spec_escape(a + b) =~= spec_escape(a) + spec_escape(b));
    }
}

/// Appends the escaped form of one byte to `out`.
fn push_escaped_byte(out: &mut Vec<u8>, b: u8)
    ensures
        final(out)@ == old(out)@ + spec_escape_byte(b),
{
    if b == 34 {
        out.push(92);
        out.push(34);
    } else if b == 92 {
        out.push(92);
        out.push(92);
    } else if b == 8 {
        out.push(92);
        out.push(98);
    } else if b == 9 {
        out.push(92);
        out.push(116);
    } else if b == 10 {
        out.push(92);
        out.push(110);
    } else if b == 12 {
        out.push(92);
        out.push(102);
    } else if b == 13 {
        out.push(92);
        out.push(114);
    } else if b < 32 {
        out.push(92);
        out.push(117);
        out.push(48);
        out.push(48);
        let hi = b / 16;
        let lo = b % 16;
        out.push(if hi < 10 { 48 + hi } else { 87 + hi });
        out.push(if lo < 10 { 48 + lo } else { 87 + lo });
    } else {
        out.push(b);
    }
    assert(final(out)@ =~= old(out)@ + spec_escape_byte(b));
}

/// Appends the escaped form of `s` to `out`, without the surrounding quotes.
pub fn push_escaped(out: &mut Vec<u8>, s: &[u8])
    ensures
        final(out)@ == old(out)@ + spec_escape(s@),
{
    let mut i: usize = 0;
    while i < s.len()
        invariant
            i <= s@.len(),
            out@ == old(out)@ + spec_escape(s@.take(i as int)),
        decreases s@.len() - i,
    {
        push_escaped_byte(out, s[i]);
        proof {
            lemma_escape_concat(s@.take(i as int), seq![s@[i as int]]);
            assert(s@.take(i + 1) =~= s@.take(i as int) + seq![s@[i as int]]);
            assert(seq![s@[i as int]].drop_first() =~= Seq::<u8>::empty());
            assert(spec_escape(Seq::<u8>::empty()) == Seq::<u8>::empty());
            assert(spec_escape(seq![s@[i as int]]) =~= spec_escape_byte(s@[i as int]));
            assert(out@ =~= old(out)@ + spec_escape(s@.take(i + 1)));
        }
        i = i + 1;
    }
    assert(s@.take(s@.len() as int) =~= s@);
}

/// A JSON string: the escaped body between double quotes.
pub open spec fn spec_json_string(s: Seq<u8>) -> Seq<u8> {
    seq![34u8] + spec_escape(s) + seq![34u8]
}

/// Appends the JSON string form of `s` (quotes included) to `out`.
pub fn push_json_string(out: &mut Vec<u8>, s: &[u8])
    ensures
        final(out)@ == old(out)@ + spec_json_string(s@),
{
    out.push(34);
    push_escaped(out, s);
    out.push(34);
    assert(final(out)@ =~= old(out)@ + spec_json_string(s@));
}

/// Whether `serde_json` accepts these bytes as one JSON document.
pub uninterp spec fn json_accepts(s: Seq<u8>) -> bool;

/// Relies on `serde_json::from_slice::<Value>`: whether a byte slice is one
/// well-formed JSON document is a function of the bytes alone.
#[verifier::external_body]
pub(crate) fn json_validate(bytes: &[u8]) -> (r: bool)
    ensures
        r == json_accepts(bytes@),
{
    serde_json::from_slice::<serde_json::Value>(bytes).is_ok()
}

/// A JSON document as a tree of plain values.
///
/// Numbers keep the distinction the wire logic cares about: unsigned
/// integers, negative integers, and non-integral numbers, whose value no
/// field of this library reads.
#[derive(Debug)]
pub enum JsonNode {
    /// `null`.
    Null,
    /// `true` or `false`.
    Bool(bool),
    /// A non-negative integer.
    UInt(u64),
    /// An integer below zero, or any integer a caller chooses to store signed.
    Int(i64),
    /// A number that is not an integer; its value is never read.
    Float,
    /// A string.
    Str(String),
    /// An array.
    Arr(Vec<JsonNode>),
    /// An object, as its members in document order.
    Obj(Vec<(String, JsonNode)>),
}

/// The member of `pairs` named `key`, first match.
pub open spec fn spec_member(pairs: Seq<(String, JsonNode)>, key: Seq<char>) -> Option<JsonNode>
    decreases pairs.len(),
{
    if pairs.len() == 0 {
        None
    } else if pairs[0].0@ == key {
        Some(pairs[0].1)
    } else {
        spec_member(pairs.drop_first(), key)
    }
}

impl JsonNode {
    /// The unsigned value of this node, as `serde_json`'s `as_u64` gives it.
    pub open spec fn spec_as_u64(&self) -> Option<u64> {
        match self {
            JsonNode::UInt(n) => Some(*n),
            _ => None,
        }
    }

    /// The signed value of this node, as `serde_json`'s `as_i64` gives it:
    /// a stored signed integer, or an unsigned one that fits.
    pub open spec fn spec_as_i64(&self) -> Option<i64> {
        match self {
            JsonNode::Int(n) => Some(*n),
            JsonNode::UInt(n) => if *n <= i64::MAX as u64 {
                Some(*n as i64)
            } else {
                None
            },
            _ => None,
        }
    }

    /// The unsigned value, if the node holds one.
    pub fn as_u64(&self) -> (r: Option<u64>)
        ensures
            r == self.spec_as_u64(),
    {
        match self {
            JsonNode::UInt(n) => Some(*n),
            _ => None,
        }
    }

    /// The signed value, if the node holds an integer that fits `i64`.
    pub fn as_i64(&self) -> (r: Option<i64>)
        ensures
            r == self.spec_as_i64(),
    {
        match self {
            JsonNode::Int(n) => Some(*n),
            JsonNode::UInt(n) => if *n <= i64::MAX as u64 {
                Some(*n as i64)
            } else {
                None
            },
            _ => None,
        }
    }

    /// The string, if the node holds one.
    pub fn as_str(&self) -> (r: Option<&String>)
        ensures
            match r {
                Some(s) => self matches JsonNode::Str(t) && t == s,
                None => !(self matches JsonNode::Str(_)),
            },
    {
        match self {
            JsonNode::Str(s) => Some(s),
            _ => None,
        }
    }

    /// The elements, if the node holds an array.
    pub fn as_array(&self) -> (r: Option<&Vec<JsonNode>>)
        ensures
            match r {
                Some(v) => self matches JsonNode::Arr(w) && w == v,
                None => !(self matches JsonNode::Arr(_)),
            },
    {
        match self {
            JsonNode::Arr(v) => Some(v),
            _ => None,
        }
    }

    /// Whether the node holds a string.
    pub fn is_string(&self) -> (r: bool)
        ensures
            r == self matches JsonNode::Str(_),
    {
        match self {
            JsonNode::Str(_) => true,
            _ => false,
        }
    }

    /// Whether the node holds an unsigned integer.
    pub fn is_u64(&self) -> (r: bool)
        ensures
            r == self matches JsonNode::UInt(_),
    {
        match self {
            JsonNode::UInt(_) => true,
            _ => false,
        }
    }

    /// Whether the node holds an object.
    pub fn is_object(&self) -> (r: bool)
        ensures
            r == self matches JsonNode::Obj(_),
    {
        match self {
            JsonNode::Obj(_) => true,
            _ => false,
        }
    }

    /// The member named `key`, if the node is an object that has one.
    #[verifier::loop_isolation(false)]
    pub fn member(&self, key: &String) -> (r: Option<&JsonNode>)
        ensures
            match r {
                Some(n) => self matches JsonNode::Obj(pairs) && spec_member(pairs@, key@)
                    == Some(*n),
                None => self matches JsonNode::Obj(pairs) ==> spec_member(pairs@, key@) is None,
            },
    {
        match self {
            JsonNode::Obj(pairs) => {
                let mut i: usize = 0;
                assert(pairs@.skip(0) =~= pairs@);
                while i < pairs.len()
                    invariant
                        i <= pairs@.len(),
                        spec_member(pairs@, key@) == spec_member(pairs@.skip(i as int), key@),
                    decreases pairs@.len() - i,
                {
                    assert(pairs@.skip(i as int)[0] == pairs@[i as int]);
                    let p = &pairs[i];
                    if p.0 == *key {
                        assert(spec_member(pairs@.skip(i as int), key@) == Some(
                            pairs@[i as int].1,
                        ));
                        assert(spec_member(pairs@, key@) == Some(p.1));
                        return Some(&p.1);
                    }
                    assert(pairs@.skip(i as int).drop_first() =~= pairs@.skip(i + 1));
                    i = i + 1;
                }
                assert(pairs@.skip(pairs@.len() as int) =~= Seq::<(String, JsonNode)>::empty());
                None
            },
            _ => None,
        }
    }
}

} // verus!
