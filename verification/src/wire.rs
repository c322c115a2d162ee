//! Big-endian integer fields of the wire format.
//!
//! Every envelope field is written most-significant byte first. The spec
//! functions here give the byte image of a field and the value read back
//! from bytes; the executable functions are proved against them.

use vstd::prelude::*;

verus! {

/// Byte image of a `u16`, most significant byte first.
pub open spec fn spec_u16_be(x: u16) -> Seq<u8> {
    seq![(x / 0x100) as u8, (x % 0x100) as u8]
}

/// Byte image of a `u32`, most significant byte first.
pub open spec fn spec_u32_be(x: u32) -> Seq<u8> {
    seq![
        (x / 0x1000000) as u8,
        ((x / 0x10000) % 0x100) as u8,
        ((x / 0x100) % 0x100) as u8,
        (x % 0x100) as u8,
    ]
}

/// Value of two big-endian bytes.
pub open spec fn spec_read_u16_be(s: Seq<u8>) -> u16
    recommends
        s.len() == 2,
{
    (s[0] * 0x100 + s[1]) as u16
}

/// Value of four big-endian bytes.
pub open spec fn spec_read_u32_be(s: Seq<u8>) -> u32
    recommends
        s.len() == 4,
{
    (s[0] * 0x1000000 + s[1] * 0x10000 + s[2] * 0x100 + s[3]) as u32
}

/// Reading back the image of a `u16` yields the value again.
pub proof fn lemma_u16_be_round_trip(x: u16)
    ensures
        spec_read_u16_be(spec_u16_be(x)) == x,
{
}

/// Reading back the image of a `u32` yields the value again.
pub proof fn lemma_u32_be_round_trip(x: u32)
    ensures
        spec_read_u32_be(spec_u32_be(x)) == x,
{
    assert(x / 0x1000000 < 0x100) by (nonlinear_arith);
    assert((x / 0x1000000) * 0x1000000 + ((x / 0x10000) % 0x100) * 0x10000 + ((x / 0x100) % 0x100)
        * 0x100 + (x % 0x100) == x) by (nonlinear_arith);
}

/// Appends the two big-endian bytes of `x` to `out`.
pub fn write_u16_be(out: &mut Vec<u8>, x: u16)
    ensures
        final(out)@ == old(out)@ + spec_u16_be(x),
{
    out.push((x / 0x100) as u8);
    out.push((x % 0x100) as u8);
    assert(final(out)@ =~= old(out)@ + spec_u16_be(x));
}

/// Appends the four big-endian bytes of `x` to `out`.
pub fn write_u32_be(out: &mut Vec<u8>, x: u32)
    ensures
        final(out)@ == old(out)@ + spec_u32_be(x),
{
    out.push((x / 0x1000000) as u8);
    out.push(((x / 0x10000) % 0x100) as u8);
    out.push(((x / 0x100) % 0x100) as u8);
    out.push((x % 0x100) as u8);
    assert(final(out)@ =~= old(out)@ + spec_u32_be(x));
}

/// Reads a big-endian `u16` from `bytes` at `at`.
pub fn read_u16_be(bytes: &[u8], at: usize) -> (x: u16)
    requires
        at + 2 <= bytes@.len(),
    ensures
        x == spec_read_u16_be(bytes@.subrange(at as int, at + 2)),
{
    let hi = bytes[at];
    let lo = bytes[at + 1];
    let s = Ghost(bytes@.subrange(at as int, at + 2));
    assert(s@[0] == hi && s@[1] == lo);
    hi as u16 * 0x100 + lo as u16
}

/// Reads a big-endian `u32` from `bytes` at `at`.
pub fn read_u32_be(bytes: &[u8], at: usize) -> (x: u32)
    requires
        at + 4 <= bytes@.len(),
    ensures
        x == spec_read_u32_be(bytes@.subrange(at as int, at + 4)),
{
    let b0 = bytes[at];
    let b1 = bytes[at + 1];
    let b2 = bytes[at + 2];
    let b3 = bytes[at + 3];
    let s = Ghost(bytes@.subrange(at as int, at + 4));
    assert(s@[0] == b0 && s@[1] == b1 && s@[2] == b2 && s@[3] == b3);
    b0 as u32 * 0x1000000 + b1 as u32 * 0x10000 + b2 as u32 * 0x100 + b3 as u32
}

/// Copies `bytes[from..to]` into a fresh vector.
pub fn copy_range(bytes: &[u8], from: usize, to: usize) -> (r: Vec<u8>)
    requires
        from <= to <= bytes@.len(),
    ensures
        r@ == bytes@.subrange(from as int, to as int),
{
    let mut out: Vec<u8> = Vec::new();
    let mut i: usize = from;
    assert(out@ =~= bytes@.subrange(from as int, from as int));
    while i < to
        invariant
            from <= i <= to <= bytes@.len(),
            out@ == bytes@.subrange(from as int, i as int),
        decreases to - i,
    {
        out.push(bytes[i]);
        assert(out@ =~= bytes@.subrange(from as int, i + 1));
        i = i + 1;
    }
    out
}

} // verus!
