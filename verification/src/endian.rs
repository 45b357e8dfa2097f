//! Byte-order conversions for the wire protocol.
//!
//! Message headers carry big-endian integers; the port handed over during the
//! connection handshake is little-endian. Both directions are verified against
//! the spec-level byte layouts below.

use vstd::prelude::*;

verus! {

/// The big-endian bytes of a 64-bit integer, most significant first.
pub open spec fn be_bytes_u64(x: u64) -> Seq<u8> {
    seq![
        ((x >> 56) & 0xff) as u8,
        ((x >> 48) & 0xff) as u8,
        ((x >> 40) & 0xff) as u8,
        ((x >> 32) & 0xff) as u8,
        ((x >> 24) & 0xff) as u8,
        ((x >> 16) & 0xff) as u8,
        ((x >> 8) & 0xff) as u8,
        (x & 0xff) as u8,
    ]
}

/// The 64-bit integer read from 8 big-endian bytes.
pub open spec fn u64_of_be(b: Seq<u8>) -> u64
    recommends
        b.len() == 8,
{
    (((b[0] as u64) << 56) | ((b[1] as u64) << 48) | ((b[2] as u64) << 40) | ((b[3] as u64) << 32)
        | ((b[4] as u64) << 24) | ((b[5] as u64) << 16) | ((b[6] as u64) << 8) | (b[7] as u64))
}

/// The big-endian bytes of a 32-bit integer, most significant first.
pub open spec fn be_bytes_u32(x: u32) -> Seq<u8> {
    seq![((x >> 24) & 0xff) as u8, ((x >> 16) & 0xff) as u8, ((x >> 8) & 0xff) as u8, (x & 0xff) as u8]
}

/// The 32-bit integer read from 4 big-endian bytes.
pub open spec fn u32_of_be(b: Seq<u8>) -> u32
    recommends
        b.len() == 4,
{
    (((b[0] as u32) << 24) | ((b[1] as u32) << 16) | ((b[2] as u32) << 8) | (b[3] as u32))
}

/// The little-endian bytes of a 32-bit integer, least significant first.
pub open spec fn le_bytes_u32(x: u32) -> Seq<u8> {
    seq![(x & 0xff) as u8, ((x >> 8) & 0xff) as u8, ((x >> 16) & 0xff) as u8, ((x >> 24) & 0xff) as u8]
}

/// The 32-bit integer read from 4 little-endian bytes.
pub open spec fn u32_of_le(b: Seq<u8>) -> u32
    recommends
        b.len() == 4,
{
    (((b[3] as u32) << 24) | ((b[2] as u32) << 16) | ((b[1] as u32) << 8) | (b[0] as u32))
}

/// Writing a 64-bit integer big-endian and reading it back yields the integer.
pub proof fn lemma_u64_be_roundtrip(x: u64)
    ensures
        u64_of_be(be_bytes_u64(x)) == x,
{
    let b = be_bytes_u64(x);
    assert(((((((x >> 56) & 0xff) as u8) as u64) << 56) | (((((x >> 48) & 0xff) as u8) as u64)
        << 48) | (((((x >> 40) & 0xff) as u8) as u64) << 40) | (((((x >> 32) & 0xff) as u8) as u64)
        << 32) | (((((x >> 24) & 0xff) as u8) as u64) << 24) | (((((x >> 16) & 0xff) as u8) as u64)
        << 16) | (((((x >> 8) & 0xff) as u8) as u64) << 8) | (((x & 0xff) as u8) as u64)) == x)
        by (bit_vector);
}

/// Writing a 32-bit integer big-endian and reading it back yields the integer.
pub proof fn lemma_u32_be_roundtrip(x: u32)
    ensures
        u32_of_be(be_bytes_u32(x)) == x,
{
    assert(((((((x >> 24) & 0xff) as u8) as u32) << 24) | (((((x >> 16) & 0xff) as u8) as u32)
        << 16) | (((((x >> 8) & 0xff) as u8) as u32) << 8) | (((x & 0xff) as u8) as u32)) == x)
        by (bit_vector);
}

/// Writing a 32-bit integer little-endian and reading it back yields the integer.
pub proof fn lemma_u32_le_roundtrip(x: u32)
    ensures
        u32_of_le(le_bytes_u32(x)) == x,
{
    assert(((((((x >> 24) & 0xff) as u8) as u32) << 24) | (((((x >> 16) & 0xff) as u8) as u32)
        << 16) | (((((x >> 8) & 0xff) as u8) as u32) << 8) | (((x & 0xff) as u8) as u32)) == x)
        by (bit_vector);
}

/// Appends the 8 big-endian bytes of `x` to `out`.
pub fn push_u64_be(out: &mut Vec<u8>, x: u64)
    ensures
        final(out)@ == old(out)@ + be_bytes_u64(x),
{
    proof {
        assert(((x >> 56) & 0xff) < 256 && ((x >> 48) & 0xff) < 256 && ((x >> 40) & 0xff) < 256 && (
        (x >> 32) & 0xff) < 256 && ((x >> 24) & 0xff) < 256 && ((x >> 16) & 0xff) < 256 && ((x >> 8)
            & 0xff) < 256 && (x & 0xff) < 256) by (bit_vector);
    }
    out.push(((x >> 56) & 0xff) as u8);
    out.push(((x >> 48) & 0xff) as u8);
    out.push(((x >> 40) & 0xff) as u8);
    out.push(((x >> 32) & 0xff) as u8);
    out.push(((x >> 24) & 0xff) as u8);
    out.push(((x >> 16) & 0xff) as u8);
    out.push(((x >> 8) & 0xff) as u8);
    out.push((x & 0xff) as u8);
    proof {
        assert(out@ =~= old(out)@ + be_bytes_u64(x));
    }
}

/// Appends the 4 big-endian bytes of `x` to `out`.
pub fn push_u32_be(out: &mut Vec<u8>, x: u32)
    ensures
        final(out)@ == old(out)@ + be_bytes_u32(x),
{
    proof {
        assert(((x >> 24) & 0xff) < 256 && ((x >> 16) & 0xff) < 256 && ((x >> 8) & 0xff) < 256 && (x
            & 0xff) < 256) by (bit_vector);
    }
    out.push(((x >> 24) & 0xff) as u8);
    out.push(((x >> 16) & 0xff) as u8);
    out.push(((x >> 8) & 0xff) as u8);
    out.push((x & 0xff) as u8);
    proof {
        assert(out@ =~= old(out)@ + be_bytes_u32(x));
    }
}

/// The 4 little-endian bytes of `x`, as sent during the port handshake.
pub fn u32_to_le_bytes(x: u32) -> (r: Vec<u8>)
    ensures
        r@ == le_bytes_u32(x),
{
    proof {
        assert(((x >> 24) & 0xff) < 256 && ((x >> 16) & 0xff) < 256 && ((x >> 8) & 0xff) < 256 && (x
            & 0xff) < 256) by (bit_vector);
    }
    let mut r: Vec<u8> = Vec::new();
    r.push((x & 0xff) as u8);
    r.push(((x >> 8) & 0xff) as u8);
    r.push(((x >> 16) & 0xff) as u8);
    r.push(((x >> 24) & 0xff) as u8);
    proof {
        assert(r@ =~= le_bytes_u32(x));
    }
    r
}

/// Reads a 64-bit big-endian integer from `b` at `start`.
pub fn u64_from_be_bytes(b: &Vec<u8>, start: usize) -> (r: u64)
    requires
        start + 8 <= b@.len(),
    ensures
        r == u64_of_be(b@.subrange(start as int, start as int + 8)),
{
    // Binding the length as a usize bounds the byte indices below.
    let n: usize = b.len();
    let r = ((b[start] as u64) << 56) | ((b[start + 1] as u64) << 48) | ((b[start + 2] as u64)
        << 40) | ((b[start + 3] as u64) << 32) | ((b[start + 4] as u64) << 24) | ((b[start
        + 5] as u64) << 16) | ((b[start + 6] as u64) << 8) | (b[start + 7] as u64);
    proof {
        let s = b@.subrange(start as int, start as int + 8);
        assert(s[0] == b@[start as int] && s[1] == b@[start as int + 1] && s[2] == b@[start as int
            + 2] && s[3] == b@[start as int + 3] && s[4] == b@[start as int + 4] && s[5] == b@[
            start as int + 5] && s[6] == b@[start as int + 6] && s[7] == b@[start as int + 7]);
    }
    r
}

/// Reads a 32-bit big-endian integer from `b` at `start`.
pub fn u32_from_be_bytes(b: &Vec<u8>, start: usize) -> (r: u32)
    requires
        start + 4 <= b@.len(),
    ensures
        r == u32_of_be(b@.subrange(start as int, start as int + 4)),
{
    // Binding the length as a usize bounds the byte indices below.
    let n: usize = b.len();
    let r = ((b[start] as u32) << 24) | ((b[start + 1] as u32) << 16) | ((b[start + 2] as u32) << 8)
        | (b[start + 3] as u32);
    proof {
        let s = b@.subrange(start as int, start as int + 4);
        assert(s[0] == b@[start as int] && s[1] == b@[start as int + 1] && s[2] == b@[start as int
            + 2] && s[3] == b@[start as int + 3]);
    }
    r
}

/// Reads a 32-bit little-endian integer from the 4 bytes of `b`, as received
/// during the port handshake.
pub fn u32_from_le_bytes(b: &Vec<u8>) -> (r: u32)
    requires
        b@.len() == 4,
    ensures
        r == u32_of_le(b@),
{
    ((b[3] as u32) << 24) | ((b[2] as u32) << 16) | ((b[1] as u32) << 8) | (b[0] as u32)
}

} // verus!
