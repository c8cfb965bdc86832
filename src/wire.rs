use vstd::prelude::*;

verus! {

/// Inbound bytes that do not form a sequence of whole, well-formed frames.
#[derive(Debug, Clone, Copy, PartialEq, Eq, Structural)]
pub enum DecodeError {
    /// The buffer ends inside a frame.
    Truncated,
    /// A tag byte names no known frame, reply, event or goal field.
    UnknownTag,
    /// Bytes follow a value that should have ended the buffer.
    TrailingBytes,
}

/// The four little-endian bytes of `x`.
pub open spec fn le_bytes(x: u32) -> Seq<u8> {
    seq![(x & 0xff) as u8, ((x >> 8u32) & 0xff) as u8, ((x >> 16u32) & 0xff) as u8, ((x >> 24u32) & 0xff) as u8]
}

/// The `u32` whose little-endian bytes are `b0 b1 b2 b3`.
pub open spec fn le_u32(b0: u8, b1: u8, b2: u8, b3: u8) -> u32 {
    (b0 as u32) | ((b1 as u32) << 8u32) | ((b2 as u32) << 16u32) | ((b3 as u32) << 24u32)
}

/// The `u32` stored little-endian at offset `p` of `b`.
pub open spec fn u32_at(b: Seq<u8>, p: int) -> u32 {
    le_u32(b[p], b[p + 1], b[p + 2], b[p + 3])
}

pub proof fn lemma_le_round_trip(x: u32)
    ensures
        le_u32(le_bytes(x)[0], le_bytes(x)[1], le_bytes(x)[2], le_bytes(x)[3]) == x,
{
    let b0 = (x & 0xff) as u8;
    let b1 = ((x >> 8u32) & 0xff) as u8;
    let b2 = ((x >> 16u32) & 0xff) as u8;
    let b3 = ((x >> 24u32) & 0xff) as u8;
    assert((b0 as u32) | ((b1 as u32) << 8u32) | ((b2 as u32) << 16u32) | ((b3 as u32) << 24u32)
        == x) by (bit_vector)
        requires
            b0 == (x & 0xff) as u8,
            b1 == ((x >> 8u32) & 0xff) as u8,
            b2 == ((x >> 16u32) & 0xff) as u8,
            b3 == ((x >> 24u32) & 0xff) as u8,
    ;
}

/// `u32_at` reads back what `le_bytes` wrote, wherever it stands.
pub proof fn lemma_u32_at_le(pre: Seq<u8>, x: u32, post: Seq<u8>)
    ensures
        u32_at(pre + le_bytes(x) + post, pre.len() as int) == x,
{
    let b = pre + le_bytes(x) + post;
    let p = pre.len() as int;
    assert(b[p] == le_bytes(x)[0]);
    assert(b[p + 1] == le_bytes(x)[1]);
    assert(b[p + 2] == le_bytes(x)[2]);
    assert(b[p + 3] == le_bytes(x)[3]);
    lemma_le_round_trip(x);
}

pub fn push_u32(out: &mut Vec<u8>, x: u32)
    ensures
        final(out)@ == old(out)@ + le_bytes(x),
{
    out.push((x & 0xff) as u8);
    out.push(((x >> 8u32) & 0xff) as u8);
    out.push(((x >> 16u32) & 0xff) as u8);
    out.push(((x >> 24u32) & 0xff) as u8);
    assert(final(out)@ =~= old(out)@ + le_bytes(x));
}

pub fn read_u32(b: &[u8], p: usize) -> (r: u32)
    requires
        p + 4 <= b@.len(),
    ensures
        r == u32_at(b@, p as int),
{
    (b[p] as u32) | ((b[p + 1] as u32) << 8u32) | ((b[p + 2] as u32) << 16u32) | ((b[p + 3] as u32)
        << 24u32)
}

} // verus!
