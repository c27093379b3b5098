//! Little-endian integers and byte ranges, as the raw take-MIDI format
//! writes them.
use vstd::prelude::*;

verus! {

/// The `u32` that four little-endian bytes spell.
pub open spec fn le_u32(b0: u8, b1: u8, b2: u8, b3: u8) -> u32 {
    (b0 as int + 256 * b1 as int + 65536 * b2 as int + 16777216 * b3 as int) as u32
}

/// The four little-endian bytes of a `u32`.
pub open spec fn u32_le_bytes(x: u32) -> Seq<u8> {
    seq![
        (x % 256) as u8,
        ((x / 256) % 256) as u8,
        ((x / 65536) % 256) as u8,
        (x / 16777216) as u8,
    ]
}

/// The `u32` read from the first four bytes of `s`.
pub open spec fn le_u32_at(s: Seq<u8>, i: int) -> u32 {
    le_u32(s[i], s[i + 1], s[i + 2], s[i + 3])
}

/// Reading back the bytes of `x` gives `x`.
pub proof fn lemma_le_u32_of_bytes(x: u32)
    ensures
        u32_le_bytes(x).len() == 4,
        le_u32_at(u32_le_bytes(x), 0) == x,
{
    let b = u32_le_bytes(x);
    assert(b[0] as int + 256 * b[1] as int + 65536 * b[2] as int + 16777216 * b[3] as int == x)
        by (nonlinear_arith)
        requires
            b[0] == x % 256,
            b[1] == (x / 256) % 256,
            b[2] == (x / 65536) % 256,
            b[3] == x / 16777216,
            x <= 0xffff_ffff,
    ;
}

/// Writing the `u32` that four bytes spell gives those bytes back.
pub proof fn lemma_bytes_of_le_u32(s: Seq<u8>, i: int)
    requires
        0 <= i,
        i + 4 <= s.len(),
    ensures
        u32_le_bytes(le_u32_at(s, i)) == s.subrange(i, i + 4),
{
    let (b0, b1, b2, b3) = (s[i] as int, s[i + 1] as int, s[i + 2] as int, s[i + 3] as int);
    let v = b0 + 256 * b1 + 65536 * b2 + 16777216 * b3;
    assert(0 <= v < 0x1_0000_0000 && v % 256 == b0 && (v / 256) % 256 == b1 && (v / 65536)
        % 256 == b2 && v / 16777216 == b3) by (nonlinear_arith)
        requires
            0 <= b0 < 256,
            0 <= b1 < 256,
            0 <= b2 < 256,
            0 <= b3 < 256,
            v == b0 + 256 * b1 + 65536 * b2 + 16777216 * b3,
    ;
    assert(u32_le_bytes(le_u32_at(s, i)) =~= s.subrange(i, i + 4));
}

/// Reads a little-endian `u32` at `i`.
pub fn read_le_u32(buf: &Vec<u8>, i: usize) -> (r: u32)
    requires
        i + 4 <= buf@.len(),
    ensures
        r == le_u32_at(buf@, i as int),
{
    let n = buf.len();
    assert(i + 4 <= n);
    let b0 = buf[i] as u32;
    let b1 = buf[i + 1] as u32;
    let b2 = buf[i + 2] as u32;
    let b3 = buf[i + 3] as u32;
    b0 + 256 * b1 + 65536 * b2 + 16777216 * b3
}

/// Appends the four little-endian bytes of `x`.
pub fn push_le_u32(out: &mut Vec<u8>, x: u32)
    ensures
        final(out)@ == old(out)@ + u32_le_bytes(x),
{
    out.push((x % 256) as u8);
    out.push(((x / 256) % 256) as u8);
    out.push(((x / 65536) % 256) as u8);
    out.push((x / 16777216) as u8);
    assert(final(out)@ =~= old(out)@ + u32_le_bytes(x));
}

/// A copy of `buf[start..end]`.
pub fn copy_range(buf: &Vec<u8>, start: usize, end: usize) -> (r: Vec<u8>)
    requires
        start <= end <= buf@.len(),
    ensures
        r@ == buf@.subrange(start as int, end as int),
{
    let mut r: Vec<u8> = Vec::new();
    let mut i = start;
    while i < end
        invariant
            start <= i <= end <= buf@.len(),
            r@ == buf@.subrange(start as int, i as int),
        decreases end - i,
    {
        r.push(buf[i]);
        i = i + 1;
        assert(r@ =~= buf@.subrange(start as int, i as int));
    }
    r
}

/// Appends a copy of `other` to `out`.
pub fn extend_bytes(out: &mut Vec<u8>, other: &Vec<u8>)
    ensures
        final(out)@ == old(out)@ + other@,
{
    let mut i: usize = 0;
    while i < other.len()
        invariant
            i <= other@.len(),
            out@ == old(out)@ + other@.subrange(0, i as int),
        decreases other@.len() - i,
    {
        out.push(other[i]);
        i = i + 1;
        assert(out@ =~= old(out)@ + other@.subrange(0, i as int));
    }
    assert(other@.subrange(0, other@.len() as int) =~= other@);
}

/// A copy of a byte vector.
pub fn copy_bytes(buf: &Vec<u8>) -> (r: Vec<u8>)
    ensures
        r@ == buf@,
{
    copy_range(buf, 0, buf.len())
}

} // verus!
