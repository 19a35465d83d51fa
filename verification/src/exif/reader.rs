//! Cursor primitives over an immutable input: fixed-width reads and the
//! copy/skip pair that the container rewriters share.

use vstd::arithmetic::div_mod::{
    lemma_div_denominator, lemma_fundamental_div_mod, lemma_fundamental_div_mod_converse,
};
use vstd::prelude::*;

verus! {

/// Big-endian value of the two bytes at `pos`.
pub open spec fn be16_at(data: Seq<u8>, pos: int) -> int {
    data[pos] as int * 256 + data[pos + 1] as int
}

/// Big-endian value of the four bytes at `pos`.
pub open spec fn be32_at(data: Seq<u8>, pos: int) -> int {
    ((data[pos] as int * 256 + data[pos + 1] as int) * 256 + data[pos + 2] as int) * 256 + data[pos
        + 3] as int
}

/// Little-endian value of the four bytes at `pos`.
pub open spec fn le32_at(data: Seq<u8>, pos: int) -> int {
    data[pos] as int + 256 * (data[pos + 1] as int + 256 * (data[pos + 2] as int + 256 * (data[pos
        + 3] as int)))
}

/// The four bytes that hold `n` in little-endian order.
pub open spec fn le32_bytes(n: int) -> Seq<u8> {
    seq![
        (n % 256) as u8,
        ((n / 256) % 256) as u8,
        ((n / 65536) % 256) as u8,
        ((n / 16777216) % 256) as u8,
    ]
}

/// Number of bytes that a copy or skip of `n` bytes from `pos` can cover.
pub open spec fn available(len: int, pos: int, n: int) -> int {
    if pos >= len {
        0
    } else if n <= len - pos {
        n
    } else {
        len - pos
    }
}

/// The bytes that a copy of `n` bytes from `pos` yields: those of `data`
/// from `pos` on, `n` of them or as many as are left.
pub open spec fn span(data: Seq<u8>, pos: int, n: int) -> Seq<u8> {
    if pos >= data.len() {
        Seq::empty()
    } else {
        data.subrange(pos, pos + available(data.len() as int, pos, n))
    }
}

/// Decoding the little-endian encoding of a 32-bit number gives the number back.
pub proof fn lemma_le32_roundtrip(n: int)
    requires
        0 <= n < 0x1_0000_0000,
    ensures
        le32_bytes(n).len() == 4,
        le32_at(le32_bytes(n), 0) == n,
{
    let s = le32_bytes(n);
    let b0 = n % 256;
    let b1 = (n / 256) % 256;
    let b2 = (n / 65536) % 256;
    let b3 = (n / 16777216) % 256;
    lemma_fundamental_div_mod(n, 256);
    lemma_fundamental_div_mod(n / 256, 256);
    lemma_fundamental_div_mod(n / 65536, 256);
    lemma_fundamental_div_mod(n / 16777216, 256);
    lemma_div_denominator(n, 256, 256);
    lemma_div_denominator(n, 65536, 256);
    lemma_fundamental_div_mod_converse(n / 16777216, 256, 0, n / 16777216);
    assert(s[0] as int == b0);
    assert(s[1] as int == b1);
    assert(s[2] as int == b2);
    assert(s[3] as int == b3);
    assert(n == b0 + 256 * (b1 + 256 * (b2 + 256 * b3)));
}

/// Reads the byte at `pos`, or `None` where the input has ended.
pub fn read_u8(data: &[u8], pos: usize) -> (r: Option<u8>)
    ensures
        pos < data@.len() ==> r == Some(data@[pos as int]),
        pos >= data@.len() ==> r.is_none(),
{
    if pos < data.len() {
        Some(data[pos])
    } else {
        None
    }
}

/// Reads a big-endian 16-bit number at `pos`, or `None` where fewer than two
/// bytes are left.
pub fn read_u16(data: &[u8], pos: usize) -> (r: Option<u16>)
    ensures
        pos + 2 <= data@.len() ==> r.is_some() && r.unwrap() as int == be16_at(data@, pos as int),
        pos + 2 > data@.len() ==> r.is_none(),
{
    if pos < data.len() && data.len() - pos >= 2 {
        let hi: u16 = data[pos] as u16;
        let lo: u16 = data[pos + 1] as u16;
        Some(hi * 256 + lo)
    } else {
        None
    }
}

/// Reads a little-endian 32-bit number at `pos`, or `None` where fewer than
/// four bytes are left.
pub fn read_u32(data: &[u8], pos: usize) -> (r: Option<u32>)
    ensures
        pos + 4 <= data@.len() ==> r.is_some() && r.unwrap() as int == le32_at(data@, pos as int),
        pos + 4 > data@.len() ==> r.is_none(),
{
    if pos < data.len() && data.len() - pos >= 4 {
        let b0: u32 = data[pos] as u32;
        let b1: u32 = data[pos + 1] as u32;
        let b2: u32 = data[pos + 2] as u32;
        let b3: u32 = data[pos + 3] as u32;
        Some(b0 + 256 * (b1 + 256 * (b2 + 256 * b3)))
    } else {
        None
    }
}

/// Reads a big-endian 32-bit number at `pos`, or `None` where fewer than
/// four bytes are left.
pub fn read_u32_be(data: &[u8], pos: usize) -> (r: Option<u32>)
    ensures
        pos + 4 <= data@.len() ==> r.is_some() && r.unwrap() as int == be32_at(data@, pos as int),
        pos + 4 > data@.len() ==> r.is_none(),
{
    if pos < data.len() && data.len() - pos >= 4 {
        let b0: u32 = data[pos] as u32;
        let b1: u32 = data[pos + 1] as u32;
        let b2: u32 = data[pos + 2] as u32;
        let b3: u32 = data[pos + 3] as u32;
        Some(((b0 * 256 + b1) * 256 + b2) * 256 + b3)
    } else {
        None
    }
}

/// Appends the four little-endian bytes of `n` to `out`.
pub fn write_u32(out: &mut Vec<u8>, n: u32)
    ensures
        final(out)@ == old(out)@ + le32_bytes(n as int),
{
    out.push((n % 256) as u8);
    out.push(((n / 256) % 256) as u8);
    out.push(((n / 65536) % 256) as u8);
    out.push(((n / 16777216) % 256) as u8);
    assert(out@ =~= old(out)@ + le32_bytes(n as int));
}

/// Appends up to `n` bytes of `data`, starting at `pos`, to `out`, and
/// returns how many there were: fewer than `n` only where the input ends first.
pub fn copy(data: &[u8], pos: usize, n: u64, out: &mut Vec<u8>) -> (copied: usize)
    ensures
        copied as int == available(data@.len() as int, pos as int, n as int),
        final(out)@ == old(out)@ + span(data@, pos as int, n as int),
{
    let len = data.len();
    if pos >= len {
        assert(out@ =~= old(out)@ + span(data@, pos as int, n as int));
        return 0;
    }
    let rest: usize = len - pos;
    let count: usize = if n <= rest as u64 {
        n as usize
    } else {
        rest
    };
    let mut i: usize = 0;
    while i < count
        invariant
            i <= count,
            pos + count <= len,
            len == data@.len(),
            out@ == old(out)@ + data@.subrange(pos as int, pos + i),
        decreases count - i,
    {
        out.push(data[pos + i]);
        i += 1;
        assert(out@ =~= old(out)@ + data@.subrange(pos as int, pos + i));
    }
    count
}

/// Moves a cursor at `pos` forward by `n` bytes without copying, stopping at
/// the end of the input, and returns the new position.
pub fn skip(data: &[u8], pos: usize, n: u64) -> (next: usize)
    ensures
        next as int == pos + available(data@.len() as int, pos as int, n as int),
{
    let len = data.len();
    if pos >= len {
        pos
    } else if n <= (len - pos) as u64 {
        pos + n as usize
    } else {
        len
    }
}

} // verus!
