//! PNG: the signature, then chunks of length, type, data and CRC. Chunks
//! whose type is on the allow-list are kept whole; all others are dropped.

use crate::exif::error::{outcome, prepend, FormatError};
use crate::exif::reader::{be32_at, copy, read_u32_be, skip, span};
use vstd::prelude::*;

verus! {

/// Length of the PNG signature.
pub const PNG_SIGNATURE_LEN: usize = 8;

/// Whether the four bytes at `pos` spell the given chunk type.
pub open spec fn tag_at(data: Seq<u8>, pos: int, a: char, b: char, c: char, d: char) -> bool {
    &&& data[pos] == a as u8
    &&& data[pos + 1] == b as u8
    &&& data[pos + 2] == c as u8
    &&& data[pos + 3] == d as u8
}

/// Whether the chunk type at `pos` is one that carries image data rather
/// than metadata.
pub open spec fn png_type_kept(data: Seq<u8>, pos: int) -> bool {
    ||| tag_at(data, pos, 'I', 'D', 'A', 'T')
    ||| tag_at(data, pos, 'I', 'E', 'N', 'D')
    ||| tag_at(data, pos, 'I', 'H', 'D', 'R')
    ||| tag_at(data, pos, 'P', 'L', 'T', 'E')
    ||| tag_at(data, pos, 'a', 'c', 'T', 'L')
    ||| tag_at(data, pos, 'b', 'K', 'G', 'D')
    ||| tag_at(data, pos, 'c', 'H', 'R', 'M')
    ||| tag_at(data, pos, 'c', 'I', 'C', 'P')
    ||| tag_at(data, pos, 'f', 'R', 'A', 'c')
    ||| tag_at(data, pos, 'f', 'c', 'T', 'L')
    ||| tag_at(data, pos, 'f', 'd', 'A', 'T')
    ||| tag_at(data, pos, 'g', 'A', 'M', 'A')
    ||| tag_at(data, pos, 'g', 'I', 'F', 'g')
    ||| tag_at(data, pos, 'i', 'C', 'C', 'P')
    ||| tag_at(data, pos, 's', 'B', 'I', 'T')
    ||| tag_at(data, pos, 's', 'R', 'G', 'B')
    ||| tag_at(data, pos, 's', 'T', 'E', 'R')
    ||| tag_at(data, pos, 't', 'R', 'N', 'S')
}

/// Where the chunk that starts at `pos` ends: after its length, type, data
/// and CRC.
pub open spec fn png_chunk_end(data: Seq<u8>, pos: int) -> int {
    pos + 12 + be32_at(data, pos)
}

/// Whether a whole chunk lies at `pos`: its header can be read and the input
/// holds all of its data and CRC.
pub open spec fn png_chunk_complete(data: Seq<u8>, pos: int) -> bool {
    &&& 0 <= pos
    &&& pos + 8 <= data.len()
    &&& png_chunk_end(data, pos) <= data.len()
}

/// The kept chunks of the chunk stream that starts at `pos`, in order, or
/// `None` where a chunk is cut short.
pub open spec fn png_kept_chunks(data: Seq<u8>, pos: int) -> Option<Seq<u8>>
    decreases data.len() - pos,
{
    if pos < 0 || pos >= data.len() {
        Some(Seq::empty())
    } else if !png_chunk_complete(data, pos) {
        None
    } else {
        let end = png_chunk_end(data, pos);
        if png_type_kept(data, pos + 4) {
            prepend(data.subrange(pos, end), png_kept_chunks(data, end))
        } else {
            png_kept_chunks(data, end)
        }
    }
}

/// What stripping a PNG yields: the signature and the kept chunks.
pub open spec fn png_stripped(data: Seq<u8>) -> Result<Seq<u8>, FormatError> {
    if data.len() < 8 {
        Err(FormatError::InvalidPngFile)
    } else {
        match png_kept_chunks(data, 8) {
            Some(chunks) => Ok(data.subrange(0, 8) + chunks),
            None => Err(FormatError::InvalidPngChunk),
        }
    }
}

/// Whether every chunk from `pos` to the end of the input is whole and of a
/// kept type.
pub open spec fn png_all_kept(data: Seq<u8>, pos: int) -> bool
    decreases data.len() - pos,
{
    if pos < 0 || pos >= data.len() {
        pos == data.len()
    } else {
        &&& png_chunk_complete(data, pos)
        &&& png_type_kept(data, pos + 4)
        &&& png_all_kept(data, png_chunk_end(data, pos))
    }
}

/// Whether `at` is a position where a chunk of the stream from `pos` begins
/// or where that stream ends.
pub open spec fn png_boundary(data: Seq<u8>, pos: int, at: int) -> bool
    decreases data.len() - pos,
{
    if at == pos {
        true
    } else if pos < 0 || pos >= data.len() || !png_chunk_complete(data, pos) {
        false
    } else {
        png_boundary(data, png_chunk_end(data, pos), at)
    }
}

/// Compares the four bytes at `pos` with a chunk type.
fn has_tag(data: &[u8], pos: usize, a: u8, b: u8, c: u8, d: u8) -> (r: bool)
    requires
        pos + 4 <= data@.len(),
    ensures
        r == (data@[pos as int] == a && data@[pos + 1] == b && data@[pos + 2] == c && data@[pos
            + 3] == d),
{
    data[pos] == a && data[pos + 1] == b && data[pos + 2] == c && data[pos + 3] == d
}

/// Tells whether the chunk type at `pos` is on the allow-list.
pub fn is_kept_png_type(data: &[u8], pos: usize) -> (r: bool)
    requires
        pos + 4 <= data@.len(),
    ensures
        r == png_type_kept(data@, pos as int),
{
    has_tag(data, pos, 'I' as u8, 'D' as u8, 'A' as u8, 'T' as u8)
        || has_tag(data, pos, 'I' as u8, 'E' as u8, 'N' as u8, 'D' as u8)
        || has_tag(data, pos, 'I' as u8, 'H' as u8, 'D' as u8, 'R' as u8)
        || has_tag(data, pos, 'P' as u8, 'L' as u8, 'T' as u8, 'E' as u8)
        || has_tag(data, pos, 'a' as u8, 'c' as u8, 'T' as u8, 'L' as u8)
        || has_tag(data, pos, 'b' as u8, 'K' as u8, 'G' as u8, 'D' as u8)
        || has_tag(data, pos, 'c' as u8, 'H' as u8, 'R' as u8, 'M' as u8)
        || has_tag(data, pos, 'c' as u8, 'I' as u8, 'C' as u8, 'P' as u8)
        || has_tag(data, pos, 'f' as u8, 'R' as u8, 'A' as u8, 'c' as u8)
        || has_tag(data, pos, 'f' as u8, 'c' as u8, 'T' as u8, 'L' as u8)
        || has_tag(data, pos, 'f' as u8, 'd' as u8, 'A' as u8, 'T' as u8)
        || has_tag(data, pos, 'g' as u8, 'A' as u8, 'M' as u8, 'A' as u8)
        || has_tag(data, pos, 'g' as u8, 'I' as u8, 'F' as u8, 'g' as u8)
        || has_tag(data, pos, 'i' as u8, 'C' as u8, 'C' as u8, 'P' as u8)
        || has_tag(data, pos, 's' as u8, 'B' as u8, 'I' as u8, 'T' as u8)
        || has_tag(data, pos, 's' as u8, 'R' as u8, 'G' as u8, 'B' as u8)
        || has_tag(data, pos, 's' as u8, 'T' as u8, 'E' as u8, 'R' as u8)
        || has_tag(data, pos, 't' as u8, 'R' as u8, 'N' as u8, 'S' as u8)
}

/// Strips a PNG: copies the signature, then each chunk whose type is on the
/// allow-list, and leaves every other chunk out. Fails where the input is
/// shorter than a signature or ends inside a chunk.
pub fn strip_png_exif(data: &[u8]) -> (r: Result<Vec<u8>, FormatError>)
    ensures
        outcome(r) == png_stripped(data@),
{
    let mut out: Vec<u8> = Vec::new();
    if copy(data, 0, 8, &mut out) < 8 {
        return Err(FormatError::InvalidPngFile);
    }
    assert(out@ =~= data@.subrange(0, 8));
    let len = data.len();
    let mut pos: usize = 8;
    while pos < len
        invariant
            8 <= pos <= len,
            len == data@.len(),
            png_kept_chunks(data@, 8) == prepend(
                out@.subrange(8, out@.len() as int),
                png_kept_chunks(data@, pos as int),
            ),
            out@.len() >= 8,
            out@.subrange(0, 8) == data@.subrange(0, 8),
        decreases len - pos,
    {
        let size: u32 = match read_u32_be(data, pos) {
            Some(size) => size,
            None => {
                return Err(FormatError::InvalidPngChunk);
            },
        };
        if len - pos < 8 {
            return Err(FormatError::InvalidPngChunk);
        }
        let body: u64 = size as u64 + 4;
        if body > (len - pos - 8) as u64 {
            return Err(FormatError::InvalidPngChunk);
        }
        let ghost end = png_chunk_end(data@, pos as int);
        let ghost before = out@;
        if is_kept_png_type(data, pos + 4) {
            copy(data, pos, 8, &mut out);
            let copied = copy(data, pos + 8, body, &mut out);
            pos = pos + 8 + copied;
            proof {
                assert(out@ =~= before + data@.subrange(pos - 8 - copied, end));
                let rest = png_kept_chunks(data@, end);
                if rest.is_some() {
                    assert(before.subrange(8, before.len() as int) + (data@.subrange(
                        pos - 8 - copied,
                        end,
                    ) + rest.unwrap()) =~= out@.subrange(8, out@.len() as int) + rest.unwrap());
                }
                assert(out@.subrange(0, 8) =~= before.subrange(0, 8));
            }
        } else {
            pos = skip(data, pos + 8, body);
        }
    }
    proof {
        assert(out@.subrange(8, out@.len() as int) + Seq::<u8>::empty() =~= out@.subrange(
            8,
            out@.len() as int,
        ));
        assert(out@ =~= data@.subrange(0, 8) + out@.subrange(8, out@.len() as int));
    }
    Ok(out)
}

/// A chunk reads the same wherever its stream is embedded: placing bytes in
/// front of the input moves every chunk without changing it.
proof fn lemma_png_shift(a: Seq<u8>, s: Seq<u8>, pos: int)
    requires
        0 <= pos,
    ensures
        png_kept_chunks(a + s, a.len() + pos) == png_kept_chunks(s, pos),
        png_all_kept(a + s, a.len() + pos) == png_all_kept(s, pos),
    decreases s.len() - pos,
{
    let d = a + s;
    let off = a.len() as int;
    if pos < s.len() {
        if pos + 8 <= s.len() {
            assert(d[off + pos] == s[pos]);
            assert(d[off + pos + 1] == s[pos + 1]);
            assert(d[off + pos + 2] == s[pos + 2]);
            assert(d[off + pos + 3] == s[pos + 3]);
            assert(d[off + pos + 4] == s[pos + 4]);
            assert(d[off + pos + 5] == s[pos + 5]);
            assert(d[off + pos + 6] == s[pos + 6]);
            assert(d[off + pos + 7] == s[pos + 7]);
            let end = png_chunk_end(s, pos);
            assert(png_chunk_end(d, off + pos) == off + end);
            if end <= s.len() {
                assert(d.subrange(off + pos, off + end) =~= s.subrange(pos, end));
                lemma_png_shift(a, s, end);
            }
        }
    }
}

/// What stripping leaves is made of whole chunks of kept types only.
proof fn lemma_png_kept_chunks_all_kept(data: Seq<u8>, pos: int)
    requires
        0 <= pos,
        png_kept_chunks(data, pos).is_some(),
    ensures
        png_all_kept(png_kept_chunks(data, pos).unwrap(), 0),
    decreases data.len() - pos,
{
    if pos < data.len() {
        let end = png_chunk_end(data, pos);
        lemma_png_kept_chunks_all_kept(data, end);
        if png_type_kept(data, pos + 4) {
            let chunk = data.subrange(pos, end);
            let rest = png_kept_chunks(data, end).unwrap();
            let r = chunk + rest;
            assert(r[0] == data[pos] && r[1] == data[pos + 1] && r[2] == data[pos + 2] && r[3]
                == data[pos + 3]);
            assert(r[4] == data[pos + 4] && r[5] == data[pos + 5] && r[6] == data[pos + 6] && r[7]
                == data[pos + 7]);
            assert(png_chunk_end(r, 0) == chunk.len());
            lemma_png_shift(chunk, rest, 0);
        }
    }
}

/// A stream of whole chunks of kept types is copied as it stands.
proof fn lemma_png_all_kept_copied(data: Seq<u8>, pos: int)
    requires
        0 <= pos <= data.len(),
        png_all_kept(data, pos),
    ensures
        png_kept_chunks(data, pos) == Some(data.subrange(pos, data.len() as int)),
    decreases data.len() - pos,
{
    if pos < data.len() {
        let end = png_chunk_end(data, pos);
        lemma_png_all_kept_copied(data, end);
        assert(data.subrange(pos, end) + data.subrange(end, data.len() as int) =~= data.subrange(
            pos,
            data.len() as int,
        ));
    } else {
        assert(data.subrange(pos, data.len() as int) =~= Seq::<u8>::empty());
    }
}

/// Up to the cut, a prefix of the input holds the chunks of the input; a cut
/// that falls inside a chunk leaves that chunk incomplete.
proof fn lemma_png_cut_inside_chunk(data: Seq<u8>, pos: int, n: int)
    requires
        0 <= pos <= n < data.len(),
        !png_boundary(data, pos, n),
    ensures
        png_kept_chunks(data.subrange(0, n), pos).is_none(),
    decreases data.len() - pos,
{
    let cut = data.subrange(0, n);
    if pos + 8 <= n {
        assert(cut[pos] == data[pos] && cut[pos + 1] == data[pos + 1] && cut[pos + 2] == data[pos
            + 2] && cut[pos + 3] == data[pos + 3]);
        let end = png_chunk_end(data, pos);
        assert(png_chunk_end(cut, pos) == end);
        if end <= n {
            assert(png_chunk_complete(data, pos));
            lemma_png_cut_inside_chunk(data, end, n);
        }
    }
}

/// The chunk types that carry text or Exif data are not kept.
pub proof fn lemma_png_metadata_types_dropped(data: Seq<u8>, pos: int)
    ensures
        tag_at(data, pos, 't', 'E', 'X', 't') ==> !png_type_kept(data, pos),
        tag_at(data, pos, 'i', 'T', 'X', 't') ==> !png_type_kept(data, pos),
        tag_at(data, pos, 'z', 'T', 'X', 't') ==> !png_type_kept(data, pos),
        tag_at(data, pos, 'e', 'X', 'I', 'f') ==> !png_type_kept(data, pos),
{
}

/// Chunks begin at or behind the start of their stream.
proof fn lemma_png_boundary_ahead(data: Seq<u8>, pos: int, at: int)
    requires
        0 <= pos,
        png_boundary(data, pos, at),
    ensures
        pos <= at,
    decreases data.len() - pos,
{
    if at != pos {
        lemma_png_boundary_ahead(data, png_chunk_end(data, pos), at);
    }
}

/// Every chunk of a stream whose chunks are all kept is of a kept type:
/// wherever a chunk of it begins, the type that follows is on the list.
pub proof fn lemma_png_all_kept_types(data: Seq<u8>, pos: int, at: int)
    requires
        0 <= pos <= at < data.len(),
        png_all_kept(data, pos),
        png_boundary(data, pos, at),
    ensures
        png_chunk_complete(data, at),
        png_type_kept(data, at + 4),
    decreases data.len() - pos,
{
    if at != pos {
        lemma_png_boundary_ahead(data, png_chunk_end(data, pos), at);
        lemma_png_all_kept_types(data, png_chunk_end(data, pos), at);
    }
}

/// An input in which every chunk is whole and of a kept type is returned
/// byte for byte.
pub proof fn lemma_png_clean_input_unchanged(data: Seq<u8>)
    requires
        data.len() >= 8,
        png_all_kept(data, 8),
    ensures
        png_stripped(data) == Ok::<Seq<u8>, FormatError>(data),
{
    lemma_png_all_kept_copied(data, 8);
    assert(data.subrange(0, 8) + data.subrange(8, data.len() as int) =~= data);
}

/// After stripping, the output opens with the signature of the input and
/// holds whole chunks of kept types only: no chunk of any other type is left.
pub proof fn lemma_png_output_clean(data: Seq<u8>)
    requires
        png_stripped(data).is_ok(),
    ensures
        png_stripped(data).unwrap().len() >= 8,
        png_stripped(data).unwrap().subrange(0, 8) == data.subrange(0, 8),
        png_all_kept(png_stripped(data).unwrap(), 8),
{
    let sig = data.subrange(0, 8);
    let chunks = png_kept_chunks(data, 8).unwrap();
    lemma_png_kept_chunks_all_kept(data, 8);
    lemma_png_shift(sig, chunks, 0);
    assert((sig + chunks).subrange(0, 8) =~= sig);
}

/// Stripping twice gives what stripping once gives.
pub proof fn lemma_png_strip_idempotent(data: Seq<u8>)
    requires
        png_stripped(data).is_ok(),
    ensures
        png_stripped(png_stripped(data).unwrap()) == png_stripped(data),
{
    lemma_png_output_clean(data);
    lemma_png_clean_input_unchanged(png_stripped(data).unwrap());
}

/// Cutting an input anywhere but at a chunk boundary makes stripping fail:
/// whatever `data` is, its first `n` bytes are rejected unless a chunk of
/// `data` begins at `n`.
pub proof fn lemma_png_truncated_rejected(data: Seq<u8>, n: int)
    requires
        0 <= n < data.len(),
        !png_boundary(data, 8, n),
    ensures
        png_stripped(data.subrange(0, n)).is_err(),
{
    if n >= 8 {
        lemma_png_cut_inside_chunk(data, 8, n);
    }
}

} // verus!
