//! WebP: a RIFF header that names WEBP, then chunks of tag, little-endian
//! size and data padded to an even length. Chunks whose tag is on the
//! allow-list are kept; the header is written anew with the size of what
//! is kept.

use crate::exif::error::{outcome, FormatError};
use crate::exif::png::tag_at;
use crate::exif::reader::{
    available, copy, le32_at, le32_bytes, lemma_le32_roundtrip, read_u32, skip, write_u32,
};
use vstd::arithmetic::div_mod::lemma_fundamental_div_mod_converse;
use vstd::prelude::*;

verus! {

/// Largest number of chunk bytes whose size, with the four bytes of the
/// form type, still fits the header's size field.
pub const WEBP_MAX_BODY: u64 = 0xFFFF_FFFB;

/// Whether the input opens with `RIFF`, four bytes of size, and `WEBP`.
pub open spec fn webp_header_valid(data: Seq<u8>) -> bool {
    &&& data.len() >= 12
    &&& tag_at(data, 0, 'R', 'I', 'F', 'F')
    &&& tag_at(data, 8, 'W', 'E', 'B', 'P')
}

/// Whether the chunk tag at `pos` is one that carries image data.
pub open spec fn webp_type_kept(data: Seq<u8>, pos: int) -> bool {
    ||| tag_at(data, pos, 'A', 'L', 'P', 'H')
    ||| tag_at(data, pos, 'A', 'N', 'I', 'M')
    ||| tag_at(data, pos, 'A', 'N', 'M', 'F')
    ||| tag_at(data, pos, 'V', 'P', '8', ' ')
    ||| tag_at(data, pos, 'V', 'P', '8', 'L')
    ||| tag_at(data, pos, 'V', 'P', '8', 'X')
}

/// A chunk size rounded up to an even number.
pub open spec fn padded(size: int) -> int {
    size + size % 2
}

/// Where the chunk that starts at `pos` ends: behind its padded data, or at
/// the end of the input where that comes first.
pub open spec fn webp_chunk_end(data: Seq<u8>, pos: int) -> int {
    pos + 8 + available(data.len() as int, pos + 8, padded(le32_at(data, pos + 4)))
}

/// The kept chunks of the chunk stream that starts at `pos`, in order. The
/// stream ends where fewer than eight bytes are left; a last chunk that the
/// input cuts short is taken as far as it goes.
pub open spec fn webp_kept_chunks(data: Seq<u8>, pos: int) -> Seq<u8>
    decreases data.len() - pos,
{
    if pos < 0 || pos + 8 > data.len() {
        Seq::empty()
    } else {
        let end = webp_chunk_end(data, pos);
        if webp_type_kept(data, pos) {
            data.subrange(pos, end) + webp_kept_chunks(data, end)
        } else {
            webp_kept_chunks(data, end)
        }
    }
}

/// The twelve-byte header of a container whose chunks take `body` bytes.
pub open spec fn webp_header(body: int) -> Seq<u8> {
    seq!['R' as u8, 'I' as u8, 'F' as u8, 'F' as u8] + le32_bytes(4 + body) + seq![
        'W' as u8,
        'E' as u8,
        'B' as u8,
        'P' as u8,
    ]
}

/// What stripping a WebP yields: a header whose size field counts the form
/// type and the kept chunks, then the kept chunks.
pub open spec fn webp_stripped(data: Seq<u8>) -> Result<Seq<u8>, FormatError> {
    if !webp_header_valid(data) {
        Err(FormatError::InvalidWebp)
    } else {
        let body = webp_kept_chunks(data, 12);
        if body.len() > WEBP_MAX_BODY {
            Err(FormatError::WebpTooLarge)
        } else {
            Ok(webp_header(body.len() as int) + body)
        }
    }
}

/// Whether every chunk from `pos` to the end of the input is of a kept
/// type, with no stray bytes behind the last.
pub open spec fn webp_all_kept(data: Seq<u8>, pos: int) -> bool
    decreases data.len() - pos,
{
    if pos < 0 || pos + 8 > data.len() {
        pos == data.len()
    } else {
        &&& webp_type_kept(data, pos)
        &&& webp_all_kept(data, webp_chunk_end(data, pos))
    }
}

/// Compares the four bytes at `pos` with a tag.
fn has_tag(data: &[u8], pos: usize, a: u8, b: u8, c: u8, d: u8) -> (r: bool)
    requires
        pos + 4 <= data@.len(),
    ensures
        r == (data@[pos as int] == a && data@[pos + 1] == b && data@[pos + 2] == c && data@[pos
            + 3] == d),
{
    let len = data.len();
    data[pos] == a && data[pos + 1] == b && data[pos + 2] == c && data[pos + 3] == d
}

/// Tells whether the chunk tag at `pos` is on the allow-list.
pub fn is_kept_webp_type(data: &[u8], pos: usize) -> (r: bool)
    requires
        pos + 4 <= data@.len(),
    ensures
        r == webp_type_kept(data@, pos as int),
{
    has_tag(data, pos, 'A' as u8, 'L' as u8, 'P' as u8, 'H' as u8)
        || has_tag(data, pos, 'A' as u8, 'N' as u8, 'I' as u8, 'M' as u8)
        || has_tag(data, pos, 'A' as u8, 'N' as u8, 'M' as u8, 'F' as u8)
        || has_tag(data, pos, 'V' as u8, 'P' as u8, '8' as u8, ' ' as u8)
        || has_tag(data, pos, 'V' as u8, 'P' as u8, '8' as u8, 'L' as u8)
        || has_tag(data, pos, 'V' as u8, 'P' as u8, '8' as u8, 'X' as u8)
}

/// Handles the chunk at `pos`: appends it to `out` where its tag is on the
/// allow-list, passes over it otherwise, and returns where the next chunk
/// starts. `None`, with `out` untouched, where fewer than eight bytes are
/// left and the stream has ended.
pub fn webp_chunk(data: &[u8], pos: usize, out: &mut Vec<u8>) -> (r: Option<usize>)
    ensures
        r.is_none() ==> pos + 8 > data@.len() && final(out)@ == old(out)@,
        r matches Some(next) ==> {
            &&& pos + 8 <= data@.len()
            &&& next == webp_chunk_end(data@, pos as int)
            &&& next <= data@.len()
            &&& final(out)@ == old(out)@ + (if webp_type_kept(data@, pos as int) {
                data@.subrange(pos as int, next as int)
            } else {
                Seq::empty()
            })
        },
{
    let len = data.len();
    if pos > len || len - pos < 8 {
        return None;
    }
    let size: u32 = match read_u32(data, pos + 4) {
        Some(size) => size,
        None => {
            return None;
        },
    };
    let total_size: u64 = if size % 2 > 0 {
        size as u64 + 1
    } else {
        size as u64
    };
    if is_kept_webp_type(data, pos) {
        copy(data, pos, 8, out);
        let copied = copy(data, pos + 8, total_size, out);
        let next = pos + 8 + copied;
        assert(out@ =~= old(out)@ + data@.subrange(pos as int, next as int));
        Some(next)
    } else {
        let next = skip(data, pos + 8, total_size);
        assert(out@ =~= old(out)@ + Seq::<u8>::empty());
        Some(next)
    }
}

/// Strips a WebP: checks the header, keeps each chunk whose tag is on the
/// allow-list, and writes a header whose size field is four more than the
/// number of chunk bytes kept. Fails where the header is not that of a WebP
/// or where the kept chunks exceed what the size field can hold.
pub fn strip_webp_exif(data: &[u8]) -> (r: Result<Vec<u8>, FormatError>)
    ensures
        outcome(r) == webp_stripped(data@),
{
    let len = data.len();
    if len < 12 {
        return Err(FormatError::InvalidWebp);
    }
    if !has_tag(data, 0, 'R' as u8, 'I' as u8, 'F' as u8, 'F' as u8) || !has_tag(
        data,
        8,
        'W' as u8,
        'E' as u8,
        'B' as u8,
        'P' as u8,
    ) {
        return Err(FormatError::InvalidWebp);
    }
    let mut webp_data: Vec<u8> = Vec::new();
    let mut pos: usize = 12;
    proof {
        assert(Seq::<u8>::empty() + webp_kept_chunks(data@, 12) =~= webp_kept_chunks(data@, 12));
    }
    loop
        invariant
            12 <= pos <= len,
            len == data@.len(),
            webp_kept_chunks(data@, 12) == webp_data@ + webp_kept_chunks(data@, pos as int),
        ensures
            webp_kept_chunks(data@, 12) == webp_data@,
        decreases len - pos,
    {
        let ghost before = webp_data@;
        match webp_chunk(data, pos, &mut webp_data) {
            Some(next) => {
                proof {
                    let rest = webp_kept_chunks(data@, next as int);
                    if webp_type_kept(data@, pos as int) {
                        assert(before + (data@.subrange(pos as int, next as int) + rest)
                            =~= webp_data@ + rest);
                    }
                }
                pos = next;
            },
            None => {
                proof {
                    assert(webp_data@ + Seq::<u8>::empty() =~= webp_data@);
                }
                break;
            },
        }
    }
    if webp_data.len() as u64 > WEBP_MAX_BODY {
        return Err(FormatError::WebpTooLarge);
    }
    let size: u32 = webp_data.len() as u32 + 4;
    let mut out: Vec<u8> = Vec::new();
    out.push('R' as u8);
    out.push('I' as u8);
    out.push('F' as u8);
    out.push('F' as u8);
    write_u32(&mut out, size);
    out.push('W' as u8);
    out.push('E' as u8);
    out.push('B' as u8);
    out.push('P' as u8);
    let ghost body = webp_data@;
    out.append(&mut webp_data);
    assert(out@ =~= webp_header(body.len() as int) + body);
    Ok(out)
}

/// A chunk stream reads the same wherever it is embedded.
proof fn lemma_webp_shift(a: Seq<u8>, s: Seq<u8>, pos: int)
    requires
        0 <= pos,
    ensures
        webp_kept_chunks(a + s, a.len() + pos) == webp_kept_chunks(s, pos),
        webp_all_kept(a + s, a.len() + pos) == webp_all_kept(s, pos),
    decreases s.len() - pos,
{
    let d = a + s;
    let off = a.len() as int;
    if pos + 8 <= s.len() {
        assert(d[off + pos] == s[pos]);
        assert(d[off + pos + 1] == s[pos + 1]);
        assert(d[off + pos + 2] == s[pos + 2]);
        assert(d[off + pos + 3] == s[pos + 3]);
        assert(d[off + pos + 4] == s[pos + 4]);
        assert(d[off + pos + 5] == s[pos + 5]);
        assert(d[off + pos + 6] == s[pos + 6]);
        assert(d[off + pos + 7] == s[pos + 7]);
        let end = webp_chunk_end(s, pos);
        assert(webp_chunk_end(d, off + pos) == off + end);
        assert(d.subrange(off + pos, off + end) =~= s.subrange(pos, end));
        lemma_webp_shift(a, s, end);
    }
}

/// What stripping keeps is made of chunks of kept types only.
proof fn lemma_webp_kept_chunks_all_kept(data: Seq<u8>, pos: int)
    requires
        0 <= pos,
    ensures
        webp_all_kept(webp_kept_chunks(data, pos), 0),
    decreases data.len() - pos,
{
    if pos + 8 <= data.len() {
        let end = webp_chunk_end(data, pos);
        lemma_webp_kept_chunks_all_kept(data, end);
        if webp_type_kept(data, pos) {
            let chunk = data.subrange(pos, end);
            let rest = webp_kept_chunks(data, end);
            let r = chunk + rest;
            assert(r[0] == data[pos] && r[1] == data[pos + 1] && r[2] == data[pos + 2] && r[3]
                == data[pos + 3]);
            assert(r[4] == data[pos + 4] && r[5] == data[pos + 5] && r[6] == data[pos + 6] && r[7]
                == data[pos + 7]);
            if end == data.len() {
                assert(rest =~= Seq::<u8>::empty());
            }
            assert(webp_chunk_end(r, 0) == chunk.len());
            lemma_webp_shift(chunk, rest, 0);
        }
    }
}

/// A stream of chunks of kept types is kept as it stands.
proof fn lemma_webp_all_kept_copied(data: Seq<u8>, pos: int)
    requires
        0 <= pos <= data.len(),
        webp_all_kept(data, pos),
    ensures
        webp_kept_chunks(data, pos) == data.subrange(pos, data.len() as int),
    decreases data.len() - pos,
{
    if pos + 8 <= data.len() {
        let end = webp_chunk_end(data, pos);
        lemma_webp_all_kept_copied(data, end);
        assert(data.subrange(pos, end) + data.subrange(end, data.len() as int) =~= data.subrange(
            pos,
            data.len() as int,
        ));
    } else {
        assert(data.subrange(pos, data.len() as int) =~= Seq::<u8>::empty());
    }
}

/// The chunks that carry Exif and XMP data are not kept.
pub proof fn lemma_webp_metadata_types_dropped(data: Seq<u8>, pos: int)
    ensures
        tag_at(data, pos, 'E', 'X', 'I', 'F') ==> !webp_type_kept(data, pos),
        tag_at(data, pos, 'X', 'M', 'P', ' ') ==> !webp_type_kept(data, pos),
{
}

/// The size field of the output counts what follows it: four bytes for
/// `WEBP` and the bytes of the kept chunks, tag, size and padded data.
pub proof fn lemma_webp_size_field(data: Seq<u8>)
    requires
        webp_stripped(data).is_ok(),
    ensures
        webp_stripped(data).unwrap().len() == 12 + webp_kept_chunks(data, 12).len(),
        le32_at(webp_stripped(data).unwrap(), 4) == 4 + webp_kept_chunks(data, 12).len(),
        webp_stripped(data).unwrap().subrange(12, webp_stripped(data).unwrap().len() as int)
            == webp_kept_chunks(data, 12),
        webp_header_valid(webp_stripped(data).unwrap()),
{
    let body = webp_kept_chunks(data, 12);
    let out = webp_stripped(data).unwrap();
    let size = le32_bytes(4 + body.len() as int);
    lemma_le32_roundtrip(4 + body.len() as int);
    assert(out[4] == size[0] && out[5] == size[1] && out[6] == size[2] && out[7] == size[3]);
    assert(out.subrange(12, out.len() as int) =~= body);
}

/// An input that holds kept chunks only, and whose header states its size,
/// is returned byte for byte.
pub proof fn lemma_webp_clean_input_unchanged(data: Seq<u8>)
    requires
        webp_header_valid(data),
        webp_all_kept(data, 12),
        le32_at(data, 4) == data.len() - 8,
        data.len() - 12 <= WEBP_MAX_BODY,
    ensures
        webp_stripped(data) == Ok::<Seq<u8>, FormatError>(data),
{
    lemma_webp_all_kept_copied(data, 12);
    let body = data.subrange(12, data.len() as int);
    let size = le32_bytes(4 + body.len() as int);
    lemma_le32_bytes_unique(data, 4);
    assert(webp_header(body.len() as int) + body =~= data);
}

/// The four bytes at `pos` are the little-endian bytes of their value.
proof fn lemma_le32_bytes_unique(data: Seq<u8>, pos: int)
    requires
        0 <= pos,
        pos + 4 <= data.len(),
    ensures
        le32_bytes(le32_at(data, pos)) == data.subrange(pos, pos + 4),
{
    let n = le32_at(data, pos);
    let b0 = data[pos] as int;
    let b1 = data[pos + 1] as int;
    let b2 = data[pos + 2] as int;
    let b3 = data[pos + 3] as int;
    lemma_fundamental_div_mod_converse(n, 256, b1 + 256 * (b2 + 256 * b3), b0);
    lemma_fundamental_div_mod_converse(n / 256, 256, b2 + 256 * b3, b1);
    lemma_fundamental_div_mod_converse(n, 65536, b2 + 256 * b3, b0 + 256 * b1);
    lemma_fundamental_div_mod_converse(n / 65536, 256, b3, b2);
    lemma_fundamental_div_mod_converse(n, 16777216, b3, b0 + 256 * b1 + 65536 * b2);
    lemma_fundamental_div_mod_converse(n / 16777216, 256, 0, b3);
    assert(le32_bytes(n) =~= data.subrange(pos, pos + 4));
}

/// After stripping, the output holds chunks of kept types only: no chunk of
/// any other tag is left.
pub proof fn lemma_webp_output_clean(data: Seq<u8>)
    requires
        webp_stripped(data).is_ok(),
    ensures
        webp_header_valid(webp_stripped(data).unwrap()),
        webp_all_kept(webp_stripped(data).unwrap(), 12),
{
    let body = webp_kept_chunks(data, 12);
    lemma_webp_size_field(data);
    lemma_webp_kept_chunks_all_kept(data, 12);
    lemma_webp_shift(webp_header(body.len() as int), body, 0);
}

/// Stripping twice gives what stripping once gives.
pub proof fn lemma_webp_strip_idempotent(data: Seq<u8>)
    requires
        webp_stripped(data).is_ok(),
    ensures
        webp_stripped(webp_stripped(data).unwrap()) == webp_stripped(data),
{
    lemma_webp_output_clean(data);
    lemma_webp_size_field(data);
    lemma_webp_clean_input_unchanged(webp_stripped(data).unwrap());
}

} // verus!
