//! JPEG: a sequence of two-byte markers, most of them followed by a
//! big-endian length and a payload. Segments that describe the picture are
//! copied, entropy-coded data is copied untouched, a JFIF segment is replaced
//! by a fixed one, and every other segment is dropped.

use crate::exif::error::{outcome, prepend, FormatError};
use crate::exif::reader::{be16_at, copy, read_u16, read_u8, skip};
use vstd::prelude::*;

verus! {

/// Start and end of image: markers that stand alone.
pub open spec fn is_standalone(marker: u8) -> bool {
    marker == 0xD8 || marker == 0xD9
}

/// Restart markers: no length, entropy-coded data follows.
pub open spec fn is_restart(marker: u8) -> bool {
    0xD0 <= marker <= 0xD7
}

/// Frame headers, start of scan and table segments: kept with their payload.
pub open spec fn is_copied_segment(marker: u8) -> bool {
    0xC0 <= marker <= 0xCF || 0xDA <= marker <= 0xDF
}

/// Number of payload bytes behind a length field of value `length`, which
/// counts its own two bytes.
pub open spec fn payload_len(length: int) -> int {
    if length > 2 {
        length - 2
    } else {
        0
    }
}

/// Whether the five bytes at `pos` are the JFIF identifier.
pub open spec fn is_jfif(data: Seq<u8>, pos: int) -> bool {
    &&& data[pos] == 'J' as u8
    &&& data[pos + 1] == 'F' as u8
    &&& data[pos + 2] == 'I' as u8
    &&& data[pos + 3] == 'F' as u8
    &&& data[pos + 4] == 0
}

/// The segment that takes the place of every JFIF segment: marker, the
/// length 16, the identifier, and nine zero bytes for version, units,
/// densities and an empty thumbnail.
pub open spec fn jfif_header() -> Seq<u8> {
    seq![
        0xFF,
        0xE0,
        0x00,
        0x10,
        'J' as u8,
        'F' as u8,
        'I' as u8,
        'F' as u8,
        0x00,
        0x00,
        0x00,
        0x00,
        0x00,
        0x00,
        0x00,
        0x00,
        0x00,
        0x00,
    ]
}

/// Where a run of entropy-coded data that starts at `pos` ends: at the
/// first `0xFF` that a non-zero byte follows. `None` where the input ends
/// before that. A `0xFF` followed by zero is a stuffed byte and part of the
/// data. A restart marker ends a run as well; it is a record of its own, and
/// the next run begins behind it.
pub open spec fn scan_end(data: Seq<u8>, pos: int) -> Option<int>
    decreases data.len() - pos,
{
    if pos < 0 || pos + 1 >= data.len() {
        None
    } else if data[pos] == 0xFF && data[pos + 1] != 0 {
        Some(pos)
    } else {
        scan_end(data, pos + 1)
    }
}

/// What one record of the stream comes to.
pub enum JpegStep {
    /// Fewer than two bytes are left: the stream has ended.
    Done,
    /// The record is cut short by the end of the input.
    Fail,
    /// The record yields `emit` and the next record starts at `next`.
    Record { emit: Seq<u8>, next: int },
}

/// A record copied as it stands, with the entropy-coded data behind it where
/// `scan` says that such data follows.
pub open spec fn copied_record(data: Seq<u8>, pos: int, end: int, scan: bool) -> JpegStep {
    if !scan {
        JpegStep::Record { emit: data.subrange(pos, end), next: end }
    } else {
        match scan_end(data, end) {
            Some(stop) => JpegStep::Record { emit: data.subrange(pos, stop), next: stop },
            None => JpegStep::Fail,
        }
    }
}

/// The record whose marker is at `pos`, told by the second byte of the
/// marker alone.
/// - Start and end of image are copied: two bytes.
/// - A restart marker is copied with the run of entropy-coded data behind it.
/// - A frame header, a table, or a start of scan is copied with its length
///   and payload; a start of scan also with the run of data behind it. A
///   length below two counts as two.
/// - Of any other segment the next record starts `2 + length` bytes behind
///   the marker. A JFIF segment, which is an `0xE0` segment of sixteen bytes
///   or more with the identifier, yields the fixed JFIF segment; every other
///   yields nothing.
/// A record that reaches beyond the input fails.
pub open spec fn jpeg_step(data: Seq<u8>, pos: int) -> JpegStep {
    if pos + 2 > data.len() {
        JpegStep::Done
    } else {
        let marker = data[pos + 1];
        if is_standalone(marker) {
            copied_record(data, pos, pos + 2, false)
        } else if is_restart(marker) {
            copied_record(data, pos, pos + 2, true)
        } else if pos + 4 > data.len() {
            JpegStep::Fail
        } else {
            let length = be16_at(data, pos + 2);
            if is_copied_segment(marker) {
                let end = pos + 4 + payload_len(length);
                if end > data.len() {
                    JpegStep::Fail
                } else {
                    copied_record(data, pos, end, marker == 0xDA)
                }
            } else {
                let end = pos + 2 + length;
                if end > data.len() {
                    JpegStep::Fail
                } else if marker == 0xE0 && length >= 16 && is_jfif(data, pos + 4) {
                    JpegStep::Record { emit: jfif_header(), next: end }
                } else {
                    JpegStep::Record { emit: Seq::empty(), next: end }
                }
            }
        }
    }
}

/// What the records from `pos` on yield, in order, or `None` where one of
/// them is cut short.
pub open spec fn jpeg_kept(data: Seq<u8>, pos: int) -> Option<Seq<u8>>
    decreases data.len() - pos,
{
    match jpeg_step(data, pos) {
        JpegStep::Done => Some(Seq::empty()),
        JpegStep::Fail => None,
        JpegStep::Record { emit, next } => if pos < next <= data.len() {
            prepend(emit, jpeg_kept(data, next))
        } else {
            None
        },
    }
}

/// What stripping a JPEG yields.
pub open spec fn jpeg_stripped(data: Seq<u8>) -> Result<Seq<u8>, FormatError> {
    match jpeg_kept(data, 0) {
        Some(bytes) => Ok(bytes),
        None => Err(FormatError::TruncatedJpeg),
    }
}

/// Every record ends behind its marker.
pub proof fn lemma_jpeg_step_advances(data: Seq<u8>, pos: int)
    requires
        0 <= pos,
    ensures
        jpeg_step(data, pos) matches JpegStep::Record { next, .. } ==> pos + 2 <= next
            <= data.len(),
{
    if pos + 2 <= data.len() {
        lemma_scan_end_bounds(data, pos + 2);
        if pos + 4 <= data.len() {
            let end = pos + 4 + payload_len(be16_at(data, pos + 2));
            if end <= data.len() {
                lemma_scan_end_bounds(data, end);
            }
        }
    }
}

/// Entropy-coded data ends inside the input, at a `0xFF` that a non-zero
/// byte follows, and holds no such pair before that: each `0xFF` in it is
/// followed by zero.
pub proof fn lemma_scan_end_bounds(data: Seq<u8>, pos: int)
    requires
        0 <= pos,
    ensures
        scan_end(data, pos) matches Some(stop) ==> {
            &&& pos <= stop
            &&& stop + 1 < data.len()
            &&& data[stop] == 0xFF
            &&& data[stop + 1] != 0
            &&& forall|i: int| pos <= i < stop && #[trigger] data[i] == 0xFF ==> data[i + 1] == 0
        },
        scan_end(data, pos).is_none() ==> forall|i: int|
            pos <= i && i + 1 < data.len() && #[trigger] data[i] == 0xFF ==> data[i + 1] == 0,
    decreases data.len() - pos,
{
    if pos + 1 < data.len() && !(data[pos] == 0xFF && data[pos + 1] != 0) {
        lemma_scan_end_bounds(data, pos + 1);
    }
}

/// Copies a segment whose marker is at `pos`: marker, length and payload.
/// Returns where the segment ends, or `None` where the input ends first.
pub fn copy_jpeg_header(data: &[u8], pos: usize, out: &mut Vec<u8>) -> (r: Option<usize>)
    ensures
        r matches Some(end) ==> {
            &&& pos + 4 <= data@.len()
            &&& end == pos + 4 + payload_len(be16_at(data@, pos + 2))
            &&& end <= data@.len()
            &&& final(out)@ == old(out)@ + data@.subrange(pos as int, end as int)
        },
        r.is_none() ==> pos + 4 > data@.len() || pos + 4 + payload_len(be16_at(data@, pos + 2))
            > data@.len(),
{
    let len = data.len();
    if pos > len || len - pos < 2 {
        return None;
    }
    copy(data, pos, 2, out);
    let size: u16 = match read_u16(data, pos + 2) {
        Some(size) => size,
        None => {
            return None;
        },
    };
    copy(data, pos + 2, 2, out);
    let mut end: usize = pos + 4;
    if size > 2 {
        let payload: u64 = size as u64 - 2;
        let copied = copy(data, end, payload, out);
        if (copied as u64) < payload {
            return None;
        }
        end = end + copied;
    }
    assert(out@ =~= old(out)@ + data@.subrange(pos as int, end as int));
    Some(end)
}

/// Copies entropy-coded data from `pos` up to the next marker and returns
/// the position of that marker; stuffed bytes are copied like any other
/// data. `None` where the input ends before a marker.
pub fn copy_jpeg_data(data: &[u8], pos: usize, out: &mut Vec<u8>) -> (r: Option<usize>)
    ensures
        r matches Some(stop) ==> {
            &&& scan_end(data@, pos as int) == Some(stop as int)
            &&& pos <= stop < data@.len()
            &&& final(out)@ == old(out)@ + data@.subrange(pos as int, stop as int)
        },
        r.is_none() ==> scan_end(data@, pos as int).is_none(),
{
    let len = data.len();
    if pos > len {
        return None;
    }
    let mut cur: usize = pos;
    loop
        invariant
            pos <= cur <= data@.len(),
            len == data@.len(),
            scan_end(data@, pos as int) == scan_end(data@, cur as int),
            out@ == old(out)@ + data@.subrange(pos as int, cur as int),
        decreases data@.len() - cur,
    {
        let value: u8 = match read_u8(data, cur) {
            Some(value) => value,
            None => {
                return None;
            },
        };
        if value == 0xFF {
            let next: u8 = match read_u8(data, cur + 1) {
                Some(next) => next,
                None => {
                    return None;
                },
            };
            if next == 0 {
                out.push(value);
                out.push(next);
                proof {
                    assert(scan_end(data@, cur as int) == scan_end(data@, cur + 1));
                    assert(out@ =~= old(out)@ + data@.subrange(pos as int, cur + 2));
                }
                cur = cur + 2;
            } else {
                proof {
                    lemma_scan_end_bounds(data@, pos as int);
                }
                return Some(cur);
            }
        } else {
            out.push(value);
            proof {
                assert(out@ =~= old(out)@ + data@.subrange(pos as int, cur + 1));
            }
            cur = cur + 1;
        }
    }
}

/// Tells whether the five bytes at `pos` are the JFIF identifier.
fn has_jfif_identifier(data: &[u8], pos: usize) -> (r: bool)
    requires
        pos + 5 <= data@.len(),
    ensures
        r == is_jfif(data@, pos as int),
{
    let len = data.len();
    data[pos] == 'J' as u8 && data[pos + 1] == 'F' as u8 && data[pos + 2] == 'I' as u8 && data[pos
        + 3] == 'F' as u8 && data[pos + 4] == 0
}

/// Writes the fixed JFIF segment.
fn write_jfif_header(out: &mut Vec<u8>)
    ensures
        final(out)@ == old(out)@ + jfif_header(),
{
    out.push(0xFF);
    out.push(0xE0);
    out.push(0x00);
    out.push(0x10);
    out.push('J' as u8);
    out.push('F' as u8);
    out.push('I' as u8);
    out.push('F' as u8);
    out.push(0x00);
    out.push(0x00);
    out.push(0x00);
    out.push(0x00);
    out.push(0x00);
    out.push(0x00);
    out.push(0x00);
    out.push(0x00);
    out.push(0x00);
    out.push(0x00);
    assert(out@ =~= old(out)@ + jfif_header());
}

/// Strips a JPEG. Frame, scan and table segments, restart markers, the
/// start and end of image and all entropy-coded data are copied; a JFIF
/// segment of sixteen bytes or more is replaced by the fixed one, whose
/// version, units and densities are zero; every other segment is left out.
/// Fails where the input ends inside a segment or inside entropy-coded data.
pub fn strip_jpeg_exif(data: &[u8]) -> (r: Result<Vec<u8>, FormatError>)
    ensures
        outcome(r) == jpeg_stripped(data@),
{
    let mut out: Vec<u8> = Vec::new();
    let len = data.len();
    let mut pos: usize = 0;
    proof {
        assert(Seq::<u8>::empty() + jpeg_kept(data@, 0).unwrap() =~= jpeg_kept(data@, 0).unwrap());
    }
    while len - pos >= 2
        invariant
            pos <= len,
            len == data@.len(),
            jpeg_kept(data@, 0) == prepend(out@, jpeg_kept(data@, pos as int)),
        decreases len - pos,
    {
        let marker: u8 = data[pos + 1];
        let ghost before = out@;
        let ghost start = pos;
        proof {
            lemma_jpeg_step_advances(data@, pos as int);
        }
        if marker == 0xD8 || marker == 0xD9 {
            copy(data, pos, 2, &mut out);
            pos = pos + 2;
        } else if 0xD0 <= marker && marker <= 0xD7 {
            copy(data, pos, 2, &mut out);
            match copy_jpeg_data(data, pos + 2, &mut out) {
                Some(stop) => {
                    pos = stop;
                },
                None => {
                    return Err(FormatError::TruncatedJpeg);
                },
            }
            assert(out@ =~= before + data@.subrange(start as int, pos as int));
        } else if (0xC0 <= marker && marker <= 0xCF) || (0xDA <= marker && marker <= 0xDF) {
            let end: usize = match copy_jpeg_header(data, pos, &mut out) {
                Some(end) => end,
                None => {
                    return Err(FormatError::TruncatedJpeg);
                },
            };
            if marker == 0xDA {
                match copy_jpeg_data(data, end, &mut out) {
                    Some(stop) => {
                        pos = stop;
                    },
                    None => {
                        return Err(FormatError::TruncatedJpeg);
                    },
                }
                assert(out@ =~= before + data@.subrange(start as int, pos as int));
            } else {
                pos = end;
            }
        } else {
            let size: u16 = match read_u16(data, pos + 2) {
                Some(size) => size,
                None => {
                    return Err(FormatError::TruncatedJpeg);
                },
            };
            if size as u64 > (len - pos - 2) as u64 {
                return Err(FormatError::TruncatedJpeg);
            }
            if marker == 0xE0 && size >= 16 && has_jfif_identifier(data, pos + 4) {
                write_jfif_header(&mut out);
            }
            pos = skip(data, pos + 2, size as u64);
        }
        proof {
            let rest = jpeg_kept(data@, pos as int);
            if rest.is_some() {
                let emit = jpeg_step(data@, start as int)->emit;
                assert(before + (emit + rest.unwrap()) =~= (before + emit) + rest.unwrap());
            }
        }
    }
    proof {
        assert(out@ + Seq::<u8>::empty() =~= out@);
    }
    Ok(out)
}

/// Whether the record at `pos` is followed by entropy-coded data: a restart
/// marker or a start of scan.
pub open spec fn bears_scan(data: Seq<u8>, pos: int) -> bool {
    pos + 2 <= data.len() && (is_restart(data[pos + 1]) || data[pos + 1] == 0xDA)
}

/// Where the entropy-coded data of the record at `pos` starts: behind a
/// restart marker, or behind the header of a scan.
pub open spec fn scan_start(data: Seq<u8>, pos: int) -> int {
    if is_restart(data[pos + 1]) {
        pos + 2
    } else {
        pos + 4 + payload_len(be16_at(data, pos + 2))
    }
}

/// Where the entropy-coded data that starts at `pos` ends, restart markers
/// and the runs between them included: at the first `0xFF` whose next byte
/// is neither zero nor a restart marker. `None` where the input ends before
/// that.
pub open spec fn entropy_end(data: Seq<u8>, pos: int) -> Option<int>
    decreases data.len() - pos,
{
    if pos < 0 || pos + 1 >= data.len() {
        None
    } else if data[pos] == 0xFF && data[pos + 1] != 0 && !is_restart(data[pos + 1]) {
        Some(pos)
    } else {
        entropy_end(data, pos + 1)
    }
}

/// Whether `bytes` opens with a marker: `0xFF` and a non-zero byte.
pub open spec fn opens_with_marker(bytes: Option<Seq<u8>>) -> bool {
    bytes matches Some(b) && b.len() >= 2 && b[0] == 0xFF && b[1] != 0
}

/// Whether the stream from `pos` is made of records that stripping copies
/// as they stand, up to the last byte of the input: no segment that would
/// be dropped, no JFIF segment but the fixed one, no stray byte at the end.
pub open spec fn jpeg_all_kept(data: Seq<u8>, pos: int) -> bool
    decreases data.len() - pos,
{
    match jpeg_step(data, pos) {
        JpegStep::Done => pos == data.len(),
        JpegStep::Fail => false,
        JpegStep::Record { emit, next } => {
            &&& pos < next <= data.len()
            &&& emit == data.subrange(pos, next)
            &&& jpeg_all_kept(data, next)
        },
    }
}

/// Whether, in what stripping leaves of the stream from `pos`, a marker
/// follows every run of entropy-coded data. It does in a JPEG whose markers
/// open with `0xFF` and which closes with an end of image.
pub open spec fn jpeg_framed(data: Seq<u8>, pos: int) -> bool
    decreases data.len() - pos,
{
    match jpeg_step(data, pos) {
        JpegStep::Done => true,
        JpegStep::Fail => false,
        JpegStep::Record { emit, next } => {
            &&& pos < next <= data.len()
            &&& jpeg_framed(data, next)
            &&& bears_scan(data, pos) ==> opens_with_marker(jpeg_kept(data, next))
        },
    }
}

/// Whether `n` falls inside a record of the stream from `pos`, at least two
/// bytes behind its start. The marker that closes entropy-coded data counts
/// as part of the record that holds the data.
pub open spec fn jpeg_cut_inside(data: Seq<u8>, pos: int, n: int) -> bool
    decreases data.len() - pos,
{
    match jpeg_step(data, pos) {
        JpegStep::Record { emit, next } => {
            &&& pos < next <= data.len()
            &&& {
                ||| pos + 2 <= n < next + (if bears_scan(data, pos) {
                    2int
                } else {
                    0int
                })
                ||| next <= n && jpeg_cut_inside(data, next, n)
            }
        },
        _ => false,
    }
}

/// Whether the stream from `pos` is closed as a JPEG is: every record opens
/// with `0xFF`, no record is cut short, and the last one is an end of image.
pub open spec fn jpeg_closed(data: Seq<u8>, pos: int) -> bool
    decreases data.len() - pos,
{
    match jpeg_step(data, pos) {
        JpegStep::Record { emit, next } => {
            &&& pos < next <= data.len()
            &&& data[pos] == 0xFF
            &&& {
                ||| jpeg_closed(data, next)
                ||| data[pos + 1] == 0xD9 && jpeg_step(data, next) is Done
            }
        },
        _ => false,
    }
}

/// A record with its end moved by `by`.
spec fn moved(step: JpegStep, by: int) -> JpegStep {
    match step {
        JpegStep::Record { emit, next } => JpegStep::Record { emit, next: next + by },
        other => other,
    }
}

/// An end of entropy-coded data moved by `by`.
spec fn moved_end(end: Option<int>, by: int) -> Option<int> {
    match end {
        Some(e) => Some(e + by),
        None => None,
    }
}

/// Entropy-coded data ends at `stop` where `stop` is the first `0xFF`
/// followed by a non-zero byte.
proof fn lemma_scan_end_is_first(data: Seq<u8>, pos: int, stop: int)
    requires
        0 <= pos <= stop,
        stop + 1 < data.len(),
        data[stop] == 0xFF,
        data[stop + 1] != 0,
        forall|i: int| pos <= i < stop && #[trigger] data[i] == 0xFF ==> data[i + 1] == 0,
    ensures
        scan_end(data, pos) == Some(stop),
    decreases stop - pos,
{
    if pos < stop {
        lemma_scan_end_is_first(data, pos + 1, stop);
    }
}

/// A run of entropy-coded data ends at the same byte wherever its stream
/// is embedded.
proof fn lemma_scan_end_shift(a: Seq<u8>, s: Seq<u8>, pos: int)
    requires
        0 <= pos,
    ensures
        scan_end(a + s, a.len() + pos) == moved_end(scan_end(s, pos), a.len() as int),
    decreases s.len() - pos,
{
    let d = a + s;
    let off = a.len() as int;
    if pos + 1 < s.len() {
        assert(d[off + pos] == s[pos]);
        assert(d[off + pos + 1] == s[pos + 1]);
        if !(s[pos] == 0xFF && s[pos + 1] != 0) {
            lemma_scan_end_shift(a, s, pos + 1);
        }
    }
}

/// A record reads the same wherever its stream is embedded.
proof fn lemma_jpeg_step_shift(a: Seq<u8>, s: Seq<u8>, pos: int)
    requires
        0 <= pos,
    ensures
        jpeg_step(a + s, a.len() + pos) == moved(jpeg_step(s, pos), a.len() as int),
{
    let d = a + s;
    let off = a.len() as int;
    if pos + 2 <= s.len() {
        assert(d[off + pos + 1] == s[pos + 1]);
        let marker = s[pos + 1];
        lemma_scan_end_shift(a, s, pos + 2);
        lemma_scan_end_bounds(s, pos + 2);
        if is_standalone(marker) {
            assert(d.subrange(off + pos, off + pos + 2) =~= s.subrange(pos, pos + 2));
        } else if is_restart(marker) {
            if scan_end(s, pos + 2).is_some() {
                let stop = scan_end(s, pos + 2).unwrap();
                assert(d.subrange(off + pos, off + stop) =~= s.subrange(pos, stop));
            }
        } else if pos + 4 <= s.len() {
            assert(d[off + pos + 2] == s[pos + 2]);
            assert(d[off + pos + 3] == s[pos + 3]);
            let length = be16_at(s, pos + 2);
            assert(be16_at(d, off + pos + 2) == length);
            if is_copied_segment(marker) {
                let end = pos + 4 + payload_len(length);
                if end <= s.len() {
                    lemma_scan_end_shift(a, s, end);
                    lemma_scan_end_bounds(s, end);
                    assert(d.subrange(off + pos, off + end) =~= s.subrange(pos, end));
                    if scan_end(s, end).is_some() {
                        let stop = scan_end(s, end).unwrap();
                        assert(d.subrange(off + pos, off + stop) =~= s.subrange(pos, stop));
                    }
                }
            } else {
                let end = pos + 2 + length;
                if end <= s.len() && marker == 0xE0 && length >= 16 {
                    assert(d[off + pos + 4] == s[pos + 4]);
                    assert(d[off + pos + 5] == s[pos + 5]);
                    assert(d[off + pos + 6] == s[pos + 6]);
                    assert(d[off + pos + 7] == s[pos + 7]);
                    assert(d[off + pos + 8] == s[pos + 8]);
                }
            }
        }
    }
}

/// A stream reads the same wherever it is embedded: placing bytes in front
/// of the input moves every record without changing it.
proof fn lemma_jpeg_shift(a: Seq<u8>, s: Seq<u8>, pos: int)
    requires
        0 <= pos,
    ensures
        jpeg_kept(a + s, a.len() + pos) == jpeg_kept(s, pos),
        jpeg_all_kept(a + s, a.len() + pos) == jpeg_all_kept(s, pos),
    decreases s.len() - pos,
{
    let d = a + s;
    let off = a.len() as int;
    lemma_jpeg_step_shift(a, s, pos);
    lemma_jpeg_step_advances(s, pos);
    match jpeg_step(s, pos) {
        JpegStep::Record { emit, next } => {
            lemma_jpeg_shift(a, s, next);
            assert(d.subrange(off + pos, off + next) =~= s.subrange(pos, next));
        },
        _ => {},
    }
}

/// A stream of records that are all kept is copied as it stands.
proof fn lemma_jpeg_all_kept_copied(data: Seq<u8>, pos: int)
    requires
        0 <= pos <= data.len(),
        jpeg_all_kept(data, pos),
    ensures
        jpeg_kept(data, pos) == Some(data.subrange(pos, data.len() as int)),
    decreases data.len() - pos,
{
    match jpeg_step(data, pos) {
        JpegStep::Record { emit, next } => {
            lemma_jpeg_all_kept_copied(data, next);
            assert(data.subrange(pos, next) + data.subrange(next, data.len() as int)
                =~= data.subrange(pos, data.len() as int));
        },
        _ => {
            assert(data.subrange(pos, data.len() as int) =~= Seq::<u8>::empty());
        },
    }
}

/// A record that stripping has written is, when read again in front of
/// `rest`, a record that is copied as it stands.
proof fn lemma_jpeg_record_reread(data: Seq<u8>, pos: int, rest: Seq<u8>)
    requires
        0 <= pos,
        jpeg_step(data, pos) is Record,
        jpeg_step(data, pos)->emit.len() > 0,
        bears_scan(data, pos) ==> opens_with_marker(Some(rest)),
    ensures
        jpeg_step(jpeg_step(data, pos)->emit + rest, 0) == (JpegStep::Record {
            emit: jpeg_step(data, pos)->emit,
            next: jpeg_step(data, pos)->emit.len() as int,
        }),
{
    let emit = jpeg_step(data, pos)->emit;
    let next = jpeg_step(data, pos)->next;
    let r = emit + rest;
    let marker = data[pos + 1];
    lemma_jpeg_step_advances(data, pos);
    if is_standalone(marker) {
        assert(r[1] == marker);
        assert(r.subrange(0, 2) =~= emit);
    } else if is_restart(marker) {
        lemma_scan_end_bounds(data, pos + 2);
        assert(r[1] == marker);
        assert forall|i: int| 2 <= i < emit.len() && #[trigger] r[i] == 0xFF implies r[i + 1]
            == 0 by {
            assert(data[pos + i] == 0xFF);
        }
        lemma_scan_end_is_first(r, 2, emit.len() as int);
        assert(r.subrange(0, emit.len() as int) =~= emit);
    } else {
        let length = be16_at(data, pos + 2);
        if is_copied_segment(marker) {
            let end = pos + 4 + payload_len(length);
            lemma_scan_end_bounds(data, end);
            assert(r[1] == marker);
            assert(r[2] == data[pos + 2] && r[3] == data[pos + 3]);
            assert(be16_at(r, 2) == length);
            if marker == 0xDA {
                assert forall|i: int| end - pos <= i < emit.len() && #[trigger] r[i]
                    == 0xFF implies r[i + 1] == 0 by {
                    assert(data[pos + i] == 0xFF);
                }
                lemma_scan_end_is_first(r, end - pos, emit.len() as int);
            }
            assert(r.subrange(0, emit.len() as int) =~= emit);
        } else {
            assert(emit == jfif_header());
            assert(emit.len() == 18);
            assert(r[1] == emit[1] && r[2] == emit[2] && r[3] == emit[3]);
            assert(r[4] == emit[4] && r[5] == emit[5] && r[6] == emit[6] && r[7] == emit[7]
                && r[8] == emit[8]);
            assert(be16_at(r, 2) == 16);
        }
    }
}

/// What stripping leaves of a framed stream is made of records that are all
/// kept.
proof fn lemma_jpeg_kept_all_kept(data: Seq<u8>, pos: int)
    requires
        0 <= pos,
        jpeg_kept(data, pos).is_some(),
        jpeg_framed(data, pos),
    ensures
        jpeg_all_kept(jpeg_kept(data, pos).unwrap(), 0),
    decreases data.len() - pos,
{
    match jpeg_step(data, pos) {
        JpegStep::Record { emit, next } => {
            lemma_jpeg_kept_all_kept(data, next);
            let rest = jpeg_kept(data, next).unwrap();
            if emit.len() > 0 {
                lemma_jpeg_record_reread(data, pos, rest);
                lemma_jpeg_shift(emit, rest, 0);
                assert((emit + rest).subrange(0, emit.len() as int) =~= emit);
            } else {
                assert(emit + rest =~= rest);
            }
        },
        _ => {},
    }
}

/// A prefix of the input that ends no later than the marker closing a run of
/// entropy-coded data ends inside that run.
proof fn lemma_scan_end_cut(data: Seq<u8>, pos: int, n: int)
    requires
        0 <= pos,
        0 <= n <= data.len(),
    ensures
        scan_end(data, pos) matches Some(stop) ==> (if n >= stop + 2 {
            scan_end(data.subrange(0, n), pos) == Some(stop)
        } else {
            scan_end(data.subrange(0, n), pos).is_none()
        }),
    decreases data.len() - pos,
{
    let cut = data.subrange(0, n);
    if pos + 1 < data.len() {
        if data[pos] == 0xFF && data[pos + 1] != 0 {
        } else {
            lemma_scan_end_cut(data, pos + 1, n);
            lemma_scan_end_bounds(data, pos + 1);
        }
    }
}

/// A prefix of the input that ends inside a record is rejected from the
/// start of the stream that holds the record.
proof fn lemma_jpeg_cut_inside_record(data: Seq<u8>, pos: int, n: int)
    requires
        0 <= pos,
        0 <= n < data.len(),
        jpeg_cut_inside(data, pos, n),
    ensures
        jpeg_kept(data.subrange(0, n), pos).is_none(),
    decreases data.len() - pos,
{
    let cut = data.subrange(0, n);
    let next = jpeg_step(data, pos)->next;
    let marker = data[pos + 1];
    lemma_jpeg_step_advances(data, pos);
    lemma_jpeg_step_advances(cut, pos);
    if pos + 2 <= n {
        assert(cut[pos + 1] == marker);
        lemma_scan_end_cut(data, pos + 2, n);
        if pos + 4 <= n {
            assert(cut[pos + 2] == data[pos + 2] && cut[pos + 3] == data[pos + 3]);
            let length = be16_at(data, pos + 2);
            let end = pos + 4 + payload_len(length);
            if end <= n {
                lemma_scan_end_cut(data, end, n);
                assert(cut.subrange(pos, end) =~= data.subrange(pos, end));
            }
        }
        if next <= n && jpeg_cut_inside(data, next, n) {
            lemma_jpeg_cut_inside_record(data, next, n);
            if jpeg_step(cut, pos) is Record {
                assert(jpeg_step(cut, pos)->next == next);
            }
        }
    }
}

/// A closed stream is framed, and what stripping leaves of it opens with a
/// marker.
pub proof fn lemma_jpeg_closed_is_framed(data: Seq<u8>, pos: int)
    requires
        0 <= pos,
        jpeg_closed(data, pos),
    ensures
        jpeg_framed(data, pos),
        opens_with_marker(jpeg_kept(data, pos)),
    decreases data.len() - pos,
{
    let emit = jpeg_step(data, pos)->emit;
    let next = jpeg_step(data, pos)->next;
    lemma_jpeg_step_advances(data, pos);
    lemma_scan_end_bounds(data, pos + 2);
    if pos + 4 <= data.len() {
        lemma_scan_end_bounds(data, pos + 4 + payload_len(be16_at(data, pos + 2)));
    }
    let marker = data[pos + 1];
    if emit.len() > 0 {
        if !is_standalone(marker) && !is_restart(marker) && !is_copied_segment(marker) {
            assert(emit == jfif_header());
            assert(emit[0] == 0xFF && emit[1] == 0xE0);
        } else {
            assert(emit.len() >= 2);
            assert(emit[0] == data[pos] && emit[1] == marker);
        }
    }
    if jpeg_closed(data, next) {
        lemma_jpeg_closed_is_framed(data, next);
        let rest = jpeg_kept(data, next).unwrap();
        if emit.len() > 0 {
            assert((emit + rest)[0] == emit[0]);
            assert((emit + rest)[1] == emit[1]);
        } else {
            assert(emit + rest =~= rest);
        }
        assert(jpeg_framed(data, pos));
    } else {
        assert(marker == 0xD9);
        assert(jpeg_framed(data, next));
        assert(!bears_scan(data, pos));
        assert(emit + Seq::<u8>::empty() =~= emit);
        assert(jpeg_framed(data, pos));
    }
}

/// A JFIF segment that is the fixed one already is copied as it stands.
pub proof fn lemma_jpeg_canonical_jfif_kept(data: Seq<u8>, pos: int)
    requires
        0 <= pos,
        pos + 18 <= data.len(),
        data.subrange(pos, pos + 18) == jfif_header(),
    ensures
        jpeg_step(data, pos) == (JpegStep::Record {
            emit: data.subrange(pos, pos + 18),
            next: pos + 18,
        }),
{
    let seg = data.subrange(pos, pos + 18);
    assert(data[pos + 1] == seg[1] && data[pos + 2] == seg[2] && data[pos + 3] == seg[3]);
    assert(data[pos + 4] == seg[4] && data[pos + 5] == seg[5] && data[pos + 6] == seg[6]
        && data[pos + 7] == seg[7] && data[pos + 8] == seg[8]);
    assert(be16_at(data, pos + 2) == 16);
}

/// An application segment other than a JFIF one, and a comment, yield
/// nothing: whatever its payload, a whole segment with a marker from `0xE1`
/// to `0xEF`, or `0xFE`, is left out.
pub proof fn lemma_jpeg_metadata_dropped(data: Seq<u8>, pos: int)
    requires
        0 <= pos,
        pos + 4 <= data.len(),
        0xE1 <= data[pos + 1] <= 0xEF || data[pos + 1] == 0xFE,
        pos + 2 + be16_at(data, pos + 2) <= data.len(),
    ensures
        jpeg_step(data, pos) == (JpegStep::Record {
            emit: Seq::empty(),
            next: pos + 2 + be16_at(data, pos + 2),
        }),
{
}

/// An input whose records are all kept is returned byte for byte: one with
/// no segment to drop, no stray byte at its end, and no JFIF segment but
/// the fixed one.
pub proof fn lemma_jpeg_clean_input_unchanged(data: Seq<u8>)
    requires
        jpeg_all_kept(data, 0),
    ensures
        jpeg_stripped(data) == Ok::<Seq<u8>, FormatError>(data),
{
    lemma_jpeg_all_kept_copied(data, 0);
    assert(data.subrange(0, data.len() as int) =~= data);
}

/// After stripping a framed input, the output holds kept records only: no
/// application or comment segment is left in it.
pub proof fn lemma_jpeg_output_clean(data: Seq<u8>)
    requires
        jpeg_stripped(data).is_ok(),
        jpeg_framed(data, 0),
    ensures
        jpeg_all_kept(jpeg_stripped(data).unwrap(), 0),
{
    lemma_jpeg_kept_all_kept(data, 0);
}

/// Stripping a framed input twice gives what stripping it once gives; a
/// closed input is framed. Without the frame the law fails: `FF DA 00 02 FF
/// E1 00 02` strips to `FF DA 00 02`, which ends where entropy-coded data is
/// due and is rejected.
pub proof fn lemma_jpeg_strip_idempotent(data: Seq<u8>)
    requires
        jpeg_stripped(data).is_ok(),
        jpeg_framed(data, 0),
    ensures
        jpeg_stripped(jpeg_stripped(data).unwrap()) == jpeg_stripped(data),
{
    lemma_jpeg_output_clean(data);
    lemma_jpeg_clean_input_unchanged(jpeg_stripped(data).unwrap());
}

/// A run of entropy-coded data reaches the output byte for byte. Behind a
/// restart marker or a scan header at `pos`, everything up to the first
/// `0xFF` that a non-zero byte follows is copied together with the record,
/// and every `0xFF` in it is a stuffed one, followed by zero.
pub proof fn lemma_jpeg_scan_data_preserved(data: Seq<u8>, pos: int)
    requires
        0 <= pos,
        bears_scan(data, pos),
        jpeg_kept(data, pos).is_some(),
    ensures
        scan_end(data, scan_start(data, pos)) matches Some(stop) && {
            &&& scan_start(data, pos) <= stop < data.len()
            &&& jpeg_kept(data, pos) == prepend(data.subrange(pos, stop), jpeg_kept(data, stop))
            &&& forall|i: int|
                scan_start(data, pos) <= i < stop && #[trigger] data[i] == 0xFF ==> data[i + 1]
                    == 0
        },
{
    lemma_scan_end_bounds(data, scan_start(data, pos));
}

/// From the start of a run to its end, the data ends where the run ends,
/// unless a restart marker ends the run: then it ends where the data behind
/// that marker ends.
proof fn lemma_entropy_end_by_runs(data: Seq<u8>, pos: int, stop: int)
    requires
        0 <= pos,
        scan_end(data, pos) == Some(stop),
    ensures
        entropy_end(data, pos) == (if is_restart(data[stop + 1]) {
            entropy_end(data, stop + 2)
        } else {
            Some(stop)
        }),
    decreases data.len() - pos,
{
    if data[pos] == 0xFF && data[pos + 1] != 0 {
        if is_restart(data[pos + 1]) {
            assert(entropy_end(data, pos) == entropy_end(data, pos + 1));
            assert(entropy_end(data, pos + 1) == entropy_end(data, pos + 2));
        }
    } else {
        lemma_entropy_end_by_runs(data, pos + 1, stop);
    }
}

/// Entropy-coded data reaches the output byte for byte, restart markers
/// and stuffed bytes included. Behind a restart marker or a scan header at
/// `pos`, everything up to the first `0xFF` whose next byte is neither zero
/// nor a restart marker is copied together with the record.
pub proof fn lemma_jpeg_entropy_data_preserved(data: Seq<u8>, pos: int)
    requires
        0 <= pos,
        bears_scan(data, pos),
        jpeg_kept(data, pos).is_some(),
    ensures
        entropy_end(data, scan_start(data, pos)) matches Some(stop) && {
            &&& scan_start(data, pos) <= stop < data.len()
            &&& jpeg_kept(data, pos) == prepend(data.subrange(pos, stop), jpeg_kept(data, stop))
        },
    decreases data.len() - pos,
{
    let start = scan_start(data, pos);
    let run_end = scan_end(data, start).unwrap();
    lemma_scan_end_bounds(data, start);
    lemma_entropy_end_by_runs(data, start, run_end);
    if is_restart(data[run_end + 1]) {
        lemma_jpeg_entropy_data_preserved(data, run_end);
        let stop = entropy_end(data, run_end + 2).unwrap();
        let rest = jpeg_kept(data, stop).unwrap();
        assert(data.subrange(pos, run_end) + (data.subrange(run_end, stop) + rest)
            =~= data.subrange(pos, stop) + rest);
    }
}

/// Cutting an input inside a record makes stripping fail: the first `n`
/// bytes of `data` are rejected where `n` lies two bytes or more behind the
/// start of a record and before its end. (A cut one byte behind a record's
/// start leaves a stray byte, which is passed over.)
pub proof fn lemma_jpeg_truncated_rejected(data: Seq<u8>, n: int)
    requires
        0 <= n < data.len(),
        jpeg_cut_inside(data, 0, n),
    ensures
        jpeg_stripped(data.subrange(0, n)).is_err(),
{
    lemma_jpeg_cut_inside_record(data, 0, n);
}

} // verus!
