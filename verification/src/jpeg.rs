//! Lossless removal of EXIF APP1 segments from a JPEG byte stream. Every other
//! segment, and the entropy-coded data that follows the start-of-scan marker,
//! is kept byte for byte.

use vstd::prelude::*;

verus! {

/// Why a byte stream could not be scanned as a JPEG.
#[derive(Clone, Copy, Debug, PartialEq, Eq, Structural)]
pub enum JpegError {
    /// The stream does not start with the SOI marker `FF D8`.
    NotJpeg,
    /// A segment does not start with an `FF` byte.
    MalformedSegment,
    /// The stream ends inside a marker or a length field.
    Truncated,
    /// A segment length is below two or runs past the end of the stream.
    BadSegmentLength,
}

/// The bytes that remain after stripping, and whether any EXIF segment was removed.
pub struct JpegStripped {
    pub bytes: Vec<u8>,
    pub removed: bool,
}

/// The scan outcome over mathematical values: the kept bytes and whether an
/// EXIF segment was dropped, or the reason the stream was rejected.
pub type ScanResult = Result<(Seq<u8>, bool), JpegError>;

/// The first index at or after `pos` that does not hold a fill byte `FF`
/// (or the stream length).
pub open spec fn fill_end(data: Seq<u8>, pos: int) -> int
    decreases data.len() - pos,
{
    if 0 <= pos < data.len() && data[pos] == 0xFF {
        fill_end(data, pos + 1)
    } else {
        pos
    }
}

pub proof fn lemma_fill_end_bounds(data: Seq<u8>, pos: int)
    requires
        0 <= pos,
    ensures
        pos <= fill_end(data, pos),
        pos <= data.len() ==> fill_end(data, pos) <= data.len(),
        fill_end(data, pos) < data.len() ==> data[fill_end(data, pos)] != 0xFF,
    decreases data.len() - pos,
{
    if 0 <= pos < data.len() && data[pos] == 0xFF {
        lemma_fill_end_bounds(data, pos + 1);
    }
}

/// Markers that stand alone, without a length field: TEM and RST0..RST7, SOI, EOI.
pub open spec fn is_standalone_marker(marker: u8) -> bool {
    marker == 0x01 || (0xD0 <= marker && marker <= 0xD9)
}

/// The payload `data[start..end]` opens with the EXIF identifier `"Exif\0\0"`.
pub open spec fn is_exif_payload(data: Seq<u8>, start: int, end: int) -> bool {
    &&& end - start >= 6
    &&& data[start] == 0x45
    &&& data[start + 1] == 0x78
    &&& data[start + 2] == 0x69
    &&& data[start + 3] == 0x66
    &&& data[start + 4] == 0x00
    &&& data[start + 5] == 0x00
}

/// The big-endian 16-bit length field at `at`.
pub open spec fn length_at(data: Seq<u8>, at: int) -> int {
    data[at] * 256 + data[at + 1]
}

/// Scans the segments of `data` from `pos` onwards. Each segment is one or
/// more `FF` bytes, a marker byte and, unless the marker stands alone, a length
/// field counting itself and the payload. The start-of-scan marker `DA` keeps
/// the rest of the stream as it is. EXIF APP1 segments (marker `E1` with the
/// `"Exif\0\0"` identifier) are dropped; every other segment is kept whole. A
/// last byte that cannot start a segment is dropped.
pub open spec fn scan_segments(data: Seq<u8>, pos: int) -> ScanResult
    decreases data.len() - pos,
{
    if pos < 0 || pos + 1 >= data.len() {
        Ok((Seq::empty(), false))
    } else if data[pos] != 0xFF {
        Err(JpegError::MalformedSegment)
    } else {
        let m = fill_end(data, pos);
        proof {
            lemma_fill_end_bounds(data, pos);
        }
        if m >= data.len() {
            Err(JpegError::Truncated)
        } else if data[m] == 0xDA {
            Ok((data.subrange(pos, data.len() as int), false))
        } else if is_standalone_marker(data[m]) {
            match scan_segments(data, m + 1) {
                Ok((kept, removed)) => Ok((data.subrange(pos, m + 1) + kept, removed)),
                Err(e) => Err(e),
            }
        } else if m + 2 >= data.len() {
            Err(JpegError::Truncated)
        } else if length_at(data, m + 1) < 2 || m + 1 + length_at(data, m + 1) > data.len() {
            Err(JpegError::BadSegmentLength)
        } else {
            let end = m + 1 + length_at(data, m + 1);
            match scan_segments(data, end) {
                Ok((kept, removed)) => if data[m] == 0xE1 && is_exif_payload(data, m + 3, end) {
                    Ok((kept, true))
                } else {
                    Ok((data.subrange(pos, end) + kept, removed))
                },
                Err(e) => Err(e),
            }
        }
    }
}

/// The whole-stream result: the SOI marker followed by the scanned segments.
pub open spec fn spec_strip_jpeg_exif(data: Seq<u8>) -> ScanResult {
    if data.len() < 2 || data[0] != 0xFF || data[1] != 0xD8 {
        Err(JpegError::NotJpeg)
    } else {
        match scan_segments(data, 2) {
            Ok((kept, removed)) => Ok((data.subrange(0, 2) + kept, removed)),
            Err(e) => Err(e),
        }
    }
}

/// Prefixes the kept bytes of `rest` with `out` and joins the removal flags.
pub open spec fn prefix_scan(out: Seq<u8>, removed: bool, rest: ScanResult) -> ScanResult {
    match rest {
        Ok((kept, r)) => Ok((out + kept, removed || r)),
        Err(e) => Err(e),
    }
}

/// `fill_end` depends only on the bytes it reads: a copy of the run of fill
/// bytes and the byte that stops it, placed anywhere, stops at the same offset.
proof fn lemma_fill_end_shift(data: Seq<u8>, p: int, t: Seq<u8>, q: int, n: int)
    requires
        0 <= p,
        0 <= q,
        p + n <= data.len(),
        q + n <= t.len(),
        t.subrange(q, q + n) == data.subrange(p, p + n),
        fill_end(data, p) < p + n,
    ensures
        fill_end(t, q) == q + fill_end(data, p) - p,
    decreases n,
{
    lemma_fill_end_bounds(data, p);
    assert(t[q] == t.subrange(q, q + n)[0]);
    assert(data[p] == data.subrange(p, p + n)[0]);
    if data[p] == 0xFF {
        assert(t.subrange(q + 1, q + n) =~= t.subrange(q, q + n).subrange(1, n));
        assert(data.subrange(p + 1, p + n) =~= data.subrange(p, p + n).subrange(1, n));
        lemma_fill_end_shift(data, p + 1, t, q + 1, n - 1);
    }
}

/// The kept bytes of a successful scan scan again to themselves, with nothing
/// removed, wherever they are placed after a prefix `s`.
#[verifier::spinoff_prover]
#[verifier::rlimit(40)]
proof fn lemma_rescan(data: Seq<u8>, pos: int, s: Seq<u8>)
    requires
        0 <= pos,
        scan_segments(data, pos) is Ok,
    ensures
        scan_segments(s + scan_segments(data, pos)->Ok_0.0, s.len() as int)
            == Ok::<(Seq<u8>, bool), JpegError>((scan_segments(data, pos)->Ok_0.0, false)),
    decreases data.len() - pos,
{
    let kept = scan_segments(data, pos)->Ok_0.0;
    let t = s + kept;
    let q = s.len() as int;
    if pos + 1 >= data.len() {
        assert(kept =~= Seq::<u8>::empty());
        assert(t =~= s);
    } else {
        let m = fill_end(data, pos);
        lemma_fill_end_bounds(data, pos);
        if data[m] == 0xDA {
            let n = data.len() - pos;
            assert(t.subrange(q, q + n) =~= data.subrange(pos, pos + n));
            lemma_fill_end_shift(data, pos, t, q, n);
            assert(t.subrange(q, t.len() as int) =~= kept);
        } else if is_standalone_marker(data[m]) {
            let n = m + 1 - pos;
            let seg = data.subrange(pos, m + 1);
            let rest = scan_segments(data, m + 1)->Ok_0.0;
            assert(kept == seg + rest);
            assert(t.subrange(q, q + n) =~= data.subrange(pos, pos + n));
            lemma_fill_end_shift(data, pos, t, q, n);
            lemma_rescan(data, m + 1, s + seg);
            assert(t =~= (s + seg) + rest);
            assert(t.subrange(q, q + n) =~= seg);
        } else {
            let end = m + 1 + length_at(data, m + 1);
            let n = end - pos;
            let seg = data.subrange(pos, end);
            let rest = scan_segments(data, end)->Ok_0.0;
            if data[m] == 0xE1 && is_exif_payload(data, m + 3, end) {
                assert(kept == rest);
                lemma_rescan(data, end, s);
            } else {
                assert(kept == seg + rest);
                lemma_rescan(data, end, s + seg);
                assert(t =~= (s + seg) + rest);
                assert(t.subrange(q, q + n) =~= data.subrange(pos, pos + n));
                lemma_fill_end_shift(data, pos, t, q, n);
                let mt = q + m - pos;
                assert(t[mt] == data[m]);
                assert(t[mt + 1] == data[m + 1]);
                assert(t[mt + 2] == data[m + 2]);
                assert(length_at(t, mt + 1) == length_at(data, m + 1));
                if end - (m + 3) >= 6 {
                    assert(t[mt + 3] == data[m + 3]);
                    assert(t[mt + 4] == data[m + 4]);
                    assert(t[mt + 5] == data[m + 5]);
                    assert(t[mt + 6] == data[m + 6]);
                    assert(t[mt + 7] == data[m + 7]);
                    assert(t[mt + 8] == data[m + 8]);
                }
                assert(t.subrange(q, q + n) =~= seg);
            }
        }
    }
}

/// With nothing removed, the kept bytes are the stream itself from `pos`,
/// short of at most one last byte.
proof fn lemma_unchanged(data: Seq<u8>, pos: int)
    requires
        0 <= pos <= data.len(),
        scan_segments(data, pos) matches Ok((_, removed)) && !removed,
    ensures
        ({
            let kept = scan_segments(data, pos)->Ok_0.0;
            &&& pos + kept.len() <= data.len()
            &&& kept == data.subrange(pos, pos + kept.len())
            &&& pos + kept.len() >= data.len() - 1
        }),
    decreases data.len() - pos,
{
    if pos + 1 < data.len() {
        let m = fill_end(data, pos);
        lemma_fill_end_bounds(data, pos);
        if data[m] == 0xDA {
        } else if is_standalone_marker(data[m]) {
            lemma_unchanged(data, m + 1);
            let rest = scan_segments(data, m + 1)->Ok_0.0;
            assert(data.subrange(pos, m + 1) + data.subrange(m + 1, m + 1 + rest.len())
                =~= data.subrange(pos, m + 1 + rest.len()));
        } else {
            let end = m + 1 + length_at(data, m + 1);
            lemma_unchanged(data, end);
            let rest = scan_segments(data, end)->Ok_0.0;
            assert(data.subrange(pos, end) + data.subrange(end, end + rest.len())
                =~= data.subrange(pos, end + rest.len()));
        }
    }
}

/// Stripping is idempotent: the stripped stream strips to itself, and no EXIF
/// segment is left in it to remove.
pub proof fn law_strip_idempotent(data: Seq<u8>)
    requires
        spec_strip_jpeg_exif(data) is Ok,
    ensures
        spec_strip_jpeg_exif(spec_strip_jpeg_exif(data)->Ok_0.0)
            == Ok::<(Seq<u8>, bool), JpegError>((spec_strip_jpeg_exif(data)->Ok_0.0, false)),
{
    let head = data.subrange(0, 2);
    lemma_rescan(data, 2, head);
    let out = spec_strip_jpeg_exif(data)->Ok_0.0;
    assert(out[0] == data[0]);
    assert(out[1] == data[1]);
    assert(out.subrange(0, 2) =~= head);
}

/// A stream without EXIF segments is kept unchanged, short of at most one last
/// byte that cannot start a segment; stripping never lengthens a stream.
pub proof fn law_strip_without_exif_keeps_stream(data: Seq<u8>)
    requires
        spec_strip_jpeg_exif(data) matches Ok((_, removed)) && !removed,
    ensures
        ({
            let out = spec_strip_jpeg_exif(data)->Ok_0.0;
            &&& out == data.subrange(0, out.len() as int)
            &&& data.len() - 1 <= out.len() <= data.len()
        }),
{
    lemma_unchanged(data, 2);
    let kept = scan_segments(data, 2)->Ok_0.0;
    assert(data.subrange(0, 2) + data.subrange(2, 2 + kept.len() as int) =~= data.subrange(0, 2 + kept.len() as int));
}

/// Appends `data[start..end]` to `out`.
fn append_range(out: &mut Vec<u8>, data: &[u8], start: usize, end: usize)
    requires
        start <= end <= data@.len(),
    ensures
        final(out)@ == old(out)@ + data@.subrange(start as int, end as int),
{
    let mut i = start;
    while i < end
        invariant
            start <= i <= end <= data@.len(),
            out@ == old(out)@ + data@.subrange(start as int, i as int),
        decreases end - i,
    {
        out.push(data[i]);
        i = i + 1;
        assert(out@ =~= old(out)@ + data@.subrange(start as int, i as int));
    }
}

/// Removes every EXIF APP1 segment from the JPEG stream `data`, keeping every
/// other segment and the image data byte for byte.
pub fn strip_jpeg_exif_bytes(data: &[u8]) -> (res: Result<JpegStripped, JpegError>)
    ensures
        match res {
            Ok(s) => spec_strip_jpeg_exif(data@) == Ok::<(Seq<u8>, bool), JpegError>((s.bytes@, s.removed)),
            Err(e) => spec_strip_jpeg_exif(data@) == Err::<(Seq<u8>, bool), JpegError>(e),
        },
{
    let len = data.len();
    if len < 2 || data[0] != 0xFF || data[1] != 0xD8 {
        return Err(JpegError::NotJpeg);
    }
    let mut output: Vec<u8> = Vec::with_capacity(len);
    append_range(&mut output, data, 0, 2);
    let mut pos: usize = 2;
    let mut removed = false;

    while pos < len - 1
        invariant
            len == data@.len(),
            2 <= pos <= len,
            prefix_scan(output@, removed, scan_segments(data@, pos as int))
                == spec_strip_jpeg_exif(data@),
        decreases len - pos,
    {
        if data[pos] != 0xFF {
            return Err(JpegError::MalformedSegment);
        }
        let segment_start = pos;
        proof {
            lemma_fill_end_bounds(data@, pos as int);
        }
        while pos < len && data[pos] == 0xFF
            invariant
                len == data@.len(),
                segment_start <= pos <= len,
                fill_end(data@, segment_start as int) == fill_end(data@, pos as int),
            decreases len - pos,
        {
            pos = pos + 1;
        }
        if pos >= len {
            return Err(JpegError::Truncated);
        }
        let marker = data[pos];
        pos = pos + 1;
        let ghost rest_before = scan_segments(data@, segment_start as int);

        if marker == 0xDA {
            let ghost before = output@;
            append_range(&mut output, data, segment_start, len);
            assert(output@ =~= before + data@.subrange(segment_start as int, len as int));
            return Ok(JpegStripped { bytes: output, removed });
        }
        if marker == 0x01 || (0xD0 <= marker && marker <= 0xD9) {
            let ghost before = output@;
            append_range(&mut output, data, segment_start, pos);
            proof {
                let seg = data@.subrange(segment_start as int, pos as int);
                match scan_segments(data@, pos as int) {
                    Ok((kept, r)) => {
                        assert(before + (seg + kept) =~= (before + seg) + kept);
                    },
                    Err(e) => {},
                }
            }
            continue;
        }
        if pos >= len - 1 {
            return Err(JpegError::Truncated);
        }
        let length = (data[pos] as usize) * 256 + data[pos + 1] as usize;
        assert(length == length_at(data@, pos as int));
        if length < 2 || length > len - pos {
            return Err(JpegError::BadSegmentLength);
        }
        let segment_end = pos + length;
        let is_exif = marker == 0xE1 && length >= 8 && data[pos + 2] == 0x45 && data[pos + 3] == 0x78
            && data[pos + 4] == 0x69 && data[pos + 5] == 0x66 && data[pos + 6] == 0x00
            && data[pos + 7] == 0x00;
        assert(is_exif == (marker == 0xE1 && is_exif_payload(data@, pos + 2, segment_end as int)));
        if is_exif {
            removed = true;
        } else {
            let ghost before = output@;
            append_range(&mut output, data, segment_start, segment_end);
            proof {
                let seg = data@.subrange(segment_start as int, segment_end as int);
                match scan_segments(data@, segment_end as int) {
                    Ok((kept, r)) => {
                        assert(before + (seg + kept) =~= (before + seg) + kept);
                    },
                    Err(e) => {},
                }
            }
        }
        pos = segment_end;
    }
    Ok(JpegStripped { bytes: output, removed })
}

/// At `i` the stream holds the start of an EXIF APP1 segment: an `FF` byte,
/// the marker `E1`, a two-byte length and the identifier `"Exif\0\0"`.
pub open spec fn exif_segment_at(data: Seq<u8>, i: int) -> bool {
    &&& 0 <= i
    &&& i + 9 < data.len()
    &&& data[i] == 0xFF
    &&& data[i + 1] == 0xE1
    &&& data[i + 4] == 0x45
    &&& data[i + 5] == 0x78
    &&& data[i + 6] == 0x69
    &&& data[i + 7] == 0x66
    &&& data[i + 8] == 0x00
    &&& data[i + 9] == 0x00
}

/// Every byte from `pos` up to the end of its run of fill bytes is `FF`.
proof fn lemma_fill_run(data: Seq<u8>, pos: int, k: int)
    requires
        0 <= pos <= k < fill_end(data, pos),
    ensures
        0 <= k < data.len(),
        data[k] == 0xFF,
    decreases data.len() - pos,
{
    if 0 <= pos < data.len() && data[pos] == 0xFF {
        if k > pos {
            lemma_fill_run(data, pos + 1, k);
        }
    }
}

/// A scan that removed something passed over an EXIF APP1 segment at or
/// after `pos`.
proof fn lemma_removed_has_exif(data: Seq<u8>, pos: int)
    requires
        0 <= pos,
        scan_segments(data, pos) matches Ok((_, removed)) && removed,
    ensures
        exists|i: int| pos <= i && exif_segment_at(data, i),
    decreases data.len() - pos,
{
    let m = fill_end(data, pos);
    lemma_fill_end_bounds(data, pos);
    assert(m > pos) by {
        lemma_fill_end_bounds(data, pos + 1);
    }
    lemma_fill_run(data, pos, m - 1);
    if data[m] == 0xDA {
    } else if is_standalone_marker(data[m]) {
        lemma_removed_has_exif(data, m + 1);
    } else {
        let end = m + 1 + length_at(data, m + 1);
        if data[m] == 0xE1 && is_exif_payload(data, m + 3, end) {
            assert(exif_segment_at(data, m - 1));
        } else {
            lemma_removed_has_exif(data, end);
        }
    }
}

/// Stripping reports a removal only when the stream holds an EXIF APP1
/// segment; a stream without one is kept as it is, short of at most one
/// last byte that cannot start a segment.
pub proof fn law_removal_needs_an_exif_segment(data: Seq<u8>)
    ensures
        spec_strip_jpeg_exif(data) matches Ok((_, removed)) && removed
            ==> exists|i: int| 2 <= i && exif_segment_at(data, i),
        (forall|i: int| !exif_segment_at(data, i)) && spec_strip_jpeg_exif(data) is Ok ==> ({
            let (out, removed) = spec_strip_jpeg_exif(data)->Ok_0;
            &&& !removed
            &&& out == data.subrange(0, out.len() as int)
            &&& data.len() - 1 <= out.len() <= data.len()
        }),
{
    if spec_strip_jpeg_exif(data) matches Ok((_, removed)) && removed {
        lemma_removed_has_exif(data, 2);
    }
    if (forall|i: int| !exif_segment_at(data, i)) && spec_strip_jpeg_exif(data) is Ok {
        if spec_strip_jpeg_exif(data)->Ok_0.1 {
            lemma_removed_has_exif(data, 2);
        }
        law_strip_without_exif_keeps_stream(data);
    }
}

/// A first segment that is neither an APP1 segment nor the start of scan,
/// written `FF m len_hi len_lo payload` right after the SOI marker, is kept
/// byte for byte at the front of the output.
pub proof fn law_other_segment_is_kept(data: Seq<u8>)
    requires
        data.len() >= 6,
        data[0] == 0xFF && data[1] == 0xD8 && data[2] == 0xFF,
        data[3] != 0xFF && data[3] != 0xE1 && data[3] != 0xDA && data[3] != 0x01,
        !(0xD0 <= data[3] <= 0xD9),
        2 <= data[4] * 256 + data[5],
        4 + data[4] * 256 + data[5] <= data.len(),
    ensures
        spec_strip_jpeg_exif(data) is Ok ==> ({
            let n = 4 + data[4] * 256 + data[5];
            let out = spec_strip_jpeg_exif(data)->Ok_0.0;
            &&& n <= out.len()
            &&& out.subrange(0, n) == data.subrange(0, n)
        }),
{
    assert(fill_end(data, 3) == 3);
    assert(fill_end(data, 2) == 3);
    let n = 4 + data[4] * 256 + data[5];
    if spec_strip_jpeg_exif(data) is Ok {
        let kept = scan_segments(data, n)->Ok_0.0;
        let out = spec_strip_jpeg_exif(data)->Ok_0.0;
        assert(out == data.subrange(0, 2) + (data.subrange(2, n) + kept));
        assert(out.subrange(0, n) =~= data.subrange(0, n));
    }
}

/// `fill_end` reads only what follows its start: behind two different
/// prefixes the same tail gives the same offset into it.
proof fn lemma_fill_end_suffix(p: Seq<u8>, q: Seq<u8>, t: Seq<u8>, j: int)
    requires
        0 <= j,
    ensures
        fill_end(p + t, p.len() + j) - p.len() == fill_end(q + t, q.len() + j) - q.len(),
    decreases t.len() - j,
{
    if j < t.len() {
        assert((p + t)[p.len() + j] == t[j]);
        assert((q + t)[q.len() + j] == t[j]);
        if t[j] == 0xFF {
            lemma_fill_end_suffix(p, q, t, j + 1);
        }
    }
}

/// The scan reads only what follows its start: behind two different
/// prefixes the same tail scans to the same result.
proof fn lemma_scan_suffix(p: Seq<u8>, q: Seq<u8>, t: Seq<u8>, j: int)
    requires
        0 <= j,
    ensures
        scan_segments(p + t, p.len() + j) == scan_segments(q + t, q.len() + j),
    decreases t.len() - j,
{
    let a = p + t;
    let b = q + t;
    let pa = p.len() + j;
    let pb = q.len() + j;
    if j + 1 < t.len() {
        assert(a[pa] == t[j] && b[pb] == t[j]);
        if t[j] == 0xFF {
            lemma_fill_end_suffix(p, q, t, j);
            lemma_fill_end_bounds(a, pa);
            lemma_fill_end_bounds(b, pb);
            let ma = fill_end(a, pa);
            let mb = fill_end(b, pb);
            let k = ma - p.len();
            assert(mb == q.len() + k);
            if k < t.len() {
                assert(a[ma] == t[k] && b[mb] == t[k]);
                if t[k] == 0xDA {
                    assert(a.subrange(pa, a.len() as int) =~= t.subrange(j, t.len() as int));
                    assert(b.subrange(pb, b.len() as int) =~= t.subrange(j, t.len() as int));
                } else if is_standalone_marker(t[k]) {
                    lemma_scan_suffix(p, q, t, k + 1);
                    assert(a.subrange(pa, ma + 1) =~= t.subrange(j, k + 1));
                    assert(b.subrange(pb, mb + 1) =~= t.subrange(j, k + 1));
                } else if k + 2 < t.len() {
                    assert(a[ma + 1] == t[k + 1] && b[mb + 1] == t[k + 1]);
                    assert(a[ma + 2] == t[k + 2] && b[mb + 2] == t[k + 2]);
                    let len = length_at(t, k + 1);
                    assert(length_at(a, ma + 1) == len && length_at(b, mb + 1) == len);
                    if 2 <= len && k + 1 + len <= t.len() {
                        let e = k + 1 + len;
                        lemma_scan_suffix(p, q, t, e);
                        assert(a.subrange(pa, p.len() + e) =~= t.subrange(j, e));
                        assert(b.subrange(pb, q.len() + e) =~= t.subrange(j, e));
                        assert(is_exif_payload(a, ma + 3, p.len() + e) == is_exif_payload(t, k + 3, e));
                        assert(is_exif_payload(b, mb + 3, q.len() + e) == is_exif_payload(t, k + 3, e));
                    }
                }
            }
        }
    }
}

/// A complete segment that is not an APP1 segment or the start of scan, put
/// right after the SOI marker, is kept byte for byte in front of what the
/// rest of the stream strips to: stripping commutes with prepending it.
pub proof fn law_prepended_segment_is_kept(seg: Seq<u8>, rest: Seq<u8>)
    requires
        seg.len() >= 4,
        seg[0] == 0xFF,
        seg[1] != 0xFF && seg[1] != 0xE1 && seg[1] != 0xDA && seg[1] != 0x01,
        !(0xD0 <= seg[1] <= 0xD9),
        seg[2] * 256 + seg[3] == seg.len() - 2,
    ensures
        ({
            let soi = seq![0xFFu8, 0xD8u8];
            spec_strip_jpeg_exif(soi + seg + rest) == match spec_strip_jpeg_exif(soi + rest) {
                Ok((out, removed)) => Ok((soi + seg + out.subrange(2, out.len() as int), removed)),
                Err(e) => Err(e),
            }
        }),
{
    let soi = seq![0xFFu8, 0xD8u8];
    let data = soi + seg + rest;
    let short = soi + rest;
    assert(data =~= (soi + seg) + rest);
    assert(data[2] == 0xFF && data[3] == seg[1]);
    assert(fill_end(data, 3) == 3);
    assert(fill_end(data, 2) == 3);
    assert(data[4] == seg[2] && data[5] == seg[3]);
    let n = 2 + seg.len();
    lemma_scan_suffix(soi + seg, soi, rest, 0);
    assert(short =~= soi + rest);
    assert(data.subrange(2, n as int) =~= seg);
    assert(data.subrange(0, 2) =~= soi);
    assert(short.subrange(0, 2) =~= soi);
    if data.len() >= 2 {
        match scan_segments(short, 2) {
            Ok((kept, r)) => {
                let out = short.subrange(0, 2) + kept;
                assert(out.subrange(2, out.len() as int) =~= kept);
                assert(soi + (seg + kept) =~= soi + seg + kept);
            },
            Err(e) => {},
        }
    }
}

/// A marker without a length field (TEM, RST0..RST7, SOI, EOI), put right
/// after the SOI marker, is kept in front of what the rest strips to.
pub proof fn law_prepended_standalone_marker_is_kept(marker: u8, rest: Seq<u8>)
    requires
        marker == 0x01 || (0xD0 <= marker && marker <= 0xD9),
    ensures
        ({
            let soi = seq![0xFFu8, 0xD8u8];
            let seg = seq![0xFFu8, marker];
            spec_strip_jpeg_exif(soi + seg + rest) == match spec_strip_jpeg_exif(soi + rest) {
                Ok((out, removed)) => Ok((soi + seg + out.subrange(2, out.len() as int), removed)),
                Err(e) => Err(e),
            }
        }),
{
    let soi = seq![0xFFu8, 0xD8u8];
    let seg = seq![0xFFu8, marker];
    let data = soi + seg + rest;
    let short = soi + rest;
    assert(data =~= (soi + seg) + rest);
    assert(data[2] == 0xFF && data[3] == marker);
    assert(fill_end(data, 3) == 3);
    assert(fill_end(data, 2) == 3);
    lemma_scan_suffix(soi + seg, soi, rest, 0);
    assert(short =~= soi + rest);
    assert(data.subrange(2, 4) =~= seg);
    assert(data.subrange(0, 2) =~= soi);
    assert(short.subrange(0, 2) =~= soi);
    match scan_segments(short, 2) {
        Ok((kept, r)) => {
            let out = short.subrange(0, 2) + kept;
            assert(out.subrange(2, out.len() as int) =~= kept);
            assert(soi + (seg + kept) =~= soi + seg + kept);
        },
        Err(e) => {},
    }
}

/// An EXIF APP1 segment put right after the SOI marker is dropped: the stream
/// strips to what the stream without it strips to, with a removal reported.
pub proof fn law_prepended_exif_segment_is_dropped(seg: Seq<u8>, rest: Seq<u8>)
    requires
        seg.len() >= 10,
        seg[0] == 0xFF && seg[1] == 0xE1,
        seg[2] * 256 + seg[3] == seg.len() - 2,
        seg[4] == 0x45 && seg[5] == 0x78 && seg[6] == 0x69 && seg[7] == 0x66 && seg[8] == 0x00
            && seg[9] == 0x00,
    ensures
        ({
            let soi = seq![0xFFu8, 0xD8u8];
            spec_strip_jpeg_exif(soi + seg + rest) == match spec_strip_jpeg_exif(soi + rest) {
                Ok((out, _)) => Ok((out, true)),
                Err(e) => Err(e),
            }
        }),
{
    let soi = seq![0xFFu8, 0xD8u8];
    let data = soi + seg + rest;
    let short = soi + rest;
    assert(data =~= (soi + seg) + rest);
    assert(data[2] == 0xFF && data[3] == 0xE1);
    assert(fill_end(data, 3) == 3);
    assert(fill_end(data, 2) == 3);
    assert(data[4] == seg[2] && data[5] == seg[3]);
    assert(data[6] == seg[4] && data[7] == seg[5] && data[8] == seg[6] && data[9] == seg[7]
        && data[10] == seg[8] && data[11] == seg[9]);
    lemma_scan_suffix(soi + seg, soi, rest, 0);
    assert(short =~= soi + rest);
    assert(data.subrange(0, 2) =~= soi);
    assert(short.subrange(0, 2) =~= soi);
}

} // verus!
