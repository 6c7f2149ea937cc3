//! The PCM audio container the capturer hands over: a RIFF/WAVE file holding
//! little-endian 16-bit mono samples and an explicit sample-rate field.
//!
//! The parser walks the chunk list, takes the format description from the
//! `fmt ` chunk and the samples from the `data` chunk, and rejects anything
//! that is not integer mono 16-bit PCM.

use vstd::prelude::*;

verus! {

/// A finished mono recording: signed 16-bit PCM samples and the rate they
/// were captured at (Hz, always positive).
pub struct AudioBuffer {
    pub samples: Vec<i16>,
    pub sample_rate: u32,
}

impl AudioBuffer {
    /// The sample-rate tag is a positive number of Hz.
    pub open spec fn wf(&self) -> bool {
        self.sample_rate > 0
    }
}

/// Why a byte string is not an acceptable recording.
#[derive(Clone, Copy, PartialEq, Eq, Structural, Debug)]
pub enum FormatError {
    /// Too short, or the outer header is not a RIFF/WAVE header.
    NotAWav,
    /// The format or data chunk is missing, truncated, or out of order.
    MissingChunk,
    /// Not integer PCM, not mono, or not a 16-bit sample width.
    Unsupported,
    /// The declared sample rate is zero.
    ZeroSampleRate,
    /// The data chunk holds half a sample.
    OddDataSize,
}

/// The value of two bytes read as a little-endian 16-bit word.
pub open spec fn le16(b0: u8, b1: u8) -> u16 {
    (b0 + 256 * b1) as u16
}

/// The value of four bytes read as a little-endian 32-bit word.
pub open spec fn le32(b0: u8, b1: u8, b2: u8, b3: u8) -> u32 {
    (b0 + 256 * b1 + 65536 * b2 + 16777216 * b3) as u32
}

/// One sample: two bytes, little-endian, two's complement.
pub open spec fn sample_le(b0: u8, b1: u8) -> i16 {
    le16(b0, b1) as i16
}

/// The samples held by a data chunk body.
pub open spec fn samples_of(data: Seq<u8>) -> Seq<i16> {
    Seq::new((data.len() / 2) as nat, |i: int| sample_le(data[2 * i], data[2 * i + 1]))
}

/// Identifier of the format chunk.
pub open spec fn fmt_id() -> Seq<u8> {
    seq!['f' as u8, 'm' as u8, 't' as u8, ' ' as u8]
}

/// Identifier of the sample-data chunk.
pub open spec fn data_id() -> Seq<u8> {
    seq!['d' as u8, 'a' as u8, 't' as u8, 'a' as u8]
}

/// The outer container header: `RIFF` tag, then `WAVE` form type.
pub open spec fn has_riff_header(b: Seq<u8>) -> bool {
    &&& b.len() >= 12
    &&& b.subrange(0, 4) == seq!['R' as u8, 'I' as u8, 'F' as u8, 'F' as u8]
    &&& b.subrange(8, 12) == seq!['W' as u8, 'A' as u8, 'V' as u8, 'E' as u8]
}

/// Declared body size of the chunk whose header starts at `o`.
pub open spec fn chunk_body_size(b: Seq<u8>, o: int) -> int {
    le32(b[o + 4], b[o + 5], b[o + 6], b[o + 7]) as int
}

/// Offset of the header of the first chunk tagged `id`, scanning the chunk
/// list from `o`.  A truncated chunk ends the scan.
pub open spec fn find_chunk(b: Seq<u8>, o: int, id: Seq<u8>) -> Option<int>
    decreases b.len() - o,
{
    if o + 8 > b.len() {
        None
    } else if o + 8 + chunk_body_size(b, o) > b.len() {
        None
    } else if b.subrange(o, o + 4) == id {
        Some(o)
    } else {
        find_chunk(b, o + 8 + chunk_body_size(b, o), id)
    }
}

/// Offset of the format chunk's header, or -1 when there is none.
pub open spec fn wav_fmt_off(b: Seq<u8>) -> int {
    match find_chunk(b, 12, fmt_id()) {
        Some(o) => o,
        None => -1,
    }
}

/// Offset of the data chunk's header, or -1 when there is none.
pub open spec fn wav_data_off(b: Seq<u8>) -> int {
    match find_chunk(b, 12, data_id()) {
        Some(o) => o,
        None => -1,
    }
}

/// Both chunks are present, the format chunk comes first (as the capturer
/// writes it), and its body holds the full format description.
pub open spec fn wav_chunks_ok(b: Seq<u8>) -> bool {
    &&& find_chunk(b, 12, fmt_id()) is Some
    &&& find_chunk(b, 12, data_id()) is Some
    &&& wav_fmt_off(b) < wav_data_off(b)
    &&& chunk_body_size(b, wav_fmt_off(b)) >= 16
}

/// Format tag field of the format chunk at `f` (1 means integer PCM).
pub open spec fn fmt_tag(b: Seq<u8>, f: int) -> u16 {
    le16(b[f + 8], b[f + 9])
}

/// Channel-count field of the format chunk at `f`.
pub open spec fn fmt_channels(b: Seq<u8>, f: int) -> u16 {
    le16(b[f + 10], b[f + 11])
}

/// Sample-rate field of the format chunk at `f`.
pub open spec fn fmt_rate(b: Seq<u8>, f: int) -> u32 {
    le32(b[f + 12], b[f + 13], b[f + 14], b[f + 15])
}

/// Bits-per-sample field of the format chunk at `f`.
pub open spec fn fmt_bits(b: Seq<u8>, f: int) -> u16 {
    le16(b[f + 22], b[f + 23])
}

/// The recording is in the one encoding the local backend accepts:
/// integer PCM, mono, 16 bits per sample.
pub open spec fn wav_supported(b: Seq<u8>) -> bool {
    &&& fmt_tag(b, wav_fmt_off(b)) == 1
    &&& fmt_channels(b, wav_fmt_off(b)) == 1
    &&& fmt_bits(b, wav_fmt_off(b)) == 16
}

/// The body of the data chunk.
pub open spec fn wav_data_bytes(b: Seq<u8>) -> Seq<u8> {
    b.subrange(wav_data_off(b) + 8, wav_data_off(b) + 8 + chunk_body_size(b, wav_data_off(b)))
}

/// The byte string is an acceptable recording: RIFF/WAVE header, full format
/// chunk before the data chunk, integer mono 16-bit PCM, a positive rate,
/// and a whole number of samples.
pub open spec fn wav_ok(b: Seq<u8>) -> bool {
    &&& has_riff_header(b)
    &&& wav_chunks_ok(b)
    &&& wav_supported(b)
    &&& fmt_rate(b, wav_fmt_off(b)) > 0
    &&& chunk_body_size(b, wav_data_off(b)) % 2 == 0
}

/// The sample rate an acceptable recording declares.
pub open spec fn wav_rate(b: Seq<u8>) -> u32 {
    fmt_rate(b, wav_fmt_off(b))
}

/// The samples an acceptable recording holds, in order.
pub open spec fn wav_samples(b: Seq<u8>) -> Seq<i16> {
    samples_of(wav_data_bytes(b))
}

/// The reason a byte string is rejected: the first check that fails, in the
/// order the parser applies them.
pub open spec fn wav_error(b: Seq<u8>) -> FormatError {
    if !has_riff_header(b) {
        FormatError::NotAWav
    } else if !wav_chunks_ok(b) {
        FormatError::MissingChunk
    } else if !wav_supported(b) {
        FormatError::Unsupported
    } else if fmt_rate(b, wav_fmt_off(b)) == 0 {
        FormatError::ZeroSampleRate
    } else {
        FormatError::OddDataSize
    }
}

/// Read a little-endian 16-bit word at `i`.
fn read_le16(bytes: &Vec<u8>, i: usize) -> (r: u16)
    requires
        i + 2 <= bytes.len(),
    ensures
        r == le16(bytes@[i as int], bytes@[i + 1]),
{
    bytes[i] as u16 + 256 * (bytes[i + 1] as u16)
}

/// Read a little-endian 32-bit word at `i`.
fn read_le32(bytes: &Vec<u8>, i: usize) -> (r: u32)
    requires
        i + 4 <= bytes.len(),
    ensures
        r == le32(bytes@[i as int], bytes@[i + 1], bytes@[i + 2], bytes@[i + 3]),
{
    bytes[i] as u32 + 256 * (bytes[i + 1] as u32) + 65536 * (bytes[i + 2] as u32)
        + 16777216 * (bytes[i + 3] as u32)
}

/// Scan the chunk list from `start` for the chunk tagged by the four id
/// bytes, exactly as [`find_chunk`] describes.
fn find_chunk_from(bytes: &Vec<u8>, start: usize, i0: u8, i1: u8, i2: u8, i3: u8) -> (r: Option<
    usize,
>)
    ensures
        match r {
            Some(o) => {
                &&& find_chunk(bytes@, start as int, seq![i0, i1, i2, i3]) == Some(o as int)
                &&& o + 8 <= bytes.len()
                &&& o + 8 + chunk_body_size(bytes@, o as int) <= bytes.len()
            },
            None => find_chunk(bytes@, start as int, seq![i0, i1, i2, i3]) is None,
        },
{
    let ghost id: Seq<u8> = seq![i0, i1, i2, i3];
    let mut o = start;
    loop
        invariant
            id == seq![i0, i1, i2, i3],
            find_chunk(bytes@, start as int, id) == find_chunk(bytes@, o as int, id),
        decreases bytes.len() - o,
    {
        if bytes.len() < 8 || o > bytes.len() - 8 {
            return None;
        }
        let size = read_le32(bytes, o + 4) as usize;
        if size > bytes.len() - (o + 8) {
            return None;
        }
        if bytes[o] == i0 && bytes[o + 1] == i1 && bytes[o + 2] == i2 && bytes[o + 3] == i3 {
            proof {
                assert(bytes@.subrange(o as int, o as int + 4) =~= id);
            }
            return Some(o);
        }
        proof {
            assert(bytes@.subrange(o as int, o as int + 4) != id) by {
                if bytes@.subrange(o as int, o as int + 4) == id {
                    assert(bytes@[o as int] == id[0]);
                    assert(bytes@[o as int + 1] == id[1]);
                    assert(bytes@[o as int + 2] == id[2]);
                    assert(bytes@[o as int + 3] == id[3]);
                }
            }
        }
        o = o + 8 + size;
    }
}

/// Collect `len / 2` samples from the data-chunk body at `start`.
fn extract_samples(bytes: &Vec<u8>, start: usize, len: usize) -> (out: Vec<i16>)
    requires
        start + len <= bytes.len(),
        len % 2 == 0,
    ensures
        out@ == samples_of(bytes@.subrange(start as int, start as int + len as int)),
{
    let mut out: Vec<i16> = Vec::new();
    let n = len / 2;
    let mut i: usize = 0;
    while i < n
        invariant
            i <= n,
            n == len / 2,
            len % 2 == 0,
            start + len <= bytes.len(),
            out@.len() == i,
            forall|j: int|
                0 <= j < i ==> out@[j] == sample_le(
                    bytes@[start + 2 * j],
                    bytes@[start + 2 * j + 1],
                ),
        decreases n - i,
    {
        let lo = bytes[start + 2 * i];
        let hi = bytes[start + 2 * i + 1];
        let word: u16 = lo as u16 + 256 * (hi as u16);
        out.push(#[verifier::truncate] (word as i16));
        i = i + 1;
    }
    proof {
        assert(out@ =~= samples_of(bytes@.subrange(start as int, start as int + len as int)));
    }
    out
}

/// Parse a recording.
///
/// Accepts exactly the byte strings with a RIFF/WAVE header whose chunk list
/// holds a full format chunk before the data chunk, describing integer mono
/// 16-bit PCM at a positive rate, with a whole number of samples; the result
/// carries that rate and those samples, in order.  Everything else is
/// rejected with the reason.
pub fn parse_wav(bytes: &Vec<u8>) -> (r: Result<AudioBuffer, FormatError>)
    ensures
        match r {
            Ok(a) => {
                &&& wav_ok(bytes@)
                &&& a.sample_rate == wav_rate(bytes@)
                &&& a.samples@ == wav_samples(bytes@)
                &&& a.wf()
            },
            Err(e) => !wav_ok(bytes@) && e == wav_error(bytes@),
        },
{
    if bytes.len() < 12 {
        return Err(FormatError::NotAWav);
    }
    let header_ok = bytes[0] == 'R' as u8 && bytes[1] == 'I' as u8 && bytes[2] == 'F' as u8 && bytes[3] == 'F' as u8
        && bytes[8] == 'W' as u8 && bytes[9] == 'A' as u8 && bytes[10] == 'V' as u8 && bytes[11] == 'E' as u8;
    if !header_ok {
        proof {
            assert(!has_riff_header(bytes@)) by {
                if has_riff_header(bytes@) {
                    assert(bytes@[0] == 'R' as u8 && bytes@[1] == 'I' as u8 && bytes@[2] == 'F' as u8
                        && bytes@[3] == 'F' as u8) by {
                        assert(bytes@.subrange(0, 4)[0] == 'R' as u8);
                        assert(bytes@.subrange(0, 4)[1] == 'I' as u8);
                        assert(bytes@.subrange(0, 4)[2] == 'F' as u8);
                        assert(bytes@.subrange(0, 4)[3] == 'F' as u8);
                    }
                    assert(bytes@[8] == 'W' as u8 && bytes@[9] == 'A' as u8 && bytes@[10] == 'V' as u8
                        && bytes@[11] == 'E' as u8) by {
                        assert(bytes@.subrange(8, 12)[0] == 'W' as u8);
                        assert(bytes@.subrange(8, 12)[1] == 'A' as u8);
                        assert(bytes@.subrange(8, 12)[2] == 'V' as u8);
                        assert(bytes@.subrange(8, 12)[3] == 'E' as u8);
                    }
                }
            }
        }
        return Err(FormatError::NotAWav);
    }
    proof {
        assert(bytes@.subrange(0, 4) =~= seq!['R' as u8, 'I' as u8, 'F' as u8, 'F' as u8]);
        assert(bytes@.subrange(8, 12) =~= seq!['W' as u8, 'A' as u8, 'V' as u8, 'E' as u8]);
    }
    let fmt_off = match find_chunk_from(bytes, 12, 'f' as u8, 'm' as u8, 't' as u8, ' ' as u8) {
        Some(o) => o,
        None => {
            return Err(FormatError::MissingChunk);
        },
    };
    let data_off = match find_chunk_from(bytes, 12, 'd' as u8, 'a' as u8, 't' as u8, 'a' as u8) {
        Some(o) => o,
        None => {
            return Err(FormatError::MissingChunk);
        },
    };
    let fmt_size = read_le32(bytes, fmt_off + 4);
    if fmt_off >= data_off || fmt_size < 16 {
        return Err(FormatError::MissingChunk);
    }
    let tag = read_le16(bytes, fmt_off + 8);
    let channels = read_le16(bytes, fmt_off + 10);
    let bits = read_le16(bytes, fmt_off + 22);
    if !(tag == 1 && channels == 1 && bits == 16) {
        return Err(FormatError::Unsupported);
    }
    let rate = read_le32(bytes, fmt_off + 12);
    if rate == 0 {
        return Err(FormatError::ZeroSampleRate);
    }
    let data_size = read_le32(bytes, data_off + 4) as usize;
    if data_size % 2 != 0 {
        return Err(FormatError::OddDataSize);
    }
    let samples = extract_samples(bytes, data_off + 8, data_size);
    Ok(AudioBuffer { samples, sample_rate: rate })
}

} // verus!

