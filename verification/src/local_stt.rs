//! The local backend's half of a transcription that runs in plain values:
//! decoding the recorded container, rejecting an empty recording before any
//! inference, deciding whether sample-rate conversion is needed, and
//! assembling the engine's emitted text segments into the final transcript.
//!
//! Loading the model and running inference happen outside; the samples this
//! module hands over are exactly what the container holds, so a recording
//! already at the engine's rate reaches inference untouched.

use vstd::prelude::*;
use vstd::seq_lib::lemma_seq_skip_of_skip;
use crate::audio::{parse_wav, wav_error, wav_ok, wav_rate, wav_samples, FormatError};
use crate::resample::WHISPER_SAMPLE_RATE;

verus! {

/// Why a recording never reaches inference.
#[derive(Clone, Copy, PartialEq, Eq, Structural, Debug)]
pub enum LocalPrepError {
    /// The container could not be parsed or is not mono 16-bit PCM.
    Format(FormatError),
    /// The container parsed but holds no samples at all.
    EmptyAudio,
}

/// A recording accepted for local inference.
pub enum PreparedAudio {
    /// Already at the engine's rate: these samples go straight to inference.
    Ready(Vec<i16>),
    /// Tagged with a different rate: the samples and that source rate, to be
    /// run through the resampler first.
    NeedsResample(Vec<i16>, u32),
}

/// Decode a recorded container and decide the local inference path.
///
/// Accepts exactly the parseable, non-empty recordings.  The samples handed
/// on are the container's samples, unchanged and in order; a recording
/// already tagged with the engine's rate skips conversion entirely.
pub fn prepare_local_audio(wav_data: &Vec<u8>) -> (r: Result<PreparedAudio, LocalPrepError>)
    ensures
        match r {
            Ok(PreparedAudio::Ready(s)) => {
                &&& wav_ok(wav_data@)
                &&& wav_samples(wav_data@).len() > 0
                &&& wav_rate(wav_data@) == WHISPER_SAMPLE_RATE
                &&& s@ == wav_samples(wav_data@)
            },
            Ok(PreparedAudio::NeedsResample(s, from)) => {
                &&& wav_ok(wav_data@)
                &&& wav_samples(wav_data@).len() > 0
                &&& wav_rate(wav_data@) != WHISPER_SAMPLE_RATE
                &&& from == wav_rate(wav_data@)
                &&& from > 0
                &&& s@ == wav_samples(wav_data@)
            },
            Err(LocalPrepError::EmptyAudio) => {
                &&& wav_ok(wav_data@)
                &&& wav_samples(wav_data@).len() == 0
            },
            Err(LocalPrepError::Format(e)) => {
                &&& !wav_ok(wav_data@)
                &&& e == wav_error(wav_data@)
            },
        },
{
    let buffer = match parse_wav(wav_data) {
        Ok(a) => a,
        Err(e) => {
            return Err(LocalPrepError::Format(e));
        },
    };
    if buffer.samples.len() == 0 {
        return Err(LocalPrepError::EmptyAudio);
    }
    if buffer.sample_rate == WHISPER_SAMPLE_RATE {
        Ok(PreparedAudio::Ready(buffer.samples))
    } else {
        Ok(PreparedAudio::NeedsResample(buffer.samples, buffer.sample_rate))
    }
}

/// A byte the transcript trimming strips: ASCII space, tab, or line break.
pub open spec fn is_ascii_space(b: u8) -> bool {
    b == 32 || b == 9 || b == 10 || b == 13
}

/// The sequence without its leading stripped bytes.
pub open spec fn trim_front(s: Seq<u8>) -> Seq<u8>
    decreases s.len(),
{
    if s.len() == 0 {
        s
    } else if is_ascii_space(s[0]) {
        trim_front(s.drop_first())
    } else {
        s
    }
}

/// The sequence without its trailing stripped bytes.
pub open spec fn trim_back(s: Seq<u8>) -> Seq<u8>
    decreases s.len(),
{
    if s.len() == 0 {
        s
    } else if is_ascii_space(s.last()) {
        trim_back(s.drop_last())
    } else {
        s
    }
}

/// The sequence with stripped bytes removed from both ends.
pub open spec fn trimmed(s: Seq<u8>) -> Seq<u8> {
    trim_back(trim_front(s))
}

/// Exec counterpart of [`is_ascii_space`].
fn is_space(b: u8) -> (r: bool)
    ensures
        r == is_ascii_space(b),
{
    b == 32 || b == 9 || b == 10 || b == 13
}

/// Join the text segments the inference engine emitted, in order, and strip
/// leading and trailing whitespace: the finished transcript.
pub fn assemble_transcript(segments: &Vec<Vec<u8>>) -> (out: Vec<u8>)
    ensures
        out@ == trimmed(segments.deep_view().flatten()),
{
    let ghost dv: Seq<Seq<u8>> = segments.deep_view();
    let mut buf: Vec<u8> = Vec::new();
    let mut i: usize = 0;
    while i < segments.len()
        invariant
            i <= segments.len(),
            dv == segments.deep_view(),
            dv.len() == segments.len(),
            buf@ == dv.take(i as int).flatten(),
        decreases segments.len() - i,
    {
        let segment = &segments[i];
        let mut j: usize = 0;
        while j < segment.len()
            invariant
                i < segments.len(),
                j <= segment.len(),
                dv == segments.deep_view(),
                dv.len() == segments.len(),
                segment == &segments[i as int],
                segment@ == dv[i as int],
                buf@ == dv.take(i as int).flatten() + dv[i as int].take(j as int),
            decreases segment.len() - j,
        {
            buf.push(segment[j]);
            proof {
                assert(dv[i as int].take(j + 1) =~= dv[i as int].take(j as int).push(
                    segment@[j as int],
                ));
                assert(buf@ == dv.take(i as int).flatten() + dv[i as int].take(j + 1));
            }
            j = j + 1;
        }
        proof {
            assert(dv[i as int].take(segment@.len() as int) =~= dv[i as int]);
            assert(dv.take(i + 1) =~= dv.take(i as int).push(dv[i as int]));
            Seq::lemma_flatten_push(dv.take(i as int), dv[i as int]);
            assert(buf@ == dv.take(i + 1).flatten());
        }
        i = i + 1;
    }
    proof {
        assert(dv.take(dv.len() as int) =~= dv);
        assert(buf@ == dv.flatten());
    }
    let mut start: usize = 0;
    proof {
        assert(buf@.skip(0) =~= buf@);
    }
    while start < buf.len() && is_space(buf[start])
        invariant
            start <= buf.len(),
            trim_front(buf@) == trim_front(buf@.skip(start as int)),
        decreases buf.len() - start,
    {
        proof {
            assert(buf@.skip(start as int)[0] == buf@[start as int]);
            assert(buf@.skip(start as int).drop_first() =~= buf@.skip(start + 1)) by {
                lemma_seq_skip_of_skip(buf@, start as int, 1);
            }
        }
        start = start + 1;
    }
    proof {
        if start < buf@.len() {
            assert(trim_front(buf@.skip(start as int)) == buf@.skip(start as int));
        } else {
            assert(buf@.skip(start as int) =~= Seq::<u8>::empty());
        }
        assert(trim_front(buf@) == buf@.skip(start as int));
    }
    let ghost t: Seq<u8> = buf@.skip(start as int);
    let mut end: usize = buf.len();
    proof {
        assert(t.take(buf@.len() - start as int) =~= t);
    }
    while end > start && is_space(buf[end - 1])
        invariant
            start <= end <= buf.len(),
            t == buf@.skip(start as int),
            trim_back(t) == trim_back(t.take(end - start as int)),
        decreases end,
    {
        proof {
            let u = t.take(end - start as int);
            assert(u.last() == buf@[end - 1]);
            assert(u.drop_last() =~= t.take(end - 1 - start as int));
        }
        end = end - 1;
    }
    proof {
        if end > start {
            let u = t.take(end - start as int);
            assert(u.last() == buf@[end - 1]);
            assert(trim_back(u) == u);
        } else {
            assert(t.take(0) =~= Seq::<u8>::empty());
        }
        assert(trim_back(t) == t.take(end - start as int));
    }
    let mut out: Vec<u8> = Vec::new();
    let mut k: usize = start;
    while k < end
        invariant
            start <= k <= end <= buf.len(),
            t == buf@.skip(start as int),
            out@ == t.take(k - start as int),
        decreases end - k,
    {
        out.push(buf[k]);
        proof {
            assert(t.take(k + 1 - start as int) =~= t.take(k - start as int).push(
                buf@[k as int],
            ));
        }
        k = k + 1;
    }
    proof {
        assert(out@ == trimmed(buf@));
    }
    out
}

} // verus!
