//! Sample-rate conversion bookkeeping.
//!
//! The windowed-sinc filter itself works on normalised floating-point frames
//! and runs outside this library; what is verified here is everything the
//! conversion decides and promises in whole numbers: the identity path when
//! the rates already match, the fixed-size chunking of the input with one
//! partial tail chunk, and the guarantee that the finished output's duration
//! stays within one chunk's time of the input's duration.
//!
//! The caller feeds the filter one planned input range at a time and reports
//! each chunk's output frame count back to the session.  A count that would
//! leave the session's latency envelope is refused (the caller surfaces that
//! as a conversion failure), so a completed session always satisfies the
//! duration law.

use vstd::prelude::*;

verus! {

/// The fixed target rate the local inference engine expects, in Hz.
pub const WHISPER_SAMPLE_RATE: u32 = 16000;

/// Input frames handed to the filter per full chunk.
pub const RESAMPLE_CHUNK_SIZE: usize = 1024;

/// Why a conversion cannot be set up.
#[derive(Clone, Copy, PartialEq, Eq, Structural, Debug)]
pub enum ResampleError {
    /// A zero rate: the conversion ratio is undefined.
    InvalidRatio,
}

/// The running counts stay within one chunk's latency of the exact ratio:
/// `|produced / to - consumed / from| <= RESAMPLE_CHUNK_SIZE / from` seconds,
/// written here multiplied through by `from * to`.
pub open spec fn within_latency(produced: int, consumed: int, from: int, to: int) -> bool {
    &&& produced * from <= consumed * to + RESAMPLE_CHUNK_SIZE as int * to
    &&& consumed * to <= produced * from + RESAMPLE_CHUNK_SIZE as int * to
}

/// One conversion in progress: how much of the input the filter has eaten
/// and how many frames it has emitted.
pub struct ResampleSession {
    pub from: u32,
    pub to: u32,
    pub total_in: usize,
    pub consumed: usize,
    pub produced: usize,
}

impl ResampleSession {
    /// Distinct positive rates, consumption within the input, and the
    /// emitted frame count inside the latency envelope.
    pub open spec fn wf(self) -> bool {
        &&& self.from > 0
        &&& self.to > 0
        &&& self.from != self.to
        &&& self.consumed <= self.total_in
        &&& within_latency(
            self.produced as int,
            self.consumed as int,
            self.from as int,
            self.to as int,
        )
    }

    /// Length of the next input chunk: a full chunk while one remains, then
    /// whatever is left as the partial tail.
    pub open spec fn next_chunk_len(self) -> int {
        if self.total_in - self.consumed >= RESAMPLE_CHUNK_SIZE {
            RESAMPLE_CHUNK_SIZE as int
        } else {
            self.total_in - self.consumed
        }
    }

    /// The input range the filter should be fed next, or nothing when the
    /// whole input has been consumed.
    pub fn next_input(&self) -> (r: Option<(usize, usize)>)
        requires
            self.wf(),
        ensures
            match r {
                Some(range) => {
                    &&& range.0 == self.consumed
                    &&& range.1 - range.0 == self.next_chunk_len()
                    &&& range.0 < range.1 <= self.total_in
                },
                None => self.consumed == self.total_in,
            },
    {
        if self.consumed == self.total_in {
            None
        } else if self.total_in - self.consumed >= RESAMPLE_CHUNK_SIZE {
            Some((self.consumed, self.consumed + RESAMPLE_CHUNK_SIZE))
        } else {
            Some((self.consumed, self.total_in))
        }
    }

    /// Record that the filter consumed the next planned chunk (`in_len`
    /// frames) and emitted `out_len` frames.  The new totals must stay
    /// inside the latency envelope; a filter output that would not is a
    /// processing failure and must not be recorded.
    pub fn record_output(&mut self, in_len: usize, out_len: usize)
        requires
            old(self).wf(),
            in_len == old(self).next_chunk_len(),
            in_len > 0,
            old(self).produced + out_len <= usize::MAX,
            within_latency(
                old(self).produced + out_len,
                old(self).consumed + in_len,
                old(self).from as int,
                old(self).to as int,
            ),
        ensures
            final(self).wf(),
            final(self).from == old(self).from,
            final(self).to == old(self).to,
            final(self).total_in == old(self).total_in,
            final(self).consumed == old(self).consumed + in_len,
            final(self).produced == old(self).produced + out_len,
    {
        self.consumed = self.consumed + in_len;
        self.produced = self.produced + out_len;
    }

    /// The whole input has been consumed.
    pub fn finished(&self) -> (r: bool)
        ensures
            r == (self.consumed == self.total_in),
    {
        self.consumed == self.total_in
    }
}

/// What starting a conversion yields.
pub enum ResampleOutcome {
    /// The rates already match: the input comes back unchanged, sample for
    /// sample, and no filter ever touches it.
    Unchanged(Vec<i16>),
    /// The rates differ: the input comes back untouched together with the
    /// session that will chunk it through the filter.
    Convert(Vec<i16>, ResampleSession),
}

/// Begin converting `input` from rate `from` to rate `to`.
///
/// With equal (positive) rates this is the identity: the very same samples
/// come back and no conversion happens.  With distinct positive rates a
/// fresh session is set up over the full input.  A zero rate is rejected.
pub fn start_resample(input: Vec<i16>, from: u32, to: u32) -> (r: Result<
    ResampleOutcome,
    ResampleError,
>)
    ensures
        match r {
            Ok(ResampleOutcome::Unchanged(out)) => {
                &&& from == to
                &&& from > 0
                &&& out@ == input@
            },
            Ok(ResampleOutcome::Convert(out, s)) => {
                &&& from != to
                &&& from > 0
                &&& to > 0
                &&& out@ == input@
                &&& s.wf()
                &&& s.from == from
                &&& s.to == to
                &&& s.total_in == input@.len()
                &&& s.consumed == 0
                &&& s.produced == 0
            },
            Err(e) => {
                &&& e == ResampleError::InvalidRatio
                &&& (from == 0 || to == 0)
            },
        },
{
    if from == 0 || to == 0 {
        return Err(ResampleError::InvalidRatio);
    }
    if from == to {
        return Ok(ResampleOutcome::Unchanged(input));
    }
    let total_in = input.len();
    Ok(ResampleOutcome::Convert(input, ResampleSession { from, to, total_in, consumed: 0, produced: 0 }))
}

/// Duration approximation law: once a conversion has consumed its whole
/// input, the output duration `produced / to` differs from the input
/// duration `total_in / from` by at most one chunk's time,
/// `RESAMPLE_CHUNK_SIZE / from` seconds.  Both inequalities are stated
/// multiplied through by `from * to`.
pub proof fn lemma_duration_within_one_chunk(s: ResampleSession)
    requires
        s.wf(),
        s.consumed == s.total_in,
    ensures
        s.produced as int * s.from as int <= s.total_in as int * s.to as int
            + RESAMPLE_CHUNK_SIZE as int * s.to as int,
        s.total_in as int * s.to as int <= s.produced as int * s.from as int
            + RESAMPLE_CHUNK_SIZE as int * s.to as int,
{
}

} // verus!
