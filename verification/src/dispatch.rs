//! The dispatcher's decision: given the backend snapshotted when processing
//! began and the finished recording, exactly what the background worker has
//! to run.
//!
//! The remote backend takes the raw self-describing container, never
//! pre-resampled; the local backend takes the decoded samples, converted
//! first only when their rate differs from the engine's.

use vstd::prelude::*;
use crate::audio::{wav_error, wav_ok, wav_rate, wav_samples};
use crate::config::TranscriptionService;
use crate::local_stt::{prepare_local_audio, LocalPrepError, PreparedAudio};
use crate::resample::WHISPER_SAMPLE_RATE;

verus! {

/// The one backend call a processing episode runs.
pub enum DispatchPlan {
    /// Send these raw container bytes to the remote endpoint.
    Remote(Vec<u8>),
    /// Run local inference straight over these samples.
    LocalReady(Vec<i16>),
    /// Convert these samples from the given source rate, then run local
    /// inference.
    LocalResample(Vec<i16>, u32),
}

/// Decide the backend call for a finished recording.
///
/// The backend choice is the one captured at dispatch time and nothing else
/// is consulted.  Remote always gets the container untouched; local gets
/// the container's samples, flagged for conversion exactly when their
/// tagged rate is not the engine's, and is refused on an unparseable or
/// empty recording.
pub fn plan_transcription(backend: TranscriptionService, wav_data: Vec<u8>) -> (r: Result<
    DispatchPlan,
    LocalPrepError,
>)
    ensures
        match r {
            Ok(DispatchPlan::Remote(bytes)) => {
                &&& backend == TranscriptionService::Groq
                &&& bytes@ == wav_data@
            },
            Ok(DispatchPlan::LocalReady(s)) => {
                &&& backend == TranscriptionService::Local
                &&& wav_ok(wav_data@)
                &&& wav_samples(wav_data@).len() > 0
                &&& wav_rate(wav_data@) == WHISPER_SAMPLE_RATE
                &&& s@ == wav_samples(wav_data@)
            },
            Ok(DispatchPlan::LocalResample(s, from)) => {
                &&& backend == TranscriptionService::Local
                &&& wav_ok(wav_data@)
                &&& wav_samples(wav_data@).len() > 0
                &&& wav_rate(wav_data@) != WHISPER_SAMPLE_RATE
                &&& from == wav_rate(wav_data@)
                &&& from > 0
                &&& s@ == wav_samples(wav_data@)
            },
            Err(LocalPrepError::EmptyAudio) => {
                &&& backend == TranscriptionService::Local
                &&& wav_ok(wav_data@)
                &&& wav_samples(wav_data@).len() == 0
            },
            Err(LocalPrepError::Format(e)) => {
                &&& backend == TranscriptionService::Local
                &&& !wav_ok(wav_data@)
                &&& e == wav_error(wav_data@)
            },
        },
{
    match backend {
        TranscriptionService::Groq => Ok(DispatchPlan::Remote(wav_data)),
        TranscriptionService::Local => {
            match prepare_local_audio(&wav_data)? {
                PreparedAudio::Ready(s) => Ok(DispatchPlan::LocalReady(s)),
                PreparedAudio::NeedsResample(s, from) => Ok(
                    DispatchPlan::LocalResample(s, from),
                ),
            }
        },
    }
}

} // verus!
