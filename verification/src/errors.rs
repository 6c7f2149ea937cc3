//! Error taxonomy of the transcription core and the result type a finished
//! transcription delivers.

use vstd::prelude::*;

verus! {

/// The kinds of failure a transcription cycle or a collaborator call can
/// report.  Every one of them is terminal for the current operation only:
/// the state machine always returns to idle.
#[derive(Clone, Copy, PartialEq, Eq, Structural, Debug)]
pub enum ErrorKind {
    /// Microphone unavailable, already held, or disconnected mid-session.
    Device,
    /// The audio container could not be parsed.
    Format,
    /// Sample-rate conversion could not be initialised or failed mid-stream.
    Resample,
    /// The on-device model file could not be read or is not a valid model.
    ModelLoad,
    /// The inference engine reported failure.
    Inference,
    /// A recording with no samples was handed to the local backend.
    EmptyAudio,
    /// Network, I/O or rename failure while acquiring the model.
    Download,
    /// Transport failure or non-success HTTP status from the remote backend.
    RemoteTranscription,
    /// The clipboard collaborator refused the text.
    Clipboard,
    /// The settings or history collaborator failed.
    Storage,
}

/// Outcome of one transcription: produced once per processing cycle,
/// consumed once.
#[derive(Debug)]
pub enum TranscriptionResult {
    Success(String),
    Failure(ErrorKind, String),
}

} // verus!
