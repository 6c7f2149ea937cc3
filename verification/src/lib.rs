//! Core of a voice-transcription tool: audio container parsing, sample-rate
//! conversion bookkeeping, dual-backend dispatch, model lifecycle management,
//! and the recording state machine that coordinates them.
//!
//! Everything here is pure logic over plain values; device capture, network
//! transfer, floating-point filtering and model inference are performed by the
//! surrounding application, which drives these state machines and carries out
//! the actions they return.

pub mod audio;
pub mod config;
pub mod dispatch;
pub mod download;
pub mod errors;
pub mod lifecycle;
pub mod local_stt;
pub mod recording;
pub mod resample;

pub use audio::{AudioBuffer, FormatError};
pub use config::{Config, TranscriptionService};
pub use dispatch::DispatchPlan;
pub use download::{DownloadMsg, DownloadProgress};
pub use errors::{ErrorKind, TranscriptionResult};
pub use lifecycle::{ModelLifecycleState, ModelManager, SwitchOutcome};
pub use local_stt::{LocalPrepError, PreparedAudio};
pub use recording::{PollMsg, PollStep, RecordingState, RecordingStateMachine, RefuseReason, ToggleOutcome};
pub use resample::{ResampleError, ResampleOutcome, ResampleSession};
