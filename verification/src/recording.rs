//! The recording state machine: the authoritative idle / recording /
//! processing state, driven only by the user's toggle action and by
//! completion signals from background work.
//!
//! It gates everything else: no recording starts while the model is
//! downloading, while the local backend has no loaded model, or while the
//! remote backend has no credential; no second processing episode can begin
//! while one is in flight; and every background outcome — success, failure,
//! or a closed channel — returns the machine to idle.

use vstd::prelude::*;
use crate::config::TranscriptionService;
use crate::errors::TranscriptionResult;
use crate::lifecycle::ModelManager;

verus! {

/// The three states the user-facing toggle cycles through.
#[derive(Clone, Copy, PartialEq, Eq, Structural, Debug)]
pub enum RecordingState {
    Idle,
    Recording,
    Processing,
}

/// Why a toggle in the idle state starts no recording.
#[derive(Clone, Copy, PartialEq, Eq, Structural, Debug)]
pub enum RefuseReason {
    /// The model is downloading.
    ModelDownloading,
    /// The local backend is active but no model is loaded.
    NoLocalModel,
    /// The remote backend is active but no credential is configured.
    NoCredential,
}

/// What a toggle asks the caller to do.
pub enum ToggleOutcome {
    /// Stayed idle; report the transient reason.
    Refused(RefuseReason),
    /// Now recording: acquire the device and start buffering.
    StartCapture,
    /// Now processing: stop the capturer and dispatch the finished buffer
    /// to the backend snapshotted here.
    StopAndDispatch(TranscriptionService),
    /// Toggled while processing: nothing changes.
    Ignored,
}

/// What one non-blocking look at the result channel found.
pub enum PollMsg {
    /// Nothing pending yet.
    Pending,
    /// The transcription's single result arrived.
    Received(TranscriptionResult),
    /// The channel closed without a result: the background worker died.
    Closed,
}

/// What one poll of the result channel asks the caller to do.
pub enum PollStep {
    /// Nothing pending yet: poll again after the interval.
    KeepWaiting,
    /// The result arrived; deliver it to the collaborators.
    Deliver(TranscriptionResult),
    /// The channel closed without a result: the background worker died.
    ChannelFailed,
}

/// Owner of the recording state.
pub struct RecordingStateMachine {
    pub state: RecordingState,
}

impl RecordingStateMachine {
    /// Start idle.
    pub fn new() -> (m: RecordingStateMachine)
        ensures
            m.state == RecordingState::Idle,
    {
        RecordingStateMachine { state: RecordingState::Idle }
    }

    /// The user's toggle action.
    ///
    /// Idle: refused — leaving the state untouched — while the model is
    /// downloading, the active local backend has no loaded model, or the
    /// active remote backend has no credential; otherwise recording starts.
    /// Recording: processing begins and the capture is dispatched to the
    /// backend active at this instant (a later switch cannot affect it).
    /// Processing: ignored, nothing changes.
    pub fn toggle(&mut self, manager: &ModelManager, credential_present: bool) -> (r:
        ToggleOutcome)
        ensures
            old(self).state == RecordingState::Processing ==> *final(self) == *old(self)
                && r == ToggleOutcome::Ignored,
            old(self).state == RecordingState::Idle && manager.lifecycle is Downloading
                ==> *final(self) == *old(self)
                && r == ToggleOutcome::Refused(RefuseReason::ModelDownloading),
            old(self).state == RecordingState::Idle && !(manager.lifecycle is Downloading)
                && manager.active == TranscriptionService::Local
                && !(manager.lifecycle is Loaded)
                ==> *final(self) == *old(self)
                && r == ToggleOutcome::Refused(RefuseReason::NoLocalModel),
            old(self).state == RecordingState::Idle && !(manager.lifecycle is Downloading)
                && manager.active == TranscriptionService::Groq && !credential_present
                ==> *final(self) == *old(self)
                && r == ToggleOutcome::Refused(RefuseReason::NoCredential),
            old(self).state == RecordingState::Idle && !(manager.lifecycle is Downloading)
                && (manager.active == TranscriptionService::Local ==> manager.lifecycle is Loaded)
                && (manager.active == TranscriptionService::Groq ==> credential_present)
                ==> final(self).state == RecordingState::Recording
                && r == ToggleOutcome::StartCapture,
            old(self).state == RecordingState::Recording
                ==> final(self).state == RecordingState::Processing
                && r == ToggleOutcome::StopAndDispatch(manager.active),
    {
        match self.state {
            RecordingState::Processing => ToggleOutcome::Ignored,
            RecordingState::Idle => {
                if manager.is_downloading() {
                    return ToggleOutcome::Refused(RefuseReason::ModelDownloading);
                }
                if manager.active == TranscriptionService::Local && !manager.is_loaded() {
                    return ToggleOutcome::Refused(RefuseReason::NoLocalModel);
                }
                if manager.active == TranscriptionService::Groq && !credential_present {
                    return ToggleOutcome::Refused(RefuseReason::NoCredential);
                }
                self.state = RecordingState::Recording;
                ToggleOutcome::StartCapture
            },
            RecordingState::Recording => {
                self.state = RecordingState::Processing;
                ToggleOutcome::StopAndDispatch(manager.active)
            },
        }
    }

    /// The device could not be acquired after all: back to idle, the error
    /// reported as a transient message.
    pub fn on_capture_start_failed(&mut self)
        requires
            old(self).state == RecordingState::Recording,
        ensures
            final(self).state == RecordingState::Idle,
    {
        self.state = RecordingState::Idle;
    }

    /// Stopping the capturer failed: straight back to idle, bypassing any
    /// dispatch.
    pub fn on_capture_stop_failed(&mut self)
        requires
            old(self).state == RecordingState::Processing,
        ensures
            final(self).state == RecordingState::Idle,
    {
        self.state = RecordingState::Idle;
    }

    /// One non-blocking poll of the in-flight transcription's channel.
    ///
    /// Nothing pending keeps the machine processing; a result — success or
    /// failure — or a closed channel ends the episode and returns to idle.
    pub fn on_poll(&mut self, msg: PollMsg) -> (r: PollStep)
        requires
            old(self).state == RecordingState::Processing,
        ensures
            msg is Pending ==> *final(self) == *old(self) && r is KeepWaiting,
            msg matches PollMsg::Received(res) ==> final(self).state == RecordingState::Idle && r
                == PollStep::Deliver(res),
            msg is Closed ==> final(self).state == RecordingState::Idle && r is ChannelFailed,
    {
        match msg {
            PollMsg::Pending => PollStep::KeepWaiting,
            PollMsg::Received(res) => {
                self.state = RecordingState::Idle;
                PollStep::Deliver(res)
            },
            PollMsg::Closed => {
                self.state = RecordingState::Idle;
                PollStep::ChannelFailed
            },
        }
    }
}

} // verus!
