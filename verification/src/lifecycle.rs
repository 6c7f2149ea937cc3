//! The on-device model's lifecycle and the backend switch that drives it:
//! absent, downloading into a staging file, installed on disk, loading off
//! the interactive thread, loaded and ready, or failed to load.
//!
//! The manager decides every transition and tells the caller which outside
//! action to perform (start a download, start a load, delete a file); the
//! caller reports each action's outcome back as an event.  The flags mirror
//! what is on disk: after every transition the disk holds either no file,
//! the staging file alone, or one complete model file — never a dangling
//! partial file under the final name.

use vstd::prelude::*;
use crate::config::TranscriptionService;
use crate::recording::RecordingState;

verus! {

/// Where the on-device model stands.
pub enum ModelLifecycleState {
    /// No model file on disk.
    NotInstalled,
    /// Bytes are streaming into the staging file; progress so far, and the
    /// total if the server announced one.
    Downloading { bytes_done: u64, bytes_total: Option<u64> },
    /// The complete file sits at its final path, not loaded into memory.
    Installed,
    /// A background load of the installed file is in flight.
    Loading,
    /// The model is resident and ready for inference.
    Loaded,
    /// The last load failed; the file stays on disk for a manual retry.
    LoadFailed { reason: String },
}

/// What a backend switch asks the caller to do.
#[derive(Clone, Copy, PartialEq, Eq, Structural, Debug)]
pub enum SwitchOutcome {
    /// The recording state machine is not idle: nothing changed.
    RejectedBusy,
    /// A download is in progress: nothing changed.
    RejectedDownloading,
    /// The target is already the active backend: nothing changed and no
    /// download, load, or deletion is to be performed.
    NoChange,
    /// Now remote: drop the loaded handle, and delete the model file from
    /// disk when the flag is set (it records whether one was present).
    SwitchedToRemote(bool),
    /// Now local with the model file installed: start the background load.
    StartLoad,
    /// Now local with no model file: start the download into the staging
    /// file.
    StartDownload,
}

/// Owner of the model lifecycle, the active backend choice, and the model
/// of what is on disk.
pub struct ModelManager {
    pub lifecycle: ModelLifecycleState,
    pub active: TranscriptionService,
    /// A complete model file sits at its final path.
    pub model_file_present: bool,
    /// The staging (partial download) file exists.
    pub part_file_present: bool,
}

impl ModelManager {
    /// The lifecycle state, the active backend and the disk flags agree.
    pub open spec fn wf(self) -> bool {
        &&& (self.lifecycle is NotInstalled ==> !self.model_file_present
            && !self.part_file_present)
        &&& (self.lifecycle is Downloading ==> !self.model_file_present
            && self.part_file_present && self.active == TranscriptionService::Local)
        &&& ((self.lifecycle is Installed || self.lifecycle is Loading || self.lifecycle is Loaded
            || self.lifecycle is LoadFailed) ==> self.model_file_present
            && !self.part_file_present)
        &&& ((self.lifecycle is Loading || self.lifecycle is Loaded) ==> self.active
            == TranscriptionService::Local)
    }

    /// Set up the manager at startup: the model counts as installed exactly
    /// when its file is already on disk; nothing is downloading or loaded.
    pub fn new(initial_service: TranscriptionService, model_file_present: bool) -> (m:
        ModelManager)
        ensures
            m.wf(),
            m.active == initial_service,
            m.model_file_present == model_file_present,
            !m.part_file_present,
            model_file_present ==> m.lifecycle is Installed,
            !model_file_present ==> m.lifecycle is NotInstalled,
    {
        ModelManager {
            lifecycle: if model_file_present {
                ModelLifecycleState::Installed
            } else {
                ModelLifecycleState::NotInstalled
            },
            active: initial_service,
            model_file_present,
            part_file_present: false,
        }
    }

    /// A download is in progress.
    pub fn is_downloading(&self) -> (r: bool)
        ensures
            r == (self.lifecycle is Downloading),
    {
        match self.lifecycle {
            ModelLifecycleState::Downloading { .. } => true,
            _ => false,
        }
    }

    /// The model is resident and ready for inference.
    pub fn is_loaded(&self) -> (r: bool)
        ensures
            r == (self.lifecycle is Loaded),
    {
        match self.lifecycle {
            ModelLifecycleState::Loaded => true,
            _ => false,
        }
    }

    /// Switch the active backend to `target`.
    ///
    /// Rejected as a no-op while the recording state machine is not idle or
    /// while a download is in progress, and a switch to the already-active
    /// backend changes nothing and performs nothing.  A real switch to
    /// remote leaves no model file on disk and the lifecycle not-installed;
    /// a real switch to local starts a load when the file is installed and
    /// a download when it is not.
    pub fn switch_backend(&mut self, target: TranscriptionService, recording: RecordingState) -> (r:
        SwitchOutcome)
        requires
            old(self).wf(),
        ensures
            final(self).wf(),
            recording != RecordingState::Idle ==> *final(self) == *old(self) && r
                == SwitchOutcome::RejectedBusy,
            recording == RecordingState::Idle && old(self).lifecycle is Downloading
                ==> *final(self) == *old(self) && r == SwitchOutcome::RejectedDownloading,
            recording == RecordingState::Idle && !(old(self).lifecycle is Downloading) && target
                == old(self).active ==> *final(self) == *old(self) && r == SwitchOutcome::NoChange,
            recording == RecordingState::Idle && !(old(self).lifecycle is Downloading) && target
                != old(self).active && target == TranscriptionService::Groq ==> {
                &&& final(self).active == TranscriptionService::Groq
                &&& final(self).lifecycle is NotInstalled
                &&& !final(self).model_file_present
                &&& !final(self).part_file_present
                &&& r == SwitchOutcome::SwitchedToRemote(old(self).model_file_present)
            },
            recording == RecordingState::Idle && !(old(self).lifecycle is Downloading) && target
                != old(self).active && target == TranscriptionService::Local && old(
                self,
            ).model_file_present ==> {
                &&& final(self).active == TranscriptionService::Local
                &&& final(self).lifecycle is Loading
                &&& final(self).model_file_present
                &&& !final(self).part_file_present
                &&& r == SwitchOutcome::StartLoad
            },
            recording == RecordingState::Idle && !(old(self).lifecycle is Downloading) && target
                != old(self).active && target == TranscriptionService::Local && !old(
                self,
            ).model_file_present ==> {
                &&& final(self).active == TranscriptionService::Local
                &&& final(self).lifecycle == (ModelLifecycleState::Downloading {
                    bytes_done: 0,
                    bytes_total: None,
                })
                &&& !final(self).model_file_present
                &&& final(self).part_file_present
                &&& r == SwitchOutcome::StartDownload
            },
    {
        if recording != RecordingState::Idle {
            return SwitchOutcome::RejectedBusy;
        }
        if self.is_downloading() {
            return SwitchOutcome::RejectedDownloading;
        }
        if target == self.active {
            return SwitchOutcome::NoChange;
        }
        if target == TranscriptionService::Groq {
            let had_file = self.model_file_present;
            self.active = TranscriptionService::Groq;
            self.lifecycle = ModelLifecycleState::NotInstalled;
            self.model_file_present = false;
            self.part_file_present = false;
            SwitchOutcome::SwitchedToRemote(had_file)
        } else if self.model_file_present {
            self.active = TranscriptionService::Local;
            self.lifecycle = ModelLifecycleState::Loading;
            SwitchOutcome::StartLoad
        } else {
            self.active = TranscriptionService::Local;
            self.lifecycle = ModelLifecycleState::Downloading { bytes_done: 0, bytes_total: None };
            self.part_file_present = true;
            SwitchOutcome::StartDownload
        }
    }

    /// Record the latest download progress report.
    pub fn on_download_progress(&mut self, bytes_done: u64, bytes_total: Option<u64>)
        requires
            old(self).wf(),
            old(self).lifecycle is Downloading,
        ensures
            final(self).wf(),
            final(self).lifecycle == (ModelLifecycleState::Downloading { bytes_done, bytes_total }),
            final(self).active == old(self).active,
            final(self).model_file_present == old(self).model_file_present,
            final(self).part_file_present == old(self).part_file_present,
    {
        self.lifecycle = ModelLifecycleState::Downloading { bytes_done, bytes_total };
    }

    /// The stream finished and the staging file was renamed into place: the
    /// model is installed.
    pub fn on_download_complete(&mut self)
        requires
            old(self).wf(),
            old(self).lifecycle is Downloading,
        ensures
            final(self).wf(),
            final(self).lifecycle is Installed,
            final(self).active == old(self).active,
            final(self).model_file_present,
            !final(self).part_file_present,
    {
        self.lifecycle = ModelLifecycleState::Installed;
        self.model_file_present = true;
        self.part_file_present = false;
    }

    /// The download failed (transport, I/O, or the rename): the staging
    /// file is removed, nothing is installed, and the active backend
    /// reverts to remote.
    pub fn on_download_failed(&mut self)
        requires
            old(self).wf(),
            old(self).lifecycle is Downloading,
        ensures
            final(self).wf(),
            final(self).lifecycle is NotInstalled,
            final(self).active == TranscriptionService::Groq,
            !final(self).model_file_present,
            !final(self).part_file_present,
    {
        self.lifecycle = ModelLifecycleState::NotInstalled;
        self.active = TranscriptionService::Groq;
        self.model_file_present = false;
        self.part_file_present = false;
    }

    /// Start loading the installed file off the interactive thread.
    pub fn begin_load(&mut self)
        requires
            old(self).wf(),
            old(self).lifecycle is Installed,
            old(self).active == TranscriptionService::Local,
        ensures
            final(self).wf(),
            final(self).lifecycle is Loading,
            final(self).active == old(self).active,
            final(self).model_file_present == old(self).model_file_present,
            final(self).part_file_present == old(self).part_file_present,
    {
        self.lifecycle = ModelLifecycleState::Loading;
    }

    /// The background load succeeded: the handle is resident.
    pub fn on_load_complete(&mut self)
        requires
            old(self).wf(),
            old(self).lifecycle is Loading,
        ensures
            final(self).wf(),
            final(self).lifecycle is Loaded,
            final(self).active == old(self).active,
            final(self).model_file_present == old(self).model_file_present,
            final(self).part_file_present == old(self).part_file_present,
    {
        self.lifecycle = ModelLifecycleState::Loaded;
    }

    /// The background load failed: the file stays on disk for a future
    /// retry, and the active backend reverts to remote.
    pub fn on_load_failed(&mut self, reason: String)
        requires
            old(self).wf(),
            old(self).lifecycle is Loading,
        ensures
            final(self).wf(),
            final(self).lifecycle == (ModelLifecycleState::LoadFailed { reason }),
            final(self).active == TranscriptionService::Groq,
            final(self).model_file_present == old(self).model_file_present,
            final(self).part_file_present == old(self).part_file_present,
    {
        self.lifecycle = ModelLifecycleState::LoadFailed { reason };
        self.active = TranscriptionService::Groq;
    }
}

} // verus!
