use linwhisper::config::TranscriptionService;
use linwhisper::download::{latest_message, DownloadMsg, DownloadProgress};
use linwhisper::errors::{ErrorKind, TranscriptionResult};
use linwhisper::lifecycle::{ModelLifecycleState, ModelManager, SwitchOutcome};
use linwhisper::recording::{
    PollMsg, PollStep, RecordingState, RecordingStateMachine, RefuseReason, ToggleOutcome,
};

fn loaded_local_manager() -> ModelManager {
    let mut m = ModelManager::new(TranscriptionService::Groq, true);
    assert_eq!(
        m.switch_backend(TranscriptionService::Local, RecordingState::Idle),
        SwitchOutcome::StartLoad
    );
    m.on_load_complete();
    assert!(matches!(m.lifecycle, ModelLifecycleState::Loaded));
    m
}

fn downloading_manager() -> ModelManager {
    let mut m = ModelManager::new(TranscriptionService::Groq, false);
    assert_eq!(
        m.switch_backend(TranscriptionService::Local, RecordingState::Idle),
        SwitchOutcome::StartDownload
    );
    assert!(matches!(m.lifecycle, ModelLifecycleState::Downloading { .. }));
    m
}

#[test]
fn no_recording_while_model_downloads() {
    let m = downloading_manager();
    let mut rec = RecordingStateMachine::new();
    match rec.toggle(&m, true) {
        ToggleOutcome::Refused(RefuseReason::ModelDownloading) => {},
        _ => panic!("expected the downloading guard to refuse"),
    }
    assert_eq!(rec.state, RecordingState::Idle);
}

#[test]
fn no_recording_without_loaded_local_model() {
    let m = ModelManager::new(TranscriptionService::Local, true);
    assert!(matches!(m.lifecycle, ModelLifecycleState::Installed));
    let mut rec = RecordingStateMachine::new();
    match rec.toggle(&m, true) {
        ToggleOutcome::Refused(RefuseReason::NoLocalModel) => {},
        _ => panic!("expected the local-model guard to refuse"),
    }
    assert_eq!(rec.state, RecordingState::Idle);
}

#[test]
fn no_recording_without_remote_credential() {
    let m = ModelManager::new(TranscriptionService::Groq, false);
    let mut rec = RecordingStateMachine::new();
    match rec.toggle(&m, false) {
        ToggleOutcome::Refused(RefuseReason::NoCredential) => {},
        _ => panic!("expected the credential guard to refuse"),
    }
    assert_eq!(rec.state, RecordingState::Idle);
}

#[test]
fn full_cycle_snapshots_backend_and_ignores_extra_toggles() {
    let m = loaded_local_manager();
    let mut rec = RecordingStateMachine::new();
    assert!(matches!(rec.toggle(&m, false), ToggleOutcome::StartCapture));
    assert_eq!(rec.state, RecordingState::Recording);
    match rec.toggle(&m, false) {
        ToggleOutcome::StopAndDispatch(TranscriptionService::Local) => {},
        _ => panic!("expected dispatch to the snapshotted local backend"),
    }
    assert_eq!(rec.state, RecordingState::Processing);
    // A second toggle while processing is a no-op.
    assert!(matches!(rec.toggle(&m, false), ToggleOutcome::Ignored));
    assert_eq!(rec.state, RecordingState::Processing);
    // Nothing pending keeps the episode alive.
    assert!(matches!(rec.on_poll(PollMsg::Pending), PollStep::KeepWaiting));
    assert_eq!(rec.state, RecordingState::Processing);
    // The one result ends it.
    let res = TranscriptionResult::Success("hello".to_string());
    match rec.on_poll(PollMsg::Received(res)) {
        PollStep::Deliver(TranscriptionResult::Success(text)) => assert_eq!(text, "hello"),
        _ => panic!("expected the result to be delivered"),
    }
    assert_eq!(rec.state, RecordingState::Idle);
}

#[test]
fn failed_result_and_closed_channel_return_to_idle() {
    let m = loaded_local_manager();
    let mut rec = RecordingStateMachine::new();
    rec.toggle(&m, false);
    rec.toggle(&m, false);
    let res = TranscriptionResult::Failure(ErrorKind::Inference, "engine failed".to_string());
    assert!(matches!(rec.on_poll(PollMsg::Received(res)), PollStep::Deliver(_)));
    assert_eq!(rec.state, RecordingState::Idle);

    rec.toggle(&m, false);
    rec.toggle(&m, false);
    assert!(matches!(rec.on_poll(PollMsg::Closed), PollStep::ChannelFailed));
    assert_eq!(rec.state, RecordingState::Idle);
}

#[test]
fn capture_failures_return_to_idle() {
    let m = loaded_local_manager();
    let mut rec = RecordingStateMachine::new();
    rec.toggle(&m, false);
    rec.on_capture_start_failed();
    assert_eq!(rec.state, RecordingState::Idle);

    rec.toggle(&m, false);
    rec.toggle(&m, false);
    rec.on_capture_stop_failed();
    assert_eq!(rec.state, RecordingState::Idle);
}

#[test]
fn no_backend_switch_while_not_idle() {
    let mut m = loaded_local_manager();
    assert_eq!(
        m.switch_backend(TranscriptionService::Groq, RecordingState::Recording),
        SwitchOutcome::RejectedBusy
    );
    assert_eq!(
        m.switch_backend(TranscriptionService::Groq, RecordingState::Processing),
        SwitchOutcome::RejectedBusy
    );
    assert_eq!(m.active, TranscriptionService::Local);
    assert!(matches!(m.lifecycle, ModelLifecycleState::Loaded));
    assert!(m.model_file_present);
}

#[test]
fn no_backend_switch_while_downloading() {
    let mut m = downloading_manager();
    assert_eq!(
        m.switch_backend(TranscriptionService::Groq, RecordingState::Idle),
        SwitchOutcome::RejectedDownloading
    );
    assert_eq!(m.active, TranscriptionService::Local);
    assert!(matches!(m.lifecycle, ModelLifecycleState::Downloading { .. }));
}

#[test]
fn switch_to_same_backend_changes_nothing() {
    let mut m = loaded_local_manager();
    assert_eq!(
        m.switch_backend(TranscriptionService::Local, RecordingState::Idle),
        SwitchOutcome::NoChange
    );
    assert_eq!(m.active, TranscriptionService::Local);
    assert!(matches!(m.lifecycle, ModelLifecycleState::Loaded));
    assert!(m.model_file_present);
    assert!(!m.part_file_present);
}

#[test]
fn switch_to_remote_removes_model_file() {
    let mut m = loaded_local_manager();
    assert_eq!(
        m.switch_backend(TranscriptionService::Groq, RecordingState::Idle),
        SwitchOutcome::SwitchedToRemote(true)
    );
    assert_eq!(m.active, TranscriptionService::Groq);
    assert!(matches!(m.lifecycle, ModelLifecycleState::NotInstalled));
    assert!(!m.model_file_present);
    assert!(!m.part_file_present);
    // The next switch back to local has to re-download.
    assert_eq!(
        m.switch_backend(TranscriptionService::Local, RecordingState::Idle),
        SwitchOutcome::StartDownload
    );
}

#[test]
fn download_runs_to_installed_then_loaded() {
    let mut m = downloading_manager();
    m.on_download_progress(65536, Some(147951465));
    match &m.lifecycle {
        ModelLifecycleState::Downloading { bytes_done, bytes_total } => {
            assert_eq!(*bytes_done, 65536);
            assert_eq!(*bytes_total, Some(147951465));
        },
        _ => panic!("expected downloading"),
    }
    m.on_download_complete();
    assert!(matches!(m.lifecycle, ModelLifecycleState::Installed));
    assert!(m.model_file_present);
    assert!(!m.part_file_present);
    m.begin_load();
    assert!(matches!(m.lifecycle, ModelLifecycleState::Loading));
    m.on_load_complete();
    assert!(matches!(m.lifecycle, ModelLifecycleState::Loaded));
    assert_eq!(m.active, TranscriptionService::Local);
}

#[test]
fn failed_download_cleans_up_and_reverts_to_remote() {
    let mut m = downloading_manager();
    m.on_download_progress(4096, None);
    m.on_download_failed();
    assert!(matches!(m.lifecycle, ModelLifecycleState::NotInstalled));
    assert!(!m.part_file_present);
    assert!(!m.model_file_present);
    assert_eq!(m.active, TranscriptionService::Groq);
}

#[test]
fn failed_load_keeps_file_and_reverts_to_remote() {
    let mut m = ModelManager::new(TranscriptionService::Groq, true);
    m.switch_backend(TranscriptionService::Local, RecordingState::Idle);
    assert!(matches!(m.lifecycle, ModelLifecycleState::Loading));
    m.on_load_failed("corrupt file".to_string());
    match &m.lifecycle {
        ModelLifecycleState::LoadFailed { reason } => assert_eq!(reason, "corrupt file"),
        _ => panic!("expected a load failure"),
    }
    assert_eq!(m.active, TranscriptionService::Groq);
    assert!(m.model_file_present);
    // A manual retry loads again without a download.
    assert_eq!(
        m.switch_backend(TranscriptionService::Local, RecordingState::Idle),
        SwitchOutcome::StartLoad
    );
}

#[test]
fn progress_accumulates_per_chunk() {
    let mut p = DownloadProgress::new(Some(1000));
    p.record_chunk(400);
    p.record_chunk(350);
    assert_eq!(p.bytes_done, 750);
    assert_eq!(p.bytes_total, Some(1000));
}

#[test]
fn poll_acts_on_newest_drained_message() {
    let drained = vec![
        DownloadMsg::Progress(100, Some(1000)),
        DownloadMsg::Progress(300, Some(1000)),
        DownloadMsg::Progress(700, Some(1000)),
    ];
    match latest_message(drained) {
        Some(DownloadMsg::Progress(done, Some(total))) => {
            assert_eq!(done, 700);
            assert_eq!(total, 1000);
        },
        _ => panic!("expected the newest progress report"),
    }
    assert!(latest_message(Vec::new()).is_none());
}
