use linwhisper::audio::FormatError;
use linwhisper::config::{initial_service, parse_service, service_tag, Config, ConfigError, TranscriptionService};
use linwhisper::dispatch::{plan_transcription, DispatchPlan};
use linwhisper::local_stt::{assemble_transcript, prepare_local_audio, LocalPrepError, PreparedAudio};

/// Canonical mono 16-bit PCM WAV bytes.
fn wav_bytes(rate: u32, samples: &[i16]) -> Vec<u8> {
    let data_len = (samples.len() * 2) as u32;
    let mut v = Vec::new();
    v.extend_from_slice(b"RIFF");
    v.extend_from_slice(&(36 + data_len).to_le_bytes());
    v.extend_from_slice(b"WAVE");
    v.extend_from_slice(b"fmt ");
    v.extend_from_slice(&16u32.to_le_bytes());
    v.extend_from_slice(&1u16.to_le_bytes());
    v.extend_from_slice(&1u16.to_le_bytes());
    v.extend_from_slice(&rate.to_le_bytes());
    v.extend_from_slice(&(rate * 2).to_le_bytes());
    v.extend_from_slice(&2u16.to_le_bytes());
    v.extend_from_slice(&16u16.to_le_bytes());
    v.extend_from_slice(b"data");
    v.extend_from_slice(&data_len.to_le_bytes());
    for s in samples {
        v.extend_from_slice(&s.to_le_bytes());
    }
    v
}

#[test]
fn empty_recording_is_rejected_before_inference() {
    let bytes = wav_bytes(16000, &[]);
    match prepare_local_audio(&bytes) {
        Err(LocalPrepError::EmptyAudio) => {},
        other => panic!("expected EmptyAudio, got {:?}", kind_of(&other)),
    }
}

#[test]
fn rate_matching_recording_skips_resampling_untouched() {
    let samples = vec![5, -9, 1200, -32000, 17];
    let bytes = wav_bytes(16000, &samples);
    match prepare_local_audio(&bytes) {
        Ok(PreparedAudio::Ready(s)) => assert_eq!(s, samples),
        other => panic!("expected Ready, got {:?}", kind_of(&other)),
    }
}

#[test]
fn other_rate_needs_resampling_with_samples_untouched() {
    let samples = vec![1, 2, 3, 4];
    let bytes = wav_bytes(48000, &samples);
    match prepare_local_audio(&bytes) {
        Ok(PreparedAudio::NeedsResample(s, from)) => {
            assert_eq!(s, samples);
            assert_eq!(from, 48000);
        },
        other => panic!("expected NeedsResample, got {:?}", kind_of(&other)),
    }
}

#[test]
fn malformed_recording_reports_format_error() {
    let bytes = vec![1u8, 2, 3];
    match prepare_local_audio(&bytes) {
        Err(LocalPrepError::Format(FormatError::NotAWav)) => {},
        other => panic!("expected Format(NotAWav), got {:?}", kind_of(&other)),
    }
}

fn kind_of(r: &Result<PreparedAudio, LocalPrepError>) -> String {
    match r {
        Ok(PreparedAudio::Ready(_)) => "Ready".into(),
        Ok(PreparedAudio::NeedsResample(_, _)) => "NeedsResample".into(),
        Err(e) => format!("{:?}", e),
    }
}

#[test]
fn remote_dispatch_sends_raw_container() {
    let bytes = wav_bytes(48000, &[1, 2, 3]);
    match plan_transcription(TranscriptionService::Groq, bytes.clone()) {
        Ok(DispatchPlan::Remote(sent)) => assert_eq!(sent, bytes),
        _ => panic!("expected Remote plan"),
    }
}

#[test]
fn local_dispatch_decodes_and_flags_conversion() {
    let samples = vec![10, 20, 30];
    match plan_transcription(TranscriptionService::Local, wav_bytes(16000, &samples)) {
        Ok(DispatchPlan::LocalReady(s)) => assert_eq!(s, samples),
        _ => panic!("expected LocalReady plan"),
    }
    match plan_transcription(TranscriptionService::Local, wav_bytes(44100, &samples)) {
        Ok(DispatchPlan::LocalResample(s, from)) => {
            assert_eq!(s, samples);
            assert_eq!(from, 44100);
        },
        _ => panic!("expected LocalResample plan"),
    }
}

#[test]
fn transcript_segments_are_joined_and_trimmed() {
    let segments: Vec<Vec<u8>> = vec![
        b"  Hello,".to_vec(),
        b" world".to_vec(),
        b"!  \n".to_vec(),
    ];
    assert_eq!(assemble_transcript(&segments), b"Hello, world!".to_vec());
}

#[test]
fn transcript_of_no_segments_is_empty() {
    assert_eq!(assemble_transcript(&Vec::new()), Vec::<u8>::new());
    let blank: Vec<Vec<u8>> = vec![b" \t ".to_vec(), b"\r\n".to_vec()];
    assert_eq!(assemble_transcript(&blank), Vec::<u8>::new());
}

#[test]
fn service_tag_parsing() {
    assert_eq!(parse_service(&Some(b"local".to_vec())), TranscriptionService::Local);
    assert_eq!(parse_service(&Some(b"LOCAL".to_vec())), TranscriptionService::Local);
    assert_eq!(parse_service(&Some(b"Local".to_vec())), TranscriptionService::Local);
    assert_eq!(parse_service(&Some(b"groq".to_vec())), TranscriptionService::Groq);
    assert_eq!(parse_service(&Some(b"other".to_vec())), TranscriptionService::Groq);
    assert_eq!(parse_service(&Some(b"locale".to_vec())), TranscriptionService::Groq);
    assert_eq!(parse_service(&None), TranscriptionService::Groq);
}

#[test]
fn remote_service_demands_credential() {
    let r = Config::resolve(
        TranscriptionService::Groq,
        None,
        "whisper-large-v3-turbo".to_string(),
        "history.db".to_string(),
        "model.bin".to_string(),
    );
    assert!(matches!(r, Err(ConfigError::MissingCredential)));

    let c = Config::resolve(
        TranscriptionService::Groq,
        Some("test-key-123".to_string()),
        "whisper-large-v3-turbo".to_string(),
        "history.db".to_string(),
        "model.bin".to_string(),
    )
    .unwrap();
    assert_eq!(c.transcription_service, TranscriptionService::Groq);
    assert!(c.has_credential());

    let c = Config::resolve(
        TranscriptionService::Local,
        None,
        "whisper-large-v3-turbo".to_string(),
        "history.db".to_string(),
        "model.bin".to_string(),
    )
    .unwrap();
    assert_eq!(c.transcription_service, TranscriptionService::Local);
    assert!(!c.has_credential());
}

#[test]
fn saved_mode_overrides_default_only_on_exact_tags() {
    let g = TranscriptionService::Groq;
    let l = TranscriptionService::Local;
    assert_eq!(initial_service(&Some(b"local".to_vec()), g), l);
    assert_eq!(initial_service(&Some(b"api".to_vec()), l), g);
    assert_eq!(initial_service(&Some(b"LOCAL".to_vec()), g), g);
    assert_eq!(initial_service(&Some(b"other".to_vec()), g), g);
    assert_eq!(initial_service(&None, l), l);
    assert_eq!(initial_service(&None, g), g);
}

#[test]
fn persisted_mode_round_trips() {
    for s in [TranscriptionService::Groq, TranscriptionService::Local] {
        for d in [TranscriptionService::Groq, TranscriptionService::Local] {
            assert_eq!(initial_service(&Some(service_tag(s)), d), s);
        }
    }
    assert_eq!(service_tag(TranscriptionService::Local), b"local".to_vec());
    assert_eq!(service_tag(TranscriptionService::Groq), b"api".to_vec());
}
