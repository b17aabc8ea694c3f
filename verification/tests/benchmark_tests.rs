use hyprwhspr_rs::benchmark::{
    audio_length_micros, diff_nanos, raw_audio_size, saved_amount, BenchmarkRecorder,
};
use hyprwhspr_rs::transcription::{
    check_parakeet_model, model_dir, request_timeout_secs, BackendMetrics, ParakeetFiles,
    ParakeetModelError, TranscriptionProvider, TranscriptionResult,
};

const MS: u64 = 1_000_000;

#[test]
fn summary_needs_a_finished_injection() {
    let recorder = BenchmarkRecorder::new("whisper".to_string(), 0, MS);
    assert!(recorder.finalize().is_none());
    let mut started = BenchmarkRecorder::new("whisper".to_string(), 0, MS);
    started.mark_injection_start(5 * MS);
    assert!(started.finalize().is_none());
}

#[test]
fn summary_of_a_full_run() {
    let mut r = BenchmarkRecorder::new("groq".to_string(), 10 * MS, 12 * MS);
    r.mark_keybind_stop(1_012 * MS);
    r.mark_recording_stop(1_015 * MS);
    r.record_original_audio(16_000, 16_000);
    r.mark_processing_start(1_016 * MS);
    r.record_preprocess_duration(3 * MS);
    r.record_trimmed_audio(12_000, 16_000, Some(4_000));
    r.record_audio_sent(12_000, 16_000);
    r.record_backend_metrics(BackendMetrics {
        encode_duration: Some(2 * MS),
        encoded_bytes: Some(9_000),
        upload_duration: Some(40 * MS),
        response_duration: Some(200 * MS),
        transcription_duration: 250 * MS,
    });
    r.mark_injection_start(1_300 * MS);
    r.mark_injection_end(1_360 * MS);
    let s = r.finalize().unwrap();
    assert_eq!(s.provider_label, "groq");
    assert_eq!(s.keybind_to_record_start, 2 * MS);
    assert_eq!(s.recording_duration, Some(1_003 * MS));
    assert_eq!(s.stop_to_processing, Some(4 * MS));
    assert_eq!(s.fast_vad_trim, Some(3 * MS));
    assert_eq!(s.encode, Some(2 * MS));
    assert_eq!(s.upload, Some(40 * MS));
    assert_eq!(s.response, Some(200 * MS));
    assert_eq!(s.transcription, Some(250 * MS));
    assert_eq!(s.injection, Some(60 * MS));
    assert_eq!(s.total, 1_350 * MS);
    assert_eq!(s.original_audio_micros, Some(1_000_000));
    assert_eq!(s.original_audio_bytes, Some(64_000));
    assert_eq!(s.trimmed_audio_micros, Some(750_000));
    assert_eq!(s.trimmed_audio_bytes, Some(48_000));
    assert_eq!(s.sent_audio_micros, Some(750_000));
    assert_eq!(s.sent_audio_bytes, Some(9_000));
    assert_eq!(s.encode_audio_bytes, Some(9_000));
    assert_eq!(s.saved_audio_micros, Some(250_000));
    assert_eq!(s.saved_audio_bytes, Some(16_000));
    assert_eq!(s.fast_vad_saved_micros, Some(250_000));
    assert_eq!(s.saved_audio_permille, Some(250));
}

#[test]
fn summary_of_a_skipped_injection() {
    let mut r = BenchmarkRecorder::new("local".to_string(), 100, 50);
    r.record_original_audio(800, 0);
    r.record_trimmed_audio(100, 8_000, None);
    r.record_audio_sent(100, 0);
    r.mark_injection_skipped(7_000);
    let s = r.finalize().unwrap();
    assert_eq!(s.keybind_to_record_start, 0);
    assert_eq!(s.recording_duration, None);
    assert_eq!(s.stop_to_processing, None);
    assert_eq!(s.fast_vad_trim, None);
    assert_eq!(s.transcription, None);
    assert_eq!(s.injection, Some(0));
    assert_eq!(s.total, 6_900);
    assert_eq!(s.original_audio_micros, None);
    assert_eq!(s.original_audio_bytes, None);
    assert_eq!(s.trimmed_audio_micros, Some(12_500));
    assert_eq!(s.sent_audio_micros, None);
    assert_eq!(s.saved_audio_micros, None);
    assert_eq!(s.saved_audio_bytes, None);
    assert_eq!(s.fast_vad_saved_micros, None);
    assert_eq!(s.saved_audio_permille, None);
}

#[test]
fn injection_end_without_start_has_no_duration() {
    let mut r = BenchmarkRecorder::new("x".to_string(), 0, 0);
    r.mark_injection_end(9);
    let s = r.finalize().unwrap();
    assert_eq!(s.injection, None);
    assert_eq!(s.total, 9);
}

#[test]
fn growth_is_no_saving() {
    let mut r = BenchmarkRecorder::new("x".to_string(), 0, 0);
    r.record_original_audio(100, 16_000);
    r.record_trimmed_audio(200, 16_000, None);
    r.mark_injection_skipped(1);
    let s = r.finalize().unwrap();
    assert_eq!(s.saved_audio_micros, None);
    assert_eq!(s.saved_audio_bytes, None);
    assert_eq!(s.saved_audio_permille, None);
    assert_eq!(s.fast_vad_saved_micros, None);
}

#[test]
fn helper_formulas() {
    assert_eq!(diff_nanos(5, 12), 7);
    assert_eq!(diff_nanos(12, 5), 0);
    assert_eq!(audio_length_micros(Some(44_100), Some(44_100)), Some(1_000_000));
    assert_eq!(audio_length_micros(Some(1), Some(3)), Some(333_333));
    assert_eq!(audio_length_micros(Some(1), Some(0)), None);
    assert_eq!(audio_length_micros(None, Some(3)), None);
    assert_eq!(audio_length_micros(Some(1), None), None);
    assert_eq!(raw_audio_size(Some(3)), Some(12));
    assert_eq!(raw_audio_size(None), None);
    assert_eq!(saved_amount(Some(10), Some(4)), Some(6));
    assert_eq!(saved_amount(Some(4), Some(10)), None);
    assert_eq!(saved_amount(None, Some(10)), None);
}

#[test]
fn default_metrics_are_empty() {
    let metrics = BackendMetrics::default();
    assert_eq!(metrics.encode_duration, None);
    assert_eq!(metrics.encoded_bytes, None);
    assert_eq!(metrics.upload_duration, None);
    assert_eq!(metrics.response_duration, None);
    assert_eq!(metrics.transcription_duration, 0);
    let result = TranscriptionResult { text: "hi".to_string(), metrics };
    assert_eq!(result.text, "hi");
}

#[test]
fn request_timeout_has_a_floor() {
    assert_eq!(request_timeout_secs(0), 5);
    assert_eq!(request_timeout_secs(4), 5);
    assert_eq!(request_timeout_secs(5), 5);
    assert_eq!(request_timeout_secs(30), 30);
}

#[test]
fn model_directories() {
    assert_eq!(model_dir(" ~/models/tdt ", Some("/home/u"), Some("/data")), "/home/u/models/tdt");
    assert_eq!(model_dir("models/tdt", Some("/home/u"), Some("/data")), "/data/models/tdt");
    assert_eq!(model_dir("models/tdt", Some("/home/u"), None), "models/tdt");
    assert_eq!(model_dir("~/models", None, Some("/data")), "/data/~/models");
    assert_eq!(model_dir("/abs", None, Some("/data")), "/abs");
    assert_eq!(model_dir("", None, Some("/data")), "/data/");
}

#[test]
fn parakeet_model_parts() {
    let all = ParakeetFiles {
        encoder_model: true,
        encoder: false,
        decoder_joint_model: false,
        decoder_joint: true,
        vocab: true,
    };
    assert_eq!(check_parakeet_model(all), Ok(()));
    let mut files = all;
    files.vocab = false;
    assert_eq!(check_parakeet_model(files), Err(ParakeetModelError::VocabMissing));
    files.decoder_joint = false;
    assert_eq!(check_parakeet_model(files), Err(ParakeetModelError::DecoderMissing));
    files.encoder_model = false;
    assert_eq!(check_parakeet_model(files), Err(ParakeetModelError::EncoderMissing));
    files.encoder = true;
    files.decoder_joint_model = true;
    files.vocab = true;
    assert_eq!(check_parakeet_model(files), Ok(()));
    assert_ne!(TranscriptionProvider::WhisperCpp, TranscriptionProvider::Parakeet);
}
