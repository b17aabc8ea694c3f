use hyprwhspr_rs::app::{
    conform_rate, fast_vad_allowed, plan_preprocess, transcription_outcome, trim_outcome,
    CleanupPlan, Config, ConfigDecision, ConfigDelta, ConfigUpdate, HyprwhsprApp, ListenerAction,
    PipelineStage, PreprocessPlan, RecorderState, RecordingTrigger, ShortcutAction,
    ShortcutListener, ShortcutsConfig, StageOutcome, VadChange, VadStatus,
};
use hyprwhspr_rs::audio::{AudioCapture, CapturedAudio, DeviceInventory};
use hyprwhspr_rs::shortcuts::{ShortcutEvent, ShortcutKind, ShortcutPhase};
use hyprwhspr_rs::transcription::TranscriptionProvider;

fn config() -> Config {
    Config {
        audio_device: None,
        shortcuts: ShortcutsConfig { press: Some("SUPER+ALT+R".to_string()), hold: None },
        fast_vad_enabled: false,
        provider: TranscriptionProvider::WhisperCpp,
        whisper_vad_enabled: false,
    }
}

fn app() -> HyprwhsprApp {
    let inventory = DeviceInventory {
        devices: Some(vec![Some("mic".to_string())]),
        default_device: Some(Some("mic".to_string())),
    };
    HyprwhsprApp::new(AudioCapture::new(None, &inventory).unwrap(), config())
}

fn event(kind: ShortcutKind, phase: ShortcutPhase) -> ShortcutEvent {
    ShortcutEvent { triggered_at: 1, kind, phase }
}

const NO_DELTA: ConfigDelta = ConfigDelta { vad_settings_changed: false, other_changed: false };

fn lerp(left: f32, right: f32, numerator: u64, denominator: u64) -> f32 {
    left + (right - left) * (numerator as f64 / denominator as f64) as f32
}

#[test]
fn hold_release_does_not_stop_press_recording() {
    let mut app = app();
    assert_eq!(app.state(), RecorderState::Idle);
    let action = app.handle_shortcut(&event(ShortcutKind::Press, ShortcutPhase::Start));
    assert_eq!(action, ShortcutAction::StartRecording(RecordingTrigger::PressShortcut));
    assert!(app.recording_started(RecordingTrigger::PressShortcut));
    assert_eq!(app.state(), RecorderState::Recording(RecordingTrigger::PressShortcut));
    let release = app.handle_shortcut(&event(ShortcutKind::Hold, ShortcutPhase::End));
    assert_eq!(release, ShortcutAction::IgnoredRelease);
    assert_eq!(app.state(), RecorderState::Recording(RecordingTrigger::PressShortcut));
    assert!(app.is_recording());
}

#[test]
fn hold_cycle_runs_through_processing_back_to_idle() {
    let mut app = app();
    let start = app.handle_shortcut(&event(ShortcutKind::Hold, ShortcutPhase::Start));
    assert_eq!(start, ShortcutAction::StartRecording(RecordingTrigger::HoldShortcut));
    assert!(app.recording_started(RecordingTrigger::HoldShortcut));
    assert_eq!(app.state(), RecorderState::Recording(RecordingTrigger::HoldShortcut));
    let stop = app.handle_shortcut(&event(ShortcutKind::Hold, ShortcutPhase::End));
    assert_eq!(stop, ShortcutAction::StopRecording);
    assert!(app.recording_stopped(16_000));
    assert_eq!(app.state(), RecorderState::Processing(PipelineStage::Preprocess));
    assert!(app.is_processing());
    assert_eq!(app.stage_finished(StageOutcome::Completed), Some(PipelineStage::Transcribe));
    assert_eq!(app.stage_finished(StageOutcome::Completed), Some(PipelineStage::Inject));
    assert_eq!(app.state(), RecorderState::Processing(PipelineStage::Inject));
    assert_eq!(app.stage_finished(StageOutcome::Completed), None);
    assert_eq!(app.state(), RecorderState::Idle);
}

#[test]
fn transition_table() {
    let mut app = app();
    // Idle
    assert_eq!(
        app.handle_shortcut(&event(ShortcutKind::Hold, ShortcutPhase::End)),
        ShortcutAction::IgnoredRelease
    );
    assert_eq!(
        app.handle_shortcut(&event(ShortcutKind::Press, ShortcutPhase::End)),
        ShortcutAction::Ignored
    );
    // Recording(Hold)
    assert!(app.recording_started(RecordingTrigger::HoldShortcut));
    assert!(!app.recording_started(RecordingTrigger::PressShortcut));
    assert_eq!(app.state(), RecorderState::Recording(RecordingTrigger::HoldShortcut));
    assert_eq!(
        app.handle_shortcut(&event(ShortcutKind::Hold, ShortcutPhase::Start)),
        ShortcutAction::IgnoredAlreadyRecording
    );
    assert_eq!(
        app.handle_shortcut(&event(ShortcutKind::Press, ShortcutPhase::Start)),
        ShortcutAction::StopRecording
    );
    // Processing
    assert!(app.recording_stopped(1));
    assert!(!app.recording_started(RecordingTrigger::PressShortcut));
    assert!(!app.recording_stopped(5));
    assert_eq!(
        app.handle_shortcut(&event(ShortcutKind::Press, ShortcutPhase::Start)),
        ShortcutAction::IgnoredWhileProcessing
    );
    assert_eq!(
        app.handle_shortcut(&event(ShortcutKind::Hold, ShortcutPhase::Start)),
        ShortcutAction::IgnoredWhileProcessing
    );
    assert_eq!(
        app.handle_shortcut(&event(ShortcutKind::Hold, ShortcutPhase::End)),
        ShortcutAction::IgnoredRelease
    );
    assert_eq!(app.state(), RecorderState::Processing(PipelineStage::Preprocess));
}

#[test]
fn empty_recording_goes_straight_back_to_idle() {
    let mut app = app();
    assert!(app.recording_started(RecordingTrigger::PressShortcut));
    assert!(!app.recording_stopped(0));
    assert_eq!(app.state(), RecorderState::Idle);
    assert_eq!(app.stage_finished(StageOutcome::Completed), None);
    assert_eq!(app.state(), RecorderState::Idle);
}

#[test]
fn failing_or_empty_stage_ends_the_pipeline() {
    for outcome in [StageOutcome::Failed, StageOutcome::NothingLeft] {
        for completed in 0..3 {
            let mut app = app();
            assert!(app.recording_started(RecordingTrigger::HoldShortcut));
            assert!(app.recording_stopped(10));
            for _ in 0..completed {
                assert!(app.stage_finished(StageOutcome::Completed).is_some());
            }
            assert_eq!(app.stage_finished(outcome), None);
            assert_eq!(app.state(), RecorderState::Idle);
        }
    }
}

#[test]
fn listener_matches_only_its_own_binding() {
    let mut listener = ShortcutListener::spawn("SUPER+R".to_string(), ShortcutKind::Hold);
    assert!(listener.matches("SUPER+R", ShortcutKind::Hold));
    assert!(!listener.matches("SUPER+R", ShortcutKind::Press));
    assert!(!listener.matches("SUPER+T", ShortcutKind::Hold));
    assert!(!listener.is_stopped());
    assert!(listener.stop());
    assert!(!listener.stop());
    assert!(listener.is_stopped());
    listener.restart("F9".to_string(), ShortcutKind::Press);
    assert!(listener.matches("F9", ShortcutKind::Press));
    assert!(!listener.is_stopped());
    assert_eq!(listener.shortcut(), "F9");
    assert_eq!(listener.kind(), ShortcutKind::Press);
}

#[test]
fn listeners_are_spawned_kept_restarted_and_stopped() {
    let mut app = app();
    let press = Some("SUPER+ALT+R".to_string());
    assert_eq!(app.ensure_listener(ShortcutKind::Press, &press), ListenerAction::Spawn);
    assert_eq!(app.ensure_listener(ShortcutKind::Press, &press), ListenerAction::Keep);
    assert_eq!(
        app.ensure_listener(ShortcutKind::Press, &Some("F9".to_string())),
        ListenerAction::Restart
    );
    assert_eq!(app.ensure_listener(ShortcutKind::Hold, &None), ListenerAction::Nothing);
    assert_eq!(app.ensure_listener(ShortcutKind::Press, &None), ListenerAction::Stop);
    assert_eq!(app.ensure_listener(ShortcutKind::Press, &None), ListenerAction::Nothing);
    let both = ShortcutsConfig { press: Some("F9".to_string()), hold: Some("F10".to_string()) };
    assert_eq!(
        app.ensure_shortcut_listeners(&both),
        (ListenerAction::Spawn, ListenerAction::Spawn)
    );
    assert_eq!(
        app.cleanup(),
        CleanupPlan { close_session: false, join_press: true, join_hold: true }
    );
    assert_eq!(
        app.cleanup(),
        CleanupPlan { close_session: false, join_press: false, join_hold: false }
    );
}

#[test]
fn cleanup_closes_an_open_session() {
    let mut app = app();
    assert!(app.recording_started(RecordingTrigger::PressShortcut));
    let plan = app.cleanup();
    assert!(plan.close_session);
    assert_eq!(app.state(), RecorderState::Idle);
}

#[test]
fn config_update_is_rejected_while_busy() {
    let mut app = app();
    assert!(app.config_update_allowed());
    assert_eq!(app.apply_config_update(config(), NO_DELTA, false), ConfigDecision::Unchanged);
    let mut changed = config();
    changed.audio_device = Some(2);
    assert!(app.recording_started(RecordingTrigger::PressShortcut));
    assert!(!app.config_update_allowed());
    assert_eq!(
        app.apply_config_update(changed.clone(), NO_DELTA, false),
        ConfigDecision::RejectedBusy
    );
    assert_eq!(app.audio_capture().preferred_device(), None);
    assert!(app.recording_stopped(3));
    assert_eq!(
        app.apply_config_update(changed.clone(), NO_DELTA, false),
        ConfigDecision::RejectedBusy
    );
    assert_eq!(app.stage_finished(StageOutcome::Failed), None);
    let decision = app.apply_config_update(changed, NO_DELTA, false);
    assert_eq!(
        decision,
        ConfigDecision::Apply(ConfigUpdate {
            device_changed: true,
            press: Some(ListenerAction::Spawn),
            hold: Some(ListenerAction::Nothing),
            vad: VadChange::Disable { conflict: false, was_in_use: false },
        })
    );
    assert_eq!(app.audio_capture().preferred_device(), Some(2));
    assert_eq!(app.config().audio_device, Some(2));
}

#[test]
fn config_update_decides_listeners_and_trimmer() {
    let mut app = app();
    assert_eq!(
        app.ensure_shortcut_listeners(&config().shortcuts),
        (ListenerAction::Spawn, ListenerAction::Nothing)
    );
    let mut with_vad = config();
    with_vad.fast_vad_enabled = true;
    with_vad.provider = TranscriptionProvider::Groq;
    assert_eq!(
        app.apply_config_update(with_vad.clone(), NO_DELTA, false),
        ConfigDecision::Apply(ConfigUpdate {
            device_changed: false,
            press: None,
            hold: None,
            vad: VadChange::Rebuild,
        })
    );
    let tuned = ConfigDelta { vad_settings_changed: true, other_changed: false };
    assert_eq!(
        app.apply_config_update(with_vad.clone(), tuned, true),
        ConfigDecision::Apply(ConfigUpdate {
            device_changed: false,
            press: None,
            hold: None,
            vad: VadChange::Rebuild,
        })
    );
    let other = ConfigDelta { vad_settings_changed: false, other_changed: true };
    assert_eq!(
        app.apply_config_update(with_vad.clone(), other, true),
        ConfigDecision::Apply(ConfigUpdate {
            device_changed: false,
            press: None,
            hold: None,
            vad: VadChange::Keep,
        })
    );
    let mut conflict = with_vad.clone();
    conflict.provider = TranscriptionProvider::WhisperCpp;
    conflict.whisper_vad_enabled = true;
    conflict.shortcuts.hold = Some("F10".to_string());
    assert_eq!(
        app.apply_config_update(conflict, NO_DELTA, true),
        ConfigDecision::Apply(ConfigUpdate {
            device_changed: false,
            press: Some(ListenerAction::Keep),
            hold: Some(ListenerAction::Spawn),
            vad: VadChange::Disable { conflict: true, was_in_use: true },
        })
    );
}

#[test]
fn fast_vad_gives_way_to_whisper_vad() {
    let mut c = config();
    assert!(!fast_vad_allowed(&c));
    c.fast_vad_enabled = true;
    assert!(fast_vad_allowed(&c));
    c.whisper_vad_enabled = true;
    assert!(!fast_vad_allowed(&c));
    c.provider = TranscriptionProvider::Gemini;
    assert!(fast_vad_allowed(&c));
}

#[test]
fn preprocessing_plan() {
    assert_eq!(plan_preprocess(44_100, None), PreprocessPlan::PassThrough);
    assert_eq!(
        plan_preprocess(44_100, Some(VadStatus { rate_supported: false, current_rate: 16_000 })),
        PreprocessPlan::Trim { resample: true, rate: 16_000, set_rate: false }
    );
    assert_eq!(
        plan_preprocess(48_000, Some(VadStatus { rate_supported: true, current_rate: 16_000 })),
        PreprocessPlan::Trim { resample: false, rate: 48_000, set_rate: true }
    );
    assert_eq!(trim_outcome(0), StageOutcome::NothingLeft);
    assert_eq!(trim_outcome(1), StageOutcome::Completed);
    assert_eq!(transcription_outcome(""), StageOutcome::NothingLeft);
    assert_eq!(transcription_outcome(" \n\t "), StageOutcome::NothingLeft);
    assert_eq!(transcription_outcome(" hi "), StageOutcome::Completed);
}

#[test]
fn audio_is_brought_to_sixteen_kilohertz() {
    let native = CapturedAudio { samples: vec![0.5_f32, 1.0], sample_rate: 16_000 };
    let same = conform_rate(native, 16_000, lerp);
    assert_eq!(same.samples, vec![0.5, 1.0]);
    assert_eq!(same.sample_rate, 16_000);
    let fast = CapturedAudio { samples: vec![0.0_f32, 1.0, 2.0, 3.0], sample_rate: 32_000 };
    let halved = conform_rate(fast, 16_000, lerp);
    assert_eq!(halved.samples, vec![0.0, 2.0]);
    assert_eq!(halved.sample_rate, 16_000);
    let empty: CapturedAudio<f32> = CapturedAudio { samples: Vec::new(), sample_rate: 0 };
    let out = conform_rate(empty, 16_000, lerp);
    assert!(out.samples.is_empty());
    assert_eq!(out.sample_rate, 16_000);
}
