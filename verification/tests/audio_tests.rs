use hyprwhspr_rs::audio::{
    select_fallback_device, select_input_device, AudioCapture, AudioError, CapturedAudio,
    DeviceInventory, DeviceSource, RecordingSession, SampleRateTracker, StartAttempt,
    StreamSettings,
};

const MS: u64 = 1_000_000;

fn inventory(names: &[Option<&str>], default: Option<Option<&str>>) -> DeviceInventory {
    DeviceInventory {
        devices: Some(names.iter().map(|n| n.map(|s| s.to_string())).collect()),
        default_device: default.map(|d| d.map(|s| s.to_string())),
    }
}

#[test]
fn preferred_device_wins_when_it_exists() {
    let inv = inventory(&[Some("mic a"), Some("mic b")], Some(Some("mic a")));
    let sel = select_input_device(Some(1), &inv).unwrap();
    assert_eq!(sel.index, Some(1));
    assert_eq!(sel.name, "mic b");
    assert_eq!(sel.source, DeviceSource::Preferred(1));
}

#[test]
fn missing_preferred_device_falls_back_to_default() {
    let inv = inventory(&[Some("mic a")], Some(Some("system")));
    let sel = select_input_device(Some(4), &inv).unwrap();
    assert_eq!(sel.index, None);
    assert_eq!(sel.name, "system");
    assert_eq!(sel.source, DeviceSource::Default);
    let unnamed = inventory(&[Some("mic a")], Some(None));
    assert_eq!(select_input_device(None, &unnamed).unwrap().name, "Unknown");
}

#[test]
fn first_device_is_the_last_resort() {
    let inv = inventory(&[None, Some("mic b")], None);
    let sel = select_input_device(None, &inv).unwrap();
    assert_eq!(sel.index, Some(0));
    assert_eq!(sel.name, "Unknown");
    assert_eq!(sel.source, DeviceSource::Fallback);
}

#[test]
fn selection_errors() {
    let empty = inventory(&[], None);
    assert_eq!(select_input_device(None, &empty).err(), Some(AudioError::NoInputDevice));
    assert_eq!(select_input_device(Some(0), &empty).err(), Some(AudioError::NoInputDevice));
    let broken = DeviceInventory { devices: None, default_device: Some(Some("system".to_string())) };
    assert_eq!(select_input_device(Some(0), &broken).err(), Some(AudioError::EnumerationFailed));
    assert_eq!(select_input_device(None, &broken).unwrap().source, DeviceSource::Default);
    let nothing = DeviceInventory { devices: None, default_device: None };
    assert_eq!(select_input_device(None, &nothing).err(), Some(AudioError::EnumerationFailed));
    assert_eq!(AudioCapture::new(None, &empty).err(), Some(AudioError::NoInputDevice));
}

#[test]
fn fallback_skips_the_failed_device_by_name_ignoring_case() {
    let inv = inventory(&[Some("USB Mic"), Some("usb mic"), Some("Webcam")], None);
    let sel = select_fallback_device(Some("usb MIC"), &inv).unwrap();
    assert_eq!(sel.index, Some(2));
    assert_eq!(sel.name, "Webcam");
    assert_eq!(sel.source, DeviceSource::Fallback);
    let any = select_fallback_device(None, &inv).unwrap();
    assert_eq!(any.index, Some(0));
    let only = inventory(&[Some("USB Mic")], None);
    assert_eq!(
        select_fallback_device(Some("usb mic"), &only).err(),
        Some(AudioError::NoAlternateDevice)
    );
    let unnamed = inventory(&[None, Some("x")], None);
    assert_eq!(select_fallback_device(Some("unknown"), &unnamed).unwrap().index, Some(1));
}

#[test]
fn capture_requests_sixteen_kilohertz_mono() {
    let inv = inventory(&[Some("mic")], None);
    let mut capture = AudioCapture::new(Some(3), &inv).unwrap();
    assert_eq!(capture.sample_rate_hint(), 16_000);
    assert_eq!(capture.preferred_device(), Some(3));
    assert_eq!(capture.stream_settings(), StreamSettings { channels: 1, sample_rate: 16_000 });
    assert!(!capture.update_preferred_device(Some(3)));
    assert!(capture.update_preferred_device(None));
    assert_eq!(capture.preferred_device(), None);
    assert_eq!(capture.sample_rate_hint(), 16_000);
}

#[test]
fn failed_start_is_retried_once_on_another_device() {
    let inv = inventory(&[Some("mic a"), Some("mic b")], Some(Some("mic a")));
    let capture = AudioCapture::new(None, &inv).unwrap();
    let first = capture.start_recording(&inv).unwrap();
    let retry = AudioCapture::next_attempt_after_failure(&first, &inv).unwrap();
    match &retry {
        StartAttempt::Retry(sel) => {
            assert_eq!(sel.index, Some(1));
            assert_eq!(sel.name, "mic b");
            assert_eq!(sel.source, DeviceSource::Fallback);
        }
        StartAttempt::First(_) => panic!("a retry was expected"),
    }
    assert_eq!(
        AudioCapture::next_attempt_after_failure(&retry, &inv).err(),
        Some(AudioError::FallbackFailed)
    );
}

#[test]
fn failed_start_on_a_fallback_is_final() {
    let inv = inventory(&[Some("mic a"), Some("mic b")], None);
    let capture = AudioCapture::new(None, &inv).unwrap();
    let first = capture.start_recording(&inv).unwrap();
    assert_eq!(
        AudioCapture::next_attempt_after_failure(&first, &inv).err(),
        Some(AudioError::StreamStartFailed)
    );
    let lonely = inventory(&[Some("mic a")], Some(Some("mic a")));
    let attempt = AudioCapture::new(None, &lonely).unwrap().start_recording(&lonely).unwrap();
    assert_eq!(
        AudioCapture::next_attempt_after_failure(&attempt, &lonely).err(),
        Some(AudioError::NoAlternateDevice)
    );
}

#[test]
fn tracker_measures_exact_rate_over_one_second() {
    let mut tracker = SampleRateTracker::new(48_000, 1);
    assert_eq!(tracker.sample_rate(), 48_000);
    tracker.update(0, 5_000 * MS);
    assert_eq!(tracker.sample_rate(), 48_000);
    tracker.update(16_000, 6_000 * MS);
    assert_eq!(tracker.measured, Some(16_000));
    assert_eq!(tracker.sample_rate(), 16_000);
    assert_eq!(tracker.accumulated_frames, 0);
    assert_eq!(tracker.accumulated_nanos, 0);
}

#[test]
fn tracker_measures_in_windows_of_fifty_milliseconds() {
    let mut tracker = SampleRateTracker::new(16_000, 1);
    tracker.update(160, 0);
    let mut at: u64 = 0;
    let mut block: usize = 0;
    while block < 4 {
        at += 10 * MS;
        tracker.update(160, at);
        block += 1;
    }
    assert_eq!(tracker.measured, None);
    assert_eq!(tracker.accumulated_frames, 640);
    assert_eq!(tracker.accumulated_nanos, 40 * MS);
    tracker.update(160, at + 10 * MS);
    assert_eq!(tracker.measured, Some(16_000));
    assert_eq!(tracker.accumulated_frames, 0);
    // A drifting clock: 161 frames per 10 ms from now on.
    at += 10 * MS;
    block = 0;
    while block < 5 {
        at += 10 * MS;
        tracker.update(161, at);
        block += 1;
    }
    assert_eq!(tracker.sample_rate(), 16_100);
}

#[test]
fn tracker_counts_frames_not_samples_and_rounds() {
    let mut stereo = SampleRateTracker::new(44_100, 2);
    stereo.update(0, 0);
    stereo.update(8_820, 100 * MS);
    assert_eq!(stereo.sample_rate(), 44_100);
    let mut odd = SampleRateTracker::new(8_000, 0);
    odd.update(0, 0);
    odd.update(1, 60 * MS);
    // 1 frame in 60 ms is 16.67 Hz
    assert_eq!(odd.sample_rate(), 17);
    assert_eq!(SampleRateTracker::rate_over(3, 2_000_000_000), 2);
    assert_eq!(SampleRateTracker::rate_over(1, 3_000_000_000), 0);
    assert_eq!(SampleRateTracker::rate_over(u64::MAX, 1), u32::MAX);
}

#[test]
fn tracker_ignores_time_going_backwards_and_empty_windows() {
    let mut tracker = SampleRateTracker::new(16_000, 1);
    tracker.update(100, 500 * MS);
    tracker.update(100, 400 * MS);
    assert_eq!(tracker.accumulated_frames, 0);
    assert_eq!(tracker.last_capture, Some(400 * MS));
    tracker.update(0, 500 * MS);
    assert_eq!(tracker.measured, None);
    assert_eq!(tracker.accumulated_nanos, 0);
    assert_eq!(tracker.sample_rate(), 16_000);
}

#[test]
fn session_without_samples_stops_with_nominal_rate() {
    let session: RecordingSession<f32> =
        RecordingSession::new(StreamSettings { channels: 1, sample_rate: 16_000 });
    assert_eq!(session.buffered_len(), 0);
    assert_eq!(session.level_window(), (0, 0));
    let audio = session.stop();
    assert!(audio.is_empty());
    assert_eq!(audio.len(), 0);
    assert_eq!(audio.sample_rate, 16_000);
    assert_eq!(audio.duration_millis(), 0);
    let zero: CapturedAudio<f32> = CapturedAudio { samples: vec![0.5; 10], sample_rate: 0 };
    assert_eq!(zero.duration_millis(), 0);
}

#[test]
fn session_collects_samples_and_measures_rate() {
    let mut session: RecordingSession<f32> =
        RecordingSession::new(StreamSettings { channels: 1, sample_rate: 16_000 });
    session.on_audio(&[0.25; 800], 0);
    session.on_audio(&[0.5; 882], 20 * MS);
    session.on_audio(&[0.75; 882], 40 * MS);
    session.on_audio(&[1.0; 882], 60 * MS);
    assert_eq!(session.buffered_len(), 3_446);
    assert_eq!(session.level_window(), (2_422, 3_446));
    let level = session.level_samples();
    assert_eq!(level.len(), 1_024);
    assert_eq!(level[0], 0.75);
    assert_eq!(level[1_023], 1.0);
    let audio = session.stop();
    assert_eq!(audio.len(), 3_446);
    assert_eq!(audio.samples[0], 0.25);
    assert_eq!(audio.samples[800], 0.5);
    assert_eq!(audio.sample_rate, 44_100);
    assert_eq!(audio.duration_millis(), 78);
}
