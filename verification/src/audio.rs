//! Audio capture bookkeeping: which input device to open, what to do when it
//! fails to start, how many samples a session holds, and at which rate they
//! really arrived.
//!
//! The caller owns the hardware. It enumerates the input devices, opens the
//! stream that the library selects, hands each block of samples with its
//! capture time (monotonic nanoseconds) to the session, and reports failures.

use crate::text::{chars_of, eq_ignore_ascii_case, spec_eq_ignore_ascii_case, str_view};
use vstd::prelude::*;

verus! {

/// Rate that recordings are requested at, in Hz.
pub const NOMINAL_SAMPLE_RATE: u32 = 16_000;

/// Time a measurement window must at least span, in nanoseconds.
pub const MEASUREMENT_WINDOW_NANOS: u64 = 50_000_000;

/// Number of most recent samples that the level meter looks at.
pub const LEVEL_WINDOW_SAMPLES: usize = 1024;

/// Why capture could not be set up or started.
#[derive(Debug, Clone, Copy, PartialEq, Eq, Structural)]
pub enum AudioError {
    /// The input devices could not be enumerated.
    EnumerationFailed,
    /// There is no input device at all.
    NoInputDevice,
    /// The selected device failed and there is no other device to fall back to.
    NoAlternateDevice,
    /// The stream failed to start on a device that already was the last resort.
    StreamStartFailed,
    /// The stream failed to start on the selected device and on the fallback.
    FallbackFailed,
}

/// How a device came to be selected.
#[derive(Debug, Clone, Copy, PartialEq, Eq, Structural)]
pub enum DeviceSource {
    /// The configured device, by its index in the enumeration.
    Preferred(usize),
    /// The system's default input device.
    Default,
    /// The first device that could be had, chosen for want of a better one.
    Fallback,
}

/// The input devices as the audio host reports them.
#[derive(Debug, Clone)]
pub struct DeviceInventory {
    /// Names of the enumerated devices, in enumeration order; `None` where a
    /// device does not tell its name. `None` as a whole when the enumeration
    /// itself failed.
    pub devices: Option<Vec<Option<String>>>,
    /// The default input device, if there is one, with its name if it tells it.
    pub default_device: Option<Option<String>>,
}

/// A device chosen for recording.
#[derive(Debug, Clone)]
pub struct DeviceSelection {
    /// Index in the enumeration; `None` stands for the default device.
    pub index: Option<usize>,
    pub name: String,
    pub source: DeviceSource,
}

/// A selection as contracts see it.
pub struct SelectionView {
    pub index: Option<usize>,
    pub name: Seq<char>,
    pub source: DeviceSource,
}

impl View for DeviceSelection {
    type V = SelectionView;

    open spec fn view(&self) -> SelectionView {
        SelectionView { index: self.index, name: self.name@, source: self.source }
    }
}

/// The name a device goes by: its own, or `Unknown`.
pub open spec fn display_name(name: Option<String>) -> Seq<char> {
    match name {
        Some(n) => n@,
        None => "Unknown"@,
    }
}

/// The device that recording starts with.
///
/// The configured device if its index exists in the enumeration, else the
/// system default, else the first enumerated device.
pub open spec fn spec_select_input_device(
    preferred: Option<usize>,
    inventory: DeviceInventory,
) -> Result<SelectionView, AudioError> {
    if preferred is Some && inventory.devices is None {
        Err(AudioError::EnumerationFailed)
    } else if preferred is Some && preferred->0 < inventory.devices->0@.len() {
        Ok(
            SelectionView {
                index: preferred,
                name: display_name(inventory.devices->0@[preferred->0 as int]),
                source: DeviceSource::Preferred(preferred->0),
            },
        )
    } else if inventory.default_device is Some {
        Ok(
            SelectionView {
                index: None,
                name: display_name(inventory.default_device->0),
                source: DeviceSource::Default,
            },
        )
    } else if inventory.devices is None {
        Err(AudioError::EnumerationFailed)
    } else if inventory.devices->0@.len() > 0 {
        Ok(
            SelectionView {
                index: Some(0usize),
                name: display_name(inventory.devices->0@[0]),
                source: DeviceSource::Fallback,
            },
        )
    } else {
        Err(AudioError::NoInputDevice)
    }
}

/// Whether the device at `index` may serve as a fallback when the device
/// named `exclude` is to be avoided.
pub open spec fn is_alternate(names: Seq<Option<String>>, index: int, exclude: Option<Seq<char>>) -> bool {
    0 <= index < names.len() && match exclude {
        Some(failed) => !spec_eq_ignore_ascii_case(failed, display_name(names[index])),
        None => true,
    }
}

/// Copies the name a device goes by.
fn name_of(name: &Option<String>) -> (out: String)
    ensures
        out@ == display_name(*name),
{
    match name {
        Some(n) => n.clone(),
        None => "Unknown".to_owned(),
    }
}

/// Selects the device that recording starts with; see
/// [`spec_select_input_device`].
pub fn select_input_device(preferred: Option<usize>, inventory: &DeviceInventory) -> (out: Result<
    DeviceSelection,
    AudioError,
>)
    ensures
        match out {
            Ok(selection) => spec_select_input_device(preferred, *inventory) == Ok::<
                SelectionView,
                AudioError,
            >(selection@),
            Err(e) => spec_select_input_device(preferred, *inventory) == Err::<
                SelectionView,
                AudioError,
            >(e),
        },
{
    if let Some(index) = preferred {
        match &inventory.devices {
            None => {
                return Err(AudioError::EnumerationFailed);
            },
            Some(devices) => {
                if index < devices.len() {
                    return Ok(
                        DeviceSelection {
                            index: Some(index),
                            name: name_of(&devices[index]),
                            source: DeviceSource::Preferred(index),
                        },
                    );
                }
            },
        }
    }
    if let Some(default_name) = &inventory.default_device {
        return Ok(
            DeviceSelection {
                index: None,
                name: name_of(default_name),
                source: DeviceSource::Default,
            },
        );
    }
    match &inventory.devices {
        None => Err(AudioError::EnumerationFailed),
        Some(devices) => {
            if devices.len() > 0 {
                Ok(
                    DeviceSelection {
                        index: Some(0),
                        name: name_of(&devices[0]),
                        source: DeviceSource::Fallback,
                    },
                )
            } else {
                Err(AudioError::NoInputDevice)
            }
        },
    }
}

/// Selects the first enumerated device whose name differs from
/// `exclude_name`, compared without regard to ASCII case.
pub fn select_fallback_device(exclude_name: Option<&str>, inventory: &DeviceInventory) -> (out:
    Result<DeviceSelection, AudioError>)
    ensures
        match out {
            Ok(selection) => {
                &&& inventory.devices is Some
                &&& selection.index is Some
                &&& selection.source == DeviceSource::Fallback
                &&& is_alternate(
                    inventory.devices->0@,
                    selection.index->0 as int,
                    str_view(exclude_name),
                )
                &&& forall|j: int|
                    0 <= j < selection.index->0 ==> !#[trigger] is_alternate(
                        inventory.devices->0@,
                        j,
                        str_view(exclude_name),
                    )
                &&& selection.name@ == display_name(
                    inventory.devices->0@[selection.index->0 as int],
                )
            },
            Err(AudioError::EnumerationFailed) => inventory.devices is None,
            Err(AudioError::NoAlternateDevice) => inventory.devices is Some && forall|j: int|
                !#[trigger] is_alternate(inventory.devices->0@, j, str_view(exclude_name)),
            Err(_) => false,
        },
{
    let devices = match &inventory.devices {
        None => {
            return Err(AudioError::EnumerationFailed);
        },
        Some(devices) => devices,
    };
    let ghost exclude: Option<Seq<char>> = str_view(exclude_name);
    let mut i: usize = 0;
    while i < devices.len()
        invariant
            i <= devices.len(),
            inventory.devices == Some(*devices),
            exclude == str_view(exclude_name),
            forall|j: int| 0 <= j < i ==> !#[trigger] is_alternate(devices@, j, exclude),
        decreases devices.len() - i,
    {
        let name = name_of(&devices[i]);
        let excluded = match exclude_name {
            Some(failed) => {
                let left = chars_of(failed);
                let right = chars_of(name.as_str());
                eq_ignore_ascii_case(&left, &right)
            },
            None => false,
        };
        if !excluded {
            return Ok(DeviceSelection { index: Some(i), name, source: DeviceSource::Fallback });
        }
        i += 1;
    }
    Err(AudioError::NoAlternateDevice)
}

/// One attempt to start a stream.
#[derive(Debug, Clone)]
pub enum StartAttempt {
    /// On the device that was selected first.
    First(DeviceSelection),
    /// On the fallback, after the first device failed.
    Retry(DeviceSelection),
}

/// A start attempt as contracts see it.
pub enum StartAttemptView {
    First(SelectionView),
    Retry(SelectionView),
}

impl View for StartAttempt {
    type V = StartAttemptView;

    open spec fn view(&self) -> StartAttemptView {
        match self {
            StartAttempt::First(s) => StartAttemptView::First(s@),
            StartAttempt::Retry(s) => StartAttemptView::Retry(s@),
        }
    }
}

/// Settings of the stream to open.
#[derive(Debug, Clone, Copy, PartialEq, Eq, Structural)]
pub struct StreamSettings {
    pub channels: u16,
    pub sample_rate: u32,
}

/// Device preference and nominal rate for recordings.
#[derive(Debug, Clone, Copy, PartialEq, Eq, Structural)]
pub struct AudioCapture {
    sample_rate: u32,
    preferred_device: Option<usize>,
}

impl AudioCapture {
    /// The nominal rate, as contracts see it.
    pub closed spec fn spec_sample_rate(&self) -> u32 {
        self.sample_rate
    }

    /// The device preference, as contracts see it.
    pub closed spec fn spec_preferred_device(&self) -> Option<usize> {
        self.preferred_device
    }

    /// Checks that a device can be selected and remembers the preference.
    /// Recordings are requested at 16 kHz.
    pub fn new(preferred_device: Option<usize>, inventory: &DeviceInventory) -> (out: Result<
        Self,
        AudioError,
    >)
        ensures
            match out {
                Ok(capture) => spec_select_input_device(preferred_device, *inventory) is Ok
                    && capture.spec_sample_rate() == NOMINAL_SAMPLE_RATE
                    && capture.spec_preferred_device() == preferred_device,
                Err(e) => spec_select_input_device(preferred_device, *inventory) == Err::<
                    SelectionView,
                    AudioError,
                >(e),
            },
    {
        match select_input_device(preferred_device, inventory) {
            Ok(_) => Ok(AudioCapture { sample_rate: NOMINAL_SAMPLE_RATE, preferred_device }),
            Err(e) => Err(e),
        }
    }

    /// The rate that recordings are requested at.
    pub fn sample_rate_hint(&self) -> (rate: u32)
        ensures
            rate == self.spec_sample_rate(),
    {
        self.sample_rate
    }

    /// The configured device, if any.
    pub fn preferred_device(&self) -> (out: Option<usize>)
        ensures
            out == self.spec_preferred_device(),
    {
        self.preferred_device
    }

    /// Changes the device preference; it takes effect when the next
    /// recording starts. Returns whether the preference changed.
    pub fn update_preferred_device(&mut self, preferred: Option<usize>) -> (changed: bool)
        ensures
            final(self).spec_preferred_device() == preferred,
            final(self).spec_sample_rate() == old(self).spec_sample_rate(),
            changed == (old(self).spec_preferred_device() != preferred),
    {
        if self.preferred_device == preferred {
            return false;
        }
        self.preferred_device = preferred;
        true
    }

    /// The settings of the stream to open: mono, at the nominal rate.
    pub fn stream_settings(&self) -> (out: StreamSettings)
        ensures
            out == (StreamSettings { channels: 1, sample_rate: self.spec_sample_rate() }),
    {
        StreamSettings { channels: 1, sample_rate: self.sample_rate }
    }

    /// Selects the device for the first attempt to start a recording.
    pub fn start_recording(&self, inventory: &DeviceInventory) -> (out: Result<
        StartAttempt,
        AudioError,
    >)
        ensures
            match out {
                Ok(attempt) => attempt@ matches StartAttemptView::First(selection)
                    && spec_select_input_device(self.spec_preferred_device(), *inventory) == Ok::<
                    SelectionView,
                    AudioError,
                >(selection),
                Err(e) => spec_select_input_device(self.spec_preferred_device(), *inventory)
                    == Err::<SelectionView, AudioError>(e),
            },
    {
        match select_input_device(self.preferred_device, inventory) {
            Ok(selection) => Ok(StartAttempt::First(selection)),
            Err(e) => Err(e),
        }
    }

    /// Decides what follows a failed attempt to start the stream.
    ///
    /// A failed first attempt on a device that was not itself a fallback is
    /// retried once, on the first other device. Every other failure is final.
    pub fn next_attempt_after_failure(failed: &StartAttempt, inventory: &DeviceInventory) -> (out:
        Result<StartAttempt, AudioError>)
        ensures
            match failed@ {
                StartAttemptView::Retry(_) => out == Err::<StartAttempt, AudioError>(
                    AudioError::FallbackFailed,
                ),
                StartAttemptView::First(first) => if first.source == DeviceSource::Fallback {
                    out == Err::<StartAttempt, AudioError>(AudioError::StreamStartFailed)
                } else {
                    match out {
                        Ok(StartAttempt::Retry(selection)) => {
                            &&& inventory.devices is Some
                            &&& selection.index is Some
                            &&& selection.source == DeviceSource::Fallback
                            &&& is_alternate(
                                inventory.devices->0@,
                                selection.index->0 as int,
                                Some(first.name),
                            )
                            &&& forall|j: int|
                                0 <= j < selection.index->0 ==> !#[trigger] is_alternate(
                                    inventory.devices->0@,
                                    j,
                                    Some(first.name),
                                )
                            &&& selection.name@ == display_name(
                                inventory.devices->0@[selection.index->0 as int],
                            )
                        },
                        Ok(StartAttempt::First(_)) => false,
                        Err(AudioError::EnumerationFailed) => inventory.devices is None,
                        Err(AudioError::NoAlternateDevice) => inventory.devices is Some
                            && forall|j: int|
                            !#[trigger] is_alternate(inventory.devices->0@, j, Some(first.name)),
                        Err(_) => false,
                    }
                },
            },
    {
        match failed {
            StartAttempt::Retry(_) => Err(AudioError::FallbackFailed),
            StartAttempt::First(first) => {
                match first.source {
                    DeviceSource::Fallback => Err(AudioError::StreamStartFailed),
                    _ => {
                        match select_fallback_device(Some(first.name.as_str()), inventory) {
                            Ok(selection) => Ok(StartAttempt::Retry(selection)),
                            Err(e) => Err(e),
                        }
                    },
                }
            },
        }
    }
}

/// The rate at which `frames` frames arrived over `nanos` nanoseconds, in
/// Hz, rounded to the nearest integer and capped at `u32::MAX`.
pub open spec fn measured_rate(frames: u64, nanos: u64) -> u32
    recommends
        nanos > 0,
{
    let rate = (2 * frames * 1_000_000_000 + nanos) / (2 * nanos);
    if rate > u32::MAX {
        u32::MAX
    } else {
        rate as u32
    }
}

/// The sum of two counters, capped at `u64::MAX`.
pub open spec fn capped_sum(a: u64, b: u64) -> u64 {
    if a + b > u64::MAX {
        u64::MAX
    } else {
        (a + b) as u64
    }
}

/// Measures the rate at which samples really arrive.
///
/// Frames and time between consecutive capture timestamps are accumulated;
/// once at least 50 ms have been covered, the rate over that window becomes
/// the measurement and the window starts anew.
#[derive(Debug, Clone, Copy, PartialEq, Eq, Structural)]
pub struct SampleRateTracker {
    pub requested: u32,
    pub channels: u16,
    pub last_capture: Option<u64>,
    pub accumulated_frames: u64,
    pub accumulated_nanos: u64,
    pub measured: Option<u32>,
}

impl SampleRateTracker {
    /// Number of frames in a block of `data_len` samples: one frame holds a
    /// sample of each channel, and a stream without channels counts as mono.
    pub open spec fn frames_in(self, data_len: usize) -> u64 {
        if self.channels <= 1 {
            data_len as u64
        } else {
            (data_len as int / self.channels as int) as u64
        }
    }

    /// The tracker after a block of `data_len` samples captured at `capture`.
    ///
    /// The first block only sets the reference time, and so does a block whose
    /// timestamp lies before the previous one. A window that closes with no
    /// frame, or with a rate that rounds to zero, leaves the measurement as it
    /// was.
    pub open spec fn after_update(self, data_len: usize, capture: u64) -> SampleRateTracker {
        if self.last_capture is Some && capture >= self.last_capture->0 {
            let frames = capped_sum(self.accumulated_frames, self.frames_in(data_len));
            let nanos = capped_sum(
                self.accumulated_nanos,
                (capture - self.last_capture->0) as u64,
            );
            if nanos >= MEASUREMENT_WINDOW_NANOS {
                SampleRateTracker {
                    last_capture: Some(capture),
                    accumulated_frames: 0,
                    accumulated_nanos: 0,
                    measured: if measured_rate(frames, nanos) > 0 {
                        Some(measured_rate(frames, nanos))
                    } else {
                        self.measured
                    },
                    ..self
                }
            } else {
                SampleRateTracker {
                    last_capture: Some(capture),
                    accumulated_frames: frames,
                    accumulated_nanos: nanos,
                    ..self
                }
            }
        } else {
            SampleRateTracker { last_capture: Some(capture), ..self }
        }
    }

    /// The measured rate, or the requested one while nothing was measured.
    pub open spec fn spec_sample_rate(self) -> u32 {
        match self.measured {
            Some(rate) => rate,
            None => self.requested,
        }
    }

    /// Every measurement held is positive.
    pub open spec fn well_formed(self) -> bool {
        self.measured is Some ==> self.measured->0 > 0
    }

    /// A tracker that has seen no block yet.
    pub fn new(requested: u32, channels: u16) -> (out: Self)
        ensures
            out == (SampleRateTracker {
                requested,
                channels,
                last_capture: None,
                accumulated_frames: 0,
                accumulated_nanos: 0,
                measured: None,
            }),
            out.well_formed(),
    {
        SampleRateTracker {
            requested,
            channels,
            last_capture: None,
            accumulated_frames: 0,
            accumulated_nanos: 0,
            measured: None,
        }
    }

    /// Computes [`measured_rate`].
    pub fn rate_over(frames: u64, nanos: u64) -> (rate: u32)
        requires
            nanos > 0,
        ensures
            rate == measured_rate(frames, nanos),
    {
        let doubled: u128 = 2 * (frames as u128) * 1_000_000_000 + nanos as u128;
        let wide: u128 = doubled / (2 * (nanos as u128));
        if wide > u32::MAX as u128 {
            u32::MAX
        } else {
            wide as u32
        }
    }

    /// Takes a block of `data_len` samples captured at `capture` into account.
    pub fn update(&mut self, data_len: usize, capture: u64)
        ensures
            *final(self) == old(self).after_update(data_len, capture),
            old(self).well_formed() ==> final(self).well_formed(),
    {
        if let Some(prev) = self.last_capture {
            if capture >= prev {
                let frames: u64 = if self.channels <= 1 {
                    data_len as u64
                } else {
                    (data_len / self.channels as usize) as u64
                };
                self.accumulated_frames = self.accumulated_frames.saturating_add(frames);
                self.accumulated_nanos = self.accumulated_nanos.saturating_add(capture - prev);
                if self.accumulated_nanos >= MEASUREMENT_WINDOW_NANOS {
                    let rate = Self::rate_over(self.accumulated_frames, self.accumulated_nanos);
                    if rate > 0 {
                        self.measured = Some(rate);
                    }
                    self.accumulated_frames = 0;
                    self.accumulated_nanos = 0;
                }
            }
        }
        self.last_capture = Some(capture);
    }

    /// The measured rate, or the requested one while nothing was measured.
    pub fn sample_rate(&self) -> (rate: u32)
        ensures
            rate == self.spec_sample_rate(),
    {
        match self.measured {
            Some(rate) => rate,
            None => self.requested,
        }
    }
}

/// Samples of one recording with the rate they were captured at.
#[derive(Debug, Clone)]
pub struct CapturedAudio<S> {
    pub samples: Vec<S>,
    pub sample_rate: u32,
}

impl<S> CapturedAudio<S> {
    /// A recording that holds samples has a positive rate.
    pub open spec fn well_formed(&self) -> bool {
        self.samples@.len() > 0 ==> self.sample_rate > 0
    }

    /// Length of the recording in milliseconds, rounded down; zero for a
    /// recording without a rate.
    pub open spec fn spec_duration_millis(&self) -> nat {
        if self.sample_rate > 0 {
            self.samples@.len() * 1000 / (self.sample_rate as nat)
        } else {
            0
        }
    }

    /// Whether the recording holds no sample.
    pub fn is_empty(&self) -> (out: bool)
        ensures
            out == (self.samples@.len() == 0),
    {
        self.samples.len() == 0
    }

    /// Number of samples.
    pub fn len(&self) -> (out: usize)
        ensures
            out == self.samples@.len(),
    {
        self.samples.len()
    }

    /// Length of the recording in milliseconds; never divides by a zero rate.
    pub fn duration_millis(&self) -> (out: u128)
        ensures
            out == self.spec_duration_millis(),
    {
        if self.sample_rate > 0 {
            (self.samples.len() as u128 * 1000) / (self.sample_rate as u128)
        } else {
            0
        }
    }
}

/// An open recording: the samples captured so far and the rate tracker.
///
/// The hardware stream lives with the caller, who passes each block of
/// samples to [`RecordingSession::on_audio`] and ends the recording with
/// [`RecordingSession::stop`].
#[derive(Debug, Clone)]
pub struct RecordingSession<S> {
    audio_data: Vec<S>,
    sample_rate_tracker: SampleRateTracker,
    requested_sample_rate: u32,
}

impl<S: Copy> RecordingSession<S> {
    /// The samples captured so far.
    pub closed spec fn buffered(&self) -> Seq<S> {
        self.audio_data@
    }

    /// The rate tracker.
    pub closed spec fn tracker(&self) -> SampleRateTracker {
        self.sample_rate_tracker
    }

    /// The rate the stream was requested at.
    pub closed spec fn requested(&self) -> u32 {
        self.requested_sample_rate
    }

    /// The recording will end with a positive rate: it was requested at one,
    /// and no measurement held is zero.
    pub open spec fn rate_is_positive(&self) -> bool {
        self.tracker().well_formed() && self.tracker().requested > 0
    }

    /// Opens the bookkeeping for a stream with these settings.
    pub fn new(settings: StreamSettings) -> (out: Self)
        ensures
            out.buffered() == Seq::<S>::empty(),
            out.tracker() == (SampleRateTracker {
                requested: settings.sample_rate,
                channels: settings.channels,
                last_capture: None,
                accumulated_frames: 0,
                accumulated_nanos: 0,
                measured: None,
            }),
            out.requested() == settings.sample_rate,
            out.rate_is_positive() == (settings.sample_rate > 0),
    {
        RecordingSession {
            audio_data: Vec::new(),
            sample_rate_tracker: SampleRateTracker::new(settings.sample_rate, settings.channels),
            requested_sample_rate: settings.sample_rate,
        }
    }

    /// Takes one block of samples from the hardware callback: updates the rate
    /// tracker and appends the samples.
    pub fn on_audio(&mut self, data: &[S], capture: u64)
        ensures
            final(self).buffered() == old(self).buffered() + data@,
            final(self).tracker() == old(self).tracker().after_update(data@.len() as usize, capture),
            final(self).requested() == old(self).requested(),
            old(self).rate_is_positive() ==> final(self).rate_is_positive(),
    {
        self.sample_rate_tracker.update(data.len(), capture);
        let ghost before = self.audio_data@;
        let mut i: usize = 0;
        while i < data.len()
            invariant
                i <= data.len(),
                self.audio_data@ == before + data@.take(i as int),
                self.sample_rate_tracker == old(self).sample_rate_tracker.after_update(
                    data@.len() as usize,
                    capture,
                ),
                self.requested_sample_rate == old(self).requested_sample_rate,
                old(self).rate_is_positive() ==> self.rate_is_positive(),
            decreases data.len() - i,
        {
            self.audio_data.push(data[i]);
            assert(before + data@.take(i + 1) =~= (before + data@.take(i as int)).push(
                data@[i as int],
            ));
            i += 1;
        }
        assert(data@.take(data.len() as int) =~= data@);
    }

    /// Number of samples captured so far.
    pub fn buffered_len(&self) -> (out: usize)
        ensures
            out == self.buffered().len(),
    {
        self.audio_data.len()
    }

    /// The range of buffered samples that the level meter looks at: the most
    /// recent 1024, or all of them while there are fewer.
    pub fn level_window(&self) -> (out: (usize, usize))
        ensures
            out.1 == self.buffered().len(),
            out.0 == if self.buffered().len() > LEVEL_WINDOW_SAMPLES {
                self.buffered().len() - LEVEL_WINDOW_SAMPLES
            } else {
                0
            },
    {
        let len = self.audio_data.len();
        let start: usize = if len > LEVEL_WINDOW_SAMPLES {
            len - LEVEL_WINDOW_SAMPLES
        } else {
            0
        };
        (start, len)
    }

    /// The samples that the level meter looks at.
    pub fn level_samples(&self) -> (out: Vec<S>)
        ensures
            out@ == self.buffered().skip(
                if self.buffered().len() > LEVEL_WINDOW_SAMPLES {
                    self.buffered().len() - LEVEL_WINDOW_SAMPLES
                } else {
                    0
                },
            ),
    {
        let (start, end) = self.level_window();
        let mut out: Vec<S> = Vec::new();
        let mut i: usize = start;
        while i < end
            invariant
                start <= i <= end,
                end == self.audio_data@.len(),
                out@ == self.audio_data@.subrange(start as int, i as int),
            decreases end - i,
        {
            out.push(self.audio_data[i]);
            assert(self.audio_data@.subrange(start as int, i + 1) =~= self.audio_data@.subrange(
                start as int,
                i as int,
            ).push(self.audio_data@[i as int]));
            i += 1;
        }
        assert(self.audio_data@.subrange(start as int, end as int) =~= self.audio_data@.skip(
            start as int,
        ));
        out
    }

    /// Ends the recording and hands the samples out with the measured rate,
    /// or with the requested rate when no measurement window was completed.
    /// A recording that was requested at a positive rate has a positive rate,
    /// whether or not it holds samples.
    pub fn stop(self) -> (out: CapturedAudio<S>)
        ensures
            out.samples@ == self.buffered(),
            out.sample_rate == self.tracker().spec_sample_rate(),
            self.rate_is_positive() ==> out.sample_rate > 0 && out.well_formed(),
    {
        let sample_rate = self.sample_rate_tracker.sample_rate();
        CapturedAudio { samples: self.audio_data, sample_rate }
    }
}

/// Blocks of audio never make a well-formed tracker hold a zero measurement,
/// so a recording requested at a positive rate always ends with a positive
/// rate, whether or not it holds samples.
pub proof fn law_positive_rate(tracker: SampleRateTracker, data_len: usize, capture: u64)
    requires
        tracker.well_formed(),
        tracker.requested > 0,
    ensures
        tracker.after_update(data_len, capture).well_formed(),
        tracker.after_update(data_len, capture).requested == tracker.requested,
        tracker.spec_sample_rate() > 0,
        tracker.after_update(data_len, capture).spec_sample_rate() > 0,
{
}

/// A window that covers at least 50 ms and holds exactly `rate * nanos / 10^9`
/// frames measures exactly `rate`.
pub proof fn law_exact_rate_is_measured(rate: u32, nanos: u64, frames: u64)
    requires
        nanos > 0,
        frames * 1_000_000_000 == rate * nanos,
    ensures
        measured_rate(frames, nanos) == rate,
{
    assert((2 * frames * 1_000_000_000 + nanos) / (2 * nanos) == rate) by (nonlinear_arith)
        requires
            nanos > 0,
            frames * 1_000_000_000 == rate * nanos,
    ;
}

} // verus!
