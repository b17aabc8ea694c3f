//! The recording life cycle.
//!
//! One owner holds the state: idle, recording (with the kind of shortcut that
//! started it) or processing. Shortcut events and the results of the
//! processing stages are the only things that move it. The owner decides; the
//! caller opens and closes the stream, runs the stages and reports back.

use crate::audio::{AudioCapture, CapturedAudio};
use crate::resample::{resample, resampled_len, spec_tap};
use crate::shortcuts::{ShortcutEvent, ShortcutKind, ShortcutPhase};
use crate::text::{chars_of, spec_trim, text_view, trim};
use crate::transcription::TranscriptionProvider;
use vstd::prelude::*;

verus! {

/// Rate that the transcription backends take, in Hz.
pub const TRANSCRIPTION_SAMPLE_RATE: u32 = 16_000;

/// The kind of shortcut that started the current recording.
#[derive(Debug, Clone, Copy, PartialEq, Eq, Structural)]
pub enum RecordingTrigger {
    HoldShortcut,
    PressShortcut,
}

/// A stage of the processing pipeline.
#[derive(Debug, Clone, Copy, PartialEq, Eq, Structural)]
pub enum PipelineStage {
    /// Trimming silence, where configured.
    Preprocess,
    /// Resampling to 16 kHz and transcribing.
    Transcribe,
    /// Injecting the text.
    Inject,
}

/// How a pipeline stage ended.
#[derive(Debug, Clone, Copy, PartialEq, Eq, Structural)]
pub enum StageOutcome {
    /// The stage produced something for the next stage.
    Completed,
    /// The stage left nothing to go on with: only silence, or no text.
    NothingLeft,
    /// The stage failed.
    Failed,
}

/// Where the life cycle stands.
#[derive(Debug, Clone, Copy, PartialEq, Eq, Structural)]
pub enum RecorderState {
    Idle,
    Recording(RecordingTrigger),
    Processing(PipelineStage),
}

/// What a shortcut event asks of the caller.
#[derive(Debug, Clone, Copy, PartialEq, Eq, Structural)]
pub enum ShortcutAction {
    /// Open a session and report it with [`HyprwhsprApp::recording_started`].
    StartRecording(RecordingTrigger),
    /// Stop the session and report it with [`HyprwhsprApp::recording_stopped`].
    StopRecording,
    /// Ignored: the previous recording is still being processed.
    IgnoredWhileProcessing,
    /// Ignored: a hold shortcut cannot start a second recording.
    IgnoredAlreadyRecording,
    /// Ignored: no recording that a hold shortcut started is active.
    IgnoredRelease,
    /// Ignored: the event has no meaning (the release of a press shortcut).
    Ignored,
}

/// The action that a shortcut event calls for in a state.
pub open spec fn decide(state: RecorderState, kind: ShortcutKind, phase: ShortcutPhase) -> ShortcutAction {
    match (kind, phase) {
        (ShortcutKind::Press, ShortcutPhase::Start) => match state {
            RecorderState::Processing(_) => ShortcutAction::IgnoredWhileProcessing,
            RecorderState::Recording(_) => ShortcutAction::StopRecording,
            RecorderState::Idle => ShortcutAction::StartRecording(RecordingTrigger::PressShortcut),
        },
        (ShortcutKind::Hold, ShortcutPhase::Start) => match state {
            RecorderState::Processing(_) => ShortcutAction::IgnoredWhileProcessing,
            RecorderState::Recording(_) => ShortcutAction::IgnoredAlreadyRecording,
            RecorderState::Idle => ShortcutAction::StartRecording(RecordingTrigger::HoldShortcut),
        },
        (ShortcutKind::Hold, ShortcutPhase::End) => match state {
            RecorderState::Recording(RecordingTrigger::HoldShortcut) => ShortcutAction::StopRecording,
            _ => ShortcutAction::IgnoredRelease,
        },
        (ShortcutKind::Press, ShortcutPhase::End) => ShortcutAction::Ignored,
    }
}

/// The state after a session was opened for `trigger`: only an idle owner
/// takes it.
pub open spec fn after_start(state: RecorderState, trigger: RecordingTrigger) -> RecorderState {
    match state {
        RecorderState::Idle => RecorderState::Recording(trigger),
        _ => state,
    }
}

/// The state after the session was stopped with `captured` samples: audio
/// goes to the pipeline, an empty recording straight back to idle.
pub open spec fn after_stop(state: RecorderState, captured: nat) -> RecorderState {
    match state {
        RecorderState::Recording(_) => if captured > 0 {
            RecorderState::Processing(PipelineStage::Preprocess)
        } else {
            RecorderState::Idle
        },
        _ => state,
    }
}

/// The stage that follows `stage`, if the pipeline goes on.
pub open spec fn next_stage(stage: PipelineStage, outcome: StageOutcome) -> Option<PipelineStage> {
    match (stage, outcome) {
        (PipelineStage::Preprocess, StageOutcome::Completed) => Some(PipelineStage::Transcribe),
        (PipelineStage::Transcribe, StageOutcome::Completed) => Some(PipelineStage::Inject),
        _ => None,
    }
}

/// The state after a pipeline stage ended.
pub open spec fn after_outcome(state: RecorderState, outcome: StageOutcome) -> RecorderState {
    match state {
        RecorderState::Processing(stage) => match next_stage(stage, outcome) {
            Some(next) => RecorderState::Processing(next),
            None => RecorderState::Idle,
        },
        _ => state,
    }
}

/// The binding that a shortcut listener serves.
#[derive(Debug, Clone)]
pub struct ShortcutListener {
    shortcut: String,
    kind: ShortcutKind,
    stopped: bool,
}

/// A listener as contracts see it.
pub struct ListenerView {
    pub shortcut: Seq<char>,
    pub kind: ShortcutKind,
    pub stopped: bool,
}

impl View for ShortcutListener {
    type V = ListenerView;

    closed spec fn view(&self) -> ListenerView {
        ListenerView { shortcut: self.shortcut@, kind: self.kind, stopped: self.stopped }
    }
}

impl ShortcutListener {
    /// A running listener for `shortcut`.
    pub fn spawn(shortcut: String, kind: ShortcutKind) -> (out: Self)
        ensures
            out@ == (ListenerView { shortcut: shortcut@, kind, stopped: false }),
    {
        ShortcutListener { shortcut, kind, stopped: false }
    }

    /// Stops the listener and starts it anew for `shortcut`.
    pub fn restart(&mut self, shortcut: String, kind: ShortcutKind)
        ensures
            final(self)@ == (ListenerView { shortcut: shortcut@, kind, stopped: false }),
    {
        self.stop();
        *self = Self::spawn(shortcut, kind);
    }

    /// Marks the listener stopped. Returns whether it was running, that is
    /// whether there is a thread to join; stopping twice is harmless.
    pub fn stop(&mut self) -> (was_running: bool)
        ensures
            final(self)@ == (ListenerView { stopped: true, ..old(self)@ }),
            was_running == !old(self)@.stopped,
    {
        let was_running = !self.stopped;
        self.stopped = true;
        was_running
    }

    /// Whether the listener serves exactly this binding.
    pub fn matches(&self, shortcut: &str, kind: ShortcutKind) -> (out: bool)
        ensures
            out == (self@.shortcut == shortcut@ && self@.kind == kind),
    {
        crate::text::str_eq(self.shortcut.as_str(), shortcut) && self.kind == kind
    }

    /// The shortcut that the listener serves.
    pub fn shortcut(&self) -> (out: &String)
        ensures
            out@ == self@.shortcut,
    {
        &self.shortcut
    }

    /// The kind of the binding.
    pub fn kind(&self) -> (out: ShortcutKind)
        ensures
            out == self@.kind,
    {
        self.kind
    }

    /// Whether the listener was stopped.
    pub fn is_stopped(&self) -> (out: bool)
        ensures
            out == self@.stopped,
    {
        self.stopped
    }
}

/// What to do with the listener of one binding kind.
#[derive(Debug, Clone, Copy, PartialEq, Eq, Structural)]
pub enum ListenerAction {
    /// The running listener serves the binding already.
    Keep,
    /// Stop the running listener and start one for the new shortcut.
    Restart,
    /// Start a listener; none was running.
    Spawn,
    /// Stop the running listener; the binding is no longer configured.
    Stop,
    /// Nothing is configured and nothing runs.
    Nothing,
}

/// The action that brings the listener in `slot` in line with `desired`.
pub open spec fn listener_action(
    slot: Option<ListenerView>,
    desired: Option<Seq<char>>,
    kind: ShortcutKind,
) -> ListenerAction {
    match (desired, slot) {
        (Some(target), Some(listener)) => if listener.shortcut == target && listener.kind == kind {
            ListenerAction::Keep
        } else {
            ListenerAction::Restart
        },
        (Some(_), None) => ListenerAction::Spawn,
        (None, Some(_)) => ListenerAction::Stop,
        (None, None) => ListenerAction::Nothing,
    }
}

/// The listener in a slot after [`listener_action`] was carried out.
pub open spec fn listener_after(
    slot: Option<ListenerView>,
    desired: Option<Seq<char>>,
    kind: ShortcutKind,
) -> Option<ListenerView> {
    match (desired, slot) {
        (Some(target), Some(listener)) => if listener.shortcut == target && listener.kind == kind {
            slot
        } else {
            Some(ListenerView { shortcut: target, kind, stopped: false })
        },
        (Some(target), None) => Some(ListenerView { shortcut: target, kind, stopped: false }),
        (None, _) => None,
    }
}

/// The configured shortcuts.
#[derive(Debug, Clone)]
pub struct ShortcutsConfig {
    pub press: Option<String>,
    pub hold: Option<String>,
}

/// The settings that the life cycle depends on.
#[derive(Debug, Clone)]
pub struct Config {
    /// Index of the preferred input device.
    pub audio_device: Option<usize>,
    pub shortcuts: ShortcutsConfig,
    /// Whether silence is trimmed before transcription.
    pub fast_vad_enabled: bool,
    pub provider: TranscriptionProvider,
    /// Whether the whisper backend runs its own voice detection.
    pub whisper_vad_enabled: bool,
}

/// Settings as contracts see them.
pub struct ConfigView {
    pub audio_device: Option<usize>,
    pub press: Option<Seq<char>>,
    pub hold: Option<Seq<char>>,
    pub fast_vad_enabled: bool,
    pub provider: TranscriptionProvider,
    pub whisper_vad_enabled: bool,
}

impl View for Config {
    type V = ConfigView;

    open spec fn view(&self) -> ConfigView {
        ConfigView {
            audio_device: self.audio_device,
            press: text_view(self.shortcuts.press),
            hold: text_view(self.shortcuts.hold),
            fast_vad_enabled: self.fast_vad_enabled,
            provider: self.provider,
            whisper_vad_enabled: self.whisper_vad_enabled,
        }
    }
}

/// Whether the whisper backend's own voice detection is in the way of
/// trimming.
pub open spec fn vad_conflict(config: ConfigView) -> bool {
    config.fast_vad_enabled && config.provider == TranscriptionProvider::WhisperCpp
        && config.whisper_vad_enabled
}

/// Whether silence may be trimmed: it must be switched on, and the whisper
/// backend must not run its own voice detection.
pub open spec fn spec_fast_vad_allowed(config: ConfigView) -> bool {
    config.fast_vad_enabled && !vad_conflict(config)
}

/// Whether silence may be trimmed under `config`.
pub fn fast_vad_allowed(config: &Config) -> (out: bool)
    ensures
        out == spec_fast_vad_allowed(config@),
{
    if !config.fast_vad_enabled {
        return false;
    }
    if config.provider == TranscriptionProvider::WhisperCpp && config.whisper_vad_enabled {
        return false;
    }
    true
}

/// Whether two optional strings hold the same characters.
fn same_text(a: &Option<String>, b: &Option<String>) -> (same: bool)
    ensures
        same == (text_view(*a) == text_view(*b)),
{
    match (a, b) {
        (Some(x), Some(y)) => crate::text::str_eq(x.as_str(), y.as_str()),
        (None, None) => true,
        _ => false,
    }
}

/// Whether two configurations agree in every setting.
fn same_config(a: &Config, b: &Config) -> (same: bool)
    ensures
        same == (a@ == b@),
{
    a.audio_device == b.audio_device && same_text(&a.shortcuts.press, &b.shortcuts.press)
        && same_text(&a.shortcuts.hold, &b.shortcuts.hold) && a.fast_vad_enabled
        == b.fast_vad_enabled && a.provider == b.provider && a.whisper_vad_enabled
        == b.whisper_vad_enabled
}

/// What changed outside the settings that the library holds.
#[derive(Debug, Clone, Copy, PartialEq, Eq, Structural)]
pub struct ConfigDelta {
    /// The tuning of the silence trimmer differs.
    pub vad_settings_changed: bool,
    /// Some other setting differs.
    pub other_changed: bool,
}

/// What becomes of the silence trimmer on a configuration change.
#[derive(Debug, Clone, Copy, PartialEq, Eq, Structural)]
pub enum VadChange {
    /// Drop it. `conflict` says that the whisper backend's own detection is
    /// the reason; `was_in_use` that it was there or allowed before.
    Disable { conflict: bool, was_in_use: bool },
    /// Build it anew from the new settings.
    Rebuild,
    /// Leave it as it is.
    Keep,
}

/// The steps that carry a configuration change out.
#[derive(Debug, Clone, Copy, PartialEq, Eq, Structural)]
pub struct ConfigUpdate {
    /// The preferred input device changed; it counts from the next recording.
    pub device_changed: bool,
    /// What to do with the press listener; `None` when the listeners are left
    /// alone.
    pub press: Option<ListenerAction>,
    /// What to do with the hold listener.
    pub hold: Option<ListenerAction>,
    pub vad: VadChange,
}

/// What the owner makes of a new configuration.
#[derive(Debug, Clone, Copy, PartialEq, Eq, Structural)]
pub enum ConfigDecision {
    /// Nothing differs.
    Unchanged,
    /// A recording or the pipeline is in flight: the change is rejected.
    RejectedBusy,
    /// The change was taken over; carry these steps out.
    Apply(ConfigUpdate),
}

/// Whether the listeners must be looked at on a change from `current` to
/// `new`.
pub open spec fn shortcuts_need_update(
    current: ConfigView,
    new: ConfigView,
    press: Option<ListenerView>,
    hold: Option<ListenerView>,
) -> bool {
    new.press != current.press || new.hold != current.hold || press is None || (new.hold is Some
        && hold is None)
}

/// What becomes of the silence trimmer on a change from `current` to `new`.
pub open spec fn vad_change(
    current: ConfigView,
    new: ConfigView,
    vad_present: bool,
    vad_settings_changed: bool,
) -> VadChange {
    if !spec_fast_vad_allowed(new) {
        VadChange::Disable {
            conflict: vad_conflict(new),
            was_in_use: vad_present || (spec_fast_vad_allowed(current)
                && current.fast_vad_enabled),
        }
    } else if !spec_fast_vad_allowed(current) || vad_settings_changed || current.fast_vad_enabled
        != new.fast_vad_enabled || !vad_present {
        VadChange::Rebuild
    } else {
        VadChange::Keep
    }
}

/// The owner of the recording life cycle.
pub struct HyprwhsprApp {
    audio_capture: AudioCapture,
    state: RecorderState,
    press_listener: Option<ShortcutListener>,
    hold_listener: Option<ShortcutListener>,
    current_config: Config,
}

/// The owner as contracts see it.
pub struct AppView {
    pub capture: AudioCapture,
    pub state: RecorderState,
    pub press: Option<ListenerView>,
    pub hold: Option<ListenerView>,
    pub config: ConfigView,
}

/// A listener slot as contracts see it.
pub open spec fn slot_view(slot: Option<ShortcutListener>) -> Option<ListenerView> {
    match slot {
        Some(listener) => Some(listener@),
        None => None,
    }
}

impl View for HyprwhsprApp {
    type V = AppView;

    closed spec fn view(&self) -> AppView {
        AppView {
            capture: self.audio_capture,
            state: self.state,
            press: slot_view(self.press_listener),
            hold: slot_view(self.hold_listener),
            config: self.current_config@,
        }
    }
}

/// What shutting down asks of the caller.
#[derive(Debug, Clone, Copy, PartialEq, Eq, Structural)]
pub struct CleanupPlan {
    /// A recording was open: drop the session and reset the status.
    pub close_session: bool,
    /// The press listener was running: join its thread.
    pub join_press: bool,
    /// The hold listener was running: join its thread.
    pub join_hold: bool,
}

/// Brings one listener slot in line with the desired shortcut.
fn ensure_slot(slot: &mut Option<ShortcutListener>, kind: ShortcutKind, shortcut: &Option<String>) -> (action:
    ListenerAction)
    ensures
        action == listener_action(slot_view(*old(slot)), text_view(*shortcut), kind),
        slot_view(*final(slot)) == listener_after(
            slot_view(*old(slot)),
            text_view(*shortcut),
            kind,
        ),
{
    match shortcut {
        Some(target) => {
            let current = slot.take();
            match current {
                Some(mut listener) => {
                    if listener.matches(target.as_str(), kind) {
                        *slot = Some(listener);
                        ListenerAction::Keep
                    } else {
                        listener.restart(target.clone(), kind);
                        *slot = Some(listener);
                        ListenerAction::Restart
                    }
                },
                None => {
                    *slot = Some(ShortcutListener::spawn(target.clone(), kind));
                    ListenerAction::Spawn
                },
            }
        },
        None => {
            let current = slot.take();
            match current {
                Some(mut listener) => {
                    listener.stop();
                    ListenerAction::Stop
                },
                None => ListenerAction::Nothing,
            }
        },
    }
}

impl HyprwhsprApp {
    /// An idle owner without listeners.
    pub fn new(audio_capture: AudioCapture, config: Config) -> (out: Self)
        ensures
            out@ == (AppView {
                capture: audio_capture,
                state: RecorderState::Idle,
                press: None,
                hold: None,
                config: config@,
            }),
    {
        HyprwhsprApp {
            audio_capture,
            state: RecorderState::Idle,
            press_listener: None,
            hold_listener: None,
            current_config: config,
        }
    }

    /// Where the life cycle stands.
    pub fn state(&self) -> (out: RecorderState)
        ensures
            out == self@.state,
    {
        self.state
    }

    /// The device preference and nominal rate for the next recording.
    pub fn audio_capture(&self) -> (out: AudioCapture)
        ensures
            out == self@.capture,
    {
        self.audio_capture
    }

    /// The configuration in force.
    pub fn config(&self) -> (out: &Config)
        ensures
            out@ == self@.config,
    {
        &self.current_config
    }

    /// Whether a recording is open.
    pub fn is_recording(&self) -> (out: bool)
        ensures
            out == (self@.state is Recording),
    {
        match self.state {
            RecorderState::Recording(_) => true,
            _ => false,
        }
    }

    /// Whether the pipeline is running.
    pub fn is_processing(&self) -> (out: bool)
        ensures
            out == (self@.state is Processing),
    {
        match self.state {
            RecorderState::Processing(_) => true,
            _ => false,
        }
    }

    /// Says what a shortcut event calls for. The state moves only when the
    /// caller reports what it did.
    pub fn handle_shortcut(&self, event: &ShortcutEvent) -> (action: ShortcutAction)
        ensures
            action == decide(self@.state, event.kind, event.phase),
    {
        match (event.kind, event.phase) {
            (ShortcutKind::Press, ShortcutPhase::Start) => match self.state {
                RecorderState::Processing(_) => ShortcutAction::IgnoredWhileProcessing,
                RecorderState::Recording(_) => ShortcutAction::StopRecording,
                RecorderState::Idle => ShortcutAction::StartRecording(
                    RecordingTrigger::PressShortcut,
                ),
            },
            (ShortcutKind::Hold, ShortcutPhase::Start) => match self.state {
                RecorderState::Processing(_) => ShortcutAction::IgnoredWhileProcessing,
                RecorderState::Recording(_) => ShortcutAction::IgnoredAlreadyRecording,
                RecorderState::Idle => ShortcutAction::StartRecording(
                    RecordingTrigger::HoldShortcut,
                ),
            },
            (ShortcutKind::Hold, ShortcutPhase::End) => match self.state {
                RecorderState::Recording(RecordingTrigger::HoldShortcut) => {
                    ShortcutAction::StopRecording
                },
                _ => ShortcutAction::IgnoredRelease,
            },
            (ShortcutKind::Press, ShortcutPhase::End) => ShortcutAction::Ignored,
        }
    }

    /// Says what a toggle without a shortcut calls for: the same as the press
    /// shortcut does.
    pub fn toggle_recording(&self) -> (action: ShortcutAction)
        ensures
            action == decide(self@.state, ShortcutKind::Press, ShortcutPhase::Start),
    {
        match self.state {
            RecorderState::Processing(_) => ShortcutAction::IgnoredWhileProcessing,
            RecorderState::Recording(_) => ShortcutAction::StopRecording,
            RecorderState::Idle => ShortcutAction::StartRecording(RecordingTrigger::PressShortcut),
        }
    }

    /// Takes note that a session was opened for `trigger`. Only an idle owner
    /// takes it; returns whether it did.
    pub fn recording_started(&mut self, trigger: RecordingTrigger) -> (accepted: bool)
        ensures
            accepted == (old(self)@.state is Idle),
            final(self)@ == (AppView {
                state: after_start(old(self)@.state, trigger),
                ..old(self)@
            }),
    {
        match self.state {
            RecorderState::Idle => {
                self.state = RecorderState::Recording(trigger);
                true
            },
            _ => false,
        }
    }

    /// Takes note that the session was stopped and yielded `captured`
    /// samples. Returns whether the pipeline is to run on them.
    pub fn recording_stopped(&mut self, captured: usize) -> (process: bool)
        ensures
            process == (old(self)@.state is Recording && captured > 0),
            final(self)@ == (AppView {
                state: after_stop(old(self)@.state, captured as nat),
                ..old(self)@
            }),
    {
        match self.state {
            RecorderState::Recording(_) => {
                if captured > 0 {
                    self.state = RecorderState::Processing(PipelineStage::Preprocess);
                    true
                } else {
                    self.state = RecorderState::Idle;
                    false
                }
            },
            _ => false,
        }
    }

    /// Takes note of how the current pipeline stage ended and returns the
    /// stage to run next. `None` means that the pipeline is over and the
    /// owner idle again; a failed stage always ends it.
    pub fn stage_finished(&mut self, outcome: StageOutcome) -> (next: Option<PipelineStage>)
        ensures
            final(self)@ == (AppView {
                state: after_outcome(old(self)@.state, outcome),
                ..old(self)@
            }),
            next == match old(self)@.state {
                RecorderState::Processing(stage) => next_stage(stage, outcome),
                _ => None,
            },
    {
        match self.state {
            RecorderState::Processing(stage) => {
                let next = match (stage, outcome) {
                    (PipelineStage::Preprocess, StageOutcome::Completed) => Some(
                        PipelineStage::Transcribe,
                    ),
                    (PipelineStage::Transcribe, StageOutcome::Completed) => Some(
                        PipelineStage::Inject,
                    ),
                    _ => None,
                };
                match next {
                    Some(stage) => {
                        self.state = RecorderState::Processing(stage);
                    },
                    None => {
                        self.state = RecorderState::Idle;
                    },
                }
                next
            },
            _ => None,
        }
    }

    /// Brings the listener of `kind` in line with `shortcut` and says what
    /// the caller has to do with the listener's thread.
    pub fn ensure_listener(&mut self, kind: ShortcutKind, shortcut: &Option<String>) -> (action:
        ListenerAction)
        ensures
            match kind {
                ShortcutKind::Press => action == listener_action(
                    old(self)@.press,
                    text_view(*shortcut),
                    kind,
                ) && final(self)@ == (AppView {
                    press: listener_after(old(self)@.press, text_view(*shortcut), kind),
                    ..old(self)@
                }),
                ShortcutKind::Hold => action == listener_action(
                    old(self)@.hold,
                    text_view(*shortcut),
                    kind,
                ) && final(self)@ == (AppView {
                    hold: listener_after(old(self)@.hold, text_view(*shortcut), kind),
                    ..old(self)@
                }),
            },
    {
        match kind {
            ShortcutKind::Press => ensure_slot(&mut self.press_listener, kind, shortcut),
            ShortcutKind::Hold => ensure_slot(&mut self.hold_listener, kind, shortcut),
        }
    }

    /// Brings both listeners in line with `shortcuts`; returns the actions
    /// for the press and for the hold listener.
    pub fn ensure_shortcut_listeners(&mut self, shortcuts: &ShortcutsConfig) -> (actions: (
        ListenerAction,
        ListenerAction,
    ))
        ensures
            actions.0 == listener_action(
                old(self)@.press,
                text_view(shortcuts.press),
                ShortcutKind::Press,
            ),
            actions.1 == listener_action(
                old(self)@.hold,
                text_view(shortcuts.hold),
                ShortcutKind::Hold,
            ),
            final(self)@ == (AppView {
                press: listener_after(
                    old(self)@.press,
                    text_view(shortcuts.press),
                    ShortcutKind::Press,
                ),
                hold: listener_after(
                    old(self)@.hold,
                    text_view(shortcuts.hold),
                    ShortcutKind::Hold,
                ),
                ..old(self)@
            }),
    {
        let press = self.ensure_listener(ShortcutKind::Press, &shortcuts.press);
        let hold = self.ensure_listener(ShortcutKind::Hold, &shortcuts.hold);
        (press, hold)
    }

    /// Whether a configuration change would be taken now: never while a
    /// recording or the pipeline is in flight.
    pub fn config_update_allowed(&self) -> (out: bool)
        ensures
            out == (self@.state is Idle),
    {
        match self.state {
            RecorderState::Idle => true,
            _ => false,
        }
    }

    /// Takes a new configuration in.
    ///
    /// A configuration that differs in nothing is ignored, and so is any
    /// change while a recording or the pipeline is in flight. Otherwise the
    /// new configuration is taken over: the device preference is updated for
    /// the next recording, the listeners are brought in line where the
    /// shortcuts changed or a listener is missing, and the fate of the
    /// silence trimmer is decided. `vad_present` says whether a trimmer
    /// exists at the moment.
    pub fn apply_config_update(&mut self, new_config: Config, delta: ConfigDelta, vad_present: bool) -> (decision: ConfigDecision)
        ensures
            !delta.vad_settings_changed && !delta.other_changed && new_config@ == old(self)@.config
                ==> decision == ConfigDecision::Unchanged && final(self)@ == old(self)@,
            (delta.vad_settings_changed || delta.other_changed || new_config@ != old(self)@.config)
                && !(old(self)@.state is Idle) ==> decision == ConfigDecision::RejectedBusy
                && final(self)@ == old(self)@,
            (delta.vad_settings_changed || delta.other_changed || new_config@ != old(self)@.config)
                && old(self)@.state is Idle ==> {
                let before = old(self)@;
                let listeners = shortcuts_need_update(
                    before.config,
                    new_config@,
                    before.press,
                    before.hold,
                );
                &&& decision == ConfigDecision::Apply(
                    ConfigUpdate {
                        device_changed: before.config.audio_device != new_config@.audio_device
                            && before.capture.spec_preferred_device() != new_config@.audio_device,
                        press: if listeners {
                            Some(
                                listener_action(
                                    before.press,
                                    new_config@.press,
                                    ShortcutKind::Press,
                                ),
                            )
                        } else {
                            None
                        },
                        hold: if listeners {
                            Some(
                                listener_action(before.hold, new_config@.hold, ShortcutKind::Hold),
                            )
                        } else {
                            None
                        },
                        vad: vad_change(
                            before.config,
                            new_config@,
                            vad_present,
                            delta.vad_settings_changed,
                        ),
                    },
                )
                &&& final(self)@.state == RecorderState::Idle
                &&& final(self)@.config == new_config@
                &&& final(self)@.capture.spec_sample_rate() == before.capture.spec_sample_rate()
                &&& final(self)@.capture.spec_preferred_device() == if before.config.audio_device
                    != new_config@.audio_device {
                    new_config@.audio_device
                } else {
                    before.capture.spec_preferred_device()
                }
                &&& final(self)@.press == if listeners {
                    listener_after(before.press, new_config@.press, ShortcutKind::Press)
                } else {
                    before.press
                }
                &&& final(self)@.hold == if listeners {
                    listener_after(before.hold, new_config@.hold, ShortcutKind::Hold)
                } else {
                    before.hold
                }
            },
    {
        if !delta.vad_settings_changed && !delta.other_changed && same_config(
            &new_config,
            &self.current_config,
        ) {
            return ConfigDecision::Unchanged;
        }
        if !self.config_update_allowed() {
            return ConfigDecision::RejectedBusy;
        }
        let mut device_changed = false;
        if self.current_config.audio_device != new_config.audio_device {
            device_changed = self.audio_capture.update_preferred_device(new_config.audio_device);
        }
        let shortcuts_changed = !same_text(
            &new_config.shortcuts.press,
            &self.current_config.shortcuts.press,
        ) || !same_text(&new_config.shortcuts.hold, &self.current_config.shortcuts.hold)
            || self.press_listener.is_none() || (new_config.shortcuts.hold.is_some()
            && self.hold_listener.is_none());
        let mut press: Option<ListenerAction> = None;
        let mut hold: Option<ListenerAction> = None;
        if shortcuts_changed {
            let actions = self.ensure_shortcut_listeners(&new_config.shortcuts);
            press = Some(actions.0);
            hold = Some(actions.1);
        }
        let was_allowed = fast_vad_allowed(&self.current_config);
        let is_allowed = fast_vad_allowed(&new_config);
        let vad = if !is_allowed {
            let conflict = new_config.fast_vad_enabled && new_config.provider
                == TranscriptionProvider::WhisperCpp && new_config.whisper_vad_enabled;
            VadChange::Disable {
                conflict,
                was_in_use: vad_present || (was_allowed && self.current_config.fast_vad_enabled),
            }
        } else if !was_allowed || delta.vad_settings_changed
            || self.current_config.fast_vad_enabled != new_config.fast_vad_enabled
            || !vad_present {
            VadChange::Rebuild
        } else {
            VadChange::Keep
        };
        self.current_config = new_config;
        ConfigDecision::Apply(ConfigUpdate { device_changed, press, hold, vad })
    }

    /// Shuts the life cycle down: the owner becomes idle and both listeners
    /// are stopped and dropped. The plan says what is left for the caller.
    pub fn cleanup(&mut self) -> (plan: CleanupPlan)
        ensures
            final(self)@ == (AppView {
                state: if old(self)@.state is Recording {
                    RecorderState::Idle
                } else {
                    old(self)@.state
                },
                press: None,
                hold: None,
                ..old(self)@
            }),
            plan.close_session == (old(self)@.state is Recording),
            plan.join_press == (old(self)@.press is Some && !old(self)@.press->0.stopped),
            plan.join_hold == (old(self)@.hold is Some && !old(self)@.hold->0.stopped),
    {
        let close_session = self.is_recording();
        if close_session {
            self.state = RecorderState::Idle;
        }
        let join_press = match self.press_listener.take() {
            Some(mut listener) => listener.stop(),
            None => false,
        };
        let join_hold = match self.hold_listener.take() {
            Some(mut listener) => listener.stop(),
            None => false,
        };
        CleanupPlan { close_session, join_press, join_hold }
    }
}

/// What the silence trimmer can take.
#[derive(Debug, Clone, Copy, PartialEq, Eq, Structural)]
pub struct VadStatus {
    /// Whether the trimmer supports the rate of the captured audio.
    pub rate_supported: bool,
    /// The rate that the trimmer is set to.
    pub current_rate: u32,
}

/// What preprocessing does to a recording.
#[derive(Debug, Clone, Copy, PartialEq, Eq, Structural)]
pub enum PreprocessPlan {
    /// No trimmer: the audio goes on as it is.
    PassThrough,
    /// Trim silence at `rate`, after resampling to it if `resample` says so
    /// and after setting the trimmer to it if `set_rate` says so.
    Trim { resample: bool, rate: u32, set_rate: bool },
}

/// Plans the preprocessing of a recording captured at `sample_rate`.
///
/// Audio at a rate that the trimmer does not support is resampled to 16 kHz
/// first; the trimmer is set to the rate of the audio it gets.
pub fn plan_preprocess(sample_rate: u32, vad: Option<VadStatus>) -> (plan: PreprocessPlan)
    ensures
        plan == match vad {
            None => PreprocessPlan::PassThrough,
            Some(status) => {
                let rate = if status.rate_supported {
                    sample_rate
                } else {
                    TRANSCRIPTION_SAMPLE_RATE
                };
                PreprocessPlan::Trim {
                    resample: !status.rate_supported,
                    rate,
                    set_rate: status.current_rate != rate,
                }
            },
        },
{
    match vad {
        None => PreprocessPlan::PassThrough,
        Some(status) => {
            let rate = if status.rate_supported {
                sample_rate
            } else {
                TRANSCRIPTION_SAMPLE_RATE
            };
            PreprocessPlan::Trim {
                resample: !status.rate_supported,
                rate,
                set_rate: status.current_rate != rate,
            }
        },
    }
}

/// How trimming ended, given how many samples it left: nothing but silence
/// ends the pipeline.
pub fn trim_outcome(trimmed: usize) -> (outcome: StageOutcome)
    ensures
        outcome == if trimmed == 0 {
            StageOutcome::NothingLeft
        } else {
            StageOutcome::Completed
        },
{
    if trimmed == 0 {
        StageOutcome::NothingLeft
    } else {
        StageOutcome::Completed
    }
}

/// How transcription ended, given its text: text that is empty or all white
/// space ends the pipeline.
pub fn transcription_outcome(text: &str) -> (outcome: StageOutcome)
    ensures
        outcome == if spec_trim(text@).len() == 0 {
            StageOutcome::NothingLeft
        } else {
            StageOutcome::Completed
        },
{
    let chars = chars_of(text);
    let trimmed = trim(&chars);
    if trimmed.len() == 0 {
        StageOutcome::NothingLeft
    } else {
        StageOutcome::Completed
    }
}

/// Brings a recording to `rate`: audio that is at that rate already is left
/// as it is, any other is resampled with `mix` as the blend of neighbouring
/// samples.
pub fn conform_rate<S: Copy, F: Fn(S, S, u64, u64) -> S>(
    audio: CapturedAudio<S>,
    rate: u32,
    mix: F,
) -> (out: CapturedAudio<S>)
    requires
        resampled_len(audio.samples@.len(), audio.sample_rate as nat, rate as nat) <= usize::MAX,
        forall|l: S, r: S, num: u64, den: u64| num < den ==> call_requires(mix, (l, r, num, den)),
    ensures
        out.sample_rate == rate,
        audio.sample_rate == rate ==> out.samples@ == audio.samples@,
        audio.sample_rate != rate ==> out.samples@.len() == resampled_len(
            audio.samples@.len(),
            audio.sample_rate as nat,
            rate as nat,
        ) && forall|n: int|
            0 <= n < out.samples@.len() ==> call_ensures(
                mix,
                (
                    audio.samples@[spec_tap(
                        n as nat,
                        audio.samples@.len(),
                        audio.sample_rate as nat,
                        rate as nat,
                    ).left as int],
                    audio.samples@[spec_tap(
                        n as nat,
                        audio.samples@.len(),
                        audio.sample_rate as nat,
                        rate as nat,
                    ).right as int],
                    spec_tap(
                        n as nat,
                        audio.samples@.len(),
                        audio.sample_rate as nat,
                        rate as nat,
                    ).numerator,
                    rate as u64,
                ),
                #[trigger] out.samples@[n],
            ),
{
    if audio.sample_rate == rate {
        audio
    } else {
        let samples = resample(audio.samples.as_slice(), audio.sample_rate, rate, mix);
        CapturedAudio { samples, sample_rate: rate }
    }
}

/// Only an idle owner is told to start a recording, and taking note of a
/// start never replaces a recording or a running pipeline: at most one
/// recording is open at any time.
pub proof fn law_single_recording(
    state: RecorderState,
    kind: ShortcutKind,
    phase: ShortcutPhase,
    trigger: RecordingTrigger,
)
    ensures
        decide(state, kind, phase) is StartRecording ==> state is Idle,
        decide(state, kind, phase) is StopRecording ==> state is Recording,
        !(state is Idle) ==> after_start(state, trigger) == state,
        kind == ShortcutKind::Press ==> decide(state, kind, phase) != ShortcutAction::StartRecording(
            RecordingTrigger::HoldShortcut,
        ),
        kind == ShortcutKind::Hold ==> decide(state, kind, phase) != ShortcutAction::StartRecording(
            RecordingTrigger::PressShortcut,
        ),
{
}

/// A recording that a press shortcut started is not stopped by the release
/// of the hold shortcut: the release is ignored and the state stays.
pub proof fn law_hold_release_spares_press_recording()
    ensures
        decide(RecorderState::Idle, ShortcutKind::Press, ShortcutPhase::Start)
            == ShortcutAction::StartRecording(RecordingTrigger::PressShortcut),
        after_start(RecorderState::Idle, RecordingTrigger::PressShortcut)
            == RecorderState::Recording(RecordingTrigger::PressShortcut),
        decide(
            RecorderState::Recording(RecordingTrigger::PressShortcut),
            ShortcutKind::Hold,
            ShortcutPhase::End,
        ) == ShortcutAction::IgnoredRelease,
{
}

/// A hold shortcut starts a recording from idle, its release stops that
/// recording, what was captured goes to the pipeline, and the pipeline ends
/// in idle whatever its stages report.
pub proof fn law_hold_cycle(captured: nat, first: StageOutcome, second: StageOutcome, third: StageOutcome)
    requires
        captured > 0,
    ensures
        decide(RecorderState::Idle, ShortcutKind::Hold, ShortcutPhase::Start)
            == ShortcutAction::StartRecording(RecordingTrigger::HoldShortcut),
        after_start(RecorderState::Idle, RecordingTrigger::HoldShortcut)
            == RecorderState::Recording(RecordingTrigger::HoldShortcut),
        decide(
            RecorderState::Recording(RecordingTrigger::HoldShortcut),
            ShortcutKind::Hold,
            ShortcutPhase::End,
        ) == ShortcutAction::StopRecording,
        after_stop(RecorderState::Recording(RecordingTrigger::HoldShortcut), captured)
            == RecorderState::Processing(PipelineStage::Preprocess),
        after_outcome(
            after_outcome(
                after_outcome(RecorderState::Processing(PipelineStage::Preprocess), first),
                second,
            ),
            third,
        ) == RecorderState::Idle,
{
}

/// The pipeline never gets stuck: from any stage, a failure or an empty
/// result leads straight to idle, and three reports of any kind always do.
pub proof fn law_pipeline_returns_to_idle(
    stage: PipelineStage,
    first: StageOutcome,
    second: StageOutcome,
    third: StageOutcome,
)
    ensures
        first != StageOutcome::Completed ==> after_outcome(RecorderState::Processing(stage), first)
            == RecorderState::Idle,
        after_outcome(
            after_outcome(after_outcome(RecorderState::Processing(stage), first), second),
            third,
        ) == RecorderState::Idle,
        after_stop(RecorderState::Recording(RecordingTrigger::PressShortcut), 0)
            == RecorderState::Idle,
        after_stop(RecorderState::Recording(RecordingTrigger::HoldShortcut), 0)
            == RecorderState::Idle,
{
}

/// A recording without samples does no harm: whatever rate it carries, zero
/// included, it has no length in time, resamples to nothing, and sends the
/// owner straight back to idle.
pub proof fn law_empty_recording_is_harmless<S>(
    audio: CapturedAudio<S>,
    rate: u32,
    trigger: RecordingTrigger,
)
    requires
        audio.samples@.len() == 0,
    ensures
        audio.well_formed(),
        audio.spec_duration_millis() == 0,
        resampled_len(audio.samples@.len(), audio.sample_rate as nat, rate as nat) == 0,
        after_stop(RecorderState::Recording(trigger), audio.samples@.len()) == RecorderState::Idle,
{
    if audio.sample_rate > 0 {
        assert(0int * 1000 / (audio.sample_rate as int) == 0);
    }
}

/// After the listeners were brought in line with the configuration, a kind
/// without a shortcut has no listener, and a kind with a shortcut has a
/// running listener for exactly that shortcut and kind. A listener that
/// serves the binding already is left as it is.
pub proof fn law_listener_follows_configuration(
    slot: Option<ListenerView>,
    desired: Option<Seq<char>>,
    kind: ShortcutKind,
)
    ensures
        desired is None ==> listener_after(slot, desired, kind) is None,
        desired is Some ==> listener_after(slot, desired, kind) is Some && listener_after(
            slot,
            desired,
            kind,
        )->0.shortcut == desired->0 && listener_after(slot, desired, kind)->0.kind == kind,
        listener_action(slot, desired, kind) == ListenerAction::Keep ==> listener_after(
            slot,
            desired,
            kind,
        ) == slot,
        listener_action(slot, desired, kind) == ListenerAction::Spawn
            || listener_action(slot, desired, kind) == ListenerAction::Restart
            ==> !listener_after(slot, desired, kind)->0.stopped,
        listener_action(listener_after(slot, desired, kind), desired, kind)
            == ListenerAction::Keep || listener_action(
            listener_after(slot, desired, kind),
            desired,
            kind,
        ) == ListenerAction::Nothing,
{
}

} // verus!
