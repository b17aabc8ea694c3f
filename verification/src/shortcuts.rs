//! Global shortcut detection.
//!
//! A shortcut is a set of physical keys. The detector follows key presses and
//! releases reported by the monitored keyboards, announces when the whole set
//! is held (`Start`) and, for hold shortcuts, when it is let go (`End`). The
//! caller owns the devices and the clock: it reads key events, feeds them in
//! with a monotonic timestamp in nanoseconds, and forwards what comes out.

use crate::keys::{key_for_name, lookup_key, KeySet, KEY_A, KEY_D, KEY_S};
use crate::text::{
    chars_of, spec_split, spec_starts_with, spec_trim, split, starts_with, string_of, text_view,
    texts_view, trim, views_of,
};
use vstd::prelude::*;

verus! {

/// `ENXIO`: no such device or address.
pub const ENXIO: i32 = 6;

/// `EBADF`: bad file descriptor.
pub const EBADF: i32 = 9;

/// `ENODEV`: no such device.
pub const ENODEV: i32 = 19;

/// Two activations of a press shortcut must lie further apart than this.
pub const DEFAULT_DEBOUNCE_NANOS: u64 = 500_000_000;

/// Time between two full rescans when no hot-plug monitor is available.
pub const DEFAULT_RESCAN_INTERVAL_NANOS: u64 = 1_000_000_000;

/// Name reported for a device that does not tell its own.
pub open spec fn unknown_device_name() -> Seq<char> {
    "Unknown"@
}

/// How a shortcut is meant to be used.
#[derive(Debug, Clone, Copy, PartialEq, Eq, Structural)]
pub enum ShortcutKind {
    /// Active for as long as the combination is held.
    Hold,
    /// One activation per debounced press.
    Press,
}

/// Which edge of an activation an event reports.
#[derive(Debug, Clone, Copy, PartialEq, Eq, Structural)]
pub enum ShortcutPhase {
    Start,
    End,
}

/// An activation edge of a shortcut.
#[derive(Debug, Clone, Copy, PartialEq, Eq, Structural)]
pub struct ShortcutEvent {
    /// Monotonic time of the key event that caused it, in nanoseconds.
    pub triggered_at: u64,
    pub kind: ShortcutKind,
    pub phase: ShortcutPhase,
}

/// Why a shortcut detector could not be set up.
#[derive(Debug, Clone, PartialEq, Eq)]
pub enum ShortcutError {
    /// The shortcut does not parse: one of its tokens names no known key.
    /// Holds that token, trimmed and in upper case.
    InvalidShortcut(String),
    /// No keyboard is available to monitor.
    NoKeyboardDevices,
}

/// A key state change read from a keyboard.
#[derive(Debug, Clone, Copy, PartialEq, Eq, Structural)]
pub struct KeyEvent {
    /// Key code.
    pub code: u16,
    /// 1 for a press, 0 for a release; other values (auto-repeat) are ignored.
    pub value: i32,
    /// Monotonic time at which the event was read, in nanoseconds.
    pub at: u64,
}

/// A change in the set of input devices.
#[derive(Debug, Clone, PartialEq, Eq)]
pub enum InputDeviceEvent {
    Added(String),
    Removed(String),
    Changed(String),
    /// The hot-plug monitor cannot be used; holds the reason.
    MonitorUnavailable(String),
}

/// What opening a device node showed.
#[derive(Debug, Clone, Copy, PartialEq, Eq, Structural)]
pub enum DeviceProbe {
    Keyboard,
    NotKeyboard,
    OpenFailed,
}

/// What to do about a failed read from a device.
#[derive(Debug, Clone, Copy, PartialEq, Eq, Structural)]
pub enum ReadFailure {
    /// Nothing to read right now; keep polling.
    Transient,
    /// The device is gone; stop monitoring it.
    Disconnected,
    /// Any other error; report it and keep the device.
    Other,
}

/// How a device refresh changed the monitored set.
#[derive(Debug, Clone, Copy, PartialEq, Eq, Structural)]
pub enum RefreshSummary {
    /// Keyboards were monitored before and none is left.
    NoneFound,
    /// The number of keyboards changed to the given one.
    Changed(usize),
    /// The number of keyboards stayed at the given one.
    Unchanged(usize),
}

/// An input device as the system lists it.
#[derive(Debug, Clone)]
pub struct DeviceInfo {
    pub path: String,
    pub name: Option<String>,
    /// Key codes the device reports, if it reports keys at all.
    pub supported_keys: Option<Vec<u16>>,
}

/// A hot-plug event as contracts see it.
pub enum DeviceEventView {
    Added(Seq<char>),
    Removed(Seq<char>),
    Changed(Seq<char>),
    MonitorUnavailable,
}

impl View for InputDeviceEvent {
    type V = DeviceEventView;

    open spec fn view(&self) -> DeviceEventView {
        match self {
            InputDeviceEvent::Added(path) => DeviceEventView::Added(path@),
            InputDeviceEvent::Removed(path) => DeviceEventView::Removed(path@),
            InputDeviceEvent::Changed(path) => DeviceEventView::Changed(path@),
            InputDeviceEvent::MonitorUnavailable(_) => DeviceEventView::MonitorUnavailable,
        }
    }
}

/// What reading from a device gave.
#[derive(Debug, Clone)]
pub enum ReadResult {
    /// Key events, oldest first.
    Events(Vec<KeyEvent>),
    /// Nothing to read right now.
    WouldBlock,
    /// An error, with the code the system gave for it.
    Failed(Option<i32>),
}

/// What reading from the device at `path` gave.
#[derive(Debug, Clone)]
pub struct DeviceRead {
    pub path: String,
    pub result: ReadResult,
}

/// The result of a read as contracts see it.
pub enum ReadResultView {
    Events(Seq<KeyEvent>),
    WouldBlock,
    Failed(Option<i32>),
}

/// A read as contracts see it.
pub struct DeviceReadView {
    pub path: Seq<char>,
    pub result: ReadResultView,
}

impl View for DeviceRead {
    type V = DeviceReadView;

    open spec fn view(&self) -> DeviceReadView {
        DeviceReadView {
            path: self.path@,
            result: match self.result {
                ReadResult::Events(events) => ReadResultView::Events(events@),
                ReadResult::WouldBlock => ReadResultView::WouldBlock,
                ReadResult::Failed(code) => ReadResultView::Failed(code),
            },
        }
    }
}

/// The views of a list of hot-plug events.
pub open spec fn device_events_view(events: Seq<InputDeviceEvent>) -> Seq<DeviceEventView> {
    events.map_values(|e: InputDeviceEvent| e@)
}

/// The views of a list of reads.
pub open spec fn reads_view(reads: Seq<DeviceRead>) -> Seq<DeviceReadView> {
    reads.map_values(|r: DeviceRead| r@)
}

/// Whether an error code means that the device is gone.
pub open spec fn is_disconnect_code(code: Option<i32>) -> bool {
    code == Some(ENODEV) || code == Some(EBADF) || code == Some(ENXIO)
}

/// What one cycle of the polling loop came to.
#[derive(Debug, Clone)]
pub struct CycleReport {
    /// Shortcut events to forward, oldest first.
    pub events: Vec<ShortcutEvent>,
    /// Device nodes to open and report with
    /// [`GlobalShortcuts::add_keyboard_device`].
    pub open: Vec<String>,
    /// Devices that went away and are no longer monitored.
    pub gone: Vec<String>,
    /// Whether the keyboards are to be enumerated anew and reported with
    /// [`GlobalShortcuts::refresh_devices`].
    pub rescan: bool,
}

/// What one cycle came to, as contracts see it.
pub struct CycleView {
    pub state: DetectorState,
    pub events: Seq<ShortcutEvent>,
    pub open: Seq<Seq<char>>,
    pub gone: Seq<Seq<char>>,
    pub rescan: bool,
}

/// What the reads of one cycle came to.
pub struct PollView {
    pub state: DetectorState,
    pub events: Seq<ShortcutEvent>,
    pub gone: Seq<Seq<char>>,
}

/// The upper-case form that `str::to_uppercase` gives a string.
pub uninterp spec fn unicode_uppercase(s: Seq<char>) -> Seq<char>;

/// Calls `str::to_uppercase`. The result is a function of the characters of
/// the argument alone; the contract gives it the name `unicode_uppercase`.
#[verifier::external_body]
fn to_uppercase(s: &str) -> (out: String)
    ensures
        out@ == unicode_uppercase(s@),
{
    s.to_uppercase()
}

/// The key name that one `+`-separated part of a shortcut stands for.
pub open spec fn canonical_token(part: Seq<char>) -> Seq<char> {
    unicode_uppercase(spec_trim(part))
}

/// The keys named by `parts`, or the first token that names none.
pub open spec fn keys_of_tokens(parts: Seq<Seq<char>>) -> Result<Set<u16>, Seq<char>>
    decreases parts.len(),
{
    if parts.len() == 0 {
        Ok(Set::<u16>::empty())
    } else {
        match keys_of_tokens(parts.drop_last()) {
            Err(bad) => Err(bad),
            Ok(keys) => match key_for_name(canonical_token(parts.last())) {
                Some(code) => Ok(keys.insert(code)),
                None => Err(canonical_token(parts.last())),
            },
        }
    }
}

/// The key set that a shortcut string stands for, or its first unknown token.
pub open spec fn spec_parse_shortcut(shortcut: Seq<char>) -> Result<Set<u16>, Seq<char>> {
    keys_of_tokens(spec_split(shortcut, '+'))
}

/// A shortcut that parses names at least one key.
pub proof fn lemma_parsed_shortcut_nonempty(shortcut: Seq<char>)
    ensures
        spec_parse_shortcut(shortcut) matches Ok(keys) ==> keys != Set::<u16>::empty(),
{
    let parts = spec_split(shortcut, '+');
    crate::text::lemma_split_nonempty(shortcut, '+');
    match keys_of_tokens(parts) {
        Ok(keys) => {
            let code = key_for_name(canonical_token(parts.last()))->0;
            assert(keys.contains(code));
        },
        Err(_) => {},
    }
}

/// The state of a detector as contracts see it.
pub struct DetectorState {
    /// Paths of the monitored keyboards.
    pub devices: Seq<Seq<char>>,
    /// The shortcut as it was written.
    pub name: Seq<char>,
    /// Keys that make up the shortcut.
    pub target: Set<u16>,
    pub kind: ShortcutKind,
    /// Keys currently held.
    pub pressed: Set<u16>,
    /// Time of the last `Start`, if there was one.
    pub last_trigger: Option<u64>,
    /// Whether the combination is counted as held.
    pub active: bool,
    pub debounce: u64,
    /// Whether periodic rescans replace the hot-plug monitor.
    pub rescan_enabled: bool,
    /// Earliest time of the next periodic rescan.
    pub rescan_due_at: u64,
    pub rescan_interval: u64,
}

/// `paths` without every entry equal to `path`.
pub open spec fn without_path(paths: Seq<Seq<char>>, path: Seq<char>) -> Seq<Seq<char>>
    decreases paths.len(),
{
    if paths.len() == 0 {
        paths
    } else {
        let rest = without_path(paths.drop_last(), path);
        if paths.last() == path {
            rest
        } else {
            rest.push(paths.last())
        }
    }
}

/// `paths` without every entry that occurs in `gone`.
pub open spec fn without_paths(paths: Seq<Seq<char>>, gone: Seq<Seq<char>>) -> Seq<Seq<char>>
    decreases paths.len(),
{
    if paths.len() == 0 {
        paths
    } else {
        let rest = without_paths(paths.drop_last(), gone);
        if gone.contains(paths.last()) {
            rest
        } else {
            rest.push(paths.last())
        }
    }
}

impl DetectorState {
    /// Whether an activation at `now` is far enough from the last one.
    pub open spec fn debounce_allows(self, now: u64) -> bool {
        match self.kind {
            ShortcutKind::Hold => true,
            ShortcutKind::Press => match self.last_trigger {
                None => true,
                Some(last) => now - last > self.debounce,
            },
        }
    }

    /// State and event after the key `code` went down at `now`.
    pub open spec fn key_down(self, code: u16, now: u64) -> (DetectorState, Option<ShortcutEvent>) {
        let pressed = self.pressed.insert(code);
        if self.target.subset_of(pressed) && !self.active && self.debounce_allows(now) {
            (
                DetectorState { pressed, last_trigger: Some(now), active: true, ..self },
                Some(
                    ShortcutEvent {
                        triggered_at: now,
                        kind: self.kind,
                        phase: ShortcutPhase::Start,
                    },
                ),
            )
        } else {
            (DetectorState { pressed, ..self }, None)
        }
    }

    /// State and event after the key `code` went up at `now`.
    pub open spec fn key_up(self, code: u16, now: u64) -> (DetectorState, Option<ShortcutEvent>) {
        let pressed = self.pressed.remove(code);
        if self.active && !self.target.subset_of(pressed) {
            (
                DetectorState { pressed, active: false, ..self },
                if self.kind == ShortcutKind::Hold {
                    Some(
                        ShortcutEvent {
                            triggered_at: now,
                            kind: self.kind,
                            phase: ShortcutPhase::End,
                        },
                    )
                } else {
                    None
                },
            )
        } else {
            (DetectorState { pressed, ..self }, None)
        }
    }

    /// State and event after one key event.
    pub open spec fn key_event(self, code: u16, value: i32, now: u64) -> (
        DetectorState,
        Option<ShortcutEvent>,
    ) {
        if value == 1 {
            self.key_down(code, now)
        } else if value == 0 {
            self.key_up(code, now)
        } else {
            (self, None)
        }
    }

    /// State and events after a run of key events, oldest first.
    pub open spec fn replay(self, events: Seq<KeyEvent>) -> (DetectorState, Seq<ShortcutEvent>)
        decreases events.len(),
    {
        if events.len() == 0 {
            (self, Seq::<ShortcutEvent>::empty())
        } else {
            let (before, emitted) = self.replay(events.drop_last());
            let last = events.last();
            let (after, event) = before.key_event(last.code, last.value, last.at);
            match event {
                Some(e) => (after, emitted.push(e)),
                None => (after, emitted),
            }
        }
    }

    /// The state with no key held and the combination not active.
    pub open spec fn reset_keys(self) -> DetectorState {
        DetectorState { pressed: Set::<u16>::empty(), active: false, ..self }
    }

    /// State after a hot-plug event, with the path of a device node to open.
    ///
    /// A lost monitor switches periodic rescans on, the first one due at once.
    /// Every other event forgets the held keys.
    pub open spec fn device_event(self, event: DeviceEventView, now: u64) -> (
        DetectorState,
        Option<Seq<char>>,
    ) {
        match event {
            DeviceEventView::MonitorUnavailable => (
                DetectorState { rescan_enabled: true, rescan_due_at: now, ..self },
                None,
            ),
            DeviceEventView::Added(path) => (
                self.reset_keys(),
                if self.devices.contains(path) {
                    None
                } else {
                    Some(path)
                },
            ),
            DeviceEventView::Removed(path) => (
                DetectorState { devices: without_path(self.devices, path), ..self.reset_keys() },
                None,
            ),
            DeviceEventView::Changed(path) => (
                DetectorState { devices: without_path(self.devices, path), ..self.reset_keys() },
                Some(path),
            ),
        }
    }

    /// State after a run of hot-plug events, with the device nodes to open.
    pub open spec fn hotplug(self, events: Seq<DeviceEventView>, now: u64) -> (
        DetectorState,
        Seq<Seq<char>>,
    )
        decreases events.len(),
    {
        if events.len() == 0 {
            (self, Seq::<Seq<char>>::empty())
        } else {
            let (before, open) = self.hotplug(events.drop_last(), now);
            let (after, request) = before.device_event(events.last(), now);
            match request {
                Some(path) => (after, open.push(path)),
                None => (after, open),
            }
        }
    }

    /// State after the reads of one cycle, with the shortcut events they
    /// cause and the devices that they show gone. Key events count, a read
    /// that would block is passed over, and a failed read marks its device as
    /// gone when the error says so.
    pub open spec fn poll(self, reads: Seq<DeviceReadView>) -> PollView
        decreases reads.len(),
    {
        if reads.len() == 0 {
            PollView {
                state: self,
                events: Seq::<ShortcutEvent>::empty(),
                gone: Seq::<Seq<char>>::empty(),
            }
        } else {
            let before = self.poll(reads.drop_last());
            match reads.last().result {
                ReadResultView::Events(events) => PollView {
                    state: before.state.replay(events).0,
                    events: before.events + before.state.replay(events).1,
                    gone: before.gone,
                },
                ReadResultView::WouldBlock => before,
                ReadResultView::Failed(code) => if is_disconnect_code(code) {
                    PollView { gone: before.gone.push(reads.last().path), ..before }
                } else {
                    before
                },
            }
        }
    }

    /// State after the devices in `gone` were dropped; the held keys are
    /// forgotten when there is any.
    pub open spec fn disconnect(self, gone: Seq<Seq<char>>) -> DetectorState {
        if gone.len() > 0 {
            DetectorState { devices: without_paths(self.devices, gone), ..self.reset_keys() }
        } else {
            self
        }
    }

    /// State after a periodic rescan was begun at `now`, if one was due.
    pub open spec fn rescan(self, now: u64) -> DetectorState {
        if self.rescan_due(now) {
            DetectorState {
                rescan_due_at: if now + self.rescan_interval <= u64::MAX {
                    (now + self.rescan_interval) as u64
                } else {
                    u64::MAX
                },
                ..self.reset_keys()
            }
        } else {
            self
        }
    }

    /// One cycle of the polling loop: the hot-plug events first, then the
    /// reads from the devices, then the removal of the devices that went
    /// away, then the periodic rescan if it is due.
    pub open spec fn cycle(
        self,
        hotplug: Seq<DeviceEventView>,
        reads: Seq<DeviceReadView>,
        now: u64,
    ) -> CycleView {
        let (plugged, open) = self.hotplug(hotplug, now);
        let polled = plugged.poll(reads);
        let remaining = polled.state.disconnect(polled.gone);
        CycleView {
            state: remaining.rescan(now),
            events: polled.events,
            open,
            gone: polled.gone,
            rescan: remaining.rescan_due(now),
        }
    }

    /// Whether a periodic rescan is due at `now`.
    pub open spec fn rescan_due(self, now: u64) -> bool {
        self.rescan_enabled && now >= self.rescan_due_at
    }
}

/// Number of `Start` events in `events`.
pub open spec fn count_starts(events: Seq<ShortcutEvent>) -> nat
    decreases events.len(),
{
    if events.len() == 0 {
        0
    } else {
        count_starts(events.drop_last()) + if events.last().phase == ShortcutPhase::Start {
            1nat
        } else {
            0nat
        }
    }
}

/// Number of `End` events in `events`.
pub open spec fn count_ends(events: Seq<ShortcutEvent>) -> nat
    decreases events.len(),
{
    if events.len() == 0 {
        0
    } else {
        count_ends(events.drop_last()) + if events.last().phase == ShortcutPhase::End {
            1nat
        } else {
            0nat
        }
    }
}

/// The codes of a run of key events.
pub open spec fn codes_of(events: Seq<KeyEvent>) -> Set<u16>
    decreases events.len(),
{
    if events.len() == 0 {
        Set::<u16>::empty()
    } else {
        codes_of(events.drop_last()).insert(events.last().code)
    }
}

/// Whether the supported keys mark a device as a keyboard: it must report the
/// letter keys A, S and D.
pub open spec fn spec_is_keyboard(supported: Option<Seq<u16>>) -> bool {
    match supported {
        Some(keys) => keys.contains(KEY_A) && keys.contains(KEY_S) && keys.contains(KEY_D),
        None => false,
    }
}

/// The supported keys of a device as contracts see them.
pub open spec fn supported_view(info: DeviceInfo) -> Option<Seq<u16>> {
    match info.supported_keys {
        Some(keys) => Some(keys@),
        None => None,
    }
}

/// The paths of the keyboards among `candidates`, in their order.
pub open spec fn keyboard_paths(candidates: Seq<DeviceInfo>) -> Seq<Seq<char>>
    decreases candidates.len(),
{
    if candidates.len() == 0 {
        Seq::<Seq<char>>::empty()
    } else if spec_is_keyboard(supported_view(candidates.last())) {
        keyboard_paths(candidates.drop_last()).push(candidates.last().path@)
    } else {
        keyboard_paths(candidates.drop_last())
    }
}

/// The names of the keyboards among `candidates`, in their order, with
/// `Unknown` for a keyboard that tells no name.
pub open spec fn keyboard_names(candidates: Seq<DeviceInfo>) -> Seq<Seq<char>>
    decreases candidates.len(),
{
    if candidates.len() == 0 {
        Seq::<Seq<char>>::empty()
    } else if spec_is_keyboard(supported_view(candidates.last())) {
        keyboard_names(candidates.drop_last()).push(
            match candidates.last().name {
                Some(n) => n@,
                None => unknown_device_name(),
            },
        )
    } else {
        keyboard_names(candidates.drop_last())
    }
}

/// Whether `keys` holds `code`.
fn has_code(keys: &Vec<u16>, code: u16) -> (found: bool)
    ensures
        found == keys@.contains(code),
{
    let mut i: usize = 0;
    while i < keys.len()
        invariant
            i <= keys.len(),
            forall|j: int| 0 <= j < i ==> keys@[j] != code,
        decreases keys.len() - i,
    {
        if keys[i] == code {
            return true;
        }
        i += 1;
    }
    false
}

/// Whether an OS error code of a failed read means that the device is gone.
pub fn is_device_disconnect_error(raw_os_error: Option<i32>) -> (gone: bool)
    ensures
        gone == (raw_os_error == Some(ENODEV) || raw_os_error == Some(EBADF) || raw_os_error
            == Some(ENXIO)),
{
    match raw_os_error {
        Some(code) => code == ENODEV || code == EBADF || code == ENXIO,
        None => false,
    }
}

/// Sorts a failed device read into what the polling loop does about it.
pub fn classify_read_error(would_block: bool, raw_os_error: Option<i32>) -> (out: ReadFailure)
    ensures
        would_block ==> out == ReadFailure::Transient,
        !would_block ==> out == if raw_os_error == Some(ENODEV) || raw_os_error == Some(EBADF)
            || raw_os_error == Some(ENXIO) {
            ReadFailure::Disconnected
        } else {
            ReadFailure::Other
        },
{
    if would_block {
        ReadFailure::Transient
    } else if is_device_disconnect_error(raw_os_error) {
        ReadFailure::Disconnected
    } else {
        ReadFailure::Other
    }
}

/// Whether `path` names an event node of the input subsystem.
pub fn is_input_event_node(path: &str) -> (out: bool)
    ensures
        out == spec_starts_with(path@, "/dev/input/event"@),
{
    let node = chars_of(path);
    let prefix = chars_of("/dev/input/event");
    starts_with(&node, &prefix)
}

/// Whether `paths` holds `path`.
fn holds_path(paths: &Vec<String>, path: &String) -> (found: bool)
    ensures
        found == texts_view(paths@).contains(path@),
{
    let mut i: usize = 0;
    while i < paths.len()
        invariant
            i <= paths.len(),
            forall|j: int| 0 <= j < i ==> texts_view(paths@)[j] != path@,
        decreases paths.len() - i,
    {
        if paths[i] == *path {
            assert(texts_view(paths@)[i as int] == path@);
            return true;
        }
        i += 1;
    }
    false
}

/// Copies `paths` without every entry equal to `path`.
fn remove_path(paths: &Vec<String>, path: &String) -> (out: Vec<String>)
    ensures
        texts_view(out@) == without_path(texts_view(paths@), path@),
{
    let mut out: Vec<String> = Vec::new();
    let mut i: usize = 0;
    assert(texts_view(paths@).take(0) =~= Seq::<Seq<char>>::empty());
    assert(texts_view(out@) =~= Seq::<Seq<char>>::empty());
    while i < paths.len()
        invariant
            i <= paths.len(),
            texts_view(out@) == without_path(texts_view(paths@).take(i as int), path@),
        decreases paths.len() - i,
    {
        let ghost all = texts_view(paths@);
        proof {
            assert(all.take(i + 1).drop_last() =~= all.take(i as int));
            assert(all.take(i + 1).last() == paths@[i as int]@);
        }
        if !(paths[i] == *path) {
            let ghost before = out@;
            out.push(paths[i].clone());
            assert(texts_view(out@) =~= texts_view(before).push(paths@[i as int]@));
        }
        i += 1;
    }
    assert(texts_view(paths@).take(paths.len() as int) =~= texts_view(paths@));
    out
}

/// Copies `paths` without every entry that occurs in `gone`.
fn remove_paths(paths: &Vec<String>, gone: &Vec<String>) -> (out: Vec<String>)
    ensures
        texts_view(out@) == without_paths(texts_view(paths@), texts_view(gone@)),
{
    let mut out: Vec<String> = Vec::new();
    let mut i: usize = 0;
    assert(texts_view(paths@).take(0) =~= Seq::<Seq<char>>::empty());
    assert(texts_view(out@) =~= Seq::<Seq<char>>::empty());
    while i < paths.len()
        invariant
            i <= paths.len(),
            texts_view(out@) == without_paths(
                texts_view(paths@).take(i as int),
                texts_view(gone@),
            ),
        decreases paths.len() - i,
    {
        let ghost all = texts_view(paths@);
        proof {
            assert(all.take(i + 1).drop_last() =~= all.take(i as int));
            assert(all.take(i + 1).last() == paths@[i as int]@);
        }
        if !holds_path(gone, &paths[i]) {
            let ghost before = out@;
            out.push(paths[i].clone());
            assert(texts_view(out@) =~= texts_view(before).push(paths@[i as int]@));
        }
        i += 1;
    }
    assert(texts_view(paths@).take(paths.len() as int) =~= texts_view(paths@));
    out
}

/// Detector for one shortcut.
pub struct GlobalShortcuts {
    devices: Vec<String>,
    target_keys: KeySet,
    shortcut_name: String,
    kind: ShortcutKind,
    pressed_keys: KeySet,
    last_trigger: Option<u64>,
    combination_active: bool,
    debounce: u64,
    fallback_rescan_enabled: bool,
    rescan_due_at: u64,
    rescan_interval: u64,
}

impl View for GlobalShortcuts {
    type V = DetectorState;

    closed spec fn view(&self) -> DetectorState {
        DetectorState {
            devices: texts_view(self.devices@),
            name: self.shortcut_name@,
            target: self.target_keys@,
            kind: self.kind,
            pressed: self.pressed_keys@,
            last_trigger: self.last_trigger,
            active: self.combination_active,
            debounce: self.debounce,
            rescan_enabled: self.fallback_rescan_enabled,
            rescan_due_at: self.rescan_due_at,
            rescan_interval: self.rescan_interval,
        }
    }
}

impl GlobalShortcuts {
    /// The state of a detector that has seen no event yet.
    pub open spec fn initial(
        name: Seq<char>,
        target: Set<u16>,
        kind: ShortcutKind,
        devices: Seq<Seq<char>>,
    ) -> DetectorState {
        DetectorState {
            devices,
            name,
            target,
            kind,
            pressed: Set::<u16>::empty(),
            last_trigger: None,
            active: false,
            debounce: DEFAULT_DEBOUNCE_NANOS,
            rescan_enabled: false,
            rescan_due_at: 0,
            rescan_interval: DEFAULT_RESCAN_INTERVAL_NANOS,
        }
    }

    /// Sets up a detector for `shortcut` over the keyboards at `devices`.
    ///
    /// Fails on a shortcut that does not parse, and otherwise when there is
    /// no keyboard to monitor.
    pub fn new(shortcut: &str, kind: ShortcutKind, devices: Vec<String>) -> (out: Result<
        Self,
        ShortcutError,
    >)
        ensures
            match out {
                Ok(detector) => devices@.len() > 0 && spec_parse_shortcut(shortcut@) == Ok::<
                    Set<u16>,
                    Seq<char>,
                >(detector@.target) && detector@.target != Set::<u16>::empty() && detector@
                    == Self::initial(
                    shortcut@,
                    detector@.target,
                    kind,
                    texts_view(devices@),
                ),
                Err(ShortcutError::InvalidShortcut(token)) => spec_parse_shortcut(shortcut@)
                    == Err::<Set<u16>, Seq<char>>(token@),
                Err(ShortcutError::NoKeyboardDevices) => spec_parse_shortcut(shortcut@) is Ok
                    && devices@.len() == 0,
            },
    {
        let target_keys = match Self::parse_shortcut(shortcut) {
            Ok(keys) => keys,
            Err(e) => {
                return Err(e);
            },
        };
        if devices.len() == 0 {
            return Err(ShortcutError::NoKeyboardDevices);
        }
        Ok(
            GlobalShortcuts {
                devices,
                target_keys,
                shortcut_name: shortcut.to_owned(),
                kind,
                pressed_keys: KeySet::new(),
                last_trigger: None,
                combination_active: false,
                debounce: DEFAULT_DEBOUNCE_NANOS,
                fallback_rescan_enabled: false,
                rescan_due_at: 0,
                rescan_interval: DEFAULT_RESCAN_INTERVAL_NANOS,
            },
        )
    }

    /// Replaces the debounce time of press shortcuts.
    pub fn set_debounce(&mut self, nanos: u64)
        ensures
            final(self)@ == (DetectorState { debounce: nanos, ..old(self)@ }),
    {
        self.debounce = nanos;
    }

    /// Replaces the time between two periodic rescans.
    pub fn set_rescan_interval(&mut self, nanos: u64)
        ensures
            final(self)@ == (DetectorState { rescan_interval: nanos, ..old(self)@ }),
    {
        self.rescan_interval = nanos;
    }

    /// Maps one canonical key name to its key code.
    pub fn parse_key(key_str: &str) -> (out: Result<u16, ShortcutError>)
        ensures
            match out {
                Ok(code) => key_for_name(key_str@) == Some(code),
                Err(ShortcutError::InvalidShortcut(token)) => key_for_name(key_str@) is None && token@
                    == key_str@,
                Err(_) => false,
            },
    {
        let name = chars_of(key_str);
        match lookup_key(&name) {
            Some(code) => Ok(code),
            None => Err(ShortcutError::InvalidShortcut(key_str.to_owned())),
        }
    }

    /// Parses a shortcut such as `SUPER+ALT+R` into the set of its keys.
    ///
    /// The string is split at `+`; each part is trimmed, upper-cased and
    /// looked up. The first part that names no key fails the whole parse. A
    /// shortcut that parses names at least one key, as there is at least one
    /// part.
    pub fn parse_shortcut(shortcut: &str) -> (out: Result<KeySet, ShortcutError>)
        ensures
            match out {
                Ok(keys) => spec_parse_shortcut(shortcut@) == Ok::<Set<u16>, Seq<char>>(keys@)
                    && keys@ != Set::<u16>::empty(),
                Err(ShortcutError::InvalidShortcut(token)) => spec_parse_shortcut(shortcut@)
                    == Err::<Set<u16>, Seq<char>>(token@),
                Err(ShortcutError::NoKeyboardDevices) => false,
            },
    {
        let text = chars_of(shortcut);
        let parts = split(&text, '+');
        let mut keys = KeySet::new();
        let mut i: usize = 0;
        assert(views_of(parts@).take(0) =~= Seq::<Seq<char>>::empty());
        while i < parts.len()
            invariant
                i <= parts.len(),
                views_of(parts@) == spec_split(shortcut@, '+'),
                keys_of_tokens(views_of(parts@).take(i as int)) == Ok::<Set<u16>, Seq<char>>(
                    keys@,
                ),
            decreases parts.len() - i,
        {
            let ghost all = views_of(parts@);
            proof {
                assert(all.take(i + 1).drop_last() =~= all.take(i as int));
                assert(all.take(i + 1).last() == parts@[i as int]@);
            }
            let trimmed = trim(&parts[i]);
            let upper = to_uppercase(string_of(&trimmed).as_str());
            let name = chars_of(upper.as_str());
            match lookup_key(&name) {
                Some(code) => {
                    keys.insert(code);
                },
                None => {
                    proof {
                        lemma_tokens_error_is_kept(all, i + 1);
                    }
                    return Err(ShortcutError::InvalidShortcut(upper));
                },
            }
            i += 1;
        }
        assert(views_of(parts@).take(parts.len() as int) =~= views_of(parts@));
        proof {
            lemma_parsed_shortcut_nonempty(shortcut@);
        }
        Ok(keys)
    }

    /// The shortcut as it was written.
    pub fn shortcut_name(&self) -> (out: &String)
        ensures
            out@ == self@.name,
    {
        &self.shortcut_name
    }

    /// The kind of the shortcut.
    pub fn kind(&self) -> (out: ShortcutKind)
        ensures
            out == self@.kind,
    {
        self.kind
    }

    /// Number of monitored keyboards.
    pub fn device_count(&self) -> (out: usize)
        ensures
            out == self@.devices.len(),
    {
        self.devices.len()
    }

    /// Whether the keyboard at `path` is monitored.
    pub fn is_monitoring(&self, path: &str) -> (out: bool)
        ensures
            out == self@.devices.contains(path@),
    {
        let owned = path.to_owned();
        holds_path(&self.devices, &owned)
    }

    /// Whether the combination is counted as held.
    pub fn is_active(&self) -> (out: bool)
        ensures
            out == self@.active,
    {
        self.combination_active
    }

    /// Takes one key event in and says which shortcut event it causes.
    ///
    /// A press adds the key to the held keys; when the whole target set is
    /// then held, the combination was not active and the debounce allows it, a
    /// `Start` is emitted. A release removes the key; when that breaks an
    /// active combination it becomes inactive and, for a hold shortcut, an
    /// `End` is emitted.
    pub fn handle_key_event(&mut self, code: u16, value: i32, now: u64) -> (out: Option<
        ShortcutEvent,
    >)
        ensures
            final(self)@ == old(self)@.key_event(code, value, now).0,
            out == old(self)@.key_event(code, value, now).1,
    {
        if value == 1 {
            self.pressed_keys.insert(code);
            if self.target_keys.is_subset(&self.pressed_keys) && !self.combination_active {
                let allowed = match self.kind {
                    ShortcutKind::Hold => true,
                    ShortcutKind::Press => match self.last_trigger {
                        None => true,
                        Some(last) => now > last && now - last > self.debounce,
                    },
                };
                if allowed {
                    self.last_trigger = Some(now);
                    self.combination_active = true;
                    return Some(
                        ShortcutEvent {
                            triggered_at: now,
                            kind: self.kind,
                            phase: ShortcutPhase::Start,
                        },
                    );
                }
            }
            None
        } else if value == 0 {
            self.pressed_keys.remove(code);
            if self.combination_active && !self.target_keys.is_subset(&self.pressed_keys) {
                self.combination_active = false;
                match self.kind {
                    ShortcutKind::Hold => Some(
                        ShortcutEvent {
                            triggered_at: now,
                            kind: self.kind,
                            phase: ShortcutPhase::End,
                        },
                    ),
                    ShortcutKind::Press => None,
                }
            } else {
                None
            }
        } else {
            None
        }
    }

    /// Takes a run of key events in, oldest first, and returns the shortcut
    /// events they cause, in order.
    pub fn process_key_events(&mut self, events: &Vec<KeyEvent>) -> (out: Vec<ShortcutEvent>)
        ensures
            final(self)@ == old(self)@.replay(events@).0,
            out@ == old(self)@.replay(events@).1,
    {
        let mut out: Vec<ShortcutEvent> = Vec::new();
        let mut i: usize = 0;
        assert(events@.take(0) =~= Seq::<KeyEvent>::empty());
        while i < events.len()
            invariant
                i <= events.len(),
                self@ == old(self)@.replay(events@.take(i as int)).0,
                out@ == old(self)@.replay(events@.take(i as int)).1,
            decreases events.len() - i,
        {
            proof {
                assert(events@.take(i + 1).drop_last() =~= events@.take(i as int));
                assert(events@.take(i + 1).last() == events@[i as int]);
            }
            let event = events[i];
            match self.handle_key_event(event.code, event.value, event.at) {
                Some(emitted) => {
                    out.push(emitted);
                },
                None => {},
            }
            i += 1;
        }
        assert(events@.take(events.len() as int) =~= events@);
        out
    }

    /// Forgets which keys are held.
    pub fn reset_key_state(&mut self)
        ensures
            final(self)@ == old(self)@.reset_keys(),
    {
        self.pressed_keys.clear();
        self.combination_active = false;
    }

    /// Takes a hot-plug event in and returns the path of a device node that
    /// the caller should now open and report with
    /// [`GlobalShortcuts::add_keyboard_device`].
    ///
    /// A lost monitor switches periodic rescans on, the first one due at
    /// once. Every other event forgets the held keys: `Added` asks for the
    /// device unless it is monitored already, `Removed` drops the device, and
    /// `Changed` drops it and asks for it again.
    pub fn handle_input_device_event(&mut self, event: &InputDeviceEvent, now: u64) -> (open: Option<
        String,
    >)
        ensures
            final(self)@ == old(self)@.device_event(event@, now).0,
            text_view(open) == old(self)@.device_event(event@, now).1,
    {
        match event {
            InputDeviceEvent::MonitorUnavailable(_) => {
                self.fallback_rescan_enabled = true;
                self.rescan_due_at = now;
                None
            },
            InputDeviceEvent::Added(path) => {
                self.reset_key_state();
                if holds_path(&self.devices, path) {
                    None
                } else {
                    Some(path.clone())
                }
            },
            InputDeviceEvent::Removed(path) => {
                self.devices = remove_path(&self.devices, path);
                self.reset_key_state();
                None
            },
            InputDeviceEvent::Changed(path) => {
                self.devices = remove_path(&self.devices, path);
                self.reset_key_state();
                Some(path.clone())
            },
        }
    }

    /// Starts monitoring the device at `path` if opening it showed a keyboard
    /// and the path is not monitored yet; returns whether it was added.
    pub fn add_keyboard_device(&mut self, path: String, probe: DeviceProbe) -> (added: bool)
        ensures
            added == (probe == DeviceProbe::Keyboard && !old(self)@.devices.contains(path@)),
            final(self)@ == if added {
                DetectorState { devices: old(self)@.devices.push(path@), ..old(self)@ }
            } else {
                old(self)@
            },
    {
        if holds_path(&self.devices, &path) {
            return false;
        }
        match probe {
            DeviceProbe::Keyboard => {
                let ghost before = self.devices@;
                let ghost added_path = path@;
                self.devices.push(path);
                assert(texts_view(self.devices@) =~= texts_view(before).push(added_path));
                true
            },
            DeviceProbe::NotKeyboard => false,
            DeviceProbe::OpenFailed => false,
        }
    }

    /// Stops monitoring the device at `path`; returns whether any keyboard is
    /// left.
    pub fn remove_keyboard_device(&mut self, path: &str) -> (any_left: bool)
        ensures
            final(self)@ == (DetectorState {
                devices: without_path(old(self)@.devices, path@),
                ..old(self)@
            }),
            any_left == (final(self)@.devices.len() > 0),
    {
        let owned = path.to_owned();
        self.devices = remove_path(&self.devices, &owned);
        self.devices.len() > 0
    }

    /// Drops the devices whose reads showed them gone. When there is any, the
    /// held keys are forgotten as well.
    pub fn drop_disconnected(&mut self, gone: &Vec<String>)
        ensures
            final(self)@ == old(self)@.disconnect(texts_view(gone@)),
    {
        if gone.len() > 0 {
            self.devices = remove_paths(&self.devices, gone);
            self.reset_key_state();
        }
    }

    /// Whether a periodic rescan is due at `now`.
    pub fn rescan_due(&self, now: u64) -> (due: bool)
        ensures
            due == self@.rescan_due(now),
    {
        self.fallback_rescan_enabled && now >= self.rescan_due_at
    }

    /// Begins a periodic rescan if one is due: forgets the held keys and
    /// schedules the next rescan one interval after `now`. Returns whether the
    /// caller should enumerate the keyboards and report them with
    /// [`GlobalShortcuts::refresh_devices`].
    pub fn begin_rescan(&mut self, now: u64) -> (due: bool)
        ensures
            due == old(self)@.rescan_due(now),
            final(self)@ == old(self)@.rescan(now),
    {
        if self.rescan_due(now) {
            self.rescan_due_at = now.saturating_add(self.rescan_interval);
            self.reset_key_state();
            true
        } else {
            false
        }
    }

    /// Replaces the monitored keyboards by a fresh enumeration.
    pub fn refresh_devices(&mut self, devices: Vec<String>) -> (summary: RefreshSummary)
        ensures
            final(self)@ == (DetectorState { devices: texts_view(devices@), ..old(self)@ }),
            summary == if devices@.len() == 0 && old(self)@.devices.len() != 0 {
                RefreshSummary::NoneFound
            } else if devices@.len() != old(self)@.devices.len() {
                RefreshSummary::Changed(devices@.len() as usize)
            } else {
                RefreshSummary::Unchanged(devices@.len() as usize)
            },
    {
        let previous = self.devices.len();
        let updated = devices.len();
        self.devices = devices;
        if updated == 0 && previous != 0 {
            RefreshSummary::NoneFound
        } else if updated != previous {
            RefreshSummary::Changed(updated)
        } else {
            RefreshSummary::Unchanged(updated)
        }
    }

    /// Runs one cycle of the polling loop on what the caller gathered: the
    /// hot-plug events that arrived, and what reading from each monitored
    /// device gave, in the order of the devices.
    ///
    /// Hot-plug events come first, so that key events meet the set of devices
    /// they were read from. Devices whose read failed with a disconnect error
    /// are dropped together once all reads are dealt with, and last a
    /// periodic rescan is begun if one is due.
    pub fn run(&mut self, hotplug: &Vec<InputDeviceEvent>, reads: &Vec<DeviceRead>, now: u64) -> (report:
        CycleReport)
        ensures
            final(self)@ == old(self)@.cycle(
                device_events_view(hotplug@),
                reads_view(reads@),
                now,
            ).state,
            report.events@ == old(self)@.cycle(
                device_events_view(hotplug@),
                reads_view(reads@),
                now,
            ).events,
            texts_view(report.open@) == old(self)@.cycle(
                device_events_view(hotplug@),
                reads_view(reads@),
                now,
            ).open,
            texts_view(report.gone@) == old(self)@.cycle(
                device_events_view(hotplug@),
                reads_view(reads@),
                now,
            ).gone,
            report.rescan == old(self)@.cycle(
                device_events_view(hotplug@),
                reads_view(reads@),
                now,
            ).rescan,
    {
        let ghost start = self@;
        let ghost plug_views = device_events_view(hotplug@);
        let mut open: Vec<String> = Vec::new();
        let mut i: usize = 0;
        assert(plug_views.take(0) =~= Seq::<DeviceEventView>::empty());
        assert(texts_view(open@) =~= Seq::<Seq<char>>::empty());
        while i < hotplug.len()
            invariant
                i <= hotplug.len(),
                plug_views == device_events_view(hotplug@),
                self@ == start.hotplug(plug_views.take(i as int), now).0,
                texts_view(open@) == start.hotplug(plug_views.take(i as int), now).1,
            decreases hotplug.len() - i,
        {
            proof {
                assert(plug_views.take(i + 1).drop_last() =~= plug_views.take(i as int));
                assert(plug_views.take(i + 1).last() == hotplug@[i as int]@);
            }
            match self.handle_input_device_event(&hotplug[i], now) {
                Some(path) => {
                    let ghost before = open@;
                    let ghost added = path@;
                    open.push(path);
                    assert(texts_view(open@) =~= texts_view(before).push(added));
                },
                None => {},
            }
            i += 1;
        }
        assert(plug_views.take(hotplug.len() as int) =~= plug_views);
        let ghost plugged = self@;
        let ghost read_views = reads_view(reads@);
        let mut events: Vec<ShortcutEvent> = Vec::new();
        let mut gone: Vec<String> = Vec::new();
        let mut k: usize = 0;
        assert(read_views.take(0) =~= Seq::<DeviceReadView>::empty());
        assert(texts_view(gone@) =~= Seq::<Seq<char>>::empty());
        while k < reads.len()
            invariant
                k <= reads.len(),
                read_views == reads_view(reads@),
                self@ == plugged.poll(read_views.take(k as int)).state,
                events@ == plugged.poll(read_views.take(k as int)).events,
                texts_view(gone@) == plugged.poll(read_views.take(k as int)).gone,
            decreases reads.len() - k,
        {
            proof {
                assert(read_views.take(k + 1).drop_last() =~= read_views.take(k as int));
                assert(read_views.take(k + 1).last() == reads@[k as int]@);
            }
            match &reads[k].result {
                ReadResult::Events(batch) => {
                    let mut emitted = self.process_key_events(batch);
                    events.append(&mut emitted);
                },
                ReadResult::WouldBlock => {},
                ReadResult::Failed(code) => {
                    if is_device_disconnect_error(*code) {
                        let ghost before = gone@;
                        gone.push(reads[k].path.clone());
                        assert(texts_view(gone@) =~= texts_view(before).push(reads@[k as int].path@));
                    }
                },
            }
            k += 1;
        }
        assert(read_views.take(reads.len() as int) =~= read_views);
        self.drop_disconnected(&gone);
        let rescan = self.begin_rescan(now);
        CycleReport { events, open, gone, rescan }
    }

    /// The paths of the keyboards among `candidates`, in their order.
    pub fn find_keyboard_devices(candidates: &Vec<DeviceInfo>) -> (out: Vec<String>)
        ensures
            texts_view(out@) == keyboard_paths(candidates@),
    {
        let mut out: Vec<String> = Vec::new();
        let mut i: usize = 0;
        assert(candidates@.take(0) =~= Seq::<DeviceInfo>::empty());
        assert(texts_view(out@) =~= Seq::<Seq<char>>::empty());
        while i < candidates.len()
            invariant
                i <= candidates.len(),
                texts_view(out@) == keyboard_paths(candidates@.take(i as int)),
            decreases candidates.len() - i,
        {
            proof {
                assert(candidates@.take(i + 1).drop_last() =~= candidates@.take(i as int));
                assert(candidates@.take(i + 1).last() == candidates@[i as int]);
            }
            if Self::is_keyboard_device(&candidates[i].supported_keys) {
                let ghost before = out@;
                out.push(candidates[i].path.clone());
                assert(texts_view(out@) =~= texts_view(before).push(candidates@[i as int].path@));
            }
            i += 1;
        }
        assert(candidates@.take(candidates.len() as int) =~= candidates@);
        out
    }

    /// The keyboards among `candidates` with their names, in their order; a
    /// keyboard that tells no name is listed as `Unknown`.
    pub fn list_available_keyboards(candidates: &Vec<DeviceInfo>) -> (out: Vec<(String, String)>)
        ensures
            out@.len() == keyboard_paths(candidates@).len(),
            forall|k: int|
                0 <= k < out@.len() ==> (#[trigger] out@[k]).0@ == keyboard_paths(candidates@)[k]
                    && out@[k].1@ == keyboard_names(candidates@)[k],
            keyboard_names(candidates@).len() == keyboard_paths(candidates@).len(),
    {
        let mut out: Vec<(String, String)> = Vec::new();
        let mut i: usize = 0;
        assert(candidates@.take(0) =~= Seq::<DeviceInfo>::empty());
        while i < candidates.len()
            invariant
                i <= candidates.len(),
                out@.len() == keyboard_paths(candidates@.take(i as int)).len(),
                keyboard_names(candidates@.take(i as int)).len() == out@.len(),
                forall|k: int|
                    0 <= k < out@.len() ==> (#[trigger] out@[k]).0@ == keyboard_paths(
                        candidates@.take(i as int),
                    )[k] && out@[k].1@ == keyboard_names(candidates@.take(i as int))[k],
            decreases candidates.len() - i,
        {
            proof {
                assert(candidates@.take(i + 1).drop_last() =~= candidates@.take(i as int));
                assert(candidates@.take(i + 1).last() == candidates@[i as int]);
            }
            if Self::is_keyboard_device(&candidates[i].supported_keys) {
                let name = match &candidates[i].name {
                    Some(n) => n.clone(),
                    None => "Unknown".to_owned(),
                };
                out.push((candidates[i].path.clone(), name));
            }
            i += 1;
        }
        assert(candidates@.take(candidates.len() as int) =~= candidates@);
        out
    }

    /// Whether a device with these supported keys counts as a keyboard.
    pub fn is_keyboard_device(supported_keys: &Option<Vec<u16>>) -> (out: bool)
        ensures
            out == spec_is_keyboard(
                match supported_keys {
                    Some(keys) => Some(keys@),
                    None => None,
                },
            ),
    {
        match supported_keys {
            Some(keys) => has_code(keys, KEY_A) && has_code(keys, KEY_S) && has_code(keys, KEY_D),
            None => false,
        }
    }
}

/// Once a prefix of the tokens has failed, the whole list fails with the same
/// token.
pub proof fn lemma_tokens_error_is_kept(parts: Seq<Seq<char>>, n: int)
    requires
        0 <= n <= parts.len(),
        keys_of_tokens(parts.take(n)) is Err,
    ensures
        keys_of_tokens(parts) == keys_of_tokens(parts.take(n)),
    decreases parts.len() - n,
{
    if n < parts.len() {
        assert(parts.take(n + 1).drop_last() =~= parts.take(n));
        lemma_tokens_error_is_kept(parts, n + 1);
    } else {
        assert(parts.take(n) =~= parts);
    }
}

/// Removing a path leaves only paths that were there, none of them the
/// removed one, and keeps a list without repetition free of repetition.
pub proof fn lemma_without_path(paths: Seq<Seq<char>>, path: Seq<char>)
    ensures
        !without_path(paths, path).contains(path),
        forall|p: Seq<char>| #[trigger]
            without_path(paths, path).contains(p) ==> paths.contains(p),
        paths.no_duplicates() ==> without_path(paths, path).no_duplicates(),
    decreases paths.len(),
{
    let all = without_path(paths, path);
    if paths.len() > 0 {
        let rest = paths.drop_last();
        let last = paths.last();
        let kept = without_path(rest, path);
        lemma_without_path(rest, path);
        assert(all == if last == path {
            kept
        } else {
            kept.push(last)
        });
        assert forall|i: int| 0 <= i < all.len() implies all[i] != path && paths.contains(
            #[trigger] all[i],
        ) by {
            if i < kept.len() {
                assert(all[i] == kept[i]);
                assert(kept.contains(kept[i]));
                assert(rest.contains(kept[i]));
                let k = choose|k: int| 0 <= k < rest.len() && rest[k] == kept[i];
                assert(paths[k] == kept[i]);
            } else {
                assert(all[i] == last);
                assert(paths[paths.len() - 1] == last);
            }
        }
        if paths.no_duplicates() {
            assert forall|i: int, j: int|
                0 <= i < rest.len() && 0 <= j < rest.len() && i != j implies rest[i] != rest[j] by {
                assert(rest[i] == paths[i] && rest[j] == paths[j]);
            }
            assert(kept.no_duplicates());
            assert forall|i: int, j: int|
                0 <= i < all.len() && 0 <= j < all.len() && i != j implies all[i] != all[j] by {
                if i < kept.len() && j < kept.len() {
                    assert(all[i] == kept[i] && all[j] == kept[j]);
                } else {
                    let inner = if i < kept.len() {
                        i
                    } else {
                        j
                    };
                    assert(all[inner] == kept[inner]);
                    assert(kept.contains(kept[inner]));
                    assert(rest.contains(kept[inner]));
                    let k = choose|k: int| 0 <= k < rest.len() && rest[k] == kept[inner];
                    assert(paths[k] == kept[inner]);
                    assert(paths[paths.len() - 1] == last);
                }
            }
        }
    }
}

/// A device is uniquely identified by its path: a set of monitored devices
/// without repetition stays so through every hot-plug event and every device
/// that is added after one.
pub proof fn law_devices_stay_unique(
    state: DetectorState,
    event: DeviceEventView,
    now: u64,
    added: Seq<char>,
)
    requires
        state.devices.no_duplicates(),
    ensures
        state.device_event(event, now).0.devices.no_duplicates(),
        !state.devices.contains(added) ==> state.devices.push(added).no_duplicates(),
        match event {
            DeviceEventView::Removed(path) => !state.device_event(event, now).0.devices.contains(
                path,
            ),
            DeviceEventView::Changed(path) => !state.device_event(event, now).0.devices.contains(
                path,
            ),
            _ => state.device_event(event, now).0.devices == state.devices,
        },
{
    match event {
        DeviceEventView::Removed(path) => {
            lemma_without_path(state.devices, path);
        },
        DeviceEventView::Changed(path) => {
            lemma_without_path(state.devices, path);
        },
        _ => {},
    }
    if !state.devices.contains(added) {
        let grown = state.devices.push(added);
        assert forall|i: int, j: int| 0 <= i < grown.len() && 0 <= j < grown.len() && i != j implies grown[i]
            != grown[j] by {
            if i == state.devices.len() {
                assert(state.devices[j] == grown[j]);
            } else if j == state.devices.len() {
                assert(state.devices[i] == grown[i]);
            } else {
                assert(state.devices[i] == grown[i] && state.devices[j] == grown[j]);
            }
        }
    }
}

} // verus!
