//! What the status bar is told, and the history of transcriptions.
//!
//! The library says what to write; the caller writes it.

use crate::text::{chars_eq_str, chars_of};
use vstd::prelude::*;
use vstd::string::StringExecFns;

verus! {

/// Number of transcriptions kept in the history.
pub const DEFAULT_MAX_HISTORY: usize = 20;

/// `base` and `name` as one path: `name` alone where it is absolute, else
/// the two joined by `/` unless `base` is empty or ends in `/` already.
pub open spec fn spec_join_path(base: Seq<char>, name: Seq<char>) -> Seq<char> {
    if name.len() > 0 && name[0] == '/' {
        name
    } else if base.len() == 0 || base.last() == '/' {
        base + name
    } else {
        base + "/"@ + name
    }
}

/// Joins a directory and a relative name into one path.
pub fn join_path(base: &str, name: &str) -> (out: String)
    ensures
        out@ == spec_join_path(base@, name@),
{
    let tail = chars_of(name);
    if tail.len() > 0 && tail[0] == '/' {
        return name.to_owned();
    }
    let chars = chars_of(base);
    let mut out = String::from_str(base);
    if chars.len() > 0 && chars[chars.len() - 1] != '/' {
        out.append("/");
    }
    out.append(name);
    out
}

/// The directory for the status file: `hyprwhspr` below the user's cache
/// directory, or `/tmp/hyprwhspr` where there is none.
pub fn cache_dir(base_cache_dir: Option<&str>) -> (out: String)
    ensures
        out@ == match base_cache_dir {
            Some(base) => spec_join_path(base@, "hyprwhspr"@),
            None => "/tmp/hyprwhspr"@,
        },
{
    match base_cache_dir {
        Some(base) => join_path(base, "hyprwhspr"),
        None => "/tmp/hyprwhspr".to_owned(),
    }
}

/// The directory for the history: `hyprwhspr` below the user's data
/// directory, or `/tmp/hyprwhspr` where there is none.
pub fn data_dir(base_data_dir: Option<&str>) -> (out: String)
    ensures
        out@ == match base_data_dir {
            Some(base) => spec_join_path(base@, "hyprwhspr"@),
            None => "/tmp/hyprwhspr"@,
        },
{
    match base_data_dir {
        Some(base) => join_path(base, "hyprwhspr"),
        None => "/tmp/hyprwhspr".to_owned(),
    }
}

/// The status file in the cache directory.
pub fn status_file(cache_dir: &str) -> (out: String)
    ensures
        out@ == spec_join_path(cache_dir@, "status.json"@),
{
    join_path(cache_dir, "status.json")
}

/// The history file in the data directory.
pub fn history_file(data_dir: &str) -> (out: String)
    ensures
        out@ == spec_join_path(data_dir@, "transcriptions.json"@),
{
    join_path(data_dir, "transcriptions.json")
}

/// What the status bar shows.
#[derive(Debug, Clone, Copy, PartialEq, Eq, Structural)]
pub enum WaybarState {
    Inactive,
    Active,
    Processing,
    Error,
}

impl WaybarState {
    /// The glyph shown for a state: a struck-out microphone while nothing is
    /// recorded or something went wrong, a microphone otherwise.
    pub open spec fn spec_icon(self) -> Seq<char> {
        match self {
            WaybarState::Inactive => "\u{f036d}"@,
            WaybarState::Active => "\u{f036c}"@,
            WaybarState::Processing => "\u{f036c}"@,
            WaybarState::Error => "\u{f036d}"@,
        }
    }

    /// The style class of a state.
    pub open spec fn spec_class(self) -> Seq<char> {
        match self {
            WaybarState::Inactive => "inactive"@,
            WaybarState::Active => "active"@,
            WaybarState::Processing => "processing"@,
            WaybarState::Error => "error"@,
        }
    }

    /// The glyph shown for the state.
    pub fn icon(&self) -> (out: &'static str)
        ensures
            out@ == self.spec_icon(),
    {
        match self {
            WaybarState::Inactive => "\u{f036d}",
            WaybarState::Active => "\u{f036c}",
            WaybarState::Processing => "\u{f036c}",
            WaybarState::Error => "\u{f036d}",
        }
    }

    /// The style class of the state.
    pub fn class(&self) -> (out: &'static str)
        ensures
            out@ == self.spec_class(),
    {
        match self {
            WaybarState::Inactive => "inactive",
            WaybarState::Active => "active",
            WaybarState::Processing => "processing",
            WaybarState::Error => "error",
        }
    }
}

/// The record that the status bar reads.
#[derive(Debug, Clone, PartialEq, Eq)]
pub struct WaybarStatus {
    pub text: String,
    pub tooltip: String,
    pub class: String,
    pub alt: String,
}

/// A transcription with the time it was made.
#[derive(Debug, Clone, PartialEq, Eq)]
pub struct TranscriptionEntry {
    pub text: String,
    pub timestamp: String,
}

/// A history entry as contracts see it.
pub struct EntryView {
    pub text: Seq<char>,
    pub timestamp: Seq<char>,
}

impl View for TranscriptionEntry {
    type V = EntryView;

    open spec fn view(&self) -> EntryView {
        EntryView { text: self.text@, timestamp: self.timestamp@ }
    }
}

/// The views of a history.
pub open spec fn history_view(entries: Seq<TranscriptionEntry>) -> Seq<EntryView> {
    entries.map_values(|e: TranscriptionEntry| e@)
}

/// The history after a new entry: the new entry first, then the old ones, cut
/// to `max` entries.
pub open spec fn spec_history_with(entries: Seq<EntryView>, newest: EntryView, max: nat) -> Seq<
    EntryView,
> {
    let all = seq![newest] + entries;
    if all.len() > max {
        all.take(max as int)
    } else {
        all
    }
}

/// Says what to write where for the status bar and the history.
#[derive(Debug, Clone)]
pub struct StatusWriter {
    status_file: String,
    history_file: String,
    max_history: usize,
}

impl StatusWriter {
    /// The path of the status file.
    pub closed spec fn spec_status_file(&self) -> Seq<char> {
        self.status_file@
    }

    /// The path of the history file.
    pub closed spec fn spec_history_file(&self) -> Seq<char> {
        self.history_file@
    }

    /// Number of entries that the history keeps.
    pub closed spec fn spec_max_history(&self) -> usize {
        self.max_history
    }

    /// A writer for the files in these directories; the history keeps twenty
    /// entries.
    pub fn new(cache_dir: &str, data_dir: &str) -> (out: Self)
        ensures
            out.spec_status_file() == spec_join_path(cache_dir@, "status.json"@),
            out.spec_history_file() == spec_join_path(data_dir@, "transcriptions.json"@),
            out.spec_max_history() == DEFAULT_MAX_HISTORY,
    {
        StatusWriter {
            status_file: status_file(cache_dir),
            history_file: history_file(data_dir),
            max_history: DEFAULT_MAX_HISTORY,
        }
    }

    /// The path of the status file.
    pub fn status_path(&self) -> (out: &String)
        ensures
            out@ == self.spec_status_file(),
    {
        &self.status_file
    }

    /// The path of the history file.
    pub fn history_path(&self) -> (out: &String)
        ensures
            out@ == self.spec_history_file(),
    {
        &self.history_file
    }

    /// The record for a state with a tooltip: the state's glyph as text and
    /// its class as both class and alternative.
    pub fn set_state(&self, state: WaybarState, tooltip: &str) -> (out: WaybarStatus)
        ensures
            out.text@ == state.spec_icon(),
            out.tooltip@ == tooltip@,
            out.class@ == state.spec_class(),
            out.alt@ == state.spec_class(),
    {
        WaybarStatus {
            text: state.icon().to_owned(),
            tooltip: tooltip.to_owned(),
            class: state.class().to_owned(),
            alt: state.class().to_owned(),
        }
    }

    /// The record for recording (`Active`, "Recording...") or for being
    /// ready (`Inactive`, "Ready").
    pub fn set_recording(&self, recording: bool) -> (out: WaybarStatus)
        ensures
            recording ==> out.text@ == WaybarState::Active.spec_icon() && out.tooltip@
                == "Recording..."@ && out.class@ == "active"@ && out.alt@ == "active"@,
            !recording ==> out.text@ == WaybarState::Inactive.spec_icon() && out.tooltip@
                == "Ready"@ && out.class@ == "inactive"@ && out.alt@ == "inactive"@,
    {
        if recording {
            self.set_state(WaybarState::Active, "Recording...")
        } else {
            self.set_state(WaybarState::Inactive, "Ready")
        }
    }

    /// The record for transcribing.
    pub fn set_processing(&self) -> (out: WaybarStatus)
        ensures
            out.text@ == WaybarState::Processing.spec_icon(),
            out.tooltip@ == "Transcribing..."@,
            out.class@ == "processing"@,
            out.alt@ == "processing"@,
    {
        self.set_state(WaybarState::Processing, "Transcribing...")
    }

    /// The record for an error with its message.
    pub fn set_error(&self, message: &str) -> (out: WaybarStatus)
        ensures
            out.text@ == WaybarState::Error.spec_icon(),
            out.tooltip@ == "Error: "@ + message@,
            out.class@ == "error"@,
            out.alt@ == "error"@,
    {
        let tooltip = String::from_str("Error: ").concat(message);
        self.set_state(WaybarState::Error, tooltip.as_str())
    }

    /// Whether the record last written, if it could be read, says that a
    /// recording is going on.
    pub fn is_recording(&self, status: Option<&WaybarStatus>) -> (out: bool)
        ensures
            out == match status {
                Some(s) => s.class@ == "active"@,
                None => false,
            },
    {
        match status {
            Some(s) => chars_eq_str(&chars_of(s.class.as_str()), "active"),
            None => false,
        }
    }

    /// The history with a new transcription in front, cut to the number of
    /// entries that the history keeps.
    pub fn save_transcription(&self, entries: Vec<TranscriptionEntry>, text: &str, timestamp: &str) -> (out:
        Vec<TranscriptionEntry>)
        ensures
            history_view(out@) == spec_history_with(
                history_view(entries@),
                EntryView { text: text@, timestamp: timestamp@ },
                self.spec_max_history() as nat,
            ),
    {
        let mut entries = entries;
        let ghost before = history_view(entries@);
        let newest = TranscriptionEntry { text: text.to_owned(), timestamp: timestamp.to_owned() };
        let ghost newest_view = newest@;
        entries.insert(0, newest);
        assert(history_view(entries@) =~= seq![newest_view] + before);
        let ghost all = history_view(entries@);
        if entries.len() > self.max_history {
            entries.truncate(self.max_history);
            assert(history_view(entries@) =~= all.take(self.max_history as int));
        }
        entries
    }
}

} // verus!
