//! Installing the integration components: which to install, where, and
//! whether a file may be written.
//!
//! The library decides; the caller looks at the file system, asks the user
//! and copies.

use crate::cli::InstallArgs;
use crate::patterns::{replace_all, replaced_or_same};
use crate::status::{join_path, spec_join_path};
use crate::text::{
    chars_of, contains, decimal, decimal_digits, spec_contains, spec_starts_with, spec_trim,
    starts_with, str_view, string_of, trim,
};
use vstd::prelude::*;
use vstd::string::StringExecFns;

verus! {

/// A component that can be installed.
#[derive(Debug, Clone, Copy, PartialEq, Eq, Structural)]
pub enum Component {
    Waybar,
    Systemd,
    Elephant,
}

/// What became of a file that was to be copied.
#[derive(Debug, Clone, Copy, PartialEq, Eq, Structural)]
pub enum CopyResult {
    Copied,
    Skipped,
    Overwritten,
}

/// All components, in the order in which they are offered and installed.
pub open spec fn all_components() -> Seq<Component> {
    seq![Component::Waybar, Component::Systemd, Component::Elephant]
}

impl Component {
    /// The name shown for a component.
    pub open spec fn spec_label(self) -> Seq<char> {
        match self {
            Component::Waybar => "Waybar module + CSS"@,
            Component::Systemd => "Systemd user service"@,
            Component::Elephant => "Elephant menu (Walker)"@,
        }
    }

    /// The name shown for the component.
    pub fn label(&self) -> (out: &'static str)
        ensures
            out@ == self.spec_label(),
    {
        match self {
            Component::Waybar => "Waybar module + CSS",
            Component::Systemd => "Systemd user service",
            Component::Elephant => "Elephant menu (Walker)",
        }
    }

    /// All components, in the order in which they are offered and installed.
    pub fn all() -> (out: Vec<Component>)
        ensures
            out@ == all_components(),
    {
        let mut out: Vec<Component> = Vec::new();
        out.push(Component::Waybar);
        out.push(Component::Systemd);
        out.push(Component::Elephant);
        assert(out@ =~= all_components());
        out
    }

    /// Whether the component is ticked when the user is asked what to
    /// install: the status bar module and the service are, the menu is not.
    pub fn selected_by_default(&self) -> (out: bool)
        ensures
            out == (*self != Component::Elephant),
    {
        match self {
            Component::Waybar => true,
            Component::Systemd => true,
            Component::Elephant => false,
        }
    }
}

/// The components that the flags ask for, in installation order.
pub open spec fn spec_components_from_flags(args: InstallArgs) -> Seq<Component> {
    (if args.all || args.waybar {
        seq![Component::Waybar]
    } else {
        Seq::<Component>::empty()
    }) + (if args.all || args.service {
        seq![Component::Systemd]
    } else {
        Seq::<Component>::empty()
    }) + (if args.all || args.elephant {
        seq![Component::Elephant]
    } else {
        Seq::<Component>::empty()
    })
}

/// The components that the flags ask for; `None` where no flag names any, so
/// that the user is to be asked.
pub fn components_from_flags(args: &InstallArgs) -> (out: Option<Vec<Component>>)
    ensures
        match out {
            Some(selected) => (args.waybar || args.service || args.elephant || args.all)
                && selected@ == spec_components_from_flags(*args),
            None => !(args.waybar || args.service || args.elephant || args.all),
        },
{
    if !args.has_specific_flags() {
        return None;
    }
    let mut selected: Vec<Component> = Vec::new();
    if args.all || args.waybar {
        selected.push(Component::Waybar);
    }
    if args.all || args.service {
        selected.push(Component::Systemd);
    }
    if args.all || args.elephant {
        selected.push(Component::Elephant);
    }
    assert(selected@ =~= spec_components_from_flags(*args));
    Some(selected)
}

/// The components at the positions that the user ticked.
pub fn components_from_selection(selections: &Vec<usize>) -> (out: Vec<Component>)
    requires
        forall|i: int| 0 <= i < selections@.len() ==> selections@[i] < 3,
    ensures
        out@.len() == selections@.len(),
        forall|i: int|
            0 <= i < selections@.len() ==> out@[i] == all_components()[selections@[i] as int],
{
    let all = Component::all();
    let mut out: Vec<Component> = Vec::new();
    let mut i: usize = 0;
    while i < selections.len()
        invariant
            i <= selections.len(),
            all@ == all_components(),
            out@.len() == i,
            forall|k: int| 0 <= k < selections@.len() ==> selections@[k] < 3,
            forall|k: int| 0 <= k < i ==> out@[k] == all_components()[selections@[k] as int],
        decreases selections.len() - i,
    {
        out.push(all[selections[i]]);
        i += 1;
    }
    out
}

/// Whether the summary is to show the commands of the user service: it does
/// when the service was installed.
pub fn summary_shows_service_commands(components: &Vec<Component>) -> (out: bool)
    ensures
        out == components@.contains(Component::Systemd),
{
    let mut i: usize = 0;
    while i < components.len()
        invariant
            i <= components.len(),
            forall|k: int| 0 <= k < i ==> components@[k] != Component::Systemd,
        decreases components.len() - i,
    {
        if components[i] == Component::Systemd {
            return true;
        }
        i += 1;
    }
    false
}

/// The home directory: `HOME`, or `/tmp` where it is not set.
pub open spec fn spec_home(home: Option<Seq<char>>) -> Seq<char> {
    match home {
        Some(h) => h,
        None => "/tmp"@,
    }
}

/// A base directory: the value of its own variable where that is set, else
/// `fallback` below the home directory.
pub open spec fn spec_xdg_dir(own: Option<Seq<char>>, home: Option<Seq<char>>, fallback: Seq<char>) -> Seq<
    char,
> {
    match own {
        Some(dir) => dir,
        None => spec_join_path(spec_home(home), fallback),
    }
}

/// The home directory, given the value of `HOME`.
pub fn dirs_home(home: Option<&str>) -> (out: String)
    ensures
        out@ == spec_home(str_view(home)),
{
    match home {
        Some(h) => h.to_owned(),
        None => "/tmp".to_owned(),
    }
}

/// A base directory; see [`spec_xdg_dir`].
fn xdg_dir(own: Option<&str>, home: Option<&str>, fallback: &str) -> (out: String)
    ensures
        out@ == spec_xdg_dir(str_view(own), str_view(home), fallback@),
{
    match own {
        Some(dir) => dir.to_owned(),
        None => join_path(dirs_home(home).as_str(), fallback),
    }
}

/// The configuration directory, given the values of `XDG_CONFIG_HOME` and
/// `HOME`: `~/.config` by default.
pub fn xdg_config_home(own: Option<&str>, home: Option<&str>) -> (out: String)
    ensures
        out@ == spec_xdg_dir(str_view(own), str_view(home), ".config"@),
{
    xdg_dir(own, home, ".config")
}

/// The data directory, given the values of `XDG_DATA_HOME` and `HOME`:
/// `~/.local/share` by default.
pub fn xdg_data_home(own: Option<&str>, home: Option<&str>) -> (out: String)
    ensures
        out@ == spec_xdg_dir(str_view(own), str_view(home), ".local/share"@),
{
    xdg_dir(own, home, ".local/share")
}

/// The cache directory, given the values of `XDG_CACHE_HOME` and `HOME`:
/// `~/.cache` by default.
pub fn xdg_cache_home(own: Option<&str>, home: Option<&str>) -> (out: String)
    ensures
        out@ == spec_xdg_dir(str_view(own), str_view(home), ".cache"@),
{
    xdg_dir(own, home, ".cache")
}

/// `path`, trimmed, with a leading `~/` replaced by the home directory where
/// that is known.
pub open spec fn spec_expand_tilde(path: Seq<char>, home: Option<Seq<char>>) -> Seq<char> {
    let trimmed = spec_trim(path);
    if spec_starts_with(trimmed, "~/"@) && home is Some {
        spec_join_path(home->0, trimmed.skip(2))
    } else {
        trimmed
    }
}

/// Expands a leading `~/` in a path to the home directory, given the value
/// of `HOME`.
pub fn expand_tilde(path: &str, home: Option<&str>) -> (out: String)
    ensures
        out@ == spec_expand_tilde(path@, str_view(home)),
{
    let trimmed = trim(&chars_of(path));
    let tilde = chars_of("~/");
    proof {
        reveal_strlit("~/");
    }
    if starts_with(&trimmed, &tilde) {
        if let Some(h) = home {
            let mut rest: Vec<char> = Vec::new();
            let mut i: usize = 2;
            while i < trimmed.len()
                invariant
                    2 <= i <= trimmed.len(),
                    rest@ == trimmed@.subrange(2, i as int),
                decreases trimmed.len() - i,
            {
                rest.push(trimmed[i]);
                assert(trimmed@.subrange(2, i + 1) =~= trimmed@.subrange(2, i as int).push(
                    trimmed@[i as int],
                ));
                i += 1;
            }
            assert(trimmed@.subrange(2, trimmed.len() as int) =~= trimmed@.skip(2));
            return join_path(h, string_of(&rest).as_str());
        }
    }
    string_of(&trimmed)
}

/// A directory that may hold the files to install.
#[derive(Debug, Clone)]
pub struct ConfigCandidate {
    pub path: String,
    /// Whether the directory has a `config` directory in it.
    pub has_config: bool,
}

/// Picks the directory that holds the files to install: the first candidate
/// with a `config` directory in it.
pub fn find_config_dir(candidates: &Vec<ConfigCandidate>) -> (out: Option<String>)
    ensures
        match out {
            Some(path) => exists|i: int|
                0 <= i < candidates@.len() && (#[trigger] candidates@[i]).has_config
                    && candidates@[i].path@ == path@ && forall|j: int|
                    0 <= j < i ==> !(#[trigger] candidates@[j]).has_config,
            None => forall|j: int|
                0 <= j < candidates@.len() ==> !(#[trigger] candidates@[j]).has_config,
        },
{
    let mut i: usize = 0;
    while i < candidates.len()
        invariant
            i <= candidates.len(),
            forall|j: int| 0 <= j < i ==> !(#[trigger] candidates@[j]).has_config,
        decreases candidates.len() - i,
    {
        if candidates[i].has_config {
            return Some(candidates[i].path.clone());
        }
        i += 1;
    }
    None
}

/// What to do with a file that is to be copied.
#[derive(Debug, Clone, Copy, PartialEq, Eq, Structural)]
pub enum CopyDecision {
    /// Create the directory and copy the file.
    Copy,
    /// Ask the user whether to overwrite, then decide again with the answer.
    Ask,
    /// Back the existing file up and overwrite it.
    Overwrite,
    /// Leave the existing file alone.
    Skip,
}

/// Decides what to do with a file that is to be copied to a place where a
/// file may exist already.
///
/// A new file, or any file under `force`, is copied. An existing file is
/// left alone unless the user, asked on a terminal, agrees to overwrite it.
pub fn copy_with_prompt(dst_exists: bool, force: bool, is_terminal: bool, answer: Option<bool>) -> (out:
    CopyDecision)
    ensures
        out == if dst_exists && !force {
            if is_terminal {
                match answer {
                    None => CopyDecision::Ask,
                    Some(true) => CopyDecision::Overwrite,
                    Some(false) => CopyDecision::Skip,
                }
            } else {
                CopyDecision::Skip
            }
        } else {
            CopyDecision::Copy
        },
{
    if dst_exists && !force {
        if is_terminal {
            match answer {
                None => CopyDecision::Ask,
                Some(true) => CopyDecision::Overwrite,
                Some(false) => CopyDecision::Skip,
            }
        } else {
            CopyDecision::Skip
        }
    } else {
        CopyDecision::Copy
    }
}

/// What a decision, once carried out, is reported as.
pub fn copy_result(decision: CopyDecision) -> (out: Option<CopyResult>)
    ensures
        out == match decision {
            CopyDecision::Copy => Some(CopyResult::Copied),
            CopyDecision::Overwrite => Some(CopyResult::Overwritten),
            CopyDecision::Skip => Some(CopyResult::Skipped),
            CopyDecision::Ask => None,
        },
{
    match decision {
        CopyDecision::Copy => Some(CopyResult::Copied),
        CopyDecision::Overwrite => Some(CopyResult::Overwritten),
        CopyDecision::Skip => Some(CopyResult::Skipped),
        CopyDecision::Ask => None,
    }
}

/// What to do with a file that is installed from a template.
#[derive(Debug, Clone, Copy, PartialEq, Eq, Structural)]
pub enum TemplateDecision {
    /// The installed file is the template already.
    UpToDate,
    /// Back the installed file up and write the template.
    BackupAndWrite,
    /// Write the template.
    Write,
}

/// Decides what to do with a file installed from `template`, given what is
/// installed at the moment.
pub fn install_template(existing: Option<&str>, template: &str, force: bool) -> (out:
    TemplateDecision)
    ensures
        out == match existing {
            Some(current) => if force {
                TemplateDecision::Write
            } else if current@ == template@ {
                TemplateDecision::UpToDate
            } else {
                TemplateDecision::BackupAndWrite
            },
            None => TemplateDecision::Write,
        },
{
    match existing {
        Some(current) => {
            if force {
                TemplateDecision::Write
            } else if crate::text::str_eq(current, template) {
                TemplateDecision::UpToDate
            } else {
                TemplateDecision::BackupAndWrite
            }
        },
        None => TemplateDecision::Write,
    }
}

/// `value` in decimal, with zeros in front up to `width` digits.
pub open spec fn padded_decimal(value: nat, width: nat) -> Seq<char> {
    if decimal(value).len() >= width {
        decimal(value)
    } else {
        Seq::new((width - decimal(value).len()) as nat, |i: int| '0') + decimal(value)
    }
}

/// Appends `value` in decimal, with zeros in front up to `width` digits.
fn push_padded(buffer: &mut Vec<char>, value: u32, width: usize)
    ensures
        final(buffer)@ == old(buffer)@ + padded_decimal(value as nat, width as nat),
{
    let digits = decimal_digits(value as u64);
    let ghost before = buffer@;
    let mut filled: usize = 0;
    if digits.len() < width {
        let missing: usize = width - digits.len();
        while filled < missing
            invariant
                filled <= missing,
                buffer@ == before + Seq::new(filled as nat, |i: int| '0'),
            decreases missing - filled,
        {
            buffer.push('0');
            filled += 1;
            assert(buffer@ =~= before + Seq::new(filled as nat, |i: int| '0'));
        }
    } else {
        assert(buffer@ =~= before + Seq::new(0, |i: int| '0'));
    }
    let ghost with_zeros = buffer@;
    let mut i: usize = 0;
    while i < digits.len()
        invariant
            i <= digits.len(),
            buffer@ == with_zeros + digits@.take(i as int),
        decreases digits.len() - i,
    {
        buffer.push(digits[i]);
        assert(with_zeros + digits@.take(i + 1) =~= (with_zeros + digits@.take(i as int)).push(
            digits@[i as int],
        ));
        i += 1;
    }
    assert(digits@.take(digits.len() as int) =~= digits@);
    assert(buffer@ =~= before + padded_decimal(value as nat, width as nat));
}

/// A point in time, to the second.
#[derive(Debug, Clone, Copy, PartialEq, Eq, Structural)]
pub struct Timestamp {
    pub year: u32,
    pub month: u8,
    pub day: u8,
    pub hour: u8,
    pub minute: u8,
    pub second: u8,
}

/// The name of the backup of `file_name` made at `at`:
/// `<name>.backup-YYYYMMDD_HHMMSS`.
pub open spec fn spec_backup_file_name(file_name: Seq<char>, at: Timestamp) -> Seq<char> {
    file_name + ".backup-"@ + padded_decimal(at.year as nat, 4) + padded_decimal(
        at.month as nat,
        2,
    ) + padded_decimal(at.day as nat, 2) + "_"@ + padded_decimal(at.hour as nat, 2)
        + padded_decimal(at.minute as nat, 2) + padded_decimal(at.second as nat, 2)
}

/// Names the backup of a file; see [`spec_backup_file_name`].
pub fn backup_file_name(file_name: &str, at: Timestamp) -> (out: String)
    ensures
        out@ == spec_backup_file_name(file_name@, at),
{
    let mut stamp: Vec<char> = Vec::new();
    assert(stamp@ =~= Seq::<char>::empty());
    push_padded(&mut stamp, at.year, 4);
    push_padded(&mut stamp, at.month as u32, 2);
    push_padded(&mut stamp, at.day as u32, 2);
    let date = string_of(&stamp);
    let mut clock: Vec<char> = Vec::new();
    push_padded(&mut clock, at.hour as u32, 2);
    push_padded(&mut clock, at.minute as u32, 2);
    push_padded(&mut clock, at.second as u32, 2);
    let time = string_of(&clock);
    proof {
        assert(date@ =~= padded_decimal(at.year as nat, 4) + padded_decimal(at.month as nat, 2)
            + padded_decimal(at.day as nat, 2));
        assert(time@ =~= padded_decimal(at.hour as nat, 2) + padded_decimal(at.minute as nat, 2)
            + padded_decimal(at.second as nat, 2));
    }
    let out = String::from_str(file_name).concat(".backup-").concat(date.as_str()).concat(
        "_",
    ).concat(time.as_str());
    assert(out@ =~= spec_backup_file_name(file_name@, at));
    out
}

/// The directory of the status bar's configuration.
pub fn waybar_config_dir(config_home: &str) -> (out: String)
    ensures
        out@ == spec_join_path(config_home@, "waybar"@),
{
    join_path(config_home, "waybar")
}

/// The name of the status bar's configuration file that is present, by
/// preference `config.jsonc`, then `config.json`, then `config`.
pub fn find_waybar_config(dir: &str, has_jsonc: bool, has_json: bool, has_plain: bool) -> (out:
    Option<String>)
    ensures
        match out {
            Some(path) => path@ == spec_join_path(
                dir@,
                if has_jsonc {
                    "config.jsonc"@
                } else if has_json {
                    "config.json"@
                } else {
                    "config"@
                },
            ) && (has_jsonc || has_json || has_plain),
            None => !has_jsonc && !has_json && !has_plain,
        },
{
    if has_jsonc {
        Some(join_path(dir, "config.jsonc"))
    } else if has_json {
        Some(join_path(dir, "config.json"))
    } else if has_plain {
        Some(join_path(dir, "config"))
    } else {
        None
    }
}

/// Whether the status bar's configuration defines the module already: it
/// names the module and has an `exec` entry.
pub fn module_already_installed(content: &str) -> (out: bool)
    ensures
        out == (spec_contains(content@, "\"custom/hyprwhspr\""@) && spec_contains(
            content@,
            "exec"@,
        )),
{
    let chars = chars_of(content);
    contains(&chars, &chars_of("\"custom/hyprwhspr\"")) && contains(&chars, &chars_of("exec"))
}

/// The style sheet with the module's styles added: after the existing
/// content, which is closed with a line break where it lacks one, comes an
/// empty line and then the styles.
pub open spec fn spec_css_with_styles(content: Seq<char>, styles: Seq<char>) -> Seq<char> {
    (if content.len() > 0 && content.last() != '\n' {
        content + "\n"@
    } else {
        content
    }) + "\n"@ + styles
}

/// The style sheet to write, or `None` where it holds the module's styles
/// already.
pub fn css_to_install(content: &str, styles: &str) -> (out: Option<String>)
    ensures
        match out {
            Some(css) => !spec_contains(content@, "#custom-hyprwhspr"@) && css@
                == spec_css_with_styles(content@, styles@),
            None => spec_contains(content@, "#custom-hyprwhspr"@),
        },
{
    let chars = chars_of(content);
    if contains(&chars, &chars_of("#custom-hyprwhspr")) {
        return None;
    }
    let mut css = String::from_str(content);
    if chars.len() > 0 && chars[chars.len() - 1] != '\n' {
        css.append("\n");
    }
    css.append("\n");
    css.append(styles);
    Some(css)
}

/// `content` without line comments, scanned from a given state on: a comment
/// begins at `//` unless a colon stands right before it, and ends before the
/// next line feed. `after_colon` says whether the character before `content`
/// is a colon, `in_comment` whether a comment has begun.
pub open spec fn spec_strip_line_comments(content: Seq<char>, after_colon: bool, in_comment: bool) -> Seq<
    char,
>
    decreases content.len(),
{
    if content.len() == 0 {
        content
    } else if in_comment {
        if content[0] == '\n' {
            seq!['\n'] + spec_strip_line_comments(content.skip(1), false, false)
        } else {
            spec_strip_line_comments(content.skip(1), false, true)
        }
    } else if content[0] == '/' && content.len() > 1 && content[1] == '/' && !after_colon {
        spec_strip_line_comments(content.skip(2), false, true)
    } else {
        seq![content[0]] + spec_strip_line_comments(content.skip(1), content[0] == ':', false)
    }
}

/// Removes line comments; the `//` of an address such as `http://` begins
/// none.
pub fn strip_line_comments(content: &str) -> (out: String)
    ensures
        out@ == spec_strip_line_comments(content@, false, false),
{
    let chars = chars_of(content);
    let mut out: Vec<char> = Vec::new();
    let mut after_colon = false;
    let mut in_comment = false;
    let mut i: usize = 0;
    assert(chars@.skip(0) =~= chars@);
    while i < chars.len()
        invariant
            i <= chars.len(),
            out@ + spec_strip_line_comments(chars@.skip(i as int), after_colon, in_comment)
                == spec_strip_line_comments(chars@, false, false),
        decreases chars.len() - i,
    {
        let ghost rest = chars@.skip(i as int);
        let ghost before = out@;
        let ghost whole = spec_strip_line_comments(rest, after_colon, in_comment);
        let c = chars[i];
        assert(rest[0] == c);
        assert(rest.skip(1) =~= chars@.skip(i + 1));
        if i + 1 < chars.len() {
            assert(rest[1] == chars@[i + 1]);
            assert(rest.skip(2) =~= chars@.skip(i + 2));
        }
        if in_comment {
            if c == '\n' {
                out.push(c);
                in_comment = false;
            }
            after_colon = false;
            i += 1;
        } else if c == '/' && i + 1 < chars.len() && chars[i + 1] == '/' && !after_colon {
            in_comment = true;
            after_colon = false;
            i += 2;
        } else {
            out.push(c);
            after_colon = c == ':';
            i += 1;
        }
        assert(out@ + spec_strip_line_comments(chars@.skip(i as int), after_colon, in_comment)
            =~= before + whole);
    }
    assert(out@ + Seq::<char>::empty() =~= out@);
    string_of(&out)
}

/// `content` as plain JSON: without line comments, without block comments,
/// and without the comma before a closing bracket or brace.
pub open spec fn spec_clean_jsonc(content: Seq<char>) -> Seq<char> {
    let without_line_comments = spec_strip_line_comments(content, false, false);
    let without_block_comments = replaced_or_same("(?s)/\\*.*?\\*/"@, without_line_comments, ""@);
    replaced_or_same(",(\\s*[}\\]])"@, without_block_comments, "$1"@)
}

/// Strips what JSON with comments allows beyond JSON; see
/// [`spec_clean_jsonc`].
pub fn clean_jsonc(content: &str) -> (out: String)
    ensures
        out@ == spec_clean_jsonc(content@),
{
    let without_line_comments = strip_line_comments(content);
    let without_block_comments = replace_all(
        "(?s)/\\*.*?\\*/",
        without_line_comments.as_str(),
        "",
    );
    replace_all(",(\\s*[}\\]])", without_block_comments.as_str(), "$1")
}

} // verus!
