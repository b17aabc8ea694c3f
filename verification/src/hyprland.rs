//! Talking to the Hyprland compositor: which commands to send and what to
//! make of the answers.
//!
//! The socket lives with the caller, who sends a command string and hands the
//! trimmed answer back. Answers come as JSON or as `key: value` lines,
//! depending on the compositor's version.

use crate::text::{
    chars_eq_str, chars_of, contains, eq_ignore_ascii_case, is_whitespace, lemma_split_nonempty,
    spec_contains, spec_eq_ignore_ascii_case, spec_is_whitespace, spec_split, spec_starts_with,
    spec_to_ascii_lowercase, spec_trim, split, starts_with, string_of, text_view, texts_view,
    to_ascii_lowercase, trim, views_of,
};
use vstd::prelude::*;
use vstd::string::{StrSliceExecFns, StringExecFns};

verus! {

/// What `serde_json::from_str` and `Value::get` find for the key `field` in
/// `text`: `None` where `text` is not JSON; else the string stored under
/// `field`, if the document is an object that holds a string there.
pub uninterp spec fn json_string_field(text: Seq<char>, field: Seq<char>) -> Option<
    Option<Seq<char>>,
>;

/// For a JSON array in `text`, the strings that each of its elements stores
/// under each of `fields`, as `serde_json` reads them. `None` where `text` is
/// not a JSON array.
pub uninterp spec fn json_array_string_fields(text: Seq<char>, fields: Seq<Seq<char>>) -> Option<
    Seq<Seq<Option<Seq<char>>>>,
>;

/// The characters of each string of each row.
pub open spec fn rows_view(rows: Seq<Vec<Option<String>>>) -> Seq<Seq<Option<Seq<char>>>> {
    rows.map_values(|row: Vec<Option<String>>| row@.map_values(|t: Option<String>| text_view(t)))
}

/// Parses `text` with `serde_json::from_str` into a `Value` and reads the
/// string under `field` with `Value::get` and `Value::as_str`. The contract
/// names the result.
#[verifier::external_body]
fn read_json_string_field(text: &str, field: &str) -> (out: Option<Option<String>>)
    ensures
        match out {
            Some(found) => json_string_field(text@, field@) == Some(text_view(found)),
            None => json_string_field(text@, field@) is None,
        },
{
    match serde_json::from_str::<serde_json::Value>(text) {
        Ok(value) => Some(value.get(field).and_then(|v| v.as_str()).map(|s| s.to_string())),
        Err(_) => None,
    }
}

/// Parses `text` with `serde_json::from_str` into a `Value`, takes it as an
/// array with `Value::as_array` and reads from each element the strings
/// under `fields` with `Value::get` and `Value::as_str`. The contract names
/// the result.
#[verifier::external_body]
fn read_json_array_fields(text: &str, fields: &Vec<String>) -> (out: Option<
    Vec<Vec<Option<String>>>,
>)
    ensures
        match out {
            Some(rows) => json_array_string_fields(text@, texts_view(fields@)) == Some(
                rows_view(rows@),
            ),
            None => json_array_string_fields(text@, texts_view(fields@)) is None,
        },
{
    let value = serde_json::from_str::<serde_json::Value>(text).ok()?;
    let entries = value.as_array()?;
    Some(
        entries.iter().map(
            |entry|
                fields.iter().map(
                    |field| entry.get(field.as_str()).and_then(|v| v.as_str()).map(|s| s.to_string()),
                ).collect(),
        ).collect(),
    )
}

/// Why no window class could be read from an answer.
#[derive(Debug, Clone, Copy, PartialEq, Eq, Structural)]
pub enum HyprlandError {
    /// The answer is neither JSON nor has it a `class` line.
    NoClassEntry,
}

/// Whether the compositor did not know the command.
pub open spec fn spec_is_unknown_request(response: Seq<char>) -> bool {
    spec_eq_ignore_ascii_case(spec_trim(response), "unknown request"@)
}

/// Whether the compositor did not know the command.
pub fn is_unknown_request(response: &str) -> (out: bool)
    ensures
        out == spec_is_unknown_request(response@),
{
    let trimmed = trim(&chars_of(response));
    let expected = chars_of("unknown request");
    eq_ignore_ascii_case(&trimmed, &expected)
}

/// A window address in the form used to compare addresses: trimmed, without
/// a leading `0x`, in lower case.
pub open spec fn spec_normalize_address(address: Seq<char>) -> Seq<char> {
    let trimmed = spec_trim(address);
    if spec_starts_with(trimmed, "0x"@) {
        spec_to_ascii_lowercase(trimmed.skip(2))
    } else {
        spec_to_ascii_lowercase(trimmed)
    }
}

/// Copies `s` from index `from` on.
fn skip_chars(s: &Vec<char>, from: usize) -> (out: Vec<char>)
    requires
        from <= s.len(),
    ensures
        out@ == s@.skip(from as int),
{
    let mut out: Vec<char> = Vec::new();
    let mut i: usize = from;
    while i < s.len()
        invariant
            from <= i <= s.len(),
            out@ == s@.subrange(from as int, i as int),
        decreases s.len() - i,
    {
        out.push(s[i]);
        assert(s@.subrange(from as int, i + 1) =~= s@.subrange(from as int, i as int).push(
            s@[i as int],
        ));
        i += 1;
    }
    assert(s@.subrange(from as int, s.len() as int) =~= s@.skip(from as int));
    out
}

/// Copies the first `to` characters of `s`.
fn take_chars(s: &Vec<char>, to: usize) -> (out: Vec<char>)
    requires
        to <= s.len(),
    ensures
        out@ == s@.take(to as int),
{
    let mut out: Vec<char> = Vec::new();
    let mut i: usize = 0;
    while i < to
        invariant
            i <= to <= s.len(),
            out@ == s@.take(i as int),
        decreases to - i,
    {
        out.push(s[i]);
        assert(s@.take(i + 1) =~= s@.take(i as int).push(s@[i as int]));
        i += 1;
    }
    out
}

/// Brings a window address into the form used to compare addresses.
pub fn normalize_address(address: &str) -> (out: String)
    ensures
        out@ == spec_normalize_address(address@),
{
    let trimmed = trim(&chars_of(address));
    let prefix = chars_of("0x");
    proof {
        reveal_strlit("0x");
    }
    if starts_with(&trimmed, &prefix) {
        let stripped = skip_chars(&trimmed, 2);
        string_of(&to_ascii_lowercase(&stripped))
    } else {
        string_of(&to_ascii_lowercase(&trimmed))
    }
}

/// Index of the first `c` in `s`.
pub open spec fn spec_find_char(s: Seq<char>, c: char) -> Option<int>
    decreases s.len(),
{
    if s.len() == 0 {
        None
    } else if s[0] == c {
        Some(0)
    } else {
        match spec_find_char(s.skip(1), c) {
            Some(i) => Some(i + 1),
            None => None,
        }
    }
}

/// The first index at which `c` stands, with none before it, is what
/// [`spec_find_char`] finds.
pub proof fn lemma_find_char(s: Seq<char>, c: char, n: int)
    requires
        0 <= n <= s.len(),
        forall|j: int| 0 <= j < n ==> s[j] != c,
        n == s.len() || s[n] == c,
    ensures
        spec_find_char(s, c) == if n == s.len() {
            None
        } else {
            Some(n)
        },
    decreases n,
{
    if n > 0 {
        let rest = s.skip(1);
        assert forall|j: int| 0 <= j < n - 1 implies rest[j] != c by {
            assert(rest[j] == s[j + 1]);
        }
        if n - 1 < rest.len() {
            assert(rest[n - 1] == s[n]);
        }
        lemma_find_char(rest, c, n - 1);
    }
}

/// Finds the first `c` in `s`.
fn find_char(s: &Vec<char>, c: char) -> (out: Option<usize>)
    ensures
        match out {
            Some(i) => spec_find_char(s@, c) == Some(i as int) && i < s@.len() && i < usize::MAX,
            None => spec_find_char(s@, c) is None,
        },
{
    let mut i: usize = 0;
    while i < s.len()
        invariant
            i <= s.len(),
            forall|j: int| 0 <= j < i ==> s@[j] != c,
        decreases s.len() - i,
    {
        if s[i] == c {
            proof {
                lemma_find_char(s@, c, i as int);
            }
            return Some(i);
        }
        i += 1;
    }
    proof {
        lemma_find_char(s@, c, i as int);
    }
    None
}

/// The class that a `class: value` or `initialClass: value` line names, if
/// the line is one and the value is not empty.
pub open spec fn spec_parse_class_line(line: Seq<char>) -> Option<Seq<char>> {
    match spec_find_char(line, ':') {
        None => None,
        Some(colon) => {
            let key = spec_to_ascii_lowercase(spec_trim(line.take(colon)));
            let value = spec_trim(line.skip(colon + 1));
            if (key == "class"@ || key == "initialclass"@) && value.len() > 0 {
                Some(value)
            } else {
                None
            }
        },
    }
}

/// Reads the class from a `class: value` or `initialClass: value` line.
fn parse_class_chars(line: &Vec<char>) -> (out: Option<Vec<char>>)
    ensures
        match out {
            Some(class) => spec_parse_class_line(line@) == Some(class@),
            None => spec_parse_class_line(line@) is None,
        },
{
    let colon = match find_char(line, ':') {
        Some(i) => i,
        None => {
            return None;
        },
    };
    let key = to_ascii_lowercase(&trim(&take_chars(line, colon)));
    let value = trim(&skip_chars(line, colon + 1));
    if (chars_eq_str(&key, "class") || chars_eq_str(&key, "initialclass")) && value.len() > 0 {
        Some(value)
    } else {
        None
    }
}

/// Reads the class from a `class: value` or `initialClass: value` line; see
/// [`spec_parse_class_line`].
pub fn parse_class_line(line: &str) -> (out: Option<String>)
    ensures
        text_view(out) == spec_parse_class_line(line@),
{
    match parse_class_chars(&chars_of(line)) {
        Some(class) => Some(string_of(&class)),
        None => None,
    }
}

/// The lines of `text`: the pieces between line feeds, without an empty piece
/// after the last line feed.
pub open spec fn spec_lines(text: Seq<char>) -> Seq<Seq<char>> {
    let parts = spec_split(text, '\n');
    if parts.last().len() == 0 {
        parts.drop_last()
    } else {
        parts
    }
}

/// Splits `text` into its lines.
fn lines_of(text: &Vec<char>) -> (out: Vec<Vec<char>>)
    ensures
        views_of(out@) == spec_lines(text@),
{
    let mut parts = split(text, '\n');
    proof {
        lemma_split_nonempty(text@, '\n');
    }
    let ghost all = views_of(parts@);
    assert(all.last() == parts@[parts.len() - 1]@);
    if parts[parts.len() - 1].len() == 0 {
        parts.pop();
        assert(views_of(parts@) =~= all.drop_last());
    }
    parts
}

/// The class of the client with the address `target` in a plain-text client
/// list, scanning `lines` with `in_target` telling whether the block of that
/// client has begun.
///
/// A block begins with a line that holds the address and ends with an empty
/// line; the first class line from the beginning of the block on names the
/// class.
pub open spec fn spec_scan_clients(lines: Seq<Seq<char>>, target: Seq<char>, in_target: bool) -> Option<
    Seq<char>,
>
    decreases lines.len(),
{
    if lines.len() == 0 {
        None
    } else {
        let trimmed = spec_trim(lines[0]);
        if trimmed.len() == 0 {
            spec_scan_clients(lines.skip(1), target, false)
        } else {
            let inside = in_target || spec_contains(spec_to_ascii_lowercase(trimmed), target);
            if inside && spec_parse_class_line(trimmed) is Some {
                spec_parse_class_line(trimmed)
            } else {
                spec_scan_clients(lines.skip(1), target, inside)
            }
        }
    }
}

/// The class of the client at `address` in a plain-text client list.
pub open spec fn spec_extract_class_from_clients_text(text: Seq<char>, address: Seq<char>) -> Option<
    Seq<char>,
> {
    spec_scan_clients(spec_lines(text), spec_normalize_address(address), false)
}

/// Finds the class of the client at `address` in a plain-text client list;
/// see [`spec_scan_clients`].
pub fn extract_class_from_clients_text(text: &str, address: &str) -> (out: Option<String>)
    ensures
        text_view(out) == spec_extract_class_from_clients_text(text@, address@),
{
    let target = chars_of(normalize_address(address).as_str());
    let lines = lines_of(&chars_of(text));
    let ghost all = views_of(lines@);
    let mut in_target = false;
    let mut i: usize = 0;
    assert(all.skip(0) =~= all);
    while i < lines.len()
        invariant
            i <= lines.len(),
            all == views_of(lines@),
            all == spec_lines(text@),
            target@ == spec_normalize_address(address@),
            spec_scan_clients(all.skip(i as int), target@, in_target) == spec_scan_clients(
                all,
                target@,
                false,
            ),
        decreases lines.len() - i,
    {
        proof {
            assert(all.skip(i as int)[0] == lines@[i as int]@);
            assert(all.skip(i as int).skip(1) =~= all.skip(i + 1));
        }
        let trimmed = trim(&lines[i]);
        if trimmed.len() == 0 {
            in_target = false;
        } else {
            let lower = to_ascii_lowercase(&trimmed);
            if contains(&lower, &target) {
                in_target = true;
            }
            if in_target {
                if let Some(class) = parse_class_chars(&trimmed) {
                    return Some(string_of(&class));
                }
            }
        }
        i += 1;
    }
    None
}

/// The class named by the first line of `lines` that reads `class: value`,
/// with the key in any case.
pub open spec fn spec_first_class_line(lines: Seq<Seq<char>>) -> Option<Seq<char>>
    decreases lines.len(),
{
    if lines.len() == 0 {
        None
    } else {
        let trimmed = spec_trim(lines[0]);
        match spec_find_char(trimmed, ':') {
            Some(colon) => if spec_eq_ignore_ascii_case(spec_trim(trimmed.take(colon)), "class"@) {
                Some(spec_trim(trimmed.skip(colon + 1)))
            } else {
                spec_first_class_line(lines.skip(1))
            },
            None => spec_first_class_line(lines.skip(1)),
        }
    }
}

/// The window class that an answer to an active-window query names.
///
/// An empty answer names none. A JSON answer names the string under `class`,
/// if there is one. Any other answer names what its first `class:` line
/// says, and is an error without such a line.
pub open spec fn spec_extract_window_class(response: Seq<char>) -> Result<
    Option<Seq<char>>,
    HyprlandError,
> {
    if response.len() == 0 {
        Ok(None)
    } else {
        match json_string_field(response, "class"@) {
            Some(found) => Ok(found),
            None => match spec_first_class_line(spec_lines(response)) {
                Some(class) => Ok(Some(class)),
                None => Err(HyprlandError::NoClassEntry),
            },
        }
    }
}

/// Scans `lines` for the first `class: value` line.
fn first_class_line(lines: &Vec<Vec<char>>) -> (out: Option<Vec<char>>)
    ensures
        match out {
            Some(class) => spec_first_class_line(views_of(lines@)) == Some(class@),
            None => spec_first_class_line(views_of(lines@)) is None,
        },
{
    let ghost all = views_of(lines@);
    let class_key = chars_of("class");
    let mut i: usize = 0;
    assert(all.skip(0) =~= all);
    while i < lines.len()
        invariant
            i <= lines.len(),
            all == views_of(lines@),
            class_key@ == "class"@,
            spec_first_class_line(all.skip(i as int)) == spec_first_class_line(all),
        decreases lines.len() - i,
    {
        proof {
            assert(all.skip(i as int)[0] == lines@[i as int]@);
            assert(all.skip(i as int).skip(1) =~= all.skip(i + 1));
        }
        let trimmed = trim(&lines[i]);
        if let Some(colon) = find_char(&trimmed, ':') {
            let key = trim(&take_chars(&trimmed, colon));
            if eq_ignore_ascii_case(&key, &class_key) {
                return Some(trim(&skip_chars(&trimmed, colon + 1)));
            }
        }
        i += 1;
    }
    None
}

/// Reads the window class from an answer to an active-window query; see
/// [`spec_extract_window_class`].
pub fn extract_window_class_from_response(response: &str) -> (out: Result<
    Option<String>,
    HyprlandError,
>)
    ensures
        match out {
            Ok(found) => spec_extract_window_class(response@) == Ok::<
                Option<Seq<char>>,
                HyprlandError,
            >(text_view(found)),
            Err(e) => spec_extract_window_class(response@) == Err::<
                Option<Seq<char>>,
                HyprlandError,
            >(e),
        },
{
    let chars = chars_of(response);
    if chars.len() == 0 {
        return Ok(None);
    }
    if let Some(found) = read_json_string_field(response, "class") {
        return Ok(found);
    }
    let lines = lines_of(&chars);
    match first_class_line(&lines) {
        Some(class) => Ok(Some(string_of(&class))),
        None => Err(HyprlandError::NoClassEntry),
    }
}

/// The window class that an answer to an active-window command names, or
/// `None` where the answer is empty, the command unknown or no class can be
/// read.
pub open spec fn spec_handle_activewindow_response(response: Seq<char>) -> Option<Seq<char>> {
    let trimmed = spec_trim(response);
    if trimmed.len() == 0 || spec_is_unknown_request(trimmed) {
        None
    } else {
        match spec_extract_window_class(trimmed) {
            Ok(found) => found,
            Err(_) => None,
        }
    }
}

/// Reads the window class from the answer to an active-window command; see
/// [`spec_handle_activewindow_response`]. Whether JSON was expected makes no
/// difference to the result.
pub fn handle_activewindow_response(response: &str, expect_json: bool) -> (out: Option<String>)
    ensures
        text_view(out) == spec_handle_activewindow_response(response@),
{
    let trimmed = string_of(&trim(&chars_of(response)));
    if trimmed.as_str().unicode_len() == 0 {
        return None;
    }
    if is_unknown_request(trimmed.as_str()) {
        return None;
    }
    if expect_json {
        if let Ok(Some(class)) = extract_window_class_from_response(trimmed.as_str()) {
            return Some(class);
        }
    }
    match extract_window_class_from_response(trimmed.as_str()) {
        Ok(found) => found,
        Err(_) => None,
    }
}

/// The fields read from each client of a JSON client list.
pub open spec fn client_fields() -> Seq<Seq<char>> {
    seq!["address"@, "class"@, "initialClass"@]
}

/// The class of the first of `rows` whose address is `target` and that has a
/// non-empty class or, failing that, a non-empty initial class.
pub open spec fn spec_class_of_client(rows: Seq<Seq<Option<Seq<char>>>>, target: Seq<char>) -> Option<
    Seq<char>,
>
    decreases rows.len(),
{
    if rows.len() == 0 {
        None
    } else {
        let row = rows[0];
        if row.len() == 3 && row[0] is Some && spec_normalize_address(row[0]->0) == target {
            if row[1] is Some && row[1]->0.len() > 0 {
                row[1]
            } else if row[2] is Some && row[2]->0.len() > 0 {
                row[2]
            } else {
                spec_class_of_client(rows.skip(1), target)
            }
        } else {
            spec_class_of_client(rows.skip(1), target)
        }
    }
}

/// The class of the client at `address` in a JSON client list; `None` where
/// the text is no JSON array.
pub open spec fn spec_extract_class_from_clients_json(text: Seq<char>, address: Seq<char>) -> Option<
    Seq<char>,
> {
    match json_array_string_fields(text, client_fields()) {
        Some(rows) => spec_class_of_client(rows, spec_normalize_address(address)),
        None => None,
    }
}

/// Finds the class of the client at `address` in a JSON client list; see
/// [`spec_class_of_client`].
pub fn extract_class_from_clients_json(text: &str, address: &str) -> (out: Option<String>)
    ensures
        text_view(out) == spec_extract_class_from_clients_json(text@, address@),
{
    let mut fields: Vec<String> = Vec::new();
    fields.push("address".to_owned());
    fields.push("class".to_owned());
    fields.push("initialClass".to_owned());
    assert(texts_view(fields@) =~= client_fields());
    let rows = match read_json_array_fields(text, &fields) {
        Some(rows) => rows,
        None => {
            return None;
        },
    };
    let target = chars_of(normalize_address(address).as_str());
    let ghost all = rows_view(rows@);
    let mut i: usize = 0;
    assert(all.skip(0) =~= all);
    while i < rows.len()
        invariant
            i <= rows.len(),
            all == rows_view(rows@),
            json_array_string_fields(text@, client_fields()) == Some(all),
            target@ == spec_normalize_address(address@),
            spec_class_of_client(all.skip(i as int), target@) == spec_class_of_client(
                all,
                target@,
            ),
        decreases rows.len() - i,
    {
        let row = &rows[i];
        proof {
            assert(all.skip(i as int)[0] == all[i as int]);
            assert(all[i as int] == row@.map_values(|t: Option<String>| text_view(t)));
            assert(all.skip(i as int).skip(1) =~= all.skip(i + 1));
            if row.len() == 3 {
                assert(all[i as int][0] == text_view(row@[0]));
                assert(all[i as int][1] == text_view(row@[1]));
                assert(all[i as int][2] == text_view(row@[2]));
            }
        }
        if row.len() == 3 {
            if let Some(found) = &row[0] {
                let normalized = chars_of(normalize_address(found.as_str()).as_str());
                if crate::text::chars_eq(&normalized, &target) {
                    if let Some(class) = &row[1] {
                        if class.as_str().unicode_len() > 0 {
                            return Some(class.clone());
                        }
                    }
                    if let Some(class) = &row[2] {
                        if class.as_str().unicode_len() > 0 {
                            return Some(class.clone());
                        }
                    }
                }
            }
        }
        i += 1;
    }
    None
}

/// `parts` joined with single spaces.
pub open spec fn joined_by_space(parts: Seq<Seq<char>>) -> Seq<char>
    decreases parts.len(),
{
    if parts.len() == 0 {
        Seq::<char>::empty()
    } else if parts.len() == 1 {
        parts[0]
    } else {
        joined_by_space(parts.drop_last()) + " "@ + parts.last()
    }
}

/// The command that has the compositor send a key with modifiers to a
/// target: `dispatch sendshortcut <modifiers>, <key>, <target>`, where the
/// modifiers and the target are left out with their commas when there are
/// none.
pub open spec fn spec_send_shortcut_command(
    modifiers: Seq<Seq<char>>,
    key: Seq<char>,
    target: Option<Seq<char>>,
) -> Seq<char> {
    let target_segment = match target {
        Some(t) => ", "@ + t,
        None => Seq::<char>::empty(),
    };
    if joined_by_space(modifiers).len() == 0 {
        "dispatch sendshortcut "@ + key + target_segment
    } else {
        "dispatch sendshortcut "@ + joined_by_space(modifiers) + ", "@ + key + target_segment
    }
}

/// Builds the command that has the compositor send a shortcut; see
/// [`spec_send_shortcut_command`].
pub fn send_shortcut_command(modifiers: &Vec<String>, key: &str, target: Option<&str>) -> (out:
    String)
    ensures
        out@ == spec_send_shortcut_command(
            texts_view(modifiers@),
            key@,
            match target {
                Some(t) => Some(t@),
                None => None,
            },
        ),
{
    let mut mods = String::from_str("");
    proof {
        reveal_strlit("");
        assert(mods@ =~= Seq::<char>::empty());
    }
    let ghost all = texts_view(modifiers@);
    let mut i: usize = 0;
    assert(all.take(0) =~= Seq::<Seq<char>>::empty());
    while i < modifiers.len()
        invariant
            i <= modifiers.len(),
            all == texts_view(modifiers@),
            mods@ == joined_by_space(all.take(i as int)),
        decreases modifiers.len() - i,
    {
        proof {
            assert(all.take(i + 1).drop_last() =~= all.take(i as int));
            assert(all.take(i + 1).last() == modifiers@[i as int]@);
            if i == 0 {
                assert(all.take(1)[0] == modifiers@[0]@);
                assert(Seq::<char>::empty() + modifiers@[0]@ =~= modifiers@[0]@);
            }
        }
        if i > 0 {
            mods.append(" ");
        }
        mods.append(modifiers[i].as_str());
        i += 1;
    }
    assert(all.take(modifiers.len() as int) =~= all);
    let mut command = String::from_str("dispatch sendshortcut ");
    if mods.as_str().unicode_len() > 0 {
        command.append(mods.as_str());
        command.append(", ");
    }
    command.append(key);
    match target {
        Some(t) => {
            command.append(", ");
            command.append(t);
        },
        None => {
            assert(command@ + Seq::<char>::empty() =~= command@);
        },
    }
    command
}

/// Whether the compositor accepted a shortcut: it answers nothing or `ok`.
pub fn shortcut_accepted(response: &str) -> (out: bool)
    ensures
        out == (response@.len() == 0 || spec_eq_ignore_ascii_case(response@, "ok"@)),
{
    let chars = chars_of(response);
    let ok = chars_of("ok");
    chars.len() == 0 || eq_ignore_ascii_case(&chars, &ok)
}

/// The command that pastes into the active window: `Ctrl+V`, or
/// `Ctrl+Shift+V` where the window wants the shift key.
pub fn paste_shortcut_command(use_shift: bool) -> (out: String)
    ensures
        out@ == spec_send_shortcut_command(
            if use_shift {
                seq!["ctrl"@, "shift"@]
            } else {
                seq!["ctrl"@]
            },
            "v"@,
            Some("active"@),
        ),
{
    let mut modifiers: Vec<String> = Vec::new();
    modifiers.push("ctrl".to_owned());
    if use_shift {
        modifiers.push("shift".to_owned());
        assert(texts_view(modifiers@) =~= seq!["ctrl"@, "shift"@]);
    } else {
        assert(texts_view(modifiers@) =~= seq!["ctrl"@]);
    }
    send_shortcut_command(&modifiers, "v", Some("active"))
}

/// The command that pastes with `Shift+Insert`, which most applications
/// take, terminals included.
pub fn global_paste_shortcut_command() -> (out: String)
    ensures
        out@ == spec_send_shortcut_command(seq!["shift"@], "Insert"@, Some("active"@)),
{
    let mut modifiers: Vec<String> = Vec::new();
    modifiers.push("shift".to_owned());
    assert(texts_view(modifiers@) =~= seq!["shift"@]);
    send_shortcut_command(&modifiers, "Insert", Some("active"))
}

/// A question put to the compositor to learn the class of the active window.
#[derive(Debug, Clone, PartialEq, Eq)]
pub enum WindowQuery {
    /// The active window, answered in JSON.
    JsonActiveWindow,
    /// The active window, answered in plain text.
    PlainActiveWindow,
    /// The address of the active window.
    ActiveWindowV2,
    /// The list of clients, to look the window at this address up.
    Clients(String),
}

/// What follows the answer to a window query.
#[derive(Debug, Clone, PartialEq, Eq)]
pub enum QueryStep {
    /// Put this question next.
    Ask(WindowQuery),
    /// The class of the active window.
    Found(String),
    /// The class cannot be learnt.
    Unknown,
}

/// What follows an answer, as contracts see it.
pub enum QueryStepView {
    AskPlainActiveWindow,
    AskActiveWindowV2,
    AskClients(Seq<char>),
    Found(Seq<char>),
    Unknown,
}

impl View for QueryStep {
    type V = QueryStepView;

    open spec fn view(&self) -> QueryStepView {
        match self {
            QueryStep::Ask(WindowQuery::JsonActiveWindow) => QueryStepView::Unknown,
            QueryStep::Ask(WindowQuery::PlainActiveWindow) => QueryStepView::AskPlainActiveWindow,
            QueryStep::Ask(WindowQuery::ActiveWindowV2) => QueryStepView::AskActiveWindowV2,
            QueryStep::Ask(WindowQuery::Clients(address)) => QueryStepView::AskClients(address@),
            QueryStep::Found(class) => QueryStepView::Found(class@),
            QueryStep::Unknown => QueryStepView::Unknown,
        }
    }
}

/// The first word of `text`: what stands between the white space at its
/// start and the next white space.
pub open spec fn spec_first_word(text: Seq<char>) -> Seq<char> {
    let rest = crate::text::spec_trim_start(text);
    rest.take(word_len(rest) as int)
}

/// Number of characters at the start of `s` that are not white space.
pub open spec fn word_len(s: Seq<char>) -> nat
    decreases s.len(),
{
    if s.len() > 0 && !spec_is_whitespace(s[0]) {
        1 + word_len(s.skip(1))
    } else {
        0
    }
}

/// A run of `n` characters without white space that ends the sequence or is
/// followed by white space is the whole first word.
proof fn lemma_word_len(s: Seq<char>, n: int)
    requires
        0 <= n <= s.len(),
        forall|j: int| 0 <= j < n ==> !spec_is_whitespace(s[j]),
        n == s.len() || spec_is_whitespace(s[n]),
    ensures
        word_len(s) == n,
    decreases n,
{
    if n > 0 {
        let rest = s.skip(1);
        assert forall|j: int| 0 <= j < n - 1 implies !spec_is_whitespace(rest[j]) by {
            assert(rest[j] == s[j + 1]);
        }
        if n - 1 < rest.len() {
            assert(rest[n - 1] == s[n]);
        }
        lemma_word_len(rest, n - 1);
    }
}

/// Copies the first word of `text`.
fn first_word(text: &Vec<char>) -> (out: Vec<char>)
    ensures
        out@ == spec_first_word(text@),
{
    let mut start: usize = 0;
    while start < text.len() && is_whitespace(text[start])
        invariant
            start <= text.len(),
            forall|j: int| 0 <= j < start ==> spec_is_whitespace(text@[j]),
        decreases text.len() - start,
    {
        start += 1;
    }
    proof {
        crate::text::lemma_leading_whitespace(text@, start as int);
    }
    let rest = skip_chars(text, start);
    let mut end: usize = 0;
    while end < rest.len() && !is_whitespace(rest[end])
        invariant
            end <= rest.len(),
            forall|j: int| 0 <= j < end ==> !spec_is_whitespace(rest@[j]),
        decreases rest.len() - end,
    {
        end += 1;
    }
    proof {
        lemma_word_len(rest@, end as int);
    }
    take_chars(&rest, end)
}

/// The question to begin with.
pub fn first_window_query() -> (out: WindowQuery)
    ensures
        out == WindowQuery::JsonActiveWindow,
{
    WindowQuery::JsonActiveWindow
}

/// The command that puts a question to the compositor.
pub fn window_query_command(query: &WindowQuery) -> (out: String)
    ensures
        out@ == match query {
            WindowQuery::JsonActiveWindow => "j/activewindow"@,
            WindowQuery::PlainActiveWindow => "activewindow"@,
            WindowQuery::ActiveWindowV2 => "activewindowv2"@,
            WindowQuery::Clients(_) => "j/clients"@,
        },
{
    match query {
        WindowQuery::JsonActiveWindow => "j/activewindow".to_owned(),
        WindowQuery::PlainActiveWindow => "activewindow".to_owned(),
        WindowQuery::ActiveWindowV2 => "activewindowv2".to_owned(),
        WindowQuery::Clients(_) => "j/clients".to_owned(),
    }
}

/// Decides what follows the answer to a window query.
///
/// The active window is asked for in JSON, then in plain text. Where neither
/// names a class, the address of the active window is asked for and looked
/// up in the client list, read as JSON first and as plain text second.
pub fn next_window_query(query: &WindowQuery, response: &str) -> (out: QueryStep)
    ensures
        out@ == match query {
            WindowQuery::JsonActiveWindow => match spec_handle_activewindow_response(response@) {
                Some(class) => QueryStepView::Found(class),
                None => QueryStepView::AskPlainActiveWindow,
            },
            WindowQuery::PlainActiveWindow => match spec_handle_activewindow_response(response@) {
                Some(class) => QueryStepView::Found(class),
                None => QueryStepView::AskActiveWindowV2,
            },
            WindowQuery::ActiveWindowV2 => if spec_is_unknown_request(response@)
                || spec_first_word(response@).len() == 0 {
                QueryStepView::Unknown
            } else {
                QueryStepView::AskClients(spec_first_word(response@))
            },
            WindowQuery::Clients(address) => if spec_is_unknown_request(response@) {
                QueryStepView::Unknown
            } else {
                match spec_extract_class_from_clients_json(response@, address@) {
                    Some(class) => QueryStepView::Found(class),
                    None => match spec_extract_class_from_clients_text(response@, address@) {
                        Some(class) => QueryStepView::Found(class),
                        None => QueryStepView::Unknown,
                    },
                }
            },
        },
{
    match query {
        WindowQuery::JsonActiveWindow => match handle_activewindow_response(response, true) {
            Some(class) => QueryStep::Found(class),
            None => QueryStep::Ask(WindowQuery::PlainActiveWindow),
        },
        WindowQuery::PlainActiveWindow => match handle_activewindow_response(response, false) {
            Some(class) => QueryStep::Found(class),
            None => QueryStep::Ask(WindowQuery::ActiveWindowV2),
        },
        WindowQuery::ActiveWindowV2 => {
            if is_unknown_request(response) {
                return QueryStep::Unknown;
            }
            let word = first_word(&chars_of(response));
            if word.len() == 0 {
                QueryStep::Unknown
            } else {
                QueryStep::Ask(WindowQuery::Clients(string_of(&word)))
            }
        },
        WindowQuery::Clients(address) => {
            if is_unknown_request(response) {
                return QueryStep::Unknown;
            }
            if let Some(class) = extract_class_from_clients_json(response, address.as_str()) {
                return QueryStep::Found(class);
            }
            match extract_class_from_clients_text(response, address.as_str()) {
                Some(class) => QueryStep::Found(class),
                None => QueryStep::Unknown,
            }
        },
    }
}

} // verus!
