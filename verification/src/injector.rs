//! Preparing transcribed text for injection.
//!
//! Speech recognisers write punctuation out in words, leave stray commas and
//! spaces around brackets and break lines at will. The functions here turn
//! such text into what the speaker meant to type.

use crate::patterns::{
    count_matches, match_count_or_zero, regex_escape, regex_group_matches,
    regex_group_texts, regex_pieces, regex_split, replace_all, replaced_or_same, spec_escape,
};
use crate::text::{
    ascii_upper, chars_eq_str, chars_of, eq_ignore_ascii_case, is_whitespace, opt_texts_view,
    spec_ascii_upper, spec_eq_ignore_ascii_case, spec_is_whitespace, spec_to_ascii_lowercase,
    spec_trim, str_eq, string_of, text_view, texts_view, to_ascii_lowercase, trim, views_of,
};
use vstd::string::StringExecFns;
use vstd::prelude::*;
use vstd::string::StrSliceExecFns;

verus! {

/// Symbols of which two in a row, separated by white space, are pulled
/// together.
pub open spec fn merge_symbols() -> Seq<char> {
    seq!['-', '_', '+', '*', '/', '=', '~', '^']
}

/// `input` with every line break (`\r\n`, `\r` or `\n`) replaced by a space.
pub open spec fn spec_normalize_line_breaks(input: Seq<char>) -> Seq<char>
    decreases input.len(),
{
    if input.len() == 0 {
        input
    } else if input[0] == '\r' && input.len() > 1 && input[1] == '\n' {
        seq![' '] + spec_normalize_line_breaks(input.skip(2))
    } else if input[0] == '\r' || input[0] == '\n' {
        seq![' '] + spec_normalize_line_breaks(input.skip(1))
    } else {
        seq![input[0]] + spec_normalize_line_breaks(input.skip(1))
    }
}

/// Replaces every line break by a space.
pub fn normalize_line_breaks(input: &str) -> (out: String)
    ensures
        out@ == spec_normalize_line_breaks(input@),
{
    let chars = chars_of(input);
    let mut out: Vec<char> = Vec::new();
    let mut i: usize = 0;
    assert(chars@.skip(0) =~= chars@);
    while i < chars.len()
        invariant
            i <= chars.len(),
            out@ + spec_normalize_line_breaks(chars@.skip(i as int)) == spec_normalize_line_breaks(
                chars@,
            ),
        decreases chars.len() - i,
    {
        let ghost rest = chars@.skip(i as int);
        let ghost before = out@;
        let c = chars[i];
        assert(rest[0] == c);
        if c == '\r' && i + 1 < chars.len() && chars[i + 1] == '\n' {
            assert(rest[1] == chars@[i + 1]);
            assert(rest.skip(2) =~= chars@.skip(i + 2));
            out.push(' ');
            i += 2;
            assert(out@ + spec_normalize_line_breaks(chars@.skip(i as int)) =~= before
                + spec_normalize_line_breaks(rest));
        } else {
            assert(rest.skip(1) =~= chars@.skip(i + 1));
            if i + 1 < chars.len() {
                assert(rest[1] == chars@[i + 1]);
            }
            if c == '\r' || c == '\n' {
                out.push(' ');
            } else {
                out.push(c);
            }
            i += 1;
            assert(out@ + spec_normalize_line_breaks(chars@.skip(i as int)) =~= before
                + spec_normalize_line_breaks(rest));
        }
    }
    assert(out@ + Seq::<char>::empty() =~= out@);
    string_of(&out)
}

/// `input` with every run of spaces replaced by one space.
pub open spec fn spec_collapse_spaces(input: Seq<char>) -> Seq<char> {
    replaced_or_same(" +"@, input, " "@)
}

/// Replaces every run of spaces by one space.
pub fn collapse_spaces(input: &str) -> (out: String)
    ensures
        out@ == spec_collapse_spaces(input@),
{
    replace_all(" +", input, " ")
}

/// `input` after the cleanup of what transcription leaves around control
/// characters, brackets and punctuation, one replacement after the other:
/// punctuation after a line break or tab, blanks before one, `.,;` after a
/// bracket, spaces inside parentheses, commas next to brackets, blanks
/// before punctuation, and repeated commas.
pub open spec fn spec_clean_control_artifacts(input: Seq<char>) -> Seq<char> {
    let without_control_punct = replaced_or_same("([\\n\\t])\\s*[.!?,;:]+"@, input, "$1"@);
    let without_trailing_space = replaced_or_same("[ \\t]+([\\n\\t])"@, without_control_punct, "$1"@);
    let without_symbol_punct = replaced_or_same("([()\\[\\]\\{\\}])\\s*[.,;]+"@, without_trailing_space, "$1"@);
    let collapsed_open = replaced_or_same("\\( +"@, without_symbol_punct, "("@);
    let collapsed_close = replaced_or_same(" +\\)"@, collapsed_open, ")"@);
    let no_open_comma = replaced_or_same("\\(\\s*,\\s*"@, collapsed_close, "("@);
    let no_close_comma = replaced_or_same("\\s*,\\s*\\)"@, no_open_comma, ")"@);
    let no_open_bracket_comma = replaced_or_same("\\[\\s*,\\s*"@, no_close_comma, "[ "@);
    let no_close_bracket_comma = replaced_or_same("\\s*,\\s*\\]"@, no_open_bracket_comma, " ]"@);
    let no_open_brace_comma = replaced_or_same("\\{\\s*,\\s*"@, no_close_bracket_comma, "{ "@);
    let no_close_brace_comma = replaced_or_same("\\s*,\\s*\\}"@, no_open_brace_comma, " }"@);
    let no_space_before_punct = replaced_or_same("[ \\t]+([,.;:!?])"@, no_close_brace_comma, "$1"@);
    let no_duplicate_commas = replaced_or_same(",(?:\\s*,)+"@, no_space_before_punct, ","@);
    no_duplicate_commas
}

/// Removes what transcription leaves around control characters, brackets
/// and punctuation; see [`spec_clean_control_artifacts`].
pub fn clean_control_artifacts(input: &str) -> (out: String)
    ensures
        out@ == spec_clean_control_artifacts(input@),
{
    let without_control_punct = replace_all("([\\n\\t])\\s*[.!?,;:]+", input, "$1");
    let without_trailing_space = replace_all("[ \\t]+([\\n\\t])", without_control_punct.as_str(), "$1");
    let without_symbol_punct = replace_all("([()\\[\\]\\{\\}])\\s*[.,;]+", without_trailing_space.as_str(), "$1");
    let collapsed_open = replace_all("\\( +", without_symbol_punct.as_str(), "(");
    let collapsed_close = replace_all(" +\\)", collapsed_open.as_str(), ")");
    let no_open_comma = replace_all("\\(\\s*,\\s*", collapsed_close.as_str(), "(");
    let no_close_comma = replace_all("\\s*,\\s*\\)", no_open_comma.as_str(), ")");
    let no_open_bracket_comma = replace_all("\\[\\s*,\\s*", no_close_comma.as_str(), "[ ");
    let no_close_bracket_comma = replace_all("\\s*,\\s*\\]", no_open_bracket_comma.as_str(), " ]");
    let no_open_brace_comma = replace_all("\\{\\s*,\\s*", no_close_bracket_comma.as_str(), "{ ");
    let no_close_brace_comma = replace_all("\\s*,\\s*\\}", no_open_brace_comma.as_str(), " }");
    let no_space_before_punct = replace_all("[ \\t]+([,.;:!?])", no_close_brace_comma.as_str(), "$1");
    let no_duplicate_commas = replace_all(",(?:\\s*,)+", no_space_before_punct.as_str(), ",");
    no_duplicate_commas
}

/// The sum of two counts, capped at `usize::MAX`.
pub open spec fn capped_add(a: usize, b: usize) -> usize {
    if a + b > usize::MAX {
        usize::MAX
    } else {
        (a + b) as usize
    }
}

/// `input` without blanks before and after line feeds, with the number of
/// places where blanks were removed.
pub open spec fn spec_trim_spaces_around_newlines(input: Seq<char>) -> (Seq<char>, usize) {
    let without_trailing = replaced_or_same("[ \\t]+\\n"@, input, "\n"@);
    (
        replaced_or_same("\\n[ \\t]+"@, without_trailing, "\n"@),
        capped_add(
            match_count_or_zero("[ \\t]+\\n"@, input),
            match_count_or_zero("\\n[ \\t]+"@, without_trailing),
        ),
    )
}

/// Removes blanks before and after line feeds.
pub fn trim_spaces_around_newlines(input: &str) -> (out: (String, usize))
    ensures
        out.0@ == spec_trim_spaces_around_newlines(input@).0,
        out.1 == spec_trim_spaces_around_newlines(input@).1,
{
    let trailing_matches = count_matches("[ \\t]+\\n", input);
    let without_trailing = replace_all("[ \\t]+\\n", input, "\n");
    let leading_matches = count_matches("\\n[ \\t]+", without_trailing.as_str());
    let final_result = replace_all("\\n[ \\t]+", without_trailing.as_str(), "\n");
    (final_result, trailing_matches.saturating_add(leading_matches))
}

/// `text` after `pattern` was replaced again and again until it matches no
/// more, with the number of matches replaced. The rounds end as well when
/// one of them does not make the text shorter.
pub open spec fn spec_replace_until_settled(
    pattern: Seq<char>,
    replacement: Seq<char>,
    text: Seq<char>,
) -> (Seq<char>, usize)
    decreases text.len(),
{
    let matches = match_count_or_zero(pattern, text);
    if matches == 0 {
        (text, 0)
    } else {
        let next = replaced_or_same(pattern, text, replacement);
        if next.len() < text.len() {
            let (settled, more) = spec_replace_until_settled(pattern, replacement, next);
            (settled, capped_add(matches, more))
        } else {
            (next, matches)
        }
    }
}

/// Replaces `pattern` in `text` until it matches no more.
pub fn replace_until_settled(pattern: &str, replacement: &str, text: String) -> (out: (
    String,
    usize,
))
    ensures
        out.0@ == spec_replace_until_settled(pattern@, replacement@, text@).0,
        out.1 == spec_replace_until_settled(pattern@, replacement@, text@).1,
    decreases text@.len(),
{
    let matches = count_matches(pattern, text.as_str());
    if matches == 0 {
        return (text, 0);
    }
    let next = replace_all(pattern, text.as_str(), replacement);
    if next.as_str().unicode_len() < text.as_str().unicode_len() {
        let (settled, more) = replace_until_settled(pattern, replacement, next);
        (settled, matches.saturating_add(more))
    } else {
        (next, matches)
    }
}

/// The pattern for two of `symbol` separated by white space.
pub open spec fn spaced_pair_pattern(symbol: char) -> Seq<char> {
    spec_escape(seq![symbol]) + "\\s+"@ + spec_escape(seq![symbol])
}

/// `input` after the spaced pairs of the first `n` merge symbols were pulled
/// together, with the number of pairs.
pub open spec fn spec_merge_symbols_upto(input: Seq<char>, n: nat) -> (Seq<char>, usize)
    decreases n,
{
    if n == 0 || n > merge_symbols().len() {
        (input, 0)
    } else {
        let (before, count) = spec_merge_symbols_upto(input, (n - 1) as nat);
        let symbol = merge_symbols()[n - 1];
        let (after, more) = spec_replace_until_settled(
            spaced_pair_pattern(symbol),
            seq![symbol, symbol],
            before,
        );
        (after, capped_add(count, more))
    }
}

/// `input` with every pair of identical merge symbols that white space
/// separates pulled together, with the number of pairs.
pub open spec fn spec_merge_separated_identical_symbols(input: Seq<char>) -> (Seq<char>, usize) {
    spec_merge_symbols_upto(input, merge_symbols().len())
}

/// The merge symbol at `index`.
fn merge_symbol(index: usize) -> (symbol: char)
    requires
        index < merge_symbols().len(),
    ensures
        symbol == merge_symbols()[index as int],
{
    if index == 0 {
        '-'
    } else if index == 1 {
        '_'
    } else if index == 2 {
        '+'
    } else if index == 3 {
        '*'
    } else if index == 4 {
        '/'
    } else if index == 5 {
        '='
    } else if index == 6 {
        '~'
    } else {
        '^'
    }
}

/// Pulls pairs of identical symbols together that white space separates,
/// as in `- -` for `--`.
pub fn merge_separated_identical_symbols(input: &str) -> (out: (String, usize))
    ensures
        out.0@ == spec_merge_separated_identical_symbols(input@).0,
        out.1 == spec_merge_separated_identical_symbols(input@).1,
{
    let mut current: String = input.to_owned();
    let mut total: usize = 0;
    let mut index: usize = 0;
    while index < 8
        invariant
            index <= 8,
            merge_symbols().len() == 8,
            current@ == spec_merge_symbols_upto(input@, index as nat).0,
            total == spec_merge_symbols_upto(input@, index as nat).1,
        decreases 8 - index,
    {
        let symbol = merge_symbol(index);
        let mut one: Vec<char> = Vec::new();
        one.push(symbol);
        assert(one@ =~= seq![symbol]);
        let escaped = regex_escape(string_of(&one).as_str());
        let pattern = escaped.clone().concat("\\s+").concat(escaped.as_str());
        let mut two: Vec<char> = Vec::new();
        two.push(symbol);
        two.push(symbol);
        assert(two@ =~= seq![symbol, symbol]);
        let replacement = string_of(&two);
        let (after, more) = replace_until_settled(pattern.as_str(), replacement.as_str(), current);
        current = after;
        total = total.saturating_add(more);
        index += 1;
    }
    (current, total)
}

/// `input` with underscores joined to the words on both sides of them, as in
/// `foo _ bar` for `foo_bar`, with the number of joins.
pub open spec fn spec_collapse_underscore_spacing(input: Seq<char>) -> (Seq<char>, usize) {
    spec_replace_until_settled("([^\\s_])\\s+(_+)\\s+([^\\s_])"@, "$1$2$3"@, input)
}

/// Joins underscores to the words on both sides of them.
pub fn collapse_underscore_spacing(input: &str) -> (out: (String, usize))
    ensures
        out.0@ == spec_collapse_underscore_spacing(input@).0,
        out.1 == spec_collapse_underscore_spacing(input@).1,
{
    replace_until_settled("([^\\s_])\\s+(_+)\\s+([^\\s_])", "$1$2$3", input.to_owned())
}

/// What the capitaliser remembers between two characters.
pub struct CapitalState {
    /// The next letter begins a sentence.
    pub capitalize_next: bool,
    /// A sentence has ended and the space after it is still to come.
    pub awaiting_space: bool,
}

/// Whether `c` is an ASCII small letter.
pub open spec fn is_ascii_lower(c: char) -> bool {
    'a' <= c <= 'z'
}

/// The state in which the character `c` is looked at, given the state after
/// the character before it.
pub open spec fn capital_state_at(state: CapitalState, c: char) -> CapitalState {
    if state.awaiting_space {
        if c == ' ' {
            CapitalState { capitalize_next: true, awaiting_space: true }
        } else if !spec_is_whitespace(c) {
            CapitalState { awaiting_space: false, ..state }
        } else {
            state
        }
    } else {
        state
    }
}

/// The state after the character `c`, given the state in which it was looked
/// at.
pub open spec fn capital_state_after(at: CapitalState, c: char) -> CapitalState {
    let settled = if at.capitalize_next && !spec_is_whitespace(c) {
        CapitalState { capitalize_next: false, awaiting_space: false }
    } else {
        at
    };
    if c == '.' || c == '!' || c == '?' {
        CapitalState { capitalize_next: false, awaiting_space: true }
    } else if c == '\n' {
        CapitalState { capitalize_next: true, awaiting_space: false }
    } else {
        settled
    }
}

/// `input` from a given state on, with the first letter of each sentence
/// capitalised, and the number of letters changed.
pub open spec fn spec_capitalize_from(input: Seq<char>, state: CapitalState) -> (Seq<char>, nat)
    decreases input.len(),
{
    if input.len() == 0 {
        (input, 0)
    } else {
        let c = input[0];
        let at = capital_state_at(state, c);
        let changed = at.capitalize_next && is_ascii_lower(c);
        let (rest, count) = spec_capitalize_from(input.skip(1), capital_state_after(at, c));
        (
            seq![if changed {
                spec_ascii_upper(c)
            } else {
                c
            }] + rest,
            count + if changed {
                1nat
            } else {
                0nat
            },
        )
    }
}

/// `input` with the first ASCII letter of the text, of each line and of each
/// sentence in upper case, and the number of letters changed. A sentence
/// begins after `.`, `!` or `?` followed by a space.
pub open spec fn spec_capitalize_after_period(input: Seq<char>) -> (Seq<char>, nat) {
    spec_capitalize_from(input, CapitalState { capitalize_next: true, awaiting_space: false })
}

/// No more letters change than the text has characters.
pub proof fn lemma_capitalize_count(input: Seq<char>, state: CapitalState)
    ensures
        spec_capitalize_from(input, state).1 <= input.len(),
        spec_capitalize_from(input, state).0.len() == input.len(),
    decreases input.len(),
{
    if input.len() > 0 {
        let at = capital_state_at(state, input[0]);
        lemma_capitalize_count(input.skip(1), capital_state_after(at, input[0]));
    }
}

/// Capitalises the first letter of the text, of each line and of each
/// sentence.
pub fn capitalize_after_period(input: &str) -> (out: (String, usize))
    ensures
        out.0@ == spec_capitalize_after_period(input@).0,
        out.1 == spec_capitalize_after_period(input@).1,
{
    let chars = chars_of(input);
    let mut result: Vec<char> = Vec::new();
    let mut capitalize_next = true;
    let mut awaiting_space_after_punct = false;
    let mut count: usize = 0;
    let mut i: usize = 0;
    assert(chars@.skip(0) =~= chars@);
    proof {
        lemma_capitalize_count(chars@, CapitalState { capitalize_next: true, awaiting_space: false });
    }
    while i < chars.len()
        invariant
            i <= chars.len(),
            count <= i,
            result@ + spec_capitalize_from(
                chars@.skip(i as int),
                CapitalState { capitalize_next, awaiting_space: awaiting_space_after_punct },
            ).0 == spec_capitalize_after_period(chars@).0,
            count + spec_capitalize_from(
                chars@.skip(i as int),
                CapitalState { capitalize_next, awaiting_space: awaiting_space_after_punct },
            ).1 == spec_capitalize_after_period(chars@).1,
        decreases chars.len() - i,
    {
        let ch = chars[i];
        let ghost rest = chars@.skip(i as int);
        let ghost before = result@;
        let ghost state = CapitalState {
            capitalize_next,
            awaiting_space: awaiting_space_after_punct,
        };
        proof {
            assert(rest[0] == ch);
            assert(rest.skip(1) =~= chars@.skip(i + 1));
        }
        if awaiting_space_after_punct {
            if ch == ' ' {
                capitalize_next = true;
            } else if !is_whitespace(ch) {
                awaiting_space_after_punct = false;
            }
        }
        assert((CapitalState { capitalize_next, awaiting_space: awaiting_space_after_punct })
            == capital_state_at(state, ch));
        let mut output_char = ch;
        if capitalize_next {
            if 'a' <= ch && ch <= 'z' {
                output_char = ascii_upper(ch);
                count += 1;
                capitalize_next = false;
                awaiting_space_after_punct = false;
            } else if !is_whitespace(ch) {
                capitalize_next = false;
                awaiting_space_after_punct = false;
            }
        }
        result.push(output_char);
        if ch == '.' || ch == '!' || ch == '?' {
            capitalize_next = false;
            awaiting_space_after_punct = true;
        } else if ch == '\n' {
            capitalize_next = true;
            awaiting_space_after_punct = false;
        }
        i += 1;
        proof {
            let at = capital_state_at(state, ch);
            assert((CapitalState { capitalize_next, awaiting_space: awaiting_space_after_punct })
                == capital_state_after(at, ch));
            assert(result@ + spec_capitalize_from(
                chars@.skip(i as int),
                capital_state_after(at, ch),
            ).0 =~= before + spec_capitalize_from(rest, state).0);
        }
    }
    assert(result@ + Seq::<char>::empty() =~= result@);
    (string_of(&result), count)
}

/// A spoken command and what it stands for.
#[derive(Debug, Clone, Copy)]
pub struct SpeechReplacement {
    pub phrase: &'static str,
    pub replacement: &'static str,
    /// Whether punctuation that the recogniser put before the command is
    /// dropped in favour of the command's own.
    pub adjust_preceding_punct: bool,
}

/// A spoken command as contracts see it.
pub struct EntryView {
    pub phrase: Seq<char>,
    pub replacement: Seq<char>,
    pub adjust_preceding_punct: bool,
}

impl View for SpeechReplacement {
    type V = EntryView;

    open spec fn view(&self) -> EntryView {
        EntryView {
            phrase: self.phrase@,
            replacement: self.replacement@,
            adjust_preceding_punct: self.adjust_preceding_punct,
        }
    }
}

/// Number of spoken commands.
pub const SPEECH_REPLACEMENT_COUNT: usize = 43;

/// The spoken commands, longest phrase first, so that the longest phrase
/// that fits is the one recognised.
pub open spec fn speech_entry(index: int) -> EntryView {
    if index == 0 {
        EntryView { phrase: "exclamation point"@, replacement: "!"@, adjust_preceding_punct: true }
    } else if index == 1 {
        EntryView { phrase: "close parenthesis"@, replacement: ")"@, adjust_preceding_punct: false }
    } else if index == 2 {
        EntryView { phrase: "close parentheses"@, replacement: ")"@, adjust_preceding_punct: false }
    } else if index == 3 {
        EntryView { phrase: "exclamation mark"@, replacement: "!"@, adjust_preceding_punct: true }
    } else if index == 4 {
        EntryView { phrase: "open parenthesis"@, replacement: "("@, adjust_preceding_punct: false }
    } else if index == 5 {
        EntryView { phrase: "open parentheses"@, replacement: "("@, adjust_preceding_punct: false }
    } else if index == 6 {
        EntryView { phrase: "question mark"@, replacement: "?"@, adjust_preceding_punct: true }
    } else if index == 7 {
        EntryView { phrase: "close bracket"@, replacement: "]"@, adjust_preceding_punct: false }
    } else if index == 8 {
        EntryView { phrase: "open bracket"@, replacement: "["@, adjust_preceding_punct: false }
    } else if index == 9 {
        EntryView { phrase: "greater than"@, replacement: ">"@, adjust_preceding_punct: false }
    } else if index == 10 {
        EntryView { phrase: "double quote"@, replacement: "\""@, adjust_preceding_punct: false }
    } else if index == 11 {
        EntryView { phrase: "single quote"@, replacement: "'"@, adjust_preceding_punct: false }
    } else if index == 12 {
        EntryView { phrase: "close paren"@, replacement: ")"@, adjust_preceding_punct: false }
    } else if index == 13 {
        EntryView { phrase: "close brace"@, replacement: "}"@, adjust_preceding_punct: false }
    } else if index == 14 {
        EntryView { phrase: "dollar sign"@, replacement: "$"@, adjust_preceding_punct: false }
    } else if index == 15 {
        EntryView { phrase: "underscore"@, replacement: "_"@, adjust_preceding_punct: false }
    } else if index == 16 {
        EntryView { phrase: "open paren"@, replacement: "("@, adjust_preceding_punct: false }
    } else if index == 17 {
        EntryView { phrase: "open brace"@, replacement: "{"@, adjust_preceding_punct: false }
    } else if index == 18 {
        EntryView { phrase: "apostrophe"@, replacement: "'"@, adjust_preceding_punct: false }
    } else if index == 19 {
        EntryView { phrase: "semicolon"@, replacement: ";"@, adjust_preceding_punct: true }
    } else if index == 20 {
        EntryView { phrase: "dash dash"@, replacement: "--"@, adjust_preceding_punct: false }
    } else if index == 21 {
        EntryView { phrase: "at symbol"@, replacement: "@"@, adjust_preceding_punct: false }
    } else if index == 22 {
        EntryView { phrase: "ampersand"@, replacement: "&"@, adjust_preceding_punct: false }
    } else if index == 23 {
        EntryView { phrase: "less than"@, replacement: "<"@, adjust_preceding_punct: false }
    } else if index == 24 {
        EntryView { phrase: "backslash"@, replacement: "\\"@, adjust_preceding_punct: false }
    } else if index == 25 {
        EntryView { phrase: "new line"@, replacement: "\n"@, adjust_preceding_punct: false }
    } else if index == 26 {
        EntryView { phrase: "asterisk"@, replacement: "*"@, adjust_preceding_punct: false }
    } else if index == 27 {
        EntryView { phrase: "percent"@, replacement: "%"@, adjust_preceding_punct: false }
    } else if index == 28 {
        EntryView { phrase: "period"@, replacement: "."@, adjust_preceding_punct: true }
    } else if index == 29 {
        EntryView { phrase: "hyphen"@, replacement: "-"@, adjust_preceding_punct: false }
    } else if index == 30 {
        EntryView { phrase: "equals"@, replacement: "="@, adjust_preceding_punct: false }
    } else if index == 31 {
        EntryView { phrase: "comma"@, replacement: ","@, adjust_preceding_punct: true }
    } else if index == 32 {
        EntryView { phrase: "colon"@, replacement: ":"@, adjust_preceding_punct: true }
    } else if index == 33 {
        EntryView { phrase: "caret"@, replacement: "^"@, adjust_preceding_punct: false }
    } else if index == 34 {
        EntryView { phrase: "slash"@, replacement: "/"@, adjust_preceding_punct: false }
    } else if index == 35 {
        EntryView { phrase: "tilde"@, replacement: "~"@, adjust_preceding_punct: false }
    } else if index == 36 {
        EntryView { phrase: "grave"@, replacement: "`"@, adjust_preceding_punct: false }
    } else if index == 37 {
        EntryView { phrase: "quote"@, replacement: "\""@, adjust_preceding_punct: false }
    } else if index == 38 {
        EntryView { phrase: "dash"@, replacement: "-"@, adjust_preceding_punct: false }
    } else if index == 39 {
        EntryView { phrase: "hash"@, replacement: "#"@, adjust_preceding_punct: false }
    } else if index == 40 {
        EntryView { phrase: "plus"@, replacement: "+"@, adjust_preceding_punct: false }
    } else if index == 41 {
        EntryView { phrase: "pipe"@, replacement: "|"@, adjust_preceding_punct: false }
    } else {
        EntryView { phrase: "tab"@, replacement: "\t"@, adjust_preceding_punct: false }
    }
}

/// The spoken command at `index`.
pub fn speech_replacement(index: usize) -> (entry: SpeechReplacement)
    requires
        index < SPEECH_REPLACEMENT_COUNT,
    ensures
        entry@ == speech_entry(index as int),
{
    if index == 0 {
        SpeechReplacement { phrase: "exclamation point", replacement: "!", adjust_preceding_punct: true }
    } else if index == 1 {
        SpeechReplacement { phrase: "close parenthesis", replacement: ")", adjust_preceding_punct: false }
    } else if index == 2 {
        SpeechReplacement { phrase: "close parentheses", replacement: ")", adjust_preceding_punct: false }
    } else if index == 3 {
        SpeechReplacement { phrase: "exclamation mark", replacement: "!", adjust_preceding_punct: true }
    } else if index == 4 {
        SpeechReplacement { phrase: "open parenthesis", replacement: "(", adjust_preceding_punct: false }
    } else if index == 5 {
        SpeechReplacement { phrase: "open parentheses", replacement: "(", adjust_preceding_punct: false }
    } else if index == 6 {
        SpeechReplacement { phrase: "question mark", replacement: "?", adjust_preceding_punct: true }
    } else if index == 7 {
        SpeechReplacement { phrase: "close bracket", replacement: "]", adjust_preceding_punct: false }
    } else if index == 8 {
        SpeechReplacement { phrase: "open bracket", replacement: "[", adjust_preceding_punct: false }
    } else if index == 9 {
        SpeechReplacement { phrase: "greater than", replacement: ">", adjust_preceding_punct: false }
    } else if index == 10 {
        SpeechReplacement { phrase: "double quote", replacement: "\"", adjust_preceding_punct: false }
    } else if index == 11 {
        SpeechReplacement { phrase: "single quote", replacement: "'", adjust_preceding_punct: false }
    } else if index == 12 {
        SpeechReplacement { phrase: "close paren", replacement: ")", adjust_preceding_punct: false }
    } else if index == 13 {
        SpeechReplacement { phrase: "close brace", replacement: "}", adjust_preceding_punct: false }
    } else if index == 14 {
        SpeechReplacement { phrase: "dollar sign", replacement: "$", adjust_preceding_punct: false }
    } else if index == 15 {
        SpeechReplacement { phrase: "underscore", replacement: "_", adjust_preceding_punct: false }
    } else if index == 16 {
        SpeechReplacement { phrase: "open paren", replacement: "(", adjust_preceding_punct: false }
    } else if index == 17 {
        SpeechReplacement { phrase: "open brace", replacement: "{", adjust_preceding_punct: false }
    } else if index == 18 {
        SpeechReplacement { phrase: "apostrophe", replacement: "'", adjust_preceding_punct: false }
    } else if index == 19 {
        SpeechReplacement { phrase: "semicolon", replacement: ";", adjust_preceding_punct: true }
    } else if index == 20 {
        SpeechReplacement { phrase: "dash dash", replacement: "--", adjust_preceding_punct: false }
    } else if index == 21 {
        SpeechReplacement { phrase: "at symbol", replacement: "@", adjust_preceding_punct: false }
    } else if index == 22 {
        SpeechReplacement { phrase: "ampersand", replacement: "&", adjust_preceding_punct: false }
    } else if index == 23 {
        SpeechReplacement { phrase: "less than", replacement: "<", adjust_preceding_punct: false }
    } else if index == 24 {
        SpeechReplacement { phrase: "backslash", replacement: "\\", adjust_preceding_punct: false }
    } else if index == 25 {
        SpeechReplacement { phrase: "new line", replacement: "\n", adjust_preceding_punct: false }
    } else if index == 26 {
        SpeechReplacement { phrase: "asterisk", replacement: "*", adjust_preceding_punct: false }
    } else if index == 27 {
        SpeechReplacement { phrase: "percent", replacement: "%", adjust_preceding_punct: false }
    } else if index == 28 {
        SpeechReplacement { phrase: "period", replacement: ".", adjust_preceding_punct: true }
    } else if index == 29 {
        SpeechReplacement { phrase: "hyphen", replacement: "-", adjust_preceding_punct: false }
    } else if index == 30 {
        SpeechReplacement { phrase: "equals", replacement: "=", adjust_preceding_punct: false }
    } else if index == 31 {
        SpeechReplacement { phrase: "comma", replacement: ",", adjust_preceding_punct: true }
    } else if index == 32 {
        SpeechReplacement { phrase: "colon", replacement: ":", adjust_preceding_punct: true }
    } else if index == 33 {
        SpeechReplacement { phrase: "caret", replacement: "^", adjust_preceding_punct: false }
    } else if index == 34 {
        SpeechReplacement { phrase: "slash", replacement: "/", adjust_preceding_punct: false }
    } else if index == 35 {
        SpeechReplacement { phrase: "tilde", replacement: "~", adjust_preceding_punct: false }
    } else if index == 36 {
        SpeechReplacement { phrase: "grave", replacement: "`", adjust_preceding_punct: false }
    } else if index == 37 {
        SpeechReplacement { phrase: "quote", replacement: "\"", adjust_preceding_punct: false }
    } else if index == 38 {
        SpeechReplacement { phrase: "dash", replacement: "-", adjust_preceding_punct: false }
    } else if index == 39 {
        SpeechReplacement { phrase: "hash", replacement: "#", adjust_preceding_punct: false }
    } else if index == 40 {
        SpeechReplacement { phrase: "plus", replacement: "+", adjust_preceding_punct: false }
    } else if index == 41 {
        SpeechReplacement { phrase: "pipe", replacement: "|", adjust_preceding_punct: false }
    } else {
        SpeechReplacement { phrase: "tab", replacement: "\t", adjust_preceding_punct: false }
    }
}

/// The phrases of the first `n` commands, escaped and joined by `|`.
pub open spec fn speech_alternates(n: nat) -> Seq<char>
    decreases n,
{
    if n == 0 {
        Seq::<char>::empty()
    } else if n == 1 {
        spec_escape(speech_entry(0).phrase)
    } else {
        speech_alternates((n - 1) as nat) + "|"@ + spec_escape(speech_entry(n - 1).phrase)
    }
}

/// The pattern that finds spoken commands: one of the phrases as a whole
/// word, in any case, with the punctuation that follows it.
pub open spec fn speech_pattern() -> Seq<char> {
    "(?i)\\b(?P<command>"@ + speech_alternates(SPEECH_REPLACEMENT_COUNT as nat)
        + ")\\b[.!?,;:]*"@
}

/// Builds [`speech_pattern`].
pub fn build_speech_pattern() -> (out: String)
    ensures
        out@ == speech_pattern(),
{
    let mut alternates = String::from_str("");
    proof {
        reveal_strlit("");
        assert(alternates@ =~= Seq::<char>::empty());
    }
    let mut index: usize = 0;
    while index < SPEECH_REPLACEMENT_COUNT
        invariant
            index <= SPEECH_REPLACEMENT_COUNT,
            alternates@ == speech_alternates(index as nat),
        decreases SPEECH_REPLACEMENT_COUNT - index,
    {
        let entry = speech_replacement(index);
        let escaped = regex_escape(entry.phrase);
        if index > 0 {
            alternates.append("|");
        } else {
            assert(Seq::<char>::empty() + spec_escape(speech_entry(0).phrase) =~= spec_escape(
                speech_entry(0).phrase,
            ));
        }
        alternates.append(escaped.as_str());
        index += 1;
    }
    String::from_str("(?i)\\b(?P<command>").concat(alternates.as_str()).concat(")\\b[.!?,;:]*")
}

/// The first of the first `n` commands whose phrase is `key`.
pub open spec fn find_speech_entry(key: Seq<char>, n: nat) -> Option<int>
    decreases n,
{
    if n == 0 {
        None
    } else {
        match find_speech_entry(key, (n - 1) as nat) {
            Some(index) => Some(index),
            None => if speech_entry(n - 1).phrase == key {
                Some(n - 1)
            } else {
                None
            },
        }
    }
}

/// Looks the command with the phrase `key` up.
pub fn lookup_speech_replacement(key: &Vec<char>) -> (found: Option<SpeechReplacement>)
    ensures
        match found {
            Some(entry) => find_speech_entry(key@, SPEECH_REPLACEMENT_COUNT as nat) matches Some(
                index,
            ) && 0 <= index < SPEECH_REPLACEMENT_COUNT && entry@ == speech_entry(index),
            None => find_speech_entry(key@, SPEECH_REPLACEMENT_COUNT as nat) is None,
        },
{
    let mut index: usize = 0;
    while index < SPEECH_REPLACEMENT_COUNT
        invariant
            index <= SPEECH_REPLACEMENT_COUNT,
            find_speech_entry(key@, index as nat) is None,
        decreases SPEECH_REPLACEMENT_COUNT - index,
    {
        let entry = speech_replacement(index);
        if chars_eq_str(key, entry.phrase) {
            proof {
                lemma_found_entry_is_kept(key@, index as int, SPEECH_REPLACEMENT_COUNT as nat);
            }
            return Some(entry);
        }
        index += 1;
    }
    None
}

/// An entry found first at `index` is what every longer search finds.
proof fn lemma_found_entry_is_kept(key: Seq<char>, index: int, n: nat)
    requires
        0 <= index < n,
        find_speech_entry(key, index as nat) is None,
        speech_entry(index).phrase == key,
    ensures
        find_speech_entry(key, n) == Some(index),
    decreases n,
{
    if n > index + 1 {
        lemma_found_entry_is_kept(key, index, (n - 1) as nat);
    }
}

/// Whether `c` is a space or a tab.
pub open spec fn is_blank(c: char) -> bool {
    c == ' ' || c == '\t'
}

/// Whether `c` ends a clause or a sentence.
pub open spec fn is_clause_punct(c: char) -> bool {
    c == '.' || c == ',' || c == '!' || c == '?' || c == ';' || c == ':'
}

/// Number of characters at the end of `s` that are spaces or tabs.
pub open spec fn trailing_blanks(s: Seq<char>) -> nat
    decreases s.len(),
{
    if s.len() > 0 && is_blank(s.last()) {
        1 + trailing_blanks(s.drop_last())
    } else {
        0
    }
}

/// Number of characters at the end of `s` that are clause punctuation.
pub open spec fn trailing_punct(s: Seq<char>) -> nat
    decreases s.len(),
{
    if s.len() > 0 && is_clause_punct(s.last()) {
        1 + trailing_punct(s.drop_last())
    } else {
        0
    }
}

/// There are no more trailing blanks than characters.
pub proof fn lemma_trailing_blanks_bound(s: Seq<char>)
    ensures
        trailing_blanks(s) <= s.len(),
    decreases s.len(),
{
    if s.len() > 0 {
        lemma_trailing_blanks_bound(s.drop_last());
    }
}

/// There is no more trailing punctuation than characters.
pub proof fn lemma_trailing_punct_bound(s: Seq<char>)
    ensures
        trailing_punct(s) <= s.len(),
    decreases s.len(),
{
    if s.len() > 0 {
        lemma_trailing_punct_bound(s.drop_last());
    }
}

/// `buffer` with the replacement of `entry` added. A command that adjusts
/// punctuation goes before the blanks that end the buffer and replaces the
/// punctuation before them.
pub open spec fn spec_apply_entry(buffer: Seq<char>, entry: EntryView) -> Seq<char> {
    if entry.adjust_preceding_punct {
        let blanks = trailing_blanks(buffer);
        let core = buffer.take(buffer.len() - blanks);
        let kept = core.take(core.len() - trailing_punct(core));
        kept + entry.replacement + buffer.skip(buffer.len() - blanks)
    } else {
        buffer + entry.replacement
    }
}

/// Appends all of `more` to `buffer`.
fn append_chars(buffer: &mut Vec<char>, more: &Vec<char>)
    ensures
        final(buffer)@ == old(buffer)@ + more@,
{
    let ghost before = buffer@;
    let mut i: usize = 0;
    assert(before + more@.take(0) =~= before);
    while i < more.len()
        invariant
            i <= more.len(),
            buffer@ == before + more@.take(i as int),
        decreases more.len() - i,
    {
        buffer.push(more[i]);
        assert(before + more@.take(i + 1) =~= (before + more@.take(i as int)).push(more@[i as int]));
        i += 1;
    }
    assert(more@.take(more.len() as int) =~= more@);
}

/// Adds the replacement of `entry` to `buffer`; see [`spec_apply_entry`].
pub fn apply_speech_replacement_entry(buffer: &mut Vec<char>, entry: &SpeechReplacement)
    ensures
        final(buffer)@ == spec_apply_entry(old(buffer)@, entry@),
{
    let replacement = chars_of(entry.replacement);
    if entry.adjust_preceding_punct {
        let ghost start = buffer@;
        let mut trailing_ws: Vec<char> = Vec::new();
        proof {
            lemma_trailing_blanks_bound(start);
            assert(start.take(start.len() as int) =~= start);
            assert(start.skip(start.len() as int) =~= Seq::<char>::empty());
        }
        // Take the blanks off the end; they come back behind the replacement.
        while buffer.len() > 0 && (buffer[buffer.len() - 1] == ' ' || buffer[buffer.len() - 1]
            == '\t')
            invariant
                buffer@.len() + trailing_ws@.len() == start.len(),
                buffer@ == start.take(buffer@.len() as int),
                trailing_ws@.len() + trailing_blanks(buffer@) == trailing_blanks(start),
                forall|j: int|
                    0 <= j < trailing_ws@.len() ==> trailing_ws@[j] == start[start.len() - 1 - j],
            decreases buffer.len(),
        {
            let ghost shorter = buffer@.drop_last();
            let c = buffer[buffer.len() - 1];
            assert(shorter =~= start.take(buffer@.len() - 1));
            buffer.pop();
            trailing_ws.push(c);
        }
        let ghost core = buffer@;
        let ghost blanks = trailing_ws@.len();
        assert(blanks == trailing_blanks(start));
        proof {
            lemma_trailing_punct_bound(core);
            assert(core.take(core.len() as int) =~= core);
        }
        while buffer.len() > 0 && is_punct(buffer[buffer.len() - 1])
            invariant
                buffer@.len() <= core.len(),
                buffer@ == core.take(buffer@.len() as int),
                (core.len() - buffer@.len()) + trailing_punct(buffer@) == trailing_punct(core),
            decreases buffer.len(),
        {
            assert(buffer@.drop_last() =~= core.take(buffer@.len() - 1));
            buffer.pop();
        }
        let ghost kept = buffer@;
        assert(kept == core.take(core.len() - trailing_punct(core)));
        append_chars(buffer, &replacement);
        let ghost with_replacement = buffer@;
        let mut k: usize = trailing_ws.len();
        assert(start.skip(start.len() - blanks).take(0) =~= Seq::<char>::empty());
        assert(with_replacement + Seq::<char>::empty() =~= with_replacement);
        while k > 0
            invariant
                k <= trailing_ws.len(),
                trailing_ws@.len() == blanks,
                blanks <= start.len(),
                forall|j: int|
                    0 <= j < trailing_ws@.len() ==> trailing_ws@[j] == start[start.len() - 1 - j],
                buffer@ == with_replacement + start.skip(start.len() - blanks).take(blanks - k),
            decreases k,
        {
            k -= 1;
            let ghost tail = start.skip(start.len() - blanks);
            buffer.push(trailing_ws[k]);
            assert(tail.take(blanks - k) =~= tail.take(blanks - k - 1).push(tail[blanks - k - 1]));
            assert(tail[blanks - k - 1] == start[start.len() - 1 - k]);
        }
        assert(start.skip(start.len() - blanks).take(blanks as int) =~= start.skip(
            start.len() - blanks,
        ));
    } else {
        append_chars(buffer, &replacement);
    }
}

/// Whether `c` ends a clause or a sentence.
fn is_punct(c: char) -> (out: bool)
    ensures
        out == is_clause_punct(c),
{
    c == '.' || c == ',' || c == '!' || c == '?' || c == ';' || c == ':'
}

/// The text after the first `n` spoken commands were replaced, with the
/// number of replacements: the piece before the first command, then for each
/// command its replacement and the piece behind it. A match whose command is
/// not in the table is dropped without a replacement.
pub open spec fn speech_fold(
    pieces: Seq<Seq<char>>,
    commands: Seq<Option<Seq<char>>>,
    n: nat,
) -> (Seq<char>, nat)
    recommends
        pieces.len() == commands.len() + 1,
        n <= commands.len(),
    decreases n,
{
    if n == 0 {
        (pieces[0], 0)
    } else {
        let (buffer, count) = speech_fold(pieces, commands, (n - 1) as nat);
        let found = match commands[n - 1] {
            Some(command) => find_speech_entry(
                spec_to_ascii_lowercase(command),
                SPEECH_REPLACEMENT_COUNT as nat,
            ),
            None => None,
        };
        match found {
            Some(index) => (spec_apply_entry(buffer, speech_entry(index)) + pieces[n as int], count + 1),
            None => (buffer + pieces[n as int], count),
        }
    }
}

/// `text` with the spoken commands replaced by what they stand for, and the
/// number of commands replaced. The text is left as it is where the search
/// fails.
pub open spec fn spec_apply_speech_replacements(text: Seq<char>) -> (Seq<char>, nat) {
    let pieces = regex_pieces(speech_pattern(), text);
    let commands = regex_group_texts(speech_pattern(), text, "command"@);
    if pieces is Some && commands is Some && pieces->0.len() == commands->0.len() + 1 {
        speech_fold(pieces->0, commands->0, commands->0.len())
    } else {
        (text, 0)
    }
}

/// Replaces spoken commands such as `comma` or `new line` by what they stand
/// for; see [`spec_apply_speech_replacements`].
pub fn apply_speech_replacements(text: &str) -> (out: (String, usize))
    ensures
        out.0@ == spec_apply_speech_replacements(text@).0,
        out.1 == spec_apply_speech_replacements(text@).1,
{
    let pattern = build_speech_pattern();
    let pieces = match regex_split(pattern.as_str(), text) {
        Some(p) => p,
        None => {
            return (text.to_owned(), 0);
        },
    };
    let commands = match regex_group_matches(pattern.as_str(), text, "command") {
        Some(c) => c,
        None => {
            return (text.to_owned(), 0);
        },
    };
    if commands.len() == usize::MAX || pieces.len() != commands.len() + 1 {
        return (text.to_owned(), 0);
    }
    let ghost piece_views = texts_view(pieces@);
    let ghost command_views = opt_texts_view(commands@);
    let mut result = chars_of(pieces[0].as_str());
    let mut count: usize = 0;
    let mut i: usize = 0;
    while i < commands.len()
        invariant
            i <= commands.len(),
            count <= i,
            pieces.len() == commands.len() + 1,
            piece_views == texts_view(pieces@),
            command_views == opt_texts_view(commands@),
            result@ == speech_fold(piece_views, command_views, i as nat).0,
            count == speech_fold(piece_views, command_views, i as nat).1,
        decreases commands.len() - i,
    {
        assert(command_views[i as int] == text_view(commands@[i as int]));
        assert(piece_views[i + 1] == pieces@[i + 1]@);
        match &commands[i] {
            Some(command) => {
                let key = to_ascii_lowercase(&chars_of(command.as_str()));
                match lookup_speech_replacement(&key) {
                    Some(entry) => {
                        apply_speech_replacement_entry(&mut result, &entry);
                        count += 1;
                    },
                    None => {},
                }
            },
            None => {},
        }
        let piece = chars_of(pieces[i + 1].as_str());
        append_chars(&mut result, &piece);
        i += 1;
    }
    (string_of(&result), count)
}

/// A word to replace and what to put in its place.
#[derive(Debug, Clone, PartialEq, Eq)]
pub struct WordOverride {
    pub original: String,
    pub replacement: String,
}

/// A word override as contracts see it.
pub struct OverrideView {
    pub original: Seq<char>,
    pub replacement: Seq<char>,
}

impl View for WordOverride {
    type V = OverrideView;

    open spec fn view(&self) -> OverrideView {
        OverrideView { original: self.original@, replacement: self.replacement@ }
    }
}

/// The views of a list of word overrides.
pub open spec fn overrides_view(overrides: Seq<WordOverride>) -> Seq<OverrideView> {
    overrides.map_values(|o: WordOverride| o@)
}

/// `overrides` without those for the phrase `em dash`, in any case.
pub open spec fn spec_sanitize_word_overrides(overrides: Seq<OverrideView>) -> Seq<OverrideView>
    decreases overrides.len(),
{
    if overrides.len() == 0 {
        overrides
    } else {
        let rest = spec_sanitize_word_overrides(overrides.drop_last());
        if spec_eq_ignore_ascii_case(overrides.last().original, "em dash"@) {
            rest
        } else {
            rest.push(overrides.last())
        }
    }
}

/// Drops the overrides for the phrase `em dash`, which the recogniser's own
/// dash would trip over.
pub fn sanitize_word_overrides(overrides: Vec<WordOverride>) -> (out: Vec<WordOverride>)
    ensures
        overrides_view(out@) == spec_sanitize_word_overrides(overrides_view(overrides@)),
{
    let mut out: Vec<WordOverride> = Vec::new();
    let em_dash = chars_of("em dash");
    let ghost all = overrides_view(overrides@);
    let mut i: usize = 0;
    assert(all.take(0) =~= Seq::<OverrideView>::empty());
    assert(overrides_view(out@) =~= Seq::<OverrideView>::empty());
    while i < overrides.len()
        invariant
            i <= overrides.len(),
            em_dash@ == "em dash"@,
            all == overrides_view(overrides@),
            overrides_view(out@) == spec_sanitize_word_overrides(all.take(i as int)),
        decreases overrides.len() - i,
    {
        proof {
            assert(all.take(i + 1).drop_last() =~= all.take(i as int));
            assert(all.take(i + 1).last() == overrides@[i as int]@);
        }
        let key = chars_of(overrides[i].original.as_str());
        if !eq_ignore_ascii_case(&key, &em_dash) {
            let ghost before = out@;
            let kept = WordOverride {
                original: overrides[i].original.clone(),
                replacement: overrides[i].replacement.clone(),
            };
            out.push(kept);
            assert(overrides_view(out@) =~= overrides_view(before).push(overrides@[i as int]@));
        }
        i += 1;
    }
    assert(all.take(overrides.len() as int) =~= all);
    out
}

/// The pattern that finds `word` as a whole word, in any case.
pub open spec fn word_pattern(word: Seq<char>) -> Seq<char> {
    "(?i)"@ + "\\b"@ + spec_escape(word) + "\\b"@
}

/// The text after the first `n` overrides were applied one after the other,
/// with the number of overrides that changed it.
pub open spec fn spec_apply_overrides(overrides: Seq<OverrideView>, text: Seq<char>, n: nat) -> (
    Seq<char>,
    nat,
)
    decreases n,
{
    if n == 0 || n > overrides.len() {
        (text, 0)
    } else {
        let (before, count) = spec_apply_overrides(overrides, text, (n - 1) as nat);
        let entry = overrides[n - 1];
        let after = replaced_or_same(word_pattern(entry.original), before, entry.replacement);
        (
            after,
            count + if after != before {
                1nat
            } else {
                0nat
            },
        )
    }
}

/// Applies the word overrides to `text`, each as a whole-word, any-case
/// replacement, in the order of the list.
pub fn apply_word_overrides_with_count(overrides: &Vec<WordOverride>, text: &str) -> (out: (
    String,
    usize,
))
    ensures
        out.0@ == spec_apply_overrides(overrides_view(overrides@), text@, overrides@.len()).0,
        out.1 == spec_apply_overrides(overrides_view(overrides@), text@, overrides@.len()).1,
{
    let mut result: String = text.to_owned();
    let mut count: usize = 0;
    let ghost all = overrides_view(overrides@);
    let mut i: usize = 0;
    while i < overrides.len()
        invariant
            i <= overrides.len(),
            count <= i,
            all == overrides_view(overrides@),
            result@ == spec_apply_overrides(all, text@, i as nat).0,
            count == spec_apply_overrides(all, text@, i as nat).1,
        decreases overrides.len() - i,
    {
        assert(all[i as int] == overrides@[i as int]@);
        let escaped = regex_escape(overrides[i].original.as_str());
        let pattern = String::from_str("(?i)").concat("\\b").concat(escaped.as_str()).concat(
            "\\b",
        );
        let after = replace_all(pattern.as_str(), result.as_str(), overrides[i].replacement.as_str());
        if !str_eq(after.as_str(), result.as_str()) {
            count += 1;
        }
        result = after;
        i += 1;
    }
    (result, count)
}

/// The whole preparation of a transcript: line breaks become spaces, the
/// word overrides and the spoken commands are applied, what they leave
/// around brackets and punctuation is cleaned up, runs of spaces are
/// collapsed, blanks around line feeds are dropped, spaced pairs of symbols
/// and underscores are joined, sentences are capitalised and the white
/// space at both ends is removed.
pub open spec fn spec_preprocess_text(overrides: Seq<OverrideView>, text: Seq<char>) -> Seq<char> {
    let normalized = spec_normalize_line_breaks(text);
    let after_overrides = spec_apply_overrides(overrides, normalized, overrides.len()).0;
    let after_speech = spec_apply_speech_replacements(after_overrides).0;
    let cleaned = spec_clean_control_artifacts(after_speech);
    let collapsed = spec_collapse_spaces(cleaned);
    let newline_cleaned = spec_trim_spaces_around_newlines(collapsed).0;
    let merged = spec_merge_separated_identical_symbols(newline_cleaned).0;
    let bridged = spec_collapse_underscore_spacing(merged).0;
    let capitalized = spec_capitalize_after_period(bridged).0;
    spec_trim(capitalized)
}

/// Prepares a transcript for injection; see [`spec_preprocess_text`].
pub fn preprocess_text(overrides: &Vec<WordOverride>, text: &str) -> (out: String)
    ensures
        out@ == spec_preprocess_text(overrides_view(overrides@), text@),
{
    let normalized = normalize_line_breaks(text);
    let (after_overrides, _) = apply_word_overrides_with_count(overrides, normalized.as_str());
    let (after_speech, _) = apply_speech_replacements(after_overrides.as_str());
    let cleaned = clean_control_artifacts(after_speech.as_str());
    let collapsed = collapse_spaces(cleaned.as_str());
    let (newline_cleaned, _) = trim_spaces_around_newlines(collapsed.as_str());
    let (merged, _) = merge_separated_identical_symbols(newline_cleaned.as_str());
    let (bridged, _) = collapse_underscore_spacing(merged.as_str());
    let (capitalized, _) = capitalize_after_period(bridged.as_str());
    let trimmed = trim(&chars_of(capitalized.as_str()));
    string_of(&trimmed)
}

/// Whether `class` is, in any case, one of the window classes known to paste
/// with the shift key.
pub open spec fn is_shift_paste_class(class: Seq<char>) -> bool {
    spec_eq_ignore_ascii_case("Alacritty"@, class)
        || spec_eq_ignore_ascii_case("kitty"@, class)
        || spec_eq_ignore_ascii_case("foot"@, class)
        || spec_eq_ignore_ascii_case("footclient"@, class)
        || spec_eq_ignore_ascii_case("WezTerm"@, class)
        || spec_eq_ignore_ascii_case("org.wezfurlong.wezterm"@, class)
        || spec_eq_ignore_ascii_case("org.gnome.Console"@, class)
        || spec_eq_ignore_ascii_case("gnome-terminal-server"@, class)
        || spec_eq_ignore_ascii_case("konsole"@, class)
        || spec_eq_ignore_ascii_case("yakuake"@, class)
        || spec_eq_ignore_ascii_case("terminator"@, class)
        || spec_eq_ignore_ascii_case("tilix"@, class)
        || spec_eq_ignore_ascii_case("termite"@, class)
        || spec_eq_ignore_ascii_case("xfce4-terminal"@, class)
        || spec_eq_ignore_ascii_case("wezterm-gui"@, class)
        || spec_eq_ignore_ascii_case("rio"@, class)
        || spec_eq_ignore_ascii_case("WarpTerminal"@, class)
        || spec_eq_ignore_ascii_case("xterm"@, class)
        || spec_eq_ignore_ascii_case("urxvt"@, class)
        || spec_eq_ignore_ascii_case("Ghostty"@, class)
        || spec_eq_ignore_ascii_case("ghostty"@, class)
        || spec_eq_ignore_ascii_case("com.mitchellh.ghostty"@, class)
}

/// Whether `component` is a name that marks a window class as a terminal.
pub open spec fn is_shift_paste_component(component: Seq<char>) -> bool {
    component == "terminal"@
        || component == "console"@
        || component == "ghostty"@
        || component == "wezterm"@
        || component == "kitty"@
        || component == "alacritty"@
        || component == "warpterminal"@
        || component == "rio"@
        || component == "foot"@
        || component == "konsole"@
        || component == "xterm"@
        || component == "urxvt"@
}

/// Whether `a` and `text` are equal up to the case of ASCII letters.
fn eq_ignore_case_text(a: &Vec<char>, text: &str) -> (same: bool)
    ensures
        same == spec_eq_ignore_ascii_case(text@, a@),
{
    let other = chars_of(text);
    eq_ignore_ascii_case(&other, a)
}

/// Whether `c` separates the components of a window class.
pub open spec fn is_class_separator(c: char) -> bool {
    c == '.' || c == '-' || c == '_'
}

/// The components of a window class: the pieces between `.`, `-` and `_`.
pub open spec fn class_components(class: Seq<char>) -> Seq<Seq<char>>
    decreases class.len(),
{
    if class.len() == 0 {
        seq![Seq::<char>::empty()]
    } else {
        let before = class_components(class.drop_last());
        if is_class_separator(class.last()) {
            before.push(Seq::<char>::empty())
        } else {
            before.drop_last().push(before.last().push(class.last()))
        }
    }
}

/// A window class has at least one component.
pub proof fn lemma_class_components_nonempty(class: Seq<char>)
    ensures
        class_components(class).len() >= 1,
    decreases class.len(),
{
    if class.len() > 0 {
        lemma_class_components_nonempty(class.drop_last());
    }
}

/// Splits a window class into its components.
fn split_class(class: &Vec<char>) -> (out: Vec<Vec<char>>)
    ensures
        views_of(out@) == class_components(class@),
{
    let mut done: Vec<Vec<char>> = Vec::new();
    let mut current: Vec<char> = Vec::new();
    let mut i: usize = 0;
    assert(class@.take(0) =~= Seq::<char>::empty());
    assert(views_of(done@).push(current@) =~= class_components(class@.take(0)));
    while i < class.len()
        invariant
            i <= class.len(),
            views_of(done@).push(current@) == class_components(class@.take(i as int)),
        decreases class.len() - i,
    {
        let c = class[i];
        proof {
            let prefix = class@.take(i + 1);
            assert(prefix.drop_last() =~= class@.take(i as int));
            assert(prefix.last() == c);
            let before = class_components(class@.take(i as int));
            assert(before.last() == current@);
            assert(before.drop_last() =~= views_of(done@));
        }
        if c == '.' || c == '-' || c == '_' {
            let ghost old_done = done@;
            let ghost piece = current@;
            done.push(current);
            current = Vec::new();
            assert(views_of(done@) =~= views_of(old_done).push(piece));
        } else {
            current.push(c);
        }
        i += 1;
    }
    assert(class@.take(class.len() as int) =~= class@);
    let ghost old_done = done@;
    let ghost piece = current@;
    done.push(current);
    assert(views_of(done@) =~= views_of(old_done).push(piece));
    done
}

/// Whether `texts` holds `needle`.
fn holds_text(texts: &Vec<String>, needle: &Vec<char>) -> (found: bool)
    ensures
        found == texts_view(texts@).contains(needle@),
{
    let mut i: usize = 0;
    while i < texts.len()
        invariant
            i <= texts.len(),
            forall|j: int| 0 <= j < i ==> texts_view(texts@)[j] != needle@,
        decreases texts.len() - i,
    {
        if chars_eq_str(needle, texts[i].as_str()) {
            assert(texts_view(texts@)[i as int] == needle@);
            return true;
        }
        i += 1;
    }
    false
}

/// Whether a component of the lower-cased class marks a terminal, by the
/// fixed names or by the extra classes.
pub open spec fn component_hints_shift(component: Seq<char>, extra: Seq<Seq<char>>) -> bool {
    is_shift_paste_component(component) || extra.contains(component)
}

/// Whether pasting into a window of this class takes the shift key.
///
/// It does when the class is a known terminal, when its lower-case form is
/// one of the extra classes, or when one of the components of the lower-case
/// form names a terminal or is one of the extra classes.
pub open spec fn spec_shift_hint_for_class(class: Seq<char>, extra: Seq<Seq<char>>) -> Option<bool> {
    let lower = spec_to_ascii_lowercase(class);
    if is_shift_paste_class(class) || extra.contains(lower) || exists|k: int|
        0 <= k < class_components(lower).len() && component_hints_shift(
            #[trigger] class_components(lower)[k],
            extra,
        ) {
        Some(true)
    } else {
        None
    }
}

/// Says whether pasting into a window of this class takes the shift key, or
/// `None` where nothing is known of the class; see
/// [`spec_shift_hint_for_class`].
pub fn shift_hint_for_class(class: &str, extra_shift_classes: &Vec<String>) -> (hint: Option<bool>)
    ensures
        hint == spec_shift_hint_for_class(class@, texts_view(extra_shift_classes@)),
{
    let chars = chars_of(class);
    if eq_ignore_case_text(&chars, "Alacritty")
        || eq_ignore_case_text(&chars, "kitty")
        || eq_ignore_case_text(&chars, "foot")
        || eq_ignore_case_text(&chars, "footclient")
        || eq_ignore_case_text(&chars, "WezTerm")
        || eq_ignore_case_text(&chars, "org.wezfurlong.wezterm")
        || eq_ignore_case_text(&chars, "org.gnome.Console")
        || eq_ignore_case_text(&chars, "gnome-terminal-server")
        || eq_ignore_case_text(&chars, "konsole")
        || eq_ignore_case_text(&chars, "yakuake")
        || eq_ignore_case_text(&chars, "terminator")
        || eq_ignore_case_text(&chars, "tilix")
        || eq_ignore_case_text(&chars, "termite")
        || eq_ignore_case_text(&chars, "xfce4-terminal")
        || eq_ignore_case_text(&chars, "wezterm-gui")
        || eq_ignore_case_text(&chars, "rio")
        || eq_ignore_case_text(&chars, "WarpTerminal")
        || eq_ignore_case_text(&chars, "xterm")
        || eq_ignore_case_text(&chars, "urxvt")
        || eq_ignore_case_text(&chars, "Ghostty")
        || eq_ignore_case_text(&chars, "ghostty")
        || eq_ignore_case_text(&chars, "com.mitchellh.ghostty") {
        return Some(true);
    }
    let lower = to_ascii_lowercase(&chars);
    if holds_text(extra_shift_classes, &lower) {
        return Some(true);
    }
    let components = split_class(&lower);
    let ghost extra = texts_view(extra_shift_classes@);
    let mut k: usize = 0;
    while k < components.len()
        invariant
            k <= components.len(),
            extra == texts_view(extra_shift_classes@),
            chars@ == class@,
            lower@ == spec_to_ascii_lowercase(chars@),
            views_of(components@) == class_components(lower@),
            forall|j: int|
                0 <= j < k ==> !component_hints_shift(
                    #[trigger] class_components(lower@)[j],
                    extra,
                ),
        decreases components.len() - k,
    {
        let component = &components[k];
        assert(views_of(components@)[k as int] == component@);
        if chars_eq_str(component, "terminal")
        || chars_eq_str(component, "console")
        || chars_eq_str(component, "ghostty")
        || chars_eq_str(component, "wezterm")
        || chars_eq_str(component, "kitty")
        || chars_eq_str(component, "alacritty")
        || chars_eq_str(component, "warpterminal")
        || chars_eq_str(component, "rio")
        || chars_eq_str(component, "foot")
        || chars_eq_str(component, "konsole")
        || chars_eq_str(component, "xterm")
        || chars_eq_str(component, "urxvt") || holds_text(extra_shift_classes, component) {
            assert(component_hints_shift(class_components(lower@)[k as int], extra));
            return Some(true);
        }
        k += 1;
    }
    None
}

/// A way to send the paste shortcut.
#[derive(Debug, Clone, Copy, PartialEq, Eq, Structural)]
pub enum PasteBackend {
    /// The compositor sends the shortcut.
    Hyprland,
    /// A virtual keyboard on the Wayland session sends it.
    VirtualKeyboard,
    /// The input simulation library sends it.
    Enigo,
}

/// The keys of a paste shortcut.
#[derive(Debug, Clone, Copy, PartialEq, Eq, Structural)]
pub enum PasteKeys {
    ShiftInsert,
    CtrlV,
    CtrlShiftV,
}

/// One attempt to paste.
#[derive(Debug, Clone, Copy, PartialEq, Eq, Structural)]
pub struct PasteAttempt {
    pub backend: PasteBackend,
    pub keys: PasteKeys,
}

/// The extra window classes as they are compared: trimmed, in lower case,
/// without the empty ones.
pub open spec fn spec_normalize_classes(classes: Seq<Seq<char>>) -> Seq<Seq<char>>
    decreases classes.len(),
{
    if classes.len() == 0 {
        classes
    } else {
        let rest = spec_normalize_classes(classes.drop_last());
        let entry = spec_to_ascii_lowercase(spec_trim(classes.last()));
        if entry.len() == 0 {
            rest
        } else {
            rest.push(entry)
        }
    }
}

/// Brings the extra window classes into the form in which they are compared.
pub fn normalize_classes(classes: &Vec<String>) -> (out: Vec<String>)
    ensures
        texts_view(out@) == spec_normalize_classes(texts_view(classes@)),
{
    let mut out: Vec<String> = Vec::new();
    let ghost all = texts_view(classes@);
    let mut i: usize = 0;
    assert(all.take(0) =~= Seq::<Seq<char>>::empty());
    assert(texts_view(out@) =~= Seq::<Seq<char>>::empty());
    while i < classes.len()
        invariant
            i <= classes.len(),
            all == texts_view(classes@),
            texts_view(out@) == spec_normalize_classes(all.take(i as int)),
        decreases classes.len() - i,
    {
        proof {
            assert(all.take(i + 1).drop_last() =~= all.take(i as int));
            assert(all.take(i + 1).last() == classes@[i as int]@);
        }
        let entry = to_ascii_lowercase(&trim(&chars_of(classes[i].as_str())));
        if entry.len() > 0 {
            let ghost before = out@;
            let text = string_of(&entry);
            out.push(text);
            assert(texts_view(out@) =~= texts_view(before).push(entry@));
        }
        i += 1;
    }
    assert(all.take(classes.len() as int) =~= all);
    out
}

/// What the injector holds, as contracts see it.
pub struct InjectorView {
    pub word_overrides: Seq<OverrideView>,
    pub extra_shift_classes: Seq<Seq<char>>,
    pub default_shift_paste: bool,
    pub global_paste_shortcut: bool,
    pub has_hyprland: bool,
    pub wrtype_available: bool,
    pub wrtype_attempted: bool,
    pub wayland_env: bool,
    pub wayland_clipboard_enabled: bool,
}

/// Decides how prepared text reaches the focused window.
#[derive(Debug, Clone)]
pub struct TextInjector {
    word_overrides: Vec<WordOverride>,
    extra_shift_classes: Vec<String>,
    default_shift_paste: bool,
    global_paste_shortcut: bool,
    has_hyprland: bool,
    wrtype_available: bool,
    wrtype_attempted: bool,
    wayland_env: bool,
    wayland_clipboard_enabled: bool,
}

impl View for TextInjector {
    type V = InjectorView;

    closed spec fn view(&self) -> InjectorView {
        InjectorView {
            word_overrides: overrides_view(self.word_overrides@),
            extra_shift_classes: texts_view(self.extra_shift_classes@),
            default_shift_paste: self.default_shift_paste,
            global_paste_shortcut: self.global_paste_shortcut,
            has_hyprland: self.has_hyprland,
            wrtype_available: self.wrtype_available,
            wrtype_attempted: self.wrtype_attempted,
            wayland_env: self.wayland_env,
            wayland_clipboard_enabled: self.wayland_clipboard_enabled,
        }
    }
}

impl InjectorView {
    /// The text to put on the clipboard for a transcript, or `None` where the
    /// transcript is blank or nothing is left of it.
    pub open spec fn text_to_inject(self, text: Seq<char>) -> Option<Seq<char>> {
        if spec_trim(text).len() == 0 {
            None
        } else if spec_preprocess_text(self.word_overrides, text).len() == 0 {
            None
        } else {
            Some(spec_preprocess_text(self.word_overrides, text))
        }
    }

    /// The keys with which `backend` pastes, given what is known of the
    /// focused window.
    pub open spec fn paste_keys(self, backend: PasteBackend, shift_hint: Option<bool>) -> PasteKeys {
        if self.global_paste_shortcut {
            PasteKeys::ShiftInsert
        } else if backend == PasteBackend::Enigo {
            PasteKeys::CtrlShiftV
        } else if match shift_hint {
            Some(hint) => hint,
            None => self.default_shift_paste,
        } {
            PasteKeys::CtrlShiftV
        } else {
            PasteKeys::CtrlV
        }
    }

    /// The backend to try after `previous` failed, or first of all: the
    /// compositor where there is one, then the virtual keyboard where a client
    /// is at hand, then the input simulation library, and nothing after that.
    pub open spec fn next_backend(self, previous: Option<PasteBackend>, wrtype_ready: bool) -> Option<
        PasteBackend,
    > {
        match previous {
            None => if self.has_hyprland {
                Some(PasteBackend::Hyprland)
            } else if wrtype_ready {
                Some(PasteBackend::VirtualKeyboard)
            } else {
                Some(PasteBackend::Enigo)
            },
            Some(PasteBackend::Hyprland) => if wrtype_ready {
                Some(PasteBackend::VirtualKeyboard)
            } else {
                Some(PasteBackend::Enigo)
            },
            Some(PasteBackend::VirtualKeyboard) => Some(PasteBackend::Enigo),
            Some(PasteBackend::Enigo) => None,
        }
    }
}

impl TextInjector {
    /// An injector for a session.
    ///
    /// Overrides for the phrase `em dash` are dropped and the extra window
    /// classes normalised. The Wayland clipboard is used where the session is
    /// a Wayland one.
    pub fn new(
        shift_paste_default: bool,
        global_paste_shortcut: bool,
        extra_shift_classes: Vec<String>,
        word_overrides: Vec<WordOverride>,
        wayland_env: bool,
        has_hyprland: bool,
    ) -> (out: Self)
        ensures
            out@ == (InjectorView {
                word_overrides: spec_sanitize_word_overrides(overrides_view(word_overrides@)),
                extra_shift_classes: spec_normalize_classes(texts_view(extra_shift_classes@)),
                default_shift_paste: shift_paste_default,
                global_paste_shortcut,
                has_hyprland,
                wrtype_available: false,
                wrtype_attempted: false,
                wayland_env,
                wayland_clipboard_enabled: wayland_env,
            }),
    {
        let classes = normalize_classes(&extra_shift_classes);
        TextInjector {
            word_overrides: sanitize_word_overrides(word_overrides),
            extra_shift_classes: classes,
            default_shift_paste: shift_paste_default,
            global_paste_shortcut,
            has_hyprland,
            wrtype_available: false,
            wrtype_attempted: false,
            wayland_env,
            wayland_clipboard_enabled: wayland_env,
        }
    }

    /// Prepares a transcript for injection; `None` where there is nothing to
    /// inject.
    pub fn inject_text(&self, text: &str) -> (out: Option<String>)
        ensures
            text_view(out) == self@.text_to_inject(text@),
    {
        if trim(&chars_of(text)).len() == 0 {
            return None;
        }
        let processed = preprocess_text(&self.word_overrides, text);
        if processed.as_str().unicode_len() == 0 {
            return None;
        }
        Some(processed)
    }

    /// Prepares a transcript with the injector's word overrides.
    pub fn preprocess_text(&self, text: &str) -> (out: String)
        ensures
            out@ == spec_preprocess_text(self@.word_overrides, text@),
    {
        preprocess_text(&self.word_overrides, text)
    }

    /// Whether the Wayland clipboard is to be tried before the general one.
    pub fn copies_to_wayland_clipboard(&self) -> (out: bool)
        ensures
            out == self@.wayland_clipboard_enabled,
    {
        self.wayland_clipboard_enabled
    }

    /// Takes note that copying to the Wayland clipboard failed: it is not
    /// tried again.
    pub fn wayland_copy_failed(&mut self)
        ensures
            final(self)@ == (InjectorView { wayland_clipboard_enabled: false, ..old(self)@ }),
    {
        self.wayland_clipboard_enabled = false;
    }

    /// Whether pasting into a window of this class takes the shift key, as
    /// far as the class tells.
    pub fn shift_hint(&self, class: &str) -> (out: Option<bool>)
        ensures
            out == spec_shift_hint_for_class(class@, self@.extra_shift_classes),
    {
        shift_hint_for_class(class, &self.extra_shift_classes)
    }

    /// Whether a virtual keyboard client is at hand.
    pub fn has_wrtype_client(&self) -> (out: bool)
        ensures
            out == (self@.wayland_env && self@.wrtype_available),
    {
        self.wayland_env && self.wrtype_available
    }

    /// Says whether the caller is to create a virtual keyboard client now,
    /// and takes note of the attempt: one is created on a Wayland session
    /// when none is at hand and none was attempted since the last failure.
    pub fn ensure_wrtype_client(&mut self) -> (create: bool)
        ensures
            create == (old(self)@.wayland_env && !old(self)@.wrtype_available
                && !old(self)@.wrtype_attempted),
            final(self)@ == (InjectorView {
                wrtype_attempted: old(self)@.wrtype_attempted || create,
                ..old(self)@
            }),
    {
        if !self.wayland_env {
            return false;
        }
        if !self.wrtype_available && !self.wrtype_attempted {
            self.wrtype_attempted = true;
            return true;
        }
        false
    }

    /// Takes note of whether the virtual keyboard client could be created.
    pub fn wrtype_client_created(&mut self, created: bool)
        ensures
            final(self)@ == (InjectorView { wrtype_available: created, ..old(self)@ }),
    {
        self.wrtype_available = created;
    }

    /// Forgets the virtual keyboard client after it failed, so that a new one
    /// is created the next time one is wanted.
    pub fn invalidate_wrtype_client(&mut self)
        ensures
            final(self)@ == (InjectorView {
                wrtype_available: false,
                wrtype_attempted: false,
                ..old(self)@
            }),
    {
        self.wrtype_available = false;
        self.wrtype_attempted = false;
    }

    /// The next attempt to paste: `previous` is the backend that failed last,
    /// `None` before the first attempt. `shift_hint` is what the class of the
    /// focused window tells, where it could be learnt. `None` comes back when
    /// every backend has failed.
    pub fn next_paste_attempt(&self, previous: Option<PasteBackend>, shift_hint: Option<bool>) -> (out:
        Option<PasteAttempt>)
        ensures
            out == match self@.next_backend(
                previous,
                self@.wayland_env && self@.wrtype_available,
            ) {
                Some(backend) => Some(
                    PasteAttempt { backend, keys: self@.paste_keys(backend, shift_hint) },
                ),
                None => None,
            },
    {
        let wrtype_ready = self.has_wrtype_client();
        let backend = match previous {
            None => if self.has_hyprland {
                PasteBackend::Hyprland
            } else if wrtype_ready {
                PasteBackend::VirtualKeyboard
            } else {
                PasteBackend::Enigo
            },
            Some(PasteBackend::Hyprland) => if wrtype_ready {
                PasteBackend::VirtualKeyboard
            } else {
                PasteBackend::Enigo
            },
            Some(PasteBackend::VirtualKeyboard) => PasteBackend::Enigo,
            Some(PasteBackend::Enigo) => {
                return None;
            },
        };
        let keys = if self.global_paste_shortcut {
            PasteKeys::ShiftInsert
        } else {
            match backend {
                PasteBackend::Enigo => PasteKeys::CtrlShiftV,
                _ => {
                    let use_shift = match shift_hint {
                        Some(hint) => hint,
                        None => self.default_shift_paste,
                    };
                    if use_shift {
                        PasteKeys::CtrlShiftV
                    } else {
                        PasteKeys::CtrlV
                    }
                },
            }
        };
        Some(PasteAttempt { backend, keys })
    }

    /// Whether the class of the focused window is worth asking for: only the
    /// compositor can tell it, and only a paste that depends on the window
    /// needs it.
    pub fn wants_window_class(&self) -> (out: bool)
        ensures
            out == (self@.has_hyprland && !self@.global_paste_shortcut),
    {
        self.has_hyprland && !self.global_paste_shortcut
    }
}

/// Every chain of paste attempts ends: the backends come in a fixed order and
/// none is tried twice, so after at most three failures nothing is left.
pub proof fn law_paste_attempts_end(
    injector: InjectorView,
    first_ready: bool,
    second_ready: bool,
    third_ready: bool,
    fourth_ready: bool,
)
    ensures
        ({
            let first = injector.next_backend(None, first_ready);
            let second = if first is Some {
                injector.next_backend(first, second_ready)
            } else {
                None
            };
            let third = if second is Some {
                injector.next_backend(second, third_ready)
            } else {
                None
            };
            let fourth = if third is Some {
                injector.next_backend(third, fourth_ready)
            } else {
                None
            };
            &&& first is Some
            &&& fourth is None
            &&& second is Some ==> second != first
            &&& third is Some ==> third != first && third != second
        }),
{
}

} // verus!
