//! Regular-expression searches, done by the `regex` crate.
//!
//! What a search returns takes the whole of the crate's matching rules to
//! state. Each search therefore has a name here, and the functions of the
//! library that search say what they return in terms of these names.

use crate::text::{opt_texts_view, text_view, texts_view};
use vstd::prelude::*;

verus! {

/// What `Regex::replace_all` makes of `text` for the regex compiled from
/// `pattern`; `None` where `pattern` does not compile.
pub uninterp spec fn regex_replaced(
    pattern: Seq<char>,
    text: Seq<char>,
    replacement: Seq<char>,
) -> Option<Seq<char>>;

/// How many matches `Regex::find_iter` finds in `text` for the regex compiled
/// from `pattern`; `None` where `pattern` does not compile.
pub uninterp spec fn regex_match_count(pattern: Seq<char>, text: Seq<char>) -> Option<usize>;

/// The parts of `text` that `Regex::split` yields for the regex compiled from
/// `pattern`: what lies before, between and after the matches. `None` where
/// `pattern` does not compile.
pub uninterp spec fn regex_pieces(pattern: Seq<char>, text: Seq<char>) -> Option<Seq<Seq<char>>>;

/// For each match that `Regex::captures_iter` finds in `text`, what the
/// capture group named `group` matched, if it took part. `None` where
/// `pattern` does not compile.
pub uninterp spec fn regex_group_texts(
    pattern: Seq<char>,
    text: Seq<char>,
    group: Seq<char>,
) -> Option<Seq<Option<Seq<char>>>>;

/// Whether `regex::escape` puts a backslash before `c`.
pub open spec fn is_meta_character(c: char) -> bool {
    c == '\\' || c == '.' || c == '+' || c == '*' || c == '?' || c == '(' || c == ')' || c == '|'
        || c == '[' || c == ']' || c == '{' || c == '}' || c == '^' || c == '$' || c == '#' || c
        == '&' || c == '-' || c == '~'
}

/// `text` with a backslash before each meta character.
pub open spec fn spec_escape(text: Seq<char>) -> Seq<char>
    decreases text.len(),
{
    if text.len() == 0 {
        text
    } else if is_meta_character(text.last()) {
        spec_escape(text.drop_last()).push('\\').push(text.last())
    } else {
        spec_escape(text.drop_last()).push(text.last())
    }
}

/// Compiles `pattern` with `Regex::new` and calls `Regex::replace_all`, which
/// replaces every match in `text` and expands `$` references in
/// `replacement`. The contract names the result.
#[verifier::external_body]
pub(crate) fn regex_replace_all(pattern: &str, text: &str, replacement: &str) -> (out: Option<String>)
    ensures
        text_view(out) == regex_replaced(pattern@, text@, replacement@),
{
    match regex::Regex::new(pattern) {
        Ok(re) => Some(re.replace_all(text, replacement).into_owned()),
        Err(_) => None,
    }
}

/// Compiles `pattern` with `Regex::new` and counts the matches that
/// `Regex::find_iter` yields in `text`. The contract names the result.
#[verifier::external_body]
pub(crate) fn regex_count_matches(pattern: &str, text: &str) -> (out: Option<usize>)
    ensures
        out == regex_match_count(pattern@, text@),
{
    match regex::Regex::new(pattern) {
        Ok(re) => Some(re.find_iter(text).count()),
        Err(_) => None,
    }
}

/// Compiles `pattern` with `Regex::new` and collects what `Regex::split`
/// yields for `text`. The contract names the result.
#[verifier::external_body]
pub(crate) fn regex_split(pattern: &str, text: &str) -> (out: Option<Vec<String>>)
    ensures
        match out {
            Some(pieces) => regex_pieces(pattern@, text@) == Some(texts_view(pieces@)),
            None => regex_pieces(pattern@, text@) is None,
        },
{
    match regex::Regex::new(pattern) {
        Ok(re) => Some(re.split(text).map(|piece| piece.to_string()).collect()),
        Err(_) => None,
    }
}

/// Compiles `pattern` with `Regex::new`, walks the matches in `text` with
/// `Regex::captures_iter` and collects what the group named `group` matched in
/// each. The contract names the result.
#[verifier::external_body]
pub(crate) fn regex_group_matches(pattern: &str, text: &str, group: &str) -> (out: Option<
    Vec<Option<String>>,
>)
    ensures
        match out {
            Some(found) => regex_group_texts(pattern@, text@, group@) == Some(
                opt_texts_view(found@),
            ),
            None => regex_group_texts(pattern@, text@, group@) is None,
        },
{
    match regex::Regex::new(pattern) {
        Ok(re) => Some(
            re.captures_iter(text).map(|caps| caps.name(group).map(|m| m.as_str().to_string())).collect(),
        ),
        Err(_) => None,
    }
}

/// Calls `regex::escape`, which copies `text` and puts a backslash before
/// each of the characters `\ . + * ? ( ) | [ ] { } ^ $ # & - ~`.
#[verifier::external_body]
pub(crate) fn regex_escape(text: &str) -> (out: String)
    ensures
        out@ == spec_escape(text@),
{
    regex::escape(text)
}

/// `text` with every match of `pattern` replaced, or `text` itself where
/// `pattern` does not compile.
pub open spec fn replaced_or_same(pattern: Seq<char>, text: Seq<char>, replacement: Seq<char>) -> Seq<char> {
    match regex_replaced(pattern, text, replacement) {
        Some(out) => out,
        None => text,
    }
}

/// Number of matches of `pattern` in `text`, zero where `pattern` does not
/// compile.
pub open spec fn match_count_or_zero(pattern: Seq<char>, text: Seq<char>) -> usize {
    match regex_match_count(pattern, text) {
        Some(n) => n,
        None => 0,
    }
}

/// Replaces every match of `pattern` in `text`; a pattern that does not
/// compile leaves the text as it is.
pub fn replace_all(pattern: &str, text: &str, replacement: &str) -> (out: String)
    ensures
        out@ == replaced_or_same(pattern@, text@, replacement@),
{
    match regex_replace_all(pattern, text, replacement) {
        Some(out) => out,
        None => text.to_owned(),
    }
}

/// Counts the matches of `pattern` in `text`; a pattern that does not compile
/// has none.
pub fn count_matches(pattern: &str, text: &str) -> (out: usize)
    ensures
        out == match_count_or_zero(pattern@, text@),
{
    match regex_count_matches(pattern, text) {
        Some(n) => n,
        None => 0,
    }
}

} // verus!
