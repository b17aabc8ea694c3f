use hyprwhspr_rs::injector::{
    apply_speech_replacements, apply_word_overrides_with_count, capitalize_after_period,
    clean_control_artifacts, collapse_spaces, collapse_underscore_spacing,
    merge_separated_identical_symbols, normalize_line_breaks, preprocess_text,
    sanitize_word_overrides, shift_hint_for_class, trim_spaces_around_newlines, WordOverride,
};

#[test]
fn removes_parenthesis_commas_and_spaces() {
    let input = "(, value, )";
    assert_eq!(clean_control_artifacts(input), "(value)");
}

#[test]
fn cleans_bracket_and_brace_commas() {
    let bracket_input = "[, option, ]";
    let brace_input = "{, field, }";
    assert_eq!(clean_control_artifacts(bracket_input), "[ option ]");
    assert_eq!(clean_control_artifacts(brace_input), "{ field }");
}

#[test]
fn keeps_internal_commas_inside_collections() {
    let bracket_list = "[ first, second, third, ]";
    let brace_list = "{ alpha, beta, gamma, }";
    assert_eq!(
        clean_control_artifacts(bracket_list),
        "[ first, second, third ]"
    );
    assert_eq!(
        clean_control_artifacts(brace_list),
        "{ alpha, beta, gamma }"
    );
}

#[test]
fn removes_clause_commas_before_closing_delimiter() {
    let brace_input = "{ fuck, }";
    let bracket_input = "[ awesome, ]";
    assert_eq!(clean_control_artifacts(brace_input), "{ fuck }");
    assert_eq!(clean_control_artifacts(bracket_input), "[ awesome ]");
}

#[test]
fn cleans_demo_sentence_bracket_artifacts() {
    let input =
        "Hello, hello, testing 123, [, fuck fuck fuck fuck fuck fuck fuck fuck fuck fuck, ].";
    assert_eq!(
        clean_control_artifacts(input),
        "Hello, hello, testing 123, [ fuck fuck fuck fuck fuck fuck fuck fuck fuck fuck ]"
    );
}

#[test]
fn strips_space_before_punctuation() {
    let input = "hello , world ! what ; is : this ?";
    assert_eq!(
        clean_control_artifacts(input),
        "hello, world! what; is: this?"
    );
}

#[test]
fn removes_duplicate_commas_from_transcript_artifacts() {
    let input = "{ fuck fuck fuck fuck, ,, fuck, }.";
    assert_eq!(
        clean_control_artifacts(input),
        "{ fuck fuck fuck fuck, fuck }"
    );
}

#[test]
fn speech_replacements_normalize_commanded_punctuation() {
    let input = "This is awesome. Period. I love this. Comma. Fuck. Yeah. Comma. Fuck. Period.";
    let (after_speech, count) = apply_speech_replacements(input);
    let cleaned = clean_control_artifacts(&after_speech);
    let collapsed = collapse_spaces(&cleaned);

    assert_eq!(
        collapsed.trim(),
        "This is awesome. I love this, Fuck. Yeah, Fuck."
    );
    assert_eq!(count, 4);
}

#[test]
fn capitalizes_lowercase_after_period_space() {
    let input = "This. is awesome. already Capitalized. stays.";
    let (capitalized, count) = capitalize_after_period(input);
    assert_eq!(capitalized, "This. Is awesome. Already Capitalized. Stays.");
    assert_eq!(count, 3);
}

#[test]
fn speech_replacements_collapse_dash_dash() {
    let input = "prepare dash dash go";
    let (after_speech, count) = apply_speech_replacements(input);
    assert_eq!(after_speech, "prepare -- go");
    assert_eq!(count, 1);
}

#[test]
fn control_cleanup_preserves_colon_after_symbols() {
    let input = "— { chaos,  yes }:  coordinate";
    let cleaned = clean_control_artifacts(input);
    let collapsed = collapse_spaces(&cleaned);
    assert_eq!(collapsed, "— { chaos, yes }: coordinate");
}

#[test]
fn control_cleanup_keeps_exclamation_after_closing_symbol() {
    let input = "phoenix [ alpha, beta ]!";
    let cleaned = clean_control_artifacts(input);
    assert_eq!(cleaned, "phoenix [ alpha, beta ]!");
}

#[test]
fn merge_identical_symbols_collapses_spaced_pairs() {
    let input = "77 - - go and _ _ done";
    let (merged, count) = merge_separated_identical_symbols(input);
    assert_eq!(merged, "77 -- go and __ done");
    assert_eq!(count, 2);
}

#[test]
fn collapse_underscore_spacing_links_tokens() {
    let input = "align __ sync and foo _ bar";
    let (collapsed, count) = collapse_underscore_spacing(input);
    assert_eq!(collapsed, "align__sync and foo_bar");
    assert_eq!(count, 2);
}

#[test]
fn trim_spaces_around_newlines_removes_padding() {
    let input = "Line one  \n  Line two\n\n   Line three";
    let (trimmed, count) = trim_spaces_around_newlines(input);
    assert_eq!(trimmed, "Line one\nLine two\n\nLine three");
    assert!(count >= 2);
}

#[test]
fn capitalizes_after_newline_break() {
    let input = "first line.\nnext starts here.";
    let (capitalized, count) = capitalize_after_period(input);
    assert_eq!(capitalized, "First line.\nNext starts here.");
    assert_eq!(count, 2);
}

#[test]
fn sanitize_word_overrides_drops_em_dash() {
    let overrides = vec![
        WordOverride { original: "em dash".to_string(), replacement: "—".to_string() },
        WordOverride { original: "under score".to_string(), replacement: "_".to_string() },
    ];
    let sanitized = sanitize_word_overrides(overrides);
    assert!(!sanitized.iter().any(|entry| entry.original == "em dash"));
    assert_eq!(
        sanitized.iter().find(|entry| entry.original == "under score").unwrap().replacement,
        "_"
    );
}

#[test]
fn sanitize_word_overrides_ignores_case_and_keeps_order() {
    let overrides = vec![
        WordOverride { original: "alpha".to_string(), replacement: "a".to_string() },
        WordOverride { original: "Em Dash".to_string(), replacement: "-".to_string() },
        WordOverride { original: "beta".to_string(), replacement: "b".to_string() },
    ];
    let sanitized = sanitize_word_overrides(overrides);
    assert_eq!(
        sanitized,
        vec![
            WordOverride { original: "alpha".to_string(), replacement: "a".to_string() },
            WordOverride { original: "beta".to_string(), replacement: "b".to_string() },
        ]
    );
}

#[test]
fn normalize_line_breaks_replaces_each_break_by_one_space() {
    assert_eq!(normalize_line_breaks("a\r\nb\rc\nd"), "a b c d");
    assert_eq!(normalize_line_breaks("a\n\r\n"), "a  ");
    assert_eq!(normalize_line_breaks("plain"), "plain");
    assert_eq!(normalize_line_breaks(""), "");
}

#[test]
fn word_overrides_replace_whole_words_in_any_case() {
    let overrides = vec![
        WordOverride { original: "hyper whisper".to_string(), replacement: "hyprwhspr".to_string() },
        WordOverride { original: "c++".to_string(), replacement: "cpp".to_string() },
        WordOverride { original: "absent".to_string(), replacement: "x".to_string() },
    ];
    let (out, count) =
        apply_word_overrides_with_count(&overrides, "Hyper Whisper runs, hyper whispers do not");
    assert_eq!(out, "hyprwhspr runs, hyper whispers do not");
    assert_eq!(count, 1);
    let (same, none) = apply_word_overrides_with_count(&Vec::new(), "nothing to do");
    assert_eq!(same, "nothing to do");
    assert_eq!(none, 0);
}

#[test]
fn speech_replacement_moves_punctuation_before_trailing_blanks() {
    let (out, count) = apply_speech_replacements("wait, \t period");
    assert_eq!(out, "wait. \t ");
    assert_eq!(count, 1);
    let (out, count) = apply_speech_replacements("open paren x close paren");
    assert_eq!(out, "( x )");
    assert_eq!(count, 2);
    let (out, count) = apply_speech_replacements("no commands here");
    assert_eq!(out, "no commands here");
    assert_eq!(count, 0);
}

#[test]
fn speech_replacement_prefers_longest_phrase() {
    let (out, count) = apply_speech_replacements("say double quote now");
    assert_eq!(out, "say \" now");
    assert_eq!(count, 1);
}

#[test]
fn preprocess_text_runs_all_steps_in_order() {
    let overrides = vec![WordOverride {
        original: "whisper".to_string(),
        replacement: "whspr".to_string(),
    }];
    let out = preprocess_text(&overrides, "  hello whisper comma\nthis is foo _ bar period  ");
    assert_eq!(out, "Hello whspr, this is foo_bar.");
}

#[test]
fn shift_hint_knows_terminals() {
    let extra = vec!["myterm".to_string()];
    assert_eq!(shift_hint_for_class("kitty", &extra), Some(true));
    assert_eq!(shift_hint_for_class("KITTY", &extra), Some(true));
    assert_eq!(shift_hint_for_class("MyTerm", &extra), Some(true));
    assert_eq!(shift_hint_for_class("org.example.Terminal", &extra), Some(true));
    assert_eq!(shift_hint_for_class("com.acme-myterm_x", &extra), Some(true));
    assert_eq!(shift_hint_for_class("firefox", &extra), None);
    assert_eq!(shift_hint_for_class("", &Vec::new()), None);
}

#[test]
fn word_overrides_take_the_word_literally() {
    let overrides = vec![WordOverride { original: "a.b".to_string(), replacement: "X".to_string() }];
    let (out, count) = apply_word_overrides_with_count(&overrides, "a.b axb A.B");
    assert_eq!(out, "X axb X");
    assert_eq!(count, 1);
}

#[test]
fn merge_identical_symbols_handles_every_symbol() {
    let (merged, count) = merge_separated_identical_symbols("a + + b * \t* c ^ ^ ^ d = =");
    assert_eq!(merged, "a ++ b ** c ^^^ d ==");
    assert_eq!(count, 5);
    let (same, none) = merge_separated_identical_symbols("a + - b");
    assert_eq!(same, "a + - b");
    assert_eq!(none, 0);
}
