use hyprwhspr_rs::cli::{Cli, Command, InstallArgs, RunMode};
use hyprwhspr_rs::install::{
    backup_file_name, clean_jsonc, components_from_flags, components_from_selection, copy_result,
    copy_with_prompt, css_to_install, dirs_home, expand_tilde, find_config_dir,
    find_waybar_config, install_template, module_already_installed, strip_line_comments,
    summary_shows_service_commands, waybar_config_dir, xdg_cache_home, xdg_config_home,
    xdg_data_home, Component, ConfigCandidate, CopyDecision, CopyResult, TemplateDecision,
    Timestamp,
};
use hyprwhspr_rs::status::{
    cache_dir, data_dir, history_file, join_path, status_file, StatusWriter, TranscriptionEntry,
    WaybarState, WaybarStatus,
};

fn args(waybar: bool, service: bool, elephant: bool, all: bool) -> InstallArgs {
    InstallArgs { waybar, service, elephant, all, force: false }
}

#[test]
fn status_paths() {
    assert_eq!(cache_dir(Some("/home/u/.cache")), "/home/u/.cache/hyprwhspr");
    assert_eq!(cache_dir(None), "/tmp/hyprwhspr");
    assert_eq!(data_dir(Some("/home/u/.local/share/")), "/home/u/.local/share/hyprwhspr");
    assert_eq!(data_dir(None), "/tmp/hyprwhspr");
    assert_eq!(status_file("/tmp/hyprwhspr"), "/tmp/hyprwhspr/status.json");
    assert_eq!(history_file("/tmp/hyprwhspr"), "/tmp/hyprwhspr/transcriptions.json");
    assert_eq!(join_path("", "x"), "x");
    assert_eq!(join_path("/a", "/b"), "/b");
    assert_eq!(join_path("/a/", "b"), "/a/b");
    assert_eq!(join_path("/a", ""), "/a/");
}

#[test]
fn waybar_states() {
    assert_eq!(WaybarState::Inactive.class(), "inactive");
    assert_eq!(WaybarState::Active.class(), "active");
    assert_eq!(WaybarState::Processing.class(), "processing");
    assert_eq!(WaybarState::Error.class(), "error");
    assert_eq!(WaybarState::Inactive.icon(), "\u{f036d}");
    assert_eq!(WaybarState::Active.icon(), "\u{f036c}");
    assert_eq!(WaybarState::Processing.icon(), WaybarState::Active.icon());
    assert_eq!(WaybarState::Error.icon(), WaybarState::Inactive.icon());
}

#[test]
fn status_records() {
    let writer = StatusWriter::new("/c", "/d");
    assert_eq!(writer.status_path(), "/c/status.json");
    assert_eq!(writer.history_path(), "/d/transcriptions.json");
    assert_eq!(
        writer.set_recording(true),
        WaybarStatus {
            text: "\u{f036c}".to_string(),
            tooltip: "Recording...".to_string(),
            class: "active".to_string(),
            alt: "active".to_string(),
        }
    );
    assert_eq!(
        writer.set_recording(false),
        WaybarStatus {
            text: "\u{f036d}".to_string(),
            tooltip: "Ready".to_string(),
            class: "inactive".to_string(),
            alt: "inactive".to_string(),
        }
    );
    let processing = writer.set_processing();
    assert_eq!(processing.tooltip, "Transcribing...");
    assert_eq!(processing.class, "processing");
    let error = writer.set_error("no microphone");
    assert_eq!(error.tooltip, "Error: no microphone");
    assert_eq!(error.class, "error");
    assert_eq!(error.alt, "error");
    assert_eq!(error.text, "\u{f036d}");
    assert!(writer.is_recording(Some(&writer.set_recording(true))));
    assert!(!writer.is_recording(Some(&writer.set_recording(false))));
    assert!(!writer.is_recording(Some(&processing)));
    assert!(!writer.is_recording(None));
}

#[test]
fn history_keeps_the_newest_twenty() {
    let writer = StatusWriter::new("/c", "/d");
    let mut entries: Vec<TranscriptionEntry> = Vec::new();
    for i in 0..25 {
        entries = writer.save_transcription(entries, &format!("text {}", i), "2024-01-01 10:00");
    }
    assert_eq!(entries.len(), 20);
    assert_eq!(entries[0].text, "text 24");
    assert_eq!(entries[0].timestamp, "2024-01-01 10:00");
    assert_eq!(entries[19].text, "text 5");
    let one = writer.save_transcription(Vec::new(), "a", "t");
    assert_eq!(one, vec![TranscriptionEntry { text: "a".to_string(), timestamp: "t".to_string() }]);
}

#[test]
fn install_flags() {
    assert!(!args(false, false, false, false).has_specific_flags());
    assert!(args(true, false, false, false).has_specific_flags());
    assert!(args(false, true, false, false).has_specific_flags());
    assert!(args(false, false, true, false).has_specific_flags());
    assert!(args(false, false, false, true).has_specific_flags());
    let forced = InstallArgs { waybar: false, service: false, elephant: false, all: false, force: true };
    assert!(!forced.has_specific_flags());
    assert_eq!(components_from_flags(&forced), None);
    assert_eq!(
        components_from_flags(&args(false, false, false, true)),
        Some(vec![Component::Waybar, Component::Systemd, Component::Elephant])
    );
    assert_eq!(
        components_from_flags(&args(false, true, true, false)),
        Some(vec![Component::Systemd, Component::Elephant])
    );
    assert_eq!(components_from_flags(&args(true, false, false, false)), Some(vec![Component::Waybar]));
}

#[test]
fn run_modes() {
    let install = Cli { command: Some(Command::Install(args(true, false, false, false))), test: true };
    assert_eq!(install.run_mode(), RunMode::Install(args(true, false, false, false)));
    assert_eq!(Cli { command: None, test: true }.run_mode(), RunMode::Test);
    assert_eq!(Cli { command: None, test: false }.run_mode(), RunMode::Daemon);
}

#[test]
fn components() {
    assert_eq!(Component::all(), vec![Component::Waybar, Component::Systemd, Component::Elephant]);
    assert_eq!(Component::Waybar.label(), "Waybar module + CSS");
    assert_eq!(Component::Systemd.label(), "Systemd user service");
    assert_eq!(Component::Elephant.label(), "Elephant menu (Walker)");
    assert!(Component::Waybar.selected_by_default());
    assert!(Component::Systemd.selected_by_default());
    assert!(!Component::Elephant.selected_by_default());
    assert_eq!(
        components_from_selection(&vec![2, 0]),
        vec![Component::Elephant, Component::Waybar]
    );
    assert!(summary_shows_service_commands(&vec![Component::Waybar, Component::Systemd]));
    assert!(!summary_shows_service_commands(&vec![Component::Waybar]));
}

#[test]
fn base_directories() {
    assert_eq!(dirs_home(Some("/home/u")), "/home/u");
    assert_eq!(dirs_home(None), "/tmp");
    assert_eq!(xdg_config_home(Some("/x"), Some("/home/u")), "/x");
    assert_eq!(xdg_config_home(None, Some("/home/u")), "/home/u/.config");
    assert_eq!(xdg_config_home(None, None), "/tmp/.config");
    assert_eq!(xdg_data_home(None, Some("/home/u")), "/home/u/.local/share");
    assert_eq!(xdg_cache_home(None, Some("/home/u")), "/home/u/.cache");
    assert_eq!(xdg_cache_home(Some("/var/cache"), None), "/var/cache");
    assert_eq!(waybar_config_dir("/home/u/.config"), "/home/u/.config/waybar");
}

#[test]
fn tilde_expansion() {
    assert_eq!(expand_tilde(" ~/models/x.bin ", Some("/home/u")), "/home/u/models/x.bin");
    assert_eq!(expand_tilde("~/models", None), "~/models");
    assert_eq!(expand_tilde("~", Some("/home/u")), "~");
    assert_eq!(expand_tilde("/abs/path", Some("/home/u")), "/abs/path");
    assert_eq!(expand_tilde("~/", Some("/home/u")), "/home/u/");
    assert_eq!(expand_tilde("~//etc", Some("/home/u")), "/etc");
}

#[test]
fn config_dir_is_the_first_with_config() {
    let candidates = vec![
        ConfigCandidate { path: "/a".to_string(), has_config: false },
        ConfigCandidate { path: "/b".to_string(), has_config: true },
        ConfigCandidate { path: "/c".to_string(), has_config: true },
    ];
    assert_eq!(find_config_dir(&candidates), Some("/b".to_string()));
    assert_eq!(find_config_dir(&candidates[..1].to_vec()), None);
    assert_eq!(find_config_dir(&Vec::new()), None);
}

#[test]
fn copy_decisions() {
    assert_eq!(copy_with_prompt(false, false, true, None), CopyDecision::Copy);
    assert_eq!(copy_with_prompt(true, true, true, None), CopyDecision::Copy);
    assert_eq!(copy_with_prompt(true, false, false, None), CopyDecision::Skip);
    assert_eq!(copy_with_prompt(true, false, false, Some(true)), CopyDecision::Skip);
    assert_eq!(copy_with_prompt(true, false, true, None), CopyDecision::Ask);
    assert_eq!(copy_with_prompt(true, false, true, Some(true)), CopyDecision::Overwrite);
    assert_eq!(copy_with_prompt(true, false, true, Some(false)), CopyDecision::Skip);
    assert_eq!(copy_result(CopyDecision::Copy), Some(CopyResult::Copied));
    assert_eq!(copy_result(CopyDecision::Overwrite), Some(CopyResult::Overwritten));
    assert_eq!(copy_result(CopyDecision::Skip), Some(CopyResult::Skipped));
    assert_eq!(copy_result(CopyDecision::Ask), None);
    assert_eq!(install_template(None, "t", false), TemplateDecision::Write);
    assert_eq!(install_template(Some("t"), "t", false), TemplateDecision::UpToDate);
    assert_eq!(install_template(Some("old"), "t", false), TemplateDecision::BackupAndWrite);
    assert_eq!(install_template(Some("t"), "t", true), TemplateDecision::Write);
}

#[test]
fn backup_names_carry_a_padded_timestamp() {
    let at = Timestamp { year: 2024, month: 3, day: 9, hour: 7, minute: 5, second: 0 };
    assert_eq!(backup_file_name("config.jsonc", at), "config.jsonc.backup-20240309_070500");
    let early = Timestamp { year: 987, month: 12, day: 31, hour: 23, minute: 59, second: 59 };
    assert_eq!(backup_file_name("", early), ".backup-09871231_235959");
    let late = Timestamp { year: 12_345, month: 1, day: 1, hour: 0, minute: 0, second: 0 };
    assert_eq!(backup_file_name("x", late), "x.backup-123450101_000000");
}

#[test]
fn waybar_files() {
    assert_eq!(
        find_waybar_config("/w", true, true, true),
        Some("/w/config.jsonc".to_string())
    );
    assert_eq!(find_waybar_config("/w", false, true, true), Some("/w/config.json".to_string()));
    assert_eq!(find_waybar_config("/w", false, false, true), Some("/w/config".to_string()));
    assert_eq!(find_waybar_config("/w", false, false, false), None);
    assert!(module_already_installed("{\"custom/hyprwhspr\": {\"exec\": \"x\"}}"));
    assert!(!module_already_installed("{\"modules-right\": [\"custom/hyprwhspr\"]}"));
    assert!(!module_already_installed("{\"exec\": 1}"));
    assert_eq!(css_to_install("", "S"), Some("\nS".to_string()));
    assert_eq!(css_to_install("a {}", "S"), Some("a {}\n\nS".to_string()));
    assert_eq!(css_to_install("a {}\n", "S"), Some("a {}\n\nS".to_string()));
    assert_eq!(css_to_install("#custom-hyprwhspr {}", "S"), None);
}

#[test]
fn jsonc_is_cleaned_to_json() {
    let input = "{\n  // a comment\n  \"url\": \"http://example.org\", // trailing\n  /* block\n     comment */\n  \"list\": [1, 2, ],\n}\n";
    assert_eq!(
        clean_jsonc(input),
        "{\n  \n  \"url\": \"http://example.org\", \n  \n  \"list\": [1, 2 ]\n}\n"
    );
    assert_eq!(strip_line_comments("a // b\nc://d\n:///e\n//"), "a \nc://d\n:/\n");
    assert_eq!(strip_line_comments("no comment"), "no comment");
    assert_eq!(strip_line_comments(""), "");
    assert_eq!(clean_jsonc("[1,\n]"), "[1\n]");
}
