use hyprwhspr_rs::hyprland::{
    extract_class_from_clients_json, extract_class_from_clients_text,
    extract_window_class_from_response, first_window_query, global_paste_shortcut_command,
    handle_activewindow_response, is_unknown_request, next_window_query, normalize_address,
    parse_class_line, paste_shortcut_command, send_shortcut_command, shortcut_accepted,
    window_query_command, HyprlandError, QueryStep, WindowQuery,
};
use hyprwhspr_rs::injector::{PasteAttempt, PasteBackend, PasteKeys, TextInjector, WordOverride};

#[test]
fn extracts_class_from_plain_hyprland_output() {
    let sample = "\nAddress: 0x123456\nClass: kitty\nTitle: sample\n";
    let class = extract_window_class_from_response(sample).unwrap();
    assert_eq!(class, Some("kitty".to_string()));
}

#[test]
fn extracts_class_from_json_hyprland_output() {
    let sample = "{\"address\":\"0x123\",\"class\":\"foot\",\"title\":\"shell\"}";
    let class = extract_window_class_from_response(sample).unwrap();
    assert_eq!(class, Some("foot".to_string()));
}

#[test]
fn window_class_edge_cases() {
    assert_eq!(extract_window_class_from_response(""), Ok(None));
    assert_eq!(extract_window_class_from_response("{\"title\":\"x\"}"), Ok(None));
    assert_eq!(extract_window_class_from_response("{\"class\": 5}"), Ok(None));
    assert_eq!(extract_window_class_from_response("[1, 2]"), Ok(None));
    assert_eq!(
        extract_window_class_from_response("title: x\nsize: 3"),
        Err(HyprlandError::NoClassEntry)
    );
    assert_eq!(
        extract_window_class_from_response("  CLASS :  Alacritty  \r\nclass: other"),
        Ok(Some("Alacritty".to_string()))
    );
    assert_eq!(
        extract_window_class_from_response("class:\nclass: b"),
        Ok(Some("".to_string()))
    );
}

#[test]
fn active_window_answers() {
    assert_eq!(handle_activewindow_response("", true), None);
    assert_eq!(handle_activewindow_response("  \n ", false), None);
    assert_eq!(handle_activewindow_response(" Unknown Request ", true), None);
    assert_eq!(handle_activewindow_response("garbage", true), None);
    assert_eq!(
        handle_activewindow_response(" {\"class\":\"foot\"} ", true),
        Some("foot".to_string())
    );
    assert_eq!(
        handle_activewindow_response("Window 1:\n\tclass: kitty\n", false),
        Some("kitty".to_string())
    );
}

#[test]
fn unknown_requests_and_addresses() {
    assert!(is_unknown_request("unknown request"));
    assert!(is_unknown_request("  UNKNOWN Request\n"));
    assert!(!is_unknown_request("unknown"));
    assert_eq!(normalize_address(" 0xABCdef "), "abcdef");
    assert_eq!(normalize_address("ABC"), "abc");
    assert_eq!(normalize_address("0X12"), "0x12");
    assert_eq!(normalize_address("0x"), "");
}

#[test]
fn class_lines() {
    assert_eq!(parse_class_line("class: kitty"), Some("kitty".to_string()));
    assert_eq!(parse_class_line(" InitialClass :  foot:bar "), Some("foot:bar".to_string()));
    assert_eq!(parse_class_line("class:   "), None);
    assert_eq!(parse_class_line("title: kitty"), None);
    assert_eq!(parse_class_line("class kitty"), None);
}

#[test]
fn clients_in_plain_text() {
    let text = "Window 55aa -> one:\n\tclass: firefox\n\nWindow 0x77BB -> two:\n\ttitle: t\n\tinitialClass: kitty\n\tclass: Kitty\n\nWindow 99 -> three:\n\tclass: foot\n";
    assert_eq!(extract_class_from_clients_text(text, "0x77bb"), Some("kitty".to_string()));
    assert_eq!(extract_class_from_clients_text(text, " 55AA "), Some("firefox".to_string()));
    assert_eq!(extract_class_from_clients_text(text, "0x1234"), None);
    let cut = "Window 77bb:\n\ttitle: t\n\nclass: late\n";
    assert_eq!(extract_class_from_clients_text(cut, "77bb"), None);
    assert_eq!(extract_class_from_clients_text("", "77bb"), None);
}

#[test]
fn clients_in_json() {
    let text = "[{\"address\":\"0x1\",\"class\":\"firefox\"},{\"address\":\"0xAB\",\"class\":\"\",\"initialClass\":\"kitty\"},{\"address\":\"0xab\",\"class\":\"late\"},{\"class\":\"none\"}]";
    assert_eq!(extract_class_from_clients_json(text, "ab"), Some("kitty".to_string()));
    assert_eq!(extract_class_from_clients_json(text, "0x1"), Some("firefox".to_string()));
    assert_eq!(extract_class_from_clients_json(text, "0x2"), None);
    assert_eq!(extract_class_from_clients_json("{\"address\":\"0x1\"}", "0x1"), None);
    assert_eq!(extract_class_from_clients_json("not json", "0x1"), None);
    let empty = "[{\"address\":\"0x5\",\"class\":\"\",\"initialClass\":\"\"},{\"address\":\"5\",\"initialClass\":\"foot\"}]";
    assert_eq!(extract_class_from_clients_json(empty, "0x5"), Some("foot".to_string()));
}

#[test]
fn shortcut_commands() {
    assert_eq!(paste_shortcut_command(false), "dispatch sendshortcut ctrl, v, active");
    assert_eq!(paste_shortcut_command(true), "dispatch sendshortcut ctrl shift, v, active");
    assert_eq!(global_paste_shortcut_command(), "dispatch sendshortcut shift, Insert, active");
    assert_eq!(send_shortcut_command(&Vec::new(), "x", None), "dispatch sendshortcut x");
    assert_eq!(
        send_shortcut_command(&vec!["".to_string()], "x", Some("t")),
        "dispatch sendshortcut x, t"
    );
    assert_eq!(
        send_shortcut_command(&vec!["a".to_string(), "b".to_string(), "c".to_string()], "k", None),
        "dispatch sendshortcut a b c, k"
    );
    assert!(shortcut_accepted(""));
    assert!(shortcut_accepted("OK"));
    assert!(!shortcut_accepted("ok "));
    assert!(!shortcut_accepted("error"));
}

#[test]
fn window_queries_follow_each_other() {
    let first = first_window_query();
    assert_eq!(first, WindowQuery::JsonActiveWindow);
    assert_eq!(window_query_command(&first), "j/activewindow");
    assert_eq!(
        next_window_query(&first, "{\"class\":\"foot\"}"),
        QueryStep::Found("foot".to_string())
    );
    assert_eq!(next_window_query(&first, "{}"), QueryStep::Ask(WindowQuery::PlainActiveWindow));
    let plain = WindowQuery::PlainActiveWindow;
    assert_eq!(window_query_command(&plain), "activewindow");
    assert_eq!(next_window_query(&plain, "class: kitty"), QueryStep::Found("kitty".to_string()));
    assert_eq!(next_window_query(&plain, "unknown request"), QueryStep::Ask(WindowQuery::ActiveWindowV2));
    let v2 = WindowQuery::ActiveWindowV2;
    assert_eq!(window_query_command(&v2), "activewindowv2");
    assert_eq!(next_window_query(&v2, "unknown request"), QueryStep::Unknown);
    assert_eq!(next_window_query(&v2, "   "), QueryStep::Unknown);
    assert_eq!(
        next_window_query(&v2, "  0xAB12 extra\n"),
        QueryStep::Ask(WindowQuery::Clients("0xAB12".to_string()))
    );
    let clients = WindowQuery::Clients("0xAB12".to_string());
    assert_eq!(window_query_command(&clients), "j/clients");
    assert_eq!(next_window_query(&clients, "Unknown request"), QueryStep::Unknown);
    assert_eq!(
        next_window_query(&clients, "[{\"address\":\"0xab12\",\"class\":\"rio\"}]"),
        QueryStep::Found("rio".to_string())
    );
    assert_eq!(
        next_window_query(&clients, "Window ab12:\n class: foot\n"),
        QueryStep::Found("foot".to_string())
    );
    assert_eq!(next_window_query(&clients, "[]"), QueryStep::Unknown);
}

#[test]
fn injector_prepares_text_and_plans_the_paste() {
    let overrides = vec![
        WordOverride { original: "em dash".to_string(), replacement: "-".to_string() },
        WordOverride { original: "teh".to_string(), replacement: "the".to_string() },
    ];
    let mut injector = TextInjector::new(
        false,
        false,
        vec![" MyTerm ".to_string(), "  ".to_string()],
        overrides,
        true,
        true,
    );
    assert_eq!(injector.inject_text("   \n "), None);
    assert_eq!(injector.inject_text("teh em dash end period"), Some("The em - end.".to_string()));
    assert_eq!(injector.preprocess_text(" teh "), "The");
    assert_eq!(injector.shift_hint("myterm"), Some(true));
    assert_eq!(injector.shift_hint("browser"), None);
    assert!(injector.wants_window_class());
    assert!(injector.copies_to_wayland_clipboard());
    injector.wayland_copy_failed();
    assert!(!injector.copies_to_wayland_clipboard());

    assert_eq!(
        injector.next_paste_attempt(None, Some(true)),
        Some(PasteAttempt { backend: PasteBackend::Hyprland, keys: PasteKeys::CtrlShiftV })
    );
    assert!(!injector.has_wrtype_client());
    assert!(injector.ensure_wrtype_client());
    assert!(!injector.ensure_wrtype_client());
    injector.wrtype_client_created(true);
    assert!(injector.has_wrtype_client());
    assert_eq!(
        injector.next_paste_attempt(Some(PasteBackend::Hyprland), None),
        Some(PasteAttempt { backend: PasteBackend::VirtualKeyboard, keys: PasteKeys::CtrlV })
    );
    injector.invalidate_wrtype_client();
    assert!(injector.ensure_wrtype_client());
    injector.wrtype_client_created(false);
    assert_eq!(
        injector.next_paste_attempt(Some(PasteBackend::Hyprland), None),
        Some(PasteAttempt { backend: PasteBackend::Enigo, keys: PasteKeys::CtrlShiftV })
    );
    assert_eq!(
        injector.next_paste_attempt(Some(PasteBackend::VirtualKeyboard), Some(false)),
        Some(PasteAttempt { backend: PasteBackend::Enigo, keys: PasteKeys::CtrlShiftV })
    );
    assert_eq!(injector.next_paste_attempt(Some(PasteBackend::Enigo), None), None);
}

#[test]
fn global_paste_uses_shift_insert_everywhere() {
    let mut injector = TextInjector::new(true, true, Vec::new(), Vec::new(), false, false);
    assert!(!injector.wants_window_class());
    assert!(!injector.copies_to_wayland_clipboard());
    assert!(!injector.ensure_wrtype_client());
    assert_eq!(
        injector.next_paste_attempt(None, None),
        Some(PasteAttempt { backend: PasteBackend::Enigo, keys: PasteKeys::ShiftInsert })
    );
    let on_hyprland = TextInjector::new(true, true, Vec::new(), Vec::new(), true, true);
    assert_eq!(
        on_hyprland.next_paste_attempt(None, Some(false)),
        Some(PasteAttempt { backend: PasteBackend::Hyprland, keys: PasteKeys::ShiftInsert })
    );
}
