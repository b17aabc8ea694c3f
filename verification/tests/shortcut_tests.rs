use hyprwhspr_rs::keys::{KeySet, KEY_A, KEY_LEFTALT, KEY_LEFTCTRL, KEY_LEFTMETA, KEY_LEFTSHIFT, KEY_R, KEY_V};
use hyprwhspr_rs::shortcuts::{
    classify_read_error, is_device_disconnect_error, is_input_event_node, DeviceInfo,
    DeviceProbe, DeviceRead, GlobalShortcuts, InputDeviceEvent, KeyEvent, ReadFailure,
    ReadResult, RefreshSummary, ShortcutError, ShortcutEvent, ShortcutKind, ShortcutPhase,
};
use std::io;

const MS: u64 = 1_000_000;

fn detector(shortcut: &str, kind: ShortcutKind) -> GlobalShortcuts {
    GlobalShortcuts::new(shortcut, kind, vec!["/dev/input/event0".to_string()]).unwrap()
}

fn sorted(keys: &KeySet) -> Vec<u16> {
    let mut codes = keys.to_vec();
    codes.sort();
    codes
}

#[test]
fn detects_enodev_as_disconnect() {
    let err = io::Error::from_raw_os_error(libc::ENODEV);
    assert!(is_device_disconnect_error(err.raw_os_error()));
}

#[test]
fn does_not_treat_would_block_as_disconnect() {
    let err = io::Error::from(io::ErrorKind::WouldBlock);
    assert!(!is_device_disconnect_error(err.raw_os_error()));
}

#[test]
fn does_not_treat_other_errors_as_disconnect() {
    let err = io::Error::from(io::ErrorKind::BrokenPipe);
    assert!(!is_device_disconnect_error(err.raw_os_error()));
}

#[test]
fn filters_input_event_nodes() {
    assert!(is_input_event_node("/dev/input/event0"));
    assert!(is_input_event_node("/dev/input/event10"));
    assert!(!is_input_event_node("/dev/input/mouse0"));
    assert!(!is_input_event_node("/tmp/event0"));
}

#[test]
fn disconnect_codes_match_the_system() {
    assert!(is_device_disconnect_error(Some(libc::EBADF)));
    assert!(is_device_disconnect_error(Some(libc::ENXIO)));
    assert!(!is_device_disconnect_error(Some(libc::EAGAIN)));
    assert!(!is_device_disconnect_error(None));
    assert_eq!(classify_read_error(true, Some(libc::ENODEV)), ReadFailure::Transient);
    assert_eq!(classify_read_error(false, Some(libc::ENODEV)), ReadFailure::Disconnected);
    assert_eq!(classify_read_error(false, Some(libc::EIO)), ReadFailure::Other);
    assert_eq!(classify_read_error(false, None), ReadFailure::Other);
}

#[test]
fn parse_shortcut_is_a_set_of_keys() {
    let keys = GlobalShortcuts::parse_shortcut("SUPER+ALT+R").unwrap();
    assert_eq!(sorted(&keys), vec![KEY_R, KEY_LEFTALT, KEY_LEFTMETA]);
    let ctrl_a = GlobalShortcuts::parse_shortcut("CTRL+A").unwrap();
    let a_ctrl = GlobalShortcuts::parse_shortcut("A+CTRL").unwrap();
    assert_eq!(sorted(&ctrl_a), sorted(&a_ctrl));
    assert_eq!(sorted(&ctrl_a), vec![KEY_LEFTCTRL, KEY_A]);
    let repeated = GlobalShortcuts::parse_shortcut("a + A + a").unwrap();
    assert_eq!(repeated.to_vec(), vec![KEY_A]);
    assert_eq!(repeated.len(), 1);
}

#[test]
fn parse_shortcut_trims_and_uppercases() {
    let keys = GlobalShortcuts::parse_shortcut("  super + shift+v ").unwrap();
    assert_eq!(sorted(&keys), vec![KEY_LEFTSHIFT, KEY_V, KEY_LEFTMETA]);
    let aliases = GlobalShortcuts::parse_shortcut("win+control+pgup+return").unwrap();
    assert_eq!(sorted(&aliases), vec![28, 29, 104, 125]);
}

#[test]
fn parse_shortcut_rejects_unknown_and_empty_tokens() {
    assert_eq!(
        GlobalShortcuts::parse_shortcut("CTRL+FOO").err(),
        Some(ShortcutError::InvalidShortcut("FOO".to_string()))
    );
    assert_eq!(
        GlobalShortcuts::parse_shortcut("").err(),
        Some(ShortcutError::InvalidShortcut("".to_string()))
    );
    assert_eq!(
        GlobalShortcuts::parse_shortcut("CTRL+").err(),
        Some(ShortcutError::InvalidShortcut("".to_string()))
    );
    assert_eq!(
        GlobalShortcuts::parse_shortcut("bar+baz").err(),
        Some(ShortcutError::InvalidShortcut("BAR".to_string()))
    );
    assert_eq!(GlobalShortcuts::parse_key("F12"), Ok(88));
    assert_eq!(
        GlobalShortcuts::parse_key("f12"),
        Err(ShortcutError::InvalidShortcut("f12".to_string()))
    );
}

#[test]
fn key_table_agrees_with_evdev() {
    let table: Vec<(&str, evdev::Key)> = vec![
        ("SUPER", evdev::Key::KEY_LEFTMETA),
        ("META", evdev::Key::KEY_LEFTMETA),
        ("WIN", evdev::Key::KEY_LEFTMETA),
        ("WINDOWS", evdev::Key::KEY_LEFTMETA),
        ("ALT", evdev::Key::KEY_LEFTALT),
        ("CTRL", evdev::Key::KEY_LEFTCTRL),
        ("CONTROL", evdev::Key::KEY_LEFTCTRL),
        ("SHIFT", evdev::Key::KEY_LEFTSHIFT),
        ("F1", evdev::Key::KEY_F1),
        ("F2", evdev::Key::KEY_F2),
        ("F3", evdev::Key::KEY_F3),
        ("F4", evdev::Key::KEY_F4),
        ("F5", evdev::Key::KEY_F5),
        ("F6", evdev::Key::KEY_F6),
        ("F7", evdev::Key::KEY_F7),
        ("F8", evdev::Key::KEY_F8),
        ("F9", evdev::Key::KEY_F9),
        ("F10", evdev::Key::KEY_F10),
        ("F11", evdev::Key::KEY_F11),
        ("F12", evdev::Key::KEY_F12),
        ("A", evdev::Key::KEY_A),
        ("B", evdev::Key::KEY_B),
        ("C", evdev::Key::KEY_C),
        ("D", evdev::Key::KEY_D),
        ("E", evdev::Key::KEY_E),
        ("F", evdev::Key::KEY_F),
        ("G", evdev::Key::KEY_G),
        ("H", evdev::Key::KEY_H),
        ("I", evdev::Key::KEY_I),
        ("J", evdev::Key::KEY_J),
        ("K", evdev::Key::KEY_K),
        ("L", evdev::Key::KEY_L),
        ("M", evdev::Key::KEY_M),
        ("N", evdev::Key::KEY_N),
        ("O", evdev::Key::KEY_O),
        ("P", evdev::Key::KEY_P),
        ("Q", evdev::Key::KEY_Q),
        ("R", evdev::Key::KEY_R),
        ("S", evdev::Key::KEY_S),
        ("T", evdev::Key::KEY_T),
        ("U", evdev::Key::KEY_U),
        ("V", evdev::Key::KEY_V),
        ("W", evdev::Key::KEY_W),
        ("X", evdev::Key::KEY_X),
        ("Y", evdev::Key::KEY_Y),
        ("Z", evdev::Key::KEY_Z),
        ("0", evdev::Key::KEY_0),
        ("1", evdev::Key::KEY_1),
        ("2", evdev::Key::KEY_2),
        ("3", evdev::Key::KEY_3),
        ("4", evdev::Key::KEY_4),
        ("5", evdev::Key::KEY_5),
        ("6", evdev::Key::KEY_6),
        ("7", evdev::Key::KEY_7),
        ("8", evdev::Key::KEY_8),
        ("9", evdev::Key::KEY_9),
        ("SPACE", evdev::Key::KEY_SPACE),
        ("ENTER", evdev::Key::KEY_ENTER),
        ("RETURN", evdev::Key::KEY_ENTER),
        ("ESC", evdev::Key::KEY_ESC),
        ("ESCAPE", evdev::Key::KEY_ESC),
        ("TAB", evdev::Key::KEY_TAB),
        ("BACKSPACE", evdev::Key::KEY_BACKSPACE),
        ("DELETE", evdev::Key::KEY_DELETE),
        ("DEL", evdev::Key::KEY_DELETE),
        ("INSERT", evdev::Key::KEY_INSERT),
        ("INS", evdev::Key::KEY_INSERT),
        ("HOME", evdev::Key::KEY_HOME),
        ("END", evdev::Key::KEY_END),
        ("PAGEUP", evdev::Key::KEY_PAGEUP),
        ("PGUP", evdev::Key::KEY_PAGEUP),
        ("PAGEDOWN", evdev::Key::KEY_PAGEDOWN),
        ("PGDOWN", evdev::Key::KEY_PAGEDOWN),
        ("UP", evdev::Key::KEY_UP),
        ("DOWN", evdev::Key::KEY_DOWN),
        ("LEFT", evdev::Key::KEY_LEFT),
        ("RIGHT", evdev::Key::KEY_RIGHT),
    ];
    for (name, key) in table {
        assert_eq!(GlobalShortcuts::parse_key(name), Ok(key.code()), "{}", name);
    }
}

#[test]
fn new_fails_without_keyboards_or_with_bad_shortcut() {
    assert_eq!(
        GlobalShortcuts::new("SUPER+R", ShortcutKind::Press, Vec::new()).err(),
        Some(ShortcutError::NoKeyboardDevices)
    );
    assert_eq!(
        GlobalShortcuts::new("SUPER+??", ShortcutKind::Press, Vec::new()).err(),
        Some(ShortcutError::InvalidShortcut("??".to_string()))
    );
    let ok = detector("SUPER+R", ShortcutKind::Hold);
    assert_eq!(ok.kind(), ShortcutKind::Hold);
    assert_eq!(ok.shortcut_name(), "SUPER+R");
    assert_eq!(ok.device_count(), 1);
    assert!(!ok.is_active());
}

#[test]
fn target_keys_in_order_yield_one_start() {
    let mut d = detector("CTRL+SHIFT+V", ShortcutKind::Press);
    assert_eq!(d.handle_key_event(KEY_LEFTCTRL, 1, 10 * MS), None);
    assert_eq!(d.handle_key_event(KEY_LEFTSHIFT, 1, 20 * MS), None);
    assert_eq!(
        d.handle_key_event(KEY_V, 1, 30 * MS),
        Some(ShortcutEvent {
            triggered_at: 30 * MS,
            kind: ShortcutKind::Press,
            phase: ShortcutPhase::Start
        })
    );
    assert!(d.is_active());
    assert_eq!(d.handle_key_event(KEY_V, 2, 40 * MS), None);
    assert_eq!(d.handle_key_event(KEY_A, 1, 50 * MS), None);
}

#[test]
fn target_keys_in_reverse_order_yield_one_start() {
    let mut d = detector("CTRL+SHIFT+V", ShortcutKind::Press);
    let events = vec![
        KeyEvent { code: KEY_V, value: 1, at: 10 * MS },
        KeyEvent { code: KEY_LEFTSHIFT, value: 1, at: 20 * MS },
        KeyEvent { code: KEY_LEFTCTRL, value: 1, at: 30 * MS },
    ];
    let out = d.process_key_events(&events);
    assert_eq!(
        out,
        vec![ShortcutEvent {
            triggered_at: 30 * MS,
            kind: ShortcutKind::Press,
            phase: ShortcutPhase::Start
        }]
    );
}

#[test]
fn second_press_within_debounce_is_swallowed() {
    let mut d = detector("CTRL+V", ShortcutKind::Press);
    assert_eq!(d.handle_key_event(KEY_LEFTCTRL, 1, 0), None);
    assert!(d.handle_key_event(KEY_V, 1, 100 * MS).is_some());
    assert_eq!(d.handle_key_event(KEY_V, 0, 150 * MS), None);
    assert!(!d.is_active());
    assert_eq!(d.handle_key_event(KEY_V, 1, 600 * MS), None);
    assert_eq!(d.handle_key_event(KEY_V, 0, 601 * MS), None);
    let third = d.handle_key_event(KEY_V, 1, 600 * MS + 1 + 100 * MS);
    assert_eq!(
        third,
        Some(ShortcutEvent {
            triggered_at: 700 * MS + 1,
            kind: ShortcutKind::Press,
            phase: ShortcutPhase::Start
        })
    );
}

#[test]
fn press_exactly_at_debounce_limit_is_swallowed() {
    let mut d = detector("V", ShortcutKind::Press);
    assert!(d.handle_key_event(KEY_V, 1, 1_000 * MS).is_some());
    assert_eq!(d.handle_key_event(KEY_V, 0, 1_001 * MS), None);
    assert_eq!(d.handle_key_event(KEY_V, 1, 1_500 * MS), None);
    assert_eq!(d.handle_key_event(KEY_V, 0, 1_500 * MS), None);
    assert!(d.handle_key_event(KEY_V, 1, 1_500 * MS + 1).is_some());
}

#[test]
fn hold_has_no_debounce() {
    let mut d = detector("V", ShortcutKind::Hold);
    assert!(d.handle_key_event(KEY_V, 1, 0).is_some());
    assert!(d.handle_key_event(KEY_V, 0, 1).is_some());
    assert!(d.handle_key_event(KEY_V, 1, 2).is_some());
}

#[test]
fn hold_release_of_other_key_keeps_combination() {
    let mut d = detector("CTRL+V", ShortcutKind::Hold);
    assert_eq!(d.handle_key_event(KEY_A, 1, 0), None);
    assert_eq!(d.handle_key_event(KEY_LEFTCTRL, 1, 1), None);
    assert_eq!(
        d.handle_key_event(KEY_V, 1, 2),
        Some(ShortcutEvent { triggered_at: 2, kind: ShortcutKind::Hold, phase: ShortcutPhase::Start })
    );
    assert_eq!(d.handle_key_event(KEY_A, 0, 3), None);
    assert!(d.is_active());
    assert_eq!(
        d.handle_key_event(KEY_V, 0, 4),
        Some(ShortcutEvent { triggered_at: 4, kind: ShortcutKind::Hold, phase: ShortcutPhase::End })
    );
    assert_eq!(d.handle_key_event(KEY_LEFTCTRL, 0, 5), None);
    assert!(!d.is_active());
}

#[test]
fn press_emits_nothing_on_release() {
    let mut d = detector("V", ShortcutKind::Press);
    assert!(d.handle_key_event(KEY_V, 1, 0).is_some());
    assert_eq!(d.handle_key_event(KEY_V, 0, 1), None);
    assert!(!d.is_active());
}

#[test]
fn hotplug_events_track_devices_and_reset_keys() {
    let mut d = detector("CTRL+V", ShortcutKind::Hold);
    assert_eq!(d.handle_key_event(KEY_LEFTCTRL, 1, 0), None);
    let open = d.handle_input_device_event(
        &InputDeviceEvent::Added("/dev/input/event7".to_string()),
        1,
    );
    assert_eq!(open, Some("/dev/input/event7".to_string()));
    assert!(d.add_keyboard_device("/dev/input/event7".to_string(), DeviceProbe::Keyboard));
    assert!(!d.add_keyboard_device("/dev/input/event7".to_string(), DeviceProbe::Keyboard));
    assert!(!d.add_keyboard_device("/dev/input/event8".to_string(), DeviceProbe::NotKeyboard));
    assert!(!d.add_keyboard_device("/dev/input/event9".to_string(), DeviceProbe::OpenFailed));
    assert_eq!(d.device_count(), 2);
    // CTRL was forgotten with the hot-plug event: V alone does not trigger.
    assert_eq!(d.handle_key_event(KEY_V, 1, 2), None);
    let again = d.handle_input_device_event(
        &InputDeviceEvent::Added("/dev/input/event7".to_string()),
        3,
    );
    assert_eq!(again, None);
    let changed = d.handle_input_device_event(
        &InputDeviceEvent::Changed("/dev/input/event0".to_string()),
        4,
    );
    assert_eq!(changed, Some("/dev/input/event0".to_string()));
    assert!(!d.is_monitoring("/dev/input/event0"));
    assert!(d.is_monitoring("/dev/input/event7"));
    let removed = d.handle_input_device_event(
        &InputDeviceEvent::Removed("/dev/input/event7".to_string()),
        5,
    );
    assert_eq!(removed, None);
    assert_eq!(d.device_count(), 0);
    assert!(!d.remove_keyboard_device("/dev/input/event7"));
}

#[test]
fn lost_monitor_switches_to_periodic_rescan() {
    let mut d = detector("V", ShortcutKind::Hold);
    assert!(!d.rescan_due(5_000 * MS));
    assert!(!d.begin_rescan(5_000 * MS));
    let open = d.handle_input_device_event(
        &InputDeviceEvent::MonitorUnavailable("no udev".to_string()),
        5_000 * MS,
    );
    assert_eq!(open, None);
    assert!(d.handle_key_event(KEY_V, 1, 5_000 * MS).is_some());
    assert!(d.rescan_due(5_000 * MS));
    assert!(d.begin_rescan(5_000 * MS));
    assert!(!d.is_active());
    assert!(!d.rescan_due(5_999 * MS));
    assert!(d.rescan_due(6_000 * MS));
    assert_eq!(d.refresh_devices(Vec::new()), RefreshSummary::NoneFound);
    assert_eq!(d.refresh_devices(Vec::new()), RefreshSummary::Unchanged(0));
    assert_eq!(
        d.refresh_devices(vec!["/dev/input/event3".to_string()]),
        RefreshSummary::Changed(1)
    );
}

#[test]
fn disconnected_devices_are_dropped_together() {
    let mut d = GlobalShortcuts::new(
        "V",
        ShortcutKind::Hold,
        vec!["a".to_string(), "b".to_string(), "c".to_string(), "b".to_string()],
    )
    .unwrap();
    assert!(d.handle_key_event(KEY_V, 1, 0).is_some());
    d.drop_disconnected(&Vec::new());
    assert!(d.is_active());
    assert_eq!(d.device_count(), 4);
    d.drop_disconnected(&vec!["b".to_string(), "x".to_string()]);
    assert!(!d.is_active());
    assert_eq!(d.device_count(), 2);
    assert!(d.is_monitoring("a"));
    assert!(d.is_monitoring("c"));
    assert!(!d.is_monitoring("b"));
}

#[test]
fn keyboards_report_the_letters_a_s_d() {
    assert!(GlobalShortcuts::is_keyboard_device(&Some(vec![1, 30, 31, 32, 57])));
    assert!(!GlobalShortcuts::is_keyboard_device(&Some(vec![30, 31])));
    assert!(!GlobalShortcuts::is_keyboard_device(&Some(vec![272, 273])));
    assert!(!GlobalShortcuts::is_keyboard_device(&None));
}

#[test]
fn key_set_behaves_as_a_set() {
    let mut keys = KeySet::new();
    assert!(keys.is_empty());
    assert!(keys.insert(5));
    assert!(!keys.insert(5));
    assert!(keys.insert(9));
    assert_eq!(keys.len(), 2);
    assert!(keys.contains(9));
    let mut other = KeySet::new();
    other.insert(9);
    assert!(other.is_subset(&keys));
    assert!(!keys.is_subset(&other));
    assert!(keys.remove(5));
    assert!(!keys.remove(5));
    assert!(keys.is_subset(&other));
    keys.clear();
    assert!(keys.is_empty());
    assert!(keys.is_subset(&other));
}

#[test]
fn one_cycle_handles_hotplug_before_reads() {
    let mut d = GlobalShortcuts::new(
        "CTRL+V",
        ShortcutKind::Hold,
        vec!["/dev/input/event0".to_string(), "/dev/input/event1".to_string()],
    )
    .unwrap();
    assert_eq!(d.handle_key_event(KEY_LEFTCTRL, 1, 0), None);
    let hotplug = vec![
        InputDeviceEvent::Added("/dev/input/event5".to_string()),
        InputDeviceEvent::Added("/dev/input/event0".to_string()),
    ];
    let reads = vec![
        DeviceRead {
            path: "/dev/input/event0".to_string(),
            result: ReadResult::Events(vec![
                KeyEvent { code: KEY_V, value: 1, at: 10 },
                KeyEvent { code: KEY_LEFTCTRL, value: 1, at: 11 },
            ]),
        },
        DeviceRead { path: "/dev/input/event1".to_string(), result: ReadResult::WouldBlock },
        DeviceRead {
            path: "/dev/input/event1".to_string(),
            result: ReadResult::Failed(Some(libc::EIO)),
        },
    ];
    let report = d.run(&hotplug, &reads, 12);
    // The hot-plug events forgot CTRL, so the Start comes with the second key.
    assert_eq!(
        report.events,
        vec![ShortcutEvent { triggered_at: 11, kind: ShortcutKind::Hold, phase: ShortcutPhase::Start }]
    );
    assert_eq!(report.open, vec!["/dev/input/event5".to_string()]);
    assert!(report.gone.is_empty());
    assert!(!report.rescan);
    assert!(d.is_active());

    let lost = vec![
        DeviceRead {
            path: "/dev/input/event0".to_string(),
            result: ReadResult::Events(vec![KeyEvent { code: KEY_V, value: 0, at: 20 }]),
        },
        DeviceRead {
            path: "/dev/input/event1".to_string(),
            result: ReadResult::Failed(Some(libc::ENODEV)),
        },
    ];
    let unavailable = vec![InputDeviceEvent::MonitorUnavailable("gone".to_string())];
    let report = d.run(&unavailable, &lost, 21);
    assert_eq!(
        report.events,
        vec![ShortcutEvent { triggered_at: 20, kind: ShortcutKind::Hold, phase: ShortcutPhase::End }]
    );
    assert_eq!(report.gone, vec!["/dev/input/event1".to_string()]);
    assert!(report.rescan);
    assert_eq!(d.device_count(), 1);
    assert!(!d.rescan_due(22));
    assert!(d.rescan_due(21 + 1_000 * MS));

    let candidates = vec![
        DeviceInfo {
            path: "/dev/input/event0".to_string(),
            name: Some("Keyboard".to_string()),
            supported_keys: Some(vec![30, 31, 32]),
        },
        DeviceInfo {
            path: "/dev/input/event1".to_string(),
            name: Some("Mouse".to_string()),
            supported_keys: Some(vec![272]),
        },
        DeviceInfo { path: "/dev/input/event2".to_string(), name: None, supported_keys: Some(vec![32, 31, 30]) },
    ];
    assert_eq!(
        GlobalShortcuts::find_keyboard_devices(&candidates),
        vec!["/dev/input/event0".to_string(), "/dev/input/event2".to_string()]
    );
    assert_eq!(
        GlobalShortcuts::list_available_keyboards(&candidates),
        vec![
            ("/dev/input/event0".to_string(), "Keyboard".to_string()),
            ("/dev/input/event2".to_string(), "Unknown".to_string()),
        ]
    );
}
