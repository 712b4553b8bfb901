use fixtext::activity::{ActivityLog, ACTIVITY_LIMIT};
use fixtext::shortcut::{
    is_user_key_down, key_state_is_down, modifiers_match, parse_u32, shortcut_vk, to_ascii_upper,
    KeyPress, ShortcutAction, ShortcutState, MOD_ALT, MOD_CTRL, MOD_SHIFT, MOD_WIN, VK_C,
};

fn press(vk: u32, ctrl: bool, alt: bool, now_ms: u64) -> KeyPress {
    KeyPress { vk, ctrl, alt, shift: false, left_win: false, right_win: false, own_window_foreground: false, now_ms }
}

#[test]
fn shortcut_keys_letters_digits_and_function_keys() {
    assert_eq!(shortcut_vk("C"), Some(0x43));
    assert_eq!(shortcut_vk(" c "), Some(0x43));
    assert_eq!(shortcut_vk("9"), Some(0x39));
    assert_eq!(shortcut_vk("F"), Some(0x46));
    assert_eq!(shortcut_vk("f1"), Some(0x70));
    assert_eq!(shortcut_vk(" F12\t"), Some(0x7B));
    assert_eq!(shortcut_vk("F05"), Some(0x74));
    assert_eq!(shortcut_vk("F+5"), Some(0x74));
}

#[test]
fn shortcut_keys_refused() {
    for key in ["", "  ", "AB", "F0", "F13", "F-1", "F+", "Fx", "F1 2", "ñ", "!", "F99999999999"] {
        assert_eq!(shortcut_vk(key), None, "{:?}", key);
    }
}

#[test]
fn parse_u32_follows_std() {
    let cases = ["0", "+7", "4294967295", "4294967296", "", "+", "-1", "12a", "007"];
    for c in cases {
        let chars: Vec<char> = c.chars().collect();
        assert_eq!(parse_u32(&chars, 0), c.parse::<u32>().ok(), "{:?}", c);
    }
    let chars: Vec<char> = "F12".chars().collect();
    assert_eq!(parse_u32(&chars, 1), Some(12));
}

#[test]
fn ascii_upper_only_touches_ascii_letters() {
    assert_eq!(to_ascii_upper('a'), 'A');
    assert_eq!(to_ascii_upper('z'), 'Z');
    assert_eq!(to_ascii_upper('Q'), 'Q');
    assert_eq!(to_ascii_upper('ñ'), 'ñ');
    assert_eq!(to_ascii_upper('1'), '1');
}

#[test]
fn hook_event_filter() {
    assert!(is_user_key_down(0, 0x100, 0));
    assert!(is_user_key_down(3, 0x104, 0x01));
    assert!(!is_user_key_down(-1, 0x100, 0));
    assert!(!is_user_key_down(0, 0x101, 0));
    assert!(!is_user_key_down(0, 0x100, 0x10));
    assert!(is_user_key_down(0, 0x1_0000_0100usize, 0));
}

#[test]
fn key_state_top_bit() {
    assert!(key_state_is_down(i16::MIN));
    assert!(key_state_is_down(-1));
    assert!(!key_state_is_down(0));
    assert!(!key_state_is_down(1));
    assert!(!key_state_is_down(i16::MAX));
}

#[test]
fn modifiers_must_match_exactly() {
    let k = press(VK_C, true, false, 0);
    assert!(modifiers_match(MOD_CTRL, &k));
    assert!(!modifiers_match(MOD_CTRL | MOD_ALT, &k));
    let w = KeyPress { right_win: true, shift: true, ..press(VK_C, false, false, 0) };
    assert!(modifiers_match(MOD_WIN | MOD_SHIFT, &w));
    assert!(!modifiers_match(MOD_WIN, &w));
}

#[test]
fn double_press_within_window_fixes_clipboard() {
    let mut s = ShortcutState::new();
    assert_eq!(s.on_key_down(&press(VK_C, true, false, 1000)), ShortcutAction::Ignore);
    assert_eq!(s.on_key_down(&press(VK_C, true, false, 1300)), ShortcutAction::FixClipboard);
    assert_eq!(s.on_key_down(&press(VK_C, true, false, 1400)), ShortcutAction::Ignore);
    assert_eq!(s.on_key_down(&press(VK_C, true, false, 3000)), ShortcutAction::Ignore);
    assert_eq!(s.on_key_down(&press(VK_C, true, false, 3650)), ShortcutAction::FixClipboard);
}

#[test]
fn presses_that_do_not_count() {
    let mut s = ShortcutState::new();
    assert_eq!(s.on_key_down(&press(0x41, true, false, 1000)), ShortcutAction::Ignore);
    assert_eq!(s.on_key_down(&press(VK_C, false, false, 1010)), ShortcutAction::Ignore);
    let own = KeyPress { own_window_foreground: true, ..press(VK_C, true, false, 1020) };
    assert_eq!(s.on_key_down(&own), ShortcutAction::Ignore);
    assert_eq!(s.on_key_down(&press(VK_C, true, false, 1030)), ShortcutAction::Ignore);
    assert_eq!(s.on_key_down(&press(VK_C, true, false, 1040)), ShortcutAction::FixClipboard);
}

#[test]
fn sync_takes_settings_clamped_and_restarts_the_count() {
    let mut s = ShortcutState::new();
    assert_eq!(s.on_key_down(&press(VK_C, true, false, 1000)), ShortcutAction::Ignore);
    s.sync(true, "f2", false, true, false, false, 9, 10);
    let f2 = 0x71;
    for t in [2000u64, 2100, 2200] {
        assert_eq!(s.on_key_down(&press(f2, false, true, t)), ShortcutAction::Ignore);
    }
    assert_eq!(s.on_key_down(&press(f2, false, true, 2300)), ShortcutAction::FixClipboard);
    s.sync(true, "F13", true, false, false, false, 0, 5000);
    assert_eq!(s.on_key_down(&press(VK_C, true, false, 10_000)), ShortcutAction::FixClipboard);
    s.sync(false, "C", true, false, false, false, 1, 650);
    assert!(!s.is_enabled());
    assert_eq!(s.on_key_down(&press(VK_C, true, false, 20_000)), ShortcutAction::Ignore);
}

#[test]
fn window_is_measured_from_the_previous_press() {
    let mut s = ShortcutState::new();
    s.sync(true, "C", true, false, false, false, 3, 150);
    assert_eq!(s.on_key_down(&press(VK_C, true, false, 1000)), ShortcutAction::Ignore);
    assert_eq!(s.on_key_down(&press(VK_C, true, false, 1150)), ShortcutAction::Ignore);
    assert_eq!(s.on_key_down(&press(VK_C, true, false, 1301)), ShortcutAction::Ignore);
    assert_eq!(s.on_key_down(&press(VK_C, true, false, 1400)), ShortcutAction::Ignore);
    assert_eq!(s.on_key_down(&press(VK_C, true, false, 1390)), ShortcutAction::FixClipboard);
}

#[test]
fn selection_chord_runs_one_at_a_time() {
    let mut s = ShortcutState::new();
    let chord = press(VK_C, true, true, 500);
    assert_eq!(s.on_key_down(&chord), ShortcutAction::FixSelection);
    assert_eq!(s.on_key_down(&chord), ShortcutAction::SelectionBusy);
    s.finish_selection();
    let own = KeyPress { own_window_foreground: true, ..chord };
    assert_eq!(s.on_key_down(&own), ShortcutAction::Ignore);
    assert_eq!(s.on_key_down(&chord), ShortcutAction::FixSelection);
    let shifted = KeyPress { shift: true, ..chord };
    assert_eq!(s.on_key_down(&shifted), ShortcutAction::Ignore);
}

#[test]
fn activity_log_keeps_the_latest_twenty_numbered() {
    let mut log = ActivityLog::new();
    assert!(log.items().is_empty());
    log.push_activity_at("saved", "Settings saved".to_string(), 42);
    assert_eq!(log.items()[0].id, 1);
    assert_eq!(log.items()[0].kind, "saved");
    assert_eq!(log.items()[0].message, "Settings saved");
    assert_eq!(log.items()[0].created_at, 42);
    for i in 0..24u64 {
        assert!(log.can_push());
        log.push_activity("fixed", format!("event {}", i));
    }
    let items = log.items();
    assert_eq!(items.len(), ACTIVITY_LIMIT);
    assert_eq!(items[0].id, 6);
    assert_eq!(items[19].id, 25);
    assert_eq!(items[19].message, "event 23");
    for w in items.windows(2) {
        assert_eq!(w[1].id, w[0].id + 1);
    }
    assert!(items[19].created_at > 1_600_000_000);
}
