use ystrokey_core::event::{KeyAction, KeyEvent, Modifiers};
use ystrokey_core::hotkey::{key_name_to_vk, parse_hotkey, Hotkey};
use ystrokey_core::key::KeyCode;
use ystrokey_core::keyboard::{
    is_lock_key, is_numpad_key, key_action, key_event, numpad_scan_to_key, to_key_code, RawKey,
};
use ystrokey_core::press::{PressKey, PressMap, PressTarget};
use ystrokey_core::repeat::{elapsed_ms, RepeatTracker};
use ystrokey_core::shortcut::shortcut_matches;
use ystrokey_core::state::should_suppress_during_ime_composition;

const NONE: Modifiers = Modifiers { ctrl: false, shift: false, alt: false, win: false };

fn event(code: u32, modifiers: Modifiers) -> KeyEvent {
    KeyEvent {
        key: KeyCode(code),
        action: KeyAction::Down,
        modifiers,
        is_numpad: false,
        scan_code: 0,
        timestamp: 0,
    }
}

#[test]
fn labels_of_main_keys() {
    assert_eq!(KeyCode(KeyCode::KEY_0).label(), "0");
    assert_eq!(KeyCode(KeyCode::KEY_9).label(), "9");
    assert_eq!(KeyCode(KeyCode::KEY_A).label(), "A");
    assert_eq!(KeyCode(KeyCode::KEY_Z).label(), "Z");
    assert_eq!(KeyCode(KeyCode::F1).label(), "F1");
    assert_eq!(KeyCode(KeyCode::F12).label(), "F12");
    assert_eq!(KeyCode(KeyCode::BACKSPACE).label(), "BS");
    assert_eq!(KeyCode(KeyCode::ESCAPE).label(), "Esc");
    assert_eq!(KeyCode(KeyCode::PAGE_UP).label(), "PgUp");
    assert_eq!(KeyCode(KeyCode::PAGE_DOWN).label(), "PgDn");
    assert_eq!(KeyCode(KeyCode::PRINT_SCREEN).label(), "PrtSc");
    assert_eq!(KeyCode(KeyCode::SCROLL_LOCK).label(), "ScrLk");
    assert_eq!(KeyCode(KeyCode::NUM_LOCK).label(), "NumLock");
    assert_eq!(KeyCode(KeyCode::CAPS_LOCK).label(), "CapsLock");
    assert_eq!(KeyCode(KeyCode::DELETE).label(), "Del");
    assert_eq!(KeyCode(KeyCode::INSERT).label(), "Ins");
}

#[test]
fn labels_of_modifiers_do_not_tell_sides_apart() {
    assert_eq!(KeyCode(KeyCode::L_CTRL).label(), "Ctrl");
    assert_eq!(KeyCode(KeyCode::R_CTRL).label(), "Ctrl");
    assert_eq!(KeyCode(KeyCode::L_SHIFT).label(), "Shift");
    assert_eq!(KeyCode(KeyCode::R_SHIFT).label(), "Shift");
    assert_eq!(KeyCode(KeyCode::L_ALT).label(), "Alt");
    assert_eq!(KeyCode(KeyCode::R_ALT).label(), "Alt");
    assert_eq!(KeyCode(KeyCode::L_WIN).label(), "Win");
    assert_eq!(KeyCode(KeyCode::R_WIN).label(), "Win");
}

#[test]
fn unknown_code_has_the_placeholder_label() {
    assert_eq!(KeyCode(0).label(), "?");
    assert_eq!(KeyCode(0xFFFF_FFFF).label(), "?");
    assert_eq!(KeyCode(0xBA).label_plain(), "?");
}

#[test]
fn keypad_labels_full_and_plain() {
    let table = [
        (KeyCode::NUMPAD_0, "Num0", "0"),
        (KeyCode::NUMPAD_9, "Num9", "9"),
        (KeyCode::NUMPAD_MULTIPLY, "Num*", "*"),
        (KeyCode::NUMPAD_ADD, "Num+", "+"),
        (KeyCode::NUMPAD_SEPARATOR, "NumSep", "Sep"),
        (KeyCode::NUMPAD_SUBTRACT, "Num-", "-"),
        (KeyCode::NUMPAD_DECIMAL, "Num.", "."),
        (KeyCode::NUMPAD_DIVIDE, "Num/", "/"),
        (KeyCode::NUMPAD_ENTER, "NumEnter", "Enter"),
    ];
    for (code, full, plain) in table {
        assert_eq!(KeyCode(code).label(), full);
        assert_eq!(KeyCode(code).label_plain(), plain);
        assert!(KeyCode(code).is_numpad());
    }
}

#[test]
fn plain_label_of_other_keys_is_the_label() {
    for code in 0..0x300u32 {
        let key = KeyCode(code);
        if !key.is_numpad() {
            assert_eq!(key.label_plain(), key.label());
        }
    }
}

#[test]
fn numpad_enter_is_enter_with_a_mark() {
    assert_eq!(KeyCode::NUMPAD_ENTER, 0x20D);
    assert_eq!(KeyCode::NUMPAD_ENTER & 0xFF, KeyCode::ENTER);
    assert!(!KeyCode(KeyCode::ENTER).is_numpad());
    assert!(!KeyCode(KeyCode::NUM_LOCK).is_numpad());
    assert!(!KeyCode(0x5F).is_numpad());
    assert!(!KeyCode(0x70).is_numpad());
}

#[test]
fn eight_keys_are_modifiers() {
    let count = (0..0x300u32).filter(|code| KeyCode(*code).is_modifier()).count();
    assert_eq!(count, 8);
    assert!(KeyCode(KeyCode::L_WIN).is_modifier());
    assert!(KeyCode(KeyCode::R_ALT).is_modifier());
    assert!(!KeyCode(KeyCode::KEY_A).is_modifier());
    assert!(!KeyCode(KeyCode::CAPS_LOCK).is_modifier());
}

#[test]
fn any_modifier_counts() {
    assert!(!NONE.any());
    assert!(Modifiers { ctrl: true, ..NONE }.any());
    assert!(Modifiers { shift: true, ..NONE }.any());
    assert!(Modifiers { alt: true, ..NONE }.any());
    assert!(Modifiers { win: true, ..NONE }.any());
    assert_eq!(Modifiers::default(), NONE);
    assert!(!Modifiers { shift: true, ..NONE }.commanding());
    assert!(Modifiers { alt: true, ..NONE }.commanding());
}

#[test]
fn shortcut_text_is_matched_exactly() {
    let ctrl = Modifiers { ctrl: true, ..NONE };
    let ctrl_shift = Modifiers { ctrl: true, shift: true, ..NONE };
    assert!(shortcut_matches("Ctrl+C", &event(KeyCode::KEY_C, ctrl)));
    assert!(!shortcut_matches("Ctrl+C", &event(KeyCode::KEY_C, ctrl_shift)));
    assert!(!shortcut_matches("Ctrl+C", &event(KeyCode::KEY_V, ctrl)));
    assert!(!shortcut_matches("Ctrl+C", &event(KeyCode::KEY_C, NONE)));
    assert!(shortcut_matches("Shift+Ctrl+Esc", &event(KeyCode::ESCAPE, ctrl_shift)));
    assert!(shortcut_matches("Ctrl+Shift+Esc", &event(KeyCode::ESCAPE, ctrl_shift)));
    assert!(shortcut_matches("C", &event(KeyCode::KEY_C, NONE)));
    assert!(shortcut_matches("Win+Alt+Num5", &event(
        KeyCode::NUMPAD_5,
        Modifiers { win: true, alt: true, ..NONE }
    )));
}

#[test]
fn malformed_shortcut_text_matches_nothing() {
    let ctrl = Modifiers { ctrl: true, ..NONE };
    assert!(!shortcut_matches("", &event(KeyCode::KEY_C, NONE)));
    assert!(!shortcut_matches("Ctrl", &event(KeyCode::L_CTRL, ctrl)));
    assert!(!shortcut_matches("Ctrl+", &event(KeyCode::KEY_C, ctrl)));
    assert!(!shortcut_matches("ctrl+C", &event(KeyCode::KEY_C, ctrl)));
    assert!(!shortcut_matches("Ctrl+c", &event(KeyCode::KEY_C, ctrl)));
    assert!(!shortcut_matches("Ctrl + C", &event(KeyCode::KEY_C, ctrl)));
    // the plus key cannot be named: its name is cut away as a separator
    assert!(!shortcut_matches("Ctrl+Num+", &event(KeyCode::NUMPAD_ADD, ctrl)));
}

#[test]
fn last_key_of_a_shortcut_text_counts() {
    let ctrl = Modifiers { ctrl: true, ..NONE };
    assert!(shortcut_matches("Ctrl+A+B", &event(KeyCode::KEY_B, ctrl)));
    assert!(!shortcut_matches("Ctrl+A+B", &event(KeyCode::KEY_A, ctrl)));
    assert!(shortcut_matches("A+Ctrl", &event(KeyCode::KEY_A, ctrl)));
}

#[test]
fn keys_hidden_while_composing() {
    assert!(should_suppress_during_ime_composition(&event(KeyCode::KEY_A, NONE)));
    assert!(should_suppress_during_ime_composition(&event(KeyCode::KEY_0, NONE)));
    assert!(should_suppress_during_ime_composition(&event(0xBA, NONE)));
    assert!(should_suppress_during_ime_composition(&event(0xE2, NONE)));
    assert!(should_suppress_during_ime_composition(&event(
        KeyCode::KEY_A,
        Modifiers { shift: true, ..NONE }
    )));
    assert!(!should_suppress_during_ime_composition(&event(
        KeyCode::KEY_A,
        Modifiers { ctrl: true, ..NONE }
    )));
    assert!(!should_suppress_during_ime_composition(&event(KeyCode::SPACE, NONE)));
    assert!(!should_suppress_during_ime_composition(&event(KeyCode::F5, NONE)));
    assert!(!should_suppress_during_ime_composition(&event(0xE3, NONE)));
    // only the low byte of the code counts
    assert!(should_suppress_during_ime_composition(&event(0x241, NONE)));
}

#[test]
fn repeat_tracker_counts_and_resets() {
    let a = KeyCode(KeyCode::KEY_A);
    let b = KeyCode(KeyCode::KEY_B);
    let mut tracker = RepeatTracker::new(500);
    assert_eq!(tracker.count, 0);
    assert_eq!(tracker.track(a, NONE, 1000), 1);
    assert_eq!(tracker.track(a, NONE, 1100), 2);
    assert_eq!(tracker.track(a, NONE, 1600), 3);
    assert_eq!(tracker.track(a, NONE, 2101), 1);
    assert_eq!(tracker.track(b, NONE, 2102), 1);
    assert_eq!(tracker.track(b, Modifiers { shift: true, ..NONE }, 2103), 1);
    assert_eq!(tracker.track(b, Modifiers { shift: true, ..NONE }, 2000), 2);
    assert_eq!(tracker.last_time, 2000);
    assert_eq!(tracker.timeout_ms, 500);
}

#[test]
fn elapsed_time_never_goes_below_zero() {
    assert_eq!(elapsed_ms(10, 4), 6);
    assert_eq!(elapsed_ms(4, 10), 0);
    assert_eq!(elapsed_ms(u64::MAX, 0), u64::MAX);
}

#[test]
fn press_map_keeps_one_target_per_key() {
    let left = PressKey { scan_code: 0x1E, is_numpad: false };
    let keypad = PressKey { scan_code: 0x1E, is_numpad: true };
    let mut map = PressMap::new();
    assert_eq!(map.remove(left), None);
    map.insert(left, PressTarget::item(3));
    map.insert(keypad, PressTarget::group(4, 2));
    map.insert(left, PressTarget::item(5));
    assert_eq!(map.remove(keypad), Some(PressTarget { item_id: 4, group_index: Some(2) }));
    assert_eq!(map.remove(keypad), None);
    assert_eq!(map.remove(left), Some(PressTarget { item_id: 5, group_index: None }));
}

#[test]
fn press_map_regroups_whole_item_targets() {
    let a = PressKey { scan_code: 1, is_numpad: false };
    let b = PressKey { scan_code: 2, is_numpad: false };
    let c = PressKey { scan_code: 3, is_numpad: false };
    let mut map = PressMap::new();
    map.insert(a, PressTarget::item(7));
    map.insert(b, PressTarget::item(8));
    map.insert(c, PressTarget::group(7, 4));
    map.remap_item_target_to_group_first(7);
    assert_eq!(map.remove(a), Some(PressTarget::group(7, 0)));
    assert_eq!(map.remove(b), Some(PressTarget::item(8)));
    assert_eq!(map.remove(c), Some(PressTarget::group(7, 4)));
    map.insert(a, PressTarget::item(1));
    map.clear();
    assert_eq!(map.remove(a), None);
}

#[test]
fn press_key_is_made_from_scan_code_and_keypad_flag() {
    let mut ke = event(KeyCode::KEY_A, NONE);
    ke.scan_code = 0x1E;
    ke.is_numpad = true;
    assert_eq!(PressKey::from_key_event(&ke), PressKey { scan_code: 0x1E, is_numpad: true });
}

#[test]
fn platform_keys_become_key_codes() {
    let raw = |vk_code, scan_code, flags| RawKey { vk_code, scan_code, flags };
    assert_eq!(to_key_code(&raw(0x41, 0x1E, 0)), KeyCode(KeyCode::KEY_A));
    assert_eq!(to_key_code(&raw(0x65, 0x4C, 0)), KeyCode(KeyCode::NUMPAD_5));
    assert_eq!(to_key_code(&raw(0x6B, 0x4E, 0)), KeyCode(KeyCode::NUMPAD_ADD));
    assert_eq!(to_key_code(&raw(0x0D, 0x1C, 0)), KeyCode(KeyCode::ENTER));
    assert_eq!(to_key_code(&raw(0x0D, 0x1C, 1)), KeyCode(KeyCode::NUMPAD_ENTER));
    assert_eq!(to_key_code(&raw(0x0D, 0x1C, 0x81)), KeyCode(KeyCode::NUMPAD_ENTER));
    // number lock off: the keypad's 7 reports Home, without the extended flag
    assert_eq!(to_key_code(&raw(0x24, 0x47, 0)), KeyCode(KeyCode::NUMPAD_7));
    // the Home key itself is extended
    assert_eq!(to_key_code(&raw(0x24, 0x47, 1)), KeyCode(KeyCode::HOME));
    assert_eq!(to_key_code(&raw(0x2E, 0x53, 0)), KeyCode(KeyCode::NUMPAD_DECIMAL));
}

#[test]
fn keypad_scan_codes() {
    assert_eq!(numpad_scan_to_key(0x47), KeyCode(KeyCode::NUMPAD_7));
    assert_eq!(numpad_scan_to_key(0x48), KeyCode(KeyCode::NUMPAD_8));
    assert_eq!(numpad_scan_to_key(0x49), KeyCode(KeyCode::NUMPAD_9));
    assert_eq!(numpad_scan_to_key(0x4B), KeyCode(KeyCode::NUMPAD_4));
    assert_eq!(numpad_scan_to_key(0x4C), KeyCode(KeyCode::NUMPAD_5));
    assert_eq!(numpad_scan_to_key(0x4D), KeyCode(KeyCode::NUMPAD_6));
    assert_eq!(numpad_scan_to_key(0x4F), KeyCode(KeyCode::NUMPAD_1));
    assert_eq!(numpad_scan_to_key(0x50), KeyCode(KeyCode::NUMPAD_2));
    assert_eq!(numpad_scan_to_key(0x51), KeyCode(KeyCode::NUMPAD_3));
    assert_eq!(numpad_scan_to_key(0x52), KeyCode(KeyCode::NUMPAD_0));
    assert_eq!(numpad_scan_to_key(0x53), KeyCode(KeyCode::NUMPAD_DECIMAL));
    assert_eq!(numpad_scan_to_key(0x4A), KeyCode(0x4A));
    assert_eq!(numpad_scan_to_key(0x10), KeyCode(0x10));
}

#[test]
fn keypad_keys_are_recognised() {
    let raw = |vk_code, scan_code, flags| RawKey { vk_code, scan_code, flags };
    assert!(is_numpad_key(&raw(0x60, 0, 0)));
    assert!(is_numpad_key(&raw(0x6F, 0, 1)));
    assert!(is_numpad_key(&raw(0x0D, 0x1C, 1)));
    assert!(!is_numpad_key(&raw(0x0D, 0x1C, 0)));
    assert!(is_numpad_key(&raw(0x24, 0x47, 0)));
    assert!(!is_numpad_key(&raw(0x24, 0x47, 1)));
    assert!(is_numpad_key(&raw(0x41, 0x53, 2)));
    assert!(!is_numpad_key(&raw(0x41, 0x54, 0)));
    assert!(!is_numpad_key(&raw(0x41, 0x46, 0)));
}

#[test]
fn lock_keys_and_messages() {
    assert!(is_lock_key(0x14));
    assert!(is_lock_key(0x90));
    assert!(is_lock_key(0x91));
    assert!(!is_lock_key(0x13));
    assert_eq!(key_action(0x0100), Some(KeyAction::Down));
    assert_eq!(key_action(0x0104), Some(KeyAction::Down));
    assert_eq!(key_action(0x0101), Some(KeyAction::Up));
    assert_eq!(key_action(0x0105), Some(KeyAction::Up));
    assert_eq!(key_action(0x0102), None);
}

#[test]
fn key_event_is_put_together() {
    let raw = RawKey { vk_code: 0x0D, scan_code: 0x1C, flags: 1 };
    let ke = key_event(&raw, KeyAction::Up, Modifiers { alt: true, ..NONE }, 77);
    assert_eq!(ke.key, KeyCode(KeyCode::NUMPAD_ENTER));
    assert_eq!(ke.action, KeyAction::Up);
    assert_eq!(ke.modifiers, Modifiers { alt: true, ..NONE });
    assert!(ke.is_numpad);
    assert_eq!(ke.scan_code, 0x1C);
    assert_eq!(ke.timestamp, 77);
}

#[test]
fn hotkey_key_names() {
    assert_eq!(key_name_to_vk("F1"), Some(0x70));
    assert_eq!(key_name_to_vk("F12"), Some(0x7B));
    assert_eq!(key_name_to_vk("0"), Some(0x30));
    assert_eq!(key_name_to_vk("9"), Some(0x39));
    assert_eq!(key_name_to_vk("A"), Some(0x41));
    assert_eq!(key_name_to_vk("Z"), Some(0x5A));
    assert_eq!(key_name_to_vk("Space"), Some(0x20));
    assert_eq!(key_name_to_vk("Enter"), Some(0x0D));
    assert_eq!(key_name_to_vk("Tab"), Some(0x09));
    assert_eq!(key_name_to_vk("Esc"), Some(0x1B));
    assert_eq!(key_name_to_vk("BS"), Some(0x08));
    assert_eq!(key_name_to_vk("Del"), Some(0x2E));
    assert_eq!(key_name_to_vk("Ins"), Some(0x2D));
    assert_eq!(key_name_to_vk("Home"), Some(0x24));
    assert_eq!(key_name_to_vk("End"), Some(0x23));
    assert_eq!(key_name_to_vk("PgUp"), Some(0x21));
    assert_eq!(key_name_to_vk("PgDn"), Some(0x22));
    assert_eq!(key_name_to_vk("Left"), Some(0x25));
    assert_eq!(key_name_to_vk("Up"), Some(0x26));
    assert_eq!(key_name_to_vk("Right"), Some(0x27));
    assert_eq!(key_name_to_vk("Down"), Some(0x28));
    assert_eq!(key_name_to_vk("Pause"), Some(0x13));
    assert_eq!(key_name_to_vk("PrtSc"), Some(0x2C));
}

#[test]
fn names_that_are_no_hotkey_keys() {
    assert_eq!(key_name_to_vk(""), None);
    assert_eq!(key_name_to_vk("a"), None);
    assert_eq!(key_name_to_vk("F13"), None);
    assert_eq!(key_name_to_vk("Ctrl"), None);
    assert_eq!(key_name_to_vk("Win"), None);
    assert_eq!(key_name_to_vk("Num0"), None);
    assert_eq!(key_name_to_vk("CapsLock"), None);
    assert_eq!(key_name_to_vk("?"), None);
    assert_eq!(key_name_to_vk(" A"), None);
}

#[test]
fn hotkey_names_are_the_labels_of_their_keys() {
    for code in 0..0x100u32 {
        let label = KeyCode(code).label();
        if let Some(vk) = key_name_to_vk(label) {
            assert_eq!(KeyCode(vk).label(), label);
        }
    }
}

#[test]
fn hotkey_text_is_read() {
    assert_eq!(
        parse_hotkey("Ctrl+Alt+F12"),
        Some(Hotkey { modifiers: Modifiers { ctrl: true, alt: true, ..NONE }, vk: 0x7B })
    );
    assert_eq!(
        parse_hotkey(" Shift + Win+ Space "),
        Some(Hotkey { modifiers: Modifiers { shift: true, win: true, ..NONE }, vk: 0x20 })
    );
    assert_eq!(parse_hotkey("A"), Some(Hotkey { modifiers: NONE, vk: 0x41 }));
    assert_eq!(parse_hotkey("A+B"), Some(Hotkey { modifiers: NONE, vk: 0x42 }));
    assert_eq!(
        parse_hotkey("F1+Ctrl"),
        Some(Hotkey { modifiers: Modifiers { ctrl: true, ..NONE }, vk: 0x70 })
    );
}

#[test]
fn bad_hotkey_text_gives_nothing() {
    assert_eq!(parse_hotkey(""), None);
    assert_eq!(parse_hotkey("Ctrl"), None);
    assert_eq!(parse_hotkey("Ctrl+Alt"), None);
    assert_eq!(parse_hotkey("Ctrl+"), None);
    assert_eq!(parse_hotkey("Ctrl+Foo"), None);
    assert_eq!(parse_hotkey("Foo+A"), None);
    assert_eq!(parse_hotkey("ctrl+A"), None);
    assert_eq!(parse_hotkey("Ctrl++A"), None);
}
