use ystrokey_core::config::{AppConfig, FadeOutCurve, KeyTransitionMode, ShortcutDef};
use ystrokey_core::event::{
    ClipboardContent, ClipboardEvent, ImeEvent, ImeEventKind, InputEvent, KeyAction, KeyEvent,
    LockStateEvent, Modifiers, MouseAction, MouseButton, MouseEvent,
};
use ystrokey_core::item::{DisplayItem, DisplayItemKind, DisplayPhase, Opacity};
use ystrokey_core::key::KeyCode;
use ystrokey_core::state::DisplayState;

const NONE: Modifiers = Modifiers { ctrl: false, shift: false, alt: false, win: false };
const CTRL: Modifiers = Modifiers { ctrl: true, shift: false, alt: false, win: false };
const FULL: Opacity = Opacity { num: 1, den: 1 };

fn key(code: u32, action: KeyAction, modifiers: Modifiers, at: u64) -> InputEvent {
    InputEvent::Key(KeyEvent {
        key: KeyCode(code),
        action,
        modifiers,
        is_numpad: KeyCode(code).is_numpad(),
        // letters and digits get a scan code of their own, away from 0x29
        scan_code: 0x100 + code,
        timestamp: at,
    })
}

fn down(code: u32, at: u64) -> InputEvent {
    key(code, KeyAction::Down, NONE, at)
}

fn up(code: u32, at: u64) -> InputEvent {
    key(code, KeyAction::Up, NONE, at)
}

fn click(button: MouseButton, action: MouseAction, at: u64) -> InputEvent {
    InputEvent::Mouse(MouseEvent { button, action, position: (0, 0), timestamp: at })
}

fn ime(kind: ImeEventKind, at: u64) -> InputEvent {
    InputEvent::Ime(ImeEvent { kind, timestamp: at })
}

fn copied(content: ClipboardContent, at: u64) -> InputEvent {
    InputEvent::Clipboard(ClipboardEvent { content, timestamp: at })
}

fn stroke(item: &DisplayItem) -> (String, Modifiers, KeyAction, u32) {
    match &item.kind {
        DisplayItemKind::KeyStroke { label, modifiers, action, repeat_count } => {
            (label.clone(), *modifiers, *action, *repeat_count)
        }
        other => panic!("not a key stroke: {:?}", other),
    }
}

fn group(item: &DisplayItem) -> Vec<(String, KeyAction, u32)> {
    match &item.kind {
        DisplayItemKind::KeyStrokeGroup { strokes } => {
            strokes.iter().map(|s| (s.label.clone(), s.action, s.repeat_count)).collect()
        }
        other => panic!("not a group: {:?}", other),
    }
}

fn composition(item: &DisplayItem) -> String {
    match &item.kind {
        DisplayItemKind::ImeComposition { text } => text.clone(),
        other => panic!("not a composition: {:?}", other),
    }
}

fn preview(item: &DisplayItem) -> String {
    match &item.kind {
        DisplayItemKind::ClipboardPreview { text } => text.clone(),
        other => panic!("not a clipboard preview: {:?}", other),
    }
}

fn ungrouped() -> AppConfig {
    let mut config = AppConfig::default();
    config.behavior.group_timeout_ms = 0;
    config
}

#[test]
fn new_engine_shows_nothing() {
    let state = DisplayState::new(&AppConfig::default());
    assert!(state.active_items().is_empty());
    assert!(!state.has_animations());
    assert!(state.has_headroom());
}

#[test]
fn three_presses_in_time_count_to_three() {
    let mut state = DisplayState::new(&AppConfig::default());
    state.process_event(down(KeyCode::KEY_A, 0));
    state.process_event(up(KeyCode::KEY_A, 40));
    state.process_event(down(KeyCode::KEY_A, 200));
    state.process_event(up(KeyCode::KEY_A, 240));
    state.process_event(down(KeyCode::KEY_A, 400));
    let items = state.active_items();
    assert_eq!(items.len(), 1);
    assert_eq!(stroke(&items[0]), ("A".to_string(), NONE, KeyAction::Down, 3));
    assert_eq!(items[0].created_at, 400);
}

#[test]
fn press_after_repeat_timeout_counts_from_one() {
    let mut state = DisplayState::new(&AppConfig::default());
    state.process_event(down(KeyCode::KEY_A, 0));
    state.process_event(down(KeyCode::KEY_A, 100));
    state.process_event(down(KeyCode::KEY_A, 601));
    let items = state.active_items();
    assert_eq!(items.len(), 2);
    assert_eq!(stroke(&items[0]), ("A".to_string(), NONE, KeyAction::Down, 2));
    assert_eq!(stroke(&items[1]), ("A".to_string(), NONE, KeyAction::Down, 1));
}

#[test]
fn press_exactly_at_repeat_timeout_still_counts() {
    let mut state = DisplayState::new(&AppConfig::default());
    state.process_event(down(KeyCode::KEY_A, 0));
    state.process_event(down(KeyCode::KEY_A, 500));
    let items = state.active_items();
    assert_eq!(items.len(), 1);
    assert_eq!(stroke(&items[0]).3, 2);
}

#[test]
fn other_modifiers_start_a_new_count() {
    let mut state = DisplayState::new(&ungrouped());
    state.process_event(down(KeyCode::KEY_A, 0));
    state.process_event(key(
        KeyCode::KEY_A,
        KeyAction::Down,
        Modifiers { shift: true, ..NONE },
        100,
    ));
    let items = state.active_items();
    assert_eq!(items.len(), 2);
    assert_eq!(stroke(&items[1]).3, 1);
}

#[test]
fn repeats_are_not_counted_when_switched_off() {
    let mut config = ungrouped();
    config.behavior.show_repeat_count = false;
    let mut state = DisplayState::new(&config);
    state.process_event(down(KeyCode::KEY_A, 0));
    state.process_event(down(KeyCode::KEY_A, 100));
    let items = state.active_items();
    assert_eq!(items.len(), 2);
    assert_eq!(stroke(&items[0]).3, 1);
    assert_eq!(stroke(&items[1]).3, 1);
}

#[test]
fn four_quick_keys_make_a_group_of_three_and_one() {
    let mut config = AppConfig::default();
    config.behavior.group_timeout_ms = 300;
    config.behavior.max_group_size = 3;
    let mut state = DisplayState::new(&config);
    state.process_event(down(KeyCode::KEY_A, 0));
    state.process_event(down(KeyCode::KEY_B, 50));
    state.process_event(down(KeyCode::KEY_C, 100));
    state.process_event(down(KeyCode::KEY_D, 150));
    let items = state.active_items();
    assert_eq!(items.len(), 2);
    assert_eq!(
        group(&items[0]),
        vec![
            ("A".to_string(), KeyAction::Down, 1),
            ("B".to_string(), KeyAction::Down, 1),
            ("C".to_string(), KeyAction::Down, 1),
        ]
    );
    assert_eq!(stroke(&items[1]), ("D".to_string(), NONE, KeyAction::Down, 1));
    assert_eq!(items[0].id, 0);
    assert_eq!(items[1].id, 1);
}

#[test]
fn group_time_to_live_starts_anew_with_each_key() {
    let mut state = DisplayState::new(&AppConfig::default());
    state.process_event(down(KeyCode::KEY_A, 0));
    state.process_event(down(KeyCode::KEY_B, 250));
    state.process_event(down(KeyCode::KEY_C, 500));
    let items = state.active_items();
    assert_eq!(items.len(), 1);
    assert_eq!(group(&items[0]).len(), 3);
    assert_eq!(items[0].created_at, 500);
    // a typist who never pauses keeps the group alive
    state.tick(2400);
    assert_eq!(state.active_items()[0].phase, DisplayPhase::Active);
}

#[test]
fn slow_keys_are_not_grouped() {
    let mut state = DisplayState::new(&AppConfig::default());
    state.process_event(down(KeyCode::KEY_A, 0));
    state.process_event(down(KeyCode::KEY_B, 300));
    let items = state.active_items();
    assert_eq!(items.len(), 2);
    assert_eq!(stroke(&items[0]).0, "A");
    assert_eq!(stroke(&items[1]).0, "B");
}

#[test]
fn fading_item_takes_no_key() {
    let mut config = AppConfig::default();
    config.display.display_duration_ms = 100;
    config.behavior.group_timeout_ms = 1000;
    let mut state = DisplayState::new(&config);
    state.process_event(down(KeyCode::KEY_A, 0));
    state.tick(150);
    assert_eq!(state.active_items()[0].phase, DisplayPhase::FadingOut);
    state.process_event(down(KeyCode::KEY_B, 160));
    assert_eq!(state.active_items().len(), 2);
}

#[test]
fn single_cell_release_changes_the_same_item() {
    let mut state = DisplayState::new(&AppConfig::default());
    state.process_event(down(KeyCode::KEY_X, 0));
    let id = state.active_items()[0].id;
    assert_eq!(stroke(&state.active_items()[0]).2, KeyAction::Down);
    state.process_event(up(KeyCode::KEY_X, 80));
    let items = state.active_items();
    assert_eq!(items.len(), 1);
    assert_eq!(items[0].id, id);
    assert_eq!(stroke(&items[0]), ("X".to_string(), NONE, KeyAction::Up, 1));
    assert_eq!(items[0].created_at, 80);
    assert_eq!(items[0].opacity, FULL);
    assert_eq!(items[0].phase, DisplayPhase::Active);
}

#[test]
fn split_cells_release_gets_its_own_item() {
    let mut config = ungrouped();
    config.behavior.key_transition_mode = KeyTransitionMode::SplitCells;
    let mut state = DisplayState::new(&config);
    state.process_event(down(KeyCode::KEY_X, 0));
    state.process_event(up(KeyCode::KEY_X, 80));
    let items = state.active_items();
    assert_eq!(items.len(), 2);
    assert_ne!(items[0].id, items[1].id);
    assert_eq!(stroke(&items[0]).2, KeyAction::Down);
    assert_eq!(stroke(&items[1]).2, KeyAction::Up);
}

#[test]
fn split_cells_release_joins_a_group_when_grouping_is_on() {
    let mut config = AppConfig::default();
    config.behavior.key_transition_mode = KeyTransitionMode::SplitCells;
    let mut state = DisplayState::new(&config);
    state.process_event(down(KeyCode::KEY_X, 0));
    state.process_event(up(KeyCode::KEY_X, 80));
    let items = state.active_items();
    assert_eq!(items.len(), 1);
    assert_eq!(
        group(&items[0]),
        vec![("X".to_string(), KeyAction::Down, 1), ("X".to_string(), KeyAction::Up, 1)]
    );
}

#[test]
fn release_inside_a_group_changes_its_own_key_stroke() {
    let mut state = DisplayState::new(&AppConfig::default());
    state.process_event(down(KeyCode::KEY_A, 0));
    state.process_event(down(KeyCode::KEY_B, 20));
    state.process_event(down(KeyCode::KEY_C, 40));
    state.process_event(up(KeyCode::KEY_A, 60));
    state.process_event(up(KeyCode::KEY_C, 70));
    let items = state.active_items();
    assert_eq!(items.len(), 1);
    assert_eq!(
        group(&items[0]),
        vec![
            ("A".to_string(), KeyAction::Up, 1),
            ("B".to_string(), KeyAction::Down, 1),
            ("C".to_string(), KeyAction::Up, 1),
        ]
    );
}

#[test]
fn release_without_a_press_changes_nothing() {
    let mut state = DisplayState::new(&AppConfig::default());
    state.process_event(up(KeyCode::KEY_A, 0));
    assert!(state.active_items().is_empty());
}

#[test]
fn clear_empties_and_later_release_is_idle() {
    let mut state = DisplayState::new(&AppConfig::default());
    state.process_event(down(KeyCode::KEY_A, 0));
    state.process_event(down(KeyCode::KEY_B, 400));
    assert_eq!(state.active_items().len(), 2);
    state.clear();
    assert!(state.active_items().is_empty());
    state.process_event(up(KeyCode::KEY_A, 500));
    state.process_event(up(KeyCode::KEY_B, 510));
    assert!(state.active_items().is_empty());
}

#[test]
fn ids_go_on_after_clear() {
    let mut state = DisplayState::new(&ungrouped());
    state.process_event(down(KeyCode::KEY_A, 0));
    state.clear();
    state.process_event(down(KeyCode::KEY_B, 10));
    assert_eq!(state.active_items()[0].id, 1);
}

#[test]
fn list_never_grows_past_max_items() {
    let mut config = ungrouped();
    config.display.max_items = 3;
    let mut state = DisplayState::new(&config);
    for i in 0..10u64 {
        state.process_event(click(MouseButton::Left, MouseAction::Down, i * 10));
        assert!(state.active_items().len() <= 3);
        state.tick(i * 10 + 5);
        assert!(state.active_items().len() <= 3);
    }
    let ids: Vec<u64> = state.active_items().iter().map(|item| item.id).collect();
    assert_eq!(ids, vec![7, 8, 9]);
}

#[test]
fn max_items_of_zero_shows_nothing() {
    let mut config = ungrouped();
    config.display.max_items = 0;
    let mut state = DisplayState::new(&config);
    state.process_event(down(KeyCode::KEY_A, 0));
    state.process_event(up(KeyCode::KEY_A, 10));
    assert!(state.active_items().is_empty());
}

#[test]
fn smaller_limit_takes_hold_with_the_next_item() {
    let mut config = ungrouped();
    let mut state = DisplayState::new(&config);
    for i in 0..5u64 {
        state.process_event(click(MouseButton::Left, MouseAction::Down, i));
    }
    assert_eq!(state.active_items().len(), 5);
    config.display.max_items = 2;
    state.update_config(&config);
    assert_eq!(state.active_items().len(), 5);
    state.process_event(click(MouseButton::Right, MouseAction::Down, 10));
    let ids: Vec<u64> = state.active_items().iter().map(|item| item.id).collect();
    assert_eq!(ids, vec![4, 5]);
}

#[test]
fn evicted_item_takes_its_press_along() {
    let mut config = ungrouped();
    config.display.max_items = 1;
    let mut state = DisplayState::new(&config);
    state.process_event(down(KeyCode::KEY_A, 0));
    state.process_event(down(KeyCode::KEY_B, 10));
    state.process_event(up(KeyCode::KEY_A, 20));
    let items = state.active_items();
    assert_eq!(items.len(), 1);
    assert_eq!(stroke(&items[0]), ("B".to_string(), NONE, KeyAction::Down, 1));
    assert_eq!(items[0].created_at, 10);
}

#[test]
fn linear_fade_falls_and_ends() {
    let mut state = DisplayState::new(&ungrouped());
    state.process_event(down(KeyCode::KEY_A, 0));
    state.tick(1999);
    assert_eq!(state.active_items()[0].phase, DisplayPhase::Active);
    assert_eq!(state.active_items()[0].opacity, FULL);
    assert!(!state.has_animations());
    state.tick(2000);
    assert_eq!(state.active_items()[0].phase, DisplayPhase::FadingOut);
    assert_eq!(state.active_items()[0].opacity, FULL);
    assert!(state.has_animations());
    state.tick(2100);
    assert_eq!(state.active_items()[0].opacity, Opacity { num: 200, den: 300 });
    state.tick(2150);
    assert_eq!(state.active_items()[0].opacity, Opacity { num: 150, den: 300 });
    state.tick(2299);
    assert_eq!(state.active_items()[0].opacity, Opacity { num: 1, den: 300 });
    state.tick(2300);
    assert!(state.active_items().is_empty());
    assert!(!state.has_animations());
}

#[test]
fn ease_out_fade_is_the_square() {
    let mut config = ungrouped();
    config.animation.fade_out_curve = FadeOutCurve::EaseOut;
    let mut state = DisplayState::new(&config);
    state.process_event(down(KeyCode::KEY_A, 0));
    state.tick(2000);
    state.tick(2150);
    assert_eq!(state.active_items()[0].opacity, Opacity { num: 22500, den: 90000 });
    state.tick(2300);
    assert!(state.active_items().is_empty());
}

#[test]
fn opacity_never_rises_while_fading() {
    let mut state = DisplayState::new(&ungrouped());
    state.process_event(down(KeyCode::KEY_A, 0));
    state.tick(2000);
    let mut last = FULL;
    for now in (2001..2300u64).step_by(7) {
        state.tick(now);
        let opacity = state.active_items()[0].opacity;
        assert!(opacity.num * last.den <= last.num * opacity.den);
        assert!(opacity.num > 0);
        last = opacity;
    }
}

#[test]
fn late_tick_fades_out_in_two_steps() {
    let mut state = DisplayState::new(&ungrouped());
    state.process_event(down(KeyCode::KEY_A, 0));
    state.tick(10_000);
    assert_eq!(state.active_items()[0].phase, DisplayPhase::FadingOut);
    state.tick(10_000);
    assert!(state.active_items().is_empty());
}

#[test]
fn fade_of_no_length_ends_at_once() {
    let mut config = ungrouped();
    config.display.fade_duration_ms = 0;
    let mut state = DisplayState::new(&config);
    state.process_event(down(KeyCode::KEY_A, 0));
    state.tick(2000);
    assert_eq!(state.active_items().len(), 1);
    state.tick(2000);
    assert!(state.active_items().is_empty());
}

#[test]
fn time_running_backwards_counts_as_no_time() {
    let mut state = DisplayState::new(&AppConfig::default());
    state.process_event(down(KeyCode::KEY_A, 1000));
    state.tick(10);
    assert_eq!(state.active_items()[0].phase, DisplayPhase::Active);
    state.process_event(down(KeyCode::KEY_B, 900));
    assert_eq!(group(&state.active_items()[0]).len(), 2);
}

#[test]
fn tick_drops_press_of_expired_item() {
    let mut state = DisplayState::new(&ungrouped());
    state.process_event(down(KeyCode::KEY_A, 0));
    state.tick(2000);
    state.tick(2300);
    state.process_event(down(KeyCode::KEY_B, 2400));
    state.process_event(up(KeyCode::KEY_A, 2410));
    let items = state.active_items();
    assert_eq!(items.len(), 1);
    assert_eq!(stroke(&items[0]), ("B".to_string(), NONE, KeyAction::Down, 1));
}

#[test]
fn release_wakes_a_fading_item() {
    let mut state = DisplayState::new(&ungrouped());
    state.process_event(down(KeyCode::KEY_A, 0));
    state.tick(2000);
    state.tick(2100);
    state.process_event(up(KeyCode::KEY_A, 2110));
    let items = state.active_items();
    assert_eq!(items[0].phase, DisplayPhase::Active);
    assert_eq!(items[0].opacity, FULL);
    assert_eq!(items[0].created_at, 2110);
}

#[test]
fn modifier_key_alone_is_not_shown() {
    let mut state = DisplayState::new(&AppConfig::default());
    state.process_event(key(KeyCode::L_CTRL, KeyAction::Down, CTRL, 0));
    state.process_event(key(KeyCode::L_CTRL, KeyAction::Up, NONE, 10));
    state.process_event(down(KeyCode::R_SHIFT, 20));
    state.process_event(down(KeyCode::L_WIN, 30));
    assert!(state.active_items().is_empty());
}

#[test]
fn shortcut_is_shown_by_name() {
    let mut state = DisplayState::new(&AppConfig::default());
    state.process_event(key(KeyCode::KEY_C, KeyAction::Down, CTRL, 0));
    let items = state.active_items();
    assert_eq!(items.len(), 1);
    match &items[0].kind {
        DisplayItemKind::Shortcut { keys_label, action_label } => {
            assert_eq!(keys_label, "Ctrl+C");
            assert_eq!(action_label, "Copy");
        }
        other => panic!("not a shortcut: {:?}", other),
    }
    // the release finds no press to change
    state.process_event(key(KeyCode::KEY_C, KeyAction::Up, CTRL, 10));
    assert_eq!(state.active_items().len(), 1);
    assert!(matches!(state.active_items()[0].kind, DisplayItemKind::Shortcut { .. }));
}

#[test]
fn shortcut_needs_exactly_its_modifiers() {
    let mut state = DisplayState::new(&ungrouped());
    state.process_event(key(
        KeyCode::KEY_C,
        KeyAction::Down,
        Modifiers { ctrl: true, shift: true, alt: false, win: false },
        0,
    ));
    let items = state.active_items();
    assert_eq!(items.len(), 1);
    assert_eq!(
        stroke(&items[0]),
        (
            "C".to_string(),
            Modifiers { ctrl: true, shift: true, alt: false, win: false },
            KeyAction::Down,
            1
        )
    );
}

#[test]
fn three_part_shortcut_fires() {
    let mut state = DisplayState::new(&AppConfig::default());
    state.process_event(key(
        KeyCode::ESCAPE,
        KeyAction::Down,
        Modifiers { ctrl: true, shift: true, alt: false, win: false },
        0,
    ));
    match &state.active_items()[0].kind {
        DisplayItemKind::Shortcut { keys_label, action_label } => {
            assert_eq!(keys_label, "Ctrl+Shift+Esc");
            assert_eq!(action_label, "TaskMgr");
        }
        other => panic!("not a shortcut: {:?}", other),
    }
}

#[test]
fn first_fitting_shortcut_wins() {
    let mut config = AppConfig::default();
    config.shortcuts = vec![
        ShortcutDef { keys: "".to_string(), label: "Empty".to_string() },
        ShortcutDef { keys: "Ctrl+".to_string(), label: "NoKey".to_string() },
        ShortcutDef { keys: "Ctrl+Q".to_string(), label: "First".to_string() },
        ShortcutDef { keys: "Ctrl+Q".to_string(), label: "Second".to_string() },
    ];
    let mut state = DisplayState::new(&config);
    state.process_event(key(KeyCode::KEY_Q, KeyAction::Down, CTRL, 0));
    match &state.active_items()[0].kind {
        DisplayItemKind::Shortcut { action_label, .. } => assert_eq!(action_label, "First"),
        other => panic!("not a shortcut: {:?}", other),
    }
}

#[test]
fn ignored_key_is_dropped_whatever_its_case() {
    let mut config = AppConfig::default();
    config.behavior.ignored_keys = vec!["a".to_string(), "SPACE".to_string()];
    let mut state = DisplayState::new(&config);
    state.process_event(down(KeyCode::KEY_A, 0));
    state.process_event(down(KeyCode::SPACE, 10));
    state.process_event(key(KeyCode::KEY_A, KeyAction::Down, CTRL, 20));
    assert!(state.active_items().is_empty());
    state.process_event(down(KeyCode::KEY_B, 30));
    assert_eq!(state.active_items().len(), 1);
}

#[test]
fn ignore_list_goes_by_the_full_label() {
    let mut config = AppConfig::default();
    config.behavior.distinguish_numpad = false;
    config.behavior.ignored_keys = vec!["1".to_string()];
    let mut state = DisplayState::new(&config);
    state.process_event(down(KeyCode::NUMPAD_1, 0));
    assert_eq!(stroke(&state.active_items()[0]).0, "1");
    state.process_event(down(KeyCode::KEY_1, 1000));
    assert_eq!(state.active_items().len(), 1);
}

#[test]
fn numpad_keys_are_told_apart_on_request() {
    let mut state = DisplayState::new(&ungrouped());
    state.process_event(down(KeyCode::NUMPAD_5, 0));
    assert_eq!(stroke(&state.active_items()[0]).0, "Num5");
    let mut config = ungrouped();
    config.behavior.distinguish_numpad = false;
    let mut plain = DisplayState::new(&config);
    plain.process_event(down(KeyCode::NUMPAD_5, 0));
    plain.process_event(down(KeyCode::NUMPAD_ENTER, 10));
    assert_eq!(stroke(&plain.active_items()[0]).0, "5");
    assert_eq!(stroke(&plain.active_items()[1]).0, "Enter");
}

#[test]
fn unknown_key_is_shown_as_question_mark() {
    let mut state = DisplayState::new(&AppConfig::default());
    state.process_event(down(0x07, 0));
    assert_eq!(stroke(&state.active_items()[0]).0, "?");
}

#[test]
fn mouse_buttons_and_wheel_are_shown() {
    let mut state = DisplayState::new(&ungrouped());
    let mut config = ungrouped();
    config.display.max_items = 10;
    state.update_config(&config);
    state.process_event(click(MouseButton::Left, MouseAction::Down, 0));
    state.process_event(click(MouseButton::Right, MouseAction::Down, 1));
    state.process_event(click(MouseButton::Middle, MouseAction::Down, 2));
    state.process_event(click(MouseButton::X1, MouseAction::Down, 3));
    state.process_event(click(MouseButton::X2, MouseAction::Down, 4));
    state.process_event(click(MouseButton::Left, MouseAction::Wheel(120), 5));
    state.process_event(click(MouseButton::Left, MouseAction::Wheel(-120), 6));
    state.process_event(click(MouseButton::Left, MouseAction::Wheel(0), 7));
    state.process_event(click(MouseButton::Left, MouseAction::Up, 8));
    let labels: Vec<String> = state.active_items().iter().map(|i| stroke(i).0).collect();
    assert_eq!(
        labels,
        vec!["LClick", "RClick", "MClick", "X1Click", "X2Click", "WheelUp", "WheelDown", "WheelDown"]
    );
}

#[test]
fn mouse_click_does_not_join_a_group() {
    let mut state = DisplayState::new(&AppConfig::default());
    state.process_event(down(KeyCode::KEY_A, 0));
    state.process_event(click(MouseButton::Left, MouseAction::Down, 10));
    assert_eq!(state.active_items().len(), 2);
}

#[test]
fn clipboard_text_is_cut_by_characters() {
    let mut state = DisplayState::new(&AppConfig::default());
    let long: String = std::iter::repeat('あ').take(200).collect();
    state.process_event(copied(ClipboardContent::Text(long), 0));
    let text = preview(&state.active_items()[0]);
    assert_eq!(text.chars().count(), 53);
    let expected: String = std::iter::repeat('あ').take(50).chain("...".chars()).collect();
    assert_eq!(text, expected);
}

#[test]
fn clipboard_text_at_the_limit_is_kept_whole() {
    let mut state = DisplayState::new(&AppConfig::default());
    let exact: String = std::iter::repeat('é').take(50).collect();
    state.process_event(copied(ClipboardContent::Text(exact.clone()), 0));
    assert_eq!(preview(&state.active_items()[0]), exact);
}

#[test]
fn clipboard_limit_of_zero_leaves_the_dots() {
    let mut config = AppConfig::default();
    config.behavior.clipboard_max_chars = 0;
    let mut state = DisplayState::new(&config);
    state.process_event(copied(ClipboardContent::Text("abc".to_string()), 0));
    state.process_event(copied(ClipboardContent::Text(String::new()), 1));
    assert_eq!(preview(&state.active_items()[0]), "...");
    assert_eq!(preview(&state.active_items()[1]), "");
}

#[test]
fn clipboard_image_and_other_get_placeholders() {
    let mut state = DisplayState::new(&AppConfig::default());
    state.process_event(copied(ClipboardContent::Image { width: 640, height: 480 }, 0));
    state.process_event(copied(ClipboardContent::Image { width: 0, height: 4294967295 }, 1));
    state.process_event(copied(ClipboardContent::Other, 2));
    assert_eq!(preview(&state.active_items()[0]), "[Image 640x480]");
    assert_eq!(preview(&state.active_items()[1]), "[Image 0x4294967295]");
    assert_eq!(preview(&state.active_items()[2]), "[Clipboard]");
}

#[test]
fn clipboard_is_not_shown_when_switched_off() {
    let mut config = AppConfig::default();
    config.behavior.show_clipboard = false;
    let mut state = DisplayState::new(&config);
    state.process_event(copied(ClipboardContent::Text("secret".to_string()), 0));
    assert!(state.active_items().is_empty());
}

#[test]
fn lock_state_always_gets_a_new_item() {
    let mut state = DisplayState::new(&AppConfig::default());
    let lock = LockStateEvent { caps_lock: true, num_lock: false, scroll_lock: true, timestamp: 0 };
    state.process_event(InputEvent::LockState(lock));
    state.process_event(InputEvent::LockState(lock));
    let items = state.active_items();
    assert_eq!(items.len(), 2);
    match &items[1].kind {
        DisplayItemKind::LockIndicator { caps, num, scroll } => {
            assert!(*caps);
            assert!(!*num);
            assert!(*scroll);
        }
        other => panic!("not a lock indicator: {:?}", other),
    }
}

#[test]
fn lock_state_is_not_shown_when_switched_off() {
    let mut config = AppConfig::default();
    config.behavior.show_lock_indicators = false;
    let mut state = DisplayState::new(&config);
    let lock = LockStateEvent { caps_lock: true, num_lock: true, scroll_lock: true, timestamp: 0 };
    state.process_event(InputEvent::LockState(lock));
    assert!(state.active_items().is_empty());
}

#[test]
fn signals_for_the_driver_are_passed_over() {
    let mut state = DisplayState::new(&AppConfig::default());
    state.process_event(InputEvent::DpiChanged { dpi: 144, suggested_rect: [0, 0, 10, 10] });
    state.process_event(InputEvent::ConfigChanged);
    assert!(state.active_items().is_empty());
}

#[test]
fn native_composition_is_shown_updated_and_ended() {
    let mut state = DisplayState::new(&AppConfig::default());
    state.process_event(ime(ImeEventKind::CompositionUpdate { text: "に".to_string() }, 0));
    assert_eq!(state.active_items().len(), 1);
    let id = state.active_items()[0].id;
    state.process_event(ime(ImeEventKind::CompositionUpdate { text: "にほ".to_string() }, 100));
    let items = state.active_items();
    assert_eq!(items.len(), 1);
    assert_eq!(items[0].id, id);
    assert_eq!(composition(&items[0]), "にほ");
    assert_eq!(items[0].created_at, 100);
    state.process_event(ime(ImeEventKind::CompositionEnd { result: "日本".to_string() }, 200));
    assert!(state.active_items().is_empty());
}

#[test]
fn keys_are_hidden_while_composing() {
    let mut state = DisplayState::new(&AppConfig::default());
    state.process_event(ime(ImeEventKind::CompositionUpdate { text: "か".to_string() }, 0));
    state.process_event(down(KeyCode::KEY_K, 10));
    state.process_event(down(KeyCode::KEY_1, 20));
    state.process_event(down(0xBA, 30));
    assert_eq!(state.active_items().len(), 1);
    // keys with a commanding modifier, and keys that type nothing, still show
    state.process_event(key(KeyCode::KEY_B, KeyAction::Down, CTRL, 1000));
    state.process_event(down(KeyCode::F1, 2000));
    assert_eq!(state.active_items().len(), 3);
}

#[test]
fn composition_is_not_shown_when_switched_off() {
    let mut config = AppConfig::default();
    config.behavior.show_ime_composition = false;
    let mut state = DisplayState::new(&config);
    state.process_event(ime(ImeEventKind::CompositionUpdate { text: "か".to_string() }, 0));
    assert!(state.active_items().is_empty());
    state.process_event(down(KeyCode::KEY_K, 10));
    assert_eq!(state.active_items().len(), 1);
}

fn kanji(action: KeyAction, at: u64) -> InputEvent {
    key(0x19, action, NONE, at)
}

#[test]
fn toggle_key_is_never_shown() {
    let mut state = DisplayState::new(&AppConfig::default());
    state.process_event(kanji(KeyAction::Down, 0));
    state.process_event(kanji(KeyAction::Up, 10));
    state.process_event(key(0x15, KeyAction::Down, NONE, 20));
    state.process_event(key(0x16, KeyAction::Down, NONE, 30));
    state.process_event(key(0x1A, KeyAction::Down, NONE, 40));
    let half_width = InputEvent::Key(KeyEvent {
        key: KeyCode(0xC0),
        action: KeyAction::Down,
        modifiers: NONE,
        is_numpad: false,
        scan_code: 0x29,
        timestamp: 50,
    });
    state.process_event(half_width);
    assert!(state.active_items().is_empty());
}

#[test]
fn romaji_is_taken_after_the_toggle() {
    let mut state = DisplayState::new(&AppConfig::default());
    state.process_event(kanji(KeyAction::Down, 0));
    state.process_event(kanji(KeyAction::Up, 5));
    state.process_event(down(KeyCode::KEY_K, 10));
    // a lone consonant is held back: nothing to show yet
    assert!(state.active_items().is_empty());
    state.process_event(up(KeyCode::KEY_K, 15));
    state.process_event(down(KeyCode::KEY_A, 20));
    let items = state.active_items();
    assert_eq!(items.len(), 1);
    assert_eq!(composition(&items[0]), "か");
    state.process_event(up(KeyCode::KEY_A, 25));
    state.process_event(down(KeyCode::KEY_N, 30));
    state.process_event(down(KeyCode::KEY_N, 40));
    assert_eq!(composition(&state.active_items()[0]), "かん");
    assert_eq!(state.active_items()[0].created_at, 40);
    state.process_event(down(KeyCode::BACKSPACE, 50));
    assert_eq!(composition(&state.active_items()[0]), "か");
    state.process_event(down(KeyCode::ENTER, 60));
    assert!(state.active_items().is_empty());
    state.process_event(up(KeyCode::ENTER, 65));
    assert!(state.active_items().is_empty());
}

#[test]
fn backspace_to_nothing_takes_the_composition_off() {
    let mut state = DisplayState::new(&AppConfig::default());
    state.process_event(key(0x16, KeyAction::Down, NONE, 0));
    state.process_event(down(KeyCode::KEY_A, 10));
    assert_eq!(composition(&state.active_items()[0]), "あ");
    state.process_event(down(KeyCode::BACKSPACE, 20));
    assert!(state.active_items().is_empty());
    state.process_event(down(KeyCode::BACKSPACE, 30));
    assert!(state.active_items().is_empty());
}

#[test]
fn toggle_off_drops_romaji_and_composition() {
    let mut state = DisplayState::new(&AppConfig::default());
    state.process_event(kanji(KeyAction::Down, 0));
    state.process_event(down(KeyCode::KEY_K, 10));
    state.process_event(down(KeyCode::KEY_A, 20));
    state.process_event(kanji(KeyAction::Down, 30));
    assert!(state.active_items().is_empty());
    // letters are keys again
    state.process_event(down(KeyCode::KEY_A, 40));
    assert_eq!(stroke(&state.active_items()[0]).0, "A");
    // and the romaji typed before is gone
    state.process_event(kanji(KeyAction::Down, 3000));
    state.process_event(down(KeyCode::KEY_I, 3010));
    let shown: Vec<String> = state
        .active_items()
        .iter()
        .filter(|item| matches!(item.kind, DisplayItemKind::ImeComposition { .. }))
        .map(composition)
        .collect();
    assert_eq!(shown, vec!["い"]);
}

#[test]
fn input_method_off_stops_the_taking_of_romaji() {
    let mut state = DisplayState::new(&AppConfig::default());
    state.process_event(key(0x16, KeyAction::Down, NONE, 0));
    state.process_event(down(KeyCode::KEY_A, 10));
    state.process_event(ime(ImeEventKind::StateChanged { enabled: true }, 15));
    assert_eq!(state.active_items().len(), 1);
    state.process_event(ime(ImeEventKind::StateChanged { enabled: false }, 20));
    assert!(state.active_items().is_empty());
    state.process_event(down(KeyCode::KEY_A, 30));
    assert_eq!(stroke(&state.active_items()[0]).0, "A");
}

#[test]
fn end_of_composition_spares_romaji_on_show() {
    let mut state = DisplayState::new(&AppConfig::default());
    state.process_event(key(0x16, KeyAction::Down, NONE, 0));
    state.process_event(down(KeyCode::KEY_A, 10));
    state.process_event(ime(ImeEventKind::CompositionEnd { result: String::new() }, 20));
    assert_eq!(composition(&state.active_items()[0]), "あ");
}

#[test]
fn native_composition_takes_over_from_romaji() {
    let mut state = DisplayState::new(&AppConfig::default());
    state.process_event(key(0x16, KeyAction::Down, NONE, 0));
    state.process_event(down(KeyCode::KEY_A, 10));
    state.process_event(ime(ImeEventKind::CompositionUpdate { text: "亜".to_string() }, 20));
    assert_eq!(state.active_items().len(), 1);
    assert_eq!(composition(&state.active_items()[0]), "亜");
    // letters are no longer taken for romaji, and are hidden
    state.process_event(down(KeyCode::KEY_K, 30));
    assert_eq!(state.active_items().len(), 1);
    assert_eq!(composition(&state.active_items()[0]), "亜");
    state.process_event(ime(ImeEventKind::CompositionEnd { result: "亜".to_string() }, 40));
    assert!(state.active_items().is_empty());
    // the romaji typed before was dropped
    state.process_event(down(KeyCode::KEY_I, 50));
    assert_eq!(composition(&state.active_items()[0]), "い");
}

#[test]
fn commanding_modifier_keeps_a_letter_out_of_the_romaji() {
    let mut config = AppConfig::default();
    config.shortcuts = Vec::new();
    let mut state = DisplayState::new(&config);
    state.process_event(key(0x16, KeyAction::Down, NONE, 0));
    state.process_event(key(KeyCode::KEY_A, KeyAction::Down, CTRL, 10));
    assert_eq!(stroke(&state.active_items()[0]).0, "A");
}

#[test]
fn mode_change_forgets_the_keys_held_down() {
    let mut config = ungrouped();
    let mut state = DisplayState::new(&config);
    state.process_event(down(KeyCode::KEY_A, 0));
    config.behavior.key_transition_mode = KeyTransitionMode::SplitCells;
    state.update_config(&config);
    config.behavior.key_transition_mode = KeyTransitionMode::SingleCell;
    state.update_config(&config);
    state.process_event(up(KeyCode::KEY_A, 10));
    let items = state.active_items();
    assert_eq!(items.len(), 1);
    assert_eq!(stroke(&items[0]).2, KeyAction::Down);
}

#[test]
fn same_mode_keeps_the_keys_held_down() {
    let mut config = ungrouped();
    let mut state = DisplayState::new(&config);
    state.process_event(down(KeyCode::KEY_A, 0));
    config.display.max_items = 7;
    state.update_config(&config);
    state.process_event(up(KeyCode::KEY_A, 10));
    assert_eq!(stroke(&state.active_items()[0]).2, KeyAction::Up);
}

#[test]
fn new_repeat_timeout_takes_hold() {
    let mut config = ungrouped();
    let mut state = DisplayState::new(&config);
    state.process_event(down(KeyCode::KEY_A, 0));
    config.behavior.repeat_timeout_ms = 50;
    state.update_config(&config);
    state.process_event(down(KeyCode::KEY_A, 100));
    assert_eq!(state.active_items().len(), 2);
}

#[test]
fn repeat_in_split_cells_skips_the_release() {
    let mut config = ungrouped();
    config.behavior.key_transition_mode = KeyTransitionMode::SplitCells;
    let mut state = DisplayState::new(&config);
    state.process_event(down(KeyCode::KEY_A, 0));
    state.process_event(up(KeyCode::KEY_A, 10));
    state.process_event(down(KeyCode::KEY_A, 20));
    let items = state.active_items();
    assert_eq!(items.len(), 2);
    assert_eq!(stroke(&items[0]), ("A".to_string(), NONE, KeyAction::Down, 2));
    assert_eq!(stroke(&items[1]), ("A".to_string(), NONE, KeyAction::Up, 1));
    assert_eq!(items[0].created_at, 20);
}

#[test]
fn repeat_in_a_group_counts_on_its_last_key_stroke() {
    let mut state = DisplayState::new(&AppConfig::default());
    state.process_event(down(KeyCode::KEY_A, 0));
    state.process_event(down(KeyCode::KEY_B, 10));
    state.process_event(down(KeyCode::KEY_B, 20));
    state.process_event(up(KeyCode::KEY_B, 30));
    let items = state.active_items();
    assert_eq!(items.len(), 1);
    assert_eq!(
        group(&items[0]),
        vec![("A".to_string(), KeyAction::Down, 1), ("B".to_string(), KeyAction::Up, 2)]
    );
}

#[test]
fn first_key_of_a_new_group_can_still_be_released() {
    let mut state = DisplayState::new(&AppConfig::default());
    state.process_event(down(KeyCode::KEY_A, 0));
    state.process_event(down(KeyCode::KEY_B, 10));
    state.process_event(up(KeyCode::KEY_A, 20));
    assert_eq!(
        group(&state.active_items()[0]),
        vec![("A".to_string(), KeyAction::Up, 1), ("B".to_string(), KeyAction::Down, 1)]
    );
}

#[test]
fn clear_stops_the_taking_of_romaji() {
    let mut state = DisplayState::new(&AppConfig::default());
    state.process_event(key(0x16, KeyAction::Down, NONE, 0));
    state.process_event(down(KeyCode::KEY_K, 10));
    state.clear();
    assert!(state.active_items().is_empty());
    state.process_event(down(KeyCode::KEY_A, 20));
    let items = state.active_items();
    assert_eq!(items.len(), 1);
    assert_eq!(stroke(&items[0]), ("A".to_string(), NONE, KeyAction::Down, 1));
}

#[test]
fn clear_drops_a_composition_made_from_romaji() {
    let mut state = DisplayState::new(&AppConfig::default());
    state.process_event(kanji(KeyAction::Down, 0));
    state.process_event(down(KeyCode::KEY_K, 10));
    state.process_event(down(KeyCode::KEY_A, 20));
    assert_eq!(composition(&state.active_items()[0]), "か");
    state.clear();
    assert!(state.active_items().is_empty());
    // letters are keys again, and are not hidden behind a composition
    state.process_event(down(KeyCode::KEY_I, 30));
    assert_eq!(stroke(&state.active_items()[0]).0, "I");
    // switching on again starts from nothing
    state.process_event(kanji(KeyAction::Down, 3000));
    state.process_event(down(KeyCode::KEY_U, 3010));
    let shown: Vec<String> = state
        .active_items()
        .iter()
        .filter(|item| matches!(item.kind, DisplayItemKind::ImeComposition { .. }))
        .map(composition)
        .collect();
    assert_eq!(shown, vec!["う"]);
}

#[test]
fn clear_keeps_settings_and_ids() {
    let mut config = ungrouped();
    config.display.max_items = 2;
    let mut state = DisplayState::new(&config);
    state.process_event(down(KeyCode::KEY_A, 0));
    state.process_event(down(KeyCode::KEY_B, 1000));
    state.clear();
    state.process_event(down(KeyCode::KEY_C, 2000));
    state.process_event(down(KeyCode::KEY_D, 3000));
    state.process_event(down(KeyCode::KEY_E, 4000));
    let ids: Vec<u64> = state.active_items().iter().map(|item| item.id).collect();
    assert_eq!(ids, vec![3, 4]);
}
