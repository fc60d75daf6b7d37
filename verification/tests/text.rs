use ystrokey_core::color::{parse_color, Rgba};
use ystrokey_core::config::{DiagnosticsConfig, DiagnosticsLevel, FadeOutCurve, GhostModifier, MenuLanguage, Position, PrivacyConfig, ShortcutDef};
use ystrokey_core::event::{ImeEventKind, InputEvent, KeyAction, Modifiers};
use ystrokey_core::format::{
    entry_tone, format_entry_text, format_item_text, format_item_text_no_count, is_up_state, tone,
    Tone,
};
use ystrokey_core::geometry::{can_place, compute_position, Rect};
use ystrokey_core::ime::{poll_ime_state, ImePoller, ImeReading};
use ystrokey_core::item::{DisplayItemKind, KeyStrokeEntry};
use ystrokey_core::logger::{
    enabled, init, level_name, log_line, needs_rotation, rotated_path, rotation_steps,
    update_config,
};
use ystrokey_core::privacy::{is_privacy_target, process_name};
use ystrokey_core::settings_text::{
    diag_level_at, diag_level_index, fade_curve_at, fade_curve_index, ghost_modifier_at,
    ghost_modifier_index, menu_language_at, menu_language_index, parse_shortcuts, position_at,
    position_index, shortcuts_to_text, split_lines, Category,
};
use ystrokey_core::text::{
    ascii_lower, chars_of, eq_ignore_ascii_case, find_char, is_ascii_letter, is_white_space,
    push_decimal, slice_chars, spells, split_chars, text_of, trim, truncate_chars,
};

const NONE: Modifiers = Modifiers { ctrl: false, shift: false, alt: false, win: false };

fn entry(label: &str, modifiers: Modifiers, action: KeyAction, repeat_count: u32) -> KeyStrokeEntry {
    KeyStrokeEntry { label: label.to_string(), modifiers, action, repeat_count }
}

fn stroke(label: &str, modifiers: Modifiers, action: KeyAction, repeat_count: u32) -> DisplayItemKind {
    DisplayItemKind::KeyStroke { label: label.to_string(), modifiers, action, repeat_count }
}

fn decimal(n: u64) -> String {
    let mut out = String::from(">");
    push_decimal(&mut out, n);
    out
}

#[test]
fn numbers_are_written_in_decimal() {
    assert_eq!(decimal(0), ">0");
    assert_eq!(decimal(7), ">7");
    assert_eq!(decimal(10), ">10");
    assert_eq!(decimal(1234567890), ">1234567890");
    assert_eq!(decimal(u64::MAX), ">18446744073709551615");
}

#[test]
fn case_of_latin_letters_is_ignored() {
    assert!(eq_ignore_ascii_case("Space", "SPACE"));
    assert!(eq_ignore_ascii_case("", ""));
    assert!(eq_ignore_ascii_case("KeePass.exe", "keepass.EXE"));
    assert!(!eq_ignore_ascii_case("Space", "Spac"));
    assert!(!eq_ignore_ascii_case("a", "b"));
    assert!(eq_ignore_ascii_case("é", "é"));
    assert!(!eq_ignore_ascii_case("É", "é"));
    assert!(!eq_ignore_ascii_case("@", "`"));
    assert!(!eq_ignore_ascii_case("[", "{"));
}

#[test]
fn letters_and_their_small_forms() {
    assert!(is_ascii_letter('a'));
    assert!(is_ascii_letter('Z'));
    assert!(!is_ascii_letter('1'));
    assert!(!is_ascii_letter('é'));
    assert_eq!(ascii_lower('A'), 'a');
    assert_eq!(ascii_lower('Z'), 'z');
    assert_eq!(ascii_lower('a'), 'a');
    assert_eq!(ascii_lower('['), '[');
    assert_eq!(ascii_lower('É'), 'É');
}

#[test]
fn text_is_cut_to_characters() {
    assert_eq!(truncate_chars("hello", 5), "hello");
    assert_eq!(truncate_chars("hello", 4), "hell...");
    assert_eq!(truncate_chars("héllo", 2), "hé...");
    assert_eq!(truncate_chars("", 0), "");
    assert_eq!(truncate_chars("日本語", 1), "日...");
}

#[test]
fn characters_and_pieces() {
    assert_eq!(chars_of("aé"), vec!['a', 'é']);
    assert_eq!(text_of(&vec!['日', 'x']), "日x");
    assert!(spells(&vec!['C', 't', 'r', 'l'], "Ctrl"));
    assert!(!spells(&vec!['C', 't', 'r'], "Ctrl"));
    assert!(!spells(&vec!['C', 't', 'r', 'L'], "Ctrl"));
    assert_eq!(split_chars("", '+'), vec![Vec::<char>::new()]);
    assert_eq!(split_chars("a+b", '+'), vec![vec!['a'], vec!['b']]);
    assert_eq!(split_chars("+a++", '+'), vec![vec![], vec!['a'], vec![], vec![]]);
    assert_eq!(find_char(&vec!['a', '=', 'b', '='], '='), Some(1));
    assert_eq!(find_char(&vec!['a'], '='), None);
    assert_eq!(slice_chars(&vec!['a', 'b', 'c', 'd'], 1, 3), vec!['b', 'c']);
    assert_eq!(slice_chars(&vec!['a', 'b'], 2, 2), Vec::<char>::new());
}

#[test]
fn white_space_is_trimmed_at_both_ends() {
    assert_eq!(trim(&chars_of("  a b \t\r\n")), chars_of("a b"));
    assert_eq!(trim(&chars_of(" \u{3000}\u{A0}x\u{2003}")), chars_of("x"));
    assert_eq!(trim(&chars_of("   ")), Vec::<char>::new());
    assert_eq!(trim(&chars_of("")), Vec::<char>::new());
    assert_eq!(trim(&chars_of("x")), chars_of("x"));
    // a zero-width space is no white space
    assert_eq!(trim(&chars_of("\u{200B}x")), chars_of("\u{200B}x"));
}

#[test]
fn white_space_is_what_the_platform_says() {
    for code in 0..0x3100u32 {
        if let Some(c) = char::from_u32(code) {
            assert_eq!(is_white_space(c), c.is_whitespace());
        }
    }
}

#[test]
fn key_stroke_text_names_modifiers_and_count() {
    let all = Modifiers { ctrl: true, shift: true, alt: true, win: true };
    assert_eq!(format_item_text(&stroke("A", NONE, KeyAction::Down, 1)), "A");
    assert_eq!(format_item_text(&stroke("A", NONE, KeyAction::Down, 3)), "A x3");
    assert_eq!(format_item_text(&stroke("A", all, KeyAction::Up, 12)), "Ctrl+Alt+Shift+Win+A x12");
    assert_eq!(format_item_text_no_count(&stroke("A", all, KeyAction::Up, 12)), "Ctrl+Alt+Shift+Win+A");
    assert_eq!(
        format_entry_text(&entry("Tab", Modifiers { alt: true, ..NONE }, KeyAction::Down, 2)),
        "Alt+Tab x2"
    );
    assert_eq!(format_entry_text(&entry("Tab", NONE, KeyAction::Down, 0)), "Tab");
}

#[test]
fn group_text_joins_its_key_strokes() {
    let group = DisplayItemKind::KeyStrokeGroup {
        strokes: vec![
            entry("A", NONE, KeyAction::Down, 1),
            entry("B", Modifiers { shift: true, ..NONE }, KeyAction::Up, 2),
            entry("C", NONE, KeyAction::Down, 1),
        ],
    };
    assert_eq!(format_item_text(&group), "A Shift+B x2 C");
    assert_eq!(format_item_text_no_count(&group), "A Shift+B x2 C");
    let empty = DisplayItemKind::KeyStrokeGroup { strokes: Vec::new() };
    assert_eq!(format_item_text(&empty), "");
    let single = DisplayItemKind::KeyStrokeGroup { strokes: vec![entry("A", NONE, KeyAction::Down, 1)] };
    assert_eq!(format_item_text(&single), "A");
}

#[test]
fn other_items_have_their_texts() {
    let shortcut = DisplayItemKind::Shortcut {
        keys_label: "Ctrl+C".to_string(),
        action_label: "Copy".to_string(),
    };
    assert_eq!(format_item_text(&shortcut), "Ctrl+C (Copy)");
    assert_eq!(format_item_text_no_count(&shortcut), "Ctrl+C (Copy)");
    let ime = DisplayItemKind::ImeComposition { text: "かな".to_string() };
    assert_eq!(format_item_text(&ime), "かな");
    let clip = DisplayItemKind::ClipboardPreview { text: "abc...".to_string() };
    assert_eq!(format_item_text(&clip), "[Clipboard] abc...");
    let lock = |caps, num, scroll| format_item_text(&DisplayItemKind::LockIndicator { caps, num, scroll });
    assert_eq!(lock(false, false, false), "");
    assert_eq!(lock(true, false, false), "CAPS");
    assert_eq!(lock(false, true, false), "NUM");
    assert_eq!(lock(false, false, true), "SCROLL");
    assert_eq!(lock(true, true, false), "CAPS | NUM");
    assert_eq!(lock(true, false, true), "CAPS | SCROLL");
    assert_eq!(lock(false, true, true), "NUM | SCROLL");
    assert_eq!(lock(true, true, true), "CAPS | NUM | SCROLL");
}

#[test]
fn tones_of_badges() {
    assert_eq!(tone(&stroke("Num5", Modifiers { ctrl: true, ..NONE }, KeyAction::Down, 1)), Tone::Numpad);
    assert_eq!(tone(&stroke("NumLock", NONE, KeyAction::Down, 1)), Tone::Numpad);
    assert_eq!(tone(&stroke("Nu", NONE, KeyAction::Down, 1)), Tone::KeyDown);
    assert_eq!(tone(&stroke("A", Modifiers { shift: true, ..NONE }, KeyAction::Up, 1)), Tone::Modifier);
    assert_eq!(tone(&stroke("A", NONE, KeyAction::Down, 1)), Tone::KeyDown);
    assert_eq!(tone(&stroke("A", NONE, KeyAction::Up, 1)), Tone::KeyUp);
    let group = DisplayItemKind::KeyStrokeGroup {
        strokes: vec![entry("A", NONE, KeyAction::Up, 1), entry("Num1", NONE, KeyAction::Down, 1)],
    };
    assert_eq!(tone(&group), Tone::KeyUp);
    assert_eq!(tone(&DisplayItemKind::KeyStrokeGroup { strokes: Vec::new() }), Tone::KeyDown);
    assert_eq!(
        tone(&DisplayItemKind::Shortcut { keys_label: String::new(), action_label: String::new() }),
        Tone::Shortcut
    );
    assert_eq!(tone(&DisplayItemKind::ImeComposition { text: String::new() }), Tone::Ime);
    assert_eq!(tone(&DisplayItemKind::ClipboardPreview { text: String::new() }), Tone::Clipboard);
    assert_eq!(tone(&DisplayItemKind::LockIndicator { caps: true, num: true, scroll: true }), Tone::Lock);
    assert_eq!(entry_tone(&entry("Num+", NONE, KeyAction::Up, 1)), Tone::Numpad);
    assert_eq!(entry_tone(&entry("X", Modifiers { win: true, ..NONE }, KeyAction::Up, 1)), Tone::Modifier);
    assert!(is_up_state(&stroke("A", NONE, KeyAction::Up, 1)));
    assert!(!is_up_state(&stroke("A", NONE, KeyAction::Down, 1)));
    assert!(!is_up_state(&group));
}

#[test]
fn colours_are_read_from_hex() {
    assert_eq!(parse_color("#FFFFFF"), Rgba { r: 255, g: 255, b: 255, a: 255 });
    assert_eq!(parse_color("#000000CC"), Rgba { r: 0, g: 0, b: 0, a: 204 });
    assert_eq!(parse_color("#4CAF50"), Rgba { r: 0x4C, g: 0xAF, b: 0x50, a: 255 });
    assert_eq!(parse_color("2196f3"), Rgba { r: 0x21, g: 0x96, b: 0xF3, a: 255 });
    assert_eq!(parse_color("##12345678"), Rgba { r: 0x12, g: 0x34, b: 0x56, a: 0x78 });
}

#[test]
fn badly_written_colours_fall_back() {
    let black = Rgba { r: 0, g: 0, b: 0, a: 255 };
    assert_eq!(parse_color(""), black);
    assert_eq!(parse_color("#"), black);
    assert_eq!(parse_color("#FFF"), black);
    assert_eq!(parse_color("#FFFFFFF"), black);
    assert_eq!(parse_color("#FFFFFFFFF"), black);
    assert_eq!(parse_color("#GG12ZZ"), Rgba { r: 0, g: 0x12, b: 0, a: 255 });
    assert_eq!(parse_color("#112233GG"), Rgba { r: 0x11, g: 0x22, b: 0x33, a: 255 });
    assert_eq!(parse_color("#+1-2 3"), Rgba { r: 1, g: 0, b: 0, a: 255 });
    assert_eq!(parse_color("#++1122"), Rgba { r: 0, g: 0x11, b: 0x22, a: 255 });
    assert_eq!(parse_color("#1+2233"), Rgba { r: 0, g: 0x22, b: 0x33, a: 255 });
    assert_eq!(parse_color("ab#def"), Rgba { r: 0xAB, g: 0, b: 0xEF, a: 255 });
    assert_eq!(parse_color("éé12"), Rgba { r: 0, g: 0, b: 0x12, a: 255 });
}

#[test]
fn window_is_placed_in_the_work_area() {
    let work = Rect { left: 100, top: 50, right: 1100, bottom: 850 };
    let place = |pos: Position| {
        assert!(can_place(pos, &work, 600, 300, 10, -48));
        compute_position(&pos, &work, 600, 300, 10, -48)
    };
    assert_eq!(place(Position::TopLeft), (110, 2));
    assert_eq!(place(Position::TopCenter), (310, 2));
    assert_eq!(place(Position::TopRight), (510, 2));
    assert_eq!(place(Position::BottomLeft), (110, 502));
    assert_eq!(place(Position::BottomCenter), (310, 502));
    assert_eq!(place(Position::BottomRight), (510, 502));
}

#[test]
fn window_wider_than_the_work_area_is_centred_towards_zero() {
    let work = Rect { left: 0, top: 0, right: 100, bottom: 100 };
    assert!(can_place(Position::TopCenter, &work, 201, 10, 0, 0));
    assert_eq!(compute_position(&Position::TopCenter, &work, 201, 10, 0, 0), (-50, 0));
    assert!(can_place(Position::TopCenter, &work, 1, 10, 0, 0));
    assert_eq!(compute_position(&Position::TopCenter, &work, 1, 10, 0, 0), (49, 0));
}

#[test]
fn places_that_do_not_fit_are_told() {
    let huge = Rect { left: i32::MIN, top: 0, right: i32::MAX, bottom: 10 };
    assert!(!can_place(Position::TopLeft, &huge, 1, 1, 0, 0));
    let work = Rect { left: 0, top: 0, right: 100, bottom: 100 };
    let shifted = Rect { left: 1, top: 0, right: 100, bottom: 100 };
    assert!(!can_place(Position::TopLeft, &shifted, 1, 1, i32::MAX, 0));
    assert!(can_place(Position::TopLeft, &work, 1, 1, i32::MAX, 0));
    assert!(!can_place(Position::TopRight, &work, i32::MIN, 1, 0, 0));
    // what a position does not look at does not count
    assert!(can_place(Position::TopLeft, &work, i32::MIN, i32::MIN, 0, 0));
    assert!(!can_place(Position::BottomLeft, &work, 1, i32::MIN, 0, 0));
}

#[test]
fn log_levels_from_least_to_most_verbose() {
    assert!(enabled(DiagnosticsLevel::Error, DiagnosticsLevel::Error));
    assert!(enabled(DiagnosticsLevel::Error, DiagnosticsLevel::Debug));
    assert!(enabled(DiagnosticsLevel::Warn, DiagnosticsLevel::Info));
    assert!(enabled(DiagnosticsLevel::Info, DiagnosticsLevel::Info));
    assert!(!enabled(DiagnosticsLevel::Debug, DiagnosticsLevel::Info));
    assert!(!enabled(DiagnosticsLevel::Warn, DiagnosticsLevel::Error));
    assert_eq!(level_name(DiagnosticsLevel::Error), "ERROR");
    assert_eq!(level_name(DiagnosticsLevel::Warn), "WARN");
    assert_eq!(level_name(DiagnosticsLevel::Info), "INFO");
    assert_eq!(level_name(DiagnosticsLevel::Debug), "DEBUG");
}

#[test]
fn log_lines_are_stamped() {
    let config = DiagnosticsConfig::default();
    let mut logger = init("logs/app.log".to_string(), &config);
    assert_eq!(logger.log_path, "logs/app.log");
    assert_eq!(
        log_line(&logger, DiagnosticsLevel::Warn, "disk is full", 1700000000),
        Some("[1700000000][WARN] disk is full\n".to_string())
    );
    assert_eq!(log_line(&logger, DiagnosticsLevel::Debug, "noise", 1), None);
    let verbose = DiagnosticsConfig { level: DiagnosticsLevel::Debug, ..config };
    update_config(&mut logger, &verbose);
    assert_eq!(logger.config, verbose);
    assert_eq!(logger.log_path, "logs/app.log");
    assert_eq!(
        log_line(&logger, DiagnosticsLevel::Debug, "", 0),
        Some("[0][DEBUG] \n".to_string())
    );
}

#[test]
fn log_rotation() {
    assert!(!needs_rotation(1000, 24, 1024));
    assert!(needs_rotation(1000, 25, 1024));
    assert!(needs_rotation(u64::MAX, 1, 1024));
    assert!(!needs_rotation(u64::MAX, 1, u64::MAX));
    assert_eq!(rotated_path("logs/app.log", 1), "logs/app.log.1");
    assert_eq!(rotated_path("logs/app.log", 12), "logs/app.log.12");
    assert_eq!(rotation_steps(0), Vec::<(u32, u32)>::new());
    assert_eq!(rotation_steps(1), Vec::<(u32, u32)>::new());
    assert_eq!(rotation_steps(2), vec![(0, 1)]);
    assert_eq!(rotation_steps(4), vec![(2, 3), (1, 2), (0, 1)]);
}

#[test]
fn program_name_is_the_end_of_the_path() {
    assert_eq!(process_name("C:\\Program Files\\KeePass\\KeePass.exe"), "KeePass.exe");
    assert_eq!(process_name("KeePass.exe"), "KeePass.exe");
    assert_eq!(process_name("C:\\dir\\"), "");
    assert_eq!(process_name(""), "");
    assert_eq!(process_name("a/b\\c/d"), "c/d");
}

#[test]
fn privacy_filter_goes_by_the_list() {
    let config = PrivacyConfig::default();
    assert!(is_privacy_target(&config, Some("KeePass.exe")));
    assert!(is_privacy_target(&config, Some("keepass.EXE")));
    assert!(is_privacy_target(&config, Some("1password.exe")));
    assert!(!is_privacy_target(&config, Some("notepad.exe")));
    assert!(!is_privacy_target(&config, Some("KeePass")));
    assert!(!is_privacy_target(&config, None));
    let off = PrivacyConfig { enabled: false, blocked_apps: config.blocked_apps.clone() };
    assert!(!is_privacy_target(&off, Some("KeePass.exe")));
    let empty = PrivacyConfig { enabled: true, blocked_apps: Vec::new() };
    assert!(!is_privacy_target(&empty, Some("KeePass.exe")));
}

#[test]
fn lines_with_text_are_kept() {
    assert_eq!(split_lines(" a \r\n\r\n  \nb c\n"), vec!["a", "b c"]);
    assert_eq!(split_lines(""), Vec::<String>::new());
    assert_eq!(split_lines("x"), vec!["x"]);
    assert_eq!(split_lines("\n\n"), Vec::<String>::new());
}

#[test]
fn shortcuts_are_written_and_read_back() {
    let list = vec![
        ShortcutDef { keys: "Ctrl+C".to_string(), label: "Copy".to_string() },
        ShortcutDef { keys: "Alt+F4".to_string(), label: "Close".to_string() },
    ];
    let text = shortcuts_to_text(&list);
    assert_eq!(text, "Ctrl+C=Copy\r\nAlt+F4=Close");
    let back = parse_shortcuts(&text).unwrap();
    assert_eq!(back.len(), 2);
    assert_eq!(back[0].keys, "Ctrl+C");
    assert_eq!(back[0].label, "Copy");
    assert_eq!(back[1].keys, "Alt+F4");
    assert_eq!(back[1].label, "Close");
    assert_eq!(shortcuts_to_text(&Vec::new()), "");
}

#[test]
fn shortcut_lines_are_trimmed_and_blank_ones_skipped() {
    let parsed = parse_shortcuts("\n  Ctrl+S = Save it \r\n\n\tWin+E=a=b\n").unwrap();
    assert_eq!(parsed.len(), 2);
    assert_eq!(parsed[0].keys, "Ctrl+S");
    assert_eq!(parsed[0].label, "Save it");
    assert_eq!(parsed[1].keys, "Win+E");
    assert_eq!(parsed[1].label, "a=b");
    assert!(parse_shortcuts("").unwrap().is_empty());
}

#[test]
fn bad_shortcut_lines_are_named_by_number() {
    assert_eq!(
        parse_shortcuts("Ctrl+C=Copy\n\nnonsense\n=x").err(),
        Some("shortcut line 3 must be keys=label".to_string())
    );
    assert_eq!(
        parse_shortcuts("Ctrl+C=Copy\n =Paste").err(),
        Some("shortcut line 2 must not be empty".to_string())
    );
    assert_eq!(
        parse_shortcuts("Ctrl+C= ").err(),
        Some("shortcut line 1 must not be empty".to_string())
    );
    assert_eq!(
        parse_shortcuts("=").err(),
        Some("shortcut line 1 must not be empty".to_string())
    );
}

#[test]
fn choices_and_their_places() {
    let positions = [
        Position::TopLeft,
        Position::TopCenter,
        Position::TopRight,
        Position::BottomLeft,
        Position::BottomCenter,
        Position::BottomRight,
    ];
    for (i, pos) in positions.iter().enumerate() {
        assert_eq!(position_index(*pos), i as i32);
        assert_eq!(position_at(i as i32), Some(*pos));
    }
    assert_eq!(position_at(6), None);
    assert_eq!(position_at(-1), None);
    assert_eq!(ghost_modifier_index(GhostModifier::Ctrl), 0);
    assert_eq!(ghost_modifier_index(GhostModifier::Alt), 1);
    assert_eq!(ghost_modifier_index(GhostModifier::Shift), 2);
    assert_eq!(ghost_modifier_at(1), Some(GhostModifier::Alt));
    assert_eq!(ghost_modifier_at(3), None);
    assert_eq!(diag_level_index(DiagnosticsLevel::Error), 0);
    assert_eq!(diag_level_index(DiagnosticsLevel::Debug), 3);
    assert_eq!(diag_level_at(2), Some(DiagnosticsLevel::Info));
    assert_eq!(diag_level_at(4), None);
    assert_eq!(menu_language_index(MenuLanguage::En), 1);
    assert_eq!(menu_language_at(0), Some(MenuLanguage::Ja));
    assert_eq!(menu_language_at(2), None);
    assert_eq!(fade_curve_index(FadeOutCurve::EaseOut), 1);
    assert_eq!(fade_curve_at(0), Some(FadeOutCurve::Linear));
    assert_eq!(fade_curve_at(2), None);
}

fn reading(open: bool, composition: Option<&str>) -> ImeReading {
    ImeReading { open, composition: composition.map(|s| s.to_string()) }
}

fn kinds(events: &[InputEvent]) -> Vec<String> {
    events
        .iter()
        .map(|event| match event {
            InputEvent::Ime(ie) => match &ie.kind {
                ImeEventKind::StateChanged { enabled } => format!("state {} @{}", enabled, ie.timestamp),
                ImeEventKind::CompositionUpdate { text } => format!("update {} @{}", text, ie.timestamp),
                ImeEventKind::CompositionEnd { result } => format!("end {} @{}", result, ie.timestamp),
            },
            other => panic!("not from the input method: {:?}", other),
        })
        .collect()
}

#[test]
fn poll_reports_changes_only() {
    let mut poller = ImePoller::new();
    assert!(poll_ime_state(&mut poller, &vec![reading(false, None)], 1).is_empty());
    let events = poll_ime_state(&mut poller, &vec![reading(true, Some("か"))], 2);
    assert_eq!(kinds(&events), vec!["state true @2", "update か @2"]);
    assert!(poll_ime_state(&mut poller, &vec![reading(true, Some("か"))], 3).is_empty());
    let events = poll_ime_state(&mut poller, &vec![reading(true, Some("かな"))], 4);
    assert_eq!(kinds(&events), vec!["update かな @4"]);
    let events = poll_ime_state(&mut poller, &vec![reading(true, None)], 5);
    assert_eq!(kinds(&events), vec!["end  @5"]);
    let events = poll_ime_state(&mut poller, &vec![reading(false, Some(""))], 6);
    assert_eq!(kinds(&events), vec!["state false @6"]);
}

#[test]
fn poll_without_windows_sees_nothing() {
    let mut poller = ImePoller::new();
    let _ = poll_ime_state(&mut poller, &vec![reading(true, Some("か"))], 1);
    assert!(poll_ime_state(&mut poller, &Vec::new(), 2).is_empty());
    // what was seen before is still remembered
    assert!(poll_ime_state(&mut poller, &vec![reading(true, Some("か"))], 3).is_empty());
}

#[test]
fn poll_takes_any_open_window_and_the_first_text() {
    let mut poller = ImePoller::new();
    let windows = vec![
        reading(false, None),
        reading(false, Some("")),
        reading(true, Some("に")),
        reading(false, Some("ほ")),
    ];
    let events = poll_ime_state(&mut poller, &windows, 9);
    assert_eq!(kinds(&events), vec!["state true @9", "update に @9"]);
}

fn samples() -> Vec<&'static str> {
    vec![
        "",
        " ",
        "a",
        "A",
        "Space",
        "SPACE",
        "space ",
        " \tCtrl+C = Copy\r",
        "\u{3000}全角\u{3000}",
        "é",
        "É",
        "KeePass.exe",
        "keepass.EXE",
        "a\nb",
        "\r\n",
        "x\u{85}",
        "[",
        "{",
        "@",
        "`",
    ]
}

#[test]
fn trimming_agrees_with_the_standard_library() {
    for s in samples() {
        assert_eq!(text_of(&trim(&chars_of(s))), s.trim());
    }
}

#[test]
fn comparing_agrees_with_the_standard_library() {
    for a in samples() {
        for b in samples() {
            assert_eq!(eq_ignore_ascii_case(a, b), a.eq_ignore_ascii_case(b));
        }
    }
}

#[test]
fn lines_agree_with_the_standard_library() {
    let texts = ["", "a", "a\n", "a\r\n b \n\n\tc\r", "\n\n", " x \r\n\r\n y", "one\rtwo\nthree"];
    for text in texts {
        let expected: Vec<String> = text
            .lines()
            .map(str::trim)
            .filter(|line| !line.is_empty())
            .map(|line| line.to_string())
            .collect();
        assert_eq!(split_lines(text), expected);
    }
}

#[test]
fn program_name_agrees_with_the_standard_library() {
    let paths = ["", "a", "C:\\a\\b.exe", "\\", "a\\", "\\\\server\\share\\x.exe", "é\\ü"];
    for path in paths {
        assert_eq!(process_name(path), path.rsplit('\\').next().unwrap());
    }
}

#[test]
fn sections_of_the_settings() {
    assert_eq!(Category::from_index(0), Category::General);
    assert_eq!(Category::from_index(1), Category::Display);
    assert_eq!(Category::from_index(2), Category::Style);
    assert_eq!(Category::from_index(3), Category::Input);
    assert_eq!(Category::from_index(4), Category::Privacy);
    assert_eq!(Category::from_index(5), Category::Performance);
    assert_eq!(Category::from_index(6), Category::Diagnostics);
    assert_eq!(Category::from_index(7), Category::Startup);
    assert_eq!(Category::from_index(8), Category::Tray);
    assert_eq!(Category::from_index(9), Category::Animation);
    assert_eq!(Category::from_index(10), Category::General);
    assert_eq!(Category::from_index(-1), Category::General);
}

#[test]
fn rectangle_holds_its_edges() {
    let area = Rect { left: 10, top: 20, right: 30, bottom: 40 };
    assert!(area.contains(10, 20));
    assert!(area.contains(30, 40));
    assert!(area.contains(15, 25));
    assert!(!area.contains(9, 25));
    assert!(!area.contains(31, 25));
    assert!(!area.contains(15, 19));
    assert!(!area.contains(15, 41));
}
