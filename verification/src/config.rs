use vstd::prelude::*;

use crate::error::ConfigError;
use crate::text::{decimal_of, push_decimal};

verus! {

/// The version of the configuration layout that this library understands.
pub const SCHEMA_VERSION: u32 = 2;

/// Whether a key's press and release share one badge or get one each.
#[derive(Debug, Clone, Copy, PartialEq, Eq, Structural)]
pub enum KeyTransitionMode {
    /// One badge per press, which changes when the key is released.
    SingleCell,
    /// A badge for the press and another for the release.
    SplitCells,
}

/// How opacity falls while an item fades.
#[derive(Debug, Clone, Copy, PartialEq, Eq, Structural)]
pub enum FadeOutCurve {
    Linear,
    EaseOut,
}

/// Where on the screen the overlay sits.
#[derive(Debug, Clone, Copy, PartialEq, Eq, Structural)]
pub enum Position {
    TopLeft,
    TopCenter,
    TopRight,
    BottomLeft,
    BottomCenter,
    BottomRight,
}

/// How much the diagnostics report, from least to most.
#[derive(Debug, Clone, Copy, PartialEq, Eq, Structural)]
pub enum DiagnosticsLevel {
    Error,
    Warn,
    Info,
    Debug,
}

impl DiagnosticsLevel {
    /// The place of a level in the order from least to most verbose.
    pub open spec fn rank(self) -> nat {
        match self {
            DiagnosticsLevel::Error => 0,
            DiagnosticsLevel::Warn => 1,
            DiagnosticsLevel::Info => 2,
            DiagnosticsLevel::Debug => 3,
        }
    }

    /// The name a level is logged under.
    pub open spec fn name_of(self) -> Seq<char> {
        match self {
            DiagnosticsLevel::Error => "ERROR"@,
            DiagnosticsLevel::Warn => "WARN"@,
            DiagnosticsLevel::Info => "INFO"@,
            DiagnosticsLevel::Debug => "DEBUG"@,
        }
    }

    /// The place of a level in the order from least to most verbose.
    pub fn position(self) -> (r: u8)
        ensures
            r == self.rank(),
    {
        match self {
            DiagnosticsLevel::Error => 0,
            DiagnosticsLevel::Warn => 1,
            DiagnosticsLevel::Info => 2,
            DiagnosticsLevel::Debug => 3,
        }
    }
}

/// The language of the tray menu.
#[derive(Debug, Clone, Copy, PartialEq, Eq, Structural)]
pub enum MenuLanguage {
    Ja,
    En,
}

/// The modifier key that lets the overlay be grabbed with the mouse.
#[derive(Debug, Clone, Copy, PartialEq, Eq, Structural)]
pub enum GhostModifier {
    Ctrl,
    Alt,
    Shift,
}

/// Where on a named monitor the overlay was last left.
#[derive(Debug, Clone)]
pub struct MonitorPosition {
    pub device: String,
    pub x: i32,
    pub y: i32,
}

/// Where the overlay sits, how much it shows and for how long.
#[derive(Debug, Clone)]
pub struct DisplayConfig {
    pub position: Position,
    pub offset_x: i32,
    pub offset_y: i32,
    pub monitor_positions: Vec<MonitorPosition>,
    /// The most items shown at once.
    pub max_items: usize,
    /// How long an item is shown at full opacity, in milliseconds.
    pub display_duration_ms: u64,
    /// How long an item takes to fade after that, in milliseconds.
    pub fade_duration_ms: u64,
}

/// What is shown, and how key strokes are counted and grouped.
#[derive(Debug, Clone)]
pub struct BehaviorConfig {
    pub key_transition_mode: KeyTransitionMode,
    pub show_repeat_count: bool,
    pub distinguish_numpad: bool,
    pub show_ime_composition: bool,
    pub show_clipboard: bool,
    /// The most characters of a clipboard text that are shown.
    pub clipboard_max_chars: usize,
    pub show_lock_indicators: bool,
    /// How long after a key press the same press still counts as a
    /// repeat, in milliseconds.
    pub repeat_timeout_ms: u64,
    /// How long after an item was last touched a key stroke still joins
    /// it, in milliseconds; zero turns grouping off.
    pub group_timeout_ms: u64,
    /// The most key strokes in one group.
    pub max_group_size: usize,
    /// Labels of the keys that are never shown, whatever their case.
    pub ignored_keys: Vec<String>,
    pub exclude_from_capture: bool,
}

/// A key combination with a name, such as `Ctrl+C` for `Copy`.
#[derive(Debug, Clone)]
pub struct ShortcutDef {
    pub keys: String,
    pub label: String,
}

/// What a shortcut definition holds.
pub struct ShortcutDefView {
    pub keys: Seq<char>,
    pub label: Seq<char>,
}

impl View for ShortcutDef {
    type V = ShortcutDefView;

    open spec fn view(&self) -> ShortcutDefView {
        ShortcutDefView { keys: self.keys@, label: self.label@ }
    }
}

/// The programs before which the overlay falls silent.
#[derive(Debug, Clone)]
pub struct PrivacyConfig {
    pub enabled: bool,
    pub blocked_apps: Vec<String>,
}

/// The key combination that switches the overlay on and off.
#[derive(Debug, Clone)]
pub struct HotkeyConfig {
    pub toggle: String,
}

/// The size of the overlay and the pace of the program.
#[derive(Debug, Clone, Copy, PartialEq, Eq, Structural)]
pub struct PerformanceConfig {
    pub osd_width: i32,
    pub osd_height: i32,
    pub ime_poll_interval_ms: u64,
    pub frame_interval_ms: u64,
    pub config_reload_interval_ms: u64,
}

/// What is logged, and how much of it is kept.
#[derive(Debug, Clone, Copy, PartialEq, Eq, Structural)]
pub struct DiagnosticsConfig {
    pub level: DiagnosticsLevel,
    pub file_logging_enabled: bool,
    pub max_file_bytes: u64,
    pub max_files: u32,
}

/// Whether the program starts with the session.
#[derive(Debug, Clone, Copy, PartialEq, Eq, Structural)]
pub struct StartupConfig {
    pub autostart_enabled: bool,
}

/// How the tray icon behaves.
#[derive(Debug, Clone, Copy, PartialEq, Eq, Structural)]
pub struct TrayConfig {
    pub start_osd_enabled: bool,
    pub menu_language: MenuLanguage,
    pub confirm_on_exit: bool,
}

/// The part of the animation settings that decides what is shown.
#[derive(Debug, Clone, Copy, PartialEq, Eq, Structural)]
pub struct AnimationConfig {
    pub ghost_modifier: GhostModifier,
    pub fade_out_curve: FadeOutCurve,
}

/// A configuration, as far as it is made of whole numbers, switches and
/// text.
#[derive(Debug, Clone)]
pub struct AppConfig {
    pub schema_version: u32,
    pub display: DisplayConfig,
    pub behavior: BehaviorConfig,
    pub shortcuts: Vec<ShortcutDef>,
    pub privacy: PrivacyConfig,
    pub hotkey: HotkeyConfig,
    pub performance: PerformanceConfig,
    pub diagnostics: DiagnosticsConfig,
    pub startup: StartupConfig,
    pub tray: TrayConfig,
    pub animation: AnimationConfig,
}

/// What the display engine reads of a configuration.
pub struct Settings {
    pub max_items: usize,
    pub display_duration_ms: u64,
    pub fade_duration_ms: u64,
    pub key_transition_mode: KeyTransitionMode,
    pub show_repeat_count: bool,
    pub distinguish_numpad: bool,
    pub show_ime_composition: bool,
    pub show_clipboard: bool,
    pub clipboard_max_chars: usize,
    pub show_lock_indicators: bool,
    pub repeat_timeout_ms: u64,
    pub group_timeout_ms: u64,
    pub max_group_size: usize,
    pub ignored_keys: Seq<Seq<char>>,
    pub shortcuts: Seq<ShortcutDefView>,
    pub fade_out_curve: FadeOutCurve,
}

/// The texts of a list of strings.
pub open spec fn texts_of(list: Seq<String>) -> Seq<Seq<char>> {
    Seq::new(list.len(), |i: int| list[i]@)
}

/// The contents of a list of shortcut definitions.
pub open spec fn shortcuts_of(list: Seq<ShortcutDef>) -> Seq<ShortcutDefView> {
    Seq::new(list.len(), |i: int| list[i]@)
}

/// The shortcuts a fresh configuration knows: key combination and name.
pub open spec fn default_shortcut_table() -> Seq<ShortcutDefView> {
    seq![
        ShortcutDefView { keys: "Ctrl+C"@, label: "Copy"@ },
        ShortcutDefView { keys: "Ctrl+V"@, label: "Paste"@ },
        ShortcutDefView { keys: "Ctrl+X"@, label: "Cut"@ },
        ShortcutDefView { keys: "Ctrl+Z"@, label: "Undo"@ },
        ShortcutDefView { keys: "Ctrl+Y"@, label: "Redo"@ },
        ShortcutDefView { keys: "Ctrl+S"@, label: "Save"@ },
        ShortcutDefView { keys: "Ctrl+A"@, label: "SelectAll"@ },
        ShortcutDefView { keys: "Ctrl+F"@, label: "Find"@ },
        ShortcutDefView { keys: "Alt+Tab"@, label: "Switch"@ },
        ShortcutDefView { keys: "Alt+F4"@, label: "Close"@ },
        ShortcutDefView { keys: "Win+D"@, label: "Desktop"@ },
        ShortcutDefView { keys: "Win+L"@, label: "Lock"@ },
        ShortcutDefView { keys: "Win+E"@, label: "Explorer"@ },
        ShortcutDefView { keys: "Win+Tab"@, label: "TaskView"@ },
        ShortcutDefView { keys: "Ctrl+Shift+Esc"@, label: "TaskMgr"@ },
        ShortcutDefView { keys: "Ctrl+N"@, label: "New"@ },
        ShortcutDefView { keys: "Ctrl+W"@, label: "CloseTab"@ },
        ShortcutDefView { keys: "Ctrl+T"@, label: "NewTab"@ },
    ]
}

impl Settings {
    /// The settings of a fresh configuration.
    pub open spec fn defaults() -> Settings {
        Settings {
            max_items: 5,
            display_duration_ms: 2000,
            fade_duration_ms: 300,
            key_transition_mode: KeyTransitionMode::SingleCell,
            show_repeat_count: true,
            distinguish_numpad: true,
            show_ime_composition: true,
            show_clipboard: true,
            clipboard_max_chars: 50,
            show_lock_indicators: true,
            repeat_timeout_ms: 500,
            group_timeout_ms: 300,
            max_group_size: 10,
            ignored_keys: Seq::empty(),
            shortcuts: default_shortcut_table(),
            fade_out_curve: FadeOutCurve::Linear,
        }
    }
}

impl AppConfig {
    /// What the display engine reads of this configuration.
    pub open spec fn settings(&self) -> Settings {
        Settings {
            max_items: self.display.max_items,
            display_duration_ms: self.display.display_duration_ms,
            fade_duration_ms: self.display.fade_duration_ms,
            key_transition_mode: self.behavior.key_transition_mode,
            show_repeat_count: self.behavior.show_repeat_count,
            distinguish_numpad: self.behavior.distinguish_numpad,
            show_ime_composition: self.behavior.show_ime_composition,
            show_clipboard: self.behavior.show_clipboard,
            clipboard_max_chars: self.behavior.clipboard_max_chars,
            show_lock_indicators: self.behavior.show_lock_indicators,
            repeat_timeout_ms: self.behavior.repeat_timeout_ms,
            group_timeout_ms: self.behavior.group_timeout_ms,
            max_group_size: self.behavior.max_group_size,
            ignored_keys: texts_of(self.behavior.ignored_keys@),
            shortcuts: shortcuts_of(self.shortcuts@),
            fade_out_curve: self.animation.fade_out_curve,
        }
    }
}

fn shortcut(keys: &str, label: &str) -> (def: ShortcutDef)
    ensures
        def@ == (ShortcutDefView { keys: keys@, label: label@ }),
{
    ShortcutDef { keys: keys.to_owned(), label: label.to_owned() }
}

/// The shortcuts a fresh configuration knows.
pub fn default_shortcuts() -> (list: Vec<ShortcutDef>)
    ensures
        shortcuts_of(list@) == default_shortcut_table(),
{
    let mut list: Vec<ShortcutDef> = Vec::new();
    list.push(shortcut("Ctrl+C", "Copy"));
    list.push(shortcut("Ctrl+V", "Paste"));
    list.push(shortcut("Ctrl+X", "Cut"));
    list.push(shortcut("Ctrl+Z", "Undo"));
    list.push(shortcut("Ctrl+Y", "Redo"));
    list.push(shortcut("Ctrl+S", "Save"));
    list.push(shortcut("Ctrl+A", "SelectAll"));
    list.push(shortcut("Ctrl+F", "Find"));
    list.push(shortcut("Alt+Tab", "Switch"));
    list.push(shortcut("Alt+F4", "Close"));
    list.push(shortcut("Win+D", "Desktop"));
    list.push(shortcut("Win+L", "Lock"));
    list.push(shortcut("Win+E", "Explorer"));
    list.push(shortcut("Win+Tab", "TaskView"));
    list.push(shortcut("Ctrl+Shift+Esc", "TaskMgr"));
    list.push(shortcut("Ctrl+N", "New"));
    list.push(shortcut("Ctrl+W", "CloseTab"));
    list.push(shortcut("Ctrl+T", "NewTab"));
    assert(shortcuts_of(list@) =~= default_shortcut_table());
    list
}

impl Default for DisplayConfig {
    fn default() -> (c: DisplayConfig)
        ensures
            c.position == Position::BottomCenter,
            c.offset_x == 0,
            c.offset_y == -48,
            c.monitor_positions@.len() == 0,
            c.max_items == 5,
            c.display_duration_ms == 2000,
            c.fade_duration_ms == 300,
    {
        DisplayConfig {
            position: Position::BottomCenter,
            offset_x: 0,
            offset_y: -48,
            monitor_positions: Vec::new(),
            max_items: 5,
            display_duration_ms: 2000,
            fade_duration_ms: 300,
        }
    }
}

impl Default for BehaviorConfig {
    fn default() -> (c: BehaviorConfig)
        ensures
            c.key_transition_mode == KeyTransitionMode::SingleCell,
            c.show_repeat_count,
            c.distinguish_numpad,
            c.show_ime_composition,
            c.show_clipboard,
            c.clipboard_max_chars == 50,
            c.show_lock_indicators,
            c.repeat_timeout_ms == 500,
            c.group_timeout_ms == 300,
            c.max_group_size == 10,
            c.ignored_keys@.len() == 0,
            !c.exclude_from_capture,
    {
        BehaviorConfig {
            key_transition_mode: KeyTransitionMode::SingleCell,
            show_repeat_count: true,
            distinguish_numpad: true,
            show_ime_composition: true,
            show_clipboard: true,
            clipboard_max_chars: 50,
            show_lock_indicators: true,
            repeat_timeout_ms: 500,
            group_timeout_ms: 300,
            max_group_size: 10,
            ignored_keys: Vec::new(),
            exclude_from_capture: false,
        }
    }
}

impl Default for PrivacyConfig {
    fn default() -> (c: PrivacyConfig)
        ensures
            c.enabled,
            texts_of(c.blocked_apps@) == seq!["KeePass.exe"@, "1Password.exe"@],
    {
        let mut blocked_apps: Vec<String> = Vec::new();
        blocked_apps.push("KeePass.exe".to_owned());
        blocked_apps.push("1Password.exe".to_owned());
        assert(texts_of(blocked_apps@) =~= seq!["KeePass.exe"@, "1Password.exe"@]);
        PrivacyConfig { enabled: true, blocked_apps }
    }
}

impl Default for HotkeyConfig {
    fn default() -> (c: HotkeyConfig)
        ensures
            c.toggle@ == "Ctrl+Alt+F12"@,
    {
        HotkeyConfig { toggle: "Ctrl+Alt+F12".to_owned() }
    }
}

impl Default for PerformanceConfig {
    fn default() -> (c: PerformanceConfig)
        ensures
            c == (PerformanceConfig {
                osd_width: 600,
                osd_height: 300,
                ime_poll_interval_ms: 50,
                frame_interval_ms: 16,
                config_reload_interval_ms: 1000,
            }),
    {
        PerformanceConfig {
            osd_width: 600,
            osd_height: 300,
            ime_poll_interval_ms: 50,
            frame_interval_ms: 16,
            config_reload_interval_ms: 1000,
        }
    }
}

impl Default for DiagnosticsConfig {
    fn default() -> (c: DiagnosticsConfig)
        ensures
            c == (DiagnosticsConfig {
                level: DiagnosticsLevel::Info,
                file_logging_enabled: true,
                max_file_bytes: 1_048_576,
                max_files: 3,
            }),
    {
        DiagnosticsConfig {
            level: DiagnosticsLevel::Info,
            file_logging_enabled: true,
            max_file_bytes: 1_048_576,
            max_files: 3,
        }
    }
}

impl Default for StartupConfig {
    fn default() -> (c: StartupConfig)
        ensures
            c == (StartupConfig { autostart_enabled: false }),
    {
        StartupConfig { autostart_enabled: false }
    }
}

impl Default for TrayConfig {
    fn default() -> (c: TrayConfig)
        ensures
            c == (TrayConfig {
                start_osd_enabled: true,
                menu_language: MenuLanguage::Ja,
                confirm_on_exit: true,
            }),
    {
        TrayConfig { start_osd_enabled: true, menu_language: MenuLanguage::Ja, confirm_on_exit: true }
    }
}

impl Default for AnimationConfig {
    fn default() -> (c: AnimationConfig)
        ensures
            c == (AnimationConfig {
                ghost_modifier: GhostModifier::Ctrl,
                fade_out_curve: FadeOutCurve::Linear,
            }),
    {
        AnimationConfig { ghost_modifier: GhostModifier::Ctrl, fade_out_curve: FadeOutCurve::Linear }
    }
}

impl Default for AppConfig {
    fn default() -> (c: AppConfig)
        ensures
            c.schema_version == SCHEMA_VERSION,
            c.settings() == Settings::defaults(),
            c.violation() is None,
            c.display.position == Position::BottomCenter,
            c.display.offset_x == 0,
            c.display.offset_y == -48,
            c.display.monitor_positions@.len() == 0,
            !c.behavior.exclude_from_capture,
            c.privacy.enabled,
            texts_of(c.privacy.blocked_apps@) == seq!["KeePass.exe"@, "1Password.exe"@],
            c.hotkey.toggle@ == "Ctrl+Alt+F12"@,
            c.performance == (PerformanceConfig {
                osd_width: 600,
                osd_height: 300,
                ime_poll_interval_ms: 50,
                frame_interval_ms: 16,
                config_reload_interval_ms: 1000,
            }),
            c.diagnostics == (DiagnosticsConfig {
                level: DiagnosticsLevel::Info,
                file_logging_enabled: true,
                max_file_bytes: 1_048_576,
                max_files: 3,
            }),
            c.startup == (StartupConfig { autostart_enabled: false }),
            c.tray == (TrayConfig {
                start_osd_enabled: true,
                menu_language: MenuLanguage::Ja,
                confirm_on_exit: true,
            }),
            c.animation == (AnimationConfig {
                ghost_modifier: GhostModifier::Ctrl,
                fade_out_curve: FadeOutCurve::Linear,
            }),
    {
        let c = AppConfig {
            schema_version: SCHEMA_VERSION,
            display: DisplayConfig::default(),
            behavior: BehaviorConfig::default(),
            shortcuts: default_shortcuts(),
            privacy: PrivacyConfig::default(),
            hotkey: HotkeyConfig::default(),
            performance: PerformanceConfig::default(),
            diagnostics: DiagnosticsConfig::default(),
            startup: StartupConfig::default(),
            tray: TrayConfig::default(),
            animation: AnimationConfig::default(),
        };
        assert(texts_of(c.behavior.ignored_keys@) =~= Seq::<Seq<char>>::empty());
        c
    }
}

/// An error that names a broken rule.
fn broken(rule: &str) -> (refused: Result<(), ConfigError>)
    ensures
        refused matches Err(ConfigError::ValidationError(text)) && text@ == rule@,
{
    Err(ConfigError::ValidationError(rule.to_owned()))
}

/// Whether a result of validation says what `violation` says: that no
/// rule is broken, or which rule is the first that is.
pub open spec fn reports(outcome: Result<(), ConfigError>, violation: Option<Seq<char>>) -> bool {
    match outcome {
        Ok(_) => violation is None,
        Err(ConfigError::ValidationError(text)) => violation == Some(text@),
    }
}

impl DisplayConfig {
    /// The first rule that the display settings break, if any: each of
    /// the limit of items and the two durations is greater than zero.
    pub open spec fn violation(&self) -> Option<Seq<char>> {
        if self.max_items == 0 {
            Some("display.max_items must be > 0"@)
        } else if self.display_duration_ms == 0 {
            Some("display.display_duration_ms must be > 0"@)
        } else if self.fade_duration_ms == 0 {
            Some("display.fade_duration_ms must be > 0"@)
        } else {
            None
        }
    }

    /// Checks the rules on the display settings, and names the first that is broken.
    pub fn validate(&self) -> (outcome: Result<(), ConfigError>)
        ensures
            reports(outcome, self.violation()),
    {
        if self.max_items == 0 {
            return broken("display.max_items must be > 0");
        }
        if self.display_duration_ms == 0 {
            return broken("display.display_duration_ms must be > 0");
        }
        if self.fade_duration_ms == 0 {
            return broken("display.fade_duration_ms must be > 0");
        }
        Ok(())
    }
}

impl BehaviorConfig {
    /// The first rule that the behaviour settings break, if any: each of
    /// the clipboard limit, the repeat timeout and the group size is
    /// greater than zero.
    pub open spec fn violation(&self) -> Option<Seq<char>> {
        if self.clipboard_max_chars == 0 {
            Some("behavior.clipboard_max_chars must be > 0"@)
        } else if self.repeat_timeout_ms == 0 {
            Some("behavior.repeat_timeout_ms must be > 0"@)
        } else if self.max_group_size == 0 {
            Some("behavior.max_group_size must be > 0"@)
        } else {
            None
        }
    }

    /// Checks the rules on the behaviour settings, and names the first that is broken.
    pub fn validate(&self) -> (outcome: Result<(), ConfigError>)
        ensures
            reports(outcome, self.violation()),
    {
        if self.clipboard_max_chars == 0 {
            return broken("behavior.clipboard_max_chars must be > 0");
        }
        if self.repeat_timeout_ms == 0 {
            return broken("behavior.repeat_timeout_ms must be > 0");
        }
        if self.max_group_size == 0 {
            return broken("behavior.max_group_size must be > 0");
        }
        Ok(())
    }
}

impl PerformanceConfig {
    /// The first rule that the performance settings break, if any: the
    /// overlay has a width and a height, and each interval is greater
    /// than zero.
    pub open spec fn violation(&self) -> Option<Seq<char>> {
        if self.osd_width <= 0 || self.osd_height <= 0 {
            Some("performance.osd_width/osd_height must be > 0"@)
        } else if self.ime_poll_interval_ms == 0 {
            Some("performance.ime_poll_interval_ms must be > 0"@)
        } else if self.frame_interval_ms == 0 {
            Some("performance.frame_interval_ms must be > 0"@)
        } else if self.config_reload_interval_ms == 0 {
            Some("performance.config_reload_interval_ms must be > 0"@)
        } else {
            None
        }
    }

    /// Checks the rules on the performance settings, and names the first that is broken.
    pub fn validate(&self) -> (outcome: Result<(), ConfigError>)
        ensures
            reports(outcome, self.violation()),
    {
        if self.osd_width <= 0 || self.osd_height <= 0 {
            return broken("performance.osd_width/osd_height must be > 0");
        }
        if self.ime_poll_interval_ms == 0 {
            return broken("performance.ime_poll_interval_ms must be > 0");
        }
        if self.frame_interval_ms == 0 {
            return broken("performance.frame_interval_ms must be > 0");
        }
        if self.config_reload_interval_ms == 0 {
            return broken("performance.config_reload_interval_ms must be > 0");
        }
        Ok(())
    }
}

impl DiagnosticsConfig {
    /// The first rule that the diagnostics settings break, if any: a log
    /// file may grow to 1024 bytes at least, and at least one is kept.
    pub open spec fn violation(&self) -> Option<Seq<char>> {
        if self.max_file_bytes < 1024 {
            Some("diagnostics.max_file_bytes must be >= 1024"@)
        } else if self.max_files == 0 {
            Some("diagnostics.max_files must be > 0"@)
        } else {
            None
        }
    }

    /// Checks the rules on the diagnostics settings, and names the first that is broken.
    pub fn validate(&self) -> (outcome: Result<(), ConfigError>)
        ensures
            reports(outcome, self.violation()),
    {
        if self.max_file_bytes < 1024 {
            return broken("diagnostics.max_file_bytes must be >= 1024");
        }
        if self.max_files == 0 {
            return broken("diagnostics.max_files must be > 0");
        }
        Ok(())
    }
}

impl AppConfig {
    /// The rule on the version of the layout, if it is broken.
    pub open spec fn version_violation(&self) -> Option<Seq<char>> {
        if self.schema_version != SCHEMA_VERSION {
            Some("schema_version must be "@ + decimal_of(SCHEMA_VERSION as nat))
        } else {
            None
        }
    }

    /// The first rule that the configuration breaks, if any: the rule on
    /// the version first, then those of the display, the behaviour, the
    /// performance and the diagnostics settings, in this order.
    pub open spec fn violation(&self) -> Option<Seq<char>> {
        if self.version_violation() is Some {
            self.version_violation()
        } else if self.display.violation() is Some {
            self.display.violation()
        } else if self.behavior.violation() is Some {
            self.behavior.violation()
        } else if self.performance.violation() is Some {
            self.performance.violation()
        } else {
            self.diagnostics.violation()
        }
    }

    /// Checks the rule on the version of the layout.
    pub fn validate_version(&self) -> (outcome: Result<(), ConfigError>)
        ensures
            reports(outcome, self.version_violation()),
    {
        if self.schema_version != SCHEMA_VERSION {
            let mut text = "schema_version must be ".to_owned();
            push_decimal(&mut text, SCHEMA_VERSION as u64);
            return Err(ConfigError::ValidationError(text));
        }
        Ok(())
    }

    /// Checks every rule, and names the first that is broken.
    pub fn validate(&self) -> (outcome: Result<(), ConfigError>)
        ensures
            reports(outcome, self.violation()),
    {
        let version = self.validate_version();
        if version.is_err() {
            return version;
        }
        let display = self.display.validate();
        if display.is_err() {
            return display;
        }
        let behavior = self.behavior.validate();
        if behavior.is_err() {
            return behavior;
        }
        let performance = self.performance.validate();
        if performance.is_err() {
            return performance;
        }
        self.diagnostics.validate()
    }
}

} // verus!
