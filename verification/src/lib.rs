pub mod color;
pub mod config;
pub mod error;
pub mod event;
pub mod format;
pub mod geometry;
pub mod hotkey;
pub mod ime;
pub mod item;
pub mod key;
pub mod keyboard;
pub mod laws;
pub mod logger;
pub mod model;
pub mod press;
pub mod privacy;
pub mod repeat;
pub mod romaji;
pub mod settings_text;
pub mod shortcut;
pub mod state;
pub mod text;

pub use config::{
    AnimationConfig, AppConfig, BehaviorConfig, DiagnosticsConfig, DiagnosticsLevel,
    DisplayConfig, FadeOutCurve, GhostModifier, HotkeyConfig, KeyTransitionMode, MenuLanguage,
    PerformanceConfig, Position, PrivacyConfig, ShortcutDef, StartupConfig, TrayConfig,
    SCHEMA_VERSION,
};
pub use error::{AppError, ConfigError, HookError, RenderError};
pub use event::{
    ClipboardContent, ClipboardEvent, ImeEvent, ImeEventKind, InputEvent, KeyAction, KeyEvent,
    LockStateEvent, Modifiers, MouseAction, MouseButton, MouseEvent,
};
pub use item::{DisplayItem, DisplayItemKind, DisplayPhase, KeyStrokeEntry, Opacity};
pub use key::KeyCode;
pub use state::DisplayState;
