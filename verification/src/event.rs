use vstd::prelude::*;

use crate::key::KeyCode;

verus! {

/// Every kind of input the display engine is fed.
///
/// Each event carries the time at which it was captured, in milliseconds on
/// a monotonic clock of the producer's choosing. The engine never reads a
/// clock of its own: the stamps of the events, and the time handed to
/// `tick`, are all it knows of time.
#[derive(Debug, Clone)]
pub enum InputEvent {
    Key(KeyEvent),
    Mouse(MouseEvent),
    Ime(ImeEvent),
    Clipboard(ClipboardEvent),
    LockState(LockStateEvent),
    /// The monitor's resolution changed; `suggested_rect` is left, top,
    /// right, bottom. The engine passes over it.
    DpiChanged { dpi: u32, suggested_rect: [i32; 4] },
    /// The configuration was changed from outside. The engine passes over it.
    ConfigChanged,
}

/// A key was pressed or released.
#[derive(Debug, Clone, Copy)]
pub struct KeyEvent {
    pub key: KeyCode,
    pub action: KeyAction,
    /// The modifiers held while the key changed state.
    pub modifiers: Modifiers,
    pub is_numpad: bool,
    /// The hardware scan code, which stays the same whatever the layout.
    pub scan_code: u32,
    pub timestamp: u64,
}

/// Whether a key went down or came up.
#[derive(Debug, Clone, Copy, PartialEq, Eq, Structural)]
pub enum KeyAction {
    Down,
    Up,
}

/// The modifier keys held down.
#[derive(Debug, Clone, Copy, PartialEq, Eq, Structural)]
pub struct Modifiers {
    pub ctrl: bool,
    pub shift: bool,
    pub alt: bool,
    pub win: bool,
}

impl Modifiers {
    /// No modifier held.
    pub open spec fn none() -> Modifiers {
        Modifiers { ctrl: false, shift: false, alt: false, win: false }
    }

    /// Whether any modifier is held.
    pub open spec fn spec_any(&self) -> bool {
        self.ctrl || self.shift || self.alt || self.win
    }

    /// Whether any modifier is held.
    #[verifier::when_used_as_spec(spec_any)]
    pub fn any(&self) -> (b: bool)
        ensures
            b == self.spec_any(),
    {
        self.ctrl || self.shift || self.alt || self.win
    }

    /// Whether a modifier other than shift is held: such a key press is a
    /// command, not text.
    pub open spec fn spec_commanding(&self) -> bool {
        self.ctrl || self.alt || self.win
    }

    /// Whether a modifier other than shift is held.
    #[verifier::when_used_as_spec(spec_commanding)]
    pub fn commanding(&self) -> (b: bool)
        ensures
            b == self.spec_commanding(),
    {
        self.ctrl || self.alt || self.win
    }
}

impl Default for Modifiers {
    fn default() -> (m: Modifiers)
        ensures
            m == Modifiers::none(),
    {
        Modifiers { ctrl: false, shift: false, alt: false, win: false }
    }
}

/// A mouse button was pressed or released, or the wheel was turned.
#[derive(Debug, Clone, Copy)]
pub struct MouseEvent {
    pub button: MouseButton,
    pub action: MouseAction,
    pub position: (i32, i32),
    pub timestamp: u64,
}

/// The buttons of a mouse.
#[derive(Debug, Clone, Copy, PartialEq, Eq, Structural)]
pub enum MouseButton {
    Left,
    Right,
    Middle,
    X1,
    X2,
}

/// What happened to the mouse; a turn of the wheel comes with its amount.
#[derive(Debug, Clone, Copy, PartialEq, Eq, Structural)]
pub enum MouseAction {
    Down,
    Up,
    Wheel(i16),
}

/// Something changed in the input method.
#[derive(Debug, Clone)]
pub struct ImeEvent {
    pub kind: ImeEventKind,
    pub timestamp: u64,
}

/// What changed in the input method.
#[derive(Debug, Clone)]
pub enum ImeEventKind {
    /// The input method was switched on or off.
    StateChanged { enabled: bool },
    /// The text being composed changed.
    CompositionUpdate { text: String },
    /// The composition was committed.
    CompositionEnd { result: String },
}

/// Something was copied to the clipboard.
#[derive(Debug, Clone)]
pub struct ClipboardEvent {
    pub content: ClipboardContent,
    pub timestamp: u64,
}

/// What was copied.
#[derive(Debug, Clone)]
pub enum ClipboardContent {
    Text(String),
    Image { width: u32, height: u32 },
    Other,
}

/// The state of the three lock keys after one of them changed.
#[derive(Debug, Clone, Copy)]
pub struct LockStateEvent {
    pub caps_lock: bool,
    pub num_lock: bool,
    pub scroll_lock: bool,
    pub timestamp: u64,
}

} // verus!
