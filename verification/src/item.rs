use vstd::prelude::*;

use crate::event::{KeyAction, Modifiers};

verus! {

/// Where an item stands in its life.
#[derive(Debug, Clone, Copy, PartialEq, Eq, Structural)]
pub enum DisplayPhase {
    /// Shown at full opacity.
    Active,
    /// Losing opacity.
    FadingOut,
    /// Faded out: to be dropped.
    Expired,
}

/// An opacity between 0 and 1, as the exact fraction `num / den`.
#[derive(Debug, Clone, Copy, PartialEq, Eq, Structural)]
pub struct Opacity {
    pub num: u128,
    pub den: u128,
}

impl Opacity {
    /// A fraction that lies between 0 and 1.
    pub open spec fn wf(self) -> bool {
        0 < self.den && self.num <= self.den
    }

    /// Full opacity.
    pub open spec fn full() -> Opacity {
        Opacity { num: 1, den: 1 }
    }

    /// No opacity at all.
    pub open spec fn zero() -> Opacity {
        Opacity { num: 0, den: 1 }
    }

    /// Whether the opacity is zero.
    pub open spec fn spec_is_zero(self) -> bool {
        self.num == 0
    }

    /// Whether this fraction is at most `other`, both being well formed.
    pub open spec fn at_most(self, other: Opacity) -> bool {
        self.num * other.den <= other.num * self.den
    }

    /// Whether the opacity is zero.
    #[verifier::when_used_as_spec(spec_is_zero)]
    pub fn is_zero(self) -> (b: bool)
        ensures
            b == self.spec_is_zero(),
    {
        self.num == 0
    }
}

/// One key stroke inside a group.
#[derive(Debug, Clone)]
pub struct KeyStrokeEntry {
    pub label: String,
    pub modifiers: Modifiers,
    pub action: KeyAction,
    pub repeat_count: u32,
}

/// What a key stroke holds.
pub struct KeyStrokeEntryView {
    pub label: Seq<char>,
    pub modifiers: Modifiers,
    pub action: KeyAction,
    pub repeat_count: u32,
}

impl View for KeyStrokeEntry {
    type V = KeyStrokeEntryView;

    open spec fn view(&self) -> KeyStrokeEntryView {
        KeyStrokeEntryView {
            label: self.label@,
            modifiers: self.modifiers,
            action: self.action,
            repeat_count: self.repeat_count,
        }
    }
}

/// The contents of a list of key strokes.
pub open spec fn strokes_of(list: Seq<KeyStrokeEntry>) -> Seq<KeyStrokeEntryView> {
    Seq::new(list.len(), |i: int| list[i]@)
}

/// What an item shows.
#[derive(Debug, Clone)]
pub enum DisplayItemKind {
    /// A key stroke, or a mouse click shown as one.
    KeyStroke { label: String, modifiers: Modifiers, action: KeyAction, repeat_count: u32 },
    /// Key strokes typed in quick succession, shown side by side.
    KeyStrokeGroup { strokes: Vec<KeyStrokeEntry> },
    /// A key combination that the configuration names.
    Shortcut { keys_label: String, action_label: String },
    /// The text an input method is composing.
    ImeComposition { text: String },
    /// What was copied to the clipboard.
    ClipboardPreview { text: String },
    /// The state of the three lock keys.
    LockIndicator { caps: bool, num: bool, scroll: bool },
}

/// What an item kind holds.
pub enum DisplayItemKindView {
    KeyStroke { label: Seq<char>, modifiers: Modifiers, action: KeyAction, repeat_count: u32 },
    KeyStrokeGroup { strokes: Seq<KeyStrokeEntryView> },
    Shortcut { keys_label: Seq<char>, action_label: Seq<char> },
    ImeComposition { text: Seq<char> },
    ClipboardPreview { text: Seq<char> },
    LockIndicator { caps: bool, num: bool, scroll: bool },
}

impl View for DisplayItemKind {
    type V = DisplayItemKindView;

    open spec fn view(&self) -> DisplayItemKindView {
        match self {
            DisplayItemKind::KeyStroke { label, modifiers, action, repeat_count } => {
                DisplayItemKindView::KeyStroke {
                    label: label@,
                    modifiers: *modifiers,
                    action: *action,
                    repeat_count: *repeat_count,
                }
            },
            DisplayItemKind::KeyStrokeGroup { strokes } => DisplayItemKindView::KeyStrokeGroup {
                strokes: strokes_of(strokes@),
            },
            DisplayItemKind::Shortcut { keys_label, action_label } => {
                DisplayItemKindView::Shortcut { keys_label: keys_label@, action_label: action_label@ }
            },
            DisplayItemKind::ImeComposition { text } => DisplayItemKindView::ImeComposition {
                text: text@,
            },
            DisplayItemKind::ClipboardPreview { text } => DisplayItemKindView::ClipboardPreview {
                text: text@,
            },
            DisplayItemKind::LockIndicator { caps, num, scroll } => {
                DisplayItemKindView::LockIndicator { caps: *caps, num: *num, scroll: *scroll }
            },
        }
    }
}

/// One row of the overlay.
#[derive(Debug, Clone)]
pub struct DisplayItem {
    /// Given when the item is made, larger than every id given before,
    /// and never given again.
    pub id: u64,
    pub kind: DisplayItemKind,
    /// When the item was made or last refreshed, in milliseconds.
    pub created_at: u64,
    pub opacity: Opacity,
    pub phase: DisplayPhase,
}

/// What an item holds.
pub struct DisplayItemView {
    pub id: u64,
    pub kind: DisplayItemKindView,
    pub created_at: u64,
    pub opacity: Opacity,
    pub phase: DisplayPhase,
}

impl View for DisplayItem {
    type V = DisplayItemView;

    open spec fn view(&self) -> DisplayItemView {
        DisplayItemView {
            id: self.id,
            kind: self.kind@,
            created_at: self.created_at,
            opacity: self.opacity,
            phase: self.phase,
        }
    }
}

impl DisplayItemView {
    /// The item as it is after a refresh at `now`: active again, at full
    /// opacity, with its time to live starting anew.
    pub open spec fn refreshed(self, now: u64) -> DisplayItemView {
        DisplayItemView {
            created_at: now,
            opacity: Opacity::full(),
            phase: DisplayPhase::Active,
            ..self
        }
    }

    /// The item with another content.
    pub open spec fn with_kind(self, kind: DisplayItemKindView) -> DisplayItemView {
        DisplayItemView { kind, ..self }
    }
}

/// The contents of a list of items.
pub open spec fn items_of(list: Seq<DisplayItem>) -> Seq<DisplayItemView> {
    Seq::new(list.len(), |i: int| list[i]@)
}

} // verus!
