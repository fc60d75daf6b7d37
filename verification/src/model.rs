use vstd::prelude::*;

use crate::config::{FadeOutCurve, KeyTransitionMode, Settings};
use crate::event::{
    ClipboardContent, ClipboardEvent, ImeEvent, ImeEventKind, InputEvent, KeyAction, KeyEvent,
    LockStateEvent, Modifiers, MouseAction, MouseButton, MouseEvent,
};
use crate::item::{
    DisplayItemKindView, DisplayItemView, DisplayPhase, KeyStrokeEntryView, Opacity,
};
use crate::key::KeyCode;
use crate::press::{pruned, regrouped, PressKey, PressTarget};
use crate::repeat::{elapsed, RepeatTracker};
use crate::romaji::hiragana_of;
use crate::shortcut::shortcut_fires;
use crate::text::{decimal_of, same_ignoring_case, truncated};

verus! {

/// The last `n` elements of a list, or all of it where it has no more.
pub open spec fn newest<T>(list: Seq<T>, n: int) -> Seq<T> {
    if list.len() <= n {
        list
    } else if n <= 0 {
        Seq::empty()
    } else {
        list.subrange(list.len() - n, list.len() as int)
    }
}

/// Whether an item shows the text an input method is composing.
pub open spec fn is_composition(item: DisplayItemView) -> bool {
    item.kind is ImeComposition
}

/// The list without the items that show a composition.
pub open spec fn without_compositions(items: Seq<DisplayItemView>) -> Seq<DisplayItemView> {
    items.filter(|item: DisplayItemView| !is_composition(item))
}

/// Whether `i` is the place of the first item that shows a composition.
pub open spec fn is_first_composition(items: Seq<DisplayItemView>, i: int) -> bool {
    &&& 0 <= i < items.len()
    &&& is_composition(items[i])
    &&& forall|j: int| 0 <= j < i ==> !is_composition(#[trigger] items[j])
}

/// The place of the first item that shows a composition, if there is one.
pub open spec fn first_composition(items: Seq<DisplayItemView>) -> Option<int> {
    if exists|i: int| is_first_composition(items, i) {
        Some(choose|i: int| is_first_composition(items, i))
    } else {
        None
    }
}

/// Whether `i` is the place of the first item with the id `id`.
pub open spec fn is_position_of(items: Seq<DisplayItemView>, id: u64, i: int) -> bool {
    &&& 0 <= i < items.len()
    &&& items[i].id == id
    &&& forall|j: int| 0 <= j < i ==> (#[trigger] items[j]).id != id
}

/// The place of the first item with the id `id`, if there is one.
pub open spec fn position_of(items: Seq<DisplayItemView>, id: u64) -> Option<int> {
    if exists|i: int| is_position_of(items, id, i) {
        Some(choose|i: int| is_position_of(items, id, i))
    } else {
        None
    }
}

/// Whether a repeated press can be counted on an item: it is a key stroke,
/// or a group that is not empty, and what it shows (for a group: its last
/// key stroke) is a press, or is to be made one (`force`).
pub open spec fn bumpable(item: DisplayItemView, force: bool) -> bool {
    match item.kind {
        DisplayItemKindView::KeyStroke { action, .. } => action == KeyAction::Down || force,
        DisplayItemKindView::KeyStrokeGroup { strokes } => strokes.len() > 0 && (strokes.last().action
            == KeyAction::Down || force),
        _ => false,
    }
}

/// Whether `i` is the place of the newest item on which a repeated press
/// can be counted.
pub open spec fn is_last_bumpable(items: Seq<DisplayItemView>, force: bool, i: int) -> bool {
    &&& 0 <= i < items.len()
    &&& bumpable(items[i], force)
    &&& forall|j: int| i < j < items.len() ==> !bumpable(#[trigger] items[j], force)
}

/// The place of the newest item on which a repeated press can be counted,
/// if there is one.
pub open spec fn last_bumpable(items: Seq<DisplayItemView>, force: bool) -> Option<int> {
    if exists|i: int| is_last_bumpable(items, force, i) {
        Some(choose|i: int| is_last_bumpable(items, force, i))
    } else {
        None
    }
}

/// An item on which a repeated press has been counted: what it shows
/// (for a group: its last key stroke) is a press with the count `count`,
/// and the item is refreshed.
pub open spec fn bumped(item: DisplayItemView, count: u32, now: u64) -> DisplayItemView {
    match item.kind {
        DisplayItemKindView::KeyStroke { label, modifiers, .. } => item.with_kind(
            DisplayItemKindView::KeyStroke {
                label,
                modifiers,
                action: KeyAction::Down,
                repeat_count: count,
            },
        ).refreshed(now),
        DisplayItemKindView::KeyStrokeGroup { strokes } => item.with_kind(
            DisplayItemKindView::KeyStrokeGroup {
                strokes: strokes.update(
                    strokes.len() - 1,
                    KeyStrokeEntryView {
                        action: KeyAction::Down,
                        repeat_count: count,
                        ..strokes.last()
                    },
                ),
            },
        ).refreshed(now),
        _ => item,
    }
}

/// Where the release of the key that was counted on an item is to be shown.
pub open spec fn bumped_target(item: DisplayItemView) -> PressTarget {
    match item.kind {
        DisplayItemKindView::KeyStrokeGroup { strokes } => PressTarget {
            item_id: item.id,
            group_index: Some((strokes.len() - 1) as usize),
        },
        _ => PressTarget { item_id: item.id, group_index: None },
    }
}

/// An item after the release of a key that it shows: the key stroke (for a
/// group: the one at `group_index`) becomes a release and the item is
/// refreshed. An item that does not show the key stays as it is.
pub open spec fn release_shown(
    item: DisplayItemView,
    group_index: Option<usize>,
    now: u64,
) -> DisplayItemView {
    match item.kind {
        DisplayItemKindView::KeyStroke { label, modifiers, repeat_count, .. } => item.with_kind(
            DisplayItemKindView::KeyStroke { label, modifiers, action: KeyAction::Up, repeat_count },
        ).refreshed(now),
        DisplayItemKindView::KeyStrokeGroup { strokes } => match group_index {
            Some(index) => if index < strokes.len() {
                item.with_kind(
                    DisplayItemKindView::KeyStrokeGroup {
                        strokes: strokes.update(
                            index as int,
                            KeyStrokeEntryView { action: KeyAction::Up, ..strokes[index as int] },
                        ),
                    },
                ).refreshed(now)
            } else {
                item
            },
            None => item,
        },
        _ => item,
    }
}

/// The opacity of a fading item made or refreshed at `created_at`, at the
/// time `now`.
///
/// The fade starts `display_duration_ms` after `created_at` and takes
/// `fade_duration_ms`. With `left` the part of the fade that is still to
/// come, the opacity is `left / fade_duration_ms` on the linear curve and
/// the square of that on the other. It is zero once the fade is over, and
/// at once where the fade takes no time.
pub open spec fn fade_opacity(settings: Settings, created_at: u64, now: u64) -> Opacity {
    let start = created_at + settings.display_duration_ms;
    let gone = if now >= start {
        now - start
    } else {
        0
    };
    let whole = settings.fade_duration_ms as int;
    if gone >= whole {
        Opacity::zero()
    } else {
        let left = whole - gone;
        match settings.fade_out_curve {
            FadeOutCurve::Linear => Opacity { num: left as u128, den: whole as u128 },
            FadeOutCurve::EaseOut => Opacity {
                num: (left * left) as u128,
                den: (whole * whole) as u128,
            },
        }
    }
}

/// An item as a tick at `now` leaves it: an active item starts to fade
/// once it has been shown for `display_duration_ms`; a fading item gets
/// its opacity for `now`, and is expired when that is zero.
pub open spec fn ticked(item: DisplayItemView, settings: Settings, now: u64) -> DisplayItemView {
    match item.phase {
        DisplayPhase::Active => if elapsed(now, item.created_at) >= settings.display_duration_ms {
            DisplayItemView { phase: DisplayPhase::FadingOut, ..item }
        } else {
            item
        },
        DisplayPhase::FadingOut => {
            let opacity = fade_opacity(settings, item.created_at, now);
            DisplayItemView {
                opacity,
                phase: if opacity.is_zero() {
                    DisplayPhase::Expired
                } else {
                    DisplayPhase::FadingOut
                },
                ..item
            }
        },
        DisplayPhase::Expired => item,
    }
}

/// The virtual-key code of an event: the low byte of its key code.
pub open spec fn virtual_key(ke: KeyEvent) -> u32 {
    ke.key.0 & 0xFF
}

/// Whether a key switches the input method: the kana, input-method-on,
/// kanji and input-method-off keys by their virtual-key codes, and the
/// half-width/full-width key by its scan code.
pub open spec fn toggles_ime(ke: KeyEvent) -> bool {
    let vk = virtual_key(ke);
    vk == 0x15 || vk == 0x16 || vk == 0x19 || vk == 0x1A || ke.scan_code == 0x29
}

/// Whether a virtual-key code is that of a letter key.
pub open spec fn is_letter_key(vk: u32) -> bool {
    0x41 <= vk <= 0x5A
}

/// Whether a virtual-key code is that of a key that ends a composition:
/// enter, escape, tab or space.
pub open spec fn is_commit_key(vk: u32) -> bool {
    vk == 0x0D || vk == 0x1B || vk == 0x09 || vk == 0x20
}

/// The virtual-key code of the backspace key.
pub open spec fn is_backspace_key(vk: u32) -> bool {
    vk == 0x08
}

/// The small letter that a letter key types.
pub open spec fn letter_typed(vk: u32) -> char {
    (vk + 32) as char
}

/// Whether a key is not shown while a composition is: it types a digit, a
/// letter or punctuation, and no modifier other than shift is held.
pub open spec fn hidden_while_composing(ke: KeyEvent) -> bool {
    let vk = virtual_key(ke);
    !ke.modifiers.commanding() && ((0x30 <= vk <= 0x5A) || (0xBA <= vk <= 0xE2))
}

/// The label under which a mouse button is shown.
pub open spec fn button_label(button: MouseButton) -> Seq<char> {
    match button {
        MouseButton::Left => "LClick"@,
        MouseButton::Right => "RClick"@,
        MouseButton::Middle => "MClick"@,
        MouseButton::X1 => "X1Click"@,
        MouseButton::X2 => "X2Click"@,
    }
}

/// The label under which a movement of the wheel is shown.
pub open spec fn wheel_label(delta: i16) -> Seq<char> {
    if delta > 0 {
        "WheelUp"@
    } else {
        "WheelDown"@
    }
}

/// The text that stands for what was copied: a text cut down to
/// `max_chars` characters, the size of an image, or a fixed word.
pub open spec fn clipboard_text(content: ClipboardContent, max_chars: usize) -> Seq<char> {
    match content {
        ClipboardContent::Text(text) => truncated(text@, max_chars),
        ClipboardContent::Image { width, height } => "[Image "@ + decimal_of(width as nat) + "x"@
            + decimal_of(height as nat) + "]"@,
        ClipboardContent::Other => "[Clipboard]"@,
    }
}

/// The state of the display engine.
#[verifier::ext_equal]
pub struct EngineView {
    /// The items on show, oldest first.
    pub items: Seq<DisplayItemView>,
    /// The keys held down whose release changes an item.
    pub presses: Map<PressKey, PressTarget>,
    pub settings: Settings,
    /// The id that the next item gets.
    pub next_id: u64,
    pub repeat: RepeatTracker,
    /// Whether a composition is on show.
    pub ime_composing: bool,
    /// Whether that composition is the input method's own.
    pub ime_native_composing: bool,
    /// Whether typed letters are taken for romaji.
    pub ime_fallback_enabled: bool,
    /// The romaji typed so far.
    pub ime_fallback_romaji: Seq<char>,
}

impl EngineView {
    /// The state of an engine that has seen nothing yet.
    pub open spec fn initial(settings: Settings) -> EngineView {
        EngineView {
            items: Seq::empty(),
            presses: Map::empty(),
            settings,
            next_id: 0,
            repeat: RepeatTracker::fresh(settings.repeat_timeout_ms),
            ime_composing: false,
            ime_native_composing: false,
            ime_fallback_enabled: false,
            ime_fallback_romaji: Seq::empty(),
        }
    }

    /// Whether the machine's numbers leave room for one more event: an id
    /// for a new item, and one more repeat to count.
    pub open spec fn has_headroom(self) -> bool {
        self.next_id < u64::MAX && self.repeat.count < u32::MAX
    }

    /// The state with the presses dropped whose item is gone.
    pub open spec fn with_presses_pruned(self) -> EngineView {
        EngineView { presses: pruned(self.presses, self.items), ..self }
    }

    /// The state with no composition on show.
    pub open spec fn composition_dropped(self) -> EngineView {
        EngineView {
            items: without_compositions(self.items),
            ime_composing: false,
            ..self
        }.with_presses_pruned()
    }

    /// The state with a new item at the end of the list. The item gets the
    /// next id and is active at full opacity. Of the list that results,
    /// the newest `max_items` items stay.
    pub open spec fn with_item(self, kind: DisplayItemKindView, now: u64) -> EngineView {
        let item = DisplayItemView {
            id: self.next_id,
            kind,
            created_at: now,
            opacity: Opacity::full(),
            phase: DisplayPhase::Active,
        };
        EngineView {
            items: newest(self.items.push(item), self.settings.max_items as int),
            next_id: (self.next_id + 1) as u64,
            ..self
        }.with_presses_pruned()
    }

    /// Whether a key stroke at `now` joins the last item: grouping is on,
    /// and the last item is active and was made or refreshed less than
    /// `group_timeout_ms` ago.
    pub open spec fn joins_last(self, now: u64) -> bool {
        &&& self.settings.group_timeout_ms != 0
        &&& self.items.len() > 0
        &&& self.items.last().phase == DisplayPhase::Active
        &&& elapsed(now, self.items.last().created_at) < self.settings.group_timeout_ms
    }

    /// The state with a key stroke shown, and where its release is to be
    /// shown.
    ///
    /// A key stroke that joins a last item that is a key stroke makes a
    /// group of the two; one that joins a group with fewer than
    /// `max_group_size` key strokes is put at its end. Either way the
    /// item's time to live starts anew. Any other key stroke gets an item
    /// of its own.
    pub open spec fn with_keystroke(
        self,
        label: Seq<char>,
        modifiers: Modifiers,
        action: KeyAction,
        now: u64,
    ) -> (EngineView, PressTarget) {
        let stroke = KeyStrokeEntryView { label, modifiers, action, repeat_count: 1 };
        let alone = (
            self.with_item(
                DisplayItemKindView::KeyStroke { label, modifiers, action, repeat_count: 1 },
                now,
            ),
            PressTarget { item_id: self.next_id, group_index: None },
        );
        if self.joins_last(now) {
            let last = self.items.last();
            match last.kind {
                DisplayItemKindView::KeyStroke { label, modifiers, action, repeat_count } => {
                    let first = KeyStrokeEntryView { label, modifiers, action, repeat_count };
                    let group = DisplayItemView {
                        kind: DisplayItemKindView::KeyStrokeGroup { strokes: seq![first, stroke] },
                        created_at: now,
                        ..last
                    };
                    (
                        EngineView {
                            items: self.items.update(self.items.len() - 1, group),
                            presses: regrouped(self.presses, last.id),
                            ..self
                        },
                        PressTarget { item_id: last.id, group_index: Some(1) },
                    )
                },
                DisplayItemKindView::KeyStrokeGroup { strokes } => {
                    if strokes.len() < self.settings.max_group_size {
                        let group = DisplayItemView {
                            kind: DisplayItemKindView::KeyStrokeGroup {
                                strokes: strokes.push(stroke),
                            },
                            created_at: now,
                            ..last
                        };
                        (
                            EngineView {
                                items: self.items.update(self.items.len() - 1, group),
                                ..self
                            },
                            PressTarget {
                                item_id: last.id,
                                group_index: Some(strokes.len() as usize),
                            },
                        )
                    } else {
                        alone
                    }
                },
                _ => alone,
            }
        } else {
            alone
        }
    }

    /// The state with a repeated press counted on the newest item that
    /// can take it, and where the release of the key is to be shown; or
    /// nothing where no item can take it.
    pub open spec fn with_repeat(self, count: u32, now: u64, force: bool) -> Option<
        (EngineView, PressTarget),
    > {
        match last_bumpable(self.items, force) {
            Some(i) => Some(
                (
                    EngineView { items: self.items.update(i, bumped(self.items[i], count, now)), ..self },
                    bumped_target(self.items[i]),
                ),
            ),
            None => None,
        }
    }

    /// The state after the release of a physical key, where a press and
    /// its release share an item: the press is forgotten, and the item
    /// that shows it, if it is still there, shows the release.
    pub open spec fn released(self, key: PressKey, now: u64) -> EngineView {
        if self.presses.contains_key(key) {
            let target = self.presses[key];
            let rest = EngineView { presses: self.presses.remove(key), ..self };
            match position_of(self.items, target.item_id) {
                Some(i) => EngineView {
                    items: self.items.update(i, release_shown(self.items[i], target.group_index, now)),
                    ..rest
                },
                None => rest,
            }
        } else {
            self
        }
    }

    /// The state with `text` on show as the composition: the first item
    /// that shows a composition takes the text and is refreshed; where
    /// there is none, a new item is made.
    pub open spec fn with_composition(self, text: Seq<char>, now: u64) -> EngineView {
        match first_composition(self.items) {
            Some(i) => EngineView {
                items: self.items.update(
                    i,
                    self.items[i].with_kind(DisplayItemKindView::ImeComposition { text }).refreshed(
                        now,
                    ),
                ),
                ..self
            },
            None => self.with_item(DisplayItemKindView::ImeComposition { text }, now),
        }
    }

    /// The state after the romaji typed so far has changed: its hiragana
    /// is on show as the composition, or no composition is where there is
    /// no hiragana yet.
    pub open spec fn with_fallback_shown(self, now: u64) -> EngineView {
        let text = hiragana_of(self.ime_fallback_romaji);
        if text.len() == 0 {
            EngineView { ime_native_composing: false, ..self.composition_dropped() }
        } else {
            EngineView {
                ime_composing: true,
                ime_native_composing: false,
                ..self
            }.with_composition(text, now)
        }
    }

    /// Whether a key is left out because the settings name its label,
    /// in whatever case.
    pub open spec fn ignores(self, ke: KeyEvent) -> bool {
        exists|i: int|
            0 <= i < self.settings.ignored_keys.len() && same_ignoring_case(
                #[trigger] self.settings.ignored_keys[i],
                KeyCode::label_of(ke.key.0),
            )
    }

    /// The state after a key that switches the input method. A press of
    /// the input-method-on key turns the taking of romaji on, one of the
    /// input-method-off key turns it off, one of any other such key turns
    /// it over. Where it ends up off, the romaji typed so far is dropped
    /// and no composition is on show. A release changes nothing.
    pub open spec fn ime_toggled(self, ke: KeyEvent) -> EngineView {
        if ke.action == KeyAction::Down {
            let vk = virtual_key(ke);
            let enabled = if vk == 0x16 {
                true
            } else if vk == 0x1A {
                false
            } else {
                !self.ime_fallback_enabled
            };
            let switched = EngineView { ime_fallback_enabled: enabled, ..self };
            if enabled {
                switched
            } else {
                EngineView {
                    ime_native_composing: false,
                    ime_fallback_romaji: Seq::empty(),
                    ..switched.composition_dropped()
                }
            }
        } else {
            self
        }
    }

    /// Whether typed keys are taken for romaji: compositions are to be
    /// shown, the taking of romaji is on, the input method shows no
    /// composition of its own, and no modifier other than shift is held.
    pub open spec fn takes_romaji(self, ke: KeyEvent) -> bool {
        &&& self.settings.show_ime_composition
        &&& self.ime_fallback_enabled
        &&& !self.ime_native_composing
        &&& !ke.modifiers.commanding()
    }

    /// Whether a key event is used up as romaji input: romaji is taken,
    /// and the key is a letter, backspace, or a key that ends a
    /// composition.
    pub open spec fn consumes_as_romaji(self, ke: KeyEvent) -> bool {
        let vk = virtual_key(ke);
        self.takes_romaji(ke) && (is_letter_key(vk) || is_backspace_key(vk) || is_commit_key(vk))
    }

    /// The state after a key event used up as romaji input. A letter is
    /// put at the end of the romaji and backspace takes the last letter
    /// off, and the hiragana on show follows; a key that ends a
    /// composition drops the romaji and the composition. A release
    /// changes nothing.
    pub open spec fn romaji_typed(self, ke: KeyEvent) -> EngineView {
        let vk = virtual_key(ke);
        if ke.action == KeyAction::Up {
            self
        } else if is_letter_key(vk) {
            EngineView {
                ime_fallback_romaji: self.ime_fallback_romaji.push(letter_typed(vk)),
                ..self
            }.with_fallback_shown(ke.timestamp)
        } else if is_backspace_key(vk) {
            EngineView {
                ime_fallback_romaji: if self.ime_fallback_romaji.len() > 0 {
                    self.ime_fallback_romaji.drop_last()
                } else {
                    self.ime_fallback_romaji
                },
                ..self
            }.with_fallback_shown(ke.timestamp)
        } else {
            EngineView { ime_fallback_romaji: Seq::empty(), ..self }.composition_dropped()
        }
    }

    /// The label a key is shown with.
    pub open spec fn shown_label(self, ke: KeyEvent) -> Seq<char> {
        if self.settings.distinguish_numpad {
            KeyCode::label_of(ke.key.0)
        } else {
            KeyCode::plain_label_of(ke.key.0)
        }
    }

    /// Whether `i` is the place of the first shortcut that a key event
    /// sets off.
    pub open spec fn is_first_fired(self, ke: KeyEvent, i: int) -> bool {
        &&& 0 <= i < self.settings.shortcuts.len()
        &&& shortcut_fires(self.settings.shortcuts[i].keys, ke)
        &&& forall|j: int|
            0 <= j < i ==> !shortcut_fires((#[trigger] self.settings.shortcuts[j]).keys, ke)
    }

    /// The place of the first shortcut that a key event sets off, if
    /// there is one.
    pub open spec fn fired_shortcut(self, ke: KeyEvent) -> Option<int> {
        if exists|i: int| self.is_first_fired(ke, i) {
            Some(choose|i: int| self.is_first_fired(ke, i))
        } else {
            None
        }
    }

    /// The state with a key press shown as a key stroke, and where its
    /// release is to be shown. Where repeats are counted and the press
    /// repeats the one before, it is counted on the newest item that can
    /// take it; else the key stroke is shown anew.
    pub open spec fn with_press_shown(self, ke: KeyEvent) -> (EngineView, PressTarget) {
        let now = ke.timestamp;
        let label = self.shown_label(ke);
        if self.settings.show_repeat_count {
            let count = self.repeat.next_count(ke.key, ke.modifiers, now) as u32;
            let counted = EngineView {
                repeat: self.repeat.after_press(ke.key, ke.modifiers, now),
                ..self
            };
            let force = self.settings.key_transition_mode == KeyTransitionMode::SingleCell;
            if count > 1 && counted.with_repeat(count, now, force) is Some {
                counted.with_repeat(count, now, force)->0
            } else {
                counted.with_keystroke(label, ke.modifiers, KeyAction::Down, now)
            }
        } else {
            self.with_keystroke(label, ke.modifiers, KeyAction::Down, now)
        }
    }

    /// The state after a key press that is to be shown. A modifier key
    /// alone shows nothing. A press that sets off a shortcut shows the
    /// first such shortcut, and the key no longer counts as held down.
    /// Any other press is shown as a key stroke, and where a press and its
    /// release share an item, the key is noted as held down.
    pub open spec fn pressed(self, ke: KeyEvent) -> EngineView {
        if KeyCode::modifier_code(ke.key.0) {
            self
        } else {
            match self.fired_shortcut(ke) {
                Some(i) => {
                    let fired = self.settings.shortcuts[i];
                    let shown = self.with_item(
                        DisplayItemKindView::Shortcut {
                            keys_label: fired.keys,
                            action_label: fired.label,
                        },
                        ke.timestamp,
                    );
                    EngineView { presses: shown.presses.remove(PressKey::of(ke)), ..shown }
                },
                None => {
                    let (shown, target) = self.with_press_shown(ke);
                    if self.settings.key_transition_mode == KeyTransitionMode::SingleCell {
                        EngineView { presses: shown.presses.insert(PressKey::of(ke), target), ..shown }
                    } else {
                        shown
                    }
                },
            }
        }
    }

    /// The state after a key release that is to be shown. A modifier key
    /// alone shows nothing. Where a press and its release share an item,
    /// the item that shows the press shows the release; else the release
    /// is shown as a key stroke of its own.
    pub open spec fn lifted(self, ke: KeyEvent) -> EngineView {
        if KeyCode::modifier_code(ke.key.0) {
            self
        } else {
            match self.settings.key_transition_mode {
                KeyTransitionMode::SingleCell => self.released(PressKey::of(ke), ke.timestamp),
                KeyTransitionMode::SplitCells => EngineView {
                    presses: self.presses.remove(PressKey::of(ke)),
                    ..self
                }.with_keystroke(self.shown_label(ke), ke.modifiers, KeyAction::Up, ke.timestamp).0,
            }
        }
    }

    /// The state after a key event. The first of these that applies
    /// decides: a key that the settings leave out changes nothing; a key
    /// that switches the input method does only that; a key used up as
    /// romaji input does only that; a key hidden while a composition is
    /// on show changes nothing; any other key is shown.
    pub open spec fn key_handled(self, ke: KeyEvent) -> EngineView {
        if self.ignores(ke) {
            self
        } else if toggles_ime(ke) {
            self.ime_toggled(ke)
        } else if self.consumes_as_romaji(ke) {
            self.romaji_typed(ke)
        } else if self.ime_composing && hidden_while_composing(ke) {
            self
        } else if ke.action == KeyAction::Down {
            self.pressed(ke)
        } else {
            self.lifted(ke)
        }
    }

    /// The state after a mouse event: a press of a button and a movement
    /// of the wheel are shown as key strokes without modifiers, a release
    /// is not shown.
    pub open spec fn mouse_handled(self, me: MouseEvent) -> EngineView {
        match me.action {
            MouseAction::Up => self,
            MouseAction::Down => self.with_item(
                DisplayItemKindView::KeyStroke {
                    label: button_label(me.button),
                    modifiers: Modifiers::none(),
                    action: KeyAction::Down,
                    repeat_count: 1,
                },
                me.timestamp,
            ),
            MouseAction::Wheel(delta) => self.with_item(
                DisplayItemKindView::KeyStroke {
                    label: wheel_label(delta),
                    modifiers: Modifiers::none(),
                    action: KeyAction::Down,
                    repeat_count: 1,
                },
                me.timestamp,
            ),
        }
    }

    /// The state after an event of the input method, where compositions
    /// are to be shown; else nothing changes.
    ///
    /// The input method switched off: romaji is no longer taken, what
    /// was typed is dropped, and no composition is on show. A changed
    /// composition is on show as the input method's own, and the romaji
    /// typed so far is dropped. The end of a composition takes the input
    /// method's own composition off show and drops the romaji; a
    /// composition made from romaji stays while romaji is taken.
    pub open spec fn ime_handled(self, ie: ImeEvent) -> EngineView {
        if !self.settings.show_ime_composition {
            self
        } else {
            match ie.kind {
                ImeEventKind::StateChanged { enabled } => if enabled {
                    self
                } else {
                    EngineView {
                        ime_fallback_enabled: false,
                        ime_native_composing: false,
                        ime_fallback_romaji: Seq::empty(),
                        ..self.composition_dropped()
                    }
                },
                ImeEventKind::CompositionUpdate { text } => EngineView {
                    ime_composing: true,
                    ime_native_composing: true,
                    ime_fallback_romaji: Seq::empty(),
                    ..self
                }.with_composition(text@, ie.timestamp),
                ImeEventKind::CompositionEnd { .. } => if self.ime_native_composing {
                    EngineView {
                        ime_native_composing: false,
                        ime_fallback_romaji: Seq::empty(),
                        ..self.composition_dropped()
                    }
                } else if !self.ime_fallback_enabled {
                    self.composition_dropped()
                } else {
                    self
                },
            }
        }
    }

    /// The state after a change of the clipboard: what was copied is
    /// shown in a new item, where the settings ask for it.
    pub open spec fn clipboard_handled(self, ce: ClipboardEvent) -> EngineView {
        if self.settings.show_clipboard {
            self.with_item(
                DisplayItemKindView::ClipboardPreview {
                    text: clipboard_text(ce.content, self.settings.clipboard_max_chars),
                },
                ce.timestamp,
            )
        } else {
            self
        }
    }

    /// The state after a change of the lock keys: their state is shown in
    /// a new item, where the settings ask for it.
    pub open spec fn lock_handled(self, ls: LockStateEvent) -> EngineView {
        if self.settings.show_lock_indicators {
            self.with_item(
                DisplayItemKindView::LockIndicator {
                    caps: ls.caps_lock,
                    num: ls.num_lock,
                    scroll: ls.scroll_lock,
                },
                ls.timestamp,
            )
        } else {
            self
        }
    }

    /// The state after an event.
    pub open spec fn step(self, event: InputEvent) -> EngineView {
        match event {
            InputEvent::Key(ke) => self.key_handled(ke),
            InputEvent::Mouse(me) => self.mouse_handled(me),
            InputEvent::Ime(ie) => self.ime_handled(ie),
            InputEvent::Clipboard(ce) => self.clipboard_handled(ce),
            InputEvent::LockState(ls) => self.lock_handled(ls),
            InputEvent::DpiChanged { .. } => self,
            InputEvent::ConfigChanged => self,
        }
    }

    /// The state after a tick at `now`: every item is brought up to
    /// `now`, the expired ones are dropped, and so are the presses whose
    /// item is gone.
    pub open spec fn tick(self, now: u64) -> EngineView {
        EngineView {
            items: self.items.map_values(
                |item: DisplayItemView| ticked(item, self.settings, now),
            ).filter(|item: DisplayItemView| item.phase != DisplayPhase::Expired),
            ..self
        }.with_presses_pruned()
    }

    /// The state with nothing on show and no key held down, in which
    /// romaji is no longer taken and none is left of what was typed. The
    /// settings, the ids given so far and the count of repeats stay.
    pub open spec fn cleared(self) -> EngineView {
        EngineView {
            items: Seq::empty(),
            presses: Map::empty(),
            ime_composing: false,
            ime_native_composing: false,
            ime_fallback_enabled: false,
            ime_fallback_romaji: Seq::empty(),
            ..self
        }
    }

    /// The state under other settings. The keys held down are forgotten
    /// where the new settings show presses and releases in another way.
    pub open spec fn reconfigured(self, settings: Settings) -> EngineView {
        EngineView {
            presses: if self.settings.key_transition_mode == settings.key_transition_mode {
                self.presses
            } else {
                Map::empty()
            },
            settings,
            repeat: RepeatTracker { timeout_ms: settings.repeat_timeout_ms, ..self.repeat },
            ..self
        }.with_presses_pruned()
    }
}

} // verus!
