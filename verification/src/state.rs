use vstd::prelude::*;

use crate::config::{
    shortcuts_of, texts_of, AppConfig, FadeOutCurve, KeyTransitionMode, Settings, ShortcutDef,
};
use crate::event::{
    ClipboardContent, ClipboardEvent, ImeEvent, ImeEventKind, InputEvent, KeyAction, KeyEvent,
    LockStateEvent, Modifiers, MouseAction, MouseButton, MouseEvent,
};
use crate::item::{
    items_of, strokes_of, DisplayItem, DisplayItemKind, DisplayItemKindView, DisplayItemView,
    DisplayPhase, KeyStrokeEntry, KeyStrokeEntryView, Opacity,
};
use crate::model::{
    bumpable, bumped, bumped_target, fade_opacity, first_composition, hidden_while_composing,
    is_composition, is_first_composition, is_last_bumpable, is_position_of, last_bumpable,
    letter_typed, newest, position_of, release_shown, ticked, toggles_ime, without_compositions,
    EngineView,
};
use crate::key::KeyCode;
use crate::laws::{
    lemma_sound_at_rest, lemma_step_keeps_limit, lemma_step_sound, lemma_tick_keeps_limit,
    lemma_tick_sound,
};
use crate::press::{PressKey, PressMap, PressTarget};
use crate::repeat::{elapsed_ms, RepeatTracker};
use crate::romaji::romaji_to_hiragana;
use crate::shortcut::{shortcut_fires, shortcut_matches};
use crate::text::{eq_ignore_ascii_case, push_decimal, same_ignoring_case, truncate_chars};

verus! {

/// What the engine keeps of the configuration it was given.
struct Snapshot {
    max_items: usize,
    display_duration_ms: u64,
    fade_duration_ms: u64,
    key_transition_mode: KeyTransitionMode,
    show_repeat_count: bool,
    distinguish_numpad: bool,
    show_ime_composition: bool,
    show_clipboard: bool,
    clipboard_max_chars: usize,
    show_lock_indicators: bool,
    repeat_timeout_ms: u64,
    group_timeout_ms: u64,
    max_group_size: usize,
    ignored_keys: Vec<String>,
    shortcuts: Vec<ShortcutDef>,
    fade_out_curve: FadeOutCurve,
}

impl View for Snapshot {
    type V = Settings;

    closed spec fn view(&self) -> Settings {
        Settings {
            max_items: self.max_items,
            display_duration_ms: self.display_duration_ms,
            fade_duration_ms: self.fade_duration_ms,
            key_transition_mode: self.key_transition_mode,
            show_repeat_count: self.show_repeat_count,
            distinguish_numpad: self.distinguish_numpad,
            show_ime_composition: self.show_ime_composition,
            show_clipboard: self.show_clipboard,
            clipboard_max_chars: self.clipboard_max_chars,
            show_lock_indicators: self.show_lock_indicators,
            repeat_timeout_ms: self.repeat_timeout_ms,
            group_timeout_ms: self.group_timeout_ms,
            max_group_size: self.max_group_size,
            ignored_keys: texts_of(self.ignored_keys@),
            shortcuts: shortcuts_of(self.shortcuts@),
            fade_out_curve: self.fade_out_curve,
        }
    }
}

/// A copy of a list of texts.
fn copy_texts(list: &Vec<String>) -> (copy: Vec<String>)
    ensures
        texts_of(copy@) == texts_of(list@),
{
    let mut copy: Vec<String> = Vec::new();
    let mut i: usize = 0;
    while i < list.len()
        invariant
            i <= list@.len(),
            copy@.len() == i,
            forall|j: int| 0 <= j < i ==> copy@[j]@ == list@[j]@,
        decreases list@.len() - i,
    {
        copy.push(list[i].clone());
        i += 1;
    }
    assert(texts_of(copy@) =~= texts_of(list@));
    copy
}

/// A copy of a list of shortcuts.
fn copy_shortcuts(list: &Vec<ShortcutDef>) -> (copy: Vec<ShortcutDef>)
    ensures
        shortcuts_of(copy@) == shortcuts_of(list@),
{
    let mut copy: Vec<ShortcutDef> = Vec::new();
    let mut i: usize = 0;
    while i < list.len()
        invariant
            i <= list@.len(),
            copy@.len() == i,
            forall|j: int| 0 <= j < i ==> copy@[j]@ == list@[j]@,
        decreases list@.len() - i,
    {
        copy.push(ShortcutDef { keys: list[i].keys.clone(), label: list[i].label.clone() });
        i += 1;
    }
    assert(shortcuts_of(copy@) =~= shortcuts_of(list@));
    copy
}

impl Snapshot {
    /// What the engine keeps of `config`.
    fn of(config: &AppConfig) -> (snapshot: Snapshot)
        ensures
            snapshot@ == config.settings(),
    {
        Snapshot {
            max_items: config.display.max_items,
            display_duration_ms: config.display.display_duration_ms,
            fade_duration_ms: config.display.fade_duration_ms,
            key_transition_mode: config.behavior.key_transition_mode,
            show_repeat_count: config.behavior.show_repeat_count,
            distinguish_numpad: config.behavior.distinguish_numpad,
            show_ime_composition: config.behavior.show_ime_composition,
            show_clipboard: config.behavior.show_clipboard,
            clipboard_max_chars: config.behavior.clipboard_max_chars,
            show_lock_indicators: config.behavior.show_lock_indicators,
            repeat_timeout_ms: config.behavior.repeat_timeout_ms,
            group_timeout_ms: config.behavior.group_timeout_ms,
            max_group_size: config.behavior.max_group_size,
            ignored_keys: copy_texts(&config.behavior.ignored_keys),
            shortcuts: copy_shortcuts(&config.shortcuts),
            fade_out_curve: config.animation.fade_out_curve,
        }
    }
}

/// Takes the items that show a composition out of a list.
fn remove_compositions(items: &mut Vec<DisplayItem>)
    ensures
        items_of(final(items)@) == without_compositions(items_of(old(items)@)),
{
    let mut all: Vec<DisplayItem> = Vec::new();
    std::mem::swap(items, &mut all);
    let ghost shown = items_of(all@);
    for item in it: all
        invariant
            it.seq() == all@,
            shown == items_of(all@),
            items_of(items@) == without_compositions(shown.subrange(0, it.index() as int)),
    {
        proof {
            let upto = shown.subrange(0, it.index() + 1);
            shown.subrange(0, it.index() as int).lemma_filter_push(
                item@,
                |item: DisplayItemView| !is_composition(item),
            );
            assert(upto == shown.subrange(0, it.index() as int).push(item@));
        }
        let keep = match &item.kind {
            DisplayItemKind::ImeComposition { .. } => false,
            _ => true,
        };
        if keep {
            let ghost before = items_of(items@);
            items.push(item);
            assert(items_of(items@) == before.push(item@));
        }
    }
    proof {
        assert(shown.subrange(0, shown.len() as int) == shown);
    }
}

/// Takes the expired items out of a list.
fn remove_expired(items: &mut Vec<DisplayItem>)
    ensures
        items_of(final(items)@) == items_of(old(items)@).filter(
            |item: DisplayItemView| item.phase != DisplayPhase::Expired,
        ),
{
    let mut all: Vec<DisplayItem> = Vec::new();
    std::mem::swap(items, &mut all);
    let ghost shown = items_of(all@);
    for item in it: all
        invariant
            it.seq() == all@,
            shown == items_of(all@),
            items_of(items@) == shown.subrange(0, it.index() as int).filter(
                |item: DisplayItemView| item.phase != DisplayPhase::Expired,
            ),
    {
        proof {
            let upto = shown.subrange(0, it.index() + 1);
            shown.subrange(0, it.index() as int).lemma_filter_push(
                item@,
                |item: DisplayItemView| item.phase != DisplayPhase::Expired,
            );
            assert(upto == shown.subrange(0, it.index() as int).push(item@));
        }
        if item.phase != DisplayPhase::Expired {
            let ghost before = items_of(items@);
            items.push(item);
            assert(items_of(items@) == before.push(item@));
        }
    }
    proof {
        assert(shown.subrange(0, shown.len() as int) == shown);
    }
}

/// Takes the oldest items out of a list until no more than `max_items`
/// are left.
fn keep_newest(items: &mut Vec<DisplayItem>, max_items: usize)
    ensures
        items_of(final(items)@) == newest(items_of(old(items)@), max_items as int),
{
    let ghost all = items_of(items@);
    while items.len() > max_items
        invariant
            items@.len() <= all.len(),
            items@.len() == all.len() || items@.len() >= max_items,
            items_of(items@) == all.subrange(all.len() - items@.len(), all.len() as int),
        decreases items@.len(),
    {
        let ghost before = items_of(items@);
        items.remove(0);
        assert(items_of(items@) == before.subrange(1, before.len() as int));
    }
    assert(items_of(items@) =~= newest(all, max_items as int));
}

/// The opacity of a fading item, worked out in whole numbers.
fn fade_level(config: &Snapshot, created_at: u64, now: u64) -> (opacity: Opacity)
    ensures
        opacity == fade_opacity(config@, created_at, now),
{
    let start: u128 = created_at as u128 + config.display_duration_ms as u128;
    let gone: u128 = if now as u128 >= start {
        now as u128 - start
    } else {
        0
    };
    let whole: u128 = config.fade_duration_ms as u128;
    if gone >= whole {
        Opacity { num: 0, den: 1 }
    } else {
        let left: u128 = whole - gone;
        match config.fade_out_curve {
            FadeOutCurve::Linear => Opacity { num: left, den: whole },
            FadeOutCurve::EaseOut => {
                assert(left * left <= u64::MAX * u64::MAX) by (nonlinear_arith)
                    requires
                        0 <= left <= u64::MAX,
                ;
                assert(whole * whole <= u64::MAX * u64::MAX) by (nonlinear_arith)
                    requires
                        0 <= whole <= u64::MAX,
                ;
                Opacity { num: left * left, den: whole * whole }
            },
        }
    }
}

/// Brings every item of a list up to the time `now`.
fn advance(items: &mut Vec<DisplayItem>, config: &Snapshot, now: u64)
    ensures
        final(items)@.len() == old(items)@.len(),
        forall|i: int|
            0 <= i < old(items)@.len() ==> (#[trigger] items_of(final(items)@)[i]) == ticked(
                items_of(old(items)@)[i],
                config@,
                now,
            ),
{
    let ghost before = items_of(items@);
    let mut i: usize = 0;
    while i < items.len()
        invariant
            i <= items@.len(),
            items@.len() == before.len(),
            forall|j: int|
                0 <= j < i ==> (#[trigger] items_of(items@)[j]) == ticked(before[j], config@, now),
            forall|j: int| i <= j < before.len() ==> (#[trigger] items_of(items@)[j]) == before[j],
        decreases items@.len() - i,
    {
        let ghost list = items_of(items@);
        match items[i].phase {
            DisplayPhase::Active => {
                if elapsed_ms(now, items[i].created_at) >= config.display_duration_ms {
                    items[i].phase = DisplayPhase::FadingOut;
                }
            },
            DisplayPhase::FadingOut => {
                let opacity = fade_level(config, items[i].created_at, now);
                items[i].opacity = opacity;
                if opacity.is_zero() {
                    items[i].phase = DisplayPhase::Expired;
                }
            },
            DisplayPhase::Expired => {},
        }
        assert(items_of(items@)[i as int] == ticked(list[i as int], config@, now));
        assert(forall|j: int|
            0 <= j < list.len() && j != i ==> (#[trigger] items_of(items@)[j]) == list[j]);
        i += 1;
    }
}

/// Whether a repeated press can be counted on an item.
fn can_bump(item: &DisplayItem, force: bool) -> (can: bool)
    ensures
        can == bumpable(item@, force),
{
    match &item.kind {
        DisplayItemKind::KeyStroke { action, .. } => *action == KeyAction::Down || force,
        DisplayItemKind::KeyStrokeGroup { strokes } => {
            let n = strokes.len();
            n > 0 && (strokes[n - 1].action == KeyAction::Down || force)
        },
        _ => false,
    }
}

/// Counts a repeated press on an item and refreshes it.
fn bump(item: &mut DisplayItem, count: u32, now: u64) -> (target: PressTarget)
    requires
        bumpable(old(item)@, true),
    ensures
        final(item)@ == bumped(old(item)@, count, now),
        target == bumped_target(old(item)@),
{
    let id = item.id;
    let mut target = PressTarget::item(id);
    match &mut item.kind {
        DisplayItemKind::KeyStroke { action, repeat_count, .. } => {
            *action = KeyAction::Down;
            *repeat_count = count;
        },
        DisplayItemKind::KeyStrokeGroup { strokes } => {
            let n = strokes.len();
            let ghost before = strokes_of(strokes@);
            strokes[n - 1].action = KeyAction::Down;
            strokes[n - 1].repeat_count = count;
            target = PressTarget::group(id, n - 1);
            assert(strokes_of(strokes@) =~= before.update(
                n - 1,
                KeyStrokeEntryView {
                    action: KeyAction::Down,
                    repeat_count: count,
                    ..before.last()
                },
            ));
        },
        _ => {},
    }
    item.created_at = now;
    item.opacity = Opacity { num: 1, den: 1 };
    item.phase = DisplayPhase::Active;
    target
}

/// Counts a repeated press on the newest item that can take it.
fn bump_newest(items: &mut Vec<DisplayItem>, count: u32, now: u64, force: bool) -> (target: Option<
    PressTarget,
>)
    ensures
        match last_bumpable(items_of(old(items)@), force) {
            Some(i) => {
                &&& 0 <= i < old(items)@.len()
                &&& items_of(final(items)@) == items_of(old(items)@).update(
                    i,
                    bumped(items_of(old(items)@)[i], count, now),
                )
                &&& target == Some(bumped_target(items_of(old(items)@)[i]))
            },
            None => items_of(final(items)@) == items_of(old(items)@) && target is None,
        },
{
    let ghost before = items_of(items@);
    let mut i: usize = items.len();
    while i > 0
        invariant
            i <= items@.len(),
            before == items_of(old(items)@),
            items_of(items@) == before,
            forall|j: int| i <= j < before.len() ==> !bumpable(#[trigger] before[j], force),
        decreases i,
    {
        i -= 1;
        if can_bump(&items[i], force) {
            assert(is_last_bumpable(before, force, i as int));
            let target = bump(&mut items[i], count, now);
            assert(items_of(items@) =~= before.update(i as int, bumped(before[i as int], count, now)));
            assert(last_bumpable(before, force) == Some(i as int)) by {
                let found = choose|k: int| is_last_bumpable(before, force, k);
                assert(is_last_bumpable(before, force, found));
                if found < i {
                    assert(!bumpable(before[i as int], force));
                }
                if found > i {
                    assert(!bumpable(before[found], force));
                }
            }
            return Some(target);
        }
    }
    assert(last_bumpable(before, force) is None) by {
        if exists|k: int| is_last_bumpable(before, force, k) {
            let found = choose|k: int| is_last_bumpable(before, force, k);
            assert(!bumpable(before[found], force));
        }
    }
    None
}

/// Shows the release of a key on the item that shows its press.
fn show_release(item: &mut DisplayItem, group_index: Option<usize>, now: u64)
    ensures
        final(item)@ == release_shown(old(item)@, group_index, now),
{
    let mut shown = false;
    match &mut item.kind {
        DisplayItemKind::KeyStroke { action, .. } => {
            *action = KeyAction::Up;
            shown = true;
        },
        DisplayItemKind::KeyStrokeGroup { strokes } => {
            if let Some(index) = group_index {
                if index < strokes.len() {
                    let ghost before = strokes_of(strokes@);
                    strokes[index].action = KeyAction::Up;
                    shown = true;
                    assert(strokes_of(strokes@) =~= before.update(
                        index as int,
                        KeyStrokeEntryView { action: KeyAction::Up, ..before[index as int] },
                    ));
                }
            }
        },
        _ => {},
    }
    if shown {
        item.created_at = now;
        item.opacity = Opacity { num: 1, den: 1 };
        item.phase = DisplayPhase::Active;
    }
}

/// Shows the release of a key on the first item with the id of `target`.
fn release_at(items: &mut Vec<DisplayItem>, target: PressTarget, now: u64)
    ensures
        match position_of(items_of(old(items)@), target.item_id) {
            Some(i) => {
                &&& 0 <= i < old(items)@.len()
                &&& items_of(final(items)@) == items_of(old(items)@).update(
                    i,
                    release_shown(items_of(old(items)@)[i], target.group_index, now),
                )
            },
            None => items_of(final(items)@) == items_of(old(items)@),
        },
{
    let ghost before = items_of(items@);
    let mut i: usize = 0;
    while i < items.len()
        invariant
            i <= items@.len(),
            before == items_of(old(items)@),
            items_of(items@) == before,
            forall|j: int| 0 <= j < i ==> (#[trigger] before[j]).id != target.item_id,
        decreases items@.len() - i,
    {
        if items[i].id == target.item_id {
            assert(is_position_of(before, target.item_id, i as int));
            show_release(&mut items[i], target.group_index, now);
            assert(items_of(items@) =~= before.update(
                i as int,
                release_shown(before[i as int], target.group_index, now),
            ));
            assert(position_of(before, target.item_id) == Some(i as int)) by {
                let found = choose|k: int| is_position_of(before, target.item_id, k);
                assert(is_position_of(before, target.item_id, found));
                if found < i {
                    assert(before[found].id != target.item_id);
                }
                if found > i {
                    assert(before[i as int].id != target.item_id);
                }
            }
            return ;
        }
        i += 1;
    }
    assert(position_of(before, target.item_id) is None) by {
        if exists|k: int| is_position_of(before, target.item_id, k) {
            let found = choose|k: int| is_position_of(before, target.item_id, k);
            assert(before[found].id != target.item_id);
        }
    }
}

/// Puts `text` on show in the first item that shows a composition, and
/// says whether there was one.
fn update_composition(items: &mut Vec<DisplayItem>, text: &String, now: u64) -> (found: bool)
    ensures
        match first_composition(items_of(old(items)@)) {
            Some(i) => {
                &&& found
                &&& 0 <= i < old(items)@.len()
                &&& items_of(final(items)@) == items_of(old(items)@).update(
                    i,
                    items_of(old(items)@)[i].with_kind(
                        DisplayItemKindView::ImeComposition { text: text@ },
                    ).refreshed(now),
                )
            },
            None => !found && items_of(final(items)@) == items_of(old(items)@),
        },
{
    let ghost before = items_of(items@);
    let mut i: usize = 0;
    while i < items.len()
        invariant
            i <= items@.len(),
            before == items_of(old(items)@),
            items_of(items@) == before,
            forall|j: int| 0 <= j < i ==> !is_composition(#[trigger] before[j]),
        decreases items@.len() - i,
    {
        let mut hit = false;
        match &mut items[i].kind {
            DisplayItemKind::ImeComposition { text: shown } => {
                *shown = text.clone();
                hit = true;
            },
            _ => {},
        }
        if hit {
            items[i].created_at = now;
            items[i].opacity = Opacity { num: 1, den: 1 };
            items[i].phase = DisplayPhase::Active;
            assert(is_first_composition(before, i as int));
            assert(items_of(items@) =~= before.update(
                i as int,
                before[i as int].with_kind(
                    DisplayItemKindView::ImeComposition { text: text@ },
                ).refreshed(now),
            ));
            assert(first_composition(before) == Some(i as int)) by {
                let first = choose|k: int| is_first_composition(before, k);
                assert(is_first_composition(before, first));
                if first < i {
                    assert(!is_composition(before[first]));
                }
                if first > i {
                    assert(!is_composition(before[i as int]));
                }
            }
            return true;
        }
        assert(items_of(items@) =~= before);
        i += 1;
    }
    assert(first_composition(before) is None) by {
        if exists|k: int| is_first_composition(before, k) {
            let first = choose|k: int| is_first_composition(before, k);
            assert(!is_composition(before[first]));
        }
    }
    false
}

/// The display engine: it turns the events it is fed into the list of
/// items to show, and lets them fade as time goes by.
///
/// What it does is laid down by its state, an [`EngineView`]: every
/// operation says which state it leaves in terms of the one it found.
pub struct DisplayState {
    items: Vec<DisplayItem>,
    repeat_tracker: RepeatTracker,
    config: Snapshot,
    next_id: u64,
    active_presses: PressMap,
    ime_composing: bool,
    ime_native_composing: bool,
    ime_fallback_enabled: bool,
    ime_fallback_romaji: String,
}

impl View for DisplayState {
    type V = EngineView;

    closed spec fn view(&self) -> EngineView {
        EngineView {
            items: items_of(self.items@),
            presses: self.active_presses@,
            settings: self.config@,
            next_id: self.next_id,
            repeat: self.repeat_tracker,
            ime_composing: self.ime_composing,
            ime_native_composing: self.ime_native_composing,
            ime_fallback_enabled: self.ime_fallback_enabled,
            ime_fallback_romaji: self.ime_fallback_romaji@,
        }
    }
}

impl DisplayState {
    /// An engine that has seen nothing yet and acts on what `config` says.
    pub fn new(config: &AppConfig) -> (state: DisplayState)
        ensures
            state@ == EngineView::initial(config.settings()),
            state@.sound(),
            state@.presses_live(),
            state@.within_limit(),
    {
        let state = DisplayState {
            items: Vec::new(),
            repeat_tracker: RepeatTracker::new(config.behavior.repeat_timeout_ms),
            config: Snapshot::of(config),
            next_id: 0,
            active_presses: PressMap::new(),
            ime_composing: false,
            ime_native_composing: false,
            ime_fallback_enabled: false,
            ime_fallback_romaji: String::new(),
        };
        assert(state@ =~= EngineView::initial(config.settings()));
        proof {
            lemma_sound_at_rest(state@, config.settings());
        }
        state
    }

    /// The items on show, oldest first.
    pub fn active_items(&self) -> (items: &[DisplayItem])
        ensures
            items_of(items@) == self@.items,
    {
        self.items.as_slice()
    }

    /// Takes everything off show, forgets the keys held down, stops the
    /// taking of romaji and drops the romaji typed so far.
    pub fn clear(&mut self)
        ensures
            final(self)@ == old(self)@.cleared(),
            final(self)@.sound(),
            final(self)@.presses_live(),
    {
        proof {
            lemma_sound_at_rest(old(self)@, old(self)@.settings);
        }
        self.items.clear();
        self.active_presses.clear();
        self.ime_composing = false;
        self.ime_native_composing = false;
        self.ime_fallback_enabled = false;
        self.ime_fallback_romaji.clear();
        assert(self@ =~= old(self)@.cleared());
    }

    /// Whether an item on show is fading.
    pub fn has_animations(&self) -> (fading: bool)
        ensures
            fading == exists|i: int|
                0 <= i < self@.items.len() && (#[trigger] self@.items[i]).phase
                    == DisplayPhase::FadingOut,
    {
        let mut i: usize = 0;
        while i < self.items.len()
            invariant
                i <= self.items@.len(),
                forall|j: int|
                    0 <= j < i ==> (#[trigger] items_of(self.items@)[j]).phase
                        != DisplayPhase::FadingOut,
            decreases self.items@.len() - i,
        {
            if self.items[i].phase == DisplayPhase::FadingOut {
                assert(self@.items[i as int].phase == DisplayPhase::FadingOut);
                return true;
            }
            i += 1;
        }
        false
    }

    /// Whether the machine's numbers leave room for one more event.
    pub fn has_headroom(&self) -> (room: bool)
        ensures
            room == self@.has_headroom(),
    {
        self.next_id < u64::MAX && self.repeat_tracker.count < u32::MAX
    }

    /// Forgets the keys held down whose item is gone.
    fn prune_active_press_targets(&mut self)
        ensures
            final(self)@ == old(self)@.with_presses_pruned(),
    {
        self.active_presses.prune(&self.items);
        assert(self@ =~= old(self)@.with_presses_pruned());
    }

    /// Takes the composition off show.
    fn drop_composition(&mut self)
        ensures
            final(self)@ == old(self)@.composition_dropped(),
    {
        self.ime_composing = false;
        remove_compositions(&mut self.items);
        self.prune_active_press_targets();
        assert(self@ =~= old(self)@.composition_dropped());
    }

    /// Puts a new item at the end of the list, lets the oldest go where the list
    /// is too long, and says which id the item got.
    fn add_item(&mut self, kind: DisplayItemKind, now: u64) -> (id: u64)
        requires
            old(self)@.next_id < u64::MAX,
        ensures
            final(self)@ == old(self)@.with_item(kind@, now),
            id == old(self)@.next_id,
    {
        let id = self.next_id;
        let item = DisplayItem {
            id,
            kind,
            created_at: now,
            opacity: Opacity { num: 1, den: 1 },
            phase: DisplayPhase::Active,
        };
        self.next_id = self.next_id + 1;
        self.items.push(item);
        assert(items_of(self.items@) == old(self)@.items.push(item@));
        keep_newest(&mut self.items, self.config.max_items);
        self.prune_active_press_targets();
        assert(self@ =~= old(self)@.with_item(kind@, now));
        id
    }

    /// Shows a key stroke, in the last item where it joins it and in an item of
    /// its own where it does not, and says where its release is to be shown.
    fn add_keystroke(
        &mut self,
        label: String,
        modifiers: Modifiers,
        action: KeyAction,
        now: u64,
    ) -> (target: PressTarget)
        requires
            old(self)@.next_id < u64::MAX,
        ensures
            (final(self)@, target) == old(self)@.with_keystroke(label@, modifiers, action, now),
    {
        let n = self.items.len();
        if self.config.group_timeout_ms != 0 && n > 0 {
            if self.items[n - 1].phase == DisplayPhase::Active && elapsed_ms(
                now,
                self.items[n - 1].created_at,
            ) < self.config.group_timeout_ms {
                let ghost last = old(self)@.items.last();
                let id = self.items[n - 1].id;
                let entry = KeyStrokeEntry { label: label.clone(), modifiers, action, repeat_count: 1 };
                let first = match &self.items[n - 1].kind {
                    DisplayItemKind::KeyStroke { label, modifiers, action, repeat_count } => Some(
                        KeyStrokeEntry {
                            label: label.clone(),
                            modifiers: *modifiers,
                            action: *action,
                            repeat_count: *repeat_count,
                        },
                    ),
                    _ => None,
                };
                if let Some(first) = first {
                    let mut strokes: Vec<KeyStrokeEntry> = Vec::new();
                    strokes.push(first);
                    strokes.push(entry);
                    assert(strokes_of(strokes@) =~= seq![first@, entry@]);
                    self.items[n - 1].kind = DisplayItemKind::KeyStrokeGroup { strokes };
                    self.items[n - 1].created_at = now;
                    self.active_presses.remap_item_target_to_group_first(id);
                    assert(self@.items =~= old(self)@.items.update(
                        n - 1,
                        DisplayItemView {
                            kind: DisplayItemKindView::KeyStrokeGroup {
                                strokes: seq![first@, entry@],
                            },
                            created_at: now,
                            ..last
                        },
                    ));
                    assert(self@ =~= old(self)@.with_keystroke(label@, modifiers, action, now).0);
                    return PressTarget::group(id, 1);
                }
                let max_group = self.config.max_group_size;
                let mut place: Option<usize> = None;
                match &mut self.items[n - 1].kind {
                    DisplayItemKind::KeyStrokeGroup { strokes } => {
                        if strokes.len() < max_group {
                            let ghost before = strokes_of(strokes@);
                            place = Some(strokes.len());
                            strokes.push(entry);
                            assert(strokes_of(strokes@) =~= before.push(entry@));
                        }
                    },
                    _ => {},
                }
                if let Some(index) = place {
                    self.items[n - 1].created_at = now;
                    assert(self@.items =~= old(self)@.items.update(
                        n - 1,
                        DisplayItemView {
                            kind: DisplayItemKindView::KeyStrokeGroup {
                                strokes: last.kind->KeyStrokeGroup_strokes.push(entry@),
                            },
                            created_at: now,
                            ..last
                        },
                    ));
                    assert(self@ =~= old(self)@.with_keystroke(label@, modifiers, action, now).0);
                    return PressTarget::group(id, index);
                }
                assert(self@ =~= old(self)@);
            }
        }
        let id = self.add_item(
            DisplayItemKind::KeyStroke { label, modifiers, action, repeat_count: 1 },
            now,
        );
        PressTarget::item(id)
    }

    /// Counts a repeated press on the newest item that can take it, if there is
    /// one.
    fn update_repeat_count(&mut self, count: u32, now: u64, force_down_state: bool) -> (target:
        Option<PressTarget>)
        ensures
            match old(self)@.with_repeat(count, now, force_down_state) {
                Some((state, place)) => final(self)@ == state && target == Some(place),
                None => final(self)@ == old(self)@ && target is None,
            },
    {
        let target = bump_newest(&mut self.items, count, now, force_down_state);
        proof {
            match old(self)@.with_repeat(count, now, force_down_state) {
                Some((state, place)) => {
                    assert(self@ =~= state);
                },
                None => {
                    assert(self@ =~= old(self)@);
                },
            }
        }
        target
    }

    /// Shows the release of a key on the item that shows its press.
    fn apply_key_up_to_existing(&mut self, ke: &KeyEvent, now: u64)
        ensures
            final(self)@ == old(self)@.released(PressKey::of(*ke), now),
    {
        let found = self.active_presses.remove(PressKey::from_key_event(ke));
        match found {
            Some(target) => {
                release_at(&mut self.items, target, now);
                assert(self@ =~= old(self)@.released(PressKey::of(*ke), now));
            },
            None => {
                assert(self@ =~= old(self)@.released(PressKey::of(*ke), now));
            },
        }
    }

    /// Puts `text` on show as the composition.
    fn show_composition(&mut self, text: String, now: u64)
        requires
            old(self)@.next_id < u64::MAX,
        ensures
            final(self)@ == old(self)@.with_composition(text@, now),
    {
        let found = update_composition(&mut self.items, &text, now);
        if found {
            assert(self@ =~= old(self)@.with_composition(text@, now));
        } else {
            assert(self@ =~= old(self)@);
            let _ = self.add_item(DisplayItemKind::ImeComposition { text }, now);
        }
    }

    /// Puts the hiragana of the romaji typed so far on show.
    fn apply_ime_fallback_text(&mut self, now: u64)
        requires
            old(self)@.next_id < u64::MAX,
        ensures
            final(self)@ == old(self)@.with_fallback_shown(now),
    {
        let text = romaji_to_hiragana(self.ime_fallback_romaji.as_str());
        if text.as_str().is_empty() {
            self.drop_composition();
            self.ime_native_composing = false;
            assert(self@ =~= old(self)@.with_fallback_shown(now));
        } else {
            self.ime_composing = true;
            self.ime_native_composing = false;
            let ghost primed = self@;
            assert(primed =~= EngineView {
                ime_composing: true,
                ime_native_composing: false,
                ..old(self)@
            });
            self.show_composition(text, now);
        }
    }

    /// Takes a key that switches the input method, and says whether it was one.
    fn handle_ime_toggle_key(&mut self, ke: &KeyEvent) -> (handled: bool)
        ensures
            handled == toggles_ime(*ke),
            final(self)@ == if handled {
                old(self)@.ime_toggled(*ke)
            } else {
                old(self)@
            },
    {
        let vk: u32 = ke.key.0 & 0xFF;
        if !(vk == 0x15 || vk == 0x16 || vk == 0x19 || vk == 0x1A || ke.scan_code == 0x29) {
            return false;
        }
        if ke.action == KeyAction::Down {
            if vk == 0x16 {
                self.ime_fallback_enabled = true;
            } else if vk == 0x1A {
                self.ime_fallback_enabled = false;
            } else {
                self.ime_fallback_enabled = !self.ime_fallback_enabled;
            }
            if !self.ime_fallback_enabled {
                let ghost switched = self@;
                assert(switched =~= EngineView { ime_fallback_enabled: false, ..old(self)@ });
                self.drop_composition();
                self.ime_native_composing = false;
                self.ime_fallback_romaji.clear();
                assert(self@ =~= old(self)@.ime_toggled(*ke));
            } else {
                assert(self@ =~= old(self)@.ime_toggled(*ke));
            }
        }
        true
    }

    /// Takes a key as romaji input, and says whether it was used up.
    fn handle_ime_fallback_key(&mut self, ke: &KeyEvent) -> (handled: bool)
        requires
            old(self)@.next_id < u64::MAX,
        ensures
            handled == old(self)@.consumes_as_romaji(*ke),
            final(self)@ == if handled {
                old(self)@.romaji_typed(*ke)
            } else {
                old(self)@
            },
    {
        if !self.config.show_ime_composition || !self.ime_fallback_enabled
            || self.ime_native_composing || ke.modifiers.commanding() {
            return false;
        }
        let vk: u32 = ke.key.0 & 0xFF;
        let is_letter = 0x41 <= vk && vk <= 0x5A;
        let is_commit = vk == 0x0D || vk == 0x1B || vk == 0x09 || vk == 0x20;
        let is_backspace = vk == 0x08;
        if ke.action == KeyAction::Up {
            return is_letter || is_backspace || is_commit;
        }
        if is_letter {
            let letter = ((vk as u8) + 32) as char;
            assert(letter == letter_typed(vk));
            self.ime_fallback_romaji.push(letter);
            let ghost typed = self@;
            assert(typed =~= EngineView {
                ime_fallback_romaji: old(self)@.ime_fallback_romaji.push(letter_typed(vk)),
                ..old(self)@
            });
            self.apply_ime_fallback_text(ke.timestamp);
            return true;
        }
        if is_backspace {
            let _ = self.ime_fallback_romaji.pop();
            let ghost typed = self@;
            assert(typed =~= EngineView {
                ime_fallback_romaji: if old(self)@.ime_fallback_romaji.len() > 0 {
                    old(self)@.ime_fallback_romaji.drop_last()
                } else {
                    old(self)@.ime_fallback_romaji
                },
                ..old(self)@
            });
            self.apply_ime_fallback_text(ke.timestamp);
            return true;
        }
        if is_commit {
            self.ime_fallback_romaji.clear();
            let ghost emptied = self@;
            assert(emptied =~= EngineView {
                ime_fallback_romaji: Seq::empty(),
                ..old(self)@
            });
            self.drop_composition();
            return true;
        }
        false
    }

    /// Whether the settings leave a key out.
    fn is_ignored(&self, ke: &KeyEvent) -> (ignored: bool)
        ensures
            ignored == self@.ignores(*ke),
    {
        let label = ke.key.label();
        let mut i: usize = 0;
        while i < self.config.ignored_keys.len()
            invariant
                i <= self.config.ignored_keys@.len(),
                label@ == KeyCode::label_of(ke.key.0),
                forall|j: int|
                    0 <= j < i ==> !same_ignoring_case(
                        #[trigger] self@.settings.ignored_keys[j],
                        label@,
                    ),
            decreases self.config.ignored_keys@.len() - i,
        {
            if eq_ignore_ascii_case(self.config.ignored_keys[i].as_str(), label) {
                assert(same_ignoring_case(self@.settings.ignored_keys[i as int], label@));
                return true;
            }
            i += 1;
        }
        false
    }

    /// The place of the first shortcut that a key event sets off.
    fn match_shortcut(&self, ke: &KeyEvent) -> (fired: Option<usize>)
        ensures
            match fired {
                Some(i) => self@.fired_shortcut(*ke) == Some(i as int) && i
                    < self.config.shortcuts@.len(),
                None => self@.fired_shortcut(*ke) is None,
            },
    {
        if ke.action != KeyAction::Down || !ke.modifiers.any() {
            assert(self@.fired_shortcut(*ke) is None) by {
                if exists|k: int| self@.is_first_fired(*ke, k) {
                    let first = choose|k: int| self@.is_first_fired(*ke, k);
                    assert(self@.is_first_fired(*ke, first));
                }
            }
            return None;
        }
        let mut i: usize = 0;
        while i < self.config.shortcuts.len()
            invariant
                i <= self.config.shortcuts@.len(),
                ke.action == KeyAction::Down,
                ke.modifiers.any(),
                forall|j: int|
                    0 <= j < i ==> !shortcut_fires((#[trigger] self@.settings.shortcuts[j]).keys, *ke),
            decreases self.config.shortcuts@.len() - i,
        {
            if shortcut_matches(self.config.shortcuts[i].keys.as_str(), ke) {
                assert(self@.settings.shortcuts[i as int].keys == self.config.shortcuts@[i as int].keys@);
                assert(self@.is_first_fired(*ke, i as int));
                assert(self@.fired_shortcut(*ke) == Some(i as int)) by {
                    let first = choose|k: int| self@.is_first_fired(*ke, k);
                    assert(self@.is_first_fired(*ke, first));
                    if first < i {
                        assert(!shortcut_fires(self@.settings.shortcuts[first].keys, *ke));
                    }
                    if first > i {
                        assert(!shortcut_fires(self@.settings.shortcuts[i as int].keys, *ke));
                    }
                }
                return Some(i);
            }
            assert(self@.settings.shortcuts[i as int].keys == self.config.shortcuts@[i as int].keys@);
            i += 1;
        }
        assert(self@.fired_shortcut(*ke) is None) by {
            if exists|k: int| self@.is_first_fired(*ke, k) {
                let first = choose|k: int| self@.is_first_fired(*ke, k);
                assert(self@.is_first_fired(*ke, first));
                assert(!shortcut_fires(self@.settings.shortcuts[first].keys, *ke));
            }
        }
        None
    }

    /// Shows a key press as a key stroke, counted as a repeat where it is one.
    fn show_press(&mut self, ke: &KeyEvent, label: String) -> (target: PressTarget)
        requires
            old(self)@.has_headroom(),
            label@ == old(self)@.shown_label(*ke),
        ensures
            (final(self)@, target) == old(self)@.with_press_shown(*ke),
    {
        let now = ke.timestamp;
        if self.config.show_repeat_count {
            let count = self.repeat_tracker.track(ke.key, ke.modifiers, now);
            let ghost counted = self@;
            assert(counted =~= EngineView {
                repeat: old(self)@.repeat.after_press(ke.key, ke.modifiers, now),
                ..old(self)@
            });
            if count > 1 {
                let force = self.config.key_transition_mode == KeyTransitionMode::SingleCell;
                match self.update_repeat_count(count, now, force) {
                    Some(target) => target,
                    None => self.add_keystroke(label, ke.modifiers, KeyAction::Down, now),
                }
            } else {
                self.add_keystroke(label, ke.modifiers, KeyAction::Down, now)
            }
        } else {
            self.add_keystroke(label, ke.modifiers, KeyAction::Down, now)
        }
    }

    /// Takes in a key event.
    fn process_key_event(&mut self, ke: KeyEvent)
        requires
            old(self)@.has_headroom(),
        ensures
            final(self)@ == old(self)@.key_handled(ke),
    {
        if self.is_ignored(&ke) {
            return ;
        }
        if self.handle_ime_toggle_key(&ke) {
            return ;
        }
        if self.handle_ime_fallback_key(&ke) {
            return ;
        }
        if self.ime_composing && should_suppress_during_ime_composition(&ke) {
            return ;
        }
        let now = ke.timestamp;
        let display_label = if self.config.distinguish_numpad {
            ke.key.label()
        } else {
            ke.key.label_plain()
        };
        match ke.action {
            KeyAction::Down => {
                if ke.key.is_modifier() {
                    return ;
                }
                match self.match_shortcut(&ke) {
                    Some(i) => {
                        assert(self@.settings.shortcuts[i as int] == self.config.shortcuts@[i as int]@);
                        let keys_label = self.config.shortcuts[i].keys.clone();
                        let action_label = self.config.shortcuts[i].label.clone();
                        let _ = self.add_item(
                            DisplayItemKind::Shortcut { keys_label, action_label },
                            now,
                        );
                        let _ = self.active_presses.remove(PressKey::from_key_event(&ke));
                        assert(self@ =~= old(self)@.pressed(ke));
                    },
                    None => {
                        let target = self.show_press(&ke, display_label.to_owned());
                        if self.config.key_transition_mode == KeyTransitionMode::SingleCell {
                            self.active_presses.insert(PressKey::from_key_event(&ke), target);
                        }
                        assert(self@ =~= old(self)@.pressed(ke));
                    },
                }
            },
            KeyAction::Up => {
                if ke.key.is_modifier() {
                    return ;
                }
                match self.config.key_transition_mode {
                    KeyTransitionMode::SingleCell => {
                        self.apply_key_up_to_existing(&ke, now);
                    },
                    KeyTransitionMode::SplitCells => {
                        let _ = self.active_presses.remove(PressKey::from_key_event(&ke));
                        let ghost lifted = self@;
                        assert(lifted =~= EngineView {
                            presses: old(self)@.presses.remove(PressKey::of(ke)),
                            ..old(self)@
                        });
                        let _ = self.add_keystroke(
                            display_label.to_owned(),
                            ke.modifiers,
                            KeyAction::Up,
                            now,
                        );
                    },
                }
            },
        }
    }

    /// Takes in a mouse event.
    fn process_mouse_event(&mut self, me: MouseEvent)
        requires
            old(self)@.has_headroom(),
        ensures
            final(self)@ == old(self)@.mouse_handled(me),
    {
        let label = match me.action {
            MouseAction::Up => {
                return ;
            },
            MouseAction::Down => match me.button {
                MouseButton::Left => "LClick",
                MouseButton::Right => "RClick",
                MouseButton::Middle => "MClick",
                MouseButton::X1 => "X1Click",
                MouseButton::X2 => "X2Click",
            },
            MouseAction::Wheel(delta) => if delta > 0 {
                "WheelUp"
            } else {
                "WheelDown"
            },
        };
        let _ = self.add_item(
            DisplayItemKind::KeyStroke {
                label: label.to_owned(),
                modifiers: Modifiers { ctrl: false, shift: false, alt: false, win: false },
                action: KeyAction::Down,
                repeat_count: 1,
            },
            me.timestamp,
        );
    }

    /// Takes in an event of the input method.
    fn process_ime_event(&mut self, ie: ImeEvent)
        requires
            old(self)@.has_headroom(),
        ensures
            final(self)@ == old(self)@.ime_handled(ie),
    {
        if !self.config.show_ime_composition {
            return ;
        }
        match ie.kind {
            ImeEventKind::StateChanged { enabled } => {
                if !enabled {
                    self.ime_fallback_enabled = false;
                    self.ime_native_composing = false;
                    self.ime_fallback_romaji.clear();
                    self.drop_composition();
                    assert(self@ =~= old(self)@.ime_handled(ie));
                }
            },
            ImeEventKind::CompositionUpdate { text } => {
                self.ime_composing = true;
                self.ime_native_composing = true;
                self.ime_fallback_romaji.clear();
                let ghost primed = self@;
                assert(primed =~= EngineView {
                    ime_composing: true,
                    ime_native_composing: true,
                    ime_fallback_romaji: Seq::empty(),
                    ..old(self)@
                });
                self.show_composition(text, ie.timestamp);
            },
            ImeEventKind::CompositionEnd { .. } => {
                if self.ime_native_composing {
                    self.ime_native_composing = false;
                    self.ime_fallback_romaji.clear();
                    self.drop_composition();
                    assert(self@ =~= old(self)@.ime_handled(ie));
                } else if !self.ime_fallback_enabled {
                    self.drop_composition();
                }
            },
        }
    }

    /// Takes in a change of the clipboard.
    fn process_clipboard_event(&mut self, ce: ClipboardEvent)
        requires
            old(self)@.has_headroom(),
        ensures
            final(self)@ == old(self)@.clipboard_handled(ce),
    {
        if !self.config.show_clipboard {
            return ;
        }
        let text = match &ce.content {
            ClipboardContent::Text(copied) => truncate_chars(
                copied.as_str(),
                self.config.clipboard_max_chars,
            ),
            ClipboardContent::Image { width, height } => {
                let mut text = "[Image ".to_owned();
                push_decimal(&mut text, *width as u64);
                text.append("x");
                push_decimal(&mut text, *height as u64);
                text.append("]");
                text
            },
            ClipboardContent::Other => "[Clipboard]".to_owned(),
        };
        let _ = self.add_item(DisplayItemKind::ClipboardPreview { text }, ce.timestamp);
    }

    /// Takes in a change of the lock keys.
    fn process_lock_event(&mut self, ls: LockStateEvent)
        requires
            old(self)@.has_headroom(),
        ensures
            final(self)@ == old(self)@.lock_handled(ls),
    {
        if !self.config.show_lock_indicators {
            return ;
        }
        let _ = self.add_item(
            DisplayItemKind::LockIndicator {
                caps: ls.caps_lock,
                num: ls.num_lock,
                scroll: ls.scroll_lock,
            },
            ls.timestamp,
        );
    }

    /// Takes in one event.
    pub fn process_event(&mut self, event: InputEvent)
        requires
            old(self)@.has_headroom(),
        ensures
            final(self)@ == old(self)@.step(event),
            old(self)@.within_limit() ==> final(self)@.within_limit(),
            old(self)@.sound() ==> final(self)@.sound(),
            old(self)@.sound() && old(self)@.presses_live() && old(self)@.settings.max_items > 0
                ==> final(self)@.presses_live(),
    {
        proof {
            if old(self)@.within_limit() {
                lemma_step_keeps_limit(old(self)@, event);
            }
            if old(self)@.sound() {
                lemma_step_sound(old(self)@, event);
            }
        }
        match event {
            InputEvent::Key(ke) => self.process_key_event(ke),
            InputEvent::Mouse(me) => self.process_mouse_event(me),
            InputEvent::Ime(ie) => self.process_ime_event(ie),
            InputEvent::Clipboard(ce) => self.process_clipboard_event(ce),
            InputEvent::LockState(ls) => self.process_lock_event(ls),
            InputEvent::DpiChanged { .. } => {},
            InputEvent::ConfigChanged => {},
        }
    }

    /// Lets time pass up to `now`: items fade, and those that have faded
    /// out leave the list.
    pub fn tick(&mut self, now: u64)
        ensures
            final(self)@ == old(self)@.tick(now),
            final(self)@.items.len() <= old(self)@.items.len(),
            old(self)@.sound() ==> final(self)@.sound() && final(self)@.presses_live(),
    {
        proof {
            lemma_tick_keeps_limit(old(self)@, now);
            if old(self)@.sound() {
                lemma_tick_sound(old(self)@, now);
            }
        }
        advance(&mut self.items, &self.config, now);
        assert(items_of(self.items@) =~= old(self)@.items.map_values(
            |item: DisplayItemView| ticked(item, old(self)@.settings, now),
        ));
        remove_expired(&mut self.items);
        self.prune_active_press_targets();
        assert(self@ =~= old(self)@.tick(now));
    }

    /// Puts another configuration in force.
    pub fn update_config(&mut self, config: &AppConfig)
        ensures
            final(self)@ == old(self)@.reconfigured(config.settings()),
            old(self)@.sound() ==> final(self)@.sound(),
            final(self)@.presses_live(),
    {
        proof {
            lemma_sound_at_rest(old(self)@, config.settings());
        }
        if self.config.key_transition_mode != config.behavior.key_transition_mode {
            self.active_presses.clear();
        }
        self.config = Snapshot::of(config);
        self.repeat_tracker.timeout_ms = config.behavior.repeat_timeout_ms;
        self.prune_active_press_targets();
        assert(self@ =~= old(self)@.reconfigured(config.settings()));
    }
}

/// Whether a key is not shown while a composition is on show.
pub fn should_suppress_during_ime_composition(ke: &KeyEvent) -> (hidden: bool)
    ensures
        hidden == hidden_while_composing(*ke),
{
    if ke.modifiers.commanding() {
        return false;
    }
    let vk: u32 = ke.key.0 & 0xFF;
    (0x30 <= vk && vk <= 0x5A) || (0xBA <= vk && vk <= 0xE2)
}

} // verus!
