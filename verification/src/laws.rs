use vstd::prelude::*;

use crate::config::{FadeOutCurve, KeyTransitionMode, Settings};
use crate::event::{ImeEventKind, InputEvent, KeyAction, KeyEvent, Modifiers, MouseAction};
use crate::key::KeyCode;
use crate::romaji::hiragana_of;
use crate::item::{
    DisplayItemKindView, DisplayItemView, DisplayPhase, KeyStrokeEntryView, Opacity,
};
use crate::repeat::elapsed;
use crate::model::{
    bumped, button_label, clipboard_text, fade_opacity, first_composition,
    hidden_while_composing, is_composition, is_first_composition, is_last_bumpable,
    is_position_of, last_bumpable, letter_typed, newest, position_of, release_shown, ticked,
    toggles_ime, virtual_key, wheel_label, EngineView,
};
use crate::press::{has_id, PressKey, PressTarget};

verus! {

/// One thing that happens to the engine: an event comes in, or time passes.
pub enum Input {
    Event(InputEvent),
    Tick(u64),
}

impl EngineView {
    /// No more items are on show than the settings allow.
    pub open spec fn within_limit(self) -> bool {
        self.items.len() <= self.settings.max_items
    }

    /// The state after one input.
    pub open spec fn fed(self, input: Input) -> EngineView {
        match input {
            Input::Event(event) => self.step(event),
            Input::Tick(now) => self.tick(now),
        }
    }

    /// The state after a run of inputs.
    pub open spec fn run(self, inputs: Seq<Input>) -> EngineView
        decreases inputs.len(),
    {
        if inputs.len() == 0 {
            self
        } else {
            self.run(inputs.drop_last()).fed(inputs.last())
        }
    }
}

/// After `clear`, nothing is on show, and the release of a key changes
/// nothing, where a press and its release share an item.
pub proof fn lemma_release_after_clear_is_idle(state: EngineView, ke: KeyEvent)
    requires
        ke.action == KeyAction::Up,
        state.settings.key_transition_mode == KeyTransitionMode::SingleCell,
    ensures
        state.cleared().items.len() == 0,
        state.cleared().step(InputEvent::Key(ke)) == state.cleared(),
{
}

/// After `clear`, no key is taken for romaji, whatever was typed or
/// switched on before, and no composition counts as being on show: a key
/// that the settings do not leave out and that does not switch the input
/// method is shown as a key.
pub proof fn lemma_clear_stops_romaji(state: EngineView, ke: KeyEvent)
    ensures
        !state.cleared().ime_fallback_enabled,
        state.cleared().ime_fallback_romaji.len() == 0,
        !state.cleared().consumes_as_romaji(ke),
        !state.cleared().ignores(ke) && !toggles_ime(ke) ==> state.cleared().key_handled(ke) == (
        if ke.action == KeyAction::Down {
            state.cleared().pressed(ke)
        } else {
            state.cleared().lifted(ke)
        }),
{
}

/// Of a list, no more than `n` items are the newest `n`.
pub proof fn lemma_newest_len<T>(list: Seq<T>, n: int)
    requires
        0 <= n,
    ensures
        newest(list, n).len() <= n,
        newest(list, n).len() <= list.len(),
{
}

/// A new item leaves no more items on show than the settings allow,
/// however many there were.
pub proof fn lemma_with_item_within_limit(
    state: EngineView,
    kind: DisplayItemKindView,
    now: u64,
)
    ensures
        state.with_item(kind, now).within_limit(),
        state.with_item(kind, now).settings == state.settings,
{
    let item = DisplayItemView {
        id: state.next_id,
        kind,
        created_at: now,
        opacity: Opacity::full(),
        phase: DisplayPhase::Active,
    };
    lemma_newest_len(state.items.push(item), state.settings.max_items as int);
}

/// Taking the composition off show adds no item.
pub proof fn lemma_composition_dropped_len(state: EngineView)
    ensures
        state.composition_dropped().items.len() <= state.items.len(),
        state.composition_dropped().settings == state.settings,
{
    state.items.lemma_filter_len(|item: DisplayItemView| !is_composition(item));
}

/// Showing a composition keeps the number of items within the limit.
pub proof fn lemma_with_composition_within_limit(state: EngineView, text: Seq<char>, now: u64)
    requires
        state.within_limit(),
    ensures
        state.with_composition(text, now).within_limit(),
        state.with_composition(text, now).settings == state.settings,
{
    lemma_with_item_within_limit(
        state,
        DisplayItemKindView::ImeComposition { text },
        now,
    );
}

/// Showing a key stroke keeps the number of items within the limit.
pub proof fn lemma_with_keystroke_within_limit(
    state: EngineView,
    label: Seq<char>,
    modifiers: Modifiers,
    action: KeyAction,
    now: u64,
)
    requires
        state.within_limit(),
    ensures
        state.with_keystroke(label, modifiers, action, now).0.within_limit(),
        state.with_keystroke(label, modifiers, action, now).0.settings == state.settings,
{
    lemma_with_item_within_limit(
        state,
        DisplayItemKindView::KeyStroke { label, modifiers, action, repeat_count: 1 },
        now,
    );
}

/// Bounding, one event at a time: an event leaves no more items on
/// show than the settings allow, if there were no more before it.
pub proof fn lemma_step_keeps_limit(state: EngineView, event: InputEvent)
    requires
        state.within_limit(),
    ensures
        state.step(event).within_limit(),
        state.step(event).settings == state.settings,
{
    match event {
        InputEvent::Key(ke) => {
            lemma_key_keeps_limit(state, ke);
        },
        InputEvent::Mouse(me) => {
            match me.action {
                MouseAction::Up => {},
                MouseAction::Down => {
                    lemma_with_item_within_limit(
                        state,
                        DisplayItemKindView::KeyStroke {
                            label: button_label(me.button),
                            modifiers: Modifiers::none(),
                            action: KeyAction::Down,
                            repeat_count: 1,
                        },
                        me.timestamp,
                    );
                },
                MouseAction::Wheel(delta) => {
                    lemma_with_item_within_limit(
                        state,
                        DisplayItemKindView::KeyStroke {
                            label: wheel_label(delta),
                            modifiers: Modifiers::none(),
                            action: KeyAction::Down,
                            repeat_count: 1,
                        },
                        me.timestamp,
                    );
                },
            }
        },
        InputEvent::Ime(ie) => {
            lemma_composition_dropped_len(state);
            match ie.kind {
                ImeEventKind::CompositionUpdate { text } => {
                    lemma_with_composition_within_limit(
                        EngineView {
                            ime_composing: true,
                            ime_native_composing: true,
                            ime_fallback_romaji: Seq::empty(),
                            ..state
                        },
                        text@,
                        ie.timestamp,
                    );
                },
                _ => {},
            }
        },
        InputEvent::Clipboard(ce) => {
            lemma_with_item_within_limit(
                state,
                DisplayItemKindView::ClipboardPreview {
                    text: clipboard_text(ce.content, state.settings.clipboard_max_chars),
                },
                ce.timestamp,
            );
        },
        InputEvent::LockState(ls) => {
            lemma_with_item_within_limit(
                state,
                DisplayItemKindView::LockIndicator {
                    caps: ls.caps_lock,
                    num: ls.num_lock,
                    scroll: ls.scroll_lock,
                },
                ls.timestamp,
            );
        },
        InputEvent::DpiChanged { .. } => {},
        InputEvent::ConfigChanged => {},
    }
}

proof fn lemma_fallback_shown_keeps_limit(state: EngineView, now: u64)
    requires
        state.within_limit(),
    ensures
        state.with_fallback_shown(now).within_limit(),
        state.with_fallback_shown(now).settings == state.settings,
{
    lemma_composition_dropped_len(state);
    lemma_with_composition_within_limit(
        EngineView { ime_composing: true, ime_native_composing: false, ..state },
        hiragana_of(state.ime_fallback_romaji),
        now,
    );
}

proof fn lemma_key_keeps_limit(state: EngineView, ke: KeyEvent)
    requires
        state.within_limit(),
    ensures
        state.key_handled(ke).within_limit(),
        state.key_handled(ke).settings == state.settings,
{
    let vk = virtual_key(ke);
    if state.ignores(ke) {
    } else if toggles_ime(ke) {
        lemma_composition_dropped_len(
            EngineView { ime_fallback_enabled: false, ..state },
        );
    } else if state.consumes_as_romaji(ke) {
        lemma_fallback_shown_keeps_limit(
            EngineView {
                ime_fallback_romaji: state.ime_fallback_romaji.push(letter_typed(vk)),
                ..state
            },
            ke.timestamp,
        );
        lemma_fallback_shown_keeps_limit(
            EngineView {
                ime_fallback_romaji: if state.ime_fallback_romaji.len() > 0 {
                    state.ime_fallback_romaji.drop_last()
                } else {
                    state.ime_fallback_romaji
                },
                ..state
            },
            ke.timestamp,
        );
        lemma_composition_dropped_len(
            EngineView { ime_fallback_romaji: Seq::empty(), ..state },
        );
    } else if state.ime_composing && hidden_while_composing(ke) {
    } else if ke.action == KeyAction::Down {
        if KeyCode::modifier_code(ke.key.0) {
        } else {
            match state.fired_shortcut(ke) {
                Some(i) => {
                    let fired = state.settings.shortcuts[i];
                    lemma_with_item_within_limit(
                        state,
                        DisplayItemKindView::Shortcut {
                            keys_label: fired.keys,
                            action_label: fired.label,
                        },
                        ke.timestamp,
                    );
                },
                None => {
                    let counted = EngineView {
                        repeat: state.repeat.after_press(ke.key, ke.modifiers, ke.timestamp),
                        ..state
                    };
                    lemma_with_keystroke_within_limit(
                        counted,
                        state.shown_label(ke),
                        ke.modifiers,
                        KeyAction::Down,
                        ke.timestamp,
                    );
                    lemma_with_keystroke_within_limit(
                        state,
                        state.shown_label(ke),
                        ke.modifiers,
                        KeyAction::Down,
                        ke.timestamp,
                    );
                },
            }
        }
    } else {
        lemma_with_keystroke_within_limit(
            EngineView { presses: state.presses.remove(PressKey::of(ke)), ..state },
            state.shown_label(ke),
            ke.modifiers,
            KeyAction::Up,
            ke.timestamp,
        );
    }
}

/// Bounding, one tick at a time: a tick adds no item.
pub proof fn lemma_tick_keeps_limit(state: EngineView, now: u64)
    ensures
        state.tick(now).items.len() <= state.items.len(),
        state.tick(now).settings == state.settings,
        state.within_limit() ==> state.tick(now).within_limit(),
{
    state.items.map_values(|item: DisplayItemView| ticked(item, state.settings, now)).lemma_filter_len(
        |item: DisplayItemView| item.phase != DisplayPhase::Expired,
    );
}

/// Bounding: whatever events come in and however time passes, an engine
/// never has more items on show than its settings allow.
pub proof fn lemma_run_within_limit(settings: Settings, inputs: Seq<Input>)
    ensures
        EngineView::initial(settings).run(inputs).within_limit(),
        EngineView::initial(settings).run(inputs).settings == settings,
    decreases inputs.len(),
{
    if inputs.len() > 0 {
        lemma_run_within_limit(settings, inputs.drop_last());
        let before = EngineView::initial(settings).run(inputs.drop_last());
        match inputs.last() {
            Input::Event(event) => lemma_step_keeps_limit(before, event),
            Input::Tick(now) => lemma_tick_keeps_limit(before, now),
        }
    }
}

/// The opacity of a fading item is a fraction between 0 and 1.
pub proof fn lemma_fade_opacity_wf(settings: Settings, created_at: u64, now: u64)
    ensures
        fade_opacity(settings, created_at, now).wf(),
{
    let start = created_at + settings.display_duration_ms;
    let gone = if now >= start {
        now - start
    } else {
        0
    };
    let whole = settings.fade_duration_ms as int;
    if gone < whole {
        let left = whole - gone;
        assert(0 < left * left <= whole * whole <= u64::MAX * u64::MAX) by (nonlinear_arith)
            requires
                0 < left <= whole <= u64::MAX,
        ;
    }
}

/// Fade monotonicity: as time goes by, the opacity of a fading item
/// never rises.
pub proof fn lemma_fade_never_rises(settings: Settings, created_at: u64, earlier: u64, later: u64)
    requires
        earlier <= later,
    ensures
        fade_opacity(settings, created_at, later).at_most(
            fade_opacity(settings, created_at, earlier),
        ),
{
    let start = created_at + settings.display_duration_ms;
    let gone_earlier = if earlier >= start {
        earlier - start
    } else {
        0
    };
    let gone_later = if later >= start {
        later - start
    } else {
        0
    };
    let whole = settings.fade_duration_ms as int;
    if gone_later < whole {
        let left_earlier = whole - gone_earlier;
        let left_later = whole - gone_later;
        lemma_square_fits(left_earlier);
        lemma_square_fits(left_later);
        lemma_square_fits(whole);
        match settings.fade_out_curve {
            FadeOutCurve::Linear => {
                assert(left_later * whole <= left_earlier * whole) by (nonlinear_arith)
                    requires
                        0 < left_later <= left_earlier,
                        0 < whole,
                ;
            },
            FadeOutCurve::EaseOut => {
                assert((left_later * left_later) * (whole * whole) <= (left_earlier * left_earlier)
                    * (whole * whole)) by (nonlinear_arith)
                    requires
                        0 < left_later <= left_earlier,
                        0 < whole,
                ;
            },
        }
    } else {
        let shown = fade_opacity(settings, created_at, earlier);
        assert(0 * shown.den == 0) by (nonlinear_arith);
        assert(0 <= shown.num * 1) by (nonlinear_arith)
            requires
                0 <= shown.num,
        ;
    }
}

/// The square of a number that fits 64 bits fits 128 bits.
proof fn lemma_square_fits(n: int)
    requires
        0 <= n <= u64::MAX,
    ensures
        0 <= n * n <= u128::MAX,
        n > 0 ==> n * n > 0,
{
    assert(0 <= n * n <= 0xFFFF_FFFF_FFFF_FFFF * 0xFFFF_FFFF_FFFF_FFFF) by (nonlinear_arith)
        requires
            0 <= n <= 0xFFFF_FFFF_FFFF_FFFF,
    ;
    assert(n > 0 ==> n * n > 0) by (nonlinear_arith);
}

/// The opacity of a fading item reaches zero exactly when its fade is
/// over: at `created_at + display_duration_ms + fade_duration_ms`. (A fade
/// that takes no time is over as soon as it is looked at.)
pub proof fn lemma_fade_ends(settings: Settings, created_at: u64, now: u64)
    ensures
        now >= created_at + settings.display_duration_ms + settings.fade_duration_ms
            ==> fade_opacity(settings, created_at, now).is_zero(),
        settings.fade_duration_ms > 0 && fade_opacity(settings, created_at, now).is_zero() ==> now
            >= created_at + settings.display_duration_ms + settings.fade_duration_ms,
{
    let start = created_at + settings.display_duration_ms;
    let gone = if now >= start {
        now - start
    } else {
        0
    };
    let whole = settings.fade_duration_ms as int;
    if gone < whole {
        lemma_square_fits(whole - gone);
    }
}

/// Whether the ids of a list of items rise from each item to the next
/// and stay under `bound`.
pub open spec fn ids_rise(items: Seq<DisplayItemView>, bound: int) -> bool {
    &&& forall|i: int, j: int| 0 <= i < j < items.len() ==> items[i].id < items[j].id
    &&& forall|i: int| 0 <= i < items.len() ==> (#[trigger] items[i]).id < bound
}

/// Taking items out of a list whose ids rise leaves a list whose ids
/// rise, and brings in no id that was not there.
pub proof fn lemma_filter_ids_rise(
    items: Seq<DisplayItemView>,
    keep: spec_fn(DisplayItemView) -> bool,
    bound: int,
)
    requires
        ids_rise(items, bound),
    ensures
        ids_rise(items.filter(keep), bound),
        forall|k: int|
            0 <= k < items.filter(keep).len() ==> items.contains(#[trigger] items.filter(keep)[k]),
        forall|id: u64| has_id(items.filter(keep), id) ==> has_id(items, id),
        forall|i: int|
            0 <= i < items.len() && !keep(items[i]) ==> !has_id(
                items.filter(keep),
                (#[trigger] items[i]).id,
            ),
    decreases items.len(),
{
    reveal(Seq::filter);
    if items.len() > 0 {
        let head = items.drop_last();
        let last = items.last();
        assert(ids_rise(head, last.id as int)) by {
            assert forall|i: int| 0 <= i < head.len() implies (#[trigger] head[i]).id < last.id by {
                assert(items[i].id < items[items.len() - 1].id);
            }
            assert forall|i: int, j: int| 0 <= i < j < head.len() implies head[i].id < head[j].id by {
                assert(items[i].id < items[j].id);
            }
        }
        lemma_filter_ids_rise(head, keep, last.id as int);
        let kept = head.filter(keep);
        assert forall|k: int| 0 <= k < items.filter(keep).len() implies items.contains(
            #[trigger] items.filter(keep)[k],
        ) by {
            if k < kept.len() {
                assert(head.contains(kept[k]));
                let m = choose|m: int| 0 <= m < head.len() && head[m] == kept[k];
                assert(items[m] == kept[k]);
            } else {
                assert(items[items.len() - 1] == items.filter(keep)[k]);
            }
        }
        assert forall|id: u64| has_id(items.filter(keep), id) implies has_id(items, id) by {
            let k = choose|k: int| 0 <= k < items.filter(keep).len() && items.filter(keep)[k].id == id;
            if k < kept.len() {
                assert(kept[k].id == id);
                assert(has_id(kept, id));
                assert(has_id(head, id));
                let m = choose|m: int| 0 <= m < head.len() && head[m].id == id;
                assert(items[m].id == id);
            } else {
                assert(items[items.len() - 1].id == id);
            }
        }
        assert forall|i: int| 0 <= i < items.len() && !keep(items[i]) implies !has_id(
            items.filter(keep),
            (#[trigger] items[i]).id,
        ) by {
            if has_id(items.filter(keep), items[i].id) {
                let k = choose|k: int|
                    0 <= k < items.filter(keep).len() && items.filter(keep)[k].id == items[i].id;
                if k < kept.len() {
                    assert(kept[k].id < last.id);
                    if i < head.len() {
                        assert(head[i].id == items[i].id);
                        assert(has_id(kept, head[i].id));
                    } else {
                    }
                } else {
                    assert(keep(last));
                    assert(items[i].id < items[items.len() - 1].id || i == items.len() - 1);
                }
            }
        }
    }
}

/// What holds of every item on show: it has not expired, its opacity is
/// a fraction between 0 and 1, it is at full opacity while active, a key
/// stroke is counted at least once, and a group holds at least two key
/// strokes.
pub open spec fn item_sound(item: DisplayItemView) -> bool {
    &&& item.phase != DisplayPhase::Expired
    &&& item.opacity.wf()
    &&& item.phase == DisplayPhase::Active ==> item.opacity == Opacity::full()
    &&& item.kind matches DisplayItemKindView::KeyStroke { repeat_count, .. } ==> repeat_count >= 1
    &&& item.kind matches DisplayItemKindView::KeyStrokeGroup { strokes } ==> {
        &&& 2 <= strokes.len() <= usize::MAX
        &&& forall|i: int| 0 <= i < strokes.len() ==> (#[trigger] strokes[i]).repeat_count >= 1
    }
}

/// At most one item of a list shows a composition.
pub open spec fn lone_composition(items: Seq<DisplayItemView>) -> bool {
    forall|i: int, j: int|
        0 <= i < j < items.len() ==> !(is_composition(#[trigger] items[i]) && is_composition(
            #[trigger] items[j],
        ))
}

/// What holds of the list of items on show: the ids rise and stay under
/// `bound`, every item is sound, and at most one shows a composition.
pub open spec fn list_sound(items: Seq<DisplayItemView>, bound: int) -> bool {
    &&& ids_rise(items, bound)
    &&& forall|i: int| 0 <= i < items.len() ==> item_sound(#[trigger] items[i])
    &&& lone_composition(items)
}

impl EngineView {
    /// What holds of the items of an engine at all times: each has an id
    /// of its own, given in rising order and smaller than the next id to
    /// be given; none has expired; each is at full opacity while active;
    /// and at most one shows a composition.
    pub open spec fn sound(self) -> bool {
        list_sound(self.items, self.next_id as int)
    }

    /// Every key held down points at an item on show.
    pub open spec fn presses_live(self) -> bool {
        forall|key: PressKey| #[trigger]
            self.presses.contains_key(key) ==> has_id(self.items, self.presses[key].item_id)
    }
}

proof fn lemma_update_sound(items: Seq<DisplayItemView>, bound: int, i: int, item: DisplayItemView)
    requires
        list_sound(items, bound),
        0 <= i < items.len(),
        item.id == items[i].id,
        item_sound(item),
        is_composition(item) ==> is_composition(items[i]),
    ensures
        list_sound(items.update(i, item), bound),
        forall|id: u64| has_id(items.update(i, item), id) <==> has_id(items, id),
{
    let after = items.update(i, item);
    assert forall|a: int, b: int| 0 <= a < b < after.len() implies after[a].id < after[b].id by {
        assert(items[a].id < items[b].id);
    }
    assert forall|a: int| 0 <= a < after.len() implies (#[trigger] after[a]).id < bound by {
        assert(items[a].id < bound);
    }
    assert forall|a: int| 0 <= a < after.len() implies item_sound(#[trigger] after[a]) by {
        if a != i {
            assert(item_sound(items[a]));
        }
    }
    assert forall|a: int, b: int| 0 <= a < b < after.len() implies !(is_composition(
        #[trigger] after[a],
    ) && is_composition(#[trigger] after[b])) by {
        assert(!(is_composition(items[a]) && is_composition(items[b])));
    }
    assert forall|id: u64| has_id(after, id) <==> has_id(items, id) by {
        if has_id(after, id) {
            let k = choose|k: int| 0 <= k < after.len() && after[k].id == id;
            assert(items[k].id == id);
        }
        if has_id(items, id) {
            let k = choose|k: int| 0 <= k < items.len() && items[k].id == id;
            assert(after[k].id == id);
        }
    }
}

proof fn lemma_push_sound(items: Seq<DisplayItemView>, item: DisplayItemView)
    requires
        list_sound(items, item.id as int),
        item_sound(item),
        is_composition(item) ==> forall|i: int|
            0 <= i < items.len() ==> !is_composition(#[trigger] items[i]),
    ensures
        list_sound(items.push(item), item.id + 1),
{
    let after = items.push(item);
    assert forall|a: int, b: int| 0 <= a < b < after.len() implies after[a].id < after[b].id by {
        if b < items.len() {
            assert(items[a].id < items[b].id);
        } else {
            assert(items[a].id < item.id);
        }
    }
    assert forall|a: int| 0 <= a < after.len() implies (#[trigger] after[a]).id < item.id + 1 by {
        if a < items.len() {
            assert(items[a].id < item.id);
        }
    }
    assert forall|a: int| 0 <= a < after.len() implies item_sound(#[trigger] after[a]) by {
        if a < items.len() {
            assert(item_sound(items[a]));
        }
    }
    assert forall|a: int, b: int| 0 <= a < b < after.len() implies !(is_composition(
        #[trigger] after[a],
    ) && is_composition(#[trigger] after[b])) by {
        if b < items.len() {
            assert(!(is_composition(items[a]) && is_composition(items[b])));
        } else {
            assert(after[a] == items[a]);
        }
    }
}

proof fn lemma_newest_sound(items: Seq<DisplayItemView>, bound: int, n: int)
    requires
        list_sound(items, bound),
    ensures
        list_sound(newest(items, n), bound),
        forall|id: u64| has_id(newest(items, n), id) ==> has_id(items, id),
        n > 0 && items.len() > 0 ==> has_id(newest(items, n), items.last().id),
{
    let kept = newest(items, n);
    let skip = items.len() - kept.len();
    assert forall|a: int| 0 <= a < kept.len() implies kept[a] == items[a + skip] by {}
    assert forall|a: int, b: int| 0 <= a < b < kept.len() implies kept[a].id < kept[b].id by {
        assert(items[a + skip].id < items[b + skip].id);
    }
    assert forall|a: int| 0 <= a < kept.len() implies (#[trigger] kept[a]).id < bound by {
        assert(items[a + skip].id < bound);
    }
    assert forall|a: int| 0 <= a < kept.len() implies item_sound(#[trigger] kept[a]) by {
        assert(item_sound(items[a + skip]));
    }
    assert forall|a: int, b: int| 0 <= a < b < kept.len() implies !(is_composition(
        #[trigger] kept[a],
    ) && is_composition(#[trigger] kept[b])) by {
        assert(!(is_composition(items[a + skip]) && is_composition(items[b + skip])));
    }
    assert forall|id: u64| has_id(kept, id) implies has_id(items, id) by {
        let k = choose|k: int| 0 <= k < kept.len() && kept[k].id == id;
        assert(items[k + skip].id == id);
    }
    if n > 0 && items.len() > 0 {
        assert(kept[kept.len() - 1].id == items.last().id);
    }
}

proof fn lemma_filter_sound(
    items: Seq<DisplayItemView>,
    bound: int,
    keep: spec_fn(DisplayItemView) -> bool,
)
    requires
        ids_rise(items, bound),
        forall|i: int| 0 <= i < items.len() && keep(items[i]) ==> item_sound(#[trigger] items[i]),
        lone_composition(items),
    ensures
        list_sound(items.filter(keep), bound),
        forall|id: u64| has_id(items.filter(keep), id) ==> has_id(items, id),
{
    lemma_filter_ids_rise(items, keep, bound);
    let kept = items.filter(keep);
    assert forall|a: int| 0 <= a < kept.len() implies item_sound(#[trigger] kept[a]) by {
        items.lemma_filter_pred(keep, a);
        assert(items.contains(kept[a]));
        let m = choose|m: int| 0 <= m < items.len() && items[m] == kept[a];
        assert(item_sound(items[m]));
    }
    assert forall|a: int, b: int| 0 <= a < b < kept.len() implies !(is_composition(
        #[trigger] kept[a],
    ) && is_composition(#[trigger] kept[b])) by {
        assert(items.contains(kept[a]));
        assert(items.contains(kept[b]));
        let m = choose|m: int| 0 <= m < items.len() && items[m] == kept[a];
        let n = choose|n: int| 0 <= n < items.len() && items[n] == kept[b];
        assert(kept[a].id < kept[b].id);
        if m < n {
            assert(!(is_composition(items[m]) && is_composition(items[n])));
        } else if n < m {
            assert(!(is_composition(items[n]) && is_composition(items[m])));
        }
    }
}

/// Where a list has no first item that shows a composition, none of its
/// items shows one.
pub proof fn lemma_no_first_composition(items: Seq<DisplayItemView>)
    requires
        first_composition(items) is None,
    ensures
        forall|i: int| 0 <= i < items.len() ==> !is_composition(#[trigger] items[i]),
{
    assert forall|i: int| 0 <= i < items.len() implies !is_composition(#[trigger] items[i]) by {
        if is_composition(items[i]) {
            lemma_least_composition(items, i);
        }
    }
}

proof fn lemma_least_composition(items: Seq<DisplayItemView>, at: int)
    requires
        0 <= at < items.len(),
        is_composition(items[at]),
    ensures
        exists|i: int| is_first_composition(items, i),
    decreases at,
{
    if forall|j: int| 0 <= j < at ==> !is_composition(#[trigger] items[j]) {
        assert(is_first_composition(items, at));
    } else {
        let j = choose|j: int| 0 <= j < at && is_composition(#[trigger] items[j]);
        lemma_least_composition(items, j);
    }
}

/// The first item that shows a composition is an item that shows one.
pub proof fn lemma_first_composition_is_one(items: Seq<DisplayItemView>)
    requires
        first_composition(items) is Some,
    ensures
        is_first_composition(items, first_composition(items)->0),
{
}

/// A new item that is no group, and that is counted at least once if it
/// is a key stroke, keeps the items sound, as long as there is an id left
/// for it and it does not make a second composition.
pub proof fn lemma_with_item_sound(state: EngineView, kind: DisplayItemKindView, now: u64)
    requires
        state.sound(),
        state.next_id < u64::MAX,
        kind !is KeyStrokeGroup,
        kind matches DisplayItemKindView::KeyStroke { repeat_count, .. } ==> repeat_count >= 1,
        kind is ImeComposition ==> forall|i: int|
            0 <= i < state.items.len() ==> !is_composition(#[trigger] state.items[i]),
    ensures
        state.with_item(kind, now).sound(),
        state.with_item(kind, now).presses_live(),
        state.settings.max_items > 0 ==> has_id(state.with_item(kind, now).items, state.next_id),
{
    let item = DisplayItemView {
        id: state.next_id,
        kind,
        created_at: now,
        opacity: Opacity::full(),
        phase: DisplayPhase::Active,
    };
    lemma_push_sound(state.items, item);
    lemma_newest_sound(
        state.items.push(item),
        state.next_id + 1,
        state.settings.max_items as int,
    );
}

/// Taking the composition off show keeps the items sound, and leaves
/// every key held down pointing at an item on show.
pub proof fn lemma_composition_dropped_sound(state: EngineView)
    requires
        state.sound(),
    ensures
        state.composition_dropped().sound(),
        state.composition_dropped().presses_live(),
        state.composition_dropped().next_id == state.next_id,
{
    lemma_filter_sound(
        state.items,
        state.next_id as int,
        |item: DisplayItemView| !is_composition(item),
    );
}

/// Showing a composition keeps the items sound.
pub proof fn lemma_with_composition_sound(state: EngineView, text: Seq<char>, now: u64)
    requires
        state.sound(),
        state.next_id < u64::MAX,
    ensures
        state.with_composition(text, now).sound(),
        state.presses_live() ==> state.with_composition(text, now).presses_live(),
{
    match first_composition(state.items) {
        Some(i) => {
            lemma_first_composition_is_one(state.items);
            lemma_update_sound(
                state.items,
                state.next_id as int,
                i,
                state.items[i].with_kind(DisplayItemKindView::ImeComposition { text }).refreshed(
                    now,
                ),
            );
        },
        None => {
            lemma_no_first_composition(state.items);
            lemma_with_item_sound(state, DisplayItemKindView::ImeComposition { text }, now);
        },
    }
}

/// Showing a key stroke keeps the items sound, and the place where its
/// release is to be shown is an item on show, where the settings allow
/// an item at all.
pub proof fn lemma_with_keystroke_sound(
    state: EngineView,
    label: Seq<char>,
    modifiers: Modifiers,
    action: KeyAction,
    now: u64,
)
    requires
        state.sound(),
        state.next_id < u64::MAX,
    ensures
        state.with_keystroke(label, modifiers, action, now).0.sound(),
        state.presses_live() ==> state.with_keystroke(label, modifiers, action, now).0.presses_live(),
        state.settings.max_items > 0 ==> has_id(
            state.with_keystroke(label, modifiers, action, now).0.items,
            state.with_keystroke(label, modifiers, action, now).1.item_id,
        ),
{
    let (after, target) = state.with_keystroke(label, modifiers, action, now);
    lemma_with_item_sound(
        state,
        DisplayItemKindView::KeyStroke { label, modifiers, action, repeat_count: 1 },
        now,
    );
    if state.joins_last(now) {
        let last = state.items.last();
        let at = state.items.len() - 1;
        assert(item_sound(state.items[at]));
        match last.kind {
            DisplayItemKindView::KeyStroke { .. } => {
                lemma_update_sound(state.items, state.next_id as int, at, after.items[at]);
                assert(after.items[at].id == target.item_id);
            },
            DisplayItemKindView::KeyStrokeGroup { strokes } => {
                if strokes.len() < state.settings.max_group_size {
                    lemma_update_sound(state.items, state.next_id as int, at, after.items[at]);
                    assert(after.items[at].id == target.item_id);
                }
            },
            _ => {},
        }
    }
}

/// Counting a repeated press keeps the items sound, and the place where
/// the release is to be shown is an item on show.
pub proof fn lemma_with_repeat_sound(state: EngineView, count: u32, now: u64, force: bool)
    requires
        state.sound(),
        count >= 1,
        state.with_repeat(count, now, force) is Some,
    ensures
        state.with_repeat(count, now, force)->Some_0.0.sound(),
        state.with_repeat(count, now, force)->Some_0.0.next_id == state.next_id,
        state.presses_live() ==> state.with_repeat(count, now, force)->Some_0.0.presses_live(),
        has_id(
            state.with_repeat(count, now, force)->Some_0.0.items,
            state.with_repeat(count, now, force)->Some_0.1.item_id,
        ),
{
    let i = last_bumpable(state.items, force)->0;
    assert(is_last_bumpable(state.items, force, i));
    assert(item_sound(state.items[i]));
    let after = state.with_repeat(count, now, force)->Some_0.0;
    lemma_update_sound(state.items, state.next_id as int, i, bumped(state.items[i], count, now));
    assert(after.items[i].id == state.items[i].id);
}

/// Showing the release of a key keeps the items sound.
pub proof fn lemma_released_sound(state: EngineView, key: PressKey, now: u64)
    requires
        state.sound(),
    ensures
        state.released(key, now).sound(),
        state.released(key, now).next_id == state.next_id,
        state.presses_live() ==> state.released(key, now).presses_live(),
{
    if state.presses.contains_key(key) {
        let target = state.presses[key];
        match position_of(state.items, target.item_id) {
            Some(i) => {
                assert(is_position_of(state.items, target.item_id, i));
                assert(item_sound(state.items[i]));
                lemma_update_sound(
                    state.items,
                    state.next_id as int,
                    i,
                    release_shown(state.items[i], target.group_index, now),
                );
            },
            None => {},
        }
    }
}

proof fn lemma_fallback_shown_sound(state: EngineView, now: u64)
    requires
        state.sound(),
        state.next_id < u64::MAX,
    ensures
        state.with_fallback_shown(now).sound(),
        state.presses_live() ==> state.with_fallback_shown(now).presses_live(),
{
    lemma_composition_dropped_sound(state);
    lemma_with_composition_sound(
        EngineView { ime_composing: true, ime_native_composing: false, ..state },
        hiragana_of(state.ime_fallback_romaji),
        now,
    );
}

proof fn lemma_pressed_sound(state: EngineView, ke: KeyEvent)
    requires
        state.sound(),
        state.has_headroom(),
    ensures
        state.pressed(ke).sound(),
        state.presses_live() && state.settings.max_items > 0 ==> state.pressed(ke).presses_live(),
{
    if !KeyCode::modifier_code(ke.key.0) {
        match state.fired_shortcut(ke) {
            Some(i) => {
                let fired = state.settings.shortcuts[i];
                lemma_with_item_sound(
                    state,
                    DisplayItemKindView::Shortcut {
                        keys_label: fired.keys,
                        action_label: fired.label,
                    },
                    ke.timestamp,
                );
            },
            None => {
                let now = ke.timestamp;
                let counted = EngineView {
                    repeat: state.repeat.after_press(ke.key, ke.modifiers, now),
                    ..state
                };
                let count = state.repeat.next_count(ke.key, ke.modifiers, now) as u32;
                let force = state.settings.key_transition_mode == KeyTransitionMode::SingleCell;
                if counted.with_repeat(count, now, force) is Some {
                    lemma_with_repeat_sound(counted, count, now, force);
                }
                lemma_with_keystroke_sound(
                    counted,
                    state.shown_label(ke),
                    ke.modifiers,
                    KeyAction::Down,
                    now,
                );
                lemma_with_keystroke_sound(
                    state,
                    state.shown_label(ke),
                    ke.modifiers,
                    KeyAction::Down,
                    now,
                );
            },
        }
    }
}

proof fn lemma_key_sound(state: EngineView, ke: KeyEvent)
    requires
        state.sound(),
        state.has_headroom(),
    ensures
        state.key_handled(ke).sound(),
        state.presses_live() && state.settings.max_items > 0 ==> state.key_handled(
            ke,
        ).presses_live(),
{
    let vk = virtual_key(ke);
    if state.ignores(ke) {
    } else if toggles_ime(ke) {
        lemma_composition_dropped_sound(EngineView { ime_fallback_enabled: false, ..state });
    } else if state.consumes_as_romaji(ke) {
        lemma_fallback_shown_sound(
            EngineView {
                ime_fallback_romaji: state.ime_fallback_romaji.push(letter_typed(vk)),
                ..state
            },
            ke.timestamp,
        );
        lemma_fallback_shown_sound(
            EngineView {
                ime_fallback_romaji: if state.ime_fallback_romaji.len() > 0 {
                    state.ime_fallback_romaji.drop_last()
                } else {
                    state.ime_fallback_romaji
                },
                ..state
            },
            ke.timestamp,
        );
        lemma_composition_dropped_sound(EngineView { ime_fallback_romaji: Seq::empty(), ..state });
    } else if state.ime_composing && hidden_while_composing(ke) {
    } else if ke.action == KeyAction::Down {
        lemma_pressed_sound(state, ke);
    } else {
        lemma_released_sound(state, PressKey::of(ke), ke.timestamp);
        lemma_with_keystroke_sound(
            EngineView { presses: state.presses.remove(PressKey::of(ke)), ..state },
            state.shown_label(ke),
            ke.modifiers,
            KeyAction::Up,
            ke.timestamp,
        );
    }
}

/// An event keeps the items sound: ids stay distinct and in rising
/// order, no expired item is on show, and at most one item shows a
/// composition. Where the settings allow an item at all, it also leaves
/// every key held down pointing at an item on show.
pub proof fn lemma_step_sound(state: EngineView, event: InputEvent)
    requires
        state.sound(),
        state.has_headroom(),
    ensures
        state.step(event).sound(),
        state.presses_live() && state.settings.max_items > 0 ==> state.step(event).presses_live(),
{
    match event {
        InputEvent::Key(ke) => {
            lemma_key_sound(state, ke);
        },
        InputEvent::Mouse(me) => {
            match me.action {
                MouseAction::Up => {},
                MouseAction::Down => {
                    lemma_with_item_sound(
                        state,
                        DisplayItemKindView::KeyStroke {
                            label: button_label(me.button),
                            modifiers: Modifiers::none(),
                            action: KeyAction::Down,
                            repeat_count: 1,
                        },
                        me.timestamp,
                    );
                },
                MouseAction::Wheel(delta) => {
                    lemma_with_item_sound(
                        state,
                        DisplayItemKindView::KeyStroke {
                            label: wheel_label(delta),
                            modifiers: Modifiers::none(),
                            action: KeyAction::Down,
                            repeat_count: 1,
                        },
                        me.timestamp,
                    );
                },
            }
        },
        InputEvent::Ime(ie) => {
            lemma_composition_dropped_sound(state);
            match ie.kind {
                ImeEventKind::CompositionUpdate { text } => {
                    lemma_with_composition_sound(
                        EngineView {
                            ime_composing: true,
                            ime_native_composing: true,
                            ime_fallback_romaji: Seq::empty(),
                            ..state
                        },
                        text@,
                        ie.timestamp,
                    );
                },
                _ => {},
            }
        },
        InputEvent::Clipboard(ce) => {
            lemma_with_item_sound(
                state,
                DisplayItemKindView::ClipboardPreview {
                    text: clipboard_text(ce.content, state.settings.clipboard_max_chars),
                },
                ce.timestamp,
            );
        },
        InputEvent::LockState(ls) => {
            lemma_with_item_sound(
                state,
                DisplayItemKindView::LockIndicator {
                    caps: ls.caps_lock,
                    num: ls.num_lock,
                    scroll: ls.scroll_lock,
                },
                ls.timestamp,
            );
        },
        InputEvent::DpiChanged { .. } => {},
        InputEvent::ConfigChanged => {},
    }
}

/// A tick keeps the items sound, and leaves every key held down pointing
/// at an item on show.
pub proof fn lemma_tick_sound(state: EngineView, now: u64)
    requires
        state.sound(),
    ensures
        state.tick(now).sound(),
        state.tick(now).presses_live(),
        state.tick(now).next_id == state.next_id,
        forall|id: u64| has_id(state.tick(now).items, id) ==> has_id(state.items, id),
{
    let brought = state.items.map_values(|item: DisplayItemView| ticked(item, state.settings, now));
    assert forall|i: int| 0 <= i < brought.len() implies (#[trigger] brought[i]).id
        == state.items[i].id && brought[i].kind == state.items[i].kind && (brought[i].phase
        != DisplayPhase::Expired ==> item_sound(brought[i])) by {
        assert(item_sound(state.items[i]));
        lemma_fade_opacity_wf(state.settings, state.items[i].created_at, now);
    }
    assert(ids_rise(brought, state.next_id as int)) by {
        assert forall|a: int, b: int| 0 <= a < b < brought.len() implies brought[a].id
            < brought[b].id by {
            assert(state.items[a].id < state.items[b].id);
        }
        assert forall|a: int| 0 <= a < brought.len() implies (#[trigger] brought[a]).id
            < state.next_id by {
            assert(state.items[a].id < state.next_id);
        }
    }
    assert(lone_composition(brought)) by {
        assert forall|a: int, b: int| 0 <= a < b < brought.len() implies !(is_composition(
            #[trigger] brought[a],
        ) && is_composition(#[trigger] brought[b])) by {
            assert(!(is_composition(state.items[a]) && is_composition(state.items[b])));
        }
    }
    lemma_filter_sound(
        brought,
        state.next_id as int,
        |item: DisplayItemView| item.phase != DisplayPhase::Expired,
    );
    assert forall|id: u64| has_id(state.tick(now).items, id) implies has_id(state.items, id) by {
        assert(has_id(brought, id));
        let k = choose|k: int| 0 <= k < brought.len() && brought[k].id == id;
        assert(state.items[k].id == id);
    }
}

/// An item that has faded out leaves: after a tick at or after the time
/// at which the fade of a fading item is over, the item is no longer on
/// show.
pub proof fn lemma_faded_item_leaves(state: EngineView, i: int, now: u64)
    requires
        state.sound(),
        0 <= i < state.items.len(),
        state.items[i].phase == DisplayPhase::FadingOut,
        now >= state.items[i].created_at + state.settings.display_duration_ms
            + state.settings.fade_duration_ms,
    ensures
        !has_id(state.tick(now).items, state.items[i].id),
{
    let brought = state.items.map_values(|item: DisplayItemView| ticked(item, state.settings, now));
    lemma_fade_ends(state.settings, state.items[i].created_at, now);
    assert(brought[i].phase == DisplayPhase::Expired);
    assert(ids_rise(brought, state.next_id as int)) by {
        assert forall|a: int, b: int| 0 <= a < b < brought.len() implies brought[a].id
            < brought[b].id by {
            assert(state.items[a].id < state.items[b].id);
        }
        assert forall|a: int| 0 <= a < brought.len() implies (#[trigger] brought[a]).id
            < state.next_id by {
            assert(state.items[a].id < state.next_id);
        }
    }
    lemma_filter_ids_rise(
        brought,
        |item: DisplayItemView| item.phase != DisplayPhase::Expired,
        state.next_id as int,
    );
    assert(brought[i].id == state.items[i].id);
}

/// A fresh engine is sound, and so is one that was cleared or given
/// other settings.
pub proof fn lemma_sound_at_rest(state: EngineView, settings: Settings)
    ensures
        EngineView::initial(settings).sound(),
        EngineView::initial(settings).presses_live(),
        state.cleared().sound(),
        state.cleared().presses_live(),
        state.sound() ==> state.reconfigured(settings).sound(),
        state.reconfigured(settings).presses_live(),
{
}

/// What the place of a press shows: the action of the key stroke that a
/// target points at, if it points at one.
pub open spec fn shown_action(items: Seq<DisplayItemView>, target: PressTarget) -> Option<
    KeyAction,
> {
    match position_of(items, target.item_id) {
        Some(i) => match items[i].kind {
            DisplayItemKindView::KeyStroke { action, .. } => match target.group_index {
                Some(_) => None,
                None => Some(action),
            },
            DisplayItemKindView::KeyStrokeGroup { strokes } => match target.group_index {
                Some(index) => if index < strokes.len() {
                    Some(strokes[index as int].action)
                } else {
                    None
                },
                None => None,
            },
            _ => None,
        },
        None => None,
    }
}

/// In a list whose ids rise, an item is the first with its id.
pub proof fn lemma_position_of_unique(items: Seq<DisplayItemView>, bound: int, i: int)
    requires
        ids_rise(items, bound),
        0 <= i < items.len(),
    ensures
        position_of(items, items[i].id) == Some(i),
{
    let id = items[i].id;
    assert(is_position_of(items, id, i)) by {
        assert forall|j: int| 0 <= j < i implies (#[trigger] items[j]).id != id by {
            assert(items[j].id < items[i].id);
        }
    }
    let found = choose|k: int| is_position_of(items, id, k);
    assert(is_position_of(items, id, found));
    if found < i {
        assert(items[found].id < items[i].id);
    }
    if found > i {
        assert(items[i].id < items[found].id);
    }
}

proof fn lemma_with_keystroke_shows(
    state: EngineView,
    label: Seq<char>,
    modifiers: Modifiers,
    action: KeyAction,
    now: u64,
)
    requires
        state.sound(),
        state.next_id < u64::MAX,
        state.settings.max_items > 0,
    ensures
        shown_action(
            state.with_keystroke(label, modifiers, action, now).0.items,
            state.with_keystroke(label, modifiers, action, now).1,
        ) == Some(action),
{
    let (after, target) = state.with_keystroke(label, modifiers, action, now);
    lemma_with_keystroke_sound(state, label, modifiers, action, now);
    let kind = DisplayItemKindView::KeyStroke { label, modifiers, action, repeat_count: 1 };
    let item = DisplayItemView {
        id: state.next_id,
        kind,
        created_at: now,
        opacity: Opacity::full(),
        phase: DisplayPhase::Active,
    };
    let joined = state.joins_last(now) && match state.items.last().kind {
        DisplayItemKindView::KeyStroke { .. } => true,
        DisplayItemKindView::KeyStrokeGroup { strokes } => strokes.len()
            < state.settings.max_group_size,
        _ => false,
    };
    if joined {
        let at = state.items.len() - 1;
        assert(after.items[at].id == target.item_id);
        lemma_position_of_unique(after.items, after.next_id as int, at);
    } else {
        let pushed = state.items.push(item);
        let kept = newest(pushed, state.settings.max_items as int);
        assert(after.items == kept);
        let at = kept.len() - 1;
        assert(kept[at] == item);
        lemma_position_of_unique(after.items, after.next_id as int, at);
    }
}

/// Single-cell press symmetry: where a press and its release share an
/// item, a key press that is shown as a key stroke and the release of
/// the same physical key change one and the same item. After the press
/// the key is held down and its place shows a press; the release adds
/// and removes no item, leaves every id where it is, and makes that
/// place show a release.
pub proof fn lemma_press_and_release_share_item(state: EngineView, down: KeyEvent, up: KeyEvent)
    requires
        state.sound(),
        state.has_headroom(),
        state.settings.key_transition_mode == KeyTransitionMode::SingleCell,
        state.settings.max_items > 0,
        down.action == KeyAction::Down,
        up.action == KeyAction::Up,
        PressKey::of(down) == PressKey::of(up),
        !KeyCode::modifier_code(down.key.0),
        !KeyCode::modifier_code(up.key.0),
        state.fired_shortcut(down) is None,
    ensures
        ({
            let key = PressKey::of(down);
            let pressed = state.pressed(down);
            let lifted = pressed.lifted(up);
            &&& pressed.presses.contains_key(key)
            &&& shown_action(pressed.items, pressed.presses[key]) == Some(KeyAction::Down)
            &&& !lifted.presses.contains_key(key)
            &&& lifted.items.len() == pressed.items.len()
            &&& forall|j: int|
                0 <= j < pressed.items.len() ==> (#[trigger] lifted.items[j]).id
                    == pressed.items[j].id
            &&& shown_action(lifted.items, pressed.presses[key]) == Some(KeyAction::Up)
        }),
{
    let key = PressKey::of(down);
    let now = down.timestamp;
    let pressed = state.pressed(down);
    let (shown, target) = state.with_press_shown(down);
    assert(pressed.items == shown.items);
    assert(pressed.presses[key] == target);
    lemma_pressed_sound(state, down);
    // The place of the press shows a press.
    let counted = EngineView {
        repeat: state.repeat.after_press(down.key, down.modifiers, now),
        ..state
    };
    let count = state.repeat.next_count(down.key, down.modifiers, now) as u32;
    if state.settings.show_repeat_count {
        if count > 1 && counted.with_repeat(count, now, true) is Some {
            let i = last_bumpable(counted.items, true)->0;
            assert(is_last_bumpable(counted.items, true, i));
            lemma_with_repeat_sound(counted, count, now, true);
            lemma_position_of_unique(shown.items, shown.next_id as int, i);
            assert(item_sound(counted.items[i]));
        } else {
            lemma_with_keystroke_shows(
                counted,
                state.shown_label(down),
                down.modifiers,
                KeyAction::Down,
                now,
            );
        }
    } else {
        lemma_with_keystroke_shows(
            state,
            state.shown_label(down),
            down.modifiers,
            KeyAction::Down,
            now,
        );
    }
    assert(shown_action(pressed.items, target) == Some(KeyAction::Down));
    // The release changes that place, and nothing else about the list.
    let lifted = pressed.lifted(up);
    let at = position_of(pressed.items, target.item_id)->0;
    assert(is_position_of(pressed.items, target.item_id, at));
    let changed = release_shown(pressed.items[at], target.group_index, up.timestamp);
    assert(lifted.items == pressed.items.update(at, changed));
    assert(changed.id == pressed.items[at].id);
    assert(item_sound(pressed.items[at]));
    lemma_update_sound(pressed.items, pressed.next_id as int, at, changed);
    lemma_position_of_unique(lifted.items, pressed.next_id as int, at);
}

/// A key typed without modifiers: its label and the time of the press.
pub struct TypedKey {
    pub label: Seq<char>,
    pub at: u64,
}

/// The key strokes that a run of typed keys is shown as.
pub open spec fn strokes_typed(keys: Seq<TypedKey>) -> Seq<KeyStrokeEntryView> {
    Seq::new(
        keys.len(),
        |i: int|
            KeyStrokeEntryView {
                label: keys[i].label,
                modifiers: Modifiers::none(),
                action: KeyAction::Down,
                repeat_count: 1,
            },
    )
}

/// What one item shows of a run of typed keys: a key stroke for a single
/// key, a group for more.
pub open spec fn shown_typed(keys: Seq<TypedKey>) -> DisplayItemKindView {
    if keys.len() == 1 {
        DisplayItemKindView::KeyStroke {
            label: keys[0].label,
            modifiers: Modifiers::none(),
            action: KeyAction::Down,
            repeat_count: 1,
        }
    } else {
        DisplayItemKindView::KeyStrokeGroup { strokes: strokes_typed(keys) }
    }
}

/// Whether each of the keys but the first is typed less than `timeout_ms`
/// after the one before it.
pub open spec fn typed_quickly(keys: Seq<TypedKey>, timeout_ms: u64) -> bool {
    forall|i: int| 0 < i < keys.len() ==> elapsed((#[trigger] keys[i]).at, keys[i - 1].at) < timeout_ms
}

impl EngineView {
    /// The state after the keys were shown as key strokes, one after the
    /// other.
    pub open spec fn with_keys(self, keys: Seq<TypedKey>) -> EngineView
        decreases keys.len(),
    {
        if keys.len() == 0 {
            self
        } else {
            self.with_keys(keys.drop_last()).with_keystroke(
                keys.last().label,
                Modifiers::none(),
                KeyAction::Down,
                keys.last().at,
            ).0
        }
    }
}

/// Grouping: keys typed in quick succession on an empty list, no more of
/// them than a group holds, are shown in one item: a group of their key
/// strokes in the order typed (a key stroke where there is one key only),
/// whose time to live starts with the last key.
pub proof fn lemma_quick_keys_share_an_item(state: EngineView, keys: Seq<TypedKey>)
    requires
        state.items.len() == 0,
        state.next_id < u64::MAX,
        state.settings.max_items >= 1,
        state.settings.group_timeout_ms > 0,
        1 <= keys.len() <= state.settings.max_group_size,
        typed_quickly(keys, state.settings.group_timeout_ms),
    ensures
        state.with_keys(keys).items.len() == 1,
        state.with_keys(keys).items[0].kind == shown_typed(keys),
        state.with_keys(keys).items[0].id == state.next_id,
        state.with_keys(keys).items[0].created_at == keys.last().at,
        state.with_keys(keys).items[0].phase == DisplayPhase::Active,
        state.with_keys(keys).settings == state.settings,
        state.with_keys(keys).next_id == state.next_id + 1,
    decreases keys.len(),
{
    let earlier = keys.drop_last();
    let last = keys.last();
    if keys.len() == 1 {
        assert(earlier.len() == 0);
        assert(state.with_keys(earlier) == state);
        let item = DisplayItemView {
            id: state.next_id,
            kind: shown_typed(keys),
            created_at: last.at,
            opacity: Opacity::full(),
            phase: DisplayPhase::Active,
        };
        assert(state.items.push(item).len() == 1);
        assert(newest(state.items.push(item), state.settings.max_items as int)
            == state.items.push(item));
    } else {
        assert(typed_quickly(earlier, state.settings.group_timeout_ms)) by {
            assert forall|i: int| 0 < i < earlier.len() implies elapsed(
                (#[trigger] earlier[i]).at,
                earlier[i - 1].at,
            ) < state.settings.group_timeout_ms by {
                assert(elapsed(keys[i].at, keys[i - 1].at) < state.settings.group_timeout_ms);
            }
        }
        lemma_quick_keys_share_an_item(state, earlier);
        let before = state.with_keys(earlier);
        assert(earlier.last() == keys[keys.len() - 2]);
        assert(elapsed(keys[keys.len() - 1].at, keys[keys.len() - 2].at)
            < state.settings.group_timeout_ms);
        assert(before.joins_last(last.at));
        assert(before.items.last() == before.items[0]);
        let stroke = KeyStrokeEntryView {
            label: last.label,
            modifiers: Modifiers::none(),
            action: KeyAction::Down,
            repeat_count: 1,
        };
        if earlier.len() == 1 {
            assert(strokes_typed(keys) =~= seq![strokes_typed(earlier)[0], stroke]);
            assert(earlier[0] == keys[0]);
        } else {
            assert(strokes_typed(keys) =~= strokes_typed(earlier).push(stroke));
        }
    }
}

/// Grouping: a key typed when the last item is a group that is full gets
/// an item of its own, even if it comes in time to join.
pub proof fn lemma_full_group_takes_no_key(
    state: EngineView,
    label: Seq<char>,
    modifiers: Modifiers,
    action: KeyAction,
    now: u64,
)
    requires
        state.items.len() > 0,
        state.items.last().kind matches DisplayItemKindView::KeyStrokeGroup { strokes }
            && strokes.len() >= state.settings.max_group_size,
    ensures
        state.with_keystroke(label, modifiers, action, now).0 == state.with_item(
            DisplayItemKindView::KeyStroke { label, modifiers, action, repeat_count: 1 },
            now,
        ),
        state.with_keystroke(label, modifiers, action, now).1 == (PressTarget {
            item_id: state.next_id,
            group_index: None,
        }),
{
}

} // verus!
