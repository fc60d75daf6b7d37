use vstd::prelude::*;

use crate::event::Modifiers;
use crate::key::KeyCode;

verus! {

/// The time from `then` to `now` in milliseconds, and zero where `now` is
/// the earlier of the two.
pub open spec fn elapsed(now: u64, then: u64) -> u64 {
    if now >= then {
        (now - then) as u64
    } else {
        0
    }
}

/// The time from `then` to `now` in milliseconds, at least zero.
pub fn elapsed_ms(now: u64, then: u64) -> (ms: u64)
    ensures
        ms == elapsed(now, then),
{
    if now >= then {
        now - then
    } else {
        0
    }
}

/// Counts how often in a row the same key was pressed with the same
/// modifiers, each press no later than `timeout_ms` after the one before.
#[derive(Debug, Clone, Copy)]
pub struct RepeatTracker {
    pub last_key: Option<KeyCode>,
    pub last_modifiers: Modifiers,
    pub count: u32,
    pub last_time: u64,
    pub timeout_ms: u64,
}

impl RepeatTracker {
    /// A tracker that has seen no press yet.
    pub open spec fn fresh(timeout_ms: u64) -> RepeatTracker {
        RepeatTracker {
            last_key: None,
            last_modifiers: Modifiers::none(),
            count: 0,
            last_time: 0,
            timeout_ms,
        }
    }

    /// Whether a press of `key` with `modifiers` at `now` repeats the
    /// press before it.
    pub open spec fn repeats(self, key: KeyCode, modifiers: Modifiers, now: u64) -> bool {
        &&& self.last_key == Some(key)
        &&& self.last_modifiers == modifiers
        &&& elapsed(now, self.last_time) <= self.timeout_ms
    }

    /// The count that a press of `key` with `modifiers` at `now` brings:
    /// one more than before if it repeats the press before it, else one.
    pub open spec fn next_count(self, key: KeyCode, modifiers: Modifiers, now: u64) -> int {
        if self.repeats(key, modifiers, now) {
            self.count + 1
        } else {
            1
        }
    }

    /// The tracker after a press of `key` with `modifiers` at `now`.
    pub open spec fn after_press(self, key: KeyCode, modifiers: Modifiers, now: u64) -> RepeatTracker {
        RepeatTracker {
            last_key: Some(key),
            last_modifiers: modifiers,
            count: self.next_count(key, modifiers, now) as u32,
            last_time: now,
            timeout_ms: self.timeout_ms,
        }
    }

    /// A tracker that has seen no press yet.
    pub fn new(timeout_ms: u64) -> (tracker: RepeatTracker)
        ensures
            tracker == RepeatTracker::fresh(timeout_ms),
    {
        RepeatTracker {
            last_key: None,
            last_modifiers: Modifiers { ctrl: false, shift: false, alt: false, win: false },
            count: 0,
            last_time: 0,
            timeout_ms,
        }
    }

    /// Takes note of a press and says how often the key has now been
    /// pressed in a row.
    pub fn track(&mut self, key: KeyCode, modifiers: Modifiers, now: u64) -> (count: u32)
        requires
            old(self).count < u32::MAX,
        ensures
            *final(self) == old(self).after_press(key, modifiers, now),
            count == old(self).next_count(key, modifiers, now),
            count >= 1,
    {
        let same_key = match self.last_key {
            Some(last) => last.0 == key.0,
            None => false,
        };
        if same_key && modifiers == self.last_modifiers && elapsed_ms(now, self.last_time)
            <= self.timeout_ms {
            self.count = self.count + 1;
        } else {
            self.count = 1;
        }
        self.last_key = Some(key);
        self.last_modifiers = modifiers;
        self.last_time = now;
        self.count
    }
}

impl RepeatTracker {
    /// The tracker after presses of one key with the same modifiers at the
    /// times `times`, one after the other.
    pub open spec fn after_presses(
        self,
        key: KeyCode,
        modifiers: Modifiers,
        times: Seq<u64>,
    ) -> RepeatTracker
        decreases times.len(),
    {
        if times.len() == 0 {
            self
        } else {
            self.after_presses(key, modifiers, times.drop_last()).after_press(
                key,
                modifiers,
                times.last(),
            )
        }
    }
}

/// Whether each of the times but the first is no later than `timeout_ms`
/// after the one before it.
pub open spec fn in_quick_succession(times: Seq<u64>, timeout_ms: u64) -> bool {
    forall|i: int| 0 < i < times.len() ==> elapsed(#[trigger] times[i], times[i - 1]) <= timeout_ms
}

/// Repeat counting: a key pressed several times with the same modifiers,
/// each press no later than the timeout after the one before, is counted
/// as often as it was pressed. The first press starts the count.
pub proof fn lemma_repeats_count_up(
    tracker: RepeatTracker,
    key: KeyCode,
    modifiers: Modifiers,
    times: Seq<u64>,
)
    requires
        1 <= times.len() <= u32::MAX,
        !tracker.repeats(key, modifiers, times[0]),
        in_quick_succession(times, tracker.timeout_ms),
    ensures
        tracker.after_presses(key, modifiers, times).count == times.len(),
        tracker.after_presses(key, modifiers, times).last_key == Some(key),
        tracker.after_presses(key, modifiers, times).last_modifiers == modifiers,
        tracker.after_presses(key, modifiers, times).last_time == times.last(),
        tracker.after_presses(key, modifiers, times).timeout_ms == tracker.timeout_ms,
    decreases times.len(),
{
    let earlier = times.drop_last();
    if times.len() == 1 {
        assert(earlier.len() == 0);
        assert(tracker.after_presses(key, modifiers, earlier) == tracker);
    } else {
        assert(in_quick_succession(earlier, tracker.timeout_ms)) by {
            assert forall|i: int| 0 < i < earlier.len() implies elapsed(
                #[trigger] earlier[i],
                earlier[i - 1],
            ) <= tracker.timeout_ms by {
                assert(elapsed(times[i], times[i - 1]) <= tracker.timeout_ms);
            }
        }
        assert(earlier[0] == times[0]);
        lemma_repeats_count_up(tracker, key, modifiers, earlier);
        assert(earlier.last() == times[times.len() - 2]);
        assert(elapsed(times[times.len() - 1], times[times.len() - 2]) <= tracker.timeout_ms);
    }
}

/// Repeat counting: a press later than the timeout after the press before
/// it starts a new count.
pub proof fn lemma_late_press_counts_from_one(
    tracker: RepeatTracker,
    key: KeyCode,
    modifiers: Modifiers,
    now: u64,
)
    requires
        elapsed(now, tracker.last_time) > tracker.timeout_ms,
    ensures
        tracker.after_press(key, modifiers, now).count == 1,
{
}

} // verus!
