use vstd::prelude::*;

use crate::event::{ImeEvent, ImeEventKind, InputEvent};

verus! {

/// What one window reports of its input method.
#[derive(Debug, Clone)]
pub struct ImeReading {
    /// Whether the input method is switched on.
    pub open: bool,
    /// The text being composed, if the window has any to report.
    pub composition: Option<String>,
}

impl ImeReading {
    /// The text being composed, and the empty text where none is reported.
    pub open spec fn text(&self) -> Seq<char> {
        match self.composition {
            Some(text) => text@,
            None => Seq::empty(),
        }
    }
}

/// Whether any of the windows reports its input method switched on.
pub open spec fn any_open(readings: Seq<ImeReading>) -> bool {
    exists|i: int| 0 <= i < readings.len() && (#[trigger] readings[i]).open
}

/// The first text being composed that is not empty, and the empty text
/// where every window reports none.
pub open spec fn first_text(readings: Seq<ImeReading>) -> Seq<char>
    decreases readings.len(),
{
    if readings.len() == 0 {
        Seq::empty()
    } else if first_text(readings.drop_last()).len() > 0 {
        first_text(readings.drop_last())
    } else {
        readings.last().text()
    }
}

/// A change of the input method that is worth an event.
pub enum ImeChange {
    /// It was switched on or off.
    Switched { enabled: bool },
    /// The text being composed is now this, which is not empty.
    Composing { text: Seq<char> },
    /// No text is being composed any more; `result` is what was committed.
    Ended { result: Seq<char> },
}

/// The change that an event tells of, and its time; nothing for an event
/// that does not come from the input method.
pub open spec fn change_of(event: InputEvent) -> Option<(ImeChange, u64)> {
    match event {
        InputEvent::Ime(ie) => Some(
            (
                match ie.kind {
                    ImeEventKind::StateChanged { enabled } => ImeChange::Switched { enabled },
                    ImeEventKind::CompositionUpdate { text } => ImeChange::Composing { text: text@ },
                    ImeEventKind::CompositionEnd { result } => ImeChange::Ended { result: result@ },
                },
                ie.timestamp,
            ),
        ),
        _ => None,
    }
}

/// The changes that a list of events tells of.
pub open spec fn changes_of(events: Seq<InputEvent>) -> Seq<Option<(ImeChange, u64)>> {
    Seq::new(events.len(), |i: int| change_of(events[i]))
}

/// What was last seen of the input method.
pub struct ImePoller {
    prev_open: bool,
    prev_composition: String,
}

/// What a poller remembers.
pub struct ImePollerView {
    pub open: bool,
    pub composition: Seq<char>,
}

impl View for ImePoller {
    type V = ImePollerView;

    closed spec fn view(&self) -> ImePollerView {
        ImePollerView { open: self.prev_open, composition: self.prev_composition@ }
    }
}

impl ImePollerView {
    /// What is remembered after a look at the windows: nothing new where
    /// there is no window to look at, else what they report.
    pub open spec fn after(self, readings: Seq<ImeReading>) -> ImePollerView {
        if readings.len() == 0 {
            self
        } else {
            ImePollerView { open: any_open(readings), composition: first_text(readings) }
        }
    }

    /// The changes that a look at the windows brings to light, in the
    /// order in which they are reported: first that the input method was
    /// switched, then that the text being composed is another. The end of
    /// a composition is reported without a committed text.
    pub open spec fn changes(self, readings: Seq<ImeReading>, now: u64) -> Seq<
        Option<(ImeChange, u64)>,
    > {
        if readings.len() == 0 {
            Seq::empty()
        } else {
            let open = any_open(readings);
            let text = first_text(readings);
            let switched = if open != self.open {
                seq![Some((ImeChange::Switched { enabled: open }, now))]
            } else {
                Seq::empty()
            };
            let composed = if text != self.composition {
                if text.len() == 0 {
                    seq![Some((ImeChange::Ended { result: Seq::empty() }, now))]
                } else {
                    seq![Some((ImeChange::Composing { text }, now))]
                }
            } else {
                Seq::empty()
            };
            switched + composed
        }
    }
}

/// What the windows report taken together: whether any has its input
/// method on, and the first text being composed.
fn summarize(readings: &Vec<ImeReading>) -> (summary: (bool, String))
    ensures
        summary.0 == any_open(readings@),
        summary.1@ == first_text(readings@),
{
    let mut open = false;
    let mut text = String::new();
    let mut i: usize = 0;
    while i < readings.len()
        invariant
            i <= readings@.len(),
            open == any_open(readings@.subrange(0, i as int)),
            text@ == first_text(readings@.subrange(0, i as int)),
        decreases readings@.len() - i,
    {
        let ghost upto = readings@.subrange(0, i + 1);
        proof {
            assert(upto.drop_last() == readings@.subrange(0, i as int));
            assert(upto.last() == readings@[i as int]);
            if any_open(upto.drop_last()) {
                let k = choose|k: int| 0 <= k < i && (#[trigger] upto.drop_last()[k]).open;
                assert(upto[k].open);
            }
            if any_open(upto) {
                let k = choose|k: int| 0 <= k < i + 1 && (#[trigger] upto[k]).open;
                if k < i {
                    assert(upto.drop_last()[k].open);
                }
            }
        }
        if readings[i].open {
            open = true;
            assert(upto[i as int].open);
        }
        if text.as_str().is_empty() {
            if let Some(found) = &readings[i].composition {
                if !found.as_str().is_empty() {
                    text = found.clone();
                }
            }
        }
        i += 1;
    }
    assert(readings@.subrange(0, readings@.len() as int) == readings@);
    (open, text)
}

impl ImePoller {
    /// A poller that has seen the input method off and composing nothing.
    pub fn new() -> (poller: ImePoller)
        ensures
            poller@ == (ImePollerView { open: false, composition: Seq::empty() }),
    {
        ImePoller { prev_open: false, prev_composition: String::new() }
    }
}

/// Compares what the windows report at `now` with what was seen last, and
/// gives the events that tell of the changes.
pub fn poll_ime_state(poller: &mut ImePoller, readings: &Vec<ImeReading>, now: u64) -> (events: Vec<
    InputEvent,
>)
    ensures
        final(poller)@ == old(poller)@.after(readings@),
        changes_of(events@) == old(poller)@.changes(readings@, now),
{
    let mut events: Vec<InputEvent> = Vec::new();
    if readings.len() == 0 {
        assert(changes_of(events@) =~= Seq::empty());
        return events;
    }
    let (open, text) = summarize(readings);
    if open != poller.prev_open {
        poller.prev_open = open;
        events.push(
            InputEvent::Ime(
                ImeEvent { kind: ImeEventKind::StateChanged { enabled: open }, timestamp: now },
            ),
        );
    }
    if text != poller.prev_composition {
        let kind = if text.as_str().is_empty() {
            ImeEventKind::CompositionEnd { result: String::new() }
        } else {
            ImeEventKind::CompositionUpdate { text: text.clone() }
        };
        events.push(InputEvent::Ime(ImeEvent { kind, timestamp: now }));
    }
    poller.prev_composition = text;
    assert(changes_of(events@) =~= old(poller)@.changes(readings@, now));
    events
}

} // verus!
