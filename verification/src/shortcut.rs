use vstd::prelude::*;

use crate::event::{KeyAction, KeyEvent, Modifiers};
use crate::key::KeyCode;
use crate::text::{spells, split_on};

verus! {

/// What a shortcut text asks for: the modifiers it names, and the key.
pub struct Chord {
    pub modifiers: Modifiers,
    pub key: Option<Seq<char>>,
}

impl Chord {
    /// The chord with one more part of the text taken in: the name of a
    /// modifier asks for that modifier, anything else is the key and
    /// replaces a key named before.
    pub open spec fn with_part(self, part: Seq<char>) -> Chord {
        if part == "Ctrl"@ {
            Chord { modifiers: Modifiers { ctrl: true, ..self.modifiers }, ..self }
        } else if part == "Shift"@ {
            Chord { modifiers: Modifiers { shift: true, ..self.modifiers }, ..self }
        } else if part == "Alt"@ {
            Chord { modifiers: Modifiers { alt: true, ..self.modifiers }, ..self }
        } else if part == "Win"@ {
            Chord { modifiers: Modifiers { win: true, ..self.modifiers }, ..self }
        } else {
            Chord { key: Some(part), ..self }
        }
    }

    /// The chord that a list of parts asks for.
    pub open spec fn of_parts(parts: Seq<Seq<char>>) -> Chord
        decreases parts.len(),
    {
        if parts.len() == 0 {
            Chord { modifiers: Modifiers::none(), key: None }
        } else {
            Chord::of_parts(parts.drop_last()).with_part(parts.last())
        }
    }

    /// The chord that a shortcut text such as `Ctrl+Shift+Esc` asks for.
    pub open spec fn of_text(keys: Seq<char>) -> Chord {
        Chord::of_parts(split_on(keys, '+'))
    }
}

/// Whether a key event is the chord that a shortcut text asks for: the
/// modifiers held are exactly those named, and the key's label is the key
/// named.
pub open spec fn shortcut_fits(keys: Seq<char>, ke: KeyEvent) -> bool {
    let chord = Chord::of_text(keys);
    chord.modifiers == ke.modifiers && chord.key == Some(KeyCode::label_of(ke.key.0))
}

/// Whether a key event sets off a shortcut given by its text: it is a
/// press with a modifier held that fits the text.
pub open spec fn shortcut_fires(keys: Seq<char>, ke: KeyEvent) -> bool {
    ke.action == KeyAction::Down && ke.modifiers.any() && shortcut_fits(keys, ke)
}

/// Whether a key event is the chord that a shortcut text asks for.
pub fn shortcut_matches(keys_str: &str, ke: &KeyEvent) -> (fits: bool)
    ensures
        fits == shortcut_fits(keys_str@, *ke),
{
    let mut held = Modifiers { ctrl: false, shift: false, alt: false, win: false };
    let mut key_part: Option<Vec<char>> = None;
    let mut part: Vec<char> = Vec::new();
    let ghost mut parts: Seq<Seq<char>> = Seq::empty();
    let ghost mut chord = Chord::of_parts(parts);
    for c in it: keys_str.chars()
        invariant
            it.seq() == keys_str@,
            split_on(keys_str@.subrange(0, it.index() as int), '+') == parts.push(part@),
            chord == Chord::of_parts(parts),
            chord.modifiers == held,
            match key_part {
                Some(named) => chord.key == Some(named@),
                None => chord.key is None,
            },
    {
        proof {
            let upto = keys_str@.subrange(0, it.index() + 1);
            assert(upto.drop_last() == keys_str@.subrange(0, it.index() as int));
            assert(upto.last() == c);
            assert(parts.push(part@).drop_last() == parts);
        }
        if c == '+' {
            if spells(&part, "Ctrl") {
                held.ctrl = true;
            } else if spells(&part, "Shift") {
                held.shift = true;
            } else if spells(&part, "Alt") {
                held.alt = true;
            } else if spells(&part, "Win") {
                held.win = true;
            } else {
                key_part = Some(part);
            }
            proof {
                chord = chord.with_part(part@);
                parts = parts.push(part@);
            }
            part = Vec::new();
        } else {
            part.push(c);
        }
    }
    proof {
        assert(keys_str@.subrange(0, keys_str@.len() as int) == keys_str@);
        assert(parts.push(part@).drop_last() == parts);
    }
    if spells(&part, "Ctrl") {
        held.ctrl = true;
    } else if spells(&part, "Shift") {
        held.shift = true;
    } else if spells(&part, "Alt") {
        held.alt = true;
    } else if spells(&part, "Win") {
        held.win = true;
    } else {
        key_part = Some(part);
    }
    if held != ke.modifiers {
        return false;
    }
    match key_part {
        Some(named) => spells(&named, ke.key.label()),
        None => false,
    }
}

} // verus!
