use vstd::prelude::*;

use crate::event::Modifiers;
use crate::key::KeyCode;
use crate::text::{chars_of, spells, split_on, trim, trimmed};

verus! {

/// A key combination that switches the overlay on and off from anywhere.
#[derive(Debug, Clone, Copy, PartialEq, Eq, Structural)]
pub struct Hotkey {
    pub modifiers: Modifiers,
    /// The virtual-key code of the key.
    pub vk: u32,
}

/// Whether a key can be the key of a hotkey: a digit, a letter, a function
/// key, or one of the editing and navigation keys.
pub open spec fn hotkey_key(vk: u32) -> bool {
    ||| 0x30 <= vk <= 0x39
    ||| 0x41 <= vk <= 0x5A
    ||| 0x70 <= vk <= 0x7B
    ||| vk == KeyCode::SPACE
    ||| vk == KeyCode::ENTER
    ||| vk == KeyCode::TAB
    ||| vk == KeyCode::ESCAPE
    ||| vk == KeyCode::BACKSPACE
    ||| vk == KeyCode::DELETE
    ||| vk == KeyCode::INSERT
    ||| vk == KeyCode::HOME
    ||| vk == KeyCode::END
    ||| vk == KeyCode::PAGE_UP
    ||| vk == KeyCode::PAGE_DOWN
    ||| vk == KeyCode::LEFT
    ||| vk == KeyCode::UP
    ||| vk == KeyCode::RIGHT
    ||| vk == KeyCode::DOWN
    ||| vk == KeyCode::PAUSE
    ||| vk == KeyCode::PRINT_SCREEN
}

/// Whether `vk` is the key of a hotkey with the label `name`.
pub open spec fn names_key(name: Seq<char>, vk: u32) -> bool {
    hotkey_key(vk) && KeyCode::label_of(vk) == name
}

/// Whether `vk` is the smallest code of a hotkey key with the label `name`.
pub open spec fn is_code_of(name: Seq<char>, vk: u32) -> bool {
    names_key(name, vk) && forall|lower: u32| lower < vk ==> !names_key(name, lower)
}

/// The virtual-key code of the hotkey key with the label `name`, if there
/// is such a key.
pub open spec fn code_of_name(name: Seq<char>) -> Option<u32> {
    if exists|vk: u32| is_code_of(name, vk) {
        Some(choose|vk: u32| is_code_of(name, vk))
    } else {
        None
    }
}

/// What the parts of a hotkey text read so far ask for: the modifiers and,
/// if one was named, the key. Nothing, if a part named no modifier and no
/// key.
pub open spec fn hotkey_of_parts(parts: Seq<Seq<char>>) -> Option<(Modifiers, Option<u32>)>
    decreases parts.len(),
{
    if parts.len() == 0 {
        Some((Modifiers::none(), None))
    } else {
        match hotkey_of_parts(parts.drop_last()) {
            Some((modifiers, key)) => {
                let part = trimmed(parts.last());
                if part == "Ctrl"@ {
                    Some((Modifiers { ctrl: true, ..modifiers }, key))
                } else if part == "Alt"@ {
                    Some((Modifiers { alt: true, ..modifiers }, key))
                } else if part == "Shift"@ {
                    Some((Modifiers { shift: true, ..modifiers }, key))
                } else if part == "Win"@ {
                    Some((Modifiers { win: true, ..modifiers }, key))
                } else {
                    match code_of_name(part) {
                        Some(vk) => Some((modifiers, Some(vk))),
                        None => None,
                    }
                }
            },
            None => None,
        }
    }
}

/// The hotkey that a text such as `Ctrl+Alt+F12` asks for. The parts
/// between plus signs count without the white space around them; each
/// names a modifier or a key, and the last key named is the key. There is
/// no hotkey where a part names neither, or no part names a key.
pub open spec fn hotkey_of_text(text: Seq<char>) -> Option<Hotkey> {
    match hotkey_of_parts(split_on(text, '+')) {
        Some((modifiers, Some(vk))) => Some(Hotkey { modifiers, vk }),
        _ => None,
    }
}

fn is_hotkey_key(vk: u32) -> (b: bool)
    ensures
        b == hotkey_key(vk),
{
    (0x30 <= vk && vk <= 0x39) || (0x41 <= vk && vk <= 0x5A) || (0x70 <= vk && vk <= 0x7B) || vk
        == KeyCode::SPACE || vk == KeyCode::ENTER || vk == KeyCode::TAB || vk == KeyCode::ESCAPE
        || vk == KeyCode::BACKSPACE || vk == KeyCode::DELETE || vk == KeyCode::INSERT || vk
        == KeyCode::HOME || vk == KeyCode::END || vk == KeyCode::PAGE_UP || vk
        == KeyCode::PAGE_DOWN || vk == KeyCode::LEFT || vk == KeyCode::UP || vk == KeyCode::RIGHT
        || vk == KeyCode::DOWN || vk == KeyCode::PAUSE || vk == KeyCode::PRINT_SCREEN
}

fn code_of(name: &Vec<char>) -> (code: Option<u32>)
    ensures
        code == code_of_name(name@),
{
    let mut vk: u32 = 0;
    while vk < 0x80
        invariant
            vk <= 0x80,
            forall|lower: u32| lower < vk ==> !names_key(name@, lower),
        decreases 0x80 - vk,
    {
        if is_hotkey_key(vk) && spells(name, KeyCode(vk).label()) {
            assert(is_code_of(name@, vk));
            assert(code_of_name(name@) == Some(vk)) by {
                let found = choose|w: u32| is_code_of(name@, w);
                assert(is_code_of(name@, found));
                if found < vk {
                    assert(!names_key(name@, found));
                }
                if found > vk {
                    assert(!names_key(name@, vk));
                }
            }
            return Some(vk);
        }
        vk += 1;
    }
    assert(code_of_name(name@) is None) by {
        if exists|w: u32| is_code_of(name@, w) {
            let found = choose|w: u32| is_code_of(name@, w);
            assert(names_key(name@, found));
            assert(found < 0x80);
        }
    }
    None
}

/// The virtual-key code of the key that a hotkey text names by `name`.
pub fn key_name_to_vk(name: &str) -> (code: Option<u32>)
    ensures
        code == code_of_name(name@),
        code matches Some(vk) ==> KeyCode::label_of(vk) == name@,
{
    let list = chars_of(name);
    let code = code_of(&list);
    proof {
        if code is Some {
            assert(is_code_of(name@, code->0));
        }
    }
    code
}

/// Takes one part of a hotkey text in.
fn take_part(read: Option<(Modifiers, Option<u32>)>, part: &Vec<char>) -> (next: Option<
    (Modifiers, Option<u32>),
>)
    ensures
        next == match read {
            Some((modifiers, key)) => {
                let name = trimmed(part@);
                if name == "Ctrl"@ {
                    Some((Modifiers { ctrl: true, ..modifiers }, key))
                } else if name == "Alt"@ {
                    Some((Modifiers { alt: true, ..modifiers }, key))
                } else if name == "Shift"@ {
                    Some((Modifiers { shift: true, ..modifiers }, key))
                } else if name == "Win"@ {
                    Some((Modifiers { win: true, ..modifiers }, key))
                } else {
                    match code_of_name(name) {
                        Some(vk) => Some((modifiers, Some(vk))),
                        None => None,
                    }
                }
            },
            None => None,
        },
{
    match read {
        Some((modifiers, key)) => {
            let name = trim(part);
            let mut held = modifiers;
            if spells(&name, "Ctrl") {
                held.ctrl = true;
                Some((held, key))
            } else if spells(&name, "Alt") {
                held.alt = true;
                Some((held, key))
            } else if spells(&name, "Shift") {
                held.shift = true;
                Some((held, key))
            } else if spells(&name, "Win") {
                held.win = true;
                Some((held, key))
            } else {
                match code_of(&name) {
                    Some(vk) => Some((modifiers, Some(vk))),
                    None => None,
                }
            }
        },
        None => None,
    }
}

/// Reads a hotkey text.
pub fn parse_hotkey(s: &str) -> (hotkey: Option<Hotkey>)
    ensures
        hotkey == hotkey_of_text(s@),
{
    let mut read: Option<(Modifiers, Option<u32>)> = Some(
        (Modifiers { ctrl: false, shift: false, alt: false, win: false }, None),
    );
    let mut part: Vec<char> = Vec::new();
    let ghost mut parts: Seq<Seq<char>> = Seq::empty();
    for c in it: s.chars()
        invariant
            it.seq() == s@,
            split_on(s@.subrange(0, it.index() as int), '+') == parts.push(part@),
            read == hotkey_of_parts(parts),
    {
        proof {
            let upto = s@.subrange(0, it.index() + 1);
            assert(upto.drop_last() == s@.subrange(0, it.index() as int));
            assert(upto.last() == c);
            assert(parts.push(part@).drop_last() == parts);
        }
        if c == '+' {
            read = take_part(read, &part);
            proof {
                parts = parts.push(part@);
            }
            part = Vec::new();
        } else {
            part.push(c);
        }
    }
    proof {
        assert(s@.subrange(0, s@.len() as int) == s@);
        assert(parts.push(part@).drop_last() == parts);
    }
    match take_part(read, &part) {
        Some((modifiers, Some(vk))) => Some(Hotkey { modifiers, vk }),
        _ => None,
    }
}

} // verus!
