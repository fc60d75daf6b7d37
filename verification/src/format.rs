use vstd::prelude::*;

use crate::event::{KeyAction, Modifiers};
use crate::item::{
    strokes_of, DisplayItemKind, DisplayItemKindView, KeyStrokeEntry, KeyStrokeEntryView,
};
use crate::text::{decimal_of, push_decimal};

verus! {

/// The names of the modifiers held, each followed by a plus sign, in the
/// order control, alt, shift, win.
pub open spec fn modifier_prefix(modifiers: Modifiers) -> Seq<char> {
    (if modifiers.ctrl {
        "Ctrl+"@
    } else {
        Seq::empty()
    }) + (if modifiers.alt {
        "Alt+"@
    } else {
        Seq::empty()
    }) + (if modifiers.shift {
        "Shift+"@
    } else {
        Seq::empty()
    }) + (if modifiers.win {
        "Win+"@
    } else {
        Seq::empty()
    })
}

/// How often a key was pressed, as it is written after its label:
/// nothing for a single press.
pub open spec fn count_suffix(repeat_count: u32) -> Seq<char> {
    if repeat_count > 1 {
        " x"@ + decimal_of(repeat_count as nat)
    } else {
        Seq::empty()
    }
}

/// The text of a key stroke: the modifiers, the label of the key and, if
/// `counted`, how often it was pressed.
pub open spec fn stroke_text(
    label: Seq<char>,
    modifiers: Modifiers,
    repeat_count: u32,
    counted: bool,
) -> Seq<char> {
    modifier_prefix(modifiers) + label + if counted {
        count_suffix(repeat_count)
    } else {
        Seq::empty()
    }
}

/// The text of a key stroke in a group.
pub open spec fn entry_text(entry: KeyStrokeEntryView) -> Seq<char> {
    stroke_text(entry.label, entry.modifiers, entry.repeat_count, true)
}

/// The texts of the key strokes of a group, with a space between each
/// two.
pub open spec fn group_text(strokes: Seq<KeyStrokeEntryView>) -> Seq<char>
    decreases strokes.len(),
{
    if strokes.len() == 0 {
        Seq::empty()
    } else if strokes.len() == 1 {
        entry_text(strokes[0])
    } else {
        group_text(strokes.drop_last()) + " "@ + entry_text(strokes.last())
    }
}

/// The names of the locks that are on, with a bar between each two.
pub open spec fn lock_text(caps: bool, num: bool, scroll: bool) -> Seq<char> {
    let first = if caps {
        "CAPS"@
    } else {
        Seq::empty()
    };
    let second = if num {
        (if caps {
            " | "@
        } else {
            Seq::empty()
        }) + "NUM"@
    } else {
        Seq::empty()
    };
    let third = if scroll {
        (if caps || num {
            " | "@
        } else {
            Seq::empty()
        }) + "SCROLL"@
    } else {
        Seq::empty()
    };
    first + second + third
}

/// The text that an item is shown with. Only a key stroke of its own
/// is told by `counted` whether to say how often the key was pressed; the
/// key strokes of a group always say so.
pub open spec fn item_text(kind: DisplayItemKindView, counted: bool) -> Seq<char> {
    match kind {
        DisplayItemKindView::KeyStroke { label, modifiers, repeat_count, .. } => stroke_text(
            label,
            modifiers,
            repeat_count,
            counted,
        ),
        DisplayItemKindView::KeyStrokeGroup { strokes } => group_text(strokes),
        DisplayItemKindView::Shortcut { keys_label, action_label } => keys_label + " ("@
            + action_label + ")"@,
        DisplayItemKindView::ImeComposition { text } => text,
        DisplayItemKindView::ClipboardPreview { text } => "[Clipboard] "@ + text,
        DisplayItemKindView::LockIndicator { caps, num, scroll } => lock_text(caps, num, scroll),
    }
}

/// Writes the text of a key stroke at the end of `out`.
fn push_stroke(
    out: &mut String,
    label: &String,
    modifiers: &Modifiers,
    repeat_count: u32,
    counted: bool,
)
    ensures
        final(out)@ == old(out)@ + stroke_text(label@, *modifiers, repeat_count, counted),
{
    if modifiers.ctrl {
        out.append("Ctrl+");
    }
    if modifiers.alt {
        out.append("Alt+");
    }
    if modifiers.shift {
        out.append("Shift+");
    }
    if modifiers.win {
        out.append("Win+");
    }
    assert(out@ =~= old(out)@ + modifier_prefix(*modifiers));
    out.append(label.as_str());
    if counted && repeat_count > 1 {
        out.append(" x");
        push_decimal(out, repeat_count as u64);
    }
    assert(out@ =~= old(out)@ + stroke_text(label@, *modifiers, repeat_count, counted));
}

/// The text of a key stroke in a group.
pub fn format_entry_text(entry: &KeyStrokeEntry) -> (text: String)
    ensures
        text@ == entry_text(entry@),
{
    let mut text = String::new();
    push_stroke(&mut text, &entry.label, &entry.modifiers, entry.repeat_count, true);
    assert(text@ =~= entry_text(entry@));
    text
}

fn format_group(strokes: &Vec<KeyStrokeEntry>) -> (text: String)
    ensures
        text@ == group_text(strokes_of(strokes@)),
{
    let mut text = String::new();
    let ghost shown = strokes_of(strokes@);
    let mut i: usize = 0;
    while i < strokes.len()
        invariant
            i <= strokes@.len(),
            shown == strokes_of(strokes@),
            text@ == group_text(shown.subrange(0, i as int)),
        decreases strokes@.len() - i,
    {
        proof {
            let upto = shown.subrange(0, i + 1);
            assert(upto.drop_last() == shown.subrange(0, i as int));
            assert(upto.last() == strokes@[i as int]@);
            assert(upto[0] == shown[0]);
        }
        if i > 0 {
            text.append(" ");
        }
        push_stroke(
            &mut text,
            &strokes[i].label,
            &strokes[i].modifiers,
            strokes[i].repeat_count,
            true,
        );
        assert(text@ =~= group_text(shown.subrange(0, i + 1)));
        i += 1;
    }
    assert(shown.subrange(0, shown.len() as int) == shown);
    text
}

fn format_kind(kind: &DisplayItemKind, counted: bool) -> (text: String)
    ensures
        text@ == item_text(kind@, counted),
{
    match kind {
        DisplayItemKind::KeyStroke { label, modifiers, repeat_count, .. } => {
            let mut text = String::new();
            push_stroke(&mut text, label, modifiers, *repeat_count, counted);
            assert(text@ =~= item_text(kind@, counted));
            text
        },
        DisplayItemKind::KeyStrokeGroup { strokes } => format_group(strokes),
        DisplayItemKind::Shortcut { keys_label, action_label } => {
            let mut text = keys_label.clone();
            text.append(" (");
            text.append(action_label.as_str());
            text.append(")");
            text
        },
        DisplayItemKind::ImeComposition { text } => text.clone(),
        DisplayItemKind::ClipboardPreview { text } => "[Clipboard] ".to_owned().concat(
            text.as_str(),
        ),
        DisplayItemKind::LockIndicator { caps, num, scroll } => {
            let mut text = String::new();
            if *caps {
                text.append("CAPS");
            }
            if *num {
                if *caps {
                    text.append(" | ");
                }
                text.append("NUM");
            }
            if *scroll {
                if *caps || *num {
                    text.append(" | ");
                }
                text.append("SCROLL");
            }
            assert(text@ =~= lock_text(*caps, *num, *scroll));
            text
        },
    }
}

/// The text that an item is shown with.
pub fn format_item_text(kind: &DisplayItemKind) -> (text: String)
    ensures
        text@ == item_text(kind@, true),
{
    format_kind(kind, true)
}

/// The text that an item is shown with where the count of a key stroke
/// of its own is drawn apart from it.
pub fn format_item_text_no_count(kind: &DisplayItemKind) -> (text: String)
    ensures
        text@ == item_text(kind@, false),
{
    format_kind(kind, false)
}

/// How the badge of a key stroke or an item is tinted.
#[derive(Debug, Clone, Copy, PartialEq, Eq, Structural)]
pub enum Tone {
    Numpad,
    Modifier,
    KeyDown,
    KeyUp,
    Shortcut,
    Ime,
    Clipboard,
    Lock,
}

/// Whether a label starts with the mark of the numeric keypad.
pub open spec fn keypad_label(label: Seq<char>) -> bool {
    label.len() >= 3 && label[0] == 'N' && label[1] == 'u' && label[2] == 'm'
}

/// The tone of a key stroke: that of the keypad where its label bears the
/// keypad's mark, else that of the modifiers where one is held, else that
/// of its action.
pub open spec fn stroke_tone(label: Seq<char>, modifiers: Modifiers, action: KeyAction) -> Tone {
    if keypad_label(label) {
        Tone::Numpad
    } else if modifiers.any() {
        Tone::Modifier
    } else {
        match action {
            KeyAction::Down => Tone::KeyDown,
            KeyAction::Up => Tone::KeyUp,
        }
    }
}

/// The tone of an item. A group takes that of its first key stroke, and
/// that of a press where it is empty.
pub open spec fn item_tone(kind: DisplayItemKindView) -> Tone {
    match kind {
        DisplayItemKindView::KeyStroke { label, modifiers, action, .. } => stroke_tone(
            label,
            modifiers,
            action,
        ),
        DisplayItemKindView::KeyStrokeGroup { strokes } => if strokes.len() > 0 {
            stroke_tone(strokes[0].label, strokes[0].modifiers, strokes[0].action)
        } else {
            Tone::KeyDown
        },
        DisplayItemKindView::Shortcut { .. } => Tone::Shortcut,
        DisplayItemKindView::ImeComposition { .. } => Tone::Ime,
        DisplayItemKindView::ClipboardPreview { .. } => Tone::Clipboard,
        DisplayItemKindView::LockIndicator { .. } => Tone::Lock,
    }
}

fn tone_of_stroke(label: &String, modifiers: &Modifiers, action: KeyAction) -> (tone: Tone)
    ensures
        tone == stroke_tone(label@, *modifiers, action),
{
    let text = label.as_str();
    let marked = text.unicode_len() >= 3 && text.get_char(0) == 'N' && text.get_char(1) == 'u'
        && text.get_char(2) == 'm';
    if marked {
        Tone::Numpad
    } else if modifiers.any() {
        Tone::Modifier
    } else {
        match action {
            KeyAction::Down => Tone::KeyDown,
            KeyAction::Up => Tone::KeyUp,
        }
    }
}

/// The tone of a key stroke in a group.
pub fn entry_tone(entry: &KeyStrokeEntry) -> (tone: Tone)
    ensures
        tone == stroke_tone(entry@.label, entry@.modifiers, entry@.action),
{
    tone_of_stroke(&entry.label, &entry.modifiers, entry.action)
}

/// The tone of an item.
pub fn tone(kind: &DisplayItemKind) -> (tone: Tone)
    ensures
        tone == item_tone(kind@),
{
    match kind {
        DisplayItemKind::KeyStroke { label, modifiers, action, .. } => tone_of_stroke(
            label,
            modifiers,
            *action,
        ),
        DisplayItemKind::KeyStrokeGroup { strokes } => if strokes.len() > 0 {
            tone_of_stroke(&strokes[0].label, &strokes[0].modifiers, strokes[0].action)
        } else {
            Tone::KeyDown
        },
        DisplayItemKind::Shortcut { .. } => Tone::Shortcut,
        DisplayItemKind::ImeComposition { .. } => Tone::Ime,
        DisplayItemKind::ClipboardPreview { .. } => Tone::Clipboard,
        DisplayItemKind::LockIndicator { .. } => Tone::Lock,
    }
}

/// Whether an item is a key stroke of its own that shows a release.
pub fn is_up_state(kind: &DisplayItemKind) -> (up: bool)
    ensures
        up == (kind@ matches DisplayItemKindView::KeyStroke { action, .. } && action
            == KeyAction::Up),
{
    match kind {
        DisplayItemKind::KeyStroke { action, .. } => *action == KeyAction::Up,
        _ => false,
    }
}

} // verus!
