use vstd::prelude::*;

use crate::config::{
    shortcuts_of, texts_of, DiagnosticsLevel, FadeOutCurve, GhostModifier, MenuLanguage,
    Position, ShortcutDef, ShortcutDefView,
};
use crate::text::{
    decimal_of, find_char, first_at, push_decimal, slice_chars, spelled, split_chars, split_on,
    text_of, trim, trimmed,
};

verus! {

/// The lines of a text that hold more than white space, each without the
/// white space around it.
pub open spec fn filled_lines(lines: Seq<Seq<char>>) -> Seq<Seq<char>>
    decreases lines.len(),
{
    if lines.len() == 0 {
        Seq::empty()
    } else if trimmed(lines.last()).len() == 0 {
        filled_lines(lines.drop_last())
    } else {
        filled_lines(lines.drop_last()).push(trimmed(lines.last()))
    }
}

/// The shortcuts written one to a line as `keys=label`, with a line break
/// of two characters between each two lines.
pub open spec fn shortcut_lines(shortcuts: Seq<ShortcutDefView>) -> Seq<char>
    decreases shortcuts.len(),
{
    if shortcuts.len() == 0 {
        Seq::empty()
    } else if shortcuts.len() == 1 {
        shortcuts[0].keys + "="@ + shortcuts[0].label
    } else {
        shortcut_lines(shortcuts.drop_last()) + "\r\n"@ + shortcuts.last().keys + "="@
            + shortcuts.last().label
    }
}

/// What a line of shortcuts text holds.
pub enum ShortcutLine {
    /// Nothing but white space.
    Blank,
    /// A shortcut.
    Entry(ShortcutDefView),
    /// No equals sign.
    Unsplit,
    /// No keys before the equals sign, or no label after it.
    Hollow,
}

/// Reads one line of shortcuts text: the keys stand before the first
/// equals sign and the label after it, each without the white space
/// around it.
pub open spec fn shortcut_line(line: Seq<char>) -> ShortcutLine {
    let text = trimmed(line);
    if text.len() == 0 {
        ShortcutLine::Blank
    } else {
        match first_at(text, '=') {
            Some(at) => {
                let keys = trimmed(text.subrange(0, at));
                let label = trimmed(text.subrange(at + 1, text.len() as int));
                if keys.len() == 0 || label.len() == 0 {
                    ShortcutLine::Hollow
                } else {
                    ShortcutLine::Entry(ShortcutDefView { keys, label })
                }
            },
            None => ShortcutLine::Unsplit,
        }
    }
}

/// The shortcuts that the lines of a text hold, or the complaint about
/// the first line that holds none though it is not blank. The complaint
/// names the line by its number, counted from one.
pub open spec fn shortcuts_in(lines: Seq<Seq<char>>) -> Result<Seq<ShortcutDefView>, Seq<char>>
    decreases lines.len(),
{
    if lines.len() == 0 {
        Ok(Seq::empty())
    } else {
        match shortcuts_in(lines.drop_last()) {
            Ok(list) => match shortcut_line(lines.last()) {
                ShortcutLine::Blank => Ok(list),
                ShortcutLine::Entry(entry) => Ok(list.push(entry)),
                ShortcutLine::Unsplit => Err(
                    "shortcut line "@ + decimal_of(lines.len()) + " must be keys=label"@,
                ),
                ShortcutLine::Hollow => Err(
                    "shortcut line "@ + decimal_of(lines.len()) + " must not be empty"@,
                ),
            },
            Err(complaint) => Err(complaint),
        }
    }
}

/// The lines of a text that hold more than white space, each without the
/// white space around it.
pub fn split_lines(text: &str) -> (lines: Vec<String>)
    ensures
        texts_of(lines@) == filled_lines(split_on(text@, '\n')),
{
    let pieces = split_chars(text, '\n');
    let mut lines: Vec<String> = Vec::new();
    let mut i: usize = 0;
    while i < pieces.len()
        invariant
            i <= pieces@.len(),
            texts_of(lines@) == filled_lines(spelled(pieces@).subrange(0, i as int)),
        decreases pieces@.len() - i,
    {
        proof {
            let upto = spelled(pieces@).subrange(0, i + 1);
            assert(upto.drop_last() == spelled(pieces@).subrange(0, i as int));
            assert(upto.last() == pieces@[i as int]@);
        }
        let line = trim(&pieces[i]);
        if line.len() > 0 {
            let ghost before = texts_of(lines@);
            lines.push(text_of(&line));
            assert(texts_of(lines@) == before.push(line@));
        }
        i += 1;
    }
    assert(spelled(pieces@).subrange(0, pieces@.len() as int) == spelled(pieces@));
    lines
}

/// Writes shortcuts one to a line.
pub fn shortcuts_to_text(shortcuts: &Vec<ShortcutDef>) -> (text: String)
    ensures
        text@ == shortcut_lines(shortcuts_of(shortcuts@)),
{
    let mut text = String::new();
    let ghost shown = shortcuts_of(shortcuts@);
    let mut i: usize = 0;
    while i < shortcuts.len()
        invariant
            i <= shortcuts@.len(),
            shown == shortcuts_of(shortcuts@),
            text@ == shortcut_lines(shown.subrange(0, i as int)),
        decreases shortcuts@.len() - i,
    {
        proof {
            let upto = shown.subrange(0, i + 1);
            assert(upto.drop_last() == shown.subrange(0, i as int));
            assert(upto.last() == shortcuts@[i as int]@);
            assert(upto[0] == shown[0]);
        }
        if i > 0 {
            text.append("\r\n");
        }
        text.append(shortcuts[i].keys.as_str());
        text.append("=");
        text.append(shortcuts[i].label.as_str());
        assert(text@ =~= shortcut_lines(shown.subrange(0, i + 1)));
        i += 1;
    }
    assert(shown.subrange(0, shown.len() as int) == shown);
    text
}

/// The complaint about the line with the number `number`.
fn complaint(number: usize, what: &str) -> (text: String)
    ensures
        text@ == "shortcut line "@ + decimal_of(number as nat) + what@,
{
    let mut text = "shortcut line ".to_owned();
    push_decimal(&mut text, number as u64);
    text.append(what);
    text
}

/// Reads shortcuts written one to a line as `keys=label`. Lines that hold
/// nothing but white space are passed over.
pub fn parse_shortcuts(text: &str) -> (parsed: Result<Vec<ShortcutDef>, String>)
    ensures
        match parsed {
            Ok(list) => shortcuts_in(split_on(text@, '\n')) == Ok::<_, Seq<char>>(
                shortcuts_of(list@),
            ),
            Err(complaint) => shortcuts_in(split_on(text@, '\n')) == Err::<Seq<ShortcutDefView>, _>(
                complaint@,
            ),
        },
{
    let pieces = split_chars(text, '\n');
    let mut shortcuts: Vec<ShortcutDef> = Vec::new();
    assert(shortcuts_of(shortcuts@) =~= Seq::<ShortcutDefView>::empty());
    let mut i: usize = 0;
    while i < pieces.len()
        invariant
            i <= pieces@.len(),
            spelled(pieces@) == split_on(text@, '\n'),
            shortcuts_in(spelled(pieces@).subrange(0, i as int)) == Ok::<_, Seq<char>>(
                shortcuts_of(shortcuts@),
            ),
        decreases pieces@.len() - i,
    {
        let ghost upto = spelled(pieces@).subrange(0, i + 1);
        proof {
            assert(upto.drop_last() == spelled(pieces@).subrange(0, i as int));
            assert(upto.last() == pieces@[i as int]@);
        }
        let line = trim(&pieces[i]);
        if line.len() > 0 {
            match find_char(&line, '=') {
                Some(at) => {
                    let keys = trim(&slice_chars(&line, 0, at));
                    let label = trim(&slice_chars(&line, at + 1, line.len()));
                    if keys.len() == 0 || label.len() == 0 {
                        let refused = complaint(i + 1, " must not be empty");
                        proof {
                            lemma_complaint_stays(spelled(pieces@), i + 1);
                            assert(spelled(pieces@).subrange(0, pieces@.len() as int) == spelled(
                                pieces@,
                            ));
                        }
                        return Err(refused);
                    }
                    let ghost before = shortcuts_of(shortcuts@);
                    let entry = ShortcutDef { keys: text_of(&keys), label: text_of(&label) };
                    shortcuts.push(entry);
                    assert(shortcuts_of(shortcuts@) == before.push(entry@));
                },
                None => {
                    let refused = complaint(i + 1, " must be keys=label");
                    proof {
                        lemma_complaint_stays(spelled(pieces@), i + 1);
                        assert(spelled(pieces@).subrange(0, pieces@.len() as int) == spelled(
                            pieces@,
                        ));
                    }
                    return Err(refused);
                },
            }
        }
        i += 1;
    }
    assert(spelled(pieces@).subrange(0, pieces@.len() as int) == spelled(pieces@));
    Ok(shortcuts)
}

/// A complaint about the first lines of a text is the complaint about
/// the whole text.
proof fn lemma_complaint_stays(lines: Seq<Seq<char>>, upto: int)
    requires
        0 <= upto <= lines.len(),
        shortcuts_in(lines.subrange(0, upto)) is Err,
    ensures
        shortcuts_in(lines.subrange(0, lines.len() as int)) == shortcuts_in(lines.subrange(0, upto)),
    decreases lines.len() - upto,
{
    if upto < lines.len() {
        let more = lines.subrange(0, upto + 1);
        assert(more.drop_last() == lines.subrange(0, upto));
        lemma_complaint_stays(lines, upto + 1);
    }
}

/// The place of a position in the list it is chosen from.
pub open spec fn position_index_of(value: Position) -> int {
    match value {
        Position::TopLeft => 0,
        Position::TopCenter => 1,
        Position::TopRight => 2,
        Position::BottomLeft => 3,
        Position::BottomCenter => 4,
        Position::BottomRight => 5,
    }
}

/// The place of a position in the list it is chosen from.
pub fn position_index(value: Position) -> (index: i32)
    ensures
        index == position_index_of(value),
{
    match value {
        Position::TopLeft => 0,
        Position::TopCenter => 1,
        Position::TopRight => 2,
        Position::BottomLeft => 3,
        Position::BottomCenter => 4,
        Position::BottomRight => 5,
    }
}

/// The value at a place of the list that a position is chosen from, if the
/// list has such a place.
pub fn position_at(index: i32) -> (value: Option<Position>)
    ensures
        match value {
            Some(value) => position_index_of(value) == index,
            None => forall|other: Position| position_index_of(other) != index,
        },
{
    match index {
        0 => Some(Position::TopLeft),
        1 => Some(Position::TopCenter),
        2 => Some(Position::TopRight),
        3 => Some(Position::BottomLeft),
        4 => Some(Position::BottomCenter),
        5 => Some(Position::BottomRight),
        _ => None,
    }
}

/// The place of a ghost modifier in the list it is chosen from.
pub open spec fn ghost_modifier_index_of(value: GhostModifier) -> int {
    match value {
        GhostModifier::Ctrl => 0,
        GhostModifier::Alt => 1,
        GhostModifier::Shift => 2,
    }
}

/// The place of a ghost modifier in the list it is chosen from.
pub fn ghost_modifier_index(value: GhostModifier) -> (index: i32)
    ensures
        index == ghost_modifier_index_of(value),
{
    match value {
        GhostModifier::Ctrl => 0,
        GhostModifier::Alt => 1,
        GhostModifier::Shift => 2,
    }
}

/// The value at a place of the list that a ghost modifier is chosen from, if the
/// list has such a place.
pub fn ghost_modifier_at(index: i32) -> (value: Option<GhostModifier>)
    ensures
        match value {
            Some(value) => ghost_modifier_index_of(value) == index,
            None => forall|other: GhostModifier| ghost_modifier_index_of(other) != index,
        },
{
    match index {
        0 => Some(GhostModifier::Ctrl),
        1 => Some(GhostModifier::Alt),
        2 => Some(GhostModifier::Shift),
        _ => None,
    }
}

/// The place of a level of diagnostics in the list it is chosen from.
pub open spec fn diag_level_index_of(value: DiagnosticsLevel) -> int {
    match value {
        DiagnosticsLevel::Error => 0,
        DiagnosticsLevel::Warn => 1,
        DiagnosticsLevel::Info => 2,
        DiagnosticsLevel::Debug => 3,
    }
}

/// The place of a level of diagnostics in the list it is chosen from.
pub fn diag_level_index(value: DiagnosticsLevel) -> (index: i32)
    ensures
        index == diag_level_index_of(value),
{
    match value {
        DiagnosticsLevel::Error => 0,
        DiagnosticsLevel::Warn => 1,
        DiagnosticsLevel::Info => 2,
        DiagnosticsLevel::Debug => 3,
    }
}

/// The value at a place of the list that a level of diagnostics is chosen from, if the
/// list has such a place.
pub fn diag_level_at(index: i32) -> (value: Option<DiagnosticsLevel>)
    ensures
        match value {
            Some(value) => diag_level_index_of(value) == index,
            None => forall|other: DiagnosticsLevel| diag_level_index_of(other) != index,
        },
{
    match index {
        0 => Some(DiagnosticsLevel::Error),
        1 => Some(DiagnosticsLevel::Warn),
        2 => Some(DiagnosticsLevel::Info),
        3 => Some(DiagnosticsLevel::Debug),
        _ => None,
    }
}

/// The place of a language of the menu in the list it is chosen from.
pub open spec fn menu_language_index_of(value: MenuLanguage) -> int {
    match value {
        MenuLanguage::Ja => 0,
        MenuLanguage::En => 1,
    }
}

/// The place of a language of the menu in the list it is chosen from.
pub fn menu_language_index(value: MenuLanguage) -> (index: i32)
    ensures
        index == menu_language_index_of(value),
{
    match value {
        MenuLanguage::Ja => 0,
        MenuLanguage::En => 1,
    }
}

/// The value at a place of the list that a language of the menu is chosen from, if the
/// list has such a place.
pub fn menu_language_at(index: i32) -> (value: Option<MenuLanguage>)
    ensures
        match value {
            Some(value) => menu_language_index_of(value) == index,
            None => forall|other: MenuLanguage| menu_language_index_of(other) != index,
        },
{
    match index {
        0 => Some(MenuLanguage::Ja),
        1 => Some(MenuLanguage::En),
        _ => None,
    }
}

/// The place of a fade curve in the list it is chosen from.
pub open spec fn fade_curve_index_of(value: FadeOutCurve) -> int {
    match value {
        FadeOutCurve::Linear => 0,
        FadeOutCurve::EaseOut => 1,
    }
}

/// The place of a fade curve in the list it is chosen from.
pub fn fade_curve_index(value: FadeOutCurve) -> (index: i32)
    ensures
        index == fade_curve_index_of(value),
{
    match value {
        FadeOutCurve::Linear => 0,
        FadeOutCurve::EaseOut => 1,
    }
}

/// The value at a place of the list that a fade curve is chosen from, if the
/// list has such a place.
pub fn fade_curve_at(index: i32) -> (value: Option<FadeOutCurve>)
    ensures
        match value {
            Some(value) => fade_curve_index_of(value) == index,
            None => forall|other: FadeOutCurve| fade_curve_index_of(other) != index,
        },
{
    match index {
        0 => Some(FadeOutCurve::Linear),
        1 => Some(FadeOutCurve::EaseOut),
        _ => None,
    }
}

/// The sections of the settings, in the order in which they are listed.
#[derive(Debug, Clone, Copy, PartialEq, Eq, Structural)]
pub enum Category {
    General,
    Display,
    Style,
    Input,
    Privacy,
    Performance,
    Diagnostics,
    Startup,
    Tray,
    Animation,
}

impl Category {
    /// The section at a place of the list, and the first section for a
    /// place that the list does not have.
    pub open spec fn at(i: i32) -> Category {
        match i {
            1 => Category::Display,
            2 => Category::Style,
            3 => Category::Input,
            4 => Category::Privacy,
            5 => Category::Performance,
            6 => Category::Diagnostics,
            7 => Category::Startup,
            8 => Category::Tray,
            9 => Category::Animation,
            _ => Category::General,
        }
    }

    /// The section at a place of the list.
    pub fn from_index(i: i32) -> (category: Category)
        ensures
            category == Category::at(i),
    {
        match i {
            1 => Category::Display,
            2 => Category::Style,
            3 => Category::Input,
            4 => Category::Privacy,
            5 => Category::Performance,
            6 => Category::Diagnostics,
            7 => Category::Startup,
            8 => Category::Tray,
            9 => Category::Animation,
            _ => Category::General,
        }
    }
}

} // verus!
