use vstd::prelude::*;

verus! {

/// `String::push` of the standard library appends one character.
pub assume_specification[ String::push ](s: &mut String, ch: char)
    ensures
        final(s)@ == old(s)@.push(ch),
;

/// `String::pop` of the standard library takes the last character off, and
/// gives `None` and leaves the string as it is when there is none.
pub assume_specification[ String::pop ](s: &mut String) -> (last: Option<char>)
    ensures
        old(s)@.len() == 0 ==> last is None && final(s)@ == old(s)@,
        old(s)@.len() > 0 ==> last == Some(old(s)@.last()) && final(s)@ == old(s)@.drop_last(),
;

/// `String::clear` of the standard library leaves the string empty.
pub assume_specification[ String::clear ](s: &mut String)
    ensures
        final(s)@ == Seq::<char>::empty(),
;

/// A letter of the basic Latin alphabet, in either case.
pub open spec fn letter(c: char) -> bool {
    ('a' <= c && c <= 'z') || ('A' <= c && c <= 'Z')
}

/// The character with a capital Latin letter replaced by its small one.
pub open spec fn lower_of(c: char) -> char {
    if 'A' <= c && c <= 'Z' {
        ((c as u8) + 32) as char
    } else {
        c
    }
}

/// Whether a character is a letter of the basic Latin alphabet.
pub fn is_ascii_letter(c: char) -> (b: bool)
    ensures
        b == letter(c),
{
    ('a' <= c && c <= 'z') || ('A' <= c && c <= 'Z')
}

/// The character with a capital Latin letter replaced by its small one.
pub fn ascii_lower(c: char) -> (l: char)
    ensures
        l == lower_of(c),
{
    if 'A' <= c && c <= 'Z' {
        ((c as u8) + 32) as char
    } else {
        c
    }
}

/// A text with its capital Latin letters replaced by small ones.
pub open spec fn lowered(s: Seq<char>) -> Seq<char> {
    Seq::new(s.len(), |i: int| lower_of(s[i]))
}

/// Whether two texts are the same but for the case of their Latin letters.
pub open spec fn same_ignoring_case(a: Seq<char>, b: Seq<char>) -> bool {
    lowered(a) == lowered(b)
}

/// The characters of a text.
pub fn chars_of(s: &str) -> (list: Vec<char>)
    ensures
        list@ == s@,
{
    let mut list: Vec<char> = Vec::new();
    for c in it: s.chars()
        invariant
            it.seq() == s@,
            list@ == s@.subrange(0, it.index() as int),
    {
        list.push(c);
    }
    assert(s@.subrange(0, s@.len() as int) == s@);
    list
}

/// Whether a list of characters spells `text`.
pub fn spells(list: &Vec<char>, text: &str) -> (b: bool)
    ensures
        b == (list@ == text@),
{
    let other = chars_of(text);
    if list.len() != other.len() {
        return false;
    }
    let mut i: usize = 0;
    while i < list.len()
        invariant
            other@ == text@,
            list@.len() == other@.len(),
            i <= list@.len(),
            forall|j: int| 0 <= j < i ==> list@[j] == other@[j],
        decreases list@.len() - i,
    {
        if list[i] != other[i] {
            assert(list@[i as int] != text@[i as int]);
            return false;
        }
        i += 1;
    }
    assert(list@ =~= other@);
    true
}

/// Whether two texts are the same but for the case of their Latin letters.
pub fn eq_ignore_ascii_case(a: &str, b: &str) -> (same: bool)
    ensures
        same == same_ignoring_case(a@, b@),
{
    let left = chars_of(a);
    let right = chars_of(b);
    if left.len() != right.len() {
        assert(lowered(a@).len() != lowered(b@).len());
        return false;
    }
    let mut i: usize = 0;
    while i < left.len()
        invariant
            left@ == a@,
            right@ == b@,
            left@.len() == right@.len(),
            i <= left@.len(),
            forall|j: int| 0 <= j < i ==> lower_of(a@[j]) == lower_of(b@[j]),
        decreases left@.len() - i,
    {
        if ascii_lower(left[i]) != ascii_lower(right[i]) {
            assert(lowered(a@)[i as int] != lowered(b@)[i as int]);
            return false;
        }
        i += 1;
    }
    assert(lowered(a@) =~= lowered(b@));
    true
}

/// The character for a decimal digit.
pub open spec fn digit_of(d: nat) -> char {
    (48 + d) as char
}

/// A number written in decimal digits, without leading zeros.
pub open spec fn decimal_of(n: nat) -> Seq<char>
    decreases n,
{
    if n < 10 {
        seq![digit_of(n)]
    } else {
        decimal_of(n / 10).push(digit_of(n % 10))
    }
}

/// Writes `n` in decimal digits at the end of `out`.
pub fn push_decimal(out: &mut String, n: u64)
    ensures
        final(out)@ == old(out)@ + decimal_of(n as nat),
    decreases n,
{
    if n >= 10 {
        push_decimal(out, n / 10);
    }
    let digit: u8 = (n % 10) as u8;
    out.push((48u8 + digit) as char);
    proof {
        let last = digit_of((n % 10) as nat);
        if n >= 10 {
            assert(old(out)@ + decimal_of(n as nat) =~= (old(out)@ + decimal_of((n / 10) as nat)).push(
                last,
            ));
        } else {
            assert(old(out)@ + decimal_of(n as nat) =~= old(out)@.push(last));
        }
    }
}

/// The pieces of a text that lie between the occurrences of `sep`. There
/// is always one piece more than there are separators.
pub open spec fn split_on(s: Seq<char>, sep: char) -> Seq<Seq<char>>
    decreases s.len(),
{
    if s.len() == 0 {
        seq![Seq::empty()]
    } else {
        let before = split_on(s.drop_last(), sep);
        if s.last() == sep {
            before.push(Seq::empty())
        } else {
            before.drop_last().push(before.last().push(s.last()))
        }
    }
}

/// A text cut down to its first `max` characters, with three dots put
/// after it, if it is longer than that; else the text as it is.
pub open spec fn truncated(s: Seq<char>, max: usize) -> Seq<char> {
    if s.len() > max {
        s.subrange(0, max as int) + "..."@
    } else {
        s
    }
}

/// Clipboard truncation: a text longer than `max` characters is cut to
/// exactly its first `max` characters, whatever their width in bytes, and
/// three dots; a text of up to `max` characters is kept whole.
pub proof fn lemma_truncated(s: Seq<char>, max: usize)
    ensures
        s.len() <= max ==> truncated(s, max) == s,
        s.len() > max ==> truncated(s, max).len() == max + 3,
        s.len() > max ==> truncated(s, max).subrange(0, max as int) == s.subrange(0, max as int),
        s.len() > max ==> truncated(s, max).subrange(max as int, max + 3) == seq!['.', '.', '.'],
{
    reveal_strlit("...");
    if s.len() > max {
        let cut = truncated(s, max);
        assert(cut.subrange(0, max as int) =~= s.subrange(0, max as int));
        assert(cut.subrange(max as int, max + 3) =~= seq!['.', '.', '.']);
    }
}

/// Cuts a text down to its first `max` characters and marks the cut with three dots.
pub fn truncate_chars(s: &str, max: usize) -> (out: String)
    ensures
        out@ == truncated(s@, max),
{
    let count = s.unicode_len();
    if count > max {
        let head = s.substring_char(0, max);
        let mut out = head.to_owned();
        out.append("...");
        out
    } else {
        s.to_owned()
    }
}

/// Whether a character is white space, as Unicode has it.
pub open spec fn white_space(c: char) -> bool {
    ||| '\u{9}' <= c <= '\u{D}'
    ||| c == ' '
    ||| c == '\u{85}'
    ||| c == '\u{A0}'
    ||| c == '\u{1680}'
    ||| '\u{2000}' <= c <= '\u{200A}'
    ||| c == '\u{2028}'
    ||| c == '\u{2029}'
    ||| c == '\u{202F}'
    ||| c == '\u{205F}'
    ||| c == '\u{3000}'
}

/// Whether a character is white space, as Unicode has it.
pub fn is_white_space(c: char) -> (b: bool)
    ensures
        b == white_space(c),
{
    ('\u{9}' <= c && c <= '\u{D}') || c == ' ' || c == '\u{85}' || c == '\u{A0}' || c == '\u{1680}'
        || ('\u{2000}' <= c && c <= '\u{200A}') || c == '\u{2028}' || c == '\u{2029}' || c
        == '\u{202F}' || c == '\u{205F}' || c == '\u{3000}'
}

/// A text without the white space at its end.
pub open spec fn trimmed_end(s: Seq<char>) -> Seq<char>
    decreases s.len(),
{
    if s.len() > 0 && white_space(s.last()) {
        trimmed_end(s.drop_last())
    } else {
        s
    }
}

/// A text without the white space at its start.
pub open spec fn trimmed_start(s: Seq<char>) -> Seq<char>
    decreases s.len(),
{
    if s.len() > 0 && white_space(s.first()) {
        trimmed_start(s.drop_first())
    } else {
        s
    }
}

/// A text without the white space at either end.
pub open spec fn trimmed(s: Seq<char>) -> Seq<char> {
    trimmed_end(trimmed_start(s))
}

/// Takes the white space off both ends of a list of characters.
pub fn trim(list: &Vec<char>) -> (out: Vec<char>)
    ensures
        out@ == trimmed(list@),
{
    let mut from: usize = 0;
    assert(list@.subrange(0, list@.len() as int) == list@);
    while from < list.len() && is_white_space(list[from])
        invariant
            from <= list@.len(),
            trimmed_start(list@) == trimmed_start(list@.subrange(from as int, list@.len() as int)),
        decreases list@.len() - from,
    {
        proof {
            let rest = list@.subrange(from as int, list@.len() as int);
            assert(rest.first() == list@[from as int]);
            assert(rest.drop_first() == list@.subrange(from + 1, list@.len() as int));
        }
        from += 1;
    }
    proof {
        let rest = list@.subrange(from as int, list@.len() as int);
        if from < list@.len() {
            assert(rest.first() == list@[from as int]);
        }
        assert(trimmed_start(list@) == rest);
    }
    let mut to: usize = list.len();
    while to > from && is_white_space(list[to - 1])
        invariant
            from <= to <= list@.len(),
            trimmed_end(list@.subrange(from as int, list@.len() as int)) == trimmed_end(
                list@.subrange(from as int, to as int),
            ),
        decreases to,
    {
        proof {
            let rest = list@.subrange(from as int, to as int);
            assert(rest.last() == list@[to - 1]);
            assert(rest.drop_last() == list@.subrange(from as int, to - 1));
        }
        to -= 1;
    }
    proof {
        let rest = list@.subrange(from as int, to as int);
        if to > from {
            assert(rest.last() == list@[to - 1]);
        }
        assert(trimmed_end(rest) == rest);
    }
    let mut out: Vec<char> = Vec::new();
    let mut i: usize = from;
    while i < to
        invariant
            from <= i <= to <= list@.len(),
            out@ == list@.subrange(from as int, i as int),
        decreases to - i,
    {
        out.push(list[i]);
        assert(out@ == list@.subrange(from as int, i + 1));
        i += 1;
    }
    out
}

/// A text made of a list of characters.
pub fn text_of(list: &Vec<char>) -> (text: String)
    ensures
        text@ == list@,
{
    let mut text = String::new();
    let mut i: usize = 0;
    while i < list.len()
        invariant
            i <= list@.len(),
            text@ == list@.subrange(0, i as int),
        decreases list@.len() - i,
    {
        text.push(list[i]);
        assert(text@ == list@.subrange(0, i + 1));
        i += 1;
    }
    assert(list@.subrange(0, list@.len() as int) == list@);
    text
}

/// The texts that a list of lists of characters spells.
pub open spec fn spelled(lists: Seq<Vec<char>>) -> Seq<Seq<char>> {
    Seq::new(lists.len(), |i: int| lists[i]@)
}

/// Cuts a text at every occurrence of `sep`.
pub fn split_chars(s: &str, sep: char) -> (pieces: Vec<Vec<char>>)
    ensures
        spelled(pieces@) == split_on(s@, sep),
{
    let mut pieces: Vec<Vec<char>> = Vec::new();
    let mut piece: Vec<char> = Vec::new();
    for c in it: s.chars()
        invariant
            it.seq() == s@,
            split_on(s@.subrange(0, it.index() as int), sep) == spelled(pieces@).push(piece@),
    {
        proof {
            let upto = s@.subrange(0, it.index() + 1);
            assert(upto.drop_last() == s@.subrange(0, it.index() as int));
            assert(upto.last() == c);
            assert(spelled(pieces@).push(piece@).drop_last() == spelled(pieces@));
        }
        if c == sep {
            let ghost before = spelled(pieces@);
            pieces.push(piece);
            assert(spelled(pieces@) == before.push(piece@));
            piece = Vec::new();
        } else {
            piece.push(c);
        }
    }
    proof {
        assert(s@.subrange(0, s@.len() as int) == s@);
    }
    let ghost before = spelled(pieces@);
    pieces.push(piece);
    assert(spelled(pieces@) == before.push(piece@));
    pieces
}

/// Whether `i` is the place of the first `c` in a text.
pub open spec fn is_first_at(s: Seq<char>, c: char, i: int) -> bool {
    &&& 0 <= i < s.len()
    &&& s[i] == c
    &&& forall|j: int| 0 <= j < i ==> s[j] != c
}

/// The place of the first `c` in a text, if it holds one.
pub open spec fn first_at(s: Seq<char>, c: char) -> Option<int> {
    if exists|i: int| is_first_at(s, c, i) {
        Some(choose|i: int| is_first_at(s, c, i))
    } else {
        None
    }
}

/// Finds the first `c` in a list of characters.
pub fn find_char(list: &Vec<char>, c: char) -> (place: Option<usize>)
    ensures
        match place {
            Some(i) => first_at(list@, c) == Some(i as int) && i < list@.len(),
            None => first_at(list@, c) is None,
        },
{
    let mut i: usize = 0;
    while i < list.len()
        invariant
            i <= list@.len(),
            forall|j: int| 0 <= j < i ==> list@[j] != c,
        decreases list@.len() - i,
    {
        if list[i] == c {
            assert(is_first_at(list@, c, i as int));
            assert(first_at(list@, c) == Some(i as int)) by {
                let found = choose|k: int| is_first_at(list@, c, k);
                assert(is_first_at(list@, c, found));
            }
            return Some(i);
        }
        i += 1;
    }
    assert(first_at(list@, c) is None) by {
        if exists|k: int| is_first_at(list@, c, k) {
            let found = choose|k: int| is_first_at(list@, c, k);
            assert(is_first_at(list@, c, found));
        }
    }
    None
}

/// The part of a list of characters from `from` up to `to`.
pub fn slice_chars(list: &Vec<char>, from: usize, to: usize) -> (out: Vec<char>)
    requires
        from <= to <= list@.len(),
    ensures
        out@ == list@.subrange(from as int, to as int),
{
    let mut out: Vec<char> = Vec::new();
    let mut i: usize = from;
    while i < to
        invariant
            from <= i <= to <= list@.len(),
            out@ == list@.subrange(from as int, i as int),
        decreases to - i,
    {
        out.push(list[i]);
        assert(out@ == list@.subrange(from as int, i + 1));
        i += 1;
    }
    out
}

} // verus!
