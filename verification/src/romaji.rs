use vstd::prelude::*;

use crate::text::{ascii_lower, is_ascii_letter, lower_of, letter};

verus! {

/// The five vowels, in lower case.
pub open spec fn vowel(c: char) -> bool {
    c == 'a' || c == 'i' || c == 'u' || c == 'e' || c == 'o'
}

/// A letter that is no vowel.
pub open spec fn consonant(c: char) -> bool {
    letter(c) && !vowel(c)
}

/// The kana written by three letters, if they form a syllable.
pub open spec fn kana_3(a: char, b: char, c: char) -> Option<Seq<char>> {
    match (a, b, c) {
        ('k', 'y', 'a') => Some("きゃ"@),
        ('k', 'y', 'u') => Some("きゅ"@),
        ('k', 'y', 'o') => Some("きょ"@),
        ('g', 'y', 'a') => Some("ぎゃ"@),
        ('g', 'y', 'u') => Some("ぎゅ"@),
        ('g', 'y', 'o') => Some("ぎょ"@),
        ('s', 'h', 'a') | ('s', 'y', 'a') => Some("しゃ"@),
        ('s', 'h', 'u') | ('s', 'y', 'u') => Some("しゅ"@),
        ('s', 'h', 'o') | ('s', 'y', 'o') => Some("しょ"@),
        ('c', 'h', 'a') | ('t', 'y', 'a') | ('c', 'y', 'a') => Some("ちゃ"@),
        ('c', 'h', 'u') | ('t', 'y', 'u') | ('c', 'y', 'u') => Some("ちゅ"@),
        ('c', 'h', 'o') | ('t', 'y', 'o') | ('c', 'y', 'o') => Some("ちょ"@),
        ('n', 'y', 'a') => Some("にゃ"@),
        ('n', 'y', 'u') => Some("にゅ"@),
        ('n', 'y', 'o') => Some("にょ"@),
        ('h', 'y', 'a') => Some("ひゃ"@),
        ('h', 'y', 'u') => Some("ひゅ"@),
        ('h', 'y', 'o') => Some("ひょ"@),
        ('m', 'y', 'a') => Some("みゃ"@),
        ('m', 'y', 'u') => Some("みゅ"@),
        ('m', 'y', 'o') => Some("みょ"@),
        ('r', 'y', 'a') => Some("りゃ"@),
        ('r', 'y', 'u') => Some("りゅ"@),
        ('r', 'y', 'o') => Some("りょ"@),
        ('b', 'y', 'a') => Some("びゃ"@),
        ('b', 'y', 'u') => Some("びゅ"@),
        ('b', 'y', 'o') => Some("びょ"@),
        ('p', 'y', 'a') => Some("ぴゃ"@),
        ('p', 'y', 'u') => Some("ぴゅ"@),
        ('p', 'y', 'o') => Some("ぴょ"@),
        ('j', 'y', 'a') | ('z', 'y', 'a') => Some("じゃ"@),
        ('j', 'y', 'u') | ('z', 'y', 'u') => Some("じゅ"@),
        ('j', 'y', 'o') | ('z', 'y', 'o') => Some("じょ"@),
        ('s', 'h', 'i') => Some("し"@),
        ('c', 'h', 'i') => Some("ち"@),
        ('t', 's', 'u') => Some("つ"@),
        ('d', 'y', 'a') => Some("ぢゃ"@),
        ('d', 'y', 'u') => Some("ぢゅ"@),
        ('d', 'y', 'o') => Some("ぢょ"@),
        ('f', 'y', 'u') => Some("ふゅ"@),
        _ => None,
    }
}

/// The kana written by two letters, if they form a syllable.
pub open spec fn kana_2(a: char, b: char) -> Option<Seq<char>> {
    match (a, b) {
        ('k', 'a') => Some("か"@),
        ('k', 'i') => Some("き"@),
        ('k', 'u') => Some("く"@),
        ('k', 'e') => Some("け"@),
        ('k', 'o') => Some("こ"@),
        ('g', 'a') => Some("が"@),
        ('g', 'i') => Some("ぎ"@),
        ('g', 'u') => Some("ぐ"@),
        ('g', 'e') => Some("げ"@),
        ('g', 'o') => Some("ご"@),
        ('s', 'a') => Some("さ"@),
        ('s', 'u') => Some("す"@),
        ('s', 'e') => Some("せ"@),
        ('s', 'o') => Some("そ"@),
        ('z', 'a') => Some("ざ"@),
        ('j', 'i') => Some("じ"@),
        ('j', 'a') => Some("じゃ"@),
        ('j', 'u') => Some("じゅ"@),
        ('j', 'o') => Some("じょ"@),
        ('z', 'u') => Some("ず"@),
        ('z', 'e') => Some("ぜ"@),
        ('z', 'o') => Some("ぞ"@),
        ('t', 'a') => Some("た"@),
        ('t', 'e') => Some("て"@),
        ('t', 'o') => Some("と"@),
        ('d', 'a') => Some("だ"@),
        ('d', 'i') => Some("ぢ"@),
        ('d', 'u') => Some("づ"@),
        ('d', 'e') => Some("で"@),
        ('d', 'o') => Some("ど"@),
        ('n', 'a') => Some("な"@),
        ('n', 'i') => Some("に"@),
        ('n', 'u') => Some("ぬ"@),
        ('n', 'e') => Some("ね"@),
        ('n', 'o') => Some("の"@),
        ('h', 'a') => Some("は"@),
        ('h', 'i') => Some("ひ"@),
        ('f', 'u') => Some("ふ"@),
        ('h', 'e') => Some("へ"@),
        ('h', 'o') => Some("ほ"@),
        ('b', 'a') => Some("ば"@),
        ('b', 'i') => Some("び"@),
        ('b', 'u') => Some("ぶ"@),
        ('b', 'e') => Some("べ"@),
        ('b', 'o') => Some("ぼ"@),
        ('p', 'a') => Some("ぱ"@),
        ('p', 'i') => Some("ぴ"@),
        ('p', 'u') => Some("ぷ"@),
        ('p', 'e') => Some("ぺ"@),
        ('p', 'o') => Some("ぽ"@),
        ('m', 'a') => Some("ま"@),
        ('m', 'i') => Some("み"@),
        ('m', 'u') => Some("む"@),
        ('m', 'e') => Some("め"@),
        ('m', 'o') => Some("も"@),
        ('y', 'a') => Some("や"@),
        ('y', 'u') => Some("ゆ"@),
        ('y', 'o') => Some("よ"@),
        ('r', 'a') => Some("ら"@),
        ('r', 'i') => Some("り"@),
        ('r', 'u') => Some("る"@),
        ('r', 'e') => Some("れ"@),
        ('r', 'o') => Some("ろ"@),
        ('w', 'a') => Some("わ"@),
        ('w', 'o') => Some("を"@),
        ('f', 'a') => Some("ふぁ"@),
        ('f', 'i') => Some("ふぃ"@),
        ('f', 'e') => Some("ふぇ"@),
        ('f', 'o') => Some("ふぉ"@),
        ('v', 'a') => Some("ゔぁ"@),
        ('v', 'i') => Some("ゔぃ"@),
        ('v', 'u') => Some("ゔ"@),
        ('v', 'e') => Some("ゔぇ"@),
        ('v', 'o') => Some("ゔぉ"@),
        _ => None,
    }
}

/// The kana written by a single vowel.
pub open spec fn kana_1(a: char) -> Option<Seq<char>> {
    match a {
        'a' => Some("あ"@),
        'i' => Some("い"@),
        'u' => Some("う"@),
        'e' => Some("え"@),
        'o' => Some("お"@),
        _ => None,
    }
}

/// The letters of a text, in order and in lower case; everything else is
/// dropped.
pub open spec fn letters_of(s: Seq<char>) -> Seq<char>
    decreases s.len(),
{
    if s.len() == 0 {
        Seq::empty()
    } else if letter(s.last()) {
        letters_of(s.drop_last()).push(lower_of(s.last()))
    } else {
        letters_of(s.drop_last())
    }
}

/// A consonant other than `n` written twice in a row at `i`: the first of
/// the two is a small tsu.
pub open spec fn doubled_at(s: Seq<char>, i: int) -> bool {
    &&& 0 <= i
    &&& i + 1 < s.len()
    &&& s[i] == s[i + 1]
    &&& consonant(s[i])
    &&& s[i] != 'n'
}

/// An `n` at `i` that is a syllable of its own: it is followed by another
/// `n`, or by a consonant other than `y`.
pub open spec fn syllabic_n_at(s: Seq<char>, i: int) -> bool {
    &&& 0 <= i
    &&& i + 1 < s.len()
    &&& s[i] == 'n'
    &&& (s[i + 1] == 'n' || (!vowel(s[i + 1]) && s[i + 1] != 'y'))
}

/// The kana for the letters `s` from position `i` on.
///
/// At each position the first rule that applies is taken: a doubled
/// consonant gives a small tsu and moves on by one letter; an `n` that
/// ends the text is held back, since what follows decides it; a syllabic
/// `n` gives its kana and moves on by one letter; else the longest of the
/// three-, two- and one-letter syllables that starts here is written;
/// else a last letter is held back; else the letter is passed through.
pub open spec fn kana_from(s: Seq<char>, i: int) -> Seq<char>
    decreases s.len() - i,
{
    if i < 0 || i >= s.len() {
        Seq::empty()
    } else if doubled_at(s, i) {
        seq!['っ'] + kana_from(s, i + 1)
    } else if s[i] == 'n' && i + 1 == s.len() {
        Seq::empty()
    } else if syllabic_n_at(s, i) {
        seq!['ん'] + kana_from(s, i + 1)
    } else if i + 3 <= s.len() && kana_3(s[i], s[i + 1], s[i + 2]) is Some {
        kana_3(s[i], s[i + 1], s[i + 2])->0 + kana_from(s, i + 3)
    } else if i + 2 <= s.len() && kana_2(s[i], s[i + 1]) is Some {
        kana_2(s[i], s[i + 1])->0 + kana_from(s, i + 2)
    } else if kana_1(s[i]) is Some {
        kana_1(s[i])->0 + kana_from(s, i + 1)
    } else if i + 1 >= s.len() {
        Seq::empty()
    } else {
        seq![s[i]] + kana_from(s, i + 1)
    }
}

/// The hiragana for a romaji text: the kana of its letters.
pub open spec fn hiragana_of(romaji: Seq<char>) -> Seq<char> {
    kana_from(letters_of(romaji), 0)
}

/// Whether a letter is one of the five vowels, in lower case.
pub fn is_romaji_vowel(c: char) -> (b: bool)
    ensures
        b == vowel(c),
{
    c == 'a' || c == 'i' || c == 'u' || c == 'e' || c == 'o'
}

/// Whether a character is a letter that is no vowel.
pub fn is_romaji_consonant(c: char) -> (b: bool)
    ensures
        b == consonant(c),
{
    is_ascii_letter(c) && !is_romaji_vowel(c)
}

/// The kana written by three letters, if they form a syllable.
pub fn romaji_map_3(a: char, b: char, c: char) -> (kana: Option<&'static str>)
    ensures
        match kana {
            Some(k) => kana_3(a, b, c) == Some(k@),
            None => kana_3(a, b, c) is None,
        },
{
    match (a, b, c) {
        ('k', 'y', 'a') => Some("きゃ"),
        ('k', 'y', 'u') => Some("きゅ"),
        ('k', 'y', 'o') => Some("きょ"),
        ('g', 'y', 'a') => Some("ぎゃ"),
        ('g', 'y', 'u') => Some("ぎゅ"),
        ('g', 'y', 'o') => Some("ぎょ"),
        ('s', 'h', 'a') | ('s', 'y', 'a') => Some("しゃ"),
        ('s', 'h', 'u') | ('s', 'y', 'u') => Some("しゅ"),
        ('s', 'h', 'o') | ('s', 'y', 'o') => Some("しょ"),
        ('c', 'h', 'a') | ('t', 'y', 'a') | ('c', 'y', 'a') => Some("ちゃ"),
        ('c', 'h', 'u') | ('t', 'y', 'u') | ('c', 'y', 'u') => Some("ちゅ"),
        ('c', 'h', 'o') | ('t', 'y', 'o') | ('c', 'y', 'o') => Some("ちょ"),
        ('n', 'y', 'a') => Some("にゃ"),
        ('n', 'y', 'u') => Some("にゅ"),
        ('n', 'y', 'o') => Some("にょ"),
        ('h', 'y', 'a') => Some("ひゃ"),
        ('h', 'y', 'u') => Some("ひゅ"),
        ('h', 'y', 'o') => Some("ひょ"),
        ('m', 'y', 'a') => Some("みゃ"),
        ('m', 'y', 'u') => Some("みゅ"),
        ('m', 'y', 'o') => Some("みょ"),
        ('r', 'y', 'a') => Some("りゃ"),
        ('r', 'y', 'u') => Some("りゅ"),
        ('r', 'y', 'o') => Some("りょ"),
        ('b', 'y', 'a') => Some("びゃ"),
        ('b', 'y', 'u') => Some("びゅ"),
        ('b', 'y', 'o') => Some("びょ"),
        ('p', 'y', 'a') => Some("ぴゃ"),
        ('p', 'y', 'u') => Some("ぴゅ"),
        ('p', 'y', 'o') => Some("ぴょ"),
        ('j', 'y', 'a') | ('z', 'y', 'a') => Some("じゃ"),
        ('j', 'y', 'u') | ('z', 'y', 'u') => Some("じゅ"),
        ('j', 'y', 'o') | ('z', 'y', 'o') => Some("じょ"),
        ('s', 'h', 'i') => Some("し"),
        ('c', 'h', 'i') => Some("ち"),
        ('t', 's', 'u') => Some("つ"),
        ('d', 'y', 'a') => Some("ぢゃ"),
        ('d', 'y', 'u') => Some("ぢゅ"),
        ('d', 'y', 'o') => Some("ぢょ"),
        ('f', 'y', 'u') => Some("ふゅ"),
        _ => None,
    }
}

/// The kana written by two letters, if they form a syllable.
pub fn romaji_map_2(a: char, b: char) -> (kana: Option<&'static str>)
    ensures
        match kana {
            Some(k) => kana_2(a, b) == Some(k@),
            None => kana_2(a, b) is None,
        },
{
    match (a, b) {
        ('k', 'a') => Some("か"),
        ('k', 'i') => Some("き"),
        ('k', 'u') => Some("く"),
        ('k', 'e') => Some("け"),
        ('k', 'o') => Some("こ"),
        ('g', 'a') => Some("が"),
        ('g', 'i') => Some("ぎ"),
        ('g', 'u') => Some("ぐ"),
        ('g', 'e') => Some("げ"),
        ('g', 'o') => Some("ご"),
        ('s', 'a') => Some("さ"),
        ('s', 'u') => Some("す"),
        ('s', 'e') => Some("せ"),
        ('s', 'o') => Some("そ"),
        ('z', 'a') => Some("ざ"),
        ('j', 'i') => Some("じ"),
        ('j', 'a') => Some("じゃ"),
        ('j', 'u') => Some("じゅ"),
        ('j', 'o') => Some("じょ"),
        ('z', 'u') => Some("ず"),
        ('z', 'e') => Some("ぜ"),
        ('z', 'o') => Some("ぞ"),
        ('t', 'a') => Some("た"),
        ('t', 'e') => Some("て"),
        ('t', 'o') => Some("と"),
        ('d', 'a') => Some("だ"),
        ('d', 'i') => Some("ぢ"),
        ('d', 'u') => Some("づ"),
        ('d', 'e') => Some("で"),
        ('d', 'o') => Some("ど"),
        ('n', 'a') => Some("な"),
        ('n', 'i') => Some("に"),
        ('n', 'u') => Some("ぬ"),
        ('n', 'e') => Some("ね"),
        ('n', 'o') => Some("の"),
        ('h', 'a') => Some("は"),
        ('h', 'i') => Some("ひ"),
        ('f', 'u') => Some("ふ"),
        ('h', 'e') => Some("へ"),
        ('h', 'o') => Some("ほ"),
        ('b', 'a') => Some("ば"),
        ('b', 'i') => Some("び"),
        ('b', 'u') => Some("ぶ"),
        ('b', 'e') => Some("べ"),
        ('b', 'o') => Some("ぼ"),
        ('p', 'a') => Some("ぱ"),
        ('p', 'i') => Some("ぴ"),
        ('p', 'u') => Some("ぷ"),
        ('p', 'e') => Some("ぺ"),
        ('p', 'o') => Some("ぽ"),
        ('m', 'a') => Some("ま"),
        ('m', 'i') => Some("み"),
        ('m', 'u') => Some("む"),
        ('m', 'e') => Some("め"),
        ('m', 'o') => Some("も"),
        ('y', 'a') => Some("や"),
        ('y', 'u') => Some("ゆ"),
        ('y', 'o') => Some("よ"),
        ('r', 'a') => Some("ら"),
        ('r', 'i') => Some("り"),
        ('r', 'u') => Some("る"),
        ('r', 'e') => Some("れ"),
        ('r', 'o') => Some("ろ"),
        ('w', 'a') => Some("わ"),
        ('w', 'o') => Some("を"),
        ('f', 'a') => Some("ふぁ"),
        ('f', 'i') => Some("ふぃ"),
        ('f', 'e') => Some("ふぇ"),
        ('f', 'o') => Some("ふぉ"),
        ('v', 'a') => Some("ゔぁ"),
        ('v', 'i') => Some("ゔぃ"),
        ('v', 'u') => Some("ゔ"),
        ('v', 'e') => Some("ゔぇ"),
        ('v', 'o') => Some("ゔぉ"),
        _ => None,
    }
}

/// The kana written by a single vowel.
pub fn romaji_map_1(a: char) -> (kana: Option<&'static str>)
    ensures
        match kana {
            Some(k) => kana_1(a) == Some(k@),
            None => kana_1(a) is None,
        },
{
    match a {
        'a' => Some("あ"),
        'i' => Some("い"),
        'u' => Some("う"),
        'e' => Some("え"),
        'o' => Some("お"),
        _ => None,
    }
}

/// Collects the letters of a text, in lower case.
fn collect_letters(romaji: &str) -> (letters: Vec<char>)
    ensures
        letters@ == letters_of(romaji@),
{
    let mut letters: Vec<char> = Vec::new();
    for c in it: romaji.chars()
        invariant
            it.seq() == romaji@,
            letters@ == letters_of(romaji@.subrange(0, it.index() as int)),
    {
        proof {
            let upto = romaji@.subrange(0, it.index() + 1);
            assert(upto.drop_last() == romaji@.subrange(0, it.index() as int));
            assert(upto.last() == c);
        }
        if is_ascii_letter(c) {
            letters.push(ascii_lower(c));
        }
    }
    proof {
        assert(romaji@.subrange(0, romaji@.len() as int) == romaji@);
    }
    letters
}

/// Transliterates romaji to hiragana.
///
/// Only the letters of `romaji` count, and their case does not. A letter
/// at the end that may yet become part of a syllable is not written, so
/// the result of a text and that of the text with more letters typed
/// after it may differ in more than a suffix.
pub fn romaji_to_hiragana(romaji: &str) -> (out: String)
    ensures
        out@ == hiragana_of(romaji@),
{
    let letters = collect_letters(romaji);
    let n: usize = letters.len();
    let mut out = String::new();
    let mut i: usize = 0;
    loop
        invariant_except_break
            out@ + kana_from(letters@, i as int) == kana_from(letters@, 0),
        invariant
            n == letters@.len(),
            i <= n,
        ensures
            out@ == kana_from(letters@, 0),
        decreases n - i,
    {
        if i >= n {
            proof {
                assert(out@ + Seq::<char>::empty() == out@);
            }
            break ;
        }
        let ghost before = out@;
        let c = letters[i];
        if i + 1 < n && c == letters[i + 1] && is_romaji_consonant(c) && c != 'n' {
            out.push('っ');
            assert((before + seq!['っ']) + kana_from(letters@, i + 1) == before + (seq!['っ']
                + kana_from(letters@, i + 1)));
            assert(out@ == before + seq!['っ']);
            i += 1;
            continue ;
        }
        if c == 'n' {
            if i + 1 == n {
                proof {
                    assert(out@ + Seq::<char>::empty() == out@);
                }
                break ;
            }
            let next = letters[i + 1];
            if next == 'n' || (!is_romaji_vowel(next) && next != 'y') {
                out.push('ん');
                assert((before + seq!['ん']) + kana_from(letters@, i + 1) == before + (seq!['ん']
                    + kana_from(letters@, i + 1)));
                assert(out@ == before + seq!['ん']);
                i += 1;
                continue ;
            }
        }
        if n - i >= 3 {
            if let Some(kana) = romaji_map_3(c, letters[i + 1], letters[i + 2]) {
                out.append(kana);
                assert((before + kana@) + kana_from(letters@, i + 3) == before + (kana@
                    + kana_from(letters@, i + 3)));
                i += 3;
                continue ;
            }
        }
        if n - i >= 2 {
            if let Some(kana) = romaji_map_2(c, letters[i + 1]) {
                out.append(kana);
                assert((before + kana@) + kana_from(letters@, i + 2) == before + (kana@
                    + kana_from(letters@, i + 2)));
                i += 2;
                continue ;
            }
        }
        if let Some(kana) = romaji_map_1(c) {
            out.append(kana);
            assert((before + kana@) + kana_from(letters@, i + 1) == before + (kana@ + kana_from(
                letters@,
                i + 1,
            )));
            i += 1;
            continue ;
        }
        if n - i <= 1 {
            proof {
                assert(out@ + Seq::<char>::empty() == out@);
            }
            break ;
        }
        out.push(c);
        assert((before + seq![c]) + kana_from(letters@, i + 1) == before + (seq![c] + kana_from(
            letters@,
            i + 1,
        )));
        assert(out@ == before + seq![c]);
        i += 1;
    }
    out
}

} // verus!
