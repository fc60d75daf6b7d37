use ystrokey_core::romaji::{
    is_romaji_consonant, is_romaji_vowel, romaji_map_1, romaji_map_2, romaji_map_3,
    romaji_to_hiragana,
};

#[test]
fn sentence_is_cut_at_syllables() {
    assert_eq!(romaji_to_hiragana("kyouhaiitenkidesune"), "きょうはいいてんきですね");
}

#[test]
fn sentence_leaves_no_latin_letters() {
    let kana = romaji_to_hiragana("kyouhaiitenkidesune");
    assert!(kana.chars().all(|c| !c.is_ascii()));
}

#[test]
fn single_n_is_held_back() {
    assert_eq!(romaji_to_hiragana("n"), "");
}

#[test]
fn double_n_is_one_kana() {
    assert_eq!(romaji_to_hiragana("nn"), "ん");
}

#[test]
fn empty_text_gives_nothing() {
    assert_eq!(romaji_to_hiragana(""), "");
}

#[test]
fn doubled_consonant_gives_small_tsu() {
    assert_eq!(romaji_to_hiragana("kka"), "っか");
    assert_eq!(romaji_to_hiragana("kitte"), "きって");
}

#[test]
fn n_before_consonant_is_syllabic() {
    assert_eq!(romaji_to_hiragana("kanji"), "かんじ");
    assert_eq!(romaji_to_hiragana("nihongo"), "にほんご");
}

#[test]
fn n_before_y_starts_a_syllable() {
    assert_eq!(romaji_to_hiragana("nya"), "にゃ");
    assert_eq!(romaji_to_hiragana("kinyuu"), "きにゅう");
}

#[test]
fn unknown_letter_passes_through() {
    assert_eq!(romaji_to_hiragana("nihogngo"), "にほgんご");
}

#[test]
fn last_unknown_letter_is_held_back() {
    assert_eq!(romaji_to_hiragana("k"), "");
    assert_eq!(romaji_to_hiragana("ak"), "あ");
    assert_eq!(romaji_to_hiragana("sh"), "s");
}

#[test]
fn case_and_other_characters_do_not_count() {
    assert_eq!(romaji_to_hiragana("KyoU"), "きょう");
    assert_eq!(romaji_to_hiragana("k-a 1"), "か");
}

#[test]
fn longest_syllable_wins() {
    assert_eq!(romaji_to_hiragana("shi"), "し");
    assert_eq!(romaji_to_hiragana("tsu"), "つ");
    assert_eq!(romaji_to_hiragana("chi"), "ち");
    assert_eq!(romaji_to_hiragana("fa"), "ふぁ");
    assert_eq!(romaji_to_hiragana("vu"), "ゔ");
    assert_eq!(romaji_to_hiragana("wo"), "を");
}

#[test]
fn same_text_gives_same_kana() {
    let once = romaji_to_hiragana("toukyou");
    let again = romaji_to_hiragana("toukyou");
    assert_eq!(once, again);
    assert_eq!(once, "とうきょう");
}

#[test]
fn tables_know_their_syllables() {
    assert_eq!(romaji_map_3('k', 'y', 'a'), Some("きゃ"));
    assert_eq!(romaji_map_3('j', 'y', 'o'), Some("じょ"));
    assert_eq!(romaji_map_3('x', 'y', 'a'), None);
    assert_eq!(romaji_map_2('k', 'a'), Some("か"));
    assert_eq!(romaji_map_2('j', 'i'), Some("じ"));
    assert_eq!(romaji_map_2('q', 'a'), None);
    assert_eq!(romaji_map_1('a'), Some("あ"));
    assert_eq!(romaji_map_1('o'), Some("お"));
    assert_eq!(romaji_map_1('k'), None);
}

#[test]
fn vowels_and_consonants() {
    assert!(is_romaji_vowel('a'));
    assert!(is_romaji_vowel('o'));
    assert!(!is_romaji_vowel('k'));
    assert!(!is_romaji_vowel('A'));
    assert!(is_romaji_consonant('k'));
    assert!(is_romaji_consonant('n'));
    assert!(!is_romaji_consonant('e'));
    assert!(!is_romaji_consonant('1'));
}

#[test]
fn j_with_a_vowel_is_one_syllable() {
    assert_eq!(romaji_to_hiragana("ja"), "じゃ");
    assert_eq!(romaji_to_hiragana("ju"), "じゅ");
    assert_eq!(romaji_to_hiragana("jo"), "じょ");
    assert_eq!(romaji_to_hiragana("ji"), "じ");
    assert_eq!(romaji_to_hiragana("jya"), "じゃ");
    assert_eq!(romaji_to_hiragana("zyu"), "じゅ");
    assert_eq!(romaji_map_2('j', 'a'), Some("じゃ"));
    assert_eq!(romaji_map_2('j', 'u'), Some("じゅ"));
    assert_eq!(romaji_map_2('j', 'o'), Some("じょ"));
    assert_eq!(romaji_map_2('j', 'e'), None);
}

#[test]
fn words_with_j_leave_no_latin_letters() {
    assert_eq!(romaji_to_hiragana("jagaimo"), "じゃがいも");
    assert_eq!(romaji_to_hiragana("juu"), "じゅう");
    assert_eq!(romaji_to_hiragana("joshi"), "じょし");
    assert_eq!(romaji_to_hiragana("kanja"), "かんじゃ");
    assert_eq!(romaji_to_hiragana("ninja"), "にんじゃ");
    assert_eq!(romaji_to_hiragana("jjo"), "っじょ");
    for word in ["ja", "ju", "jo", "jagaimo", "ninja", "fyu"] {
        assert!(romaji_to_hiragana(word).chars().all(|c| !c.is_ascii()));
    }
}

#[test]
fn fyu_is_one_syllable() {
    assert_eq!(romaji_to_hiragana("fyu"), "ふゅ");
    assert_eq!(romaji_map_3('f', 'y', 'u'), Some("ふゅ"));
    assert_eq!(romaji_map_3('f', 'y', 'a'), None);
    assert_eq!(romaji_to_hiragana("fyuuchaa"), "ふゅうちゃあ");
    assert_eq!(romaji_to_hiragana("fu"), "ふ");
}
