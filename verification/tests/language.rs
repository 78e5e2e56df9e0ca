use tencent_translate::language::{count_languages, is_chinese, target_language, Language};

#[test]
fn counts_ascii_and_ideographs() {
    assert_eq!(count_languages("hello"), (0, 5));
    assert_eq!(count_languages("你好"), (2, 0));
    assert_eq!(count_languages("hi 你好!"), (2, 4));
    assert_eq!(count_languages(""), (0, 0));
}

#[test]
fn other_scripts_are_passed_over() {
    assert_eq!(count_languages("привет"), (0, 0));
    assert_eq!(count_languages("こんにちは"), (0, 0));
    assert_eq!(count_languages("“你好”，é"), (2, 0));
    assert_eq!(count_languages("１２３"), (0, 0));
}

#[test]
fn ideograph_blocks_have_their_edges() {
    for (first, last) in [
        ('\u{4E00}', '\u{9FFF}'),
        ('\u{3400}', '\u{4DBF}'),
        ('\u{20000}', '\u{2A6DF}'),
        ('\u{2A700}', '\u{2B73F}'),
        ('\u{2B740}', '\u{2B81F}'),
        ('\u{2B820}', '\u{2CEAF}'),
        ('\u{F900}', '\u{FAFF}'),
        ('\u{2F800}', '\u{2FA1F}'),
    ] {
        assert!(is_chinese(first));
        assert!(is_chinese(last));
    }
    assert!(!is_chinese('\u{33FF}'));
    assert!(!is_chinese('\u{A000}'));
    assert!(!is_chinese('\u{F8FF}'));
    assert!(!is_chinese('\u{FB00}'));
    assert!(!is_chinese('\u{1FFFF}'));
    assert!(!is_chinese('\u{2A6E0}'));
    assert!(!is_chinese('\u{2CEB0}'));
    assert!(!is_chinese('\u{2F7FF}'));
    assert!(!is_chinese('\u{2FA20}'));
    assert!(!is_chinese('a'));
    assert!(!is_chinese('\u{7F}'));
}

#[test]
fn ascii_letters_go_to_chinese() {
    assert_eq!(target_language("hello"), Language::Chinese);
    assert_eq!(target_language("HelloWorld"), Language::Chinese);
    assert_eq!(target_language(""), Language::Chinese);
}

#[test]
fn ideographs_go_to_english() {
    assert_eq!(target_language("你好"), Language::English);
    assert_eq!(target_language("\u{20000}"), Language::English);
}

#[test]
fn a_tie_goes_to_chinese() {
    assert_eq!(count_languages("ab你好"), (2, 2));
    assert_eq!(target_language("ab你好"), Language::Chinese);
    assert_eq!(target_language("a你"), Language::Chinese);
    assert_eq!(target_language("a你好"), Language::English);
}

#[test]
fn languages_have_their_codes() {
    assert_eq!(Language::Chinese.code(), "zh");
    assert_eq!(Language::English.code(), "en");
}
