use openbn::rules::{rule_at, rules, word_overrides, RULE_COUNT};
use openbn::{is_consonant, translate, TokenType};

#[test]
fn test_vowels() {
    assert_eq!(translate("a"), "আ");
    assert_eq!(translate("i"), "ই");
    assert_eq!(translate("u"), "উ");
    assert_eq!(translate("e"), "এ");
    assert_eq!(translate("o"), "ও");
}

#[test]
fn test_dependent_vowels() {
    assert_eq!(translate("ka"), "কা");
    assert_eq!(translate("ki"), "কি");
    assert_eq!(translate("ku"), "কু");
    assert_eq!(translate("ke"), "কে");
    assert_eq!(translate("ko"), "কো");
}

#[test]
fn test_consonants() {
    assert_eq!(translate("k"), "ক");
    assert_eq!(translate("kh"), "খ");
    assert_eq!(translate("g"), "গ");
    assert_eq!(translate("gh"), "ঘ");
}

#[test]
fn test_conjuncts() {
    assert_eq!(translate("kt"), "ক্ত");
    assert_eq!(translate("kkh"), "ক্খ");
    assert_eq!(translate("sp"), "স্প");
}

#[test]
fn test_special_characters() {
    assert_eq!(translate("ami"), "আমি");
    assert_eq!(translate("bangla"), "বাংলা");
    assert_eq!(translate("sabar"), "সবার");
}

#[test]
fn test_force_separate() {
    // k + ` + kh should be separate (কখ) instead of conjunct (ক্খ)
    assert_eq!(translate("k`kh"), "কখ");
    assert_eq!(translate("k`a"), "কআ");
}

#[test]
fn test_y_ja_phala() {
    assert_eq!(translate("ky"), "ক্য"); // ja-phala
    assert_eq!(translate("ay"), "আ\u{09DF}"); // yya
}

#[test]
fn test_punctuation() {
    assert_eq!(translate("ami."), "আমি।");
    assert_eq!(translate("ami.."), "ami.");
}

#[test]
fn empty_word_translates_to_nothing() {
    assert_eq!(translate(""), "");
}

#[test]
fn longest_rule_wins() {
    assert_eq!(translate("rRI"), "ঋ");
    assert_eq!(translate("krRI"), "কৃ");
    assert_eq!(translate("oi"), "ঐ");
    assert_eq!(translate("koi"), "কৈ");
    assert_eq!(translate("kou"), "কৌ");
}

#[test]
fn unmatched_characters_are_copied() {
    assert_eq!(translate("123"), "123");
    assert_eq!(translate("k1a"), "ক1আ");
    assert_eq!(translate("q"), "q");
}

#[test]
fn lone_y_is_yya() {
    assert_eq!(translate("y"), "\u{09DF}");
    assert_eq!(translate("`y"), "\u{09DF}");
}

#[test]
fn sign_breaks_consonant_link() {
    assert_eq!(translate("kH"), "কঃ");
    assert_eq!(translate("kHk"), "কঃক");
    assert_eq!(translate("t`"), "ৎ");
}

#[test]
fn hasant_joins_three_consonants() {
    assert_eq!(translate("str"), "স্ত্র");
    assert_eq!(translate("x"), "ক্ষ");
}

#[test]
fn vowel_after_vowel_is_independent() {
    assert_eq!(translate("ai"), "আই");
    assert_eq!(translate("kai"), "কাই");
}

#[test]
fn punctuation_marks() {
    assert_eq!(translate("."), "।");
    assert_eq!(translate(".."), ".");
    assert_eq!(translate("k."), "ক।");
}

#[test]
fn consonant_class() {
    assert!(is_consonant('ক'));
    assert!(is_consonant('হ'));
    assert!(is_consonant('\u{09DC}'));
    assert!(is_consonant('\u{09DD}'));
    assert!(is_consonant('\u{09DF}'));
    assert!(!is_consonant('া'));
    assert!(!is_consonant('আ'));
    assert!(!is_consonant('a'));
    assert!(!is_consonant('\u{09BA}'));
}

#[test]
fn rule_table_is_longest_first() {
    let table = rules();
    assert_eq!(table.len(), RULE_COUNT);
    for k in 1..table.len() {
        assert!(table[k - 1].roman.chars().count() >= table[k].roman.chars().count());
        assert!(!table[k].roman.is_empty());
    }
    assert_eq!(rule_at(0).roman, "rRI");
    assert_eq!(rule_at(RULE_COUNT - 1).token_type, TokenType::Punctuation("।"));
}

#[test]
fn word_overrides_listed() {
    let words = word_overrides();
    assert_eq!(words.len(), 2);
    assert_eq!(words[0], ("sabar", "সবার"));
}
