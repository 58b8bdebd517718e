use openbn::rule_set::{
    consonant, count_rules, empty_rule, expand_rules, punctuation, sign, sort_rules, vowel,
    RuleSpec, RuleTrigger,
};
use openbn::{Rule, TokenType};

const SPECS: &[RuleSpec] = &[
    (RuleTrigger::One("k"), TokenType::Consonant("ক")),
    (RuleTrigger::Many(&["ph", "f"]), TokenType::Consonant("ফ")),
    (RuleTrigger::One("rri"), TokenType::Vowel { independent: "ঋ", dependent: "ৃ" }),
    (RuleTrigger::Many(&["b", "a"]), TokenType::Sign("x")),
];

#[test]
fn token_constructors() {
    assert_eq!(vowel("আ", "া"), TokenType::Vowel { independent: "আ", dependent: "া" });
    assert_eq!(consonant("ক"), TokenType::Consonant("ক"));
    assert_eq!(sign("ং"), TokenType::Sign("ং"));
    assert_eq!(punctuation("।"), TokenType::Punctuation("।"));
    assert_eq!(empty_rule(), Rule { roman: "", token_type: TokenType::ForceSeparate });
}

#[test]
fn counts_one_rule_per_roman() {
    assert_eq!(count_rules(SPECS), 6);
    assert_eq!(count_rules(&[]), 0);
}

#[test]
fn expands_in_order() {
    let rules = expand_rules::<6>(SPECS);
    let romans: Vec<&str> = rules.iter().map(|r| r.roman).collect();
    assert_eq!(romans, vec!["k", "ph", "f", "rri", "b", "a"]);
    assert_eq!(rules[2].token_type, TokenType::Consonant("ফ"));
}

#[test]
fn sorts_longest_first_then_bytes() {
    let rules = expand_rules::<6>(SPECS);
    let sorted = sort_rules(rules);
    let romans: Vec<&str> = sorted.iter().map(|r| r.roman).collect();
    assert_eq!(romans, vec!["rri", "ph", "a", "b", "f", "k"]);
    assert_eq!(sorted[0].token_type, TokenType::Vowel { independent: "ঋ", dependent: "ৃ" });
}

#[test]
fn sorting_orders_uppercase_first() {
    let rules = vec![
        Rule { roman: "t", token_type: TokenType::Consonant("ত") },
        Rule { roman: "T", token_type: TokenType::Consonant("ট") },
        Rule { roman: "th", token_type: TokenType::Consonant("থ") },
        Rule { roman: "Th", token_type: TokenType::Consonant("ঠ") },
    ];
    let sorted = sort_rules(rules);
    let romans: Vec<&str> = sorted.iter().map(|r| r.roman).collect();
    assert_eq!(romans, vec!["Th", "th", "T", "t"]);
    assert!(sort_rules(Vec::new()).is_empty());
}
