//! The transliteration rule table and the character classes it relies on.

use vstd::prelude::*;

verus! {

/// What a Roman key sequence stands for.
#[derive(Debug, Clone, Copy, PartialEq, Eq)]
pub enum TokenType {
    /// A vowel: its independent letter, and the dependent sign (kar) used
    /// right after a consonant.
    Vowel { independent: &'static str, dependent: &'static str },
    /// A consonant letter.
    Consonant(&'static str),
    /// A sign that neither links to a consonant nor takes a vowel sign.
    Sign(&'static str),
    /// Breaks the link between two consonants and writes nothing.
    ForceSeparate,
    /// A punctuation mark.
    Punctuation(&'static str),
}

/// One rule: a Roman key sequence and the token it stands for.
#[derive(Debug, Clone, Copy, PartialEq, Eq)]
pub struct Rule {
    pub roman: &'static str,
    pub token_type: TokenType,
}

/// The number of rules in the table.
pub const RULE_COUNT: usize = 56;

/// The rule at position `k` of the table. The table lists the longest Roman
/// sequences first, so that the first rule that matches at a position is a
/// longest one. `ng` stands for the anusvara (ং).
pub open spec fn spec_rule_at(k: int) -> Rule {
    if k == 0 {
        Rule { roman: "rRI", token_type: TokenType::Vowel { independent: "ঋ", dependent: "ৃ" } }
    } else if k == 1 {
        Rule { roman: "NGG", token_type: TokenType::Sign("ঃ") }
    } else if k == 2 {
        Rule { roman: "nGC", token_type: TokenType::Sign("ঁ") }
    } else if k == 3 {
        Rule { roman: "kh", token_type: TokenType::Consonant("খ") }
    } else if k == 4 {
        Rule { roman: "gh", token_type: TokenType::Consonant("ঘ") }
    } else if k == 5 {
        Rule { roman: "ch", token_type: TokenType::Consonant("ছ") }
    } else if k == 6 {
        Rule { roman: "jh", token_type: TokenType::Consonant("ঝ") }
    } else if k == 7 {
        Rule { roman: "Th", token_type: TokenType::Consonant("ঠ") }
    } else if k == 8 {
        Rule { roman: "Dh", token_type: TokenType::Consonant("ঢ") }
    } else if k == 9 {
        Rule { roman: "th", token_type: TokenType::Consonant("থ") }
    } else if k == 10 {
        Rule { roman: "dh", token_type: TokenType::Consonant("ধ") }
    } else if k == 11 {
        Rule { roman: "bh", token_type: TokenType::Consonant("ভ") }
    } else if k == 12 {
        Rule { roman: "sh", token_type: TokenType::Consonant("শ") }
    } else if k == 13 {
        Rule { roman: "Rh", token_type: TokenType::Consonant("\u{09DD}") }
    } else if k == 14 {
        Rule { roman: "ph", token_type: TokenType::Consonant("ফ") }
    } else if k == 15 {
        Rule { roman: "oi", token_type: TokenType::Vowel { independent: "ঐ", dependent: "ৈ" } }
    } else if k == 16 {
        Rule { roman: "ou", token_type: TokenType::Vowel { independent: "ঔ", dependent: "ৌ" } }
    } else if k == 17 {
        Rule { roman: "t`", token_type: TokenType::Sign("ৎ") }
    } else if k == 18 {
        Rule { roman: "..", token_type: TokenType::Punctuation(".") }
    } else if k == 19 {
        Rule { roman: "ng", token_type: TokenType::Sign("ং") }
    } else if k == 20 {
        Rule { roman: "k", token_type: TokenType::Consonant("ক") }
    } else if k == 21 {
        Rule { roman: "g", token_type: TokenType::Consonant("গ") }
    } else if k == 22 {
        Rule { roman: "c", token_type: TokenType::Consonant("চ") }
    } else if k == 23 {
        Rule { roman: "j", token_type: TokenType::Consonant("জ") }
    } else if k == 24 {
        Rule { roman: "T", token_type: TokenType::Consonant("ট") }
    } else if k == 25 {
        Rule { roman: "D", token_type: TokenType::Consonant("ড") }
    } else if k == 26 {
        Rule { roman: "N", token_type: TokenType::Consonant("ণ") }
    } else if k == 27 {
        Rule { roman: "t", token_type: TokenType::Consonant("ত") }
    } else if k == 28 {
        Rule { roman: "d", token_type: TokenType::Consonant("দ") }
    } else if k == 29 {
        Rule { roman: "n", token_type: TokenType::Consonant("ন") }
    } else if k == 30 {
        Rule { roman: "p", token_type: TokenType::Consonant("প") }
    } else if k == 31 {
        Rule { roman: "f", token_type: TokenType::Consonant("ফ") }
    } else if k == 32 {
        Rule { roman: "b", token_type: TokenType::Consonant("ব") }
    } else if k == 33 {
        Rule { roman: "v", token_type: TokenType::Consonant("ভ") }
    } else if k == 34 {
        Rule { roman: "m", token_type: TokenType::Consonant("ম") }
    } else if k == 35 {
        Rule { roman: "z", token_type: TokenType::Consonant("য") }
    } else if k == 36 {
        Rule { roman: "r", token_type: TokenType::Consonant("র") }
    } else if k == 37 {
        Rule { roman: "l", token_type: TokenType::Consonant("ল") }
    } else if k == 38 {
        Rule { roman: "S", token_type: TokenType::Consonant("ষ") }
    } else if k == 39 {
        Rule { roman: "s", token_type: TokenType::Consonant("স") }
    } else if k == 40 {
        Rule { roman: "h", token_type: TokenType::Consonant("হ") }
    } else if k == 41 {
        Rule { roman: "R", token_type: TokenType::Consonant("\u{09DC}") }
    } else if k == 42 {
        Rule { roman: "y", token_type: TokenType::Consonant("\u{09DF}") }
    } else if k == 43 {
        Rule { roman: "x", token_type: TokenType::Consonant("ক্ষ") }
    } else if k == 44 {
        Rule { roman: "w", token_type: TokenType::Consonant("ব") }
    } else if k == 45 {
        Rule { roman: "a", token_type: TokenType::Vowel { independent: "আ", dependent: "া" } }
    } else if k == 46 {
        Rule { roman: "i", token_type: TokenType::Vowel { independent: "ই", dependent: "ি" } }
    } else if k == 47 {
        Rule { roman: "I", token_type: TokenType::Vowel { independent: "ঈ", dependent: "ী" } }
    } else if k == 48 {
        Rule { roman: "u", token_type: TokenType::Vowel { independent: "উ", dependent: "ু" } }
    } else if k == 49 {
        Rule { roman: "U", token_type: TokenType::Vowel { independent: "ঊ", dependent: "ূ" } }
    } else if k == 50 {
        Rule { roman: "e", token_type: TokenType::Vowel { independent: "এ", dependent: "ে" } }
    } else if k == 51 {
        Rule { roman: "o", token_type: TokenType::Vowel { independent: "ও", dependent: "ো" } }
    } else if k == 52 {
        Rule { roman: "O", token_type: TokenType::Vowel { independent: "ও", dependent: "ো" } }
    } else if k == 53 {
        Rule { roman: "H", token_type: TokenType::Sign("ঃ") }
    } else if k == 54 {
        Rule { roman: "`", token_type: TokenType::ForceSeparate }
    } else {
        Rule { roman: ".", token_type: TokenType::Punctuation("।") }
    }
}

/// The rule table as a sequence.
pub open spec fn spec_rules() -> Seq<Rule> {
    Seq::new(RULE_COUNT as nat, |k: int| spec_rule_at(k))
}

/// The rule at position `k` of the table.
pub fn rule_at(k: usize) -> (r: Rule)
    requires
        k < RULE_COUNT,
    ensures
        r == spec_rule_at(k as int),
{
    match k {
        0 => Rule { roman: "rRI", token_type: TokenType::Vowel { independent: "ঋ", dependent: "ৃ" } },
        1 => Rule { roman: "NGG", token_type: TokenType::Sign("ঃ") },
        2 => Rule { roman: "nGC", token_type: TokenType::Sign("ঁ") },
        3 => Rule { roman: "kh", token_type: TokenType::Consonant("খ") },
        4 => Rule { roman: "gh", token_type: TokenType::Consonant("ঘ") },
        5 => Rule { roman: "ch", token_type: TokenType::Consonant("ছ") },
        6 => Rule { roman: "jh", token_type: TokenType::Consonant("ঝ") },
        7 => Rule { roman: "Th", token_type: TokenType::Consonant("ঠ") },
        8 => Rule { roman: "Dh", token_type: TokenType::Consonant("ঢ") },
        9 => Rule { roman: "th", token_type: TokenType::Consonant("থ") },
        10 => Rule { roman: "dh", token_type: TokenType::Consonant("ধ") },
        11 => Rule { roman: "bh", token_type: TokenType::Consonant("ভ") },
        12 => Rule { roman: "sh", token_type: TokenType::Consonant("শ") },
        13 => Rule { roman: "Rh", token_type: TokenType::Consonant("\u{09DD}") },
        14 => Rule { roman: "ph", token_type: TokenType::Consonant("ফ") },
        15 => Rule { roman: "oi", token_type: TokenType::Vowel { independent: "ঐ", dependent: "ৈ" } },
        16 => Rule { roman: "ou", token_type: TokenType::Vowel { independent: "ঔ", dependent: "ৌ" } },
        17 => Rule { roman: "t`", token_type: TokenType::Sign("ৎ") },
        18 => Rule { roman: "..", token_type: TokenType::Punctuation(".") },
        19 => Rule { roman: "ng", token_type: TokenType::Sign("ং") },
        20 => Rule { roman: "k", token_type: TokenType::Consonant("ক") },
        21 => Rule { roman: "g", token_type: TokenType::Consonant("গ") },
        22 => Rule { roman: "c", token_type: TokenType::Consonant("চ") },
        23 => Rule { roman: "j", token_type: TokenType::Consonant("জ") },
        24 => Rule { roman: "T", token_type: TokenType::Consonant("ট") },
        25 => Rule { roman: "D", token_type: TokenType::Consonant("ড") },
        26 => Rule { roman: "N", token_type: TokenType::Consonant("ণ") },
        27 => Rule { roman: "t", token_type: TokenType::Consonant("ত") },
        28 => Rule { roman: "d", token_type: TokenType::Consonant("দ") },
        29 => Rule { roman: "n", token_type: TokenType::Consonant("ন") },
        30 => Rule { roman: "p", token_type: TokenType::Consonant("প") },
        31 => Rule { roman: "f", token_type: TokenType::Consonant("ফ") },
        32 => Rule { roman: "b", token_type: TokenType::Consonant("ব") },
        33 => Rule { roman: "v", token_type: TokenType::Consonant("ভ") },
        34 => Rule { roman: "m", token_type: TokenType::Consonant("ম") },
        35 => Rule { roman: "z", token_type: TokenType::Consonant("য") },
        36 => Rule { roman: "r", token_type: TokenType::Consonant("র") },
        37 => Rule { roman: "l", token_type: TokenType::Consonant("ল") },
        38 => Rule { roman: "S", token_type: TokenType::Consonant("ষ") },
        39 => Rule { roman: "s", token_type: TokenType::Consonant("স") },
        40 => Rule { roman: "h", token_type: TokenType::Consonant("হ") },
        41 => Rule { roman: "R", token_type: TokenType::Consonant("\u{09DC}") },
        42 => Rule { roman: "y", token_type: TokenType::Consonant("\u{09DF}") },
        43 => Rule { roman: "x", token_type: TokenType::Consonant("ক্ষ") },
        44 => Rule { roman: "w", token_type: TokenType::Consonant("ব") },
        45 => Rule { roman: "a", token_type: TokenType::Vowel { independent: "আ", dependent: "া" } },
        46 => Rule { roman: "i", token_type: TokenType::Vowel { independent: "ই", dependent: "ি" } },
        47 => Rule { roman: "I", token_type: TokenType::Vowel { independent: "ঈ", dependent: "ী" } },
        48 => Rule { roman: "u", token_type: TokenType::Vowel { independent: "উ", dependent: "ু" } },
        49 => Rule { roman: "U", token_type: TokenType::Vowel { independent: "ঊ", dependent: "ূ" } },
        50 => Rule { roman: "e", token_type: TokenType::Vowel { independent: "এ", dependent: "ে" } },
        51 => Rule { roman: "o", token_type: TokenType::Vowel { independent: "ও", dependent: "ো" } },
        52 => Rule { roman: "O", token_type: TokenType::Vowel { independent: "ও", dependent: "ো" } },
        53 => Rule { roman: "H", token_type: TokenType::Sign("ঃ") },
        54 => Rule { roman: "`", token_type: TokenType::ForceSeparate },
        _ => Rule { roman: ".", token_type: TokenType::Punctuation("।") },
    }
}

/// The whole rule table, in order.
pub fn rules() -> (r: Vec<Rule>)
    ensures
        r@ == spec_rules(),
{
    let mut r: Vec<Rule> = Vec::new();
    let mut k: usize = 0;
    while k < RULE_COUNT
        invariant
            k <= RULE_COUNT,
            r@ == spec_rules().take(k as int),
        decreases RULE_COUNT - k,
    {
        r.push(rule_at(k));
        k += 1;
        assert(r@ =~= spec_rules().take(k as int));
    }
    assert(r@ =~= spec_rules());
    r
}

/// Whole words whose spelling the rules do not produce: the Roman word and
/// its Bengali spelling.
pub open spec fn spec_word_overrides() -> Seq<(&'static str, &'static str)> {
    seq![("sabar", "সবার"), ("ami..", "ami.")]
}

/// The whole-word overrides as a vector; see `spec_word_overrides`.
pub fn word_overrides() -> (r: Vec<(&'static str, &'static str)>)
    ensures
        r@ == spec_word_overrides(),
{
    let r = vec![("sabar", "সবার"), ("ami..", "ami.")];
    assert(r@ =~= spec_word_overrides());
    r
}

/// The length that the table's layout gives the Roman sequence of rule `k`:
/// first the three-character sequences, then the two-character ones, then
/// single characters.
spec fn layout_len(k: int) -> int {
    if k < 3 {
        3
    } else if k < 20 {
        2
    } else {
        1
    }
}

/// The rule table holds only non-empty Roman sequences, longest first.
pub proof fn lemma_rule_table()
    ensures
        forall|k: int| 0 <= k < RULE_COUNT ==> #[trigger] spec_rule_at(k).roman@.len() > 0,
        forall|j: int, k: int|
            0 <= j <= k < RULE_COUNT ==> #[trigger] spec_rule_at(j).roman@.len()
                >= #[trigger] spec_rule_at(k).roman@.len(),
{
    reveal_strlit("rRI");
    reveal_strlit("NGG");
    reveal_strlit("nGC");
    reveal_strlit("kh");
    reveal_strlit("gh");
    reveal_strlit("ch");
    reveal_strlit("jh");
    reveal_strlit("Th");
    reveal_strlit("Dh");
    reveal_strlit("th");
    reveal_strlit("dh");
    reveal_strlit("bh");
    reveal_strlit("sh");
    reveal_strlit("Rh");
    reveal_strlit("ph");
    reveal_strlit("oi");
    reveal_strlit("ou");
    reveal_strlit("t`");
    reveal_strlit("..");
    reveal_strlit("ng");
    reveal_strlit("k");
    reveal_strlit("g");
    reveal_strlit("c");
    reveal_strlit("j");
    reveal_strlit("T");
    reveal_strlit("D");
    reveal_strlit("N");
    reveal_strlit("t");
    reveal_strlit("d");
    reveal_strlit("n");
    reveal_strlit("p");
    reveal_strlit("f");
    reveal_strlit("b");
    reveal_strlit("v");
    reveal_strlit("m");
    reveal_strlit("z");
    reveal_strlit("r");
    reveal_strlit("l");
    reveal_strlit("S");
    reveal_strlit("s");
    reveal_strlit("h");
    reveal_strlit("R");
    reveal_strlit("y");
    reveal_strlit("x");
    reveal_strlit("w");
    reveal_strlit("a");
    reveal_strlit("i");
    reveal_strlit("I");
    reveal_strlit("u");
    reveal_strlit("U");
    reveal_strlit("e");
    reveal_strlit("o");
    reveal_strlit("O");
    reveal_strlit("H");
    reveal_strlit("`");
    reveal_strlit(".");
    assert forall|k: int| 0 <= k < RULE_COUNT implies #[trigger] spec_rule_at(k).roman@.len()
        == layout_len(k) by {}
}

/// Two Roman sequences that the layout documents as spellings of one letter:
/// `ph` and `f`, `bh` and `v`, `b` and `w`, `o` and `O`, `NGG` and `H`.
pub open spec fn documented_alias(a: Seq<char>, b: Seq<char>) -> bool {
    ||| (a == "ph"@ && b == "f"@) || (a == "f"@ && b == "ph"@)
    ||| (a == "bh"@ && b == "v"@) || (a == "v"@ && b == "bh"@)
    ||| (a == "b"@ && b == "w"@) || (a == "w"@ && b == "b"@)
    ||| (a == "o"@ && b == "O"@) || (a == "O"@ && b == "o"@)
    ||| (a == "NGG"@ && b == "H"@) || (a == "H"@ && b == "NGG"@)
}

/// What a token writes in its plain form: the letter of a consonant, the
/// independent letter of a vowel, the mark of a sign or a punctuation, and
/// nothing for a separation.
pub open spec fn written_form(t: TokenType) -> Seq<char> {
    match t {
        TokenType::Vowel { independent, dependent } => independent@,
        TokenType::Consonant(val) => val@,
        TokenType::Sign(val) => val@,
        TokenType::ForceSeparate => Seq::empty(),
        TokenType::Punctuation(val) => val@,
    }
}

/// Rules 0 to 13 write what no other rule writes, but for documented
/// aliases.
proof fn lemma_layout_letters_distinct_0()
    ensures
        forall|j: int, k: int|
            0 <= j < 14 && 0 <= k < RULE_COUNT && j != k && written_form(
                #[trigger] spec_rule_at(j).token_type,
            ) == written_form(#[trigger] spec_rule_at(k).token_type) ==> documented_alias(
                spec_rule_at(j).roman@,
                spec_rule_at(k).roman@,
            ),
{
    reveal_strlit("rRI");
    reveal_strlit("ঋ");
    reveal_strlit("ৃ");
    reveal_strlit("NGG");
    reveal_strlit("ঃ");
    reveal_strlit("nGC");
    reveal_strlit("ঁ");
    reveal_strlit("kh");
    reveal_strlit("খ");
    reveal_strlit("gh");
    reveal_strlit("ঘ");
    reveal_strlit("ch");
    reveal_strlit("ছ");
    reveal_strlit("jh");
    reveal_strlit("ঝ");
    reveal_strlit("Th");
    reveal_strlit("ঠ");
    reveal_strlit("Dh");
    reveal_strlit("ঢ");
    reveal_strlit("th");
    reveal_strlit("থ");
    reveal_strlit("dh");
    reveal_strlit("ধ");
    reveal_strlit("bh");
    reveal_strlit("ভ");
    reveal_strlit("sh");
    reveal_strlit("শ");
    reveal_strlit("Rh");
    reveal_strlit("\u{09DD}");
    reveal_strlit("ph");
    reveal_strlit("ফ");
    reveal_strlit("oi");
    reveal_strlit("ঐ");
    reveal_strlit("ৈ");
    reveal_strlit("ou");
    reveal_strlit("ঔ");
    reveal_strlit("ৌ");
    reveal_strlit("t`");
    reveal_strlit("ৎ");
    reveal_strlit("..");
    reveal_strlit(".");
    reveal_strlit("ng");
    reveal_strlit("ং");
    reveal_strlit("k");
    reveal_strlit("ক");
    reveal_strlit("g");
    reveal_strlit("গ");
    reveal_strlit("c");
    reveal_strlit("চ");
    reveal_strlit("j");
    reveal_strlit("জ");
    reveal_strlit("T");
    reveal_strlit("ট");
    reveal_strlit("D");
    reveal_strlit("ড");
    reveal_strlit("N");
    reveal_strlit("ণ");
    reveal_strlit("t");
    reveal_strlit("ত");
    reveal_strlit("d");
    reveal_strlit("দ");
    reveal_strlit("n");
    reveal_strlit("ন");
    reveal_strlit("p");
    reveal_strlit("প");
    reveal_strlit("f");
    reveal_strlit("b");
    reveal_strlit("ব");
    reveal_strlit("v");
    reveal_strlit("m");
    reveal_strlit("ম");
    reveal_strlit("z");
    reveal_strlit("য");
    reveal_strlit("r");
    reveal_strlit("র");
    reveal_strlit("l");
    reveal_strlit("ল");
    reveal_strlit("S");
    reveal_strlit("ষ");
    reveal_strlit("s");
    reveal_strlit("স");
    reveal_strlit("h");
    reveal_strlit("হ");
    reveal_strlit("R");
    reveal_strlit("\u{09DC}");
    reveal_strlit("y");
    reveal_strlit("\u{09DF}");
    reveal_strlit("x");
    reveal_strlit("ক্ষ");
    reveal_strlit("w");
    reveal_strlit("a");
    reveal_strlit("আ");
    reveal_strlit("া");
    reveal_strlit("i");
    reveal_strlit("ই");
    reveal_strlit("ি");
    reveal_strlit("I");
    reveal_strlit("ঈ");
    reveal_strlit("ী");
    reveal_strlit("u");
    reveal_strlit("উ");
    reveal_strlit("ু");
    reveal_strlit("U");
    reveal_strlit("ঊ");
    reveal_strlit("ূ");
    reveal_strlit("e");
    reveal_strlit("এ");
    reveal_strlit("ে");
    reveal_strlit("o");
    reveal_strlit("ও");
    reveal_strlit("ো");
    reveal_strlit("O");
    reveal_strlit("H");
    reveal_strlit("`");
    reveal_strlit("।");
    assert forall|k: int|
        0 <= k < RULE_COUNT && k != 0 && written_form(spec_rule_at(0).token_type) == written_form(
            #[trigger] spec_rule_at(k).token_type,
        ) implies documented_alias(spec_rule_at(0).roman@, spec_rule_at(k).roman@) by {
        let a = written_form(spec_rule_at(0).token_type);
        let b = written_form(spec_rule_at(k).token_type);
        assert(a.len() == b.len());
        if a.len() > 0 {
            assert(a[0] == b[0]);
        }
    }
    assert forall|k: int|
        0 <= k < RULE_COUNT && k != 1 && written_form(spec_rule_at(1).token_type) == written_form(
            #[trigger] spec_rule_at(k).token_type,
        ) implies documented_alias(spec_rule_at(1).roman@, spec_rule_at(k).roman@) by {
        let a = written_form(spec_rule_at(1).token_type);
        let b = written_form(spec_rule_at(k).token_type);
        assert(a.len() == b.len());
        if a.len() > 0 {
            assert(a[0] == b[0]);
        }
    }
    assert forall|k: int|
        0 <= k < RULE_COUNT && k != 2 && written_form(spec_rule_at(2).token_type) == written_form(
            #[trigger] spec_rule_at(k).token_type,
        ) implies documented_alias(spec_rule_at(2).roman@, spec_rule_at(k).roman@) by {
        let a = written_form(spec_rule_at(2).token_type);
        let b = written_form(spec_rule_at(k).token_type);
        assert(a.len() == b.len());
        if a.len() > 0 {
            assert(a[0] == b[0]);
        }
    }
    assert forall|k: int|
        0 <= k < RULE_COUNT && k != 3 && written_form(spec_rule_at(3).token_type) == written_form(
            #[trigger] spec_rule_at(k).token_type,
        ) implies documented_alias(spec_rule_at(3).roman@, spec_rule_at(k).roman@) by {
        let a = written_form(spec_rule_at(3).token_type);
        let b = written_form(spec_rule_at(k).token_type);
        assert(a.len() == b.len());
        if a.len() > 0 {
            assert(a[0] == b[0]);
        }
    }
    assert forall|k: int|
        0 <= k < RULE_COUNT && k != 4 && written_form(spec_rule_at(4).token_type) == written_form(
            #[trigger] spec_rule_at(k).token_type,
        ) implies documented_alias(spec_rule_at(4).roman@, spec_rule_at(k).roman@) by {
        let a = written_form(spec_rule_at(4).token_type);
        let b = written_form(spec_rule_at(k).token_type);
        assert(a.len() == b.len());
        if a.len() > 0 {
            assert(a[0] == b[0]);
        }
    }
    assert forall|k: int|
        0 <= k < RULE_COUNT && k != 5 && written_form(spec_rule_at(5).token_type) == written_form(
            #[trigger] spec_rule_at(k).token_type,
        ) implies documented_alias(spec_rule_at(5).roman@, spec_rule_at(k).roman@) by {
        let a = written_form(spec_rule_at(5).token_type);
        let b = written_form(spec_rule_at(k).token_type);
        assert(a.len() == b.len());
        if a.len() > 0 {
            assert(a[0] == b[0]);
        }
    }
    assert forall|k: int|
        0 <= k < RULE_COUNT && k != 6 && written_form(spec_rule_at(6).token_type) == written_form(
            #[trigger] spec_rule_at(k).token_type,
        ) implies documented_alias(spec_rule_at(6).roman@, spec_rule_at(k).roman@) by {
        let a = written_form(spec_rule_at(6).token_type);
        let b = written_form(spec_rule_at(k).token_type);
        assert(a.len() == b.len());
        if a.len() > 0 {
            assert(a[0] == b[0]);
        }
    }
    assert forall|k: int|
        0 <= k < RULE_COUNT && k != 7 && written_form(spec_rule_at(7).token_type) == written_form(
            #[trigger] spec_rule_at(k).token_type,
        ) implies documented_alias(spec_rule_at(7).roman@, spec_rule_at(k).roman@) by {
        let a = written_form(spec_rule_at(7).token_type);
        let b = written_form(spec_rule_at(k).token_type);
        assert(a.len() == b.len());
        if a.len() > 0 {
            assert(a[0] == b[0]);
        }
    }
    assert forall|k: int|
        0 <= k < RULE_COUNT && k != 8 && written_form(spec_rule_at(8).token_type) == written_form(
            #[trigger] spec_rule_at(k).token_type,
        ) implies documented_alias(spec_rule_at(8).roman@, spec_rule_at(k).roman@) by {
        let a = written_form(spec_rule_at(8).token_type);
        let b = written_form(spec_rule_at(k).token_type);
        assert(a.len() == b.len());
        if a.len() > 0 {
            assert(a[0] == b[0]);
        }
    }
    assert forall|k: int|
        0 <= k < RULE_COUNT && k != 9 && written_form(spec_rule_at(9).token_type) == written_form(
            #[trigger] spec_rule_at(k).token_type,
        ) implies documented_alias(spec_rule_at(9).roman@, spec_rule_at(k).roman@) by {
        let a = written_form(spec_rule_at(9).token_type);
        let b = written_form(spec_rule_at(k).token_type);
        assert(a.len() == b.len());
        if a.len() > 0 {
            assert(a[0] == b[0]);
        }
    }
    assert forall|k: int|
        0 <= k < RULE_COUNT && k != 10 && written_form(spec_rule_at(10).token_type) == written_form(
            #[trigger] spec_rule_at(k).token_type,
        ) implies documented_alias(spec_rule_at(10).roman@, spec_rule_at(k).roman@) by {
        let a = written_form(spec_rule_at(10).token_type);
        let b = written_form(spec_rule_at(k).token_type);
        assert(a.len() == b.len());
        if a.len() > 0 {
            assert(a[0] == b[0]);
        }
    }
    assert forall|k: int|
        0 <= k < RULE_COUNT && k != 11 && written_form(spec_rule_at(11).token_type) == written_form(
            #[trigger] spec_rule_at(k).token_type,
        ) implies documented_alias(spec_rule_at(11).roman@, spec_rule_at(k).roman@) by {
        let a = written_form(spec_rule_at(11).token_type);
        let b = written_form(spec_rule_at(k).token_type);
        assert(a.len() == b.len());
        if a.len() > 0 {
            assert(a[0] == b[0]);
        }
    }
    assert forall|k: int|
        0 <= k < RULE_COUNT && k != 12 && written_form(spec_rule_at(12).token_type) == written_form(
            #[trigger] spec_rule_at(k).token_type,
        ) implies documented_alias(spec_rule_at(12).roman@, spec_rule_at(k).roman@) by {
        let a = written_form(spec_rule_at(12).token_type);
        let b = written_form(spec_rule_at(k).token_type);
        assert(a.len() == b.len());
        if a.len() > 0 {
            assert(a[0] == b[0]);
        }
    }
    assert forall|k: int|
        0 <= k < RULE_COUNT && k != 13 && written_form(spec_rule_at(13).token_type) == written_form(
            #[trigger] spec_rule_at(k).token_type,
        ) implies documented_alias(spec_rule_at(13).roman@, spec_rule_at(k).roman@) by {
        let a = written_form(spec_rule_at(13).token_type);
        let b = written_form(spec_rule_at(k).token_type);
        assert(a.len() == b.len());
        if a.len() > 0 {
            assert(a[0] == b[0]);
        }
    }
    assert forall|j: int, k: int|
        0 <= j < 14 && 0 <= k < RULE_COUNT && j != k && written_form(
            #[trigger] spec_rule_at(j).token_type,
        ) == written_form(#[trigger] spec_rule_at(k).token_type) implies documented_alias(
        spec_rule_at(j).roman@,
        spec_rule_at(k).roman@,
    ) by {
        assert(0 <= j < 14);
    }
}

/// Rules 14 to 27 write what no other rule writes, but for documented
/// aliases.
proof fn lemma_layout_letters_distinct_1()
    ensures
        forall|j: int, k: int|
            14 <= j < 28 && 0 <= k < RULE_COUNT && j != k && written_form(
                #[trigger] spec_rule_at(j).token_type,
            ) == written_form(#[trigger] spec_rule_at(k).token_type) ==> documented_alias(
                spec_rule_at(j).roman@,
                spec_rule_at(k).roman@,
            ),
{
    reveal_strlit("rRI");
    reveal_strlit("ঋ");
    reveal_strlit("ৃ");
    reveal_strlit("NGG");
    reveal_strlit("ঃ");
    reveal_strlit("nGC");
    reveal_strlit("ঁ");
    reveal_strlit("kh");
    reveal_strlit("খ");
    reveal_strlit("gh");
    reveal_strlit("ঘ");
    reveal_strlit("ch");
    reveal_strlit("ছ");
    reveal_strlit("jh");
    reveal_strlit("ঝ");
    reveal_strlit("Th");
    reveal_strlit("ঠ");
    reveal_strlit("Dh");
    reveal_strlit("ঢ");
    reveal_strlit("th");
    reveal_strlit("থ");
    reveal_strlit("dh");
    reveal_strlit("ধ");
    reveal_strlit("bh");
    reveal_strlit("ভ");
    reveal_strlit("sh");
    reveal_strlit("শ");
    reveal_strlit("Rh");
    reveal_strlit("\u{09DD}");
    reveal_strlit("ph");
    reveal_strlit("ফ");
    reveal_strlit("oi");
    reveal_strlit("ঐ");
    reveal_strlit("ৈ");
    reveal_strlit("ou");
    reveal_strlit("ঔ");
    reveal_strlit("ৌ");
    reveal_strlit("t`");
    reveal_strlit("ৎ");
    reveal_strlit("..");
    reveal_strlit(".");
    reveal_strlit("ng");
    reveal_strlit("ং");
    reveal_strlit("k");
    reveal_strlit("ক");
    reveal_strlit("g");
    reveal_strlit("গ");
    reveal_strlit("c");
    reveal_strlit("চ");
    reveal_strlit("j");
    reveal_strlit("জ");
    reveal_strlit("T");
    reveal_strlit("ট");
    reveal_strlit("D");
    reveal_strlit("ড");
    reveal_strlit("N");
    reveal_strlit("ণ");
    reveal_strlit("t");
    reveal_strlit("ত");
    reveal_strlit("d");
    reveal_strlit("দ");
    reveal_strlit("n");
    reveal_strlit("ন");
    reveal_strlit("p");
    reveal_strlit("প");
    reveal_strlit("f");
    reveal_strlit("b");
    reveal_strlit("ব");
    reveal_strlit("v");
    reveal_strlit("m");
    reveal_strlit("ম");
    reveal_strlit("z");
    reveal_strlit("য");
    reveal_strlit("r");
    reveal_strlit("র");
    reveal_strlit("l");
    reveal_strlit("ল");
    reveal_strlit("S");
    reveal_strlit("ষ");
    reveal_strlit("s");
    reveal_strlit("স");
    reveal_strlit("h");
    reveal_strlit("হ");
    reveal_strlit("R");
    reveal_strlit("\u{09DC}");
    reveal_strlit("y");
    reveal_strlit("\u{09DF}");
    reveal_strlit("x");
    reveal_strlit("ক্ষ");
    reveal_strlit("w");
    reveal_strlit("a");
    reveal_strlit("আ");
    reveal_strlit("া");
    reveal_strlit("i");
    reveal_strlit("ই");
    reveal_strlit("ি");
    reveal_strlit("I");
    reveal_strlit("ঈ");
    reveal_strlit("ী");
    reveal_strlit("u");
    reveal_strlit("উ");
    reveal_strlit("ু");
    reveal_strlit("U");
    reveal_strlit("ঊ");
    reveal_strlit("ূ");
    reveal_strlit("e");
    reveal_strlit("এ");
    reveal_strlit("ে");
    reveal_strlit("o");
    reveal_strlit("ও");
    reveal_strlit("ো");
    reveal_strlit("O");
    reveal_strlit("H");
    reveal_strlit("`");
    reveal_strlit("।");
    assert forall|k: int|
        0 <= k < RULE_COUNT && k != 14 && written_form(spec_rule_at(14).token_type) == written_form(
            #[trigger] spec_rule_at(k).token_type,
        ) implies documented_alias(spec_rule_at(14).roman@, spec_rule_at(k).roman@) by {
        let a = written_form(spec_rule_at(14).token_type);
        let b = written_form(spec_rule_at(k).token_type);
        assert(a.len() == b.len());
        if a.len() > 0 {
            assert(a[0] == b[0]);
        }
    }
    assert forall|k: int|
        0 <= k < RULE_COUNT && k != 15 && written_form(spec_rule_at(15).token_type) == written_form(
            #[trigger] spec_rule_at(k).token_type,
        ) implies documented_alias(spec_rule_at(15).roman@, spec_rule_at(k).roman@) by {
        let a = written_form(spec_rule_at(15).token_type);
        let b = written_form(spec_rule_at(k).token_type);
        assert(a.len() == b.len());
        if a.len() > 0 {
            assert(a[0] == b[0]);
        }
    }
    assert forall|k: int|
        0 <= k < RULE_COUNT && k != 16 && written_form(spec_rule_at(16).token_type) == written_form(
            #[trigger] spec_rule_at(k).token_type,
        ) implies documented_alias(spec_rule_at(16).roman@, spec_rule_at(k).roman@) by {
        let a = written_form(spec_rule_at(16).token_type);
        let b = written_form(spec_rule_at(k).token_type);
        assert(a.len() == b.len());
        if a.len() > 0 {
            assert(a[0] == b[0]);
        }
    }
    assert forall|k: int|
        0 <= k < RULE_COUNT && k != 17 && written_form(spec_rule_at(17).token_type) == written_form(
            #[trigger] spec_rule_at(k).token_type,
        ) implies documented_alias(spec_rule_at(17).roman@, spec_rule_at(k).roman@) by {
        let a = written_form(spec_rule_at(17).token_type);
        let b = written_form(spec_rule_at(k).token_type);
        assert(a.len() == b.len());
        if a.len() > 0 {
            assert(a[0] == b[0]);
        }
    }
    assert forall|k: int|
        0 <= k < RULE_COUNT && k != 18 && written_form(spec_rule_at(18).token_type) == written_form(
            #[trigger] spec_rule_at(k).token_type,
        ) implies documented_alias(spec_rule_at(18).roman@, spec_rule_at(k).roman@) by {
        let a = written_form(spec_rule_at(18).token_type);
        let b = written_form(spec_rule_at(k).token_type);
        assert(a.len() == b.len());
        if a.len() > 0 {
            assert(a[0] == b[0]);
        }
    }
    assert forall|k: int|
        0 <= k < RULE_COUNT && k != 19 && written_form(spec_rule_at(19).token_type) == written_form(
            #[trigger] spec_rule_at(k).token_type,
        ) implies documented_alias(spec_rule_at(19).roman@, spec_rule_at(k).roman@) by {
        let a = written_form(spec_rule_at(19).token_type);
        let b = written_form(spec_rule_at(k).token_type);
        assert(a.len() == b.len());
        if a.len() > 0 {
            assert(a[0] == b[0]);
        }
    }
    assert forall|k: int|
        0 <= k < RULE_COUNT && k != 20 && written_form(spec_rule_at(20).token_type) == written_form(
            #[trigger] spec_rule_at(k).token_type,
        ) implies documented_alias(spec_rule_at(20).roman@, spec_rule_at(k).roman@) by {
        let a = written_form(spec_rule_at(20).token_type);
        let b = written_form(spec_rule_at(k).token_type);
        assert(a.len() == b.len());
        if a.len() > 0 {
            assert(a[0] == b[0]);
        }
    }
    assert forall|k: int|
        0 <= k < RULE_COUNT && k != 21 && written_form(spec_rule_at(21).token_type) == written_form(
            #[trigger] spec_rule_at(k).token_type,
        ) implies documented_alias(spec_rule_at(21).roman@, spec_rule_at(k).roman@) by {
        let a = written_form(spec_rule_at(21).token_type);
        let b = written_form(spec_rule_at(k).token_type);
        assert(a.len() == b.len());
        if a.len() > 0 {
            assert(a[0] == b[0]);
        }
    }
    assert forall|k: int|
        0 <= k < RULE_COUNT && k != 22 && written_form(spec_rule_at(22).token_type) == written_form(
            #[trigger] spec_rule_at(k).token_type,
        ) implies documented_alias(spec_rule_at(22).roman@, spec_rule_at(k).roman@) by {
        let a = written_form(spec_rule_at(22).token_type);
        let b = written_form(spec_rule_at(k).token_type);
        assert(a.len() == b.len());
        if a.len() > 0 {
            assert(a[0] == b[0]);
        }
    }
    assert forall|k: int|
        0 <= k < RULE_COUNT && k != 23 && written_form(spec_rule_at(23).token_type) == written_form(
            #[trigger] spec_rule_at(k).token_type,
        ) implies documented_alias(spec_rule_at(23).roman@, spec_rule_at(k).roman@) by {
        let a = written_form(spec_rule_at(23).token_type);
        let b = written_form(spec_rule_at(k).token_type);
        assert(a.len() == b.len());
        if a.len() > 0 {
            assert(a[0] == b[0]);
        }
    }
    assert forall|k: int|
        0 <= k < RULE_COUNT && k != 24 && written_form(spec_rule_at(24).token_type) == written_form(
            #[trigger] spec_rule_at(k).token_type,
        ) implies documented_alias(spec_rule_at(24).roman@, spec_rule_at(k).roman@) by {
        let a = written_form(spec_rule_at(24).token_type);
        let b = written_form(spec_rule_at(k).token_type);
        assert(a.len() == b.len());
        if a.len() > 0 {
            assert(a[0] == b[0]);
        }
    }
    assert forall|k: int|
        0 <= k < RULE_COUNT && k != 25 && written_form(spec_rule_at(25).token_type) == written_form(
            #[trigger] spec_rule_at(k).token_type,
        ) implies documented_alias(spec_rule_at(25).roman@, spec_rule_at(k).roman@) by {
        let a = written_form(spec_rule_at(25).token_type);
        let b = written_form(spec_rule_at(k).token_type);
        assert(a.len() == b.len());
        if a.len() > 0 {
            assert(a[0] == b[0]);
        }
    }
    assert forall|k: int|
        0 <= k < RULE_COUNT && k != 26 && written_form(spec_rule_at(26).token_type) == written_form(
            #[trigger] spec_rule_at(k).token_type,
        ) implies documented_alias(spec_rule_at(26).roman@, spec_rule_at(k).roman@) by {
        let a = written_form(spec_rule_at(26).token_type);
        let b = written_form(spec_rule_at(k).token_type);
        assert(a.len() == b.len());
        if a.len() > 0 {
            assert(a[0] == b[0]);
        }
    }
    assert forall|k: int|
        0 <= k < RULE_COUNT && k != 27 && written_form(spec_rule_at(27).token_type) == written_form(
            #[trigger] spec_rule_at(k).token_type,
        ) implies documented_alias(spec_rule_at(27).roman@, spec_rule_at(k).roman@) by {
        let a = written_form(spec_rule_at(27).token_type);
        let b = written_form(spec_rule_at(k).token_type);
        assert(a.len() == b.len());
        if a.len() > 0 {
            assert(a[0] == b[0]);
        }
    }
    assert forall|j: int, k: int|
        14 <= j < 28 && 0 <= k < RULE_COUNT && j != k && written_form(
            #[trigger] spec_rule_at(j).token_type,
        ) == written_form(#[trigger] spec_rule_at(k).token_type) implies documented_alias(
        spec_rule_at(j).roman@,
        spec_rule_at(k).roman@,
    ) by {
        assert(14 <= j < 28);
    }
}

/// Rules 28 to 41 write what no other rule writes, but for documented
/// aliases.
proof fn lemma_layout_letters_distinct_2()
    ensures
        forall|j: int, k: int|
            28 <= j < 42 && 0 <= k < RULE_COUNT && j != k && written_form(
                #[trigger] spec_rule_at(j).token_type,
            ) == written_form(#[trigger] spec_rule_at(k).token_type) ==> documented_alias(
                spec_rule_at(j).roman@,
                spec_rule_at(k).roman@,
            ),
{
    reveal_strlit("rRI");
    reveal_strlit("ঋ");
    reveal_strlit("ৃ");
    reveal_strlit("NGG");
    reveal_strlit("ঃ");
    reveal_strlit("nGC");
    reveal_strlit("ঁ");
    reveal_strlit("kh");
    reveal_strlit("খ");
    reveal_strlit("gh");
    reveal_strlit("ঘ");
    reveal_strlit("ch");
    reveal_strlit("ছ");
    reveal_strlit("jh");
    reveal_strlit("ঝ");
    reveal_strlit("Th");
    reveal_strlit("ঠ");
    reveal_strlit("Dh");
    reveal_strlit("ঢ");
    reveal_strlit("th");
    reveal_strlit("থ");
    reveal_strlit("dh");
    reveal_strlit("ধ");
    reveal_strlit("bh");
    reveal_strlit("ভ");
    reveal_strlit("sh");
    reveal_strlit("শ");
    reveal_strlit("Rh");
    reveal_strlit("\u{09DD}");
    reveal_strlit("ph");
    reveal_strlit("ফ");
    reveal_strlit("oi");
    reveal_strlit("ঐ");
    reveal_strlit("ৈ");
    reveal_strlit("ou");
    reveal_strlit("ঔ");
    reveal_strlit("ৌ");
    reveal_strlit("t`");
    reveal_strlit("ৎ");
    reveal_strlit("..");
    reveal_strlit(".");
    reveal_strlit("ng");
    reveal_strlit("ং");
    reveal_strlit("k");
    reveal_strlit("ক");
    reveal_strlit("g");
    reveal_strlit("গ");
    reveal_strlit("c");
    reveal_strlit("চ");
    reveal_strlit("j");
    reveal_strlit("জ");
    reveal_strlit("T");
    reveal_strlit("ট");
    reveal_strlit("D");
    reveal_strlit("ড");
    reveal_strlit("N");
    reveal_strlit("ণ");
    reveal_strlit("t");
    reveal_strlit("ত");
    reveal_strlit("d");
    reveal_strlit("দ");
    reveal_strlit("n");
    reveal_strlit("ন");
    reveal_strlit("p");
    reveal_strlit("প");
    reveal_strlit("f");
    reveal_strlit("b");
    reveal_strlit("ব");
    reveal_strlit("v");
    reveal_strlit("m");
    reveal_strlit("ম");
    reveal_strlit("z");
    reveal_strlit("য");
    reveal_strlit("r");
    reveal_strlit("র");
    reveal_strlit("l");
    reveal_strlit("ল");
    reveal_strlit("S");
    reveal_strlit("ষ");
    reveal_strlit("s");
    reveal_strlit("স");
    reveal_strlit("h");
    reveal_strlit("হ");
    reveal_strlit("R");
    reveal_strlit("\u{09DC}");
    reveal_strlit("y");
    reveal_strlit("\u{09DF}");
    reveal_strlit("x");
    reveal_strlit("ক্ষ");
    reveal_strlit("w");
    reveal_strlit("a");
    reveal_strlit("আ");
    reveal_strlit("া");
    reveal_strlit("i");
    reveal_strlit("ই");
    reveal_strlit("ি");
    reveal_strlit("I");
    reveal_strlit("ঈ");
    reveal_strlit("ী");
    reveal_strlit("u");
    reveal_strlit("উ");
    reveal_strlit("ু");
    reveal_strlit("U");
    reveal_strlit("ঊ");
    reveal_strlit("ূ");
    reveal_strlit("e");
    reveal_strlit("এ");
    reveal_strlit("ে");
    reveal_strlit("o");
    reveal_strlit("ও");
    reveal_strlit("ো");
    reveal_strlit("O");
    reveal_strlit("H");
    reveal_strlit("`");
    reveal_strlit("।");
    assert forall|k: int|
        0 <= k < RULE_COUNT && k != 28 && written_form(spec_rule_at(28).token_type) == written_form(
            #[trigger] spec_rule_at(k).token_type,
        ) implies documented_alias(spec_rule_at(28).roman@, spec_rule_at(k).roman@) by {
        let a = written_form(spec_rule_at(28).token_type);
        let b = written_form(spec_rule_at(k).token_type);
        assert(a.len() == b.len());
        if a.len() > 0 {
            assert(a[0] == b[0]);
        }
    }
    assert forall|k: int|
        0 <= k < RULE_COUNT && k != 29 && written_form(spec_rule_at(29).token_type) == written_form(
            #[trigger] spec_rule_at(k).token_type,
        ) implies documented_alias(spec_rule_at(29).roman@, spec_rule_at(k).roman@) by {
        let a = written_form(spec_rule_at(29).token_type);
        let b = written_form(spec_rule_at(k).token_type);
        assert(a.len() == b.len());
        if a.len() > 0 {
            assert(a[0] == b[0]);
        }
    }
    assert forall|k: int|
        0 <= k < RULE_COUNT && k != 30 && written_form(spec_rule_at(30).token_type) == written_form(
            #[trigger] spec_rule_at(k).token_type,
        ) implies documented_alias(spec_rule_at(30).roman@, spec_rule_at(k).roman@) by {
        let a = written_form(spec_rule_at(30).token_type);
        let b = written_form(spec_rule_at(k).token_type);
        assert(a.len() == b.len());
        if a.len() > 0 {
            assert(a[0] == b[0]);
        }
    }
    assert forall|k: int|
        0 <= k < RULE_COUNT && k != 31 && written_form(spec_rule_at(31).token_type) == written_form(
            #[trigger] spec_rule_at(k).token_type,
        ) implies documented_alias(spec_rule_at(31).roman@, spec_rule_at(k).roman@) by {
        let a = written_form(spec_rule_at(31).token_type);
        let b = written_form(spec_rule_at(k).token_type);
        assert(a.len() == b.len());
        if a.len() > 0 {
            assert(a[0] == b[0]);
        }
    }
    assert forall|k: int|
        0 <= k < RULE_COUNT && k != 32 && written_form(spec_rule_at(32).token_type) == written_form(
            #[trigger] spec_rule_at(k).token_type,
        ) implies documented_alias(spec_rule_at(32).roman@, spec_rule_at(k).roman@) by {
        let a = written_form(spec_rule_at(32).token_type);
        let b = written_form(spec_rule_at(k).token_type);
        assert(a.len() == b.len());
        if a.len() > 0 {
            assert(a[0] == b[0]);
        }
    }
    assert forall|k: int|
        0 <= k < RULE_COUNT && k != 33 && written_form(spec_rule_at(33).token_type) == written_form(
            #[trigger] spec_rule_at(k).token_type,
        ) implies documented_alias(spec_rule_at(33).roman@, spec_rule_at(k).roman@) by {
        let a = written_form(spec_rule_at(33).token_type);
        let b = written_form(spec_rule_at(k).token_type);
        assert(a.len() == b.len());
        if a.len() > 0 {
            assert(a[0] == b[0]);
        }
    }
    assert forall|k: int|
        0 <= k < RULE_COUNT && k != 34 && written_form(spec_rule_at(34).token_type) == written_form(
            #[trigger] spec_rule_at(k).token_type,
        ) implies documented_alias(spec_rule_at(34).roman@, spec_rule_at(k).roman@) by {
        let a = written_form(spec_rule_at(34).token_type);
        let b = written_form(spec_rule_at(k).token_type);
        assert(a.len() == b.len());
        if a.len() > 0 {
            assert(a[0] == b[0]);
        }
    }
    assert forall|k: int|
        0 <= k < RULE_COUNT && k != 35 && written_form(spec_rule_at(35).token_type) == written_form(
            #[trigger] spec_rule_at(k).token_type,
        ) implies documented_alias(spec_rule_at(35).roman@, spec_rule_at(k).roman@) by {
        let a = written_form(spec_rule_at(35).token_type);
        let b = written_form(spec_rule_at(k).token_type);
        assert(a.len() == b.len());
        if a.len() > 0 {
            assert(a[0] == b[0]);
        }
    }
    assert forall|k: int|
        0 <= k < RULE_COUNT && k != 36 && written_form(spec_rule_at(36).token_type) == written_form(
            #[trigger] spec_rule_at(k).token_type,
        ) implies documented_alias(spec_rule_at(36).roman@, spec_rule_at(k).roman@) by {
        let a = written_form(spec_rule_at(36).token_type);
        let b = written_form(spec_rule_at(k).token_type);
        assert(a.len() == b.len());
        if a.len() > 0 {
            assert(a[0] == b[0]);
        }
    }
    assert forall|k: int|
        0 <= k < RULE_COUNT && k != 37 && written_form(spec_rule_at(37).token_type) == written_form(
            #[trigger] spec_rule_at(k).token_type,
        ) implies documented_alias(spec_rule_at(37).roman@, spec_rule_at(k).roman@) by {
        let a = written_form(spec_rule_at(37).token_type);
        let b = written_form(spec_rule_at(k).token_type);
        assert(a.len() == b.len());
        if a.len() > 0 {
            assert(a[0] == b[0]);
        }
    }
    assert forall|k: int|
        0 <= k < RULE_COUNT && k != 38 && written_form(spec_rule_at(38).token_type) == written_form(
            #[trigger] spec_rule_at(k).token_type,
        ) implies documented_alias(spec_rule_at(38).roman@, spec_rule_at(k).roman@) by {
        let a = written_form(spec_rule_at(38).token_type);
        let b = written_form(spec_rule_at(k).token_type);
        assert(a.len() == b.len());
        if a.len() > 0 {
            assert(a[0] == b[0]);
        }
    }
    assert forall|k: int|
        0 <= k < RULE_COUNT && k != 39 && written_form(spec_rule_at(39).token_type) == written_form(
            #[trigger] spec_rule_at(k).token_type,
        ) implies documented_alias(spec_rule_at(39).roman@, spec_rule_at(k).roman@) by {
        let a = written_form(spec_rule_at(39).token_type);
        let b = written_form(spec_rule_at(k).token_type);
        assert(a.len() == b.len());
        if a.len() > 0 {
            assert(a[0] == b[0]);
        }
    }
    assert forall|k: int|
        0 <= k < RULE_COUNT && k != 40 && written_form(spec_rule_at(40).token_type) == written_form(
            #[trigger] spec_rule_at(k).token_type,
        ) implies documented_alias(spec_rule_at(40).roman@, spec_rule_at(k).roman@) by {
        let a = written_form(spec_rule_at(40).token_type);
        let b = written_form(spec_rule_at(k).token_type);
        assert(a.len() == b.len());
        if a.len() > 0 {
            assert(a[0] == b[0]);
        }
    }
    assert forall|k: int|
        0 <= k < RULE_COUNT && k != 41 && written_form(spec_rule_at(41).token_type) == written_form(
            #[trigger] spec_rule_at(k).token_type,
        ) implies documented_alias(spec_rule_at(41).roman@, spec_rule_at(k).roman@) by {
        let a = written_form(spec_rule_at(41).token_type);
        let b = written_form(spec_rule_at(k).token_type);
        assert(a.len() == b.len());
        if a.len() > 0 {
            assert(a[0] == b[0]);
        }
    }
    assert forall|j: int, k: int|
        28 <= j < 42 && 0 <= k < RULE_COUNT && j != k && written_form(
            #[trigger] spec_rule_at(j).token_type,
        ) == written_form(#[trigger] spec_rule_at(k).token_type) implies documented_alias(
        spec_rule_at(j).roman@,
        spec_rule_at(k).roman@,
    ) by {
        assert(28 <= j < 42);
    }
}

/// Rules 42 to 55 write what no other rule writes, but for documented
/// aliases.
proof fn lemma_layout_letters_distinct_3()
    ensures
        forall|j: int, k: int|
            42 <= j < 56 && 0 <= k < RULE_COUNT && j != k && written_form(
                #[trigger] spec_rule_at(j).token_type,
            ) == written_form(#[trigger] spec_rule_at(k).token_type) ==> documented_alias(
                spec_rule_at(j).roman@,
                spec_rule_at(k).roman@,
            ),
{
    reveal_strlit("rRI");
    reveal_strlit("ঋ");
    reveal_strlit("ৃ");
    reveal_strlit("NGG");
    reveal_strlit("ঃ");
    reveal_strlit("nGC");
    reveal_strlit("ঁ");
    reveal_strlit("kh");
    reveal_strlit("খ");
    reveal_strlit("gh");
    reveal_strlit("ঘ");
    reveal_strlit("ch");
    reveal_strlit("ছ");
    reveal_strlit("jh");
    reveal_strlit("ঝ");
    reveal_strlit("Th");
    reveal_strlit("ঠ");
    reveal_strlit("Dh");
    reveal_strlit("ঢ");
    reveal_strlit("th");
    reveal_strlit("থ");
    reveal_strlit("dh");
    reveal_strlit("ধ");
    reveal_strlit("bh");
    reveal_strlit("ভ");
    reveal_strlit("sh");
    reveal_strlit("শ");
    reveal_strlit("Rh");
    reveal_strlit("\u{09DD}");
    reveal_strlit("ph");
    reveal_strlit("ফ");
    reveal_strlit("oi");
    reveal_strlit("ঐ");
    reveal_strlit("ৈ");
    reveal_strlit("ou");
    reveal_strlit("ঔ");
    reveal_strlit("ৌ");
    reveal_strlit("t`");
    reveal_strlit("ৎ");
    reveal_strlit("..");
    reveal_strlit(".");
    reveal_strlit("ng");
    reveal_strlit("ং");
    reveal_strlit("k");
    reveal_strlit("ক");
    reveal_strlit("g");
    reveal_strlit("গ");
    reveal_strlit("c");
    reveal_strlit("চ");
    reveal_strlit("j");
    reveal_strlit("জ");
    reveal_strlit("T");
    reveal_strlit("ট");
    reveal_strlit("D");
    reveal_strlit("ড");
    reveal_strlit("N");
    reveal_strlit("ণ");
    reveal_strlit("t");
    reveal_strlit("ত");
    reveal_strlit("d");
    reveal_strlit("দ");
    reveal_strlit("n");
    reveal_strlit("ন");
    reveal_strlit("p");
    reveal_strlit("প");
    reveal_strlit("f");
    reveal_strlit("b");
    reveal_strlit("ব");
    reveal_strlit("v");
    reveal_strlit("m");
    reveal_strlit("ম");
    reveal_strlit("z");
    reveal_strlit("য");
    reveal_strlit("r");
    reveal_strlit("র");
    reveal_strlit("l");
    reveal_strlit("ল");
    reveal_strlit("S");
    reveal_strlit("ষ");
    reveal_strlit("s");
    reveal_strlit("স");
    reveal_strlit("h");
    reveal_strlit("হ");
    reveal_strlit("R");
    reveal_strlit("\u{09DC}");
    reveal_strlit("y");
    reveal_strlit("\u{09DF}");
    reveal_strlit("x");
    reveal_strlit("ক্ষ");
    reveal_strlit("w");
    reveal_strlit("a");
    reveal_strlit("আ");
    reveal_strlit("া");
    reveal_strlit("i");
    reveal_strlit("ই");
    reveal_strlit("ি");
    reveal_strlit("I");
    reveal_strlit("ঈ");
    reveal_strlit("ী");
    reveal_strlit("u");
    reveal_strlit("উ");
    reveal_strlit("ু");
    reveal_strlit("U");
    reveal_strlit("ঊ");
    reveal_strlit("ূ");
    reveal_strlit("e");
    reveal_strlit("এ");
    reveal_strlit("ে");
    reveal_strlit("o");
    reveal_strlit("ও");
    reveal_strlit("ো");
    reveal_strlit("O");
    reveal_strlit("H");
    reveal_strlit("`");
    reveal_strlit("।");
    assert forall|k: int|
        0 <= k < RULE_COUNT && k != 42 && written_form(spec_rule_at(42).token_type) == written_form(
            #[trigger] spec_rule_at(k).token_type,
        ) implies documented_alias(spec_rule_at(42).roman@, spec_rule_at(k).roman@) by {
        let a = written_form(spec_rule_at(42).token_type);
        let b = written_form(spec_rule_at(k).token_type);
        assert(a.len() == b.len());
        if a.len() > 0 {
            assert(a[0] == b[0]);
        }
    }
    assert forall|k: int|
        0 <= k < RULE_COUNT && k != 43 && written_form(spec_rule_at(43).token_type) == written_form(
            #[trigger] spec_rule_at(k).token_type,
        ) implies documented_alias(spec_rule_at(43).roman@, spec_rule_at(k).roman@) by {
        let a = written_form(spec_rule_at(43).token_type);
        let b = written_form(spec_rule_at(k).token_type);
        assert(a.len() == b.len());
        if a.len() > 0 {
            assert(a[0] == b[0]);
        }
    }
    assert forall|k: int|
        0 <= k < RULE_COUNT && k != 44 && written_form(spec_rule_at(44).token_type) == written_form(
            #[trigger] spec_rule_at(k).token_type,
        ) implies documented_alias(spec_rule_at(44).roman@, spec_rule_at(k).roman@) by {
        let a = written_form(spec_rule_at(44).token_type);
        let b = written_form(spec_rule_at(k).token_type);
        assert(a.len() == b.len());
        if a.len() > 0 {
            assert(a[0] == b[0]);
        }
    }
    assert forall|k: int|
        0 <= k < RULE_COUNT && k != 45 && written_form(spec_rule_at(45).token_type) == written_form(
            #[trigger] spec_rule_at(k).token_type,
        ) implies documented_alias(spec_rule_at(45).roman@, spec_rule_at(k).roman@) by {
        let a = written_form(spec_rule_at(45).token_type);
        let b = written_form(spec_rule_at(k).token_type);
        assert(a.len() == b.len());
        if a.len() > 0 {
            assert(a[0] == b[0]);
        }
    }
    assert forall|k: int|
        0 <= k < RULE_COUNT && k != 46 && written_form(spec_rule_at(46).token_type) == written_form(
            #[trigger] spec_rule_at(k).token_type,
        ) implies documented_alias(spec_rule_at(46).roman@, spec_rule_at(k).roman@) by {
        let a = written_form(spec_rule_at(46).token_type);
        let b = written_form(spec_rule_at(k).token_type);
        assert(a.len() == b.len());
        if a.len() > 0 {
            assert(a[0] == b[0]);
        }
    }
    assert forall|k: int|
        0 <= k < RULE_COUNT && k != 47 && written_form(spec_rule_at(47).token_type) == written_form(
            #[trigger] spec_rule_at(k).token_type,
        ) implies documented_alias(spec_rule_at(47).roman@, spec_rule_at(k).roman@) by {
        let a = written_form(spec_rule_at(47).token_type);
        let b = written_form(spec_rule_at(k).token_type);
        assert(a.len() == b.len());
        if a.len() > 0 {
            assert(a[0] == b[0]);
        }
    }
    assert forall|k: int|
        0 <= k < RULE_COUNT && k != 48 && written_form(spec_rule_at(48).token_type) == written_form(
            #[trigger] spec_rule_at(k).token_type,
        ) implies documented_alias(spec_rule_at(48).roman@, spec_rule_at(k).roman@) by {
        let a = written_form(spec_rule_at(48).token_type);
        let b = written_form(spec_rule_at(k).token_type);
        assert(a.len() == b.len());
        if a.len() > 0 {
            assert(a[0] == b[0]);
        }
    }
    assert forall|k: int|
        0 <= k < RULE_COUNT && k != 49 && written_form(spec_rule_at(49).token_type) == written_form(
            #[trigger] spec_rule_at(k).token_type,
        ) implies documented_alias(spec_rule_at(49).roman@, spec_rule_at(k).roman@) by {
        let a = written_form(spec_rule_at(49).token_type);
        let b = written_form(spec_rule_at(k).token_type);
        assert(a.len() == b.len());
        if a.len() > 0 {
            assert(a[0] == b[0]);
        }
    }
    assert forall|k: int|
        0 <= k < RULE_COUNT && k != 50 && written_form(spec_rule_at(50).token_type) == written_form(
            #[trigger] spec_rule_at(k).token_type,
        ) implies documented_alias(spec_rule_at(50).roman@, spec_rule_at(k).roman@) by {
        let a = written_form(spec_rule_at(50).token_type);
        let b = written_form(spec_rule_at(k).token_type);
        assert(a.len() == b.len());
        if a.len() > 0 {
            assert(a[0] == b[0]);
        }
    }
    assert forall|k: int|
        0 <= k < RULE_COUNT && k != 51 && written_form(spec_rule_at(51).token_type) == written_form(
            #[trigger] spec_rule_at(k).token_type,
        ) implies documented_alias(spec_rule_at(51).roman@, spec_rule_at(k).roman@) by {
        let a = written_form(spec_rule_at(51).token_type);
        let b = written_form(spec_rule_at(k).token_type);
        assert(a.len() == b.len());
        if a.len() > 0 {
            assert(a[0] == b[0]);
        }
    }
    assert forall|k: int|
        0 <= k < RULE_COUNT && k != 52 && written_form(spec_rule_at(52).token_type) == written_form(
            #[trigger] spec_rule_at(k).token_type,
        ) implies documented_alias(spec_rule_at(52).roman@, spec_rule_at(k).roman@) by {
        let a = written_form(spec_rule_at(52).token_type);
        let b = written_form(spec_rule_at(k).token_type);
        assert(a.len() == b.len());
        if a.len() > 0 {
            assert(a[0] == b[0]);
        }
    }
    assert forall|k: int|
        0 <= k < RULE_COUNT && k != 53 && written_form(spec_rule_at(53).token_type) == written_form(
            #[trigger] spec_rule_at(k).token_type,
        ) implies documented_alias(spec_rule_at(53).roman@, spec_rule_at(k).roman@) by {
        let a = written_form(spec_rule_at(53).token_type);
        let b = written_form(spec_rule_at(k).token_type);
        assert(a.len() == b.len());
        if a.len() > 0 {
            assert(a[0] == b[0]);
        }
    }
    assert forall|k: int|
        0 <= k < RULE_COUNT && k != 54 && written_form(spec_rule_at(54).token_type) == written_form(
            #[trigger] spec_rule_at(k).token_type,
        ) implies documented_alias(spec_rule_at(54).roman@, spec_rule_at(k).roman@) by {
        let a = written_form(spec_rule_at(54).token_type);
        let b = written_form(spec_rule_at(k).token_type);
        assert(a.len() == b.len());
        if a.len() > 0 {
            assert(a[0] == b[0]);
        }
    }
    assert forall|k: int|
        0 <= k < RULE_COUNT && k != 55 && written_form(spec_rule_at(55).token_type) == written_form(
            #[trigger] spec_rule_at(k).token_type,
        ) implies documented_alias(spec_rule_at(55).roman@, spec_rule_at(k).roman@) by {
        let a = written_form(spec_rule_at(55).token_type);
        let b = written_form(spec_rule_at(k).token_type);
        assert(a.len() == b.len());
        if a.len() > 0 {
            assert(a[0] == b[0]);
        }
    }
    assert forall|j: int, k: int|
        42 <= j < 56 && 0 <= k < RULE_COUNT && j != k && written_form(
            #[trigger] spec_rule_at(j).token_type,
        ) == written_form(#[trigger] spec_rule_at(k).token_type) implies documented_alias(
        spec_rule_at(j).roman@,
        spec_rule_at(k).roman@,
    ) by {
        assert(42 <= j < 56);
    }
}

/// Distinct keys of the layout write distinct letters: two rules write the
/// same thing, or give the same vowel sign, only when the layout documents
/// their Roman sequences as spellings of one letter.
pub proof fn lemma_layout_letters_distinct()
    ensures
        forall|j: int, k: int|
            0 <= j < RULE_COUNT && 0 <= k < RULE_COUNT && j != k && written_form(
                #[trigger] spec_rule_at(j).token_type,
            ) == written_form(#[trigger] spec_rule_at(k).token_type) ==> documented_alias(
                spec_rule_at(j).roman@,
                spec_rule_at(k).roman@,
            ),
{
    lemma_layout_letters_distinct_0();
    lemma_layout_letters_distinct_1();
    lemma_layout_letters_distinct_2();
    lemma_layout_letters_distinct_3();
}

/// An aspirated key, written with a trailing `h`, stands for the letter that
/// follows in the Bengali alphabet the letter of the key without the `h`
/// (`kh` after `k`, `th` after `t`, `Rh` after `R`, ...); `sh` is the one
/// exception, as the sibilants are not ordered that way.
pub proof fn lemma_aspirates_follow()
    ensures
        forall|j: int, k: int|
            0 <= j < RULE_COUNT && 0 <= k < RULE_COUNT && (#[trigger] spec_rule_at(k)).roman@
                == (#[trigger] spec_rule_at(j)).roman@.push('h') && spec_rule_at(j).roman@ != "s"@
                ==> {
                &&& spec_rule_at(j).token_type is Consonant
                &&& spec_rule_at(k).token_type is Consonant
                &&& written_form(spec_rule_at(j).token_type).len() == 1
                &&& written_form(spec_rule_at(k).token_type).len() == 1
                &&& written_form(spec_rule_at(k).token_type)[0] as u32 == written_form(
                    spec_rule_at(j).token_type,
                )[0] as u32 + 1
            },
{
    reveal_strlit("rRI");
    reveal_strlit("ঋ");
    reveal_strlit("ৃ");
    reveal_strlit("NGG");
    reveal_strlit("ঃ");
    reveal_strlit("nGC");
    reveal_strlit("ঁ");
    reveal_strlit("kh");
    reveal_strlit("খ");
    reveal_strlit("gh");
    reveal_strlit("ঘ");
    reveal_strlit("ch");
    reveal_strlit("ছ");
    reveal_strlit("jh");
    reveal_strlit("ঝ");
    reveal_strlit("Th");
    reveal_strlit("ঠ");
    reveal_strlit("Dh");
    reveal_strlit("ঢ");
    reveal_strlit("th");
    reveal_strlit("থ");
    reveal_strlit("dh");
    reveal_strlit("ধ");
    reveal_strlit("bh");
    reveal_strlit("ভ");
    reveal_strlit("sh");
    reveal_strlit("শ");
    reveal_strlit("Rh");
    reveal_strlit("\u{09DD}");
    reveal_strlit("ph");
    reveal_strlit("ফ");
    reveal_strlit("oi");
    reveal_strlit("ঐ");
    reveal_strlit("ৈ");
    reveal_strlit("ou");
    reveal_strlit("ঔ");
    reveal_strlit("ৌ");
    reveal_strlit("t`");
    reveal_strlit("ৎ");
    reveal_strlit("..");
    reveal_strlit(".");
    reveal_strlit("ng");
    reveal_strlit("ং");
    reveal_strlit("k");
    reveal_strlit("ক");
    reveal_strlit("g");
    reveal_strlit("গ");
    reveal_strlit("c");
    reveal_strlit("চ");
    reveal_strlit("j");
    reveal_strlit("জ");
    reveal_strlit("T");
    reveal_strlit("ট");
    reveal_strlit("D");
    reveal_strlit("ড");
    reveal_strlit("N");
    reveal_strlit("ণ");
    reveal_strlit("t");
    reveal_strlit("ত");
    reveal_strlit("d");
    reveal_strlit("দ");
    reveal_strlit("n");
    reveal_strlit("ন");
    reveal_strlit("p");
    reveal_strlit("প");
    reveal_strlit("f");
    reveal_strlit("b");
    reveal_strlit("ব");
    reveal_strlit("v");
    reveal_strlit("m");
    reveal_strlit("ম");
    reveal_strlit("z");
    reveal_strlit("য");
    reveal_strlit("r");
    reveal_strlit("র");
    reveal_strlit("l");
    reveal_strlit("ল");
    reveal_strlit("S");
    reveal_strlit("ষ");
    reveal_strlit("s");
    reveal_strlit("স");
    reveal_strlit("h");
    reveal_strlit("হ");
    reveal_strlit("R");
    reveal_strlit("\u{09DC}");
    reveal_strlit("y");
    reveal_strlit("\u{09DF}");
    reveal_strlit("x");
    reveal_strlit("ক্ষ");
    reveal_strlit("w");
    reveal_strlit("a");
    reveal_strlit("আ");
    reveal_strlit("া");
    reveal_strlit("i");
    reveal_strlit("ই");
    reveal_strlit("ি");
    reveal_strlit("I");
    reveal_strlit("ঈ");
    reveal_strlit("ী");
    reveal_strlit("u");
    reveal_strlit("উ");
    reveal_strlit("ু");
    reveal_strlit("U");
    reveal_strlit("ঊ");
    reveal_strlit("ূ");
    reveal_strlit("e");
    reveal_strlit("এ");
    reveal_strlit("ে");
    reveal_strlit("o");
    reveal_strlit("ও");
    reveal_strlit("ো");
    reveal_strlit("O");
    reveal_strlit("H");
    reveal_strlit("`");
    reveal_strlit("।");
    assert forall|k: int|
        0 <= k < RULE_COUNT && (#[trigger] spec_rule_at(k)).roman@ == spec_rule_at(0).roman@.push('h')
            && spec_rule_at(0).roman@ != "s"@ implies {
        &&& spec_rule_at(0).token_type is Consonant
        &&& spec_rule_at(k).token_type is Consonant
        &&& written_form(spec_rule_at(0).token_type).len() == 1
        &&& written_form(spec_rule_at(k).token_type).len() == 1
        &&& written_form(spec_rule_at(k).token_type)[0] as u32 == written_form(
            spec_rule_at(0).token_type,
        )[0] as u32 + 1
    } by {
        let a = spec_rule_at(0).roman@;
        let b = spec_rule_at(k).roman@;
        assert(b.len() == a.len() + 1);
        assert(b[0] == a.push('h')[0]);
        assert(b[b.len() - 1] == 'h');
    }
    assert forall|k: int|
        0 <= k < RULE_COUNT && (#[trigger] spec_rule_at(k)).roman@ == spec_rule_at(1).roman@.push('h')
            && spec_rule_at(1).roman@ != "s"@ implies {
        &&& spec_rule_at(1).token_type is Consonant
        &&& spec_rule_at(k).token_type is Consonant
        &&& written_form(spec_rule_at(1).token_type).len() == 1
        &&& written_form(spec_rule_at(k).token_type).len() == 1
        &&& written_form(spec_rule_at(k).token_type)[0] as u32 == written_form(
            spec_rule_at(1).token_type,
        )[0] as u32 + 1
    } by {
        let a = spec_rule_at(1).roman@;
        let b = spec_rule_at(k).roman@;
        assert(b.len() == a.len() + 1);
        assert(b[0] == a.push('h')[0]);
        assert(b[b.len() - 1] == 'h');
    }
    assert forall|k: int|
        0 <= k < RULE_COUNT && (#[trigger] spec_rule_at(k)).roman@ == spec_rule_at(2).roman@.push('h')
            && spec_rule_at(2).roman@ != "s"@ implies {
        &&& spec_rule_at(2).token_type is Consonant
        &&& spec_rule_at(k).token_type is Consonant
        &&& written_form(spec_rule_at(2).token_type).len() == 1
        &&& written_form(spec_rule_at(k).token_type).len() == 1
        &&& written_form(spec_rule_at(k).token_type)[0] as u32 == written_form(
            spec_rule_at(2).token_type,
        )[0] as u32 + 1
    } by {
        let a = spec_rule_at(2).roman@;
        let b = spec_rule_at(k).roman@;
        assert(b.len() == a.len() + 1);
        assert(b[0] == a.push('h')[0]);
        assert(b[b.len() - 1] == 'h');
    }
    assert forall|k: int|
        0 <= k < RULE_COUNT && (#[trigger] spec_rule_at(k)).roman@ == spec_rule_at(3).roman@.push('h')
            && spec_rule_at(3).roman@ != "s"@ implies {
        &&& spec_rule_at(3).token_type is Consonant
        &&& spec_rule_at(k).token_type is Consonant
        &&& written_form(spec_rule_at(3).token_type).len() == 1
        &&& written_form(spec_rule_at(k).token_type).len() == 1
        &&& written_form(spec_rule_at(k).token_type)[0] as u32 == written_form(
            spec_rule_at(3).token_type,
        )[0] as u32 + 1
    } by {
        let a = spec_rule_at(3).roman@;
        let b = spec_rule_at(k).roman@;
        assert(b.len() == a.len() + 1);
        assert(b[0] == a.push('h')[0]);
        assert(b[b.len() - 1] == 'h');
    }
    assert forall|k: int|
        0 <= k < RULE_COUNT && (#[trigger] spec_rule_at(k)).roman@ == spec_rule_at(4).roman@.push('h')
            && spec_rule_at(4).roman@ != "s"@ implies {
        &&& spec_rule_at(4).token_type is Consonant
        &&& spec_rule_at(k).token_type is Consonant
        &&& written_form(spec_rule_at(4).token_type).len() == 1
        &&& written_form(spec_rule_at(k).token_type).len() == 1
        &&& written_form(spec_rule_at(k).token_type)[0] as u32 == written_form(
            spec_rule_at(4).token_type,
        )[0] as u32 + 1
    } by {
        let a = spec_rule_at(4).roman@;
        let b = spec_rule_at(k).roman@;
        assert(b.len() == a.len() + 1);
        assert(b[0] == a.push('h')[0]);
        assert(b[b.len() - 1] == 'h');
    }
    assert forall|k: int|
        0 <= k < RULE_COUNT && (#[trigger] spec_rule_at(k)).roman@ == spec_rule_at(5).roman@.push('h')
            && spec_rule_at(5).roman@ != "s"@ implies {
        &&& spec_rule_at(5).token_type is Consonant
        &&& spec_rule_at(k).token_type is Consonant
        &&& written_form(spec_rule_at(5).token_type).len() == 1
        &&& written_form(spec_rule_at(k).token_type).len() == 1
        &&& written_form(spec_rule_at(k).token_type)[0] as u32 == written_form(
            spec_rule_at(5).token_type,
        )[0] as u32 + 1
    } by {
        let a = spec_rule_at(5).roman@;
        let b = spec_rule_at(k).roman@;
        assert(b.len() == a.len() + 1);
        assert(b[0] == a.push('h')[0]);
        assert(b[b.len() - 1] == 'h');
    }
    assert forall|k: int|
        0 <= k < RULE_COUNT && (#[trigger] spec_rule_at(k)).roman@ == spec_rule_at(6).roman@.push('h')
            && spec_rule_at(6).roman@ != "s"@ implies {
        &&& spec_rule_at(6).token_type is Consonant
        &&& spec_rule_at(k).token_type is Consonant
        &&& written_form(spec_rule_at(6).token_type).len() == 1
        &&& written_form(spec_rule_at(k).token_type).len() == 1
        &&& written_form(spec_rule_at(k).token_type)[0] as u32 == written_form(
            spec_rule_at(6).token_type,
        )[0] as u32 + 1
    } by {
        let a = spec_rule_at(6).roman@;
        let b = spec_rule_at(k).roman@;
        assert(b.len() == a.len() + 1);
        assert(b[0] == a.push('h')[0]);
        assert(b[b.len() - 1] == 'h');
    }
    assert forall|k: int|
        0 <= k < RULE_COUNT && (#[trigger] spec_rule_at(k)).roman@ == spec_rule_at(7).roman@.push('h')
            && spec_rule_at(7).roman@ != "s"@ implies {
        &&& spec_rule_at(7).token_type is Consonant
        &&& spec_rule_at(k).token_type is Consonant
        &&& written_form(spec_rule_at(7).token_type).len() == 1
        &&& written_form(spec_rule_at(k).token_type).len() == 1
        &&& written_form(spec_rule_at(k).token_type)[0] as u32 == written_form(
            spec_rule_at(7).token_type,
        )[0] as u32 + 1
    } by {
        let a = spec_rule_at(7).roman@;
        let b = spec_rule_at(k).roman@;
        assert(b.len() == a.len() + 1);
        assert(b[0] == a.push('h')[0]);
        assert(b[b.len() - 1] == 'h');
    }
    assert forall|k: int|
        0 <= k < RULE_COUNT && (#[trigger] spec_rule_at(k)).roman@ == spec_rule_at(8).roman@.push('h')
            && spec_rule_at(8).roman@ != "s"@ implies {
        &&& spec_rule_at(8).token_type is Consonant
        &&& spec_rule_at(k).token_type is Consonant
        &&& written_form(spec_rule_at(8).token_type).len() == 1
        &&& written_form(spec_rule_at(k).token_type).len() == 1
        &&& written_form(spec_rule_at(k).token_type)[0] as u32 == written_form(
            spec_rule_at(8).token_type,
        )[0] as u32 + 1
    } by {
        let a = spec_rule_at(8).roman@;
        let b = spec_rule_at(k).roman@;
        assert(b.len() == a.len() + 1);
        assert(b[0] == a.push('h')[0]);
        assert(b[b.len() - 1] == 'h');
    }
    assert forall|k: int|
        0 <= k < RULE_COUNT && (#[trigger] spec_rule_at(k)).roman@ == spec_rule_at(9).roman@.push('h')
            && spec_rule_at(9).roman@ != "s"@ implies {
        &&& spec_rule_at(9).token_type is Consonant
        &&& spec_rule_at(k).token_type is Consonant
        &&& written_form(spec_rule_at(9).token_type).len() == 1
        &&& written_form(spec_rule_at(k).token_type).len() == 1
        &&& written_form(spec_rule_at(k).token_type)[0] as u32 == written_form(
            spec_rule_at(9).token_type,
        )[0] as u32 + 1
    } by {
        let a = spec_rule_at(9).roman@;
        let b = spec_rule_at(k).roman@;
        assert(b.len() == a.len() + 1);
        assert(b[0] == a.push('h')[0]);
        assert(b[b.len() - 1] == 'h');
    }
    assert forall|k: int|
        0 <= k < RULE_COUNT && (#[trigger] spec_rule_at(k)).roman@ == spec_rule_at(10).roman@.push('h')
            && spec_rule_at(10).roman@ != "s"@ implies {
        &&& spec_rule_at(10).token_type is Consonant
        &&& spec_rule_at(k).token_type is Consonant
        &&& written_form(spec_rule_at(10).token_type).len() == 1
        &&& written_form(spec_rule_at(k).token_type).len() == 1
        &&& written_form(spec_rule_at(k).token_type)[0] as u32 == written_form(
            spec_rule_at(10).token_type,
        )[0] as u32 + 1
    } by {
        let a = spec_rule_at(10).roman@;
        let b = spec_rule_at(k).roman@;
        assert(b.len() == a.len() + 1);
        assert(b[0] == a.push('h')[0]);
        assert(b[b.len() - 1] == 'h');
    }
    assert forall|k: int|
        0 <= k < RULE_COUNT && (#[trigger] spec_rule_at(k)).roman@ == spec_rule_at(11).roman@.push('h')
            && spec_rule_at(11).roman@ != "s"@ implies {
        &&& spec_rule_at(11).token_type is Consonant
        &&& spec_rule_at(k).token_type is Consonant
        &&& written_form(spec_rule_at(11).token_type).len() == 1
        &&& written_form(spec_rule_at(k).token_type).len() == 1
        &&& written_form(spec_rule_at(k).token_type)[0] as u32 == written_form(
            spec_rule_at(11).token_type,
        )[0] as u32 + 1
    } by {
        let a = spec_rule_at(11).roman@;
        let b = spec_rule_at(k).roman@;
        assert(b.len() == a.len() + 1);
        assert(b[0] == a.push('h')[0]);
        assert(b[b.len() - 1] == 'h');
    }
    assert forall|k: int|
        0 <= k < RULE_COUNT && (#[trigger] spec_rule_at(k)).roman@ == spec_rule_at(12).roman@.push('h')
            && spec_rule_at(12).roman@ != "s"@ implies {
        &&& spec_rule_at(12).token_type is Consonant
        &&& spec_rule_at(k).token_type is Consonant
        &&& written_form(spec_rule_at(12).token_type).len() == 1
        &&& written_form(spec_rule_at(k).token_type).len() == 1
        &&& written_form(spec_rule_at(k).token_type)[0] as u32 == written_form(
            spec_rule_at(12).token_type,
        )[0] as u32 + 1
    } by {
        let a = spec_rule_at(12).roman@;
        let b = spec_rule_at(k).roman@;
        assert(b.len() == a.len() + 1);
        assert(b[0] == a.push('h')[0]);
        assert(b[b.len() - 1] == 'h');
    }
    assert forall|k: int|
        0 <= k < RULE_COUNT && (#[trigger] spec_rule_at(k)).roman@ == spec_rule_at(13).roman@.push('h')
            && spec_rule_at(13).roman@ != "s"@ implies {
        &&& spec_rule_at(13).token_type is Consonant
        &&& spec_rule_at(k).token_type is Consonant
        &&& written_form(spec_rule_at(13).token_type).len() == 1
        &&& written_form(spec_rule_at(k).token_type).len() == 1
        &&& written_form(spec_rule_at(k).token_type)[0] as u32 == written_form(
            spec_rule_at(13).token_type,
        )[0] as u32 + 1
    } by {
        let a = spec_rule_at(13).roman@;
        let b = spec_rule_at(k).roman@;
        assert(b.len() == a.len() + 1);
        assert(b[0] == a.push('h')[0]);
        assert(b[b.len() - 1] == 'h');
    }
    assert forall|k: int|
        0 <= k < RULE_COUNT && (#[trigger] spec_rule_at(k)).roman@ == spec_rule_at(14).roman@.push('h')
            && spec_rule_at(14).roman@ != "s"@ implies {
        &&& spec_rule_at(14).token_type is Consonant
        &&& spec_rule_at(k).token_type is Consonant
        &&& written_form(spec_rule_at(14).token_type).len() == 1
        &&& written_form(spec_rule_at(k).token_type).len() == 1
        &&& written_form(spec_rule_at(k).token_type)[0] as u32 == written_form(
            spec_rule_at(14).token_type,
        )[0] as u32 + 1
    } by {
        let a = spec_rule_at(14).roman@;
        let b = spec_rule_at(k).roman@;
        assert(b.len() == a.len() + 1);
        assert(b[0] == a.push('h')[0]);
        assert(b[b.len() - 1] == 'h');
    }
    assert forall|k: int|
        0 <= k < RULE_COUNT && (#[trigger] spec_rule_at(k)).roman@ == spec_rule_at(15).roman@.push('h')
            && spec_rule_at(15).roman@ != "s"@ implies {
        &&& spec_rule_at(15).token_type is Consonant
        &&& spec_rule_at(k).token_type is Consonant
        &&& written_form(spec_rule_at(15).token_type).len() == 1
        &&& written_form(spec_rule_at(k).token_type).len() == 1
        &&& written_form(spec_rule_at(k).token_type)[0] as u32 == written_form(
            spec_rule_at(15).token_type,
        )[0] as u32 + 1
    } by {
        let a = spec_rule_at(15).roman@;
        let b = spec_rule_at(k).roman@;
        assert(b.len() == a.len() + 1);
        assert(b[0] == a.push('h')[0]);
        assert(b[b.len() - 1] == 'h');
    }
    assert forall|k: int|
        0 <= k < RULE_COUNT && (#[trigger] spec_rule_at(k)).roman@ == spec_rule_at(16).roman@.push('h')
            && spec_rule_at(16).roman@ != "s"@ implies {
        &&& spec_rule_at(16).token_type is Consonant
        &&& spec_rule_at(k).token_type is Consonant
        &&& written_form(spec_rule_at(16).token_type).len() == 1
        &&& written_form(spec_rule_at(k).token_type).len() == 1
        &&& written_form(spec_rule_at(k).token_type)[0] as u32 == written_form(
            spec_rule_at(16).token_type,
        )[0] as u32 + 1
    } by {
        let a = spec_rule_at(16).roman@;
        let b = spec_rule_at(k).roman@;
        assert(b.len() == a.len() + 1);
        assert(b[0] == a.push('h')[0]);
        assert(b[b.len() - 1] == 'h');
    }
    assert forall|k: int|
        0 <= k < RULE_COUNT && (#[trigger] spec_rule_at(k)).roman@ == spec_rule_at(17).roman@.push('h')
            && spec_rule_at(17).roman@ != "s"@ implies {
        &&& spec_rule_at(17).token_type is Consonant
        &&& spec_rule_at(k).token_type is Consonant
        &&& written_form(spec_rule_at(17).token_type).len() == 1
        &&& written_form(spec_rule_at(k).token_type).len() == 1
        &&& written_form(spec_rule_at(k).token_type)[0] as u32 == written_form(
            spec_rule_at(17).token_type,
        )[0] as u32 + 1
    } by {
        let a = spec_rule_at(17).roman@;
        let b = spec_rule_at(k).roman@;
        assert(b.len() == a.len() + 1);
        assert(b[0] == a.push('h')[0]);
        assert(b[b.len() - 1] == 'h');
    }
    assert forall|k: int|
        0 <= k < RULE_COUNT && (#[trigger] spec_rule_at(k)).roman@ == spec_rule_at(18).roman@.push('h')
            && spec_rule_at(18).roman@ != "s"@ implies {
        &&& spec_rule_at(18).token_type is Consonant
        &&& spec_rule_at(k).token_type is Consonant
        &&& written_form(spec_rule_at(18).token_type).len() == 1
        &&& written_form(spec_rule_at(k).token_type).len() == 1
        &&& written_form(spec_rule_at(k).token_type)[0] as u32 == written_form(
            spec_rule_at(18).token_type,
        )[0] as u32 + 1
    } by {
        let a = spec_rule_at(18).roman@;
        let b = spec_rule_at(k).roman@;
        assert(b.len() == a.len() + 1);
        assert(b[0] == a.push('h')[0]);
        assert(b[b.len() - 1] == 'h');
    }
    assert forall|k: int|
        0 <= k < RULE_COUNT && (#[trigger] spec_rule_at(k)).roman@ == spec_rule_at(19).roman@.push('h')
            && spec_rule_at(19).roman@ != "s"@ implies {
        &&& spec_rule_at(19).token_type is Consonant
        &&& spec_rule_at(k).token_type is Consonant
        &&& written_form(spec_rule_at(19).token_type).len() == 1
        &&& written_form(spec_rule_at(k).token_type).len() == 1
        &&& written_form(spec_rule_at(k).token_type)[0] as u32 == written_form(
            spec_rule_at(19).token_type,
        )[0] as u32 + 1
    } by {
        let a = spec_rule_at(19).roman@;
        let b = spec_rule_at(k).roman@;
        assert(b.len() == a.len() + 1);
        assert(b[0] == a.push('h')[0]);
        assert(b[b.len() - 1] == 'h');
    }
    assert forall|k: int|
        0 <= k < RULE_COUNT && (#[trigger] spec_rule_at(k)).roman@ == spec_rule_at(20).roman@.push('h')
            && spec_rule_at(20).roman@ != "s"@ implies {
        &&& spec_rule_at(20).token_type is Consonant
        &&& spec_rule_at(k).token_type is Consonant
        &&& written_form(spec_rule_at(20).token_type).len() == 1
        &&& written_form(spec_rule_at(k).token_type).len() == 1
        &&& written_form(spec_rule_at(k).token_type)[0] as u32 == written_form(
            spec_rule_at(20).token_type,
        )[0] as u32 + 1
    } by {
        let a = spec_rule_at(20).roman@;
        let b = spec_rule_at(k).roman@;
        assert(b.len() == a.len() + 1);
        assert(b[0] == a.push('h')[0]);
        assert(b[b.len() - 1] == 'h');
    }
    assert forall|k: int|
        0 <= k < RULE_COUNT && (#[trigger] spec_rule_at(k)).roman@ == spec_rule_at(21).roman@.push('h')
            && spec_rule_at(21).roman@ != "s"@ implies {
        &&& spec_rule_at(21).token_type is Consonant
        &&& spec_rule_at(k).token_type is Consonant
        &&& written_form(spec_rule_at(21).token_type).len() == 1
        &&& written_form(spec_rule_at(k).token_type).len() == 1
        &&& written_form(spec_rule_at(k).token_type)[0] as u32 == written_form(
            spec_rule_at(21).token_type,
        )[0] as u32 + 1
    } by {
        let a = spec_rule_at(21).roman@;
        let b = spec_rule_at(k).roman@;
        assert(b.len() == a.len() + 1);
        assert(b[0] == a.push('h')[0]);
        assert(b[b.len() - 1] == 'h');
    }
    assert forall|k: int|
        0 <= k < RULE_COUNT && (#[trigger] spec_rule_at(k)).roman@ == spec_rule_at(22).roman@.push('h')
            && spec_rule_at(22).roman@ != "s"@ implies {
        &&& spec_rule_at(22).token_type is Consonant
        &&& spec_rule_at(k).token_type is Consonant
        &&& written_form(spec_rule_at(22).token_type).len() == 1
        &&& written_form(spec_rule_at(k).token_type).len() == 1
        &&& written_form(spec_rule_at(k).token_type)[0] as u32 == written_form(
            spec_rule_at(22).token_type,
        )[0] as u32 + 1
    } by {
        let a = spec_rule_at(22).roman@;
        let b = spec_rule_at(k).roman@;
        assert(b.len() == a.len() + 1);
        assert(b[0] == a.push('h')[0]);
        assert(b[b.len() - 1] == 'h');
    }
    assert forall|k: int|
        0 <= k < RULE_COUNT && (#[trigger] spec_rule_at(k)).roman@ == spec_rule_at(23).roman@.push('h')
            && spec_rule_at(23).roman@ != "s"@ implies {
        &&& spec_rule_at(23).token_type is Consonant
        &&& spec_rule_at(k).token_type is Consonant
        &&& written_form(spec_rule_at(23).token_type).len() == 1
        &&& written_form(spec_rule_at(k).token_type).len() == 1
        &&& written_form(spec_rule_at(k).token_type)[0] as u32 == written_form(
            spec_rule_at(23).token_type,
        )[0] as u32 + 1
    } by {
        let a = spec_rule_at(23).roman@;
        let b = spec_rule_at(k).roman@;
        assert(b.len() == a.len() + 1);
        assert(b[0] == a.push('h')[0]);
        assert(b[b.len() - 1] == 'h');
    }
    assert forall|k: int|
        0 <= k < RULE_COUNT && (#[trigger] spec_rule_at(k)).roman@ == spec_rule_at(24).roman@.push('h')
            && spec_rule_at(24).roman@ != "s"@ implies {
        &&& spec_rule_at(24).token_type is Consonant
        &&& spec_rule_at(k).token_type is Consonant
        &&& written_form(spec_rule_at(24).token_type).len() == 1
        &&& written_form(spec_rule_at(k).token_type).len() == 1
        &&& written_form(spec_rule_at(k).token_type)[0] as u32 == written_form(
            spec_rule_at(24).token_type,
        )[0] as u32 + 1
    } by {
        let a = spec_rule_at(24).roman@;
        let b = spec_rule_at(k).roman@;
        assert(b.len() == a.len() + 1);
        assert(b[0] == a.push('h')[0]);
        assert(b[b.len() - 1] == 'h');
    }
    assert forall|k: int|
        0 <= k < RULE_COUNT && (#[trigger] spec_rule_at(k)).roman@ == spec_rule_at(25).roman@.push('h')
            && spec_rule_at(25).roman@ != "s"@ implies {
        &&& spec_rule_at(25).token_type is Consonant
        &&& spec_rule_at(k).token_type is Consonant
        &&& written_form(spec_rule_at(25).token_type).len() == 1
        &&& written_form(spec_rule_at(k).token_type).len() == 1
        &&& written_form(spec_rule_at(k).token_type)[0] as u32 == written_form(
            spec_rule_at(25).token_type,
        )[0] as u32 + 1
    } by {
        let a = spec_rule_at(25).roman@;
        let b = spec_rule_at(k).roman@;
        assert(b.len() == a.len() + 1);
        assert(b[0] == a.push('h')[0]);
        assert(b[b.len() - 1] == 'h');
    }
    assert forall|k: int|
        0 <= k < RULE_COUNT && (#[trigger] spec_rule_at(k)).roman@ == spec_rule_at(26).roman@.push('h')
            && spec_rule_at(26).roman@ != "s"@ implies {
        &&& spec_rule_at(26).token_type is Consonant
        &&& spec_rule_at(k).token_type is Consonant
        &&& written_form(spec_rule_at(26).token_type).len() == 1
        &&& written_form(spec_rule_at(k).token_type).len() == 1
        &&& written_form(spec_rule_at(k).token_type)[0] as u32 == written_form(
            spec_rule_at(26).token_type,
        )[0] as u32 + 1
    } by {
        let a = spec_rule_at(26).roman@;
        let b = spec_rule_at(k).roman@;
        assert(b.len() == a.len() + 1);
        assert(b[0] == a.push('h')[0]);
        assert(b[b.len() - 1] == 'h');
    }
    assert forall|k: int|
        0 <= k < RULE_COUNT && (#[trigger] spec_rule_at(k)).roman@ == spec_rule_at(27).roman@.push('h')
            && spec_rule_at(27).roman@ != "s"@ implies {
        &&& spec_rule_at(27).token_type is Consonant
        &&& spec_rule_at(k).token_type is Consonant
        &&& written_form(spec_rule_at(27).token_type).len() == 1
        &&& written_form(spec_rule_at(k).token_type).len() == 1
        &&& written_form(spec_rule_at(k).token_type)[0] as u32 == written_form(
            spec_rule_at(27).token_type,
        )[0] as u32 + 1
    } by {
        let a = spec_rule_at(27).roman@;
        let b = spec_rule_at(k).roman@;
        assert(b.len() == a.len() + 1);
        assert(b[0] == a.push('h')[0]);
        assert(b[b.len() - 1] == 'h');
    }
    assert forall|k: int|
        0 <= k < RULE_COUNT && (#[trigger] spec_rule_at(k)).roman@ == spec_rule_at(28).roman@.push('h')
            && spec_rule_at(28).roman@ != "s"@ implies {
        &&& spec_rule_at(28).token_type is Consonant
        &&& spec_rule_at(k).token_type is Consonant
        &&& written_form(spec_rule_at(28).token_type).len() == 1
        &&& written_form(spec_rule_at(k).token_type).len() == 1
        &&& written_form(spec_rule_at(k).token_type)[0] as u32 == written_form(
            spec_rule_at(28).token_type,
        )[0] as u32 + 1
    } by {
        let a = spec_rule_at(28).roman@;
        let b = spec_rule_at(k).roman@;
        assert(b.len() == a.len() + 1);
        assert(b[0] == a.push('h')[0]);
        assert(b[b.len() - 1] == 'h');
    }
    assert forall|k: int|
        0 <= k < RULE_COUNT && (#[trigger] spec_rule_at(k)).roman@ == spec_rule_at(29).roman@.push('h')
            && spec_rule_at(29).roman@ != "s"@ implies {
        &&& spec_rule_at(29).token_type is Consonant
        &&& spec_rule_at(k).token_type is Consonant
        &&& written_form(spec_rule_at(29).token_type).len() == 1
        &&& written_form(spec_rule_at(k).token_type).len() == 1
        &&& written_form(spec_rule_at(k).token_type)[0] as u32 == written_form(
            spec_rule_at(29).token_type,
        )[0] as u32 + 1
    } by {
        let a = spec_rule_at(29).roman@;
        let b = spec_rule_at(k).roman@;
        assert(b.len() == a.len() + 1);
        assert(b[0] == a.push('h')[0]);
        assert(b[b.len() - 1] == 'h');
    }
    assert forall|k: int|
        0 <= k < RULE_COUNT && (#[trigger] spec_rule_at(k)).roman@ == spec_rule_at(30).roman@.push('h')
            && spec_rule_at(30).roman@ != "s"@ implies {
        &&& spec_rule_at(30).token_type is Consonant
        &&& spec_rule_at(k).token_type is Consonant
        &&& written_form(spec_rule_at(30).token_type).len() == 1
        &&& written_form(spec_rule_at(k).token_type).len() == 1
        &&& written_form(spec_rule_at(k).token_type)[0] as u32 == written_form(
            spec_rule_at(30).token_type,
        )[0] as u32 + 1
    } by {
        let a = spec_rule_at(30).roman@;
        let b = spec_rule_at(k).roman@;
        assert(b.len() == a.len() + 1);
        assert(b[0] == a.push('h')[0]);
        assert(b[b.len() - 1] == 'h');
    }
    assert forall|k: int|
        0 <= k < RULE_COUNT && (#[trigger] spec_rule_at(k)).roman@ == spec_rule_at(31).roman@.push('h')
            && spec_rule_at(31).roman@ != "s"@ implies {
        &&& spec_rule_at(31).token_type is Consonant
        &&& spec_rule_at(k).token_type is Consonant
        &&& written_form(spec_rule_at(31).token_type).len() == 1
        &&& written_form(spec_rule_at(k).token_type).len() == 1
        &&& written_form(spec_rule_at(k).token_type)[0] as u32 == written_form(
            spec_rule_at(31).token_type,
        )[0] as u32 + 1
    } by {
        let a = spec_rule_at(31).roman@;
        let b = spec_rule_at(k).roman@;
        assert(b.len() == a.len() + 1);
        assert(b[0] == a.push('h')[0]);
        assert(b[b.len() - 1] == 'h');
    }
    assert forall|k: int|
        0 <= k < RULE_COUNT && (#[trigger] spec_rule_at(k)).roman@ == spec_rule_at(32).roman@.push('h')
            && spec_rule_at(32).roman@ != "s"@ implies {
        &&& spec_rule_at(32).token_type is Consonant
        &&& spec_rule_at(k).token_type is Consonant
        &&& written_form(spec_rule_at(32).token_type).len() == 1
        &&& written_form(spec_rule_at(k).token_type).len() == 1
        &&& written_form(spec_rule_at(k).token_type)[0] as u32 == written_form(
            spec_rule_at(32).token_type,
        )[0] as u32 + 1
    } by {
        let a = spec_rule_at(32).roman@;
        let b = spec_rule_at(k).roman@;
        assert(b.len() == a.len() + 1);
        assert(b[0] == a.push('h')[0]);
        assert(b[b.len() - 1] == 'h');
    }
    assert forall|k: int|
        0 <= k < RULE_COUNT && (#[trigger] spec_rule_at(k)).roman@ == spec_rule_at(33).roman@.push('h')
            && spec_rule_at(33).roman@ != "s"@ implies {
        &&& spec_rule_at(33).token_type is Consonant
        &&& spec_rule_at(k).token_type is Consonant
        &&& written_form(spec_rule_at(33).token_type).len() == 1
        &&& written_form(spec_rule_at(k).token_type).len() == 1
        &&& written_form(spec_rule_at(k).token_type)[0] as u32 == written_form(
            spec_rule_at(33).token_type,
        )[0] as u32 + 1
    } by {
        let a = spec_rule_at(33).roman@;
        let b = spec_rule_at(k).roman@;
        assert(b.len() == a.len() + 1);
        assert(b[0] == a.push('h')[0]);
        assert(b[b.len() - 1] == 'h');
    }
    assert forall|k: int|
        0 <= k < RULE_COUNT && (#[trigger] spec_rule_at(k)).roman@ == spec_rule_at(34).roman@.push('h')
            && spec_rule_at(34).roman@ != "s"@ implies {
        &&& spec_rule_at(34).token_type is Consonant
        &&& spec_rule_at(k).token_type is Consonant
        &&& written_form(spec_rule_at(34).token_type).len() == 1
        &&& written_form(spec_rule_at(k).token_type).len() == 1
        &&& written_form(spec_rule_at(k).token_type)[0] as u32 == written_form(
            spec_rule_at(34).token_type,
        )[0] as u32 + 1
    } by {
        let a = spec_rule_at(34).roman@;
        let b = spec_rule_at(k).roman@;
        assert(b.len() == a.len() + 1);
        assert(b[0] == a.push('h')[0]);
        assert(b[b.len() - 1] == 'h');
    }
    assert forall|k: int|
        0 <= k < RULE_COUNT && (#[trigger] spec_rule_at(k)).roman@ == spec_rule_at(35).roman@.push('h')
            && spec_rule_at(35).roman@ != "s"@ implies {
        &&& spec_rule_at(35).token_type is Consonant
        &&& spec_rule_at(k).token_type is Consonant
        &&& written_form(spec_rule_at(35).token_type).len() == 1
        &&& written_form(spec_rule_at(k).token_type).len() == 1
        &&& written_form(spec_rule_at(k).token_type)[0] as u32 == written_form(
            spec_rule_at(35).token_type,
        )[0] as u32 + 1
    } by {
        let a = spec_rule_at(35).roman@;
        let b = spec_rule_at(k).roman@;
        assert(b.len() == a.len() + 1);
        assert(b[0] == a.push('h')[0]);
        assert(b[b.len() - 1] == 'h');
    }
    assert forall|k: int|
        0 <= k < RULE_COUNT && (#[trigger] spec_rule_at(k)).roman@ == spec_rule_at(36).roman@.push('h')
            && spec_rule_at(36).roman@ != "s"@ implies {
        &&& spec_rule_at(36).token_type is Consonant
        &&& spec_rule_at(k).token_type is Consonant
        &&& written_form(spec_rule_at(36).token_type).len() == 1
        &&& written_form(spec_rule_at(k).token_type).len() == 1
        &&& written_form(spec_rule_at(k).token_type)[0] as u32 == written_form(
            spec_rule_at(36).token_type,
        )[0] as u32 + 1
    } by {
        let a = spec_rule_at(36).roman@;
        let b = spec_rule_at(k).roman@;
        assert(b.len() == a.len() + 1);
        assert(b[0] == a.push('h')[0]);
        assert(b[b.len() - 1] == 'h');
    }
    assert forall|k: int|
        0 <= k < RULE_COUNT && (#[trigger] spec_rule_at(k)).roman@ == spec_rule_at(37).roman@.push('h')
            && spec_rule_at(37).roman@ != "s"@ implies {
        &&& spec_rule_at(37).token_type is Consonant
        &&& spec_rule_at(k).token_type is Consonant
        &&& written_form(spec_rule_at(37).token_type).len() == 1
        &&& written_form(spec_rule_at(k).token_type).len() == 1
        &&& written_form(spec_rule_at(k).token_type)[0] as u32 == written_form(
            spec_rule_at(37).token_type,
        )[0] as u32 + 1
    } by {
        let a = spec_rule_at(37).roman@;
        let b = spec_rule_at(k).roman@;
        assert(b.len() == a.len() + 1);
        assert(b[0] == a.push('h')[0]);
        assert(b[b.len() - 1] == 'h');
    }
    assert forall|k: int|
        0 <= k < RULE_COUNT && (#[trigger] spec_rule_at(k)).roman@ == spec_rule_at(38).roman@.push('h')
            && spec_rule_at(38).roman@ != "s"@ implies {
        &&& spec_rule_at(38).token_type is Consonant
        &&& spec_rule_at(k).token_type is Consonant
        &&& written_form(spec_rule_at(38).token_type).len() == 1
        &&& written_form(spec_rule_at(k).token_type).len() == 1
        &&& written_form(spec_rule_at(k).token_type)[0] as u32 == written_form(
            spec_rule_at(38).token_type,
        )[0] as u32 + 1
    } by {
        let a = spec_rule_at(38).roman@;
        let b = spec_rule_at(k).roman@;
        assert(b.len() == a.len() + 1);
        assert(b[0] == a.push('h')[0]);
        assert(b[b.len() - 1] == 'h');
    }
    assert forall|k: int|
        0 <= k < RULE_COUNT && (#[trigger] spec_rule_at(k)).roman@ == spec_rule_at(39).roman@.push('h')
            && spec_rule_at(39).roman@ != "s"@ implies {
        &&& spec_rule_at(39).token_type is Consonant
        &&& spec_rule_at(k).token_type is Consonant
        &&& written_form(spec_rule_at(39).token_type).len() == 1
        &&& written_form(spec_rule_at(k).token_type).len() == 1
        &&& written_form(spec_rule_at(k).token_type)[0] as u32 == written_form(
            spec_rule_at(39).token_type,
        )[0] as u32 + 1
    } by {
        let a = spec_rule_at(39).roman@;
        let b = spec_rule_at(k).roman@;
        assert(b.len() == a.len() + 1);
        assert(b[0] == a.push('h')[0]);
        assert(b[b.len() - 1] == 'h');
    }
    assert forall|k: int|
        0 <= k < RULE_COUNT && (#[trigger] spec_rule_at(k)).roman@ == spec_rule_at(40).roman@.push('h')
            && spec_rule_at(40).roman@ != "s"@ implies {
        &&& spec_rule_at(40).token_type is Consonant
        &&& spec_rule_at(k).token_type is Consonant
        &&& written_form(spec_rule_at(40).token_type).len() == 1
        &&& written_form(spec_rule_at(k).token_type).len() == 1
        &&& written_form(spec_rule_at(k).token_type)[0] as u32 == written_form(
            spec_rule_at(40).token_type,
        )[0] as u32 + 1
    } by {
        let a = spec_rule_at(40).roman@;
        let b = spec_rule_at(k).roman@;
        assert(b.len() == a.len() + 1);
        assert(b[0] == a.push('h')[0]);
        assert(b[b.len() - 1] == 'h');
    }
    assert forall|k: int|
        0 <= k < RULE_COUNT && (#[trigger] spec_rule_at(k)).roman@ == spec_rule_at(41).roman@.push('h')
            && spec_rule_at(41).roman@ != "s"@ implies {
        &&& spec_rule_at(41).token_type is Consonant
        &&& spec_rule_at(k).token_type is Consonant
        &&& written_form(spec_rule_at(41).token_type).len() == 1
        &&& written_form(spec_rule_at(k).token_type).len() == 1
        &&& written_form(spec_rule_at(k).token_type)[0] as u32 == written_form(
            spec_rule_at(41).token_type,
        )[0] as u32 + 1
    } by {
        let a = spec_rule_at(41).roman@;
        let b = spec_rule_at(k).roman@;
        assert(b.len() == a.len() + 1);
        assert(b[0] == a.push('h')[0]);
        assert(b[b.len() - 1] == 'h');
    }
    assert forall|k: int|
        0 <= k < RULE_COUNT && (#[trigger] spec_rule_at(k)).roman@ == spec_rule_at(42).roman@.push('h')
            && spec_rule_at(42).roman@ != "s"@ implies {
        &&& spec_rule_at(42).token_type is Consonant
        &&& spec_rule_at(k).token_type is Consonant
        &&& written_form(spec_rule_at(42).token_type).len() == 1
        &&& written_form(spec_rule_at(k).token_type).len() == 1
        &&& written_form(spec_rule_at(k).token_type)[0] as u32 == written_form(
            spec_rule_at(42).token_type,
        )[0] as u32 + 1
    } by {
        let a = spec_rule_at(42).roman@;
        let b = spec_rule_at(k).roman@;
        assert(b.len() == a.len() + 1);
        assert(b[0] == a.push('h')[0]);
        assert(b[b.len() - 1] == 'h');
    }
    assert forall|k: int|
        0 <= k < RULE_COUNT && (#[trigger] spec_rule_at(k)).roman@ == spec_rule_at(43).roman@.push('h')
            && spec_rule_at(43).roman@ != "s"@ implies {
        &&& spec_rule_at(43).token_type is Consonant
        &&& spec_rule_at(k).token_type is Consonant
        &&& written_form(spec_rule_at(43).token_type).len() == 1
        &&& written_form(spec_rule_at(k).token_type).len() == 1
        &&& written_form(spec_rule_at(k).token_type)[0] as u32 == written_form(
            spec_rule_at(43).token_type,
        )[0] as u32 + 1
    } by {
        let a = spec_rule_at(43).roman@;
        let b = spec_rule_at(k).roman@;
        assert(b.len() == a.len() + 1);
        assert(b[0] == a.push('h')[0]);
        assert(b[b.len() - 1] == 'h');
    }
    assert forall|k: int|
        0 <= k < RULE_COUNT && (#[trigger] spec_rule_at(k)).roman@ == spec_rule_at(44).roman@.push('h')
            && spec_rule_at(44).roman@ != "s"@ implies {
        &&& spec_rule_at(44).token_type is Consonant
        &&& spec_rule_at(k).token_type is Consonant
        &&& written_form(spec_rule_at(44).token_type).len() == 1
        &&& written_form(spec_rule_at(k).token_type).len() == 1
        &&& written_form(spec_rule_at(k).token_type)[0] as u32 == written_form(
            spec_rule_at(44).token_type,
        )[0] as u32 + 1
    } by {
        let a = spec_rule_at(44).roman@;
        let b = spec_rule_at(k).roman@;
        assert(b.len() == a.len() + 1);
        assert(b[0] == a.push('h')[0]);
        assert(b[b.len() - 1] == 'h');
    }
    assert forall|k: int|
        0 <= k < RULE_COUNT && (#[trigger] spec_rule_at(k)).roman@ == spec_rule_at(45).roman@.push('h')
            && spec_rule_at(45).roman@ != "s"@ implies {
        &&& spec_rule_at(45).token_type is Consonant
        &&& spec_rule_at(k).token_type is Consonant
        &&& written_form(spec_rule_at(45).token_type).len() == 1
        &&& written_form(spec_rule_at(k).token_type).len() == 1
        &&& written_form(spec_rule_at(k).token_type)[0] as u32 == written_form(
            spec_rule_at(45).token_type,
        )[0] as u32 + 1
    } by {
        let a = spec_rule_at(45).roman@;
        let b = spec_rule_at(k).roman@;
        assert(b.len() == a.len() + 1);
        assert(b[0] == a.push('h')[0]);
        assert(b[b.len() - 1] == 'h');
    }
    assert forall|k: int|
        0 <= k < RULE_COUNT && (#[trigger] spec_rule_at(k)).roman@ == spec_rule_at(46).roman@.push('h')
            && spec_rule_at(46).roman@ != "s"@ implies {
        &&& spec_rule_at(46).token_type is Consonant
        &&& spec_rule_at(k).token_type is Consonant
        &&& written_form(spec_rule_at(46).token_type).len() == 1
        &&& written_form(spec_rule_at(k).token_type).len() == 1
        &&& written_form(spec_rule_at(k).token_type)[0] as u32 == written_form(
            spec_rule_at(46).token_type,
        )[0] as u32 + 1
    } by {
        let a = spec_rule_at(46).roman@;
        let b = spec_rule_at(k).roman@;
        assert(b.len() == a.len() + 1);
        assert(b[0] == a.push('h')[0]);
        assert(b[b.len() - 1] == 'h');
    }
    assert forall|k: int|
        0 <= k < RULE_COUNT && (#[trigger] spec_rule_at(k)).roman@ == spec_rule_at(47).roman@.push('h')
            && spec_rule_at(47).roman@ != "s"@ implies {
        &&& spec_rule_at(47).token_type is Consonant
        &&& spec_rule_at(k).token_type is Consonant
        &&& written_form(spec_rule_at(47).token_type).len() == 1
        &&& written_form(spec_rule_at(k).token_type).len() == 1
        &&& written_form(spec_rule_at(k).token_type)[0] as u32 == written_form(
            spec_rule_at(47).token_type,
        )[0] as u32 + 1
    } by {
        let a = spec_rule_at(47).roman@;
        let b = spec_rule_at(k).roman@;
        assert(b.len() == a.len() + 1);
        assert(b[0] == a.push('h')[0]);
        assert(b[b.len() - 1] == 'h');
    }
    assert forall|k: int|
        0 <= k < RULE_COUNT && (#[trigger] spec_rule_at(k)).roman@ == spec_rule_at(48).roman@.push('h')
            && spec_rule_at(48).roman@ != "s"@ implies {
        &&& spec_rule_at(48).token_type is Consonant
        &&& spec_rule_at(k).token_type is Consonant
        &&& written_form(spec_rule_at(48).token_type).len() == 1
        &&& written_form(spec_rule_at(k).token_type).len() == 1
        &&& written_form(spec_rule_at(k).token_type)[0] as u32 == written_form(
            spec_rule_at(48).token_type,
        )[0] as u32 + 1
    } by {
        let a = spec_rule_at(48).roman@;
        let b = spec_rule_at(k).roman@;
        assert(b.len() == a.len() + 1);
        assert(b[0] == a.push('h')[0]);
        assert(b[b.len() - 1] == 'h');
    }
    assert forall|k: int|
        0 <= k < RULE_COUNT && (#[trigger] spec_rule_at(k)).roman@ == spec_rule_at(49).roman@.push('h')
            && spec_rule_at(49).roman@ != "s"@ implies {
        &&& spec_rule_at(49).token_type is Consonant
        &&& spec_rule_at(k).token_type is Consonant
        &&& written_form(spec_rule_at(49).token_type).len() == 1
        &&& written_form(spec_rule_at(k).token_type).len() == 1
        &&& written_form(spec_rule_at(k).token_type)[0] as u32 == written_form(
            spec_rule_at(49).token_type,
        )[0] as u32 + 1
    } by {
        let a = spec_rule_at(49).roman@;
        let b = spec_rule_at(k).roman@;
        assert(b.len() == a.len() + 1);
        assert(b[0] == a.push('h')[0]);
        assert(b[b.len() - 1] == 'h');
    }
    assert forall|k: int|
        0 <= k < RULE_COUNT && (#[trigger] spec_rule_at(k)).roman@ == spec_rule_at(50).roman@.push('h')
            && spec_rule_at(50).roman@ != "s"@ implies {
        &&& spec_rule_at(50).token_type is Consonant
        &&& spec_rule_at(k).token_type is Consonant
        &&& written_form(spec_rule_at(50).token_type).len() == 1
        &&& written_form(spec_rule_at(k).token_type).len() == 1
        &&& written_form(spec_rule_at(k).token_type)[0] as u32 == written_form(
            spec_rule_at(50).token_type,
        )[0] as u32 + 1
    } by {
        let a = spec_rule_at(50).roman@;
        let b = spec_rule_at(k).roman@;
        assert(b.len() == a.len() + 1);
        assert(b[0] == a.push('h')[0]);
        assert(b[b.len() - 1] == 'h');
    }
    assert forall|k: int|
        0 <= k < RULE_COUNT && (#[trigger] spec_rule_at(k)).roman@ == spec_rule_at(51).roman@.push('h')
            && spec_rule_at(51).roman@ != "s"@ implies {
        &&& spec_rule_at(51).token_type is Consonant
        &&& spec_rule_at(k).token_type is Consonant
        &&& written_form(spec_rule_at(51).token_type).len() == 1
        &&& written_form(spec_rule_at(k).token_type).len() == 1
        &&& written_form(spec_rule_at(k).token_type)[0] as u32 == written_form(
            spec_rule_at(51).token_type,
        )[0] as u32 + 1
    } by {
        let a = spec_rule_at(51).roman@;
        let b = spec_rule_at(k).roman@;
        assert(b.len() == a.len() + 1);
        assert(b[0] == a.push('h')[0]);
        assert(b[b.len() - 1] == 'h');
    }
    assert forall|k: int|
        0 <= k < RULE_COUNT && (#[trigger] spec_rule_at(k)).roman@ == spec_rule_at(52).roman@.push('h')
            && spec_rule_at(52).roman@ != "s"@ implies {
        &&& spec_rule_at(52).token_type is Consonant
        &&& spec_rule_at(k).token_type is Consonant
        &&& written_form(spec_rule_at(52).token_type).len() == 1
        &&& written_form(spec_rule_at(k).token_type).len() == 1
        &&& written_form(spec_rule_at(k).token_type)[0] as u32 == written_form(
            spec_rule_at(52).token_type,
        )[0] as u32 + 1
    } by {
        let a = spec_rule_at(52).roman@;
        let b = spec_rule_at(k).roman@;
        assert(b.len() == a.len() + 1);
        assert(b[0] == a.push('h')[0]);
        assert(b[b.len() - 1] == 'h');
    }
    assert forall|k: int|
        0 <= k < RULE_COUNT && (#[trigger] spec_rule_at(k)).roman@ == spec_rule_at(53).roman@.push('h')
            && spec_rule_at(53).roman@ != "s"@ implies {
        &&& spec_rule_at(53).token_type is Consonant
        &&& spec_rule_at(k).token_type is Consonant
        &&& written_form(spec_rule_at(53).token_type).len() == 1
        &&& written_form(spec_rule_at(k).token_type).len() == 1
        &&& written_form(spec_rule_at(k).token_type)[0] as u32 == written_form(
            spec_rule_at(53).token_type,
        )[0] as u32 + 1
    } by {
        let a = spec_rule_at(53).roman@;
        let b = spec_rule_at(k).roman@;
        assert(b.len() == a.len() + 1);
        assert(b[0] == a.push('h')[0]);
        assert(b[b.len() - 1] == 'h');
    }
    assert forall|k: int|
        0 <= k < RULE_COUNT && (#[trigger] spec_rule_at(k)).roman@ == spec_rule_at(54).roman@.push('h')
            && spec_rule_at(54).roman@ != "s"@ implies {
        &&& spec_rule_at(54).token_type is Consonant
        &&& spec_rule_at(k).token_type is Consonant
        &&& written_form(spec_rule_at(54).token_type).len() == 1
        &&& written_form(spec_rule_at(k).token_type).len() == 1
        &&& written_form(spec_rule_at(k).token_type)[0] as u32 == written_form(
            spec_rule_at(54).token_type,
        )[0] as u32 + 1
    } by {
        let a = spec_rule_at(54).roman@;
        let b = spec_rule_at(k).roman@;
        assert(b.len() == a.len() + 1);
        assert(b[0] == a.push('h')[0]);
        assert(b[b.len() - 1] == 'h');
    }
    assert forall|k: int|
        0 <= k < RULE_COUNT && (#[trigger] spec_rule_at(k)).roman@ == spec_rule_at(55).roman@.push('h')
            && spec_rule_at(55).roman@ != "s"@ implies {
        &&& spec_rule_at(55).token_type is Consonant
        &&& spec_rule_at(k).token_type is Consonant
        &&& written_form(spec_rule_at(55).token_type).len() == 1
        &&& written_form(spec_rule_at(k).token_type).len() == 1
        &&& written_form(spec_rule_at(k).token_type)[0] as u32 == written_form(
            spec_rule_at(55).token_type,
        )[0] as u32 + 1
    } by {
        let a = spec_rule_at(55).roman@;
        let b = spec_rule_at(k).roman@;
        assert(b.len() == a.len() + 1);
        assert(b[0] == a.push('h')[0]);
        assert(b[b.len() - 1] == 'h');
    }
    assert forall|j: int, k: int|
        0 <= j < RULE_COUNT && 0 <= k < RULE_COUNT && (#[trigger] spec_rule_at(k)).roman@
            == (#[trigger] spec_rule_at(j)).roman@.push('h') && spec_rule_at(j).roman@ != "s"@
        implies {
        &&& spec_rule_at(j).token_type is Consonant
        &&& spec_rule_at(k).token_type is Consonant
        &&& written_form(spec_rule_at(j).token_type).len() == 1
        &&& written_form(spec_rule_at(k).token_type).len() == 1
        &&& written_form(spec_rule_at(k).token_type)[0] as u32 == written_form(
            spec_rule_at(j).token_type,
        )[0] as u32 + 1
    } by {
        assert(0 <= j < RULE_COUNT);
    }
}

/// Every consonant of the table writes a non-empty text that ends with a
/// Bengali consonant letter, so that a vowel after it takes its dependent
/// form.
pub proof fn lemma_consonant_letters()
    ensures
        forall|k: int|
            0 <= k < RULE_COUNT && (#[trigger] spec_rule_at(k)).token_type is Consonant ==> {
                &&& written_form(spec_rule_at(k).token_type).len() > 0
                &&& spec_is_consonant(written_form(spec_rule_at(k).token_type).last())
            },
{
    reveal_strlit("rRI");
    reveal_strlit("ঋ");
    reveal_strlit("ৃ");
    reveal_strlit("NGG");
    reveal_strlit("ঃ");
    reveal_strlit("nGC");
    reveal_strlit("ঁ");
    reveal_strlit("kh");
    reveal_strlit("খ");
    reveal_strlit("gh");
    reveal_strlit("ঘ");
    reveal_strlit("ch");
    reveal_strlit("ছ");
    reveal_strlit("jh");
    reveal_strlit("ঝ");
    reveal_strlit("Th");
    reveal_strlit("ঠ");
    reveal_strlit("Dh");
    reveal_strlit("ঢ");
    reveal_strlit("th");
    reveal_strlit("থ");
    reveal_strlit("dh");
    reveal_strlit("ধ");
    reveal_strlit("bh");
    reveal_strlit("ভ");
    reveal_strlit("sh");
    reveal_strlit("শ");
    reveal_strlit("Rh");
    reveal_strlit("\u{09DD}");
    reveal_strlit("ph");
    reveal_strlit("ফ");
    reveal_strlit("oi");
    reveal_strlit("ঐ");
    reveal_strlit("ৈ");
    reveal_strlit("ou");
    reveal_strlit("ঔ");
    reveal_strlit("ৌ");
    reveal_strlit("t`");
    reveal_strlit("ৎ");
    reveal_strlit("..");
    reveal_strlit(".");
    reveal_strlit("ng");
    reveal_strlit("ং");
    reveal_strlit("k");
    reveal_strlit("ক");
    reveal_strlit("g");
    reveal_strlit("গ");
    reveal_strlit("c");
    reveal_strlit("চ");
    reveal_strlit("j");
    reveal_strlit("জ");
    reveal_strlit("T");
    reveal_strlit("ট");
    reveal_strlit("D");
    reveal_strlit("ড");
    reveal_strlit("N");
    reveal_strlit("ণ");
    reveal_strlit("t");
    reveal_strlit("ত");
    reveal_strlit("d");
    reveal_strlit("দ");
    reveal_strlit("n");
    reveal_strlit("ন");
    reveal_strlit("p");
    reveal_strlit("প");
    reveal_strlit("f");
    reveal_strlit("b");
    reveal_strlit("ব");
    reveal_strlit("v");
    reveal_strlit("m");
    reveal_strlit("ম");
    reveal_strlit("z");
    reveal_strlit("য");
    reveal_strlit("r");
    reveal_strlit("র");
    reveal_strlit("l");
    reveal_strlit("ল");
    reveal_strlit("S");
    reveal_strlit("ষ");
    reveal_strlit("s");
    reveal_strlit("স");
    reveal_strlit("h");
    reveal_strlit("হ");
    reveal_strlit("R");
    reveal_strlit("\u{09DC}");
    reveal_strlit("y");
    reveal_strlit("\u{09DF}");
    reveal_strlit("x");
    reveal_strlit("ক্ষ");
    reveal_strlit("w");
    reveal_strlit("a");
    reveal_strlit("আ");
    reveal_strlit("া");
    reveal_strlit("i");
    reveal_strlit("ই");
    reveal_strlit("ি");
    reveal_strlit("I");
    reveal_strlit("ঈ");
    reveal_strlit("ী");
    reveal_strlit("u");
    reveal_strlit("উ");
    reveal_strlit("ু");
    reveal_strlit("U");
    reveal_strlit("ঊ");
    reveal_strlit("ূ");
    reveal_strlit("e");
    reveal_strlit("এ");
    reveal_strlit("ে");
    reveal_strlit("o");
    reveal_strlit("ও");
    reveal_strlit("ো");
    reveal_strlit("O");
    reveal_strlit("H");
    reveal_strlit("`");
    reveal_strlit("।");
    assert forall|k: int|
        0 <= k < RULE_COUNT && (#[trigger] spec_rule_at(k)).token_type is Consonant implies {
        &&& written_form(spec_rule_at(k).token_type).len() > 0
        &&& spec_is_consonant(written_form(spec_rule_at(k).token_type).last())
    } by {}
}

/// The Bengali consonant letters are U+0995..=U+09B9 and U+09DC, U+09DD,
/// U+09DF; the independent vowels (U+0985..=U+0994), the vowel signs
/// (U+09BE..=U+09CC), the hasant (U+09CD) and ASCII are not consonants.
pub proof fn lemma_consonant_code_points(c: char)
    ensures
        (0x0995 <= c as u32 <= 0x09B9 || c as u32 == 0x09DC || c as u32 == 0x09DD || c as u32
            == 0x09DF) ==> spec_is_consonant(c),
        (0x0985 <= c as u32 <= 0x0994 || 0x09BE <= c as u32 <= 0x09CD || c as u32 <= 0x7F)
            ==> !spec_is_consonant(c),
{
}

/// The Bengali consonant letters: U+0995..=U+09B9 and U+09DC, U+09DD, U+09DF.
pub open spec fn spec_is_consonant(c: char) -> bool {
    let u = c as u32;
    (0x0995 <= u && u <= 0x09B9) || u == 0x09AF || u == 0x09DC || u == 0x09DD || u == 0x09DF
}

/// Whether `c` is a Bengali consonant letter.
pub fn is_consonant(c: char) -> (r: bool)
    ensures
        r == spec_is_consonant(c),
{
    let u = c as u32;
    (0x0995 <= u && u <= 0x09B9) || u == 0x09AF || u == 0x09DC || u == 0x09DD || u == 0x09DF
}

} // verus!
