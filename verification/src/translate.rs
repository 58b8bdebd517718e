//! The transliteration of a Romanized word into Bengali Unicode.
//!
//! The input is read left to right. At each position the first rule of the
//! table whose Roman sequence starts there is applied (the table lists the
//! longest sequences first); a character that starts no rule is copied as it
//! is. Consonants that follow each other are joined by a hasant into a
//! conjunct, and a vowel right after a consonant is written as its dependent
//! sign (kar). A word listed among the whole-word overrides is written as
//! listed.

use vstd::prelude::*;
use vstd::string::*;
use crate::rules::{
    lemma_consonant_letters, lemma_rule_table, written_form, rule_at, spec_is_consonant, spec_rule_at, spec_word_overrides,
    word_overrides, is_consonant, Rule, TokenType, RULE_COUNT,
};
use crate::text::{char_vec, push_char};

verus! {

/// The hasant (virama), which joins two consonants into a conjunct.
pub const HASANT: char = '\u{09CD}';

/// The letter ya, which follows a hasant in the ja-phala.
pub const YA: char = '\u{09AF}';

/// The letter yya, written for `y` when no consonant precedes it.
pub const YYA: char = '\u{09DF}';

/// Whether the Roman sequence `roman` is non-empty and occurs in `chars` at
/// position `i`.
pub open spec fn matches_at(chars: Seq<char>, i: int, roman: Seq<char>) -> bool {
    &&& roman.len() > 0
    &&& 0 <= i
    &&& i + roman.len() <= chars.len()
    &&& chars.subrange(i, i + roman.len()) == roman
}

/// The first rule at or after position `k` of the table that matches at `i`.
pub open spec fn first_match_from(chars: Seq<char>, i: int, k: int) -> Option<int>
    decreases RULE_COUNT - k,
{
    if k < 0 || k >= RULE_COUNT {
        None
    } else if matches_at(chars, i, spec_rule_at(k).roman@) {
        Some(k)
    } else {
        first_match_from(chars, i, k + 1)
    }
}

/// The first rule of the table that matches at position `i`.
pub open spec fn first_match(chars: Seq<char>, i: int) -> Option<int> {
    first_match_from(chars, i, 0)
}

/// `first_match_from` finds the first matching rule at or after `k`.
pub proof fn lemma_first_match_from(chars: Seq<char>, i: int, k: int)
    requires
        0 <= k,
    ensures
        match first_match_from(chars, i, k) {
            Some(j) => {
                &&& k <= j < RULE_COUNT
                &&& matches_at(chars, i, spec_rule_at(j).roman@)
                &&& forall|m: int| k <= m < j ==> !matches_at(chars, i, #[trigger] spec_rule_at(m).roman@)
            },
            None => forall|m: int|
                k <= m < RULE_COUNT ==> !matches_at(chars, i, #[trigger] spec_rule_at(m).roman@),
        },
    decreases RULE_COUNT - k,
{
    if k < RULE_COUNT && !matches_at(chars, i, spec_rule_at(k).roman@) {
        lemma_first_match_from(chars, i, k + 1);
    }
}

/// The rule that the transliteration applies at a position is a longest one
/// among the rules whose Roman sequence occurs there.
pub proof fn lemma_first_match_is_longest(chars: Seq<char>, i: int, m: int)
    requires
        0 <= m < RULE_COUNT,
        matches_at(chars, i, spec_rule_at(m).roman@),
    ensures
        first_match(chars, i) is Some,
        spec_rule_at(first_match(chars, i)->0).roman@.len() >= spec_rule_at(m).roman@.len(),
{
    lemma_first_match_from(chars, i, 0);
    lemma_rule_table();
}

/// Whether the next vowel is written as a dependent sign: the previous token
/// was a consonant and the output ends with a consonant letter.
pub open spec fn follows_consonant(out: Seq<char>, linked: bool) -> bool {
    linked && out.len() > 0 && spec_is_consonant(out.last())
}

/// What applying `rule` writes after `out`, and whether the token it read is
/// a consonant (`linked` says whether the previous token was one).
pub open spec fn emit(rule: Rule, out: Seq<char>, linked: bool) -> (Seq<char>, bool) {
    match rule.token_type {
        TokenType::Vowel { independent, dependent } => (
            if follows_consonant(out, linked) {
                out + dependent@
            } else {
                out + independent@
            },
            false,
        ),
        TokenType::Consonant(val) => if rule.roman@ == seq!['y'] {
            (
                if follows_consonant(out, linked) {
                    out.push(HASANT).push(YA)
                } else {
                    out.push(YYA)
                },
                true,
            )
        } else {
            (
                if linked {
                    out.push(HASANT) + val@
                } else {
                    out + val@
                },
                true,
            )
        },
        TokenType::Sign(val) => (out + val@, false),
        TokenType::ForceSeparate => (out, false),
        TokenType::Punctuation(val) => (out + val@, false),
    }
}

/// The output of transliterating `chars` from position `i` on, after `out`
/// has been written and with `linked` telling whether the previous token was
/// a consonant.
pub open spec fn transliterate_from(chars: Seq<char>, i: int, out: Seq<char>, linked: bool) -> Seq<
    char,
>
    decreases chars.len() - i,
{
    if i < 0 || i >= chars.len() {
        out
    } else {
        match first_match(chars, i) {
            Some(k) => {
                proof {
                    lemma_first_match_from(chars, i, 0);
                }
                let rule = spec_rule_at(k);
                let (next, now_linked) = emit(rule, out, linked);
                transliterate_from(chars, i + rule.roman@.len(), next, now_linked)
            },
            None => transliterate_from(chars, i + 1, out.push(chars[i]), false),
        }
    }
}

/// From position `i` on, characters at which no rule matches are copied as
/// they are.
proof fn lemma_unmatched_copied(chars: Seq<char>, i: int, out: Seq<char>, linked: bool)
    requires
        0 <= i <= chars.len(),
        forall|t: int| i <= t < chars.len() ==> #[trigger] first_match(chars, t) is None,
    ensures
        transliterate_from(chars, i, out, linked) == out + chars.skip(i),
    decreases chars.len() - i,
{
    if i < chars.len() {
        assert(first_match(chars, i) is None);
        lemma_unmatched_copied(chars, i + 1, out.push(chars[i]), false);
        assert(out.push(chars[i]) + chars.skip(i + 1) =~= out + chars.skip(i));
    } else {
        assert(out + chars.skip(i) =~= out);
    }
}

/// A word without an override, at no position of which a rule matches
/// (digits, spaces, and other characters the rules do not read), is kept as
/// it is.
pub proof fn lemma_unmatched_word_kept(input: Seq<char>)
    requires
        override_from(input, 0) is None,
        forall|t: int| 0 <= t < input.len() ==> #[trigger] first_match(input, t) is None,
    ensures
        spec_translate(input) == input,
{
    lemma_unmatched_copied(input, 0, Seq::empty(), false);
    assert(Seq::<char>::empty() + input.skip(0) =~= input);
}

/// The word made of the Roman sequences of rules `j` and `m`, read as those
/// two rules: the first rule matching at its start is `j`, and the first
/// matching right after it is `m`.
pub open spec fn reads_as_two(word: Seq<char>, j: int, m: int) -> bool {
    &&& 0 <= j < RULE_COUNT
    &&& 0 <= m < RULE_COUNT
    &&& word == spec_rule_at(j).roman@ + spec_rule_at(m).roman@
    &&& first_match(word, 0) == Some(j)
    &&& first_match(word, spec_rule_at(j).roman@.len() as int) == Some(m)
}

/// The word made of the Roman sequences of rules `j`, `v` and `m`, read as
/// those three rules in turn.
pub open spec fn reads_as_three(word: Seq<char>, j: int, v: int, m: int) -> bool {
    &&& 0 <= j < RULE_COUNT
    &&& 0 <= v < RULE_COUNT
    &&& 0 <= m < RULE_COUNT
    &&& word == spec_rule_at(j).roman@ + spec_rule_at(v).roman@ + spec_rule_at(m).roman@
    &&& first_match(word, 0) == Some(j)
    &&& first_match(word, spec_rule_at(j).roman@.len() as int) == Some(v)
    &&& first_match(word, (spec_rule_at(j).roman@.len() + spec_rule_at(v).roman@.len()) as int)
        == Some(m)
}

/// Whether rule `k` is a consonant other than `y`.
pub open spec fn plain_consonant(k: int) -> bool {
    &&& spec_rule_at(k).token_type is Consonant
    &&& spec_rule_at(k).roman@ != seq!['y']
}

/// A vowel right after a consonant is written as its dependent sign (kar):
/// a word read as a consonant key other than `y` and then a vowel key
/// translates to the consonant's letter followed by the vowel's sign.
pub proof fn lemma_vowel_after_consonant_is_kar(word: Seq<char>, j: int, v: int)
    requires
        reads_as_two(word, j, v),
        override_from(word, 0) is None,
        plain_consonant(j),
        spec_rule_at(v).token_type is Vowel,
    ensures
        spec_translate(word) == written_form(spec_rule_at(j).token_type) + (
        spec_rule_at(v).token_type->dependent)@,
{
    lemma_rule_table();
    lemma_consonant_letters();
    let cj = written_form(spec_rule_at(j).token_type);
    let nj = spec_rule_at(j).roman@.len() as int;
    let nv = spec_rule_at(v).roman@.len() as int;
    assert(spec_rule_at(j).roman@.len() > 0 && spec_rule_at(v).roman@.len() > 0);
    assert(transliterate_from(word, 0, Seq::empty(), false) == transliterate_from(
        word,
        nj,
        Seq::<char>::empty() + cj,
        true,
    ));
    assert(Seq::<char>::empty() + cj =~= cj);
    assert(follows_consonant(cj, true));
    assert(transliterate_from(word, nj, cj, true) == transliterate_from(
        word,
        nj + nv,
        cj + (spec_rule_at(v).token_type->dependent)@,
        false,
    ));
}

/// Two consonants in a row are joined by a hasant (U+09CD) into a conjunct:
/// a word read as two consonant keys other than `y` translates to the first
/// letter, the hasant, and the second letter.
pub proof fn lemma_consonants_join(word: Seq<char>, j: int, m: int)
    requires
        reads_as_two(word, j, m),
        override_from(word, 0) is None,
        plain_consonant(j),
        plain_consonant(m),
    ensures
        spec_translate(word) == written_form(spec_rule_at(j).token_type).push('\u{09CD}')
            + written_form(spec_rule_at(m).token_type),
{
    lemma_rule_table();
    let cj = written_form(spec_rule_at(j).token_type);
    let cm = written_form(spec_rule_at(m).token_type);
    let nj = spec_rule_at(j).roman@.len() as int;
    let nm = spec_rule_at(m).roman@.len() as int;
    assert(spec_rule_at(j).roman@.len() > 0 && spec_rule_at(m).roman@.len() > 0);
    assert(Seq::<char>::empty() + cj =~= cj);
    assert(transliterate_from(word, 0, Seq::empty(), false) == transliterate_from(
        word,
        nj,
        cj,
        true,
    ));
    assert(transliterate_from(word, nj, cj, true) == transliterate_from(
        word,
        nj + nm,
        cj.push(HASANT) + cm,
        true,
    ));
}

/// A vowel ends the link between consonants: in a word read as a consonant
/// key, a vowel key and a consonant key (neither consonant `y`), the second
/// consonant is not joined to the first; the translation is the first
/// letter, the vowel's sign, and the second letter, with no hasant.
pub proof fn lemma_vowel_ends_consonant_link(word: Seq<char>, j: int, v: int, m: int)
    requires
        reads_as_three(word, j, v, m),
        override_from(word, 0) is None,
        plain_consonant(j),
        spec_rule_at(v).token_type is Vowel,
        plain_consonant(m),
    ensures
        spec_translate(word) == written_form(spec_rule_at(j).token_type) + (
        spec_rule_at(v).token_type->dependent)@ + written_form(spec_rule_at(m).token_type),
{
    lemma_rule_table();
    lemma_consonant_letters();
    let cj = written_form(spec_rule_at(j).token_type);
    let cm = written_form(spec_rule_at(m).token_type);
    let dv = (spec_rule_at(v).token_type->dependent)@;
    let nj = spec_rule_at(j).roman@.len() as int;
    let nv = spec_rule_at(v).roman@.len() as int;
    let nm = spec_rule_at(m).roman@.len() as int;
    assert(nj > 0 && nv > 0 && nm > 0);
    assert(Seq::<char>::empty() + cj =~= cj);
    assert(transliterate_from(word, 0, Seq::empty(), false) == transliterate_from(
        word,
        nj,
        cj,
        true,
    ));
    assert(follows_consonant(cj, true));
    assert(transliterate_from(word, nj, cj, true) == transliterate_from(
        word,
        nj + nv,
        cj + dv,
        false,
    ));
    assert(transliterate_from(word, nj + nv, cj + dv, false) == transliterate_from(
        word,
        nj + nv + nm,
        cj + dv + cm,
        true,
    ));
}

/// The override for the whole word `chars`, searching the list from `k` on.
pub open spec fn override_from(chars: Seq<char>, k: int) -> Option<Seq<char>>
    decreases spec_word_overrides().len() - k,
{
    if k < 0 || k >= spec_word_overrides().len() {
        None
    } else if spec_word_overrides()[k].0@ == chars {
        Some(spec_word_overrides()[k].1@)
    } else {
        override_from(chars, k + 1)
    }
}

/// The Bengali spelling of the Romanized word `input`: its override, where
/// the word has one, else the rule-by-rule transliteration.
pub open spec fn spec_translate(input: Seq<char>) -> Seq<char> {
    match override_from(input, 0) {
        Some(word) => word,
        None => transliterate_from(input, 0, Seq::empty(), false),
    }
}

/// The last character of `s`, if any.
pub open spec fn last_char(s: Seq<char>) -> Option<char> {
    if s.len() > 0 {
        Some(s.last())
    } else {
        None
    }
}

/// Whether the non-empty Roman sequence `roman` occurs in `chars` at `i`.
fn roman_matches_at(chars: &Vec<char>, i: usize, roman: &str) -> (r: bool)
    requires
        i <= chars@.len(),
        roman@.len() > 0,
    ensures
        r == matches_at(chars@, i as int, roman@),
{
    let n = roman.unicode_len();
    if chars.len() - i < n {
        return false;
    }
    let mut m: usize = 0;
    while m < n
        invariant
            n == roman@.len(),
            i + n <= chars.len(),
            m <= n,
            forall|t: int| 0 <= t < m ==> chars@[i + t] == roman@[t],
        decreases n - m,
    {
        if chars[i + m] != roman.get_char(m) {
            assert(chars@.subrange(i as int, i + n)[m as int] != roman@[m as int]);
            return false;
        }
        m += 1;
    }
    assert(chars@.subrange(i as int, i + n) =~= roman@);
    true
}

/// Whether the word `chars` is exactly `word`.
fn same_word(chars: &Vec<char>, word: &str) -> (r: bool)
    ensures
        r == (word@ == chars@),
{
    let n = word.unicode_len();
    if n != chars.len() {
        return false;
    }
    let mut m: usize = 0;
    while m < n
        invariant
            n == word@.len(),
            n == chars@.len(),
            m <= n,
            forall|t: int| 0 <= t < m ==> chars@[t] == word@[t],
        decreases n - m,
    {
        if chars[m] != word.get_char(m) {
            return false;
        }
        m += 1;
    }
    assert(word@ =~= chars@);
    true
}

/// The override for the whole word `chars`, if it has one.
fn find_override(chars: &Vec<char>) -> (r: Option<&'static str>)
    ensures
        match r {
            Some(word) => override_from(chars@, 0) == Some(word@),
            None => override_from(chars@, 0) is None,
        },
{
    let table = word_overrides();
    let mut k: usize = 0;
    while k < table.len()
        invariant
            table@ == spec_word_overrides(),
            k <= table@.len(),
            override_from(chars@, 0) == override_from(chars@, k as int),
        decreases table@.len() - k,
    {
        if same_word(chars, table[k].0) {
            return Some(table[k].1);
        }
        k += 1;
    }
    None
}

/// The first rule of the table that matches at position `i`.
fn find_rule(chars: &Vec<char>, i: usize) -> (r: Option<usize>)
    requires
        i < chars@.len(),
    ensures
        match r {
            Some(k) => first_match(chars@, i as int) == Some(k as int) && k < RULE_COUNT,
            None => first_match(chars@, i as int) is None,
        },
{
    proof {
        lemma_rule_table();
    }
    let mut k: usize = 0;
    while k < RULE_COUNT
        invariant
            i < chars@.len(),
            k <= RULE_COUNT,
            first_match(chars@, i as int) == first_match_from(chars@, i as int, k as int),
            forall|m: int| 0 <= m < RULE_COUNT ==> #[trigger] spec_rule_at(m).roman@.len() > 0,
        decreases RULE_COUNT - k,
    {
        let rule = rule_at(k);
        if roman_matches_at(chars, i, rule.roman) {
            return Some(k);
        }
        k += 1;
    }
    None
}

/// Appends `s` to `out`, keeping `last` the last character of `out`.
fn append_str(out: &mut String, last: &mut Option<char>, s: &str)
    requires
        *old(last) == last_char(old(out)@),
    ensures
        final(out)@ == old(out)@ + s@,
        *final(last) == last_char(final(out)@),
{
    let n = s.unicode_len();
    if n > 0 {
        *last = Some(s.get_char(n - 1));
    }
    out.append(s);
    assert(n > 0 ==> (old(out)@ + s@).last() == s@.last());
    assert(n == 0 ==> old(out)@ + s@ =~= old(out)@);
}

/// Appends `c` to `out`, keeping `last` the last character of `out`.
fn append_char(out: &mut String, last: &mut Option<char>, c: char)
    ensures
        final(out)@ == old(out)@.push(c),
        *final(last) == last_char(final(out)@),
{
    push_char(out, c);
    *last = Some(c);
}

/// Whether the next vowel is written as a dependent sign.
fn after_consonant(last: Option<char>, linked: bool) -> (r: bool)
    ensures
        forall|out: Seq<char>| last == last_char(out) ==> r == follows_consonant(out, linked),
{
    linked && match last {
        Some(c) => is_consonant(c),
        None => false,
    }
}

/// Writes what `rule` stands for after `out` and returns whether the token
/// is a consonant.
fn apply_rule(out: &mut String, last: &mut Option<char>, rule: Rule, linked: bool) -> (now_linked:
    bool)
    requires
        *old(last) == last_char(old(out)@),
    ensures
        (final(out)@, now_linked) == emit(rule, old(out)@, linked),
        *final(last) == last_char(final(out)@),
{
    let after = after_consonant(*last, linked);
    match rule.token_type {
        TokenType::Vowel { independent, dependent } => {
            if after {
                append_str(out, last, dependent);
            } else {
                append_str(out, last, independent);
            }
            false
        },
        TokenType::Consonant(val) => {
            let is_y = rule.roman.unicode_len() == 1 && rule.roman.get_char(0) == 'y';
            proof {
                if rule.roman@.len() == 1 && rule.roman@[0] == 'y' {
                    assert(rule.roman@ =~= seq!['y']);
                }
            }
            if is_y {
                if after {
                    append_char(out, last, HASANT);
                    append_char(out, last, YA);
                } else {
                    append_char(out, last, YYA);
                }
            } else {
                if linked {
                    append_char(out, last, HASANT);
                }
                append_str(out, last, val);
            }
            true
        },
        TokenType::Sign(val) => {
            append_str(out, last, val);
            false
        },
        TokenType::ForceSeparate => false,
        TokenType::Punctuation(val) => {
            append_str(out, last, val);
            false
        },
    }
}

/// Transliterates the Romanized word `input` into Bengali Unicode.
pub fn translate(input: &str) -> (out: String)
    ensures
        out@ == spec_translate(input@),
{
    let chars = char_vec(input);
    if let Some(word) = find_override(&chars) {
        return String::from_str(word);
    }
    proof {
        lemma_rule_table();
    }
    let mut output = String::new();
    let mut last: Option<char> = None;
    let len = chars.len();
    let mut i: usize = 0;
    let mut linked = false;
    while i < len
        invariant
            len == chars@.len(),
            i <= len,
            last == last_char(output@),
            override_from(chars@, 0) is None,
            spec_translate(input@) == transliterate_from(chars@, i as int, output@, linked),
            chars@ == input@,
            forall|m: int| 0 <= m < RULE_COUNT ==> #[trigger] spec_rule_at(m).roman@.len() > 0,
        decreases len - i,
    {
        match find_rule(&chars, i) {
            Some(k) => {
                proof {
                    lemma_first_match_from(chars@, i as int, 0);
                }
                let rule = rule_at(k);
                let n = rule.roman.unicode_len();
                linked = apply_rule(&mut output, &mut last, rule, linked);
                i = i + n;
            },
            None => {
                append_char(&mut output, &mut last, chars[i]);
                i += 1;
                linked = false;
            },
        }
    }
    output
}

} // verus!
