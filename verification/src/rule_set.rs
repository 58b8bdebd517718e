//! Building a rule table from compact rule specifications: each
//! specification names one or several Roman sequences for one token; the
//! table lists one rule per Roman sequence, ordered longest first and then
//! by byte order, with no sequence twice.

use vstd::prelude::*;
use vstd::string::*;
use vstd::seq_lib::lemma_multiset_commutative;
use crate::rules::{Rule, TokenType};

verus! {

broadcast use vstd::seq_lib::group_to_multiset_ensures;

/// The Roman sequences that a rule specification stands for.
#[derive(Debug, Clone, Copy, PartialEq, Eq)]
pub enum RuleTrigger {
    One(&'static str),
    Many(&'static [&'static str]),
}

/// A rule specification: its Roman sequences and their token.
pub type RuleSpec = (RuleTrigger, TokenType);

/// A vowel token.
pub fn vowel(independent: &'static str, dependent: &'static str) -> (t: TokenType)
    ensures
        t == (TokenType::Vowel { independent, dependent }),
{
    TokenType::Vowel { independent, dependent }
}

/// A consonant token.
pub fn consonant(value: &'static str) -> (t: TokenType)
    ensures
        t == TokenType::Consonant(value),
{
    TokenType::Consonant(value)
}

/// A sign token.
pub fn sign(value: &'static str) -> (t: TokenType)
    ensures
        t == TokenType::Sign(value),
{
    TokenType::Sign(value)
}

/// A punctuation token.
pub fn punctuation(value: &'static str) -> (t: TokenType)
    ensures
        t == TokenType::Punctuation(value),
{
    TokenType::Punctuation(value)
}

/// The placeholder rule: an empty Roman sequence that forces a separation.
pub fn empty_rule() -> (r: Rule)
    ensures
        r == (Rule { roman: "", token_type: TokenType::ForceSeparate }),
{
    Rule { roman: "", token_type: TokenType::ForceSeparate }
}

/// How many Roman sequences a trigger names.
pub open spec fn trigger_count(t: RuleTrigger) -> nat {
    match t {
        RuleTrigger::One(_) => 1,
        RuleTrigger::Many(romans) => romans@.len(),
    }
}

/// How many rules the specifications stand for.
pub open spec fn spec_count_rules(specs: Seq<RuleSpec>) -> nat
    decreases specs.len(),
{
    if specs.len() == 0 {
        0
    } else {
        spec_count_rules(specs.drop_last()) + trigger_count(specs.last().0)
    }
}

/// Whether no specification names an empty list of Roman sequences.
pub open spec fn no_empty_many(specs: Seq<RuleSpec>) -> bool {
    forall|i: int|
        0 <= i < specs.len() ==> match #[trigger] specs[i].0 {
            RuleTrigger::One(_) => true,
            RuleTrigger::Many(romans) => romans@.len() > 0,
        }
}

/// Counts the rules that the specifications stand for.
pub fn count_rules(specs: &[RuleSpec]) -> (count: usize)
    requires
        no_empty_many(specs@),
        spec_count_rules(specs@) <= usize::MAX,
    ensures
        count == spec_count_rules(specs@),
{
    let mut count: usize = 0;
    let mut i: usize = 0;
    while i < specs.len()
        invariant
            i <= specs@.len(),
            count == spec_count_rules(specs@.take(i as int)),
            spec_count_rules(specs@) <= usize::MAX,
        decreases specs@.len() - i,
    {
        proof {
            assert(specs@.take(i + 1).drop_last() =~= specs@.take(i as int));
            lemma_count_prefix(specs@, i as int + 1);
        }
        count += match specs[i].0 {
            RuleTrigger::One(_) => 1,
            RuleTrigger::Many(romans) => romans.len(),
        };
        i += 1;
    }
    assert(specs@.take(i as int) =~= specs@);
    count
}

/// The count of a prefix is at most the count of the whole.
proof fn lemma_count_prefix(specs: Seq<RuleSpec>, k: int)
    requires
        0 <= k <= specs.len(),
    ensures
        spec_count_rules(specs.take(k)) <= spec_count_rules(specs),
    decreases specs.len(),
{
    if k < specs.len() {
        assert(specs.drop_last().take(k) =~= specs.take(k));
        lemma_count_prefix(specs.drop_last(), k);
    } else {
        assert(specs.take(k) =~= specs);
    }
}

/// Whether `roman` can stand in a rule: it is non-empty ASCII.
pub open spec fn valid_roman(roman: &str) -> bool {
    &&& roman.spec_bytes().len() > 0
    &&& forall|k: int| 0 <= k < roman.spec_bytes().len() ==> #[trigger] roman.spec_bytes()[k] <= 0x7f
}

/// Whether every Roman sequence of the specifications can stand in a rule.
pub open spec fn valid_romans(specs: Seq<RuleSpec>) -> bool {
    forall|i: int|
        0 <= i < specs.len() ==> match #[trigger] specs[i].0 {
            RuleTrigger::One(roman) => valid_roman(roman),
            RuleTrigger::Many(romans) => forall|k: int|
                0 <= k < romans@.len() ==> valid_roman(#[trigger] romans@[k]),
        }
}

/// The rules of one specification, one per Roman sequence, in order.
pub open spec fn expand_spec(spec: RuleSpec) -> Seq<Rule> {
    match spec.0 {
        RuleTrigger::One(roman) => seq![Rule { roman, token_type: spec.1 }],
        RuleTrigger::Many(romans) => romans@.map_values(
            |roman: &'static str| Rule { roman, token_type: spec.1 },
        ),
    }
}

/// The rules of the specifications, in order.
pub open spec fn spec_expand_rules(specs: Seq<RuleSpec>) -> Seq<Rule>
    decreases specs.len(),
{
    if specs.len() == 0 {
        Seq::empty()
    } else {
        spec_expand_rules(specs.drop_last()) + expand_spec(specs.last())
    }
}

/// As many rules come out as `spec_count_rules` counts.
pub proof fn lemma_expand_len(specs: Seq<RuleSpec>)
    ensures
        spec_expand_rules(specs).len() == spec_count_rules(specs),
    decreases specs.len(),
{
    if specs.len() > 0 {
        lemma_expand_len(specs.drop_last());
    }
}

/// Lists one rule per Roman sequence of the specifications, in order; `N` is
/// the number of rules.
pub fn expand_rules<const N: usize>(specs: &[RuleSpec]) -> (rules: Vec<Rule>)
    requires
        spec_count_rules(specs@) == N,
        valid_romans(specs@),
    ensures
        rules@ == spec_expand_rules(specs@),
        rules@.len() == N,
{
    let mut rules: Vec<Rule> = Vec::new();
    let mut spec_index: usize = 0;
    proof {
        lemma_expand_len(specs@);
    }
    while spec_index < specs.len()
        invariant
            spec_index <= specs@.len(),
            rules@ == spec_expand_rules(specs@.take(spec_index as int)),
            valid_romans(specs@),
        decreases specs@.len() - spec_index,
    {
        let ghost before = rules@;
        assert(specs@.take(spec_index + 1).drop_last() =~= specs@.take(spec_index as int));
        let spec = specs[spec_index];
        match spec.0 {
            RuleTrigger::One(roman) => {
                rules.push(expand_rule(roman, spec.1));
            },
            RuleTrigger::Many(romans) => {
                let mut roman_index: usize = 0;
                while roman_index < romans.len()
                    invariant
                        spec == specs@[spec_index as int],
                        spec.0 == RuleTrigger::Many(romans),
                        roman_index <= romans@.len(),
                        rules@ == before + expand_spec(spec).take(roman_index as int),
                        forall|k: int| 0 <= k < romans@.len() ==> valid_roman(#[trigger] romans@[k]),
                    decreases romans@.len() - roman_index,
                {
                    rules.push(expand_rule(romans[roman_index], spec.1));
                    roman_index += 1;
                    assert(rules@ =~= before + expand_spec(spec).take(roman_index as int));
                }
                assert(expand_spec(spec).take(roman_index as int) =~= expand_spec(spec));
            },
        }
        spec_index += 1;
        assert(rules@ =~= spec_expand_rules(specs@.take(spec_index as int)));
    }
    assert(specs@.take(spec_index as int) =~= specs@);
    rules
}

/// The rule for one Roman sequence, which must be non-empty ASCII.
fn expand_rule(roman: &'static str, token_type: TokenType) -> (r: Rule)
    requires
        valid_roman(roman),
    ensures
        r == (Rule { roman, token_type }),
{
    let ascii = roman.as_bytes().len() > 0 && is_ascii(roman);
    assert(ascii);
    Rule { roman, token_type }
}

/// The byte-wise comparison of `a` and `b`: -1 when `a` comes first, 1 when
/// `b` does, 0 when they are equal (a proper prefix comes first).
pub open spec fn spec_byte_order(a: Seq<u8>, b: Seq<u8>) -> i8
    decreases a.len(),
{
    if a.len() == 0 || b.len() == 0 {
        if a.len() < b.len() {
            -1i8
        } else if a.len() > b.len() {
            1i8
        } else {
            0i8
        }
    } else if a[0] < b[0] {
        -1i8
    } else if a[0] > b[0] {
        1i8
    } else {
        spec_byte_order(a.drop_first(), b.drop_first())
    }
}

/// The comparison is 0 exactly on equal byte strings, and swapping the
/// arguments negates it.
pub proof fn lemma_byte_order_eq_antisym(a: Seq<u8>, b: Seq<u8>)
    ensures
        (spec_byte_order(a, b) == 0) == (a == b),
        spec_byte_order(a, b) == -spec_byte_order(b, a),
    decreases a.len(),
{
    if a.len() > 0 && b.len() > 0 && a[0] == b[0] {
        lemma_byte_order_eq_antisym(a.drop_first(), b.drop_first());
        if a.drop_first() == b.drop_first() {
            assert(a =~= seq![a[0]] + a.drop_first());
            assert(b =~= seq![b[0]] + b.drop_first());
        }
    } else if a.len() == 0 && b.len() == 0 {
        assert(a =~= b);
    }
}

/// The comparison orders byte strings transitively.
pub proof fn lemma_byte_order_transitive(a: Seq<u8>, b: Seq<u8>, c: Seq<u8>)
    requires
        spec_byte_order(a, b) < 0,
        spec_byte_order(b, c) < 0,
    ensures
        spec_byte_order(a, c) < 0,
    decreases a.len(),
{
    if a.len() > 0 && b.len() > 0 && c.len() > 0 && a[0] == b[0] && b[0] == c[0] {
        lemma_byte_order_transitive(a.drop_first(), b.drop_first(), c.drop_first());
    }
}

/// Compares the byte strings `left` and `right`: -1 when `left` comes
/// first, 1 when `right` does, 0 when they are equal.
fn byte_order(left: &[u8], right: &[u8]) -> (r: i8)
    ensures
        r == spec_byte_order(left@, right@),
{
    let mut i: usize = 0;
    assert(left@.skip(0) =~= left@ && right@.skip(0) =~= right@);
    while i < left.len() && i < right.len()
        invariant
            i <= left@.len(),
            i <= right@.len(),
            spec_byte_order(left@, right@) == spec_byte_order(left@.skip(i as int), right@.skip(i as int)),
        decreases left@.len() - i,
    {
        if left[i] < right[i] {
            return -1;
        }
        if left[i] > right[i] {
            return 1;
        }
        assert(left@.skip(i as int).drop_first() =~= left@.skip(i + 1));
        assert(right@.skip(i as int).drop_first() =~= right@.skip(i + 1));
        i += 1;
    }
    if left.len() < right.len() {
        -1
    } else if left.len() > right.len() {
        1
    } else {
        0
    }
}

/// Compares `left` and `right` byte by byte.
fn str_cmp(left: &'static str, right: &'static str) -> (r: i8)
    ensures
        r == spec_byte_order(left.spec_bytes(), right.spec_bytes()),
{
    byte_order(left.as_bytes(), right.as_bytes())
}

/// Whether `left` and `right` hold the same bytes.
fn str_eq(left: &'static str, right: &'static str) -> (r: bool)
    ensures
        r == (left.spec_bytes() == right.spec_bytes()),
{
    proof {
        lemma_byte_order_eq_antisym(left.spec_bytes(), right.spec_bytes());
    }
    str_cmp(left, right) == 0
}

/// Whether every byte of `value` is ASCII.
fn is_ascii(value: &'static str) -> (r: bool)
    ensures
        r == forall|k: int| 0 <= k < value.spec_bytes().len() ==> #[trigger] value.spec_bytes()[k] <= 0x7f,
{
    let bytes = value.as_bytes();
    let mut i: usize = 0;
    while i < bytes.len()
        invariant
            bytes@ == value.spec_bytes(),
            i <= bytes@.len(),
            forall|k: int| 0 <= k < i ==> #[trigger] bytes@[k] <= 0x7f,
        decreases bytes@.len() - i,
    {
        if bytes[i] > 0x7f {
            return false;
        }
        i += 1;
    }
    true
}

/// Whether `left` comes before `right` in the table: a longer Roman sequence
/// first, and among sequences of one length, the one first in byte order.
pub open spec fn spec_rule_precedes(left: Rule, right: Rule) -> bool {
    let l = left.roman.spec_bytes();
    let r = right.roman.spec_bytes();
    if l.len() == r.len() {
        spec_byte_order(l, r) < 0
    } else {
        l.len() > r.len()
    }
}

/// Whether `left` comes before `right` in the table.
fn rule_precedes(left: Rule, right: Rule) -> (r: bool)
    ensures
        r == spec_rule_precedes(left, right),
{
    let left_len = left.roman.as_bytes().len();
    let right_len = right.roman.as_bytes().len();
    if left_len == right_len {
        str_cmp(left.roman, right.roman) < 0
    } else {
        left_len > right_len
    }
}

/// The table order is a strict order, total on rules whose Roman sequences
/// differ: no rule comes before itself, it is transitive, and of two rules
/// with different sequences exactly one comes first.
pub proof fn lemma_rule_precedes_order(a: Rule, b: Rule, c: Rule)
    ensures
        !spec_rule_precedes(a, a),
        spec_rule_precedes(a, b) && spec_rule_precedes(b, c) ==> spec_rule_precedes(a, c),
        spec_rule_precedes(a, b) ==> !spec_rule_precedes(b, a),
        a.roman.spec_bytes() != b.roman.spec_bytes() ==> spec_rule_precedes(a, b)
            || spec_rule_precedes(b, a),
{
    let x = a.roman.spec_bytes();
    let y = b.roman.spec_bytes();
    let z = c.roman.spec_bytes();
    lemma_byte_order_eq_antisym(x, x);
    lemma_byte_order_eq_antisym(x, y);
    if spec_rule_precedes(a, b) && spec_rule_precedes(b, c) && x.len() == y.len() && y.len()
        == z.len() {
        lemma_byte_order_transitive(x, y, z);
    }
}

/// Whether every rule of `s` comes before every later one.
pub open spec fn sorted_by_precedence(s: Seq<Rule>) -> bool {
    forall|a: int, b: int| 0 <= a < b < s.len() ==> spec_rule_precedes(s[a], s[b])
}

/// Whether no two rules of `s` have the same Roman sequence.
pub open spec fn distinct_romans(s: Seq<Rule>) -> bool {
    forall|a: int, b: int|
        #![trigger s[a], s[b]]
        0 <= a < s.len() && 0 <= b < s.len() && a != b ==> s[a].roman.spec_bytes()
            != s[b].roman.spec_bytes()
}

/// Whether no two neighbours of `s` have the same Roman sequence.
pub open spec fn adjacent_romans_differ(s: Seq<Rule>) -> bool {
    forall|i: int| 1 <= i < s.len() ==> #[trigger] s[i].roman.spec_bytes() != s[i - 1].roman.spec_bytes()
}

/// Checks that no two neighbouring rules have the same Roman sequence.
fn assert_unique_romans(rules: &[Rule])
    requires
        adjacent_romans_differ(rules@),
{
    let mut i: usize = 1;
    while i < rules.len()
        invariant
            1 <= i,
            adjacent_romans_differ(rules@),
        decreases rules@.len() - i,
    {
        let same = str_eq(rules[i - 1].roman, rules[i].roman);
        assert(!same);
        i += 1;
    }
}

/// An element of `p.take(i)`, whose multiset is that of `orig.take(i)`, is one
/// of the first `i` elements of `orig`.
proof fn lemma_from_prefix(p: Seq<Rule>, orig: Seq<Rule>, i: int, t: int)
    requires
        0 <= t < i <= p.len(),
        i <= orig.len(),
        p.take(i).to_multiset() == orig.take(i).to_multiset(),
    ensures
        exists|k: int| 0 <= k < i && orig[k] == p[t],
{
    assert(p.take(i)[t] == p[t]);
    assert(p.take(i).contains(p[t]));
    assert(orig.take(i).to_multiset().count(p[t]) > 0);
    assert(orig.take(i).contains(p[t]));
    let k = choose|k: int| 0 <= k < orig.take(i).len() && orig.take(i)[k] == p[t];
    assert(orig[k] == p[t]);
}

/// Sorts the rules into table order: longest Roman sequence first, and
/// among sequences of one length, byte order. No two rules may have the same
/// Roman sequence.
pub fn sort_rules(rules: Vec<Rule>) -> (sorted: Vec<Rule>)
    requires
        distinct_romans(rules@),
    ensures
        sorted@.to_multiset() == rules@.to_multiset(),
        sorted@.len() == rules@.len(),
        sorted_by_precedence(sorted@),
        adjacent_romans_differ(sorted@),
{
    let mut rules = rules;
    let ghost orig = rules@;
    let n = rules.len();
    if n == 0 {
        return rules;
    }
    assert(rules@.take(1) =~= orig.take(1));
    let mut i: usize = 1;
    while i < n
        invariant
            n == rules@.len(),
            n == orig.len(),
            1 <= i <= n,
            distinct_romans(orig),
            rules@.take(i as int).to_multiset() == orig.take(i as int).to_multiset(),
            rules@.skip(i as int) == orig.skip(i as int),
            sorted_by_precedence(rules@.take(i as int)),
        decreases n - i,
    {
        let ghost p = rules@;
        assert(p[i as int] == p.skip(i as int)[0]);
        let rule = rules[i];
        assert(rule == orig[i as int]);
        let mut j = i;
        while j > 0 && rule_precedes(rule, rules[j - 1])
            invariant
                0 <= j <= i < n,
                rules@.len() == n,
                p.len() == n,
                rule == p[i as int],
                forall|t: int| 0 <= t < j ==> rules@[t] == p[t],
                forall|t: int| j < t <= i ==> rules@[t] == p[t - 1],
                forall|t: int| i < t < n ==> rules@[t] == p[t],
                forall|t: int| j <= t < i ==> spec_rule_precedes(rule, #[trigger] p[t]),
            decreases j,
        {
            let prev = rules[j - 1];
            rules.set(j, prev);
            j -= 1;
        }
        rules.set(j, rule);
        proof {
            let q = rules@.take(i + 1);
            let pre = p.take(i as int);
            assert(q =~= p.take(j as int) + seq![rule] + p.subrange(j as int, i as int));
            assert(pre =~= p.take(j as int) + p.subrange(j as int, i as int));
            lemma_multiset_commutative(p.take(j as int) + seq![rule], p.subrange(j as int, i as int));
            lemma_multiset_commutative(p.take(j as int), seq![rule]);
            lemma_multiset_commutative(p.take(j as int), p.subrange(j as int, i as int));
            assert(q.to_multiset() =~= pre.to_multiset().insert(rule));
            assert(orig.take(i + 1) =~= orig.take(i as int).push(orig[i as int]));
            assert(rules@.skip(i + 1) =~= orig.skip(i + 1)) by {
                assert forall|t: int| 0 <= t < n - (i + 1) implies #[trigger] rules@.skip(i + 1)[t]
                    == orig.skip(i + 1)[t] by {
                    assert(p.skip(i as int)[t + 1] == orig.skip(i as int)[t + 1]);
                }
            }
            if j > 0 {
                lemma_from_prefix(p, orig, i as int, j - 1);
                let k = choose|k: int| 0 <= k < i && orig[k] == p[j - 1];
                assert(orig[k] == p[j - 1] && k != i);
                lemma_rule_precedes_order(p[j - 1], rule, rule);
            }
            assert forall|a: int, b: int| 0 <= a < b < q.len() implies spec_rule_precedes(
                q[a],
                q[b],
            ) by {
                assert(pre[a] == p[a]);
                if b < j {
                    assert(pre[b] == p[b]);
                } else if b == j {
                    if a < j - 1 {
                        assert(pre[j - 1] == p[j - 1]);
                        lemma_rule_precedes_order(p[a], p[j - 1], rule);
                    }
                } else if a < j {
                    assert(pre[b - 1] == p[b - 1]);
                } else if a == j {
                } else {
                    assert(pre[a - 1] == p[a - 1]);
                    assert(pre[b - 1] == p[b - 1]);
                }
            }
        }
        i += 1;
    }
    proof {
        assert(rules@.take(n as int) =~= rules@);
        assert(orig.take(n as int) =~= orig);
        assert forall|k: int| 1 <= k < rules@.len() implies #[trigger] rules@[k].roman.spec_bytes()
            != rules@[k - 1].roman.spec_bytes() by {
            lemma_rule_precedes_order(rules@[k - 1], rules@[k], rules@[k]);
            lemma_byte_order_eq_antisym(rules@[k - 1].roman.spec_bytes(), rules@[k].roman.spec_bytes());
        }
    }
    assert_unique_romans(rules.as_slice());
    rules
}

} // verus!
