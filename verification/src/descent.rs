//! Why following the rules comes to an end.
//!
//! A word that a rule has made has a class, so only the rules that ask for a
//! class can follow. Each of them lowers the rank of the word: twice its
//! length, and one more while the word may be the auxiliary form. The weight
//! of the words that are still to be visited, which counts a word of rank
//! `r` as the base to the power `r`, therefore falls with every visit.

use crate::deinflect::{
    longest_suffix, rewrites, successors, successors_among, suffix_of, RuleView, WordView,
};
use crate::deinflection_rules::{
    lemma_rules_count, lemma_rules_sound, rule_sound, rules_for, MAX_SUFFIX_LENGTH, RULE_COUNT,
};
use crate::grammar::RuleType;
use vstd::arithmetic::power::{
    lemma_pow1, lemma_pow_adds, lemma_pow_increases, lemma_pow_positive, pow,
};
use vstd::prelude::*;

verus! {

/// The rank of a word: twice the number of its characters, and one more
/// while the word may be the auxiliary form.
pub open spec fn rank(w: WordView) -> nat {
    2 * w.word.len() + if w.types.contains(RuleType::Iru) {
        1nat
    } else {
        0nat
    }
}

/// Whether every word of the list has a class.
pub open spec fn all_typed(list: Seq<WordView>) -> bool {
    forall|j: int| 0 <= j < list.len() ==> (#[trigger] list[j]).types != Set::<RuleType>::empty()
}

/// Whether every word of the list has a rank below `r`.
pub open spec fn all_below(list: Seq<WordView>, r: nat) -> bool {
    forall|j: int| 0 <= j < list.len() ==> rank(#[trigger] list[j]) < r
}

/// No step makes more words of a word than this.
pub open spec fn max_successors() -> int {
    MAX_SUFFIX_LENGTH * RULE_COUNT
}

/// The base of the weight: one more than a step can make words.
pub open spec fn base() -> int {
    max_successors() + 1
}

proof fn lemma_rewrites(rules: Seq<RuleView>, w: WordView, suffix_len: int, n: int)
    requires
        1 <= suffix_len <= w.word.len(),
        0 <= n <= rules.len(),
        forall|j: int| 0 <= j < rules.len() ==> rule_sound(#[trigger] rules[j], suffix_len),
    ensures
        rewrites(rules, w, suffix_len, n).len() <= n,
        all_typed(rewrites(rules, w, suffix_len, n)),
        w.types != Set::<RuleType>::empty() ==> all_below(
            rewrites(rules, w, suffix_len, n),
            rank(w),
        ),
    decreases n,
{
    if n > 0 {
        lemma_rewrites(rules, w, suffix_len, n - 1);
        let rule = rules[n - 1];
        if rule.eligible(w.types) {
            let next = rule.rewrite(w, suffix_len);
            assert(rule_sound(rule, suffix_len));
            assert(next.word.len() == w.word.len() - suffix_len + rule.kana_out.len());
            if w.types != Set::<RuleType>::empty() {
                let t = choose|t: RuleType| w.types.contains(t) && rule.rules_in.contains(t);
                assert(rule.rules_in.contains(t));
                assert(rule.rules_in != Set::<RuleType>::empty());
                if rule.kana_out.len() == suffix_len {
                    assert(t == RuleType::Iru);
                }
                assert(rank(next) < rank(w));
            }
        }
    }
}

proof fn lemma_successors_among(w: WordView, k: int)
    requires
        0 <= k <= longest_suffix(w.word),
    ensures
        successors_among(w, k).len() <= k * RULE_COUNT,
        all_typed(successors_among(w, k)),
        w.types != Set::<RuleType>::empty() ==> all_below(successors_among(w, k), rank(w)),
    decreases k,
{
    if k > 0 {
        lemma_successors_among(w, k - 1);
        let suffix_len = longest_suffix(w.word) - (k - 1);
        let suffix = suffix_of(w.word, suffix_len);
        let rules = rules_for(suffix);
        assert(suffix.len() == suffix_len);
        lemma_rules_sound(suffix);
        lemma_rules_count(suffix);
        lemma_rewrites(rules, w, suffix_len, rules.len() as int);
        assert(k * RULE_COUNT == (k - 1) * RULE_COUNT + RULE_COUNT) by (nonlinear_arith);
    }
}

/// One step makes a bounded number of words of a word, each with a class,
/// and each of a lower rank where the word itself has a class.
pub proof fn lemma_successors(w: WordView)
    ensures
        successors(w).len() <= max_successors(),
        all_typed(successors(w)),
        w.types != Set::<RuleType>::empty() ==> all_below(successors(w), rank(w)),
{
    let k = longest_suffix(w.word);
    lemma_successors_among(w, k);
    assert(k * RULE_COUNT <= MAX_SUFFIX_LENGTH * RULE_COUNT) by (nonlinear_arith)
        requires
            0 <= k <= MAX_SUFFIX_LENGTH,
    ;
}

/// The weight of the words of `list` from position `from` on.
pub open spec fn weight(list: Seq<WordView>, from: int) -> int
    decreases list.len() - from,
{
    if from < 0 || from >= list.len() {
        0
    } else {
        pow(base(), rank(list[from])) + weight(list, from + 1)
    }
}

/// No list has a negative weight.
pub proof fn lemma_weight_not_negative(list: Seq<WordView>, from: int)
    ensures
        weight(list, from) >= 0,
    decreases list.len() - from,
{
    if 0 <= from < list.len() {
        lemma_pow_positive(base(), rank(list[from]));
        lemma_weight_not_negative(list, from + 1);
    }
}

proof fn lemma_weight_of_appended(a: Seq<WordView>, b: Seq<WordView>, from: int)
    requires
        0 <= from <= a.len(),
    ensures
        weight(a + b, from) == weight(a, from) + weight(b, 0),
    decreases a.len() - from,
{
    if from < a.len() {
        lemma_weight_of_appended(a, b, from + 1);
    } else {
        lemma_weight_of_shifted(a, b, 0);
    }
}

proof fn lemma_weight_of_shifted(a: Seq<WordView>, b: Seq<WordView>, from: int)
    requires
        0 <= from <= b.len(),
    ensures
        weight(a + b, a.len() + from) == weight(b, from),
    decreases b.len() - from,
{
    if from < b.len() {
        lemma_weight_of_shifted(a, b, from + 1);
    }
}

proof fn lemma_weight_below(list: Seq<WordView>, from: int, r: nat)
    requires
        0 <= from <= list.len(),
        all_below(list, (r + 1) as nat),
    ensures
        weight(list, from) <= (list.len() - from) * pow(base(), r),
    decreases list.len() - from,
{
    if from < list.len() {
        lemma_weight_below(list, from + 1, r);
        lemma_pow_increases(base() as nat, rank(list[from]), r);
        let p = pow(base(), r);
        assert((list.len() - from) * p == p + (list.len() - (from + 1)) * p) by (nonlinear_arith);
    } else {
        assert((list.len() - from) * pow(base(), r) == 0) by (nonlinear_arith)
            requires
                list.len() - from == 0,
        ;
    }
}

/// Visiting a word takes its weight off the list, and the words that it
/// adds weigh less.
pub proof fn lemma_visit_lowers_weight(list: Seq<WordView>, i: int, added: Seq<WordView>)
    requires
        0 <= i < list.len(),
        added.len() <= max_successors(),
        all_below(added, rank(list[i])),
    ensures
        0 <= weight(list + added, i + 1) < weight(list, i),
{
    let r = rank(list[i]);
    lemma_weight_not_negative(list + added, i + 1);
    lemma_weight_of_appended(list, added, i + 1);
    lemma_pow_positive(base(), r);
    if added.len() == 0 {
        assert(weight(added, 0) == 0);
    } else {
        assert(rank(added[0]) < r);
        let below = (r - 1) as nat;
        lemma_weight_below(added, 0, below);
        let p = pow(base(), below);
        lemma_pow_positive(base(), below);
        lemma_pow_adds(base(), 1, below);
        lemma_pow1(base());
        assert(pow(base(), r) == base() * p);
        assert(added.len() * p < base() * p) by (nonlinear_arith)
            requires
                added.len() < base(),
                p > 0,
        ;
    }
}

} // verus!
