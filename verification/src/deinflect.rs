//! The deinflection engine: matching suffixes, applying rules, and following
//! every chain of rules from a surface form.

use crate::closure::{
    closure_of, expansion, first_seen, is_closure, lemma_closure_bounded,
    lemma_closure_of_is_closure, lemma_step_typed, walk,
};
use crate::deinflection_rules::{get_deinflection_rules, rules_for, MAX_SUFFIX_LENGTH};
use crate::descent::{
    all_typed, lemma_successors, lemma_visit_lowers_weight, max_successors, weight,
};
use crate::grammar::{RuleType, RuleTypeSet};
use crate::seen::SeenWordsTracker;
use crate::text::concatenate;
use vstd::prelude::*;
use vstd::string::*;

verus! {

/// What a rule is, as plain values.
pub struct RuleView {
    pub kana_out: Seq<char>,
    pub rules_in: Set<RuleType>,
    pub rules_out: Set<RuleType>,
}

/// What a word in progress is, as plain values.
pub struct WordView {
    pub word: Seq<char>,
    pub types: Set<RuleType>,
}

impl RuleView {
    /// A rule can be applied to a word whose classes are unknown, and to one
    /// that may belong to a class the rule asks for.
    pub open spec fn eligible(self, types: Set<RuleType>) -> bool {
        types == Set::<RuleType>::empty() || exists|t: RuleType|
            types.contains(t) && self.rules_in.contains(t)
    }

    /// The word that the rule makes of `w` once a suffix of `suffix_len`
    /// characters has matched: the stem, then the rule's kana, with the
    /// classes that the rule gives.
    pub open spec fn rewrite(self, w: WordView, suffix_len: int) -> WordView {
        WordView {
            word: w.word.take(w.word.len() - suffix_len) + self.kana_out,
            types: self.rules_out,
        }
    }
}

/// The number of characters of the longest suffix that is tried on a word:
/// no more than the word has, and no more than the table's longest suffix.
pub open spec fn longest_suffix(word: Seq<char>) -> int {
    if word.len() < MAX_SUFFIX_LENGTH {
        word.len() as int
    } else {
        MAX_SUFFIX_LENGTH as int
    }
}

/// The last `suffix_len` characters of a word.
pub open spec fn suffix_of(word: Seq<char>, suffix_len: int) -> Seq<char> {
    word.subrange(word.len() - suffix_len, word.len() as int)
}

/// What the first `n` of `rules` make of `w`, a suffix of `suffix_len`
/// characters having matched: one word for each rule that is eligible, in
/// the order of the rules.
pub open spec fn rewrites(rules: Seq<RuleView>, w: WordView, suffix_len: int, n: int) -> Seq<
    WordView,
>
    decreases n,
{
    if n <= 0 {
        Seq::empty()
    } else if rules[n - 1].eligible(w.types) {
        rewrites(rules, w, suffix_len, n - 1).push(rules[n - 1].rewrite(w, suffix_len))
    } else {
        rewrites(rules, w, suffix_len, n - 1)
    }
}

/// What the rules of the suffix of `suffix_len` characters make of `w`.
pub open spec fn successors_at(w: WordView, suffix_len: int) -> Seq<WordView> {
    let rules = rules_for(suffix_of(w.word, suffix_len));
    rewrites(rules, w, suffix_len, rules.len() as int)
}

/// What the `k` longest suffixes that are tried on `w` give, the longest
/// suffix first.
pub open spec fn successors_among(w: WordView, k: int) -> Seq<WordView>
    decreases k,
{
    if k <= 0 {
        Seq::empty()
    } else {
        successors_among(w, k - 1) + successors_at(w, longest_suffix(w.word) - (k - 1))
    }
}

/// Every word that one rule makes of `w`: for each suffix of `w`, from the
/// longest that is tried down to one character, the rules of the suffix in
/// the order of the table.
pub open spec fn successors(w: WordView) -> Seq<WordView> {
    successors_among(w, longest_suffix(w.word))
}

proof fn lemma_rewrite_origin(
    rules: Seq<RuleView>,
    w: WordView,
    suffix_len: int,
    n: int,
    k: int,
) -> (j: int)
    requires
        0 <= n <= rules.len(),
        0 <= k < rewrites(rules, w, suffix_len, n).len(),
    ensures
        0 <= j < n,
        rules[j].eligible(w.types),
        rewrites(rules, w, suffix_len, n)[k] == rules[j].rewrite(w, suffix_len),
    decreases n,
{
    if k < rewrites(rules, w, suffix_len, n - 1).len() {
        lemma_rewrite_origin(rules, w, suffix_len, n - 1, k)
    } else {
        n - 1
    }
}

proof fn lemma_successor_origin_among(w: WordView, m: int, k: int) -> (origin: (int, int))
    requires
        0 <= m <= longest_suffix(w.word),
        0 <= k < successors_among(w, m).len(),
    ensures
        longest_suffix(w.word) - m < origin.0 <= longest_suffix(w.word),
        0 <= origin.1 < rules_for(suffix_of(w.word, origin.0)).len(),
        rules_for(suffix_of(w.word, origin.0))[origin.1].eligible(w.types),
        successors_among(w, m)[k] == rules_for(suffix_of(w.word, origin.0))[origin.1].rewrite(
            w,
            origin.0,
        ),
    decreases m,
{
    if k < successors_among(w, m - 1).len() {
        lemma_successor_origin_among(w, m - 1, k)
    } else {
        let suffix_len = longest_suffix(w.word) - (m - 1);
        let rules = rules_for(suffix_of(w.word, suffix_len));
        let j = lemma_rewrite_origin(
            rules,
            w,
            suffix_len,
            rules.len() as int,
            k - successors_among(w, m - 1).len(),
        );
        (suffix_len, j)
    }
}

/// Every successor of a word is what one eligible rule makes of it: the
/// rule stands in the table under a suffix of the word, and the suffix has
/// at least one character, no more than the word has, and no more than
/// `MAX_SUFFIX_LENGTH`. The lemma returns the length of the suffix and the
/// place of the rule among the rules of the suffix.
pub proof fn lemma_successor_origin(w: WordView, k: int) -> (origin: (int, int))
    requires
        0 <= k < successors(w).len(),
    ensures
        1 <= origin.0 <= MAX_SUFFIX_LENGTH,
        origin.0 <= w.word.len(),
        0 <= origin.1 < rules_for(suffix_of(w.word, origin.0)).len(),
        rules_for(suffix_of(w.word, origin.0))[origin.1].eligible(w.types),
        successors(w)[k] == rules_for(suffix_of(w.word, origin.0))[origin.1].rewrite(w, origin.0),
{
    lemma_successor_origin_among(w, longest_suffix(w.word), k)
}

/// One way of undoing a suffix: the kana that replace it, the classes one of
/// which the word must have, and the classes of the result.
#[derive(Debug, Clone, Copy)]
pub struct DeinflectionRule {
    pub kana_out: &'static str,
    pub rules_in: RuleTypeSet,
    pub rules_out: RuleTypeSet,
}

impl View for DeinflectionRule {
    type V = RuleView;

    open spec fn view(&self) -> RuleView {
        RuleView { kana_out: self.kana_out@, rules_in: self.rules_in@, rules_out: self.rules_out@ }
    }
}

impl DeepView for DeinflectionRule {
    type V = RuleView;

    open spec fn deep_view(&self) -> RuleView {
        self@
    }
}

/// A candidate form together with the classes it may belong to. No classes
/// means that nothing is known yet.
#[derive(Debug)]
pub struct DeinflectedWord {
    pub word: String,
    pub types: RuleTypeSet,
}

impl View for DeinflectedWord {
    type V = WordView;

    open spec fn view(&self) -> WordView {
        WordView { word: self.word@, types: self.types@ }
    }
}

impl DeepView for DeinflectedWord {
    type V = WordView;

    open spec fn deep_view(&self) -> WordView {
        self@
    }
}

impl DeinflectionRule {
    /// Whether the rule is eligible for the word.
    pub fn can_apply_to(&self, word: &DeinflectedWord) -> (r: bool)
        ensures
            r == self@.eligible(word@.types),
    {
        word.get_types().is_empty() || self.rules_in.intersects(&word.types)
    }

    /// Applies the rule to a word whose last `suffix_len` characters matched
    /// the rule's suffix. Gives nothing when the rule is not eligible, or
    /// when the word has fewer than `suffix_len` characters.
    pub fn apply(&self, deinflected_word: &DeinflectedWord, suffix_len: usize) -> (r: Option<
        String,
    >)
        ensures
            r is Some <==> self@.eligible(deinflected_word@.types) && suffix_len
                <= deinflected_word@.word.len(),
            r matches Some(s) ==> s@ == self@.rewrite(deinflected_word@, suffix_len as int).word,
    {
        if self.can_apply_to(deinflected_word) {
            let word = deinflected_word.get_word();
            let n = word.unicode_len();
            if suffix_len > n {
                return None;
            }
            let stem = word.substring_char(0, n - suffix_len);
            Some(concatenate(stem, self.kana_out))
        } else {
            None
        }
    }
}

impl DeinflectedWord {
    /// A word with the classes it may belong to.
    pub fn new(word: String, types: RuleTypeSet) -> (w: DeinflectedWord)
        ensures
            w.word == word,
            w.types == types,
    {
        DeinflectedWord { word, types }
    }

    /// The word itself.
    pub fn get_word(&self) -> (s: &str)
        ensures
            s@ == self@.word,
    {
        self.word.as_str()
    }

    /// The classes the word may belong to.
    pub fn get_types(&self) -> (t: RuleTypeSet)
        ensures
            t == self.types,
    {
        self.types
    }

    /// Whether one of the classes of the word is a class of verbs.
    pub fn could_be_verb(&self) -> (r: bool)
        ensures
            r == exists|t: RuleType| self@.types.contains(t) && t != RuleType::AdjI,
    {
        let r = self.types.has_verb();
        proof {
            if r {
                let t = choose|t: RuleType| self.types@.contains(t) && t != RuleType::AdjI;
                assert(self@.types.contains(t) && t != RuleType::AdjI);
            }
        }
        r
    }

    /// Whether the word may be an i-adjective.
    pub fn could_be_adjective(&self) -> (r: bool)
        ensures
            r == self@.types.contains(RuleType::AdjI),
    {
        self.types.contains(RuleType::AdjI)
    }
}

/// The suffixes of a word that are looked up, the longest first: those of
/// at most `MAX_SUFFIX_LENGTH` characters, down to one character.
pub fn capped_suffixes(word: &str) -> (suffixes: Vec<&str>)
    ensures
        suffixes.len() == longest_suffix(word@),
        forall|k: int|
            0 <= k < suffixes.len() ==> #[trigger] suffixes[k]@ == suffix_of(
                word@,
                suffixes.len() - k,
            ),
        forall|k: int|
            0 <= k < suffixes.len() ==> 1 <= (#[trigger] suffixes[k]@).len() <= MAX_SUFFIX_LENGTH
                && suffixes[k]@.len() <= word@.len(),
{
    let n = word.unicode_len();
    let count = if n < MAX_SUFFIX_LENGTH {
        n
    } else {
        MAX_SUFFIX_LENGTH
    };
    let mut suffixes: Vec<&str> = Vec::new();
    let mut k: usize = 0;
    while k < count
        invariant
            k <= count <= n,
            n == word@.len(),
            count == longest_suffix(word@),
            suffixes.len() == k,
            forall|i: int|
                0 <= i < k ==> #[trigger] suffixes[i]@ == suffix_of(word@, count - i),
        decreases count - k,
    {
        let suffix = word.substring_char(n - (count - k), n);
        suffixes.push(suffix);
        k += 1;
    }
    suffixes
}

/// Performs a single step of deinflection: every word that one rule makes
/// of the given word.
pub fn deinflect_one_iteration(deinflected_word: &DeinflectedWord) -> (results: Vec<
    DeinflectedWord,
>)
    ensures
        results.deep_view() == successors(deinflected_word@),
{
    let mut results: Vec<DeinflectedWord> = Vec::new();
    let suffixes = capped_suffixes(deinflected_word.get_word());
    let count = suffixes.len();
    let mut k: usize = 0;
    assert(results.deep_view() =~= successors_among(deinflected_word@, 0));
    while k < count
        invariant
            k <= count,
            count == suffixes.len(),
            count == longest_suffix(deinflected_word@.word),
            forall|i: int|
                0 <= i < count ==> #[trigger] suffixes[i]@ == suffix_of(
                    deinflected_word@.word,
                    count - i,
                ),
            results.deep_view() == successors_among(deinflected_word@, k as int),
        decreases count - k,
    {
        let suffix_len = count - k;
        let ghost before = results.deep_view();
        let ghost rules_view = rules_for(suffix_of(deinflected_word@.word, suffix_len as int));
        assert(suffixes[k as int]@ == suffix_of(deinflected_word@.word, suffix_len as int));
        match get_deinflection_rules(suffixes[k]) {
            Some(rules) => {
                let mut j: usize = 0;
                assert(results.deep_view() =~= before + rewrites(
                    rules_view,
                    deinflected_word@,
                    suffix_len as int,
                    0,
                ));
                while j < rules.len()
                    invariant
                        j <= rules.len(),
                        suffix_len <= deinflected_word@.word.len(),
                        rules.deep_view() == rules_view,
                        results.deep_view() == before + rewrites(
                            rules_view,
                            deinflected_word@,
                            suffix_len as int,
                            j as int,
                        ),
                    decreases rules.len() - j,
                {
                    let rule = rules[j];
                    assert(rule@ == rules_view[j as int]);
                    match rule.apply(deinflected_word, suffix_len) {
                        Some(word) => {
                            let next = DeinflectedWord::new(word, rule.rules_out);
                            assert(next@ == rule@.rewrite(deinflected_word@, suffix_len as int));
                            let ghost sofar = results.deep_view();
                            results.push(next);
                            assert(results.deep_view() =~= sofar.push(next@));
                            assert(results.deep_view() =~= before + rewrites(
                                rules_view,
                                deinflected_word@,
                                suffix_len as int,
                                j + 1,
                            ));
                        },
                        None => {},
                    }
                    j += 1;
                }
            },
            None => {
                assert(results.deep_view() =~= before + rewrites(
                    rules_view,
                    deinflected_word@,
                    suffix_len as int,
                    rules_view.len() as int,
                ));
            },
        }
        k += 1;
    }
    results
}

/// The word that deinflection starts from: the surface form, of which
/// nothing is known yet.
pub open spec fn surface(word: Seq<char>) -> WordView {
    WordView { word, types: Set::empty() }
}

/// Returns the possible deinflections of the given word: every word that a
/// chain of rules makes of it, in the order in which the chains are
/// followed. The word itself is not among them unless a rule gives it back.
/// A word that several chains make stands in the list once for each of
/// them, and is followed further from its first place only.
///
/// The suffixes of the table are written in hiragana: a word that may hold
/// katakana is to be passed through `kata_to_hira` first.
///
/// # Examples
/// ```
/// use jp_deinflector::deinflect;
/// let deinflections = deinflect("食べさせられなかった");
/// assert!(deinflections.iter().map(|s| s.get_word()).any(|w| w == "食べる"));
/// ```
pub fn deinflect(word: &str) -> (deinflections: Vec<DeinflectedWord>)
    ensures
        deinflections.deep_view() == closure_of(surface(word@)),
        is_closure(surface(word@), deinflections.deep_view()),
        deinflections.len() <= max_successors() * (1 + deinflections.deep_view().to_set().len()),
{
    let initial = DeinflectedWord::new(word.to_owned(), RuleTypeSet::empty());
    let mut deinflections = deinflect_one_iteration(&initial);
    let mut tracker = SeenWordsTracker::new();
    let mut i: usize = 0;
    proof {
        lemma_successors(initial@);
    }
    while i < deinflections.len()
        invariant
            i <= deinflections.len(),
            all_typed(deinflections.deep_view()),
            walk(deinflections.deep_view(), i as int) == closure_of(surface(word@)),
            forall|w: WordView|
                tracker@.contains(w) <==> exists|j: int|
                    0 <= j < i && deinflections.deep_view()[j] == w,
        decreases weight(deinflections.deep_view(), i as int),
    {
        let ghost list = deinflections.deep_view();
        let ghost seen_before = tracker@;
        let fresh = tracker.check_is_new(&deinflections[i]);
        assert(fresh == first_seen(list, i as int)) by {
            if !first_seen(list, i as int) {
                let j = choose|j: int| 0 <= j < i && list[j] == list[i as int];
                assert(seen_before.contains(list[i as int]));
            }
        }
        proof {
            lemma_step_typed(list, i as int);
            lemma_successors(list[i as int]);
            lemma_visit_lowers_weight(list, i as int, expansion(list, i as int));
        }
        if fresh {
            let mut found = deinflect_one_iteration(&deinflections[i]);
            let ghost added = found.deep_view();
            deinflections.append(&mut found);
            assert(deinflections.deep_view() =~= list + added);
        } else {
            assert(list + Seq::<WordView>::empty() =~= list);
        }
        proof {
            let grown = deinflections.deep_view();
            assert(grown == list + expansion(list, i as int));
            assert forall|w: WordView|
                tracker@.contains(w) <==> exists|j: int| 0 <= j < i + 1 && grown[j] == w by {
                if tracker@.contains(w) {
                    if w == list[i as int] {
                        assert(grown[i as int] == w);
                    } else {
                        let j = choose|j: int| 0 <= j < i && list[j] == w;
                        assert(0 <= j < i + 1 && grown[j] == w);
                    }
                }
                if exists|j: int| 0 <= j < i + 1 && grown[j] == w {
                    let j = choose|j: int| 0 <= j < i + 1 && grown[j] == w;
                    assert(0 <= j < i + 1 && list[j] == w);
                }
            }
        }
        i += 1;
    }
    proof {
        lemma_closure_of_is_closure(surface(word@));
        lemma_closure_bounded(surface(word@), deinflections.deep_view());
    }
    deinflections
}

} // verus!
