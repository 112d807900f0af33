//! What the engine returns for a surface form, stated over plain values.
//!
//! The result is a list that grows while it is walked. It starts as the
//! successors of the surface form. The walk visits the positions of the list
//! in turn. Where a position holds a word that no earlier position holds,
//! the successors of that word are added to the end of the list; where the
//! word has been seen before, nothing is added. A word is thus expanded
//! once, where it is first seen, and every word that an expansion gives is
//! kept, whether or not the list holds it already.

use crate::deinflect::{successors, WordView};
use crate::descent::{
    all_typed, lemma_successors, lemma_visit_lowers_weight, max_successors, rank, weight,
};
use crate::grammar::RuleType;
use vstd::prelude::*;
use vstd::seq_lib::seq_to_set_is_finite;

verus! {

/// Whether no position before `i` holds the word at position `i`.
pub open spec fn first_seen(list: Seq<WordView>, i: int) -> bool {
    forall|j: int| 0 <= j < i ==> list[j] != list[i]
}

/// What position `i` adds to the list: the successors of its word where it
/// is first seen there, nothing where it has been seen before.
pub open spec fn expansion(list: Seq<WordView>, i: int) -> Seq<WordView> {
    if first_seen(list, i) {
        successors(list[i])
    } else {
        Seq::empty()
    }
}

/// The list at the end of the walk that stands at position `i` of `list`.
pub open spec fn walk(list: Seq<WordView>, i: int) -> Seq<WordView>
    decreases weight(list, i),
    when all_typed(list) && 0 <= i
    via walk_ends
{
    if i >= list.len() {
        list
    } else {
        walk(list + expansion(list, i), i + 1)
    }
}

#[via_fn]
proof fn walk_ends(list: Seq<WordView>, i: int) {
    if i < list.len() {
        lemma_successors(list[i]);
        lemma_visit_lowers_weight(list, i, expansion(list, i));
    }
}

/// Every word that a chain of rules makes of `start`, in the order in which
/// the walk finds them.
pub open spec fn closure_of(start: WordView) -> Seq<WordView> {
    walk(successors(start), 0)
}

/// What the first `n` positions add to the list, one after the other.
pub open spec fn expansions(list: Seq<WordView>, n: int) -> Seq<WordView>
    decreases n,
{
    if n <= 0 {
        Seq::empty()
    } else {
        expansions(list, n - 1) + expansion(list, n - 1)
    }
}

/// Whether `list` holds the successors of `start`, and behind them what
/// each of its own positions adds.
pub open spec fn is_closure(start: WordView, list: Seq<WordView>) -> bool {
    list == successors(start) + expansions(list, list.len() as int)
}

/// What a position adds depends on the list up to that position alone.
pub proof fn lemma_expansion_of_prefix(a: Seq<WordView>, b: Seq<WordView>, i: int)
    requires
        0 <= i < a.len(),
        i < b.len(),
        forall|j: int| 0 <= j <= i ==> a[j] == b[j],
    ensures
        expansion(a, i) == expansion(b, i),
{
    assert(first_seen(a, i) == first_seen(b, i));
}

/// What the first `n` positions add depends on those positions alone.
pub proof fn lemma_expansions_of_prefix(a: Seq<WordView>, b: Seq<WordView>, n: int)
    requires
        n <= a.len(),
        n <= b.len(),
        forall|j: int| 0 <= j < n ==> a[j] == b[j],
    ensures
        expansions(a, n) == expansions(b, n),
    decreases n,
{
    if n > 0 {
        lemma_expansions_of_prefix(a, b, n - 1);
        lemma_expansion_of_prefix(a, b, n - 1);
    }
}

/// One step of the walk keeps every word of the list typed.
pub proof fn lemma_step_typed(list: Seq<WordView>, i: int)
    requires
        all_typed(list),
        0 <= i < list.len(),
    ensures
        all_typed(list + expansion(list, i)),
{
    lemma_successors(list[i]);
}

proof fn lemma_walk_is_closure(start: WordView, list: Seq<WordView>, i: int)
    requires
        all_typed(list),
        0 <= i <= list.len(),
        list == successors(start) + expansions(list, i),
    ensures
        is_closure(start, walk(list, i)),
    decreases weight(list, i),
{
    if i < list.len() {
        let grown = list + expansion(list, i);
        lemma_step_typed(list, i);
        lemma_successors(list[i]);
        lemma_visit_lowers_weight(list, i, expansion(list, i));
        lemma_expansions_of_prefix(list, grown, i);
        lemma_expansion_of_prefix(list, grown, i);
        assert(grown =~= successors(start) + expansions(grown, i + 1));
        lemma_walk_is_closure(start, grown, i + 1);
    }
}

/// The result holds the successors of the surface form, and behind them,
/// for each of its positions in turn, the successors of the word there if
/// the word is first seen there, and nothing otherwise.
pub proof fn lemma_closure_of_is_closure(start: WordView)
    ensures
        is_closure(start, closure_of(start)),
{
    let first = successors(start);
    lemma_successors(start);
    assert(first =~= first + expansions(first, 0));
    lemma_walk_is_closure(start, first, 0);
}

/// A word is expanded at most once: of two positions that hold the same
/// word, the later one adds nothing, however the word was reached.
pub proof fn lemma_expanded_once(list: Seq<WordView>, i: int, j: int)
    requires
        0 <= i < j < list.len(),
        list[i] == list[j],
    ensures
        !first_seen(list, j),
        expansion(list, j) == Seq::<WordView>::empty(),
{
}

/// A word that the list holds is first seen at some position.
pub proof fn lemma_first_position(list: Seq<WordView>, k: int) -> (i: int)
    requires
        0 <= k < list.len(),
    ensures
        0 <= i <= k,
        list[i] == list[k],
        first_seen(list, i),
    decreases k,
{
    if first_seen(list, k) {
        k
    } else {
        let j = choose|j: int| 0 <= j < k && list[j] == list[k];
        lemma_first_position(list, j)
    }
}

/// What the first `i` positions add stands at the start of what the first
/// `n` positions add.
pub proof fn lemma_expansions_grow(list: Seq<WordView>, i: int, n: int)
    requires
        0 <= i <= n,
    ensures
        expansions(list, i).len() <= expansions(list, n).len(),
        expansions(list, n).subrange(0, expansions(list, i).len() as int) == expansions(list, i),
    decreases n - i,
{
    if i < n {
        lemma_expansions_grow(list, i, n - 1);
        assert(expansions(list, n).subrange(0, expansions(list, i).len() as int) =~= expansions(
            list,
            i,
        ));
    } else {
        assert(expansions(list, n).subrange(0, expansions(list, n).len() as int) =~= expansions(
            list,
            n,
        ));
    }
}

/// Nothing that an expansion gives is dropped: what position `i` adds
/// stands in the result as it is, words that the result holds already
/// included, behind the successors of the surface form and what the
/// positions before `i` add.
pub proof fn lemma_expansion_kept(start: WordView, list: Seq<WordView>, i: int)
    requires
        is_closure(start, list),
        0 <= i < list.len(),
    ensures
        ({
            let at = (successors(start).len() + expansions(list, i).len()) as int;
            &&& at + expansion(list, i).len() <= list.len()
            &&& list.subrange(at, at + expansion(list, i).len()) == expansion(list, i)
        }),
{
    let n = list.len() as int;
    let at = (successors(start).len() + expansions(list, i).len()) as int;
    lemma_expansions_grow(list, i + 1, n);
    let upto = expansions(list, i + 1);
    assert(upto == expansions(list, i) + expansion(list, i));
    assert(list.subrange(at, at + expansion(list, i).len()) =~= expansion(list, i)) by {
        assert forall|k: int| 0 <= k < expansion(list, i).len() implies list[at + k] == expansion(
            list,
            i,
        )[k] by {
            let e = expansions(list, i).len() + k;
            assert(list[at + k] == expansions(list, n)[e]);
            assert(expansions(list, n).subrange(0, upto.len() as int)[e] == upto[e]);
        }
    }
}

proof fn lemma_expansions_bounded(list: Seq<WordView>, n: int)
    requires
        0 <= n <= list.len(),
    ensures
        expansions(list, n).len() <= max_successors() * list.take(n).to_set().len(),
    decreases n,
{
    broadcast use seq_to_set_is_finite;

    if n > 0 {
        lemma_expansions_bounded(list, n - 1);
        let before = list.take(n - 1);
        let word = list[n - 1];
        assert(list.take(n) =~= before.push(word));
        before.lemma_push_to_set_commute(word);
        if first_seen(list, n - 1) {
            lemma_successors(word);
            assert(!before.to_set().contains(word)) by {
                if before.to_set().contains(word) {
                    let j = choose|j: int| 0 <= j < before.len() && before[j] == word;
                    assert(list[j] == list[n - 1]);
                }
            }
            assert(list.take(n).to_set().len() == before.to_set().len() + 1);
            assert(max_successors() * (before.to_set().len() + 1) == max_successors()
                * before.to_set().len() + max_successors()) by (nonlinear_arith);
        } else {
            let last = n - 1;
            let j = choose|j: int| 0 <= j < last && list[j] == list[last];
            assert(before[j] == word);
            assert(before.to_set().contains(word));
            assert(list.take(n).to_set() =~= before.to_set());
        }
    } else {
        assert(max_successors() * list.take(n).to_set().len() >= 0) by (nonlinear_arith)
            requires
                max_successors() >= 0,
        ;
    }
}

/// The result is no longer than the number of words that one step can make
/// of a word, times one more than the number of different words in it.
pub proof fn lemma_closure_bounded(start: WordView, list: Seq<WordView>)
    requires
        is_closure(start, list),
    ensures
        list.len() <= max_successors() * (1 + list.to_set().len()),
{
    lemma_successors(start);
    lemma_expansions_bounded(list, list.len() as int);
    assert(list.take(list.len() as int) =~= list);
    assert(max_successors() * (1 + list.to_set().len()) == max_successors() + max_successors()
        * list.to_set().len()) by (nonlinear_arith);
}

/// Each word that the first `n` positions add is added by one of them.
proof fn lemma_added_by(list: Seq<WordView>, n: int, e: int) -> (i: int)
    requires
        0 <= e < expansions(list, n).len(),
    ensures
        0 <= i < n,
        expansions(list, i).len() <= e < expansions(list, i).len() + expansion(list, i).len(),
        expansions(list, n)[e] == expansion(list, i)[e - expansions(list, i).len()],
    decreases n,
{
    if e < expansions(list, n - 1).len() {
        lemma_added_by(list, n - 1, e)
    } else {
        n - 1
    }
}

/// Every word of a list that is a closure has a class.
pub proof fn lemma_closure_typed(start: WordView, list: Seq<WordView>)
    requires
        is_closure(start, list),
    ensures
        all_typed(list),
{
    lemma_successors(start);
    let first = successors(start).len() as int;
    assert forall|p: int| 0 <= p < list.len() implies (#[trigger] list[p]).types != Set::<
        RuleType,
    >::empty() by {
        if p >= first {
            let i = lemma_added_by(list, list.len() as int, p - first);
            lemma_successors(list[i]);
        }
    }
}

/// A position from `from` on whose word has the highest rank among them.
proof fn lemma_highest_rank(list: Seq<WordView>, from: int) -> (m: int)
    requires
        0 <= from < list.len(),
    ensures
        from <= m < list.len(),
        forall|p: int| from <= p < list.len() ==> rank(list[p]) <= rank(list[m]),
    decreases list.len() - from,
{
    if from + 1 == list.len() {
        from
    } else {
        let m = lemma_highest_rank(list, from + 1);
        if rank(list[from]) <= rank(list[m]) {
            m
        } else {
            from
        }
    }
}

/// A closure ends where the words that its positions so far account for
/// end: no word stands behind them.
proof fn lemma_closure_ends(start: WordView, list: Seq<WordView>, n: int)
    requires
        is_closure(start, list),
        0 <= n <= list.len(),
        successors(start).len() + expansions(list, n).len() == n,
    ensures
        n == list.len(),
{
    if n < list.len() {
        let first = successors(start).len() as int;
        let m = lemma_highest_rank(list, n);
        let i = lemma_added_by(list, list.len() as int, m - first);
        if i < n {
            lemma_expansions_grow(list, i + 1, n);
        }
        lemma_closure_typed(start, list);
        lemma_successors(list[i]);
        let k = m - first - expansions(list, i).len();
        assert(list[m] == successors(list[i])[k]);
        assert(rank(list[m]) < rank(list[i]));
    }
}

proof fn lemma_walk_to_closure(start: WordView, list: Seq<WordView>, i: int, whole: Seq<WordView>)
    requires
        is_closure(start, whole),
        all_typed(list),
        0 <= i <= list.len() <= whole.len(),
        list == successors(start) + expansions(list, i),
        forall|j: int| 0 <= j < list.len() ==> list[j] == whole[j],
    ensures
        walk(list, i) == whole,
    decreases weight(list, i),
{
    if i < list.len() {
        let grown = list + expansion(list, i);
        lemma_step_typed(list, i);
        lemma_successors(list[i]);
        lemma_visit_lowers_weight(list, i, expansion(list, i));
        lemma_expansions_of_prefix(list, grown, i);
        lemma_expansion_of_prefix(list, grown, i);
        assert(grown =~= successors(start) + expansions(grown, i + 1));
        lemma_expansions_of_prefix(list, whole, i);
        lemma_expansion_of_prefix(list, whole, i);
        lemma_expansions_grow(whole, i + 1, whole.len() as int);
        let upto = expansions(whole, i + 1);
        assert(upto == expansions(list, i) + expansion(list, i));
        assert(grown.len() <= whole.len());
        assert forall|j: int| 0 <= j < grown.len() implies grown[j] == whole[j] by {
            if j >= list.len() {
                let e = j - successors(start).len();
                assert(whole[j] == expansions(whole, whole.len() as int)[e]);
                assert(expansions(whole, whole.len() as int).subrange(0, upto.len() as int)[e]
                    == upto[e]);
            }
        }
        lemma_walk_to_closure(start, grown, i + 1, whole);
    } else {
        lemma_expansions_of_prefix(list, whole, i);
        lemma_closure_ends(start, whole, i);
        assert(list =~= whole);
    }
}

/// One list only is a closure of `start`: the result.
pub proof fn lemma_closure_unique(start: WordView, list: Seq<WordView>)
    requires
        is_closure(start, list),
    ensures
        list == closure_of(start),
{
    let first = successors(start);
    lemma_successors(start);
    assert(first =~= first + expansions(first, 0));
    lemma_walk_to_closure(start, first, 0, list);
}

} // verus!
