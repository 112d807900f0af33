//! The words of the result are the words that chains of rules reach.

use crate::closure::{
    closure_of, expansion, expansions, is_closure, lemma_closure_of_is_closure,
    lemma_expansion_kept, lemma_first_position, lemma_step_typed, walk,
};
use crate::deinflect::{successors, WordView};
use crate::descent::{all_typed, lemma_successors, lemma_visit_lowers_weight, weight};
use vstd::prelude::*;

verus! {

/// Whether `chain` is a chain of rule applications from `start`: its first
/// word is a successor of `start`, and each later word is a successor of
/// the word before it.
pub open spec fn is_chain(start: WordView, chain: Seq<WordView>) -> bool {
    &&& chain.len() >= 1
    &&& successors(start).contains(chain[0])
    &&& forall|k: int|
        0 < k < chain.len() ==> successors(chain[k - 1]).contains(#[trigger] chain[k])
}

/// Whether some chain of rule applications from `start` ends in `w`.
pub open spec fn reachable(start: WordView, w: WordView) -> bool {
    exists|chain: Seq<WordView>| #[trigger] is_chain(start, chain) && chain.last() == w
}

/// Whether every word of the list can be reached from `start`.
pub open spec fn all_reachable(start: WordView, list: Seq<WordView>) -> bool {
    forall|k: int| 0 <= k < list.len() ==> reachable(start, #[trigger] list[k])
}

proof fn lemma_successors_reachable(start: WordView, mid: WordView)
    requires
        mid == start || reachable(start, mid),
    ensures
        all_reachable(start, successors(mid)),
{
    assert forall|k: int| 0 <= k < successors(mid).len() implies reachable(
        start,
        #[trigger] successors(mid)[k],
    ) by {
        let w = successors(mid)[k];
        assert(successors(mid).contains(w));
        if mid == start {
            let chain = seq![w];
            assert(is_chain(start, chain) && chain.last() == w);
        } else {
            let before = choose|chain: Seq<WordView>| #[trigger]
                is_chain(start, chain) && chain.last() == mid;
            let chain = before.push(w);
            assert forall|k: int| 0 < k < chain.len() implies successors(chain[k - 1]).contains(
                #[trigger] chain[k],
            ) by {
                if k < before.len() {
                    assert(chain[k] == before[k]);
                    assert(chain[k - 1] == before[k - 1]);
                }
            }
            assert(chain[0] == before[0]);
            assert(is_chain(start, chain) && chain.last() == w);
        }
    }
}

proof fn lemma_walk_reachable(start: WordView, list: Seq<WordView>, i: int)
    requires
        all_typed(list),
        0 <= i <= list.len(),
        all_reachable(start, list),
    ensures
        all_reachable(start, walk(list, i)),
    decreases weight(list, i),
{
    if i < list.len() {
        let grown = list + expansion(list, i);
        lemma_step_typed(list, i);
        lemma_successors(list[i]);
        lemma_visit_lowers_weight(list, i, expansion(list, i));
        lemma_successors_reachable(start, list[i]);
        assert forall|k: int| 0 <= k < grown.len() implies reachable(
            start,
            #[trigger] grown[k],
        ) by {
            if k >= list.len() {
                assert(grown[k] == expansion(list, i)[k - list.len()]);
            } else {
                assert(grown[k] == list[k]);
            }
        }
        lemma_walk_reachable(start, grown, i + 1);
    }
}

/// Every word of the result is made of the surface form by a chain of
/// rule applications.
pub proof fn lemma_closure_sound(start: WordView)
    ensures
        all_reachable(start, closure_of(start)),
{
    lemma_successors(start);
    lemma_successors_reachable(start, start);
    lemma_walk_reachable(start, successors(start), 0);
}

proof fn lemma_chain_is_held(start: WordView, list: Seq<WordView>, chain: Seq<WordView>)
    requires
        is_closure(start, list),
        is_chain(start, chain),
    ensures
        list.contains(chain.last()),
    decreases chain.len(),
{
    let w = chain.last();
    if chain.len() == 1 {
        let at = choose|at: int| 0 <= at < successors(start).len() && successors(start)[at] == w;
        assert(list[at] == w);
    } else {
        let before = chain.drop_last();
        let mid = before.last();
        assert forall|k: int| 0 < k < before.len() implies successors(before[k - 1]).contains(
            #[trigger] before[k],
        ) by {
            assert(before[k] == chain[k]);
            assert(before[k - 1] == chain[k - 1]);
        }
        assert(before[0] == chain[0]);
        lemma_chain_is_held(start, list, before);
        let last = chain.len() - 1;
        assert(successors(chain[last - 1]).contains(chain[last]));
        assert(mid == chain[last - 1]);
        let at = choose|at: int| 0 <= at < successors(mid).len() && successors(mid)[at] == w;
        let k = choose|k: int| 0 <= k < list.len() && list[k] == mid;
        let i = lemma_first_position(list, k);
        lemma_expansion_kept(start, list, i);
        let from = (successors(start).len() + expansions(list, i).len()) as int;
        assert(expansion(list, i) == successors(mid));
        assert(list.subrange(from, from + successors(mid).len())[at] == w);
        assert(list[from + at] == w);
    }
}

/// Every word that a chain of rule applications makes of the surface form
/// is in the result.
pub proof fn lemma_closure_complete(start: WordView, w: WordView)
    requires
        reachable(start, w),
    ensures
        closure_of(start).contains(w),
{
    let chain = choose|chain: Seq<WordView>| #[trigger] is_chain(start, chain) && chain.last() == w;
    lemma_closure_of_is_closure(start);
    lemma_chain_is_held(start, closure_of(start), chain);
}

} // verus!
