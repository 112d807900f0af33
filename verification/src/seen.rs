//! The words that the engine has expanded already, kept in a hash set of the
//! `fxhash` crate.
//!
//! What the set does is not proved here. It is stated, of the two calls that
//! are made, as the documentation of std's `HashSet` gives it; the tracker
//! is verified against those statements.

use crate::deinflect::{DeinflectedWord, WordView};
use crate::grammar::{bits_of_set, lemma_set_of_bits_of_set};
use fxhash::FxHashSet;
use vstd::prelude::*;

verus! {

/// `fxhash::FxHasher`, the hasher of the sets below. Nothing is said of what
/// it holds.
#[verifier::external_type_specification]
#[verifier::external_body]
pub struct ExFxHasher(fxhash::FxHasher);

/// `core::hash::BuildHasherDefault`, through which `fxhash` makes its hasher
/// the hasher of a std `HashSet`. Nothing is said of what it holds.
#[verifier::external_type_specification]
#[verifier::external_body]
#[verifier::reject_recursive_types(H)]
pub struct ExBuildHasherDefault<H>(core::hash::BuildHasherDefault<H>);

/// The keys that an `FxHashSet` of words and class encodings holds, each
/// word taken by its characters.
pub uninterp spec fn fx_set_keys(set: FxHashSet<(String, u8)>) -> Set<(Seq<char>, u8)>;

/// `FxHashSet::default()`: `fxhash` defines `FxHashSet<V>` as std's
/// `HashSet<V, BuildHasherDefault<FxHasher>>`, whose default value is an
/// empty set.
#[verifier::external_body]
fn fx_set_new() -> (set: FxHashSet<(String, u8)>)
    ensures
        fx_set_keys(set) == Set::<(Seq<char>, u8)>::empty(),
{
    FxHashSet::default()
}

/// `HashSet::insert` on an `FxHashSet`: adds the key to the set and returns
/// whether the set did not hold it before. Two keys are the same when their
/// words hold the same characters and their encodings are equal, which is
/// how std compares and hashes a `String` and a `u8`.
#[verifier::external_body]
fn fx_set_insert(set: &mut FxHashSet<(String, u8)>, word: &str, types: u8) -> (fresh: bool)
    ensures
        fresh == !fx_set_keys(*old(set)).contains((word@, types)),
        fx_set_keys(*final(set)) == fx_set_keys(*old(set)).insert((word@, types)),
{
    set.insert((word.to_string(), types))
}

/// Tracks the words that have been seen, so that each is expanded once. Two
/// words are the same when they hold the same characters and the same
/// classes.
pub struct SeenWordsTracker {
    seen: FxHashSet<(String, u8)>,
}

impl View for SeenWordsTracker {
    type V = Set<WordView>;

    closed spec fn view(&self) -> Set<WordView> {
        Set::new(|w: WordView| fx_set_keys(self.seen).contains((w.word, bits_of_set(w.types))))
    }
}

impl SeenWordsTracker {
    /// A tracker that has seen no word.
    pub fn new() -> (tracker: SeenWordsTracker)
        ensures
            tracker@ == Set::<WordView>::empty(),
    {
        let tracker = SeenWordsTracker { seen: fx_set_new() };
        assert(tracker@ =~= Set::<WordView>::empty());
        tracker
    }

    /// Records the word, and returns whether it had not been seen before.
    pub fn check_is_new(&mut self, word: &DeinflectedWord) -> (fresh: bool)
        ensures
            fresh == !old(self)@.contains(word@),
            final(self)@ == old(self)@.insert(word@),
    {
        let code = word.get_types().to_bits();
        let fresh = fx_set_insert(&mut self.seen, word.get_word(), code);
        proof {
            assert forall|w: WordView| #[trigger]
                self@.contains(w) == old(self)@.insert(word@).contains(w) by {
                if w.word == word@.word && bits_of_set(w.types) == code {
                    lemma_set_of_bits_of_set(w.types);
                    lemma_set_of_bits_of_set(word@.types);
                    assert(w == word@);
                }
            }
            assert(self@ =~= old(self)@.insert(word@));
        }
        fresh
    }
}

} // verus!
