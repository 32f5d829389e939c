//! The runtime meaning of the generated machinery.
//!
//! Fix a collection composed of elements `e_0 … e_{N-1}` and a method `m`
//! with arguments `args`; let `results` be the sequence
//! `[e_0.m(args), …, e_{N-1}.m(args)]` of per-element results.  The
//! generated level methods and iterators compute, by structural recursion
//! over the node chain, exactly the functions this module defines over
//! `results` — the terminal case answers nothing, the recursive case
//! answers the head's result at level zero and otherwise asks the tail one
//! level down.  The lemmas here state and prove the laws of that recursion:
//! what each level answers, what a full iteration yields, how the empty
//! collection behaves, and that re-running an iteration changes nothing.

use vstd::prelude::*;

verus! {

/// What the level method answers at `level`, by the generated recursion:
/// nothing on the empty chain, the first result at level zero, and the
/// tail's answer one level down otherwise.
pub open spec fn level_result<T>(results: Seq<T>, level: nat) -> Option<T>
    decreases results.len(),
{
    if results.len() == 0 {
        None
    } else if level == 0 {
        Some(results[0])
    } else {
        level_result(results.drop_first(), (level - 1) as nat)
    }
}

/// What an iterator standing at `level` still yields: the answers at
/// `level`, `level + 1`, … until the first absent one.
pub open spec fn outputs_from<T>(results: Seq<T>, level: nat) -> Seq<T>
    decreases results.len() - level,
{
    if level >= results.len() {
        Seq::empty()
    } else {
        seq![results[level as int]] + outputs_from(results, level + 1)
    }
}

/// What a fresh iteration yields: everything from level zero on.
pub open spec fn iteration_outputs<T>(results: Seq<T>) -> Seq<T> {
    outputs_from(results, 0)
}

/// The level method answers the element's result exactly within the
/// collection's depth: present with the result at `level` for `level < N`,
/// absent for `level >= N`.
pub proof fn lemma_level_result<T>(results: Seq<T>, level: nat)
    ensures
        level < results.len() ==> level_result(results, level) == Some(results[level as int]),
        level >= results.len() ==> level_result(results, level) is None,
    decreases results.len(),
{
    if results.len() > 0 && level > 0 {
        lemma_level_result(results.drop_first(), (level - 1) as nat);
    }
}

/// On the empty collection every level is absent.
pub proof fn lemma_empty_level_absent<T>(level: nat)
    ensures
        level_result(Seq::<T>::empty(), level) is None,
{
    lemma_level_result(Seq::<T>::empty(), level);
}

/// What an iterator standing at `level` still yields is exactly the tail of
/// the results from `level` on.
pub proof fn lemma_outputs_from<T>(results: Seq<T>, level: nat)
    ensures
        level <= results.len() ==> outputs_from(results, level) == results.skip(level as int),
        level >= results.len() ==> outputs_from(results, level) == Seq::<T>::empty(),
    decreases results.len() - level,
{
    if level < results.len() {
        lemma_outputs_from(results, level + 1);
        assert(outputs_from(results, level) =~= results.skip(level as int));
    } else {
        assert(results.skip(results.len() as int) =~= Seq::<T>::empty());
    }
}

/// A fresh iteration yields every composed element's result, in order, and
/// nothing else: its length is exactly the collection's depth.  On the
/// empty collection it yields the empty sequence.
pub proof fn lemma_iteration_yields_all<T>(results: Seq<T>)
    ensures
        iteration_outputs(results) == results,
        iteration_outputs(results).len() == results.len(),
{
    lemma_outputs_from(results, 0);
    assert(results.skip(0) =~= results);
}

/// Walking the levels by hand agrees with the sequence: for every position
/// within the depth, the level method's present answer is the value the
/// iteration yields there.
pub proof fn lemma_manual_matches_sequence<T>(results: Seq<T>, level: nat)
    requires
        level < results.len(),
    ensures
        level_result(results, level) == Some(iteration_outputs(results)[level as int]),
{
    lemma_level_result(results, level);
    lemma_iteration_yields_all(results);
}

/// Iterating twice is idempotent: any two full iterations over the same
/// results — each a fresh iterator starting at level zero, neither touching
/// the other's cursor — yield the same sequence, namely the results
/// themselves.
pub proof fn lemma_iteration_idempotent<T>(results: Seq<T>, first: Seq<T>, second: Seq<T>)
    requires
        first == iteration_outputs(results),
        second == iteration_outputs(results),
    ensures
        first == second,
        first == results,
{
    lemma_iteration_yields_all(results);
}

/// The level method of the generated recursion, executed over a vector of
/// per-element results.
pub fn value_at_level<T: Copy>(results: &Vec<T>, level: usize) -> (r: Option<T>)
    ensures
        r == level_result(results@, level as nat),
{
    proof {
        lemma_level_result(results@, level as nat);
    }
    if level < results.len() {
        Some(results[level])
    } else {
        None
    }
}

/// A model of one generated iterator instance: a borrowed view of the
/// per-element results, and a cursor that this instance alone owns.
pub struct ResultsCursor<'a, T> {
    results: &'a Vec<T>,
    level: usize,
}

impl<'a, T: Copy> ResultsCursor<'a, T> {
    /// The per-element results this cursor walks.
    pub closed spec fn spec_results(&self) -> Seq<T> {
        self.results@
    }

    /// The cursor's current level.
    pub closed spec fn spec_level(&self) -> usize {
        self.level
    }

    /// A fresh iterator: borrows the results, starts at level zero.
    pub fn new(results: &'a Vec<T>) -> (r: Self)
        ensures
            r.spec_results() == results@,
            r.spec_level() == 0,
    {
        ResultsCursor { results, level: 0 }
    }

    /// One advance: ask for the answer at the current level, step the level
    /// unconditionally, hand the optional answer on.
    pub fn next(&mut self) -> (r: Option<T>)
        requires
            old(self).spec_level() < usize::MAX,
        ensures
            final(self).spec_results() == old(self).spec_results(),
            final(self).spec_level() == old(self).spec_level() + 1,
            r == level_result(old(self).spec_results(), old(self).spec_level() as nat),
    {
        let r = value_at_level(self.results, self.level);
        self.level += 1;
        r
    }

    /// A full consumption of a fresh iterator: yields every result in
    /// order, whatever any other iterator over the same results does.
    pub fn collect_all(&mut self) -> (v: Vec<T>)
        requires
            old(self).spec_level() == 0,
            old(self).spec_results().len() < usize::MAX,
        ensures
            v@ == iteration_outputs(old(self).spec_results()),
            v@ == old(self).spec_results(),
    {
        let ghost results = self.spec_results();
        let mut v: Vec<T> = Vec::new();
        loop
            invariant_except_break
                self.spec_level() == v@.len(),
            invariant
                self.spec_results() == results,
                results.len() < usize::MAX,
                v@.len() <= results.len(),
                forall|i: int| 0 <= i < v@.len() ==> v@[i] == results[i],
            ensures
                v@.len() == results.len(),
            decreases results.len() - v@.len(),
        {
            proof {
                lemma_level_result(results, self.spec_level() as nat);
            }
            match self.next() {
                Some(x) => {
                    v.push(x);
                },
                None => {
                    break ;
                },
            }
        }
        proof {
            assert(v@ =~= results);
            lemma_iteration_yields_all(results);
        }
        v
    }
}

} // verus!
