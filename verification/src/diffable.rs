//! State that advances by diffs.

use std::sync::Arc;
use vstd::prelude::*;

verus! {

/// State that advances by applying a diff to it.
///
/// A diff is valid against the state it was computed from; applying it
/// yields the next authoritative state.
pub trait Diffable: Sized + 'static {
    type Diff;

    /// The state that results from applying `diff` to `self`.
    spec fn applied(self, diff: Self::Diff) -> Self;

    fn apply_diff(&mut self, diff: Self::Diff)
        ensures
            *final(self) == old(self).applied(diff),
    ;
}

/// A change to a boolean state.
pub enum BoolDiff {
    /// The state becomes the carried value.
    SetTo(bool),
}

impl Diffable for bool {
    type Diff = BoolDiff;

    open spec fn applied(self, diff: BoolDiff) -> bool {
        match diff {
            BoolDiff::SetTo(new) => new,
        }
    }

    fn apply_diff(&mut self, diff: BoolDiff) {
        let BoolDiff::SetTo(new) = diff;
        *self = new;
    }
}

/// A change to a shared string state.
pub enum ArcStrDiff {
    /// The state is replaced by the carried string.
    SetTo(Arc<str>),
}

impl Diffable for Arc<str> {
    type Diff = ArcStrDiff;

    open spec fn applied(self, diff: ArcStrDiff) -> Arc<str> {
        match diff {
            ArcStrDiff::SetTo(new) => new,
        }
    }

    fn apply_diff(&mut self, diff: ArcStrDiff) {
        *self = match diff {
            ArcStrDiff::SetTo(new) => new,
        };
    }
}

/// The state reached from `state` by applying `diffs` one after the other,
/// first to last.
pub open spec fn applied_all<T: Diffable>(state: T, diffs: Seq<T::Diff>) -> T
    decreases diffs.len(),
{
    if diffs.len() == 0 {
        state
    } else {
        applied_all(state, diffs.drop_last()).applied(diffs.last())
    }
}

/// Applies every diff of `diffs` to `state`, in order, each exactly once.
pub fn apply_all<T: Diffable>(state: &mut T, diffs: Vec<T::Diff>)
    ensures
        *final(state) == applied_all(*old(state), diffs@),
{
    let ghost start = *state;
    for diff in it: diffs
        invariant
            it.seq() == diffs@,
            *state == applied_all(start, diffs@.take(it.index() as int)),
    {
        proof {
            let k = it.index() as int;
            assert(diffs@.take(k + 1).drop_last() == diffs@.take(k));
            assert(diffs@.take(k + 1).last() == diff);
        }
        state.apply_diff(diff);
    }
    proof {
        assert(diffs@.take(diffs@.len() as int) == diffs@);
    }
}

/// Applying two diffs in sequence is applying the first, then the second:
/// nothing is skipped and nothing merged, also where both are the same diff.
pub proof fn lemma_applied_twice<T: Diffable>(state: T, first: T::Diff, second: T::Diff)
    ensures
        applied_all(state, seq![first, second]) == state.applied(first).applied(second),
{
    let both = seq![first, second];
    assert(both.drop_last() == seq![first]);
    assert(seq![first].drop_last() == Seq::<T::Diff>::empty());
    reveal_with_fuel(applied_all, 3);
}

/// Diffs compose in order: applying `head` followed by `tail` is applying
/// `tail` to what `head` led to.
pub proof fn lemma_applied_all_concat<T: Diffable>(state: T, head: Seq<T::Diff>, tail: Seq<T::Diff>)
    ensures
        applied_all(state, head + tail) == applied_all(applied_all(state, head), tail),
    decreases tail.len(),
{
    if tail.len() == 0 {
        assert(head + tail == head);
    } else {
        assert((head + tail).drop_last() == head + tail.drop_last());
        assert((head + tail).last() == tail.last());
        lemma_applied_all_concat(state, head, tail.drop_last());
    }
}

/// A boolean diff overrides whatever was there: after `SetTo(first)` and
/// then `SetTo(second)` the state is `second`, whatever it was before.
pub proof fn lemma_bool_diff_overrides(state: bool, first: bool, second: bool)
    ensures
        applied_all(state, seq![BoolDiff::SetTo(first), BoolDiff::SetTo(second)]) == second,
        state.applied(BoolDiff::SetTo(first)).applied(BoolDiff::SetTo(second)) == second,
{
    lemma_applied_twice(state, BoolDiff::SetTo(first), BoolDiff::SetTo(second));
}

} // verus!
