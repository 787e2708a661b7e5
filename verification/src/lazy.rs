//! Lazy, at-most-once initialization of the worker pool.
//!
//! A database handle carries its worker pool behind a once-initialized slot:
//! the first `get`/`transaction` call constructs the pool, every later call
//! (and every clone of the handle) observes that same instance, and a
//! supplied initializer is run at most once. [`OnceSlot`] is the linearized
//! model of that discipline: the concurrency-safe cell that the surrounding
//! program uses serializes racing first calls, so each call sees the slot
//! either still empty or already holding the first caller's value, which is
//! exactly the step [`once_step`] describes.

use vstd::prelude::*;

verus! {

/// A slot that is empty until first use and from then on holds one value
/// forever.
pub struct OnceSlot<T> {
    value: Option<T>,
}

impl<T> OnceSlot<T> {
    /// The slot's contents: `None` until the first initialization, then
    /// forever `Some` of the first value.
    pub closed spec fn state(self) -> Option<T> {
        self.value
    }

    /// A fresh slot, not yet initialized.
    pub fn new() -> (slot: Self)
        ensures
            slot.state() is None,
    {
        OnceSlot { value: None }
    }

    /// Whether the slot has been initialized.
    pub fn initialized(&self) -> (b: bool)
        ensures
            b == (self.state() is Some),
    {
        self.value.is_some()
    }

    /// The stored value, if the slot has been initialized.
    pub fn get(&self) -> (r: Option<&T>)
        ensures
            match r {
                Some(v) => self.state() == Some(*v),
                None => self.state() is None,
            },
    {
        self.value.as_ref()
    }

    /// Returns the stored value, running `init` to produce it only if the
    /// slot is still empty. A value stored earlier is never replaced: the
    /// first initializer wins and every caller afterwards observes its
    /// value.
    pub fn get_or_init<F: FnOnce() -> T>(&mut self, init: F) -> (out: &T)
        requires
            old(self).state() is None ==> call_requires(init, ()),
        ensures
            final(self).state() == Some(*out),
            old(self).state() matches Some(v) ==> *out == v,
            old(self).state() is None ==> call_ensures(init, (), *out),
    {
        if self.value.is_none() {
            let v = init();
            self.value = Some(v);
        }
        self.value.as_ref().unwrap()
    }
}

/// One observation of a once-initialized slot by a caller that brings its
/// own candidate value: the resulting contents, and the value that caller
/// observes. An already-filled slot keeps and hands out its value; an empty
/// slot takes the candidate.
pub open spec fn once_step<T>(state: Option<T>, candidate: T) -> (Option<T>, T) {
    match state {
        Some(v) => (Some(v), v),
        None => (Some(candidate), candidate),
    }
}

/// A run of observations in some serialization order, each bringing its own
/// candidate: the final contents, and what each observer saw, in order.
pub open spec fn once_run<T>(state: Option<T>, candidates: Seq<T>) -> (Option<T>, Seq<T>)
    decreases candidates.len(),
{
    if candidates.len() == 0 {
        (state, Seq::empty())
    } else {
        let (next, first_seen) = once_step(state, candidates[0]);
        let (end, rest_seen) = once_run(next, candidates.skip(1));
        (end, seq![first_seen] + rest_seen)
    }
}

/// An initialized slot is stable: however many observations follow, the
/// contents never change and every observer sees the stored value.
pub proof fn lemma_initialized_stable<T>(v: T, candidates: Seq<T>)
    ensures
        ({
            let (end, seen) = once_run(Some(v), candidates);
            &&& end == Some(v)
            &&& seen.len() == candidates.len()
            &&& forall|i: int| 0 <= i < seen.len() ==> seen[i] == v
        }),
    decreases candidates.len(),
{
    if candidates.len() > 0 {
        lemma_initialized_stable(v, candidates.skip(1));
        let (end, seen) = once_run(Some(v), candidates);
        let (_, rest_seen) = once_run(Some(v), candidates.skip(1));
        assert(seen == seq![v] + rest_seen);
        assert forall|i: int| 0 <= i < seen.len() implies seen[i] == v by {
            if i > 0 {
                assert(seen[i] == rest_seen[i - 1]);
            }
        }
    }
}

/// At-most-once initialization: dispatch any number of first observations
/// at a fresh slot, in whatever order they get serialized — the slot ends up
/// holding the first candidate alone, and every observer, first or later,
/// sees that one value. Later candidates are discarded, never stored.
pub proof fn lemma_at_most_once_init<T>(candidates: Seq<T>)
    requires
        candidates.len() > 0,
    ensures
        ({
            let (end, seen) = once_run(None::<T>, candidates);
            &&& end == Some(candidates[0])
            &&& seen.len() == candidates.len()
            &&& forall|i: int| 0 <= i < seen.len() ==> seen[i] == candidates[0]
        }),
{
    let first = candidates[0];
    lemma_initialized_stable(first, candidates.skip(1));
    let (end, seen) = once_run(None::<T>, candidates);
    let (_, rest_seen) = once_run(Some(first), candidates.skip(1));
    assert(seen == seq![first] + rest_seen);
    assert forall|i: int| 0 <= i < seen.len() implies seen[i] == first by {
        if i > 0 {
            assert(seen[i] == rest_seen[i - 1]);
        }
    }
}

} // verus!
