use crate::poll::Poll;
use vstd::prelude::*;

verus! {

/// The engine-side view that a node sees while it is being polled.
///
/// The engine owns every upstream node; this node reaches them only through
/// opaque input handles. Within one recomputation pass each input has a fixed
/// resolved status (`status_of`) and, when that status is not `Pending`, a
/// fixed current value (`value_of`); `requested` records, in order, every
/// input handle this context was asked to resolve.
pub trait UpdateContext {
    type Value;

    /// The input handles passed to `request` so far, in call order.
    spec fn requested(&self) -> Seq<usize>;

    /// The resolved poll status of an input in the current pass.
    spec fn status_of(&self, input: usize) -> Poll;

    /// The current resolved value of an input in the current pass.
    spec fn value_of(&self, input: usize) -> Self::Value;

    /// Ask the engine to resolve `input` for the current pass; this may drive
    /// the input's own recomputation. Resolving one input changes no other
    /// input's resolution.
    fn request(&mut self, input: usize, need_value: bool) -> (status: Poll)
        ensures
            final(self).requested() == old(self).requested().push(input),
            status == old(self).status_of(input),
            forall|i: usize| #[trigger] final(self).status_of(i) == old(self).status_of(i),
            forall|i: usize| #[trigger] final(self).value_of(i) == old(self).value_of(i),
    ;

    /// Borrow the current value of an input; valid only once `request` for
    /// that input has returned a non-`Pending` status in the same pass.
    fn get(&self, input: usize) -> (value: &Self::Value)
        requires
            !(self.status_of(input) is Pending),
        ensures
            *value == self.value_of(input),
    ;
}

/// The values behind a sequence of borrows.
pub open spec fn deref_all<V>(s: Seq<&V>) -> Seq<V> {
    Seq::new(s.len(), |i: int| *s[i])
}

/// The mapping function a node was built around: a callable over one borrowed
/// value per input, which may carry captured state of its own but must be
/// deterministic given that state and the input values. `result_spec` names
/// the value it produces and `next_spec` the state it leaves behind.
pub trait MapFn<V>: Sized {
    /// The value the function produces from `args` in its current state.
    spec fn result_spec(&self, args: Seq<V>) -> V;

    /// The captured state the function holds after being applied to `args`.
    spec fn next_spec(&self, args: Seq<V>) -> Self;

    /// Apply the function to one borrowed value per input.
    fn call(&mut self, args: Vec<&V>) -> (result: V)
        ensures
            result == old(self).result_spec(deref_all(args@)),
            *final(self) == old(self).next_spec(deref_all(args@)),
    ;
}

} // verus!
