use crate::context::UpdateContext;
use crate::poll::Poll;
use vstd::prelude::*;

verus! {

/// An engine stub whose inputs resolve as scripted: input handle `i` is the
/// index of the `i`-th entry, which holds the status its `request` reports
/// and the value its `get` returns for the current pass. A handle beyond the
/// entries resolves as `Pending`. The request log is kept so that a caller
/// can observe how a node polls.
pub struct ScriptedContext<V> {
    /// One `(status, value)` entry per scripted input, indexed by handle.
    pub entries: Vec<(Poll, V)>,
    /// Every handle passed to `request`, in call order.
    pub log: Vec<usize>,
}

impl<V> ScriptedContext<V> {
    /// The number of scripted inputs.
    pub open spec fn input_count(&self) -> nat {
        self.entries@.len()
    }

    /// A context with no scripted inputs and an empty request log.
    pub fn new() -> (ctx: Self)
        ensures
            ctx.input_count() == 0,
            ctx.requested() == Seq::<usize>::empty(),
    {
        ScriptedContext { entries: Vec::new(), log: Vec::new() }
    }

    /// Script one more input; its handle is the count of inputs so far.
    pub fn push_input(&mut self, status: Poll, value: V)
        ensures
            final(self).input_count() == old(self).input_count() + 1,
            final(self).requested() == old(self).requested(),
            forall|i: usize| i != old(self).input_count()
                ==> #[trigger] final(self).status_of(i) == old(self).status_of(i),
            forall|i: usize| i < old(self).input_count()
                ==> #[trigger] final(self).value_of(i) == old(self).value_of(i),
            forall|i: usize| i == old(self).input_count()
                ==> #[trigger] final(self).status_of(i) == status,
            forall|i: usize| i == old(self).input_count()
                ==> #[trigger] final(self).value_of(i) == value,
    {
        self.entries.push((status, value));
    }

    /// Re-script an existing input for the next pass.
    pub fn set_input(&mut self, input: usize, status: Poll, value: V)
        requires
            input < old(self).input_count(),
        ensures
            final(self).input_count() == old(self).input_count(),
            final(self).requested() == old(self).requested(),
            forall|i: usize| i != input
                ==> #[trigger] final(self).status_of(i) == old(self).status_of(i),
            forall|i: usize| i != input && i < old(self).input_count()
                ==> #[trigger] final(self).value_of(i) == old(self).value_of(i),
            final(self).status_of(input) == status,
            final(self).value_of(input) == value,
    {
        self.entries[input] = (status, value);
    }

    /// The number of `request` calls seen so far.
    pub fn request_count(&self) -> (count: usize)
        ensures
            count == self.requested().len(),
    {
        self.log.len()
    }

    /// The request log: every handle passed to `request`, in call order.
    pub fn requests(&self) -> (log: &Vec<usize>)
        ensures
            log@ == self.requested(),
    {
        &self.log
    }

    /// Forget the request log, keeping the scripted inputs.
    pub fn clear_requests(&mut self)
        ensures
            final(self).requested() == Seq::<usize>::empty(),
            final(self).input_count() == old(self).input_count(),
            forall|i: usize| #[trigger] final(self).status_of(i) == old(self).status_of(i),
            forall|i: usize| i < old(self).input_count()
                ==> #[trigger] final(self).value_of(i) == old(self).value_of(i),
    {
        self.log.clear();
    }
}

impl<V> UpdateContext for ScriptedContext<V> {
    type Value = V;

    open spec fn requested(&self) -> Seq<usize> {
        self.log@
    }

    open spec fn status_of(&self, input: usize) -> Poll {
        if input < self.entries@.len() {
            self.entries@[input as int].0
        } else {
            Poll::Pending
        }
    }

    open spec fn value_of(&self, input: usize) -> V {
        self.entries@[input as int].1
    }

    fn request(&mut self, input: usize, need_value: bool) -> (status: Poll) {
        let _ = need_value;
        self.log.push(input);
        if input < self.entries.len() {
            let entry = &self.entries[input];
            entry.0
        } else {
            Poll::Pending
        }
    }

    fn get(&self, input: usize) -> (value: &V) {
        &self.entries[input].1
    }
}

} // verus!
