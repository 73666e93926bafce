use crate::context::{deref_all, MapFn, UpdateContext};
use crate::poll::Poll;
use crate::protocol::{any_pending, any_updated, cache_after, poll_outcome, recomputes,
    skips_requests, stale_after};
use vstd::prelude::*;
use vstd::std_specs::cmp::PartialEqSpec;

verus! {

/// A derived-value node of the dataflow graph: the one entity of this crate.
///
/// It holds a mapping function, an ordered, fixed set of opaque handles to its
/// upstream inputs, the cached output of the last recomputation, and a
/// staleness flag. The engine mutates it only through `dirty` and
/// `poll_updated` and reads it through `output`.
pub struct MapNode<V, F> {
    /// The mapping function, with whatever state it captures.
    pub func: F,
    /// Opaque, non-owning handles to the upstream inputs, in declaration
    /// order; the engine owns the nodes behind them.
    pub inputs: Vec<usize>,
    /// The cached output: absent until the first successful computation.
    pub cached: Option<V>,
    /// True when some input may have changed since the cached output was
    /// last validated.
    pub stale: bool,
}

impl<V: PartialEq, F: MapFn<V>> MapNode<V, F> {
    /// The ordered input handles declared at construction.
    pub open spec fn input_ids(&self) -> Seq<usize> {
        self.inputs@
    }

    /// The cached output: absent until the first successful computation.
    pub open spec fn cached_output(&self) -> Option<V> {
        self.cached
    }

    /// True when some input may have changed since the cached output was last
    /// validated.
    pub open spec fn is_stale(&self) -> bool {
        self.stale
    }

    /// The mapping function together with its captured state.
    pub open spec fn func_state(&self) -> F {
        self.func
    }

    /// A node is well formed when it has at least one input.
    pub open spec fn wf(&self) -> bool {
        self.inputs@.len() >= 1
    }

    /// The per-input poll statuses this node would observe from `ctx`, in
    /// declaration order.
    pub open spec fn statuses_in<C: UpdateContext<Value = V>>(&self, ctx: C) -> Seq<Poll> {
        Seq::new(self.inputs@.len(), |k: int| ctx.status_of(self.inputs@[k]))
    }

    /// The current values of this node's inputs in `ctx`, in declaration
    /// order.
    pub open spec fn values_in<C: UpdateContext<Value = V>>(&self, ctx: C) -> Seq<V> {
        Seq::new(self.inputs@.len(), |k: int| ctx.value_of(self.inputs@[k]))
    }

    /// The value the mapping function would produce from the current input
    /// values in `ctx`.
    pub open spec fn fresh_in<C: UpdateContext<Value = V>>(&self, ctx: C) -> V {
        self.func.result_spec(self.values_in(ctx))
    }

    /// Bind a mapping function to a fixed, ordered set of input handles. The
    /// node starts with no cached output and is stale, so its first poll
    /// requests every input and computes.
    pub fn new(func: F, inputs: Vec<usize>) -> (node: Self)
        requires
            inputs@.len() >= 1,
        ensures
            node.wf(),
            node.func_state() == func,
            node.input_ids() == inputs@,
            node.cached_output() is None,
            node.is_stale(),
    {
        MapNode { func, inputs, cached: None, stale: true }
    }

    /// Change notification from the engine: some declared input may have
    /// changed. Which one is not tracked; any change invalidates the whole
    /// cached output. Repeated calls are no-ops beyond the first.
    pub fn dirty(&mut self, change_token: usize)
        ensures
            final(self).is_stale(),
            final(self).cached_output() == old(self).cached_output(),
            final(self).input_ids() == old(self).input_ids(),
            final(self).func_state() == old(self).func_state(),
    {
        let _ = change_token;
        self.stale = true;
    }

    /// Borrow the cached output. Must only be called after a poll has
    /// returned `Updated` or `Unchanged`, never before the first successful,
    /// non-pending poll; that misuse is a programming error and aborts.
    pub fn output(&self) -> (value: &V)
        requires
            self.cached_output() is Some,
        ensures
            self.cached_output() == Some(*value),
    {
        match &self.cached {
            Some(value) => value,
            None => vstd::pervasive::unreached(),
        }
    }

    /// True once a poll has completed without pending inputs, so that
    /// `output` may be called.
    pub fn output_ready(&self) -> (ready: bool)
        ensures
            ready == (self.cached_output() is Some),
    {
        self.cached.is_some()
    }

    /// Diagnostic label for tracing tools; purely observational.
    pub fn debug_label(&self) -> (label: &'static str)
        ensures
            label@ == "map"@,
    {
        "map"
    }

    /// One attempt, within a recomputation pass, to bring the cached output
    /// up to date; safe to call repeatedly within and across passes.
    ///
    /// Unless the cached output is present and not stale, every input is
    /// requested exactly once, in declaration order, even after an earlier
    /// input reports `Pending`. If any input is pending the poll returns
    /// `Pending` and touches nothing. Otherwise the staleness flag is
    /// cleared, and the mapping function runs exactly when no output was
    /// ever computed or some input reported a change; a recomputed value
    /// equal to the cached one is discarded and the poll reports `Unchanged`
    /// (the cutoff).
    pub fn poll_updated<C: UpdateContext<Value = V>>(&mut self, ctx: &mut C) -> (result: Poll)
        requires
            old(self).wf(),
            V::obeys_eq_spec(),
        ensures
            final(self).wf(),
            final(self).input_ids() == old(self).input_ids(),
            result == poll_outcome(
                old(self).is_stale(),
                old(self).cached_output(),
                old(self).statuses_in(*old(ctx)),
                old(self).fresh_in(*old(ctx)),
            ),
            final(self).cached_output() == cache_after(
                old(self).is_stale(),
                old(self).cached_output(),
                old(self).statuses_in(*old(ctx)),
                old(self).fresh_in(*old(ctx)),
            ),
            final(self).is_stale() == stale_after(
                old(self).is_stale(),
                old(self).cached_output(),
                old(self).statuses_in(*old(ctx)),
            ),
            final(self).func_state() == (if recomputes(
                old(self).is_stale(),
                old(self).cached_output(),
                old(self).statuses_in(*old(ctx)),
            ) {
                old(self).func_state().next_spec(old(self).values_in(*old(ctx)))
            } else {
                old(self).func_state()
            }),
            final(ctx).requested() == (if skips_requests(
                old(self).is_stale(),
                old(self).cached_output(),
            ) {
                old(ctx).requested()
            } else {
                old(ctx).requested() + old(self).input_ids()
            }),
            forall|i: usize| #[trigger] final(ctx).status_of(i) == old(ctx).status_of(i),
            forall|i: usize| #[trigger] final(ctx).value_of(i) == old(ctx).value_of(i),
    {
        if !self.stale && self.cached.is_some() {
            return Poll::Unchanged;
        }

        let ghost statuses = old(self).statuses_in(*old(ctx));
        let n = self.inputs.len();
        let mut found_pending = false;
        let mut found_updated = false;
        let mut k: usize = 0;
        while k < n
            invariant
                k <= n,
                n == self.inputs@.len(),
                *self == *old(self),
                statuses == old(self).statuses_in(*old(ctx)),
                ctx.requested() == old(ctx).requested() + old(self).input_ids().take(k as int),
                forall|i: usize| #[trigger] ctx.status_of(i) == old(ctx).status_of(i),
                forall|i: usize| #[trigger] ctx.value_of(i) == old(ctx).value_of(i),
                found_pending == exists|j: int|
                    0 <= j < k && (#[trigger] statuses[j]) is Pending,
                found_updated == exists|j: int|
                    0 <= j < k && (#[trigger] statuses[j]) is Updated,
            decreases n - k,
        {
            let status = ctx.request(self.inputs[k], true);
            proof {
                assert(status == statuses[k as int]);
                assert(old(self).input_ids().take(k as int).push(self.inputs@[k as int])
                    =~= old(self).input_ids().take(k as int + 1));
            }
            match status {
                Poll::Pending => {
                    found_pending = true;
                }
                Poll::Updated => {
                    found_updated = true;
                }
                Poll::Unchanged => {},
            }
            k = k + 1;
        }
        proof {
            assert(old(self).input_ids().take(n as int) =~= old(self).input_ids());
            assert(found_pending == any_pending(statuses));
            assert(found_updated == any_updated(statuses));
        }

        if found_pending {
            return Poll::Pending;
        }

        self.stale = false;

        if self.cached.is_none() || found_updated {
            let mut current: Vec<&V> = Vec::new();
            let mut k: usize = 0;
            while k < n
                invariant
                    k <= n,
                    n == self.inputs@.len(),
                    self.inputs@ == old(self).input_ids(),
                    !any_pending(statuses),
                    statuses == old(self).statuses_in(*old(ctx)),
                    forall|i: usize| #[trigger] ctx.status_of(i) == old(ctx).status_of(i),
                    forall|i: usize| #[trigger] ctx.value_of(i) == old(ctx).value_of(i),
                    current@.len() == k,
                    forall|j: int| 0 <= j < k ==> *(#[trigger] current@[j])
                        == ctx.value_of(old(self).input_ids()[j]),
                decreases n - k,
            {
                proof {
                    assert(statuses[k as int] == ctx.status_of(self.inputs@[k as int]));
                }
                let value = ctx.get(self.inputs[k]);
                current.push(value);
                k = k + 1;
            }
            proof {
                assert(deref_all(current@) =~= old(self).values_in(*old(ctx)));
            }
            let fresh = self.func.call(current);
            let changed = match &self.cached {
                Some(cached) => fresh != *cached,
                None => true,
            };
            if changed {
                self.cached = Some(fresh);
                Poll::Updated
            } else {
                Poll::Unchanged
            }
        } else {
            Poll::Unchanged
        }
    }
}

} // verus!
