use crate::poll::Poll;
use crate::protocol::{any_pending, any_updated, cache_after, cutoff_hit, poll_outcome,
    recomputes, skips_requests, stale_after};
use vstd::prelude::*;

verus! {

/// Idempotence: once a poll has completed, returning `Unchanged` or
/// `Updated`, a node that receives no `dirty` call sees every later poll
/// return `Unchanged` through the fast path, with its cached output, its
/// staleness flag and the function's state untouched and no input requested,
/// whatever the inputs would report (`statuses2`) and whatever the function
/// would compute (`fresh2`).
pub proof fn lemma_poll_idempotent<V: PartialEq>(
    stale: bool,
    cached: Option<V>,
    statuses: Seq<Poll>,
    fresh: V,
    statuses2: Seq<Poll>,
    fresh2: V,
)
    requires
        !(poll_outcome(stale, cached, statuses, fresh) is Pending),
    ensures
        skips_requests(
            stale_after(stale, cached, statuses),
            cache_after(stale, cached, statuses, fresh),
        ),
        poll_outcome(
            stale_after(stale, cached, statuses),
            cache_after(stale, cached, statuses, fresh),
            statuses2,
            fresh2,
        ) is Unchanged,
        cache_after(
            stale_after(stale, cached, statuses),
            cache_after(stale, cached, statuses, fresh),
            statuses2,
            fresh2,
        ) == cache_after(stale, cached, statuses, fresh),
        !recomputes(
            stale_after(stale, cached, statuses),
            cache_after(stale, cached, statuses, fresh),
            statuses2,
        ),
        !stale_after(stale, cached, statuses),
        !stale_after(
            stale_after(stale, cached, statuses),
            cache_after(stale, cached, statuses, fresh),
            statuses2,
        ),
{
    // The second poll leaves the node exactly as the first did, so the same
    // argument applies to every poll after it.
}

/// The cache changes identity only on a reported change: whenever a poll
/// leaves a different cached output behind, that poll returned `Updated`, and
/// what it cached is the freshly computed value.
pub proof fn lemma_cache_changes_only_on_updated<V: PartialEq>(
    stale: bool,
    cached: Option<V>,
    statuses: Seq<Poll>,
    fresh: V,
)
    ensures
        cache_after(stale, cached, statuses, fresh) != cached
            ==> poll_outcome(stale, cached, statuses, fresh) is Updated
                && cache_after(stale, cached, statuses, fresh) == Some(fresh),
{
}

/// Pending preserves staleness: a poll that returns `Pending` leaves the
/// staleness flag and the cached output exactly as they were, does not
/// recompute, and leaves the node in a state whose next poll requests every
/// input again rather than taking the fast path.
pub proof fn lemma_pending_preserves_state<V: PartialEq>(
    stale: bool,
    cached: Option<V>,
    statuses: Seq<Poll>,
    fresh: V,
)
    requires
        poll_outcome(stale, cached, statuses, fresh) is Pending,
    ensures
        stale_after(stale, cached, statuses) == stale,
        cache_after(stale, cached, statuses, fresh) == cached,
        !recomputes(stale, cached, statuses),
        !skips_requests(stale_after(stale, cached, statuses),
            cache_after(stale, cached, statuses, fresh)),
{
}

/// Cutoff suppresses propagation: when no input is pending and the value the
/// function would recompute is equal, under the output type's equality, to
/// the value already cached, the poll returns `Unchanged` and keeps the
/// existing cached value — even when the node was stale and inputs reported
/// `Updated`.
pub proof fn lemma_cutoff_suppresses_propagation<V: PartialEq>(
    stale: bool,
    cached: Option<V>,
    statuses: Seq<Poll>,
    fresh: V,
)
    requires
        !any_pending(statuses),
        cutoff_hit(cached, fresh),
    ensures
        poll_outcome(stale, cached, statuses, fresh) is Unchanged,
        cache_after(stale, cached, statuses, fresh) == cached,
        stale_after(stale, cached, statuses) == false,
{
}

/// Absence forces recomputation: on a poll with no cached output and no
/// pending input the node recomputes and returns `Updated`, caching the fresh
/// value — regardless of whether any input reported `Updated`.
pub proof fn lemma_first_poll_computes<V: PartialEq>(
    stale: bool,
    statuses: Seq<Poll>,
    fresh: V,
)
    requires
        !any_pending(statuses),
    ensures
        recomputes(stale, Option::<V>::None, statuses),
        poll_outcome(stale, Option::<V>::None, statuses, fresh) is Updated,
        cache_after(stale, Option::<V>::None, statuses, fresh) == Some(fresh),
        stale_after(stale, Option::<V>::None, statuses) == false,
{
}

/// Staleness alone does not recompute: when a cached output is present and
/// the inputs all resolve without reporting a change, a poll — even of a node
/// marked stale by `dirty` — skips the mapping function, returns `Unchanged`
/// and only clears the staleness flag.
pub proof fn lemma_stale_alone_no_recompute<V: PartialEq>(
    cached: V,
    statuses: Seq<Poll>,
    fresh: V,
)
    requires
        !any_pending(statuses),
        !any_updated(statuses),
    ensures
        !recomputes(true, Some(cached), statuses),
        poll_outcome(true, Some(cached), statuses, fresh) is Unchanged,
        cache_after(true, Some(cached), statuses, fresh) == Some(cached),
        stale_after(true, Some(cached), statuses) == false,
{
}

} // verus!
