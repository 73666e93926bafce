use crate::poll::Poll;
use vstd::prelude::*;
use vstd::std_specs::cmp::PartialEqSpec;

verus! {

/// True when at least one input's poll outcome in `statuses` is `Pending`.
pub open spec fn any_pending(statuses: Seq<Poll>) -> bool {
    exists|j: int| 0 <= j < statuses.len() && (#[trigger] statuses[j]) is Pending
}

/// True when at least one input's poll outcome in `statuses` is `Updated`.
pub open spec fn any_updated(statuses: Seq<Poll>) -> bool {
    exists|j: int| 0 <= j < statuses.len() && (#[trigger] statuses[j]) is Updated
}

/// True when a poll takes the fast path: the cached output is present and not
/// stale, so the node answers `Unchanged` without requesting any input.
pub open spec fn skips_requests<V>(stale: bool, cached: Option<V>) -> bool {
    !stale && cached is Some
}

/// True when a poll invokes the mapping function: the inputs were requested,
/// none is pending, and either no output has ever been computed or some input
/// reported an actual change. A node must not recompute merely because it was
/// marked stale.
pub open spec fn recomputes<V>(stale: bool, cached: Option<V>, statuses: Seq<Poll>) -> bool {
    &&& !skips_requests(stale, cached)
    &&& !any_pending(statuses)
    &&& (cached is None || any_updated(statuses))
}

/// True when the freshly recomputed value `fresh` is equal, under the output
/// type's own equality, to the value already cached: the cutoff case.
pub open spec fn cutoff_hit<V: PartialEq>(cached: Option<V>, fresh: V) -> bool {
    cached matches Some(c) && fresh.eq_spec(&c)
}

/// The outcome of one poll of a node whose staleness flag is `stale` and whose
/// cached output is `cached`, when the inputs resolve to `statuses` and the
/// mapping function would produce `fresh` from their current values.
pub open spec fn poll_outcome<V: PartialEq>(
    stale: bool,
    cached: Option<V>,
    statuses: Seq<Poll>,
    fresh: V,
) -> Poll {
    if skips_requests(stale, cached) {
        Poll::Unchanged
    } else if any_pending(statuses) {
        Poll::Pending
    } else if recomputes(stale, cached, statuses) {
        if cutoff_hit(cached, fresh) {
            Poll::Unchanged
        } else {
            Poll::Updated
        }
    } else {
        Poll::Unchanged
    }
}

/// The cached output after that poll: replaced by `fresh` exactly when the
/// node recomputed and the new value differs from the cached one; kept
/// unchanged in every other case, the cutoff included.
pub open spec fn cache_after<V: PartialEq>(
    stale: bool,
    cached: Option<V>,
    statuses: Seq<Poll>,
    fresh: V,
) -> Option<V> {
    if recomputes(stale, cached, statuses) && !cutoff_hit(cached, fresh) {
        Some(fresh)
    } else {
        cached
    }
}

/// The staleness flag after that poll: cleared exactly when the poll ran the
/// request round and no input was pending; untouched while any input is
/// pending, and already clear on the fast path.
pub open spec fn stale_after<V>(stale: bool, cached: Option<V>, statuses: Seq<Poll>) -> bool {
    if skips_requests(stale, cached) {
        stale
    } else if any_pending(statuses) {
        stale
    } else {
        false
    }
}

} // verus!
