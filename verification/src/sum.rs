use crate::context::{deref_all, MapFn};
use vstd::prelude::*;

verus! {

/// The wrapping sum of a sequence of machine integers, left to right.
pub open spec fn wrap_sum(values: Seq<i64>) -> i64
    decreases values.len(),
{
    if values.len() == 0 {
        0i64
    } else {
        vstd::wrapping::i64_specs::wrapping_add(wrap_sum(values.drop_last()), values.last())
    }
}

/// A mapping function that adds its inputs (wrapping on overflow) and counts
/// how often it has been invoked, so that a caller can observe whether a poll
/// actually recomputed.
pub struct SumFn {
    /// How many times the function has been applied.
    pub invocations: u64,
}

impl SumFn {
    /// A sum function that has not been applied yet.
    pub fn new() -> (f: Self)
        ensures
            f.invocations == 0,
    {
        SumFn { invocations: 0 }
    }
}

impl MapFn<i64> for SumFn {
    open spec fn result_spec(&self, args: Seq<i64>) -> i64 {
        wrap_sum(args)
    }

    open spec fn next_spec(&self, args: Seq<i64>) -> SumFn {
        SumFn { invocations: vstd::wrapping::u64_specs::wrapping_add(self.invocations, 1) }
    }

    fn call(&mut self, args: Vec<&i64>) -> (result: i64) {
        self.invocations = self.invocations.wrapping_add(1);
        let mut acc: i64 = 0;
        let mut k: usize = 0;
        while k < args.len()
            invariant
                k <= args@.len(),
                acc == wrap_sum(deref_all(args@).take(k as int)),
            decreases args@.len() - k,
        {
            acc = acc.wrapping_add(*args[k]);
            k = k + 1;
            proof {
                assert(deref_all(args@).take(k as int).drop_last()
                    =~= deref_all(args@).take(k as int - 1));
            }
        }
        proof {
            assert(deref_all(args@).take(args@.len() as int) =~= deref_all(args@));
        }
        acc
    }
}

} // verus!
