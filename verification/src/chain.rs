//! Steps in a row: what a loop over children does to the context and the
//! data that it hands from child to child.

use vstd::prelude::*;

verus! {

/// `trail` holds what was handed on before each of `n` steps and after the
/// last, from `start` to `end`; each step takes one entry to the next.
pub open spec fn threaded<C>(
    step: spec_fn(int, C, C) -> bool,
    n: int,
    trail: Seq<C>,
    start: C,
    end: C,
) -> bool {
    &&& trail.len() == n + 1
    &&& trail[0] == start
    &&& trail[n] == end
    &&& forall|i: int| #![trigger trail[i]] 0 <= i < n ==> step(i, trail[i], trail[i + 1])
}

/// `n` steps in a row take `start` to `end`.
pub open spec fn linked<C>(step: spec_fn(int, C, C) -> bool, n: int, start: C, end: C) -> bool {
    exists|trail: Seq<C>| #[trigger] threaded(step, n, trail, start, end)
}

} // verus!
