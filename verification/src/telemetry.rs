//! Frame statistics: where a nearest-rank percentile sits in a sorted list of
//! frame intervals.
use vstd::prelude::*;

verus! {

/// The nearest rank (1-based) of the `percent`-th percentile of `n` sorted
/// values: the smallest rank with at least `percent`% of the values at or
/// below it, and at least the first.
pub open spec fn nearest_rank(n: int, percent: int) -> int {
    let rank = (percent * n + 99) / 100;
    if rank < 1 {
        1
    } else if rank > n {
        n
    } else {
        rank
    }
}

/// Index into `n` sorted values of their nearest-rank `percent`-th
/// percentile.
pub fn percentile_index(n: usize, percent: u32) -> (r: usize)
    requires
        n > 0,
    ensures
        r == nearest_rank(n as int, percent as int) - 1,
        r < n,
{
    assert(percent * n <= u32::MAX * usize::MAX) by (nonlinear_arith)
        requires
            percent <= u32::MAX,
            n <= usize::MAX,
    ;
    let product: u128 = percent as u128 * n as u128;
    let rank: u128 = (product + 99) / 100;
    if rank < 1 {
        0
    } else if rank > n as u128 {
        n - 1
    } else {
        (rank - 1) as usize
    }
}

/// The nearest rank is the smallest rank that covers `percent`% of the
/// values: `rank * 100 >= percent * n`, and one rank less would not (unless it
/// is the first).
pub proof fn lemma_nearest_rank_is_smallest_covering(n: int, percent: int)
    requires
        n > 0,
        0 <= percent <= 100,
    ensures
        1 <= nearest_rank(n, percent) <= n,
        nearest_rank(n, percent) * 100 >= percent * n,
        nearest_rank(n, percent) > 1 ==> (nearest_rank(n, percent) - 1) * 100 < percent * n,
{
    let rank = (percent * n + 99) / 100;
    assert(rank * 100 >= percent * n && (rank - 1) * 100 < percent * n) by (nonlinear_arith)
        requires
            rank == (percent * n + 99) / 100,
            n > 0,
            0 <= percent,
    ;
    assert(percent * n <= 100 * n) by (nonlinear_arith)
        requires
            0 <= percent <= 100,
            n > 0,
    ;
}

} // verus!
