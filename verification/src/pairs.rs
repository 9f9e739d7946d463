//! The order in which the pairs of stars interact within one update: every
//! pair `(i, j)` with `i < j`, by `i` and then by `j`, each exactly once.

use vstd::prelude::*;

verus! {

/// `(i, j)` is a pair of two different stars out of `n`, lower index first.
pub open spec fn is_pair(i: int, j: int, n: int) -> bool {
    0 <= i < j < n
}

/// The number of pairs whose first index is below `i`.
pub open spec fn row_start(i: int, n: int) -> int
    decreases i,
{
    if i <= 0 {
        0
    } else {
        row_start(i - 1, n) + (n - i)
    }
}

/// The place of the pair `(i, j)` in the order of an update, from zero.
pub open spec fn rank(i: int, j: int, n: int) -> int {
    row_start(i, n) + (j - i - 1)
}

/// The number of pairs among `n` stars.
pub open spec fn pair_count(n: int) -> int {
    if n <= 1 {
        0
    } else {
        row_start(n - 1, n)
    }
}

/// The pair that follows `(i, j)`, or `None` after the last one.
pub open spec fn following(i: int, j: int, n: int) -> Option<(int, int)> {
    if j + 1 < n {
        Some((i, j + 1))
    } else if i + 2 < n {
        Some((i + 1, i + 2))
    } else {
        None
    }
}

/// The pair that opens an update: `(0, 1)`, or none where fewer than two
/// stars leave nothing to pair.
pub fn first_pair(n: usize) -> (p: Option<(usize, usize)>)
    ensures
        n <= 1 ==> p is None,
        n >= 2 ==> p == Some((0usize, 1usize)),
{
    if n >= 2 {
        Some((0, 1))
    } else {
        None
    }
}

/// The pair that follows `(i, j)` among `n` stars, or `None` where `(i, j)`
/// was the last one.
pub fn next_pair(i: usize, j: usize, n: usize) -> (p: Option<(usize, usize)>)
    requires
        is_pair(i as int, j as int, n as int),
    ensures
        match p {
            Some((a, b)) => following(i as int, j as int, n as int) == Some((a as int, b as int)),
            None => following(i as int, j as int, n as int) is None,
        },
{
    if j + 1 < n {
        Some((i, j + 1))
    } else if i + 2 < n {
        Some((i + 1, i + 2))
    } else {
        None
    }
}

/// Twice the number of pairs before row `i` is `i * (2n - i - 1)`.
pub proof fn lemma_row_start_closed_form(i: int, n: int)
    requires
        0 <= i,
    ensures
        2 * row_start(i, n) == i * (2 * n - i - 1),
    decreases i,
{
    if i > 0 {
        lemma_row_start_closed_form(i - 1, n);
        assert((i - 1) * (2 * n - (i - 1) - 1) + 2 * (n - i) == i * (2 * n - i - 1))
            by (nonlinear_arith);
    } else {
        assert(i * (2 * n - i - 1) == 0) by (nonlinear_arith)
            requires
                i == 0,
        ;
    }
}

/// Among `n` stars there are `n * (n - 1) / 2` pairs.
pub proof fn lemma_pair_count(n: int)
    requires
        0 <= n,
    ensures
        2 * pair_count(n) == n * (n - 1),
{
    if n >= 2 {
        lemma_row_start_closed_form(n - 1, n);
        assert((n - 1) * (2 * n - (n - 1) - 1) == n * (n - 1)) by (nonlinear_arith);
    } else {
        assert(n * (n - 1) == 0) by (nonlinear_arith)
            requires
                n == 0 || n == 1,
        ;
    }
}

/// A later row starts no earlier than where the row before it ends.
proof fn lemma_row_start_grows(i: int, k: int, n: int)
    requires
        0 <= i < k < n,
    ensures
        row_start(i, n) + (n - 1 - i) <= row_start(k, n),
    decreases k,
{
    if k > i + 1 {
        lemma_row_start_grows(i, k - 1, n);
    }
}

/// The first pair has rank zero, and every pair has a rank below the number
/// of pairs.
pub proof fn lemma_rank_in_range(i: int, j: int, n: int)
    requires
        is_pair(i, j, n),
    ensures
        rank(0, 1, n) == 0,
        0 <= rank(i, j, n) < pair_count(n),
{
    if i > 0 {
        lemma_row_start_grows(0, i, n);
    }
    if i < n - 2 {
        lemma_row_start_grows(i, n - 1, n);
    }
}

/// Each step of the walk raises the rank by exactly one, and the walk ends
/// on the pair of the highest rank: so it meets every rank once.
pub proof fn lemma_following_is_next_rank(i: int, j: int, n: int)
    requires
        is_pair(i, j, n),
    ensures
        match following(i, j, n) {
            Some((a, b)) => is_pair(a, b, n) && rank(a, b, n) == rank(i, j, n) + 1,
            None => rank(i, j, n) + 1 == pair_count(n),
        },
{
    if j + 1 >= n && i + 2 < n {
        assert(row_start(i + 1, n) == row_start(i, n) + (n - (i + 1)));
    }
}

/// Two different pairs have different ranks: the earlier pair, by first
/// index and then by second, has the lower rank. So no pair is met twice.
pub proof fn lemma_rank_orders_pairs(a: int, b: int, c: int, d: int, n: int)
    requires
        is_pair(a, b, n),
        is_pair(c, d, n),
        a < c || (a == c && b < d),
    ensures
        rank(a, b, n) < rank(c, d, n),
{
    if a < c {
        lemma_row_start_grows(a, c, n);
    }
}

/// With fewer than two stars there is no pair at all.
pub proof fn lemma_no_pair_below_two(i: int, j: int, n: int)
    requires
        n <= 1,
    ensures
        !is_pair(i, j, n),
        pair_count(n) == 0,
{
}

} // verus!
