//! How many stars are in sight, and whether that is few enough to start
//! the world afresh.

use vstd::prelude::*;

verus! {

/// The number of `true` entries of `on_screen`.
pub open spec fn visible_count(on_screen: Seq<bool>) -> nat
    decreases on_screen.len(),
{
    if on_screen.len() == 0 {
        0
    } else {
        visible_count(on_screen.drop_last()) + if on_screen.last() {
            1nat
        } else {
            0nat
        }
    }
}

/// No more stars are in sight than there are stars.
pub proof fn lemma_visible_count_bounded(on_screen: Seq<bool>)
    ensures
        visible_count(on_screen) <= on_screen.len(),
    decreases on_screen.len(),
{
    if on_screen.len() > 0 {
        lemma_visible_count_bounded(on_screen.drop_last());
    }
}

/// The count follows each star on its own: where star `i` comes into sight
/// or leaves it, the count changes by that one star and by nothing else.
pub proof fn lemma_visible_count_follows_star(on_screen: Seq<bool>, i: int, now: bool)
    requires
        0 <= i < on_screen.len(),
    ensures
        visible_count(on_screen.update(i, now)) + (if on_screen[i] { 1nat } else { 0nat })
            == visible_count(on_screen) + (if now { 1nat } else { 0nat }),
    decreases on_screen.len(),
{
    let after = on_screen.update(i, now);
    if i == on_screen.len() - 1 {
        assert(after.drop_last() =~= on_screen.drop_last());
    } else {
        lemma_visible_count_follows_star(on_screen.drop_last(), i, now);
        assert(after.drop_last() =~= on_screen.drop_last().update(i, now));
    }
}

/// Counts the stars in sight. `on_screen` says of each star, in order,
/// whether it stands within the width and the height of the screen.
pub fn count_visible(on_screen: &Vec<bool>) -> (count: usize)
    ensures
        count == visible_count(on_screen@),
        count <= on_screen.len(),
{
    let mut count: usize = 0;
    let mut k: usize = 0;
    while k < on_screen.len()
        invariant
            k <= on_screen.len(),
            count == visible_count(on_screen@.take(k as int)),
            count <= k,
        decreases on_screen.len() - k,
    {
        assert(on_screen@.take(k + 1).drop_last() =~= on_screen@.take(k as int));
        if on_screen[k] {
            count = count + 1;
        }
        k = k + 1;
    }
    assert(on_screen@.take(k as int) =~= on_screen@);
    count
}

/// Whether so few stars are left in sight that the world is to be reset:
/// fewer than half of them, the half rounded down.
pub fn needs_reset(visible: usize, star_count: usize) -> (reset: bool)
    ensures
        reset == (visible < star_count / 2),
{
    visible < star_count / 2
}

} // verus!
