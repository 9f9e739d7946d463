//! The raw coordinates of a new world: three generator words per star, in
//! the order x, y, z, star after star.

use vstd::prelude::*;
use crate::random::{Seed, Xorshift128, default_seed, lemma_call_returns_output, output, state_after};

verus! {

/// The three words drawn for one star, before they are scaled to the
/// world's width, height and deepness.
#[derive(Clone, Copy, Debug, PartialEq, Eq, Structural)]
pub struct RawStar {
    pub x: u32,
    pub y: u32,
    pub z: u32,
}

/// The seed that a world is built from: the one given, or the generator's
/// default state.
pub open spec fn seed_of(prng_init: Option<Seed>) -> Seed {
    match prng_init {
        Some(init) => init,
        None => default_seed(),
    }
}

/// The words of star number `k` in a world built from `seed`: outputs
/// `3k`, `3k + 1` and `3k + 2` of the stream.
pub open spec fn raw_star(seed: Seed, k: nat) -> RawStar {
    RawStar { x: output(seed, 3 * k), y: output(seed, 3 * k + 1), z: output(seed, 3 * k + 2) }
}

/// The raw coordinates of the first `star_count` stars of a world built
/// from `seed`.
pub open spec fn raw_stars(seed: Seed, star_count: nat) -> Seq<RawStar> {
    Seq::new(star_count, |k: int| raw_star(seed, k as nat))
}

/// Worlds built alike start alike: the seed and the number of stars decide
/// every raw coordinate, and a world built without a seed is the world
/// built from the generator's default state.
pub proof fn lemma_same_seed_same_stars(a: Option<Seed>, b: Option<Seed>, star_count: nat)
    requires
        seed_of(a) == seed_of(b),
    ensures
        raw_stars(seed_of(a), star_count) == raw_stars(seed_of(b), star_count),
        raw_stars(seed_of(None), star_count) == raw_stars(seed_of(Some(default_seed())), star_count),
        raw_stars(seed_of(a), star_count).len() == star_count,
{
}

/// Draws the raw coordinates of `star_count` stars from a generator seeded
/// with `prng_init`, or in its default state where none is given.
pub fn draw_stars(star_count: usize, prng_init: Option<(u32, u32, u32, u32)>) -> (stars: Vec<RawStar>)
    ensures
        stars@ == raw_stars(seed_of(prng_init), star_count as nat),
        stars.len() == star_count,
{
    let mut rng = match prng_init {
        Some(init) => Xorshift128::init(init),
        None => Xorshift128::new(),
    };
    let ghost seed = seed_of(prng_init);
    let mut stars: Vec<RawStar> = Vec::new();
    let mut k: usize = 0;
    while k < star_count
        invariant
            k <= star_count,
            rng@ == state_after(seed, 3 * (k as nat)),
            stars@ == raw_stars(seed, k as nat),
        decreases star_count - k,
    {
        let x: u32 = rng.next();
        let y: u32 = rng.next();
        let z: u32 = rng.next();
        proof {
            let n = 3 * (k as nat);
            lemma_call_returns_output(seed, n);
            lemma_call_returns_output(seed, n + 1);
            lemma_call_returns_output(seed, n + 2);
            assert(3 * ((k + 1) as nat) == n + 3);
        }
        stars.push(RawStar { x, y, z });
        k = k + 1;
        assert(stars@ =~= raw_stars(seed, k as nat));
    }
    stars
}

} // verus!
