//! The xorshift-128 generator: four 32-bit words of state, one 32-bit word
//! out per call, no entropy but the seed.

use vstd::prelude::*;

verus! {

/// The four state words `(x, y, z, w)` of a generator.
pub type Seed = (u32, u32, u32, u32);

/// The state that a generator made without a seed starts from.
pub open spec fn default_seed() -> Seed {
    (123456789u32, 362436069u32, 521288629u32, 88675123u32)
}

/// The new last word, from the first word `x` and the last word `w`.
pub open spec fn mix(x: u32, w: u32) -> u32 {
    let t = x ^ (x << 11u32);
    w ^ (w >> 19u32) ^ t ^ (t >> 8u32)
}

/// One step of the recurrence: the words move up by one place and the mixed
/// word comes in last.
pub open spec fn advance(s: Seed) -> Seed {
    (s.1, s.2, s.3, mix(s.0, s.3))
}

/// The state after `n` steps from `s`.
pub open spec fn state_after(s: Seed, n: nat) -> Seed
    decreases n,
{
    if n == 0 {
        s
    } else {
        advance(state_after(s, (n - 1) as nat))
    }
}

/// The word that the call number `k` (from zero) returns on a generator
/// seeded with `s`.
pub open spec fn output(s: Seed, k: nat) -> u32 {
    state_after(s, k + 1).3
}

/// Generators seeded alike give the same stream: every state and every
/// output is decided by the seed and the number of calls made.
pub proof fn lemma_same_seed_same_stream(a: Seed, b: Seed, n: nat)
    requires
        a == b,
    ensures
        state_after(a, n) == state_after(b, n),
        output(a, n) == output(b, n),
{
}

/// The call number `k` finds the state `state_after(s, k)`, leaves
/// `state_after(s, k + 1)` and returns `output(s, k)`.
pub proof fn lemma_call_returns_output(s: Seed, k: nat)
    ensures
        advance(state_after(s, k)) == state_after(s, k + 1),
        mix(state_after(s, k).0, state_after(s, k).3) == output(s, k),
{
}

/// A stream can be cut anywhere: `n` steps from the state reached after `m`
/// steps lead where `m + n` steps from the seed lead.
pub proof fn lemma_state_after_adds(s: Seed, m: nat, n: nat)
    ensures
        state_after(state_after(s, m), n) == state_after(s, m + n),
    decreases n,
{
    if n > 0 {
        lemma_state_after_adds(s, m, (n - 1) as nat);
        assert(m + n - 1 == m + (n - 1));
    }
}

pub struct Xorshift128 {
    x: u32,
    y: u32,
    z: u32,
    w: u32,
}

impl View for Xorshift128 {
    type V = Seed;

    closed spec fn view(&self) -> Seed {
        (self.x, self.y, self.z, self.w)
    }
}

impl Xorshift128 {
    /// A generator in the fixed default state.
    pub fn new() -> (g: Self)
        ensures
            g@ == default_seed(),
    {
        Xorshift128 { x: 123456789, y: 362436069, z: 521288629, w: 88675123 }
    }

    /// A generator whose state is the four words given.
    pub fn init(init: (u32, u32, u32, u32)) -> (g: Self)
        ensures
            g@ == init,
    {
        Xorshift128 { x: init.0, y: init.1, z: init.2, w: init.3 }
    }

    /// Advances the state by one step and returns its new last word.
    pub fn next(&mut self) -> (r: u32)
        ensures
            final(self)@ == advance(old(self)@),
            r == mix(old(self)@.0, old(self)@.3),
    {
        let t: u32 = self.x ^ (self.x << 11u32);
        self.x = self.y;
        self.y = self.z;
        self.z = self.w;
        self.w = self.w ^ (self.w >> 19u32) ^ t ^ (t >> 8u32);
        self.w
    }
}

} // verus!
