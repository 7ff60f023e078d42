use vstd::arithmetic::div_mod::{lemma_add_mod_noop, lemma_mod_twice, lemma_small_mod};
use vstd::prelude::*;

verus! {

/// Multiplier of the linear congruential step.
pub const LCG_MUL: u32 = 214013;

/// Increment of the linear congruential step.
pub const LCG_INC: u32 = 2531011;

/// The state that follows `s`: `s * 214013 + 2531011` modulo 2^32.
pub open spec fn lcg_step(s: u32) -> u32 {
    ((s as int * LCG_MUL as int + LCG_INC as int) % 0x1_0000_0000) as u32
}

/// The value drawn from a freshly stepped state: its bits 16 to 30.
pub open spec fn lcg_output(s: u32) -> i32 {
    ((s as int / 0x10000) % 0x8000) as i32
}

/// A deterministic pseudo-random generator of 15-bit values.
pub struct Random {
    state: u32,
}

impl View for Random {
    type V = u32;

    closed spec fn view(&self) -> u32 {
        self.state
    }
}

impl Random {
    /// A generator seeded with 1.
    pub fn new() -> (r: Self)
        ensures
            r@ == 1,
    {
        Random { state: 1 }
    }

    pub fn new_seed(seed: u32) -> (r: Self)
        ensures
            r@ == seed,
    {
        Random { state: seed }
    }

    pub fn seed(&self) -> (r: u32)
        ensures
            r == self@,
    {
        self.state
    }

    pub fn set_seed(&mut self, seed: u32)
        ensures
            final(self)@ == seed,
    {
        self.state = seed;
    }

    /// Steps the state and returns bits 16 to 30 of the new state.
    pub fn next(&mut self) -> (r: i32)
        ensures
            final(self)@ == lcg_step(old(self)@),
            r == lcg_output(final(self)@),
            0 <= r <= 32767,
    {
        let m = self.state.wrapping_mul(LCG_MUL);
        let s = m.wrapping_add(LCG_INC);
        proof {
            let x = old(self)@ as int * LCG_MUL as int;
            assert(m as int == x % 0x1_0000_0000);
            assert(s as int == (m as int + LCG_INC as int) % 0x1_0000_0000);
            lemma_add_mod_noop(x, LCG_INC as int, 0x1_0000_0000);
            lemma_small_mod(LCG_INC as nat, 0x1_0000_0000);
            lemma_mod_twice(x, 0x1_0000_0000);
            assert(s == lcg_step(old(self)@));
            assert((s >> 16u32) & 0x7FFFu32 == (s / 0x10000u32) % 0x8000u32) by (bit_vector);
        }
        self.state = s;
        ((s >> 16) & 0x7FFF) as i32
    }
}

impl Default for Random {
    fn default() -> (r: Self)
        ensures
            r@ == 1,
    {
        Random::new()
    }
}

/// The state after `n` draws from a generator seeded with `seed`.
pub open spec fn state_after(seed: u32, n: nat) -> u32
    decreases n,
{
    if n == 0 {
        seed
    } else {
        lcg_step(state_after(seed, (n - 1) as nat))
    }
}

/// Reseeding reproduces the sequence: the `n`-th value drawn after seeding
/// depends on the seed and `n` alone, and lies in `[0, 32767]`.
pub proof fn lemma_reseed_reproduces(a: u32, b: u32, n: nat)
    requires
        a == b,
        n >= 1,
    ensures
        state_after(a, n) == lcg_step(state_after(b, (n - 1) as nat)),
        lcg_output(state_after(a, n)) == lcg_output(state_after(b, n)),
        0 <= lcg_output(state_after(a, n)) <= 32767,
{
}

} // verus!
