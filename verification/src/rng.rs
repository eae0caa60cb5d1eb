//! A tiny deterministic xorshift64* generator, so a seed always yields the
//! same city and the same stream of decisions.

use vstd::prelude::*;

verus! {

/// The state a seed of zero is replaced with (xorshift would stay at zero).
pub const ZERO_SEED_STATE: u64 = 0x9E3779B97F4A7C15;

/// The xorshift64* output multiplier.
pub const MULTIPLIER: u64 = 0x2545F4914F6CDD1D;

/// The state a generator created from `seed` starts in.
pub open spec fn seed_state(seed: u64) -> u64 {
    if seed == 0 {
        ZERO_SEED_STATE
    } else {
        seed
    }
}

/// One xorshift step of the state: shifts 12 right, 25 left, 27 right.
pub open spec fn xorshift(s: u64) -> u64 {
    let a = s ^ (s >> 12u64);
    let b = a ^ (a << 25u64);
    b ^ (b >> 27u64)
}

/// The output drawn from a (new) state: the state times the multiplier,
/// modulo 2^64.
pub open spec fn scramble(s: u64) -> u64 {
    ((s as nat * MULTIPLIER as nat) % 0x1_0000_0000_0000_0000nat) as u64
}

/// The state after `k` draws from state `s`.
pub open spec fn state_after(s: u64, k: nat) -> u64
    decreases k,
{
    if k == 0 {
        s
    } else {
        xorshift(state_after(s, (k - 1) as nat))
    }
}

/// The `k`-th output (counting from 0) of a generator created from `seed`.
pub open spec fn draw(seed: u64, k: nat) -> u64 {
    scramble(state_after(seed_state(seed), k + 1))
}

/// Tiny deterministic RNG (xorshift64*).
pub struct Rng(u64);

impl View for Rng {
    type V = u64;

    closed spec fn view(&self) -> u64 {
        self.0
    }
}

impl Rng {
    #[verifier::type_invariant]
    closed spec fn nonzero(self) -> bool {
        self.0 != 0
    }

    pub fn new(seed: u64) -> (r: Self)
        ensures
            r@ == seed_state(seed),
    {
        let mut s = seed;
        if s == 0 {
            s = ZERO_SEED_STATE;
        }
        Rng(s)
    }

    /// Next u64.
    pub fn next_u64(&mut self) -> (out: u64)
        ensures
            final(self)@ == xorshift(old(self)@),
            out == scramble(final(self)@),
    {
        proof {
            use_type_invariant(&*self);
            lemma_xorshift_nonzero(self.0);
        }
        let mut s = self.0;
        s ^= s >> 12;
        s ^= s << 25;
        s ^= s >> 27;
        self.0 = s;
        s.wrapping_mul(MULTIPLIER)
    }

    /// Integer in [0, n).
    pub fn below(&mut self, n: usize) -> (out: usize)
        requires
            n > 0,
        ensures
            final(self)@ == xorshift(old(self)@),
            out == scramble(final(self)@) % (n as u64),
            out < n,
    {
        let x = self.next_u64();
        let m = n as u64;
        (x % m) as usize
    }
}

/// A xorshift step keeps a nonzero state nonzero: every step `s ^ (s >> k)`
/// keeps the highest set bit and every step `s ^ (s << k)` keeps the lowest.
pub proof fn lemma_xorshift_nonzero(s: u64)
    requires
        s != 0,
    ensures
        xorshift(s) != 0,
{
    let a = s ^ (s >> 12u64);
    assert(a != 0) by (bit_vector)
        requires
            s != 0,
            a == s ^ (s >> 12u64),
    ;
    let b = a ^ (a << 25u64);
    assert(b != 0) by (bit_vector)
        requires
            a != 0,
            b == a ^ (a << 25u64),
    ;
    let c = b ^ (b >> 27u64);
    assert(c != 0) by (bit_vector)
        requires
            b != 0,
            c == b ^ (b >> 27u64),
    ;
}

/// A generator never reaches the all-zero state, whatever the seed and
/// however many values are drawn.
pub proof fn lemma_stream_never_stuck(seed: u64, k: nat)
    ensures
        state_after(seed_state(seed), k) != 0,
    decreases k,
{
    if k > 0 {
        lemma_stream_never_stuck(seed, (k - 1) as nat);
        lemma_xorshift_nonzero(state_after(seed_state(seed), (k - 1) as nat));
    }
}

} // verus!
