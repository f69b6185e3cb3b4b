//! A small xorshift64 generator, the source of every random choice the game makes.

use vstd::prelude::*;

verus! {

/// One xorshift64 step (shifts 13, 7, 17).
pub open spec fn xorshift(x: u64) -> u64 {
    let a = x ^ (x << 13u64);
    let b = a ^ (a >> 7u64);
    b ^ (b << 17u64)
}

/// The 53 high bits of a state, the numerator of a draw in `[0, 1)` over `2^53`.
pub open spec fn high_bits(x: u64) -> u64 {
    x >> 11u64
}

/// `2^53`: the denominator that turns `high_bits` into a number in `[0, 1)`.
pub const UNIT_DENOMINATOR: u64 = 9007199254740992;

/// A xorshift64 generator. Its state is never zero.
pub struct Rng {
    state: u64,
}

impl Rng {
    /// The current state.
    pub closed spec fn state(&self) -> u64 {
        self.state
    }

    /// A well-formed generator has a nonzero state.
    pub open spec fn wf(&self) -> bool {
        self.state() != 0
    }

    /// A generator seeded with `seed | 1`, so that its state is never zero.
    pub fn from_seed(seed: u64) -> (r: Rng)
        ensures
            r.state() == seed | 1u64,
            r.wf(),
    {
        assert(seed | 1u64 != 0u64) by (bit_vector);
        Rng { state: seed | 1 }
    }

    /// Advances the state by one xorshift step and returns the 53 high bits of the
    /// new state: a draw of `bits / 2^53` in `[0, 1)`.
    pub fn next_bits(&mut self) -> (bits: u64)
        requires
            old(self).wf(),
        ensures
            final(self).state() == xorshift(old(self).state()),
            final(self).wf(),
            bits == high_bits(final(self).state()),
            bits < UNIT_DENOMINATOR,
    {
        let x0: u64 = self.state;
        proof {
            lemma_xorshift_nonzero(x0);
        }
        let mut x: u64 = x0;
        x = x ^ (x << 13u64);
        x = x ^ (x >> 7u64);
        x = x ^ (x << 17u64);
        assert(x == xorshift(x0));
        self.state = x;
        let bits: u64 = x >> 11u64;
        assert(x >> 11u64 < 9007199254740992u64) by (bit_vector);
        bits
    }
}

/// The xorshift step sends a nonzero state to a nonzero state, so a generator never
/// falls into the all-zero state, from which it would only ever draw zero.
pub proof fn lemma_xorshift_nonzero(x: u64)
    requires
        x != 0,
    ensures
        xorshift(x) != 0,
{
    let a = x ^ (x << 13u64);
    assert(a != 0u64) by (bit_vector)
        requires
            x != 0u64,
            a == x ^ (x << 13u64),
    ;
    let b = a ^ (a >> 7u64);
    assert(b != 0u64) by (bit_vector)
        requires
            a != 0u64,
            b == a ^ (a >> 7u64),
    ;
    let c = b ^ (b << 17u64);
    assert(c != 0u64) by (bit_vector)
        requires
            b != 0u64,
            c == b ^ (b << 17u64),
    ;
}

} // verus!
