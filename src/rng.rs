use vstd::prelude::*;

verus! {

/// State words of an unseeded generator.
pub const DEFAULT_S0: u64 = 0x4587ba0ead01370f;

pub const DEFAULT_S1: u64 = 0xdd817882dc98c4aa;

/// The state after one step of the xorshift128+ recurrence from `(s0, s1)`.
pub open spec fn xorshift_next(s: (u64, u64)) -> (u64, u64) {
    let x = s.0 ^ (s.0 << 23u64);
    (s.1, x ^ s.1 ^ (x >> 17u64) ^ (s.1 >> 26u64))
}

/// The 64-bit value produced by the step from state `s`: the new second word
/// plus the old second word, modulo 2^64.
pub open spec fn xorshift_output(s: (u64, u64)) -> u64 {
    xorshift_next(s).1.wrapping_add(s.1)
}

/// The xorshift128+ generator: two 64-bit state words, advanced by shifts and
/// exclusive ors.  The same state always gives the same stream.
pub struct XorShift128Plus {
    s0: u64,
    s1: u64,
}

impl View for XorShift128Plus {
    type V = (u64, u64);

    closed spec fn view(&self) -> (u64, u64) {
        (self.s0, self.s1)
    }
}

impl XorShift128Plus {
    /// A generator in the fixed default state.
    pub fn new_unseeded() -> (r: XorShift128Plus)
        ensures
            r@ == (DEFAULT_S0, DEFAULT_S1),
    {
        XorShift128Plus { s0: DEFAULT_S0, s1: DEFAULT_S1 }
    }

    /// A generator whose state words are the two seed words.
    pub fn from_seed(seed: [u64; 2]) -> (r: XorShift128Plus)
        ensures
            r@ == (seed@[0], seed@[1]),
    {
        XorShift128Plus { s0: seed[0], s1: seed[1] }
    }

    /// Replaces the state words by the two seed words.
    pub fn reseed(&mut self, seed: [u64; 2])
        ensures
            final(self)@ == (seed@[0], seed@[1]),
    {
        self.s0 = seed[0];
        self.s1 = seed[1];
    }

    /// Advances the state by one step and returns the step's 64-bit value.
    pub fn next_u64(&mut self) -> (r: u64)
        ensures
            r == xorshift_output(old(self)@),
            final(self)@ == xorshift_next(old(self)@),
    {
        let mut s1 = self.s0;
        let s0 = self.s1;
        self.s0 = s0;
        s1 = s1 ^ (s1 << 23u64);
        self.s1 = s1 ^ s0 ^ (s1 >> 17u64) ^ (s0 >> 26u64);
        self.s1.wrapping_add(s0)
    }

    /// Advances the state by one step and returns the low 32 bits of its value.
    pub fn next_u32(&mut self) -> (r: u32)
        ensures
            r == xorshift_output(old(self)@) as u32,
            final(self)@ == xorshift_next(old(self)@),
    {
        self.next_u64() as u32
    }
}

} // verus!
