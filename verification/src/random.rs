//! Pseudo-random stream generator.
//!
//! A small fixed-size generator: two 64-bit words of state, advanced by a
//! rotate/xor/shift mix. Every step is a total function of the state, so a
//! stream is fully determined by its seed; the jump operations leap a stream
//! to a distant point of the generator's period, which hands each render
//! tile a decorrelated stream of its own without reseeding.

use vstd::prelude::*;

verus! {

/// Left rotation of a 64-bit word by `k` places, `0 < k < 64`.
pub open spec fn spec_rotl(x: u64, k: u64) -> u64 {
    (x << k) | (x >> (64 - k) as u64)
}

/// One rotate/xor/shift step applied to the two state words.
pub open spec fn spec_mix(s: (u64, u64)) -> (u64, u64) {
    let c = s.1 ^ s.0;
    (spec_rotl(s.0, 24) ^ c ^ (c << 16u64), spec_rotl(c, 37))
}

/// The word a step emits: the wrapping sum of the two state words.
pub open spec fn spec_output(s: (u64, u64)) -> u64 {
    s.0.wrapping_add(s.1)
}

/// The state after `n` steps.
pub open spec fn spec_state_after(s: (u64, u64), n: nat) -> (u64, u64)
    decreases n,
{
    if n == 0 {
        s
    } else {
        spec_mix(spec_state_after(s, (n - 1) as nat))
    }
}

/// The `n`-th word of the stream seeded at `s` (counting from 0).
pub open spec fn spec_nth_output(s: (u64, u64), n: nat) -> u64 {
    spec_output(spec_state_after(s, n))
}

/// State and accumulator after folding the low `n` bits of the jump word
/// `w` over the stream: for each of those bits of `w` that is set, the
/// state reached at that step is xored into the accumulator, and the state
/// advances one step per bit regardless.
pub open spec fn spec_jump_bits(
    s: (u64, u64),
    acc: (u64, u64),
    w: u64,
    n: nat,
) -> ((u64, u64), (u64, u64))
    decreases n,
{
    if n == 0 {
        (s, acc)
    } else {
        let (s1, a1) = spec_jump_bits(s, acc, w, (n - 1) as nat);
        let a2 = if w & (1u64 << ((n - 1) as u64)) != 0 {
            (a1.0 ^ s1.0, a1.1 ^ s1.1)
        } else {
            a1
        };
        (spec_mix(s1), a2)
    }
}

/// The state a jump keyed by the two words `j` leaves behind: the
/// accumulator gathered over all 128 bit positions.
pub open spec fn spec_jump(s: (u64, u64), j: (u64, u64)) -> (u64, u64) {
    let (s1, a1) = spec_jump_bits(s, (0u64, 0u64), j.0, 64);
    let (s2, a2) = spec_jump_bits(s1, a1, j.1, 64);
    a2
}

/// Two 64-bit words of generator state.
#[derive(Clone, Copy)]
pub struct Rng {
    state: [u64; 2],
}

impl View for Rng {
    type V = (u64, u64);

    closed spec fn view(&self) -> (u64, u64) {
        (self.state[0], self.state[1])
    }
}

impl Rng {
    /// A generator whose state is exactly the given seed.
    pub fn from_seed(seed: [u64; 2]) -> (r: Self)
        ensures
            r@ == (seed[0], seed[1]),
    {
        Self { state: seed }
    }

    /// Emits the wrapping sum of the state words, then advances the state
    /// one mix step.
    pub fn next_u64(&mut self) -> (r: u64)
        ensures
            r == spec_output(old(self)@),
            final(self)@ == spec_mix(old(self)@),
    {
        let a = self.state[0];
        let b = self.state[1];
        let result = a.wrapping_add(b);

        let c = b ^ a;
        self.state = [rotl(a, 24) ^ c ^ (c << 16u64), rotl(c, 37)];

        result
    }

    /// Folds one jump word over the stream: advances the state 64 steps and
    /// xors the states reached under set bits of `w` into the accumulator.
    fn jump_word(&mut self, acc: (u64, u64), w: u64) -> (r: (u64, u64))
        ensures
            ({
                let (ms, ma) = spec_jump_bits(old(self)@, acc, w, 64);
                final(self)@ == ms && r == ma
            }),
    {
        let mut s0 = acc.0;
        let mut s1 = acc.1;
        let ghost start = self@;

        let mut b: u64 = 0;
        while b < 64
            invariant
                b <= 64,
                ({
                    let (ms, ma) = spec_jump_bits(start, acc, w, b as nat);
                    self@ == ms && (s0, s1) == ma
                }),
            decreases 64 - b,
        {
            if (w & (1u64 << b)) != 0 {
                s0 = s0 ^ self.state[0];
                s1 = s1 ^ self.state[1];
            }
            self.next_u64();
            b = b + 1;
        }

        (s0, s1)
    }

    fn jump_impl(&mut self, jumper: [u64; 2])
        ensures
            final(self)@ == spec_jump(old(self)@, (jumper[0], jumper[1])),
    {
        let first = self.jump_word((0, 0), jumper[0]);
        let second = self.jump_word(first, jumper[1]);
        self.state = [second.0, second.1];
    }

    /// Leaps the stream ahead by a fixed short distance.
    pub fn short_jump(&mut self)
        ensures
            final(self)@ == spec_jump(old(self)@, (0xdf900294d8f554a5u64, 0x170865df4b3201fcu64)),
    {
        self.jump_impl([0xdf900294d8f554a5, 0x170865df4b3201fc]);
    }

    /// Leaps the stream ahead by a fixed long distance.
    pub fn long_jump(&mut self)
        ensures
            final(self)@ == spec_jump(old(self)@, (0xd2a98b26625eee7bu64, 0xdddf9b1090aa7ac1u64)),
    {
        self.jump_impl([0xd2a98b26625eee7b, 0xdddf9b1090aa7ac1]);
    }
}

/// Replaying a stream is exact: equal seeds give bit-identical words at
/// every position, so a render driven by a fixed seed can be reproduced.
pub proof fn lemma_stream_deterministic(a: (u64, u64), b: (u64, u64), n: nat)
    requires
        a == b,
    ensures
        spec_nth_output(a, n) == spec_nth_output(b, n),
{
}

/// Left rotation of a 64-bit word by `k` places.
fn rotl(x: u64, k: u64) -> (r: u64)
    requires
        0 < k < 64,
    ensures
        r == spec_rotl(x, k),
{
    (x << k) | (x >> (64 - k))
}

} // verus!
