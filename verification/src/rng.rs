//! Deterministic counter-based sampler.
//!
//! The generator keeps an immutable seed and a position counter that starts at
//! 1 and advances by exactly 1 per draw.  Each raw draw is a pure hash of
//! `(seed, position)`: a fixed pipeline of wrapping multiplies, wrapping adds
//! and xor-shifts with three odd 32-bit constants.  Because the hash is a pure
//! function of the state, the output stream is fully determined by the seed
//! and the starting position: there is no hidden entropy source.

use vstd::prelude::*;

verus! {

use vstd::wrapping::u32_specs;

pub const NOISE1: u32 = 0x68E31DA4;
pub const NOISE2: u32 = 0xB5297A4D;
pub const NOISE3: u32 = 0x1B56C4E9;

/// The raw draw at a given state: a bit-mangling hash of the position, keyed
/// by the seed.  All arithmetic wraps modulo 2^32 by design.
pub open spec fn mangle(seed: u32, pos: u32) -> u32 {
    let a = u32_specs::wrapping_mul(pos, NOISE1);
    let b = u32_specs::wrapping_add(a, seed);
    let c = b ^ (b >> 8);
    let d = u32_specs::wrapping_add(c, NOISE2);
    let e = d ^ (d << 8);
    let f = u32_specs::wrapping_mul(e, NOISE3);
    f ^ (f >> 8)
}

/// The stream of raw draws produced from a starting state: draw `i` of the
/// stream is the hash of position `pos + i`.
pub open spec fn stream(seed: u32, pos: u32, n: nat) -> Seq<u32> {
    Seq::new(n, |i: int| mangle(seed, (pos + i) as u32))
}

pub struct RNG {
    seed: u32,
    pos: u32,
}

impl RNG {
    /// The immutable seed this generator was built with.
    pub closed spec fn spec_seed(&self) -> u32 {
        self.seed
    }

    /// The position counter: the number of the next draw, starting at 1.
    pub closed spec fn spec_pos(&self) -> u32 {
        self.pos
    }

    pub fn new(seed: u32) -> (r: Self)
        ensures
            r.spec_seed() == seed,
            r.spec_pos() == 1,
    {
        Self { seed, pos: 1 }
    }

    pub fn seed(&self) -> (r: u32)
        ensures
            r == self.spec_seed(),
    {
        self.seed
    }

    pub fn pos(&self) -> (r: u32)
        ensures
            r == self.spec_pos(),
    {
        self.pos
    }

    /// One raw draw: returns the hash of the current state and advances the
    /// position by exactly 1.  The seed never changes.
    pub fn next_u32(&mut self) -> (r: u32)
        requires
            old(self).spec_pos() < u32::MAX,
        ensures
            r == mangle(old(self).spec_seed(), old(self).spec_pos()),
            final(self).spec_seed() == old(self).spec_seed(),
            final(self).spec_pos() == old(self).spec_pos() + 1,
    {
        let mut mangled: u32 = self.pos;
        mangled = mangled.wrapping_mul(NOISE1);
        mangled = mangled.wrapping_add(self.seed);
        mangled ^= mangled >> 8;
        mangled = mangled.wrapping_add(NOISE2);
        mangled ^= mangled << 8;
        mangled = mangled.wrapping_mul(NOISE3);
        mangled ^= mangled >> 8;
        self.pos = self.pos + 1;
        mangled
    }

    /// A batch of `n` raw draws: returns the next `n` values of the stream
    /// and advances the position by exactly `n`.  A caller that partitions
    /// work can reproduce any slice of the stream from `(seed, pos)` alone.
    pub fn next_block(&mut self, n: usize) -> (r: Vec<u32>)
        requires
            old(self).spec_pos() + n < u32::MAX,
        ensures
            final(self).spec_seed() == old(self).spec_seed(),
            final(self).spec_pos() == old(self).spec_pos() + n,
            r@ == stream(old(self).spec_seed(), old(self).spec_pos(), n as nat),
    {
        let mut out: Vec<u32> = Vec::new();
        let mut i: usize = 0;
        while i < n
            invariant
                i <= n,
                old(self).spec_pos() + n < u32::MAX,
                self.spec_seed() == old(self).spec_seed(),
                self.spec_pos() == old(self).spec_pos() + i,
                out@.len() == i,
                forall|j: int|
                    0 <= j < i ==> out@[j] == mangle(
                        old(self).spec_seed(),
                        (old(self).spec_pos() + j) as u32,
                    ),
            decreases n - i,
        {
            let v = self.next_u32();
            out.push(v);
            i = i + 1;
        }
        proof {
            assert(out@ =~= stream(old(self).spec_seed(), old(self).spec_pos(), n as nat));
        }
        out
    }
}

/// Determinism of the sampler: two generators built over the same seed and
/// standing at the same position produce, draw for draw, the same stream of
/// raw values, whatever their histories were.
pub proof fn lemma_sampler_deterministic(a: RNG, b: RNG, n: nat)
    requires
        a.spec_seed() == b.spec_seed(),
        a.spec_pos() == b.spec_pos(),
    ensures
        stream(a.spec_seed(), a.spec_pos(), n) == stream(b.spec_seed(), b.spec_pos(), n),
{
    assert(stream(a.spec_seed(), a.spec_pos(), n) =~= stream(b.spec_seed(), b.spec_pos(), n));
}

/// Partitioning the stream: the draws from a starting position split into a
/// first slice of `n` draws and a second slice starting `n` positions later.
/// Units of work that share out disjoint position ranges therefore reproduce
/// exactly the draws of one sequential pass.
pub proof fn lemma_stream_partition(seed: u32, pos: u32, n: nat, m: nat)
    requires
        pos + n + m <= u32::MAX,
    ensures
        stream(seed, pos, n + m) == stream(seed, pos, n) + stream(seed, (pos + n) as u32, m),
{
    assert(stream(seed, pos, n + m) =~= stream(seed, pos, n) + stream(
        seed,
        (pos + n) as u32,
        m,
    ));
}

} // verus!
