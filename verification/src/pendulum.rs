//! Physical parameters of the double pendulum, derived from a 64-bit seed.
//!
//! All lengths, masses and angular displacements are kept in tenths of a
//! unit, so a field value of 10 stands for one whole unit. Each parameter of
//! a seeded state is a single byte of the seed, which fits that scale
//! exactly; callers that need the parameters as fractional numbers divide by
//! ten at the boundary.

use vstd::prelude::*;

verus! {

/// Gravitational constant shared by every pendulum state, in tenths of a unit.
pub const GRAVITY_TENTHS: u16 = 98;

/// Parameters of a double pendulum: two rod lengths, two point masses and
/// the two current angular displacements (called tensions here), all in
/// tenths of a unit, plus the seed the state was derived from.
#[derive(Clone, Copy, Debug, PartialEq, Eq)]
pub struct DoublePendulum {
    pub length_of_rod: (u16, u16),
    pub mass_of_rod: (u16, u16),
    pub tension_of_rod: (u16, u16),
    pub gravity: u16,
    pub seed: i64,
}

/// The seed reinterpreted as an unsigned 64-bit value.
pub open spec fn seed_bits(seed: i64) -> u64 {
    if seed >= 0 {
        seed as u64
    } else {
        (seed + 0x1_0000_0000_0000_0000) as u64
    }
}

/// The value that remains of `u` after its `i` lowest bytes are dropped.
pub open spec fn dropped_bytes(u: u64, i: nat) -> u64
    decreases i,
{
    if i == 0 {
        u
    } else {
        dropped_bytes(u, (i - 1) as nat) / 256
    }
}

/// Byte `i` of `u`, counting from the least significant byte.
pub open spec fn byte_of(u: u64, i: nat) -> u8 {
    (dropped_bytes(u, i) % 256) as u8
}

/// Byte `i` of the seed's derived byte sequence. The seed is decomposed
/// into its big-endian bytes and the order is then reversed, so byte 0 is
/// the least significant byte of the seed.
pub open spec fn seed_byte(seed: i64, i: nat) -> u8 {
    byte_of(seed_bits(seed), i)
}

/// How many of the lowest `k` bytes of `u` are non-zero.
pub open spec fn nonzero_bytes_upto(u: u64, k: nat) -> nat
    decreases k,
{
    if k == 0 {
        0
    } else {
        nonzero_bytes_upto(u, (k - 1) as nat) + (if byte_of(u, (k - 1) as nat) != 0 {
            1nat
        } else {
            0nat
        })
    }
}

/// How many of the eight derived bytes of the seed are non-zero.
pub open spec fn nonzero_seed_bytes(seed: i64) -> nat {
    nonzero_bytes_upto(seed_bits(seed), 8)
}

/// The fixed default state: unit rods, double-unit masses, five-unit
/// displacements, and seed zero.
pub open spec fn spec_default() -> DoublePendulum {
    DoublePendulum {
        length_of_rod: (10u16, 10u16),
        mass_of_rod: (20u16, 20u16),
        tension_of_rod: (50u16, 50u16),
        gravity: GRAVITY_TENTHS,
        seed: 0i64,
    }
}

/// What seeded construction yields: the default state when fewer than six
/// of the derived bytes are non-zero, and otherwise one parameter per byte,
/// in derivation order (bytes six and seven are unused).
pub open spec fn spec_new(seed: i64) -> DoublePendulum {
    if nonzero_seed_bytes(seed) < 6 {
        spec_default()
    } else {
        DoublePendulum {
            length_of_rod: (seed_byte(seed, 0) as u16, seed_byte(seed, 1) as u16),
            mass_of_rod: (seed_byte(seed, 2) as u16, seed_byte(seed, 3) as u16),
            tension_of_rod: (seed_byte(seed, 4) as u16, seed_byte(seed, 5) as u16),
            gravity: GRAVITY_TENTHS,
            seed: seed,
        }
    }
}

impl Default for DoublePendulum {
    /// The fixed default state.
    fn default() -> (p: Self)
        ensures
            p == spec_default(),
    {
        DoublePendulum {
            length_of_rod: (10, 10),
            mass_of_rod: (20, 20),
            tension_of_rod: (50, 50),
            gravity: GRAVITY_TENTHS,
            seed: 0,
        }
    }
}

impl DoublePendulum {
    /// Derives a state from a seed: the seed's bytes, least significant
    /// first, fill the six parameters one byte each, unless fewer than six
    /// of the eight bytes are non-zero, in which case the default state is
    /// returned in full (including its zero seed).
    pub fn new(seed: i64) -> (p: DoublePendulum)
        ensures
            p == spec_new(seed),
    {
        let unsigned: u64 = if seed >= 0 {
            seed as u64
        } else {
            ((seed as i128) + 0x1_0000_0000_0000_0000_i128) as u64
        };
        assert(unsigned == seed_bits(seed));

        let mut bytes: Vec<u8> = Vec::new();
        let mut acc: u64 = unsigned;
        let mut k: usize = 0;
        while k < 8
            invariant
                k <= 8,
                acc == dropped_bytes(unsigned, k as nat),
                bytes@.len() == k,
                forall|j: int| 0 <= j < k ==> bytes@[j] == byte_of(unsigned, j as nat),
            decreases 8 - k,
        {
            bytes.push((acc % 256) as u8);
            acc = acc / 256;
            k = k + 1;
        }

        let mut count: usize = 0;
        let mut j: usize = 0;
        while j < 8
            invariant
                j <= 8,
                count <= j,
                count == nonzero_bytes_upto(unsigned, j as nat),
                bytes@.len() == 8,
                forall|m: int| 0 <= m < 8 ==> bytes@[m] == byte_of(unsigned, m as nat),
            decreases 8 - j,
        {
            if bytes[j] != 0 {
                count = count + 1;
            }
            j = j + 1;
        }

        if count < 6 {
            return Self::default();
        }

        DoublePendulum {
            length_of_rod: (bytes[0] as u16, bytes[1] as u16),
            mass_of_rod: (bytes[2] as u16, bytes[3] as u16),
            tension_of_rod: (bytes[4] as u16, bytes[5] as u16),
            gravity: GRAVITY_TENTHS,
            seed: seed,
        }
    }
}

/// Law: a seed with fewer than six non-zero derived bytes yields the
/// default state in every field.
pub proof fn lemma_low_entropy_defaults(seed: i64)
    requires
        nonzero_seed_bytes(seed) < 6,
    ensures
        spec_new(seed) == spec_default(),
{
}

/// Law: two seeds that both carry enough entropy and differ in one of the
/// six parameter bytes yield states that differ in the corresponding
/// physical parameters.
pub proof fn lemma_param_bytes_injective(s1: i64, s2: i64, i: nat)
    requires
        nonzero_seed_bytes(s1) >= 6,
        nonzero_seed_bytes(s2) >= 6,
        i < 6,
        seed_byte(s1, i) != seed_byte(s2, i),
    ensures
        spec_new(s1).length_of_rod != spec_new(s2).length_of_rod
            || spec_new(s1).mass_of_rod != spec_new(s2).mass_of_rod
            || spec_new(s1).tension_of_rod != spec_new(s2).tension_of_rod,
{
    if i == 0 || i == 1 {
        assert(spec_new(s1).length_of_rod != spec_new(s2).length_of_rod);
    } else if i == 2 || i == 3 {
        assert(spec_new(s1).mass_of_rod != spec_new(s2).mass_of_rod);
    } else {
        assert(spec_new(s1).tension_of_rod != spec_new(s2).tension_of_rod);
    }
}

} // verus!
