//! Expansion of a textual seed into simulation parameters.
//!
//! The seed's bytes form a key that is partitioned into four quarter
//! blocks. Sixty-four diffusion rounds each combine the quarter blocks
//! byte-wise by XOR, keeping only the value written at the last byte index
//! of a round; the rounds' values are weighted by descending powers of two
//! and summed with wrapping 64-bit arithmetic, then normalized by fixed
//! shifts. Overflow in the sums is deliberate and silent.

use vstd::prelude::*;
use vstd::string::StringSliceAdditionalSpecFns;

verus! {

/// Key length: the minimum number of seed bytes, and exactly how many of
/// them the expansion reads. The whole key is used; no trailing byte is cut
/// off before partitioning.
pub const KEY_LEN: usize = 32;

/// Length of each of the four quarter blocks of the key.
pub const QUARTER_LEN: usize = 8;

/// How many diffusion rounds run over the quarter blocks.
pub const ROUNDS: usize = 64;

/// Rejection of a seed whose rendered form has fewer than [`KEY_LEN`] bytes.
#[derive(Clone, Copy, Debug, PartialEq, Eq)]
pub struct SeedTooShort;

/// The seven parameters that seed expansion derives, each the result of an
/// independent diffusion over the key's quarter blocks.
#[derive(Clone, Copy, Debug, PartialEq, Eq)]
pub struct ExpandedSeed {
    pub length_first: u64,
    pub length_second: u64,
    pub mass_first: u64,
    pub mass_second: u64,
    pub tension_first: u64,
    pub tension_second: u64,
    pub radius: u64,
}

/// The wrapping weighted total of a round value `v` after the first
/// `rounds` rounds: round `r` contributes `v` shifted left by `63 - r`.
/// Every round computes the same value, because the key never changes.
pub open spec fn round_total(v: u8, rounds: int) -> u64
    recommends
        0 <= rounds <= 64,
    decreases rounds,
{
    if rounds <= 0 {
        0u64
    } else {
        round_total(v, rounds - 1).wrapping_add((v as u64) << ((64 - rounds) as u64))
    }
}

/// The closed form of the full 64-round total: the weights sum to one less
/// than two to the sixty-fourth power, so the wrapping total is the
/// additive inverse of the round value.
pub open spec fn diffusion_total(v: u8) -> u64 {
    if v == 0 {
        0u64
    } else {
        (0x1_0000_0000_0000_0000 - v) as u64
    }
}

/// A length or mass parameter after normalization: the total divided by
/// two to the sixty-third power.
pub open spec fn unit_part(v: u8) -> u64 {
    if v == 0 {
        0u64
    } else {
        1u64
    }
}

/// A tension parameter after normalization: three times the unit part.
pub open spec fn tension_part(v: u8) -> u64 {
    if v == 0 {
        0u64
    } else {
        3u64
    }
}

/// The radius parameter after its coarser normalization: the total divided
/// by two to the fifty-ninth power.
pub open spec fn radius_part(v: u8) -> u64 {
    if v == 0 {
        0u64
    } else {
        31u64
    }
}

/// What expansion yields for a seed of at least [`KEY_LEN`] bytes: with the
/// key partitioned into quarter blocks, each parameter diffuses the XOR of
/// two quarter-block bytes at the last in-block index, and the radius
/// diffuses that byte of the first quarter block alone.
pub open spec fn spec_expand(seed: Seq<u8>) -> ExpandedSeed
    recommends
        seed.len() >= KEY_LEN,
{
    ExpandedSeed {
        length_first: unit_part(seed[7] ^ seed[15]),
        length_second: unit_part(seed[7] ^ seed[23]),
        mass_first: unit_part(seed[7] ^ seed[31]),
        mass_second: unit_part(seed[15] ^ seed[23]),
        tension_first: tension_part(seed[15] ^ seed[31]),
        tension_second: tension_part(seed[23] ^ seed[31]),
        radius: radius_part(seed[7]),
    }
}

/// The closed form of the wrapping total while the rounds still run: after
/// `j` rounds the total is the additive inverse of the round value shifted
/// left by `64 - j`.
spec fn partial_total(v: u8, j: int) -> u64
    recommends
        0 <= j <= 64,
{
    if v == 0 || j <= 0 {
        0u64
    } else {
        0u64.wrapping_sub((v as u64) << ((64 - j) as u64))
    }
}

proof fn lemma_shl_zero(s: u64)
    requires
        s < 64,
    ensures
        0u64 << s == 0u64,
{
    assert(0u64 << s == 0u64) by (bit_vector)
        requires
            s < 64,
    ;
}

proof fn lemma_shl_step(v: u64, s: u64)
    requires
        s < 63,
    ensures
        v << (s + 1) == (v << s) << 1u64,
{
    assert(v << (s + 1) == (v << s) << 1u64) by (bit_vector)
        requires
            s < 63,
    ;
}

proof fn lemma_shl_one_doubles(x: u64)
    ensures
        x < 0x8000_0000_0000_0000u64 ==> x << 1u64 == 2 * x,
        x >= 0x8000_0000_0000_0000u64 ==> x << 1u64 == 2 * x - 0x1_0000_0000_0000_0000,
{
    assert((x < 0x8000_0000_0000_0000u64 ==> x << 1u64 == 2 * x) && (x
        >= 0x8000_0000_0000_0000u64 ==> x << 1u64 == 2 * x - 0x1_0000_0000_0000_0000))
        by (bit_vector);
}

proof fn lemma_shl_63(v: u64)
    ensures
        v << 63u64 == 0u64 || v << 63u64 == 0x8000_0000_0000_0000u64,
{
    assert(v << 63u64 == 0u64 || v << 63u64 == 0x8000_0000_0000_0000u64) by (bit_vector);
}

proof fn lemma_round_total_closed_upto(v: u8, j: int)
    requires
        0 <= j <= 64,
    ensures
        round_total(v, j) == partial_total(v, j),
    decreases j,
{
    if j <= 0 {
    } else {
        lemma_round_total_closed_upto(v, j - 1);
        let s: u64 = (64 - j) as u64;
        if v == 0 {
            lemma_shl_zero(s);
        } else if j == 1 {
            lemma_shl_63(v as u64);
        } else {
            lemma_shl_step(v as u64, s);
            lemma_shl_one_doubles((v as u64) << s);
        }
    }
}

proof fn lemma_round_total_closed(v: u8)
    ensures
        round_total(v, 64) == diffusion_total(v),
{
    lemma_round_total_closed_upto(v, 64);
    if v != 0 {
        let x: u64 = v as u64;
        assert(x << 0u64 == x) by (bit_vector);
    }
}

proof fn lemma_total_shifts(v: u8)
    ensures
        diffusion_total(v) >> 63u64 == unit_part(v),
        (diffusion_total(v) >> 63u64) * 3 == tension_part(v),
        diffusion_total(v) >> 59u64 == radius_part(v),
{
    if v == 0 {
        assert(0u64 >> 63u64 == 0u64 && 0u64 >> 59u64 == 0u64) by (bit_vector);
    } else {
        let t: u64 = diffusion_total(v);
        assert(t >= 0xFFFF_FFFF_FFFF_FF01u64);
        assert(t >> 63u64 == 1u64 && t >> 59u64 == 31u64) by (bit_vector)
            requires
                t >= 0xFFFF_FFFF_FFFF_FF01u64,
        ;
    }
}

/// Expands a seed, given as its rendered bytes, into the seven simulation
/// parameters. Fails exactly when the seed is shorter than [`KEY_LEN`]
/// bytes; a seed of exactly [`KEY_LEN`] bytes succeeds.
pub fn expand_seed(seed: &[u8]) -> (r: Result<ExpandedSeed, SeedTooShort>)
    ensures
        match r {
            Ok(e) => seed@.len() >= KEY_LEN && e == spec_expand(seed@),
            Err(_) => seed@.len() < KEY_LEN,
        },
{
    if seed.len() < KEY_LEN {
        return Err(SeedTooShort);
    }

    let ghost v_lf: u8 = seed@[7] ^ seed@[15];
    let ghost v_ls: u8 = seed@[7] ^ seed@[23];
    let ghost v_mf: u8 = seed@[7] ^ seed@[31];
    let ghost v_ms: u8 = seed@[15] ^ seed@[23];
    let ghost v_tf: u8 = seed@[15] ^ seed@[31];
    let ghost v_ts: u8 = seed@[23] ^ seed@[31];
    let ghost v_rad: u8 = seed@[7];

    let mut t_lf: u64 = 0;
    let mut t_ls: u64 = 0;
    let mut t_mf: u64 = 0;
    let mut t_ms: u64 = 0;
    let mut t_tf: u64 = 0;
    let mut t_ts: u64 = 0;
    let mut t_rad: u64 = 0;

    let mut r: usize = 0;
    while r < ROUNDS
        invariant
            r <= 64,
            seed@.len() >= 32,
            v_lf == seed@[7] ^ seed@[15],
            v_ls == seed@[7] ^ seed@[23],
            v_mf == seed@[7] ^ seed@[31],
            v_ms == seed@[15] ^ seed@[23],
            v_tf == seed@[15] ^ seed@[31],
            v_ts == seed@[23] ^ seed@[31],
            v_rad == seed@[7],
            t_lf == round_total(v_lf, r as int),
            t_ls == round_total(v_ls, r as int),
            t_mf == round_total(v_mf, r as int),
            t_ms == round_total(v_ms, r as int),
            t_tf == round_total(v_tf, r as int),
            t_ts == round_total(v_ts, r as int),
            t_rad == round_total(v_rad, r as int),
        decreases 64 - r,
    {
        let mut lf: u8 = 0;
        let mut ls: u8 = 0;
        let mut mf: u8 = 0;
        let mut ms: u8 = 0;
        let mut tf: u8 = 0;
        let mut ts: u8 = 0;
        let mut rad: u8 = 0;

        // the inner pass deliberately overwrites: only the value written at
        // the last in-block index survives as this round's contribution
        let mut i: usize = 0;
        while i < QUARTER_LEN
            invariant
                i <= 8,
                seed@.len() >= 32,
                i > 0 ==> lf == seed@[i - 1] ^ seed@[i + 7],
                i > 0 ==> ls == seed@[i - 1] ^ seed@[i + 15],
                i > 0 ==> mf == seed@[i - 1] ^ seed@[i + 23],
                i > 0 ==> ms == seed@[i + 7] ^ seed@[i + 15],
                i > 0 ==> tf == seed@[i + 7] ^ seed@[i + 23],
                i > 0 ==> ts == seed@[i + 15] ^ seed@[i + 23],
                i > 0 ==> rad == seed@[i - 1],
            decreases 8 - i,
        {
            lf = seed[i] ^ seed[i + 8];
            ls = seed[i] ^ seed[i + 16];
            mf = seed[i] ^ seed[i + 24];
            ms = seed[i + 8] ^ seed[i + 16];
            tf = seed[i + 8] ^ seed[i + 24];
            ts = seed[i + 16] ^ seed[i + 24];
            rad = seed[i];
            i = i + 1;
        }

        let shift: u64 = (63 - r) as u64;
        t_lf = t_lf.wrapping_add((lf as u64) << shift);
        t_ls = t_ls.wrapping_add((ls as u64) << shift);
        t_mf = t_mf.wrapping_add((mf as u64) << shift);
        t_ms = t_ms.wrapping_add((ms as u64) << shift);
        t_tf = t_tf.wrapping_add((tf as u64) << shift);
        t_ts = t_ts.wrapping_add((ts as u64) << shift);
        t_rad = t_rad.wrapping_add((rad as u64) << shift);
        r = r + 1;
    }

    proof {
        lemma_round_total_closed(v_lf);
        lemma_round_total_closed(v_ls);
        lemma_round_total_closed(v_mf);
        lemma_round_total_closed(v_ms);
        lemma_round_total_closed(v_tf);
        lemma_round_total_closed(v_ts);
        lemma_round_total_closed(v_rad);
        lemma_total_shifts(v_lf);
        lemma_total_shifts(v_ls);
        lemma_total_shifts(v_mf);
        lemma_total_shifts(v_ms);
        lemma_total_shifts(v_tf);
        lemma_total_shifts(v_ts);
        lemma_total_shifts(v_rad);
    }

    Ok(ExpandedSeed {
        length_first: t_lf >> 63u64,
        length_second: t_ls >> 63u64,
        mass_first: t_mf >> 63u64,
        mass_second: t_ms >> 63u64,
        tension_first: (t_tf >> 63u64) * 3,
        tension_second: (t_ts >> 63u64) * 3,
        radius: t_rad >> 59u64,
    })
}

/// Expands a textual seed: its rendered bytes form the key, and their
/// count — not the character count — is what the length requirement is
/// measured against.
pub fn expand_seed_text(seed: &str) -> (r: Result<ExpandedSeed, SeedTooShort>)
    ensures
        match r {
            Ok(e) => seed.spec_bytes().len() >= KEY_LEN && e == spec_expand(seed.spec_bytes()),
            Err(_) => seed.spec_bytes().len() < KEY_LEN,
        },
{
    expand_seed(seed.as_bytes())
}

/// The decimal rendering of `n` as ASCII digits, most significant first.
pub open spec fn spec_decimal(n: nat) -> Seq<u8>
    decreases n,
{
    if n < 10 {
        seq![(48 + n) as u8]
    } else {
        spec_decimal(n / 10).push((48 + n % 10) as u8)
    }
}

/// Renders a numeric seed as its decimal text, so that it can be offered
/// to seed expansion like any other textual seed.
pub fn decimal_digits(n: u64) -> (r: Vec<u8>)
    ensures
        r@ == spec_decimal(n as nat),
{
    let mut rev: Vec<u8> = Vec::new();
    let mut acc: u64 = n;
    rev.push(48 + (acc % 10) as u8);
    acc = acc / 10;
    proof {
        assert(rev@.reverse() =~= rev@);
    }
    while acc > 0
        invariant
            acc > 0 ==> spec_decimal(n as nat) == spec_decimal(acc as nat) + rev@.reverse(),
            acc == 0 ==> spec_decimal(n as nat) == rev@.reverse(),
        decreases acc,
    {
        let ghost before: Seq<u8> = rev@;
        let digit: u8 = 48 + (acc % 10) as u8;
        rev.push(digit);
        proof {
            assert(rev@.reverse() =~= seq![digit] + before.reverse());
            assert(acc / 10 > 0 ==> spec_decimal(acc as nat) + before.reverse() == (spec_decimal(
                acc as nat / 10,
            ) + seq![digit]) + before.reverse());
            assert((spec_decimal(acc as nat / 10) + seq![digit]) + before.reverse()
                =~= spec_decimal(acc as nat / 10) + (seq![digit] + before.reverse()));
            assert(acc / 10 == 0 ==> spec_decimal(acc as nat) =~= seq![digit]);
        }
        acc = acc / 10;
    }
    let mut out: Vec<u8> = Vec::new();
    let mut m: usize = rev.len();
    while m > 0
        invariant
            m <= rev@.len(),
            out@ =~= rev@.subrange(m as int, rev@.len() as int).reverse(),
        decreases m,
    {
        m = m - 1;
        out.push(rev[m]);
        proof {
            assert(out@ =~= rev@.subrange(m as int, rev@.len() as int).reverse());
        }
    }
    proof {
        assert(rev@.subrange(0, rev@.len() as int) =~= rev@);
        assert(out@ =~= spec_decimal(n as nat));
    }
    out
}

/// Expands the rendered seed and reduces it to a single value. The
/// reduction is not wired up: the expansion's outcome is discarded and the
/// function yields nothing, on failure and on success alike.
pub fn random_seed(seed: &[u8]) -> (r: Option<u64>)
    ensures
        r is None,
{
    match expand_seed(seed) {
        Ok(_) => None,
        Err(_) => None,
    }
}

} // verus!
