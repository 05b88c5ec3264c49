//! Quantities behave as they should.

use vstd::arithmetic::div_mod::lemma_div_denominator;
use vstd::arithmetic::div_mod::lemma_fundamental_div_mod;
use vstd::arithmetic::div_mod::lemma_fundamental_div_mod_converse;
use vstd::arithmetic::div_mod::lemma_small_mod;
use vstd::arithmetic::power2::lemma2_to64;
use vstd::arithmetic::power2::lemma_pow2_pos;
use vstd::arithmetic::power2::lemma_pow2_unfold;
use vstd::arithmetic::power2::pow2;
use vstd::prelude::*;

use crate::block::rewards::subsidy;
use crate::difficulty::max_digest_number;
use crate::difficulty::target_number;
use crate::difficulty::Difficulty;
use crate::difficulty::ProofOfWork;
use crate::digest::Digest;
use crate::field::P;
use crate::height::BlockHeight;
use crate::timestamp::Timestamp;
use crate::timestamp::MILLIS_PER_DAY;
use crate::timestamp::MILLIS_PER_HOUR;
use crate::timestamp::MILLIS_PER_MINUTE;
use crate::timestamp::MILLIS_PER_MONTH;
use crate::timestamp::MILLIS_PER_SECOND;
use crate::timestamp::MILLIS_PER_YEAR;

verus! {

/// Adding a duration that does not lead beyond the end of time moves a point in time by exactly
/// that duration, and the time between the two points is the duration.
pub proof fn lemma_time_passes(start: Timestamp, duration: Timestamp)
    requires
        start.millis + duration.millis < P,
    ensures
        start.spec_plus(duration).millis == start.millis + duration.millis,
        start.spec_plus(duration).spec_minus(start) == duration,
        duration.spec_plus(start) == start.spec_plus(duration),
{
    lemma_small_mod((start.millis + duration.millis) as nat, P as nat);
    lemma_small_mod(duration.millis as nat, P as nat);
}

/// The time from an earlier to a later point is the difference of the two.
pub proof fn lemma_time_between(earlier: Timestamp, later: Timestamp)
    requires
        earlier.millis <= later.millis < P,
    ensures
        later.spec_minus(earlier).millis == later.millis - earlier.millis,
{
    lemma_small_mod((later.millis - earlier.millis) as nat, P as nat);
}

/// Every height but the largest one is followed by the one that is larger by one.
pub proof fn lemma_heights_count_up(height: BlockHeight)
    requires
        height.value + 1 < P,
    ensures
        height.spec_next().value == height.value + 1,
{
    lemma_small_mod((height.value + 1) as nat, P as nat);
}

/// A height belongs to the generation within whose 160,815 heights it lies.
pub proof fn lemma_generations_partition_heights(height: BlockHeight, generation: int)
    ensures
        height.spec_generation() == generation <==> generation * 160_815 <= height.value < (
        generation + 1) * 160_815,
{
    lemma_fundamental_div_mod(height.value as int, 160_815);
    if generation * 160_815 <= height.value && height.value < (generation + 1) * 160_815 {
        lemma_fundamental_div_mod_converse(
            height.value as int,
            160_815,
            generation,
            height.value - generation * 160_815,
        );
    }
}

/// The subsidy is 128 coins for the whole first generation, and each generation later it is half of
/// what it was, rounded down.
pub proof fn lemma_subsidy_is_halved(height: BlockHeight, later: BlockHeight)
    requires
        later.value == height.value + 160_815,
    ensures
        height.value < 160_815 ==> subsidy(height) == 512_000_000_000_000_000_000_000_000_000_000,
        subsidy(later) == subsidy(height) / 2,
{
    let i: int = 512_000_000_000_000_000_000_000_000_000_000;
    let g = height.spec_generation();
    lemma_fundamental_div_mod(height.value as int, 160_815);
    lemma_generations_partition_heights(later, g + 1);
    lemma2_to64();
    if height.value < 160_815 {
        lemma_generations_partition_heights(height, 0);
        assert(i / 1 == i);
    }
    lemma_pow2_unfold((g + 1) as nat);
    lemma_pow2_pos(g as nat);
    lemma_div_denominator(i, pow2(g as nat) as int, 2);
}

/// A digest is at most the target of a difficulty exactly if the product of the two is at most the
/// largest digest. So one in as many digests as the difficulty says solves the puzzle.
pub proof fn lemma_target_meaning(number: int, difficulty: int)
    requires
        0 <= number <= max_digest_number(),
        0 <= difficulty,
    ensures
        number <= target_number(difficulty) <==> number * difficulty <= max_digest_number(),
        max_digest_number() == P as int * P as int * P as int * P as int * P as int - 1,
{
    let m = max_digest_number();
    if difficulty == 0 {
        assert(number * 0 == 0);
    } else {
        let t = m / difficulty;
        lemma_fundamental_div_mod(m, difficulty);
        let r = m % difficulty;
        assert(m == difficulty * t + r && 0 <= r < difficulty);
        assert(number <= t ==> number * difficulty <= m) by (nonlinear_arith)
            requires
                m == difficulty * t + r,
                0 <= r < difficulty,
        ;
        assert(number > t ==> number * difficulty > m) by (nonlinear_arith)
            requires
                m == difficulty * t + r,
                0 <= r < difficulty,
        ;
    }
}

/// Digests are ordered by their most significant elements first.
pub proof fn lemma_digest_order(a: Digest, b: Digest)
    requires
        a.canonical(),
        b.canonical(),
    ensures
        0 <= a.number() <= max_digest_number(),
        a.number() < b.number() <==> {
            ||| a.e4 < b.e4
            ||| a.e4 == b.e4 && a.e3 < b.e3
            ||| a.e4 == b.e4 && a.e3 == b.e3 && a.e2 < b.e2
            ||| a.e4 == b.e4 && a.e3 == b.e3 && a.e2 == b.e2 && a.e1 < b.e1
            ||| a.e4 == b.e4 && a.e3 == b.e3 && a.e2 == b.e2 && a.e1 == b.e1 && a.e0 < b.e0
        },
        a.number() == b.number() <==> a == b,
{
    lemma_small_mod(a.e0 as nat, P as nat);
    lemma_small_mod(a.e1 as nat, P as nat);
    lemma_small_mod(a.e2 as nat, P as nat);
    lemma_small_mod(a.e3 as nat, P as nat);
    lemma_small_mod(a.e4 as nat, P as nat);
    lemma_small_mod(b.e0 as nat, P as nat);
    lemma_small_mod(b.e1 as nat, P as nat);
    lemma_small_mod(b.e2 as nat, P as nat);
    lemma_small_mod(b.e3 as nat, P as nat);
    lemma_small_mod(b.e4 as nat, P as nat);
}

/// The number of a digest is below the number of digests.
pub proof fn lemma_digest_number_bound(d: Digest)
    ensures
        0 <= d.number() <= max_digest_number(),
{
}

/// What numbers difficulties and accumulated proof-of-work stand for.
pub proof fn lemma_limbs(d: Difficulty, w: ProofOfWork)
    ensures
        d.number() == d.lo + 0x1_0000_0000_0000_0000 * d.mid
            + 0x1_0000_0000_0000_0000_0000_0000_0000_0000 * d.hi,
        w.number() == w.sum.lo + 0x1_0000_0000_0000_0000 * w.sum.mid
            + 0x1_0000_0000_0000_0000_0000_0000_0000_0000 * w.sum.hi,
{
}

/// The units in which durations are given. A year has 365 days, and a month is the twelfth part of
/// it.
pub proof fn lemma_units_of_time()
    ensures
        MILLIS_PER_SECOND == 1_000,
        MILLIS_PER_MINUTE == 60 * MILLIS_PER_SECOND,
        MILLIS_PER_HOUR == 60 * MILLIS_PER_MINUTE,
        MILLIS_PER_DAY == 24 * MILLIS_PER_HOUR,
        MILLIS_PER_YEAR == 365 * MILLIS_PER_DAY,
        12 * MILLIS_PER_MONTH == MILLIS_PER_YEAR,
{
}

/// Reducing the elements of a digest makes it canonical and does not change what it stands for. A
/// canonical digest is left alone.
pub proof fn lemma_reduced_digest(d: Digest)
    ensures
        d.reduced().canonical(),
        d.reduced().number() == d.number(),
        d.canonical() ==> d.reduced() == d,
        d.canonical() ==> d.number() == d.e0 + P as int * (d.e1 + P as int * (d.e2 + P as int * (
        d.e3 + P as int * d.e4))),
{
    let r = d.reduced();
    lemma_small_mod(r.e0 as nat, P as nat);
    lemma_small_mod(r.e1 as nat, P as nat);
    lemma_small_mod(r.e2 as nat, P as nat);
    lemma_small_mod(r.e3 as nat, P as nat);
    lemma_small_mod(r.e4 as nat, P as nat);
    if d.canonical() {
        lemma_small_mod(d.e0 as nat, P as nat);
        lemma_small_mod(d.e1 as nat, P as nat);
        lemma_small_mod(d.e2 as nat, P as nat);
        lemma_small_mod(d.e3 as nat, P as nat);
        lemma_small_mod(d.e4 as nat, P as nat);
    }
}

} // verus!
