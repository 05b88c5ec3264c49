//! Proof-of-work, and the choice between forks.

use vstd::arithmetic::div_mod::lemma_div_is_ordered;
use vstd::arithmetic::div_mod::lemma_div_is_ordered_by_denominator;
use vstd::arithmetic::logarithm::lemma_log0;
use vstd::arithmetic::logarithm::lemma_log_nonnegative;
use vstd::arithmetic::logarithm::lemma_log_pow;
use vstd::arithmetic::logarithm::lemma_log_s;
use vstd::arithmetic::logarithm::log;
use vstd::arithmetic::power2::lemma_pow2;
use vstd::arithmetic::power2::lemma_pow2_pos;
use vstd::arithmetic::power2::lemma_pow2_strictly_increases;
use vstd::arithmetic::power2::pow2;
use vstd::bits::lemma_u64_shr_is_div;
use vstd::prelude::*;

use crate::block::Block;
use crate::block::BlockHeader;
use crate::difficulty::max_digest_number;
use crate::difficulty::target_number;
use crate::difficulty::Difficulty;
use crate::digest::digest_at_most;
use crate::digest::Digest;
use crate::network::Network;
use crate::timestamp::Timestamp;

verus! {

/// By how much the puzzle becomes easier when no solution is found.
#[derive(Clone, Copy, Debug, PartialEq, Eq, Structural)]
pub struct DifficultyCorrection {
    /// The number of target block intervals after which the difficulty is corrected.
    pub wait: u64,
    /// The factor by which it is then reduced.
    pub factor: u64,
}

impl DifficultyCorrection {
    pub open spec fn well_formed(self) -> bool {
        self.wait > 0 && self.factor > 0
    }
}

/// Whether the difficulty is reset between two blocks.
pub open spec fn resets_difficulty(
    network: Network,
    current_block_timestamp: Timestamp,
    previous_block_timestamp: Timestamp,
) -> bool {
    match network.difficulty_reset_interval {
        Some(interval) => current_block_timestamp.spec_minus(previous_block_timestamp).millis
            >= interval.millis,
        None => false,
    }
}

/// How many bits are cut off the difficulty when a block comes this long after its parent.
pub open spec fn correction_shift(
    delta_t: Timestamp,
    target_block_interval: Timestamp,
    correction: DifficultyCorrection,
) -> int {
    let excess_multiple = delta_t.millis as int / target_block_interval.millis as int;
    log(2, correction.factor as int) * (excess_multiple / pow2(
        log(2, correction.wait as int) as nat,
    ) as int)
}

/// The difficulty that remains when a block comes this long after its parent.
pub open spec fn effective_difficulty(
    difficulty: int,
    delta_t: Timestamp,
    target_block_interval: Timestamp,
    correction: DifficultyCorrection,
) -> int {
    difficulty / pow2(
        correction_shift(delta_t, target_block_interval, correction) as nat,
    ) as int
}

/// The logarithm of a number to the base of two, rounded down.
fn floor_log2(number: u64) -> (l: u64)
    requires
        number > 0,
    ensures
        l == log(2, number as int),
        l < 64,
{
    let mut rest: u64 = number;
    let mut l: u64 = 0;
    proof {
        vstd::arithmetic::power2::lemma2_to64();
    }
    while rest >= 2
        invariant
            rest > 0,
            l + log(2, rest as int) == log(2, number as int),
            rest * pow2(l as nat) <= number,
            l < 64,
        decreases rest,
    {
        proof {
            lemma_log_s(2, rest as int);
            vstd::arithmetic::power2::lemma_pow2_unfold((l + 1) as nat);
            assert((rest / 2) * (2 * pow2(l as nat)) <= rest * pow2(l as nat)) by (nonlinear_arith)
                requires
                    rest >= 0,
                    pow2(l as nat) >= 0,
            ;
            if l + 1 >= 64 {
                assert(l + 1 == 64);
                vstd::arithmetic::power2::lemma2_to64();
                assert((rest / 2) * pow2(64) >= pow2(64)) by (nonlinear_arith)
                    requires
                        rest >= 2,
                        pow2(64) >= 0,
                ;
                assert(false);
            }
        }
        rest = rest / 2;
        l = l + 1;
    }
    proof {
        lemma_log0(2, rest as int);
    }
    l
}

/// Whether a block with the given digest and header solves its proof-of-work puzzle.
pub open spec fn is_solved(
    digest: Digest,
    header: BlockHeader,
    network: Network,
    previous: BlockHeader,
    correction: DifficultyCorrection,
) -> bool {
    let delta_t = header.timestamp.spec_minus(previous.timestamp);
    ||| resets_difficulty(network, header.timestamp, previous.timestamp) && header.difficulty
        == network.genesis_difficulty
    ||| digest.number() <= target_number(previous.difficulty.number())
    ||| digest.number() <= target_number(
        effective_difficulty(
            previous.difficulty.number(),
            delta_t,
            network.target_block_interval,
            correction,
        ),
    )
}

/// Whether a block with the given digest and header solves its proof-of-work puzzle.
pub fn solves(
    digest: &Digest,
    header: &BlockHeader,
    network: &Network,
    previous_block_header: &BlockHeader,
    correction: &DifficultyCorrection,
) -> (r: bool)
    requires
        network.well_formed(),
        correction.well_formed(),
    ensures
        r == is_solved(*digest, *header, *network, *previous_block_header, *correction),
{
    if Block::should_reset_difficulty(
        network,
        header.timestamp,
        previous_block_header.timestamp,
    ) && header.difficulty == network.genesis_difficulty {
        return true;
    }
    let threshold = previous_block_header.difficulty.target();
    if digest_at_most(digest, &threshold) {
        return true;
    }
    let delta_t = header.timestamp.minus(previous_block_header.timestamp);
    let excess_multiple: u64 = delta_t.millis / network.target_block_interval.millis;
    let wait_bits: u64 = floor_log2(correction.wait);
    let factor_bits: u64 = floor_log2(correction.factor);
    let excess_waits: u64 = excess_multiple >> wait_bits;
    proof {
        lemma_u64_shr_is_div(excess_multiple, wait_bits);
        assert(0 <= factor_bits * excess_waits <= 64 * 0xffff_ffff_ffff_ffff)
            by (nonlinear_arith)
            requires
                0 <= factor_bits < 64,
                0 <= excess_waits <= 0xffff_ffff_ffff_ffff,
        ;
    }
    let shift: u128 = factor_bits as u128 * excess_waits as u128;
    let effective: Difficulty = if shift < 160 {
        previous_block_header.difficulty.shift_right(shift as u64)
    } else {
        let zero: Difficulty = previous_block_header.difficulty.shift_right(160);
        proof {
            let d = previous_block_header.difficulty.number();
            lemma_pow2_pos(160);
            if shift > 160 {
                lemma_pow2_strictly_increases(160, shift as nat);
            }
            lemma_div_is_ordered_by_denominator(d, pow2(160) as int, pow2(shift as nat) as int);
            crate::difficulty::lemma_shift_by_width(previous_block_header.difficulty);
            lemma_pow2_pos(shift as nat);
            vstd::arithmetic::div_mod::lemma_div_pos_is_pos(d, pow2(shift as nat) as int);
        }
        zero
    };
    assert(shift == correction_shift(delta_t, network.target_block_interval, *correction));
    digest_at_most(digest, &effective.target())
}

impl Block {
    /// Whether the difficulty is to be reset.
    ///
    /// Only networks that define a reset interval, typically test nets, ever do so. They do it
    /// whenever the interval between a block and its parent reaches the reset interval.
    pub fn should_reset_difficulty(
        network: &Network,
        current_block_timestamp: Timestamp,
        previous_block_timestamp: Timestamp,
    ) -> (r: bool)
        ensures
            r == resets_difficulty(*network, current_block_timestamp, previous_block_timestamp),
    {
        match network.difficulty_reset_interval {
            Some(interval) => current_block_timestamp.minus(previous_block_timestamp).millis
                >= interval.millis,
            None => false,
        }
    }

    /// Whether the block solves its proof-of-work puzzle.
    pub open spec fn solves_puzzle(
        self,
        network: Network,
        previous: BlockHeader,
        correction: DifficultyCorrection,
    ) -> bool {
        is_solved(self.spec_hash(), self.spec_header(), network, previous, correction)
    }

    /// Whether the proof-of-work puzzle was solved.
    ///
    /// The digest of the block must not exceed the target that corresponds to the difficulty of
    /// the previous block. Each time that the interval between the two reaches another multiple of
    /// `correction.wait` target block intervals, that difficulty is effectively reduced by the
    /// factor `correction.factor`. A block that rightly resets the difficulty needs no
    /// proof-of-work.
    pub fn has_proof_of_work(
        &self,
        network: &Network,
        previous_block_header: &BlockHeader,
        correction: &DifficultyCorrection,
    ) -> (r: bool)
        requires
            network.well_formed(),
            correction.well_formed(),
        ensures
            r == self.solves_puzzle(*network, *previous_block_header, *correction),
    {
        solves(&self.hash(), self.header(), network, previous_block_header, correction)
    }

    /// Whether the rule prefers the incoming block to the current tip.
    pub open spec fn prefers_incoming(current_tip: Block, incoming_block: Block) -> bool {
        if current_tip.spec_header().height != incoming_block.spec_header().height {
            current_tip.spec_header().cumulative_proof_of_work.number()
                < incoming_block.spec_header().cumulative_proof_of_work.number()
        } else {
            current_tip.spec_body().transaction_kernel.inputs@.len() == 0
                && incoming_block.spec_body().transaction_kernel.inputs@.len() > 0
        }
    }

    /// The fork choice rule: which of two blocks is more canonical.
    ///
    ///  - If the heights differ, it is the block with more accumulated proof-of-work.
    ///  - Otherwise, if exactly one of the blocks' transactions has no inputs, it is the other
    ///    one.
    ///  - Otherwise, it is the current tip.
    ///
    /// The blocks are supposed to be valid, and to have the accumulated proof-of-work that they
    /// declare.
    pub fn fork_choice_rule<'a>(current_tip: &'a Block, incoming_block: &'a Block) -> (r: &'a Block)
        ensures
            *r == if Block::prefers_incoming(*current_tip, *incoming_block) {
                *incoming_block
            } else {
                *current_tip
            },
            current_tip.spec_header().height == incoming_block.spec_header().height
                && current_tip.spec_body().transaction_kernel.inputs@.len() > 0 ==> *r
                == *current_tip,
    {
        if current_tip.header().height != incoming_block.header().height {
            if current_tip.header().cumulative_proof_of_work.at_least(
                &incoming_block.header().cumulative_proof_of_work,
            ) {
                current_tip
            } else {
                incoming_block
            }
        } else if current_tip.body().transaction_kernel.inputs.len() == 0
            && incoming_block.body().transaction_kernel.inputs.len() > 0 {
            incoming_block
        } else {
            current_tip
        }
    }
}

/// The fork choice rule does not go back and forth: a block that replaces another one is not
/// replaced by it in turn.
pub proof fn lemma_fork_choice_is_asymmetric(a: Block, b: Block)
    ensures
        !(Block::prefers_incoming(a, b) && Block::prefers_incoming(b, a)),
{
}

/// A lower difficulty has a higher target.
pub proof fn lemma_target_decreases_with_difficulty(lower: int, higher: int)
    requires
        0 <= lower <= higher,
    ensures
        target_number(higher) <= target_number(lower),
{
    let m = max_digest_number();
    assert(m >= 0);
    if lower > 0 {
        lemma_div_is_ordered_by_denominator(m, lower, higher);
    } else if higher > 0 {
        lemma_div_is_ordered_by_denominator(m, 1, higher);
        assert(m / 1 == m);
    }
}

/// Waiting longer never makes the puzzle harder: the effective difficulty does not increase with
/// the time since the parent, and so the target does not decrease.
pub proof fn lemma_waiting_does_not_hurt(
    difficulty: Difficulty,
    sooner: Timestamp,
    later: Timestamp,
    network: Network,
    correction: DifficultyCorrection,
)
    requires
        network.well_formed(),
        correction.well_formed(),
        sooner.millis <= later.millis,
    ensures
        ({
            let interval = network.target_block_interval;
            let at_first = effective_difficulty(difficulty.number(), sooner, interval, correction);
            let at_last = effective_difficulty(difficulty.number(), later, interval, correction);
            &&& 0 <= at_last <= at_first <= difficulty.number()
            &&& target_number(at_first) <= target_number(at_last)
        }),
{
    let interval = network.target_block_interval.millis as int;
    let d = difficulty.number();
    let f = log(2, correction.factor as int);
    let w = pow2(log(2, correction.wait as int) as nat) as int;
    let m1 = sooner.millis as int / interval;
    let m2 = later.millis as int / interval;
    lemma_log_nonnegative(2, correction.factor as int);
    lemma_pow2_pos(log(2, correction.wait as int) as nat);
    lemma_div_is_ordered(sooner.millis as int, later.millis as int, interval);
    vstd::arithmetic::div_mod::lemma_div_pos_is_pos(sooner.millis as int, interval);
    lemma_div_is_ordered(m1, m2, w);
    vstd::arithmetic::div_mod::lemma_div_pos_is_pos(m1, w);
    let s1 = f * (m1 / w);
    let s2 = f * (m2 / w);
    assert(0 <= s1 <= s2) by (nonlinear_arith)
        requires
            s1 == f * (m1 / w),
            s2 == f * (m2 / w),
            f >= 0,
            0 <= m1 / w <= m2 / w,
    ;
    lemma_pow2_pos(s1 as nat);
    lemma_pow2_pos(s2 as nat);
    if s1 < s2 {
        lemma_pow2_strictly_increases(s1 as nat, s2 as nat);
    }
    lemma_div_is_ordered_by_denominator(d, pow2(s1 as nat) as int, pow2(s2 as nat) as int);
    vstd::arithmetic::div_mod::lemma_div_pos_is_pos(d, pow2(s2 as nat) as int);
    lemma_div_is_ordered_by_denominator(d, 1, pow2(s1 as nat) as int);
    assert(d / 1 == d);
    lemma_target_decreases_with_difficulty(
        d / pow2(s2 as nat) as int,
        d / pow2(s1 as nat) as int,
    );
}

/// When the time since the parent has reached `count` times `correction.wait` target block
/// intervals, but not once more, the difficulty is reduced by the factor `correction.factor` that
/// many times, if the factor and the wait are powers of two.
pub proof fn lemma_difficulty_correction(
    difficulty: Difficulty,
    delta_t: Timestamp,
    network: Network,
    correction: DifficultyCorrection,
    factor_bits: nat,
    wait_bits: nat,
    count: nat,
)
    requires
        network.well_formed(),
        correction.factor == pow2(factor_bits),
        correction.wait == pow2(wait_bits),
        count * correction.wait * network.target_block_interval.millis <= delta_t.millis,
        delta_t.millis < (count + 1) * correction.wait * network.target_block_interval.millis,
    ensures
        effective_difficulty(
            difficulty.number(),
            delta_t,
            network.target_block_interval,
            correction,
        ) == difficulty.number() / pow2(factor_bits * count) as int,
{
    let interval = network.target_block_interval.millis as int;
    let wait = correction.wait as int;
    let t = delta_t.millis as int;
    lemma_pow2(factor_bits);
    lemma_pow2(wait_bits);
    lemma_log_pow(2, factor_bits);
    lemma_log_pow(2, wait_bits);
    lemma_pow2_pos(wait_bits);
    vstd::arithmetic::div_mod::lemma_div_denominator(t, interval, wait);
    assert(t / (interval * wait) == count) by {
        let unit = interval * wait;
        assert(unit > 0) by (nonlinear_arith)
            requires
                unit == interval * wait,
                interval > 0,
                wait > 0,
        ;
        assert(count * unit <= t < (count + 1) * unit) by (nonlinear_arith)
            requires
                unit == interval * wait,
                count * wait * interval <= t,
                t < (count + 1) * wait * interval,
        ;
        assert((count + 1) * unit == count * unit + unit) by (nonlinear_arith);
        vstd::arithmetic::div_mod::lemma_fundamental_div_mod_converse(
            t,
            unit,
            count as int,
            t - count * unit,
        );
    }
}

} // verus!
