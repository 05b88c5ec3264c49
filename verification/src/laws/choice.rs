//! Proof-of-work, and the choice between forks.

use vstd::arithmetic::div_mod::lemma_div_denominator;
use vstd::arithmetic::div_mod::lemma_fundamental_div_mod_converse;
use vstd::arithmetic::logarithm::lemma_log0;
use vstd::arithmetic::logarithm::lemma_log_s;
use vstd::arithmetic::logarithm::log;
use vstd::arithmetic::power2::lemma2_to64;
use vstd::arithmetic::power2::lemma_pow2_pos;
use vstd::arithmetic::power2::lemma_pow2_unfold;
use vstd::arithmetic::power2::pow2;
use vstd::prelude::*;

use crate::block::mast::kernel_digest;
use crate::block::pow::effective_difficulty;
use crate::block::pow::is_solved;
use crate::block::pow::lemma_target_decreases_with_difficulty;
use crate::block::pow::resets_difficulty;
use crate::block::pow::DifficultyCorrection;
use crate::block::Block;
use crate::block::BlockHeader;
use crate::digest::Digest;
use crate::field::P;
use crate::laws::quantities::lemma_digest_number_bound;
use crate::laws::quantities::lemma_target_meaning;
use crate::network::Network;

verus! {

/// Difficulties are reset only on networks that define a reset interval, and there exactly when the
/// time between a block and its parent reaches it.
pub proof fn lemma_when_difficulty_is_reset(
    network: Network,
    header: BlockHeader,
    parent: BlockHeader,
)
    ensures
        resets_difficulty(network, header.timestamp, parent.timestamp) <==> (
        network.difficulty_reset_interval is Some && (header.timestamp.millis
            - parent.timestamp.millis) % (P as int) >= network.difficulty_reset_interval->0.millis),
{
}

/// A block that rightly declares a reset difficulty needs no proof-of-work, whatever its digest.
pub proof fn lemma_reset_needs_no_proof_of_work(
    digest: Digest,
    header: BlockHeader,
    network: Network,
    previous: BlockHeader,
    correction: DifficultyCorrection,
)
    requires
        network.difficulty_reset_interval matches Some(interval) && (header.timestamp.millis
            - previous.timestamp.millis) % (P as int) >= interval.millis,
        header.difficulty == network.genesis_difficulty,
    ensures
        is_solved(digest, header, network, previous, correction),
{
}

/// Without a difficulty reset, whether a digest solves the puzzle depends on the block's header
/// only through its timestamp. The difficulty that the block itself declares does not matter.
pub proof fn lemma_declared_difficulty_does_not_matter(
    digest: Digest,
    a: BlockHeader,
    b: BlockHeader,
    network: Network,
    previous: BlockHeader,
    correction: DifficultyCorrection,
)
    requires
        a.timestamp == b.timestamp,
        network.difficulty_reset_interval matches Some(interval) ==> (a.timestamp.millis
            - previous.timestamp.millis) % (P as int) < interval.millis,
    ensures
        is_solved(digest, a, network, previous, correction) == is_solved(
            digest,
            b,
            network,
            previous,
            correction,
        ),
{
}

/// A reset does not help a block that declares any other difficulty than that of the genesis block:
/// its puzzle is the same as if the network had no reset interval.
pub proof fn lemma_reset_must_be_declared(
    digest: Digest,
    header: BlockHeader,
    network: Network,
    previous: BlockHeader,
    correction: DifficultyCorrection,
)
    requires
        header.difficulty != network.genesis_difficulty,
    ensures
        is_solved(digest, header, network, previous, correction) == is_solved(
            digest,
            header,
            (Network { difficulty_reset_interval: None, ..network }),
            previous,
            correction,
        ),
{
}

/// The logarithm of a number that lies between two consecutive powers of two.
proof fn lemma_log_between(x: int, bits: nat)
    requires
        pow2(bits) <= x < pow2(bits + 1),
    ensures
        log(2, x) == bits,
    decreases bits,
{
    lemma2_to64();
    if bits == 0 {
        lemma_log0(2, x);
    } else {
        lemma_pow2_unfold(bits);
        lemma_pow2_unfold(bits + 1);
        lemma_pow2_pos((bits - 1) as nat);
        lemma_log_between(x / 2, (bits - 1) as nat);
        lemma_log_s(2, x);
    }
}

/// The puzzle, in full. Let the time since the parent have reached `count` times as many target
/// block intervals as the largest power of two that the wait contains, but not once more. Then the
/// digest solves the puzzle exactly if its product with what is left of the parent's difficulty,
/// after `count` divisions by the largest power of two that the factor contains, does not exceed
/// the largest digest. Only a block that rightly declares a reset difficulty is exempt.
pub proof fn lemma_puzzle(
    digest: Digest,
    header: BlockHeader,
    network: Network,
    previous: BlockHeader,
    correction: DifficultyCorrection,
    factor_bits: nat,
    wait_bits: nat,
    count: nat,
)
    requires
        network.target_block_interval.millis > 0,
        pow2(factor_bits) <= correction.factor < pow2(factor_bits + 1),
        pow2(wait_bits) <= correction.wait < pow2(wait_bits + 1),
        ({
            let delta_t = (header.timestamp.millis - previous.timestamp.millis) % (P as int);
            let unit = pow2(wait_bits) * network.target_block_interval.millis;
            &&& count * unit <= delta_t < (count + 1) * unit
            &&& network.difficulty_reset_interval is Some && delta_t
                >= network.difficulty_reset_interval->0.millis ==> header.difficulty
                != network.genesis_difficulty
        }),
    ensures
        is_solved(digest, header, network, previous, correction) <==> digest.number() * (
        previous.difficulty.number() / pow2(factor_bits * count) as int) <= P as int * P as int
            * P as int * P as int * P as int - 1,
{
    let delta_t = header.timestamp.spec_minus(previous.timestamp);
    let t = delta_t.millis as int;
    let interval = network.target_block_interval.millis as int;
    let w = pow2(wait_bits) as int;
    let d = previous.difficulty.number();
    lemma_log_between(correction.factor as int, factor_bits);
    lemma_log_between(correction.wait as int, wait_bits);
    lemma_pow2_pos(wait_bits);
    lemma_div_denominator(t, interval, w);
    let unit = interval * w;
    assert(unit == w * interval) by (nonlinear_arith)
        requires
            unit == interval * w,
    ;
    assert(unit > 0) by (nonlinear_arith)
        requires
            unit == interval * w,
            interval > 0,
            w > 0,
    ;
    assert((count + 1) * unit == count * unit + unit) by (nonlinear_arith);
    lemma_fundamental_div_mod_converse(t, unit, count as int, t - count * unit);
    assert(t / interval / w == count);
    let shift = factor_bits * count;
    let left = d / pow2(shift) as int;
    assert(effective_difficulty(d, delta_t, network.target_block_interval, correction) == left);
    lemma_pow2_pos(shift);
    vstd::arithmetic::div_mod::lemma_div_pos_is_pos(d, pow2(shift) as int);
    vstd::arithmetic::div_mod::lemma_div_is_ordered_by_denominator(d, 1, pow2(shift) as int);
    assert(d / 1 == d);
    lemma_target_decreases_with_difficulty(left, d);
    lemma_digest_number_bound(digest);
    lemma_target_meaning(digest.number(), left);
}

/// The puzzle of a block is about its own digest, and nothing but the puzzle decides.
pub proof fn lemma_puzzle_is_about_own_digest(
    block: Block,
    network: Network,
    previous: BlockHeader,
    correction: DifficultyCorrection,
)
    ensures
        block.solves_puzzle(network, previous, correction) == is_solved(
            kernel_digest(block.spec_kernel()),
            block.spec_kernel().header,
            network,
            previous,
            correction,
        ),
{
}

/// A current tip whose transaction has an input is never replaced by a block of the same height.
pub proof fn lemma_tip_with_inputs_stays(current_tip: Block, incoming_block: Block)
    requires
        current_tip.spec_header().height == incoming_block.spec_header().height,
        current_tip.spec_body().transaction_kernel.inputs@.len() > 0,
    ensures
        !Block::prefers_incoming(current_tip, incoming_block),
{
}

/// A current tip without inputs is replaced by a block of the same height exactly if that one has
/// inputs.
pub proof fn lemma_tip_without_inputs_gives_way_to_inputs(current_tip: Block, incoming_block: Block)
    requires
        current_tip.spec_header().height == incoming_block.spec_header().height,
        current_tip.spec_body().transaction_kernel.inputs@.len() == 0,
    ensures
        Block::prefers_incoming(current_tip, incoming_block)
            <==> incoming_block.spec_body().transaction_kernel.inputs@.len() > 0,
{
}

/// Among blocks of the same height, how much work they declare does not matter.
pub proof fn lemma_work_does_not_matter_at_same_height(
    current_tip: Block,
    incoming_block: Block,
    other_tip: Block,
    other_incoming: Block,
)
    requires
        current_tip.spec_header().height == incoming_block.spec_header().height,
        other_tip.spec_header().height == other_incoming.spec_header().height,
        current_tip.spec_body().transaction_kernel.inputs@.len()
            == other_tip.spec_body().transaction_kernel.inputs@.len(),
        incoming_block.spec_body().transaction_kernel.inputs@.len()
            == other_incoming.spec_body().transaction_kernel.inputs@.len(),
    ensures
        Block::prefers_incoming(current_tip, incoming_block) == Block::prefers_incoming(
            other_tip,
            other_incoming,
        ),
{
}

/// A block of another height replaces the current tip exactly if it has accumulated more work.
pub proof fn lemma_more_work_wins_at_other_height(current_tip: Block, incoming_block: Block)
    requires
        current_tip.spec_header().height != incoming_block.spec_header().height,
    ensures
        Block::prefers_incoming(current_tip, incoming_block)
            <==> incoming_block.spec_header().cumulative_proof_of_work.number()
            > current_tip.spec_header().cumulative_proof_of_work.number(),
{
}

} // verus!
