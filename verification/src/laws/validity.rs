//! When a block is a valid successor of another one.

use vstd::arithmetic::power2::pow2;
use vstd::prelude::*;

use crate::block::chain::Validation;
use crate::block::claim_views;
use crate::block::validation::all_claimed;
use crate::block::validation::all_removable;
use crate::block::validation::distinct_indices;
use crate::block::validation::BlockValidationError;
use crate::block::Block;
use crate::field::P;
use crate::network::Network;

verus! {

/// The reward of the predecessor's guesser, which is part of the mutator set that the block builds
/// on, is not defined: the predecessor is not the genesis block, and its fee is negative.
pub open spec fn parent_has_no_reward(previous: Block) -> bool {
    previous.spec_header().height.value != 0 && previous.spec_body().transaction_kernel.fee.nau < 0
}

/// The block breaks the rule that the error is named after.
pub open spec fn breaks_rule(
    rule: BlockValidationError,
    block: Block,
    previous: Block,
    validation: Validation,
    network: Network,
) -> bool {
    let p = P as int;
    let h = block.spec_header();
    let parent = previous.spec_header();
    let body = block.spec_body();
    let kernel = body.transaction_kernel;
    let claims = block.spec_appendix().claims@;
    let required = validation.context.required_claims@;
    let answers = validation.answers.can_remove@;
    let since_fork = h.height.value >= 6_000;
    let delta_t = (h.timestamp.millis - parent.timestamp.millis) % p;
    let must_reset = network.difficulty_reset_interval is Some && delta_t
        >= network.difficulty_reset_interval->0.millis;
    match rule {
        BlockValidationError::BlockHeight => h.height.value != (parent.height.value + 1) % p,
        BlockValidationError::PrevBlockDigest => h.prev_block_digest != previous.spec_hash(),
        BlockValidationError::BlockMmrUpdate => body.block_mmr_accumulator@
            != previous.spec_body().block_mmr_accumulator@.append(previous.spec_hash()),
        BlockValidationError::MinimumBlockTime => h.timestamp.millis < (parent.timestamp.millis
            + network.minimum_block_time.millis) % p,
        BlockValidationError::Difficulty => if must_reset {
            h.difficulty != network.genesis_difficulty
        } else {
            h.difficulty != validation.context.controlled_difficulty
        },
        BlockValidationError::CumulativeProofOfWork => h.cumulative_proof_of_work.number()
            - parent.cumulative_proof_of_work.number() != parent.difficulty.number(),
        BlockValidationError::FutureDating => h.timestamp.millis >= (validation.now.millis
            + 300_000) % p,
        BlockValidationError::AppendixMissingClaim => exists|i: int|
            #![trigger required[i]]
            0 <= i < required.len() && forall|j: int|
                0 <= j < claims.len() ==> (#[trigger] claims[j])@ != required[i]@,
        BlockValidationError::AppendixTooLarge => claims.len()
            > validation.context.max_num_claims,
        BlockValidationError::ProofQuality => !(block.spec_proof() is SingleProof),
        BlockValidationError::ProofValidity => !validation.proof_is_valid,
        BlockValidationError::MaxSize => if since_fork {
            block.spec_size() > 1_000_000
        } else {
            block.spec_size() > 250_000
        },
        BlockValidationError::RemovalRecordsValid => {
            ||| answers.len() != kernel.inputs@.len()
            ||| exists|i: int| 0 <= i < answers.len() && !(#[trigger] answers[i])
        },
        BlockValidationError::RemovalRecordsUnique => exists|i: int, j: int|
            0 <= i < j < kernel.inputs@.len() && (#[trigger] kernel.inputs@[i]).absolute_indices@
                == (#[trigger] kernel.inputs@[j]).absolute_indices@,
        BlockValidationError::MutatorSetUpdatePossible => validation.answers.digest_after is None,
        BlockValidationError::MutatorSetUpdateIntegral => validation.answers.digest_after is Some
            && validation.answers.digest_after->0 != body.mutator_set_accumulator.digest,
        BlockValidationError::TransactionTimestamp => h.timestamp.millis < kernel.timestamp.millis,
        BlockValidationError::CoinbaseTooBig => kernel.coinbase is Some && kernel.coinbase->0.nau
            > 512_000_000_000_000_000_000_000_000_000_000int / pow2(
            (h.height.value as int / 160_815) as nat,
        ) as int,
        BlockValidationError::CoinbaseTooSmall => kernel.coinbase is Some && kernel.coinbase->0.nau
            < 0,
        BlockValidationError::NegativeFee => kernel.fee.nau < 0,
        BlockValidationError::TooManyInputs => since_fork && kernel.inputs@.len() > 16_384,
        BlockValidationError::TooManyOutputs => since_fork && kernel.outputs@.len() > 16_384,
        BlockValidationError::TooManyPublicAnnouncements => since_fork
            && kernel.public_announcements@.len() > 16_384,
    }
}

/// The place of a rule in the order in which rules are checked. The place twelve is left to the
/// reward of the predecessor's guesser.
pub open spec fn place(rule: BlockValidationError) -> int {
    match rule {
        BlockValidationError::BlockHeight => 0,
        BlockValidationError::PrevBlockDigest => 1,
        BlockValidationError::BlockMmrUpdate => 2,
        BlockValidationError::MinimumBlockTime => 3,
        BlockValidationError::Difficulty => 4,
        BlockValidationError::CumulativeProofOfWork => 5,
        BlockValidationError::FutureDating => 6,
        BlockValidationError::AppendixMissingClaim => 7,
        BlockValidationError::AppendixTooLarge => 8,
        BlockValidationError::ProofQuality => 9,
        BlockValidationError::ProofValidity => 10,
        BlockValidationError::MaxSize => 11,
        BlockValidationError::RemovalRecordsValid => 13,
        BlockValidationError::RemovalRecordsUnique => 14,
        BlockValidationError::MutatorSetUpdatePossible => 15,
        BlockValidationError::MutatorSetUpdateIntegral => 16,
        BlockValidationError::TransactionTimestamp => 17,
        BlockValidationError::CoinbaseTooBig => 18,
        BlockValidationError::CoinbaseTooSmall => 19,
        BlockValidationError::NegativeFee => 20,
        BlockValidationError::TooManyInputs => 21,
        BlockValidationError::TooManyOutputs => 22,
        BlockValidationError::TooManyPublicAnnouncements => 23,
    }
}

proof fn lemma_header_rules(block: Block, previous: Block, validation: Validation, network: Network)
    ensures
        match block.header_error(previous, validation.now, network, validation.context) {
            None => forall|rule: BlockValidationError|
                place(rule) <= 6 ==> !(#[trigger] breaks_rule(
                    rule,
                    block,
                    previous,
                    validation,
                    network,
                )),
            Some(e) => {
                &&& place(e) <= 6
                &&& breaks_rule(e, block, previous, validation, network)
                &&& forall|rule: BlockValidationError|
                    place(rule) < place(e) ==> !(#[trigger] breaks_rule(
                        rule,
                        block,
                        previous,
                        validation,
                        network,
                    ))
            },
        },
{
}

proof fn lemma_missing_claim(
    block: Block,
    previous: Block,
    validation: Validation,
    network: Network,
)
    ensures
        all_claimed(validation.context.required_claims@, block.spec_appendix().claims@)
            <==> !breaks_rule(
            BlockValidationError::AppendixMissingClaim,
            block,
            previous,
            validation,
            network,
        ),
{
    let claims = block.spec_appendix().claims@;
    let required = validation.context.required_claims@;
    let broken = breaks_rule(
        BlockValidationError::AppendixMissingClaim,
        block,
        previous,
        validation,
        network,
    );
    if !all_claimed(required, claims) {
        let i = choose|i: int|
            0 <= i < required.len() && !claim_views(claims).contains(#[trigger] required[i]@);
        assert forall|j: int| 0 <= j < claims.len() implies (#[trigger] claims[j])@
            != required[i]@ by {
            assert(claim_views(claims)[j] == claims[j]@);
        }
        let r = required[i];
        assert(broken);
    }
    if broken {
        let i = choose|i: int|
            #![trigger required[i]]
            0 <= i < required.len() && forall|j: int|
                0 <= j < claims.len() ==> (#[trigger] claims[j])@ != required[i]@;
        if claim_views(claims).contains(required[i]@) {
            let j = choose|j: int|
                0 <= j < claim_views(claims).len() && claim_views(claims)[j] == required[i]@;
            assert(claims[j]@ == required[i]@);
        }
        assert(!all_claimed(required, claims));
    }
}

proof fn lemma_appendix_rules(
    block: Block,
    previous: Block,
    validation: Validation,
    network: Network,
)
    ensures
        match block.appendix_error(validation.context) {
            None => forall|rule: BlockValidationError|
                7 <= place(rule) <= 9 ==> !(#[trigger] breaks_rule(
                    rule,
                    block,
                    previous,
                    validation,
                    network,
                )),
            Some(e) => {
                &&& 7 <= place(e) <= 9
                &&& breaks_rule(e, block, previous, validation, network)
                &&& forall|rule: BlockValidationError|
                    7 <= place(rule) < place(e) ==> !(#[trigger] breaks_rule(
                        rule,
                        block,
                        previous,
                        validation,
                        network,
                    ))
            },
        },
{
    lemma_missing_claim(block, previous, validation, network);
}

proof fn lemma_mutator_set_rules(
    block: Block,
    previous: Block,
    validation: Validation,
    network: Network,
)
    ensures
        match block.mutator_set_error(previous, validation.answers) {
            None => !parent_has_no_reward(previous) && forall|rule: BlockValidationError|
                13 <= place(rule) <= 16 ==> !(#[trigger] breaks_rule(
                    rule,
                    block,
                    previous,
                    validation,
                    network,
                )),
            Some(e) => {
                ||| parent_has_no_reward(previous) && e is NegativeFee
                ||| {
                    &&& !parent_has_no_reward(previous)
                    &&& 13 <= place(e) <= 16
                    &&& breaks_rule(e, block, previous, validation, network)
                    &&& forall|rule: BlockValidationError|
                        13 <= place(rule) < place(e) ==> !(#[trigger] breaks_rule(
                            rule,
                            block,
                            previous,
                            validation,
                            network,
                        ))
                }
            },
        },
{
    let inputs = block.spec_body().transaction_kernel.inputs@;
    assert(distinct_indices(inputs) <==> !breaks_rule(
        BlockValidationError::RemovalRecordsUnique,
        block,
        previous,
        validation,
        network,
    )) by {
        if !distinct_indices(inputs) {
            let (i, j) = choose|i: int, j: int|
                0 <= i < j < inputs.len() && #[trigger] inputs[i].absolute_indices@
                    == #[trigger] inputs[j].absolute_indices@;
            assert(inputs[i].absolute_indices@ == inputs[j].absolute_indices@);
        }
        if breaks_rule(
            BlockValidationError::RemovalRecordsUnique,
            block,
            previous,
            validation,
            network,
        ) {
            let (i, j) = choose|i: int, j: int|
                0 <= i < j < inputs.len() && (#[trigger] inputs[i]).absolute_indices@ == (
                #[trigger] inputs[j]).absolute_indices@;
            assert(inputs[i].absolute_indices@ == inputs[j].absolute_indices@);
        }
    }
    let answers = validation.answers.can_remove@;
    assert(all_removable(answers, inputs) <==> !breaks_rule(
        BlockValidationError::RemovalRecordsValid,
        block,
        previous,
        validation,
        network,
    ));
}

proof fn lemma_transaction_rules(
    block: Block,
    previous: Block,
    validation: Validation,
    network: Network,
)
    ensures
        match block.transaction_error() {
            None => forall|rule: BlockValidationError|
                17 <= place(rule) ==> !(#[trigger] breaks_rule(
                    rule,
                    block,
                    previous,
                    validation,
                    network,
                )),
            Some(e) => {
                &&& 17 <= place(e)
                &&& breaks_rule(e, block, previous, validation, network)
                &&& forall|rule: BlockValidationError|
                    17 <= place(rule) < place(e) ==> !(#[trigger] breaks_rule(
                        rule,
                        block,
                        previous,
                        validation,
                        network,
                    ))
            },
        },
{
}

/// What is reported before the proof of a block is verified is the first broken rule about its
/// header, its appendix and the form of its proof.
pub proof fn lemma_first_broken_rule_before_proof(
    block: Block,
    previous: Block,
    validation: Validation,
    network: Network,
)
    ensures
        match block.error_before_proof(previous, validation.now, network, validation.context) {
            None => forall|rule: BlockValidationError|
                place(rule) <= 9 ==> !(#[trigger] breaks_rule(
                    rule,
                    block,
                    previous,
                    validation,
                    network,
                )),
            Some(e) => {
                &&& place(e) <= 9
                &&& breaks_rule(e, block, previous, validation, network)
                &&& forall|rule: BlockValidationError|
                    (#[trigger] breaks_rule(rule, block, previous, validation, network))
                        ==> place(rule) >= place(e)
            },
        },
{
    lemma_header_rules(block, previous, validation, network);
    lemma_appendix_rules(block, previous, validation, network);
}

/// What is reported after the proof of a block is verified is the first broken rule about its size,
/// the mutator set and its transaction, whatever else is wrong with the block.
pub proof fn lemma_first_broken_rule_after_proof(
    block: Block,
    previous: Block,
    validation: Validation,
    network: Network,
)
    ensures
        match block.error_after_proof(previous, validation.answers) {
            None => !parent_has_no_reward(previous) && forall|rule: BlockValidationError|
                place(rule) >= 11 ==> !(#[trigger] breaks_rule(
                    rule,
                    block,
                    previous,
                    validation,
                    network,
                )),
            Some(e) => {
                let by_parent = e is NegativeFee && parent_has_no_reward(previous);
                let at = if by_parent {
                    12
                } else {
                    place(e)
                };
                &&& at >= 11
                &&& by_parent || breaks_rule(e, block, previous, validation, network)
                &&& parent_has_no_reward(previous) ==> at <= 12
                &&& forall|rule: BlockValidationError|
                    11 <= place(rule) && (#[trigger] breaks_rule(
                        rule,
                        block,
                        previous,
                        validation,
                        network,
                    )) ==> place(rule) >= at
            },
        },
{
    lemma_mutator_set_rules(block, previous, validation, network);
    lemma_transaction_rules(block, previous, validation, network);
    assert(block.is_too_large() <==> breaks_rule(
        BlockValidationError::MaxSize,
        block,
        previous,
        validation,
        network,
    ));
}

/// What validation reports is the first rule that is broken, in the order of the rules, and nothing
/// if none is. The reward of the predecessor's guesser, which has the same error as a negative fee
/// of the block itself, comes right after the size of the block.
pub proof fn lemma_first_broken_rule_is_reported(
    block: Block,
    previous: Block,
    validation: Validation,
    network: Network,
)
    ensures
        match block.first_error(
            previous,
            validation.now,
            network,
            validation.context,
            validation.proof_is_valid,
            validation.answers,
        ) {
            None => !parent_has_no_reward(previous) && forall|rule: BlockValidationError|
                !(#[trigger] breaks_rule(rule, block, previous, validation, network)),
            Some(e) => {
                let by_parent = e is NegativeFee && parent_has_no_reward(previous);
                let at = if by_parent {
                    12
                } else {
                    place(e)
                };
                &&& by_parent || breaks_rule(e, block, previous, validation, network)
                &&& parent_has_no_reward(previous) ==> at <= 12
                &&& forall|rule: BlockValidationError|
                    (#[trigger] breaks_rule(rule, block, previous, validation, network))
                        ==> place(rule) >= at
            },
        },
{
    lemma_header_rules(block, previous, validation, network);
    lemma_appendix_rules(block, previous, validation, network);
    lemma_mutator_set_rules(block, previous, validation, network);
    lemma_transaction_rules(block, previous, validation, network);
    assert(block.is_too_large() <==> breaks_rule(
        BlockValidationError::MaxSize,
        block,
        previous,
        validation,
        network,
    ));
    assert(!validation.proof_is_valid <==> breaks_rule(
        BlockValidationError::ProofValidity,
        block,
        previous,
        validation,
        network,
    ));
}

/// A block is valid if and only if no rule is broken: nothing else can make it invalid, and nothing
/// that is broken is passed over.
pub proof fn lemma_valid_iff_no_rule_is_broken(
    block: Block,
    previous: Block,
    validation: Validation,
    network: Network,
)
    ensures
        block.first_error(
            previous,
            validation.now,
            network,
            validation.context,
            validation.proof_is_valid,
            validation.answers,
        ) is None <==> !parent_has_no_reward(previous) && forall|rule: BlockValidationError|
            !(#[trigger] breaks_rule(rule, block, previous, validation, network)),
{
    lemma_first_broken_rule_is_reported(block, previous, validation, network);
}

/// That an input cannot be removed is reported only if there is an input without an answer, an
/// answer without an input, or an input that cannot be removed. A block without inputs is never
/// invalid on that account, nor is one whose predecessor is the genesis block on account of the
/// predecessor's fee.
pub proof fn lemma_blocks_without_inputs_can_be_valid(
    block: Block,
    previous: Block,
    validation: Validation,
    network: Network,
)
    ensures
        ({
            let error = block.first_error(
                previous,
                validation.now,
                network,
                validation.context,
                validation.proof_is_valid,
                validation.answers,
            );
            let inputs = block.spec_body().transaction_kernel.inputs@;
            let answers = validation.answers.can_remove@;
            &&& error == Some(BlockValidationError::RemovalRecordsValid) ==> (answers.len()
                != inputs.len() || exists|i: int| 0 <= i < inputs.len() && !(#[trigger] answers[i]))
            &&& inputs.len() == 0 && answers.len() == 0 ==> error != Some(
                BlockValidationError::RemovalRecordsValid,
            ) && error != Some(BlockValidationError::RemovalRecordsUnique)
            &&& previous.spec_header().height.value == 0 && error == Some(
                BlockValidationError::NegativeFee,
            ) ==> block.spec_body().transaction_kernel.fee.nau < 0
        }),
{
    lemma_first_broken_rule_is_reported(block, previous, validation, network);
}

} // verus!
