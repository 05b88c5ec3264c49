//! Blocks for which the proof-of-work is still to be done.

use vstd::prelude::*;

use crate::block::validation::expected_difficulty;
use crate::block::validation::ConsensusContext;
use crate::block::validation::FUTUREDATING_LIMIT;
use crate::block::Block;
use crate::block::BlockAppendix;
use crate::block::BlockBody;
use crate::block::BlockHeader;
use crate::block::BlockKernel;
use crate::block::BlockProof;
use crate::block::Proof;
use crate::difficulty::b64;
use crate::difficulty::Difficulty;
use crate::difficulty::ProofOfWork;
use crate::digest::Digest;
use crate::network::Network;
use crate::timestamp::Timestamp;
use crate::transaction::MutatorSetAccumulator;
use crate::transaction::TransactionKernel;

verus! {

/// A header is the one with which a block on top of another one starts out: nobody has guessed a
/// nonce for it yet.
pub open spec fn is_template_header(
    header: BlockHeader,
    predecessor: Block,
    timestamp: Timestamp,
    difficulty: Difficulty,
) -> bool {
    let parent = predecessor.spec_header();
    &&& header.version == 0
    &&& header.height == parent.height.spec_next()
    &&& header.prev_block_digest == predecessor.spec_hash()
    &&& header.timestamp == timestamp
    &&& header.nonce == Digest::zero_digest()
    &&& header.cumulative_proof_of_work.number() == parent.cumulative_proof_of_work.number()
        + parent.difficulty.number()
    &&& header.difficulty == difficulty
    &&& header.guesser_digest == Digest::zero_digest()
}

/// A body is the one of a block on top of another one.
pub open spec fn is_template_body(
    body: BlockBody,
    predecessor: Block,
    transaction_kernel: TransactionKernel,
    mutator_set_accumulator: MutatorSetAccumulator,
) -> bool {
    let parent = predecessor.spec_body();
    &&& body.transaction_kernel == transaction_kernel
    &&& body.mutator_set_accumulator == mutator_set_accumulator
    &&& body.lock_free_mmr_accumulator@ == parent.lock_free_mmr_accumulator@
    &&& body.block_mmr_accumulator@ == parent.block_mmr_accumulator@.append(
        predecessor.spec_hash(),
    )
}

impl Block {
    /// The header with which a block on top of another one starts out. Nobody has guessed a nonce
    /// for it yet. The cumulative proof-of-work must leave room for that of the predecessor.
    pub fn template_header(predecessor: &Block, timestamp: Timestamp, difficulty: Difficulty)
        -> (header: BlockHeader)
        requires
            predecessor.spec_header().cumulative_proof_of_work.number()
                + predecessor.spec_header().difficulty.number() < b64() * b64() * b64(),
        ensures
            is_template_header(header, *predecessor, timestamp, difficulty),
    {
        let parent = predecessor.header();
        let cumulative_proof_of_work = match parent.cumulative_proof_of_work.plus(
            &parent.difficulty,
        ) {
            Some(sum) => sum,
            None => ProofOfWork::zero(),
        };
        BlockHeader {
            version: 0,
            height: parent.height.next(),
            prev_block_digest: predecessor.hash(),
            timestamp,
            nonce: Digest::default(),
            cumulative_proof_of_work,
            difficulty,
            guesser_digest: Digest::default(),
        }
    }

    /// The body of a block on top of another one. The mutator set is the one after the transaction.
    pub fn template_body(
        predecessor: &Block,
        transaction_kernel: TransactionKernel,
        mutator_set_accumulator: MutatorSetAccumulator,
    ) -> (body: BlockBody)
        requires
            predecessor.spec_body().block_mmr_accumulator@.consistent(),
        ensures
            is_template_body(body, *predecessor, transaction_kernel, mutator_set_accumulator),
    {
        let parent = predecessor.body();
        let block_mmr_accumulator = parent.block_mmr_accumulator.appended(&predecessor.hash());
        BlockBody {
            transaction_kernel,
            mutator_set_accumulator,
            lock_free_mmr_accumulator: parent.lock_free_mmr_accumulator.clone(),
            block_mmr_accumulator,
        }
    }

    /// A block template with an invalid block proof, for use where validity does not matter.
    pub fn block_template_invalid_proof(header: BlockHeader, body: BlockBody) -> (b: Block)
        ensures
            b.spec_header() == header,
            b.spec_body() == body,
            b.spec_appendix().claims@.len() == 0,
            b.spec_proof() is Invalid,
            !b.spec_remembers(),
    {
        Block::new(header, body, BlockAppendix::empty(), BlockProof::Invalid)
    }

    /// A block template from what a prover made of a body and an appendix. If there is no proof,
    /// there is no block either.
    pub fn block_template_from_proof<E>(
        header: BlockHeader,
        body: BlockBody,
        appendix: BlockAppendix,
        outcome: Result<Proof, E>,
    ) -> (r: Result<Block, E>)
        ensures
            match outcome {
                Ok(proof) => {
                    &&& r is Ok
                    &&& r->Ok_0.spec_kernel() == (BlockKernel { header, body, appendix })
                    &&& r->Ok_0.spec_proof() == BlockProof::SingleProof(proof)
                    &&& !r->Ok_0.spec_remembers()
                },
                Err(e) => r == Err::<Block, E>(e),
            },
    {
        match outcome {
            Ok(proof) => Ok(Block::new(header, body, appendix, BlockProof::SingleProof(proof))),
            Err(e) => Err(e),
        }
    }

    /// Composes a block: one with a valid block proof, but without proof-of-work.
    ///
    /// The transaction in the body must be proven valid, and its merge bit must be set; only then
    /// may it be put into a block.
    pub fn compose<E>(
        header: BlockHeader,
        body: BlockBody,
        appendix: BlockAppendix,
        transaction_proof_is_valid: bool,
        outcome: Result<Proof, E>,
    ) -> (r: Result<Block, E>)
        requires
            transaction_proof_is_valid,
            body.transaction_kernel.merge_bit,
        ensures
            match outcome {
                Ok(proof) => {
                    &&& r is Ok
                    &&& r->Ok_0.spec_kernel() == (BlockKernel { header, body, appendix })
                    &&& r->Ok_0.spec_proof() == BlockProof::SingleProof(proof)
                    &&& !r->Ok_0.spec_remembers()
                },
                Err(e) => r == Err::<Block, E>(e),
            },
    {
        Block::block_template_from_proof(header, body, appendix, outcome)
    }
}

/// A block that was composed on top of another one passes all checks of its header, if it comes
/// neither too soon after that block nor too far in the future, and has the difficulty that it
/// must have.
pub proof fn lemma_composed_header_is_valid(
    block: Block,
    predecessor: Block,
    transaction_kernel: TransactionKernel,
    mutator_set_accumulator: MutatorSetAccumulator,
    now: Timestamp,
    network: Network,
    context: ConsensusContext,
)
    requires
        is_template_header(
            block.spec_header(),
            predecessor,
            block.spec_header().timestamp,
            block.spec_header().difficulty,
        ),
        is_template_body(
            block.spec_body(),
            predecessor,
            transaction_kernel,
            mutator_set_accumulator,
        ),
        predecessor.spec_header().timestamp.spec_plus(network.minimum_block_time).millis
            <= block.spec_header().timestamp.millis,
        block.spec_header().timestamp.millis < now.spec_plus(
            Timestamp { millis: FUTUREDATING_LIMIT },
        ).millis,
        block.spec_header().difficulty == expected_difficulty(
            block.spec_header(),
            predecessor.spec_header(),
            network,
            context,
        ),
    ensures
        block.header_error(predecessor, now, network, context) is None,
{
}

} // verus!
