//! Whether a block is a valid successor of another one.

use vstd::prelude::*;

use crate::block::claim_views;
use crate::block::pow::resets_difficulty;
use crate::block::rewards::subsidy;
use crate::block::Block;
use crate::block::BlockHeader;
use crate::block::BlockProof;
use crate::block::Claim;
use crate::difficulty::lemma_proof_of_work_number_injective;
use crate::difficulty::Difficulty;
use crate::digest::Digest;
use crate::mmr::MmrAccumulator;
use crate::mmr::MmrAccumulatorView;
use crate::network::Network;
use crate::timestamp::Timestamp;
use crate::timestamp::MILLIS_PER_MINUTE;
use crate::transaction::duplicate_removals;
use crate::transaction::removal_views;
use crate::transaction::MutatorSetUpdate;
use crate::transaction::MutatorSetUpdateView;
use crate::transaction::RemovalRecord;

verus! {

/// The height of the first hard fork, which raises the limit on the block size to allow for more
/// inputs per transaction.
pub const BLOCK_HEIGHT_HF_1: u64 = 6_000;

/// The old maximum block size, in field elements.
pub const MAX_BLOCK_SIZE_BEFORE_HF_1: usize = 250_000;

/// The new maximum block size, in field elements.
///
/// At eight bytes per element this is 8 MB, which should keep it feasible to run archival nodes
/// for many years without excessive disk space.
pub const MAX_BLOCK_SIZE_AFTER_HF_1: usize = 1_000_000;

/// The most inputs, outputs and public announcements that a block can have since the first hard
/// fork.
///
/// The limit on outputs keeps it cheap to run archival nodes, and the one on public announcements
/// makes it feasible for wallets to scan all of them.
pub const MAX_NUM_INPUTS_OUTPUTS_PUB_ANNOUNCEMENTS_AFTER_HF_1: usize = 16_384;

/// How far in the future a block can be dated, in milliseconds.
pub const FUTUREDATING_LIMIT: u64 = 5 * MILLIS_PER_MINUTE;

/// Why a block is not a valid successor of another one.
#[derive(Clone, Copy, Debug, PartialEq, Eq, Structural)]
pub enum BlockValidationError {
    /// The height is not that of the predecessor plus one.
    BlockHeight,
    /// The header does not name the predecessor's digest.
    PrevBlockDigest,
    /// The block MMR is not that of the predecessor with the predecessor appended.
    BlockMmrUpdate,
    /// Less than the minimum block time has passed since the predecessor.
    MinimumBlockTime,
    /// The difficulty was not adjusted as it should have been.
    Difficulty,
    /// The cumulative proof-of-work is not that of the predecessor plus its difficulty.
    CumulativeProofOfWork,
    /// The block is dated too far in the future.
    FutureDating,
    /// The appendix lacks a required claim.
    AppendixMissingClaim,
    /// The appendix has too many claims.
    AppendixTooLarge,
    /// The proof is not a single proof.
    ProofQuality,
    /// The proof is not valid.
    ProofValidity,
    /// The block is too large.
    MaxSize,
    /// An input cannot be removed from the mutator set.
    RemovalRecordsValid,
    /// Two inputs are the same.
    RemovalRecordsUnique,
    /// The mutator set update cannot be applied.
    MutatorSetUpdatePossible,
    /// The mutator set update does not lead to the mutator set in the body.
    MutatorSetUpdateIntegral,
    /// The transaction is younger than the block.
    TransactionTimestamp,
    /// The coinbase exceeds the block subsidy.
    CoinbaseTooBig,
    /// The coinbase is negative.
    CoinbaseTooSmall,
    /// The transaction fee is negative.
    NegativeFee,
    /// There are too many inputs.
    TooManyInputs,
    /// There are too many outputs.
    TooManyOutputs,
    /// There are too many public announcements.
    TooManyPublicAnnouncements,
}

/// What has to be known about a block and its predecessor before the block's contents can be
/// checked.
#[derive(Debug)]
pub struct ConsensusContext {
    /// What difficulty control asks for when there is no reset.
    pub controlled_difficulty: Difficulty,
    /// The claims that the appendix has to contain.
    pub required_claims: Vec<Claim>,
    /// The most claims that the appendix can contain.
    pub max_num_claims: usize,
}

/// How the mutator set after the predecessor takes the block's transaction.
#[derive(Debug)]
pub struct MutatorSetAnswers {
    /// For every input, whether it can be removed. An input without an answer counts as one that
    /// cannot.
    pub can_remove: Vec<bool>,
    /// The digest of the mutator set after the block's transaction, if that can be applied.
    pub digest_after: Option<Digest>,
}

/// No two records have the same absolute indices.
pub open spec fn distinct_indices(records: Seq<RemovalRecord>) -> bool {
    forall|i: int, j: int|
        0 <= i < j < records.len() ==> #[trigger] records[i].absolute_indices@
            != #[trigger] records[j].absolute_indices@
}

/// All claims are among those of the appendix.
pub open spec fn all_claimed(required: Seq<Claim>, claims: Seq<Claim>) -> bool {
    forall|i: int|
        0 <= i < required.len() ==> claim_views(claims).contains(#[trigger] required[i]@)
}

/// Every answer is a yes.
pub open spec fn all_yes(answers: Seq<bool>) -> bool {
    forall|i: int| 0 <= i < answers.len() ==> #[trigger] answers[i]
}

/// There is an answer for every input, and it is a yes.
pub open spec fn all_removable(answers: Seq<bool>, inputs: Seq<RemovalRecord>) -> bool {
    answers.len() == inputs.len() && all_yes(answers)
}

fn is_all_yes(answers: &Vec<bool>) -> (r: bool)
    ensures
        r == all_yes(answers@),
{
    let mut i: usize = 0;
    while i < answers.len()
        invariant
            i <= answers@.len(),
            forall|j: int| 0 <= j < i ==> #[trigger] answers@[j],
        decreases answers@.len() - i,
    {
        if !answers[i] {
            return false;
        }
        i = i + 1;
    }
    true
}

/// Whether two lists of indices are the same.
fn same_indices(a: &Vec<u128>, b: &Vec<u128>) -> (r: bool)
    ensures
        r == (a@ == b@),
{
    if a.len() != b.len() {
        return false;
    }
    let mut i: usize = 0;
    while i < a.len()
        invariant
            a@.len() == b@.len(),
            i <= a@.len(),
            forall|j: int| 0 <= j < i ==> a@[j] == b@[j],
        decreases a@.len() - i,
    {
        if a[i] != b[i] {
            return false;
        }
        i = i + 1;
    }
    assert(a@ =~= b@);
    true
}

/// Whether no two records have the same absolute indices.
fn has_distinct_indices(records: &Vec<RemovalRecord>) -> (r: bool)
    ensures
        r == distinct_indices(records@),
{
    let mut j: usize = 0;
    while j < records.len()
        invariant
            j <= records@.len(),
            distinct_indices(records@.take(j as int)),
        decreases records@.len() - j,
    {
        let mut i: usize = 0;
        while i < j
            invariant
                i <= j < records@.len(),
                forall|k: int|
                    0 <= k < i ==> #[trigger] records@[k].absolute_indices@
                        != records@[j as int].absolute_indices@,
            decreases j - i,
        {
            if same_indices(&records[i].absolute_indices, &records[j].absolute_indices) {
                return false;
            }
            i = i + 1;
        }
        assert(distinct_indices(records@.take(j + 1))) by {
            let grown = records@.take(j + 1);
            assert forall|a: int, b: int| 0 <= a < b < grown.len() implies (
            #[trigger] grown[a]).absolute_indices@ != (#[trigger] grown[b]).absolute_indices@ by {
                let known = records@.take(j as int);
                assert(grown[a] == records@[a] && grown[b] == records@[b]);
                if b < j {
                    assert(known[a] == records@[a] && known[b] == records@[b]);
                }
            }
        }
        j = j + 1;
    }
    assert(records@.take(j as int) =~= records@);
    true
}

/// Whether all claims are among those of the appendix.
fn are_all_claimed(required: &Vec<Claim>, block: &Block) -> (r: bool)
    ensures
        r == all_claimed(required@, block.spec_appendix().claims@),
{
    let mut i: usize = 0;
    while i < required.len()
        invariant
            i <= required@.len(),
            forall|j: int|
                0 <= j < i ==> claim_views(block.spec_appendix().claims@).contains(
                    #[trigger] required@[j]@,
                ),
        decreases required@.len() - i,
    {
        if !block.appendix().contains(&required[i]) {
            assert(!claim_views(block.spec_appendix().claims@).contains(required@[i as int]@));
            return false;
        }
        i = i + 1;
    }
    true
}

/// The difficulty that a header must declare.
pub open spec fn expected_difficulty(
    header: BlockHeader,
    parent: BlockHeader,
    network: Network,
    context: ConsensusContext,
) -> Difficulty {
    if resets_difficulty(network, header.timestamp, parent.timestamp) {
        network.genesis_difficulty
    } else {
        context.controlled_difficulty
    }
}

/// The first thing that is wrong with a header and a block MMR, given the header of the
/// predecessor, its digest, and its block MMR with that digest appended.
pub open spec fn header_error(
    header: BlockHeader,
    block_mmr: MmrAccumulatorView,
    parent: BlockHeader,
    parent_digest: Digest,
    expected_block_mmr: MmrAccumulatorView,
    now: Timestamp,
    network: Network,
    context: ConsensusContext,
) -> Option<BlockValidationError> {
    if parent.height.spec_next() != header.height {
        Some(BlockValidationError::BlockHeight)
    } else if parent_digest != header.prev_block_digest {
        Some(BlockValidationError::PrevBlockDigest)
    } else if block_mmr != expected_block_mmr {
        Some(BlockValidationError::BlockMmrUpdate)
    } else if parent.timestamp.spec_plus(network.minimum_block_time).millis
        > header.timestamp.millis {
        Some(BlockValidationError::MinimumBlockTime)
    } else if header.difficulty != expected_difficulty(header, parent, network, context) {
        Some(BlockValidationError::Difficulty)
    } else if header.cumulative_proof_of_work.number()
        != parent.cumulative_proof_of_work.number() + parent.difficulty.number() {
        Some(BlockValidationError::CumulativeProofOfWork)
    } else if header.timestamp.millis >= now.spec_plus(
        Timestamp { millis: FUTUREDATING_LIMIT },
    ).millis {
        Some(BlockValidationError::FutureDating)
    } else {
        None
    }
}

/// Checks a header and a block MMR, given the header of the predecessor, its digest, and its block
/// MMR with that digest appended.
pub fn validate_header(
    header: &BlockHeader,
    block_mmr: &MmrAccumulator,
    parent: &BlockHeader,
    parent_digest: &Digest,
    expected_block_mmr: &MmrAccumulator,
    now: Timestamp,
    network: &Network,
    context: &ConsensusContext,
) -> (r: Result<(), BlockValidationError>)
    ensures
        match header_error(
            *header,
            block_mmr@,
            *parent,
            *parent_digest,
            expected_block_mmr@,
            now,
            *network,
            *context,
        ) {
            Some(e) => r == Err::<(), BlockValidationError>(e),
            None => r is Ok,
        },
{
    if parent.height.next() != header.height {
        return Err(BlockValidationError::BlockHeight);
    }
    if *parent_digest != header.prev_block_digest {
        return Err(BlockValidationError::PrevBlockDigest);
    }
    if !block_mmr.same(expected_block_mmr) {
        return Err(BlockValidationError::BlockMmrUpdate);
    }
    if parent.timestamp.plus(network.minimum_block_time).millis > header.timestamp.millis {
        return Err(BlockValidationError::MinimumBlockTime);
    }
    let expected_difficulty = if Block::should_reset_difficulty(
        network,
        header.timestamp,
        parent.timestamp,
    ) {
        network.genesis_difficulty
    } else {
        context.controlled_difficulty
    };
    if header.difficulty != expected_difficulty {
        return Err(BlockValidationError::Difficulty);
    }
    let expected = match parent.cumulative_proof_of_work.plus(&parent.difficulty) {
        Some(expected) => expected,
        None => {
            return Err(BlockValidationError::CumulativeProofOfWork);
        },
    };
    if header.cumulative_proof_of_work != expected {
        proof {
            if header.cumulative_proof_of_work.number() == expected.number() {
                lemma_proof_of_work_number_injective(header.cumulative_proof_of_work, expected);
            }
        }
        return Err(BlockValidationError::CumulativeProofOfWork);
    }
    let future_limit = now.plus(Timestamp::from_millis(FUTUREDATING_LIMIT));
    if header.timestamp.millis >= future_limit.millis {
        return Err(BlockValidationError::FutureDating);
    }
    Ok(())
}

impl Block {
    /// The first thing that is wrong with the block as a successor, as far as the header is
    /// concerned.
    pub open spec fn header_error(
        self,
        previous: Block,
        now: Timestamp,
        network: Network,
        context: ConsensusContext,
    ) -> Option<BlockValidationError> {
        header_error(
            self.spec_header(),
            self.spec_body().block_mmr_accumulator@,
            previous.spec_header(),
            previous.spec_hash(),
            previous.spec_body().block_mmr_accumulator@.append(previous.spec_hash()),
            now,
            network,
            context,
        )
    }

    /// The first thing that is wrong with the block's appendix, or with the form of its proof.
    pub open spec fn appendix_error(self, context: ConsensusContext) -> Option<
        BlockValidationError,
    > {
        if !all_claimed(context.required_claims@, self.spec_appendix().claims@) {
            Some(BlockValidationError::AppendixMissingClaim)
        } else if self.spec_appendix().claims@.len() > context.max_num_claims {
            Some(BlockValidationError::AppendixTooLarge)
        } else if !(self.spec_proof() is SingleProof) {
            Some(BlockValidationError::ProofQuality)
        } else {
            None
        }
    }

    /// Whether the block is too large for its height.
    pub open spec fn is_too_large(self) -> bool {
        if self.spec_header().height.value < BLOCK_HEIGHT_HF_1 {
            self.spec_size() > MAX_BLOCK_SIZE_BEFORE_HF_1
        } else {
            self.spec_size() > MAX_BLOCK_SIZE_AFTER_HF_1
        }
    }

    /// The first thing that is wrong with how the block changes the mutator set.
    pub open spec fn mutator_set_error(self, previous: Block, answers: MutatorSetAnswers) -> Option<
        BlockValidationError,
    > {
        if !previous.guesser_reward_is_defined() {
            Some(BlockValidationError::NegativeFee)
        } else if !all_removable(
            answers.can_remove@,
            self.spec_body().transaction_kernel.inputs@,
        ) {
            Some(BlockValidationError::RemovalRecordsValid)
        } else if !distinct_indices(self.spec_body().transaction_kernel.inputs@) {
            Some(BlockValidationError::RemovalRecordsUnique)
        } else {
            match answers.digest_after {
                None => Some(BlockValidationError::MutatorSetUpdatePossible),
                Some(digest) => if digest != self.spec_body().mutator_set_accumulator@.digest {
                    Some(BlockValidationError::MutatorSetUpdateIntegral)
                } else {
                    None
                },
            }
        }
    }

    /// The first thing that is wrong with the block's transaction itself.
    pub open spec fn transaction_error(self) -> Option<BlockValidationError> {
        let kernel = self.spec_body().transaction_kernel;
        let header = self.spec_header();
        let limit = MAX_NUM_INPUTS_OUTPUTS_PUB_ANNOUNCEMENTS_AFTER_HF_1;
        let limited = header.height.value >= BLOCK_HEIGHT_HF_1;
        if kernel.timestamp.millis > header.timestamp.millis {
            Some(BlockValidationError::TransactionTimestamp)
        } else if kernel.coinbase is Some && kernel.coinbase->0.nau > subsidy(header.height) {
            Some(BlockValidationError::CoinbaseTooBig)
        } else if kernel.coinbase is Some && kernel.coinbase->0.nau < 0 {
            Some(BlockValidationError::CoinbaseTooSmall)
        } else if kernel.fee.nau < 0 {
            Some(BlockValidationError::NegativeFee)
        } else if limited && kernel.inputs@.len() > limit {
            Some(BlockValidationError::TooManyInputs)
        } else if limited && kernel.outputs@.len() > limit {
            Some(BlockValidationError::TooManyOutputs)
        } else if limited && kernel.public_announcements@.len() > limit {
            Some(BlockValidationError::TooManyPublicAnnouncements)
        } else {
            None
        }
    }

    /// The first thing that is wrong with the block before its proof is looked at.
    pub open spec fn error_before_proof(
        self,
        previous: Block,
        now: Timestamp,
        network: Network,
        context: ConsensusContext,
    ) -> Option<BlockValidationError> {
        match self.header_error(previous, now, network, context) {
            Some(e) => Some(e),
            None => self.appendix_error(context),
        }
    }

    /// The first thing that is wrong with the block once its proof has been verified.
    pub open spec fn error_after_proof(self, previous: Block, answers: MutatorSetAnswers) -> Option<
        BlockValidationError,
    > {
        if self.is_too_large() {
            Some(BlockValidationError::MaxSize)
        } else {
            match self.mutator_set_error(previous, answers) {
                Some(e) => Some(e),
                None => self.transaction_error(),
            }
        }
    }

    /// The first thing that is wrong with the block as a successor.
    pub open spec fn first_error(
        self,
        previous: Block,
        now: Timestamp,
        network: Network,
        context: ConsensusContext,
        proof_is_valid: bool,
        answers: MutatorSetAnswers,
    ) -> Option<BlockValidationError> {
        match self.error_before_proof(previous, now, network, context) {
            Some(e) => Some(e),
            None => if !proof_is_valid {
                Some(BlockValidationError::ProofValidity)
            } else {
                self.error_after_proof(previous, answers)
            },
        }
    }

    /// Checks everything about a block that comes before the verification of its proof.
    pub fn validate_before_proof(
        &self,
        previous_block: &Block,
        now: Timestamp,
        network: &Network,
        context: &ConsensusContext,
    ) -> (r: Result<(), BlockValidationError>)
        requires
            previous_block.spec_body().block_mmr_accumulator@.consistent(),
        ensures
            match self.error_before_proof(*previous_block, now, *network, *context) {
                Some(e) => r == Err::<(), BlockValidationError>(e),
                None => r is Ok,
            },
    {
        let parent_digest = previous_block.hash();
        let expected_block_mmr = previous_block.body().block_mmr_accumulator.appended(
            &parent_digest,
        );
        match validate_header(
            self.header(),
            &self.body().block_mmr_accumulator,
            previous_block.header(),
            &parent_digest,
            &expected_block_mmr,
            now,
            network,
            context,
        ) {
            Ok(()) => {},
            Err(e) => {
                return Err(e);
            },
        }
        if !are_all_claimed(&context.required_claims, self) {
            return Err(BlockValidationError::AppendixMissingClaim);
        }
        if self.appendix().len() > context.max_num_claims {
            return Err(BlockValidationError::AppendixTooLarge);
        }
        match self.block_proof() {
            BlockProof::SingleProof(_) => Ok(()),
            _ => Err(BlockValidationError::ProofQuality),
        }
    }

    fn validate_transaction(&self) -> (r: Result<(), BlockValidationError>)
        ensures
            match self.transaction_error() {
                Some(e) => r == Err::<(), BlockValidationError>(e),
                None => r is Ok,
            },
    {
        let header = self.header();
        let kernel = &self.body().transaction_kernel;
        if kernel.timestamp.millis > header.timestamp.millis {
            return Err(BlockValidationError::TransactionTimestamp);
        }
        let block_subsidy = Block::block_subsidy(header.height);
        if let Some(coinbase) = kernel.coinbase {
            if coinbase.nau > block_subsidy.nau {
                return Err(BlockValidationError::CoinbaseTooBig);
            }
            if coinbase.is_negative() {
                return Err(BlockValidationError::CoinbaseTooSmall);
            }
        }
        if kernel.fee.is_negative() {
            return Err(BlockValidationError::NegativeFee);
        }
        if header.height.value >= BLOCK_HEIGHT_HF_1 {
            let limit: usize = MAX_NUM_INPUTS_OUTPUTS_PUB_ANNOUNCEMENTS_AFTER_HF_1;
            if kernel.inputs.len() > limit {
                return Err(BlockValidationError::TooManyInputs);
            }
            if kernel.outputs.len() > limit {
                return Err(BlockValidationError::TooManyOutputs);
            }
            if kernel.public_announcements.len() > limit {
                return Err(BlockValidationError::TooManyPublicAnnouncements);
            }
        }
        Ok(())
    }

    /// Checks everything about a block that comes after the verification of its proof.
    pub fn validate_after_proof(&self, previous_block: &Block, answers: &MutatorSetAnswers) -> (r:
        Result<(), BlockValidationError>)
        ensures
            match self.error_after_proof(*previous_block, *answers) {
                Some(e) => r == Err::<(), BlockValidationError>(e),
                None => r is Ok,
            },
            r == Err::<(), BlockValidationError>(BlockValidationError::RemovalRecordsValid) ==> (
            answers.can_remove@.len() != self.spec_body().transaction_kernel.inputs@.len()
                || exists|i: int|
                0 <= i < answers.can_remove@.len() && !(#[trigger] answers.can_remove@[i])),
    {
        let size: usize = self.size();
        if self.header().height.value < BLOCK_HEIGHT_HF_1 && size > MAX_BLOCK_SIZE_BEFORE_HF_1 {
            return Err(BlockValidationError::MaxSize);
        }
        if self.header().height.value >= BLOCK_HEIGHT_HF_1 && size > MAX_BLOCK_SIZE_AFTER_HF_1 {
            return Err(BlockValidationError::MaxSize);
        }
        if !previous_block.header().height.is_genesis() {
            match previous_block.total_guesser_reward() {
                Ok(_) => {},
                Err(e) => {
                    return Err(e);
                },
            }
        }
        if answers.can_remove.len() != self.body().transaction_kernel.inputs.len()
            || !is_all_yes(&answers.can_remove) {
            return Err(BlockValidationError::RemovalRecordsValid);
        }
        if !has_distinct_indices(&self.body().transaction_kernel.inputs) {
            return Err(BlockValidationError::RemovalRecordsUnique);
        }
        match answers.digest_after {
            None => {
                return Err(BlockValidationError::MutatorSetUpdatePossible);
            },
            Some(digest) => {
                if digest != self.body().mutator_set_accumulator.hash() {
                    return Err(BlockValidationError::MutatorSetUpdateIntegral);
                }
            },
        }
        self.validate_transaction()
    }

    /// Checks that the block is a valid successor of a block that is valid itself. The first thing
    /// that is wrong is returned.
    ///
    /// This does **not** check that the block has enough proof-of-work. That must be done
    /// separately, by [`Block::has_proof_of_work`].
    pub fn validate(
        &self,
        previous_block: &Block,
        now: Timestamp,
        network: &Network,
        context: &ConsensusContext,
        proof_is_valid: bool,
        answers: &MutatorSetAnswers,
    ) -> (r: Result<(), BlockValidationError>)
        requires
            previous_block.spec_body().block_mmr_accumulator@.consistent(),
        ensures
            match self.first_error(
                *previous_block,
                now,
                *network,
                *context,
                proof_is_valid,
                *answers,
            ) {
                Some(e) => r == Err::<(), BlockValidationError>(e),
                None => r is Ok,
            },
    {
        match self.validate_before_proof(previous_block, now, network, context) {
            Ok(()) => {},
            Err(e) => {
                return Err(e);
            },
        }
        if !proof_is_valid {
            return Err(BlockValidationError::ProofValidity);
        }
        self.validate_after_proof(previous_block, answers)
    }

    /// Whether the block is a valid successor of a block that is valid itself.
    ///
    /// This does **not** check that the block has enough proof-of-work. That must be done
    /// separately, by [`Block::has_proof_of_work`].
    pub fn is_valid(
        &self,
        previous_block: &Block,
        now: Timestamp,
        network: &Network,
        context: &ConsensusContext,
        proof_is_valid: bool,
        answers: &MutatorSetAnswers,
    ) -> (r: bool)
        requires
            previous_block.spec_body().block_mmr_accumulator@.consistent(),
        ensures
            r == (self.first_error(
                *previous_block,
                now,
                *network,
                *context,
                proof_is_valid,
                *answers,
            ) is None),
    {
        match self.validate(previous_block, now, network, context, proof_is_valid, answers) {
            Ok(()) => true,
            Err(_) => false,
        }
    }

    /// What the block's transaction changes in the mutator set, without the guesser's reward.
    pub fn transaction_update(&self) -> (u: MutatorSetUpdate)
        ensures
            u@ == (MutatorSetUpdateView {
                removals: removal_views(self.spec_body().transaction_kernel.inputs@),
                additions: self.spec_body().transaction_kernel.outputs@,
            }),
    {
        let kernel = &self.body().transaction_kernel;
        MutatorSetUpdate {
            removals: duplicate_removals(&kernel.inputs),
            additions: kernel.outputs.clone(),
        }
    }
}

} // verus!
