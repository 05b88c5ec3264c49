//! What holds of every chain of valid blocks.

use vstd::prelude::*;

use crate::amount::NAU_PER_COIN;
use crate::block::claim_views;
use crate::block::codec::appendix_code;
use crate::block::codec::block_kernel_code;
use crate::block::codec::body_code;
use crate::block::codec::header_code;
use crate::block::codec::proof_code;
use crate::block::codec::sized;
use crate::block::mast::lemma_code_depends_on_contents;
use crate::block::mast::lemma_digest_depends_on_contents;
use crate::block::premine::PREMINE_COINS;
use crate::block::rewards::lemma_subsidies_are_capped;
use crate::block::rewards::lemma_subsidy_steps;
use crate::block::rewards::subsidy;
use crate::block::rewards::total_subsidies;
use crate::block::same_block;
use crate::block::validation::all_claimed;
use crate::block::validation::distinct_indices;
use crate::block::validation::ConsensusContext;
use crate::block::validation::MutatorSetAnswers;
use crate::block::Block;
use crate::block::BlockHeader;
use crate::digest::Digest;
use crate::field::P;
use crate::network::Network;
use crate::timestamp::Timestamp;
use crate::transaction::messages;
use crate::transaction::removal_views;
use crate::transaction::AdditionRecord;
use crate::transaction::MutatorSetUpdateView;
use crate::transaction::RemovalRecord;
use crate::transaction::RemovalRecordView;
use crate::transaction::TypeScriptHashes;

verus! {

/// What a block was validated with.
pub struct Validation {
    pub now: Timestamp,
    pub context: ConsensusContext,
    pub proof_is_valid: bool,
    pub answers: MutatorSetAnswers,
}

/// Every block but the first is a valid successor of the one before it. The first has height zero
/// and no predecessors.
pub open spec fn valid_chain(
    blocks: Seq<Block>,
    validations: Seq<Validation>,
    network: Network,
) -> bool {
    &&& 0 < blocks.len() <= P
    &&& validations.len() == blocks.len()
    &&& blocks[0].spec_header().height.value == 0
    &&& blocks[0].spec_body().block_mmr_accumulator@.leaf_count == 0
    &&& forall|i: int|
        0 < i < blocks.len() ==> (#[trigger] blocks[i]).first_error(
            blocks[i - 1],
            validations[i].now,
            network,
            validations[i].context,
            validations[i].proof_is_valid,
            validations[i].answers,
        ) is None
}

/// The difficulties of the first `count` blocks, added up.
pub open spec fn total_difficulty(blocks: Seq<Block>, count: nat) -> int
    decreases count,
{
    if count == 0 {
        0
    } else {
        total_difficulty(blocks, (count - 1) as nat) + blocks[count
            - 1].spec_header().difficulty.number()
    }
}

/// The coinbase of a block in Neptune atomic units.
pub open spec fn coinbase_nau(block: Block) -> int {
    match block.spec_body().transaction_kernel.coinbase {
        Some(coinbase) => coinbase.nau as int,
        None => 0,
    }
}

/// The coinbases of all blocks after the first one up to the given index, added up.
pub open spec fn total_coinbase(blocks: Seq<Block>, last: nat) -> int
    decreases last,
{
    if last == 0 {
        0
    } else {
        total_coinbase(blocks, (last - 1) as nat) + coinbase_nau(blocks[last as int])
    }
}

/// In a chain of valid blocks, the height of a block, and the number of leafs in its block MMR, is
/// the number of its predecessors.
pub proof fn lemma_heights_count_predecessors(
    blocks: Seq<Block>,
    validations: Seq<Validation>,
    network: Network,
    i: nat,
)
    requires
        valid_chain(blocks, validations, network),
        i < blocks.len(),
    ensures
        blocks[i as int].spec_header().height.value == i,
        blocks[i as int].spec_body().block_mmr_accumulator@.leaf_count == i,
    decreases i,
{
    if i > 0 {
        lemma_heights_count_predecessors(blocks, validations, network, (i - 1) as nat);
        vstd::arithmetic::div_mod::lemma_small_mod(i, P as nat);
    }
}

/// In a chain of valid blocks, every block names the digest of the one before it, and its block
/// MMR is that of the one before it with that digest appended.
pub proof fn lemma_blocks_are_linked(
    blocks: Seq<Block>,
    validations: Seq<Validation>,
    network: Network,
    i: int,
)
    requires
        valid_chain(blocks, validations, network),
        0 < i < blocks.len(),
    ensures
        blocks[i].spec_header().prev_block_digest == blocks[i - 1].spec_hash(),
        blocks[i].spec_body().block_mmr_accumulator@ == blocks[i
            - 1].spec_body().block_mmr_accumulator@.append(blocks[i - 1].spec_hash()),
{
}

/// In a chain of valid blocks, the cumulative proof-of-work of a block exceeds that of the first
/// block by the difficulties of all its predecessors.
pub proof fn lemma_proof_of_work_accumulates(
    blocks: Seq<Block>,
    validations: Seq<Validation>,
    network: Network,
    i: nat,
)
    requires
        valid_chain(blocks, validations, network),
        i < blocks.len(),
    ensures
        blocks[i as int].spec_header().cumulative_proof_of_work.number()
            == blocks[0].spec_header().cumulative_proof_of_work.number() + total_difficulty(
            blocks,
            i,
        ),
    decreases i,
{
    if i > 0 {
        lemma_proof_of_work_accumulates(blocks, validations, network, (i - 1) as nat);
    }
}

/// In a chain of valid blocks, the coinbases never exceed the subsidies, and so the premine and all
/// coinbases together never exceed 42 million coins.
pub proof fn lemma_supply_is_capped(
    blocks: Seq<Block>,
    validations: Seq<Validation>,
    network: Network,
    i: nat,
)
    requires
        valid_chain(blocks, validations, network),
        i < blocks.len(),
    ensures
        0 <= total_coinbase(blocks, i) <= total_subsidies(i),
        PREMINE_COINS * NAU_PER_COIN as int + total_coinbase(blocks, i) <= 42_000_000
            * NAU_PER_COIN as int,
    decreases i,
{
    if i > 0 {
        lemma_supply_is_capped(blocks, validations, network, (i - 1) as nat);
        lemma_heights_count_predecessors(blocks, validations, network, i);
        let block = blocks[i as int];
        lemma_subsidy_steps(block.spec_header().height);
        assert(block.transaction_error() is None);
        assert(0 <= coinbase_nau(block) <= subsidy(block.spec_header().height)) by {
            let h = block.spec_header().height;
            vstd::arithmetic::power2::lemma_pow2_pos(h.spec_generation() as nat);
            vstd::arithmetic::div_mod::lemma_div_pos_is_pos(
                crate::block::rewards::INITIAL_BLOCK_SUBSIDY as int,
                vstd::arithmetic::power2::pow2(h.spec_generation() as nat) as int,
            );
        }
    }
    lemma_subsidies_are_capped(i);
}

/// Every header takes the same number of field elements.
proof fn lemma_header_code_len(h: BlockHeader)
    ensures
        header_code(h).len() == 29,
{
}

/// The size of a block does not depend on what is in its header.
proof fn lemma_size_does_not_depend_on_header(a: Block, b: Block)
    requires
        a.spec_body() == b.spec_body(),
        a.spec_appendix() == b.spec_appendix(),
        a.spec_proof() == b.spec_proof(),
    ensures
        a.spec_size() == b.spec_size(),
{
    lemma_header_code_len(a.spec_header());
    lemma_header_code_len(b.spec_header());
    assert(block_kernel_code(a.spec_kernel()).len() == sized(
        appendix_code(a.spec_appendix()),
    ).len() + sized(body_code(a.spec_body())).len() + 29);
    assert(block_kernel_code(b.spec_kernel()).len() == sized(
        appendix_code(b.spec_appendix()),
    ).len() + sized(body_code(b.spec_body())).len() + 29);
}

/// Guessers can change the nonce and the guesser digest of a block at will: whether the block is a
/// valid successor, and if not, why, does not depend on them.
pub proof fn lemma_guesser_fields_do_not_affect_validity(
    a: Block,
    b: Block,
    previous: Block,
    validation: Validation,
    network: Network,
)
    requires
        b.spec_header() == (BlockHeader {
            nonce: b.spec_header().nonce,
            guesser_digest: b.spec_header().guesser_digest,
            ..a.spec_header()
        }),
        a.spec_body() == b.spec_body(),
        a.spec_appendix() == b.spec_appendix(),
        a.spec_proof() == b.spec_proof(),
    ensures
        a.first_error(
            previous,
            validation.now,
            network,
            validation.context,
            validation.proof_is_valid,
            validation.answers,
        ) == b.first_error(
            previous,
            validation.now,
            network,
            validation.context,
            validation.proof_is_valid,
            validation.answers,
        ),
{
    lemma_size_does_not_depend_on_header(a, b);
    assert(a.header_error(previous, validation.now, network, validation.context) == b.header_error(
        previous,
        validation.now,
        network,
        validation.context,
    ));
    assert(a.appendix_error(validation.context) == b.appendix_error(validation.context));
    assert(a.is_too_large() == b.is_too_large());
    assert(a.mutator_set_error(previous, validation.answers) == b.mutator_set_error(
        previous,
        validation.answers,
    ));
    assert(a.transaction_error() == b.transaction_error());
}

/// Blocks with the same contents, such as a block and its clone, are judged alike: on top of
/// predecessors with the same contents, both are valid, or the same thing is wrong with both.
pub proof fn lemma_same_blocks_are_judged_alike(
    a: Block,
    b: Block,
    previous_a: Block,
    previous_b: Block,
    validation: Validation,
    network: Network,
)
    requires
        same_block(a, b),
        same_block(previous_a, previous_b),
    ensures
        a.first_error(
            previous_a,
            validation.now,
            network,
            validation.context,
            validation.proof_is_valid,
            validation.answers,
        ) == b.first_error(
            previous_b,
            validation.now,
            network,
            validation.context,
            validation.proof_is_valid,
            validation.answers,
        ),
{
    lemma_same_header_error(a, b, previous_a, previous_b, validation, network);
    lemma_same_appendix_error(a, b, validation.context);
    lemma_same_size(a, b);
    lemma_same_mutator_set_error(a, b, previous_a, previous_b, validation.answers);
    lemma_same_transaction_error(a, b);
    assert(a.error_before_proof(previous_a, validation.now, network, validation.context)
        == b.error_before_proof(previous_b, validation.now, network, validation.context));
    assert(a.error_after_proof(previous_a, validation.answers) == b.error_after_proof(
        previous_b,
        validation.answers,
    ));
}

proof fn lemma_same_header_error(
    a: Block,
    b: Block,
    previous_a: Block,
    previous_b: Block,
    validation: Validation,
    network: Network,
)
    requires
        same_block(a, b),
        same_block(previous_a, previous_b),
    ensures
        a.header_error(previous_a, validation.now, network, validation.context) == b.header_error(
            previous_b,
            validation.now,
            network,
            validation.context,
        ),
{
    lemma_digest_depends_on_contents(previous_a.spec_kernel(), previous_b.spec_kernel());
    assert(a.spec_body()@.block_mmr_accumulator == b.spec_body()@.block_mmr_accumulator);
    assert(previous_a.spec_body()@.block_mmr_accumulator
        == previous_b.spec_body()@.block_mmr_accumulator);
}

proof fn lemma_same_appendix_error(a: Block, b: Block, context: ConsensusContext)
    requires
        same_block(a, b),
    ensures
        a.appendix_error(context) == b.appendix_error(context),
{
    let ca = a.spec_appendix().claims@;
    let cb = b.spec_appendix().claims@;
    assert(claim_views(ca).len() == claim_views(cb).len());
    assert(all_claimed(context.required_claims@, ca) == all_claimed(context.required_claims@, cb));
}

proof fn lemma_same_size(a: Block, b: Block)
    requires
        same_block(a, b),
    ensures
        a.is_too_large() == b.is_too_large(),
{
    lemma_code_depends_on_contents(a.spec_kernel(), b.spec_kernel());
    assert(proof_code(a.spec_proof()) == proof_code(b.spec_proof()));
}

proof fn lemma_same_mutator_set_error(
    a: Block,
    b: Block,
    previous_a: Block,
    previous_b: Block,
    answers: MutatorSetAnswers,
)
    requires
        same_block(a, b),
        same_block(previous_a, previous_b),
    ensures
        a.mutator_set_error(previous_a, answers) == b.mutator_set_error(previous_b, answers),
{
    let ia = a.spec_body().transaction_kernel.inputs@;
    let ib = b.spec_body().transaction_kernel.inputs@;
    assert(a.spec_body()@.transaction_kernel.inputs == b.spec_body()@.transaction_kernel.inputs);
    assert(a.spec_body()@.mutator_set_accumulator == b.spec_body()@.mutator_set_accumulator);
    assert(previous_a.spec_body()@.transaction_kernel.fee
        == previous_b.spec_body()@.transaction_kernel.fee);
    assert(removal_views(ia).len() == removal_views(ib).len());
    lemma_distinctness_depends_on_contents(ia, ib);
    lemma_distinctness_depends_on_contents(ib, ia);
}

proof fn lemma_same_transaction_error(a: Block, b: Block)
    requires
        same_block(a, b),
    ensures
        a.transaction_error() == b.transaction_error(),
{
    let ka = a.spec_body().transaction_kernel;
    let kb = b.spec_body().transaction_kernel;
    assert(a.spec_body()@.transaction_kernel == b.spec_body()@.transaction_kernel);
    assert(removal_views(ka.inputs@).len() == removal_views(kb.inputs@).len());
    assert(messages(ka.public_announcements@).len() == messages(kb.public_announcements@).len());
}

/// Whether records have distinct indices depends on what they consist of alone.
proof fn lemma_distinctness_depends_on_contents(a: Seq<RemovalRecord>, b: Seq<RemovalRecord>)
    requires
        removal_views(a) == removal_views(b),
    ensures
        distinct_indices(a) ==> distinct_indices(b),
{
    assert(removal_views(a).len() == a.len() && removal_views(b).len() == b.len());
    if distinct_indices(a) {
        assert forall|i: int, j: int|
            #![trigger b[i].absolute_indices@, b[j].absolute_indices@]
            0 <= i < j < b.len() implies b[i].absolute_indices@ != b[j].absolute_indices@ by {
            let x = a[i].absolute_indices@;
            let y = a[j].absolute_indices@;
            assert(removal_views(a)[i] == a[i]@ && removal_views(a)[j] == a[j]@);
            assert(removal_views(b)[i] == b[i]@ && removal_views(b)[j] == b[j]@);
            assert(x != y);
        }
    }
}

/// The mutator set update of a valid block leads from the mutator set after its predecessor to the
/// one after the block, which is that of the body with the guesser's reward added.
///
/// Mutator sets stand for themselves by their digests here, and `apply` is what an update makes of
/// one. All that is supposed of it is that additions can be made at once or one part after the
/// other; `before` is the mutator set after the predecessor, and the answers that the block was
/// validated with were given by it.
pub proof fn lemma_update_leads_to_next_mutator_set(
    block: Block,
    previous: Block,
    validation: Validation,
    network: Network,
    before: Digest,
    apply: spec_fn(Digest, MutatorSetUpdateView) -> Digest,
    lock_script_hash: Digest,
    scripts: TypeScriptHashes,
)
    requires
        block.first_error(
            previous,
            validation.now,
            network,
            validation.context,
            validation.proof_is_valid,
            validation.answers,
        ) is None,
        validation.answers.digest_after matches Some(digest) ==> digest == apply(
            before,
            (MutatorSetUpdateView {
                removals: removal_views(block.spec_body().transaction_kernel.inputs@),
                additions: block.spec_body().transaction_kernel.outputs@,
            }),
        ),
        forall|
            set: Digest,
            removals: Seq<RemovalRecordView>,
            first: Seq<AdditionRecord>,
            second: Seq<AdditionRecord>,
        | #[trigger]
            apply(set, (MutatorSetUpdateView { removals, additions: first + second })) == apply(
                apply(set, (MutatorSetUpdateView { removals, additions: first })),
                (MutatorSetUpdateView { removals: Seq::empty(), additions: second }),
            ),
    ensures
        apply(before, block.spec_mutator_set_update(lock_script_hash, scripts)) == apply(
            block.spec_body().mutator_set_accumulator@.digest,
            (MutatorSetUpdateView {
                removals: Seq::empty(),
                additions: block.spec_guesser_fee_addition_records(lock_script_hash, scripts),
            }),
        ),
{
    assert(block.mutator_set_error(previous, validation.answers) is None);
    let kernel = block.spec_body().transaction_kernel;
    let records = block.spec_guesser_fee_addition_records(lock_script_hash, scripts);
    let update = block.spec_mutator_set_update(lock_script_hash, scripts);
    assert(update == (MutatorSetUpdateView {
        removals: removal_views(kernel.inputs@),
        additions: kernel.outputs@ + records,
    }));
}

} // verus!
