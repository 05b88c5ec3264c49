//! Digests commit to everything they are made of.

use vstd::prelude::*;

use crate::block::claim_views;
use crate::block::codec::additions_code;
use crate::block::codec::amount_code;
use crate::block::codec::announcements_code;
use crate::block::codec::appendix_code;
use crate::block::codec::bool_code;
use crate::block::codec::coinbase_code;
use crate::block::codec::difficulty_code;
use crate::block::codec::mmr_code;
use crate::block::codec::proof_of_work_code;
use crate::block::codec::removals_code;
use crate::block::mast::body_digest;
use crate::block::mast::header_digest;
use crate::block::mast::kernel_digest;
use crate::block::mast::transaction_kernel_digest;
use crate::block::Block;
use crate::block::BlockBody;
use crate::block::BlockHeader;
use crate::block::BlockKernel;
use crate::digest::merkle_root_of;
use crate::digest::tip5_hash_pair;
use crate::digest::tip5_hash_varlen;
use crate::digest::Digest;
use crate::laws::encoding::lemma_additions_code_injective;
use crate::laws::encoding::lemma_amount_code_injective;
use crate::laws::encoding::lemma_announcements_code_injective;
use crate::laws::encoding::lemma_appendix_code_injective;
use crate::laws::encoding::lemma_bool_code_injective;
use crate::laws::encoding::lemma_coinbase_code_injective;
use crate::laws::encoding::lemma_difficulty_code_injective;
use crate::laws::encoding::lemma_digest_values_injective;
use crate::laws::encoding::lemma_mmr_code_injective;
use crate::laws::encoding::lemma_proof_of_work_code_injective;
use crate::laws::encoding::lemma_removals_code_injective;
use crate::transaction::TransactionKernel;

verus! {

/// The root of a Merkle tree with four leafs, node by node.
pub proof fn lemma_merkle_root_of_four(leafs: Seq<Digest>)
    requires
        leafs.len() == 4,
    ensures
        merkle_root_of(leafs) == tip5_hash_pair(
            tip5_hash_pair(leafs[0], leafs[1]),
            tip5_hash_pair(leafs[2], leafs[3]),
        ),
{
    let l = leafs.take(2);
    let r = leafs.skip(2);
    assert(l.len() == 2 && r.len() == 2);
    lemma_merkle_root_of_two(l);
    lemma_merkle_root_of_two(r);
    assert(4int / 2 == 2);
}

proof fn lemma_merkle_root_of_two(leafs: Seq<Digest>)
    requires
        leafs.len() == 2,
    ensures
        merkle_root_of(leafs) == tip5_hash_pair(leafs[0], leafs[1]),
{
    reveal_with_fuel(merkle_root_of, 2);
    assert(2int / 2 == 1);
    assert(leafs.take(1).len() == 1 && leafs.skip(1).len() == 1);
}

/// The root of a Merkle tree with eight leafs, node by node.
pub proof fn lemma_merkle_root_of_eight(leafs: Seq<Digest>)
    requires
        leafs.len() == 8,
    ensures
        merkle_root_of(leafs) == tip5_hash_pair(
            tip5_hash_pair(
                tip5_hash_pair(leafs[0], leafs[1]),
                tip5_hash_pair(leafs[2], leafs[3]),
            ),
            tip5_hash_pair(
                tip5_hash_pair(leafs[4], leafs[5]),
                tip5_hash_pair(leafs[6], leafs[7]),
            ),
        ),
{
    let l = leafs.take(4);
    let r = leafs.skip(4);
    assert(l.len() == 4 && r.len() == 4);
    lemma_merkle_root_of_four(l);
    lemma_merkle_root_of_four(r);
    assert(8int / 2 == 4);
}

/// Different sequences do not happen to have the same hash.
pub open spec fn no_collision(x: Seq<u64>, y: Seq<u64>) -> bool {
    tip5_hash_varlen(x) == tip5_hash_varlen(y) ==> x == y
}

/// Different lists of leafs do not happen to have the same Merkle root.
pub open spec fn no_tree_collision(x: Seq<Digest>, y: Seq<Digest>) -> bool {
    merkle_root_of(x) == merkle_root_of(y) ==> x == y
}

/// The leafs of the tree of a transaction kernel.
pub open spec fn transaction_leafs(k: TransactionKernel) -> Seq<Digest> {
    seq![
        tip5_hash_varlen(removals_code(k.inputs@)),
        tip5_hash_varlen(additions_code(k.outputs@)),
        tip5_hash_varlen(announcements_code(k.public_announcements@)),
        tip5_hash_varlen(amount_code(k.fee)),
        tip5_hash_varlen(coinbase_code(k.coinbase)),
        tip5_hash_varlen(seq![k.timestamp.millis]),
        tip5_hash_varlen(k.mutator_set_hash.values()),
        tip5_hash_varlen(bool_code(k.merge_bit)),
    ]
}

/// The leafs of the tree of a header.
pub open spec fn header_leafs(h: BlockHeader) -> Seq<Digest> {
    seq![
        tip5_hash_varlen(seq![h.version]),
        tip5_hash_varlen(seq![h.height.value]),
        tip5_hash_varlen(h.prev_block_digest.values()),
        tip5_hash_varlen(seq![h.timestamp.millis]),
        tip5_hash_varlen(h.nonce.values()),
        tip5_hash_varlen(proof_of_work_code(h.cumulative_proof_of_work)),
        tip5_hash_varlen(difficulty_code(h.difficulty)),
        tip5_hash_varlen(h.guesser_digest.values()),
    ]
}

/// The leafs of the tree of a body.
pub open spec fn body_leafs(b: BlockBody) -> Seq<Digest> {
    seq![
        tip5_hash_varlen(transaction_kernel_digest(b.transaction_kernel).values()),
        tip5_hash_varlen(b.mutator_set_accumulator.encoding@),
        tip5_hash_varlen(mmr_code(b.lock_free_mmr_accumulator)),
        tip5_hash_varlen(mmr_code(b.block_mmr_accumulator)),
    ]
}

/// The leafs of the tree of a block kernel.
pub open spec fn kernel_leafs(k: BlockKernel) -> Seq<Digest> {
    seq![
        tip5_hash_varlen(header_digest(k.header).values()),
        tip5_hash_varlen(body_digest(k.body).values()),
        tip5_hash_varlen(appendix_code(k.appendix)),
        Digest { e0: 0, e1: 0, e2: 0, e3: 0, e4: 0 },
    ]
}

/// Nothing that is hashed for one transaction kernel collides with what is hashed in its place for
/// another one; and the inputs and announcements of the first are not too long to be encoded.
pub open spec fn transactions_do_not_collide(a: TransactionKernel, b: TransactionKernel) -> bool {
    &&& no_tree_collision(transaction_leafs(a), transaction_leafs(b))
    &&& no_collision(removals_code(a.inputs@), removals_code(b.inputs@))
    &&& no_collision(additions_code(a.outputs@), additions_code(b.outputs@))
    &&& no_collision(
        announcements_code(a.public_announcements@),
        announcements_code(b.public_announcements@),
    )
    &&& no_collision(amount_code(a.fee), amount_code(b.fee))
    &&& no_collision(coinbase_code(a.coinbase), coinbase_code(b.coinbase))
    &&& no_collision(seq![a.timestamp.millis], seq![b.timestamp.millis])
    &&& no_collision(a.mutator_set_hash.values(), b.mutator_set_hash.values())
    &&& no_collision(bool_code(a.merge_bit), bool_code(b.merge_bit))
    &&& removals_code(a.inputs@).len() <= u64::MAX
    &&& announcements_code(a.public_announcements@).len() <= u64::MAX
}

/// Nothing that is hashed for one header collides with what is hashed in its place for another one.
pub open spec fn headers_do_not_collide(a: BlockHeader, b: BlockHeader) -> bool {
    &&& no_tree_collision(header_leafs(a), header_leafs(b))
    &&& no_collision(seq![a.version], seq![b.version])
    &&& no_collision(seq![a.height.value], seq![b.height.value])
    &&& no_collision(a.prev_block_digest.values(), b.prev_block_digest.values())
    &&& no_collision(seq![a.timestamp.millis], seq![b.timestamp.millis])
    &&& no_collision(a.nonce.values(), b.nonce.values())
    &&& no_collision(
        proof_of_work_code(a.cumulative_proof_of_work),
        proof_of_work_code(b.cumulative_proof_of_work),
    )
    &&& no_collision(difficulty_code(a.difficulty), difficulty_code(b.difficulty))
    &&& no_collision(a.guesser_digest.values(), b.guesser_digest.values())
}

/// Nothing that is hashed for one body collides with what is hashed in its place for another one;
/// and the accumulators of the first are not too long to be encoded.
pub open spec fn bodies_do_not_collide(a: BlockBody, b: BlockBody) -> bool {
    &&& no_tree_collision(body_leafs(a), body_leafs(b))
    &&& no_collision(
        transaction_kernel_digest(a.transaction_kernel).values(),
        transaction_kernel_digest(b.transaction_kernel).values(),
    )
    &&& no_collision(
        a.mutator_set_accumulator.encoding@,
        b.mutator_set_accumulator.encoding@,
    )
    &&& no_collision(mmr_code(a.lock_free_mmr_accumulator), mmr_code(b.lock_free_mmr_accumulator))
    &&& no_collision(mmr_code(a.block_mmr_accumulator), mmr_code(b.block_mmr_accumulator))
    &&& transactions_do_not_collide(a.transaction_kernel, b.transaction_kernel)
    &&& mmr_code(a.lock_free_mmr_accumulator).len() <= u64::MAX
    &&& mmr_code(a.block_mmr_accumulator).len() <= u64::MAX
}

/// Nothing that is hashed for one block collides with what is hashed in its place for another one;
/// and nothing in the first is too long to be encoded.
pub open spec fn kernels_do_not_collide(a: BlockKernel, b: BlockKernel) -> bool {
    &&& no_tree_collision(kernel_leafs(a), kernel_leafs(b))
    &&& no_collision(header_digest(a.header).values(), header_digest(b.header).values())
    &&& no_collision(body_digest(a.body).values(), body_digest(b.body).values())
    &&& no_collision(appendix_code(a.appendix), appendix_code(b.appendix))
    &&& headers_do_not_collide(a.header, b.header)
    &&& bodies_do_not_collide(a.body, b.body)
    &&& appendix_code(a.appendix).len() <= u64::MAX
}

/// The digest of a transaction kernel commits to all of it: kernels with the same digest have the
/// same inputs, outputs, announcements, fee, coinbase, timestamp, mutator set hash and merge bit,
/// unless hashes collide.
pub proof fn lemma_transaction_digest_commits(a: TransactionKernel, b: TransactionKernel)
    requires
        transaction_kernel_digest(a) == transaction_kernel_digest(b),
        transactions_do_not_collide(a, b),
    ensures
        a@ == b@,
{
    let la = transaction_leafs(a);
    let lb = transaction_leafs(b);
    assert(transaction_kernel_digest(a) == merkle_root_of(la));
    assert(transaction_kernel_digest(b) == merkle_root_of(lb));
    assert(la[0] == lb[0] && la[1] == lb[1] && la[2] == lb[2] && la[3] == lb[3]);
    assert(la[4] == lb[4] && la[5] == lb[5] && la[6] == lb[6] && la[7] == lb[7]);
    assert(a.inputs.len() == a.inputs@.len() && b.inputs.len() == b.inputs@.len());
    assert(a.outputs.len() == a.outputs@.len() && b.outputs.len() == b.outputs@.len());
    assert(a.public_announcements.len() == a.public_announcements@.len());
    assert(b.public_announcements.len() == b.public_announcements@.len());
    lemma_removals_code_injective(a.inputs@, b.inputs@);
    lemma_additions_code_injective(a.outputs@, b.outputs@);
    lemma_announcements_code_injective(a.public_announcements@, b.public_announcements@);
    lemma_amount_code_injective(a.fee, b.fee);
    lemma_coinbase_code_injective(a.coinbase, b.coinbase);
    assert(seq![a.timestamp.millis][0] == seq![b.timestamp.millis][0]);
    lemma_digest_values_injective(a.mutator_set_hash, b.mutator_set_hash);
    lemma_bool_code_injective(a.merge_bit, b.merge_bit);
}

/// The digest of a header commits to all of it, unless hashes collide.
pub proof fn lemma_header_digest_commits(a: BlockHeader, b: BlockHeader)
    requires
        header_digest(a) == header_digest(b),
        headers_do_not_collide(a, b),
    ensures
        a == b,
{
    let la = header_leafs(a);
    let lb = header_leafs(b);
    assert(header_digest(a) == merkle_root_of(la));
    assert(header_digest(b) == merkle_root_of(lb));
    assert(la[0] == lb[0] && la[1] == lb[1] && la[2] == lb[2] && la[3] == lb[3]);
    assert(la[4] == lb[4] && la[5] == lb[5] && la[6] == lb[6] && la[7] == lb[7]);
    assert(seq![a.version][0] == seq![b.version][0]);
    assert(seq![a.height.value][0] == seq![b.height.value][0]);
    assert(seq![a.timestamp.millis][0] == seq![b.timestamp.millis][0]);
    lemma_digest_values_injective(a.prev_block_digest, b.prev_block_digest);
    lemma_digest_values_injective(a.nonce, b.nonce);
    lemma_proof_of_work_code_injective(a.cumulative_proof_of_work, b.cumulative_proof_of_work);
    lemma_difficulty_code_injective(a.difficulty, b.difficulty);
    lemma_digest_values_injective(a.guesser_digest, b.guesser_digest);
}

/// The digest of a body commits to its transaction, to the encoding of its mutator set and to both
/// Merkle mountain ranges, unless hashes collide.
pub proof fn lemma_body_digest_commits(a: BlockBody, b: BlockBody)
    requires
        body_digest(a) == body_digest(b),
        bodies_do_not_collide(a, b),
    ensures
        a.transaction_kernel@ == b.transaction_kernel@,
        a.mutator_set_accumulator.encoding@ == b.mutator_set_accumulator.encoding@,
        a.lock_free_mmr_accumulator@ == b.lock_free_mmr_accumulator@,
        a.block_mmr_accumulator@ == b.block_mmr_accumulator@,
{
    let la = body_leafs(a);
    let lb = body_leafs(b);
    assert(body_digest(a) == merkle_root_of(la));
    assert(body_digest(b) == merkle_root_of(lb));
    assert(la[0] == lb[0] && la[1] == lb[1] && la[2] == lb[2] && la[3] == lb[3]);
    lemma_digest_values_injective(
        transaction_kernel_digest(a.transaction_kernel),
        transaction_kernel_digest(b.transaction_kernel),
    );
    lemma_transaction_digest_commits(a.transaction_kernel, b.transaction_kernel);
    lemma_mmr_code_injective(a.lock_free_mmr_accumulator, b.lock_free_mmr_accumulator);
    lemma_mmr_code_injective(a.block_mmr_accumulator, b.block_mmr_accumulator);
}

/// The digest of a block commits to everything in its header, body and appendix: blocks with the
/// same digest have the same header, the same transaction down to its inputs, the same accumulators
/// and the same claims, unless hashes collide.
pub proof fn lemma_block_digest_commits(a: Block, b: Block)
    requires
        a.spec_hash() == b.spec_hash(),
        kernels_do_not_collide(a.spec_kernel(), b.spec_kernel()),
    ensures
        a.spec_header() == b.spec_header(),
        a.spec_body().transaction_kernel@ == b.spec_body().transaction_kernel@,
        a.spec_body().mutator_set_accumulator.encoding@
            == b.spec_body().mutator_set_accumulator.encoding@,
        a.spec_body().lock_free_mmr_accumulator@ == b.spec_body().lock_free_mmr_accumulator@,
        a.spec_body().block_mmr_accumulator@ == b.spec_body().block_mmr_accumulator@,
        claim_views(a.spec_appendix().claims@) == claim_views(b.spec_appendix().claims@),
{
    let ka = a.spec_kernel();
    let kb = b.spec_kernel();
    let la = kernel_leafs(ka);
    let lb = kernel_leafs(kb);
    assert(kernel_digest(ka) == merkle_root_of(la));
    assert(kernel_digest(kb) == merkle_root_of(lb));
    assert(la[0] == lb[0] && la[1] == lb[1] && la[2] == lb[2]);
    lemma_digest_values_injective(header_digest(ka.header), header_digest(kb.header));
    lemma_digest_values_injective(body_digest(ka.body), body_digest(kb.body));
    lemma_header_digest_commits(ka.header, kb.header);
    lemma_body_digest_commits(ka.body, kb.body);
    lemma_appendix_code_injective(ka.appendix, kb.appendix);
}

} // verus!
