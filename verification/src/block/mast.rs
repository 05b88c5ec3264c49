//! Digests of blocks and their parts.
//!
//! A record's digest is the root of the Merkle tree whose leafs are the hashes of its encoded
//! fields, filled up with zeros to a power of two.

use vstd::prelude::*;

use crate::block::codec::additions_code;
use crate::block::codec::amount_code;
use crate::block::codec::announcements_code;
use crate::block::codec::appendix_code;
use crate::block::codec::block_kernel_code;
use crate::block::codec::body_code;
use crate::block::codec::bool_code;
use crate::block::codec::coinbase_code;
use crate::block::codec::difficulty_code;
use crate::block::codec::encode_additions;
use crate::block::codec::encode_amount;
use crate::block::codec::encode_announcements;
use crate::block::codec::encode_appendix;
use crate::block::codec::encode_bool;
use crate::block::codec::encode_coinbase;
use crate::block::codec::encode_difficulty;
use crate::block::codec::encode_digest;
use crate::block::codec::encode_element;
use crate::block::codec::encode_mmr;
use crate::block::codec::encode_proof_of_work;
use crate::block::codec::encode_removals;
use crate::block::codec::kernel_code;
use crate::block::codec::mmr_code;
use crate::block::codec::proof_of_work_code;
use crate::block::codec::announcement_code;
use crate::block::codec::claim_code;
use crate::block::codec::removal_code;
use crate::block::codec::removals_code;
use crate::block::codec::sized;
use crate::block::claim_views;
use crate::block::same_contents;
use crate::block::BlockBody;
use crate::block::BlockHeader;
use crate::block::BlockKernel;
use crate::block::Claim;
use crate::digest::hash_varlen;
use crate::digest::merkle_root;
use crate::digest::merkle_root_of;
use crate::digest::tip5_hash_varlen;
use crate::digest::Digest;
use crate::transaction::messages;
use crate::transaction::removal_views;
use crate::transaction::PublicAnnouncement;
use crate::transaction::RemovalRecord;
use crate::transaction::TransactionKernel;

verus! {

pub open spec fn transaction_kernel_digest(k: TransactionKernel) -> Digest {
    merkle_root_of(
        seq![
            tip5_hash_varlen(removals_code(k.inputs@)),
            tip5_hash_varlen(additions_code(k.outputs@)),
            tip5_hash_varlen(announcements_code(k.public_announcements@)),
            tip5_hash_varlen(amount_code(k.fee)),
            tip5_hash_varlen(coinbase_code(k.coinbase)),
            tip5_hash_varlen(seq![k.timestamp.millis]),
            tip5_hash_varlen(k.mutator_set_hash.values()),
            tip5_hash_varlen(bool_code(k.merge_bit)),
        ],
    )
}

pub open spec fn header_digest(h: BlockHeader) -> Digest {
    merkle_root_of(
        seq![
            tip5_hash_varlen(seq![h.version]),
            tip5_hash_varlen(seq![h.height.value]),
            tip5_hash_varlen(h.prev_block_digest.values()),
            tip5_hash_varlen(seq![h.timestamp.millis]),
            tip5_hash_varlen(h.nonce.values()),
            tip5_hash_varlen(proof_of_work_code(h.cumulative_proof_of_work)),
            tip5_hash_varlen(difficulty_code(h.difficulty)),
            tip5_hash_varlen(h.guesser_digest.values()),
        ],
    )
}

pub open spec fn body_digest(b: BlockBody) -> Digest {
    merkle_root_of(
        seq![
            tip5_hash_varlen(transaction_kernel_digest(b.transaction_kernel).values()),
            tip5_hash_varlen(b.mutator_set_accumulator.encoding@),
            tip5_hash_varlen(mmr_code(b.lock_free_mmr_accumulator)),
            tip5_hash_varlen(mmr_code(b.block_mmr_accumulator)),
        ],
    )
}

pub open spec fn kernel_digest(k: BlockKernel) -> Digest {
    merkle_root_of(
        seq![
            tip5_hash_varlen(header_digest(k.header).values()),
            tip5_hash_varlen(body_digest(k.body).values()),
            tip5_hash_varlen(appendix_code(k.appendix)),
            Digest::zero_digest(),
        ],
    )
}

pub fn hash_transaction_kernel(k: &TransactionKernel) -> (d: Digest)
    ensures
        d == transaction_kernel_digest(*k),
{
    let mut leafs: Vec<Digest> = Vec::new();
    leafs.push(hash_varlen(&encode_removals(&k.inputs)));
    leafs.push(hash_varlen(&encode_additions(&k.outputs)));
    leafs.push(hash_varlen(&encode_announcements(&k.public_announcements)));
    leafs.push(hash_varlen(&encode_amount(&k.fee)));
    leafs.push(hash_varlen(&encode_coinbase(&k.coinbase)));
    leafs.push(hash_varlen(&encode_element(k.timestamp.millis)));
    leafs.push(hash_varlen(&encode_digest(&k.mutator_set_hash)));
    leafs.push(hash_varlen(&encode_bool(k.merge_bit)));
    assert(leafs@ =~= seq![
        tip5_hash_varlen(removals_code(k.inputs@)),
        tip5_hash_varlen(additions_code(k.outputs@)),
        tip5_hash_varlen(announcements_code(k.public_announcements@)),
        tip5_hash_varlen(amount_code(k.fee)),
        tip5_hash_varlen(coinbase_code(k.coinbase)),
        tip5_hash_varlen(seq![k.timestamp.millis]),
        tip5_hash_varlen(k.mutator_set_hash.values()),
        tip5_hash_varlen(bool_code(k.merge_bit)),
    ]);
    merkle_root(&leafs)
}

pub fn hash_header(h: &BlockHeader) -> (d: Digest)
    ensures
        d == header_digest(*h),
{
    let mut leafs: Vec<Digest> = Vec::new();
    leafs.push(hash_varlen(&encode_element(h.version)));
    leafs.push(hash_varlen(&encode_element(h.height.value)));
    leafs.push(hash_varlen(&encode_digest(&h.prev_block_digest)));
    leafs.push(hash_varlen(&encode_element(h.timestamp.millis)));
    leafs.push(hash_varlen(&encode_digest(&h.nonce)));
    leafs.push(hash_varlen(&encode_proof_of_work(&h.cumulative_proof_of_work)));
    leafs.push(hash_varlen(&encode_difficulty(&h.difficulty)));
    leafs.push(hash_varlen(&encode_digest(&h.guesser_digest)));
    assert(leafs@ =~= seq![
        tip5_hash_varlen(seq![h.version]),
        tip5_hash_varlen(seq![h.height.value]),
        tip5_hash_varlen(h.prev_block_digest.values()),
        tip5_hash_varlen(seq![h.timestamp.millis]),
        tip5_hash_varlen(h.nonce.values()),
        tip5_hash_varlen(proof_of_work_code(h.cumulative_proof_of_work)),
        tip5_hash_varlen(difficulty_code(h.difficulty)),
        tip5_hash_varlen(h.guesser_digest.values()),
    ]);
    merkle_root(&leafs)
}

pub fn hash_body(b: &BlockBody) -> (d: Digest)
    ensures
        d == body_digest(*b),
{
    let transaction = hash_transaction_kernel(&b.transaction_kernel);
    let mut leafs: Vec<Digest> = Vec::new();
    leafs.push(hash_varlen(&encode_digest(&transaction)));
    leafs.push(hash_varlen(&b.mutator_set_accumulator.encoding));
    leafs.push(hash_varlen(&encode_mmr(&b.lock_free_mmr_accumulator)));
    leafs.push(hash_varlen(&encode_mmr(&b.block_mmr_accumulator)));
    assert(leafs@ =~= seq![
        tip5_hash_varlen(transaction_kernel_digest(b.transaction_kernel).values()),
        tip5_hash_varlen(b.mutator_set_accumulator.encoding@),
        tip5_hash_varlen(mmr_code(b.lock_free_mmr_accumulator)),
        tip5_hash_varlen(mmr_code(b.block_mmr_accumulator)),
    ]);
    merkle_root(&leafs)
}

pub fn hash_kernel(k: &BlockKernel) -> (d: Digest)
    ensures
        d == kernel_digest(*k),
{
    let header = hash_header(&k.header);
    let body = hash_body(&k.body);
    let mut leafs: Vec<Digest> = Vec::new();
    leafs.push(hash_varlen(&encode_digest(&header)));
    leafs.push(hash_varlen(&encode_digest(&body)));
    leafs.push(hash_varlen(&encode_appendix(&k.appendix)));
    leafs.push(Digest::default());
    assert(leafs@ =~= seq![
        tip5_hash_varlen(header_digest(k.header).values()),
        tip5_hash_varlen(body_digest(k.body).values()),
        tip5_hash_varlen(appendix_code(k.appendix)),
        Digest::zero_digest(),
    ]);
    merkle_root(&leafs)
}

/// Kernels with the same contents have the same encoding, and so have their parts.
pub proof fn lemma_code_depends_on_contents(a: BlockKernel, b: BlockKernel)
    requires
        same_contents(a, b),
    ensures
        removals_code(a.body.transaction_kernel.inputs@) == removals_code(
            b.body.transaction_kernel.inputs@,
        ),
        announcements_code(a.body.transaction_kernel.public_announcements@) == announcements_code(
            b.body.transaction_kernel.public_announcements@,
        ),
        appendix_code(a.appendix) == appendix_code(b.appendix),
        block_kernel_code(a) == block_kernel_code(b),
{
    let ka = a.body.transaction_kernel;
    let kb = b.body.transaction_kernel;
    assert(ka@ == kb@);
    assert(removals_code(ka.inputs@) == removals_code(kb.inputs@)) by {
        assert(removal_views(ka.inputs@).len() == removal_views(kb.inputs@).len());
        assert forall|i: int| 0 <= i < ka.inputs@.len() implies #[trigger] removal_code(
            ka.inputs@[i],
        ) == removal_code(kb.inputs@[i]) by {
            assert(removal_views(ka.inputs@)[i] == removal_views(kb.inputs@)[i]);
        }
        assert(ka.inputs@.map_values(|r: RemovalRecord| sized(removal_code(r)))
            =~= kb.inputs@.map_values(|r: RemovalRecord| sized(removal_code(r))));
    }
    let pa = ka.public_announcements@;
    let pb = kb.public_announcements@;
    assert(announcements_code(pa) == announcements_code(pb)) by {
        assert(messages(pa).len() == messages(pb).len());
        assert forall|i: int| 0 <= i < pa.len() implies #[trigger] announcement_code(pa[i])
            == announcement_code(pb[i]) by {
            assert(messages(pa)[i] == messages(pb)[i]);
        }
        assert(pa.map_values(|a: PublicAnnouncement| sized(announcement_code(a)))
            =~= pb.map_values(|a: PublicAnnouncement| sized(announcement_code(a))));
    }
    assert(appendix_code(a.appendix) == appendix_code(b.appendix)) by {
        let ca = a.appendix.claims@;
        let cb = b.appendix.claims@;
        assert(claim_views(ca).len() == claim_views(cb).len());
        assert forall|i: int| 0 <= i < ca.len() implies #[trigger] claim_code(ca[i]) == claim_code(
            cb[i],
        ) by {
            assert(claim_views(ca)[i] == claim_views(cb)[i]);
        }
        assert(ca.map_values(|c: Claim| sized(claim_code(c))) =~= cb.map_values(
            |c: Claim| sized(claim_code(c)),
        ));
    }
    assert(kernel_code(ka) == kernel_code(kb));
    assert(a.body.mutator_set_accumulator@ == b.body.mutator_set_accumulator@);
    assert(a.body.lock_free_mmr_accumulator@ == b.body.lock_free_mmr_accumulator@);
    assert(a.body.block_mmr_accumulator@ == b.body.block_mmr_accumulator@);
    assert(body_code(a.body) == body_code(b.body));
}

/// Kernels with the same contents have the same digest.
pub proof fn lemma_digest_depends_on_contents(a: BlockKernel, b: BlockKernel)
    requires
        same_contents(a, b),
    ensures
        kernel_digest(a) == kernel_digest(b),
{
    lemma_code_depends_on_contents(a, b);
    assert(a.body.transaction_kernel@ == b.body.transaction_kernel@);
    assert(a.body.mutator_set_accumulator@ == b.body.mutator_set_accumulator@);
    assert(a.body.lock_free_mmr_accumulator@ == b.body.lock_free_mmr_accumulator@);
    assert(a.body.block_mmr_accumulator@ == b.body.block_mmr_accumulator@);
}

} // verus!
