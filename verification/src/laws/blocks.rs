//! Blocks are what their parts make them, and can be written down and read without loss.

use vstd::prelude::*;
use vstd::std_specs::cmp::PartialEqSpec;

use crate::block::codec::additions_code;
use crate::block::codec::amount_code;
use crate::block::codec::announcements_code;
use crate::block::codec::appendix_code;
use crate::block::codec::block_code;
use crate::block::codec::block_kernel_code;
use crate::block::codec::body_code;
use crate::block::codec::bool_code;
use crate::block::codec::coinbase_code;
use crate::block::codec::difficulty_code;
use crate::block::codec::header_code;
use crate::block::codec::kernel_code;
use crate::block::codec::mmr_code;
use crate::block::codec::proof_code;
use crate::block::codec::proof_of_work_code;
use crate::block::codec::removals_code;
use crate::block::codec::sized;
use crate::block::claim_views;
use crate::block::decode::blocks::lemma_at_block_kernel;
use crate::block::decode::blocks::lemma_at_body;
use crate::block::decode::elements::at;
use crate::block::decode::elements::lemma_at_concat;
use crate::block::mast::kernel_digest;
use crate::block::same_block;
use crate::block::template::is_template_body;
use crate::block::template::is_template_header;
use crate::block::Block;
use crate::block::BlockBody;
use crate::block::BlockHeader;
use crate::block::BlockKernel;
use crate::block::BlockProof;
use crate::difficulty::Difficulty;
use crate::digest::Digest;
use crate::field::P;
use crate::laws::encoding::lemma_additions_code_injective;
use crate::laws::encoding::lemma_amount_code_injective;
use crate::laws::encoding::lemma_announcements_code_injective;
use crate::laws::encoding::lemma_appendix_code_injective;
use crate::laws::encoding::lemma_at_start;
use crate::laws::encoding::lemma_bool_code_injective;
use crate::laws::encoding::lemma_coinbase_code_injective;
use crate::laws::encoding::lemma_difficulty_code_injective;
use crate::laws::encoding::lemma_digest_values_injective;
use crate::laws::encoding::lemma_mmr_code_injective;
use crate::laws::encoding::lemma_proof_of_work_code_injective;
use crate::laws::encoding::lemma_removals_code_injective;
use crate::laws::encoding::lemma_sized_unique;
use crate::laws::encoding::lemma_without_size;
use crate::timestamp::Timestamp;
use crate::transaction::messages;
use crate::transaction::removal_views;
use crate::transaction::MutatorSetAccumulator;
use crate::transaction::TransactionKernel;

verus! {

/// Two sequences of the same length that lie at the same position are the same.
proof fn lemma_at_unique(s: Seq<u64>, pos: int, x: Seq<u64>, y: Seq<u64>)
    requires
        at(s, pos, x),
        at(s, pos, y),
        x.len() == y.len(),
    ensures
        x == y,
{
}

/// A block header is known by its encoding.
#[verifier::spinoff_prover]
#[verifier::rlimit(30)]
pub proof fn lemma_header_code_injective(a: BlockHeader, b: BlockHeader)
    requires
        header_code(a) == header_code(b),
    ensures
        a == b,
{
    let s = header_code(a);
    let t = header_code(b);
    assert(s.len() == 29);
    assert(a.guesser_digest.values() =~= s.subrange(0, 5));
    assert(b.guesser_digest.values() =~= t.subrange(0, 5));
    lemma_digest_values_injective(a.guesser_digest, b.guesser_digest);
    assert(difficulty_code(a.difficulty) =~= s.subrange(5, 10));
    assert(difficulty_code(b.difficulty) =~= t.subrange(5, 10));
    lemma_difficulty_code_injective(a.difficulty, b.difficulty);
    assert(proof_of_work_code(a.cumulative_proof_of_work) =~= s.subrange(10, 16));
    assert(proof_of_work_code(b.cumulative_proof_of_work) =~= t.subrange(10, 16));
    lemma_proof_of_work_code_injective(a.cumulative_proof_of_work, b.cumulative_proof_of_work);
    assert(a.nonce.values() =~= s.subrange(16, 21));
    assert(b.nonce.values() =~= t.subrange(16, 21));
    lemma_digest_values_injective(a.nonce, b.nonce);
    assert(s[21] == a.timestamp.millis && t[21] == b.timestamp.millis);
    assert(a.prev_block_digest.values() =~= s.subrange(22, 27));
    assert(b.prev_block_digest.values() =~= t.subrange(22, 27));
    lemma_digest_values_injective(a.prev_block_digest, b.prev_block_digest);
    assert(s[27] == a.height.value && t[27] == b.height.value);
    assert(s[28] == a.version && t[28] == b.version);
}

/// A transaction kernel is known by its encoding.
#[verifier::spinoff_prover]
#[verifier::rlimit(30)]
pub proof fn lemma_kernel_code_injective(a: TransactionKernel, b: TransactionKernel)
    requires
        kernel_code(a) == kernel_code(b),
        kernel_code(a).len() <= u64::MAX,
    ensures
        removal_views(a.inputs@) == removal_views(b.inputs@),
        a.outputs@ == b.outputs@,
        messages(a.public_announcements@) == messages(b.public_announcements@),
        a.fee == b.fee,
        a.coinbase == b.coinbase,
        a.timestamp == b.timestamp,
        a.mutator_set_hash == b.mutator_set_hash,
        a.merge_bit == b.merge_bit,
{
    let x = announcements_code(a.public_announcements@);
    let y = additions_code(a.outputs@);
    let z = removals_code(a.inputs@);
    lemma_eight_parts(
        kernel_code(a),
        bool_code(a.merge_bit),
        a.mutator_set_hash.values(),
        seq![a.timestamp.millis],
        coinbase_code(a.coinbase),
        amount_code(a.fee),
        x,
        y,
        z,
        bool_code(b.merge_bit),
        b.mutator_set_hash.values(),
        seq![b.timestamp.millis],
        coinbase_code(b.coinbase),
        amount_code(b.fee),
        announcements_code(b.public_announcements@),
        additions_code(b.outputs@),
        removals_code(b.inputs@),
    );
    lemma_bool_code_injective(a.merge_bit, b.merge_bit);
    lemma_digest_values_injective(a.mutator_set_hash, b.mutator_set_hash);
    assert(seq![a.timestamp.millis][0] == seq![b.timestamp.millis][0]);
    lemma_coinbase_code_injective(a.coinbase, b.coinbase);
    lemma_amount_code_injective(a.fee, b.fee);
    assert(a.public_announcements.len() == a.public_announcements@.len());
    assert(b.public_announcements.len() == b.public_announcements@.len());
    lemma_announcements_code_injective(a.public_announcements@, b.public_announcements@);
    assert(a.outputs.len() == a.outputs@.len());
    assert(b.outputs.len() == b.outputs@.len());
    lemma_additions_code_injective(a.outputs@, b.outputs@);
    assert(a.inputs.len() == a.inputs@.len());
    assert(b.inputs.len() == b.inputs@.len());
    lemma_removals_code_injective(a.inputs@, b.inputs@);
}

/// Parts that follow one another can be told apart if each of them has a fixed length or is
/// preceded by its length.
#[verifier::spinoff_prover]
#[verifier::rlimit(30)]
proof fn lemma_eight_parts(
    s: Seq<u64>,
    a: Seq<u64>,
    b: Seq<u64>,
    c: Seq<u64>,
    d: Seq<u64>,
    e: Seq<u64>,
    f: Seq<u64>,
    g: Seq<u64>,
    h: Seq<u64>,
    a2: Seq<u64>,
    b2: Seq<u64>,
    c2: Seq<u64>,
    d2: Seq<u64>,
    e2: Seq<u64>,
    f2: Seq<u64>,
    g2: Seq<u64>,
    h2: Seq<u64>,
)
    requires
        s == a + b + c + sized(d) + e + sized(f) + sized(g) + sized(h),
        s == a2 + b2 + c2 + sized(d2) + e2 + sized(f2) + sized(g2) + sized(h2),
        s.len() <= u64::MAX,
        a.len() == a2.len(),
        b.len() == b2.len(),
        c.len() == c2.len(),
        e.len() == e2.len(),
    ensures
        a == a2,
        b == b2,
        c == c2,
        d == d2,
        e == e2,
        f == f2,
        g == g2,
        h == h2,
        f.len() <= s.len(),
        g.len() <= s.len(),
        h.len() <= s.len(),
{
    lemma_at_start(s);
    lemma_where_parts_lie(s, a, b, c, sized(d), e, sized(f), sized(g), sized(h));
    lemma_where_parts_lie(s, a2, b2, c2, sized(d2), e2, sized(f2), sized(g2), sized(h2));
    let p1 = a.len() as int;
    let p2 = p1 + b.len();
    let p3 = p2 + c.len();
    lemma_at_unique(s, 0, a, a2);
    lemma_at_unique(s, p1, b, b2);
    lemma_at_unique(s, p2, c, c2);
    lemma_sized_unique(s, p3, d, d2);
    let p4 = p3 + sized(d).len();
    lemma_at_unique(s, p4, e, e2);
    let p5 = p4 + e.len();
    lemma_sized_unique(s, p5, f, f2);
    let p6 = p5 + sized(f).len();
    lemma_sized_unique(s, p6, g, g2);
    let p7 = p6 + sized(g).len();
    lemma_sized_unique(s, p7, h, h2);
}

#[verifier::spinoff_prover]
#[verifier::rlimit(30)]
proof fn lemma_where_parts_lie(
    s: Seq<u64>,
    a: Seq<u64>,
    b: Seq<u64>,
    c: Seq<u64>,
    d: Seq<u64>,
    e: Seq<u64>,
    f: Seq<u64>,
    g: Seq<u64>,
    h: Seq<u64>,
)
    requires
        at(s, 0, a + b + c + d + e + f + g + h),
    ensures
        at(s, 0, a),
        at(s, a.len() as int, b),
        at(s, (a.len() + b.len()) as int, c),
        at(s, (a.len() + b.len() + c.len()) as int, d),
        at(s, (a.len() + b.len() + c.len() + d.len()) as int, e),
        at(s, (a.len() + b.len() + c.len() + d.len() + e.len()) as int, f),
        at(s, (a.len() + b.len() + c.len() + d.len() + e.len() + f.len()) as int, g),
        at(s, (a.len() + b.len() + c.len() + d.len() + e.len() + f.len() + g.len()) as int, h),
{
    lemma_at_concat(s, 0, a + b + c + d + e + f + g, h);
    lemma_at_concat(s, 0, a + b + c + d + e + f, g);
    lemma_at_concat(s, 0, a + b + c + d + e, f);
    lemma_at_concat(s, 0, a + b + c + d, e);
    lemma_at_concat(s, 0, a + b + c, d);
    lemma_at_concat(s, 0, a + b, c);
    lemma_at_concat(s, 0, a, b);
}

/// A block body is known by its encoding, but for the digest of its mutator set, which is not part
/// of the encoding.
#[verifier::spinoff_prover]
#[verifier::rlimit(30)]
pub proof fn lemma_body_code_injective(a: BlockBody, b: BlockBody)
    requires
        body_code(a) == body_code(b),
        body_code(a).len() <= u64::MAX,
        a.mutator_set_accumulator.digest == b.mutator_set_accumulator.digest,
    ensures
        a@ == b@,
{
    let s = body_code(a);
    lemma_at_start(s);
    lemma_at_body(s, 0, a);
    lemma_at_body(s, 0, b);
    let ma = mmr_code(a.block_mmr_accumulator);
    lemma_sized_unique(s, 0, ma, mmr_code(b.block_mmr_accumulator));
    let p1 = sized(ma).len();
    let fa = mmr_code(a.lock_free_mmr_accumulator);
    lemma_sized_unique(s, p1 as int, fa, mmr_code(b.lock_free_mmr_accumulator));
    let p2 = p1 + sized(fa).len();
    let ea = a.mutator_set_accumulator.encoding@;
    lemma_sized_unique(s, p2 as int, ea, b.mutator_set_accumulator.encoding@);
    let p3 = p2 + sized(ea).len();
    let ka = kernel_code(a.transaction_kernel);
    lemma_sized_unique(s, p3 as int, ka, kernel_code(b.transaction_kernel));
    assert(sized(ma).len() == 1 + ma.len());
    assert(sized(fa).len() == 1 + fa.len());
    assert(sized(ka).len() == 1 + ka.len());
    lemma_mmr_code_injective(a.block_mmr_accumulator, b.block_mmr_accumulator);
    lemma_mmr_code_injective(a.lock_free_mmr_accumulator, b.lock_free_mmr_accumulator);
    lemma_kernel_code_injective(a.transaction_kernel, b.transaction_kernel);
}

/// A block proof is known by its encoding.
proof fn lemma_proof_code_injective(a: BlockProof, b: BlockProof)
    requires
        proof_code(a) == proof_code(b),
    ensures
        a is Genesis <==> b is Genesis,
        a is Invalid <==> b is Invalid,
        a is SingleProof && b is SingleProof ==> a->SingleProof_0.elements@
            == b->SingleProof_0.elements@,
{
    let s = proof_code(a);
    let t = proof_code(b);
    lemma_kind_of_proof(a);
    lemma_kind_of_proof(b);
    if a is SingleProof && b is SingleProof {
        let x = a->SingleProof_0.elements@;
        let y = b->SingleProof_0.elements@;
        lemma_without_size(x);
        lemma_without_size(y);
        lemma_without_size(sized(x));
        lemma_without_size(sized(y));
        lemma_without_size(sized(sized(x)));
        lemma_without_size(sized(sized(y)));
        assert(s.skip(1) =~= sized(sized(sized(x))));
        assert(t.skip(1) =~= sized(sized(sized(y))));
    }
}

proof fn lemma_kind_of_proof(a: BlockProof)
    ensures
        proof_code(a).len() > 0,
        proof_code(a)[0] == (match a {
            BlockProof::Genesis => 0u64,
            BlockProof::Invalid => 1u64,
            BlockProof::SingleProof(_) => 2u64,
        }),
{
}

/// A block kernel is known by its encoding, but for the digest of its mutator set.
#[verifier::spinoff_prover]
#[verifier::rlimit(30)]
pub proof fn lemma_block_kernel_code_injective(a: BlockKernel, b: BlockKernel)
    requires
        block_kernel_code(a) == block_kernel_code(b),
        block_kernel_code(a).len() <= u64::MAX,
        a.body.mutator_set_accumulator.digest == b.body.mutator_set_accumulator.digest,
    ensures
        a.header == b.header,
        a.body@ == b.body@,
        claim_views(a.appendix.claims@) == claim_views(b.appendix.claims@),
{
    let s = block_kernel_code(a);
    let xa = appendix_code(a.appendix);
    let ba = body_code(a.body);
    lemma_at_start(s);
    lemma_at_block_kernel(s, 0, a);
    lemma_at_block_kernel(s, 0, b);
    lemma_sized_unique(s, 0, xa, appendix_code(b.appendix));
    let p1 = sized(xa).len();
    lemma_sized_unique(s, p1 as int, ba, body_code(b.body));
    let p2 = p1 + sized(ba).len();
    assert(sized(xa).len() == 1 + xa.len());
    assert(sized(ba).len() == 1 + ba.len());
    assert(header_code(a.header) == header_code(b.header)) by {
        assert(header_code(a.header).len() == header_code(b.header).len());
        lemma_at_unique(s, p2 as int, header_code(a.header), header_code(b.header));
    }
    lemma_header_code_injective(a.header, b.header);
    lemma_body_code_injective(a.body, b.body);
    lemma_appendix_code_injective(a.appendix, b.appendix);
}

/// A block is known by its encoding, but for the digest of its mutator set: two blocks that are
/// written down alike have the same header, body, claims and proof.
#[verifier::spinoff_prover]
#[verifier::rlimit(30)]
pub proof fn lemma_block_code_injective(
    a: BlockKernel,
    b: BlockKernel,
    a_proof: BlockProof,
    b_proof: BlockProof,
)
    requires
        block_code(a, a_proof) == block_code(b, b_proof),
        block_code(a, a_proof).len() <= u64::MAX,
        a.body.mutator_set_accumulator.digest == b.body.mutator_set_accumulator.digest,
    ensures
        a.header == b.header,
        a.body@ == b.body@,
        claim_views(a.appendix.claims@) == claim_views(b.appendix.claims@),
        a_proof is Genesis <==> b_proof is Genesis,
        a_proof is Invalid <==> b_proof is Invalid,
        a_proof is SingleProof && b_proof is SingleProof ==> a_proof->SingleProof_0.elements@
            == b_proof->SingleProof_0.elements@,
{
    let s = block_code(a, a_proof);
    let pa = proof_code(a_proof);
    let ka = block_kernel_code(a);
    lemma_at_start(s);
    lemma_at_concat(s, 0, sized(pa), sized(ka));
    lemma_at_concat(s, 0, sized(proof_code(b_proof)), sized(block_kernel_code(b)));
    lemma_sized_unique(s, 0, pa, proof_code(b_proof));
    lemma_sized_unique(s, sized(pa).len() as int, ka, block_kernel_code(b));
    assert(sized(ka).len() == 1 + ka.len());
    lemma_proof_code_injective(a_proof, b_proof);
    lemma_block_kernel_code_injective(a, b);
}

/// Blocks that are the same agree in every part.
pub proof fn lemma_same_blocks_agree(a: Block, b: Block)
    requires
        same_block(a, b),
    ensures
        a.spec_header() == b.spec_header(),
        a.spec_body()@ == b.spec_body()@,
        a.spec_appendix().claims@.len() == b.spec_appendix().claims@.len(),
        forall|i: int|
            0 <= i < a.spec_appendix().claims@.len() ==> (#[trigger] a.spec_appendix().claims@[i])@
                == b.spec_appendix().claims@[i]@,
        a.spec_proof() is Genesis <==> b.spec_proof() is Genesis,
        a.spec_proof() is Invalid <==> b.spec_proof() is Invalid,
        a.spec_proof() is SingleProof ==> a.spec_proof()->SingleProof_0.elements@
            == b.spec_proof()->SingleProof_0.elements@,
{
    let x = claim_views(a.spec_appendix().claims@);
    let y = claim_views(b.spec_appendix().claims@);
    assert(x.len() == a.spec_appendix().claims@.len());
    assert(y.len() == b.spec_appendix().claims@.len());
    assert forall|i: int| 0 <= i < a.spec_appendix().claims@.len() implies (
    #[trigger] a.spec_appendix().claims@[i])@ == b.spec_appendix().claims@[i]@ by {
        assert(x[i] == y[i]);
    }
}

/// Two views of a body agree exactly if all parts do.
pub proof fn lemma_same_bodies_agree(a: BlockBody, b: BlockBody)
    ensures
        a@ == b@ <==> {
            let s = a.transaction_kernel;
            let t = b.transaction_kernel;
            &&& removal_views(s.inputs@) == removal_views(t.inputs@)
            &&& s.outputs@ == t.outputs@
            &&& messages(s.public_announcements@) == messages(t.public_announcements@)
            &&& s.fee == t.fee
            &&& s.coinbase == t.coinbase
            &&& s.timestamp == t.timestamp
            &&& s.mutator_set_hash == t.mutator_set_hash
            &&& s.merge_bit == t.merge_bit
            &&& a.mutator_set_accumulator.digest == b.mutator_set_accumulator.digest
            &&& a.mutator_set_accumulator.encoding@ == b.mutator_set_accumulator.encoding@
            &&& a.lock_free_mmr_accumulator.leaf_count == b.lock_free_mmr_accumulator.leaf_count
            &&& a.lock_free_mmr_accumulator.peaks@ == b.lock_free_mmr_accumulator.peaks@
            &&& a.block_mmr_accumulator.leaf_count == b.block_mmr_accumulator.leaf_count
            &&& a.block_mmr_accumulator.peaks@ == b.block_mmr_accumulator.peaks@
        },
{
}

/// The size of a block is the length of its encoding, so it grows with everything that the block
/// holds.
pub proof fn lemma_size_of_block(block: Block)
    ensures
        block.spec_size() == block_code(block.spec_kernel(), block.spec_proof()).len(),
        block.spec_size() >= 31 + proof_code(block.spec_proof()).len() + body_code(
            block.spec_body(),
        ).len() + appendix_code(block.spec_appendix()).len(),
{
    assert(header_code(block.spec_header()).len() == 29);
}

/// Blocks are equal exactly if their digests are.
pub proof fn lemma_equal_blocks(a: Block, b: Block)
    ensures
        a.eq_spec(&b) <==> kernel_digest(a.spec_kernel()) == kernel_digest(b.spec_kernel()),
{
}

/// Setting a header leaves everything else of the block alone.
pub proof fn lemma_header_is_set(block: Block, header: BlockHeader)
    ensures
        block.with_header(header).header == header,
        block.with_header(header).body == block.spec_kernel().body,
        block.with_header(header).appendix == block.spec_kernel().appendix,
{
}

/// A new block stands one higher than its predecessor, names it, and counts its work.
pub proof fn lemma_template_header(
    header: BlockHeader,
    predecessor: Block,
    timestamp: Timestamp,
    difficulty: Difficulty,
)
    requires
        is_template_header(header, predecessor, timestamp, difficulty),
    ensures
        header.version == 0,
        header.height.value == (predecessor.spec_header().height.value + 1) % P as int,
        header.prev_block_digest == predecessor.spec_hash(),
        header.timestamp == timestamp,
        header.nonce == (Digest { e0: 0, e1: 0, e2: 0, e3: 0, e4: 0 }),
        header.cumulative_proof_of_work.number()
            == predecessor.spec_header().cumulative_proof_of_work.number()
            + predecessor.spec_header().difficulty.number(),
        header.difficulty == difficulty,
        header.guesser_digest == (Digest { e0: 0, e1: 0, e2: 0, e3: 0, e4: 0 }),
{
}

/// A new block holds the given transaction and mutator set, and knows one block more than its
/// predecessor.
pub proof fn lemma_template_body(
    body: BlockBody,
    predecessor: Block,
    transaction_kernel: TransactionKernel,
    mutator_set_accumulator: MutatorSetAccumulator,
)
    requires
        is_template_body(body, predecessor, transaction_kernel, mutator_set_accumulator),
    ensures
        body.transaction_kernel == transaction_kernel,
        body.mutator_set_accumulator == mutator_set_accumulator,
        body.lock_free_mmr_accumulator@ == predecessor.spec_body().lock_free_mmr_accumulator@,
        body.block_mmr_accumulator@ == predecessor.spec_body().block_mmr_accumulator@.append(
            predecessor.spec_hash(),
        ),
        predecessor.spec_body().block_mmr_accumulator@.leaf_count < u64::MAX
            ==> body.block_mmr_accumulator@.leaf_count
            == predecessor.spec_body().block_mmr_accumulator@.leaf_count + 1,
{
}

} // verus!
