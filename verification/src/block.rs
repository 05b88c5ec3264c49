//! Blocks.

pub mod chain;
pub mod codec;
pub mod decode;
pub mod mast;
pub mod pow;
pub mod premine;
pub mod premine_addresses;
pub mod rewards;
pub mod template;
pub mod validation;

use vstd::prelude::*;

use crate::amount::NativeCurrencyAmount;
use crate::block::codec::block_code;
use crate::block::codec::encode_block;
use crate::block::mast::hash_kernel;
use crate::block::mast::kernel_digest;
use crate::block::mast::lemma_digest_depends_on_contents;
use crate::difficulty::Difficulty;
use crate::difficulty::ProofOfWork;
use crate::digest::Digest;
use crate::height::BlockHeight;
use crate::mmr::MmrAccumulator;
use crate::mmr::MmrAccumulatorView;
use crate::timestamp::Timestamp;
use crate::transaction::MutatorSetAccumulator;
use crate::transaction::MutatorSetAccumulatorView;
use crate::transaction::TransactionKernel;
use crate::transaction::TransactionKernelView;

verus! {

/// The part of a block that guessers work on.
#[derive(Clone, Copy, Debug, PartialEq, Eq, Structural)]
pub struct BlockHeader {
    pub version: u64,
    pub height: BlockHeight,
    pub prev_block_digest: Digest,
    pub timestamp: Timestamp,
    pub nonce: Digest,
    pub cumulative_proof_of_work: ProofOfWork,
    pub difficulty: Difficulty,
    pub guesser_digest: Digest,
}

/// The part of a block that composers produce.
#[derive(Debug)]
pub struct BlockBody {
    pub transaction_kernel: TransactionKernel,
    /// The mutator set after the transaction, without the guesser's fee.
    pub mutator_set_accumulator: MutatorSetAccumulator,
    pub lock_free_mmr_accumulator: MmrAccumulator,
    /// The digests of all predecessors of the block.
    pub block_mmr_accumulator: MmrAccumulator,
}

/// The statement that a program, given an input, produces an output.
#[derive(Debug)]
pub struct Claim {
    pub program_digest: Digest,
    pub version: u32,
    pub input: Vec<u64>,
    pub output: Vec<u64>,
}

/// The claims whose truth a block proof attests to.
#[derive(Debug)]
pub struct BlockAppendix {
    pub claims: Vec<Claim>,
}

/// What the body of a block consists of.
pub struct BlockBodyView {
    pub transaction_kernel: TransactionKernelView,
    pub mutator_set_accumulator: MutatorSetAccumulatorView,
    pub lock_free_mmr_accumulator: MmrAccumulatorView,
    pub block_mmr_accumulator: MmrAccumulatorView,
}

impl View for BlockBody {
    type V = BlockBodyView;

    open spec fn view(&self) -> BlockBodyView {
        BlockBodyView {
            transaction_kernel: self.transaction_kernel@,
            mutator_set_accumulator: self.mutator_set_accumulator@,
            lock_free_mmr_accumulator: self.lock_free_mmr_accumulator@,
            block_mmr_accumulator: self.block_mmr_accumulator@,
        }
    }
}

impl Clone for BlockBody {
    fn clone(&self) -> (b: BlockBody)
        ensures
            b@ == self@,
    {
        BlockBody {
            transaction_kernel: self.transaction_kernel.clone(),
            mutator_set_accumulator: self.mutator_set_accumulator.clone(),
            lock_free_mmr_accumulator: self.lock_free_mmr_accumulator.clone(),
            block_mmr_accumulator: self.block_mmr_accumulator.clone(),
        }
    }
}

/// What a claim consists of.
pub struct ClaimView {
    pub program_digest: Digest,
    pub version: u32,
    pub input: Seq<u64>,
    pub output: Seq<u64>,
}

impl View for Claim {
    type V = ClaimView;

    open spec fn view(&self) -> ClaimView {
        ClaimView {
            program_digest: self.program_digest,
            version: self.version,
            input: self.input@,
            output: self.output@,
        }
    }
}

impl Clone for Claim {
    fn clone(&self) -> (c: Claim)
        ensures
            c@ == self@,
    {
        Claim {
            program_digest: self.program_digest,
            version: self.version,
            input: self.input.clone(),
            output: self.output.clone(),
        }
    }
}

/// What the claims of a list consist of.
pub open spec fn claim_views(claims: Seq<Claim>) -> Seq<ClaimView> {
    claims.map_values(|c: Claim| c@)
}

/// Whether two sequences of field elements are the same.
fn same_elements(a: &Vec<u64>, b: &Vec<u64>) -> (r: bool)
    ensures
        r == (a@ == b@),
{
    if a.len() != b.len() {
        return false;
    }
    let mut i: usize = 0;
    while i < a.len()
        invariant
            a@.len() == b@.len(),
            i <= a@.len(),
            forall|j: int| 0 <= j < i ==> a@[j] == b@[j],
        decreases a@.len() - i,
    {
        if a[i] != b[i] {
            return false;
        }
        i = i + 1;
    }
    assert(a@ =~= b@);
    true
}

impl Claim {
    /// Whether two claims are the same.
    pub fn same(&self, other: &Claim) -> (r: bool)
        ensures
            r == (self@ == other@),
    {
        self.program_digest == other.program_digest && self.version == other.version
            && same_elements(&self.input, &other.input) && same_elements(
            &self.output,
            &other.output,
        )
    }
}

impl BlockAppendix {
    /// An appendix without claims.
    pub fn empty() -> (a: BlockAppendix)
        ensures
            a.claims@ == Seq::<Claim>::empty(),
    {
        BlockAppendix { claims: Vec::new() }
    }

    /// The number of claims.
    pub fn len(&self) -> (n: usize)
        ensures
            n == self.claims@.len(),
    {
        self.claims.len()
    }

    /// Whether a claim is among those of the appendix.
    pub fn contains(&self, claim: &Claim) -> (r: bool)
        ensures
            r == claim_views(self.claims@).contains(claim@),
    {
        let mut i: usize = 0;
        while i < self.claims.len()
            invariant
                i <= self.claims@.len(),
                forall|j: int| 0 <= j < i ==> claim_views(self.claims@)[j] != claim@,
            decreases self.claims@.len() - i,
        {
            if self.claims[i].same(claim) {
                assert(claim_views(self.claims@)[i as int] == claim@);
                return true;
            }
            i = i + 1;
        }
        false
    }
}

impl Clone for BlockAppendix {
    fn clone(&self) -> (a: BlockAppendix)
        ensures
            claim_views(a.claims@) == claim_views(self.claims@),
    {
        let mut claims: Vec<Claim> = Vec::new();
        let mut i: usize = 0;
        while i < self.claims.len()
            invariant
                i <= self.claims@.len(),
                claims@.len() == i,
                forall|j: int| 0 <= j < i ==> (#[trigger] claims@[j])@ == self.claims@[j]@,
            decreases self.claims@.len() - i,
        {
            claims.push(self.claims[i].clone());
            i = i + 1;
        }
        assert(claim_views(claims@) =~= claim_views(self.claims@));
        BlockAppendix { claims }
    }
}

/// Everything in a block but the proof.
#[derive(Debug)]
pub struct BlockKernel {
    pub header: BlockHeader,
    pub body: BlockBody,
    pub appendix: BlockAppendix,
}

/// A proof, as a sequence of field elements.
#[derive(Clone, Debug)]
pub struct Proof {
    pub elements: Vec<u64>,
}

/// All blocks have proofs except the genesis block.
#[derive(Debug)]
pub enum BlockProof {
    Genesis,
    Invalid,
    SingleProof(Proof),
}

impl Default for BlockProof {
    fn default() -> (p: BlockProof)
        ensures
            p is Invalid,
    {
        BlockProof::Invalid
    }
}

/// A block: the kernel, which determines the block's digest, and a proof.
///
/// A block remembers its digest once it has been asked to, and forgets it whenever the kernel
/// changes. So the fields can be changed only through methods.
#[derive(Debug)]
pub struct Block {
    kernel: BlockKernel,
    proof: BlockProof,
    digest: Option<Digest>,
}

impl Block {
    /// A remembered digest is the digest of the kernel.
    #[verifier::type_invariant]
    spec fn digest_is_current(self) -> bool {
        self.digest matches Some(d) ==> d == kernel_digest(self.kernel)
    }

    /// Everything in the block but the proof.
    pub closed spec fn spec_kernel(self) -> BlockKernel {
        self.kernel
    }

    /// The block's proof.
    pub closed spec fn spec_proof(self) -> BlockProof {
        self.proof
    }

    /// Whether the digest is remembered.
    pub closed spec fn spec_remembers(self) -> bool {
        self.digest is Some
    }

    pub open spec fn spec_header(self) -> BlockHeader {
        self.spec_kernel().header
    }

    pub open spec fn spec_body(self) -> BlockBody {
        self.spec_kernel().body
    }

    pub open spec fn spec_appendix(self) -> BlockAppendix {
        self.spec_kernel().appendix
    }

    /// The block's digest.
    pub open spec fn spec_hash(self) -> Digest {
        kernel_digest(self.spec_kernel())
    }

    /// The kernel with another header.
    pub open spec fn with_header(self, header: BlockHeader) -> BlockKernel {
        BlockKernel { header, body: self.spec_body(), appendix: self.spec_appendix() }
    }

    /// A block from its parts. Its digest is not computed yet.
    pub fn new(
        header: BlockHeader,
        body: BlockBody,
        appendix: BlockAppendix,
        block_proof: BlockProof,
    ) -> (b: Block)
        ensures
            b.spec_kernel() == (BlockKernel { header, body, appendix }),
            b.spec_proof() == block_proof,
            !b.spec_remembers(),
    {
        Block { kernel: BlockKernel { header, body, appendix }, proof: block_proof, digest: None }
    }

    /// The block's digest. It is computed only if it is not remembered.
    pub fn hash(&self) -> (d: Digest)
        ensures
            d == self.spec_hash(),
    {
        proof {
            use_type_invariant(self);
        }
        match self.digest {
            Some(d) => d,
            None => hash_kernel(&self.kernel),
        }
    }

    /// The block's digest, which the block remembers from now on.
    pub fn memoized_hash(&mut self) -> (d: Digest)
        ensures
            d == old(self).spec_hash(),
            final(self).spec_kernel() == old(self).spec_kernel(),
            final(self).spec_proof() == old(self).spec_proof(),
            final(self).spec_remembers(),
    {
        let d = self.hash();
        self.digest = Some(d);
        d
    }

    fn unset_digest(&mut self)
        ensures
            final(self).kernel == old(self).kernel,
            final(self).proof == old(self).proof,
            final(self).digest is None,
        no_unwind
    {
        self.digest = None;
    }

    /// Sets the header's nonce.
    ///
    /// This causes the block's digest to change.
    pub fn set_header_nonce(&mut self, nonce: Digest)
        ensures
            final(self).spec_kernel() == old(self).with_header(
                (BlockHeader { nonce, ..old(self).spec_header() }),
            ),
            final(self).spec_proof() == old(self).spec_proof(),
            !final(self).spec_remembers(),
    {
        self.unset_digest();
        self.kernel.header.nonce = nonce;
    }

    /// Sets the header's guesser digest.
    ///
    /// This causes the block's digest to change.
    pub fn set_header_guesser_digest(&mut self, guesser_after_image: Digest)
        ensures
            final(self).spec_kernel() == old(self).with_header(
                (BlockHeader { guesser_digest: guesser_after_image, ..old(self).spec_header() }),
            ),
            final(self).spec_proof() == old(self).spec_proof(),
            !final(self).spec_remembers(),
    {
        self.unset_digest();
        self.kernel.header.guesser_digest = guesser_after_image;
    }

    /// Sets the header's timestamp and difficulty.
    ///
    /// They are set as a pair because the difficulty depends on the timestamp. This causes the
    /// block's digest to change.
    pub fn set_header_timestamp_and_difficulty(
        &mut self,
        timestamp: Timestamp,
        difficulty: Difficulty,
    )
        ensures
            final(self).spec_kernel() == old(self).with_header(
                (BlockHeader { timestamp, difficulty, ..old(self).spec_header() }),
            ),
            final(self).spec_proof() == old(self).spec_proof(),
            !final(self).spec_remembers(),
    {
        self.unset_digest();
        self.kernel.header.timestamp = timestamp;
        self.kernel.header.difficulty = difficulty;
    }

    /// Replaces the block by another one. The digest becomes that of the other block.
    pub fn set_block(&mut self, block: Block)
        ensures
            *final(self) == block,
    {
        *self = block;
    }

    /// Everything in the block but the proof.
    pub fn kernel(&self) -> (k: &BlockKernel)
        ensures
            *k == self.spec_kernel(),
    {
        &self.kernel
    }

    pub fn header(&self) -> (h: &BlockHeader)
        ensures
            *h == self.spec_header(),
    {
        &self.kernel.header
    }

    pub fn body(&self) -> (b: &BlockBody)
        ensures
            *b == self.spec_body(),
    {
        &self.kernel.body
    }

    pub fn appendix(&self) -> (a: &BlockAppendix)
        ensures
            *a == self.spec_appendix(),
    {
        &self.kernel.appendix
    }

    pub fn block_proof(&self) -> (p: &BlockProof)
        ensures
            *p == self.spec_proof(),
    {
        &self.proof
    }

    /// The number of field elements in the encoded block.
    pub open spec fn spec_size(self) -> nat {
        block_code(self.spec_kernel(), self.spec_proof()).len()
    }

    /// The number of field elements in the encoded block.
    pub fn size(&self) -> (n: usize)
        ensures
            n == self.spec_size(),
    {
        encode_block(&self.kernel, &self.proof).len()
    }

    /// The coinbase reward of this block, which may be less than the block subsidy.
    pub fn coinbase_amount(&self) -> (a: NativeCurrencyAmount)
        ensures
            a == match self.spec_body().transaction_kernel.coinbase {
                Some(coinbase) => coinbase,
                None => NativeCurrencyAmount { nau: 0 },
            },
    {
        match self.kernel.body.transaction_kernel.coinbase {
            Some(coinbase) => coinbase,
            None => NativeCurrencyAmount::zero(),
        }
    }
}

/// The kernels have the same contents.
pub open spec fn same_contents(a: BlockKernel, b: BlockKernel) -> bool {
    &&& a.header == b.header
    &&& a.body@ == b.body@
    &&& claim_views(a.appendix.claims@) == claim_views(b.appendix.claims@)
}

/// The proofs have the same contents.
pub open spec fn same_proof(a: BlockProof, b: BlockProof) -> bool {
    match (a, b) {
        (BlockProof::Genesis, BlockProof::Genesis) => true,
        (BlockProof::Invalid, BlockProof::Invalid) => true,
        (BlockProof::SingleProof(p), BlockProof::SingleProof(q)) => p.elements@ == q.elements@,
        _ => false,
    }
}

/// The blocks have the same contents. Whether they remember their digests does not matter.
pub open spec fn same_block(a: Block, b: Block) -> bool {
    same_contents(a.spec_kernel(), b.spec_kernel()) && same_proof(a.spec_proof(), b.spec_proof())
}

impl Clone for BlockKernel {
    fn clone(&self) -> (k: BlockKernel)
        ensures
            same_contents(k, *self),
    {
        BlockKernel {
            header: self.header,
            body: self.body.clone(),
            appendix: self.appendix.clone(),
        }
    }
}

impl Clone for BlockProof {
    fn clone(&self) -> (p: BlockProof)
        ensures
            same_proof(p, *self),
    {
        match self {
            BlockProof::Genesis => BlockProof::Genesis,
            BlockProof::Invalid => BlockProof::Invalid,
            BlockProof::SingleProof(proof) => BlockProof::SingleProof(
                Proof { elements: proof.elements.clone() },
            ),
        }
    }
}

impl Clone for Block {
    /// A copy with the same digest, which the copy remembers if the block does. The two change
    /// independently of each other.
    fn clone(&self) -> (b: Block)
        ensures
            same_block(b, *self),
            b.spec_hash() == self.spec_hash(),
            b.spec_remembers() == self.spec_remembers(),
    {
        proof {
            use_type_invariant(self);
        }
        let kernel = self.kernel.clone();
        proof {
            lemma_digest_depends_on_contents(kernel, self.kernel);
        }
        Block { kernel, proof: self.proof.clone(), digest: self.digest }
    }
}

impl PartialEq for Block {
    /// Blocks are equal if their digests are; whether these are remembered does not matter.
    fn eq(&self, other: &Block) -> (r: bool) {
        self.hash() == other.hash()
    }
}

impl vstd::std_specs::cmp::PartialEqSpecImpl for Block {
    open spec fn obeys_eq_spec() -> bool {
        true
    }

    open spec fn eq_spec(&self, other: &Block) -> bool {
        self.spec_hash() == other.spec_hash()
    }
}

} // verus!
