//! Blocks.

use vstd::prelude::*;

use crate::block::claim_views;
use crate::block::codec::appendix_code;
use crate::block::codec::block_code;
use crate::block::codec::block_kernel_code;
use crate::block::codec::body_code;
use crate::block::codec::difficulty_code;
use crate::block::codec::encode_block;
use crate::block::codec::header_code;
use crate::block::codec::kernel_code;
use crate::block::codec::mmr_code;
use crate::block::codec::proof_code;
use crate::block::codec::proof_of_work_code;
use crate::block::codec::sized;
use crate::block::decode::elements::at;
use crate::block::decode::elements::lemma_at_concat;
use crate::block::decode::elements::lemma_at_sized;
use crate::block::decode::elements::read_difficulty;
use crate::block::decode::elements::read_digest;
use crate::block::decode::elements::read_element;
use crate::block::decode::elements::read_len;
use crate::block::decode::elements::read_proof_of_work;
use crate::block::decode::elements::read_words;
use crate::block::decode::elements::Read;
use crate::block::decode::lists::claims_code;
use crate::block::decode::records::read_kernel;
use crate::block::decode::records::read_mmr;
use crate::block::decode::records::read_sized_claims;
use crate::block::decode::records::read_sized_words;
use crate::block::mast::kernel_digest;
use crate::block::mast::lemma_digest_depends_on_contents;
use crate::block::same_block;
use crate::block::same_contents;
use crate::block::same_proof;
use crate::block::Block;
use crate::block::BlockAppendix;
use crate::block::BlockBody;
use crate::block::BlockHeader;
use crate::block::BlockKernel;
use crate::block::BlockProof;
use crate::block::Claim;
use crate::block::Proof;
use crate::difficulty::Difficulty;
use crate::difficulty::ProofOfWork;
use crate::digest::Digest;
use crate::height::BlockHeight;
use crate::mmr::MmrAccumulator;
use crate::timestamp::Timestamp;
use crate::transaction::MutatorSetAccumulator;
use crate::transaction::TransactionKernel;

verus! {

/// What lies at some position if a block header does.
pub open spec fn header_fields_at(s: Seq<u64>, pos: int, x: BlockHeader) -> bool {
    let guesser_digest = x.guesser_digest.values();
    let difficulty = difficulty_code(x.difficulty);
    let work = proof_of_work_code(x.cumulative_proof_of_work);
    let nonce = x.nonce.values();
    let timestamp = seq![x.timestamp.millis];
    let prev_block_digest = x.prev_block_digest.values();
    let height = seq![x.height.value];
    let version = seq![x.version];
    let p1 = pos + guesser_digest.len();
    let p2 = p1 + difficulty.len();
    let p3 = p2 + work.len();
    let p4 = p3 + nonce.len();
    let p5 = p4 + timestamp.len();
    let p6 = p5 + prev_block_digest.len();
    let p7 = p6 + height.len();
    &&& at(s, pos, guesser_digest)
    &&& at(s, p1, difficulty)
    &&& at(s, p2, work)
    &&& at(s, p3, nonce)
    &&& at(s, p4, timestamp)
    &&& at(s, p5, prev_block_digest)
    &&& at(s, p6, height)
    &&& at(s, p7, version)
    &&& header_code(x).len() == p7 + version.len() - pos
}

/// A block header lies at some position if its fields lie there, one after the other.
proof fn lemma_at_header(s: Seq<u64>, pos: int, x: BlockHeader)
    ensures
        at(s, pos, header_code(x)) <==> header_fields_at(s, pos, x),
{
    let guesser_digest = x.guesser_digest.values();
    let difficulty = difficulty_code(x.difficulty);
    let work = proof_of_work_code(x.cumulative_proof_of_work);
    let nonce = x.nonce.values();
    let timestamp = seq![x.timestamp.millis];
    let prev_block_digest = x.prev_block_digest.values();
    let height = seq![x.height.value];
    let version = seq![x.version];
    lemma_at_concat(
        s,
        pos,
        guesser_digest + difficulty + work + nonce + timestamp + prev_block_digest + height,
        version,
    );
    lemma_at_concat(
        s,
        pos,
        guesser_digest + difficulty + work + nonce + timestamp + prev_block_digest,
        height,
    );
    lemma_at_concat(
        s,
        pos,
        guesser_digest + difficulty + work + nonce + timestamp,
        prev_block_digest,
    );
    lemma_at_concat(s, pos, guesser_digest + difficulty + work + nonce, timestamp);
    lemma_at_concat(s, pos, guesser_digest + difficulty + work, nonce);
    lemma_at_concat(s, pos, guesser_digest + difficulty, work);
    lemma_at_concat(s, pos, guesser_digest, difficulty);
}

/// A block header.
pub fn read_header(s: &Vec<u64>, pos: usize) -> (r: Option<Read<BlockHeader>>)
    requires
        pos <= s@.len(),
    ensures
        match r {
            Some(read) => {
                &&& at(s@, pos as int, header_code(read.value))
                &&& read.end == pos + header_code(read.value).len()
            },
            None => true,
        },
        forall|x: BlockHeader| #[trigger]
            at(s@, pos as int, header_code(x)) ==> {
                &&& r is Some
                &&& r->Some_0.value == x
                &&& r->Some_0.end == pos + header_code(x).len()
            },
{
    proof {
        assert forall|x: BlockHeader| #[trigger]
            at(s@, pos as int, header_code(x)) implies header_fields_at(s@, pos as int, x) by {
            lemma_at_header(s@, pos as int, x);
        }
    }
    let guesser_digest: Read<Digest> = match read_digest(s, pos) {
        Some(read) => read,
        None => {
            return None;
        },
    };
    let difficulty: Read<Difficulty> = match read_difficulty(s, guesser_digest.end) {
        Some(read) => read,
        None => {
            return None;
        },
    };
    let work: Read<ProofOfWork> = match read_proof_of_work(s, difficulty.end) {
        Some(read) => read,
        None => {
            return None;
        },
    };
    let nonce: Read<Digest> = match read_digest(s, work.end) {
        Some(read) => read,
        None => {
            return None;
        },
    };
    let timestamp: Read<u64> = match read_element(s, nonce.end) {
        Some(read) => read,
        None => {
            return None;
        },
    };
    let prev_block_digest: Read<Digest> = match read_digest(s, timestamp.end) {
        Some(read) => read,
        None => {
            return None;
        },
    };
    let height: Read<u64> = match read_element(s, prev_block_digest.end) {
        Some(read) => read,
        None => {
            return None;
        },
    };
    let version: Read<u64> = match read_element(s, height.end) {
        Some(read) => read,
        None => {
            return None;
        },
    };
    let end: usize = version.end;
    let value = BlockHeader {
        version: version.value,
        height: BlockHeight { value: height.value },
        prev_block_digest: prev_block_digest.value,
        timestamp: Timestamp { millis: timestamp.value },
        nonce: nonce.value,
        cumulative_proof_of_work: work.value,
        difficulty: difficulty.value,
        guesser_digest: guesser_digest.value,
    };
    proof {
        lemma_at_header(s@, pos as int, value);
    }
    Some(Read { value, end })
}

/// What lies at some position if a block appendix does.
pub open spec fn appendix_fields_at(s: Seq<u64>, pos: int, x: BlockAppendix) -> bool {
    let claims = sized(claims_code(x.claims@));
    &&& at(s, pos, claims)
    &&& appendix_code(x).len() == pos + claims.len() - pos
}

/// A block appendix lies at some position if its fields lie there, one after the other.
pub proof fn lemma_at_appendix(s: Seq<u64>, pos: int, x: BlockAppendix)
    ensures
        at(s, pos, appendix_code(x)) <==> appendix_fields_at(s, pos, x),
{
}

/// A block appendix, preceded by its length.
pub fn read_appendix(s: &Vec<u64>, pos: usize) -> (r: Option<Read<BlockAppendix>>)
    requires
        pos <= s@.len(),
    ensures
        match r {
            Some(read) => {
                &&& at(s@, pos as int, sized(appendix_code(read.value)))
                &&& read.end == pos + sized(appendix_code(read.value)).len()
            },
            None => true,
        },
        forall|x: BlockAppendix| #[trigger]
            at(s@, pos as int, sized(appendix_code(x))) ==> {
                &&& r is Some
                &&& claim_views(r->Some_0.value.claims@) == claim_views(x.claims@)
                &&& r->Some_0.end == pos + sized(appendix_code(x)).len()
            },
{
    let total: usize = s.len();
    proof {
        assert forall|x: BlockAppendix| #[trigger]
            at(s@, pos as int, sized(appendix_code(x))) implies {
            &&& pos < s@.len()
            &&& s@[pos as int] == appendix_code(x).len()
            &&& appendix_fields_at(s@, pos + 1, x)
        } by {
            lemma_at_sized(s@, pos as int, appendix_code(x));
            lemma_at_appendix(s@, pos + 1, x);
        }
    }
    if pos >= s.len() {
        return None;
    }
    let len: u64 = s[pos];
    let claims: Read<Vec<Claim>> = match read_sized_claims(s, pos + 1) {
        Some(read) => read,
        None => {
            return None;
        },
    };
    if len != (claims.end - pos - 1) as u64 {
        return None;
    }
    let end: usize = claims.end;
    let value = BlockAppendix { claims: claims.value };
    proof {
        lemma_at_appendix(s@, pos + 1, value);
        lemma_at_sized(s@, pos as int, appendix_code(value));
    }
    Some(Read { value, end })
}

/// What lies at some position if a block body does.
pub open spec fn body_fields_at(s: Seq<u64>, pos: int, x: BlockBody) -> bool {
    let block_mmr = sized(mmr_code(x.block_mmr_accumulator));
    let lock_free_mmr = sized(mmr_code(x.lock_free_mmr_accumulator));
    let encoding = sized(x.mutator_set_accumulator.encoding@);
    let kernel = sized(kernel_code(x.transaction_kernel));
    let p1 = pos + block_mmr.len();
    let p2 = p1 + lock_free_mmr.len();
    let p3 = p2 + encoding.len();
    &&& at(s, pos, block_mmr)
    &&& at(s, p1, lock_free_mmr)
    &&& at(s, p2, encoding)
    &&& at(s, p3, kernel)
    &&& body_code(x).len() == p3 + kernel.len() - pos
}

/// A block body lies at some position if its fields lie there, one after the other.
pub proof fn lemma_at_body(s: Seq<u64>, pos: int, x: BlockBody)
    ensures
        at(s, pos, body_code(x)) <==> body_fields_at(s, pos, x),
{
    let block_mmr = sized(mmr_code(x.block_mmr_accumulator));
    let lock_free_mmr = sized(mmr_code(x.lock_free_mmr_accumulator));
    let encoding = sized(x.mutator_set_accumulator.encoding@);
    let kernel = sized(kernel_code(x.transaction_kernel));
    lemma_at_concat(s, pos, block_mmr + lock_free_mmr + encoding, kernel);
    lemma_at_concat(s, pos, block_mmr + lock_free_mmr, encoding);
    lemma_at_concat(s, pos, block_mmr, lock_free_mmr);
}

/// A block body, preceded by its length. The digest of its mutator set is not part of it.
pub fn read_body(s: &Vec<u64>, pos: usize, mutator_set_digest: &Digest) -> (r: Option<
    Read<BlockBody>,
>)
    requires
        pos <= s@.len(),
    ensures
        match r {
            Some(read) => {
                &&& at(s@, pos as int, sized(body_code(read.value)))
                &&& read.end == pos + sized(body_code(read.value)).len()
                &&& read.value.mutator_set_accumulator.digest == *mutator_set_digest
            },
            None => true,
        },
        forall|x: BlockBody|
            #[trigger] at(s@, pos as int, sized(body_code(x)))
                && x.mutator_set_accumulator.digest == *mutator_set_digest ==> {
                &&& r is Some
                &&& r->Some_0.value@ == x@
                &&& r->Some_0.end == pos + sized(body_code(x)).len()
            },
{
    let total: usize = s.len();
    proof {
        assert forall|x: BlockBody| #[trigger] at(s@, pos as int, sized(body_code(x))) implies {
            &&& pos < s@.len()
            &&& s@[pos as int] == body_code(x).len()
            &&& body_fields_at(s@, pos + 1, x)
        } by {
            lemma_at_sized(s@, pos as int, body_code(x));
            lemma_at_body(s@, pos + 1, x);
        }
    }
    if pos >= s.len() {
        return None;
    }
    let len: u64 = s[pos];
    let block_mmr: Read<MmrAccumulator> = match read_mmr(s, pos + 1) {
        Some(read) => read,
        None => {
            return None;
        },
    };
    let lock_free_mmr: Read<MmrAccumulator> = match read_mmr(s, block_mmr.end) {
        Some(read) => read,
        None => {
            return None;
        },
    };
    let encoding: Read<Vec<u64>> = match read_words(s, lock_free_mmr.end) {
        Some(read) => read,
        None => {
            return None;
        },
    };
    let kernel: Read<TransactionKernel> = match read_kernel(s, encoding.end) {
        Some(read) => read,
        None => {
            return None;
        },
    };
    if len != (kernel.end - pos - 1) as u64 {
        return None;
    }
    let end: usize = kernel.end;
    let value = BlockBody {
        transaction_kernel: kernel.value,
        mutator_set_accumulator: MutatorSetAccumulator {
            digest: *mutator_set_digest,
            encoding: encoding.value,
        },
        lock_free_mmr_accumulator: lock_free_mmr.value,
        block_mmr_accumulator: block_mmr.value,
    };
    proof {
        lemma_at_body(s@, pos + 1, value);
        lemma_at_sized(s@, pos as int, body_code(value));
    }
    Some(Read { value, end })
}

/// What lies at some position if a block kernel does.
pub open spec fn block_kernel_fields_at(s: Seq<u64>, pos: int, x: BlockKernel) -> bool {
    let appendix = sized(appendix_code(x.appendix));
    let body = sized(body_code(x.body));
    let header = header_code(x.header);
    let p1 = pos + appendix.len();
    let p2 = p1 + body.len();
    &&& at(s, pos, appendix)
    &&& at(s, p1, body)
    &&& at(s, p2, header)
    &&& block_kernel_code(x).len() == p2 + header.len() - pos
}

/// A block kernel lies at some position if its fields lie there, one after the other.
pub proof fn lemma_at_block_kernel(s: Seq<u64>, pos: int, x: BlockKernel)
    ensures
        at(s, pos, block_kernel_code(x)) <==> block_kernel_fields_at(s, pos, x),
{
    let appendix = sized(appendix_code(x.appendix));
    let body = sized(body_code(x.body));
    let header = header_code(x.header);
    lemma_at_concat(s, pos, appendix + body, header);
    lemma_at_concat(s, pos, appendix, body);
}

/// A block kernel, preceded by its length. The digest of its mutator set is not part of it.
pub fn read_block_kernel(s: &Vec<u64>, pos: usize, mutator_set_digest: &Digest) -> (r: Option<
    Read<BlockKernel>,
>)
    requires
        pos <= s@.len(),
    ensures
        match r {
            Some(read) => {
                &&& at(s@, pos as int, sized(block_kernel_code(read.value)))
                &&& read.end == pos + sized(block_kernel_code(read.value)).len()
                &&& read.value.body.mutator_set_accumulator.digest == *mutator_set_digest
            },
            None => true,
        },
        forall|x: BlockKernel|
            #[trigger] at(s@, pos as int, sized(block_kernel_code(x)))
                && x.body.mutator_set_accumulator.digest == *mutator_set_digest ==> {
                &&& r is Some
                &&& same_contents(r->Some_0.value, x)
                &&& r->Some_0.end == pos + sized(block_kernel_code(x)).len()
            },
{
    let total: usize = s.len();
    proof {
        assert forall|x: BlockKernel| #[trigger]
            at(s@, pos as int, sized(block_kernel_code(x))) implies {
            &&& pos < s@.len()
            &&& s@[pos as int] == block_kernel_code(x).len()
            &&& block_kernel_fields_at(s@, pos + 1, x)
        } by {
            lemma_at_sized(s@, pos as int, block_kernel_code(x));
            lemma_at_block_kernel(s@, pos + 1, x);
        }
    }
    if pos >= s.len() {
        return None;
    }
    let len: u64 = s[pos];
    let appendix: Read<BlockAppendix> = match read_appendix(s, pos + 1) {
        Some(read) => read,
        None => {
            return None;
        },
    };
    let body: Read<BlockBody> = match read_body(s, appendix.end, mutator_set_digest) {
        Some(read) => read,
        None => {
            return None;
        },
    };
    let header: Read<BlockHeader> = match read_header(s, body.end) {
        Some(read) => read,
        None => {
            return None;
        },
    };
    if len != (header.end - pos - 1) as u64 {
        return None;
    }
    let end: usize = header.end;
    let value = BlockKernel { header: header.value, body: body.value, appendix: appendix.value };
    proof {
        lemma_at_block_kernel(s@, pos + 1, value);
        lemma_at_sized(s@, pos as int, block_kernel_code(value));
    }
    Some(Read { value, end })
}

/// A block proof, preceded by its length.
pub fn read_proof(s: &Vec<u64>, pos: usize) -> (r: Option<Read<BlockProof>>)
    requires
        pos <= s@.len(),
    ensures
        match r {
            Some(read) => at(s@, pos as int, sized(proof_code(read.value))) && read.end == pos
                + sized(proof_code(read.value)).len(),
            None => true,
        },
        forall|x: BlockProof| #[trigger]
            at(s@, pos as int, sized(proof_code(x))) ==> {
                &&& r is Some
                &&& same_proof(r->Some_0.value, x)
                &&& r->Some_0.end == pos + sized(proof_code(x)).len()
            },
{
    let total: usize = s.len();
    proof {
        assert forall|x: BlockProof| #[trigger]
            at(s@, pos as int, sized(proof_code(x))) implies match x {
            BlockProof::Genesis => at(s@, pos + 1, seq![0u64]),
            BlockProof::Invalid => at(s@, pos + 1, seq![1u64]),
            BlockProof::SingleProof(proof) => at(s@, pos + 1, seq![2u64]) && at(
                s@,
                pos + 2,
                sized(sized(sized(proof.elements@))),
            ),
        } by {
            lemma_at_sized(s@, pos as int, proof_code(x));
            match x {
                BlockProof::SingleProof(proof) => {
                    lemma_at_concat(
                        s@,
                        pos + 1,
                        seq![2u64],
                        sized(sized(sized(proof.elements@))),
                    );
                },
                _ => {},
            }
        }
    }
    let len: Read<usize> = match read_len(s, pos) {
        Some(read) => read,
        None => {
            return None;
        },
    };
    let tag: Read<u64> = match read_element(s, len.end) {
        Some(read) => read,
        None => {
            return None;
        },
    };
    let inner: Read<BlockProof> = if tag.value == 0 {
        Read { value: BlockProof::Genesis, end: tag.end }
    } else if tag.value == 1 {
        Read { value: BlockProof::Invalid, end: tag.end }
    } else if tag.value == 2 {
        let outer: Read<usize> = match read_len(s, tag.end) {
            Some(read) => read,
            None => {
                return None;
            },
        };
        let words: Read<Vec<u64>> = match read_sized_words(s, outer.end) {
            Some(read) => read,
            None => {
                return None;
            },
        };
        if words.end - outer.end != outer.value {
            return None;
        }
        proof {
            let code = sized(sized(words.value@));
            lemma_at_sized(s@, tag.end as int, code);
            lemma_at_concat(s@, pos + 1, seq![2u64], sized(code));
        }
        Read { value: BlockProof::SingleProof(Proof { elements: words.value }), end: words.end }
    } else {
        return None;
    };
    if inner.end - len.end != len.value {
        return None;
    }
    proof {
        lemma_at_sized(s@, pos as int, proof_code(inner.value));
    }
    Some(inner)
}

impl Block {
    /// The block as a sequence of field elements.
    pub fn encode(&self) -> (code: Vec<u64>)
        ensures
            code@ == block_code(self.spec_kernel(), self.spec_proof()),
    {
        encode_block(self.kernel(), self.block_proof())
    }

    /// The block with the given encoding, if there is one. The digest of its mutator set is not
    /// part of the encoding.
    pub fn decode(code: &Vec<u64>, mutator_set_digest: &Digest) -> (r: Option<Block>)
        ensures
            match r {
                Some(block) => {
                    &&& block_code(block.spec_kernel(), block.spec_proof()) == code@
                    &&& block.spec_body().mutator_set_accumulator.digest == *mutator_set_digest
                    &&& !block.spec_remembers()
                },
                None => true,
            },
            forall|x: Block|
                #[trigger] block_code(x.spec_kernel(), x.spec_proof()) == code@
                    && x.spec_body().mutator_set_accumulator.digest == *mutator_set_digest ==> {
                    &&& r is Some
                    &&& same_block(r->Some_0, x)
                    &&& r->Some_0.spec_hash() == x.spec_hash()
                },
    {
        let total: usize = code.len();
        proof {
            assert forall|x: Block| #[trigger]
                block_code(x.spec_kernel(), x.spec_proof()) == code@ implies at(
                code@,
                0,
                sized(proof_code(x.spec_proof())),
            ) && at(
                code@,
                sized(proof_code(x.spec_proof())).len() as int,
                sized(block_kernel_code(x.spec_kernel())),
            ) && code@.len() == sized(proof_code(x.spec_proof())).len() + sized(
                block_kernel_code(x.spec_kernel()),
            ).len() by {
                let a = sized(proof_code(x.spec_proof()));
                let b = sized(block_kernel_code(x.spec_kernel()));
                assert(code@.subrange(0, code@.len() as int) =~= code@);
                lemma_at_concat(code@, 0, a, b);
            }
        }
        let block_proof: Read<BlockProof> = match read_proof(code, 0) {
            Some(read) => read,
            None => {
                return None;
            },
        };
        let kernel: Read<BlockKernel> = match read_block_kernel(
            code,
            block_proof.end,
            mutator_set_digest,
        ) {
            Some(read) => read,
            None => {
                return None;
            },
        };
        if kernel.end != total {
            return None;
        }
        proof {
            let a = sized(proof_code(block_proof.value));
            let b = sized(block_kernel_code(kernel.value));
            lemma_at_concat(code@, 0, a, b);
            assert(code@.subrange(0, code@.len() as int) =~= code@);
            assert forall|x: Block|
                #[trigger] block_code(x.spec_kernel(), x.spec_proof()) == code@
                    && x.spec_body().mutator_set_accumulator.digest
                    == *mutator_set_digest implies same_contents(kernel.value, x.spec_kernel())
                && kernel_digest(kernel.value) == x.spec_hash() by {
                lemma_digest_depends_on_contents(kernel.value, x.spec_kernel());
            }
        }
        Some(
            Block::new(
                kernel.value.header,
                kernel.value.body,
                kernel.value.appendix,
                block_proof.value,
            ),
        )
    }
}


} // verus!
