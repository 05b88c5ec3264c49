//! Where what lies in an encoding.

use vstd::prelude::*;

use crate::amount::NativeCurrencyAmount;
use crate::block::codec::amount_code;
use crate::block::codec::bool_code;
use crate::block::codec::claim_code;
use crate::block::codec::coinbase_code;
use crate::block::codec::concat_all;
use crate::block::codec::difficulty_code;
use crate::block::codec::header_code;
use crate::block::codec::kernel_code;
use crate::block::codec::listed;
use crate::block::codec::mmr_code;
use crate::block::codec::proof_code;
use crate::block::codec::proof_of_work_code;
use crate::block::codec::removal_code;
use crate::block::codec::sized;
use crate::block::codec::u128_code;
use crate::block::codec::u64_code;
use crate::block::decode::elements::lemma_sum_of_limbs;
use crate::block::BlockHeader;
use crate::block::BlockProof;
use crate::block::Claim;
use crate::difficulty::Difficulty;
use crate::difficulty::ProofOfWork;
use crate::digest::Digest;
use crate::mmr::MmrAccumulator;
use crate::transaction::RemovalRecord;
use crate::transaction::TransactionKernel;

verus! {

/// Numbers are cut into limbs of 32 bits, the least significant one first.
pub proof fn lemma_limbs_of_numbers(x: u64, y: u128)
    ensures
        u64_code(x).len() == 2,
        u64_code(x)[0] < 0x1_0000_0000,
        u64_code(x)[1] < 0x1_0000_0000,
        u64_code(x)[0] + 0x1_0000_0000 * u64_code(x)[1] == x,
        u128_code(y).len() == 4,
        u128_code(y)[0] < 0x1_0000_0000,
        u128_code(y)[1] < 0x1_0000_0000,
        u128_code(y)[2] < 0x1_0000_0000,
        u128_code(y)[3] < 0x1_0000_0000,
        u128_code(y)[0] + 0x1_0000_0000 * u128_code(y)[1] + 0x1_0000_0000_0000_0000 * u128_code(
            y,
        )[2] + 0x1_0000_0000_0000_0000_0000_0000 * u128_code(y)[3] == y,
{
    lemma_sum_of_limbs(y as int);
}

/// What is not negative is written as the number it is.
pub proof fn lemma_limbs_of_amounts(a: NativeCurrencyAmount)
    requires
        a.nau >= 0,
    ensures
        amount_code(a).len() == 4,
        amount_code(a)[0] + 0x1_0000_0000 * amount_code(a)[1] + 0x1_0000_0000_0000_0000
            * amount_code(a)[2] + 0x1_0000_0000_0000_0000_0000_0000 * amount_code(a)[3] == a.nau,
        coinbase_code(None) == seq![0u64],
        coinbase_code(Some(a))[0] == 1,
        coinbase_code(Some(a)).skip(1) == amount_code(a),
{
    lemma_limbs_of_numbers(0, a.nau as u128);
    assert(coinbase_code(Some(a)).skip(1) =~= amount_code(a));
}

/// A sequence is preceded by its length, and a list by the number of its items.
pub proof fn lemma_lengths_come_first(s: Seq<u64>, parts: Seq<Seq<u64>>)
    ensures
        sized(s)[0] == s.len() as u64,
        sized(s).skip(1) == s,
        listed(parts)[0] == parts.len() as u64,
        listed(parts).skip(1) == concat_all(parts),
{
    assert(sized(s).skip(1) =~= s);
    assert(listed(parts).skip(1) =~= concat_all(parts));
}

/// The items of a list follow one another: those of two lists, one after the other, are those of
/// the first and then those of the second.
pub proof fn lemma_items_follow_one_another(xs: Seq<Seq<u64>>, ys: Seq<Seq<u64>>, x: Seq<u64>)
    ensures
        concat_all(xs + ys) == concat_all(xs) + concat_all(ys),
        concat_all(seq![x]) == x,
        concat_all(Seq::empty()) == Seq::<u64>::empty(),
    decreases ys.len(),
{
    reveal_with_fuel(concat_all, 2);
    assert(seq![x].drop_last() =~= Seq::<Seq<u64>>::empty());
    assert(concat_all(seq![x]) =~= x);
    if ys.len() == 0 {
        assert(xs + ys =~= xs);
        assert(concat_all(xs + ys) =~= concat_all(xs) + concat_all(ys));
    } else {
        assert((xs + ys).drop_last() =~= xs + ys.drop_last());
        lemma_items_follow_one_another(xs, ys.drop_last(), x);
        assert(concat_all(xs + ys) =~= concat_all(xs) + concat_all(ys));
    }
}

/// A truth value is one if it holds, and the least significant element of a digest comes first.
pub proof fn lemma_layout_of_values(b: bool, d: Digest)
    ensures
        bool_code(b).len() == 1,
        bool_code(b)[0] == 1 <==> b,
        bool_code(b)[0] == 0 <==> !b,
        d.values().len() == 5,
        d.values()[0] == d.e0,
        d.values()[1] == d.e1,
        d.values()[2] == d.e2,
        d.values()[3] == d.e3,
        d.values()[4] == d.e4,
{
}

/// Difficulties and work are written with their least significant parts first.
pub proof fn lemma_layout_of_work(d: Difficulty, w: ProofOfWork)
    ensures
        difficulty_code(d).len() == 5,
        difficulty_code(d)[0] + 0x1_0000_0000 * difficulty_code(d)[1] == d.lo,
        difficulty_code(d)[2] + 0x1_0000_0000 * difficulty_code(d)[3] == d.mid,
        difficulty_code(d)[4] == d.hi,
        proof_of_work_code(w).len() == 6,
        proof_of_work_code(w)[0] + 0x1_0000_0000 * proof_of_work_code(w)[1] == w.sum.lo,
        proof_of_work_code(w)[2] + 0x1_0000_0000 * proof_of_work_code(w)[3] == w.sum.mid,
        proof_of_work_code(w)[4] + 0x1_0000_0000 * proof_of_work_code(w)[5] == w.sum.hi,
{
    lemma_limbs_of_numbers(d.lo, 0);
    lemma_limbs_of_numbers(d.mid, 0);
    lemma_limbs_of_numbers(w.sum.lo, 0);
    lemma_limbs_of_numbers(w.sum.mid, 0);
    lemma_limbs_of_numbers(w.sum.hi, 0);
}

/// A header is written from its last field to its first one.
pub proof fn lemma_layout_of_header(h: BlockHeader)
    ensures
        header_code(h).len() == 29,
        header_code(h)[28] == h.version,
        header_code(h)[27] == h.height.value,
        header_code(h).subrange(22, 27) == h.prev_block_digest.values(),
        header_code(h)[21] == h.timestamp.millis,
        header_code(h).subrange(16, 21) == h.nonce.values(),
        header_code(h).subrange(10, 16) == proof_of_work_code(h.cumulative_proof_of_work),
        header_code(h).subrange(5, 10) == difficulty_code(h.difficulty),
        header_code(h).subrange(0, 5) == h.guesser_digest.values(),
{
    let s = header_code(h);
    assert(s.subrange(22, 27) =~= h.prev_block_digest.values());
    assert(s.subrange(16, 21) =~= h.nonce.values());
    assert(s.subrange(10, 16) =~= proof_of_work_code(h.cumulative_proof_of_work));
    assert(s.subrange(5, 10) =~= difficulty_code(h.difficulty));
    assert(s.subrange(0, 5) =~= h.guesser_digest.values());
}

/// A transaction kernel is written from its last field to its first one.
pub proof fn lemma_layout_of_kernel(k: TransactionKernel)
    ensures
        kernel_code(k)[0] == 1 <==> k.merge_bit,
        kernel_code(k).subrange(1, 6) == k.mutator_set_hash.values(),
        kernel_code(k)[6] == k.timestamp.millis,
        k.coinbase is None ==> kernel_code(k)[7] == 1 && kernel_code(k)[8] == 0
            && kernel_code(k).subrange(9, 13) == amount_code(k.fee),
        k.coinbase is Some ==> kernel_code(k)[7] == 5 && kernel_code(k)[8] == 1
            && kernel_code(k).subrange(9, 13) == amount_code(k.coinbase->0) && kernel_code(
            k,
        ).subrange(13, 17) == amount_code(k.fee),
{
    let s = kernel_code(k);
    assert(s.subrange(1, 6) =~= k.mutator_set_hash.values());
    match k.coinbase {
        None => {
            assert(s.subrange(9, 13) =~= amount_code(k.fee));
        },
        Some(amount) => {
            assert(s.subrange(9, 13) =~= amount_code(amount));
            assert(s.subrange(13, 17) =~= amount_code(k.fee));
        },
    }
}

/// A claim ends with its program digest, before which comes its version.
pub proof fn lemma_layout_of_claim(c: Claim)
    ensures
        ({
            let s = claim_code(c);
            let n = c.output@.len() as int;
            let m = c.input@.len() as int;
            &&& s.len() == n + m + 10
            &&& s.subrange(2, 2 + n) == c.output@
            &&& s.subrange(4 + n, 4 + n + m) == c.input@
            &&& s[4 + n + m] == c.version
            &&& s.subrange(5 + n + m, 10 + n + m) == c.program_digest.values()
        }),
{
    let s = claim_code(c);
    let n = c.output@.len() as int;
    let m = c.input@.len() as int;
    assert(s.subrange(2, 2 + n) =~= c.output@);
    assert(s.subrange(4 + n, 4 + n + m) =~= c.input@);
    assert(s.subrange(5 + n + m, 10 + n + m) =~= c.program_digest.values());
}

/// The chunks of a removal record come before its indices, and the peaks of an accumulator before
/// the number of its leafs.
pub proof fn lemma_layout_of_records(r: RemovalRecord, m: MmrAccumulator)
    ensures
        removal_code(r).subrange(1, 1 + r.target_chunks@.len() as int) == r.target_chunks@,
        mmr_code(m).len() >= 2,
        mmr_code(m)[mmr_code(m).len() - 2] + 0x1_0000_0000 * mmr_code(m).last() == m.leaf_count,
{
    assert(removal_code(r).subrange(1, 1 + r.target_chunks@.len() as int) =~= r.target_chunks@);
    lemma_limbs_of_numbers(m.leaf_count, 0);
}

/// The first element of a proof tells which kind it is.
pub proof fn lemma_layout_of_proof(p: BlockProof)
    ensures
        p is Genesis <==> proof_code(p)[0] == 0,
        p is Invalid <==> proof_code(p)[0] == 1,
        p is SingleProof <==> proof_code(p)[0] == 2,
{
}

} // verus!
