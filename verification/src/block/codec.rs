//! Blocks and their parts as sequences of field elements.
//!
//! The fields of a record are listed in reverse order. A list starts with its length. Whatever has
//! a variable length, and is not a list itself, is preceded by that length.

use vstd::prelude::*;

use crate::amount::NativeCurrencyAmount;
use crate::block::BlockAppendix;
use crate::block::BlockBody;
use crate::block::BlockHeader;
use crate::block::BlockKernel;
use crate::block::BlockProof;
use crate::block::Claim;
use crate::difficulty::Difficulty;
use crate::difficulty::ProofOfWork;
use crate::digest::Digest;
use crate::mmr::MmrAccumulator;
use crate::transaction::AdditionRecord;
use crate::transaction::Coin;
use crate::transaction::PublicAnnouncement;
use crate::transaction::RemovalRecord;
use crate::transaction::TransactionKernel;
use crate::transaction::TypeScriptHashes;
use crate::transaction::Utxo;
use crate::transaction::UtxoView;

verus! {

/// 2^32.
pub open spec fn b32() -> int {
    0x1_0000_0000
}

/// All parts, one after the other.
pub open spec fn concat_all(parts: Seq<Seq<u64>>) -> Seq<u64>
    decreases parts.len(),
{
    if parts.len() == 0 {
        Seq::empty()
    } else {
        concat_all(parts.drop_last()) + parts.last()
    }
}

/// A part that comes after others is the last one.
pub proof fn lemma_concat_push(parts: Seq<Seq<u64>>, part: Seq<u64>)
    ensures
        concat_all(parts.push(part)) == concat_all(parts) + part,
{
    assert(parts.push(part).drop_last() =~= parts);
}

/// A sequence, preceded by its length.
pub open spec fn sized(s: Seq<u64>) -> Seq<u64> {
    seq![s.len() as u64] + s
}

/// A list of parts, preceded by their number.
pub open spec fn listed(parts: Seq<Seq<u64>>) -> Seq<u64> {
    seq![parts.len() as u64] + concat_all(parts)
}

pub open spec fn u64_code(x: u64) -> Seq<u64> {
    seq![(x as int % b32()) as u64, (x as int / b32()) as u64]
}

pub open spec fn u128_code(x: u128) -> Seq<u64> {
    seq![
        (x as int % b32()) as u64,
        (x as int / b32() % b32()) as u64,
        (x as int / (b32() * b32()) % b32()) as u64,
        (x as int / (b32() * b32() * b32())) as u64,
    ]
}

pub open spec fn bool_code(b: bool) -> Seq<u64> {
    seq![
        if b {
            1u64
        } else {
            0u64
        },
    ]
}

pub open spec fn amount_code(a: NativeCurrencyAmount) -> Seq<u64> {
    u128_code(a.nau as u128)
}

pub open spec fn coinbase_code(a: Option<NativeCurrencyAmount>) -> Seq<u64> {
    match a {
        Some(amount) => seq![1u64] + amount_code(amount),
        None => seq![0u64],
    }
}

pub open spec fn difficulty_code(d: Difficulty) -> Seq<u64> {
    u64_code(d.lo) + u64_code(d.mid) + seq![d.hi as u64]
}

pub open spec fn proof_of_work_code(w: ProofOfWork) -> Seq<u64> {
    u64_code(w.sum.lo) + u64_code(w.sum.mid) + u64_code(w.sum.hi)
}

pub open spec fn digests_code(digests: Seq<Digest>) -> Seq<u64> {
    listed(digests.map_values(|d: Digest| d.values()))
}

pub open spec fn mmr_code(m: MmrAccumulator) -> Seq<u64> {
    sized(digests_code(m.peaks@)) + u64_code(m.leaf_count)
}

pub open spec fn removal_code(r: RemovalRecord) -> Seq<u64> {
    sized(r.target_chunks@) + sized(
        listed(r.absolute_indices@.map_values(|x: u128| u128_code(x))),
    )
}

pub open spec fn removals_code(records: Seq<RemovalRecord>) -> Seq<u64> {
    listed(records.map_values(|r: RemovalRecord| sized(removal_code(r))))
}

pub open spec fn additions_code(records: Seq<AdditionRecord>) -> Seq<u64> {
    listed(records.map_values(|r: AdditionRecord| r.canonical_commitment.values()))
}

pub open spec fn announcement_code(a: PublicAnnouncement) -> Seq<u64> {
    sized(sized(a.message@))
}

pub open spec fn announcements_code(announcements: Seq<PublicAnnouncement>) -> Seq<u64> {
    listed(announcements.map_values(|a: PublicAnnouncement| sized(announcement_code(a))))
}

pub open spec fn kernel_code(k: TransactionKernel) -> Seq<u64> {
    bool_code(k.merge_bit) + k.mutator_set_hash.values() + seq![k.timestamp.millis] + sized(
        coinbase_code(k.coinbase),
    ) + amount_code(k.fee) + sized(announcements_code(k.public_announcements@)) + sized(
        additions_code(k.outputs@),
    ) + sized(removals_code(k.inputs@))
}

pub open spec fn claim_code(c: Claim) -> Seq<u64> {
    sized(sized(c.output@)) + sized(sized(c.input@)) + seq![c.version as u64]
        + c.program_digest.values()
}

pub open spec fn appendix_code(a: BlockAppendix) -> Seq<u64> {
    sized(listed(a.claims@.map_values(|c: Claim| sized(claim_code(c)))))
}

pub open spec fn header_code(h: BlockHeader) -> Seq<u64> {
    h.guesser_digest.values() + difficulty_code(h.difficulty) + proof_of_work_code(
        h.cumulative_proof_of_work,
    ) + h.nonce.values() + seq![h.timestamp.millis] + h.prev_block_digest.values() + seq![
        h.height.value,
    ] + seq![h.version]
}

pub open spec fn body_code(b: BlockBody) -> Seq<u64> {
    sized(mmr_code(b.block_mmr_accumulator)) + sized(mmr_code(b.lock_free_mmr_accumulator))
        + sized(b.mutator_set_accumulator.encoding@) + sized(kernel_code(b.transaction_kernel))
}

pub open spec fn block_kernel_code(k: BlockKernel) -> Seq<u64> {
    sized(appendix_code(k.appendix)) + sized(body_code(k.body)) + header_code(k.header)
}

pub open spec fn proof_code(p: BlockProof) -> Seq<u64> {
    match p {
        BlockProof::Genesis => seq![0u64],
        BlockProof::Invalid => seq![1u64],
        BlockProof::SingleProof(proof) => seq![2u64] + sized(sized(sized(proof.elements@))),
    }
}

/// A block as a sequence of field elements.
pub open spec fn block_code(kernel: BlockKernel, proof: BlockProof) -> Seq<u64> {
    sized(proof_code(proof)) + sized(block_kernel_code(kernel))
}

/// A coin: the state of the type script it is subject to, and that script's hash.
pub open spec fn coin_code(c: Coin, scripts: TypeScriptHashes) -> Seq<u64> {
    match c {
        Coin::NativeCurrency(amount) => sized(sized(amount_code(amount)))
            + scripts.native_currency.values(),
        Coin::TimeLock(until) => sized(sized(seq![until.millis])) + scripts.time_lock.values(),
    }
}

pub open spec fn utxo_code(u: UtxoView, scripts: TypeScriptHashes) -> Seq<u64> {
    sized(listed(u.coins.map_values(|c: Coin| sized(coin_code(c, scripts)))))
        + u.lock_script_hash.values()
}

/// Appends a sequence preceded by its length.
pub fn push_sized(out: &mut Vec<u64>, mut part: Vec<u64>)
    ensures
        final(out)@ == old(out)@ + sized(part@),
{
    let ghost whole = part@;
    out.push(part.len() as u64);
    out.append(&mut part);
    assert(out@ =~= old(out)@ + sized(whole));
}

pub fn push_copy(out: &mut Vec<u64>, part: &Vec<u64>)
    ensures
        final(out)@ == old(out)@ + part@,
{
    let mut copy: Vec<u64> = part.clone();
    out.append(&mut copy);
}

fn push_u64(out: &mut Vec<u64>, x: u64)
    ensures
        final(out)@ == old(out)@ + u64_code(x),
{
    out.push(x % 0x1_0000_0000);
    out.push(x / 0x1_0000_0000);
    assert(out@ =~= old(out)@ + u64_code(x));
}

fn push_u128(out: &mut Vec<u64>, x: u128)
    ensures
        final(out)@ == old(out)@ + u128_code(x),
{
    out.push((x % 0x1_0000_0000) as u64);
    out.push((x / 0x1_0000_0000 % 0x1_0000_0000) as u64);
    out.push((x / 0x1_0000_0000_0000_0000 % 0x1_0000_0000) as u64);
    out.push((x / 0x1_0000_0000_0000_0000_0000_0000) as u64);
    assert(out@ =~= old(out)@ + u128_code(x));
}

pub fn push_digest(out: &mut Vec<u64>, d: &Digest)
    ensures
        final(out)@ == old(out)@ + d.values(),
{
    out.push(d.e0);
    out.push(d.e1);
    out.push(d.e2);
    out.push(d.e3);
    out.push(d.e4);
    assert(out@ =~= old(out)@ + d.values());
}

pub fn push_amount(out: &mut Vec<u64>, a: &NativeCurrencyAmount)
    ensures
        final(out)@ == old(out)@ + amount_code(*a),
{
    push_u128(out, a.nau as u128);
}

pub fn encode_digest(d: &Digest) -> (out: Vec<u64>)
    ensures
        out@ == d.values(),
{
    let mut out: Vec<u64> = Vec::new();
    push_digest(&mut out, d);
    assert(out@ =~= d.values());
    out
}

pub fn encode_amount(a: &NativeCurrencyAmount) -> (out: Vec<u64>)
    ensures
        out@ == amount_code(*a),
{
    let mut out: Vec<u64> = Vec::new();
    push_amount(&mut out, a);
    assert(out@ =~= amount_code(*a));
    out
}

pub fn encode_coinbase(a: &Option<NativeCurrencyAmount>) -> (out: Vec<u64>)
    ensures
        out@ == coinbase_code(*a),
{
    let mut out: Vec<u64> = Vec::new();
    match a {
        Some(amount) => {
            out.push(1);
            push_amount(&mut out, amount);
        },
        None => {
            out.push(0);
        },
    }
    assert(out@ =~= coinbase_code(*a));
    out
}

pub fn encode_bool(b: bool) -> (out: Vec<u64>)
    ensures
        out@ == bool_code(b),
{
    let mut out: Vec<u64> = Vec::new();
    out.push(
        if b {
            1
        } else {
            0
        },
    );
    assert(out@ =~= bool_code(b));
    out
}

pub fn encode_element(x: u64) -> (out: Vec<u64>)
    ensures
        out@ == seq![x],
{
    let mut out: Vec<u64> = Vec::new();
    out.push(x);
    assert(out@ =~= seq![x]);
    out
}

pub fn encode_difficulty(d: &Difficulty) -> (out: Vec<u64>)
    ensures
        out@ == difficulty_code(*d),
{
    let mut out: Vec<u64> = Vec::new();
    push_u64(&mut out, d.lo);
    push_u64(&mut out, d.mid);
    out.push(d.hi as u64);
    assert(out@ =~= difficulty_code(*d));
    out
}

pub fn encode_proof_of_work(w: &ProofOfWork) -> (out: Vec<u64>)
    ensures
        out@ == proof_of_work_code(*w),
{
    let mut out: Vec<u64> = Vec::new();
    push_u64(&mut out, w.sum.lo);
    push_u64(&mut out, w.sum.mid);
    push_u64(&mut out, w.sum.hi);
    assert(out@ =~= proof_of_work_code(*w));
    out
}

pub fn encode_digests(digests: &Vec<Digest>) -> (out: Vec<u64>)
    ensures
        out@ == digests_code(digests@),
{
    let mut out: Vec<u64> = Vec::new();
    out.push(digests.len() as u64);
    let ghost parts = digests@.map_values(|d: Digest| d.values());
    let mut i: usize = 0;
    assert(out@ =~= seq![parts.len() as u64] + concat_all(parts.take(0)));
    while i < digests.len()
        invariant
            i <= digests@.len(),
            parts == digests@.map_values(|d: Digest| d.values()),
            out@ == seq![parts.len() as u64] + concat_all(parts.take(i as int)),
        decreases digests@.len() - i,
    {
        push_digest(&mut out, &digests[i]);
        proof {
            assert(parts.take(i + 1) =~= parts.take(i as int).push(digests@[i as int].values()));
            lemma_concat_push(parts.take(i as int), digests@[i as int].values());
            assert(out@ =~= seq![parts.len() as u64] + concat_all(parts.take(i + 1)));
        }
        i = i + 1;
    }
    assert(parts.take(i as int) =~= parts);
    out
}

pub fn encode_mmr(m: &MmrAccumulator) -> (out: Vec<u64>)
    ensures
        out@ == mmr_code(*m),
{
    let mut out: Vec<u64> = Vec::new();
    push_sized(&mut out, encode_digests(&m.peaks));
    push_u64(&mut out, m.leaf_count);
    assert(out@ =~= mmr_code(*m));
    out
}

fn encode_indices(indices: &Vec<u128>) -> (out: Vec<u64>)
    ensures
        out@ == listed(indices@.map_values(|x: u128| u128_code(x))),
{
    let mut out: Vec<u64> = Vec::new();
    out.push(indices.len() as u64);
    let ghost parts = indices@.map_values(|x: u128| u128_code(x));
    let mut i: usize = 0;
    assert(out@ =~= seq![parts.len() as u64] + concat_all(parts.take(0)));
    while i < indices.len()
        invariant
            i <= indices@.len(),
            parts == indices@.map_values(|x: u128| u128_code(x)),
            out@ == seq![parts.len() as u64] + concat_all(parts.take(i as int)),
        decreases indices@.len() - i,
    {
        push_u128(&mut out, indices[i]);
        proof {
            assert(parts.take(i + 1) =~= parts.take(i as int).push(u128_code(indices@[i as int])));
            lemma_concat_push(parts.take(i as int), u128_code(indices@[i as int]));
            assert(out@ =~= seq![parts.len() as u64] + concat_all(parts.take(i + 1)));
        }
        i = i + 1;
    }
    assert(parts.take(i as int) =~= parts);
    out
}

fn encode_removal(r: &RemovalRecord) -> (out: Vec<u64>)
    ensures
        out@ == removal_code(*r),
{
    let mut out: Vec<u64> = Vec::new();
    push_sized(&mut out, r.target_chunks.clone());
    push_sized(&mut out, encode_indices(&r.absolute_indices));
    assert(out@ =~= removal_code(*r));
    out
}

pub fn encode_removals(records: &Vec<RemovalRecord>) -> (out: Vec<u64>)
    ensures
        out@ == removals_code(records@),
{
    let mut out: Vec<u64> = Vec::new();
    out.push(records.len() as u64);
    let ghost parts = records@.map_values(|r: RemovalRecord| sized(removal_code(r)));
    let mut i: usize = 0;
    assert(out@ =~= seq![parts.len() as u64] + concat_all(parts.take(0)));
    while i < records.len()
        invariant
            i <= records@.len(),
            parts == records@.map_values(|r: RemovalRecord| sized(removal_code(r))),
            out@ == seq![parts.len() as u64] + concat_all(parts.take(i as int)),
        decreases records@.len() - i,
    {
        push_sized(&mut out, encode_removal(&records[i]));
        proof {
            let part = sized(removal_code(records@[i as int]));
            assert(parts.take(i + 1) =~= parts.take(i as int).push(part));
            lemma_concat_push(parts.take(i as int), part);
            assert(out@ =~= seq![parts.len() as u64] + concat_all(parts.take(i + 1)));
        }
        i = i + 1;
    }
    assert(parts.take(i as int) =~= parts);
    out
}

pub fn encode_additions(records: &Vec<AdditionRecord>) -> (out: Vec<u64>)
    ensures
        out@ == additions_code(records@),
{
    let mut out: Vec<u64> = Vec::new();
    out.push(records.len() as u64);
    let ghost parts = records@.map_values(|r: AdditionRecord| r.canonical_commitment.values());
    let mut i: usize = 0;
    assert(out@ =~= seq![parts.len() as u64] + concat_all(parts.take(0)));
    while i < records.len()
        invariant
            i <= records@.len(),
            parts == records@.map_values(|r: AdditionRecord| r.canonical_commitment.values()),
            out@ == seq![parts.len() as u64] + concat_all(parts.take(i as int)),
        decreases records@.len() - i,
    {
        push_digest(&mut out, &records[i].canonical_commitment);
        proof {
            let part = records@[i as int].canonical_commitment.values();
            assert(parts.take(i + 1) =~= parts.take(i as int).push(part));
            lemma_concat_push(parts.take(i as int), part);
            assert(out@ =~= seq![parts.len() as u64] + concat_all(parts.take(i + 1)));
        }
        i = i + 1;
    }
    assert(parts.take(i as int) =~= parts);
    out
}

fn encode_announcement(a: &PublicAnnouncement) -> (out: Vec<u64>)
    ensures
        out@ == announcement_code(*a),
{
    let mut inner: Vec<u64> = Vec::new();
    push_sized(&mut inner, a.message.clone());
    assert(inner@ =~= sized(a.message@));
    let mut out: Vec<u64> = Vec::new();
    push_sized(&mut out, inner);
    assert(out@ =~= announcement_code(*a));
    out
}

pub fn encode_announcements(announcements: &Vec<PublicAnnouncement>) -> (out: Vec<u64>)
    ensures
        out@ == announcements_code(announcements@),
{
    let mut out: Vec<u64> = Vec::new();
    out.push(announcements.len() as u64);
    let ghost parts = announcements@.map_values(
        |a: PublicAnnouncement| sized(announcement_code(a)),
    );
    let mut i: usize = 0;
    assert(out@ =~= seq![parts.len() as u64] + concat_all(parts.take(0)));
    while i < announcements.len()
        invariant
            i <= announcements@.len(),
            parts == announcements@.map_values(
                |a: PublicAnnouncement| sized(announcement_code(a)),
            ),
            out@ == seq![parts.len() as u64] + concat_all(parts.take(i as int)),
        decreases announcements@.len() - i,
    {
        push_sized(&mut out, encode_announcement(&announcements[i]));
        proof {
            let part = sized(announcement_code(announcements@[i as int]));
            assert(parts.take(i + 1) =~= parts.take(i as int).push(part));
            lemma_concat_push(parts.take(i as int), part);
            assert(out@ =~= seq![parts.len() as u64] + concat_all(parts.take(i + 1)));
        }
        i = i + 1;
    }
    assert(parts.take(i as int) =~= parts);
    out
}

fn encode_transaction_kernel(k: &TransactionKernel) -> (out: Vec<u64>)
    ensures
        out@ == kernel_code(*k),
{
    let mut out: Vec<u64> = encode_bool(k.merge_bit);
    push_digest(&mut out, &k.mutator_set_hash);
    out.push(k.timestamp.millis);
    push_sized(&mut out, encode_coinbase(&k.coinbase));
    push_amount(&mut out, &k.fee);
    push_sized(&mut out, encode_announcements(&k.public_announcements));
    push_sized(&mut out, encode_additions(&k.outputs));
    push_sized(&mut out, encode_removals(&k.inputs));
    assert(out@ =~= kernel_code(*k));
    out
}

fn encode_claim(c: &Claim) -> (out: Vec<u64>)
    ensures
        out@ == claim_code(*c),
{
    let mut output: Vec<u64> = Vec::new();
    push_sized(&mut output, c.output.clone());
    assert(output@ =~= sized(c.output@));
    let mut input: Vec<u64> = Vec::new();
    push_sized(&mut input, c.input.clone());
    assert(input@ =~= sized(c.input@));
    let mut out: Vec<u64> = Vec::new();
    push_sized(&mut out, output);
    push_sized(&mut out, input);
    out.push(c.version as u64);
    push_digest(&mut out, &c.program_digest);
    assert(out@ =~= claim_code(*c));
    out
}

pub fn encode_appendix(a: &BlockAppendix) -> (out: Vec<u64>)
    ensures
        out@ == appendix_code(*a),
{
    let mut list: Vec<u64> = Vec::new();
    list.push(a.claims.len() as u64);
    let ghost parts = a.claims@.map_values(|c: Claim| sized(claim_code(c)));
    let mut i: usize = 0;
    assert(list@ =~= seq![parts.len() as u64] + concat_all(parts.take(0)));
    while i < a.claims.len()
        invariant
            i <= a.claims@.len(),
            parts == a.claims@.map_values(|c: Claim| sized(claim_code(c))),
            list@ == seq![parts.len() as u64] + concat_all(parts.take(i as int)),
        decreases a.claims@.len() - i,
    {
        push_sized(&mut list, encode_claim(&a.claims[i]));
        proof {
            let part = sized(claim_code(a.claims@[i as int]));
            assert(parts.take(i + 1) =~= parts.take(i as int).push(part));
            lemma_concat_push(parts.take(i as int), part);
            assert(list@ =~= seq![parts.len() as u64] + concat_all(parts.take(i + 1)));
        }
        i = i + 1;
    }
    assert(parts.take(i as int) =~= parts);
    let mut out: Vec<u64> = Vec::new();
    push_sized(&mut out, list);
    assert(out@ =~= appendix_code(*a));
    out
}

fn encode_header(h: &BlockHeader) -> (out: Vec<u64>)
    ensures
        out@ == header_code(*h),
{
    let mut out: Vec<u64> = encode_digest(&h.guesser_digest);
    push_copy(&mut out, &encode_difficulty(&h.difficulty));
    push_copy(&mut out, &encode_proof_of_work(&h.cumulative_proof_of_work));
    push_digest(&mut out, &h.nonce);
    out.push(h.timestamp.millis);
    push_digest(&mut out, &h.prev_block_digest);
    out.push(h.height.value);
    out.push(h.version);
    assert(out@ =~= header_code(*h));
    out
}

fn encode_body(b: &BlockBody) -> (out: Vec<u64>)
    ensures
        out@ == body_code(*b),
{
    let mut out: Vec<u64> = Vec::new();
    push_sized(&mut out, encode_mmr(&b.block_mmr_accumulator));
    push_sized(&mut out, encode_mmr(&b.lock_free_mmr_accumulator));
    push_sized(&mut out, b.mutator_set_accumulator.encoding.clone());
    push_sized(&mut out, encode_transaction_kernel(&b.transaction_kernel));
    assert(out@ =~= body_code(*b));
    out
}

fn encode_block_kernel(k: &BlockKernel) -> (out: Vec<u64>)
    ensures
        out@ == block_kernel_code(*k),
{
    let mut out: Vec<u64> = Vec::new();
    push_sized(&mut out, encode_appendix(&k.appendix));
    push_sized(&mut out, encode_body(&k.body));
    push_copy(&mut out, &encode_header(&k.header));
    assert(out@ =~= block_kernel_code(*k));
    out
}

fn encode_proof(p: &BlockProof) -> (out: Vec<u64>)
    ensures
        out@ == proof_code(*p),
{
    let mut out: Vec<u64> = Vec::new();
    match p {
        BlockProof::Genesis => {
            out.push(0);
        },
        BlockProof::Invalid => {
            out.push(1);
        },
        BlockProof::SingleProof(proof) => {
            let mut list: Vec<u64> = Vec::new();
            push_sized(&mut list, proof.elements.clone());
            assert(list@ =~= sized(proof.elements@));
            let mut record: Vec<u64> = Vec::new();
            push_sized(&mut record, list);
            assert(record@ =~= sized(sized(proof.elements@)));
            out.push(2);
            push_sized(&mut out, record);
        },
    }
    assert(out@ =~= proof_code(*p));
    out
}

/// A block as a sequence of field elements.
pub fn encode_block(kernel: &BlockKernel, proof: &BlockProof) -> (out: Vec<u64>)
    ensures
        out@ == block_code(*kernel, *proof),
{
    let mut out: Vec<u64> = Vec::new();
    push_sized(&mut out, encode_proof(proof));
    push_sized(&mut out, encode_block_kernel(kernel));
    assert(out@ =~= block_code(*kernel, *proof));
    out
}

fn encode_coin(c: &Coin, scripts: &TypeScriptHashes) -> (out: Vec<u64>)
    ensures
        out@ == coin_code(*c, *scripts),
{
    let state: Vec<u64> = match c {
        Coin::NativeCurrency(amount) => encode_amount(amount),
        Coin::TimeLock(until) => encode_element(until.millis),
    };
    let script: Digest = match c {
        Coin::NativeCurrency(_) => scripts.native_currency,
        Coin::TimeLock(_) => scripts.time_lock,
    };
    let ghost elements = state@;
    let mut inner: Vec<u64> = Vec::new();
    push_sized(&mut inner, state);
    assert(inner@ =~= sized(elements));
    let mut out: Vec<u64> = Vec::new();
    push_sized(&mut out, inner);
    push_digest(&mut out, &script);
    assert(out@ =~= coin_code(*c, *scripts));
    out
}

pub fn encode_utxo(u: &Utxo, scripts: &TypeScriptHashes) -> (out: Vec<u64>)
    ensures
        out@ == utxo_code(u@, *scripts),
{
    let mut list: Vec<u64> = Vec::new();
    list.push(u.coins.len() as u64);
    let ghost parts = u.coins@.map_values(|c: Coin| sized(coin_code(c, *scripts)));
    let mut i: usize = 0;
    assert(list@ =~= seq![parts.len() as u64] + concat_all(parts.take(0)));
    while i < u.coins.len()
        invariant
            i <= u.coins@.len(),
            parts == u.coins@.map_values(|c: Coin| sized(coin_code(c, *scripts))),
            list@ == seq![parts.len() as u64] + concat_all(parts.take(i as int)),
        decreases u.coins@.len() - i,
    {
        push_sized(&mut list, encode_coin(&u.coins[i], scripts));
        proof {
            let part = sized(coin_code(u.coins@[i as int], *scripts));
            assert(parts.take(i + 1) =~= parts.take(i as int).push(part));
            lemma_concat_push(parts.take(i as int), part);
            assert(list@ =~= seq![parts.len() as u64] + concat_all(parts.take(i + 1)));
        }
        i = i + 1;
    }
    assert(parts.take(i as int) =~= parts);
    let mut out: Vec<u64> = Vec::new();
    push_sized(&mut out, list);
    push_digest(&mut out, &u.lock_script_hash);
    assert(out@ =~= utxo_code(u@, *scripts));
    out
}

} // verus!
