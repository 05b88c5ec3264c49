//! Blocks of the development network, and the search for their nonces.

use vstd::prelude::*;

use crate::block::codec::additions_code;
use crate::block::codec::amount_code;
use crate::block::codec::concat_all;
use crate::block::codec::difficulty_code;
use crate::block::codec::encode_additions;
use crate::block::codec::encode_difficulty;
use crate::block::codec::encode_digests;
use crate::block::codec::encode_removals;
use crate::block::codec::digests_code;
use crate::block::codec::lemma_concat_push;
use crate::block::codec::listed;
use crate::block::codec::push_amount;
use crate::block::codec::push_copy;
use crate::block::codec::push_digest;
use crate::block::codec::push_sized;
use crate::block::codec::removals_code;
use crate::block::codec::sized;
use crate::difficulty::target_number;
use crate::difficulty::Difficulty;
use crate::digest::digest_at_most;
use crate::digest::hash_varlen;
use crate::digest::tip5_hash_varlen;
use crate::digest::Digest;
use crate::field::FIELD_MAX;
use crate::field::P;
use crate::height::BlockHeight;
use crate::mine_loop::block_transaction::DevnetTransaction;
use crate::mine_loop::block_transaction::PubScript;
use crate::timestamp::Timestamp;
use crate::transaction::MutatorSetAccumulator;

verus! {

/// The maximum size of a block, in field elements.
pub const MOCK_MAX_BLOCK_SIZE: u32 = 1_000_000;

/// The difficulty of every block.
pub const MOCK_DIFFICULTY: u32 = 50_000;

/// The header of a block of the development network.
#[derive(Debug)]
pub struct DevnetBlockHeader {
    pub version: u64,
    pub height: BlockHeight,
    pub mutator_set_hash: Digest,
    pub prev_block_digest: Digest,
    pub timestamp: Timestamp,
    pub nonce: Nonce,
    pub max_block_size: u32,
    pub proof_of_work_line: Difficulty,
    pub proof_of_work_family: Difficulty,
    pub target_difficulty: Difficulty,
    pub block_body_merkle_root: Digest,
    pub uncles: Vec<Digest>,
}

/// The body of a block of the development network.
#[derive(Debug)]
pub struct DevnetBlockBody {
    pub transaction: DevnetTransaction,
    pub next_mutator_set_accumulator: MutatorSetAccumulator,
    pub previous_mutator_set_accumulator: MutatorSetAccumulator,
    pub stark_proof: Vec<u64>,
}

/// Three field elements that can be chosen at will. The most significant one comes first.
#[derive(Clone, Copy, Debug, PartialEq, Eq, Structural)]
pub struct Nonce {
    pub n0: u64,
    pub n1: u64,
    pub n2: u64,
}

impl Nonce {
    /// Every element is the canonical representative of its residue class.
    pub open spec fn canonical(self) -> bool {
        self.n0 < P && self.n1 < P && self.n2 < P
    }

    /// The nonce read as a number in base [`P`].
    pub open spec fn number(self) -> int {
        let p = P as int;
        self.n2 + p * (self.n1 + p * self.n0)
    }

    /// The number of nonces.
    pub open spec fn count() -> int {
        let p = P as int;
        p * p * p
    }

    /// The first nonce.
    pub fn zero() -> (n: Nonce)
        ensures
            n.canonical(),
            n.number() == 0,
            n == (Nonce { n0: 0, n1: 0, n2: 0 }),
    {
        Nonce { n0: 0, n1: 0, n2: 0 }
    }

    /// The next nonce. The last one is followed by the first one.
    pub fn next(&self) -> (n: Nonce)
        requires
            self.canonical(),
        ensures
            n.canonical(),
            n.number() == (self.number() + 1) % Nonce::count(),
    {
        proof {
            lemma_nonce_bound(*self);
        }
        if self.n2 < FIELD_MAX {
            let n = Nonce { n0: self.n0, n1: self.n1, n2: self.n2 + 1 };
            proof {
                lemma_nonce_bound(n);
                vstd::arithmetic::div_mod::lemma_small_mod(
                    n.number() as nat,
                    Nonce::count() as nat,
                );
            }
            return n;
        }
        if self.n1 < FIELD_MAX {
            let n = Nonce { n0: self.n0, n1: self.n1 + 1, n2: 0 };
            proof {
                lemma_nonce_bound(n);
                assert(n.number() == self.number() + 1);
                vstd::arithmetic::div_mod::lemma_small_mod(
                    n.number() as nat,
                    Nonce::count() as nat,
                );
            }
            return n;
        }
        if self.n0 < FIELD_MAX {
            let n = Nonce { n0: self.n0 + 1, n1: 0, n2: 0 };
            proof {
                lemma_nonce_bound(n);
                assert(n.number() == self.number() + 1);
                vstd::arithmetic::div_mod::lemma_small_mod(
                    n.number() as nat,
                    Nonce::count() as nat,
                );
            }
            return n;
        }
        assert(self.number() + 1 == Nonce::count());
        assert(Nonce::count() % Nonce::count() == 0);
        Nonce { n0: 0, n1: 0, n2: 0 }
    }
}

/// A nonce, as a number, is below the number of nonces.
proof fn lemma_nonce_bound(n: Nonce)
    requires
        n.canonical(),
    ensures
        0 <= n.number() < Nonce::count(),
{
}

/// Different nonces have different numbers.
pub proof fn lemma_nonces_are_numbered(a: Nonce, b: Nonce)
    requires
        a.canonical(),
        b.canonical(),
        a.number() == b.number(),
    ensures
        a == b,
{
    let p = P as int;
    let ha = a.n1 + p * a.n0;
    let hb = b.n1 + p * b.n0;
    assert(ha == hb) by {
        vstd::arithmetic::div_mod::lemma_fundamental_div_mod_converse(
            a.number(),
            p,
            ha,
            a.n2 as int,
        );
        vstd::arithmetic::div_mod::lemma_fundamental_div_mod_converse(
            b.number(),
            p,
            hb,
            b.n2 as int,
        );
    }
    vstd::arithmetic::div_mod::lemma_fundamental_div_mod_converse(
        ha,
        p,
        a.n0 as int,
        a.n1 as int,
    );
    vstd::arithmetic::div_mod::lemma_fundamental_div_mod_converse(
        hb,
        p,
        b.n0 as int,
        b.n1 as int,
    );
}

/// A search that goes from each nonce to the next one, as often as there are nonces, tries every
/// nonce there is.
pub proof fn lemma_search_tries_every_nonce(tried: Seq<Nonce>, nonce: Nonce)
    requires
        tried.len() == Nonce::count(),
        forall|i: int| 0 <= i < tried.len() ==> (#[trigger] tried[i]).canonical(),
        forall|i: int|
            0 < i < tried.len() ==> (#[trigger] tried[i]).number() == (tried[i - 1].number() + 1)
                % Nonce::count(),
        nonce.canonical(),
    ensures
        tried.contains(nonce),
{
    let count = Nonce::count();
    lemma_nonce_bound(tried[0]);
    lemma_nonce_bound(nonce);
    let ahead = nonce.number() - tried[0].number();
    let k = if ahead >= 0 {
        ahead
    } else {
        ahead + count
    };
    lemma_nonce_after(tried, k);
    assert((tried[0].number() + k) % count == nonce.number()) by {
        if ahead >= 0 {
            vstd::arithmetic::div_mod::lemma_small_mod(nonce.number() as nat, count as nat);
        } else {
            vstd::arithmetic::div_mod::lemma_mod_add_multiples_vanish(nonce.number(), count);
            vstd::arithmetic::div_mod::lemma_small_mod(nonce.number() as nat, count as nat);
        }
    }
    lemma_nonces_are_numbered(tried[k], nonce);
}

/// The nonce that is tried after some number of steps.
proof fn lemma_nonce_after(tried: Seq<Nonce>, k: int)
    requires
        forall|i: int| 0 <= i < tried.len() ==> (#[trigger] tried[i]).canonical(),
        forall|i: int|
            0 < i < tried.len() ==> (#[trigger] tried[i]).number() == (tried[i - 1].number() + 1)
                % Nonce::count(),
        0 <= k < tried.len(),
    ensures
        tried[k].number() == (tried[0].number() + k) % Nonce::count(),
    decreases k,
{
    let count = Nonce::count();
    lemma_nonce_bound(tried[0]);
    if k == 0 {
        vstd::arithmetic::div_mod::lemma_small_mod(tried[0].number() as nat, count as nat);
    } else {
        lemma_nonce_after(tried, k - 1);
        vstd::arithmetic::div_mod::lemma_add_mod_noop_right(1, tried[0].number() + k - 1, count);
        assert(tried[k].number() == (tried[k - 1].number() + 1) % count);
    }
}

/// A public script as a sequence of field elements.
pub open spec fn pubscript_code(s: PubScript) -> Seq<u64> {
    sized(sized(s.input@)) + s.hash.values()
}

/// A transaction as a sequence of field elements.
pub open spec fn devnet_transaction_code(t: DevnetTransaction) -> Seq<u64> {
    seq![t.timestamp.millis] + amount_code(t.fee) + sized(
        listed(
            t.pubscript_hashes_and_inputs@.map_values(|s: PubScript| sized(pubscript_code(s))),
        ),
    ) + sized(additions_code(t.outputs@)) + sized(removals_code(t.inputs@))
}

/// The body of a block as a sequence of field elements.
pub open spec fn devnet_body_code(b: DevnetBlockBody) -> Seq<u64> {
    sized(sized(b.stark_proof@)) + sized(b.previous_mutator_set_accumulator.encoding@) + sized(
        b.next_mutator_set_accumulator.encoding@,
    ) + sized(devnet_transaction_code(b.transaction))
}

/// The header of a block as a sequence of field elements.
pub open spec fn devnet_header_code(h: DevnetBlockHeader) -> Seq<u64> {
    sized(digests_code(h.uncles@)) + h.block_body_merkle_root.values() + difficulty_code(
        h.target_difficulty,
    ) + difficulty_code(h.proof_of_work_family) + difficulty_code(h.proof_of_work_line) + seq![
        h.max_block_size as u64,
    ] + seq![h.nonce.n0, h.nonce.n1, h.nonce.n2] + seq![h.timestamp.millis]
        + h.prev_block_digest.values() + h.mutator_set_hash.values() + seq![h.height.value] + seq![
        h.version,
    ]
}

/// The digest of a header.
pub open spec fn devnet_header_digest(h: DevnetBlockHeader) -> Digest {
    tip5_hash_varlen(devnet_header_code(h))
}

/// The digest of a body.
pub open spec fn devnet_body_digest(b: DevnetBlockBody) -> Digest {
    tip5_hash_varlen(devnet_body_code(b))
}

fn encode_pubscript(s: &PubScript) -> (out: Vec<u64>)
    ensures
        out@ == pubscript_code(*s),
{
    let mut inner: Vec<u64> = Vec::new();
    push_sized(&mut inner, s.input.clone());
    assert(inner@ =~= sized(s.input@));
    let mut out: Vec<u64> = Vec::new();
    push_sized(&mut out, inner);
    push_digest(&mut out, &s.hash);
    assert(out@ =~= pubscript_code(*s));
    out
}

fn encode_devnet_transaction(t: &DevnetTransaction) -> (out: Vec<u64>)
    ensures
        out@ == devnet_transaction_code(*t),
{
    let scripts = &t.pubscript_hashes_and_inputs;
    let mut list: Vec<u64> = Vec::new();
    list.push(scripts.len() as u64);
    let ghost parts = scripts@.map_values(|s: PubScript| sized(pubscript_code(s)));
    let mut i: usize = 0;
    assert(list@ =~= seq![parts.len() as u64] + concat_all(parts.take(0)));
    while i < scripts.len()
        invariant
            i <= scripts@.len(),
            parts == scripts@.map_values(|s: PubScript| sized(pubscript_code(s))),
            list@ == seq![parts.len() as u64] + concat_all(parts.take(i as int)),
        decreases scripts@.len() - i,
    {
        push_sized(&mut list, encode_pubscript(&scripts[i]));
        proof {
            let part = sized(pubscript_code(scripts@[i as int]));
            assert(parts.take(i + 1) =~= parts.take(i as int).push(part));
            lemma_concat_push(parts.take(i as int), part);
            assert(list@ =~= seq![parts.len() as u64] + concat_all(parts.take(i + 1)));
        }
        i = i + 1;
    }
    assert(parts.take(i as int) =~= parts);
    let mut out: Vec<u64> = Vec::new();
    out.push(t.timestamp.millis);
    push_amount(&mut out, &t.fee);
    push_sized(&mut out, list);
    push_sized(&mut out, encode_additions(&t.outputs));
    push_sized(&mut out, encode_removals(&t.inputs));
    assert(out@ =~= devnet_transaction_code(*t));
    out
}

/// The digest of a body.
pub fn hash_devnet_body(b: &DevnetBlockBody) -> (d: Digest)
    ensures
        d == devnet_body_digest(*b),
{
    let mut stark_proof: Vec<u64> = Vec::new();
    push_sized(&mut stark_proof, b.stark_proof.clone());
    assert(stark_proof@ =~= sized(b.stark_proof@));
    let mut out: Vec<u64> = Vec::new();
    push_sized(&mut out, stark_proof);
    push_sized(&mut out, b.previous_mutator_set_accumulator.encoding.clone());
    push_sized(&mut out, b.next_mutator_set_accumulator.encoding.clone());
    push_sized(&mut out, encode_devnet_transaction(&b.transaction));
    assert(out@ =~= devnet_body_code(*b));
    hash_varlen(&out)
}

/// The digest of a header.
pub fn hash_devnet_header(h: &DevnetBlockHeader) -> (d: Digest)
    ensures
        d == devnet_header_digest(*h),
{
    let mut out: Vec<u64> = Vec::new();
    push_sized(&mut out, encode_digests(&h.uncles));
    push_digest(&mut out, &h.block_body_merkle_root);
    push_copy(&mut out, &encode_difficulty(&h.target_difficulty));
    push_copy(&mut out, &encode_difficulty(&h.proof_of_work_family));
    push_copy(&mut out, &encode_difficulty(&h.proof_of_work_line));
    out.push(h.max_block_size as u64);
    out.push(h.nonce.n0);
    out.push(h.nonce.n1);
    out.push(h.nonce.n2);
    out.push(h.timestamp.millis);
    push_digest(&mut out, &h.prev_block_digest);
    push_digest(&mut out, &h.mutator_set_hash);
    out.push(h.height.value);
    out.push(h.version);
    assert(out@ =~= devnet_header_code(*h));
    hash_varlen(&out)
}

/// What the header of the block after one with the given header is, given the digests of that
/// header, of the mutator set and of the body.
pub open spec fn is_header_after(
    header: DevnetBlockHeader,
    previous: DevnetBlockHeader,
    prev_block_digest: Digest,
    mutator_set_hash: Digest,
    block_body_merkle_root: Digest,
    timestamp: Timestamp,
) -> bool {
    &&& header.version == 0
    &&& header.height == previous.height.spec_next()
    &&& header.mutator_set_hash == mutator_set_hash
    &&& header.prev_block_digest == prev_block_digest
    &&& header.timestamp == timestamp
    &&& header.nonce == (Nonce { n0: 0, n1: 0, n2: 0 })
    &&& header.max_block_size == MOCK_MAX_BLOCK_SIZE
    &&& header.proof_of_work_line.number() == previous.proof_of_work_family.number()
        + MOCK_DIFFICULTY
    &&& header.proof_of_work_family == header.proof_of_work_line
    &&& header.target_difficulty.number() == MOCK_DIFFICULTY
    &&& header.block_body_merkle_root == block_body_merkle_root
    &&& header.uncles@.len() == 0
}

/// The header of the block after one with the given header, given the digests of that header, of
/// the mutator set and of the body. The proof-of-work of the previous block's family must leave
/// room for that of the new block.
pub fn devnet_header_after(
    previous: &DevnetBlockHeader,
    prev_block_digest: Digest,
    mutator_set_hash: Digest,
    block_body_merkle_root: Digest,
    timestamp: Timestamp,
) -> (header: DevnetBlockHeader)
    requires
        previous.proof_of_work_family.number() + MOCK_DIFFICULTY <= Difficulty::max_number(),
    ensures
        is_header_after(
            header,
            *previous,
            prev_block_digest,
            mutator_set_hash,
            block_body_merkle_root,
            timestamp,
        ),
{
    let difficulty = Difficulty::from_u32(MOCK_DIFFICULTY);
    let new_pow_line = previous.proof_of_work_family.plus(&difficulty);
    DevnetBlockHeader {
        version: 0,
        height: previous.height.next(),
        mutator_set_hash,
        prev_block_digest,
        timestamp,
        nonce: Nonce::zero(),
        max_block_size: MOCK_MAX_BLOCK_SIZE,
        proof_of_work_line: new_pow_line,
        proof_of_work_family: new_pow_line,
        target_difficulty: difficulty,
        block_body_merkle_root,
        uncles: Vec::new(),
    }
}

/// Prepares a block for mining: its header and its body.
///
/// `next_mutator_set_accumulator` is the previous block's accumulator after the transaction has
/// been applied to it. The proof-of-work of the previous block's family must leave room for that of
/// the new block.
pub fn make_devnet_block_template(
    previous_header: &DevnetBlockHeader,
    previous_body: &DevnetBlockBody,
    transaction: DevnetTransaction,
    next_mutator_set_accumulator: MutatorSetAccumulator,
    timestamp: Timestamp,
) -> (r: (DevnetBlockHeader, DevnetBlockBody))
    requires
        previous_header.proof_of_work_family.number() + MOCK_DIFFICULTY
            <= Difficulty::max_number(),
    ensures
        r.1.transaction == transaction,
        r.1.next_mutator_set_accumulator == next_mutator_set_accumulator,
        r.1.previous_mutator_set_accumulator@ == previous_body.next_mutator_set_accumulator@,
        r.1.stark_proof@.len() == 0,
        is_header_after(
            r.0,
            *previous_header,
            devnet_header_digest(*previous_header),
            next_mutator_set_accumulator@.digest,
            devnet_body_digest(r.1),
            timestamp,
        ),
{
    let mutator_set_hash = next_mutator_set_accumulator.hash();
    let body = DevnetBlockBody {
        transaction,
        next_mutator_set_accumulator,
        previous_mutator_set_accumulator: previous_body.next_mutator_set_accumulator.clone(),
        stark_proof: Vec::new(),
    };
    let header = devnet_header_after(
        previous_header,
        hash_devnet_header(previous_header),
        mutator_set_hash,
        hash_devnet_body(&body),
        timestamp,
    );
    (header, body)
}

/// A header with a digest below the target is a solution.
pub open spec fn is_below_target(digest: Digest, target_difficulty: Difficulty) -> bool {
    digest.number() < target_number(target_difficulty.number())
}

/// What one step of the search for a nonce comes to.
#[derive(Clone, Copy, Debug, PartialEq, Eq, Structural)]
pub enum MineStep {
    /// The header is a solution.
    Found,
    /// The search is given up.
    Abandoned,
    /// The next nonce is to be tried.
    Continue,
}

/// What one step of the search for a nonce comes to, given the digest of the header.
pub open spec fn step_of(
    digest: Digest,
    target_difficulty: Difficulty,
    nonce: Nonce,
    cancelled: bool,
    syncing: bool,
) -> MineStep {
    if is_below_target(digest, target_difficulty) {
        MineStep::Found
    } else if cancelled || (nonce.n2 % 100 == 0 && syncing) {
        MineStep::Abandoned
    } else {
        MineStep::Continue
    }
}

/// What one step of the search for a nonce comes to, given the digest of the header. The search is
/// given up when whoever waits for a solution does not do so any more, and, on every hundredth
/// nonce, when the node is syncing.
pub fn decide_step(
    digest: &Digest,
    target_difficulty: &Difficulty,
    nonce: &Nonce,
    cancelled: bool,
    syncing: bool,
) -> (step: MineStep)
    ensures
        step == step_of(*digest, *target_difficulty, *nonce, cancelled, syncing),
{
    let threshold = target_difficulty.target();
    if !digest_at_most(&threshold, digest) {
        return MineStep::Found;
    }
    if cancelled {
        return MineStep::Abandoned;
    }
    if nonce.n2 % 100 == 0 && syncing {
        return MineStep::Abandoned;
    }
    MineStep::Continue
}

/// One step of the search for a nonce. If the search goes on, the header gets the next nonce.
pub fn mine_step(header: &mut DevnetBlockHeader, cancelled: bool, syncing: bool) -> (step: MineStep)
    requires
        old(header).nonce.canonical(),
    ensures
        step == step_of(
            devnet_header_digest(*old(header)),
            old(header).target_difficulty,
            old(header).nonce,
            cancelled,
            syncing,
        ),
        step is Continue ==> final(header).nonce.canonical() && final(header).nonce.number() == (
        old(header).nonce.number() + 1) % Nonce::count(),
        *final(header) == (DevnetBlockHeader { nonce: final(header).nonce, ..*old(header) }),
        !(step is Continue) ==> *final(header) == *old(header),
{
    let digest = hash_devnet_header(header);
    let step = decide_step(
        &digest,
        &header.target_difficulty,
        &header.nonce,
        cancelled,
        syncing,
    );
    if step == MineStep::Continue {
        header.nonce = header.nonce.next();
    }
    step
}

} // verus!
