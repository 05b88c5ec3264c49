//! What the miner works on, and how it works.

use vstd::arithmetic::div_mod::lemma_div_is_ordered_by_denominator;
use vstd::arithmetic::power2::pow2;
use vstd::prelude::*;

use crate::amount::NativeCurrencyAmount;
use crate::block::codec::additions_code;
use crate::block::codec::amount_code;
use crate::block::codec::difficulty_code;
use crate::block::codec::digests_code;
use crate::block::codec::listed;
use crate::block::codec::removals_code;
use crate::block::codec::sized;
use crate::block::codec::utxo_code;
use crate::block::decode::elements::at;
use crate::block::decode::elements::lemma_at_concat;
use crate::difficulty::max_digest_number;
use crate::difficulty::target_number;
use crate::difficulty::Difficulty;
use crate::digest::tip5_hash_pair;
use crate::digest::tip5_hash_varlen;
use crate::digest::Digest;
use crate::field::P;
use crate::height::BlockHeight;
use crate::laws::digests::no_collision;
use crate::laws::encoding::lemma_additions_code_injective;
use crate::laws::encoding::lemma_amount_code_injective;
use crate::laws::encoding::lemma_at_start;
use crate::laws::encoding::lemma_difficulty_code_injective;
use crate::laws::encoding::lemma_digest_values_injective;
use crate::laws::encoding::lemma_digests_code_injective;
use crate::laws::encoding::lemma_list_unique;
use crate::laws::encoding::lemma_removals_code_injective;
use crate::laws::encoding::lemma_sized_unique;
use crate::laws::encoding::lemma_without_size;
use crate::laws::quantities::lemma_digest_number_bound;
use crate::laws::quantities::lemma_target_meaning;
use crate::mine_loop::block_transaction::all_inputs;
use crate::mine_loop::block_transaction::all_outputs;
use crate::mine_loop::block_transaction::all_pubscripts;
use crate::mine_loop::block_transaction::coinbase_record;
use crate::mine_loop::block_transaction::latest;
use crate::mine_loop::block_transaction::merged;
use crate::mine_loop::block_transaction::total_fees;
use crate::mine_loop::block_transaction::transaction_views;
use crate::mine_loop::block_transaction::DevnetTransaction;
use crate::mine_loop::block_transaction::DevnetTransactionView;
use crate::mine_loop::block_transaction::PubScript;
use crate::mine_loop::devnet_block::devnet_body_code;
use crate::mine_loop::devnet_block::devnet_body_digest;
use crate::mine_loop::devnet_block::devnet_header_code;
use crate::mine_loop::devnet_block::devnet_header_digest;
use crate::mine_loop::devnet_block::devnet_transaction_code;
use crate::mine_loop::devnet_block::is_header_after;
use crate::mine_loop::devnet_block::pubscript_code;
use crate::mine_loop::devnet_block::step_of;
use crate::mine_loop::devnet_block::DevnetBlockBody;
use crate::mine_loop::devnet_block::DevnetBlockHeader;
use crate::mine_loop::devnet_block::Nonce;
use crate::mine_loop::regtest::action_after;
use crate::mine_loop::regtest::latest_after;
use crate::mine_loop::regtest::MainToMiner;
use crate::mine_loop::regtest::MinerAction;
use crate::mine_loop::regtest::MinerEvent;
use crate::timestamp::Timestamp;
use crate::transaction::removal_views;
use crate::transaction::AdditionRecord;
use crate::transaction::Coin;
use crate::transaction::RemovalRecordView;
use crate::transaction::TypeScriptHashes;
use crate::transaction::UtxoView;

verus! {

/// What transactions do together, they do if they are taken in two parts, one after the other:
/// nothing of either part is lost, and the order is kept.
pub proof fn lemma_parts_of_transactions(
    a: Seq<DevnetTransactionView>,
    b: Seq<DevnetTransactionView>,
)
    ensures
        all_inputs(a + b) == all_inputs(a) + all_inputs(b),
        all_outputs(a + b) == all_outputs(a) + all_outputs(b),
        all_pubscripts(a + b) == all_pubscripts(a) + all_pubscripts(b),
        total_fees(a + b) == total_fees(a) + total_fees(b),
    decreases b.len(),
{
    if b.len() == 0 {
        assert(a + b =~= a);
    } else {
        assert((a + b).drop_last() =~= a + b.drop_last());
        assert((a + b).last() == b.last());
        lemma_parts_of_transactions(a, b.drop_last());
        assert(all_inputs(a + b) =~= all_inputs(a) + all_inputs(b));
        assert(all_outputs(a + b) =~= all_outputs(a) + all_outputs(b));
        assert(all_pubscripts(a + b) =~= all_pubscripts(a) + all_pubscripts(b));
    }
}

/// What a single transaction does is what it does, and no transactions do nothing.
pub proof fn lemma_single_transaction(t: DevnetTransactionView)
    ensures
        all_inputs(seq![t]) == t.inputs,
        all_outputs(seq![t]) == t.outputs,
        all_pubscripts(seq![t]) == t.pubscript_hashes_and_inputs,
        total_fees(seq![t]) == t.fee.nau,
        all_inputs(Seq::empty()) == Seq::<RemovalRecordView>::empty(),
        all_outputs(Seq::empty()) == Seq::<AdditionRecord>::empty(),
        total_fees(Seq::empty()) == 0,
{
    reveal_with_fuel(all_inputs, 2);
    reveal_with_fuel(all_outputs, 2);
    reveal_with_fuel(all_pubscripts, 2);
    reveal_with_fuel(total_fees, 2);
    let none = Seq::<DevnetTransactionView>::empty();
    assert(seq![t].drop_last() =~= none);
    assert(seq![t].last() == t);
    assert(all_inputs(seq![t]) =~= t.inputs);
    assert(all_outputs(seq![t]) =~= t.outputs);
    assert(all_pubscripts(seq![t]) =~= t.pubscript_hashes_and_inputs);
    assert(total_fees(seq![t]) == total_fees(none) + t.fee.nau);
}

/// How many outputs the transactions have, added up from the first one on.
pub open spec fn number_of_outputs(transactions: Seq<DevnetTransactionView>) -> nat
    decreases transactions.len(),
{
    if transactions.len() == 0 {
        0
    } else {
        transactions[0].outputs.len() + number_of_outputs(transactions.skip(1))
    }
}

/// How many inputs the transactions have, added up from the first one on.
pub open spec fn number_of_inputs(transactions: Seq<DevnetTransactionView>) -> nat
    decreases transactions.len(),
{
    if transactions.len() == 0 {
        0
    } else {
        transactions[0].inputs.len() + number_of_inputs(transactions.skip(1))
    }
}

/// What the fees of the transactions are, added up from the first one on.
pub open spec fn sum_of_fees(transactions: Seq<DevnetTransactionView>) -> int
    decreases transactions.len(),
{
    if transactions.len() == 0 {
        0
    } else {
        transactions[0].fee.nau + sum_of_fees(transactions.skip(1))
    }
}

/// The block transaction has as many outputs and inputs as the included transactions have together,
/// and the coinbase output; and the coinbase collects all of their fees.
pub proof fn lemma_nothing_is_lost_or_made_up(transactions: Seq<DevnetTransactionView>)
    ensures
        all_outputs(transactions).len() == number_of_outputs(transactions),
        all_inputs(transactions).len() == number_of_inputs(transactions),
        total_fees(transactions) == sum_of_fees(transactions),
    decreases transactions.len(),
{
    if transactions.len() > 0 {
        let first = seq![transactions[0]];
        let rest = transactions.skip(1);
        assert(transactions =~= first + rest);
        lemma_parts_of_transactions(first, rest);
        lemma_single_transaction(transactions[0]);
        lemma_nothing_is_lost_or_made_up(rest);
    }
}

/// Every output and every input of every included transaction is in the block transaction.
pub proof fn lemma_every_output_is_included(
    transactions: Seq<DevnetTransactionView>,
    i: int,
    j: int,
)
    requires
        0 <= i < transactions.len(),
    ensures
        0 <= j < transactions[i].outputs.len() ==> all_outputs(transactions).contains(
            transactions[i].outputs[j],
        ),
        0 <= j < transactions[i].inputs.len() ==> all_inputs(transactions).contains(
            transactions[i].inputs[j],
        ),
{
    let before = transactions.take(i);
    let this = seq![transactions[i]];
    let after = transactions.skip(i + 1);
    assert(transactions =~= before + this + after);
    lemma_parts_of_transactions(before + this, after);
    lemma_parts_of_transactions(before, this);
    lemma_single_transaction(transactions[i]);
    if 0 <= j < transactions[i].outputs.len() {
        assert(all_outputs(transactions)[all_outputs(before).len() + j]
            == transactions[i].outputs[j]);
    }
    if 0 <= j < transactions[i].inputs.len() {
        assert(all_inputs(transactions)[all_inputs(before).len() + j] == transactions[i].inputs[j]);
    }
}

/// The block transaction is dated like the latest one of the coinbase transaction and all included
/// ones: none of them is later, and one of them is that late.
pub proof fn lemma_block_transaction_is_dated_like_latest(
    start: Timestamp,
    transactions: Seq<DevnetTransactionView>,
)
    ensures
        latest(start, transactions).millis >= start.millis,
        forall|i: int|
            0 <= i < transactions.len() ==> latest(start, transactions).millis >= (
            #[trigger] transactions[i]).timestamp.millis,
        latest(start, transactions) == start || exists|i: int|
            0 <= i < transactions.len() && latest(start, transactions) == (
            #[trigger] transactions[i]).timestamp,
    decreases transactions.len(),
{
    if transactions.len() > 0 {
        let rest = transactions.drop_last();
        lemma_block_transaction_is_dated_like_latest(start, rest);
        assert forall|i: int| 0 <= i < transactions.len() implies latest(start, transactions).millis
            >= (#[trigger] transactions[i]).timestamp.millis by {
            if i < rest.len() {
                assert(rest[i] == transactions[i]);
            }
        }
        let late = latest(start, transactions);
        if late == transactions.last().timestamp {
            assert(transactions[transactions.len() - 1].timestamp == late);
        } else if late != start {
            let i = choose|i: int| 0 <= i < rest.len() && late == (#[trigger] rest[i]).timestamp;
            assert(transactions[i].timestamp == late);
        }
    }
}

/// Merging keeps all inputs, outputs and public scripts of both transactions, in order, adds the
/// fees, and takes the later date.
pub proof fn lemma_merging_keeps_everything(a: DevnetTransactionView, b: DevnetTransactionView)
    requires
        i128::MIN <= a.fee.nau + b.fee.nau <= i128::MAX,
    ensures
        merged(a, b).inputs == a.inputs + b.inputs,
        merged(a, b).outputs == a.outputs + b.outputs,
        merged(a, b).pubscript_hashes_and_inputs == a.pubscript_hashes_and_inputs
            + b.pubscript_hashes_and_inputs,
        merged(a, b).fee.nau == a.fee.nau + b.fee.nau,
        merged(a, b).timestamp.millis >= a.timestamp.millis,
        merged(a, b).timestamp.millis >= b.timestamp.millis,
        merged(a, b).timestamp == a.timestamp || merged(a, b).timestamp == b.timestamp,
{
}

/// The coinbase output is worth the subsidy of the next block and all fees, is locked by the given
/// script and liquid, and is committed to without sender randomness.
pub proof fn lemma_coinbase_is_worth_subsidy_and_fees(
    lock_script_hash: Digest,
    receiver_digest: Digest,
    previous_height: BlockHeight,
    fees: int,
    amount: NativeCurrencyAmount,
    scripts: TypeScriptHashes,
)
    requires
        amount.nau == 512_000_000_000_000_000_000_000_000_000_000int / pow2(
            ((previous_height.value + 1) % P as int / 160_815) as nat,
        ) as int + fees,
    ensures
        coinbase_record(lock_script_hash, receiver_digest, previous_height, fees, scripts) == (
        AdditionRecord {
            canonical_commitment: tip5_hash_pair(
                tip5_hash_pair(
                    tip5_hash_varlen(
                        utxo_code(
                            (UtxoView {
                                lock_script_hash,
                                coins: seq![Coin::NativeCurrency(amount)],
                            }),
                            scripts,
                        ),
                    ),
                    (Digest { e0: 0, e1: 0, e2: 0, e3: 0, e4: 0 }),
                ),
                receiver_digest,
            ),
        }),
{
}

/// The header of a block template names the one before it and counts its work, whatever the digests
/// are.
pub proof fn lemma_template_extends_previous_block(
    header: DevnetBlockHeader,
    previous: DevnetBlockHeader,
    prev_block_digest: Digest,
    mutator_set_hash: Digest,
    block_body_merkle_root: Digest,
    timestamp: Timestamp,
)
    requires
        is_header_after(
            header,
            previous,
            prev_block_digest,
            mutator_set_hash,
            block_body_merkle_root,
            timestamp,
        ),
    ensures
        header.version == 0,
        header.height.value == (previous.height.value + 1) % P as int,
        header.prev_block_digest == prev_block_digest,
        header.mutator_set_hash == mutator_set_hash,
        header.block_body_merkle_root == block_body_merkle_root,
        header.timestamp == timestamp,
        header.nonce.number() == 0,
        header.max_block_size == 1_000_000,
        header.target_difficulty.number() == 50_000,
        header.proof_of_work_family.number() == previous.proof_of_work_family.number() + 50_000,
        header.proof_of_work_line.number() == header.proof_of_work_family.number(),
        header.uncles@.len() == 0,
{
}

/// A nonce is found exactly when the digest is below the target of the difficulty, which is the
/// largest digest if there is no difficulty at all, no matter whether somebody still waits for it.
/// Otherwise the search ends exactly when nobody waits any more, or when the node is syncing and
/// the last element of the nonce is a multiple of a hundred.
pub proof fn lemma_mining_step(
    digest: Digest,
    difficulty: Difficulty,
    nonce: Nonce,
    cancelled: bool,
    syncing: bool,
)
    ensures
        ({
            let step = step_of(digest, difficulty, nonce, cancelled, syncing);
            let largest = P as int * P as int * P as int * P as int * P as int - 1;
            let found = if difficulty.number() == 0 {
                digest.number() < largest
            } else {
                (digest.number() + 1) * difficulty.number() <= largest
            };
            &&& step is Found <==> found
            &&& step is Abandoned <==> !found && (cancelled || syncing && nonce.n2 as int % 100
                == 0)
            &&& step is Continue <==> !found && !cancelled && !(syncing && nonce.n2 as int % 100
                == 0)
        }),
{
    lemma_digest_number_bound(digest);
    let n = digest.number();
    let d = difficulty.number();
    let m = max_digest_number();
    assert(d >= 0);
    if d == 0 {
        lemma_target_meaning(0, 0);
    } else if n + 1 <= m {
        lemma_target_meaning(n + 1, d);
    } else {
        let t = target_number(d);
        lemma_div_is_ordered_by_denominator(m, 1, d);
        assert(m / 1 == m);
        assert(t <= m);
        assert((n + 1) * d > m) by (nonlinear_arith)
            requires
                n + 1 > m,
                d >= 1,
                m >= 0,
        ;
    }
}

/// Nonces are counted by their last element first. There are as many as triples of field elements.
pub proof fn lemma_numbers_of_nonces(n0: u64, n1: u64, n2: u64, next: u64)
    requires
        next == n2 + 1,
    ensures
        (Nonce { n0, n1, n2: next }).number() == (Nonce { n0, n1, n2 }).number() + 1,
        (Nonce { n0: 0, n1: 0, n2 }).number() == n2,
        (Nonce { n0: 0, n1, n2: 0 }).number() == n1 * P,
        (Nonce { n0, n1: 0, n2: 0 }).number() == n0 * P * P,
        Nonce::count() == P * P * P,
{
    assert(P as int * n1 as int == n1 * P) by (nonlinear_arith);
    assert(P as int * (0 + P as int * n0 as int) == n0 * P * P) by (nonlinear_arith);
}

/// The miner's reaction to everything that can happen.
pub proof fn lemma_miner_reacts<B>(current: B, block: B)
    ensures
        action_after(MinerEvent::<B>::MainGone) == MinerAction::Fail,
        action_after(MinerEvent::<B>::Main(MainToMiner::Shutdown)) == MinerAction::ShutDown,
        action_after(MinerEvent::Main(MainToMiner::NewBlock(block))) == MinerAction::Restart,
        action_after(MinerEvent::<B>::Main(MainToMiner::Empty)) == MinerAction::Continue,
        action_after(MinerEvent::<B>::Main(MainToMiner::ReadyToMineNextBlock))
            == MinerAction::Continue,
        action_after(MinerEvent::<B>::WorkerGone) == MinerAction::Continue,
        action_after(MinerEvent::Found(block)) == MinerAction::Announce,
        latest_after(current, MinerEvent::Main(MainToMiner::NewBlock(block))) == block,
        latest_after(current, MinerEvent::Found(block)) == block,
        latest_after(current, MinerEvent::MainGone) == current,
        latest_after(current, MinerEvent::WorkerGone) == current,
        latest_after(current, MinerEvent::Main(MainToMiner::Shutdown)) == current,
        latest_after(current, MinerEvent::Main(MainToMiner::Empty)) == current,
        latest_after(current, MinerEvent::Main(MainToMiner::ReadyToMineNextBlock)) == current,
{
}

/// What follows the uncles in an encoded header.
spec fn header_tail(h: DevnetBlockHeader) -> Seq<u64> {
    h.block_body_merkle_root.values() + difficulty_code(h.target_difficulty) + difficulty_code(
        h.proof_of_work_family,
    ) + difficulty_code(h.proof_of_work_line) + seq![h.max_block_size as u64] + seq![
        h.nonce.n0,
        h.nonce.n1,
        h.nonce.n2,
    ] + seq![h.timestamp.millis] + h.prev_block_digest.values() + h.mutator_set_hash.values()
        + seq![h.height.value] + seq![h.version]
}

#[verifier::spinoff_prover]
#[verifier::rlimit(30)]
proof fn lemma_header_tail_injective(a: DevnetBlockHeader, b: DevnetBlockHeader)
    requires
        header_tail(a) == header_tail(b),
    ensures
        a == (DevnetBlockHeader { uncles: a.uncles, ..b }),
{
    let s = header_tail(a);
    let t = header_tail(b);
    assert(s.len() == 37);
    assert(forall|i: int| 0 <= i < 37 ==> s[i] == t[i]);
    assert(a.block_body_merkle_root.values() =~= s.subrange(0, 5));
    assert(b.block_body_merkle_root.values() =~= t.subrange(0, 5));
    lemma_digest_values_injective(a.block_body_merkle_root, b.block_body_merkle_root);
    assert(difficulty_code(a.target_difficulty) =~= s.subrange(5, 10));
    assert(difficulty_code(b.target_difficulty) =~= t.subrange(5, 10));
    lemma_difficulty_code_injective(a.target_difficulty, b.target_difficulty);
    assert(difficulty_code(a.proof_of_work_family) =~= s.subrange(10, 15));
    assert(difficulty_code(b.proof_of_work_family) =~= t.subrange(10, 15));
    lemma_difficulty_code_injective(a.proof_of_work_family, b.proof_of_work_family);
    assert(difficulty_code(a.proof_of_work_line) =~= s.subrange(15, 20));
    assert(difficulty_code(b.proof_of_work_line) =~= t.subrange(15, 20));
    lemma_difficulty_code_injective(a.proof_of_work_line, b.proof_of_work_line);
    assert(s[20] == a.max_block_size as u64 && t[20] == b.max_block_size as u64);
    assert(s[21] == a.nonce.n0 && t[21] == b.nonce.n0);
    assert(s[22] == a.nonce.n1 && t[22] == b.nonce.n1);
    assert(s[23] == a.nonce.n2 && t[23] == b.nonce.n2);
    assert(s[24] == a.timestamp.millis && t[24] == b.timestamp.millis);
    assert(a.prev_block_digest.values() =~= s.subrange(25, 30));
    assert(b.prev_block_digest.values() =~= t.subrange(25, 30));
    lemma_digest_values_injective(a.prev_block_digest, b.prev_block_digest);
    assert(a.mutator_set_hash.values() =~= s.subrange(30, 35));
    assert(b.mutator_set_hash.values() =~= t.subrange(30, 35));
    lemma_digest_values_injective(a.mutator_set_hash, b.mutator_set_hash);
    assert(s[35] == a.height.value && t[35] == b.height.value);
    assert(s[36] == a.version && t[36] == b.version);
}

/// The digest of a header of the development network commits to all of it, unless hashes collide.
/// So another nonce is another digest.
#[verifier::spinoff_prover]
#[verifier::rlimit(30)]
pub proof fn lemma_devnet_header_digest_commits(a: DevnetBlockHeader, b: DevnetBlockHeader)
    requires
        devnet_header_digest(a) == devnet_header_digest(b),
        no_collision(devnet_header_code(a), devnet_header_code(b)),
        devnet_header_code(a).len() <= u64::MAX,
    ensures
        a == (DevnetBlockHeader { uncles: a.uncles, ..b }),
        a.uncles@ == b.uncles@,
{
    let s = devnet_header_code(a);
    let ua = digests_code(a.uncles@);
    let ub = digests_code(b.uncles@);
    let ta = header_tail(a);
    let tb = header_tail(b);
    lemma_at_start(s);
    assert(s =~= sized(ua) + ta);
    assert(devnet_header_code(b) =~= sized(ub) + tb);
    lemma_at_concat(s, 0, sized(ua), ta);
    lemma_at_concat(s, 0, sized(ub), tb);
    lemma_sized_unique(s, 0, ua, ub);
    assert(a.uncles.len() == a.uncles@.len() && b.uncles.len() == b.uncles@.len());
    lemma_digests_code_injective(a.uncles@, b.uncles@);
    assert(ta == tb);
    lemma_header_tail_injective(a, b);
}

/// What transactions consist of is all of it, in order.
pub proof fn lemma_views_of_transactions(transactions: Seq<DevnetTransaction>, i: int, j: int)
    requires
        0 <= i < transactions.len(),
    ensures
        transaction_views(transactions).len() == transactions.len(),
        transaction_views(transactions)[i].outputs == transactions[i].outputs@,
        transaction_views(transactions)[i].pubscript_hashes_and_inputs
            == transactions[i].pubscript_hashes_and_inputs@,
        transaction_views(transactions)[i].fee == transactions[i].fee,
        transaction_views(transactions)[i].timestamp == transactions[i].timestamp,
        transaction_views(transactions)[i].inputs.len() == transactions[i].inputs@.len(),
        0 <= j < transactions[i].inputs@.len() ==> {
            let input = transaction_views(transactions)[i].inputs[j];
            &&& input.absolute_indices == transactions[i].inputs@[j].absolute_indices@
            &&& input.target_chunks == transactions[i].inputs@[j].target_chunks@
        },
{
}

/// What is written into a block for each of the public scripts.
spec fn pubscript_parts(scripts: Seq<PubScript>) -> Seq<Seq<u64>> {
    scripts.map_values(|s: PubScript| sized(pubscript_code(s)))
}

#[verifier::spinoff_prover]
#[verifier::rlimit(30)]
proof fn lemma_pubscript_code_injective(a: PubScript, b: PubScript)
    requires
        pubscript_code(a) == pubscript_code(b),
    ensures
        a.hash == b.hash,
        a.input@ == b.input@,
{
    let s = pubscript_code(a);
    let x = sized(sized(a.input@));
    let y = sized(sized(b.input@));
    assert(x.len() == s.len() - 5 && y.len() == s.len() - 5);
    assert(s.take(s.len() - 5) =~= x);
    assert(s.take(s.len() - 5) =~= y);
    assert(s.skip(s.len() - 5) =~= a.hash.values());
    assert(s.skip(s.len() - 5) =~= b.hash.values());
    lemma_digest_values_injective(a.hash, b.hash);
    lemma_without_size(sized(a.input@));
    lemma_without_size(sized(b.input@));
    lemma_without_size(a.input@);
    lemma_without_size(b.input@);
}

#[verifier::spinoff_prover]
#[verifier::rlimit(30)]
proof fn lemma_pubscripts_agree(a: Seq<PubScript>, b: Seq<PubScript>)
    requires
        listed(pubscript_parts(a)) == listed(pubscript_parts(b)),
        listed(pubscript_parts(a)).len() <= u64::MAX,
        a.len() <= u64::MAX,
        b.len() <= u64::MAX,
    ensures
        a.len() == b.len(),
        forall|i: int|
            0 <= i < a.len() ==> (#[trigger] a[i]).hash == b[i].hash && a[i].input@ == b[i].input@,
{
    let xs = pubscript_parts(a);
    let ys = pubscript_parts(b);
    let l = listed(xs);
    lemma_at_start(l);
    assert forall|i: int, p: int|
        0 <= i < xs.len() && 0 <= i < ys.len() && #[trigger] at(l, p, xs[i]) && at(
            l,
            p,
            ys[i],
        ) implies xs[i] == ys[i] by {
        lemma_sized_unique(l, p, pubscript_code(a[i]), pubscript_code(b[i]));
    }
    lemma_list_unique(l, 0, xs, ys);
    assert(a.len() == xs.len() && b.len() == ys.len());
    assert forall|i: int| 0 <= i < a.len() implies (#[trigger] a[i]).hash == b[i].hash
        && a[i].input@ == b[i].input@ by {
        let x = pubscript_code(a[i]);
        let y = pubscript_code(b[i]);
        assert(xs[i] == sized(x) && ys[i] == sized(y));
        lemma_without_size(x);
        lemma_without_size(y);
        lemma_pubscript_code_injective(a[i], b[i]);
    }
}

/// Two transactions of the development network do the same.
pub open spec fn do_the_same(a: DevnetTransaction, b: DevnetTransaction) -> bool {
    &&& removal_views(a.inputs@) == removal_views(b.inputs@)
    &&& a.outputs@ == b.outputs@
    &&& a.fee == b.fee
    &&& a.timestamp == b.timestamp
    &&& a.pubscript_hashes_and_inputs@.len() == b.pubscript_hashes_and_inputs@.len()
    &&& forall|i: int|
        0 <= i < a.pubscript_hashes_and_inputs@.len() ==> (
        #[trigger] a.pubscript_hashes_and_inputs@[i]).hash == b.pubscript_hashes_and_inputs@[i].hash
            && a.pubscript_hashes_and_inputs@[i].input@
            == b.pubscript_hashes_and_inputs@[i].input@
}

#[verifier::spinoff_prover]
#[verifier::rlimit(30)]
proof fn lemma_devnet_transaction_code_injective(a: DevnetTransaction, b: DevnetTransaction)
    requires
        devnet_transaction_code(a) == devnet_transaction_code(b),
        devnet_transaction_code(a).len() <= u64::MAX,
    ensures
        do_the_same(a, b),
{
    let s = devnet_transaction_code(a);
    let t = devnet_transaction_code(b);
    let la = listed(pubscript_parts(a.pubscript_hashes_and_inputs@));
    let lb = listed(pubscript_parts(b.pubscript_hashes_and_inputs@));
    let oa = additions_code(a.outputs@);
    let ob = additions_code(b.outputs@);
    let ia = removals_code(a.inputs@);
    let ib = removals_code(b.inputs@);
    assert(s[0] == a.timestamp.millis && t[0] == b.timestamp.millis);
    assert(amount_code(a.fee) =~= s.subrange(1, 5));
    assert(amount_code(b.fee) =~= t.subrange(1, 5));
    lemma_amount_code_injective(a.fee, b.fee);
    let u = s.skip(5);
    assert(u =~= sized(la) + sized(oa) + sized(ia));
    assert(u =~= t.skip(5));
    assert(t.skip(5) =~= sized(lb) + sized(ob) + sized(ib));
    lemma_three_parts(u, la, oa, ia, lb, ob, ib);
    assert(a.pubscript_hashes_and_inputs.len() == a.pubscript_hashes_and_inputs@.len());
    assert(b.pubscript_hashes_and_inputs.len() == b.pubscript_hashes_and_inputs@.len());
    assert(a.outputs.len() == a.outputs@.len() && b.outputs.len() == b.outputs@.len());
    assert(a.inputs.len() == a.inputs@.len() && b.inputs.len() == b.inputs@.len());
    lemma_pubscripts_agree(a.pubscript_hashes_and_inputs@, b.pubscript_hashes_and_inputs@);
    lemma_additions_code_injective(a.outputs@, b.outputs@);
    lemma_removals_code_injective(a.inputs@, b.inputs@);
}

/// Three parts that are preceded by their lengths can be told apart.
proof fn lemma_three_parts(
    s: Seq<u64>,
    a: Seq<u64>,
    b: Seq<u64>,
    c: Seq<u64>,
    x: Seq<u64>,
    y: Seq<u64>,
    z: Seq<u64>,
)
    requires
        s == sized(a) + sized(b) + sized(c),
        s == sized(x) + sized(y) + sized(z),
        s.len() <= u64::MAX,
    ensures
        a == x,
        b == y,
        c == z,
        a.len() <= s.len(),
        b.len() <= s.len(),
        c.len() <= s.len(),
{
    lemma_at_start(s);
    lemma_at_concat(s, 0, sized(a) + sized(b), sized(c));
    lemma_at_concat(s, 0, sized(a), sized(b));
    lemma_at_concat(s, 0, sized(x) + sized(y), sized(z));
    lemma_at_concat(s, 0, sized(x), sized(y));
    lemma_sized_unique(s, 0, a, x);
    lemma_sized_unique(s, sized(a).len() as int, b, y);
    lemma_sized_unique(s, (sized(a) + sized(b)).len() as int, c, z);
}

/// The digest of a body of the development network commits to all of it, but for the digests of the
/// mutator sets, which follow from what is committed to, unless hashes collide.
#[verifier::spinoff_prover]
#[verifier::rlimit(30)]
pub proof fn lemma_devnet_body_digest_commits(a: DevnetBlockBody, b: DevnetBlockBody)
    requires
        devnet_body_digest(a) == devnet_body_digest(b),
        no_collision(devnet_body_code(a), devnet_body_code(b)),
        devnet_body_code(a).len() <= u64::MAX,
    ensures
        a.stark_proof@ == b.stark_proof@,
        a.previous_mutator_set_accumulator.encoding@
            == b.previous_mutator_set_accumulator.encoding@,
        a.next_mutator_set_accumulator.encoding@ == b.next_mutator_set_accumulator.encoding@,
        do_the_same(a.transaction, b.transaction),
{
    let s = devnet_body_code(a);
    let pa = sized(a.stark_proof@);
    let pb = sized(b.stark_proof@);
    let xa = a.previous_mutator_set_accumulator.encoding@;
    let xb = b.previous_mutator_set_accumulator.encoding@;
    let ya = a.next_mutator_set_accumulator.encoding@;
    let yb = b.next_mutator_set_accumulator.encoding@;
    let ta = devnet_transaction_code(a.transaction);
    let tb = devnet_transaction_code(b.transaction);
    lemma_at_start(s);
    lemma_at_concat(s, 0, sized(pa) + sized(xa) + sized(ya), sized(ta));
    lemma_at_concat(s, 0, sized(pb) + sized(xb) + sized(yb), sized(tb));
    lemma_at_concat(s, 0, sized(pa) + sized(xa), sized(ya));
    lemma_at_concat(s, 0, sized(pb) + sized(xb), sized(yb));
    lemma_at_concat(s, 0, sized(pa), sized(xa));
    lemma_at_concat(s, 0, sized(pb), sized(xb));
    lemma_sized_unique(s, 0, pa, pb);
    lemma_sized_unique(s, sized(pa).len() as int, xa, xb);
    lemma_sized_unique(s, (sized(pa) + sized(xa)).len() as int, ya, yb);
    lemma_sized_unique(s, (sized(pa) + sized(xa) + sized(ya)).len() as int, ta, tb);
    lemma_without_size(a.stark_proof@);
    lemma_without_size(b.stark_proof@);
    assert(ta.len() <= s.len());
    lemma_devnet_transaction_code_injective(a.transaction, b.transaction);
}

} // verus!
