//! The transaction that goes into a block of the development network.

use vstd::prelude::*;

use crate::amount::NativeCurrencyAmount;
use crate::block::rewards::hash_utxo;
use crate::block::rewards::subsidy;
use crate::block::rewards::utxo_digest;
use crate::block::rewards::INITIAL_BLOCK_SUBSIDY;
use crate::block::Block;
use crate::digest::Digest;
use crate::height::BlockHeight;
use crate::laws::mining::lemma_every_output_is_included;
use crate::laws::mining::lemma_nothing_is_lost_or_made_up;
use crate::laws::mining::number_of_inputs;
use crate::laws::mining::number_of_outputs;
use crate::timestamp::Timestamp;
use crate::transaction::commit;
use crate::transaction::commitment;
use crate::transaction::liquid_utxo;
use crate::transaction::removal_views;
use crate::transaction::AdditionRecord;
use crate::transaction::RemovalRecord;
use crate::transaction::RemovalRecordView;
use crate::transaction::TypeScriptHashes;
use crate::transaction::Utxo;

verus! {

/// A script that is run in public, by its hash, and the input that it is given.
#[derive(Debug)]
pub struct PubScript {
    pub hash: Digest,
    pub input: Vec<u64>,
}

/// A transaction of the development network, which is taken on faith.
#[derive(Debug)]
pub struct DevnetTransaction {
    pub inputs: Vec<RemovalRecord>,
    pub outputs: Vec<AdditionRecord>,
    pub pubscript_hashes_and_inputs: Vec<PubScript>,
    pub fee: NativeCurrencyAmount,
    pub timestamp: Timestamp,
}

/// What a transaction of the development network consists of.
pub struct DevnetTransactionView {
    pub inputs: Seq<RemovalRecordView>,
    pub outputs: Seq<AdditionRecord>,
    pub pubscript_hashes_and_inputs: Seq<PubScript>,
    pub fee: NativeCurrencyAmount,
    pub timestamp: Timestamp,
}

impl View for DevnetTransaction {
    type V = DevnetTransactionView;

    open spec fn view(&self) -> DevnetTransactionView {
        DevnetTransactionView {
            inputs: removal_views(self.inputs@),
            outputs: self.outputs@,
            pubscript_hashes_and_inputs: self.pubscript_hashes_and_inputs@,
            fee: self.fee,
            timestamp: self.timestamp,
        }
    }
}

/// The later one of two points in time.
pub open spec fn later(a: Timestamp, b: Timestamp) -> Timestamp {
    if a.millis >= b.millis {
        a
    } else {
        b
    }
}

/// One transaction that does what both do.
pub open spec fn merged(a: DevnetTransactionView, b: DevnetTransactionView)
    -> DevnetTransactionView {
    DevnetTransactionView {
        inputs: a.inputs + b.inputs,
        outputs: a.outputs + b.outputs,
        pubscript_hashes_and_inputs: a.pubscript_hashes_and_inputs + b.pubscript_hashes_and_inputs,
        fee: NativeCurrencyAmount { nau: (a.fee.nau + b.fee.nau) as i128 },
        timestamp: later(a.timestamp, b.timestamp),
    }
}

/// What the transactions of a list consist of.
pub open spec fn transaction_views(transactions: Seq<DevnetTransaction>) -> Seq<
    DevnetTransactionView,
> {
    transactions.map_values(|t: DevnetTransaction| t@)
}

/// The fees of the transactions, added up.
pub open spec fn total_fees(transactions: Seq<DevnetTransactionView>) -> int
    decreases transactions.len(),
{
    if transactions.len() == 0 {
        0
    } else {
        total_fees(transactions.drop_last()) + transactions.last().fee.nau
    }
}

/// The inputs of the transactions, one after the other.
pub open spec fn all_inputs(transactions: Seq<DevnetTransactionView>) -> Seq<RemovalRecordView>
    decreases transactions.len(),
{
    if transactions.len() == 0 {
        Seq::empty()
    } else {
        all_inputs(transactions.drop_last()) + transactions.last().inputs
    }
}

/// The outputs of the transactions, one after the other.
pub open spec fn all_outputs(transactions: Seq<DevnetTransactionView>) -> Seq<AdditionRecord>
    decreases transactions.len(),
{
    if transactions.len() == 0 {
        Seq::empty()
    } else {
        all_outputs(transactions.drop_last()) + transactions.last().outputs
    }
}

/// The public scripts of the transactions, one after the other.
pub open spec fn all_pubscripts(transactions: Seq<DevnetTransactionView>) -> Seq<PubScript>
    decreases transactions.len(),
{
    if transactions.len() == 0 {
        Seq::empty()
    } else {
        all_pubscripts(transactions.drop_last()) + transactions.last().pubscript_hashes_and_inputs
    }
}

/// The latest point in time among the given one and those of the transactions.
pub open spec fn latest(start: Timestamp, transactions: Seq<DevnetTransactionView>) -> Timestamp
    decreases transactions.len(),
{
    if transactions.len() == 0 {
        start
    } else {
        later(latest(start, transactions.drop_last()), transactions.last().timestamp)
    }
}

/// The commitment to the output that rewards the miner of the block after one of the given height
/// with the block subsidy and the transaction fees. Its sender randomness is zero.
pub open spec fn coinbase_record(
    lock_script_hash: Digest,
    receiver_digest: Digest,
    previous_height: BlockHeight,
    total_transaction_fees: int,
    scripts: TypeScriptHashes,
) -> AdditionRecord {
    let amount = NativeCurrencyAmount {
        nau: (subsidy(previous_height.spec_next()) + total_transaction_fees) as i128,
    };
    commitment(
        utxo_digest(liquid_utxo(lock_script_hash, amount), scripts),
        Digest::zero_digest(),
        receiver_digest,
    )
}

impl DevnetTransaction {
    /// Merges two transactions into one that does what both do. Their fees must not add up to more
    /// than an amount can be.
    pub fn merge_with(self, other: DevnetTransaction) -> (t: DevnetTransaction)
        requires
            i128::MIN <= self.fee.nau + other.fee.nau <= i128::MAX,
        ensures
            t@ == merged(self@, other@),
    {
        let mut inputs = self.inputs;
        let mut more_inputs = other.inputs;
        let mut outputs = self.outputs;
        let mut more_outputs = other.outputs;
        let mut pubscripts = self.pubscript_hashes_and_inputs;
        let mut more_pubscripts = other.pubscript_hashes_and_inputs;
        inputs.append(&mut more_inputs);
        outputs.append(&mut more_outputs);
        pubscripts.append(&mut more_pubscripts);
        assert(removal_views(inputs@) =~= self@.inputs + other@.inputs);
        DevnetTransaction {
            inputs,
            outputs,
            pubscript_hashes_and_inputs: pubscripts,
            fee: NativeCurrencyAmount::from_nau(self.fee.nau + other.fee.nau),
            timestamp: if self.timestamp.millis >= other.timestamp.millis {
                self.timestamp
            } else {
                other.timestamp
            },
        }
    }
}

/// The transaction that pays the block subsidy and the transaction fees to the miner.
pub fn make_coinbase_transaction(
    lock_script_hash: Digest,
    receiver_digest: Digest,
    previous_height: BlockHeight,
    total_transaction_fees: NativeCurrencyAmount,
    timestamp: Timestamp,
    scripts: &TypeScriptHashes,
) -> (t: DevnetTransaction)
    requires
        subsidy(previous_height.spec_next()) + total_transaction_fees.nau <= i128::MAX,
    ensures
        t@.inputs.len() == 0,
        t@.outputs == seq![
            coinbase_record(
                lock_script_hash,
                receiver_digest,
                previous_height,
                total_transaction_fees.nau as int,
                *scripts,
            ),
        ],
        t@.pubscript_hashes_and_inputs.len() == 0,
        t@.fee.nau == 0,
        t@.timestamp == timestamp,
{
    let next_block_height = previous_height.next();
    let reward = Block::block_subsidy(next_block_height);
    let amount = NativeCurrencyAmount::from_nau(reward.nau + total_transaction_fees.nau);
    let coinbase_utxo = Utxo::new_native_currency(lock_script_hash, amount);
    let item = hash_utxo(&coinbase_utxo, scripts);
    let mut outputs: Vec<AdditionRecord> = Vec::new();
    outputs.push(commit(&item, &Digest::default(), &receiver_digest));
    assert(outputs@ =~= seq![
        coinbase_record(
            lock_script_hash,
            receiver_digest,
            previous_height,
            total_transaction_fees.nau as int,
            *scripts,
        ),
    ]);
    DevnetTransaction {
        inputs: Vec::new(),
        outputs,
        pubscript_hashes_and_inputs: Vec::new(),
        fee: NativeCurrencyAmount::zero(),
        timestamp,
    }
}

/// The fees of fewer transactions are no more.
proof fn lemma_total_fees_grow(transactions: Seq<DevnetTransactionView>, count: int)
    requires
        0 <= count <= transactions.len(),
        forall|i: int| 0 <= i < transactions.len() ==> (#[trigger] transactions[i]).fee.nau >= 0,
    ensures
        0 <= total_fees(transactions.take(count)) <= total_fees(transactions),
    decreases transactions.len(),
{
    if count == transactions.len() {
        assert(transactions.take(count) =~= transactions);
        if count > 0 {
            lemma_total_fees_grow(transactions.drop_last(), count - 1);
            assert(transactions.drop_last().take(count - 1) =~= transactions.drop_last());
        }
    } else {
        lemma_total_fees_grow(transactions.drop_last(), count);
        assert(transactions.drop_last().take(count) =~= transactions.take(count));
    }
}

/// The transaction that goes into a block. It is built from transactions out of the mempool, none
/// of which has a negative fee, and from the coinbase transaction. Its own fee is zero, as all fees
/// are already sent to the miner in the coinbase output.
pub fn create_block_transaction(
    transactions_to_include: Vec<DevnetTransaction>,
    lock_script_hash: Digest,
    receiver_digest: Digest,
    previous_height: BlockHeight,
    timestamp: Timestamp,
    scripts: &TypeScriptHashes,
) -> (t: DevnetTransaction)
    requires
        forall|i: int|
            0 <= i < transactions_to_include@.len() ==> (
            #[trigger] transactions_to_include@[i]).fee.nau >= 0,
        INITIAL_BLOCK_SUBSIDY + total_fees(transaction_views(transactions_to_include@))
            <= i128::MAX,
    ensures
        t@.inputs == all_inputs(transaction_views(transactions_to_include@)),
        t@.outputs == seq![
            coinbase_record(
                lock_script_hash,
                receiver_digest,
                previous_height,
                total_fees(transaction_views(transactions_to_include@)),
                *scripts,
            ),
        ] + all_outputs(transaction_views(transactions_to_include@)),
        t@.pubscript_hashes_and_inputs == all_pubscripts(
            transaction_views(transactions_to_include@),
        ),
        t@.fee.nau == 0,
        t@.timestamp == latest(timestamp, transaction_views(transactions_to_include@)),
        forall|i: int, j: int|
            0 <= i < transactions_to_include@.len() && 0 <= j
                < transactions_to_include@[i].outputs@.len() ==> t.outputs@.contains(
                #[trigger] transactions_to_include@[i].outputs@[j],
            ),
        t.outputs@.len() == 1 + number_of_outputs(transaction_views(transactions_to_include@)),
        t.inputs@.len() == number_of_inputs(transaction_views(transactions_to_include@)),
{
    let ghost views = transaction_views(transactions_to_include@);
    let mut fees: i128 = 0;
    let mut i: usize = 0;
    assert(views.take(0) =~= Seq::<DevnetTransactionView>::empty());
    while i < transactions_to_include.len()
        invariant
            i <= transactions_to_include@.len(),
            views == transaction_views(transactions_to_include@),
            forall|j: int| 0 <= j < views.len() ==> (#[trigger] views[j]).fee.nau >= 0,
            fees == total_fees(views.take(i as int)),
            total_fees(views) <= i128::MAX,
        decreases transactions_to_include@.len() - i,
    {
        proof {
            lemma_total_fees_grow(views, i + 1);
            assert(views.take(i + 1).drop_last() =~= views.take(i as int));
            assert(views[i as int] == transactions_to_include@[i as int]@);
        }
        fees = fees + transactions_to_include[i].fee.nau;
        i = i + 1;
    }
    assert(views.take(i as int) =~= views);
    proof {
        let next = previous_height.spec_next();
        vstd::arithmetic::power2::lemma_pow2_pos(next.spec_generation() as nat);
        vstd::arithmetic::div_mod::lemma_div_is_ordered_by_denominator(
            INITIAL_BLOCK_SUBSIDY as int,
            1,
            vstd::arithmetic::power2::pow2(next.spec_generation() as nat) as int,
        );
        assert(INITIAL_BLOCK_SUBSIDY as int / 1 == INITIAL_BLOCK_SUBSIDY);
    }
    let mut merged_transaction = make_coinbase_transaction(
        lock_script_hash,
        receiver_digest,
        previous_height,
        NativeCurrencyAmount::from_nau(fees),
        timestamp,
        scripts,
    );
    let ghost coinbase_outputs = merged_transaction@.outputs;
    let ghost count = transactions_to_include@.len();
    let mut rest = transactions_to_include;
    let mut done: usize = 0;
    let total: usize = rest.len();
    assert(merged_transaction@.inputs =~= all_inputs(views.take(0)));
    assert(merged_transaction@.outputs =~= coinbase_outputs + all_outputs(views.take(0)));
    assert(merged_transaction@.pubscript_hashes_and_inputs =~= all_pubscripts(views.take(0)));
    assert(rest@ =~= transactions_to_include@.skip(0));
    while done < total
        invariant
            done <= total == views.len(),
            views == transaction_views(transactions_to_include@),
            rest@ == transactions_to_include@.skip(done as int),
            forall|j: int| 0 <= j < views.len() ==> (#[trigger] views[j]).fee.nau >= 0,
            total_fees(views) <= i128::MAX,
            merged_transaction@.inputs == all_inputs(views.take(done as int)),
            merged_transaction@.outputs == coinbase_outputs + all_outputs(views.take(done as int)),
            merged_transaction@.pubscript_hashes_and_inputs == all_pubscripts(
                views.take(done as int),
            ),
            merged_transaction@.fee.nau == total_fees(views.take(done as int)),
            merged_transaction@.timestamp == latest(timestamp, views.take(done as int)),
        decreases total - done,
    {
        proof {
            lemma_total_fees_grow(views, done + 1);
            assert(views.take(done + 1).drop_last() =~= views.take(done as int));
            assert(views[done as int] == transactions_to_include@[done as int]@);
        }
        let transaction = rest.remove(0);
        merged_transaction = merged_transaction.merge_with(transaction);
        proof {
            assert(transaction@ == views[done as int]);
            assert(rest@ =~= transactions_to_include@.skip(done + 1));
            assert(merged_transaction@.outputs =~= coinbase_outputs + all_outputs(
                views.take(done + 1),
            ));
        }
        done = done + 1;
    }
    assert(views.take(done as int) =~= views);
    merged_transaction.fee = NativeCurrencyAmount::zero();
    proof {
        lemma_nothing_is_lost_or_made_up(views);
        let outputs = merged_transaction@.outputs;
        assert forall|i: int, j: int|
            0 <= i < transactions_to_include@.len() && 0 <= j
                < transactions_to_include@[i].outputs@.len() implies outputs.contains(
            #[trigger] transactions_to_include@[i].outputs@[j],
        ) by {
            let output = transactions_to_include@[i].outputs@[j];
            assert(views[i] == transactions_to_include@[i]@);
            lemma_every_output_is_included(views, i, j);
            let k = choose|k: int|
                0 <= k < all_outputs(views).len() && all_outputs(views)[k] == output;
            assert(outputs[1 + k] == output);
        }
    }
    merged_transaction
}

} // verus!
