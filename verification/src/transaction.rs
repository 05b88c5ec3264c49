//! What transactions consist of, as far as blocks are concerned.

use vstd::prelude::*;

use crate::amount::NativeCurrencyAmount;
use crate::digest::hash_pair;
use crate::digest::tip5_hash_pair;
use crate::digest::Digest;
use crate::timestamp::Timestamp;

verus! {

/// The removal of a transaction output from the mutator set.
#[derive(Debug)]
pub struct RemovalRecord {
    /// The positions in the sliding-window Bloom filter that the removal sets.
    pub absolute_indices: Vec<u128>,
    /// The encoded chunks of the filter's inactive part, with their membership proofs.
    pub target_chunks: Vec<u64>,
}

/// What a removal record consists of.
pub struct RemovalRecordView {
    pub absolute_indices: Seq<u128>,
    pub target_chunks: Seq<u64>,
}

impl View for RemovalRecord {
    type V = RemovalRecordView;

    open spec fn view(&self) -> RemovalRecordView {
        RemovalRecordView {
            absolute_indices: self.absolute_indices@,
            target_chunks: self.target_chunks@,
        }
    }
}

impl Clone for RemovalRecord {
    fn clone(&self) -> (r: RemovalRecord)
        ensures
            r@ == self@,
    {
        RemovalRecord {
            absolute_indices: self.absolute_indices.clone(),
            target_chunks: self.target_chunks.clone(),
        }
    }
}

/// What the records of a list consist of.
pub open spec fn removal_views(records: Seq<RemovalRecord>) -> Seq<RemovalRecordView> {
    records.map_values(|r: RemovalRecord| r@)
}

/// Copies of the records.
pub fn duplicate_removals(records: &Vec<RemovalRecord>) -> (r: Vec<RemovalRecord>)
    ensures
        removal_views(r@) == removal_views(records@),
{
    let mut r: Vec<RemovalRecord> = Vec::new();
    let mut i: usize = 0;
    while i < records.len()
        invariant
            i <= records@.len(),
            r@.len() == i,
            forall|j: int| 0 <= j < i ==> (#[trigger] r@[j])@ == records@[j]@,
        decreases records@.len() - i,
    {
        r.push(records[i].clone());
        i = i + 1;
    }
    assert(removal_views(r@) =~= removal_views(records@));
    r
}

/// The addition of a transaction output to the mutator set.
#[derive(Clone, Copy, Debug, PartialEq, Eq, Structural)]
pub struct AdditionRecord {
    pub canonical_commitment: Digest,
}

/// The commitment to an item, given the randomness of its sender and the digest of its receiver.
pub open spec fn commitment(
    item: Digest,
    sender_randomness: Digest,
    receiver_digest: Digest,
) -> AdditionRecord {
    AdditionRecord {
        canonical_commitment: tip5_hash_pair(
            tip5_hash_pair(item, sender_randomness),
            receiver_digest,
        ),
    }
}

/// Commits to an item, given the randomness of its sender and the digest of its receiver.
pub fn commit(item: &Digest, sender_randomness: &Digest, receiver_digest: &Digest) -> (r:
    AdditionRecord)
    ensures
        r == commitment(*item, *sender_randomness, *receiver_digest),
{
    let blinded = hash_pair(item, sender_randomness);
    AdditionRecord { canonical_commitment: hash_pair(&blinded, receiver_digest) }
}

/// What a transaction makes known to everybody.
#[derive(Clone, Debug)]
pub struct PublicAnnouncement {
    pub message: Vec<u64>,
}

/// The messages of a list of announcements.
pub open spec fn messages(announcements: Seq<PublicAnnouncement>) -> Seq<Seq<u64>> {
    announcements.map_values(|a: PublicAnnouncement| a.message@)
}

/// Copies of the announcements.
pub fn duplicate_announcements(announcements: &Vec<PublicAnnouncement>) -> (r: Vec<
    PublicAnnouncement,
>)
    ensures
        messages(r@) == messages(announcements@),
{
    let mut r: Vec<PublicAnnouncement> = Vec::new();
    let mut i: usize = 0;
    while i < announcements.len()
        invariant
            i <= announcements@.len(),
            r@.len() == i,
            forall|j: int| 0 <= j < i ==> (#[trigger] r@[j]).message@ == announcements@[j].message@,
        decreases announcements@.len() - i,
    {
        r.push(PublicAnnouncement { message: announcements[i].message.clone() });
        i = i + 1;
    }
    assert(messages(r@) =~= messages(announcements@));
    r
}

/// What a transaction does, without the proof that it may.
#[derive(Debug)]
pub struct TransactionKernel {
    pub inputs: Vec<RemovalRecord>,
    pub outputs: Vec<AdditionRecord>,
    pub public_announcements: Vec<PublicAnnouncement>,
    pub fee: NativeCurrencyAmount,
    pub coinbase: Option<NativeCurrencyAmount>,
    pub timestamp: Timestamp,
    pub mutator_set_hash: Digest,
    pub merge_bit: bool,
}

/// What a transaction kernel consists of.
pub struct TransactionKernelView {
    pub inputs: Seq<RemovalRecordView>,
    pub outputs: Seq<AdditionRecord>,
    pub public_announcements: Seq<Seq<u64>>,
    pub fee: NativeCurrencyAmount,
    pub coinbase: Option<NativeCurrencyAmount>,
    pub timestamp: Timestamp,
    pub mutator_set_hash: Digest,
    pub merge_bit: bool,
}

impl View for TransactionKernel {
    type V = TransactionKernelView;

    open spec fn view(&self) -> TransactionKernelView {
        TransactionKernelView {
            inputs: removal_views(self.inputs@),
            outputs: self.outputs@,
            public_announcements: messages(self.public_announcements@),
            fee: self.fee,
            coinbase: self.coinbase,
            timestamp: self.timestamp,
            mutator_set_hash: self.mutator_set_hash,
            merge_bit: self.merge_bit,
        }
    }
}

impl Clone for TransactionKernel {
    fn clone(&self) -> (k: TransactionKernel)
        ensures
            k@ == self@,
    {
        TransactionKernel {
            inputs: duplicate_removals(&self.inputs),
            outputs: self.outputs.clone(),
            public_announcements: duplicate_announcements(&self.public_announcements),
            fee: self.fee,
            coinbase: self.coinbase,
            timestamp: self.timestamp,
            mutator_set_hash: self.mutator_set_hash,
            merge_bit: self.merge_bit,
        }
    }
}

/// One kind of money, or of a condition, in a transaction output.
#[derive(Clone, Copy, Debug, PartialEq, Eq, Structural)]
pub enum Coin {
    /// An amount of the native currency.
    NativeCurrency(NativeCurrencyAmount),
    /// The output cannot be spent before this time.
    TimeLock(Timestamp),
}

/// The hashes of the scripts that coins are subject to.
#[derive(Clone, Copy, Debug, PartialEq, Eq, Structural)]
pub struct TypeScriptHashes {
    pub native_currency: Digest,
    pub time_lock: Digest,
}

/// A transaction output, spendable by whoever satisfies its lock script.
#[derive(Clone, Debug)]
pub struct Utxo {
    pub lock_script_hash: Digest,
    pub coins: Vec<Coin>,
}

/// What a transaction output consists of.
pub struct UtxoView {
    pub lock_script_hash: Digest,
    pub coins: Seq<Coin>,
}

impl View for Utxo {
    type V = UtxoView;

    open spec fn view(&self) -> UtxoView {
        UtxoView { lock_script_hash: self.lock_script_hash, coins: self.coins@ }
    }
}

/// An output of native currency that can be spent at any time.
pub open spec fn liquid_utxo(lock: Digest, amount: NativeCurrencyAmount) -> UtxoView {
    UtxoView { lock_script_hash: lock, coins: seq![Coin::NativeCurrency(amount)] }
}

/// An output of native currency that can be spent from a given time on.
pub open spec fn locked_utxo(lock: Digest, amount: NativeCurrencyAmount, until: Timestamp)
    -> UtxoView {
    UtxoView {
        lock_script_hash: lock,
        coins: seq![Coin::NativeCurrency(amount), Coin::TimeLock(until)],
    }
}

impl Utxo {
    /// An output of native currency that can be spent at any time.
    pub fn new_native_currency(lock: Digest, amount: NativeCurrencyAmount) -> (u: Utxo)
        ensures
            u@ == liquid_utxo(lock, amount),
    {
        let mut coins: Vec<Coin> = Vec::new();
        coins.push(Coin::NativeCurrency(amount));
        assert(coins@ =~= seq![Coin::NativeCurrency(amount)]);
        Utxo { lock_script_hash: lock, coins }
    }

    /// An output of native currency that can be spent from a given time on.
    pub fn new_time_locked(lock: Digest, amount: NativeCurrencyAmount, until: Timestamp) -> (u:
        Utxo)
        ensures
            u@ == locked_utxo(lock, amount, until),
    {
        let mut coins: Vec<Coin> = Vec::new();
        coins.push(Coin::NativeCurrency(amount));
        coins.push(Coin::TimeLock(until));
        assert(coins@ =~= seq![Coin::NativeCurrency(amount), Coin::TimeLock(until)]);
        Utxo { lock_script_hash: lock, coins }
    }
}

/// A change to the mutator set: what is removed from it, and what is added to it.
#[derive(Clone, Debug)]
pub struct MutatorSetUpdate {
    pub removals: Vec<RemovalRecord>,
    pub additions: Vec<AdditionRecord>,
}

/// What a change to the mutator set consists of.
pub struct MutatorSetUpdateView {
    pub removals: Seq<RemovalRecordView>,
    pub additions: Seq<AdditionRecord>,
}

impl View for MutatorSetUpdate {
    type V = MutatorSetUpdateView;

    open spec fn view(&self) -> MutatorSetUpdateView {
        MutatorSetUpdateView {
            removals: removal_views(self.removals@),
            additions: self.additions@,
        }
    }
}

/// A commitment to the set of all transaction outputs and of those that are spent.
///
/// Of such an accumulator, only its digest and its encoding as field elements matter here.
#[derive(Debug)]
pub struct MutatorSetAccumulator {
    pub digest: Digest,
    pub encoding: Vec<u64>,
}

/// What a mutator set accumulator consists of.
pub struct MutatorSetAccumulatorView {
    pub digest: Digest,
    pub encoding: Seq<u64>,
}

impl View for MutatorSetAccumulator {
    type V = MutatorSetAccumulatorView;

    open spec fn view(&self) -> MutatorSetAccumulatorView {
        MutatorSetAccumulatorView { digest: self.digest, encoding: self.encoding@ }
    }
}

impl Clone for MutatorSetAccumulator {
    fn clone(&self) -> (m: MutatorSetAccumulator)
        ensures
            m@ == self@,
    {
        MutatorSetAccumulator { digest: self.digest, encoding: self.encoding.clone() }
    }
}

impl MutatorSetAccumulator {
    /// The accumulator's digest.
    pub fn hash(&self) -> (d: Digest)
        ensures
            d == self@.digest,
    {
        self.digest
    }
}

} // verus!
