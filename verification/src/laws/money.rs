//! Who gets how much, and from when on.

use vstd::prelude::*;

use crate::amount::NativeCurrencyAmount;
use crate::block::codec::utxo_code;
use crate::block::premine::premine_coins;
use crate::block::premine::spec_genesis_outputs;
use crate::block::premine::spec_premine_utxos;
use crate::block::premine::PremineReceiver;
use crate::block::rewards::utxo_digest;
use crate::block::validation::BlockValidationError;
use crate::block::Block;
use crate::block::BlockHeader;
use crate::digest::tip5_hash_pair;
use crate::digest::tip5_hash_varlen;
use crate::digest::Digest;
use crate::field::P;
use crate::laws::digests::no_collision;
use crate::laws::encoding::lemma_utxo_code_injective;
use crate::network::Network;
use crate::transaction::commitment;
use crate::transaction::AdditionRecord;
use crate::transaction::TypeScriptHashes;
use crate::transaction::UtxoView;

verus! {

/// The guesser of a block is paid its transaction fee, unless that is negative.
pub proof fn lemma_guesser_is_paid_the_fee(block: Block)
    ensures
        ({
            let fee = block.spec_body().transaction_kernel.fee;
            &&& fee.nau >= 0 ==> block.spec_total_guesser_reward() == Ok::<
                NativeCurrencyAmount,
                BlockValidationError,
            >(fee)
            &&& fee.nau < 0 ==> block.spec_total_guesser_reward() == Err::<
                NativeCurrencyAmount,
                BlockValidationError,
            >(BlockValidationError::NegativeFee)
            &&& block.guesser_reward_is_defined() <==> fee.nau >= 0
                || block.spec_header().height.value == 0
        }),
{
}

/// The guesser's outputs are locked by the given script and worth the fee. One half of it, and not
/// the larger one, cannot be spent before three years after the block.
pub proof fn lemma_guesser_outputs(block: Block, lock_script_hash: Digest)
    requires
        block.spec_header().height.value != 0,
        block.spec_body().transaction_kernel.fee.nau >= 0,
    ensures
        ({
            let fee = block.spec_body().transaction_kernel.fee.nau as int;
            let utxos = block.spec_guesser_fee_utxos(lock_script_hash);
            let locked = utxos[0].coins[0]->NativeCurrency_0.nau as int;
            let liquid = utxos[1].coins[0]->NativeCurrency_0.nau as int;
            &&& utxos.len() == 2
            &&& utxos[0].lock_script_hash == lock_script_hash
            &&& utxos[1].lock_script_hash == lock_script_hash
            &&& utxos[0].coins.len() == 2
            &&& utxos[1].coins.len() == 1
            &&& utxos[0].coins[0] is NativeCurrency
            &&& utxos[0].coins[1] is TimeLock
            &&& utxos[1].coins[0] is NativeCurrency
            &&& utxos[0].coins[1]->TimeLock_0.millis == (block.spec_header().timestamp.millis
                + 94_608_000_000) % P as int
            &&& locked + liquid == fee
            &&& 0 <= locked <= liquid <= locked + 1
        }),
{
}

/// The guesser of the genesis block is not paid anything.
pub proof fn lemma_genesis_has_no_guesser(
    block: Block,
    lock_script_hash: Digest,
    scripts: TypeScriptHashes,
)
    requires
        block.spec_header().height.value == 0,
    ensures
        block.spec_guesser_fee_utxos(lock_script_hash).len() == 0,
        block.spec_guesser_fee_addition_records(lock_script_hash, scripts).len() == 0,
{
}

/// What the guesser is paid is committed to with the hash of the block as sender randomness and
/// with the guesser digest of its header, one commitment for each output.
pub proof fn lemma_guesser_records(
    block: Block,
    lock_script_hash: Digest,
    scripts: TypeScriptHashes,
    i: int,
)
    requires
        0 <= i < block.spec_guesser_fee_utxos(lock_script_hash).len(),
    ensures
        block.spec_guesser_fee_addition_records(lock_script_hash, scripts).len()
            == block.spec_guesser_fee_utxos(lock_script_hash).len(),
        block.spec_guesser_fee_addition_records(lock_script_hash, scripts)[i] == (AdditionRecord {
            canonical_commitment: tip5_hash_pair(
                tip5_hash_pair(
                    tip5_hash_varlen(
                        utxo_code(block.spec_guesser_fee_utxos(lock_script_hash)[i], scripts),
                    ),
                    block.spec_hash(),
                ),
                block.spec_header().guesser_digest,
            ),
        }),
{
}

/// A block removes exactly what its transaction spends, and adds exactly the outputs of its
/// transaction and those of its guesser, in this order.
pub proof fn lemma_what_a_block_changes(
    block: Block,
    lock_script_hash: Digest,
    scripts: TypeScriptHashes,
)
    ensures
        ({
            let kernel = block.spec_body().transaction_kernel;
            let records = block.spec_guesser_fee_addition_records(lock_script_hash, scripts);
            let update = block.spec_mutator_set_update(lock_script_hash, scripts);
            let n = kernel.outputs@.len() as int;
            &&& update.removals.len() == kernel.inputs@.len()
            &&& forall|i: int|
                0 <= i < kernel.inputs@.len() ==> (#[trigger] update.removals[i]).absolute_indices
                    == kernel.inputs@[i].absolute_indices@ && update.removals[i].target_chunks
                    == kernel.inputs@[i].target_chunks@
            &&& update.additions.len() == n + records.len()
            &&& forall|i: int|
                0 <= i < n ==> #[trigger] update.additions[i] == kernel.outputs@[i]
            &&& forall|i: int|
                n <= i < n + records.len() ==> #[trigger] update.additions[i] == records[i - n]
        }),
{
}

/// Different pairs of digests do not happen to have the same hash.
pub open spec fn no_pair_collision(a: Digest, b: Digest, c: Digest, d: Digest) -> bool {
    tip5_hash_pair(a, b) == tip5_hash_pair(c, d) ==> a == c && b == d
}

/// A commitment binds to its item, its sender and its receiver, unless hashes collide.
pub proof fn lemma_commitment_binds(
    item: Digest,
    sender: Digest,
    receiver: Digest,
    other_item: Digest,
    other_sender: Digest,
    other_receiver: Digest,
)
    requires
        commitment(item, sender, receiver) == commitment(other_item, other_sender, other_receiver),
        no_pair_collision(item, sender, other_item, other_sender),
        no_pair_collision(
            tip5_hash_pair(item, sender),
            receiver,
            tip5_hash_pair(other_item, other_sender),
            other_receiver,
        ),
    ensures
        item == other_item,
        sender == other_sender,
        receiver == other_receiver,
{
}

/// The digest of an output commits to who can spend how much of it, and when, unless hashes
/// collide.
pub proof fn lemma_output_digest_commits(a: UtxoView, b: UtxoView, scripts: TypeScriptHashes)
    requires
        utxo_digest(a, scripts) == utxo_digest(b, scripts),
        no_collision(utxo_code(a, scripts), utxo_code(b, scripts)),
        utxo_code(a, scripts).len() <= u64::MAX,
        a.coins.len() <= u64::MAX,
        b.coins.len() <= u64::MAX,
    ensures
        a.lock_script_hash == b.lock_script_hash,
        a.coins == b.coins,
{
    lemma_utxo_code_injective(a, b, scripts);
}

/// Each premine output is locked by the script of its own recipient, worth what that recipient is
/// due, and cannot be spent before six months after launch.
pub proof fn lemma_premine_output(
    network: Network,
    receivers: Seq<PremineReceiver>,
    i: int,
    coins: int,
)
    requires
        receivers.len() == 80,
        0 <= i < 80,
        coins == premine_coins()[i],
        0 <= coins <= 831_488,
    ensures
        ({
            let utxos = spec_premine_utxos(network, receivers);
            &&& utxos.len() == 80
            &&& utxos[i].lock_script_hash == receivers[i].lock_script_hash
            &&& utxos[i].coins.len() == 2
            &&& utxos[i].coins[0] is NativeCurrency
            &&& utxos[i].coins[0]->NativeCurrency_0.nau == coins
                * 4_000_000_000_000_000_000_000_000_000_000
            &&& utxos[i].coins[1] is TimeLock
            &&& utxos[i].coins[1]->TimeLock_0.millis == (network.launch_date.millis
                + 15_768_000_000) % P as int
        }),
{
}

/// Each premine output is committed to with the number of the network as sender randomness and with
/// the privacy digest of its own recipient.
pub proof fn lemma_genesis_output(
    network: Network,
    receivers: Seq<PremineReceiver>,
    scripts: TypeScriptHashes,
    i: int,
)
    requires
        receivers.len() == 80,
        0 <= i < 80,
    ensures
        spec_genesis_outputs(network, receivers, scripts).len() == 80,
        spec_genesis_outputs(network, receivers, scripts)[i] == (AdditionRecord {
            canonical_commitment: tip5_hash_pair(
                tip5_hash_pair(
                    tip5_hash_varlen(
                        utxo_code(spec_premine_utxos(network, receivers)[i], scripts),
                    ),
                    (Digest {
                        e0: (network.id as int % P as int) as u64,
                        e1: 0,
                        e2: 0,
                        e3: 0,
                        e4: 0,
                    }),
                ),
                receivers[i].privacy_digest,
            ),
        }),
{
}

/// The genesis block starts the chain of its network: it stands at the bottom, has no predecessor,
/// no work behind it, and the difficulty and date that the network sets.
pub proof fn lemma_genesis_header(network: Network)
    ensures
        ({
            let header = BlockHeader::spec_genesis(network);
            &&& header.version == 0
            &&& header.height.value == 0
            &&& header.prev_block_digest == (Digest { e0: 0, e1: 0, e2: 0, e3: 0, e4: 0 })
            &&& header.nonce == (Digest { e0: 0, e1: 0, e2: 0, e3: 0, e4: 0 })
            &&& header.guesser_digest == (Digest { e0: 0, e1: 0, e2: 0, e3: 0, e4: 0 })
            &&& header.cumulative_proof_of_work.number() == 0
            &&& header.difficulty == network.genesis_difficulty
            &&& header.timestamp == network.launch_date
        }),
{
}

} // verus!
