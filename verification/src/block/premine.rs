//! The premine, and the genesis block that pays it out.

use vstd::prelude::*;

use crate::amount::NativeCurrencyAmount;
use crate::amount::NAU_PER_COIN;
use crate::block::premine_addresses::PREMINE_ADDRESS_01;
use crate::block::premine_addresses::PREMINE_ADDRESS_02;
use crate::block::premine_addresses::PREMINE_ADDRESS_03;
use crate::block::premine_addresses::PREMINE_ADDRESS_04;
use crate::block::premine_addresses::PREMINE_ADDRESS_05;
use crate::block::premine_addresses::PREMINE_ADDRESS_06;
use crate::block::premine_addresses::PREMINE_ADDRESS_07;
use crate::block::premine_addresses::PREMINE_ADDRESS_08;
use crate::block::premine_addresses::PREMINE_ADDRESS_09;
use crate::block::premine_addresses::PREMINE_ADDRESS_10;
use crate::block::premine_addresses::PREMINE_ADDRESS_11;
use crate::block::premine_addresses::PREMINE_ADDRESS_12;
use crate::block::premine_addresses::PREMINE_ADDRESS_13;
use crate::block::premine_addresses::PREMINE_ADDRESS_14;
use crate::block::premine_addresses::PREMINE_ADDRESS_15;
use crate::block::premine_addresses::PREMINE_ADDRESS_16;
use crate::block::premine_addresses::PREMINE_ADDRESS_17;
use crate::block::premine_addresses::PREMINE_ADDRESS_18;
use crate::block::premine_addresses::PREMINE_ADDRESS_19;
use crate::block::premine_addresses::PREMINE_ADDRESS_20;
use crate::block::premine_addresses::PREMINE_ADDRESS_21;
use crate::block::premine_addresses::PREMINE_ADDRESS_22;
use crate::block::premine_addresses::PREMINE_ADDRESS_23;
use crate::block::premine_addresses::PREMINE_ADDRESS_24;
use crate::block::premine_addresses::PREMINE_ADDRESS_25;
use crate::block::premine_addresses::PREMINE_ADDRESS_26;
use crate::block::premine_addresses::PREMINE_ADDRESS_27;
use crate::block::premine_addresses::PREMINE_ADDRESS_28;
use crate::block::premine_addresses::PREMINE_ADDRESS_29;
use crate::block::premine_addresses::PREMINE_ADDRESS_30;
use crate::block::premine_addresses::PREMINE_ADDRESS_31;
use crate::block::premine_addresses::PREMINE_ADDRESS_32;
use crate::block::premine_addresses::PREMINE_ADDRESS_33;
use crate::block::premine_addresses::PREMINE_ADDRESS_34;
use crate::block::premine_addresses::PREMINE_ADDRESS_35;
use crate::block::premine_addresses::PREMINE_ADDRESS_36;
use crate::block::premine_addresses::PREMINE_ADDRESS_37;
use crate::block::premine_addresses::PREMINE_ADDRESS_38;
use crate::block::premine_addresses::PREMINE_ADDRESS_39;
use crate::block::premine_addresses::PREMINE_ADDRESS_40;
use crate::block::premine_addresses::PREMINE_ADDRESS_41;
use crate::block::premine_addresses::PREMINE_ADDRESS_42;
use crate::block::premine_addresses::PREMINE_ADDRESS_43;
use crate::block::premine_addresses::PREMINE_ADDRESS_44;
use crate::block::premine_addresses::PREMINE_ADDRESS_45;
use crate::block::premine_addresses::PREMINE_ADDRESS_46;
use crate::block::premine_addresses::PREMINE_ADDRESS_47;
use crate::block::premine_addresses::PREMINE_ADDRESS_48;
use crate::block::premine_addresses::PREMINE_ADDRESS_49;
use crate::block::premine_addresses::PREMINE_ADDRESS_50;
use crate::block::premine_addresses::PREMINE_ADDRESS_51;
use crate::block::premine_addresses::PREMINE_ADDRESS_52;
use crate::block::premine_addresses::PREMINE_ADDRESS_53;
use crate::block::premine_addresses::PREMINE_ADDRESS_54;
use crate::block::premine_addresses::PREMINE_ADDRESS_55;
use crate::block::premine_addresses::PREMINE_ADDRESS_56;
use crate::block::premine_addresses::PREMINE_ADDRESS_57;
use crate::block::premine_addresses::PREMINE_ADDRESS_58;
use crate::block::premine_addresses::PREMINE_ADDRESS_59;
use crate::block::premine_addresses::PREMINE_ADDRESS_60;
use crate::block::premine_addresses::PREMINE_ADDRESS_61;
use crate::block::premine_addresses::PREMINE_ADDRESS_62;
use crate::block::premine_addresses::PREMINE_ADDRESS_63;
use crate::block::premine_addresses::PREMINE_ADDRESS_64;
use crate::block::premine_addresses::PREMINE_ADDRESS_65;
use crate::block::premine_addresses::PREMINE_ADDRESS_66;
use crate::block::premine_addresses::PREMINE_ADDRESS_67;
use crate::block::premine_addresses::PREMINE_ADDRESS_68;
use crate::block::premine_addresses::PREMINE_ADDRESS_69;
use crate::block::premine_addresses::PREMINE_ADDRESS_70;
use crate::block::premine_addresses::PREMINE_ADDRESS_71;
use crate::block::premine_addresses::PREMINE_ADDRESS_72;
use crate::block::premine_addresses::PREMINE_ADDRESS_73;
use crate::block::premine_addresses::PREMINE_ADDRESS_74;
use crate::block::premine_addresses::PREMINE_ADDRESS_75;
use crate::block::premine_addresses::PREMINE_ADDRESS_76;
use crate::block::premine_addresses::PREMINE_ADDRESS_77;
use crate::block::premine_addresses::PREMINE_ADDRESS_78;
use crate::block::premine_addresses::PREMINE_ADDRESS_79;
use crate::block::rewards::hash_utxo;
use crate::block::rewards::utxo_digest;
use crate::block::rewards::utxo_views;
use crate::block::Block;
use crate::block::BlockAppendix;
use crate::block::BlockBody;
use crate::block::BlockHeader;
use crate::block::BlockProof;
use crate::difficulty::ProofOfWork;
use crate::digest::Digest;
use crate::field::P;
use crate::height::BlockHeight;
use crate::mmr::MmrAccumulator;
use crate::network::Network;
use crate::timestamp::Timestamp;
use crate::timestamp::MILLIS_PER_MONTH;
use crate::transaction::commit;
use crate::transaction::commitment;
use crate::transaction::locked_utxo;
use crate::transaction::AdditionRecord;
use crate::transaction::MutatorSetAccumulator;
use crate::transaction::TransactionKernel;
use crate::transaction::TypeScriptHashes;
use crate::transaction::Utxo;
use crate::transaction::UtxoView;

verus! {

/// How long the premine is locked after the launch of a network, in milliseconds.
pub const PREMINE_TIME_LOCK_PERIOD: u64 = 6 * MILLIS_PER_MONTH;

/// The number of premine recipients.
pub const NUM_PREMINE_RECIPIENTS: usize = 80;

/// The size of the premine in coins.
pub const PREMINE_COINS: u32 = 831_488;

/// Who receives a part of the premine.
#[derive(Clone, Copy, Debug)]
pub enum PremineRecipient {
    /// The first address of the wallet that everybody can generate. Chiefly for testing.
    DevnetAuthority,
    /// An address on the main net, in bech32m.
    Bech32m(&'static str),
}

/// What can be derived from a receiving address.
#[derive(Clone, Copy, Debug, PartialEq, Eq, Structural)]
pub struct PremineReceiver {
    /// The hash of the script by which outputs to the address are locked.
    pub lock_script_hash: Digest,
    /// The digest that enters commitments to outputs to the address.
    pub privacy_digest: Digest,
}

/// The coins that the recipients receive, the authority first.
pub open spec fn premine_coins() -> Seq<u32> {
    seq![
        20u32, 1u32, 1u32, 1u32, 2_000u32, 250u32, 500u32, 8_808u32, 384u32, 441u32, 5_000u32,
        3_118u32, 9_354u32, 66_667u32, 66_667u32, 125u32, 250u32, 125u32, 250u32, 442u32,
        500u32, 250u32, 125u32, 2_500u32, 2_500u32, 2_500u32, 3_000u32, 500u32, 500u32, 250u32,
        500u32, 2_500u32, 1_250u32, 300u32, 20_000u32, 2_301u32, 4_000u32, 4_000u32, 836u32,
        250u32, 2_250u32, 500u32, 100u32, 479u32, 100u32, 400u32, 100u32, 100u32, 150u32,
        2_195u32, 97u32, 485u32, 728u32, 497u32, 167u32, 100u32, 250u32, 500u32, 100u32,
        4_638u32, 234u32, 8_315u32, 500u32, 500u32, 500u32, 500u32, 500u32, 3_000u32, 3_000u32,
        400u32, 14_167u32, 50_000u32, 50_000u32, 50_000u32, 103_660u32, 228_306u32, 15_139u32,
        72_723u32, 2_542u32, 600u32,
    ]
}

/// The addresses of all recipients but the first.
pub open spec fn premine_addresses() -> Seq<&'static str> {
    seq![
        PREMINE_ADDRESS_01, PREMINE_ADDRESS_02, PREMINE_ADDRESS_03, PREMINE_ADDRESS_04,
        PREMINE_ADDRESS_05, PREMINE_ADDRESS_06, PREMINE_ADDRESS_07, PREMINE_ADDRESS_08,
        PREMINE_ADDRESS_09, PREMINE_ADDRESS_10, PREMINE_ADDRESS_11, PREMINE_ADDRESS_12,
        PREMINE_ADDRESS_13, PREMINE_ADDRESS_14, PREMINE_ADDRESS_15, PREMINE_ADDRESS_16,
        PREMINE_ADDRESS_17, PREMINE_ADDRESS_18, PREMINE_ADDRESS_19, PREMINE_ADDRESS_20,
        PREMINE_ADDRESS_21, PREMINE_ADDRESS_22, PREMINE_ADDRESS_23, PREMINE_ADDRESS_24,
        PREMINE_ADDRESS_25, PREMINE_ADDRESS_26, PREMINE_ADDRESS_27, PREMINE_ADDRESS_28,
        PREMINE_ADDRESS_29, PREMINE_ADDRESS_30, PREMINE_ADDRESS_31, PREMINE_ADDRESS_32,
        PREMINE_ADDRESS_33, PREMINE_ADDRESS_34, PREMINE_ADDRESS_35, PREMINE_ADDRESS_36,
        PREMINE_ADDRESS_37, PREMINE_ADDRESS_38, PREMINE_ADDRESS_39, PREMINE_ADDRESS_40,
        PREMINE_ADDRESS_41, PREMINE_ADDRESS_42, PREMINE_ADDRESS_43, PREMINE_ADDRESS_44,
        PREMINE_ADDRESS_45, PREMINE_ADDRESS_46, PREMINE_ADDRESS_47, PREMINE_ADDRESS_48,
        PREMINE_ADDRESS_49, PREMINE_ADDRESS_50, PREMINE_ADDRESS_51, PREMINE_ADDRESS_52,
        PREMINE_ADDRESS_53, PREMINE_ADDRESS_54, PREMINE_ADDRESS_55, PREMINE_ADDRESS_56,
        PREMINE_ADDRESS_57, PREMINE_ADDRESS_58, PREMINE_ADDRESS_59, PREMINE_ADDRESS_60,
        PREMINE_ADDRESS_61, PREMINE_ADDRESS_62, PREMINE_ADDRESS_63, PREMINE_ADDRESS_64,
        PREMINE_ADDRESS_65, PREMINE_ADDRESS_66, PREMINE_ADDRESS_67, PREMINE_ADDRESS_68,
        PREMINE_ADDRESS_69, PREMINE_ADDRESS_70, PREMINE_ADDRESS_71, PREMINE_ADDRESS_72,
        PREMINE_ADDRESS_73, PREMINE_ADDRESS_74, PREMINE_ADDRESS_75, PREMINE_ADDRESS_76,
        PREMINE_ADDRESS_77, PREMINE_ADDRESS_78, PREMINE_ADDRESS_79,
    ]
}

/// What the recipient with the given index receives.
pub open spec fn premine_amount(i: int) -> NativeCurrencyAmount {
    NativeCurrencyAmount { nau: (premine_coins()[i] * NAU_PER_COIN) as i128 }
}

/// The recipient with the given index.
pub open spec fn premine_recipient(i: int) -> PremineRecipient {
    if i == 0 {
        PremineRecipient::DevnetAuthority
    } else {
        PremineRecipient::Bech32m(premine_addresses()[i - 1])
    }
}

/// The coins that the first recipients receive, added up.
pub open spec fn coins_of_first(count: nat) -> int
    decreases count,
{
    if count == 0 {
        0
    } else {
        coins_of_first((count - 1) as nat) + premine_coins()[count - 1]
    }
}

/// All parts of the premine add up to its size, which is less than two percent of 42 million
/// coins.
pub proof fn lemma_premine_size()
    ensures
        coins_of_first(NUM_PREMINE_RECIPIENTS as nat) == PREMINE_COINS,
        100 * PREMINE_COINS < 2 * 42_000_000,
{
    reveal_with_fuel(coins_of_first, 11);
    assert(coins_of_first(10) == 12_406);
    assert(coins_of_first(20) == 164_404);
    assert(coins_of_first(30) == 177_029);
    assert(coins_of_first(40) == 212_966);
    assert(coins_of_first(50) == 219_340);
    assert(coins_of_first(60) == 226_902);
    assert(coins_of_first(70) == 244_351);
    assert(coins_of_first(80) == 831_488);
}

/// The parts do not add up to more than all of them do.
proof fn lemma_premine_prefix(count: nat)
    requires
        count <= NUM_PREMINE_RECIPIENTS,
    ensures
        0 <= coins_of_first(count) <= PREMINE_COINS,
    decreases NUM_PREMINE_RECIPIENTS - count,
{
    if count == NUM_PREMINE_RECIPIENTS {
        lemma_premine_size();
        lemma_coins_of_first_nonnegative(count);
    } else {
        lemma_premine_prefix(count + 1);
        lemma_coins_of_first_nonnegative(count);
    }
}

proof fn lemma_coins_of_first_nonnegative(count: nat)
    ensures
        0 <= coins_of_first(count),
    decreases count,
{
    if count > 0 {
        lemma_coins_of_first_nonnegative((count - 1) as nat);
    }
}

/// The randomness that the senders of the premine, who do not exist, would have chosen.
pub open spec fn sender_randomness(network: Network) -> Digest {
    Digest { e0: (network.id as int % P as int) as u64, e1: 0, e2: 0, e3: 0, e4: 0 }
}

/// The outputs of the premine.
pub open spec fn spec_premine_utxos(
    network: Network,
    receivers: Seq<PremineReceiver>,
) -> Seq<UtxoView> {
    Seq::new(
        NUM_PREMINE_RECIPIENTS as nat,
        |i: int|
            locked_utxo(
                receivers[i].lock_script_hash,
                premine_amount(i),
                network.launch_date.spec_plus(Timestamp { millis: PREMINE_TIME_LOCK_PERIOD }),
            ),
    )
}

/// The commitments to the outputs of the premine.
pub open spec fn spec_genesis_outputs(
    network: Network,
    receivers: Seq<PremineReceiver>,
    scripts: TypeScriptHashes,
) -> Seq<AdditionRecord> {
    Seq::new(
        NUM_PREMINE_RECIPIENTS as nat,
        |i: int|
            commitment(
                utxo_digest(spec_premine_utxos(network, receivers)[i], scripts),
                sender_randomness(network),
                receivers[i].privacy_digest,
            ),
    )
}

/// No two networks have the same sender randomness. As it enters all commitments of the premine,
/// transactions on one network are not valid on another one.
pub proof fn lemma_sender_randomness_tells_networks_apart(a: Network, b: Network)
    requires
        a.id < P,
        b.id < P,
        a.id != b.id,
    ensures
        sender_randomness(a) != sender_randomness(b),
{
    vstd::arithmetic::div_mod::lemma_small_mod(a.id as nat, P as nat);
    vstd::arithmetic::div_mod::lemma_small_mod(b.id as nat, P as nat);
}

impl BlockHeader {
    /// The header of the genesis block.
    pub open spec fn spec_genesis(network: Network) -> BlockHeader {
        BlockHeader {
            version: 0,
            height: BlockHeight { value: 0 },
            prev_block_digest: Digest::zero_digest(),
            timestamp: network.launch_date,
            nonce: Digest::zero_digest(),
            cumulative_proof_of_work: ProofOfWork::spec_zero(),
            difficulty: network.genesis_difficulty,
            guesser_digest: Digest::zero_digest(),
        }
    }

    /// The header of the genesis block.
    pub fn genesis(network: &Network) -> (h: BlockHeader)
        ensures
            h == BlockHeader::spec_genesis(*network),
    {
        BlockHeader {
            version: 0,
            height: BlockHeight::new(0),
            prev_block_digest: Digest::default(),
            timestamp: network.launch_date,
            nonce: Digest::default(),
            cumulative_proof_of_work: ProofOfWork::zero(),
            difficulty: network.genesis_difficulty,
            guesser_digest: Digest::default(),
        }
    }
}

impl Block {
    /// Sender randomness is tailored to the network. This percolates into the mutator set hash and
    /// eventually into all transaction kernels. The net result is that transactions that are
    /// broadcast on another network are not valid there.
    pub fn premine_sender_randomness(network: &Network) -> (d: Digest)
        ensures
            d == sender_randomness(*network),
    {
        let d = Digest::new([network.id, 0, 0, 0, 0]);
        assert(d.values()[0] == d.e0 && d.values()[1] == d.e1 && d.values()[2] == d.e2
            && d.values()[3] == d.e3 && d.values()[4] == d.e4);
        d
    }

    /// Who receives the premine, and how much of it.
    pub fn premine_distribution() -> (dist: Vec<(PremineRecipient, NativeCurrencyAmount)>)
        ensures
            dist@.len() == NUM_PREMINE_RECIPIENTS,
            forall|i: int|
                0 <= i < NUM_PREMINE_RECIPIENTS ==> (#[trigger] dist@[i]).0 == premine_recipient(i)
                    && dist@[i].1 == premine_amount(i),
    {
        let coins: [u32; 80] = [
        20, 1, 1, 1, 2_000, 250, 500, 8_808, 384, 441, 5_000, 3_118, 9_354, 66_667, 66_667,
        125, 250, 125, 250, 442, 500, 250, 125, 2_500, 2_500, 2_500, 3_000, 500, 500, 250, 500,
        2_500, 1_250, 300, 20_000, 2_301, 4_000, 4_000, 836, 250, 2_250, 500, 100, 479, 100,
        400, 100, 100, 150, 2_195, 97, 485, 728, 497, 167, 100, 250, 500, 100, 4_638, 234,
        8_315, 500, 500, 500, 500, 500, 3_000, 3_000, 400, 14_167, 50_000, 50_000, 50_000,
        103_660, 228_306, 15_139, 72_723, 2_542, 600,
        ];
        let addresses: [&'static str; 79] = [
        PREMINE_ADDRESS_01, PREMINE_ADDRESS_02, PREMINE_ADDRESS_03, PREMINE_ADDRESS_04,
        PREMINE_ADDRESS_05, PREMINE_ADDRESS_06, PREMINE_ADDRESS_07, PREMINE_ADDRESS_08,
        PREMINE_ADDRESS_09, PREMINE_ADDRESS_10, PREMINE_ADDRESS_11, PREMINE_ADDRESS_12,
        PREMINE_ADDRESS_13, PREMINE_ADDRESS_14, PREMINE_ADDRESS_15, PREMINE_ADDRESS_16,
        PREMINE_ADDRESS_17, PREMINE_ADDRESS_18, PREMINE_ADDRESS_19, PREMINE_ADDRESS_20,
        PREMINE_ADDRESS_21, PREMINE_ADDRESS_22, PREMINE_ADDRESS_23, PREMINE_ADDRESS_24,
        PREMINE_ADDRESS_25, PREMINE_ADDRESS_26, PREMINE_ADDRESS_27, PREMINE_ADDRESS_28,
        PREMINE_ADDRESS_29, PREMINE_ADDRESS_30, PREMINE_ADDRESS_31, PREMINE_ADDRESS_32,
        PREMINE_ADDRESS_33, PREMINE_ADDRESS_34, PREMINE_ADDRESS_35, PREMINE_ADDRESS_36,
        PREMINE_ADDRESS_37, PREMINE_ADDRESS_38, PREMINE_ADDRESS_39, PREMINE_ADDRESS_40,
        PREMINE_ADDRESS_41, PREMINE_ADDRESS_42, PREMINE_ADDRESS_43, PREMINE_ADDRESS_44,
        PREMINE_ADDRESS_45, PREMINE_ADDRESS_46, PREMINE_ADDRESS_47, PREMINE_ADDRESS_48,
        PREMINE_ADDRESS_49, PREMINE_ADDRESS_50, PREMINE_ADDRESS_51, PREMINE_ADDRESS_52,
        PREMINE_ADDRESS_53, PREMINE_ADDRESS_54, PREMINE_ADDRESS_55, PREMINE_ADDRESS_56,
        PREMINE_ADDRESS_57, PREMINE_ADDRESS_58, PREMINE_ADDRESS_59, PREMINE_ADDRESS_60,
        PREMINE_ADDRESS_61, PREMINE_ADDRESS_62, PREMINE_ADDRESS_63, PREMINE_ADDRESS_64,
        PREMINE_ADDRESS_65, PREMINE_ADDRESS_66, PREMINE_ADDRESS_67, PREMINE_ADDRESS_68,
        PREMINE_ADDRESS_69, PREMINE_ADDRESS_70, PREMINE_ADDRESS_71, PREMINE_ADDRESS_72,
        PREMINE_ADDRESS_73, PREMINE_ADDRESS_74, PREMINE_ADDRESS_75, PREMINE_ADDRESS_76,
        PREMINE_ADDRESS_77, PREMINE_ADDRESS_78, PREMINE_ADDRESS_79,
        ];
        assert(coins@ =~= premine_coins());
        assert(addresses@ =~= premine_addresses());
        let mut dist: Vec<(PremineRecipient, NativeCurrencyAmount)> = Vec::new();
        let mut i: usize = 0;
        while i < 80
            invariant
                i <= 80,
                coins@ == premine_coins(),
                addresses@ == premine_addresses(),
                dist@.len() == i,
                forall|j: int|
                    0 <= j < i ==> (#[trigger] dist@[j]).0 == premine_recipient(j) && dist@[j].1
                        == premine_amount(j),
            decreases 80 - i,
        {
            proof {
                lemma_premine_prefix((i + 1) as nat);
                lemma_coins_of_first_nonnegative(i as nat);
            }
            let amount = NativeCurrencyAmount::coins(coins[i]);
            let recipient = if i == 0 {
                PremineRecipient::DevnetAuthority
            } else {
                PremineRecipient::Bech32m(addresses[i - 1])
            };
            dist.push((recipient, amount));
            i = i + 1;
        }
        dist
    }

    /// The outputs of the premine: one for each recipient, locked until six months after launch.
    pub fn premine_utxos(network: &Network, receivers: &Vec<PremineReceiver>) -> (utxos: Vec<Utxo>)
        requires
            receivers@.len() == NUM_PREMINE_RECIPIENTS,
        ensures
            utxo_views(utxos@) == spec_premine_utxos(*network, receivers@),
    {
        let distribution = Block::premine_distribution();
        let until = network.launch_date.plus(Timestamp::from_millis(PREMINE_TIME_LOCK_PERIOD));
        let ghost expected = spec_premine_utxos(*network, receivers@);
        let mut utxos: Vec<Utxo> = Vec::new();
        let mut i: usize = 0;
        while i < distribution.len()
            invariant
                i <= distribution@.len() == NUM_PREMINE_RECIPIENTS == receivers@.len(),
                forall|j: int|
                    0 <= j < NUM_PREMINE_RECIPIENTS ==> (#[trigger] distribution@[j]).1
                        == premine_amount(j),
                until == network.launch_date.spec_plus(
                    Timestamp { millis: PREMINE_TIME_LOCK_PERIOD },
                ),
                expected == spec_premine_utxos(*network, receivers@),
                utxos@.len() == i,
                forall|j: int| 0 <= j < i ==> (#[trigger] utxos@[j])@ == expected[j],
            decreases distribution@.len() - i,
        {
            utxos.push(
                Utxo::new_time_locked(receivers[i].lock_script_hash, distribution[i].1, until),
            );
            i = i + 1;
        }
        assert(utxo_views(utxos@) =~= expected);
        utxos
    }

    /// The outputs of the genesis block's transaction, in the order in which they enter the
    /// mutator set.
    pub fn genesis_outputs(
        network: &Network,
        receivers: &Vec<PremineReceiver>,
        scripts: &TypeScriptHashes,
    ) -> (outputs: Vec<AdditionRecord>)
        requires
            receivers@.len() == NUM_PREMINE_RECIPIENTS,
        ensures
            outputs@ == spec_genesis_outputs(*network, receivers@, *scripts),
    {
        let utxos = Block::premine_utxos(network, receivers);
        let bad_randomness = Block::premine_sender_randomness(network);
        let ghost views = spec_premine_utxos(*network, receivers@);
        let ghost expected = spec_genesis_outputs(*network, receivers@, *scripts);
        let mut outputs: Vec<AdditionRecord> = Vec::new();
        let mut i: usize = 0;
        assert(utxos@.len() == views.len());
        while i < utxos.len()
            invariant
                i <= utxos@.len() == NUM_PREMINE_RECIPIENTS == receivers@.len(),
                views == utxo_views(utxos@),
                views == spec_premine_utxos(*network, receivers@),
                bad_randomness == sender_randomness(*network),
                expected == spec_genesis_outputs(*network, receivers@, *scripts),
                outputs@.len() == i,
                forall|j: int| 0 <= j < i ==> #[trigger] outputs@[j] == expected[j],
            decreases utxos@.len() - i,
        {
            assert(views[i as int] == utxos@[i as int]@);
            let utxo_digest = hash_utxo(&utxos[i], scripts);
            outputs.push(commit(&utxo_digest, &bad_randomness, &receivers[i].privacy_digest));
            i = i + 1;
        }
        assert(outputs@ =~= expected);
        outputs
    }

    /// The genesis block.
    ///
    /// The mutator set of the body is the one that results from adding the
    /// [outputs](Block::genesis_outputs) to the empty mutator set.
    pub fn genesis(
        network: &Network,
        receivers: &Vec<PremineReceiver>,
        scripts: &TypeScriptHashes,
        empty_mutator_set: &MutatorSetAccumulator,
        mutator_set_accumulator: MutatorSetAccumulator,
    ) -> (b: Block)
        requires
            receivers@.len() == NUM_PREMINE_RECIPIENTS,
        ensures
            b.spec_header() == BlockHeader::spec_genesis(*network),
            b.spec_proof() is Genesis,
            b.spec_appendix().claims@.len() == 0,
            b.spec_body().mutator_set_accumulator == mutator_set_accumulator,
            b.spec_body().block_mmr_accumulator@.leaf_count == 0,
            b.spec_body().block_mmr_accumulator@.peaks.len() == 0,
            b.spec_body().block_mmr_accumulator@.consistent(),
            b.spec_body().lock_free_mmr_accumulator@.leaf_count == 0,
            b.spec_body().lock_free_mmr_accumulator@.peaks.len() == 0,
            ({
                let kernel = b.spec_body().transaction_kernel;
                &&& kernel.inputs@.len() == 0
                &&& kernel.outputs@ == spec_genesis_outputs(*network, receivers@, *scripts)
                &&& kernel.public_announcements@.len() == 0
                &&& kernel.fee.nau == 0
                &&& kernel.coinbase == Some(
                    NativeCurrencyAmount { nau: (PREMINE_COINS * NAU_PER_COIN) as i128 },
                )
                &&& kernel.timestamp == network.launch_date
                &&& kernel.mutator_set_hash == empty_mutator_set@.digest
                &&& !kernel.merge_bit
            }),
            !b.spec_remembers(),
    {
        let distribution = Block::premine_distribution();
        let mut total: i128 = 0;
        let mut i: usize = 0;
        while i < distribution.len()
            invariant
                i <= distribution@.len() == NUM_PREMINE_RECIPIENTS,
                forall|j: int|
                    0 <= j < NUM_PREMINE_RECIPIENTS ==> (#[trigger] distribution@[j]).1
                        == premine_amount(j),
                total == coins_of_first(i as nat) * NAU_PER_COIN,
            decreases distribution@.len() - i,
        {
            proof {
                let next = premine_coins()[i as int] as int;
                let before = coins_of_first(i as nat);
                assert(coins_of_first((i + 1) as nat) == before + next);
                lemma_premine_prefix((i + 1) as nat);
                lemma_coins_of_first_nonnegative(i as nat);
                assert(distribution@[i as int].1 == premine_amount(i as int));
                assert(before * NAU_PER_COIN + next * NAU_PER_COIN == (before + next)
                    * NAU_PER_COIN) by (nonlinear_arith);
            }
            total = total + distribution[i].1.nau;
            i = i + 1;
        }
        proof {
            lemma_premine_size();
        }
        let outputs = Block::genesis_outputs(network, receivers, scripts);
        let transaction_kernel = TransactionKernel {
            inputs: Vec::new(),
            outputs,
            public_announcements: Vec::new(),
            fee: NativeCurrencyAmount::zero(),
            coinbase: Some(NativeCurrencyAmount::from_nau(total)),
            timestamp: network.launch_date,
            mutator_set_hash: empty_mutator_set.hash(),
            merge_bit: false,
        };
        let body = BlockBody {
            transaction_kernel,
            mutator_set_accumulator,
            lock_free_mmr_accumulator: MmrAccumulator::new(),
            block_mmr_accumulator: MmrAccumulator::new(),
        };
        Block::new(BlockHeader::genesis(network), body, BlockAppendix::empty(), BlockProof::Genesis)
    }
}

} // verus!
