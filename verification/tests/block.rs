use neptune::amount::NativeCurrencyAmount;
use neptune::block::pow::{solves, DifficultyCorrection};
use neptune::block::premine::{PremineReceiver, PremineRecipient, NUM_PREMINE_RECIPIENTS};
use neptune::block::rewards::hash_utxo;
use neptune::block::validation::{
    validate_header, BlockValidationError, ConsensusContext, MutatorSetAnswers, FUTUREDATING_LIMIT,
};
use neptune::block::{Block, BlockAppendix, BlockBody, BlockHeader, BlockProof, Claim, Proof};
use neptune::difficulty::{Difficulty, ProofOfWork};
use neptune::digest::Digest;
use neptune::height::{BlockHeight, BLOCKS_PER_GENERATION};
use neptune::mmr::MmrAccumulator;
use neptune::network::Network;
use neptune::timestamp::Timestamp;
use neptune::transaction::{
    commit, AdditionRecord, Coin, MutatorSetAccumulator, PublicAnnouncement, RemovalRecord, TransactionKernel,
    TypeScriptHashes,
};
use twenty_first::prelude::{BFieldCodec, BFieldElement, MerkleTree, Tip5};

fn digest(i: u64) -> Digest {
    Digest::new([i, i + 1, i + 2, i + 3, i + 4])
}

fn network(id: u64) -> Network {
    Network {
        id,
        launch_date: Timestamp::from_millis(1_700_000_000_000),
        minimum_block_time: Timestamp::seconds(60),
        target_block_interval: Timestamp::minutes(10),
        genesis_difficulty: Difficulty::from_u32(1_000),
        difficulty_reset_interval: None,
        performs_automated_mining: true,
    }
}

fn scripts() -> TypeScriptHashes {
    TypeScriptHashes { native_currency: digest(100), time_lock: digest(200) }
}

fn receivers() -> Vec<PremineReceiver> {
    (0..NUM_PREMINE_RECIPIENTS as u64)
        .map(|i| PremineReceiver {
            lock_script_hash: digest(1_000 + i),
            privacy_digest: digest(2_000 + i),
        })
        .collect()
}

fn mutator_set(i: u64) -> MutatorSetAccumulator {
    MutatorSetAccumulator { digest: digest(i), encoding: vec![i, i, i] }
}

fn genesis(id: u64) -> Block {
    Block::genesis(&network(id), &receivers(), &scripts(), &mutator_set(0), mutator_set(1))
}

fn claim(i: u64) -> Claim {
    Claim { program_digest: digest(i), version: 0, input: vec![i], output: vec![] }
}

fn kernel(header: &BlockHeader) -> TransactionKernel {
    TransactionKernel {
        inputs: vec![RemovalRecord { absolute_indices: vec![1, 2, 3], target_chunks: vec![] }],
        outputs: vec![AdditionRecord { canonical_commitment: digest(5) }],
        public_announcements: vec![PublicAnnouncement { message: vec![42] }],
        fee: NativeCurrencyAmount::from_nau(1337),
        coinbase: Some(NativeCurrencyAmount::coins(128)),
        timestamp: header.timestamp,
        mutator_set_hash: digest(1),
        merge_bit: true,
    }
}

/// A header, a body, an appendix and a proof that make a valid successor of a block, one target
/// block interval later.
fn parts(previous: &Block, network: &Network) -> (BlockHeader, BlockBody, BlockAppendix, BlockProof) {
    let parent = previous.header();
    let header = BlockHeader {
        version: 0,
        height: parent.height.next(),
        prev_block_digest: previous.hash(),
        timestamp: parent.timestamp.plus(network.target_block_interval),
        nonce: Digest::default(),
        cumulative_proof_of_work: parent.cumulative_proof_of_work.plus(&parent.difficulty).unwrap(),
        difficulty: Difficulty::from_u32(2_000),
        guesser_digest: digest(77),
    };
    let body = BlockBody {
        transaction_kernel: kernel(&header),
        mutator_set_accumulator: mutator_set(2),
        lock_free_mmr_accumulator: MmrAccumulator::new(),
        block_mmr_accumulator: previous.body().block_mmr_accumulator.appended(&previous.hash()),
    };
    let appendix = BlockAppendix { claims: vec![claim(1), claim(2)] };
    (header, body, appendix, BlockProof::SingleProof(Proof { elements: vec![1, 2, 3] }))
}

fn context() -> ConsensusContext {
    ConsensusContext {
        controlled_difficulty: Difficulty::from_u32(2_000),
        required_claims: vec![claim(2)],
        max_num_claims: 2,
    }
}

fn answers() -> MutatorSetAnswers {
    MutatorSetAnswers { can_remove: vec![true], digest_after: Some(digest(2)) }
}

fn successor(previous: &Block, network: &Network) -> Block {
    let (header, body, appendix, proof) = parts(previous, network);
    Block::new(header, body, appendix, proof)
}

fn verdict(block: &Block, previous: &Block, network: &Network) -> Result<(), BlockValidationError> {
    let now = block.header().timestamp;
    block.validate(previous, now, network, &context(), true, &answers())
}

#[test]
fn block_subsidy_generation_0() {
    let block_height_generation_0 = BlockHeight::new(199);
    assert_eq!(
        NativeCurrencyAmount::coins(128),
        Block::block_subsidy(block_height_generation_0)
    );
}

#[test]
fn block_subsidy_is_halved_every_generation() {
    let at = |generation: u64| Block::block_subsidy(BlockHeight::new(generation * BLOCKS_PER_GENERATION));
    assert_eq!(NativeCurrencyAmount::coins(64), at(1));
    assert_eq!(NativeCurrencyAmount::coins(1), at(7));
    assert_eq!(2_000_000_000_000_000_000_000_000_000_000, at(8).nau);
    assert!(at(109).is_zero());
    assert!(Block::block_subsidy(BlockHeight::new(u64::MAX)).is_zero());
    let last = BLOCKS_PER_GENERATION - 1;
    assert_eq!(NativeCurrencyAmount::coins(128), Block::block_subsidy(BlockHeight::new(last)));
}

#[test]
fn supply_approaches_42_million_coins() {
    let per_generation = |g: u64| {
        let height = BlockHeight::new(g * BLOCKS_PER_GENERATION);
        Block::block_subsidy(height).nau * i128::from(BLOCKS_PER_GENERATION)
    };
    let subsidies: i128 = (0..110).map(per_generation).sum::<i128>()
        - NativeCurrencyAmount::coins(128).nau;
    let total = subsidies + NativeCurrencyAmount::coins(831_488).nau;
    let cap = NativeCurrencyAmount::coins(42_000_000).nau;
    assert!(total <= cap);
    assert!(cap - total < NativeCurrencyAmount::coins(1).nau);
}

#[test]
fn test_premine_size() {
    // 831488 = 42000000 * 0.01979733
    // where 42000000 is the asymptotical limit of the token supply
    // and 0.01979733...% is the relative size of the premine
    let asymptotic_total_cap = NativeCurrencyAmount::coins(42_000_000);
    let premine_max_size = NativeCurrencyAmount::coins(831_488);
    let total_premine = Block::premine_distribution()
        .iter()
        .map(|(_receiving_address, amount)| amount.nau)
        .sum::<i128>();

    assert_eq!(total_premine, premine_max_size.nau);
    assert!(
        premine_max_size.nau as f64 / (asymptotic_total_cap.nau as f64) < 0.0198f64,
        "Premine must be less than or equal to promised"
    )
}

#[test]
fn premine_distribution_does_not_crash() {
    let distribution = Block::premine_distribution();
    assert_eq!(80, distribution.len());
    assert!(matches!(distribution[0].0, PremineRecipient::DevnetAuthority));
    assert_eq!(NativeCurrencyAmount::coins(20), distribution[0].1);
    let mut addresses = vec![];
    for (recipient, _) in &distribution[1..] {
        match recipient {
            PremineRecipient::Bech32m(address) => {
                assert!(address.starts_with("nolgam1"));
                addresses.push(*address);
            }
            PremineRecipient::DevnetAuthority => panic!("only the first is the authority"),
        }
    }
    assert!(addresses[0].starts_with("nolgam1lf8vc5xpa4jf9vjakts632fct5q80d4m6tax39nrl8c55dta2h7n7"));
    assert!(addresses[78].ends_with("xfpxczpecj4yuv3c90y7ld5k3xq7khjrp6t7c"));
    addresses.sort();
    addresses.dedup();
    assert_eq!(79, addresses.len());
    assert_eq!(NativeCurrencyAmount::coins(228_306), distribution[75].1);
    assert_eq!(NativeCurrencyAmount::coins(600), distribution[79].1);
}

#[test]
fn premine_is_locked_for_six_months() {
    let network = network(0);
    let utxos = Block::premine_utxos(&network, &receivers());
    assert_eq!(80, utxos.len());
    assert_eq!(digest(1_000), utxos[0].lock_script_hash);
    assert_eq!(
        vec![
            Coin::NativeCurrency(NativeCurrencyAmount::coins(20)),
            Coin::TimeLock(network.launch_date.plus(Timestamp::months(6))),
        ],
        utxos[0].coins
    );
}

#[test]
fn genesis_block_pays_out_the_premine() {
    let network = network(3);
    let block = genesis(3);
    let kernel = &block.body().transaction_kernel;
    assert_eq!(NativeCurrencyAmount::coins(831_488), block.coinbase_amount());
    assert_eq!(80, kernel.outputs.len());
    assert!(kernel.inputs.is_empty());
    assert!(kernel.fee.is_zero());
    assert_eq!(digest(0), kernel.mutator_set_hash);
    assert_eq!(digest(1), block.body().mutator_set_accumulator.hash());
    assert_eq!(network.launch_date, block.header().timestamp);
    assert!(block.header().height.is_genesis());
    assert!(matches!(block.block_proof(), BlockProof::Genesis));
    assert_eq!(0, block.appendix().len());

    let utxos = Block::premine_utxos(&network, &receivers());
    let randomness = Block::premine_sender_randomness(&network);
    assert_eq!([3, 0, 0, 0, 0], randomness.to_values());
    let record = commit(&hash_utxo(&utxos[7], &scripts()), &randomness, &digest(2_007));
    assert_eq!(record, kernel.outputs[7]);
}

#[test]
fn all_genesis_blocks_differ_in_all_outputs() {
    for (a, b) in [(0, 1), (1, 2), (0, 2)] {
        let (a, b) = (genesis(a), genesis(b));
        assert_ne!(a.hash(), b.hash());
        let outputs = |block: &Block| block.body().transaction_kernel.outputs.clone();
        assert!(outputs(&a).iter().zip(outputs(&b)).all(|(x, y)| *x != y));
    }
}

// Verify that cloning and modifying does not change the original.
#[test]
fn clone_and_modify() {
    let gblock = genesis(2);
    let g_hash = gblock.hash();

    let mut g2 = gblock.clone();
    assert_eq!(gblock.hash(), g_hash);
    assert_eq!(gblock.hash(), g2.hash());

    g2.set_header_nonce(Digest::new([1u64, 1u64, 1u64, 1u64, 1u64]));
    assert_ne!(gblock.hash(), g2.hash());
    assert_eq!(gblock.hash(), g_hash);
}

// Verify that the digest is correct after Block::new().
#[test]
fn new() {
    let gblock = genesis(2);
    let g2 = gblock.clone();

    let block = Block::new(
        *g2.header(),
        g2.body().clone(),
        g2.appendix().clone(),
        g2.block_proof().clone(),
    );
    assert_eq!(gblock.hash(), block.hash());
}

// Verify that the digest changes after the nonce is updated.
#[test]
fn set_header_nonce() {
    let gblock = genesis(2);

    let mut new_block = gblock.clone();
    new_block.set_header_nonce(digest(8_472_993));
    assert_ne!(gblock.hash(), new_block.hash());
}

// Verify that set_block() copies the source digest.
#[test]
fn set_block() {
    let gblock = genesis(2);

    let mut unique_block = gblock.clone();
    unique_block.set_header_nonce(digest(8_472_993));

    let mut block = gblock.clone();
    block.set_block(unique_block.clone());

    assert_eq!(unique_block.hash(), block.hash());
    assert_ne!(unique_block.hash(), gblock.hash());
}

#[test]
fn digest_is_current_after_every_change() {
    let mut block = genesis(2);
    let mut seen = vec![block.memoized_hash()];
    assert_eq!(seen[0], block.hash());
    block.set_header_guesser_digest(digest(9));
    seen.push(block.memoized_hash());
    block.set_header_timestamp_and_difficulty(Timestamp::from_millis(5), Difficulty::from_u32(6));
    seen.push(block.memoized_hash());
    block.set_header_nonce(digest(10));
    seen.push(block.memoized_hash());
    assert_eq!(digest(9), block.header().guesser_digest);
    assert_eq!(Timestamp::from_millis(5), block.header().timestamp);
    assert_eq!(Difficulty::from_u32(6), block.header().difficulty);
    let fresh = Block::new(
        *block.header(),
        block.body().clone(),
        block.appendix().clone(),
        BlockProof::default(),
    );
    assert_eq!(fresh.hash(), block.hash());
    // The proof does not enter the digest, and neither does what is remembered.
    assert!(fresh == block);
    for i in 0..seen.len() {
        for j in 0..i {
            assert_ne!(seen[i], seen[j]);
        }
    }
}

#[test]
fn header_digest_is_a_merkle_root() {
    let block = genesis(2);
    let h = block.header();
    let bfes = |values: &[u64]| values.iter().map(|v| BFieldElement::new(*v)).collect::<Vec<_>>();
    let leaf = |values: &[u64]| Tip5::hash_varlen(&bfes(values));
    let leafs = vec![
        leaf(&[0]),
        leaf(&[0]),
        leaf(&[0; 5]),
        leaf(&[h.timestamp.millis]),
        leaf(&[0; 5]),
        leaf(&[0; 6]),
        leaf(&[1_000, 0, 0, 0, 0]),
        leaf(&[0; 5]),
    ];
    let root = MerkleTree::sequential_frugal_root(&leafs).unwrap();
    assert_eq!(
        root.values().map(|e| e.value()),
        neptune::block::mast::hash_header(h).to_values()
    );
}

#[test]
fn size_counts_field_elements() {
    let network = network(0);
    let genesis = genesis(0);
    let (header, body, appendix, proof) = parts(&genesis, &network);
    let block = Block::new(header, body.clone(), appendix.clone(), proof);
    let mut body = body;
    body.transaction_kernel.public_announcements[0].message.extend([1; 10]);
    let longer = Block::new(header, body, appendix, block.block_proof().clone());
    assert_eq!(block.size() + 10, longer.size());
}

#[test]
fn templates_carry_the_proof_they_are_given() {
    let network = network(0);
    let genesis = genesis(0);
    let (header, body, appendix, _) = parts(&genesis, &network);
    let template = Block::block_template_invalid_proof(header, body.clone());
    assert!(matches!(template.block_proof(), BlockProof::Invalid));
    assert_eq!(0, template.appendix().len());
    let proof = Proof { elements: vec![9, 9] };
    let composed =
        Block::compose::<String>(header, body.clone(), appendix.clone(), true, Ok(proof))
            .unwrap();
    match composed.block_proof() {
        BlockProof::SingleProof(proof) => assert_eq!(vec![9, 9], proof.elements),
        _ => panic!("composed blocks have a proof"),
    }
    assert_eq!(2, composed.appendix().len());
    let failed = Block::compose(header, body, appendix, true, Err("out of memory".to_string()));
    assert_eq!("out of memory", failed.unwrap_err());
}

#[test]
fn composed_block_is_valid() {
    let network = network(0);
    let genesis = genesis(0);
    let timestamp = genesis.header().timestamp.plus(network.target_block_interval);
    let header = Block::template_header(&genesis, timestamp, Difficulty::from_u32(2_000));
    assert_eq!(Digest::default(), header.nonce);
    assert_eq!(Digest::default(), header.guesser_digest);
    let body = Block::template_body(&genesis, kernel(&header), mutator_set(2));
    assert_eq!(1, body.block_mmr_accumulator.leaf_count);
    let appendix = BlockAppendix { claims: vec![claim(2)] };
    let proof = Proof { elements: vec![1] };
    let block = Block::compose::<String>(header, body, appendix, true, Ok(proof)).unwrap();
    assert_eq!(Ok(()), verdict(&block, &genesis, &network));
}

#[test]
fn valid_block_is_valid() {
    let network = network(0);
    let genesis = genesis(0);
    let block = successor(&genesis, &network);
    assert_eq!(Ok(()), verdict(&block, &genesis, &network));
    let now = block.header().timestamp;
    assert!(block.is_valid(&genesis, now, &network, &context(), true, &answers()));
    assert!(!block.is_valid(&genesis, now, &network, &context(), false, &answers()));
    // And so is its own successor.
    let next = successor(&block, &network);
    assert_eq!(Ok(()), verdict(&next, &block, &network));
    assert_eq!(2, next.body().block_mmr_accumulator.leaf_count);
}

#[test]
fn copies_are_judged_alike() {
    let network = network(0);
    let genesis = genesis(0);
    let valid = successor(&genesis, &network);
    let mut invalid = valid.clone();
    invalid.set_header_timestamp_and_difficulty(valid.header().timestamp, Difficulty::from_u32(1));
    for block in [valid, invalid] {
        let expected = verdict(&block, &genesis, &network);
        assert_eq!(expected, verdict(&block.clone(), &genesis.clone(), &network));
    }
}

#[test]
fn guessers_cannot_invalidate_blocks() {
    let network = network(0);
    let genesis = genesis(0);
    let mut block = successor(&genesis, &network);
    block.set_header_nonce(digest(123_456));
    block.set_header_guesser_digest(digest(654_321));
    assert_eq!(Ok(()), verdict(&block, &genesis, &network));
}

#[test]
fn block_with_far_future_timestamp_is_invalid() {
    let network = network(0);
    let genesis = genesis(0);
    let now = genesis.header().timestamp.plus(Timestamp::hours(2));
    let valid_at = |timestamp: Timestamp| {
        let mut block = successor(&genesis, &network);
        block.set_header_timestamp_and_difficulty(timestamp, Difficulty::from_u32(2_000));
        block.is_valid(&genesis, now, &network, &context(), true, &answers())
    };
    // 4 minutes in the future (is valid)
    assert!(valid_at(now.plus(Timestamp::minutes(4))));
    // 5 minutes - 1 sec in the future (is valid)
    assert!(valid_at(now.plus(Timestamp::minutes(5)).minus(Timestamp::seconds(1))));
    // 5 minutes in the future (not valid)
    assert!(!valid_at(now.plus(Timestamp::minutes(5))));
    // 5 minutes + 1 sec in the future (not valid)
    assert!(!valid_at(now.plus(Timestamp::minutes(5)).plus(Timestamp::seconds(1))));
    // 2 days in the future (not valid)
    assert!(!valid_at(now.plus(Timestamp::seconds(86400 * 2))));
    assert_eq!(300_000, FUTUREDATING_LIMIT);
}

#[test]
fn header_errors_are_told_apart() {
    let network = network(0);
    let genesis = genesis(0);
    let with_header = |change: &dyn Fn(&mut BlockHeader)| {
        let (mut header, body, appendix, proof) = parts(&genesis, &network);
        change(&mut header);
        verdict(&Block::new(header, body, appendix, proof), &genesis, &network)
    };
    assert_eq!(
        Err(BlockValidationError::BlockHeight),
        with_header(&|h| h.height = BlockHeight::new(2))
    );
    assert_eq!(
        Err(BlockValidationError::PrevBlockDigest),
        with_header(&|h| h.prev_block_digest = digest(0))
    );
    assert_eq!(
        Err(BlockValidationError::MinimumBlockTime),
        with_header(&|h| h.timestamp = genesis.header().timestamp.plus(Timestamp::seconds(59)))
    );
    assert_eq!(
        Err(BlockValidationError::Difficulty),
        with_header(&|h| h.difficulty = Difficulty::from_u32(1_999))
    );
    assert_eq!(
        Err(BlockValidationError::CumulativeProofOfWork),
        with_header(&|h| h.cumulative_proof_of_work = ProofOfWork::new([999, 0, 0, 0, 0, 0]))
    );
    // Of several errors, the first one is reported.
    assert_eq!(
        Err(BlockValidationError::BlockHeight),
        with_header(&|h| {
            h.height = BlockHeight::new(2);
            h.difficulty = Difficulty::from_u32(0);
        })
    );
}

#[test]
fn block_with_wrong_mmra_is_invalid() {
    let network = network(0);
    let genesis_block = genesis(0);
    let block1 = successor(&genesis_block, &network);

    let timestamp = block1.header().timestamp;
    let is_valid = |block: &Block| {
        block.is_valid(&genesis_block, timestamp, &network, &context(), true, &answers())
    };
    assert!(is_valid(&block1));

    let mutated_leaf = genesis_block.body().block_mmr_accumulator.appended(&digest(22255));

    let extra_leaf = block1.body().block_mmr_accumulator.appended(&block1.hash());

    let bad_new_mmrs = [MmrAccumulator::new(), mutated_leaf, extra_leaf];

    for bad_new_mmr in bad_new_mmrs {
        let (header, mut body, appendix, proof) = parts(&genesis_block, &network);
        body.block_mmr_accumulator = bad_new_mmr;
        let block = Block::new(header, body, appendix, proof);
        assert!(!is_valid(&block));
        assert_eq!(
            Err(BlockValidationError::BlockMmrUpdate),
            verdict(&block, &genesis_block, &network)
        );
    }
}

#[test]
fn appendix_and_proof_errors_are_told_apart() {
    let network = network(0);
    let genesis = genesis(0);
    let block = successor(&genesis, &network);
    let now = block.header().timestamp;
    let with_context = |context: ConsensusContext| {
        block.validate(&genesis, now, &network, &context, true, &answers())
    };
    assert_eq!(
        Err(BlockValidationError::AppendixMissingClaim),
        with_context(ConsensusContext { required_claims: vec![claim(1), claim(3)], ..context() })
    );
    assert_eq!(
        Err(BlockValidationError::AppendixTooLarge),
        with_context(ConsensusContext { max_num_claims: 1, ..context() })
    );
    let (header, body, appendix, _) = parts(&genesis, &network);
    let unproven = Block::new(header, body, appendix, BlockProof::Invalid);
    assert_eq!(Err(BlockValidationError::ProofQuality), verdict(&unproven, &genesis, &network));
    assert_eq!(
        Err(BlockValidationError::ProofValidity),
        block.validate(&genesis, now, &network, &context(), false, &answers())
    );
    assert_eq!(Ok(()), block.validate_before_proof(&genesis, now, &network, &context()));
    assert_eq!(Ok(()), block.validate_after_proof(&genesis, &answers()));
}

#[test]
fn mutator_set_errors_are_told_apart() {
    let network = network(0);
    let genesis = genesis(0);
    let block = successor(&genesis, &network);
    let now = block.header().timestamp;
    let with_answers = |can_remove: Vec<bool>, digest_after: Option<Digest>| {
        let answers = MutatorSetAnswers { can_remove, digest_after };
        block.validate(&genesis, now, &network, &context(), true, &answers)
    };
    assert_eq!(
        Err(BlockValidationError::RemovalRecordsValid),
        with_answers(vec![false], Some(digest(2)))
    );
    assert_eq!(
        Err(BlockValidationError::MutatorSetUpdatePossible),
        with_answers(vec![true], None)
    );
    assert_eq!(
        Err(BlockValidationError::MutatorSetUpdateIntegral),
        with_answers(vec![true], Some(digest(3)))
    );
    let (header, mut body, appendix, proof) = parts(&genesis, &network);
    let double = body.transaction_kernel.inputs[0].clone();
    body.transaction_kernel.inputs.push(double);
    let doubled = Block::new(header, body, appendix, proof);
    let check_doubled = |can_remove: Vec<bool>| {
        let answers = MutatorSetAnswers { can_remove, digest_after: Some(digest(2)) };
        doubled.validate(&genesis, now, &network, &context(), true, &answers)
    };
    assert_eq!(Err(BlockValidationError::RemovalRecordsUnique), check_doubled(vec![true, true]));
    // Every input needs an answer.
    assert_eq!(Err(BlockValidationError::RemovalRecordsValid), check_doubled(vec![true]));
    assert_eq!(Err(BlockValidationError::RemovalRecordsValid), check_doubled(vec![]));
    assert_eq!(Err(BlockValidationError::RemovalRecordsValid), check_doubled(vec![true; 3]));
}

#[test]
fn transaction_errors_are_told_apart() {
    let network = network(0);
    let genesis = genesis(0);
    let with_kernel = |change: &dyn Fn(&mut TransactionKernel)| {
        let (header, mut body, appendix, proof) = parts(&genesis, &network);
        change(&mut body.transaction_kernel);
        verdict(&Block::new(header, body, appendix, proof), &genesis, &network)
    };
    assert_eq!(
        Err(BlockValidationError::TransactionTimestamp),
        with_kernel(&|k| k.timestamp = k.timestamp.plus(Timestamp::from_millis(1)))
    );
    let too_much = NativeCurrencyAmount::from_nau(NativeCurrencyAmount::coins(128).nau + 1);
    assert_eq!(
        Err(BlockValidationError::CoinbaseTooBig),
        with_kernel(&|k| k.coinbase = Some(too_much))
    );
    assert_eq!(
        Err(BlockValidationError::CoinbaseTooSmall),
        with_kernel(&|k| k.coinbase = Some(NativeCurrencyAmount::from_nau(-1)))
    );
    assert_eq!(
        Err(BlockValidationError::NegativeFee),
        with_kernel(&|k| k.fee = NativeCurrencyAmount::from_nau(-1))
    );
    assert_eq!(Ok(()), with_kernel(&|k| k.coinbase = None));
}

/// A predecessor of the given height.
fn predecessor(height: u64) -> Block {
    let genesis = genesis(0);
    let mut header = *genesis.header();
    header.height = BlockHeight::new(height);
    Block::new(
        header,
        genesis.body().clone(),
        genesis.appendix().clone(),
        BlockProof::Genesis,
    )
}

#[test]
fn sizes_are_limited_by_height() {
    let network = network(0);
    let with_announcement = |height: u64, len: usize| {
        let previous = predecessor(height - 1);
        let (header, mut body, appendix, proof) = parts(&previous, &network);
        body.transaction_kernel.public_announcements[0].message = vec![0; len];
        verdict(&Block::new(header, body, appendix, proof), &previous, &network)
    };
    assert_eq!(Ok(()), with_announcement(5_999, 240_000));
    assert_eq!(Err(BlockValidationError::MaxSize), with_announcement(5_999, 250_000));
    assert_eq!(Ok(()), with_announcement(6_000, 250_000));
    assert_eq!(Err(BlockValidationError::MaxSize), with_announcement(6_000, 1_000_000));
}

#[test]
fn counts_are_limited_since_the_fork() {
    let network = network(0);
    let with_kernel = |height: u64, change: &dyn Fn(&mut TransactionKernel)| {
        let previous = predecessor(height - 1);
        let (header, mut body, appendix, proof) = parts(&previous, &network);
        change(&mut body.transaction_kernel);
        let block = Block::new(header, body, appendix, proof);
        let can_remove = vec![true; block.body().transaction_kernel.inputs.len()];
        let answers = MutatorSetAnswers { can_remove, digest_after: Some(digest(2)) };
        let now = block.header().timestamp;
        block.validate(&previous, now, &network, &context(), true, &answers)
    };
    let output = AdditionRecord { canonical_commitment: digest(5) };
    let limit = 16_384;
    assert_eq!(Ok(()), with_kernel(6_000, &|k| k.outputs = vec![output; limit]));
    assert_eq!(Ok(()), with_kernel(5_999, &|k| k.outputs = vec![output; limit + 1]));
    assert_eq!(
        Err(BlockValidationError::TooManyOutputs),
        with_kernel(6_000, &|k| k.outputs = vec![output; limit + 1])
    );
    assert_eq!(
        Err(BlockValidationError::TooManyPublicAnnouncements),
        with_kernel(6_000, &|k| {
            k.public_announcements =
                (0..limit + 1).map(|_| PublicAnnouncement { message: vec![] }).collect()
        })
    );
    assert_eq!(
        Err(BlockValidationError::TooManyInputs),
        with_kernel(6_000, &|k| {
            k.inputs = (0..limit as u128 + 1)
                .map(|i| RemovalRecord { absolute_indices: vec![i], target_chunks: vec![] })
                .collect()
        })
    );
}

#[test]
fn negative_fee_of_the_predecessor_is_found_out() {
    let network = network(0);
    let genesis = genesis(0);
    let (header, mut body, appendix, proof) = parts(&genesis, &network);
    body.transaction_kernel.fee = NativeCurrencyAmount::from_nau(-1);
    let previous = Block::new(header, body, appendix, proof);
    let block = successor(&previous, &network);
    assert_eq!(Err(BlockValidationError::NegativeFee), verdict(&block, &previous, &network));
    assert_eq!(Err(BlockValidationError::NegativeFee), previous.total_guesser_reward());
    assert!(previous.guesser_fee_utxos(digest(0)).is_err());
    assert!(previous.guesser_fee_addition_records(digest(0), &scripts()).is_err());
    assert!(previous.mutator_set_update(digest(0), &scripts()).is_err());
    assert!(previous.mutator_set_accumulator_after(digest(0), &scripts()).is_err());
}

#[test]
fn guesser_fee_utxos_split_the_fee() {
    let network = network(0);
    let genesis = genesis(0);
    assert!(
        genesis.guesser_fee_utxos(digest(0)).unwrap().is_empty(),
        "Genesis block has no guesser fee UTXOs"
    );
    let block = successor(&genesis, &network);
    let utxos = block.guesser_fee_utxos(digest(31)).unwrap();
    assert_eq!(2, utxos.len());
    assert!(utxos.iter().all(|u| u.lock_script_hash == digest(31)));
    let until = block.header().timestamp.plus(Timestamp::years(3));
    assert_eq!(
        vec![
            Coin::NativeCurrency(NativeCurrencyAmount::from_nau(668)),
            Coin::TimeLock(until)
        ],
        utxos[0].coins
    );
    assert_eq!(
        vec![Coin::NativeCurrency(NativeCurrencyAmount::from_nau(669))],
        utxos[1].coins
    );
    assert_eq!(NativeCurrencyAmount::from_nau(1337), block.total_guesser_reward().unwrap());
}

#[test]
fn guesser_fee_addition_records_are_consistent() {
    let network = network(0);
    let genesis_block = genesis(0);
    let block1 = successor(&genesis_block, &network);
    let lock = digest(31);
    let ars = block1.guesser_fee_addition_records(lock, &scripts()).unwrap();
    let ars_from_wallet = block1
        .guesser_fee_utxos(lock)
        .unwrap()
        .iter()
        .map(|utxo| {
            commit(&hash_utxo(utxo, &scripts()), &block1.hash(), &block1.header().guesser_digest)
        })
        .collect::<Vec<_>>();
    assert_eq!(ars, ars_from_wallet);
    assert_ne!(ars[0], ars[1]);

    let update = block1.mutator_set_update(lock, &scripts()).unwrap();
    assert!(
        ars.iter().all(|ar| update.additions.contains(ar)),
        "All addition records must be present in block's mutator set update"
    );
    assert_eq!(block1.body().transaction_kernel.outputs[0], update.additions[0]);
    assert_eq!(3, update.additions.len());
    assert_eq!(1, update.removals.len());
    assert_eq!(1, block1.transaction_update().additions.len());

    let (accumulator, update) = block1.mutator_set_accumulator_after(lock, &scripts()).unwrap();
    assert_eq!(digest(2), accumulator.hash());
    assert!(update.removals.is_empty());
    assert_eq!(ars, update.additions);
}

#[test]
fn utxo_digests_are_hashes_of_encodings() {
    let utxo = neptune::transaction::Utxo::new_time_locked(
        digest(31),
        NativeCurrencyAmount::from_nau(7),
        Timestamp::from_millis(9),
    );
    let mut code = vec![25, 2, 11, 5, 4, 7, 0, 0, 0];
    code.extend(digest(100).to_values());
    code.extend([8, 2, 1, 9]);
    code.extend(digest(200).to_values());
    code.extend(digest(31).to_values());
    code[0] = code.len() as u64 - 6;
    let bfes = code.iter().map(|v| BFieldElement::new(*v)).collect::<Vec<_>>();
    assert_eq!(
        Tip5::hash_varlen(&bfes).values().map(|e| e.value()),
        hash_utxo(&utxo, &scripts()).to_values()
    );
}

#[test]
fn difficulty_is_reset_after_the_interval() {
    let mut network = network(0);
    let start = network.launch_date;
    let later = |secs: u64| start.plus(Timestamp::seconds(secs));
    assert!(!Block::should_reset_difficulty(&network, later(1_000_000), start));
    network.difficulty_reset_interval = Some(Timestamp::seconds(600));
    assert!(!Block::should_reset_difficulty(&network, later(599), start));
    assert!(Block::should_reset_difficulty(&network, later(600), start));

    // A block that resets the difficulty must declare the genesis difficulty, and needs no
    // proof-of-work.
    let genesis = genesis(0);
    let block = successor(&genesis, &network);
    assert_eq!(Err(BlockValidationError::Difficulty), verdict(&block, &genesis, &network));
    let mut reset = block.clone();
    reset.set_header_timestamp_and_difficulty(block.header().timestamp, network.genesis_difficulty);
    assert_eq!(Ok(()), verdict(&reset, &genesis, &network));
    let mut hard = *genesis.header();
    hard.difficulty = Difficulty::new([0, 0, 0, 0, u32::MAX]);
    let correction = DifficultyCorrection { wait: 128, factor: 4 };
    assert!(reset.has_proof_of_work(&network, &hard, &correction));
    assert!(!block.has_proof_of_work(&network, &hard, &correction));
}

#[test]
fn proof_of_work_gets_easier_with_time() {
    let network = network(0);
    let genesis = genesis(0);
    let correction = DifficultyCorrection { wait: 128, factor: 4 };
    let block = successor(&genesis, &network);
    let mut easy = *genesis.header();
    easy.difficulty = Difficulty::from_u32(1);
    assert!(block.has_proof_of_work(&network, &easy, &correction));
    let mut hard = *genesis.header();
    hard.difficulty = Difficulty::new([0, 0, 0, 1, 0]);
    let after = |intervals: u64| {
        let mut late = block.clone();
        let wait = Timestamp::from_millis(network.target_block_interval.millis * intervals);
        late.set_header_timestamp_and_difficulty(
            hard.timestamp.plus(wait),
            Difficulty::from_u32(2_000),
        );
        late.has_proof_of_work(&network, &hard, &correction)
    };
    assert!(!after(1));
    assert!(!after(127));
    // Every 128 intervals, two more bits are cut off. After 48 times, nothing is left of 2^96.
    assert!(after(128 * 49));
}

#[test]
fn digest_that_equals_the_target_solves_the_puzzle() {
    let network = network(0);
    let correction = DifficultyCorrection { wait: 128, factor: 4 };
    let mut previous = *genesis(0).header();
    previous.difficulty = Difficulty::new([0, 0, 0, 1, 0]);
    let header_after = |intervals: u64| {
        let mut header = previous;
        let wait = network.target_block_interval.millis * intervals;
        header.timestamp = previous.timestamp.plus(Timestamp::from_millis(wait));
        header
    };
    let one_more = |d: Digest| {
        let mut values = d.to_values();
        values[0] += 1;
        Digest::new(values)
    };
    let solved = |digest: Digest, intervals: u64| {
        solves(&digest, &header_after(intervals), &network, &previous, &correction)
    };
    // 2^96, then a quarter of it, then a sixteenth.
    let targets = [
        Difficulty::new([0, 0, 0, 1, 0]).target(),
        Difficulty::new([0, 0, 1 << 30, 0, 0]).target(),
        Difficulty::new([0, 0, 1 << 28, 0, 0]).target(),
    ];
    assert!(solved(targets[0], 1));
    assert!(!solved(one_more(targets[0]), 127));
    assert!(!solved(targets[1], 127));
    assert!(solved(targets[1], 128));
    assert!(!solved(one_more(targets[1]), 255));
    assert!(solved(targets[2], 256));
    assert!(!solved(one_more(targets[2]), 256));
}

#[test]
fn headers_are_checked_against_given_digests() {
    let network = network(0);
    let genesis = genesis(0);
    let (header, body, _, _) = parts(&genesis, &network);
    let check = |digest: &Digest, mmr: &MmrAccumulator| {
        validate_header(
            &header,
            &body.block_mmr_accumulator,
            genesis.header(),
            digest,
            mmr,
            header.timestamp,
            &network,
            &context(),
        )
    };
    let mmr = genesis.body().block_mmr_accumulator.appended(&genesis.hash());
    assert_eq!(Ok(()), check(&genesis.hash(), &mmr));
    assert_eq!(Err(BlockValidationError::PrevBlockDigest), check(&digest(1), &mmr));
    assert_eq!(
        Err(BlockValidationError::BlockMmrUpdate),
        check(&genesis.hash(), &MmrAccumulator::new())
    );
}

#[test]
fn guesser_can_unlock_guesser_fee_utxo() {
    let genesis_block = genesis(0);
    let mut block = successor(&genesis_block, &network(0));
    assert_eq!(NativeCurrencyAmount::from_nau(1337), block.body().transaction_kernel.fee);

    let after_image = commit(&digest(1), &digest(2), &digest(3)).canonical_commitment;
    block.set_header_guesser_digest(after_image);

    // Stands for the hash of the script that asks for the preimage.
    let lock_script_hash = |d: Digest| commit(&d, &d, &d).canonical_commitment;
    let lock = lock_script_hash(block.header().guesser_digest);
    let guesser_fee_utxos = block.guesser_fee_utxos(lock).unwrap();
    assert!(guesser_fee_utxos
        .iter()
        .all(|guesser_fee_utxo| guesser_fee_utxo.lock_script_hash == lock_script_hash(after_image)));
}

#[test]
fn fork_choice_prefers_more_work_and_then_inputs() {
    let network = network(0);
    let genesis = genesis(0);
    let low = successor(&genesis, &network);
    let high = successor(&low, &network);
    assert!(*Block::fork_choice_rule(&low, &high) == high);
    assert!(*Block::fork_choice_rule(&high, &low) == high);

    // With different heights and the same work, the current tip stays.
    let (mut header, body, appendix, proof) = parts(&low, &network);
    header.cumulative_proof_of_work = low.header().cumulative_proof_of_work;
    let equal = Block::new(header, body, appendix, proof);
    assert!(*Block::fork_choice_rule(&low, &equal) == low);
    assert!(*Block::fork_choice_rule(&equal, &low) == equal);

    // With the same height, inputs count.
    let (header, mut body, appendix, proof) = parts(&genesis, &network);
    body.transaction_kernel.inputs.clear();
    let empty = Block::new(header, body, appendix, proof);
    assert!(*Block::fork_choice_rule(&low, &empty) == low);
    assert!(*Block::fork_choice_rule(&empty, &low) == low);
    let mut other = low.clone();
    other.set_header_nonce(digest(1));
    assert!(*Block::fork_choice_rule(&low, &other) == low);
    assert!(*Block::fork_choice_rule(&other, &low) == other);
    let mut other_empty = empty.clone();
    other_empty.set_header_nonce(digest(1));
    assert!(*Block::fork_choice_rule(&empty, &other_empty) == empty);
    assert!(*Block::fork_choice_rule(&other_empty, &empty) == other_empty);
}

// Verify that the block digest matches after a round trip of encoding and decoding.
#[test]
fn bfieldcodec_encode_and_decode() {
    let network = network(2);
    let gblock = genesis(2);
    let successor = successor(&gblock, &network);
    for block in [&gblock, &successor] {
        let encoded: Vec<u64> = block.encode();
        assert_eq!(block.size(), encoded.len());
        let decoded = Block::decode(&encoded, &block.body().mutator_set_accumulator.hash()).unwrap();

        assert!(*block == decoded);
        assert_eq!(block.hash(), decoded.hash());
        assert_eq!(encoded, decoded.encode());
        assert_eq!(format!("{:?}", block), format!("{:?}", decoded));
    }
}

#[test]
fn broken_encodings_are_not_decoded() {
    let block = successor(&genesis(2), &network(2));
    let encoded = block.encode();
    let digest = block.body().mutator_set_accumulator.hash();
    assert!(Block::decode(&vec![], &digest).is_none());
    for cut in [1, 2, 10, 100, encoded.len() - 1] {
        assert!(Block::decode(&encoded[..cut].to_vec(), &digest).is_none());
    }
    let mut longer = encoded.clone();
    longer.push(0);
    assert!(Block::decode(&longer, &digest).is_none());
    // The first element is the length of the proof, and the second one its kind.
    for (at, value) in [(0, u64::MAX), (0, 0), (1, 3), (2, 0), (3, 7)] {
        let mut broken = encoded.clone();
        broken[at] = value;
        assert!(Block::decode(&broken, &digest).is_none());
    }
}

#[test]
fn encodings_are_those_of_the_field_codec() {
    let bfe = BFieldElement::new;
    let values = |code: Vec<BFieldElement>| code.iter().map(|e| e.value()).collect::<Vec<u64>>();
    let leaf = |i: u64| Digest::new([i, 0, 0, 0, 0]);
    let outside_leaf = |i: u64| twenty_first::prelude::Digest::new([i, 0, 0, 0, 0].map(bfe));

    let mut mmr = MmrAccumulator::new();
    for i in 0..5 {
        mmr = mmr.appended(&leaf(i));
    }
    let outside = twenty_first::util_types::mmr::mmr_accumulator::MmrAccumulator::new_from_leafs(
        (0..5).map(outside_leaf).collect(),
    );
    assert_eq!(values(outside.encode()), neptune::block::codec::encode_mmr(&mmr));

    let appendix = BlockAppendix {
        claims: vec![
            Claim { program_digest: leaf(4), version: 1, input: vec![5, 6], output: vec![7] },
            Claim { program_digest: leaf(8), version: 2, input: vec![], output: vec![9, 10, 11] },
        ],
    };
    let program = |i: u64| outside_leaf(i).encode();
    let claim = |output: &[u64], input: &[u64], version: u32, digest: Vec<BFieldElement>| {
        let elements = |list: &[u64]| list.iter().map(|e| bfe(*e)).collect::<Vec<_>>();
        let output = values(elements(output).encode());
        let input = values(elements(input).encode());
        let mut code = vec![output.len() as u64];
        code.extend(output);
        code.push(input.len() as u64);
        code.extend(input);
        code.extend(values(version.encode()));
        code.extend(values(digest));
        code
    };
    let claims = [claim(&[7], &[5, 6], 1, program(4)), claim(&[9, 10, 11], &[], 2, program(8))];
    let code = neptune::block::codec::encode_appendix(&appendix);
    let mut expected = vec![29, 2];
    for claim in claims {
        expected.push(claim.len() as u64);
        expected.extend(claim);
    }
    assert_eq!(expected, code);
    assert_eq!(
        vec![
            29, 2, 13, 2, 1, 7, 3, 2, 5, 6, 1, 4, 0, 0, 0, 0, 13, 4, 3, 9, 10, 11, 1, 0, 2, 8, 0, 0,
            0, 0
        ],
        code
    );

    let amount = NativeCurrencyAmount::coins(3);
    assert_eq!(
        values((amount.nau as u128).encode()),
        neptune::block::codec::encode_amount(&amount)
    );
    assert_eq!(
        values(Some(amount.nau as u128).encode()),
        neptune::block::codec::encode_coinbase(&Some(amount))
    );
    assert_eq!(values(None::<u128>.encode()), neptune::block::codec::encode_coinbase(&None));
}

#[test]
fn observed_total_mining_reward_matches_block_subsidy() {
    // Data read from a node composing and guessing on test net. It composed and guessed block
    // number #115 and got four UTXOs, where the native currency type script recorded these states.
    // Those states must sum to the total block subsidy for generation 0, 128 coins.
    let state0 = vec![0u64, 980281920, 2521720867, 1615];
    let state1 = vec![0u64, 980281920, 2521720867, 1615];
    let state2 = vec![0u64, 981467136, 2521720867, 1615];
    let state3 = vec![0u64, 981467136, 2521720867, 1615];

    let mut total_amount = NativeCurrencyAmount::zero();
    for state in [state0, state1, state2, state3] {
        let amount = neptune::block::decode::elements::read_amount(&state, 0).unwrap().value;
        total_amount = total_amount.checked_add(&amount).unwrap();
    }

    assert_eq!(NativeCurrencyAmount::coins(128), total_amount);
}
