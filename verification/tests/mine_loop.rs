use neptune::amount::NativeCurrencyAmount;
use neptune::block::rewards::hash_utxo;
use neptune::difficulty::Difficulty;
use neptune::digest::Digest;
use neptune::field::FIELD_MAX;
use neptune::height::BlockHeight;
use neptune::mine_loop::block_transaction::{
    create_block_transaction, make_coinbase_transaction, DevnetTransaction, PubScript,
};
use neptune::mine_loop::devnet_block::{
    decide_step, devnet_header_after, hash_devnet_body, hash_devnet_header, make_devnet_block_template, mine_step, DevnetBlockBody,
    DevnetBlockHeader, MineStep, Nonce, MOCK_DIFFICULTY, MOCK_MAX_BLOCK_SIZE,
};
use neptune::mine_loop::regtest::{
    is_expected_after_announcement, on_event, starts_worker, MainToMiner, MinerAction, MinerEvent,
};
use neptune::timestamp::Timestamp;
use neptune::transaction::{
    commit, AdditionRecord, MutatorSetAccumulator, RemovalRecord, TypeScriptHashes, Utxo,
};

fn digest(i: u64) -> Digest {
    Digest::new([i, i + 1, i + 2, i + 3, i + 4])
}

fn scripts() -> TypeScriptHashes {
    TypeScriptHashes { native_currency: digest(100), time_lock: digest(200) }
}

fn mutator_set(i: u64) -> MutatorSetAccumulator {
    MutatorSetAccumulator { digest: digest(i), encoding: vec![i, i, i] }
}

fn transaction(i: u64, fee: i128) -> DevnetTransaction {
    DevnetTransaction {
        inputs: vec![RemovalRecord { absolute_indices: vec![i as u128], target_chunks: vec![] }],
        outputs: vec![
            AdditionRecord { canonical_commitment: digest(i) },
            AdditionRecord { canonical_commitment: digest(i + 1) },
        ],
        pubscript_hashes_and_inputs: vec![PubScript { hash: digest(i), input: vec![i] }],
        fee: NativeCurrencyAmount::from_nau(fee),
        timestamp: Timestamp::from_millis(i),
    }
}

fn block_transaction(transactions: Vec<DevnetTransaction>) -> DevnetTransaction {
    create_block_transaction(
        transactions,
        digest(1),
        digest(2),
        BlockHeight::new(0),
        Timestamp::from_millis(50),
        &scripts(),
    )
}

fn genesis() -> (DevnetBlockHeader, DevnetBlockBody) {
    let body = DevnetBlockBody {
        transaction: transaction(0, 0),
        next_mutator_set_accumulator: mutator_set(1),
        previous_mutator_set_accumulator: mutator_set(0),
        stark_proof: vec![],
    };
    let header = DevnetBlockHeader {
        version: 0,
        height: BlockHeight::new(0),
        mutator_set_hash: digest(1),
        prev_block_digest: Digest::default(),
        timestamp: Timestamp::from_millis(0),
        nonce: Nonce::zero(),
        max_block_size: MOCK_MAX_BLOCK_SIZE,
        proof_of_work_line: Difficulty::from_u32(7),
        proof_of_work_family: Difficulty::from_u32(9),
        target_difficulty: Difficulty::from_u32(MOCK_DIFFICULTY),
        block_body_merkle_root: hash_devnet_body(&body),
        uncles: vec![],
    };
    (header, body)
}

fn template() -> (DevnetBlockHeader, DevnetBlockBody) {
    let (header, body) = genesis();
    make_devnet_block_template(
        &header,
        &body,
        block_transaction(vec![]),
        mutator_set(2),
        Timestamp::from_millis(1_000),
    )
}

#[test]
fn coinbase_pays_subsidy_and_fees() {
    let coinbase = make_coinbase_transaction(
        digest(1),
        digest(2),
        BlockHeight::new(0),
        NativeCurrencyAmount::coins(3),
        Timestamp::from_millis(50),
        &scripts(),
    );
    let utxo = Utxo::new_native_currency(digest(1), NativeCurrencyAmount::coins(131));
    let record = commit(&hash_utxo(&utxo, &scripts()), &Digest::default(), &digest(2));
    assert_eq!(vec![record], coinbase.outputs);
    assert!(coinbase.inputs.is_empty());
    assert!(coinbase.pubscript_hashes_and_inputs.is_empty());
    assert!(coinbase.fee.is_zero());
    assert_eq!(Timestamp::from_millis(50), coinbase.timestamp);
}

#[test]
fn block_template_is_valid_test() {
    // Verify the constructed coinbase transaction when there are no other transactions.
    let transaction_empty_mempool = block_transaction(vec![]);
    assert_eq!(
        1,
        transaction_empty_mempool.outputs.len(),
        "Coinbase transaction with empty mempool must have exactly one output"
    );
    assert!(
        transaction_empty_mempool.inputs.is_empty(),
        "Coinbase transaction with empty mempool must have zero inputs"
    );

    // With one transaction, whose fee is one coin.
    let one_coin = NativeCurrencyAmount::coins(1).nau;
    let transaction_non_empty_mempool = block_transaction(vec![transaction(40, one_coin)]);
    assert_eq!(
        3,
        transaction_non_empty_mempool.outputs.len(),
        "Transaction for block with non-empty mempool must contain coinbase output, send output, and change output"
    );
    assert_eq!(1, transaction_non_empty_mempool.inputs.len(), "Transaction for block with non-empty mempool must contain one input: the genesis UTXO being spent");
    assert!(transaction_non_empty_mempool.fee.is_zero());
    let utxo = Utxo::new_native_currency(digest(1), NativeCurrencyAmount::coins(129));
    let record = commit(&hash_utxo(&utxo, &scripts()), &Digest::default(), &digest(2));
    assert_eq!(record, transaction_non_empty_mempool.outputs[0]);
    assert_ne!(record, transaction_empty_mempool.outputs[0]);
    assert_eq!(Timestamp::from_millis(50), transaction_non_empty_mempool.timestamp);
    assert_eq!(
        Timestamp::from_millis(60),
        block_transaction(vec![transaction(60, 1), transaction(55, 2)]).timestamp
    );
}

#[test]
fn transactions_merge_in_order() {
    let merged = transaction(1, 10).merge_with(transaction(5, 20));
    assert_eq!(30, merged.fee.nau);
    assert_eq!(Timestamp::from_millis(5), merged.timestamp);
    let outputs: Vec<_> = merged.outputs.iter().map(|r| r.canonical_commitment).collect();
    assert_eq!(vec![digest(1), digest(2), digest(5), digest(6)], outputs);
    assert_eq!(vec![1], merged.inputs[0].absolute_indices);
    assert_eq!(vec![5], merged.inputs[1].absolute_indices);
    assert_eq!(digest(5), merged.pubscript_hashes_and_inputs[1].hash);
}

#[test]
fn template_extends_the_previous_block() {
    let (previous, _) = genesis();
    let (header, body) = template();
    assert_eq!(0, header.version);
    assert_eq!(BlockHeight::new(1), header.height);
    assert_eq!(digest(2), header.mutator_set_hash);
    assert_eq!(hash_devnet_header(&previous), header.prev_block_digest);
    assert_eq!(Timestamp::from_millis(1_000), header.timestamp);
    assert_eq!(Nonce::zero(), header.nonce);
    assert_eq!(1_000_000, header.max_block_size);
    assert_eq!(Difficulty::from_u32(50_009), header.proof_of_work_line);
    assert_eq!(Difficulty::from_u32(50_009), header.proof_of_work_family);
    assert_eq!(Difficulty::from_u32(50_000), header.target_difficulty);
    assert_eq!(hash_devnet_body(&body), header.block_body_merkle_root);
    assert!(header.uncles.is_empty());
    assert_eq!(digest(2), body.next_mutator_set_accumulator.hash());
    assert_eq!(digest(1), body.previous_mutator_set_accumulator.hash());
    assert!(body.stark_proof.is_empty());
}

#[test]
fn header_after_another_takes_the_given_digests() {
    let (previous, _) = genesis();
    let header = devnet_header_after(
        &previous,
        digest(1),
        digest(2),
        digest(3),
        Timestamp::from_millis(4),
    );
    assert_eq!(digest(1), header.prev_block_digest);
    assert_eq!(digest(2), header.mutator_set_hash);
    assert_eq!(digest(3), header.block_body_merkle_root);
    assert_eq!(Timestamp::from_millis(4), header.timestamp);
    assert_eq!(Difficulty::from_u32(50_009), header.proof_of_work_family);
}

#[test]
fn nonces_count_like_an_odometer() {
    let max = FIELD_MAX;
    let next = |n0: u64, n1: u64, n2: u64| {
        let n = Nonce { n0, n1, n2 }.next();
        (n.n0, n.n1, n.n2)
    };
    assert_eq!((1, 2, 4), next(1, 2, 3));
    assert_eq!((1, 3, 0), next(1, 2, max));
    assert_eq!((2, 0, 0), next(1, max, max));
    assert_eq!((0, 0, 0), next(max, max, max));
}

#[test]
fn mining_finds_a_nonce() {
    let (mut header, _) = template();
    header.target_difficulty = Difficulty::from_u32(16);
    let mut steps = 0;
    loop {
        let before = header.nonce;
        match mine_step(&mut header, false, false) {
            MineStep::Found => break,
            MineStep::Continue => assert_eq!(before.next(), header.nonce),
            MineStep::Abandoned => panic!("nobody asked for it"),
        }
        steps += 1;
        assert!(steps < 10_000);
    }
    let digest = hash_devnet_header(&header).to_values();
    let target = header.target_difficulty.target().to_values();
    assert!(digest.iter().rev().lt(target.iter().rev()));
}

#[test]
fn mining_is_abandoned_when_asked_to() {
    let (mut header, _) = template();
    header.target_difficulty = Difficulty::new([0, 0, 0, 0, u32::MAX]);
    assert_eq!(MineStep::Abandoned, mine_step(&mut header, true, false));
    assert_eq!(MineStep::Abandoned, mine_step(&mut header, false, true));
    assert_eq!(Nonce::zero(), header.nonce);
    assert_eq!(MineStep::Continue, mine_step(&mut header, false, false));
    // Only every hundredth nonce gives way to syncing.
    assert_eq!(MineStep::Continue, mine_step(&mut header, false, true));
    assert_eq!(2, header.nonce.n2);
    header.nonce.n2 = 300;
    assert_eq!(MineStep::Abandoned, mine_step(&mut header, false, true));
}

#[test]
fn digests_must_be_below_the_target() {
    let difficulty = Difficulty::from_u32(50_000);
    let target = difficulty.target();
    let step = |digest: &Digest| decide_step(digest, &difficulty, &Nonce::zero(), false, false);
    assert_eq!(MineStep::Continue, step(&target));
    let mut values = target.to_values();
    values[0] -= 1;
    assert_eq!(MineStep::Found, step(&Digest::new(values)));
    // A solution counts even if nobody waits for it.
    assert_eq!(
        MineStep::Found,
        decide_step(&Digest::default(), &difficulty, &Nonce::zero(), true, true)
    );
}

#[test]
fn miner_reacts_to_events() {
    let on = |event| on_event(1, event, true);
    assert_eq!((1, MinerAction::Fail), on(MinerEvent::MainGone));
    assert_eq!((1, MinerAction::ShutDown), on(MinerEvent::Main(MainToMiner::Shutdown)));
    assert_eq!((2, MinerAction::Restart), on(MinerEvent::Main(MainToMiner::NewBlock(2))));
    assert_eq!((1, MinerAction::Continue), on(MinerEvent::Main(MainToMiner::Empty)));
    assert_eq!(
        (1, MinerAction::Continue),
        on(MinerEvent::Main(MainToMiner::ReadyToMineNextBlock))
    );
    assert_eq!((1, MinerAction::Continue), on(MinerEvent::WorkerGone));
    assert_eq!((3, MinerAction::Announce), on(MinerEvent::Found(3)));
    assert!(starts_worker(false));
    assert!(!starts_worker(true));
    assert!(is_expected_after_announcement(&MainToMiner::<u8>::ReadyToMineNextBlock));
    assert!(!is_expected_after_announcement(&MainToMiner::NewBlock(1)));
}
