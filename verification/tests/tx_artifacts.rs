use neptune::difficulty::Difficulty;
use neptune::network::Network;
use neptune::timestamp::Timestamp;
use neptune::tx_artifacts::{CreateTxError, TxCreationArtifactsBuilder};
use std::sync::Arc;

fn network() -> Network {
    Network {
        id: 1,
        launch_date: Timestamp::from_millis(0),
        minimum_block_time: Timestamp::seconds(60),
        target_block_interval: Timestamp::minutes(10),
        genesis_difficulty: Difficulty::from_u32(1),
        difficulty_reset_interval: None,
        performs_automated_mining: false,
    }
}

#[test]
fn artifacts_need_all_three_parts() {
    let builder = || TxCreationArtifactsBuilder::<String, u64>::new();
    let missing = |r: Result<_, CreateTxError>| matches!(r.map(|_| ()), Err(CreateTxError::MissingRequirement));
    assert!(missing(builder().build().map(|_| ())));
    assert!(missing(builder().network(network()).build().map(|_| ())));
    assert!(missing(
        builder().transaction(5).network(network()).build().map(|_| ())
    ));
    assert!(missing(
        builder().transaction_details("d".to_string()).network(network()).build().map(|_| ())
    ));
    assert!(missing(
        builder().transaction_details("d".to_string()).transaction(5).build().map(|_| ())
    ));
    let details = Arc::new("details".to_string());
    let artifacts = builder()
        .transaction(5)
        .network(network())
        .transaction(6)
        .transaction_details(details.clone())
        .build()
        .unwrap();
    assert_eq!(6, *artifacts.transaction);
    assert!(Arc::ptr_eq(&details, &artifacts.details));
    assert_eq!(network(), artifacts.network);
}

#[test]
fn last_setter_wins_in_any_order() {
    let other = Network { id: 2, ..network() };
    let details = Arc::new("details".to_string());
    let builder = || TxCreationArtifactsBuilder::<String, u64>::default();
    let one = builder()
        .network(other)
        .transaction(1)
        .transaction_details(details.clone())
        .network(network())
        .transaction(2)
        .build()
        .unwrap();
    let two = builder()
        .network(network())
        .transaction_details(details.clone())
        .transaction(2)
        .build()
        .unwrap();
    assert_eq!(format!("{one:?}"), format!("{two:?}"));
    assert_eq!(1, one.network.id);
}
