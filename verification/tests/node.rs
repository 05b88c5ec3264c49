use neptune::difficulty::Difficulty;
use neptune::network::Network;
use neptune::node::local_time::{utc_timestamp_to_localtime, MAX_MILLIS, MIN_MILLIS};
use neptune::node::lock_events::{
    lock_event_message, slow_lock_checks, slow_lock_kind, slow_lock_message, threshold_variable,
    LockAcquisition, LockEventFacts, LockEventReport, ReadOrWrite, SlowLockCheck,
};
use neptune::node::scope_duration::{scope_report, Level, Threshold};
use neptune::node::startup::{startup_plan, Bootstrap, StartupConfig, StartupError, StartupStep};
use neptune::node::thread_id::number_in;
use neptune::timestamp::Timestamp;

fn config() -> StartupConfig {
    StartupConfig {
        network: Network {
            id: 1,
            launch_date: Timestamp::from_millis(0),
            minimum_block_time: Timestamp::seconds(60),
            target_block_interval: Timestamp::minutes(10),
            genesis_difficulty: Difficulty::from_u32(1),
            difficulty_reset_interval: None,
            performs_automated_mining: false,
        },
        mine: false,
        bootstrap: None,
        own_listen_port: None,
        num_peers: 0,
        rpc_port: 9799,
    }
}

fn plan(config: &StartupConfig) -> Vec<String> {
    let steps = startup_plan(config).unwrap();
    steps.iter().map(|s: &StartupStep| format!("{:?}", s)).collect()
}

#[test]
fn minimal_startup() {
    assert_eq!(
        vec![
            "CreateDataDirectory",
            "LoadState",
            "RestoreMonitoredUtxos",
            "AcceptNoPeers",
            "StartRpcServer(9799)",
        ],
        plan(&config())
    );
}

#[test]
fn full_startup() {
    let mut config = config();
    config.network.performs_automated_mining = true;
    config.mine = true;
    config.bootstrap = Some(Bootstrap {
        directory: "blocks".to_string(),
        flush_period: 250,
        disable_block_validation: false,
    });
    config.own_listen_port = Some(9798);
    config.num_peers = 2;
    assert_eq!(
        vec![
            "CreateDataDirectory",
            "LoadState",
            "BootstrapFrom { directory: \"blocks\", flush_period: 250, validate_blocks: true }",
            "RestoreMonitoredUtxos",
            "ListenForPeers(9798)",
            "ConnectToPeer { index: 0, distance: 1 }",
            "ConnectToPeer { index: 1, distance: 1 }",
            "StartMiner",
            "StartRpcServer(9799)",
        ],
        plan(&config)
    );
}

#[test]
fn automatic_mining_must_be_supported() {
    let mut config = config();
    config.mine = true;
    assert_eq!(
        StartupError::AutomaticMiningNotSupported,
        startup_plan(&config).unwrap_err()
    );
    assert_eq!(
        "Automatic mining is not supported for network testnet.  Try again without --compose or --guess flags.",
        StartupError::AutomaticMiningNotSupported.message("testnet")
    );
}

#[test]
fn numbers_are_found_in_texts() {
    assert_eq!(Some(17), number_in("ThreadId(17)"));
    assert_eq!(Some(0), number_in("0"));
    assert_eq!(Some(1234), number_in("a1b2-3\u{e9}4"));
    assert_eq!(None, number_in("no digits"));
    assert_eq!(None, number_in(""));
    assert_eq!(Some(u64::MAX), number_in("18446744073709551615"));
    assert_eq!(None, number_in("18446744073709551616"));
    assert_eq!(None, number_in("99999999999999999999999"));
}

#[test]
fn local_time_keeps_the_point_in_time() {
    for millis in [0, 1_700_000_000_123, -1, MIN_MILLIS, MAX_MILLIS] {
        let t = utc_timestamp_to_localtime(millis).unwrap();
        assert_eq!(millis, t.utc_millis);
        assert!(t.offset_secs.abs() < 86_400);
    }
    assert!(utc_timestamp_to_localtime(MIN_MILLIS - 1).is_none());
    assert!(utc_timestamp_to_localtime(MAX_MILLIS + 1).is_none());
    assert!(utc_timestamp_to_localtime(i64::MAX).is_none());
}

#[test]
fn scopes_are_reported() {
    let report = scope_report("work", "0.5", &None, "here").unwrap();
    assert_eq!(Level::Debug, report.level);
    assert_eq!("executed work in 0.5 secs.  location: here", report.message);
    let threshold = |exceeded| Some(Threshold { secs: "0.1".to_string(), exceeded });
    assert!(scope_report("work", "0.05", &threshold(false), "here").is_none());
    let report = scope_report("work", "0.5", &threshold(true), "here").unwrap();
    assert_eq!(Level::Warn, report.level);
    assert_eq!(
        "executed work in 0.5 secs.  exceeds slow fn threshold of 0.1 secs.  location: here",
        report.message
    );
}

#[test]
fn slow_locks_are_looked_for() {
    assert_eq!(Some(ReadOrWrite::Read), slow_lock_kind(LockAcquisition::Read, true, false));
    assert_eq!(None, slow_lock_kind(LockAcquisition::Read, false, true));
    assert_eq!(Some(ReadOrWrite::Write), slow_lock_kind(LockAcquisition::Write, false, true));
    assert_eq!(None, slow_lock_kind(LockAcquisition::Write, true, false));
    assert_eq!(None, slow_lock_kind(LockAcquisition::TryLock, true, true));

    let all = LockEventFacts {
        is_acquire: true,
        has_try_acquire_at: true,
        has_acquire_at: true,
        has_location: true,
    };
    assert_eq!(vec![SlowLockCheck::Acquire, SlowLockCheck::Held], slow_lock_checks(&all));
    assert_eq!(
        vec![SlowLockCheck::Held],
        slow_lock_checks(&LockEventFacts { is_acquire: false, ..all })
    );
    assert_eq!(
        vec![SlowLockCheck::Held],
        slow_lock_checks(&LockEventFacts { has_try_acquire_at: false, ..all })
    );
    assert!(slow_lock_checks(&LockEventFacts { has_location: false, ..all }).is_empty());
    assert!(slow_lock_checks(&LockEventFacts { has_acquire_at: false, ..all }).is_empty());

    for (kind, name) in [(ReadOrWrite::Read, "read"), (ReadOrWrite::Write, "write")] {
        assert_eq!(
            format!("LOG_SLOW_{}_LOCK_ACQUIRE_THRESHOLD", name.to_uppercase()),
            threshold_variable(kind, SlowLockCheck::Acquire)
        );
        assert_eq!(
            format!("LOG_SLOW_{}_LOCK_THRESHOLD", name.to_uppercase()),
            threshold_variable(kind, SlowLockCheck::Held)
        );
        assert_eq!(
            format!("{name}-lock held for 0.3 seconds. (exceeds max: 0.1 secs)  location: here"),
            slow_lock_message(kind, "0.3", "0.1", "here")
        );
    }
}

#[test]
fn lock_events_are_reported() {
    let text = |s: &str| s.to_string();
    let mut report = LockEventReport {
        event_type: text("Acquire"),
        lock_name: None,
        lock_type: text("RwLock"),
        acquisition: text("Read"),
        thread_id: text("3"),
        thread_name: None,
        tokio_task_id: None,
        location: None,
        waited_secs: None,
        held_secs: None,
    };
    assert_eq!(
        "Acquire tokio lock `?` of type `RwLock` for `Read` by\n\t|-- thread 3, (`?`)\n\t|-- tokio task ?\n\t|--",
        lock_event_message(&report)
    );
    report.lock_name = Some(text("state"));
    report.thread_name = Some(text("main"));
    report.tokio_task_id = Some(text("8"));
    report.location = Some(text("a.rs:1"));
    report.waited_secs = Some(text("0.1"));
    report.held_secs = Some(text("0.2"));
    assert_eq!(
        "Acquire tokio lock `state` of type `RwLock` for `Read` by\n\t|-- thread 3, (`main`)\n\t|-- tokio task 8\n\t|-- acquirer: a.rs:1\n\t|-- waited for acquire: 0.1 secs\n\t|-- held: 0.2 secs\n\t|--",
        lock_event_message(&report)
    );
}
