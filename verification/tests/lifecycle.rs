use bitcoind_manager::bitcoind::{
    listing_has_container, Action, Bitcoind, BitcoindFlags, Event, Outcome, Phase,
};
use bitcoind_manager::config::{BitcoindConfig, Network, RpcConfig};
use bitcoind_manager::error::BitcoindError;
use bitcoind_manager::model::{run_start, run_stop, ModelRuntime};

fn rpc() -> RpcConfig {
    RpcConfig {
        username: "foo".to_string(),
        password: "rpcpassword".to_string(),
        url: "http://localhost:18443".to_string(),
        wallet: "mywallet".to_string(),
        network: Network::Regtest,
    }
}

fn ready_runtime() -> ModelRuntime {
    ModelRuntime {
        daemon_up: true,
        container_present: false,
        image_present: true,
        image_digests: vec![],
    }
}

#[test]
fn test_start_stop_bitcoind() {
    let bitcoind = Bitcoind::new("bitcoin-regtest", "ruimarinho/bitcoin-core", rpc());
    let mut rt = ready_runtime();
    assert!(run_start(&bitcoind, &mut rt).is_ok());
    assert!(run_stop(&bitcoind, &mut rt).is_ok());
    assert!(!rt.container_present);
}

#[test]
fn test_start_stop_bitcoind_with_flags() {
    let flags = BitcoindFlags {
        min_relay_tx_fee: "0.00001".to_string(),
        block_min_tx_fee: "0.00001".to_string(),
        debug: 1,
        fallback_fee: "0.0002".to_string(),
        maxmempool: None,
    };
    let bitcoind =
        Bitcoind::new_with_flags("bitcoin-regtest", "ruimarinho/bitcoin-core", rpc(), flags);
    let mut rt = ready_runtime();
    assert!(run_start(&bitcoind, &mut rt).is_ok());
    assert!(run_stop(&bitcoind, &mut rt).is_ok());
    assert!(!rt.container_present);
}

#[test]
fn test_fresh_environment_scenario() {
    // Fresh runtime, no pre-existing container, image local, no pinned digest.
    let b = Bitcoind::new("bitcoin-regtest", "bitcoin/bitcoin:29.1", rpc());
    let mut rt = ready_runtime();
    assert!(run_start(&b, &mut rt).is_ok());
    // A name listing now shows exactly one matching container.
    match rt.respond(&b, Action::ListContainers) {
        Event::Listing(l) => {
            assert_eq!(l.len(), 1);
            assert!(listing_has_container(&l, "bitcoin-regtest"));
        }
        _ => panic!("listing expected"),
    }
    assert!(run_stop(&b, &mut rt).is_ok());
    // And now zero matches.
    match rt.respond(&b, Action::ListContainers) {
        Event::Listing(l) => {
            assert!(l.is_empty());
            assert!(!listing_has_container(&l, "bitcoin-regtest"));
        }
        _ => panic!("listing expected"),
    }
}

#[test]
fn test_start_replaces_existing_container() {
    let b = Bitcoind::new("bitcoin-regtest", "bitcoin/bitcoin:29.1", rpc());
    let mut rt = ready_runtime();
    rt.container_present = true;
    assert!(run_start(&b, &mut rt).is_ok());
    assert!(rt.container_present);
}

#[test]
fn test_stop_without_container_is_success() {
    let b = Bitcoind::new("bitcoin-regtest", "bitcoin/bitcoin:29.1", rpc());
    let mut rt = ready_runtime();
    assert!(run_stop(&b, &mut rt).is_ok());
    assert!(!rt.container_present);
}

#[test]
fn test_daemon_down_fails_without_retry() {
    let b = Bitcoind::new("bitcoin-regtest", "bitcoin/bitcoin:29.1", rpc());
    let mut rt = ready_runtime();
    rt.daemon_up = false;
    match run_start(&b, &mut rt) {
        Err(BitcoindError::DockerError(m)) => {
            assert_eq!(
                m,
                "Docker daemon is not running. Make sure to start it before running this test"
            );
        }
        other => panic!("docker error expected, got {:?}", other),
    }
    assert!(!rt.container_present);
}

#[test]
fn test_absent_image_is_pulled_and_start_succeeds() {
    let b = Bitcoind::new("bitcoin-regtest", "bitcoin/bitcoin:29.1", rpc());
    let mut rt = ready_runtime();
    rt.image_present = false;
    assert!(run_start(&b, &mut rt).is_ok());
    assert!(rt.image_present);
    assert!(rt.container_present);
}

#[test]
fn test_incorrect_digest_scenario() {
    // An incorrect pinned digest against an image whose true digest differs:
    // start returns the distinguishable mismatch error, not a generic one.
    let c = BitcoindConfig::new(
        "bitcoin-regtest".to_string(),
        "bitcoin/bitcoin:29.1".to_string(),
        Some("sha256:aaaa".to_string()),
        rpc(),
    );
    let b = Bitcoind::from_config(c, BitcoindFlags::default());
    let mut rt = ModelRuntime {
        daemon_up: true,
        container_present: false,
        image_present: false,
        image_digests: vec!["bitcoin/bitcoin@sha256:bbbb".to_string()],
    };
    match run_start(&b, &mut rt) {
        Err(BitcoindError::ImageHashMismatch { expected, found }) => {
            assert_eq!(expected, "bitcoin/bitcoin@sha256:aaaa");
            assert_eq!(found, "bitcoin/bitcoin@sha256:bbbb");
        }
        other => panic!("digest mismatch expected, got {:?}", other),
    }
    assert!(!rt.container_present);
}

#[test]
fn test_matching_digest_succeeds() {
    let c = BitcoindConfig::new(
        "bitcoin-regtest".to_string(),
        "bitcoin/bitcoin:29.1".to_string(),
        Some("sha256:aaaa".to_string()),
        rpc(),
    );
    let b = Bitcoind::from_config(c, BitcoindFlags::default());
    let mut rt = ModelRuntime {
        daemon_up: true,
        container_present: false,
        image_present: false,
        image_digests: vec!["bitcoin/bitcoin@sha256:aaaa".to_string()],
    };
    assert!(run_start(&b, &mut rt).is_ok());
    assert!(rt.container_present);
}

#[test]
fn test_listing_has_container_exact_match() {
    let listing = vec![vec!["/bitcoin-regtest".to_string()], vec!["/other".to_string()]];
    assert!(listing_has_container(&listing, "bitcoin-regtest"));
    assert!(listing_has_container(&listing, "other"));
    assert!(!listing_has_container(&listing, "bitcoin"));
    assert!(!listing_has_container(&vec![], "bitcoin-regtest"));
    // The registered form carries a leading slash; a bare entry is no match.
    let bare = vec![vec!["bitcoin-regtest".to_string()]];
    assert!(!listing_has_container(&bare, "bitcoin-regtest"));
}

#[test]
fn test_step_poll_budget_exhaustion_is_success() {
    let b = Bitcoind::new("bitcoin-regtest", "bitcoin/bitcoin:29.1", rpc());
    let present = vec![vec!["/bitcoin-regtest".to_string()]];
    // Tenth check still sees the name: stop gives up polling and succeeds.
    match b.step(Phase::Poll { checks: 9 }, Event::Listing(present.clone()), false) {
        Outcome::Done(Ok(())) => {}
        other => panic!("best-effort success expected, got {:?}", other),
    }
    // Earlier checks keep polling: sleep, then list again.
    match b.step(Phase::Poll { checks: 0 }, Event::Listing(present), false) {
        Outcome::Continue(Phase::PollSleep { checks: 1 }, Action::Sleep) => {}
        other => panic!("further poll expected, got {:?}", other),
    }
    match b.step(Phase::PollSleep { checks: 1 }, Event::Slept, false) {
        Outcome::Continue(Phase::Poll { checks: 1 }, Action::ListContainers) => {}
        other => panic!("listing expected, got {:?}", other),
    }
}

#[test]
fn test_step_retries_once_on_missing_image() {
    let b = Bitcoind::new("bitcoin-regtest", "bitcoin/bitcoin:29.1", rpc());
    match b.step(
        Phase::Create { retried: false },
        Event::CreateFailed("No such image: bitcoin/bitcoin:29.1".to_string()),
        true,
    ) {
        Outcome::Continue(Phase::Pull, Action::PullImage) => {}
        other => panic!("pull expected, got {:?}", other),
    }
    // After the one retry the same failure is surfaced unmodified.
    match b.step(
        Phase::Create { retried: true },
        Event::CreateFailed("No such image: bitcoin/bitcoin:29.1".to_string()),
        true,
    ) {
        Outcome::Done(Err(BitcoindError::DockerError(m))) => {
            assert_eq!(m, "No such image: bitcoin/bitcoin:29.1");
        }
        other => panic!("surfaced error expected, got {:?}", other),
    }
    // Any other creation failure is surfaced immediately.
    match b.step(
        Phase::Create { retried: false },
        Event::CreateFailed("port is already allocated".to_string()),
        true,
    ) {
        Outcome::Done(Err(BitcoindError::DockerError(m))) => {
            assert_eq!(m, "port is already allocated");
        }
        other => panic!("surfaced error expected, got {:?}", other),
    }
}

#[test]
fn test_step_api_failure_propagates() {
    let b = Bitcoind::new("bitcoin-regtest", "bitcoin/bitcoin:29.1", rpc());
    match b.step(Phase::Probe, Event::ApiFailed("socket closed".to_string()), false) {
        Outcome::Done(Err(BitcoindError::DockerError(m))) => assert_eq!(m, "socket closed"),
        other => panic!("docker error expected, got {:?}", other),
    }
}

#[test]
fn test_step_unexpected_event_is_other_error() {
    let b = Bitcoind::new("bitcoin-regtest", "bitcoin/bitcoin:29.1", rpc());
    match b.step(Phase::Probe, Event::Removed, false) {
        Outcome::Done(Err(BitcoindError::Other(m))) => assert_eq!(m, "unexpected runtime event"),
        other => panic!("other error expected, got {:?}", other),
    }
}
