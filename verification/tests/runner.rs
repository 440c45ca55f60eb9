//! Tests of the lifecycle orchestrator: ordering, failure injection, the
//! explicit-ports scenario, genesis seeding and the configuration
//! defaults.

use test_utils_solana::config::DEFAULT_INITIAL_LAMPORTS;
use test_utils_solana::config::DEFAULT_WARP_SLOT;
use test_utils_solana::genesis::FAUCET_OPERATING_LAMPORTS;
use test_utils_solana::runner::WARMUP_LAMPORTS;
use test_utils_solana::Account;
use test_utils_solana::Address;
use test_utils_solana::CommitmentLevel;
use test_utils_solana::EpochSchedule;
use test_utils_solana::PortRegistry;
use test_utils_solana::PortSelection;
use test_utils_solana::PrimaryServiceInfo;
use test_utils_solana::RunnerAction;
use test_utils_solana::RunnerError;
use test_utils_solana::RunnerEvent;
use test_utils_solana::TestProgramInfo;
use test_utils_solana::TestValidatorPorts;
use test_utils_solana::TestValidatorRunnerLifecycle;
use test_utils_solana::TestValidatorRunnerProps;

fn addr(n: u128) -> Address {
    Address { hi: 0, lo: n }
}

fn explicit_ports(base: u16) -> TestValidatorPorts {
    TestValidatorPorts {
        rpc: base,
        pubsub: base + 1,
        faucet: base + 2,
        gossip_range: (base + 3, base + 23),
    }
}

fn info(mint: Address) -> PrimaryServiceInfo {
    PrimaryServiceInfo {
        rpc_url: "http://127.0.0.1:18899".to_string(),
        pubsub_url: "ws://127.0.0.1:18900".to_string(),
        mint_pubkey: mint,
    }
}

#[test]
fn startup_runs_in_fixed_order_and_yields_a_ready_handle() {
    let mut registry = PortRegistry::new();
    let ports = explicit_ports(21100);
    let props = TestValidatorRunnerProps::builder()
        .ports(PortSelection::Explicit(ports))
        .build();
    let mut lifecycle = TestValidatorRunnerLifecycle::new(props);
    let mint = addr(7);
    let mut observed: Vec<&'static str> = Vec::new();

    match lifecycle.begin(&mut registry, addr(1)) {
        RunnerAction::StartAuxService { faucet_port } => {
            assert_eq!(faucet_port, 21102);
            observed.push("aux");
        }
        other => panic!("unexpected action {:?}", other),
    }
    assert!(registry.is_marked(21100));
    assert!(registry.is_marked(21123));

    match lifecycle.step(RunnerEvent::AuxServiceAck { outcome: Ok(()) }) {
        RunnerAction::StartPrimaryService => observed.push("primary"),
        other => panic!("unexpected action {:?}", other),
    }

    match lifecycle.step(RunnerEvent::PrimaryServiceOutcome { outcome: Ok(info(mint)) }) {
        RunnerAction::ConstructClient { rpc_url, pubsub_url, commitment } => {
            assert_eq!(rpc_url, "http://127.0.0.1:18899");
            assert_eq!(pubsub_url, "ws://127.0.0.1:18900");
            assert_eq!(commitment, CommitmentLevel::Processed);
            observed.push("client");
        }
        other => panic!("unexpected action {:?}", other),
    }

    match lifecycle.step(RunnerEvent::ClientConstructed) {
        RunnerAction::RequestWarmup { address, lamports } => {
            assert_eq!(address, mint);
            assert_eq!(lamports, WARMUP_LAMPORTS);
            observed.push("warmup");
        }
        other => panic!("unexpected action {:?}", other),
    }

    match lifecycle.step(RunnerEvent::WarmupOutcome { outcome: Ok(()) }) {
        RunnerAction::Complete => {}
        other => panic!("unexpected action {:?}", other),
    }

    assert_eq!(observed, vec!["aux", "primary", "client", "warmup"]);

    let mut handle = lifecycle.finish();
    assert_eq!(handle.rpc_url().as_str(), "http://127.0.0.1:18899");
    assert_eq!(handle.pubsub_url().as_str(), "ws://127.0.0.1:18900");
    assert_eq!(handle.mint_pubkey(), mint);
    assert_eq!(handle.ports(), ports);
    assert_eq!(handle.genesis().rpc_port, 21100);

    // Releasing frees every reserved port, and releasing twice changes
    // nothing further.
    handle.release(&mut registry);
    assert!(!registry.is_marked(21100));
    assert!(!registry.is_marked(21102));
    assert!(!registry.is_marked(21123));
    handle.release(&mut registry);
    assert!(!registry.is_marked(21100));
}

#[test]
fn aux_failure_aborts_with_its_typed_error() {
    let mut registry = PortRegistry::new();
    let props = TestValidatorRunnerProps::builder()
        .ports(PortSelection::Explicit(explicit_ports(21200)))
        .build();
    let mut lifecycle = TestValidatorRunnerLifecycle::new(props);
    match lifecycle.begin(&mut registry, addr(1)) {
        RunnerAction::StartAuxService { .. } => {}
        other => panic!("unexpected action {:?}", other),
    }
    let action = lifecycle.step(RunnerEvent::AuxServiceAck {
        outcome: Err("bind refused".to_string()),
    });
    assert_eq!(
        action,
        RunnerAction::Fail {
            error: RunnerError::AuxServiceStartupFailed { reason: "bind refused".to_string() }
        }
    );
}

#[test]
fn primary_failure_aborts_with_its_typed_error() {
    let mut registry = PortRegistry::new();
    let props = TestValidatorRunnerProps::builder()
        .ports(PortSelection::Explicit(explicit_ports(21300)))
        .build();
    let mut lifecycle = TestValidatorRunnerLifecycle::new(props);
    match lifecycle.begin(&mut registry, addr(1)) {
        RunnerAction::StartAuxService { .. } => {}
        other => panic!("unexpected action {:?}", other),
    }
    match lifecycle.step(RunnerEvent::AuxServiceAck { outcome: Ok(()) }) {
        RunnerAction::StartPrimaryService => {}
        other => panic!("unexpected action {:?}", other),
    }
    let action = lifecycle.step(RunnerEvent::PrimaryServiceOutcome {
        outcome: Err("ledger directory unusable".to_string()),
    });
    assert_eq!(
        action,
        RunnerAction::Fail {
            error: RunnerError::PrimaryServiceStartupFailed {
                reason: "ledger directory unusable".to_string()
            }
        }
    );
}

#[test]
fn warmup_failure_aborts_with_its_typed_error() {
    let mut registry = PortRegistry::new();
    let props = TestValidatorRunnerProps::builder()
        .ports(PortSelection::Explicit(explicit_ports(21400)))
        .build();
    let mut lifecycle = TestValidatorRunnerLifecycle::new(props);
    match lifecycle.begin(&mut registry, addr(1)) {
        RunnerAction::StartAuxService { .. } => {}
        other => panic!("unexpected action {:?}", other),
    }
    match lifecycle.step(RunnerEvent::AuxServiceAck { outcome: Ok(()) }) {
        RunnerAction::StartPrimaryService => {}
        other => panic!("unexpected action {:?}", other),
    }
    match lifecycle.step(RunnerEvent::PrimaryServiceOutcome { outcome: Ok(info(addr(9))) }) {
        RunnerAction::ConstructClient { .. } => {}
        other => panic!("unexpected action {:?}", other),
    }
    match lifecycle.step(RunnerEvent::ClientConstructed) {
        RunnerAction::RequestWarmup { .. } => {}
        other => panic!("unexpected action {:?}", other),
    }
    let action = lifecycle.step(RunnerEvent::WarmupOutcome {
        outcome: Err("airdrop not confirmed".to_string()),
    });
    assert_eq!(
        action,
        RunnerAction::Fail {
            error: RunnerError::WarmupFailed { reason: "airdrop not confirmed".to_string() }
        }
    );
}

#[test]
fn concurrent_explicit_port_sets_cannot_both_reserve() {
    let mut registry = PortRegistry::new();
    let ports = TestValidatorPorts {
        rpc: 18899,
        pubsub: 18900,
        faucet: 19900,
        gossip_range: (18001, 18021),
    };

    let first_props = TestValidatorRunnerProps::builder()
        .ports(PortSelection::Explicit(ports))
        .build();
    let mut first = TestValidatorRunnerLifecycle::new(first_props);
    match first.begin(&mut registry, addr(1)) {
        RunnerAction::StartAuxService { faucet_port } => assert_eq!(faucet_port, 19900),
        other => panic!("unexpected action {:?}", other),
    }

    let second_props = TestValidatorRunnerProps::builder()
        .ports(PortSelection::Explicit(ports))
        .build();
    let mut second = TestValidatorRunnerLifecycle::new(second_props);
    let action = second.begin(&mut registry, addr(2));
    assert_eq!(action, RunnerAction::Fail { error: RunnerError::PortAlreadyReserved });

    // The failed attempt reserved nothing on top of the first one's
    // ports, which stay reserved.
    assert!(registry.is_marked(18899));
    assert!(registry.is_marked(19900));
}

#[test]
fn exhausted_search_fails_with_its_typed_error() {
    let mut registry = PortRegistry::new();
    // With every candidate port reserved, the random search must give up
    // after its retry budget.
    let mut p: u32 = 1000;
    while p <= 65535 {
        registry.mark_port_used(p as u16);
        p += 1;
    }
    let props = TestValidatorRunnerProps::default();
    let mut lifecycle = TestValidatorRunnerLifecycle::new(props);
    let action = lifecycle.begin(&mut registry, addr(1));
    assert_eq!(action, RunnerAction::Fail { error: RunnerError::PortAllocationExhausted });
}

#[test]
fn genesis_seeds_funded_accounts_faucet_balance_and_warmup_amount() {
    let mut registry = PortRegistry::new();
    let a = addr(100);
    let b = addr(200);
    let props = TestValidatorRunnerProps::builder()
        .ports(PortSelection::Explicit(explicit_ports(21500)))
        .pubkeys(vec![a, b])
        .initial_lamports(2_000_000_000)
        .build();
    let mut lifecycle = TestValidatorRunnerLifecycle::new(props);
    let faucet_pubkey = addr(300);
    match lifecycle.begin(&mut registry, faucet_pubkey) {
        RunnerAction::StartAuxService { .. } => {}
        other => panic!("unexpected action {:?}", other),
    }
    match lifecycle.step(RunnerEvent::AuxServiceAck { outcome: Ok(()) }) {
        RunnerAction::StartPrimaryService => {}
        other => panic!("unexpected action {:?}", other),
    }

    let genesis = lifecycle.genesis();
    // Exactly the two funded accounts at the configured balance, plus the
    // faucet's own operating balance.
    assert_eq!(genesis.accounts.len(), 3);
    assert_eq!(genesis.accounts[0].0, a);
    assert_eq!(genesis.accounts[0].1.lamports, 2_000_000_000);
    assert_eq!(genesis.accounts[1].0, b);
    assert_eq!(genesis.accounts[1].1.lamports, 2_000_000_000);
    assert_eq!(genesis.accounts[2].0, faucet_pubkey);
    assert_eq!(genesis.accounts[2].1.lamports, FAUCET_OPERATING_LAMPORTS);
    assert_eq!(genesis.rpc_port, 21500);
    assert_eq!(genesis.gossip_port, 21503);
    assert_eq!(genesis.port_range, (21503, 21523));
    assert_eq!(genesis.faucet_port, Some(21502));
    assert!(genesis.enable_rpc_transaction_history);
    assert_eq!(genesis.warp_slot, DEFAULT_WARP_SLOT);

    // The warm-up request funds the root keypair's own address with the
    // fixed amount, so its balance rises by exactly that much once the
    // probe confirms.
    let mint = addr(400);
    match lifecycle.step(RunnerEvent::PrimaryServiceOutcome { outcome: Ok(info(mint)) }) {
        RunnerAction::ConstructClient { .. } => {}
        other => panic!("unexpected action {:?}", other),
    }
    match lifecycle.step(RunnerEvent::ClientConstructed) {
        RunnerAction::RequestWarmup { address, lamports } => {
            assert_eq!(address, mint);
            assert_eq!(lamports, 500_000_000_000);
        }
        other => panic!("unexpected action {:?}", other),
    }
}

#[test]
fn custom_accounts_merge_last() {
    let mut registry = PortRegistry::new();
    let a = addr(100);
    let custom = Account::new(42, 8, addr(500));
    let props = TestValidatorRunnerProps::builder()
        .ports(PortSelection::Explicit(explicit_ports(21600)))
        .pubkeys(vec![a])
        .accounts(vec![(a, custom.clone())])
        .build();
    let mut lifecycle = TestValidatorRunnerLifecycle::new(props);
    match lifecycle.begin(&mut registry, addr(301)) {
        RunnerAction::StartAuxService { .. } => {}
        other => panic!("unexpected action {:?}", other),
    }
    match lifecycle.step(RunnerEvent::AuxServiceAck { outcome: Ok(()) }) {
        RunnerAction::StartPrimaryService => {}
        other => panic!("unexpected action {:?}", other),
    }
    let genesis = lifecycle.genesis();
    // The caller's raw account stands last, so it overwrites the plainly
    // funded account of the same address in the merged view.
    assert_eq!(genesis.accounts.len(), 3);
    assert_eq!(genesis.accounts[0].0, a);
    assert_eq!(genesis.accounts[2].0, a);
    assert_eq!(genesis.accounts[2].1, custom);
    assert_eq!(genesis.accounts[2].1.data.len(), 8);
}

#[test]
fn program_defaults_use_the_standard_upgradeable_loader() {
    let program = TestProgramInfo::new(addr(1), "target/deploy/example.so".to_string());
    assert_eq!(program.upgrade_authority, Address { hi: 0, lo: 0 });

    // The default loader address is the two big-endian halves of the
    // standard upgradeable loader's 32 bytes.
    let bytes = bs58::decode("BPFLoaderUpgradeab1e11111111111111111111111")
        .into_vec()
        .expect("the loader id is valid base58");
    assert_eq!(bytes.len(), 32);
    let mut hi: u128 = 0;
    let mut lo: u128 = 0;
    for i in 0..16 {
        hi = (hi << 8) | u128::from(bytes[i]);
        lo = (lo << 8) | u128::from(bytes[16 + i]);
    }
    assert_eq!(program.loader, Address { hi, lo });
}

#[test]
fn default_configuration_round_trips() {
    let built = TestValidatorRunnerProps::default();
    let repeated = TestValidatorRunnerProps::builder()
        .ports(PortSelection::Random)
        .programs(vec![])
        .pubkeys(vec![])
        .initial_lamports(DEFAULT_INITIAL_LAMPORTS)
        .commitment(CommitmentLevel::Processed)
        .accounts(vec![])
        .warp_slot(DEFAULT_WARP_SLOT)
        .epoch_schedule(EpochSchedule::Standard)
        .build();
    assert_eq!(built, repeated);
    assert_eq!(built.initial_lamports, 5_000_000_000);
    assert_eq!(built.warp_slot, 1000);
    assert_eq!(built.commitment, CommitmentLevel::Processed);
    assert_eq!(built.ports, PortSelection::Random);
}
