//! Utilities for provisioning ephemeral local test-validator instances.
//!
//! The crate has three verified parts:
//! - a port allocator: a registry of reserved local ports together with a
//!   randomized search for a fresh, non-conflicting set of ports;
//! - a genesis configurator: assembly of the initial ledger descriptor
//!   (funded accounts, programs, clock parameters) from a runner
//!   configuration;
//! - a lifecycle orchestrator: a state machine that sequences port
//!   reservation, auxiliary faucet startup, genesis assembly, validator
//!   startup, client construction and a warm-up probe, and that owns the
//!   resulting handle and its teardown.
//!
//! Alongside these it carries the wire-level display types for accounts and
//! transactions, with verified decoding logic.

pub mod account_decoder;
pub mod address;
pub mod codec;
pub mod commitment;
pub mod config;
pub mod genesis;
pub mod parse_accounts;
pub mod ports;
pub mod runner;
pub mod transaction_status;

pub use address::Address;
pub use commitment::CommitmentConfig;
pub use commitment::CommitmentLevel;
pub use config::Account;
pub use config::EpochSchedule;
pub use config::PortSelection;
pub use config::TestProgramInfo;
pub use config::TestValidatorRunnerProps;
pub use config::UpgradeableProgramInfo;
pub use genesis::TestValidatorGenesis;
pub use runner::PrimaryServiceInfo;
pub use runner::RunnerAction;
pub use runner::RunnerError;
pub use runner::RunnerEvent;
pub use runner::RunnerStage;
pub use runner::TestValidatorRunner;
pub use runner::TestValidatorRunnerLifecycle;
pub use ports::PortRegistry;
pub use ports::TestValidatorPorts;
