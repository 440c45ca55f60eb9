//! Runner configuration: the caller-facing options with their documented
//! defaults, assembled through a builder.

use vstd::prelude::*;
use crate::address::Address;
use crate::commitment::CommitmentLevel;
use crate::ports::TestValidatorPorts;

verus! {

/// Lamports per unit of native currency.
pub const LAMPORTS_PER_SOL: u64 = 1_000_000_000;

/// The default balance seeded to each funded address: 5 units of native
/// currency.
pub const DEFAULT_INITIAL_LAMPORTS: u64 = 5 * LAMPORTS_PER_SOL;

/// The default warp slot: the ledger's logical clock is moved this far
/// past genesis before the instance is handed out.
pub const DEFAULT_WARP_SLOT: u64 = 1000;

/// An account state seeded at genesis.
#[derive(Clone, Debug, PartialEq, Eq)]
pub struct Account {
    pub lamports: u64,
    pub data: Vec<u8>,
    pub owner: Address,
    pub executable: bool,
    pub rent_epoch: u64,
}

impl Account {
    /// A plain account: the given balance, `space` bytes of zeroed data,
    /// the given owner, not executable, rent epoch zero.
    pub fn new(lamports: u64, space: usize, owner: Address) -> (r: Account)
        ensures
            r.lamports == lamports,
            r.owner == owner,
            r.data@.len() == space,
            forall|i: int| 0 <= i < space ==> r.data@[i] == 0u8,
            r.executable == false,
            r.rent_epoch == 0,
    {
        let mut data: Vec<u8> = Vec::new();
        let mut i: usize = 0;
        while i < space
            invariant
                i <= space,
                data@.len() == i,
                forall|j: int| 0 <= j < i ==> data@[j] == 0u8,
            decreases space - i,
        {
            data.push(0u8);
            i = i + 1;
        }
        Account { lamports, data, owner, executable: false, rent_epoch: 0 }
    }
}

/// A program to deploy at genesis.
#[derive(Clone, Debug, PartialEq, Eq)]
pub struct TestProgramInfo {
    pub program_id: Address,
    pub program_path: String,
    pub upgrade_authority: Address,
    pub loader: Address,
}

impl TestProgramInfo {
    /// A program under the standard upgradeable loader with the zero
    /// address as upgrade authority; both fields may be overridden.
    pub fn new(program_id: Address, program_path: String) -> (r: TestProgramInfo)
        ensures
            r.program_id == program_id,
            r.program_path == program_path,
            r.upgrade_authority == Address::spec_zero(),
            r.loader == Address::spec_upgradeable_loader(),
    {
        TestProgramInfo {
            program_id,
            program_path,
            upgrade_authority: Address::zero(),
            loader: Address::upgradeable_loader(),
        }
    }
}

/// A program descriptor in the form the validator's genesis takes it.
#[derive(Clone, Debug, PartialEq, Eq)]
pub struct UpgradeableProgramInfo {
    pub program_id: Address,
    pub loader: Address,
    pub upgrade_authority: Address,
    pub program_path: String,
}

impl From<TestProgramInfo> for UpgradeableProgramInfo {
    fn from(info: TestProgramInfo) -> (r: Self) {
        UpgradeableProgramInfo {
            program_id: info.program_id,
            loader: info.loader,
            upgrade_authority: info.upgrade_authority,
            program_path: info.program_path,
        }
    }
}

impl vstd::std_specs::convert::FromSpecImpl<TestProgramInfo> for UpgradeableProgramInfo {
    open spec fn obeys_from_spec() -> bool {
        true
    }

    open spec fn from_spec(info: TestProgramInfo) -> Self {
        UpgradeableProgramInfo {
            program_id: info.program_id,
            loader: info.loader,
            upgrade_authority: info.upgrade_authority,
            program_path: info.program_path,
        }
    }
}

/// The epoch schedule the validator runs under.
#[derive(Clone, Copy, Debug, PartialEq, Eq)]
pub enum EpochSchedule {
    /// The validator runtime's standard schedule.
    Standard,
    /// A custom schedule, given by its epoch length in slots, the offset
    /// at which leader schedules are computed, and whether epochs warm up
    /// from a shorter initial length.
    Custom { slots_per_epoch: u64, leader_schedule_slot_offset: u64, warmup: bool },
}

impl Default for EpochSchedule {
    /// The default is the standard schedule.
    fn default() -> (r: Self)
        ensures
            r is Standard,
    {
        EpochSchedule::Standard
    }
}

/// How the runner obtains its ports: by random search against the
/// registry, or from an explicitly supplied set.
#[derive(Clone, Copy, Debug, PartialEq, Eq)]
pub enum PortSelection {
    Random,
    Explicit(TestValidatorPorts),
}

/// The caller-facing configuration of one runner.
#[derive(Clone, Debug, PartialEq)]
pub struct TestValidatorRunnerProps {
    /// The ports to use. Defaults to a fresh random set.
    pub ports: PortSelection,
    /// The programs to deploy at genesis.
    pub programs: Vec<TestProgramInfo>,
    /// Addresses to fund with `initial_lamports` each.
    pub pubkeys: Vec<Address>,
    /// The balance seeded to each funded address; 5 units of native
    /// currency by default.
    pub initial_lamports: u64,
    /// The commitment level of the validator client.
    pub commitment: CommitmentLevel,
    /// Raw accounts merged into genesis last, keyed by address; a later
    /// entry of the same address overwrites an earlier one.
    pub accounts: Vec<(Address, Account)>,
    /// The slot the ledger's clock is warped to after start.
    pub warp_slot: u64,
    /// The epoch schedule override.
    pub epoch_schedule: EpochSchedule,
}

impl TestValidatorRunnerProps {
    /// The configuration invariant: funded addresses demand a positive
    /// balance, program ids are unique, and explicit ports are
    /// well-formed.
    pub open spec fn wf(self) -> bool {
        &&& self.pubkeys@.len() > 0 ==> self.initial_lamports > 0
        &&& forall|i: int, j: int|
            0 <= i < j < self.programs@.len() ==> self.programs@[i].program_id
                != self.programs@[j].program_id
        &&& self.ports matches PortSelection::Explicit(ps) ==> ps.wf()
    }

    /// Whether every option stands at its documented default.
    pub open spec fn is_default_config(self) -> bool {
        &&& self.ports is Random
        &&& self.programs@.len() == 0
        &&& self.pubkeys@.len() == 0
        &&& self.initial_lamports == DEFAULT_INITIAL_LAMPORTS
        &&& self.commitment is Processed
        &&& self.accounts@.len() == 0
        &&& self.warp_slot == DEFAULT_WARP_SLOT
        &&& self.epoch_schedule is Standard
    }

    pub fn builder() -> (r: TestValidatorRunnerPropsBuilder)
        ensures
            r.spec_props().is_default_config(),
    {
        TestValidatorRunnerPropsBuilder {
            props: TestValidatorRunnerProps {
                ports: PortSelection::Random,
                programs: Vec::new(),
                pubkeys: Vec::new(),
                initial_lamports: DEFAULT_INITIAL_LAMPORTS,
                commitment: CommitmentLevel::Processed,
                accounts: Vec::new(),
                warp_slot: DEFAULT_WARP_SLOT,
                epoch_schedule: EpochSchedule::Standard,
            },
        }
    }
}

impl Default for TestValidatorRunnerProps {
    /// Every option at its documented default.
    fn default() -> (r: Self)
        ensures
            r.is_default_config(),
            r.wf(),
    {
        TestValidatorRunnerProps::builder().build()
    }
}

/// Builder for [`TestValidatorRunnerProps`]: starts from the documented
/// defaults; each setter replaces one option.
pub struct TestValidatorRunnerPropsBuilder {
    props: TestValidatorRunnerProps,
}

impl TestValidatorRunnerPropsBuilder {
    /// The configuration assembled so far.
    pub closed spec fn spec_props(&self) -> TestValidatorRunnerProps {
        self.props
    }

    pub fn ports(self, ports: PortSelection) -> (r: Self)
        ensures
            r.spec_props() == (TestValidatorRunnerProps { ports, ..self.spec_props() }),
    {
        TestValidatorRunnerPropsBuilder { props: TestValidatorRunnerProps { ports, ..self.props } }
    }

    pub fn programs(self, programs: Vec<TestProgramInfo>) -> (r: Self)
        ensures
            r.spec_props() == (TestValidatorRunnerProps { programs, ..self.spec_props() }),
    {
        TestValidatorRunnerPropsBuilder {
            props: TestValidatorRunnerProps { programs, ..self.props },
        }
    }

    pub fn pubkeys(self, pubkeys: Vec<Address>) -> (r: Self)
        ensures
            r.spec_props() == (TestValidatorRunnerProps { pubkeys, ..self.spec_props() }),
    {
        TestValidatorRunnerPropsBuilder {
            props: TestValidatorRunnerProps { pubkeys, ..self.props },
        }
    }

    pub fn initial_lamports(self, initial_lamports: u64) -> (r: Self)
        ensures
            r.spec_props() == (TestValidatorRunnerProps { initial_lamports, ..self.spec_props() }),
    {
        TestValidatorRunnerPropsBuilder {
            props: TestValidatorRunnerProps { initial_lamports, ..self.props },
        }
    }

    pub fn commitment(self, commitment: CommitmentLevel) -> (r: Self)
        ensures
            r.spec_props() == (TestValidatorRunnerProps { commitment, ..self.spec_props() }),
    {
        TestValidatorRunnerPropsBuilder {
            props: TestValidatorRunnerProps { commitment, ..self.props },
        }
    }

    pub fn accounts(self, accounts: Vec<(Address, Account)>) -> (r: Self)
        ensures
            r.spec_props() == (TestValidatorRunnerProps { accounts, ..self.spec_props() }),
    {
        TestValidatorRunnerPropsBuilder {
            props: TestValidatorRunnerProps { accounts, ..self.props },
        }
    }

    pub fn warp_slot(self, warp_slot: u64) -> (r: Self)
        ensures
            r.spec_props() == (TestValidatorRunnerProps { warp_slot, ..self.spec_props() }),
    {
        TestValidatorRunnerPropsBuilder {
            props: TestValidatorRunnerProps { warp_slot, ..self.props },
        }
    }

    pub fn epoch_schedule(self, epoch_schedule: EpochSchedule) -> (r: Self)
        ensures
            r.spec_props() == (TestValidatorRunnerProps { epoch_schedule, ..self.spec_props() }),
    {
        TestValidatorRunnerPropsBuilder {
            props: TestValidatorRunnerProps { epoch_schedule, ..self.props },
        }
    }

    pub fn build(self) -> (r: TestValidatorRunnerProps)
        ensures
            r == self.spec_props(),
    {
        self.props
    }
}

/// A configuration left wholly at the documented defaults is well-formed
/// (it constructs without error) and agrees, option for option, with any
/// configuration on which every default was explicitly repeated: the two
/// are interchangeable everywhere this crate's contracts look.
pub proof fn lemma_default_config_round_trip(
    built: TestValidatorRunnerProps,
    repeated: TestValidatorRunnerProps,
)
    requires
        built.is_default_config(),
        repeated.is_default_config(),
    ensures
        built.wf(),
        repeated.wf(),
        built.ports == repeated.ports,
        built.programs@ == repeated.programs@,
        built.pubkeys@ == repeated.pubkeys@,
        built.initial_lamports == repeated.initial_lamports,
        built.commitment == repeated.commitment,
        built.accounts@ == repeated.accounts@,
        built.warp_slot == repeated.warp_slot,
        built.epoch_schedule == repeated.epoch_schedule,
{
    assert(built.programs@ =~= repeated.programs@);
    assert(built.pubkeys@ =~= repeated.pubkeys@);
    assert(built.accounts@ =~= repeated.accounts@);
}

} // verus!
