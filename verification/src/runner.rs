//! The lifecycle orchestrator: a state machine that sequences port
//! reservation, auxiliary faucet startup, genesis assembly, validator
//! startup, client construction and the warm-up probe, and the handle it
//! yields.
//!
//! The machine owns every decision; the outside work (spawning the faucet,
//! awaiting the validator, constructing the client, issuing the funding
//! probe) is performed by the caller's driver loop, which executes each
//! returned [`RunnerAction`] and hands the outcome back as the next
//! [`RunnerEvent`]. No stage begins before its predecessor succeeded
//! (`lemma_startup_strictly_ordered`), and a failure at any stage is
//! terminal (`lemma_failed_is_terminal`). None of the waits is bounded: a
//! driver that never delivers an event leaves the sequence suspended
//! indefinitely; that is the deliberate default.

use vstd::prelude::*;
use crate::address::Address;
use crate::commitment::CommitmentLevel;
use crate::config::LAMPORTS_PER_SOL;
use crate::config::PortSelection;
use crate::config::TestValidatorRunnerProps;
use crate::genesis::TestValidatorGenesis;
use crate::genesis::build_genesis;
use crate::genesis::spec_genesis_of;
use crate::ports::PortRegistry;
use crate::ports::TestValidatorPorts;
use crate::ports::is_port_set_available;

verus! {

/// The fixed warm-up amount: 500 units of native currency, funded to the
/// root (mint) keypair's own address to confirm the instance is warm.
pub const WARMUP_LAMPORTS: u64 = 500 * LAMPORTS_PER_SOL;

/// Where the startup sequence stands: each stage names the last completed
/// milestone. Port reservation is followed by the auxiliary service's
/// acknowledgment; once it arrives the genesis descriptor is assembled in
/// the same synchronous transition, so the machine rests at `GenesisBuilt`
/// with the auxiliary service running. A handle taken from a warmed
/// machine is the ready state.
#[derive(Clone, Copy, Debug, PartialEq, Eq)]
pub enum RunnerStage {
    Unstarted,
    PortsReserved,
    GenesisBuilt,
    PrimaryServiceStarted,
    ClientConstructed,
    ClientWarmed,
    Failed,
}

/// Why a startup sequence failed.
#[derive(Clone, Debug, PartialEq, Eq)]
pub enum RunnerError {
    /// The random port search exhausted its retry budget without finding a
    /// free set.
    PortAllocationExhausted,
    /// An explicitly supplied port is already reserved in the registry or
    /// already bound on the host.
    PortAlreadyReserved,
    /// The auxiliary funding service failed to bind, or closed its
    /// acknowledgment channel without a message.
    AuxServiceStartupFailed { reason: String },
    /// The primary validator service failed to start; the reason is
    /// propagated verbatim.
    PrimaryServiceStartupFailed { reason: String },
    /// The post-start funding probe did not confirm.
    WarmupFailed { reason: String },
}

/// What the started primary service advertises.
#[derive(Clone, Debug, PartialEq, Eq)]
pub struct PrimaryServiceInfo {
    /// The advertised RPC address.
    pub rpc_url: String,
    /// The advertised event-subscription address.
    pub pubsub_url: String,
    /// The address of the ledger's root (mint) keypair.
    pub mint_pubkey: Address,
}

/// An outcome the driver loop hands back to the machine.
#[derive(Debug, PartialEq, Eq)]
pub enum RunnerEvent {
    /// The auxiliary service's one-shot acknowledgment: bound
    /// successfully, or a failure reason. A closed channel is delivered as
    /// an error.
    AuxServiceAck { outcome: Result<(), String> },
    /// The primary service's startup outcome.
    PrimaryServiceOutcome { outcome: Result<PrimaryServiceInfo, String> },
    /// The client facade was constructed.
    ClientConstructed,
    /// The warm-up funding probe's outcome.
    WarmupOutcome { outcome: Result<(), String> },
}

/// What the driver loop must do next.
#[derive(Clone, Debug, PartialEq, Eq)]
pub enum RunnerAction {
    /// Start the auxiliary funding service bound to the faucet port, as a
    /// concurrent background worker, and await its acknowledgment.
    StartAuxService { faucet_port: u16 },
    /// Start the primary validator service against the built genesis
    /// descriptor and await its readiness.
    StartPrimaryService,
    /// Construct the client facade against the advertised addresses with
    /// the configured commitment level.
    ConstructClient { rpc_url: String, pubsub_url: String, commitment: CommitmentLevel },
    /// Issue a funding request of `lamports` to `address` and await its
    /// confirmation.
    RequestWarmup { address: Address, lamports: u64 },
    /// The sequence is complete: take the handle.
    Complete,
    /// The sequence failed; nothing further will run.
    Fail { error: RunnerError },
}

/// The stages in their fixed order, for ordering arguments. `Failed` is
/// absorbing and ranks above every milestone.
pub open spec fn spec_stage_rank(s: RunnerStage) -> int {
    match s {
        RunnerStage::Unstarted => 0,
        RunnerStage::PortsReserved => 1,
        RunnerStage::GenesisBuilt => 2,
        RunnerStage::PrimaryServiceStarted => 3,
        RunnerStage::ClientConstructed => 4,
        RunnerStage::ClientWarmed => 5,
        RunnerStage::Failed => 6,
    }
}

/// The rank of the stage a collaborator action leads into; `Fail` carries
/// no rank.
pub open spec fn spec_action_rank(a: RunnerAction) -> int {
    match a {
        RunnerAction::StartAuxService { .. } => 1,
        RunnerAction::StartPrimaryService => 2,
        RunnerAction::ConstructClient { .. } => 3,
        RunnerAction::RequestWarmup { .. } => 4,
        RunnerAction::Complete => 5,
        RunnerAction::Fail { .. } => 6,
    }
}

/// The machine's transition relation: from `pre`, the action `action` is
/// emitted and the machine rests at `post`. Every transition either
/// advances to the next milestone or fails with the error of the stage
/// that broke; nothing leaves `Failed`.
pub open spec fn lifecycle_next(pre: RunnerStage, post: RunnerStage, action: RunnerAction) -> bool {
    ||| (pre is Unstarted && post is PortsReserved && action is StartAuxService)
    ||| (pre is Unstarted && post is Failed && (action matches RunnerAction::Fail { error } && (
    error is PortAllocationExhausted || error is PortAlreadyReserved)))
    ||| (pre is PortsReserved && post is GenesisBuilt && action is StartPrimaryService)
    ||| (pre is PortsReserved && post is Failed && (action matches RunnerAction::Fail { error }
        && error is AuxServiceStartupFailed))
    ||| (pre is GenesisBuilt && post is PrimaryServiceStarted && action is ConstructClient)
    ||| (pre is GenesisBuilt && post is Failed && (action matches RunnerAction::Fail { error }
        && error is PrimaryServiceStartupFailed))
    ||| (pre is PrimaryServiceStarted && post is ClientConstructed && action is RequestWarmup)
    ||| (pre is ClientConstructed && post is ClientWarmed && action is Complete)
    ||| (pre is ClientConstructed && post is Failed && (action matches RunnerAction::Fail { error }
        && error is WarmupFailed))
}

/// The startup sequence of one validator instance.
pub struct TestValidatorRunnerLifecycle {
    stage: RunnerStage,
    /// The configuration, until genesis assembly consumes it.
    props: Option<TestValidatorRunnerProps>,
    /// The configuration as given, kept for specification.
    config: Ghost<TestValidatorRunnerProps>,
    /// The configured commitment level, kept past genesis assembly.
    commitment: CommitmentLevel,
    ports: Option<TestValidatorPorts>,
    faucet_pubkey: Option<Address>,
    genesis: Option<TestValidatorGenesis>,
    primary: Option<PrimaryServiceInfo>,
}

impl TestValidatorRunnerLifecycle {
    pub closed spec fn spec_stage(&self) -> RunnerStage {
        self.stage
    }

    pub closed spec fn spec_props(&self) -> TestValidatorRunnerProps {
        self.config@
    }

    pub closed spec fn spec_ports(&self) -> Option<TestValidatorPorts> {
        self.ports
    }

    pub closed spec fn spec_faucet_pubkey(&self) -> Option<Address> {
        self.faucet_pubkey
    }

    pub closed spec fn spec_genesis(&self) -> Option<TestValidatorGenesis> {
        self.genesis
    }

    pub closed spec fn spec_primary(&self) -> Option<PrimaryServiceInfo> {
        self.primary
    }

    /// The machine's internal consistency: each stage holds what its
    /// milestones established.
    pub closed spec fn wf(&self) -> bool {
        &&& self.commitment == self.config@.commitment
        &&& (self.stage is Unstarted || self.stage is PortsReserved) ==> self.props == Some(
            self.config@,
        )
        &&& (self.stage is Unstarted ==> self.config@.wf())
        &&& !(self.stage is Unstarted || self.stage is Failed) ==> (self.ports matches Some(ps)
            && ps.wf() && self.faucet_pubkey is Some)
        &&& (self.stage is GenesisBuilt || self.stage is PrimaryServiceStarted || self.stage
            is ClientConstructed || self.stage is ClientWarmed) ==> (self.genesis matches Some(g)
            && spec_genesis_of(g, self.config@, self.ports->0, self.faucet_pubkey->0))
        &&& (self.stage is PrimaryServiceStarted || self.stage is ClientConstructed || self.stage
            is ClientWarmed) ==> self.primary is Some
    }

    /// Which event the machine awaits: the outcome of the work its last
    /// action requested.
    pub open spec fn spec_accepts(&self, event: RunnerEvent) -> bool {
        match event {
            RunnerEvent::AuxServiceAck { .. } => self.spec_stage() is PortsReserved,
            RunnerEvent::PrimaryServiceOutcome { .. } => self.spec_stage() is GenesisBuilt,
            RunnerEvent::ClientConstructed => self.spec_stage() is PrimaryServiceStarted,
            RunnerEvent::WarmupOutcome { .. } => self.spec_stage() is ClientConstructed,
        }
    }

    /// A machine at the start of the sequence, holding a well-formed
    /// configuration.
    pub fn new(props: TestValidatorRunnerProps) -> (r: TestValidatorRunnerLifecycle)
        requires
            props.wf(),
        ensures
            r.wf(),
            r.spec_stage() is Unstarted,
            r.spec_props() == props,
    {
        let ghost config = props;
        TestValidatorRunnerLifecycle {
            stage: RunnerStage::Unstarted,
            commitment: props.commitment,
            config: Ghost(config),
            props: Some(props),
            ports: None,
            faucet_pubkey: None,
            genesis: None,
            primary: None,
        }
    }

    /// Stage one: resolve the port set, explicitly supplied or through the
    /// allocator, and mark every one of its ports used before any service
    /// starts; then request the auxiliary service's start on the faucet
    /// port. `faucet_pubkey` is the address of the keypair the driver
    /// created for the faucet. An explicit set with a port that is already
    /// reserved fails rather than double-reserving; a failure reserves
    /// nothing.
    pub fn begin(&mut self, registry: &mut PortRegistry, faucet_pubkey: Address) -> (action:
        RunnerAction)
        requires
            old(self).wf(),
            old(self).spec_stage() is Unstarted,
        ensures
            final(self).wf(),
            final(self).spec_props() == old(self).spec_props(),
            lifecycle_next(old(self).spec_stage(), final(self).spec_stage(), action),
            action matches RunnerAction::StartAuxService { faucet_port } ==> {
                &&& final(self).spec_ports() matches Some(ps)
                &&& ps.wf()
                &&& faucet_port == ps.faucet
                &&& forall|p: u16| ps.spec_contains_port(p) ==> !old(registry)@.contains(p)
                &&& forall|p: u16|
                    #[trigger] final(registry)@.contains(p) <==> old(registry)@.contains(p)
                        || ps.spec_contains_port(p)
                &&& (old(self).spec_props().ports matches PortSelection::Explicit(e) ==> ps == e)
                &&& final(self).spec_faucet_pubkey() == Some(faucet_pubkey)
            },
            action matches RunnerAction::Fail { error } ==> {
                &&& final(registry)@ == old(registry)@
                &&& (old(self).spec_props().ports is Random <==> error
                    is PortAllocationExhausted)
                &&& (old(self).spec_props().ports is Explicit <==> error is PortAlreadyReserved)
            },
            old(self).spec_props().ports matches PortSelection::Explicit(e) && (exists|p: u16|
                e.spec_contains_port(p) && old(registry)@.contains(p)) ==> action
                == (RunnerAction::Fail { error: RunnerError::PortAlreadyReserved }),
    {
        let resolved: Option<TestValidatorPorts> = match &self.props.as_ref().unwrap().ports {
            PortSelection::Explicit(explicit) => {
                let e = *explicit;
                if is_port_set_available(registry, &e) {
                    Some(e)
                } else {
                    None
                }
            },
            PortSelection::Random => TestValidatorPorts::try_random_ports(registry),
        };
        match resolved {
            Some(ps) => {
                registry.mark_ports_used(&ps);
                self.ports = Some(ps);
                self.faucet_pubkey = Some(faucet_pubkey);
                self.stage = RunnerStage::PortsReserved;
                RunnerAction::StartAuxService { faucet_port: ps.faucet }
            },
            None => {
                self.stage = RunnerStage::Failed;
                let error = match &self.props.as_ref().unwrap().ports {
                    PortSelection::Explicit(_) => RunnerError::PortAlreadyReserved,
                    PortSelection::Random => RunnerError::PortAllocationExhausted,
                };
                RunnerAction::Fail { error }
            },
        }
    }

    /// Feed the outcome of the awaited work to the machine and get the
    /// next action. On the auxiliary service's successful acknowledgment
    /// the genesis descriptor is assembled before the primary service's
    /// start is requested; a failure outcome at any stage is terminal and
    /// carries that stage's typed error with the reason it was given.
    pub fn step(&mut self, event: RunnerEvent) -> (action: RunnerAction)
        requires
            old(self).wf(),
            old(self).spec_accepts(event),
        ensures
            final(self).wf(),
            final(self).spec_props() == old(self).spec_props(),
            final(self).spec_ports() == old(self).spec_ports(),
            final(self).spec_faucet_pubkey() == old(self).spec_faucet_pubkey(),
            lifecycle_next(old(self).spec_stage(), final(self).spec_stage(), action),
            !(event matches RunnerEvent::AuxServiceAck { outcome: Result::Ok(_) })
                ==> final(self).spec_genesis() == old(self).spec_genesis(),
            !(event matches RunnerEvent::PrimaryServiceOutcome { outcome: Result::Ok(_) })
                ==> final(self).spec_primary() == old(self).spec_primary(),
            event matches RunnerEvent::AuxServiceAck { outcome: Result::Ok(_) } ==> {
                &&& final(self).spec_stage() is GenesisBuilt
                &&& action is StartPrimaryService
                &&& final(self).spec_genesis() matches Some(g) && spec_genesis_of(
                    g,
                    old(self).spec_props(),
                    old(self).spec_ports()->0,
                    old(self).spec_faucet_pubkey()->0,
                )
            },
            event matches RunnerEvent::AuxServiceAck { outcome: Result::Err(reason) } ==> action
                == (RunnerAction::Fail {
                error: RunnerError::AuxServiceStartupFailed { reason },
            }),
            event matches RunnerEvent::PrimaryServiceOutcome { outcome: Result::Ok(info) } ==> {
                &&& final(self).spec_stage() is PrimaryServiceStarted
                &&& final(self).spec_primary() == Some(info)
                &&& action == (RunnerAction::ConstructClient {
                    rpc_url: info.rpc_url,
                    pubsub_url: info.pubsub_url,
                    commitment: old(self).spec_props().commitment,
                })
            },
            event matches RunnerEvent::PrimaryServiceOutcome { outcome: Result::Err(reason) }
                ==> action == (RunnerAction::Fail {
                error: RunnerError::PrimaryServiceStartupFailed { reason },
            }),
            (event is ClientConstructed) ==> {
                &&& final(self).spec_stage() is ClientConstructed
                &&& action == (RunnerAction::RequestWarmup {
                    address: old(self).spec_primary()->0.mint_pubkey,
                    lamports: WARMUP_LAMPORTS,
                })
            },
            event matches RunnerEvent::WarmupOutcome { outcome: Result::Ok(_) } ==> {
                &&& final(self).spec_stage() is ClientWarmed
                &&& action is Complete
            },
            event matches RunnerEvent::WarmupOutcome { outcome: Result::Err(reason) } ==> action
                == (RunnerAction::Fail { error: RunnerError::WarmupFailed { reason } }),
    {
        match event {
            RunnerEvent::AuxServiceAck { outcome } => match outcome {
                Ok(()) => {
                    let props = self.props.take().unwrap();
                    let ports = *self.ports.as_ref().unwrap();
                    let faucet_pubkey = *self.faucet_pubkey.as_ref().unwrap();
                    let genesis = build_genesis(props, ports, faucet_pubkey);
                    self.genesis = Some(genesis);
                    self.stage = RunnerStage::GenesisBuilt;
                    RunnerAction::StartPrimaryService
                },
                Err(reason) => {
                    self.stage = RunnerStage::Failed;
                    RunnerAction::Fail { error: RunnerError::AuxServiceStartupFailed { reason } }
                },
            },
            RunnerEvent::PrimaryServiceOutcome { outcome } => match outcome {
                Ok(info) => {
                    let rpc_url = info.rpc_url.clone();
                    let pubsub_url = info.pubsub_url.clone();
                    self.primary = Some(info);
                    self.stage = RunnerStage::PrimaryServiceStarted;
                    RunnerAction::ConstructClient {
                        rpc_url,
                        pubsub_url,
                        commitment: self.commitment,
                    }
                },
                Err(reason) => {
                    self.stage = RunnerStage::Failed;
                    RunnerAction::Fail {
                        error: RunnerError::PrimaryServiceStartupFailed { reason },
                    }
                },
            },
            RunnerEvent::ClientConstructed => {
                let address = self.primary.as_ref().unwrap().mint_pubkey;
                self.stage = RunnerStage::ClientConstructed;
                RunnerAction::RequestWarmup { address, lamports: WARMUP_LAMPORTS }
            },
            RunnerEvent::WarmupOutcome { outcome } => match outcome {
                Ok(()) => {
                    self.stage = RunnerStage::ClientWarmed;
                    RunnerAction::Complete
                },
                Err(reason) => {
                    self.stage = RunnerStage::Failed;
                    RunnerAction::Fail { error: RunnerError::WarmupFailed { reason } }
                },
            },
        }
    }

    /// The built genesis descriptor, for the driver to start the primary
    /// service against.
    pub fn genesis(&self) -> (r: &TestValidatorGenesis)
        requires
            self.spec_genesis() is Some,
        ensures
            Some(*r) == self.spec_genesis(),
    {
        self.genesis.as_ref().unwrap()
    }

    /// Take the handle of a completed sequence: the ready state. The
    /// handle owns the genesis descriptor, the reserved ports, the
    /// advertised addresses and the root keypair's address.
    pub fn finish(self) -> (handle: TestValidatorRunner)
        requires
            self.wf(),
            self.spec_stage() is ClientWarmed,
        ensures
            handle.wf(),
            !handle.spec_released(),
            Some(handle.spec_ports()) == self.spec_ports(),
            Some(handle.spec_genesis()) == self.spec_genesis(),
            handle.spec_rpc_url() == self.spec_primary()->0.rpc_url,
            handle.spec_pubsub_url() == self.spec_primary()->0.pubsub_url,
            handle.spec_mint_pubkey() == self.spec_primary()->0.mint_pubkey,
    {
        let TestValidatorRunnerLifecycle { ports, genesis, primary, .. } = self;
        let info = primary.unwrap();
        TestValidatorRunner {
            genesis: genesis.unwrap(),
            ports: ports.unwrap(),
            rpc_url: info.rpc_url,
            pubsub_url: info.pubsub_url,
            mint_pubkey: info.mint_pubkey,
            released: false,
        }
    }
}

/// The handle of a ready validator instance: the exclusive owner of the
/// reserved ports, the genesis descriptor, the advertised addresses and
/// the root keypair's address, until released.
pub struct TestValidatorRunner {
    genesis: TestValidatorGenesis,
    ports: TestValidatorPorts,
    rpc_url: String,
    pubsub_url: String,
    mint_pubkey: Address,
    released: bool,
}

impl TestValidatorRunner {
    pub closed spec fn spec_genesis(&self) -> TestValidatorGenesis {
        self.genesis
    }

    pub closed spec fn spec_ports(&self) -> TestValidatorPorts {
        self.ports
    }

    pub closed spec fn spec_rpc_url(&self) -> String {
        self.rpc_url
    }

    pub closed spec fn spec_pubsub_url(&self) -> String {
        self.pubsub_url
    }

    pub closed spec fn spec_mint_pubkey(&self) -> Address {
        self.mint_pubkey
    }

    pub closed spec fn spec_released(&self) -> bool {
        self.released
    }

    pub closed spec fn wf(&self) -> bool {
        self.ports.wf()
    }

    /// The advertised RPC address.
    pub fn rpc_url(&self) -> (r: &String)
        ensures
            r == self.spec_rpc_url(),
    {
        &self.rpc_url
    }

    /// The advertised event-subscription address.
    pub fn pubsub_url(&self) -> (r: &String)
        ensures
            r == self.spec_pubsub_url(),
    {
        &self.pubsub_url
    }

    /// The genesis descriptor the instance was started from.
    pub fn genesis(&self) -> (r: &TestValidatorGenesis)
        ensures
            r == self.spec_genesis(),
    {
        &self.genesis
    }

    /// The instance's reserved ports.
    pub fn ports(&self) -> (r: TestValidatorPorts)
        ensures
            r == self.spec_ports(),
    {
        self.ports
    }

    /// The address of the root (mint) keypair.
    pub fn mint_pubkey(&self) -> (r: Address)
        ensures
            r == self.spec_mint_pubkey(),
    {
        self.mint_pubkey
    }

    /// Release the handle: free every reserved port, unconditionally and
    /// idempotently. Releasing frees only the logical reservation; ending
    /// the underlying service processes is their own handles' concern.
    pub fn release(&mut self, registry: &mut PortRegistry)
        requires
            old(self).wf(),
        ensures
            final(self).wf(),
            final(self).spec_released(),
            final(self).spec_ports() == old(self).spec_ports(),
            final(self).spec_genesis() == old(self).spec_genesis(),
            !old(self).spec_released() ==> forall|p: u16|
                #[trigger] final(registry)@.contains(p) <==> old(registry)@.contains(p) && !old(
                    self,
                ).spec_ports().spec_contains_port(p),
            old(self).spec_released() ==> final(registry)@ == old(registry)@,
    {
        if !self.released {
            registry.free_ports(&self.ports);
            self.released = true;
        }
    }
}

/// A run of the machine: `stages[0]` is the start, and each event turned
/// `stages[i]` into `stages[i + 1]` while emitting `actions[i]`.
pub open spec fn spec_trace_consistent(
    stages: Seq<RunnerStage>,
    actions: Seq<RunnerAction>,
) -> bool {
    &&& stages.len() == actions.len() + 1
    &&& stages[0] is Unstarted
    &&& forall|i: int|
        0 <= i < actions.len() ==> #[trigger] lifecycle_next(stages[i], stages[i + 1], actions[i])
}

/// Along a consistent run the stage rank never decreases.
pub proof fn lemma_stage_rank_monotone(
    stages: Seq<RunnerStage>,
    actions: Seq<RunnerAction>,
    i: int,
    j: int,
)
    requires
        spec_trace_consistent(stages, actions),
        0 <= i <= j < stages.len(),
    ensures
        spec_stage_rank(stages[i]) <= spec_stage_rank(stages[j]),
    decreases j - i,
{
    if i < j {
        assert(lifecycle_next(stages[i], stages[i + 1], actions[i]));
        lemma_stage_rank_monotone(stages, actions, i + 1, j);
    }
}

/// Startup is strictly sequence-ordered: along any consistent run, the
/// collaborator calls that were emitted come in strictly increasing order
/// of their stage: reserve ports and start the auxiliary service, start
/// the primary service, construct the client, warm up, complete. No call
/// is repeated and none overtakes an earlier one.
pub proof fn lemma_startup_strictly_ordered(stages: Seq<RunnerStage>, actions: Seq<RunnerAction>)
    requires
        spec_trace_consistent(stages, actions),
    ensures
        forall|i: int, j: int|
            0 <= i < j < actions.len() && !(actions[i] is Fail) && !(actions[j] is Fail)
                ==> spec_action_rank(actions[i]) < spec_action_rank(actions[j]),
{
    assert forall|i: int, j: int|
        0 <= i < j < actions.len() && !(actions[i] is Fail) && !(actions[j] is Fail)
        implies spec_action_rank(actions[i]) < spec_action_rank(actions[j]) by {
        assert(lifecycle_next(stages[i], stages[i + 1], actions[i]));
        assert(lifecycle_next(stages[j], stages[j + 1], actions[j]));
        lemma_stage_rank_monotone(stages, actions, i + 1, j);
        assert(spec_action_rank(actions[i]) == spec_stage_rank(stages[i + 1]));
        assert(spec_action_rank(actions[j]) == spec_stage_rank(stages[j + 1]));
        assert(spec_stage_rank(stages[j + 1]) == spec_stage_rank(stages[j]) + 1);
    }
}

/// A failure at any stage prevents every later stage from executing: a
/// consistent run reaches `Failed` only as its very last stage, because no
/// transition leaves it; no event is accepted and no action is emitted
/// after a failure.
pub proof fn lemma_failed_is_terminal(
    stages: Seq<RunnerStage>,
    actions: Seq<RunnerAction>,
    k: int,
)
    requires
        spec_trace_consistent(stages, actions),
        0 <= k < stages.len(),
        stages[k] is Failed,
    ensures
        k == stages.len() - 1,
{
    if k < stages.len() - 1 {
        assert(lifecycle_next(stages[k], stages[k + 1], actions[k]));
    }
}

} // verus!
