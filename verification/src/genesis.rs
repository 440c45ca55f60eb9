//! The genesis configurator: assembles the startup descriptor the primary
//! validator service consumes from a runner configuration.

use vstd::prelude::*;
use crate::address::Address;
use crate::config::Account;
use crate::config::EpochSchedule;
use crate::config::LAMPORTS_PER_SOL;
use crate::config::TestProgramInfo;
use crate::config::TestValidatorRunnerProps;
use crate::config::UpgradeableProgramInfo;
use crate::ports::TestValidatorPorts;

verus! {

/// The balance seeded to the faucet service's own operating account: one
/// million units of native currency.
pub const FAUCET_OPERATING_LAMPORTS: u64 = 1_000_000 * LAMPORTS_PER_SOL;

/// The startup descriptor handed to the primary validator service: ports,
/// RPC options, clock parameters, programs to deploy, and the accounts to
/// seed, in order.
#[derive(Debug, PartialEq)]
pub struct TestValidatorGenesis {
    /// The RPC port the validator binds.
    pub rpc_port: u16,
    /// The first gossip port.
    pub gossip_port: u16,
    /// The whole inclusive gossip port range.
    pub port_range: (u16, u16),
    /// The faucet's localhost port, registered so the validator offers
    /// automated funding; absent when no faucet is wired in.
    pub faucet_port: Option<u16>,
    /// Extended transaction history is kept for RPC queries.
    pub enable_rpc_transaction_history: bool,
    /// The slot the ledger's clock is warped to after start, past genesis,
    /// so that fresh accounts can transact at once.
    pub warp_slot: u64,
    /// The epoch schedule override.
    pub epoch_schedule: EpochSchedule,
    /// The programs deployed at genesis.
    pub programs: Vec<UpgradeableProgramInfo>,
    /// The accounts seeded at genesis, in seeding order; a later entry of
    /// the same address overwrites an earlier one.
    pub accounts: Vec<(Address, Account)>,
}

/// The program descriptor as genesis takes it, from the caller's form.
pub open spec fn spec_program_entry(p: TestProgramInfo) -> UpgradeableProgramInfo {
    UpgradeableProgramInfo {
        program_id: p.program_id,
        loader: p.loader,
        upgrade_authority: p.upgrade_authority,
        program_path: p.program_path,
    }
}

/// A plainly funded account: the given balance, no data, owned by the
/// zero address.
pub open spec fn spec_is_funded_account(a: Account, lamports: u64) -> bool {
    &&& a.lamports == lamports
    &&& a.data@.len() == 0
    &&& a.owner == Address::spec_zero()
    &&& !a.executable
    &&& a.rent_epoch == 0
}

/// The faucet's operating account: its fixed balance, no data, owned by
/// the system program, whose address is the zero address.
pub open spec fn spec_is_faucet_account(a: Account) -> bool {
    spec_is_funded_account(a, FAUCET_OPERATING_LAMPORTS)
}

/// The accounts a seeding sequence denotes, merged in order: a later
/// entry of the same address overwrites an earlier one.
pub open spec fn spec_accounts_map(entries: Seq<(Address, Account)>) -> Map<Address, Account>
    decreases entries.len(),
{
    if entries.len() == 0 {
        Map::empty()
    } else {
        spec_accounts_map(entries.drop_last()).insert(entries.last().0, entries.last().1)
    }
}

/// Last write wins: when no later entry carries the same address, the
/// merged map holds exactly that entry's account for it.
pub proof fn lemma_accounts_map_last_write_wins(entries: Seq<(Address, Account)>, i: int)
    requires
        0 <= i < entries.len(),
        forall|j: int| i < j < entries.len() ==> entries[j].0 != entries[i].0,
    ensures
        spec_accounts_map(entries).dom().contains(entries[i].0),
        spec_accounts_map(entries)[entries[i].0] == entries[i].1,
    decreases entries.len(),
{
    if i < entries.len() - 1 {
        lemma_accounts_map_last_write_wins(entries.drop_last(), i);
    }
}

/// What genesis assembly promises: the descriptor `g` built from the
/// configuration `props`, the resolved `ports` and the faucet's address.
pub open spec fn spec_genesis_of(
    g: TestValidatorGenesis,
    props: TestValidatorRunnerProps,
    ports: TestValidatorPorts,
    faucet_pubkey: Address,
) -> bool {
    &&& g.rpc_port == ports.rpc
    &&& g.gossip_port == ports.gossip_range.0
    &&& g.port_range == ports.gossip_range
    &&& g.faucet_port == Some(ports.faucet)
    &&& g.enable_rpc_transaction_history
    &&& g.warp_slot == props.warp_slot
    &&& g.epoch_schedule == props.epoch_schedule
    &&& g.programs@ == props.programs@.map_values(|p: TestProgramInfo| spec_program_entry(p))
    &&& g.accounts@.len() == props.pubkeys@.len() + 1 + props.accounts@.len()
    &&& forall|i: int|
        0 <= i < props.pubkeys@.len() ==> (#[trigger] g.accounts@[i]).0 == props.pubkeys@[i]
            && spec_is_funded_account(g.accounts@[i].1, props.initial_lamports)
    &&& g.accounts@[props.pubkeys@.len() as int].0 == faucet_pubkey
    &&& spec_is_faucet_account(g.accounts@[props.pubkeys@.len() as int].1)
    &&& forall|i: int|
        0 <= i < props.accounts@.len() ==> g.accounts@[props.pubkeys@.len() + 1 + i]
            == props.accounts@[i]
}

/// Build the startup descriptor from a runner configuration, the resolved
/// ports, and the faucet's address: set the RPC and gossip ports, enable
/// extended transaction history, register the faucet's port, apply the
/// warp slot and the epoch schedule, register every program descriptor,
/// then seed one account per funded address, one operating account for the
/// faucet itself, and the caller's raw accounts last.
pub fn build_genesis(
    props: TestValidatorRunnerProps,
    ports: TestValidatorPorts,
    faucet_pubkey: Address,
) -> (g: TestValidatorGenesis)
    ensures
        spec_genesis_of(g, props, ports, faucet_pubkey),
{
    let TestValidatorRunnerProps {
        ports: _,
        programs,
        pubkeys,
        initial_lamports,
        commitment: _,
        accounts,
        warp_slot,
        epoch_schedule,
    } = props;

    let ghost programs0 = programs@;
    let mut src = programs;
    let mut converted: Vec<UpgradeableProgramInfo> = Vec::new();
    while src.len() > 0
        invariant
            src@ =~= programs0.skip(converted@.len() as int),
            converted@.len() <= programs0.len(),
            converted@ =~= programs0.take(converted@.len() as int).map_values(
                |p: TestProgramInfo| spec_program_entry(p),
            ),
        decreases src@.len(),
    {
        let ghost n = converted@.len() as int;
        let p = src.remove(0);
        assert(p == programs0[n]);
        converted.push(UpgradeableProgramInfo::from(p));
        proof {
            assert(src@ =~= programs0.skip(n + 1));
            assert(converted@ =~= programs0.take(n + 1).map_values(
                |q: TestProgramInfo| spec_program_entry(q),
            ));
        }
    }
    proof {
        assert(converted@ =~= programs0.map_values(|p: TestProgramInfo| spec_program_entry(p)));
    }

    let mut seeded: Vec<(Address, Account)> = Vec::new();
    let n_pubkeys = pubkeys.len();
    let mut i: usize = 0;
    while i < n_pubkeys
        invariant
            i <= n_pubkeys,
            n_pubkeys == pubkeys@.len(),
            seeded@.len() == i,
            forall|j: int|
                0 <= j < i ==> (#[trigger] seeded@[j]).0 == pubkeys@[j] && spec_is_funded_account(
                    seeded@[j].1,
                    initial_lamports,
                ),
        decreases n_pubkeys - i,
    {
        let pk = pubkeys[i];
        seeded.push((pk, Account::new(initial_lamports, 0, Address::zero())));
        i = i + 1;
    }
    seeded.push((faucet_pubkey, Account::new(FAUCET_OPERATING_LAMPORTS, 0, Address::zero())));
    let mut rest = accounts;
    seeded.append(&mut rest);

    TestValidatorGenesis {
        rpc_port: ports.rpc,
        gossip_port: ports.gossip_range.0,
        port_range: ports.gossip_range,
        faucet_port: Some(ports.faucet),
        enable_rpc_transaction_history: true,
        warp_slot,
        epoch_schedule,
        programs: converted,
        accounts: seeded,
    }
}

} // verus!
