//! Port allocation: a registry of reserved local ports and a randomized
//! search for a fresh, non-conflicting set of validator ports.
//!
//! The registry is an explicit object owned by the test harness and passed
//! by reference wherever ports are reserved or released; a harness that
//! shares one registry between threads wraps it in a lock. The registry
//! check and the operating-system probe are two separate steps, so a
//! check-then-act window remains between concurrent allocators probing the
//! same host port; within one registry the contracts below make two
//! successful reservations disjoint (`lemma_reservations_disjoint`).

use vstd::prelude::*;
use std::collections::HashSet;

verus! {

/// Relies on `port_check::is_local_ipv4_port_free`: whether localhost could
/// bind the port at the moment of the probe. The answer depends on the
/// state of the host, so nothing is promised of it.
#[verifier::external_body]
fn os_port_free(port: u16) -> bool {
    port_check::is_local_ipv4_port_free(port)
}

/// Relies on `rand::random_range`: a uniformly random value of the given
/// range, which panics only when the range is empty.
#[verifier::external_body]
fn random_in_range(low: u16, high: u16) -> (r: u16)
    requires
        low < high,
    ensures
        low <= r < high,
{
    rand::random_range(low..high)
}

/// The set of local ports currently reserved for running validators.
pub struct PortRegistry {
    used: HashSet<u16>,
}

impl View for PortRegistry {
    type V = Set<u16>;

    closed spec fn view(&self) -> Set<u16> {
        self.used@
    }
}

impl PortRegistry {
    /// A registry with no port reserved.
    pub fn new() -> (r: PortRegistry)
        ensures
            r@ == Set::<u16>::empty(),
    {
        PortRegistry { used: HashSet::new() }
    }

    /// Whether `port` is reserved in this registry.
    pub fn is_marked(&self, port: u16) -> (r: bool)
        ensures
            r == self@.contains(port),
    {
        self.used.contains(&port)
    }

    /// Reserve `port`.
    pub fn mark_port_used(&mut self, port: u16)
        ensures
            final(self)@ == old(self)@.insert(port),
    {
        self.used.insert(port);
    }

    /// Release `port`. Freeing a port that was never reserved leaves the
    /// registry unchanged.
    pub fn free_port(&mut self, port: u16)
        ensures
            final(self)@ == old(self)@.remove(port),
    {
        self.used.remove(&port);
    }

    /// Reserve every port of a well-formed set.
    pub fn mark_ports_used(&mut self, ports: &TestValidatorPorts)
        requires
            ports.wf(),
        ensures
            forall|p: u16|
                #[trigger] final(self)@.contains(p) <==> old(self)@.contains(p)
                    || ports.spec_contains_port(p),
    {
        let ghost pre = self@;
        self.mark_port_used(ports.rpc);
        self.mark_port_used(ports.pubsub);
        self.mark_port_used(ports.faucet);
        let end: u16 = ports.gossip_range.1;
        let mut p: u16 = ports.gossip_range.0;
        while p < end
            invariant
                ports.gossip_range.0 <= p <= end,
                forall|q: u16|
                    #[trigger] self@.contains(q) <==> pre.contains(q) || q == ports.rpc
                        || q == ports.pubsub || q == ports.faucet
                        || (ports.gossip_range.0 <= q < p),
            decreases end - p,
        {
            self.mark_port_used(p);
            p = p + 1;
        }
        self.mark_port_used(end);
    }

    /// Release every port of a well-formed set.
    pub fn free_ports(&mut self, ports: &TestValidatorPorts)
        requires
            ports.wf(),
        ensures
            forall|p: u16|
                #[trigger] final(self)@.contains(p) <==> old(self)@.contains(p)
                    && !ports.spec_contains_port(p),
    {
        let ghost pre = self@;
        self.free_port(ports.rpc);
        self.free_port(ports.pubsub);
        self.free_port(ports.faucet);
        let end: u16 = ports.gossip_range.1;
        let mut p: u16 = ports.gossip_range.0;
        while p < end
            invariant
                ports.gossip_range.0 <= p <= end,
                forall|q: u16|
                    #[trigger] self@.contains(q) <==> pre.contains(q) && !(q == ports.rpc
                        || q == ports.pubsub || q == ports.faucet
                        || (ports.gossip_range.0 <= q < p)),
            decreases end - p,
        {
            self.free_port(p);
            p = p + 1;
        }
        self.free_port(end);
    }
}

/// Whether `port` is free for a new reservation: free at the OS level and
/// absent from the registry. Used both during the random search and to
/// validate an explicitly supplied port set. Only the registry half can be
/// promised; the OS probe may change by the time the port is used.
pub fn is_port_available(registry: &PortRegistry, port: u16) -> (r: bool)
    ensures
        r ==> !registry@.contains(port),
{
    !registry.is_marked(port) && os_port_free(port)
}

/// Whether every port of a well-formed set is available.
pub fn is_port_set_available(registry: &PortRegistry, ports: &TestValidatorPorts) -> (r: bool)
    requires
        ports.wf(),
    ensures
        r ==> forall|p: u16| ports.spec_contains_port(p) ==> !registry@.contains(p),
{
    if !is_port_available(registry, ports.rpc) {
        return false;
    }
    if !is_port_available(registry, ports.pubsub) {
        return false;
    }
    if !is_port_available(registry, ports.faucet) {
        return false;
    }
    let end: u16 = ports.gossip_range.1;
    let mut p: u16 = ports.gossip_range.0;
    while p < end
        invariant
            ports.gossip_range.0 <= p <= end,
            !registry@.contains(ports.rpc),
            !registry@.contains(ports.pubsub),
            !registry@.contains(ports.faucet),
            forall|q: u16| ports.gossip_range.0 <= q < p ==> !registry@.contains(q),
        decreases end - p,
    {
        if !is_port_available(registry, p) {
            return false;
        }
        p = p + 1;
    }
    is_port_available(registry, end)
}

/// The ports used by one validator instance: the RPC port, the websocket
/// subscription port, the faucet port, and an inclusive range of gossip
/// ports.
#[derive(Clone, Copy, Debug, PartialEq, Eq)]
pub struct TestValidatorPorts {
    pub rpc: u16,
    pub pubsub: u16,
    pub faucet: u16,
    pub gossip_range: (u16, u16),
}

impl TestValidatorPorts {
    /// Whether `p` is one of this set's ports: one of the three service
    /// ports or a port of the inclusive gossip range.
    pub open spec fn spec_contains_port(self, p: u16) -> bool {
        p == self.rpc || p == self.pubsub || p == self.faucet || (self.gossip_range.0 <= p
            <= self.gossip_range.1)
    }

    /// The number of ports in the inclusive gossip range.
    pub open spec fn spec_gossip_len(self) -> int {
        self.gossip_range.1 - self.gossip_range.0 + 1
    }

    /// Well-formedness: the three service ports are pairwise distinct and
    /// lie outside the gossip range, and the gossip range is a proper
    /// range of exactly 21 ports.
    pub open spec fn wf(self) -> bool {
        &&& self.gossip_range.0 < self.gossip_range.1
        &&& self.spec_gossip_len() == 21
        &&& self.rpc != self.pubsub
        &&& self.rpc != self.faucet
        &&& self.pubsub != self.faucet
        &&& !(self.gossip_range.0 <= self.rpc <= self.gossip_range.1)
        &&& !(self.gossip_range.0 <= self.pubsub <= self.gossip_range.1)
        &&& !(self.gossip_range.0 <= self.faucet <= self.gossip_range.1)
    }

    /// Every port of the set, enumerated: rpc, pubsub, faucet, then the
    /// gossip range in ascending order.
    pub open spec fn spec_all_ports(self) -> Seq<u16> {
        seq![self.rpc, self.pubsub, self.faucet] + Seq::new(
            self.spec_gossip_len() as nat,
            |i: int| (self.gossip_range.0 + i) as u16,
        )
    }

    pub open spec fn spec_default() -> TestValidatorPorts {
        TestValidatorPorts { rpc: 8899, pubsub: 8900, faucet: 9900, gossip_range: (8001, 8021) }
    }

    /// Search the registry and the host for a fresh set of ports. A
    /// returned set is well-formed and wholly absent from the registry;
    /// after the retry budget is exhausted nothing is returned.
    pub fn try_random_ports(registry: &PortRegistry) -> (r: Option<TestValidatorPorts>)
        ensures
            r matches Some(ps) ==> ps.wf() && forall|p: u16|
                ps.spec_contains_port(p) ==> !registry@.contains(p),
    {
        match find_ports(registry) {
            Some((rpc, pubsub, faucet, gossip_range)) => {
                let ps = TestValidatorPorts { rpc, pubsub, faucet, gossip_range };
                assert forall|p: u16| ps.spec_contains_port(p) implies !registry@.contains(p) by {
                    assert(ps.rpc <= p <= ps.gossip_range.1);
                }
                Some(ps)
            },
            None => None,
        }
    }
}

impl Default for TestValidatorPorts {
    /// The documented default ports: rpc 8899, pubsub 8900, faucet 9900,
    /// gossip 8001 through 8021.
    fn default() -> (r: Self)
        ensures
            r == TestValidatorPorts::spec_default(),
            r.wf(),
    {
        TestValidatorPorts { rpc: 8899, pubsub: 8900, faucet: 9900, gossip_range: (8001, 8021) }
    }
}

/// Pick a random base port in `[1000, 65510)` and derive the candidate set
/// `rpc = base`, `pubsub = base + 1`, `faucet = base + 2` and the 21-port
/// gossip range `base + 3 ..= base + 23`; accept it when every one of
/// those ports is available, and retry with a fresh base up to 100 times.
fn find_ports(registry: &PortRegistry) -> (r: Option<(u16, u16, u16, (u16, u16))>)
    ensures
        r matches Some((rpc, pubsub, faucet, range)) ==> {
            &&& pubsub == rpc + 1
            &&& faucet == rpc + 2
            &&& range.0 == rpc + 3
            &&& range.1 == rpc + 23
            &&& 1000 <= rpc < 65510
            &&& forall|p: u16| rpc <= p <= range.1 ==> !registry@.contains(p)
        },
{
    let mut attempts: u16 = 100;
    loop
        invariant
            1 <= attempts <= 100,
        decreases attempts,
    {
        let base: u16 = random_in_range(1000, 65510);
        let end: u16 = base + 23;
        let mut all_available = true;
        let mut p: u16 = base;
        while p <= end && all_available
            invariant
                base <= p <= end + 1,
                1000 <= base < 65510,
                end == base + 23,
                all_available ==> forall|q: u16| base <= q < p ==> !registry@.contains(q),
            decreases end + 1 - p,
        {
            if !is_port_available(registry, p) {
                all_available = false;
            }
            p = p + 1;
        }
        if all_available {
            return Some((base, base + 1, base + 2, (base + 3, base + 23)));
        }
        if attempts <= 1 {
            return None;
        }
        attempts = attempts - 1;
    }
}

/// For every successful allocation, the four service ports and every
/// gossip-range port are pairwise distinct, the gossip range is a proper
/// range, and it holds exactly 21 ports: 24 enumerated ports in all,
/// no two equal.
pub proof fn lemma_well_formed_ports_pairwise_distinct(ps: TestValidatorPorts)
    requires
        ps.wf(),
    ensures
        ps.spec_all_ports().len() == 24,
        forall|i: int, j: int|
            0 <= i < j < ps.spec_all_ports().len() ==> ps.spec_all_ports()[i]
                != ps.spec_all_ports()[j],
        ps.gossip_range.0 < ps.gossip_range.1,
{
    let all = ps.spec_all_ports();
    assert forall|i: int, j: int| 0 <= i < j < all.len() implies all[i] != all[j] by {
        if j >= 3 {
            assert(all[j] == (ps.gossip_range.0 + j - 3) as u16);
            assert(ps.gossip_range.0 <= all[j] <= ps.gossip_range.1);
        }
        if i >= 3 {
            assert(all[i] == (ps.gossip_range.0 + i - 3) as u16);
        }
    }
}

/// Two reservations that both succeeded against the same registry share no
/// port: `r0` is the registry before the first reservation, which found
/// every port of `s1` unreserved and marked them, yielding `r1`; the second
/// then found every port of `s2` unreserved in `r1`.
pub proof fn lemma_reservations_disjoint(
    r0: Set<u16>,
    r1: Set<u16>,
    s1: TestValidatorPorts,
    s2: TestValidatorPorts,
)
    requires
        forall|p: u16| s1.spec_contains_port(p) ==> !r0.contains(p),
        forall|p: u16| #[trigger] r1.contains(p) <==> r0.contains(p) || s1.spec_contains_port(p),
        forall|p: u16| s2.spec_contains_port(p) ==> !r1.contains(p),
    ensures
        forall|p: u16| !(s1.spec_contains_port(p) && s2.spec_contains_port(p)),
{
}

/// Freeing a port is idempotent: freeing it twice leaves the registry
/// exactly as freeing it once does, and freeing a port that is not
/// reserved leaves the registry unchanged.
pub proof fn lemma_free_port_idempotent(s: Set<u16>, port: u16)
    ensures
        s.remove(port).remove(port) == s.remove(port),
        !s.contains(port) ==> s.remove(port) == s,
{
    assert(s.remove(port).remove(port) =~= s.remove(port));
    if !s.contains(port) {
        assert(s.remove(port) =~= s);
    }
}

} // verus!
