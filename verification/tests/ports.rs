//! Tests of the port registry and the randomized port search.

use test_utils_solana::ports::is_port_set_available;
use test_utils_solana::PortRegistry;
use test_utils_solana::TestValidatorPorts;

#[test]
fn random_allocation_ports_are_pairwise_distinct() {
    let registry = PortRegistry::new();
    let ps = TestValidatorPorts::try_random_ports(&registry)
        .expect("a fresh registry and host should yield a port set");
    let (start, end) = ps.gossip_range;
    assert!(start < end);
    assert_eq!(end - start + 1, 21);
    let mut all: Vec<u16> = vec![ps.rpc, ps.pubsub, ps.faucet];
    for p in start..=end {
        all.push(p);
    }
    assert_eq!(all.len(), 24);
    for i in 0..all.len() {
        for j in 0..all.len() {
            if i != j {
                assert_ne!(all[i], all[j], "ports {} and {} collide", i, j);
            }
        }
    }
}

#[test]
fn random_allocation_avoids_the_registry() {
    let mut registry = PortRegistry::new();
    let first = TestValidatorPorts::try_random_ports(&registry).expect("first allocation");
    registry.mark_ports_used(&first);
    let second = TestValidatorPorts::try_random_ports(&registry).expect("second allocation");
    let mut first_ports: Vec<u16> = vec![first.rpc, first.pubsub, first.faucet];
    for p in first.gossip_range.0..=first.gossip_range.1 {
        first_ports.push(p);
    }
    let mut second_ports: Vec<u16> = vec![second.rpc, second.pubsub, second.faucet];
    for p in second.gossip_range.0..=second.gossip_range.1 {
        second_ports.push(p);
    }
    for p in &second_ports {
        assert!(!first_ports.contains(p), "port {} was handed out twice", p);
    }
}

#[test]
fn mark_and_free_ports() {
    let mut registry = PortRegistry::new();
    assert!(!registry.is_marked(4000));
    registry.mark_port_used(4000);
    assert!(registry.is_marked(4000));
    registry.free_port(4000);
    assert!(!registry.is_marked(4000));
}

#[test]
fn free_port_is_idempotent() {
    let mut registry = PortRegistry::new();
    registry.mark_port_used(4100);
    registry.mark_port_used(4101);

    // Freeing a port that was never reserved changes nothing.
    registry.free_port(4567);
    assert!(registry.is_marked(4100));
    assert!(registry.is_marked(4101));
    assert!(!registry.is_marked(4567));

    // Freeing twice leaves the same state as freeing once.
    registry.free_port(4100);
    registry.free_port(4100);
    assert!(!registry.is_marked(4100));
    assert!(registry.is_marked(4101));
}

#[test]
fn marked_set_is_not_available() {
    let mut registry = PortRegistry::new();
    let ps = TestValidatorPorts {
        rpc: 41899,
        pubsub: 41900,
        faucet: 42900,
        gossip_range: (41001, 41021),
    };
    assert!(is_port_set_available(&registry, &ps));
    registry.mark_ports_used(&ps);
    assert!(!is_port_set_available(&registry, &ps));
    // A set sharing even one port with the reserved one is refused too.
    let overlapping = TestValidatorPorts {
        rpc: 41021,
        pubsub: 43900,
        faucet: 43901,
        gossip_range: (43001, 43021),
    };
    assert!(!is_port_set_available(&registry, &overlapping));
}

#[test]
fn default_ports_are_documented_values() {
    let ps = TestValidatorPorts::default();
    assert_eq!(ps.rpc, 8899);
    assert_eq!(ps.pubsub, 8900);
    assert_eq!(ps.faucet, 9900);
    assert_eq!(ps.gossip_range, (8001, 8021));
}
