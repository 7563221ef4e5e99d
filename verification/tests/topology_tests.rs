use created_swarm::address::{NodeAddress, Transport};
use created_swarm::topology::{generate_addresses, mesh_excluding, BootstrapFilter, FullMesh};

#[test]
fn five_addresses_are_distinct_and_ordered() {
    let addrs = generate_addresses(Transport::Memory, 100, 5);
    assert_eq!(addrs.len(), 5);
    for (i, a) in addrs.iter().enumerate() {
        assert_eq!(a.transport, Transport::Memory);
        assert_eq!(a.route, 100 + i as u64);
    }
    for i in 0..5 {
        for j in 0..5 {
            if i != j {
                assert_ne!(addrs[i], addrs[j]);
            }
        }
    }
}

#[test]
fn one_address_swarm() {
    let addrs = generate_addresses(Transport::Memory, 7, 1);
    assert_eq!(addrs.len(), 1);
    assert_eq!(addrs[0].route, 7);
    let bs = mesh_excluding(&addrs, 0);
    assert_eq!(bs.len(), 0);
}

#[test]
fn base_near_max_restarts_at_zero() {
    let addrs = generate_addresses(Transport::Network, u64::MAX, 3);
    assert_eq!(addrs.len(), 3);
    assert_eq!(addrs[0].route, 0);
    assert_eq!(addrs[1].route, 1);
    assert_eq!(addrs[2].route, 2);
}

#[test]
fn base_exactly_fitting_is_kept() {
    let addrs = generate_addresses(Transport::Network, u64::MAX - 2, 3);
    assert_eq!(addrs[0].route, u64::MAX - 2);
    assert_eq!(addrs[2].route, u64::MAX);
}

#[test]
fn full_mesh_excludes_own_address() {
    let addrs = generate_addresses(Transport::Memory, 10, 4);
    for i in 0..4 {
        let bs = mesh_excluding(&addrs, i);
        assert_eq!(bs.len(), 3);
        assert!(!bs.contains(&addrs[i]));
        for a in addrs.iter() {
            if *a != addrs[i] {
                assert!(bs.contains(a));
            }
        }
    }
}

#[test]
fn full_mesh_filter_keeps_everything() {
    let addrs = generate_addresses(Transport::Memory, 0, 3);
    let mesh = mesh_excluding(&addrs, 2);
    let picked = FullMesh.select(mesh.clone());
    assert_eq!(picked, mesh);
}

#[test]
fn memory_and_network_constructors() {
    let m = NodeAddress::memory(9);
    assert_eq!(m.transport, Transport::Memory);
    assert_eq!(m.route, 9);
    let s = NodeAddress::network(9);
    assert_eq!(s.transport, Transport::Network);
    assert_ne!(m, s);
}
