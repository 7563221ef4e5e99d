use created_swarm::address::{NodeAddress, Transport};
use created_swarm::config::{DirPath, SwarmConfig, Trust};

#[test]
fn memory_listen_address_gives_memory_transport() {
    let cfg = SwarmConfig::new(Vec::new(), NodeAddress::memory(1));
    assert_eq!(cfg.transport, Transport::Memory);
}

#[test]
fn socket_listen_address_gives_network_transport() {
    let cfg = SwarmConfig::new(Vec::new(), NodeAddress::network(1));
    assert_eq!(cfg.transport, Transport::Network);
}

#[test]
fn new_config_leaves_options_unset() {
    let bs = vec![NodeAddress::memory(2), NodeAddress::memory(3)];
    let cfg = SwarmConfig::new(bs.clone(), NodeAddress::memory(1));
    assert_eq!(cfg.bootstraps, bs);
    assert_eq!(cfg.listen_on, NodeAddress::memory(1));
    assert!(cfg.trust.is_none());
    assert!(cfg.tmp_dir.is_none());
    assert!(cfg.pool_size.is_none());
    assert!(cfg.builtins_dir.is_none());
}

#[test]
fn with_trust_carries_the_material() {
    let trust = Trust {
        root_weights: vec![(vec![1u8, 2, 3], 5)],
        certificates: vec![vec![9u8, 9]],
        cur_time_ms: 777,
    };
    let cfg = SwarmConfig::with_trust(Vec::new(), NodeAddress::memory(4), trust);
    let got = cfg.trust.expect("trust kept");
    assert_eq!(got.root_weights, vec![(vec![1u8, 2, 3], 5)]);
    assert_eq!(got.certificates, vec![vec![9u8, 9]]);
    assert_eq!(got.cur_time_ms, 777);
}

#[test]
fn default_trust_is_empty() {
    let t = Trust::default();
    assert!(t.root_weights.is_empty());
    assert!(t.certificates.is_empty());
    assert_eq!(t.cur_time_ms, 0);
}

#[test]
fn dir_path_joins_segments() {
    let p = DirPath::root("tmp".to_owned()).join("node-a".to_owned()).join("services".to_owned());
    assert_eq!(
        p.segments,
        vec!["tmp".to_owned(), "node-a".to_owned(), "services".to_owned()]
    );
}
