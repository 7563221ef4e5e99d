use created_swarm::abi::{AbiParam, DifficultyFunction, StateMutability};
use created_swarm::address::{NodeAddress, Transport};
use created_swarm::config::{DirPath, SwarmConfig, Trust};
use created_swarm::factory::{
    aqua_vm_config, initial_build, plan_node, BaseVmConfig, BuildStep, FailureKind, TestTimeouts,
};
use created_swarm::identity::derive_peer_id;
use created_swarm::lifecycle::{NodeLifecycle, NodeStage};

fn timeouts() -> TestTimeouts {
    TestTimeouts {
        transport_timeout_ms: 1000,
        keep_alive_timeout_ms: 2000,
        execution_timeout_ms: 3000,
        particle_ttl_ms: 4000,
    }
}

#[test]
fn plan_fills_defaults() {
    let cfg = SwarmConfig::new(vec![NodeAddress::memory(2)], NodeAddress::memory(1));
    let fallback = DirPath::root("workdir".to_owned());
    let plan = plan_node(cfg, fallback.clone(), timeouts());
    assert_eq!(plan.transport, Transport::Memory);
    assert_eq!(plan.tmp_dir, fallback);
    assert_eq!(plan.vm_pool.pool_size, 1);
    assert_eq!(plan.vm_pool.execution_timeout_ms, 3000);
    assert!(plan.root_weights.is_empty());
    assert!(plan.certificates.is_empty());
    assert_eq!(plan.cur_time_ms, 0);
    assert_eq!(plan.network.connect_timeout_ms, 1000);
    assert_eq!(plan.network.keep_alive_timeout_ms, 2000);
    assert_eq!(plan.network.outbound_timeout_ms, 1000);
    assert_eq!(plan.network.particle_queue_buffer, 100);
    assert_eq!(plan.network.particle_parallelism, 16);
    assert_eq!(plan.network.bootstrap_frequency, 1);
    assert!(plan.network.allow_local_addresses);
    assert_eq!(plan.network.particle_timeout_ms, 45000);
    assert_eq!(plan.script_storage.timer_resolution_ms, 500);
    assert_eq!(plan.script_storage.max_failures, 1);
    assert_eq!(plan.script_storage.particle_ttl_ms, 5000);
    assert_eq!(plan.script_storage.owner, plan.peer_id);
    assert!(plan.builtins_dir.is_none());
}

#[test]
fn plan_keeps_overrides() {
    let mut cfg = SwarmConfig::new(Vec::new(), NodeAddress::network(5));
    cfg.tmp_dir = Some(DirPath::root("chosen".to_owned()));
    cfg.pool_size = Some(4);
    cfg.builtins_dir = Some(DirPath::root("builtins".to_owned()));
    cfg.trust = Some(Trust {
        root_weights: vec![(vec![7u8], 1)],
        certificates: vec![vec![1u8], vec![2u8]],
        cur_time_ms: 99,
    });
    let plan = plan_node(cfg, DirPath::root("fallback".to_owned()), timeouts());
    assert_eq!(plan.transport, Transport::Network);
    assert_eq!(plan.tmp_dir, DirPath::root("chosen".to_owned()));
    assert_eq!(plan.vm_pool.pool_size, 4);
    assert_eq!(plan.root_weights, vec![(vec![7u8], 1)]);
    assert_eq!(plan.certificates, vec![vec![1u8], vec![2u8]]);
    assert_eq!(plan.cur_time_ms, 99);
    assert_eq!(plan.builtins_dir, Some(DirPath::root("builtins".to_owned())));
}

#[test]
fn management_identity_is_fresh() {
    let cfg = SwarmConfig::new(Vec::new(), NodeAddress::memory(1));
    let node_peer = derive_peer_id(&cfg.keypair);
    let plan = plan_node(cfg, DirPath::root("w".to_owned()), timeouts());
    assert_eq!(plan.peer_id, node_peer);
    assert_eq!(plan.management_peer_id, derive_peer_id(&plan.management_keypair));
    // Two independently drawn ed25519 keys collide with negligible
    // probability; the identities must differ.
    assert_ne!(plan.peer_id, plan.management_peer_id);
}

#[test]
fn vm_config_derives_directories() {
    let tmp = DirPath::root("work".to_owned());
    let kp = libp2p_identity::Keypair::generate_ed25519();
    let peer = derive_peer_id(&kp);
    let plan = aqua_vm_config(BaseVmConfig {
        peer_id: peer,
        tmp_dir: tmp,
        listen_on: NodeAddress::memory(3),
        manager: peer,
    });
    assert_eq!(plan.air_interpreter.segments, vec!["work".to_owned(), "aquamarine.wasm".to_owned()]);
    assert_eq!(plan.avm_base_dir.segments, vec!["work".to_owned(), "interpreter".to_owned()]);
    assert_eq!(plan.services_dir.segments, vec!["work".to_owned(), "services".to_owned()]);
    assert_eq!(
        plan.particles_vault_dir.segments,
        vec!["work".to_owned(), "interpreter".to_owned(), "particles_vault".to_owned()]
    );
    assert_eq!(plan.listen_on, NodeAddress::memory(3));
}

#[test]
fn create_swarm_links_vm_config_to_the_plan() {
    let mut cfg = SwarmConfig::new(vec![NodeAddress::memory(8)], NodeAddress::memory(9));
    cfg.tmp_dir = Some(DirPath::root("chosen".to_owned()));
    let (plan, vm) = created_swarm::factory::create_swarm(
        cfg,
        DirPath::root("fallback".to_owned()),
        timeouts(),
    );
    assert_eq!(plan.tmp_dir, DirPath::root("chosen".to_owned()));
    assert_eq!(vm.avm_base_dir.segments, vec!["chosen".to_owned(), "interpreter".to_owned()]);
    assert_eq!(vm.air_interpreter.segments, vec!["chosen".to_owned(), "aquamarine.wasm".to_owned()]);
    assert_eq!(vm.peer_id, plan.peer_id);
    assert_eq!(vm.manager, plan.management_peer_id);
    assert_eq!(vm.listen_on, NodeAddress::memory(9));
}

#[test]
fn runtime_strategy_sees_the_planned_directories() {
    let cfg = SwarmConfig::new(Vec::new(), NodeAddress::memory(2));
    let vm = created_swarm::factory::AquaVm;
    let (plan, vm_cfg) = created_swarm::factory::create_swarm_with_runtime(
        cfg,
        DirPath::root("fb".to_owned()),
        timeouts(),
        &vm,
    );
    assert_eq!(plan.tmp_dir, DirPath::root("fb".to_owned()));
    assert_eq!(vm_cfg.services_dir.segments, vec!["fb".to_owned(), "services".to_owned()]);
}

#[test]
fn build_machine_walks_the_steps_in_order() {
    let mut b = initial_build(2, true);
    assert_eq!(b.step, BuildStep::Identity);
    b.advance(true);
    assert_eq!(b.step, BuildStep::Management);
    b.advance(true);
    assert_eq!(b.step, BuildStep::SeedTrust);
    b.advance(true);
    assert_eq!(b.step, BuildStep::ReplayCert(0));
    b.advance(true);
    assert_eq!(b.step, BuildStep::ReplayCert(1));
    b.advance(true);
    assert_eq!(b.step, BuildStep::NetworkCfg);
    b.advance(true);
    assert_eq!(b.step, BuildStep::BindTransport);
    b.advance(true);
    assert_eq!(b.step, BuildStep::VmSetup);
    b.advance(true);
    assert_eq!(b.step, BuildStep::Start);
    b.advance(true);
    assert_eq!(b.step, BuildStep::DeployBuiltins);
    b.advance(true);
    assert_eq!(b.step, BuildStep::Complete);
}

#[test]
fn no_certs_no_builtins_shortens_the_walk() {
    let mut b = initial_build(0, false);
    for _ in 0..7 {
        b.advance(true);
    }
    assert_eq!(b.step, BuildStep::Complete);
}

#[test]
fn certificate_rejection_aborts_construction() {
    let mut b = initial_build(3, false);
    b.advance(true);
    b.advance(true);
    b.advance(true);
    b.advance(true);
    assert_eq!(b.step, BuildStep::ReplayCert(1));
    b.advance(false);
    assert_eq!(b.step, BuildStep::Failed(FailureKind::Certificate(1)));
    // Terminal: later successes change nothing.
    b.advance(true);
    assert_eq!(b.step, BuildStep::Failed(FailureKind::Certificate(1)));
}

#[test]
fn builtins_deployment_failure_aborts_construction() {
    let mut b = initial_build(0, true);
    for _ in 0..7 {
        b.advance(true);
    }
    assert_eq!(b.step, BuildStep::DeployBuiltins);
    b.advance(false);
    assert_eq!(b.step, BuildStep::Failed(FailureKind::Builtins));
}

#[test]
fn listen_bind_failure_is_labelled() {
    let mut b = initial_build(0, false);
    for _ in 0..4 {
        b.advance(true);
    }
    assert_eq!(b.step, BuildStep::BindTransport);
    b.advance(false);
    assert_eq!(b.step, BuildStep::Failed(FailureKind::Listen));
}

#[test]
fn workdir_failure_is_labelled() {
    let mut b = initial_build(0, false);
    assert_eq!(b.step, BuildStep::Identity);
    b.advance(false);
    assert_eq!(b.step, BuildStep::Failed(FailureKind::Workdir));
}

#[test]
fn other_step_failures_are_internal() {
    let mut b = initial_build(0, false);
    b.advance(true);
    assert_eq!(b.step, BuildStep::Management);
    b.advance(false);
    assert_eq!(b.step, BuildStep::Failed(FailureKind::Internal));
}

#[test]
fn lifecycle_runs_forward_and_stop_is_idempotent() {
    let mut l = NodeLifecycle::begin();
    assert_eq!(l.stage, NodeStage::Unconfigured);
    l.configure();
    assert_eq!(l.stage, NodeStage::Configured);
    l.launch();
    assert_eq!(l.stage, NodeStage::Launched);
    l.stop();
    assert_eq!(l.stage, NodeStage::Stopped);
    l.stop();
    assert_eq!(l.stage, NodeStage::Stopped);
}

#[test]
fn difficulty_descriptor_matches_the_contract() {
    let f = DifficultyFunction::function();
    assert_eq!(f.name, "difficulty");
    assert!(f.inputs.is_empty());
    assert!(f.outputs.is_empty());
    assert!(f.constant.is_none());
    assert_eq!(f.state_mutability, StateMutability::View);
    assert_eq!(DifficultyFunction::signature(), vec![AbiParam::FixedBytes(32)]);
}
