//! Node construction planning.
//!
//! Materializing one running node from a `SwarmConfig` is a fixed sequence
//! of steps, each a hard dependency on the previous one succeeding: derive
//! the identity and settle the working directory, generate a management
//! identity, seed the trust graph and replay each certificate in order,
//! build the network configuration, bind the transport, set the VM pool and
//! script storage up, start the node, and finally deploy builtin services
//! when a source directory is configured. Any rejection aborts the whole
//! construction.
//!
//! The collaborators that perform the steps live outside this crate. Here
//! the configuration they consume is derived exactly ([`plan_node`],
//! [`aqua_vm_config`]), and the order and the fail-fast rule are the
//! [`NodeBuild`] machine, which the driving loop advances with each step's
//! outcome.

use vstd::prelude::*;

use crate::address::{NodeAddress, Transport};
use crate::config::{DirPath, SwarmConfig};
use crate::identity::{derive_peer_id, peer_id_of, public_of};

verus! {

/// Process-wide timeouts used during construction, injected at each call
/// site rather than read from ambient globals.
#[derive(Clone, Copy, PartialEq, Eq, Structural, Debug)]
pub struct TestTimeouts {
    pub transport_timeout_ms: u64,
    pub keep_alive_timeout_ms: u64,
    pub execution_timeout_ms: u64,
    pub particle_ttl_ms: u64,
}

/// Network and protocol configuration with fixed test-appropriate buffer
/// sizes and concurrency limits.
#[derive(Clone, Copy, PartialEq, Eq, Structural, Debug)]
pub struct NetworkPlan {
    pub connect_timeout_ms: u64,
    pub keep_alive_timeout_ms: u64,
    pub outbound_timeout_ms: u64,
    pub particle_queue_buffer: usize,
    pub particle_parallelism: usize,
    pub bootstrap_frequency: usize,
    pub allow_local_addresses: bool,
    pub particle_timeout_ms: u64,
}

/// Script-storage backend configuration: bounded failure tolerance, entry
/// time-to-live, and the node identity that owns the stored scripts.
#[derive(Clone, Copy, Debug)]
pub struct ScriptStoragePlan {
    pub timer_resolution_ms: u64,
    pub max_failures: usize,
    pub particle_ttl_ms: u64,
    pub owner: libp2p_identity::PeerId,
}

/// VM pool sizing.
#[derive(Clone, Copy, PartialEq, Eq, Structural, Debug)]
pub struct VmPoolPlan {
    pub pool_size: usize,
    pub execution_timeout_ms: u64,
}

/// Everything node construction derives from one `SwarmConfig` before the
/// collaborators run: identities, the settled working directory, trust
/// material to replay, and each collaborator's configuration.
pub struct NodePlan {
    pub keypair: libp2p_identity::Keypair,
    pub peer_id: libp2p_identity::PeerId,
    pub management_keypair: libp2p_identity::Keypair,
    pub management_peer_id: libp2p_identity::PeerId,
    pub transport: Transport,
    pub bootstraps: Vec<NodeAddress>,
    pub listen_on: NodeAddress,
    pub tmp_dir: DirPath,
    pub root_weights: Vec<(Vec<u8>, u32)>,
    pub certificates: Vec<Vec<u8>>,
    pub cur_time_ms: u64,
    pub network: NetworkPlan,
    pub script_storage: ScriptStoragePlan,
    pub vm_pool: VmPoolPlan,
    pub builtins_dir: Option<DirPath>,
}

/// What a plan derived from `cfg` must hold: the working directory is the
/// configured one, or the caller-assigned fallback when none was supplied;
/// the VM pool size defaults to 1; the transport, bootstrap list and
/// listen address are taken over unchanged; trust material passes through
/// (no roots, no certificates, time zero when none was configured); the
/// remaining knobs are the injected timeouts and fixed test-appropriate
/// limits.
pub open spec fn planned(cfg: SwarmConfig, fallback_tmp_dir: DirPath, t: TestTimeouts, plan: NodePlan) -> bool {
    &&& plan.transport == cfg.transport
    &&& plan.bootstraps == cfg.bootstraps
    &&& plan.listen_on == cfg.listen_on
    &&& plan.tmp_dir == (match cfg.tmp_dir {
        Some(d) => d,
        None => fallback_tmp_dir,
    })
    &&& plan.root_weights@ == (match cfg.trust {
        Some(tr) => tr.root_weights@,
        None => Seq::<(Vec<u8>, u32)>::empty(),
    })
    &&& plan.certificates@ == (match cfg.trust {
        Some(tr) => tr.certificates@,
        None => Seq::<Vec<u8>>::empty(),
    })
    &&& plan.cur_time_ms == (match cfg.trust {
        Some(tr) => tr.cur_time_ms,
        None => 0u64,
    })
    &&& plan.network == (NetworkPlan {
        connect_timeout_ms: t.transport_timeout_ms,
        keep_alive_timeout_ms: t.keep_alive_timeout_ms,
        outbound_timeout_ms: t.transport_timeout_ms,
        particle_queue_buffer: 100usize,
        particle_parallelism: 16usize,
        bootstrap_frequency: 1usize,
        allow_local_addresses: true,
        particle_timeout_ms: 45000u64,
    })
    &&& plan.script_storage.timer_resolution_ms == 500u64
    &&& plan.script_storage.max_failures == 1usize
    &&& plan.script_storage.particle_ttl_ms == 5000u64
    &&& plan.script_storage.owner == plan.peer_id
    &&& plan.vm_pool == (VmPoolPlan {
        pool_size: match cfg.pool_size {
            Some(p) => p,
            None => 1usize,
        },
        execution_timeout_ms: t.execution_timeout_ms,
    })
    &&& plan.builtins_dir == cfg.builtins_dir
    &&& plan.keypair == cfg.keypair
    &&& plan.peer_id == peer_id_of(public_of(cfg.keypair))
    &&& plan.management_peer_id == peer_id_of(public_of(plan.management_keypair))
}

/// Derives the full construction plan of one node from its configuration;
/// see [`planned`] for everything the plan holds. A separate management
/// keypair is drawn for administrative calls.
pub fn plan_node(cfg: SwarmConfig, fallback_tmp_dir: DirPath, t: TestTimeouts) -> (plan: NodePlan)
    ensures
        planned(cfg, fallback_tmp_dir, t, plan),
{
    let peer_id = derive_peer_id(&cfg.keypair);
    let management_keypair = libp2p_identity::Keypair::generate_ed25519();
    let management_peer_id = derive_peer_id(&management_keypair);
    let tmp_dir = match cfg.tmp_dir {
        Some(d) => d,
        None => fallback_tmp_dir,
    };
    let pool_size = match cfg.pool_size {
        Some(p) => p,
        None => 1,
    };
    let (root_weights, certificates, cur_time_ms) = match cfg.trust {
        Some(tr) => (tr.root_weights, tr.certificates, tr.cur_time_ms),
        None => (Vec::new(), Vec::new(), 0),
    };
    NodePlan {
        keypair: cfg.keypair,
        peer_id,
        management_keypair,
        management_peer_id,
        transport: cfg.transport,
        bootstraps: cfg.bootstraps,
        listen_on: cfg.listen_on,
        tmp_dir,
        root_weights,
        certificates,
        cur_time_ms,
        network: NetworkPlan {
            connect_timeout_ms: t.transport_timeout_ms,
            keep_alive_timeout_ms: t.keep_alive_timeout_ms,
            outbound_timeout_ms: t.transport_timeout_ms,
            particle_queue_buffer: 100,
            particle_parallelism: 16,
            bootstrap_frequency: 1,
            allow_local_addresses: true,
            particle_timeout_ms: 45000,
        },
        script_storage: ScriptStoragePlan {
            timer_resolution_ms: 500,
            max_failures: 1,
            particle_ttl_ms: 5000,
            owner: peer_id,
        },
        vm_pool: VmPoolPlan { pool_size, execution_timeout_ms: t.execution_timeout_ms },
        builtins_dir: cfg.builtins_dir,
    }
}

/// What the VM runtime is handed: base directories below the node's
/// working directory, and the identities that administrative calls check
/// against.
pub struct BaseVmConfig {
    pub peer_id: libp2p_identity::PeerId,
    pub tmp_dir: DirPath,
    pub listen_on: NodeAddress,
    pub manager: libp2p_identity::PeerId,
}

/// The VM runtime configuration derived from one node's base config: where
/// the interpreter module lives, the interpreter's base directory, and the
/// directories the service host works in.
pub struct AquaVmPlan {
    pub air_interpreter: DirPath,
    pub avm_base_dir: DirPath,
    pub services_dir: DirPath,
    pub particles_vault_dir: DirPath,
    pub peer_id: libp2p_identity::PeerId,
    pub manager: libp2p_identity::PeerId,
    pub listen_on: NodeAddress,
}

/// What the derived VM runtime configuration holds: the interpreter
/// module sits directly in the working directory, the interpreter works
/// below `interpreter`, services below `services`, the particle vault
/// below the interpreter's base directory, and the identities and listen
/// address are taken over unchanged.
pub open spec fn vm_planned(base: BaseVmConfig, plan: AquaVmPlan) -> bool {
    &&& plan.air_interpreter@ == base.tmp_dir@.push("aquamarine.wasm"@)
    &&& plan.avm_base_dir@ == base.tmp_dir@.push("interpreter"@)
    &&& plan.services_dir@ == base.tmp_dir@.push("services"@)
    &&& plan.particles_vault_dir@ == base.tmp_dir@.push("interpreter"@).push("particles_vault"@)
    &&& plan.peer_id == base.peer_id
    &&& plan.manager == base.manager
    &&& plan.listen_on == base.listen_on
}

/// Derives the VM runtime configuration; see [`vm_planned`] for everything
/// it holds. Writing the interpreter module out is the caller's
/// filesystem work.
pub fn aqua_vm_config(vm_config: BaseVmConfig) -> (plan: AquaVmPlan)
    ensures
        vm_planned(vm_config, plan),
{
    let air_interpreter = vm_config.tmp_dir.join("aquamarine.wasm".to_owned());
    let avm_base_dir = vm_config.tmp_dir.join("interpreter".to_owned());
    let services_dir = vm_config.tmp_dir.join("services".to_owned());
    let particles_vault_dir = avm_base_dir.join("particles_vault".to_owned());
    AquaVmPlan {
        air_interpreter,
        avm_base_dir,
        services_dir,
        particles_vault_dir,
        peer_id: vm_config.peer_id,
        manager: vm_config.manager,
        listen_on: vm_config.listen_on,
    }
}

/// A pluggable VM runtime: turns one node's base config into whatever
/// configuration that runtime consumes, and says what that configuration
/// satisfies (`derives_ok`). Lets a mocked VM stand in for the real one
/// without touching the rest of construction.
pub trait VmConfigStrategy {
    type Config;

    /// What this strategy promises of a configuration it derives from the
    /// given base.
    spec fn derives_ok(&self, base: BaseVmConfig, r: Self::Config) -> bool;

    fn derive(&self, base: BaseVmConfig) -> (r: Self::Config)
        ensures
            self.derives_ok(base, r),
    ;
}

/// The real VM runtime's strategy.
pub struct AquaVm;

impl VmConfigStrategy for AquaVm {
    type Config = AquaVmPlan;

    open spec fn derives_ok(&self, base: BaseVmConfig, r: AquaVmPlan) -> bool {
        vm_planned(base, r)
    }

    fn derive(&self, base: BaseVmConfig) -> (plan: AquaVmPlan)
        ensures
            vm_planned(base, plan),
    {
        aqua_vm_config(base)
    }
}

/// Plans one node's construction with a pluggable VM runtime: the node
/// plan, and the runtime configuration the strategy derived from it. The
/// strategy is handed exactly the planned base — the node's identity, its
/// settled working directory, its listen address and the management
/// identity — and its result carries the strategy's own promise.
pub fn create_swarm_with_runtime<V: VmConfigStrategy>(
    cfg: SwarmConfig,
    fallback_tmp_dir: DirPath,
    t: TestTimeouts,
    vm: &V,
) -> (r: (NodePlan, V::Config))
    ensures
        planned(cfg, fallback_tmp_dir, t, r.0),
        exists|base: BaseVmConfig|
            {
                &&& #[trigger] vm.derives_ok(base, r.1)
                &&& base.peer_id == r.0.peer_id
                &&& base.manager == r.0.management_peer_id
                &&& base.listen_on == r.0.listen_on
                &&& base.tmp_dir@ == r.0.tmp_dir@
            },
{
    let plan = plan_node(cfg, fallback_tmp_dir, t);
    let base = BaseVmConfig {
        peer_id: plan.peer_id,
        tmp_dir: plan.tmp_dir.duplicate(),
        listen_on: plan.listen_on,
        manager: plan.management_peer_id,
    };
    let ghost gbase = base;
    let vm_cfg = vm.derive(base);
    let r = (plan, vm_cfg);
    proof {
        assert(vm.derives_ok(gbase, r.1));
        assert(gbase.peer_id == r.0.peer_id);
        assert(gbase.manager == r.0.management_peer_id);
        assert(gbase.listen_on == r.0.listen_on);
        assert(gbase.tmp_dir@ == r.0.tmp_dir@);
    }
    r
}

/// Plans one node's construction with the real VM runtime.
pub fn create_swarm(cfg: SwarmConfig, fallback_tmp_dir: DirPath, t: TestTimeouts) -> (r: (
    NodePlan,
    AquaVmPlan,
))
    ensures
        planned(cfg, fallback_tmp_dir, t, r.0),
        vm_planned(
            (BaseVmConfig {
                peer_id: r.0.peer_id,
                tmp_dir: r.0.tmp_dir,
                listen_on: r.0.listen_on,
                manager: r.0.management_peer_id,
            }),
            r.1,
        ),
{
    let plan = plan_node(cfg, fallback_tmp_dir, t);
    let base = BaseVmConfig {
        peer_id: plan.peer_id,
        tmp_dir: plan.tmp_dir.duplicate(),
        listen_on: plan.listen_on,
        manager: plan.management_peer_id,
    };
    let vm_cfg = aqua_vm_config(base);
    (plan, vm_cfg)
}

/// Why a node's construction aborted.
#[derive(Clone, Copy, PartialEq, Eq, Structural, Debug)]
pub enum FailureKind {
    /// The working directory could not be created.
    Workdir,
    /// The certificate at this position was rejected by the trust graph.
    Certificate(usize),
    /// The networking stack could not bind the listen address.
    Listen,
    /// Builtin services could not be deployed.
    Builtins,
    /// A collaborator failed outside the failure points above.
    Internal,
}

/// The step node construction stands before.
#[derive(Clone, Copy, PartialEq, Eq, Structural, Debug)]
pub enum BuildStep {
    /// Derive the node identity and settle the working directory.
    Identity,
    /// Generate the separate management identity.
    Management,
    /// Seed the trust graph with the weighted root keys.
    SeedTrust,
    /// Replay the certificate at this position against the reference time.
    ReplayCert(usize),
    /// Build the network and protocol configuration.
    NetworkCfg,
    /// Instantiate the transport and bind the listen address.
    BindTransport,
    /// Construct script storage and the VM pool.
    VmSetup,
    /// Assemble and start the node.
    Start,
    /// Deploy builtin services.
    DeployBuiltins,
    /// Construction finished.
    Complete,
    /// Construction aborted; terminal.
    Failed(FailureKind),
}

/// The construction state machine of one node: how many certificates are
/// configured, whether builtins are to be deployed, and the step it stands
/// before.
#[derive(Clone, Copy, PartialEq, Eq, Structural, Debug)]
pub struct NodeBuild {
    pub n_certs: usize,
    pub has_builtins: bool,
    pub step: BuildStep,
}

impl NodeBuild {
    /// A certificate position never runs past the configured count.
    pub open spec fn wf(self) -> bool {
        forall|i: usize| self.step == BuildStep::ReplayCert(i) ==> i < self.n_certs
    }

    /// Construction is neither finished nor aborted.
    pub open spec fn in_progress(self) -> bool {
        self.step != BuildStep::Complete && !(self.step is Failed)
    }
}

/// The failure a step's rejection surfaces as.
pub open spec fn failure_at(step: BuildStep) -> FailureKind {
    match step {
        BuildStep::Identity => FailureKind::Workdir,
        BuildStep::ReplayCert(i) => FailureKind::Certificate(i),
        BuildStep::BindTransport => FailureKind::Listen,
        BuildStep::DeployBuiltins => FailureKind::Builtins,
        _ => FailureKind::Internal,
    }
}

/// The step after a successful one, in the fixed construction order.
pub open spec fn step_after(b: NodeBuild) -> BuildStep {
    match b.step {
        BuildStep::Identity => BuildStep::Management,
        BuildStep::Management => BuildStep::SeedTrust,
        BuildStep::SeedTrust => if b.n_certs == 0 {
            BuildStep::NetworkCfg
        } else {
            BuildStep::ReplayCert(0)
        },
        BuildStep::ReplayCert(i) => if i + 1 < b.n_certs {
            BuildStep::ReplayCert((i + 1) as usize)
        } else {
            BuildStep::NetworkCfg
        },
        BuildStep::NetworkCfg => BuildStep::BindTransport,
        BuildStep::BindTransport => BuildStep::VmSetup,
        BuildStep::VmSetup => BuildStep::Start,
        BuildStep::Start => if b.has_builtins {
            BuildStep::DeployBuiltins
        } else {
            BuildStep::Complete
        },
        BuildStep::DeployBuiltins => BuildStep::Complete,
        BuildStep::Complete => BuildStep::Complete,
        BuildStep::Failed(f) => BuildStep::Failed(f),
    }
}

/// One advance of the machine: a successful step moves to the next one in
/// order; a rejection of any in-progress step aborts the construction with
/// that step's failure; Complete and Failed are terminal.
pub open spec fn step_spec(b: NodeBuild, ok: bool) -> NodeBuild {
    if !b.in_progress() {
        b
    } else if ok {
        NodeBuild { step: step_after(b), ..b }
    } else {
        NodeBuild { step: BuildStep::Failed(failure_at(b.step)), ..b }
    }
}

/// Sets the machine up for a plan: certificates to replay, whether
/// builtins deploy, standing before the identity step.
pub fn initial_build(n_certs: usize, has_builtins: bool) -> (b: NodeBuild)
    ensures
        b == (NodeBuild { n_certs, has_builtins, step: BuildStep::Identity }),
        b.wf(),
{
    NodeBuild { n_certs, has_builtins, step: BuildStep::Identity }
}

impl NodeBuild {
    /// Advances the machine with one step's outcome.
    pub fn advance(&mut self, ok: bool)
        requires
            old(self).wf(),
        ensures
            *final(self) == step_spec(*old(self), ok),
            final(self).wf(),
    {
        if matches!(self.step, BuildStep::Complete) || matches!(self.step, BuildStep::Failed(_)) {
            return ;
        }
        if !ok {
            let failure = match self.step {
                BuildStep::Identity => FailureKind::Workdir,
                BuildStep::ReplayCert(i) => FailureKind::Certificate(i),
                BuildStep::BindTransport => FailureKind::Listen,
                BuildStep::DeployBuiltins => FailureKind::Builtins,
                _ => FailureKind::Internal,
            };
            self.step = BuildStep::Failed(failure);
            return ;
        }
        let next = match self.step {
            BuildStep::Identity => BuildStep::Management,
            BuildStep::Management => BuildStep::SeedTrust,
            BuildStep::SeedTrust => if self.n_certs == 0 {
                BuildStep::NetworkCfg
            } else {
                BuildStep::ReplayCert(0)
            },
            BuildStep::ReplayCert(i) => if i + 1 < self.n_certs {
                BuildStep::ReplayCert(i + 1)
            } else {
                BuildStep::NetworkCfg
            },
            BuildStep::NetworkCfg => BuildStep::BindTransport,
            BuildStep::BindTransport => BuildStep::VmSetup,
            BuildStep::VmSetup => BuildStep::Start,
            BuildStep::Start => if self.has_builtins {
                BuildStep::DeployBuiltins
            } else {
                BuildStep::Complete
            },
            BuildStep::DeployBuiltins => BuildStep::Complete,
            BuildStep::Complete => BuildStep::Complete,
            BuildStep::Failed(f) => BuildStep::Failed(f),
        };
        self.step = next;
    }
}

/// The machine run over a sequence of step outcomes, first outcome first.
pub open spec fn run_outcomes(b: NodeBuild, outcomes: Seq<bool>) -> NodeBuild
    decreases outcomes.len(),
{
    if outcomes.len() == 0 {
        b
    } else {
        run_outcomes(step_spec(b, outcomes[0]), outcomes.drop_first())
    }
}

/// An aborted construction stays aborted: no later outcome revives it.
pub proof fn lemma_failure_is_terminal(b: NodeBuild, outcomes: Seq<bool>)
    requires
        b.step is Failed,
    ensures
        run_outcomes(b, outcomes) == b,
    decreases outcomes.len(),
{
    if outcomes.len() > 0 {
        lemma_failure_is_terminal(b, outcomes.drop_first());
    }
}

/// One rejection dooms the construction: whatever outcomes follow a
/// rejected step, the machine ends Failed with that step's failure —
/// unrecoverable, not retried.
pub proof fn lemma_rejection_dooms(b: NodeBuild, rest: Seq<bool>)
    requires
        b.in_progress(),
    ensures
        run_outcomes(b, seq![false].add(rest)).step == BuildStep::Failed(failure_at(b.step)),
{
    let outcomes = seq![false].add(rest);
    assert(outcomes[0] == false);
    assert(outcomes.drop_first() =~= rest);
    let failed = step_spec(b, false);
    assert(failed.step == BuildStep::Failed(failure_at(b.step)));
    lemma_failure_is_terminal(failed, rest);
}

/// A run in which every step succeeds never aborts: a construction ends
/// Failed only if some collaborator actually rejected a step.
pub proof fn lemma_all_ok_never_fails(b: NodeBuild, outcomes: Seq<bool>)
    requires
        !(b.step is Failed),
        forall|k: int| 0 <= k < outcomes.len() ==> outcomes[k],
    ensures
        !(run_outcomes(b, outcomes).step is Failed),
    decreases outcomes.len(),
{
    if outcomes.len() > 0 {
        assert(outcomes[0]);
        lemma_all_ok_never_fails(step_spec(b, outcomes[0]), outcomes.drop_first());
    }
}

/// How many successful steps are still ahead of the machine.
pub open spec fn remaining_steps(b: NodeBuild) -> int {
    match b.step {
        BuildStep::Identity => 7 + b.n_certs + (if b.has_builtins {
            1int
        } else {
            0int
        }),
        BuildStep::Management => 6 + b.n_certs + (if b.has_builtins {
            1int
        } else {
            0int
        }),
        BuildStep::SeedTrust => 5 + b.n_certs + (if b.has_builtins {
            1int
        } else {
            0int
        }),
        BuildStep::ReplayCert(i) => 4 + (b.n_certs - i) + (if b.has_builtins {
            1int
        } else {
            0int
        }),
        BuildStep::NetworkCfg => 4 + (if b.has_builtins {
            1int
        } else {
            0int
        }),
        BuildStep::BindTransport => 3 + (if b.has_builtins {
            1int
        } else {
            0int
        }),
        BuildStep::VmSetup => 2 + (if b.has_builtins {
            1int
        } else {
            0int
        }),
        BuildStep::Start => 1 + (if b.has_builtins {
            1int
        } else {
            0int
        }),
        BuildStep::DeployBuiltins => 1,
        BuildStep::Complete => 0,
        BuildStep::Failed(_) => 0,
    }
}

/// With every collaborator functioning, construction finishes: exactly
/// `remaining_steps` successful outcomes take an in-progress machine to
/// Complete.
pub proof fn lemma_all_ok_completes(b: NodeBuild, outcomes: Seq<bool>)
    requires
        b.wf(),
        !(b.step is Failed),
        outcomes.len() == remaining_steps(b),
        forall|k: int| 0 <= k < outcomes.len() ==> outcomes[k],
    ensures
        run_outcomes(b, outcomes).step == BuildStep::Complete,
    decreases outcomes.len(),
{
    if outcomes.len() == 0 {
        assert(b.step == BuildStep::Complete);
    } else {
        assert(outcomes[0]);
        let b2 = step_spec(b, outcomes[0]);
        assert(b2.wf());
        assert(remaining_steps(b2) == remaining_steps(b) - 1);
        lemma_all_ok_completes(b2, outcomes.drop_first());
    }
}

} // verus!
