//! Swarm orchestration.
//!
//! Launching a swarm of N nodes: allocate N distinct listen addresses,
//! derive each node's bootstrap set, configure and build each node through
//! the pluggable node builder, start it, deploy builtins where configured,
//! and set the convergence barrier up with each node's expected connection
//! count. Any node's construction failure aborts the whole call fail-fast:
//! no handles are returned, and cleanup of whatever already runs stays with
//! the caller.

use vstd::prelude::*;

use crate::address::{detected_transport, NodeAddress, Transport};
use crate::barrier::BarrierState;
use crate::config::{
    config_matches, option_path_matches, ConfigTransform, DirPath, KeepConfig, SetBuiltins,
    SetKeypair, SwarmConfig,
};
use crate::factory::{FailureKind, TestTimeouts};
use crate::identity::{derive_peer_id, peer_id_of, public_of};
use crate::lifecycle::{NodeLifecycle, NodeStage};
use crate::topology::{
    effective_base, generate_addresses, lemma_filtered_excludes_own, mesh_excluding, mesh_without,
    BootstrapFilter, FullMesh,
};

verus! {

/// The address node i of a swarm of n listens on.
pub open spec fn addr_at(kind: Transport, base: u64, n: nat, i: int) -> NodeAddress {
    NodeAddress { transport: kind, route: (effective_base(base, n) + i) as u64 }
}

/// All n listen addresses of a swarm, in node order.
pub open spec fn addr_seq(kind: Transport, base: u64, n: nat) -> Seq<NodeAddress> {
    Seq::new(n, |i: int| addr_at(kind, base, n, i))
}

/// Which node of the swarm failed to build, and why.
#[derive(Clone, Copy, PartialEq, Eq, Structural, Debug)]
pub struct SwarmError {
    pub node: usize,
    pub failure: FailureKind,
}

/// A node as the builder hands it back: identities, the frozen
/// configuration it was built from, and the handle its collaborators are
/// reached through.
pub struct BuiltNode<H> {
    pub peer_id: libp2p_identity::PeerId,
    pub management_keypair: libp2p_identity::Keypair,
    pub config: SwarmConfig,
    pub handle: H,
}

/// The running side of a node: starting and stopping its networking
/// stack and deploying builtin services. What these do is the
/// collaborators' business; nothing is assumed of them here.
pub trait NodeHandle {
    fn start(&mut self);

    /// Deploys the builtin services from the given source directory,
    /// authorized by the management identity, into the named node,
    /// bounded by the given per-particle timeout; strict deployment fails
    /// the whole call on any service error. False means deployment failed.
    fn deploy_builtins(
        &mut self,
        dir: &DirPath,
        management: &libp2p_identity::PeerId,
        node_id: &libp2p_identity::PeerId,
        timeout_ms: u64,
        strict: bool,
    ) -> bool;

    fn stop(&mut self);
}

/// Turns one configuration and its resolved bootstrap list into a node.
/// An error aborts the whole swarm. A builder consumes the configuration
/// as given — every field comes back as it went in, except the working
/// directory, which the builder settles (keeping one that was supplied) —
/// and derives the node identity from the configured keypair.
pub trait NodeBuilder {
    type Handle;

    fn build(&mut self, cfg: SwarmConfig) -> (r: Result<BuiltNode<Self::Handle>, FailureKind>)
        ensures
            r matches Ok(node) ==> {
                &&& node.config.keypair == cfg.keypair
                &&& node.config.bootstraps == cfg.bootstraps
                &&& node.config.listen_on == cfg.listen_on
                &&& node.config.transport == cfg.transport
                &&& node.config.trust == cfg.trust
                &&& node.config.pool_size == cfg.pool_size
                &&& node.config.builtins_dir == cfg.builtins_dir
                &&& node.config.tmp_dir is Some
                &&& (cfg.tmp_dir is Some ==> node.config.tmp_dir == cfg.tmp_dir)
                &&& node.peer_id == peer_id_of(public_of(cfg.keypair))
            },
    ;
}

/// One launched node of a swarm: its identity, listen address, working
/// directory (owned exclusively by this node; cleanup is the caller's),
/// management identity, collaborator handle, the frozen configuration it
/// was built from, the connection count the barrier expects of it, and
/// where it stands in its life.
pub struct CreatedSwarm<H> {
    pub peer_id: libp2p_identity::PeerId,
    pub multiaddr: NodeAddress,
    pub tmp_dir: DirPath,
    pub management_keypair: libp2p_identity::Keypair,
    pub handle: H,
    pub config: SwarmConfig,
    pub expected_connections: usize,
    pub lifecycle: NodeLifecycle,
}

impl<H> CreatedSwarm<H> {
    /// The barrier expectation equals the size of the bootstrap list.
    pub open spec fn wf(self) -> bool {
        self.expected_connections == self.config.bootstraps@.len()
    }
}

/// A whole launched swarm: the nodes, and the convergence barrier set up
/// with each node's expected connection count.
pub struct SwarmSet<H> {
    pub swarms: Vec<CreatedSwarm<H>>,
    pub barrier: BarrierState,
}

/// A freshly derived configuration, as node i's starts out: the given
/// bootstrap list and listen address, the transport that address implies,
/// everything optional unset (the keypair is a fresh random draw, so it is
/// not pinned here).
pub open spec fn fresh_config(cfg0: SwarmConfig, bs: Vec<NodeAddress>, listen_on: NodeAddress) -> bool {
    &&& cfg0.bootstraps == bs
    &&& cfg0.listen_on == listen_on
    &&& cfg0.transport == detected_transport(listen_on)
    &&& cfg0.trust is None
    &&& cfg0.tmp_dir is None
    &&& cfg0.pool_size is None
    &&& cfg0.builtins_dir is None
}

/// A launched node's frozen configuration, against the configuration the
/// transform shaped: every field as the transform left it (paths by their
/// segments), except the working directory, which is settled — present,
/// and equal to the shaped one where the transform supplied it.
pub open spec fn frozen_from(frozen: SwarmConfig, shaped: SwarmConfig) -> bool {
    &&& frozen.keypair == shaped.keypair
    &&& frozen.bootstraps == shaped.bootstraps
    &&& frozen.listen_on == shaped.listen_on
    &&& frozen.trust == shaped.trust
    &&& frozen.transport == shaped.transport
    &&& frozen.pool_size == shaped.pool_size
    &&& option_path_matches(frozen.builtins_dir, shaped.builtins_dir)
    &&& frozen.tmp_dir is Some
    &&& (match shaped.tmp_dir {
        Some(d) => match frozen.tmp_dir {
            Some(e) => e@ == d@,
            None => false,
        },
        None => true,
    })
}

/// One launched node was built from the transform applied to a freshly
/// derived configuration with its bootstrap list and listen address.
pub open spec fn shaped_node<H, T: ConfigTransform>(
    sw: CreatedSwarm<H>,
    listen_on: NodeAddress,
    t: T,
) -> bool {
    exists|cfg0: SwarmConfig|
        {
            &&& #[trigger] fresh_config(cfg0, sw.config.bootstraps, listen_on)
            &&& frozen_from(sw.config, t.applied(cfg0))
        }
}

/// Every node of the swarm was built from the transform applied once to
/// its freshly derived configuration.
pub open spec fn shaped_by<H, T: ConfigTransform>(
    s: SwarmSet<H>,
    kind: Transport,
    base: u64,
    n: nat,
    t: T,
) -> bool {
    forall|i: int| 0 <= i < n ==> shaped_node(#[trigger] s.swarms@[i], addr_seq(kind, base, n)[i], t)
}

/// What a successful launch of n nodes guarantees: one node per generated
/// address in order, frozen configuration included, its transport field
/// the requested kind; every node's identity is derived from its
/// configured keypair; its working directory is the settled one of its
/// configuration; its expectation equals its bootstrap list size; no node
/// bootstraps off itself; every bootstrap entry is one of the other
/// nodes' addresses; every node is launched; and the barrier watches
/// exactly these expectations, with zero-expectation nodes already
/// resolved and never subscribed.
pub open spec fn launched_ok<H>(s: SwarmSet<H>, kind: Transport, base: u64, n: nat) -> bool {
    let addrs = addr_seq(kind, base, n);
    &&& s.swarms@.len() == n
    &&& s.barrier.wf()
    &&& s.barrier.expected@.len() == n
    &&& forall|i: int| 0 <= i < n ==> (#[trigger] s.swarms@[i]).multiaddr == addrs[i]
    &&& forall|i: int| 0 <= i < n ==> (#[trigger] s.swarms@[i]).config.listen_on == addrs[i]
    &&& forall|i: int| 0 <= i < n ==> (#[trigger] s.swarms@[i]).config.transport == kind
    &&& forall|i: int| 0 <= i < n ==> (#[trigger] s.swarms@[i]).wf()
    &&& forall|i: int|
        0 <= i < n ==> (#[trigger] s.swarms@[i]).peer_id == peer_id_of(
            public_of(s.swarms@[i].config.keypair),
        )
    &&& forall|i: int|
        0 <= i < n ==> (match (#[trigger] s.swarms@[i]).config.tmp_dir {
            Some(d) => s.swarms@[i].tmp_dir@ == d@,
            None => false,
        })
    &&& forall|i: int|
        0 <= i < n ==> !(#[trigger] s.swarms@[i]).config.bootstraps@.contains(
            s.swarms@[i].multiaddr,
        )
    &&& forall|i: int, k: int|
        0 <= i < n && 0 <= k < s.swarms@[i].config.bootstraps@.len() ==> mesh_without(
            addrs,
            i,
        ).contains(#[trigger] s.swarms@[i].config.bootstraps@[k])
    &&& forall|i: int| 0 <= i < n ==> (#[trigger] s.swarms@[i]).lifecycle.stage == NodeStage::Launched
    &&& forall|i: int|
        0 <= i < n ==> (#[trigger] s.barrier.expected@[i]) == s.swarms@[i].expected_connections
    &&& forall|i: int| 0 <= i < n ==> (#[trigger] s.barrier.resolved@[i]) == (s.barrier.expected@[i]
        == 0)
    &&& forall|i: int| 0 <= i < n ==> (#[trigger] s.barrier.subscribed@[i]) == (s.barrier.expected@[i]
        != 0)
}

/// Each node's bootstrap list is exactly what the given strategy picks
/// from that node's full-mesh candidates.
pub open spec fn picked_by<H, F: BootstrapFilter>(
    s: SwarmSet<H>,
    kind: Transport,
    base: u64,
    n: nat,
    f: F,
) -> bool {
    forall|i: int|
        0 <= i < n ==> (#[trigger] s.swarms@[i]).config.bootstraps@ == f.picks(
            mesh_without(addr_seq(kind, base, n), i),
        )
}

/// A successful launch under the default full-mesh strategy: everything
/// [`launched_ok`] gives, and in addition each node's bootstrap list is
/// the whole candidate set — every other address, in order — so each node
/// expects exactly n - 1 connections.
pub open spec fn launched_full_mesh<H>(s: SwarmSet<H>, kind: Transport, base: u64, n: nat) -> bool {
    &&& launched_ok(s, kind, base, n)
    &&& forall|i: int|
        0 <= i < n ==> (#[trigger] s.swarms@[i]).config.bootstraps@ == mesh_without(
            addr_seq(kind, base, n),
            i,
        )
    &&& forall|i: int| 0 <= i < n ==> (#[trigger] s.swarms@[i]).expected_connections == n - 1
}

/// Under the full-mesh pick, each node's expectation is n - 1.
proof fn lemma_full_mesh_launch<H>(s: SwarmSet<H>, kind: Transport, base: u64, n: nat)
    requires
        launched_ok(s, kind, base, n),
        forall|i: int|
            0 <= i < n ==> (#[trigger] s.swarms@[i]).config.bootstraps@ == mesh_without(
                addr_seq(kind, base, n),
                i,
            ),
    ensures
        launched_full_mesh(s, kind, base, n),
{
    let addrs = addr_seq(kind, base, n);
    assert forall|i: int| 0 <= i < n implies (#[trigger] s.swarms@[i]).expected_connections == n
        - 1 by {
        assert(s.swarms@[i].wf());
        assert(s.swarms@[i].config.bootstraps@ == mesh_without(addrs, i));
        assert(mesh_without(addrs, i).len() == n - 1);
    }
}

/// The fail-fast gate on one node's builtins deployment: a successful (or
/// not attempted) deployment passes; a failed one aborts the whole launch
/// with that node's deployment error, exactly then.
pub fn deploy_gate(node: usize, deployed: bool) -> (r: Result<(), SwarmError>)
    ensures
        r is Ok <==> deployed,
        !deployed ==> r == Err::<(), SwarmError>(
            SwarmError { node, failure: FailureKind::Builtins },
        ),
{
    if deployed {
        Ok(())
    } else {
        Err(SwarmError { node, failure: FailureKind::Builtins })
    }
}

/// Launches a swarm of n nodes: generated addresses of the given transport
/// kind, per-node bootstrap sets picked by the strategy from the full-mesh
/// candidates, configurations shaped by the transform, nodes built by the
/// builder, builtins deployed where configured (bounded by the injected
/// particle time-to-live, non-strict), each deployment outcome put through
/// [`deploy_gate`]. Fail-fast: the first failure aborts the call with that
/// node's error and no handles; a swarm of zero nodes always launches.
pub fn make_swarms_with<B, F, T>(
    n: usize,
    builder: &mut B,
    filter: &F,
    transform: &T,
    kind: Transport,
    base: u64,
    timeouts: TestTimeouts,
) -> (r: Result<SwarmSet<B::Handle>, SwarmError>)
    where
        B: NodeBuilder,
        B::Handle: NodeHandle,
        F: BootstrapFilter,
        T: ConfigTransform,
    ensures
        r matches Ok(s) ==> launched_ok(s, kind, base, n as nat),
        r matches Ok(s) ==> picked_by(s, kind, base, n as nat, *filter),
        r matches Ok(s) ==> shaped_by(s, kind, base, n as nat, *transform),
        r matches Err(e) ==> e.node < n,
        n == 0 ==> r is Ok,
{
    let addrs = generate_addresses(kind, base, n);
    proof {
        assert(addrs@ =~= addr_seq(kind, base, n as nat));
    }
    let ghost gaddrs = addrs@;
    let mut swarms: Vec<CreatedSwarm<B::Handle>> = Vec::new();
    let mut expected: Vec<usize> = Vec::new();
    let mut i: usize = 0;
    while i < n
        invariant
            i <= n,
            addrs@ == gaddrs,
            gaddrs == addr_seq(kind, base, n as nat),
            gaddrs.len() == n,
            crate::topology::pairwise_distinct(gaddrs),
            swarms@.len() == i,
            expected@.len() == i,
            forall|k: int| 0 <= k < i ==> (#[trigger] swarms@[k]).multiaddr == gaddrs[k],
            forall|k: int| 0 <= k < i ==> (#[trigger] swarms@[k]).config.listen_on == gaddrs[k],
            forall|k: int| 0 <= k < i ==> (#[trigger] swarms@[k]).config.transport == kind,
            forall|k: int| 0 <= k < i ==> (#[trigger] swarms@[k]).wf(),
            forall|k: int|
                0 <= k < i ==> (#[trigger] swarms@[k]).peer_id == peer_id_of(
                    public_of(swarms@[k].config.keypair),
                ),
            forall|k: int|
                0 <= k < i ==> (match (#[trigger] swarms@[k]).config.tmp_dir {
                    Some(d) => swarms@[k].tmp_dir@ == d@,
                    None => false,
                }),
            forall|k: int|
                0 <= k < i ==> (#[trigger] swarms@[k]).config.bootstraps@ == filter.picks(
                    mesh_without(gaddrs, k),
                ),
            forall|k: int| 0 <= k < i ==> shaped_node(#[trigger] swarms@[k], gaddrs[k], *transform),
            forall|k: int|
                0 <= k < i ==> !(#[trigger] swarms@[k]).config.bootstraps@.contains(
                    swarms@[k].multiaddr,
                ),
            forall|k: int, m: int|
                0 <= k < i && 0 <= m < swarms@[k].config.bootstraps@.len() ==> mesh_without(
                    gaddrs,
                    k,
                ).contains(#[trigger] swarms@[k].config.bootstraps@[m]),
            forall|k: int|
                0 <= k < i ==> (#[trigger] swarms@[k]).lifecycle.stage == NodeStage::Launched,
            forall|k: int| 0 <= k < i ==> (#[trigger] expected@[k]) == swarms@[k].expected_connections,
        decreases n - i,
    {
        let mesh = mesh_excluding(&addrs, i);
        let bs = filter.select(mesh);
        proof {
            lemma_filtered_excludes_own(gaddrs, i as int, bs@);
        }
        let exp = bs.len();
        let listen_on = addrs[i];
        let cfg0 = SwarmConfig::new(bs, listen_on);
        let ghost gcfg0 = cfg0;
        let cfg = transform.apply(cfg0);
        let mut lifecycle = NodeLifecycle::begin();
        lifecycle.configure();
        let built = builder.build(cfg);
        match built {
            Err(failure) => {
                return Err(SwarmError { node: i, failure });
            },
            Ok(node) => {
                let mut node = node;
                node.handle.start();
                lifecycle.launch();
                let management_id = derive_peer_id(&node.management_keypair);
                let deployed = match &node.config.builtins_dir {
                    Some(dir) => node.handle.deploy_builtins(
                        dir,
                        &management_id,
                        &node.peer_id,
                        timeouts.particle_ttl_ms,
                        false,
                    ),
                    None => true,
                };
                match deploy_gate(i, deployed) {
                    Err(e) => {
                        return Err(e);
                    },
                    Ok(_) => {},
                }
                let tmp_dir = match &node.config.tmp_dir {
                    Some(d) => d.duplicate(),
                    None => {
                        proof {
                            assert(false);
                        }
                        DirPath { segments: Vec::new() }
                    },
                };
                proof {
                    assert(fresh_config(gcfg0, node.config.bootstraps, listen_on));
                    assert(frozen_from(node.config, transform.applied(gcfg0)));
                }
                swarms.push(
                    CreatedSwarm {
                        peer_id: node.peer_id,
                        multiaddr: listen_on,
                        tmp_dir,
                        management_keypair: node.management_keypair,
                        handle: node.handle,
                        config: node.config,
                        expected_connections: exp,
                        lifecycle,
                    },
                );
                expected.push(exp);
            },
        }
        i = i + 1;
    }
    let ghost gexp = expected@;
    let barrier = BarrierState::init(expected);
    let s = SwarmSet { swarms, barrier };
    proof {
        let nn = n as nat;
        let addrs_g = addr_seq(kind, base, nn);
        assert(s.swarms@.len() == nn);
        assert(s.barrier.wf());
        assert(s.barrier.expected@.len() == nn);
        assert(s.barrier.expected@ == gexp);
        assert forall|k: int|
            0 <= k < nn implies (#[trigger] s.barrier.resolved@[k]) == (s.barrier.expected@[k]
            == 0) by {
            assert(s.barrier.is_resolved(k) == (gexp[k] == 0));
        }
        assert forall|k: int|
            0 <= k < nn implies (#[trigger] s.barrier.subscribed@[k]) == (s.barrier.expected@[k]
            != 0) by {
            assert(s.barrier.subscribed@[k] == (gexp[k] != 0));
        }
        assert(launched_ok(s, kind, base, nn));
        assert(picked_by(s, kind, base, nn, *filter));
        assert(shaped_by(s, kind, base, nn, *transform));
    }
    Ok(s)
}

/// Launches a swarm of n in-process nodes under the default full mesh,
/// with configurations shaped by the transform.
pub fn make_swarms_with_cfg<B, T>(
    n: usize,
    builder: &mut B,
    transform: &T,
    base: u64,
    timeouts: TestTimeouts,
) -> (r: Result<SwarmSet<B::Handle>, SwarmError>)
    where
        B: NodeBuilder,
        B::Handle: NodeHandle,
        T: ConfigTransform,
    ensures
        r matches Ok(s) ==> launched_full_mesh(s, Transport::Memory, base, n as nat),
        r matches Ok(s) ==> shaped_by(s, Transport::Memory, base, n as nat, *transform),
        r matches Err(e) ==> e.node < n,
        n == 0 ==> r is Ok,
{
    let filter = FullMesh;
    let r = make_swarms_with(n, builder, &filter, transform, Transport::Memory, base, timeouts);
    proof {
        if r is Ok {
            let s = r->Ok_0;
            lemma_full_mesh_launch(s, Transport::Memory, base, n as nat);
        }
    }
    r
}

/// Launches a swarm of n in-process nodes under the default full mesh and
/// untouched default configurations: no trust material, no working
/// directory chosen up front, default pool size, no builtins.
pub fn make_swarms<B>(n: usize, builder: &mut B, base: u64, timeouts: TestTimeouts) -> (r: Result<
    SwarmSet<B::Handle>,
    SwarmError,
>)
    where
        B: NodeBuilder,
        B::Handle: NodeHandle,
    ensures
        r matches Ok(s) ==> launched_full_mesh(s, Transport::Memory, base, n as nat),
        r matches Ok(s) ==> forall|i: int|
            0 <= i < n ==> {
                &&& (#[trigger] s.swarms@[i]).config.trust is None
                &&& s.swarms@[i].config.pool_size is None
                &&& s.swarms@[i].config.builtins_dir is None
            },
        r matches Err(e) ==> e.node < n,
        n == 0 ==> r is Ok,
{
    let keep = KeepConfig;
    let r = make_swarms_with_cfg(n, builder, &keep, base, timeouts);
    proof {
        if r is Ok {
            let s = r->Ok_0;
            let addrs = addr_seq(Transport::Memory, base, n as nat);
            assert forall|i: int| 0 <= i < n implies {
                &&& (#[trigger] s.swarms@[i]).config.trust is None
                &&& s.swarms@[i].config.pool_size is None
                &&& s.swarms@[i].config.builtins_dir is None
            } by {
                assert(shaped_node(s.swarms@[i], addrs[i], keep));
                let cfg0 = choose|cfg0: SwarmConfig|
                    {
                        &&& #[trigger] fresh_config(cfg0, s.swarms@[i].config.bootstraps, addrs[i])
                        &&& frozen_from(s.swarms@[i].config, keep.applied(cfg0))
                    };
                assert(frozen_from(s.swarms@[i].config, cfg0));
            }
        }
    }
    r
}

/// Launches a full-mesh swarm whose nodes all share one fixed keypair, so
/// every node carries the same identity, derived from that keypair.
pub fn make_swarms_with_keypair<B>(
    n: usize,
    builder: &mut B,
    keypair: libp2p_identity::Keypair,
    base: u64,
    timeouts: TestTimeouts,
) -> (r: Result<SwarmSet<B::Handle>, SwarmError>)
    where
        B: NodeBuilder,
        B::Handle: NodeHandle,
    ensures
        r matches Ok(s) ==> launched_full_mesh(s, Transport::Memory, base, n as nat),
        r matches Ok(s) ==> forall|i: int|
            0 <= i < n ==> (#[trigger] s.swarms@[i]).config.keypair == keypair
                && s.swarms@[i].peer_id == peer_id_of(public_of(keypair)),
        r matches Err(e) ==> e.node < n,
        n == 0 ==> r is Ok,
{
    let transform = SetKeypair { keypair };
    let r = make_swarms_with_cfg(n, builder, &transform, base, timeouts);
    proof {
        if r is Ok {
            let s = r->Ok_0;
            let addrs = addr_seq(Transport::Memory, base, n as nat);
            assert forall|i: int|
                0 <= i < n implies (#[trigger] s.swarms@[i]).config.keypair == keypair
                && s.swarms@[i].peer_id == peer_id_of(public_of(keypair)) by {
                assert(shaped_node(s.swarms@[i], addrs[i], transform));
                let cfg0 = choose|cfg0: SwarmConfig|
                    {
                        &&& #[trigger] fresh_config(cfg0, s.swarms@[i].config.bootstraps, addrs[i])
                        &&& frozen_from(s.swarms@[i].config, transform.applied(cfg0))
                    };
                assert(transform.applied(cfg0).keypair == keypair);
            }
        }
    }
    r
}

/// Launches a full-mesh swarm whose nodes all deploy builtins from the
/// given source directory, optionally sharing one fixed keypair.
pub fn make_swarms_with_builtins<B>(
    n: usize,
    builder: &mut B,
    path: DirPath,
    keypair: Option<libp2p_identity::Keypair>,
    base: u64,
    timeouts: TestTimeouts,
) -> (r: Result<SwarmSet<B::Handle>, SwarmError>)
    where
        B: NodeBuilder,
        B::Handle: NodeHandle,
    ensures
        r matches Ok(s) ==> launched_full_mesh(s, Transport::Memory, base, n as nat),
        r matches Ok(s) ==> forall|i: int|
            0 <= i < n ==> (match (#[trigger] s.swarms@[i]).config.builtins_dir {
                Some(d) => d@ == path@,
                None => false,
            }),
        r matches Ok(s) ==> (match keypair {
            Some(k) => forall|i: int| 0 <= i < n ==> (#[trigger] s.swarms@[i]).config.keypair == k,
            None => true,
        }),
        r matches Err(e) ==> e.node < n,
        n == 0 ==> r is Ok,
{
    let transform = SetBuiltins { dir: path, keypair };
    let r = make_swarms_with_cfg(n, builder, &transform, base, timeouts);
    proof {
        if r is Ok {
            let s = r->Ok_0;
            let addrs = addr_seq(Transport::Memory, base, n as nat);
            assert forall|i: int| 0 <= i < n implies (match (#[trigger] s.swarms@[i]).config.builtins_dir {
                Some(d) => d@ == path@,
                None => false,
            }) && (match keypair {
                Some(k) => s.swarms@[i].config.keypair == k,
                None => true,
            }) by {
                assert(shaped_node(s.swarms@[i], addrs[i], transform));
                let cfg0 = choose|cfg0: SwarmConfig|
                    {
                        &&& #[trigger] fresh_config(cfg0, s.swarms@[i].config.bootstraps, addrs[i])
                        &&& frozen_from(s.swarms@[i].config, transform.applied(cfg0))
                    };
                assert(transform.applied(cfg0).builtins_dir == Some(path));
                assert(option_path_matches(
                    s.swarms@[i].config.builtins_dir,
                    transform.applied(cfg0).builtins_dir,
                ));
            }
        }
    }
    r
}

/// Launches a full-mesh swarm over the given transport kind; meant for
/// builders whose VM is a mock. Every node's configuration carries the
/// requested transport.
pub fn make_swarms_with_transport_and_mocked_vm<B>(
    n: usize,
    builder: &mut B,
    transport: Transport,
    base: u64,
    timeouts: TestTimeouts,
) -> (r: Result<SwarmSet<B::Handle>, SwarmError>)
    where
        B: NodeBuilder,
        B::Handle: NodeHandle,
    ensures
        r matches Ok(s) ==> launched_full_mesh(s, transport, base, n as nat),
        r matches Err(e) ==> e.node < n,
        n == 0 ==> r is Ok,
{
    let filter = FullMesh;
    let keep = KeepConfig;
    let r = make_swarms_with(n, builder, &filter, &keep, transport, base, timeouts);
    proof {
        if r is Ok {
            let s = r->Ok_0;
            lemma_full_mesh_launch(s, transport, base, n as nat);
        }
    }
    r
}

/// Launches an in-process swarm with a caller-picked bootstrap strategy
/// and configuration transform; meant for builders whose VM is a mock that
/// may delay execution.
pub fn make_swarms_with_mocked_vm<B, T, F>(
    n: usize,
    builder: &mut B,
    transform: &T,
    filter: &F,
    base: u64,
    timeouts: TestTimeouts,
) -> (r: Result<SwarmSet<B::Handle>, SwarmError>)
    where
        B: NodeBuilder,
        B::Handle: NodeHandle,
        T: ConfigTransform,
        F: BootstrapFilter,
    ensures
        r matches Ok(s) ==> launched_ok(s, Transport::Memory, base, n as nat),
        r matches Ok(s) ==> picked_by(s, Transport::Memory, base, n as nat, *filter),
        r matches Ok(s) ==> shaped_by(s, Transport::Memory, base, n as nat, *transform),
        r matches Err(e) ==> e.node < n,
        n == 0 ==> r is Ok,
{
    make_swarms_with(n, builder, filter, transform, Transport::Memory, base, timeouts)
}

impl<H: NodeHandle> CreatedSwarm<H> {
    /// Signals the node to stop; everything but the handle and the stage
    /// stays as it was. Stopping is idempotent: a second stop changes
    /// nothing further.
    pub fn stop(&mut self)
        requires
            old(self).lifecycle.stage == NodeStage::Launched || old(self).lifecycle.stage
                == NodeStage::Stopped,
        ensures
            final(self).lifecycle.stage == NodeStage::Stopped,
            final(self).peer_id == old(self).peer_id,
            final(self).multiaddr == old(self).multiaddr,
            final(self).tmp_dir == old(self).tmp_dir,
            final(self).management_keypair == old(self).management_keypair,
            final(self).config == old(self).config,
            final(self).expected_connections == old(self).expected_connections,
    {
        if matches!(self.lifecycle.stage, NodeStage::Launched) {
            self.handle.stop();
        }
        self.lifecycle.stop();
    }
}

} // verus!
