//! Per-node configuration.
//!
//! A `SwarmConfig` is the mutable record consumed to construct one node. It
//! carries identity material, the bootstrap list, the listen address, the
//! transport kind derived from that address, optional trust material, and
//! optional tunables. Callers may transform it before node construction.

use vstd::prelude::*;

use crate::address::{detect_transport, detected_transport, NodeAddress, Transport};

verus! {

/// A working-directory path, as a list of path segments relative to some
/// root the caller chooses. Filesystem work happens outside this crate; here
/// a path is only data.
#[derive(Clone, PartialEq, Eq, Debug)]
pub struct DirPath {
    pub segments: Vec<String>,
}

impl View for DirPath {
    type V = Seq<Seq<char>>;

    open spec fn view(&self) -> Seq<Seq<char>> {
        self.segments.deep_view()
    }
}

impl DirPath {
    /// A path of one segment.
    pub fn root(name: String) -> (r: DirPath)
        ensures
            r@ =~= seq![name@],
    {
        let mut segments: Vec<String> = Vec::new();
        segments.push(name);
        DirPath { segments }
    }

    /// An owned copy of the same path.
    pub fn duplicate(&self) -> (r: DirPath)
        ensures
            r@ == self@,
    {
        let r = DirPath { segments: self.segments.clone() };
        proof {
            assert(r@ =~= self@);
        }
        r
    }

    /// The path one segment below this one.
    pub fn join(&self, name: String) -> (r: DirPath)
        ensures
            r@ =~= self@.push(name@),
    {
        let mut segments = self.segments.clone();
        segments.push(name);
        let r = DirPath { segments };
        proof {
            assert(r@ =~= self@.push(name@));
        }
        r
    }
}

/// Trust material handed to a node: weighted root keys, certificates to
/// replay in order, and the reference time (milliseconds) to validate them
/// against. Keys and certificates are carried as bytes; checking them is the
/// trust collaborator's work.
#[derive(Clone, Debug)]
pub struct Trust {
    pub root_weights: Vec<(Vec<u8>, u32)>,
    pub certificates: Vec<Vec<u8>>,
    pub cur_time_ms: u64,
}

impl Default for Trust {
    /// No roots, no certificates, reference time zero.
    fn default() -> (t: Trust)
        ensures
            t.root_weights@.len() == 0,
            t.certificates@.len() == 0,
            t.cur_time_ms == 0,
    {
        Trust { root_weights: Vec::new(), certificates: Vec::new(), cur_time_ms: 0 }
    }
}

/// Configuration consumed to construct one node.
pub struct SwarmConfig {
    pub keypair: libp2p_identity::Keypair,
    pub bootstraps: Vec<NodeAddress>,
    pub listen_on: NodeAddress,
    pub trust: Option<Trust>,
    pub transport: Transport,
    pub tmp_dir: Option<DirPath>,
    pub pool_size: Option<usize>,
    pub builtins_dir: Option<DirPath>,
}

impl SwarmConfig {
    /// A default configuration: fresh random keypair, transport detected
    /// from the listen address, everything optional left unset.
    pub fn new(bootstraps: Vec<NodeAddress>, listen_on: NodeAddress) -> (c: SwarmConfig)
        ensures
            c.bootstraps == bootstraps,
            c.listen_on == listen_on,
            c.transport == detected_transport(listen_on),
            c.trust is None,
            c.tmp_dir is None,
            c.pool_size is None,
            c.builtins_dir is None,
    {
        let transport = detect_transport(&listen_on);
        SwarmConfig {
            keypair: libp2p_identity::Keypair::generate_ed25519(),
            bootstraps,
            listen_on,
            trust: None,
            transport,
            tmp_dir: None,
            pool_size: None,
            builtins_dir: None,
        }
    }

    /// A default configuration that additionally carries trust material.
    pub fn with_trust(bootstraps: Vec<NodeAddress>, listen_on: NodeAddress, trust: Trust) -> (c:
        SwarmConfig)
        ensures
            c.bootstraps == bootstraps,
            c.listen_on == listen_on,
            c.transport == detected_transport(listen_on),
            c.trust == Some(trust),
            c.tmp_dir is None,
            c.pool_size is None,
            c.builtins_dir is None,
    {
        let mut this = Self::new(bootstraps, listen_on);
        this.trust = Some(trust);
        this
    }
}

/// Two optional paths that agree: both absent, or both present with the
/// same segments.
pub open spec fn option_path_matches(a: Option<DirPath>, b: Option<DirPath>) -> bool {
    match (a, b) {
        (Some(x), Some(y)) => x@ == y@,
        (None, None) => true,
        _ => false,
    }
}

/// Two configurations that agree in every field, with paths compared by
/// their segments (a path may be an owned copy).
pub open spec fn config_matches(a: SwarmConfig, b: SwarmConfig) -> bool {
    &&& a.keypair == b.keypair
    &&& a.bootstraps == b.bootstraps
    &&& a.listen_on == b.listen_on
    &&& a.trust == b.trust
    &&& a.transport == b.transport
    &&& a.pool_size == b.pool_size
    &&& option_path_matches(a.tmp_dir, b.tmp_dir)
    &&& option_path_matches(a.builtins_dir, b.builtins_dir)
}

/// A transform a caller applies to a configuration before node
/// construction; lets one parametrize a whole swarm without repeating the
/// configuration logic. What a transform does is a function of the
/// transform and the input (`applied`), so launchers can say what the
/// consumed configurations were; the topology-derived fields — bootstrap
/// list, listen address and the transport it implies — stay as generated.
pub trait ConfigTransform {
    /// The configuration this transform turns the given one into.
    spec fn applied(&self, cfg: SwarmConfig) -> SwarmConfig;

    fn apply(&self, cfg: SwarmConfig) -> (r: SwarmConfig)
        ensures
            config_matches(r, self.applied(cfg)),
            r.bootstraps == cfg.bootstraps,
            r.listen_on == cfg.listen_on,
            r.transport == cfg.transport,
    ;
}

/// The transform that changes nothing.
pub struct KeepConfig;

impl ConfigTransform for KeepConfig {
    open spec fn applied(&self, cfg: SwarmConfig) -> SwarmConfig {
        cfg
    }

    fn apply(&self, cfg: SwarmConfig) -> (r: SwarmConfig)
        ensures
            r == cfg,
    {
        cfg
    }
}

/// Overrides the keypair of every node with one fixed keypair.
pub struct SetKeypair {
    pub keypair: libp2p_identity::Keypair,
}

impl ConfigTransform for SetKeypair {
    open spec fn applied(&self, cfg: SwarmConfig) -> SwarmConfig {
        SwarmConfig { keypair: self.keypair, ..cfg }
    }

    fn apply(&self, cfg: SwarmConfig) -> (r: SwarmConfig)
        ensures
            r == self.applied(cfg),
    {
        let mut cfg = cfg;
        cfg.keypair = self.keypair.clone();
        cfg
    }
}

/// Points every node at a builtins source directory, optionally overriding
/// its keypair too.
pub struct SetBuiltins {
    pub dir: DirPath,
    pub keypair: Option<libp2p_identity::Keypair>,
}

impl ConfigTransform for SetBuiltins {
    open spec fn applied(&self, cfg: SwarmConfig) -> SwarmConfig {
        SwarmConfig {
            keypair: match self.keypair {
                Some(k) => k,
                None => cfg.keypair,
            },
            builtins_dir: Some(self.dir),
            ..cfg
        }
    }

    fn apply(&self, cfg: SwarmConfig) -> (r: SwarmConfig)
        ensures
            config_matches(r, self.applied(cfg)),
            r.bootstraps == cfg.bootstraps,
            r.listen_on == cfg.listen_on,
            r.transport == cfg.transport,
    {
        let mut cfg = cfg;
        match &self.keypair {
            Some(kp) => {
                cfg.keypair = kp.clone();
            },
            None => {},
        }
        cfg.builtins_dir = Some(self.dir.duplicate());
        cfg
    }
}

/// Overrides the VM pool size of every node.
pub struct SetPoolSize {
    pub pool_size: usize,
}

impl ConfigTransform for SetPoolSize {
    open spec fn applied(&self, cfg: SwarmConfig) -> SwarmConfig {
        SwarmConfig { pool_size: Some(self.pool_size), ..cfg }
    }

    fn apply(&self, cfg: SwarmConfig) -> (r: SwarmConfig)
        ensures
            r == self.applied(cfg),
    {
        let mut cfg = cfg;
        cfg.pool_size = Some(self.pool_size);
        cfg
    }
}

} // verus!
