//! Per-node lifecycle.
//!
//! A node moves Unconfigured -> Configured -> Launched -> Stopped. No step
//! is skippable, Stopped is terminal, and a repeated stop is a no-op.

use vstd::prelude::*;

verus! {

/// Where a node stands in its life.
#[derive(Clone, Copy, PartialEq, Eq, Structural, Debug)]
pub enum NodeStage {
    Unconfigured,
    Configured,
    Launched,
    Stopped,
}

/// The lifecycle of one node.
#[derive(Clone, Copy, PartialEq, Eq, Structural, Debug)]
pub struct NodeLifecycle {
    pub stage: NodeStage,
}

impl NodeLifecycle {
    /// A node that nothing has touched yet.
    pub fn begin() -> (l: NodeLifecycle)
        ensures
            l.stage == NodeStage::Unconfigured,
    {
        NodeLifecycle { stage: NodeStage::Unconfigured }
    }

    /// Consuming a configuration moves the node to Configured; only an
    /// untouched node can be configured.
    pub fn configure(&mut self)
        requires
            old(self).stage == NodeStage::Unconfigured,
        ensures
            final(self).stage == NodeStage::Configured,
    {
        self.stage = NodeStage::Configured;
    }

    /// Starting the networking stack moves the node to Launched; the node
    /// must have been configured first.
    pub fn launch(&mut self)
        requires
            old(self).stage == NodeStage::Configured,
        ensures
            final(self).stage == NodeStage::Launched,
    {
        self.stage = NodeStage::Launched;
    }

    /// Signalling stop moves the node to Stopped. Stopped is terminal and
    /// idempotent: stopping an already stopped node changes nothing.
    pub fn stop(&mut self)
        requires
            old(self).stage == NodeStage::Launched || old(self).stage == NodeStage::Stopped,
        ensures
            final(self).stage == NodeStage::Stopped,
    {
        self.stage = NodeStage::Stopped;
    }
}

} // verus!
