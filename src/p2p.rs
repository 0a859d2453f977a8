//! The peer-identity contract shared by every peer-facing service.
use vstd::prelude::*;

verus! {

/// An identifier of a node in the P2P network: opaque, comparable, and
/// freely transferable between services.
pub trait NodeId: Clone + Eq {}

/// Base trait for the services that use node identifiers to
/// manage subscriptions and coordinate propagation in the P2P network.
pub trait P2pService {
    /// Network node identifier.
    type NodeId: NodeId + Send + 'static;

    /// The identifier this service advertises, fixed for the lifetime of
    /// the service instance.
    spec fn advertised_id(&self) -> Option<Self::NodeId>;

    /// Returns the identifier of this node, or None if the node
    /// does not have a public address advertised via gossip.
    fn node_id(&self) -> (r: Option<Self::NodeId>)
        ensures
            r == self.advertised_id(),
    ;
}

/// A service without an advertised address reports none, and any two
/// calls of `node_id` on it agree.
pub proof fn lemma_no_address_stays_absent<S: P2pService>(
    s: &S,
    first: Option<S::NodeId>,
    second: Option<S::NodeId>,
)
    requires
        s.advertised_id().is_none(),
        call_ensures(S::node_id, (s,), first),
        call_ensures(S::node_id, (s,), second),
    ensures
        first.is_none(),
        first == second,
{
}

} // verus!
