//! Abstractions for the server-side network interface of a blockchain node.
use vstd::prelude::*;

use crate::p2p::P2pService;

verus! {

/// The service that serves blocks to peers.
pub trait BlockService: P2pService {}

/// The service that relays fragments (mempool content) between peers.
pub trait FragmentService: P2pService {}

/// The service that exchanges gossip about the P2P network.
pub trait GossipService: P2pService {}

/// Interface to application logic of the blockchain node server.
///
/// An implementation of a blockchain node implements this trait to
/// serve the network protocols using node's subsystems such as
/// block storage and transaction engine.
///
/// A `Node` implementation is expected to be stateless, that is,
/// there is no particular association between client peers and instances
/// of the implementing type, and conversely, multiple instances can be
/// created to serve different requests from a single client.
///
/// Whether a service is supported is fixed: no accessor changes it.
pub trait Node {
    /// The implementation of the block service.
    type BlockService: BlockService;

    /// The implementation of the content service.
    type FragmentService: FragmentService;

    /// The implementation of the gossip service.
    type GossipService: GossipService;

    /// Whether this node supports the block service.
    spec fn supports_block_service(&self) -> bool;

    /// Whether this node supports the fragment service.
    spec fn supports_fragment_service(&self) -> bool;

    /// Whether this node supports the gossip service.
    spec fn supports_gossip_service(&self) -> bool;

    /// Instantiates the block service,
    /// if supported by this node.
    fn block_service(&mut self) -> (r: Option<&mut Self::BlockService>)
        ensures
            r.is_some() == old(self).supports_block_service(),
            final(self).supports_block_service() == old(self).supports_block_service(),
            final(self).supports_fragment_service() == old(self).supports_fragment_service(),
            final(self).supports_gossip_service() == old(self).supports_gossip_service(),
    ;

    /// Instantiates the fragment service,
    /// if supported by this node.
    fn fragment_service(&mut self) -> (r: Option<&mut Self::FragmentService>)
        ensures
            r.is_some() == old(self).supports_fragment_service(),
            final(self).supports_block_service() == old(self).supports_block_service(),
            final(self).supports_fragment_service() == old(self).supports_fragment_service(),
            final(self).supports_gossip_service() == old(self).supports_gossip_service(),
    ;

    /// Instantiates the gossip service,
    /// if supported by this node.
    fn gossip_service(&mut self) -> (r: Option<&mut Self::GossipService>)
        ensures
            r.is_some() == old(self).supports_gossip_service(),
            final(self).supports_block_service() == old(self).supports_block_service(),
            final(self).supports_fragment_service() == old(self).supports_fragment_service(),
            final(self).supports_gossip_service() == old(self).supports_gossip_service(),
    ;
}

/// A node that holds one optional handle for each service: a service is
/// supported exactly when its handle is present.
pub struct ServiceTable<B, F, G> {
    pub block: Option<B>,
    pub fragment: Option<F>,
    pub gossip: Option<G>,
}

impl<B, F, G> ServiceTable<B, F, G> {
    /// A node with the given services.
    pub fn new(block: Option<B>, fragment: Option<F>, gossip: Option<G>) -> (r: Self)
        ensures
            r.block == block,
            r.fragment == fragment,
            r.gossip == gossip,
    {
        ServiceTable { block, fragment, gossip }
    }

    /// A node that supports no service.
    pub fn empty() -> (r: Self)
        ensures
            r.block.is_none(),
            r.fragment.is_none(),
            r.gossip.is_none(),
    {
        ServiceTable { block: None, fragment: None, gossip: None }
    }
}

impl<B: BlockService, F: FragmentService, G: GossipService> Node for ServiceTable<B, F, G> {
    type BlockService = B;

    type FragmentService = F;

    type GossipService = G;

    open spec fn supports_block_service(&self) -> bool {
        self.block.is_some()
    }

    open spec fn supports_fragment_service(&self) -> bool {
        self.fragment.is_some()
    }

    open spec fn supports_gossip_service(&self) -> bool {
        self.gossip.is_some()
    }

    fn block_service(&mut self) -> (r: Option<&mut B>) {
        self.block.as_mut()
    }

    fn fragment_service(&mut self) -> (r: Option<&mut F>) {
        self.fragment.as_mut()
    }

    fn gossip_service(&mut self) -> (r: Option<&mut G>) {
        self.gossip.as_mut()
    }
}

} // verus!
