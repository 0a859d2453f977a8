//! The negotiation that precedes all service use on a connection.
//!
//! A connection starts out negotiating. The handshake either establishes it,
//! after which the node's services may be dispatched to, or fails with a
//! terminal error, after which the connection is torn down for good.
use vstd::prelude::*;

use crate::error::{Code, Error, HandshakeError};
use crate::server::Node;

verus! {

/// What the remote peer reported in the handshake exchange.
pub struct Hello {
    /// The protocol version the remote speaks.
    pub version: String,
    /// The hash of the genesis block the remote is on.
    pub block0_hash: Vec<u8>,
}

/// Whether `version` is one of the `accepted` versions.
pub open spec fn version_accepted(accepted: Seq<String>, version: Seq<char>) -> bool {
    exists|i: int| 0 <= i < accepted.len() && (#[trigger] accepted[i])@ == version
}

/// The cause of the error a genesis hash mismatch is reported with.
pub open spec fn hash_mismatch_cause() -> Seq<char> {
    "hash mismatch"@
}

/// The cause of the error pending operations resolve to when their
/// connection closes.
pub open spec fn connection_closed_cause() -> Seq<char> {
    "connection closed"@
}

/// Whether `r` is the outcome of a handshake in which the node accepts the
/// `accepted` versions and is on the genesis block with hash `genesis`, and
/// the exchange with the remote ended in `exchange`.
pub open spec fn handshake_outcome(
    accepted: Seq<String>,
    genesis: Seq<u8>,
    exchange: Result<Hello, Error>,
    r: Result<(), HandshakeError>,
) -> bool {
    match exchange {
        Err(e) => r == Err::<(), HandshakeError>(HandshakeError::Rpc(e)),
        Ok(hello) => if !version_accepted(accepted, hello.version@) {
            r matches Err(HandshakeError::UnsupportedVersion(v)) && v@ == hello.version@
        } else if hello.block0_hash@ != genesis {
            r matches Err(HandshakeError::InvalidBlock0(e)) && e@ == (
                Code::InvalidArgument,
                hash_mismatch_cause(),
            )
        } else {
            r is Ok
        },
    }
}

/// A remote whose version is not accepted ends the handshake with
/// `UnsupportedVersion` carrying that version, whatever genesis block it
/// reports.
pub proof fn lemma_unaccepted_version_fails(
    accepted: Seq<String>,
    genesis: Seq<u8>,
    hello: Hello,
    r: Result<(), HandshakeError>,
)
    requires
        !version_accepted(accepted, hello.version@),
        handshake_outcome(accepted, genesis, Ok(hello), r),
    ensures
        r matches Err(HandshakeError::UnsupportedVersion(v)) && v@ == hello.version@,
{
}

/// Checks the version the remote reported against the accepted versions.
pub fn check_version(accepted: &Vec<String>, reported: &String) -> (r: Result<(), HandshakeError>)
    ensures
        r is Ok <==> version_accepted(accepted@, reported@),
        r matches Err(e) ==> e matches HandshakeError::UnsupportedVersion(v) && v@ == reported@,
{
    let mut i: usize = 0;
    while i < accepted.len()
        invariant
            i <= accepted.len(),
            forall|j: int| 0 <= j < i ==> (#[trigger] accepted@[j])@ != reported@,
        decreases accepted.len() - i,
    {
        if accepted[i] == *reported {
            return Ok(());
        }
        i = i + 1;
    }
    Err(HandshakeError::UnsupportedVersion(reported.clone()))
}

/// Checks the genesis block hash the remote reported against the node's own.
pub fn check_block0(genesis: &[u8], reported: &[u8]) -> (r: Result<(), HandshakeError>)
    ensures
        r is Ok <==> reported@ == genesis@,
        r matches Err(e) ==> e matches HandshakeError::InvalidBlock0(inner) && inner@ == (
            Code::InvalidArgument,
            hash_mismatch_cause(),
        ),
{
    if genesis.len() == reported.len() && bytes_equal(genesis, reported) {
        Ok(())
    } else {
        let cause = String::from_str("hash mismatch");
        Err(HandshakeError::InvalidBlock0(Error::new(Code::InvalidArgument, cause)))
    }
}

/// Compares two byte strings of one length.
fn bytes_equal(a: &[u8], b: &[u8]) -> (r: bool)
    requires
        a@.len() == b@.len(),
    ensures
        r == (a@ == b@),
{
    let mut i: usize = 0;
    while i < a.len()
        invariant
            a@.len() == b@.len(),
            i <= a@.len(),
            forall|j: int| 0 <= j < i ==> a@[j] == b@[j],
        decreases a.len() - i,
    {
        if a[i] != b[i] {
            return false;
        }
        i = i + 1;
    }
    assert(a@ =~= b@);
    true
}

/// Decides the outcome of a handshake: a failed exchange is a protocol
/// error; otherwise the reported version must be accepted, and then the
/// reported genesis block must be the node's own.
pub fn handshake(accepted: &Vec<String>, genesis: &[u8], exchange: Result<Hello, Error>) -> (r:
    Result<(), HandshakeError>)
    ensures
        handshake_outcome(accepted@, genesis@, exchange, r),
{
    match exchange {
        Err(e) => Err(HandshakeError::Rpc(e)),
        Ok(hello) => {
            match check_version(accepted, &hello.version) {
                Err(e) => Err(e),
                Ok(()) => check_block0(genesis, hello.block0_hash.as_slice()),
            }
        },
    }
}

/// The phase of a connection.
#[derive(Clone, Copy, Debug, PartialEq, Eq, Structural)]
pub enum Phase {
    /// Connected; no protocol version agreed yet.
    Negotiating,
    /// The handshake succeeded: services may be dispatched to.
    Established,
    /// The handshake failed or the connection closed; nothing may resume.
    TornDown,
}

/// A connection with a remote peer, tracking where it stands in its life.
/// It holds no service: the node is handed in where one is needed.
pub struct Connection {
    phase: Phase,
}

impl Connection {
    /// A freshly connected, negotiating connection.
    pub fn new() -> (r: Connection)
        ensures
            r.spec_phase() == Phase::Negotiating,
    {
        Connection { phase: Phase::Negotiating }
    }

    /// The phase of this connection.
    pub closed spec fn spec_phase(&self) -> Phase {
        self.phase
    }

    /// Returns the phase of this connection.
    pub fn phase(&self) -> (r: Phase)
        ensures
            r == self.spec_phase(),
    {
        self.phase
    }

    /// Runs the handshake on a negotiating connection. On success the
    /// connection is established; on any failure it is torn down.
    pub fn negotiate(
        &mut self,
        accepted: &Vec<String>,
        genesis: &[u8],
        exchange: Result<Hello, Error>,
    ) -> (r: Result<(), HandshakeError>)
        requires
            old(self).spec_phase() == Phase::Negotiating,
        ensures
            handshake_outcome(accepted@, genesis@, exchange, r),
            r is Ok ==> final(self).spec_phase() == Phase::Established,
            r is Err ==> final(self).spec_phase() == Phase::TornDown,
    {
        let r = handshake(accepted, genesis, exchange);
        if r.is_ok() {
            self.phase = Phase::Established;
        } else {
            self.phase = Phase::TornDown;
        }
        r
    }

    /// Closes the connection, returning the error with which every
    /// operation still in flight on it resolves.
    pub fn close(&mut self) -> (r: Error)
        ensures
            final(self).spec_phase() == Phase::TornDown,
            r@ == (Code::Canceled, connection_closed_cause()),
    {
        self.phase = Phase::TornDown;
        Error::new(Code::Canceled, String::from_str("connection closed"))
    }

    /// The node's block service, if the connection is established and the
    /// node supports it.
    pub fn block_service<'a, N: Node>(&self, node: &'a mut N) -> (r: Option<
        &'a mut N::BlockService,
    >)
        ensures
            r.is_some() <==> self.spec_phase() == Phase::Established
                && old(node).supports_block_service(),
            final(node).supports_block_service() == old(node).supports_block_service(),
            final(node).supports_fragment_service() == old(node).supports_fragment_service(),
            final(node).supports_gossip_service() == old(node).supports_gossip_service(),
    {
        if self.phase == Phase::Established {
            node.block_service()
        } else {
            None
        }
    }

    /// The node's fragment service, if the connection is established and
    /// the node supports it.
    pub fn fragment_service<'a, N: Node>(&self, node: &'a mut N) -> (r: Option<
        &'a mut N::FragmentService,
    >)
        ensures
            r.is_some() <==> self.spec_phase() == Phase::Established
                && old(node).supports_fragment_service(),
            final(node).supports_block_service() == old(node).supports_block_service(),
            final(node).supports_fragment_service() == old(node).supports_fragment_service(),
            final(node).supports_gossip_service() == old(node).supports_gossip_service(),
    {
        if self.phase == Phase::Established {
            node.fragment_service()
        } else {
            None
        }
    }

    /// The node's gossip service, if the connection is established and the
    /// node supports it.
    pub fn gossip_service<'a, N: Node>(&self, node: &'a mut N) -> (r: Option<
        &'a mut N::GossipService,
    >)
        ensures
            r.is_some() <==> self.spec_phase() == Phase::Established
                && old(node).supports_gossip_service(),
            final(node).supports_block_service() == old(node).supports_block_service(),
            final(node).supports_fragment_service() == old(node).supports_fragment_service(),
            final(node).supports_gossip_service() == old(node).supports_gossip_service(),
    {
        if self.phase == Phase::Established {
            node.gossip_service()
        } else {
            None
        }
    }
}

} // verus!
