//! The relay interface adapter.
//!
//! Collator and full-node deployments anchor against a relay layer reached
//! through one of two transports: a relay service living in the same
//! process, or a remote client speaking to an external relay endpoint. The
//! adapter presents one capability surface over both; which transport backs
//! it is chosen once at construction and held immutably, and callers are
//! mode-agnostic with respect to it. The transports suspend on I/O, so each
//! capability here takes the raw outcome of that I/O as an argument and is
//! verified to classify it identically for both transports.

use vstd::prelude::*;
use crate::errors::{InitError, RoundError};
use crate::inherent::ValidationProof;
use crate::modes::DeploymentMode;

verus! {

/// Which implementation backs the adapter.
#[derive(Clone, Copy, Debug, PartialEq, Eq, Structural)]
pub enum RelayTransport {
    /// A relay service constructed in this process.
    InProcess,
    /// A remote client performing an RPC round-trip per request.
    RemoteRpc,
}

/// The latest finalized relay state, as reported by either transport.
#[derive(Clone, Copy, Debug, PartialEq, Eq, Structural)]
pub struct RelayStateRecord {
    /// The number of the latest finalized relay block.
    pub finalized_number: u32,
    /// A digest of the finalized relay head.
    pub head_digest: u64,
}

/// What one request to the relay layer came back with. Both transports
/// reduce to this: the layer was unreachable, it answered but had nothing
/// for the request, or it answered with a record.
#[derive(Clone, Debug, PartialEq, Eq)]
pub enum RelayFetch<T> {
    /// The relay layer could not be reached (connection refused, timed out).
    Unreachable,
    /// The relay layer answered, but the requested data does not exist.
    Missing,
    /// The relay layer answered with the requested data.
    Data(T),
}

/// The uniform capability object handed to the consensus strategy. Owned by
/// the orchestrator for the node's lifetime and shared with the strategy;
/// the transport never changes after construction.
#[derive(Clone, Debug, PartialEq, Eq)]
pub struct RelayAdapter {
    transport: RelayTransport,
    endpoint: Option<String>,
}

/// How a fetched relay state is classified, independent of the transport
/// that carried it: an unreachable relay layer surfaces as
/// [`RoundError::RelayUnavailable`], an answer with nothing in it likewise
/// (there is no finalized state to report), and data passes through.
pub open spec fn classify_state_fetch(fetched: RelayFetch<RelayStateRecord>) -> Result<
    RelayStateRecord,
    RoundError,
> {
    match fetched {
        RelayFetch::Unreachable => Err(RoundError::RelayUnavailable),
        RelayFetch::Missing => Err(RoundError::RelayUnavailable),
        RelayFetch::Data(s) => Ok(s),
    }
}

/// How a fetched validation proof is classified, independent of transport:
/// an unreachable relay layer is a relay fault, while a reachable layer
/// with no proof for the parent makes this round's inherent unavailable.
pub open spec fn classify_proof_fetch(fetched: RelayFetch<ValidationProof>) -> Result<
    ValidationProof,
    RoundError,
> {
    match fetched {
        RelayFetch::Unreachable => Err(RoundError::RelayUnavailable),
        RelayFetch::Missing => Err(RoundError::InherentUnavailable),
        RelayFetch::Data(p) => Ok(p),
    }
}

impl RelayAdapter {
    /// The transport backing this adapter.
    pub closed spec fn transport_spec(self) -> RelayTransport {
        self.transport
    }

    /// The configured remote endpoint, present exactly for the remote
    /// transport.
    pub closed spec fn endpoint_spec(self) -> Option<String> {
        self.endpoint
    }

    /// A remote adapter carries its endpoint; an in-process adapter none.
    pub closed spec fn wf(self) -> bool {
        self.transport is RemoteRpc <==> self.endpoint is Some
    }

    /// What [`RelayAdapter::latest_relay_state`] returns when this
    /// adapter's transport fetched the given outcome.
    pub open spec fn latest_state_result(self, fetched: RelayFetch<RelayStateRecord>) -> Result<
        RelayStateRecord,
        RoundError,
    > {
        classify_state_fetch(fetched)
    }

    /// What [`RelayAdapter::validation_data_for`] returns when this
    /// adapter's transport fetched the given outcome.
    pub open spec fn validation_data_result(self, fetched: RelayFetch<ValidationProof>) -> Result<
        ValidationProof,
        RoundError,
    > {
        classify_proof_fetch(fetched)
    }

    /// The transport backing this adapter.
    pub fn transport(&self) -> (r: RelayTransport)
        ensures
            r == self.transport_spec(),
    {
        self.transport
    }

    /// Builds the relay interface adapter for a relay-backed deployment.
    /// When an external relay endpoint is configured, the adapter is the
    /// remote client speaking to that endpoint, and no in-process relay
    /// service exists; otherwise the adapter wraps the relay service built
    /// in this process, and a failure to build that service is fatal.
    /// The standalone development mode never constructs an adapter.
    pub fn build(
        mode: &DeploymentMode,
        relay_endpoint: Option<String>,
        inprocess_relay_built: bool,
    ) -> (r: Result<RelayAdapter, InitError>)
        requires
            !(mode is StandaloneDev),
        ensures
            relay_endpoint matches Some(url) ==> (r matches Ok(a) && {
                &&& a.wf()
                &&& a.transport_spec() == RelayTransport::RemoteRpc
                &&& a.endpoint_spec() matches Some(e) && e@ == url@
            }),
            relay_endpoint is None && inprocess_relay_built ==> (r matches Ok(a) && {
                &&& a.wf()
                &&& a.transport_spec() == RelayTransport::InProcess
                &&& a.endpoint_spec() is None
            }),
            relay_endpoint is None && !inprocess_relay_built ==> r == Result::<
                RelayAdapter,
                InitError,
            >::Err(InitError::RelayAdapterFailed),
    {
        match relay_endpoint {
            Some(url) => Ok(
                RelayAdapter { transport: RelayTransport::RemoteRpc, endpoint: Some(url) },
            ),
            None => {
                if inprocess_relay_built {
                    Ok(RelayAdapter { transport: RelayTransport::InProcess, endpoint: None })
                } else {
                    Err(InitError::RelayAdapterFailed)
                }
            },
        }
    }

    /// Reports the latest finalized relay state from what this adapter's
    /// transport fetched. The classification is a function of the fetched
    /// outcome alone: the transport cannot influence it.
    pub fn latest_relay_state(&self, fetched: RelayFetch<RelayStateRecord>) -> (r: Result<
        RelayStateRecord,
        RoundError,
    >)
        ensures
            r == self.latest_state_result(fetched),
    {
        match fetched {
            RelayFetch::Unreachable => Err(RoundError::RelayUnavailable),
            RelayFetch::Missing => Err(RoundError::RelayUnavailable),
            RelayFetch::Data(s) => Ok(s),
        }
    }

    /// Reports the validation proof for a parent block from what this
    /// adapter's transport fetched. The classification is a function of the
    /// fetched outcome alone: the transport cannot influence it.
    pub fn validation_data_for(&self, fetched: RelayFetch<ValidationProof>) -> (r: Result<
        ValidationProof,
        RoundError,
    >)
        ensures
            r == self.validation_data_result(fetched),
    {
        match fetched {
            RelayFetch::Unreachable => Err(RoundError::RelayUnavailable),
            RelayFetch::Missing => Err(RoundError::InherentUnavailable),
            RelayFetch::Data(p) => Ok(p),
        }
    }
}

/// A candidate block plus its relay-anchoring proof, submitted to the relay
/// layer for inclusion.
#[derive(Clone, Debug, PartialEq, Eq)]
pub struct Collation {
    /// The round the candidate was authored in.
    pub round: u64,
    /// The encoded candidate the relay layer is asked to include.
    pub candidate: Vec<u8>,
}

/// How a collation announcement outcome is classified, independent of the
/// transport that carried it: an undelivered announcement is a relay fault
/// of this round, retried with the next collation.
pub open spec fn classify_announce(delivered: bool) -> Result<(), RoundError> {
    if delivered {
        Ok(())
    } else {
        Err(RoundError::RelayUnavailable)
    }
}

impl RelayAdapter {
    /// What [`RelayAdapter::announce`] returns when this adapter's transport
    /// reported the given delivery outcome.
    pub open spec fn announce_result(self, delivered: bool) -> Result<(), RoundError> {
        classify_announce(delivered)
    }

    /// Submits a collation through this adapter's transport and classifies
    /// the delivery outcome it reported. The classification is a function
    /// of that outcome alone: the transport cannot influence it.
    pub fn announce(&self, collation: &Collation, delivered: bool) -> (r: Result<(), RoundError>)
        ensures
            r == self.announce_result(delivered),
    {
        let _ = collation;
        if delivered {
            Ok(())
        } else {
            Err(RoundError::RelayUnavailable)
        }
    }
}

/// The two transports are behaviorally indistinguishable to their callers:
/// on identical relay-state fixtures, an in-process adapter and a remote
/// adapter classify the latest relay state, and the validation proof,
/// identically. The result depends on the fetched fixture alone.
pub proof fn lemma_adapter_substitutability(
    inprocess: RelayAdapter,
    remote: RelayAdapter,
    state_fixture: RelayFetch<RelayStateRecord>,
    proof_fixture: RelayFetch<ValidationProof>,
    delivered: bool,
)
    requires
        inprocess.transport_spec() == RelayTransport::InProcess,
        remote.transport_spec() == RelayTransport::RemoteRpc,
    ensures
        inprocess.latest_state_result(state_fixture) == remote.latest_state_result(state_fixture),
        inprocess.validation_data_result(proof_fixture) == remote.validation_data_result(
            proof_fixture,
        ),
        inprocess.announce_result(delivered) == remote.announce_result(delivered),
{
}

} // verus!
