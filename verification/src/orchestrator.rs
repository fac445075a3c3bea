//! The mode orchestrator.
//!
//! Sequences startup: assemble the shared services, build the relay
//! interface adapter when the mode anchors against a relay layer, start
//! networking, select and wire the consensus strategy, and hand back a live
//! node handle. Only initialization-phase errors propagate out of here;
//! every later, per-round error is contained inside the strategy's loop.
//! The outside collaborators that open stores, connect networks and spawn
//! tasks report their outcomes as plain events, consumed here in startup
//! order.

use vstd::prelude::*;
use crate::errors::InitError;
use crate::modes::{strategy_for, select_strategy, DeploymentMode, NodeRole, StrategyKind};
use crate::relay::{RelayAdapter, RelayTransport};
use crate::service::{assembly_error, new_partial, AssemblyOutcomes, ServiceBundle, ServiceConfig};

verus! {

/// Everything startup is decided from: the mode and role chosen once for
/// the process lifetime, the relay endpoint configuration, whether the key
/// store holds a usable signing key, and the shared service configuration.
#[derive(Clone, Debug, PartialEq, Eq)]
pub struct StartConfig {
    /// The deployment mode, immutable for the node's lifetime.
    pub mode: DeploymentMode,
    /// Whether the local node attempts block production.
    pub role: NodeRole,
    /// An external relay endpoint, when the relay layer is to be reached
    /// over RPC instead of an in-process service.
    pub relay_endpoint: Option<String>,
    /// The key store holds a usable signing key for authoring.
    pub signing_key_available: bool,
    /// The shared service configuration.
    pub service: ServiceConfig,
}

/// What the outside collaborators reported during startup, in the order the
/// phases run.
#[derive(Clone, Copy, Debug, PartialEq, Eq, Structural)]
pub struct StartOutcomes {
    /// The outcomes of the shared service assembly.
    pub assembly: AssemblyOutcomes,
    /// The in-process relay service was built (consulted only when the mode
    /// is relay-backed and no external endpoint is configured).
    pub inprocess_relay_built: bool,
    /// The networking stack and the background task set were started.
    pub network_built: bool,
    /// The authoring strategy's proposal factory and loop were constructed
    /// (consulted only when an authoring strategy is selected).
    pub consensus_built: bool,
}

/// The live node: the long-running task set, the shared services, the relay
/// adapter when one exists, and the single consensus strategy wired at
/// startup. Torn down as a whole on shutdown; nothing of it outlives a
/// failed initialization.
#[derive(Clone, Debug, PartialEq, Eq)]
pub struct RunningNodeHandle {
    mode: DeploymentMode,
    role: NodeRole,
    services: ServiceBundle,
    relay: Option<RelayAdapter>,
    strategy: Option<StrategyKind>,
    running: bool,
}

impl RunningNodeHandle {
    /// The deployment mode the node was started in.
    pub closed spec fn mode_spec(self) -> DeploymentMode {
        self.mode
    }

    /// The strategy wired at startup, `None` for the idle standalone
    /// participant.
    pub closed spec fn strategy_spec(self) -> Option<StrategyKind> {
        self.strategy
    }

    /// The relay adapter, present exactly for relay-backed modes.
    pub closed spec fn relay_spec(self) -> Option<RelayAdapter> {
        self.relay
    }

    /// The shared service bundle.
    pub closed spec fn services_spec(self) -> ServiceBundle {
        self.services
    }

    /// Whether the background task set is still running.
    pub closed spec fn is_running(self) -> bool {
        self.running
    }

    /// How many consensus strategies are active in this instance.
    pub open spec fn active_strategy_count(self) -> int {
        if self.strategy_spec() is Some {
            1
        } else {
            0
        }
    }

    /// The startup invariants every returned handle satisfies: the strategy
    /// is the one the mode and role select, a relay adapter exists exactly
    /// for the relay-backed modes (never for the standalone development
    /// mode), and at most one strategy is active.
    pub open spec fn wf(self) -> bool {
        &&& self.strategy_spec() == strategy_for(self.mode_spec(), self.role_spec())
        &&& self.relay_spec() is Some <==> self.mode_spec().is_relay_backed()
        &&& self.mode_spec() is StandaloneDev ==> self.relay_spec() is None
        &&& 0 <= self.active_strategy_count() <= 1
    }

    /// The node role the node was started with.
    pub closed spec fn role_spec(self) -> NodeRole {
        self.role
    }

    /// The strategy wired at startup.
    pub fn strategy(&self) -> (r: Option<StrategyKind>)
        ensures
            r == self.strategy_spec(),
    {
        self.strategy
    }

    /// How many consensus strategies are active in this instance.
    pub fn active_strategies(&self) -> (r: u32)
        ensures
            r as int == self.active_strategy_count(),
    {
        match self.strategy {
            Some(_) => 1,
            None => 0,
        }
    }

    /// The transport of the relay adapter, when one exists.
    pub fn relay_transport(&self) -> (r: Option<RelayTransport>)
        ensures
            r is Some <==> self.relay_spec() is Some,
            r matches Some(t) ==> (self.relay_spec() matches Some(a) && a.transport_spec() == t),
    {
        match &self.relay {
            Some(a) => Some(a.transport()),
            None => None,
        }
    }

    /// Read access to the shared store client, for external chain
    /// operations.
    pub fn client_handle(&self) -> (r: &ServiceBundle)
        ensures
            *r == self.services_spec(),
    {
        &self.services
    }

    /// Whether the background task set is still running.
    pub fn running(&self) -> (r: bool)
        ensures
            r == self.is_running(),
    {
        self.running
    }

    /// Tears the whole task set down together: nothing of the node keeps
    /// running past this call.
    pub fn shutdown(&mut self)
        ensures
            !final(self).is_running(),
            final(self).mode_spec() == old(self).mode_spec(),
            final(self).role_spec() == old(self).role_spec(),
            final(self).strategy_spec() == old(self).strategy_spec(),
            final(self).relay_spec() == old(self).relay_spec(),
            final(self).wf() == old(self).wf(),
    {
        self.running = false;
    }
}

/// Whether startup consults the relay-adapter phase: only the relay-backed
/// modes build an adapter.
pub open spec fn needs_relay(config: StartConfig) -> bool {
    config.mode.is_relay_backed()
}

/// Whether the selected strategy authors blocks, and so needs a signing key
/// and a constructed consensus loop.
pub open spec fn authoring_strategy(s: Option<StrategyKind>) -> bool {
    s == Some(StrategyKind::CollatorAuthoring) || s == Some(StrategyKind::InstantSealAuthoring)
}

/// The error startup fails with, or nothing when the node comes up: the
/// first failing phase in startup order — shared services, relay adapter,
/// networking, then the consensus strategy (a usable signing key for an
/// authoring strategy, then its construction).
pub open spec fn start_error(config: StartConfig, outcomes: StartOutcomes) -> Option<InitError> {
    if assembly_error(config.service, outcomes.assembly) is Some {
        assembly_error(config.service, outcomes.assembly)
    } else if needs_relay(config) && config.relay_endpoint is None
        && !outcomes.inprocess_relay_built {
        Some(InitError::RelayAdapterFailed)
    } else if !outcomes.network_built {
        Some(InitError::NetworkBuildFailed)
    } else if authoring_strategy(strategy_for(config.mode, config.role))
        && !config.signing_key_available {
        Some(InitError::SigningUnavailable)
    } else if authoring_strategy(strategy_for(config.mode, config.role))
        && !outcomes.consensus_built {
        Some(InitError::ConsensusBuildFailed)
    } else {
        None
    }
}

/// Starts the node: assembles the shared services, builds the relay adapter
/// for relay-backed modes, starts networking, and wires the consensus
/// strategy selected by the mode and role. Returns the live handle, or the
/// typed error of the first startup phase that failed — never anything
/// unstructured. The handle satisfies the startup invariants: its strategy
/// is the selected one, a relay adapter exists exactly for relay-backed
/// modes, and its task set is running.
pub fn start(config: StartConfig, outcomes: &StartOutcomes) -> (r: Result<
    RunningNodeHandle,
    InitError,
>)
    ensures
        r is Ok <==> start_error(config, *outcomes) is None,
        r matches Err(e) ==> start_error(config, *outcomes) == Some(e),
        r matches Ok(h) ==> {
            &&& h.wf()
            &&& h.is_running()
            &&& h.mode_spec() == config.mode
            &&& h.role_spec() == config.role
            &&& h.strategy_spec() == strategy_for(config.mode, config.role)
            &&& h.services_spec().parachain == config.mode.is_relay_backed()
            &&& (h.relay_spec() matches Some(a) ==> {
                &&& a.wf()
                &&& (a.transport_spec() == RelayTransport::RemoteRpc <==> config.relay_endpoint
                    is Some)
            })
        },
{
    let parachain = config.mode.relay_backed();
    let services = match new_partial(&config.service, parachain, &outcomes.assembly) {
        Ok(b) => b,
        Err(e) => {
            return Err(e);
        },
    };
    let relay: Option<RelayAdapter> = if parachain {
        match RelayAdapter::build(&config.mode, config.relay_endpoint, outcomes.inprocess_relay_built) {
            Ok(a) => Some(a),
            Err(e) => {
                return Err(e);
            },
        }
    } else {
        None
    };
    if !outcomes.network_built {
        return Err(InitError::NetworkBuildFailed);
    }
    let strategy = select_strategy(&config.mode, &config.role);
    let authoring = match strategy {
        Some(StrategyKind::CollatorAuthoring) => true,
        Some(StrategyKind::InstantSealAuthoring) => true,
        _ => false,
    };
    if authoring && !config.signing_key_available {
        return Err(InitError::SigningUnavailable);
    }
    if authoring && !outcomes.consensus_built {
        return Err(InitError::ConsensusBuildFailed);
    }
    Ok(
        RunningNodeHandle {
            mode: config.mode,
            role: config.role,
            services,
            relay,
            strategy,
            running: true,
        },
    )
}

/// Starts a node anchored against a relay layer: a collator, or a full node
/// following one. The relay adapter is built before networking, and the
/// consensus strategy is wired last; the handle owns the relay adapter for
/// the node's lifetime.
pub fn start_parachain_node(config: StartConfig, outcomes: &StartOutcomes) -> (r: Result<
    RunningNodeHandle,
    InitError,
>)
    requires
        config.mode.is_relay_backed(),
    ensures
        r is Ok <==> start_error(config, *outcomes) is None,
        r matches Err(e) ==> start_error(config, *outcomes) == Some(e),
        r matches Ok(h) ==> {
            &&& h.wf()
            &&& h.is_running()
            &&& h.mode_spec() == config.mode
            &&& h.relay_spec() is Some
            &&& h.strategy_spec() == strategy_for(config.mode, config.role)
        },
{
    start(config, outcomes)
}

/// Starts a standalone development node: no relay layer exists, none is
/// built, and an authority seals blocks instantly on pool changes and timer
/// ticks while a participant only follows.
pub fn start_instant_seal_node(config: StartConfig, outcomes: &StartOutcomes) -> (r: Result<
    RunningNodeHandle,
    InitError,
>)
    requires
        config.mode is StandaloneDev,
    ensures
        r is Ok <==> start_error(config, *outcomes) is None,
        r matches Err(e) ==> start_error(config, *outcomes) == Some(e),
        r matches Ok(h) ==> {
            &&& h.wf()
            &&& h.is_running()
            &&& h.mode_spec() == config.mode
            &&& h.relay_spec() is None
            &&& h.strategy_spec() == strategy_for(config.mode, config.role)
        },
{
    start(config, outcomes)
}

/// Every running instance runs exactly one of the three consensus
/// strategies, except the idle standalone participant, which runs none:
/// the handle that [`start`] returns for any other mode and role has an
/// active strategy count of one.
pub proof fn lemma_one_active_strategy(h: RunningNodeHandle)
    requires
        h.wf(),
        !(h.mode_spec() is StandaloneDev && h.role_spec() is Participant),
    ensures
        h.active_strategy_count() == 1,
{
    crate::modes::lemma_exactly_one_strategy(h.mode_spec(), h.role_spec());
}

/// Startup is total and typed: for every configuration and every set of
/// collaborator outcomes, either no phase failed, or the failure is one of
/// the initialization errors, named for its phase — never anything
/// unstructured.
pub proof fn lemma_start_classified(config: StartConfig, outcomes: StartOutcomes)
    ensures
        start_error(config, outcomes) matches Some(e) ==> (e.phase_spec() is Store || e.phase_spec()
            is Network || e.phase_spec() is RelayAdapter || e.phase_spec() is ConsensusBuild),
        config.mode is StandaloneDev ==> start_error(config, outcomes) != Some(
            InitError::RelayAdapterFailed,
        ),
{
}

} // verus!
