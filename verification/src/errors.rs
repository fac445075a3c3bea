//! Error taxonomy of the orchestration core.
//!
//! Initialization errors are fatal: they abort startup and identify the
//! phase that failed. Round errors are recoverable: the authoring loop
//! contains them, skips the current round and retries on the next trigger.

use vstd::prelude::*;

verus! {

/// A fatal startup failure. Each variant identifies what went wrong; the
/// startup phase it belongs to is given by [`InitError::phase`].
#[derive(Clone, Copy, Debug, PartialEq, Eq, Structural)]
pub enum InitError {
    /// The telemetry worker could not be constructed.
    TelemetryFailed,
    /// The primary database source is not one the auxiliary store supports.
    UnsupportedDatabase,
    /// The backing store could not be opened.
    StoreOpenFailed,
    /// The backing store exists but its on-disk format is incompatible.
    StoreFormatIncompatible,
    /// The block import pipeline could not be constructed
    /// (for example, a malformed chain specification).
    ImportPipelineFailed,
    /// The in-process relay service could not be built.
    RelayAdapterFailed,
    /// The networking stack or the background task set could not be started.
    NetworkBuildFailed,
    /// The consensus strategy could not be constructed.
    ConsensusBuildFailed,
    /// An authority role was configured without a usable signing key.
    SigningUnavailable,
}

/// The startup phase a fatal error belongs to, for operator diagnostics.
#[derive(Clone, Copy, Debug, PartialEq, Eq, Structural)]
pub enum InitPhase {
    Store,
    Network,
    RelayAdapter,
    ConsensusBuild,
}

/// A recoverable failure of a single authoring round. The round is skipped
/// and the loop retries on the next trigger; none of these unwinds past the
/// consensus strategy's loop.
#[derive(Clone, Copy, Debug, PartialEq, Eq, Structural)]
pub enum RoundError {
    /// The relay layer could not be reached for this round.
    RelayUnavailable,
    /// The inherent bundle for this round could not be assembled.
    InherentUnavailable,
    /// Block proposal did not complete within its allotted time.
    ProposalTimeout,
    /// The produced block failed local validation on import.
    ImportRejected,
}

impl InitError {
    /// The phase of startup that this error identifies as having failed.
    pub open spec fn phase_spec(self) -> InitPhase {
        match self {
            InitError::TelemetryFailed => InitPhase::Store,
            InitError::UnsupportedDatabase => InitPhase::Store,
            InitError::StoreOpenFailed => InitPhase::Store,
            InitError::StoreFormatIncompatible => InitPhase::Store,
            InitError::ImportPipelineFailed => InitPhase::Store,
            InitError::RelayAdapterFailed => InitPhase::RelayAdapter,
            InitError::NetworkBuildFailed => InitPhase::Network,
            InitError::ConsensusBuildFailed => InitPhase::ConsensusBuild,
            InitError::SigningUnavailable => InitPhase::ConsensusBuild,
        }
    }

    /// Reports which startup phase failed.
    pub fn phase(&self) -> (r: InitPhase)
        ensures
            r == self.phase_spec(),
    {
        match self {
            InitError::TelemetryFailed => InitPhase::Store,
            InitError::UnsupportedDatabase => InitPhase::Store,
            InitError::StoreOpenFailed => InitPhase::Store,
            InitError::StoreFormatIncompatible => InitPhase::Store,
            InitError::ImportPipelineFailed => InitPhase::Store,
            InitError::RelayAdapterFailed => InitPhase::RelayAdapter,
            InitError::NetworkBuildFailed => InitPhase::Network,
            InitError::ConsensusBuildFailed => InitPhase::ConsensusBuild,
            InitError::SigningUnavailable => InitPhase::ConsensusBuild,
        }
    }

    /// A short operator-facing description of the failure.
    pub fn describe(&self) -> (r: &'static str)
        ensures
            self is TelemetryFailed ==> r@ == "store: telemetry worker could not be constructed"@,
            self is UnsupportedDatabase ==> r@
                == "store: unsupported database source for the auxiliary store"@,
            self is StoreOpenFailed ==> r@ == "store: could not open the backing store"@,
            self is StoreFormatIncompatible ==> r@ == "store: incompatible on-disk format"@,
            self is ImportPipelineFailed ==> r@
                == "store: import pipeline could not be constructed"@,
            self is RelayAdapterFailed ==> r@
                == "relay adapter: in-process relay service could not be built"@,
            self is NetworkBuildFailed ==> r@
                == "network: networking or background tasks could not be started"@,
            self is ConsensusBuildFailed ==> r@ == "consensus: strategy could not be constructed"@,
            self is SigningUnavailable ==> r@
                == "consensus: authority configured without a usable signing key"@,
    {
        match self {
            InitError::TelemetryFailed => "store: telemetry worker could not be constructed",
            InitError::UnsupportedDatabase => "store: unsupported database source for the auxiliary store",
            InitError::StoreOpenFailed => "store: could not open the backing store",
            InitError::StoreFormatIncompatible => "store: incompatible on-disk format",
            InitError::ImportPipelineFailed => "store: import pipeline could not be constructed",
            InitError::RelayAdapterFailed => "relay adapter: in-process relay service could not be built",
            InitError::NetworkBuildFailed => "network: networking or background tasks could not be started",
            InitError::ConsensusBuildFailed => "consensus: strategy could not be constructed",
            InitError::SigningUnavailable => "consensus: authority configured without a usable signing key",
        }
    }
}

} // verus!
