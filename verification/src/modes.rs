//! Node role, deployment mode, and the consensus strategy selection.
//!
//! The mode/role cross product is a closed set: it is resolved once at
//! startup into at most one of three consensus strategies, and never
//! transitions at runtime.

use vstd::prelude::*;

verus! {

/// Whether the local node attempts block production.
#[derive(Clone, Copy, Debug, PartialEq, Eq, Structural)]
pub enum NodeRole {
    Authority,
    Participant,
}

/// How the node is deployed. Chosen once at startup and immutable for the
/// lifetime of the process.
#[derive(Clone, Copy, Debug, PartialEq, Eq, Structural)]
pub enum DeploymentMode {
    /// Produce blocks for a parent chain and submit them through the relay
    /// layer; the payload is the parachain identifier.
    Collator(u32),
    /// Only synchronize and validate blocks produced elsewhere.
    FullNode,
    /// Produce blocks instantly on an internal timer, with no relay layer.
    StandaloneDev,
}

/// The consensus strategy wired up at startup. Exactly one is active per
/// running instance; a non-authority standalone node selects none and idles.
#[derive(Clone, Copy, Debug, PartialEq, Eq, Structural)]
pub enum StrategyKind {
    /// Slot-gated authoring plus collation submission through the relay
    /// adapter (Collator mode, Authority role).
    CollatorAuthoring,
    /// No authoring: follow announcements and validate imported blocks
    /// (FullNode mode, or a Collator-mode participant not selected to author).
    FullNodeValidation,
    /// Free-running authoring on pool changes and timer ticks, with
    /// immediate finalization (StandaloneDev mode, Authority role).
    InstantSealAuthoring,
}

impl DeploymentMode {
    /// Modes that anchor against a relay layer.
    pub open spec fn is_relay_backed(self) -> bool {
        self is Collator || self is FullNode
    }

    /// Reports whether this mode anchors against a relay layer.
    pub fn relay_backed(&self) -> (r: bool)
        ensures
            r == self.is_relay_backed(),
    {
        match self {
            DeploymentMode::Collator(_) => true,
            DeploymentMode::FullNode => true,
            DeploymentMode::StandaloneDev => false,
        }
    }
}

/// The strategy chosen for a given mode and role, `None` for the one idle
/// configuration (a standalone development node without the authority role).
pub open spec fn strategy_for(mode: DeploymentMode, role: NodeRole) -> Option<StrategyKind> {
    match (mode, role) {
        (DeploymentMode::Collator(_), NodeRole::Authority) => Some(StrategyKind::CollatorAuthoring),
        (DeploymentMode::Collator(_), NodeRole::Participant) => Some(StrategyKind::FullNodeValidation),
        (DeploymentMode::FullNode, _) => Some(StrategyKind::FullNodeValidation),
        (DeploymentMode::StandaloneDev, NodeRole::Authority) => Some(StrategyKind::InstantSealAuthoring),
        (DeploymentMode::StandaloneDev, NodeRole::Participant) => None,
    }
}

/// Resolves the deployment mode and node role into the consensus strategy
/// that the orchestrator will wire up.
pub fn select_strategy(mode: &DeploymentMode, role: &NodeRole) -> (r: Option<StrategyKind>)
    ensures
        r == strategy_for(*mode, *role),
{
    match (mode, role) {
        (DeploymentMode::Collator(_), NodeRole::Authority) => Some(StrategyKind::CollatorAuthoring),
        (DeploymentMode::Collator(_), NodeRole::Participant) => Some(StrategyKind::FullNodeValidation),
        (DeploymentMode::FullNode, _) => Some(StrategyKind::FullNodeValidation),
        (DeploymentMode::StandaloneDev, NodeRole::Authority) => Some(StrategyKind::InstantSealAuthoring),
        (DeploymentMode::StandaloneDev, NodeRole::Participant) => None,
    }
}

/// Strategy selection is exhaustive and exclusive: for every mode and role
/// other than the idle standalone participant, exactly one of the three
/// strategies is selected.
pub proof fn lemma_exactly_one_strategy(mode: DeploymentMode, role: NodeRole)
    requires
        !(mode is StandaloneDev && role is Participant),
    ensures
        strategy_for(mode, role) is Some,
        ({
            let s = strategy_for(mode, role)->0;
            (if s is CollatorAuthoring { 1int } else { 0int })
                + (if s is FullNodeValidation { 1int } else { 0int })
                + (if s is InstantSealAuthoring { 1int } else { 0int }) == 1
        }),
{
}

/// Only the collator-mode authority authors through the relay layer, and
/// only the standalone authority authors through the instant seal: the
/// strategy that authors is uniquely determined by the mode.
pub proof fn lemma_strategy_mode_agreement(mode: DeploymentMode, role: NodeRole)
    ensures
        strategy_for(mode, role) == Some(StrategyKind::CollatorAuthoring)
            ==> mode is Collator && role is Authority,
        strategy_for(mode, role) == Some(StrategyKind::InstantSealAuthoring)
            ==> mode is StandaloneDev && role is Authority,
        strategy_for(mode, role) is Some && mode.is_relay_backed() && role is Participant
            ==> strategy_for(mode, role) == Some(StrategyKind::FullNodeValidation),
{
}

} // verus!
