//! Mode-selection and consensus-wiring core of a parachain node.
//!
//! The crate models the orchestration that a node performs at startup and
//! while authoring: assembling the shared service bundle, building a relay
//! interface adapter, selecting a consensus strategy from the deployment
//! mode and node role, and producing the per-block inherent bundle
//! (including the mocked relay data used by the standalone development
//! mode). The surrounding process performs the actual I/O (storage,
//! networking, RPC) and feeds its outcomes into these functions as events.

pub mod errors;
pub mod modes;
pub mod mock_relay;
pub mod inherent;
pub mod relay;
pub mod service;
pub mod orchestrator;
pub mod authoring;
