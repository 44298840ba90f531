//! Orchestration core of an installer control plane.
//!
//! The crate models the sequential heart of a long-running installation
//! service: an orchestration state machine that owns the installation
//! phase and dispatches lifecycle actions, a status tracker that models a
//! multi-step operation as an ordered sequence of named steps with a
//! derived busy/idle status, and a read-only products registry.
//!
//! Every mutation of the tracker or of the orchestrator returns the
//! lifecycle events it gives rise to; callers (an actor loop, a web
//! layer) publish those events on whatever bus they use and perform the
//! actual collaborator calls, feeding their outcomes back in.

pub mod events;
pub mod manager;
pub mod phase;
pub mod products;
pub mod progress;
pub mod service_status;
pub mod software;

pub use phase::InstallationPhase;
