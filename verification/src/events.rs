//! Lifecycle events published to observers.
//!
//! Every state transition of the orchestrator or of a status tracker is
//! described by one or more [`Event`] values. The library returns them
//! from each mutating operation; the surrounding process publishes them
//! on its broadcast bus.

use vstd::prelude::*;

use crate::phase::InstallationPhase;
use crate::progress::Progress;

verus! {

/// Derived two-valued service state: `Busy` while a progress sequence is
/// active, `Idle` otherwise.
#[derive(Clone, Copy, Debug, PartialEq, Eq, Structural)]
pub enum ServiceStatus {
    /// No active progress sequence.
    Idle,
    /// An active progress sequence exists.
    Busy,
}

/// A lifecycle event, tagged with the name of the service it concerns
/// where the event is service-specific.
#[derive(Clone, Debug, PartialEq)]
pub enum Event {
    /// The orchestrator moved to a new installation phase.
    InstallationPhaseChanged {
        /// The phase after the change.
        phase: InstallationPhase,
    },
    /// A service switched between busy and idle.
    ServiceStatusChanged {
        /// Name of the service whose status changed.
        service: String,
        /// The status after the change.
        status: ServiceStatus,
    },
    /// A service's progress sequence advanced (or terminated).
    Progress {
        /// Name of the service reporting progress.
        service: String,
        /// Snapshot of the sequence after the change.
        progress: Progress,
    },
    /// A background task of a service failed; the busy state is still
    /// released, so observers must not treat the preceding terminal
    /// progress as success.
    TaskFailed {
        /// Name of the service whose task failed.
        service: String,
    },
}

} // verus!
