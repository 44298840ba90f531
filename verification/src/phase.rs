//! Installation phase: the coarse lifecycle stage of the installer.
//!
//! The phase is owned exclusively by the orchestration service and only
//! moves forward under the normal probe/commit/finish flow.

use vstd::prelude::*;

verus! {

/// The coarse installation lifecycle stage.
///
/// The expected traversal order is `Startup -> Config -> Install -> Finish`;
/// [`phase_index`] gives each phase its position in that order.
#[derive(Clone, Copy, Debug, PartialEq, Eq, Structural)]
pub enum InstallationPhase {
    /// The service has just been created.
    Startup,
    /// The system has been probed and is being configured.
    Config,
    /// The installation is running.
    Install,
    /// The installation ended and post-installation tasks may run.
    Finish,
}

/// Position of a phase in the expected traversal order.
pub open spec fn phase_index(p: InstallationPhase) -> int {
    match p {
        InstallationPhase::Startup => 0,
        InstallationPhase::Config => 1,
        InstallationPhase::Install => 2,
        InstallationPhase::Finish => 3,
    }
}

} // verus!
