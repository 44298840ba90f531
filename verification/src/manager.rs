//! Orchestration service: owns the installation phase and dispatches
//! lifecycle actions.
//!
//! The service is driven by [`ManagerAction`] messages. Each dispatch is
//! a pure state transition: it updates the phase and the status tracker
//! and returns the events to publish together with what the surrounding
//! actor loop must do next (reply to the caller, start the background
//! probe work).

use vstd::prelude::*;

use crate::events::{Event, ServiceStatus};
use crate::phase::{phase_index, InstallationPhase};
use crate::products::ProductsRegistry;
use crate::service_status::{
    first_progress_event, status_event, ServiceStatusManager,
};

verus! {

/// Actions the orchestration service understands.
#[derive(Clone, Copy, Debug, PartialEq, Eq, Structural)]
pub enum ManagerAction {
    /// Probes the hardware, refreshes the repositories, etc.
    Probe,
    /// Starts the installation (reserved; not implemented yet).
    Commit,
    /// Finishes the installation (reserved; not implemented yet).
    Finish,
    /// Asks for the installation status.
    GetState,
}

/// Errors of the orchestration service and of its clients.
#[derive(Clone, Copy, Debug, PartialEq, Eq, Structural)]
pub enum ManagerError {
    /// The action channel or the reply channel is closed: the service
    /// has shut down or failed mid-handler.
    ServiceUnavailable,
    /// A second long-running task was requested while one is active.
    AlreadyBusy,
    /// A probe call to a collaborator failed.
    CollaboratorFailure,
    /// The operation is reserved for a later stage and not available yet.
    Unimplemented,
}

impl ManagerError {
    /// What the error means, for each variant.
    pub open spec fn message_spec(self) -> Seq<char> {
        match self {
            ManagerError::ServiceUnavailable => "the service is unavailable"@,
            ManagerError::AlreadyBusy => "the service task is busy"@,
            ManagerError::CollaboratorFailure => "a collaborator probe failed"@,
            ManagerError::Unimplemented => "the operation is not implemented yet"@,
        }
    }

    /// Human-readable description of the error.
    pub fn message(&self) -> (r: String)
        ensures
            r@ == self.message_spec(),
    {
        match self {
            ManagerError::ServiceUnavailable => "the service is unavailable".to_owned(),
            ManagerError::AlreadyBusy => "the service task is busy".to_owned(),
            ManagerError::CollaboratorFailure => "a collaborator probe failed".to_owned(),
            ManagerError::Unimplemented => "the operation is not implemented yet".to_owned(),
        }
    }
}

/// Point-in-time read model of the installer.
#[derive(Clone, Copy, Debug, PartialEq, Eq, Structural)]
pub struct InstallerStatus {
    /// Whether a long-running operation is active.
    pub is_busy: bool,
    /// Reserved feature flag, currently always false.
    pub can_install: bool,
    /// Reserved feature flag, currently always false.
    pub use_iguana: bool,
    /// Current installation phase.
    pub phase: InstallationPhase,
}

/// What one dispatched action asks the surrounding actor loop to do.
#[derive(Debug)]
pub struct DispatchEffect {
    /// Events to publish, in order.
    pub events: Vec<Event>,
    /// Reply to send back for a query action.
    pub reply: Option<InstallerStatus>,
    /// Whether to run the background probe work, feeding each outcome
    /// into the status tracker.
    pub start_probe: bool,
}

/// The titles of the probe steps, in order: storage is analyzed before
/// the software selection is configured.
pub open spec fn probe_step_titles() -> Seq<Seq<char>> {
    seq!["Analyze disks"@, "Configure software"@]
}

/// Phase after dispatching one action: only an accepted `Probe` moves it.
pub open spec fn phase_after(
    action: ManagerAction,
    phase: InstallationPhase,
    busy: bool,
) -> InstallationPhase {
    if action is Probe && !busy {
        InstallationPhase::Config
    } else {
        phase
    }
}

/// Main service for the installation process.
pub struct ManagerServiceServer {
    /// Current installation phase.
    pub phase: InstallationPhase,
    /// Registry of the known products.
    pub products: ProductsRegistry,
}

/// Everything a successfully dispatched `Probe` brings about: the tracker
/// runs a fresh sequence over the probe steps, the phase is `Config`, and
/// the events are the first step's snapshot, the busy status change and
/// the phase change, in that order.
pub open spec fn probe_started(
    pre_m: ManagerServiceServer,
    post_m: ManagerServiceServer,
    pre_s: ServiceStatusManager,
    post_s: ServiceStatusManager,
    events: Seq<Event>,
) -> bool {
    &&& post_s.name == pre_s.name
    &&& post_s.sequence matches Some(s) && ({
        &&& s.current == 0
        &&& s.steps.deep_view() == probe_step_titles()
        &&& events.len() == 3
        &&& first_progress_event(events[0], pre_s.name, s.steps@)
        &&& status_event(events[1], pre_s.name, ServiceStatus::Busy)
        &&& events[2] == (Event::InstallationPhaseChanged { phase: InstallationPhase::Config })
    })
    &&& post_m.phase == InstallationPhase::Config
    &&& post_m.products == pre_m.products
}

impl ManagerServiceServer {
    /// Creates the service at phase `Startup` over the given registry.
    pub fn new(products: ProductsRegistry) -> (r: ManagerServiceServer)
        ensures
            r.phase == InstallationPhase::Startup,
            r.products == products,
    {
        ManagerServiceServer { phase: InstallationPhase::Startup, products }
    }

    /// Moves to `phase` and returns the event announcing it.
    pub fn change_phase(&mut self, phase: InstallationPhase) -> (ev: Event)
        ensures
            final(self).phase == phase,
            final(self).products == old(self).products,
            ev == (Event::InstallationPhaseChanged { phase }),
    {
        self.phase = phase;
        Event::InstallationPhaseChanged { phase }
    }

    /// Starts probing the system.
    ///
    /// Starts the probe sequence on the tracker — rejected with
    /// [`ManagerError::AlreadyBusy`], everything untouched, while a task
    /// is active — and moves the phase to `Config`. The collaborator
    /// calls themselves are background work: the caller performs them and
    /// feeds each outcome into [`ServiceStatusManager::complete_step`].
    pub fn probe(&mut self, status: &mut ServiceStatusManager) -> (r: Result<
        Vec<Event>,
        ManagerError,
    >)
        requires
            old(status).wf(),
        ensures
            final(status).wf(),
            old(status).busy() ==> {
                &&& *final(self) == *old(self)
                &&& *final(status) == *old(status)
                &&& r matches Err(e) && e == ManagerError::AlreadyBusy
            },
            !old(status).busy() ==> (r matches Ok(events) && probe_started(
                *old(self),
                *final(self),
                *old(status),
                *final(status),
                events@,
            )),
    {
        if status.is_busy() {
            return Err(ManagerError::AlreadyBusy);
        }
        let mut steps: Vec<String> = Vec::new();
        steps.push("Analyze disks".to_owned());
        steps.push("Configure software".to_owned());
        proof {
            assert(steps.deep_view() =~= probe_step_titles());
        }
        let mut events = status.start(steps).unwrap();
        let ev = self.change_phase(InstallationPhase::Config);
        events.push(ev);
        Ok(events)
    }

    /// Starts the installation. Reserved for a later stage: fails with a
    /// typed [`ManagerError::Unimplemented`] instead of crashing.
    pub fn commit(&mut self) -> (r: Result<Vec<Event>, ManagerError>)
        ensures
            *final(self) == *old(self),
            r matches Err(e) && e == ManagerError::Unimplemented,
    {
        Err(ManagerError::Unimplemented)
    }

    /// Runs the post-installation tasks. Reserved for a later stage:
    /// fails with a typed [`ManagerError::Unimplemented`] instead of
    /// crashing.
    pub fn finish(&mut self) -> (r: Result<Vec<Event>, ManagerError>)
        ensures
            *final(self) == *old(self),
            r matches Err(e) && e == ManagerError::Unimplemented,
    {
        Err(ManagerError::Unimplemented)
    }

    /// Point-in-time read of the installer state. A pure projection: the
    /// returned snapshot is exactly the current phase and busy flag,
    /// never a torn value.
    pub fn get_state(&self, status: &ServiceStatusManager) -> (r: InstallerStatus)
        ensures
            r.is_busy == status.busy(),
            !r.can_install,
            !r.use_iguana,
            r.phase == self.phase,
    {
        InstallerStatus {
            is_busy: status.is_busy(),
            can_install: false,
            use_iguana: false,
            phase: self.phase,
        }
    }

    /// Runs the startup of the service: with a single-product registry
    /// the probe starts right away; with a multi-product registry the
    /// service waits for a product selection and the phase stays put.
    pub fn startup(&mut self, status: &mut ServiceStatusManager) -> (r: Result<
        Vec<Event>,
        ManagerError,
    >)
        requires
            old(status).wf(),
        ensures
            final(status).wf(),
            old(self).products.multiproduct() ==> {
                &&& *final(self) == *old(self)
                &&& *final(status) == *old(status)
                &&& r matches Ok(events) && events@.len() == 0
            },
            !old(self).products.multiproduct() && old(status).busy() ==> {
                &&& *final(self) == *old(self)
                &&& *final(status) == *old(status)
                &&& r matches Err(e) && e == ManagerError::AlreadyBusy
            },
            !old(self).products.multiproduct() && !old(status).busy() ==> (r matches Ok(events)
                && probe_started(*old(self), *final(self), *old(status), *final(status), events@)),
    {
        if !self.products.is_multiproduct() {
            self.probe(status)
        } else {
            Ok(Vec::new())
        }
    }

    /// Dispatches one action.
    ///
    /// The phase moves exactly as [`phase_after`] says; in particular a
    /// rejected `Probe` corrupts nothing, and `GetState` observes the
    /// state as it stands, whole.
    pub fn dispatch(&mut self, action: ManagerAction, status: &mut ServiceStatusManager) -> (r:
        Result<DispatchEffect, ManagerError>)
        requires
            old(status).wf(),
        ensures
            final(status).wf(),
            final(self).products == old(self).products,
            final(self).phase == phase_after(action, old(self).phase, old(status).busy()),
            action is Probe && old(status).busy() ==> {
                &&& *final(self) == *old(self)
                &&& *final(status) == *old(status)
                &&& r matches Err(e) && e == ManagerError::AlreadyBusy
            },
            action is Probe && !old(status).busy() ==> (r matches Ok(eff) && ({
                &&& probe_started(*old(self), *final(self), *old(status), *final(status), eff.events@)
                &&& eff.reply is None
                &&& eff.start_probe
            })),
            action is Commit || action is Finish ==> {
                &&& *final(self) == *old(self)
                &&& *final(status) == *old(status)
                &&& r matches Err(e) && e == ManagerError::Unimplemented
            },
            action is GetState ==> {
                &&& *final(self) == *old(self)
                &&& *final(status) == *old(status)
                &&& r matches Ok(eff) && ({
                    &&& eff.events@.len() == 0
                    &&& !eff.start_probe
                    &&& eff.reply matches Some(st)
                    &&& st.is_busy == old(status).busy()
                    &&& st.phase == old(self).phase
                    &&& !st.can_install
                    &&& !st.use_iguana
                })
            },
    {
        match action {
            ManagerAction::Probe => {
                let events = self.probe(status)?;
                Ok(DispatchEffect { events, reply: None, start_probe: true })
            },
            ManagerAction::Commit => {
                let events = self.commit()?;
                Ok(DispatchEffect { events, reply: None, start_probe: false })
            },
            ManagerAction::Finish => {
                let events = self.finish()?;
                Ok(DispatchEffect { events, reply: None, start_probe: false })
            },
            ManagerAction::GetState => {
                let st = self.get_state(status);
                Ok(DispatchEffect { events: Vec::new(), reply: Some(st), start_probe: false })
            },
        }
    }
}

/// Phase after dispatching a whole sequence of actions, each paired with
/// whether the tracker was busy when it arrived.
pub open spec fn phase_after_all(
    actions: Seq<(ManagerAction, bool)>,
    phase: InstallationPhase,
) -> InstallationPhase
    decreases actions.len(),
{
    if actions.len() == 0 {
        phase
    } else {
        phase_after(
            actions.last().0,
            phase_after_all(actions.drop_last(), phase),
            actions.last().1,
        )
    }
}

/// Law: one dispatched action never moves the phase backward from any
/// phase the normal probe/commit/finish flow can reach, and never past
/// `Config` — the phases beyond it are reserved for operations that are
/// not implemented yet.
pub proof fn lemma_phase_forward(action: ManagerAction, phase: InstallationPhase, busy: bool)
    requires
        phase_index(phase) <= phase_index(InstallationPhase::Config),
    ensures
        phase_index(phase_after(action, phase, busy)) >= phase_index(phase),
        phase_index(phase_after(action, phase, busy)) <= phase_index(InstallationPhase::Config),
{
}

/// Law: under the normal flow — starting from any phase up to `Config` —
/// the phase only moves forward, whatever sequence of actions is
/// dispatched and whatever the tracker was doing at each of them.
pub proof fn lemma_phase_monotonic(
    actions: Seq<(ManagerAction, bool)>,
    phase: InstallationPhase,
)
    requires
        phase_index(phase) <= phase_index(InstallationPhase::Config),
    ensures
        phase_index(phase_after_all(actions, phase)) >= phase_index(phase),
        phase_index(phase_after_all(actions, phase)) <= phase_index(InstallationPhase::Config),
    decreases actions.len(),
{
    if actions.len() > 0 {
        lemma_phase_monotonic(actions.drop_last(), phase);
        lemma_phase_forward(
            actions.last().0,
            phase_after_all(actions.drop_last(), phase),
            actions.last().1,
        );
    }
}

} // verus!
