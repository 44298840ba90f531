//! Status tracker: a single-flight progress/status engine usable by any
//! orchestrated service.
//!
//! The tracker owns one optional [`ProgressSequence`] and derives a
//! busy/idle status from it. Every mutation returns the lifecycle events
//! it gives rise to, in the exact order in which they must be published.

use vstd::prelude::*;

use crate::events::{Event, ServiceStatus};
use crate::progress::{Progress, ProgressSequence, ProgressSummary};

verus! {

/// Error returned by the tracker.
#[derive(Clone, Copy, Debug, PartialEq, Eq, Structural)]
pub enum ServiceStatusError {
    /// A progress sequence is already active; a tracker models exactly
    /// one concurrent task.
    AlreadyBusy,
}

impl ServiceStatusError {
    /// What the error means, for each variant.
    pub open spec fn message_spec(self) -> Seq<char> {
        match self {
            ServiceStatusError::AlreadyBusy => "a service task is already running"@,
        }
    }

    /// Human-readable description of the error.
    pub fn message(&self) -> (r: String)
        ensures
            r@ == self.message_spec(),
    {
        match self {
            ServiceStatusError::AlreadyBusy => "a service task is already running".to_owned(),
        }
    }
}

/// Progress/status engine for one named service.
///
/// The tracker is the single writer of its own state; the surrounding
/// process serializes calls to it (behind an actor loop or a mutex held
/// only for the duration of one operation).
#[derive(Clone, Debug)]
pub struct ServiceStatusManager {
    /// Service name used to tag the events the tracker gives rise to.
    pub name: String,
    /// The active progress sequence, if any.
    pub sequence: Option<ProgressSequence>,
}

/// The event announcing the first step of a freshly started sequence.
pub open spec fn first_progress_event(e: Event, name: String, steps: Seq<String>) -> bool {
    &&& e matches Event::Progress { service, progress }
    &&& service == name
    &&& progress.current_step == 0
    &&& progress.max_steps == steps.len()
    &&& if steps.len() > 0 {
        progress.current_title == steps[0]
    } else {
        progress.current_title@ == Seq::<char>::empty()
    }
    &&& !progress.finished
}

/// The event announcing that the cursor reached `cursor` in `steps`.
pub open spec fn step_progress_event(e: Event, name: String, steps: Seq<String>, cursor: int) -> bool {
    &&& e matches Event::Progress { service, progress }
    &&& service == name
    &&& progress.current_step == cursor
    &&& progress.max_steps == steps.len()
    &&& 0 <= cursor < steps.len()
    &&& progress.current_title == steps[cursor]
    &&& !progress.finished
}

/// The terminal progress event: a fixed snapshot, independent of the
/// state the sequence was in.
pub open spec fn terminal_progress_event(e: Event, name: String) -> bool {
    &&& e matches Event::Progress { service, progress }
    &&& service == name
    &&& progress.current_step == 0
    &&& progress.max_steps == 0
    &&& progress.current_title@ == Seq::<char>::empty()
    &&& progress.finished
}

/// The event announcing the given busy/idle status.
pub open spec fn status_event(e: Event, name: String, status: ServiceStatus) -> bool {
    &&& e matches Event::ServiceStatusChanged { service, status: st }
    &&& service == name
    &&& st == status
}

impl ServiceStatusManager {
    /// A progress sequence is active.
    pub open spec fn busy(self) -> bool {
        self.sequence is Some
    }

    /// The active sequence, if any, is well formed.
    pub open spec fn wf(self) -> bool {
        self.sequence matches Some(s) ==> s.wf()
    }

    /// State after a successful `start` of `steps`.
    pub open spec fn after_start(self, steps: Vec<String>) -> ServiceStatusManager {
        ServiceStatusManager {
            name: self.name,
            sequence: Some(ProgressSequence { steps, current: 0 }),
        }
    }

    /// State after `next`: the cursor advances where a further step
    /// exists, and nothing changes otherwise.
    pub open spec fn after_next(self) -> ServiceStatusManager {
        match self.sequence {
            Some(s) => if s.can_advance() {
                ServiceStatusManager {
                    name: self.name,
                    sequence: Some(
                        ProgressSequence { steps: s.steps, current: (s.current + 1) as usize },
                    ),
                }
            } else {
                self
            },
            None => self,
        }
    }

    /// A sequence is active and a further step exists to advance to.
    pub open spec fn can_step(self) -> bool {
        self.sequence matches Some(s) && s.can_advance()
    }

    /// State after `finish`: no active sequence.
    pub open spec fn after_finish(self) -> ServiceStatusManager {
        ServiceStatusManager { name: self.name, sequence: None }
    }

    /// Creates an idle tracker for the service called `name`.
    pub fn new(name: String) -> (r: ServiceStatusManager)
        ensures
            r.name == name,
            !r.busy(),
            r.wf(),
    {
        ServiceStatusManager { name, sequence: None }
    }

    /// Whether a progress sequence is active.
    pub fn is_busy(&self) -> (r: bool)
        ensures
            r == self.busy(),
    {
        self.sequence.is_some()
    }

    /// Starts a new progress sequence over `steps`.
    ///
    /// Fails with [`ServiceStatusError::AlreadyBusy`], leaving the active
    /// sequence untouched, if one is already active. On success the
    /// cursor is at step zero and the events to publish are the first
    /// step's snapshot followed by the busy status change, in that order.
    pub fn start(&mut self, steps: Vec<String>) -> (r: Result<Vec<Event>, ServiceStatusError>)
        requires
            old(self).wf(),
        ensures
            final(self).wf(),
            old(self).busy() ==> {
                &&& *final(self) == *old(self)
                &&& r matches Err(e) && e == ServiceStatusError::AlreadyBusy
            },
            !old(self).busy() ==> {
                &&& *final(self) == old(self).after_start(steps)
                &&& r matches Ok(events)
                &&& events@.len() == 2
                &&& first_progress_event(events@[0], old(self).name, steps@)
                &&& status_event(events@[1], old(self).name, ServiceStatus::Busy)
            },
    {
        if self.sequence.is_some() {
            return Err(ServiceStatusError::AlreadyBusy);
        }
        let title = if steps.len() > 0 {
            steps[0].clone()
        } else {
            String::new()
        };
        let first = Progress {
            current_step: 0,
            max_steps: steps.len(),
            current_title: title,
            finished: false,
        };
        let mut events: Vec<Event> = Vec::new();
        events.push(Event::Progress { service: self.name.clone(), progress: first });
        events.push(
            Event::ServiceStatusChanged {
                service: self.name.clone(),
                status: ServiceStatus::Busy,
            },
        );
        self.sequence = Some(ProgressSequence { steps, current: 0 });
        Ok(events)
    }

    /// Advances the cursor by one.
    ///
    /// Returns the progress event to publish, or `None` — deliberately
    /// non-fatal, since a call may race with `finish` — if no sequence is
    /// active or no further step exists; in that case nothing changes.
    pub fn next(&mut self) -> (r: Option<Event>)
        requires
            old(self).wf(),
        ensures
            final(self).wf(),
            *final(self) == old(self).after_next(),
            old(self).can_step() ==> ({
                let s = old(self).sequence.unwrap();
                r matches Some(e) && step_progress_event(e, old(self).name, s.steps@, s.current + 1)
            }),
            !old(self).can_step() ==> r is None,
    {
        let seq_opt = self.sequence.take();
        match seq_opt {
            Some(seq) => {
                let len = seq.steps.len();
                if len > 0 && seq.current < len - 1 {
                    let current = seq.current + 1;
                    let title = seq.steps[current].clone();
                    let max = seq.steps.len();
                    let snapshot = Progress {
                        current_step: current,
                        max_steps: max,
                        current_title: title,
                        finished: false,
                    };
                    self.sequence = Some(ProgressSequence { steps: seq.steps, current });
                    Some(Event::Progress { service: self.name.clone(), progress: snapshot })
                } else {
                    self.sequence = Some(seq);
                    None
                }
            },
            None => None,
        }
    }

    /// Clears the active sequence and reports the operation as over.
    ///
    /// Idempotent by design: consumers rely on receiving a finishing
    /// signal unconditionally, so the terminal progress snapshot and the
    /// idle status change are emitted whether or not a sequence was
    /// active.
    pub fn finish(&mut self) -> (events: Vec<Event>)
        ensures
            final(self).wf(),
            *final(self) == old(self).after_finish(),
            events@.len() == 2,
            terminal_progress_event(events@[0], old(self).name),
            status_event(events@[1], old(self).name, ServiceStatus::Idle),
    {
        self.sequence = None;
        let terminal = Progress {
            current_step: 0,
            max_steps: 0,
            current_title: String::new(),
            finished: true,
        };
        let mut events: Vec<Event> = Vec::new();
        events.push(Event::Progress { service: self.name.clone(), progress: terminal });
        events.push(
            Event::ServiceStatusChanged {
                service: self.name.clone(),
                status: ServiceStatus::Idle,
            },
        );
        events
    }

    /// Records the outcome of one unit of background work and drives the
    /// sequence accordingly.
    ///
    /// On success the cursor advances where a further step exists, and
    /// the sequence finishes where it was at its last step. On failure
    /// the sequence finishes unconditionally — a failing collaborator
    /// must still release the busy state — after a distinguishable
    /// [`Event::TaskFailed`]. The second component of the result reports
    /// whether the whole task is over; when it is, the tracker is idle.
    pub fn complete_step(&mut self, ok: bool) -> (r: (Vec<Event>, bool))
        requires
            old(self).wf(),
        ensures
            final(self).wf(),
            r.1 ==> !final(self).busy(),
            !old(self).busy() ==> {
                &&& *final(self) == *old(self)
                &&& r.0@.len() == 0
                &&& r.1
            },
            old(self).busy() && !ok ==> {
                &&& *final(self) == old(self).after_finish()
                &&& r.1
                &&& r.0@.len() == 3
                &&& r.0@[0] matches Event::TaskFailed { service } && service == old(self).name
                &&& terminal_progress_event(r.0@[1], old(self).name)
                &&& status_event(r.0@[2], old(self).name, ServiceStatus::Idle)
            },
            ok && old(self).can_step() ==> ({
                let s = old(self).sequence.unwrap();
                &&& *final(self) == old(self).after_next()
                &&& !r.1
                &&& r.0@.len() == 1
                &&& step_progress_event(r.0@[0], old(self).name, s.steps@, s.current + 1)
            }),
            ok && old(self).busy() && !old(self).can_step() ==> {
                &&& *final(self) == old(self).after_finish()
                &&& r.1
                &&& r.0@.len() == 2
                &&& terminal_progress_event(r.0@[0], old(self).name)
                &&& status_event(r.0@[1], old(self).name, ServiceStatus::Idle)
            },
    {
        if !self.is_busy() {
            (Vec::new(), true)
        } else if !ok {
            let mut events: Vec<Event> = Vec::new();
            events.push(Event::TaskFailed { service: self.name.clone() });
            let mut fin = self.finish();
            events.append(&mut fin);
            (events, true)
        } else {
            let advance = match &self.sequence {
                Some(s) => s.steps.len() > 0 && s.current < s.steps.len() - 1,
                None => false,
            };
            if advance {
                let ev = self.next();
                let mut events: Vec<Event> = Vec::new();
                events.push(ev.unwrap());
                (events, false)
            } else {
                (self.finish(), true)
            }
        }
    }

    /// Current snapshot mapped into a response-shaped summary, or `None`
    /// while idle.
    pub fn get_progress(&self) -> (r: Option<ProgressSummary>)
        requires
            self.wf(),
        ensures
            r is Some <==> self.busy(),
            self.sequence matches Some(s) ==> {
                &&& r matches Some(p)
                &&& p.steps@ =~= s.steps@
                &&& p.current_step == s.current
                &&& p.max_steps == s.steps@.len()
                &&& p.current_title@ == s.current_title_spec()
                &&& !p.finished
            },
    {
        match &self.sequence {
            Some(s) => {
                let title = if s.steps.len() > 0 {
                    s.steps[s.current].clone()
                } else {
                    String::new()
                };
                let steps = s.steps.clone();
                proof {
                    assert(steps@ =~= s.steps@);
                }
                Some(
                    ProgressSummary {
                        steps,
                        current_step: s.current,
                        max_steps: s.steps.len(),
                        current_title: title,
                        finished: false,
                    },
                )
            },
            None => None,
        }
    }
}

/// State after `n` calls of `next` in a row.
pub open spec fn after_next_n(t: ServiceStatusManager, n: nat) -> ServiceStatusManager
    decreases n,
{
    if n == 0 {
        t
    } else {
        after_next_n(t, (n - 1) as nat).after_next()
    }
}

/// Law: across a whole `start` -> `next`*N -> `finish` lifecycle, the
/// tracker is busy from the `start` until the `finish`, and idle before
/// the `start` and after the `finish` — however many times `next` ran.
pub proof fn lemma_busy_through_lifecycle(t: ServiceStatusManager, steps: Vec<String>, n: nat)
    requires
        !t.busy(),
    ensures
        t.after_start(steps).busy(),
        after_next_n(t.after_start(steps), n).busy(),
        !after_next_n(t.after_start(steps), n).after_finish().busy(),
{
    lemma_next_n_preserves_busy(t.after_start(steps), n);
}

/// `next` never creates or clears a sequence, so busy-ness is stable
/// under any number of calls.
pub proof fn lemma_next_n_preserves_busy(t: ServiceStatusManager, n: nat)
    requires
        t.busy(),
    ensures
        after_next_n(t, n).busy(),
    decreases n,
{
    if n > 0 {
        lemma_next_n_preserves_busy(t, (n - 1) as nat);
    }
}

/// Law: once the cursor has reached the last step, further `next` calls
/// change nothing — after any number of calls the cursor sits at the
/// smaller of that number and the last step's index.
pub proof fn lemma_next_saturates(t: ServiceStatusManager, steps: Vec<String>, n: nat)
    requires
        !t.busy(),
        steps@.len() > 0,
    ensures
        after_next_n(t.after_start(steps), n).sequence matches Some(s) && s.steps == steps
            && s.current == if n < steps@.len() {
            n as int
        } else {
            steps@.len() - 1
        },
    decreases n,
{
    broadcast use vstd::std_specs::vec::axiom_spec_len;

    assert(steps.len() == steps@.len());
    if n > 0 {
        lemma_next_saturates(t, steps, (n - 1) as nat);
    }
}

/// Law: `finish` is idempotent — a second `finish` leaves the very same
/// state, and its contract pins the very same terminal events whatever
/// state it runs from.
pub proof fn lemma_finish_idempotent(t: ServiceStatusManager)
    ensures
        t.after_finish().after_finish() == t.after_finish(),
        !t.after_finish().busy(),
{
}

} // verus!
