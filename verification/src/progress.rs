//! Progress data: step snapshots, progress sequences and summaries.

use vstd::prelude::*;

verus! {

/// An immutable snapshot of a progress sequence, produced each time the
/// sequence advances and carried by progress events.
#[derive(Clone, Debug, PartialEq)]
pub struct Progress {
    /// Zero-based index of the current step.
    pub current_step: usize,
    /// Total number of steps in the sequence.
    pub max_steps: usize,
    /// Human-readable title of the current step.
    pub current_title: String,
    /// Whether the whole operation finished.
    pub finished: bool,
}

/// A response-shaped summary of the tracker state, including the full
/// list of step titles so a consumer can render the whole sequence.
#[derive(Clone, Debug, PartialEq)]
pub struct ProgressSummary {
    /// The titles of every step, in order.
    pub steps: Vec<String>,
    /// Zero-based index of the current step.
    pub current_step: usize,
    /// Total number of steps in the sequence.
    pub max_steps: usize,
    /// Human-readable title of the current step.
    pub current_title: String,
    /// Whether the whole operation finished.
    pub finished: bool,
}

/// An ordered list of step titles, fixed at creation, plus a cursor into
/// that list. A sequence can only advance; it never gains or loses steps.
#[derive(Clone, Debug, PartialEq)]
pub struct ProgressSequence {
    /// The titles of every step, in order.
    pub steps: Vec<String>,
    /// Zero-based cursor: the step currently in progress.
    pub current: usize,
}

impl ProgressSequence {
    /// The cursor always points at a real step; an empty sequence keeps
    /// its cursor at zero.
    pub open spec fn wf(self) -> bool {
        if self.steps@.len() == 0 {
            self.current == 0
        } else {
            self.current < self.steps@.len()
        }
    }

    /// Whether a further step exists to advance to.
    pub open spec fn can_advance(self) -> bool {
        self.current + 1 < self.steps@.len()
    }

    /// Title of the step the cursor points at; empty for an empty sequence.
    pub open spec fn current_title_spec(self) -> Seq<char> {
        if self.current < self.steps@.len() {
            self.steps@[self.current as int]@
        } else {
            Seq::<char>::empty()
        }
    }
}

} // verus!
