//! The ordered step tracker that every quest variant builds on, and the
//! capability traits the quest variants share.

use vstd::prelude::*;

verus! {

/// What every quest variant exposes: feed it one event, read its status.
pub trait Quest<E>: Reset {
    /// Advance the quest by one observed event.
    fn update(&mut self, event: &E);

    /// The current status of the quest.
    fn status(&self) -> QuestStatus;

    /// True once the quest is completed.
    fn is_completed(&self) -> bool;
}

/// Forcing a tracker back to its initial state, discarding progress.
pub trait Reset {
    fn reset(&mut self);
}

/// Either attempting step `n` (1-indexed), or done for good.
#[derive(Debug, PartialEq, Eq, Clone, Copy, Structural)]
pub enum QuestStatus {
    Pending(usize),
    Completed,
}

/// An ordered progress tracker: `steps` steps in total (at least one),
/// attempted one at a time.  `Completed` is terminal and monotonic: once
/// reached it never reverts except through an explicit `reset`.
#[derive(Debug, PartialEq, Eq, Clone, Copy, Structural)]
pub struct QuestProgress {
    /// Steps needed to complete the quest; at least 1.
    pub steps: usize,
    /// Begins at `Pending(1)`, to attempt the first step.
    pub status: QuestStatus,
}

impl QuestProgress {
    /// The tracker's invariant: a pending step is between 1 and `steps`.
    pub open spec fn wf(self) -> bool {
        &&& self.steps >= 1
        &&& (self.status matches QuestStatus::Pending(n) ==> 1 <= n <= self.steps)
    }

    /// What `next` turns the tracker into: the following step while one
    /// is left, else `Completed`; a completed tracker stays as it is.
    pub open spec fn spec_next(self) -> QuestProgress {
        match self.status {
            QuestStatus::Pending(n) => if n < self.steps {
                QuestProgress { steps: self.steps, status: QuestStatus::Pending((n + 1) as usize) }
            } else {
                QuestProgress { steps: self.steps, status: QuestStatus::Completed }
            },
            QuestStatus::Completed => self,
        }
    }

    /// What `reset` turns the tracker into: back to the first step.
    pub open spec fn spec_reset(self) -> QuestProgress {
        QuestProgress { steps: self.steps, status: QuestStatus::Pending(1) }
    }

    /// A fresh tracker over `steps` steps, attempting the first.
    pub fn new(steps: usize) -> (r: Self)
        requires
            steps >= 1,
        ensures
            r == (QuestProgress { steps, status: QuestStatus::Pending(1) }),
            r.wf(),
    {
        Self { steps, status: QuestStatus::Pending(1) }
    }

    /// `Some((a, b))`: attempting the `a`th of `b` steps; `None` once done.
    pub fn progress(&self) -> (r: Option<(usize, usize)>)
        ensures
            r == (match self.status {
                QuestStatus::Pending(n) => Some((n, self.steps)),
                QuestStatus::Completed => None::<(usize, usize)>,
            }),
    {
        match self.status {
            QuestStatus::Pending(n) => Some((n, self.steps)),
            QuestStatus::Completed => None,
        }
    }

    /// Advance by one step; true iff the tracker was not yet completed.
    pub fn next(&mut self) -> (advanced: bool)
        ensures
            *final(self) == old(self).spec_next(),
            old(self).wf() ==> final(self).wf(),
            advanced == !(old(self).status is Completed),
    {
        match self.status {
            QuestStatus::Pending(step) => {
                if step < self.steps {
                    self.status = QuestStatus::Pending(step + 1);
                } else {
                    self.status = QuestStatus::Completed;
                }
                true
            }
            QuestStatus::Completed => false,
        }
    }

    /// True once all steps are done.
    pub fn is_completed(&self) -> (r: bool)
        ensures
            r <==> self.status is Completed,
    {
        self.status == QuestStatus::Completed
    }
}

impl Reset for QuestProgress {
    /// Back to the first step, unconditionally.
    fn reset(&mut self)
        ensures
            *final(self) == old(self).spec_reset(),
            final(self).wf() <==> old(self).steps >= 1,
    {
        self.status = QuestStatus::Pending(1);
    }
}

} // verus!
