//! Timing of a task: when it was created, started and completed, in
//! milliseconds since the Unix epoch.
use vstd::prelude::*;

verus! {

/// Relies on `chrono::Utc::now` and `DateTime::timestamp_millis`: the
/// current time in milliseconds since the Unix epoch. `Utc::now` panics when
/// the clock reads before the epoch, so a value that comes back is not
/// negative.
#[verifier::external_body]
fn now_millis() -> (r: i64)
    ensures
        r >= 0,
{
    chrono::Utc::now().timestamp_millis()
}

/// Statistics of a task's execution. `duration` and `elapsed` are set on
/// completion, from the start time, when the task was started.
#[derive(Debug, Clone, Copy, PartialEq, Eq, Structural)]
pub struct TaskStats {
    pub created_at: i64,
    pub started_at: Option<i64>,
    pub completed_at: Option<i64>,
    pub duration: Option<i64>,
    pub elapsed: Option<i64>,
}

impl TaskStats {
    /// The recorded times are not before the epoch.
    pub open spec fn wf(&self) -> bool {
        &&& self.created_at >= 0
        &&& (self.started_at matches Some(s) ==> s >= 0)
        &&& (self.completed_at matches Some(c) ==> c >= 0)
    }

    /// Statistics of a task created at `created_at`.
    pub fn created(created_at: i64) -> (r: TaskStats)
        ensures
            r == (TaskStats { created_at, started_at: None, completed_at: None, duration: None, elapsed: None }),
    {
        TaskStats { created_at, started_at: None, completed_at: None, duration: None, elapsed: None }
    }

    /// Statistics of a task created now.
    pub fn new() -> (r: TaskStats)
        ensures
            r.wf(),
            r.started_at is None,
            r.completed_at is None,
            r.duration is None,
            r.elapsed is None,
    {
        TaskStats::created(now_millis())
    }

    /// Records that the task started at `at`.
    pub fn start_at(&mut self, at: i64)
        ensures
            *final(self) == (TaskStats { started_at: Some(at), ..*old(self) }),
    {
        self.started_at = Some(at);
    }

    /// Records that the task starts now.
    pub fn start(&mut self)
        requires
            old(self).wf(),
        ensures
            final(self).wf(),
            final(self).started_at is Some,
            final(self).created_at == old(self).created_at,
            final(self).completed_at == old(self).completed_at,
            final(self).duration == old(self).duration,
            final(self).elapsed == old(self).elapsed,
    {
        let at = now_millis();
        self.start_at(at);
    }

    /// Records that the task completed at `at`; when it was started, both
    /// `duration` and `elapsed` become the time since the start.
    pub fn complete_at(&mut self, at: i64)
        requires
            at >= 0,
            old(self).started_at matches Some(s) ==> s >= 0,
        ensures
            *final(self) == (TaskStats {
                completed_at: Some(at),
                duration: match old(self).started_at {
                    Some(s) => Some((at - s) as i64),
                    None => None,
                },
                elapsed: match old(self).started_at {
                    Some(s) => Some((at - s) as i64),
                    None => None,
                },
                ..*old(self)
            }),
    {
        self.completed_at = Some(at);
        self.duration = match self.started_at {
            Some(started_at) => Some(at - started_at),
            None => None,
        };
        self.elapsed = match self.started_at {
            Some(started_at) => Some(at - started_at),
            None => None,
        };
    }

    /// Records that the task completes now.
    pub fn complete(&mut self)
        requires
            old(self).wf(),
        ensures
            final(self).wf(),
            final(self).completed_at matches Some(at) && final(self).duration == (match old(self).started_at {
                Some(s) => Some((at - s) as i64),
                None => None,
            }) && final(self).elapsed == final(self).duration,
            final(self).created_at == old(self).created_at,
            final(self).started_at == old(self).started_at,
    {
        let at = now_millis();
        self.complete_at(at);
    }
}

} // verus!
