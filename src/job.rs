use vstd::prelude::*;

verus! {

/// Where an asynchronously submitted job stands.
#[derive(Debug, Clone, Copy, PartialEq, Eq, Structural)]
pub enum JobStatus {
    Queued,
    Running,
    Completed,
    Failed,
    Cancelled,
}

/// What can happen to a job.
#[derive(Debug, Clone, Copy, PartialEq, Eq, Structural)]
pub enum JobEvent {
    /// A worker took the job up.
    Started,
    /// The execution returned a result.
    Succeeded,
    /// The execution returned an error.
    Failed,
    /// Cancellation was observed: before the start, or at a shot boundary.
    Cancelled,
}

/// Queued jobs are at stage 0, running ones at 1, finished ones at 2.
pub open spec fn stage(s: JobStatus) -> nat {
    match s {
        JobStatus::Queued => 0,
        JobStatus::Running => 1,
        _ => 2,
    }
}

/// The status after an event. A queued job starts or is cancelled; a
/// running job completes, fails or is cancelled; a finished job stays as it
/// is; any other event leaves the status unchanged.
pub open spec fn spec_after(s: JobStatus, e: JobEvent) -> JobStatus {
    match (s, e) {
        (JobStatus::Queued, JobEvent::Started) => JobStatus::Running,
        (JobStatus::Queued, JobEvent::Cancelled) => JobStatus::Cancelled,
        (JobStatus::Running, JobEvent::Succeeded) => JobStatus::Completed,
        (JobStatus::Running, JobEvent::Failed) => JobStatus::Failed,
        (JobStatus::Running, JobEvent::Cancelled) => JobStatus::Cancelled,
        _ => s,
    }
}

/// The statuses a job passes through under a sequence of events, starting
/// with `s` itself.
pub open spec fn trace(s: JobStatus, events: Seq<JobEvent>) -> Seq<JobStatus>
    decreases events.len(),
{
    if events.len() == 0 {
        seq![s]
    } else {
        let t = trace(s, events.drop_last());
        t.push(spec_after(t.last(), events.last()))
    }
}

impl JobStatus {
    /// The status after the event.
    pub fn after(self, event: JobEvent) -> (r: JobStatus)
        ensures
            r == spec_after(self, event),
    {
        match (self, event) {
            (JobStatus::Queued, JobEvent::Started) => JobStatus::Running,
            (JobStatus::Queued, JobEvent::Cancelled) => JobStatus::Cancelled,
            (JobStatus::Running, JobEvent::Succeeded) => JobStatus::Completed,
            (JobStatus::Running, JobEvent::Failed) => JobStatus::Failed,
            (JobStatus::Running, JobEvent::Cancelled) => JobStatus::Cancelled,
            _ => self,
        }
    }

    /// Completed, failed or cancelled.
    pub fn is_finished(&self) -> (r: bool)
        ensures
            r == (stage(*self) == 2),
    {
        match self {
            JobStatus::Queued | JobStatus::Running => false,
            _ => true,
        }
    }
}

proof fn lemma_trace_shape(s: JobStatus, events: Seq<JobEvent>)
    ensures
        trace(s, events).len() == events.len() + 1,
        trace(s, events)[0] == s,
        forall|m: int| 0 <= m < events.len() ==> trace(s, events)[m + 1]
            == spec_after(trace(s, events)[m], #[trigger] events[m]),
    decreases events.len(),
{
    if events.len() > 0 {
        lemma_trace_shape(s, events.drop_last());
        let t = trace(s, events.drop_last());
        assert forall|m: int| 0 <= m < events.len() implies trace(s, events)[m + 1]
            == spec_after(trace(s, events)[m], #[trigger] events[m]) by {
            if m + 1 < t.len() {
                assert(trace(s, events)[m + 1] == t[m + 1]);
                assert(trace(s, events)[m] == t[m]);
                assert(events.drop_last()[m] == events[m]);
            }
        }
    }
}

/// Every change of status moves a job to a later stage, and a finished job
/// never changes.
pub proof fn lemma_status_moves_forward(s: JobStatus, e: JobEvent)
    ensures
        stage(s) <= stage(spec_after(s, e)),
        spec_after(s, e) != s ==> stage(s) < stage(spec_after(s, e)),
        stage(s) == 2 ==> spec_after(s, e) == s,
{
}

/// Along any sequence of events, a job's statuses follow queued, running,
/// then one of completed, failed or cancelled, skipping stages perhaps but
/// never going back: a status once left is never taken again.
pub proof fn lemma_status_never_revisited(s: JobStatus, events: Seq<JobEvent>)
    ensures
        forall|i: int, j: int| 0 <= i <= j < trace(s, events).len()
            ==> stage(#[trigger] trace(s, events)[i]) <= stage(#[trigger] trace(s, events)[j]),
        forall|i: int, j: int, k: int| 0 <= i <= j <= k < trace(s, events).len()
            && #[trigger] trace(s, events)[i] == #[trigger] trace(s, events)[k]
            ==> trace(s, events)[i] == #[trigger] trace(s, events)[j],
{
    lemma_trace_shape(s, events);
    let t = trace(s, events);
    assert forall|i: int, j: int| 0 <= i <= j < t.len() implies stage(#[trigger] t[i]) <= stage(#[trigger] t[j]) by {
        lemma_stage_monotone(t, events, i, j);
    }
    assert forall|i: int, j: int, k: int| 0 <= i <= j <= k < t.len() && #[trigger] t[i] == #[trigger] t[k]
        implies t[i] == #[trigger] t[j] by {
        lemma_stage_monotone(t, events, i, j);
        lemma_stage_monotone(t, events, j, k);
        lemma_same_stage_same_status(t, events, i, j);
    }
}

proof fn lemma_stage_monotone(t: Seq<JobStatus>, events: Seq<JobEvent>, i: int, j: int)
    requires
        t.len() == events.len() + 1,
        forall|m: int| 0 <= m < events.len() ==> t[m + 1] == spec_after(t[m], #[trigger] events[m]),
        0 <= i <= j < t.len(),
    ensures
        stage(t[i]) <= stage(t[j]),
    decreases j - i,
{
    if i < j {
        lemma_stage_monotone(t, events, i, j - 1);
        assert(t[j] == spec_after(t[j - 1], events[j - 1]));
        lemma_status_moves_forward(t[j - 1], events[j - 1]);
    }
}

proof fn lemma_same_stage_same_status(t: Seq<JobStatus>, events: Seq<JobEvent>, i: int, j: int)
    requires
        t.len() == events.len() + 1,
        forall|m: int| 0 <= m < events.len() ==> t[m + 1] == spec_after(t[m], #[trigger] events[m]),
        0 <= i <= j < t.len(),
        stage(t[i]) == stage(t[j]),
    ensures
        t[i] == t[j],
    decreases j - i,
{
    if i < j {
        assert(t[j] == spec_after(t[j - 1], events[j - 1]));
        lemma_status_moves_forward(t[j - 1], events[j - 1]);
        lemma_stage_monotone(t, events, i, j - 1);
        lemma_same_stage_same_status(t, events, i, j - 1);
    }
}

} // verus!
