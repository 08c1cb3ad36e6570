use crate::notification::Notification;
use vstd::prelude::*;

verus! {

/// Input of one highlighting job: the raw text to highlight and the path
/// it was read from. The path is the correlation value that identifies
/// which request produced a result.
#[derive(Clone, Debug, PartialEq, Eq)]
pub struct Job {
    pub content: String,
    pub path: String,
}

/// Highlighted text with its originating path embedded, so that a
/// consumer can reject a result that no longer matches what it displays.
#[derive(Clone, Debug, PartialEq, Eq)]
pub struct SyntaxText {
    pub path: String,
    pub styled: String,
}

/// What one worker writes into the result slot: the path it was spawned
/// for and the highlighted text, if the engine produced one (`None` means
/// "no highlighting available", which is not an error).
#[derive(Clone, Debug, PartialEq, Eq)]
pub struct JobOutput {
    pub path: String,
    pub text: Option<SyntaxText>,
}

/// What `spawn` hands back: the input the caller must run a worker on,
/// and the ticket that identifies that worker's completion.
#[derive(Clone, Debug, PartialEq, Eq)]
pub struct PendingWork {
    pub ticket: u64,
    pub job: Job,
}

/// Single-flight job runner for one job kind.
///
/// At most one job is tracked as in flight; spawning a new one abandons
/// tracking of the previous one (its worker may still finish and write the
/// slot — last write wins). The result slot is readable meaningfully at
/// most once per completion.
pub struct AsyncSingleJob {
    /// Tag to enqueue on the notification channel when a worker finishes.
    pub notification: Notification,
    /// Source of fresh tickets; every issued ticket is below it.
    pub next_ticket: u64,
    /// Ticket of the job currently tracked as in flight, if any.
    pub in_flight: Option<u64>,
    /// The single result slot: the most recently completed output that has
    /// not been consumed yet.
    pub last_result: Option<JobOutput>,
}

impl AsyncSingleJob {
    /// Every tracked ticket was issued.
    pub open spec fn wf(self) -> bool {
        match self.in_flight {
            Some(t) => t < self.next_ticket,
            None => true,
        }
    }

    pub fn new(notification: Notification) -> (r: Self)
        ensures
            r.wf(),
            r.notification == notification,
            r.next_ticket == 0,
            r.in_flight is None,
            r.last_result is None,
    {
        AsyncSingleJob { notification, next_ticket: 0, in_flight: None, last_result: None }
    }

    /// State after a spawn: the new job is the only tracked one.
    pub open spec fn spawn_spec(self) -> Self {
        AsyncSingleJob {
            next_ticket: (self.next_ticket + 1) as u64,
            in_flight: Some(self.next_ticket),
            ..self
        }
    }

    /// Start-or-replace: always accepted, never blocks. A previously
    /// tracked job is dropped from tracking; the returned work must be run
    /// by the caller and completed under the returned ticket.
    pub fn spawn(&mut self, job: Job) -> (work: PendingWork)
        requires
            old(self).wf(),
            old(self).next_ticket < u64::MAX,
        ensures
            *final(self) == old(self).spawn_spec(),
            final(self).wf(),
            work.ticket == old(self).next_ticket,
            work.job == job,
    {
        let ticket = self.next_ticket;
        self.next_ticket = self.next_ticket + 1;
        self.in_flight = Some(ticket);
        PendingWork { ticket, job }
    }

    /// State after the worker holding `ticket` finishes with `output`:
    /// the slot takes the output whole (last write wins), and the job
    /// leaves in-flight tracking only if it is still the tracked one.
    pub open spec fn complete_spec(self, ticket: u64, output: JobOutput) -> Self {
        AsyncSingleJob {
            last_result: Some(output),
            in_flight: if self.in_flight == Some(ticket) {
                None
            } else {
                self.in_flight
            },
            ..self
        }
    }

    /// A worker finished: write the slot and return the tag to enqueue on
    /// the notification channel (exactly one message per completion).
    pub fn complete(&mut self, ticket: u64, output: JobOutput) -> (n: Notification)
        requires
            old(self).wf(),
            ticket < old(self).next_ticket,
        ensures
            *final(self) == old(self).complete_spec(ticket, output),
            final(self).wf(),
            n == old(self).notification,
    {
        self.last_result = Some(output);
        let still_tracked = match self.in_flight {
            Some(t) => t == ticket,
            None => false,
        };
        if still_tracked {
            self.in_flight = None;
        }
        self.notification
    }

    /// True iff a job is currently tracked as in flight.
    pub fn is_pending(&self) -> (r: bool)
        ensures
            r == (self.in_flight is Some),
    {
        match self.in_flight {
            Some(_) => true,
            None => false,
        }
    }

    /// State after consuming the slot.
    pub open spec fn take_spec(self) -> Self {
        AsyncSingleJob { last_result: None, ..self }
    }

    /// Consume-once retrieval: returns the most recent completed result
    /// and clears the slot, so the next call returns `None` until another
    /// completion. Safe to call before any job was ever spawned.
    pub fn take_last_result(&mut self) -> (r: Option<JobOutput>)
        ensures
            *final(self) == old(self).take_spec(),
            r == old(self).last_result,
    {
        self.last_result.take()
    }
}

/// Fold a chronological sequence of completions over a runner state.
pub open spec fn apply_completions(s: AsyncSingleJob, cs: Seq<(u64, JobOutput)>) -> AsyncSingleJob
    decreases cs.len(),
{
    if cs.len() == 0 {
        s
    } else {
        apply_completions(s.complete_spec(cs[0].0, cs[0].1), cs.drop_first())
    }
}

/// Single-flight correctness: however many workers race for the slot, once
/// every completion has landed the slot holds, whole and unmixed, the
/// output of the chronologically last write — which is the output of
/// exactly one of the completed jobs.
pub proof fn lemma_last_write_wins(s: AsyncSingleJob, cs: Seq<(u64, JobOutput)>)
    requires
        cs.len() > 0,
    ensures
        apply_completions(s, cs).last_result == Some(cs.last().1),
        exists|i: int| 0 <= i < cs.len() && apply_completions(s, cs).last_result == Some(cs[i].1),
    decreases cs.len(),
{
    if cs.len() == 1 {
        let s1 = s.complete_spec(cs[0].0, cs[0].1);
        assert(cs.drop_first().len() == 0);
        assert(apply_completions(s1, cs.drop_first()) == s1);
        assert(apply_completions(s, cs).last_result == Some(cs[0].1));
    } else {
        lemma_last_write_wins(s.complete_spec(cs[0].0, cs[0].1), cs.drop_first());
        assert(cs.drop_first().last() == cs.last());
    }
    assert(apply_completions(s, cs).last_result == Some(cs[cs.len() - 1].1));
}

/// Whether `out` carries the correlation value of one of the given jobs.
pub open spec fn correlates(out: JobOutput, jobs: Seq<Job>) -> bool {
    exists|j: int| 0 <= j < jobs.len() && out.path@ == jobs[j].path@
}

/// Single-flight correctness, stated over the spawn inputs: when every
/// racing completion carries the correlation value of one of the issued
/// spawns, the slot ends up holding the chronologically last write, whole,
/// and its correlation value is one of the spawns' — never a mixture.
pub proof fn lemma_result_correlates_with_a_spawn(
    s: AsyncSingleJob,
    cs: Seq<(u64, JobOutput)>,
    jobs: Seq<Job>,
)
    requires
        cs.len() > 0,
        forall|i: int| 0 <= i < cs.len() ==> correlates(#[trigger] cs[i].1, jobs),
    ensures
        apply_completions(s, cs).last_result == Some(cs.last().1),
        correlates(cs.last().1, jobs),
{
    lemma_last_write_wins(s, cs);
    assert(correlates(cs[cs.len() - 1].1, jobs));
}

/// Consume-once: after a completion, the first take returns that output
/// and the second take, with no completion in between, returns nothing.
pub proof fn lemma_consume_once(s: AsyncSingleJob, ticket: u64, output: JobOutput)
    ensures
        s.complete_spec(ticket, output).last_result == Some(output),
        s.complete_spec(ticket, output).take_spec().last_result is None,
{
}

} // verus!
