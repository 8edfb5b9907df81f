//! The export job's poll loop as a verified state machine: each poll
//! response either completes the job or consumes one unit of the
//! configured budget, and exhausting the budget times the run out.
//! The pacing between polls and the network calls themselves belong
//! to the driver; only the decisions live here.

use vstd::prelude::*;
use crate::text::str_eq;

verus! {

/// The states an export job can report.
#[derive(Clone, Copy, Debug, PartialEq, Eq, Structural)]
pub enum JobState {
    Pending,
    InProgress,
    Complete,
    Unknown,
}

/// The job state a poll response's `data.state` text denotes. Only
/// `complete` ends the loop; every other value keeps it polling.
pub open spec fn state_of_text(s: Seq<char>) -> JobState {
    if s == "complete"@ {
        JobState::Complete
    } else if s == "in_progress"@ {
        JobState::InProgress
    } else if s == "pending"@ {
        JobState::Pending
    } else {
        JobState::Unknown
    }
}

/// Reads a reported state text into its job state.
pub fn parse_job_state(s: &str) -> (r: JobState)
    ensures
        r == state_of_text(s@),
{
    if str_eq(s, "complete") {
        JobState::Complete
    } else if str_eq(s, "in_progress") {
        JobState::InProgress
    } else if str_eq(s, "pending") {
        JobState::Pending
    } else {
        JobState::Unknown
    }
}

/// What one poll step decides for the driver.
#[derive(Clone, Copy, Debug, PartialEq, Eq, Structural)]
pub enum PollVerdict {
    /// Keep polling after the fixed pause.
    Continue,
    /// The job is complete: proceed to fetch the archive.
    Complete,
    /// The budget is exhausted: abort the run with a timeout.
    TimedOut,
}

/// The poll loop's state: the configured bound and the number of
/// non-complete responses seen so far.
pub struct Poller {
    pub timeout: u64,
    pub polls: u64,
}

impl Poller {
    /// A live poller never counts past its bound.
    pub open spec fn wf(self) -> bool {
        self.timeout > 0 && self.polls <= self.timeout
    }

    /// Whether the loop may still issue a poll.
    pub open spec fn polling(self) -> bool {
        self.polls < self.timeout
    }

    /// Starts the loop for a run with the configured bound.
    pub fn new(timeout: u64) -> (r: Poller)
        requires
            timeout > 0,
        ensures
            r.timeout == timeout,
            r.polls == 0,
            r.wf(),
            r.polling(),
    {
        Poller { timeout, polls: 0 }
    }

    /// One poll response arrives: completion ends the loop at once;
    /// anything else consumes one unit of the budget, and the last
    /// unit times the run out.
    pub fn observe(&mut self, state: JobState) -> (v: PollVerdict)
        requires
            old(self).wf(),
            old(self).polling(),
        ensures
            final(self).wf(),
            final(self).timeout == old(self).timeout,
            state == JobState::Complete ==> v == PollVerdict::Complete && final(self).polls
                == old(self).polls,
            state != JobState::Complete ==> final(self).polls == old(self).polls + 1,
            state != JobState::Complete ==> v == (if old(self).polls + 1 == old(self).timeout {
                PollVerdict::TimedOut
            } else {
                PollVerdict::Continue
            }),
            v == PollVerdict::Continue ==> final(self).polling(),
    {
        if state == JobState::Complete {
            PollVerdict::Complete
        } else {
            self.polls = self.polls + 1;
            if self.polls == self.timeout {
                PollVerdict::TimedOut
            } else {
                PollVerdict::Continue
            }
        }
    }
}

/// The verdict the loop reaches with `budget` polls left, against the
/// job states that successive responses report: a completion stops it,
/// a spent budget times it out, and running out of responses leaves it
/// still polling. This is `observe` iterated with
/// `budget == timeout - polls`.
pub open spec fn poll_outcome(budget: nat, states: Seq<JobState>) -> PollVerdict
    decreases states.len(),
{
    if budget == 0 {
        PollVerdict::TimedOut
    } else if states.len() == 0 {
        PollVerdict::Continue
    } else if states[0] == JobState::Complete {
        PollVerdict::Complete
    } else {
        poll_outcome((budget - 1) as nat, states.drop_first())
    }
}

/// Replays the poll loop against the states a run's responses would
/// report, in order: the verdict reached is the model's outcome, and
/// running out of responses while the budget lasts reaches none.
pub fn replay_polls(timeout: u64, states: &Vec<JobState>) -> (v: Option<PollVerdict>)
    requires
        timeout > 0,
    ensures
        match v {
            Some(verdict) => verdict == poll_outcome(timeout as nat, states@) && verdict
                != PollVerdict::Continue,
            None => poll_outcome(timeout as nat, states@) == PollVerdict::Continue,
        },
{
    let mut poller = Poller::new(timeout);
    let mut i: usize = 0;
    proof {
        assert(states@.skip(0) =~= states@);
    }
    while i < states.len()
        invariant
            i <= states@.len(),
            poller.wf(),
            poller.polling(),
            poller.timeout == timeout,
            poll_outcome(timeout as nat, states@) == poll_outcome(
                (timeout - poller.polls) as nat,
                states@.skip(i as int),
            ),
        decreases states@.len() - i,
    {
        let state = states[i];
        proof {
            assert(states@.skip(i as int)[0] == states@[i as int]);
            assert(states@.skip(i as int).drop_first() =~= states@.skip(i + 1));
        }
        let verdict = poller.observe(state);
        i = i + 1;
        match verdict {
            PollVerdict::Continue => (),
            PollVerdict::Complete => {
                return Some(PollVerdict::Complete);
            },
            PollVerdict::TimedOut => {
                return Some(PollVerdict::TimedOut);
            },
        }
    }
    proof {
        assert(states@.skip(i as int) =~= Seq::<JobState>::empty());
    }
    None
}

/// Law: if some poll within the budget reports completion, the loop
/// reaches the Complete verdict, and the run proceeds to fetch.
pub proof fn lemma_complete_within_bound(budget: nat, states: Seq<JobState>)
    requires
        exists|i: int| 0 <= i < budget && i < states.len() && states[i] == JobState::Complete,
    ensures
        poll_outcome(budget, states) == PollVerdict::Complete,
    decreases states.len(),
{
    let i = choose|i: int| 0 <= i < budget && i < states.len() && states[i]
        == JobState::Complete;
    if states[0] != JobState::Complete {
        assert(states.drop_first()[i - 1] == JobState::Complete);
        lemma_complete_within_bound((budget - 1) as nat, states.drop_first());
    }
}

/// Law: if the first `budget` polls all report something other than
/// completion, the loop ends in TimedOut, and no fetch follows.
pub proof fn lemma_times_out(budget: nat, states: Seq<JobState>)
    requires
        budget <= states.len(),
        forall|i: int| 0 <= i < budget ==> states[i] != JobState::Complete,
    ensures
        poll_outcome(budget, states) == PollVerdict::TimedOut,
    decreases budget,
{
    if budget > 0 {
        assert(states[0] != JobState::Complete);
        assert(forall|i: int| 0 <= i < budget - 1 ==> states.drop_first()[i] == states[i + 1]);
        lemma_times_out((budget - 1) as nat, states.drop_first());
    }
}

} // verus!
