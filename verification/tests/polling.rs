use outline_backup::poller::{parse_job_state, replay_polls, JobState, PollVerdict, Poller};

#[test]
fn reads_reported_states() {
    assert_eq!(parse_job_state("complete"), JobState::Complete);
    assert_eq!(parse_job_state("in_progress"), JobState::InProgress);
    assert_eq!(parse_job_state("pending"), JobState::Pending);
    assert_eq!(parse_job_state("uploading"), JobState::Unknown);
    assert_eq!(parse_job_state(""), JobState::Unknown);
    assert_eq!(parse_job_state("Complete"), JobState::Unknown);
}

#[test]
fn completes_after_five_in_progress_polls() {
    let mut poller = Poller::new(30);
    for _ in 0..5 {
        assert_eq!(poller.observe(JobState::InProgress), PollVerdict::Continue);
    }
    assert_eq!(poller.observe(JobState::Complete), PollVerdict::Complete);
}

#[test]
fn times_out_when_no_poll_completes() {
    let mut poller = Poller::new(3);
    assert_eq!(poller.observe(JobState::Pending), PollVerdict::Continue);
    assert_eq!(poller.observe(JobState::InProgress), PollVerdict::Continue);
    assert_eq!(poller.observe(JobState::Unknown), PollVerdict::TimedOut);
}

#[test]
fn a_single_poll_budget_still_allows_completion() {
    let mut poller = Poller::new(1);
    assert_eq!(poller.observe(JobState::Complete), PollVerdict::Complete);
}

#[test]
fn a_single_poll_budget_times_out_at_once() {
    let mut poller = Poller::new(1);
    assert_eq!(poller.observe(JobState::InProgress), PollVerdict::TimedOut);
}

#[test]
fn replaying_a_run_reaches_the_modelled_verdict() {
    let completes = vec![
        JobState::Pending,
        JobState::InProgress,
        JobState::Complete,
        JobState::InProgress,
    ];
    assert_eq!(replay_polls(30, &completes), Some(PollVerdict::Complete));

    let never_completes = vec![JobState::InProgress; 4];
    assert_eq!(replay_polls(4, &never_completes), Some(PollVerdict::TimedOut));
    assert_eq!(replay_polls(30, &never_completes), None);
}

#[test]
fn completion_on_the_last_allowed_poll_is_not_a_timeout() {
    let mut poller = Poller::new(2);
    assert_eq!(poller.observe(JobState::InProgress), PollVerdict::Continue);
    assert_eq!(poller.observe(JobState::Complete), PollVerdict::Complete);
}
