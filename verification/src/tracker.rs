use vstd::prelude::*;

use crate::github::CommitStatus;
use crate::jenkins::{commit_status_of, job_for_commit, job_matches, Job, JobStatus, JobView};
use crate::pull_request::{CommitRef, CommitRefView};

verus! {

/// Seconds a found build may stay pending before tracking reports a
/// timeout. The ceiling check is greater-than-or-equal, so scheduling
/// jitter cannot step over the boundary and hang the tracker.
pub const TIMEOUT_SECONDS: u64 = 60 * 20;

/// Seconds between two polls of a pending build: the single suspension
/// point of the tracking loop.
pub const POLL_SECONDS: u64 = 30;

/// Where the tracking of one commit reference stands.
///
/// The tracker is a state machine driven from outside: the surrounding I/O
/// layer performs each requested action and hands the outcome back as an
/// event. `Scanning` walks the discovered build URLs in server order, one
/// inspection at a time. `Found` has just issued the initial status report;
/// `Polling` sits out the poll interval; `Inspecting` awaits the
/// re-inspection of the matched build; `TimingOut` and `Concluding` have
/// issued the final (timeout or changed-status) report. `Reported`,
/// `NoMatch` and `Failed` are terminal. A commit reference whose builds are
/// exhausted without a match ends in `NoMatch` with no report at all: the
/// silent no-op is kept deliberately.
pub enum TrackerState {
    Discovering,
    Scanning { urls: Vec<String>, next: usize },
    Found { build_url: String, result: JobStatus },
    Polling { build_url: String, last: JobStatus },
    Inspecting { build_url: String, last: JobStatus },
    TimingOut { build_url: String },
    Concluding { build_url: String, result: JobStatus },
    Reported,
    NoMatch,
    Failed,
}

/// Why a CI call produced no usable document.
#[derive(Clone, Copy, Debug, PartialEq, Eq, Structural)]
pub enum CiError {
    /// The request itself failed (network failure or a non-success answer).
    Request,
    /// The answer could not be decoded.
    Decode,
}

/// What the surrounding I/O layer reports back to the tracker: the outcome
/// of the action it was asked to perform.
pub enum TrackerEvent {
    /// The job-list document was fetched and decoded (or not).
    Builds(Result<Vec<String>, CiError>),
    /// One build's job-detail document was fetched and decoded (or not).
    Inspected(Result<Job, CiError>),
    /// A status report was posted.
    Delivered,
    /// The poll interval has passed.
    Awoke,
}

/// What the tracker asks the surrounding I/O layer to do next.
pub enum TrackerAction {
    /// Fetch the job-list document of this repository's branches job.
    ListBuilds { repo: String },
    /// Fetch the job-detail document of this build.
    Inspect { build_url: String },
    /// Post a commit status.
    Report { status: CommitStatus, target_url: String, description: Option<String>, context: String },
    /// Sleep for this many seconds.
    Wait { seconds: u64 },
    /// The tracking run is over.
    Finish,
}

/// The mathematical content of a tracker state.
pub enum StateView {
    Discovering,
    Scanning { urls: Seq<Seq<char>>, next: int },
    Found { build_url: Seq<char>, result: JobStatus },
    Polling { build_url: Seq<char>, last: JobStatus },
    Inspecting { build_url: Seq<char>, last: JobStatus },
    TimingOut { build_url: Seq<char> },
    Concluding { build_url: Seq<char>, result: JobStatus },
    Reported,
    NoMatch,
    Failed,
}

/// The mathematical content of an event.
pub enum EventView {
    Builds(Result<Seq<Seq<char>>, CiError>),
    Inspected(Result<JobView, CiError>),
    Delivered,
    Awoke,
}

/// The mathematical content of an action.
pub enum ActionView {
    ListBuilds { repo: Seq<char> },
    Inspect { build_url: Seq<char> },
    Report { status: CommitStatus, target_url: Seq<char>, description: Option<Seq<char>>, context: Seq<char> },
    Wait { seconds: u64 },
    Finish,
}

impl View for TrackerState {
    type V = StateView;

    open spec fn view(&self) -> StateView {
        match self {
            TrackerState::Discovering => StateView::Discovering,
            TrackerState::Scanning { urls, next } => StateView::Scanning {
                urls: urls.deep_view(),
                next: *next as int,
            },
            TrackerState::Found { build_url, result } => StateView::Found {
                build_url: build_url@,
                result: *result,
            },
            TrackerState::Polling { build_url, last } => StateView::Polling {
                build_url: build_url@,
                last: *last,
            },
            TrackerState::Inspecting { build_url, last } => StateView::Inspecting {
                build_url: build_url@,
                last: *last,
            },
            TrackerState::TimingOut { build_url } => StateView::TimingOut {
                build_url: build_url@,
            },
            TrackerState::Concluding { build_url, result } => StateView::Concluding {
                build_url: build_url@,
                result: *result,
            },
            TrackerState::Reported => StateView::Reported,
            TrackerState::NoMatch => StateView::NoMatch,
            TrackerState::Failed => StateView::Failed,
        }
    }
}

impl View for TrackerEvent {
    type V = EventView;

    open spec fn view(&self) -> EventView {
        match self {
            TrackerEvent::Builds(Result::Ok(urls)) => EventView::Builds(
                Result::Ok(urls.deep_view()),
            ),
            TrackerEvent::Builds(Result::Err(e)) => EventView::Builds(Result::Err(*e)),
            TrackerEvent::Inspected(Result::Ok(job)) => EventView::Inspected(Result::Ok(job@)),
            TrackerEvent::Inspected(Result::Err(e)) => EventView::Inspected(Result::Err(*e)),
            TrackerEvent::Delivered => EventView::Delivered,
            TrackerEvent::Awoke => EventView::Awoke,
        }
    }
}

impl View for TrackerAction {
    type V = ActionView;

    open spec fn view(&self) -> ActionView {
        match self {
            TrackerAction::ListBuilds { repo } => ActionView::ListBuilds { repo: repo@ },
            TrackerAction::Inspect { build_url } => ActionView::Inspect { build_url: build_url@ },
            TrackerAction::Report { status, target_url, description, context } =>
                ActionView::Report {
                    status: *status,
                    target_url: target_url@,
                    description: description.deep_view(),
                    context: context@,
                },
            TrackerAction::Wait { seconds } => ActionView::Wait { seconds: *seconds },
            TrackerAction::Finish => ActionView::Finish,
        }
    }
}

/// Terminal states have no further behaviour.
pub open spec fn is_terminal(s: StateView) -> bool {
    s is Reported || s is NoMatch || s is Failed
}

/// The states the tracker can actually reach: while scanning, the index
/// always points at one of the discovered URLs.
pub open spec fn state_wf(s: StateView) -> bool {
    s matches StateView::Scanning { urls, next } ==> 0 <= next < urls.len()
}

/// At the top of the polling loop: report a timeout once the ceiling is
/// reached or passed, otherwise sit out one more poll interval.
pub open spec fn spec_poll_gate(build_url: Seq<char>, last: JobStatus, elapsed_seconds: u64) -> (
    StateView,
    ActionView,
) {
    if elapsed_seconds >= TIMEOUT_SECONDS {
        (
            StateView::TimingOut { build_url },
            ActionView::Report {
                status: CommitStatus::Error,
                target_url: build_url,
                description: Option::Some("The status checker timed out."@),
                context: "continuous-integration/jenkins"@,
            },
        )
    } else {
        (StateView::Polling { build_url, last }, ActionView::Wait { seconds: POLL_SECONDS })
    }
}

/// The transition relation of the tracker, one event at a time.
///
/// Discovery walks the build URLs in server order and stops at the first
/// match; a commit whose list is exhausted (or empty) ends in `NoMatch`
/// without any report. On a match the initial report carries the build's
/// mapped status and its URL; a non-pending build is then done, a pending
/// one is polled every `POLL_SECONDS` until its result changes or
/// `TIMEOUT_SECONDS` have elapsed. Any failed CI call, and any event that
/// does not answer the pending action, ends the run in `Failed` with no
/// further report.
pub open spec fn spec_step(
    r: CommitRefView,
    s: StateView,
    e: EventView,
    elapsed_seconds: u64,
) -> (StateView, ActionView) {
    match (s, e) {
        (StateView::Discovering, EventView::Builds(Result::Ok(urls))) => if urls.len() == 0 {
            (StateView::NoMatch, ActionView::Finish)
        } else {
            (
                StateView::Scanning { urls, next: 0 },
                ActionView::Inspect { build_url: urls[0] },
            )
        },
        (StateView::Discovering, EventView::Builds(Result::Err(_))) => (
            StateView::Failed,
            ActionView::Finish,
        ),
        (StateView::Scanning { urls, next }, EventView::Inspected(Result::Ok(job))) => if
        job_matches(job, r) {
            (
                StateView::Found { build_url: urls[next], result: job.result },
                ActionView::Report {
                    status: commit_status_of(job.result),
                    target_url: urls[next],
                    description: Option::None,
                    context: "continuous-integration/jenkins"@,
                },
            )
        } else if next + 1 < urls.len() {
            (
                StateView::Scanning { urls, next: next + 1 },
                ActionView::Inspect { build_url: urls[next + 1] },
            )
        } else {
            (StateView::NoMatch, ActionView::Finish)
        },
        (StateView::Scanning { .. }, EventView::Inspected(Result::Err(_))) => (
            StateView::Failed,
            ActionView::Finish,
        ),
        (StateView::Found { build_url, result }, EventView::Delivered) => if result is Pending {
            spec_poll_gate(build_url, JobStatus::Pending, elapsed_seconds)
        } else {
            (StateView::Reported, ActionView::Finish)
        },
        (StateView::Polling { build_url, last }, EventView::Awoke) => (
            StateView::Inspecting { build_url, last },
            ActionView::Inspect { build_url },
        ),
        (StateView::Inspecting { build_url, last }, EventView::Inspected(Result::Ok(job))) => if
        job.result != last {
            (
                StateView::Concluding { build_url, result: job.result },
                ActionView::Report {
                    status: commit_status_of(job.result),
                    target_url: build_url,
                    description: Option::None,
                    context: "continuous-integration/jenkins"@,
                },
            )
        } else {
            spec_poll_gate(build_url, job.result, elapsed_seconds)
        },
        (StateView::Inspecting { .. }, EventView::Inspected(Result::Err(_))) => (
            StateView::Failed,
            ActionView::Finish,
        ),
        (StateView::TimingOut { .. }, EventView::Delivered) => (
            StateView::Reported,
            ActionView::Finish,
        ),
        (StateView::Concluding { .. }, EventView::Delivered) => (
            StateView::Reported,
            ActionView::Finish,
        ),
        _ => if is_terminal(s) {
            (s, ActionView::Finish)
        } else {
            (StateView::Failed, ActionView::Finish)
        },
    }
}

/// Starts tracking a commit reference: the tracker asks for the job-list
/// document of the repository's branches job.
pub fn start_tracking(commit_ref: &CommitRef) -> (r: (TrackerState, TrackerAction))
    ensures
        r.0@ == StateView::Discovering,
        r.1@ == (ActionView::ListBuilds { repo: commit_ref@.repo }),
        state_wf(r.0@),
{
    (
        TrackerState::Discovering,
        TrackerAction::ListBuilds { repo: commit_ref.repo.clone() },
    )
}

/// Advances the tracker by one event.
///
/// `elapsed_seconds` is the wall-clock time since the matched build was
/// found, read by the caller from a monotonic clock. The commit hash must
/// carry at least five characters (the job-name derivation needs them).
pub fn step(
    commit_ref: &CommitRef,
    state: TrackerState,
    event: TrackerEvent,
    elapsed_seconds: u64,
) -> (r: (TrackerState, TrackerAction))
    requires
        commit_ref@.sha.len() >= 5,
        state_wf(state@),
    ensures
        r.0@ == spec_step(commit_ref@, state@, event@, elapsed_seconds).0,
        r.1@ == spec_step(commit_ref@, state@, event@, elapsed_seconds).1,
        state_wf(r.0@),
{
    match (state, event) {
        (TrackerState::Discovering, TrackerEvent::Builds(Result::Ok(urls))) => {
            if urls.len() == 0 {
                (TrackerState::NoMatch, TrackerAction::Finish)
            } else {
                let first = urls[0].clone();
                (
                    TrackerState::Scanning { urls, next: 0 },
                    TrackerAction::Inspect { build_url: first },
                )
            }
        },
        (TrackerState::Discovering, TrackerEvent::Builds(Result::Err(_))) => (
            TrackerState::Failed,
            TrackerAction::Finish,
        ),
        (TrackerState::Scanning { urls, next }, TrackerEvent::Inspected(Result::Ok(job))) => {
            proof {
                assert(next < urls.len());
            }
            if job_for_commit(&job, commit_ref) {
                let build_url = urls[next].clone();
                let target_url = urls[next].clone();
                (
                    TrackerState::Found { build_url, result: job.result },
                    TrackerAction::Report {
                        status: job.result.commit_status(),
                        target_url,
                        description: Option::None,
                        context: "continuous-integration/jenkins".to_owned(),
                    },
                )
            } else if next + 1 < urls.len() {
                let build_url = urls[next + 1].clone();
                (
                    TrackerState::Scanning { urls, next: next + 1 },
                    TrackerAction::Inspect { build_url },
                )
            } else {
                (TrackerState::NoMatch, TrackerAction::Finish)
            }
        },
        (TrackerState::Scanning { .. }, TrackerEvent::Inspected(Result::Err(_))) => (
            TrackerState::Failed,
            TrackerAction::Finish,
        ),
        (TrackerState::Found { build_url, result }, TrackerEvent::Delivered) => {
            if result == JobStatus::Pending {
                poll_gate(build_url, JobStatus::Pending, elapsed_seconds)
            } else {
                (TrackerState::Reported, TrackerAction::Finish)
            }
        },
        (TrackerState::Polling { build_url, last }, TrackerEvent::Awoke) => {
            let inspect_url = build_url.clone();
            (
                TrackerState::Inspecting { build_url, last },
                TrackerAction::Inspect { build_url: inspect_url },
            )
        },
        (TrackerState::Inspecting { build_url, last }, TrackerEvent::Inspected(Result::Ok(job)))
            => {
            if job.result != last {
                let target_url = build_url.clone();
                (
                    TrackerState::Concluding { build_url, result: job.result },
                    TrackerAction::Report {
                        status: job.result.commit_status(),
                        target_url,
                        description: Option::None,
                        context: "continuous-integration/jenkins".to_owned(),
                    },
                )
            } else {
                poll_gate(build_url, job.result, elapsed_seconds)
            }
        },
        (TrackerState::Inspecting { .. }, TrackerEvent::Inspected(Result::Err(_))) => (
            TrackerState::Failed,
            TrackerAction::Finish,
        ),
        (TrackerState::TimingOut { .. }, TrackerEvent::Delivered) => (
            TrackerState::Reported,
            TrackerAction::Finish,
        ),
        (TrackerState::Concluding { .. }, TrackerEvent::Delivered) => (
            TrackerState::Reported,
            TrackerAction::Finish,
        ),
        (s, _) => {
            match s {
                TrackerState::Reported => (TrackerState::Reported, TrackerAction::Finish),
                TrackerState::NoMatch => (TrackerState::NoMatch, TrackerAction::Finish),
                TrackerState::Failed => (TrackerState::Failed, TrackerAction::Finish),
                _ => (TrackerState::Failed, TrackerAction::Finish),
            }
        },
    }
}

/// Whether an action posts a status report.
pub open spec fn report_weight(a: ActionView) -> nat {
    if a is Report {
        1
    } else {
        0
    }
}

/// How many further status reports a run from this state may still issue:
/// two before a build is found, one while a pending build is watched, and
/// none once a final report is in flight or the state is terminal.
pub open spec fn report_budget(s: StateView) -> nat {
    match s {
        StateView::Discovering => 2,
        StateView::Scanning { .. } => 2,
        StateView::Found { result, .. } => if result is Pending {
            1
        } else {
            0
        },
        StateView::Polling { .. } => 1,
        StateView::Inspecting { .. } => 1,
        StateView::TimingOut { .. } => 0,
        StateView::Concluding { .. } => 0,
        StateView::Reported => 0,
        StateView::NoMatch => 0,
        StateView::Failed => 0,
    }
}

/// Every step pays for the report it issues out of the state's budget: the
/// report just issued plus whatever the successor state may still issue
/// never exceeds what the stepped state could.
pub proof fn lemma_step_spends_budget(
    r: CommitRefView,
    s: StateView,
    e: EventView,
    elapsed_seconds: u64,
)
    ensures
        report_weight(spec_step(r, s, e, elapsed_seconds).1) + report_budget(
            spec_step(r, s, e, elapsed_seconds).0,
        ) <= report_budget(s),
{
}

/// A terminal state never moves and never acts again.
pub proof fn lemma_terminal_is_final(
    r: CommitRefView,
    s: StateView,
    e: EventView,
    elapsed_seconds: u64,
)
    requires
        is_terminal(s),
    ensures
        spec_step(r, s, e, elapsed_seconds).0 == s,
        spec_step(r, s, e, elapsed_seconds).1 == ActionView::Finish,
{
}

/// The actions a tracking run emits when driven from state `s` by a
/// sequence of events, each event paired with the elapsed seconds at which
/// it arrives.
pub open spec fn emitted_actions(
    r: CommitRefView,
    s: StateView,
    events: Seq<(EventView, u64)>,
) -> Seq<ActionView>
    decreases events.len(),
{
    if events.len() == 0 {
        Seq::empty()
    } else {
        let stepped = spec_step(r, s, events[0].0, events[0].1);
        seq![stepped.1] + emitted_actions(r, stepped.0, events.drop_first())
    }
}

/// How many of the emitted actions post a status report.
pub open spec fn report_count(actions: Seq<ActionView>) -> nat
    decreases actions.len(),
{
    if actions.len() == 0 {
        0
    } else {
        report_weight(actions[0]) + report_count(actions.drop_first())
    }
}

/// However the CI server, the status host and the clock behave, a tracking
/// run driven from state `s` posts at most `report_budget(s)` further
/// status reports.
pub proof fn lemma_reports_bounded_by_budget(
    r: CommitRefView,
    s: StateView,
    events: Seq<(EventView, u64)>,
)
    ensures
        report_count(emitted_actions(r, s, events)) <= report_budget(s),
    decreases events.len(),
{
    if events.len() > 0 {
        let stepped = spec_step(r, s, events[0].0, events[0].1);
        lemma_step_spends_budget(r, s, events[0].0, events[0].1);
        lemma_reports_bounded_by_budget(r, stepped.0, events.drop_first());
        let emitted = seq![stepped.1] + emitted_actions(r, stepped.0, events.drop_first());
        assert(emitted.drop_first() =~= emitted_actions(r, stepped.0, events.drop_first()));
    }
}

/// For every commit reference and every sequence of events, a tracking run
/// started at discovery posts at most two status reports.
pub proof fn lemma_at_most_two_reports(r: CommitRefView, events: Seq<(EventView, u64)>)
    ensures
        report_count(emitted_actions(r, StateView::Discovering, events)) <= 2,
{
    lemma_reports_bounded_by_budget(r, StateView::Discovering, events);
}

/// Once the tracker is in a terminal state, no sequence of further events
/// makes it post a status report.
pub proof fn lemma_no_report_after_terminal(
    r: CommitRefView,
    s: StateView,
    events: Seq<(EventView, u64)>,
)
    requires
        is_terminal(s),
    ensures
        report_count(emitted_actions(r, s, events)) == 0,
{
    lemma_reports_bounded_by_budget(r, s, events);
}

/// A final report is the last one. Once a timeout report or a
/// changed-status report is in flight — and likewise once the initial
/// report of a non-pending build is — the budget is spent, and no
/// continuation of the run posts another report.
pub proof fn lemma_no_report_after_final(
    r: CommitRefView,
    s: StateView,
    events: Seq<(EventView, u64)>,
)
    requires
        report_budget(s) == 0,
    ensures
        report_count(emitted_actions(r, s, events)) == 0,
{
    lemma_reports_bounded_by_budget(r, s, events);
}

/// The states a run passes through before it has issued any report:
/// discovery and scanning, or a terminal end that never reported.
pub open spec fn before_first_report(s: StateView) -> bool {
    s is Discovering || s is Scanning || s is NoMatch || s is Failed
}

/// The initial report precedes every other. A step from a state that has
/// not yet reported either issues no report and lands in such a state
/// again, or issues the initial report: it enters `Found`, and what it
/// posts is the found build's own mapped status, against that build's URL,
/// with no description. The timeout and changed-status reports can
/// therefore only come later, and `lemma_no_report_after_final` puts
/// nothing after them.
pub proof fn lemma_initial_report_comes_first(
    r: CommitRefView,
    s: StateView,
    e: EventView,
    elapsed_seconds: u64,
)
    requires
        before_first_report(s),
    ensures
        report_weight(spec_step(r, s, e, elapsed_seconds).1) == 0 ==> before_first_report(
            spec_step(r, s, e, elapsed_seconds).0,
        ),
        report_weight(spec_step(r, s, e, elapsed_seconds).1) == 1 ==> ({
            let stepped = spec_step(r, s, e, elapsed_seconds);
            &&& stepped.0 matches StateView::Found { build_url, result }
            &&& stepped.1 == (ActionView::Report {
                status: commit_status_of(result),
                target_url: build_url,
                description: Option::None,
                context: "continuous-integration/jenkins"@,
            })
        }),
{
}

/// The first report an emitted-action sequence holds, if it holds any.
pub open spec fn first_report(actions: Seq<ActionView>) -> Option<ActionView>
    decreases actions.len(),
{
    if actions.len() == 0 {
        Option::None
    } else if actions[0] is Report {
        Option::Some(actions[0])
    } else {
        first_report(actions.drop_first())
    }
}

/// In a run that has not yet reported — in particular in a whole run from
/// discovery — the first report ever posted carries no description: it is
/// the initial report of the found build, never the timeout report.
/// (`lemma_initial_report_comes_first` gives the step-level content: that
/// report is issued on entering `Found` and posts that build's own status.)
pub proof fn lemma_first_report_has_no_description(
    r: CommitRefView,
    s: StateView,
    events: Seq<(EventView, u64)>,
)
    requires
        before_first_report(s),
    ensures
        first_report(emitted_actions(r, s, events)) matches Some(a) ==> a->description is None,
    decreases events.len(),
{
    if events.len() > 0 {
        let stepped = spec_step(r, s, events[0].0, events[0].1);
        lemma_initial_report_comes_first(r, s, events[0].0, events[0].1);
        let emitted = seq![stepped.1] + emitted_actions(r, stepped.0, events.drop_first());
        assert(emitted.drop_first() =~= emitted_actions(r, stepped.0, events.drop_first()));
        if report_weight(stepped.1) == 0 {
            lemma_first_report_has_no_description(r, stepped.0, events.drop_first());
        }
    }
}

fn poll_gate(build_url: String, last: JobStatus, elapsed_seconds: u64) -> (r: (
    TrackerState,
    TrackerAction,
))
    ensures
        r.0@ == spec_poll_gate(build_url@, last, elapsed_seconds).0,
        r.1@ == spec_poll_gate(build_url@, last, elapsed_seconds).1,
{
    if elapsed_seconds >= TIMEOUT_SECONDS {
        let target_url = build_url.clone();
        (
            TrackerState::TimingOut { build_url },
            TrackerAction::Report {
                status: CommitStatus::Error,
                target_url,
                description: Option::Some("The status checker timed out.".to_owned()),
                context: "continuous-integration/jenkins".to_owned(),
            },
        )
    } else {
        (
            TrackerState::Polling { build_url, last },
            TrackerAction::Wait { seconds: POLL_SECONDS },
        )
    }
}

} // verus!
