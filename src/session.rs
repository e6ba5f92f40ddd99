//! One generation, as a state machine: the caller performs each action it
//! returns (send the submission, send a status request, pause, or report the
//! result) and hands back what came of it.
use vstd::prelude::*;
use crate::polling::{
    is_retryable, lemma_polls_within_budget, lemma_rejection_is_final, lemma_success_at_kth_poll, lemma_timeout_after_budget,
    poll_decision, run_polls, PollDecision, PollLoop,
};
use crate::protocol::{submit_body, submit_body_spec};
use crate::json::json_string_literal;
use crate::types::{DalleResponse, GenerationError, PollStatus};

verus! {

#[derive(Debug, Clone, Copy, PartialEq, Eq, Structural)]
pub enum Stage {
    Submitting,
    Polling,
    Sleeping,
    Finished,
}

/// What the caller is asked to do next.
#[derive(Debug, PartialEq, Eq)]
pub enum Action {
    /// Send the submission with this JSON body.
    Submit(String),
    /// Request the status of the task with this identifier.
    Poll(String),
    /// Pause for this many seconds.
    Sleep(u64),
    /// The generation is over, with this result.
    Finish(Result<Vec<DalleResponse>, GenerationError>),
}

/// What came of the last action.
#[derive(Debug, PartialEq, Eq)]
pub enum Event {
    /// The reply to the submission: a task identifier, or the failure.
    Submitted(Result<String, GenerationError>),
    /// A status request was answered with this outcome.
    Polled(Result<PollStatus, GenerationError>),
    /// The pause is over.
    Slept,
    /// An enclosing deadline or cancellation fired while the last action was
    /// under way.
    Cancelled,
}

pub struct SessionModel {
    pub stage: Stage,
    pub task_id: String,
    pub left: nat,
    pub max_attempts: usize,
    pub interval_secs: u64,
}

/// Whether `event` answers the action that a session in `stage` asked for.
pub open spec fn accepts(stage: Stage, event: Event) -> bool {
    match event {
        Event::Submitted(_) => stage == Stage::Submitting,
        Event::Polled(_) => stage == Stage::Polling,
        Event::Slept => stage == Stage::Sleeping,
        Event::Cancelled => stage != Stage::Finished,
    }
}

/// One transition: the next state and the action asked for.
pub open spec fn session_step(m: SessionModel, event: Event) -> (SessionModel, Action) {
    match event {
        Event::Submitted(Ok(id)) => (
            SessionModel { stage: Stage::Polling, task_id: id, ..m },
            Action::Poll(id),
        ),
        Event::Submitted(Err(e)) => (
            SessionModel { stage: Stage::Finished, ..m },
            Action::Finish(Err(e)),
        ),
        Event::Polled(outcome) => match poll_decision(m.left, m.max_attempts, outcome) {
            PollDecision::Finish(r) => (
                SessionModel { stage: Stage::Finished, ..m },
                Action::Finish(r),
            ),
            PollDecision::PollAgain { sleep_first } => if sleep_first {
                (
                    SessionModel { stage: Stage::Sleeping, left: (m.left - 1) as nat, ..m },
                    Action::Sleep(m.interval_secs),
                )
            } else {
                (
                    SessionModel { stage: Stage::Polling, left: (m.left - 1) as nat, ..m },
                    Action::Poll(m.task_id),
                )
            },
        },
        Event::Slept => (SessionModel { stage: Stage::Polling, ..m }, Action::Poll(m.task_id)),
        Event::Cancelled => (
            SessionModel { stage: Stage::Finished, ..m },
            Action::Finish(Err(GenerationError::Cancelled)),
        ),
    }
}

/// The actions asked for while the events are handed in turn to a session
/// in state `m`, up to the first event that does not answer the last action.
pub open spec fn session_run(m: SessionModel, events: Seq<Event>) -> Seq<Action>
    decreases events.len(),
{
    if events.len() == 0 || !accepts(m.stage, events[0]) {
        Seq::empty()
    } else {
        let (next, action) = session_step(m, events[0]);
        seq![action] + session_run(next, events.drop_first())
    }
}

proof fn lemma_never_submits_again(m: SessionModel, events: Seq<Event>)
    ensures
        forall|i: int|
            0 <= i < session_run(m, events).len() ==> !(#[trigger] session_run(m, events)[i] is Submit),
    decreases events.len(),
{
    if events.len() > 0 && accepts(m.stage, events[0]) {
        let (next, action) = session_step(m, events[0]);
        lemma_never_submits_again(next, events.drop_first());
        let rest = session_run(next, events.drop_first());
        assert forall|i: int|
            0 <= i < session_run(m, events).len() implies !(#[trigger] session_run(m, events)[i] is Submit) by {
            if i > 0 {
                assert(session_run(m, events)[i] == rest[i - 1]);
            }
        }
    }
}

/// A generation submits exactly once, before anything else: it starts by
/// asking for the submission (see `Session::start`), and whatever events a
/// session waiting for that answer is then handed, none of the actions it
/// asks for is another submission, and its first status request comes only
/// once the submission was answered with a task identifier.
pub proof fn lemma_single_submission(m: SessionModel, events: Seq<Event>)
    requires
        m.stage == Stage::Submitting,
    ensures
        forall|i: int|
            0 <= i < session_run(m, events).len() ==> !(#[trigger] session_run(m, events)[i] is Submit),
        session_run(m, events).len() > 0 ==> events[0] is Submitted || events[0] is Cancelled,
        session_run(m, events).len() > 0 && session_run(m, events)[0] is Poll ==> (
        events[0] matches Event::Submitted(Ok(id)) && session_run(m, events)[0] == Action::Poll(id)),
{
    lemma_never_submits_again(m, events);
}

/// Hands a polling (or pausing) session the answers `outcomes` to its status
/// requests in turn, ending each pause as soon as it is asked for: the result
/// if it finished, the status requests made, and the pauses taken.
pub open spec fn drive_polls(
    m: SessionModel,
    outcomes: Seq<Result<PollStatus, GenerationError>>,
) -> (Option<Result<Vec<DalleResponse>, GenerationError>>, nat, nat)
    decreases outcomes.len(), if m.stage == Stage::Sleeping { 1nat } else { 0nat },
{
    if m.stage == Stage::Sleeping {
        let rest = drive_polls(SessionModel { stage: Stage::Polling, ..m }, outcomes);
        (rest.0, rest.1, rest.2 + 1)
    } else if m.stage == Stage::Polling && outcomes.len() > 0 {
        let (next, action) = session_step(m, Event::Polled(outcomes[0]));
        match action {
            Action::Finish(r) => (Some(r), 1, 0),
            _ => {
                let rest = drive_polls(next, outcomes.drop_first());
                (rest.0, rest.1 + 1, rest.2)
            },
        }
    } else {
        (None, 0, 0)
    }
}

/// Once its submission is answered, a session polls exactly as the poll loop
/// does: fed the same answers, it ends with the same result after the same
/// number of status requests and pauses (see `run_polls` and the laws on it).
pub proof fn lemma_session_polls_as_loop(
    m: SessionModel,
    outcomes: Seq<Result<PollStatus, GenerationError>>,
)
    requires
        m.stage == Stage::Polling,
    ensures
        drive_polls(m, outcomes) == run_polls(m.left, m.max_attempts, outcomes),
    decreases outcomes.len(),
{
    if outcomes.len() > 0 {
        let (next, action) = session_step(m, Event::Polled(outcomes[0]));
        match poll_decision(m.left, m.max_attempts, outcomes[0]) {
            PollDecision::Finish(r) => {},
            PollDecision::PollAgain { sleep_first } => {
                let polling = SessionModel { stage: Stage::Polling, ..next };
                lemma_session_polls_as_loop(polling, outcomes.drop_first());
                if sleep_first {
                    assert(next.stage == Stage::Sleeping);
                    assert(drive_polls(next, outcomes.drop_first()) == {
                        let rest = drive_polls(polling, outcomes.drop_first());
                        (rest.0, rest.1, rest.2 + 1)
                    });
                } else {
                    assert(next == polling);
                }
            },
        }
    }
}

/// A session whose submission has just been answered with `task_id`.
pub open spec fn just_submitted(m: SessionModel, task_id: String) -> SessionModel {
    session_step(m, Event::Submitted(Ok(task_id))).0
}

/// A generation whose task never reaches a terminal state makes exactly
/// `max_attempts + 1` status requests and fails with a timeout naming them.
pub proof fn lemma_generation_times_out(
    m: SessionModel,
    task_id: String,
    outcomes: Seq<Result<PollStatus, GenerationError>>,
)
    requires
        m.stage == Stage::Submitting,
        m.left == m.max_attempts,
        outcomes.len() >= m.max_attempts + 1,
        forall|i: int| 0 <= i <= m.max_attempts ==> is_retryable(#[trigger] outcomes[i]),
    ensures
        drive_polls(just_submitted(m, task_id), outcomes).0 == Some(
            Err::<Vec<DalleResponse>, GenerationError>(
                GenerationError::Timeout((m.max_attempts + 1) as u128),
            ),
        ),
        drive_polls(just_submitted(m, task_id), outcomes).1 == m.max_attempts + 1,
{
    lemma_session_polls_as_loop(just_submitted(m, task_id), outcomes);
    lemma_timeout_after_budget(m.max_attempts, outcomes);
}

/// When the k-th answer (k at most `max_attempts + 1`) of a generation
/// reports success with images, after only pending or transport answers, the
/// generation returns exactly those images after exactly k status requests.
pub proof fn lemma_generation_succeeds_at_kth_poll(
    m: SessionModel,
    task_id: String,
    outcomes: Seq<Result<PollStatus, GenerationError>>,
    k: nat,
    images: Vec<DalleResponse>,
)
    requires
        m.stage == Stage::Submitting,
        m.left == m.max_attempts,
        1 <= k <= m.max_attempts + 1,
        k <= outcomes.len(),
        forall|i: int| 0 <= i < k - 1 ==> is_retryable(#[trigger] outcomes[i]),
        outcomes[k - 1] == Ok::<PollStatus, GenerationError>(PollStatus::Done(images)),
        images@.len() > 0,
    ensures
        drive_polls(just_submitted(m, task_id), outcomes).0 == Some(
            Ok::<Vec<DalleResponse>, GenerationError>(images),
        ),
        drive_polls(just_submitted(m, task_id), outcomes).1 == k,
{
    lemma_session_polls_as_loop(just_submitted(m, task_id), outcomes);
    lemma_success_at_kth_poll(m.max_attempts, outcomes, k, images);
}

/// A rejection as the k-th answer of a generation ends it at once with that
/// rejection, whatever budget is left: exactly k status requests were made.
pub proof fn lemma_generation_rejection_is_final(
    m: SessionModel,
    task_id: String,
    outcomes: Seq<Result<PollStatus, GenerationError>>,
    k: nat,
    raw: String,
)
    requires
        m.stage == Stage::Submitting,
        m.left == m.max_attempts,
        1 <= k <= m.max_attempts + 1,
        k <= outcomes.len(),
        forall|i: int| 0 <= i < k - 1 ==> is_retryable(#[trigger] outcomes[i]),
        outcomes[k - 1] == Err::<PollStatus, GenerationError>(GenerationError::Rejected(raw)),
    ensures
        drive_polls(just_submitted(m, task_id), outcomes).0 == Some(
            Err::<Vec<DalleResponse>, GenerationError>(GenerationError::Rejected(raw)),
        ),
        drive_polls(just_submitted(m, task_id), outcomes).1 == k,
{
    lemma_session_polls_as_loop(just_submitted(m, task_id), outcomes);
    lemma_rejection_is_final(m.max_attempts, outcomes, k, raw);
}

/// Whatever the answers to its status requests, a generation whose
/// submission was answered makes at most `max_attempts + 1` of them.
pub proof fn lemma_generation_polls_within_budget(
    m: SessionModel,
    task_id: String,
    outcomes: Seq<Result<PollStatus, GenerationError>>,
)
    requires
        m.stage == Stage::Submitting,
        m.left == m.max_attempts,
    ensures
        drive_polls(just_submitted(m, task_id), outcomes).1 <= m.max_attempts + 1,
{
    lemma_session_polls_as_loop(just_submitted(m, task_id), outcomes);
    lemma_polls_within_budget(m.left, m.max_attempts, outcomes);
}

pub struct Session {
    stage: Stage,
    task_id: String,
    polls: PollLoop,
    interval_secs: u64,
}

impl View for Session {
    type V = SessionModel;

    closed spec fn view(&self) -> SessionModel {
        SessionModel {
            stage: self.stage,
            task_id: self.task_id,
            left: self.polls.left_spec(),
            max_attempts: self.polls.max_spec(),
            interval_secs: self.interval_secs,
        }
    }
}

impl Session {
    pub closed spec fn wf(&self) -> bool {
        &&& self.polls.wf()
        &&& self.stage != Stage::Finished ==> !self.polls.finished_spec()
    }

    /// Begins a generation of `prompt` that may poll `max_attempts + 1`
    /// times, pausing `interval_secs` seconds after each pending answer; the
    /// first action is the submission.
    pub fn start(prompt: &str, max_attempts: usize, interval_secs: u64) -> (r: (Session, Action))
        ensures
            r.0.wf(),
            r.0@.stage == Stage::Submitting,
            r.0@.left == max_attempts,
            r.0@.max_attempts == max_attempts,
            r.0@.interval_secs == interval_secs,
            r.1 matches Action::Submit(body) && body@ == submit_body_spec(
                json_string_literal(prompt@),
            ),
    {
        let body = submit_body(prompt);
        let session = Session {
            stage: Stage::Submitting,
            task_id: String::new(),
            polls: PollLoop::new(max_attempts),
            interval_secs,
        };
        (session, Action::Submit(body))
    }

    pub fn stage(&self) -> (r: Stage)
        ensures
            r == self@.stage,
    {
        self.stage
    }

    /// Whether `event` answers the action this session asked for last.
    pub fn accepts(&self, event: &Event) -> (r: bool)
        ensures
            r == accepts(self@.stage, *event),
    {
        match event {
            Event::Submitted(_) => self.stage == Stage::Submitting,
            Event::Polled(_) => self.stage == Stage::Polling,
            Event::Slept => self.stage == Stage::Sleeping,
            Event::Cancelled => self.stage != Stage::Finished,
        }
    }

    /// Takes what came of the last action and returns the next one.
    pub fn handle(&mut self, event: Event) -> (r: Action)
        requires
            old(self).wf(),
            accepts(old(self)@.stage, event),
        ensures
            final(self).wf(),
            (final(self)@, r) == session_step(old(self)@, event),
    {
        match event {
            Event::Submitted(Ok(id)) => {
                self.task_id = id.clone();
                self.stage = Stage::Polling;
                Action::Poll(id)
            },
            Event::Submitted(Err(e)) => {
                self.stage = Stage::Finished;
                Action::Finish(Err(e))
            },
            Event::Polled(outcome) => match self.polls.record_poll(outcome) {
                PollDecision::Finish(r) => {
                    self.stage = Stage::Finished;
                    Action::Finish(r)
                },
                PollDecision::PollAgain { sleep_first } => {
                    if sleep_first {
                        self.stage = Stage::Sleeping;
                        Action::Sleep(self.interval_secs)
                    } else {
                        self.stage = Stage::Polling;
                        Action::Poll(self.task_id.clone())
                    }
                },
            },
            Event::Slept => {
                self.stage = Stage::Polling;
                Action::Poll(self.task_id.clone())
            },
            Event::Cancelled => {
                self.stage = Stage::Finished;
                Action::Finish(Err(GenerationError::Cancelled))
            },
        }
    }
}

} // verus!
