use vstd::prelude::*;
use crate::types::{DalleResponse, GenerationError, PollStatus};

verus! {

/// What the caller does after one status request was answered.
#[derive(Debug, PartialEq, Eq)]
pub enum PollDecision {
    /// Stop polling: the generation ended with this result.
    Finish(Result<Vec<DalleResponse>, GenerationError>),
    /// Issue another status request, after the fixed pause if `sleep_first`.
    PollAgain { sleep_first: bool },
}

/// Outcomes that only consume an attempt: still pending, or a transport failure.
pub open spec fn is_retryable(outcome: Result<PollStatus, GenerationError>) -> bool {
    match outcome {
        Ok(PollStatus::Pending) => true,
        Err(GenerationError::Transport(_)) => true,
        _ => false,
    }
}

/// The decision on one answered status request, when `left` more requests
/// are allowed after it and `max_attempts` is the configured budget.
pub open spec fn poll_decision(
    left: nat,
    max_attempts: usize,
    outcome: Result<PollStatus, GenerationError>,
) -> PollDecision {
    match outcome {
        Ok(PollStatus::Done(images)) => PollDecision::Finish(Ok(images)),
        Ok(PollStatus::Pending) => if left == 0 {
            PollDecision::Finish(Err(GenerationError::Timeout((max_attempts + 1) as u128)))
        } else {
            PollDecision::PollAgain { sleep_first: true }
        },
        Err(GenerationError::Transport(_)) => if left == 0 {
            PollDecision::Finish(Err(GenerationError::Timeout((max_attempts + 1) as u128)))
        } else {
            PollDecision::PollAgain { sleep_first: false }
        },
        Err(e) => PollDecision::Finish(Err(e)),
    }
}

/// The course of a poll loop fed the answers `outcomes` in turn, with `left`
/// further requests allowed after the first: the result if it finished
/// (`None` if the answers ran out first), the number of requests made, and the
/// number of pauses taken.
pub open spec fn run_polls(
    left: nat,
    max_attempts: usize,
    outcomes: Seq<Result<PollStatus, GenerationError>>,
) -> (Option<Result<Vec<DalleResponse>, GenerationError>>, nat, nat)
    decreases outcomes.len(),
{
    if outcomes.len() == 0 {
        (None, 0, 0)
    } else {
        match poll_decision(left, max_attempts, outcomes[0]) {
            PollDecision::Finish(r) => (Some(r), 1, 0),
            PollDecision::PollAgain { sleep_first } => {
                let rest = run_polls((left - 1) as nat, max_attempts, outcomes.drop_first());
                (rest.0, rest.1 + 1, rest.2 + if sleep_first { 1nat } else { 0nat })
            },
        }
    }
}

/// The attempt budget of one generation: at most `max_attempts + 1` status
/// requests are made.
pub struct PollLoop {
    max_attempts: usize,
    left: usize,
    finished: bool,
}

impl PollLoop {
    /// The configured budget.
    pub closed spec fn max_spec(&self) -> usize {
        self.max_attempts
    }

    /// How many more status requests are allowed after the next one.
    pub closed spec fn left_spec(&self) -> nat {
        self.left as nat
    }

    /// Whether a decision to finish has been made.
    pub closed spec fn finished_spec(&self) -> bool {
        self.finished
    }

    /// Status requests answered so far.
    pub open spec fn polls_spec(&self) -> nat {
        (self.max_spec() - self.left_spec() + if self.finished_spec() { 1int } else { 0int }) as nat
    }

    pub closed spec fn wf(&self) -> bool {
        self.left <= self.max_attempts
    }

    pub fn new(max_attempts: usize) -> (r: PollLoop)
        ensures
            r.wf(),
            r.max_spec() == max_attempts,
            r.left_spec() == max_attempts,
            !r.finished_spec(),
            r.polls_spec() == 0,
    {
        PollLoop { max_attempts, left: max_attempts, finished: false }
    }

    pub fn max_attempts(&self) -> (r: usize)
        ensures
            r == self.max_spec(),
    {
        self.max_attempts
    }

    pub fn is_finished(&self) -> (r: bool)
        ensures
            r == self.finished_spec(),
    {
        self.finished
    }

    /// Takes the answer to one status request and decides what comes next.
    /// Pending and transport failures consume an attempt; success, rejection
    /// and any other failure end the loop at once.
    pub fn record_poll(&mut self, outcome: Result<PollStatus, GenerationError>) -> (r: PollDecision)
        requires
            old(self).wf(),
            !old(self).finished_spec(),
        ensures
            final(self).wf(),
            r == poll_decision(old(self).left_spec(), old(self).max_spec(), outcome),
            final(self).max_spec() == old(self).max_spec(),
            final(self).finished_spec() == (r is Finish),
            r is Finish ==> final(self).left_spec() == old(self).left_spec(),
            r is PollAgain ==> final(self).left_spec() == old(self).left_spec() - 1,
            final(self).polls_spec() == old(self).polls_spec() + 1,
    {
        match outcome {
            Ok(PollStatus::Done(images)) => {
                self.finished = true;
                PollDecision::Finish(Ok(images))
            },
            Ok(PollStatus::Pending) => self.consume_attempt(true),
            Err(GenerationError::Transport(_)) => self.consume_attempt(false),
            Err(e) => {
                self.finished = true;
                PollDecision::Finish(Err(e))
            },
        }
    }

    /// An answer that only uses up an attempt: poll again while the budget
    /// allows, else time out.
    fn consume_attempt(&mut self, sleep_first: bool) -> (r: PollDecision)
        requires
            old(self).wf(),
            !old(self).finished_spec(),
        ensures
            final(self).wf(),
            final(self).max_attempts == old(self).max_attempts,
            old(self).left == 0 ==> r == PollDecision::Finish(
                Err(GenerationError::Timeout((old(self).max_attempts + 1) as u128)),
            ) && final(self).finished && final(self).left == 0,
            old(self).left > 0 ==> r == (PollDecision::PollAgain { sleep_first })
                && !final(self).finished && final(self).left == old(self).left - 1,
    {
        if self.left == 0 {
            self.finished = true;
            PollDecision::Finish(Err(GenerationError::Timeout(self.max_attempts as u128 + 1)))
        } else {
            self.left = self.left - 1;
            PollDecision::PollAgain { sleep_first }
        }
    }
}

/// The result a non-retryable answer ends the loop with.
pub open spec fn terminal_result(
    outcome: Result<PollStatus, GenerationError>,
) -> Result<Vec<DalleResponse>, GenerationError>
    recommends
        !is_retryable(outcome),
{
    match outcome {
        Ok(PollStatus::Done(images)) => Ok(images),
        Ok(PollStatus::Pending) => arbitrary(),
        Err(e) => Err(e),
    }
}

proof fn lemma_retryable_run(left: nat, max_attempts: usize, outcomes: Seq<Result<PollStatus, GenerationError>>)
    requires
        outcomes.len() >= left + 1,
        forall|i: int| 0 <= i <= left ==> is_retryable(#[trigger] outcomes[i]),
    ensures
        run_polls(left, max_attempts, outcomes).0 == Some(
            Err::<Vec<DalleResponse>, GenerationError>(GenerationError::Timeout((max_attempts + 1) as u128)),
        ),
        run_polls(left, max_attempts, outcomes).1 == left + 1,
    decreases left,
{
    assert(is_retryable(outcomes[0]));
    if left > 0 {
        let rest = outcomes.drop_first();
        assert forall|i: int| 0 <= i <= left - 1 implies is_retryable(#[trigger] rest[i]) by {
            assert(rest[i] == outcomes[i + 1]);
        }
        lemma_retryable_run((left - 1) as nat, max_attempts, rest);
    }
}

proof fn lemma_terminal_run(
    left: nat,
    max_attempts: usize,
    outcomes: Seq<Result<PollStatus, GenerationError>>,
    k: nat,
)
    requires
        1 <= k <= left + 1,
        k <= outcomes.len(),
        forall|i: int| 0 <= i < k - 1 ==> is_retryable(#[trigger] outcomes[i]),
        !is_retryable(outcomes[k - 1]),
    ensures
        run_polls(left, max_attempts, outcomes).0 == Some(terminal_result(outcomes[k - 1])),
        run_polls(left, max_attempts, outcomes).1 == k,
    decreases k,
{
    if k > 1 {
        assert(is_retryable(outcomes[0]));
        let rest = outcomes.drop_first();
        assert forall|i: int| 0 <= i < k - 2 implies is_retryable(#[trigger] rest[i]) by {
            assert(rest[i] == outcomes[i + 1]);
        }
        assert(rest[k - 2] == outcomes[k - 1]);
        lemma_terminal_run((left - 1) as nat, max_attempts, rest, (k - 1) as nat);
    }
}

/// A task that never reaches a terminal state is polled exactly
/// `max_attempts + 1` times, after which the loop fails with a timeout that
/// names those `max_attempts + 1` requests.
pub proof fn lemma_timeout_after_budget(
    max_attempts: usize,
    outcomes: Seq<Result<PollStatus, GenerationError>>,
)
    requires
        outcomes.len() >= max_attempts + 1,
        forall|i: int| 0 <= i <= max_attempts ==> is_retryable(#[trigger] outcomes[i]),
    ensures
        run_polls(max_attempts as nat, max_attempts, outcomes).0 == Some(
            Err::<Vec<DalleResponse>, GenerationError>(GenerationError::Timeout((max_attempts + 1) as u128)),
        ),
        run_polls(max_attempts as nat, max_attempts, outcomes).1 == max_attempts + 1,
{
    lemma_retryable_run(max_attempts as nat, max_attempts, outcomes);
}

/// When the k-th answer (k at most `max_attempts + 1`) reports success with
/// images and the earlier ones were pending or transport failures, the loop
/// returns exactly those images after exactly k requests.
pub proof fn lemma_success_at_kth_poll(
    max_attempts: usize,
    outcomes: Seq<Result<PollStatus, GenerationError>>,
    k: nat,
    images: Vec<DalleResponse>,
)
    requires
        1 <= k <= max_attempts + 1,
        k <= outcomes.len(),
        forall|i: int| 0 <= i < k - 1 ==> is_retryable(#[trigger] outcomes[i]),
        outcomes[k - 1] == Ok::<PollStatus, GenerationError>(PollStatus::Done(images)),
        images@.len() > 0,
    ensures
        run_polls(max_attempts as nat, max_attempts, outcomes).0 == Some(
            Ok::<Vec<DalleResponse>, GenerationError>(images),
        ),
        run_polls(max_attempts as nat, max_attempts, outcomes).1 == k,
{
    lemma_terminal_run(max_attempts as nat, max_attempts, outcomes, k);
}

/// A rejection ends the loop at once with that rejection, whatever budget
/// is left: after a rejection as the k-th answer exactly k requests were made.
pub proof fn lemma_rejection_is_final(
    max_attempts: usize,
    outcomes: Seq<Result<PollStatus, GenerationError>>,
    k: nat,
    raw: String,
)
    requires
        1 <= k <= max_attempts + 1,
        k <= outcomes.len(),
        forall|i: int| 0 <= i < k - 1 ==> is_retryable(#[trigger] outcomes[i]),
        outcomes[k - 1] == Err::<PollStatus, GenerationError>(GenerationError::Rejected(raw)),
    ensures
        run_polls(max_attempts as nat, max_attempts, outcomes).0 == Some(
            Err::<Vec<DalleResponse>, GenerationError>(GenerationError::Rejected(raw)),
        ),
        run_polls(max_attempts as nat, max_attempts, outcomes).1 == k,
{
    lemma_terminal_run(max_attempts as nat, max_attempts, outcomes, k);
}

proof fn lemma_continues_past(
    left: nat,
    max_attempts: usize,
    outcomes: Seq<Result<PollStatus, GenerationError>>,
    i: nat,
)
    requires
        i < left,
        i + 1 < outcomes.len(),
        forall|j: int| 0 <= j <= i ==> is_retryable(#[trigger] outcomes[j]),
    ensures
        run_polls(left, max_attempts, outcomes).1 > i + 1,
    decreases i,
{
    assert(is_retryable(outcomes[0]));
    let rest = outcomes.drop_first();
    if i > 0 {
        assert forall|j: int| 0 <= j <= i - 1 implies is_retryable(#[trigger] rest[j]) by {
            assert(rest[j] == outcomes[j + 1]);
        }
        lemma_continues_past((left - 1) as nat, max_attempts, rest, (i - 1) as nat);
    } else {
        assert(run_polls((left - 1) as nat, max_attempts, rest).1 >= 1);
    }
}

/// A transport failure on a request that is not the last one permitted does
/// not end the loop: if the (i+1)-th answer is a transport failure, with
/// i < `max_attempts` and only pending or transport answers before it, a
/// further request follows.
pub proof fn lemma_transport_error_not_final(
    max_attempts: usize,
    outcomes: Seq<Result<PollStatus, GenerationError>>,
    i: nat,
    message: String,
)
    requires
        i < max_attempts,
        i + 1 < outcomes.len(),
        forall|j: int| 0 <= j < i ==> is_retryable(#[trigger] outcomes[j]),
        outcomes[i as int] == Err::<PollStatus, GenerationError>(GenerationError::Transport(message)),
    ensures
        run_polls(max_attempts as nat, max_attempts, outcomes).1 > i + 1,
{
    assert forall|j: int| 0 <= j <= i implies is_retryable(#[trigger] outcomes[j]) by {
        if j == i {
            assert(outcomes[j] == outcomes[i as int]);
        }
    }
    lemma_continues_past(max_attempts as nat, max_attempts, outcomes, i);
}

/// Whatever the answers, the loop makes at most `left + 1` status requests;
/// started with `left == max_attempts`, that is at most the budget plus one,
/// on every path, finished or not.
pub proof fn lemma_polls_within_budget(
    left: nat,
    max_attempts: usize,
    outcomes: Seq<Result<PollStatus, GenerationError>>,
)
    ensures
        run_polls(left, max_attempts, outcomes).1 <= left + 1,
    decreases outcomes.len(),
{
    if outcomes.len() > 0 {
        match poll_decision(left, max_attempts, outcomes[0]) {
            PollDecision::Finish(_) => {},
            PollDecision::PollAgain { .. } => {
                assert(left > 0);
                lemma_polls_within_budget((left - 1) as nat, max_attempts, outcomes.drop_first());
            },
        }
    }
}

} // verus!
