//! Classification of finished attempts, and the life of one batch in
//! delivery: pending, attempting, then success or failure.

use vstd::prelude::*;

verus! {

/// How one attempt to deliver a request ended.
#[derive(Clone, Copy, Debug, PartialEq, Eq, Structural)]
pub enum AttemptOutcome {
    /// A response arrived, with this status code.
    Status(u16),
    /// The transport failed before a response arrived.
    TransportError,
    /// The attempt ran longer than the request timeout.
    TimedOut,
}

/// Why an attempt failed.
#[derive(Clone, Copy, Debug, PartialEq, Eq, Structural)]
pub enum Reason {
    TransportError,
    TimedOut,
    TooManyRequests,
    ServerError(u16),
    Rejected(u16),
}

/// What a finished attempt means for its batch.
#[derive(Clone, Copy, Debug, PartialEq, Eq, Structural)]
pub enum RetryDecision {
    Success,
    RetryableFailure(Reason),
    FatalFailure(Reason),
}

/// The decision for an outcome: a status of the 2xx class is a success; a
/// transport error, a timeout, status 429 and the 5xx class can be retried;
/// every other status is fatal.
pub open spec fn decision(outcome: AttemptOutcome) -> RetryDecision {
    match outcome {
        AttemptOutcome::TransportError => RetryDecision::RetryableFailure(Reason::TransportError),
        AttemptOutcome::TimedOut => RetryDecision::RetryableFailure(Reason::TimedOut),
        AttemptOutcome::Status(code) => if 200 <= code < 300 {
            RetryDecision::Success
        } else if code == 429 {
            RetryDecision::RetryableFailure(Reason::TooManyRequests)
        } else if 500 <= code < 600 {
            RetryDecision::RetryableFailure(Reason::ServerError(code))
        } else {
            RetryDecision::FatalFailure(Reason::Rejected(code))
        },
    }
}

/// Classifies a finished attempt.
pub fn classify(outcome: AttemptOutcome) -> (r: RetryDecision)
    ensures
        r == decision(outcome),
{
    match outcome {
        AttemptOutcome::TransportError => RetryDecision::RetryableFailure(Reason::TransportError),
        AttemptOutcome::TimedOut => RetryDecision::RetryableFailure(Reason::TimedOut),
        AttemptOutcome::Status(code) => {
            if 200 <= code && code < 300 {
                RetryDecision::Success
            } else if code == 429 {
                RetryDecision::RetryableFailure(Reason::TooManyRequests)
            } else if 500 <= code && code < 600 {
                RetryDecision::RetryableFailure(Reason::ServerError(code))
            } else {
                RetryDecision::FatalFailure(Reason::Rejected(code))
            }
        },
    }
}

/// The retry policy: how many attempts one batch may take, and the fixed
/// delay before each further attempt.
#[derive(Clone, Copy, Debug, PartialEq, Eq, Structural)]
pub struct RetryPolicy {
    pub max_attempts: usize,
    pub backoff_secs: u64,
}

/// Where a batch stands in delivery.
#[derive(Clone, Copy, Debug, PartialEq, Eq, Structural)]
pub enum DeliveryState {
    /// Handed over, no attempt made yet.
    Pending,
    /// The attempt with this number, counted from one, is under way.
    Attempting(usize),
    /// Delivered; to be acknowledged.
    Success,
    /// Given up; the batch's events are lost to this sink.
    Failed,
}

/// What happened to a batch in delivery.
#[derive(Clone, Copy, Debug, PartialEq, Eq, Structural)]
pub enum DeliveryEvent {
    /// The service admitted the batch.
    Admitted,
    /// The attempt under way finished.
    Finished(AttemptOutcome),
}

/// What is to be done next for a batch.
#[derive(Clone, Copy, Debug, PartialEq, Eq, Structural)]
pub enum DeliveryAction {
    /// Send the request now.
    Send,
    /// Wait this many seconds, then send the same request again.
    RetryAfter(u64),
    /// Acknowledge the batch's events.
    Acknowledge,
    /// Drop the batch.
    GiveUp,
    /// Nothing: the event does not concern the batch in this state.
    Ignore,
}

/// The state that follows `state` on `event`, and the action to take.
pub open spec fn next(policy: RetryPolicy, state: DeliveryState, event: DeliveryEvent) -> (
    DeliveryState,
    DeliveryAction,
) {
    match (state, event) {
        (DeliveryState::Pending, DeliveryEvent::Admitted) => if policy.max_attempts >= 1 {
            (DeliveryState::Attempting(1), DeliveryAction::Send)
        } else {
            (DeliveryState::Failed, DeliveryAction::GiveUp)
        },
        (DeliveryState::Attempting(n), DeliveryEvent::Finished(outcome)) => match decision(
            outcome,
        ) {
            RetryDecision::Success => (DeliveryState::Success, DeliveryAction::Acknowledge),
            RetryDecision::FatalFailure(_) => (DeliveryState::Failed, DeliveryAction::GiveUp),
            RetryDecision::RetryableFailure(_) => if n < policy.max_attempts {
                (
                    DeliveryState::Attempting((n + 1) as usize),
                    DeliveryAction::RetryAfter(policy.backoff_secs),
                )
            } else {
                (DeliveryState::Failed, DeliveryAction::GiveUp)
            },
        },
        _ => (state, DeliveryAction::Ignore),
    }
}

/// Whether a state respects the policy: an attempt under way is numbered
/// from one up to the ceiling.
pub open spec fn within_ceiling(policy: RetryPolicy, state: DeliveryState) -> bool {
    state matches DeliveryState::Attempting(n) ==> 1 <= n <= policy.max_attempts
}

/// Whether a state respects the policy.
pub fn respects(policy: &RetryPolicy, state: DeliveryState) -> (r: bool)
    ensures
        r == within_ceiling(*policy, state),
{
    match state {
        DeliveryState::Attempting(n) => 1 <= n && n <= policy.max_attempts,
        _ => true,
    }
}

/// Whether a state is final.
pub open spec fn is_terminal(state: DeliveryState) -> bool {
    state is Success || state is Failed
}

/// Moves a batch one step along its life.
pub fn step(policy: &RetryPolicy, state: DeliveryState, event: DeliveryEvent) -> (r: (
    DeliveryState,
    DeliveryAction,
))
    requires
        within_ceiling(*policy, state),
    ensures
        r == next(*policy, state, event),
        within_ceiling(*policy, r.0),
{
    match (state, event) {
        (DeliveryState::Pending, DeliveryEvent::Admitted) => {
            if policy.max_attempts >= 1 {
                (DeliveryState::Attempting(1), DeliveryAction::Send)
            } else {
                (DeliveryState::Failed, DeliveryAction::GiveUp)
            }
        },
        (DeliveryState::Attempting(n), DeliveryEvent::Finished(outcome)) => {
            match classify(outcome) {
                RetryDecision::Success => (DeliveryState::Success, DeliveryAction::Acknowledge),
                RetryDecision::FatalFailure(_) => (DeliveryState::Failed, DeliveryAction::GiveUp),
                RetryDecision::RetryableFailure(_) => {
                    if n < policy.max_attempts {
                        (
                            DeliveryState::Attempting(n + 1),
                            DeliveryAction::RetryAfter(policy.backoff_secs),
                        )
                    } else {
                        (DeliveryState::Failed, DeliveryAction::GiveUp)
                    }
                },
            }
        },
        _ => (state, DeliveryAction::Ignore),
    }
}

/// The state of a batch after its attempts finished with `outcomes`, one
/// after the other.
pub open spec fn after_outcomes(
    policy: RetryPolicy,
    state: DeliveryState,
    outcomes: Seq<AttemptOutcome>,
) -> DeliveryState
    decreases outcomes.len(),
{
    if outcomes.len() == 0 {
        state
    } else {
        after_outcomes(
            policy,
            next(policy, state, DeliveryEvent::Finished(outcomes[0])).0,
            outcomes.drop_first(),
        )
    }
}

/// No step takes a batch beyond the ceiling of attempts: from a state that
/// respects the policy, every event leads to one that does.
pub proof fn lemma_attempts_never_exceed_ceiling(
    policy: RetryPolicy,
    state: DeliveryState,
    event: DeliveryEvent,
)
    requires
        within_ceiling(policy, state),
    ensures
        within_ceiling(policy, next(policy, state, event).0),
{
}

/// A final state stays: no event moves a batch out of success or failure,
/// and none asks for another action, so a batch is acknowledged at most once.
pub proof fn lemma_terminal_states_stay(
    policy: RetryPolicy,
    state: DeliveryState,
    event: DeliveryEvent,
)
    requires
        is_terminal(state),
    ensures
        next(policy, state, event) == (state, DeliveryAction::Ignore),
{
}

/// The acknowledgment is asked exactly on the step into success.
pub proof fn lemma_acknowledge_only_on_success(
    policy: RetryPolicy,
    state: DeliveryState,
    event: DeliveryEvent,
)
    ensures
        next(policy, state, event).1 == DeliveryAction::Acknowledge <==> (!is_terminal(state)
            && next(policy, state, event).0 is Success),
{
}

/// After failures that can all be retried, a batch whose attempt `n` was
/// under way is at attempt `n` plus their number while that stays within the
/// ceiling, and has failed once it would pass it: the attempt beyond the
/// ceiling is never made.
pub proof fn lemma_retries_stop_at_ceiling(
    policy: RetryPolicy,
    n: usize,
    outcomes: Seq<AttemptOutcome>,
)
    requires
        1 <= n <= policy.max_attempts,
        forall|i: int| 0 <= i < outcomes.len() ==> decision(outcomes[i]) is RetryableFailure,
    ensures
        after_outcomes(policy, DeliveryState::Attempting(n), outcomes) == (if n + outcomes.len()
            <= policy.max_attempts {
            DeliveryState::Attempting((n + outcomes.len()) as usize)
        } else {
            DeliveryState::Failed
        }),
    decreases outcomes.len(),
{
    if outcomes.len() > 0 {
        let rest = outcomes.drop_first();
        assert forall|i: int| 0 <= i < rest.len() implies decision(rest[i]) is RetryableFailure by {
            assert(rest[i] == outcomes[i + 1]);
        }
        assert(decision(outcomes[0]) is RetryableFailure);
        if n < policy.max_attempts {
            lemma_retries_stop_at_ceiling(policy, (n + 1) as usize, rest);
        } else {
            lemma_failed_stays(policy, rest);
        }
    }
}

/// Once failed, a batch stays failed whatever is reported of it.
pub proof fn lemma_failed_stays(policy: RetryPolicy, outcomes: Seq<AttemptOutcome>)
    ensures
        after_outcomes(policy, DeliveryState::Failed, outcomes) == DeliveryState::Failed,
    decreases outcomes.len(),
{
    if outcomes.len() > 0 {
        lemma_failed_stays(policy, outcomes.drop_first());
    }
}

} // verus!
