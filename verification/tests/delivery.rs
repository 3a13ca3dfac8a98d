use es_sink::config::RequestSettings;
use es_sink::limits::{Admission, ConcurrencyLimiter, RateLimiter};
use es_sink::retry::{
    classify, step, AttemptOutcome, DeliveryAction, DeliveryEvent, DeliveryState, Reason,
    RetryDecision, RetryPolicy,
};
use es_sink::service::{DeliveryService, Gate};

#[test]
fn classifies_statuses_and_transport_outcomes() {
    assert_eq!(RetryDecision::Success, classify(AttemptOutcome::Status(200)));
    assert_eq!(RetryDecision::Success, classify(AttemptOutcome::Status(201)));
    assert_eq!(RetryDecision::Success, classify(AttemptOutcome::Status(299)));
    assert_eq!(
        RetryDecision::RetryableFailure(Reason::TooManyRequests),
        classify(AttemptOutcome::Status(429))
    );
    assert_eq!(
        RetryDecision::RetryableFailure(Reason::ServerError(500)),
        classify(AttemptOutcome::Status(500))
    );
    assert_eq!(
        RetryDecision::RetryableFailure(Reason::ServerError(501)),
        classify(AttemptOutcome::Status(501))
    );
    assert_eq!(
        RetryDecision::RetryableFailure(Reason::ServerError(599)),
        classify(AttemptOutcome::Status(599))
    );
    assert_eq!(
        RetryDecision::RetryableFailure(Reason::TransportError),
        classify(AttemptOutcome::TransportError)
    );
    assert_eq!(RetryDecision::RetryableFailure(Reason::TimedOut), classify(AttemptOutcome::TimedOut));
    assert_eq!(RetryDecision::FatalFailure(Reason::Rejected(400)), classify(AttemptOutcome::Status(400)));
    assert_eq!(RetryDecision::FatalFailure(Reason::Rejected(404)), classify(AttemptOutcome::Status(404)));
    assert_eq!(RetryDecision::FatalFailure(Reason::Rejected(199)), classify(AttemptOutcome::Status(199)));
    assert_eq!(RetryDecision::FatalFailure(Reason::Rejected(300)), classify(AttemptOutcome::Status(300)));
    assert_eq!(RetryDecision::FatalFailure(Reason::Rejected(600)), classify(AttemptOutcome::Status(600)));
}

#[test]
fn classification_is_the_same_every_time() {
    for code in [0u16, 200, 204, 301, 400, 429, 500, 503, 999] {
        assert_eq!(classify(AttemptOutcome::Status(code)), classify(AttemptOutcome::Status(code)));
    }
}

#[test]
fn fourth_attempt_is_not_made_with_a_ceiling_of_three() {
    let policy = RetryPolicy { max_attempts: 3, backoff_secs: 2 };
    let failure = DeliveryEvent::Finished(AttemptOutcome::Status(503));

    let (state, action) = step(&policy, DeliveryState::Pending, DeliveryEvent::Admitted);
    assert_eq!((DeliveryState::Attempting(1), DeliveryAction::Send), (state, action));
    let (state, action) = step(&policy, state, failure);
    assert_eq!((DeliveryState::Attempting(2), DeliveryAction::RetryAfter(2)), (state, action));
    let (state, action) = step(&policy, state, failure);
    assert_eq!((DeliveryState::Attempting(3), DeliveryAction::RetryAfter(2)), (state, action));
    let (state, action) = step(&policy, state, failure);
    assert_eq!((DeliveryState::Failed, DeliveryAction::GiveUp), (state, action));
    let (state, action) = step(&policy, state, failure);
    assert_eq!((DeliveryState::Failed, DeliveryAction::Ignore), (state, action));
}

#[test]
fn success_after_retries_is_acknowledged_once() {
    let policy = RetryPolicy { max_attempts: usize::MAX, backoff_secs: 1 };
    let (state, _) = step(&policy, DeliveryState::Pending, DeliveryEvent::Admitted);
    let (state, action) = step(&policy, state, DeliveryEvent::Finished(AttemptOutcome::TimedOut));
    assert_eq!((DeliveryState::Attempting(2), DeliveryAction::RetryAfter(1)), (state, action));
    let (state, action) = step(&policy, state, DeliveryEvent::Finished(AttemptOutcome::Status(200)));
    assert_eq!((DeliveryState::Success, DeliveryAction::Acknowledge), (state, action));
    let (state, action) = step(&policy, state, DeliveryEvent::Finished(AttemptOutcome::Status(200)));
    assert_eq!((DeliveryState::Success, DeliveryAction::Ignore), (state, action));
    let (state, action) = step(&policy, state, DeliveryEvent::Admitted);
    assert_eq!((DeliveryState::Success, DeliveryAction::Ignore), (state, action));
}

#[test]
fn fatal_failure_ends_the_batch_at_once() {
    let policy = RetryPolicy { max_attempts: 5, backoff_secs: 1 };
    let (state, action) =
        step(&policy, DeliveryState::Attempting(1), DeliveryEvent::Finished(AttemptOutcome::Status(400)));
    assert_eq!((DeliveryState::Failed, DeliveryAction::GiveUp), (state, action));
}

#[test]
fn ceiling_of_zero_allows_no_attempt() {
    let policy = RetryPolicy { max_attempts: 0, backoff_secs: 1 };
    let (state, action) = step(&policy, DeliveryState::Pending, DeliveryEvent::Admitted);
    assert_eq!((DeliveryState::Failed, DeliveryAction::GiveUp), (state, action));
}

#[test]
fn events_that_do_not_concern_a_state_are_ignored() {
    let policy = RetryPolicy { max_attempts: 3, backoff_secs: 1 };
    let finished = DeliveryEvent::Finished(AttemptOutcome::Status(200));
    assert_eq!((DeliveryState::Pending, DeliveryAction::Ignore), step(&policy, DeliveryState::Pending, finished));
    assert_eq!(
        (DeliveryState::Attempting(2), DeliveryAction::Ignore),
        step(&policy, DeliveryState::Attempting(2), DeliveryEvent::Admitted)
    );
}

#[test]
fn concurrency_limiter_holds_the_limit() {
    let mut limiter = ConcurrencyLimiter::new(2);
    assert!(limiter.try_acquire());
    assert!(limiter.try_acquire());
    assert!(!limiter.try_acquire());
    assert_eq!(2, limiter.current());
    limiter.release();
    assert_eq!(1, limiter.current());
    assert!(limiter.try_acquire());
    limiter.release();
    limiter.release();
    limiter.release();
    assert_eq!(0, limiter.current());
    assert_eq!(2, limiter.get_limit());
    assert!(!ConcurrencyLimiter::new(0).try_acquire());
}

#[test]
fn rate_limiter_counts_requests_per_window() {
    let mut limiter = RateLimiter::new(2, 10, 100);
    assert_eq!(Admission::Admitted, limiter.try_acquire(100));
    assert_eq!(Admission::Admitted, limiter.try_acquire(105));
    assert_eq!(Admission::WaitUntil(110), limiter.try_acquire(109));
    assert_eq!(Admission::Admitted, limiter.try_acquire(110));
    assert_eq!(Admission::Admitted, limiter.try_acquire(111));
    assert_eq!(Admission::WaitUntil(120), limiter.try_acquire(119));
    assert_eq!(Admission::Admitted, limiter.try_acquire(500));
}

#[test]
fn rate_window_is_held_at_the_end_of_time() {
    let mut limiter = RateLimiter::new(1, 10, u64::MAX - 3);
    assert_eq!(Admission::Admitted, limiter.try_acquire(u64::MAX - 3));
    assert_eq!(Admission::WaitUntil(u64::MAX), limiter.try_acquire(u64::MAX - 1));
    assert_eq!(Admission::WaitUntil(u64::MAX), RateLimiter::new(0, 1, u64::MAX).try_acquire(u64::MAX));
}

fn request_settings() -> RequestSettings {
    RequestSettings {
        in_flight_limit: 2,
        timeout_secs: 60,
        rate_limit_duration_secs: 10,
        rate_limit_num: 3,
        retry_attempts: 2,
        retry_backoff_secs: 4,
    }
}

#[test]
fn service_consults_concurrency_before_rate() {
    let mut service = DeliveryService::new(&request_settings(), 0);
    assert_eq!(60, service.timeout_secs);
    assert_eq!(RetryPolicy { max_attempts: 2, backoff_secs: 4 }, service.policy);
    assert_eq!(Gate::Admitted, service.try_enter(0));
    assert_eq!(Gate::Admitted, service.try_enter(1));
    assert_eq!(Gate::Saturated, service.try_enter(2));
    assert_eq!(2, service.concurrency.current());

    let (state, action) = service.begin();
    assert_eq!((DeliveryState::Attempting(1), DeliveryAction::Send), (state, action));
    let (state, action) = service.finish(state, AttemptOutcome::Status(200));
    assert_eq!((DeliveryState::Success, DeliveryAction::Acknowledge), (state, action));
    assert_eq!(1, service.concurrency.current());

    assert_eq!(Gate::Admitted, service.try_enter(3));
    let (state, _) = service.finish(DeliveryState::Attempting(1), AttemptOutcome::Status(400));
    assert_eq!(DeliveryState::Failed, state);
    assert_eq!(1, service.concurrency.current());
    assert_eq!(Gate::WaitUntil(10), service.try_enter(4));
    assert_eq!(1, service.concurrency.current());
    assert_eq!(Gate::Admitted, service.try_enter(10));
}

#[test]
fn service_keeps_the_slot_across_retries() {
    let mut service = DeliveryService::new(&request_settings(), 0);
    assert_eq!(Gate::Admitted, service.try_enter(0));
    let (state, _) = service.begin();
    let (state, action) = service.finish(state, AttemptOutcome::TransportError);
    assert_eq!((DeliveryState::Attempting(2), DeliveryAction::RetryAfter(4)), (state, action));
    assert_eq!(1, service.concurrency.current());
    let (state, action) = service.finish(state, AttemptOutcome::TimedOut);
    assert_eq!((DeliveryState::Failed, DeliveryAction::GiveUp), (state, action));
    assert_eq!(0, service.concurrency.current());
    let (state, action) = service.finish(state, AttemptOutcome::Status(200));
    assert_eq!((DeliveryState::Failed, DeliveryAction::Ignore), (state, action));
    assert_eq!(0, service.concurrency.current());
}
