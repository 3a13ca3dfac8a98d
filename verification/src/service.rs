//! The delivery service: admission of batches under the concurrency and
//! rate limits, and the attempts of each admitted batch under the retry
//! policy.

use crate::config::RequestSettings;
use crate::limits::{window_end, Admission, ConcurrencyLimiter, RateLimiter};
use crate::retry::{
    is_terminal, next, step, within_ceiling, AttemptOutcome, DeliveryAction, DeliveryEvent,
    DeliveryState, RetryPolicy,
};
use vstd::prelude::*;

verus! {

/// Whether a batch may enter the service now.
#[derive(Clone, Copy, Debug, PartialEq, Eq, Structural)]
pub enum Gate {
    /// The batch is admitted and holds a slot until it is settled.
    Admitted,
    /// As many batches as the limit allows are in flight: wait for one to
    /// be settled.
    Saturated,
    /// The rate window is used up: wait until it ends, at this time.
    WaitUntil(u64),
}

/// The delivery service.
pub struct DeliveryService {
    pub policy: RetryPolicy,
    pub timeout_secs: u64,
    pub concurrency: ConcurrencyLimiter,
    pub rate: RateLimiter,
}

impl DeliveryService {
    /// The service with the configured limits, idle, its first rate window
    /// opening at `now`.
    pub fn new(settings: &RequestSettings, now: u64) -> (r: DeliveryService)
        ensures
            r.policy == (RetryPolicy {
                max_attempts: settings.retry_attempts,
                backoff_secs: settings.retry_backoff_secs,
            }),
            r.timeout_secs == settings.timeout_secs,
            r.concurrency.limit() == settings.in_flight_limit,
            r.concurrency.in_flight() == 0,
            r.rate.num() == settings.rate_limit_num,
            r.rate.per() == settings.rate_limit_duration_secs,
            r.rate.remaining() == settings.rate_limit_num,
            r.rate.until() == window_end(now, settings.rate_limit_duration_secs),
    {
        DeliveryService {
            policy: RetryPolicy {
                max_attempts: settings.retry_attempts,
                backoff_secs: settings.retry_backoff_secs,
            },
            timeout_secs: settings.timeout_secs,
            concurrency: ConcurrencyLimiter::new(settings.in_flight_limit),
            rate: RateLimiter::new(
                settings.rate_limit_num,
                settings.rate_limit_duration_secs,
                now,
            ),
        }
    }

    /// Asks to let one batch in at `now`. The concurrency limit is consulted
    /// first: with every slot taken the batch has to wait and nothing
    /// changes. Then the rate limit: with room in the window the batch is
    /// admitted and takes a slot; without, it waits for the window's end and
    /// takes none.
    pub fn try_enter(&mut self, now: u64) -> (r: Gate)
        ensures
            final(self).policy == old(self).policy,
            final(self).timeout_secs == old(self).timeout_secs,
            final(self).concurrency.limit() == old(self).concurrency.limit(),
            final(self).concurrency.in_flight() <= final(self).concurrency.limit(),
            final(self).rate.num() == old(self).rate.num(),
            final(self).rate.per() == old(self).rate.per(),
            old(self).concurrency.in_flight() >= old(self).concurrency.limit() ==> r
                == Gate::Saturated && final(self).concurrency.in_flight() == old(
                self,
            ).concurrency.in_flight() && final(self).rate.until() == old(self).rate.until()
                && final(self).rate.remaining() == old(self).rate.remaining(),
            old(self).concurrency.in_flight() < old(self).concurrency.limit() ==> ({
                let renewed = now >= old(self).rate.until();
                let until = if renewed {
                    window_end(now, old(self).rate.per())
                } else {
                    old(self).rate.until()
                };
                let room = if renewed {
                    old(self).rate.num()
                } else {
                    old(self).rate.remaining()
                };
                &&& final(self).rate.until() == until
                &&& room > 0 ==> r == Gate::Admitted && final(self).concurrency.in_flight() == old(
                    self,
                ).concurrency.in_flight() + 1 && final(self).rate.remaining() == room - 1
                &&& room == 0 ==> r == Gate::WaitUntil(until) && final(self).concurrency.in_flight()
                    == old(self).concurrency.in_flight() && final(self).rate.remaining() == 0
            }),
    {
        if self.concurrency.current() >= self.concurrency_limit() {
            return Gate::Saturated;
        }
        match self.rate.try_acquire(now) {
            Admission::Admitted => {
                let taken = self.concurrency.try_acquire();
                assert(taken);
                Gate::Admitted
            },
            Admission::WaitUntil(t) => Gate::WaitUntil(t),
        }
    }

    fn concurrency_limit(&self) -> (r: usize)
        ensures
            r == self.concurrency.limit(),
    {
        self.concurrency.get_limit()
    }

    /// The first step of an admitted batch: its first attempt, or failure
    /// at once under a policy that allows no attempt. In that case, as at
    /// every final state, the batch's slot is given back.
    pub fn begin(&mut self) -> (r: (DeliveryState, DeliveryAction))
        ensures
            r == next(old(self).policy, DeliveryState::Pending, DeliveryEvent::Admitted),
            within_ceiling(old(self).policy, r.0),
            final(self).policy == old(self).policy,
            final(self).timeout_secs == old(self).timeout_secs,
            final(self).rate == old(self).rate,
            final(self).concurrency.limit() == old(self).concurrency.limit(),
            final(self).concurrency.in_flight() == (if is_terminal(r.0) && old(
                self,
            ).concurrency.in_flight() > 0 {
                old(self).concurrency.in_flight() - 1
            } else {
                old(self).concurrency.in_flight() as int
            }),
    {
        let r = step(&self.policy, DeliveryState::Pending, DeliveryEvent::Admitted);
        if is_final(r.0) {
            self.concurrency.release();
        }
        r
    }

    /// Takes note of how the attempt under way ended and says what follows:
    /// acknowledgment on success, the same request again after the fixed
    /// delay on a failure that can be retried and leaves attempts, giving up
    /// otherwise. On the step into a final state the batch's slot is given
    /// back.
    pub fn finish(&mut self, state: DeliveryState, outcome: AttemptOutcome) -> (r: (
        DeliveryState,
        DeliveryAction,
    ))
        requires
            within_ceiling(old(self).policy, state),
        ensures
            r == next(old(self).policy, state, DeliveryEvent::Finished(outcome)),
            within_ceiling(old(self).policy, r.0),
            final(self).policy == old(self).policy,
            final(self).timeout_secs == old(self).timeout_secs,
            final(self).rate == old(self).rate,
            final(self).concurrency.limit() == old(self).concurrency.limit(),
            final(self).concurrency.in_flight() == (if !is_terminal(state) && is_terminal(r.0)
                && old(self).concurrency.in_flight() > 0 {
                old(self).concurrency.in_flight() - 1
            } else {
                old(self).concurrency.in_flight() as int
            }),
    {
        let r = step(&self.policy, state, DeliveryEvent::Finished(outcome));
        if !is_final(state) && is_final(r.0) {
            self.concurrency.release();
        }
        r
    }
}

/// Whether a state is final.
pub fn is_final(state: DeliveryState) -> (r: bool)
    ensures
        r == is_terminal(state),
{
    match state {
        DeliveryState::Success => true,
        DeliveryState::Failed => true,
        _ => false,
    }
}

} // verus!
