//! Admission to the delivery service: a bound on the requests in flight
//! and a bound on the requests per time window.

use vstd::prelude::*;

verus! {

/// Admits at most `limit` requests at a time.
#[derive(Clone, Copy, Debug, PartialEq, Eq)]
pub struct ConcurrencyLimiter {
    limit: usize,
    in_flight: usize,
}

impl ConcurrencyLimiter {
    #[verifier::type_invariant]
    spec fn within_limit(self) -> bool {
        self.in_flight <= self.limit
    }

    /// How many requests may be in flight at a time.
    pub closed spec fn limit(&self) -> usize {
        self.limit
    }

    /// How many requests are in flight.
    pub closed spec fn in_flight(&self) -> usize {
        self.in_flight
    }

    /// A limiter with nothing in flight.
    pub fn new(limit: usize) -> (r: ConcurrencyLimiter)
        ensures
            r.limit() == limit,
            r.in_flight() == 0,
    {
        ConcurrencyLimiter { limit, in_flight: 0 }
    }

    /// The limit.
    pub fn get_limit(&self) -> (r: usize)
        ensures
            r == self.limit(),
    {
        self.limit
    }

    /// How many requests are in flight; never more than the limit.
    pub fn current(&self) -> (r: usize)
        ensures
            r == self.in_flight(),
            r <= self.limit(),
    {
        proof {
            use_type_invariant(self);
        }
        self.in_flight
    }

    /// Admits one more request when fewer than the limit are in flight;
    /// otherwise the request has to wait and nothing changes.
    pub fn try_acquire(&mut self) -> (admitted: bool)
        ensures
            admitted == (old(self).in_flight() < old(self).limit()),
            final(self).limit() == old(self).limit(),
            final(self).in_flight() == old(self).in_flight() + (if admitted {
                1int
            } else {
                0int
            }),
            final(self).in_flight() <= final(self).limit(),
    {
        proof {
            use_type_invariant(&*self);
        }
        if self.in_flight < self.limit {
            self.in_flight = self.in_flight + 1;
            true
        } else {
            false
        }
    }

    /// Takes note that a request in flight has ended. Does nothing when none
    /// is in flight.
    pub fn release(&mut self)
        ensures
            final(self).limit() == old(self).limit(),
            final(self).in_flight() == (if old(self).in_flight() > 0 {
                old(self).in_flight() - 1
            } else {
                0int
            }),
    {
        proof {
            use_type_invariant(&*self);
        }
        if self.in_flight > 0 {
            self.in_flight = self.in_flight - 1;
        }
    }
}

/// Whether a request may start now or has to wait.
#[derive(Clone, Copy, Debug, PartialEq, Eq, Structural)]
pub enum Admission {
    Admitted,
    /// The window is used up; it ends at this time.
    WaitUntil(u64),
}

/// Admits at most `num` requests in each window of `per` time units.
#[derive(Clone, Copy, Debug, PartialEq, Eq)]
pub struct RateLimiter {
    num: u64,
    per: u64,
    until: u64,
    remaining: u64,
}

/// The end of a window that opens at `now`, held at the largest time when it
/// would pass it.
pub open spec fn window_end(now: u64, per: u64) -> u64 {
    if now + per <= u64::MAX {
        (now + per) as u64
    } else {
        u64::MAX
    }
}

impl RateLimiter {
    #[verifier::type_invariant]
    spec fn within_rate(self) -> bool {
        self.remaining <= self.num
    }

    /// How many requests one window admits.
    pub closed spec fn num(&self) -> u64 {
        self.num
    }

    /// The length of a window.
    pub closed spec fn per(&self) -> u64 {
        self.per
    }

    /// When the present window ends.
    pub closed spec fn until(&self) -> u64 {
        self.until
    }

    /// How many requests the present window still admits.
    pub closed spec fn remaining(&self) -> u64 {
        self.remaining
    }

    /// A limiter whose first window opens at `now`.
    pub fn new(num: u64, per: u64, now: u64) -> (r: RateLimiter)
        ensures
            r.num() == num,
            r.per() == per,
            r.until() == window_end(now, per),
            r.remaining() == num,
    {
        RateLimiter { num, per, until: now.saturating_add(per), remaining: num }
    }

    /// Asks to start a request at `now`. A window that has ended is replaced
    /// by a full one that opens at `now`; the request is admitted when the
    /// window still has room, and is told to wait for the window's end when
    /// it has none.
    pub fn try_acquire(&mut self, now: u64) -> (r: Admission)
        ensures
            final(self).num() == old(self).num(),
            final(self).per() == old(self).per(),
            final(self).remaining() <= final(self).num(),
            ({
                let renewed = now >= old(self).until();
                let until = if renewed {
                    window_end(now, old(self).per())
                } else {
                    old(self).until()
                };
                let room = if renewed {
                    old(self).num()
                } else {
                    old(self).remaining()
                };
                &&& final(self).until() == until
                &&& r == (if room > 0 {
                    Admission::Admitted
                } else {
                    Admission::WaitUntil(until)
                })
                &&& final(self).remaining() == (if room > 0 {
                    room - 1
                } else {
                    0int
                })
            }),
    {
        proof {
            use_type_invariant(&*self);
        }
        if now >= self.until {
            self.until = now.saturating_add(self.per);
            self.remaining = self.num;
        }
        if self.remaining > 0 {
            self.remaining = self.remaining - 1;
            Admission::Admitted
        } else {
            Admission::WaitUntil(self.until)
        }
    }
}

} // verus!
