use vstd::prelude::*;

verus! {

/// How many times one resolution (fetch a stream URL, then verify it is
/// reachable) may be attempted before it counts as failed.
pub const RESOLVE_MAX_ATTEMPTS: u8 = 3;

/// The delay before the second attempt, in milliseconds; it doubles after
/// every further failure.
pub const RESOLVE_INITIAL_DELAY_MS: u64 = 1000;

/// The timeout of a single network request, in seconds, independent of
/// the retry loop around it.
pub const RESOLVE_TIMEOUT_SECS: u64 = 5;

/// The backoff delay after `failures` failed attempts: the initial delay
/// doubled `failures` times.
pub open spec fn backoff_delay_ms(failures: int) -> int
    decreases failures,
{
    if failures <= 0 {
        RESOLVE_INITIAL_DELAY_MS as int
    } else {
        2 * backoff_delay_ms(failures - 1)
    }
}

/// The retry bookkeeping of one resolution: which attempt is underway and
/// how long to wait before the next one.  The caller performs the actual
/// fetch and verification; it reports each failure here and is told
/// whether (and after what delay) to try again.
#[derive(Clone, Copy, Debug, PartialEq, Eq, Structural)]
pub struct ResolveSession {
    pub attempt: u8,
    pub delay_ms: u64,
}

impl ResolveSession {
    /// The session invariant: the attempt counter is in range and the
    /// stored delay is the backoff for the failures seen so far.
    pub open spec fn wf(self) -> bool {
        &&& 1 <= self.attempt <= RESOLVE_MAX_ATTEMPTS
        &&& self.delay_ms == backoff_delay_ms(self.attempt - 1)
    }

    /// A session about to make its first attempt.
    pub fn new() -> (s: Self)
        ensures
            s.wf(),
            s.attempt == 1,
            s.delay_ms == RESOLVE_INITIAL_DELAY_MS,
    {
        ResolveSession { attempt: 1, delay_ms: RESOLVE_INITIAL_DELAY_MS }
    }

    /// Records a failed attempt (a failed fetch or a failed
    /// verification alike).  Returns the delay to sleep before retrying,
    /// or `None` when the attempt budget is spent and the resolution
    /// counts as failed.
    pub fn on_attempt_failed(&mut self) -> (r: Option<u64>)
        requires
            old(self).wf(),
        ensures
            final(self).wf(),
            old(self).attempt < RESOLVE_MAX_ATTEMPTS ==> {
                &&& r == Some(old(self).delay_ms)
                &&& final(self).attempt == old(self).attempt + 1
                &&& final(self).delay_ms == 2 * old(self).delay_ms
            },
            old(self).attempt >= RESOLVE_MAX_ATTEMPTS ==> r is None && *final(self) == *old(self),
    {
        if self.attempt < RESOLVE_MAX_ATTEMPTS {
            let d = self.delay_ms;
            proof {
                lemma_backoff_delay_bounded(self.attempt - 1);
            }
            self.attempt = self.attempt + 1;
            self.delay_ms = 2 * self.delay_ms;
            Some(d)
        } else {
            None
        }
    }
}

/// The backoff delay stays small: with at most two doublings it never
/// exceeds four seconds.
pub proof fn lemma_backoff_delay_bounded(failures: int)
    requires
        failures <= 2,
    ensures
        backoff_delay_ms(failures) <= 4000,
{
    if failures <= 0 {
    } else if failures == 1 {
        assert(backoff_delay_ms(0) == 1000);
    } else {
        assert(backoff_delay_ms(1) == 2 * backoff_delay_ms(0));
        assert(backoff_delay_ms(0) == 1000);
    }
}

} // verus!
