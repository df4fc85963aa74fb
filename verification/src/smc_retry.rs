use vstd::prelude::*;

verus! {

/// How long to wait after a failed AppleSMC connection attempt, and after
/// startup, before trying again, in milliseconds.
pub const SMC_RETRY_DELAY_MS: u64 = 30_000;

/// The schedule of AppleSMC reconnection attempts. Times are milliseconds on
/// a monotonic clock.
pub struct SmcRetry {
    next_retry_ms: u64,
}

impl SmcRetry {
    /// The earliest time of the next connection attempt.
    pub closed spec fn next_retry(&self) -> int {
        self.next_retry_ms as int
    }

    /// Whether an attempt is due at `now` for a client that is `connected`
    /// or not.
    pub open spec fn due_at(&self, connected: bool, now: int) -> bool {
        !connected && now >= self.next_retry()
    }

    /// The schedule at startup, when the first connection attempt was made at
    /// `now_ms` whatever its outcome.
    pub fn new(now_ms: u64) -> (r: Self)
        requires
            now_ms + SMC_RETRY_DELAY_MS <= u64::MAX,
        ensures
            r.next_retry() == now_ms + SMC_RETRY_DELAY_MS,
    {
        SmcRetry { next_retry_ms: now_ms + SMC_RETRY_DELAY_MS }
    }

    /// Whether to try to connect at `now_ms`: only without a connection, and
    /// not before the scheduled time.
    pub fn connect_due(&self, connected: bool, now_ms: u64) -> (due: bool)
        ensures
            due == self.due_at(connected, now_ms as int),
            due == (!connected && now_ms >= self.next_retry()),
    {
        !connected && now_ms >= self.next_retry_ms
    }

    /// Schedules the next attempt after the attempt at `now_ms` failed. An
    /// attempt made when it was due moves the next one later, never earlier.
    pub fn record_failure(&mut self, now_ms: u64)
        requires
            now_ms + SMC_RETRY_DELAY_MS <= u64::MAX,
        ensures
            final(self).next_retry() == now_ms + SMC_RETRY_DELAY_MS,
            now_ms >= old(self).next_retry() ==> final(self).next_retry() > old(self).next_retry(),
    {
        self.next_retry_ms = now_ms + SMC_RETRY_DELAY_MS;
    }
}

/// After a failed attempt at `failed_at`, no attempt is due within the next
/// thirty seconds; from then on one is due for as long as there is no
/// connection, and none while there is one.
pub proof fn lemma_retry_waits(after: SmcRetry, failed_at: int, now: int)
    requires
        after.next_retry() == failed_at + SMC_RETRY_DELAY_MS,
    ensures
        failed_at <= now < failed_at + SMC_RETRY_DELAY_MS ==> !after.due_at(false, now),
        now >= failed_at + SMC_RETRY_DELAY_MS ==> after.due_at(false, now),
        !after.due_at(true, now),
{
}

} // verus!
