//! DMA software reset: timeout arithmetic.
//!
//! The reset itself is a register poll with a delay between reads; the
//! polling loop lives with the code that owns the delay provider. This
//! module fixes how many polls a given timeout allows.

use vstd::prelude::*;

verus! {

/// Default soft-reset timeout (matches ESP-IDF).
pub const SOFT_RESET_TIMEOUT_MS: u32 = 100;

/// Polling interval while waiting for `DMABUSMODE.SWR` to self-clear.
pub const RESET_POLL_INTERVAL_US: u32 = 100;

/// Reset failure cause.
#[derive(Debug, Clone, Copy, PartialEq, Eq, Structural)]
pub enum ResetError {
    /// `DMABUSMODE.SWR` did not self-clear within the configured timeout.
    Timeout,
}

/// Reads of `DMABUSMODE.SWR` a timeout of `timeout_ms` allows: one per
/// [`RESET_POLL_INTERVAL_US`], capped at `u32::MAX`.
pub open spec fn spec_reset_poll_limit(timeout_ms: u32) -> int {
    if timeout_ms * 1000 / (RESET_POLL_INTERVAL_US as int) > u32::MAX {
        u32::MAX as int
    } else {
        timeout_ms * 1000 / (RESET_POLL_INTERVAL_US as int)
    }
}

/// The soft reset waits no longer than its timeout: every wait follows
/// a read that used up one of the [`spec_reset_poll_limit`] reads, so
/// the waits add up to at most `timeout_ms` milliseconds.
pub proof fn lemma_reset_waits_within_timeout(timeout_ms: u32)
    ensures
        spec_reset_poll_limit(timeout_ms) * RESET_POLL_INTERVAL_US <= timeout_ms * 1000,
{
    let t = timeout_ms * 1000;
    assert((t / 100) * 100 <= t) by (nonlinear_arith)
        requires
            t >= 0,
    ;
    if t / 100 > u32::MAX {
        assert(u32::MAX * 100 <= t) by (nonlinear_arith)
            requires
                t / 100 > u32::MAX,
                t >= 0,
        ;
    }
}

/// Number of `DMABUSMODE.SWR` polls that fit in `timeout_ms`, one poll
/// every [`RESET_POLL_INTERVAL_US`] microseconds.
///
/// Computed in 64 bits and clamped to `u32::MAX`, so timeouts past
/// ~4.3 s (where `timeout_ms * 1000` would wrap a `u32`) still give a
/// sane bound.
pub fn reset_poll_limit(timeout_ms: u32) -> (r: u32)
    ensures
        r == spec_reset_poll_limit(timeout_ms),
{
    let iters: u64 = (timeout_ms as u64) * 1000 / (RESET_POLL_INTERVAL_US as u64);
    if iters > (u32::MAX as u64) {
        u32::MAX
    } else {
        iters as u32
    }
}

/// What the reset routine does after one read of `DMABUSMODE.SWR`.
#[derive(Debug, Clone, Copy, PartialEq, Eq, Structural)]
pub enum ResetStep {
    /// The bit has cleared: the reset is complete.
    Done,
    /// Still in progress: wait this many microseconds, then read again
    /// if the poll budget allows.
    WaitUs(u32),
}

/// The soft-reset poll loop as a state machine: how many reads of
/// `DMABUSMODE.SWR` the timeout still allows, and what follows each
/// read. The code owning the delay provider sets the bit, then, while
/// [`may_poll`](Self::may_poll) holds, reads the bit and performs the
/// [`ResetStep`] that [`observe`](Self::observe) returns. Once the
/// budget is spent without the bit clearing, the reset has timed out
/// ([`ResetError::Timeout`]).
pub struct ResetPoll {
    polls_left: u32,
}

impl ResetPoll {
    /// Reads still allowed.
    pub closed spec fn spec_polls_left(&self) -> nat {
        self.polls_left as nat
    }

    /// A poll budget for `timeout_ms`: [`reset_poll_limit`] reads.
    pub fn new(timeout_ms: u32) -> (r: Self)
        ensures
            r.spec_polls_left() == spec_reset_poll_limit(timeout_ms),
    {
        Self { polls_left: reset_poll_limit(timeout_ms) }
    }

    /// Whether another read of the bit is allowed.
    pub fn may_poll(&self) -> (r: bool)
        ensures
            r == (self.spec_polls_left() > 0),
    {
        self.polls_left > 0
    }

    /// Account for one read of `DMABUSMODE.SWR`: a cleared bit ends the
    /// reset; a set bit uses up one read and asks for a
    /// [`RESET_POLL_INTERVAL_US`] wait.
    pub fn observe(&mut self, swr_set: bool) -> (r: ResetStep)
        requires
            old(self).spec_polls_left() > 0,
        ensures
            !swr_set ==> r == ResetStep::Done,
            !swr_set ==> final(self).spec_polls_left() == old(self).spec_polls_left(),
            swr_set ==> r == ResetStep::WaitUs(RESET_POLL_INTERVAL_US),
            swr_set ==> final(self).spec_polls_left() == old(self).spec_polls_left() - 1,
    {
        if !swr_set {
            return ResetStep::Done;
        }
        self.polls_left = self.polls_left - 1;
        ResetStep::WaitUs(RESET_POLL_INTERVAL_US)
    }
}

} // verus!
