//! Rate limiting of a diagnostic message that may repeat on every request.
use vstd::prelude::*;

verus! {

/// The least time, in milliseconds, between two emitted log lines.
pub const MIN_LOG_INTERVAL_MILLIS: u64 = 60000;

/// Whether a log line was written or held back.
#[derive(Debug, Clone, Copy, PartialEq, Eq, Structural)]
pub enum LogStatus {
    Emitted,
    Ignored,
}

/// Emit at `now` when nothing was emitted yet, or the last line is at least the interval old.
/// A clock reading earlier than the last emission counts as no time elapsed.
pub open spec fn may_emit(last_emitted: Option<u64>, now: u64) -> bool {
    match last_emitted {
        None => true,
        Some(t) => now >= t && now - t >= MIN_LOG_INTERVAL_MILLIS,
    }
}

/// The time of the last emitted line, in milliseconds on a monotonic clock of the caller's.
pub struct LogThrottle {
    pub last_emitted: Option<u64>,
}

impl LogThrottle {
    /// A throttle that has emitted nothing yet.
    pub fn new() -> (r: LogThrottle)
        ensures
            r.last_emitted is None,
    {
        LogThrottle { last_emitted: None }
    }

    /// Decides whether a line may be written at `now`, and records `now` when it may.
    pub fn try_emit(&mut self, now: u64) -> (r: LogStatus)
        ensures
            may_emit(old(self).last_emitted, now) ==> r == LogStatus::Emitted
                && final(self).last_emitted == Some(now),
            !may_emit(old(self).last_emitted, now) ==> r == LogStatus::Ignored
                && final(self).last_emitted == old(self).last_emitted,
    {
        let emit = match self.last_emitted {
            None => true,
            Some(t) => now >= t && now - t >= MIN_LOG_INTERVAL_MILLIS,
        };
        if emit {
            self.last_emitted = Some(now);
            LogStatus::Emitted
        } else {
            LogStatus::Ignored
        }
    }
}

/// Of two attempts less than the interval apart on a fresh throttle, the first is emitted and
/// the second held back.
pub proof fn two_close_attempts_emit_once(t1: u64, t2: u64)
    requires
        t1 <= t2,
        t2 - t1 < MIN_LOG_INTERVAL_MILLIS,
    ensures
        may_emit(None, t1),
        !may_emit(Some(t1), t2),
{
}

} // verus!
