//! The retry policy for rate-limited HTTP requests.
//!
//! A request helper that respects the hosting service's rate limits
//! alternates outside work (sending the request, sleeping) with decisions.
//! The decisions live here as a pure step function: given the current
//! exponential-backoff state and what a rate-limited response said, it
//! returns how long to sleep before retrying, or why to abandon the request.
//! The surrounding program performs the sleep and the resend.
//!
//! The unspecific backoff starts at one minute and doubles after each
//! rate-limited response that carries no specific guidance; once it reaches
//! the one-hour ceiling the request is abandoned. The retries are bounded
//! only by that ceiling, not by an attempt count: a server that keeps
//! supplying specific waits is obeyed indefinitely.

use vstd::prelude::*;

verus! {

/// The exponential-backoff state of a retrying request: the next unspecific
/// sleep, in seconds.
#[derive(Clone, Copy, Debug, PartialEq, Eq, Structural)]
pub struct Backoff {
    /// The sleep an unspecific rate-limit response would get, in seconds.
    pub current_secs: u64,
}

impl Backoff {
    /// The starting backoff of one minute.
    pub fn initial() -> (r: Backoff)
        ensures
            r.current_secs == 60,
    {
        Backoff { current_secs: 60 }
    }
}

/// The reset-timestamp header of a rate-limited response.
#[derive(Clone, Copy, Debug, PartialEq, Eq, Structural)]
pub enum ResetHeader {
    /// The header was absent.
    Missing,
    /// The header held a timestamp outside the representable range.
    OutOfRange,
    /// The header's timestamp, in seconds.
    At(i64),
}

/// What a rate-limited response told the caller, as plain values.
#[derive(Clone, Copy, Debug, PartialEq, Eq)]
pub struct RateLimitInfo {
    /// The server-specified wait in seconds, if the response carried one.
    pub retry_after_secs: Option<u64>,
    /// Whether the response said no requests remain in the current window.
    pub remaining_zero: bool,
    /// The reset-timestamp header, read when no requests remain.
    pub reset: ResetHeader,
    /// The current time, as a timestamp in seconds.
    pub now_timestamp: i64,
}

/// Why the retry loop abandons a rate-limited request.
#[derive(Clone, Copy, Debug, PartialEq, Eq, Structural)]
pub enum RetryFailure {
    /// No requests remain, but the response lacked the reset-timestamp
    /// header.
    MissingResetHeader,
    /// No requests remain, but the reset timestamp was out of range.
    InvalidResetTime,
    /// The unspecific backoff reached its ceiling; the rate-limit response
    /// stands as the request's failure.
    RateLimitPersisted,
}

/// The next step of the retry loop.
#[derive(Clone, Copy, Debug, PartialEq, Eq)]
pub enum RetryStep {
    /// Sleep for the given seconds, then retry under the new backoff state.
    Wait {
        /// How long to sleep before resending, in seconds.
        sleep_secs: u64,
        /// The backoff state for the next attempt.
        backoff: Backoff,
    },
    /// Abandon the request with the given failure.
    Fail(RetryFailure),
}

/// The retry decision for one rate-limited response: a server-specified wait
/// is obeyed as given; otherwise, when no requests remain, the wait runs to
/// the reset timestamp (or the retry is immediate when that has passed, and
/// the absent or unrepresentable header is an error); otherwise the
/// unspecific backoff is slept and doubled, until its ceiling of an hour
/// abandons the request.
pub open spec fn spec_retry_step(backoff: Backoff, info: RateLimitInfo) -> RetryStep {
    match info.retry_after_secs {
        Some(secs) => RetryStep::Wait { sleep_secs: secs, backoff },
        None => if info.remaining_zero {
            match info.reset {
                ResetHeader::Missing => RetryStep::Fail(RetryFailure::MissingResetHeader),
                ResetHeader::OutOfRange => RetryStep::Fail(RetryFailure::InvalidResetTime),
                ResetHeader::At(reset) => if reset > info.now_timestamp {
                    RetryStep::Wait {
                        sleep_secs: (reset - info.now_timestamp) as u64,
                        backoff,
                    }
                } else {
                    RetryStep::Wait { sleep_secs: 0, backoff }
                },
            }
        } else if backoff.current_secs >= 3600 {
            RetryStep::Fail(RetryFailure::RateLimitPersisted)
        } else {
            RetryStep::Wait {
                sleep_secs: backoff.current_secs,
                backoff: Backoff { current_secs: (backoff.current_secs * 2) as u64 },
            }
        },
    }
}

/// Decides the next step of the retry loop for one rate-limited response.
pub fn github_rate_limit_step(backoff: Backoff, info: &RateLimitInfo) -> (r: RetryStep)
    ensures
        r == spec_retry_step(backoff, *info),
{
    match info.retry_after_secs {
        Some(secs) => RetryStep::Wait { sleep_secs: secs, backoff },
        None => {
            if info.remaining_zero {
                match info.reset {
                    ResetHeader::Missing => RetryStep::Fail(RetryFailure::MissingResetHeader),
                    ResetHeader::OutOfRange => RetryStep::Fail(RetryFailure::InvalidResetTime),
                    ResetHeader::At(reset) => {
                        let delta = (reset as i128) - (info.now_timestamp as i128);
                        if delta > 0 {
                            RetryStep::Wait { sleep_secs: delta as u64, backoff }
                        } else {
                            RetryStep::Wait { sleep_secs: 0, backoff }
                        }
                    },
                }
            } else if backoff.current_secs >= 3600 {
                RetryStep::Fail(RetryFailure::RateLimitPersisted)
            } else {
                RetryStep::Wait {
                    sleep_secs: backoff.current_secs,
                    backoff: Backoff { current_secs: backoff.current_secs * 2 },
                }
            }
        },
    }
}

/// Whether an HTTP status is one of the rate-limit statuses the retry policy
/// handles: forbidden or too many requests.
pub fn is_rate_limit_status(status: u16) -> (r: bool)
    ensures
        r == (status == 403 || status == 429),
{
    status == 403 || status == 429
}

/// Once the unspecific backoff has reached its one-hour ceiling, a
/// rate-limited response without specific guidance abandons the request
/// rather than waiting again: the retries are bounded by the ceiling.
pub proof fn lemma_backoff_gives_up(backoff: Backoff, info: RateLimitInfo)
    requires
        info.retry_after_secs is None,
        !info.remaining_zero,
        backoff.current_secs >= 3600,
    ensures
        spec_retry_step(backoff, info) == RetryStep::Fail(RetryFailure::RateLimitPersisted),
{
}

} // verus!
