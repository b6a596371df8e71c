use vstd::prelude::*;

verus! {

/// The longest a health check waits for its answer, in nanoseconds.
pub const HEALTH_TIMEOUT_NANOS: u128 = 500_000_000;

/// The response time above which an answer counts as slow, in nanoseconds.
pub const SLOW_RESPONSE_NANOS: u128 = 100_000_000;

/// What came of one health check.
pub enum HealthProbe {
    /// The service answered after this many nanoseconds.
    Answered { elapsed_nanos: u128 },
    /// The service answered with a failure.
    Failed,
    /// The time limit passed without an answer.
    TimedOut,
}

/// What a health check says of the service.
#[derive(Debug, PartialEq, Eq, Clone, Copy)]
pub enum Health {
    /// An answer in good time.
    Normal,
    /// An answer, but a late one: the service may be overloaded.
    Slow,
    /// The request failed.
    Failed,
    /// No answer in time: the service may be blocked.
    TimedOut,
}

/// The verdict on a response time: slow above a tenth of a second.
pub open spec fn response_class(elapsed_nanos: u128) -> Health {
    if elapsed_nanos > SLOW_RESPONSE_NANOS {
        Health::Slow
    } else {
        Health::Normal
    }
}

/// Judges a response time.
pub fn classify_response_time(elapsed_nanos: u128) -> (r: Health)
    ensures
        r == response_class(elapsed_nanos),
{
    if elapsed_nanos > SLOW_RESPONSE_NANOS {
        Health::Slow
    } else {
        Health::Normal
    }
}

/// Judges a health check.
pub fn assess(probe: HealthProbe) -> (r: Health)
    ensures
        r == match probe {
            HealthProbe::Answered { elapsed_nanos } => response_class(elapsed_nanos),
            HealthProbe::Failed => Health::Failed,
            HealthProbe::TimedOut => Health::TimedOut,
        },
{
    match probe {
        HealthProbe::Answered { elapsed_nanos } => classify_response_time(elapsed_nanos),
        HealthProbe::Failed => Health::Failed,
        HealthProbe::TimedOut => Health::TimedOut,
    }
}

} // verus!
