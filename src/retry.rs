use crate::error::Fault;
use vstd::prelude::*;

verus! {

/// Calls to the completion service and the content store are tried at most
/// this many times.
pub const MAX_ATTEMPTS: u32 = 3;

/// The wait after the first failed attempt; each later wait doubles it.
pub const BASE_DELAY_MS: u64 = 500;

/// What to do after an attempt failed.
#[derive(Debug, Clone, Copy, PartialEq, Eq, Structural)]
pub enum RetryStep {
    RetryAfter(u64),
    GiveUp(Fault),
}

/// The wait after failed attempt `attempt` (counted from one).
pub open spec fn backoff_ms(attempt: nat) -> nat
    decreases attempt,
{
    if attempt <= 1 {
        BASE_DELAY_MS as nat
    } else {
        2 * backoff_ms((attempt - 1) as nat)
    }
}

/// Transient faults are retried with a doubling wait while attempts remain;
/// anything else, or the last attempt's fault, is given up on at once.
pub open spec fn retry_step(attempt: nat, fault: Fault) -> RetryStep {
    if fault.transient() && attempt < MAX_ATTEMPTS {
        RetryStep::RetryAfter(backoff_ms(attempt) as u64)
    } else {
        RetryStep::GiveUp(fault)
    }
}

/// Decides what follows failed attempt `attempt` (counted from one).
pub fn retry_decision(attempt: u32, fault: Fault) -> (r: RetryStep)
    requires
        1 <= attempt <= MAX_ATTEMPTS,
    ensures
        r == retry_step(attempt as nat, fault),
{
    if fault.is_transient() && attempt < MAX_ATTEMPTS {
        let mut delay: u64 = BASE_DELAY_MS;
        let mut k: u32 = 1;
        while k < attempt
            invariant
                1 <= k <= attempt < MAX_ATTEMPTS,
                delay as nat == backoff_ms(k as nat),
                delay <= 2 * BASE_DELAY_MS,
            decreases attempt - k,
        {
            delay = delay * 2;
            k = k + 1;
        }
        RetryStep::RetryAfter(delay)
    } else {
        RetryStep::GiveUp(fault)
    }
}

} // verus!
