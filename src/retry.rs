use vstd::prelude::*;

verus! {

pub open spec fn pow2(n: nat) -> nat
    decreases n,
{
    if n == 0 { 1 } else { 2 * pow2((n - 1) as nat) }
}

/// `base * 2^attempt`, saturated at `u64::MAX`.
pub open spec fn backoff_ms(base: u64, attempt: nat) -> nat {
    let d = base * pow2(attempt);
    if d > u64::MAX { u64::MAX as nat } else { d as nat }
}

/// What to do after a failed fetch.
#[derive(Clone, Copy, Debug, PartialEq, Eq, Structural)]
pub enum RetryStep {
    /// Sleep this many milliseconds, then try again.
    Wait(u64),
    /// Report the last failure.
    GiveUp,
}

/// After failed attempt number `attempt` (counting from 0): wait
/// `base_delay_ms * 2^attempt` while fewer than `max_retries` retries were
/// made, else give up.
pub fn next_retry(attempt: u64, max_retries: u64, base_delay_ms: u64) -> (r: RetryStep)
    ensures
        attempt < max_retries ==> r == RetryStep::Wait(backoff_ms(base_delay_ms, attempt as nat) as u64),
        attempt >= max_retries ==> r == RetryStep::GiveUp,
{
    if attempt >= max_retries {
        return RetryStep::GiveUp;
    }
    let mut d: u64 = base_delay_ms;
    let mut i: u64 = 0;
    assert(pow2(0) == 1);
    assert(base_delay_ms * pow2(0) == base_delay_ms);
    while i < attempt
        invariant
            i <= attempt,
            d as nat == backoff_ms(base_delay_ms, i as nat),
        decreases attempt - i,
    {
        proof {
            assert(pow2((i + 1) as nat) == 2 * pow2(i as nat));
            assert(base_delay_ms * pow2((i + 1) as nat) == 2 * (base_delay_ms * pow2(i as nat)))
                by (nonlinear_arith)
                requires
                    pow2((i + 1) as nat) == 2 * pow2(i as nat),
            ;
        }
        if d > u64::MAX / 2 {
            d = u64::MAX;
        } else {
            d = d * 2;
        }
        i = i + 1;
    }
    RetryStep::Wait(d)
}

} // verus!
