//! Retry with exponential backoff.
//!
//! [`with_retry`] executes an operation, retrying on retryable failures
//! with exponential backoff up to a bounded attempt count. The operation
//! is a function value that receives the attempt index (starting at 0)
//! and the backoff delay, in milliseconds, that is owed before that
//! attempt; it reports each attempt's outcome as a success or a raw
//! backend failure. The final failure is classified into the closed
//! error taxonomy.
//!
//! The contract of [`with_retry`] exposes the whole run as a trace of
//! attempt outcomes: every outcome is one the operation admits, every
//! outcome but the last is a retryable failure, the loop stops early only
//! on a success or a non-retryable failure, and the result reflects the
//! last outcome. The lemmas at the end of the module draw the attempt
//! counts from that trace.

use vstd::prelude::*;
use vstd::arithmetic::mul::lemma_mul_inequality;
use vstd::arithmetic::power2::lemma2_to64;
use vstd::arithmetic::power2::lemma_pow2_strictly_increases;
use vstd::arithmetic::power2::pow2;

use crate::errors::classify_error;
use crate::errors::is_retryable_error;
use crate::errors::spec_classify;
use crate::errors::spec_is_retryable;
use crate::errors::ClickHouseError;
use crate::errors::RawError;

verus! {

/// The retry policy: an operation is attempted at most `max_retries + 1`
/// times, and attempt `k` (k >= 1) waits `base_delay_ms * 2^(k-1)`
/// milliseconds first.
#[derive(Clone, Copy, Debug, PartialEq, Eq)]
pub struct RetryPolicy {
    pub max_retries: u32,
    pub base_delay_ms: u64,
}

/// The backoff delay owed before attempt `k`: none before the first
/// attempt, and exactly `base_delay_ms * 2^(k-1)` milliseconds before
/// attempt `k >= 1`.
pub open spec fn spec_backoff_ms(policy: RetryPolicy, attempt: nat) -> nat {
    if attempt == 0 {
        0
    } else {
        (policy.base_delay_ms * pow2((attempt - 1) as nat)) as nat
    }
}

/// A policy whose every backoff delay fits in a `u64` and whose exponent
/// never exceeds the width of the doubling that computes it.
pub open spec fn policy_wf(policy: RetryPolicy) -> bool {
    policy.max_retries == 0 || (policy.max_retries <= 32 && spec_backoff_ms(
        policy,
        policy.max_retries as nat,
    ) <= u64::MAX)
}

/// Backoff delays never shrink as the attempt index grows.
pub proof fn lemma_backoff_monotone(policy: RetryPolicy, a: nat, b: nat)
    requires
        a <= b,
    ensures
        spec_backoff_ms(policy, a) <= spec_backoff_ms(policy, b),
{
    if a == 0 {
    } else if a < b {
        lemma_pow2_strictly_increases((a - 1) as nat, (b - 1) as nat);
        let p1 = pow2((a - 1) as nat);
        let p2 = pow2((b - 1) as nat);
        let base = policy.base_delay_ms as nat;
        assert(base * p1 <= base * p2) by (nonlinear_arith)
            requires
                p1 <= p2,
        ;
    }
}

/// The backoff delay before attempt `attempt` (attempt >= 1):
/// exactly `base_delay_ms * 2^(attempt - 1)` milliseconds.
pub fn backoff_delay_ms(policy: &RetryPolicy, attempt: u32) -> (r: u64)
    requires
        policy_wf(*policy),
        1 <= attempt <= policy.max_retries,
    ensures
        r == spec_backoff_ms(*policy, attempt as nat),
        r == policy.base_delay_ms * pow2((attempt - 1) as nat),
{
    let e = attempt - 1;
    let mut p: u64 = 1;
    let mut k: u32 = 0;
    proof {
        lemma2_to64();
    }
    while k < e
        invariant
            e <= 31,
            0 <= k <= e,
            p == pow2(k as nat),
        decreases e - k,
    {
        proof {
            lemma2_to64();
            if (k as nat) < 31 {
                lemma_pow2_strictly_increases(k as nat, 31);
            }
        }
        p = p * 2;
        k = k + 1;
    }
    proof {
        lemma_backoff_monotone(*policy, attempt as nat, policy.max_retries as nat);
        lemma_mul_inequality(1, pow2((attempt - 1) as nat) as int, policy.base_delay_ms as int);
    }
    policy.base_delay_ms * p
}

/// What a run of [`with_retry`] may look like: `trace` is the sequence of
/// attempt outcomes, each one the operation admits for its attempt index
/// and owed delay; every outcome before the last is a retryable failure;
/// the run stops before exhausting the budget only on a success or a
/// non-retryable failure; and `r` reflects the last outcome, a failure
/// classified into the closed taxonomy.
pub open spec fn valid_retry_trace<T, F: Fn(u32, u64) -> Result<T, RawError>>(
    policy: RetryPolicy,
    op: F,
    trace: Seq<Result<T, RawError>>,
    r: Result<T, ClickHouseError>,
) -> bool {
    &&& 1 <= trace.len() <= policy.max_retries + 1
    &&& forall|k: int|
        0 <= k < trace.len() ==> call_ensures(
            op,
            (k as u32, spec_backoff_ms(policy, k as nat) as u64),
            #[trigger] trace[k],
        )
    &&& forall|k: int|
        0 <= k < trace.len() - 1 ==> ((#[trigger] trace[k]) matches Err(e) && spec_is_retryable(e))
    &&& (trace.len() < policy.max_retries + 1 ==> !(trace.last() matches Err(e)
        && spec_is_retryable(e)))
    &&& match trace.last() {
        Ok(v) => r == Result::<T, ClickHouseError>::Ok(v),
        Err(e) => r matches Err(ce) && ce@ == spec_classify(e),
    }
}

/// Executes `op`, retrying on retryable failures with exponential backoff,
/// `policy.max_retries + 1` attempts at most. `op` is invoked with the
/// attempt index and the backoff delay owed before that attempt. A success
/// returns immediately; a failure on the last permitted attempt, or one
/// that is not retryable, stops the loop and is classified into the closed
/// taxonomy. The whole run is described by a valid retry trace.
pub fn with_retry<T, F: Fn(u32, u64) -> Result<T, RawError>>(policy: &RetryPolicy, op: F) -> (r:
    Result<T, ClickHouseError>)
    requires
        policy_wf(*policy),
        forall|k: u32, d: u64|
            0 <= k <= policy.max_retries && d == spec_backoff_ms(*policy, k as nat)
                ==> call_requires(op, (k, d)),
    ensures
        exists|trace: Seq<Result<T, RawError>>| #[trigger] valid_retry_trace(*policy, op, trace, r),
{
    let mut attempt: u32 = 0;
    let ghost mut trace: Seq<Result<T, RawError>> = Seq::empty();
    loop
        invariant
            policy_wf(*policy),
            forall|k: u32, d: u64|
                0 <= k <= policy.max_retries && d == spec_backoff_ms(*policy, k as nat)
                    ==> call_requires(op, (k, d)),
            0 <= attempt <= policy.max_retries,
            trace.len() == attempt,
            forall|k: int|
                0 <= k < trace.len() ==> call_ensures(
                    op,
                    (k as u32, spec_backoff_ms(*policy, k as nat) as u64),
                    #[trigger] trace[k],
                ),
            forall|k: int|
                0 <= k < trace.len() ==> ((#[trigger] trace[k]) matches Err(e)
                    && spec_is_retryable(e)),
        decreases policy.max_retries - attempt,
    {
        let delay: u64 = if attempt == 0 {
            0
        } else {
            backoff_delay_ms(policy, attempt)
        };
        proof {
            lemma_backoff_monotone(*policy, attempt as nat, policy.max_retries as nat);
        }
        let res = op(attempt, delay);
        proof {
            trace = trace.push(res);
        }
        match res {
            Ok(v) => {
                let r = Result::<T, ClickHouseError>::Ok(v);
                assert(valid_retry_trace(*policy, op, trace, r));
                return r;
            },
            Err(e) => {
                if attempt == policy.max_retries {
                    let r = Result::<T, ClickHouseError>::Err(classify_error(e));
                    assert(valid_retry_trace(*policy, op, trace, r));
                    return r;
                }
                if !is_retryable_error(&e) {
                    let r = Result::<T, ClickHouseError>::Err(classify_error(e));
                    assert(valid_retry_trace(*policy, op, trace, r));
                    return r;
                }
                attempt = attempt + 1;
            },
        }
    }
}

/// An operation that can only fail with a retryable failure is attempted
/// exactly `max_retries + 1` times, and the run fails.
pub proof fn lemma_retry_exhausts_budget<T, F: Fn(u32, u64) -> Result<T, RawError>>(
    policy: RetryPolicy,
    op: F,
    trace: Seq<Result<T, RawError>>,
    r: Result<T, ClickHouseError>,
)
    requires
        valid_retry_trace(policy, op, trace, r),
        forall|args: (u32, u64), y: Result<T, RawError>|
            #[trigger] call_ensures(op, args, y) ==> (y matches Err(e) && spec_is_retryable(e)),
    ensures
        trace.len() == policy.max_retries + 1,
        r is Err,
{
    assert(call_ensures(
        op,
        ((trace.len() - 1) as u32, spec_backoff_ms(policy, (trace.len() - 1) as nat) as u64),
        trace.last(),
    ));
}

/// An operation that can only fail with a failure that is not retryable
/// is attempted exactly once, and the run fails.
pub proof fn lemma_retry_stops_on_nonretryable<T, F: Fn(u32, u64) -> Result<T, RawError>>(
    policy: RetryPolicy,
    op: F,
    trace: Seq<Result<T, RawError>>,
    r: Result<T, ClickHouseError>,
)
    requires
        valid_retry_trace(policy, op, trace, r),
        forall|args: (u32, u64), y: Result<T, RawError>|
            #[trigger] call_ensures(op, args, y) ==> (y matches Err(e) && !spec_is_retryable(e)),
    ensures
        trace.len() == 1,
        r is Err,
{
    if trace.len() > 1 {
        assert(call_ensures(
            op,
            (0u32, spec_backoff_ms(policy, 0) as u64),
            trace[0],
        ));
    }
    assert(call_ensures(
        op,
        ((trace.len() - 1) as u32, spec_backoff_ms(policy, (trace.len() - 1) as nat) as u64),
        trace.last(),
    ));
}

/// A success short-circuits the loop: no attempt follows a successful
/// one, and the run returns that success.
pub proof fn lemma_retry_success_short_circuits<T, F: Fn(u32, u64) -> Result<T, RawError>>(
    policy: RetryPolicy,
    op: F,
    trace: Seq<Result<T, RawError>>,
    r: Result<T, ClickHouseError>,
    k: int,
)
    requires
        valid_retry_trace(policy, op, trace, r),
        0 <= k < trace.len(),
        trace[k] is Ok,
    ensures
        k == trace.len() - 1,
        trace[k] matches Ok(v) && r == Result::<T, ClickHouseError>::Ok(v),
{
}

/// An operation that fails retryably on every attempt before `k` and
/// succeeds on attempt `k` within the budget is attempted exactly `k + 1`
/// times, and the run returns its success.
pub proof fn lemma_retry_success_at_attempt<T, F: Fn(u32, u64) -> Result<T, RawError>>(
    policy: RetryPolicy,
    op: F,
    trace: Seq<Result<T, RawError>>,
    r: Result<T, ClickHouseError>,
    k: u32,
)
    requires
        valid_retry_trace(policy, op, trace, r),
        k <= policy.max_retries,
        forall|args: (u32, u64), y: Result<T, RawError>|
            #[trigger] call_ensures(op, args, y) && args.0 < k ==> (y matches Err(e)
                && spec_is_retryable(e)),
        forall|args: (u32, u64), y: Result<T, RawError>|
            #[trigger] call_ensures(op, args, y) && args.0 == k ==> y is Ok,
    ensures
        trace.len() == k + 1,
        r is Ok,
{
    if trace.len() <= k {
        assert(call_ensures(
            op,
            ((trace.len() - 1) as u32, spec_backoff_ms(policy, (trace.len() - 1) as nat) as u64),
            trace.last(),
        ));
    } else {
        assert(call_ensures(op, (k, spec_backoff_ms(policy, k as nat) as u64), trace[k as int]));
    }
}

/// The documented default policy: three retries with a 100 ms base delay.
pub fn default_retry_policy() -> (r: RetryPolicy)
    ensures
        r.max_retries == 3,
        r.base_delay_ms == 100,
        policy_wf(r),
{
    let r = RetryPolicy { max_retries: 3, base_delay_ms: 100 };
    proof {
        lemma2_to64();
    }
    r
}

/// Builds a policy from a configuration. It is accepted exactly when
/// every backoff delay it calls for can be computed: no more than 32
/// retries, with the largest delay fitting a `u64`.
pub fn make_policy(max_retries: u32, base_delay_ms: u64) -> (r: Option<RetryPolicy>)
    ensures
        r matches Some(p) ==> p == (RetryPolicy { max_retries, base_delay_ms }),
        r is Some <==> policy_wf(RetryPolicy { max_retries, base_delay_ms }),
{
    let p = RetryPolicy { max_retries, base_delay_ms };
    if max_retries == 0 {
        return Some(p);
    }
    if max_retries > 32 {
        return None;
    }
    let e = max_retries - 1;
    let mut pw: u64 = 1;
    let mut k: u32 = 0;
    proof {
        lemma2_to64();
    }
    while k < e
        invariant
            e <= 31,
            0 <= k <= e,
            pw == pow2(k as nat),
        decreases e - k,
    {
        proof {
            lemma2_to64();
            if (k as nat) < 31 {
                lemma_pow2_strictly_increases(k as nat, 31);
            }
        }
        pw = pw * 2;
        k = k + 1;
    }
    let limit = u64::MAX / pw;
    proof {
        let m = u64::MAX as int;
        let d = pw as int;
        vstd::arithmetic::div_mod::lemma_fundamental_div_mod(m, d);
        vstd::arithmetic::div_mod::lemma_mod_bound(m, d);
        assert(m == d * (m / d) + m % d);
        assert((m / d) * d == d * (m / d)) by (nonlinear_arith);
        assert(limit as int * d == (m / d) * d);
        assert(limit as int * d <= m);
    }
    if base_delay_ms <= limit {
        proof {
            lemma_mul_inequality(base_delay_ms as int, limit as int, pw as int);
            assert(base_delay_ms as int * pw as int <= u64::MAX as int);
            assert(policy_wf(p));
        }
        Some(p)
    } else {
        proof {
            lemma_mul_inequality(limit as int + 1, base_delay_ms as int, pw as int);
            assert((limit as int + 1) * (pw as int) == limit as int * pw as int + pw as int)
                by (nonlinear_arith);
            assert(limit as int * pw as int + pw as int > u64::MAX as int);
            assert(base_delay_ms as int * pw as int > u64::MAX as int);
            assert(!policy_wf(p));
        }
        None
    }
}

} // verus!
