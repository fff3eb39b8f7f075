//! Full-jitter exponential backoff: `sleep = random(0, min(cap, base × 2^attempt))`.
use vstd::prelude::*;
use rand::RngExt as _;

verus! {

/// `base × 2^n`.
pub open spec fn exp_backoff(base: nat, n: nat) -> nat
    decreases n,
{
    if n == 0 {
        base
    } else {
        2 * exp_backoff(base, (n - 1) as nat)
    }
}

/// `min(cap, base × 2^attempt)`: the largest delay an attempt may wait.
pub open spec fn backoff_ceiling(attempt: nat, base: nat, cap: nat) -> nat {
    if exp_backoff(base, attempt) <= cap {
        exp_backoff(base, attempt)
    } else {
        cap
    }
}

/// `base × 2^n` never decreases as `n` grows.
pub proof fn lemma_exp_backoff_monotone(base: nat, i: nat, j: nat)
    requires
        i <= j,
    ensures
        exp_backoff(base, i) <= exp_backoff(base, j),
    decreases j,
{
    if i < j {
        lemma_exp_backoff_monotone(base, i, (j - 1) as nat);
    }
}

/// `min(cap_ms, base_ms × 2^attempt)`, computed without overflow.
pub fn ceiling_ms(attempt: u32, base_ms: u64, cap_ms: u64) -> (r: u64)
    ensures
        r == backoff_ceiling(attempt as nat, base_ms as nat, cap_ms as nat),
{
    if base_ms > cap_ms {
        proof {
            lemma_exp_backoff_monotone(base_ms as nat, 0, attempt as nat);
        }
        return cap_ms;
    }
    let mut val: u64 = base_ms;
    let mut i: u32 = 0;
    while i < attempt
        invariant
            i <= attempt,
            val == exp_backoff(base_ms as nat, i as nat),
            val <= cap_ms,
        decreases attempt - i,
    {
        if val > cap_ms - val {
            proof {
                lemma_exp_backoff_monotone(base_ms as nat, (i + 1) as nat, attempt as nat);
            }
            return cap_ms;
        }
        val = val * 2;
        i = i + 1;
    }
    val
}

/// `rand::rng().random_range(0..=ceiling)`: a uniformly random value in
/// `0..=ceiling`. Only the range is promised: the value is random.
#[verifier::external_body]
fn random_up_to(ceiling: u64) -> (r: u64)
    ensures
        r <= ceiling,
{
    rand::rng().random_range(0..=ceiling)
}

/// A full-jitter delay in milliseconds for `attempt` (0-indexed): attempt 0,
/// or a zero cap, waits not at all; attempt `n` waits a random time in
/// `0..=min(cap_ms, base_ms × 2^n)`.
pub fn full_jitter(attempt: u32, base_ms: u64, cap_ms: u64) -> (r: u64)
    ensures
        attempt == 0 || cap_ms == 0 ==> r == 0,
        r <= backoff_ceiling(attempt as nat, base_ms as nat, cap_ms as nat),
        r <= cap_ms,
{
    if attempt == 0 || cap_ms == 0 {
        return 0;
    }
    let ceiling = ceiling_ms(attempt, base_ms, cap_ms);
    random_up_to(ceiling)
}

} // verus!
