//! The delay before each retry: exponential growth from a base delay, capped.
//!
//! The delay is the exact product, rounded down once at the end. Before the
//! cap is known to be reached the powers can outgrow every machine word, so
//! the product is worked out over numbers of any size.

use vstd::prelude::*;
use vstd::arithmetic::power::pow;
use vstd::arithmetic::div_mod::lemma_fundamental_div_mod_converse;
use crate::app_state::ReconnectPolicy;
use crate::bignum::{from_u64, lemma_pow_pos, lemma_pow_step, less_or_equal, mul_small, value};

verus! {

/// The delay in milliseconds before the retry that follows failure number
/// `attempt`, counted from one:
/// `min(retry_delay_ms * multiplier^(attempt - 1), max_delay_ms)`, the
/// product rounded down to a whole millisecond. The multiplier is
/// `backoff_multiplier_milli / 1000`.
pub open spec fn backoff_delay(policy: ReconnectPolicy, attempt: nat) -> int
    recommends
        attempt >= 1,
{
    let steps = (attempt - 1) as nat;
    let grown = policy.retry_delay_ms * pow(policy.backoff_multiplier_milli as int, steps) / pow(
        1000,
        steps,
    );
    if grown <= policy.max_delay_ms {
        grown
    } else {
        policy.max_delay_ms as int
    }
}

/// A larger base has larger powers.
pub proof fn lemma_pow_base_ordered(p: int, q: int, e: nat)
    requires
        0 < q <= p,
    ensures
        0 < pow(q, e) <= pow(p, e),
    decreases e,
{
    lemma_pow_step(p, 0);
    lemma_pow_step(q, 0);
    if e > 0 {
        let d = (e - 1) as nat;
        lemma_pow_base_ordered(p, q, d);
        lemma_pow_step(p, d);
        lemma_pow_step(q, d);
        assert(0 < q * pow(q, d) <= p * pow(p, d)) by (nonlinear_arith)
            requires
                0 < q <= p,
                0 < pow(q, d) <= pow(p, d),
        ;
    }
}

/// Once the grown delay has reached the cap it stays there: the multiplier
/// is at least one.
proof fn lemma_cap_persists(base: int, cap: int, p: int, q: int, k: nat, e: nat)
    requires
        0 < q <= p,
        0 <= base,
        0 <= cap,
        k <= e,
        cap * pow(q, k) <= base * pow(p, k),
    ensures
        cap * pow(q, e) <= base * pow(p, e),
    decreases e - k,
{
    if k < e {
        lemma_pow_step(p, k);
        lemma_pow_step(q, k);
        lemma_pow_pos(p, k);
        lemma_pow_pos(q, k);
        let pk = pow(p, k);
        let qk = pow(q, k);
        assert(cap * (q * qk) <= base * (p * pk)) by (nonlinear_arith)
            requires
                0 < q <= p,
                0 <= base,
                0 <= cap,
                0 < pk,
                0 < qk,
                cap * qk <= base * pk,
        ;
        lemma_cap_persists(base, cap, p, q, (k + 1) as nat, e);
    }
}

/// A quotient is at least `m` where the dividend is at least `m` divisors.
pub proof fn lemma_quotient_at_least(a: int, d: int, m: int)
    requires
        d > 0,
        m * d <= a,
    ensures
        a / d >= m,
{
    let r = a % d;
    let t = a / d;
    assert(a == d * t + r && 0 <= r < d) by {
        vstd::arithmetic::div_mod::lemma_fundamental_div_mod(a, d);
    }
    assert(t >= m) by (nonlinear_arith)
        requires
            d > 0,
            m * d <= d * t + r,
            0 <= r < d,
    ;
}

/// The quotient is the one number `r` with `r * d <= a < (r + 1) * d`.
proof fn lemma_quotient_is(a: int, d: int, r: int)
    requires
        d > 0,
        r * d <= a < (r + 1) * d,
    ensures
        a / d == r,
{
    assert((r + 1) * d == r * d + d) by (nonlinear_arith);
    lemma_fundamental_div_mod_converse(a, d, r, a - r * d);
}

/// The whole part of `num / den`, known to lie below `bound`.
fn quotient_below(num: &Vec<u64>, den: &Vec<u64>, bound: u64) -> (r: u64)
    requires
        value(den@) > 0,
        0 <= value(num@) < bound * value(den@),
    ensures
        r == value(num@) / value(den@),
        r < bound,
{
    let mut lo: u64 = 0;
    let mut hi: u64 = bound;
    proof {
        assert(0 * value(den@) == 0);
    }
    while hi - lo > 1
        invariant
            lo < hi <= bound,
            value(den@) > 0,
            lo * value(den@) <= value(num@) < hi * value(den@),
        decreases hi - lo,
    {
        let mid: u64 = lo + (hi - lo) / 2;
        let scaled = mul_small(den, mid);
        if less_or_equal(&scaled, num) {
            proof {
                assert(mid * value(den@) == value(den@) * mid) by (nonlinear_arith);
            }
            lo = mid;
        } else {
            proof {
                assert(mid * value(den@) == value(den@) * mid) by (nonlinear_arith);
            }
            hi = mid;
        }
    }
    proof {
        lemma_quotient_is(value(num@), value(den@), lo as int);
    }
    lo
}

/// The delay in milliseconds before the retry that follows failure number
/// `attempt`. Attempts count from one; the policy's multiplier is at least
/// one.
pub fn calculate_backoff_delay(attempt: u32, policy: &ReconnectPolicy) -> (delay: u64)
    requires
        attempt >= 1,
        policy.valid(),
    ensures
        delay == backoff_delay(*policy, attempt as nat),
        delay <= policy.max_delay_ms,
{
    let steps: u32 = attempt - 1;
    let base: u64 = policy.retry_delay_ms;
    let cap: u64 = policy.max_delay_ms;
    let p: u64 = policy.backoff_multiplier_milli as u64;
    proof {
        lemma_pow_base_ordered(p as int, 1000, steps as nat);
    }
    if base == 0 {
        proof {
            assert(0 * pow(p as int, steps as nat) == 0);
            assert(0int / pow(1000, steps as nat) == 0) by (nonlinear_arith)
                requires
                    pow(1000, steps as nat) > 0,
            ;
        }
        return 0;
    }
    if base >= cap {
        proof {
            let pe = pow(p as int, steps as nat);
            let qe = pow(1000, steps as nat);
            assert(cap * qe <= base * pe) by (nonlinear_arith)
                requires
                    0 <= cap <= base,
                    0 < qe <= pe,
            ;
            lemma_quotient_at_least(base * pe, qe, cap as int);
        }
        return cap;
    }
    if p == 1000 {
        proof {
            let qe = pow(1000, steps as nat);
            assert((base + 1) * qe == base * qe + qe) by (nonlinear_arith);
            lemma_quotient_is(base * qe, qe, base as int);
        }
        return base;
    }
    let mut num: Vec<u64> = from_u64(base);
    let mut den: Vec<u64> = from_u64(1);
    let mut k: u32 = 0;
    proof {
        lemma_pow_step(p as int, 0);
        lemma_pow_step(1000, 0);
        assert(base * 1 == base);
        assert(cap * 1 == cap);
    }
    while k < steps
        invariant
            k <= steps,
            steps == attempt - 1,
            base == policy.retry_delay_ms,
            cap == policy.max_delay_ms,
            p == policy.backoff_multiplier_milli,
            1000 < p,
            0 < base,
            value(num@) == base * pow(p as int, k as nat),
            value(den@) == pow(1000, k as nat),
            value(num@) < cap * value(den@),
        decreases steps - k,
    {
        let next_num = mul_small(&num, p);
        let next_den = mul_small(&den, 1000);
        let capped = mul_small(&next_den, cap);
        proof {
            lemma_pow_step(p as int, k as nat);
            lemma_pow_step(1000, k as nat);
            let pk = pow(p as int, k as nat);
            assert((base * pk) * p == base * (p * pk)) by (nonlinear_arith);
            let qk = pow(1000, k as nat);
            assert(qk * 1000 == 1000 * qk);
            assert(value(capped@) == cap * pow(1000, (k + 1) as nat)) by (nonlinear_arith)
                requires
                    value(capped@) == value(next_den@) * cap,
                    value(next_den@) == pow(1000, (k + 1) as nat),
            ;
        }
        if less_or_equal(&capped, &next_num) {
            proof {
                lemma_cap_persists(
                    base as int,
                    cap as int,
                    p as int,
                    1000,
                    (k + 1) as nat,
                    steps as nat,
                );
                lemma_pow_pos(1000, steps as nat);
                lemma_quotient_at_least(
                    base * pow(p as int, steps as nat),
                    pow(1000, steps as nat),
                    cap as int,
                );
            }
            return cap;
        }
        num = next_num;
        den = next_den;
        k += 1;
    }
    proof {
        lemma_pow_pos(1000, steps as nat);
    }
    quotient_below(&num, &den, cap)
}

} // verus!
