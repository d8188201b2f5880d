use stream_agent::app_state::ReconnectPolicy;
use stream_agent::backoff::calculate_backoff_delay;

fn policy(retry_delay_ms: u64, backoff_multiplier_milli: u32, max_delay_ms: u64) -> ReconnectPolicy {
    ReconnectPolicy {
        enabled: true,
        max_retries: 5,
        retry_delay_ms,
        backoff_multiplier_milli,
        max_delay_ms,
        reset_counter_after_ms: 300000,
    }
}

#[test]
fn test_backoff_calculation() {
    let policy = ReconnectPolicy {
        enabled: true,
        max_retries: 5,
        retry_delay_ms: 3000,
        backoff_multiplier_milli: 2000,
        max_delay_ms: 60000,
        reset_counter_after_ms: 300000,
    };

    assert_eq!(calculate_backoff_delay(1, &policy), 3000);
    assert_eq!(calculate_backoff_delay(2, &policy), 6000);
    assert_eq!(calculate_backoff_delay(3, &policy), 12000);
    assert_eq!(calculate_backoff_delay(4, &policy), 24000);
    assert_eq!(calculate_backoff_delay(5, &policy), 48000);

    assert_eq!(calculate_backoff_delay(10, &policy), 60000);
}

#[test]
fn backoff_with_default_policy() {
    let policy = ReconnectPolicy::default();
    assert!(policy.is_valid());
    assert_eq!(calculate_backoff_delay(1, &policy), 3000);
    assert_eq!(calculate_backoff_delay(5, &policy), 48000);
    assert_eq!(calculate_backoff_delay(6, &policy), 60000);
    assert_eq!(calculate_backoff_delay(u32::MAX, &policy), 60000);
}

#[test]
fn backoff_rounds_a_fractional_product_down_once() {
    let p = policy(3000, 1500, 60000);
    assert_eq!(calculate_backoff_delay(1, &p), 3000);
    assert_eq!(calculate_backoff_delay(2, &p), 4500);
    assert_eq!(calculate_backoff_delay(3, &p), 6750);
    assert_eq!(calculate_backoff_delay(4, &p), 10125);
    assert_eq!(calculate_backoff_delay(5, &p), 15187);
    // 3000 * 1.5^5 = 22781.25: rounding at every step would give 22780.
    assert_eq!(calculate_backoff_delay(6, &p), 22781);
    assert_eq!(calculate_backoff_delay(7, &p), 34171);
    assert_eq!(calculate_backoff_delay(8, &p), 51257);
    assert_eq!(calculate_backoff_delay(9, &p), 60000);
}

#[test]
fn backoff_of_a_small_base() {
    let p = policy(10, 1500, 1000);
    assert_eq!(calculate_backoff_delay(1, &p), 10);
    assert_eq!(calculate_backoff_delay(2, &p), 15);
    assert_eq!(calculate_backoff_delay(3, &p), 22);
    assert_eq!(calculate_backoff_delay(4, &p), 33);
    assert_eq!(calculate_backoff_delay(5, &p), 50);
    assert_eq!(calculate_backoff_delay(6, &p), 75);
    assert_eq!(calculate_backoff_delay(13, &p), 1000);
}

#[test]
fn backoff_with_multiplier_one_stays_at_the_base() {
    let p = policy(250, 1000, 60000);
    assert_eq!(calculate_backoff_delay(1, &p), 250);
    assert_eq!(calculate_backoff_delay(1000, &p), 250);
    assert_eq!(calculate_backoff_delay(u32::MAX, &p), 250);
}

#[test]
fn backoff_edges() {
    assert_eq!(calculate_backoff_delay(7, &policy(0, 2000, 60000)), 0);
    assert_eq!(calculate_backoff_delay(1, &policy(5000, 2000, 1000)), 1000);
    assert_eq!(calculate_backoff_delay(3, &policy(5000, 2000, 5000)), 5000);
    assert_eq!(calculate_backoff_delay(4, &policy(7, 3000, 0)), 0);
    assert_eq!(calculate_backoff_delay(2, &policy(1, u32::MAX, u64::MAX)), 4294967);
}

#[test]
fn backoff_grows_slowly_without_losing_precision() {
    let p = policy(1, 1001, u64::MAX);
    // 1.001^99 = 1.104..., 1.001^999 = 2.714..., 1.001^2999 = 20.03...
    assert_eq!(calculate_backoff_delay(100, &p), 1);
    assert_eq!(calculate_backoff_delay(1000, &p), 2);
    assert_eq!(calculate_backoff_delay(3000, &p), 20);
    let q = policy(1000, 1001, u64::MAX);
    // 1000 * 1.001^2 = 1002.001, 1000 * 1.001^10 = 1010.045...
    assert_eq!(calculate_backoff_delay(3, &q), 1002);
    assert_eq!(calculate_backoff_delay(11, &q), 1010);
}

#[test]
fn backoff_never_shrinks_and_never_passes_the_cap() {
    let p = policy(37, 1250, 90000);
    let mut last = 0;
    for attempt in 1..60u32 {
        let delay = calculate_backoff_delay(attempt, &p);
        assert!(delay >= last);
        assert!(delay <= 90000);
        last = delay;
    }
    assert_eq!(last, 90000);
}

#[test]
fn backoff_with_a_huge_cap_uses_many_limbs() {
    let p = policy(u64::MAX / 2, 1999, u64::MAX);
    // (2^63 - 1) * 1.999 = 18437520701672696838.193
    assert_eq!(calculate_backoff_delay(2, &p), 18437520701672696838);
    assert_eq!(calculate_backoff_delay(3, &p), u64::MAX);
}
