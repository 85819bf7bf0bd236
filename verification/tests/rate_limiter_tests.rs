use booth_organizer::booth_client::BoothClient;
use booth_organizer::rate_limiter::{RateLimiter, DEFAULT_RATE_LIMIT_MS};

#[test]
fn first_request_never_waits() {
    let limiter = RateLimiter::new(1000);
    assert_eq!(limiter.wait_time(0), 0);
    assert_eq!(limiter.wait_time(123_456), 0);
}

#[test]
fn second_request_waits_for_the_rest_of_the_delay() {
    let mut limiter = RateLimiter::new(1000);
    limiter.record_request(5_000);
    assert_eq!(limiter.wait_time(5_000), 1000);
    assert_eq!(limiter.wait_time(5_001), 999);
    assert_eq!(limiter.wait_time(5_400), 600);
    assert_eq!(limiter.wait_time(5_999), 1);
    assert_eq!(limiter.wait_time(6_000), 0);
    assert_eq!(limiter.wait_time(60_000), 0);
}

#[test]
fn a_clock_that_ran_backwards_counts_as_no_time_passed() {
    let mut limiter = RateLimiter::new(1000);
    limiter.record_request(5_000);
    assert_eq!(limiter.wait_time(4_000), 1000);
}

#[test]
fn back_to_back_requests_keep_their_distance() {
    let mut client = BoothClient::new();
    assert_eq!(client.rate_limiter.delay_ms, DEFAULT_RATE_LIMIT_MS);
    let mut now = 10_000u64;
    let mut sent = Vec::new();
    for _ in 0..4 {
        let wait = client.wait_if_needed(now);
        now += wait;
        client.request_sent(now);
        sent.push(now);
        now += 3;
    }
    assert_eq!(sent, vec![10_000, 11_000, 12_000, 13_000]);
    for pair in sent.windows(2) {
        assert!(pair[1] >= pair[0] + DEFAULT_RATE_LIMIT_MS);
    }
}

#[test]
fn the_delay_is_measured_from_the_moment_of_sending() {
    let mut limiter = RateLimiter::new(1000);
    limiter.record_request(0);
    let wait = limiter.wait_time(200);
    assert_eq!(wait, 800);
    // the caller was held up and sends late
    limiter.record_request(1_500);
    assert_eq!(limiter.wait_time(1_600), 900);
    assert_eq!(limiter.last_request_ms, Some(1_500));
}

#[test]
fn zero_delay_never_waits() {
    let mut limiter = RateLimiter::new(0);
    limiter.record_request(7);
    assert_eq!(limiter.wait_time(7), 0);
}
