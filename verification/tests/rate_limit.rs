use regelrecht_upload::rate_limit::{
    check_allowed, check_rate_limit, check_rate_limit_with_max, peer_is_trusted, RateLimiter,
    MAX_LOGIN_ATTEMPTS, MAX_SUBMISSION_ATTEMPTS, WINDOW_MICROS,
};

#[test]
fn allowed_while_fewer_than_the_limit() {
    assert!(check_allowed(0, 10));
    assert!(check_allowed(9, 10));
    assert!(!check_allowed(10, 10));
    assert!(!check_allowed(11, 10));
    assert!(!check_allowed(0, 0));
    assert_eq!(MAX_LOGIN_ATTEMPTS, 10);
    assert_eq!(MAX_SUBMISSION_ATTEMPTS, 20);
}

#[test]
fn a_count_that_could_not_be_had_counts_as_none() {
    assert!(check_rate_limit(None));
    assert!(check_rate_limit(Some(9)));
    assert!(!check_rate_limit(Some(10)));
    assert!(check_rate_limit_with_max(Some(19), 20));
    assert!(!check_rate_limit_with_max(Some(20), 20));
    assert!(check_rate_limit_with_max(None, 20));
}

#[test]
fn the_eleventh_attempt_within_the_hour_is_refused() {
    let mut limiter = RateLimiter::new();
    let start: i64 = 1_700_000_000_000_000;
    for i in 0..10 {
        let now = start + i * 1_000_000;
        assert!(limiter.check_allowed("1.2.3.4", "login", MAX_LOGIN_ATTEMPTS, now));
        limiter.record_attempt("1.2.3.4", "login", now);
    }
    let now = start + 11_000_000;
    assert_eq!(limiter.recent_attempts("1.2.3.4", "login", now), 10);
    assert!(!limiter.check_allowed("1.2.3.4", "login", MAX_LOGIN_ATTEMPTS, now));
    // Another address and another endpoint are counted on their own.
    assert!(limiter.check_allowed("5.6.7.8", "login", MAX_LOGIN_ATTEMPTS, now));
    assert!(limiter.check_allowed("1.2.3.4", "create_submission", MAX_SUBMISSION_ATTEMPTS, now));
}

#[test]
fn attempts_leave_the_window_after_an_hour() {
    let mut limiter = RateLimiter::new();
    limiter.record_attempt("a", "login", 1000);
    assert_eq!(limiter.recent_attempts("a", "login", 1000 + WINDOW_MICROS - 1), 1);
    assert_eq!(limiter.recent_attempts("a", "login", 1000 + WINDOW_MICROS), 0);
    assert_eq!(limiter.recent_attempts("a", "login", i64::MIN), 1);
}

#[test]
fn sweep_removes_what_is_older_than_the_window() {
    let mut limiter = RateLimiter::new();
    limiter.record_attempt("a", "login", 10);
    limiter.record_attempt("b", "login", 20);
    limiter.record_attempt("a", "login", 30);
    let now = 20 + WINDOW_MICROS;
    let before = limiter.recent_attempts("a", "login", now);
    limiter.sweep(now);
    let left: Vec<(String, i64)> =
        limiter.attempts.iter().map(|a| (a.ip.clone(), a.at)).collect();
    assert_eq!(left, vec![("b".to_string(), 20), ("a".to_string(), 30)]);
    assert_eq!(limiter.recent_attempts("a", "login", now), before);
    limiter.sweep(i64::MAX);
    assert!(limiter.attempts.is_empty());
}

#[test]
fn trusted_proxies_are_matched_by_prefix() {
    let trusted = vec!["10.0.0.".to_string(), "172.16.".to_string()];
    assert!(peer_is_trusted("10.0.0.1", &trusted));
    assert!(peer_is_trusted("172.16.4.4", &trusted));
    assert!(!peer_is_trusted("10.0.1.1", &trusted));
    assert!(!peer_is_trusted("", &trusted));
    assert!(!peer_is_trusted("10.0.0.1", &Vec::new()));
}
