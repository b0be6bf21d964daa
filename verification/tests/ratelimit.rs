use chat_governor::boundary::client_identifier;
use chat_governor::boundary::deny_body;
use chat_governor::boundary::is_exempt_path;
use chat_governor::numfmt::i64_to_string;
use chat_governor::numfmt::u64_to_string;
use chat_governor::ratelimit::Admission;
use chat_governor::ratelimit::LimitWindow;
use chat_governor::ratelimit::RateEntry;
use chat_governor::ratelimit::RateGovernor;
use chat_governor::ratelimit::TokenBucket;

#[test]
fn test_burst_of_capacity_then_deny() {
    // Five calls within one second all pass with decreasing remaining
    // counts, the sixth is denied on the minute window.
    let mut gov = RateGovernor::new(5, 1000);
    let mut seen = Vec::new();
    for _ in 0..5 {
        match gov.grant("ip:1.2.3.4", 100) {
            Admission::Allow { remaining_minute, .. } => seen.push(remaining_minute),
            Admission::Deny { .. } => panic!("denied inside the burst"),
        }
    }
    assert_eq!(seen, vec![4, 3, 2, 1, 0]);
    match gov.grant("ip:1.2.3.4", 100) {
        Admission::Allow { .. } => panic!("sixth call must be denied"),
        Admission::Deny { retry_after, window, limit } => {
            assert_eq!(window, LimitWindow::PerMinute);
            assert_eq!(limit, 5);
            assert!(retry_after >= 1);
        }
    }
}

#[test]
fn test_independent_identifiers_do_not_contend() {
    let mut gov = RateGovernor::new(1, 100);
    assert!(matches!(gov.grant("ip:1.1.1.1", 0), Admission::Allow { .. }));
    assert!(matches!(gov.grant("ip:2.2.2.2", 0), Admission::Allow { .. }));
    assert!(matches!(gov.grant("ip:1.1.1.1", 0), Admission::Deny { .. }));
}

#[test]
fn test_refill_restores_tokens_over_time() {
    let mut entry = RateEntry::new(5, 1000, 0);
    for _ in 0..5 {
        assert!(matches!(entry.grant(0), Admission::Allow { .. }));
    }
    assert!(matches!(entry.grant(0), Admission::Deny { .. }));
    // Twelve seconds refill one whole minute-window token (5/min).
    match entry.grant(12) {
        Admission::Allow { remaining_minute, .. } => assert_eq!(remaining_minute, 0),
        Admission::Deny { .. } => panic!("token should have refilled"),
    }
}

#[test]
fn test_tokens_never_exceed_capacity() {
    let mut entry = RateEntry::new(3, 7, 0);
    let times = [0u64, 1, 100, 100, 5000, 5000, 5000, 4000, 9000];
    for t in times {
        let _ = entry.grant(t);
        assert!(entry.minute.units <= 3 * 60);
        assert!(entry.hour.units <= 7 * 3600);
    }
}

#[test]
fn test_hour_denial_refunds_minute_token() {
    // One request per hour allowed; the second is denied on the hour
    // window and must not cost a minute token.
    let mut entry = RateEntry::new(5, 1, 0);
    assert!(matches!(entry.grant(0), Admission::Allow { .. }));
    let minute_before = entry.minute.units;
    match entry.grant(1) {
        Admission::Deny { window, limit, .. } => {
            assert_eq!(window, LimitWindow::PerHour);
            assert_eq!(limit, 1);
        }
        Admission::Allow { .. } => panic!("hour budget was exhausted"),
    }
    // One second of refill adds 5 units to the minute bucket (5/min
    // capacity refills 5 units per second in fixed-point), nothing less.
    assert_eq!(entry.minute.units, minute_before + 5);
}

#[test]
fn test_retry_after_computation() {
    let bucket = TokenBucket {
        units: 0,
        capacity: 5,
        window: 60,
        last_refill: 0,
    };
    // 60 units short at 5 units per second: 12 seconds, plus one slack.
    assert_eq!(bucket.retry_after(), 13);
    let ready = TokenBucket {
        units: 60,
        capacity: 5,
        window: 60,
        last_refill: 0,
    };
    assert_eq!(ready.retry_after(), 0);
}

#[test]
fn test_sweep_removes_idle_entries_only() {
    let mut gov = RateGovernor::new(5, 100);
    let _ = gov.grant("ip:old", 0);
    let _ = gov.grant("ip:fresh", 3000);
    // Too early: under five minutes since the last sweep marker.
    assert!(!gov.sweep_idle(200));
    assert_eq!(gov.entries.len(), 2);
    // At 3900 the "old" entry is idle beyond one hour, "fresh" is not.
    assert!(gov.sweep_idle(3900));
    assert_eq!(gov.entries.len(), 1);
    assert_eq!(gov.entries[0].0, "ip:fresh");
    // A second sweep right away is skipped.
    assert!(!gov.sweep_idle(3950));
}

#[test]
fn test_rate_limit_remaining_decreases() {
    let mut gov = RateGovernor::new(10, 100);
    let first = match gov.grant("ip:9.9.9.9", 7) {
        Admission::Allow { remaining_minute, .. } => remaining_minute,
        _ => panic!("first call allowed"),
    };
    let second = match gov.grant("ip:9.9.9.9", 7) {
        Admission::Allow { remaining_minute, .. } => remaining_minute,
        _ => panic!("second call allowed"),
    };
    assert!(second < first);
}

#[test]
fn test_exempt_paths() {
    assert!(is_exempt_path("/"));
    assert!(is_exempt_path("/health"));
    assert!(is_exempt_path("/status"));
    assert!(!is_exempt_path("/api/v1/influencers"));
    assert!(!is_exempt_path("/healthz"));
}

#[test]
fn test_client_identifier_from_forwarded_for() {
    assert_eq!(client_identifier(Some("1.2.3.4, 5.6.7.8")), "ip:1.2.3.4");
    assert_eq!(client_identifier(Some(" 9.9.9.9 ")), "ip:9.9.9.9");
    assert_eq!(client_identifier(Some("8.8.8.8")), "ip:8.8.8.8");
    assert_eq!(client_identifier(Some("")), "ip:");
    assert_eq!(client_identifier(None), "ip:unknown");
}

#[test]
fn test_deny_body_shape() {
    let body = deny_body(13, "per_minute", 5);
    assert_eq!(
        body,
        "{\"error\":\"rate_limit_exceeded\",\"message\":\"Too many requests. Try again in 13 seconds.\",\"retry_after\":13,\"limit_type\":\"per_minute\",\"limit\":5}"
    );
    let parsed: serde_json::Value = serde_json::from_str(&body).unwrap();
    assert_eq!(parsed["error"].as_str().unwrap(), "rate_limit_exceeded");
    assert_eq!(parsed["retry_after"].as_i64().unwrap(), 13);
    assert_eq!(parsed["limit_type"].as_str().unwrap(), "per_minute");
    assert_eq!(parsed["limit"].as_i64().unwrap(), 5);
}

#[test]
fn test_limit_window_names() {
    assert_eq!(LimitWindow::PerMinute.as_str(), "per_minute");
    assert_eq!(LimitWindow::PerHour.as_str(), "per_hour");
}

#[test]
fn test_decimal_rendering() {
    assert_eq!(u64_to_string(0), "0");
    assert_eq!(u64_to_string(7), "7");
    assert_eq!(u64_to_string(120), "120");
    assert_eq!(u64_to_string(u64::MAX), "18446744073709551615");
    assert_eq!(i64_to_string(-1), "-1");
    assert_eq!(i64_to_string(42), "42");
    assert_eq!(i64_to_string(i64::MIN), "-9223372036854775808");
}

#[test]
fn test_estimate_tokens() {
    assert_eq!(chat_governor::estimate_tokens(""), 0);
    assert_eq!(chat_governor::estimate_tokens("abc"), 1);
    assert_eq!(chat_governor::estimate_tokens("abcd"), 1);
    assert_eq!(chat_governor::estimate_tokens("abcde"), 2);
    assert_eq!(chat_governor::estimate_tokens("12345678"), 2);
}
