use healthcheck_api::config::{get_host_port, EnvLookup};
use healthcheck_api::healthcheck::{healthcheck, healthcheck_body, push_decimal, AppInfo};
use std::time::{Duration, Instant};

fn uptime_of(body: &str) -> u64 {
    let first = body.lines().next().unwrap();
    first.strip_prefix("api uptime: ").unwrap().parse().unwrap()
}

#[test]
fn body_has_exact_format() {
    assert_eq!(healthcheck_body(0, "127.0.0.1:9999"), "api uptime: 0\nserving on: 127.0.0.1:9999");
    assert_eq!(healthcheck_body(3600, "0.0.0.0:8080"), "api uptime: 3600\nserving on: 0.0.0.0:8080");
    assert_eq!(healthcheck_body(10, ""), "api uptime: 10\nserving on: ");
}

#[test]
fn body_with_largest_uptime() {
    assert_eq!(
        healthcheck_body(u64::MAX, "h:1"),
        "api uptime: 18446744073709551615\nserving on: h:1"
    );
}

#[test]
fn decimal_has_no_leading_zeros() {
    let mut s = String::from("x");
    push_decimal(&mut s, 100);
    assert_eq!(s, "x100");
    let mut z = String::new();
    push_decimal(&mut z, 0);
    assert_eq!(z, "0");
    let mut n = String::new();
    push_decimal(&mut n, 9);
    push_decimal(&mut n, 1234567890);
    assert_eq!(n, "91234567890");
}

#[test]
fn new_state_keeps_address() {
    let info = AppInfo::new("1.2.3.4:5".to_string());
    assert_eq!(info.host_port, "1.2.3.4:5");
}

#[test]
fn fresh_state_reports_zero_uptime() {
    let info = AppInfo::new("127.0.0.1:9999".to_string());
    assert_eq!(healthcheck(&info), "api uptime: 0\nserving on: 127.0.0.1:9999");
}

#[test]
fn uptime_counts_elapsed_seconds() {
    let start = Instant::now().checked_sub(Duration::from_secs(5)).unwrap();
    let info = AppInfo { uptime: start, host_port: "a:1".to_string() };
    let body = healthcheck(&info);
    assert!(uptime_of(&body) >= 5);
    assert!(body.ends_with("\nserving on: a:1"));
}

#[test]
fn repeated_requests_agree_on_address() {
    let info = AppInfo::new("0.0.0.0:8080".to_string());
    let bodies: Vec<String> = (0..100).map(|_| healthcheck(&info)).collect();
    for b in &bodies {
        assert!(b.starts_with("api uptime: "));
        assert!(b.ends_with("\nserving on: 0.0.0.0:8080"));
    }
    assert_eq!(info.host_port, "0.0.0.0:8080");
}

#[test]
fn configured_address_is_served_in_body() {
    let host_port = get_host_port(
        &EnvLookup::Present("127.0.0.1".to_string()),
        &EnvLookup::Present("9999".to_string()),
    );
    let info = AppInfo::new(host_port);
    let body = healthcheck(&info);
    let rest = body.strip_prefix("api uptime: ").unwrap();
    let (digits, tail) = rest.split_once('\n').unwrap();
    assert!(!digits.is_empty() && digits.chars().all(|c| c.is_ascii_digit()));
    assert_eq!(tail, "serving on: 127.0.0.1:9999");
}
