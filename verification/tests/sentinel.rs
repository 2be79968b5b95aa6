use rust_ai_agent::ingestion::LogEvent;
use rust_ai_agent::sentinel::{rate_limit_wait, Observation, Sentinel};

fn event(ip: &str, ua: &str) -> LogEvent {
    LogEvent {
        raw_line: String::new(),
        ip: ip.to_owned(),
        method: "GET".to_owned(),
        path: "/admin".to_owned(),
        status: 403,
        user_agent: ua.to_owned(),
        referer: "-".to_owned(),
        headers: String::new(),
        content_type: String::new(),
    }
}

#[test]
fn blocked_ips_are_ignored_until_released() {
    let mut s = Sentinel::new(2);
    assert!(matches!(s.observe(&event("1.2.3.4", "a")), Observation::Recorded));
    match s.observe(&event("1.2.3.4", "b")) {
        Observation::Triggered(t) => {
            assert_eq!(t.history, vec!["GET /admin 403 | UA: a", "GET /admin 403 | UA: b"]);
            assert!(t.ua_rotation);
        }
        _ => panic!("expected a trigger"),
    }
    s.note_analysis();
    s.note_block("1.2.3.4", 1_000);
    assert!(s.is_blocked("1.2.3.4"));
    assert!(s.tracked_ips().is_empty());
    assert!(matches!(s.observe(&event("1.2.3.4", "c")), Observation::Blocked));
    assert_eq!(s.active_blocks(), 1);
    assert_eq!((s.total_analyzed(), s.total_blocked()), (1, 1));
    assert!(s.expired_blocks(600_999, 600).is_empty());
    assert_eq!(s.expired_blocks(601_000, 600), vec!["1.2.3.4"]);
    s.release("1.2.3.4");
    assert!(!s.is_blocked("1.2.3.4"));
    assert!(matches!(s.observe(&event("1.2.3.4", "c")), Observation::Recorded));
}

#[test]
fn renewed_block_restarts_its_time() {
    let mut s = Sentinel::new(1);
    s.note_block("5.5.5.5", 0);
    s.note_block("5.5.5.5", 10_000);
    assert_eq!(s.active_blocks(), 1);
    assert!(s.expired_blocks(10_500, 1).is_empty());
    assert_eq!(s.expired_blocks(11_000, 1), vec!["5.5.5.5"]);
}

#[test]
fn rate_limit_waits_for_the_rest_of_the_interval() {
    assert_eq!(rate_limit_wait(200, 500), 300);
    assert_eq!(rate_limit_wait(500, 500), 0);
    assert_eq!(rate_limit_wait(900, 500), 0);
}
