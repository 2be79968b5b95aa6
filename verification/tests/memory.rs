use rust_ai_agent::memory::ThreatMemory;

#[test]
fn triggers_when_window_is_full() {
    let mut m = ThreatMemory::new(3);
    assert!(m.push("1.1.1.1", "e1".to_owned(), "ua").is_none());
    assert!(m.push("1.1.1.1", "e2".to_owned(), "ua").is_none());
    let t = m.push("1.1.1.1", "e3".to_owned(), "ua").expect("full window");
    assert_eq!(t.history, vec!["e1", "e2", "e3"]);
    assert!(!t.ua_rotation);
    assert_eq!(t.unique_ua_count, 1);
}

#[test]
fn window_keeps_latest_events() {
    let mut m = ThreatMemory::new(2);
    m.push("ip", "a".to_owned(), "-");
    m.push("ip", "b".to_owned(), "-");
    let t = m.push("ip", "c".to_owned(), "-").unwrap();
    assert_eq!(t.history, vec!["b", "c"]);
    assert_eq!(m.event_count("ip"), 2);
    assert_eq!(t.unique_ua_count, 0);
}

#[test]
fn counts_distinct_user_agents_and_ignores_placeholders() {
    let mut m = ThreatMemory::new(5);
    m.push("ip", "1".to_owned(), "curl/8");
    m.push("ip", "2".to_owned(), "");
    m.push("ip", "3".to_owned(), "-");
    m.push("ip", "4".to_owned(), "curl/8");
    let t = m.push("ip", "5".to_owned(), "sqlmap").unwrap();
    assert_eq!(t.unique_ua_count, 2);
    assert!(t.ua_rotation);
}

#[test]
fn ips_are_independent_and_clearing_forgets() {
    let mut m = ThreatMemory::new(3);
    m.push("a", "x".to_owned(), "ua");
    m.push("b", "y".to_owned(), "ua");
    m.push("b", "z".to_owned(), "ua");
    assert_eq!(m.event_count("a"), 1);
    assert_eq!(m.event_count("b"), 2);
    assert_eq!(m.event_count("c"), 0);
    let mut ips = m.tracked_ips();
    ips.sort();
    assert_eq!(ips, vec!["a", "b"]);
    m.clear_ip("b");
    assert_eq!(m.event_count("b"), 0);
    assert_eq!(m.tracked_ips(), vec!["a"]);
    assert!(m.push("b", "w".to_owned(), "ua").is_none());
    assert_eq!(m.event_count("b"), 1);
}

#[test]
fn window_of_zero_always_triggers_with_empty_history() {
    let mut m = ThreatMemory::new(0);
    let t = m.push("ip", "e".to_owned(), "ua").unwrap();
    assert!(t.history.is_empty());
    assert_eq!(m.event_count("ip"), 0);
}

#[test]
fn user_agents_count_over_all_pushes_since_clear() {
    let mut m = ThreatMemory::new(2);
    assert!(m.push("9.9.9.9", "a".to_owned(), "ua-1").is_none());
    assert!(m.push("8.8.8.8", "x".to_owned(), "other").is_none());
    let t = m.push("9.9.9.9", "b".to_owned(), "ua-2").unwrap();
    assert_eq!(t.history, vec!["a".to_owned(), "b".to_owned()]);
    assert_eq!(t.unique_ua_count, 2);
    // The first agent has left the window but still counts.
    let t = m.push("9.9.9.9", "c".to_owned(), "ua-3").unwrap();
    assert_eq!(t.history, vec!["b".to_owned(), "c".to_owned()]);
    assert_eq!(t.unique_ua_count, 3);
    assert!(t.ua_rotation);
    let t = m.push("9.9.9.9", "d".to_owned(), "-").unwrap();
    assert_eq!(t.unique_ua_count, 3);
    m.clear_ip("9.9.9.9");
    assert!(m.push("9.9.9.9", "e".to_owned(), "ua-1").is_none());
    let t = m.push("9.9.9.9", "f".to_owned(), "ua-1").unwrap();
    assert_eq!(t.history, vec!["e".to_owned(), "f".to_owned()]);
    assert_eq!(t.unique_ua_count, 1);
    assert!(!t.ua_rotation);
    assert_eq!(m.event_count("8.8.8.8"), 1);
}
