use rust_ai_agent::bench::{
    action_label, defense_label, group_label, latency_min_max, threat_cases, CaseGroup, Confusion,
};
use rust_ai_agent::parser::{DefenseAction, ThreatAction};

#[test]
fn case_table_shape() {
    let cases = threat_cases();
    assert_eq!(cases.len(), 21);
    assert_eq!(cases.iter().filter(|c| c.group == CaseGroup::Baseline).count(), 6);
    assert_eq!(cases.iter().filter(|c| c.group == CaseGroup::Holdout).count(), 11);
    assert_eq!(cases.iter().filter(|c| c.group == CaseGroup::Ambiguous).count(), 4);
    for c in &cases {
        assert!(!c.events.is_empty());
        assert_eq!(c.ua_rotation, c.unique_ua_count > 1, "{}", c.ip);
        if c.group == CaseGroup::Ambiguous {
            assert_eq!(c.expected_action, "PASS");
        }
    }
    assert_eq!(cases[0].ip, "192.168.1.50");
    assert_eq!(cases[20].ip, "10.99.1.2");
}

#[test]
fn labels() {
    assert_eq!(group_label(CaseGroup::Holdout), "holdout");
    assert_eq!(action_label(ThreatAction::Block), "BLOCK");
    assert_eq!(defense_label(&DefenseAction::Pass), "PASS");
    assert_eq!(defense_label(&DefenseAction::BlockIp("x".to_owned())), "BLOCK");
}

#[test]
fn confusion_counts() {
    let mut c = Confusion::new();
    c.record("BLOCK", "BLOCK");
    c.record("PASS", "BLOCK");
    c.record("PASS", "PASS");
    c.record("BLOCK", "PASS");
    c.record("BLOCK", "BLOCK");
    c.record_error();
    assert_eq!(
        (c.true_positives, c.false_positives, c.true_negatives, c.false_negatives, c.errors),
        (2, 1, 1, 1, 1)
    );
}

#[test]
fn rotating_agent_brute_force_case() {
    let x = threat_cases().into_iter().find(|x| x.ip == "23.94.12.77").unwrap();
    assert_eq!(x.group, CaseGroup::Holdout);
    assert_eq!(x.expected_action, "BLOCK");
    assert_eq!(x.events.len(), 7);
    assert!(x.events.iter().all(|e| e.contains(" 401 ")));
    assert!(x.ua_rotation);
    assert_eq!(x.unique_ua_count, 5);
    let mut agents: Vec<&str> = x.events.iter().map(|e| e.split("UA: ").nth(1).unwrap()).collect();
    agents.sort();
    agents.dedup();
    assert_eq!(agents.len(), x.unique_ua_count);
}

#[test]
fn latency_bounds() {
    assert_eq!(latency_min_max(&vec![]), (0, 0));
    assert_eq!(latency_min_max(&vec![7]), (7, 7));
    assert_eq!(latency_min_max(&vec![120, 35, 980, 35, 400]), (35, 980));
}
