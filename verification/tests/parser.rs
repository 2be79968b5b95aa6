use rust_ai_agent::parser::{
    build_defense_action, extract_first_json_object, json_object_completed,
    strip_markdown_json_fence, strip_think_tags, verdict_candidates, DefenseAction, ThreatAction,
    ThreatVerdict, VerdictError,
};

fn verdict(action: ThreatAction, confidence: f64) -> ThreatVerdict {
    ThreatVerdict { action, reason: "r".to_owned(), confidence_bits: confidence.to_bits() }
}

#[test]
fn parses_threat_verdict_block() {
    let raw = r#"{"action":"BLOCK","reason":"SQLi detected","confidence":0.95}"#;
    let c = verdict_candidates(raw).unwrap();
    assert_eq!(c.clean, raw);
    assert_eq!(c.fragment.as_deref(), Some(raw));
    assert!(c.clean.contains(r#""action":"BLOCK""#));
    assert!(c.clean.contains(r#""confidence":0.95"#));
}

#[test]
fn parses_threat_verdict_pass() {
    let raw = r#"{"action":"PASS","reason":"Normal request","confidence":0.1}"#;
    let c = verdict_candidates(raw).unwrap();
    assert_eq!(c.clean, raw);
    assert!(c.clean.contains(r#""action":"PASS""#));
    let verdict = ThreatVerdict {
        action: ThreatAction::Pass,
        reason: "Normal request".to_owned(),
        confidence_bits: 0.1f64.to_bits(),
    };
    assert_eq!(build_defense_action(&verdict, "1.2.3.4"), DefenseAction::Pass);
}

#[test]
fn blocks_ip_above_threshold() {
    let verdict = ThreatVerdict {
        action: ThreatAction::Block,
        reason: "SQL injection pattern".to_owned(),
        confidence_bits: 0.85f64.to_bits(),
    };
    assert_eq!(
        build_defense_action(&verdict, "192.168.1.100"),
        DefenseAction::BlockIp("192.168.1.100".to_owned())
    );
}

#[test]
fn passes_below_threshold() {
    let verdict = ThreatVerdict {
        action: ThreatAction::Block,
        reason: "Uncertain".to_owned(),
        confidence_bits: 0.5f64.to_bits(),
    };
    assert_eq!(build_defense_action(&verdict, "10.0.0.1"), DefenseAction::Pass);
}

#[test]
fn strips_think_tags_from_verdict() {
    let raw = r#"<think>let me analyze</think>{"action":"BLOCK","reason":"LFI","confidence":0.88}"#;
    let c = verdict_candidates(raw).unwrap();
    assert_eq!(c.clean, r#"{"action":"BLOCK","reason":"LFI","confidence":0.88}"#);
    assert!(c.clean.contains(r#""action":"BLOCK""#));
}

#[test]
fn extracts_json_from_mixed_text() {
    let raw = r#"Here is my analysis: {"action":"BLOCK","reason":"scanner","confidence":0.9} done"#;
    let c = verdict_candidates(raw).unwrap();
    assert_eq!(c.clean, raw);
    let fragment = c.fragment.unwrap();
    assert_eq!(fragment, r#"{"action":"BLOCK","reason":"scanner","confidence":0.9}"#);
    assert!(fragment.contains(r#""action":"BLOCK""#));
}

#[test]
fn threshold_is_inclusive_and_ignores_nan_and_negatives() {
    let ip = "5.6.7.8";
    let block = DefenseAction::BlockIp(ip.to_owned());
    assert_eq!(build_defense_action(&verdict(ThreatAction::Block, 0.7), ip), block);
    assert_eq!(build_defense_action(&verdict(ThreatAction::Block, 1.0), ip), block);
    assert_eq!(build_defense_action(&verdict(ThreatAction::Block, f64::INFINITY), ip), block);
    assert_eq!(build_defense_action(&verdict(ThreatAction::Block, 0.6999999), ip), DefenseAction::Pass);
    assert_eq!(build_defense_action(&verdict(ThreatAction::Block, f64::NAN), ip), DefenseAction::Pass);
    assert_eq!(build_defense_action(&verdict(ThreatAction::Block, -0.9), ip), DefenseAction::Pass);
    assert_eq!(build_defense_action(&verdict(ThreatAction::Pass, 0.99), ip), DefenseAction::Pass);
}

#[test]
fn candidates_frame_the_answer() {
    let c = verdict_candidates("  <think>hmm</think>\n```json\n{\"action\":\"PASS\"}\n```  ").unwrap();
    assert_eq!(c.clean, "{\"action\":\"PASS\"}");
    assert_eq!(c.fragment.as_deref(), Some("{\"action\":\"PASS\"}"));
    let text = "answer: {\"k\":{\"v\":\"}\"}} end";
    let c2 = verdict_candidates(text).unwrap();
    assert_eq!(c2.clean, text);
    assert_eq!(c2.fragment.as_deref(), Some("{\"k\":{\"v\":\"}\"}}"));
    let c3 = verdict_candidates("no object").unwrap();
    assert_eq!(c3.fragment, None);
}

#[test]
fn empty_answers_are_refused() {
    assert_eq!(verdict_candidates("   ").err(), Some(VerdictError::EmptyVerdict));
    assert_eq!(verdict_candidates("<think>only thoughts</think>  ").err(), Some(VerdictError::EmptyVerdict));
}

#[test]
fn strip_functions_match_their_rules() {
    assert_eq!(strip_think_tags("a</think>  b"), "b");
    assert_eq!(strip_think_tags("no tag"), "no tag");
    assert_eq!(strip_markdown_json_fence("  ```json {\"x\":1} ```"), "{\"x\":1}");
    assert_eq!(strip_markdown_json_fence(" {\"x\":1} "), "{\"x\":1}");
    assert_eq!(strip_markdown_json_fence("```} {"), "```} {");
}

#[test]
fn first_json_object_respects_strings_and_escapes() {
    assert_eq!(extract_first_json_object("x {\"a\":\"\\\"}\"} y"), Some("{\"a\":\"\\\"}\"}"));
    assert_eq!(extract_first_json_object("{ unclosed"), None);
    assert_eq!(extract_first_json_object("none"), None);
}

#[test]
fn completed_answer_yields_its_object() {
    let answer = "  {\"action\":\"BLOCK\",\"reason\":\"a}b\"} \n";
    assert!(json_object_completed(answer));
    let t = answer.trim();
    let f = extract_first_json_object(t).unwrap();
    assert!(t.starts_with(f));
    assert!(f.ends_with('}'));
    assert_eq!(f, t);
}

#[test]
fn extracted_verdict_object_counts_as_complete() {
    let raw = "prefix {\"action\":\"BLOCK\",\"reason\":\"x\"} suffix";
    let f = extract_first_json_object(raw).unwrap();
    assert!(json_object_completed(f));
    assert!(!json_object_completed("{\"action\":\"BLOCK\""));
    assert!(!json_object_completed("{\"reason\":\"x\"}"));
    assert!(json_object_completed("  {\"action\":\"PASS\"}\n"));
}
