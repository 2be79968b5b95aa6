use rust_ai_agent::model::{
    context_size, describe_agent, threat_prompt, GenerationState, PROMPT_HEAD, PROMPT_TAIL,
};

#[test]
fn description_names_model_or_its_absence() {
    assert_eq!(describe_agent("IPS", Some("m.gguf")), "Агент: IPS, модель: m.gguf");
    assert_eq!(describe_agent("IPS", None), "Агент: IPS, модель: не загружена");
}

#[test]
fn prompt_holds_ip_history_and_rotation_note() {
    let events = vec!["GET /a 404 | UA: x".to_owned(), "GET /b 403 | UA: y".to_owned()];
    let p = threat_prompt("9.9.9.9", &events, true, 3);
    assert!(p.starts_with(PROMPT_HEAD));
    assert!(p.ends_with(PROMPT_TAIL));
    assert!(p.contains("IP: 9.9.9.9\n[Metadata] UA rotation: 3 distinct User-Agent strings"));
    assert!(p.contains("---\nGET /a 404 | UA: x\nGET /b 403 | UA: y\n<|im_end|>"));
    let q = threat_prompt("9.9.9.9", &events, false, 3);
    assert!(!q.contains("[Metadata]"));
    assert!(q.contains("IP: 9.9.9.9\n--- log (newest context in this window) ---\n"));
}

#[test]
fn context_is_at_least_the_minimum() {
    assert_eq!(context_size(100, 512), 8192);
    assert_eq!(context_size(9000, 512), 9512);
}

#[test]
fn generation_stops_on_complete_json() {
    let mut g = GenerationState::new(10, true);
    assert!(g.wants_token());
    assert!(!g.accept_piece(" {\"action\":"));
    assert!(!g.accept_piece("\"PASS\""));
    assert!(g.accept_piece("}"));
    assert!(!g.wants_token());
    assert_eq!(g.final_answer(), "{\"action\":\"PASS\"}");
}

#[test]
fn generation_respects_the_limit_and_end_token() {
    let mut g = GenerationState::new(2, false);
    assert_eq!(g.tokens_taken(), 0);
    assert!(!g.accept_piece("{\"action\":\"PASS\"}"));
    assert_eq!(g.tokens_taken(), 1);
    assert!(g.wants_token());
    assert!(!g.accept_piece(" more"));
    assert!(!g.wants_token());
    let mut h = GenerationState::new(5, true);
    h.end_of_generation();
    assert!(!h.wants_token());
    assert_eq!(h.final_answer(), "");
}
