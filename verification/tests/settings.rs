use rust_ai_agent::cli::{
    benchmark_model_path, flag_value, has_flag, resolve_block_duration, resolve_log_path,
    resolve_model_path, resolve_rate_limit, resolve_window_size,
};
use rust_ai_agent::config::{
    bool_setting, resolve_model_download, u32_setting, usize_setting, DEFAULT_MODEL_PATH,
};

fn args(a: &[&str]) -> Vec<String> {
    a.iter().map(|s| s.to_string()).collect()
}

#[test]
fn bool_settings_accept_common_spellings() {
    for yes in ["1", "true", " TRUE ", "Yes", "on"] {
        assert!(bool_setting(Some(yes), false), "{yes}");
    }
    for no in ["0", "false", "No", " OFF\n"] {
        assert!(!bool_setting(Some(no), true), "{no}");
    }
    assert!(bool_setting(Some("maybe"), true));
    assert!(!bool_setting(Some("maybe"), false));
    assert!(bool_setting(None, true));
}

#[test]
fn number_settings_fall_back_to_default() {
    assert_eq!(usize_setting(Some("4096"), 7), 4096);
    assert_eq!(usize_setting(Some("+12"), 7), 12);
    assert_eq!(usize_setting(Some(" 12"), 7), 7);
    assert_eq!(usize_setting(Some("-1"), 7), 7);
    assert_eq!(usize_setting(None, 7), 7);
    assert_eq!(u32_setting(Some("42"), 1), 42);
    assert_eq!(u32_setting(Some("4294967296"), 1), 1);
    assert_eq!(u32_setting(Some("4294967295"), 1), 4294967295);
}

#[test]
fn download_target_is_the_default_model() {
    let (url, path) = resolve_model_download();
    assert!(url.starts_with("https://huggingface.co/"));
    assert_eq!(path, DEFAULT_MODEL_PATH);
}

#[test]
fn agent_options() {
    let a = args(&["agent", "--dry-run", "--window", "7", "--log", "/tmp/a.log", "--rate-limit", "x"]);
    assert!(has_flag(&a, "--dry-run"));
    assert!(!has_flag(&a, "--model"));
    assert_eq!(flag_value(&a, "--log"), Some("/tmp/a.log".to_owned()));
    assert_eq!(resolve_window_size(&a), 7);
    assert_eq!(resolve_log_path(&a), "/tmp/a.log");
    assert_eq!(resolve_rate_limit(&a), 500);
    assert_eq!(resolve_block_duration(&a), 600);
    assert_eq!(resolve_model_path(&a, Some("env.gguf")), "env.gguf");
    assert_eq!(resolve_model_path(&a, None), DEFAULT_MODEL_PATH);
    let b = args(&["agent", "--model", "m.gguf", "--block-duration"]);
    assert_eq!(resolve_model_path(&b, Some("env.gguf")), "m.gguf");
    assert_eq!(resolve_block_duration(&b), 600);
    assert_eq!(resolve_log_path(&args(&["agent"])), "/var/log/nginx/access.log");
}

#[test]
fn benchmark_model_path_prefers_first_argument() {
    assert_eq!(benchmark_model_path(&args(&["bench", "x.gguf"]), Some("e")), "x.gguf");
    assert_eq!(benchmark_model_path(&args(&["bench", "--flag"]), Some("e")), "e");
    assert_eq!(benchmark_model_path(&args(&["bench"]), None), DEFAULT_MODEL_PATH);
}
