use paperflow::config::{ApiConfig, AppConfig, UpdateConfigRequest};

#[test]
fn key_file_in_env_format() {
    let c = AppConfig::parse_api_key_file(
        "# comment\n\nexport OPENAI_API_KEY=\"sk-1\"\nOPENAI_BASE_URL = 'https://api.minimaxi.com/v1'\nllm_model=MiniMax-M2.7\nPROVIDER=openai\nUNKNOWN=x\n",
    );
    assert_eq!(c.api_key, Some("sk-1".to_string()));
    assert_eq!(c.llm_base_url, Some("https://api.minimaxi.com/v1".to_string()));
    assert_eq!(c.llm_model, Some("MiniMax-M2.7".to_string()));
    assert_eq!(c.llm_provider, Some("openai".to_string()));
    assert_eq!(c.max_papers, None);
    assert_eq!(c.voice_speed_bits, None);
}

#[test]
fn key_file_with_a_bare_key() {
    let c = AppConfig::parse_api_key_file("  sk-plain  \r\nsecond-line\n");
    assert_eq!(c.api_key, Some("sk-plain".to_string()));
    assert_eq!(c.llm_model, None);
}

#[test]
fn key_file_skips_empty_and_unexpanded_values() {
    let c = AppConfig::parse_api_key_file("API_KEY=\nMODEL=${MODEL}\nMINIMAX_API_KEY=mm\nexport lonely\n");
    assert_eq!(c.api_key, Some("mm".to_string()));
    assert_eq!(c.llm_model, None);
    let d = AppConfig::parse_api_key_file("export lonely\n");
    assert_eq!(d.api_key, None);
}

#[test]
fn later_lines_win_for_keys() {
    let c = AppConfig::parse_api_key_file("API_KEY=a\nOPENAI_API_KEY=b\n");
    assert_eq!(c.api_key, Some("b".to_string()));
}

fn base() -> AppConfig {
    AppConfig::from_env_values(None, None, None)
}

#[test]
fn defaults_without_environment() {
    let c = base();
    assert_eq!(c.api_key, None);
    assert_eq!(c.llm_provider, Some("openai".to_string()));
    assert_eq!(c.llm_model, Some("gpt-4o-mini".to_string()));
    assert_eq!(c.llm_base_url, Some("https://api.openai.com".to_string()));
    assert_eq!(c.max_papers, Some(5));
    assert_eq!(f64::from_bits(c.voice_speed_bits.unwrap()), 5.0);
}

#[test]
fn defaults_with_only_a_minimax_key() {
    let c = AppConfig::from_env_values(None, Some("mm".to_string()), Some("https://x".to_string()));
    assert_eq!(c.api_key, Some("mm".to_string()));
    assert_eq!(c.llm_provider, Some("minimax".to_string()));
    assert_eq!(c.llm_model, Some("abab6.5s-chat".to_string()));
    assert_eq!(c.llm_base_url, Some("https://x".to_string()));
    let d = AppConfig::from_env_values(Some("oa".to_string()), Some("mm".to_string()), None);
    assert_eq!(d.api_key, Some("oa".to_string()));
    assert_eq!(d.llm_provider, Some("openai".to_string()));
}

#[test]
fn environment_key_beats_key_file_beats_config() {
    let mut cfg = base();
    cfg.api_key = Some("from-config".to_string());
    cfg.max_papers = Some(9);
    let file = "API_KEY=from-file\nMODEL=m2\nBASE_URL=https://file";
    let c = AppConfig::resolve(cfg, Some(file), None, Some("from-env".to_string()), None);
    assert_eq!(c.api_key, Some("from-env".to_string()));
    assert_eq!(c.llm_model, Some("m2".to_string()));
    assert_eq!(c.llm_base_url, Some("https://file".to_string()));
    assert_eq!(c.max_papers, Some(9));

    let mut cfg2 = base();
    cfg2.api_key = Some("from-config".to_string());
    let c2 = AppConfig::resolve(cfg2, Some(file), Some(String::new()), Some(String::new()), None);
    assert_eq!(c2.api_key, Some("from-file".to_string()));

    let mut cfg3 = base();
    cfg3.api_key = Some("from-config".to_string());
    let c3 = AppConfig::resolve(cfg3, Some("# nothing"), None, None, None);
    assert_eq!(c3.api_key, Some("from-config".to_string()));
}

#[test]
fn openai_environment_overrides_the_key_file() {
    let c = AppConfig::resolve(
        AppConfig::parse_api_key_file(""),
        Some("API_KEY=filek\nBASE_URL=https://file"),
        Some("envk".to_string()),
        Some("mm".to_string()),
        Some("https://env".to_string()),
    );
    assert_eq!(c.api_key, Some("mm".to_string()));
    assert_eq!(c.llm_base_url, Some("https://env".to_string()));
    let d = AppConfig::resolve(
        AppConfig::parse_api_key_file(""),
        Some("API_KEY=filek"),
        Some("envk".to_string()),
        None,
        None,
    );
    assert_eq!(d.api_key, Some("envk".to_string()));
}

#[test]
fn merge_takes_key_count_and_speed() {
    let mut a = base();
    let mut b = AppConfig::parse_api_key_file("");
    b.api_key = Some("k".to_string());
    b.max_papers = Some(3);
    b.llm_model = Some("ignored".to_string());
    a.merge(&b);
    assert_eq!(a.api_key, Some("k".to_string()));
    assert_eq!(a.max_papers, Some(3));
    assert_eq!(a.llm_model, Some("gpt-4o-mini".to_string()));
    assert_eq!(f64::from_bits(a.voice_speed_bits.unwrap()), 5.0);
}

#[test]
fn api_config_defaults_and_round_trip() {
    let empty = AppConfig::parse_api_key_file("");
    let api = ApiConfig::from_app_config(&empty);
    assert_eq!(api.max_papers, 5);
    assert_eq!(f64::from_bits(api.voice_speed_bits), 5.0);
    assert_eq!(api.api_key, None);
    assert_eq!(api.llm_provider, "openai");
    assert_eq!(api.llm_model, "gpt-4o-mini");
    assert_eq!(api.llm_base_url, "https://api.openai.com");
    let saved = api.to_app_config();
    assert_eq!(saved.max_papers, Some(5));
    let back = ApiConfig::from_app_config(&saved);
    assert_eq!(back.max_papers, api.max_papers);
    assert_eq!(back.voice_speed_bits, api.voice_speed_bits);
    assert_eq!(back.api_key, api.api_key);
    assert_eq!(back.llm_provider, api.llm_provider);
    assert_eq!(back.llm_model, api.llm_model);
    assert_eq!(back.llm_base_url, api.llm_base_url);
}

#[test]
fn update_request_changes_only_given_settings() {
    let mut api = ApiConfig::from_app_config(&base());
    api.apply_update(UpdateConfigRequest {
        max_papers: Some(12),
        voice_speed_bits: None,
        api_key: Some("new".to_string()),
    });
    assert_eq!(api.max_papers, 12);
    assert_eq!(f64::from_bits(api.voice_speed_bits), 5.0);
    assert_eq!(api.api_key, Some("new".to_string()));
    assert_eq!(api.llm_model, "gpt-4o-mini");
}

#[test]
fn key_file_skips_dollar_variables() {
    let c = AppConfig::parse_api_key_file("API_KEY=$MY_KEY\nMODEL=${M}\n");
    assert_eq!(c.api_key, None);
    assert_eq!(c.llm_model, None);
}
