use lauren_chatbot::config::{parse_u16, AppConfig};

#[test]
fn test_test_config() {
    let config = AppConfig::test_config();
    assert_eq!(config.openrouter_api_key, "test-key");
    assert_eq!(config.llm_model, "test-model");
    assert_eq!(config.port, 8000);
}

#[test]
fn test_from_env_with_defaults() {
    let config = AppConfig::from_env_values(None, None, None, None, None);
    assert_eq!(config.llm_model, "poolside/laguna-xs.2:free");
    assert_eq!(config.llm_base_url, "https://openrouter.ai/api/v1");
    assert_eq!(config.port, 8000);
    assert_eq!(config.openrouter_api_key, "test-api-key");
    assert_eq!(config.payload_secret, "test-secret");
}

#[test]
fn settings_given_override_defaults() {
    let config = AppConfig::from_env_values(
        Some("k".into()),
        Some("m".into()),
        Some("http://x".into()),
        Some("s".into()),
        Some("9090".into()),
    );
    assert_eq!(config.openrouter_api_key, "k");
    assert_eq!(config.llm_model, "m");
    assert_eq!(config.llm_base_url, "http://x");
    assert_eq!(config.payload_secret, "s");
    assert_eq!(config.port, 9090);
}

#[test]
fn unparsable_port_falls_back() {
    assert_eq!(AppConfig::from_env_values(None, None, None, None, Some("80a".into())).port, 8000);
    assert_eq!(AppConfig::from_env_values(None, None, None, None, Some("70000".into())).port, 8000);
}

#[test]
fn port_parsing_agrees_with_std() {
    for text in ["0", "8000", "+8000", "65535", "65536", "", "+", "-1", " 80", "80 ", "007", "99999999999"] {
        assert_eq!(parse_u16(text), text.parse::<u16>().ok(), "text {:?}", text);
    }
}
