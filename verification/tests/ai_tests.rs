use uicontrol::ai::{load_openai_config, OpenAiConfigError};
use uicontrol::config::AppConfig;

fn cfg(base: &str, key: &str, model: &str) -> AppConfig {
    AppConfig {
        api_base: base.to_string(),
        api_key: key.to_string(),
        model_name: model.to_string(),
        agent_max_rounds: 20,
    }
}

#[test]
fn complete_settings_are_handed_on() {
    let c = load_openai_config(cfg("https://x/v1", "k", "m")).ok().unwrap();
    assert_eq!(c.api_base, "https://x/v1");
    assert_eq!(c.api_key, "k");
    assert_eq!(c.model_name, "m");
}

#[test]
fn first_blank_setting_is_reported() {
    assert!(matches!(load_openai_config(cfg(" ", "", "")), Err(OpenAiConfigError::MissingApiBase)));
    assert!(matches!(load_openai_config(cfg("b", "\t", "")), Err(OpenAiConfigError::MissingApiKey)));
    assert!(matches!(load_openai_config(cfg("b", "k", "")), Err(OpenAiConfigError::MissingModelName)));
}

#[test]
fn error_messages_name_the_setting() {
    assert_eq!(
        OpenAiConfigError::MissingApiKey.message(),
        "缺少 OPENAI_API_KEY，请通过 `uicontrol login` 或环境变量配置"
    );
    assert_eq!(
        OpenAiConfigError::MissingApiBase.message(),
        "缺少 OPENAI_API_BASE，请通过 `uicontrol login` 或环境变量配置"
    );
    assert_eq!(
        OpenAiConfigError::MissingModelName.message(),
        "缺少 OPENAI_MODEL_NAME，请通过 `uicontrol login` 或环境变量配置"
    );
}
