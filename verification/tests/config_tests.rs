use uicontrol::config::{
    join_path_str, mask_api_key, setting_sources, show_report, AppConfig, EnvSettings,
    PartialAppConfig, SettingSource,
};

fn empty_file() -> PartialAppConfig {
    PartialAppConfig { api_base: None, api_key: None, model_name: None, agent_max_rounds: None }
}

fn no_vars() -> EnvSettings {
    EnvSettings { api_base: None, api_key: None, model_name: None, agent_max_rounds: None }
}

fn vars(base: Option<&str>, key: Option<&str>, model: Option<&str>, rounds: Option<&str>) -> EnvSettings {
    EnvSettings {
        api_base: base.map(|s| s.to_string()),
        api_key: key.map(|s| s.to_string()),
        model_name: model.map(|s| s.to_string()),
        agent_max_rounds: rounds.map(|s| s.to_string()),
    }
}

#[test]
fn mask_api_key_shows_only_both_ends() {
    assert_eq!(mask_api_key("sk-1234567890abcd"), "sk-1...abcd");
    assert_eq!(mask_api_key("short"), "****");
    assert_eq!(mask_api_key("12345678"), "****");
    assert_eq!(mask_api_key("   "), "(未设置)");
    assert_eq!(mask_api_key(""), "(未设置)");
}

#[test]
fn environment_wins_over_file_and_defaults() {
    let file = PartialAppConfig {
        api_base: Some("https://file.example/v1".to_string()),
        api_key: Some("file-key".to_string()),
        model_name: Some("file-model".to_string()),
        agent_max_rounds: Some(7),
    };
    let c = AppConfig::from_sources(
        vars(Some("https://env.example/v1"), None, Some("env-model"), Some("12")),
        file,
        vars(Some("https://dotenv.example/v1"), Some("dotenv-key"), Some("dotenv-model"), Some("5")),
    );
    assert_eq!(c.api_base, "https://env.example/v1");
    assert_eq!(c.api_key, "file-key");
    assert_eq!(c.model_name, "env-model");
    assert_eq!(c.agent_max_rounds, 12);
}

#[test]
fn defaults_fill_what_no_source_gives() {
    let c = AppConfig::from_sources(no_vars(), empty_file(), no_vars());
    assert_eq!(c.api_base, "https://api.openai.com/v1");
    assert_eq!(c.api_key, "");
    assert_eq!(c.model_name, "qwen3.5-plus");
    assert_eq!(c.agent_max_rounds, 30);
    let d = AppConfig::default();
    assert_eq!(d.api_base, c.api_base);
    assert_eq!(d.model_name, c.model_name);
    assert_eq!(d.agent_max_rounds, 30);
}

#[test]
fn unparsable_round_limit_in_environment_is_passed_over() {
    let mut file = empty_file();
    file.agent_max_rounds = Some(9);
    let c = AppConfig::from_sources(vars(None, None, None, Some("many")), file, no_vars());
    assert_eq!(c.agent_max_rounds, 9);
    let c2 = AppConfig::from_sources(vars(None, None, None, Some("-3")), empty_file(), no_vars());
    assert_eq!(c2.agent_max_rounds, 30);
    let c3 = AppConfig::from_sources(no_vars(), empty_file(), vars(None, None, None, Some("x")));
    assert_eq!(c3.agent_max_rounds, 30);
}

#[test]
fn config_file_wins_over_dotenv() {
    let mut file = empty_file();
    file.model_name = Some("b".to_string());
    let c = AppConfig::from_sources(
        no_vars(),
        file,
        vars(Some("https://dotenv.example/v1"), Some("dotenv-key"), Some("a"), Some("8")),
    );
    assert_eq!(c.model_name, "b");
    assert_eq!(c.api_base, "https://dotenv.example/v1");
    assert_eq!(c.api_key, "dotenv-key");
    assert_eq!(c.agent_max_rounds, 8);
}

#[test]
fn sectioned_entries_come_before_flat_ones() {
    let sectioned = PartialAppConfig {
        api_base: Some("s".to_string()),
        api_key: None,
        model_name: None,
        agent_max_rounds: Some(4),
    };
    let flat = PartialAppConfig {
        api_base: Some("f".to_string()),
        api_key: Some("k".to_string()),
        model_name: None,
        agent_max_rounds: Some(6),
    };
    let m = sectioned.or_else(flat);
    assert_eq!(m.api_base.as_deref(), Some("s"));
    assert_eq!(m.api_key.as_deref(), Some("k"));
    assert_eq!(m.model_name, None);
    assert_eq!(m.agent_max_rounds, Some(4));
}

#[test]
fn login_keeps_the_current_key_when_input_is_blank() {
    let current = AppConfig {
        api_base: "a".to_string(),
        api_key: "old-key".to_string(),
        model_name: "m".to_string(),
        agent_max_rounds: 3,
    };
    let c = AppConfig::login_result(current, "b".to_string(), "  ".to_string(), "n".to_string(), 30);
    assert_eq!(c.api_base, "b");
    assert_eq!(c.api_key, "old-key");
    assert_eq!(c.model_name, "n");
    assert_eq!(c.agent_max_rounds, 30);
    let current2 = AppConfig::default();
    let c2 = AppConfig::login_result(current2, "b".to_string(), "new".to_string(), "n".to_string(), 1);
    assert_eq!(c2.api_key, "new");
}

#[test]
fn show_report_lists_settings_with_masked_key_and_sources() {
    let env = vars(None, Some("sk-abcdefghijkl"), None, None);
    let file = PartialAppConfig {
        api_base: Some("https://api.example.com/v1".to_string()),
        api_key: None,
        model_name: Some("gpt-4o".to_string()),
        agent_max_rounds: None,
    };
    let sources = setting_sources(&env, &file, &no_vars());
    assert!(matches!(sources.api_base, SettingSource::ConfigFile));
    assert!(matches!(sources.api_key, SettingSource::Environment));
    assert!(matches!(sources.model_name, SettingSource::ConfigFile));
    assert!(matches!(sources.agent_max_rounds, SettingSource::Default));
    let c = AppConfig::from_sources(env, file, no_vars());
    let rule = "━━━━━━━━━━━━━━━━━━━━━━━━━━━━━━━━━━━━━━━━";
    let expected = format!(
        "当前配置（来源优先级：环境变量 > config.toml > .env > 默认值）\n{rule}\n  API Base:    https://api.example.com/v1  [config.toml]\n  API Key:     sk-a...ijkl                 [环境变量]\n  Model Name:  gpt-4o                      [config.toml]\n  Max Rounds:  30                          [默认值]\n{rule}"
    );
    assert_eq!(show_report(&c, &sources), expected);
}

#[test]
fn sources_follow_the_precedence() {
    let sources = setting_sources(
        &vars(None, None, None, Some("x")),
        &empty_file(),
        &vars(Some("b"), None, None, Some("7")),
    );
    assert!(matches!(sources.api_base, SettingSource::DotEnv));
    assert!(matches!(sources.api_key, SettingSource::Default));
    assert!(matches!(sources.agent_max_rounds, SettingSource::DotEnv));
}

#[test]
fn path_join_adds_one_separator() {
    assert_eq!(join_path_str("/home/u", ".config"), "/home/u/.config");
    assert_eq!(join_path_str("/home/u/", ".config"), "/home/u/.config");
    assert_eq!(join_path_str("", "x"), "x");
}

#[test]
fn config_file_lies_under_the_home_directory() {
    if let Ok(p) = AppConfig::config_file_path() {
        assert!(p.ends_with("/.config/uicontrol/config.toml"));
        let d = AppConfig::config_dir().ok().unwrap();
        assert_eq!(format!("{}/config.toml", d), p);
    }
}

#[test]
fn settings_paths_lie_below_the_given_home() {
    assert_eq!(AppConfig::config_dir_under("/Users/ann"), "/Users/ann/.config/uicontrol");
    assert_eq!(AppConfig::config_file_under("/Users/ann/"), "/Users/ann/.config/uicontrol/config.toml");
}
