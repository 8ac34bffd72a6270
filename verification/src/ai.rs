//! The part of the settings that the model endpoint needs, checked for
//! completeness.
use vstd::prelude::*;
use crate::config::AppConfig;
use crate::text::{is_blank, is_blank_str};

verus! {

/// Endpoint, key and model of an OpenAI-compatible chat API.
pub struct OpenAiConfig {
    pub api_base: String,
    pub api_key: String,
    pub model_name: String,
}

/// A setting that the model endpoint needs but that is blank.
pub enum OpenAiConfigError {
    MissingApiBase,
    MissingApiKey,
    MissingModelName,
}

impl OpenAiConfigError {
    /// The message shown to the user, naming the setting and how to set it.
    pub fn message(&self) -> (s: String)
        ensures
            s@ == match self {
                OpenAiConfigError::MissingApiBase =>
                    "缺少 OPENAI_API_BASE，请通过 `uicontrol login` 或环境变量配置"@,
                OpenAiConfigError::MissingApiKey =>
                    "缺少 OPENAI_API_KEY，请通过 `uicontrol login` 或环境变量配置"@,
                OpenAiConfigError::MissingModelName =>
                    "缺少 OPENAI_MODEL_NAME，请通过 `uicontrol login` 或环境变量配置"@,
            },
    {
        match self {
            OpenAiConfigError::MissingApiBase => String::from_str(
                "缺少 OPENAI_API_BASE，请通过 `uicontrol login` 或环境变量配置",
            ),
            OpenAiConfigError::MissingApiKey => String::from_str(
                "缺少 OPENAI_API_KEY，请通过 `uicontrol login` 或环境变量配置",
            ),
            OpenAiConfigError::MissingModelName => String::from_str(
                "缺少 OPENAI_MODEL_NAME，请通过 `uicontrol login` 或环境变量配置",
            ),
        }
    }
}

/// The endpoint settings taken from the loaded application settings: the
/// first blank one of base, key and model (in that order) is reported,
/// otherwise the three values are handed on unchanged.
pub fn load_openai_config(app_config: AppConfig) -> (r: Result<OpenAiConfig, OpenAiConfigError>)
    ensures
        is_blank(app_config.api_base@) ==> r matches Err(OpenAiConfigError::MissingApiBase),
        !is_blank(app_config.api_base@) && is_blank(app_config.api_key@) ==> r matches Err(
            OpenAiConfigError::MissingApiKey,
        ),
        !is_blank(app_config.api_base@) && !is_blank(app_config.api_key@) && is_blank(
            app_config.model_name@,
        ) ==> r matches Err(OpenAiConfigError::MissingModelName),
        !is_blank(app_config.api_base@) && !is_blank(app_config.api_key@) && !is_blank(
            app_config.model_name@,
        ) ==> (r matches Ok(c) && c.api_base@ == app_config.api_base@ && c.api_key@
            == app_config.api_key@ && c.model_name@ == app_config.model_name@),
{
    if is_blank_str(app_config.api_base.as_str()) {
        return Err(OpenAiConfigError::MissingApiBase);
    }
    if is_blank_str(app_config.api_key.as_str()) {
        return Err(OpenAiConfigError::MissingApiKey);
    }
    if is_blank_str(app_config.model_name.as_str()) {
        return Err(OpenAiConfigError::MissingModelName);
    }
    Ok(
        OpenAiConfig {
            api_base: app_config.api_base,
            api_key: app_config.api_key,
            model_name: app_config.model_name,
        },
    )
}

} // verus!
