//! What the settings of a provider must be.
use vstd::prelude::*;

use crate::claude::text_field;
use crate::common_config::{is_codex_official_provider, is_official};
use crate::error::{joined3, AppError, ErrorView};
use crate::json::{field, Json, JsonView};
use crate::live_files::unit_outcome;
use crate::model::{AppType, Provider, ProviderView};
use crate::service::ProviderService;
use crate::text::{blank, is_blank};
use crate::toml_plain::{config_toml_error, validate_config_toml};

verus! {

/// What is wrong with the authentication of a Codex provider. The official one needs
/// none; any other needs a key.
pub open spec fn codex_auth_error(provider: ProviderView) -> Option<ErrorView> {
    match field(provider.settings_config, "auth"@) {
        Some(JsonView::Object(auth)) => {
            let key = text_field(JsonView::Object(auth), "OPENAI_API_KEY"@);
            if is_official(provider) || (key is Some && !is_blank(key->0)) {
                None
            } else {
                Some(
                    ErrorView::Localized {
                        key: "provider.codex.api_key.missing"@,
                        zh: "供应商 "@ + provider.id + " 缺少 OPENAI_API_KEY"@,
                        en: "Provider "@ + provider.id + " is missing OPENAI_API_KEY"@,
                    },
                )
            }
        },
        Some(_) => Some(
            ErrorView::Localized {
                key: "provider.codex.auth.not_object"@,
                zh: "供应商 "@ + provider.id + " 的 auth 配置必须是 JSON 对象"@,
                en: "Provider "@ + provider.id + " auth configuration must be a JSON object"@,
            },
        ),
        None => if is_official(provider) {
            None
        } else {
            Some(
                ErrorView::Localized {
                    key: "provider.codex.auth.missing"@,
                    zh: "供应商 "@ + provider.id + " 缺少 auth 配置"@,
                    en: "Provider "@ + provider.id + " is missing auth configuration"@,
                },
            )
        },
    }
}

/// What is wrong with the settings of a Codex provider.
pub open spec fn codex_error(provider: ProviderView) -> Option<ErrorView> {
    if provider.settings_config is Object {
        match field(provider.settings_config, "config"@) {
            None => Some(
                ErrorView::Localized {
                    key: "provider.codex.config.missing"@,
                    zh: "供应商 "@ + provider.id + " 缺少 config 配置"@,
                    en: "Provider "@ + provider.id + " is missing config configuration"@,
                },
            ),
            Some(JsonView::Null) => codex_auth_error(provider),
            Some(JsonView::Str(text)) => match config_toml_error(text) {
                Some(error) => Some(error),
                None => codex_auth_error(provider),
            },
            Some(_) => Some(
                ErrorView::Localized {
                    key: "provider.codex.config.invalid_type"@,
                    zh: "Codex config 字段必须是字符串"@,
                    en: "Codex config field must be a string"@,
                },
            ),
        }
    } else {
        Some(
            ErrorView::Localized {
                key: "provider.codex.settings.not_object"@,
                zh: "Codex 配置必须是 JSON 对象"@,
                en: "Codex configuration must be a JSON object"@,
            },
        )
    }
}

/// Settings must be an object.
pub open spec fn object_error(
    settings: JsonView,
    key: Seq<char>,
    zh: Seq<char>,
    en: Seq<char>,
) -> Option<ErrorView> {
    if settings is Object {
        None
    } else {
        Some(ErrorView::Localized { key, zh, en })
    }
}

/// What an attempt that failed says.
pub open spec fn failure(outcome: Result<(), ErrorView>) -> Option<ErrorView> {
    match outcome {
        Ok(_) => None,
        Err(error) => Some(error),
    }
}

/// What is wrong with the settings of a provider, whatever its usage script.
pub open spec fn app_settings_error(
    app_type: AppType,
    provider: ProviderView,
    gemini: Result<(), ErrorView>,
) -> Option<ErrorView> {
    match app_type {
        AppType::Claude => object_error(
            provider.settings_config,
            "provider.anthropic.settings.not_object"@,
            "Anthropic 配置必须是 JSON 对象"@,
            "Anthropic configuration must be a JSON object"@,
        ),
        AppType::Codex => codex_error(provider),
        AppType::Gemini => failure(gemini),
        AppType::OpenCode => object_error(
            provider.settings_config,
            "provider.opencode.settings.not_object"@,
            "OpenCode 配置必须是 JSON 对象"@,
            "OpenCode configuration must be a JSON object"@,
        ),
        AppType::OpenClaw => object_error(
            provider.settings_config,
            "provider.openclaw.settings.not_object"@,
            "OpenClaw 配置必须是 JSON 对象"@,
            "OpenClaw configuration must be a JSON object"@,
        ),
    }
}

/// Whether the provider has a usage script.
pub open spec fn has_usage_script(provider: ProviderView) -> bool {
    provider.meta matches Some(meta) && meta.usage_script is Some
}

/// What is wrong with the settings of a provider. `gemini` is what Gemini says of the
/// settings of its provider, and `usage` what is wrong with a usage script.
pub open spec fn settings_error(
    app_type: AppType,
    provider: ProviderView,
    gemini: Result<(), ErrorView>,
    usage: Result<(), ErrorView>,
) -> Option<ErrorView> {
    match app_settings_error(app_type, provider, gemini) {
        Some(error) => Some(error),
        None => if has_usage_script(provider) {
            failure(usage)
        } else {
            None
        },
    }
}

/// Checks the authentication of a Codex provider.
fn check_codex_auth(provider: &Provider) -> (r: Result<(), AppError>)
    ensures
        failure(unit_outcome(r)) == codex_auth_error(provider@),
{
    let official = is_codex_official_provider(provider);
    match provider.settings_config.get("auth") {
        Some(auth) => {
            if !auth.is_object() {
                return Err(
                    AppError::localized(
                        "provider.codex.auth.not_object",
                        joined3("供应商 ", provider.id.as_str(), " 的 auth 配置必须是 JSON 对象"),
                        joined3(
                            "Provider ",
                            provider.id.as_str(),
                            " auth configuration must be a JSON object",
                        ),
                    ),
                );
            }
            if !official {
                let keyed = match auth.get("OPENAI_API_KEY") {
                    Some(value) => match value.as_str() {
                        Some(key) => !blank(key),
                        None => false,
                    },
                    None => false,
                };
                if !keyed {
                    return Err(
                        AppError::localized(
                            "provider.codex.api_key.missing",
                            joined3("供应商 ", provider.id.as_str(), " 缺少 OPENAI_API_KEY"),
                            joined3(
                                "Provider ",
                                provider.id.as_str(),
                                " is missing OPENAI_API_KEY",
                            ),
                        ),
                    );
                }
            }
            Ok(())
        },
        None => if official {
            Ok(())
        } else {
            Err(
                AppError::localized(
                    "provider.codex.auth.missing",
                    joined3("供应商 ", provider.id.as_str(), " 缺少 auth 配置"),
                    joined3("Provider ", provider.id.as_str(), " is missing auth configuration"),
                ),
            )
        },
    }
}

/// Checks the settings of a Codex provider.
fn check_codex(provider: &Provider) -> (r: Result<(), AppError>)
    ensures
        failure(unit_outcome(r)) == codex_error(provider@),
{
    if !provider.settings_config.is_object() {
        return Err(
            AppError::fixed(
                "provider.codex.settings.not_object",
                "Codex 配置必须是 JSON 对象",
                "Codex configuration must be a JSON object",
            ),
        );
    }
    match provider.settings_config.get("config") {
        None => Err(
            AppError::localized(
                "provider.codex.config.missing",
                joined3("供应商 ", provider.id.as_str(), " 缺少 config 配置"),
                joined3("Provider ", provider.id.as_str(), " is missing config configuration"),
            ),
        ),
        Some(Json::Null) => check_codex_auth(provider),
        Some(Json::Str(text)) => match validate_config_toml(text.as_str()) {
            Err(error) => Err(error),
            Ok(_) => check_codex_auth(provider),
        },
        Some(_) => Err(
            AppError::fixed(
                "provider.codex.config.invalid_type",
                "Codex config 字段必须是字符串",
                "Codex config field must be a string",
            ),
        ),
    }
}

/// Checks that settings are an object.
fn check_object(settings: &Json, key: &str, zh: &str, en: &str) -> (r: Result<(), AppError>)
    ensures
        failure(unit_outcome(r)) == object_error(settings@, key@, zh@, en@),
{
    if settings.is_object() {
        Ok(())
    } else {
        Err(AppError::fixed(key, zh, en))
    }
}

impl ProviderService {
    /// Checks the settings of a provider. `gemini` is what Gemini says of the settings of
    /// its provider, and `usage` what is wrong with a usage script.
    pub fn validate_provider_settings(
        app_type: AppType,
        provider: &Provider,
        gemini: Result<(), AppError>,
        usage: Result<(), AppError>,
    ) -> (r: Result<(), AppError>)
        ensures
            failure(unit_outcome(r)) == settings_error(
                app_type,
                provider@,
                unit_outcome(gemini),
                unit_outcome(usage),
            ),
    {
        let checked = match app_type {
            AppType::Claude => check_object(
                &provider.settings_config,
                "provider.anthropic.settings.not_object",
                "Anthropic 配置必须是 JSON 对象",
                "Anthropic configuration must be a JSON object",
            ),
            AppType::Codex => check_codex(provider),
            AppType::Gemini => gemini,
            AppType::OpenCode => check_object(
                &provider.settings_config,
                "provider.opencode.settings.not_object",
                "OpenCode 配置必须是 JSON 对象",
                "OpenCode configuration must be a JSON object",
            ),
            AppType::OpenClaw => check_object(
                &provider.settings_config,
                "provider.openclaw.settings.not_object",
                "OpenClaw 配置必须是 JSON 对象",
                "OpenClaw configuration must be a JSON object",
            ),
        };
        match checked {
            Err(error) => Err(error),
            Ok(_) => {
                if let Some(meta) = &provider.meta {
                    if meta.usage_script.is_some() {
                        return usage;
                    }
                }
                Ok(())
            },
        }
    }
}

} // verus!
