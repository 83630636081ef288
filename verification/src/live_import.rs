//! How the live files are read as the settings of a provider.
use vstd::prelude::*;

use crate::claude::models_normalized;
use crate::codex::codex_settings;
use crate::config::{ConfigView, ManagerView, MultiAppConfig};
use crate::error::{joined, AppError, ErrorView};
use crate::json::{field, Json, JsonView};
use crate::live_files::{
    json_outcome, valid_text, valid_text_of, JsonRead, JsonReadView, TextRead, TextReadView,
};
use crate::live_write::{gemini_settings, make_gemini_settings};
use crate::model::{AppType, Provider, ProviderView};
use crate::providers::{has_none, put, with_id};
use crate::service::ProviderService;
use crate::snapshots::{empty_object, new_object, text_or_empty};

verus! {

/// What was read of the live files of an application.
pub enum LiveSettings {
    Claude { settings: JsonRead },
    Codex { auth: JsonRead, text: TextRead },
    /// The environment is given as a JSON document.
    Gemini { env: JsonRead, settings: JsonRead },
    OpenCode { config: JsonRead },
    OpenClaw { config: JsonRead },
}

impl LiveSettings {
    /// The application whose files were read.
    pub open spec fn app(self) -> AppType {
        match self {
            LiveSettings::Claude { .. } => AppType::Claude,
            LiveSettings::Codex { .. } => AppType::Codex,
            LiveSettings::Gemini { .. } => AppType::Gemini,
            LiveSettings::OpenCode { .. } => AppType::OpenCode,
            LiveSettings::OpenClaw { .. } => AppType::OpenClaw,
        }
    }

    /// The application whose files were read.
    pub fn app_type(&self) -> (r: AppType)
        ensures
            r == self.app(),
    {
        match self {
            LiveSettings::Claude { .. } => AppType::Claude,
            LiveSettings::Codex { .. } => AppType::Codex,
            LiveSettings::Gemini { .. } => AppType::Gemini,
            LiveSettings::OpenCode { .. } => AppType::OpenCode,
            LiveSettings::OpenClaw { .. } => AppType::OpenClaw,
        }
    }
}

/// The document of a file that must be there.
pub open spec fn required_json(read: JsonReadView, missing: ErrorView) -> Result<
    JsonView,
    ErrorView,
> {
    match read.content() {
        Ok(Some(json)) => Ok(json),
        Ok(None) => Err(missing),
        Err(error) => Err(error),
    }
}

/// Codex settings of the live files; a configuration that is not there counts as empty.
pub open spec fn codex_read(
    auth: JsonReadView,
    text: TextReadView,
    missing: ErrorView,
) -> Result<JsonView, ErrorView> {
    match (required_json(auth, missing), valid_text(text)) {
        (Err(error), _) => Err(error),
        (Ok(_), Err(error)) => Err(error),
        (Ok(auth), Ok(text)) => Ok(codex_settings(Some(auth), Some(text_or_empty(text)))),
    }
}

/// Gemini settings of the live files; a settings file that is not there counts as empty.
pub open spec fn gemini_read(
    env: JsonReadView,
    settings: JsonReadView,
    missing: ErrorView,
) -> Result<JsonView, ErrorView> {
    match (required_json(env, missing), settings.content()) {
        (Err(error), _) => Err(error),
        (Ok(_), Err(error)) => Err(error),
        (Ok(env), Ok(settings)) => Ok(
            gemini_settings(
                match field(env, "env"@) {
                    Some(vars) => vars,
                    None => empty_object(),
                },
                match settings {
                    Some(settings) => settings,
                    None => empty_object(),
                },
            ),
        ),
    }
}

/// The Codex file with the authentication is missing.
pub open spec fn codex_auth_missing() -> ErrorView {
    ErrorView::Localized {
        key: "codex.auth.missing"@,
        zh: "Codex 配置文件不存在：缺少 auth.json"@,
        en: "Codex configuration missing: auth.json not found"@,
    }
}

/// The Anthropic settings file is missing.
pub open spec fn claude_missing() -> ErrorView {
    ErrorView::Localized {
        key: "anthropic.live.missing"@,
        zh: "Anthropic 配置文件不存在"@,
        en: "Anthropic settings file is missing"@,
    }
}

/// The Gemini environment is missing.
pub open spec fn gemini_env_missing() -> ErrorView {
    ErrorView::Localized {
        key: "gemini.env.missing"@,
        zh: "Gemini .env 文件不存在"@,
        en: "Gemini .env file not found"@,
    }
}

/// The OpenCode configuration is missing.
pub open spec fn opencode_missing() -> ErrorView {
    ErrorView::Localized {
        key: "opencode.config.missing"@,
        zh: "OpenCode 配置文件不存在"@,
        en: "OpenCode configuration file not found"@,
    }
}

/// The OpenClaw configuration is missing.
pub open spec fn openclaw_missing() -> ErrorView {
    ErrorView::Localized {
        key: "openclaw.config.missing"@,
        zh: "OpenClaw 配置文件不存在"@,
        en: "OpenClaw configuration file not found"@,
    }
}

/// The settings that the live files hold.
pub open spec fn settings_read(live: LiveSettings) -> Result<JsonView, ErrorView> {
    match live {
        LiveSettings::Claude { settings } => required_json(settings@, claude_missing()),
        LiveSettings::Codex { auth, text } => codex_read(auth@, text@, codex_auth_missing()),
        LiveSettings::Gemini { env, settings } => gemini_read(
            env@,
            settings@,
            gemini_env_missing(),
        ),
        LiveSettings::OpenCode { config } => required_json(config@, opencode_missing()),
        LiveSettings::OpenClaw { config } => required_json(config@, openclaw_missing()),
    }
}

/// The document of a file that must be there.
fn require_json(read: JsonRead, missing: AppError) -> (r: Result<Json, AppError>)
    ensures
        json_outcome(r) == required_json(read@, missing@),
{
    match read.content() {
        Ok(Some(json)) => Ok(json),
        Ok(None) => Err(missing),
        Err(error) => Err(error),
    }
}

/// Reads Codex settings from the live files.
fn read_codex(auth: JsonRead, text: TextRead, missing: AppError) -> (r: Result<Json, AppError>)
    ensures
        json_outcome(r) == codex_read(auth@, text@, missing@),
{
    let auth = match require_json(auth, missing) {
        Ok(auth) => auth,
        Err(error) => {
            return Err(error);
        },
    };
    let text = match valid_text_of(text) {
        Ok(Some(text)) => text,
        Ok(None) => {
            let none = String::new();
            assert(none@ =~= Seq::empty());
            none
        },
        Err(error) => {
            return Err(error);
        },
    };
    let mut settings = new_object();
    settings.insert("auth", auth);
    settings.insert("config", Json::Str(text));
    Ok(settings)
}

/// Reads Gemini settings from the live files.
fn read_gemini(env: JsonRead, settings: JsonRead, missing: AppError) -> (r: Result<Json, AppError>)
    ensures
        json_outcome(r) == gemini_read(env@, settings@, missing@),
{
    let env = match require_json(env, missing) {
        Ok(env) => env,
        Err(error) => {
            return Err(error);
        },
    };
    let settings = match settings.content() {
        Ok(Some(settings)) => settings,
        Ok(None) => new_object(),
        Err(error) => {
            return Err(error);
        },
    };
    let vars = match env.get("env") {
        Some(vars) => vars.copy(),
        None => new_object(),
    };
    Ok(make_gemini_settings(vars, settings))
}

impl ProviderService {
    /// The settings that the live files of an application hold.
    pub fn read_live_settings(live: LiveSettings) -> (r: Result<Json, AppError>)
        ensures
            json_outcome(r) == settings_read(live),
    {
        match live {
            LiveSettings::Claude { settings } => require_json(
                settings,
                AppError::fixed(
                    "anthropic.live.missing",
                    "Anthropic 配置文件不存在",
                    "Anthropic settings file is missing",
                ),
            ),
            LiveSettings::Codex { auth, text } => read_codex(
                auth,
                text,
                AppError::fixed(
                    "codex.auth.missing",
                    "Codex 配置文件不存在：缺少 auth.json",
                    "Codex configuration missing: auth.json not found",
                ),
            ),
            LiveSettings::Gemini { env, settings } => read_gemini(
                env,
                settings,
                AppError::fixed(
                    "gemini.env.missing",
                    "Gemini .env 文件不存在",
                    "Gemini .env file not found",
                ),
            ),
            LiveSettings::OpenCode { config } => require_json(
                config,
                AppError::fixed(
                    "opencode.config.missing",
                    "OpenCode 配置文件不存在",
                    "OpenCode configuration file not found",
                ),
            ),
            LiveSettings::OpenClaw { config } => require_json(
                config,
                AppError::fixed(
                    "openclaw.config.missing",
                    "OpenClaw 配置文件不存在",
                    "OpenClaw configuration file not found",
                ),
            ),
        }
    }
}

/// There is nothing to import for Codex.
pub open spec fn codex_live_missing() -> ErrorView {
    ErrorView::Localized {
        key: "codex.live.missing"@,
        zh: "Codex 配置文件不存在"@,
        en: "Codex configuration file is missing"@,
    }
}

/// There is nothing to import for Gemini.
pub open spec fn gemini_live_missing() -> ErrorView {
    ErrorView::Localized {
        key: "gemini.live.missing"@,
        zh: "Gemini 配置文件不存在"@,
        en: "Gemini configuration file is missing"@,
    }
}

/// The settings that are imported from the live files.
pub open spec fn settings_imported(live: LiveSettings) -> Result<JsonView, ErrorView> {
    match live {
        LiveSettings::Claude { settings } => match required_json(settings@, claude_missing()) {
            Ok(settings) => Ok(models_normalized(settings)),
            Err(error) => Err(error),
        },
        LiveSettings::Codex { auth, text } => codex_read(auth@, text@, codex_live_missing()),
        LiveSettings::Gemini { env, settings } => gemini_read(
            env@,
            settings@,
            gemini_live_missing(),
        ),
        _ => settings_read(live),
    }
}

/// The provider that holds imported settings.
pub open spec fn default_provider(settings: JsonView) -> ProviderView {
    ProviderView {
        id: "default"@,
        name: "default"@,
        settings_config: settings,
        website_url: None,
        category: Some("custom"@),
        created_at: None,
        sort_index: None,
        meta: None,
    }
}

/// An application has no place for its providers.
pub open spec fn no_such_app(app_type: AppType) -> ErrorView {
    ErrorView::Localized {
        key: "provider.app_not_found"@,
        zh: "应用类型不存在: "@ + app_type.name(),
        en: "App type not found: "@ + app_type.name(),
    }
}

/// The providers of an application with another one added, or put in the place of the one
/// of its identifier.
pub open spec fn with_added(
    manager: ManagerView,
    id: Seq<char>,
    provider: ProviderView,
) -> ManagerView {
    ManagerView {
        ids: with_id(manager.ids, id),
        providers: manager.providers.insert(id, provider),
        current: manager.current,
    }
}

/// The configuration after the live files have been imported as its first provider; `None`
/// where that is not done, because the application has none of its own or has providers
/// already.
pub open spec fn default_imported(config: ConfigView, live: LiveSettings) -> Result<
    Option<ConfigView>,
    ErrorView,
> {
    let app = live.app();
    if app.additive() || (config.managers.contains_key(app) && config.managers[app].ids.len() > 0) {
        Ok(None)
    } else {
        match settings_imported(live) {
            Err(error) => Err(error),
            Ok(settings) => if config.managers.contains_key(app) {
                Ok(
                    Some(
                        config.with_manager(
                            app,
                            ManagerView {
                                current: "default"@,
                                ..with_added(
                                    config.managers[app],
                                    "default"@,
                                    default_provider(settings),
                                )
                            },
                        ),
                    ),
                )
            } else {
                Err(no_such_app(app))
            },
        }
    }
}

/// Whether an import came out as it should; one that fails or is not done changes
/// nothing. The result tells whether there is something to save.
pub open spec fn import_comes_out(
    expected: Result<Option<ConfigView>, ErrorView>,
    before: ConfigView,
    after: ConfigView,
    result: Result<bool, ErrorView>,
) -> bool {
    match expected {
        Ok(Some(config)) => result == Ok::<bool, ErrorView>(true) && after == config,
        Ok(None) => result == Ok::<bool, ErrorView>(false) && after == before,
        Err(error) => result == Err::<bool, ErrorView>(error) && after == before,
    }
}

/// What a truth value or an error says.
pub open spec fn bool_outcome(result: Result<bool, AppError>) -> Result<bool, ErrorView> {
    match result {
        Ok(flag) => Ok(flag),
        Err(error) => Err(error@),
    }
}

/// Reads the settings that are imported from the live files.
fn read_imported(live: LiveSettings) -> (r: Result<Json, AppError>)
    requires
        !live.app().additive(),
    ensures
        json_outcome(r) == settings_imported(live),
{
    match live {
        LiveSettings::Claude { settings } => {
            let settings = match require_json(
                settings,
                AppError::fixed(
                    "anthropic.live.missing",
                    "Anthropic 配置文件不存在",
                    "Anthropic settings file is missing",
                ),
            ) {
                Ok(settings) => settings,
                Err(error) => {
                    return Err(error);
                },
            };
            let mut settings = settings;
            ProviderService::normalize_claude_models_in_value(&mut settings);
            Ok(settings)
        },
        LiveSettings::Codex { auth, text } => read_codex(
            auth,
            text,
            AppError::fixed(
                "codex.live.missing",
                "Codex 配置文件不存在",
                "Codex configuration file is missing",
            ),
        ),
        LiveSettings::Gemini { env, settings } => read_gemini(
            env,
            settings,
            AppError::fixed(
                "gemini.live.missing",
                "Gemini 配置文件不存在",
                "Gemini configuration file is missing",
            ),
        ),
        live => ProviderService::read_live_settings(live),
    }
}

impl ProviderService {
    /// An application has no place for its providers.
    pub fn app_not_found(app_type: AppType) -> (r: AppError)
        ensures
            r@ == no_such_app(app_type),
    {
        AppError::localized(
            "provider.app_not_found",
            joined("应用类型不存在: ", app_type.display_name()),
            joined("App type not found: ", app_type.display_name()),
        )
    }

    /// Imports the live files of an application as its first provider, and tells whether
    /// there is something to save.
    pub fn import_default_config(config: &mut MultiAppConfig, live: LiveSettings) -> (r: Result<
        bool,
        AppError,
    >)
        ensures
            import_comes_out(
                default_imported(old(config)@, live),
                old(config)@,
                final(config)@,
                bool_outcome(r),
            ),
    {
        let app_type = live.app_type();
        if app_type.is_additive_mode() {
            return Ok(false);
        }
        if let Some(manager) = config.get_manager(app_type) {
            if !has_none(&manager.providers) {
                return Ok(false);
            }
        }
        let settings = match read_imported(live) {
            Ok(settings) => settings,
            Err(error) => {
                return Err(error);
            },
        };
        let mut provider = Provider::with_id(
            "default".to_owned(),
            "default".to_owned(),
            settings,
            None,
        );
        provider.category = Some("custom".to_owned());
        let ghost before = config@;
        match config.get_manager_mut(app_type) {
            Some(manager) => {
                put(&mut manager.providers, "default".to_owned(), provider);
                manager.current = "default".to_owned();
                Ok(true)
            },
            None => Err(Self::app_not_found(app_type)),
        }
    }
}

} // verus!
