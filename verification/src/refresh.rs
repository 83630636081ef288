//! How a provider takes its settings back after they have gone to the live files.
use vstd::prelude::*;

use crate::claude::models_normalized;
use crate::common_config::{
    outcome, provider_uses_common_config, snippet_extracted, synced_codex_mcp_server_ids,
    synced_ids, uses_common,
};
use crate::config::{ConfigView, MultiAppConfig};
use crate::error::{joined, joined3, AppError, ErrorView};
use crate::json::{field, Json, JsonView};
use crate::live_files::{
    json_outcome, maybe_json, unit_outcome, valid_text, valid_text_of, JsonRead, JsonReadView,
    TextRead, TextReadView,
};
use crate::model::{borrow_text, copy_text, maybe_text, AppType, Provider, ProviderView};
use crate::service::ProviderService;
use crate::snapshots::{
    comes_out, explicit_choice, gemini_live, live_stored, make_gemini_live, make_provider_text,
    provider_text, store_live, text_or_empty,
};
use crate::text::{blank, is_blank};

verus! {

/// What was read of the live files after they were written.
pub enum LiveAfter {
    Claude { settings: JsonRead },
    Codex { auth: JsonRead, text: TextRead },
    /// The environment is given as a JSON document.
    Gemini { env: JsonRead, settings: JsonRead },
    /// All providers of the live file, by identifier.
    OpenCode { providers: Result<Json, AppError> },
    /// All providers of the live file, by identifier.
    OpenClaw { providers: Result<Json, AppError> },
}

/// A live file that should have been written is missing.
pub open spec fn missing_live(app_type: AppType) -> ErrorView {
    if app_type == AppType::Gemini {
        ErrorView::Localized {
            key: "gemini.live.missing"@,
            zh: "Gemini .env 文件不存在，无法刷新快照"@,
            en: "Gemini .env file missing; cannot refresh snapshot"@,
        }
    } else {
        ErrorView::Localized {
            key: "anthropic.live.missing"@,
            zh: "Anthropic 设置文件不存在，无法刷新快照"@,
            en: "Anthropic settings file missing; cannot refresh snapshot"@,
        }
    }
}

/// The configuration after an Anthropic provider has been refreshed.
pub open spec fn claude_refreshed(
    config: ConfigView,
    id: Seq<char>,
    settings: JsonReadView,
) -> Result<ConfigView, ErrorView> {
    match settings.content() {
        Err(error) => Err(error),
        Ok(None) => Err(missing_live(AppType::Claude)),
        Ok(Some(live)) => live_stored(config, AppType::Claude, id, models_normalized(live)),
    }
}

/// The configuration after a Gemini provider has been refreshed.
pub open spec fn gemini_refreshed(
    config: ConfigView,
    id: Seq<char>,
    env: JsonReadView,
    settings: JsonReadView,
) -> Result<ConfigView, ErrorView> {
    match (env.content(), settings.content()) {
        (Err(error), _) => Err(error),
        (Ok(None), _) => Err(missing_live(AppType::Gemini)),
        (Ok(Some(_)), Err(error)) => Err(error),
        (Ok(Some(env)), Ok(settings)) => live_stored(
            config,
            AppType::Gemini,
            id,
            gemini_live(env, settings),
        ),
    }
}

/// A provider is not in the live file of its application.
pub open spec fn missing_provider(app_type: AppType, id: Seq<char>) -> ErrorView {
    if app_type == AppType::OpenCode {
        ErrorView::Localized {
            key: "opencode.live.missing_provider"@,
            zh: "OpenCode live 配置中缺少供应商: "@ + id,
            en: "OpenCode live config missing provider: "@ + id,
        }
    } else {
        ErrorView::Localized {
            key: "openclaw.live.missing_provider"@,
            zh: "OpenClaw live 配置中缺少供应商: "@ + id,
            en: "OpenClaw live config missing provider: "@ + id,
        }
    }
}

/// The configuration after a provider has been refreshed whose application keeps all
/// providers in one live file.
pub open spec fn listed_refreshed(
    config: ConfigView,
    app_type: AppType,
    id: Seq<char>,
    providers: Result<JsonView, ErrorView>,
) -> Result<ConfigView, ErrorView> {
    match providers {
        Err(error) => Err(error),
        Ok(providers) => match field(providers, id) {
            None => Err(missing_provider(app_type, id)),
            Some(live) => Ok(
                match config.provider(app_type, id) {
                    Some(provider) => config.with_provider(
                        app_type,
                        id,
                        provider.with_settings(live),
                    ),
                    None => config,
                },
            ),
        },
    }
}

/// The settings of a Codex provider with what was read; an authentication that is not
/// there is taken away.
pub open spec fn with_codex_live(
    settings: JsonView,
    auth: Option<JsonView>,
    text: Seq<char>,
) -> JsonView {
    let members = settings->Object_0;
    JsonView::Object(
        (match auth {
            Some(auth) => members.insert("auth"@, auth),
            None => members.remove("auth"@),
        }).insert("config"@, JsonView::Str(text)),
    )
}

/// What the common Codex snippet is after a configuration has given one.
pub open spec fn snippet_filled(
    config: ConfigView,
    id: Seq<char>,
    extracted: Seq<char>,
) -> Option<Seq<char>> {
    let stored = config.snippet(AppType::Codex);
    if explicit_choice(config, id) != Some(false) && !is_blank(extracted) && is_blank(
        text_or_empty(stored),
    ) {
        Some(extracted)
    } else {
        stored
    }
}

/// The provider after it has been refreshed.
pub open spec fn codex_provider_refreshed(
    provider: ProviderView,
    uses: bool,
    auth: Option<JsonView>,
    text: Seq<char>,
) -> ProviderView {
    (if uses {
        provider.noted_common()
    } else {
        provider
    }).with_settings(with_codex_live(provider.settings_config, auth, text))
}

/// Whether the provider of that identifier uses the common snippet.
pub open spec fn codex_uses(config: ConfigView, id: Seq<char>) -> bool {
    match config.provider(AppType::Codex, id) {
        Some(provider) => uses_common(AppType::Codex, provider, config.snippet(AppType::Codex)),
        None => false,
    }
}

/// The configuration after a Codex provider has been refreshed, once it is settled what
/// is stored of the live configuration and which snippet that gives. The snippet, and the
/// note that the provider uses it, stay where the settings of the provider are no object.
pub open spec fn codex_texts_stored(
    config: ConfigView,
    id: Seq<char>,
    auth: Option<JsonView>,
    extracted: Seq<char>,
    stored: Seq<char>,
    after: ConfigView,
    result: Result<(), ErrorView>,
) -> bool {
    let filled = config.with_snippet(AppType::Codex, snippet_filled(config, id, extracted));
    let uses = codex_uses(config, id);
    match config.provider(AppType::Codex, id) {
        None => result is Ok && after == filled,
        Some(provider) => if provider.settings_config is Object {
            result is Ok && after == filled.with_provider(
                AppType::Codex,
                id,
                codex_provider_refreshed(provider, uses, auth, stored),
            )
        } else {
            &&& result == Err::<(), ErrorView>(
                ErrorView::Config("供应商 "@ + id + " 的 Codex 配置必须是 JSON 对象"@),
            )
            &&& after == filled.with_provider(
                AppType::Codex,
                id,
                if uses {
                    provider.noted_common()
                } else {
                    provider
                },
            )
        },
    }
}

/// The configuration after a Codex provider has been refreshed, once it is settled which
/// snippet the live configuration gives.
pub open spec fn codex_snippet_known(
    config: ConfigView,
    id: Seq<char>,
    auth: Option<JsonView>,
    text: Seq<char>,
    extracted: Seq<char>,
    after: ConfigView,
    result: Result<(), ErrorView>,
) -> bool {
    exists|stored: Result<Seq<char>, ErrorView>| #[trigger]
        provider_text(
            codex_uses(config, id),
            config.snippet(AppType::Codex),
            synced_ids(config),
            text,
            stored,
        ) && match stored {
            Ok(stored) => codex_texts_stored(config, id, auth, extracted, stored, after, result),
            Err(error) => result == Err::<(), ErrorView>(error) && after == config,
        }
}

/// The configuration after a Codex provider has been refreshed from a text.
pub open spec fn codex_text_refreshed(
    config: ConfigView,
    id: Seq<char>,
    auth: Option<JsonView>,
    text: Seq<char>,
    after: ConfigView,
    result: Result<(), ErrorView>,
) -> bool {
    exists|extracted: Result<Seq<char>, ErrorView>| #[trigger]
        snippet_extracted(text, extracted) && match extracted {
            Err(error) => result == Err::<(), ErrorView>(error) && after == config,
            Ok(extracted) => codex_snippet_known(
                config,
                id,
                auth,
                text,
                extracted,
                after,
                result,
            ),
        }
}

/// The configuration after a Codex provider has been refreshed. A live configuration that
/// is not there counts as empty.
pub open spec fn codex_refreshed(
    config: ConfigView,
    id: Seq<char>,
    auth: JsonReadView,
    text: TextReadView,
    after: ConfigView,
    result: Result<(), ErrorView>,
) -> bool {
    match (auth.content(), valid_text(text)) {
        (Err(error), _) => result == Err::<(), ErrorView>(error) && after == config,
        (Ok(_), Err(error)) => result == Err::<(), ErrorView>(error) && after == config,
        (Ok(auth), Ok(text)) => codex_text_refreshed(
            config,
            id,
            auth,
            text_or_empty(text),
            after,
            result,
        ),
    }
}

/// The configuration after a provider has been refreshed; one that cannot be changes
/// nothing.
pub open spec fn refreshed(
    config: ConfigView,
    id: Seq<char>,
    live: LiveAfter,
    after: ConfigView,
    result: Result<(), ErrorView>,
) -> bool {
    match live {
        LiveAfter::Claude { settings } => comes_out(
            claude_refreshed(config, id, settings@),
            config,
            after,
            result,
        ),
        LiveAfter::Codex { auth, text } => codex_refreshed(
            config,
            id,
            auth@,
            text@,
            after,
            result,
        ),
        LiveAfter::Gemini { env, settings } => comes_out(
            gemini_refreshed(config, id, env@, settings@),
            config,
            after,
            result,
        ),
        LiveAfter::OpenCode { providers } => comes_out(
            listed_refreshed(config, AppType::OpenCode, id, json_outcome(providers)),
            config,
            after,
            result,
        ),
        LiveAfter::OpenClaw { providers } => comes_out(
            listed_refreshed(config, AppType::OpenClaw, id, json_outcome(providers)),
            config,
            after,
            result,
        ),
    }
}

/// Refreshes an Anthropic provider.
fn refresh_claude(config: &mut MultiAppConfig, id: &str, settings: JsonRead) -> (r: Result<
    (),
    AppError,
>)
    ensures
        comes_out(
            claude_refreshed(old(config)@, id@, settings@),
            old(config)@,
            final(config)@,
            unit_outcome(r),
        ),
{
    match settings.content() {
        Err(error) => Err(error),
        Ok(None) => Err(
            AppError::fixed(
                "anthropic.live.missing",
                "Anthropic 设置文件不存在，无法刷新快照",
                "Anthropic settings file missing; cannot refresh snapshot",
            ),
        ),
        Ok(Some(live)) => {
            let mut live = live;
            ProviderService::normalize_claude_models_in_value(&mut live);
            store_live(config, AppType::Claude, id, live)
        },
    }
}

/// Refreshes a Gemini provider.
fn refresh_gemini(
    config: &mut MultiAppConfig,
    id: &str,
    env: JsonRead,
    settings: JsonRead,
) -> (r: Result<(), AppError>)
    ensures
        comes_out(
            gemini_refreshed(old(config)@, id@, env@, settings@),
            old(config)@,
            final(config)@,
            unit_outcome(r),
        ),
{
    match env.content() {
        Err(error) => Err(error),
        Ok(None) => Err(
            AppError::fixed(
                "gemini.live.missing",
                "Gemini .env 文件不存在，无法刷新快照",
                "Gemini .env file missing; cannot refresh snapshot",
            ),
        ),
        Ok(Some(env)) => match settings.content() {
            Err(error) => Err(error),
            Ok(settings) => store_live(
                config,
                AppType::Gemini,
                id,
                make_gemini_live(env, settings),
            ),
        },
    }
}

/// Refreshes a provider whose application keeps all providers in one live file.
fn refresh_listed(
    config: &mut MultiAppConfig,
    app_type: AppType,
    id: &str,
    providers: Result<Json, AppError>,
) -> (r: Result<(), AppError>)
    ensures
        comes_out(
            listed_refreshed(old(config)@, app_type, id@, json_outcome(providers)),
            old(config)@,
            final(config)@,
            unit_outcome(r),
        ),
{
    let providers = match providers {
        Ok(providers) => providers,
        Err(error) => {
            return Err(error);
        },
    };
    match providers.get(id) {
        None => if matches!(app_type, AppType::OpenCode) {
            Err(
                AppError::localized(
                    "opencode.live.missing_provider",
                    joined("OpenCode live 配置中缺少供应商: ", id),
                    joined("OpenCode live config missing provider: ", id),
                ),
            )
        } else {
            Err(
                AppError::localized(
                    "openclaw.live.missing_provider",
                    joined("OpenClaw live 配置中缺少供应商: ", id),
                    joined("OpenClaw live config missing provider: ", id),
                ),
            )
        },
        Some(live) => {
            if let Some(provider) = config.find_provider(app_type, id) {
                let mut provider = provider.copy();
                provider.settings_config = live.copy();
                config.replace_provider(app_type, id, provider);
            }
            Ok(())
        },
    }
}

/// Stores what is stored of a live Codex configuration, and the snippet that it gives.
fn store_codex_texts(
    config: &mut MultiAppConfig,
    id: &str,
    auth: Option<Json>,
    extracted: String,
    stored: String,
) -> (r: Result<(), AppError>)
    ensures
        codex_texts_stored(
            old(config)@,
            id@,
            maybe_json(auth),
            extracted@,
            stored@,
            final(config)@,
            unit_outcome(r),
        ),
{
    let ghost before = config@;
    let uses = match config.find_provider(AppType::Codex, id) {
        Some(provider) => provider_uses_common_config(
            AppType::Codex,
            provider,
            borrow_text(&config.common_config_snippets.codex),
        ),
        None => false,
    };
    let found: Option<Provider> = match config.find_provider(AppType::Codex, id) {
        Some(provider) => Some(provider.copy()),
        None => None,
    };
    let declined = match &found {
        Some(provider) => provider.apply_common_config() == Some(false),
        None => false,
    };
    let unset = match borrow_text(&config.common_config_snippets.codex) {
        Some(text) => blank(text),
        None => true,
    };
    assert(is_blank(Seq::<char>::empty()));
    let snippet = if !declined && !blank(extracted.as_str()) && unset {
        Some(extracted)
    } else {
        copy_text(&config.common_config_snippets.codex)
    };
    assert(maybe_text(snippet) == snippet_filled(before, id@, extracted@));
    match found {
        None => {
            config.set_snippet(AppType::Codex, snippet);
            Ok(())
        },
        Some(provider) => {
            let mut provider = provider;
            config.set_snippet(AppType::Codex, snippet);
            if uses {
                provider.note_common();
            }
            if !provider.settings_config.is_object() {
                config.replace_provider(AppType::Codex, id, provider);
                return Err(
                    AppError::Config(joined3("供应商 ", id, " 的 Codex 配置必须是 JSON 对象")),
                );
            }
            match auth {
                Some(auth) => {
                    provider.settings_config.insert("auth", auth);
                },
                None => {
                    provider.settings_config.remove("auth");
                },
            }
            provider.settings_config.insert("config", Json::Str(stored));
            config.replace_provider(AppType::Codex, id, provider);
            Ok(())
        },
    }
}

/// Refreshes a Codex provider from a text.
fn refresh_codex_text(
    config: &mut MultiAppConfig,
    id: &str,
    auth: Option<Json>,
    text: &str,
) -> (r: Result<(), AppError>)
    ensures
        codex_text_refreshed(
            old(config)@,
            id@,
            maybe_json(auth),
            text@,
            final(config)@,
            unit_outcome(r),
        ),
{
    let ghost before = config@;
    let ghost auth_read = maybe_json(auth);
    let extracted = ProviderService::extract_codex_common_config_from_config_toml(text);
    assert(snippet_extracted(text@, outcome(extracted)));
    let extracted = match extracted {
        Ok(extracted) => extracted,
        Err(error) => {
            return Err(error);
        },
    };
    let uses = match config.find_provider(AppType::Codex, id) {
        Some(provider) => provider_uses_common_config(
            AppType::Codex,
            provider,
            borrow_text(&config.common_config_snippets.codex),
        ),
        None => false,
    };
    let ids = synced_codex_mcp_server_ids(config);
    let snippet = copy_text(&config.common_config_snippets.codex);
    let stored = make_provider_text(uses, &snippet, &ids, text);
    assert(provider_text(
        codex_uses(before, id@),
        before.snippet(AppType::Codex),
        synced_ids(before),
        text@,
        outcome(stored),
    ));
    let r = match stored {
        Ok(stored) => store_codex_texts(config, id, auth, extracted, stored),
        Err(error) => Err(error),
    };
    assert(codex_snippet_known(
        before,
        id@,
        auth_read,
        text@,
        extracted@,
        config@,
        unit_outcome(r),
    ));
    r
}

/// Refreshes a Codex provider.
fn refresh_codex(config: &mut MultiAppConfig, id: &str, auth: JsonRead, text: TextRead) -> (r:
    Result<(), AppError>)
    ensures
        codex_refreshed(old(config)@, id@, auth@, text@, final(config)@, unit_outcome(r)),
{
    let auth = match auth.content() {
        Ok(auth) => auth,
        Err(error) => {
            return Err(error);
        },
    };
    let text = match valid_text_of(text) {
        Ok(Some(text)) => text,
        Ok(None) => {
            let none = String::new();
            assert(none@ =~= Seq::empty());
            none
        },
        Err(error) => {
            return Err(error);
        },
    };
    refresh_codex_text(config, id, auth, text.as_str())
}

impl ProviderService {
    /// Takes the settings of a provider back from the live files, without what they share
    /// with other providers.
    pub fn refresh_provider_snapshot(
        config: &mut MultiAppConfig,
        provider_id: &str,
        live: LiveAfter,
    ) -> (r: Result<(), AppError>)
        ensures
            refreshed(old(config)@, provider_id@, live, final(config)@, unit_outcome(r)),
    {
        match live {
            LiveAfter::Claude { settings } => refresh_claude(config, provider_id, settings),
            LiveAfter::Codex { auth, text } => refresh_codex(config, provider_id, auth, text),
            LiveAfter::Gemini { env, settings } => refresh_gemini(
                config,
                provider_id,
                env,
                settings,
            ),
            LiveAfter::OpenCode { providers } => refresh_listed(
                config,
                AppType::OpenCode,
                provider_id,
                providers,
            ),
            LiveAfter::OpenClaw { providers } => refresh_listed(
                config,
                AppType::OpenClaw,
                provider_id,
                providers,
            ),
        }
    }
}

/// A provider that cannot be refreshed leaves everything as it was. The settings of a Codex
/// provider are an object: where they are not, the common snippet stays noted.
pub proof fn law_failed_refresh_changes_nothing(
    config: ConfigView,
    id: Seq<char>,
    live: LiveAfter,
    after: ConfigView,
    error: ErrorView,
)
    requires
        refreshed(config, id, live, after, Err(error)),
        live is Codex && config.provider(AppType::Codex, id) is Some ==> config.provider(
            AppType::Codex,
            id,
        )->0.settings_config is Object,
    ensures
        after == config,
{
    if let LiveAfter::Codex { auth, text } = live {
        if let (Ok(auth), Ok(text)) = (auth@.content(), valid_text(text@)) {
            let text = text_or_empty(text);
            assert(codex_text_refreshed(config, id, auth, text, after, Err(error)));
            let extracted = choose|extracted: Result<Seq<char>, ErrorView>| #[trigger]
                snippet_extracted(text, extracted) && match extracted {
                    Err(failure) => Err::<(), ErrorView>(error) == Err::<(), ErrorView>(failure)
                        && after == config,
                    Ok(extracted) => codex_snippet_known(
                        config,
                        id,
                        auth,
                        text,
                        extracted,
                        after,
                        Err(error),
                    ),
                };
        }
    }
}

} // verus!
