//! How the settings of a provider are taken back from the live files, without what they
//! share with other providers.
use vstd::prelude::*;

use crate::claude::models_normalized;
use crate::common_config::{
    claude_snippet_error, config_stripped, gemini_snippet_error, maybe_str, outcome,
    provider_uses_common_config, servers_stripped, snippet_extracted, strip_common_values,
    strip_codex_common_config_from_full_text, strip_codex_synced_mcp_servers_from_full_text,
    synced_codex_mcp_server_ids, synced_ids, uses_common,
};
use crate::config::{ConfigView, MultiAppConfig};
use crate::error::{AppError, ErrorView};
use crate::json::{deep_removed, Json, JsonView};
use crate::json_value::parsed_json;
use crate::live_files::{maybe_json, unit_outcome, JsonRead, JsonReadView, TextRead, TextReadView};
use crate::model::{borrow_text, copy_text, maybe_text, AppType, ProviderView};
use crate::service::ProviderService;
use crate::text::{blank, is_blank, same_text, texts, trim, trimmed};

verus! {

/// The object without members.
pub open spec fn empty_object() -> JsonView {
    JsonView::Object(Map::empty())
}

/// Makes the object without members.
pub fn new_object() -> (r: Json)
    ensures
        r@ == empty_object(),
{
    let r = Json::Object(Vec::new());
    assert(r@->Object_0 =~= Map::empty());
    r
}

/// What the common snippet of an application with JSON settings must be.
pub open spec fn snippet_error(app_type: AppType, snippet: Seq<char>) -> Option<ErrorView> {
    if app_type == AppType::Gemini {
        gemini_snippet_error(snippet)
    } else {
        claude_snippet_error(snippet)
    }
}

/// What is stored of live settings: where the provider uses the common snippet, they are
/// stored without it.
pub open spec fn stored_settings(
    app_type: AppType,
    provider: ProviderView,
    snippet: Option<Seq<char>>,
    live: JsonView,
) -> Result<JsonView, ErrorView> {
    if uses_common(app_type, provider, snippet) {
        let text = trimmed(snippet->0);
        match snippet_error(app_type, text) {
            Some(error) => Err(error),
            None => Ok(deep_removed(live, parsed_json(text)->0)),
        }
    } else {
        Ok(live)
    }
}

/// The provider with other settings, after it has been noted whether it uses the common
/// snippet.
pub open spec fn with_stored(
    app_type: AppType,
    provider: ProviderView,
    snippet: Option<Seq<char>>,
    settings: JsonView,
) -> ProviderView {
    if uses_common(app_type, provider, snippet) {
        provider.noted_common().with_settings(settings)
    } else {
        provider.with_settings(settings)
    }
}

/// The configuration after live settings have been stored with a provider, where there is
/// one.
pub open spec fn live_stored(
    config: ConfigView,
    app_type: AppType,
    id: Seq<char>,
    live: JsonView,
) -> Result<ConfigView, ErrorView> {
    match config.provider(app_type, id) {
        None => Ok(config),
        Some(provider) => match stored_settings(
            app_type,
            provider,
            config.snippet(app_type),
            live,
        ) {
            Err(error) => Err(error),
            Ok(settings) => Ok(
                config.with_provider(
                    app_type,
                    id,
                    with_stored(app_type, provider, config.snippet(app_type), settings),
                ),
            ),
        },
    }
}

/// Whether an attempt to change the configuration came out as it should; one that fails
/// changes nothing.
pub open spec fn comes_out(
    expected: Result<ConfigView, ErrorView>,
    before: ConfigView,
    after: ConfigView,
    result: Result<(), ErrorView>,
) -> bool {
    match expected {
        Ok(config) => result is Ok && after == config,
        Err(error) => result == Err::<(), ErrorView>(error) && after == before,
    }
}

/// Reads the common snippet of an application with JSON settings.
fn parse_snippet(app_type: AppType, snippet: &str) -> (r: Result<Json, AppError>)
    ensures
        match r {
            Ok(value) => snippet_error(app_type, snippet@) is None && parsed_json(snippet@) == Some(
                value@,
            ),
            Err(error) => snippet_error(app_type, snippet@) == Some(error@),
        },
{
    if matches!(app_type, AppType::Gemini) {
        ProviderService::parse_common_gemini_config_snippet(snippet)
    } else {
        ProviderService::parse_common_claude_config_snippet(snippet)
    }
}

/// Stores live settings with a provider, where there is one.
pub fn store_live(config: &mut MultiAppConfig, app_type: AppType, id: &str, live: Json) -> (r:
    Result<(), AppError>)
    ensures
        comes_out(
            live_stored(old(config)@, app_type, id@, live@),
            old(config)@,
            final(config)@,
            unit_outcome(r),
        ),
{
    let mut live = live;
    let snippet: Option<&str> = match config.common_config_snippets.get(app_type) {
        Some(text) => Some(text.as_str()),
        None => None,
    };
    let mut provider = match config.find_provider(app_type, id) {
        Some(provider) => provider.copy(),
        None => {
            return Ok(());
        },
    };
    if provider_uses_common_config(app_type, &provider, snippet) {
        if let Some(text) = snippet {
            let common = match parse_snippet(app_type, trim(text)) {
                Ok(common) => common,
                Err(error) => {
                    return Err(error);
                },
            };
            strip_common_values(&mut live, &common);
        }
        provider.note_common();
    }
    provider.settings_config = live;
    config.replace_provider(app_type, id, provider);
    Ok(())
}

/// The configuration after the current Anthropic provider has taken its settings back from
/// the live file, before another becomes current.
pub open spec fn claude_backfilled(
    config: ConfigView,
    next: Seq<char>,
    settings: JsonReadView,
) -> Result<ConfigView, ErrorView> {
    let current = config.current(AppType::Claude);
    if settings is Missing || current.len() == 0 || current == next {
        Ok(config)
    } else {
        match settings.content() {
            Err(error) => Err(error),
            Ok(live) => live_stored(
                config,
                AppType::Claude,
                current,
                models_normalized(live->0),
            ),
        }
    }
}

/// Gemini settings made of the environment and the settings file.
pub open spec fn gemini_live(env: JsonView, settings: Option<JsonView>) -> JsonView {
    match env {
        JsonView::Object(members) => JsonView::Object(
            members.insert(
                "config"@,
                match settings {
                    Some(settings) => settings,
                    None => empty_object(),
                },
            ),
        ),
        _ => env,
    }
}

/// The configuration after the current Gemini provider has taken its settings back from
/// the live files, before another becomes current.
pub open spec fn gemini_backfilled(
    config: ConfigView,
    next: Seq<char>,
    env: JsonReadView,
    settings: JsonReadView,
) -> Result<ConfigView, ErrorView> {
    let current = config.current(AppType::Gemini);
    if env is Missing || current.len() == 0 || current == next {
        Ok(config)
    } else {
        match (env.content(), settings.content()) {
            (Err(error), _) => Err(error),
            (Ok(_), Err(error)) => Err(error),
            (Ok(env), Ok(settings)) => live_stored(
                config,
                AppType::Gemini,
                current,
                gemini_live(env->0, settings),
            ),
        }
    }
}

/// Puts the settings file into the environment.
pub fn make_gemini_live(env: Json, settings: Option<Json>) -> (r: Json)
    ensures
        r@ == gemini_live(env@, maybe_json(settings)),
{
    let mut live = env;
    if live.is_object() {
        let settings = match settings {
            Some(settings) => settings,
            None => new_object(),
        };
        live.insert("config", settings);
    }
    live
}

impl ProviderService {
    /// Takes the settings of the current Anthropic provider back from the live file, before
    /// another becomes current.
    pub fn backfill_claude_current(
        config: &mut MultiAppConfig,
        next_provider: &str,
        settings: JsonRead,
    ) -> (r: Result<(), AppError>)
        ensures
            comes_out(
                claude_backfilled(old(config)@, next_provider@, settings@),
                old(config)@,
                final(config)@,
                unit_outcome(r),
            ),
    {
        let current = config.current_id(AppType::Claude);
        let live = match settings.content() {
            Ok(None) => {
                return Ok(());
            },
            other => other,
        };
        if current.as_str().is_empty() || same_text(current.as_str(), next_provider) {
            return Ok(());
        }
        match live {
            Ok(Some(live)) => {
                let mut live = live;
                Self::normalize_claude_models_in_value(&mut live);
                store_live(config, AppType::Claude, current.as_str(), live)
            },
            Ok(None) => Ok(()),
            Err(error) => Err(error),
        }
    }

    /// Takes the settings of the current Gemini provider back from the live files, before
    /// another becomes current.
    pub fn backfill_gemini_current(
        config: &mut MultiAppConfig,
        next_provider: &str,
        env: JsonRead,
        settings: JsonRead,
    ) -> (r: Result<(), AppError>)
        ensures
            comes_out(
                gemini_backfilled(old(config)@, next_provider@, env@, settings@),
                old(config)@,
                final(config)@,
                unit_outcome(r),
            ),
    {
        let current = config.current_id(AppType::Gemini);
        if matches!(env, JsonRead::Missing) {
            return Ok(());
        }
        if current.as_str().is_empty() || same_text(current.as_str(), next_provider) {
            return Ok(());
        }
        match env.content() {
            Ok(Some(env)) => match settings.content() {
                Ok(settings) => store_live(
                    config,
                    AppType::Gemini,
                    current.as_str(),
                    make_gemini_live(env, settings),
                ),
                Err(error) => Err(error),
            },
            Ok(None) => Ok(()),
            Err(error) => Err(error),
        }
    }
}

/// What the common Codex snippet is after a configuration has been seen: one that is not
/// blank stays, and otherwise the configuration gives one, where it has any.
pub open spec fn snippet_refreshed(
    snippet: Option<Seq<char>>,
    config_toml: Seq<char>,
    result: Result<Option<Seq<char>>, ErrorView>,
) -> bool {
    if snippet is Some && !is_blank(snippet->0) {
        result == Ok::<Option<Seq<char>>, ErrorView>(snippet)
    } else {
        exists|extracted: Result<Seq<char>, ErrorView>| #[trigger]
            snippet_extracted(config_toml, extracted) && result == (match extracted {
                Ok(text) => Ok::<Option<Seq<char>>, ErrorView>(
                    if is_blank(text) {
                        snippet
                    } else {
                        Some(text)
                    },
                ),
                Err(error) => Err(error),
            })
    }
}

/// What a text that may be there, or an error, says.
pub open spec fn maybe_text_outcome(result: Result<Option<String>, AppError>) -> Result<
    Option<Seq<char>>,
    ErrorView,
> {
    match result {
        Ok(text) => Ok(maybe_text(text)),
        Err(error) => Err(error@),
    }
}

/// The common Codex snippet after a configuration has been seen.
fn refreshed_snippet(snippet: Option<String>, config_toml: &str) -> (r: Result<
    Option<String>,
    AppError,
>)
    ensures
        snippet_refreshed(maybe_text(snippet), config_toml@, maybe_text_outcome(r)),
{
    if let Some(text) = &snippet {
        if !blank(text.as_str()) {
            return Ok(snippet);
        }
    }
    let extracted = ProviderService::extract_codex_common_config_from_config_toml(config_toml);
    assert(snippet_extracted(config_toml@, outcome(extracted)));
    match extracted {
        Ok(text) => if blank(text.as_str()) {
            Ok(snippet)
        } else {
            Ok(Some(text))
        },
        Err(error) => Err(error),
    }
}

/// The text, empty where there is none.
pub open spec fn text_or_empty(text: Option<Seq<char>>) -> Seq<char> {
    match text {
        Some(text) => text,
        None => Seq::empty(),
    }
}

/// The text of a live configuration, without the common snippet where the provider uses
/// that.
pub open spec fn own_text(
    uses: bool,
    snippet: Option<Seq<char>>,
    text: Seq<char>,
    result: Result<Seq<char>, ErrorView>,
) -> bool {
    if uses {
        config_stripped(text, text_or_empty(snippet), result)
    } else {
        result == Ok::<Seq<char>, ErrorView>(text)
    }
}

/// What is stored of the text of a live configuration: it goes without the common snippet
/// where the provider uses that, and without the servers that are kept elsewhere.
pub open spec fn provider_text(
    uses: bool,
    snippet: Option<Seq<char>>,
    ids: Seq<Seq<char>>,
    text: Seq<char>,
    result: Result<Seq<char>, ErrorView>,
) -> bool {
    exists|own: Result<Seq<char>, ErrorView>| #[trigger]
        own_text(uses, snippet, text, own) && match own {
            Ok(own) => servers_stripped(own, ids, result),
            Err(error) => result == Err::<Seq<char>, ErrorView>(error),
        }
}

/// The text of a live configuration, without the common snippet where the provider uses
/// that.
fn make_own_text(uses: bool, snippet: &Option<String>, text: &str) -> (r: Result<String, AppError>)
    ensures
        own_text(uses, maybe_text(*snippet), text@, outcome(r)),
{
    proof {
        reveal_strlit("");
        assert(""@ =~= Seq::empty());
    }
    if uses {
        let snippet = match borrow_text(snippet) {
            Some(snippet) => snippet,
            None => "",
        };
        strip_codex_common_config_from_full_text(text, snippet)
    } else {
        Ok(text.to_owned())
    }
}

/// What is stored of the text of a live configuration.
pub fn make_provider_text(uses: bool, snippet: &Option<String>, ids: &Vec<String>, text: &str) -> (r:
    Result<String, AppError>)
    ensures
        provider_text(uses, maybe_text(*snippet), texts(ids@), text@, outcome(r)),
{
    let own = make_own_text(uses, snippet, text);
    assert(own_text(uses, maybe_text(*snippet), text@, outcome(own)));
    match own {
        Ok(own) => strip_codex_synced_mcp_servers_from_full_text(own.as_str(), ids),
        Err(error) => Err(error),
    }
}

/// Codex settings with what was read: an authentication that was found replaces the
/// stored one, and so does a configuration.
pub open spec fn with_codex_files(
    settings: JsonView,
    auth: Option<JsonView>,
    config: Option<Seq<char>>,
) -> JsonView {
    let base = match settings {
        JsonView::Object(members) => members,
        _ => Map::empty(),
    };
    let with_auth = match auth {
        Some(auth) => base.insert("auth"@, auth),
        None => base,
    };
    JsonView::Object(
        match config {
            Some(text) => with_auth.insert("config"@, JsonView::Str(text)),
            None => with_auth,
        },
    )
}

/// Puts what was read into Codex settings.
fn put_codex_files(settings: &mut Json, auth: Option<Json>, config: Option<String>)
    ensures
        final(settings)@ == with_codex_files(
            old(settings)@,
            maybe_json(auth),
            maybe_text(config),
        ),
{
    if !settings.is_object() {
        *settings = new_object();
    }
    if let Some(auth) = auth {
        settings.insert("auth", auth);
    }
    if let Some(text) = config {
        settings.insert("config", Json::Str(text));
    }
}

/// What was said about the common configuration by the provider of that identifier.
pub open spec fn explicit_choice(config: ConfigView, id: Seq<char>) -> Option<bool> {
    match config.provider(AppType::Codex, id) {
        Some(provider) => provider.apply_common_config(),
        None => None,
    }
}

/// What the common Codex snippet is after the live configuration of a provider has been
/// seen: a provider that declines the common configuration does not add to it.
pub open spec fn snippet_seen(
    config: ConfigView,
    id: Seq<char>,
    text: Seq<char>,
    result: Result<Option<Seq<char>>, ErrorView>,
) -> bool {
    if explicit_choice(config, id) == Some(false) {
        result == Ok::<Option<Seq<char>>, ErrorView>(config.snippet(AppType::Codex))
    } else {
        snippet_refreshed(config.snippet(AppType::Codex), text, result)
    }
}

/// The configuration with a Codex provider that has taken back what was read.
pub open spec fn with_codex_read(
    config: ConfigView,
    id: Seq<char>,
    provider: ProviderView,
    snippet: Option<Seq<char>>,
    auth: Option<JsonView>,
    text: Option<Seq<char>>,
) -> ConfigView {
    config.with_snippet(AppType::Codex, snippet).with_provider(
        AppType::Codex,
        id,
        with_stored(
            AppType::Codex,
            provider,
            snippet,
            with_codex_files(provider.settings_config, auth, text),
        ),
    )
}

/// The configuration after a Codex provider has taken back what is its own in the text of a
/// live configuration; where the servers that are kept elsewhere cannot be left out, all
/// but the text is taken back.
pub open spec fn codex_own_stored(
    config: ConfigView,
    id: Seq<char>,
    auth: Option<JsonView>,
    own: Seq<char>,
    snippet: Option<Seq<char>>,
    after: ConfigView,
    result: Result<(), ErrorView>,
) -> bool {
    let provider = config.provider(AppType::Codex, id)->0;
    exists|stored: Result<Seq<char>, ErrorView>| #[trigger]
        servers_stripped(own, synced_ids(config), stored) && match stored {
            Ok(stored) => result is Ok && after == with_codex_read(
                config,
                id,
                provider,
                snippet,
                auth,
                Some(stored),
            ),
            Err(error) => result == Err::<(), ErrorView>(error) && after == with_codex_read(
                config,
                id,
                provider,
                snippet,
                auth,
                None,
            ),
        }
}

/// The configuration after a Codex provider has taken the text of a live configuration
/// back, once the common snippet is settled. The snippet stays where the text cannot be
/// taken back.
pub open spec fn codex_text_stored(
    config: ConfigView,
    id: Seq<char>,
    auth: Option<JsonView>,
    text: Seq<char>,
    snippet: Option<Seq<char>>,
    after: ConfigView,
    result: Result<(), ErrorView>,
) -> bool {
    match config.provider(AppType::Codex, id) {
        None => {
            &&& result is Ok
            &&& after == config.with_snippet(AppType::Codex, snippet)
        },
        Some(provider) => exists|own: Result<Seq<char>, ErrorView>| #[trigger]
            own_text(uses_common(AppType::Codex, provider, snippet), snippet, text, own)
                && match own {
                Ok(own) => codex_own_stored(config, id, auth, own, snippet, after, result),
                Err(error) => result == Err::<(), ErrorView>(error) && after
                    == config.with_snippet(AppType::Codex, snippet),
            },
    }
}

/// The configuration after a Codex provider has taken the text of a live configuration
/// back.
pub open spec fn codex_text_seen(
    config: ConfigView,
    id: Seq<char>,
    auth: Option<JsonView>,
    text: Seq<char>,
    after: ConfigView,
    result: Result<(), ErrorView>,
) -> bool {
    exists|snippet: Result<Option<Seq<char>>, ErrorView>| #[trigger]
        snippet_seen(config, id, text, snippet) && match snippet {
            Err(error) => result == Err::<(), ErrorView>(error) && after == config,
            Ok(snippet) => codex_text_stored(config, id, auth, text, snippet, after, result),
        }
}

/// The configuration after the current Codex provider has taken its settings back from
/// the live files, before another becomes current.
pub open spec fn codex_backfilled(
    config: ConfigView,
    current: Seq<char>,
    next: Seq<char>,
    auth: JsonReadView,
    text: TextReadView,
    after: ConfigView,
    result: Result<(), ErrorView>,
) -> bool {
    if current.len() == 0 || current == next || (auth is Missing && text is Missing) {
        result is Ok && after == config
    } else {
        match (auth.content(), text) {
            (Err(error), _) => result == Err::<(), ErrorView>(error) && after == config,
            (Ok(_), TextReadView::Failed(error)) => result == Err::<(), ErrorView>(error) && after
                == config,
            (Ok(auth), TextReadView::Missing) => result is Ok && after == (match config.provider(
                AppType::Codex,
                current,
            ) {
                Some(provider) => config.with_provider(
                    AppType::Codex,
                    current,
                    provider.with_settings(with_codex_files(provider.settings_config, auth, None)),
                ),
                None => config,
            }),
            (Ok(auth), TextReadView::Found(text)) => codex_text_seen(
                config,
                current,
                auth,
                text,
                after,
                result,
            ),
        }
    }
}

/// Takes the text of a live configuration back, once the common snippet is settled.
fn store_codex_text(
    config: &mut MultiAppConfig,
    id: &str,
    auth: Option<Json>,
    text: &str,
    snippet: Option<String>,
) -> (r: Result<(), AppError>)
    ensures
        codex_text_stored(
            old(config)@,
            id@,
            maybe_json(auth),
            text@,
            maybe_text(snippet),
            final(config)@,
            unit_outcome(r),
        ),
{
    let mut provider = match config.find_provider(AppType::Codex, id) {
        Some(provider) => provider.copy(),
        None => {
            config.set_snippet(AppType::Codex, snippet);
            return Ok(());
        },
    };
    let uses = provider_uses_common_config(AppType::Codex, &provider, borrow_text(&snippet));
    let ids = synced_codex_mcp_server_ids(config);
    let ghost before = provider@;
    let ghost start = config@;
    let ghost auth_read = maybe_json(auth);
    let ghost settled = maybe_text(snippet);
    let own = make_own_text(uses, &snippet, text);
    assert(own_text(uses, settled, text@, outcome(own)));
    let own = match own {
        Ok(own) => own,
        Err(error) => {
            config.set_snippet(AppType::Codex, snippet);
            return Err(error);
        },
    };
    let stored = strip_codex_synced_mcp_servers_from_full_text(own.as_str(), &ids);
    assert(servers_stripped(own@, synced_ids(start), outcome(stored)));
    if uses {
        provider.note_common();
    }
    let (text, r): (Option<String>, Result<(), AppError>) = match stored {
        Ok(stored) => (Some(stored), Ok(())),
        Err(error) => (None, Err(error)),
    };
    let ghost stored_text = maybe_text(text);
    put_codex_files(&mut provider.settings_config, auth, text);
    assert(provider@ == with_stored(
        AppType::Codex,
        before,
        settled,
        with_codex_files(before.settings_config, auth_read, stored_text),
    ));
    config.set_snippet(AppType::Codex, snippet);
    config.replace_provider(AppType::Codex, id, provider);
    assert(codex_own_stored(start, id@, auth_read, own@, settled, config@, unit_outcome(r)));
    r
}

impl ProviderService {
    /// Takes the common Codex snippet from a configuration, where none is stored yet.
    pub fn maybe_update_codex_common_config_snippet(
        config: &mut MultiAppConfig,
        config_toml: &str,
    ) -> (r: Result<(), AppError>)
        ensures
            exists|snippet: Result<Option<Seq<char>>, ErrorView>| #[trigger]
                snippet_refreshed(old(config)@.snippet(AppType::Codex), config_toml@, snippet)
                    && comes_out(
                    match snippet {
                        Ok(snippet) => Ok(old(config)@.with_snippet(AppType::Codex, snippet)),
                        Err(error) => Err(error),
                    },
                    old(config)@,
                    final(config)@,
                    unit_outcome(r),
                ),
    {
        let snippet = copy_text(&config.common_config_snippets.codex);
        let refreshed = refreshed_snippet(snippet, config_toml);
        assert(snippet_refreshed(
            config@.snippet(AppType::Codex),
            config_toml@,
            maybe_text_outcome(refreshed),
        ));
        match refreshed {
            Ok(snippet) => {
                config.set_snippet(AppType::Codex, snippet);
                Ok(())
            },
            Err(error) => Err(error),
        }
    }

    /// Takes the settings of the current Codex provider back from the live files, before
    /// another becomes current.
    pub fn backfill_codex_current(
        config: &mut MultiAppConfig,
        next_provider: &str,
        effective_current_provider: Option<&str>,
        auth: JsonRead,
        config_text: TextRead,
    ) -> (r: Result<(), AppError>)
        ensures
            codex_backfilled(
                old(config)@,
                text_or_empty(maybe_str(effective_current_provider)),
                next_provider@,
                auth@,
                config_text@,
                final(config)@,
                unit_outcome(r),
            ),
    {
        let current = match effective_current_provider {
            Some(current) => current,
            None => {
                return Ok(());
            },
        };
        assert(text_or_empty(maybe_str(effective_current_provider)) == current@);
        if current.is_empty() || same_text(current, next_provider) {
            return Ok(());
        }
        if matches!(auth, JsonRead::Missing) && matches!(config_text, TextRead::Missing) {
            return Ok(());
        }
        let auth = match auth.content() {
            Ok(auth) => auth,
            Err(error) => {
                return Err(error);
            },
        };
        let text = match config_text {
            TextRead::Found(text) => text,
            TextRead::Failed(error) => {
                return Err(error);
            },
            TextRead::Missing => {
                if let Some(provider) = config.find_provider(AppType::Codex, current) {
                    let mut provider = provider.copy();
                    put_codex_files(&mut provider.settings_config, auth, None);
                    config.replace_provider(AppType::Codex, current, provider);
                }
                return Ok(());
            },
        };
        let declined = match config.find_provider(AppType::Codex, current) {
            Some(provider) => provider.apply_common_config() == Some(false),
            None => false,
        };
        let snippet = copy_text(&config.common_config_snippets.codex);
        let seen = if declined {
            Ok(snippet)
        } else {
            refreshed_snippet(snippet, text.as_str())
        };
        let ghost before = config@;
        let ghost seen_outcome = maybe_text_outcome(seen);
        let ghost auth_found = maybe_json(auth);
        assert(snippet_seen(before, current@, text@, seen_outcome));
        let r = match seen {
            Ok(snippet) => store_codex_text(config, current, auth, text.as_str(), snippet),
            Err(error) => Err(error),
        };
        assert(codex_text_seen(before, current@, auth_found, text@, config@, unit_outcome(r)));
        r
    }
}

} // verus!
