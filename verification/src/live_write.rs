//! What goes into the live files of a provider, and what is backed up of them.
use vstd::prelude::*;

use crate::claude::models_normalized;
use crate::codex::{auth_file, codex_settings, live_text, CodexLive};
use crate::common_config::{
    applies_common, claude_snippet_error, gemini_snippet_error, maybe_str,
    resolve_live_apply_common_config,
};
use crate::error::{AppError, ErrorView};
use crate::json::{
    copy_members, field, lemma_no_members, member_names, members_view, merge_json_values, merged,
    Json, JsonView,
};
use crate::json_value::parsed_json;
use crate::live_files::{
    actions_view, json_outcome, unit_outcome, vars_view, Content, ContentView, FileAction,
    FileActionView, JsonRead, JsonReadView, LiveFile,
};
use crate::model::{AppType, Provider, ProviderView};
use crate::service::ProviderService;
use crate::snapshots::{empty_object, new_object};
use crate::text::{is_blank, texts, trim, trimmed};

verus! {

/// The settings of an Anthropic provider as they go live: laid over the common snippet where
/// that is not blank.
pub open spec fn claude_live(provider: ProviderView, snippet: Option<Seq<char>>) -> Result<
    JsonView,
    ErrorView,
> {
    let own = models_normalized(provider.settings_config);
    match snippet {
        Some(snippet) if !is_blank(snippet) => match claude_snippet_error(trimmed(snippet)) {
            Some(error) => Err(error),
            None => Ok(models_normalized(merged(parsed_json(trimmed(snippet))->0, own))),
        },
        _ => Ok(own),
    }
}

/// The settings of a Gemini provider as they go live: laid over the common snippet where
/// that is not blank.
pub open spec fn gemini_content(provider: ProviderView, snippet: Option<Seq<char>>) -> Result<
    JsonView,
    ErrorView,
> {
    match snippet {
        Some(snippet) if !is_blank(snippet) => match gemini_snippet_error(trimmed(snippet)) {
            Some(error) => Err(error),
            None => Ok(merged(parsed_json(trimmed(snippet))->0, provider.settings_config)),
        },
        _ => Ok(provider.settings_config),
    }
}

/// A snippet that counts only where it applies.
pub open spec fn if_applied(snippet: Option<Seq<char>>, apply: bool) -> Option<Seq<char>> {
    if apply {
        snippet
    } else {
        None
    }
}

/// The members of one object with those of another, which win.
pub open spec fn with_all(
    base: Map<Seq<char>, JsonView>,
    other: Map<Seq<char>, JsonView>,
) -> Map<Seq<char>, JsonView> {
    base.union_prefer_right(other)
}

/// What the Gemini settings file is to hold: what the provider says is put over what is
/// there, and where it says nothing, what is there stays.
pub open spec fn gemini_settings_file(content: JsonView, existing: JsonReadView) -> Result<
    JsonView,
    ErrorView,
> {
    let own = field(content, "config"@);
    let there = match existing.content() {
        Ok(Some(settings)) => Ok(settings),
        Ok(None) => Ok(empty_object()),
        Err(error) => Err(error),
    };
    match own {
        None => there,
        Some(JsonView::Null) => there,
        Some(JsonView::Object(members)) => if members =~= Map::empty() {
            there
        } else {
            match there {
                Err(error) => Err(error),
                Ok(JsonView::Object(base)) => Ok(JsonView::Object(with_all(base, members))),
                Ok(_) => Ok(JsonView::Object(members)),
            }
        },
        Some(_) => Err(
            ErrorView::Localized {
                key: "gemini.validation.invalid_config"@,
                zh: "Gemini 配置格式错误: config 必须是对象或 null"@,
                en: "Gemini config invalid: config must be an object or null"@,
            },
        ),
    }
}

/// Puts all members of one object into another.
fn insert_all(base: &mut Json, members: &Vec<(String, Json)>)
    requires
        old(base)@ is Object,
    ensures
        final(base)@ == JsonView::Object(with_all(old(base)@->Object_0, members_view(members@))),
{
    let source = Json::Object(copy_members(members));
    let names = member_names(members);
    let ghost before = base@->Object_0;
    let ghost other = members_view(members@);
    let mut i: usize = 0;
    while i < names.len()
        invariant
            i <= names.len(),
            base@ is Object,
            source@ == JsonView::Object(other),
            texts(names@).to_set() == other.dom(),
            forall|key: Seq<char>| #[trigger]
                base@->Object_0.contains_key(key) <==> before.contains_key(key) || texts(
                    names@,
                ).take(i as int).contains(key),
            forall|key: Seq<char>|
                #![trigger base@->Object_0[key]]
                base@->Object_0.contains_key(key) ==> base@->Object_0[key] == (if texts(
                    names@,
                ).take(i as int).contains(key) {
                    other[key]
                } else {
                    before[key]
                }),
        decreases names.len() - i,
    {
        let ghost key = texts(names@)[i as int];
        let ghost partly = base@->Object_0;
        proof {
            assert(texts(names@).to_set().contains(key));
            let upto = texts(names@).take(i as int);
            let next = texts(names@).take(i + 1);
            assert(next =~= upto.push(key));
            assert forall|k: Seq<char>| #[trigger] next.contains(k) <==> upto.contains(k) || k
                == key by {
                if upto.contains(k) {
                    let j = choose|j: int| 0 <= j < upto.len() && upto[j] == k;
                    assert(next[j] == k);
                }
                if k == key {
                    assert(next[i as int] == k);
                }
            }
        }
        if let Some(value) = source.get(names[i].as_str()) {
            base.insert(names[i].as_str(), value.copy());
        }
        proof {
            assert forall|k: Seq<char>|
                #![trigger base@->Object_0[k]]
                base@->Object_0.contains_key(k) implies base@->Object_0[k] == (if texts(
                names@,
            ).take(i + 1).contains(k) {
                other[k]
            } else {
                before[k]
            }) by {
                if k != key {
                    assert(base@->Object_0[k] == partly[k]);
                    assert(partly.contains_key(k));
                }
            }
        }
        i += 1;
    }
    proof {
        assert(texts(names@).take(i as int) =~= texts(names@));
        let wanted = with_all(before, other);
        assert forall|key: Seq<char>| #[trigger] texts(names@).contains(key)
            <==> other.contains_key(key) by {
            assert(texts(names@).to_set().contains(key) <==> other.contains_key(key));
        }
        assert(base@->Object_0 =~= wanted);
    }
}

impl ProviderService {
    /// The settings of an Anthropic provider as they go live.
    pub fn write_claude_live(provider: &Provider, common_config_snippet: Option<&str>) -> (r:
        Result<Json, AppError>)
        ensures
            json_outcome(r) == claude_live(provider@, maybe_str(common_config_snippet)),
    {
        let mut own = provider.settings_config.copy();
        Self::normalize_claude_models_in_value(&mut own);
        if let Some(snippet) = common_config_snippet {
            let snippet = trim(snippet);
            if !snippet.is_empty() {
                let mut merged = match Self::parse_common_claude_config_snippet(snippet) {
                    Ok(common) => common,
                    Err(error) => {
                        return Err(error);
                    },
                };
                merge_json_values(&mut merged, &own);
                Self::normalize_claude_models_in_value(&mut merged);
                return Ok(merged);
            }
        }
        Ok(own)
    }

    /// The settings of a Gemini provider as they go live.
    pub fn write_gemini_live(provider: &Provider, common_config_snippet: Option<&str>) -> (r:
        Result<Json, AppError>)
        ensures
            json_outcome(r) == gemini_content(provider@, maybe_str(common_config_snippet)),
    {
        if let Some(snippet) = common_config_snippet {
            let snippet = trim(snippet);
            if !snippet.is_empty() {
                let mut merged = match Self::parse_common_gemini_config_snippet(snippet) {
                    Ok(common) => common,
                    Err(error) => {
                        return Err(error);
                    },
                };
                merge_json_values(&mut merged, &provider.settings_config);
                return Ok(merged);
            }
        }
        Ok(provider.settings_config.copy())
    }
}

/// What the Gemini settings file is to hold.
pub fn make_gemini_settings_file(content: &Json, existing: JsonRead) -> (r: Result<Json, AppError>)
    ensures
        json_outcome(r) == gemini_settings_file(content@, existing@),
{
    let own = content.get("config");
    match own {
        None => {},
        Some(Json::Null) => {},
        Some(Json::Object(_)) => {},
        Some(_) => {
            return Err(
                AppError::fixed(
                    "gemini.validation.invalid_config",
                    "Gemini 配置格式错误: config 必须是对象或 null",
                    "Gemini config invalid: config must be an object or null",
                ),
            );
        },
    }
    let mut there = match existing.content() {
        Ok(Some(settings)) => settings,
        Ok(None) => new_object(),
        Err(error) => {
            return Err(error);
        },
    };
    if let Some(Json::Object(members)) = own {
        proof {
            lemma_no_members(members@);
        }
        if members.len() > 0 {
            if !there.is_object() {
                there = new_object();
                proof {
                    assert(with_all(Map::empty(), members_view(members@)) =~= members_view(
                        members@,
                    ));
                }
            }
            insert_all(&mut there, members);
        }
    }
    Ok(there)
}

/// How a Gemini provider is authenticated.
#[derive(Clone, Copy, Debug, PartialEq, Eq, Structural)]
pub enum GeminiAuthType {
    GoogleOfficial,
    ApiKey,
}

/// What is to be done for a Gemini provider to go live: with its files, and then to note
/// how it is authenticated.
pub struct GeminiLive {
    pub files: Vec<FileAction>,
    pub auth_type: GeminiAuthType,
}

/// What goes wrong when a Gemini provider goes live, or what the settings file is to
/// hold. `env` is what the environment of the content is made into, and `strict` what is
/// wrong with the content for a provider with a key.
pub open spec fn gemini_live_settings(
    content: Result<JsonView, ErrorView>,
    env: Result<Seq<(Seq<char>, Seq<char>)>, ErrorView>,
    strict: Result<(), ErrorView>,
    existing: JsonReadView,
    auth_type: GeminiAuthType,
) -> Result<JsonView, ErrorView> {
    match (content, env) {
        (Err(error), _) => Err(error),
        (Ok(_), Err(error)) => Err(error),
        (Ok(content), Ok(_)) => match (gemini_settings_file(content, existing), strict) {
            (Err(error), _) => Err(error),
            (Ok(_), Err(error)) if auth_type == GeminiAuthType::ApiKey => Err(error),
            (Ok(settings), _) => Ok(settings),
        },
    }
}

/// What is to be done with the files of a Gemini provider: one that is authenticated by
/// an account has an empty environment.
pub open spec fn gemini_files(
    env: Seq<(Seq<char>, Seq<char>)>,
    settings: JsonView,
    auth_type: GeminiAuthType,
) -> Seq<FileActionView> {
    seq![
        FileActionView::Write(
            LiveFile::GeminiEnv,
            ContentView::Env(
                if auth_type == GeminiAuthType::GoogleOfficial {
                    Seq::empty()
                } else {
                    env
                },
            ),
        ),
        FileActionView::Write(LiveFile::GeminiSettings, ContentView::Json(settings)),
    ]
}

/// What the variables of an environment, or an error, say.
pub open spec fn vars_outcome(result: Result<Vec<(String, String)>, AppError>) -> Result<
    Seq<(Seq<char>, Seq<char>)>,
    ErrorView,
> {
    match result {
        Ok(vars) => Ok(vars_view(vars@)),
        Err(error) => Err(error@),
    }
}

impl ProviderService {
    /// What is to be done for a Gemini provider to go live. Where the live files are not
    /// to be touched, nothing is done with them. `env` is what the environment of the
    /// content is made into, and `strict` what is wrong with the content for a provider
    /// with a key.
    pub fn write_gemini_live_impl(
        content: Result<Json, AppError>,
        env: Result<Vec<(String, String)>, AppError>,
        strict: Result<(), AppError>,
        existing: JsonRead,
        auth_type: GeminiAuthType,
        touch_files: bool,
    ) -> (r: Result<GeminiLive, AppError>)
        ensures
            match r {
                Ok(live) => {
                    &&& live.auth_type == auth_type
                    &&& if touch_files {
                        &&& gemini_live_settings(
                            json_outcome(content),
                            vars_outcome(env),
                            unit_outcome(strict),
                            existing@,
                            auth_type,
                        ) is Ok
                        &&& actions_view(live.files@) == gemini_files(
                            vars_outcome(env)->Ok_0,
                            gemini_live_settings(
                                json_outcome(content),
                                vars_outcome(env),
                                unit_outcome(strict),
                                existing@,
                                auth_type,
                            )->Ok_0,
                            auth_type,
                        )
                    } else {
                        live.files@.len() == 0
                    }
                },
                Err(error) => touch_files && gemini_live_settings(
                    json_outcome(content),
                    vars_outcome(env),
                    unit_outcome(strict),
                    existing@,
                    auth_type,
                ) == Err::<JsonView, ErrorView>(error@),
            },
    {
        if !touch_files {
            return Ok(GeminiLive { files: Vec::new(), auth_type });
        }
        let content = match content {
            Ok(content) => content,
            Err(error) => {
                return Err(error);
            },
        };
        let env = match env {
            Ok(env) => env,
            Err(error) => {
                return Err(error);
            },
        };
        let settings = match make_gemini_settings_file(&content, existing) {
            Ok(settings) => settings,
            Err(error) => {
                return Err(error);
            },
        };
        let ghost all = vars_view(env@);
        let vars: Vec<(String, String)> = match auth_type {
            GeminiAuthType::GoogleOfficial => Vec::new(),
            GeminiAuthType::ApiKey => {
                match strict {
                    Ok(_) => {},
                    Err(error) => {
                        return Err(error);
                    },
                }
                env
            },
        };
        let ghost wanted = gemini_files(all, settings@, auth_type);
        proof {
            if auth_type == GeminiAuthType::GoogleOfficial {
                assert(vars_view(vars@) =~= Seq::empty());
            }
        }
        let files = vec![
            FileAction::Write(LiveFile::GeminiEnv, Content::Env(vars)),
            FileAction::Write(LiveFile::GeminiSettings, Content::Json(settings)),
        ];
        assert(actions_view(files@) =~= wanted);
        Ok(GeminiLive { files, auth_type })
    }
}

/// The provider itself, where OpenCode settings are those of a whole configuration.
pub open spec fn opencode_live(provider: ProviderView) -> JsonView {
    let settings = provider.settings_config;
    if field(settings, "$schema"@) is Some || field(settings, "provider"@) is Some {
        match field(settings, "provider"@) {
            Some(providers) => match field(providers, provider.id) {
                Some(own) => own,
                None => settings,
            },
            None => settings,
        }
    } else {
        settings
    }
}

/// Whether OpenClaw settings are those of a provider.
pub open spec fn looks_like_openclaw(settings: JsonView) -> bool {
    ||| field(settings, "baseUrl"@) is Some
    ||| field(settings, "api"@) is Some
    ||| field(settings, "models"@) is Some
}

/// What a provider puts into the live files.
pub enum LivePlan {
    /// Nothing.
    Nothing,
    /// The settings file of Anthropic.
    Claude(Json),
    /// The files of Codex.
    Codex(CodexLive),
    /// The content of the files of Gemini.
    Gemini(Json),
    /// Nothing but the note how the Gemini provider is authenticated.
    GeminiNoted,
    /// The entry in the live file of OpenCode.
    OpenCode(Json),
    /// The entry in the live file of OpenClaw.
    OpenClaw(Json),
}

/// What a provider of an application puts into the live files; `sync` tells whether the
/// live files of the application are to be touched.
pub open spec fn live_plan(
    app_type: AppType,
    provider: ProviderView,
    snippet: Option<Seq<char>>,
    requested: bool,
    sync: bool,
    result: Result<LivePlan, AppError>,
) -> bool {
    let apply = applies_common(app_type, provider, snippet, requested);
    match app_type {
        AppType::Claude => if sync {
            match (claude_live(provider, if_applied(snippet, apply)), result) {
                (Ok(settings), Ok(LivePlan::Claude(json))) => json@ == settings,
                (Err(error), Err(failure)) => failure@ == error,
                _ => false,
            }
        } else {
            result matches Ok(LivePlan::Nothing)
        },
        AppType::Codex => if sync {
            match result {
                Ok(LivePlan::Codex(live)) => live_text(
                    provider,
                    snippet,
                    apply,
                    Ok(live.config@),
                ) && live.auth@ == auth_file(provider),
                Err(error) => live_text(provider, snippet, apply, Err(error@)),
                _ => false,
            }
        } else {
            result matches Ok(LivePlan::Nothing)
        },
        AppType::Gemini => if sync {
            match (gemini_content(provider, if_applied(snippet, apply)), result) {
                (Ok(content), Ok(LivePlan::Gemini(json))) => json@ == content,
                (Err(error), Err(failure)) => failure@ == error,
                _ => false,
            }
        } else {
            result matches Ok(LivePlan::GeminiNoted)
        },
        AppType::OpenCode => result matches Ok(LivePlan::OpenCode(json)) && json@ == opencode_live(
            provider,
        ),
        AppType::OpenClaw => if looks_like_openclaw(provider.settings_config) {
            result matches Ok(LivePlan::OpenClaw(json)) && json@ == provider.settings_config
        } else {
            result matches Ok(LivePlan::Nothing)
        },
    }
}

/// The provider itself, where OpenCode settings are those of a whole configuration.
fn opencode_entry(provider: &Provider) -> (r: Json)
    ensures
        r@ == opencode_live(provider@),
{
    let settings = &provider.settings_config;
    if let Some(providers) = settings.get("provider") {
        if let Some(own) = providers.get(provider.id.as_str()) {
            return own.copy();
        }
    }
    settings.copy()
}

impl ProviderService {
    /// What a provider puts into the live files; `sync` tells whether the live files of
    /// the application are to be touched.
    pub fn write_live_snapshot(
        app_type: AppType,
        provider: &Provider,
        common_config_snippet: Option<&str>,
        apply_common_config: bool,
        sync: bool,
    ) -> (r: Result<LivePlan, AppError>)
        ensures
            live_plan(
                app_type,
                provider@,
                maybe_str(common_config_snippet),
                apply_common_config,
                sync,
                r,
            ),
    {
        let apply = resolve_live_apply_common_config(
            app_type,
            provider,
            common_config_snippet,
            apply_common_config,
        );
        let applied: Option<&str> = if apply {
            common_config_snippet
        } else {
            None
        };
        match app_type {
            AppType::Claude => {
                if !sync {
                    return Ok(LivePlan::Nothing);
                }
                match Self::write_claude_live(provider, applied) {
                    Ok(settings) => Ok(LivePlan::Claude(settings)),
                    Err(error) => Err(error),
                }
            },
            AppType::Codex => {
                if !sync {
                    return Ok(LivePlan::Nothing);
                }
                match Self::write_codex_live(provider, common_config_snippet, apply) {
                    Ok(live) => Ok(LivePlan::Codex(live)),
                    Err(error) => Err(error),
                }
            },
            AppType::Gemini => {
                if !sync {
                    return Ok(LivePlan::GeminiNoted);
                }
                match Self::write_gemini_live(provider, applied) {
                    Ok(content) => Ok(LivePlan::Gemini(content)),
                    Err(error) => Err(error),
                }
            },
            AppType::OpenCode => Ok(LivePlan::OpenCode(opencode_entry(provider))),
            AppType::OpenClaw => {
                let settings = &provider.settings_config;
                if settings.get("baseUrl").is_some() || settings.get("api").is_some()
                    || settings.get("models").is_some() {
                    Ok(LivePlan::OpenClaw(settings.copy()))
                } else {
                    Ok(LivePlan::Nothing)
                }
            },
        }
    }
}

/// The Gemini settings that are backed up.
pub open spec fn gemini_backup(
    content: Result<JsonView, ErrorView>,
    existing: JsonReadView,
) -> Result<JsonView, ErrorView> {
    match content {
        Err(error) => Err(error),
        Ok(content) => match gemini_settings_file(content, existing) {
            Err(error) => Err(error),
            Ok(settings) => Ok(
                gemini_settings(
                    match field(content, "env"@) {
                        Some(env) => env,
                        None => empty_object(),
                    },
                    settings,
                ),
            ),
        },
    }
}

/// Gemini settings of these parts.
pub open spec fn gemini_settings(env: JsonView, config: JsonView) -> JsonView {
    JsonView::Object(Map::empty().insert("env"@, env).insert("config"@, config))
}

/// Puts Gemini settings together.
pub fn make_gemini_settings(env: Json, config: Json) -> (r: Json)
    ensures
        r@ == gemini_settings(env@, config@),
{
    let mut settings = new_object();
    settings.insert("env", env);
    settings.insert("config", config);
    settings
}

/// What is backed up while a proxy stands in for a provider. `gemini_existing` is the
/// settings file of Gemini.
pub open spec fn live_backup(
    app_type: AppType,
    provider: ProviderView,
    snippet: Option<Seq<char>>,
    requested: bool,
    gemini_existing: JsonReadView,
    result: Result<JsonView, ErrorView>,
) -> bool {
    let apply = applies_common(app_type, provider, snippet, requested);
    match app_type {
        AppType::Claude => result == claude_live(provider, if_applied(snippet, apply)),
        AppType::Codex => match result {
            Ok(backup) => {
                &&& field(backup, "config"@) matches Some(JsonView::Str(text))
                &&& live_text(provider, snippet, apply, Ok(text))
                &&& backup == codex_settings(field(provider.settings_config, "auth"@), Some(text))
            },
            Err(error) => live_text(provider, snippet, apply, Err(error)),
        },
        AppType::Gemini => result == gemini_backup(
            gemini_content(provider, if_applied(snippet, apply)),
            gemini_existing,
        ),
        AppType::OpenCode => result == Err::<JsonView, ErrorView>(
            ErrorView::Config("OpenCode does not support proxy takeover backups"@),
        ),
        AppType::OpenClaw => result == Err::<JsonView, ErrorView>(
            ErrorView::Config("OpenClaw does not support proxy takeover backups"@),
        ),
    }
}

impl ProviderService {
    /// What is backed up while a proxy stands in for a provider.
    pub fn build_live_backup_snapshot(
        app_type: AppType,
        provider: &Provider,
        common_config_snippet: Option<&str>,
        apply_common_config: bool,
        gemini_existing: JsonRead,
    ) -> (r: Result<Json, AppError>)
        ensures
            live_backup(
                app_type,
                provider@,
                maybe_str(common_config_snippet),
                apply_common_config,
                gemini_existing@,
                json_outcome(r),
            ),
    {
        let apply = resolve_live_apply_common_config(
            app_type,
            provider,
            common_config_snippet,
            apply_common_config,
        );
        let applied: Option<&str> = if apply {
            common_config_snippet
        } else {
            None
        };
        match app_type {
            AppType::Claude => Self::write_claude_live(provider, applied),
            AppType::Codex => Self::codex_backup(provider, common_config_snippet, apply),
            AppType::Gemini => {
                let content = match Self::write_gemini_live(provider, applied) {
                    Ok(content) => content,
                    Err(error) => {
                        return Err(error);
                    },
                };
                let settings = match make_gemini_settings_file(&content, gemini_existing) {
                    Ok(settings) => settings,
                    Err(error) => {
                        return Err(error);
                    },
                };
                let env = match content.get("env") {
                    Some(env) => env.copy(),
                    None => new_object(),
                };
                Ok(make_gemini_settings(env, settings))
            },
            AppType::OpenCode => Err(
                AppError::Config("OpenCode does not support proxy takeover backups".to_owned()),
            ),
            AppType::OpenClaw => Err(
                AppError::Config("OpenClaw does not support proxy takeover backups".to_owned()),
            ),
        }
    }
}

/// What is backed up of an Anthropic provider is what it puts into the live file.
pub proof fn law_claude_backup_is_live(
    provider: ProviderView,
    snippet: Option<Seq<char>>,
    requested: bool,
    gemini_existing: JsonReadView,
    backup: Result<JsonView, ErrorView>,
    plan: Result<LivePlan, AppError>,
)
    requires
        live_backup(AppType::Claude, provider, snippet, requested, gemini_existing, backup),
        live_plan(AppType::Claude, provider, snippet, requested, true, plan),
    ensures
        backup matches Ok(json) ==> (plan matches Ok(LivePlan::Claude(written)) && written@ == json),
        backup matches Err(error) ==> (plan matches Err(failure) && failure@ == error),
{
}

} // verus!
