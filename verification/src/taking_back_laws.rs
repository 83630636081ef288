//! What a provider takes back from the live files, in terms of what they hold.
use vstd::prelude::*;

use crate::common_config::{
    codex_server_ids, config_stripped, servers_stripped, snippet_extracted, synced_ids, uses_common,
};
use crate::config::{ConfigView, McpServerView};
use crate::error::ErrorView;
use crate::json::{deep_removed, is_subset, JsonView};
use crate::json_value::parsed_json;
use crate::live_files::{
    json_outcome, valid_text, JsonReadView, SnapshotView, TextReadView,
};
use crate::live_laws::{says_something, was_told_no, was_told_yes};
use crate::model::{AppType, ProviderView};
use crate::path_laws::{at, law_own_value_stays, law_shared_value_goes, law_strip_adds_nothing};
use crate::refresh::{
    codex_snippet_known, codex_text_refreshed, codex_texts_stored, refreshed, LiveAfter,
};
use crate::service::ActionView;
use crate::snapshots::{
    claude_backfilled, codex_backfilled, codex_own_stored, codex_text_seen, codex_text_stored,
    comes_out, gemini_backfilled, live_stored, own_text, provider_text, snippet_seen,
    text_or_empty,
};
use crate::store_laws::{agree_elsewhere, is_stored_as_given, lemma_stored_as_given};
use crate::switching::{lemma_successful_switch, switched, switched_read, LiveBefore};
use crate::text::{is_blank, trimmed};
use crate::toml_doc::parsed_toml;
use crate::toml_plain::plain_table;

verus! {

/// Whether what is left of live settings is what is not common: a value that the common
/// settings have at the same path is gone, any other stays, and nothing is added. Arrays,
/// which are taken apart element by element, are left out.
pub open spec fn is_kept_apart(
    live: JsonView,
    common: JsonView,
    stored: JsonView,
    path: Seq<Seq<char>>,
    value: JsonView,
) -> bool {
    path.len() > 0 && !(value is Object) && !(value is Array) ==> {
        &&& at(live, path) == Some(value) && at(common, path) == Some(value) ==> at(stored, path)
            is None
        &&& at(live, path) == Some(value) && at(common, path) != Some(value) ==> at(stored, path)
            == Some(value)
        &&& at(stored, path) == Some(value) ==> at(live, path) == Some(value)
    }
}

/// Whether a provider is another one in nothing but its settings and what is kept about it.
pub open spec fn is_same_provider(before: ProviderView, now: ProviderView) -> bool {
    &&& now.id == before.id
    &&& now.name == before.name
    &&& now.website_url == before.website_url
    &&& now.category == before.category
    &&& now.created_at == before.created_at
    &&& now.sort_index == before.sort_index
}

/// Whether it is noted that a provider takes the common snippet, and everything else that
/// is kept about it stays.
pub open spec fn is_noted(before: ProviderView, now: ProviderView) -> bool {
    &&& now.meta is Some
    &&& now.meta->0.apply_common_config == Some(true)
    &&& before.meta is Some ==> now.meta->0.codex_official == before.meta->0.codex_official
        && now.meta->0.usage_script == before.meta->0.usage_script && now.meta->0.extra
        == before.meta->0.extra
    &&& before.meta is None ==> now.meta->0.codex_official is None && now.meta->0.usage_script
        is None
}

/// Whether a provider with JSON settings has taken live settings back: all of them where it
/// declines the common snippet, there is none, or nothing was said and its settings do not
/// hold the snippet; and otherwise what is not common.
pub open spec fn has_taken_back(
    before: ProviderView,
    now: ProviderView,
    snippet: Option<Seq<char>>,
    live: JsonView,
    path: Seq<Seq<char>>,
    value: JsonView,
) -> bool {
    let common = parsed_json(trimmed(snippet->0));
    let there = common is Some && common->0 is Object;
    &&& is_same_provider(before, now)
    &&& was_told_no(before) || !says_something(snippet) ==> now.settings_config == live && now.meta
        == before.meta
    &&& was_told_yes(before) && says_something(snippet) ==> there && is_kept_apart(
        live,
        common->0,
        now.settings_config,
        path,
        value,
    ) && now.meta == before.meta
    &&& !was_told_no(before) && !was_told_yes(before) && says_something(snippet) ==> (if there
        && is_subset(before.settings_config, common->0) {
        is_kept_apart(live, common->0, now.settings_config, path, value) && is_noted(before, now)
    } else {
        now.settings_config == live && now.meta == before.meta
    })
}

/// Taking a common document out keeps the rest apart.
proof fn lemma_kept_apart(
    live: JsonView,
    common: JsonView,
    path: Seq<Seq<char>>,
    value: JsonView,
)
    ensures
        is_kept_apart(live, common, deep_removed(live, common), path, value),
{
    if path.len() > 0 && !(value is Object) && !(value is Array) {
        if at(live, path) == Some(value) && at(common, path) == Some(value) {
            law_shared_value_goes(live, common, path, value);
        }
        if at(live, path) == Some(value) && at(common, path) != Some(value) {
            law_own_value_stays(live, common, path, value);
        }
        if at(deep_removed(live, common), path) == Some(value) {
            law_strip_adds_nothing(live, common, path, value);
        }
    }
}

/// Whether a provider of a configuration, where it is there, has taken live settings back,
/// and nothing else has changed.
pub open spec fn only_takes_back(
    config: ConfigView,
    after: ConfigView,
    app_type: AppType,
    id: Seq<char>,
    live: JsonView,
    path: Seq<Seq<char>>,
    value: JsonView,
) -> bool {
    let there = config.managers.contains_key(app_type)
        && config.managers[app_type].providers.contains_key(id);
    let before = config.managers[app_type];
    let now = after.managers[app_type];
    &&& !there ==> after == config
    &&& there ==> {
        &&& agree_elsewhere(config, after, app_type)
        &&& after.managers.contains_key(app_type)
        &&& now.ids == before.ids
        &&& now.current == before.current
        &&& now.providers.dom() == before.providers.dom()
        &&& forall|other: Seq<char>|
            other != id && before.providers.contains_key(other) ==> #[trigger] now.providers[other]
                == before.providers[other]
        &&& has_taken_back(
            before.providers[id],
            now.providers[id],
            if config.snippets.contains_key(app_type) {
                Some(config.snippets[app_type])
            } else {
                None
            },
            live,
            path,
            value,
        )
    }
}

/// Storing live settings with a provider takes them back.
proof fn lemma_live_stored(
    config: ConfigView,
    after: ConfigView,
    app_type: AppType,
    id: Seq<char>,
    live: JsonView,
    path: Seq<Seq<char>>,
    value: JsonView,
)
    requires
        app_type == AppType::Claude || app_type == AppType::Gemini,
        live_stored(config, app_type, id, live) == Ok::<ConfigView, ErrorView>(after),
    ensures
        only_takes_back(config, after, app_type, id, live, path, value),
{
    if config.provider(app_type, id) is Some {
        let provider = config.provider(app_type, id)->0;
        let snippet = config.snippet(app_type);
        if uses_common(app_type, provider, snippet) {
            lemma_kept_apart(live, parsed_json(trimmed(snippet->0))->0, path, value);
        }
        assert(after.managers[app_type].providers.dom()
            =~= config.managers[app_type].providers.dom());
    }
}

/// Before another provider becomes the current one, the Anthropic provider that was takes
/// the live settings back, with the models under their names of today. Nothing happens
/// where there are none, or where nothing is or stays current.
pub proof fn law_claude_takes_live_settings_back(
    config: ConfigView,
    next: Seq<char>,
    settings: JsonReadView,
    after: ConfigView,
    result: Result<(), ErrorView>,
    path: Seq<Seq<char>>,
    value: JsonView,
)
    requires
        comes_out(claude_backfilled(config, next, settings), config, after, result),
    ensures
        ({
            let app = AppType::Claude;
            let current = if config.managers.contains_key(app) {
                config.managers[app].current
            } else {
                Seq::empty()
            };
            let idle = current.len() == 0 || current == next;
            &&& idle || settings is Missing ==> result is Ok && after == config
            &&& result is Err ==> after == config
            &&& !idle && settings is Failed ==> result is Err
            &&& !idle && settings is Found && result is Ok ==> exists|named: JsonView|
                {
                    &&& #[trigger] is_stored_as_given(app, settings->Found_0, named, path, value)
                    &&& only_takes_back(config, after, app, current, named, path, value)
                }
        }),
{
    if settings is Found && result is Ok {
        let live = settings->Found_0;
        let named = crate::claude::models_normalized(live);
        lemma_stored_as_given(AppType::Claude, live, path, value);
        assert(is_stored_as_given(AppType::Claude, live, named, path, value));
        let current = config.current(AppType::Claude);
        if current.len() > 0 && current != next {
            lemma_live_stored(config, after, AppType::Claude, current, named, path, value);
        }
    }
}

/// Whether Gemini settings are those of the live files: the environment as it was read, and
/// the settings file, an empty one where there is none.
pub open spec fn is_gemini_live(env: JsonView, settings: JsonReadView, live: JsonView) -> bool {
    if env is Object {
        &&& live is Object
        &&& live->Object_0.dom() == env->Object_0.dom().insert("config"@)
        &&& forall|key: Seq<char>|
            key != "config"@ && env->Object_0.contains_key(key) ==> #[trigger] live->Object_0[key]
                == env->Object_0[key]
        &&& live->Object_0["config"@] == (if settings is Found {
            settings->Found_0
        } else {
            JsonView::Object(Map::empty())
        })
    } else {
        live == env
    }
}

/// Before another provider becomes the current one, the Gemini provider that was takes the
/// live settings back.
pub proof fn law_gemini_takes_live_settings_back(
    config: ConfigView,
    next: Seq<char>,
    env: JsonReadView,
    settings: JsonReadView,
    after: ConfigView,
    result: Result<(), ErrorView>,
    path: Seq<Seq<char>>,
    value: JsonView,
)
    requires
        comes_out(gemini_backfilled(config, next, env, settings), config, after, result),
    ensures
        ({
            let app = AppType::Gemini;
            let current = if config.managers.contains_key(app) {
                config.managers[app].current
            } else {
                Seq::empty()
            };
            let idle = current.len() == 0 || current == next;
            &&& idle || env is Missing ==> result is Ok && after == config
            &&& result is Err ==> after == config
            &&& !idle && (env is Failed || (env is Found && settings is Failed)) ==> result is Err
            &&& !idle && env is Found && result is Ok ==> exists|live: JsonView|
                {
                    &&& #[trigger] is_gemini_live(env->Found_0, settings, live)
                    &&& only_takes_back(config, after, app, current, live, path, value)
                }
        }),
{
    if env is Found && !(settings is Failed) && result is Ok {
        let content = settings.content()->Ok_0;
        let live = crate::snapshots::gemini_live(env->Found_0, content);
        if env->Found_0 is Object {
            assert(live->Object_0.dom() =~= env->Found_0->Object_0.dom().insert("config"@));
        }
        assert(is_gemini_live(env->Found_0, settings, live));
        let current = config.current(AppType::Gemini);
        if current.len() > 0 && current != next {
            lemma_live_stored(config, after, AppType::Gemini, current, live, path, value);
        }
    }
}

/// An Anthropic provider that is refreshed takes back what the live file holds; one without
/// a live file that can be read is not refreshed.
pub proof fn law_claude_is_refreshed_from_live(
    config: ConfigView,
    id: Seq<char>,
    live: LiveAfter,
    after: ConfigView,
    result: Result<(), ErrorView>,
    path: Seq<Seq<char>>,
    value: JsonView,
)
    requires
        refreshed(config, id, live, after, result),
        live is Claude,
    ensures
        ({
            let settings = live->Claude_settings@;
            &&& result is Err ==> after == config
            &&& settings is Found && config.managers.contains_key(AppType::Claude)
                && config.managers[AppType::Claude].providers.contains_key(id) && (was_told_no(
                config.managers[AppType::Claude].providers[id],
            ) || !config.snippets.contains_key(AppType::Claude)) ==> result is Ok
            &&& result is Ok ==> settings is Found && exists|named: JsonView|
                {
                    &&& #[trigger] is_stored_as_given(
                        AppType::Claude,
                        settings->Found_0,
                        named,
                        path,
                        value,
                    )
                    &&& only_takes_back(config, after, AppType::Claude, id, named, path, value)
                }
        }),
{
    let settings = live->Claude_settings@;
    if result is Ok {
        let json = settings->Found_0;
        let named = crate::claude::models_normalized(json);
        lemma_stored_as_given(AppType::Claude, json, path, value);
        assert(is_stored_as_given(AppType::Claude, json, named, path, value));
        lemma_live_stored(config, after, AppType::Claude, id, named, path, value);
    }
}

/// A Gemini provider that is refreshed takes back what the live files hold; one without an
/// environment that can be read is not refreshed.
pub proof fn law_gemini_is_refreshed_from_live(
    config: ConfigView,
    id: Seq<char>,
    live: LiveAfter,
    after: ConfigView,
    result: Result<(), ErrorView>,
    path: Seq<Seq<char>>,
    value: JsonView,
)
    requires
        refreshed(config, id, live, after, result),
        live is Gemini,
    ensures
        ({
            let env = live->env@;
            let settings = live->Gemini_settings@;
            &&& result is Err ==> after == config
            &&& env is Found && !(settings is Failed) && config.managers.contains_key(
                AppType::Gemini,
            ) && config.managers[AppType::Gemini].providers.contains_key(id) && (was_told_no(
                config.managers[AppType::Gemini].providers[id],
            ) || !config.snippets.contains_key(AppType::Gemini)) ==> result is Ok
            &&& result is Ok ==> env is Found && !(settings is Failed) && exists|json: JsonView|
                {
                    &&& #[trigger] is_gemini_live(env->Found_0, settings, json)
                    &&& only_takes_back(config, after, AppType::Gemini, id, json, path, value)
                }
        }),
{
    let env = live->env@;
    let settings = live->Gemini_settings@;
    if result is Ok {
        let content = settings.content()->Ok_0;
        let json = crate::snapshots::gemini_live(env->Found_0, content);
        if env->Found_0 is Object {
            assert(json->Object_0.dom() =~= env->Found_0->Object_0.dom().insert("config"@));
        }
        assert(is_gemini_live(env->Found_0, settings, json));
        lemma_live_stored(config, after, AppType::Gemini, id, json, path, value);
    }
}

/// A provider of an application that keeps all of them in one live file takes its entry of
/// that file as its settings; one that has none there is not refreshed.
pub proof fn law_listed_is_refreshed_from_live(
    config: ConfigView,
    id: Seq<char>,
    live: LiveAfter,
    after: ConfigView,
    result: Result<(), ErrorView>,
)
    requires
        refreshed(config, id, live, after, result),
        live is OpenCode || live is OpenClaw,
    ensures
        ({
            let app = if live is OpenCode {
                AppType::OpenCode
            } else {
                AppType::OpenClaw
            };
            let read = json_outcome(
                if live is OpenCode {
                    live->OpenCode_providers
                } else {
                    live->OpenClaw_providers
                },
            );
            let listed = read is Ok && at(read->Ok_0, seq![id]) is Some;
            let there = config.managers.contains_key(app)
                && config.managers[app].providers.contains_key(id);
            let before = config.managers[app];
            let now = after.managers[app];
            &&& result is Ok <==> listed
            &&& result is Err || !there ==> after == config
            &&& result is Ok && there ==> {
                &&& agree_elsewhere(config, after, app)
                &&& after.managers.contains_key(app)
                &&& now.ids == before.ids
                &&& now.current == before.current
                &&& now.providers.dom() == before.providers.dom()
                &&& forall|other: Seq<char>|
                    other != id && before.providers.contains_key(other)
                        ==> #[trigger] now.providers[other] == before.providers[other]
                &&& is_same_provider(before.providers[id], now.providers[id])
                &&& now.providers[id].meta == before.providers[id].meta
                &&& at(read->Ok_0, seq![id]) == Some(now.providers[id].settings_config)
            }
        }),
{
    assert(seq![id].drop_first() =~= Seq::empty());
    reveal_with_fuel(at, 2);
    let app = if live is OpenCode {
        AppType::OpenCode
    } else {
        AppType::OpenClaw
    };
    if result is Ok && config.provider(app, id) is Some {
        assert(after.managers[app].providers.dom() =~= config.managers[app].providers.dom());
    }
}

/// Where no server is enabled for Codex, there is none to look for.
proof fn lemma_no_synced_servers(servers: Seq<McpServerView>)
    requires
        forall|i: int| 0 <= i < servers.len() ==> !(#[trigger] servers[i]).apps.codex,
    ensures
        codex_server_ids(servers).len() == 0,
    decreases servers.len(),
{
    if servers.len() > 0 {
        assert(!servers[servers.len() - 1].apps.codex);
        assert forall|i: int| 0 <= i < servers.drop_last().len() implies !(
        #[trigger] servers.drop_last()[i]).apps.codex by {
            assert(servers.drop_last()[i] == servers[i]);
        }
        lemma_no_synced_servers(servers.drop_last());
    }
}

/// Whether no server is enabled for Codex.
pub open spec fn syncs_no_server(config: ConfigView) -> bool {
    config.mcp_servers is Some ==> forall|i: int|
        0 <= i < config.mcp_servers->0.len() ==> !(
        #[trigger] config.mcp_servers->0[i]).apps.codex
}

/// Whether Codex settings hold what was read: a text that was found under `config`, an
/// authentication that was found under `auth`, and everything else as it was.
pub open spec fn holds_codex_files(
    before: JsonView,
    now: JsonView,
    auth: JsonReadView,
    text: TextReadView,
) -> bool {
    let old = if before is Object {
        before->Object_0
    } else {
        Map::empty()
    };
    let new = now->Object_0;
    &&& now is Object
    &&& text is Found ==> new.contains_key("config"@) && new["config"@] == JsonView::Str(
        text->Found_0,
    )
    &&& auth is Found ==> new.contains_key("auth"@) && new["auth"@] == auth->Found_0
    &&& forall|key: Seq<char>|
        (key == "config"@ ==> text is Missing) && (key == "auth"@ ==> auth is Missing) ==> {
            &&& #[trigger] new.contains_key(key) == old.contains_key(key)
            &&& old.contains_key(key) ==> new[key] == old[key]
        }
}

/// Whether nothing has changed but one provider of Codex, of which only the settings and what
/// is kept about it have, and the common snippet of Codex.
pub open spec fn only_codex_provider_changes(
    config: ConfigView,
    after: ConfigView,
    id: Seq<char>,
) -> bool {
    let before = config.managers[AppType::Codex];
    let now = after.managers[AppType::Codex];
    &&& after.mcp_servers == config.mcp_servers
    &&& after.managers.dom() == config.managers.dom()
    &&& forall|app: AppType|
        app != AppType::Codex && config.managers.contains_key(app)
            ==> #[trigger] after.managers[app] == config.managers[app]
    &&& forall|app: AppType|
        app != AppType::Codex ==> {
            &&& #[trigger] after.snippets.contains_key(app) == config.snippets.contains_key(app)
            &&& config.snippets.contains_key(app) ==> after.snippets[app] == config.snippets[app]
        }
    &&& config.managers.contains_key(AppType::Codex) ==> {
        &&& now.ids == before.ids
        &&& now.current == before.current
        &&& now.providers.dom() == before.providers.dom()
        &&& forall|other: Seq<char>|
            other != id && before.providers.contains_key(other) ==> #[trigger] now.providers[other]
                == before.providers[other]
        &&& before.providers.contains_key(id) ==> is_same_provider(
            before.providers[id],
            now.providers[id],
        )
    }
}

/// Before another provider becomes the current one, a Codex provider that declines the common
/// snippet takes all back that the live files hold, where no server is enabled for Codex; it
/// adds nothing to the snippet. Nothing happens where both files are missing, or where nothing
/// is or stays current.
pub proof fn law_declining_codex_takes_all_back(
    config: ConfigView,
    current: Seq<char>,
    next: Seq<char>,
    auth: JsonReadView,
    text: TextReadView,
    after: ConfigView,
    result: Result<(), ErrorView>,
)
    requires
        codex_backfilled(config, current, next, auth, text, after, result),
    ensures
        ({
            let there = config.managers.contains_key(AppType::Codex)
                && config.managers[AppType::Codex].providers.contains_key(current);
            let before = config.managers[AppType::Codex].providers[current];
            let now = after.managers[AppType::Codex].providers[current];
            let idle = current.len() == 0 || current == next || (auth is Missing && text
                is Missing);
            &&& idle ==> result is Ok && after == config
            &&& !idle && (auth is Failed || text is Failed) ==> result is Err && after == config
            &&& !idle && !(auth is Failed) && !(text is Failed) && there && was_told_no(before)
                && syncs_no_server(config) ==> {
                &&& result is Ok
                &&& after.snippets == config.snippets
                &&& only_codex_provider_changes(config, after, current)
                &&& now.meta == before.meta
                &&& holds_codex_files(before.settings_config, now.settings_config, auth, text)
            }
        }),
{
    let idle = current.len() == 0 || current == next || (auth is Missing && text is Missing);
    let there = config.managers.contains_key(AppType::Codex)
        && config.managers[AppType::Codex].providers.contains_key(current);
    let before = config.managers[AppType::Codex].providers[current];
    reveal_strlit("auth");
    reveal_strlit("config");
    assert("auth"@.len() == 4);
    assert("config"@.len() == 6);
    if !idle && !(auth is Failed) && !(text is Failed) && there && was_told_no(before)
        && syncs_no_server(config) {
        if let Some(servers) = config.mcp_servers {
            lemma_no_synced_servers(servers);
        }
        assert(synced_ids(config).len() == 0);
        let read = auth.content()->Ok_0;
        if let TextReadView::Found(found) = text {
            assert(codex_text_seen(config, current, read, found, after, result));
            let snippet = choose|snippet: Result<Option<Seq<char>>, ErrorView>| #[trigger]
                snippet_seen(config, current, found, snippet) && match snippet {
                    Err(error) => result == Err::<(), ErrorView>(error) && after == config,
                    Ok(snippet) => codex_text_stored(
                        config,
                        current,
                        read,
                        found,
                        snippet,
                        after,
                        result,
                    ),
                };
            let settled = snippet->Ok_0;
            assert(settled == config.snippet(AppType::Codex));
            let own = choose|own: Result<Seq<char>, ErrorView>| #[trigger]
                own_text(
                    uses_common(AppType::Codex, before, settled),
                    settled,
                    found,
                    own,
                ) && match own {
                    Ok(own) => codex_own_stored(config, current, read, own, settled, after, result),
                    Err(error) => result == Err::<(), ErrorView>(error) && after
                        == config.with_snippet(AppType::Codex, settled),
                };
            assert(own == Ok::<Seq<char>, ErrorView>(found));
            let stored = choose|stored: Result<Seq<char>, ErrorView>| #[trigger]
                servers_stripped(found, synced_ids(config), stored) && match stored {
                    Ok(stored) => result is Ok && after == crate::snapshots::with_codex_read(
                        config,
                        current,
                        before,
                        settled,
                        read,
                        Some(stored),
                    ),
                    Err(error) => result == Err::<(), ErrorView>(error) && after
                        == crate::snapshots::with_codex_read(
                        config,
                        current,
                        before,
                        settled,
                        read,
                        None,
                    ),
                };
            assert(stored == Ok::<Seq<char>, ErrorView>(found));
            assert(after.snippets =~= config.snippets);
        }
        assert(after.managers.dom() =~= config.managers.dom());
        assert(after.managers[AppType::Codex].providers.dom()
            =~= config.managers[AppType::Codex].providers.dom());
    }
}

/// A Codex provider that declines the common snippet and is refreshed takes the live files as
/// they are, where no server is enabled for Codex: the text as its configuration, an empty one
/// where there is none, and the authentication, which goes where there is none. It adds
/// nothing to the snippet. Files that cannot be read change nothing.
pub proof fn law_declining_codex_is_refreshed_from_live(
    config: ConfigView,
    id: Seq<char>,
    live: LiveAfter,
    after: ConfigView,
    result: Result<(), ErrorView>,
)
    requires
        refreshed(config, id, live, after, result),
        live is Codex,
    ensures
        ({
            let auth = live->auth@;
            let text = live->text@;
            let there = config.managers.contains_key(AppType::Codex)
                && config.managers[AppType::Codex].providers.contains_key(id);
            let before = config.managers[AppType::Codex].providers[id];
            let now = after.managers[AppType::Codex].providers[id];
            let old = before.settings_config->Object_0;
            let new = now.settings_config->Object_0;
            let broken = text is Found && !is_blank(text->Found_0) && plain_table(text->Found_0)
                is None;
            let given = if text is Found {
                text->Found_0
            } else {
                Seq::empty()
            };
            &&& auth is Failed || text is Failed || broken ==> result is Err && after == config
            &&& !(auth is Failed) && !(text is Failed) && !broken && (is_blank(given)
                || parsed_toml(trimmed(given)) is Some) && there && before.settings_config is Object
                && was_told_no(before) && syncs_no_server(config) ==> result is Ok
            &&& result is Ok && there && before.settings_config is Object && was_told_no(before)
                && syncs_no_server(config) ==> {
                &&& after.snippets == config.snippets
                &&& only_codex_provider_changes(config, after, id)
                &&& now.meta == before.meta
                &&& now.settings_config is Object
                &&& new.contains_key("config"@)
                &&& new["config"@] == JsonView::Str(
                    if text is Found {
                        text->Found_0
                    } else {
                        Seq::empty()
                    },
                )
                &&& new.contains_key("auth"@) == auth is Found
                &&& auth is Found ==> new["auth"@] == auth->Found_0
                &&& forall|key: Seq<char>|
                    key != "config"@ && key != "auth"@ ==> {
                        &&& #[trigger] new.contains_key(key) == old.contains_key(key)
                        &&& old.contains_key(key) ==> new[key] == old[key]
                    }
            }
        }),
{
    let auth = live->auth@;
    let text = live->text@;
    let there = config.managers.contains_key(AppType::Codex)
        && config.managers[AppType::Codex].providers.contains_key(id);
    let before = config.managers[AppType::Codex].providers[id];
    reveal_strlit("auth");
    reveal_strlit("config");
    assert("auth"@.len() == 4);
    assert("config"@.len() == 6);
    let broken = text is Found && !is_blank(text->Found_0) && plain_table(text->Found_0) is None;
    let found = text_or_empty(valid_text(text)->Ok_0);
    let given_text = is_blank(found) || parsed_toml(trimmed(found)) is Some;
    if (result is Ok || (!(auth is Failed) && !(text is Failed) && !broken && given_text)) && there
        && before.settings_config is Object && was_told_no(before) && syncs_no_server(config) {
        if let Some(servers) = config.mcp_servers {
            lemma_no_synced_servers(servers);
        }
        let read = auth.content()->Ok_0;
        assert(codex_text_refreshed(config, id, read, found, after, result));
        let extracted = choose|extracted: Result<Seq<char>, ErrorView>| #[trigger]
            snippet_extracted(found, extracted) && match extracted {
                Err(error) => result == Err::<(), ErrorView>(error) && after == config,
                Ok(extracted) => codex_snippet_known(
                    config,
                    id,
                    read,
                    found,
                    extracted,
                    after,
                    result,
                ),
            };
        let given = extracted->Ok_0;
        let ids = synced_ids(config);
        let snippet = config.snippet(AppType::Codex);
        let stored = choose|stored: Result<Seq<char>, ErrorView>| #[trigger]
            provider_text(
                crate::refresh::codex_uses(config, id),
                snippet,
                ids,
                found,
                stored,
            ) && match stored {
                Ok(stored) => codex_texts_stored(config, id, read, given, stored, after, result),
                Err(error) => result == Err::<(), ErrorView>(error) && after == config,
            };
        let own = choose|own: Result<Seq<char>, ErrorView>| #[trigger]
            own_text(false, snippet, found, own) && match own {
                Ok(own) => servers_stripped(own, ids, stored),
                Err(error) => stored == Err::<Seq<char>, ErrorView>(error),
            };
        assert(own == Ok::<Seq<char>, ErrorView>(found));
        assert(stored == Ok::<Seq<char>, ErrorView>(found));
        assert(after.snippets =~= config.snippets);
        assert(after.managers.dom() =~= config.managers.dom());
        assert(after.managers[AppType::Codex].providers.dom()
            =~= config.managers[AppType::Codex].providers.dom());
    }
}

/// The common snippet of Codex, where there is one.
pub open spec fn codex_snippet_of(config: ConfigView) -> Option<Seq<char>> {
    if config.snippets.contains_key(AppType::Codex) {
        Some(config.snippets[AppType::Codex])
    } else {
        None
    }
}

/// Whether a common snippet is what it should be after a live configuration has been seen:
/// one that says something stays, and so does any where the provider declines it; otherwise
/// the configuration gives one, where it says anything that is shared.
pub open spec fn is_learnt(
    declined: bool,
    before: Option<Seq<char>>,
    text: Seq<char>,
    now: Option<Seq<char>>,
) -> bool {
    if declined || says_something(before) {
        now == before
    } else {
        exists|given: Seq<char>| #[trigger]
            snippet_extracted(text, Ok(given)) && now == (if is_blank(given) {
                before
            } else {
                Some(given)
            })
    }
}

/// Whether a text is what a provider keeps of a live one: without the common snippet where it
/// was told to take that, and without the servers that are enabled for Codex.
pub open spec fn is_own_part(
    takes: bool,
    snippet: Option<Seq<char>>,
    servers: Seq<Seq<char>>,
    text: Seq<char>,
    kept: Seq<char>,
) -> bool {
    if takes && says_something(snippet) {
        exists|own: Seq<char>| #[trigger]
            config_stripped(text, snippet->0, Ok(own)) && servers_stripped(own, servers, Ok(kept))
    } else {
        servers_stripped(text, servers, Ok(kept))
    }
}

/// Whether a Codex provider takes the common snippet: it was told to; or nothing was said, and
/// it uses the snippet already.
pub open spec fn takes_snippet(provider: ProviderView, snippet: Option<Seq<char>>) -> bool {
    was_told_yes(provider) || (!was_told_no(provider) && uses_common(
        AppType::Codex,
        provider,
        snippet,
    ))
}

/// Whether it is noted that a provider about which nothing was said takes the common snippet,
/// where it does; and nothing else changes in what is kept about it.
pub open spec fn is_noted_if_taken(
    before: ProviderView,
    now: ProviderView,
    snippet: Option<Seq<char>>,
) -> bool {
    if !was_told_yes(before) && !was_told_no(before) && takes_snippet(before, snippet) {
        is_noted(before, now)
    } else {
        now.meta == before.meta
    }
}

/// Before another provider becomes the current one, a Codex provider takes back what is its
/// own in the live text; the snippet is learnt from the text where there is none yet, and
/// where nothing was said, it is noted that the provider takes the snippet, if it does.
pub proof fn law_codex_takes_own_part_back(
    config: ConfigView,
    current: Seq<char>,
    next: Seq<char>,
    auth: JsonReadView,
    text: Seq<char>,
    after: ConfigView,
)
    requires
        codex_backfilled(config, current, next, auth, TextReadView::Found(text), after, Ok(())),
        current.len() > 0,
        current != next,
        config.managers.contains_key(AppType::Codex),
        config.managers[AppType::Codex].providers.contains_key(current),
    ensures
        ({
            let before = config.managers[AppType::Codex].providers[current];
            let now = after.managers[AppType::Codex].providers[current];
            let kept = now.settings_config->Object_0["config"@];
            &&& is_learnt(
                was_told_no(before),
                codex_snippet_of(config),
                text,
                codex_snippet_of(after),
            )
            &&& only_codex_provider_changes(config, after, current)
            &&& is_noted_if_taken(before, now, codex_snippet_of(after))
            &&& kept is Str
            &&& holds_codex_files(
                before.settings_config,
                now.settings_config,
                auth,
                TextReadView::Found(kept->Str_0),
            )
            &&& is_own_part(
                takes_snippet(before, codex_snippet_of(after)),
                codex_snippet_of(after),
                synced_ids(config),
                text,
                kept->Str_0,
            )
        }),
{
    let result = Ok::<(), ErrorView>(());
    let before = config.managers[AppType::Codex].providers[current];
    reveal_strlit("auth");
    reveal_strlit("config");
    assert("auth"@.len() == 4);
    assert("config"@.len() == 6);
    let read = auth.content()->Ok_0;
    assert(codex_text_seen(config, current, read, text, after, result));
    let snippet = choose|snippet: Result<Option<Seq<char>>, ErrorView>| #[trigger]
        snippet_seen(config, current, text, snippet) && match snippet {
            Err(error) => result == Err::<(), ErrorView>(error) && after == config,
            Ok(snippet) => codex_text_stored(config, current, read, text, snippet, after, result),
        };
    let settled = snippet->Ok_0;
    let uses = uses_common(AppType::Codex, before, settled);
    let own = choose|own: Result<Seq<char>, ErrorView>| #[trigger]
        own_text(uses, settled, text, own) && match own {
            Ok(own) => codex_own_stored(config, current, read, own, settled, after, result),
            Err(error) => result == Err::<(), ErrorView>(error) && after == config.with_snippet(
                AppType::Codex,
                settled,
            ),
        };
    let stored = choose|stored: Result<Seq<char>, ErrorView>| #[trigger]
        servers_stripped(own->Ok_0, synced_ids(config), stored) && match stored {
            Ok(stored) => result is Ok && after == crate::snapshots::with_codex_read(
                config,
                current,
                before,
                settled,
                read,
                Some(stored),
            ),
            Err(error) => result == Err::<(), ErrorView>(error) && after
                == crate::snapshots::with_codex_read(
                config,
                current,
                before,
                settled,
                read,
                None,
            ),
        };
    assert(codex_snippet_of(after) == settled);
    if !was_told_no(before) && !says_something(codex_snippet_of(config)) {
        let given = choose|extracted: Result<Seq<char>, ErrorView>| #[trigger]
            snippet_extracted(text, extracted) && snippet == (match extracted {
                Ok(text) => Ok::<Option<Seq<char>>, ErrorView>(
                    if is_blank(text) {
                        config.snippet(AppType::Codex)
                    } else {
                        Some(text)
                    },
                ),
                Err(error) => Err(error),
            });
        assert(given == Ok::<Seq<char>, ErrorView>(given->Ok_0));
    }
    if uses {
        assert(config_stripped(text, settled->0, Ok(own->Ok_0)));
    }
    assert(after.managers.dom() =~= config.managers.dom());
    assert(after.managers[AppType::Codex].providers.dom()
        =~= config.managers[AppType::Codex].providers.dom());
}

/// A Codex provider that is refreshed takes back what is its own in the live text; the snippet
/// is learnt from the text where there is none yet, and where nothing was said, it is noted
/// that the provider takes the snippet, if it does.
pub proof fn law_codex_is_refreshed_with_own_part(
    config: ConfigView,
    id: Seq<char>,
    live: LiveAfter,
    after: ConfigView,
)
    requires
        refreshed(config, id, live, after, Ok(())),
        live is Codex,
        config.managers.contains_key(AppType::Codex),
        config.managers[AppType::Codex].providers.contains_key(id),
    ensures
        ({
            let before = config.managers[AppType::Codex].providers[id];
            let now = after.managers[AppType::Codex].providers[id];
            let text = if live->text@ is Found {
                live->text@->Found_0
            } else {
                Seq::empty()
            };
            let kept = now.settings_config->Object_0["config"@];
            &&& is_learnt(
                was_told_no(before),
                codex_snippet_of(config),
                text,
                codex_snippet_of(after),
            )
            &&& only_codex_provider_changes(config, after, id)
            &&& is_noted_if_taken(before, now, codex_snippet_of(config))
            &&& now.settings_config is Object
            &&& now.settings_config->Object_0.contains_key("config"@)
            &&& kept is Str
            &&& is_own_part(
                takes_snippet(before, codex_snippet_of(config)),
                codex_snippet_of(config),
                synced_ids(config),
                text,
                kept->Str_0,
            )
        }),
{
    let result = Ok::<(), ErrorView>(());
    let before = config.managers[AppType::Codex].providers[id];
    reveal_strlit("auth");
    reveal_strlit("config");
    assert("auth"@.len() == 4);
    assert("config"@.len() == 6);
    let read = live->auth@.content()->Ok_0;
    let text = text_or_empty(valid_text(live->text@)->Ok_0);
    assert(codex_text_refreshed(config, id, read, text, after, result));
    let extracted = choose|extracted: Result<Seq<char>, ErrorView>| #[trigger]
        snippet_extracted(text, extracted) && match extracted {
            Err(error) => result == Err::<(), ErrorView>(error) && after == config,
            Ok(extracted) => codex_snippet_known(config, id, read, text, extracted, after, result),
        };
    let given = extracted->Ok_0;
    assert(extracted == Ok::<Seq<char>, ErrorView>(given));
    let ids = synced_ids(config);
    let snippet = config.snippet(AppType::Codex);
    let uses = crate::refresh::codex_uses(config, id);
    let stored = choose|stored: Result<Seq<char>, ErrorView>| #[trigger]
        provider_text(uses, snippet, ids, text, stored) && match stored {
            Ok(stored) => codex_texts_stored(config, id, read, given, stored, after, result),
            Err(error) => result == Err::<(), ErrorView>(error) && after == config,
        };
    let own = choose|own: Result<Seq<char>, ErrorView>| #[trigger]
        own_text(uses, snippet, text, own) && match own {
            Ok(own) => servers_stripped(own, ids, stored),
            Err(error) => stored == Err::<Seq<char>, ErrorView>(error),
        };
    assert(stored == Ok::<Seq<char>, ErrorView>(stored->Ok_0));
    if uses {
        assert(config_stripped(text, snippet->0, Ok(own->Ok_0)));
    }
    assert(after.managers.dom() =~= config.managers.dom());
    assert(after.managers[AppType::Codex].providers.dom()
        =~= config.managers[AppType::Codex].providers.dom());
}

/// Whether the provider that was current has taken its live files back while another has
/// become current.
pub open spec fn former_took_back(
    config: ConfigView,
    after: ConfigView,
    app_type: AppType,
    id: Seq<char>,
    filled: ConfigView,
    live: LiveBefore,
) -> bool {
    &&& match live {
        LiveBefore::Claude { settings } => comes_out(
            claude_backfilled(config, id, settings@),
            config,
            filled,
            Ok(()),
        ),
        LiveBefore::Codex { auth, text } => codex_backfilled(
            config,
            config.managers[AppType::Codex].current,
            id,
            auth@,
            text@,
            filled,
            Ok(()),
        ),
        LiveBefore::Gemini { env, settings } => comes_out(
            gemini_backfilled(config, id, env@, settings@),
            config,
            filled,
            Ok(()),
        ),
        LiveBefore::Unread => false,
    }
    &&& after.snippets == filled.snippets
    &&& after.managers[app_type].providers == filled.managers[app_type].providers
}

/// A switch has the provider that was current take its live files back, unless a proxy stands
/// in or all providers are live at once.
pub proof fn law_switch_has_former_take_back(
    config: ConfigView,
    app_type: AppType,
    id: Seq<char>,
    captured: Result<SnapshotView, ErrorView>,
    live: LiveBefore,
    after: ConfigView,
    action: ActionView,
)
    requires
        switched(config, app_type, id, false, captured, live, after, Ok(action)),
        live.fits(app_type, false),
        app_type == AppType::Claude || app_type == AppType::Codex || app_type == AppType::Gemini,
    ensures
        exists|filled: ConfigView| #[trigger]
            former_took_back(config, after, app_type, id, filled, live),
{
    assert(switched_read(config, app_type, id, captured, live, after, Ok(action)));
    let filled = lemma_successful_switch(config, app_type, id, captured, live, after, action);
    assert(former_took_back(config, after, app_type, id, filled, live));
}

} // verus!
