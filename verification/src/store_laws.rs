//! What is stored of a provider, and what is handed on, in terms of what was given.
use vstd::prelude::*;

use crate::claude::models_normalized;
use crate::common_config::{claude_snippet_error, gemini_snippet_error, is_official};
use crate::config::{ConfigView, ManagerView};
use crate::error::ErrorView;
use crate::json::JsonView;
use crate::live_files::{JsonReadView, SnapshotView, TextReadView};
use crate::json_value::parsed_json;
use crate::live_import::{
    claude_missing, codex_auth_missing, codex_live_missing, default_imported, gemini_env_missing,
    gemini_live_missing, import_comes_out, no_such_app, openclaw_missing, opencode_missing,
    settings_read, LiveSettings,
};
use crate::live_laws::{says_official, was_told_no};
use crate::model::{AppType, ProviderView};
use crate::path_laws::{
    at, has_models_of_today, is_old_model_name, law_models_by_name,
    law_normalizing_adds_nothing_elsewhere, law_normalizing_keeps_values,
};
use crate::provider_actions::{default_needs_provider, no_models, provider_missing};
use crate::refresh::{missing_live, missing_provider};
use crate::service::{
    added, change_comes_out, manager_or_empty, no_such_provider, updated, ActionView,
};
use crate::service_laws::law_switch_changes_former_current_only;
use crate::snapshots::comes_out;
use crate::switching::{
    is_first_id, is_listed_first, lemma_successful_switch, listed_before, switched, switched_read,
    takeover, LiveBefore,
};
use crate::text::is_blank;
use crate::toml_plain::{plain_parse_error, plain_table};
use crate::upkeep::{
    all_currents, app_currents, are_leftovers, delete_error, deleted, is_imported,
    law_sorting_changes_places_only, openclaw_imported, sorted, with_entries, Leftovers,
    OpenClawEntry, ProviderSortUpdate,
};
use crate::validation::settings_error;

verus! {

/// Whether two configurations differ at most in the providers of one application.
pub open spec fn agree_elsewhere(before: ConfigView, after: ConfigView, app_type: AppType) -> bool {
    &&& after.snippets == before.snippets
    &&& after.mcp_servers == before.mcp_servers
    &&& forall|app: AppType|
        app != app_type ==> {
            &&& #[trigger] after.managers.contains_key(app) == before.managers.contains_key(app)
            &&& before.managers.contains_key(app) ==> after.managers[app] == before.managers[app]
        }
}

/// Whether settings are stored as they were given: all of them, but for Anthropic, whose
/// models get their names of today; there a value stays at its path, and nothing changes
/// outside the environment.
pub open spec fn is_stored_as_given(
    app_type: AppType,
    given: JsonView,
    stored: JsonView,
    path: Seq<Seq<char>>,
    value: JsonView,
) -> bool {
    &&& app_type != AppType::Claude ==> stored == given
    &&& !(value is Object) && at(given, path) == Some(value) && !is_old_model_name(path) ==> at(
        stored,
        path,
    ) == Some(value)
    &&& path.len() > 0 && path[0] != "env"@ ==> at(stored, path) == at(given, path)
    &&& !(at(given, seq!["env"@]) matches Some(JsonView::Object(_))) ==> stored == given
    &&& app_type == AppType::Claude && at(given, seq!["env"@]) is Some && at(
        given,
        seq!["env"@],
    )->0 is Object ==> {
        let env = at(given, seq!["env"@])->0->Object_0;
        &&& at(stored, seq!["env"@]) is Some
        &&& at(stored, seq!["env"@])->0 is Object
        &&& forall|key: Seq<char>| #[trigger]
            has_models_of_today(env, at(stored, seq!["env"@])->0->Object_0, key)
    }
}

/// Bringing the names of models up to date stores settings as they were given.
pub proof fn lemma_stored_as_given(
    app_type: AppType,
    given: JsonView,
    path: Seq<Seq<char>>,
    value: JsonView,
)
    ensures
        is_stored_as_given(
            app_type,
            given,
            if app_type == AppType::Claude {
                models_normalized(given)
            } else {
                given
            },
            path,
            value,
        ),
{
    assert(seq!["env"@].drop_first() =~= Seq::empty());
    reveal_with_fuel(at, 2);
    if !(value is Object) && at(given, path) == Some(value) && !is_old_model_name(path) {
        law_normalizing_keeps_values(given, path, value);
    }
    if path.len() > 0 && path[0] != "env"@ {
        law_normalizing_adds_nothing_elsewhere(given, path);
    }
    if at(given, seq!["env"@]) is Some && at(given, seq!["env"@])->0 is Object {
        let env = at(given, seq!["env"@])->0->Object_0;
        assert forall|key: Seq<char>| #[trigger]
            has_models_of_today(
                env,
                at(models_normalized(given), seq!["env"@])->0->Object_0,
                key,
            ) by {
            law_models_by_name(env, key);
        }
    }
}

/// A provider that has been changed is stored field by field as it was given; what is kept
/// about it is what was given, or what was kept before where nothing was. It is handed on
/// just so where it is live. Nothing else changes.
pub proof fn law_update_stores_what_was_given(
    config: ConfigView,
    app_type: AppType,
    provider: ProviderView,
    gemini: Result<(), ErrorView>,
    usage: Result<(), ErrorView>,
    captured: Result<SnapshotView, ErrorView>,
    after: ConfigView,
    action: Option<ActionView>,
    path: Seq<Seq<char>>,
    value: JsonView,
)
    requires
        change_comes_out(
            updated(config, app_type, provider, gemini, usage, captured),
            config,
            after,
            Ok(action),
        ),
    ensures
        config.managers.contains_key(app_type),
        config.managers[app_type].providers.contains_key(provider.id),
        after.managers.contains_key(app_type),
        agree_elsewhere(config, after, app_type),
        ({
            let before = config.managers[app_type];
            let now = after.managers[app_type];
            let stored = now.providers[provider.id];
            &&& now.ids == before.ids
            &&& now.current == before.current
            &&& now.providers.dom() == before.providers.dom()
            &&& forall|other: Seq<char>|
                other != provider.id && before.providers.contains_key(other)
                    ==> #[trigger] now.providers[other] == before.providers[other]
            &&& stored.id == provider.id
            &&& stored.name == provider.name
            &&& stored.website_url == provider.website_url
            &&& stored.category == provider.category
            &&& stored.created_at == provider.created_at
            &&& stored.sort_index == provider.sort_index
            &&& is_stored_as_given(
                app_type,
                provider.settings_config,
                stored.settings_config,
                path,
                value,
            )
            &&& stored.meta == (if provider.meta is Some {
                provider.meta
            } else {
                before.providers[provider.id].meta
            })
            &&& action is Some <==> app_type == AppType::OpenCode || app_type == AppType::OpenClaw
                || before.current == provider.id
            &&& action matches Some(action) ==> {
                &&& action.app_type == app_type
                &&& action.provider == stored
                &&& captured == Ok::<SnapshotView, ErrorView>(action.backup)
                &&& !action.sync_mcp
                &&& action.refresh_snapshot == (app_type != AppType::OpenCode && app_type
                    != AppType::OpenClaw)
                &&& action.common_config_snippet == (if config.snippets.contains_key(app_type) {
                    Some(config.snippets[app_type])
                } else {
                    None
                })
                &&& !action.takeover_active
            }
        }),
{
    lemma_stored_as_given(app_type, provider.settings_config, path, value);
    assert(after.managers[app_type].providers.dom()
        =~= config.managers[app_type].providers.dom());
}

/// A provider that has been added is stored field by field as it was given, at the end of
/// the list or in the place of the one of its identifier; where nothing was said about it,
/// it takes the common snippet, if its application has providers that are live one at a
/// time. The first of these becomes the current one. It is handed on just so where it is
/// live. Nothing else changes.
pub proof fn law_add_stores_what_was_given(
    config: ConfigView,
    app_type: AppType,
    provider: ProviderView,
    gemini: Result<(), ErrorView>,
    usage: Result<(), ErrorView>,
    captured: Result<SnapshotView, ErrorView>,
    after: ConfigView,
    action: Option<ActionView>,
    path: Seq<Seq<char>>,
    value: JsonView,
)
    requires
        change_comes_out(
            added(config, app_type, provider, gemini, usage, captured),
            config,
            after,
            Ok(action),
        ),
    ensures
        after.managers.contains_key(app_type),
        after.managers[app_type].providers.contains_key(provider.id),
        agree_elsewhere(config, after, app_type),
        ({
            let there = config.managers.contains_key(app_type);
            let before = config.managers[app_type];
            let now = after.managers[app_type];
            let stored = now.providers[provider.id];
            let together = app_type == AppType::OpenCode || app_type == AppType::OpenClaw;
            let first = !together && (!there || (before.ids.len() == 0 && before.current.len()
                == 0));
            &&& there ==> {
                &&& now.ids == (if before.ids.contains(provider.id) {
                    before.ids
                } else {
                    before.ids.push(provider.id)
                })
                &&& now.providers.dom() == before.providers.dom().insert(provider.id)
                &&& forall|other: Seq<char>|
                    other != provider.id && before.providers.contains_key(other)
                        ==> #[trigger] now.providers[other] == before.providers[other]
            }
            &&& !there ==> now.ids == seq![provider.id] && now.providers.dom() == set![provider.id]
            &&& now.current == (if first {
                provider.id
            } else if there {
                before.current
            } else {
                Seq::empty()
            })
            &&& stored.id == provider.id
            &&& stored.name == provider.name
            &&& stored.website_url == provider.website_url
            &&& stored.category == provider.category
            &&& stored.created_at == provider.created_at
            &&& stored.sort_index == provider.sort_index
            &&& is_stored_as_given(
                app_type,
                provider.settings_config,
                stored.settings_config,
                path,
                value,
            )
            &&& (provider.meta is Some || together) ==> stored.meta == provider.meta
            &&& provider.meta is None && !together ==> (stored.meta matches Some(meta)
                && meta.apply_common_config == Some(true) && meta.codex_official is None
                && meta.usage_script is None)
            &&& action is Some <==> together || now.current == provider.id
            &&& action matches Some(action) ==> {
                &&& action.app_type == app_type
                &&& action.provider == stored
                &&& captured == Ok::<SnapshotView, ErrorView>(action.backup)
                &&& !action.sync_mcp
                &&& !action.refresh_snapshot
                &&& action.common_config_snippet == (if config.snippets.contains_key(app_type) {
                    Some(config.snippets[app_type])
                } else {
                    None
                })
                &&& !action.takeover_active
            }
        }),
{
    lemma_stored_as_given(app_type, provider.settings_config, path, value);
    let now = after.managers[app_type];
    if config.managers.contains_key(app_type) {
        assert(now.providers.dom() =~= config.managers[app_type].providers.dom().insert(
            provider.id,
        ));
    } else {
        assert(now.ids =~= seq![provider.id]);
        assert(now.providers.dom() =~= set![provider.id]);
        if app_type == AppType::OpenCode || app_type == AppType::OpenClaw {
            assert(now.current =~= Seq::empty());
        }
    }
}

/// The settings of a provider are accepted exactly where they are what its application
/// needs: an object; for Codex, with a configuration that is a document or nothing, and,
/// unless the provider says that it is the official one, with a key; for Gemini, what Gemini
/// accepts. A usage script, where there is one, must be right too.
pub proof fn law_which_settings_are_accepted(
    app_type: AppType,
    provider: ProviderView,
    gemini: Result<(), ErrorView>,
    usage: Result<(), ErrorView>,
)
    ensures
        settings_error(app_type, provider, gemini, usage) is None <==> {
            let settings = provider.settings_config;
            let members = settings->Object_0;
            let config = members["config"@];
            let auth = members["auth"@];
            let key = auth->Object_0["OPENAI_API_KEY"@];
            &&& app_type != AppType::Gemini ==> settings is Object
            &&& app_type == AppType::Gemini ==> gemini is Ok
            &&& app_type == AppType::Codex ==> {
                &&& members.contains_key("config"@)
                &&& config is Null || (config is Str && (is_blank(config->Str_0) || plain_table(
                    config->Str_0,
                ) is Some))
                &&& members.contains_key("auth"@) ==> auth is Object
                &&& !says_official(provider) ==> {
                    &&& members.contains_key("auth"@)
                    &&& auth->Object_0.contains_key("OPENAI_API_KEY"@)
                    &&& key is Str
                    &&& !is_blank(key->Str_0)
                }
            }
            &&& provider.meta is Some && provider.meta->0.usage_script is Some ==> usage is Ok
        },
{
    assert(is_official(provider) == says_official(provider));
}

/// Whether an error is the one of that key.
pub open spec fn is_error(error: Option<ErrorView>, key: Seq<char>) -> bool {
    error is Some && error->0 is Localized && error->0->key == key
}

/// Why settings are not accepted: the first of what is wrong is told. For Codex this is that
/// they are no object; that they have no configuration, or one of the wrong kind, or one that
/// is no document; and then that the authentication is missing, is no object, or has no key.
pub proof fn law_why_settings_are_refused(
    app_type: AppType,
    provider: ProviderView,
    gemini: Result<(), ErrorView>,
    usage: Result<(), ErrorView>,
)
    ensures
        ({
            let error = settings_error(app_type, provider, gemini, usage);
            let settings = provider.settings_config;
            let members = settings->Object_0;
            let config = members["config"@];
            let auth = members["auth"@];
            let codex = app_type == AppType::Codex && settings is Object;
            let readable = codex && members.contains_key("config"@) && (config is Null || (config
                is Str && (is_blank(config->Str_0) || plain_table(config->Str_0) is Some)));
            &&& app_type == AppType::Claude && !(settings is Object) ==> is_error(
                error,
                "provider.anthropic.settings.not_object"@,
            )
            &&& app_type == AppType::OpenCode && !(settings is Object) ==> is_error(
                error,
                "provider.opencode.settings.not_object"@,
            )
            &&& app_type == AppType::OpenClaw && !(settings is Object) ==> is_error(
                error,
                "provider.openclaw.settings.not_object"@,
            )
            &&& app_type == AppType::Gemini && gemini is Err ==> error == Some(gemini->Err_0)
            &&& app_type == AppType::Codex && !(settings is Object) ==> is_error(
                error,
                "provider.codex.settings.not_object"@,
            )
            &&& codex && !members.contains_key("config"@) ==> is_error(
                error,
                "provider.codex.config.missing"@,
            )
            &&& codex && members.contains_key("config"@) && !(config is Null) && !(config is Str)
                ==> is_error(error, "provider.codex.config.invalid_type"@)
            &&& codex && members.contains_key("config"@) && config is Str && !readable ==> error
                == Some(
                ErrorView::Toml {
                    path: "config.toml"@,
                    message: plain_parse_error(config->Str_0),
                },
            )
            &&& readable && !members.contains_key("auth"@) && !says_official(provider) ==> is_error(
                error,
                "provider.codex.auth.missing"@,
            )
            &&& readable && members.contains_key("auth"@) && !(auth is Object) ==> is_error(
                error,
                "provider.codex.auth.not_object"@,
            )
            &&& readable && members.contains_key("auth"@) && auth is Object && !says_official(
                provider,
            ) && !(auth->Object_0.contains_key("OPENAI_API_KEY"@)
                && auth->Object_0["OPENAI_API_KEY"@] is Str && !is_blank(
                auth->Object_0["OPENAI_API_KEY"@]->Str_0,
            )) ==> is_error(error, "provider.codex.api_key.missing"@)
        }),
{
    assert(is_official(provider) == says_official(provider));
}

/// Adding a provider fails exactly where its settings are not accepted, or it goes live and
/// the live files could not be kept.
pub proof fn law_when_a_provider_is_added(
    config: ConfigView,
    app_type: AppType,
    provider: ProviderView,
    gemini: Result<(), ErrorView>,
    usage: Result<(), ErrorView>,
    captured: Result<SnapshotView, ErrorView>,
)
    ensures
        ({
            let result = added(config, app_type, provider, gemini, usage, captured);
            let wrong = settings_error(app_type, provider, gemini, usage);
            let there = config.managers.contains_key(app_type);
            let before = config.managers[app_type];
            let goes_live = app_type == AppType::OpenCode || app_type == AppType::OpenClaw
                || !there || before.current == provider.id || (before.ids.len() == 0
                && before.current.len() == 0);
            &&& wrong is Some ==> result is Err && result->Err_0 == wrong->0
            &&& wrong is None ==> (result is Err <==> goes_live && captured is Err)
            &&& wrong is None && result is Err ==> result->Err_0 == captured->Err_0
        }),
{
}

/// Changing a provider fails exactly where its settings are not accepted, it is not there, or
/// it is live and the live files could not be kept.
pub proof fn law_when_a_provider_is_changed(
    config: ConfigView,
    app_type: AppType,
    provider: ProviderView,
    gemini: Result<(), ErrorView>,
    usage: Result<(), ErrorView>,
    captured: Result<SnapshotView, ErrorView>,
)
    ensures
        ({
            let result = updated(config, app_type, provider, gemini, usage, captured);
            let wrong = settings_error(app_type, provider, gemini, usage);
            let before = config.managers[app_type];
            let there = config.managers.contains_key(app_type) && before.providers.contains_key(
                provider.id,
            );
            let is_live = app_type == AppType::OpenCode || app_type == AppType::OpenClaw
                || before.current == provider.id;
            &&& wrong is Some ==> result is Err && result->Err_0 == wrong->0
            &&& wrong is None && !there ==> result is Err
            &&& wrong is None && there ==> (result is Err <==> is_live && captured is Err)
            &&& wrong is None && there && result is Err ==> result->Err_0 == captured->Err_0
        }),
{
}

/// A provider that has been deleted is gone from the list and from the providers; the
/// others stay, in their order, and so does everything else. It was there, was not the
/// current one of an application whose providers are live one at a time, and what had to go
/// besides is gone; where any of this does not hold, nothing changes.
pub proof fn law_delete_takes_one_out(
    config: ConfigView,
    app_type: AppType,
    id: Seq<char>,
    cleared: Result<(), ErrorView>,
    after: ConfigView,
    result: Result<(), ErrorView>,
)
    requires
        comes_out(deleted(config, app_type, id, cleared), config, after, result),
    ensures
        ({
            let there = config.managers.contains_key(app_type)
                && config.managers[app_type].providers.contains_key(id);
            let together = app_type == AppType::OpenCode || app_type == AppType::OpenClaw;
            let before = config.managers[app_type];
            let now = after.managers[app_type];
            &&& result is Ok <==> there && (together || before.current != id) && cleared is Ok
            &&& result is Err ==> after == config
            &&& result is Ok ==> {
                &&& after.managers.contains_key(app_type)
                &&& agree_elsewhere(config, after, app_type)
                &&& now.providers == before.providers.remove(id)
                &&& now.ids == before.ids.remove_value(id)
                &&& now.current == before.current
            }
        }),
{
}

/// A switch that succeeds hands on the provider as it is stored, with the live files as they
/// were and the common snippet; where its application has providers that are live one at a
/// time, it is the current one from then on. The servers are written and the provider is
/// refreshed unless a proxy stands in. There was such a provider, and the live files could
/// be kept.
pub proof fn law_switch_hands_on_what_is_stored(
    config: ConfigView,
    app_type: AppType,
    id: Seq<char>,
    stands_in: bool,
    captured: Result<SnapshotView, ErrorView>,
    live: LiveBefore,
    after: ConfigView,
    action: ActionView,
)
    requires
        switched(config, app_type, id, stands_in, captured, live, after, Ok(action)),
        live.fits(app_type, stands_in),
    ensures
        config.managers.contains_key(app_type),
        config.managers[app_type].providers.contains_key(id),
        action.app_type == app_type,
        action.provider == config.managers[app_type].providers[id],
        captured == Ok::<SnapshotView, ErrorView>(action.backup),
        action.common_config_snippet == (if after.snippets.contains_key(app_type) {
            Some(after.snippets[app_type])
        } else {
            None
        }),
        ({
            let together = app_type == AppType::OpenCode || app_type == AppType::OpenClaw;
            &&& action.takeover_active == (stands_in && !together)
            &&& action.sync_mcp == !(stands_in && !together)
            &&& action.refresh_snapshot == (!stands_in && !together)
            &&& together ==> after == config
            &&& !together ==> after.managers.contains_key(app_type)
                && after.managers[app_type].current == id
            &&& stands_in ==> after.snippets == config.snippets
        }),
        after.managers.dom() == config.managers.dom(),
        after.managers[app_type].ids == config.managers[app_type].ids,
        forall|other: Seq<char>|
            other != config.managers[app_type].current
                && config.managers[app_type].providers.contains_key(other)
                ==> #[trigger] after.managers[app_type].providers[other]
                == config.managers[app_type].providers[other],
        after.mcp_servers == config.mcp_servers,
{
    law_switch_changes_former_current_only(
        config,
        app_type,
        id,
        stands_in,
        captured,
        live,
        after,
        Ok(action),
    );
    if !app_type.additive() && !stands_in {
        assert(switched_read(config, app_type, id, captured, live, after, Ok(action)));
        lemma_successful_switch(config, app_type, id, captured, live, after, action);
        lemma_read_switch(config, app_type, id, captured, live, after, action);
    }
}

/// The parts of what is handed on by a switch with a look at the live files.
proof fn lemma_read_switch(
    config: ConfigView,
    app_type: AppType,
    id: Seq<char>,
    captured: Result<SnapshotView, ErrorView>,
    live: LiveBefore,
    after: ConfigView,
    action: ActionView,
)
    requires
        switched_read(config, app_type, id, captured, live, after, Ok(action)),
    ensures
        action.app_type == app_type,
        captured == Ok::<SnapshotView, ErrorView>(action.backup),
        action.sync_mcp,
        action.refresh_snapshot == !app_type.additive(),
{
}

/// A switch to a provider that is not there fails, and so does one whose live files cannot
/// be kept; either way nothing changes.
pub proof fn law_switch_to_nobody_fails(
    config: ConfigView,
    app_type: AppType,
    id: Seq<char>,
    stands_in: bool,
    captured: Result<SnapshotView, ErrorView>,
    live: LiveBefore,
    after: ConfigView,
    result: Result<ActionView, ErrorView>,
)
    requires
        switched(config, app_type, id, stands_in, captured, live, after, result),
        live.fits(app_type, stands_in),
        captured is Err || !config.managers.contains_key(app_type)
            || !config.managers[app_type].providers.contains_key(id),
    ensures
        result is Err,
        after == config,
{
    if let Ok(action) = result {
        law_switch_hands_on_what_is_stored(
            config,
            app_type,
            id,
            stands_in,
            captured,
            live,
            after,
            action,
        );
    }
}

/// Where the proxy stands in or all providers are live at once, a switch to a provider that
/// is there succeeds.
pub proof fn law_switch_without_a_look_succeeds(
    config: ConfigView,
    app_type: AppType,
    id: Seq<char>,
    stands_in: bool,
    captured: Result<SnapshotView, ErrorView>,
    live: LiveBefore,
    after: ConfigView,
    result: Result<ActionView, ErrorView>,
)
    requires
        switched(config, app_type, id, stands_in, captured, live, after, result),
        stands_in || app_type == AppType::OpenCode || app_type == AppType::OpenClaw,
        captured is Ok,
        config.managers.contains_key(app_type),
        config.managers[app_type].providers.contains_key(id),
    ensures
        result is Ok,
{
}

/// A switch of Anthropic or Gemini to a provider that is there succeeds where the live files
/// can be kept and read, and the one that was current declines the common snippet, or there is
/// none.
pub proof fn law_switch_succeeds(
    config: ConfigView,
    app_type: AppType,
    id: Seq<char>,
    captured: Result<SnapshotView, ErrorView>,
    live: LiveBefore,
    after: ConfigView,
    result: Result<ActionView, ErrorView>,
)
    requires
        switched(config, app_type, id, false, captured, live, after, result),
        captured is Ok,
        config.managers.contains_key(app_type),
        config.managers[app_type].providers.contains_key(id),
        match live {
            LiveBefore::Claude { settings } => app_type == AppType::Claude && !(settings@
                is Failed),
            LiveBefore::Gemini { env, settings } => app_type == AppType::Gemini && !(env@
                is Failed) && !(settings@ is Failed),
            _ => false,
        },
        ({
            let manager = config.managers[app_type];
            !config.snippets.contains_key(app_type) || !manager.providers.contains_key(
                manager.current,
            ) || was_told_no(manager.providers[manager.current])
        }),
    ensures
        result is Ok,
{
    assert(switched_read(config, app_type, id, captured, live, after, result));
}

/// A proxy stands in exactly where it runs and says so, and never for an application whose
/// providers are all live at once; what cannot be found out is told.
pub proof fn law_when_a_proxy_stands_in(
    app_type: AppType,
    running: Result<bool, Seq<char>>,
    active: Result<bool, Seq<char>>,
)
    ensures
        ({
            let together = app_type == AppType::OpenCode || app_type == AppType::OpenClaw;
            let result = takeover(app_type, running, active);
            &&& result == Ok::<bool, ErrorView>(true) <==> !together && running == Ok::<
                bool,
                Seq<char>,
            >(true) && active == Ok::<bool, Seq<char>>(true)
            &&& result is Err ==> !together && result->Err_0 == ErrorView::Message(
                if running is Err {
                    running->Err_0
                } else {
                    active->Err_0
                },
            )
            &&& !together && running is Err ==> result is Err
            &&& !together && running == Ok::<bool, Seq<char>>(true) && active is Err
                ==> result is Err
        }),
{
}

/// The provider that takes the place of a current one that is gone comes first: none has a
/// smaller place in the list; where none has a place, none with a time of creation comes
/// before it; and among equals it was added first.
pub proof fn law_first_in_the_list(
    ids: Seq<Seq<char>>,
    providers: Map<Seq<char>, ProviderView>,
    id: Seq<char>,
    other: int,
)
    requires
        is_first_id(ids, providers, id),
        0 <= other < ids.len(),
    ensures
        ids.contains(id),
        ({
            let first = providers[id];
            let next = providers[ids[other]];
            &&& next.sort_index is Some ==> first.sort_index is Some && first.sort_index->0
                <= next.sort_index->0
            &&& first.sort_index is None && first.created_at is Some ==> next.created_at is Some
                && first.created_at->0 <= next.created_at->0
            &&& ids[other] != id && first.sort_index == next.sort_index && first.created_at
                == next.created_at ==> exists|place: int|
                0 <= place < other && #[trigger] ids[place] == id
        }),
{
    let place = choose|place: int| #[trigger]
        is_listed_first(ids, providers, place) && id == ids[place];
    assert(is_listed_first(ids, providers, place));
    assert(ids[place] == id);
    if other < place {
        assert(listed_before(providers[ids[place]], providers[ids[other]]));
    } else if other > place {
        assert(!listed_before(providers[ids[other]], providers[ids[place]]));
    }
}

/// Live files that are imported become the first provider of their application, and its
/// current one, with what they hold as its settings. Nothing is imported where the
/// application has providers already, or keeps all of them live at once.
pub proof fn law_import_stores_what_was_read(
    config: ConfigView,
    live: LiveSettings,
    after: ConfigView,
    result: Result<bool, ErrorView>,
    path: Seq<Seq<char>>,
    value: JsonView,
)
    requires
        import_comes_out(default_imported(config, live), config, after, result),
    ensures
        ({
            let app = match live {
                LiveSettings::Claude { .. } => AppType::Claude,
                LiveSettings::Codex { .. } => AppType::Codex,
                LiveSettings::Gemini { .. } => AppType::Gemini,
                LiveSettings::OpenCode { .. } => AppType::OpenCode,
                LiveSettings::OpenClaw { .. } => AppType::OpenClaw,
            };
            let busy = app == AppType::OpenCode || app == AppType::OpenClaw || (
            config.managers.contains_key(app) && config.managers[app].ids.len() > 0);
            let now = after.managers[app];
            let stored = now.providers["default"@];
            &&& busy <==> result == Ok::<bool, ErrorView>(false)
            &&& result != Ok::<bool, ErrorView>(true) ==> after == config
            &&& result == Ok::<bool, ErrorView>(true) ==> {
                &&& after.managers.contains_key(app)
                &&& agree_elsewhere(config, after, app)
                &&& now.current == "default"@
                &&& now.providers.contains_key("default"@)
                &&& now.ids == seq!["default"@]
                &&& stored.id == "default"@
                &&& stored.name == "default"@
                &&& stored.category == Some("custom"@)
                &&& stored.meta is None
                &&& match live {
                    LiveSettings::Claude { settings } => settings@ matches JsonReadView::Found(
                        json,
                    ) && is_stored_as_given(
                        AppType::Claude,
                        json,
                        stored.settings_config,
                        path,
                        value,
                    ),
                    LiveSettings::Codex { auth, text } => auth@ matches JsonReadView::Found(json)
                        && at(stored.settings_config, seq!["auth"@]) == Some(json) && at(
                        stored.settings_config,
                        seq!["config"@],
                    ) == Some(
                        JsonView::Str(
                            match text@ {
                                TextReadView::Found(text) => text,
                                _ => Seq::empty(),
                            },
                        ),
                    ),
                    LiveSettings::Gemini { env, settings } => env@ matches JsonReadView::Found(json)
                        && at(stored.settings_config, seq!["env"@]) == Some(
                        match at(json, seq!["env"@]) {
                            Some(vars) => vars,
                            None => JsonView::Object(Map::empty()),
                        },
                    ) && at(stored.settings_config, seq!["config"@]) == Some(
                        match settings@ {
                            JsonReadView::Found(file) => file,
                            _ => JsonView::Object(Map::empty()),
                        },
                    ),
                    _ => false,
                }
            }
        }),
{
    crate::codex::lemma_codex_names();
    assert(seq!["auth"@].drop_first() =~= Seq::empty());
    assert(seq!["config"@].drop_first() =~= Seq::empty());
    assert(seq!["env"@].drop_first() =~= Seq::empty());
    reveal_with_fuel(at, 2);
    reveal_strlit("env");
    reveal_strlit("config");
    assert("env"@.len() == 3);
    assert("config"@.len() == 6);
    if let LiveSettings::Claude { settings } = live {
        if let JsonReadView::Found(json) = settings@ {
            lemma_stored_as_given(AppType::Claude, json, path, value);
        }
    }
    if result == Ok::<bool, ErrorView>(true) {
        let app = live.app();
        assert(config.managers[app].ids =~= Seq::empty());
        assert(after.managers[app].ids =~= seq!["default"@]);
    }
}

/// Whether the live files of an application can be read.
pub open spec fn can_be_read(live: LiveSettings) -> bool {
    match live {
        LiveSettings::Claude { settings } => settings@ is Found,
        LiveSettings::Codex { auth, text } => auth@ is Found && !(text@ is Failed) && (text@
            is Found ==> is_blank(text@->Found_0) || plain_table(text@->Found_0) is Some),
        LiveSettings::Gemini { env, settings } => env@ is Found && !(settings@ is Failed),
        LiveSettings::OpenCode { config } => config@ is Found,
        LiveSettings::OpenClaw { config } => config@ is Found,
    }
}

/// Live files are imported exactly where the application has a place for providers that are
/// live one at a time, has none yet, and the files can be read.
pub proof fn law_when_live_files_are_imported(
    config: ConfigView,
    live: LiveSettings,
    after: ConfigView,
    result: Result<bool, ErrorView>,
)
    requires
        import_comes_out(default_imported(config, live), config, after, result),
    ensures
        ({
            let app = match live {
                LiveSettings::Claude { .. } => AppType::Claude,
                LiveSettings::Codex { .. } => AppType::Codex,
                LiveSettings::Gemini { .. } => AppType::Gemini,
                LiveSettings::OpenCode { .. } => AppType::OpenCode,
                LiveSettings::OpenClaw { .. } => AppType::OpenClaw,
            };
            result == Ok::<bool, ErrorView>(true) <==> {
                &&& app != AppType::OpenCode && app != AppType::OpenClaw
                &&& config.managers.contains_key(app)
                &&& config.managers[app].ids.len() == 0
                &&& can_be_read(live)
            }
        }),
{
}

/// The settings that live files hold are the document of the one file; for Codex the
/// authentication and the text, an empty one where there is none; and for Gemini the
/// variables and the settings file, an empty object where there is none. Files that cannot be
/// read, or must be there and are not, hold no settings.
pub proof fn law_what_live_files_hold(live: LiveSettings)
    ensures
        settings_read(live) is Ok <==> can_be_read(live),
        can_be_read(live) ==> {
            let settings = settings_read(live)->Ok_0;
            match live {
                LiveSettings::Claude { settings: file } => settings == file@->Found_0,
                LiveSettings::OpenCode { config } => settings == config@->Found_0,
                LiveSettings::OpenClaw { config } => settings == config@->Found_0,
                LiveSettings::Codex { auth, text } => {
                    &&& at(settings, seq!["auth"@]) == Some(auth@->Found_0)
                    &&& at(settings, seq!["config"@]) == Some(
                        JsonView::Str(
                            if text@ is Found {
                                text@->Found_0
                            } else {
                                Seq::empty()
                            },
                        ),
                    )
                },
                LiveSettings::Gemini { env, settings: file } => {
                    &&& at(settings, seq!["env"@]) == Some(
                        match at(env@->Found_0, seq!["env"@]) {
                            Some(vars) => vars,
                            None => JsonView::Object(Map::empty()),
                        },
                    )
                    &&& at(settings, seq!["config"@]) == Some(
                        if file@ is Found {
                            file@->Found_0
                        } else {
                            JsonView::Object(Map::empty())
                        },
                    )
                },
            }
        },
{
    crate::codex::lemma_codex_names();
    assert(seq!["auth"@].drop_first() =~= Seq::empty());
    assert(seq!["config"@].drop_first() =~= Seq::empty());
    assert(seq!["env"@].drop_first() =~= Seq::empty());
    reveal_with_fuel(at, 2);
    reveal_strlit("env");
    reveal_strlit("config");
    assert("env"@.len() == 3);
    assert("config"@.len() == 6);
}

/// Giving providers their places changes nothing but these places, and the last place that
/// is given to a provider counts. Whoever is not there is passed over.
pub proof fn law_sorting_gives_places(
    config: ConfigView,
    app_type: AppType,
    updates: Seq<ProviderSortUpdate>,
    id: Seq<char>,
    place: int,
)
    ensures
        sorted(config, app_type, updates) is Ok <==> config.managers.contains_key(app_type),
        config.managers.contains_key(app_type) ==> {
            let after = sorted(config, app_type, updates)->Ok_0;
            let before = config.managers[app_type];
            let now = after.managers[app_type];
            &&& agree_elsewhere(config, after, app_type)
            &&& after.managers.contains_key(app_type)
            &&& now.ids == before.ids
            &&& now.current == before.current
            &&& now.providers.contains_key(id) == before.providers.contains_key(id)
            &&& before.providers.contains_key(id) ==> {
                let was = before.providers[id];
                let moved = now.providers[id];
                &&& moved.id == was.id
                &&& moved.name == was.name
                &&& moved.settings_config == was.settings_config
                &&& moved.website_url == was.website_url
                &&& moved.category == was.category
                &&& moved.created_at == was.created_at
                &&& moved.meta == was.meta
                &&& (forall|i: int| 0 <= i < updates.len() ==> (#[trigger] updates[i]).id@ != id)
                    ==> moved.sort_index == was.sort_index
                &&& 0 <= place < updates.len() && updates[place].id@ == id && (forall|i: int|
                    place < i < updates.len() ==> (#[trigger] updates[i]).id@ != id)
                    ==> moved.sort_index == Some(updates[place].sort_index)
            }
        },
{
    if config.managers.contains_key(app_type) {
        law_sorting_changes_places_only(config.managers[app_type].providers, updates, id);
    }
}

/// What has to go besides a provider that is deleted: the files that were once kept under its
/// name for Anthropic and Codex, nothing for Gemini, and the entry of the live file for the
/// two others.
pub proof fn law_what_goes_besides(
    app_type: AppType,
    provider: ProviderView,
    leftovers: Leftovers,
)
    requires
        are_leftovers(app_type, provider, leftovers),
    ensures
        app_type == AppType::Claude ==> leftovers is ClaudeFiles && leftovers->ClaudeFiles_0@
            == provider.name,
        app_type == AppType::Codex ==> leftovers is CodexFiles && leftovers->CodexFiles_0@
            == provider.name,
        app_type == AppType::Gemini ==> leftovers is Nothing,
        app_type == AppType::OpenCode ==> leftovers is OpenCodeEntry,
        app_type == AppType::OpenClaw ==> leftovers is OpenClawEntry,
{
}

/// A provider can be deleted exactly where it is there, and not the current one of an
/// application whose providers are live one at a time.
pub proof fn law_what_can_be_deleted(config: ConfigView, app_type: AppType, id: Seq<char>)
    ensures
        delete_error(config, app_type, id) is None <==> {
            &&& config.managers.contains_key(app_type)
            &&& config.managers[app_type].providers.contains_key(id)
            &&& app_type == AppType::OpenCode || app_type == AppType::OpenClaw
                || config.managers[app_type].current != id
        },
{
}

/// Whether an entry of the live file can become a provider: it has an identifier and models.
pub open spec fn can_be_imported(entry: OpenClawEntry) -> bool {
    !is_blank(entry.id@) && entry.model_names@.len() > 0
}

/// Importing the providers of the live file of OpenClaw, one by one.
proof fn lemma_imported_entries(
    manager: ManagerView,
    entries: Seq<OpenClawEntry>,
    id: Seq<char>,
    place: int,
)
    ensures
        ({
            let after = with_entries(manager, entries);
            &&& after.0.current == manager.current
            &&& manager.providers.contains_key(id) ==> after.0.providers.contains_key(id)
                && after.0.providers[id] == manager.providers[id]
            &&& (forall|i: int|
                0 <= i < entries.len() && (#[trigger] entries[i]).id@ == id ==> !can_be_imported(
                    entries[i],
                )) && !manager.providers.contains_key(id) ==> !after.0.providers.contains_key(id)
            &&& 0 <= place < entries.len() && entries[place].id@ == id && can_be_imported(
                entries[place],
            ) && !manager.providers.contains_key(id) && (forall|i: int|
                0 <= i < place && (#[trigger] entries[i]).id@ == id ==> !can_be_imported(
                    entries[i],
                )) ==> after.0.providers.contains_key(id) && {
                let stored = after.0.providers[id];
                &&& stored.id == id
                &&& stored.name == (match entries[place].model_names@[0] {
                    Some(name) => name@,
                    None => id,
                })
                &&& stored.settings_config == entries[place].settings@
                &&& stored.website_url is None
                &&& stored.category is None
                &&& stored.created_at is None
                &&& stored.sort_index is None
                &&& stored.meta is None
            }
        }),
    decreases entries.len(),
{
    if entries.len() > 0 {
        let before = entries.drop_last();
        let last = entries.last();
        lemma_imported_entries(manager, before, id, place);
        assert(entries[entries.len() - 1] == last);
        assert forall|i: int| 0 <= i < before.len() implies #[trigger] before[i] == entries[i] by {}
        if forall|i: int|
            0 <= i < entries.len() && (#[trigger] entries[i]).id@ == id ==> !can_be_imported(
                entries[i],
            ) {
            assert forall|i: int| 0 <= i < before.len() && (#[trigger] before[i]).id@
                == id implies !can_be_imported(before[i]) by {
                assert(entries[i] == before[i]);
            }
        }
        if place < before.len() {
            if forall|i: int|
                0 <= i < place && (#[trigger] entries[i]).id@ == id ==> !can_be_imported(
                    entries[i],
                ) {
                assert forall|i: int| 0 <= i < place && (#[trigger] before[i]).id@
                    == id implies !can_be_imported(before[i]) by {
                    assert(entries[i] == before[i]);
                }
            }
        } else if place == before.len() {
            if forall|i: int|
                0 <= i < place && (#[trigger] entries[i]).id@ == id ==> !can_be_imported(
                    entries[i],
                ) {
                assert forall|i: int| 0 <= i < before.len() && (#[trigger] before[i]).id@
                    == id implies !can_be_imported(before[i]) by {
                    assert(entries[i] == before[i]);
                }
            }
        }
    }
}

/// The number of those that are imported is the number of those that are new.
proof fn lemma_imported_count(manager: ManagerView, entries: Seq<OpenClawEntry>)
    requires
        manager.ids.no_duplicates() && manager.ids.to_set() == manager.providers.dom(),
    ensures
        ({
            let after = with_entries(manager, entries);
            &&& after.0.ids.len() == manager.ids.len() + after.1
            &&& after.0.ids.no_duplicates()
            &&& after.0.ids.to_set() == after.0.providers.dom()
            &&& manager.ids.is_prefix_of(after.0.ids)
        }),
    decreases entries.len(),
{
    if entries.len() > 0 {
        lemma_imported_count(manager, entries.drop_last());
        let before = with_entries(manager, entries.drop_last()).0;
        let after = with_entries(manager, entries).0;
        let id = entries.last().id@;
        if is_imported(before, entries.last()) {
            assert(!before.ids.contains(id)) by {
                if before.ids.contains(id) {
                    assert(before.ids.to_set().contains(id));
                }
            }
            assert(after.ids == before.ids.push(id));
            assert(after.ids.to_set() =~= before.ids.to_set().insert(id)) by {
                assert forall|other: Seq<char>| #[trigger]
                    after.ids.to_set().contains(other) == before.ids.to_set().insert(id).contains(
                        other,
                    ) by {
                    if before.ids.contains(other) {
                        let i = choose|i: int| 0 <= i < before.ids.len() && before.ids[i] == other;
                        assert(after.ids[i] == other);
                    }
                    if other == id {
                        assert(after.ids[before.ids.len() as int] == id);
                    }
                    if after.ids.contains(other) && other != id {
                        let i = choose|i: int| 0 <= i < after.ids.len() && after.ids[i] == other;
                        assert(before.ids[i] == other);
                    }
                }
            }
            assert(after.providers.dom() =~= before.providers.dom().insert(id));
            assert(manager.ids =~= after.ids.take(manager.ids.len() as int));
        }
    } else {
        assert(manager.ids =~= manager.ids.take(manager.ids.len() as int));
    }
}

/// Of the providers in the live file of OpenClaw, each that has an identifier and models, and
/// is not there yet, is imported with its settings, under the name of its first model; the
/// first of two with the same identifier counts. Those that are there stay as they are, the
/// others are passed over, and nothing else changes.
pub proof fn law_openclaw_entries_are_imported(
    config: ConfigView,
    entries: Seq<OpenClawEntry>,
    id: Seq<char>,
    place: int,
)
    ensures
        ({
            let app = AppType::OpenClaw;
            let after = openclaw_imported(config, entries);
            let had = config.managers.contains_key(app)
                && config.managers[app].providers.contains_key(id);
            let now = after.managers[app];
            let found = after.managers.contains_key(app) && now.providers.contains_key(id);
            &&& agree_elsewhere(config, after, app)
            &&& config.managers.contains_key(app) ==> now.current == config.managers[app].current
            &&& had ==> found && now.providers[id] == config.managers[app].providers[id]
            &&& !had && (forall|i: int|
                0 <= i < entries.len() && (#[trigger] entries[i]).id@ == id ==> !can_be_imported(
                    entries[i],
                )) ==> !found
            &&& !had && 0 <= place < entries.len() && entries[place].id@ == id && can_be_imported(
                entries[place],
            ) && (forall|i: int|
                0 <= i < place && (#[trigger] entries[i]).id@ == id ==> !can_be_imported(
                    entries[i],
                )) ==> found && {
                let stored = now.providers[id];
                &&& stored.id == id
                &&& stored.name == (match entries[place].model_names@[0] {
                    Some(name) => name@,
                    None => id,
                })
                &&& stored.settings_config == entries[place].settings@
                &&& stored.website_url is None
                &&& stored.category is None
                &&& stored.created_at is None
                &&& stored.sort_index is None
                &&& stored.meta is None
            }
        }),
{
    let start = manager_or_empty(config, AppType::OpenClaw);
    lemma_imported_entries(start, entries, id, place);
}

/// As many providers are imported as there are more than before; those that were there keep
/// their order and come first.
pub proof fn law_imported_providers_are_counted(config: ConfigView, entries: Seq<OpenClawEntry>)
    requires
        config.managers.contains_key(AppType::OpenClaw),
        config.managers[AppType::OpenClaw].ids.no_duplicates(),
        config.managers[AppType::OpenClaw].ids.to_set()
            == config.managers[AppType::OpenClaw].providers.dom(),
    ensures
        ({
            let before = config.managers[AppType::OpenClaw];
            let now = openclaw_imported(config, entries).managers[AppType::OpenClaw];
            &&& now.ids.len() == before.ids.len() + with_entries(before, entries).1
            &&& before.ids.is_prefix_of(now.ids)
            &&& now.ids.to_set() == now.providers.dom()
        }),
{
    let before = config.managers[AppType::OpenClaw];
    lemma_imported_count(before, entries);
    if entries.len() == 0 {
        assert(before.ids =~= before.ids.take(before.ids.len() as int));
    }
}

/// What is written to the live files of an application: all its providers in their order
/// where they are live at once, and otherwise the current one, where it is known; each with
/// the common snippet, which is asked for.
pub proof fn law_what_an_application_writes(config: ConfigView, app_type: AppType, place: int)
    ensures
        ({
            let written = app_currents(config, app_type);
            let manager = config.managers[app_type];
            let together = app_type == AppType::OpenCode || app_type == AppType::OpenClaw;
            let there = config.managers.contains_key(app_type);
            let known = there && manager.current.len() > 0 && manager.providers.contains_key(
                manager.current,
            );
            &&& written.len() == (if there && together {
                manager.ids.len()
            } else if known && !together {
                1
            } else {
                0
            })
            &&& 0 <= place < written.len() ==> {
                &&& written[place].app_type == app_type
                &&& written[place].provider == manager.providers[if together {
                    manager.ids[place]
                } else {
                    manager.current
                }]
                &&& written[place].snippet == (if config.snippets.contains_key(app_type) {
                    Some(config.snippets[app_type])
                } else {
                    None
                })
                &&& written[place].apply_common_config
            }
        }),
{
}

/// What is written to the live files of all applications: those of Anthropic, Codex, Gemini,
/// OpenCode and OpenClaw, one after the other.
pub proof fn law_applications_are_written_in_order(config: ConfigView)
    ensures
        all_currents(config, AppType::all_apps()) == app_currents(config, AppType::Claude)
            + app_currents(config, AppType::Codex) + app_currents(config, AppType::Gemini)
            + app_currents(config, AppType::OpenCode) + app_currents(config, AppType::OpenClaw),
{
    let apps = AppType::all_apps();
    let four = apps.drop_last();
    let three = four.drop_last();
    let two = three.drop_last();
    let one = two.drop_last();
    assert(one.drop_last() =~= Seq::empty());
    reveal_with_fuel(all_currents, 6);
    assert(all_currents(config, one) =~= app_currents(config, AppType::Claude));
    assert(all_currents(config, two) == all_currents(config, one) + app_currents(
        config,
        AppType::Codex,
    ));
    assert(all_currents(config, three) == all_currents(config, two) + app_currents(
        config,
        AppType::Gemini,
    ));
    assert(all_currents(config, four) == all_currents(config, three) + app_currents(
        config,
        AppType::OpenCode,
    ));
}

/// Whether an error tells of something by its name.
pub open spec fn tells_of(error: ErrorView, key: Seq<char>, name: Seq<char>) -> bool {
    &&& error is Localized
    &&& error->key == key
    &&& name.is_suffix_of(error->zh)
    &&& name.is_suffix_of(error->en)
}

/// What is not there is told by its name, and what is missing by its own key.
pub proof fn law_what_is_missing_is_told(id: Seq<char>, app_type: AppType)
    ensures
        tells_of(no_such_provider(id), "provider.not_found"@, id),
        tells_of(
            no_such_app(app_type),
            "provider.app_not_found"@,
            match app_type {
                AppType::Claude => "Anthropic"@,
                AppType::Codex => "Codex"@,
                AppType::Gemini => "Gemini"@,
                AppType::OpenCode => "OpenCode"@,
                AppType::OpenClaw => "OpenClaw"@,
            },
        ),
        app_type == AppType::OpenCode ==> tells_of(
            missing_provider(app_type, id),
            "opencode.live.missing_provider"@,
            id,
        ),
        app_type == AppType::OpenClaw ==> tells_of(
            missing_provider(app_type, id),
            "openclaw.live.missing_provider"@,
            id,
        ),
        tells_of(
            provider_missing(id),
            "provider.set_default_model.openclaw_provider_missing"@,
            id,
        ),
        is_error(Some(missing_live(AppType::Gemini)), "gemini.live.missing"@),
        is_error(Some(missing_live(AppType::Claude)), "anthropic.live.missing"@),
        is_error(Some(claude_missing()), "anthropic.live.missing"@),
        is_error(Some(codex_auth_missing()), "codex.auth.missing"@),
        is_error(Some(gemini_env_missing()), "gemini.env.missing"@),
        is_error(Some(opencode_missing()), "opencode.config.missing"@),
        is_error(Some(openclaw_missing()), "openclaw.config.missing"@),
        is_error(Some(codex_live_missing()), "codex.live.missing"@),
        is_error(Some(gemini_live_missing()), "gemini.live.missing"@),
        is_error(Some(no_models()), "provider.set_default_model.openclaw_no_models"@),
        is_error(
            Some(default_needs_provider()),
            "provider.remove_from_config.openclaw_default"@,
        ),
{
    lemma_ends_with("供应商不存在: "@, id);
    lemma_ends_with("Provider not found: "@, id);
    lemma_ends_with("应用类型不存在: "@, app_type.name());
    lemma_ends_with("App type not found: "@, app_type.name());
    lemma_ends_with("OpenCode live 配置中缺少供应商: "@, id);
    lemma_ends_with("OpenCode live config missing provider: "@, id);
    lemma_ends_with("OpenClaw live 配置中缺少供应商: "@, id);
    lemma_ends_with("OpenClaw live config missing provider: "@, id);
    lemma_ends_with("请先将该 OpenClaw 供应商加入当前配置: "@, id);
    lemma_ends_with("Add this OpenClaw provider to the current config first: "@, id);
}

/// Two texts together end with the second.
proof fn lemma_ends_with(left: Seq<char>, right: Seq<char>)
    ensures
        right.is_suffix_of(left + right),
{
    let all = left + right;
    assert(all.subrange(left.len() as int, all.len() as int) =~= right);
}

/// A common snippet of Anthropic or Gemini is refused where it is no JSON, or no object, and
/// only there; what is wrong is told.
pub proof fn law_why_snippets_are_refused(snippet: Seq<char>)
    ensures
        ({
            let json = parsed_json(snippet);
            let claude = claude_snippet_error(snippet);
            let gemini = gemini_snippet_error(snippet);
            &&& claude is None <==> json is Some && json->0 is Object
            &&& gemini is None <==> json is Some && json->0 is Object
            &&& json is None ==> is_error(claude, "common_config.anthropic.invalid_json"@)
                && is_error(gemini, "common_config.gemini.invalid_json"@)
            &&& json is Some && !(json->0 is Object) ==> is_error(
                claude,
                "common_config.anthropic.not_object"@,
            ) && is_error(gemini, "common_config.gemini.not_object"@)
        }),
{
}

} // verus!
