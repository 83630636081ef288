//! What holds of the operations on providers as a whole.
use vstd::prelude::*;

use crate::claude::{law_normalized_once, models_normalized};
use crate::common_config::{claude_snippet_error, uses_common};
use crate::config::ConfigView;
use crate::error::ErrorView;
use crate::json::{deep_removed, merged, JsonView};
use crate::json_laws::law_merge_then_strip;
use crate::json_value::parsed_json;
use crate::live_files::{JsonReadView, SnapshotView, TextReadView};
use crate::live_write::claude_live;
use crate::model::{AppType, ProviderView};
use crate::refresh::claude_refreshed;
use crate::service::{added, change_comes_out, kept_meta, new_provider, renamed, updated, ActionView};
use crate::snapshots::{codex_text_seen, codex_text_stored, snippet_seen};
use crate::switching::{
    backfilled, law_failed_switch_changes_nothing, lemma_successful_switch, switched,
    switched_read, LiveBefore,
};
use crate::text::trimmed;

verus! {

/// Whether two configurations differ in one provider of one application at most, in which
/// provider of that application is the current one, and in the common snippets.
pub open spec fn differ_in_provider(
    before: ConfigView,
    after: ConfigView,
    app_type: AppType,
    id: Seq<char>,
) -> bool {
    &&& before.managers.dom() == after.managers.dom()
    &&& forall|app: AppType|
        app != app_type && before.managers.contains_key(app) ==> #[trigger] after.managers[app]
            == before.managers[app]
    &&& before.managers.contains_key(app_type) ==> {
        &&& after.managers[app_type].ids == before.managers[app_type].ids
        &&& after.managers[app_type].providers.dom() == before.managers[app_type].providers.dom()
        &&& forall|other: Seq<char>|
            other != id && before.managers[app_type].providers.contains_key(other)
                ==> #[trigger] after.managers[app_type].providers[other]
                == before.managers[app_type].providers[other]
    }
    &&& after.mcp_servers == before.mcp_servers
}

/// A change that fails changes nothing.
pub proof fn law_failed_change_changes_nothing(
    expected: Result<(ConfigView, Option<ActionView>), ErrorView>,
    before: ConfigView,
    after: ConfigView,
    error: ErrorView,
)
    requires
        change_comes_out(expected, before, after, Err(error)),
    ensures
        after == before,
        expected == Err::<(ConfigView, Option<ActionView>), ErrorView>(error),
{
}

/// A provider that has been added is there, as a new one is stored; the others are as they
/// were, and the other applications too. The first provider of an application whose
/// providers are live one at a time becomes the current one, and no other does.
pub proof fn law_added_provider_is_there(
    config: ConfigView,
    app_type: AppType,
    provider: ProviderView,
    gemini: Result<(), ErrorView>,
    usage: Result<(), ErrorView>,
    captured: Result<SnapshotView, ErrorView>,
    after: ConfigView,
    action: Option<ActionView>,
    other: Seq<char>,
    other_app: AppType,
)
    requires
        added(config, app_type, provider, gemini, usage, captured) == Ok::<
            (ConfigView, Option<ActionView>),
            ErrorView,
        >((after, action)),
    ensures
        after.provider(app_type, provider.id) == Some(new_provider(app_type, provider)),
        other != provider.id ==> after.provider(app_type, other) == config.provider(
            app_type,
            other,
        ),
        other_app != app_type ==> (after.managers.contains_key(other_app)
            == config.managers.contains_key(other_app) && after.managers[other_app]
            == config.managers[other_app]),
        after.snippets == config.snippets,
        after.current(app_type) == (if !app_type.additive() && config.current(app_type).len() == 0
            && (!config.managers.contains_key(app_type)
            || config.managers[app_type].ids.len() == 0) {
            provider.id
        } else {
            config.current(app_type)
        }),
        action is Some <==> app_type.additive() || after.current(app_type) == provider.id,
{
}

/// A provider that has been changed is stored as it was given, with what was kept about it
/// unless something else was said; the others, their order and the current provider are as
/// they were.
pub proof fn law_updated_provider_is_stored(
    config: ConfigView,
    app_type: AppType,
    provider: ProviderView,
    gemini: Result<(), ErrorView>,
    usage: Result<(), ErrorView>,
    captured: Result<SnapshotView, ErrorView>,
    after: ConfigView,
    action: Option<ActionView>,
)
    requires
        updated(config, app_type, provider, gemini, usage, captured) == Ok::<
            (ConfigView, Option<ActionView>),
            ErrorView,
        >((after, action)),
    ensures
        config.provider(app_type, provider.id) is Some,
        after.provider(app_type, provider.id) == Some(
            kept_meta(config.provider(app_type, provider.id)->0, renamed(app_type, provider)),
        ),
        differ_in_provider(config, after, app_type, provider.id),
        after.current(app_type) == config.current(app_type),
        after.snippets == config.snippets,
{
    assert(after.managers.dom() =~= config.managers.dom());
    assert(after.managers[app_type].providers.dom()
        =~= config.managers[app_type].providers.dom());
}

/// Taking settings back from the live files changes the provider that was current alone.
proof fn lemma_backfill_changes_current_only(
    config: ConfigView,
    id: Seq<char>,
    live: LiveBefore,
    app_type: AppType,
    after: ConfigView,
)
    requires
        backfilled(config, id, live, after, Ok(())),
        live.fits(app_type, false),
        !app_type.additive(),
    ensures
        differ_in_provider(config, after, app_type, config.current(app_type)),
{
    let current = config.current(app_type);
    if let LiveBefore::Codex { auth, text } = live {
        if let (Ok(found), TextReadView::Found(content)) = (auth@.content(), text@) {
            if current.len() > 0 && current != id {
                assert(codex_text_seen(config, current, found, content, after, Ok(())));
                let snippet = choose|snippet: Result<Option<Seq<char>>, ErrorView>| #[trigger]
                    snippet_seen(config, current, content, snippet) && match snippet {
                        Err(error) => Ok::<(), ErrorView>(()) == Err::<(), ErrorView>(error)
                            && after == config,
                        Ok(snippet) => codex_text_stored(
                            config,
                            current,
                            found,
                            content,
                            snippet,
                            after,
                            Ok(()),
                        ),
                    };
                assert(codex_text_stored(
                    config,
                    current,
                    found,
                    content,
                    snippet->Ok_0,
                    after,
                    Ok(()),
                ));
            }
        }
    }
    assert(after.managers.dom() =~= config.managers.dom());
    if config.managers.contains_key(app_type) {
        assert(after.managers[app_type].providers.dom()
            =~= config.managers[app_type].providers.dom());
    }
}

/// A switch changes the provider that was current alone: the one that becomes current, and
/// all others, stay as they were stored, and so do the other applications.
pub proof fn law_switch_changes_former_current_only(
    config: ConfigView,
    app_type: AppType,
    id: Seq<char>,
    takeover: bool,
    captured: Result<SnapshotView, ErrorView>,
    live: LiveBefore,
    after: ConfigView,
    result: Result<ActionView, ErrorView>,
)
    requires
        switched(config, app_type, id, takeover, captured, live, after, result),
        live.fits(app_type, takeover),
    ensures
        differ_in_provider(config, after, app_type, config.current(app_type)),
{
    if app_type.additive() || takeover {
        assert(after.managers.dom() =~= config.managers.dom());
    } else if let Ok(action) = result {
        assert(switched_read(config, app_type, id, captured, live, after, result));
        let filled = lemma_successful_switch(config, app_type, id, captured, live, after, action);
        lemma_backfill_changes_current_only(config, id, live, app_type, filled);
        assert(after.managers.dom() =~= filled.managers.dom());
    } else {
        law_failed_switch_changes_nothing(
            config,
            app_type,
            id,
            takeover,
            captured,
            live,
            after,
            result->Err_0,
        );
    }
}

/// A provider of Anthropic that uses the common snippet gets its settings back as they were
/// when they are read from the live file to which they were written. The settings share
/// nothing with the snippet, and bringing the names of models up to date adds nothing but
/// what the snippet holds.
pub proof fn law_claude_settings_come_back(config: ConfigView, id: Seq<char>, live: JsonView)
    requires
        config.provider(AppType::Claude, id) is Some,
        ({
            let provider = config.provider(AppType::Claude, id)->0;
            let snippet = config.snippet(AppType::Claude);
            let common = parsed_json(trimmed(snippet->0))->0;
            let settings = provider.settings_config;
            &&& uses_common(AppType::Claude, provider, snippet)
            &&& claude_live(provider, snippet) == Ok::<JsonView, ErrorView>(live)
            &&& settings is Object
            &&& models_normalized(settings) == settings
            &&& deep_removed(settings, common) == settings
            &&& deep_removed(models_normalized(merged(common, settings)), common) == deep_removed(
                merged(common, settings),
                common,
            )
        }),
    ensures
        ({
            let provider = config.provider(AppType::Claude, id)->0;
            claude_refreshed(config, id, JsonReadView::Found(live)) == Ok::<ConfigView, ErrorView>(
                config.with_provider(AppType::Claude, id, provider.noted_common()),
            )
        }),
{
    let provider = config.provider(AppType::Claude, id)->0;
    let snippet = config.snippet(AppType::Claude);
    let common = parsed_json(trimmed(snippet->0))->0;
    let settings = provider.settings_config;
    assert(claude_snippet_error(trimmed(snippet->0)) is None);
    law_merge_then_strip(common, settings);
    law_normalized_once(merged(common, settings));
    assert(live == models_normalized(merged(common, settings)));
    assert(deep_removed(models_normalized(live), common) == settings);
    assert(provider.noted_common().with_settings(settings) == provider.noted_common());
}

/// A provider of Anthropic that does not use the common snippet gets back exactly what is in
/// the live file to which its settings were written: the settings themselves.
pub proof fn law_plain_claude_settings_come_back(config: ConfigView, id: Seq<char>, live: JsonView)
    requires
        config.provider(AppType::Claude, id) is Some,
        ({
            let provider = config.provider(AppType::Claude, id)->0;
            &&& !uses_common(AppType::Claude, provider, config.snippet(AppType::Claude))
            &&& claude_live(provider, None) == Ok::<JsonView, ErrorView>(live)
            &&& models_normalized(provider.settings_config) == provider.settings_config
        }),
    ensures
        claude_refreshed(config, id, JsonReadView::Found(live)) == Ok::<ConfigView, ErrorView>(
            config,
        ),
{
    let provider = config.provider(AppType::Claude, id)->0;
    let kept = config.with_provider(AppType::Claude, id, provider);
    assert(kept.managers[AppType::Claude].providers
        =~= config.managers[AppType::Claude].providers);
    assert(kept.managers =~= config.managers);
}

} // verus!
