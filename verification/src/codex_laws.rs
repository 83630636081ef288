//! What holds of Codex providers over several switches.
use vstd::prelude::*;

use crate::codex::{auth_file, is_own_text, live_text, own_text_merged, AuthFileView};
use crate::common_config::{
    applies_common, codex_config_text, config_stripped, is_official, prefers_common,
    servers_stripped, snippet_extracted, synced_ids, uses_common,
};
use crate::config::ConfigView;
use crate::error::ErrorView;
use crate::json::JsonView;
use crate::live_files::{valid_text, JsonReadView, SnapshotView, TextReadView};
use crate::model::{AppType, ProviderView};
use crate::refresh::{
    codex_refreshed, codex_snippet_known, codex_text_refreshed, codex_texts_stored, codex_uses,
    snippet_filled, with_codex_live,
};
use crate::service::ActionView;
use crate::service_laws::law_switch_changes_former_current_only;
use crate::snapshots::{
    codex_backfilled, codex_own_stored, codex_text_seen, codex_text_stored, own_text, provider_text,
    snippet_seen, text_or_empty, with_codex_files, with_codex_read, with_stored,
};
use crate::switching::{lemma_successful_switch, switched, with_current, LiveBefore};
use crate::text::{is_blank, trimmed};
use crate::toml_doc::{is_document_text, occurs, parsed_lines, parsed_toml, TomlView};
use crate::toml_laws::{
    are_disjoint, is_comparable, law_merged_is_part, law_stored_table_comes_back,
};
use crate::toml_ops::{item_is_subset, laid_paths, tables_merged, taken_paths};

verus! {

/// The authentication that is written for a provider, where any is.
pub open spec fn written_auth(provider: ProviderView) -> Option<JsonView> {
    match auth_file(provider) {
        AuthFileView::Write(auth) => Some(auth),
        AuthFileView::Remove => None,
    }
}

/// Whether the live files hold what is written for a Codex provider.
pub open spec fn holds_codex_live(
    provider: ProviderView,
    snippet: Option<Seq<char>>,
    auth: JsonReadView,
    text: TextReadView,
) -> bool {
    &&& auth.content() == Ok::<Option<JsonView>, ErrorView>(written_auth(provider))
    &&& text is Found
    &&& live_text(
        provider,
        snippet,
        applies_common(AppType::Codex, provider, snippet, true),
        Ok(text->Found_0),
    )
}

/// Whether a Codex provider stands alone: it does not use the common snippet, its settings
/// hold the text of a configuration, and it is not the official one, whose text is
/// completed.
pub open spec fn stands_alone(provider: ProviderView, snippet: Option<Seq<char>>) -> bool {
    &&& !uses_common(AppType::Codex, provider, snippet)
    &&& !is_official(provider)
    &&& provider.settings_config is Object
    &&& provider.settings_config->Object_0.contains_key("config"@)
    &&& provider.settings_config->Object_0["config"@] is Str
}

/// The text of a provider that stands alone is written as it is stored, whether the common
/// snippet is asked for or not.
pub proof fn law_text_is_written_as_stored(
    provider: ProviderView,
    snippet: Option<Seq<char>>,
    requested: bool,
    text: Seq<char>,
)
    requires
        stands_alone(provider, snippet),
        live_text(
            provider,
            snippet,
            applies_common(AppType::Codex, provider, snippet, requested),
            Ok(text),
        ),
    ensures
        text == codex_config_text(provider.settings_config),
{
    let own = choose|own: Seq<char>| #[trigger]
        is_own_text(provider, own) && own_text_merged(
            own,
            snippet,
            applies_common(AppType::Codex, provider, snippet, requested),
            Ok(text),
        );
    assert(is_own_text(provider, own));
}

/// The settings of a provider that stands alone stay as they are when what was written for
/// it is put into them.
proof fn lemma_files_put_back(
    provider: ProviderView,
    snippet: Option<Seq<char>>,
    text: Seq<char>,
)
    requires
        stands_alone(provider, snippet),
        text == codex_config_text(provider.settings_config),
    ensures
        with_codex_files(provider.settings_config, written_auth(provider), Some(text))
            == provider.settings_config,
        written_auth(provider) is Some ==> with_codex_live(
            provider.settings_config,
            written_auth(provider),
            text,
        ) == provider.settings_config,
{
    let members = provider.settings_config->Object_0;
    assert(members.insert("config"@, JsonView::Str(text)) =~= members);
    if let Some(auth) = written_auth(provider) {
        assert(members.insert("auth"@, auth) =~= members);
    }
}

/// Storing a Codex provider as it is changes nothing, nor does the common snippet as it is.
proof fn lemma_stored_as_it_is(config: ConfigView, id: Seq<char>)
    requires
        config.provider(AppType::Codex, id) is Some,
    ensures
        config.with_snippet(AppType::Codex, config.snippet(AppType::Codex)) == config,
        config.with_provider(AppType::Codex, id, config.provider(AppType::Codex, id)->0) == config,
{
    let kept = config.with_provider(AppType::Codex, id, config.provider(AppType::Codex, id)->0);
    assert(kept.managers[AppType::Codex].providers
        =~= config.managers[AppType::Codex].providers);
    assert(kept.managers =~= config.managers);
    assert(config.with_snippet(AppType::Codex, config.snippet(AppType::Codex)).snippets
        =~= config.snippets);
}

/// The common snippet and the text of a live configuration that a backfill that went well
/// has settled on.
proof fn lemma_backfill_settles(
    config: ConfigView,
    next: Seq<char>,
    auth: JsonReadView,
    text: TextReadView,
    after: ConfigView,
) -> (r: (Option<Seq<char>>, Seq<char>))
    requires
        config.provider(AppType::Codex, config.current(AppType::Codex)) is Some,
        config.current(AppType::Codex).len() > 0,
        config.current(AppType::Codex) != next,
        text is Found,
        codex_backfilled(
            config,
            config.current(AppType::Codex),
            next,
            auth,
            text,
            after,
            Ok(()),
        ),
    ensures
        ({
            let current = config.current(AppType::Codex);
            let provider = config.provider(AppType::Codex, current)->0;
            &&& auth.content() is Ok
            &&& snippet_seen(config, current, text->Found_0, Ok(r.0))
            &&& provider_text(
                uses_common(AppType::Codex, provider, r.0),
                r.0,
                synced_ids(config),
                text->Found_0,
                Ok(r.1),
            )
            &&& after == with_codex_read(
                config,
                current,
                provider,
                r.0,
                auth.content()->Ok_0,
                Some(r.1),
            )
        }),
{
    let current = config.current(AppType::Codex);
    let provider = config.provider(AppType::Codex, current)->0;
    let content = text->Found_0;
    let found = auth.content()->Ok_0;
    let result = Ok::<(), ErrorView>(());
    assert(codex_text_seen(config, current, found, content, after, result));
    let seen = choose|seen: Result<Option<Seq<char>>, ErrorView>| #[trigger]
        snippet_seen(config, current, content, seen) && match seen {
            Err(error) => result == Err::<(), ErrorView>(error) && after == config,
            Ok(seen) => codex_text_stored(config, current, found, content, seen, after, result),
        };
    let snippet = seen->Ok_0;
    assert(codex_text_stored(config, current, found, content, snippet, after, result));
    let uses = uses_common(AppType::Codex, provider, snippet);
    let own = choose|own: Result<Seq<char>, ErrorView>| #[trigger]
        own_text(uses, snippet, content, own) && match own {
            Ok(own) => codex_own_stored(config, current, found, own, snippet, after, result),
            Err(error) => result == Err::<(), ErrorView>(error) && after == config.with_snippet(
                AppType::Codex,
                snippet,
            ),
        };
    assert(own_text(uses, snippet, content, own));
    assert(codex_own_stored(config, current, found, own->Ok_0, snippet, after, result));
    let stored = choose|stored: Result<Seq<char>, ErrorView>| #[trigger]
        servers_stripped(own->Ok_0, synced_ids(config), stored) && match stored {
            Ok(stored) => result is Ok && after == with_codex_read(
                config,
                current,
                provider,
                snippet,
                found,
                Some(stored),
            ),
            Err(error) => result == Err::<(), ErrorView>(error) && after == with_codex_read(
                config,
                current,
                provider,
                snippet,
                found,
                None,
            ),
        };
    (snippet, stored->Ok_0)
}

/// Where no servers are kept elsewhere and the snippet is not used, the text is taken back
/// as it is.
proof fn lemma_text_taken_back(snippet: Option<Seq<char>>, text: Seq<char>, stored: Seq<char>)
    requires
        provider_text(false, snippet, Seq::empty(), text, Ok(stored)),
    ensures
        stored == text,
{
    let own = choose|own: Result<Seq<char>, ErrorView>| #[trigger]
        own_text(false, snippet, text, own) && match own {
            Ok(own) => servers_stripped(own, Seq::empty(), Ok(stored)),
            Err(error) => Ok::<Seq<char>, ErrorView>(stored) == Err::<Seq<char>, ErrorView>(error),
        };
    assert(own_text(false, snippet, text, own));
}

/// A current Codex provider that stands alone gets back, before another becomes current,
/// exactly what was written for it. No server is kept elsewhere, and the live configuration
/// gives no new common snippet: nothing changes then.
pub proof fn law_settings_come_back(
    config: ConfigView,
    next: Seq<char>,
    auth: JsonReadView,
    text: TextReadView,
    after: ConfigView,
)
    requires
        ({
            let current = config.current(AppType::Codex);
            let provider = config.provider(AppType::Codex, current)->0;
            let snippet = config.snippet(AppType::Codex);
            &&& config.provider(AppType::Codex, current) is Some
            &&& stands_alone(provider, snippet)
            &&& holds_codex_live(provider, snippet, auth, text)
            &&& codex_backfilled(config, current, next, auth, text, after, Ok(()))
            &&& after.snippet(AppType::Codex) == snippet
        }),
        synced_ids(config).len() == 0,
    ensures
        after == config,
{
    let current = config.current(AppType::Codex);
    let provider = config.provider(AppType::Codex, current)->0;
    let snippet = config.snippet(AppType::Codex);
    let content = text->Found_0;
    law_text_is_written_as_stored(provider, snippet, true, content);
    lemma_files_put_back(provider, snippet, content);
    lemma_stored_as_it_is(config, current);
    if current.len() > 0 && current != next {
        let (seen, stored) = lemma_backfill_settles(config, next, auth, text, after);
        assert(after.snippet(AppType::Codex) == seen);
        assert(synced_ids(config) =~= Seq::empty());
        lemma_text_taken_back(seen, content, stored);
    }
}

/// A provider that declines the common snippet adds nothing to it when it gets its settings
/// back.
pub proof fn law_declining_provider_adds_nothing(
    config: ConfigView,
    next: Seq<char>,
    auth: JsonReadView,
    text: TextReadView,
    after: ConfigView,
)
    requires
        ({
            let current = config.current(AppType::Codex);
            let provider = config.provider(AppType::Codex, current)->0;
            &&& config.provider(AppType::Codex, current) is Some
            &&& provider.apply_common_config() == Some(false)
            &&& codex_backfilled(config, current, next, auth, text, after, Ok(()))
        }),
    ensures
        after.snippet(AppType::Codex) == config.snippet(AppType::Codex),
{
    let current = config.current(AppType::Codex);
    if current.len() > 0 && current != next && text is Found {
        lemma_backfill_settles(config, next, auth, text, after);
    }
}

/// Switching away from a Codex provider that stands alone changes nothing but which
/// provider is current, unless the live configuration gives a new common snippet.
pub proof fn law_provider_survives_switch(
    config: ConfigView,
    id: Seq<char>,
    captured: Result<SnapshotView, ErrorView>,
    live: LiveBefore,
    after: ConfigView,
    action: ActionView,
)
    requires
        live is Codex,
        ({
            let current = config.current(AppType::Codex);
            let provider = config.provider(AppType::Codex, current)->0;
            let snippet = config.snippet(AppType::Codex);
            &&& config.provider(AppType::Codex, current) is Some
            &&& stands_alone(provider, snippet)
            &&& holds_codex_live(provider, snippet, live->auth@, live->text@)
            &&& after.snippet(AppType::Codex) == snippet
        }),
        synced_ids(config).len() == 0,
        switched(config, AppType::Codex, id, false, captured, live, after, Ok(action)),
    ensures
        after == with_current(config, AppType::Codex, id),
{
    let filled = lemma_successful_switch(
        config,
        AppType::Codex,
        id,
        captured,
        live,
        after,
        action,
    );
    if let LiveBefore::Codex { auth, text } = live {
        law_settings_come_back(config, id, auth@, text@, filled);
    }
}

/// A Codex provider that stands alone has its text again, word for word, when it is
/// refreshed from the live files that were written for it; and where its authentication
/// was written, nothing changes at all. No server is kept elsewhere, and the live
/// configuration gives no new common snippet.
pub proof fn law_provider_survives_refresh(
    config: ConfigView,
    id: Seq<char>,
    auth: JsonReadView,
    text: TextReadView,
    after: ConfigView,
)
    requires
        ({
            let provider = config.provider(AppType::Codex, id)->0;
            let snippet = config.snippet(AppType::Codex);
            &&& config.provider(AppType::Codex, id) is Some
            &&& stands_alone(provider, snippet)
            &&& holds_codex_live(provider, snippet, auth, text)
            &&& after.snippet(AppType::Codex) == snippet
        }),
        synced_ids(config).len() == 0,
        codex_refreshed(config, id, auth, text, after, Ok(())),
    ensures
        ({
            let provider = config.provider(AppType::Codex, id)->0;
            let stored = codex_config_text(provider.settings_config);
            &&& after == config.with_provider(
                AppType::Codex,
                id,
                provider.with_settings(
                    with_codex_live(provider.settings_config, written_auth(provider), stored),
                ),
            )
            &&& codex_config_text(
                with_codex_live(provider.settings_config, written_auth(provider), stored),
            ) == stored
            &&& written_auth(provider) is Some ==> after == config
        }),
{
    let provider = config.provider(AppType::Codex, id)->0;
    let snippet = config.snippet(AppType::Codex);
    let content = text->Found_0;
    let found = written_auth(provider);
    let result = Ok::<(), ErrorView>(());
    law_text_is_written_as_stored(provider, snippet, true, content);
    lemma_files_put_back(provider, snippet, content);
    lemma_stored_as_it_is(config, id);
    assert(codex_text_refreshed(config, id, found, content, after, result));
    let extracted = choose|extracted: Result<Seq<char>, ErrorView>| #[trigger]
        snippet_extracted(content, extracted) && match extracted {
            Err(error) => result == Err::<(), ErrorView>(error) && after == config,
            Ok(extracted) => codex_snippet_known(
                config,
                id,
                found,
                content,
                extracted,
                after,
                result,
            ),
        };
    assert(codex_snippet_known(config, id, found, content, extracted->Ok_0, after, result));
    let stored = choose|stored: Result<Seq<char>, ErrorView>| #[trigger]
        provider_text(false, snippet, synced_ids(config), content, stored) && match stored {
            Ok(stored) => codex_texts_stored(
                config,
                id,
                found,
                extracted->Ok_0,
                stored,
                after,
                result,
            ),
            Err(error) => result == Err::<(), ErrorView>(error) && after == config,
        };
    assert(provider_text(false, snippet, synced_ids(config), content, stored));
    assert(synced_ids(config) =~= Seq::empty());
    lemma_text_taken_back(snippet, content, stored->Ok_0);
    let given = snippet_filled(config, id, extracted->Ok_0);
    assert(after.snippet(AppType::Codex) == given);
}

/// Two Codex providers that stand alone, and whose authentication is written, are stored as
/// they were after a switch from one to the other and back, as long as no live
/// configuration gives a new common snippet.
pub proof fn law_providers_survive_switching(
    config: ConfigView,
    second: Seq<char>,
    captured: Result<SnapshotView, ErrorView>,
    live: LiveBefore,
    action: ActionView,
    between: ConfigView,
    auth_read: JsonReadView,
    text_read: TextReadView,
    refreshed: ConfigView,
    captured_again: Result<SnapshotView, ErrorView>,
    live_again: LiveBefore,
    action_again: ActionView,
    after: ConfigView,
)
    requires
        live is Codex,
        live_again is Codex,
        synced_ids(config).len() == 0,
        ({
            let first = config.current(AppType::Codex);
            let provider = config.provider(AppType::Codex, first)->0;
            let other = config.provider(AppType::Codex, second)->0;
            let snippet = config.snippet(AppType::Codex);
            &&& config.provider(AppType::Codex, first) is Some
            &&& stands_alone(provider, snippet)
            &&& stands_alone(other, snippet)
            &&& written_auth(other) is Some
            &&& holds_codex_live(provider, snippet, live->auth@, live->text@)
            &&& switched(config, AppType::Codex, second, false, captured, live, between, Ok(action))
            &&& between.snippet(AppType::Codex) == snippet
            &&& holds_codex_live(other, snippet, auth_read, text_read)
            &&& codex_refreshed(between, second, auth_read, text_read, refreshed, Ok(()))
            &&& refreshed.snippet(AppType::Codex) == snippet
            &&& holds_codex_live(other, snippet, live_again->auth@, live_again->text@)
            &&& switched(
                refreshed,
                AppType::Codex,
                first,
                false,
                captured_again,
                live_again,
                after,
                Ok(action_again),
            )
            &&& after.snippet(AppType::Codex) == snippet
        }),
    ensures
        after == config,
        action_again.provider == config.provider(
            AppType::Codex,
            config.current(AppType::Codex),
        )->0,
{
    let first = config.current(AppType::Codex);
    lemma_successful_switch(config, AppType::Codex, second, captured, live, between, action);
    law_provider_survives_switch(config, second, captured, live, between, action);
    law_provider_survives_refresh(between, second, auth_read, text_read, refreshed);
    lemma_successful_switch(
        refreshed,
        AppType::Codex,
        first,
        captured_again,
        live_again,
        after,
        action_again,
    );
    law_provider_survives_switch(
        refreshed,
        first,
        captured_again,
        live_again,
        after,
        action_again,
    );
    assert(after.managers =~= config.managers);
}

/// Refreshing a Codex provider leaves the other providers, and which one is current, as they
/// are, and so a common snippet that is not blank.
proof fn lemma_refresh_changes_one(
    config: ConfigView,
    id: Seq<char>,
    auth: JsonReadView,
    text: TextReadView,
    after: ConfigView,
    other: Seq<char>,
)
    requires
        codex_refreshed(config, id, auth, text, after, Ok(())),
        other != id,
    ensures
        after.provider(AppType::Codex, other) == config.provider(AppType::Codex, other),
        after.current(AppType::Codex) == config.current(AppType::Codex),
        after.provider(AppType::Codex, id) is Some == config.provider(AppType::Codex, id) is Some,
        config.snippet(AppType::Codex) is Some && !is_blank(config.snippet(AppType::Codex)->0)
            ==> after.snippet(AppType::Codex) == config.snippet(AppType::Codex),
{
    let found = auth.content()->Ok_0;
    let content = text_or_empty(valid_text(text)->Ok_0);
    let result = Ok::<(), ErrorView>(());
    assert(codex_text_refreshed(config, id, found, content, after, result));
    let extracted = choose|extracted: Result<Seq<char>, ErrorView>| #[trigger]
        snippet_extracted(content, extracted) && match extracted {
            Err(error) => result == Err::<(), ErrorView>(error) && after == config,
            Ok(extracted) => codex_snippet_known(
                config,
                id,
                found,
                content,
                extracted,
                after,
                result,
            ),
        };
    assert(codex_snippet_known(config, id, found, content, extracted->Ok_0, after, result));
    let stored = choose|stored: Result<Seq<char>, ErrorView>| #[trigger]
        provider_text(
            codex_uses(config, id),
            config.snippet(AppType::Codex),
            synced_ids(config),
            content,
            stored,
        ) && match stored {
            Ok(stored) => codex_texts_stored(
                config,
                id,
                found,
                extracted->Ok_0,
                stored,
                after,
                result,
            ),
            Err(error) => result == Err::<(), ErrorView>(error) && after == config,
        };
    assert(codex_texts_stored(config, id, found, extracted->Ok_0, stored->Ok_0, after, result));
    let given = snippet_filled(config, id, extracted->Ok_0);
    assert(after.snippet(AppType::Codex) == given);
}

/// A Codex provider that stands alone is stored as it was after a switch to any other
/// provider and back, and is what goes into the live files then: its own text, word for
/// word, as long as it still stands alone. Nothing is said of the other provider. No server
/// is kept elsewhere, and the live configuration of the first gives no new common snippet.
pub proof fn law_first_provider_survives_switching(
    config: ConfigView,
    second: Seq<char>,
    captured: Result<SnapshotView, ErrorView>,
    live: LiveBefore,
    action: ActionView,
    between: ConfigView,
    auth_read: JsonReadView,
    text_read: TextReadView,
    refreshed: ConfigView,
    captured_again: Result<SnapshotView, ErrorView>,
    live_again: LiveBefore,
    action_again: ActionView,
    after: ConfigView,
    requested: bool,
    text: Seq<char>,
)
    requires
        live is Codex,
        live_again is Codex,
        synced_ids(config).len() == 0,
        second != config.current(AppType::Codex),
        ({
            let first = config.current(AppType::Codex);
            let provider = config.provider(AppType::Codex, first)->0;
            let snippet = config.snippet(AppType::Codex);
            &&& config.provider(AppType::Codex, first) is Some
            &&& stands_alone(provider, snippet)
            &&& holds_codex_live(provider, snippet, live->auth@, live->text@)
            &&& switched(config, AppType::Codex, second, false, captured, live, between, Ok(action))
            &&& between.snippet(AppType::Codex) == snippet
            &&& codex_refreshed(between, second, auth_read, text_read, refreshed, Ok(()))
            &&& switched(
                refreshed,
                AppType::Codex,
                first,
                false,
                captured_again,
                live_again,
                after,
                Ok(action_again),
            )
        }),
    ensures
        ({
            let first = config.current(AppType::Codex);
            let provider = config.provider(AppType::Codex, first)->0;
            let snippet = action_again.common_config_snippet;
            &&& after.provider(AppType::Codex, first) == Some(provider)
            &&& after.current(AppType::Codex) == first
            &&& action_again.provider == provider
            &&& stands_alone(provider, snippet) && live_text(
                provider,
                snippet,
                applies_common(AppType::Codex, provider, snippet, requested),
                Ok(text),
            ) ==> text == codex_config_text(provider.settings_config)
        }),
{
    let first = config.current(AppType::Codex);
    let provider = config.provider(AppType::Codex, first)->0;
    let snippet = action_again.common_config_snippet;
    lemma_successful_switch(config, AppType::Codex, second, captured, live, between, action);
    law_provider_survives_switch(config, second, captured, live, between, action);
    lemma_refresh_changes_one(between, second, auth_read, text_read, refreshed, first);
    lemma_successful_switch(
        refreshed,
        AppType::Codex,
        first,
        captured_again,
        live_again,
        after,
        action_again,
    );
    law_switch_changes_former_current_only(
        refreshed,
        AppType::Codex,
        first,
        false,
        captured_again,
        live_again,
        after,
        Ok(action_again),
    );
    assert(refreshed.current(AppType::Codex) == second);
    assert(after.managers[AppType::Codex].providers[first]
        == refreshed.managers[AppType::Codex].providers[first]);
    assert(after.managers[AppType::Codex].providers.dom().contains(first));
    if stands_alone(provider, snippet) && live_text(
        provider,
        snippet,
        applies_common(AppType::Codex, provider, snippet, requested),
        Ok(text),
    ) {
        law_text_is_written_as_stored(provider, snippet, requested, text);
    }
}

/// A provider that uses the common snippet uses it still once other settings have been
/// stored with it.
pub proof fn law_use_of_snippet_is_kept(
    app_type: AppType,
    provider: ProviderView,
    snippet: Option<Seq<char>>,
    settings: JsonView,
)
    requires
        uses_common(app_type, provider, snippet),
    ensures
        uses_common(app_type, with_stored(app_type, provider, snippet, settings), snippet),
{
}

/// A Codex provider that uses the common snippet uses it still after another has become
/// current, and the snippet is the same.
pub proof fn law_use_of_snippet_survives_switch(
    config: ConfigView,
    id: Seq<char>,
    captured: Result<SnapshotView, ErrorView>,
    live: LiveBefore,
    after: ConfigView,
    action: ActionView,
)
    requires
        live is Codex,
        config.provider(AppType::Codex, config.current(AppType::Codex)) is Some,
        uses_common(
            AppType::Codex,
            config.provider(AppType::Codex, config.current(AppType::Codex))->0,
            config.snippet(AppType::Codex),
        ),
        switched(config, AppType::Codex, id, false, captured, live, after, Ok(action)),
    ensures
        after.snippet(AppType::Codex) == config.snippet(AppType::Codex),
        after.provider(AppType::Codex, config.current(AppType::Codex)) is Some,
        uses_common(
            AppType::Codex,
            after.provider(AppType::Codex, config.current(AppType::Codex))->0,
            after.snippet(AppType::Codex),
        ),
{
    let current = config.current(AppType::Codex);
    let provider = config.provider(AppType::Codex, current)->0;
    let snippet = config.snippet(AppType::Codex);
    let filled = lemma_successful_switch(
        config,
        AppType::Codex,
        id,
        captured,
        live,
        after,
        action,
    );
    if let LiveBefore::Codex { auth, text } = live {
        if current.len() > 0 && current != id && !(auth@ is Missing && text@ is Missing) {
            if text@ is Found {
                let (seen, stored) = lemma_backfill_settles(config, id, auth@, text@, filled);
                assert(seen == snippet);
            } else if let Ok(found) = auth@.content() {
                let settings = with_codex_files(provider.settings_config, found, None);
                lemma_config_name_is_not_auth();
                assert(codex_config_text(settings) == codex_config_text(provider.settings_config));
            }
        }
    }
}

/// The names of the members of Codex settings are different.
proof fn lemma_config_name_is_not_auth()
    ensures
        "config"@ != "auth"@,
{
    reveal_strlit("config");
    reveal_strlit("auth");
    assert("config"@.len() == 6);
    assert("auth"@.len() == 4);
}

/// Whether what a Codex provider writes itself is not blank.
pub open spec fn has_own_text(provider: ProviderView) -> bool {
    forall|own: Seq<char>| #[trigger] is_own_text(provider, own) ==> !is_blank(own)
}

/// Whether a text is how a document is written over which this was laid. It is part of that
/// document, where it can be compared with itself.
pub open spec fn is_written_with(text: Seq<char>, part: TomlView) -> bool {
    exists|config: TomlView|
        is_document_text(text, #[trigger] tables_merged(config, part)) && (is_comparable(part)
            ==> item_is_subset(tables_merged(config, part), part))
}

/// The common snippet is part of what is written for a Codex provider that uses it and has
/// a text of its own.
pub proof fn law_used_snippet_is_live(provider: ProviderView, snippet: Seq<char>, text: Seq<char>)
    requires
        uses_common(AppType::Codex, provider, Some(snippet)),
        has_own_text(provider),
        live_text(
            provider,
            Some(snippet),
            applies_common(AppType::Codex, provider, Some(snippet), true),
            Ok(text),
        ),
    ensures
        parsed_toml(trimmed(snippet)) is Some,
        is_written_with(text, parsed_toml(trimmed(snippet))->0),
{
    let own = choose|own: Seq<char>| #[trigger]
        is_own_text(provider, own) && own_text_merged(own, Some(snippet), true, Ok(text));
    assert(is_own_text(provider, own));
    let config = parsed_toml(own)->0;
    let common = parsed_toml(trimmed(snippet))->0;
    if is_comparable(common) {
        law_merged_is_part(config, common);
    }
    assert(is_document_text(text, tables_merged(config, common)));
}

/// A Codex provider that uses the common snippet gets it again when it becomes current
/// again: what was stored when another became current still wants the snippet, which is
/// part of what is written for it next.
pub proof fn law_used_snippet_comes_back(
    config: ConfigView,
    id: Seq<char>,
    captured: Result<SnapshotView, ErrorView>,
    live: LiveBefore,
    after: ConfigView,
    action: ActionView,
    text: Seq<char>,
)
    requires
        live is Codex,
        ({
            let current = config.current(AppType::Codex);
            let provider = config.provider(AppType::Codex, current)->0;
            let snippet = config.snippet(AppType::Codex);
            let stored = after.provider(AppType::Codex, current)->0;
            &&& config.provider(AppType::Codex, current) is Some
            &&& uses_common(AppType::Codex, provider, snippet)
            &&& has_own_text(stored)
            &&& live_text(
                stored,
                after.snippet(AppType::Codex),
                applies_common(
                    AppType::Codex,
                    stored,
                    after.snippet(AppType::Codex),
                    prefers_common(stored),
                ),
                Ok(text),
            )
        }),
        switched(config, AppType::Codex, id, false, captured, live, after, Ok(action)),
    ensures
        parsed_toml(trimmed(config.snippet(AppType::Codex)->0)) is Some,
        is_written_with(text, parsed_toml(trimmed(config.snippet(AppType::Codex)->0))->0),
{
    let current = config.current(AppType::Codex);
    law_use_of_snippet_survives_switch(config, id, captured, live, after, action);
    law_used_snippet_is_live(
        after.provider(AppType::Codex, current)->0,
        config.snippet(AppType::Codex)->0,
        text,
    );
}

/// A switch keeps a common snippet that is not blank.
proof fn lemma_switch_keeps_snippet(
    config: ConfigView,
    id: Seq<char>,
    captured: Result<SnapshotView, ErrorView>,
    live: LiveBefore,
    after: ConfigView,
    action: ActionView,
)
    requires
        live is Codex,
        config.snippet(AppType::Codex) is Some,
        !is_blank(config.snippet(AppType::Codex)->0),
        config.provider(AppType::Codex, config.current(AppType::Codex)) is Some,
        switched(config, AppType::Codex, id, false, captured, live, after, Ok(action)),
    ensures
        after.snippet(AppType::Codex) == config.snippet(AppType::Codex),
{
    let current = config.current(AppType::Codex);
    let filled = lemma_successful_switch(
        config,
        AppType::Codex,
        id,
        captured,
        live,
        after,
        action,
    );
    if let LiveBefore::Codex { auth, text } = live {
        if current.len() > 0 && current != id && text@ is Found {
            lemma_backfill_settles(config, id, auth@, text@, filled);
        }
    }
}

/// A Codex provider that uses the common snippet uses it still after a switch to any other
/// provider and back: the second switch hands it out with the same snippet, which is part
/// of what is written for it, where it has a text of its own.
pub proof fn law_used_snippet_survives_switching(
    config: ConfigView,
    second: Seq<char>,
    captured: Result<SnapshotView, ErrorView>,
    live: LiveBefore,
    action: ActionView,
    between: ConfigView,
    auth_read: JsonReadView,
    text_read: TextReadView,
    refreshed: ConfigView,
    captured_again: Result<SnapshotView, ErrorView>,
    live_again: LiveBefore,
    action_again: ActionView,
    after: ConfigView,
    text: Seq<char>,
)
    requires
        live is Codex,
        live_again is Codex,
        second != config.current(AppType::Codex),
        ({
            let first = config.current(AppType::Codex);
            let provider = config.provider(AppType::Codex, first)->0;
            &&& config.provider(AppType::Codex, first) is Some
            &&& uses_common(AppType::Codex, provider, config.snippet(AppType::Codex))
            &&& switched(config, AppType::Codex, second, false, captured, live, between, Ok(action))
            &&& codex_refreshed(between, second, auth_read, text_read, refreshed, Ok(()))
            &&& switched(
                refreshed,
                AppType::Codex,
                first,
                false,
                captured_again,
                live_again,
                after,
                Ok(action_again),
            )
        }),
    ensures
        ({
            let snippet = config.snippet(AppType::Codex);
            let provider = action_again.provider;
            &&& after.snippet(AppType::Codex) == snippet
            &&& action_again.common_config_snippet == snippet
            &&& uses_common(AppType::Codex, provider, snippet)
            &&& has_own_text(provider) && live_text(
                provider,
                snippet,
                applies_common(AppType::Codex, provider, snippet, prefers_common(provider)),
                Ok(text),
            ) ==> parsed_toml(trimmed(snippet->0)) is Some && is_written_with(
                text,
                parsed_toml(trimmed(snippet->0))->0,
            )
        }),
{
    let first = config.current(AppType::Codex);
    let snippet = config.snippet(AppType::Codex);
    let provider = action_again.provider;
    lemma_successful_switch(config, AppType::Codex, second, captured, live, between, action);
    law_use_of_snippet_survives_switch(config, second, captured, live, between, action);
    law_switch_changes_former_current_only(
        config,
        AppType::Codex,
        second,
        false,
        captured,
        live,
        between,
        Ok(action),
    );
    assert(between.managers[AppType::Codex].providers.dom().contains(second));
    assert(between.current(AppType::Codex) == second);
    lemma_refresh_changes_one(between, second, auth_read, text_read, refreshed, first);
    lemma_successful_switch(
        refreshed,
        AppType::Codex,
        first,
        captured_again,
        live_again,
        after,
        action_again,
    );
    lemma_switch_keeps_snippet(
        refreshed,
        first,
        captured_again,
        live_again,
        after,
        action_again,
    );
    if has_own_text(provider) && live_text(
        provider,
        snippet,
        applies_common(AppType::Codex, provider, snippet, prefers_common(provider)),
        Ok(text),
    ) {
        law_used_snippet_is_live(provider, snippet->0, text);
    }
}

/// What a Codex provider has at a path that the common snippet does not touch is found, line
/// by line, in what is written for it; or its text is written as it is.
pub proof fn law_own_lines_are_live(
    provider: ProviderView,
    snippet: Option<Seq<char>>,
    requested: bool,
    text: Seq<char>,
    path: Seq<Seq<char>>,
)
    requires
        !is_official(provider),
        live_text(
            provider,
            snippet,
            applies_common(AppType::Codex, provider, snippet, requested),
            Ok(text),
        ),
        parsed_lines(codex_config_text(provider.settings_config)).contains_key(path),
        snippet matches Some(snippet) ==> !laid_paths(
            parsed_toml(trimmed(snippet))->0,
        ).contains(path),
    ensures
        ({
            let stored = codex_config_text(provider.settings_config);
            text == stored || occurs(text, parsed_lines(stored)[path])
        }),
{
    let apply = applies_common(AppType::Codex, provider, snippet, requested);
    let own = choose|own: Seq<char>| #[trigger]
        is_own_text(provider, own) && own_text_merged(own, snippet, apply, Ok(text));
    assert(is_own_text(provider, own));
}

/// What a live Codex configuration has at a path that the common snippet does not touch is
/// found, line by line, in what is stored of it; or the text is stored as it is. No server
/// is kept elsewhere.
pub proof fn law_live_lines_are_stored(
    uses: bool,
    snippet: Option<Seq<char>>,
    text: Seq<char>,
    stored: Seq<char>,
    path: Seq<Seq<char>>,
)
    requires
        provider_text(uses, snippet, Seq::empty(), text, Ok(stored)),
        parsed_lines(text).contains_key(path),
        !taken_paths(parsed_toml(text_or_empty(snippet))->0).contains(path),
    ensures
        stored == text || occurs(stored, parsed_lines(text)[path]),
{
    let own = choose|own: Result<Seq<char>, ErrorView>| #[trigger]
        own_text(uses, snippet, text, own) && match own {
            Ok(own) => servers_stripped(own, Seq::empty(), Ok(stored)),
            Err(error) => Ok::<Seq<char>, ErrorView>(stored) == Err::<Seq<char>, ErrorView>(error),
        };
    assert(own_text(uses, snippet, text, own));
}

/// A Codex provider that uses the common snippet gets back what its own text holds: what
/// is stored, once the snippet has been taken out of what was written, holds just that. The
/// text shares nothing with the snippet, and the reader finds in the live configuration
/// what was written.
pub proof fn law_used_text_comes_back(
    provider: ProviderView,
    snippet: Seq<char>,
    text: Seq<char>,
    stored: Result<Seq<char>, ErrorView>,
)
    requires
        uses_common(AppType::Codex, provider, Some(snippet)),
        !is_official(provider),
        !is_blank(codex_config_text(provider.settings_config)),
        live_text(
            provider,
            Some(snippet),
            applies_common(AppType::Codex, provider, Some(snippet), true),
            Ok(text),
        ),
        parsed_toml(snippet) == parsed_toml(trimmed(snippet)),
        ({
            let config = parsed_toml(codex_config_text(provider.settings_config))->0;
            let common = parsed_toml(snippet)->0;
            &&& config is Table
            &&& common is Table
            &&& is_comparable(common)
            &&& are_disjoint(config, common)
            &&& parsed_toml(text) == Some(tables_merged(config, common))
        }),
        !is_blank(text),
        config_stripped(text, snippet, stored),
    ensures
        stored is Ok,
        is_document_text(
            stored->Ok_0,
            parsed_toml(codex_config_text(provider.settings_config))->0,
        ),
{
    let own = choose|own: Seq<char>| #[trigger]
        is_own_text(provider, own) && own_text_merged(own, Some(snippet), true, Ok(text));
    assert(is_own_text(provider, own));
    let config = parsed_toml(own)->0;
    let common = parsed_toml(snippet)->0;
    law_stored_table_comes_back(config, common);
}

} // verus!
