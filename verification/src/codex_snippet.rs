//! How the common Codex snippet is taken out of what is stored with each provider.
use vstd::prelude::*;

use crate::codex::stored_config_text;
use crate::common_config::{
    codex_config_text, config_stripped, maybe_str, outcome, provider_uses_common_config,
    strip_codex_common_config_from_full_text, uses_common,
};
use crate::config::{ConfigView, ManagerView, MultiAppConfig, ProviderManager};
use crate::error::{joined, AppError, ErrorView};
use crate::json::{Json, JsonView};
use crate::live_files::unit_outcome;
use crate::model::{AppType, Provider, ProviderView};
use crate::providers::{find_mut, list_ids};
use crate::service::ProviderService;
use crate::snapshots::text_or_empty;
use crate::text::{is_blank, same_text, texts, trim, trimmed};
use crate::toml_doc::{
    get_mut, is_empty_table, is_table_like, parse_document, remove, root_mut, write_document,
    TomlView,
};
use crate::toml_doc::{
    is_edited_text, item_lines, item_view, lemma_lines_kept_below, lemma_nothing_below, lines_kept,
    named_paths, parsed_toml, paths_from, paths_in_member, toml_parse_error,
};

verus! {

/// A Codex configuration without any server of the model context protocol, under either
/// of the names that were used for them.
pub open spec fn without_any_server(config: TomlView) -> TomlView {
    let rest = config.with_member("mcp_servers"@, TomlView::Nothing);
    let mcp = rest.member("mcp"@);
    if mcp.is_table_like() {
        let left = mcp.with_member("servers"@, TomlView::Nothing);
        if left.members() =~= Map::empty() {
            rest.with_member("mcp"@, TomlView::Nothing)
        } else {
            rest.with_member("mcp"@, left)
        }
    } else {
        rest
    }
}

/// The paths at which something can change when all servers are taken out of a
/// configuration.
pub open spec fn any_server_paths() -> Set<Seq<Seq<char>>> {
    paths_from("mcp_servers"@).union(paths_in_member("mcp"@, seq!["servers"@]))
}

/// What is stored of the text of a Codex configuration once all servers are out of it.
pub open spec fn all_servers_stripped(
    config_toml: Seq<char>,
    result: Result<Seq<char>, ErrorView>,
) -> bool {
    if is_blank(config_toml) {
        result == Ok::<Seq<char>, ErrorView>(Seq::empty())
    } else {
        match parsed_toml(trimmed(config_toml)) {
            None => result == Err::<Seq<char>, ErrorView>(
                ErrorView::Config("TOML parse error: "@ + toml_parse_error(trimmed(config_toml))),
            ),
            Some(config) => {
                &&& result matches Ok(text)
                &&& is_edited_text(
                    text,
                    trimmed(config_toml),
                    without_any_server(config),
                    any_server_paths(),
                )
            },
        }
    }
}

/// What a Codex provider is after the common snippet has been taken out of it: unchanged
/// where it does not use the snippet.
pub open spec fn snippet_taken_out(
    provider: ProviderView,
    snippet: Option<Seq<char>>,
    result: Result<ProviderView, ErrorView>,
) -> bool {
    if uses_common(AppType::Codex, provider, snippet) {
        exists|text: Result<Seq<char>, ErrorView>| #[trigger]
            config_stripped(
                codex_config_text(provider.settings_config),
                text_or_empty(snippet),
                text,
            ) && match text {
                Err(error) => result == Err::<ProviderView, ErrorView>(error),
                Ok(text) => result == Ok::<ProviderView, ErrorView>(
                    provider.noted_common().with_settings(
                        with_config_text(provider.settings_config, text),
                    ),
                ),
            }
    } else {
        result == Ok::<ProviderView, ErrorView>(provider)
    }
}

/// Codex settings with another text of the configuration; what is no object stays as it
/// is.
pub open spec fn with_config_text(settings: JsonView, text: Seq<char>) -> JsonView {
    match settings {
        JsonView::Object(members) => JsonView::Object(
            members.insert("config"@, JsonView::Str(text)),
        ),
        _ => settings,
    }
}

impl ProviderService {
    /// Takes all servers of the model context protocol out of the text of a Codex
    /// configuration.
    pub fn strip_codex_mcp_servers_from_snapshot_config(config_toml: &str) -> (r: Result<
        String,
        AppError,
    >)
        ensures
            all_servers_stripped(config_toml@, outcome(r)),
    {
        let config_toml = trim(config_toml);
        if config_toml.is_empty() {
            let none = String::new();
            assert(none@ =~= Seq::empty());
            return Ok(none);
        }
        let mut document = match parse_document(config_toml) {
            Ok(document) => document,
            Err(message) => {
                return Err(AppError::Config(joined("TOML parse error: ", message.as_str())));
            },
        };
        let config = root_mut(&mut document);
        let ghost touched = any_server_paths();
        let ghost lines_before = item_lines(*config);
        remove(config, "mcp_servers");
        let ghost rest = item_view(*config);
        let ghost lines_left = item_lines(*config);
        let mut empty = false;
        let ghost mut found = false;
        if let Some(mcp) = get_mut(config, "mcp") {
            proof {
                found = true;
            }
            if is_table_like(mcp) {
                remove(mcp, "servers");
                empty = is_empty_table(mcp);
            }
        }
        let ghost lines_between = item_lines(*config);
        proof {
            let names = seq!["servers"@];
            assert(names[0] == "servers"@);
            if found {
                lemma_lines_kept_below(
                    lines_left,
                    lines_between,
                    "mcp"@,
                    named_paths(names),
                    touched,
                );
            }
            assert(lines_kept(lines_before, lines_between, touched));
            if !rest.member("mcp"@).is_table_like() {
                assert(item_view(*config).members() =~= rest.members());
            }
        }
        if empty {
            remove(config, "mcp");
            proof {
                assert(item_view(*config).members() =~= rest.members().remove("mcp"@));
                lemma_nothing_below(lines_between, item_lines(*config), "mcp"@, touched);
            }
        }
        Ok(write_document(&document))
    }

    /// Takes the common snippet out of a Codex provider, where it uses it.
    pub fn strip_common_codex_config_from_provider(
        provider: &mut Provider,
        common_config_snippet: Option<&str>,
    ) -> (r: Result<(), AppError>)
        ensures
            snippet_taken_out(
                old(provider)@,
                maybe_str(common_config_snippet),
                match r {
                    Ok(_) => Ok(final(provider)@),
                    Err(error) => Err(error@),
                },
            ),
            r is Err ==> final(provider)@ == old(provider)@,
    {
        if !provider_uses_common_config(AppType::Codex, provider, common_config_snippet) {
            return Ok(());
        }
        let snippet = match common_config_snippet {
            Some(snippet) => snippet,
            None => {
                return Ok(());
            },
        };
        let text = strip_codex_common_config_from_full_text(
            stored_config_text(&provider.settings_config),
            snippet,
        );
        assert(config_stripped(
            codex_config_text(provider@.settings_config),
            text_or_empty(maybe_str(common_config_snippet)),
            outcome(text),
        ));
        let text = match text {
            Ok(text) => text,
            Err(error) => {
                return Err(error);
            },
        };
        provider.note_common();
        if provider.settings_config.is_object() {
            provider.settings_config.insert("config", Json::Str(text));
        }
        Ok(())
    }
}

/// Whether a provider is what it was after an attempt to take the snippet out of it: one
/// that fails leaves it as it was.
pub open spec fn snippet_tried(
    before: ProviderView,
    snippet: Seq<char>,
    after: ProviderView,
) -> bool {
    exists|result: Result<ProviderView, ErrorView>| #[trigger]
        snippet_taken_out(before, Some(snippet), result) && after == (match result {
            Ok(provider) => provider,
            Err(_) => before,
        })
}

/// Whether the snippet has been taken out of a provider.
pub open spec fn snippet_gone(before: ProviderView, snippet: Seq<char>, after: ProviderView) -> bool {
    snippet_taken_out(before, Some(snippet), Ok(after))
}

/// Whether taking the snippet out of a provider fails with this error.
pub open spec fn snippet_sticks(before: ProviderView, snippet: Seq<char>, error: ErrorView) -> bool {
    snippet_taken_out(before, Some(snippet), Err(error))
}

/// The providers after the snippet has been taken out of the current one, and as far as
/// that can be done out of the others.
pub open spec fn migrated_around(
    before: ManagerView,
    current: Seq<char>,
    snippet: Seq<char>,
    after: ManagerView,
) -> bool {
    &&& after.ids == before.ids
    &&& after.current == before.current
    &&& after.providers.dom() == before.providers.dom()
    &&& snippet_gone(before.providers[current], snippet, after.providers[current])
    &&& forall|id: Seq<char>| #[trigger]
        before.providers.contains_key(id) && id != current ==> snippet_tried(
            before.providers[id],
            snippet,
            after.providers[id],
        )
}

/// The providers after the snippet has been taken out of the first so many of them.
pub open spec fn migrated_upto(
    before: ManagerView,
    snippet: Seq<char>,
    count: int,
    after: ManagerView,
) -> bool {
    &&& 0 <= count <= before.ids.len()
    &&& after.ids == before.ids
    &&& after.current == before.current
    &&& after.providers.dom() == before.providers.dom()
    &&& forall|i: int|
        0 <= i < count ==> snippet_gone(
            before.providers[#[trigger] before.ids[i]],
            snippet,
            after.providers[before.ids[i]],
        )
    &&& forall|i: int|
        count <= i < before.ids.len() ==> after.providers[#[trigger] before.ids[i]]
            == before.providers[before.ids[i]]
}

/// Takes the snippet out of all providers, one after the other, until one fails. The
/// result tells how many were reached.
fn strip_all(manager: &mut ProviderManager, snippet: &str) -> (r: (
    usize,
    Result<(), AppError>,
))
    ensures
        migrated_upto(old(manager)@, snippet@, r.0 as int, final(manager)@),
        match r.1 {
            Ok(_) => r.0 == old(manager)@.ids.len(),
            Err(error) => r.0 < old(manager)@.ids.len() && snippet_sticks(
                old(manager)@.providers[old(manager)@.ids[r.0 as int]],
                snippet@,
                error@,
            ),
        },
{
    let ids = list_ids(&manager.providers);
    let ghost before = manager@;
    let mut i: usize = 0;
    while i < ids.len()
        invariant
            i <= ids.len(),
            before == old(manager)@,
            texts(ids@) == before.ids,
            before.ids.no_duplicates(),
            before.ids.to_set() == before.providers.dom(),
            migrated_upto(before, snippet@, i as int, manager@),
        decreases ids.len() - i,
    {
        let ghost partly = manager@;
        let ghost id = before.ids[i as int];
        proof {
            assert(texts(ids@)[i as int] == ids@[i as int]@);
            assert(before.ids.to_set().contains(id));
            assert(partly.providers.dom().contains(id));
        }
        if let Some(provider) = find_mut(&mut manager.providers, ids[i].as_str()) {
            let r = ProviderService::strip_common_codex_config_from_provider(
                provider,
                Some(snippet),
            );
            match r {
                Ok(_) => {},
                Err(error) => {
                    proof {
                        assert(manager@.providers =~= partly.providers);
                    }
                    return (i, Err(error));
                },
            }
        }
        proof {
            assert(manager@.providers.dom() =~= before.providers.dom());
            assert forall|j: int| 0 <= j < i + 1 implies snippet_gone(
                before.providers[#[trigger] before.ids[j]],
                snippet@,
                manager@.providers[before.ids[j]],
            ) by {
                if j < i {
                    assert(before.ids[j] != id);
                }
            }
            assert forall|j: int| i + 1 <= j < before.ids.len() implies manager@.providers[
            #[trigger] before.ids[j]] == before.providers[before.ids[j]] by {
                assert(before.ids[j] != id);
            }
        }
        i += 1;
    }
    (i, Ok(()))
}

/// Takes the snippet out of all providers but the current one, as far as that can be done.
fn strip_others(manager: &mut ProviderManager, current: &str, snippet: &str)
    requires
        old(manager)@.providers.contains_key(current@),
    ensures
        final(manager)@.ids == old(manager)@.ids,
        final(manager)@.current == old(manager)@.current,
        final(manager)@.providers.dom() == old(manager)@.providers.dom(),
        final(manager)@.providers[current@] == old(manager)@.providers[current@],
        forall|id: Seq<char>| #[trigger]
            old(manager)@.providers.contains_key(id) && id != current@ ==> snippet_tried(
                old(manager)@.providers[id],
                snippet@,
                final(manager)@.providers[id],
            ),
{
    let ids = list_ids(&manager.providers);
    let ghost before = manager@;
    let mut i: usize = 0;
    while i < ids.len()
        invariant
            i <= ids.len(),
            texts(ids@) == before.ids,
            before.ids.no_duplicates(),
            before.ids.to_set() == before.providers.dom(),
            before.providers.contains_key(current@),
            manager@.ids == before.ids,
            manager@.current == before.current,
            manager@.providers.dom() == before.providers.dom(),
            manager@.providers[current@] == before.providers[current@],
            forall|j: int|
                0 <= j < i && #[trigger] before.ids[j] != current@ ==> snippet_tried(
                    before.providers[before.ids[j]],
                    snippet@,
                    manager@.providers[before.ids[j]],
                ),
            forall|j: int|
                i <= j < before.ids.len() ==> manager@.providers[#[trigger] before.ids[j]]
                    == before.providers[before.ids[j]],
        decreases ids.len() - i,
    {
        let ghost partly = manager@;
        let ghost id = before.ids[i as int];
        proof {
            assert(texts(ids@)[i as int] == ids@[i as int]@);
            assert(before.ids.to_set().contains(id));
            assert(partly.providers.dom().contains(id));
        }
        if !same_text(ids[i].as_str(), current) {
            if let Some(provider) = find_mut(&mut manager.providers, ids[i].as_str()) {
                let ghost was = provider@;
                let r = ProviderService::strip_common_codex_config_from_provider(
                    provider,
                    Some(snippet),
                );
                proof {
                    let result = match r {
                        Ok(_) => Ok(provider@),
                        Err(error) => Err(error@),
                    };
                    assert(snippet_taken_out(was, Some(snippet@), result));
                    assert(snippet_tried(was, snippet@, provider@));
                }
            }
        }
        proof {
            assert(manager@.providers.dom() =~= before.providers.dom());
            assert forall|j: int| 0 <= j < i + 1 && #[trigger] before.ids[j]
                != current@ implies snippet_tried(
                before.providers[before.ids[j]],
                snippet@,
                manager@.providers[before.ids[j]],
            ) by {
                if j < i {
                    assert(before.ids[j] != id);
                }
            }
            assert forall|j: int| i + 1 <= j < before.ids.len() implies manager@.providers[
            #[trigger] before.ids[j]] == before.providers[before.ids[j]] by {
                assert(before.ids[j] != id);
            }
        }
        i += 1;
    }
    proof {
        assert forall|id: Seq<char>| #[trigger] before.providers.contains_key(id) && id
            != current@ implies snippet_tried(
            before.providers[id],
            snippet@,
            manager@.providers[id],
        ) by {
            assert(before.ids.to_set().contains(id));
            let j = choose|j: int| 0 <= j < before.ids.len() && before.ids[j] == id;
            assert(before.ids[j] == id);
        }
    }
}

/// The configuration after an old snippet has been taken out of the Codex providers. Where
/// the current provider is known, it must not fail, and the others may; where it is not,
/// the first that fails ends it.
pub open spec fn snippet_migrated(
    config: ConfigView,
    current: Option<Seq<char>>,
    old_snippet: Seq<char>,
    after: ConfigView,
    result: Result<(), ErrorView>,
) -> bool {
    let snippet = trimmed(old_snippet);
    if snippet.len() == 0 || !config.managers.contains_key(AppType::Codex) {
        result is Ok && after == config
    } else {
        let before = config.managers[AppType::Codex];
        let changed = after.managers[AppType::Codex];
        &&& after == config.with_manager(AppType::Codex, changed)
        &&& match current {
            Some(id) if before.providers.contains_key(id) => match result {
                Ok(_) => migrated_around(before, id, snippet, changed),
                Err(error) => changed == before && snippet_sticks(
                    before.providers[id],
                    snippet,
                    error,
                ),
            },
            _ => match result {
                Ok(_) => migrated_upto(before, snippet, before.ids.len() as int, changed),
                Err(error) => exists|count: int| #[trigger]
                    migrated_upto(before, snippet, count, changed) && count < before.ids.len()
                        && snippet_sticks(before.providers[before.ids[count]], snippet, error),
            },
        }
    }
}

impl ProviderService {
    /// Takes an old common snippet out of the Codex providers.
    pub fn migrate_codex_common_config_snippet(
        config: &mut MultiAppConfig,
        strict_current_provider_id: Option<&str>,
        old_snippet: &str,
    ) -> (r: Result<(), AppError>)
        ensures
            snippet_migrated(
                old(config)@,
                maybe_str(strict_current_provider_id),
                old_snippet@,
                final(config)@,
                unit_outcome(r),
            ),
    {
        let snippet = trim(old_snippet);
        if snippet.is_empty() {
            return Ok(());
        }
        let ghost before = config@;
        let manager = match config.get_manager_mut(AppType::Codex) {
            Some(manager) => manager,
            None => {
                return Ok(());
            },
        };
        let ghost start = manager@;
        if let Some(id) = strict_current_provider_id {
            if let Some(provider) = find_mut(&mut manager.providers, id) {
                let r = Self::strip_common_codex_config_from_provider(provider, Some(snippet));
                match r {
                    Err(error) => {
                        assert(manager@.providers =~= start.providers);
                        return Err(error);
                    },
                    Ok(_) => {},
                }
                let ghost after_current = manager@;
                assert(after_current.providers.dom() =~= start.providers.dom());
                strip_others(manager, id, snippet);
                assert(migrated_around(start, id@, snippet@, manager@)) by {
                    assert forall|other: Seq<char>| #[trigger]
                        start.providers.contains_key(other) && other != id@ implies snippet_tried(
                        start.providers[other],
                        snippet@,
                        manager@.providers[other],
                    ) by {
                        assert(after_current.providers.contains_key(other));
                    }
                }
                return Ok(());
            }
        }
        let (count, r) = strip_all(manager, snippet);
        assert(migrated_upto(start, snippet@, count as int, manager@));
        r
    }
}

} // verus!
