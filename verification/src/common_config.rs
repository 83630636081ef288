//! The configuration that the providers of an application share.
use vstd::prelude::*;

use crate::claude::text_field;
use crate::config::{servers_view, ConfigView, McpServerView, MultiAppConfig};
use crate::error::{joined, AppError, ErrorView};
use crate::json::{deep_removed, is_subset, json_deep_remove, json_is_subset, Json, JsonView};
use crate::json_value::parse_json;
use crate::json_value::{json_parse_error, parsed_json};
use crate::model::{AppType, Provider, ProviderView};
use crate::service::ProviderService;
use crate::text::{
    blank, blank_runs_collapsed, collapse_blank_runs, equal_ignoring_case, is_blank, lines,
    same_text_ignoring_case, split_lines, texts, trim, trimmed,
};
use crate::toml_doc::{
    document_view, get, get_mut, is_empty_table, is_table_like, item_view, parse_document, remove,
    root, root_mut, write_document, TomlView,
};
use crate::toml_doc::{
    document_lines, is_edited_text, item_lines, lemma_lines_kept_below, lemma_nothing_below,
    lines_kept, named_paths, parsed_text, parsed_toml, paths_from, paths_in_member,
    toml_parse_error,
};
use crate::toml_ops::{
    item_is_subset, remove_toml_table_like, table_left, taken_paths, toml_item_is_subset,
};

verus! {

/// Whether a Codex provider is the official one: it is marked so, or its category, its
/// website or its name says so.
pub open spec fn is_official(provider: ProviderView) -> bool {
    ||| (provider.meta matches Some(meta) && meta.codex_official == Some(true))
    ||| (provider.category matches Some(category) && equal_ignoring_case(category, "official"@))
    ||| (provider.website_url matches Some(url) && equal_ignoring_case(
        trimmed(url),
        "https://chatgpt.com/codex"@,
    ))
    ||| equal_ignoring_case(trimmed(provider.name), "OpenAI Official"@)
}

/// Tells whether a Codex provider is the official one.
pub fn is_codex_official_provider(provider: &Provider) -> (r: bool)
    ensures
        r == is_official(provider@),
{
    let marked = match &provider.meta {
        Some(meta) => match meta.codex_official {
            Some(official) => official,
            None => false,
        },
        None => false,
    };
    if marked {
        return true;
    }
    if let Some(category) = &provider.category {
        if same_text_ignoring_case(category.as_str(), "official") {
            return true;
        }
    }
    if let Some(url) = &provider.website_url {
        if same_text_ignoring_case(trim(url.as_str()), "https://chatgpt.com/codex") {
            return true;
        }
    }
    same_text_ignoring_case(trim(provider.name.as_str()), "OpenAI Official")
}

/// The configuration text of Codex settings, empty where they have none.
pub open spec fn codex_config_text(settings: JsonView) -> Seq<char> {
    match text_field(settings, "config"@) {
        Some(text) => text,
        None => Seq::empty(),
    }
}

/// Whether the snippet is found in the settings of the provider.
pub open spec fn snippet_found(app_type: AppType, provider: ProviderView, snippet: Seq<char>) -> bool {
    match app_type {
        AppType::Claude | AppType::Gemini => {
            &&& parsed_json(trimmed(snippet)) matches Some(source)
            &&& source is Object
            &&& is_subset(provider.settings_config, source)
        },
        AppType::Codex => {
            let config = codex_config_text(provider.settings_config);
            &&& !is_blank(config)
            &&& parsed_toml(config) matches Some(target)
            &&& parsed_toml(trimmed(snippet)) matches Some(source)
            &&& item_is_subset(target, source)
        },
        AppType::OpenCode | AppType::OpenClaw => false,
    }
}

/// Whether a provider uses the common configuration: what was said about that counts,
/// and where nothing was said, whether the snippet is found in its settings. A blank
/// snippet is used by none.
pub open spec fn uses_common(
    app_type: AppType,
    provider: ProviderView,
    snippet: Option<Seq<char>>,
) -> bool {
    &&& snippet matches Some(text)
    &&& !is_blank(text)
    &&& match provider.apply_common_config() {
        Some(explicit) => explicit,
        None => snippet_found(app_type, provider, text),
    }
}

/// What a snippet says, where there is one.
pub open spec fn maybe_str(text: Option<&str>) -> Option<Seq<char>> {
    match text {
        Some(text) => Some(text@),
        None => None,
    }
}

/// Tells whether a provider uses the common configuration.
pub fn provider_uses_common_config(
    app_type: AppType,
    provider: &Provider,
    snippet: Option<&str>,
) -> (r: bool)
    ensures
        r == uses_common(app_type, provider@, maybe_str(snippet)),
{
    let snippet = match snippet {
        Some(text) => text,
        None => {
            return false;
        },
    };
    let trimmed_snippet = trim(snippet);
    if trimmed_snippet.is_empty() {
        return false;
    }
    if let Some(explicit) = provider.apply_common_config() {
        return explicit;
    }
    match app_type {
        AppType::Claude | AppType::Gemini => match parse_json(trimmed_snippet) {
            Ok(source) => source.is_object() && json_is_subset(&provider.settings_config, &source),
            Err(_) => false,
        },
        AppType::Codex => {
            let config = match provider.settings_config.get("config") {
                Some(value) => match value.as_str() {
                    Some(text) => text,
                    None => "",
                },
                None => "",
            };
            proof {
                reveal_strlit("");
                assert(""@ =~= Seq::empty());
            }
            if blank(config) {
                return false;
            }
            match (parse_document(config), parse_document(trimmed_snippet)) {
                (Ok(target), Ok(source)) => toml_item_is_subset(root(&target), root(&source)),
                _ => false,
            }
        },
        AppType::OpenCode | AppType::OpenClaw => false,
    }
}

/// Whether a provider wants the common configuration, as far as was said.
pub open spec fn prefers_common(provider: ProviderView) -> bool {
    provider.apply_common_config() != Some(false)
}

/// Tells whether a provider wants the common configuration, as far as was said.
pub fn preferred_apply_common_config(provider: &Provider) -> (r: bool)
    ensures
        r == prefers_common(provider@),
{
    match provider.apply_common_config() {
        Some(explicit) => explicit,
        None => true,
    }
}

/// Whether the common configuration goes into the live files of a provider.
pub open spec fn applies_common(
    app_type: AppType,
    provider: ProviderView,
    snippet: Option<Seq<char>>,
    requested: bool,
) -> bool {
    requested && match app_type {
        AppType::Codex => uses_common(app_type, provider, snippet),
        AppType::Claude | AppType::Gemini => prefers_common(provider),
        AppType::OpenCode | AppType::OpenClaw => false,
    }
}

/// Tells whether the common configuration goes into the live files of a provider.
pub fn resolve_live_apply_common_config(
    app_type: AppType,
    provider: &Provider,
    common_config_snippet: Option<&str>,
    requested_apply_common_config: bool,
) -> (r: bool)
    ensures
        r == applies_common(
            app_type,
            provider@,
            maybe_str(common_config_snippet),
            requested_apply_common_config,
        ),
{
    if !requested_apply_common_config {
        return false;
    }
    match app_type {
        AppType::Codex => provider_uses_common_config(app_type, provider, common_config_snippet),
        AppType::Claude | AppType::Gemini => preferred_apply_common_config(provider),
        AppType::OpenCode | AppType::OpenClaw => false,
    }
}

/// A snippet that is not blank is used by a provider that asks for it, not by one that
/// declines it, and where nothing was said, by one whose settings hold it already. It goes
/// into no live file of an application that keeps all providers live at once.
pub proof fn law_who_uses_the_common_snippet(
    app_type: AppType,
    provider: ProviderView,
    snippet: Seq<char>,
    requested: bool,
)
    requires
        !is_blank(snippet),
    ensures
        provider.apply_common_config() == Some(true) ==> uses_common(
            app_type,
            provider,
            Some(snippet),
        ),
        provider.apply_common_config() == Some(false) ==> !uses_common(
            app_type,
            provider,
            Some(snippet),
        ),
        provider.apply_common_config() is None ==> uses_common(app_type, provider, Some(snippet))
            == snippet_found(app_type, provider, snippet),
        app_type.additive() ==> !applies_common(app_type, provider, Some(snippet), requested),
{
}

/// A provider that declines the common configuration never gets it, and neither does a
/// provider of an application without one.
pub proof fn law_declined_is_never_applied(
    app_type: AppType,
    provider: ProviderView,
    snippet: Option<Seq<char>>,
    requested: bool,
)
    ensures
        provider.apply_common_config() == Some(false) ==> {
            &&& !applies_common(app_type, provider, snippet, requested)
            &&& !uses_common(app_type, provider, snippet)
        },
        app_type.additive() ==> !applies_common(app_type, provider, snippet, requested),
{
}

/// The identifiers of the servers that are enabled for Codex.
pub open spec fn codex_server_ids(servers: Seq<McpServerView>) -> Seq<Seq<char>>
    decreases servers.len(),
{
    if servers.len() == 0 {
        Seq::empty()
    } else {
        let before = codex_server_ids(servers.drop_last());
        if servers.last().apps.codex {
            before.push(servers.last().id)
        } else {
            before
        }
    }
}

/// The identifiers of the stored servers that are enabled for Codex.
pub open spec fn synced_ids(config: ConfigView) -> Seq<Seq<char>> {
    match config.mcp_servers {
        Some(servers) => codex_server_ids(servers),
        None => Seq::empty(),
    }
}

/// Lists the identifiers of the stored servers that are enabled for Codex.
pub fn synced_codex_mcp_server_ids(config: &MultiAppConfig) -> (r: Vec<String>)
    ensures
        texts(r@) == synced_ids(config@),
{
    let mut ids: Vec<String> = Vec::new();
    proof {
        assert(texts(ids@) =~= Seq::empty());
    }
    if let Some(servers) = &config.mcp_servers {
        let ghost all = servers_view(servers@);
        let mut i: usize = 0;
        proof {
            assert(all.take(0) =~= Seq::empty());
        }
        while i < servers.len()
            invariant
                i <= servers.len(),
                all == servers_view(servers@),
                texts(ids@) == codex_server_ids(all.take(i as int)),
            decreases servers.len() - i,
        {
            let ghost before = ids@;
            proof {
                assert(all.take(i + 1).drop_last() =~= all.take(i as int));
                assert(all.take(i + 1).last() == servers@[i as int]@);
            }
            if servers[i].apps.codex {
                ids.push(servers[i].id.clone());
                assert(texts(ids@) =~= texts(before).push(servers@[i as int].id@));
            }
            i += 1;
        }
        assert(all.take(i as int) =~= all);
    }
    ids
}

/// What the Anthropic snippet must be.
pub open spec fn claude_snippet_error(snippet: Seq<char>) -> Option<ErrorView> {
    match parsed_json(snippet) {
        None => Some(
            ErrorView::Localized {
                key: "common_config.anthropic.invalid_json"@,
                zh: "Anthropic 通用配置片段不是有效的 JSON："@ + json_parse_error(snippet),
                en: "Anthropic common config snippet is not valid JSON: "@ + json_parse_error(snippet),
            },
        ),
        Some(value) => if value is Object {
            None
        } else {
            Some(
                ErrorView::Localized {
                    key: "common_config.anthropic.not_object"@,
                    zh: "Anthropic 通用配置片段必须是 JSON 对象"@,
                    en: "Anthropic common config snippet must be a JSON object"@,
                },
            )
        },
    }
}

/// What the Gemini snippet must be.
pub open spec fn gemini_snippet_error(snippet: Seq<char>) -> Option<ErrorView> {
    match parsed_json(snippet) {
        None => Some(
            ErrorView::Localized {
                key: "common_config.gemini.invalid_json"@,
                zh: "Gemini 通用配置片段不是有效的 JSON："@ + json_parse_error(snippet),
                en: "Gemini common config snippet is not valid JSON: "@ + json_parse_error(snippet),
            },
        ),
        Some(value) => if value is Object {
            None
        } else {
            Some(
                ErrorView::Localized {
                    key: "common_config.gemini.not_object"@,
                    zh: "Gemini 通用配置片段必须是 JSON 对象"@,
                    en: "Gemini common config snippet must be a JSON object"@,
                },
            )
        },
    }
}

impl ProviderService {
    /// Reads the Anthropic snippet, which must be a JSON object.
    pub fn parse_common_claude_config_snippet(snippet: &str) -> (r: Result<Json, AppError>)
        ensures
            match r {
                Ok(value) => claude_snippet_error(snippet@) is None && parsed_json(snippet@)
                    == Some(value@),
                Err(error) => claude_snippet_error(snippet@) == Some(error@),
            },
    {
        match parse_json(snippet) {
            Ok(value) => {
                if !value.is_object() {
                    return Err(
                        AppError::fixed(
                            "common_config.anthropic.not_object",
                            "Anthropic 通用配置片段必须是 JSON 对象",
                            "Anthropic common config snippet must be a JSON object",
                        ),
                    );
                }
                Ok(value)
            },
            Err(message) => Err(
                AppError::localized(
                    "common_config.anthropic.invalid_json",
                    joined("Anthropic 通用配置片段不是有效的 JSON：", message.as_str()),
                    joined("Anthropic common config snippet is not valid JSON: ", message.as_str()),
                ),
            ),
        }
    }

    /// Reads the Gemini snippet, which must be a JSON object.
    pub fn parse_common_gemini_config_snippet(snippet: &str) -> (r: Result<Json, AppError>)
        ensures
            match r {
                Ok(value) => gemini_snippet_error(snippet@) is None && parsed_json(snippet@)
                    == Some(value@),
                Err(error) => gemini_snippet_error(snippet@) == Some(error@),
            },
    {
        match parse_json(snippet) {
            Ok(value) => {
                if !value.is_object() {
                    return Err(
                        AppError::fixed(
                            "common_config.gemini.not_object",
                            "Gemini 通用配置片段必须是 JSON 对象",
                            "Gemini common config snippet must be a JSON object",
                        ),
                    );
                }
                Ok(value)
            },
            Err(message) => Err(
                AppError::localized(
                    "common_config.gemini.invalid_json",
                    joined("Gemini 通用配置片段不是有效的 JSON：", message.as_str()),
                    joined("Gemini common config snippet is not valid JSON: ", message.as_str()),
                ),
            ),
        }
    }
}

/// Takes the common settings out of settings.
pub fn strip_common_values(target: &mut Json, common: &Json)
    ensures
        final(target)@ == deep_removed(old(target)@, common@),
{
    json_deep_remove(target, common);
}

/// What the text of a configuration is after the common snippet has been taken out of
/// it: unchanged where either is blank.
pub open spec fn config_stripped(
    config_text: Seq<char>,
    common_snippet: Seq<char>,
    result: Result<Seq<char>, ErrorView>,
) -> bool {
    if is_blank(common_snippet) || is_blank(config_text) {
        result == Ok::<Seq<char>, ErrorView>(config_text)
    } else {
        match (parsed_toml(config_text), parsed_toml(common_snippet)) {
            (None, _) => result == Err::<Seq<char>, ErrorView>(
                ErrorView::Config("TOML parse error: "@ + toml_parse_error(config_text)),
            ),
            (Some(_), None) => result == Err::<Seq<char>, ErrorView>(
                ErrorView::Config(
                    "Common config TOML parse error: "@ + toml_parse_error(common_snippet),
                ),
            ),
            (Some(target), Some(source)) => {
                &&& result matches Ok(text)
                &&& is_edited_text(
                    text,
                    config_text,
                    table_left(target, source),
                    taken_paths(source),
                )
            },
        }
    }
}

/// What a text or an error says.
pub open spec fn outcome(result: Result<String, AppError>) -> Result<Seq<char>, ErrorView> {
    match result {
        Ok(text) => Ok(text@),
        Err(error) => Err(error@),
    }
}

/// Takes the common snippet out of the text of a Codex configuration, so that it is not
/// stored with each provider.
pub fn strip_codex_common_config_from_full_text(
    config_text: &str,
    common_snippet: &str,
) -> (r: Result<String, AppError>)
    ensures
        config_stripped(config_text@, common_snippet@, outcome(r)),
{
    if blank(common_snippet) || blank(config_text) {
        return Ok(config_text.to_owned());
    }
    let mut target = match parse_document(config_text) {
        Ok(document) => document,
        Err(message) => {
            return Err(AppError::Config(joined("TOML parse error: ", message.as_str())));
        },
    };
    let source = match parse_document(common_snippet) {
        Ok(document) => document,
        Err(message) => {
            return Err(
                AppError::Config(joined("Common config TOML parse error: ", message.as_str())),
            );
        },
    };
    remove_toml_table_like(root_mut(&mut target), root(&source));
    Ok(write_document(&target))
}

/// A table without the members of these names.
pub open spec fn without_names(table: TomlView, names: Seq<Seq<char>>) -> TomlView {
    table.with_members(
        Map::new(
            |key: Seq<char>| table.members().contains_key(key) && !names.contains(key),
            |key: Seq<char>| table.members()[key],
        ),
    )
}

/// A Codex configuration without these servers; the table of servers goes too where
/// nothing is left in it.
pub open spec fn without_servers(config: TomlView, ids: Seq<Seq<char>>) -> TomlView {
    let servers = config.member("mcp_servers"@);
    if servers.is_table_like() {
        let rest = without_names(servers, ids);
        if rest.members() =~= Map::empty() {
            config.with_member("mcp_servers"@, TomlView::Nothing)
        } else {
            config.with_member("mcp_servers"@, rest)
        }
    } else {
        config
    }
}

/// What the text of a configuration is after these servers have been taken out of it:
/// unchanged where there are none or it is blank.
pub open spec fn servers_stripped(
    config_text: Seq<char>,
    ids: Seq<Seq<char>>,
    result: Result<Seq<char>, ErrorView>,
) -> bool {
    if ids.len() == 0 || is_blank(config_text) {
        result == Ok::<Seq<char>, ErrorView>(config_text)
    } else {
        match parsed_toml(config_text) {
            None => result == Err::<Seq<char>, ErrorView>(
                ErrorView::Config("TOML parse error: "@ + toml_parse_error(config_text)),
            ),
            Some(config) => {
                &&& result matches Ok(text)
                &&& is_edited_text(
                    text,
                    config_text,
                    without_servers(config, ids),
                    paths_in_member("mcp_servers"@, ids),
                )
            },
        }
    }
}

/// Takes the members of these names out of a table.
fn remove_names(table: &mut toml_edit::Item, names: &Vec<String>)
    requires
        item_view(*old(table)).is_table_like(),
    ensures
        item_view(*final(table)) == without_names(
            item_view(*old(table)),
            texts(names@),
        ),
        lines_kept(item_lines(*old(table)), item_lines(*final(table)), named_paths(texts(names@))),
{
    let ghost before = item_view(*table);
    let mut i: usize = 0;
    proof {
        assert(texts(names@).take(0) =~= Seq::empty());
        assert(before.members() =~= without_names(before, texts(names@).take(0)).members());
    }
    while i < names.len()
        invariant
            i <= names.len(),
            before.is_table_like(),
            item_view(*table) == without_names(
                before,
                texts(names@).take(i as int),
            ),
            lines_kept(
                item_lines(*old(table)),
                item_lines(*table),
                named_paths(texts(names@)),
            ),
        decreases names.len() - i,
    {
        proof {
            let upto = texts(names@).take(i as int);
            let next = texts(names@).take(i + 1);
            assert(next =~= upto.push(names@[i as int]@));
            assert forall|key: Seq<char>| #[trigger] next.contains(key) <==> upto.contains(key)
                || key == names@[i as int]@ by {
                if upto.contains(key) {
                    let j = choose|j: int| 0 <= j < upto.len() && upto[j] == key;
                    assert(next[j] == key);
                }
                if key == names@[i as int]@ {
                    assert(next[i as int] == key);
                }
            }
            assert(without_names(before, next).members() =~= without_names(
                before,
                upto,
            ).members().remove(names@[i as int]@));
        }
        let ghost lines_before = item_lines(*table);
        remove(table, names[i].as_str());
        proof {
            assert(texts(names@)[i as int] == names@[i as int]@);
            assert forall|path: Seq<Seq<char>>| #[trigger]
                lines_before.contains_key(path) && !named_paths(texts(names@)).contains(
                    path,
                ) implies !paths_from(names@[i as int]@).contains(path) by {}
        }
        i += 1;
    }
    assert(texts(names@).take(i as int) =~= texts(names@));
}

/// Takes these servers out of the text of a Codex configuration.
pub fn strip_codex_synced_mcp_servers_from_full_text(
    config_text: &str,
    synced_server_ids: &Vec<String>,
) -> (r: Result<String, AppError>)
    ensures
        servers_stripped(config_text@, texts(synced_server_ids@), outcome(r)),
{
    if synced_server_ids.len() == 0 || blank(config_text) {
        return Ok(config_text.to_owned());
    }
    let mut document = match parse_document(config_text) {
        Ok(document) => document,
        Err(message) => {
            return Err(AppError::Config(joined("TOML parse error: ", message.as_str())));
        },
    };
    let ghost before = document_view(document);
    let ghost touched = paths_in_member("mcp_servers"@, texts(synced_server_ids@));
    let ghost lines_before = document_lines(document);
    let config = root_mut(&mut document);
    let mut empty = false;
    let ghost mut found = false;
    if let Some(servers) = get_mut(config, "mcp_servers") {
        proof {
            found = true;
        }
        if is_table_like(servers) {
            remove_names(servers, synced_server_ids);
            empty = is_empty_table(servers);
        }
    }
    let ghost lines_between = item_lines(*config);
    proof {
        if found {
            lemma_lines_kept_below(
                lines_before,
                lines_between,
                "mcp_servers"@,
                named_paths(texts(synced_server_ids@)),
                touched,
            );
        }
        assert(lines_kept(lines_before, lines_between, touched));
    }
    proof {
        let servers = before.member("mcp_servers"@);
        let now = item_view(*config);
        if !servers.is_table_like() {
            assert(now.members() =~= before.members());
        }
    }
    if empty {
        remove(config, "mcp_servers");
        proof {
            let now = item_view(*config);
            assert(now.members() =~= before.members().remove("mcp_servers"@));
            lemma_nothing_below(lines_between, item_lines(*config), "mcp_servers"@, touched);
        }
    }
    Ok(write_document(&document))
}

/// The part of a Codex configuration that does not belong to one provider or to what was
/// decided on this machine.
pub open spec fn common_part(config: TomlView) -> TomlView {
    config.with_member("model"@, TomlView::Nothing).with_member(
        "model_provider"@,
        TomlView::Nothing,
    ).with_member("base_url"@, TomlView::Nothing).with_member(
        "model_providers"@,
        TomlView::Nothing,
    ).with_member("projects"@, TomlView::Nothing).with_member(
        "trusted_workspaces"@,
        TomlView::Nothing,
    )
}

/// The keys that are not among the common part of a Codex configuration.
pub open spec fn own_keys() -> Seq<Seq<char>> {
    seq![
        "model"@,
        "model_provider"@,
        "base_url"@,
        "model_providers"@,
        "projects"@,
        "trusted_workspaces"@,
    ]
}

/// A text without runs of blank lines and without blanks at its ends.
pub open spec fn tidied(text: Seq<char>) -> Seq<char> {
    trimmed(blank_runs_collapsed(split_lines(text), false))
}

/// Whether a text is how the common part of a configuration is written. Where that is all
/// there is, nothing is changed.
pub open spec fn is_common_text(written: Seq<char>, original: Seq<char>, config: TomlView) -> bool {
    &&& is_edited_text(written, original, common_part(config), named_paths(own_keys()))
    &&& common_part(config) == config ==> written == parsed_text(original)
}

/// Whether a text is how the common part of a configuration is kept.
pub open spec fn is_kept_text(text: Seq<char>, original: Seq<char>, config: TomlView) -> bool {
    exists|written: Seq<char>| #[trigger]
        is_common_text(written, original, config) && text == tidied(written)
}

/// The common snippet that a Codex configuration gives.
pub open spec fn snippet_extracted(
    config_toml: Seq<char>,
    result: Result<Seq<char>, ErrorView>,
) -> bool {
    if is_blank(config_toml) {
        result == Ok::<Seq<char>, ErrorView>(Seq::empty())
    } else {
        match parsed_toml(trimmed(config_toml)) {
            None => result == Err::<Seq<char>, ErrorView>(
                ErrorView::Message("TOML parse error: "@ + toml_parse_error(trimmed(config_toml))),
            ),
            Some(config) => {
                &&& result matches Ok(text)
                &&& is_kept_text(text, trimmed(config_toml), config)
            },
        }
    }
}

/// Tells whether a configuration has a member of that name.
fn has_member(config: &toml_edit::Item, key: &str) -> (r: bool)
    ensures
        r == item_view(*config).members().contains_key(key@),
{
    get(config, key).is_some()
}

/// Tells whether anything in a configuration is not among the common part.
fn has_own_part(config: &toml_edit::Item) -> (r: bool)
    requires
        item_view(*config) is Table,
    ensures
        r == (common_part(item_view(*config)) != item_view(*config)),
{
    let r = has_member(config, "model") || has_member(config, "model_provider") || has_member(
        config,
        "base_url",
    ) || has_member(config, "model_providers") || has_member(config, "projects") || has_member(
        config,
        "trusted_workspaces",
    );
    proof {
        let whole = item_view(*config);
        let part = common_part(whole);
        if r {
            let i = choose|i: int|
                0 <= i < own_keys().len() && whole.members().contains_key(#[trigger] own_keys()[i]);
            assert(own_keys()[0] == "model"@);
            assert(own_keys()[1] == "model_provider"@);
            assert(own_keys()[2] == "base_url"@);
            assert(own_keys()[3] == "model_providers"@);
            assert(own_keys()[4] == "projects"@);
            assert(own_keys()[5] == "trusted_workspaces"@);
            assert(!part.members().contains_key(own_keys()[i]));
        } else {
            assert(part.members() =~= whole.members());
        }
    }
    r
}

/// Takes one of the keys that are not among the common part out of a configuration.
fn remove_own_key(config: &mut toml_edit::Item, key: &str, place: Ghost<int>)
    requires
        0 <= place@ < own_keys().len(),
        key@ == own_keys()[place@],
    ensures
        item_view(*final(config)) == item_view(*old(config)).with_member(
            key@,
            TomlView::Nothing,
        ),
        lines_kept(item_lines(*old(config)), item_lines(*final(config)), named_paths(own_keys())),
{
    remove(config, key);
    assert(own_keys().contains(own_keys()[place@]));
}

impl ProviderService {
    /// Reads the common snippet out of a Codex configuration.
    pub fn extract_codex_common_config_from_config_toml(config_toml: &str) -> (r: Result<
        String,
        AppError,
    >)
        ensures
            snippet_extracted(config_toml@, outcome(r)),
    {
        let config_toml = trim(config_toml);
        if config_toml.is_empty() {
            let none = String::new();
            assert(none@ =~= Seq::empty());
            return Ok(none);
        }
        let mut document = match parse_document(config_toml) {
            Ok(document) => document,
            Err(message) => {
                return Err(AppError::Message(joined("TOML parse error: ", message.as_str())));
            },
        };
        if has_own_part(root(&document)) {
            let config = root_mut(&mut document);
            remove_own_key(config, "model", Ghost(0));
            remove_own_key(config, "model_provider", Ghost(1));
            // Older configurations keep the address at the uppermost level.
            remove_own_key(config, "base_url", Ghost(2));
            remove_own_key(config, "model_providers", Ghost(3));
            // Codex notes here which directories are trusted on this machine.
            remove_own_key(config, "projects", Ghost(4));
            remove_own_key(config, "trusted_workspaces", Ghost(5));
        }
        let written = write_document(&document);
        let collapsed = collapse_blank_runs(&lines(written.as_str()));
        let text = trim(collapsed.as_str()).to_owned();
        proof {
            assert(is_common_text(written@, config_toml@, parsed_toml(config_toml@)->0));
        }
        Ok(text)
    }
}

} // verus!
