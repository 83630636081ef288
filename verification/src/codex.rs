//! The settings of Codex providers: the text of a configuration, and how the provider is
//! authenticated.
use vstd::prelude::*;

use crate::common_config::{
    codex_config_text, is_codex_official_provider, is_official, maybe_str, outcome,
};
use crate::error::{joined, AppError, ErrorView};
use crate::json::{field, lemma_no_members, Json, JsonView};
use crate::model::{Provider, ProviderView};
use crate::service::ProviderService;
use crate::text::{blank, is_blank, trim, trimmed};
use crate::toml_doc::{
    flag_item, get, get_mut, insert, is_table_like, item_text, parse_document, root, root_mut,
    text_item, write_document, TomlView,
};
use crate::toml_doc::{
    is_edited_text, item_lines, item_view, lemma_lines_kept_below, lines_kept, named_paths,
    parsed_toml, paths_from, paths_in_member, paths_in_section, toml_parse_error,
};
use crate::toml_ops::{laid_paths, merge_toml_tables, tables_merged};
use crate::toml_plain::{config_toml_error, validate_config_toml};

verus! {

/// A section with a value under a name that was free.
pub open spec fn with_free_member(
    section: TomlView,
    key: Seq<char>,
    member: TomlView,
) -> TomlView {
    if section.members().contains_key(key) {
        section
    } else {
        section.with_member(key, member)
    }
}

/// The configuration with what the section of the official provider must say: the
/// section that `model_provider` names talks to the responses interface, and is
/// authenticated by the user's account.
pub open spec fn with_official_defaults(config: TomlView) -> TomlView {
    let providers = config.member("model_providers"@);
    match config.member("model_provider"@) {
        TomlView::Str(key) if providers.is_table_like() && providers.member(
            key,
        ).is_table_like() => {
            let section = with_free_member(
                with_free_member(
                    providers.member(key),
                    "wire_api"@,
                    TomlView::Str("responses"@),
                ),
                "requires_openai_auth"@,
                TomlView::Boolean(true),
            );
            config.with_member("model_providers"@, providers.with_member(key, section))
        },
        _ => config,
    }
}

/// The paths at which something can change when the section of the official provider is
/// completed.
pub open spec fn official_paths(config: TomlView) -> Set<Seq<Seq<char>>> {
    match config.member("model_provider"@) {
        TomlView::Str(key) => paths_in_section(
            "model_providers"@,
            key,
            seq!["wire_api"@, "requires_openai_auth"@],
        ),
        _ => Set::empty(),
    }
}

/// Whether a text is the configuration of a provider, completed where it is the official
/// one and its text is a document.
pub open spec fn is_own_text(provider: ProviderView, text: Seq<char>) -> bool {
    let stored = codex_config_text(provider.settings_config);
    match parsed_toml(stored) {
        Some(config) if is_official(provider) && !is_blank(stored) => is_edited_text(
            text,
            stored,
            with_official_defaults(config),
            official_paths(config),
        ),
        _ => text == stored,
    }
}

/// What the live configuration is, once the provider's own text is settled.
pub open spec fn own_text_merged(
    own: Seq<char>,
    snippet: Option<Seq<char>>,
    apply: bool,
    result: Result<Seq<char>, ErrorView>,
) -> bool {
    match config_toml_error(own) {
        Some(error) => result == Err::<Seq<char>, ErrorView>(error),
        None => match snippet {
            Some(snippet) if apply && !is_blank(snippet) && !is_blank(own) => match (
                parsed_toml(own),
                parsed_toml(trimmed(snippet)),
            ) {
                (None, _) => result == Err::<Seq<char>, ErrorView>(
                    ErrorView::Config("TOML parse error: "@ + toml_parse_error(own)),
                ),
                (Some(_), None) => result == Err::<Seq<char>, ErrorView>(
                    ErrorView::Config(
                        "Common config TOML parse error: "@ + toml_parse_error(trimmed(snippet)),
                    ),
                ),
                (Some(config), Some(common)) => {
                    &&& result matches Ok(text)
                    &&& is_edited_text(
                        text,
                        own,
                        tables_merged(config, common),
                        laid_paths(common),
                    )
                },
            },
            _ => result == Ok::<Seq<char>, ErrorView>(own),
        },
    }
}

/// What the live configuration of a provider is: its own text, with the common snippet
/// laid over it where that applies. It must be a document.
pub open spec fn live_text(
    provider: ProviderView,
    snippet: Option<Seq<char>>,
    apply: bool,
    result: Result<Seq<char>, ErrorView>,
) -> bool {
    if provider.settings_config is Object {
        exists|own: Seq<char>| #[trigger]
            is_own_text(provider, own) && own_text_merged(own, snippet, apply, result)
    } else {
        result == Err::<Seq<char>, ErrorView>(ErrorView::Config("Codex 配置必须是 JSON 对象"@))
    }
}

/// The stored text of the configuration, empty where there is none.
pub fn stored_config_text(settings: &Json) -> (r: &str)
    ensures
        r@ == codex_config_text(settings@),
{
    proof {
        reveal_strlit("");
        assert(""@ =~= Seq::empty());
    }
    match settings.get("config") {
        Some(value) => match value.as_str() {
            Some(text) => text,
            None => "",
        },
        None => "",
    }
}

/// Completes a section with a value under a name that is free.
fn set_free_member(section: &mut toml_edit::Item, key: &str, member: toml_edit::Item)
    requires
        item_view(*old(section)).is_table_like(),
        item_view(member).is_value(),
    ensures
        item_view(*final(section)) == with_free_member(
            item_view(*old(section)),
            key@,
            item_view(member),
        ),
        lines_kept(item_lines(*old(section)), item_lines(*final(section)), paths_from(key@)),
{
    if get(section, key).is_none() {
        insert(section, key, member);
    }
}

/// Completes the section of the official provider.
fn add_official_defaults(config: &mut toml_edit::Item)
    requires
        item_view(*old(config)) is Table,
    ensures
        item_view(*final(config)) == with_official_defaults(item_view(*old(config))),
        lines_kept(
            item_lines(*old(config)),
            item_lines(*final(config)),
            official_paths(item_view(*old(config))),
        ),
{
    let ghost before = item_view(*config);
    let ghost lines_before = item_lines(*config);
    let ghost names = seq!["wire_api"@, "requires_openai_auth"@];
    let key: Option<String> = match get(config, "model_provider") {
        Some(item) => match item_text(item) {
            Some(text) => Some(text.to_owned()),
            None => None,
        },
        None => None,
    };
    if let Some(key) = key {
        let ghost mut found = false;
        if let Some(providers) = get_mut(config, "model_providers") {
            let ghost providers_before = item_view(*providers);
            let ghost lines_inside = item_lines(*providers);
            if is_table_like(providers) {
                let ghost mut found_section = false;
                if let Some(section) = get_mut(providers, key.as_str()) {
                    if is_table_like(section) {
                        let ghost section_lines = item_lines(*section);
                        set_free_member(section, "wire_api", text_item("responses"));
                        set_free_member(section, "requires_openai_auth", flag_item(true));
                        proof {
                            assert(names[0] == "wire_api"@ && names[1] == "requires_openai_auth"@);
                            assert(lines_kept(
                                section_lines,
                                item_lines(*section),
                                named_paths(names),
                            ));
                        }
                    }
                    proof {
                        found_section = true;
                    }
                }
                proof {
                    if found_section && providers_before is Table {
                        lemma_lines_kept_below(
                            lines_inside,
                            item_lines(*providers),
                            key@,
                            named_paths(names),
                            paths_in_member(key@, names),
                        );
                    }
                    assert(lines_kept(
                        lines_inside,
                        item_lines(*providers),
                        paths_in_member(key@, names),
                    ));
                }
            }
            proof {
                found = true;
                if !(providers_before.is_table_like() && providers_before.member(
                    key@,
                ).is_table_like()) {
                    assert(item_view(*providers).members() =~= providers_before.members());
                    assert(item_view(*providers) == providers_before);
                }
            }
        }
        proof {
            if found {
                lemma_lines_kept_below(
                    lines_before,
                    item_lines(*config),
                    "model_providers"@,
                    paths_in_member(key@, names),
                    paths_in_section("model_providers"@, key@, names),
                );
            }
            let providers = before.member("model_providers"@);
            if !(providers.is_table_like() && providers.member(key@).is_table_like()) {
                assert(item_view(*config).members() =~= before.members());
            }
        }
    }
}

/// The text of the live configuration of a provider, with the common snippet laid over it
/// where that applies.
pub fn codex_live_text(
    provider: &Provider,
    common_config_snippet: Option<&str>,
    apply_common_config: bool,
) -> (r: Result<String, AppError>)
    ensures
        live_text(provider@, maybe_str(common_config_snippet), apply_common_config, outcome(r)),
{
    if !provider.settings_config.is_object() {
        return Err(AppError::Config("Codex 配置必须是 JSON 对象".to_owned()));
    }
    let stored = stored_config_text(&provider.settings_config);
    let mut own = stored.to_owned();
    if is_codex_official_provider(provider) && !blank(stored) {
        if let Ok(mut document) = parse_document(stored) {
            add_official_defaults(root_mut(&mut document));
            own = write_document(&document);
        }
    }
    assert(is_own_text(provider@, own@));
    if let Err(error) = validate_config_toml(own.as_str()) {
        assert(own_text_merged(
            own@,
            maybe_str(common_config_snippet),
            apply_common_config,
            Err(error@),
        ));
        return Err(error);
    }
    let r = merge_common_snippet(own.as_str(), common_config_snippet, apply_common_config);
    assert(own_text_merged(
        own@,
        maybe_str(common_config_snippet),
        apply_common_config,
        outcome(r),
    ));
    r
}

/// Lays the common snippet over the text of a configuration, where that applies.
fn merge_common_snippet(own: &str, snippet: Option<&str>, apply: bool) -> (r: Result<
    String,
    AppError,
>)
    requires
        config_toml_error(own@) is None,
    ensures
        own_text_merged(own@, maybe_str(snippet), apply, outcome(r)),
{
    if apply {
        if let Some(snippet) = snippet {
            let snippet = trim(snippet);
            if !snippet.is_empty() && !blank(own) {
                let mut document = match parse_document(own) {
                    Ok(document) => document,
                    Err(message) => {
                        return Err(
                            AppError::Config(joined("TOML parse error: ", message.as_str())),
                        );
                    },
                };
                let common = match parse_document(snippet) {
                    Ok(document) => document,
                    Err(message) => {
                        return Err(
                            AppError::Config(
                                joined("Common config TOML parse error: ", message.as_str()),
                            ),
                        );
                    },
                };
                merge_toml_tables(root_mut(&mut document), root(&common));
                return Ok(write_document(&document));
            }
        }
    }
    Ok(own.to_owned())
}

/// Whether the authentication of settings says nothing.
pub open spec fn auth_is_empty(settings: JsonView) -> bool {
    match field(settings, "auth"@) {
        Some(JsonView::Object(members)) => members =~= Map::empty(),
        _ => true,
    }
}

/// What is to be done with the file that holds the authentication.
pub enum AuthFile {
    /// It is taken away, after a copy has been made, where it is there.
    Remove,
    /// It is written.
    Write(Json),
}

/// What is to be done with the file that holds the authentication.
pub enum AuthFileView {
    Remove,
    Write(JsonView),
}

impl AuthFile {
    /// What is to be done.
    pub open spec fn view(self) -> AuthFileView {
        match self {
            AuthFile::Remove => AuthFileView::Remove,
            AuthFile::Write(auth) => AuthFileView::Write(auth@),
        }
    }
}

/// What is to be done with the file that holds the authentication: a provider without
/// one, and the official one, leave it to the user's account, which the file would
/// override.
pub open spec fn auth_file(provider: ProviderView) -> AuthFileView {
    if auth_is_empty(provider.settings_config) || is_official(provider) {
        AuthFileView::Remove
    } else {
        AuthFileView::Write(field(provider.settings_config, "auth"@)->0)
    }
}

/// What the live files of a Codex provider are to be.
pub struct CodexLive {
    pub config: String,
    pub auth: AuthFile,
}

impl ProviderService {
    /// What the live files of a Codex provider are to be.
    pub fn write_codex_live(
        provider: &Provider,
        common_config_snippet: Option<&str>,
        apply_common_config: bool,
    ) -> (r: Result<CodexLive, AppError>)
        ensures
            live_text(
                provider@,
                maybe_str(common_config_snippet),
                apply_common_config,
                match r {
                    Ok(live) => Ok(live.config@),
                    Err(error) => Err(error@),
                },
            ),
            r matches Ok(live) ==> live.auth@ == auth_file(provider@),
    {
        let config = match codex_live_text(provider, common_config_snippet, apply_common_config) {
            Ok(text) => text,
            Err(error) => {
                return Err(error);
            },
        };
        let mut auth = AuthFile::Remove;
        if !is_codex_official_provider(provider) {
            if let Some(value) = provider.settings_config.get("auth") {
                if let Json::Object(members) = value {
                    proof {
                        lemma_no_members(members@);
                    }
                    if members.len() > 0 {
                        auth = AuthFile::Write(value.copy());
                    }
                }
            }
        }
        Ok(CodexLive { config, auth })
    }

    /// The settings that are backed up while a proxy stands in for a Codex provider.
    pub fn codex_backup(
        provider: &Provider,
        common_config_snippet: Option<&str>,
        apply_common_config: bool,
    ) -> (r: Result<Json, AppError>)
        ensures
            match r {
                Ok(backup) => {
                    &&& field(backup@, "config"@) matches Some(JsonView::Str(text))
                    &&& live_text(
                        provider@,
                        maybe_str(common_config_snippet),
                        apply_common_config,
                        Ok(text),
                    )
                    &&& backup@ == codex_settings(
                        field(provider@.settings_config, "auth"@),
                        Some(text),
                    )
                },
                Err(error) => live_text(
                    provider@,
                    maybe_str(common_config_snippet),
                    apply_common_config,
                    Err(error@),
                ),
            },
    {
        let text = match codex_live_text(provider, common_config_snippet, apply_common_config) {
            Ok(text) => text,
            Err(error) => {
                return Err(error);
            },
        };
        let mut backup = Json::Object(Vec::new());
        proof {
            assert(backup@->Object_0 =~= Map::empty());
            lemma_codex_names();
        }
        if let Some(auth) = provider.settings_config.get("auth") {
            backup.insert("auth", auth.copy());
        }
        backup.insert("config", Json::Str(text));
        Ok(backup)
    }
}

/// The names of the members of Codex settings are different.
pub proof fn lemma_codex_names()
    ensures
        "auth"@ != "config"@,
{
    reveal_strlit("auth");
    reveal_strlit("config");
    assert("auth"@.len() == 4);
    assert("config"@.len() == 6);
}

/// Codex settings of these parts.
pub open spec fn codex_settings(auth: Option<JsonView>, config: Option<Seq<char>>) -> JsonView {
    let with_auth: Map<Seq<char>, JsonView> = match auth {
        Some(auth) => Map::empty().insert("auth"@, auth),
        None => Map::empty(),
    };
    JsonView::Object(
        match config {
            Some(text) => with_auth.insert("config"@, JsonView::Str(text)),
            None => with_auth,
        },
    )
}

} // verus!
