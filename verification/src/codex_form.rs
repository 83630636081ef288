//! The fields of a Codex configuration that a form shows and changes.
use vstd::prelude::*;

use crate::codex_migration::{make_text_line, plain_flag, plain_text, text_line};
use crate::error::joined3;
use crate::model::maybe_text;
use crate::text::{is_blank, join_lines, lines_joined, replace, replaced, same_text, texts, trim,
    trimmed,
};
use crate::toml_doc::{
    as_member, assign, empty_table, flag_item, get, get_mut, insert, is_table_like, item_text,
    parse_document, remove, root, root_mut, text_item, write_document, TomlView,
};
use crate::toml_doc::{
    is_edited_text, item_lines, item_view, lemma_lines_kept_below, lemma_nothing_below, lines_kept,
    named_paths, parsed_toml, paths_from, paths_in_member, paths_in_section,
};
use crate::toml_plain::{
    parse_table, plain_bool, plain_get, plain_is_table, plain_str, PlainView,
};
use crate::toml_plain::{plain_table, plain_view};

verus! {

/// The interface by which Codex talks to a provider.
#[derive(Clone, Copy, Debug, PartialEq, Eq, Structural)]
pub enum CodexWireApi {
    Chat,
    Responses,
}

impl CodexWireApi {
    /// The name of the interface.
    pub open spec fn name(self) -> Seq<char> {
        match self {
            CodexWireApi::Chat => "chat"@,
            CodexWireApi::Responses => "responses"@,
        }
    }

    /// The name of the interface.
    pub fn as_str(self) -> (r: &'static str)
        ensures
            r@ == self.name(),
    {
        match self {
            CodexWireApi::Chat => "chat",
            CodexWireApi::Responses => "responses",
        }
    }
}

/// The fields of a Codex configuration.
pub struct ParsedCodexConfigSnippet {
    pub base_url: Option<String>,
    pub model: Option<String>,
    pub wire_api: Option<CodexWireApi>,
    pub requires_openai_auth: Option<bool>,
    pub env_key: Option<String>,
}

/// The fields of a Codex configuration.
#[verifier::ext_equal]
pub struct FieldsView {
    pub base_url: Option<Seq<char>>,
    pub model: Option<Seq<char>>,
    pub wire_api: Option<CodexWireApi>,
    pub requires_openai_auth: Option<bool>,
    pub env_key: Option<Seq<char>>,
}

impl ParsedCodexConfigSnippet {
    /// The fields.
    pub open spec fn view(self) -> FieldsView {
        FieldsView {
            base_url: maybe_text(self.base_url),
            model: maybe_text(self.model),
            wire_api: self.wire_api,
            requires_openai_auth: self.requires_openai_auth,
            env_key: maybe_text(self.env_key),
        }
    }
}

/// The interface of that name.
pub open spec fn wire_api_named(name: Option<Seq<char>>) -> Option<CodexWireApi> {
    if name == Some("chat"@) {
        Some(CodexWireApi::Chat)
    } else if name == Some("responses"@) {
        Some(CodexWireApi::Responses)
    } else {
        None
    }
}

/// The member of that name, where the value is a table that has one.
pub open spec fn plain_member(table: PlainView, key: Seq<char>) -> Option<PlainView> {
    match table {
        PlainView::Table(members) => if members.contains_key(key) {
            Some(members[key])
        } else {
            None
        },
        _ => None,
    }
}

/// The section of the provider that a configuration names.
pub open spec fn named_section(table: PlainView) -> Option<PlainView> {
    match plain_text(table, "model_provider"@) {
        None => None,
        Some(key) => match plain_member(table, "model_providers"@) {
            Some(providers) => match plain_member(providers, key) {
                Some(section) if section is Table => Some(section),
                _ => None,
            },
            None => None,
        },
    }
}

/// The fields of a configuration; none where it is no document.
pub open spec fn fields_parsed(cfg: Seq<char>) -> FieldsView {
    match plain_table(trimmed(cfg)) {
        None => FieldsView {
            base_url: None,
            model: None,
            wire_api: None,
            requires_openai_auth: None,
            env_key: None,
        },
        Some(table) => {
            let view = plain_view(table);
            let model = plain_text(view, "model"@);
            match named_section(view) {
                None => FieldsView {
                    base_url: None,
                    model,
                    wire_api: None,
                    requires_openai_auth: None,
                    env_key: None,
                },
                Some(section) => FieldsView {
                    base_url: plain_text(section, "base_url"@),
                    model,
                    wire_api: wire_api_named(plain_text(section, "wire_api"@)),
                    requires_openai_auth: plain_flag(section, "requires_openai_auth"@),
                    env_key: plain_text(section, "env_key"@),
                },
            }
        },
    }
}

/// The text of the member of that name, where it is a text.
fn read_field(table: &toml::Value, key: &str) -> (r: Option<String>)
    ensures
        maybe_text(r) == plain_text(plain_view(*table), key@),
{
    match plain_get(table, key) {
        Some(value) => match plain_str(value) {
            Some(text) => Some(text.to_owned()),
            None => None,
        },
        None => None,
    }
}

/// The section of the provider that a configuration names.
fn find_section(table: &toml::Value) -> (r: Option<&toml::Value>)
    ensures
        match r {
            Some(section) => named_section(plain_view(*table)) == Some(plain_view(*section)),
            None => named_section(plain_view(*table)) is None,
        },
{
    let key = match read_field(table, "model_provider") {
        Some(key) => key,
        None => {
            return None;
        },
    };
    match plain_get(table, "model_providers") {
        Some(providers) => match plain_get(providers, key.as_str()) {
            Some(section) => if plain_is_table(section) {
                Some(section)
            } else {
                None
            },
            None => None,
        },
        None => None,
    }
}

/// Reads the fields of a configuration.
pub fn parse_codex_config_snippet(cfg: &str) -> (r: ParsedCodexConfigSnippet)
    ensures
        r@ == fields_parsed(cfg@),
{
    let mut fields = ParsedCodexConfigSnippet {
        base_url: None,
        model: None,
        wire_api: None,
        requires_openai_auth: None,
        env_key: None,
    };
    let table = match parse_table(trim(cfg)) {
        Ok(table) => table,
        Err(_) => {
            return fields;
        },
    };
    fields.model = read_field(&table, "model");
    if let Some(section) = find_section(&table) {
        fields.base_url = read_field(section, "base_url");
        fields.wire_api = match read_field(section, "wire_api") {
            Some(name) => if same_text(name.as_str(), "chat") {
                Some(CodexWireApi::Chat)
            } else if same_text(name.as_str(), "responses") {
                Some(CodexWireApi::Responses)
            } else {
                None
            },
            None => None,
        };
        fields.requires_openai_auth = match plain_get(section, "requires_openai_auth") {
            Some(value) => plain_bool(value),
            None => None,
        };
        fields.env_key = read_field(section, "env_key");
    }
    fields
}

/// A text without the blanks at its ends, where anything is left of it.
pub fn non_empty(value: &str) -> (r: Option<&str>)
    ensures
        match r {
            Some(text) => !is_blank(value@) && text@ == trimmed(value@),
            None => is_blank(value@),
        },
{
    let text = trim(value);
    if text.is_empty() {
        None
    } else {
        Some(text)
    }
}

/// A text as it stands between quotation marks.
pub open spec fn escaped(value: Seq<char>) -> Seq<char> {
    replaced(value, '"', "\\\""@)
}

/// Makes a text fit to stand between quotation marks.
pub fn escape_toml_string(value: &str) -> (r: String)
    ensures
        r@ == escaped(value@),
{
    replace(value, '"', "\\\"")
}

/// The lines of a new configuration.
pub open spec fn new_config_lines(
    provider_key: Seq<char>,
    base_url: Seq<char>,
    model: Seq<char>,
    wire_api: CodexWireApi,
) -> Seq<Seq<char>> {
    seq![
        text_line("model_provider"@, escaped(provider_key)),
        text_line("model"@, escaped(model)),
        "model_reasoning_effort = \"high\""@,
        "disable_response_storage = true"@,
        ""@,
        "[model_providers."@ + escaped(provider_key) + "]"@,
        text_line("name"@, escaped(provider_key)),
        text_line("base_url"@, escaped(base_url)),
        text_line("wire_api"@, wire_api.name()),
        "requires_openai_auth = true"@,
        ""@,
    ]
}

/// Writes a new configuration.
pub fn build_codex_provider_config_toml(
    provider_key: &str,
    base_url: &str,
    model: &str,
    wire_api: CodexWireApi,
) -> (r: String)
    ensures
        r@ == lines_joined(new_config_lines(provider_key@, base_url@, model@, wire_api)),
{
    let key = escape_toml_string(provider_key);
    let model_text = escape_toml_string(model);
    let url = escape_toml_string(base_url);
    let lines: Vec<String> = vec![
        make_text_line("model_provider", key.as_str()),
        make_text_line("model", model_text.as_str()),
        "model_reasoning_effort = \"high\"".to_owned(),
        "disable_response_storage = true".to_owned(),
        "".to_owned(),
        joined3("[model_providers.", key.as_str(), "]"),
        make_text_line("name", key.as_str()),
        make_text_line("base_url", url.as_str()),
        make_text_line("wire_api", wire_api.as_str()),
        "requires_openai_auth = true".to_owned(),
        "".to_owned(),
    ];
    assert(texts(lines@) =~= new_config_lines(provider_key@, base_url@, model@, wire_api));
    join_lines(&lines)
}

/// The text from which the key of a provider is made, without the blanks at its ends.
pub fn clean_codex_provider_key<'a>(provider_id: &'a str, provider_name: &'a str) -> (r: &'a str)
    ensures
        r@ == (if is_blank(provider_id@) {
            trimmed(provider_name@)
        } else {
            trimmed(provider_id@)
        }),
{
    let id = trim(provider_id);
    if id.is_empty() {
        trim(provider_name)
    } else {
        id
    }
}

/// A table with a text under a name, or without that name where the text is blank.
pub open spec fn with_text(table: TomlView, key: Seq<char>, text: Seq<char>) -> TomlView {
    if is_blank(text) {
        table.with_member(key, TomlView::Nothing)
    } else {
        table.with_member(key, TomlView::Str(trimmed(text)))
    }
}

/// The section of a provider with these fields.
pub open spec fn section_updated(
    section: TomlView,
    base_url: Seq<char>,
    wire_api: CodexWireApi,
    requires_openai_auth: bool,
    env_key: Seq<char>,
) -> TomlView {
    let fields = with_text(section, "base_url"@, base_url).with_member(
        "wire_api"@,
        TomlView::Str(wire_api.name()),
    ).with_member("requires_openai_auth"@, TomlView::Boolean(requires_openai_auth));
    if requires_openai_auth {
        fields.with_member("env_key"@, TomlView::Nothing)
    } else if is_blank(env_key) {
        fields.with_member("env_key"@, TomlView::Str("OPENAI_API_KEY"@))
    } else {
        fields.with_member("env_key"@, TomlView::Str(trimmed(env_key)))
    }
}

/// The member of that name, or a table without members where there is none.
pub open spec fn member_or_table(table: TomlView, key: Seq<char>) -> TomlView {
    if table.members().contains_key(key) {
        table.members()[key]
    } else {
        as_member(table, TomlView::Table(Map::empty()))
    }
}

/// A configuration with these fields. Those of the provider go into the section that it
/// names, which is made where it is missing.
pub open spec fn config_updated(
    config: TomlView,
    base_url: Seq<char>,
    model: Seq<char>,
    wire_api: CodexWireApi,
    requires_openai_auth: bool,
    env_key: Seq<char>,
) -> TomlView {
    let modelled = with_text(config, "model"@, model);
    match modelled.member("model_provider"@) {
        TomlView::Str(key) => {
            let providers = member_or_table(modelled, "model_providers"@);
            let section = member_or_table(providers, key);
            modelled.with_member(
                "model_providers"@,
                providers.with_member(
                    key,
                    if section.is_table_like() {
                        section_updated(
                            section,
                            base_url,
                            wire_api,
                            requires_openai_auth,
                            env_key,
                        )
                    } else {
                        section
                    },
                ),
            )
        },
        _ => modelled,
    }
}

/// The fields of a form that stand in the section of a provider.
pub open spec fn section_keys() -> Seq<Seq<char>> {
    seq!["base_url"@, "wire_api"@, "requires_openai_auth"@, "env_key"@]
}

/// The paths at which something can change when the fields of a form are put into a
/// configuration.
pub open spec fn form_paths(config: TomlView) -> Set<Seq<Seq<char>>> {
    match config.member("model_provider"@) {
        TomlView::Str(key) => paths_from("model"@).union(
            paths_in_section("model_providers"@, key, section_keys()),
        ),
        _ => paths_from("model"@),
    }
}

/// Whether the sections of a configuration can be changed: they are a table, or the
/// configuration names no provider.
pub open spec fn has_sections(config: TomlView) -> bool {
    &&& config is Table
    &&& config.member("model_provider"@) is Str && config.members().contains_key(
        "model_providers"@,
    ) ==> config.member("model_providers"@).is_table_like()
}

/// Puts a text under a name, or takes the name out where the text is blank.
fn set_text(table: &mut toml_edit::Item, key: &str, text: &str)
    requires
        item_view(*old(table)).is_table_like(),
    ensures
        item_view(*final(table)) == with_text(item_view(*old(table)), key@, text@),
        lines_kept(item_lines(*old(table)), item_lines(*final(table)), paths_from(key@)),
{
    match non_empty(text) {
        Some(text) => insert(table, key, text_item(text)),
        None => remove(table, key),
    }
}

/// Puts the fields of a provider into its section.
fn update_section(
    section: &mut toml_edit::Item,
    base_url: &str,
    wire_api: CodexWireApi,
    requires_openai_auth: bool,
    env_key: &str,
)
    requires
        item_view(*old(section)).is_table_like(),
    ensures
        item_view(*final(section)) == section_updated(
            item_view(*old(section)),
            base_url@,
            wire_api,
            requires_openai_auth,
            env_key@,
        ),
        lines_kept(
            item_lines(*old(section)),
            item_lines(*final(section)),
            named_paths(section_keys()),
        ),
{
    proof {
        let keys = section_keys();
        assert(keys[0] == "base_url"@ && keys[1] == "wire_api"@ && keys[2]
            == "requires_openai_auth"@ && keys[3] == "env_key"@);
    }
    set_text(section, "base_url", base_url);
    insert(section, "wire_api", text_item(wire_api.as_str()));
    insert(section, "requires_openai_auth", flag_item(requires_openai_auth));
    if requires_openai_auth {
        remove(section, "env_key");
    } else {
        let env_key = match non_empty(env_key) {
            Some(env_key) => env_key,
            None => "OPENAI_API_KEY",
        };
        insert(section, "env_key", text_item(env_key));
    }
}

/// The names of the members of a configuration that matter here are different.
pub proof fn lemma_config_names()
    ensures
        "model"@ != "model_provider"@,
        "model"@ != "model_providers"@,
        "model_provider"@ != "model_providers"@,
{
    reveal_strlit("model");
    reveal_strlit("model_provider");
    reveal_strlit("model_providers");
    assert("model"@.len() == 5);
    assert("model_provider"@.len() == 14);
    assert("model_providers"@.len() == 15);
}

/// Puts the fields of a configuration into it.
fn update_config(
    config: &mut toml_edit::Item,
    base_url: &str,
    model: &str,
    wire_api: CodexWireApi,
    requires_openai_auth: bool,
    env_key: &str,
)
    requires
        has_sections(item_view(*old(config))),
    ensures
        item_view(*final(config)) == config_updated(
            item_view(*old(config)),
            base_url@,
            model@,
            wire_api,
            requires_openai_auth,
            env_key@,
        ),
        lines_kept(
            item_lines(*old(config)),
            item_lines(*final(config)),
            form_paths(item_view(*old(config))),
        ),
{
    let ghost lines_before = item_lines(*config);
    let ghost touched = form_paths(item_view(*config));
    proof {
        lemma_config_names();
    }
    match non_empty(model) {
        Some(model) => assign(config, "model", text_item(model)),
        None => remove(config, "model"),
    }
    let ghost modelled = item_view(*config);
    assert(lines_kept(lines_before, item_lines(*config), touched));
    let key: Option<String> = match get(config, "model_provider") {
        Some(item) => match item_text(item) {
            Some(text) => Some(text.to_owned()),
            None => None,
        },
        None => None,
    };
    let key = match key {
        Some(key) => key,
        None => {
            return;
        },
    };
    if get(config, "model_providers").is_none() {
        let ghost lines_between = item_lines(*config);
        assign(config, "model_providers", empty_table());
        proof {
            lemma_nothing_below(
                lines_between,
                item_lines(*config),
                "model_providers"@,
                touched,
            );
        }
    }
    let ghost providers_view = member_or_table(modelled, "model_providers"@);
    let ghost section_view = member_or_table(providers_view, key@);
    proof {
        assert(item_view(*config).members() =~= modelled.with_member(
            "model_providers"@,
            providers_view,
        ).members());
    }
    let ghost lines_between = item_lines(*config);
    let ghost within = paths_in_member(key@, section_keys());
    assert(lines_kept(lines_before, lines_between, touched));
    if let Some(providers) = get_mut(config, "model_providers") {
        assert(item_view(*providers) == providers_view);
        let ghost lines_inside = item_lines(*providers);
        if get(providers, key.as_str()).is_none() {
            insert(providers, key.as_str(), empty_table());
            proof {
                lemma_nothing_below(lines_inside, item_lines(*providers), key@, within);
            }
        }
        let ghost lines_within = item_lines(*providers);
        proof {
            assert(item_view(*providers).members() =~= providers_view.with_member(
                key@,
                section_view,
            ).members());
        }
        if let Some(section) = get_mut(providers, key.as_str()) {
            assert(item_view(*section) == section_view);
            if is_table_like(section) {
                update_section(section, base_url, wire_api, requires_openai_auth, env_key);
            }
        }
        proof {
            if providers_view is Table {
                lemma_lines_kept_below(
                    lines_within,
                    item_lines(*providers),
                    key@,
                    named_paths(section_keys()),
                    within,
                );
            }
            assert(lines_kept(lines_inside, item_lines(*providers), within));
            let wanted = if section_view.is_table_like() {
                section_updated(
                    section_view,
                    base_url@,
                    wire_api,
                    requires_openai_auth,
                    env_key@,
                )
            } else {
                section_view
            };
            assert(item_view(*providers).members() =~= providers_view.with_member(
                key@,
                wanted,
            ).members());
        }
    }
    proof {
        let wanted = config_updated(
            item_view(*old(config)),
            base_url@,
            model@,
            wire_api,
            requires_openai_auth,
            env_key@,
        );
        lemma_lines_kept_below(
            lines_between,
            item_lines(*config),
            "model_providers"@,
            within,
            touched,
        );
        assert(item_view(*config).members() =~= wanted.members());
    }
}

/// Whether a text is how the configuration is written once it has these fields. A text
/// that is no document stays as it is.
pub open spec fn snippet_updated(
    original: Seq<char>,
    base_url: Seq<char>,
    model: Seq<char>,
    wire_api: CodexWireApi,
    requires_openai_auth: bool,
    env_key: Seq<char>,
    result: Seq<char>,
) -> bool {
    match parsed_toml(trimmed(original)) {
        None => result == original,
        Some(config) => exists|written: Seq<char>| #[trigger]
            is_edited_text(
                written,
                trimmed(original),
                config_updated(config, base_url, model, wire_api, requires_openai_auth, env_key),
                form_paths(config),
            ) && result == trimmed(written),
    }
}

/// Puts the fields of a form into a configuration. A text that is no document stays as it
/// is.
pub fn update_codex_config_snippet(
    original: &str,
    base_url: &str,
    model: &str,
    wire_api: CodexWireApi,
    requires_openai_auth: bool,
    env_key: &str,
) -> (r: String)
    requires
        parsed_toml(trimmed(original@)) matches Some(config) ==> has_sections(config),
    ensures
        snippet_updated(
            original@,
            base_url@,
            model@,
            wire_api,
            requires_openai_auth,
            env_key@,
            r@,
        ),
{
    let mut document = match parse_document(trim(original)) {
        Ok(document) => document,
        Err(_) => {
            return original.to_owned();
        },
    };
    update_config(
        root_mut(&mut document),
        base_url,
        model,
        wire_api,
        requires_openai_auth,
        env_key,
    );
    let written = write_document(&document);
    proof {
        assert(is_edited_text(
            written@,
            trimmed(original@),
            config_updated(
                parsed_toml(trimmed(original@))->0,
                base_url@,
                model@,
                wire_api,
                requires_openai_auth,
                env_key@,
            ),
            form_paths(parsed_toml(trimmed(original@))->0),
        ));
    }
    trim(written.as_str()).to_owned()
}

/// Puts the fields of a form into a configuration, where its sections can be changed;
/// `None` where what should hold the sections is something else.
pub fn try_update_codex_config_snippet(
    original: &str,
    base_url: &str,
    model: &str,
    wire_api: CodexWireApi,
    requires_openai_auth: bool,
    env_key: &str,
) -> (r: Option<String>)
    ensures
        match r {
            Some(text) => snippet_updated(
                original@,
                base_url@,
                model@,
                wire_api,
                requires_openai_auth,
                env_key@,
                text@,
            ),
            None => parsed_toml(trimmed(original@)) matches Some(config) && !has_sections(config),
        },
{
    if let Ok(document) = parse_document(trim(original)) {
        let config = root(&document);
        if let Some(item) = get(config, "model_provider") {
            if item_text(item).is_some() {
                if let Some(providers) = get(config, "model_providers") {
                    if !is_table_like(providers) {
                        return None;
                    }
                }
            }
        }
    }
    Some(
        update_codex_config_snippet(
            original,
            base_url,
            model,
            wire_api,
            requires_openai_auth,
            env_key,
        ),
    )
}

/// Whether both readers find the same in a text: the one without layout, and the one with
/// it.
pub open spec fn readers_agree(plain: PlainView, document: TomlView) -> bool
    decreases document,
{
    match document {
        TomlView::Str(text) => plain == PlainView::Str(text),
        TomlView::Boolean(flag) => plain == PlainView::Boolean(flag),
        TomlView::Table(members) => {
            &&& plain matches PlainView::Table(read)
            &&& read.dom() == members.dom()
            &&& forall|key: Seq<char>|
                #![trigger members.contains_key(key)]
                members.contains_key(key) ==> readers_agree(read[key], members[key])
        },
        TomlView::Inline(members) => {
            &&& plain matches PlainView::Table(read)
            &&& read.dom() == members.dom()
            &&& forall|key: Seq<char>|
                #![trigger members.contains_key(key)]
                members.contains_key(key) ==> readers_agree(read[key], members[key])
        },
        _ => plain is Other,
    }
}

/// What both readers find under a name of a table.
proof fn lemma_members_agree(plain: PlainView, document: TomlView, key: Seq<char>)
    requires
        readers_agree(plain, document),
        document.is_table_like(),
    ensures
        plain is Table,
        plain->Table_0.contains_key(key) == document.members().contains_key(key),
        document.members().contains_key(key) ==> readers_agree(
            plain->Table_0[key],
            document.members()[key],
        ),
{
    let read = plain->Table_0;
    assert(read.dom().contains(key) == document.members().dom().contains(key));
}

/// The fields of a form have different names.
pub proof fn lemma_section_names()
    ensures
        "base_url"@ != "wire_api"@,
        "base_url"@ != "requires_openai_auth"@,
        "base_url"@ != "env_key"@,
        "wire_api"@ != "requires_openai_auth"@,
        "wire_api"@ != "env_key"@,
        "requires_openai_auth"@ != "env_key"@,
        "chat"@ != "responses"@,
{
    reveal_strlit("base_url");
    reveal_strlit("wire_api");
    reveal_strlit("requires_openai_auth");
    reveal_strlit("env_key");
    reveal_strlit("chat");
    reveal_strlit("responses");
    assert("base_url"@[0] == 'b');
    assert("wire_api"@[0] == 'w');
    assert("requires_openai_auth"@.len() == 20);
    assert("env_key"@.len() == 7);
    assert("base_url"@.len() == 8);
    assert("wire_api"@.len() == 8);
    assert("chat"@.len() == 4);
    assert("responses"@.len() == 9);
}

/// A text without the blanks at its ends, where anything is left of it.
pub open spec fn filled(text: Seq<char>) -> Option<Seq<char>> {
    if is_blank(text) {
        None
    } else {
        Some(trimmed(text))
    }
}

/// The fields that a form leaves behind.
pub open spec fn fields_given(
    base_url: Seq<char>,
    model: Seq<char>,
    wire_api: CodexWireApi,
    requires_openai_auth: bool,
    env_key: Seq<char>,
) -> FieldsView {
    FieldsView {
        base_url: filled(base_url),
        model: filled(model),
        wire_api: Some(wire_api),
        requires_openai_auth: Some(requires_openai_auth),
        env_key: if requires_openai_auth {
            None
        } else if is_blank(env_key) {
            Some("OPENAI_API_KEY"@)
        } else {
            Some(trimmed(env_key))
        },
    }
}

/// What a reader that agrees finds in a section with the fields of a form.
proof fn lemma_section_read(
    plain: PlainView,
    section: TomlView,
    base_url: Seq<char>,
    wire_api: CodexWireApi,
    requires_openai_auth: bool,
    env_key: Seq<char>,
)
    requires
        section.is_table_like(),
        readers_agree(
            plain,
            section_updated(section, base_url, wire_api, requires_openai_auth, env_key),
        ),
    ensures
        plain is Table,
        plain_text(plain, "base_url"@) == filled(base_url),
        wire_api_named(plain_text(plain, "wire_api"@)) == Some(wire_api),
        plain_flag(plain, "requires_openai_auth"@) == Some(requires_openai_auth),
        plain_text(plain, "env_key"@) == fields_given(
            base_url,
            base_url,
            wire_api,
            requires_openai_auth,
            env_key,
        ).env_key,
{
    let updated = section_updated(section, base_url, wire_api, requires_openai_auth, env_key);
    lemma_section_names();
    lemma_members_agree(plain, updated, "base_url"@);
    lemma_members_agree(plain, updated, "wire_api"@);
    lemma_members_agree(plain, updated, "requires_openai_auth"@);
    lemma_members_agree(plain, updated, "env_key"@);
}

/// A configuration into which the fields of a form have been put gives these fields back,
/// where both readers agree on its text. It names a provider, whose section is a table or
/// is not there yet.
pub proof fn law_form_gives_fields_back(
    original: Seq<char>,
    base_url: Seq<char>,
    model: Seq<char>,
    wire_api: CodexWireApi,
    requires_openai_auth: bool,
    env_key: Seq<char>,
    result: Seq<char>,
    config: TomlView,
    table: toml::Value,
)
    requires
        parsed_toml(trimmed(original)) == Some(config),
        has_sections(config),
        config.member("model_provider"@) is Str,
        member_or_table(
            member_or_table(config, "model_providers"@),
            config.member("model_provider"@)->Str_0,
        ).is_table_like(),
        snippet_updated(
            original,
            base_url,
            model,
            wire_api,
            requires_openai_auth,
            env_key,
            result,
        ),
        plain_table(trimmed(result)) == Some(table),
        readers_agree(
            plain_view(table),
            config_updated(config, base_url, model, wire_api, requires_openai_auth, env_key),
        ),
    ensures
        fields_parsed(result) == fields_given(
            base_url,
            model,
            wire_api,
            requires_openai_auth,
            env_key,
        ),
{
    lemma_config_names();
    let view = plain_view(table);
    let updated = config_updated(
        config,
        base_url,
        model,
        wire_api,
        requires_openai_auth,
        env_key,
    );
    let key = config.member("model_provider"@)->Str_0;
    let modelled = with_text(config, "model"@, model);
    assert(modelled.member("model_provider"@) == TomlView::Str(key));
    assert(modelled.members().contains_key("model_providers"@) == config.members().contains_key(
        "model_providers"@,
    ));
    let providers = member_or_table(modelled, "model_providers"@);
    assert(providers == member_or_table(config, "model_providers"@));
    let section = member_or_table(providers, key);
    let new_section = section_updated(section, base_url, wire_api, requires_openai_auth, env_key);
    let new_providers = providers.with_member(key, new_section);
    assert(updated == modelled.with_member("model_providers"@, new_providers));
    lemma_members_agree(view, updated, "model"@);
    lemma_members_agree(view, updated, "model_provider"@);
    lemma_members_agree(view, updated, "model_providers"@);
    assert(updated.members()["model_providers"@] == new_providers);
    let read_providers = view->Table_0["model_providers"@];
    lemma_members_agree(read_providers, new_providers, key);
    assert(new_providers.members()[key] == new_section);
    let read_section = read_providers->Table_0[key];
    lemma_section_read(
        read_section,
        section,
        base_url,
        wire_api,
        requires_openai_auth,
        env_key,
    );
    assert(named_section(view) == Some(read_section));
    assert(plain_text(view, "model"@) == filled(model));
}

} // verus!
