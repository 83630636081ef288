//! What merging and taking apart do to TOML documents, entry by entry along their paths.
use vstd::prelude::*;

use crate::codex_form::{
    config_updated, has_sections, lemma_config_names, lemma_section_names, snippet_updated,
    CodexWireApi,
};
use crate::codex_snippet::{all_servers_stripped, without_any_server};
use crate::common_config::{
    codex_server_ids, config_stripped, servers_stripped, synced_ids, without_names, without_servers,
};
use crate::config::{ConfigView, McpServerView};
use crate::error::ErrorView;
use crate::text::{is_blank, trimmed};
use crate::toml_doc::{
    document_text, document_view, is_edited_text, occurs, occurs_at, parsed_toml, TomlLayout,
    TomlView,
};
use crate::toml_ops::{
    is_void, item_is_subset, item_left, table_left, tables_merged, value_is_subset, without_items,
};
use crate::toml_strip::{entries_left, entry_left, same_entries, written_alike};

verus! {

/// Whether a text is what some document that holds this is written as.
pub open spec fn is_written_as(text: Seq<char>, contents: TomlView) -> bool {
    exists|document: toml_edit::DocumentMut| #[trigger]
        document_view(document) == contents && document_text(document) == text
}

/// Whether a text is found in another one.
pub open spec fn stands_in(text: Seq<char>, part: Seq<char>) -> bool {
    exists|before: Seq<char>, after: Seq<char>| text == #[trigger] (before + part + after)
}

/// A text that is found at a place stands in the other.
pub proof fn lemma_stands_in(text: Seq<char>, part: Seq<char>)
    requires
        occurs(text, part),
    ensures
        stands_in(text, part),
{
    let place = choose|place: int| #[trigger] occurs_at(text, part, place);
    let before = text.take(place);
    let after = text.skip(place + part.len());
    assert(text.subrange(place, place + part.len()) == part);
    assert(text =~= before + part + after);
}

/// What stands at a path of names in a document, where anything does.
pub open spec fn entry_at(item: TomlView, path: Seq<Seq<char>>) -> Option<TomlView>
    decreases path.len(),
{
    if path.len() == 0 {
        Some(item)
    } else if item.members().contains_key(path[0]) {
        entry_at(item.members()[path[0]], path.drop_first())
    } else {
        None
    }
}

/// Whether a value is a text, a whole number, a truth value or a date.
pub open spec fn is_plain(value: TomlView) -> bool {
    value is Str || value is Integer || value is Boolean || value is Datetime
}

/// Whether a document says nothing at a path, nor anything that shuts the path off: all along
/// it there are tables, until a name is missing.
pub open spec fn says_nothing(item: TomlView, path: Seq<Seq<char>>) -> bool
    decreases path.len(),
{
    &&& path.len() > 0
    &&& item is Table
    &&& item->Table_0.contains_key(path[0]) ==> says_nothing(
        item->Table_0[path[0]],
        path.drop_first(),
    )
}

/// What is laid over a document wins: each entry of it that is no table stands in the
/// result.
pub proof fn law_laid_over_wins(
    target: TomlView,
    source: TomlView,
    path: Seq<Seq<char>>,
    value: TomlView,
)
    requires
        entry_at(source, path) == Some(value),
        !(value is Table),
    ensures
        entry_at(tables_merged(target, source), path) == Some(value),
    decreases path.len(),
{
    if path.len() > 0 {
        if let (TomlView::Table(t), TomlView::Table(s)) = (target, source) {
            if t.contains_key(path[0]) {
                law_laid_over_wins(t[path[0]], s[path[0]], path.drop_first(), value);
            }
        }
    }
}

/// Whether a path leads through tables that are no inline ones.
pub open spec fn leads_through_tables(item: TomlView, path: Seq<Seq<char>>) -> bool
    decreases path.len(),
{
    &&& path.len() > 0
    &&& item is Table
    &&& path.len() > 1 ==> item->Table_0.contains_key(path[0]) && leads_through_tables(
        item->Table_0[path[0]],
        path.drop_first(),
    )
}

/// What a document has at a path through its tables on which nothing is laid stands in the
/// result.
pub proof fn law_rest_shows_through(
    target: TomlView,
    source: TomlView,
    path: Seq<Seq<char>>,
    value: TomlView,
)
    requires
        leads_through_tables(target, path),
        entry_at(target, path) == Some(value),
        says_nothing(source, path),
    ensures
        entry_at(tables_merged(target, source), path) == Some(value),
    decreases path.len(),
{
    if let (TomlView::Table(t), TomlView::Table(s)) = (target, source) {
        if s.contains_key(path[0]) {
            assert(says_nothing(s[path[0]], path.drop_first()));
            law_rest_shows_through(t[path[0]], s[path[0]], path.drop_first(), value);
        }
    }
}

/// An entry of a merged document that is no table comes from one of the two.
pub proof fn law_merging_adds_nothing(
    target: TomlView,
    source: TomlView,
    path: Seq<Seq<char>>,
    value: TomlView,
)
    requires
        entry_at(tables_merged(target, source), path) == Some(value),
        !(value is Table),
    ensures
        entry_at(source, path) == Some(value) || entry_at(target, path) == Some(value),
    decreases path.len(),
{
    if path.len() > 0 {
        if let (TomlView::Table(t), TomlView::Table(s)) = (target, source) {
            if s.contains_key(path[0]) && t.contains_key(path[0]) {
                law_merging_adds_nothing(t[path[0]], s[path[0]], path.drop_first(), value);
            }
        }
    }
}

/// Whether what is left of a document is what is not common: a value that the common one has
/// at the same path is gone, any other stays, and nothing is added. Floats, which need not be
/// equal to themselves, and arrays, which are taken apart element by element, are left out.
pub open spec fn is_left_apart(
    target: TomlView,
    common: TomlView,
    left: TomlView,
    path: Seq<Seq<char>>,
    value: TomlView,
) -> bool {
    path.len() > 0 && is_plain(value) ==> {
        &&& entry_at(target, path) == Some(value) && entry_at(common, path) == Some(value)
            ==> entry_at(left, path) is None
        &&& entry_at(target, path) == Some(value) && entry_at(common, path) != Some(value)
            ==> entry_at(left, path) == Some(value)
        &&& entry_at(left, path) == Some(value) ==> entry_at(target, path) == Some(value)
    }
}

/// Taking a common document out of another leaves what is not common.
pub proof fn law_common_entries_go(
    target: TomlView,
    common: TomlView,
    path: Seq<Seq<char>>,
    value: TomlView,
)
    requires
        target.is_table_like(),
    ensures
        is_left_apart(target, common, table_left(target, common), path, value),
    decreases path.len(),
{
    if path.len() > 0 && is_plain(value) {
        let key = path[0];
        let rest = path.drop_first();
        let left = table_left(target, common);
        if target.members().contains_key(key) && common.members().contains_key(key) {
            let t = target.members()[key];
            let s = common.members()[key];
            if rest.len() == 0 {
                assert(entry_at(t, rest) == Some(t));
                assert(entry_at(s, rest) == Some(s));
                if left.members().contains_key(key) {
                    assert(entry_at(left.members()[key], rest) == Some(left.members()[key]));
                    assert(left.members()[key] == item_left(t, s));
                    if t.is_table_like() && s.is_table_like() {
                        assert(!is_plain(item_left(t, s)));
                    }
                }
            } else if t.is_table_like() && s.is_table_like() {
                law_common_entries_go(t, s, rest, value);
                let below = table_left(t, s);
                if entry_at(below, rest) is Some {
                    assert(below.members().contains_key(rest[0]));
                }
            } else {
                if !t.is_table_like() {
                    assert(t.members() =~= Map::empty());
                }
                if !s.is_table_like() {
                    assert(s.members() =~= Map::empty());
                }
                if left.members().contains_key(key) {
                    let now = left.members()[key];
                    if !t.is_table_like() {
                        assert(!now.is_table_like());
                        assert(now.members() =~= Map::empty());
                    } else {
                        assert(now == t);
                    }
                } else {
                    assert(is_void(item_left(t, s)));
                    if t.is_table_like() && entry_at(t, rest) is Some {
                        assert(t.members().contains_key(rest[0]));
                        assert(t.members() != Map::<Seq<char>, TomlView>::empty());
                    }
                }
            }
        }
    }
}

/// A document that is part of another has none but values that the other has, at the same
/// paths.
pub proof fn law_part_is_found(
    target: TomlView,
    source: TomlView,
    path: Seq<Seq<char>>,
    value: TomlView,
)
    requires
        item_is_subset(target, source),
        entry_at(source, path) == Some(value),
        is_plain(value),
    ensures
        entry_at(target, path) == Some(value),
    decreases path.len(),
{
    if path.len() > 0 {
        let key = path[0];
        if source.is_table_like() {
            assert(source.members().contains_key(key));
            law_part_is_found(
                target.members()[key],
                source.members()[key],
                path.drop_first(),
                value,
            );
        }
    }
}

/// An array that stands at the same path as a common one loses the elements of the latter,
/// and goes where none is left.
pub proof fn law_arrays_are_taken_apart(
    target: TomlView,
    common: TomlView,
    path: Seq<Seq<char>>,
    items: Seq<TomlView>,
    shared: Seq<TomlView>,
)
    requires
        target.is_table_like(),
        path.len() > 0,
        entry_at(target, path) == Some(TomlView::Array(items)),
        entry_at(common, path) == Some(TomlView::Array(shared)),
    ensures
        ({
            let left = without_items(items, shared);
            entry_at(table_left(target, common), path) == (if left.len() == 0 {
                None
            } else {
                Some(TomlView::Array(left))
            })
        }),
    decreases path.len(),
{
    let key = path[0];
    let rest = path.drop_first();
    let t = target.members()[key];
    let s = common.members()[key];
    if rest.len() == 0 {
        assert(entry_at(t, rest) == Some(t));
        assert(entry_at(s, rest) == Some(s));
        let whole = table_left(target, common).members();
        if whole.contains_key(key) {
            assert(entry_at(whole[key], rest) == Some(whole[key]));
        }
    } else {
        if !t.is_table_like() {
            assert(t.members() =~= Map::empty());
        }
        if !s.is_table_like() {
            assert(s.members() =~= Map::empty());
        }
        law_arrays_are_taken_apart(t, s, rest, items, shared);
        let below = table_left(t, s);
        if entry_at(below, rest) is Some {
            assert(below.members().contains_key(rest[0]));
        }
    }
}

/// A table without members goes where the common one has anything of its name.
pub proof fn law_empty_tables_go(target: TomlView, common: TomlView, key: Seq<char>)
    requires
        target.is_table_like(),
        target.members().contains_key(key),
        common.members().contains_key(key),
        target.members()[key].is_table_like(),
        target.members()[key].members() == Map::<Seq<char>, TomlView>::empty(),
    ensures
        !table_left(target, common).members().contains_key(key),
{
    let t = target.members()[key];
    let s = common.members()[key];
    assert(table_left(t, s).members() =~= Map::empty());
    assert(is_void(item_left(t, s)));
}

/// An inline table that is part of another has none but values that the other has, at the
/// same paths.
pub proof fn law_inline_part_is_found(
    target: TomlView,
    source: TomlView,
    path: Seq<Seq<char>>,
    value: TomlView,
)
    requires
        value_is_subset(target, source),
        entry_at(source, path) == Some(value),
        is_plain(value),
    ensures
        entry_at(target, path) == Some(value),
    decreases path.len(),
{
    if path.len() > 0 {
        if let (TomlView::Inline(t), TomlView::Inline(s)) = (target, source) {
            assert(s.contains_key(path[0]));
            law_inline_part_is_found(t[path[0]], s[path[0]], path.drop_first(), value);
        }
    }
}

/// Where neither is blank and both are documents, taking the common snippet out of the text
/// of a configuration leaves what is not common; a blank one changes nothing, and a text that
/// is no document is refused.
pub proof fn law_snippet_is_taken_out(
    config_text: Seq<char>,
    snippet: Seq<char>,
    result: Result<Seq<char>, ErrorView>,
    path: Seq<Seq<char>>,
    value: TomlView,
)
    requires
        config_stripped(config_text, snippet, result),
        parsed_toml(config_text) matches Some(config) ==> config is Table,
    ensures
        is_blank(config_text) || is_blank(snippet) ==> result == Ok::<Seq<char>, ErrorView>(
            config_text,
        ),
        !is_blank(config_text) && !is_blank(snippet) ==> {
            let config = parsed_toml(config_text);
            let common = parsed_toml(snippet);
            &&& result is Ok <==> config is Some && common is Some
            &&& result is Ok ==> exists|left: TomlView|
                {
                    &&& #[trigger] is_written_as(result->Ok_0, left)
                    &&& left is Table
                    &&& is_left_apart(config->0, common->0, left, path, value)
                }
        },
{
    if !is_blank(config_text) && !is_blank(snippet) && result is Ok {
        let config = parsed_toml(config_text)->0;
        let common = parsed_toml(snippet)->0;
        law_common_entries_go(config, common, path, value);
        assert(is_written_as(result->Ok_0, table_left(config, common)));
    }
}

/// Whether a configuration is another one without these servers: everything else stays, and
/// the table of servers goes where none is left.
pub open spec fn has_lost_servers(
    before: Map<Seq<char>, TomlView>,
    after: Map<Seq<char>, TomlView>,
    ids: Seq<Seq<char>>,
) -> bool {
    let servers = before["mcp_servers"@];
    let left = after["mcp_servers"@];
    &&& forall|key: Seq<char>|
        key != "mcp_servers"@ ==> {
            &&& #[trigger] after.contains_key(key) == before.contains_key(key)
            &&& before.contains_key(key) ==> after[key] == before[key]
        }
    &&& !before.contains_key("mcp_servers"@) ==> !after.contains_key("mcp_servers"@)
    &&& before.contains_key("mcp_servers"@) && !(servers is Table || servers is Inline)
        ==> after.contains_key("mcp_servers"@) && left == servers
    &&& before.contains_key("mcp_servers"@) && (servers is Table || servers is Inline) ==> {
        &&& after.contains_key("mcp_servers"@) ==> {
            &&& left is Table == servers is Table
            &&& left is Inline == servers is Inline
            &&& forall|id: Seq<char>|
                #![trigger left.members().contains_key(id)]
                {
                    &&& left.members().contains_key(id) == (servers.members().contains_key(id)
                        && !ids.contains(id))
                    &&& left.members().contains_key(id) ==> left.members()[id]
                        == servers.members()[id]
                }
        }
        &&& forall|id: Seq<char>|
            #![trigger servers.members().contains_key(id)]
            servers.members().contains_key(id) && !ids.contains(id) ==> after.contains_key(
                "mcp_servers"@,
            )
    }
}

/// Taking servers out of the text of a configuration takes out just these, under
/// `mcp_servers`; with no servers, or in a blank text, nothing changes.
pub proof fn law_named_servers_go(
    config_text: Seq<char>,
    ids: Seq<Seq<char>>,
    result: Result<Seq<char>, ErrorView>,
)
    requires
        servers_stripped(config_text, ids, result),
        parsed_toml(config_text) matches Some(config) ==> config is Table,
    ensures
        ids.len() == 0 || is_blank(config_text) ==> result == Ok::<Seq<char>, ErrorView>(
            config_text,
        ),
        ids.len() > 0 && !is_blank(config_text) ==> {
            let config = parsed_toml(config_text);
            &&& result is Ok <==> config is Some
            &&& result is Ok ==> exists|left: TomlView|
                {
                    &&& #[trigger] is_written_as(result->Ok_0, left)
                    &&& left is Table
                    &&& has_lost_servers(config->0->Table_0, left->Table_0, ids)
                }
        },
{
    if ids.len() > 0 && !is_blank(config_text) && result is Ok {
        let config = parsed_toml(config_text)->0;
        let left = without_servers(config, ids);
        assert(is_written_as(result->Ok_0, left));
        let servers = config.member("mcp_servers"@);
        if servers.is_table_like() {
            let rest = without_names(servers, ids);
            assert forall|id: Seq<char>|
                #![trigger servers.members().contains_key(id)]
                servers.members().contains_key(id) && !ids.contains(
                    id,
                ) implies left.members().contains_key("mcp_servers"@) by {
                assert(rest.members().contains_key(id));
                assert(rest.members() != Map::<Seq<char>, TomlView>::empty());
            }
        }
        assert(has_lost_servers(config->Table_0, left->Table_0, ids));
    }
}

/// The servers that are looked for are those that are enabled for Codex, and no others.
pub proof fn law_synced_servers(config: ConfigView, id: Seq<char>)
    ensures
        synced_ids(config).contains(id) <==> config.mcp_servers is Some && exists|i: int|
            0 <= i < config.mcp_servers->0.len() && (#[trigger] config.mcp_servers->0[i]).id == id
                && config.mcp_servers->0[i].apps.codex,
{
    if let Some(servers) = config.mcp_servers {
        lemma_codex_servers(servers, id);
    }
}

/// The servers of a list that are enabled for Codex.
proof fn lemma_codex_servers(servers: Seq<McpServerView>, id: Seq<char>)
    ensures
        codex_server_ids(servers).contains(id) <==> exists|i: int|
            0 <= i < servers.len() && (#[trigger] servers[i]).id == id && servers[i].apps.codex,
    decreases servers.len(),
{
    if servers.len() > 0 {
        let before = servers.drop_last();
        let earlier = codex_server_ids(before);
        let all = codex_server_ids(servers);
        lemma_codex_servers(before, id);
        if earlier.contains(id) {
            let j = choose|j: int| 0 <= j < earlier.len() && earlier[j] == id;
            assert(all[j] == id);
            let i = choose|i: int|
                0 <= i < before.len() && (#[trigger] before[i]).id == id && before[i].apps.codex;
            assert(servers[i] == before[i]);
        }
        if servers.last().apps.codex && servers.last().id == id {
            assert(all[all.len() - 1] == id);
            assert(servers[servers.len() - 1].id == id);
        }
        if all.contains(id) && !earlier.contains(id) {
            let j = choose|j: int| 0 <= j < all.len() && all[j] == id;
            if j < earlier.len() {
                assert(earlier[j] == id);
            }
        }
        if exists|i: int|
            0 <= i < servers.len() && (#[trigger] servers[i]).id == id && servers[i].apps.codex {
            let i = choose|i: int|
                0 <= i < servers.len() && (#[trigger] servers[i]).id == id
                    && servers[i].apps.codex;
            if i < before.len() {
                assert(before[i] == servers[i]);
            }
        }
    }
}

/// Taking all servers out of the text of a configuration takes out all of `mcp_servers`, and
/// `servers` out of `mcp`, which goes where nothing else is in it. Everything else stays. A
/// blank text gives an empty one, and one that is no document is refused.
pub proof fn law_all_servers_go(config_toml: Seq<char>, result: Result<Seq<char>, ErrorView>)
    requires
        all_servers_stripped(config_toml, result),
        parsed_toml(trimmed(config_toml)) matches Some(config) ==> config is Table,
    ensures
        is_blank(config_toml) ==> result is Ok && result->Ok_0.len() == 0,
        !is_blank(config_toml) ==> {
            let config = parsed_toml(trimmed(config_toml));
            &&& result is Ok <==> config is Some
            &&& result is Ok ==> exists|left: TomlView|
                {
                    let before = config->0->Table_0;
                    let after = left->Table_0;
                    let mcp = before["mcp"@];
                    &&& #[trigger] is_written_as(result->Ok_0, left)
                    &&& left is Table
                    &&& !after.contains_key("mcp_servers"@)
                    &&& forall|key: Seq<char>|
                        key != "mcp_servers"@ && key != "mcp"@ ==> {
                            &&& #[trigger] after.contains_key(key) == before.contains_key(key)
                            &&& before.contains_key(key) ==> after[key] == before[key]
                        }
                    &&& !before.contains_key("mcp"@) ==> !after.contains_key("mcp"@)
                    &&& before.contains_key("mcp"@) && !(mcp is Table || mcp is Inline)
                        ==> after.contains_key("mcp"@) && after["mcp"@] == mcp
                    &&& before.contains_key("mcp"@) && (mcp is Table || mcp is Inline) ==> {
                        &&& after.contains_key("mcp"@) ==> after["mcp"@] == mcp.with_members(
                            mcp.members().remove("servers"@),
                        )
                        &&& after.contains_key("mcp"@) == (mcp.members().remove("servers"@)
                            != Map::<Seq<char>, TomlView>::empty())
                    }
                }
        },
{
    reveal_strlit("mcp");
    reveal_strlit("mcp_servers");
    assert("mcp"@.len() == 3);
    assert("mcp_servers"@.len() == 11);
    if !is_blank(config_toml) && result is Ok {
        let config = parsed_toml(trimmed(config_toml))->0;
        let left = without_any_server(config);
        assert(is_written_as(result->Ok_0, left));
        let mcp = config.members()["mcp"@];
        assert(config.with_member("mcp_servers"@, TomlView::Nothing).member("mcp"@)
            == config.member("mcp"@));
    }
}

/// Whether a section has the fields of a form: the address and the variable with the key
/// without blanks at their ends, or not at all where they are blank, but for the variable,
/// which falls back to `OPENAI_API_KEY`; the protocol by its name; and whether the key of
/// OpenAI is asked for. Everything else of the section stays.
pub open spec fn has_form_fields(
    before: Map<Seq<char>, TomlView>,
    after: Map<Seq<char>, TomlView>,
    base_url: Seq<char>,
    wire_api: CodexWireApi,
    requires_openai_auth: bool,
    env_key: Seq<char>,
) -> bool {
    &&& after.contains_key("base_url"@) == !is_blank(base_url)
    &&& !is_blank(base_url) ==> after["base_url"@] == TomlView::Str(trimmed(base_url))
    &&& after.contains_key("wire_api"@)
    &&& after["wire_api"@] == (match wire_api {
        CodexWireApi::Chat => TomlView::Str("chat"@),
        CodexWireApi::Responses => TomlView::Str("responses"@),
    })
    &&& after.contains_key("requires_openai_auth"@)
    &&& after["requires_openai_auth"@] == TomlView::Boolean(requires_openai_auth)
    &&& after.contains_key("env_key"@) == !requires_openai_auth
    &&& !requires_openai_auth ==> after["env_key"@] == TomlView::Str(
        if is_blank(env_key) {
            "OPENAI_API_KEY"@
        } else {
            trimmed(env_key)
        },
    )
    &&& forall|key: Seq<char>|
        key != "base_url"@ && key != "wire_api"@ && key != "requires_openai_auth"@ && key
            != "env_key"@ ==> {
            &&& #[trigger] after.contains_key(key) == before.contains_key(key)
            &&& before.contains_key(key) ==> after[key] == before[key]
        }
}

/// Whether a configuration has the fields of a form: the model at the uppermost level, or
/// none where it is blank; the other fields in the section that it names, which is made where
/// it is missing; and everything else as it was.
pub open spec fn has_form(
    before: Map<Seq<char>, TomlView>,
    after: Map<Seq<char>, TomlView>,
    base_url: Seq<char>,
    model: Seq<char>,
    wire_api: CodexWireApi,
    requires_openai_auth: bool,
    env_key: Seq<char>,
) -> bool {
    let named = before.contains_key("model_provider"@) && before["model_provider"@] is Str;
    let name = before["model_provider"@]->Str_0;
    let had = before.contains_key("model_providers"@);
    let sections = before["model_providers"@];
    let others = if had {
        sections.members()
    } else {
        Map::empty()
    };
    let sections_now = after["model_providers"@].members();
    &&& after.contains_key("model"@) == !is_blank(model)
    &&& !is_blank(model) ==> after["model"@] == TomlView::Str(trimmed(model))
    &&& forall|key: Seq<char>|
        key != "model"@ && key != "model_providers"@ ==> {
            &&& #[trigger] after.contains_key(key) == before.contains_key(key)
            &&& before.contains_key(key) ==> after[key] == before[key]
        }
    &&& !named ==> {
        &&& after.contains_key("model_providers"@) == had
        &&& had ==> after["model_providers"@] == sections
    }
    &&& named && (!had || sections is Table || sections is Inline) ==> {
        &&& after.contains_key("model_providers"@)
        &&& !(others.contains_key(name) && others[name] is Nothing) ==> sections_now.contains_key(
            name,
        )
        &&& forall|key: Seq<char>|
            key != name ==> {
                &&& #[trigger] sections_now.contains_key(key) == others.contains_key(key)
                &&& others.contains_key(key) ==> sections_now[key] == others[key]
            }
        &&& !others.contains_key(name) ==> has_form_fields(
            Map::empty(),
            sections_now[name].members(),
            base_url,
            wire_api,
            requires_openai_auth,
            env_key,
        )
        &&& others.contains_key(name) && (others[name] is Table || others[name] is Inline)
            ==> has_form_fields(
            others[name].members(),
            sections_now[name].members(),
            base_url,
            wire_api,
            requires_openai_auth,
            env_key,
        )
    }
}

/// Putting the fields of a form into the text of a configuration leaves one that has them. A
/// text that is no document stays as it is.
pub proof fn law_form_fields_are_written(
    original: Seq<char>,
    base_url: Seq<char>,
    model: Seq<char>,
    wire_api: CodexWireApi,
    requires_openai_auth: bool,
    env_key: Seq<char>,
    result: Seq<char>,
)
    requires
        snippet_updated(
            original,
            base_url,
            model,
            wire_api,
            requires_openai_auth,
            env_key,
            result,
        ),
        parsed_toml(trimmed(original)) matches Some(config) ==> config is Table,
    ensures
        parsed_toml(trimmed(original)) is None ==> result == original,
        parsed_toml(trimmed(original)) is Some ==> exists|written: Seq<char>, now: TomlView|
            {
                &&& #[trigger] is_written_as(written, now)
                &&& result == trimmed(written)
                &&& now is Table
                &&& has_form(
                    parsed_toml(trimmed(original))->0->Table_0,
                    now->Table_0,
                    base_url,
                    model,
                    wire_api,
                    requires_openai_auth,
                    env_key,
                )
            },
{
    lemma_config_names();
    lemma_section_names();
    if let Some(config) = parsed_toml(trimmed(original)) {
        let now = config_updated(config, base_url, model, wire_api, requires_openai_auth, env_key);
        let written = choose|written: Seq<char>| #[trigger]
            is_edited_text(
                written,
                trimmed(original),
                now,
                crate::codex_form::form_paths(config),
            ) && result == trimmed(written);
        assert(is_written_as(written, now));
        assert(has_form(
            config->Table_0,
            now->Table_0,
            base_url,
            model,
            wire_api,
            requires_openai_auth,
            env_key,
        ));
    }
}

/// How what stands at a path of tables is written, where anything does and it is no table.
pub open spec fn written_at(item: TomlLayout, path: Seq<Seq<char>>) -> Option<Seq<char>>
    decreases path.len(),
{
    if path.len() == 0 {
        match item {
            TomlLayout::Other(text) => Some(text),
            TomlLayout::Table(_, _) => None,
        }
    } else if item.entries().contains_key(path[0]) {
        written_at(item.entries()[path[0]], path.drop_first())
    } else {
        None
    }
}

/// Items with the same members have the same written in them.
proof fn lemma_same_written(left: TomlLayout, right: TomlLayout, path: Seq<Seq<char>>)
    requires
        same_entries(left, right),
    ensures
        written_at(left, path) == written_at(right, path),
    decreases path.len(),
{
    if path.len() > 0 {
        if let (TomlLayout::Table(_, l), TomlLayout::Table(_, r)) = (left, right) {
            assert(l.dom().contains(path[0]) == r.dom().contains(path[0]));
            if l.contains_key(path[0]) {
                lemma_same_written(l[path[0]], r[path[0]], path.drop_first());
            }
        }
    }
}

/// What is left of what is written.
proof fn lemma_written_left(
    target: TomlLayout,
    source: TomlLayout,
    path: Seq<Seq<char>>,
    text: Seq<char>,
)
    requires
        target is Table,
        source is Table,
        path.len() > 0,
    ensures
        ({
            let left = entries_left(target, source);
            let common = written_at(source, path);
            &&& written_at(target, path) == Some(text) && common is Some && trimmed(common->0)
                == trimmed(text) ==> written_at(left, path) is None
            &&& written_at(target, path) == Some(text) && runs_along(source, path) && !(common
                is Some && trimmed(common->0) == trimmed(text)) ==> written_at(left, path) == Some(
                text,
            )
            &&& written_at(left, path) == Some(text) ==> written_at(target, path) == Some(text)
        }),
    decreases path.len(),
{
    let key = path[0];
    let rest = path.drop_first();
    let left = entries_left(target, source);
    let t = target.entries()[key];
    let s = source.entries()[key];
    if target.entries().contains_key(key) && source.entries().contains_key(key) {
        if rest.len() > 0 && t is Table && s is Table {
            lemma_written_left(t, s, rest, text);
            let below = entries_left(t, s);
            if written_at(below, rest) is Some {
                assert(below.entries().contains_key(rest[0]));
                assert(below.entries() != Map::<Seq<char>, TomlLayout>::empty());
                assert(entry_left(t, s) == Some(below));
                assert(left.entries()[key] == below);
            }
            if runs_along(source, path) {
                assert(runs_along(s, rest));
            }
        } else {
            if rest.len() > 0 && runs_along(source, path) {
                assert(runs_along(s, rest));
            }
            if rest.len() > 0 && !(t is Table) {
                assert(t.entries() =~= Map::empty());
            }
            if rest.len() == 0 && written_at(t, rest) == Some(text) {
                assert(t == TomlLayout::Other(text));
                if s is Other {
                    assert(written_at(s, rest) == Some(s.text()));
                }
                if !written_alike(t, s) {
                    assert(entry_left(t, s) == Some(t));
                }
            }
            if left.entries().contains_key(key) {
                let now = left.entries()[key];
                assert(now == entry_left(t, s)->0);
            }
        }
    }
}

/// Whether a path runs along the tables of an item, or leaves it where a name is missing.
pub open spec fn runs_along(item: TomlLayout, path: Seq<Seq<char>>) -> bool
    decreases path.len(),
{
    path.len() > 0 ==> {
        &&& item is Table
        &&& item.entries().contains_key(path[0]) && path.len() > 1 ==> runs_along(
            item.entries()[path[0]],
            path.drop_first(),
        )
        &&& item.entries().contains_key(path[0]) && path.len() == 1 ==> item.entries()[path[0]]
            is Other
    }
}

/// Taking the members that two tables have in common out of the first takes out what both have
/// written at the same path, but for the blanks around it; whatever else is written in the
/// first stays, and nothing is added.
pub proof fn law_what_is_written_alike_goes(
    target: TomlLayout,
    source: TomlLayout,
    after: TomlLayout,
    path: Seq<Seq<char>>,
    text: Seq<char>,
)
    requires
        target is Table,
        source is Table,
        same_entries(after, entries_left(target, source)),
        path.len() > 0,
    ensures
        ({
            let common = written_at(source, path);
            &&& written_at(target, path) == Some(text) && common is Some && trimmed(common->0)
                == trimmed(text) ==> written_at(after, path) is None
            &&& written_at(target, path) == Some(text) && runs_along(source, path) && !(common
                is Some && trimmed(common->0) == trimmed(text)) ==> written_at(after, path) == Some(
                text,
            )
            &&& written_at(after, path) == Some(text) ==> written_at(target, path) == Some(text)
        }),
{
    lemma_written_left(target, source, path, text);
    lemma_same_written(after, entries_left(target, source), path);
}

/// A form can be put into a configuration unless that names a provider and has something under
/// `model_providers` that is no table.
pub proof fn law_where_a_form_fits(config: Map<Seq<char>, TomlView>)
    ensures
        has_sections(TomlView::Table(config)) <==> {
            let named = config.contains_key("model_provider"@) && config["model_provider"@] is Str;
            let sections = config["model_providers"@];
            named && config.contains_key("model_providers"@) ==> sections is Table || sections
                is Inline
        },
{
}

} // verus!
