//! Which lines of a Codex configuration stay as they are written, comments and all, while
//! something else in it is changed.
use vstd::prelude::*;

use crate::codex::{is_own_text, own_text_merged};
use crate::codex_form::{config_updated, form_paths, snippet_updated, CodexWireApi};
use crate::codex_snippet::all_servers_stripped;
use crate::common_config::{config_stripped, servers_stripped};
use crate::json::JsonView;
use crate::live_laws::says_official;
use crate::model::ProviderView;
use crate::text::{is_blank, trimmed};
use crate::toml_doc::{
    is_edited_text, occurs, parsed_lines, parsed_toml, paths_in_member, TomlView,
};
use crate::toml_ops::{laid_paths, lays_over, taken_paths, takes_from};
use crate::toml_path_laws::{lemma_stands_in, says_nothing, stands_in};

verus! {

/// A table that says nothing at a path touches nothing there.
proof fn lemma_silent_table(source: TomlView, path: Seq<Seq<char>>)
    requires
        says_nothing(source, path),
    ensures
        !takes_from(source, path),
        !lays_over(source, path),
    decreases path.len(),
{
    if source.members().contains_key(path[0]) {
        lemma_silent_table(source.members()[path[0]], path.drop_first());
    }
}

/// Whether a line of a text, as the reader found it at a path, is in another text.
pub open spec fn keeps_line(original: Seq<char>, text: Seq<char>, path: Seq<Seq<char>>) -> bool {
    text == original || stands_in(text, parsed_lines(original)[path])
}

/// A line that is found stands there.
proof fn lemma_keeps_line(original: Seq<char>, text: Seq<char>, path: Seq<Seq<char>>)
    requires
        text == original || occurs(text, parsed_lines(original)[path]),
    ensures
        keeps_line(original, text, path),
{
    if text != original {
        lemma_stands_in(text, parsed_lines(original)[path]);
    }
}

/// Taking the common snippet out of a configuration leaves every line that the snippet says
/// nothing about.
pub proof fn law_lines_stay_without_snippet(
    config_text: Seq<char>,
    snippet: Seq<char>,
    text: Seq<char>,
    path: Seq<Seq<char>>,
)
    requires
        config_stripped(config_text, snippet, Ok(text)),
        parsed_lines(config_text).contains_key(path),
        parsed_toml(snippet) matches Some(common) ==> says_nothing(common, path),
    ensures
        keeps_line(config_text, text, path),
{
    if let Some(common) = parsed_toml(snippet) {
        lemma_silent_table(common, path);
        assert(!taken_paths(common).contains(path));
    }
    lemma_keeps_line(config_text, text, path);
}

/// Laying the common snippet over a configuration leaves every line that the snippet says
/// nothing about.
pub proof fn law_lines_stay_under_snippet(
    own: Seq<char>,
    snippet: Seq<char>,
    apply: bool,
    text: Seq<char>,
    path: Seq<Seq<char>>,
)
    requires
        own_text_merged(own, Some(snippet), apply, Ok(text)),
        parsed_lines(own).contains_key(path),
        parsed_toml(trimmed(snippet)) matches Some(common) ==> says_nothing(common, path),
    ensures
        keeps_line(own, text, path),
{
    if let Some(common) = parsed_toml(trimmed(snippet)) {
        lemma_silent_table(common, path);
        assert(!laid_paths(common).contains(path));
    }
    lemma_keeps_line(own, text, path);
}

/// The text of a provider that does not say it is the official one is taken as it is; one of
/// the official provider keeps every line outside its section.
pub proof fn law_lines_stay_for_official_provider(
    provider: ProviderView,
    stored: Seq<char>,
    text: Seq<char>,
    path: Seq<Seq<char>>,
)
    requires
        is_own_text(provider, text),
        provider.settings_config is Object,
        provider.settings_config->Object_0.contains_key("config"@),
        provider.settings_config->Object_0["config"@] == JsonView::Str(stored),
        parsed_lines(stored).contains_key(path),
        path.len() > 0,
    ensures
        !says_official(provider) ==> text == stored,
        path[0] != "model_providers"@ ==> keeps_line(stored, text, path),
        path.len() == 3 && path[2] != "wire_api"@ && path[2] != "requires_openai_auth"@
            ==> keeps_line(stored, text, path),
{
    assert(crate::common_config::is_official(provider) == says_official(provider));
    if path.len() == 3 && path[2] != "wire_api"@ && path[2] != "requires_openai_auth"@ {
        let names = seq!["wire_api"@, "requires_openai_auth"@];
        assert(path.drop_first()[1] == path[2]);
        assert(!names.contains(path[2])) by {
            if names.contains(path[2]) {
                let i = choose|i: int| 0 <= i < names.len() && names[i] == path[2];
                assert(i == 0 || i == 1);
            }
        }
    }
    if path[0] != "model_providers"@ || (path.len() == 3 && path[2] != "wire_api"@ && path[2]
        != "requires_openai_auth"@) {
        lemma_keeps_line(stored, text, path);
    }
}

/// Taking servers out of a configuration leaves every line but those of these servers, and
/// that of the table itself.
pub proof fn law_lines_stay_without_servers(
    config_text: Seq<char>,
    ids: Seq<Seq<char>>,
    text: Seq<char>,
    path: Seq<Seq<char>>,
)
    requires
        servers_stripped(config_text, ids, Ok(text)),
        parsed_lines(config_text).contains_key(path),
        path.len() > 0,
        path[0] != "mcp_servers"@ || (path.len() > 1 && !ids.contains(path[1])),
    ensures
        keeps_line(config_text, text, path),
{
    assert(!paths_in_member("mcp_servers"@, ids).contains(path));
    lemma_keeps_line(config_text, text, path);
}

/// Taking all servers out of a configuration leaves every line but theirs.
pub proof fn law_lines_stay_without_any_server(
    config_toml: Seq<char>,
    text: Seq<char>,
    path: Seq<Seq<char>>,
)
    requires
        all_servers_stripped(config_toml, Ok(text)),
        !is_blank(config_toml),
        parsed_lines(trimmed(config_toml)).contains_key(path),
        path.len() > 0,
        path[0] != "mcp_servers"@,
        path[0] != "mcp"@ || (path.len() > 1 && path[1] != "servers"@),
    ensures
        keeps_line(trimmed(config_toml), text, path),
{
    let names = seq!["servers"@];
    if path.len() > 1 && names.contains(path[1]) {
        let i = choose|i: int| 0 <= i < names.len() && names[i] == path[1];
        assert(i == 0);
    }
    assert(!crate::codex_snippet::any_server_paths().contains(path));
    lemma_keeps_line(trimmed(config_toml), text, path);
}

/// Putting the fields of a form into a configuration leaves every line but those of its
/// fields: the model, and in the section that the configuration names the address, the
/// protocol, whether the key of OpenAI is asked for, and the variable with the key.
pub proof fn law_lines_stay_around_form(
    original: Seq<char>,
    base_url: Seq<char>,
    model: Seq<char>,
    wire_api: CodexWireApi,
    requires_openai_auth: bool,
    env_key: Seq<char>,
    result: Seq<char>,
    path: Seq<Seq<char>>,
)
    requires
        snippet_updated(
            original,
            base_url,
            model,
            wire_api,
            requires_openai_auth,
            env_key,
            result,
        ),
        parsed_toml(trimmed(original)) is Some,
        parsed_lines(trimmed(original)).contains_key(path),
        path.len() > 0,
        path[0] != "model"@,
        path[0] != "model_providers"@ || (path.len() == 3 && path[2] != "base_url"@ && path[2]
            != "wire_api"@ && path[2] != "requires_openai_auth"@ && path[2] != "env_key"@),
    ensures
        exists|written: Seq<char>|
            result == #[trigger] trimmed(written) && stands_in(
                written,
                parsed_lines(trimmed(original))[path],
            ),
{
    let config = parsed_toml(trimmed(original))->0;
    let now = config_updated(config, base_url, model, wire_api, requires_openai_auth, env_key);
    let written = choose|written: Seq<char>| #[trigger]
        is_edited_text(written, trimmed(original), now, form_paths(config)) && result == trimmed(
            written,
        );
    let names = crate::codex_form::section_keys();
    if path.len() == 3 {
        assert(path.drop_first()[1] == path[2]);
        if path[2] != "base_url"@ && path[2] != "wire_api"@ && path[2] != "requires_openai_auth"@
            && path[2] != "env_key"@ && names.contains(path[2]) {
            let i = choose|i: int| 0 <= i < names.len() && names[i] == path[2];
            assert(i == 0 || i == 1 || i == 2 || i == 3);
        }
    }
    assert(!form_paths(config).contains(path));
    lemma_stands_in(written, parsed_lines(trimmed(original))[path]);
}

} // verus!
