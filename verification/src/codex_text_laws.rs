//! What becomes of Codex configurations, name by name.
use vstd::prelude::*;

use crate::codex_form::{escaped, fields_parsed, new_config_lines, CodexWireApi};
use crate::codex_migration::{
    auth_lines, is_provider_key, key_source, migrated, migrated_lines, opens_table, other_lines,
    plain_text_or, text_line,
};
use crate::codex_snippet::{
    migrated_upto, snippet_gone, snippet_migrated, snippet_sticks, snippet_taken_out,
    snippet_tried, with_config_text,
};
use crate::common_config::{
    codex_config_text, common_part, config_stripped, is_common_text, is_kept_text, own_keys,
    snippet_extracted, tidied, uses_common,
};
use crate::config::ConfigView;
use crate::error::ErrorView;
use crate::live_laws::{says_something, was_told_no, was_told_yes};
use crate::model::{AppType, ProviderView};
use crate::snapshots::text_or_empty;
use crate::store_laws::agree_elsewhere;
use crate::taking_back_laws::{is_noted, is_same_provider};
use crate::text::{is_blank, lines_joined, trimmed};
use crate::text_laws::lemma_trimmed_twice;
use crate::toml_doc::{
    named_paths, parsed_lines, parsed_text, parsed_toml, parsed_trailing, toml_parse_error,
    TomlView,
};
use crate::toml_path_laws::{is_written_as, lemma_stands_in, stands_in};
use crate::toml_plain::{entry_text, plain_keys, plain_table, plain_view, PlainView};

verus! {

/// Whether a key says something about one provider, or about this machine.
pub open spec fn is_private_name(key: Seq<char>) -> bool {
    ||| key == "model"@
    ||| key == "model_provider"@
    ||| key == "base_url"@
    ||| key == "model_providers"@
    ||| key == "projects"@
    ||| key == "trusted_workspaces"@
}

/// Whether a table holds all of another but what says something about one provider, or about
/// this machine.
pub open spec fn holds_what_is_shared(
    config: Map<Seq<char>, TomlView>,
    contents: Map<Seq<char>, TomlView>,
) -> bool {
    &&& !contents.contains_key("model"@)
    &&& !contents.contains_key("model_provider"@)
    &&& !contents.contains_key("base_url"@)
    &&& !contents.contains_key("model_providers"@)
    &&& !contents.contains_key("projects"@)
    &&& !contents.contains_key("trusted_workspaces"@)
    &&& forall|key: Seq<char>|
        !is_private_name(key) ==> {
            &&& #[trigger] contents.contains_key(key) == config.contains_key(key)
            &&& config.contains_key(key) ==> contents[key] == config[key]
        }
}

/// Whether a text is how a document that holds this is kept, with what was written after the
/// last entry and with every line of the original that is shared.
pub open spec fn is_shared_text(
    snippet: Seq<char>,
    written: Seq<char>,
    original: Seq<char>,
    contents: Map<Seq<char>, TomlView>,
) -> bool {
    &&& is_written_as(written, TomlView::Table(contents))
    &&& snippet == tidied(written)
    &&& parsed_trailing(original).is_suffix_of(written)
    &&& forall|path: Seq<Seq<char>>| #[trigger]
        parsed_lines(original).contains_key(path) && path.len() > 0 && !is_private_name(path[0])
            ==> stands_in(written, parsed_lines(original)[path])
}

/// The common snippet of a configuration that can be read holds, as it is written, neither
/// `model`, `model_provider`, `base_url` nor `model_providers`, and neither `projects` nor
/// `trusted_workspaces`, and every other entry of the uppermost level unchanged. Where the
/// snippet is read as it was written, so does what is read.
pub proof fn law_snippet_holds_what_is_shared(
    config_toml: Seq<char>,
    config: Map<Seq<char>, TomlView>,
    result: Result<Seq<char>, ErrorView>,
)
    requires
        snippet_extracted(config_toml, result),
        !is_blank(config_toml),
        parsed_toml(trimmed(config_toml)) == Some(TomlView::Table(config)),
    ensures
        result is Ok,
        exists|written: Seq<char>, contents: Map<Seq<char>, TomlView>|
            {
                &&& #[trigger] is_shared_text(
                    result->Ok_0,
                    written,
                    trimmed(config_toml),
                    contents,
                )
                &&& holds_what_is_shared(config, contents)
                &&& contents == config ==> written == parsed_text(trimmed(config_toml))
                &&& parsed_toml(result->Ok_0) == parsed_toml(written) && parsed_toml(written)
                    == Some(TomlView::Table(contents)) ==> (parsed_toml(result->Ok_0) matches Some(
                    TomlView::Table(read),
                ) && holds_what_is_shared(config, read))
            },
{
    let snippet = result->Ok_0;
    let whole = TomlView::Table(config);
    let original = trimmed(config_toml);
    assert(is_kept_text(snippet, original, whole));
    let written = choose|written: Seq<char>| #[trigger]
        is_common_text(written, original, whole) && snippet == tidied(written);
    let contents = common_part(whole).members();
    assert(common_part(whole) == TomlView::Table(contents));
    assert forall|path: Seq<Seq<char>>| #[trigger]
        parsed_lines(original).contains_key(path) && path.len() > 0 && !is_private_name(
            path[0],
        ) implies stands_in(written, parsed_lines(original)[path]) by {
        if named_paths(own_keys()).contains(path) {
            let i = choose|i: int| 0 <= i < own_keys().len() && own_keys()[i] == path[0];
            assert(is_private_name(own_keys()[i]));
        }
        lemma_stands_in(written, parsed_lines(original)[path]);
    }
    assert(is_shared_text(snippet, written, original, contents));
    assert(holds_what_is_shared(config, contents));
}

/// A blank configuration has an empty snippet; one that is no document has none, and the
/// reader says why.
pub proof fn law_when_there_is_a_snippet(
    config_toml: Seq<char>,
    result: Result<Seq<char>, ErrorView>,
)
    requires
        snippet_extracted(config_toml, result),
    ensures
        is_blank(config_toml) ==> result is Ok && result->Ok_0.len() == 0,
        result is Err <==> !is_blank(config_toml) && parsed_toml(trimmed(config_toml)) is None,
        result is Err ==> result->Err_0 == ErrorView::Message(
            "TOML parse error: "@ + toml_parse_error(trimmed(config_toml)),
        ),
{
}

/// Lines with a line feed after each of them.
pub open spec fn ended_lines(lines: Seq<Seq<char>>) -> Seq<char>
    decreases lines.len(),
{
    if lines.len() == 0 {
        Seq::empty()
    } else {
        ended_lines(lines.drop_last()) + lines.last() + "\n"@
    }
}

/// Lines with a line feed after each of them, in two parts.
proof fn lemma_ended_parts(left: Seq<Seq<char>>, right: Seq<Seq<char>>)
    ensures
        ended_lines(left + right) == ended_lines(left) + ended_lines(right),
    decreases right.len(),
{
    if right.len() == 0 {
        assert(left + right =~= left);
        assert(ended_lines(left) + ended_lines(right) =~= ended_lines(left));
    } else {
        assert((left + right).drop_last() =~= left + right.drop_last());
        lemma_ended_parts(left, right.drop_last());
        assert(ended_lines(left + right) =~= ended_lines(left) + ended_lines(right));
    }
}

/// Lines that are joined, the last of which is empty, have a line feed after each other one.
proof fn lemma_joined_lines(lines: Seq<Seq<char>>)
    ensures
        lines.len() > 0 ==> lines_joined(lines) + "\n"@ == ended_lines(lines),
        lines_joined(lines + seq![""@]) == ended_lines(lines),
    decreases lines.len(),
{
    reveal_strlit("\n");
    reveal_strlit("");
    reveal_with_fuel(ended_lines, 2);
    assert("\n"@ =~= seq!['\n']);
    let all = lines + seq![""@];
    assert(all.drop_last() =~= lines);
    if lines.len() == 0 {
        assert(lines_joined(all) =~= ended_lines(lines));
    } else {
        if lines.len() == 1 {
            assert(lines.drop_last() =~= Seq::empty());
            assert(lines_joined(lines) + "\n"@ =~= ended_lines(lines));
        } else {
            lemma_joined_lines(lines.drop_last());
            assert(lines_joined(lines) + "\n"@ =~= ended_lines(lines));
        }
        assert(lines_joined(all) =~= ended_lines(lines));
    }
}

/// What a legacy configuration says under a name, or something else where it says nothing.
pub open spec fn said_under(
    members: Map<Seq<char>, PlainView>,
    key: Seq<char>,
    otherwise: Seq<char>,
) -> Seq<char> {
    if members.contains_key(key) && members[key] is Str {
        trimmed(members[key]->Str_0)
    } else {
        otherwise
    }
}

/// Whether the reader of an entry finds it written there.
pub open spec fn is_entry_line(table: toml::Value, key: Seq<char>, line: Seq<char>) -> bool {
    entry_text(table, key) matches Some(text) && line == trimmed(text)
}

/// Whether a key moves into the section of the provider.
pub open spec fn moves_to_section(key: Seq<char>) -> bool {
    ||| key == "base_url"@
    ||| key == "model"@
    ||| key == "wire_api"@
    ||| key == "requires_openai_auth"@
    ||| key == "env_key"@
    ||| key == "name"@
}

/// Whether a line is how one of these entries is written, and it does not move into the
/// section of the provider.
pub open spec fn is_other_entry(
    table: toml::Value,
    keys: Seq<Seq<char>>,
    line: Seq<char>,
) -> bool {
    exists|key: Seq<char>|
        keys.contains(key) && !moves_to_section(key) && #[trigger] is_entry_line(table, key, line)
}

/// Whether lines are what else a legacy configuration holds: a line for each entry that can
/// be written and does not move into the section of the provider, and no other; first those
/// that stay at the uppermost level, then those that open a table.
pub open spec fn are_other_entries(table: toml::Value, lines: Seq<Seq<char>>) -> bool {
    &&& forall|key: Seq<char>, line: Seq<char>|
        plain_keys(table).contains(key) && !moves_to_section(key) && #[trigger] is_entry_line(
            table,
            key,
            line,
        ) ==> lines.contains(line)
    &&& forall|i: int|
        #![trigger lines[i]]
        0 <= i < lines.len() ==> is_other_entry(table, plain_keys(table), lines[i])
    &&& forall|i: int, j: int|
        #![trigger lines[i], lines[j]]
        0 <= i < j < lines.len() && lines[i].len() > 0 && lines[i][0] == '[' ==> lines[j].len() > 0
            && lines[j][0] == '['
}

/// The lines for the other entries are those of the entries that do not belong to the
/// provider.
proof fn lemma_other_lines(
    table: toml::Value,
    keys: Seq<Seq<char>>,
    opening: bool,
    key: Seq<char>,
    line: Seq<char>,
)
    ensures
        keys.contains(key) && !moves_to_section(key) && is_entry_line(table, key, line)
            && opens_table(line) == opening ==> other_lines(table, keys, opening).contains(line),
        forall|i: int|
            0 <= i < other_lines(table, keys, opening).len() ==> {
                &&& opens_table(#[trigger] other_lines(table, keys, opening)[i]) == opening
                &&& is_other_entry(table, keys, other_lines(table, keys, opening)[i])
            },
    decreases keys.len(),
{
    if keys.len() > 0 {
        let last = keys.last();
        let before = keys.drop_last();
        let earlier = other_lines(table, before, opening);
        let all = other_lines(table, keys, opening);
        lemma_other_lines(table, before, opening, key, line);
        assert(is_provider_key(last) == moves_to_section(last));
        assert(keys[keys.len() - 1] == last);
        if keys.contains(key) && !moves_to_section(key) && is_entry_line(table, key, line)
            && opens_table(line) == opening {
            let i = choose|i: int| 0 <= i < keys.len() && keys[i] == key;
            if i < keys.len() - 1 {
                assert(before[i] == key);
                assert(earlier.contains(line));
                let j = choose|j: int| 0 <= j < earlier.len() && earlier[j] == line;
                assert(all[j] == line);
            } else {
                assert(all[all.len() - 1] == line);
            }
        }
        assert forall|i: int| 0 <= i < all.len() implies {
            &&& opens_table(#[trigger] all[i]) == opening
            &&& is_other_entry(table, keys, all[i])
        } by {
            if i < earlier.len() {
                assert(all[i] == earlier[i]);
                let key = choose|key: Seq<char>|
                    before.contains(key) && !moves_to_section(key) && #[trigger] is_entry_line(
                        table,
                        key,
                        earlier[i],
                    );
                let j = choose|j: int| 0 <= j < before.len() && before[j] == key;
                assert(keys[j] == key);
                assert(is_entry_line(table, key, all[i]));
            } else {
                assert(keys.contains(last));
                assert(is_entry_line(table, last, all[i]));
            }
        }
    }
}

/// The other lines of a configuration that is rebuilt, all together.
proof fn lemma_all_other_lines(table: toml::Value)
    ensures
        are_other_entries(
            table,
            other_lines(table, plain_keys(table), false) + other_lines(
                table,
                plain_keys(table),
                true,
            ),
        ),
{
    let keys = plain_keys(table);
    let closed_lines = other_lines(table, keys, false);
    let open_lines = other_lines(table, keys, true);
    let lines = closed_lines + open_lines;
    assert forall|key: Seq<char>, line: Seq<char>|
        keys.contains(key) && !moves_to_section(key) && #[trigger] is_entry_line(
            table,
            key,
            line,
        ) implies lines.contains(line) by {
        lemma_other_lines(table, keys, false, key, line);
        lemma_other_lines(table, keys, true, key, line);
        if opens_table(line) {
            let j = choose|j: int| 0 <= j < open_lines.len() && open_lines[j] == line;
            assert(lines[closed_lines.len() + j] == line);
        } else {
            let j = choose|j: int| 0 <= j < closed_lines.len() && closed_lines[j] == line;
            assert(lines[j] == line);
        }
    }
    lemma_other_lines(table, keys, false, Seq::empty(), Seq::empty());
    lemma_other_lines(table, keys, true, Seq::empty(), Seq::empty());
    assert forall|i: int|
        #![trigger lines[i]]
        0 <= i < lines.len() implies is_other_entry(table, keys, lines[i]) by {
        if i < closed_lines.len() {
            assert(lines[i] == closed_lines[i]);
        } else {
            assert(lines[i] == open_lines[i - closed_lines.len()]);
        }
    }
    assert forall|i: int, j: int|
        #![trigger lines[i], lines[j]]
        0 <= i < j < lines.len() && lines[i].len() > 0 && lines[i][0] == '[' implies lines[j].len()
        > 0 && lines[j][0] == '[' by {
        if i < closed_lines.len() {
            assert(lines[i] == closed_lines[i]);
            assert(opens_table(closed_lines[i]) == false);
        } else {
            assert(lines[j] == open_lines[j - closed_lines.len()]);
            assert(opens_table(open_lines[j - closed_lines.len()]) == true);
        }
    }
}

/// A line that assigns a text, with a line feed after it.
proof fn lemma_ended_text(name: Seq<char>, start: Seq<char>, text: Seq<char>)
    requires
        start == name + " = \""@,
    ensures
        ended_lines(seq![text_line(name, text)]) == start + text + "\"\n"@,
{
    reveal_strlit("\"");
    reveal_strlit("\n");
    reveal_strlit("\"\n");
    let lines = seq![text_line(name, text)];
    assert(lines.drop_last() =~= Seq::empty());
    reveal_with_fuel(ended_lines, 2);
    assert(ended_lines(lines) =~= start + text + "\"\n"@);
}

/// A single line with a line feed after it.
proof fn lemma_ended_line(line: Seq<char>)
    ensures
        ended_lines(seq![line]) == line + "\n"@,
{
    let lines = seq![line];
    assert(lines.drop_last() =~= Seq::empty());
    reveal_with_fuel(ended_lines, 2);
    assert(ended_lines(lines) =~= line + "\n"@);
}

/// How the assignments of a rebuilt configuration begin.
proof fn lemma_starts()
    ensures
        "model_provider = \""@ == "model_provider"@ + " = \""@,
        "model = \""@ == "model"@ + " = \""@,
        "name = \""@ == "name"@ + " = \""@,
        "base_url = \""@ == "base_url"@ + " = \""@,
        "wire_api = \""@ == "wire_api"@ + " = \""@,
        "env_key = \""@ == "env_key"@ + " = \""@,
        "requires_openai_auth = true\n"@ == "requires_openai_auth = true"@ + "\n"@,
        "requires_openai_auth = false\n"@ == "requires_openai_auth = false"@ + "\n"@,
{
    reveal_strlit(" = \"");
    reveal_strlit("\n");
    reveal_strlit("model_provider = \"");
    reveal_strlit("model_provider");
    reveal_strlit("model = \"");
    reveal_strlit("model");
    reveal_strlit("name = \"");
    reveal_strlit("name");
    reveal_strlit("base_url = \"");
    reveal_strlit("base_url");
    reveal_strlit("wire_api = \"");
    reveal_strlit("wire_api");
    reveal_strlit("env_key = \"");
    reveal_strlit("env_key");
    reveal_strlit("requires_openai_auth = true\n");
    reveal_strlit("requires_openai_auth = true");
    reveal_strlit("requires_openai_auth = false\n");
    reveal_strlit("requires_openai_auth = false");
    assert("model_provider = \""@ =~= "model_provider"@ + " = \""@);
    assert("model = \""@ =~= "model"@ + " = \""@);
    assert("name = \""@ =~= "name"@ + " = \""@);
    assert("base_url = \""@ =~= "base_url"@ + " = \""@);
    assert("wire_api = \""@ =~= "wire_api"@ + " = \""@);
    assert("env_key = \""@ =~= "env_key"@ + " = \""@);
    assert("requires_openai_auth = true\n"@ =~= "requires_openai_auth = true"@ + "\n"@);
    assert("requires_openai_auth = false\n"@ =~= "requires_openai_auth = false"@ + "\n"@);
}

/// What is said under a name, with something else for what is not.
proof fn lemma_said(table: PlainView)
    requires
        table is Table,
    ensures
        ({
            let members = table->Table_0;
            &&& plain_text_or(table, "base_url"@, ""@) == said_under(members, "base_url"@, ""@)
            &&& plain_text_or(table, "model"@, "gpt-5.2-codex"@) == said_under(
                members,
                "model"@,
                "gpt-5.2-codex"@,
            )
            &&& plain_text_or(table, "wire_api"@, "responses"@) == said_under(
                members,
                "wire_api"@,
                "responses"@,
            )
        }),
{
    reveal_strlit("");
    reveal_strlit("gpt-5.2-codex");
    reveal_strlit("responses");
    assert(trimmed(""@) == ""@);
    assert(trimmed("gpt-5.2-codex"@) == "gpt-5.2-codex"@);
    assert(trimmed("responses"@) == "responses"@);
}

/// The section of the provider in a configuration that is rebuilt.
pub open spec fn provider_section(
    members: Map<Seq<char>, PlainView>,
    provider_key: Seq<char>,
) -> Seq<char> {
    let base_url = said_under(members, "base_url"@, ""@);
    let refused = members.contains_key("requires_openai_auth"@)
        && members["requires_openai_auth"@] == PlainView::Boolean(false);
    let env_key = said_under(members, "env_key"@, ""@);
    "\n[model_providers."@ + provider_key + "]\n"@ + ("name = \""@ + provider_key + "\"\n"@) + (
    if base_url.len() > 0 {
        "base_url = \""@ + base_url + "\"\n"@
    } else {
        Seq::empty()
    }) + ("wire_api = \""@ + said_under(members, "wire_api"@, "responses"@) + "\"\n"@) + (
    if !refused {
        "requires_openai_auth = true\n"@
    } else if env_key.len() == 0 {
        "requires_openai_auth = false\n"@
    } else {
        "requires_openai_auth = false\n"@ + ("env_key = \""@ + env_key + "\"\n"@)
    })
}

/// The lines on how the provider is authenticated, with a line feed after each.
proof fn lemma_ended_auth(table: PlainView)
    requires
        table is Table,
    ensures
        ({
            let members = table->Table_0;
            let refused = members.contains_key("requires_openai_auth"@)
                && members["requires_openai_auth"@] == PlainView::Boolean(false);
            let env_key = said_under(members, "env_key"@, ""@);
            ended_lines(auth_lines(table)) == (if !refused {
                "requires_openai_auth = true\n"@
            } else if env_key.len() == 0 {
                "requires_openai_auth = false\n"@
            } else {
                "requires_openai_auth = false\n"@ + ("env_key = \""@ + env_key + "\"\n"@)
            })
        }),
{
    let members = table->Table_0;
    lemma_starts();
    lemma_ended_line("requires_openai_auth = true"@);
    lemma_ended_line("requires_openai_auth = false"@);
    reveal_strlit("");
    let env_key = said_under(members, "env_key"@, ""@);
    lemma_ended_text("env_key"@, "env_key = \""@, env_key);
    lemma_ended_parts(
        seq!["requires_openai_auth = false"@],
        seq![text_line("env_key"@, env_key)],
    );
    assert(seq!["requires_openai_auth = false"@, text_line("env_key"@, env_key)] =~= seq![
        "requires_openai_auth = false"@,
    ] + seq![text_line("env_key"@, env_key)]);
}

/// The lines of the section of the provider, with an empty one before them.
spec fn section_lines(view: PlainView, provider_key: Seq<char>) -> Seq<Seq<char>> {
    let base_url = plain_text_or(view, "base_url"@, ""@);
    seq![""@, "[model_providers."@ + provider_key + "]"@] + seq![
        text_line("name"@, provider_key),
    ] + (if base_url.len() > 0 {
        seq![text_line("base_url"@, base_url)]
    } else {
        Seq::empty()
    }) + seq![text_line("wire_api"@, plain_text_or(view, "wire_api"@, "responses"@))] + auth_lines(
        view,
    )
}

/// How the section of the provider begins.
proof fn lemma_ended_header(provider_key: Seq<char>)
    ensures
        ended_lines(seq![""@, "[model_providers."@ + provider_key + "]"@])
            == "\n[model_providers."@ + provider_key + "]\n"@,
{
    let header = "[model_providers."@ + provider_key + "]"@;
    lemma_ended_parts(seq![""@], seq![header]);
    lemma_ended_line(""@);
    lemma_ended_line(header);
    assert(seq![""@, header] =~= seq![""@] + seq![header]);
    reveal_strlit("");
    reveal_strlit("\n");
    reveal_strlit("]");
    reveal_strlit("]\n");
    reveal_strlit("[model_providers.");
    reveal_strlit("\n[model_providers.");
    assert("\n[model_providers."@ =~= ""@ + "\n"@ + "[model_providers."@);
    assert("]\n"@ =~= "]"@ + "\n"@);
    assert(ended_lines(seq![""@, header]) =~= "\n[model_providers."@ + provider_key + "]\n"@);
}

/// The section of the provider, with a line feed after each line.
proof fn lemma_ended_section(view: PlainView, provider_key: Seq<char>)
    requires
        view is Table,
    ensures
        ended_lines(section_lines(view, provider_key)) == provider_section(
            view->Table_0,
            provider_key,
        ),
{
    let members = view->Table_0;
    let base_url = said_under(members, "base_url"@, ""@);
    let wire_api = said_under(members, "wire_api"@, "responses"@);
    let header = seq![""@, "[model_providers."@ + provider_key + "]"@];
    let name = seq![text_line("name"@, provider_key)];
    let address = if base_url.len() > 0 {
        seq![text_line("base_url"@, base_url)]
    } else {
        Seq::empty()
    };
    let protocol = seq![text_line("wire_api"@, wire_api)];
    lemma_starts();
    lemma_said(view);
    lemma_ended_header(provider_key);
    lemma_ended_text("name"@, "name = \""@, provider_key);
    lemma_ended_text("base_url"@, "base_url = \""@, base_url);
    lemma_ended_text("wire_api"@, "wire_api = \""@, wire_api);
    lemma_ended_auth(view);
    lemma_ended_parts(header + name + address + protocol, auth_lines(view));
    lemma_ended_parts(header + name + address, protocol);
    lemma_ended_parts(header + name, address);
    lemma_ended_parts(header, name);
}

/// A legacy configuration is rebuilt to one that names its provider and model, keeps what
/// else there was, and ends with the section of the provider: with its name, the address
/// and the protocol as they were given, `requires_openai_auth` as it was given and true
/// where it was not, and, where it is false, the name of the variable with the key as it was
/// given.
pub proof fn law_migrated_section(
    cfg_text: Seq<char>,
    provider_key: Seq<char>,
    text: Seq<char>,
    table: toml::Value,
)
    requires
        migrated(cfg_text, provider_key) == Some(text),
        plain_table(trimmed(cfg_text)) == Some(table),
        plain_view(table) is Table,
    ensures
        exists|others: Seq<Seq<char>>|
            {
                let members = plain_view(table)->Table_0;
                &&& #[trigger] are_other_entries(table, others)
                &&& text == ("model_provider = \""@ + provider_key + "\"\n"@) + ("model = \""@
                    + said_under(members, "model"@, "gpt-5.2-codex"@) + "\"\n"@) + ended_lines(
                    others,
                ) + provider_section(members, provider_key)
            },
{
    let view = plain_view(table);
    let keys = plain_keys(table);
    let others = other_lines(table, keys, false) + other_lines(table, keys, true);
    let model = said_under(view->Table_0, "model"@, "gpt-5.2-codex"@);
    let first = seq![text_line("model_provider"@, provider_key)];
    let second = seq![text_line("model"@, model)];
    let section = section_lines(view, provider_key);
    lemma_starts();
    lemma_said(view);
    lemma_all_other_lines(table);
    let body = first + second + others + section;
    assert(migrated_lines(table, provider_key) =~= body + seq![""@]);
    lemma_joined_lines(body);
    lemma_ended_parts(first + second + others, section);
    lemma_ended_parts(first + second, others);
    lemma_ended_parts(first, second);
    lemma_ended_text("model_provider"@, "model_provider = \""@, provider_key);
    lemma_ended_text("model"@, "model = \""@, model);
    lemma_ended_section(view, provider_key);
}

/// A configuration is rebuilt exactly where it is a document that names no provider, but has
/// an address or a protocol at its uppermost level.
pub proof fn law_what_is_migrated(cfg_text: Seq<char>, provider_key: Seq<char>)
    ensures
        migrated(cfg_text, provider_key) is Some <==> {
            let table = plain_table(trimmed(cfg_text));
            let members = plain_view(table->0)->Table_0;
            &&& !is_blank(cfg_text)
            &&& table is Some
            &&& !members.contains_key("model_provider"@)
            &&& members.contains_key("base_url"@) || members.contains_key("wire_api"@)
        },
{
}

/// The fields of a configuration are what it says under their names: the model at its
/// uppermost level, the others in the section of `model_providers` that `model_provider`
/// names. What is missing, or of another kind, is not read.
pub proof fn law_fields_are_read_by_name(cfg: Seq<char>)
    ensures
        ({
            let fields = fields_parsed(cfg);
            let table = plain_table(trimmed(cfg));
            let members = plain_view(table->0)->Table_0;
            let readable = table is Some && plain_view(table->0) is Table;
            let named = readable && members.contains_key("model_provider"@)
                && members["model_provider"@] is Str;
            let name = members["model_provider"@]->Str_0;
            let sections = members["model_providers"@];
            let section = sections->Table_0[name];
            let found = named && members.contains_key("model_providers"@) && sections is Table
                && sections->Table_0.contains_key(name) && section is Table;
            let own = section->Table_0;
            &&& fields.model == (if readable && members.contains_key("model"@) && members["model"@]
                is Str {
                Some(members["model"@]->Str_0)
            } else {
                None
            })
            &&& fields.base_url == (if found && own.contains_key("base_url"@) && own["base_url"@]
                is Str {
                Some(own["base_url"@]->Str_0)
            } else {
                None
            })
            &&& fields.wire_api == (if found && own.contains_key("wire_api"@) && own["wire_api"@]
                == PlainView::Str("chat"@) {
                Some(CodexWireApi::Chat)
            } else if found && own.contains_key("wire_api"@) && own["wire_api"@] == PlainView::Str(
                "responses"@,
            ) {
                Some(CodexWireApi::Responses)
            } else {
                None
            })
            &&& fields.requires_openai_auth == (if found && own.contains_key(
                "requires_openai_auth"@,
            ) && own["requires_openai_auth"@] is Boolean {
                Some(own["requires_openai_auth"@]->Boolean_0)
            } else {
                None
            })
            &&& fields.env_key == (if found && own.contains_key("env_key"@) && own["env_key"@]
                is Str {
                Some(own["env_key"@]->Str_0)
            } else {
                None
            })
        }),
{
}

/// A text without quotation marks stands between quotation marks as it is; and in any other
/// each quotation mark gets a backslash before it, and what is around it is treated alike.
pub proof fn law_quotation_marks_are_escaped(left: Seq<char>, right: Seq<char>)
    ensures
        !left.contains('"') ==> escaped(left) == left,
        escaped(left + "\""@ + right) == escaped(left) + "\\\""@ + escaped(right),
    decreases left.len() + right.len(),
{
    reveal_strlit("\"");
    reveal_strlit("\\\"");
    if right.len() > 0 {
        let shorter = right.drop_last();
        law_quotation_marks_are_escaped(left, shorter);
        let all = left + "\""@ + right;
        assert(all.drop_last() =~= left + "\""@ + shorter);
        assert(all.last() == right.last());
        assert(escaped(all) =~= escaped(left) + "\\\""@ + escaped(right));
    } else {
        let all = left + "\""@ + right;
        assert(all.drop_last() =~= left);
        assert(all.last() == '"');
        assert(escaped(all) =~= escaped(left) + "\\\""@ + escaped(right));
        if left.len() > 0 && !left.contains('"') {
            let shorter = left.drop_last();
            assert(left[left.len() - 1] != '"');
            assert forall|i: int| 0 <= i < shorter.len() implies shorter[i] != '"' by {
                assert(shorter[i] == left[i]);
            }
            law_quotation_marks_are_escaped(shorter, right);
            assert(escaped(left) =~= left);
        }
    }
}

/// A new configuration names its provider and model, and has a section for the provider with
/// its name, address and protocol; it asks for the key of OpenAI.
pub proof fn law_new_configuration(
    provider_key: Seq<char>,
    base_url: Seq<char>,
    model: Seq<char>,
    wire_api: CodexWireApi,
)
    ensures
        lines_joined(new_config_lines(provider_key, base_url, model, wire_api)) == (
        "model_provider = \""@ + escaped(provider_key) + "\"\n"@) + ("model = \""@ + escaped(model)
            + "\"\n"@) + (
        "model_reasoning_effort = \"high\"\ndisable_response_storage = true\n"@) + (
        "\n[model_providers."@ + escaped(provider_key) + "]\n"@) + ("name = \""@ + escaped(
            provider_key,
        ) + "\"\n"@) + ("base_url = \""@ + escaped(base_url) + "\"\n"@) + ("wire_api = \""@ + (
        match wire_api {
            CodexWireApi::Chat => "chat"@,
            CodexWireApi::Responses => "responses"@,
        }) + "\"\n"@) + "requires_openai_auth = true\n"@,
{
    let key = escaped(provider_key);
    let first = seq![text_line("model_provider"@, key)];
    let second = seq![text_line("model"@, escaped(model))];
    let effort = seq!["model_reasoning_effort = \"high\""@];
    let storage = seq!["disable_response_storage = true"@];
    let header = seq![""@, "[model_providers."@ + key + "]"@];
    let name = seq![text_line("name"@, key)];
    let address = seq![text_line("base_url"@, escaped(base_url))];
    let protocol = seq![text_line("wire_api"@, wire_api.name())];
    let auth = seq!["requires_openai_auth = true"@];
    let fixed = effort + storage;
    lemma_starts();
    lemma_ended_text("model_provider"@, "model_provider = \""@, key);
    lemma_ended_text("model"@, "model = \""@, escaped(model));
    lemma_ended_line("model_reasoning_effort = \"high\""@);
    lemma_ended_line("disable_response_storage = true"@);
    lemma_ended_header(key);
    lemma_ended_text("name"@, "name = \""@, key);
    lemma_ended_text("base_url"@, "base_url = \""@, escaped(base_url));
    lemma_ended_text("wire_api"@, "wire_api = \""@, wire_api.name());
    lemma_ended_line("requires_openai_auth = true"@);
    let body = first + second + fixed + header + name + address + protocol + auth;
    assert(new_config_lines(provider_key, base_url, model, wire_api) =~= body + seq![""@]);
    lemma_joined_lines(body);
    lemma_ended_parts(first + second + fixed + header + name + address + protocol, auth);
    lemma_ended_parts(first + second + fixed + header + name + address, protocol);
    lemma_ended_parts(first + second + fixed + header + name, address);
    lemma_ended_parts(first + second + fixed + header, name);
    lemma_ended_parts(first + second + fixed, header);
    lemma_ended_parts(first + second, fixed);
    lemma_ended_parts(first, second);
    lemma_ended_parts(effort, storage);
    assert(ended_lines(fixed)
        == "model_reasoning_effort = \"high\"\ndisable_response_storage = true\n"@) by {
        reveal_strlit("\n");
        reveal_strlit("model_reasoning_effort = \"high\"");
        reveal_strlit("disable_response_storage = true");
        reveal_strlit("model_reasoning_effort = \"high\"\ndisable_response_storage = true\n");
        assert(ended_lines(fixed)
            =~= "model_reasoning_effort = \"high\"\ndisable_response_storage = true\n"@);
    }
}

/// Whether a Codex provider has lost the common snippet: nothing changes but the text of its
/// configuration, out of which the snippet is taken.
pub open spec fn has_lost_snippet(
    before: ProviderView,
    snippet: Seq<char>,
    now: ProviderView,
) -> bool {
    let old = before.settings_config->Object_0;
    let new = now.settings_config->Object_0;
    let text = if before.settings_config is Object && old.contains_key("config"@) && old["config"@]
        is Str {
        old["config"@]->Str_0
    } else {
        Seq::empty()
    };
    &&& is_same_provider(before, now)
    &&& before.settings_config is Object ==> {
        &&& now.settings_config is Object
        &&& new.contains_key("config"@)
        &&& new["config"@] is Str
        &&& config_stripped(text, snippet, Ok(new["config"@]->Str_0))
        &&& forall|key: Seq<char>|
            key != "config"@ ==> {
                &&& #[trigger] new.contains_key(key) == old.contains_key(key)
                &&& old.contains_key(key) ==> new[key] == old[key]
            }
    }
    &&& !(before.settings_config is Object) ==> now.settings_config == before.settings_config
}

/// Taking the common snippet out of a Codex provider leaves one that declines it as it is, and
/// takes it out of one that was told to take it.
pub proof fn law_snippet_leaves_provider(
    provider: ProviderView,
    snippet: Option<Seq<char>>,
    result: Result<ProviderView, ErrorView>,
)
    requires
        snippet_taken_out(provider, snippet, result),
    ensures
        was_told_no(provider) || !says_something(snippet) ==> result == Ok::<
            ProviderView,
            ErrorView,
        >(provider),
        was_told_yes(provider) && says_something(snippet) && result is Ok ==> has_lost_snippet(
            provider,
            snippet->0,
            result->Ok_0,
        ) && result->Ok_0.meta == provider.meta,
        !was_told_yes(provider) && !was_told_no(provider) && result is Ok && result->Ok_0
            != provider ==> has_lost_snippet(provider, snippet->0, result->Ok_0) && is_noted(
            provider,
            result->Ok_0,
        ),
{
    if uses_common(AppType::Codex, provider, snippet) && result is Ok {
        let text = choose|text: Result<Seq<char>, ErrorView>| #[trigger]
            config_stripped(
                codex_config_text(provider.settings_config),
                text_or_empty(snippet),
                text,
            ) && match text {
                Err(error) => result == Err::<ProviderView, ErrorView>(error),
                Ok(text) => result == Ok::<ProviderView, ErrorView>(
                    provider.noted_common().with_settings(
                        with_config_text(provider.settings_config, text),
                    ),
                ),
            };
        assert(text == Ok::<Seq<char>, ErrorView>(text->Ok_0));
    }
}

/// Taking an old snippet out of the Codex providers changes nothing else, and leaves those
/// that decline it as they are. Where it succeeds, it is out of the current provider, or of
/// all where that one is not known, if they were told to take it. A blank one changes nothing.
pub proof fn law_old_snippet_leaves_providers(
    config: ConfigView,
    current: Option<Seq<char>>,
    old_snippet: Seq<char>,
    after: ConfigView,
    result: Result<(), ErrorView>,
    id: Seq<char>,
)
    requires
        snippet_migrated(config, current, old_snippet, after, result),
        config.managers.contains_key(AppType::Codex) ==> {
            let manager = config.managers[AppType::Codex];
            manager.ids.to_set() == manager.providers.dom()
        },
    ensures
        is_blank(old_snippet) || !config.managers.contains_key(AppType::Codex) ==> result is Ok
            && after == config,
        agree_elsewhere(config, after, AppType::Codex),
        config.managers.contains_key(AppType::Codex) ==> {
            let before = config.managers[AppType::Codex];
            let now = after.managers[AppType::Codex];
            let known = current is Some && before.providers.contains_key(current->0);
            &&& now.ids == before.ids
            &&& now.current == before.current
            &&& now.providers.dom() == before.providers.dom()
            &&& known && result is Err ==> now == before
            &&& before.providers.contains_key(id) ==> {
                let was = before.providers[id];
                let left = now.providers[id];
                &&& is_same_provider(was, left)
                &&& was_told_no(was) ==> left == was
                &&& was_told_yes(was) && result is Ok && !is_blank(old_snippet) && (!known
                    || current == Some(id)) ==> has_lost_snippet(was, trimmed(old_snippet), left)
            }
        },
{
    let snippet = trimmed(old_snippet);
    if config.managers.contains_key(AppType::Codex) && snippet.len() > 0 {
        let before = config.managers[AppType::Codex];
        let now = after.managers[AppType::Codex];
        lemma_trimmed_twice(old_snippet);
        assert(!is_blank(snippet));
        if before.providers.contains_key(id) {
            assert(before.ids.to_set().contains(id));
            let place = choose|i: int| 0 <= i < before.ids.len() && before.ids[i] == id;
            assert(before.ids[place] == id);
            let was = before.providers[id];
            let left = now.providers[id];
            if snippet_gone(was, snippet, left) {
                law_snippet_leaves_provider(was, Some(snippet), Ok(left));
            } else if snippet_tried(was, snippet, left) {
                let tried = choose|result: Result<ProviderView, ErrorView>| #[trigger]
                    snippet_taken_out(was, Some(snippet), result) && left == (match result {
                        Ok(provider) => provider,
                        Err(_) => was,
                    });
                law_snippet_leaves_provider(was, Some(snippet), tried);
            }
        }
        if let Err(error) = result {
            if !(current is Some && before.providers.contains_key(current->0)) {
                let count = choose|count: int| #[trigger]
                    migrated_upto(before, snippet, count, now) && count < before.ids.len()
                        && snippet_sticks(before.providers[before.ids[count]], snippet, error);
                assert(migrated_upto(before, snippet, count, now));
            }
        }
    }
}

/// The key of a provider is made of its identifier, and of its name only where the identifier
/// is blank.
pub proof fn law_what_names_a_provider(provider: ProviderView)
    ensures
        key_source(provider) == (if is_blank(provider.id) {
            provider.name
        } else {
            provider.id
        }),
{
}

} // verus!
