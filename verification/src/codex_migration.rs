//! Older Codex configurations, which kept the address of the provider at the uppermost
//! level.
use vstd::prelude::*;

use crate::error::joined3;
use crate::model::{maybe_text, Provider, ProviderView};
use crate::text::{
    blank, first_place, is_blank, is_white_space, join_lines, lemma_place_inside, lines_joined,
    same_text, split_once, texts, trim, trimmed,
};
use crate::toml_plain::{
    list_keys, parse_table, plain_bool, plain_get, plain_str, write_entry, PlainView,
};
use crate::toml_plain::{begins_with_key, entry_text, plain_keys, plain_table, plain_view};

verus! {

/// The text of the member of that name, where it is a text.
pub open spec fn plain_text(table: PlainView, key: Seq<char>) -> Option<Seq<char>> {
    if table is Table && table->Table_0.contains_key(key) && table->Table_0[key] is Str {
        Some(table->Table_0[key]->Str_0)
    } else {
        None
    }
}

/// The truth value of the member of that name, where it is one.
pub open spec fn plain_flag(table: PlainView, key: Seq<char>) -> Option<bool> {
    if table is Table && table->Table_0.contains_key(key) && table->Table_0[key] is Boolean {
        Some(table->Table_0[key]->Boolean_0)
    } else {
        None
    }
}

/// The trimmed text of the member of that name, or another where it is no text.
pub open spec fn plain_text_or(table: PlainView, key: Seq<char>, other: Seq<char>) -> Seq<char> {
    match plain_text(table, key) {
        Some(text) => trimmed(text),
        None => trimmed(other),
    }
}

/// Whether a table keeps the address of its provider at the uppermost level.
pub open spec fn is_legacy(table: PlainView) -> bool {
    let members = table->Table_0;
    &&& !members.contains_key("model_provider"@)
    &&& members.contains_key("base_url"@) || members.contains_key("wire_api"@)
}

/// Whether a key belongs to the provider, and moves into its section.
pub open spec fn is_provider_key(key: Seq<char>) -> bool {
    ||| key == "base_url"@
    ||| key == "model"@
    ||| key == "wire_api"@
    ||| key == "requires_openai_auth"@
    ||| key == "env_key"@
    ||| key == "name"@
}

/// Whether a text opens a table, which what is written after it belongs to. An entry that
/// is no table, nor an array of tables, begins with its key.
pub open spec fn opens_table(text: Seq<char>) -> bool {
    text.len() > 0 && text[0] == '['
}

/// The lines for the entries that do not belong to the provider, in the order of the
/// keys: of those that open a table, or of those that do not. An entry that cannot be
/// written has none.
pub open spec fn other_lines(
    table: toml::Value,
    keys: Seq<Seq<char>>,
    opening: bool,
) -> Seq<Seq<char>>
    decreases keys.len(),
{
    if keys.len() == 0 {
        Seq::empty()
    } else {
        let before = other_lines(table, keys.drop_last(), opening);
        if is_provider_key(keys.last()) {
            before
        } else {
            match entry_text(table, keys.last()) {
                Some(text) if opens_table(trimmed(text)) == opening => before.push(trimmed(text)),
                _ => before,
            }
        }
    }
}

/// An assignment of a text.
pub open spec fn text_line(name: Seq<char>, text: Seq<char>) -> Seq<char> {
    name + " = \""@ + text + "\""@
}

/// The lines on how the provider is authenticated.
pub open spec fn auth_lines(table: PlainView) -> Seq<Seq<char>> {
    if plain_flag(table, "requires_openai_auth"@) == Some(false) {
        match plain_text(table, "env_key"@) {
            Some(env_key) if !is_blank(env_key) => seq![
                "requires_openai_auth = false"@,
                text_line("env_key"@, trimmed(env_key)),
            ],
            _ => seq!["requires_openai_auth = false"@],
        }
    } else {
        seq!["requires_openai_auth = true"@]
    }
}

/// The lines of the configuration with the provider in a section of its own. What stays
/// at the uppermost level stands before the first table.
pub open spec fn migrated_lines(table: toml::Value, provider_key: Seq<char>) -> Seq<Seq<char>> {
    let view = plain_view(table);
    let base_url = plain_text_or(view, "base_url"@, ""@);
    seq![
        text_line("model_provider"@, provider_key),
        text_line("model"@, plain_text_or(view, "model"@, "gpt-5.2-codex"@)),
    ] + other_lines(table, plain_keys(table), false) + other_lines(
        table,
        plain_keys(table),
        true,
    ) + seq![
        ""@,
        "[model_providers."@ + provider_key + "]"@,
        text_line("name"@, provider_key),
    ] + (if base_url.len() > 0 {
        seq![text_line("base_url"@, base_url)]
    } else {
        Seq::empty()
    }) + seq![text_line("wire_api"@, plain_text_or(view, "wire_api"@, "responses"@))] + auth_lines(
        view,
    ) + seq![""@]
}

/// The configuration with the provider in a section of its own; `None` where the text is
/// blank, no TOML document, or not an older configuration.
pub open spec fn migrated(cfg_text: Seq<char>, provider_key: Seq<char>) -> Option<Seq<char>> {
    match plain_table(trimmed(cfg_text)) {
        Some(table) if !is_blank(cfg_text) && is_legacy(plain_view(table)) => Some(
            lines_joined(migrated_lines(table, provider_key)),
        ),
        _ => None,
    }
}

/// The text from which the key of a provider is made: its identifier, or its name where
/// that is blank.
pub open spec fn key_source(provider: ProviderView) -> Seq<char> {
    if is_blank(provider.id) {
        provider.name
    } else {
        provider.id
    }
}

/// The text from which the key of a provider is made.
pub fn provider_key_source(provider: &Provider) -> (r: &str)
    ensures
        r@ == key_source(provider@),
{
    if blank(provider.id.as_str()) {
        provider.name.as_str()
    } else {
        provider.id.as_str()
    }
}

/// The text of the member of that name, where it is a text.
fn read_plain<'a>(table: &'a toml::Value, key: &str) -> (r: Option<&'a str>)
    ensures
        match r {
            Some(text) => plain_text(plain_view(*table), key@) == Some(text@),
            None => plain_text(plain_view(*table), key@) is None,
        },
{
    match plain_get(table, key) {
        Some(value) => plain_str(value),
        None => None,
    }
}

/// The trimmed text of the member of that name, or another where it is no text.
fn read_plain_or<'a>(table: &'a toml::Value, key: &str, other: &'a str) -> (r: &'a str)
    ensures
        r@ == plain_text_or(plain_view(*table), key@, other@),
{
    match read_plain(table, key) {
        Some(text) => trim(text),
        None => trim(other),
    }
}

/// An assignment of a text.
pub fn make_text_line(name: &str, text: &str) -> (r: String)
    ensures
        r@ == text_line(name@, text@),
{
    joined3(name, " = \"", text).concat("\"")
}

/// Tells whether a key belongs to the provider.
fn belongs_to_provider(key: &str) -> (r: bool)
    ensures
        r == is_provider_key(key@),
{
    same_text(key, "base_url") || same_text(key, "model") || same_text(key, "wire_api")
        || same_text(key, "requires_openai_auth") || same_text(key, "env_key") || same_text(
        key,
        "name",
    )
}

/// Tells whether a text opens a table.
fn is_table_opening(text: &str) -> (r: bool)
    ensures
        r == opens_table(text@),
{
    proof {
        lemma_place_inside(text@, '[');
    }
    match split_once(text, '[') {
        Some((before, _)) => {
            assert(before@.len() == first_place(text@, '[')->Some_0);
            before.is_empty()
        },
        None => false,
    }
}

/// Adds the lines for the entries that do not belong to the provider: of those that open
/// a table, or of those that do not.
fn push_other_lines(lines: &mut Vec<String>, table: &toml::Value, opening: bool)
    requires
        plain_view(*table) is Table,
    ensures
        texts(final(lines)@) == texts(old(lines)@) + other_lines(
            *table,
            plain_keys(*table),
            opening,
        ),
{
    let keys = list_keys(table);
    let ghost all = plain_keys(*table);
    let ghost before = texts(lines@);
    let mut i: usize = 0;
    proof {
        assert(all.take(0) =~= Seq::empty());
        assert(before =~= before + other_lines(*table, all.take(0), opening));
    }
    while i < keys.len()
        invariant
            i <= keys.len(),
            all == texts(keys@),
            plain_view(*table) is Table,
            texts(keys@).to_set() == plain_view(*table)->Table_0.dom(),
            texts(lines@) == before + other_lines(*table, all.take(i as int), opening),
        decreases keys.len() - i,
    {
        let ghost so_far = lines@;
        let ghost key = all[i as int];
        proof {
            assert(all.take(i + 1).drop_last() =~= all.take(i as int));
            assert(all.take(i + 1).last() == key);
            assert(keys@[i as int]@ == key);
            assert(texts(keys@).to_set().contains(key));
        }
        let key = keys[i].as_str();
        if !belongs_to_provider(key) {
            if let Some(text) = write_entry(table, key) {
                let line = trim(text.as_str());
                if is_table_opening(line) == opening {
                    let line = line.to_owned();
                    lines.push(line);
                    proof {
                        assert(texts(lines@) =~= texts(so_far).push(line@));
                        assert(texts(lines@) =~= before + other_lines(
                            *table,
                            all.take(i + 1),
                            opening,
                        ));
                    }
                }
            }
        }
        i += 1;
    }
    assert(all.take(i as int) =~= all);
}

/// Adds a line.
fn push_line(lines: &mut Vec<String>, line: String)
    ensures
        texts(final(lines)@) == texts(old(lines)@) + seq![line@],
{
    let ghost before = texts(lines@);
    lines.push(line);
    assert(texts(lines@) =~= before + seq![line@]);
}

/// Rebuilds an older Codex configuration with the provider in a section of its own;
/// `None` where there is nothing to rebuild.
pub fn migrate_legacy_codex_config(cfg_text: &str, provider_key: &str) -> (r: Option<String>)
    ensures
        maybe_text(r) == migrated(cfg_text@, provider_key@),
{
    let text = trim(cfg_text);
    if text.is_empty() {
        return None;
    }
    let table = match parse_table(text) {
        Ok(table) => table,
        Err(_) => {
            return None;
        },
    };
    if plain_get(&table, "model_provider").is_some() {
        return None;
    }
    if plain_get(&table, "base_url").is_none() && plain_get(&table, "wire_api").is_none() {
        return None;
    }
    let base_url = read_plain_or(&table, "base_url", "");
    let model = read_plain_or(&table, "model", "gpt-5.2-codex");
    let wire_api = read_plain_or(&table, "wire_api", "responses");
    let requires_openai_auth = match plain_get(&table, "requires_openai_auth") {
        Some(value) => match plain_bool(value) {
            Some(flag) => flag,
            None => true,
        },
        None => true,
    };
    let mut lines: Vec<String> = Vec::new();
    let ghost view = plain_view(table);
    push_line(&mut lines, make_text_line("model_provider", provider_key));
    push_line(&mut lines, make_text_line("model", model));
    push_other_lines(&mut lines, &table, false);
    push_other_lines(&mut lines, &table, true);
    push_line(&mut lines, "".to_owned());
    push_line(&mut lines, joined3("[model_providers.", provider_key, "]"));
    push_line(&mut lines, make_text_line("name", provider_key));
    if !base_url.is_empty() {
        push_line(&mut lines, make_text_line("base_url", base_url));
    }
    push_line(&mut lines, make_text_line("wire_api", wire_api));
    let ghost before_auth = texts(lines@);
    if requires_openai_auth {
        push_line(&mut lines, "requires_openai_auth = true".to_owned());
    } else {
        push_line(&mut lines, "requires_openai_auth = false".to_owned());
        if let Some(env_key) = read_plain(&table, "env_key") {
            let env_key = trim(env_key);
            if !env_key.is_empty() {
                push_line(&mut lines, make_text_line("env_key", env_key));
            }
        }
    }
    proof {
        assert(texts(lines@) =~= before_auth + auth_lines(view));
    }
    push_line(&mut lines, "".to_owned());
    proof {
        assert(texts(lines@) =~= migrated_lines(table, provider_key@));
    }
    Some(join_lines(&lines))
}

/// A configuration that names its provider is left alone.
pub proof fn law_named_provider_is_left_alone(
    cfg_text: Seq<char>,
    provider_key: Seq<char>,
    table: toml::Value,
)
    requires
        plain_table(trimmed(cfg_text)) == Some(table),
        plain_view(table) is Table,
        plain_view(table)->Table_0.contains_key("model_provider"@),
    ensures
        migrated(cfg_text, provider_key) is None,
{
}

/// Lines that are put together begin with the first of them.
proof fn lemma_first_line(lines: Seq<Seq<char>>)
    requires
        lines.len() > 1,
    ensures
        (lines[0] + seq!['\n']).is_prefix_of(lines_joined(lines)),
    decreases lines.len(),
{
    let before = lines.drop_last();
    if before.len() > 1 {
        lemma_first_line(before);
        assert(before[0] == lines[0]);
        let head = lines[0] + seq!['\n'];
        assert(lines_joined(lines).take(head.len() as int) =~= lines_joined(before).take(
            head.len() as int,
        ));
    } else {
        assert(lines_joined(before) == lines[0]);
        assert(lines_joined(lines).take((lines[0].len() + 1) as int) =~= lines[0] + seq!['\n']);
    }
}

/// A configuration that was rebuilt begins with the name of its provider, and is not
/// rebuilt again once its reader finds that name.
pub proof fn law_migrated_once(
    cfg_text: Seq<char>,
    provider_key: Seq<char>,
    text: Seq<char>,
    table: toml::Value,
    other_key: Seq<char>,
)
    requires
        migrated(cfg_text, provider_key) == Some(text),
        plain_table(trimmed(text)) == Some(table),
        plain_view(table) is Table,
        plain_view(table)->Table_0.contains_key("model_provider"@),
    ensures
        (text_line("model_provider"@, provider_key) + seq!['\n']).is_prefix_of(text),
        migrated(text, other_key) is None,
{
    let old_table = plain_table(trimmed(cfg_text))->Some_0;
    let lines = migrated_lines(old_table, provider_key);
    lemma_first_line(lines);
    law_named_provider_is_left_alone(text, other_key, table);
}

/// A text that begins with something other than white space still begins with it when it is
/// trimmed.
proof fn lemma_start_is_kept(text: Seq<char>, start: Seq<char>)
    requires
        start.len() > 0,
        !is_white_space(start[0]),
        !is_white_space(start.last()),
        start.is_prefix_of(text),
    ensures
        start.is_prefix_of(trimmed(text)),
    decreases text.len(),
{
    assert(text[0] == start[0]);
    if is_white_space(text.last()) {
        if text.len() == start.len() {
            assert(text[text.len() - 1] == start[start.len() - 1]);
        }
        assert(text.drop_last().take(start.len() as int) =~= text.take(start.len() as int));
        lemma_start_is_kept(text.drop_last(), start);
    }
}

/// A text that begins with the line of its provider assigns to that key, when it is trimmed.
proof fn lemma_names_its_provider(text: Seq<char>, provider_key: Seq<char>)
    requires
        text_line("model_provider"@, provider_key).is_prefix_of(text),
    ensures
        begins_with_key(trimmed(text), "model_provider"@),
{
    let key = "model_provider"@;
    let start = key + " = \""@;
    let line = text_line(key, provider_key);
    reveal_strlit("model_provider");
    reveal_strlit(" = \"");
    reveal_strlit(" = ");
    assert(line.take(start.len() as int) =~= start);
    assert(text.take(line.len() as int).take(start.len() as int) =~= text.take(
        start.len() as int,
    ));
    lemma_start_is_kept(text, start);
    let tidy = trimmed(text);
    let assignment = key + " = "@;
    assert(start.take(assignment.len() as int) =~= assignment);
    assert(tidy.take(start.len() as int).take(assignment.len() as int) =~= tidy.take(
        assignment.len() as int,
    ));
}

/// A configuration that was rebuilt is never rebuilt again, whatever the key would be:
/// either it is no document, or it names its provider.
pub fn law_never_migrated_again(cfg_text: &str, provider_key: &str, other_key: &str) -> (r: Option<
    String,
>)
    ensures
        maybe_text(r) == migrated(cfg_text@, provider_key@),
        r matches Some(text) ==> migrated(text@, other_key@) is None,
{
    let r = migrate_legacy_codex_config(cfg_text, provider_key);
    if let Some(text) = &r {
        proof {
            let table = plain_table(trimmed(cfg_text@))->Some_0;
            let line = text_line("model_provider"@, provider_key@);
            lemma_first_line(migrated_lines(table, provider_key@));
            let head = line + seq!['\n'];
            assert(text@.take(head.len() as int).take(line.len() as int) =~= text@.take(
                line.len() as int,
            ));
            assert(head.take(line.len() as int) =~= line);
            lemma_names_its_provider(text@, provider_key@);
        }
        let again = parse_table(trim(text.as_str()));
        assert(again matches Ok(table) ==> plain_view(table)->Table_0.contains_key(
            "model_provider"@,
        ));
    }
    r
}

} // verus!
