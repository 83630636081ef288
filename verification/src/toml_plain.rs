//! The boundary to `toml`, which reads documents without their layout.
use vstd::prelude::*;

use crate::error::{AppError, ErrorView};
use crate::text::{blank, is_blank, texts};

verus! {

#[verifier::external_type_specification]
#[verifier::external_body]
pub struct ExPlainValue(toml::Value);

/// What is read of a value.
#[verifier::ext_equal]
pub enum PlainView {
    Str(Seq<char>),
    Boolean(bool),
    Table(Map<Seq<char>, PlainView>),
    /// A value of which nothing is read.
    Other,
}

/// What is read of a value.
pub uninterp spec fn plain_view(value: toml::Value) -> PlainView;

/// The keys of a table, in its order.
pub uninterp spec fn plain_keys(value: toml::Value) -> Seq<Seq<char>>;

/// The text that `toml::to_string` writes for a table with nothing but the entry of that
/// key; `None` where it fails.
pub uninterp spec fn entry_text(table: toml::Value, key: Seq<char>) -> Option<Seq<char>>;

/// The table that `toml::from_str` reads out of a text; `None` where it fails.
pub uninterp spec fn plain_table(text: Seq<char>) -> Option<toml::Value>;

/// The message of the error with which `toml::from_str` refuses a text.
pub uninterp spec fn plain_parse_error(text: Seq<char>) -> Seq<char>;

/// Whether a character can stand in a key without quotation marks.
pub open spec fn is_bare(c: char) -> bool {
    'a' <= c <= 'z' || 'A' <= c <= 'Z' || '0' <= c <= '9' || c == '_' || c == '-'
}

/// Whether a text begins with an assignment to a key without quotation marks.
pub open spec fn begins_with_key(text: Seq<char>, key: Seq<char>) -> bool {
    &&& key.len() > 0
    &&& forall|i: int| 0 <= i < key.len() ==> is_bare(#[trigger] key[i])
    &&& (key + " = "@).is_prefix_of(text)
}

/// Reads a table by `toml::from_str`. What it reads, and whether and how it fails,
/// depends on the text alone. A key that is assigned to at the very beginning of the text
/// is a key of the table.
#[verifier::external_body]
pub(crate) fn parse_table(text: &str) -> (r: Result<toml::Value, String>)
    ensures
        match r {
            Ok(table) => {
                &&& plain_table(text@) == Some(table)
                &&& plain_view(table) is Table
                &&& forall|key: Seq<char>| #[trigger]
                    begins_with_key(text@, key) ==> plain_view(table)->Table_0.contains_key(key)
            },
            Err(message) => plain_table(text@) is None && message@ == plain_parse_error(text@),
        },
{
    match toml::from_str::<toml::Table>(text) {
        Ok(table) => Ok(toml::Value::Table(table)),
        Err(error) => Err(error.to_string()),
    }
}

/// Calls `toml::Value::get`: the member of that name of a table.
#[verifier::external_body]
pub(crate) fn plain_get<'a>(value: &'a toml::Value, key: &str) -> (r: Option<&'a toml::Value>)
    ensures
        match r {
            Some(member) => {
                &&& plain_view(*value) is Table
                &&& plain_view(*value)->Table_0.contains_key(key@)
                &&& plain_view(*member) == plain_view(*value)->Table_0[key@]
            },
            None => plain_view(*value) is Table ==> !plain_view(*value)->Table_0.contains_key(key@),
        },
{
    value.get(key)
}

/// Calls `toml::Value::as_str`: the text, where the value is one.
#[verifier::external_body]
pub(crate) fn plain_str(value: &toml::Value) -> (r: Option<&str>)
    ensures
        match r {
            Some(text) => plain_view(*value) == PlainView::Str(text@),
            None => !(plain_view(*value) is Str),
        },
{
    value.as_str()
}

/// Calls `toml::Value::as_bool`: the truth value, where the value is one.
#[verifier::external_body]
pub(crate) fn plain_bool(value: &toml::Value) -> (r: Option<bool>)
    ensures
        match r {
            Some(flag) => plain_view(*value) == PlainView::Boolean(flag),
            None => !(plain_view(*value) is Boolean),
        },
{
    value.as_bool()
}

/// Calls `toml::Value::is_table`.
#[verifier::external_body]
pub(crate) fn plain_is_table(value: &toml::Value) -> (r: bool)
    ensures
        r == plain_view(*value) is Table,
{
    value.is_table()
}

/// The keys of a table by `toml::Table::keys`, which goes over each once, in the order of
/// the table.
#[verifier::external_body]
pub(crate) fn list_keys(value: &toml::Value) -> (r: Vec<String>)
    requires
        plain_view(*value) is Table,
    ensures
        texts(r@) == plain_keys(*value),
        texts(r@).no_duplicates(),
        texts(r@).to_set() == plain_view(*value)->Table_0.dom(),
{
    match value.as_table() {
        Some(table) => table.keys().cloned().collect(),
        None => Vec::new(),
    }
}

/// Writes a table that holds nothing but a copy of the entry of that key, by
/// `toml::to_string`. What it writes, and whether it fails, depends on the entry alone.
#[verifier::external_body]
pub(crate) fn write_entry(table: &toml::Value, key: &str) -> (r: Option<String>)
    requires
        plain_view(*table) is Table,
        plain_view(*table)->Table_0.contains_key(key@),
    ensures
        match r {
            Some(text) => entry_text(*table, key@) == Some(text@),
            None => entry_text(*table, key@) is None,
        },
{
    let mut entry = toml::Table::new();
    if let Some(value) = table.get(key) {
        entry.insert(key.to_string(), value.clone());
    }
    toml::to_string(&toml::Value::Table(entry)).ok()
}

/// Why a text is no Codex configuration, where it is none.
pub open spec fn config_toml_error(text: Seq<char>) -> Option<ErrorView> {
    if !is_blank(text) && plain_table(text) is None {
        Some(ErrorView::Toml { path: "config.toml"@, message: plain_parse_error(text) })
    } else {
        None
    }
}

/// Refuses a text that is neither blank nor a TOML document.
pub fn validate_config_toml(text: &str) -> (r: Result<(), AppError>)
    ensures
        match r {
            Ok(_) => config_toml_error(text@) is None,
            Err(error) => config_toml_error(text@) == Some(error@),
        },
{
    if blank(text) {
        return Ok(());
    }
    match parse_table(text) {
        Ok(_) => Ok(()),
        Err(message) => Err(AppError::Toml { path: "config.toml".to_owned(), message }),
    }
}

} // verus!
