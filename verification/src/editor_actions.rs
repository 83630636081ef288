//! What is done with a text that was written in the editor.
use vstd::prelude::*;

use crate::codex_form::non_empty;
use crate::config::{McpServer, McpServerView};
use crate::error::{AppError, ErrorView};
use crate::json::{field, Json, JsonView};
use crate::json_value::{json_parse_error, parsed_json};
use crate::json_value::{is_pretty_text, parse_json, pretty_fails, write_json};
use crate::live_files::unit_outcome;
use crate::model::{maybe_text, AppType, Provider, ProviderView};
use crate::notices::{Effects, EffectsView, Notice, NoticeView};
use crate::snapshots::{empty_object, new_object};
use crate::text::{blank, is_blank, lines, split_lines, texts, trim, trimmed};
use crate::toml_doc::{parsed_text, parsed_toml, toml_parse_error};
use crate::toml_doc::{parse_document, write_document};

verus! {

/// What a value of the form becomes, or what is told; `None` where no form is open.
pub open spec fn form_outcome(result: Result<Option<Json>, Notice>) -> Result<
    Option<JsonView>,
    NoticeView,
> {
    match result {
        Ok(Some(json)) => Ok(Some(json@)),
        Ok(None) => Ok(None),
        Err(notice) => Err(notice@),
    }
}

/// The value of a form, where one is open.
pub open spec fn maybe_json(json: Option<Json>) -> Option<JsonView> {
    match json {
        Some(json) => Some(json@),
        None => None,
    }
}

/// What a text must hold.
pub open spec fn object_read(content: Seq<char>) -> Result<JsonView, NoticeView> {
    match parsed_json(content) {
        None => Err(NoticeView::InvalidJson(json_parse_error(content))),
        Some(json) => if json is Object {
            Ok(json)
        } else {
            Err(NoticeView::JsonMustBeObject)
        },
    }
}

/// A value, or what is told.
pub open spec fn json_outcome(result: Result<Json, Notice>) -> Result<JsonView, NoticeView> {
    match result {
        Ok(json) => Ok(json@),
        Err(notice) => Err(notice@),
    }
}

/// Reads an object.
fn read_object(content: &str) -> (r: Result<Json, Notice>)
    ensures
        json_outcome(r) == object_read(content@),
{
    match parse_json(content) {
        Ok(json) => if json.is_object() {
            Ok(json)
        } else {
            Err(Notice::JsonMustBeObject)
        },
        Err(message) => Err(Notice::InvalidJson(message)),
    }
}

/// A provider with other settings, where it is an object.
pub open spec fn with_settings(provider: JsonView, settings: JsonView) -> JsonView {
    match provider {
        JsonView::Object(members) => JsonView::Object(members.insert("settingsConfig"@, settings)),
        _ => provider,
    }
}

/// A provider with a setting, where it has settings; settings that are no object are made
/// one.
pub open spec fn with_setting(provider: JsonView, key: Seq<char>, value: JsonView) -> JsonView {
    match field(provider, "settingsConfig"@) {
        Some(settings) => with_settings(
            provider,
            match settings {
                JsonView::Object(members) => JsonView::Object(members.insert(key, value)),
                _ => JsonView::Object(empty_object()->Object_0.insert(key, value)),
            },
        ),
        None => provider,
    }
}

/// Puts a setting into a provider.
fn put_setting(provider: &mut Json, key: &str, value: Json)
    ensures
        final(provider)@ == with_setting(old(provider)@, key@, value@),
{
    if let Some(settings) = provider.get_mut("settingsConfig") {
        if !settings.is_object() {
            *settings = new_object();
        }
        settings.insert(key, value);
    }
}

/// What the text for the settings of a provider makes of the form.
pub open spec fn settings_applied(content: Seq<char>, form: Option<JsonView>) -> Result<
    Option<JsonView>,
    NoticeView,
> {
    match (object_read(content), form) {
        (Err(notice), _) => Err(notice),
        (Ok(settings), Some(provider)) => Ok(Some(with_settings(provider, settings))),
        (Ok(_), None) => Ok(None),
    }
}

/// Takes the settings of a provider from the editor. `form` is the provider in the form.
pub fn submit_provider_form_apply_json(content: &str, form: Option<Json>) -> (r: Result<
    Option<Json>,
    Notice,
>)
    ensures
        form_outcome(r) == settings_applied(content@, maybe_json(form)),
{
    let settings = match read_object(content) {
        Ok(settings) => settings,
        Err(notice) => {
            return Err(notice);
        },
    };
    match form {
        Some(provider) => {
            let mut provider = provider;
            if provider.is_object() {
                provider.insert("settingsConfig", settings);
            }
            Ok(Some(provider))
        },
        None => Ok(None),
    }
}

/// What the text for a list of models must hold.
pub open spec fn models_read(content: Seq<char>) -> Result<JsonView, NoticeView> {
    match parsed_json(content) {
        None => Err(NoticeView::InvalidJson(json_parse_error(content))),
        Some(json) => if json is Array {
            Ok(json)
        } else {
            Err(NoticeView::JsonMustBeArray)
        },
    }
}

/// Takes a list of models from the editor.
pub fn submit_provider_form_apply_openclaw_models(content: &str) -> (r: Result<Json, Notice>)
    ensures
        json_outcome(r) == models_read(content@),
{
    match parse_json(content) {
        Ok(json) => if matches!(json, Json::Array(_)) {
            Ok(json)
        } else {
            Err(Notice::JsonMustBeArray)
        },
        Err(message) => Err(Notice::InvalidJson(message)),
    }
}

/// What the text for the credentials of Codex makes of the form.
pub open spec fn auth_applied(content: Seq<char>, form: Option<JsonView>) -> Result<
    Option<JsonView>,
    NoticeView,
> {
    match (object_read(content), form) {
        (Err(notice), _) => Err(notice),
        (Ok(auth), Some(provider)) => Ok(Some(with_setting(provider, "auth"@, auth))),
        (Ok(_), None) => Ok(None),
    }
}

/// Takes the credentials of Codex from the editor.
pub fn submit_provider_form_apply_codex_auth(content: &str, form: Option<Json>) -> (r: Result<
    Option<Json>,
    Notice,
>)
    ensures
        form_outcome(r) == auth_applied(content@, maybe_json(form)),
{
    let auth = match read_object(content) {
        Ok(auth) => auth,
        Err(notice) => {
            return Err(notice);
        },
    };
    match form {
        Some(provider) => {
            let mut provider = provider;
            put_setting(&mut provider, "auth", auth);
            Ok(Some(provider))
        },
        None => Ok(None),
    }
}

/// Whether a text is how a configuration written in the editor is stored: nothing for a
/// blank one, else the document as it is written.
pub open spec fn is_stored_config(content: Seq<char>, stored: Seq<char>) -> bool {
    if is_blank(content) {
        stored == ""@
    } else {
        parsed_toml(content) is Some && stored == parsed_text(content)
    }
}

/// Whether a form holds a configuration written in the editor.
pub open spec fn holds_config(
    content: Seq<char>,
    form: Option<JsonView>,
    result: Option<JsonView>,
) -> bool {
    match form {
        None => result is None,
        Some(provider) => exists|stored: Seq<char>| #[trigger]
            is_stored_config(content, stored) && result == Some(
                with_setting(provider, "config"@, JsonView::Str(stored)),
            ),
    }
}

/// Takes the configuration of Codex from the editor.
pub fn submit_provider_form_apply_codex_config_toml(content: &str, form: Option<Json>) -> (r:
    Result<Option<Json>, Notice>)
    ensures
        match form_outcome(r) {
            Ok(result) => (is_blank(content@) || parsed_toml(content@) is Some) && holds_config(
                content@,
                maybe_json(form),
                result,
            ),
            Err(notice) => !is_blank(content@) && parsed_toml(content@) is None && notice
                == NoticeView::InvalidToml(toml_parse_error(content@)),
        },
{
    let stored: String = if blank(content) {
        "".to_owned()
    } else {
        match parse_document(content) {
            Ok(document) => write_document(&document),
            Err(message) => {
                return Err(Notice::InvalidToml(message));
            },
        }
    };
    assert(is_stored_config(content@, stored@));
    match form {
        Some(provider) => {
            let mut provider = provider;
            put_setting(&mut provider, "config", Json::Str(stored));
            Ok(Some(provider))
        },
        None => Ok(None),
    }
}

/// What follows once the form has taken a value, or has not: the editor closes, or stays
/// open with what is wrong.
pub fn form_applied(result: Result<(), String>) -> (r: Effects)
    ensures
        r@ == (match result {
            Ok(_) => EffectsView {
                close_editor: true,
                close_form: false,
                notice: None,
                reload: false,
            },
            Err(message) => EffectsView::told(NoticeView::FormRejected(message@)),
        }),
{
    match result {
        Ok(_) => Effects { close_editor: true, close_form: false, notice: None, reload: false },
        Err(message) => Effects::tell(Notice::FormRejected(message)),
    }
}

/// What a text for a provider was read as, or why it could not be read.
pub open spec fn provider_read(parsed: Result<Provider, String>) -> Result<
    ProviderView,
    Seq<char>,
> {
    match parsed {
        Ok(provider) => Ok(provider@),
        Err(message) => Err(message@),
    }
}

/// A provider, or what is told.
pub open spec fn provider_outcome(result: Result<Provider, Notice>) -> Result<
    ProviderView,
    NoticeView,
> {
    match result {
        Ok(provider) => Ok(provider@),
        Err(notice) => Err(notice@),
    }
}

/// Checks a new provider that was written in the editor: it has an identifier and a name.
pub fn submit_provider_add(parsed: Result<Provider, String>) -> (r: Result<Provider, Notice>)
    ensures
        provider_outcome(r) == (match provider_read(parsed) {
            Err(message) => Err(NoticeView::InvalidJson(message)),
            Ok(provider) => if is_blank(provider.id) || is_blank(provider.name) {
                Err(NoticeView::ProviderFieldsMissing)
            } else {
                Ok(provider)
            },
        }),
{
    match parsed {
        Ok(provider) => if blank(provider.id.as_str()) || blank(provider.name.as_str()) {
            Err(Notice::ProviderFieldsMissing)
        } else {
            Ok(provider)
        },
        Err(message) => Err(Notice::InvalidJson(message)),
    }
}

/// What follows an attempt to add a provider.
pub fn provider_added(result: Result<bool, AppError>) -> (r: Effects)
    ensures
        r@ == (match result {
            Ok(true) => EffectsView {
                close_editor: true,
                close_form: true,
                notice: Some(NoticeView::ProviderAdded),
                reload: true,
            },
            Ok(false) => EffectsView::told(NoticeView::ProviderNotAdded),
            Err(error) => EffectsView::told(NoticeView::Failed(error@)),
        }),
{
    match result {
        Ok(true) => stored(Notice::ProviderAdded),
        Ok(false) => Effects::tell(Notice::ProviderNotAdded),
        Err(error) => Effects::tell(Notice::Failed(error)),
    }
}

/// Everything is closed, and what was stored is shown.
fn stored(notice: Notice) -> (r: Effects)
    ensures
        r@ == (EffectsView {
            close_editor: true,
            close_form: true,
            notice: Some(notice@),
            reload: true,
        }),
{
    Effects { close_editor: true, close_form: true, notice: Some(notice), reload: true }
}

/// What follows an attempt to store something from a form.
pub open spec fn stored_or_told(result: Result<(), ErrorView>, done: NoticeView) -> EffectsView {
    match result {
        Ok(_) => EffectsView {
            close_editor: true,
            close_form: true,
            notice: Some(done),
            reload: true,
        },
        Err(error) => EffectsView::told(NoticeView::Failed(error)),
    }
}

/// Checks a provider that was changed in the editor: it keeps its identifier, and it has a
/// name.
pub fn submit_provider_edit(id: &str, parsed: Result<Provider, String>) -> (r: Result<
    Provider,
    Notice,
>)
    ensures
        provider_outcome(r) == (match provider_read(parsed) {
            Err(message) => Err(NoticeView::InvalidJson(message)),
            Ok(provider) => if is_blank(provider.name) {
                Err(NoticeView::ProviderNameMissing)
            } else {
                Ok((ProviderView { id: id@, ..provider }))
            },
        }),
{
    match parsed {
        Ok(provider) => if blank(provider.name.as_str()) {
            Err(Notice::ProviderNameMissing)
        } else {
            let mut provider = provider;
            provider.id = id.to_owned();
            Ok(provider)
        },
        Err(message) => Err(Notice::InvalidJson(message)),
    }
}

/// What follows an attempt to change a provider.
pub fn provider_edited(result: Result<(), AppError>) -> (r: Effects)
    ensures
        r@ == stored_or_told(unit_outcome(result), NoticeView::ProviderEdited),
{
    match result {
        Ok(_) => stored(Notice::ProviderEdited),
        Err(error) => Effects::tell(Notice::Failed(error)),
    }
}

/// What a text for an MCP server was read as, or why it could not be read.
pub open spec fn server_read(parsed: Result<McpServer, String>) -> Result<
    McpServerView,
    Seq<char>,
> {
    match parsed {
        Ok(server) => Ok(server@),
        Err(message) => Err(message@),
    }
}

/// An MCP server, or what is told.
pub open spec fn server_outcome(result: Result<McpServer, Notice>) -> Result<
    McpServerView,
    NoticeView,
> {
    match result {
        Ok(server) => Ok(server@),
        Err(notice) => Err(notice@),
    }
}

/// Checks a new MCP server that was written in the editor.
pub fn submit_mcp_add(parsed: Result<McpServer, String>) -> (r: Result<McpServer, Notice>)
    ensures
        server_outcome(r) == (match server_read(parsed) {
            Err(message) => Err(NoticeView::InvalidJson(message)),
            Ok(server) => if is_blank(server.id) || is_blank(server.name) {
                Err(NoticeView::McpFieldsMissing)
            } else {
                Ok(server)
            },
        }),
{
    match parsed {
        Ok(server) => if blank(server.id.as_str()) || blank(server.name.as_str()) {
            Err(Notice::McpFieldsMissing)
        } else {
            Ok(server)
        },
        Err(message) => Err(Notice::InvalidJson(message)),
    }
}

/// Checks an MCP server that was changed in the editor, which keeps its identifier.
pub fn submit_mcp_edit(id: &str, parsed: Result<McpServer, String>) -> (r: Result<
    McpServer,
    Notice,
>)
    ensures
        server_outcome(r) == (match server_read(parsed) {
            Err(message) => Err(NoticeView::InvalidJson(message)),
            Ok(server) => if is_blank(server.name) {
                Err(NoticeView::McpFieldsMissing)
            } else {
                Ok((McpServerView { id: id@, ..server }))
            },
        }),
{
    match parsed {
        Ok(server) => if blank(server.name.as_str()) {
            Err(Notice::McpFieldsMissing)
        } else {
            let mut server = server;
            server.id = id.to_owned();
            Ok(server)
        },
        Err(message) => Err(Notice::InvalidJson(message)),
    }
}

/// What follows an attempt to store an MCP server.
pub fn mcp_stored(result: Result<(), AppError>) -> (r: Effects)
    ensures
        r@ == stored_or_told(unit_outcome(result), NoticeView::McpStored),
{
    match result {
        Ok(_) => stored(Notice::McpStored),
        Err(error) => Effects::tell(Notice::Failed(error)),
    }
}

/// What follows an attempt to change a prompt; `None` where there is no such prompt.
pub fn submit_prompt_edit(id: &str, result: Option<Result<(), AppError>>) -> (r: Effects)
    ensures
        r@ == (match result {
            None => EffectsView::told(NoticeView::PromptNotFound(id@)),
            Some(Err(error)) => EffectsView::told(NoticeView::Failed(error@)),
            Some(Ok(_)) => EffectsView {
                close_editor: true,
                close_form: false,
                notice: Some(NoticeView::PromptEdited),
                reload: true,
            },
        }),
{
    match result {
        None => Effects::tell(Notice::PromptNotFound(id.to_owned())),
        Some(Err(error)) => Effects::tell(Notice::Failed(error)),
        Some(Ok(_)) => Effects {
            close_editor: true,
            close_form: false,
            notice: Some(Notice::PromptEdited),
            reload: true,
        },
    }
}

/// Whether this is what a common snippet written in the editor is stored as, with what is
/// told then: nothing for a blank text, a TOML document for Codex, an indented JSON object
/// for the others.
pub open spec fn snippet_accepted(
    app_type: AppType,
    edited: Seq<char>,
    next: Option<Seq<char>>,
    done: NoticeView,
) -> bool {
    if edited.len() == 0 {
        next is None && done is SnippetCleared
    } else {
        next is Some && done is SnippetSaved && if app_type == AppType::Codex {
            is_canonical_toml(edited, next->0)
        } else {
            parsed_json(edited) matches Some(json) && json is Object && is_pretty_text(
                next->0,
                json,
            )
        }
    }
}

/// Whether this is a document, written anew and without blanks at its ends.
pub open spec fn is_canonical_toml(edited: Seq<char>, canonical: Seq<char>) -> bool {
    parsed_toml(edited) is Some && canonical == trimmed(parsed_text(edited))
}

/// Whether a common snippet written in the editor is refused with this notice.
pub open spec fn snippet_refused(
    app_type: AppType,
    edited: Seq<char>,
    notice: NoticeView,
) -> bool {
    &&& edited.len() > 0
    &&& if app_type == AppType::Codex {
        parsed_toml(edited) is None && notice == NoticeView::InvalidToml(toml_parse_error(edited))
    } else {
        match parsed_json(edited) {
            None => notice == NoticeView::InvalidSnippetJson(json_parse_error(edited)),
            Some(json) => if json is Object {
                pretty_fails(json) && notice is SerializationFailed
            } else {
                notice is SnippetNotObject
            },
        }
    }
}

/// Takes a common snippet from the editor: what is stored from now on, and what is told
/// once it is.
pub fn submit_config_common_snippet(app_type: AppType, content: &str) -> (r: Result<
    (Option<String>, Notice),
    Notice,
>)
    ensures
        match r {
            Ok((next, done)) => snippet_accepted(
                app_type,
                trimmed(content@),
                maybe_text(next),
                done@,
            ),
            Err(notice) => snippet_refused(app_type, trimmed(content@), notice@),
        },
{
    let edited = trim(content);
    if edited.is_empty() {
        return Ok((None, Notice::SnippetCleared));
    }
    if matches!(app_type, AppType::Codex) {
        return match parse_document(edited) {
            Ok(document) => {
                let written = write_document(&document);
                Ok((Some(trim(written.as_str()).to_owned()), Notice::SnippetSaved))
            },
            Err(message) => Err(Notice::InvalidToml(message)),
        };
    }
    match parse_json(edited) {
        Ok(json) => {
            if !json.is_object() {
                return Err(Notice::SnippetNotObject);
            }
            match write_json(&json) {
                Ok(pretty) => Ok((Some(pretty), Notice::SnippetSaved)),
                Err(message) => Err(Notice::SerializationFailed(message)),
            }
        },
        Err(message) => Err(Notice::InvalidSnippetJson(message)),
    }
}

/// What follows an attempt to store a common snippet.
pub fn snippet_stored(done: Notice, result: Result<(), AppError>) -> (r: Effects)
    ensures
        r@ == (match unit_outcome(result) {
            Ok(_) => EffectsView {
                close_editor: true,
                close_form: false,
                notice: Some(done@),
                reload: true,
            },
            Err(error) => EffectsView::told(NoticeView::Failed(error)),
        }),
{
    match result {
        Ok(_) => Effects {
            close_editor: true,
            close_form: false,
            notice: Some(done),
            reload: true,
        },
        Err(error) => Effects::tell(Notice::Failed(error)),
    }
}

/// The lines in which a common snippet is shown: those of the snippet, or of the one that
/// stands for it where there is none.
pub fn snippet_lines(next: &Option<String>, default_snippet: &str) -> (r: Vec<String>)
    ensures
        texts(r@) == split_lines(
            match maybe_text(*next) {
                Some(snippet) => snippet,
                None => default_snippet@,
            },
        ),
{
    match next {
        Some(snippet) => lines(snippet.as_str()),
        None => lines(default_snippet),
    }
}

/// The text of the settings for synchronisation that was written in the editor; `None`
/// where they are to be cleared.
pub fn submit_webdav_settings(content: &str) -> (r: Option<&str>)
    ensures
        match r {
            Some(text) => !is_blank(content@) && text@ == trimmed(content@),
            None => is_blank(content@),
        },
{
    non_empty(content)
}

} // verus!
