//! The live files of the applications, as values: what was read of them, and what is to
//! be done with them.
use vstd::prelude::*;

use crate::error::{AppError, ErrorView};
use crate::json::{Json, JsonView};
use crate::model::{copy_text, maybe_text};
use crate::toml_plain::{config_toml_error, validate_config_toml};

verus! {

/// What became of the attempt to read a file that holds a JSON document.
pub enum JsonRead {
    /// There is no such file.
    Missing,
    Found(Json),
    Failed(AppError),
}

/// What became of the attempt to read a file that holds a JSON document.
pub enum JsonReadView {
    Missing,
    Found(JsonView),
    Failed(ErrorView),
}

impl JsonRead {
    /// What became of the attempt.
    pub open spec fn view(self) -> JsonReadView {
        match self {
            JsonRead::Missing => JsonReadView::Missing,
            JsonRead::Found(json) => JsonReadView::Found(json@),
            JsonRead::Failed(error) => JsonReadView::Failed(error@),
        }
    }

    /// The document, where there is a file.
    pub fn content(self) -> (r: Result<Option<Json>, AppError>)
        ensures
            maybe_json_outcome(r) == self@.content(),
    {
        match self {
            JsonRead::Missing => Ok(None),
            JsonRead::Found(json) => Ok(Some(json)),
            JsonRead::Failed(error) => Err(error),
        }
    }
}

impl JsonReadView {
    /// The document, where there is a file.
    pub open spec fn content(self) -> Result<Option<JsonView>, ErrorView> {
        match self {
            JsonReadView::Missing => Ok(None),
            JsonReadView::Found(json) => Ok(Some(json)),
            JsonReadView::Failed(error) => Err(error),
        }
    }
}

/// What a document holds, where there is one.
pub open spec fn maybe_json(json: Option<Json>) -> Option<JsonView> {
    match json {
        Some(json) => Some(json@),
        None => None,
    }
}

/// What a document that may be there, or an error, says.
pub open spec fn maybe_json_outcome(result: Result<Option<Json>, AppError>) -> Result<
    Option<JsonView>,
    ErrorView,
> {
    match result {
        Ok(json) => Ok(maybe_json(json)),
        Err(error) => Err(error@),
    }
}

/// What a document or an error says.
pub open spec fn json_outcome(result: Result<Json, AppError>) -> Result<JsonView, ErrorView> {
    match result {
        Ok(json) => Ok(json@),
        Err(error) => Err(error@),
    }
}

/// What became of an attempt that gives no value.
pub open spec fn unit_outcome(result: Result<(), AppError>) -> Result<(), ErrorView> {
    match result {
        Ok(_) => Ok(()),
        Err(error) => Err(error@),
    }
}

/// Copies a document, where there is one.
pub fn copy_json(json: &Option<Json>) -> (r: Option<Json>)
    ensures
        maybe_json(r) == maybe_json(*json),
{
    match json {
        Some(json) => Some(json.copy()),
        None => None,
    }
}

/// What became of the attempt to read a file that holds a text.
pub enum TextRead {
    /// There is no such file.
    Missing,
    Found(String),
    Failed(AppError),
}

/// What became of the attempt to read a file that holds a text.
pub enum TextReadView {
    Missing,
    Found(Seq<char>),
    Failed(ErrorView),
}

impl TextRead {
    /// What became of the attempt.
    pub open spec fn view(self) -> TextReadView {
        match self {
            TextRead::Missing => TextReadView::Missing,
            TextRead::Found(text) => TextReadView::Found(text@),
            TextRead::Failed(error) => TextReadView::Failed(error@),
        }
    }
}

/// A live file.
#[derive(Clone, Copy, Debug, PartialEq, Eq, Structural)]
pub enum LiveFile {
    ClaudeSettings,
    CodexAuth,
    CodexConfig,
    GeminiEnv,
    GeminiSettings,
    OpenCodeConfig,
    OpenClawConfig,
}

/// The variables of an environment.
pub open spec fn vars_view(vars: Seq<(String, String)>) -> Seq<(Seq<char>, Seq<char>)> {
    vars.map_values(|var: (String, String)| (var.0@, var.1@))
}

/// Copies the variables of an environment.
pub fn copy_vars(vars: &Vec<(String, String)>) -> (r: Vec<(String, String)>)
    ensures
        vars_view(r@) == vars_view(vars@),
{
    let mut copies: Vec<(String, String)> = Vec::new();
    let mut i: usize = 0;
    while i < vars.len()
        invariant
            i <= vars.len(),
            copies.len() == i,
            forall|j: int|
                0 <= j < i ==> (#[trigger] copies@[j]).0@ == vars@[j].0@ && copies@[j].1@
                    == vars@[j].1@,
        decreases vars.len() - i,
    {
        copies.push((vars[i].0.clone(), vars[i].1.clone()));
        i += 1;
    }
    assert(vars_view(copies@) =~= vars_view(vars@));
    copies
}

/// What a live file holds.
pub enum Content {
    Json(Json),
    Text(String),
    Env(Vec<(String, String)>),
}

/// What a live file holds.
#[verifier::ext_equal]
pub enum ContentView {
    Json(JsonView),
    Text(Seq<char>),
    Env(Seq<(Seq<char>, Seq<char>)>),
}

impl Content {
    /// What the file holds.
    pub open spec fn view(self) -> ContentView {
        match self {
            Content::Json(json) => ContentView::Json(json@),
            Content::Text(text) => ContentView::Text(text@),
            Content::Env(vars) => ContentView::Env(vars_view(vars@)),
        }
    }
}

/// What is to be done with a live file.
pub enum FileAction {
    Write(LiveFile, Content),
    /// The file is taken away, where it is there.
    Delete(LiveFile),
    /// The file is copied aside and taken away, where it is there.
    SetAside(LiveFile),
}

/// What is to be done with a live file.
#[verifier::ext_equal]
pub enum FileActionView {
    Write(LiveFile, ContentView),
    Delete(LiveFile),
    SetAside(LiveFile),
}

impl FileAction {
    /// What is to be done.
    pub open spec fn view(self) -> FileActionView {
        match self {
            FileAction::Write(file, content) => FileActionView::Write(file, content@),
            FileAction::Delete(file) => FileActionView::Delete(file),
            FileAction::SetAside(file) => FileActionView::SetAside(file),
        }
    }
}

/// What is to be done, one after the other.
pub open spec fn actions_view(actions: Seq<FileAction>) -> Seq<FileActionView> {
    actions.map_values(|action: FileAction| action@)
}

/// The live files after something has been done with one of them.
pub open spec fn after_action(
    files: Map<LiveFile, ContentView>,
    action: FileActionView,
) -> Map<LiveFile, ContentView> {
    match action {
        FileActionView::Write(file, content) => files.insert(file, content),
        FileActionView::Delete(file) => files.remove(file),
        FileActionView::SetAside(file) => files.remove(file),
    }
}

/// The live files after several things have been done, one after the other.
pub open spec fn after_actions(
    files: Map<LiveFile, ContentView>,
    actions: Seq<FileActionView>,
) -> Map<LiveFile, ContentView>
    decreases actions.len(),
{
    if actions.len() == 0 {
        files
    } else {
        after_action(after_actions(files, actions.drop_last()), actions.last())
    }
}

/// The live files of an application as they were, so that they can be put back.
#[allow(inconsistent_fields)]
pub enum LiveSnapshot {
    Claude { settings: Option<Json> },
    Codex { auth: Option<Json>, config: Option<String> },
    Gemini { env: Option<Vec<(String, String)>>, config: Option<Json> },
    OpenCode { config: Option<Json> },
    OpenClaw { config_source: Option<String> },
}

/// The live files of an application as they were.
#[allow(inconsistent_fields)]
#[verifier::ext_equal]
pub enum SnapshotView {
    Claude { settings: Option<JsonView> },
    Codex { auth: Option<JsonView>, config: Option<Seq<char>> },
    Gemini { env: Option<Seq<(Seq<char>, Seq<char>)>>, config: Option<JsonView> },
    OpenCode { config: Option<JsonView> },
    OpenClaw { config_source: Option<Seq<char>> },
}

/// The variables of an environment, where there is one.
pub open spec fn maybe_vars(vars: Option<Vec<(String, String)>>) -> Option<
    Seq<(Seq<char>, Seq<char>)>,
> {
    match vars {
        Some(vars) => Some(vars_view(vars@)),
        None => None,
    }
}

/// A file that held a document is written again, and one that was not there is deleted.
pub open spec fn put_back_json(file: LiveFile, content: Option<JsonView>) -> FileActionView {
    match content {
        Some(json) => FileActionView::Write(file, ContentView::Json(json)),
        None => FileActionView::Delete(file),
    }
}

/// A file that held a text is written again, and one that was not there is deleted.
pub open spec fn put_back_text(file: LiveFile, content: Option<Seq<char>>) -> FileActionView {
    match content {
        Some(text) => FileActionView::Write(file, ContentView::Text(text)),
        None => FileActionView::Delete(file),
    }
}

impl SnapshotView {
    /// What puts the files back.
    pub open spec fn restoring(self) -> Seq<FileActionView> {
        match self {
            SnapshotView::Claude { settings } => seq![
                put_back_json(LiveFile::ClaudeSettings, settings),
            ],
            SnapshotView::Codex { auth, config } => seq![
                put_back_json(LiveFile::CodexAuth, auth),
                put_back_text(LiveFile::CodexConfig, config),
            ],
            SnapshotView::Gemini { env, config } => seq![
                match env {
                    Some(vars) => FileActionView::Write(LiveFile::GeminiEnv, ContentView::Env(vars)),
                    None => FileActionView::Delete(LiveFile::GeminiEnv),
                },
                put_back_json(LiveFile::GeminiSettings, config),
            ],
            SnapshotView::OpenCode { config } => seq![
                put_back_json(LiveFile::OpenCodeConfig, config),
            ],
            SnapshotView::OpenClaw { config_source } => seq![
                put_back_text(LiveFile::OpenClawConfig, config_source),
            ],
        }
    }
}

impl LiveSnapshot {
    /// The live files as they were.
    pub open spec fn view(self) -> SnapshotView {
        match self {
            LiveSnapshot::Claude { settings } => SnapshotView::Claude {
                settings: maybe_json(settings),
            },
            LiveSnapshot::Codex { auth, config } => SnapshotView::Codex {
                auth: maybe_json(auth),
                config: maybe_text(config),
            },
            LiveSnapshot::Gemini { env, config } => SnapshotView::Gemini {
                env: maybe_vars(env),
                config: maybe_json(config),
            },
            LiveSnapshot::OpenCode { config } => SnapshotView::OpenCode {
                config: maybe_json(config),
            },
            LiveSnapshot::OpenClaw { config_source } => SnapshotView::OpenClaw {
                config_source: maybe_text(config_source),
            },
        }
    }

    /// A copy.
    pub fn copy(&self) -> (r: LiveSnapshot)
        ensures
            r@ == self@,
    {
        match self {
            LiveSnapshot::Claude { settings } => LiveSnapshot::Claude {
                settings: copy_json(settings),
            },
            LiveSnapshot::Codex { auth, config } => LiveSnapshot::Codex {
                auth: copy_json(auth),
                config: copy_text(config),
            },
            LiveSnapshot::Gemini { env, config } => LiveSnapshot::Gemini {
                env: match env {
                    Some(vars) => Some(copy_vars(vars)),
                    None => None,
                },
                config: copy_json(config),
            },
            LiveSnapshot::OpenCode { config } => LiveSnapshot::OpenCode {
                config: copy_json(config),
            },
            LiveSnapshot::OpenClaw { config_source } => LiveSnapshot::OpenClaw {
                config_source: copy_text(config_source),
            },
        }
    }

    /// What puts the files back as they were.
    pub fn restore(&self) -> (r: Vec<FileAction>)
        ensures
            actions_view(r@) == self@.restoring(),
    {
        let r = match self {
            LiveSnapshot::Claude { settings } => vec![
                back_to_json(LiveFile::ClaudeSettings, settings),
            ],
            LiveSnapshot::Codex { auth, config } => vec![
                back_to_json(LiveFile::CodexAuth, auth),
                back_to_text(LiveFile::CodexConfig, config),
            ],
            LiveSnapshot::Gemini { env, config } => vec![
                match env {
                    Some(vars) => FileAction::Write(
                        LiveFile::GeminiEnv,
                        Content::Env(copy_vars(vars)),
                    ),
                    None => FileAction::Delete(LiveFile::GeminiEnv),
                },
                back_to_json(LiveFile::GeminiSettings, config),
            ],
            LiveSnapshot::OpenCode { config } => vec![
                back_to_json(LiveFile::OpenCodeConfig, config),
            ],
            LiveSnapshot::OpenClaw { config_source } => vec![
                back_to_text(LiveFile::OpenClawConfig, config_source),
            ],
        };
        assert(actions_view(r@) =~= self@.restoring());
        r
    }
}

/// Writes a file that held a document again, or deletes one that was not there.
fn back_to_json(file: LiveFile, content: &Option<Json>) -> (r: FileAction)
    ensures
        r@ == put_back_json(file, maybe_json(*content)),
{
    match content {
        Some(json) => FileAction::Write(file, Content::Json(json.copy())),
        None => FileAction::Delete(file),
    }
}

/// Writes a file that held a text again, or deletes one that was not there.
fn back_to_text(file: LiveFile, content: &Option<String>) -> (r: FileAction)
    ensures
        r@ == put_back_text(file, maybe_text(*content)),
{
    match content {
        Some(text) => FileAction::Write(file, Content::Text(text.clone())),
        None => FileAction::Delete(file),
    }
}

/// What became of the attempts to read the live files of an application.
#[allow(inconsistent_fields)]
pub enum LiveRead {
    Claude { settings: JsonRead },
    Codex { auth: JsonRead, config: TextRead },
    Gemini { env: EnvRead, settings: JsonRead },
    OpenCode { config: JsonRead },
    OpenClaw { source: TextRead },
}

/// What became of the attempt to read the variables of an environment.
pub enum EnvRead {
    Missing,
    Found(Vec<(String, String)>),
    Failed(AppError),
}

/// What a snapshot or an error says.
pub open spec fn snapshot_outcome(result: Result<LiveSnapshot, AppError>) -> Result<
    SnapshotView,
    ErrorView,
> {
    match result {
        Ok(snapshot) => Ok(snapshot@),
        Err(error) => Err(error@),
    }
}

/// What was read of an environment, where there is one.
pub open spec fn env_content(read: EnvRead) -> Result<
    Option<Seq<(Seq<char>, Seq<char>)>>,
    ErrorView,
> {
    match read {
        EnvRead::Missing => Ok(None),
        EnvRead::Found(vars) => Ok(Some(vars_view(vars@))),
        EnvRead::Failed(error) => Err(error@),
    }
}

/// What was read of a text, where there is one.
pub open spec fn text_content(read: TextReadView) -> Result<Option<Seq<char>>, ErrorView> {
    match read {
        TextReadView::Missing => Ok(None),
        TextReadView::Found(text) => Ok(Some(text)),
        TextReadView::Failed(error) => Err(error),
    }
}

/// What was read of a Codex configuration, where there is one; it must be a document.
pub open spec fn valid_text(read: TextReadView) -> Result<Option<Seq<char>>, ErrorView> {
    match read {
        TextReadView::Found(text) => match config_toml_error(text) {
            Some(error) => Err(error),
            None => Ok(Some(text)),
        },
        _ => text_content(read),
    }
}

/// What is kept of the live files that were read; the first failure counts.
pub open spec fn captured(read: LiveRead) -> Result<SnapshotView, ErrorView> {
    match read {
        LiveRead::Claude { settings } => match settings@.content() {
            Ok(settings) => Ok(SnapshotView::Claude { settings }),
            Err(error) => Err(error),
        },
        LiveRead::Codex { auth, config } => match (auth@.content(), valid_text(config@)) {
            (Err(error), _) => Err(error),
            (Ok(_), Err(error)) => Err(error),
            (Ok(auth), Ok(config)) => Ok(SnapshotView::Codex { auth, config }),
        },
        LiveRead::Gemini { env, settings } => match (env_content(env), settings@.content()) {
            (Err(error), _) => Err(error),
            (Ok(_), Err(error)) => Err(error),
            (Ok(env), Ok(config)) => Ok(SnapshotView::Gemini { env, config }),
        },
        LiveRead::OpenCode { config } => match config@.content() {
            Ok(config) => Ok(SnapshotView::OpenCode { config }),
            Err(error) => Err(error),
        },
        LiveRead::OpenClaw { source } => match text_content(source@) {
            Ok(config_source) => Ok(SnapshotView::OpenClaw { config_source }),
            Err(error) => Err(error),
        },
    }
}

/// The text that was read, where there is one.
fn text_of(read: TextRead) -> (r: Result<Option<String>, AppError>)
    ensures
        match r {
            Ok(text) => text_content(read@) == Ok::<Option<Seq<char>>, ErrorView>(maybe_text(text)),
            Err(error) => text_content(read@) == Err::<Option<Seq<char>>, ErrorView>(error@),
        },
{
    match read {
        TextRead::Missing => Ok(None),
        TextRead::Found(text) => Ok(Some(text)),
        TextRead::Failed(error) => Err(error),
    }
}

/// The Codex configuration that was read, where there is one; it must be a document.
pub fn valid_text_of(read: TextRead) -> (r: Result<Option<String>, AppError>)
    ensures
        match r {
            Ok(text) => valid_text(read@) == Ok::<Option<Seq<char>>, ErrorView>(maybe_text(text)),
            Err(error) => valid_text(read@) == Err::<Option<Seq<char>>, ErrorView>(error@),
        },
{
    match read {
        TextRead::Missing => Ok(None),
        TextRead::Found(text) => match validate_config_toml(text.as_str()) {
            Ok(_) => Ok(Some(text)),
            Err(error) => Err(error),
        },
        TextRead::Failed(error) => Err(error),
    }
}

/// Keeps the live files that were read.
pub fn capture_live_snapshot(read: LiveRead) -> (r: Result<LiveSnapshot, AppError>)
    ensures
        snapshot_outcome(r) == captured(read),
{
    match read {
        LiveRead::Claude { settings } => match settings.content() {
            Ok(settings) => Ok(LiveSnapshot::Claude { settings }),
            Err(error) => Err(error),
        },
        LiveRead::Codex { auth, config } => match auth.content() {
            Ok(auth) => match valid_text_of(config) {
                Ok(config) => Ok(LiveSnapshot::Codex { auth, config }),
                Err(error) => Err(error),
            },
            Err(error) => Err(error),
        },
        LiveRead::Gemini { env, settings } => {
            let env: Option<Vec<(String, String)>> = match env {
                EnvRead::Missing => None,
                EnvRead::Found(vars) => Some(vars),
                EnvRead::Failed(error) => {
                    return Err(error);
                },
            };
            match settings.content() {
                Ok(config) => Ok(LiveSnapshot::Gemini { env, config }),
                Err(error) => Err(error),
            }
        },
        LiveRead::OpenCode { config } => match config.content() {
            Ok(config) => Ok(LiveSnapshot::OpenCode { config }),
            Err(error) => Err(error),
        },
        LiveRead::OpenClaw { source } => match text_of(source) {
            Ok(config_source) => Ok(LiveSnapshot::OpenClaw { config_source }),
            Err(error) => Err(error),
        },
    }
}

/// The live files of an application, as a snapshot says they were.
pub open spec fn snapshot_files(snapshot: SnapshotView) -> Map<LiveFile, Option<ContentView>> {
    match snapshot {
        SnapshotView::Claude { settings } => Map::empty().insert(
            LiveFile::ClaudeSettings,
            maybe_content(settings),
        ),
        SnapshotView::Codex { auth, config } => Map::empty().insert(
            LiveFile::CodexAuth,
            maybe_content(auth),
        ).insert(
            LiveFile::CodexConfig,
            match config {
                Some(text) => Some(ContentView::Text(text)),
                None => None,
            },
        ),
        SnapshotView::Gemini { env, config } => Map::empty().insert(
            LiveFile::GeminiEnv,
            match env {
                Some(vars) => Some(ContentView::Env(vars)),
                None => None,
            },
        ).insert(LiveFile::GeminiSettings, maybe_content(config)),
        SnapshotView::OpenCode { config } => Map::empty().insert(
            LiveFile::OpenCodeConfig,
            maybe_content(config),
        ),
        SnapshotView::OpenClaw { config_source } => Map::empty().insert(
            LiveFile::OpenClawConfig,
            match config_source {
                Some(text) => Some(ContentView::Text(text)),
                None => None,
            },
        ),
    }
}

/// A document as what a file holds.
pub open spec fn maybe_content(json: Option<JsonView>) -> Option<ContentView> {
    match json {
        Some(json) => Some(ContentView::Json(json)),
        None => None,
    }
}

/// Whatever the live files have become, restoring a snapshot makes those of its
/// application what they were, and changes no other.
pub proof fn law_restore_puts_back(
    snapshot: SnapshotView,
    files: Map<LiveFile, ContentView>,
    file: LiveFile,
)
    ensures
        ({
            let after = after_actions(files, snapshot.restoring());
            let kept = snapshot_files(snapshot);
            if kept.contains_key(file) {
                match kept[file] {
                    Some(content) => after.contains_key(file) && after[file] == content,
                    None => !after.contains_key(file),
                }
            } else {
                &&& after.contains_key(file) == files.contains_key(file)
                &&& files.contains_key(file) ==> after[file] == files[file]
            }
        }),
{
    let actions = snapshot.restoring();
    reveal_with_fuel(after_actions, 3);
    if actions.len() == 2 {
        assert(actions.drop_last().drop_last() =~= Seq::empty());
        assert(actions.drop_last().last() == actions[0]);
        assert(actions.last() == actions[1]);
    } else {
        assert(actions.drop_last() =~= Seq::empty());
        assert(actions.last() == actions[0]);
    }
}

} // verus!
