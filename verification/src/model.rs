//! What the application stores: providers, grouped by the application they belong to,
//! and the snippets of configuration that providers share.
use vstd::prelude::*;

use crate::json::{Json, JsonView};

verus! {

/// An application whose providers are managed.
#[derive(Clone, Copy, Debug, PartialEq, Eq, Structural)]
pub enum AppType {
    Claude,
    Codex,
    Gemini,
    OpenCode,
    OpenClaw,
}

impl AppType {
    /// Whether all providers of the application are live at once, so that none is the
    /// current one.
    pub open spec fn additive(self) -> bool {
        self == AppType::OpenCode || self == AppType::OpenClaw
    }

    /// Tells whether all providers of the application are live at once.
    pub fn is_additive_mode(self) -> (r: bool)
        ensures
            r == self.additive(),
    {
        matches!(self, AppType::OpenCode | AppType::OpenClaw)
    }

    /// The name of the application.
    pub open spec fn name(self) -> Seq<char> {
        match self {
            AppType::Claude => "Anthropic"@,
            AppType::Codex => "Codex"@,
            AppType::Gemini => "Gemini"@,
            AppType::OpenCode => "OpenCode"@,
            AppType::OpenClaw => "OpenClaw"@,
        }
    }

    /// The name of the application.
    pub fn display_name(self) -> (r: &'static str)
        ensures
            r@ == self.name(),
    {
        match self {
            AppType::Claude => "Anthropic",
            AppType::Codex => "Codex",
            AppType::Gemini => "Gemini",
            AppType::OpenCode => "OpenCode",
            AppType::OpenClaw => "OpenClaw",
        }
    }

    /// All applications.
    pub open spec fn all_apps() -> Seq<AppType> {
        seq![
            AppType::Claude,
            AppType::Codex,
            AppType::Gemini,
            AppType::OpenCode,
            AppType::OpenClaw,
        ]
    }

    /// All applications.
    pub fn all() -> (r: Vec<AppType>)
        ensures
            r@ == AppType::all_apps(),
    {
        vec![
            AppType::Claude,
            AppType::Codex,
            AppType::Gemini,
            AppType::OpenCode,
            AppType::OpenClaw,
        ]
    }
}

/// The text, where there is one.
pub open spec fn maybe_text(text: Option<String>) -> Option<Seq<char>> {
    match text {
        Some(text) => Some(text@),
        None => None,
    }
}

/// Copies a text, where there is one.
pub fn copy_text(text: &Option<String>) -> (r: Option<String>)
    ensures
        maybe_text(r) == maybe_text(*text),
{
    match text {
        Some(text) => Some(text.clone()),
        None => None,
    }
}

/// Borrows a text, where there is one.
pub fn borrow_text(text: &Option<String>) -> (r: Option<&str>)
    ensures
        match r {
            Some(borrowed) => maybe_text(*text) == Some(borrowed@),
            None => maybe_text(*text) is None,
        },
{
    match text {
        Some(text) => Some(text.as_str()),
        None => None,
    }
}

/// A script that asks a provider how much of a quota has been used.
pub struct UsageScript {
    pub enabled: bool,
    pub language: String,
    pub code: String,
    pub timeout: Option<u64>,
    pub api_key: Option<String>,
    pub base_url: Option<String>,
    pub access_token: Option<String>,
    pub user_id: Option<String>,
    pub template_type: Option<String>,
    pub auto_query_interval: Option<u64>,
}

/// What a usage script holds.
#[verifier::ext_equal]
pub struct UsageScriptView {
    pub enabled: bool,
    pub language: Seq<char>,
    pub code: Seq<char>,
    pub timeout: Option<u64>,
    pub api_key: Option<Seq<char>>,
    pub base_url: Option<Seq<char>>,
    pub access_token: Option<Seq<char>>,
    pub user_id: Option<Seq<char>>,
    pub template_type: Option<Seq<char>>,
    pub auto_query_interval: Option<u64>,
}

impl UsageScript {
    /// What the script holds.
    pub open spec fn view(self) -> UsageScriptView {
        UsageScriptView {
            enabled: self.enabled,
            language: self.language@,
            code: self.code@,
            timeout: self.timeout,
            api_key: maybe_text(self.api_key),
            base_url: maybe_text(self.base_url),
            access_token: maybe_text(self.access_token),
            user_id: maybe_text(self.user_id),
            template_type: maybe_text(self.template_type),
            auto_query_interval: self.auto_query_interval,
        }
    }

    /// A copy of the script.
    pub fn copy(&self) -> (r: UsageScript)
        ensures
            r@ == self@,
    {
        UsageScript {
            enabled: self.enabled,
            language: self.language.clone(),
            code: self.code.clone(),
            timeout: self.timeout,
            api_key: copy_text(&self.api_key),
            base_url: copy_text(&self.base_url),
            access_token: copy_text(&self.access_token),
            user_id: copy_text(&self.user_id),
            template_type: copy_text(&self.template_type),
            auto_query_interval: self.auto_query_interval,
        }
    }
}

/// What is kept about a provider beside its settings.
pub struct ProviderMeta {
    /// Whether the provider uses the common configuration; `None` where it was never
    /// said.
    pub apply_common_config: Option<bool>,
    /// Whether a Codex provider is the official one.
    pub codex_official: Option<bool>,
    pub usage_script: Option<UsageScript>,
    /// Everything else, as it was stored.
    pub extra: Json,
}

/// What is kept about a provider beside its settings.
#[verifier::ext_equal]
pub struct MetaView {
    pub apply_common_config: Option<bool>,
    pub codex_official: Option<bool>,
    pub usage_script: Option<UsageScriptView>,
    pub extra: JsonView,
}

impl MetaView {
    /// Where nothing is kept.
    pub open spec fn empty() -> MetaView {
        MetaView {
            apply_common_config: None,
            codex_official: None,
            usage_script: None,
            extra: JsonView::Null,
        }
    }
}

impl ProviderMeta {
    /// What is kept.
    pub open spec fn view(self) -> MetaView {
        MetaView {
            apply_common_config: self.apply_common_config,
            codex_official: self.codex_official,
            usage_script: match self.usage_script {
                Some(script) => Some(script@),
                None => None,
            },
            extra: self.extra@,
        }
    }

    /// Where nothing is kept.
    pub fn new() -> (r: ProviderMeta)
        ensures
            r@ == MetaView::empty(),
    {
        ProviderMeta {
            apply_common_config: None,
            codex_official: None,
            usage_script: None,
            extra: Json::Null,
        }
    }

    /// A copy.
    pub fn copy(&self) -> (r: ProviderMeta)
        ensures
            r@ == self@,
    {
        ProviderMeta {
            apply_common_config: self.apply_common_config,
            codex_official: self.codex_official,
            usage_script: match &self.usage_script {
                Some(script) => Some(script.copy()),
                None => None,
            },
            extra: self.extra.copy(),
        }
    }
}

impl Default for ProviderMeta {
    fn default() -> (r: ProviderMeta)
        ensures
            r@ == MetaView::empty(),
    {
        ProviderMeta::new()
    }
}

/// A provider of one of the applications.
pub struct Provider {
    pub id: String,
    pub name: String,
    pub settings_config: Json,
    pub website_url: Option<String>,
    pub category: Option<String>,
    pub created_at: Option<i64>,
    pub sort_index: Option<usize>,
    pub meta: Option<ProviderMeta>,
}

/// What a provider holds.
#[verifier::ext_equal]
pub struct ProviderView {
    pub id: Seq<char>,
    pub name: Seq<char>,
    pub settings_config: JsonView,
    pub website_url: Option<Seq<char>>,
    pub category: Option<Seq<char>>,
    pub created_at: Option<i64>,
    pub sort_index: Option<usize>,
    pub meta: Option<MetaView>,
}

/// What is kept, where anything is.
pub open spec fn maybe_meta(meta: Option<ProviderMeta>) -> Option<MetaView> {
    match meta {
        Some(meta) => Some(meta@),
        None => None,
    }
}

impl ProviderView {
    /// What was said about the common configuration.
    pub open spec fn apply_common_config(self) -> Option<bool> {
        match self.meta {
            Some(meta) => meta.apply_common_config,
            None => None,
        }
    }

    /// The provider with other settings.
    pub open spec fn with_settings(self, settings_config: JsonView) -> ProviderView {
        ProviderView { settings_config, ..self }
    }

    /// The provider after it has been noted that it uses the common configuration, where
    /// nothing was said about that.
    pub open spec fn noted_common(self) -> ProviderView {
        if self.apply_common_config() is None {
            ProviderView {
                meta: Some(
                    MetaView {
                        apply_common_config: Some(true),
                        ..(match self.meta {
                            Some(meta) => meta,
                            None => MetaView::empty(),
                        })
                    },
                ),
                ..self
            }
        } else {
            self
        }
    }
}

impl Provider {
    /// What the provider holds.
    pub open spec fn view(self) -> ProviderView {
        ProviderView {
            id: self.id@,
            name: self.name@,
            settings_config: self.settings_config@,
            website_url: maybe_text(self.website_url),
            category: maybe_text(self.category),
            created_at: self.created_at,
            sort_index: self.sort_index,
            meta: maybe_meta(self.meta),
        }
    }

    /// A provider of which nothing else is known.
    pub fn with_id(
        id: String,
        name: String,
        settings_config: Json,
        website_url: Option<String>,
    ) -> (r: Provider)
        ensures
            r@ == (ProviderView {
                id: id@,
                name: name@,
                settings_config: settings_config@,
                website_url: maybe_text(website_url),
                category: None,
                created_at: None,
                sort_index: None,
                meta: None,
            }),
    {
        Provider {
            id,
            name,
            settings_config,
            website_url,
            category: None,
            created_at: None,
            sort_index: None,
            meta: None,
        }
    }

    /// A copy of the provider.
    pub fn copy(&self) -> (r: Provider)
        ensures
            r@ == self@,
    {
        Provider {
            id: self.id.clone(),
            name: self.name.clone(),
            settings_config: self.settings_config.copy(),
            website_url: copy_text(&self.website_url),
            category: copy_text(&self.category),
            created_at: self.created_at,
            sort_index: self.sort_index,
            meta: match &self.meta {
                Some(meta) => Some(meta.copy()),
                None => None,
            },
        }
    }

    /// What was said about the common configuration.
    pub fn apply_common_config(&self) -> (r: Option<bool>)
        ensures
            r == self@.apply_common_config(),
    {
        match &self.meta {
            Some(meta) => meta.apply_common_config,
            None => None,
        }
    }

    /// Notes that the provider uses the common configuration, where nothing was said
    /// about that.
    pub fn note_common(&mut self)
        ensures
            final(self)@ == old(self)@.noted_common(),
    {
        if self.apply_common_config().is_none() {
            match &mut self.meta {
                Some(meta) => {
                    meta.apply_common_config = Some(true);
                },
                None => {
                    let mut meta = ProviderMeta::new();
                    meta.apply_common_config = Some(true);
                    self.meta = Some(meta);
                },
            }
        }
    }
}

impl Clone for Provider {
    fn clone(&self) -> (r: Provider)
        ensures
            r@ == self@,
    {
        self.copy()
    }
}

} // verus!
