//! The configuration that the application stores.
use vstd::prelude::*;

use crate::json::{Json, JsonView};
use crate::model::{copy_text, maybe_text, AppType, Provider, ProviderView};
use crate::providers::{copy_providers, find, find_mut, no_providers};
use crate::providers::{provider_ids, provider_map};
use crate::text::texts;

verus! {

/// The providers of one application.
pub struct ProviderManager {
    pub providers: indexmap::IndexMap<String, Provider>,
    /// The identifier of the current provider, empty where there is none.
    pub current: String,
}

/// The providers of one application: their identifiers in order, the providers
/// themselves, and which one is the current one.
#[verifier::ext_equal]
pub struct ManagerView {
    pub ids: Seq<Seq<char>>,
    pub providers: Map<Seq<char>, ProviderView>,
    pub current: Seq<char>,
}

impl ManagerView {
    /// Without providers.
    pub open spec fn empty() -> ManagerView {
        ManagerView { ids: Seq::empty(), providers: Map::empty(), current: Seq::empty() }
    }

    /// With another provider in the place of the one of that identifier.
    pub open spec fn with_provider(self, id: Seq<char>, provider: ProviderView) -> ManagerView {
        ManagerView { providers: self.providers.insert(id, provider), ..self }
    }
}

impl ProviderManager {
    /// The providers.
    pub open spec fn view(self) -> ManagerView {
        ManagerView {
            ids: provider_ids(self.providers),
            providers: provider_map(self.providers),
            current: self.current@,
        }
    }

    /// Without providers.
    pub fn new() -> (r: ProviderManager)
        ensures
            r@ == ManagerView::empty(),
    {
        let current = String::new();
        assert(current@ =~= Seq::empty());
        ProviderManager { providers: no_providers(), current }
    }

    /// A copy.
    pub fn copy(&self) -> (r: ProviderManager)
        ensures
            r@ == self@,
    {
        ProviderManager {
            providers: copy_providers(&self.providers),
            current: self.current.clone(),
        }
    }
}

/// Which applications an MCP server is enabled for.
#[derive(Clone, Copy, Debug, PartialEq, Eq, Structural)]
pub struct McpApps {
    pub claude: bool,
    pub codex: bool,
    pub gemini: bool,
    pub opencode: bool,
}

/// A server of the model context protocol.
pub struct McpServer {
    pub id: String,
    pub name: String,
    pub server: Json,
    pub apps: McpApps,
    pub description: Option<String>,
    pub homepage: Option<String>,
    pub docs: Option<String>,
    pub tags: Vec<String>,
}

/// What is stored of a server of the model context protocol.
#[verifier::ext_equal]
pub struct McpServerView {
    pub id: Seq<char>,
    pub name: Seq<char>,
    pub server: JsonView,
    pub apps: McpApps,
    pub description: Option<Seq<char>>,
    pub homepage: Option<Seq<char>>,
    pub docs: Option<Seq<char>>,
    pub tags: Seq<Seq<char>>,
}

impl McpServer {
    /// What is stored of the server.
    pub open spec fn view(self) -> McpServerView {
        McpServerView {
            id: self.id@,
            name: self.name@,
            server: self.server@,
            apps: self.apps,
            description: maybe_text(self.description),
            homepage: maybe_text(self.homepage),
            docs: maybe_text(self.docs),
            tags: texts(self.tags@),
        }
    }

    /// A copy.
    pub fn copy(&self) -> (r: McpServer)
        ensures
            r@ == self@,
    {
        McpServer {
            id: self.id.clone(),
            name: self.name.clone(),
            server: self.server.copy(),
            apps: self.apps,
            description: copy_text(&self.description),
            homepage: copy_text(&self.homepage),
            docs: copy_text(&self.docs),
            tags: copy_texts(&self.tags),
        }
    }
}

/// Copies a list of texts.
pub fn copy_texts(strings: &Vec<String>) -> (r: Vec<String>)
    ensures
        texts(r@) == texts(strings@),
{
    let mut copies: Vec<String> = Vec::new();
    let mut i: usize = 0;
    while i < strings.len()
        invariant
            i <= strings.len(),
            copies.len() == i,
            forall|j: int| 0 <= j < i ==> (#[trigger] copies@[j])@ == strings@[j]@,
        decreases strings.len() - i,
    {
        copies.push(strings[i].clone());
        i += 1;
    }
    assert(texts(copies@) =~= texts(strings@));
    copies
}

/// What is stored of a list of servers.
pub open spec fn servers_view(servers: Seq<McpServer>) -> Seq<McpServerView> {
    servers.map_values(|server: McpServer| server@)
}

/// Copies a list of servers.
fn copy_servers(servers: &Vec<McpServer>) -> (r: Vec<McpServer>)
    ensures
        servers_view(r@) == servers_view(servers@),
{
    let mut copies: Vec<McpServer> = Vec::new();
    let mut i: usize = 0;
    while i < servers.len()
        invariant
            i <= servers.len(),
            copies.len() == i,
            forall|j: int| 0 <= j < i ==> (#[trigger] copies@[j])@ == servers@[j]@,
        decreases servers.len() - i,
    {
        copies.push(servers[i].copy());
        i += 1;
    }
    assert(servers_view(copies@) =~= servers_view(servers@));
    copies
}

/// The snippets of configuration that the providers of an application share.
pub struct CommonConfigSnippets {
    pub claude: Option<String>,
    pub codex: Option<String>,
    pub gemini: Option<String>,
    pub opencode: Option<String>,
    pub openclaw: Option<String>,
}

impl CommonConfigSnippets {
    /// The snippet of an application, where it has one.
    pub open spec fn slot(self, app: AppType) -> Option<String> {
        match app {
            AppType::Claude => self.claude,
            AppType::Codex => self.codex,
            AppType::Gemini => self.gemini,
            AppType::OpenCode => self.opencode,
            AppType::OpenClaw => self.openclaw,
        }
    }

    /// The snippets, by application.
    pub open spec fn view(self) -> Map<AppType, Seq<char>> {
        Map::new(|app: AppType| self.slot(app) is Some, |app: AppType| self.slot(app)->0@)
    }

    /// No snippets.
    pub fn new() -> (r: CommonConfigSnippets)
        ensures
            r@ == Map::<AppType, Seq<char>>::empty(),
    {
        let r = CommonConfigSnippets {
            claude: None,
            codex: None,
            gemini: None,
            opencode: None,
            openclaw: None,
        };
        assert(r@ =~= Map::empty());
        r
    }

    /// The snippet of an application, where it has one.
    pub fn get(&self, app: AppType) -> (r: Option<&String>)
        ensures
            match r {
                Some(snippet) => self@.contains_key(app) && self@[app] == snippet@,
                None => !self@.contains_key(app),
            },
    {
        match app {
            AppType::Claude => self.claude.as_ref(),
            AppType::Codex => self.codex.as_ref(),
            AppType::Gemini => self.gemini.as_ref(),
            AppType::OpenCode => self.opencode.as_ref(),
            AppType::OpenClaw => self.openclaw.as_ref(),
        }
    }

    /// Stores the snippet of an application, or takes it away.
    pub fn set(&mut self, app: AppType, snippet: Option<String>)
        ensures
            final(self)@ == (match snippet {
                Some(text) => old(self)@.insert(app, text@),
                None => old(self)@.remove(app),
            }),
    {
        let ghost before = self@;
        match app {
            AppType::Claude => {
                self.claude = snippet;
            },
            AppType::Codex => {
                self.codex = snippet;
            },
            AppType::Gemini => {
                self.gemini = snippet;
            },
            AppType::OpenCode => {
                self.opencode = snippet;
            },
            AppType::OpenClaw => {
                self.openclaw = snippet;
            },
        }
        assert(self@ =~= (match snippet {
            Some(text) => before.insert(app, text@),
            None => before.remove(app),
        }));
    }

    /// A copy.
    pub fn copy(&self) -> (r: CommonConfigSnippets)
        ensures
            r@ == self@,
    {
        let r = CommonConfigSnippets {
            claude: copy_text(&self.claude),
            codex: copy_text(&self.codex),
            gemini: copy_text(&self.gemini),
            opencode: copy_text(&self.opencode),
            openclaw: copy_text(&self.openclaw),
        };
        assert forall|app: AppType| maybe_text(r.slot(app)) == maybe_text(
            #[trigger] self.slot(app),
        ) by {}
        assert(r@ =~= self@);
        r
    }
}

/// Everything that is stored.
pub struct MultiAppConfig {
    pub claude: Option<ProviderManager>,
    pub codex: Option<ProviderManager>,
    pub gemini: Option<ProviderManager>,
    pub opencode: Option<ProviderManager>,
    pub openclaw: Option<ProviderManager>,
    pub common_config_snippets: CommonConfigSnippets,
    pub mcp_servers: Option<Vec<McpServer>>,
}

/// Everything that is stored: the providers and the common snippet of each application
/// that has them, and the servers of the model context protocol.
#[verifier::ext_equal]
pub struct ConfigView {
    pub managers: Map<AppType, ManagerView>,
    pub snippets: Map<AppType, Seq<char>>,
    pub mcp_servers: Option<Seq<McpServerView>>,
}

impl ConfigView {
    /// What a first run starts with: a place without providers for each application, no
    /// snippets and no servers.
    pub open spec fn first() -> ConfigView {
        ConfigView {
            managers: Map::new(|app: AppType| true, |app: AppType| ManagerView::empty()),
            snippets: Map::empty(),
            mcp_servers: None,
        }
    }

    /// With other providers of an application.
    pub open spec fn with_manager(self, app: AppType, manager: ManagerView) -> ConfigView {
        ConfigView { managers: self.managers.insert(app, manager), ..self }
    }

    /// The snippet of an application, where it has one.
    pub open spec fn snippet(self, app: AppType) -> Option<Seq<char>> {
        if self.snippets.contains_key(app) {
            Some(self.snippets[app])
        } else {
            None
        }
    }

    /// With another snippet of an application, or without one.
    pub open spec fn with_snippet(self, app: AppType, snippet: Option<Seq<char>>) -> ConfigView {
        ConfigView {
            snippets: match snippet {
                Some(text) => self.snippets.insert(app, text),
                None => self.snippets.remove(app),
            },
            ..self
        }
    }

    /// The identifier of the current provider of an application, empty where there is
    /// none.
    pub open spec fn current(self, app: AppType) -> Seq<char> {
        if self.managers.contains_key(app) {
            self.managers[app].current
        } else {
            Seq::empty()
        }
    }

    /// The provider of an application under an identifier, where there is one.
    pub open spec fn provider(self, app: AppType, id: Seq<char>) -> Option<ProviderView> {
        if self.managers.contains_key(app) && self.managers[app].providers.contains_key(id) {
            Some(self.managers[app].providers[id])
        } else {
            None
        }
    }

    /// With another provider of an application in the place of the one of that
    /// identifier, where there is one.
    pub open spec fn with_provider(
        self,
        app: AppType,
        id: Seq<char>,
        provider: ProviderView,
    ) -> ConfigView {
        if self.provider(app, id) is Some {
            self.with_manager(app, self.managers[app].with_provider(id, provider))
        } else {
            self
        }
    }
}

/// What is stored of the servers, where they are stored.
pub open spec fn maybe_servers(servers: Option<Vec<McpServer>>) -> Option<Seq<McpServerView>> {
    match servers {
        Some(servers) => Some(servers_view(servers@)),
        None => None,
    }
}

impl MultiAppConfig {
    /// The providers of an application, where they are stored.
    pub open spec fn slot(self, app: AppType) -> Option<ProviderManager> {
        match app {
            AppType::Claude => self.claude,
            AppType::Codex => self.codex,
            AppType::Gemini => self.gemini,
            AppType::OpenCode => self.opencode,
            AppType::OpenClaw => self.openclaw,
        }
    }

    /// Everything that is stored.
    pub open spec fn view(self) -> ConfigView {
        ConfigView {
            managers: Map::new(
                |app: AppType| self.slot(app) is Some,
                |app: AppType| self.slot(app)->0@,
            ),
            snippets: self.common_config_snippets@,
            mcp_servers: maybe_servers(self.mcp_servers),
        }
    }

    /// What a first run starts with: a place without providers for each application, no
    /// snippets and no servers.
    pub fn new() -> (r: MultiAppConfig)
        ensures
            r@ == ConfigView::first(),
    {
        let r = MultiAppConfig {
            claude: Some(ProviderManager::new()),
            codex: Some(ProviderManager::new()),
            gemini: Some(ProviderManager::new()),
            opencode: Some(ProviderManager::new()),
            openclaw: Some(ProviderManager::new()),
            common_config_snippets: CommonConfigSnippets::new(),
            mcp_servers: None,
        };
        assert(r@.managers =~= ConfigView::first().managers);
        r
    }

    /// The providers of an application, where they are stored.
    pub fn get_manager(&self, app: AppType) -> (r: Option<&ProviderManager>)
        ensures
            match r {
                Some(manager) => self@.managers.contains_key(app) && self@.managers[app]
                    == manager@,
                None => !self@.managers.contains_key(app),
            },
    {
        match app {
            AppType::Claude => self.claude.as_ref(),
            AppType::Codex => self.codex.as_ref(),
            AppType::Gemini => self.gemini.as_ref(),
            AppType::OpenCode => self.opencode.as_ref(),
            AppType::OpenClaw => self.openclaw.as_ref(),
        }
    }

    /// The identifier of the current provider of an application, empty where there is
    /// none.
    pub fn current_id(&self, app: AppType) -> (r: String)
        ensures
            r@ == self@.current(app),
    {
        match self.get_manager(app) {
            Some(manager) => manager.current.clone(),
            None => {
                let none = String::new();
                assert(none@ =~= Seq::empty());
                none
            },
        }
    }

    /// The provider of an application under an identifier, where there is one.
    pub fn find_provider(&self, app: AppType, id: &str) -> (r: Option<&Provider>)
        ensures
            match r {
                Some(provider) => self@.provider(app, id@) == Some(provider@),
                None => self@.provider(app, id@) is None,
            },
    {
        match self.get_manager(app) {
            Some(manager) => find(&manager.providers, id),
            None => None,
        }
    }

    /// Puts another provider in the place of the one of that identifier, where there is
    /// one.
    pub fn replace_provider(&mut self, app: AppType, id: &str, provider: Provider)
        ensures
            final(self)@ == old(self)@.with_provider(app, id@, provider@),
    {
        let ghost before = self@;
        if let Some(manager) = self.get_manager_mut(app) {
            let ghost manager_before = manager@;
            if let Some(place) = find_mut(&mut manager.providers, id) {
                *place = provider;
            }
            proof {
                if manager_before.providers.contains_key(id@) {
                    assert(manager@ =~= manager_before.with_provider(id@, provider@));
                } else {
                    assert(manager@ == manager_before);
                }
            }
        }
        proof {
            if before.managers.contains_key(app) && before.provider(app, id@) is None {
                assert(self@.managers =~= before.managers);
            }
        }
    }

    /// Stores the snippet of an application, or takes it away.
    pub fn set_snippet(&mut self, app: AppType, snippet: Option<String>)
        ensures
            final(self)@ == old(self)@.with_snippet(app, maybe_text(snippet)),
    {
        self.common_config_snippets.set(app, snippet);
    }

    /// A copy.
    pub fn copy(&self) -> (r: MultiAppConfig)
        ensures
            r@ == self@,
    {
        let r = MultiAppConfig {
            claude: copy_manager(&self.claude),
            codex: copy_manager(&self.codex),
            gemini: copy_manager(&self.gemini),
            opencode: copy_manager(&self.opencode),
            openclaw: copy_manager(&self.openclaw),
            common_config_snippets: self.common_config_snippets.copy(),
            mcp_servers: match &self.mcp_servers {
                Some(servers) => Some(copy_servers(servers)),
                None => None,
            },
        };
        assert forall|app: AppType| maybe_manager(r.slot(app)) == maybe_manager(
            #[trigger] self.slot(app),
        ) by {}
        assert(r@.managers =~= self@.managers);
        r
    }

    /// Makes a place for the providers of an application, where there is none.
    pub fn ensure_app(&mut self, app: AppType)
        ensures
            final(self)@ == (if old(self)@.managers.contains_key(app) {
                old(self)@
            } else {
                old(self)@.with_manager(app, ManagerView::empty())
            }),
    {
        if self.get_manager(app).is_none() {
            self.set_manager(app, ProviderManager::new());
        }
    }

    /// Stores the providers of an application.
    pub fn set_manager(&mut self, app: AppType, manager: ProviderManager)
        ensures
            final(self)@ == old(self)@.with_manager(app, manager@),
    {
        let ghost before = self@;
        match app {
            AppType::Claude => {
                self.claude = Some(manager);
            },
            AppType::Codex => {
                self.codex = Some(manager);
            },
            AppType::Gemini => {
                self.gemini = Some(manager);
            },
            AppType::OpenCode => {
                self.opencode = Some(manager);
            },
            AppType::OpenClaw => {
                self.openclaw = Some(manager);
            },
        }
        assert(self@.managers =~= before.managers.insert(app, manager@));
    }

    /// The providers of an application to be changed, where they are stored.
    pub fn get_manager_mut(&mut self, app: AppType) -> (r: Option<&mut ProviderManager>)
        ensures
            match r {
                Some(manager) => {
                    &&& old(self)@.managers.contains_key(app)
                    &&& old(self)@.managers[app] == manager@
                    &&& final(self)@ == old(self)@.with_manager(app, final(manager)@)
                },
                None => {
                    &&& !old(self)@.managers.contains_key(app)
                    &&& final(self)@ == old(self)@
                },
            },
    {
        let slot = self.slot_mut(app);
        proof {
            lemma_slot_changed(*old(self), app, *final(slot));
        }
        match slot {
            Some(manager) => Some(manager),
            None => None,
        }
    }

    /// With something else in the place of the providers of an application.
    pub open spec fn with_slot(self, app: AppType, slot: Option<ProviderManager>) -> MultiAppConfig {
        match app {
            AppType::Claude => MultiAppConfig { claude: slot, ..self },
            AppType::Codex => MultiAppConfig { codex: slot, ..self },
            AppType::Gemini => MultiAppConfig { gemini: slot, ..self },
            AppType::OpenCode => MultiAppConfig { opencode: slot, ..self },
            AppType::OpenClaw => MultiAppConfig { openclaw: slot, ..self },
        }
    }

    /// The place of the providers of an application.
    fn slot_mut(&mut self, app: AppType) -> (r: &mut Option<ProviderManager>)
        ensures
            *r == old(self).slot(app),
            *final(self) == old(self).with_slot(app, *final(r)),
    {
        match app {
            AppType::Claude => &mut self.claude,
            AppType::Codex => &mut self.codex,
            AppType::Gemini => &mut self.gemini,
            AppType::OpenCode => &mut self.opencode,
            AppType::OpenClaw => &mut self.openclaw,
        }
    }
}

/// To change the providers of an application changes nothing else.
proof fn lemma_slot_changed(config: MultiAppConfig, app: AppType, slot: Option<ProviderManager>)
    ensures
        slot matches Some(manager) ==> config.with_slot(app, slot)@ == config@.with_manager(
            app,
            manager@,
        ),
        slot is None && config.slot(app) is None ==> config.with_slot(app, slot)@ == config@,
{
    let changed = config.with_slot(app, slot);
    assert forall|other: AppType| other != app implies #[trigger] changed.slot(other)
        == config.slot(other) by {}
    if let Some(manager) = slot {
        assert(changed@.managers =~= config@.managers.insert(app, manager@));
    } else if config.slot(app) is None {
        assert(changed@.managers =~= config@.managers);
    }
}

/// What is stored of the providers, where they are stored.
pub open spec fn maybe_manager(manager: Option<ProviderManager>) -> Option<ManagerView> {
    match manager {
        Some(manager) => Some(manager@),
        None => None,
    }
}

/// Copies the providers, where they are stored.
fn copy_manager(manager: &Option<ProviderManager>) -> (r: Option<ProviderManager>)
    ensures
        maybe_manager(r) == maybe_manager(*manager),
{
    match manager {
        Some(manager) => Some(manager.copy()),
        None => None,
    }
}

impl Default for MultiAppConfig {
    fn default() -> (r: MultiAppConfig)
        ensures
            r@ == ConfigView::first(),
    {
        MultiAppConfig::new()
    }
}

} // verus!
