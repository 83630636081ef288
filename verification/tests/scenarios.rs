use cc_switch::codex::AuthFile;
use cc_switch::codex_migration::{
    law_never_migrated_again, migrate_legacy_codex_config, provider_key_source,
};
use cc_switch::common_config::provider_uses_common_config;
use cc_switch::config::{McpApps, McpServer, MultiAppConfig};
use cc_switch::json::Json;
use cc_switch::json_value::{parse_json, to_value};
use cc_switch::live_files::{capture_live_snapshot, JsonRead, LiveRead, LiveSnapshot, TextRead};
use cc_switch::live_write::LivePlan;
use cc_switch::model::{AppType, Provider, ProviderMeta};
use cc_switch::refresh::LiveAfter;
use cc_switch::service::{PostCommitAction, ProviderService};
use cc_switch::switching::LiveBefore;
use cc_switch::transaction::{apply_post_commit, FollowUp};

fn json(text: &str) -> Json {
    parse_json(text).expect("valid JSON")
}

fn codex_settings(config: &str) -> Json {
    let mut settings = json("{}");
    settings.insert("config", Json::Str(config.to_string()));
    settings
}

fn with_auth(config: &str, key: &str) -> Json {
    let mut settings = codex_settings(config);
    let mut auth = json("{}");
    auth.insert("OPENAI_API_KEY", Json::Str(key.to_string()));
    settings.insert("auth", auth);
    settings
}

fn provider(id: &str, name: &str, settings: Json) -> Provider {
    Provider::with_id(id.to_string(), name.to_string(), settings, None)
}

fn declining(id: &str, name: &str, settings: Json) -> Provider {
    let mut provider = provider(id, name, settings);
    let mut meta = ProviderMeta::new();
    meta.apply_common_config = Some(false);
    provider.meta = Some(meta);
    provider
}

/// A configuration with the live files of all applications, kept in memory.
struct World {
    config: MultiAppConfig,
    settings: Option<Json>,
    auth: Option<Json>,
    text: Option<String>,
    initialized: bool,
}

fn read_json(json: &Option<Json>) -> JsonRead {
    match json {
        Some(json) => JsonRead::Found(json.copy()),
        None => JsonRead::Missing,
    }
}

fn read_text(text: &Option<String>) -> TextRead {
    match text {
        Some(text) => TextRead::Found(text.clone()),
        None => TextRead::Missing,
    }
}

impl World {
    fn new(app: AppType) -> World {
        let mut config = MultiAppConfig::new();
        config.ensure_app(app);
        World {
            config,
            settings: None,
            auth: None,
            text: None,
            initialized: true,
        }
    }

    fn put(&mut self, app: AppType, provider: Provider) {
        let manager = self.config.get_manager_mut(app).expect("manager");
        manager.providers.insert(provider.id.clone(), provider);
    }

    fn set_current(&mut self, app: AppType, id: &str) {
        self.config.get_manager_mut(app).expect("manager").current = id.to_string();
    }

    fn captured(&self, app: AppType) -> LiveSnapshot {
        let read = match app {
            AppType::Codex => LiveRead::Codex {
                auth: read_json(&self.auth),
                config: read_text(&self.text),
            },
            AppType::Gemini => LiveRead::Gemini {
                env: cc_switch::live_files::EnvRead::Missing,
                settings: JsonRead::Missing,
            },
            _ => LiveRead::Claude { settings: read_json(&self.settings) },
        };
        capture_live_snapshot(read).expect("capture live files")
    }

    fn carry_out(&mut self, action: PostCommitAction) {
        let plan = apply_post_commit(&action, self.initialized);
        for step in plan.steps.iter() {
            match step {
                FollowUp::WriteLive => self.write(&action, plan.apply_common_config),
                FollowUp::Refresh => self.refresh(action.app_type, &action.provider.id),
                _ => {}
            }
        }
    }

    fn write(&mut self, action: &PostCommitAction, apply: bool) {
        let plan = ProviderService::write_live_snapshot(
            action.app_type,
            &action.provider,
            action.common_config_snippet.as_deref(),
            apply,
            self.initialized,
        )
        .expect("plan live files");
        match plan {
            LivePlan::Claude(settings) => self.settings = Some(settings),
            LivePlan::Codex(live) => {
                self.text = Some(live.config);
                self.auth = match live.auth {
                    AuthFile::Write(auth) => Some(auth),
                    AuthFile::Remove => None,
                };
            }
            LivePlan::Gemini(content) => self.settings = Some(content),
            _ => {}
        }
    }

    fn refresh(&mut self, app: AppType, id: &str) {
        let live = match app {
            AppType::Codex => LiveAfter::Codex {
                auth: read_json(&self.auth),
                text: read_text(&self.text),
            },
            AppType::Gemini => {
                let mut env = json("{}");
                let content = self.settings.as_ref().expect("written content");
                env.insert("env", content.get("env").expect("env").copy());
                LiveAfter::Gemini { env: JsonRead::Found(env), settings: JsonRead::Missing }
            }
            _ => LiveAfter::Claude { settings: read_json(&self.settings) },
        };
        ProviderService::refresh_provider_snapshot(&mut self.config, id, live)
            .expect("refresh provider");
    }

    fn add(&mut self, app: AppType, provider: Provider) {
        let captured = Ok(self.captured(app));
        let action =
            ProviderService::add(&mut self.config, app, provider, Ok(()), Ok(()), captured)
                .expect("add provider");
        if let Some(action) = action {
            self.carry_out(action);
        }
    }

    fn update(&mut self, app: AppType, provider: Provider) {
        let captured = Ok(self.captured(app));
        let action =
            ProviderService::update(&mut self.config, app, provider, Ok(()), Ok(()), captured)
                .expect("update provider");
        if let Some(action) = action {
            self.carry_out(action);
        }
    }

    fn switch(&mut self, app: AppType, id: &str) {
        let live = match app {
            AppType::Codex => LiveBefore::Codex {
                auth: read_json(&self.auth),
                text: read_text(&self.text),
            },
            AppType::Gemini => LiveBefore::Gemini {
                env: match &self.settings {
                    Some(content) => {
                        let mut env = json("{}");
                        env.insert("env", content.get("env").expect("env").copy());
                        JsonRead::Found(env)
                    }
                    None => JsonRead::Missing,
                },
                settings: JsonRead::Missing,
            },
            _ => LiveBefore::Claude { settings: read_json(&self.settings) },
        };
        let captured = Ok(self.captured(app));
        let action =
            ProviderService::switch(&mut self.config, app, id, false, captured, live)
                .expect("switch provider");
        self.carry_out(action);
    }

    fn current(&self, app: AppType) -> String {
        self.config.current_id(app)
    }

    fn provider(&self, app: AppType, id: &str) -> &Provider {
        self.config.find_provider(app, id).expect("provider")
    }

    fn stored_text(&self, id: &str) -> String {
        let settings = &self.provider(AppType::Codex, id).settings_config;
        settings.get("config").and_then(Json::as_str).unwrap_or("").to_string()
    }

    fn live_text(&self) -> &str {
        self.text.as_deref().expect("live text")
    }
}

const SHARED: &str = "disable_response_storage = true\nnetwork_access = \"restricted\"\n";

fn codex_text(key: &str, url: &str, extra: &str) -> String {
    format!(
        "model_provider = \"{key}\"\nmodel = \"gpt-5.2-codex\"\n{extra}\n[model_providers.{key}]\nbase_url = \"{url}\"\nwire_api = \"responses\"\nrequires_openai_auth = true\n"
    )
}

fn add_first() -> World {
    let mut world = World::new(AppType::Claude);
    world.initialized = false;
    world.add(
        AppType::Claude,
        provider(
            "p1",
            "First",
            json(r#"{"env":{"ANTHROPIC_AUTH_TOKEN":"token","ANTHROPIC_BASE_URL":"https://one.example"}}"#),
        ),
    );
    world
}

#[test]
fn mod_add_first_provider_sets_current() {
    assert_eq!(add_first().current(AppType::Claude), "p1");
}

#[test]
fn tests_add_first_provider_sets_current() {
    let world = add_first();
    let manager = world.config.get_manager(AppType::Claude).expect("manager");
    assert_eq!(manager.current, "p1");
}

fn healed() -> (String, MultiAppConfig) {
    let mut world = World::new(AppType::Claude);
    world.set_current(AppType::Claude, "missing");
    let mut p1 = provider("p1", "First", json(r#"{"env":{"ANTHROPIC_AUTH_TOKEN":"token1"}}"#));
    p1.sort_index = Some(10);
    let mut p2 = provider("p2", "Second", json(r#"{"env":{"ANTHROPIC_AUTH_TOKEN":"token2"}}"#));
    p2.sort_index = Some(0);
    world.put(AppType::Claude, p1);
    world.put(AppType::Claude, p2);
    let current = ProviderService::current(&mut world.config, AppType::Claude).expect("current");
    assert!(current.changed);
    (current.id, world.config)
}

#[test]
fn mod_current_self_heals_when_current_provider_missing() {
    let (id, config) = healed();
    assert_eq!(id, "p2");
    assert_eq!(config.current_id(AppType::Claude), "p2");
}

#[test]
fn tests_current_self_heals_when_current_provider_missing() {
    let (id, config) = healed();
    assert_eq!(id, "p2");
    assert_eq!(config.get_manager(AppType::Claude).expect("manager").current, "p2");
}

const CLAUDE_SNIPPET: &str =
    r#"{"env":{"CLAUDE_CODE_DISABLE_NONESSENTIAL_TRAFFIC":1},"includeCoAuthoredBy":false}"#;

fn claude_provider(id: &str, token: &str) -> Provider {
    let mut env = json("{}");
    env.insert("ANTHROPIC_AUTH_TOKEN", Json::Str(token.to_string()));
    env.insert("ANTHROPIC_BASE_URL", Json::Str("https://api.example".to_string()));
    let mut settings = json("{}");
    settings.insert("env", env);
    provider(id, id, settings)
}

fn claude_switch(initialized: bool) -> World {
    let mut world = World::new(AppType::Claude);
    world.initialized = initialized;
    world.config.common_config_snippets.claude = Some(CLAUDE_SNIPPET.to_string());
    world.add(AppType::Claude, claude_provider("p1", "token1"));
    world.add(AppType::Claude, claude_provider("p2", "token2"));
    world.switch(AppType::Claude, "p2");
    world
}

fn assert_clean_claude(world: &World) {
    let settings = &world.provider(AppType::Claude, "p1").settings_config;
    assert!(settings.get("includeCoAuthoredBy").is_none());
    let env = settings.get("env").expect("env");
    assert!(env.get("CLAUDE_CODE_DISABLE_NONESSENTIAL_TRAFFIC").is_none());
    assert_eq!(env.get("ANTHROPIC_AUTH_TOKEN").and_then(Json::as_str), Some("token1"));
}

#[test]
fn mod_common_config_snippet_is_not_persisted_into_provider_snapshot_on_switch() {
    assert_clean_claude(&claude_switch(false));
}

#[test]
fn tests_common_config_snippet_is_not_persisted_into_provider_snapshot_on_switch() {
    assert_clean_claude(&claude_switch(true));
}

#[test]
fn live_settings_hold_the_common_snippet_after_a_switch() {
    let world = claude_switch(true);
    let live = world.settings.as_ref().expect("live settings");
    assert_eq!(
        to_value(live),
        to_value(&json(
            r#"{"env":{"CLAUDE_CODE_DISABLE_NONESSENTIAL_TRAFFIC":1,"ANTHROPIC_AUTH_TOKEN":"token2","ANTHROPIC_BASE_URL":"https://api.example"},"includeCoAuthoredBy":false}"#
        ))
    );
}

#[test]
fn common_snippet_can_be_declined() {
    let mut world = World::new(AppType::Claude);
    world.config.common_config_snippets.claude = Some(CLAUDE_SNIPPET.to_string());
    let mut own = claude_provider("p1", "token");
    let mut meta = ProviderMeta::new();
    meta.apply_common_config = Some(false);
    own.meta = Some(meta);
    let expected = to_value(&own.settings_config);
    world.add(AppType::Claude, own);
    assert_eq!(to_value(world.settings.as_ref().expect("live settings")), expected);
}

#[test]
fn claude_switch_strips_common_array_items_but_preserves_provider_specific_ones() {
    let mut world = World::new(AppType::Claude);
    world.config.common_config_snippets.claude = Some(r#"{"allowedTools":["tool1"]}"#.to_string());
    let settings = r#"{"allowedTools":["tool1","tool2"],"env":{"ANTHROPIC_AUTH_TOKEN":"token1"}}"#;
    world.put(AppType::Claude, provider("p1", "Legacy", json(settings)));
    world.put(AppType::Claude, claude_provider("p2", "token2"));
    world.set_current(AppType::Claude, "p1");
    world.settings = Some(json(settings));
    world.switch(AppType::Claude, "p2");
    let after = &world.provider(AppType::Claude, "p1").settings_config;
    assert_eq!(
        to_value(after.get("allowedTools").expect("tools")),
        to_value(&json(r#"["tool2"]"#))
    );
}

#[test]
fn claude_switch_normalizes_legacy_common_config_into_explicit_meta() {
    let mut world = World::new(AppType::Claude);
    world.config.common_config_snippets.claude = Some(CLAUDE_SNIPPET.to_string());
    world.add(AppType::Claude, claude_provider("p1", "token1"));
    let mut legacy = claude_provider("p2", "token2");
    legacy.settings_config.insert("includeCoAuthoredBy", Json::Bool(false));
    legacy
        .settings_config
        .get_mut("env")
        .expect("env")
        .insert("CLAUDE_CODE_DISABLE_NONESSENTIAL_TRAFFIC", json("1"));
    world.put(AppType::Claude, legacy);
    assert!(provider_uses_common_config(
        AppType::Claude,
        world.provider(AppType::Claude, "p2"),
        Some(CLAUDE_SNIPPET)
    ));
    world.switch(AppType::Claude, "p2");
    let after = world.provider(AppType::Claude, "p2");
    assert_eq!(after.apply_common_config(), Some(true));
    assert!(after.settings_config.get("includeCoAuthoredBy").is_none());
    let env = after.settings_config.get("env").expect("env");
    assert!(env.get("CLAUDE_CODE_DISABLE_NONESSENTIAL_TRAFFIC").is_none());
}

fn gemini_switch() -> World {
    let mut world = World::new(AppType::Gemini);
    world.config.common_config_snippets.gemini =
        Some(r#"{"env":{"CC_SWITCH_GEMINI_COMMON":"1"}}"#.to_string());
    world.add(
        AppType::Gemini,
        provider("p1", "First", json(r#"{"env":{"GEMINI_API_KEY":"token1"}}"#)),
    );
    world.add(
        AppType::Gemini,
        provider("p2", "Second", json(r#"{"env":{"GEMINI_API_KEY":"token2"}}"#)),
    );
    world.switch(AppType::Gemini, "p2");
    world
}

fn assert_clean_gemini(world: &World) {
    let settings = &world.provider(AppType::Gemini, "p1").settings_config;
    let env = settings.get("env").expect("env");
    assert!(env.get("CC_SWITCH_GEMINI_COMMON").is_none());
    assert_eq!(env.get("GEMINI_API_KEY").and_then(Json::as_str), Some("token1"));
}

#[test]
fn mod_common_config_snippet_is_not_persisted_into_gemini_provider_snapshot_on_switch() {
    assert_clean_gemini(&gemini_switch());
}

#[test]
fn tests_common_config_snippet_is_not_persisted_into_gemini_provider_snapshot_on_switch() {
    let world = gemini_switch();
    assert_clean_gemini(&world);
    let env = world.settings.as_ref().and_then(|content| content.get("env")).expect("live env");
    assert_eq!(env.get("CC_SWITCH_GEMINI_COMMON").and_then(Json::as_str), Some("1"));
    assert_eq!(env.get("GEMINI_API_KEY").and_then(Json::as_str), Some("token2"));
}

#[test]
fn switch_codex_succeeds_without_auth() {
    let mut world = World::new(AppType::Codex);
    let config = "model_provider = \"keyring\"\nmodel = \"gpt-5.2-codex\"\n\n[model_providers.keyring]\nrequires_openai_auth = true\n";
    let other = "model_provider = \"other\"\nmodel = \"gpt-5.2-codex\"\n\n[model_providers.other]\nrequires_openai_auth = true\n";
    world.put(AppType::Codex, provider("p1", "Keyring", codex_settings(config)));
    world.put(AppType::Codex, provider("p2", "Other", codex_settings(other)));
    world.set_current(AppType::Codex, "p2");
    world.switch(AppType::Codex, "p1");
    assert!(world.auth.is_none());
    assert_eq!(world.current(AppType::Codex), "p1");
    let after = world.provider(AppType::Codex, "p1");
    assert!(after.settings_config.get("auth").is_none());
    assert!(!world.stored_text("p1").is_empty());
}

#[test]
fn codex_switch_removes_auth_for_the_official_provider() {
    let mut world = World::new(AppType::Codex);
    world.auth = Some(json(r#"{"OPENAI_API_KEY":"sk-existing"}"#));
    let third = codex_text("thirdparty", "https://third-party.example/v1", "");
    world.put(AppType::Codex, provider("p1", "Third Party", with_auth(&third, "sk-third-party")));
    let mut official = provider(
        "p2",
        "OpenAI Official",
        codex_settings(&codex_text("openai", "https://api.openai.com/v1", "")),
    );
    let mut meta = ProviderMeta::new();
    meta.codex_official = Some(true);
    official.meta = Some(meta);
    world.put(AppType::Codex, official);
    world.set_current(AppType::Codex, "p1");
    world.switch(AppType::Codex, "p2");
    assert!(world.auth.is_none());
}

#[test]
fn codex_switch_preserves_base_url_and_wire_api_across_several_switches() {
    let mut world = World::new(AppType::Codex);
    world.put(
        AppType::Codex,
        provider("p1", "One", with_auth(&codex_text("one", "https://api.one.example/v1", ""), "sk-one")),
    );
    let two = codex_text("two", "https://api.two.example/v1", "").replace("responses", "chat");
    world.put(AppType::Codex, provider("p2", "Two", with_auth(&two, "sk-two")));
    world.set_current(AppType::Codex, "p1");
    world.switch(AppType::Codex, "p1");
    world.switch(AppType::Codex, "p2");
    world.switch(AppType::Codex, "p1");
    for text in [world.live_text().to_string(), world.stored_text("p1")] {
        assert!(text.contains("base_url = \"https://api.one.example/v1\""));
        assert!(text.contains("wire_api = \"responses\""));
    }
}

#[test]
fn codex_providers_that_decline_get_their_texts_back_word_for_word() {
    let mut world = World::new(AppType::Codex);
    world.config.common_config_snippets.codex = Some("disable_response_storage = true".to_string());
    let one = format!(
        "# mine\n{}\n\n\n# end",
        codex_text("one", "https://api.one.example/v1", "disable_response_storage = true")
    );
    let two = codex_text("two", "https://api.two.example/v1", "").replace("responses", "chat");
    world.put(AppType::Codex, declining("p1", "One", with_auth(&one, "sk-one")));
    world.put(AppType::Codex, declining("p2", "Two", with_auth(&two, "sk-two")));
    world.set_current(AppType::Codex, "p1");
    for id in ["p1", "p2", "p1", "p2"] {
        world.switch(AppType::Codex, id);
        assert_eq!(world.stored_text("p1"), one);
        assert_eq!(world.stored_text("p2"), two);
    }
    assert_eq!(world.live_text(), two);
}

#[test]
fn codex_provider_that_stands_alone_is_untouched_by_any_other() {
    let mut world = World::new(AppType::Codex);
    world.config.common_config_snippets.codex = Some("disable_response_storage = true".to_string());
    let one = format!("# mine\n{}", codex_text("one", "https://api.one.example/v1", ""));
    let two = codex_text("two", "https://api.two.example/v1", "disable_response_storage = true");
    world.put(AppType::Codex, declining("p1", "One", with_auth(&one, "sk-one")));
    world.put(AppType::Codex, provider("p2", "Two", codex_settings(&two)));
    world.set_current(AppType::Codex, "p1");
    for id in ["p1", "p2", "p1"] {
        world.switch(AppType::Codex, id);
    }
    assert_eq!(world.stored_text("p1"), one);
    assert_eq!(world.live_text(), one);
}

#[test]
fn codex_provider_that_uses_the_snippet_gets_it_after_two_switches() {
    let mut world = World::new(AppType::Codex);
    world.config.common_config_snippets.codex = Some("disable_response_storage = true".to_string());
    let one = codex_text("one", "https://api.one.example/v1", "disable_response_storage = true");
    world.text = Some(one.clone());
    world.put(AppType::Codex, provider("p1", "One", with_auth(&one, "sk-one")));
    let two = codex_text("two", "https://api.two.example/v1", "");
    world.put(AppType::Codex, provider("p2", "Two", with_auth(&two, "sk-two")));
    world.set_current(AppType::Codex, "p1");
    world.switch(AppType::Codex, "p2");
    assert!(!world.live_text().contains("disable_response_storage"));
    assert!(!world.stored_text("p1").contains("disable_response_storage"));
    world.switch(AppType::Codex, "p1");
    assert!(world.live_text().contains("disable_response_storage = true"));
    assert!(world.live_text().contains("base_url = \"https://api.one.example/v1\""));
}

#[test]
fn rebuilt_config_is_never_rebuilt_again() {
    for (text, key) in [
        ("base_url = \"https://x\"", "p"),
        ("wire_api = \"chat\"\nz = 1", ""),
        ("base_url = \"https://x\"", "a\"b"),
    ] {
        let rebuilt = law_never_migrated_again(text, key, "other").expect("rebuilt");
        assert_ne!(rebuilt, text);
        assert!(migrate_legacy_codex_config(&rebuilt, "other").is_none());
    }
    assert!(law_never_migrated_again("model = \"m\"", "p", "q").is_none());
}

#[test]
fn common_snippet_is_merged_into_codex_config() {
    let mut world = World::new(AppType::Codex);
    world.config.common_config_snippets.codex = Some("disable_response_storage = true".to_string());
    world.add(
        AppType::Codex,
        provider("p1", "First", with_auth(&codex_text("first", "https://api.example/v1", ""), "sk-test")),
    );
    assert!(world.live_text().contains("disable_response_storage = true"));
}

#[test]
fn codex_switch_extracts_the_common_snippet_and_keeps_servers() {
    let mut world = World::new(AppType::Codex);
    world.put(
        AppType::Codex,
        provider("p1", "First", codex_settings("model_provider = \"first\"\nmodel = \"gpt-4\"\n\n[model_providers.first]\nbase_url = \"https://api.one.example/v1\"\n")),
    );
    world.put(
        AppType::Codex,
        provider("p2", "Second", codex_settings("model_provider = \"second\"\nmodel = \"gpt-4\"\n\n[model_providers.second]\nbase_url = \"https://api.two.example/v1\"\n")),
    );
    world.set_current(AppType::Codex, "p1");
    world.text = Some("model_provider = \"azure\"\nmodel = \"gpt-4\"\ndisable_response_storage = true\n\n[model_providers.azure]\nname = \"Azure OpenAI\"\nbase_url = \"https://azure.example/v1\"\nwire_api = \"responses\"\n\n[mcp_servers.my_server]\nbase_url = \"http://localhost:8080\"\n".to_string());
    world.switch(AppType::Codex, "p2");
    let extracted = world.config.common_config_snippets.codex.clone().unwrap_or_default();
    assert!(extracted.contains("disable_response_storage = true"));
    assert!(extracted.contains("[mcp_servers.my_server]"));
    assert!(extracted.contains("base_url = \"http://localhost:8080\""));
    assert!(!extracted.lines().any(|line| line.trim_start().starts_with("model_provider")));
    assert!(!extracted.lines().any(|line| line.trim_start().starts_with("model =")));
    assert!(!extracted.contains("[model_providers"));
}

#[test]
fn codex_switch_does_not_store_synced_servers() {
    let mut world = World::new(AppType::Codex);
    world.config.mcp_servers = Some(vec![McpServer {
        id: "echo-server".to_string(),
        name: "Echo Server".to_string(),
        server: json(r#"{"type":"stdio","command":"echo"}"#),
        apps: McpApps { claude: false, codex: true, gemini: false, opencode: false },
        description: None,
        homepage: None,
        docs: None,
        tags: Vec::new(),
    }]);
    let first = codex_text("first", "https://api.one.example/v1", "");
    world.put(AppType::Codex, provider("p1", "First", codex_settings(&first)));
    let second = codex_text("second", "https://api.two.example/v1", "");
    world.put(AppType::Codex, provider("p2", "Second", codex_settings(&second)));
    world.set_current(AppType::Codex, "p1");
    world.text = Some(format!("{first}\n[mcp_servers.echo-server]\ncommand = \"echo\"\n"));
    world.switch(AppType::Codex, "p2");
    assert!(!world.stored_text("p1").contains("[mcp_servers.echo-server]"));
    assert!(world.stored_text("p1").contains("base_url = \"https://api.one.example/v1\""));
}

#[test]
fn common_snippet_can_be_declined_for_codex() {
    let mut world = World::new(AppType::Codex);
    world.text = Some(SHARED.to_string());
    world.config.common_config_snippets.codex = Some("disable_response_storage = true".to_string());
    let first = codex_text("first", "https://api.one.example/v1", "");
    world.put(AppType::Codex, provider("p1", "First", codex_settings(&first)));
    let second = codex_text("second", "https://api.two.example/v1", "");
    world.put(AppType::Codex, declining("p2", "Second", codex_settings(&second)));
    world.set_current(AppType::Codex, "p1");
    world.switch(AppType::Codex, "p2");
    assert!(!world.live_text().contains("disable_response_storage = true"));
    assert!(world.live_text().contains("base_url = \"https://api.two.example/v1\""));
}

fn switch_away(first: Provider, live: &str, snippet: &str) -> World {
    let mut world = World::new(AppType::Codex);
    world.config.common_config_snippets.codex = Some(snippet.to_string());
    world.put(AppType::Codex, first);
    let second = codex_text("second", "https://api.two.example/v1", "");
    world.put(AppType::Codex, provider("p2", "Second", codex_settings(&second)));
    world.set_current(AppType::Codex, "p1");
    world.text = Some(live.to_string());
    world.switch(AppType::Codex, "p2");
    world
}

#[test]
fn codex_switch_away_preserves_provider_owned_fields_when_common_config_is_disabled() {
    let text = codex_text("first", "https://api.one.example/v1", SHARED);
    let world = switch_away(declining("p1", "First", codex_settings(&text)), &text, SHARED);
    assert!(world.stored_text("p1").contains("disable_response_storage = true"));
    assert!(world.stored_text("p1").contains("network_access = \"restricted\""));
}

#[test]
fn codex_switch_away_preserves_provider_specific_fields_inside_partially_shared_root_table() {
    let text = format!(
        "{}\n[mcp_servers.shared]\nbase_url = \"http://localhost:8080\"\ntransport = \"sse\"\n",
        codex_text("legacy", "https://api.legacy.example/v1", "")
    );
    let world = switch_away(
        provider("p1", "Legacy", codex_settings(&text)),
        &text,
        "[mcp_servers.shared]\nbase_url = \"http://localhost:8080\"\n",
    );
    assert!(world.stored_text("p1").contains("transport = \"sse\""));
    assert!(!world.stored_text("p1").contains("base_url = \"http://localhost:8080\""));
}

fn switch_to(name: &str, url: &str, extra: &str) -> World {
    let mut world = World::new(AppType::Codex);
    world.config.common_config_snippets.codex = Some(SHARED.to_string());
    let first = codex_text("first", "https://api.one.example/v1", "");
    world.put(AppType::Codex, provider("p1", "First", codex_settings(&first)));
    world.put(AppType::Codex, provider("p2", name, codex_settings(&codex_text(name, url, extra))));
    world.set_current(AppType::Codex, "p1");
    world.switch(AppType::Codex, "p2");
    world
}

#[test]
fn codex_switch_without_legacy_common_config_does_not_auto_apply_common_snippet() {
    let world = switch_to("second", "https://api.two.example/v1", "");
    assert!(!world.live_text().contains("disable_response_storage = true"));
    assert!(!world.live_text().contains("network_access = \"restricted\""));
    assert!(world.live_text().contains("base_url = \"https://api.two.example/v1\""));
}

#[test]
fn codex_switch_with_legacy_common_config_still_applies_common_snippet() {
    let world = switch_to("legacy", "https://api.legacy.example/v1", SHARED);
    assert!(world.live_text().contains("disable_response_storage = true"));
    assert!(world.live_text().contains("network_access = \"restricted\""));
    assert!(world.live_text().contains("base_url = \"https://api.legacy.example/v1\""));
}

#[test]
fn codex_switch_normalizes_legacy_common_config_into_explicit_meta() {
    let world = switch_to("legacy", "https://api.legacy.example/v1", SHARED);
    assert_eq!(world.provider(AppType::Codex, "p2").apply_common_config(), Some(true));
    assert!(!world.stored_text("p2").contains("disable_response_storage = true"));
    assert!(!world.stored_text("p2").contains("network_access = \"restricted\""));
}

#[test]
fn codex_update_normalizes_legacy_common_config_into_explicit_meta() {
    let mut world = World::new(AppType::Codex);
    world.config.common_config_snippets.codex = Some(SHARED.to_string());
    let text = codex_text("legacy", "https://api.legacy.example/v1", SHARED);
    world.put(AppType::Codex, provider("p1", "Legacy", with_auth(&text, "sk-test")));
    world.set_current(AppType::Codex, "p1");
    world.update(AppType::Codex, provider("p1", "Legacy Updated", with_auth(&text, "sk-test")));
    assert_eq!(world.provider(AppType::Codex, "p1").apply_common_config(), Some(true));
    assert!(!world.stored_text("p1").contains("disable_response_storage = true"));
    assert!(!world.stored_text("p1").contains("network_access = \"restricted\""));
}

#[test]
fn codex_update_with_common_config_disabled_does_not_extract_global_snippet() {
    let mut world = World::new(AppType::Codex);
    let text = codex_text("solo", "https://api.solo.example/v1", "network_access = \"restricted\"\n");
    world.put(AppType::Codex, declining("p1", "Solo", with_auth(&text, "sk-test")));
    world.set_current(AppType::Codex, "p1");
    world.update(AppType::Codex, declining("p1", "Solo Updated", with_auth(&text, "sk-test")));
    assert!(world.config.common_config_snippets.codex.is_none());
}

#[test]
fn codex_switch_roundtrip_preserves_legacy_common_config_usage_after_backfill() {
    let text = codex_text("legacy", "https://api.legacy.example/v1", SHARED);
    let mut world = switch_away(provider("p1", "Legacy", codex_settings(&text)), &text, SHARED);
    world.switch(AppType::Codex, "p1");
    assert!(world.live_text().contains("disable_response_storage = true"));
    assert!(world.live_text().contains("network_access = \"restricted\""));
}

#[test]
fn switch_codex_provider_writes_stored_config_directly() {
    let mut world = World::new(AppType::Codex);
    let text = "model_provider = \"openai\"\nmodel = \"gpt-4o\"\n\n[model_providers.openai]\nbase_url = \"https://api.openai.com/v1\"\nwire_api = \"chat\"\nrequires_openai_auth = true\n";
    world.put(AppType::Codex, provider("p1", "OpenAI", with_auth(text, "sk-test")));
    world.switch(AppType::Codex, "p1");
    assert!(world.live_text().contains("requires_openai_auth = true"));
    assert!(world.live_text().contains("base_url = \"https://api.openai.com/v1\""));
    assert!(world.live_text().contains("model = \"gpt-4o\""));
}

#[test]
fn switch_codex_provider_migrates_legacy_flat_config() {
    let legacy = "base_url = \"https://jp.duckcoding.com/v1\"\nmodel = \"gpt-5.1-codex\"\nwire_api = \"responses\"\nrequires_openai_auth = true";
    let mut own = provider("custom1", "DuckCoding", with_auth(legacy, "sk-duck"));
    let key = provider_key_source(&own).to_string();
    if let Some(migrated) = migrate_legacy_codex_config(legacy, &key) {
        own.settings_config.insert("config", Json::Str(migrated));
    }
    let mut world = World::new(AppType::Codex);
    world.put(AppType::Codex, own);
    world.switch(AppType::Codex, "custom1");
    assert!(world.live_text().contains("model_provider = "));
    assert!(world.live_text().contains("[model_providers."));
    assert!(world.live_text().contains("base_url = \"https://jp.duckcoding.com/v1\""));
    assert!(world.live_text().contains("model = \"gpt-5.1-codex\""));
    assert!(world.live_text().contains("wire_api = \"responses\""));
}

#[test]
fn migrate_legacy_codex_config_noop_for_new_format() {
    let text = "model_provider = \"openai\"\nmodel = \"gpt-4o\"\n\n[model_providers.openai]\nbase_url = \"https://api.openai.com/v1\"\nwire_api = \"chat\"\n";
    let own = provider("p1", "OpenAI", json("{}"));
    assert!(migrate_legacy_codex_config(text, provider_key_source(&own)).is_none());
}

#[test]
fn migrate_legacy_codex_config_converts_flat_format() {
    let legacy = "base_url = \"https://custom.com/v1\"\nmodel = \"gpt-5.1-codex\"\nwire_api = \"responses\"\nrequires_openai_auth = true";
    let own = provider("my_provider", "My Provider", json("{}"));
    let result = migrate_legacy_codex_config(legacy, provider_key_source(&own)).expect("migrated");
    assert!(result.contains("model_provider = \"my_provider\""));
    assert!(result.contains("[model_providers.my_provider]"));
    assert!(result.contains("base_url = \"https://custom.com/v1\""));
    assert!(result.contains("wire_api = \"responses\""));
}

#[test]
fn migrate_legacy_codex_config_preserves_extra_keys() {
    let legacy = "base_url = \"https://custom.com/v1\"\nmodel = \"gpt-5.1-codex\"\nwire_api = \"responses\"\nrequires_openai_auth = true\nmodel_reasoning_effort = \"high\"\ndisable_response_storage = true";
    let own = provider("test", "Test", json("{}"));
    let result = migrate_legacy_codex_config(legacy, provider_key_source(&own)).expect("migrated");
    assert!(result.contains("model_reasoning_effort = \"high\""));
    assert!(result.contains("disable_response_storage = true"));
}

#[test]
fn plain_keys_stay_at_the_uppermost_level_when_a_config_is_rebuilt() {
    let legacy = "base_url = \"https://x\"\na.k = 1\nz = 1\n[[b]]\nn = 2\n";
    let own = provider("test", "Test", json("{}"));
    let result = migrate_legacy_codex_config(legacy, provider_key_source(&own)).expect("migrated");
    let table: toml::Table = toml::from_str(&result).expect("a document");
    assert_eq!(table["z"].as_integer(), Some(1));
    let a = table["a"].as_table().expect("a");
    assert_eq!(a.len(), 1);
    assert_eq!(a["k"].as_integer(), Some(1));
    let b = table["b"].as_array().expect("b");
    assert_eq!(b.len(), 1);
    assert_eq!(b[0]["n"].as_integer(), Some(2));
    assert_eq!(table["model_provider"].as_str(), Some("test"));
    assert!(migrate_legacy_codex_config(&result, "other").is_none());
}

#[test]
fn codex_backup_snapshot_respects_common_config_inference() {
    let clean = provider(
        "clean",
        "Clean",
        codex_settings(&codex_text("clean", "https://api.clean.example/v1", "")),
    );
    let backup = ProviderService::build_live_backup_snapshot(
        AppType::Codex,
        &clean,
        Some(SHARED),
        true,
        JsonRead::Missing,
    )
    .expect("clean backup");
    let text = backup.get("config").and_then(Json::as_str).expect("config");
    assert!(!text.contains("disable_response_storage = true"));

    let legacy = provider(
        "legacy",
        "Legacy",
        codex_settings(&codex_text("legacy", "https://api.legacy.example/v1", SHARED)),
    );
    let backup = ProviderService::build_live_backup_snapshot(
        AppType::Codex,
        &legacy,
        Some(SHARED),
        true,
        JsonRead::Missing,
    )
    .expect("legacy backup");
    let text = backup.get("config").and_then(Json::as_str).expect("config");
    assert!(text.contains("disable_response_storage = true"));
}

#[test]
fn backup_and_live_settings_agree() {
    let own = claude_provider("p1", "token");
    let backup = ProviderService::build_live_backup_snapshot(
        AppType::Claude,
        &own,
        Some(CLAUDE_SNIPPET),
        true,
        JsonRead::Missing,
    )
    .expect("backup");
    let plan = ProviderService::write_live_snapshot(
        AppType::Claude,
        &own,
        Some(CLAUDE_SNIPPET),
        true,
        true,
    )
    .expect("plan");
    match plan {
        LivePlan::Claude(live) => assert_eq!(to_value(&live), to_value(&backup)),
        _ => panic!("settings expected"),
    }
}

fn validated(own: &Provider) -> bool {
    ProviderService::validate_provider_settings(AppType::Codex, own, Ok(()), Ok(())).is_ok()
}

fn official_by_meta() -> Provider {
    let mut own =
        provider("codex", "Codex", json(r#"{"config":"base_url = \"https://example.com\""}"#));
    let mut meta = ProviderMeta::new();
    meta.codex_official = Some(true);
    own.meta = Some(meta);
    own
}

fn official_by_category() -> Provider {
    let mut own = provider(
        "codex",
        "Anything",
        json(r#"{"config":"base_url = \"https://api.openai.com/v1\"\n"}"#),
    );
    own.category = Some("official".to_string());
    own
}

#[test]
fn mod_validate_provider_settings_allows_missing_auth_for_codex() {
    assert!(validated(&official_by_meta()));
}

#[test]
fn tests_validate_provider_settings_allows_missing_auth_for_codex() {
    let own = official_by_meta();
    ProviderService::validate_provider_settings(AppType::Codex, &own, Ok(()), Ok(()))
        .expect("no authentication is needed for the official provider");
}

#[test]
fn mod_validate_provider_settings_allows_missing_auth_for_codex_official_by_category() {
    assert!(validated(&official_by_category()));
}

#[test]
fn tests_validate_provider_settings_allows_missing_auth_for_codex_official_by_category() {
    let own = official_by_category();
    ProviderService::validate_provider_settings(AppType::Codex, &own, Ok(()), Ok(()))
        .expect("no authentication is needed for providers of the category official");
}
