use cc_switch::config::MultiAppConfig;
use cc_switch::error::AppError;
use cc_switch::json::Json;
use cc_switch::json_value::{parse_json, to_value};
use cc_switch::live_files::{Content, FileAction, JsonRead, LiveFile, TextRead};
use cc_switch::live_write::{GeminiAuthType, LivePlan};
use cc_switch::model::{AppType, Provider};
use cc_switch::refresh::LiveAfter;
use cc_switch::service::ProviderService;
use toml_edit::{DocumentMut, Item};

fn json(text: &str) -> Json {
    parse_json(text).expect("valid JSON")
}

fn codex(id: &str, config: &str) -> Provider {
    let mut settings = json("{}");
    settings.insert("config", Json::Str(config.to_string()));
    Provider::with_id(id.to_string(), id.to_string(), settings, None)
}

fn codex_config(providers: Vec<Provider>, current: &str) -> MultiAppConfig {
    let mut config = MultiAppConfig::new();
    config.ensure_app(AppType::Codex);
    let manager = config.get_manager_mut(AppType::Codex).expect("manager");
    for provider in providers {
        manager.providers.insert(provider.id.clone(), provider);
    }
    manager.current = current.to_string();
    config
}

fn stored(config: &MultiAppConfig, id: &str) -> String {
    let provider = config.find_provider(AppType::Codex, id).expect("provider");
    provider.settings_config.get("config").and_then(Json::as_str).expect("config").to_string()
}

fn table(text: &str) -> Item {
    text.parse::<DocumentMut>().expect("document").as_item().clone()
}

#[test]
fn all_servers_go_out_of_a_snapshot() {
    let text = "a = 1\n\n[mcp_servers.x]\nb = 2\n\n[mcp.servers.y]\nc = 3\n";
    let left = ProviderService::strip_codex_mcp_servers_from_snapshot_config(text).expect("text");
    assert!(left.contains("a = 1"));
    assert!(!left.contains("mcp"));
    let blank = ProviderService::strip_codex_mcp_servers_from_snapshot_config(" \n").expect("text");
    assert_eq!(blank, "");
    match ProviderService::strip_codex_mcp_servers_from_snapshot_config("a =") {
        Err(AppError::Config(text)) => assert!(text.starts_with("TOML parse error: ")),
        _ => panic!("error expected"),
    }
}

#[test]
fn old_snippet_goes_out_of_the_providers_that_hold_it() {
    let mut config = codex_config(
        vec![
            codex("p1", "shared = true\nown = 1\n"),
            codex("p2", "own = 2\n"),
            codex("p3", "shared = true\nown = 3\n"),
        ],
        "p1",
    );
    ProviderService::migrate_codex_common_config_snippet(
        &mut config,
        Some("p1"),
        "shared = true\n",
    )
    .expect("migrate");
    for (id, own) in [("p1", "own = 1"), ("p2", "own = 2"), ("p3", "own = 3")] {
        assert!(stored(&config, id).contains(own));
        assert!(!stored(&config, id).contains("shared"));
    }
}

#[test]
fn common_snippet_is_taken_from_a_configuration_once() {
    let mut config = codex_config(Vec::new(), "");
    let text = "model = \"m\"\nshared = true\n";
    ProviderService::maybe_update_codex_common_config_snippet(&mut config, text).expect("update");
    let snippet = config.common_config_snippets.codex.clone().expect("snippet");
    assert!(snippet.contains("shared = true") && !snippet.contains("model"));
    ProviderService::maybe_update_codex_common_config_snippet(&mut config, "other = 1\n")
        .expect("update");
    assert_eq!(config.common_config_snippets.codex, Some(snippet));
}

#[test]
fn other_provider_becomes_current() {
    let mut config = codex_config(vec![codex("p1", "a = 1\n"), codex("p2", "a = 2\n")], "p1");
    let next = ProviderService::prepare_switch_codex(
        &mut config,
        "p2",
        JsonRead::Missing,
        TextRead::Found("a = 9\n".to_string()),
    )
    .expect("switch");
    assert_eq!(next.id, "p2");
    assert_eq!(config.current_id(AppType::Codex), "p2");
    config.gemini = None;
    let missing = ProviderService::prepare_switch_gemini(
        &mut config,
        "p2",
        JsonRead::Missing,
        JsonRead::Missing,
    );
    assert!(matches!(
        missing,
        Err(AppError::Localized { key, .. }) if key == "provider.app_not_found"
    ));
    let missing =
        ProviderService::prepare_switch_claude(&mut config, "p2", JsonRead::Missing);
    assert!(missing.is_err());
}

#[test]
fn codex_settings_must_be_an_object_to_be_refreshed() {
    let odd = Provider::with_id("p1".to_string(), "p1".to_string(), json("7"), None);
    let mut config = codex_config(vec![odd], "p1");
    let result = ProviderService::refresh_provider_snapshot(
        &mut config,
        "p1",
        LiveAfter::Codex {
            auth: JsonRead::Missing,
            text: TextRead::Found("shared = true\n".to_string()),
        },
    );
    match result {
        Err(AppError::Config(text)) => assert_eq!(text, "供应商 p1 的 Codex 配置必须是 JSON 对象"),
        _ => panic!("error expected"),
    }
    assert!(config.common_config_snippets.codex.is_some());
}

#[test]
fn missing_codex_files_empty_the_snapshot() {
    let mut own = codex("p1", "a = 1\n");
    own.settings_config.insert("auth", json(r#"{"K":"v"}"#));
    let mut config = codex_config(vec![own], "p1");
    ProviderService::refresh_provider_snapshot(
        &mut config,
        "p1",
        LiveAfter::Codex { auth: JsonRead::Missing, text: TextRead::Missing },
    )
    .expect("refresh");
    let after = config.find_provider(AppType::Codex, "p1").expect("provider");
    assert!(after.settings_config.get("auth").is_none());
    assert_eq!(stored(&config, "p1"), "");
}

fn gemini(
    content: &str,
    existing: JsonRead,
    auth: GeminiAuthType,
) -> Result<Vec<FileAction>, AppError> {
    ProviderService::write_gemini_live_impl(
        Ok(json(content)),
        Ok(vec![("GEMINI_API_KEY".to_string(), "k".to_string())]),
        Ok(()),
        existing,
        auth,
        true,
    )
    .map(|live| live.files)
}

#[test]
fn gemini_files_follow_the_authentication() {
    let existing = || JsonRead::Found(json(r#"{"kept":1,"theme":"old"}"#));
    let content = r#"{"env":{},"config":{"theme":"new"}}"#;
    let files = gemini(content, existing(), GeminiAuthType::ApiKey).expect("files");
    assert!(matches!(
        &files[0],
        FileAction::Write(LiveFile::GeminiEnv, Content::Env(vars)) if vars.len() == 1
    ));
    match &files[1] {
        FileAction::Write(LiveFile::GeminiSettings, Content::Json(settings)) => assert_eq!(
            to_value(settings),
            to_value(&json(r#"{"kept":1,"theme":"new"}"#))
        ),
        _ => panic!("settings expected"),
    }
    let files = gemini(content, existing(), GeminiAuthType::GoogleOfficial).expect("files");
    assert!(matches!(
        &files[0],
        FileAction::Write(LiveFile::GeminiEnv, Content::Env(vars)) if vars.is_empty()
    ));
    match gemini(r#"{"config":7}"#, JsonRead::Missing, GeminiAuthType::ApiKey) {
        Err(AppError::Localized { key, .. }) => assert_eq!(key, "gemini.validation.invalid_config"),
        _ => panic!("error expected"),
    }
    let untouched = ProviderService::write_gemini_live_impl(
        Ok(json("{}")),
        Ok(Vec::new()),
        Ok(()),
        JsonRead::Missing,
        GeminiAuthType::ApiKey,
        false,
    )
    .expect("untouched");
    assert!(untouched.files.is_empty());
}

#[test]
fn live_files_of_listed_applications() {
    let plan = |app: AppType, settings: &str| {
        let own = Provider::with_id("p".to_string(), "P".to_string(), json(settings), None);
        ProviderService::write_live_snapshot(app, &own, Some("{}"), true, true).expect("plan")
    };
    match plan(AppType::OpenCode, r#"{"provider":{"p":{"x":1},"q":{}}}"#) {
        LivePlan::OpenCode(entry) => assert_eq!(to_value(&entry), to_value(&json(r#"{"x":1}"#))),
        _ => panic!("entry expected"),
    }
    assert!(matches!(plan(AppType::OpenClaw, r#"{"api":"x"}"#), LivePlan::OpenClaw(_)));
    assert!(matches!(plan(AppType::OpenClaw, r#"{"other":1}"#), LivePlan::Nothing));
    let own = Provider::with_id("p".to_string(), "P".to_string(), json("{}"), None);
    let backup = ProviderService::build_live_backup_snapshot(
        AppType::OpenCode,
        &own,
        None,
        true,
        JsonRead::Missing,
    );
    assert!(matches!(backup, Err(AppError::Config(_))));
}

#[test]
fn entries_that_are_written_alike_go_out() {
    let mut target = table("a = 1\nb = 2\n\n[t]\nc = 3\nd = 4\n");
    let source = table("a = 1\nb = 9\n\n[t]\nc = 3\n");
    assert!(ProviderService::toml_items_equal(
        target.get("a").expect("a"),
        source.get("a").expect("a")
    ));
    ProviderService::strip_toml_tables(&mut target, &source);
    assert!(target.get("a").is_none());
    assert!(target.get("b").is_some());
    let left = target.get("t").expect("t");
    assert!(left.get("c").is_none() && left.get("d").is_some());
}
