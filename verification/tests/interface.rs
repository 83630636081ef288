use cc_switch::config::{McpApps, McpServer, MultiAppConfig};
use cc_switch::editor_actions::{
    form_applied, mcp_stored, provider_added, provider_edited, snippet_lines, snippet_stored,
    submit_config_common_snippet, submit_mcp_add, submit_mcp_edit, submit_prompt_edit,
    submit_provider_add, submit_provider_edit, submit_provider_form_apply_codex_auth,
    submit_provider_form_apply_codex_config_toml, submit_provider_form_apply_json,
    submit_provider_form_apply_openclaw_models, submit_webdav_settings,
};
use cc_switch::error::AppError;
use cc_switch::json::Json;
use cc_switch::json_value::{parse_json, to_value};
use cc_switch::live_files::{JsonRead, LiveSnapshot, TextRead};
use cc_switch::model::{AppType, Provider};
use cc_switch::notices::{Notice, ToastKind};
use cc_switch::provider_actions::{
    default_model_set, model_fetch, model_fetch_failed, openclaw_default_model_references_provider,
    openclaw_provider_model_ids, provider_switch_proxy_notice_api_format, remove_from_config,
    removed, set_default_model, speedtest, stream_check, stream_check_sent, switched,
    OpenClawDefaultModel, Overlay, ProviderRow, Removal,
};
use cc_switch::service::ProviderService;
use cc_switch::switching::LiveBefore;
use cc_switch::terminal::{
    next_restored_step, record_err, with_terminal_restored, RestoredStep, TuiTerminal,
};

fn json(text: &str) -> Json {
    parse_json(text).expect("valid JSON")
}

fn provider(id: &str, name: &str, settings: &str) -> Provider {
    Provider::with_id(id.to_string(), name.to_string(), json(settings), None)
}

fn server(id: &str, name: &str) -> McpServer {
    McpServer {
        id: id.to_string(),
        name: name.to_string(),
        server: json("{}"),
        apps: McpApps { claude: true, codex: false, gemini: false, opencode: false },
        description: None,
        homepage: None,
        docs: None,
        tags: Vec::new(),
    }
}

fn codex_switch(live: LiveBefore, backup: LiveSnapshot) -> (bool, String) {
    let mut config = MultiAppConfig::default();
    let next = provider(
        "new-provider",
        "Latest",
        r#"{"auth":{"OPENAI_API_KEY":"fresh-key"},"config":"model_provider = \"latest\"\nmodel = \"gpt-5.2-codex\"\n\n[model_providers.latest]\nbase_url = \"https://api.example.com/v1\"\nwire_api = \"responses\"\nrequires_openai_auth = true\n"}"#,
    );
    let manager = config.get_manager_mut(AppType::Codex).expect("manager");
    manager.current = "old-provider".to_string();
    manager.providers.insert(
        "old-provider".to_string(),
        provider(
            "old-provider",
            "Legacy",
            r#"{"auth":{"OPENAI_API_KEY":"stale"},"config":"stale-config"}"#,
        ),
    );
    manager.providers.insert("new-provider".to_string(), next.copy());
    ProviderService::switch(
        &mut config,
        AppType::Codex,
        "new-provider",
        false,
        Ok(backup),
        live,
    )
    .expect("switch should succeed");
    let mut overlay = Overlay::Nothing;
    let notice = switched(&mut overlay, AppType::Codex, Some(&next), Ok(()), Some(false));
    (notice.is_some(), config.current_id(AppType::Codex))
}

#[test]
fn provider_switch_does_not_show_restart_toast_when_live_sync_succeeds() {
    let auth = r#"{"OPENAI_API_KEY":"legacy-key"}"#;
    let text = "model_provider = \"legacy\"\nmodel = \"gpt-4\"\n";
    let (toast, current_id) = codex_switch(
        LiveBefore::Codex {
            auth: JsonRead::Found(json(auth)),
            text: TextRead::Found(text.to_string()),
        },
        LiveSnapshot::Codex { auth: Some(json(auth)), config: Some(text.to_string()) },
    );
    assert_eq!(current_id, "new-provider");
    assert!(!toast);
}

#[test]
fn provider_switch_does_not_show_restart_toast_when_live_sync_is_skipped() {
    let (toast, current_id) = codex_switch(
        LiveBefore::Codex { auth: JsonRead::Missing, text: TextRead::Missing },
        LiveSnapshot::Codex { auth: None, config: None },
    );
    assert_eq!(current_id, "new-provider");
    assert!(!toast);
}

fn proxy_provider(api_format: &str) -> Provider {
    let mut own = provider(
        "proxy-provider",
        "Proxy",
        r#"{"env":{"ANTHROPIC_BASE_URL":"https://example.com","ANTHROPIC_API_KEY":"sk-new"}}"#,
    );
    own.settings_config.insert("api_format", Json::Str(api_format.to_string()));
    own
}

fn claude_switch(api_format: &str) -> (Overlay, String) {
    let mut config = MultiAppConfig::default();
    let manager = config.get_manager_mut(AppType::Claude).expect("manager");
    manager.current = "old-provider".to_string();
    manager.providers.insert(
        "old-provider".to_string(),
        provider("old-provider", "Legacy", r#"{"env":{"ANTHROPIC_API_KEY":"sk-old"}}"#),
    );
    manager.providers.insert("proxy-provider".to_string(), proxy_provider(api_format));
    ProviderService::switch(
        &mut config,
        AppType::Claude,
        "proxy-provider",
        false,
        Ok(LiveSnapshot::Claude { settings: None }),
        LiveBefore::Claude { settings: JsonRead::Missing },
    )
    .expect("switch should succeed");
    let mut overlay = Overlay::Nothing;
    let next = proxy_provider(api_format);
    assert!(switched(&mut overlay, AppType::Claude, Some(&next), Ok(()), None).is_none());
    (overlay, config.current_id(AppType::Claude))
}

#[test]
fn provider_switch_warns_when_claude_provider_requires_proxy_and_proxy_is_not_running() {
    let (overlay, current_id) = claude_switch("openai_chat");
    assert_eq!(current_id, "proxy-provider");
    assert!(matches!(overlay, Overlay::ProxyNotice { api_format: "openai_chat" }));
}

#[test]
fn provider_switch_warns_for_openai_responses_when_proxy_is_not_running() {
    let (overlay, current_id) = claude_switch("openai_responses");
    assert_eq!(current_id, "proxy-provider");
    assert!(matches!(overlay, Overlay::ProxyNotice { api_format: "openai_responses" }));
}

#[test]
fn provider_switch_does_not_warn_when_claude_provider_uses_anthropic_format() {
    let (overlay, current_id) = claude_switch("anthropic");
    assert_eq!(current_id, "proxy-provider");
    assert!(matches!(overlay, Overlay::Nothing));
}

#[test]
fn provider_switch_notice_is_suppressed_when_current_app_already_routes_through_proxy() {
    let own = proxy_provider("openai_chat");
    assert_eq!(provider_switch_proxy_notice_api_format(AppType::Claude, &own, true), None);
}

#[test]
fn provider_switch_notice_uses_openai_responses_api_format_when_proxy_is_not_ready() {
    let own = proxy_provider("openai_responses");
    assert_eq!(
        provider_switch_proxy_notice_api_format(AppType::Claude, &own, false),
        Some("openai_responses")
    );
    assert_eq!(provider_switch_proxy_notice_api_format(AppType::Codex, &own, false), None);
}

#[test]
fn plugin_failure_is_told_only_for_a_shown_provider() {
    let mut overlay = Overlay::Other;
    let own = proxy_provider("anthropic");
    let notice =
        switched(&mut overlay, AppType::Claude, Some(&own), Err("disk".to_string()), None);
    match notice {
        Some(notice) => {
            assert_eq!(notice.kind(), ToastKind::Warning);
            assert!(matches!(notice, Notice::PluginSyncFailed(text) if text == "disk"));
        }
        None => panic!("notice expected"),
    }
    assert!(switched(&mut overlay, AppType::Claude, None, Err("disk".to_string()), None).is_none());
    assert!(matches!(overlay, Overlay::Other));
}

fn default_model(
    asked: &str,
    live: &str,
    existing: Option<&OpenClawDefaultModel>,
) -> OpenClawDefaultModel {
    set_default_model(AppType::OpenClaw, "p1", asked, Some(&json(live)), existing)
        .expect("set default model")
        .expect("default model should exist")
}

#[test]
fn openclaw_set_default_model_preserves_provider_model_order_as_fallbacks() {
    let model = default_model(
        "model-primary",
        r#"{"api":"openai-completions","models":[{"id":"model-primary","name":"Primary"},{"id":"model-fallback-1","name":"Fallback 1"},{"id":"model-fallback-2","name":"Fallback 2"}]}"#,
        None,
    );
    assert_eq!(model.primary, "p1/model-primary");
    assert_eq!(
        model.fallbacks,
        vec!["p1/model-fallback-1".to_string(), "p1/model-fallback-2".to_string()]
    );
    assert_eq!(to_value(&model.extra), to_value(&json("{}")));
}

#[test]
fn openclaw_set_default_model_uses_live_primary_when_snapshot_primary_is_stale() {
    let existing = OpenClawDefaultModel {
        primary: "p1/snapshot-primary".to_string(),
        fallbacks: vec!["p1/live-primary".to_string(), "p1/fallback-2".to_string()],
        extra: json("{}"),
    };
    let model = default_model(
        "snapshot-primary",
        r#"{"api":"openai-completions","models":[{"id":"live-primary","name":"Live Primary"},{"id":"snapshot-primary","name":"Snapshot Primary"},{"id":"fallback-2","name":"Fallback 2"}]}"#,
        Some(&existing),
    );
    assert_eq!(model.primary, "p1/live-primary");
    assert_eq!(
        model.fallbacks,
        vec!["p1/snapshot-primary".to_string(), "p1/fallback-2".to_string()]
    );
}

#[test]
fn openclaw_set_default_model_preserves_existing_extra_fields() {
    let existing = OpenClawDefaultModel {
        primary: "p1/model-fallback-1".to_string(),
        fallbacks: vec!["p1/model-primary".to_string()],
        extra: json(r#"{"reasoningEffort":"high"}"#),
    };
    let model = default_model(
        "model-primary",
        r#"{"api":"openai-completions","models":[{"id":"model-primary","name":"Primary"},{"id":"model-fallback-1","name":"Fallback 1"}]}"#,
        Some(&existing),
    );
    assert_eq!(model.extra.get("reasoningEffort").and_then(Json::as_str), Some("high"));
}

#[test]
fn openclaw_set_default_model_uses_live_primary_when_snapshot_model_is_missing() {
    let model = default_model(
        "model-primary",
        r#"{"api":"openai-completions","models":[{"id":"live-model-only"}]}"#,
        None,
    );
    assert_eq!(model.primary, "p1/live-model-only");
    assert!(model.fallbacks.is_empty());
    let effects = default_model_set(&model);
    assert!(effects.reload && !effects.close_editor);
    assert!(matches!(effects.notice, Some(Notice::DefaultModelSet(text)) if text == "p1/live-model-only"));
}

#[test]
fn default_model_needs_a_live_provider_with_models() {
    match set_default_model(AppType::OpenClaw, "p1", "m", None, None) {
        Err(AppError::Localized { key, en, .. }) => {
            assert_eq!(key, "provider.set_default_model.openclaw_provider_missing");
            assert_eq!(en, "Add this OpenClaw provider to the current config first: p1");
        }
        _ => panic!("error expected"),
    }
    let bare = json(r#"{"models":[{"name":"unnamed"},7]}"#);
    assert!(openclaw_provider_model_ids(&bare).is_empty());
    match set_default_model(AppType::OpenClaw, "p1", "m", Some(&bare), None) {
        Err(AppError::Localized { key, .. }) => {
            assert_eq!(key, "provider.set_default_model.openclaw_no_models")
        }
        _ => panic!("error expected"),
    }
    assert!(matches!(set_default_model(AppType::Codex, "p1", "m", None, None), Ok(None)));
}

fn refused(result: Result<Removal, AppError>) {
    match result {
        Err(AppError::Localized { key, zh, .. }) => {
            assert_eq!(key, "provider.remove_from_config.openclaw_default");
            assert!(zh.contains("默认"));
        }
        _ => panic!("refusal expected"),
    }
}

#[test]
fn openclaw_remove_from_config_rejects_default_provider_even_without_ui_guard() {
    let model = OpenClawDefaultModel {
        primary: "p1/model-primary".to_string(),
        fallbacks: Vec::new(),
        extra: json("{}"),
    };
    refused(remove_from_config(AppType::OpenClaw, "p1", Some(&model)));
}

#[test]
fn openclaw_remove_from_config_rejects_fallback_only_provider_even_without_ui_guard() {
    let model = OpenClawDefaultModel {
        primary: "p1/primary-model".to_string(),
        fallbacks: vec!["p2/shared-model".to_string()],
        extra: json("{}"),
    };
    refused(remove_from_config(AppType::OpenClaw, "p2", Some(&model)));
    assert!(openclaw_default_model_references_provider(Some(&model), "p2"));
    assert!(!openclaw_default_model_references_provider(Some(&model), "p"));
    assert!(matches!(
        remove_from_config(AppType::OpenClaw, "p3", Some(&model)),
        Ok(Removal::FromLiveConfig)
    ));
    assert!(matches!(remove_from_config(AppType::Codex, "p2", Some(&model)), Ok(Removal::Deleted)));
    assert!(matches!(removed(Removal::Deleted).notice, Some(Notice::ProviderDeleted)));
}

#[test]
fn provider_of_the_default_model_stays_unless_its_identifier_holds_a_slash() {
    let live = json(r#"{"models":[{"id":"m"}]}"#);
    for (id, stays) in [("plain", true), ("a/b", false)] {
        let model = set_default_model(AppType::OpenClaw, id, "m", Some(&live), None)
            .expect("set default model")
            .expect("default model");
        assert_eq!(remove_from_config(AppType::OpenClaw, id, Some(&model)).is_err(), stays);
    }
}

#[test]
fn speed_test_closes_its_own_overlay_only() {
    let running = || Overlay::SpeedtestRunning { url: "u".to_string() };
    let mut overlay = running();
    assert!(matches!(speedtest(&mut overlay, "u", None), Some(Notice::SpeedtestDisabled)));
    assert!(matches!(overlay, Overlay::Nothing));
    let mut overlay = running();
    let notice = speedtest(&mut overlay, "v", Some(Err("gone".to_string())));
    assert!(matches!(notice, Some(Notice::SpeedtestRequestFailed(text)) if text == "gone"));
    assert!(matches!(overlay, Overlay::SpeedtestRunning { .. }));
    assert!(speedtest(&mut overlay, "u", Some(Ok(()))).is_none());
    assert!(matches!(overlay, Overlay::SpeedtestRunning { .. }));
}

#[test]
fn stream_check_asks_for_a_shown_provider() {
    let rows = vec![
        ProviderRow { id: "p1".to_string(), provider: provider("p1", "One", "{}") },
        ProviderRow { id: "p2".to_string(), provider: provider("p2", "Two", "{}") },
    ];
    let mut overlay = Overlay::StreamCheckRunning { provider_id: "p2".to_string() };
    match stream_check(&mut overlay, AppType::Codex, &rows, "p2", true) {
        Ok(Some(request)) => {
            assert_eq!(request.provider_id, "p2");
            assert_eq!(request.provider_name, "Two");
        }
        _ => panic!("request expected"),
    }
    assert!(matches!(stream_check(&mut overlay, AppType::Codex, &rows, "p3", true), Ok(None)));
    assert!(stream_check_sent(&mut overlay, "p2", Ok(())).is_none());
    assert!(matches!(overlay, Overlay::StreamCheckRunning { .. }));
    assert!(stream_check_sent(&mut overlay, "p2", Err("gone".to_string())).is_some());
    assert!(matches!(overlay, Overlay::Nothing));
    let result = stream_check(&mut overlay, AppType::Codex, &rows, "p2", false);
    assert!(matches!(result, Err(Notice::StreamCheckDisabled)));
}

#[test]
fn model_fetch_opens_the_list_and_shows_failures() {
    let mut overlay = Overlay::Nothing;
    let notice = model_fetch(&mut overlay, None, "model", None);
    assert!(matches!(notice, Some(Notice::ModelFetchDisabled)));
    assert!(matches!(overlay, Overlay::Nothing));
    assert!(model_fetch(&mut overlay, Some(7), "model", Some(1)).is_none());
    match &overlay {
        Overlay::ModelFetchPicker(picker) => {
            assert!(picker.fetching && picker.models.is_empty() && picker.error.is_none());
            assert_eq!((picker.request_id, picker.claude_idx), (7, Some(1)));
        }
        _ => panic!("list expected"),
    }
    model_fetch_failed(&mut overlay, "gone".to_string());
    match &overlay {
        Overlay::ModelFetchPicker(picker) => {
            assert!(!picker.fetching);
            assert_eq!(picker.error.as_deref(), Some("gone"));
        }
        _ => panic!("list expected"),
    }
}

#[test]
fn settings_from_the_editor_go_into_the_form() {
    let form = || Some(json(r#"{"id":"p","settingsConfig":{"old":1}}"#));
    let applied = submit_provider_form_apply_json(r#"{"new":2}"#, form());
    match applied {
        Ok(Some(value)) => assert_eq!(
            to_value(&value),
            to_value(&json(r#"{"id":"p","settingsConfig":{"new":2}}"#))
        ),
        _ => panic!("value expected"),
    }
    assert!(matches!(submit_provider_form_apply_json("{}", None), Ok(None)));
    assert!(matches!(
        submit_provider_form_apply_json("[]", form()),
        Err(Notice::JsonMustBeObject)
    ));
    match submit_provider_form_apply_json("{", form()) {
        Err(notice) => {
            assert_eq!(notice.kind(), ToastKind::Error);
            assert!(matches!(notice, Notice::InvalidJson(text) if !text.is_empty()));
        }
        Ok(_) => panic!("refusal expected"),
    }
}

#[test]
fn codex_parts_from_the_editor_go_into_the_form() {
    let form = || Some(json(r#"{"settingsConfig":7}"#));
    match submit_provider_form_apply_codex_auth(r#"{"KEY":"k"}"#, form()) {
        Ok(Some(value)) => assert_eq!(
            to_value(&value),
            to_value(&json(r#"{"settingsConfig":{"auth":{"KEY":"k"}}}"#))
        ),
        _ => panic!("value expected"),
    }
    match submit_provider_form_apply_codex_config_toml("a = 1\n", form()) {
        Ok(Some(value)) => assert_eq!(
            to_value(&value),
            to_value(&json(r#"{"settingsConfig":{"config":"a = 1\n"}}"#))
        ),
        _ => panic!("value expected"),
    }
    match submit_provider_form_apply_codex_config_toml("  ", form()) {
        Ok(Some(value)) => {
            assert_eq!(to_value(&value), to_value(&json(r#"{"settingsConfig":{"config":""}}"#)))
        }
        _ => panic!("value expected"),
    }
    assert!(matches!(
        submit_provider_form_apply_codex_config_toml("a =", form()),
        Err(Notice::InvalidToml(_))
    ));
    match submit_provider_form_apply_codex_auth("{}", Some(json(r#"{"id":"p"}"#))) {
        Ok(Some(value)) => assert_eq!(to_value(&value), to_value(&json(r#"{"id":"p"}"#))),
        _ => panic!("value expected"),
    }
}

#[test]
fn models_from_the_editor_are_a_list() {
    assert!(submit_provider_form_apply_openclaw_models("[1]").is_ok());
    assert!(matches!(
        submit_provider_form_apply_openclaw_models("{}"),
        Err(Notice::JsonMustBeArray)
    ));
    assert!(matches!(
        submit_provider_form_apply_openclaw_models("x"),
        Err(Notice::InvalidJson(_))
    ));
    assert!(form_applied(Ok(())).close_editor);
    let rejected = form_applied(Err("no".to_string()));
    assert!(!rejected.close_editor);
    assert!(matches!(rejected.notice, Some(Notice::FormRejected(text)) if text == "no"));
}

#[test]
fn providers_from_the_editor_need_their_fields() {
    assert!(submit_provider_add(Ok(provider("p", "P", "{}"))).is_ok());
    for (id, name) in [(" ", "P"), ("p", "\t")] {
        match submit_provider_add(Ok(provider(id, name, "{}"))) {
            Err(notice) => {
                assert_eq!(notice.kind(), ToastKind::Warning);
                assert!(matches!(notice, Notice::ProviderFieldsMissing));
            }
            Ok(_) => panic!("refusal expected"),
        }
    }
    match submit_provider_edit("kept", Ok(provider("other", "P", "{}"))) {
        Ok(own) => assert_eq!(own.id, "kept"),
        Err(_) => panic!("provider expected"),
    }
    assert!(matches!(
        submit_provider_edit("kept", Ok(provider("other", "", "{}"))),
        Err(Notice::ProviderNameMissing)
    ));
    assert!(matches!(
        submit_provider_edit("kept", Err("bad".to_string())),
        Err(Notice::InvalidJson(_))
    ));
    assert!(provider_added(Ok(true)).close_form);
    assert!(matches!(provider_added(Ok(false)).notice, Some(Notice::ProviderNotAdded)));
    let failed = provider_edited(Err(AppError::Message("no".to_string())));
    assert!(!failed.reload && !failed.close_editor);
    assert!(matches!(failed.notice, Some(Notice::Failed(_))));
}

#[test]
fn servers_and_prompts_from_the_editor() {
    assert!(submit_mcp_add(Ok(server("s", "S"))).is_ok());
    assert!(matches!(submit_mcp_add(Ok(server("", "S"))), Err(Notice::McpFieldsMissing)));
    match submit_mcp_edit("kept", Ok(server("other", "S"))) {
        Ok(server) => assert_eq!(server.id, "kept"),
        Err(_) => panic!("server expected"),
    }
    assert!(matches!(submit_mcp_edit("kept", Ok(server("s", " "))), Err(Notice::McpFieldsMissing)));
    assert!(matches!(mcp_stored(Ok(())).notice, Some(Notice::McpStored)));
    let missing = submit_prompt_edit("p", None);
    assert!(matches!(missing.notice, Some(Notice::PromptNotFound(id)) if id == "p"));
    let edited = submit_prompt_edit("p", Some(Ok(())));
    assert!(edited.close_editor && !edited.close_form && edited.reload);
}

#[test]
fn common_snippet_from_the_editor() {
    match submit_config_common_snippet(AppType::Codex, "\n a = 1 \n") {
        Ok((Some(text), Notice::SnippetSaved)) => assert_eq!(text, "a = 1"),
        _ => panic!("snippet expected"),
    }
    match submit_config_common_snippet(AppType::Gemini, " {\"a\":1} ") {
        Ok((Some(text), Notice::SnippetSaved)) => assert_eq!(text, "{\n  \"a\": 1\n}"),
        _ => panic!("snippet expected"),
    }
    assert!(matches!(
        submit_config_common_snippet(AppType::Claude, "  "),
        Ok((None, Notice::SnippetCleared))
    ));
    assert!(matches!(
        submit_config_common_snippet(AppType::Codex, "a ="),
        Err(Notice::InvalidToml(_))
    ));
    assert!(matches!(
        submit_config_common_snippet(AppType::Claude, "{"),
        Err(Notice::InvalidSnippetJson(_))
    ));
    assert!(matches!(
        submit_config_common_snippet(AppType::Claude, "[]"),
        Err(Notice::SnippetNotObject)
    ));
    let stored = snippet_stored(Notice::SnippetSaved, Ok(()));
    assert!(stored.close_editor && stored.reload);
    assert_eq!(snippet_lines(&Some("a\r\nb\n".to_string()), "x"), vec!["a", "b"]);
    assert_eq!(snippet_lines(&None, "x\n\ny"), vec!["x", "", "y"]);
    assert_eq!(submit_webdav_settings(" \n"), None);
    assert_eq!(submit_webdav_settings(" {} "), Some("{}"));
}

#[test]
fn test_terminal_restore_and_reactivate_are_safe_noops() {
    let mut terminal = TuiTerminal::new_for_test();
    assert!(!terminal.needs_restore() && !terminal.needs_activation());
    terminal.restore_best_effort(&Vec::new()).expect("restore test terminal");
    terminal.activate_best_effort(&Vec::new()).expect("reactivate test terminal");
    assert_eq!(terminal, TuiTerminal::new_for_test());
}

#[test]
fn with_terminal_restored_keeps_test_terminal_usable() {
    let mut terminal = TuiTerminal::new_for_test();
    let restored = terminal.restore_best_effort(&Vec::new());
    let activated = terminal.activate_best_effort(&Vec::new());
    let value = with_terminal_restored(restored, Some(Ok::<i32, AppError>(42)), activated)
        .expect("callback ran")
        .expect("run callback with terminal restored");
    assert_eq!(value, 42);
    assert_eq!(terminal, TuiTerminal::new_for_test());
}

#[test]
fn live_terminal_keeps_the_first_failure() {
    let mut terminal = TuiTerminal::new(Ok(()), Ok(()), Ok(())).expect("terminal");
    assert!(terminal.active && terminal.needs_restore());
    let steps = vec![Err("first".to_string()), Err("second".to_string())];
    match terminal.restore_best_effort(&steps) {
        Err(AppError::Localized { key, en, .. }) => {
            assert_eq!(key, "tui_terminal_error");
            assert_eq!(en, "Terminal error: first");
        }
        _ => panic!("failure expected"),
    }
    assert!(terminal.active);
    terminal.restore_best_effort(&vec![Ok(()), Ok(())]).expect("restored");
    assert!(!terminal.active && terminal.needs_activation());
    assert!(terminal.activate_best_effort(&vec![Ok(()), Err("no".to_string())]).is_err());
    assert!(!terminal.active);
    terminal.activate_best_effort(&vec![Ok(()), Ok(())]).expect("activated");
    assert!(terminal.active);
    assert!(TuiTerminal::new(Ok(()), Err("screen".to_string()), Ok(())).is_err());
    let mut first = None;
    record_err(&mut first, "one");
    record_err(&mut first, "two");
    assert!(matches!(first, Some(AppError::Localized { zh, .. }) if zh == "终端错误: one"));
}

#[test]
fn terminal_is_taken_over_again_after_whatever_ran() {
    for ok in [true, false] {
        assert_eq!(next_restored_step(RestoredStep::Run, ok), RestoredStep::Activate);
    }
    assert_eq!(next_restored_step(RestoredStep::Restore, false), RestoredStep::Done);
    assert_eq!(next_restored_step(RestoredStep::Activate, false), RestoredStep::ActivateAgain);
    let failed = with_terminal_restored::<i32>(
        Ok(()),
        Some(Ok(1)),
        Err(AppError::Message("no".to_string())),
    );
    assert!(matches!(failed, Some(Err(AppError::Message(text))) if text == "no"));
}
