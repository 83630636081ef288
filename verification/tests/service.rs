use cc_switch::config::MultiAppConfig;
use cc_switch::error::AppError;
use cc_switch::json::Json;
use cc_switch::json_value::{parse_json, to_value};
use cc_switch::live_files::{
    capture_live_snapshot, Content, FileAction, JsonRead, LiveFile, LiveRead, LiveSnapshot,
    TextRead,
};
use cc_switch::live_import::LiveSettings;
use cc_switch::model::{AppType, Provider, ProviderMeta};
use cc_switch::refresh::LiveAfter;
use cc_switch::service::ProviderService;
use cc_switch::switching::{takeover_active, LiveBefore};
use cc_switch::transaction::{apply_post_commit, next_step, Failure, FollowUp, Step};
use cc_switch::upkeep::{
    import_openclaw_providers_from_live, Leftovers, OpenClawEntry, ProviderSortUpdate, SyncStep,
};

fn json(text: &str) -> Json {
    parse_json(text).expect("valid JSON")
}

fn provider(id: &str, settings: &str) -> Provider {
    Provider::with_id(id.to_string(), id.to_uppercase(), json(settings), None)
}

fn claude(ids: &[&str], current: &str) -> MultiAppConfig {
    let mut config = MultiAppConfig::new();
    config.ensure_app(AppType::Claude);
    let manager = config.get_manager_mut(AppType::Claude).expect("manager");
    for id in ids {
        manager.providers.insert(id.to_string(), provider(id, r#"{"env":{}}"#));
    }
    manager.current = current.to_string();
    config
}

fn no_backup() -> Result<LiveSnapshot, AppError> {
    Ok(LiveSnapshot::Claude { settings: None })
}

fn key_of(error: AppError) -> String {
    match error {
        AppError::Localized { key, .. } => key,
        other => panic!("unexpected error: {other:?}"),
    }
}

fn ids(config: &MultiAppConfig, app: AppType) -> Vec<String> {
    let providers = ProviderService::list(config, app).expect("providers");
    providers.keys().cloned().collect()
}

fn failed() -> AppError {
    AppError::Message("failed".to_string())
}

#[test]
fn added_provider_is_there_and_the_others_stay() {
    let mut config = claude(&["p1"], "p1");
    let action = ProviderService::add(
        &mut config,
        AppType::Claude,
        provider("p2", r#"{"env":{"ANTHROPIC_MODEL":"m"}}"#),
        Ok(()),
        Ok(()),
        no_backup(),
    )
    .expect("add");
    assert!(action.is_none());
    assert_eq!(ids(&config, AppType::Claude), vec!["p1", "p2"]);
    assert_eq!(config.current_id(AppType::Claude), "p1");
    let added = config.find_provider(AppType::Claude, "p2").expect("p2");
    assert_eq!(added.apply_common_config(), Some(true));
    assert_eq!(
        to_value(&added.settings_config),
        to_value(&json(
            r#"{"env":{"ANTHROPIC_MODEL":"m","ANTHROPIC_DEFAULT_HAIKU_MODEL":"m","ANTHROPIC_DEFAULT_SONNET_MODEL":"m","ANTHROPIC_DEFAULT_OPUS_MODEL":"m"}}"#
        ))
    );
}

#[test]
fn failed_change_changes_nothing() {
    let mut config = claude(&[], "");
    let result = ProviderService::add(
        &mut config,
        AppType::Claude,
        provider("p1", "{}"),
        Ok(()),
        Ok(()),
        Err(failed()),
    );
    assert!(matches!(result, Err(AppError::Message(text)) if text == "failed"));
    assert!(ids(&config, AppType::Claude).is_empty());
    let result = ProviderService::add(
        &mut config,
        AppType::Claude,
        provider("p1", "7"),
        Ok(()),
        Ok(()),
        no_backup(),
    );
    assert!(result.is_err());
    assert!(ids(&config, AppType::Claude).is_empty());
}

#[test]
fn update_keeps_what_was_kept() {
    let mut config = claude(&["p1", "p2"], "p2");
    let mut meta = ProviderMeta::new();
    meta.apply_common_config = Some(false);
    config
        .get_manager_mut(AppType::Claude)
        .expect("manager")
        .providers
        .get_mut("p1")
        .expect("p1")
        .meta = Some(meta);
    let action = ProviderService::update(
        &mut config,
        AppType::Claude,
        provider("p1", r#"{"env":{"A":"b"}}"#),
        Ok(()),
        Ok(()),
        no_backup(),
    )
    .expect("update");
    assert!(action.is_none());
    let after = config.find_provider(AppType::Claude, "p1").expect("p1");
    assert_eq!(after.apply_common_config(), Some(false));
    let missing = ProviderService::update(
        &mut config,
        AppType::Claude,
        provider("p3", "{}"),
        Ok(()),
        Ok(()),
        no_backup(),
    );
    match missing {
        Err(error) => assert_eq!(key_of(error), "provider.not_found"),
        Ok(_) => panic!("error expected"),
    }
}

#[test]
fn switch_is_refused_for_an_unknown_provider() {
    let mut config = claude(&["p1"], "p1");
    let result = ProviderService::switch(
        &mut config,
        AppType::Claude,
        "p9",
        false,
        no_backup(),
        LiveBefore::Claude { settings: JsonRead::Missing },
    );
    match result {
        Err(error) => assert_eq!(key_of(error), "provider.not_found"),
        Ok(_) => panic!("error expected"),
    }
    assert_eq!(config.current_id(AppType::Claude), "p1");
}

#[test]
fn switch_changes_the_former_current_provider_only() {
    let mut config = claude(&["p1", "p2", "p3"], "p1");
    let result = ProviderService::switch(
        &mut config,
        AppType::Claude,
        "p2",
        false,
        no_backup(),
        LiveBefore::Claude { settings: JsonRead::Found(json(r#"{"env":{"A":"live"}}"#)) },
    );
    assert!(result.is_ok());
    let text = |id: &str| {
        to_value(&config.find_provider(AppType::Claude, id).expect("provider").settings_config)
    };
    assert_eq!(text("p1"), to_value(&json(r#"{"env":{"A":"live"}}"#)));
    assert_eq!(text("p2"), to_value(&json(r#"{"env":{}}"#)));
    assert_eq!(text("p3"), to_value(&json(r#"{"env":{}}"#)));
    assert_eq!(ids(&config, AppType::Claude), vec!["p1", "p2", "p3"]);
}

#[test]
fn failed_switch_changes_nothing() {
    let mut config = claude(&["p1", "p2"], "p1");
    let result = ProviderService::switch(
        &mut config,
        AppType::Claude,
        "p2",
        false,
        no_backup(),
        LiveBefore::Claude { settings: JsonRead::Failed(failed()) },
    );
    assert!(result.is_err());
    assert_eq!(config.current_id(AppType::Claude), "p1");
}

#[test]
fn switch_under_a_proxy_leaves_the_live_files_alone() {
    let mut config = claude(&["p1", "p2"], "p1");
    let action = ProviderService::switch(
        &mut config,
        AppType::Claude,
        "p2",
        true,
        no_backup(),
        LiveBefore::Unread,
    )
    .expect("switch");
    assert_eq!(config.current_id(AppType::Claude), "p2");
    let plan = apply_post_commit(&action, true);
    assert_eq!(plan.steps, vec![FollowUp::SaveBackup, FollowUp::SyncSkills]);
}

#[test]
fn switch_without_a_proxy_writes_and_reads_back() {
    let mut config = claude(&["p1", "p2"], "p1");
    let action = ProviderService::switch(
        &mut config,
        AppType::Claude,
        "p2",
        false,
        no_backup(),
        LiveBefore::Claude { settings: JsonRead::Missing },
    )
    .expect("switch");
    assert_eq!(
        apply_post_commit(&action, true).steps,
        vec![FollowUp::WriteLive, FollowUp::SyncMcp, FollowUp::Refresh, FollowUp::SyncSkills]
    );
    assert_eq!(
        apply_post_commit(&action, false).steps,
        vec![FollowUp::WriteLive, FollowUp::SyncMcp, FollowUp::SyncSkills]
    );
}

#[test]
fn proxy_stands_in_only_where_it_runs() {
    let no = || Err("no".to_string());
    assert!(matches!(takeover_active(AppType::Claude, Ok(true), Ok(true)), Ok(true)));
    assert!(matches!(takeover_active(AppType::Claude, Ok(false), no()), Ok(false)));
    assert!(matches!(takeover_active(AppType::OpenCode, no(), no()), Ok(false)));
    assert!(matches!(takeover_active(AppType::Claude, no(), Ok(true)), Err(AppError::Message(_))));
}

#[test]
fn current_provider_cannot_be_deleted() {
    let mut config = claude(&["p1", "p2"], "p1");
    match ProviderService::delete(&mut config, AppType::Claude, "p1", Ok(())) {
        Err(error) => assert_eq!(key_of(error), "provider.delete.current"),
        Ok(_) => panic!("error expected"),
    }
    match ProviderService::plan_delete(&config, AppType::Claude, "p2") {
        Ok(Leftovers::ClaudeFiles(name)) => assert_eq!(name, "P2"),
        _ => panic!("leftovers expected"),
    }
    assert!(ProviderService::delete(&mut config, AppType::Claude, "p2", Err(failed())).is_err());
    assert_eq!(ids(&config, AppType::Claude), vec!["p1", "p2"]);
    ProviderService::delete(&mut config, AppType::Claude, "p2", Ok(())).expect("delete");
    assert_eq!(ids(&config, AppType::Claude), vec!["p1"]);
}

#[test]
fn sorting_changes_places_only() {
    let mut config = claude(&["p1", "p2"], "p1");
    let updates = vec![
        ProviderSortUpdate { id: "p1".to_string(), sort_index: 3 },
        ProviderSortUpdate { id: "gone".to_string(), sort_index: 1 },
        ProviderSortUpdate { id: "p1".to_string(), sort_index: 5 },
    ];
    ProviderService::update_sort_order(&mut config, AppType::Claude, updates).expect("sort");
    assert_eq!(config.find_provider(AppType::Claude, "p1").expect("p1").sort_index, Some(5));
    assert_eq!(config.find_provider(AppType::Claude, "p2").expect("p2").sort_index, None);
}

#[test]
fn current_providers_are_listed_for_the_live_files() {
    let mut config = claude(&["p1", "p2"], "p2");
    config.common_config_snippets.claude = Some("{}".to_string());
    let current = ProviderService::sync_current_to_live(&config);
    assert!(current
        .iter()
        .any(|entry| entry.app_type == AppType::Claude
            && entry.provider.id == "p2"
            && entry.snippet.as_deref() == Some("{}")
            && entry.apply_common_config));
}

#[test]
fn a_failed_live_write_stops_nothing() {
    let bad = || Err(AppError::Message("disk full".to_string()));
    let mut steps = vec![SyncStep::first(2)];
    for outcome in [bad(), Ok(()), bad(), bad(), bad()] {
        let next = steps[steps.len() - 1].following(&outcome, 2);
        steps.push(next);
    }
    assert_eq!(
        steps,
        vec![
            SyncStep::Write(0),
            SyncStep::Write(1),
            SyncStep::SyncMcp,
            SyncStep::SyncSkills,
            SyncStep::Succeed,
            SyncStep::Succeed,
        ]
    );
    assert_eq!(SyncStep::first(0), SyncStep::SyncMcp);
}

#[test]
fn openclaw_providers_are_imported_once() {
    let mut config = MultiAppConfig::new();
    config.ensure_app(AppType::OpenClaw);
    let entries = || {
        Ok(vec![
            OpenClawEntry {
                id: "a".to_string(),
                model_names: vec![Some("Model A".to_string())],
                settings: json(r#"{"api":"x"}"#),
            },
            OpenClawEntry { id: " ".to_string(), model_names: vec![None], settings: json("{}") },
            OpenClawEntry { id: "b".to_string(), model_names: Vec::new(), settings: json("{}") },
            OpenClawEntry { id: "c".to_string(), model_names: vec![None], settings: json("{}") },
        ])
    };
    let first = import_openclaw_providers_from_live(&mut config, entries()).expect("import");
    assert_eq!(first, 2);
    assert_eq!(ids(&config, AppType::OpenClaw), vec!["a", "c"]);
    assert_eq!(config.find_provider(AppType::OpenClaw, "a").expect("a").name, "Model A");
    assert_eq!(config.find_provider(AppType::OpenClaw, "c").expect("c").name, "c");
    let again =
        ProviderService::import_openclaw_providers_from_live(&mut config, entries()).expect("again");
    assert_eq!(again, 0);
}

#[test]
fn default_configuration_is_imported() {
    let mut config = MultiAppConfig::new();
    config.ensure_app(AppType::Claude);
    let live = LiveSettings::Claude { settings: JsonRead::Found(json(r#"{"env":{"A":"b"}}"#)) };
    assert!(ProviderService::import_default_config(&mut config, live).expect("import"));
    assert_eq!(config.current_id(AppType::Claude), "default");
    let again = LiveSettings::Claude { settings: JsonRead::Missing };
    assert!(!ProviderService::import_default_config(&mut config, again).expect("nothing to do"));
    let mut empty = MultiAppConfig::new();
    let missing = LiveSettings::Claude { settings: JsonRead::Missing };
    match ProviderService::import_default_config(&mut empty, missing) {
        Err(error) => assert_eq!(key_of(error), "anthropic.live.missing"),
        Ok(_) => panic!("error expected"),
    }
}

#[test]
fn live_settings_are_read() {
    let read = ProviderService::read_live_settings(LiveSettings::Codex {
        auth: JsonRead::Found(json(r#"{"K":"v"}"#)),
        text: TextRead::Found("a = 1\n".to_string()),
    })
    .expect("settings");
    assert_eq!(
        to_value(&read),
        to_value(&json(r#"{"auth":{"K":"v"},"config":"a = 1\n"}"#))
    );
}

#[test]
fn invalid_codex_configuration_is_not_captured() {
    let result = capture_live_snapshot(LiveRead::Codex {
        auth: JsonRead::Missing,
        config: TextRead::Found("a =".to_string()),
    });
    assert!(matches!(result, Err(AppError::Toml { path, .. }) if path == "config.toml"));
}

#[test]
fn captured_files_are_put_back() {
    let snapshot = capture_live_snapshot(LiveRead::Codex {
        auth: JsonRead::Missing,
        config: TextRead::Found("a = 1\n".to_string()),
    })
    .expect("snapshot");
    let actions = snapshot.restore();
    assert_eq!(actions.len(), 2);
    assert!(matches!(actions[0], FileAction::Delete(LiveFile::CodexAuth)));
    assert!(matches!(
        &actions[1],
        FileAction::Write(LiveFile::CodexConfig, Content::Text(text)) if text == "a = 1\n"
    ));
}

#[test]
fn refresh_needs_the_live_file() {
    let mut config = claude(&["p1"], "p1");
    let result = ProviderService::refresh_provider_snapshot(
        &mut config,
        "p1",
        LiveAfter::Claude { settings: JsonRead::Missing },
    );
    match result {
        Err(error) => assert_eq!(key_of(error), "anthropic.live.missing"),
        Ok(_) => panic!("error expected"),
    }
    let result = ProviderService::refresh_provider_snapshot(
        &mut config,
        "p1",
        LiveAfter::OpenCode { providers: Ok(json("{}")) },
    );
    match result {
        Err(error) => assert_eq!(key_of(error), "opencode.live.missing_provider"),
        Ok(_) => panic!("error expected"),
    }
}

fn failure(text: &str) -> Failure {
    Failure { error: AppError::Message(text.to_string()), shown: text.to_string() }
}

#[test]
fn storing_a_change_step_by_step() {
    assert!(matches!(next_step(Step::Save, Ok(()), false), Step::Finish(Ok(()))));
    assert!(matches!(next_step(Step::Save, Ok(()), true), Step::Apply));
    assert!(matches!(next_step(Step::Apply, Ok(()), true), Step::Finish(Ok(()))));
    let undo = next_step(Step::Save, Err(failure("one")), true);
    assert!(matches!(undo, Step::UndoSave(_)));
    match next_step(undo, Err(failure("two")), true) {
        Step::Finish(Err(AppError::Localized { key, en, .. })) => {
            assert_eq!(key, "config.save.rollback_failed");
            assert_eq!(en, "Failed to save config: one; rollback failed: two");
        }
        _ => panic!("failure expected"),
    }
    let back = next_step(Step::Apply, Err(failure("one")), true);
    assert!(matches!(back, Step::RollBack(_)));
    match next_step(back, Ok(()), true) {
        Step::Finish(Err(AppError::Message(text))) => assert_eq!(text, "one"),
        _ => panic!("failure expected"),
    }
}

#[test]
fn settings_are_validated_for_each_application() {
    let check = |app: AppType, settings: &str| {
        ProviderService::validate_provider_settings(app, &provider("p", settings), Ok(()), Ok(()))
    };
    assert!(check(AppType::Claude, "{}").is_ok());
    match check(AppType::Claude, "[]") {
        Err(error) => assert_eq!(key_of(error), "provider.anthropic.settings.not_object"),
        Ok(_) => panic!("error expected"),
    }
    assert!(check(AppType::Codex, "[]").is_err());
    let refused = ProviderService::validate_provider_settings(
        AppType::Gemini,
        &provider("p", "{}"),
        Err(failed()),
        Ok(()),
    );
    assert!(matches!(refused, Err(AppError::Message(_))));
}

#[test]
fn first_provider_of_an_additive_application_is_not_current() {
    let mut config = MultiAppConfig::new();
    let action = ProviderService::add(
        &mut config,
        AppType::OpenCode,
        provider("p1", "{}"),
        Ok(()),
        Ok(()),
        Ok(LiveSnapshot::OpenCode { config: None }),
    )
    .expect("add");
    assert!(action.is_some());
    assert_eq!(config.current_id(AppType::OpenCode), "");
    let current = ProviderService::current(&mut config, AppType::OpenCode).expect("current");
    assert_eq!(current.id, "");
}

#[test]
fn first_run_has_a_place_for_each_application() {
    let config = MultiAppConfig::default();
    for app in AppType::all() {
        assert!(ids(&config, app).is_empty());
        assert_eq!(config.current_id(app), "");
        assert!(config.common_config_snippets.get(app).is_none());
    }
    assert!(config.mcp_servers.is_none());
}
