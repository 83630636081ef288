use cc_switch::codex_form::{
    build_codex_provider_config_toml, clean_codex_provider_key, escape_toml_string, non_empty,
    parse_codex_config_snippet, try_update_codex_config_snippet, update_codex_config_snippet,
    CodexWireApi,
};
use cc_switch::common_config::{
    strip_codex_common_config_from_full_text, strip_codex_synced_mcp_servers_from_full_text,
};
use cc_switch::json::{
    json_array_contains_subset, json_deep_remove, json_is_subset, merge_json_values, Json,
};
use cc_switch::json_value::{parse_json, to_value, write_json};
use cc_switch::service::ProviderService;
use cc_switch::text::{blank, collapse_blank_runs};
use cc_switch::toml_plain::validate_config_toml;

fn json(text: &str) -> Json {
    parse_json(text).expect("valid JSON")
}

fn assert_json(value: &Json, text: &str) {
    assert_eq!(to_value(value), to_value(&json(text)));
}

#[test]
fn merged_settings_hold_both() {
    let mut base = json(r#"{"a":1,"b":{"c":2},"d":[1]}"#);
    merge_json_values(&mut base, &json(r#"{"b":{"c":3,"e":4},"d":[2]}"#));
    assert_json(&base, r#"{"a":1,"b":{"c":3,"e":4},"d":[2]}"#);
    assert!(json_is_subset(&base, &json(r#"{"b":{"e":4}}"#)));
}

#[test]
fn settings_come_back_from_the_merged_ones() {
    let common = json(r#"{"env":{"X":1},"flag":false}"#);
    let own = json(r#"{"env":{"TOKEN":"t"},"other":true}"#);
    let mut live = common.copy();
    merge_json_values(&mut live, &own);
    json_deep_remove(&mut live, &common);
    assert_eq!(to_value(&live), to_value(&own));
    let mut itself = common.copy();
    json_deep_remove(&mut itself, &common);
    assert_json(&itself, "{}");
}

#[test]
fn each_item_is_matched_once() {
    let items = |text: &str| match json(text) {
        Json::Array(items) => items,
        _ => panic!("array expected"),
    };
    assert!(json_array_contains_subset(&items("[1,2,1]"), &items("[1,1]")));
    assert!(!json_array_contains_subset(&items("[1,2]"), &items("[1,1]")));
}

#[test]
fn stripping_keeps_what_differs() {
    let mut own = json(r#"{"a":1,"b":2,"list":[1,2,3]}"#);
    json_deep_remove(&mut own, &json(r#"{"a":1,"b":9,"list":[2]}"#));
    assert_json(&own, r#"{"b":2,"list":[1,3]}"#);
}

#[test]
fn models_get_their_names_of_today_once() {
    let mut settings =
        json(r#"{"env":{"ANTHROPIC_MODEL":"big","ANTHROPIC_SMALL_FAST_MODEL":"small"}}"#);
    assert!(ProviderService::normalize_claude_models_in_value(&mut settings));
    let today = r#"{"env":{"ANTHROPIC_MODEL":"big","ANTHROPIC_DEFAULT_HAIKU_MODEL":"small","ANTHROPIC_DEFAULT_SONNET_MODEL":"big","ANTHROPIC_DEFAULT_OPUS_MODEL":"big"}}"#;
    assert_json(&settings, today);
    assert!(!ProviderService::normalize_claude_models_in_value(&mut settings));
    assert_json(&settings, today);
}

#[test]
fn written_documents_are_indented() {
    assert_eq!(write_json(&json(r#"{"a":[1]}"#)).expect("text"), "{\n  \"a\": [\n    1\n  ]\n}");
}

#[test]
fn common_part_is_taken_out_of_a_configuration() {
    let text = "model = \"m\"\nshared = true\n\n[table]\nown = 1\nshared = 2\n";
    let common = "shared = true\n\n[table]\nshared = 2\n";
    let own = strip_codex_common_config_from_full_text(text, common).expect("own part");
    assert!(own.contains("model = \"m\""));
    assert!(own.contains("own = 1"));
    assert!(!own.contains("shared"));
}

#[test]
fn synced_servers_are_taken_out_of_a_configuration() {
    let text = "model = \"m\"\n\n[mcp_servers.a]\nx = 1\n\n[mcp_servers.b]\nx = 2\n";
    let left = strip_codex_synced_mcp_servers_from_full_text(text, &vec!["a".to_string()])
        .expect("configuration");
    assert!(!left.contains("mcp_servers.a"));
    assert!(left.contains("[mcp_servers.b]"));
}

#[test]
fn configurations_are_checked() {
    assert!(validate_config_toml("a = 1\n").is_ok());
    assert!(validate_config_toml("").is_ok());
    assert!(validate_config_toml("a = ").is_err());
}

const FORM_TEXT: &str = "model_provider = \"p\"\nmodel = \"m\"\n\n[model_providers.p]\nbase_url = \"https://x\"\nwire_api = \"chat\"\nrequires_openai_auth = false\nenv_key = \"KEY\"\n";

#[test]
fn fields_are_read_from_a_configuration() {
    let fields = parse_codex_config_snippet(FORM_TEXT);
    assert_eq!(fields.base_url.as_deref(), Some("https://x"));
    assert_eq!(fields.model.as_deref(), Some("m"));
    assert_eq!(fields.wire_api, Some(CodexWireApi::Chat));
    assert_eq!(fields.requires_openai_auth, Some(false));
    assert_eq!(fields.env_key.as_deref(), Some("KEY"));
    let none = parse_codex_config_snippet("model =");
    assert!(none.model.is_none() && none.base_url.is_none());
    let flat = parse_codex_config_snippet("model = \"m\"\nbase_url = \"https://x\"\n");
    assert!(flat.model.is_some() && flat.base_url.is_none());
}

#[test]
fn fields_are_put_into_a_configuration() {
    let text = update_codex_config_snippet(
        FORM_TEXT,
        " https://y ",
        "",
        CodexWireApi::Responses,
        true,
        "ignored",
    );
    let fields = parse_codex_config_snippet(&text);
    assert_eq!(fields.base_url.as_deref(), Some("https://y"));
    assert_eq!(fields.model, None);
    assert_eq!(fields.wire_api, Some(CodexWireApi::Responses));
    assert_eq!(fields.requires_openai_auth, Some(true));
    assert_eq!(fields.env_key, None);
    let text = update_codex_config_snippet(
        "model_provider = \"new\"",
        "",
        "m",
        CodexWireApi::Chat,
        false,
        "",
    );
    let fields = parse_codex_config_snippet(&text);
    assert_eq!(fields.base_url, None);
    assert_eq!(fields.env_key.as_deref(), Some("OPENAI_API_KEY"));
    assert_eq!(
        update_codex_config_snippet("a =", "u", "m", CodexWireApi::Chat, true, ""),
        "a ="
    );
}

#[test]
fn sections_that_are_no_table_are_left_alone() {
    let wrong = "model_provider = \"p\"\nmodel_providers = 1\n";
    let result = try_update_codex_config_snippet(wrong, "u", "m", CodexWireApi::Chat, true, "");
    assert_eq!(result, None);
    assert!(try_update_codex_config_snippet("", "u", "m", CodexWireApi::Chat, true, "").is_some());
}

#[test]
fn new_configuration_is_written() {
    assert_eq!(
        build_codex_provider_config_toml("k", "https://x/\"q\"", "m", CodexWireApi::Responses),
        "model_provider = \"k\"\nmodel = \"m\"\nmodel_reasoning_effort = \"high\"\ndisable_response_storage = true\n\n[model_providers.k]\nname = \"k\"\nbase_url = \"https://x/\\\"q\\\"\"\nwire_api = \"responses\"\nrequires_openai_auth = true\n"
    );
    assert_eq!(escape_toml_string("a\"b"), "a\\\"b");
    assert_eq!(non_empty("  "), None);
    assert_eq!(non_empty(" a "), Some("a"));
    assert_eq!(clean_codex_provider_key(" ", " Name "), "Name");
    assert_eq!(clean_codex_provider_key(" id ", "Name"), "id");
}

#[test]
fn blank_lines_are_collapsed() {
    let lines = vec!["a".to_string(), " ".to_string(), "".to_string(), "b".to_string()];
    assert_eq!(collapse_blank_runs(&lines), "a\n\nb\n");
    assert!(blank("\u{3000}\t"));
    assert!(!blank("."));
}
