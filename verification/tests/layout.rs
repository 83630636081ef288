use cc_switch::codex_form::{update_codex_config_snippet, CodexWireApi};
use cc_switch::common_config::{
    strip_codex_common_config_from_full_text, strip_codex_synced_mcp_servers_from_full_text,
};
use cc_switch::json::Json;
use cc_switch::model::{Provider, ProviderMeta};
use cc_switch::service::ProviderService;
use cc_switch::toml_ops::toml_remove_array_items;

const CONFIG: &str = "# provider\nmodel_provider = \"p\" # ours\nmodel = \"m\"\n\n# shared\nflag = true\n\n[model_providers.p]\n# address\nbase_url = \"https://x\" # live\nwire_api = \"chat\"\n\n[mcp_servers.a]\ncommand = \"a\"\n\n[mcp_servers.b]\n# second\ncommand = 'b' # kept\n# the end\n";

#[test]
fn lines_that_are_not_common_stay_as_they_are_written() {
    let own = strip_codex_common_config_from_full_text(CONFIG, "flag = true").expect("own part");
    assert_eq!(own, CONFIG.replace("\n# shared\nflag = true\n", ""));
    assert!(own.ends_with("# the end\n"));
}

#[test]
fn lines_of_other_servers_stay_as_they_are_written() {
    let left = strip_codex_synced_mcp_servers_from_full_text(CONFIG, &vec!["a".to_string()])
        .expect("configuration");
    assert_eq!(left, CONFIG.replace("[mcp_servers.a]\ncommand = \"a\"\n\n", ""));
}

#[test]
fn lines_beside_the_fields_of_a_form_stay_as_they_are_written() {
    let text = update_codex_config_snippet(
        CONFIG,
        "https://y",
        "m2",
        CodexWireApi::Responses,
        true,
        "",
    );
    for line in [
        "# provider\nmodel_provider = \"p\" # ours\n",
        "\n# shared\nflag = true\n",
        "command = \"a\"\n",
        "# second\ncommand = 'b' # kept\n",
    ] {
        assert!(text.contains(line), "{line} in {text}");
    }
    assert!(text.ends_with("# the end"));
    assert!(text.contains("base_url = \"https://y\""));
}

#[test]
fn lines_of_a_provider_stay_as_they_are_written_under_the_common_snippet() {
    let mut settings = Json::Object(Vec::new());
    settings.insert("config", Json::Str(CONFIG.to_string()));
    let mut own = Provider::with_id("p".to_string(), "P".to_string(), settings, None);
    let mut meta = ProviderMeta::new();
    meta.apply_common_config = Some(true);
    own.meta = Some(meta);
    let snippet = "extra = 1\n[mcp_servers.a]\nargs = []\n";
    let live = ProviderService::write_codex_live(&own, Some(snippet), true).expect("live");
    assert!(live.config.contains("# provider\nmodel_provider = \"p\" # ours\n"));
    assert!(live.config.contains("# address\nbase_url = \"https://x\" # live\n"));
    assert!(live.config.contains("command = \"a\"\n"));
    assert!(live.config.contains("extra = 1\n"));
    assert!(live.config.ends_with("# the end\n"));
}

#[test]
fn extracted_snippet_is_tidy_and_gives_itself() {
    let text = "a = 1\n\n\n\nmodel = \"m\"\n\n\n\n# note\n\n\nb = 2\n\n\n";
    let once = ProviderService::extract_codex_common_config_from_config_toml(text).expect("once");
    assert!(!once.contains("\n\n\n"));
    assert_eq!(once, once.trim());
    let twice = ProviderService::extract_codex_common_config_from_config_toml(&once).expect("twice");
    assert_eq!(twice, once);
    assert!(once.contains("# note") && once.contains("b = 2"));
}

#[test]
fn array_with_an_empty_place_loses_the_element_that_matches() {
    let mut document = "a = [1, 2, 3]".parse::<toml_edit::DocumentMut>().expect("document");
    let array = &mut document["a"];
    array[0] = toml_edit::Item::None;
    let two = toml_edit::Value::from(2);
    toml_remove_array_items(array, &vec![&two]);
    let left: Vec<i64> = array
        .as_array()
        .expect("array")
        .iter()
        .filter_map(toml_edit::Value::as_integer)
        .collect();
    assert_eq!(left, vec![3]);
}
