use cc_switch::i18n::{
    current_language, is_chinese, law_choice_is_kept, set_language, Language, LanguageStore,
};
use cc_switch::texts;

#[test]
fn proxy_dashboard_copy_is_fully_localized_in_chinese() {
    let lang = Language::Chinese;

    assert_eq!(texts::tui_home_section_connection(lang), "连接信息");
    assert_eq!(
        texts::tui_proxy_dashboard_failover_copy(lang),
        "仅做手动路由，不会自动切换供应商。"
    );
    assert_eq!(
        texts::tui_proxy_dashboard_manual_routing_copy(lang, "Codex"),
        "手动路由：Codex 的流量会通过 cc-switch。"
    );
}

#[test]
fn website_url_label_keeps_optional_with_abbrev() {
    let label = texts::website_url_label(Language::English);
    assert_eq!(label, "Website URL (opt.):");
    assert!(label.contains("(opt.)"));
    assert!(!label.contains("(optional)"));
}

#[test]
fn chinese_tui_copy_avoids_key_mixed_english_labels() {
    let lang = Language::Chinese;

    assert_eq!(texts::tui_home_section_connection(lang), "连接信息");
    assert_eq!(texts::tui_home_status_online(lang), "在线");
    assert_eq!(texts::tui_home_status_offline(lang), "离线");
    assert_eq!(texts::tui_label_mcp_servers_active(lang), "已启用");
    assert_eq!(texts::skills_management(lang), "技能管理");
    assert_eq!(texts::menu_manage_mcp(lang), "🔌 MCP 服务器");

    let help = texts::tui_help_text(lang);
    assert!(help.contains("供应商：Enter 详情"));
    assert!(help.contains("供应商详情：s 切换"));
    assert!(help.contains("提示词：Enter 查看"));
    assert!(help.contains("技能：Enter 详情"));
    assert!(help.contains("配置：Enter 打开/执行"));
    assert!(help.contains("设置：Enter 应用"));
    assert!(!help.contains("Providers:"));
    assert!(!help.contains("Provider Detail:"));
    assert!(!help.contains("Skills:"));
    assert!(!help.contains("Config:"));
    assert!(!help.contains("Settings:"));
}

#[test]
fn english_heading_of_the_connection_details() {
    assert_eq!(texts::tui_home_section_connection(Language::English), "Connection Details");
}

#[test]
fn codes_of_languages_are_read_in_any_case() {
    for code in ["zh", "ZH", "zh-CN", "Zh-Tw", "CHINESE"] {
        assert_eq!(Language::from_code(code), Language::Chinese);
    }
    for code in ["en", "EN", "fr", "", "zh-hk"] {
        assert_eq!(Language::from_code(code), Language::English);
    }
}

#[test]
fn chosen_language_is_kept() {
    for lang in [Language::English, Language::Chinese] {
        let mut store = LanguageStore { chosen: None, stored: None };
        assert_eq!(current_language(&store), Language::English);
        set_language(&mut store, lang);
        assert_eq!(current_language(&store), lang);
        assert_eq!(is_chinese(&store), lang == Language::Chinese);
        assert_eq!(store.stored.as_deref(), Some(lang.code()));
        assert_eq!(law_choice_is_kept(store, lang), lang);
    }
    assert_eq!(Language::Chinese.display_name(), "中文");
    assert_eq!(Language::English.display_name(), "English");
}
