//! Texts of the user interface, in each of its languages.
use vstd::prelude::*;

use crate::error::joined3;
use crate::i18n::Language;

verus! {

/// The text of the language.
pub open spec fn in_language(lang: Language, en: Seq<char>, zh: Seq<char>) -> Seq<char> {
    match lang {
        Language::English => en,
        Language::Chinese => zh,
    }
}

/// The text of the language.
pub fn localized(lang: Language, en: &'static str, zh: &'static str) -> (r: &'static str)
    ensures
        r@ == in_language(lang, en@, zh@),
{
    match lang {
        Language::English => en,
        Language::Chinese => zh,
    }
}

/// The label of the field for the address of a website.
pub fn website_url_label(lang: Language) -> (r: &'static str)
    ensures
        r@ == in_language(lang, "Website URL (opt.):"@, "官网 URL（可选）："@),
{
    localized(lang, "Website URL (opt.):", "官网 URL（可选）：")
}

/// The heading of the connection details.
pub fn tui_home_section_connection(lang: Language) -> (r: &'static str)
    ensures
        r@ == in_language(lang, "Connection Details"@, "连接信息"@),
{
    localized(lang, "Connection Details", "连接信息")
}

/// The state of a reachable service.
pub fn tui_home_status_online(lang: Language) -> (r: &'static str)
    ensures
        r@ == in_language(lang, "Online"@, "在线"@),
{
    localized(lang, "Online", "在线")
}

/// The state of a service that cannot be reached.
pub fn tui_home_status_offline(lang: Language) -> (r: &'static str)
    ensures
        r@ == in_language(lang, "Offline"@, "离线"@),
{
    localized(lang, "Offline", "离线")
}

/// The label of the number of enabled MCP servers.
pub fn tui_label_mcp_servers_active(lang: Language) -> (r: &'static str)
    ensures
        r@ == in_language(lang, "Active"@, "已启用"@),
{
    localized(lang, "Active", "已启用")
}

/// The heading of the management of skills.
pub fn skills_management(lang: Language) -> (r: &'static str)
    ensures
        r@ == in_language(lang, "Skills Management"@, "技能管理"@),
{
    localized(lang, "Skills Management", "技能管理")
}

/// The menu entry for MCP servers.
pub fn menu_manage_mcp(lang: Language) -> (r: &'static str)
    ensures
        r@ == in_language(lang, "🔌 MCP Servers"@, "🔌 MCP 服务器"@),
{
    localized(lang, "🔌 MCP Servers", "🔌 MCP 服务器")
}

/// The keys of the pages of the terminal interface.
pub fn tui_help_text(lang: Language) -> (r: &'static str)
    ensures
        r@ == in_language(
            lang,
            "Providers: Enter details\nProvider Detail: s switch\nPrompts: Enter view\nSkills: Enter details\nConfig: Enter open/run\nSettings: Enter apply"@,
            "供应商：Enter 详情\n供应商详情：s 切换\n提示词：Enter 查看\n技能：Enter 详情\n配置：Enter 打开/执行\n设置：Enter 应用"@,
        ),
{
    localized(
        lang,
        "Providers: Enter details\nProvider Detail: s switch\nPrompts: Enter view\nSkills: Enter details\nConfig: Enter open/run\nSettings: Enter apply",
        "供应商：Enter 详情\n供应商详情：s 切换\n提示词：Enter 查看\n技能：Enter 详情\n配置：Enter 打开/执行\n设置：Enter 应用",
    )
}

/// What the proxy does where a provider fails.
pub fn tui_proxy_dashboard_failover_copy(lang: Language) -> (r: &'static str)
    ensures
        r@ == in_language(
            lang,
            "Manual routing only; providers are never switched automatically."@,
            "仅做手动路由，不会自动切换供应商。"@,
        ),
{
    localized(
        lang,
        "Manual routing only; providers are never switched automatically.",
        "仅做手动路由，不会自动切换供应商。",
    )
}

/// What is routed through the proxy.
pub fn tui_proxy_dashboard_manual_routing_copy(lang: Language, app: &str) -> (r: String)
    ensures
        r@ == in_language(
            lang,
            "Manual routing: traffic of "@ + app@ + " goes through cc-switch."@,
            "手动路由："@ + app@ + " 的流量会通过 cc-switch。"@,
        ),
{
    match lang {
        Language::English => joined3(
            "Manual routing: traffic of ",
            app,
            " goes through cc-switch.",
        ),
        Language::Chinese => joined3("手动路由：", app, " 的流量会通过 cc-switch。"),
    }
}

} // verus!
