//! That what is spoken of is what is there: the views of values say all that the values hold.
use vstd::prelude::*;

use crate::config::MultiAppConfig;
use crate::error::AppError;
use crate::json::Json;
use crate::live_files::{
    json_outcome, snapshot_outcome, unit_outcome, JsonRead, LiveSnapshot, TextRead,
};
use crate::model::{AppType, Provider, ProviderMeta};
use crate::service::{action_outcome, PostCommitAction};
use crate::switching::switch_outcome;

verus! {

/// What is said of a provider is what its fields hold.
pub proof fn law_what_a_provider_holds(provider: Provider)
    ensures
        provider@.id == provider.id@,
        provider@.name == provider.name@,
        provider@.settings_config == provider.settings_config@,
        provider@.website_url is Some == provider.website_url is Some,
        provider.website_url is Some ==> provider@.website_url->0 == provider.website_url->0@,
        provider@.category is Some == provider.category is Some,
        provider.category is Some ==> provider@.category->0 == provider.category->0@,
        provider@.created_at == provider.created_at,
        provider@.sort_index == provider.sort_index,
        provider@.meta is Some == provider.meta is Some,
        provider.meta is Some ==> provider@.meta->0 == provider.meta->0@,
{
}

/// What is said of what is kept about a provider is what is kept.
pub proof fn law_what_is_kept_about_a_provider(meta: ProviderMeta)
    ensures
        meta@.apply_common_config == meta.apply_common_config,
        meta@.codex_official == meta.codex_official,
        meta@.usage_script is Some == meta.usage_script is Some,
        meta.usage_script is Some ==> meta@.usage_script->0 == meta.usage_script->0@,
        meta@.extra == meta.extra@,
{
}

/// What is said of what follows a change is what its fields hold.
pub proof fn law_what_an_action_holds(action: PostCommitAction)
    ensures
        action@.app_type == action.app_type,
        action@.provider == action.provider@,
        action@.backup == action.backup@,
        action@.sync_mcp == action.sync_mcp,
        action@.refresh_snapshot == action.refresh_snapshot,
        action@.common_config_snippet is Some == action.common_config_snippet is Some,
        action.common_config_snippet is Some ==> action@.common_config_snippet->0
            == action.common_config_snippet->0@,
        action@.takeover_active == action.takeover_active,
{
}

/// What is said of a configuration is what is stored for each application.
pub proof fn law_what_a_configuration_holds(config: MultiAppConfig, app_type: AppType)
    ensures
        ({
            let stored = match app_type {
                AppType::Claude => config.claude,
                AppType::Codex => config.codex,
                AppType::Gemini => config.gemini,
                AppType::OpenCode => config.opencode,
                AppType::OpenClaw => config.openclaw,
            };
            let snippets = config.common_config_snippets;
            let snippet = match app_type {
                AppType::Claude => snippets.claude,
                AppType::Codex => snippets.codex,
                AppType::Gemini => snippets.gemini,
                AppType::OpenCode => snippets.opencode,
                AppType::OpenClaw => snippets.openclaw,
            };
            &&& config@.managers.contains_key(app_type) == stored is Some
            &&& stored is Some ==> config@.managers[app_type] == stored->0@
            &&& config@.snippets.contains_key(app_type) == snippet is Some
            &&& snippet is Some ==> config@.snippets[app_type] == snippet->0@
            &&& config@.mcp_servers is Some == config.mcp_servers is Some
        }),
        config.mcp_servers is Some ==> {
            let servers = config.mcp_servers->0@;
            &&& config@.mcp_servers->0.len() == servers.len()
            &&& forall|i: int|
                0 <= i < servers.len() ==> #[trigger] config@.mcp_servers->0[i] == servers[i]@
        },
{
}

/// What is read of a file is what was found.
pub proof fn law_what_was_read(json: JsonRead, text: TextRead)
    ensures
        json is Missing == json@ is Missing,
        json is Found == json@ is Found,
        json is Found ==> json@->Found_0 == json->Found_0@,
        json is Failed ==> json@->Failed_0 == json->Failed_0@,
        text is Missing == text@ is Missing,
        text is Found == text@ is Found,
        text is Found ==> text@->Found_0 == text->Found_0@,
        text is Failed ==> text@->Failed_0 == text->Failed_0@,
{
}

/// What is said of live files that were kept is what was kept.
pub proof fn law_what_a_snapshot_holds(snapshot: LiveSnapshot)
    ensures
        snapshot is Claude ==> snapshot@ is Claude && snapshot@->settings is Some
            == snapshot->settings is Some && (snapshot->settings is Some
            ==> snapshot@->settings->0 == snapshot->settings->0@),
        snapshot is Codex ==> snapshot@ is Codex && snapshot@->auth is Some == snapshot->auth
            is Some && (snapshot->auth is Some ==> snapshot@->auth->0 == snapshot->auth->0@)
            && snapshot@->Codex_config is Some == snapshot->Codex_config is Some && (
        snapshot->Codex_config is Some ==> snapshot@->Codex_config->0
            == snapshot->Codex_config->0@),
        snapshot is OpenClaw ==> snapshot@ is OpenClaw && snapshot@->config_source is Some
            == snapshot->config_source is Some && (snapshot->config_source is Some
            ==> snapshot@->config_source->0 == snapshot->config_source->0@),
{
}

/// A success is said to be one, and a failure to be the one it is.
pub proof fn law_outcomes_are_told(
    done: Result<(), AppError>,
    action: Result<Option<PostCommitAction>, AppError>,
    switched: Result<PostCommitAction, AppError>,
    json: Result<Json, AppError>,
    kept: Result<LiveSnapshot, AppError>,
)
    ensures
        unit_outcome(done) is Ok == done is Ok,
        done is Err ==> unit_outcome(done)->Err_0 == done->Err_0@,
        action_outcome(action) is Ok == action is Ok,
        action is Err ==> action_outcome(action)->Err_0 == action->Err_0@,
        action is Ok ==> action_outcome(action)->Ok_0 is Some == action->Ok_0 is Some,
        action is Ok && action->Ok_0 is Some ==> action_outcome(action)->Ok_0->0
            == action->Ok_0->0@,
        switch_outcome(switched) is Ok == switched is Ok,
        switched is Ok ==> switch_outcome(switched)->Ok_0 == switched->Ok_0@,
        switched is Err ==> switch_outcome(switched)->Err_0 == switched->Err_0@,
        json_outcome(json) is Ok == json is Ok,
        json is Ok ==> json_outcome(json)->Ok_0 == json->Ok_0@,
        json is Err ==> json_outcome(json)->Err_0 == json->Err_0@,
        snapshot_outcome(kept) is Ok == kept is Ok,
        kept is Ok ==> snapshot_outcome(kept)->Ok_0 == kept->Ok_0@,
        kept is Err ==> snapshot_outcome(kept)->Err_0 == kept->Err_0@,
{
}

} // verus!
