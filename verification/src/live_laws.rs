//! What goes live of a provider, in terms of what it was given.
use vstd::prelude::*;

use crate::claude::{models_normalized, models_renamed};
use crate::codex::{
    is_own_text, lemma_codex_names, live_text, own_text_merged, with_official_defaults, AuthFile,
};
use crate::codex_form::lemma_section_names;
use crate::common_config::{applies_common, is_official, uses_common};
use crate::error::{AppError, ErrorView};
use crate::json::{is_subset, merged, JsonView};
use crate::json_laws::{law_overlay_is_part, law_subset_of_itself};
use crate::json_value::parsed_json;
use crate::live_files::{ContentView, FileActionView, JsonReadView, LiveFile};
use crate::live_write::{
    gemini_files, gemini_live_settings, gemini_settings_file, live_backup, live_plan,
    GeminiAuthType, LivePlan,
};
use crate::model::{AppType, ProviderView};
use crate::path_laws::{
    at, is_old_model_name, is_silent, law_base_shows_through, law_merge_adds_nothing,
    law_models_by_name, law_normalizing_adds_nothing_elsewhere, law_normalizing_keeps_values,
    law_overlay_wins,
};
use crate::text::{equal_ignoring_case, is_blank, trimmed};
use crate::toml_doc::{parsed_toml, TomlView};
use crate::toml_laws::{is_comparable, law_merged_is_part};
use crate::toml_ops::{item_is_subset, tables_merged};
use crate::toml_path_laws::{entry_at, is_plain, is_written_as};
use crate::toml_plain::plain_table;

verus! {

/// Whether a Codex provider says that it is the official one: by its mark, its category, its
/// website or its name.
pub open spec fn says_official(provider: ProviderView) -> bool {
    ||| (provider.meta matches Some(meta) && meta.codex_official == Some(true))
    ||| (provider.category matches Some(category) && equal_ignoring_case(category, "official"@))
    ||| (provider.website_url matches Some(url) && equal_ignoring_case(
        trimmed(url),
        "https://chatgpt.com/codex"@,
    ))
    ||| equal_ignoring_case(trimmed(provider.name), "OpenAI Official"@)
}

/// Whether a provider was told not to take the common snippet.
pub open spec fn was_told_no(provider: ProviderView) -> bool {
    provider.meta matches Some(meta) && meta.apply_common_config == Some(false)
}

/// Whether a provider was told to take the common snippet.
pub open spec fn was_told_yes(provider: ProviderView) -> bool {
    provider.meta matches Some(meta) && meta.apply_common_config == Some(true)
}

/// Whether there is a snippet that says something.
pub open spec fn says_something(snippet: Option<Seq<char>>) -> bool {
    snippet matches Some(text) && !is_blank(text)
}

/// The authentication of a Codex provider goes live as it is stored: the file is written
/// with exactly the object under `auth`. Only a provider that says it is the official one,
/// or has no such object, or an empty one, has the file taken away.
pub proof fn law_codex_auth_goes_live(
    provider: ProviderView,
    snippet: Option<Seq<char>>,
    requested: bool,
    plan: Result<LivePlan, AppError>,
)
    requires
        live_plan(AppType::Codex, provider, snippet, requested, true, plan),
        plan is Ok,
    ensures
        plan matches Ok(LivePlan::Codex(live)) && {
            let members = provider.settings_config->Object_0;
            let has_auth = provider.settings_config is Object && members.contains_key("auth"@)
                && members["auth"@] is Object && members["auth"@]->Object_0.dom()
                != Set::<Seq<char>>::empty();
            if has_auth && !says_official(provider) {
                live.auth matches AuthFile::Write(auth) && auth@ == members["auth"@]
            } else {
                live.auth is Remove
            }
        },
{
    assert(is_official(provider) == says_official(provider));
    if let Ok(LivePlan::Codex(live)) = plan {
        if provider.settings_config is Object && provider.settings_config->Object_0.contains_key(
            "auth"@,
        ) {
            let auth = provider.settings_config->Object_0["auth"@];
            if auth is Object {
                let inner = auth->Object_0;
                if inner.dom() == Set::<Seq<char>>::empty() {
                    assert(inner =~= Map::empty());
                }
                if inner == Map::<Seq<char>, JsonView>::empty() {
                    assert(inner.dom() =~= Set::empty());
                }
            }
        }
    }
}

/// The text of a Codex provider that does not say it is the official one goes live word for
/// word where no snippet is to be laid over it, and only a text that is no document keeps it
/// from going live.
pub proof fn law_codex_text_goes_live(
    provider: ProviderView,
    snippet: Option<Seq<char>>,
    requested: bool,
    text: Seq<char>,
    plan: Result<LivePlan, AppError>,
)
    requires
        live_plan(AppType::Codex, provider, snippet, requested, true, plan),
        provider.settings_config is Object,
        provider.settings_config->Object_0.contains_key("config"@),
        provider.settings_config->Object_0["config"@] == JsonView::Str(text),
        !says_official(provider),
        !requested || was_told_no(provider) || !says_something(snippet),
    ensures
        if is_blank(text) || plain_table(text) is Some {
            plan matches Ok(LivePlan::Codex(live)) && live.config@ == text
        } else {
            plan is Err
        },
{
    assert(is_official(provider) == says_official(provider));
    let result = match plan {
        Ok(LivePlan::Codex(live)) => Ok::<Seq<char>, ErrorView>(live.config@),
        Err(error) => Err(error@),
        _ => Ok(text),
    };
    assert(live_text(provider, snippet, false, result));
    let own = choose|own: Seq<char>| #[trigger]
        is_own_text(provider, own) && own_text_merged(own, snippet, false, result);
    assert(is_own_text(provider, own));
    assert(own == text);
}

/// Where a Codex provider was told to take the common snippet, what goes live holds both:
/// what the snippet has under a name wins, tables are put together, and what the snippet
/// does not name is the provider's own.
pub proof fn law_codex_snippet_goes_live(
    provider: ProviderView,
    snippet: Seq<char>,
    text: Seq<char>,
    own: Map<Seq<char>, TomlView>,
    common: Map<Seq<char>, TomlView>,
    plan: Result<LivePlan, AppError>,
)
    requires
        live_plan(AppType::Codex, provider, Some(snippet), true, true, plan),
        provider.settings_config is Object,
        provider.settings_config->Object_0.contains_key("config"@),
        provider.settings_config->Object_0["config"@] == JsonView::Str(text),
        !says_official(provider),
        was_told_yes(provider),
        !is_blank(snippet),
        !is_blank(text),
        plain_table(text) is Some,
        parsed_toml(text) == Some(TomlView::Table(own)),
        parsed_toml(trimmed(snippet)) == Some(TomlView::Table(common)),
    ensures
        plan matches Ok(LivePlan::Codex(live)) && exists|contents: Map<Seq<char>, TomlView>|
            #[trigger]
            is_written_as(live.config@, TomlView::Table(contents)) && holds_both(
                own,
                common,
                contents,
            ),
{
    assert(is_official(provider) == says_official(provider));
    let result = match plan {
        Ok(LivePlan::Codex(live)) => Ok::<Seq<char>, ErrorView>(live.config@),
        Err(error) => Err(error@),
        _ => Ok(text),
    };
    assert(live_text(provider, Some(snippet), true, result));
    let chosen = choose|chosen: Seq<char>| #[trigger]
        is_own_text(provider, chosen) && own_text_merged(chosen, Some(snippet), true, result);
    assert(is_own_text(provider, chosen));
    assert(chosen == text);
    let contents = tables_merged(TomlView::Table(own), TomlView::Table(common));
    assert(contents->Table_0.dom() =~= own.dom().union(common.dom()));
    assert forall|key: Seq<char>|
        own.contains_key(key) && common.contains_key(key) && own[key] is Table
            && common[key] is Table implies (#[trigger] contents->Table_0[key]) is Table
        && contents->Table_0[key]->Table_0.dom() == own[key]->Table_0.dom().union(
        common[key]->Table_0.dom(),
    ) by {
        let below = tables_merged(own[key], common[key]);
        assert(contents->Table_0[key] == below);
        assert(below->Table_0.dom() =~= own[key]->Table_0.dom().union(common[key]->Table_0.dom()));
    }
    assert(holds_both(own, common, contents->Table_0)) by {
        reveal_with_fuel(tables_merged, 2);
    }
    if let Ok(LivePlan::Codex(live)) = plan {
        assert(is_written_as(live.config@, TomlView::Table(contents->Table_0)));
    }
}

/// Whether a table holds two others, of which the second wins under each name.
pub open spec fn holds_both(
    own: Map<Seq<char>, TomlView>,
    common: Map<Seq<char>, TomlView>,
    contents: Map<Seq<char>, TomlView>,
) -> bool {
    &&& contents.dom() == own.dom().union(common.dom())
    &&& forall|key: Seq<char>|
        #![trigger contents[key]]
        {
            &&& own.contains_key(key) && !common.contains_key(key) ==> contents[key] == own[key]
            &&& common.contains_key(key) && !own.contains_key(key) ==> contents[key]
                == common[key]
            &&& common.contains_key(key) && !(common[key] is Table) ==> contents[key]
                == common[key]
            &&& common.contains_key(key) && own.contains_key(key) && !(own[key] is Table)
                ==> contents[key] == common[key]
            &&& own.contains_key(key) && common.contains_key(key) && own[key] is Table
                && common[key] is Table ==> contents[key] is Table
                && contents[key]->Table_0.dom() == own[key]->Table_0.dom().union(
                common[key]->Table_0.dom(),
            )
        }
}

/// The section of the official Codex provider goes live with what it must say: where nothing
/// else is set, it talks to the responses interface, and is authenticated by the account of
/// the user. Everything else in the text stays.
pub proof fn law_official_section_is_completed(
    provider: ProviderView,
    text: Seq<char>,
    own: Map<Seq<char>, TomlView>,
    key: Seq<char>,
    plan: Result<LivePlan, AppError>,
)
    requires
        live_plan(AppType::Codex, provider, None, true, true, plan),
        plan is Ok,
        provider.settings_config is Object,
        provider.settings_config->Object_0.contains_key("config"@),
        provider.settings_config->Object_0["config"@] == JsonView::Str(text),
        says_official(provider),
        !is_blank(text),
        parsed_toml(text) == Some(TomlView::Table(own)),
        own.contains_key("model_provider"@),
        own["model_provider"@] == TomlView::Str(key),
        own.contains_key("model_providers"@),
        own["model_providers"@] is Table,
        own["model_providers"@]->Table_0.contains_key(key),
        own["model_providers"@]->Table_0[key] is Table,
    ensures
        plan matches Ok(LivePlan::Codex(live)) && exists|contents: Map<Seq<char>, TomlView>|
            #[trigger]
            is_written_as(live.config@, TomlView::Table(contents)) && {
                let before = own["model_providers"@]->Table_0[key]->Table_0;
                let after = contents["model_providers"@]->Table_0[key]->Table_0;
                &&& contents.remove("model_providers"@) == own.remove("model_providers"@)
                &&& contents.contains_key("model_providers"@)
                &&& after["wire_api"@] == (if before.contains_key("wire_api"@) {
                    before["wire_api"@]
                } else {
                    TomlView::Str("responses"@)
                })
                &&& after["requires_openai_auth"@] == (if before.contains_key(
                    "requires_openai_auth"@,
                ) {
                    before["requires_openai_auth"@]
                } else {
                    TomlView::Boolean(true)
                })
                &&& after.contains_key("wire_api"@) && after.contains_key("requires_openai_auth"@)
                &&& after.remove("wire_api"@).remove("requires_openai_auth"@) == before.remove(
                    "wire_api"@,
                ).remove("requires_openai_auth"@)
            },
{
    assert(is_official(provider) == says_official(provider));
    lemma_section_names();
    let result = match plan {
        Ok(LivePlan::Codex(live)) => Ok::<Seq<char>, ErrorView>(live.config@),
        Err(error) => Err(error@),
        _ => Ok(text),
    };
    assert(live_text(provider, None, false, result));
    let chosen = choose|chosen: Seq<char>| #[trigger]
        is_own_text(provider, chosen) && own_text_merged(chosen, None, false, result);
    assert(is_own_text(provider, chosen));
    let completed = with_official_defaults(TomlView::Table(own));
    let contents = completed->Table_0;
    let before = own["model_providers"@]->Table_0[key]->Table_0;
    let after = contents["model_providers"@]->Table_0[key]->Table_0;
    assert(contents.remove("model_providers"@) =~= own.remove("model_providers"@));
    assert(after.remove("wire_api"@).remove("requires_openai_auth"@) =~= before.remove(
        "wire_api"@,
    ).remove("requires_openai_auth"@));
    if let Ok(LivePlan::Codex(live)) = plan {
        assert(is_written_as(live.config@, TomlView::Table(contents)));
    }
}

/// What goes live of a Gemini provider holds all of its settings, whatever the snippet, and
/// is just these where no snippet applies: it is not asked for, the provider was told not to
/// take it, or it says nothing. Where one applies, what it says and the provider does not
/// goes live too, and nothing else does. Only a snippet that is no object keeps the provider
/// from going live.
pub proof fn law_gemini_settings_go_live(
    provider: ProviderView,
    snippet: Option<Seq<char>>,
    requested: bool,
    plan: Result<LivePlan, AppError>,
    path: Seq<Seq<char>>,
    value: JsonView,
)
    requires
        live_plan(AppType::Gemini, provider, snippet, requested, true, plan),
        !(value is Object),
    ensures
        ({
            let settings = provider.settings_config;
            let applies = requested && !was_told_no(provider) && says_something(snippet);
            let common = parsed_json(trimmed(snippet->0));
            &&& plan is Err <==> applies && !(common is Some && common->0 is Object)
            &&& plan matches Ok(plan) ==> plan matches LivePlan::Gemini(content) && {
                &&& is_subset(content@, settings)
                &&& !applies ==> content@ == settings
                &&& at(settings, path) == Some(value) ==> at(content@, path) == Some(value)
                &&& applies && at(common->0, path) == Some(value) && is_silent(settings, path)
                    ==> at(content@, path) == Some(value)
                &&& at(content@, path) == Some(value) ==> at(settings, path) == Some(value) || (
                applies && at(common->0, path) == Some(value))
            }
        }),
{
    let settings = provider.settings_config;
    let applies = requested && !was_told_no(provider) && says_something(snippet);
    let common = parsed_json(trimmed(snippet->0))->0;
    law_subset_of_itself(settings);
    law_overlay_is_part(common, settings);
    if applies {
        if at(settings, path) == Some(value) {
            law_overlay_wins(common, settings, path, value);
        }
        if at(common, path) == Some(value) && is_silent(settings, path) {
            law_base_shows_through(common, settings, path, value);
        }
        if at(merged(common, settings), path) == Some(value) {
            law_merge_adds_nothing(common, settings, path, value);
        }
    }
}

/// What goes live of an Anthropic provider holds every value of its settings, but that under
/// the old name of the small fast model, which is gone. Where no snippet applies, nothing
/// else goes live outside the environment; where one applies, what it says outside the
/// environment and the provider does not goes live too.
pub proof fn law_claude_settings_go_live(
    provider: ProviderView,
    snippet: Option<Seq<char>>,
    requested: bool,
    plan: Result<LivePlan, AppError>,
    path: Seq<Seq<char>>,
    value: JsonView,
)
    requires
        live_plan(AppType::Claude, provider, snippet, requested, true, plan),
        !(value is Object),
    ensures
        ({
            let settings = provider.settings_config;
            let applies = requested && !was_told_no(provider) && says_something(snippet);
            let common = parsed_json(trimmed(snippet->0));
            &&& plan is Err <==> applies && !(common is Some && common->0 is Object)
            &&& plan matches Ok(plan) ==> plan matches LivePlan::Claude(content) && {
                &&& at(settings, path) == Some(value) && !is_old_model_name(path) ==> at(
                    content@,
                    path,
                ) == Some(value)
                &&& path.len() > 0 && path[0] != "env"@ ==> {
                    &&& !applies ==> at(content@, path) == at(settings, path)
                    &&& applies && at(common->0, path) == Some(value) && is_silent(settings, path)
                        ==> at(content@, path) == Some(value)
                    &&& at(content@, path) == Some(value) ==> at(settings, path) == Some(value) || (
                    applies && at(common->0, path) == Some(value))
                }
            }
        }),
{
    let settings = provider.settings_config;
    let own = models_normalized(settings);
    let applies = requested && !was_told_no(provider) && says_something(snippet);
    let common = parsed_json(trimmed(snippet->0))->0;
    let both = merged(common, own);
    if at(settings, path) == Some(value) && !is_old_model_name(path) {
        law_normalizing_keeps_values(settings, path, value);
        law_overlay_wins(common, own, path, value);
        law_normalizing_keeps_values(both, path, value);
    }
    if path.len() > 0 && path[0] != "env"@ {
        law_normalizing_adds_nothing_elsewhere(settings, path);
        law_normalizing_adds_nothing_elsewhere(both, path);
        if is_silent(settings, path) {
            assert(is_silent(own, path));
            if at(common, path) == Some(value) {
                law_base_shows_through(common, own, path, value);
            }
        }
        if at(both, path) == Some(value) {
            law_merge_adds_nothing(common, own, path, value);
        }
    }
}

/// Whether a path leads into the environment, to something other than a model that has got
/// another name.
pub open spec fn is_other_variable(path: Seq<Seq<char>>) -> bool {
    &&& path.len() >= 2
    &&& path[0] == "env"@
    &&& path[1] != "ANTHROPIC_SMALL_FAST_MODEL"@
    &&& path[1] != "ANTHROPIC_DEFAULT_HAIKU_MODEL"@
    &&& path[1] != "ANTHROPIC_DEFAULT_SONNET_MODEL"@
    &&& path[1] != "ANTHROPIC_DEFAULT_OPUS_MODEL"@
}

/// Bringing the names of models up to date touches nothing else in the environment.
proof fn lemma_other_variables(settings: JsonView, path: Seq<Seq<char>>)
    requires
        is_other_variable(path),
    ensures
        at(models_normalized(settings), path) == at(settings, path),
        is_silent(models_normalized(settings), path) == is_silent(settings, path),
{
    let rest = path.drop_first();
    assert(rest[0] == path[1]);
    if let JsonView::Object(members) = settings {
        if members.contains_key("env"@) && members["env"@] is Object {
            let env = members["env"@]->Object_0;
            law_models_by_name(env, rest[0]);
            let after = models_normalized(settings);
            assert(after->Object_0["env"@] == models_renamed(members["env"@]));
            assert(at(after, path) == at(after->Object_0["env"@], rest));
            assert(at(settings, path) == at(members["env"@], rest));
            assert(is_silent(after, path) == is_silent(after->Object_0["env"@], rest));
            assert(is_silent(settings, path) == is_silent(members["env"@], rest));
        }
    }
}

/// The environment of an Anthropic provider goes live with every variable of it; where a
/// snippet applies, so does each variable that the snippet has and the provider has not; and
/// nothing else does, but models that get a name of today.
pub proof fn law_claude_environment_goes_live(
    provider: ProviderView,
    snippet: Option<Seq<char>>,
    requested: bool,
    plan: Result<LivePlan, AppError>,
    path: Seq<Seq<char>>,
    value: JsonView,
)
    requires
        live_plan(AppType::Claude, provider, snippet, requested, true, plan),
        !(value is Object),
        is_other_variable(path),
    ensures
        ({
            let settings = provider.settings_config;
            let applies = requested && !was_told_no(provider) && says_something(snippet);
            let common = parsed_json(trimmed(snippet->0));
            plan matches Ok(plan) ==> plan matches LivePlan::Claude(content) && {
                &&& !applies ==> at(content@, path) == at(settings, path)
                &&& at(settings, path) == Some(value) ==> at(content@, path) == Some(value)
                &&& applies && at(common->0, path) == Some(value) && is_silent(settings, path)
                    ==> at(content@, path) == Some(value)
                &&& at(content@, path) == Some(value) ==> at(settings, path) == Some(value) || (
                applies && at(common->0, path) == Some(value))
            }
        }),
{
    let settings = provider.settings_config;
    let own = models_normalized(settings);
    let common = parsed_json(trimmed(snippet->0))->0;
    let both = merged(common, own);
    lemma_other_variables(settings, path);
    lemma_other_variables(both, path);
    if at(settings, path) == Some(value) {
        law_overlay_wins(common, own, path, value);
    }
    if at(common, path) == Some(value) && is_silent(settings, path) {
        law_base_shows_through(common, own, path, value);
    }
    if at(both, path) == Some(value) {
        law_merge_adds_nothing(common, own, path, value);
    }
}

/// What goes live of an OpenCode provider is the entry of its identifier where its settings
/// are a whole configuration that has one, and its settings otherwise.
pub proof fn law_opencode_entry_goes_live(
    provider: ProviderView,
    snippet: Option<Seq<char>>,
    requested: bool,
    sync: bool,
    plan: Result<LivePlan, AppError>,
)
    requires
        live_plan(AppType::OpenCode, provider, snippet, requested, sync, plan),
    ensures
        plan matches Ok(LivePlan::OpenCode(entry)) && entry@ == (match at(
            provider.settings_config,
            seq!["provider"@, provider.id],
        ) {
            Some(own) => own,
            None => provider.settings_config,
        }),
{
    let path = seq!["provider"@, provider.id];
    assert(path.drop_first() =~= seq![provider.id]);
    assert(path.drop_first().drop_first() =~= Seq::empty());
    reveal_with_fuel(at, 3);
}

/// What goes live of an OpenClaw provider is its settings as they are, where they have an
/// address, an interface or models; otherwise nothing does.
pub proof fn law_openclaw_settings_go_live(
    provider: ProviderView,
    snippet: Option<Seq<char>>,
    requested: bool,
    sync: bool,
    plan: Result<LivePlan, AppError>,
)
    requires
        live_plan(AppType::OpenClaw, provider, snippet, requested, sync, plan),
    ensures
        ({
            let settings = provider.settings_config;
            let named = settings is Object && (settings->Object_0.contains_key("baseUrl"@)
                || settings->Object_0.contains_key("api"@) || settings->Object_0.contains_key(
                "models"@,
            ));
            if named {
                plan matches Ok(LivePlan::OpenClaw(entry)) && entry@ == settings
            } else {
                plan matches Ok(LivePlan::Nothing)
            }
        }),
{
}

/// Where the live files of an application are not to be touched, nothing goes into them.
pub proof fn law_untouched_files_stay(
    app_type: AppType,
    provider: ProviderView,
    snippet: Option<Seq<char>>,
    requested: bool,
    plan: Result<LivePlan, AppError>,
)
    requires
        live_plan(app_type, provider, snippet, requested, false, plan),
        app_type == AppType::Claude || app_type == AppType::Codex || app_type == AppType::Gemini,
    ensures
        plan matches Ok(plan) && (plan is Nothing || plan is GeminiNoted) && (plan is GeminiNoted
            <==> app_type == AppType::Gemini),
{
}

/// The settings file of Gemini holds what the provider says under `config` and, under the
/// names that it does not say, what was there before; where the provider says nothing, the
/// file stays as it was.
pub proof fn law_gemini_settings_file_holds_both(
    content: JsonView,
    existing: JsonReadView,
    file: JsonView,
    key: Seq<char>,
)
    requires
        gemini_settings_file(content, existing) == Ok::<JsonView, ErrorView>(file),
    ensures
        ({
            let before = match existing {
                JsonReadView::Found(json) => json,
                _ => JsonView::Object(Map::empty()),
            };
            let own = at(content, seq!["config"@]);
            let says = own matches Some(JsonView::Object(members)) && members.dom() != Set::<
                Seq<char>,
            >::empty();
            &&& !says ==> file == before && (own is None || own == Some(JsonView::Null) || (
            own->0 is Object))
            &&& says ==> {
                let members = own->0->Object_0;
                &&& file is Object
                &&& members.contains_key(key) ==> file->Object_0.contains_key(key)
                    && file->Object_0[key] == members[key]
                &&& !members.contains_key(key) && before is Object
                    && before->Object_0.contains_key(key) ==> file->Object_0.contains_key(key)
                    && file->Object_0[key] == before->Object_0[key]
                &&& file->Object_0.contains_key(key) ==> members.contains_key(key) || (
                before is Object && before->Object_0.contains_key(key))
            }
        }),
{
    let path = seq!["config"@];
    assert(path.drop_first() =~= Seq::empty());
    reveal_with_fuel(at, 2);
    if let Some(JsonView::Object(members)) = at(content, path) {
        if members.dom() == Set::<Seq<char>>::empty() {
            assert(members =~= Map::empty());
        }
        if members == Map::<Seq<char>, JsonView>::empty() {
            assert(members.dom() =~= Set::empty());
        }
    }
}

/// What is written for a Gemini provider is its environment and its settings file, in this
/// order: the variables that its settings give, none where it is authenticated by an
/// account, and what the settings file is to hold.
pub proof fn law_gemini_files_are_written(
    content: JsonView,
    vars: Seq<(Seq<char>, Seq<char>)>,
    strict: Result<(), ErrorView>,
    existing: JsonReadView,
    auth_type: GeminiAuthType,
    settings: JsonView,
)
    requires
        gemini_live_settings(Ok(content), Ok(vars), strict, existing, auth_type) == Ok::<
            JsonView,
            ErrorView,
        >(settings),
    ensures
        gemini_settings_file(content, existing) == Ok::<JsonView, ErrorView>(settings),
        auth_type == GeminiAuthType::ApiKey ==> strict is Ok,
        ({
            let files = gemini_files(vars, settings, auth_type);
            &&& files.len() == 2
            &&& files[1] == FileActionView::Write(
                LiveFile::GeminiSettings,
                ContentView::Json(settings),
            )
            &&& auth_type == GeminiAuthType::ApiKey ==> files[0] == FileActionView::Write(
                LiveFile::GeminiEnv,
                ContentView::Env(vars),
            )
            &&& auth_type != GeminiAuthType::ApiKey ==> (files[0] matches FileActionView::Write(
                file,
                ContentView::Env(written),
            ) && file == LiveFile::GeminiEnv && written.len() == 0)
        }),
{
}

/// What is backed up of a Codex provider is its authentication as it is stored, and the text
/// that would go live.
pub proof fn law_codex_backup_is_whole(
    provider: ProviderView,
    snippet: Option<Seq<char>>,
    requested: bool,
    existing: JsonReadView,
    backup: JsonView,
    text: Seq<char>,
)
    requires
        live_backup(AppType::Codex, provider, snippet, requested, existing, Ok(backup)),
        provider.settings_config is Object,
        provider.settings_config->Object_0.contains_key("config"@),
        provider.settings_config->Object_0["config"@] == JsonView::Str(text),
    ensures
        backup is Object,
        at(backup, seq!["auth"@]) == at(provider.settings_config, seq!["auth"@]),
        !says_official(provider) && (!requested || was_told_no(provider) || !says_something(
            snippet,
        )) ==> at(backup, seq!["config"@]) == Some(JsonView::Str(text)),
{
    assert(is_official(provider) == says_official(provider));
    assert(seq!["auth"@].drop_first() =~= Seq::empty());
    assert(seq!["config"@].drop_first() =~= Seq::empty());
    reveal_with_fuel(at, 2);
    lemma_codex_names();
    if !says_official(provider) && (!requested || was_told_no(provider) || !says_something(
        snippet,
    )) {
        let live = backup->Object_0["config"@]->Str_0;
        assert(live_text(provider, snippet, false, Ok(live)));
        let own = choose|own: Seq<char>| #[trigger]
            is_own_text(provider, own) && own_text_merged(own, snippet, false, Ok(live));
        assert(is_own_text(provider, own));
    }
}

/// What is backed up of a Gemini provider is its environment, and what its settings file
/// would hold.
pub proof fn law_gemini_backup_is_whole(
    provider: ProviderView,
    snippet: Option<Seq<char>>,
    requested: bool,
    existing: JsonReadView,
    backup: JsonView,
    name: Seq<char>,
    value: JsonView,
)
    requires
        live_backup(AppType::Gemini, provider, snippet, requested, existing, Ok(backup)),
        at(provider.settings_config, seq!["env"@, name]) == Some(value),
        !(value is Object),
    ensures
        at(backup, seq!["env"@, name]) == Some(value),
        !requested || was_told_no(provider) || !says_something(snippet) ==> {
            &&& at(backup, seq!["env"@]) == at(provider.settings_config, seq!["env"@])
            &&& at(backup, seq!["config"@]) matches Some(file) && gemini_settings_file(
                provider.settings_config,
                existing,
            ) == Ok::<JsonView, ErrorView>(file)
        },
{
    let path = seq!["env"@, name];
    assert(path.drop_first() =~= seq![name]);
    assert(path.drop_first().drop_first() =~= Seq::empty());
    assert(seq!["env"@].drop_first() =~= Seq::empty());
    assert(seq!["config"@].drop_first() =~= Seq::empty());
    reveal_with_fuel(at, 3);
    reveal_strlit("env");
    reveal_strlit("config");
    assert("env"@.len() == 3);
    assert("config"@.len() == 6);
    let common = parsed_json(trimmed(snippet->0))->0;
    law_overlay_wins(common, provider.settings_config, path, value);
}

/// The common snippet goes into the live files only where that is asked for, the application
/// has providers that are live one at a time, and the provider does not decline it. It does for
/// Anthropic and Gemini wherever all this holds; and for Codex where the provider was told to
/// take it and it says something.
pub proof fn law_who_takes_the_snippet(
    app_type: AppType,
    provider: ProviderView,
    snippet: Option<Seq<char>>,
    requested: bool,
)
    ensures
        applies_common(app_type, provider, snippet, requested) ==> {
            &&& requested
            &&& app_type != AppType::OpenCode && app_type != AppType::OpenClaw
            &&& !was_told_no(provider)
            &&& app_type == AppType::Codex ==> says_something(snippet)
        },
        requested && !was_told_no(provider) && (app_type == AppType::Claude || app_type
            == AppType::Gemini) ==> applies_common(app_type, provider, snippet, requested),
        requested && was_told_yes(provider) && app_type == AppType::Codex && says_something(snippet)
            ==> applies_common(app_type, provider, snippet, requested),
        was_told_yes(provider) && says_something(snippet) ==> uses_common(
            app_type,
            provider,
            snippet,
        ),
        was_told_no(provider) || !says_something(snippet) ==> !uses_common(
            app_type,
            provider,
            snippet,
        ),
{
}

/// A Codex provider about which nothing was said uses the common snippet where its
/// configuration holds it: one that was laid over by the snippet does, and one that lacks any
/// of its values does not.
pub proof fn law_silent_codex_provider_uses_what_it_holds(
    provider: ProviderView,
    text: Seq<char>,
    snippet: Seq<char>,
    base: TomlView,
    common: TomlView,
    path: Seq<Seq<char>>,
    value: TomlView,
)
    requires
        !was_told_yes(provider),
        !was_told_no(provider),
        !is_blank(snippet),
        provider.settings_config is Object,
        provider.settings_config->Object_0.contains_key("config"@),
        provider.settings_config->Object_0["config"@] == JsonView::Str(text),
        parsed_toml(trimmed(snippet)) == Some(common),
    ensures
        !is_blank(text) && is_comparable(common) && parsed_toml(text) == Some(
            tables_merged(base, common),
        ) ==> uses_common(AppType::Codex, provider, Some(snippet)),
        entry_at(common, path) == Some(value) && is_plain(value) && (parsed_toml(text) matches Some(
            config,
        ) ==> entry_at(config, path) != Some(value)) ==> !uses_common(
            AppType::Codex,
            provider,
            Some(snippet),
        ),
{
    if is_comparable(common) {
        law_merged_is_part(base, common);
    }
    if let Some(config) = parsed_toml(text) {
        if item_is_subset(config, common) && entry_at(common, path) == Some(value) && is_plain(
            value,
        ) {
            crate::toml_path_laws::law_part_is_found(config, common, path, value);
        }
    }
}

/// The files of a Gemini provider are written exactly where its content and environment are
/// there, the settings file can be read, the configuration in the content is an object, null
/// or missing, and, for a provider with a key, nothing is wrong with the content.
pub proof fn law_when_gemini_goes_live(
    content: Result<JsonView, ErrorView>,
    env: Result<Seq<(Seq<char>, Seq<char>)>, ErrorView>,
    strict: Result<(), ErrorView>,
    existing: JsonReadView,
    auth_type: GeminiAuthType,
)
    ensures
        gemini_live_settings(content, env, strict, existing, auth_type) is Ok <==> {
            let own = at(content->Ok_0, seq!["config"@]);
            &&& content is Ok
            &&& env is Ok
            &&& !(existing is Failed)
            &&& own is None || own->0 is Null || own->0 is Object
            &&& auth_type == GeminiAuthType::ApiKey ==> strict is Ok
        },
        content is Err ==> gemini_live_settings(
            content,
            env,
            strict,
            existing,
            auth_type,
        )->Err_0 == content->Err_0,
        content is Ok && env is Err ==> gemini_live_settings(
            content,
            env,
            strict,
            existing,
            auth_type,
        )->Err_0 == env->Err_0,
{
    assert(seq!["config"@].drop_first() =~= Seq::empty());
    reveal_with_fuel(at, 2);
}

/// No proxy stands in for a provider of an application whose providers are all live at once,
/// so nothing is kept of one for that.
pub proof fn law_listed_providers_are_not_backed_up(
    app_type: AppType,
    provider: ProviderView,
    snippet: Option<Seq<char>>,
    requested: bool,
    existing: JsonReadView,
    result: Result<JsonView, ErrorView>,
)
    requires
        live_backup(app_type, provider, snippet, requested, existing, result),
    ensures
        app_type == AppType::OpenCode ==> result == Err::<JsonView, ErrorView>(
            ErrorView::Config("OpenCode does not support proxy takeover backups"@),
        ),
        app_type == AppType::OpenClaw ==> result == Err::<JsonView, ErrorView>(
            ErrorView::Config("OpenClaw does not support proxy takeover backups"@),
        ),
{
}

} // verus!
