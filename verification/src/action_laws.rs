//! What the user interface, the terminal and the live files come to, in terms of what was
//! given.
use vstd::prelude::*;

use crate::editor_actions::{
    auth_applied, holds_config, is_stored_config, models_read, settings_applied, snippet_accepted,
    snippet_refused, stored_or_told, with_setting,
};
use crate::error::ErrorView;
use crate::i18n::{Language, LanguageStoreView};
use crate::json::JsonView;
use crate::json_value::{is_pretty_text, json_parse_error, parsed_json, pretty_fails};
use crate::live_files::{after_actions, captured, ContentView, LiveFile, LiveRead};
use crate::model::{AppType, ProviderView};
use crate::notices::{EffectsView, NoticeView, ToastKind};
use crate::path_laws::at;
use crate::provider_actions::{
    after_check, after_speedtest, default_model_of, fetching, ids_of_models, proxy_needed, refers_to,
    refs_but, removal, row_found, uses_provider, ClaudeApiFormat, DefaultModelView,
    OverlayView, ProviderRow, Removal,
};
use crate::service::ActionView;
use crate::terminal::{first_failure, step_after, RestoredStep, TuiTerminal};
use crate::text::{first_place, is_blank, lowercase, trimmed};
use crate::toml_doc::{parsed_text, parsed_toml, toml_parse_error};
use crate::toml_plain::plain_table;
use crate::transaction::{follow_ups, following, FollowUp, StepView};

verus! {

/// A provider needs the local proxy exactly where it is one of Anthropic and its settings
/// name one of the two interfaces of OpenAI.
pub proof fn law_when_a_proxy_is_needed(app_type: AppType, provider: ProviderView)
    ensures
        ({
            let named = at(provider.settings_config, seq!["api_format"@]);
            let foreign = app_type == AppType::Claude && (named == Some(
                JsonView::Str("openai_chat"@),
            ) || named == Some(JsonView::Str("openai_responses"@)));
            &&& proxy_needed(app_type, provider) is Some <==> foreign
            &&& foreign ==> named == Some(JsonView::Str(proxy_needed(app_type, provider)->0))
        }),
{
    assert(seq!["api_format"@].drop_first() =~= Seq::empty());
    reveal_with_fuel(at, 2);
    reveal_strlit("openai_chat");
    reveal_strlit("openai_responses");
    assert("openai_chat"@.len() == 11);
    assert("openai_responses"@.len() == 16);
}

/// The name of an interface is read as that interface, and any other name as that of
/// Anthropic.
pub proof fn law_interfaces_by_name(format: ClaudeApiFormat, name: Seq<char>)
    ensures
        ClaudeApiFormat::named(format.name()) == format,
        ClaudeApiFormat::named(name) != ClaudeApiFormat::Anthropic ==> ClaudeApiFormat::named(
            name,
        ).name() == name,
        ClaudeApiFormat::Anthropic.name() == "anthropic"@,
        ClaudeApiFormat::OpenAiChat.name() == "openai_chat"@,
        ClaudeApiFormat::OpenAiResponses.name() == "openai_responses"@,
{
    reveal_strlit("anthropic");
    reveal_strlit("openai_chat");
    reveal_strlit("openai_responses");
    assert("anthropic"@.len() == 9);
    assert("openai_chat"@.len() == 11);
    assert("openai_responses"@.len() == 16);
}

/// The row that is found is the first with its identifier, and none is found only where
/// there is none.
pub proof fn law_first_row_is_found(rows: Seq<ProviderRow>, id: Seq<char>, place: int)
    ensures
        row_found(rows, id) is None ==> forall|i: int|
            0 <= i < rows.len() ==> (#[trigger] rows[i]).id@ != id,
        row_found(rows, id) is Some ==> row_found(rows, id)->0.id@ == id,
        0 <= place < rows.len() && rows[place].id@ == id && (forall|i: int|
            0 <= i < place ==> (#[trigger] rows[i]).id@ != id) ==> row_found(rows, id) == Some(
            rows[place],
        ),
    decreases rows.len(),
{
    if rows.len() > 0 && rows[0].id@ != id {
        let rest = rows.drop_first();
        law_first_row_is_found(rest, id, place - 1);
        if row_found(rows, id) is None {
            assert forall|i: int| 0 <= i < rows.len() implies (#[trigger] rows[i]).id@ != id by {
                if i > 0 {
                    assert(rest[i - 1] == rows[i]);
                }
            }
        }
        if 0 < place < rows.len() && (forall|i: int|
            0 <= i < place ==> (#[trigger] rows[i]).id@ != id) {
            assert(rest[place - 1] == rows[place]);
            assert forall|i: int| 0 <= i < place - 1 implies (#[trigger] rest[i]).id@ != id by {
                assert(rest[i] == rows[i + 1]);
            }
        }
    }
}

/// Whether a model of a list has that identifier.
pub open spec fn lists_model(models: Seq<JsonView>, id: Seq<char>) -> bool {
    exists|i: int|
        0 <= i < models.len() && at(#[trigger] models[i], seq!["id"@]) == Some(JsonView::Str(id))
}

/// What is read under a single name.
proof fn lemma_at_name(json: JsonView, name: Seq<char>)
    ensures
        at(json, seq![name]) == crate::json::field(json, name),
{
    assert(seq![name].drop_first() =~= Seq::empty());
    reveal_with_fuel(at, 2);
}

/// The identifiers of models are those that models have, and the first is that of the first
/// model that has one.
proof fn lemma_model_ids(models: Seq<JsonView>, id: Seq<char>, place: int)
    ensures
        ids_of_models(models).contains(id) <==> lists_model(models, id),
        0 <= place < models.len() && at(models[place], seq!["id"@]) == Some(JsonView::Str(id))
            && (forall|i: int|
            0 <= i < place ==> !(at(#[trigger] models[i], seq!["id"@]) matches Some(
                JsonView::Str(_),
            ))) ==> ids_of_models(models).len() > 0 && ids_of_models(models)[0] == id,
        (forall|i: int|
            0 <= i < models.len() ==> !(at(#[trigger] models[i], seq!["id"@]) matches Some(
                JsonView::Str(_),
            ))) ==> ids_of_models(models).len() == 0,
    decreases models.len(),
{
    if models.len() > 0 {
        let before = models.drop_last();
        let earlier = ids_of_models(before);
        let all = ids_of_models(models);
        lemma_model_ids(before, id, place);
        lemma_at_name(models.last(), "id"@);
        assert(models[models.len() - 1] == models.last());
        assert forall|i: int| 0 <= i < before.len() implies #[trigger] before[i] == models[i] by {}
        if lists_model(before, id) {
            let i = choose|i: int|
                0 <= i < before.len() && at(#[trigger] before[i], seq!["id"@]) == Some(
                    JsonView::Str(id),
                );
            assert(at(models[i], seq!["id"@]) == Some(JsonView::Str(id)));
            let j = choose|j: int| 0 <= j < earlier.len() && earlier[j] == id;
            assert(all[j] == id);
        }
        if lists_model(models, id) && !lists_model(before, id) {
            let i = choose|i: int|
                0 <= i < models.len() && at(#[trigger] models[i], seq!["id"@]) == Some(
                    JsonView::Str(id),
                );
            if i < before.len() {
                assert(at(before[i], seq!["id"@]) == Some(JsonView::Str(id)));
            }
            assert(all[all.len() - 1] == id);
        }
        if all.contains(id) && !earlier.contains(id) {
            let j = choose|j: int| 0 <= j < all.len() && all[j] == id;
            if j < earlier.len() {
                assert(earlier[j] == id);
            }
            assert(at(models[models.len() - 1], seq!["id"@]) == Some(JsonView::Str(id)));
        }
        if forall|i: int|
            0 <= i < models.len() ==> !(at(#[trigger] models[i], seq!["id"@]) matches Some(
                JsonView::Str(_),
            )) {
            assert forall|i: int| 0 <= i < before.len() implies !(at(
                #[trigger] before[i],
                seq!["id"@],
            ) matches Some(JsonView::Str(_))) by {
                assert(before[i] == models[i]);
            }
        }
        if forall|i: int|
            0 <= i < place ==> !(at(#[trigger] models[i], seq!["id"@]) matches Some(
                JsonView::Str(_),
            )) {
            if place < models.len() {
                assert forall|i: int| 0 <= i < place && i < before.len() implies !(at(
                    #[trigger] before[i],
                    seq!["id"@],
                ) matches Some(JsonView::Str(_))) by {
                    assert(before[i] == models[i]);
                }
            }
            if 0 <= place < before.len() && at(models[place], seq!["id"@]) == Some(
                JsonView::Str(id),
            ) {
                assert(before[place] == models[place]);
                assert(all[0] == earlier[0]);
            }
        }
    }
}

/// The models to fall back to are all models but the first.
proof fn lemma_fallbacks(
    provider_id: Seq<char>,
    ids: Seq<Seq<char>>,
    primary: Seq<char>,
    model: Seq<char>,
)
    ensures
        ids.contains(model) && model != primary ==> refs_but(provider_id, ids, primary).contains(
            provider_id + "/"@ + model,
        ),
        forall|i: int|
            0 <= i < refs_but(provider_id, ids, primary).len() ==> exists|j: int|
                0 <= j < ids.len() && #[trigger] ids[j] != primary
                    && #[trigger] refs_but(provider_id, ids, primary)[i] == provider_id + "/"@
                    + ids[j],
    decreases ids.len(),
{
    if ids.len() > 0 {
        let before = ids.drop_last();
        let earlier = refs_but(provider_id, before, primary);
        let all = refs_but(provider_id, ids, primary);
        lemma_fallbacks(provider_id, before, primary, model);
        assert(ids[ids.len() - 1] == ids.last());
        if ids.contains(model) && model != primary {
            let j = choose|j: int| 0 <= j < ids.len() && ids[j] == model;
            if j < before.len() {
                assert(before[j] == model);
                let k = choose|k: int|
                    0 <= k < earlier.len() && earlier[k] == provider_id + "/"@ + model;
                assert(all[k] == provider_id + "/"@ + model);
            } else {
                assert(all[all.len() - 1] == provider_id + "/"@ + model);
            }
        }
        assert forall|i: int| 0 <= i < all.len() implies exists|j: int|
            0 <= j < ids.len() && #[trigger] ids[j] != primary && #[trigger] all[i] == provider_id
                + "/"@ + ids[j] by {
            if i < earlier.len() {
                assert(all[i] == earlier[i]);
                let j = choose|j: int|
                    0 <= j < before.len() && #[trigger] before[j] != primary
                        && #[trigger] earlier[i] == provider_id + "/"@ + before[j];
                assert(ids[j] == before[j]);
            } else {
                assert(ids[ids.len() - 1] != primary);
                assert(all[i] == provider_id + "/"@ + ids[ids.len() - 1]);
            }
        }
    }
}

/// The default model that a provider gives is the first of its models that has an
/// identifier, whatever else was asked for; the others are what to fall back to, and nothing
/// else is. There is one exactly where the provider is there and has such a model, and what
/// else the default model held stays.
pub proof fn law_first_model_is_default(
    provider_id: Seq<char>,
    live: Option<JsonView>,
    extra: JsonView,
    models: Seq<JsonView>,
    place: int,
    id: Seq<char>,
    other: Seq<char>,
)
    requires
        live is Some ==> at(live->0, seq!["models"@]) == Some(JsonView::Array(models)),
    ensures
        ({
            let result = default_model_of(provider_id, live, extra);
            &&& live is None || (forall|i: int|
                0 <= i < models.len() ==> !(at(#[trigger] models[i], seq!["id"@]) matches Some(
                    JsonView::Str(_),
                ))) ==> result is Err
            &&& live is Some && 0 <= place < models.len() && at(models[place], seq!["id"@])
                == Some(JsonView::Str(id)) && (forall|i: int|
                0 <= i < place ==> !(at(#[trigger] models[i], seq!["id"@]) matches Some(
                    JsonView::Str(_),
                ))) ==> {
                &&& result is Ok
                &&& result->Ok_0.primary == provider_id + "/"@ + id
                &&& result->Ok_0.extra == extra
                &&& lists_model(models, other) && other != id
                    ==> result->Ok_0.fallbacks.contains(provider_id + "/"@ + other)
                &&& forall|i: int|
                    #![trigger result->Ok_0.fallbacks[i]]
                    0 <= i < result->Ok_0.fallbacks.len() ==> is_other_model(
                        provider_id,
                        models,
                        id,
                        result->Ok_0.fallbacks[i],
                    )
            }
        }),
{
    if live is Some {
        lemma_at_name(live->0, "models"@);
        lemma_model_ids(models, id, place);
        lemma_model_ids(models, other, place);
        let ids = ids_of_models(models);
        if ids.len() > 0 {
            lemma_fallbacks(provider_id, ids, ids[0], other);
            let refs = refs_but(provider_id, ids, ids[0]);
            assert forall|i: int| #![trigger refs[i]] 0 <= i < refs.len() implies is_other_model(
                provider_id,
                models,
                ids[0],
                refs[i],
            ) by {
                let j = choose|j: int|
                    0 <= j < ids.len() && #[trigger] ids[j] != ids[0] && #[trigger] refs[i]
                        == provider_id + "/"@ + ids[j];
                lemma_model_ids(models, ids[j], place);
                assert(ids.contains(ids[j]));
            }
        }
    }
}

/// Whether a reference is to a model of a provider other than one.
pub open spec fn is_other_model(
    provider_id: Seq<char>,
    models: Seq<JsonView>,
    first: Seq<char>,
    reference: Seq<char>,
) -> bool {
    exists|model: Seq<char>| #[trigger]
        lists_model(models, model) && model != first && reference == provider_id + "/"@ + model
}

/// The first place of a character holds that character, and no place before it does.
proof fn lemma_first_place_is_first(text: Seq<char>, c: char)
    ensures
        first_place(text, c) is None ==> !text.contains(c),
        first_place(text, c) is Some ==> 0 <= first_place(text, c)->0 < text.len()
            && text[first_place(text, c)->0] == c && !text.take(first_place(text, c)->0).contains(
            c,
        ),
    decreases text.len(),
{
    if text.len() > 0 && text[0] != c {
        let rest = text.drop_first();
        lemma_first_place_is_first(rest, c);
        if first_place(rest, c) is None {
            assert forall|i: int| 0 <= i < text.len() implies text[i] != c by {
                if i > 0 {
                    assert(rest[i - 1] == text[i]);
                    assert(rest.contains(rest[i - 1]));
                }
            }
        } else {
            let place = first_place(rest, c)->0;
            let before = text.take(place + 1);
            assert(text[place + 1] == rest[place]);
            assert forall|i: int| 0 <= i < before.len() implies before[i] != c by {
                if i > 0 {
                    assert(rest.take(place)[i - 1] == before[i]);
                    assert(rest.take(place).contains(rest.take(place)[i - 1]));
                }
            }
        }
    } else if text.len() > 0 {
        assert(text.take(0) =~= Seq::empty());
    }
}

/// A reference is to a model of a provider exactly where it is the identifier of the
/// provider, which holds no slash, a slash, and the model.
pub proof fn law_reference_names_provider(
    reference: Seq<char>,
    provider_id: Seq<char>,
    model: Seq<char>,
)
    ensures
        !provider_id.contains('/') && reference == provider_id + "/"@ + model ==> refers_to(
            reference,
            provider_id,
        ),
        refers_to(reference, provider_id) ==> !provider_id.contains('/') && (provider_id
            + "/"@).is_prefix_of(reference),
{
    reveal_strlit("/");
    lemma_first_place_is_first(reference, '/');
    if !provider_id.contains('/') && reference == provider_id + "/"@ + model {
        let n = provider_id.len() as int;
        assert(reference[n] == '/');
        assert(reference.contains('/'));
        let place = first_place(reference, '/')->0;
        if place < n {
            assert(provider_id[place] == '/');
        }
        if place > n {
            assert(reference.take(place)[n] == '/');
            assert(reference.take(place).contains('/'));
        }
        assert(reference.take(place) =~= provider_id);
    }
    if refers_to(reference, provider_id) {
        let place = first_place(reference, '/')->0;
        assert((provider_id + "/"@) =~= reference.take(place + 1));
    }
}

/// A provider of OpenClaw can leave the configuration unless the default model, or one to
/// fall back to, is one of its models; it stays stored. One of another application is
/// deleted.
pub proof fn law_when_a_provider_can_leave(
    app_type: AppType,
    id: Seq<char>,
    model: Option<DefaultModelView>,
    place: int,
)
    ensures
        app_type != AppType::OpenClaw ==> removal(app_type, id, model) == Ok::<Removal, ErrorView>(
            Removal::Deleted,
        ),
        app_type == AppType::OpenClaw && model is None ==> removal(app_type, id, model) == Ok::<
            Removal,
            ErrorView,
        >(Removal::FromLiveConfig),
        app_type == AppType::OpenClaw && model is Some && (refers_to(model->0.primary, id) || (0
            <= place < model->0.fallbacks.len() && refers_to(model->0.fallbacks[place], id)))
            ==> removal(app_type, id, model) is Err,
        app_type == AppType::OpenClaw && model is Some && !refers_to(model->0.primary, id) && (
        forall|i: int|
            0 <= i < model->0.fallbacks.len() ==> !refers_to(#[trigger] model->0.fallbacks[i], id))
            ==> removal(app_type, id, model) == Ok::<Removal, ErrorView>(Removal::FromLiveConfig),
{
    if let Some(model) = model {
        if 0 <= place < model.fallbacks.len() && refers_to(model.fallbacks[place], id) {
            assert(uses_provider(model, id));
        }
    }
}

/// Of what lies over the page, only the test or check that is over is closed; and the list of
/// models starts empty.
pub proof fn law_only_what_is_over_is_closed(
    overlay: OverlayView,
    name: Seq<char>,
    request_id: u64,
    index: Option<usize>,
)
    ensures
        overlay == (OverlayView::SpeedtestRunning { url: name }) ==> after_speedtest(overlay, name)
            == OverlayView::Nothing,
        overlay != (OverlayView::SpeedtestRunning { url: name }) ==> after_speedtest(overlay, name)
            == overlay,
        overlay == (OverlayView::StreamCheckRunning { provider_id: name }) ==> after_check(
            overlay,
            name,
        ) == OverlayView::Nothing,
        overlay != (OverlayView::StreamCheckRunning { provider_id: name }) ==> after_check(
            overlay,
            name,
        ) == overlay,
        fetching(request_id, name, index).request_id == request_id,
        fetching(request_id, name, index).field == name,
        fetching(request_id, name, index).claude_idx == index,
        fetching(request_id, name, index).fetching,
        fetching(request_id, name, index).models.len() == 0,
        fetching(request_id, name, index).error is None,
        fetching(request_id, name, index).selected_idx == 0,
        fetching(request_id, name, index).input == ""@,
        fetching(request_id, name, index).query == ""@,
{
}

/// Whether a provider in a form is another one but for one setting.
pub open spec fn differs_in_setting(
    before: JsonView,
    now: JsonView,
    key: Seq<char>,
    value: JsonView,
    name: Seq<char>,
) -> bool {
    let had = at(before, seq!["settingsConfig"@]) is Some;
    &&& !had ==> now == before
    &&& had ==> at(now, seq!["settingsConfig"@, key]) == Some(value)
    &&& name != "settingsConfig"@ ==> at(now, seq![name]) == at(before, seq![name])
    &&& had && name != key && at(before, seq!["settingsConfig"@])->0 is Object ==> at(
        now,
        seq!["settingsConfig"@, name],
    ) == at(before, seq!["settingsConfig"@, name])
}

/// Putting a setting into a provider changes nothing else.
proof fn lemma_setting(provider: JsonView, key: Seq<char>, value: JsonView, name: Seq<char>)
    ensures
        differs_in_setting(provider, with_setting(provider, key, value), key, value, name),
{
    let now = with_setting(provider, key, value);
    lemma_at_name(provider, "settingsConfig"@);
    lemma_at_name(provider, name);
    lemma_at_name(now, name);
    assert(seq!["settingsConfig"@, key].drop_first() =~= seq![key]);
    assert(seq!["settingsConfig"@, name].drop_first() =~= seq![name]);
    if let Some(settings) = crate::json::field(provider, "settingsConfig"@) {
        let changed = now->Object_0["settingsConfig"@];
        lemma_at_name(changed, key);
        lemma_at_name(changed, name);
        lemma_at_name(settings, name);
        assert(at(now, seq!["settingsConfig"@, key]) == at(changed, seq![key]));
        assert(at(now, seq!["settingsConfig"@, name]) == at(changed, seq![name]));
        assert(at(provider, seq!["settingsConfig"@, name]) == at(settings, seq![name]));
    }
}

/// Settings from the editor are taken where they are an object, which is then what the form
/// holds as settings; everything else in the form stays.
pub proof fn law_settings_from_the_editor(
    content: Seq<char>,
    form: Option<JsonView>,
    name: Seq<char>,
)
    ensures
        ({
            let json = parsed_json(content);
            let result = settings_applied(content, form);
            &&& result is Ok <==> json is Some && json->0 is Object
            &&& json is None ==> result->Err_0 == NoticeView::InvalidJson(json_parse_error(content))
            &&& json is Some && !(json->0 is Object) ==> result->Err_0
                == NoticeView::JsonMustBeObject
            &&& result is Ok && form is None ==> result->Ok_0 is None
            &&& result is Ok && form is Some ==> result->Ok_0 is Some && {
                let now = result->Ok_0->0;
                &&& form->0 is Object ==> at(now, seq!["settingsConfig"@]) == json
                &&& name != "settingsConfig"@ ==> at(now, seq![name]) == at(form->0, seq![name])
            }
        }),
{
    if let Some(provider) = form {
        let result = settings_applied(content, form);
        if result is Ok {
            lemma_at_name(result->Ok_0->0, "settingsConfig"@);
            lemma_at_name(result->Ok_0->0, name);
            lemma_at_name(provider, name);
        }
    }
}

/// Credentials from the editor are taken where they are an object, which is then what the
/// settings in the form hold under `auth`; everything else in the form stays.
pub proof fn law_credentials_from_the_editor(
    content: Seq<char>,
    form: Option<JsonView>,
    name: Seq<char>,
)
    ensures
        ({
            let json = parsed_json(content);
            let result = auth_applied(content, form);
            &&& result is Ok <==> json is Some && json->0 is Object
            &&& json is None ==> result->Err_0 == NoticeView::InvalidJson(json_parse_error(content))
            &&& json is Some && !(json->0 is Object) ==> result->Err_0
                == NoticeView::JsonMustBeObject
            &&& result is Ok && form is None ==> result->Ok_0 is None
            &&& result is Ok && form is Some ==> result->Ok_0 is Some && differs_in_setting(
                form->0,
                result->Ok_0->0,
                "auth"@,
                json->0,
                name,
            )
        }),
{
    if form is Some && parsed_json(content) is Some {
        lemma_setting(form->0, "auth"@, parsed_json(content)->0, name);
    }
}

/// A configuration from the editor is what the settings in the form hold under `config`, as
/// its reader writes it, and an empty one where it is blank; everything else in the form
/// stays.
pub proof fn law_configuration_from_the_editor(
    content: Seq<char>,
    form: Option<JsonView>,
    result: Option<JsonView>,
    name: Seq<char>,
)
    requires
        holds_config(content, form, result),
        is_blank(content) || parsed_toml(content) is Some,
    ensures
        form is None ==> result is None,
        form is Some ==> result is Some && differs_in_setting(
            form->0,
            result->0,
            "config"@,
            JsonView::Str(
                if is_blank(content) {
                    Seq::empty()
                } else {
                    parsed_text(content)
                },
            ),
            name,
        ),
{
    reveal_strlit("");
    assert(""@ =~= Seq::empty());
    if let Some(provider) = form {
        let stored = choose|stored: Seq<char>| #[trigger]
            is_stored_config(content, stored) && result == Some(
                with_setting(provider, "config"@, JsonView::Str(stored)),
            );
        lemma_setting(provider, "config"@, JsonView::Str(stored), name);
    }
}

/// A list of models from the editor is taken where it is an array.
pub proof fn law_models_from_the_editor(content: Seq<char>)
    ensures
        ({
            let json = parsed_json(content);
            let result = models_read(content);
            &&& result is Ok <==> json is Some && json->0 is Array
            &&& result is Ok ==> result->Ok_0 == json->0
            &&& json is None ==> result->Err_0 == NoticeView::InvalidJson(json_parse_error(content))
            &&& json is Some && !(json->0 is Array) ==> result->Err_0 == NoticeView::JsonMustBeArray
        }),
{
}

/// A common snippet from the editor is either taken or refused. A blank one clears what was
/// stored; one of Codex is taken where it is a document, and any other where it is an object
/// of JSON that can be written.
pub proof fn law_snippet_from_the_editor(
    app_type: AppType,
    edited: Seq<char>,
    next: Option<Seq<char>>,
    done: NoticeView,
    notice: NoticeView,
)
    ensures
        snippet_accepted(app_type, edited, next, done) ==> {
            &&& edited.len() == 0 <==> next is None
            &&& next is None <==> done is SnippetCleared
            &&& next is Some <==> done is SnippetSaved
            &&& next is Some && app_type == AppType::Codex ==> parsed_toml(edited) is Some
                && next->0 == trimmed(parsed_text(edited))
            &&& next is Some && app_type != AppType::Codex ==> parsed_json(edited) is Some
                && parsed_json(edited)->0 is Object && is_pretty_text(
                next->0,
                parsed_json(edited)->0,
            )
        },
        snippet_refused(app_type, edited, notice) ==> {
            &&& edited.len() > 0
            &&& app_type == AppType::Codex ==> parsed_toml(edited) is None && notice
                == NoticeView::InvalidToml(toml_parse_error(edited))
            &&& app_type != AppType::Codex && parsed_json(edited) is None ==> notice
                == NoticeView::InvalidSnippetJson(json_parse_error(edited))
            &&& app_type != AppType::Codex && parsed_json(edited) is Some && !(parsed_json(
                edited,
            )->0 is Object) ==> notice is SnippetNotObject
            &&& app_type != AppType::Codex && parsed_json(edited) is Some && parsed_json(edited)->0
                is Object ==> notice is SerializationFailed && pretty_fails(parsed_json(edited)->0)
        },
{
}

/// What could not be stored is told, and everything stays open and as it is; what was stored
/// closes the editor and the form, is told, and is loaded again.
pub proof fn law_failures_keep_the_form_open(
    result: Result<(), ErrorView>,
    done: NoticeView,
    notice: NoticeView,
)
    ensures
        ({
            let effects = stored_or_told(result, done);
            &&& effects.close_editor == result is Ok
            &&& effects.close_form == result is Ok
            &&& effects.reload == result is Ok
            &&& result is Ok ==> effects.notice == Some(done)
            &&& result is Err ==> effects.notice == Some(NoticeView::Failed(result->Err_0))
        }),
        ({
            let told = EffectsView::told(notice);
            &&& !told.close_editor
            &&& !told.close_form
            &&& !told.reload
            &&& told.notice == Some(notice)
        }),
{
}

/// What was done as wished is shown as a success, what is left to the user or was skipped as
/// a warning, and what failed as an error.
pub proof fn law_how_notices_are_shown(notice: NoticeView)
    ensures
        notice.toast_kind() == (match notice {
            NoticeView::InvalidJson(_) => ToastKind::Error,
            NoticeView::JsonMustBeObject => ToastKind::Error,
            NoticeView::JsonMustBeArray => ToastKind::Error,
            NoticeView::InvalidToml(_) => ToastKind::Error,
            NoticeView::InvalidSnippetJson(_) => ToastKind::Error,
            NoticeView::SnippetNotObject => ToastKind::Error,
            NoticeView::SerializationFailed(_) => ToastKind::Error,
            NoticeView::FormRejected(_) => ToastKind::Error,
            NoticeView::Failed(_) => ToastKind::Error,
            NoticeView::PromptNotFound(_) => ToastKind::Error,
            NoticeView::ProviderNotAdded => ToastKind::Error,
            NoticeView::SpeedtestRequestFailed(_) => ToastKind::Error,
            NoticeView::StreamCheckRequestFailed(_) => ToastKind::Error,
            NoticeView::ProviderFieldsMissing => ToastKind::Warning,
            NoticeView::ProviderNameMissing => ToastKind::Warning,
            NoticeView::McpFieldsMissing => ToastKind::Warning,
            NoticeView::PluginSyncFailed(_) => ToastKind::Warning,
            NoticeView::SpeedtestDisabled => ToastKind::Warning,
            NoticeView::StreamCheckDisabled => ToastKind::Warning,
            NoticeView::ModelFetchDisabled => ToastKind::Warning,
            _ => ToastKind::Success,
        }),
{
}

/// What is reported in the end of a change that failed is the first failure, where taking it
/// back went well; where that failed too, both are told. A step that went well leads on, and
/// what is over stays over.
pub proof fn law_what_is_reported(
    step: StepView,
    outcome: Result<(), (ErrorView, Seq<char>)>,
    has_action: bool,
)
    ensures
        ({
            let next = following(step, outcome, has_action);
            &&& step is Save && outcome is Err ==> next == StepView::UndoSave(
                outcome->Err_0.0,
                outcome->Err_0.1,
            )
            &&& step is Apply && outcome is Err ==> next == StepView::RollBack(
                outcome->Err_0.0,
                outcome->Err_0.1,
            )
            &&& step is Save && outcome is Ok ==> next == (if has_action {
                StepView::Apply
            } else {
                StepView::Finish(Ok(()))
            })
            &&& step is Apply && outcome is Ok ==> next == StepView::Finish(Ok(()))
            &&& step is UndoSave && outcome is Ok ==> next == StepView::Finish(
                Err(step->UndoSave_0),
            )
            &&& step is RollBack && outcome is Ok ==> next == StepView::Finish(
                Err(step->RollBack_0),
            )
            &&& step is UndoSave && outcome is Err ==> next == StepView::Finish(
                Err(
                    ErrorView::Localized {
                        key: "config.save.rollback_failed"@,
                        zh: "保存配置失败: "@ + step->UndoSave_1 + "；回滚失败: "@
                            + outcome->Err_0.1,
                        en: "Failed to save config: "@ + step->UndoSave_1 + "; rollback failed: "@
                            + outcome->Err_0.1,
                    },
                ),
            )
            &&& step is RollBack && outcome is Err ==> next == StepView::Finish(
                Err(
                    ErrorView::Localized {
                        key: "post_commit.rollback_failed"@,
                        zh: "后置操作失败: "@ + step->RollBack_1 + "；回滚失败: "@
                            + outcome->Err_0.1,
                        en: "Post-commit step failed: "@ + step->RollBack_1
                            + "; rollback failed: "@ + outcome->Err_0.1,
                    },
                ),
            )
            &&& step is Finish ==> next == step
        }),
{
}

/// What follows a change: the provider is written to the live files, or kept for the proxy
/// that stands in; then the servers are written where they are to be; then the provider is
/// refreshed where it is to be, no proxy stands in and the live files are to be touched; and
/// in the end, always, the skills are written. Nothing follows twice.
pub proof fn law_follow_ups_in_order(action: ActionView, sync: bool, i: int, j: int)
    ensures
        ({
            let steps = follow_ups(action, sync);
            let refreshes = action.refresh_snapshot && !action.takeover_active && sync;
            &&& steps.contains(FollowUp::WriteLive) == !action.takeover_active
            &&& steps.contains(FollowUp::SaveBackup) == action.takeover_active
            &&& steps.contains(FollowUp::SyncMcp) == action.sync_mcp
            &&& steps.contains(FollowUp::Refresh) == refreshes
            &&& steps.len() > 0
            &&& steps.last() == FollowUp::SyncSkills
            &&& steps[0] == FollowUp::WriteLive || steps[0] == FollowUp::SaveBackup
            &&& 0 <= i < j < steps.len() ==> steps[i] != steps[j]
            &&& 0 <= i < steps.len() && 0 <= j < steps.len() && steps[i] == FollowUp::SyncMcp
                && steps[j] == FollowUp::Refresh ==> i < j
        }),
{
    let steps = follow_ups(action, sync);
    let last = steps.len() - 1;
    assert(steps[last] == FollowUp::SyncSkills);
    if action.takeover_active {
        assert(steps[0] == FollowUp::SaveBackup);
    } else {
        assert(steps[0] == FollowUp::WriteLive);
    }
    if action.sync_mcp {
        assert(steps[1] == FollowUp::SyncMcp);
    }
    if action.refresh_snapshot && !action.takeover_active && sync {
        assert(steps[last - 1] == FollowUp::Refresh);
    }
}

/// Whether a file of a document, once put back, is what was read of it.
pub open spec fn is_as_read(
    after: Map<LiveFile, ContentView>,
    file: LiveFile,
    content: Option<ContentView>,
) -> bool {
    &&& after.contains_key(file) == content is Some
    &&& content is Some ==> after[file] == content->0
}

/// Live files that were kept are put back as they were read, whatever has become of them, and
/// no other file is touched: a document or text that was found is there again, and one that
/// was missing is gone. They cannot be kept where one of them could not be read, or where the
/// configuration of Codex is no document.
pub proof fn law_captured_files_are_put_back(
    read: LiveRead,
    files: Map<LiveFile, ContentView>,
    other: LiveFile,
)
    ensures
        ({
            let kept = captured(read);
            let after = after_actions(files, kept->Ok_0.restoring());
            match read {
                LiveRead::Claude { settings } => {
                    &&& kept is Err <==> settings@ is Failed
                    &&& kept is Ok ==> is_as_read(
                        after,
                        LiveFile::ClaudeSettings,
                        if settings@ is Found {
                            Some(ContentView::Json(settings@->Found_0))
                        } else {
                            None
                        },
                    )
                    &&& kept is Ok && other != LiveFile::ClaudeSettings ==> is_untouched(
                        files,
                        after,
                        other,
                    )
                },
                LiveRead::Codex { auth, config } => {
                    &&& kept is Err <==> auth@ is Failed || config@ is Failed || (config@ is Found
                        && !is_blank(config@->Found_0) && plain_table(config@->Found_0) is None)
                    &&& kept is Ok ==> is_as_read(
                        after,
                        LiveFile::CodexAuth,
                        if auth@ is Found {
                            Some(ContentView::Json(auth@->Found_0))
                        } else {
                            None
                        },
                    ) && is_as_read(
                        after,
                        LiveFile::CodexConfig,
                        if config@ is Found {
                            Some(ContentView::Text(config@->Found_0))
                        } else {
                            None
                        },
                    )
                    &&& kept is Ok && other != LiveFile::CodexAuth && other != LiveFile::CodexConfig
                        ==> is_untouched(files, after, other)
                },
                LiveRead::Gemini { env, settings } => {
                    &&& kept is Err <==> env is Failed || settings@ is Failed
                    &&& kept is Ok ==> is_as_read(
                        after,
                        LiveFile::GeminiEnv,
                        if env is Found {
                            Some(ContentView::Env(crate::live_files::vars_view(env->Found_0@)))
                        } else {
                            None
                        },
                    ) && is_as_read(
                        after,
                        LiveFile::GeminiSettings,
                        if settings@ is Found {
                            Some(ContentView::Json(settings@->Found_0))
                        } else {
                            None
                        },
                    )
                    &&& kept is Ok && other != LiveFile::GeminiEnv && other
                        != LiveFile::GeminiSettings ==> is_untouched(files, after, other)
                },
                LiveRead::OpenCode { config } => {
                    &&& kept is Err <==> config@ is Failed
                    &&& kept is Ok ==> is_as_read(
                        after,
                        LiveFile::OpenCodeConfig,
                        if config@ is Found {
                            Some(ContentView::Json(config@->Found_0))
                        } else {
                            None
                        },
                    )
                    &&& kept is Ok && other != LiveFile::OpenCodeConfig ==> is_untouched(
                        files,
                        after,
                        other,
                    )
                },
                LiveRead::OpenClaw { source } => {
                    &&& kept is Err <==> source@ is Failed
                    &&& kept is Ok ==> is_as_read(
                        after,
                        LiveFile::OpenClawConfig,
                        if source@ is Found {
                            Some(ContentView::Text(source@->Found_0))
                        } else {
                            None
                        },
                    )
                    &&& kept is Ok && other != LiveFile::OpenClawConfig ==> is_untouched(
                        files,
                        after,
                        other,
                    )
                },
            }
        }),
{
    if let Ok(snapshot) = captured(read) {
        let actions = snapshot.restoring();
        reveal_with_fuel(after_actions, 3);
        if actions.len() == 2 {
            assert(actions.drop_last().drop_last() =~= Seq::empty());
            assert(actions.drop_last().last() == actions[0]);
            assert(actions.last() == actions[1]);
        } else {
            assert(actions.drop_last() =~= Seq::empty());
            assert(actions.last() == actions[0]);
        }
    }
}

/// Whether a file is what it was.
pub open spec fn is_untouched(
    before: Map<LiveFile, ContentView>,
    after: Map<LiveFile, ContentView>,
    file: LiveFile,
) -> bool {
    &&& after.contains_key(file) == before.contains_key(file)
    &&& before.contains_key(file) ==> after[file] == before[file]
}

/// Of steps that are all taken, the first that fails is what is told, and there is nothing to
/// tell only where none fails.
pub proof fn law_first_failure_is_told(steps: Seq<Result<(), String>>, place: int)
    ensures
        first_failure(steps) is None <==> forall|i: int|
            0 <= i < steps.len() ==> #[trigger] steps[i] is Ok,
        0 <= place < steps.len() && steps[place] is Err && (forall|i: int|
            0 <= i < place ==> #[trigger] steps[i] is Ok) ==> first_failure(steps) == Some(
            ErrorView::Localized {
                key: "tui_terminal_error"@,
                zh: "终端错误: "@ + steps[place]->Err_0@,
                en: "Terminal error: "@ + steps[place]->Err_0@,
            },
        ),
    decreases steps.len(),
{
    if steps.len() > 0 {
        let before = steps.drop_last();
        law_first_failure_is_told(before, place);
        assert(steps[steps.len() - 1] == steps.last());
        assert forall|i: int| 0 <= i < before.len() implies #[trigger] before[i] == steps[i] by {}
        if first_failure(before) is None && steps.last() is Ok {
            assert forall|i: int| 0 <= i < steps.len() implies #[trigger] steps[i] is Ok by {
                if i < before.len() {
                    assert(before[i] is Ok);
                }
            }
        }
        if forall|i: int| 0 <= i < steps.len() ==> #[trigger] steps[i] is Ok {
            assert forall|i: int| 0 <= i < before.len() implies #[trigger] before[i] is Ok by {
                assert(steps[i] is Ok);
            }
        }
        if 0 <= place < steps.len() && (forall|i: int|
            0 <= i < place ==> #[trigger] steps[i] is Ok) {
            assert forall|i: int| 0 <= i < place && i < before.len() implies #[trigger] before[i]
                is Ok by {
                assert(steps[i] is Ok);
            }
            if place < before.len() {
                assert(before[place] == steps[place]);
            }
        }
    }
}

/// A terminal that is given back is no longer held, unless a step of giving back one that is
/// there and held fails; one that is taken over is held, if it is there, unless a step of that
/// fails. What fails changes nothing, and whether there is a terminal never changes.
pub proof fn law_who_holds_the_terminal(
    terminal: TuiTerminal,
    steps: Seq<Result<(), String>>,
)
    ensures
        ({
            let failed = first_failure(steps) is Some;
            let (given, gave) = terminal.restored(steps);
            let (taken, took) = terminal.activated(steps);
            &&& given.live == terminal.live
            &&& taken.live == terminal.live
            &&& gave is Err <==> terminal.active && terminal.live && failed
            &&& given.active == gave is Err
            &&& took is Err <==> !terminal.active && terminal.live && failed
            &&& taken.active == (terminal.active || (terminal.live && took is Ok))
            &&& gave is Err ==> first_failure(steps) == Some(gave->Err_0)
            &&& took is Err ==> first_failure(steps) == Some(took->Err_0)
        }),
{
}

/// The language is the one that was chosen in this run; where none was, that of the stored
/// code, in whatever letters; and English where nothing is stored, or the code is not one of
/// those for Chinese.
pub proof fn law_which_language(store: LanguageStoreView)
    ensures
        store.chosen is Some ==> store.language() == store.chosen->0,
        store.chosen is None ==> (store.language() == Language::Chinese <==> store.stored is Some
            && {
            let code = lowercase(store.stored->0);
            code == "zh"@ || code == "zh-cn"@ || code == "zh-tw"@ || code == "chinese"@
        }),
        Language::English.stored_code() == "en"@,
        Language::Chinese.stored_code() == "zh"@,
{
}

/// Where the terminal cannot be given back, nothing runs; where it has been, something runs,
/// and then the terminal is taken over; where that fails, it is tried once more, and no more.
pub proof fn law_taking_over_is_tried_twice(ok: bool)
    ensures
        step_after(RestoredStep::Restore, true) == RestoredStep::Run,
        step_after(RestoredStep::Restore, false) == RestoredStep::Done,
        step_after(RestoredStep::Run, ok) == RestoredStep::Activate,
        step_after(RestoredStep::Activate, true) == RestoredStep::Done,
        step_after(RestoredStep::Activate, false) == RestoredStep::ActivateAgain,
        step_after(RestoredStep::ActivateAgain, ok) == RestoredStep::Done,
        step_after(RestoredStep::Done, ok) == RestoredStep::Done,
{
}

} // verus!
