//! The settings of Anthropic providers.
use vstd::prelude::*;

use crate::json::{field, Json, JsonView};
use crate::model::{copy_text, maybe_text, AppType, Provider};
use crate::service::ProviderService;

verus! {

/// The text of the member of that name, where it is a text.
pub open spec fn text_field(json: JsonView, key: Seq<char>) -> Option<Seq<char>> {
    match field(json, key) {
        Some(JsonView::Str(text)) => Some(text),
        _ => None,
    }
}

/// The first of two texts that is there.
pub open spec fn either_text(first: Option<Seq<char>>, second: Option<Seq<char>>) -> Option<
    Seq<char>,
> {
    if first is Some {
        first
    } else {
        second
    }
}

/// The object with a text under a name that was free; unchanged where the name is taken
/// or there is no text.
pub open spec fn with_default(env: JsonView, key: Seq<char>, text: Option<Seq<char>>) -> JsonView {
    match text {
        Some(text) if field(env, key) is None => JsonView::Object(
            env->Object_0.insert(key, JsonView::Str(text)),
        ),
        _ => env,
    }
}

/// The environment with the models of each size under their names of today: those that
/// are not set fall back to the small fast model and the main model, in this order for
/// the smallest size and the other way round for the others. The old name of the small
/// fast model is gone.
pub open spec fn models_renamed(env: JsonView) -> JsonView {
    let model = text_field(env, "ANTHROPIC_MODEL"@);
    let small_fast = text_field(env, "ANTHROPIC_SMALL_FAST_MODEL"@);
    let haiku = with_default(
        env,
        "ANTHROPIC_DEFAULT_HAIKU_MODEL"@,
        either_text(small_fast, model),
    );
    let sonnet = with_default(
        haiku,
        "ANTHROPIC_DEFAULT_SONNET_MODEL"@,
        either_text(model, small_fast),
    );
    let opus = with_default(
        sonnet,
        "ANTHROPIC_DEFAULT_OPUS_MODEL"@,
        either_text(model, small_fast),
    );
    JsonView::Object(opus->Object_0.remove("ANTHROPIC_SMALL_FAST_MODEL"@))
}

/// Settings with the models in their environment under their names of today; unchanged
/// where there is no environment.
pub open spec fn models_normalized(settings: JsonView) -> JsonView {
    match field(settings, "env"@) {
        Some(JsonView::Object(env)) => JsonView::Object(
            settings->Object_0.insert("env"@, models_renamed(JsonView::Object(env))),
        ),
        _ => settings,
    }
}

/// The names under which the environment holds models are different.
pub proof fn lemma_model_names()
    ensures
        "ANTHROPIC_MODEL"@ != "ANTHROPIC_SMALL_FAST_MODEL"@,
        "ANTHROPIC_MODEL"@ != "ANTHROPIC_DEFAULT_HAIKU_MODEL"@,
        "ANTHROPIC_MODEL"@ != "ANTHROPIC_DEFAULT_SONNET_MODEL"@,
        "ANTHROPIC_MODEL"@ != "ANTHROPIC_DEFAULT_OPUS_MODEL"@,
        "ANTHROPIC_SMALL_FAST_MODEL"@ != "ANTHROPIC_DEFAULT_HAIKU_MODEL"@,
        "ANTHROPIC_SMALL_FAST_MODEL"@ != "ANTHROPIC_DEFAULT_SONNET_MODEL"@,
        "ANTHROPIC_SMALL_FAST_MODEL"@ != "ANTHROPIC_DEFAULT_OPUS_MODEL"@,
        "ANTHROPIC_DEFAULT_HAIKU_MODEL"@ != "ANTHROPIC_DEFAULT_SONNET_MODEL"@,
        "ANTHROPIC_DEFAULT_HAIKU_MODEL"@ != "ANTHROPIC_DEFAULT_OPUS_MODEL"@,
        "ANTHROPIC_DEFAULT_SONNET_MODEL"@ != "ANTHROPIC_DEFAULT_OPUS_MODEL"@,
{
    reveal_strlit("ANTHROPIC_MODEL");
    reveal_strlit("ANTHROPIC_SMALL_FAST_MODEL");
    reveal_strlit("ANTHROPIC_DEFAULT_HAIKU_MODEL");
    reveal_strlit("ANTHROPIC_DEFAULT_SONNET_MODEL");
    reveal_strlit("ANTHROPIC_DEFAULT_OPUS_MODEL");
    assert("ANTHROPIC_SMALL_FAST_MODEL"@.len() == 26);
    assert("ANTHROPIC_DEFAULT_OPUS_MODEL"@.len() == 28);
    assert("ANTHROPIC_DEFAULT_HAIKU_MODEL"@.len() == 29);
    assert("ANTHROPIC_DEFAULT_SONNET_MODEL"@.len() == 30);
}

/// To normalize settings twice is to normalize them once.
pub proof fn law_normalized_once(settings: JsonView)
    ensures
        models_normalized(models_normalized(settings)) == models_normalized(settings),
{
    if let Some(JsonView::Object(env)) = field(settings, "env"@) {
        let once = models_renamed(JsonView::Object(env));
        lemma_model_names();
        assert(field(models_normalized(settings), "env"@) == Some(once));
        assert(models_renamed(once)->Object_0 =~= once->Object_0);
        assert(models_normalized(models_normalized(settings))->Object_0
            =~= models_normalized(settings)->Object_0);
    }
}

/// The text of the member of that name, where it is a text.
fn read_text(json: &Json, key: &str) -> (r: Option<String>)
    ensures
        match r {
            Some(text) => text_field(json@, key@) == Some(text@),
            None => text_field(json@, key@) is None,
        },
{
    match json.get(key) {
        Some(value) => match value.as_str() {
            Some(text) => Some(text.to_owned()),
            None => None,
        },
        None => None,
    }
}

/// Sets a text under a name that is free, and tells whether it did.
fn set_default(env: &mut Json, key: &str, text: &Option<String>) -> (changed: bool)
    requires
        old(env)@ is Object,
    ensures
        final(env)@ == with_default(
            old(env)@,
            key@,
            match *text {
                Some(text) => Some(text@),
                None => None,
            },
        ),
        changed == (field(old(env)@, key@) is None && text is Some),
{
    if env.get(key).is_none() {
        if let Some(text) = text {
            env.insert(key, Json::Str(text.clone()));
            return true;
        }
    }
    false
}

/// The first of two texts that is there.
fn first_text(first: &Option<String>, second: &Option<String>) -> (r: Option<String>)
    ensures
        maybe_text(r) == either_text(
            maybe_text(*first),
            maybe_text(*second),
        ),
{
    match first {
        Some(text) => Some(text.clone()),
        None => copy_text(second),
    }
}

/// Puts the models of an environment under their names of today, and tells whether
/// anything changed.
fn rename_models(env: &mut Json) -> (changed: bool)
    requires
        old(env)@ is Object,
    ensures
        final(env)@ == models_renamed(old(env)@),
        !changed ==> final(env)@ == old(env)@,
        changed ==> final(env)@ != old(env)@,
{
    proof {
        lemma_model_names();
    }
    let ghost before = env@;
    let model = read_text(env, "ANTHROPIC_MODEL");
    let small_fast = read_text(env, "ANTHROPIC_SMALL_FAST_MODEL");
    let small_first = first_text(&small_fast, &model);
    let model_first = first_text(&model, &small_fast);
    let haiku = set_default(env, "ANTHROPIC_DEFAULT_HAIKU_MODEL", &small_first);
    let sonnet = set_default(env, "ANTHROPIC_DEFAULT_SONNET_MODEL", &model_first);
    let opus = set_default(env, "ANTHROPIC_DEFAULT_OPUS_MODEL", &model_first);
    let small = env.remove("ANTHROPIC_SMALL_FAST_MODEL");
    let changed = haiku || sonnet || opus || small;
    proof {
        if small {
            assert(field(env@, "ANTHROPIC_SMALL_FAST_MODEL"@) is None);
            assert(field(before, "ANTHROPIC_SMALL_FAST_MODEL"@) is Some);
        } else if haiku {
            assert(field(env@, "ANTHROPIC_DEFAULT_HAIKU_MODEL"@) is Some);
        } else if sonnet {
            assert(field(env@, "ANTHROPIC_DEFAULT_SONNET_MODEL"@) is Some);
        } else if opus {
            assert(field(env@, "ANTHROPIC_DEFAULT_OPUS_MODEL"@) is Some);
        } else {
            assert(env@->Object_0 =~= before->Object_0);
        }
    }
    changed
}

impl ProviderService {
    /// Puts the models in the environment of Anthropic settings under their names of today,
    /// and tells whether anything changed.
    pub fn normalize_claude_models_in_value(settings: &mut Json) -> (changed: bool)
        ensures
            final(settings)@ == models_normalized(old(settings)@),
            changed == (final(settings)@ != old(settings)@),
    {
        let ghost before = settings@;
        let mut changed = false;
        if let Some(env) = settings.get_mut("env") {
            if env.is_object() {
                changed = rename_models(env);
            }
        }
        proof {
            if let Some(env) = field(before, "env"@) {
                if env is Object {
                    assert(field(settings@, "env"@) == Some(models_renamed(env)));
                    if !changed {
                        assert(settings@->Object_0 =~= before->Object_0);
                    }
                } else {
                    assert(settings@->Object_0 =~= before->Object_0);
                }
            }
        }
        changed
    }

    /// Puts the models of an Anthropic provider under their names of today; leaves the
    /// providers of other applications alone.
    pub fn normalize_provider_if_claude(app_type: AppType, provider: &mut Provider)
        ensures
            final(provider)@ == (if app_type == AppType::Claude {
                old(provider)@.with_settings(models_normalized(old(provider)@.settings_config))
            } else {
                old(provider)@
            }),
    {
        if matches!(app_type, AppType::Claude) {
            Self::normalize_claude_models_in_value(&mut provider.settings_config);
        }
    }
}

} // verus!
