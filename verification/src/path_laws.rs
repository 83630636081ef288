//! What merging and taking apart do to documents, value by value along their paths.
use vstd::prelude::*;

use crate::claude::{lemma_model_names, models_normalized, models_renamed};
use crate::json::{
    array_contains, deep_removed, is_subset, member_left, merged, without_items, JsonView,
};

verus! {

/// What stands at a path of names in a document, where anything does.
pub open spec fn at(json: JsonView, path: Seq<Seq<char>>) -> Option<JsonView>
    decreases path.len(),
{
    if path.len() == 0 {
        Some(json)
    } else {
        match json {
            JsonView::Object(members) => if members.contains_key(path[0]) {
                at(members[path[0]], path.drop_first())
            } else {
                None
            },
            _ => None,
        }
    }
}

/// Whether a document says nothing at a path, nor anything that shuts the path off: all
/// along it there are objects, until a name is missing.
pub open spec fn is_silent(json: JsonView, path: Seq<Seq<char>>) -> bool
    decreases path.len(),
{
    &&& path.len() > 0
    &&& json matches JsonView::Object(members)
    &&& members.contains_key(path[0]) ==> is_silent(members[path[0]], path.drop_first())
}

/// What is laid over a document wins: each value of it stands in the result.
pub proof fn law_overlay_wins(
    base: JsonView,
    overlay: JsonView,
    path: Seq<Seq<char>>,
    value: JsonView,
)
    requires
        at(overlay, path) == Some(value),
        !(value is Object),
    ensures
        at(merged(base, overlay), path) == Some(value),
    decreases path.len(),
{
    if path.len() > 0 {
        if let (JsonView::Object(b), JsonView::Object(o)) = (base, overlay) {
            if b.contains_key(path[0]) {
                law_overlay_wins(b[path[0]], o[path[0]], path.drop_first(), value);
            }
        }
    }
}

/// What a document has at a path on which nothing is laid stands in the result.
pub proof fn law_base_shows_through(
    base: JsonView,
    overlay: JsonView,
    path: Seq<Seq<char>>,
    value: JsonView,
)
    requires
        at(base, path) == Some(value),
        is_silent(overlay, path),
    ensures
        at(merged(base, overlay), path) == Some(value),
    decreases path.len(),
{
    if let (JsonView::Object(b), JsonView::Object(o)) = (base, overlay) {
        if o.contains_key(path[0]) {
            law_base_shows_through(b[path[0]], o[path[0]], path.drop_first(), value);
        }
    }
}

/// A value of a merged document comes from one of the two documents.
pub proof fn law_merge_adds_nothing(
    base: JsonView,
    overlay: JsonView,
    path: Seq<Seq<char>>,
    value: JsonView,
)
    requires
        at(merged(base, overlay), path) == Some(value),
        !(value is Object),
    ensures
        at(overlay, path) == Some(value) || (at(base, path) == Some(value) && is_silent(
            overlay,
            path,
        )),
    decreases path.len(),
{
    if path.len() > 0 {
        if let (JsonView::Object(b), JsonView::Object(o)) = (base, overlay) {
            if o.contains_key(path[0]) && b.contains_key(path[0]) {
                law_merge_adds_nothing(b[path[0]], o[path[0]], path.drop_first(), value);
            }
        }
    }
}

/// A value that a document shares with a common one at a path goes.
pub proof fn law_shared_value_goes(
    target: JsonView,
    source: JsonView,
    path: Seq<Seq<char>>,
    value: JsonView,
)
    requires
        path.len() > 0,
        at(target, path) == Some(value),
        at(source, path) == Some(value),
        !(value is Object) && !(value is Array),
    ensures
        at(deep_removed(target, source), path) is None,
    decreases path.len(),
{
    if let (JsonView::Object(t), JsonView::Object(s)) = (target, source) {
        if path.len() > 1 {
            law_shared_value_goes(t[path[0]], s[path[0]], path.drop_first(), value);
        }
    }
}

/// A value that the common document does not have at its path stays. Two arrays are taken
/// apart element by element, and are left out here.
pub proof fn law_own_value_stays(
    target: JsonView,
    source: JsonView,
    path: Seq<Seq<char>>,
    value: JsonView,
)
    requires
        path.len() > 0,
        at(target, path) == Some(value),
        at(source, path) != Some(value),
        !(value is Object),
        value is Array ==> !(at(source, path) matches Some(JsonView::Array(_))),
    ensures
        at(deep_removed(target, source), path) == Some(value),
    decreases path.len(),
{
    if let (JsonView::Object(t), JsonView::Object(s)) = (target, source) {
        if s.contains_key(path[0]) {
            if path.len() > 1 {
                if s[path[0]] is Object {
                    law_own_value_stays(t[path[0]], s[path[0]], path.drop_first(), value);
                    let rest = deep_removed(t[path[0]], s[path[0]]);
                    assert(rest->Object_0.contains_key(path.drop_first()[0]));
                    assert(!(rest->Object_0 =~= Map::empty()));
                }
            } else {
                assert(at(t[path[0]], path.drop_first()) == Some(t[path[0]]));
                assert(at(s[path[0]], path.drop_first()) == Some(s[path[0]]));
                assert(!is_subset(t[path[0]], s[path[0]]));
            }
        }
    }
}

/// Taking a common document out adds nothing: a value that is left was there.
pub proof fn law_strip_adds_nothing(
    target: JsonView,
    source: JsonView,
    path: Seq<Seq<char>>,
    value: JsonView,
)
    requires
        at(deep_removed(target, source), path) == Some(value),
        !(value is Object) && !(value is Array),
    ensures
        at(target, path) == Some(value),
    decreases path.len(),
{
    if path.len() > 0 {
        if let (JsonView::Object(t), JsonView::Object(s)) = (target, source) {
            if s.contains_key(path[0]) {
                let left = member_left(t[path[0]], s[path[0]])->0;
                assert(at(left, path.drop_first()) == Some(value));
                if t[path[0]] is Object && s[path[0]] is Object {
                    law_strip_adds_nothing(t[path[0]], s[path[0]], path.drop_first(), value);
                }
            }
        }
    }
}

/// An array that stands at the same path as a common one loses the elements of the latter,
/// and goes where none is left.
pub proof fn law_arrays_are_taken_apart(
    target: JsonView,
    source: JsonView,
    path: Seq<Seq<char>>,
    items: Seq<JsonView>,
    common: Seq<JsonView>,
)
    requires
        path.len() > 0,
        at(target, path) == Some(JsonView::Array(items)),
        at(source, path) == Some(JsonView::Array(common)),
    ensures
        ({
            let left = without_items(items, common);
            at(deep_removed(target, source), path) == (if left.len() == 0 {
                None
            } else {
                Some(JsonView::Array(left))
            })
        }),
    decreases path.len(),
{
    if let (JsonView::Object(t), JsonView::Object(s)) = (target, source) {
        if path.len() > 1 {
            let rest = path.drop_first();
            law_arrays_are_taken_apart(t[path[0]], s[path[0]], rest, items, common);
            let left = deep_removed(t[path[0]], s[path[0]]);
            if at(left, rest) is Some {
                assert(left->Object_0.contains_key(rest[0]));
            }
        } else {
            assert(path.drop_first() =~= Seq::empty());
            assert(at(t[path[0]], path.drop_first()) == Some(t[path[0]]));
            assert(at(s[path[0]], path.drop_first()) == Some(s[path[0]]));
            let whole = deep_removed(target, source)->Object_0;
            if whole.contains_key(path[0]) {
                assert(at(whole[path[0]], path.drop_first()) == Some(whole[path[0]]));
            }
        }
    }
}

/// Where a document is part of another, each array of it is part of the one at the same path.
pub proof fn law_array_part_is_found(
    target: JsonView,
    source: JsonView,
    path: Seq<Seq<char>>,
    common: Seq<JsonView>,
)
    requires
        is_subset(target, source),
        at(source, path) == Some(JsonView::Array(common)),
    ensures
        at(target, path) matches Some(JsonView::Array(items)) && array_contains(items, common),
    decreases path.len(),
{
    if path.len() > 0 {
        if let (JsonView::Object(t), JsonView::Object(s)) = (target, source) {
            assert(s.contains_key(path[0]));
            law_array_part_is_found(t[path[0]], s[path[0]], path.drop_first(), common);
        }
    }
}

/// A document that is part of another has none but values that the other has, at the same
/// paths.
pub proof fn law_part_is_found(
    target: JsonView,
    source: JsonView,
    path: Seq<Seq<char>>,
    value: JsonView,
)
    requires
        is_subset(target, source),
        at(source, path) == Some(value),
        !(value is Object) && !(value is Array),
    ensures
        at(target, path) == Some(value),
    decreases path.len(),
{
    if path.len() > 0 {
        if let (JsonView::Object(t), JsonView::Object(s)) = (target, source) {
            assert(s.contains_key(path[0]));
            law_part_is_found(t[path[0]], s[path[0]], path.drop_first(), value);
        }
    }
}

/// A document with a value, at a path where the other has none or another one, is no part
/// of it.
pub proof fn law_what_is_missing_is_no_part(
    target: JsonView,
    source: JsonView,
    path: Seq<Seq<char>>,
    value: JsonView,
)
    requires
        at(source, path) == Some(value),
        !(value is Object) && !(value is Array),
        at(target, path) != Some(value),
    ensures
        !is_subset(target, source),
{
    if is_subset(target, source) {
        law_part_is_found(target, source, path, value);
    }
}

/// Whether an environment has, under a name, what is left of another once the models have
/// got their names of today. The old name of the small fast model is gone; a model that was
/// set stays; one that was not falls back to the main model and the small fast one, the
/// smallest to the latter first; and everything else stays as it is.
pub open spec fn has_models_of_today(
    env: Map<Seq<char>, JsonView>,
    after: Map<Seq<char>, JsonView>,
    key: Seq<char>,
) -> bool {
    let main = env.contains_key("ANTHROPIC_MODEL"@) && env["ANTHROPIC_MODEL"@] is Str;
    let small = env.contains_key("ANTHROPIC_SMALL_FAST_MODEL"@)
        && env["ANTHROPIC_SMALL_FAST_MODEL"@] is Str;
    let haiku = "ANTHROPIC_DEFAULT_HAIKU_MODEL"@;
    let sonnet = "ANTHROPIC_DEFAULT_SONNET_MODEL"@;
    let opus = "ANTHROPIC_DEFAULT_OPUS_MODEL"@;
    &&& !after.contains_key("ANTHROPIC_SMALL_FAST_MODEL"@)
    &&& env.contains_key(key) && key != "ANTHROPIC_SMALL_FAST_MODEL"@
        ==> after.contains_key(key) && after[key] == env[key]
    &&& after.contains_key(key) && !env.contains_key(key) ==> key == haiku || key == sonnet
        || key == opus
    &&& !env.contains_key(haiku) ==> (if small {
        after.contains_key(haiku) && after[haiku] == env["ANTHROPIC_SMALL_FAST_MODEL"@]
    } else if main {
        after.contains_key(haiku) && after[haiku] == env["ANTHROPIC_MODEL"@]
    } else {
        !after.contains_key(haiku)
    })
    &&& !env.contains_key(sonnet) ==> (if main {
        after.contains_key(sonnet) && after[sonnet] == env["ANTHROPIC_MODEL"@]
    } else if small {
        after.contains_key(sonnet) && after[sonnet] == env["ANTHROPIC_SMALL_FAST_MODEL"@]
    } else {
        !after.contains_key(sonnet)
    })
    &&& !env.contains_key(opus) ==> (if main {
        after.contains_key(opus) && after[opus] == env["ANTHROPIC_MODEL"@]
    } else if small {
        after.contains_key(opus) && after[opus] == env["ANTHROPIC_SMALL_FAST_MODEL"@]
    } else {
        !after.contains_key(opus)
    })
}

/// The models in an environment get their names of today, whatever name is looked at.
pub proof fn law_models_by_name(env: Map<Seq<char>, JsonView>, key: Seq<char>)
    ensures
        models_renamed(JsonView::Object(env)) is Object,
        has_models_of_today(env, models_renamed(JsonView::Object(env))->Object_0, key),
{
    lemma_model_names();
}

/// Whether a path leads to the old name of the small fast model, or below it.
pub open spec fn is_old_model_name(path: Seq<Seq<char>>) -> bool {
    path.len() >= 2 && path[0] == "env"@ && path[1] == "ANTHROPIC_SMALL_FAST_MODEL"@
}

/// Bringing the names of models up to date keeps every value but that under the old name of
/// the small fast model, and touches nothing outside the environment.
pub proof fn law_normalizing_keeps_values(
    settings: JsonView,
    path: Seq<Seq<char>>,
    value: JsonView,
)
    requires
        at(settings, path) == Some(value),
        !(value is Object),
        !is_old_model_name(path),
    ensures
        at(models_normalized(settings), path) == Some(value),
{
    if path.len() > 0 {
        if let JsonView::Object(members) = settings {
            if path[0] == "env"@ && members["env"@] is Object {
                let env = members["env"@]->Object_0;
                let rest = path.drop_first();
                assert(rest.len() > 0);
                assert(rest[0] == path[1]);
                law_models_by_name(env, rest[0]);
                assert(env.contains_key(rest[0]));
                let after = models_renamed(JsonView::Object(env));
                assert(at(after, rest) == at(members["env"@], rest));
            }
        }
    }
}

/// Outside the environment, bringing the names of models up to date adds nothing.
pub proof fn law_normalizing_adds_nothing_elsewhere(settings: JsonView, path: Seq<Seq<char>>)
    requires
        path.len() > 0,
        path[0] != "env"@,
    ensures
        at(models_normalized(settings), path) == at(settings, path),
{
}

} // verus!
