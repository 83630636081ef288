//! What holds of parts, merging and taking out, whatever the documents are.
use vstd::prelude::*;

use crate::json::{
    array_contains, deep_removed, field, first_superset, is_subset, lemma_same_fields, member_left,
    merged, without_items, JsonView,
};

verus! {

/// Whether a document holds no array.
pub open spec fn no_arrays(json: JsonView) -> bool
    decreases json,
{
    match json {
        JsonView::Array(_) => false,
        JsonView::Object(members) => forall|key: Seq<char>|
            #![trigger members.contains_key(key)]
            members.contains_key(key) ==> no_arrays(members[key]),
        _ => true,
    }
}

/// An array contains all of its own elements, and to take them out leaves nothing.
proof fn lemma_array_of_itself(items: Seq<JsonView>)
    requires
        forall|i: int| 0 <= i < items.len() ==> is_subset(#[trigger] items[i], items[i]),
    ensures
        array_contains(items, items),
        without_items(items, items).len() == 0,
    decreases items.len(),
{
    if items.len() > 0 {
        let rest = items.drop_first();
        assert(is_subset(items[0], items[0]));
        assert(first_superset(items, items[0]) == Some(0int));
        assert(items.remove(0) =~= rest);
        assert forall|i: int| 0 <= i < rest.len() implies is_subset(#[trigger] rest[i], rest[i]) by {
            assert(rest[i] == items[i + 1]);
        }
        lemma_array_of_itself(rest);
    }
}

/// Every document is part of itself.
pub proof fn law_subset_of_itself(json: JsonView)
    ensures
        is_subset(json, json),
    decreases json,
{
    match json {
        JsonView::Object(members) => {
            assert forall|key: Seq<char>| members.contains_key(key) implies is_subset(
                #[trigger] members[key],
                members[key],
            ) by {
                law_subset_of_itself(members[key]);
            }
        },
        JsonView::Array(items) => {
            assert forall|i: int| 0 <= i < items.len() implies is_subset(
                #[trigger] items[i],
                items[i],
            ) by {
                law_subset_of_itself(items[i]);
            }
            lemma_array_of_itself(items);
        },
        _ => {},
    }
}

/// What is laid over a document is part of the result.
pub proof fn law_overlay_is_part(base: JsonView, overlay: JsonView)
    ensures
        is_subset(merged(base, overlay), overlay),
    decreases overlay,
{
    match (base, overlay) {
        (JsonView::Object(b), JsonView::Object(o)) => {
            let result = merged(base, overlay)->Object_0;
            assert forall|key: Seq<char>| #[trigger] o.contains_key(key) implies result.contains_key(
                key,
            ) && is_subset(result[key], o[key]) by {
                if b.contains_key(key) {
                    law_overlay_is_part(b[key], o[key]);
                } else {
                    law_subset_of_itself(o[key]);
                }
            }
        },
        _ => {
            law_subset_of_itself(overlay);
        },
    }
}

/// Taken out of itself, a member leaves nothing.
pub proof fn law_member_out_of_itself(json: JsonView)
    ensures
        member_left(json, json) is None,
    decreases json,
{
    match json {
        JsonView::Object(members) => {
            let rest = deep_removed(json, json)->Object_0;
            assert forall|key: Seq<char>| !rest.contains_key(key) by {
                if members.contains_key(key) {
                    law_member_out_of_itself(members[key]);
                }
            }
            assert(rest =~= Map::empty());
        },
        JsonView::Array(items) => {
            assert forall|i: int| 0 <= i < items.len() implies is_subset(
                #[trigger] items[i],
                items[i],
            ) by {
                law_subset_of_itself(items[i]);
            }
            lemma_array_of_itself(items);
        },
        _ => {},
    }
}

/// To merge settings over common settings and to take the common settings out again
/// leaves what taking them out of the settings alone leaves.
pub proof fn law_merge_then_strip(common: JsonView, settings: JsonView)
    requires
        common is Object,
        settings is Object,
    ensures
        deep_removed(merged(common, settings), common) == deep_removed(settings, common),
    decreases common,
{
    let c = common->Object_0;
    let s = settings->Object_0;
    let m = merged(common, settings)->Object_0;
    let left = deep_removed(merged(common, settings), common);
    let right = deep_removed(settings, common);
    assert forall|key: Seq<char>| field(left, key) == #[trigger] field(right, key) by {
        if c.contains_key(key) {
            if s.contains_key(key) {
                assert(m[key] == merged(c[key], s[key]));
                if c[key] is Object && s[key] is Object {
                    law_merge_then_strip(c[key], s[key]);
                    assert(member_left(m[key], c[key]) == member_left(s[key], c[key]));
                }
            } else {
                law_member_out_of_itself(c[key]);
            }
        }
    }
    lemma_same_fields(left, right);
}

/// Settings that share nothing with the common settings come back whole when the common
/// settings are taken out of the merged ones.
pub proof fn law_stored_settings_come_back(common: JsonView, settings: JsonView)
    requires
        common is Object,
        settings is Object,
        deep_removed(settings, common) == settings,
    ensures
        deep_removed(merged(common, settings), common) == settings,
{
    law_merge_then_strip(common, settings);
}

/// Where the common settings hold no array, to take them out of settings and to merge
/// the rest over them gives what merging the settings themselves gives.
pub proof fn law_strip_then_merge(common: JsonView, settings: JsonView)
    requires
        common is Object,
        settings is Object,
        no_arrays(common),
    ensures
        merged(common, deep_removed(settings, common)) == merged(common, settings),
    decreases common,
{
    let c = common->Object_0;
    let s = settings->Object_0;
    let rest = deep_removed(settings, common);
    let left = merged(common, rest);
    let right = merged(common, settings);
    assert forall|key: Seq<char>| field(left, key) == #[trigger] field(right, key) by {
        if c.contains_key(key) && s.contains_key(key) {
            assert(no_arrays(c[key]));
            if c[key] is Object && s[key] is Object {
                law_strip_then_merge(c[key], s[key]);
                let inner = deep_removed(s[key], c[key]);
                if inner->Object_0 =~= Map::empty() {
                    assert(merged(c[key], inner)->Object_0 =~= c[key]->Object_0);
                }
            }
        }
    }
    lemma_same_fields(left, right);
}

} // verus!
