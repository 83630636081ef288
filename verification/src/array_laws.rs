//! How arrays are compared and taken apart, element by element.
use vstd::prelude::*;

use crate::json;
use crate::json::JsonView;
use crate::toml_doc::TomlView;
use crate::toml_ops;
use crate::toml_path_laws::is_plain;

verus! {

/// Whether a value of JSON is neither an object nor an array.
pub open spec fn is_single(value: JsonView) -> bool {
    !(value is Object) && !(value is Array)
}

/// The first element of which something is part: it is one, and none before it is.
proof fn lemma_json_first(items: Seq<JsonView>, part: JsonView)
    ensures
        json::first_superset(items, part) is None <==> forall|i: int|
            0 <= i < items.len() ==> !json::is_subset(#[trigger] items[i], part),
        json::first_superset(items, part) is Some ==> {
            let place = json::first_superset(items, part)->0;
            &&& 0 <= place < items.len()
            &&& json::is_subset(items[place], part)
            &&& forall|i: int| 0 <= i < place ==> !json::is_subset(#[trigger] items[i], part)
        },
    decreases items.len(),
{
    if items.len() > 0 && !json::is_subset(items[0], part) {
        let rest = items.drop_first();
        lemma_json_first(rest, part);
        if json::first_superset(rest, part) is None {
            assert forall|i: int| 0 <= i < items.len() implies !json::is_subset(
                #[trigger] items[i],
                part,
            ) by {
                if i > 0 {
                    assert(rest[i - 1] == items[i]);
                }
            }
        } else {
            let place = json::first_superset(rest, part)->0;
            assert(items[place + 1] == rest[place]);
            assert forall|i: int| 0 <= i < place + 1 implies !json::is_subset(
                #[trigger] items[i],
                part,
            ) by {
                if i > 0 {
                    assert(rest[i - 1] == items[i]);
                }
            }
        }
    }
}

/// Taking one element out of an array of JSON takes out the first of which it is part, and
/// nothing where there is none.
pub proof fn law_json_one_item_is_taken(target: Seq<JsonView>, part: JsonView, place: int)
    ensures
        (forall|i: int| 0 <= i < target.len() ==> !json::is_subset(#[trigger] target[i], part))
            ==> json::without_items(target, seq![part]) == target,
        0 <= place < target.len() && json::is_subset(target[place], part) && (forall|i: int|
            0 <= i < place ==> !json::is_subset(#[trigger] target[i], part))
            ==> json::without_items(target, seq![part]) == target.remove(place),
{
    lemma_json_first(target, part);
    assert(seq![part].drop_first() =~= Seq::empty());
    reveal_with_fuel(json::without_items, 2);
    if 0 <= place < target.len() && json::is_subset(target[place], part) && (forall|i: int|
        0 <= i < place ==> !json::is_subset(#[trigger] target[i], part)) {
        let first = json::first_superset(target, part)->0;
        assert(first == place) by {
            if first < place {
                assert(!json::is_subset(target[first], part));
            }
            if place < first {
                assert(!json::is_subset(target[place], part));
            }
        }
    }
}

/// Taking several elements out of an array of JSON is taking one after the other.
pub proof fn law_json_items_are_taken_in_turn(
    target: Seq<JsonView>,
    first: Seq<JsonView>,
    later: Seq<JsonView>,
)
    ensures
        json::without_items(target, first + later) == json::without_items(
            json::without_items(target, first),
            later,
        ),
        json::without_items(target, Seq::empty()) == target,
    decreases first.len(),
{
    if first.len() == 0 {
        assert(first + later =~= later);
    } else {
        let all = first + later;
        assert(all[0] == first[0]);
        assert(all.drop_first() =~= first.drop_first() + later);
        let left = match json::first_superset(target, first[0]) {
            Some(i) => target.remove(i),
            None => target,
        };
        law_json_items_are_taken_in_turn(left, first.drop_first(), later);
    }
}

/// An array of JSON is part of another only where it is no longer, and each of its elements
/// is part of an element of the other.
pub proof fn law_json_parts_are_found(target: Seq<JsonView>, source: Seq<JsonView>, j: int)
    requires
        json::array_contains(target, source),
    ensures
        source.len() <= target.len(),
        0 <= j < source.len() ==> exists|i: int|
            0 <= i < target.len() && json::is_subset(#[trigger] target[i], source[j]),
    decreases source.len(),
{
    if source.len() > 0 {
        lemma_json_first(target, source[0]);
        let place = json::first_superset(target, source[0])->0;
        let left = target.remove(place);
        let rest = source.drop_first();
        law_json_parts_are_found(left, rest, j - 1);
        if j == 0 {
            assert(json::is_subset(target[place], source[0]));
        } else if 0 < j < source.len() {
            assert(rest[j - 1] == source[j]);
            let i = choose|i: int|
                0 <= i < left.len() && json::is_subset(#[trigger] left[i], rest[j - 1]);
            if i < place {
                assert(target[i] == left[i]);
            } else {
                assert(target[i + 1] == left[i]);
            }
        }
    }
}

/// An array of JSON with plain values is part of another wherever the other has each value at
/// least as often, in whatever order.
pub proof fn law_json_order_does_not_count(target: Seq<JsonView>, source: Seq<JsonView>)
    requires
        forall|j: int| 0 <= j < source.len() ==> is_single(#[trigger] source[j]),
        source.to_multiset().subset_of(target.to_multiset()),
    ensures
        json::array_contains(target, source),
    decreases source.len(),
{
    broadcast use vstd::seq_lib::group_to_multiset_ensures;
    broadcast use vstd::multiset::group_multiset_axioms;

    if source.len() > 0 {
        let part = source[0];
        lemma_json_first(target, part);
        assert(source.contains(part));
        assert(source.to_multiset().count(part) > 0);
        assert(target.to_multiset().count(part) > 0);
        assert(target.contains(part));
        let place = choose|i: int| 0 <= i < target.len() && target[i] == part;
        assert(json::is_subset(target[place], part));
        let first = json::first_superset(target, part)->0;
        assert(target[first] == part);
        let left = target.remove(first);
        let rest = source.drop_first();
        assert(rest =~= source.remove(0));
        assert(left.to_multiset() == target.to_multiset().remove(part));
        assert(rest.to_multiset() == source.to_multiset().remove(part));
        assert forall|value: JsonView| #[trigger] rest.to_multiset().count(value)
            <= left.to_multiset().count(value) by {
            assert(source.to_multiset().count(value) <= target.to_multiset().count(value));
        }
        assert forall|j: int| 0 <= j < rest.len() implies is_single(#[trigger] rest[j]) by {
            assert(rest[j] == source[j + 1]);
        }
        law_json_order_does_not_count(left, rest);
    }
}

/// The first element of which something is part: it is one, and none before it is.
proof fn lemma_toml_first(items: Seq<TomlView>, part: TomlView)
    ensures
        toml_ops::first_superset(items, part) is None <==> forall|i: int|
            0 <= i < items.len() ==> !toml_ops::value_is_subset(#[trigger] items[i], part),
        toml_ops::first_superset(items, part) is Some ==> {
            let place = toml_ops::first_superset(items, part)->0;
            &&& 0 <= place < items.len()
            &&& toml_ops::value_is_subset(items[place], part)
            &&& forall|i: int|
                0 <= i < place ==> !toml_ops::value_is_subset(#[trigger] items[i], part)
        },
    decreases items.len(),
{
    if items.len() > 0 && !toml_ops::value_is_subset(items[0], part) {
        let rest = items.drop_first();
        lemma_toml_first(rest, part);
        if toml_ops::first_superset(rest, part) is None {
            assert forall|i: int| 0 <= i < items.len() implies !toml_ops::value_is_subset(
                #[trigger] items[i],
                part,
            ) by {
                if i > 0 {
                    assert(rest[i - 1] == items[i]);
                }
            }
        } else {
            let place = toml_ops::first_superset(rest, part)->0;
            assert(items[place + 1] == rest[place]);
            assert forall|i: int| 0 <= i < place + 1 implies !toml_ops::value_is_subset(
                #[trigger] items[i],
                part,
            ) by {
                if i > 0 {
                    assert(rest[i - 1] == items[i]);
                }
            }
        }
    }
}

/// Taking one element out of an array of TOML takes out the first of which it is part, and
/// nothing where there is none.
pub proof fn law_toml_one_item_is_taken(target: Seq<TomlView>, part: TomlView, place: int)
    ensures
        (forall|i: int|
            0 <= i < target.len() ==> !toml_ops::value_is_subset(#[trigger] target[i], part))
            ==> toml_ops::without_items(target, seq![part]) == target,
        0 <= place < target.len() && toml_ops::value_is_subset(target[place], part) && (
        forall|i: int|
            0 <= i < place ==> !toml_ops::value_is_subset(#[trigger] target[i], part))
            ==> toml_ops::without_items(target, seq![part]) == target.remove(place),
{
    lemma_toml_first(target, part);
    assert(seq![part].drop_first() =~= Seq::empty());
    reveal_with_fuel(toml_ops::without_items, 2);
    if 0 <= place < target.len() && toml_ops::value_is_subset(target[place], part) && (
    forall|i: int|
        0 <= i < place ==> !toml_ops::value_is_subset(#[trigger] target[i], part)) {
        let first = toml_ops::first_superset(target, part)->0;
        assert(first == place) by {
            if first < place {
                assert(!toml_ops::value_is_subset(target[first], part));
            }
            if place < first {
                assert(!toml_ops::value_is_subset(target[place], part));
            }
        }
    }
}

/// Taking several elements out of an array of TOML is taking one after the other.
pub proof fn law_toml_items_are_taken_in_turn(
    target: Seq<TomlView>,
    first: Seq<TomlView>,
    later: Seq<TomlView>,
)
    ensures
        toml_ops::without_items(target, first + later) == toml_ops::without_items(
            toml_ops::without_items(target, first),
            later,
        ),
        toml_ops::without_items(target, Seq::empty()) == target,
    decreases first.len(),
{
    if first.len() == 0 {
        assert(first + later =~= later);
    } else {
        let all = first + later;
        assert(all[0] == first[0]);
        assert(all.drop_first() =~= first.drop_first() + later);
        let left = match toml_ops::first_superset(target, first[0]) {
            Some(i) => target.remove(i),
            None => target,
        };
        law_toml_items_are_taken_in_turn(left, first.drop_first(), later);
    }
}

/// An array of TOML is part of another only where it is no longer, and each of its elements
/// is part of an element of the other.
pub proof fn law_toml_parts_are_found(target: Seq<TomlView>, source: Seq<TomlView>, j: int)
    requires
        toml_ops::array_contains(target, source),
    ensures
        source.len() <= target.len(),
        0 <= j < source.len() ==> exists|i: int|
            0 <= i < target.len() && toml_ops::value_is_subset(#[trigger] target[i], source[j]),
    decreases source.len(),
{
    if source.len() > 0 {
        lemma_toml_first(target, source[0]);
        let place = toml_ops::first_superset(target, source[0])->0;
        let left = target.remove(place);
        let rest = source.drop_first();
        law_toml_parts_are_found(left, rest, j - 1);
        if j == 0 {
            assert(toml_ops::value_is_subset(target[place], source[0]));
        } else if 0 < j < source.len() {
            assert(rest[j - 1] == source[j]);
            let i = choose|i: int|
                0 <= i < left.len() && toml_ops::value_is_subset(#[trigger] left[i], rest[j - 1]);
            if i < place {
                assert(target[i] == left[i]);
            } else {
                assert(target[i + 1] == left[i]);
            }
        }
    }
}

/// An array of TOML with plain values is part of another wherever the other has each value at
/// least as often, in whatever order.
pub proof fn law_toml_order_does_not_count(target: Seq<TomlView>, source: Seq<TomlView>)
    requires
        forall|j: int| 0 <= j < source.len() ==> is_plain(#[trigger] source[j]),
        source.to_multiset().subset_of(target.to_multiset()),
    ensures
        toml_ops::array_contains(target, source),
    decreases source.len(),
{
    broadcast use vstd::seq_lib::group_to_multiset_ensures;
    broadcast use vstd::multiset::group_multiset_axioms;

    if source.len() > 0 {
        let part = source[0];
        lemma_toml_first(target, part);
        assert(source.contains(part));
        assert(source.to_multiset().count(part) > 0);
        assert(target.to_multiset().count(part) > 0);
        assert(target.contains(part));
        let place = choose|i: int| 0 <= i < target.len() && target[i] == part;
        assert(toml_ops::value_is_subset(target[place], part));
        let first = toml_ops::first_superset(target, part)->0;
        assert(target[first] == part);
        let left = target.remove(first);
        let rest = source.drop_first();
        assert(rest =~= source.remove(0));
        assert(left.to_multiset() == target.to_multiset().remove(part));
        assert(rest.to_multiset() == source.to_multiset().remove(part));
        assert forall|value: TomlView| #[trigger] rest.to_multiset().count(value)
            <= left.to_multiset().count(value) by {
            assert(source.to_multiset().count(value) <= target.to_multiset().count(value));
        }
        assert forall|j: int| 0 <= j < rest.len() implies is_plain(#[trigger] rest[j]) by {
            assert(rest[j] == source[j + 1]);
        }
        law_toml_order_does_not_count(left, rest);
    }
}

} // verus!
