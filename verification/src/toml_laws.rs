//! What holds of parts, merging and taking out, whatever the documents are.
use vstd::prelude::*;

use crate::toml_doc::TomlView;
use crate::toml_ops::{
    array_contains, first_superset, float_magnitude, item_is_subset, item_left, table_left,
    tables_merged, value_is_subset, without_items,
};

verus! {

/// Whether an item holds neither a float that is not a number nor an array of tables:
/// those are equal to nothing, not even to themselves.
pub open spec fn is_comparable(item: TomlView) -> bool
    decreases item,
{
    match item {
        TomlView::Nothing => false,
        TomlView::Tables(_) => false,
        TomlView::Float(bits) => float_magnitude(bits) <= 0x7ff0_0000_0000_0000,
        TomlView::Array(items) => forall|i: int|
            #![trigger items[i]]
            0 <= i < items.len() ==> is_comparable(items[i]) && items[i].is_value(),
        TomlView::Inline(members) => forall|key: Seq<char>|
            #![trigger members.contains_key(key)]
            members.contains_key(key) ==> is_comparable(members[key]) && members[key].is_value(),
        TomlView::Table(members) => forall|key: Seq<char>|
            #![trigger members.contains_key(key)]
            members.contains_key(key) ==> is_comparable(members[key]),
        _ => true,
    }
}

/// Whether two tables have no member in common but tables of which the same holds.
pub open spec fn are_disjoint(left: TomlView, right: TomlView) -> bool
    decreases right,
{
    match (left, right) {
        (TomlView::Table(l), TomlView::Table(r)) => forall|key: Seq<char>|
            #![trigger l.contains_key(key)]
            l.contains_key(key) && r.contains_key(key) ==> {
                &&& are_disjoint(l[key], r[key])
                &&& !(l[key].members() =~= Map::empty())
            },
        _ => false,
    }
}

/// An array contains all of its own elements, and to take them out leaves nothing.
proof fn lemma_array_of_itself(items: Seq<TomlView>)
    requires
        forall|i: int| 0 <= i < items.len() ==> value_is_subset(#[trigger] items[i], items[i]),
    ensures
        array_contains(items, items),
        without_items(items, items).len() == 0,
    decreases items.len(),
{
    if items.len() > 0 {
        let rest = items.drop_first();
        assert(value_is_subset(items[0], items[0]));
        assert(first_superset(items, items[0]) == Some(0int));
        assert(items.remove(0) =~= rest);
        assert forall|i: int| 0 <= i < rest.len() implies value_is_subset(
            #[trigger] rest[i],
            rest[i],
        ) by {
            assert(rest[i] == items[i + 1]);
        }
        lemma_array_of_itself(rest);
    }
}

/// A value that can be compared is part of itself.
pub proof fn law_value_subset_of_itself(value: TomlView)
    requires
        is_comparable(value),
        value.is_value(),
    ensures
        value_is_subset(value, value),
    decreases value,
{
    match value {
        TomlView::Array(items) => {
            assert forall|i: int| 0 <= i < items.len() implies value_is_subset(
                #[trigger] items[i],
                items[i],
            ) by {
                law_value_subset_of_itself(items[i]);
            }
            lemma_array_of_itself(items);
        },
        TomlView::Inline(members) => {
            assert forall|key: Seq<char>| #[trigger]
                members.contains_key(key) implies value_is_subset(members[key], members[key]) by {
                law_value_subset_of_itself(members[key]);
            }
        },
        _ => {},
    }
}

/// An item that can be compared is part of itself.
pub proof fn law_subset_of_itself(item: TomlView)
    requires
        is_comparable(item),
    ensures
        item_is_subset(item, item),
    decreases item,
{
    if item.is_table_like() {
        assert forall|key: Seq<char>| #[trigger]
            item.members().contains_key(key) implies item_is_subset(
            item.members()[key],
            item.members()[key],
        ) by {
            lemma_member(item, key);
            law_subset_of_itself(item.members()[key]);
        }
    } else {
        law_value_subset_of_itself(item);
    }
}

/// The members of a table that can be compared can be compared, and are smaller.
proof fn lemma_member(item: TomlView, key: Seq<char>)
    requires
        item.is_table_like(),
        is_comparable(item),
        item.members().contains_key(key),
    ensures
        is_comparable(item.members()[key]),
        decreases_to!(item => item.members()[key]),
{
    match item {
        TomlView::Table(members) => {
            assert(decreases_to!(item => item->Table_0[key]));
        },
        TomlView::Inline(members) => {
            assert(decreases_to!(item => item->Inline_0[key]));
        },
        _ => {},
    }
}

/// What is laid over a table is part of the result.
pub proof fn law_merged_is_part(target: TomlView, source: TomlView)
    requires
        is_comparable(source),
    ensures
        item_is_subset(tables_merged(target, source), source),
    decreases source,
{
    match (target, source) {
        (TomlView::Table(t), TomlView::Table(s)) => {
            let result = tables_merged(target, source);
            assert forall|key: Seq<char>| #[trigger]
                source.members().contains_key(key) implies result.members().contains_key(key)
                && item_is_subset(result.members()[key], source.members()[key]) by {
                lemma_member(source, key);
                if t.contains_key(key) {
                    law_merged_is_part(t[key], s[key]);
                } else {
                    law_subset_of_itself(s[key]);
                }
            }
        },
        _ => {
            law_subset_of_itself(source);
        },
    }
}

/// An item that can be compared leaves nothing when it is taken out of itself.
pub proof fn law_item_out_of_itself(item: TomlView)
    requires
        is_comparable(item),
    ensures
        item_left(item, item) is Nothing,
    decreases item,
{
    if item.is_table_like() {
        let rest = table_left(item, item);
        assert forall|key: Seq<char>| !rest.members().contains_key(key) by {
            if item.members().contains_key(key) {
                lemma_member(item, key);
                law_item_out_of_itself(item.members()[key]);
            }
        }
        assert(rest.members() =~= Map::empty());
    } else {
        match item {
            TomlView::Array(items) => {
                assert forall|i: int| 0 <= i < items.len() implies value_is_subset(
                    #[trigger] items[i],
                    items[i],
                ) by {
                    law_value_subset_of_itself(items[i]);
                }
                lemma_array_of_itself(items);
            },
            _ => {
                law_value_subset_of_itself(item);
            },
        }
    }
}

/// A table that shares no member with common settings comes back whole when the common
/// settings are laid over it and taken out again.
pub proof fn law_stored_table_comes_back(table: TomlView, common: TomlView)
    requires
        table is Table,
        common is Table,
        is_comparable(common),
        are_disjoint(table, common),
    ensures
        table_left(tables_merged(table, common), common) == table,
    decreases common,
{
    let t = table->Table_0;
    let c = common->Table_0;
    let m = tables_merged(table, common);
    let left = table_left(m, common);
    assert forall|key: Seq<char>| #[trigger]
        left.members().contains_key(key) <==> t.contains_key(key) by {
        if c.contains_key(key) {
            lemma_member(common, key);
            if t.contains_key(key) {
                assert(are_disjoint(t[key], c[key]));
                law_stored_table_comes_back(t[key], c[key]);
            } else {
                law_item_out_of_itself(c[key]);
            }
        }
    }
    assert forall|key: Seq<char>|
        #![trigger left.members()[key]]
        left.members().contains_key(key) implies left.members()[key] == t[key] by {
        if c.contains_key(key) {
            lemma_member(common, key);
            assert(are_disjoint(t[key], c[key]));
            law_stored_table_comes_back(t[key], c[key]);
        }
    }
    assert(left.members() =~= t);
}

} // verus!
