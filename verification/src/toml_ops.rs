//! TOML documents: which one is part of another, and how one is merged into or taken out
//! of another.
use vstd::prelude::*;

use crate::json::lemma_next_name;
use crate::text::{same_text, texts};
use crate::toml_doc::{
    as_value, copy_item, get, get_mut, holds_value, inline_member, insert, is_empty_table,
    is_nothing, is_table, is_table_like, nothing, place_count, remove, remove_place, table_keys, value_parts,
    TomlView, ValueParts,
};
use crate::toml_doc::{
    item_lines, item_view, lemma_lines_kept_below, lemma_nothing_below, lines_below, lines_kept,
    value_places, value_view, values_among, values_view,
};

verus! {

/// The bits of a float without its sign.
pub open spec fn float_magnitude(bits: u64) -> int {
    bits as int % 0x8000_0000_0000_0000
}

/// Whether two floats are equal as numbers: zero equals its negative, and what is not a
/// number equals nothing.
pub open spec fn floats_equal(left: u64, right: u64) -> bool {
    &&& float_magnitude(left) <= 0x7ff0_0000_0000_0000
    &&& left == right || (float_magnitude(left) == 0 && float_magnitude(right) == 0)
}

/// Whether the value `source` is part of the value `target`.
pub open spec fn value_is_subset(target: TomlView, source: TomlView) -> bool
    decreases source, 0nat,
{
    match (target, source) {
        (TomlView::Str(t), TomlView::Str(s)) => t == s,
        (TomlView::Integer(t), TomlView::Integer(s)) => t == s,
        (TomlView::Float(t), TomlView::Float(s)) => floats_equal(t, s),
        (TomlView::Boolean(t), TomlView::Boolean(s)) => t == s,
        (TomlView::Datetime(t), TomlView::Datetime(s)) => t == s,
        (TomlView::Array(t), TomlView::Array(s)) => array_contains(t, s),
        (TomlView::Inline(t), TomlView::Inline(s)) => forall|key: Seq<char>|
            #![trigger s.contains_key(key)]
            s.contains_key(key) ==> t.contains_key(key) && value_is_subset(t[key], s[key]),
        _ => false,
    }
}

/// The first element of `items` of which `source` is part.
pub open spec fn first_superset(items: Seq<TomlView>, source: TomlView) -> Option<int>
    decreases source, 1nat, items.len(),
{
    if items.len() == 0 {
        None
    } else if value_is_subset(items[0], source) {
        Some(0int)
    } else {
        match first_superset(items.drop_first(), source) {
            Some(i) => Some(i + 1),
            None => None,
        }
    }
}

/// Whether each element of `source` in turn is part of the first element of `target`
/// that is still free.
pub open spec fn array_contains(target: Seq<TomlView>, source: Seq<TomlView>) -> bool
    decreases source,
{
    if source.len() == 0 {
        true
    } else {
        match first_superset(target, source[0]) {
            Some(i) => array_contains(target.remove(i), source.drop_first()),
            None => false,
        }
    }
}

/// `target` after each element of `source` in turn has taken out the first element of
/// which it is part, where there is one.
pub open spec fn without_items(target: Seq<TomlView>, source: Seq<TomlView>) -> Seq<TomlView>
    decreases source,
{
    if source.len() == 0 {
        target
    } else {
        match first_superset(target, source[0]) {
            Some(i) => without_items(target.remove(i), source.drop_first()),
            None => without_items(target, source.drop_first()),
        }
    }
}

/// Whether the item `source` is part of the item `target`: every member of a table is
/// found in a table of either kind with a part of its value, and a value is part of a
/// value. An array of tables is part of nothing.
pub open spec fn item_is_subset(target: TomlView, source: TomlView) -> bool
    decreases source,
{
    if source.is_table_like() {
        &&& target.is_table_like()
        &&& forall|key: Seq<char>|
            #![trigger source.members().contains_key(key)]
            source.members().contains_key(key) ==> target.members().contains_key(key)
                && item_is_subset(target.members()[key], source.members()[key])
    } else {
        target.is_value() && source.is_value() && value_is_subset(target, source)
    }
}

/// What is left of the item `target` after the item `source` has been taken out of it.
pub open spec fn item_left(target: TomlView, source: TomlView) -> TomlView
    decreases source, 1nat,
{
    if source.is_table_like() && target.is_table_like() {
        let rest = table_left(target, source);
        if rest.members() =~= Map::empty() {
            TomlView::Nothing
        } else {
            rest
        }
    } else {
        match (target, source) {
            (TomlView::Array(t), TomlView::Array(s)) => {
                let rest = without_items(t, s);
                if rest.len() == 0 {
                    TomlView::Nothing
                } else {
                    TomlView::Array(rest)
                }
            },
            _ => if target.is_value() && source.is_value() && value_is_subset(target, source) {
                TomlView::Nothing
            } else {
                target
            },
        }
    }
}

/// Whether an item holds nothing, or is a table without members.
pub open spec fn is_void(item: TomlView) -> bool {
    item is Nothing || (item.is_table_like() && item.members() =~= Map::empty())
}

/// The table `target` after the members of the table `source` have been taken out of it.
pub open spec fn table_left(target: TomlView, source: TomlView) -> TomlView
    decreases source, 0nat,
{
    target.with_members(
        Map::new(
            |key: Seq<char>|
                target.members().contains_key(key) && (source.members().contains_key(key)
                    ==> !is_void(item_left(target.members()[key], source.members()[key]))),
            |key: Seq<char>|
                if source.members().contains_key(key) {
                    item_left(target.members()[key], source.members()[key])
                } else {
                    target.members()[key]
                },
        ),
    )
}

/// The table `target` with the table `source` laid over it: tables are merged member by
/// member, and everything else of `source` takes the place of what `target` had.
pub open spec fn tables_merged(target: TomlView, source: TomlView) -> TomlView
    decreases source,
{
    match (target, source) {
        (TomlView::Table(t), TomlView::Table(s)) => TomlView::Table(
            Map::new(
                |key: Seq<char>| t.contains_key(key) || s.contains_key(key),
                |key: Seq<char>|
                    if !s.contains_key(key) {
                        t[key]
                    } else if t.contains_key(key) {
                        tables_merged(t[key], s[key])
                    } else {
                        s[key]
                    },
            ),
        ),
        _ => source,
    }
}

/// Whether what is written at a path can change when the table `source` is taken out of
/// another.
pub open spec fn takes_from(source: TomlView, path: Seq<Seq<char>>) -> bool
    decreases path.len(),
{
    &&& path.len() > 0
    &&& source.members().contains_key(path[0])
    &&& path.len() == 1 || !source.members()[path[0]].is_table_like() || takes_from(
        source.members()[path[0]],
        path.drop_first(),
    )
}

/// The paths at which something can change when the table `source` is taken out of
/// another.
pub open spec fn taken_paths(source: TomlView) -> Set<Seq<Seq<char>>> {
    Set::new(|path: Seq<Seq<char>>| takes_from(source, path))
}

/// Whether what is written at a path can change when the table `source` is laid over
/// another.
pub open spec fn lays_over(source: TomlView, path: Seq<Seq<char>>) -> bool
    decreases path.len(),
{
    &&& path.len() > 0
    &&& source.members().contains_key(path[0])
    &&& path.len() == 1 || !(source.members()[path[0]] is Table) || lays_over(
        source.members()[path[0]],
        path.drop_first(),
    )
}

/// The paths at which something can change when the table `source` is laid over another.
pub open spec fn laid_paths(source: TomlView) -> Set<Seq<Seq<char>>> {
    Set::new(|path: Seq<Seq<char>>| lays_over(source, path))
}

/// Compares two floats by their bits.
fn same_float(left: u64, right: u64) -> (r: bool)
    ensures
        r == floats_equal(left, right),
{
    let left_magnitude: u64 = left % 0x8000_0000_0000_0000;
    let right_magnitude: u64 = right % 0x8000_0000_0000_0000;
    left_magnitude <= 0x7ff0_0000_0000_0000 && (left == right || (left_magnitude == 0
        && right_magnitude == 0))
}

/// Tells whether the value `source` is part of the value `target`.
pub fn toml_value_is_subset(target: &toml_edit::Value, source: &toml_edit::Value) -> (r: bool)
    ensures
        r == value_is_subset(value_view(*target), value_view(*source)),
    decreases value_view(*source), 0nat,
{
    match (value_parts(target), value_parts(source)) {
        (ValueParts::Str(t), ValueParts::Str(s)) => same_text(t.as_str(), s.as_str()),
        (ValueParts::Integer(t), ValueParts::Integer(s)) => t == s,
        (ValueParts::Float(t), ValueParts::Float(s)) => same_float(t, s),
        (ValueParts::Boolean(t), ValueParts::Boolean(s)) => t == s,
        (ValueParts::Datetime(t), ValueParts::Datetime(s)) => same_text(t.as_str(), s.as_str()),
        (ValueParts::Array(t), ValueParts::Array(s)) => {
            assert(decreases_to!(value_view(*source) => value_view(*source)->Array_0));
            toml_array_contains_subset(&t, &s)
        },
        (ValueParts::Inline(_), ValueParts::Inline(names)) => {
            let mut i: usize = 0;
            while i < names.len()
                invariant
                    i <= names.len(),
                    value_view(*target) is Inline,
                    value_view(*source) is Inline,
                    forall|key: Seq<char>| #[trigger]
                        value_view(*source)->Inline_0.contains_key(key) ==> exists|j: int|
                            0 <= j < names@.len() && (#[trigger] names@[j])@ == key,
                    forall|j: int|
                        0 <= j < i && value_view(*source)->Inline_0.contains_key(
                            (#[trigger] names@[j])@,
                        ) ==> value_view(*target)->Inline_0.contains_key(names@[j]@)
                            && value_is_subset(
                            value_view(*target)->Inline_0[names@[j]@],
                            value_view(*source)->Inline_0[names@[j]@],
                        ),
                decreases names.len() - i,
            {
                if let Some(source_item) = inline_member(source, names[i]) {
                    let ghost key = names@[i as int]@;
                    assert(decreases_to!(value_view(*source) => value_view(*source)->Inline_0[key]));
                    let part = match (inline_member(target, names[i]), as_value(source_item)) {
                        (Some(target_item), Some(source_value)) => match as_value(target_item) {
                            Some(target_value) => toml_value_is_subset(target_value, source_value),
                            None => false,
                        },
                        _ => false,
                    };
                    if !part {
                        assert(!(value_view(*target)->Inline_0.contains_key(key)
                            && value_is_subset(
                            value_view(*target)->Inline_0[key],
                            value_view(*source)->Inline_0[key],
                        )));
                        return false;
                    }
                }
                i += 1;
            }
            true
        },
        _ => false,
    }
}

/// The first element of which `source` is part is the one at `i`.
proof fn lemma_first_superset(items: Seq<TomlView>, source: TomlView, i: int)
    requires
        0 <= i <= items.len(),
        forall|j: int| 0 <= j < i ==> !value_is_subset(#[trigger] items[j], source),
        i < items.len() ==> value_is_subset(items[i], source),
    ensures
        first_superset(items, source) == (if i < items.len() {
            Some(i)
        } else {
            None
        }),
    decreases items.len(),
{
    if items.len() > 0 && i > 0 {
        let rest = items.drop_first();
        assert(!value_is_subset(items[0], source));
        assert forall|j: int| 0 <= j < i - 1 implies !value_is_subset(#[trigger] rest[j], source) by {
            assert(rest[j] == items[j + 1]);
        }
        lemma_first_superset(rest, source, i - 1);
    }
}

/// Tells whether each element of `source` in turn is part of the first element of
/// `target` that is still free.
pub fn toml_array_contains_subset(
    target: &Vec<&toml_edit::Value>,
    source: &Vec<&toml_edit::Value>,
) -> (r: bool)
    ensures
        r == array_contains(values_view(target@), values_view(source@)),
    decreases values_view(source@), 0nat,
{
    let ghost wanted = values_view(source@);
    let mut free: Vec<&toml_edit::Value> = Vec::new();
    let mut k: usize = 0;
    while k < target.len()
        invariant
            k <= target.len(),
            free@ == target@.take(k as int),
        decreases target.len() - k,
    {
        free.push(target[k]);
        assert(free@ =~= target@.take(k + 1));
        k += 1;
    }
    let mut i: usize = 0;
    proof {
        assert(free@ =~= target@);
        assert(wanted.skip(0) =~= wanted);
    }
    while i < source.len()
        invariant
            i <= source.len(),
            wanted == values_view(source@),
            array_contains(values_view(free@), wanted.skip(i as int)) == array_contains(
                values_view(target@),
                wanted,
            ),
        decreases source.len() - i,
    {
        let mut n: usize = 0;
        assert(decreases_to!(wanted => wanted[i as int]));
        while n < free.len() && !toml_value_is_subset(free[n], source[i])
            invariant
                i < source.len(),
                n <= free.len(),
                wanted == values_view(source@),
                decreases_to!(wanted => wanted[i as int]),
                forall|j: int|
                    0 <= j < n ==> !value_is_subset(
                        #[trigger] values_view(free@)[j],
                        wanted[i as int],
                    ),
            decreases free.len() - n,
        {
            n += 1;
        }
        proof {
            let tail = wanted.skip(i as int);
            assert(tail[0] == wanted[i as int]);
            assert(tail.drop_first() =~= wanted.skip(i + 1));
            lemma_first_superset(values_view(free@), wanted[i as int], n as int);
        }
        if n == free.len() {
            return false;
        }
        let ghost before = free@;
        free.remove(n);
        assert(values_view(free@) =~= values_view(before).remove(n as int));
        i += 1;
    }
    assert(wanted.skip(i as int) =~= Seq::empty());
    true
}

/// The elements of an array, where the item is one.
fn elements(item: &toml_edit::Item) -> (r: Option<Vec<&toml_edit::Value>>)
    ensures
        match r {
            Some(values) => item_view(*item) == TomlView::Array(values_view(values@)),
            None => !(item_view(*item) is Array),
        },
{
    match as_value(item) {
        Some(value) => match value_parts(value) {
            ValueParts::Array(values) => Some(values),
            _ => None,
        },
        None => None,
    }
}

/// The place of the first element of which `source` is part.
fn toml_position(items: &Vec<&toml_edit::Value>, source: &toml_edit::Value) -> (r: Option<usize>)
    ensures
        match r {
            Some(i) => first_superset(values_view(items@), value_view(*source)) == Some(i as int)
                && i < items.len(),
            None => first_superset(values_view(items@), value_view(*source)) is None,
        },
{
    let mut i: usize = 0;
    while i < items.len() && !toml_value_is_subset(items[i], source)
        invariant
            i <= items.len(),
            forall|j: int|
                0 <= j < i ==> !value_is_subset(
                    #[trigger] values_view(items@)[j],
                    value_view(*source),
                ),
        decreases items.len() - i,
    {
        i += 1;
    }
    proof {
        lemma_first_superset(values_view(items@), value_view(*source), i as int);
    }
    if i < items.len() {
        Some(i)
    } else {
        None
    }
}

/// Takes an element out of an array, whatever places without a value there are.
fn remove_element(item: &mut toml_edit::Item, index: usize)
    requires
        item_view(*old(item)) is Array,
        index < item_view(*old(item))->Array_0.len(),
    ensures
        item_view(*final(item)) == TomlView::Array(
            item_view(*old(item))->Array_0.remove(index as int),
        ),
{
    let count = place_count(item);
    let ghost places = value_places(*item);
    let mut seen: usize = 0;
    let mut place: usize = 0;
    assert(places.take(count as int) =~= places);
    while place < count
        invariant
            place <= count,
            seen <= place,
            seen <= index,
            *item == *old(item),
            item_view(*item) is Array,
            index < item_view(*item)->Array_0.len(),
            places == value_places(*item),
            places.len() == count,
            places.take(count as int) == places,
            values_among(places) == item_view(*item)->Array_0.len(),
            seen == values_among(places.take(place as int)),
        decreases count - place,
    {
        assert(places.take(place + 1).drop_last() =~= places.take(place as int));
        assert(places.take(place + 1).last() == places[place as int]);
        if holds_value(item, place) {
            if seen == index {
                remove_place(item, place);
                return ;
            }
            seen += 1;
        }
        place += 1;
    }
}

/// Takes out of the array `target`, for each element of `source` in turn, the first
/// element of which it is part.
pub fn toml_remove_array_items(target: &mut toml_edit::Item, source: &Vec<&toml_edit::Value>)
    requires
        item_view(*old(target)) is Array,
    ensures
        item_view(*final(target)) == TomlView::Array(
            without_items(item_view(*old(target))->Array_0, values_view(source@)),
        ),
{
    let ghost wanted = values_view(source@);
    let mut i: usize = 0;
    proof {
        assert(wanted.skip(0) =~= wanted);
    }
    while i < source.len()
        invariant
            i <= source.len(),
            wanted == values_view(source@),
            item_view(*target) is Array,
            without_items(item_view(*target)->Array_0, wanted.skip(i as int)) == without_items(
                item_view(*old(target))->Array_0,
                wanted,
            ),
        decreases source.len() - i,
    {
        proof {
            let tail = wanted.skip(i as int);
            assert(tail[0] == wanted[i as int]);
            assert(tail.drop_first() =~= wanted.skip(i + 1));
        }
        let place: Option<usize> = match elements(target) {
            Some(values) => toml_position(&values, source[i]),
            None => None,
        };
        if let Some(n) = place {
            remove_element(target, n);
        }
        i += 1;
    }
    assert(wanted.skip(i as int) =~= Seq::empty());
}

/// Tells whether the item `source` is part of the item `target`.
pub fn toml_item_is_subset(target: &toml_edit::Item, source: &toml_edit::Item) -> (r: bool)
    ensures
        r == item_is_subset(item_view(*target), item_view(*source)),
    decreases item_view(*source),
{
    if is_table_like(source) {
        if !is_table_like(target) {
            return false;
        }
        let keys = table_keys(source);
        let mut i: usize = 0;
        while i < keys.len()
            invariant
                i <= keys.len(),
                item_view(*source).is_table_like(),
                item_view(*target).is_table_like(),
                forall|key: Seq<char>| #[trigger]
                    item_view(*source).members().contains_key(key) ==> texts(keys@).contains(key),
                forall|j: int|
                    0 <= j < i && item_view(*source).members().contains_key(
                        #[trigger] texts(keys@)[j],
                    ) ==> item_view(*target).members().contains_key(texts(keys@)[j])
                        && item_is_subset(
                        item_view(*target).members()[texts(keys@)[j]],
                        item_view(*source).members()[texts(keys@)[j]],
                    ),
            decreases keys.len() - i,
        {
            let ghost key = texts(keys@)[i as int];
            if let Some(source_item) = get(source, keys[i].as_str()) {
                proof {
                    lemma_member_decreases(item_view(*source), key);
                }
                let part = match get(target, keys[i].as_str()) {
                    Some(target_item) => toml_item_is_subset(target_item, source_item),
                    None => false,
                };
                if !part {
                    return false;
                }
            }
            i += 1;
        }
        assert forall|key: Seq<char>| #[trigger]
            item_view(*source).members().contains_key(key) implies item_view(
            *target,
        ).members().contains_key(key) && item_is_subset(
            item_view(*target).members()[key],
            item_view(*source).members()[key],
        ) by {
            let j = choose|j: int| 0 <= j < texts(keys@).len() && texts(keys@)[j] == key;
            assert(texts(keys@)[j] == key);
        }
        return true;
    }
    match (as_value(target), as_value(source)) {
        (Some(target_value), Some(source_value)) => toml_value_is_subset(
            target_value,
            source_value,
        ),
        _ => false,
    }
}

/// A member of a table is smaller than the table.
proof fn lemma_member_decreases(item: TomlView, key: Seq<char>)
    requires
        item.is_table_like(),
        item.members().contains_key(key),
    ensures
        decreases_to!(item => item.members()[key]),
{
    match item {
        TomlView::Table(members) => {
            assert(decreases_to!(item => item->Table_0[key]));
        },
        TomlView::Inline(members) => {
            assert(decreases_to!(item => item->Inline_0[key]));
        },
        _ => {},
    }
}

/// Tables of one kind that agree under every name are equal.
proof fn lemma_same_members(left: TomlView, right: TomlView)
    requires
        left.is_table_like(),
        right.is_table_like(),
        left is Table <==> right is Table,
        forall|key: Seq<char>| #[trigger]
            left.members().contains_key(key) <==> right.members().contains_key(key),
        forall|key: Seq<char>|
            #![trigger left.members()[key]]
            left.members().contains_key(key) ==> left.members()[key] == right.members()[key],
    ensures
        left == right,
{
    assert(left.members() =~= right.members());
}

/// Takes the item `source` out of the item `target`.
pub fn remove_toml_item(target: &mut toml_edit::Item, source: &toml_edit::Item)
    ensures
        item_view(*final(target)) == item_left(item_view(*old(target)), item_view(*source)),
        lines_kept(
            item_lines(*old(target)),
            item_lines(*final(target)),
            taken_paths(item_view(*source)),
        ),
    decreases item_view(*source), 1nat,
{
    if is_table_like(source) && is_table_like(target) {
        remove_toml_table_like(target, source);
        if is_empty_table(target) {
            *target = nothing();
        }
        return;
    }
    let source_value = match as_value(source) {
        Some(value) => value,
        None => {
            return;
        },
    };
    let (arrays, gone) = match (as_value(target), elements(source)) {
        (Some(_), Some(_)) if is_array(target) => (true, false),
        (Some(target_value), _) => (false, toml_value_is_subset(target_value, source_value)),
        (None, _) => (false, false),
    };
    if arrays {
        if let Some(values) = elements(source) {
            toml_remove_array_items(target, &values);
            let empty = match elements(target) {
                Some(left) => left.len() == 0,
                None => false,
            };
            if empty {
                *target = nothing();
            }
        }
    } else if gone {
        *target = nothing();
    }
}

/// Tells whether the item is an array.
fn is_array(item: &toml_edit::Item) -> (r: bool)
    ensures
        r == item_view(*item) is Array,
{
    elements(item).is_some()
}

/// Takes the members of the table `source` out of the table `target`.
pub fn remove_toml_table_like(target: &mut toml_edit::Item, source: &toml_edit::Item)
    requires
        item_view(*old(target)).is_table_like(),
        item_view(*source).is_table_like(),
    ensures
        item_view(*final(target)) == table_left(item_view(*old(target)), item_view(*source)),
        lines_kept(
            item_lines(*old(target)),
            item_lines(*final(target)),
            taken_paths(item_view(*source)),
        ),
    decreases item_view(*source), 0nat,
{
    let keys = table_keys(source);
    let ghost before = item_view(*target);
    let ghost touched = taken_paths(item_view(*source));
    let ghost wanted = table_left(before, item_view(*source));
    let mut i: usize = 0;
    while i < keys.len()
        invariant
            i <= keys.len(),
            texts(keys@).no_duplicates(),
            forall|key: Seq<char>| #[trigger]
                item_view(*source).members().contains_key(key) ==> texts(keys@).contains(key),
            item_view(*source).is_table_like(),
            before.is_table_like(),
            wanted == table_left(before, item_view(*source)),
            item_view(*target).is_table_like(),
            item_view(*target) is Table <==> before is Table,
            touched == taken_paths(item_view(*source)),
            lines_kept(item_lines(*old(target)), item_lines(*target), touched),
            forall|key: Seq<char>| #[trigger]
                item_view(*target).member(key) == (if texts(keys@).take(i as int).contains(key) {
                    wanted.member(key)
                } else {
                    before.member(key)
                }),
            forall|key: Seq<char>| #[trigger]
                item_view(*target).members().contains_key(key) <==> (if texts(keys@).take(
                    i as int,
                ).contains(key) {
                    wanted.members().contains_key(key)
                } else {
                    before.members().contains_key(key)
                }),
        decreases keys.len() - i,
    {
        let ghost key = texts(keys@)[i as int];
        let ghost partly = item_view(*target);
        proof {
            lemma_next_name(texts(keys@), i as int);
            assert(partly.member(key) == before.member(key));
            assert(partly.members().contains_key(key) <==> before.members().contains_key(key));
        }
        let mut gone = false;
        let ghost lines_before = item_lines(*target);
        if let Some(source_item) = get(source, keys[i].as_str()) {
            proof {
                lemma_member_decreases(item_view(*source), key);
            }
            let ghost below = taken_paths(item_view(*source_item));
            let ghost mut found = false;
            if let Some(target_item) = get_mut(target, keys[i].as_str()) {
                remove_toml_item(target_item, source_item);
                gone = is_nothing(target_item) || is_empty_table(target_item);
                proof {
                    found = true;
                }
            }
            proof {
                if found && before is Table {
                    assert(takes_from(item_view(*source), seq![key]));
                    lemma_lines_kept_below(lines_before, item_lines(*target), key, below, touched);
                }
            }
        }
        let ghost lines_between = item_lines(*target);
        assert(lines_kept(lines_before, lines_between, touched));
        if gone {
            remove(target, keys[i].as_str());
            proof {
                if before is Table {
                    assert(takes_from(item_view(*source), seq![key]));
                    lemma_nothing_below(lines_between, item_lines(*target), key, touched);
                }
            }
        }
        assert(lines_kept(lines_before, item_lines(*target), touched));
        proof {
            assert(texts(keys@)[i as int] == keys@[i as int]@);
            assert forall|k: Seq<char>| #[trigger]
                item_view(*target).member(k) == (if texts(keys@).take(i + 1).contains(k) {
                    wanted.member(k)
                } else {
                    before.member(k)
                }) by {
                if k != key {
                    assert(item_view(*target).member(k) == partly.member(k));
                }
            }
            assert forall|k: Seq<char>| #[trigger]
                item_view(*target).members().contains_key(k) <==> (if texts(keys@).take(
                    i + 1,
                ).contains(k) {
                    wanted.members().contains_key(k)
                } else {
                    before.members().contains_key(k)
                }) by {
                if k != key {
                    assert(item_view(*target).members().contains_key(k)
                        <==> partly.members().contains_key(k));
                }
            }
        }
        i += 1;
    }
    proof {
        assert(texts(keys@).take(i as int) =~= texts(keys@));
        assert forall|key: Seq<char>|
            #![trigger item_view(*target).members()[key]]
            item_view(*target).members().contains_key(key) implies item_view(
            *target,
        ).members()[key] == wanted.members()[key] by {
            assert(item_view(*target).member(key) == (if texts(keys@).contains(key) {
                wanted.member(key)
            } else {
                before.member(key)
            }));
        }
        lemma_same_members(item_view(*target), wanted);
    }
}

/// Lays the table `source` over the table `target`.
pub fn merge_toml_tables(target: &mut toml_edit::Item, source: &toml_edit::Item)
    requires
        item_view(*old(target)) is Table,
        item_view(*source) is Table,
    ensures
        item_view(*final(target)) == tables_merged(item_view(*old(target)), item_view(*source)),
        lines_kept(
            item_lines(*old(target)),
            item_lines(*final(target)),
            laid_paths(item_view(*source)),
        ),
    decreases item_view(*source),
{
    let keys = table_keys(source);
    let ghost before = item_view(*target);
    let ghost touched = laid_paths(item_view(*source));
    let ghost wanted = tables_merged(before, item_view(*source));
    let mut i: usize = 0;
    while i < keys.len()
        invariant
            i <= keys.len(),
            texts(keys@).no_duplicates(),
            forall|key: Seq<char>| #[trigger]
                item_view(*source).members().contains_key(key) ==> texts(keys@).contains(key),
            item_view(*source) is Table,
            before is Table,
            wanted == tables_merged(before, item_view(*source)),
            item_view(*target) is Table,
            touched == laid_paths(item_view(*source)),
            lines_kept(item_lines(*old(target)), item_lines(*target), touched),
            forall|key: Seq<char>| #[trigger]
                item_view(*target).members().contains_key(key) <==> (if texts(keys@).take(
                    i as int,
                ).contains(key) {
                    wanted.members().contains_key(key)
                } else {
                    before.members().contains_key(key)
                }),
            forall|key: Seq<char>|
                #![trigger item_view(*target).members()[key]]
                item_view(*target).members().contains_key(key) ==> item_view(
                    *target,
                ).members()[key] == (if texts(keys@).take(i as int).contains(key) {
                    wanted.members()[key]
                } else {
                    before.members()[key]
                }),
        decreases keys.len() - i,
    {
        let ghost key = texts(keys@)[i as int];
        let ghost partly = item_view(*target);
        proof {
            lemma_next_name(texts(keys@), i as int);
            assert(partly.members().contains_key(key) <==> before.members().contains_key(key));
            assert(before.members().contains_key(key) ==> partly.members()[key]
                == before.members()[key]);
        }
        if let Some(source_item) = get(source, keys[i].as_str()) {
            proof {
                lemma_member_decreases(item_view(*source), key);
            }
            let mut fresh = true;
            let ghost lines_before = item_lines(*target);
            let ghost below = laid_paths(item_view(*source_item));
            let ghost mut merged = false;
            let ghost mut lines_inside = item_lines(*target);
            if let Some(target_item) = get_mut(target, keys[i].as_str()) {
                proof {
                    lines_inside = item_lines(*target_item);
                }
                if is_table(source_item) && is_table(target_item) {
                    merge_toml_tables(target_item, source_item);
                    proof {
                        merged = true;
                    }
                } else {
                    assert(item_view(*source_item) is Table ==> lines_inside =~= Map::empty());
                    *target_item = copy_item(source_item);
                }
                fresh = false;
            }
            if fresh {
                insert(target, keys[i].as_str(), copy_item(source_item));
            }
            proof {
                assert(lays_over(item_view(*source), seq![key]));
                if merged {
                    lemma_lines_kept_below(lines_before, item_lines(*target), key, below, touched);
                } else {
                    assert forall|path: Seq<Seq<char>>| #[trigger]
                        lines_before.contains_key(path) && !touched.contains(path) implies path.len()
                        == 0 || path[0] != key by {
                        if path.len() > 0 && path[0] == key {
                            if path.len() == 1 {
                                assert(path =~= seq![key]);
                            }
                            assert(seq![key] + path.drop_first() =~= path);
                            assert(lines_below(lines_before, key).contains_key(path.drop_first()));
                        }
                    }
                }
                assert(lines_kept(lines_before, item_lines(*target), touched));
            }
            proof {
                if before.members().contains_key(key) {
                    assert(item_view(*target) == partly.with_member(
                        key,
                        tables_merged(before.members()[key], item_view(*source_item)),
                    ));
                } else {
                    assert(item_view(*target) == partly.with_member(key, item_view(*source_item)));
                }
            }
        }
        proof {
            assert(texts(keys@)[i as int] == keys@[i as int]@);
            assert forall|k: Seq<char>| #[trigger]
                item_view(*target).members().contains_key(k) <==> (if texts(keys@).take(
                    i + 1,
                ).contains(k) {
                    wanted.members().contains_key(k)
                } else {
                    before.members().contains_key(k)
                }) by {
                if k != key {
                    assert(item_view(*target).members().contains_key(k)
                        <==> partly.members().contains_key(k));
                }
            }
            assert forall|k: Seq<char>|
                #![trigger item_view(*target).members()[k]]
                item_view(*target).members().contains_key(k) implies item_view(
                *target,
            ).members()[k] == (if texts(keys@).take(i + 1).contains(k) {
                wanted.members()[k]
            } else {
                before.members()[k]
            }) by {
                if k != key {
                    assert(item_view(*target).members()[k] == partly.members()[k]);
                    assert(partly.members().contains_key(k));
                }
            }
        }
        i += 1;
    }
    proof {
        assert(texts(keys@).take(i as int) =~= texts(keys@));
        assert forall|key: Seq<char>| #[trigger]
            item_view(*target).members().contains_key(key) <==> wanted.members().contains_key(
                key,
            ) by {
            assert(item_view(*source).members().contains_key(key) ==> texts(keys@).contains(key));
        }
        assert forall|key: Seq<char>|
            #![trigger item_view(*target).members()[key]]
            item_view(*target).members().contains_key(key) implies item_view(
            *target,
        ).members()[key] == wanted.members()[key] by {
            assert(item_view(*source).members().contains_key(key) ==> texts(keys@).contains(key));
        }
        lemma_same_members(item_view(*target), wanted);
    }
}

} // verus!
