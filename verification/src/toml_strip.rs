//! How the members that two TOML tables have in common are taken out of one of them.
use vstd::prelude::*;

use crate::json::lemma_next_name;
use crate::service::ProviderService;
use crate::text::{same_text, texts, trim, trimmed};
use crate::toml_doc::{
    get, get_mut, is_empty_table, is_table, remove, table_keys, write_item, TomlLayout,
};
use crate::toml_doc::{item_layout, item_view};

verus! {

/// Whether two items are written alike, but for the blanks around them.
pub open spec fn written_alike(left: TomlLayout, right: TomlLayout) -> bool {
    trimmed(left.text()) == trimmed(right.text())
}

/// What is left of a member after the member of the same name of another table has been
/// taken out of it; `None` where nothing is left.
pub open spec fn entry_left(target: TomlLayout, source: TomlLayout) -> Option<TomlLayout>
    decreases source, 1nat,
{
    match (target, source) {
        (TomlLayout::Table(_, _), TomlLayout::Table(_, _)) => {
            let rest = entries_left(target, source);
            if rest.entries() =~= Map::empty() {
                None
            } else {
                Some(rest)
            }
        },
        _ => if written_alike(target, source) {
            None
        } else {
            Some(target)
        },
    }
}

/// The table `target` without the members that it has in common with the table `source`.
/// How it is written then is left open.
pub open spec fn entries_left(target: TomlLayout, source: TomlLayout) -> TomlLayout
    decreases source, 0nat,
{
    match (target, source) {
        (TomlLayout::Table(text, t), TomlLayout::Table(_, s)) => TomlLayout::Table(
            text,
            Map::new(
                |key: Seq<char>|
                    t.contains_key(key) && (s.contains_key(key) ==> entry_left(
                        t[key],
                        s[key],
                    ) is Some),
                |key: Seq<char>|
                    if s.contains_key(key) {
                        entry_left(t[key], s[key])->0
                    } else {
                        t[key]
                    },
            ),
        ),
        _ => target,
    }
}

/// Whether two items have the same members, and those that are no tables are written the
/// same.
pub open spec fn same_entries(left: TomlLayout, right: TomlLayout) -> bool
    decreases left,
{
    match (left, right) {
        (TomlLayout::Other(l), TomlLayout::Other(r)) => l == r,
        (TomlLayout::Table(_, l), TomlLayout::Table(_, r)) => {
            &&& l.dom() == r.dom()
            &&& forall|key: Seq<char>|
                #![trigger l.contains_key(key)]
                l.contains_key(key) ==> same_entries(l[key], r[key])
        },
        _ => false,
    }
}

/// An item has the same members as itself.
proof fn lemma_same_as_itself(item: TomlLayout)
    ensures
        same_entries(item, item),
    decreases item,
{
    if let TomlLayout::Table(_, members) = item {
        assert forall|key: Seq<char>| #[trigger] members.contains_key(key) implies same_entries(
            members[key],
            members[key],
        ) by {
            lemma_same_as_itself(members[key]);
        }
    }
}

/// Items with the same members are empty tables together.
proof fn lemma_same_emptiness(left: TomlLayout, right: TomlLayout)
    requires
        same_entries(left, right),
    ensures
        left.entries() =~= Map::empty() <==> right.entries() =~= Map::empty(),
{
    if let (TomlLayout::Table(_, l), TomlLayout::Table(_, r)) = (left, right) {
        if l =~= Map::empty() {
            assert(r.dom() =~= Set::empty());
            assert(r =~= Map::empty());
        }
        if r =~= Map::empty() {
            assert(l.dom() =~= Set::empty());
            assert(l =~= Map::empty());
        }
    }
}

impl ProviderService {
    /// Tells whether two items are written alike, but for the blanks around them.
    pub fn toml_items_equal(left: &toml_edit::Item, right: &toml_edit::Item) -> (r: bool)
        ensures
            r == written_alike(item_layout(*left), item_layout(*right)),
    {
        let left = write_item(left);
        let right = write_item(right);
        same_text(trim(left.as_str()), trim(right.as_str()))
    }

    /// Takes the members that two tables have in common out of the first.
    pub fn strip_toml_tables(target: &mut toml_edit::Item, source: &toml_edit::Item)
        requires
            item_view(*old(target)) is Table,
            item_layout(*old(target)) is Table,
            item_layout(*source) is Table,
        ensures
            item_view(*final(target)) is Table,
            item_layout(*final(target)) is Table,
            same_entries(
                item_layout(*final(target)),
                entries_left(item_layout(*old(target)), item_layout(*source)),
            ),
        decreases item_layout(*source),
    {
        let keys = table_keys(source);
        let ghost before = item_layout(*target).entries();
        let ghost wanted = entries_left(item_layout(*target), item_layout(*source)).entries();
        let ghost common = item_layout(*source).entries();
        let mut i: usize = 0;
        proof {
            assert forall|key: Seq<char>| #[trigger] before.contains_key(key) implies same_entries(
                before[key],
                before[key],
            ) by {
                lemma_same_as_itself(before[key]);
            }
        }
        while i < keys.len()
            invariant
                i <= keys.len(),
                texts(keys@).no_duplicates(),
                item_layout(*source) is Table,
                common == item_layout(*source).entries(),
                forall|key: Seq<char>| #[trigger]
                    common.contains_key(key) ==> texts(keys@).contains(key),
                item_layout(*target) is Table,
                item_view(*target) is Table,
                item_layout(*old(target)) is Table,
                before == item_layout(*old(target)).entries(),
                wanted == entries_left(item_layout(*old(target)), item_layout(*source)).entries(),
                forall|key: Seq<char>| #[trigger]
                    item_layout(*target).entries().contains_key(key) <==> (if texts(keys@).take(
                        i as int,
                    ).contains(key) {
                        wanted.contains_key(key)
                    } else {
                        before.contains_key(key)
                    }),
                forall|key: Seq<char>|
                    #![trigger item_layout(*target).entries()[key]]
                    item_layout(*target).entries().contains_key(key) ==> same_entries(
                        item_layout(*target).entries()[key],
                        if texts(keys@).take(i as int).contains(key) {
                            wanted[key]
                        } else {
                            before[key]
                        },
                    ),
                forall|key: Seq<char>|
                    #![trigger item_layout(*target).entries()[key]]
                    item_layout(*target).entries().contains_key(key) && !texts(keys@).take(
                        i as int,
                    ).contains(key) ==> item_layout(*target).entries()[key] == before[key],
            decreases keys.len() - i,
        {
            let ghost key = texts(keys@)[i as int];
            let ghost partly = item_layout(*target).entries();
            proof {
                lemma_next_name(texts(keys@), i as int);
                assert(texts(keys@)[i as int] == keys@[i as int]@);
                assert(partly.contains_key(key) <==> before.contains_key(key));
                assert(before.contains_key(key) ==> partly[key] == before[key]);
            }
            let mut gone = false;
            if let Some(source_item) = get(source, keys[i].as_str()) {
                assert(decreases_to!(item_layout(*source) => item_layout(*source)->Table_1[key]));
                if let Some(target_item) = get_mut(target, keys[i].as_str()) {
                    if is_table(target_item) && is_table(source_item) {
                        Self::strip_toml_tables(target_item, source_item);
                        gone = is_empty_table(target_item);
                        proof {
                            lemma_same_emptiness(
                                item_layout(*target_item),
                                entries_left(before[key], common[key]),
                            );
                        }
                    } else {
                        gone = Self::toml_items_equal(target_item, source_item);
                        proof {
                            lemma_same_as_itself(before[key]);
                        }
                    }
                }
            }
            if gone {
                remove(target, keys[i].as_str());
            }
            proof {
                assert forall|k: Seq<char>| #[trigger]
                    item_layout(*target).entries().contains_key(k) <==> (if texts(keys@).take(
                        i + 1,
                    ).contains(k) {
                        wanted.contains_key(k)
                    } else {
                        before.contains_key(k)
                    }) by {
                    if k != key {
                        assert(item_layout(*target).entries().contains_key(k)
                            <==> partly.contains_key(k));
                    }
                }
                assert forall|k: Seq<char>|
                    #![trigger item_layout(*target).entries()[k]]
                    item_layout(*target).entries().contains_key(k) implies same_entries(
                    item_layout(*target).entries()[k],
                    if texts(keys@).take(i + 1).contains(k) {
                        wanted[k]
                    } else {
                        before[k]
                    },
                ) by {
                    if k != key {
                        assert(partly.contains_key(k));
                        assert(item_layout(*target).entries()[k] == partly[k]);
                    } else if !common.contains_key(key) {
                        lemma_same_as_itself(before[key]);
                    }
                }
                assert forall|k: Seq<char>|
                    #![trigger item_layout(*target).entries()[k]]
                    item_layout(*target).entries().contains_key(k) && !texts(keys@).take(
                        i + 1,
                    ).contains(k) implies item_layout(*target).entries()[k] == before[k] by {
                    assert(k != key);
                    assert(partly.contains_key(k));
                    assert(item_layout(*target).entries()[k] == partly[k]);
                }
            }
            i += 1;
        }
        proof {
            assert(texts(keys@).take(i as int) =~= texts(keys@));
            let after = item_layout(*target).entries();
            assert forall|key: Seq<char>| #[trigger] after.contains_key(key)
                <==> wanted.contains_key(key) by {
                assert(common.contains_key(key) ==> texts(keys@).contains(key));
            }
            assert(after.dom() =~= wanted.dom());
            assert forall|key: Seq<char>| #[trigger] after.contains_key(key) implies same_entries(
                after[key],
                wanted[key],
            ) by {
                assert(common.contains_key(key) ==> texts(keys@).contains(key));
            }
        }
    }
}

} // verus!
