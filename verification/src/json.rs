//! JSON documents: what they hold, which one is part of another, and how one is merged
//! into or taken out of another.
use vstd::prelude::*;

use crate::json_value::{copy_number, same_number};
use crate::json_value::number_id;
use crate::text::{same_text, texts};

verus! {

/// What a JSON document holds. The members of an object have no order.
#[verifier::ext_equal]
pub enum JsonView {
    Null,
    Bool(bool),
    /// A number, by its identity.
    Number(int),
    Str(Seq<char>),
    Array(Seq<JsonView>),
    Object(Map<Seq<char>, JsonView>),
}

/// A JSON document. Where an object names a member twice, the first one counts.
pub enum Json {
    Null,
    Bool(bool),
    Number(serde_json::Number),
    Str(String),
    Array(Vec<Json>),
    Object(Vec<(String, Json)>),
}

/// What the elements of an array hold.
pub open spec fn items_view(items: Seq<Json>) -> Seq<JsonView>
    decreases items,
{
    Seq::new(
        items.len(),
        |i: int|
            if 0 <= i < items.len() {
                items[i].view()
            } else {
                JsonView::Null
            },
    )
}

/// The members of an object, by name.
pub open spec fn members_view(members: Seq<(String, Json)>) -> Map<Seq<char>, JsonView>
    decreases members,
{
    if members.len() == 0 {
        Map::empty()
    } else {
        members_view(members.drop_first()).insert(members[0].0@, members[0].1.view())
    }
}

impl Json {
    /// What the document holds.
    pub open spec fn view(self) -> JsonView
        decreases self,
    {
        match self {
            Json::Null => JsonView::Null,
            Json::Bool(b) => JsonView::Bool(b),
            Json::Number(n) => JsonView::Number(number_id(n)),
            Json::Str(s) => JsonView::Str(s@),
            Json::Array(items) => JsonView::Array(items_view(items@)),
            Json::Object(members) => JsonView::Object(members_view(members@)),
        }
    }
}

/// The member of that name, where the document is an object that has one.
pub open spec fn field(json: JsonView, key: Seq<char>) -> Option<JsonView> {
    match json {
        JsonView::Object(members) => if members.contains_key(key) {
            Some(members[key])
        } else {
            None
        },
        _ => None,
    }
}

/// Whether `source` is part of `target`: every member of an object of `source` is found
/// in `target` with a part of its value, every element of an array of `source` is part
/// of an element of its own in the array of `target`, and all else is equal.
pub open spec fn is_subset(target: JsonView, source: JsonView) -> bool
    decreases source, 0nat,
{
    match source {
        JsonView::Object(s) => {
            &&& target matches JsonView::Object(t)
            &&& forall|key: Seq<char>|
                #![trigger s.contains_key(key)]
                s.contains_key(key) ==> t.contains_key(key) && is_subset(t[key], s[key])
        },
        JsonView::Array(s) => target matches JsonView::Array(t) && array_contains(t, s),
        _ => target == source,
    }
}

/// The first element of `items` of which `source` is part.
pub open spec fn first_superset(items: Seq<JsonView>, source: JsonView) -> Option<int>
    decreases source, 1nat, items.len(),
{
    if items.len() == 0 {
        None
    } else if is_subset(items[0], source) {
        Some(0int)
    } else {
        match first_superset(items.drop_first(), source) {
            Some(i) => Some(i + 1),
            None => None,
        }
    }
}

/// Whether each element of `source` in turn is part of the first element of `target`
/// that is still free.
pub open spec fn array_contains(target: Seq<JsonView>, source: Seq<JsonView>) -> bool
    decreases source,
{
    if source.len() == 0 {
        true
    } else {
        match first_superset(target, source[0]) {
            Some(i) => array_contains(target.remove(i), source.drop_first()),
            None => false,
        }
    }
}

/// `target` after each element of `source` in turn has taken out the first element of
/// which it is part, where there is one.
pub open spec fn without_items(target: Seq<JsonView>, source: Seq<JsonView>) -> Seq<JsonView>
    decreases source,
{
    if source.len() == 0 {
        target
    } else {
        match first_superset(target, source[0]) {
            Some(i) => without_items(target.remove(i), source.drop_first()),
            None => without_items(target, source.drop_first()),
        }
    }
}

/// `target` without what it shares with `source`: member by member where both are
/// objects, and unchanged where they are not.
pub open spec fn deep_removed(target: JsonView, source: JsonView) -> JsonView
    decreases source, 0nat,
{
    match (target, source) {
        (JsonView::Object(t), JsonView::Object(s)) => JsonView::Object(
            Map::new(
                |key: Seq<char>|
                    t.contains_key(key) && (s.contains_key(key) ==> member_left(
                        t[key],
                        s[key],
                    ) is Some),
                |key: Seq<char>|
                    if s.contains_key(key) {
                        member_left(t[key], s[key])->0
                    } else {
                        t[key]
                    },
            ),
        ),
        _ => target,
    }
}

/// What is left of the member `target` after the common member `source` has been taken
/// out of it; `None` where nothing is left.
pub open spec fn member_left(target: JsonView, source: JsonView) -> Option<JsonView>
    decreases source, 1nat,
{
    match (target, source) {
        (JsonView::Object(t), JsonView::Object(s)) => {
            let rest = deep_removed(target, source);
            if rest->Object_0 =~= Map::empty() {
                None
            } else {
                Some(rest)
            }
        },
        (JsonView::Array(t), JsonView::Array(s)) => {
            let rest = without_items(t, s);
            if rest.len() == 0 {
                None
            } else {
                Some(JsonView::Array(rest))
            }
        },
        _ => if is_subset(target, source) {
            None
        } else {
            Some(target)
        },
    }
}

/// `base` with `overlay` laid over it: objects are merged member by member, and
/// everything else of `overlay` takes the place of what `base` had.
pub open spec fn merged(base: JsonView, overlay: JsonView) -> JsonView
    decreases overlay,
{
    match (base, overlay) {
        (JsonView::Object(b), JsonView::Object(o)) => JsonView::Object(
            Map::new(
                |key: Seq<char>| b.contains_key(key) || o.contains_key(key),
                |key: Seq<char>|
                    if !o.contains_key(key) {
                        b[key]
                    } else if b.contains_key(key) {
                        merged(b[key], o[key])
                    } else {
                        o[key]
                    },
            ),
        ),
        _ => overlay,
    }
}

/// The member that counts under a name is the first of that name.
proof fn lemma_member_found(members: Seq<(String, Json)>, i: int)
    requires
        0 <= i < members.len(),
        forall|j: int| 0 <= j < i ==> (#[trigger] members[j]).0@ != members[i].0@,
    ensures
        members_view(members).contains_key(members[i].0@),
        members_view(members)[members[i].0@] == members[i].1@,
    decreases members.len(),
{
    if i > 0 {
        let rest = members.drop_first();
        assert(members[0].0@ != members[i].0@);
        assert forall|j: int| 0 <= j < i - 1 implies (#[trigger] rest[j]).0@ != rest[i - 1].0@ by {
            assert(rest[j] == members[j + 1]);
        }
        lemma_member_found(rest, i - 1);
    }
}

/// A name that no member has is not in the object.
proof fn lemma_member_absent(members: Seq<(String, Json)>, key: Seq<char>)
    requires
        forall|j: int| 0 <= j < members.len() ==> (#[trigger] members[j]).0@ != key,
    ensures
        !members_view(members).contains_key(key),
    decreases members.len(),
{
    if members.len() > 0 {
        let rest = members.drop_first();
        assert(members[0].0@ != key);
        assert forall|j: int| 0 <= j < rest.len() implies (#[trigger] rest[j]).0@ != key by {
            assert(rest[j] == members[j + 1]);
        }
        lemma_member_absent(rest, key);
    }
}

/// To change the member that counts is to change the object under its name.
proof fn lemma_member_changed(members: Seq<(String, Json)>, i: int, value: Json)
    requires
        0 <= i < members.len(),
        forall|j: int| 0 <= j < i ==> (#[trigger] members[j]).0@ != members[i].0@,
    ensures
        members_view(members.update(i, (members[i].0, value))) == members_view(members).insert(
            members[i].0@,
            value@,
        ),
    decreases members.len(),
{
    let changed = members.update(i, (members[i].0, value));
    if i == 0 {
        assert(changed.drop_first() =~= members.drop_first());
        assert(members_view(changed) =~= members_view(members).insert(members[i].0@, value@));
    } else {
        let rest = members.drop_first();
        assert(members[0].0@ != members[i].0@);
        assert forall|j: int| 0 <= j < i - 1 implies (#[trigger] rest[j]).0@ != rest[i - 1].0@ by {
            assert(rest[j] == members[j + 1]);
        }
        lemma_member_changed(rest, i - 1, value);
        assert(changed.drop_first() =~= rest.update(i - 1, (members[i].0, value)));
        assert(members_view(changed) =~= members_view(members).insert(members[i].0@, value@));
    }
}

/// Looks for the first member of that name.
fn find_member(members: &Vec<(String, Json)>, key: &str) -> (r: Option<usize>)
    ensures
        match r {
            Some(i) => {
                &&& i < members.len()
                &&& members@[i as int].0@ == key@
                &&& forall|j: int| 0 <= j < i ==> (#[trigger] members@[j]).0@ != key@
                &&& members_view(members@).contains_key(key@)
                &&& members_view(members@)[key@] == members@[i as int].1@
            },
            None => {
                &&& !members_view(members@).contains_key(key@)
                &&& forall|j: int| 0 <= j < members.len() ==> (#[trigger] members@[j]).0@ != key@
            },
        },
{
    let mut i: usize = 0;
    while i < members.len()
        invariant
            i <= members.len(),
            forall|j: int| 0 <= j < i ==> (#[trigger] members@[j]).0@ != key@,
        decreases members.len() - i,
    {
        if same_text(members[i].0.as_str(), key) {
            proof {
                lemma_member_found(members@, i as int);
            }
            return Some(i);
        }
        i += 1;
    }
    proof {
        lemma_member_absent(members@, key@);
    }
    None
}

/// The value of the member that counts under its name, to be changed.
fn member_mut(members: &mut Vec<(String, Json)>, i: usize) -> (r: &mut Json)
    requires
        i < old(members).len(),
        forall|j: int| 0 <= j < i ==> (#[trigger] old(members)@[j]).0@ != old(members)@[i as int].0@,
    ensures
        *r == old(members)@[i as int].1,
        members_view(final(members)@) == members_view(old(members)@).insert(
            old(members)@[i as int].0@,
            final(r)@,
        ),
{
    let r = &mut members[i];
    proof {
        lemma_member_changed(old(members)@, i as int, final(r).1);
    }
    &mut r.1
}

impl Json {
    /// The member of that name, where the document is an object that has one.
    pub fn get(&self, key: &str) -> (r: Option<&Json>)
        ensures
            r matches Some(value) ==> field(self@, key@) == Some(value@),
            r is None ==> field(self@, key@) is None,
    {
        match self {
            Json::Object(members) => match find_member(members, key) {
                Some(i) => Some(&members[i].1),
                None => None,
            },
            _ => None,
        }
    }

    /// The member of that name to be changed, where the document is an object that has
    /// one.
    pub fn get_mut(&mut self, key: &str) -> (r: Option<&mut Json>)
        ensures
            match r {
                Some(value) => {
                    &&& field(old(self)@, key@) == Some(value@)
                    &&& final(self)@ == JsonView::Object(
                        old(self)@->Object_0.insert(key@, final(value)@),
                    )
                },
                None => field(old(self)@, key@) is None && *final(self) == *old(self),
            },
    {
        match self {
            Json::Object(members) => match find_member(members, key) {
                Some(i) => Some(member_mut(members, i)),
                None => None,
            },
            _ => None,
        }
    }
}

/// To take one member of a name out changes nothing under the other names.
proof fn lemma_member_removed(members: Seq<(String, Json)>, i: int)
    requires
        0 <= i < members.len(),
    ensures
        members_view(members.remove(i)).remove(members[i].0@) == members_view(members).remove(
            members[i].0@,
        ),
    decreases members.len(),
{
    let key = members[i].0@;
    if i == 0 {
        assert(members.remove(0) =~= members.drop_first());
        assert(members_view(members.remove(0)).remove(key) =~= members_view(members).remove(key));
    } else {
        let rest = members.drop_first();
        lemma_member_removed(rest, i - 1);
        assert(members.remove(i).drop_first() =~= rest.remove(i - 1));
        assert(members.remove(i)[0] == members[0]);
        assert(members_view(members.remove(i)) == members_view(rest.remove(i - 1)).insert(
            members[0].0@,
            members[0].1@,
        ));
        let left = members_view(rest.remove(i - 1));
        let right = members_view(rest);
        assert(left.remove(key) == right.remove(key));
        let first = (members[0].0@, members[0].1@);
        assert(left.insert(first.0, first.1).remove(key) =~= if first.0 == key {
            left.remove(key)
        } else {
            left.remove(key).insert(first.0, first.1)
        });
        assert(right.insert(first.0, first.1).remove(key) =~= if first.0 == key {
            right.remove(key)
        } else {
            right.remove(key).insert(first.0, first.1)
        });
    }
}

/// Takes the member of that name out, and tells whether there was one.
fn remove_member(members: &mut Vec<(String, Json)>, key: &str) -> (r: bool)
    ensures
        members_view(final(members)@) == members_view(old(members)@).remove(key@),
        r == members_view(old(members)@).contains_key(key@),
{
    let mut found = false;
    loop
        invariant
            members_view(members@).remove(key@) == members_view(old(members)@).remove(key@),
            found ==> members_view(old(members)@).contains_key(key@),
            !found ==> members@ == old(members)@,
        ensures
            members_view(members@) == members_view(old(members)@).remove(key@),
            found == members_view(old(members)@).contains_key(key@),
        decreases members@.len(),
    {
        match find_member(members, key) {
            Some(i) => {
                proof {
                    lemma_member_removed(members@, i as int);
                }
                members.remove(i);
                found = true;
            },
            None => {
                assert(members_view(members@).remove(key@) =~= members_view(members@));
                break;
            },
        }
    }
    found
}

/// Puts a value under that name.
fn insert_member(members: &mut Vec<(String, Json)>, key: &str, value: Json)
    ensures
        members_view(final(members)@) == members_view(old(members)@).insert(key@, value@),
{
    match find_member(members, key) {
        Some(i) => {
            let r = member_mut(members, i);
            *r = value;
        },
        None => {
            let name = key.to_owned();
            proof {
                lemma_member_added(members@, (name, value));
            }
            members.push((name, value));
        },
    }
}

/// A member of a new name is added at the end.
proof fn lemma_member_added(members: Seq<(String, Json)>, member: (String, Json))
    requires
        !members_view(members).contains_key(member.0@),
    ensures
        members_view(members.push(member)) == members_view(members).insert(member.0@, member.1@),
    decreases members.len(),
{
    let longer = members.push(member);
    if members.len() == 0 {
        assert(longer.drop_first() =~= members);
        assert(members_view(longer) =~= members_view(members).insert(member.0@, member.1@));
    } else {
        let rest = members.drop_first();
        assert(longer.drop_first() =~= rest.push(member));
        assert(longer[0] == members[0]);
        assert(members_view(longer) == members_view(rest.push(member)).insert(
            members[0].0@,
            members[0].1@,
        ));
        assert(members_view(members).contains_key(members[0].0@));
        assert(!members_view(rest).contains_key(member.0@));
        lemma_member_added(rest, member);
        assert(members_view(longer) =~= members_view(members).insert(member.0@, member.1@));
    }
}

/// The names of the members, each once.
pub fn member_names(members: &Vec<(String, Json)>) -> (r: Vec<String>)
    ensures
        texts(r@).no_duplicates(),
        texts(r@).to_set() == members_view(members@).dom(),
{
    let mut names: Vec<String> = Vec::new();
    let mut i: usize = 0;
    while i < members.len()
        invariant
            i <= members.len(),
            texts(names@).no_duplicates(),
            forall|j: int|
                0 <= j < names@.len() ==> members_view(members@).contains_key(
                    (#[trigger] names@[j])@,
                ) && exists|k: int| 0 <= k < i && (#[trigger] members@[k]).0@ == names@[j]@,
            forall|k: int|
                0 <= k < i ==> texts(names@).contains((#[trigger] members@[k]).0@),
        decreases members.len() - i,
    {
        let ghost before = names@;
        if let Some(first) = find_member(members, members[i].0.as_str()) {
            if first == i {
                names.push(members[i].0.clone());
                proof {
                    assert(texts(names@) =~= texts(before).push(members@[i as int].0@));
                    assert forall|k: int| 0 <= k < i + 1 implies texts(names@).contains(
                        (#[trigger] members@[k]).0@,
                    ) by {
                        if k < i {
                            let j = choose|j: int|
                                0 <= j < texts(before).len() && texts(before)[j]
                                    == members@[k].0@;
                            assert(texts(names@)[j] == members@[k].0@);
                        } else {
                            assert(texts(names@)[before.len() as int] == members@[k].0@);
                        }
                    }
                    assert forall|a: int, b: int|
                        0 <= a < b < texts(names@).len() implies texts(names@)[a]
                        != texts(names@)[b] by {
                        assert(names@[a]@ == texts(names@)[a]);
                        if b < before.len() {
                            assert(texts(before)[a] != texts(before)[b]);
                        } else {
                            assert(before[a] == names@[a]);
                        }
                    }
                }
            } else {
                assert(members@[first as int].0@ == members@[i as int].0@);
            }
        }
        i += 1;
    }
    proof {
        assert forall|key: Seq<char>| members_view(members@).contains_key(key) implies texts(
            names@,
        ).to_set().contains(key) by {
            if forall|k: int| 0 <= k < members@.len() ==> (#[trigger] members@[k]).0@ != key {
                lemma_member_absent(members@, key);
            }
        }
        assert forall|key: Seq<char>| texts(names@).to_set().contains(key) implies members_view(
            members@,
        ).contains_key(key) by {
            let j = choose|j: int| 0 <= j < texts(names@).len() && texts(names@)[j] == key;
            assert(names@[j]@ == key);
        }
        assert(texts(names@).to_set() =~= members_view(members@).dom());
    }
    names
}

/// Copies the elements of an array.
fn copy_items(items: &Vec<Json>) -> (r: Vec<Json>)
    ensures
        items_view(r@) == items_view(items@),
    decreases items,
{
    let mut copies: Vec<Json> = Vec::new();
    let mut i: usize = 0;
    while i < items.len()
        invariant
            i <= items.len(),
            copies.len() == i,
            forall|j: int| 0 <= j < i ==> (#[trigger] copies@[j])@ == items@[j]@,
        decreases items.len() - i,
    {
        copies.push(items[i].copy());
        i += 1;
    }
    assert(items_view(copies@) =~= items_view(items@));
    copies
}

/// Copies the members of an object.
pub fn copy_members(members: &Vec<(String, Json)>) -> (r: Vec<(String, Json)>)
    ensures
        members_view(r@) == members_view(members@),
    decreases members,
{
    let mut copies: Vec<(String, Json)> = Vec::new();
    let mut i: usize = 0;
    while i < members.len()
        invariant
            i <= members.len(),
            copies.len() == i,
            forall|j: int|
                0 <= j < i ==> (#[trigger] copies@[j]).0@ == members@[j].0@ && copies@[j].1@
                    == members@[j].1@,
        decreases members.len() - i,
    {
        copies.push((members[i].0.clone(), members[i].1.copy()));
        i += 1;
    }
    proof {
        lemma_same_members(copies@, members@);
    }
    copies
}

/// Lists of members that agree place by place hold the same object.
proof fn lemma_same_members(left: Seq<(String, Json)>, right: Seq<(String, Json)>)
    requires
        left.len() == right.len(),
        forall|j: int|
            0 <= j < left.len() ==> (#[trigger] left[j]).0@ == right[j].0@ && left[j].1@
                == right[j].1@,
    ensures
        members_view(left) == members_view(right),
    decreases left.len(),
{
    if left.len() > 0 {
        assert(left[0].0@ == right[0].0@);
        let l = left.drop_first();
        let r = right.drop_first();
        assert forall|j: int| 0 <= j < l.len() implies (#[trigger] l[j]).0@ == r[j].0@ && l[j].1@
            == r[j].1@ by {
            assert(l[j] == left[j + 1]);
        }
        lemma_same_members(l, r);
    }
}

impl Json {
    /// A copy of the document.
    pub fn copy(&self) -> (r: Json)
        ensures
            r@ == self@,
        decreases self,
    {
        match self {
            Json::Null => Json::Null,
            Json::Bool(b) => Json::Bool(*b),
            Json::Number(n) => Json::Number(copy_number(n)),
            Json::Str(s) => Json::Str(s.clone()),
            Json::Array(items) => Json::Array(copy_items(items)),
            Json::Object(members) => Json::Object(copy_members(members)),
        }
    }
}

impl Clone for Json {
    fn clone(&self) -> (r: Json)
        ensures
            r@ == self@,
    {
        self.copy()
    }
}

/// The first element of which `source` is part is the one at `i`.
proof fn lemma_first_superset(items: Seq<JsonView>, source: JsonView, i: int)
    requires
        0 <= i <= items.len(),
        forall|j: int| 0 <= j < i ==> !is_subset(#[trigger] items[j], source),
        i < items.len() ==> is_subset(items[i], source),
    ensures
        first_superset(items, source) == (if i < items.len() {
            Some(i)
        } else {
            None
        }),
    decreases items.len(),
{
    if items.len() > 0 && i > 0 {
        let rest = items.drop_first();
        assert(!is_subset(items[0], source));
        assert forall|j: int| 0 <= j < i - 1 implies !is_subset(#[trigger] rest[j], source) by {
            assert(rest[j] == items[j + 1]);
        }
        lemma_first_superset(rest, source, i - 1);
    }
}

/// Tells whether `source` is part of `target`.
pub fn json_is_subset(target: &Json, source: &Json) -> (r: bool)
    ensures
        r == is_subset(target@, source@),
    decreases source@, 0nat,
{
    match source {
        Json::Object(source_members) => match target {
            Json::Object(target_members) => {
                let names = member_names(source_members);
                let mut i: usize = 0;
                while i < names.len()
                    invariant
                        i <= names.len(),
                        texts(names@).to_set() == members_view(source_members@).dom(),
                        source@ == JsonView::Object(members_view(source_members@)),
                        target@ == JsonView::Object(members_view(target_members@)),
                        forall|j: int|
                            0 <= j < i ==> members_view(target_members@).contains_key(
                                #[trigger] texts(names@)[j],
                            ) && is_subset(
                                members_view(target_members@)[texts(names@)[j]],
                                members_view(source_members@)[texts(names@)[j]],
                            ),
                    decreases names.len() - i,
                {
                    let name = names[i].as_str();
                    let ghost key = texts(names@)[i as int];
                    proof {
                        assert(texts(names@).to_set().contains(key));
                    }
                    let part = match (target.get(name), source.get(name)) {
                        (Some(target_value), Some(source_value)) => json_is_subset(
                            target_value,
                            source_value,
                        ),
                        _ => false,
                    };
                    if !part {
                        return false;
                    }
                    i += 1;
                }
                assert forall|key: Seq<char>| #[trigger]
                    members_view(source_members@).contains_key(key) implies members_view(
                    target_members@,
                ).contains_key(key) && is_subset(
                    members_view(target_members@)[key],
                    members_view(source_members@)[key],
                ) by {
                    assert(texts(names@).to_set().contains(key));
                    let j = choose|j: int| 0 <= j < texts(names@).len() && texts(names@)[j] == key;
                    assert(texts(names@)[j] == key);
                }
                true
            },
            _ => false,
        },
        Json::Array(source_items) => match target {
            Json::Array(target_items) => {
                assert(decreases_to!(source@ => source@->Array_0));
                json_array_contains_subset(target_items, source_items)
            },
            _ => false,
        },
        Json::Null => matches!(target, Json::Null),
        Json::Bool(b) => match target {
            Json::Bool(other) => *other == *b,
            _ => false,
        },
        Json::Number(n) => match target {
            Json::Number(other) => same_number(other, n),
            _ => false,
        },
        Json::Str(text) => match target {
            Json::Str(other) => same_text(other.as_str(), text.as_str()),
            _ => false,
        },
    }
}

/// Tells whether each element of `source` in turn is part of the first element of
/// `target` that is still free.
pub fn json_array_contains_subset(target: &Vec<Json>, source: &Vec<Json>) -> (r: bool)
    ensures
        r == array_contains(items_view(target@), items_view(source@)),
    decreases items_view(source@), 0nat,
{
    let mut free: Vec<usize> = Vec::new();
    let mut k: usize = 0;
    while k < target.len()
        invariant
            k <= target.len(),
            free.len() == k,
            forall|j: int| 0 <= j < k ==> #[trigger] free@[j] == j,
        decreases target.len() - k,
    {
        free.push(k);
        k += 1;
    }
    let ghost all = items_view(target@);
    let ghost wanted = items_view(source@);
    let ghost mut left = all;
    let mut i: usize = 0;
    proof {
        assert(wanted.skip(0) =~= wanted);
    }
    while i < source.len()
        invariant
            i <= source.len(),
            all == items_view(target@),
            wanted == items_view(source@),
            left.len() == free.len(),
            forall|j: int| 0 <= j < free.len() ==> #[trigger] free@[j] < target.len(),
            forall|j: int| 0 <= j < free.len() ==> left[j] == all[#[trigger] free@[j] as int],
            array_contains(left, wanted.skip(i as int)) == array_contains(all, wanted),
        decreases source.len() - i,
    {
        let mut n: usize = 0;
        assert(decreases_to!(wanted => wanted[i as int]));
        while n < free.len() && !json_is_subset(&target[free[n]], &source[i])
            invariant
                i < source.len(),
                n <= free.len(),
                decreases_to!(wanted => wanted[i as int]),
                all == items_view(target@),
                wanted == items_view(source@),
                left.len() == free.len(),
                forall|j: int| 0 <= j < free.len() ==> #[trigger] free@[j] < target.len(),
                forall|j: int| 0 <= j < free.len() ==> left[j] == all[#[trigger] free@[j] as int],
                forall|j: int| 0 <= j < n ==> !is_subset(#[trigger] left[j], wanted[i as int]),
            decreases free.len() - n,
        {
            n += 1;
        }
        proof {
            let tail = wanted.skip(i as int);
            assert(tail[0] == wanted[i as int]);
            assert(tail.drop_first() =~= wanted.skip(i + 1));
            if n < free.len() {
                assert(left[n as int] == all[free@[n as int] as int]);
            }
            lemma_first_superset(left, wanted[i as int], n as int);
        }
        if n == free.len() {
            return false;
        }
        free.remove(n);
        proof {
            left = left.remove(n as int);
        }
        i += 1;
    }
    assert(wanted.skip(i as int) =~= Seq::empty());
    true
}

/// The place of the first element of which `source` is part.
fn json_position(items: &Vec<Json>, source: &Json) -> (r: Option<usize>)
    ensures
        match r {
            Some(i) => first_superset(items_view(items@), source@) == Some(i as int) && i
                < items.len(),
            None => first_superset(items_view(items@), source@) is None,
        },
{
    let mut i: usize = 0;
    while i < items.len() && !json_is_subset(&items[i], source)
        invariant
            i <= items.len(),
            forall|j: int|
                0 <= j < i ==> !is_subset(#[trigger] items_view(items@)[j], source@),
        decreases items.len() - i,
    {
        i += 1;
    }
    proof {
        lemma_first_superset(items_view(items@), source@, i as int);
    }
    if i < items.len() {
        Some(i)
    } else {
        None
    }
}

/// Takes out of `target`, for each element of `source` in turn, the first element of
/// which it is part.
pub fn json_remove_array_items(target: &mut Vec<Json>, source: &Vec<Json>)
    ensures
        items_view(final(target)@) == without_items(items_view(old(target)@), items_view(source@)),
{
    let ghost wanted = items_view(source@);
    let mut i: usize = 0;
    proof {
        assert(wanted.skip(0) =~= wanted);
    }
    while i < source.len()
        invariant
            i <= source.len(),
            wanted == items_view(source@),
            without_items(items_view(target@), wanted.skip(i as int)) == without_items(
                items_view(old(target)@),
                wanted,
            ),
        decreases source.len() - i,
    {
        proof {
            let tail = wanted.skip(i as int);
            assert(tail[0] == source@[i as int]@);
            assert(tail.drop_first() =~= wanted.skip(i + 1));
        }
        if let Some(n) = json_position(target, &source[i]) {
            let ghost before = target@;
            target.remove(n);
            assert(items_view(target@) =~= items_view(before).remove(n as int));
        }
        i += 1;
    }
    assert(wanted.skip(i as int) =~= Seq::empty());
}

impl Json {
    /// Puts a value under that name.
    pub fn insert(&mut self, key: &str, value: Json)
        requires
            old(self)@ is Object,
        ensures
            final(self)@ == JsonView::Object(old(self)@->Object_0.insert(key@, value@)),
    {
        match self {
            Json::Object(members) => insert_member(members, key, value),
            _ => {},
        }
    }

    /// Takes the member of that name out, and tells whether there was one.
    pub fn remove(&mut self, key: &str) -> (r: bool)
        ensures
            r == field(old(self)@, key@) is Some,
            final(self)@ == (match old(self)@ {
                JsonView::Object(members) => JsonView::Object(members.remove(key@)),
                _ => old(self)@,
            }),
    {
        match self {
            Json::Object(members) => remove_member(members, key),
            _ => false,
        }
    }

    /// Tells whether the document is an object.
    pub fn is_object(&self) -> (r: bool)
        ensures
            r == self@ is Object,
    {
        matches!(self, Json::Object(_))
    }

    /// The text, where the document is one.
    pub fn as_str(&self) -> (r: Option<&str>)
        ensures
            match r {
                Some(text) => self@ == JsonView::Str(text@),
                None => !(self@ is Str),
            },
    {
        match self {
            Json::Str(text) => Some(text.as_str()),
            _ => None,
        }
    }
}

/// An object has no members exactly where its list of members is empty.
pub proof fn lemma_no_members(members: Seq<(String, Json)>)
    ensures
        members_view(members) =~= Map::<Seq<char>, JsonView>::empty() <==> members.len() == 0,
{
    if members.len() > 0 {
        assert(members_view(members).contains_key(members[0].0@));
    }
}

/// Takes the common member `source` out of the member `target`, and tells whether
/// nothing is left of it.
fn json_remove_member(target: &mut Json, source: &Json) -> (gone: bool)
    ensures
        gone == member_left(old(target)@, source@) is None,
        !gone ==> Some(final(target)@) == member_left(old(target)@, source@),
    decreases source@, 1nat,
{
    if source.is_object() && target.is_object() {
        json_deep_remove(target, source);
        match target {
            Json::Object(members) => {
                proof {
                    lemma_no_members(members@);
                }
                members.len() == 0
            },
            _ => false,
        }
    } else {
        let subset = json_is_subset(target, source);
        match target {
            Json::Array(target_items) => match source {
                Json::Array(source_items) => {
                    json_remove_array_items(target_items, source_items);
                    target_items.len() == 0
                },
                _ => subset,
            },
            _ => subset,
        }
    }
}

/// Takes what `target` shares with `source` out of it, member by member.
pub fn json_deep_remove(target: &mut Json, source: &Json)
    ensures
        final(target)@ == deep_removed(old(target)@, source@),
    decreases source@, 0nat,
{
    if !target.is_object() {
        return;
    }
    match source {
        Json::Object(source_members) => {
            let names = member_names(source_members);
            let ghost before = target@;
            let mut i: usize = 0;
            while i < names.len()
                invariant
                    i <= names.len(),
                    texts(names@).no_duplicates(),
                    texts(names@).to_set() == members_view(source_members@).dom(),
                    source@ == JsonView::Object(members_view(source_members@)),
                    before is Object,
                    target@ is Object,
                    forall|key: Seq<char>| #[trigger]
                        field(target@, key) == (if texts(names@).take(i as int).contains(key)
                            && field(before, key) is Some {
                            member_left(field(before, key)->0, field(source@, key)->0)
                        } else {
                            field(before, key)
                        }),
                decreases names.len() - i,
            {
                let name = names[i].as_str();
                let ghost key = texts(names@)[i as int];
                let ghost partly = target@;
                proof {
                    assert(texts(names@).to_set().contains(key));
                    lemma_next_name(texts(names@), i as int);
                    assert(field(partly, key) == field(before, key));
                }
                let mut gone = false;
                if let Some(source_value) = source.get(name) {
                    assert(decreases_to!(source@ => source@->Object_0[key]));
                    if let Some(target_value) = target.get_mut(name) {
                        gone = json_remove_member(target_value, source_value);
                    }
                }
                if gone {
                    target.remove(name);
                }
                proof {
                    assert forall|k: Seq<char>| #[trigger]
                        field(target@, k) == (if texts(names@).take(i + 1).contains(k)
                            && field(before, k) is Some {
                            member_left(field(before, k)->0, field(source@, k)->0)
                        } else {
                            field(before, k)
                        }) by {
                        assert(k != key ==> field(target@, k) == field(partly, k));
                    }
                }
                i += 1;
            }
            proof {
                let wanted = deep_removed(before, source@);
                assert(texts(names@).take(i as int) =~= texts(names@));
                assert forall|key: Seq<char>| field(target@, key) == #[trigger] field(
                    wanted,
                    key,
                ) by {
                    assert(texts(names@).contains(key) <==> texts(names@).to_set().contains(key));
                }
                lemma_same_fields(target@, wanted);
            }
        },
        _ => {},
    }
}

/// Objects that agree under every name are equal.
pub proof fn lemma_same_fields(left: JsonView, right: JsonView)
    requires
        left is Object,
        right is Object,
        forall|key: Seq<char>| field(left, key) == #[trigger] field(right, key),
    ensures
        left == right,
{
    assert forall|key: Seq<char>| #[trigger] left->Object_0.contains_key(key)
        <==> right->Object_0.contains_key(key) by {
        assert(field(left, key) == field(right, key));
    }
    assert forall|key: Seq<char>| left->Object_0.contains_key(
        key,
    ) implies #[trigger] left->Object_0[key] == right->Object_0[key] by {
        assert(field(left, key) == field(right, key));
    }
    assert(left->Object_0 =~= right->Object_0);
}

/// The names up to a place and that name itself are the names up to the next place.
pub proof fn lemma_next_name(names: Seq<Seq<char>>, i: int)
    requires
        0 <= i < names.len(),
        names.no_duplicates(),
    ensures
        !names.take(i).contains(names[i]),
        forall|name: Seq<char>| #[trigger]
            names.take(i + 1).contains(name) <==> names.take(i).contains(name) || name == names[i],
{
    assert(names.take(i + 1) =~= names.take(i).push(names[i]));
    assert forall|name: Seq<char>| #[trigger]
        names.take(i + 1).contains(name) implies names.take(i).contains(name) || name
        == names[i] by {
        let upto = names.take(i + 1);
        let j = choose|j: int| 0 <= j < upto.len() && upto[j] == name;
        if j < i {
            assert(names.take(i)[j] == name);
        }
    }
    assert forall|name: Seq<char>| names.take(i).contains(name) || name
        == names[i] implies #[trigger] names.take(i + 1).contains(name) by {
        if names.take(i).contains(name) {
            let j = choose|j: int| 0 <= j < i && names.take(i)[j] == name;
            assert(names.take(i + 1)[j] == name);
        } else {
            assert(names.take(i + 1)[i] == name);
        }
    }
}

/// Lays `overlay` over `base`.
pub fn merge_json_values(base: &mut Json, overlay: &Json)
    ensures
        final(base)@ == merged(old(base)@, overlay@),
    decreases overlay@,
{
    match overlay {
        Json::Object(overlay_members) if base.is_object() => {
            let names = member_names(overlay_members);
            let ghost before = base@;
            let mut i: usize = 0;
            while i < names.len()
                invariant
                    i <= names.len(),
                    texts(names@).no_duplicates(),
                    texts(names@).to_set() == members_view(overlay_members@).dom(),
                    overlay@ == JsonView::Object(members_view(overlay_members@)),
                    before is Object,
                    base@ is Object,
                    forall|key: Seq<char>| #[trigger]
                        field(base@, key) == (if texts(names@).take(i as int).contains(key) {
                            field(merged(before, overlay@), key)
                        } else {
                            field(before, key)
                        }),
                decreases names.len() - i,
            {
                let name = names[i].as_str();
                let ghost key = texts(names@)[i as int];
                let ghost partly = base@;
                proof {
                    assert(texts(names@).to_set().contains(key));
                    lemma_next_name(texts(names@), i as int);
                    assert(field(partly, key) == field(before, key));
                }
                if let Some(overlay_value) = overlay.get(name) {
                    assert(decreases_to!(overlay@ => overlay@->Object_0[key]));
                    let mut fresh = true;
                    if let Some(base_value) = base.get_mut(name) {
                        merge_json_values(base_value, overlay_value);
                        fresh = false;
                    }
                    if fresh {
                        base.insert(name, overlay_value.copy());
                    }
                }
                proof {
                    assert forall|k: Seq<char>| #[trigger]
                        field(base@, k) == (if texts(names@).take(i + 1).contains(k) {
                            field(merged(before, overlay@), k)
                        } else {
                            field(before, k)
                        }) by {
                        assert(k != key ==> field(base@, k) == field(partly, k));
                    }
                }
                i += 1;
            }
            proof {
                let wanted = merged(before, overlay@);
                assert(texts(names@).take(i as int) =~= texts(names@));
                assert forall|key: Seq<char>| field(base@, key) == #[trigger] field(
                    wanted,
                    key,
                ) by {
                    assert(texts(names@).contains(key) <==> texts(names@).to_set().contains(key));
                }
                lemma_same_fields(base@, wanted);
            }
        },
        _ => {
            *base = overlay.copy();
        },
    }
}

} // verus!
