//! The boundary to `toml_edit`, whose documents keep their comments and layout while
//! they are changed.
use vstd::prelude::*;

use crate::text::texts;

verus! {

/// What an item of a TOML document holds, whatever its layout. The members of a table
/// have no order.
#[verifier::ext_equal]
pub enum TomlView {
    Nothing,
    Str(Seq<char>),
    Integer(i64),
    /// A float, by its bits.
    Float(u64),
    Boolean(bool),
    /// A date or time, as it is written.
    Datetime(Seq<char>),
    Array(Seq<TomlView>),
    Inline(Map<Seq<char>, TomlView>),
    Table(Map<Seq<char>, TomlView>),
    Tables(Seq<TomlView>),
}

impl TomlView {
    /// Whether the item is a table of either kind.
    pub open spec fn is_table_like(self) -> bool {
        self is Table || self is Inline
    }

    /// Whether the item stands to the right of an equals sign.
    pub open spec fn is_value(self) -> bool {
        !(self is Nothing || self is Table || self is Tables)
    }

    /// The members of a table of either kind.
    pub open spec fn members(self) -> Map<Seq<char>, TomlView> {
        match self {
            TomlView::Table(members) => members,
            TomlView::Inline(members) => members,
            _ => Map::empty(),
        }
    }

    /// The table with other members.
    pub open spec fn with_members(self, members: Map<Seq<char>, TomlView>) -> TomlView {
        match self {
            TomlView::Table(_) => TomlView::Table(members),
            TomlView::Inline(_) => TomlView::Inline(members),
            _ => self,
        }
    }

    /// The member of that name, `Nothing` where there is none.
    pub open spec fn member(self, key: Seq<char>) -> TomlView {
        if self.members().contains_key(key) {
            self.members()[key]
        } else {
            TomlView::Nothing
        }
    }

    /// The table with another member of that name; `Nothing` takes it out.
    pub open spec fn with_member(self, key: Seq<char>, member: TomlView) -> TomlView {
        if member is Nothing {
            self.with_members(self.members().remove(key))
        } else {
            self.with_members(self.members().insert(key, member))
        }
    }
}

/// How an item is written, and the members of a table that is no inline one.
#[verifier::ext_equal]
pub enum TomlLayout {
    Other(Seq<char>),
    Table(Seq<char>, Map<Seq<char>, TomlLayout>),
}

impl TomlLayout {
    /// How the item is written.
    pub open spec fn text(self) -> Seq<char> {
        match self {
            TomlLayout::Other(text) => text,
            TomlLayout::Table(text, _) => text,
        }
    }

    /// The members of a table that is no inline one.
    pub open spec fn entries(self) -> Map<Seq<char>, TomlLayout> {
        match self {
            TomlLayout::Other(_) => Map::empty(),
            TomlLayout::Table(_, members) => members,
        }
    }
}

#[verifier::external_type_specification]
#[verifier::external_body]
pub struct ExDocumentMut(toml_edit::DocumentMut);

#[verifier::external_type_specification]
#[verifier::external_body]
pub struct ExItem(toml_edit::Item);

#[verifier::external_type_specification]
#[verifier::external_body]
pub struct ExTomlValue(toml_edit::Value);

/// What an item holds.
pub uninterp spec fn item_view(item: toml_edit::Item) -> TomlView;

/// How an item is written.
pub uninterp spec fn item_layout(item: toml_edit::Item) -> TomlLayout;

/// What a value holds.
pub uninterp spec fn value_view(value: toml_edit::Value) -> TomlView;

/// What the uppermost table of a document holds.
pub uninterp spec fn document_view(document: toml_edit::DocumentMut) -> TomlView;

/// The text as which a document is written.
pub uninterp spec fn document_text(document: toml_edit::DocumentMut) -> Seq<char>;

/// What a text holds as a TOML document; `None` where it is none.
pub uninterp spec fn parsed_toml(text: Seq<char>) -> Option<TomlView>;

/// The text as which the document that is read out of a text is written while nothing is
/// changed in it.
pub uninterp spec fn parsed_text(text: Seq<char>) -> Seq<char>;

/// The message with which a text is refused as a TOML document.
pub uninterp spec fn toml_parse_error(text: Seq<char>) -> Seq<char>;

/// The lines that a table writes. By the path to it, through tables that are no inline
/// ones, this is how each value is written together with its key: the comments before it,
/// the key, the value and the comment after it, up to the end of the line. A value that
/// stands in a dotted table, or is a dotted inline table itself, is left out. A value, an
/// inline table too, has no lines of its own, and neither has an array of tables.
pub uninterp spec fn item_lines(item: toml_edit::Item) -> Map<Seq<Seq<char>>, Seq<char>>;

/// The lines that the uppermost table of a document writes.
pub uninterp spec fn document_lines(document: toml_edit::DocumentMut) -> Map<
    Seq<Seq<char>>,
    Seq<char>,
>;

/// The lines of the document that is read out of a text.
pub uninterp spec fn parsed_lines(text: Seq<char>) -> Map<Seq<Seq<char>>, Seq<char>>;

/// What a document writes after its last entry.
pub uninterp spec fn document_trailing(document: toml_edit::DocumentMut) -> Seq<char>;

/// What stands after the last entry of the document that is read out of a text.
pub uninterp spec fn parsed_trailing(text: Seq<char>) -> Seq<char>;

/// Whether a text is found in another one at that place.
pub open spec fn occurs_at(text: Seq<char>, part: Seq<char>, place: int) -> bool {
    &&& 0 <= place <= text.len() - part.len()
    &&& text.subrange(place, place + part.len()) == part
}

/// Whether a text is found in another one.
pub open spec fn occurs(text: Seq<char>, part: Seq<char>) -> bool {
    exists|place: int| #[trigger] occurs_at(text, part, place)
}

/// Whether the lines are kept whose path is not among those that were touched.
pub open spec fn lines_kept(
    before: Map<Seq<Seq<char>>, Seq<char>>,
    after: Map<Seq<Seq<char>>, Seq<char>>,
    touched: Set<Seq<Seq<char>>>,
) -> bool {
    forall|path: Seq<Seq<char>>| #[trigger]
        before.contains_key(path) && !touched.contains(path) ==> after.contains_key(path)
            && after[path] == before[path]
}

/// The paths that begin with a key.
pub open spec fn paths_from(key: Seq<char>) -> Set<Seq<Seq<char>>> {
    Set::new(|path: Seq<Seq<char>>| path.len() > 0 && path[0] == key)
}

/// The lines of the member of that name, by their paths within it.
pub open spec fn lines_below(
    lines: Map<Seq<Seq<char>>, Seq<char>>,
    key: Seq<char>,
) -> Map<Seq<Seq<char>>, Seq<char>> {
    Map::new(
        |path: Seq<Seq<char>>| path.len() > 0 && lines.contains_key(seq![key] + path),
        |path: Seq<Seq<char>>| lines[seq![key] + path],
    )
}

/// The paths that begin with one of these names.
pub open spec fn named_paths(names: Seq<Seq<char>>) -> Set<Seq<Seq<char>>> {
    Set::new(|path: Seq<Seq<char>>| path.len() > 0 && names.contains(path[0]))
}

/// The paths at which something can change when values of these names are put into a
/// member of a table, or taken out of it.
pub open spec fn paths_in_member(key: Seq<char>, names: Seq<Seq<char>>) -> Set<Seq<Seq<char>>> {
    Set::new(
        |path: Seq<Seq<char>>|
            path.len() > 0 && path[0] == key && (path.len() == 1 || names.contains(path[1])),
    )
}

/// The paths at which something can change when values of these names are put into a
/// member of a member of a table, or taken out of it.
pub open spec fn paths_in_section(
    table: Seq<char>,
    key: Seq<char>,
    names: Seq<Seq<char>>,
) -> Set<Seq<Seq<char>>> {
    Set::new(
        |path: Seq<Seq<char>>|
            path.len() > 0 && path[0] == table && (path.len() == 1 || paths_in_member(
                key,
                names,
            ).contains(path.drop_first())),
    )
}

/// Whether a text is how a document is written once it holds this: what stood after its
/// last entry ends the text, and each line whose path was not touched is found in it.
pub open spec fn is_edited_text(
    text: Seq<char>,
    original: Seq<char>,
    contents: TomlView,
    touched: Set<Seq<Seq<char>>>,
) -> bool {
    &&& is_document_text(text, contents)
    &&& parsed_trailing(original).is_suffix_of(text)
    &&& forall|path: Seq<Seq<char>>| #[trigger]
        parsed_lines(original).contains_key(path) && !touched.contains(path) ==> occurs(
            text,
            parsed_lines(original)[path],
        )
}

/// What is not touched in a member of a table is not touched in the table.
pub proof fn lemma_lines_kept_below(
    before: Map<Seq<Seq<char>>, Seq<char>>,
    after: Map<Seq<Seq<char>>, Seq<char>>,
    key: Seq<char>,
    below: Set<Seq<Seq<char>>>,
    touched: Set<Seq<Seq<char>>>,
)
    requires
        lines_kept(before, after, paths_from(key)),
        lines_kept(lines_below(before, key), lines_below(after, key), below),
        touched.contains(seq![key]),
        forall|path: Seq<Seq<char>>|
            path.len() > 1 && path[0] == key && !(#[trigger] touched.contains(path))
                ==> !below.contains(path.drop_first()),
    ensures
        lines_kept(before, after, touched),
{
    assert forall|path: Seq<Seq<char>>| #[trigger]
        before.contains_key(path) && !touched.contains(path) implies after.contains_key(path)
        && after[path] == before[path] by {
        if path.len() > 0 && path[0] == key {
            if path.len() == 1 {
                assert(path =~= seq![key]);
            }
            let rest = path.drop_first();
            assert(seq![key] + rest =~= path);
            assert(lines_below(before, key).contains_key(rest));
            assert(lines_below(after, key).contains_key(rest));
        } else {
            assert(!paths_from(key).contains(path));
        }
    }
}

/// A member that is put where nothing was written takes nothing away.
pub proof fn lemma_nothing_below(
    before: Map<Seq<Seq<char>>, Seq<char>>,
    after: Map<Seq<Seq<char>>, Seq<char>>,
    key: Seq<char>,
    touched: Set<Seq<Seq<char>>>,
)
    requires
        lines_kept(before, after, paths_from(key)),
        lines_below(before, key) =~= Map::empty(),
        touched.contains(seq![key]),
    ensures
        lines_kept(before, after, touched),
{
    assert forall|path: Seq<Seq<char>>| #[trigger]
        before.contains_key(path) && !touched.contains(path) implies !paths_from(key).contains(
        path,
    ) by {
        if path.len() > 0 && path[0] == key {
            if path.len() == 1 {
                assert(path =~= seq![key]);
            }
            assert(seq![key] + path.drop_first() =~= path);
            assert(lines_below(before, key).contains_key(path.drop_first()));
        }
    }
}

/// Whether a document that holds this can be written as this text.
pub open spec fn is_document_text(text: Seq<char>, contents: TomlView) -> bool {
    exists|document: toml_edit::DocumentMut| #[trigger]
        document_view(document) == contents && document_text(document) == text
}

/// Reads a document by `str::parse` for `toml_edit::DocumentMut`. What it holds and how
/// that is written, and whether and how it is refused, depends on the text alone; the
/// uppermost item is a table.
#[verifier::external_body]
pub(crate) fn parse_document(text: &str) -> (r: Result<toml_edit::DocumentMut, String>)
    ensures
        match r {
            Ok(document) => {
                &&& parsed_toml(text@) == Some(document_view(document))
                &&& document_view(document) is Table
                &&& document_text(document) == parsed_text(text@)
                &&& document_lines(document) == parsed_lines(text@)
                &&& document_trailing(document) == parsed_trailing(text@)
            },
            Err(message) => parsed_toml(text@) is None && message@ == toml_parse_error(text@),
        },
{
    text.parse::<toml_edit::DocumentMut>().map_err(|e: toml_edit::TomlError| e.to_string())
}

/// Writes a document by its `to_string`, which needs a table as the uppermost item. It
/// writes all its lines, and ends with what stands after the last entry.
#[verifier::external_body]
pub(crate) fn write_document(document: &toml_edit::DocumentMut) -> (r: String)
    requires
        document_view(*document) is Table,
    ensures
        r@ == document_text(*document),
        document_trailing(*document).is_suffix_of(r@),
        forall|path: Seq<Seq<char>>| #[trigger]
            document_lines(*document).contains_key(path) ==> occurs(
                r@,
                document_lines(*document)[path],
            ),
{
    document.to_string()
}

/// Calls `toml_edit::DocumentMut::as_item`: the uppermost item.
#[verifier::external_body]
pub(crate) fn root(document: &toml_edit::DocumentMut) -> (r: &toml_edit::Item)
    ensures
        item_view(*r) == document_view(*document),
{
    document.as_item()
}

/// Calls `toml_edit::DocumentMut::as_item_mut`: the uppermost item, to be changed.
#[verifier::external_body]
pub(crate) fn root_mut(document: &mut toml_edit::DocumentMut) -> (r: &mut toml_edit::Item)
    ensures
        item_view(*r) == document_view(*old(document)),
        document_view(*final(document)) == item_view(*final(r)),
        item_lines(*r) == document_lines(*old(document)),
        document_lines(*final(document)) == item_lines(*final(r)),
        document_trailing(*final(document)) == document_trailing(*old(document)),
{
    document.as_item_mut()
}

/// Calls `toml_edit::Item::is_table`.
#[verifier::external_body]
pub(crate) fn is_table(item: &toml_edit::Item) -> (r: bool)
    ensures
        r == item_view(*item) is Table,
        r == item_layout(*item) is Table,
        !r ==> item_lines(*item) =~= Map::empty(),
{
    item.is_table()
}

/// Calls `toml_edit::Item::is_table_like`, which holds of tables and of inline tables.
#[verifier::external_body]
pub(crate) fn is_table_like(item: &toml_edit::Item) -> (r: bool)
    ensures
        r == item_view(*item).is_table_like(),
{
    item.is_table_like()
}

/// Calls `toml_edit::Item::is_none`.
#[verifier::external_body]
pub(crate) fn is_nothing(item: &toml_edit::Item) -> (r: bool)
    ensures
        r == item_view(*item) is Nothing,
        r ==> item_lines(*item) =~= Map::empty(),
{
    item.is_none()
}

/// Calls `toml_edit::Item::as_value`: the value, where the item is one.
#[verifier::external_body]
pub(crate) fn as_value(item: &toml_edit::Item) -> (r: Option<&toml_edit::Value>)
    ensures
        match r {
            Some(value) => {
                &&& item_view(*item).is_value()
                &&& value_view(*value) == item_view(*item)
                &&& item_lines(*item) =~= Map::empty()
            },
            None => !item_view(*item).is_value(),
        },
{
    item.as_value()
}

/// The keys of a table of either kind, by `toml_edit::TableLike::iter`, which goes over
/// each key once. It goes over the keys of an inline table even where they hold nothing.
#[verifier::external_body]
pub(crate) fn table_keys(item: &toml_edit::Item) -> (r: Vec<String>)
    ensures
        texts(r@).no_duplicates(),
        forall|key: Seq<char>| #[trigger]
            item_view(*item).members().contains_key(key) ==> texts(r@).contains(key),
        forall|key: Seq<char>| #[trigger]
            item_layout(*item).entries().contains_key(key) ==> texts(r@).contains(key),
{
    match item.as_table_like() {
        Some(table) => table.iter().map(|(key, _)| key.to_string()).collect(),
        None => Vec::new(),
    }
}

/// Calls `toml_edit::Item::get`: the member of that name of a table of either kind,
/// where it holds something. Where there is none, no lines are written below that name.
#[verifier::external_body]
pub(crate) fn get<'a>(item: &'a toml_edit::Item, key: &str) -> (r: Option<&'a toml_edit::Item>)
    ensures
        match r {
            Some(member) => {
                &&& item_view(*item).members().contains_key(key@)
                &&& item_view(*member) == item_view(*item).members()[key@]
                &&& !(item_view(*member) is Nothing)
            },
            None => {
                &&& !item_view(*item).members().contains_key(key@)
                &&& lines_below(item_lines(*item), key@) =~= Map::empty()
            },
        },
        item_layout(*item) is Table ==> match r {
            Some(member) => {
                &&& item_layout(*item).entries().contains_key(key@)
                &&& item_layout(*member) == item_layout(*item).entries()[key@]
            },
            None => !item_layout(*item).entries().contains_key(key@),
        },
{
    item.get(key)
}

/// Calls `toml_edit::TableLike::get_mut`: the member of that name of a table of either
/// kind, to be changed. That of an inline table can hold nothing, and is handed out even
/// so; and one that is changed to nothing is no longer a member. How the other members
/// are written stays as it is.
#[verifier::external_body]
pub(crate) fn get_mut<'a>(item: &'a mut toml_edit::Item, key: &str) -> (r: Option<
    &'a mut toml_edit::Item,
>)
    ensures
        match r {
            Some(member) => {
                &&& item_view(*old(item)).is_table_like()
                &&& item_view(*member) == item_view(*old(item)).member(key@)
                &&& item_view(*member) is Nothing <==> !item_view(
                    *old(item),
                ).members().contains_key(key@)
                &&& item_view(*final(item)) == item_view(*old(item)).with_member(
                    key@,
                    item_view(*final(member)),
                )
                &&& lines_kept(
                    item_lines(*old(item)),
                    item_lines(*final(item)),
                    paths_from(key@),
                )
                &&& item_view(*old(item)) is Inline ==> item_lines(*old(item)) =~= Map::empty()
                &&& item_view(*old(item)) is Table ==> {
                    &&& item_lines(*member) =~= lines_below(item_lines(*old(item)), key@)
                    &&& item_lines(*final(member)) =~= lines_below(item_lines(*final(item)), key@)
                }
            },
            None => {
                &&& !item_view(*old(item)).members().contains_key(key@)
                &&& item_view(*final(item)) == item_view(*old(item))
                &&& item_lines(*final(item)) == item_lines(*old(item))
                &&& lines_below(item_lines(*old(item)), key@) =~= Map::empty()
            },
        },
        item_layout(*old(item)) is Table ==> match r {
            Some(member) => {
                &&& item_layout(*old(item)).entries().contains_key(key@)
                &&& item_layout(*member) == item_layout(*old(item)).entries()[key@]
                &&& !(item_view(*member) is Nothing)
                &&& item_layout(*final(item)) is Table
                &&& !(item_view(*final(member)) is Nothing) ==> item_layout(*final(item)).entries()
                    == item_layout(*old(item)).entries().insert(key@, item_layout(*final(member)))
            },
            None => {
                &&& !item_layout(*old(item)).entries().contains_key(key@)
                &&& item_layout(*final(item)) == item_layout(*old(item))
            },
        },
{
    match item.as_table_like_mut() {
        Some(table) => table.get_mut(key),
        None => None,
    }
}

/// Calls `toml_edit::TableLike::remove`, which takes the member of that name out of a
/// table of either kind, and leaves the others as they are written.
#[verifier::external_body]
pub(crate) fn remove(item: &mut toml_edit::Item, key: &str)
    ensures
        item_view(*final(item)) == item_view(*old(item)).with_member(key@, TomlView::Nothing),
        lines_kept(item_lines(*old(item)), item_lines(*final(item)), paths_from(key@)),
        item_layout(*old(item)) is Table ==> item_layout(*final(item)) is Table && item_layout(
            *final(item),
        ).entries() == item_layout(*old(item)).entries().remove(key@),
{
    if let Some(table) = item.as_table_like_mut() {
        table.remove(key);
    }
}

/// Calls `toml_edit::TableLike::is_empty`, which tells whether no member of a table of
/// either kind holds anything.
#[verifier::external_body]
pub(crate) fn is_empty_table(item: &toml_edit::Item) -> (r: bool)
    ensures
        r == (item_view(*item).is_table_like() && item_view(*item).members() =~= Map::empty()),
        r ==> item_lines(*item) =~= Map::empty(),
        item_layout(*item) is Table ==> r == (item_layout(*item).entries() =~= Map::empty()),
{
    match item.as_table_like() {
        Some(table) => table.is_empty(),
        None => false,
    }
}

/// What a member is in a table of either kind: a table in an inline table is inline too.
pub open spec fn as_member(table: TomlView, member: TomlView) -> TomlView {
    if table is Inline && member is Table {
        TomlView::Inline(member.members())
    } else {
        member
    }
}

/// Calls `toml_edit::TableLike::insert`, which puts an item under that key of a table of
/// either kind. An inline table takes values, and a table without members as an inline
/// one. The other members are written as before.
#[verifier::external_body]
pub(crate) fn insert(item: &mut toml_edit::Item, key: &str, member: toml_edit::Item)
    requires
        item_view(*old(item)).is_table_like(),
        item_view(*old(item)) is Table || item_view(member).is_value() || (item_view(
            member,
        ) is Table && item_view(member).members() =~= Map::empty()),
    ensures
        item_view(*final(item)) == item_view(*old(item)).with_member(
            key@,
            as_member(item_view(*old(item)), item_view(member)),
        ),
        lines_kept(item_lines(*old(item)), item_lines(*final(item)), paths_from(key@)),
{
    if let Some(table) = item.as_table_like_mut() {
        table.insert(key, member);
    }
}

/// Assigns to `item[key]`, which replaces the member of that key of a table in its place,
/// and adds a new one at the end. The other members are written as before.
#[verifier::external_body]
pub(crate) fn assign(item: &mut toml_edit::Item, key: &str, member: toml_edit::Item)
    requires
        item_view(*old(item)) is Table,
    ensures
        item_view(*final(item)) == item_view(*old(item)).with_member(key@, item_view(member)),
        lines_kept(item_lines(*old(item)), item_lines(*final(item)), paths_from(key@)),
{
    item[key] = member;
}

/// Calls `toml_edit::value` with a text.
#[verifier::external_body]
pub(crate) fn text_item(text: &str) -> (r: toml_edit::Item)
    ensures
        item_view(r) == TomlView::Str(text@),
{
    toml_edit::value(text)
}

/// Calls `toml_edit::value` with a truth value.
#[verifier::external_body]
pub(crate) fn flag_item(flag: bool) -> (r: toml_edit::Item)
    ensures
        item_view(r) == TomlView::Boolean(flag),
{
    toml_edit::value(flag)
}

/// Calls `toml_edit::table`: a table without members.
#[verifier::external_body]
pub(crate) fn empty_table() -> (r: toml_edit::Item)
    ensures
        item_view(r) is Table,
        item_view(r).members() =~= Map::empty(),
{
    toml_edit::table()
}

/// The text, where the item is one.
pub(crate) fn item_text<'a>(item: &'a toml_edit::Item) -> (r: Option<&'a str>)
    ensures
        match r {
            Some(text) => item_view(*item) == TomlView::Str(text@),
            None => !(item_view(*item) is Str),
        },
{
    match as_value(item) {
        Some(value) => match value_parts(value) {
            ValueParts::Str(text) => Some(text.as_str()),
            _ => None,
        },
        None => None,
    }
}

/// Writes an item by its `to_string`.
#[verifier::external_body]
pub(crate) fn write_item(item: &toml_edit::Item) -> (r: String)
    ensures
        r@ == item_layout(*item).text(),
{
    item.to_string()
}

/// Calls `toml_edit::Item::clone`.
#[verifier::external_body]
pub(crate) fn copy_item(item: &toml_edit::Item) -> (r: toml_edit::Item)
    ensures
        item_view(r) == item_view(*item),
{
    item.clone()
}

/// The item `toml_edit::Item::None`.
#[verifier::external_body]
pub(crate) fn nothing() -> (r: toml_edit::Item)
    ensures
        item_view(r) is Nothing,
{
    toml_edit::Item::None
}

/// Which places of an array hold a value. A place can be left empty, and then holds no
/// element of the array.
pub uninterp spec fn value_places(item: toml_edit::Item) -> Seq<bool>;

/// How many of the places hold a value.
pub open spec fn values_among(places: Seq<bool>) -> int
    decreases places.len(),
{
    if places.len() == 0 {
        0
    } else {
        values_among(places.drop_last()) + (if places.last() {
            1int
        } else {
            0int
        })
    }
}

/// Calls `toml_edit::Array::len`, which counts the places of an array, those without a
/// value too. Each element stands in a place that holds a value.
#[verifier::external_body]
pub(crate) fn place_count(item: &toml_edit::Item) -> (r: usize)
    requires
        item_view(*item) is Array,
    ensures
        r == value_places(*item).len(),
        values_among(value_places(*item).take(r as int)) == item_view(*item)->Array_0.len(),
{
    match item.as_array() {
        Some(array) => array.len(),
        None => 0,
    }
}

/// Calls `toml_edit::Array::get`, which finds a value at a place of an array, where it
/// holds one.
#[verifier::external_body]
pub(crate) fn holds_value(item: &toml_edit::Item, place: usize) -> (r: bool)
    requires
        item_view(*item) is Array,
        place < value_places(*item).len(),
    ensures
        r == value_places(*item)[place as int],
{
    match item.as_array() {
        Some(array) => array.get(place).is_some(),
        None => false,
    }
}

/// Calls `toml_edit::Array::remove`, which takes out the place of an array that is given;
/// it must hold a value. The elements of the array are its values in the order of their
/// places.
#[verifier::external_body]
pub(crate) fn remove_place(item: &mut toml_edit::Item, place: usize)
    requires
        item_view(*old(item)) is Array,
        place < value_places(*old(item)).len(),
        value_places(*old(item))[place as int],
    ensures
        item_view(*final(item)) == TomlView::Array(
            item_view(*old(item))->Array_0.remove(
                values_among(value_places(*old(item)).take(place as int)),
            ),
        ),
{
    if let Some(array) = item.as_array_mut() {
        array.remove(place);
    }
}

/// The uppermost level of a value.
pub enum ValueParts<'a> {
    Str(&'a String),
    Integer(i64),
    /// A float, by its bits.
    Float(u64),
    Boolean(bool),
    /// A date or time, as it is written.
    Datetime(String),
    Array(Vec<&'a toml_edit::Value>),
    /// An inline table, by the names of its members.
    Inline(Vec<&'a str>),
}

/// What the elements of an array hold.
pub open spec fn values_view(values: Seq<&toml_edit::Value>) -> Seq<TomlView> {
    values.map_values(|value: &toml_edit::Value| value_view(*value))
}

/// Tells the variants of `toml_edit::Value` apart, and reads them by
/// `toml_edit::Formatted::value`, `toml_edit::Array::iter` and
/// `toml_edit::TableLike::iter`. Of an inline table it lists at least the keys that hold
/// something. Dates and times are equal exactly where they are written alike.
#[verifier::external_body]
pub(crate) fn value_parts(value: &toml_edit::Value) -> (r: ValueParts<'_>)
    ensures
        match r {
            ValueParts::Str(text) => value_view(*value) == TomlView::Str(text@),
            ValueParts::Integer(number) => value_view(*value) == TomlView::Integer(number),
            ValueParts::Float(bits) => value_view(*value) == TomlView::Float(bits),
            ValueParts::Boolean(flag) => value_view(*value) == TomlView::Boolean(flag),
            ValueParts::Datetime(text) => value_view(*value) == TomlView::Datetime(text@),
            ValueParts::Array(values) => value_view(*value) == TomlView::Array(values_view(values@)),
            ValueParts::Inline(names) => {
                &&& value_view(*value) is Inline
                &&& forall|key: Seq<char>| #[trigger]
                    value_view(*value)->Inline_0.contains_key(key) ==> exists|i: int|
                        0 <= i < names@.len() && (#[trigger] names@[i])@ == key
            },
        },
{
    match value {
        toml_edit::Value::String(text) => ValueParts::Str(text.value()),
        toml_edit::Value::Integer(number) => ValueParts::Integer(*number.value()),
        toml_edit::Value::Float(number) => ValueParts::Float(number.value().to_bits()),
        toml_edit::Value::Boolean(flag) => ValueParts::Boolean(*flag.value()),
        toml_edit::Value::Datetime(time) => ValueParts::Datetime(time.value().to_string()),
        toml_edit::Value::Array(array) => ValueParts::Array(array.iter().collect()),
        toml_edit::Value::InlineTable(table) => ValueParts::Inline(
            toml_edit::TableLike::iter(table).map(|(key, _)| key).collect(),
        ),
    }
}

/// Calls `toml_edit::InlineTable::get_key_value`: the member of that name of an inline
/// table, where it holds something.
#[verifier::external_body]
pub(crate) fn inline_member<'a>(value: &'a toml_edit::Value, key: &str) -> (r: Option<
    &'a toml_edit::Item,
>)
    ensures
        match r {
            Some(member) => {
                &&& value_view(*value) is Inline
                &&& value_view(*value)->Inline_0.contains_key(key@)
                &&& item_view(*member) == value_view(*value)->Inline_0[key@]
            },
            None => value_view(*value) is Inline ==> !value_view(*value)->Inline_0.contains_key(
                key@,
            ),
        },
{
    match value.as_inline_table() {
        Some(table) => table.get_key_value(key).map(|(_, member)| member),
        None => None,
    }
}

} // verus!
