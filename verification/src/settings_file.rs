//! Writing the settings to their TOML file.
//!
//! An existing file is edited in place rather than rewritten: comments, key
//! order, and any keys this application knows nothing about all survive, and
//! only the values it owns are replaced. With no file there a fresh documented
//! one is generated.

use crate::config::{color_text, hex, AppConfig};
use crate::document::{
    around_of, bare, child, child_mut, copy_value, datum_of, decor_of, document_doc, document_text,
    empty_inline, empty_table, entry_or, find, flag_value, fresh, fresh_braces, fresh_header,
    fresh_key, insert_value, is_value, item_node, new_decor, parse_document, parsed_document,
    put_value, render_document, rooted, rows_of, set_decor, spaced, text_value, value_node,
    with_node, with_rows, Around, Datum, Doc, Node, Real, Row,
};
use crate::names::{normal_mac, normalize_mac, NameTable};
use crate::reals::{narrow, narrowed};
use crate::settings_text::{file_text, mac_text, RealTexts};
use crate::text::{joined3, same};
use toml_edit::{DocumentMut, Item, Value};
use vstd::prelude::*;

verus! {

/// A table with a value behind a key. A value that stands there already keeps
/// its place, its key's look and the text around it; any other key gets `around`
/// around its value.
pub open spec fn put(rows: Seq<Row>, key: Seq<char>, datum: Datum, around: Around) -> Seq<Row> {
    let row = Row { key, look: fresh_key(), node: Node::Scalar(datum, fresh(around)) };
    match find(rows, key) {
        Some(i) => if is_value(rows[i].node) {
            with_node(rows, i, Node::Scalar(datum, fresh(around_of(rows[i].node))))
        } else {
            rows.update(i, row)
        },
        None => rows.push(row),
    }
}

/// A new table, inline or not.
pub open spec fn new_table(inline: bool, rows: Seq<Row>) -> Node {
    if inline {
        Node::Inline(fresh_braces(), rows)
    } else {
        Node::Section(fresh_header(), rows)
    }
}

/// What stands in a place, a new table where nothing does.
pub open spec fn opened(node: Node, inline: bool) -> Node {
    if node is Nothing {
        new_table(inline, Seq::empty())
    } else {
        node
    }
}

/// The rows of the table behind a key, inline or not, none where the key is new,
/// or `None` where something else than a table stands there.
pub open spec fn inner_rows(rows: Seq<Row>, name: Seq<char>) -> Option<Seq<Row>> {
    match find(rows, name) {
        Some(i) => rows_of(opened(rows[i].node, false)),
        None => Some(Seq::empty()),
    }
}

/// The table behind a key is inline. A new one is as inline as the table it
/// comes to stand in.
pub open spec fn is_inline(rows: Seq<Row>, name: Seq<char>, inline: bool) -> bool {
    match find(rows, name) {
        Some(i) => opened(rows[i].node, inline) is Inline,
        None => inline,
    }
}

/// The rows of a table, inline or not, with other rows in the table behind a
/// key, which is added at the end where it is new.
pub open spec fn with_inner(
    rows: Seq<Row>,
    inline: bool,
    name: Seq<char>,
    inner: Seq<Row>,
) -> Seq<Row> {
    match find(rows, name) {
        Some(i) => with_node(rows, i, with_rows(opened(rows[i].node, inline), inner)),
        None => rows.push(
            Row { key: name, look: fresh_key(), node: new_table(inline, inner) },
        ),
    }
}

/// The rows of a document after `[section] key = datum` is set, where the
/// section is a table or new.
pub open spec fn after_set(
    rows: Seq<Row>,
    section: Seq<char>,
    key: Seq<char>,
    datum: Datum,
) -> Seq<Row> {
    match inner_rows(rows, section) {
        Some(inner) => with_inner(rows, false, section, put(inner, key, datum, spaced())),
        None => rows,
    }
}

/// Puts a value behind a key of a table. Replacing an existing value keeps its
/// decor, so only the value itself changes on disk - the surrounding spacing
/// and any trailing comment stay put.
fn put_in(table: &mut Item, key: &str, value: Value)
    requires
        rows_of(item_node(*old(table))) is Some,
        is_fresh(value),
    ensures
        item_node(*final(table)) == with_rows(
            item_node(*old(table)),
            put(
                rows_of(item_node(*old(table)))->0,
                key@,
                datum_of(value_node(value)),
                around_of(value_node(value)),
            ),
        ),
{
    let ghost rows = rows_of(item_node(*table))->0;
    let ghost datum = datum_of(value_node(value));
    let mut value = value;
    let decor = match child(table, key) {
        Some(item) => match item.as_value() {
            Some(there) => Some(decor_of(there)),
            None => None,
        },
        None => None,
    };
    match decor {
        Some(decor) => {
            set_decor(&mut value, decor);
            match child_mut(table, key) {
                Some(item) => {
                    put_value(item, value);
                },
                None => {},
            }
        },
        None => {
            insert_value(table, key, value);
        },
    }
}

/// Set `[section] key = value`, adding the table or the key when either is
/// missing. Where something else than a table stands in the section's place,
/// nothing is set.
fn set(document: &mut DocumentMut, section: &str, key: &str, value: Value)
    requires
        rooted(*old(document)),
        is_fresh(value),
    ensures
        rooted(*final(document)),
        document_doc(*final(document)) == (Doc {
            rows: after_set(
                document_doc(*old(document)).rows,
                section@,
                key@,
                datum_of(value_node(value)),
            ),
            ..document_doc(*old(document))
        }),
{
    let ghost rows = document_doc(*document).rows;
    let mut value = value;
    set_decor(&mut value, new_decor(" ", ""));
    proof {
        reveal_strlit(" ");
        reveal_strlit("");
        assert(" "@ =~= seq![' ']);
        assert(""@ =~= Seq::<char>::empty());
        crate::document::find_is_first(rows, section@);
    }
    let root = document.as_item_mut();
    match entry_or(root, section, empty_table()) {
        Some(item) => {
            let table = item.or_insert(empty_table());
            if table.is_table_like() {
                put_in(table, key, value);
            } else {
                proof {
                    let i = find(rows, section@)->0;
                    assert(with_node(rows, i, rows[i].node) =~= rows);
                }
            }
        },
        None => {},
    }
}

/// A row of the nickname table stays: its board is still known, and under this
/// spelling.
pub open spec fn stays(names: Map<Seq<char>, Seq<char>>, key: Seq<char>) -> bool {
    names.dom().contains(key) && normal_mac(key) == key
}

fn keeps(names: &NameTable, key: &str) -> (r: bool)
    ensures
        r == stays(names@, key@),
{
    names.contains_key(key) && same(normalize_mac(key).as_str(), key)
}

/// The rows of a nickname table that stay. An inline table keeps values only.
pub open spec fn kept(
    rows: Seq<Row>,
    inline: bool,
    names: Map<Seq<char>, Seq<char>>,
) -> Seq<Row> {
    rows.filter(|row: Row| stays(names, row.key) && (inline ==> is_value(row.node)))
}

/// Drops the rows that do not stay, with `Table::retain` or
/// `InlineTable::retain`: the rows that stay keep their order and everything
/// that belongs to them. An item that is no table stays as it is.
#[verifier::external_body]
fn retain_names(item: &mut Item, names: &NameTable)
    ensures
        match item_node(*old(item)) {
            Node::Section(header, rows) => item_node(*final(item)) == Node::Section(
                header,
                kept(rows, false, names@),
            ),
            Node::Inline(braces, rows) => item_node(*final(item)) == Node::Inline(
                braces,
                kept(rows, true, names@),
            ),
            _ => *final(item) == *old(item),
        },
{
    match item {
        Item::Table(table) => table.retain(|key, _| keeps(names, key)),
        Item::Value(Value::InlineTable(table)) => table.retain(|key, _| keeps(names, key)),
        _ => {},
    }
}

/// A nickname table with each of these names in it.
pub open spec fn filled(rows: Seq<Row>, pairs: Seq<(Seq<char>, Seq<char>)>) -> Seq<Row>
    decreases pairs.len(),
{
    if pairs.len() == 0 {
        rows
    } else {
        put(filled(rows, pairs.drop_last()), pairs.last().0, Datum::Text(pairs.last().1), bare())
    }
}

/// A nickname table after it is rewritten to match the names.
pub open spec fn renamed(
    rows: Seq<Row>,
    inline: bool,
    names: Map<Seq<char>, Seq<char>>,
    pairs: Seq<(Seq<char>, Seq<char>)>,
) -> Seq<Row> {
    filled(kept(rows, inline, names), pairs)
}

/// The rows of a document after `[ble.names]` is rewritten to match the names,
/// where nothing else than tables stands in its place.
pub open spec fn after_names(
    rows: Seq<Row>,
    names: Map<Seq<char>, Seq<char>>,
    pairs: Seq<(Seq<char>, Seq<char>)>,
) -> Seq<Row> {
    match inner_rows(rows, "ble"@) {
        Some(ble) => match inner_rows(ble, "names"@) {
            Some(inner) => {
                let inline = is_inline(rows, "ble"@, false);
                with_inner(
                    rows,
                    false,
                    "ble"@,
                    with_inner(
                        ble,
                        inline,
                        "names"@,
                        renamed(inner, is_inline(ble, "names"@, inline), names, pairs),
                    ),
                )
            },
            None => rows,
        },
        None => rows,
    }
}

fn fill(table: &mut Item, names: &NameTable)
    requires
        rows_of(item_node(*old(table))) is Some,
    ensures
        item_node(*final(table)) == with_rows(
            item_node(*old(table)),
            filled(rows_of(item_node(*old(table)))->0, names.pairs()),
        ),
{
    let ghost pairs = names.pairs();
    let ghost node = item_node(*table);
    let ghost rows = rows_of(node)->0;
    let mut i: usize = 0;
    proof {
        assert(pairs.take(0) =~= Seq::empty());
    }
    while i < names.len()
        invariant
            pairs == names.pairs(),
            i <= pairs.len(),
            rows_of(node) == Some(rows),
            item_node(*table) == with_rows(node, filled(rows, pairs.take(i as int))),
        decreases pairs.len() - i,
    {
        put_in(table, names.key_at(i), text_value(names.name_at(i)));
        proof {
            assert(pairs.take(i + 1).drop_last() =~= pairs.take(i as int));
            assert(pairs.take(i + 1).last() == pairs[i as int]);
        }
        i = i + 1;
    }
    assert(pairs.take(pairs.len() as int) =~= pairs);
}

/// Rewrites the nickname table of a `[ble]` table.
fn rename(ble: &mut Item, names: &NameTable)
    requires
        rows_of(item_node(*old(ble))) is Some,
    ensures
        ({
            let rows = rows_of(item_node(*old(ble)))->0;
            let inline = item_node(*old(ble)) is Inline;
            match inner_rows(rows, "names"@) {
                Some(inner) => item_node(*final(ble)) == with_rows(
                    item_node(*old(ble)),
                    with_inner(
                        rows,
                        inline,
                        "names"@,
                        renamed(inner, is_inline(rows, "names"@, inline), names@, names.pairs()),
                    ),
                ),
                None => item_node(*final(ble)) == item_node(*old(ble)),
            }
        }),
{
    let ghost rows = rows_of(item_node(*ble))->0;
    proof {
        crate::document::find_is_first(rows, "names"@);
        let j = find(rows, "names"@)->0;
        if find(rows, "names"@) is Some {
            assert(with_node(rows, j, rows[j].node) =~= rows);
        }
        let none: Seq<Row> = Seq::empty();
        assert(kept(none, true, names@) =~= none);
        assert(kept(none, false, names@) =~= none);
    }
    let (new, other) = if ble.is_table() {
        (empty_table(), empty_table())
    } else {
        (empty_inline(), empty_inline())
    };
    match entry_or(ble, "names", new) {
        Some(item) => {
            let table = item.or_insert(other);
            if table.is_table_like() {
                retain_names(table, names);
                fill(table, names);
            }
        },
        None => {},
    }
}

/// Rewrite `[ble.names]` to match `names`, adding the sub-table when it is
/// missing. Entries that are still present keep their decor (so a comment on a
/// nickname line survives), entries no longer in the map are dropped - that is
/// what makes "forget this board" stick across a save.
fn set_names(document: &mut DocumentMut, names: &NameTable)
    requires
        rooted(*old(document)),
    ensures
        rooted(*final(document)),
        document_doc(*final(document)) == (Doc {
            rows: after_names(document_doc(*old(document)).rows, names@, names.pairs()),
            ..document_doc(*old(document))
        }),
{
    let ghost rows = document_doc(*document).rows;
    proof {
        crate::document::find_is_first(rows, "ble"@);
        let i = find(rows, "ble"@)->0;
        if find(rows, "ble"@) is Some {
            assert(with_node(rows, i, rows[i].node) =~= rows);
        }
    }
    let root = document.as_item_mut();
    match entry_or(root, "ble", empty_table()) {
        Some(item) => {
            let ble = item.or_insert(empty_table());
            if ble.is_table_like() {
                rename(ble, names);
            }
        },
        None => {},
    }
}

/// The real-valued settings as float values for the file. Sizes are held in
/// single precision and written through the shortest decimal that reads back
/// as the same number, which is why the caller brings them along.
pub struct Reals {
    pub marker: Real,
    pub beacon: Real,
    pub track: Real,
    pub distance_line: Real,
    pub distance_text: Real,
    pub min_distance: Real,
}

/// The float values are the settings: the sizes in single precision, the
/// recording distance as it is.
pub open spec fn reals_fit(reals: Reals, c: AppConfig) -> bool {
    &&& narrowed(reals.marker.bits()) == c.sizes.marker
    &&& narrowed(reals.beacon.bits()) == c.sizes.beacon
    &&& narrowed(reals.track.bits()) == c.sizes.track
    &&& narrowed(reals.distance_line.bits()) == c.sizes.distance_line
    &&& narrowed(reals.distance_text.bits()) == c.sizes.distance_text
    &&& reals.min_distance.bits() == c.track.min_distance
}

impl Reals {
    /// Whether the float values are the settings.
    pub fn fits(&self, c: &AppConfig) -> (r: bool)
        ensures
            r == reals_fit(*self, *c),
    {
        narrow(self.marker.to_bits()) == c.sizes.marker && narrow(self.beacon.to_bits())
            == c.sizes.beacon && narrow(self.track.to_bits()) == c.sizes.track && narrow(
            self.distance_line.to_bits(),
        ) == c.sizes.distance_line && narrow(self.distance_text.to_bits())
            == c.sizes.distance_text && self.min_distance.to_bits() == c.track.min_distance
    }
}

/// One setting of the file: its section, its key and what it is set to.
pub struct Entry {
    pub section: Seq<char>,
    pub key: Seq<char>,
    pub datum: Datum,
}

/// Every setting with a section and a key of its own, in the order in which
/// they are written.
pub open spec fn entries(c: AppConfig, reals: Reals) -> Seq<Entry> {
    seq![
        Entry {
            section: "colors"@,
            key: "track"@,
            datum: Datum::Text(color_text(c.colors.track)),
        },
        Entry {
            section: "colors"@,
            key: "fixed"@,
            datum: Datum::Text(color_text(c.colors.fixed)),
        },
        Entry { section: "sizes"@, key: "marker"@, datum: Datum::Real(reals.marker.bits()) },
        Entry { section: "sizes"@, key: "beacon"@, datum: Datum::Real(reals.beacon.bits()) },
        Entry { section: "sizes"@, key: "track"@, datum: Datum::Real(reals.track.bits()) },
        Entry {
            section: "sizes"@,
            key: "distance_line"@,
            datum: Datum::Real(reals.distance_line.bits()),
        },
        Entry {
            section: "sizes"@,
            key: "distance_text"@,
            datum: Datum::Real(reals.distance_text.bits()),
        },
        Entry { section: "distance"@, key: "show"@, datum: Datum::Flag(c.distance.show) },
        Entry { section: "distance"@, key: "units"@, datum: Datum::Text(c.distance.units.word()) },
        Entry { section: "distance"@, key: "dotted"@, datum: Datum::Flag(c.distance.dotted) },
        Entry { section: "ble"@, key: "enabled"@, datum: Datum::Flag(c.ble.enabled) },
        Entry { section: "ble"@, key: "show_path"@, datum: Datum::Flag(c.ble.show_path) },
        Entry { section: "ble"@, key: "mac"@, datum: Datum::Text(mac_text(c)) },
        Entry { section: "track"@, key: "min_distance"@, datum: Datum::Real(reals.min_distance.bits()) },
    ]
}

/// The rows of a document after each of these settings is set.
pub open spec fn after_all(rows: Seq<Row>, list: Seq<Entry>) -> Seq<Row>
    decreases list.len(),
{
    if list.len() == 0 {
        rows
    } else {
        let e = list.last();
        after_set(after_all(rows, list.drop_last()), e.section, e.key, e.datum)
    }
}

/// The rows of a document after the settings are saved to it.
pub open spec fn saved_rows(rows: Seq<Row>, c: AppConfig, reals: Reals) -> Seq<Row> {
    after_names(after_all(rows, entries(c, reals)), c.ble.names@, c.ble.names.pairs())
}

/// One setting on its way to the file.
struct Setting {
    section: &'static str,
    key: &'static str,
    value: Value,
}

/// A value of the program's own: a scalar with no spelling of its own.
spec fn is_fresh(value: Value) -> bool {
    value_node(value) matches Node::Scalar(_, look) && look.spelling is None
}

spec fn listed(list: Seq<Setting>) -> Seq<Entry> {
    list.map_values(
        |s: Setting|
            Entry { section: s.section@, key: s.key@, datum: datum_of(value_node(s.value)) },
    )
}

fn setting(section: &'static str, key: &'static str, value: Value) -> (r: Setting)
    ensures
        r.section@ == section@,
        r.key@ == key@,
        r.value == value,
{
    Setting { section, key, value }
}

impl AppConfig {
    /// Every setting with a section and a key of its own.
    fn settings(&self, reals: &Reals) -> (r: Vec<Setting>)
        ensures
            listed(r@) == entries(*self, *reals),
            forall|i: int|
                0 <= i < r@.len() ==> is_fresh((#[trigger] r@[i]).value),
    {
        // An empty string reads back as "unset", so an unpinned MAC keeps the
        // key in the file rather than dropping the line.
        let mac = match &self.ble.mac {
            Some(mac) => mac.clone(),
            None => String::new(),
        };
        let list = vec![
            setting("colors", "track", text_value(hex(self.colors.track).as_str())),
            setting("colors", "fixed", text_value(hex(self.colors.fixed).as_str())),
            setting("sizes", "marker", reals.marker.value()),
            setting("sizes", "beacon", reals.beacon.value()),
            setting("sizes", "track", reals.track.value()),
            setting("sizes", "distance_line", reals.distance_line.value()),
            setting("sizes", "distance_text", reals.distance_text.value()),
            setting("distance", "show", flag_value(self.distance.show)),
            setting("distance", "units", text_value(self.distance.units.as_str())),
            setting("distance", "dotted", flag_value(self.distance.dotted)),
            setting("ble", "enabled", flag_value(self.ble.enabled)),
            setting("ble", "show_path", flag_value(self.ble.show_path)),
            setting("ble", "mac", text_value(mac.as_str())),
            setting("track", "min_distance", reals.min_distance.value()),
        ];
        assert(listed(list@) =~= entries(*self, *reals));
        list
    }

    /// Sets every setting in a document.
    fn write_into(&self, document: &mut DocumentMut, reals: &Reals)
        requires
            rooted(*old(document)),
        ensures
            rooted(*final(document)),
            document_doc(*final(document)) == (Doc {
                rows: saved_rows(document_doc(*old(document)).rows, *self, *reals),
                ..document_doc(*old(document))
            }),
    {
        let list = self.settings(reals);
        let ghost doc = document_doc(*document);
        let ghost rows = doc.rows;
        let ghost all = listed(list@);
        let mut i: usize = 0;
        proof {
            assert(all.take(0) =~= Seq::empty());
        }
        while i < list.len()
            invariant
                all == listed(list@),
                i <= list@.len(),
                forall|j: int|
                    0 <= j < list@.len() ==> is_fresh((#[trigger] list@[j]).value),
                rooted(*document),
                document_doc(*document) == (Doc {
                    rows: after_all(rows, all.take(i as int)),
                    ..doc
                }),
            decreases list@.len() - i,
        {
            set(document, list[i].section, list[i].key, copy_value(&list[i].value));
            proof {
                assert(all.take(i + 1).drop_last() =~= all.take(i as int));
                assert(all.take(i + 1).last() == all[i as int]);
            }
            i = i + 1;
        }
        assert(all.take(all.len() as int) =~= all);
        set_names(document, &self.ble.names);
    }
}

/// What a save writes: the whole text of the file, and whether the file is new.
pub struct SavedFile {
    pub text: String,
    pub created: bool,
}

impl AppConfig {
    /// What to write to the settings file at `path`, which holds `existing`.
    ///
    /// An existing file is edited in place rather than rewritten: comments, key
    /// order, and any keys this app knows nothing about all survive, and only
    /// the values it owns are replaced. With no file there (or an unreadable
    /// one) it generates a fresh documented one from [`Self::to_toml`]. What
    /// stands in the place of one of its tables without being a table is left
    /// there. `reals` and `texts` are the real-valued settings as either file is
    /// to have them.
    pub fn save(
        &self,
        path: &str,
        existing: Option<&str>,
        reals: &Reals,
        texts: &RealTexts,
    ) -> (r: Result<SavedFile, String>)
        requires
            reals_fit(*reals, *self),
        ensures
            match existing {
                None => match r {
                    Ok(file) => file.created && file.text@ == file_text(*self, *texts),
                    Err(_) => false,
                },
                Some(text) => match parsed_document(text@) {
                    Ok(doc) => match r {
                        Ok(file) => !file.created && file.text@ == document_text(
                            Doc { rows: saved_rows(doc.rows, *self, *reals), ..doc },
                        ),
                        Err(_) => false,
                    },
                    Err(why) => match r {
                        Ok(_) => false,
                        Err(message) => message@ == path@ + ": "@ + why,
                    },
                },
            },
    {
        match existing {
            None => Ok(SavedFile { text: self.to_toml(texts), created: true }),
            Some(text) => match parse_document(text) {
                Ok(mut document) => {
                    self.write_into(&mut document, reals);
                    let text = render_document(&document);
                    Ok(SavedFile { text, created: false })
                },
                Err(why) => Err(joined3(path, ": ", why.as_str())),
            },
        }
    }
}

} // verus!
