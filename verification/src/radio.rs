//! Loadable, editable RADIO.TOML for the WIO-E5 board.
//!
//! Unlike [`crate::config`] (the app's own settings), this file belongs to the
//! firmware: the Radio page reads it, offers a per-field editor, and writes it
//! back keeping the comments and the `<key>_description` help strings intact.
//! `toml_edit` is used precisely so a round-trip preserves everything the file
//! carries; only the edited value changes.
//!
//! Each editable key is rendered with an input matched to its data type. The
//! type is inferred from the TOML value, but a sibling `<key>_type` string can
//! force it, which also lets a string be presented as a dropdown:
//!
//! ```toml
//! power_mode = "full"
//! power_mode_type = "enum:full,psmoo,psmct"   # dropdown of the three choices
//! meas_rate_ms_type = "int"                    # force an integer input
//! ```
//!
//! Valid `<key>_type` values are `int`, `float`, `bool`, `string`, or
//! `enum:a,b,c`. The firmware ignores unknown keys, so both `<key>_description`
//! and `<key>_type` are inert to the board.
//!
//! Saving copies the previous on-disk file into a `radio-backups` directory
//! (next to the file) under a timestamped name before overwriting, so old
//! versions are kept and can be restored.

use crate::document::{
    around_of, child, child_mut, datum_of, decor_of, distinct_keys, document_text, find,
    find_is_first, first_is_found, flag_value, fresh, is_value, item_node, keys_of, names_rows,
    node_at, parsed_document, put_down, put_value, real_bits, real_display, real_text, rewritten, set_decor,
    text_value, value_display, value_node, visible, whole_value, with_node, Datum, Doc, Document,
    Node, Real, Row,
};
use crate::reals::whole_as_real;
use crate::text::{
    before, decimal, decimal_text, ends_with, has_prefix, has_suffix, joined, joined3, opt_text,
    pieces, precedes, same, signed_decimal, signed_text, spelled, spells, split, strip_prefix,
    texts, trim, trimmed,
};
use toml_edit::{Item, Value};
use vstd::prelude::*;

verus! {

/// The input a field is rendered with, inferred from its TOML value or forced
/// by a sibling `<key>_type` string.
#[derive(Clone, PartialEq, Debug)]
pub enum FieldType {
    /// Whole number: a draggable integer input.
    Int,
    /// Real number: a draggable float input.
    Float,
    /// Boolean: a checkbox.
    Bool,
    /// Free text: a single-line text field.
    Str,
    /// A string constrained to a fixed set of choices: a dropdown. Options come
    /// from `<key>_type = "enum:a,b,c"`.
    Enum(Vec<String>),
}

/// What a [`FieldType`] says.
pub enum Kind {
    Int,
    Float,
    Bool,
    Str,
    Enum(Seq<Seq<char>>),
}

impl View for FieldType {
    type V = Kind;

    open spec fn view(&self) -> Kind {
        match self {
            FieldType::Int => Kind::Int,
            FieldType::Float => Kind::Float,
            FieldType::Bool => Kind::Bool,
            FieldType::Str => Kind::Str,
            FieldType::Enum(options) => Kind::Enum(texts(options@)),
        }
    }
}

/// One editable setting: where it lives and how to render it. The live value is
/// read from (and written to) the document, so this holds only fixed metadata.
pub struct RadioField {
    /// The `[section]` the key sits under; empty for a top-level key.
    pub section: String,
    pub key: String,
    pub ty: FieldType,
    /// Help text from the sibling `<key>_description` string, if present.
    pub description: Option<String>,
}

/// What a [`RadioField`] says.
pub struct Field {
    pub section: Seq<char>,
    pub key: Seq<char>,
    pub ty: Kind,
    pub description: Option<Seq<char>>,
}

impl View for RadioField {
    type V = Field;

    open spec fn view(&self) -> Field {
        Field {
            section: self.section@,
            key: self.key@,
            ty: self.ty@,
            description: opt_text(self.description),
        }
    }
}

/// A key names metadata of another key.
pub open spec fn is_meta(key: Seq<char>) -> bool {
    has_suffix(key, "_description"@) || has_suffix(key, "_type"@)
}

/// Whether `key` is one of the metadata keys (`<name>_description` /
/// `<name>_type`) rather than an editable setting.
pub fn is_meta_key(key: &str) -> (r: bool)
    ensures
        r == is_meta(key@),
{
    ends_with(key, "_description") || ends_with(key, "_type")
}

/// The choices that a list spells: its pieces, trimmed, without the blank ones.
pub open spec fn choices(list: Seq<Seq<char>>) -> Seq<Seq<char>>
    decreases list.len(),
{
    if list.len() == 0 {
        Seq::empty()
    } else {
        let option = trimmed(list.last());
        if option.len() == 0 {
            choices(list.drop_last())
        } else {
            choices(list.drop_last()).push(option)
        }
    }
}

/// The kind that a `<key>_type` text names, if it names one.
pub open spec fn kind_named(text: Seq<char>) -> Option<Kind> {
    let word = trimmed(text);
    if has_prefix(word, "enum:"@) {
        let options = choices(pieces(word.skip("enum:"@.len() as int), ','));
        if options.len() == 0 {
            None
        } else {
            Some(Kind::Enum(options))
        }
    } else if spells(word, "int"@) || spells(word, "integer"@) {
        Some(Kind::Int)
    } else if spells(word, "float"@) || spells(word, "double"@) {
        Some(Kind::Float)
    } else if spells(word, "bool"@) || spells(word, "boolean"@) {
        Some(Kind::Bool)
    } else if spells(word, "string"@) || spells(word, "str"@) {
        Some(Kind::Str)
    } else {
        None
    }
}

fn take_choices(list: &Vec<String>) -> (r: Vec<String>)
    ensures
        texts(r@) == choices(texts(list@)),
{
    let ghost all = texts(list@);
    let mut r: Vec<String> = Vec::new();
    let mut i: usize = 0;
    proof {
        assert(all.take(0) =~= Seq::empty());
        assert(texts(r@) =~= Seq::empty());
    }
    while i < list.len()
        invariant
            all == texts(list@),
            i <= list@.len(),
            texts(r@) == choices(all.take(i as int)),
        decreases list@.len() - i,
    {
        let option = trim(list[i].as_str());
        proof {
            assert(all.take(i + 1).drop_last() =~= all.take(i as int));
            assert(all.take(i + 1).last() == list@[i as int]@);
        }
        if !option.as_str().is_empty() {
            let ghost before = r@;
            let ghost text = option@;
            r.push(option);
            assert(texts(r@) =~= texts(before).push(text));
        }
        i = i + 1;
    }
    assert(all.take(all.len() as int) =~= all);
    r
}

/// Parse a `<key>_type` string into a [`FieldType`], or `None` if unrecognized
/// (in which case the value's own type is used instead).
pub fn parse_type_spec(spec_text: &str) -> (r: Option<FieldType>)
    ensures
        match r {
            Some(ty) => kind_named(spec_text@) == Some(ty@),
            None => kind_named(spec_text@) is None,
        },
{
    let word = trim(spec_text);
    let w = word.as_str();
    match strip_prefix(w, "enum:") {
        Some(rest) => {
            let options = take_choices(&split(rest.as_str(), ','));
            assert(texts(options@).len() == options@.len());
            if options.len() == 0 {
                None
            } else {
                Some(FieldType::Enum(options))
            }
        },
        None => if spelled(w, "int") || spelled(w, "integer") {
            Some(FieldType::Int)
        } else if spelled(w, "float") || spelled(w, "double") {
            Some(FieldType::Float)
        } else if spelled(w, "bool") || spelled(w, "boolean") {
            Some(FieldType::Bool)
        } else if spelled(w, "string") || spelled(w, "str") {
            Some(FieldType::Str)
        } else {
            None
        },
    }
}

/// The text that a table shows behind a key.
pub open spec fn text_at(rows: Seq<Row>, key: Seq<char>) -> Option<Seq<char>> {
    match node_at(rows, key) {
        Some(Node::Scalar(Datum::Text(text), _)) => Some(text),
        _ => None,
    }
}

fn find_text(table: &Item, key: &str) -> (r: Option<String>)
    requires
        item_node(*table) is Section,
    ensures
        opt_text(r) == text_at(item_node(*table)->Section_1, key@),
{
    match child(table, key) {
        Some(item) => match item.as_value() {
            Some(value) => match value.as_str() {
                Some(text) => Some(text.to_owned()),
                None => None,
            },
            None => None,
        },
        None => None,
    }
}

/// The kind that a value has by itself.
pub open spec fn kind_inferred(datum: Datum) -> Kind {
    match datum {
        Datum::Whole(_) => Kind::Int,
        Datum::Real(_) => Kind::Float,
        Datum::Flag(_) => Kind::Bool,
        _ => Kind::Str,
    }
}

/// The kind of a key's value: the one its `<key>_type` names, if it names one,
/// and otherwise the value's own.
pub open spec fn kind_at(rows: Seq<Row>, key: Seq<char>, datum: Datum) -> Kind {
    match text_at(rows, key + "_type"@) {
        Some(text) => match kind_named(text) {
            Some(kind) => kind,
            None => kind_inferred(datum),
        },
        None => kind_inferred(datum),
    }
}

/// The field type for `key`: the sibling `<key>_type` override when valid,
/// otherwise inferred from the value itself.
fn field_type(table: &Item, key: &str, value: &Value) -> (r: FieldType)
    requires
        item_node(*table) is Section,
    ensures
        r@ == kind_at(item_node(*table)->Section_1, key@, datum_of(value_node(*value))),
{
    let forced = match find_text(table, joined(key, "_type").as_str()) {
        Some(text) => parse_type_spec(text.as_str()),
        None => None,
    };
    match forced {
        Some(ty) => ty,
        None => if value.as_integer().is_some() {
            FieldType::Int
        } else if real_bits(value).is_some() {
            FieldType::Float
        } else if value.as_bool().is_some() {
            FieldType::Bool
        } else {
            FieldType::Str
        },
    }
}

/// The editable fields among some of a table's rows: those with a value, but
/// for the metadata keys.
pub open spec fn fields_among(section: Seq<char>, rows: Seq<Row>, some: Seq<Row>) -> Seq<Field>
    decreases some.len(),
{
    if some.len() == 0 {
        Seq::empty()
    } else {
        let before = fields_among(section, rows, some.drop_last());
        let row = some.last();
        if is_value(row.node) && !is_meta(row.key) {
            before.push(
                Field {
                    section,
                    key: row.key,
                    ty: kind_at(rows, row.key, datum_of(row.node)),
                    description: text_at(rows, row.key + "_description"@),
                },
            )
        } else {
            before
        }
    }
}

/// The editable fields of a table, in file order.
pub open spec fn fields_in(section: Seq<char>, rows: Seq<Row>) -> Seq<Field> {
    fields_among(section, rows, visible(rows))
}

/// The editable fields of the tables among some of the root rows.
pub open spec fn section_fields(some: Seq<Row>) -> Seq<Field>
    decreases some.len(),
{
    if some.len() == 0 {
        Seq::empty()
    } else {
        let before = section_fields(some.drop_last());
        match some.last().node {
            Node::Section(_, inner) => before + fields_in(some.last().key, inner),
            _ => before,
        }
    }
}

/// The editable fields of a document: top-level values first, then each
/// `[section]` in file order.
pub open spec fn all_fields(rows: Seq<Row>) -> Seq<Field> {
    fields_in(Seq::empty(), rows) + section_fields(visible(rows))
}

/// What the fields of a list say.
pub open spec fn listed(fields: Seq<RadioField>) -> Seq<Field> {
    fields.map_values(|f: RadioField| f@)
}

proof fn lemma_visible(rows: Seq<Row>, i: int)
    requires
        distinct_keys(rows),
        0 <= i < visible(rows).len(),
    ensures
        node_at(rows, visible(rows)[i].key) == Some(visible(rows)[i].node),
{
    let row = visible(rows)[i];
    let pred = |row: Row| !(row.node is Nothing);
    assert(pred(rows.filter(pred)[i]));
    assert(rows.filter(pred).contains(row));
    rows.lemma_filter_contains_rev(pred, row);
    let j = choose|j: int| 0 <= j < rows.len() && rows[j] == row;
    assert forall|k: int| 0 <= k < j implies (#[trigger] rows[k]).key != row.key by {
        assert(rows[k].key != rows[j].key);
    }
    first_is_found(rows, row.key, j);
}

/// Append the scalar settings of one table to `out`. Nested tables and the
/// metadata keys are skipped.
fn collect_table(section: &str, table: &Item, out: &mut Vec<RadioField>)
    requires
        item_node(*table) is Section,
    ensures
        listed(final(out)@) == listed(old(out)@) + fields_in(
            section@,
            item_node(*table)->Section_1,
        ),
{
    let ghost rows = item_node(*table)->Section_1;
    let ghost some = visible(rows);
    let ghost had = listed(out@);
    let keys = keys_of(table);
    let mut i: usize = 0;
    proof {
        assert(some.take(0) =~= Seq::empty());
        assert(had + Seq::<Field>::empty() =~= had);
    }
    while i < keys.len()
        invariant
            item_node(*table) is Section,
            rows == item_node(*table)->Section_1,
            some == visible(rows),
            names_rows(keys@, rows),
            i <= keys@.len(),
            listed(out@) == had + fields_among(section@, rows, some.take(i as int)),
        decreases keys@.len() - i,
    {
        let key = keys[i].as_str();
        let ghost so_far = fields_among(section@, rows, some.take(i as int));
        proof {
            assert(keys@[i as int]@ == some[i as int].key);
            lemma_visible(rows, i as int);
            assert(some.take(i + 1).drop_last() =~= some.take(i as int));
            assert(some.take(i + 1).last() == some[i as int]);
        }
        match child(table, key) {
            Some(item) => match item.as_value() {
                Some(value) => {
                    if !is_meta_key(key) {
                        let field = RadioField {
                            section: section.to_owned(),
                            key: key.to_owned(),
                            ty: field_type(table, key, value),
                            description: find_text(table, joined(key, "_description").as_str()),
                        };
                        let ghost fields = out@;
                        let ghost one = field@;
                        out.push(field);
                        proof {
                            assert(listed(out@) =~= listed(fields).push(one));
                            assert(had + so_far.push(one) =~= (had + so_far).push(one));
                        }
                    }
                },
                None => {},
            },
            None => {},
        }
        i = i + 1;
    }
    assert(some.take(some.len() as int) =~= some);
}

/// Build the editable-field list from a document: top-level scalars first, then
/// each `[section]` in file order.
fn collect_fields(document: &Document) -> (r: Vec<RadioField>)
    ensures
        listed(r@) == all_fields(document@.rows),
{
    let root = document.root();
    let ghost rows = document@.rows;
    let ghost some = visible(rows);
    let mut out: Vec<RadioField> = Vec::new();
    proof {
        assert(listed(out@) =~= Seq::empty());
        reveal_strlit("");
        assert(""@ =~= Seq::<char>::empty());
    }
    collect_table("", root, &mut out);
    let ghost top = fields_in(Seq::empty(), rows);
    let keys = keys_of(root);
    let mut i: usize = 0;
    proof {
        assert(some.take(0) =~= Seq::empty());
        assert(Seq::<Field>::empty() + top =~= top);
        assert(top + Seq::<Field>::empty() =~= top);
    }
    while i < keys.len()
        invariant
            item_node(*root) is Section,
            rows == item_node(*root)->Section_1,
            some == visible(rows),
            names_rows(keys@, rows),
            i <= keys@.len(),
            listed(out@) == top + section_fields(some.take(i as int)),
        decreases keys@.len() - i,
    {
        let name = keys[i].as_str();
        let ghost so_far = section_fields(some.take(i as int));
        proof {
            assert(keys@[i as int]@ == some[i as int].key);
            lemma_visible(rows, i as int);
            assert(some.take(i + 1).drop_last() =~= some.take(i as int));
            assert(some.take(i + 1).last() == some[i as int]);
        }
        match child(root, name) {
            Some(table) => if table.is_table() {
                collect_table(name, table, &mut out);
                proof {
                    let more = fields_in(name@, item_node(*table)->Section_1);
                    assert((top + so_far) + more =~= top + (so_far + more));
                }
            },
            None => {},
        }
        i = i + 1;
    }
    assert(some.take(some.len() as int) =~= some);
    out
}

/// A value being edited, typed so the editor can bind a type-specific widget to
/// it and write it back without string parsing.
pub enum EditVal {
    Int(i64),
    Float(Real),
    Bool(bool),
    Str(String),
}

impl View for EditVal {
    type V = Datum;

    open spec fn view(&self) -> Datum {
        match self {
            EditVal::Int(n) => Datum::Whole(*n),
            EditVal::Float(x) => Datum::Real(x.bits()),
            EditVal::Bool(b) => Datum::Flag(*b),
            EditVal::Str(s) => Datum::Text(s@),
        }
    }
}

/// A loaded RADIO.TOML: the parsed document (the source of truth for values),
/// the ordered list of editable fields, and where it came from.
pub struct RadioDoc {
    /// The parsed document.
    pub doc: Document,
    /// Editable fields in file order, grouped by section.
    pub fields: Vec<RadioField>,
    /// The file this was loaded from and is saved back to.
    pub path: String,
    /// A value has been edited since the last load/save.
    pub dirty: bool,
}

/// What a document shows at `section`/`key`; an empty section stands for the
/// top level.
pub open spec fn shown_at(rows: Seq<Row>, section: Seq<char>, key: Seq<char>) -> Option<Node> {
    if section.len() == 0 {
        node_at(rows, key)
    } else {
        match node_at(rows, section) {
            Some(Node::Section(_, inner)) => node_at(inner, key),
            _ => None,
        }
    }
}

/// The value that a document shows at `section`/`key`, with its look.
pub open spec fn value_at(rows: Seq<Row>, section: Seq<char>, key: Seq<char>) -> Option<Node> {
    match shown_at(rows, section, key) {
        Some(node) => if is_value(node) {
            Some(node)
        } else {
            None
        },
        None => None,
    }
}

/// The content of the value that a document shows at `section`/`key`.
pub open spec fn datum_at(rows: Seq<Row>, section: Seq<char>, key: Seq<char>) -> Option<Datum> {
    match value_at(rows, section, key) {
        Some(node) => Some(datum_of(node)),
        None => None,
    }
}

/// A value for read-only display. A date, an array or an inline table is shown
/// with the text around it, but for the blanks.
pub open spec fn display(value: Option<Node>) -> Seq<char> {
    match value {
        Some(node) => match datum_of(node) {
            Datum::Text(text) => text,
            Datum::Whole(n) => signed_decimal(n as int),
            Datum::Real(bits) => real_text(bits),
            Datum::Flag(b) => if b {
                "true"@
            } else {
                "false"@
            },
            Datum::Other(text) => trimmed(
                put_down(around_of(node).prefix) + text + put_down(around_of(node).suffix),
            ),
        },
        None => Seq::empty(),
    }
}

/// The field at `section`/`key`, if there is one.
pub open spec fn field_named(
    fields: Seq<Field>,
    section: Seq<char>,
    key: Seq<char>,
) -> Option<Field>
    decreases fields.len(),
{
    if fields.len() == 0 {
        None
    } else if fields[0].section == section && fields[0].key == key {
        Some(fields[0])
    } else {
        field_named(fields.drop_first(), section, key)
    }
}

/// The value that an editor for `section`/`key` starts from: the one that
/// stands there if it is of the field's kind, and the kind's zero otherwise. A
/// whole number is of the float kind too.
pub open spec fn edit_start(ty: Option<Kind>, datum: Option<Datum>) -> Datum {
    match ty {
        Some(Kind::Int) => match datum {
            Some(Datum::Whole(n)) => Datum::Whole(n),
            _ => Datum::Whole(0),
        },
        Some(Kind::Float) => match datum {
            Some(Datum::Real(bits)) => Datum::Real(bits),
            Some(Datum::Whole(n)) => Datum::Real(whole_as_real(n)),
            _ => Datum::Real(0),
        },
        Some(Kind::Bool) => match datum {
            Some(Datum::Flag(b)) => Datum::Flag(b),
            _ => Datum::Flag(false),
        },
        _ => match datum {
            Some(Datum::Text(text)) => Datum::Text(text),
            _ => Datum::Text(Seq::empty()),
        },
    }
}

/// A table with another value behind a key that has one already: the text around
/// it stays.
pub open spec fn overwritten(rows: Seq<Row>, key: Seq<char>, datum: Datum) -> Seq<Row> {
    match find(rows, key) {
        Some(i) => if is_value(rows[i].node) {
            with_node(rows, i, Node::Scalar(datum, fresh(around_of(rows[i].node))))
        } else {
            rows
        },
        None => rows,
    }
}

/// A document after a value is applied at `section`/`key`.
pub open spec fn applied(
    rows: Seq<Row>,
    section: Seq<char>,
    key: Seq<char>,
    datum: Datum,
) -> Seq<Row> {
    if section.len() == 0 {
        overwritten(rows, key, datum)
    } else {
        match find(rows, section) {
            Some(i) => match rows[i].node {
                Node::Section(header, inner) => with_node(
                    rows,
                    i,
                    Node::Section(header, overwritten(inner, key, datum)),
                ),
                _ => rows,
            },
            None => rows,
        }
    }
}

/// So many underscores.
pub open spec fn marks(n: nat) -> Seq<char> {
    Seq::new(n, |i: int| '_')
}

/// The name a backup is kept under: the file's own name, the time in seconds,
/// so many marks, and `bak`.
pub open spec fn backup_name_of(stem: Option<Seq<char>>, stamp: u64, n: nat) -> Seq<char> {
    (match stem {
        Some(name) => name,
        None => "RADIO.toml"@,
    }) + "."@ + decimal(stamp as nat) + marks(n) + ".bak"@
}

/// A name is the first that is free: the plainly stamped one, or the one with
/// the fewest marks that is not taken.
pub open spec fn first_free(
    name: Seq<char>,
    stem: Option<Seq<char>>,
    stamp: u64,
    taken: Seq<Seq<char>>,
) -> bool {
    exists|n: nat| #[trigger]
        backup_name_of(stem, stamp, n) == name && !taken.contains(name) && forall|m: nat|
            m < n ==> taken.contains(#[trigger] backup_name_of(stem, stamp, m))
}

/// The length of the longest of some texts.
spec fn longest(list: Seq<Seq<char>>) -> nat
    decreases list.len(),
{
    if list.len() == 0 {
        0
    } else if list.last().len() > longest(list.drop_last()) {
        list.last().len()
    } else {
        longest(list.drop_last())
    }
}

proof fn lemma_longest(list: Seq<Seq<char>>, s: Seq<char>)
    requires
        list.contains(s),
    ensures
        s.len() <= longest(list),
    decreases list.len(),
{
    let i = choose|i: int| 0 <= i < list.len() && list[i] == s;
    if i < list.len() - 1 {
        assert(list.drop_last()[i] == s);
        lemma_longest(list.drop_last(), s);
    }
}

fn is_taken(taken: &Vec<String>, name: &str) -> (r: bool)
    ensures
        r == texts(taken@).contains(name@),
{
    let ghost all = texts(taken@);
    let mut i: usize = 0;
    while i < taken.len()
        invariant
            all == texts(taken@),
            i <= taken@.len(),
            forall|j: int| 0 <= j < i ==> #[trigger] all[j] != name@,
        decreases taken@.len() - i,
    {
        assert(all[i as int] == taken@[i as int]@);
        if same(taken[i].as_str(), name) {
            assert(all[i as int] == name@);
            return true;
        }
        i = i + 1;
    }
    false
}

/// Writes a value over the one behind a key of a table, where there is one.
fn overwrite(table: &mut Item, key: &str, val: &EditVal)
    requires
        item_node(*old(table)) is Section,
    ensures
        item_node(*final(table)) == Node::Section(
            item_node(*old(table))->Section_0,
            overwritten(item_node(*old(table))->Section_1, key@, val@),
        ),
{
    let ghost rows = item_node(*table)->Section_1;
    proof {
        find_is_first(rows, key@);
        let i = find(rows, key@)->0;
        if find(rows, key@) is Some {
            assert(with_node(rows, i, rows[i].node) =~= rows);
        }
    }
    match child_mut(table, key) {
        Some(item) => {
            // Preserve the value's decor (surrounding whitespace) so only the
            // number or string itself changes on disk.
            let decor = match item.as_value() {
                Some(existing) => decor_of(existing),
                None => {
                    return;
                },
            };
            let mut new = match val {
                EditVal::Int(n) => whole_value(*n),
                EditVal::Float(x) => x.value(),
                EditVal::Bool(b) => flag_value(*b),
                EditVal::Str(s) => text_value(s.as_str()),
            };
            set_decor(&mut new, decor);
            put_value(item, new);
        },
        None => {},
    }
}

impl RadioDoc {
    /// The rows of the document.
    pub open spec fn rows(&self) -> Seq<Row> {
        self.doc@.rows
    }

    /// The RADIO.TOML that `text`, the content of the file at `path`, spells. A
    /// returned `Err` is a human-readable message for the UI.
    pub fn from_text(path: &str, text: &str) -> (r: Result<Self, String>)
        ensures
            match parsed_document(text@) {
                Ok(doc) => match r {
                    Ok(d) => {
                        &&& d.doc@ == doc
                        &&& document_text(d.doc@) == rewritten(text@)
                        &&& listed(d.fields@) == all_fields(doc.rows)
                        &&& d.path@ == path@
                        &&& !d.dirty
                    },
                    Err(_) => false,
                },
                Err(why) => match r {
                    Ok(_) => false,
                    Err(message) => message@ == path@ + ": "@ + why,
                },
            },
    {
        match Document::parse(text) {
            Ok(doc) => Ok(
                RadioDoc {
                    fields: collect_fields(&doc),
                    doc,
                    path: path.to_owned(),
                    dirty: false,
                },
            ),
            Err(why) => Err(joined3(path, ": ", why.as_str())),
        }
    }

    /// The value item at `section`/`key`, if present.
    fn value(&self, section: &str, key: &str) -> (r: Option<&Value>)
        ensures
            match r {
                Some(value) => value_at(self.rows(), section@, key@) == Some(value_node(*value)),
                None => value_at(self.rows(), section@, key@) is None,
            },
    {
        let root = self.doc.root();
        let table = if section.is_empty() {
            root
        } else {
            match child(root, section) {
                Some(table) => if table.is_table() {
                    table
                } else {
                    return None;
                },
                None => {
                    return None;
                },
            }
        };
        match child(table, key) {
            Some(item) => item.as_value(),
            None => None,
        }
    }

    /// The current value formatted for read-only display (no surrounding
    /// whitespace or quotes).
    pub fn display_at(&self, section: &str, key: &str) -> (r: String)
        ensures
            r@ == display(value_at(self.rows(), section@, key@)),
    {
        let value = match self.value(section, key) {
            Some(value) => value,
            None => {
                return String::new();
            },
        };
        match value.as_str() {
            Some(text) => {
                return text.to_owned();
            },
            None => {},
        }
        match value.as_integer() {
            Some(n) => {
                return signed_text(n);
            },
            None => {},
        }
        match real_display(value) {
            Some(text) => {
                return text;
            },
            None => {},
        }
        match value.as_bool() {
            Some(b) => if b {
                "true".to_owned()
            } else {
                "false".to_owned()
            },
            None => trim(value_display(value).as_str()),
        }
    }

    /// The field metadata for `section`/`key`, if it is an editable field.
    fn field_at(&self, section: &str, key: &str) -> (r: Option<&RadioField>)
        ensures
            match r {
                Some(field) => field_named(listed(self.fields@), section@, key@) == Some(field@),
                None => field_named(listed(self.fields@), section@, key@) is None,
            },
    {
        let ghost all = listed(self.fields@);
        let mut i: usize = 0;
        proof {
            assert(all.skip(0) =~= all);
        }
        while i < self.fields.len()
            invariant
                all == listed(self.fields@),
                i <= self.fields@.len(),
                field_named(all, section@, key@) == field_named(
                    all.skip(i as int),
                    section@,
                    key@,
                ),
            decreases self.fields@.len() - i,
        {
            let field = &self.fields[i];
            proof {
                assert(all.skip(i as int)[0] == field@);
                assert(all.skip(i as int).drop_first() =~= all.skip(i + 1));
            }
            if same(field.section.as_str(), section) && same(field.key.as_str(), key) {
                return Some(field);
            }
            i = i + 1;
        }
        None
    }

    /// Seed an [`EditVal`] from the current value, typed per the field so the
    /// editor binds the matching widget.
    pub fn edit_val_at(&self, section: &str, key: &str) -> (r: EditVal)
        ensures
            r@ == edit_start(
                match field_named(listed(self.fields@), section@, key@) {
                    Some(field) => Some(field.ty),
                    None => None,
                },
                datum_at(self.rows(), section@, key@),
            ),
    {
        let value = self.value(section, key);
        let ty = match self.field_at(section, key) {
            Some(field) => &field.ty,
            None => &FieldType::Str,
        };
        match ty {
            FieldType::Int => match value {
                Some(v) => match v.as_integer() {
                    Some(n) => EditVal::Int(n),
                    None => EditVal::Int(0),
                },
                None => EditVal::Int(0),
            },
            FieldType::Float => match value {
                Some(v) => match Real::of(v) {
                    Some(x) => EditVal::Float(x),
                    None => match v.as_integer() {
                        Some(n) => EditVal::Float(Real::whole(n)),
                        None => EditVal::Float(Real::whole(0)),
                    },
                },
                None => EditVal::Float(Real::whole(0)),
            },
            FieldType::Bool => match value {
                Some(v) => match v.as_bool() {
                    Some(b) => EditVal::Bool(b),
                    None => EditVal::Bool(false),
                },
                None => EditVal::Bool(false),
            },
            _ => match value {
                Some(v) => match v.as_str() {
                    Some(s) => EditVal::Str(s.to_owned()),
                    None => EditVal::Str(String::new()),
                },
                None => EditVal::Str(String::new()),
            },
        }
    }

    /// Write an edited value back into the document, keeping the text around the
    /// value (leading/trailing whitespace). Marks the doc dirty. Where no value
    /// stands, nothing changes.
    pub fn apply(&mut self, section: &str, key: &str, val: &EditVal)
        ensures
            if datum_at(old(self).rows(), section@, key@) is Some {
                &&& *final(self) == (RadioDoc { doc: final(self).doc, dirty: true, ..*old(self) })
                &&& final(self).doc@ == (Doc {
                    rows: applied(old(self).rows(), section@, key@, val@),
                    ..old(self).doc@
                })
            } else {
                *final(self) == *old(self)
            },
    {
        if self.value(section, key).is_none() {
            return;
        }
        let ghost rows = self.rows();
        proof {
            find_is_first(rows, section@);
        }
        let mut document = self.doc.take();
        let root = document.as_item_mut();
        if section.is_empty() {
            overwrite(root, key, val);
        } else {
            match child_mut(root, section) {
                Some(table) => {
                    overwrite(table, key, val);
                },
                None => {},
            }
        }
        self.doc = Document::edited(document);
        self.dirty = true;
    }

    /// The document as the text of a file.
    pub fn to_text(&self) -> (r: String)
        ensures
            r@ == document_text(self.doc@),
    {
        self.doc.to_text()
    }

    /// The name to keep a backup of the file under: the file's own name, the
    /// time in seconds, and `bak`. Where that name is taken, as by a backup made
    /// within the same second, it is marked until it is free, so that no backup
    /// takes the place of another.
    pub fn backup_name(stem: Option<&str>, stamp: u64, taken: &Vec<String>) -> (r: String)
        ensures
            first_free(
                r@,
                match stem {
                    Some(name) => Some(name@),
                    None => None,
                },
                stamp,
                texts(taken@),
            ),
            forall|i: int| 0 <= i < taken@.len() ==> (#[trigger] taken@[i])@ != r@,
    {
        let ghost s = match stem {
            Some(name) => Some(name@),
            None => None,
        };
        let ghost all = texts(taken@);
        let stem = match stem {
            Some(name) => name,
            None => "RADIO.toml",
        };
        let mut stamped = joined(stem, ".");
        stamped.append(decimal_text(stamp).as_str());
        let mut name = joined(stamped.as_str(), ".bak");
        let ghost mut n: nat = 0;
        proof {
            assert(stamped@ + marks(0) =~= stamped@);
        }
        while is_taken(taken, name.as_str())
            invariant
                all == texts(taken@),
                name@ == backup_name_of(s, stamp, n),
                name@ == stamped@ + ".bak"@,
                stamped@ == (match s {
                    Some(name) => name,
                    None => "RADIO.toml"@,
                }) + "."@ + decimal(stamp as nat) + marks(n),
                forall|m: nat|
                    m < n ==> all.contains(#[trigger] backup_name_of(s, stamp, m)),
            decreases longest(all) + 1 - n,
        {
            proof {
                lemma_longest(all, name@);
                assert(name@.len() >= n);
                assert(marks(n).push('_') =~= marks(n + 1));
            }
            let ghost before = stamped@;
            stamped.push('_');
            name = joined(stamped.as_str(), ".bak");
            proof {
                let head = (match s {
                    Some(name) => name,
                    None => "RADIO.toml"@,
                }) + "."@ + decimal(stamp as nat);
                assert(stamped@ =~= head + marks(n + 1));
                assert forall|m: nat| m < n + 1 implies all.contains(
                    #[trigger] backup_name_of(s, stamp, m),
                ) by {}
                n = n + 1;
            }
        }
        proof {
            assert(backup_name_of(s, stamp, n) == name@);
            assert forall|i: int| 0 <= i < taken@.len() implies (#[trigger] taken@[i])@
                != name@ by {
                assert(all[i] == taken@[i]@);
            }
        }
        name
    }

    /// The directory that the backup directory stands in: the one the file is
    /// in, and the current one where the path names none.
    pub fn backup_base(parent: Option<&str>) -> (r: String)
        ensures
            r@ == match parent {
                Some(dir) => if dir@.len() == 0 {
                    "."@
                } else {
                    dir@
                },
                None => "."@,
            },
    {
        match parent {
            Some(dir) => if dir.is_empty() {
                ".".to_owned()
            } else {
                dir.to_owned()
            },
            None => ".".to_owned(),
        }
    }

    /// What a save writes, once the previous file was backed up: the document, or
    /// nothing where that failed, so that no version is overwritten unkept.
    /// `backup` is the name of the backup, `None` where there was no file yet.
    pub fn text_to_write(&self, backup: &Result<Option<String>, String>) -> (r: Option<String>)
        ensures
            r is Some <==> *backup is Ok,
            r is Some ==> r->0@ == document_text(self.doc@),
    {
        match backup {
            Ok(_) => Some(self.to_text()),
            Err(_) => None,
        }
    }

    /// Takes down how a save went: the document is clean once it is written.
    /// Returns the backup path when one was made.
    pub fn save(&mut self, backup: Option<String>, written: Result<(), String>) -> (r: Result<
        Option<String>,
        String,
    >)
        ensures
            *final(self) == (RadioDoc { dirty: final(self).dirty, ..*old(self) }),
            match written {
                Ok(_) => !final(self).dirty && r == Ok::<Option<String>, String>(backup),
                Err(why) => final(self).dirty == old(self).dirty && match r {
                    Ok(_) => false,
                    Err(message) => message@ == old(self).path@ + ": "@ + why@,
                },
            },
    {
        match written {
            Ok(_) => {
                self.dirty = false;
                Ok(backup)
            },
            Err(why) => Err(joined3(self.path.as_str(), ": ", why.as_str())),
        }
    }

    /// Load a backup's contents into this document (keeping `path` pointed at
    /// the live file), marking it dirty so a Save writes it back as current.
    pub fn restore(&mut self, backup: &str, text: &str) -> (r: Result<(), String>)
        ensures
            final(self).path == old(self).path,
            match parsed_document(text@) {
                Ok(doc) => {
                    &&& r is Ok
                    &&& final(self).doc@ == doc
                    &&& document_text(final(self).doc@) == rewritten(text@)
                    &&& listed(final(self).fields@) == all_fields(doc.rows)
                    &&& final(self).dirty
                },
                Err(why) => {
                    &&& *final(self) == *old(self)
                    &&& match r {
                        Ok(_) => false,
                        Err(message) => message@ == backup@ + ": "@ + why,
                    }
                },
            },
    {
        match Document::parse(text) {
            Ok(doc) => {
                self.fields = collect_fields(&doc);
                self.doc = doc;
                self.dirty = true;
                Ok(())
            },
            Err(why) => Err(joined3(backup, ": ", why.as_str())),
        }
    }
}

/// A file in the backup directory is a backup by its name.
pub open spec fn is_backup(name: Seq<char>) -> bool {
    name.len() > 4 && has_suffix(name, ".bak"@)
}

/// No name comes before one that is behind it in the list.
pub open spec fn descending(list: Seq<Seq<char>>) -> bool {
    forall|i: int, j: int|
        0 <= i < j < list.len() ==> !precedes(#[trigger] list[i], #[trigger] list[j])
}

fn insert_descending(list: &mut Vec<String>, name: String)
    requires
        descending(texts(old(list)@)),
    ensures
        descending(texts(final(list)@)),
        texts(final(list)@).to_multiset() == texts(old(list)@).to_multiset().insert(name@),
{
    let ghost had = texts(list@);
    let ghost new = name@;
    let mut at: usize = 0;
    while at < list.len() && !before(list[at].as_str(), name.as_str())
        invariant
            had == texts(list@),
            new == name@,
            at <= list@.len(),
            forall|k: int| 0 <= k < at ==> !precedes(#[trigger] had[k], new),
        decreases list@.len() - at,
    {
        assert(had[at as int] == list@[at as int]@);
        at = at + 1;
    }
    proof {
        if at < list@.len() {
            assert(had[at as int] == list@[at as int]@);
        }
    }
    list.insert(at, name);
    let ghost now = texts(list@);
    proof {
        assert(now =~= had.insert(at as int, new));
        assert(now.remove(at as int) =~= had);
        now.to_multiset_ensures();
        assert(now.contains(new)) by {
            assert(now[at as int] == new);
        }
        assert(now.to_multiset() =~= had.to_multiset().insert(new));
        assert forall|i: int, j: int| 0 <= i < j < now.len() implies !precedes(
            #[trigger] now[i],
            #[trigger] now[j],
        ) by {
            if i < at && j < at {
                assert(now[i] == had[i] && now[j] == had[j]);
            } else if i < at && j == at {
                assert(now[i] == had[i]);
            } else if i < at {
                assert(now[i] == had[i] && now[j] == had[j - 1]);
            } else if i == at {
                assert(now[j] == had[j - 1]);
                assert(precedes(had[at as int], new));
                crate::text::precedes_is_an_order(had[at as int], new, had[j - 1]);
                if j - 1 > at {
                    assert(!precedes(had[at as int], had[j - 1]));
                } else {
                    crate::text::precedes_is_an_order(new, had[at as int], new);
                }
            } else {
                assert(now[i] == had[i - 1] && now[j] == had[j - 1]);
            }
        }
    }
}

impl RadioDoc {
    /// The kept backups, newest first, out of the names in the backup
    /// directory. Filenames carry a unix-seconds stamp so a reverse sort orders
    /// them by age.
    pub fn backups(names: &Vec<String>) -> (r: Vec<String>)
        ensures
            descending(texts(r@)),
            texts(r@).to_multiset() == texts(names@).filter(
                |name: Seq<char>| is_backup(name),
            ).to_multiset(),
    {
        let ghost all = texts(names@);
        let ghost pred = |name: Seq<char>| is_backup(name);
        let mut r: Vec<String> = Vec::new();
        let mut i: usize = 0;
        proof {
            assert(texts(r@) =~= Seq::empty());
            assert(all.take(0).filter(pred) =~= Seq::empty());
        }
        while i < names.len()
            invariant
                all == texts(names@),
                pred == (|name: Seq<char>| is_backup(name)),
                i <= names@.len(),
                descending(texts(r@)),
                texts(r@).to_multiset() == all.take(i as int).filter(pred).to_multiset(),
            decreases names@.len() - i,
        {
            let name = names[i].as_str();
            let ghost before = all.take(i as int);
            proof {
                reveal(Seq::filter);
                assert(all.take(i + 1).drop_last() =~= before);
                assert(all.take(i + 1).last() == name@);
                before.filter(pred).to_multiset_ensures();
            }
            if ends_with(name, ".bak") && crate::text::chars_of(name).len() > 4 {
                insert_descending(&mut r, name.to_owned());
            }
            i = i + 1;
        }
        assert(all.take(all.len() as int) =~= all);
        r
    }
}

proof fn lemma_marks(a: nat, b: nat, tail: Seq<char>)
    requires
        a < b,
        tail.len() > 0,
        (tail[0] as int) < ('_' as int),
    ensures
        precedes(marks(a) + tail, marks(b) + tail),
    decreases a,
{
    let (x, y) = (marks(a) + tail, marks(b) + tail);
    if a == 0 {
        assert(x[0] == tail[0] && y[0] == '_');
    } else {
        lemma_marks((a - 1) as nat, (b - 1) as nat, tail);
        assert(x.drop_first() =~= marks((a - 1) as nat) + tail);
        assert(y.drop_first() =~= marks((b - 1) as nat) + tail);
        assert(x[0] == '_' && y[0] == '_');
    }
}

/// Backups of one file made later come first in the list: those of a later
/// second, as long as the stamps have equally many digits, and within a second
/// those with more marks.
pub proof fn later_backups_come_first(
    stem: Option<Seq<char>>,
    earlier: u64,
    n: nat,
    later: u64,
    m: nat,
)
    requires
        earlier < later || (earlier == later && n < m),
        decimal(earlier as nat).len() == decimal(later as nat).len(),
    ensures
        precedes(backup_name_of(stem, earlier, n), backup_name_of(stem, later, m)),
        is_backup(backup_name_of(stem, earlier, n)),
{
    let head = (match stem {
        Some(name) => name,
        None => "RADIO.toml"@,
    }) + "."@;
    let (a, b) = (decimal(earlier as nat), decimal(later as nat));
    let (x, y) = (marks(n) + ".bak"@, marks(m) + ".bak"@);
    reveal_strlit(".bak");
    reveal_strlit(".");
    if earlier < later {
        crate::text::order_of_decimals(earlier as nat, later as nat);
        crate::text::order_of_heads(a, b, x, y);
    } else {
        lemma_marks(n, m, ".bak"@);
        crate::text::order_of_tails(a, x, y);
    }
    crate::text::order_of_tails(head, a + x, b + y);
    assert(backup_name_of(stem, earlier, n) =~= head + (a + x));
    assert(backup_name_of(stem, later, m) =~= head + (b + y));
    let name = backup_name_of(stem, earlier, n);
    assert(name.skip(name.len() - 4) =~= ".bak"@);
}

/// Every version that a save overwrites is kept: a backup directory that lists
/// the taken names keeps each backup it had, and the new one besides.
pub proof fn every_version_is_kept(
    kept: Map<Seq<char>, Seq<char>>,
    taken: Seq<Seq<char>>,
    name: Seq<char>,
    stem: Option<Seq<char>>,
    stamp: u64,
    version: Seq<char>,
)
    requires
        forall|k: Seq<char>| #[trigger] kept.dom().contains(k) ==> taken.contains(k),
        first_free(name, stem, stamp, taken),
    ensures
        kept.insert(name, version)[name] == version,
        kept.submap_of(kept.insert(name, version)),
{
}

/// Rows keep their number, their places, their keys and the look of the keys.
pub open spec fn same_frame(before: Seq<Row>, after: Seq<Row>) -> bool {
    &&& before.len() == after.len()
    &&& forall|i: int|
        0 <= i < before.len() ==> (#[trigger] after[i]).key == before[i].key && after[i].look
            == before[i].look
}

proof fn lemma_overwritten(rows: Seq<Row>, key: Seq<char>, datum: Datum, other: Seq<char>)
    ensures
        ({
            let after = overwritten(rows, key, datum);
            &&& same_frame(rows, after)
            &&& find(after, other) == find(rows, other)
            &&& other != key ==> node_at(after, other) == node_at(rows, other)
            &&& match node_at(rows, key) {
                Some(node) => if is_value(node) {
                    node_at(after, key) == Some(Node::Scalar(datum, fresh(around_of(node))))
                } else {
                    after == rows
                },
                None => after == rows,
            }
        }),
{
    let after = overwritten(rows, key, datum);
    find_is_first(rows, key);
    find_is_first(rows, other);
    crate::document::same_keys_same_find(after, rows, key);
    crate::document::same_keys_same_find(after, rows, other);
}

/// Applying a value changes that value and nothing else: it reads back with the
/// text around it kept, every other value is what it was, spelling and all, and
/// rows keep their order and their comments. Where no value stands, nothing
/// changes.
pub proof fn apply_changes_one_value(
    rows: Seq<Row>,
    section: Seq<char>,
    key: Seq<char>,
    datum: Datum,
    other_section: Seq<char>,
    other_key: Seq<char>,
)
    ensures
        ({
            let after = applied(rows, section, key, datum);
            &&& same_frame(rows, after)
            &&& match value_at(rows, section, key) {
                Some(node) => shown_at(after, section, key) == Some(
                    Node::Scalar(datum, fresh(around_of(node))),
                ),
                None => after == rows,
            }
            &&& other_section != section || other_key != key ==> value_at(
                after,
                other_section,
                other_key,
            ) == value_at(rows, other_section, other_key)
        }),
{
    let after = applied(rows, section, key, datum);
    if section.len() == 0 {
        lemma_overwritten(rows, key, datum, other_key);
        lemma_overwritten(rows, key, datum, other_section);
        if other_section.len() == 0 {
            assert(other_section =~= section);
        }
    } else {
        find_is_first(rows, section);
        find_is_first(rows, other_section);
        find_is_first(rows, other_key);
        if find(rows, section) is Some {
            let i = find(rows, section)->0;
            match rows[i].node {
                Node::Section(header, inner) => {
                    lemma_overwritten(inner, key, datum, other_key);
                    lemma_overwritten(inner, key, datum, key);
                    crate::document::same_keys_same_find(after, rows, section);
                    crate::document::same_keys_same_find(after, rows, other_section);
                    crate::document::same_keys_same_find(after, rows, other_key);
                    if overwritten(inner, key, datum) == inner {
                        assert(after =~= rows);
                    }
                },
                _ => {},
            }
        }
    }
}

/// No `<key>_description` and no `<key>_type` is offered for editing.
pub proof fn metadata_is_never_a_field(rows: Seq<Row>, i: int)
    requires
        0 <= i < all_fields(rows).len(),
    ensures
        !is_meta(all_fields(rows)[i].key),
{
    let top = fields_in(Seq::empty(), rows);
    if i < top.len() {
        lemma_no_meta(Seq::empty(), rows, visible(rows), i);
    } else {
        lemma_no_meta_in_sections(visible(rows), i - top.len());
    }
}

proof fn lemma_no_meta(section: Seq<char>, rows: Seq<Row>, some: Seq<Row>, i: int)
    requires
        0 <= i < fields_among(section, rows, some).len(),
    ensures
        !is_meta(fields_among(section, rows, some)[i].key),
    decreases some.len(),
{
    if some.len() > 0 {
        let fewer = fields_among(section, rows, some.drop_last());
        if i < fewer.len() {
            lemma_no_meta(section, rows, some.drop_last(), i);
        }
    }
}

proof fn lemma_no_meta_in_sections(some: Seq<Row>, i: int)
    requires
        0 <= i < section_fields(some).len(),
    ensures
        !is_meta(section_fields(some)[i].key),
    decreases some.len(),
{
    if some.len() > 0 {
        let fewer = section_fields(some.drop_last());
        if i < fewer.len() {
            lemma_no_meta_in_sections(some.drop_last(), i);
        } else {
            let row = some.last();
            lemma_no_meta(
                row.key,
                row.node->Section_1,
                visible(row.node->Section_1),
                i - fewer.len(),
            );
        }
    }
}

} // verus!
