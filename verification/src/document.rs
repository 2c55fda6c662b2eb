//! TOML documents: what the `toml_edit` crate keeps of a file, as rows of keys
//! and nodes, and the editing steps the settings files are written with.
//!
//! A document is edited in place, so that everything the editor does not own
//! (comments, spacing, spelling, key order, unknown keys) stays as it was.

use crate::reals::whole_as_real;
use toml_edit::{Decor, DocumentMut, Item, Value};
use vstd::prelude::*;

verus! {

/// A parsed TOML document of `toml_edit`.
#[verifier::external_type_specification]
#[verifier::external_body]
pub struct ExDocumentMut(DocumentMut);

/// What stands behind a key in `toml_edit`: a value, a table, an array of
/// tables, or nothing.
#[verifier::external_type_specification]
#[verifier::external_body]
pub struct ExItem(Item);

/// A TOML value of `toml_edit`.
#[verifier::external_type_specification]
#[verifier::external_body]
pub struct ExValue(Value);

/// The text around a key or a value in `toml_edit`.
#[verifier::external_type_specification]
#[verifier::external_body]
pub struct ExDecor(Decor);

/// The text around a key or a value: white space and comments. `None` leaves
/// the choice to whoever writes the document out.
pub struct Around {
    pub prefix: Option<Seq<char>>,
    pub suffix: Option<Seq<char>>,
}

/// How a value stands in the file: the way it is spelled (`0x10`, `915_000`),
/// where that is not left to whoever writes the document out, and the text
/// around it.
pub struct Look {
    pub spelling: Option<Seq<char>>,
    pub around: Around,
}

/// How a key stands in the file: the way it is spelled, where that is not left
/// to whoever writes the document out, the text around it, and the text around
/// it between the dots of a dotted key.
pub struct KeyLook {
    pub spelling: Option<Seq<char>>,
    pub around: Around,
    pub dotted: Around,
}

/// How a table stands in the file: the text around its header, whether the
/// header is left out while the table holds no values, whether the table comes
/// from dotted keys, and its place among the headers.
pub struct Header {
    pub around: Around,
    pub implicit: bool,
    pub dotted: bool,
    pub position: Option<int>,
}

/// How an inline table stands in the file: the text around it, the text behind
/// its opening brace, whether it is left out while it is empty, and whether it
/// comes from dotted keys.
pub struct Braces {
    pub around: Around,
    pub preamble: Seq<char>,
    pub implicit: bool,
    pub dotted: bool,
}

/// The content of a TOML value.
pub enum Datum {
    /// A string.
    Text(Seq<char>),
    /// An integer.
    Whole(i64),
    /// A float, as its IEEE 754 bit pattern.
    Real(u64),
    /// A boolean.
    Flag(bool),
    /// A date, an array or an inline table, as it is written out, without the
    /// text around it.
    Other(Seq<char>),
}

/// What stands behind a key.
pub enum Node {
    /// A placeholder that the document does not show.
    Nothing,
    /// A value that is no inline table.
    Scalar(Datum, Look),
    /// An inline table.
    Inline(Braces, Seq<Row>),
    /// A table with a header, or one made of dotted keys.
    Section(Header, Seq<Row>),
    /// An array of tables.
    Sections(Seq<Node>),
}

/// One key of a table, how it stands in the file, and what stands behind it.
pub struct Row {
    pub key: Seq<char>,
    pub look: KeyLook,
    pub node: Node,
}

/// A document: its root table, and the text behind the last row.
pub struct Doc {
    pub header: Header,
    pub rows: Seq<Row>,
    pub trailing: Seq<char>,
}

/// What a `toml_edit` item holds.
pub uninterp spec fn item_node(item: Item) -> Node;

/// What a `toml_edit` value holds: a scalar or an inline table.
pub uninterp spec fn value_node(value: Value) -> Node;

/// The two texts of a `toml_edit` decor.
pub uninterp spec fn decor_around(decor: Decor) -> Around;

/// The root item of a `toml_edit` document.
pub uninterp spec fn document_root(document: DocumentMut) -> Node;

/// The text behind the last row of a `toml_edit` document.
pub uninterp spec fn document_trailing(document: DocumentMut) -> Seq<char>;

/// `<DocumentMut as Display>::fmt`, by name: the text that a document is written
/// out as.
pub uninterp spec fn document_text(doc: Doc) -> Seq<char>;

/// `<DocumentMut as FromStr>::from_str`, by name: the document that a text
/// spells, or the message that tells why it spells none.
pub uninterp spec fn parsed_document(text: Seq<char>) -> Result<Doc, Seq<char>>;

/// `<InlineTable as Display>::fmt`, by name: how an inline table is written out,
/// from the opening brace to the closing one.
pub uninterp spec fn inline_text(braces: Braces, rows: Seq<Row>) -> Seq<char>;

/// The `Display` form of an `f64`, by name, from the float's bit pattern.
pub uninterp spec fn real_text(bits: u64) -> Seq<char>;

/// The root of a document is a table.
pub open spec fn rooted(document: DocumentMut) -> bool {
    document_root(document) is Section
}

/// What a `toml_edit` document with a root table holds.
pub open spec fn document_doc(document: DocumentMut) -> Doc {
    Doc {
        header: document_root(document)->Section_0,
        rows: document_root(document)->Section_1,
        trailing: document_trailing(document),
    }
}

/// What a text is written out as after it was parsed and left alone.
pub open spec fn rewritten(text: Seq<char>) -> Seq<char> {
    document_text(parsed_document(text)->Ok_0)
}

/// No text of its own on either side.
pub open spec fn bare() -> Around {
    Around { prefix: None, suffix: None }
}

/// A space in front and nothing behind: how a value stands after `key =`.
pub open spec fn spaced() -> Around {
    Around { prefix: Some(seq![' ']), suffix: Some(Seq::empty()) }
}

/// The look of a value of the program's own, with this text around it.
pub open spec fn fresh(around: Around) -> Look {
    Look { spelling: None, around }
}

/// The look of a key of the program's own.
pub open spec fn fresh_key() -> KeyLook {
    KeyLook { spelling: None, around: bare(), dotted: bare() }
}

/// The look of a table of the program's own.
pub open spec fn fresh_header() -> Header {
    Header { around: bare(), implicit: false, dotted: false, position: None }
}

/// The look of an inline table of the program's own.
pub open spec fn fresh_braces() -> Braces {
    Braces { around: bare(), preamble: Seq::empty(), implicit: false, dotted: false }
}

/// The rows of a table, inline or not.
pub open spec fn rows_of(node: Node) -> Option<Seq<Row>> {
    match node {
        Node::Section(_, rows) => Some(rows),
        Node::Inline(_, rows) => Some(rows),
        _ => None,
    }
}

/// A table, inline or not, with other rows.
pub open spec fn with_rows(node: Node, rows: Seq<Row>) -> Node {
    match node {
        Node::Section(header, _) => Node::Section(header, rows),
        Node::Inline(braces, _) => Node::Inline(braces, rows),
        _ => node,
    }
}

/// A value: a scalar or an inline table.
pub open spec fn is_value(node: Node) -> bool {
    node is Scalar || node is Inline
}

/// The content of a value, an inline table taken as it is written out.
pub open spec fn datum_of(node: Node) -> Datum {
    match node {
        Node::Scalar(datum, _) => datum,
        Node::Inline(braces, rows) => Datum::Other(inline_text(braces, rows)),
        _ => Datum::Other(Seq::empty()),
    }
}

/// The text around a value.
pub open spec fn around_of(node: Node) -> Around {
    match node {
        Node::Scalar(_, look) => look.around,
        Node::Inline(braces, _) => braces.around,
        _ => bare(),
    }
}

/// A value with other text around it.
pub open spec fn with_around(node: Node, around: Around) -> Node {
    match node {
        Node::Scalar(datum, look) => Node::Scalar(datum, Look { around, ..look }),
        Node::Inline(braces, rows) => Node::Inline(Braces { around, ..braces }, rows),
        _ => node,
    }
}

/// The position of the first row with this key.
pub open spec fn find(rows: Seq<Row>, key: Seq<char>) -> Option<int>
    decreases rows.len(),
{
    if rows.len() == 0 {
        None
    } else if rows[0].key == key {
        Some(0)
    } else {
        match find(rows.drop_first(), key) {
            Some(i) => Some(i + 1),
            None => None,
        }
    }
}

/// What the document shows behind a key.
pub open spec fn node_at(rows: Seq<Row>, key: Seq<char>) -> Option<Node> {
    match find(rows, key) {
        Some(i) => if rows[i].node is Nothing {
            None
        } else {
            Some(rows[i].node)
        },
        None => None,
    }
}

/// The rows with another node behind the key at `i`.
pub open spec fn with_node(rows: Seq<Row>, i: int, node: Node) -> Seq<Row> {
    rows.update(i, Row { node, ..rows[i] })
}

/// No key occurs twice.
pub open spec fn distinct_keys(rows: Seq<Row>) -> bool {
    forall|i: int, j: int|
        0 <= i < j < rows.len() ==> (#[trigger] rows[i]).key != (#[trigger] rows[j]).key
}

/// The rows that the document shows.
pub open spec fn visible(rows: Seq<Row>) -> Seq<Row> {
    rows.filter(|row: Row| !(row.node is Nothing))
}

/// `keys` names the visible rows in file order, and no key occurs twice.
pub open spec fn names_rows(keys: Seq<String>, rows: Seq<Row>) -> bool {
    &&& distinct_keys(rows)
    &&& keys.len() == visible(rows).len()
    &&& forall|i: int| 0 <= i < keys.len() ==> (#[trigger] keys[i])@ == visible(rows)[i].key
}

/// Parses a TOML document with `<DocumentMut as FromStr>::from_str`. Whether
/// the text is a document, what the document holds and the message of the error
/// are each a function of the text alone. The root of a parsed document is a
/// table.
#[verifier::external_body]
pub(crate) fn parse_document(text: &str) -> (r: Result<DocumentMut, String>)
    ensures
        match r {
            Ok(document) => rooted(document) && parsed_document(text@) == Ok::<Doc, Seq<char>>(
                document_doc(document),
            ),
            Err(message) => parsed_document(text@) == Err::<Doc, Seq<char>>(message@),
        },
{
    text.parse::<DocumentMut>().map_err(|e| e.to_string())
}

/// A new document, from `DocumentMut::new`: an empty root table in the first
/// place, and nothing behind it.
#[verifier::external_body]
pub(crate) fn new_document() -> (r: DocumentMut)
    ensures
        document_root(r) == Node::Section(
            Header { position: Some(0), ..fresh_header() },
            Seq::empty(),
        ),
        document_trailing(r) == Seq::<char>::empty(),
{
    DocumentMut::new()
}

/// Writes a document out with `<DocumentMut as Display>::fmt`, which needs a
/// root table. The text is a function of what the document holds: rows with
/// their looks, headers and the text behind them. What parsing that text again
/// gives is left unsaid.
#[verifier::external_body]
pub(crate) fn render_document(document: &DocumentMut) -> (r: String)
    requires
        rooted(*document),
    ensures
        r@ == document_text(document_doc(*document)),
{
    document.to_string()
}

/// `DocumentMut::as_item` is the root item of the document.
pub assume_specification[ DocumentMut::as_item ](document: &DocumentMut) -> (r: &Item)
    ensures
        item_node(*r) == document_root(*document),
;

/// `DocumentMut::as_item_mut` gives the root item of the document for editing:
/// the document then holds what the item was made into, with the same text
/// behind it.
pub assume_specification[ DocumentMut::as_item_mut ](document: &mut DocumentMut) -> (r: &mut Item)
    ensures
        item_node(*r) == document_root(*old(document)),
        document_root(*final(document)) == item_node(*final(r)),
        document_trailing(*final(document)) == document_trailing(*old(document)),
;

/// `Item::is_table` tells whether an item is a table that is not inline.
pub assume_specification[ Item::is_table ](item: &Item) -> (r: bool)
    ensures
        r == (item_node(*item) is Section),
;

/// `Item::is_table_like` tells whether an item is a table, inline or not.
pub assume_specification[ Item::is_table_like ](item: &Item) -> (r: bool)
    ensures
        r == (rows_of(item_node(*item)) is Some),
;

/// The item behind a key, from `Item::get`: `None` where the item is no table or
/// does not show that key.
#[verifier::external_body]
pub(crate) fn child<'a>(item: &'a Item, key: &str) -> (r: Option<&'a Item>)
    ensures
        match rows_of(item_node(*item)) {
            Some(rows) => match r {
                Some(inner) => node_at(rows, key@) == Some(item_node(*inner)),
                None => node_at(rows, key@) is None,
            },
            None => r is None,
        },
{
    item.get(key)
}

/// The item behind a key for editing, from `Item::as_table_like_mut` and
/// `TableLike::get_mut`: the row keeps its key, its place and its look, and
/// holds what the item was made into. Where there is none, the item is no table
/// or does not show that key, and stays as it is.
#[verifier::external_body]
pub(crate) fn child_mut<'a>(item: &'a mut Item, key: &str) -> (r: Option<&'a mut Item>)
    ensures
        match r {
            Some(inner) => {
                let rows = rows_of(item_node(*old(item)))->0;
                let i = find(rows, key@)->0;
                &&& rows_of(item_node(*old(item))) is Some
                &&& find(rows, key@) is Some
                &&& item_node(*inner) == rows[i].node
                &&& item_node(*final(item)) == with_rows(
                    item_node(*old(item)),
                    with_node(rows, i, item_node(*final(inner))),
                )
            },
            None => {
                &&& *final(item) == *old(item)
                &&& rows_of(item_node(*old(item))) is Some ==> node_at(
                    rows_of(item_node(*old(item)))->0,
                    key@,
                ) is None
            },
        },
{
    item.as_table_like_mut().and_then(|table| table.get_mut(key))
}

/// The keys that a table which is not inline shows, from `Item::as_table` and
/// `Table::iter`: those of the visible rows, in file order, none of them twice.
#[verifier::external_body]
pub(crate) fn keys_of(item: &Item) -> (r: Vec<String>)
    requires
        item_node(*item) is Section,
    ensures
        names_rows(r@, item_node(*item)->Section_1),
{
    item.as_table().into_iter().flat_map(|t| t.iter()).map(|(key, _)| key.to_string()).collect()
}

/// A new empty table, from `Table::new`.
#[verifier::external_body]
pub(crate) fn empty_table() -> (r: Item)
    ensures
        item_node(r) == Node::Section(fresh_header(), Seq::empty()),
{
    Item::Table(toml_edit::Table::new())
}

/// A new empty inline table, from `InlineTable::new`.
#[verifier::external_body]
pub(crate) fn empty_inline() -> (r: Item)
    ensures
        item_node(r) == Node::Inline(fresh_braces(), Seq::empty()),
{
    Item::Value(Value::InlineTable(toml_edit::InlineTable::new()))
}

/// Finds or adds a row of a table with `Item::as_table_like_mut`,
/// `TableLike::entry` and `Entry::or_insert`: a key that is there already gives
/// the item behind it, and any other key is added at the end with `new` behind
/// it. `None` where the item is no table; it then stays as it is.
#[verifier::external_body]
pub(crate) fn entry_or<'a>(item: &'a mut Item, key: &str, new: Item) -> (r: Option<&'a mut Item>)
    ensures
        match rows_of(item_node(*old(item))) {
            Some(rows) => {
                &&& r is Some
                &&& match find(rows, key@) {
                    Some(i) => {
                        &&& item_node(*r->0) == rows[i].node
                        &&& item_node(*final(item)) == with_rows(
                            item_node(*old(item)),
                            with_node(rows, i, item_node(*final(r->0))),
                        )
                    },
                    None => {
                        &&& item_node(*r->0) == item_node(new)
                        &&& item_node(*final(item)) == with_rows(
                            item_node(*old(item)),
                            rows.push(
                                (Row {
                                    key: key@,
                                    look: fresh_key(),
                                    node: item_node(*final(r->0)),
                                }),
                            ),
                        )
                    },
                }
            },
            None => r is None && *final(item) == *old(item),
        },
{
    item.as_table_like_mut().map(|table| table.entry(key).or_insert(new))
}

/// `Item::or_insert` puts `new` in the place of nothing, and gives the item for
/// editing.
pub assume_specification[ Item::or_insert ](item: &mut Item, new: Item) -> (r: &mut Item)
    ensures
        item_node(*r) == if item_node(*old(item)) is Nothing {
            item_node(new)
        } else {
            item_node(*old(item))
        },
        item_node(*final(item)) == item_node(*final(r)),
;

/// Puts a value behind a key of a table with `Item::as_table_like_mut` and
/// `TableLike::insert`. A row with that key keeps its place and loses its look;
/// any other key is added at the end. An item that is no table stays as it is.
#[verifier::external_body]
pub(crate) fn insert_value(item: &mut Item, key: &str, value: Value)
    ensures
        match rows_of(item_node(*old(item))) {
            Some(rows) => item_node(*final(item)) == with_rows(
                item_node(*old(item)),
                ({
                    let row = Row { key: key@, look: fresh_key(), node: value_node(value) };
                    match find(rows, key@) {
                        Some(i) => rows.update(i, row),
                        None => rows.push(row),
                    }
                }),
            ),
            None => *final(item) == *old(item),
        },
{
    item.as_table_like_mut().map(|table| table.insert(key, Item::Value(value)));
}

/// `Item::as_value` is the value of an item that is one.
pub assume_specification[ Item::as_value ](item: &Item) -> (r: Option<&Value>)
    ensures
        match r {
            Some(value) => item_node(*item) == value_node(*value) && is_value(value_node(*value)),
            None => !is_value(item_node(*item)),
        },
;

/// Makes an item hold a value, as `Item::Value` does.
#[verifier::external_body]
pub(crate) fn put_value(item: &mut Item, value: Value)
    ensures
        item_node(*final(item)) == value_node(value),
{
    *item = Item::Value(value);
}

/// `Value::as_str` is the text of a string value.
pub assume_specification[ Value::as_str ](value: &Value) -> (r: Option<&str>)
    ensures
        match r {
            Some(text) => datum_of(value_node(*value)) == Datum::Text(text@),
            None => !(datum_of(value_node(*value)) is Text),
        },
;

/// `Value::as_integer` is the number of an integer value.
pub assume_specification[ Value::as_integer ](value: &Value) -> (r: Option<i64>)
    ensures
        match r {
            Some(n) => datum_of(value_node(*value)) == Datum::Whole(n),
            None => !(datum_of(value_node(*value)) is Whole),
        },
;

/// `Value::as_bool` is the truth of a boolean value.
pub assume_specification[ Value::as_bool ](value: &Value) -> (r: Option<bool>)
    ensures
        match r {
            Some(b) => datum_of(value_node(*value)) == Datum::Flag(b),
            None => !(datum_of(value_node(*value)) is Flag),
        },
;

/// The bit pattern of a float value, from `Value::as_float` and the number's
/// `to_bits`.
#[verifier::external_body]
pub(crate) fn real_bits(value: &Value) -> (r: Option<u64>)
    ensures
        match r {
            Some(bits) => datum_of(value_node(*value)) == Datum::Real(bits),
            None => !(datum_of(value_node(*value)) is Real),
        },
{
    value.as_float().map(|x| x.to_bits())
}

/// The number of a float value as text, from `Value::as_float` and the
/// `Display` form of the number. The text is a function of the bit pattern.
#[verifier::external_body]
pub(crate) fn real_display(value: &Value) -> (r: Option<String>)
    ensures
        match r {
            Some(text) => datum_of(value_node(*value)) is Real && text@ == real_text(
                datum_of(value_node(*value))->Real_0,
            ),
            None => !(datum_of(value_node(*value)) is Real),
        },
{
    value.as_float().map(|x| x.to_string())
}

/// A text as it is written out: without the carriage returns.
pub open spec fn put_down(text: Option<Seq<char>>) -> Seq<char> {
    match text {
        Some(text) => text.filter(|c: char| c != '\r'),
        None => Seq::empty(),
    }
}

/// A value written out with the text around it by `<Value as Display>::fmt`.
/// Stated for dates, arrays and inline tables only.
#[verifier::external_body]
pub(crate) fn value_display(value: &Value) -> (r: String)
    ensures
        value_node(*value) matches Node::Scalar(Datum::Other(body), look) ==> r@ == put_down(
            look.around.prefix,
        ) + body + put_down(look.around.suffix),
        value_node(*value) matches Node::Inline(braces, rows) ==> r@ == put_down(
            braces.around.prefix,
        ) + inline_text(braces, rows) + put_down(braces.around.suffix),
{
    value.to_string()
}

/// A new string value, from `Value::from`, with nothing around it.
#[verifier::external_body]
pub(crate) fn text_value(text: &str) -> (r: Value)
    ensures
        value_node(r) == Node::Scalar(Datum::Text(text@), fresh(bare())),
{
    Value::from(text)
}

/// A new integer value, from `Value::from`, with nothing around it.
#[verifier::external_body]
pub(crate) fn whole_value(n: i64) -> (r: Value)
    ensures
        value_node(r) == Node::Scalar(Datum::Whole(n), fresh(bare())),
{
    Value::from(n)
}

/// A new boolean value, from `Value::from`, with nothing around it.
#[verifier::external_body]
pub(crate) fn flag_value(b: bool) -> (r: Value)
    ensures
        value_node(r) == Node::Scalar(Datum::Flag(b), fresh(bare())),
{
    Value::from(b)
}

/// A new float value of a whole number, from `Formatted::new`, with nothing
/// around it. The number becomes a float as a cast makes it one: the nearest,
/// and of two equally near the one with the even pattern.
#[verifier::external_body]
pub(crate) fn whole_real(n: i64) -> (r: Value)
    ensures
        value_node(r) == Node::Scalar(Datum::Real(whole_as_real(n)), fresh(bare())),
{
    Value::Float(toml_edit::Formatted::new(n as _))
}

/// A new float value of the same number, from `Value::as_float` and
/// `Value::from`, with nothing around it and no spelling of its own. `None` for
/// a value that is no float.
#[verifier::external_body]
pub(crate) fn plain_real(value: &Value) -> (r: Option<Value>)
    ensures
        match r {
            Some(plain) => datum_of(value_node(*value)) is Real && value_node(plain)
                == Node::Scalar(datum_of(value_node(*value)), fresh(bare())),
            None => !(datum_of(value_node(*value)) is Real),
        },
{
    value.as_float().map(Value::from)
}

/// A copy of a value, from `<Value as Clone>::clone`.
#[verifier::external_body]
pub(crate) fn copy_value(value: &Value) -> (r: Value)
    ensures
        r == *value,
{
    value.clone()
}

/// A float value: a number, with no spelling of its own and nothing around it.
pub struct Real {
    value: Value,
}

impl Real {
    #[verifier::type_invariant]
    spec fn is_float(&self) -> bool {
        &&& value_node(self.value) matches Node::Scalar(datum, look)
        &&& datum is Real
        &&& look == fresh(bare())
    }

    /// The bit pattern of the number.
    pub closed spec fn bits(&self) -> u64 {
        datum_of(value_node(self.value))->Real_0
    }

    /// The number of a value that is a float.
    pub fn new(value: Value) -> (r: Option<Self>)
        ensures
            match r {
                Some(number) => datum_of(value_node(value)) == Datum::Real(number.bits()),
                None => !(datum_of(value_node(value)) is Real),
            },
    {
        Real::of(&value)
    }

    /// The number of a value that is a float.
    pub(crate) fn of(value: &Value) -> (r: Option<Self>)
        ensures
            match r {
                Some(number) => datum_of(value_node(*value)) == Datum::Real(number.bits()),
                None => !(datum_of(value_node(*value)) is Real),
            },
    {
        match plain_real(value) {
            Some(value) => Some(Real { value }),
            None => None,
        }
    }

    /// A whole number.
    pub fn whole(n: i64) -> (r: Self)
        ensures
            r.bits() == whole_as_real(n),
    {
        Real { value: whole_real(n) }
    }

    /// The bit pattern of the number.
    pub fn to_bits(&self) -> (r: u64)
        ensures
            r == self.bits(),
    {
        proof {
            use_type_invariant(self);
        }
        match real_bits(&self.value) {
            Some(bits) => bits,
            None => 0,
        }
    }

    /// The number as a value.
    pub fn value(&self) -> (r: Value)
        ensures
            value_node(r) == Node::Scalar(Datum::Real(self.bits()), fresh(bare())),
    {
        proof {
            use_type_invariant(self);
        }
        copy_value(&self.value)
    }
}

/// A document with a root table, which every parsed one has.
pub struct Document {
    inner: DocumentMut,
}

impl View for Document {
    type V = Doc;

    closed spec fn view(&self) -> Doc {
        document_doc(self.inner)
    }
}

impl Document {
    #[verifier::type_invariant]
    spec fn has_root(&self) -> bool {
        rooted(self.inner)
    }

    /// The document that a text spells, or why it spells none.
    pub fn parse(text: &str) -> (r: Result<Self, String>)
        ensures
            match r {
                Ok(document) => parsed_document(text@) == Ok::<Doc, Seq<char>>(document@)
                    && document_text(document@) == rewritten(text@),
                Err(why) => parsed_document(text@) == Err::<Doc, Seq<char>>(why@),
            },
    {
        match parse_document(text) {
            Ok(inner) => Ok(Document { inner }),
            Err(why) => Err(why),
        }
    }

    /// The document as the text of a file.
    pub fn to_text(&self) -> (r: String)
        ensures
            r@ == document_text(self@),
    {
        proof {
            use_type_invariant(self);
        }
        render_document(&self.inner)
    }

    /// The root table.
    pub(crate) fn root(&self) -> (r: &Item)
        ensures
            item_node(*r) == Node::Section(self@.header, self@.rows),
    {
        proof {
            use_type_invariant(self);
        }
        self.inner.as_item()
    }

    /// Takes the document out for editing, and leaves an empty one.
    pub(crate) fn take(&mut self) -> (r: DocumentMut)
        ensures
            rooted(r),
            document_doc(r) == old(self)@,
    {
        proof {
            use_type_invariant(&*self);
        }
        let mut inner = new_document();
        std::mem::swap(&mut inner, &mut self.inner);
        inner
    }

    /// A document that was edited.
    pub(crate) fn edited(inner: DocumentMut) -> (r: Self)
        requires
            rooted(inner),
        ensures
            r@ == document_doc(inner),
    {
        Document { inner }
    }
}

/// A copy of the text around a value, from `Value::decor`.
#[verifier::external_body]
pub(crate) fn decor_of(value: &Value) -> (r: Decor)
    ensures
        decor_around(r) == around_of(value_node(*value)),
{
    value.decor().clone()
}

/// A decor with these two texts, from `Decor::new`.
#[verifier::external_body]
pub(crate) fn new_decor(prefix: &str, suffix: &str) -> (r: Decor)
    ensures
        decor_around(r) == (Around { prefix: Some(prefix@), suffix: Some(suffix@) }),
{
    Decor::new(prefix, suffix)
}

/// Replaces the text around a value through `Value::decor_mut`; everything else
/// of the value stays.
#[verifier::external_body]
pub(crate) fn set_decor(value: &mut Value, decor: Decor)
    ensures
        value_node(*final(value)) == with_around(value_node(*old(value)), decor_around(decor)),
{
    *value.decor_mut() = decor;
}

/// `find` gives the first row with the key, if there is one.
pub proof fn find_is_first(rows: Seq<Row>, key: Seq<char>)
    ensures
        match find(rows, key) {
            Some(i) => {
                &&& 0 <= i < rows.len()
                &&& rows[i].key == key
                &&& forall|j: int| 0 <= j < i ==> (#[trigger] rows[j]).key != key
            },
            None => forall|j: int| 0 <= j < rows.len() ==> (#[trigger] rows[j]).key != key,
        },
    decreases rows.len(),
{
    if rows.len() > 0 && rows[0].key != key {
        let rest = rows.drop_first();
        find_is_first(rest, key);
        match find(rest, key) {
            Some(i) => {
                assert forall|j: int| 0 <= j < i + 1 implies (#[trigger] rows[j]).key != key by {
                    if j > 0 {
                        assert(rest[j - 1] == rows[j]);
                    }
                }
            },
            None => {
                assert forall|j: int| 0 <= j < rows.len() implies (#[trigger] rows[j]).key
                    != key by {
                    if j > 0 {
                        assert(rest[j - 1] == rows[j]);
                    }
                }
            },
        }
    }
}

/// Only the first row with a key is the one that `find` gives.
pub proof fn first_is_found(rows: Seq<Row>, key: Seq<char>, i: int)
    requires
        0 <= i < rows.len(),
        rows[i].key == key,
        forall|j: int| 0 <= j < i ==> (#[trigger] rows[j]).key != key,
    ensures
        find(rows, key) == Some(i),
{
    find_is_first(rows, key);
    match find(rows, key) {
        Some(k) => {
            if k < i {
                assert(rows[k].key != key);
            } else if i < k {
                assert(rows[i].key != key);
            }
        },
        None => {
            assert(rows[i].key != key);
        },
    }
}

/// A key that no row has is not found.
pub proof fn absent_is_not_found(rows: Seq<Row>, key: Seq<char>)
    requires
        forall|j: int| 0 <= j < rows.len() ==> (#[trigger] rows[j]).key != key,
    ensures
        find(rows, key) is None,
{
    find_is_first(rows, key);
}

/// Rows with the same keys in the same places are searched alike.
pub proof fn same_keys_same_find(a: Seq<Row>, b: Seq<Row>, key: Seq<char>)
    requires
        a.len() == b.len(),
        forall|j: int| 0 <= j < a.len() ==> (#[trigger] a[j]).key == b[j].key,
    ensures
        find(a, key) == find(b, key),
{
    find_is_first(a, key);
    find_is_first(b, key);
    match find(a, key) {
        Some(i) => {
            assert(a[i].key == b[i].key);
            assert forall|j: int| 0 <= j < i implies (#[trigger] b[j]).key != key by {
                assert(a[j].key == b[j].key);
            }
            first_is_found(b, key, i);
        },
        None => {
            assert forall|j: int| 0 <= j < b.len() implies (#[trigger] b[j]).key != key by {
                assert(a[j].key == b[j].key);
            }
            absent_is_not_found(b, key);
        },
    }
}

/// A row added at the end is found under a key that was not there, and moves no
/// other key.
pub proof fn find_after_push(rows: Seq<Row>, row: Row, key: Seq<char>)
    requires
        find(rows, row.key) is None,
    ensures
        find(rows.push(row), key) == if key == row.key {
            Some(rows.len() as int)
        } else {
            find(rows, key)
        },
{
    let more = rows.push(row);
    find_is_first(rows, key);
    find_is_first(rows, row.key);
    if key == row.key {
        assert forall|j: int| 0 <= j < rows.len() implies (#[trigger] more[j]).key != key by {
            assert(rows[j].key != row.key);
        }
        first_is_found(more, key, rows.len() as int);
    } else {
        match find(rows, key) {
            Some(i) => {
                assert forall|j: int| 0 <= j < i implies (#[trigger] more[j]).key != key by {
                    assert(rows[j].key != key);
                }
                first_is_found(more, key, i);
            },
            None => {
                assert forall|j: int| 0 <= j < more.len() implies (#[trigger] more[j]).key
                    != key by {
                    if j < rows.len() {
                        assert(rows[j].key != key);
                    }
                }
                absent_is_not_found(more, key);
            },
        }
    }
}

} // verus!
