//! The Radio page's fields: which settings of a file are offered for editing, in
//! which order and as what.

use crate::document::{datum_of, node_at, parsed_document, visible, Datum, Node, Row};
use crate::radio::{
    all_fields, choices, fields_among, fields_in, kind_at, listed, parse_type_spec, section_fields,
    text_at, Field, FieldType, RadioDoc,
};
use crate::text::{has_prefix, has_suffix, spells, split, texts, trim, trimmed};
use vstd::prelude::*;

verus! {

/// A row holds a setting of its own: a value, under a key that is not for
/// describing another.
pub open spec fn is_setting(row: Row) -> bool {
    &&& row.node is Scalar || row.node is Inline
    &&& !has_suffix(row.key, "_type"@)
    &&& !has_suffix(row.key, "_description"@)
}

/// The rows of the table at a place of a document, or those of the document
/// itself.
pub open spec fn table_at(rows: Seq<Row>, table: Option<int>) -> Option<Seq<Row>> {
    match table {
        None => Some(rows),
        Some(s) => if 0 <= s < rows.len() {
            match rows[s].node {
                Node::Section(_, inner) => Some(inner),
                _ => None,
            }
        } else {
            None
        },
    }
}

/// A place of a document holds a setting.
pub open spec fn is_place(rows: Seq<Row>, table: Option<int>, i: int) -> bool {
    match table_at(rows, table) {
        Some(inner) => 0 <= i < inner.len() && is_setting(inner[i]),
        None => false,
    }
}

/// One place stands before another: values of the document itself come first,
/// then its tables in their order, and in a table its rows in theirs.
pub open spec fn comes_first(s: Option<int>, i: int, t: Option<int>, j: int) -> bool {
    match (s, t) {
        (None, None) => i < j,
        (None, Some(_)) => true,
        (Some(_), None) => false,
        (Some(a), Some(b)) => a < b || (a == b && i < j),
    }
}

/// A field is of the setting at a place: under the same section and key, with the
/// text that describes it.
pub open spec fn is_of_place(rows: Seq<Row>, table: Option<int>, i: int, field: Field) -> bool {
    match table_at(rows, table) {
        Some(inner) => {
            &&& field.key == inner[i].key
            &&& field.section == match table {
                Some(s) => rows[s].key,
                None => Seq::empty(),
            }
            &&& field.description == (match node_at(inner, inner[i].key + "_description"@) {
                Some(Node::Scalar(Datum::Text(text), _)) => Some(text),
                _ => None,
            })
            &&& field.ty == kind_at(inner, inner[i].key, datum_of(inner[i].node))
        },
        None => false,
    }
}

spec fn field_of(section: Seq<char>, rows: Seq<Row>, row: Row) -> Field {
    Field {
        section,
        key: row.key,
        ty: kind_at(rows, row.key, datum_of(row.node)),
        description: text_at(rows, row.key + "_description"@),
    }
}

spec fn nth(section: Seq<char>, rows: Seq<Row>, some: Seq<Row>, a: int) -> int {
    fields_among(section, rows, some.take(a)).len() as int
}

proof fn lemma_nth(section: Seq<char>, rows: Seq<Row>, some: Seq<Row>, a: int, b: int)
    requires
        0 <= a < b <= some.len(),
        is_setting(some[a]),
    ensures
        0 <= nth(section, rows, some, a) < nth(section, rows, some, b),
        nth(section, rows, some, b) <= fields_among(section, rows, some).len(),
        fields_among(section, rows, some)[nth(section, rows, some, a)] == field_of(
            section,
            rows,
            some[a],
        ),
    decreases some.len(),
{
    let all = fields_among(section, rows, some);
    let fewer = some.drop_last();
    let before = fields_among(section, rows, fewer);
    assert(some.take(some.len() as int) =~= some);
    if a < some.len() - 1 {
        if b == some.len() {
            lemma_nth(section, rows, fewer, a, b - 1);
            assert(fewer.take(b - 1) =~= fewer);
            assert(some.take(b) =~= some);
        } else {
            lemma_nth(section, rows, fewer, a, b);
            assert(fewer.take(b) =~= some.take(b));
        }
        assert(fewer[a] == some[a]);
        assert(fewer.take(a) =~= some.take(a));
        assert(all[nth(section, rows, some, a)] == before[nth(section, rows, some, a)]);
    } else {
        assert(some.take(a) =~= fewer);
        assert(some.take(b) =~= some);
    }
}

spec fn shown_nth(rows: Seq<Row>, a: int) -> int {
    visible(rows.take(a)).len() as int
}

proof fn lemma_visible_step(rows: Seq<Row>)
    requires
        rows.len() > 0,
    ensures
        visible(rows) == if rows.last().node is Nothing {
            visible(rows.drop_last())
        } else {
            visible(rows.drop_last()).push(rows.last())
        },
{
    reveal(Seq::filter);
}

proof fn lemma_shown(rows: Seq<Row>, a: int, b: int)
    requires
        0 <= a < b <= rows.len(),
        !(rows[a].node is Nothing),
    ensures
        0 <= shown_nth(rows, a) < shown_nth(rows, b) <= visible(rows).len(),
        visible(rows)[shown_nth(rows, a)] == rows[a],
    decreases rows.len(),
{
    let fewer = rows.drop_last();
    lemma_visible_step(rows);
    assert(rows.take(rows.len() as int) =~= rows);
    if a < rows.len() - 1 {
        if b == rows.len() {
            lemma_shown(fewer, a, b - 1);
            assert(fewer.take(b - 1) =~= fewer);
        } else {
            lemma_shown(fewer, a, b);
            assert(fewer.take(b) =~= rows.take(b));
        }
        assert(fewer[a] == rows[a]);
        assert(fewer.take(a) =~= rows.take(a));
    } else {
        assert(rows.take(a) =~= fewer);
    }
}

proof fn lemma_shown_row(rows: Seq<Row>, k: int) -> (a: int)
    requires
        0 <= k < visible(rows).len(),
    ensures
        0 <= a < rows.len(),
        visible(rows)[k] == rows[a],
        !(rows[a].node is Nothing),
    decreases rows.len(),
{
    if rows.len() == 0 {
        assert(visible(rows).len() == 0) by {
            reveal(Seq::filter);
        }
        0
    } else {
        lemma_visible_step(rows);
        let fewer = visible(rows.drop_last());
        if k < fewer.len() {
            lemma_shown_row(rows.drop_last(), k)
        } else {
            rows.len() - 1
        }
    }
}

proof fn lemma_setting_of(section: Seq<char>, rows: Seq<Row>, some: Seq<Row>, k: int) -> (a: int)
    requires
        0 <= k < fields_among(section, rows, some).len(),
    ensures
        0 <= a < some.len(),
        is_setting(some[a]),
        fields_among(section, rows, some)[k] == field_of(section, rows, some[a]),
    decreases some.len(),
{
    let before = fields_among(section, rows, some.drop_last());
    if k < before.len() {
        lemma_setting_of(section, rows, some.drop_last(), k)
    } else {
        some.len() - 1
    }
}

spec fn start(some: Seq<Row>, s: int) -> int {
    section_fields(some.take(s)).len() as int
}

proof fn lemma_section(some: Seq<Row>, s: int, t: int, k: int)
    requires
        0 <= s < t <= some.len(),
        some[s].node is Section,
        0 <= k < fields_in(some[s].key, some[s].node->Section_1).len(),
    ensures
        0 <= start(some, s) + k < start(some, t),
        start(some, t) <= section_fields(some).len(),
        section_fields(some)[start(some, s) + k] == fields_in(
            some[s].key,
            some[s].node->Section_1,
        )[k],
    decreases some.len(),
{
    let fewer = some.drop_last();
    assert(some.take(some.len() as int) =~= some);
    if s < some.len() - 1 {
        if t == some.len() {
            lemma_section(fewer, s, t - 1, k);
            assert(fewer.take(t - 1) =~= fewer);
        } else {
            lemma_section(fewer, s, t, k);
            assert(fewer.take(t) =~= some.take(t));
        }
        assert(fewer[s] == some[s]);
        assert(fewer.take(s) =~= some.take(s));
    } else {
        assert(some.take(s) =~= fewer);
    }
}

proof fn lemma_section_of(some: Seq<Row>, k: int) -> (r: (int, int))
    requires
        0 <= k < section_fields(some).len(),
    ensures
        0 <= r.0 < some.len(),
        some[r.0].node is Section,
        0 <= r.1 < fields_in(some[r.0].key, some[r.0].node->Section_1).len(),
        section_fields(some)[k] == fields_in(some[r.0].key, some[r.0].node->Section_1)[r.1],
    decreases some.len(),
{
    let before = section_fields(some.drop_last());
    if k < before.len() {
        lemma_section_of(some.drop_last(), k)
    } else {
        (some.len() - 1, k - before.len())
    }
}

/// Where the field of a place stands in the list.
spec fn spot(rows: Seq<Row>, table: Option<int>, i: int) -> int {
    match table {
        None => nth(Seq::empty(), rows, visible(rows), shown_nth(rows, i)),
        Some(s) => fields_in(Seq::empty(), rows).len() + start(
            visible(rows),
            shown_nth(rows, s),
        ) + nth(
            rows[s].key,
            rows[s].node->Section_1,
            visible(rows[s].node->Section_1),
            shown_nth(rows[s].node->Section_1, i),
        ),
    }
}

proof fn lemma_spot(rows: Seq<Row>, table: Option<int>, i: int)
    requires
        is_place(rows, table, i),
    ensures
        0 <= spot(rows, table, i) < all_fields(rows).len(),
        is_of_place(rows, table, i, all_fields(rows)[spot(rows, table, i)]),
        table is None ==> spot(rows, table, i) < fields_in(Seq::empty(), rows).len(),
        table is Some ==> spot(rows, table, i) >= fields_in(Seq::empty(), rows).len(),
{
    let inner = table_at(rows, table)->0;
    let some = visible(inner);
    lemma_shown(inner, i, inner.len() as int);
    let k = shown_nth(inner, i);
    match table {
        None => {
            lemma_nth(Seq::empty(), rows, some, k, some.len() as int);
        },
        Some(s) => {
            let key = rows[s].key;
            lemma_shown(rows, s, rows.len() as int);
            lemma_nth(key, inner, some, k, some.len() as int);
            lemma_section(
                visible(rows),
                shown_nth(rows, s),
                visible(rows).len() as int,
                nth(key, inner, some, k),
            );
        },
    }
}

/// Every setting of a file is offered for editing, as the setting that it is, and
/// before those that come after it in the file.
pub proof fn every_setting_is_a_field_in_its_order(
    path: &str,
    text: &str,
    r: Result<RadioDoc, String>,
    s: Option<int>,
    i: int,
    t: Option<int>,
    j: int,
)
    requires
        call_ensures(RadioDoc::from_text, (path, text), r),
        r is Ok,
        is_place((r->Ok_0).doc@.rows, s, i),
        is_place((r->Ok_0).doc@.rows, t, j),
        comes_first(s, i, t, j),
    ensures
        exists|m: int, n: int|
            0 <= m < n < (r->Ok_0).fields@.len() && #[trigger] is_of_place(
                (r->Ok_0).doc@.rows,
                s,
                i,
                (r->Ok_0).fields@[m]@,
            ) && #[trigger] is_of_place((r->Ok_0).doc@.rows, t, j, (r->Ok_0).fields@[n]@),
{
    let d = r->Ok_0;
    let rows = d.doc@.rows;
    let all = all_fields(rows);
    assert(listed(d.fields@) == all);
    lemma_spot(rows, s, i);
    lemma_spot(rows, t, j);
    let (m, n) = (spot(rows, s, i), spot(rows, t, j));
    assert(m < n) by {
        match (s, t) {
            (None, None) => {
                lemma_shown(rows, i, j);
                lemma_shown(rows, i, rows.len() as int);
                lemma_shown(rows, j, rows.len() as int);
                lemma_nth(
                    Seq::empty(),
                    rows,
                    visible(rows),
                    shown_nth(rows, i),
                    shown_nth(rows, j),
                );
            },
            (Some(a), Some(b)) => {
                let inner = rows[a].node->Section_1;
                lemma_shown(inner, i, inner.len() as int);
                if a == b {
                    lemma_shown(inner, i, j);
                    lemma_shown(inner, j, inner.len() as int);
                    lemma_nth(
                        rows[a].key,
                        inner,
                        visible(inner),
                        shown_nth(inner, i),
                        shown_nth(inner, j),
                    );
                } else {
                    lemma_shown(rows, a, b);
                    lemma_shown(rows, a, rows.len() as int);
                    lemma_shown(rows, b, rows.len() as int);
                    lemma_nth(
                        rows[a].key,
                        inner,
                        visible(inner),
                        shown_nth(inner, i),
                        visible(inner).len() as int,
                    );
                    lemma_section(
                        visible(rows),
                        shown_nth(rows, a),
                        shown_nth(rows, b),
                        nth(rows[a].key, inner, visible(inner), shown_nth(inner, i)),
                    );
                }
            },
            _ => {},
        }
    }
    assert(d.fields@[m]@ == all[m]);
    assert(d.fields@[n]@ == all[n]);
    assert(is_of_place(rows, s, i, d.fields@[m]@));
    assert(is_of_place(rows, t, j, d.fields@[n]@));
}

/// Every setting of a file is offered for editing, also the only one.
pub proof fn every_setting_is_a_field(
    path: &str,
    text: &str,
    r: Result<RadioDoc, String>,
    s: Option<int>,
    i: int,
)
    requires
        call_ensures(RadioDoc::from_text, (path, text), r),
        r is Ok,
        is_place((r->Ok_0).doc@.rows, s, i),
    ensures
        exists|m: int|
            0 <= m < (r->Ok_0).fields@.len() && #[trigger] is_of_place(
                (r->Ok_0).doc@.rows,
                s,
                i,
                (r->Ok_0).fields@[m]@,
            ),
{
    let d = r->Ok_0;
    let rows = d.doc@.rows;
    assert(listed(d.fields@) == all_fields(rows));
    lemma_spot(rows, s, i);
    let m = spot(rows, s, i);
    assert(d.fields@[m]@ == all_fields(rows)[m]);
}

/// Only settings of the file are offered for editing: each field is of a place
/// that holds one.
pub proof fn every_field_is_a_setting(
    path: &str,
    text: &str,
    r: Result<RadioDoc, String>,
    k: int,
)
    requires
        call_ensures(RadioDoc::from_text, (path, text), r),
        r is Ok,
        0 <= k < (r->Ok_0).fields@.len(),
    ensures
        exists|s: Option<int>, i: int|
            is_place((r->Ok_0).doc@.rows, s, i) && #[trigger] is_of_place(
                (r->Ok_0).doc@.rows,
                s,
                i,
                (r->Ok_0).fields@[k]@,
            ),
{
    let d = r->Ok_0;
    let rows = d.doc@.rows;
    let top = fields_in(Seq::empty(), rows);
    assert(listed(d.fields@) == all_fields(rows));
    assert(d.fields@[k]@ == all_fields(rows)[k]);
    if k < top.len() {
        let a = lemma_setting_of(Seq::empty(), rows, visible(rows), k);
        let i = lemma_shown_row(rows, a);
        assert(is_of_place(rows, None, i, d.fields@[k]@));
    } else {
        let (v, n) = lemma_section_of(visible(rows), k - top.len());
        let s = lemma_shown_row(rows, v);
        let inner = rows[s].node->Section_1;
        let a = lemma_setting_of(rows[s].key, inner, visible(inner), n);
        let i = lemma_shown_row(inner, a);
        assert(is_of_place(rows, Some(s), i, d.fields@[k]@));
    }
}

/// A field has the type that its `_type` key names, where that names one, and
/// otherwise the type of its value: a whole number, a float, a yes or no, or else
/// text.
pub proof fn a_field_has_its_named_type_or_its_values(
    inner: Seq<Row>,
    row: Row,
    named: Seq<char>,
    spelled: &str,
    ty: Option<FieldType>,
)
    requires
        call_ensures(parse_type_spec, (spelled,), ty),
        spelled@ == named,
    ensures
        ({
            let kind = kind_at(inner, row.key, datum_of(row.node));
            let text = match node_at(inner, row.key + "_type"@) {
                Some(Node::Scalar(Datum::Text(text), _)) => Some(text),
                _ => None,
            };
            &&& text == Some(named) && ty is Some ==> kind == (ty->0)@
            &&& text is None || (text == Some(named) && ty is None) ==> match datum_of(row.node) {
                Datum::Whole(_) => kind is Int,
                Datum::Real(_) => kind is Float,
                Datum::Flag(_) => kind is Bool,
                _ => kind is Str,
            }
        }),
{
}

/// A file that spells a document is that document, with nothing to save; one that
/// does not is refused with its name and the reason.
pub proof fn a_radio_file_is_its_document(path: &str, text: &str, r: Result<RadioDoc, String>)
    requires
        call_ensures(RadioDoc::from_text, (path, text), r),
    ensures
        parsed_document(text@) matches Ok(doc) ==> r is Ok && (r->Ok_0).doc@ == doc && (
        r->Ok_0).path@ == path@ && !(r->Ok_0).dirty,
        parsed_document(text@) matches Err(why) ==> r is Err && (r->Err_0)@ == path@ + ": "@ + why,
{
}

/// A restored backup is the document that it spells, still to be saved to the
/// file that the document had, with the fields that a file with that text has;
/// one that spells none changes nothing and is refused with its name.
pub proof fn a_restored_backup_is_its_document(
    doc: &mut RadioDoc,
    backup: &str,
    text: &str,
    r: Result<(), String>,
    path: &str,
    fresh: Result<RadioDoc, String>,
)
    requires
        call_ensures(RadioDoc::restore, (doc, backup, text), r),
        call_ensures(RadioDoc::from_text, (path, text), fresh),
    ensures
        r is Ok <==> fresh is Ok,
        r is Ok ==> final(doc).doc@ == (fresh->Ok_0).doc@ && listed(final(doc).fields@) == listed(
            (fresh->Ok_0).fields@,
        ) && final(doc).dirty,
        parsed_document(text@) matches Err(why) ==> *final(doc) == *old(doc) && (r->Err_0)@
            == backup@ + ": "@ + why,
        final(doc).path == old(doc).path,
{
}

/// Backups are kept beside the file: in its directory, or in the current one
/// where the path names none.
pub proof fn backups_are_kept_beside_the_file(parent: Option<&str>, r: String)
    requires
        call_ensures(RadioDoc::backup_base, (parent,), r),
    ensures
        parent is Some && (parent->0)@.len() > 0 ==> r@ == (parent->0)@,
        parent is None || (parent->0)@.len() == 0 ==> r@ == "."@,
{
}

spec fn option_nth(list: Seq<Seq<char>>, a: int) -> int {
    choices(list.take(a)).len() as int
}

proof fn lemma_options(list: Seq<Seq<char>>, a: int, b: int)
    requires
        0 <= a < b <= list.len(),
        trimmed(list[a]).len() > 0,
    ensures
        0 <= option_nth(list, a) < option_nth(list, b) <= choices(list).len(),
        choices(list)[option_nth(list, a)] == trimmed(list[a]),
    decreases list.len(),
{
    let fewer = list.drop_last();
    assert(list.take(list.len() as int) =~= list);
    if a < list.len() - 1 {
        if b == list.len() {
            lemma_options(fewer, a, b - 1);
            assert(fewer.take(b - 1) =~= fewer);
        } else {
            lemma_options(fewer, a, b);
            assert(fewer.take(b) =~= list.take(b));
        }
        assert(fewer[a] == list[a]);
        assert(fewer.take(a) =~= list.take(a));
    } else {
        assert(list.take(a) =~= fewer);
    }
}

proof fn lemma_option_of(list: Seq<Seq<char>>, k: int) -> (a: int)
    requires
        0 <= k < choices(list).len(),
    ensures
        0 <= a < list.len(),
        choices(list)[k] == trimmed(list[a]),
        trimmed(list[a]).len() > 0,
    decreases list.len(),
{
    if k < choices(list.drop_last()).len() {
        lemma_option_of(list.drop_last(), k)
    } else {
        list.len() - 1
    }
}

/// The options of a choice are what stands between the commas behind `enum:`,
/// without the blanks around each: every one that is not blank, in its order, and
/// nothing else. With none there is no choice.
pub proof fn options_stand_between_the_commas(
    spec_text: &str,
    word: String,
    rest: &str,
    list: Vec<String>,
    r: Option<FieldType>,
    a: int,
    b: int,
    k: int,
)
    requires
        call_ensures(parse_type_spec, (spec_text,), r),
        call_ensures(trim, (spec_text,), word),
        word@ == "enum:"@ + rest@,
        call_ensures(split, (rest, ','), list),
    ensures
        r is None || r->0 is Enum,
        0 <= a < list@.len() && trimmed(list@[a]@).len() > 0 ==> r is Some,
        r is Some ==> {
            let options = texts((r->0)->Enum_0@);
            &&& options.len() > 0
            &&& 0 <= k < options.len() ==> exists|i: int|
                0 <= i < list@.len() && trimmed((#[trigger] list@[i])@) == options[k]
                    && options[k].len() > 0
            &&& 0 <= a < list@.len() && trimmed(list@[a]@).len() > 0 ==> options.contains(
                trimmed(list@[a]@),
            )
            &&& 0 <= a < b < list@.len() && trimmed(list@[a]@).len() > 0 && trimmed(
                list@[b]@,
            ).len() > 0 ==> exists|m: int, n: int|
                0 <= m < n < options.len() && #[trigger] options[m] == trimmed(list@[a]@)
                    && #[trigger] options[n] == trimmed(list@[b]@)
        },
{
    let head = "enum:"@;
    let all = texts(list@);
    assert(word@.take(head.len() as int) =~= head);
    assert(word@.skip(head.len() as int) =~= rest@);
    let options = choices(all);
    if 0 <= a < list@.len() && trimmed(list@[a]@).len() > 0 {
        assert(all[a] == list@[a]@);
        lemma_options(all, a, all.len() as int);
        assert(options[option_nth(all, a)] == trimmed(all[a]));
        if a < b < list@.len() && trimmed(list@[b]@).len() > 0 {
            assert(all[b] == list@[b]@);
            lemma_options(all, a, b);
            lemma_options(all, b, all.len() as int);
            assert(options[option_nth(all, b)] == trimmed(all[b]));
        }
    }
    if r is Some && 0 <= k < options.len() {
        let i = lemma_option_of(all, k);
        assert(all[i] == list@[i]@);
    }
}

/// A type is named by these words, in any case and with blanks around them, and
/// by no other.
pub proof fn types_are_named_by_these_words(
    spec_text: &str,
    word: String,
    r: Option<FieldType>,
)
    requires
        call_ensures(parse_type_spec, (spec_text,), r),
        call_ensures(trim, (spec_text,), word),
        !has_prefix(word@, "enum:"@),
    ensures
        r is Some && r->0 is Int <==> spells(word@, "int"@) || spells(word@, "integer"@),
        r is Some && r->0 is Float <==> spells(word@, "float"@) || spells(word@, "double"@),
        r is Some && r->0 is Bool <==> spells(word@, "bool"@) || spells(word@, "boolean"@),
        r is Some && r->0 is Str <==> spells(word@, "string"@) || spells(word@, "str"@),
        !(r is Some && r->0 is Enum),
{
    reveal_strlit("int");
    reveal_strlit("integer");
    reveal_strlit("float");
    reveal_strlit("double");
    reveal_strlit("bool");
    reveal_strlit("boolean");
    reveal_strlit("string");
    reveal_strlit("str");
    let w = word@;
    if w.len() > 0 {
        let c = crate::text::folded(w[0]);
        assert(spells(w, "int"@) || spells(w, "integer"@) ==> c == 'i');
        assert(spells(w, "float"@) ==> c == 'f');
        assert(spells(w, "double"@) ==> c == 'd');
        assert(spells(w, "bool"@) || spells(w, "boolean"@) ==> c == 'b');
        assert(spells(w, "string"@) || spells(w, "str"@) ==> c == 's');
    }
}

} // verus!
