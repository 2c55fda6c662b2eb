//! The radio settings: what is offered for editing, what the editor starts from,
//! what an edit changes, and what becomes of the versions on disk.

use crate::document::{
    around_of, datum_of, find, find_is_first, first_is_found, fresh, is_value, put_down, Datum, Doc,
    Header, Node, Row,
};
use crate::radio::{
    apply_changes_one_value, is_meta_key, listed, shown_at, EditVal, FieldType, RadioDoc,
    RadioField,
};
use crate::reals::whole_as_real;
use crate::text::{decimal, has_suffix, trim};
use vstd::prelude::*;

verus! {

/// The first row of a key is this one, and holds this node.
pub open spec fn stands(rows: Seq<Row>, i: int, key: Seq<char>, node: Node) -> bool {
    &&& 0 <= i < rows.len()
    &&& rows[i].key == key
    &&& rows[i].node == node
    &&& forall|j: int| 0 <= j < i ==> (#[trigger] rows[j]).key != key
}

/// A document holds a node under a key of one of its tables, or under a key of
/// its own where the section is empty.
pub open spec fn holds(doc: Doc, section: Seq<char>, key: Seq<char>, node: Node) -> bool {
    if section.len() == 0 {
        exists|i: int| stands(doc.rows, i, key, node)
    } else {
        exists|i: int, j: int, header: Header, inner: Seq<Row>|
            #[trigger] stands(doc.rows, i, section, Node::Section(header, inner))
                && #[trigger] stands(inner, j, key, node)
    }
}

/// The first field with this place is this one.
pub open spec fn is_field(
    fields: Seq<RadioField>,
    i: int,
    section: Seq<char>,
    key: Seq<char>,
) -> bool {
    &&& 0 <= i < fields.len()
    &&& fields[i].section@ == section
    &&& fields[i].key@ == key
    &&& forall|j: int|
        0 <= j < i ==> (#[trigger] fields[j]).section@ != section || fields[j].key@ != key
}

/// A value is of the kind of a field: text for a text or a choice, a whole
/// number, a float or a yes-or-no for the others.
pub open spec fn is_of(datum: Datum, ty: FieldType) -> bool {
    match ty {
        FieldType::Int => datum is Whole,
        FieldType::Float => datum is Real,
        FieldType::Bool => datum is Flag,
        FieldType::Str => datum is Text,
        FieldType::Enum(_) => datum is Text,
    }
}

/// What a document holds under a key is what it shows there.
pub proof fn lemma_holds(doc: Doc, section: Seq<char>, key: Seq<char>, node: Node)
    requires
        !(node is Nothing),
    ensures
        holds(doc, section, key, node) <==> shown_at(doc.rows, section, key) == Some(node),
{
    let rows = doc.rows;
    if holds(doc, section, key, node) {
        if section.len() == 0 {
            let i = choose|i: int| stands(rows, i, key, node);
            first_is_found(rows, key, i);
        } else {
            let (i, j, header, inner) = choose|i: int, j: int, header: Header, inner: Seq<Row>|
                #[trigger] stands(rows, i, section, Node::Section(header, inner))
                    && #[trigger] stands(inner, j, key, node);
            first_is_found(rows, section, i);
            first_is_found(inner, key, j);
        }
    }
    if shown_at(rows, section, key) == Some(node) {
        if section.len() == 0 {
            find_is_first(rows, key);
            assert(stands(rows, find(rows, key)->0, key, node));
        } else {
            find_is_first(rows, section);
            let i = find(rows, section)->0;
            match rows[i].node {
                Node::Section(header, inner) => {
                    find_is_first(inner, key);
                    assert(stands(rows, i, section, Node::Section(header, inner)));
                    assert(stands(inner, find(inner, key)->0, key, node));
                },
                _ => {},
            }
        }
    }
}

/// The first field with a place is the one that is looked up by it.
pub proof fn lemma_field(fields: Seq<RadioField>, i: int, section: Seq<char>, key: Seq<char>)
    requires
        is_field(fields, i, section, key),
    ensures
        crate::radio::field_named(listed(fields), section, key) == Some(fields[i]@),
    decreases i,
{
    let all = listed(fields);
    assert(all[0] == fields[0]@);
    if i > 0 {
        let rest = fields.drop_first();
        assert(listed(rest) =~= all.drop_first());
        assert forall|j: int| 0 <= j < i - 1 implies (#[trigger] rest[j]).section@ != section
            || rest[j].key@ != key by {
            assert(rest[j] == fields[j + 1]);
        }
        lemma_field(rest, i - 1, section, key);
        assert(fields[0].section@ != section || fields[0].key@ != key);
    }
}

/// The editor starts from the value that stands there, wherever that is of the
/// field's kind: the very text of a text or a choice, whichever choice it is, the
/// very number, the very yes or no.
pub proof fn the_editor_starts_from_the_value(
    doc: RadioDoc,
    section: &str,
    key: &str,
    r: EditVal,
    i: int,
    node: Node,
)
    requires
        call_ensures(RadioDoc::edit_val_at, (&doc, section, key), r),
        is_field(doc.fields@, i, section@, key@),
        holds(doc.doc@, section@, key@, node),
        is_value(node),
    ensures
        ({
            let (datum, ty) = (datum_of(node), doc.fields@[i].ty);
            &&& is_of(datum, ty) ==> r@ == datum
            &&& ty is Float && datum is Whole ==> r@ == Datum::Real(whole_as_real(datum->Whole_0))
            &&& !is_of(datum, ty) && !(ty is Float && datum is Whole) ==> r@ == match ty {
                FieldType::Int => Datum::Whole(0),
                FieldType::Float => Datum::Real(0),
                FieldType::Bool => Datum::Flag(false),
                _ => Datum::Text(Seq::empty()),
            }
            &&& is_of(r@, ty)
        }),
{
    lemma_holds(doc.doc@, section@, key@, node);
    lemma_field(doc.fields@, i, section@, key@);
}

/// Where no value of the field's kind stands the editor starts from the kind's
/// zero: nothing, zero or no.
pub proof fn the_editor_starts_from_zero_otherwise(
    doc: RadioDoc,
    section: &str,
    key: &str,
    r: EditVal,
    i: int,
)
    requires
        call_ensures(RadioDoc::edit_val_at, (&doc, section, key), r),
        is_field(doc.fields@, i, section@, key@),
        forall|node: Node|
            is_value(node) ==> !(#[trigger] holds(doc.doc@, section@, key@, node)),
    ensures
        doc.fields@[i].ty is Int ==> r@ == Datum::Whole(0),
        doc.fields@[i].ty is Float ==> r@ == Datum::Real(0),
        doc.fields@[i].ty is Bool ==> r@ == Datum::Flag(false),
        doc.fields@[i].ty is Str || doc.fields@[i].ty is Enum ==> r@ == Datum::Text(Seq::empty()),
{
    lemma_field(doc.fields@, i, section@, key@);
    match shown_at(doc.rows(), section@, key@) {
        Some(node) => {
            if is_value(node) {
                lemma_holds(doc.doc@, section@, key@, node);
                assert(holds(doc.doc@, section@, key@, node));
            }
        },
        None => {},
    }
}

/// What is applied stands in the document afterwards, at the place it was
/// applied to, with the text around it that was there before; no other value
/// says anything else, neither the fields nor the path change, and the document
/// has something to save.
pub proof fn an_applied_value_stands_there(
    doc: &mut RadioDoc,
    section: &str,
    key: &str,
    val: EditVal,
    node: Node,
    other_section: Seq<char>,
    other_key: Seq<char>,
    other: Node,
)
    requires
        call_ensures(RadioDoc::apply, (doc, section, key, &val), ()),
        holds(old(doc).doc@, section@, key@, node),
        is_value(node),
        is_value(other),
        other_section != section@ || other_key != key@,
    ensures
        holds(final(doc).doc@, section@, key@, Node::Scalar(val@, fresh(around_of(node)))),
        holds(old(doc).doc@, other_section, other_key, other) <==> holds(
            final(doc).doc@,
            other_section,
            other_key,
            other,
        ),
        final(doc).dirty,
        final(doc).fields == old(doc).fields,
        final(doc).path == old(doc).path,
        final(doc).doc@.trailing == old(doc).doc@.trailing,
        final(doc).doc@.header == old(doc).doc@.header,
        final(doc).doc@.rows.len() == old(doc).doc@.rows.len(),
        forall|i: int|
            0 <= i < old(doc).doc@.rows.len()
                ==> (#[trigger] final(doc).doc@.rows[i]).key == old(doc).doc@.rows[i].key,
{
    lemma_holds(old(doc).doc@, section@, key@, node);
    lemma_holds(
        final(doc).doc@,
        section@,
        key@,
        Node::Scalar(val@, fresh(around_of(node))),
    );
    lemma_holds(old(doc).doc@, other_section, other_key, other);
    lemma_holds(final(doc).doc@, other_section, other_key, other);
    apply_changes_one_value(old(doc).rows(), section@, key@, val@, other_section, other_key);
}

/// Where no value stands an edit changes nothing.
pub proof fn nothing_is_applied_to_nothing(
    doc: &mut RadioDoc,
    section: &str,
    key: &str,
    val: EditVal,
)
    requires
        call_ensures(RadioDoc::apply, (doc, section, key, &val), ()),
        forall|node: Node|
            is_value(node) ==> !(#[trigger] holds(old(doc).doc@, section@, key@, node)),
    ensures
        *final(doc) == *old(doc),
{
    match shown_at(old(doc).rows(), section@, key@) {
        Some(node) => {
            if is_value(node) {
                lemma_holds(old(doc).doc@, section@, key@, node);
                assert(holds(old(doc).doc@, section@, key@, node));
            }
        },
        None => {},
    }
}

/// Confirming an editor right away changes no value: the value that the editor
/// starts from, applied where it came from, leaves that value what it was.
pub proof fn an_untouched_edit_changes_no_value(
    doc: &mut RadioDoc,
    section: &str,
    key: &str,
    val: EditVal,
    i: int,
    node: Node,
)
    requires
        call_ensures(RadioDoc::edit_val_at, (&*doc, section, key), val),
        call_ensures(RadioDoc::apply, (doc, section, key, &val), ()),
        is_field(old(doc).fields@, i, section@, key@),
        holds(old(doc).doc@, section@, key@, node),
        node is Scalar,
        is_of(node->Scalar_0, old(doc).fields@[i].ty),
    ensures
        holds(
            final(doc).doc@,
            section@,
            key@,
            Node::Scalar(node->Scalar_0, fresh(node->Scalar_1.around)),
        ),
{
    the_editor_starts_from_the_value(*old(doc), section, key, val, i, node);
    an_applied_value_stands_there(doc, section, key, val, node, section@.push('x'), key@, node);
}

/// A value is shown as it is: a text without quotes, a whole number in decimal
/// digits, a yes or no as the file spells it, and a date or a list as it stands
/// there, without the blanks around it.
pub proof fn a_value_is_shown_as_it_is(
    doc: RadioDoc,
    section: &str,
    key: &str,
    r: String,
    node: Node,
    whole: &str,
    shown: String,
)
    requires
        call_ensures(RadioDoc::display_at, (&doc, section, key), r),
        call_ensures(trim, (whole,), shown),
        holds(doc.doc@, section@, key@, node),
        node is Scalar,
    ensures
        match node->Scalar_0 {
            Datum::Text(text) => r@ == text,
            Datum::Whole(n) => if n >= 0 {
                r@ == decimal(n as nat)
            } else {
                r@ == seq!['-'] + decimal((-n) as nat)
            },
            Datum::Real(bits) => r@ == crate::document::real_text(bits),
            Datum::Flag(b) => r@ == if b {
                "true"@
            } else {
                "false"@
            },
            Datum::Other(text) => {
                let around = node->Scalar_1.around;
                let (before, behind) = (put_down(around.prefix), put_down(around.suffix));
                whole@ == before + text + behind ==> r@ == shown@
            },
        },
{
    lemma_holds(doc.doc@, section@, key@, node);
}

/// Where nothing stands nothing is shown.
pub proof fn nothing_is_shown_of_nothing(doc: RadioDoc, section: &str, key: &str, r: String)
    requires
        call_ensures(RadioDoc::display_at, (&doc, section, key), r),
        forall|node: Node|
            is_value(node) ==> !(#[trigger] holds(doc.doc@, section@, key@, node)),
    ensures
        r@.len() == 0,
{
    match shown_at(doc.rows(), section@, key@) {
        Some(node) => {
            if is_value(node) {
                lemma_holds(doc.doc@, section@, key@, node);
                assert(holds(doc.doc@, section@, key@, node));
            }
        },
        None => {},
    }
}

/// A key is metadata of another key where it is that key with `_type` or
/// `_description` behind it.
pub proof fn metadata_is_named_for_its_key(key: &str, r: bool, stem: Seq<char>)
    requires
        call_ensures(is_meta_key, (key,), r),
    ensures
        key@ == stem + "_type"@ || key@ == stem + "_description"@ ==> r,
        r ==> exists|s: Seq<char>|
            #![trigger s + "_type"@]
            key@ == s + "_type"@ || key@ == s + "_description"@,
{
    let (a, b) = ("_type"@, "_description"@);
    if key@ == stem + a {
        assert(key@.skip(key@.len() - a.len()) =~= a);
    }
    if key@ == stem + b {
        assert(key@.skip(key@.len() - b.len()) =~= b);
    }
    if r {
        if has_suffix(key@, a) {
            let s = key@.take(key@.len() - a.len());
            assert(key@ =~= s + a);
        } else {
            let s = key@.take(key@.len() - b.len());
            assert(key@ =~= s + b);
            let t = s + a;
        }
    }
}

/// An editor for what is no field takes text: what stands there, where that is
/// text, and nothing otherwise.
pub proof fn without_a_field_the_editor_takes_text(
    doc: RadioDoc,
    section: &str,
    key: &str,
    r: EditVal,
    node: Node,
)
    requires
        call_ensures(RadioDoc::edit_val_at, (&doc, section, key), r),
        forall|i: int| !(#[trigger] is_field(doc.fields@, i, section@, key@)),
        holds(doc.doc@, section@, key@, node),
        is_value(node),
    ensures
        datum_of(node) is Text ==> r@ == datum_of(node),
        !(datum_of(node) is Text) ==> r@ == Datum::Text(Seq::empty()),
{
    lemma_holds(doc.doc@, section@, key@, node);
    lemma_no_field(doc.fields@, section@, key@);
}

proof fn lemma_no_field(fields: Seq<RadioField>, section: Seq<char>, key: Seq<char>)
    requires
        forall|i: int| !(#[trigger] is_field(fields, i, section, key)),
    ensures
        crate::radio::field_named(listed(fields), section, key) is None,
    decreases fields.len(),
{
    let all = listed(fields);
    if fields.len() > 0 {
        let rest = fields.drop_first();
        assert(all[0] == fields[0]@);
        assert(listed(rest) =~= all.drop_first());
        assert(!is_field(fields, 0, section, key));
        assert forall|i: int| !(#[trigger] is_field(rest, i, section, key)) by {
            if is_field(rest, i, section, key) {
                assert forall|j: int| 0 <= j < i + 1 implies (#[trigger] fields[j]).section@
                    != section || fields[j].key@ != key by {
                    if j > 0 {
                        assert(rest[j - 1] == fields[j]);
                    }
                }
                assert(rest[i] == fields[i + 1]);
                assert(is_field(fields, i + 1, section, key));
            }
        }
        lemma_no_field(rest, section, key);
    }
}

} // verus!
