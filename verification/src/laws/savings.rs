//! The settings file: what a save writes, and what stands in it afterwards.

use crate::config::{hex, AppConfig};
use crate::document::{
    datum_of, document_text, fresh, node_at, parsed_document, rows_of, value_node, Around, Datum,
    Doc, Look, Node, Real, Row,
};
use crate::names::{ascending, normal_mac, NameTable};
use crate::reals::narrow;
use crate::settings_file::{entries, inner_rows, saved_rows, Reals, SavedFile};
use crate::settings_laws::{
    around_shown, extends, kept_names_keep_what_stands_around_them, key_shown, lists, name_shown,
    names_have_room, names_shown, saved_names_are_the_names, saved_settings_read_back, shown,
    the_rest_survives, value_shown,
};
use crate::settings_reading::{all_told, are_words, found, tell, the_generated_file_says_it_all};
use crate::settings_text::{RealTexts, Word};
use toml_edit::Value;
use vstd::prelude::*;

verus! {

/// A place of a table is open for a table: nothing is shown there, or a table is.
pub open spec fn is_open(rows: Seq<Row>, name: Seq<char>) -> bool {
    node_at(rows, name) matches Some(node) ==> rows_of(node) is Some
}

/// A key is one of the application's own.
pub open spec fn is_own(section: Seq<char>, key: Seq<char>) -> bool {
    ||| section == "colors"@ && (key == "track"@ || key == "fixed"@)
    ||| section == "sizes"@ && (key == "marker"@ || key == "beacon"@ || key == "track"@ || key
        == "distance_line"@ || key == "distance_text"@)
    ||| section == "distance"@ && (key == "show"@ || key == "units"@ || key == "dotted"@)
    ||| section == "ble"@ && (key == "enabled"@ || key == "show_path"@ || key == "mac"@ || key
        == "names"@)
    ||| section == "track"@ && key == "min_distance"@
}

/// Every setting stands in a document under its section and its key, where that
/// has room for it.
pub open spec fn has_every_setting(
    before: Seq<Row>,
    rows: Seq<Row>,
    c: AppConfig,
    reals: Reals,
    track: Seq<char>,
    fixed: Seq<char>,
) -> bool {
    &&& is_open(before, "colors"@) ==> {
        &&& value_shown(rows, "colors"@, "track"@) == Some(Datum::Text(track))
        &&& value_shown(rows, "colors"@, "fixed"@) == Some(Datum::Text(fixed))
    }
    &&& is_open(before, "sizes"@) ==> {
        &&& value_shown(rows, "sizes"@, "marker"@) == Some(Datum::Real(reals.marker.bits()))
        &&& value_shown(rows, "sizes"@, "beacon"@) == Some(Datum::Real(reals.beacon.bits()))
        &&& value_shown(rows, "sizes"@, "track"@) == Some(Datum::Real(reals.track.bits()))
        &&& value_shown(rows, "sizes"@, "distance_line"@) == Some(
            Datum::Real(reals.distance_line.bits()),
        )
        &&& value_shown(rows, "sizes"@, "distance_text"@) == Some(
            Datum::Real(reals.distance_text.bits()),
        )
    }
    &&& is_open(before, "distance"@) ==> {
        &&& value_shown(rows, "distance"@, "show"@) == Some(Datum::Flag(c.distance.show))
        &&& value_shown(rows, "distance"@, "units"@) == Some(
            Datum::Text(
                match c.distance.units {
                    crate::config::DistanceUnits::Metric => "metric"@,
                    crate::config::DistanceUnits::Imperial => "imperial"@,
                },
            ),
        )
        &&& value_shown(rows, "distance"@, "dotted"@) == Some(Datum::Flag(c.distance.dotted))
    }
    &&& is_open(before, "ble"@) ==> {
        &&& value_shown(rows, "ble"@, "enabled"@) == Some(Datum::Flag(c.ble.enabled))
        &&& value_shown(rows, "ble"@, "show_path"@) == Some(Datum::Flag(c.ble.show_path))
        &&& value_shown(rows, "ble"@, "mac"@) == Some(
            Datum::Text(
                match c.ble.mac {
                    Some(mac) => mac@,
                    None => Seq::empty(),
                },
            ),
        )
    }
    &&& is_open(before, "track"@) ==> value_shown(rows, "track"@, "min_distance"@) == Some(
        Datum::Real(reals.min_distance.bits()),
    )
}

proof fn lemma_open(rows: Seq<Row>, name: Seq<char>)
    ensures
        is_open(rows, name) <==> inner_rows(rows, name) is Some,
{
}

proof fn lemma_own(c: AppConfig, reals: Reals, section: Seq<char>, key: Seq<char>)
    requires
        !is_own(section, key),
    ensures
        !lists(entries(c, reals), section, key),
{
    let list = entries(c, reals);
    if lists(list, section, key) {
        let i = choose|i: int|
            0 <= i < list.len() && (#[trigger] list[i]).section == section && list[i].key == key;
        assert(list.len() == 14);
    }
}

/// A save to a file edits that file: it writes out the file's own document with
/// every setting in it under its section and key, and everything else as it was. A
/// file that spells no document is refused with its name and the reason, and where
/// there is none yet a complete one is made.
pub proof fn a_save_edits_the_file_in_place(
    c: AppConfig,
    path: &str,
    existing: Option<&str>,
    reals: Reals,
    texts: RealTexts,
    r: Result<SavedFile, String>,
    track: String,
    fixed: String,
    whole: String,
    section: Seq<char>,
    key: Seq<char>,
)
    requires
        call_ensures(AppConfig::save, (&c, path, existing, &reals, &texts), r),
        call_ensures(hex, (c.colors.track,), track),
        call_ensures(hex, (c.colors.fixed,), fixed),
        call_ensures(AppConfig::to_toml, (&c, &texts), whole),
    ensures
        existing is None ==> r is Ok && (r->Ok_0).created && (r->Ok_0).text@ == whole@,
        existing matches Some(text) ==> {
            &&& parsed_document(text@) matches Err(why) ==> r is Err && (r->Err_0)@ == path@
                + ": "@ + why
            &&& parsed_document(text@) matches Ok(doc) ==> {
                &&& r is Ok
                &&& !(r->Ok_0).created
                &&& exists|rows: Seq<Row>|
                    {
                        &&& (r->Ok_0).text@ == #[trigger] document_text(Doc { rows, ..doc })
                        &&& has_every_setting(doc.rows, rows, c, reals, track@, fixed@)
                        &&& !is_own(section, key) ==> shown(rows, section, key) == shown(
                            doc.rows,
                            section,
                            key,
                        )
                        &&& extends(doc.rows, rows)
                    }
            }
        },
{
    if existing is Some && parsed_document((existing->0)@) is Ok {
        let doc = parsed_document((existing->0)@)->Ok_0;
        let rows = saved_rows(doc.rows, c, reals);
        lemma_open(doc.rows, "colors"@);
        lemma_open(doc.rows, "sizes"@);
        lemma_open(doc.rows, "distance"@);
        lemma_open(doc.rows, "ble"@);
        lemma_open(doc.rows, "track"@);
        if is_open(doc.rows, "colors"@) {
            saved_settings_read_back(doc.rows, c, reals, 0);
            saved_settings_read_back(doc.rows, c, reals, 1);
        }
        if is_open(doc.rows, "sizes"@) {
            saved_settings_read_back(doc.rows, c, reals, 2);
            saved_settings_read_back(doc.rows, c, reals, 3);
            saved_settings_read_back(doc.rows, c, reals, 4);
            saved_settings_read_back(doc.rows, c, reals, 5);
            saved_settings_read_back(doc.rows, c, reals, 6);
        }
        if is_open(doc.rows, "distance"@) {
            saved_settings_read_back(doc.rows, c, reals, 7);
            saved_settings_read_back(doc.rows, c, reals, 8);
            saved_settings_read_back(doc.rows, c, reals, 9);
        }
        if is_open(doc.rows, "ble"@) {
            saved_settings_read_back(doc.rows, c, reals, 10);
            saved_settings_read_back(doc.rows, c, reals, 11);
            saved_settings_read_back(doc.rows, c, reals, 12);
        }
        if is_open(doc.rows, "track"@) {
            saved_settings_read_back(doc.rows, c, reals, 13);
        }
        lemma_foreign();
        lemma_own(c, reals, ""@, ""@);
        the_rest_survives(doc.rows, c, reals, ""@, ""@);
        if !is_own(section, key) {
            lemma_own(c, reals, section, key);
            the_rest_survives(doc.rows, c, reals, section, key);
        }
        assert((r->Ok_0).text@ == document_text(Doc { rows, ..doc }));
    }
}

proof fn lemma_foreign()
    ensures
        !is_own(""@, ""@),
        ""@ != "ble"@,
{
    reveal_strlit("");
    reveal_strlit("colors");
    reveal_strlit("sizes");
    reveal_strlit("distance");
    reveal_strlit("ble");
    reveal_strlit("track");
    assert(""@.len() == 0);
    assert("colors"@.len() == 6 && "sizes"@.len() == 5 && "distance"@.len() == 8);
    assert("ble"@.len() == 3 && "track"@.len() == 5);
}

/// A value that stood in the file keeps the text around it, a comment behind it
/// among that.
pub proof fn saved_values_keep_what_stands_around_them(
    c: AppConfig,
    path: &str,
    text: &str,
    reals: Reals,
    texts: RealTexts,
    r: Result<SavedFile, String>,
    doc: Doc,
    section: Seq<char>,
    key: Seq<char>,
)
    requires
        call_ensures(AppConfig::save, (&c, path, Some(text), &reals, &texts), r),
        parsed_document(text@) == Ok::<Doc, Seq<char>>(doc),
        section != "ble"@ || key != "names"@,
        around_shown(doc.rows, section, key) is Some,
    ensures
        exists|rows: Seq<Row>|
            (r->Ok_0).text@ == #[trigger] document_text(Doc { rows, ..doc }) && around_shown(
                rows,
                section,
                key,
            ) == around_shown(doc.rows, section, key),
{
    let rows = saved_rows(doc.rows, c, reals);
    let list = entries(c, reals);
    if lists(list, section, key) {
        let i = choose|i: int|
            0 <= i < list.len() && (#[trigger] list[i]).section == section && list[i].key == key;
        lemma_open(doc.rows, section);
        saved_settings_read_back(doc.rows, c, reals, i);
    } else {
        the_rest_survives(doc.rows, c, reals, section, key);
    }
    assert((r->Ok_0).text@ == document_text(Doc { rows, ..doc }));
}

/// After a save the nickname table of a file holds every nickname under its key,
/// and no other key, so that a forgotten board is forgotten.
pub proof fn saved_names_are_all_the_names(
    c: AppConfig,
    path: &str,
    text: &str,
    reals: Reals,
    texts: RealTexts,
    r: Result<SavedFile, String>,
    doc: Doc,
    key: Seq<char>,
    count: usize,
)
    requires
        call_ensures(AppConfig::save, (&c, path, Some(text), &reals, &texts), r),
        call_ensures(NameTable::len, (&c.ble.names,), count),
        parsed_document(text@) == Ok::<Doc, Seq<char>>(doc),
        names_have_room(doc.rows),
    ensures
        exists|rows: Seq<Row>|
            {
                &&& (r->Ok_0).text@ == #[trigger] document_text(Doc { rows, ..doc })
                &&& c.ble.names@.dom().contains(key) ==> name_shown(rows, key) == Some(
                    c.ble.names@[key],
                )
                &&& !c.ble.names@.dom().contains(key) ==> !key_shown(rows, key)
            },
{
    let rows = saved_rows(doc.rows, c, reals);
    saved_names_are_the_names(doc.rows, c, reals, key);
    assert((r->Ok_0).text@ == document_text(Doc { rows, ..doc }));
}

/// A setting that the file did not have stands in it with a space in front of its
/// value and nothing behind it.
pub proof fn new_values_stand_behind_a_space(
    c: AppConfig,
    path: &str,
    text: &str,
    reals: Reals,
    texts: RealTexts,
    r: Result<SavedFile, String>,
    doc: Doc,
    section: Seq<char>,
    key: Seq<char>,
)
    requires
        call_ensures(AppConfig::save, (&c, path, Some(text), &reals, &texts), r),
        parsed_document(text@) == Ok::<Doc, Seq<char>>(doc),
        is_own(section, key),
        section != "ble"@ || key != "names"@,
        is_open(doc.rows, section),
        around_shown(doc.rows, section, key) is None,
    ensures
        exists|rows: Seq<Row>|
            (r->Ok_0).text@ == #[trigger] document_text(Doc { rows, ..doc }) && around_shown(
                rows,
                section,
                key,
            ) == Some(Around { prefix: Some(seq![' ']), suffix: Some(Seq::empty()) }),
{
    let rows = saved_rows(doc.rows, c, reals);
    let list = entries(c, reals);
    assert(lists(list, section, key)) by {
        assert(list[0].key == "track"@ && list[1].key == "fixed"@ && list[2].key == "marker"@);
        assert(list[3].key == "beacon"@ && list[4].key == "track"@);
        assert(list[5].key == "distance_line"@ && list[6].key == "distance_text"@);
        assert(list[7].key == "show"@ && list[8].key == "units"@ && list[9].key == "dotted"@);
        assert(list[10].key == "enabled"@ && list[11].key == "show_path"@);
        assert(list[12].key == "mac"@ && list[13].key == "min_distance"@);
    }
    let i = choose|i: int|
        0 <= i < list.len() && (#[trigger] list[i]).section == section && list[i].key == key;
    lemma_open(doc.rows, section);
    saved_settings_read_back(doc.rows, c, reals, i);
    assert((r->Ok_0).text@ == document_text(Doc { rows, ..doc }));
}

/// A nickname line that was in the file and stays keeps the text around its name.
pub proof fn saved_names_keep_what_stands_around_them(
    c: AppConfig,
    path: &str,
    text: &str,
    reals: Reals,
    texts: RealTexts,
    r: Result<SavedFile, String>,
    doc: Doc,
    key: Seq<char>,
    name: Datum,
    look: Look,
    count: usize,
)
    requires
        call_ensures(AppConfig::save, (&c, path, Some(text), &reals, &texts), r),
        call_ensures(NameTable::len, (&c.ble.names,), count),
        parsed_document(text@) == Ok::<Doc, Seq<char>>(doc),
        c.ble.names@.dom().contains(key),
        normal_mac(key) == key,
        names_shown(doc.rows) is Some,
        node_at(names_shown(doc.rows)->0, key) == Some(Node::Scalar(name, look)),
    ensures
        exists|rows: Seq<Row>|
            {
                &&& (r->Ok_0).text@ == #[trigger] document_text(Doc { rows, ..doc })
                &&& names_shown(rows) is Some
                &&& node_at(names_shown(rows)->0, key) == Some(
                    Node::Scalar(Datum::Text(c.ble.names@[key]), fresh(look.around)),
                )
            },
{
    let rows = saved_rows(doc.rows, c, reals);
    kept_names_keep_what_stands_around_them(doc.rows, c, reals, key, name, look);
    assert((r->Ok_0).text@ == document_text(Doc { rows, ..doc }));
}

/// A generated file holds every setting under its section and its key, each
/// nickname under its address, and nothing else; an unpinned device has an empty
/// address.
pub proof fn a_generated_file_holds_every_setting(
    c: AppConfig,
    texts: RealTexts,
    r: String,
    track: String,
    fixed: String,
    i: int,
)
    requires
        call_ensures(AppConfig::to_toml, (&c, &texts), r),
        call_ensures(hex, (c.colors.track,), track),
        call_ensures(hex, (c.colors.fixed,), fixed),
        are_words(texts),
    ensures
        ({
            let list = found(r@);
            let names = c.ble.names.pairs();
            let yes_or_no = |b: bool|
                if b {
                    Word::Bare("true"@)
                } else {
                    Word::Bare("false"@)
                };
            &&& list.len() == 14 + names.len()
            &&& list[0] == tell("colors"@, "track"@, Word::Text(track@))
            &&& list[1] == tell("colors"@, "fixed"@, Word::Text(fixed@))
            &&& list[2] == tell("sizes"@, "marker"@, Word::Bare(texts.marker@))
            &&& list[3] == tell("sizes"@, "beacon"@, Word::Bare(texts.beacon@))
            &&& list[4] == tell("sizes"@, "track"@, Word::Bare(texts.track@))
            &&& list[5] == tell("sizes"@, "distance_line"@, Word::Bare(texts.distance_line@))
            &&& list[6] == tell("sizes"@, "distance_text"@, Word::Bare(texts.distance_text@))
            &&& list[7] == tell("distance"@, "show"@, yes_or_no(c.distance.show))
            &&& list[8] == tell(
                "distance"@,
                "units"@,
                Word::Text(
                    match c.distance.units {
                        crate::config::DistanceUnits::Metric => "metric"@,
                        crate::config::DistanceUnits::Imperial => "imperial"@,
                    },
                ),
            )
            &&& list[9] == tell("distance"@, "dotted"@, yes_or_no(c.distance.dotted))
            &&& list[10] == tell("ble"@, "enabled"@, yes_or_no(c.ble.enabled))
            &&& list[11] == tell("ble"@, "show_path"@, yes_or_no(c.ble.show_path))
            &&& c.ble.mac is Some ==> list[12] == tell("ble"@, "mac"@, Word::Text(c.ble.mac->0@))
            &&& c.ble.mac is None ==> list[12] == tell("ble"@, "mac"@, Word::Text(Seq::empty()))
            &&& 0 <= i < names.len() ==> list[13 + i] == tell(
                "ble.names"@,
                names[i].0,
                Word::Text(names[i].1),
            )
            &&& list.last() == tell("track"@, "min_distance"@, Word::Bare(texts.min_distance@))
        }),
{
    the_generated_file_says_it_all(c, texts);
    let names = c.ble.names.pairs();
    let above = crate::settings_reading::told_above(c, texts);
    let all = all_told(c, texts);
    assert(above.len() == 13);
    assert(all == (above + crate::settings_reading::names_told(names)).push(
        tell("track"@, "min_distance"@, Word::Bare(texts.min_distance@)),
    ));
}

/// The float values fit the settings where each narrows to its size, and the
/// distance is the distance.
pub proof fn float_values_fit_their_settings(
    reals: Reals,
    c: AppConfig,
    r: bool,
    bits: u64,
    narrowed: u32,
)
    requires
        call_ensures(Reals::fits, (&reals, &c), r),
        call_ensures(narrow, (bits,), narrowed),
        r,
    ensures
        reals.marker.bits() == bits ==> c.sizes.marker == narrowed,
        reals.beacon.bits() == bits ==> c.sizes.beacon == narrowed,
        reals.track.bits() == bits ==> c.sizes.track == narrowed,
        reals.distance_line.bits() == bits ==> c.sizes.distance_line == narrowed,
        reals.distance_text.bits() == bits ==> c.sizes.distance_text == narrowed,
        reals.min_distance.bits() == c.track.min_distance,
{
}

/// A name that was filed under a key is found under it, and every other key finds
/// what it found before.
pub proof fn a_filed_name_is_found(
    names: &mut NameTable,
    key: String,
    name: String,
    after: NameTable,
    at: &str,
    before: Option<&str>,
    r: Option<&str>,
    there: bool,
)
    requires
        call_ensures(NameTable::get, (&*old(names), at), before),
        call_ensures(NameTable::insert, (names, key, name), ()),
        after == *final(names),
        call_ensures(NameTable::get, (&after, at), r),
        call_ensures(NameTable::contains_key, (&after, at), there),
    ensures
        at@ == key@ ==> r is Some && (r->0)@ == name@,
        at@ != key@ ==> (r is Some <==> before is Some),
        at@ != key@ && r is Some ==> (r->0)@ == (before->0)@,
        there <==> r is Some,
{
}

/// A name that was taken out is not found any more, and every other key finds
/// what it found before.
pub proof fn a_name_taken_out_is_gone(
    names: &mut NameTable,
    key: &str,
    after: NameTable,
    at: &str,
    before: Option<&str>,
    r: Option<&str>,
)
    requires
        call_ensures(NameTable::get, (&*old(names), at), before),
        call_ensures(NameTable::remove, (names, key), ()),
        after == *final(names),
        call_ensures(NameTable::get, (&after, at), r),
    ensures
        at@ == key@ ==> r is None,
        at@ != key@ ==> (r is Some <==> before is Some),
        at@ != key@ && r is Some ==> (r->0)@ == (before->0)@,
{
}

/// A new table has no names, and a copy has the names of the table it was made of.
pub proof fn a_copy_has_the_same_names(
    empty: NameTable,
    names: NameTable,
    copied: NameTable,
    at: &str,
    none: Option<&str>,
    a: Option<&str>,
    b: Option<&str>,
)
    requires
        call_ensures(NameTable::new, (), empty),
        call_ensures(NameTable::copy, (&names,), copied),
        call_ensures(NameTable::get, (&empty, at), none),
        call_ensures(NameTable::get, (&names, at), a),
        call_ensures(NameTable::get, (&copied, at), b),
    ensures
        none is None,
        a is Some <==> b is Some,
        a is Some ==> (a->0)@ == (b->0)@,
        copied.pairs() == names.pairs(),
{
}

/// The walk over the names meets each under its key, in the order of the keys, and
/// as many as there are.
pub proof fn the_walk_meets_every_name(
    names: NameTable,
    count: usize,
    empty: bool,
    i: usize,
    key: &str,
    name: &str,
    r: Option<&str>,
)
    requires
        call_ensures(NameTable::len, (&names,), count),
        call_ensures(NameTable::is_empty, (&names,), empty),
        i < count,
        call_ensures(NameTable::key_at, (&names, i), key),
        call_ensures(NameTable::name_at, (&names, i), name),
        call_ensures(NameTable::get, (&names, key), r),
    ensures
        !empty,
        r is Some && (r->0)@ == name@,
        ascending(names.pairs()),
        names.pairs().len() == count,
{
    crate::names::walk_matches_map(names.pairs());
}

/// A float value is the number it was read from, and is written as that number;
/// what is no float has none.
pub proof fn a_float_value_keeps_its_number(
    value: Value,
    read: Option<Real>,
    bits: u64,
    again: Value,
)
    requires
        call_ensures(Real::new, (value,), read),
        read is Some ==> call_ensures(Real::to_bits, (&read->0,), bits),
        read is Some ==> call_ensures(Real::value, (&read->0,), again),
    ensures
        read is Some <==> datum_of(value_node(value)) is Real,
        read is Some ==> datum_of(value_node(value)) == Datum::Real(bits) && datum_of(
            value_node(again),
        ) == Datum::Real(bits),
{
}

} // verus!
