//! What holds of a saved settings file: owned settings read back, everything
//! else stays, and the nickname table shows exactly the nicknames.

use crate::config::{
    colors_read_back, first_problem, given_names_are_tidy, is_default_config, is_distance,
    is_size, mac_given, names_given, read_as, tidy, units_read_back, AppConfig, RawConfig, RawSize,
};
use crate::document::{
    absent_is_not_found, around_of, bare, find, find_after_push, find_is_first, first_is_found,
    fresh, fresh_key, is_value, node_at, rows_of, same_keys_same_find, spaced, Around, Datum, Look,
    Node, Row,
};
use crate::names::{ascending, filed, normal_mac, pairs_map, walk_matches_map};
use crate::reals::narrowed;
use crate::settings_file::{
    after_all, after_names, after_set, entries, filled, inner_rows, is_inline, kept, new_table,
    put, reals_fit, renamed, saved_rows, stays, with_inner, Entry, Reals,
};
use crate::text::{opt_text, precedes_is_an_order, trimmed};
use vstd::prelude::*;

verus! {

/// The rows of the table, inline or not, that a document shows behind a key.
pub open spec fn table_shown(rows: Seq<Row>, name: Seq<char>) -> Option<Seq<Row>> {
    match node_at(rows, name) {
        Some(node) => rows_of(node),
        None => None,
    }
}

/// What a document shows under `[section]`, behind `key`.
pub open spec fn shown(rows: Seq<Row>, section: Seq<char>, key: Seq<char>) -> Option<Node> {
    match table_shown(rows, section) {
        Some(inner) => node_at(inner, key),
        None => None,
    }
}

/// The value that a document shows under `[section]`, behind `key`.
pub open spec fn value_shown(rows: Seq<Row>, section: Seq<char>, key: Seq<char>) -> Option<Datum> {
    match shown(rows, section, key) {
        Some(Node::Scalar(datum, _)) => Some(datum),
        _ => None,
    }
}

/// The text that a document shows around the value under `[section]`, behind
/// `key`.
pub open spec fn around_shown(
    rows: Seq<Row>,
    section: Seq<char>,
    key: Seq<char>,
) -> Option<Around> {
    match shown(rows, section, key) {
        Some(node) => if is_value(node) {
            Some(around_of(node))
        } else {
            None
        },
        None => None,
    }
}

/// The rows that were there keep their places, their keys and the looks of the
/// keys, and rows are only added behind them.
pub open spec fn extends(before: Seq<Row>, after: Seq<Row>) -> bool {
    &&& before.len() <= after.len()
    &&& forall|i: int|
        0 <= i < before.len() ==> (#[trigger] after[i]).key == before[i].key && after[i].look
            == before[i].look
}

proof fn lemma_put(rows: Seq<Row>, key: Seq<char>, datum: Datum, around: Around, other: Seq<char>)
    ensures
        node_at(put(rows, key, datum, around), key) == Some(
            Node::Scalar(
                datum,
                fresh(
                    match node_at(rows, key) {
                        Some(node) => if is_value(node) {
                            around_of(node)
                        } else {
                            around
                        },
                        None => around,
                    },
                ),
            ),
        ),
        other != key ==> node_at(put(rows, key, datum, around), other) == node_at(rows, other),
        find(rows, other) is None && other != key ==> find(
            put(rows, key, datum, around),
            other,
        ) is None,
{
    let after = put(rows, key, datum, around);
    find_is_first(rows, key);
    find_is_first(rows, other);
    match find(rows, key) {
        Some(i) => {
            assert(after.len() == rows.len());
            assert forall|j: int| 0 <= j < after.len() implies (#[trigger] after[j]).key
                == rows[j].key by {}
            same_keys_same_find(after, rows, key);
            same_keys_same_find(after, rows, other);
            if other != key && find(rows, other) is Some {
                assert(find(rows, other)->0 != i);
            }
        },
        None => {
            let row = Row { key, look: fresh_key(), node: Node::Scalar(datum, fresh(around)) };
            find_after_push(rows, row, key);
            find_after_push(rows, row, other);
        },
    }
}

proof fn lemma_with_inner(
    rows: Seq<Row>,
    inline: bool,
    name: Seq<char>,
    inner: Seq<Row>,
    other: Seq<char>,
)
    requires
        inner_rows(rows, name) is Some,
    ensures
        ({
            let after = with_inner(rows, inline, name, inner);
            &&& table_shown(after, name) == Some(inner)
            &&& inner_rows(after, name) == Some(inner)
            &&& other != name ==> node_at(after, other) == node_at(rows, other)
            &&& other != name ==> inner_rows(after, other) == inner_rows(rows, other)
            &&& extends(rows, after)
        }),
{
    let after = with_inner(rows, inline, name, inner);
    find_is_first(rows, name);
    find_is_first(rows, other);
    match find(rows, name) {
        Some(i) => {
            assert forall|j: int| 0 <= j < after.len() implies (#[trigger] after[j]).key
                == rows[j].key by {}
            same_keys_same_find(after, rows, name);
            same_keys_same_find(after, rows, other);
            if other != name && find(rows, other) is Some {
                assert(find(rows, other)->0 != i);
            }
        },
        None => {
            let row = Row { key: name, look: fresh_key(), node: new_table(inline, inner) };
            find_after_push(rows, row, name);
            find_after_push(rows, row, other);
        },
    }
}

/// A setting that is set reads back, and keeps the text that stood around its
/// value before, or has a space in front where it is new, unless something else
/// than a table stands in the section's place.
pub proof fn setting_reads_back(
    rows: Seq<Row>,
    section: Seq<char>,
    key: Seq<char>,
    datum: Datum,
)
    requires
        inner_rows(rows, section) is Some,
    ensures
        value_shown(after_set(rows, section, key, datum), section, key) == Some(datum),
        around_shown(rows, section, key) is Some ==> around_shown(
            after_set(rows, section, key, datum),
            section,
            key,
        ) == around_shown(rows, section, key),
        around_shown(rows, section, key) is None ==> around_shown(
            after_set(rows, section, key, datum),
            section,
            key,
        ) == Some(spaced()),
        extends(rows, after_set(rows, section, key, datum)),
{
    let inner = inner_rows(rows, section)->0;
    lemma_put(inner, key, datum, spaced(), key);
    lemma_with_inner(rows, false, section, put(inner, key, datum, spaced()), section);
}

/// Setting one setting leaves every other one as it is.
pub proof fn other_settings_stay(
    rows: Seq<Row>,
    section: Seq<char>,
    key: Seq<char>,
    datum: Datum,
    other_section: Seq<char>,
    other_key: Seq<char>,
)
    requires
        other_section != section || other_key != key,
    ensures
        shown(after_set(rows, section, key, datum), other_section, other_key) == shown(
            rows,
            other_section,
            other_key,
        ),
        inner_rows(after_set(rows, section, key, datum), other_section) is Some <==> inner_rows(
            rows,
            other_section,
        ) is Some,
        extends(rows, after_set(rows, section, key, datum)),
{
    match inner_rows(rows, section) {
        Some(inner) => {
            let after = put(inner, key, datum, spaced());
            lemma_put(inner, key, datum, spaced(), other_key);
            lemma_with_inner(rows, false, section, after, other_section);
            find_is_first(rows, section);
        },
        None => {},
    }
}

/// No setting is listed twice.
pub open spec fn distinct(list: Seq<Entry>) -> bool {
    forall|i: int, j: int|
        0 <= i < j < list.len() ==> (#[trigger] list[i]).section != (#[trigger] list[j]).section
            || list[i].key != list[j].key
}

/// A setting is listed.
pub open spec fn lists(list: Seq<Entry>, section: Seq<char>, key: Seq<char>) -> bool {
    exists|i: int|
        0 <= i < list.len() && (#[trigger] list[i]).section == section && list[i].key == key
}

proof fn lemma_section_stays(
    rows: Seq<Row>,
    section: Seq<char>,
    key: Seq<char>,
    datum: Datum,
    other: Seq<char>,
)
    ensures
        inner_rows(after_set(rows, section, key, datum), other) is Some <==> inner_rows(
            rows,
            other,
        ) is Some,
        extends(rows, after_set(rows, section, key, datum)),
{
    match inner_rows(rows, section) {
        Some(inner) => {
            let after = put(inner, key, datum, spaced());
            lemma_with_inner(rows, false, section, after, other);
        },
        None => {},
    }
}

proof fn lemma_sections_stay(rows: Seq<Row>, list: Seq<Entry>, other: Seq<char>)
    ensures
        inner_rows(after_all(rows, list), other) is Some <==> inner_rows(rows, other) is Some,
        extends(rows, after_all(rows, list)),
    decreases list.len(),
{
    if list.len() > 0 {
        let e = list.last();
        lemma_sections_stay(rows, list.drop_last(), other);
        lemma_section_stays(
            after_all(rows, list.drop_last()),
            e.section,
            e.key,
            e.datum,
            other,
        );
    }
}

/// Settings that are not listed stay as they are.
pub proof fn unlisted_settings_stay(
    rows: Seq<Row>,
    list: Seq<Entry>,
    section: Seq<char>,
    key: Seq<char>,
)
    requires
        !lists(list, section, key),
    ensures
        shown(after_all(rows, list), section, key) == shown(rows, section, key),
        extends(rows, after_all(rows, list)),
    decreases list.len(),
{
    lemma_sections_stay(rows, list, section);
    if list.len() > 0 {
        let e = list.last();
        let fewer = list.drop_last();
        assert(list[list.len() - 1] == e);
        if lists(fewer, section, key) {
            let i = choose|i: int|
                0 <= i < fewer.len() && (#[trigger] fewer[i]).section == section && fewer[i].key
                    == key;
            assert(list[i] == fewer[i]);
        }
        unlisted_settings_stay(rows, fewer, section, key);
        other_settings_stay(after_all(rows, fewer), e.section, e.key, e.datum, section, key);
    }
}

/// Every listed setting reads back, and keeps the text that stood around its
/// value before.
pub proof fn listed_settings_read_back(rows: Seq<Row>, list: Seq<Entry>, i: int)
    requires
        distinct(list),
        0 <= i < list.len(),
        inner_rows(rows, list[i].section) is Some,
    ensures
        value_shown(after_all(rows, list), list[i].section, list[i].key) == Some(list[i].datum),
        around_shown(rows, list[i].section, list[i].key) is Some ==> around_shown(
            after_all(rows, list),
            list[i].section,
            list[i].key,
        ) == around_shown(rows, list[i].section, list[i].key),
        around_shown(rows, list[i].section, list[i].key) is None ==> around_shown(
            after_all(rows, list),
            list[i].section,
            list[i].key,
        ) == Some(spaced()),
    decreases list.len(),
{
    let e = list.last();
    let fewer = list.drop_last();
    if i == list.len() - 1 {
        lemma_sections_stay(rows, fewer, e.section);
        if lists(fewer, e.section, e.key) {
            let j = choose|j: int|
                0 <= j < fewer.len() && (#[trigger] fewer[j]).section == e.section && fewer[j].key
                    == e.key;
            assert(list[j] == fewer[j]);
            assert(list[j].section != list[i].section || list[j].key != list[i].key);
        }
        unlisted_settings_stay(rows, fewer, e.section, e.key);
        setting_reads_back(after_all(rows, fewer), e.section, e.key, e.datum);
    } else {
        assert(fewer[i] == list[i]);
        assert forall|a: int, b: int| 0 <= a < b < fewer.len() implies (#[trigger] fewer[a]).section
            != (#[trigger] fewer[b]).section || fewer[a].key != fewer[b].key by {
            assert(list[a] == fewer[a] && list[b] == fewer[b]);
        }
        listed_settings_read_back(rows, fewer, i);
        assert(list[i].section != list[list.len() - 1].section || list[i].key != list[list.len()
            - 1].key);
        other_settings_stay(
            after_all(rows, fewer),
            e.section,
            e.key,
            e.datum,
            list[i].section,
            list[i].key,
        );
    }
}

proof fn lemma_words()
    ensures
        "colors"@.len() == 6,
        "sizes"@.len() == 5,
        "sizes"@[0] == 's',
        "distance"@.len() == 8,
        "ble"@.len() == 3,
        "track"@.len() == 5,
        "track"@[0] == 't',
        "fixed"@.len() == 5,
        "fixed"@[0] == 'f',
        "marker"@.len() == 6,
        "marker"@[0] == 'm',
        "beacon"@.len() == 6,
        "beacon"@[0] == 'b',
        "distance_line"@.len() == 13,
        "distance_line"@[9] == 'l',
        "distance_text"@.len() == 13,
        "distance_text"@[9] == 't',
        "show"@.len() == 4,
        "units"@.len() == 5,
        "dotted"@.len() == 6,
        "enabled"@.len() == 7,
        "show_path"@.len() == 9,
        "mac"@.len() == 3,
        "names"@.len() == 5,
        "min_distance"@.len() == 12,
{
    reveal_strlit("colors");
    reveal_strlit("sizes");
    reveal_strlit("distance");
    reveal_strlit("ble");
    reveal_strlit("track");
    reveal_strlit("fixed");
    reveal_strlit("marker");
    reveal_strlit("beacon");
    reveal_strlit("distance_line");
    reveal_strlit("distance_text");
    reveal_strlit("show");
    reveal_strlit("units");
    reveal_strlit("dotted");
    reveal_strlit("enabled");
    reveal_strlit("show_path");
    reveal_strlit("mac");
    reveal_strlit("names");
    reveal_strlit("min_distance");
}

/// Each setting of the application has a section and a key of its own, and none
/// of them is the nickname table.
pub proof fn settings_are_distinct(c: AppConfig, reals: Reals)
    ensures
        distinct(entries(c, reals)),
        !lists(entries(c, reals), "ble"@, "names"@),
{
    lemma_words();
    let list = entries(c, reals);
    assert(list.len() == 14);
    assert(forall|i: int|
        0 <= i < 14 ==> (#[trigger] list[i]).section == (if i < 2 {
            "colors"@
        } else if i < 7 {
            "sizes"@
        } else if i < 10 {
            "distance"@
        } else if i < 13 {
            "ble"@
        } else {
            "track"@
        }));
}

proof fn lemma_names_stay(
    rows: Seq<Row>,
    names: Map<Seq<char>, Seq<char>>,
    pairs: Seq<(Seq<char>, Seq<char>)>,
    section: Seq<char>,
    key: Seq<char>,
)
    requires
        section != "ble"@ || key != "names"@,
    ensures
        shown(after_names(rows, names, pairs), section, key) == shown(rows, section, key),
        extends(rows, after_names(rows, names, pairs)),
{
    match inner_rows(rows, "ble"@) {
        Some(ble) => match inner_rows(ble, "names"@) {
            Some(inner) => {
                let inline = is_inline(rows, "ble"@, false);
                let new = renamed(inner, is_inline(ble, "names"@, inline), names, pairs);
                lemma_with_inner(ble, inline, "names"@, new, key);
                lemma_with_inner(
                    rows,
                    false,
                    "ble"@,
                    with_inner(ble, inline, "names"@, new),
                    section,
                );
            },
            None => {},
        },
        None => {},
    }
}

/// Every setting that is saved reads back from the file, and a value that stood
/// in the file before keeps the text around it.
pub proof fn saved_settings_read_back(rows: Seq<Row>, c: AppConfig, reals: Reals, i: int)
    requires
        0 <= i < entries(c, reals).len(),
        inner_rows(rows, entries(c, reals)[i].section) is Some,
    ensures
        ({
            let e = entries(c, reals)[i];
            let after = saved_rows(rows, c, reals);
            &&& value_shown(after, e.section, e.key) == Some(e.datum)
            &&& around_shown(rows, e.section, e.key) is Some ==> around_shown(
                after,
                e.section,
                e.key,
            ) == around_shown(rows, e.section, e.key)
            &&& around_shown(rows, e.section, e.key) is None ==> around_shown(
                after,
                e.section,
                e.key,
            ) == Some(spaced())
        }),
{
    let list = entries(c, reals);
    settings_are_distinct(c, reals);
    listed_settings_read_back(rows, list, i);
    if list[i].section == "ble"@ && list[i].key == "names"@ {
        assert(lists(list, "ble"@, "names"@));
    }
    lemma_names_stay(
        after_all(rows, list),
        c.ble.names@,
        c.ble.names.pairs(),
        list[i].section,
        list[i].key,
    );
}

/// Saving leaves everything that the application does not own: rows keep their
/// order, their keys and the text around them, and every other key shows what
/// it showed.
pub proof fn the_rest_survives(
    rows: Seq<Row>,
    c: AppConfig,
    reals: Reals,
    section: Seq<char>,
    key: Seq<char>,
)
    requires
        !lists(entries(c, reals), section, key),
        section != "ble"@ || key != "names"@,
    ensures
        shown(saved_rows(rows, c, reals), section, key) == shown(rows, section, key),
        extends(rows, saved_rows(rows, c, reals)),
{
    let list = entries(c, reals);
    unlisted_settings_stay(rows, list, section, key);
    lemma_names_stay(after_all(rows, list), c.ble.names@, c.ble.names.pairs(), section, key);
}

proof fn lemma_filled(rows: Seq<Row>, pairs: Seq<(Seq<char>, Seq<char>)>, key: Seq<char>)
    requires
        ascending(pairs),
    ensures
        filed(pairs, key) ==> {
            &&& node_at(filled(rows, pairs), key) is Some
            &&& node_at(filled(rows, pairs), key)->0 is Scalar
            &&& node_at(filled(rows, pairs), key)->0->Scalar_0 == Datum::Text(
                pairs_map(pairs)[key],
            )
            &&& (node_at(rows, key) is Some && is_value(node_at(rows, key)->0)) ==> node_at(
                filled(rows, pairs),
                key,
            )->0->Scalar_1 == fresh(around_of(node_at(rows, key)->0))
        },
        !filed(pairs, key) ==> node_at(filled(rows, pairs), key) == node_at(rows, key) && (find(
            rows,
            key,
        ) is None ==> find(filled(rows, pairs), key) is None),
    decreases pairs.len(),
{
    if pairs.len() > 0 {
        let fewer = pairs.drop_last();
        let n = pairs.len() - 1;
        let (k, name) = pairs.last();
        assert forall|a: int, b: int| 0 <= a < b < fewer.len() implies crate::text::precedes(
            (#[trigger] fewer[a]).0,
            (#[trigger] fewer[b]).0,
        ) by {
            assert(fewer[a] == pairs[a] && fewer[b] == pairs[b]);
        }
        lemma_filled(rows, fewer, key);
        lemma_put(filled(rows, fewer), k, Datum::Text(name), bare(), key);
        walk_matches_map(pairs);
        walk_matches_map(fewer);
        assert(pairs[n] == (k, name));
        if filed(fewer, key) {
            let j = choose|j: int| 0 <= j < fewer.len() && (#[trigger] fewer[j]).0 == key;
            assert(pairs[j] == fewer[j]);
            assert(filed(pairs, key));
            assert(pairs_map(pairs)[pairs[j].0] == pairs[j].1);
            assert(pairs_map(fewer)[fewer[j].0] == fewer[j].1);
            assert(crate::text::precedes(pairs[j].0, pairs[n].0));
            precedes_is_an_order(key, key, key);
        } else if filed(pairs, key) {
            let j = choose|j: int| 0 <= j < pairs.len() && (#[trigger] pairs[j]).0 == key;
            if j < n {
                assert(fewer[j] == pairs[j]);
            }
            assert(key == k);
            assert(pairs_map(pairs)[pairs[n].0] == pairs[n].1);
        }
        if key == k {
            assert(filed(pairs, key));
        }
    }
}

/// The nickname table that a document shows.
pub open spec fn names_shown(rows: Seq<Row>) -> Option<Seq<Row>> {
    match table_shown(rows, "ble"@) {
        Some(ble) => table_shown(ble, "names"@),
        None => None,
    }
}

/// The nickname that a document shows for a key.
pub open spec fn name_shown(rows: Seq<Row>, key: Seq<char>) -> Option<Seq<char>> {
    match names_shown(rows) {
        Some(inner) => match node_at(inner, key) {
            Some(Node::Scalar(Datum::Text(name), _)) => Some(name),
            _ => None,
        },
        None => None,
    }
}

/// A document shows something under `[ble.names]` for a key.
pub open spec fn key_shown(rows: Seq<Row>, key: Seq<char>) -> bool {
    match names_shown(rows) {
        Some(inner) => node_at(inner, key) is Some,
        None => false,
    }
}

/// A document has room for `[ble.names]`: nothing else than tables stands there.
pub open spec fn names_have_room(rows: Seq<Row>) -> bool {
    match inner_rows(rows, "ble"@) {
        Some(ble) => inner_rows(ble, "names"@) is Some,
        None => false,
    }
}

/// A document has room for the settings: nothing else than tables stands in the
/// places of their tables.
pub open spec fn has_room(rows: Seq<Row>) -> bool {
    &&& inner_rows(rows, "colors"@) is Some
    &&& inner_rows(rows, "sizes"@) is Some
    &&& inner_rows(rows, "distance"@) is Some
    &&& inner_rows(rows, "track"@) is Some
    &&& names_have_room(rows)
}

proof fn lemma_obstacle_stays(rows: Seq<Row>, list: Seq<Entry>, section: Seq<char>)
    requires
        inner_rows(rows, section) is None,
    ensures
        node_at(after_all(rows, list), section) == node_at(rows, section),
        inner_rows(after_all(rows, list), section) is None,
    decreases list.len(),
{
    if list.len() > 0 {
        let e = list.last();
        let mid = after_all(rows, list.drop_last());
        lemma_obstacle_stays(rows, list.drop_last(), section);
        match inner_rows(mid, e.section) {
            Some(inner) => {
                let after = put(inner, e.key, e.datum, spaced());
                lemma_with_inner(mid, false, e.section, after, section);
            },
            None => {},
        }
    }
}

/// What stands in a section's place without being a table is left there.
pub proof fn what_is_no_table_stays(
    rows: Seq<Row>,
    c: AppConfig,
    reals: Reals,
    section: Seq<char>,
)
    requires
        inner_rows(rows, section) is None,
    ensures
        node_at(saved_rows(rows, c, reals), section) == node_at(rows, section),
{
    let mid = after_all(rows, entries(c, reals));
    let (names, pairs) = (c.ble.names@, c.ble.names.pairs());
    lemma_obstacle_stays(rows, entries(c, reals), section);
    match inner_rows(mid, "ble"@) {
        Some(ble) => match inner_rows(ble, "names"@) {
            Some(inner) => {
                let inline = is_inline(mid, "ble"@, false);
                let new = renamed(inner, is_inline(ble, "names"@, inline), names, pairs);
                lemma_with_inner(
                    mid,
                    false,
                    "ble"@,
                    with_inner(ble, inline, "names"@, new),
                    section,
                );
            },
            None => {},
        },
        None => {},
    }
}

/// The saved nickname table shows exactly the nicknames: each under its key, and
/// nothing under any other key, so that forgetting a board sticks.
pub proof fn saved_names_are_the_names(rows: Seq<Row>, c: AppConfig, reals: Reals, key: Seq<char>)
    requires
        names_have_room(rows),
        ascending(c.ble.names.pairs()),
    ensures
        c.ble.names@.dom().contains(key) ==> name_shown(saved_rows(rows, c, reals), key) == Some(
            c.ble.names@[key],
        ),
        !c.ble.names@.dom().contains(key) ==> !key_shown(saved_rows(rows, c, reals), key),
{
    let names = c.ble.names@;
    let pairs = c.ble.names.pairs();
    let list = entries(c, reals);
    let mid = after_all(rows, list);
    lemma_words();
    settings_are_distinct(c, reals);
    lemma_room_stays(rows, list);
    let ble = inner_rows(mid, "ble"@)->0;
    let inner = inner_rows(ble, "names"@)->0;
    let ble_inline = is_inline(mid, "ble"@, false);
    let inline = is_inline(ble, "names"@, ble_inline);
    let left = kept(inner, inline, names);
    let new = renamed(inner, inline, names, pairs);
    lemma_with_inner(ble, ble_inline, "names"@, new, "names"@);
    lemma_with_inner(mid, false, "ble"@, with_inner(ble, ble_inline, "names"@, new), "ble"@);
    walk_matches_map(pairs);
    lemma_filled(left, pairs, key);
    if !names.dom().contains(key) {
        broadcast use vstd::seq_lib::group_filter_ensures;

        assert forall|j: int| 0 <= j < left.len() implies (#[trigger] left[j]).key != key by {
            assert(stays(names, left[j].key));
        }
        absent_is_not_found(left, key);
    }
}

proof fn lemma_room_stays(rows: Seq<Row>, list: Seq<Entry>)
    requires
        names_have_room(rows),
        !lists(list, "ble"@, "names"@),
    ensures
        names_have_room(after_all(rows, list)),
    decreases list.len(),
{
    if list.len() > 0 {
        let e = list.last();
        let fewer = list.drop_last();
        assert(list[list.len() - 1] == e);
        if lists(fewer, "ble"@, "names"@) {
            let i = choose|i: int|
                0 <= i < fewer.len() && (#[trigger] fewer[i]).section == "ble"@ && fewer[i].key
                    == "names"@;
            assert(list[i] == fewer[i]);
        }
        lemma_room_stays(rows, fewer);
        let mid = after_all(rows, fewer);
        match inner_rows(mid, e.section) {
            Some(inner) => {
                let after = put(inner, e.key, e.datum, spaced());
                lemma_put(inner, e.key, e.datum, spaced(), "names"@);
                lemma_put_keeps_tables(
                    inner,
                    e.key,
                    e.datum,
                    spaced(),
                    "names"@,
                );
                lemma_with_inner(mid, false, e.section, after, "ble"@);
            },
            None => {},
        }
    }
}

proof fn lemma_put_keeps_tables(
    rows: Seq<Row>,
    key: Seq<char>,
    datum: Datum,
    around: Around,
    other: Seq<char>,
)
    ensures
        other != key ==> inner_rows(put(rows, key, datum, around), other) == inner_rows(rows, other),
{
    let after = put(rows, key, datum, around);
    find_is_first(rows, key);
    find_is_first(rows, other);
    match find(rows, key) {
        Some(i) => {
            assert forall|j: int| 0 <= j < after.len() implies (#[trigger] after[j]).key
                == rows[j].key by {}
            same_keys_same_find(after, rows, other);
            if other != key && find(rows, other) is Some {
                assert(find(rows, other)->0 != i);
            }
        },
        None => {
            let row = Row { key, look: fresh_key(), node: Node::Scalar(datum, fresh(around)) };
            find_after_push(rows, row, other);
        },
    }
}

proof fn lemma_kept_row(rows: Seq<Row>, pred: spec_fn(Row) -> bool, key: Seq<char>)
    ensures
        match find(rows, key) {
            Some(i) => pred(rows[i]) && !(rows[i].node is Nothing) ==> node_at(
                rows.filter(pred),
                key,
            ) == Some(rows[i].node),
            None => find(rows.filter(pred), key) is None,
        },
    decreases rows.len(),
{
    reveal(Seq::filter);
    find_is_first(rows, key);
    if rows.len() > 0 {
        let fewer = rows.drop_last();
        let some = fewer.filter(pred);
        let row = rows.last();
        find_is_first(fewer, key);
        lemma_kept_row(fewer, pred, key);
        match find(fewer, key) {
            Some(j) => {
                assert(fewer[j] == rows[j]);
                assert forall|k: int| 0 <= k < j implies (#[trigger] rows[k]).key != key by {
                    assert(fewer[k] == rows[k]);
                }
                first_is_found(rows, key, j);
                if pred(rows[j]) && !(rows[j].node is Nothing) {
                    find_is_first(some, key);
                    let n = find(some, key)->0;
                    assert forall|k: int| 0 <= k < n implies (#[trigger] some.push(row)[k]).key
                        != key by {
                        assert(some.push(row)[k] == some[k]);
                    }
                    first_is_found(some.push(row), key, n);
                }
            },
            None => {
                if row.key == key {
                    assert forall|k: int| 0 <= k < rows.len() - 1 implies (#[trigger] rows[k]).key
                        != key by {
                        assert(fewer[k] == rows[k]);
                    }
                    first_is_found(rows, key, rows.len() - 1);
                    find_is_first(some, key);
                    if pred(row) {
                        find_after_push(some, row, key);
                    }
                } else {
                    assert forall|k: int| 0 <= k < rows.len() implies (#[trigger] rows[k]).key
                        != key by {
                        if k < fewer.len() {
                            assert(fewer[k] == rows[k]);
                        }
                    }
                    absent_is_not_found(rows, key);
                    find_is_first(some, key);
                    assert forall|k: int| 0 <= k < some.push(row).len() implies (
                    #[trigger] some.push(row)[k]).key != key by {
                        if k < some.len() {
                            assert(some.push(row)[k] == some[k]);
                        }
                    }
                    absent_is_not_found(some.push(row), key);
                }
            },
        }
    }
}

/// A nickname line that was in the file and stays keeps the text around its name,
/// a comment behind it among that.
pub proof fn kept_names_keep_what_stands_around_them(
    rows: Seq<Row>,
    c: AppConfig,
    reals: Reals,
    key: Seq<char>,
    name: Datum,
    look: Look,
)
    requires
        ascending(c.ble.names.pairs()),
        c.ble.names@.dom().contains(key),
        normal_mac(key) == key,
        names_shown(rows) is Some,
        node_at(names_shown(rows)->0, key) == Some(Node::Scalar(name, look)),
    ensures
        names_shown(saved_rows(rows, c, reals)) is Some,
        node_at(names_shown(saved_rows(rows, c, reals))->0, key) == Some(
            Node::Scalar(Datum::Text(c.ble.names@[key]), fresh(look.around)),
        ),
{
    let names = c.ble.names@;
    let pairs = c.ble.names.pairs();
    let list = entries(c, reals);
    let mid = after_all(rows, list);
    settings_are_distinct(c, reals);
    unlisted_settings_stay(rows, list, "ble"@, "names"@);
    assert(shown(mid, "ble"@, "names"@) == shown(rows, "ble"@, "names"@));
    let ble = inner_rows(mid, "ble"@)->0;
    let inner = inner_rows(ble, "names"@)->0;
    assert(inner == names_shown(rows)->0);
    let ble_inline = is_inline(mid, "ble"@, false);
    let inline = is_inline(ble, "names"@, ble_inline);
    let left = kept(inner, inline, names);
    let new = renamed(inner, inline, names, pairs);
    lemma_with_inner(ble, ble_inline, "names"@, new, "names"@);
    lemma_with_inner(mid, false, "ble"@, with_inner(ble, ble_inline, "names"@, new), "ble"@);
    walk_matches_map(pairs);
    lemma_filled(left, pairs, key);
    let pred = |row: Row| stays(names, row.key) && (inline ==> is_value(row.node));
    find_is_first(inner, key);
    lemma_kept_row(inner, pred, key);
    assert(left == inner.filter(pred));
}

/// A text read from a file is the one that the file shows.
pub open spec fn text_agrees(seen: Option<Datum>, given: Option<String>) -> bool {
    match seen {
        Some(Datum::Text(text)) => opt_text(given) == Some(text),
        _ => true,
    }
}

/// A flag read from a file is the one that the file shows.
pub open spec fn flag_agrees(seen: Option<Datum>, given: Option<bool>) -> bool {
    match seen {
        Some(Datum::Flag(b)) => given == Some(b),
        _ => true,
    }
}

/// A nickname is among those read from a file.
pub open spec fn name_read(names: Seq<(String, String)>, key: Seq<char>, name: Seq<char>) -> bool {
    exists|i: int| 0 <= i < names.len() && (#[trigger] names[i]).0@ == key && names[i].1@ == name
}

/// A size read from a file is the one that the file shows, in single precision.
pub open spec fn size_agrees(seen: Option<Datum>, given: Option<RawSize>) -> bool {
    match seen {
        Some(Datum::Real(bits)) => given is Some && given->0.bits == narrowed(bits),
        _ => true,
    }
}

/// The tables read from a file say what the document shows.
pub open spec fn agrees(rows: Seq<Row>, raw: RawConfig) -> bool {
    &&& text_agrees(value_shown(rows, "colors"@, "track"@), raw.colors.track)
    &&& text_agrees(value_shown(rows, "colors"@, "fixed"@), raw.colors.fixed)
    &&& size_agrees(value_shown(rows, "sizes"@, "marker"@), raw.sizes.marker)
    &&& size_agrees(value_shown(rows, "sizes"@, "beacon"@), raw.sizes.beacon)
    &&& size_agrees(value_shown(rows, "sizes"@, "track"@), raw.sizes.track)
    &&& size_agrees(value_shown(rows, "sizes"@, "distance_line"@), raw.sizes.distance_line)
    &&& size_agrees(value_shown(rows, "sizes"@, "distance_text"@), raw.sizes.distance_text)
    &&& flag_agrees(value_shown(rows, "distance"@, "show"@), raw.distance.show)
    &&& text_agrees(value_shown(rows, "distance"@, "units"@), raw.distance.units)
    &&& flag_agrees(value_shown(rows, "distance"@, "dotted"@), raw.distance.dotted)
    &&& flag_agrees(value_shown(rows, "ble"@, "enabled"@), raw.ble.enabled)
    &&& flag_agrees(value_shown(rows, "ble"@, "show_path"@), raw.ble.show_path)
    &&& text_agrees(value_shown(rows, "ble"@, "mac"@), raw.ble.mac)
    &&& (match value_shown(rows, "track"@, "min_distance"@) {
        Some(Datum::Real(bits)) => raw.track.min_distance is Some
            && raw.track.min_distance->0.bits == bits,
        _ => true,
    })
    &&& forall|key: Seq<char>, name: Seq<char>|
        name_shown(rows, key) == Some(name) <==> #[trigger] name_read(raw.ble.names@, key, name)
}

/// Settings that a file can stand for: sizes and the recording distance within
/// their bounds, nicknames in good order, and no blank pinned address.
pub open spec fn is_valid(c: AppConfig) -> bool {
    &&& is_size(c.sizes.marker)
    &&& is_size(c.sizes.beacon)
    &&& is_size(c.sizes.track)
    &&& is_size(c.sizes.distance_line)
    &&& is_size(c.sizes.distance_text)
    &&& is_distance(c.track.min_distance)
    &&& tidy(c.ble.names@)
    &&& mac_given(c.ble.mac) == opt_text(c.ble.mac)
}

/// Two configurations say the same.
pub open spec fn same_settings(a: AppConfig, b: AppConfig) -> bool {
    &&& a.colors == b.colors
    &&& a.sizes == b.sizes
    &&& a.distance == b.distance
    &&& a.ble.enabled == b.ble.enabled
    &&& a.ble.show_path == b.ble.show_path
    &&& opt_text(a.ble.mac) == opt_text(b.ble.mac)
    &&& a.ble.names@ == b.ble.names@
    &&& a.track == b.track
}

/// What a file stands for is valid, and so are the default settings.
pub proof fn what_is_read_is_valid(raw: RawConfig, c: AppConfig)
    ensures
        first_problem(raw) is None && read_as(raw, c) ==> is_valid(c),
        is_default_config(c) ==> is_valid(c),
{
    given_names_are_tidy(raw.ble.names@);
}

/// Nicknames that are read as they were wanted make the map that was wanted.
pub proof fn lemma_names_given(names: Seq<(String, String)>, want: Map<Seq<char>, Seq<char>>)
    requires
        tidy(want),
        forall|i: int|
            0 <= i < names.len() ==> want.dom().contains((#[trigger] names[i]).0@)
                && want[names[i].0@] == names[i].1@,
    ensures
        forall|k: Seq<char>| #[trigger]
            names_given(names).dom().contains(k) ==> want.dom().contains(k) && names_given(
                names,
            )[k] == want[k],
        forall|i: int|
            0 <= i < names.len() ==> names_given(names).dom().contains((#[trigger] names[i]).0@),
    decreases names.len(),
{
    if names.len() > 0 {
        let fewer = names.drop_last();
        let n = names.len() - 1;
        assert forall|i: int| 0 <= i < fewer.len() implies want.dom().contains(
            (#[trigger] fewer[i]).0@,
        ) && want[fewer[i].0@] == fewer[i].1@ by {
            assert(names[i] == fewer[i]);
        }
        lemma_names_given(fewer, want);
        assert(want.dom().contains(names[n].0@));
        let (before, now) = (names_given(fewer), names_given(names));
        assert(now == before.insert(names[n].0@, names[n].1@));
        assert forall|k: Seq<char>| #[trigger] now.dom().contains(k) implies want.dom().contains(k)
            && now[k] == want[k] by {
            if k != names[n].0@ {
                assert(before.dom().contains(k));
            }
        }
        assert forall|i: int| 0 <= i < names.len() implies names_given(names).dom().contains(
            (#[trigger] names[i]).0@,
        ) by {
            if i < n {
                assert(fewer[i] == names[i]);
            }
        }
    }
}

/// What is saved reads back as the same settings, every one of them: a file
/// whose tables say what the saved document shows is accepted, and stands for
/// the settings that were saved.
pub proof fn settings_survive_a_save(
    rows: Seq<Row>,
    c: AppConfig,
    reals: Reals,
    raw: RawConfig,
    back: AppConfig,
)
    requires
        reals_fit(reals, c),
        is_valid(c),
        has_room(rows),
        ascending(c.ble.names.pairs()),
        agrees(saved_rows(rows, c, reals), raw),
    ensures
        first_problem(raw) is None,
        read_as(raw, back) ==> same_settings(back, c),
{
    let after = saved_rows(rows, c, reals);
    let names = c.ble.names@;
    saved_settings_read_back(rows, c, reals, 0);
    saved_settings_read_back(rows, c, reals, 1);
    saved_settings_read_back(rows, c, reals, 2);
    saved_settings_read_back(rows, c, reals, 3);
    saved_settings_read_back(rows, c, reals, 4);
    saved_settings_read_back(rows, c, reals, 5);
    saved_settings_read_back(rows, c, reals, 6);
    saved_settings_read_back(rows, c, reals, 7);
    saved_settings_read_back(rows, c, reals, 8);
    saved_settings_read_back(rows, c, reals, 9);
    saved_settings_read_back(rows, c, reals, 10);
    saved_settings_read_back(rows, c, reals, 11);
    saved_settings_read_back(rows, c, reals, 12);
    saved_settings_read_back(rows, c, reals, 13);
    colors_read_back(c.colors.track);
    colors_read_back(c.colors.fixed);
    units_read_back(c.distance.units);
    assert(trimmed(Seq::<char>::empty()).len() == 0);
    let given = raw.ble.names@;
    assert forall|i: int| 0 <= i < given.len() implies names.dom().contains(
        (#[trigger] given[i]).0@,
    ) && names[given[i].0@] == given[i].1@ by {
        saved_names_are_the_names(rows, c, reals, given[i].0@);
        assert(name_read(given, given[i].0@, given[i].1@));
    }
    lemma_names_given(given, names);
    assert forall|k: Seq<char>| #[trigger] names.dom().contains(k) implies names_given(
        given,
    ).dom().contains(k) by {
        saved_names_are_the_names(rows, c, reals, k);
        assert(name_read(given, k, names[k]));
        let i = choose|i: int|
            0 <= i < given.len() && (#[trigger] given[i]).0@ == k && given[i].1@ == names[k];
        assert(names_given(given).dom().contains(given[i].0@));
    }
    assert(names_given(given) =~= names);
}

} // verus!
