//! The files: what loading, saving, resetting and restoring leave behind.

use crate::app::{feedback, BleIntent, MyApp};
use crate::ble::BleCommand;
use crate::config::{is_default_config, AppConfig};
use crate::document::parsed_document;
use crate::radio::RadioDoc;
use crate::text::{decimal, opt_text, precedes, texts, trim};
use vstd::prelude::*;

verus! {

/// The file of a page is the path that is typed there, without the blanks around
/// it. Where that leaves nothing there is no file, and the page says so.
pub proof fn a_blank_path_is_no_file(
    config: &mut MyApp,
    radio: &mut MyApp,
    c: Option<String>,
    q: Option<String>,
    config_path: &str,
    radio_path: &str,
    a: String,
    b: String,
)
    requires
        call_ensures(MyApp::config_file, (config,), c),
        call_ensures(MyApp::radio_file, (radio,), q),
        config_path@ == old(config).config_path@,
        radio_path@ == old(radio).radio_path@,
        call_ensures(trim, (config_path,), a),
        call_ensures(trim, (radio_path,), b),
    ensures
        c is Some <==> a@.len() > 0,
        c is Some ==> (c->0)@ == a@ && *final(config) == *old(config),
        c is None ==> feedback(final(config).config_feedback) == Some(
            Err::<Seq<char>, Seq<char>>("Enter a file path."@),
        ),
        q is Some <==> b@.len() > 0,
        q is Some ==> (q->0)@ == b@ && *final(radio) == *old(radio),
        q is None ==> feedback(final(radio).radio_feedback) == Some(
            Err::<Seq<char>, Seq<char>>("Enter a file path."@),
        ),
        *final(config) == (MyApp {
            config_feedback: final(config).config_feedback,
            ..*old(config)
        }),
        *final(radio) == (MyApp { radio_feedback: final(radio).radio_feedback, ..*old(radio) }),
{
}

/// Settings that were loaded are the settings, and the page names the file;
/// a connection that is wanted is asked for of the device they pin. A file that
/// could not be loaded leaves every setting as it was, and the page says why.
pub proof fn loaded_settings_are_the_settings(
    app: &mut MyApp,
    path: &str,
    loaded: Result<AppConfig, String>,
    r: Option<BleCommand>,
)
    requires
        call_ensures(MyApp::load_config, (app, path, loaded), r),
    ensures
        loaded matches Ok(config) ==> {
            &&& final(app).config == config
            &&& config.ble.mac is Some ==> final(app).ble_mac_text@ == config.ble.mac->0@
            &&& config.ble.mac is None ==> final(app).ble_mac_text@.len() == 0
            &&& feedback(final(app).config_feedback) == Some(
                Ok::<Seq<char>, Seq<char>>("Loaded "@ + path@),
            )
            &&& r is None <==> old(app).ble_intent == BleIntent::Idle
            &&& r is Some ==> r->0 is Connect && opt_text((r->0)->mac) == opt_text(config.ble.mac)
                && ((r->0)->chase <==> old(app).ble_intent == BleIntent::ConnectSleeping)
        },
        loaded matches Err(why) ==> {
            &&& final(app).config == old(app).config
            &&& final(app).ble_mac_text == old(app).ble_mac_text
            &&& feedback(final(app).config_feedback) == Some(Err::<Seq<char>, Seq<char>>(why@))
            &&& r is None
        },
        final(app).ble_intent == old(app).ble_intent,
        *final(app) == (MyApp {
            config: final(app).config,
            ble_mac_text: final(app).ble_mac_text,
            config_feedback: final(app).config_feedback,
            ..*old(app)
        }),
{
}

/// A save is told apart by whether the file was new, and a failed one by its
/// reason; none changes a setting.
pub proof fn a_save_tells_what_it_did(app: &mut MyApp, path: &str, saved: Result<bool, String>)
    requires
        call_ensures(MyApp::save_config, (app, path, saved), ()),
    ensures
        saved == Ok::<bool, String>(true) ==> feedback(final(app).config_feedback) == Some(
            Ok::<Seq<char>, Seq<char>>("Created "@ + path@),
        ),
        saved == Ok::<bool, String>(false) ==> feedback(final(app).config_feedback) == Some(
            Ok::<Seq<char>, Seq<char>>("Saved "@ + path@),
        ),
        saved matches Err(why) ==> feedback(final(app).config_feedback) == Some(
            Err::<Seq<char>, Seq<char>>(why@),
        ),
        *final(app) == (MyApp { config_feedback: final(app).config_feedback, ..*old(app) }),
{
}

/// A reset brings back every default, unpins the device and says that nothing is
/// saved yet; a connection that is wanted is then asked for of any device.
pub proof fn a_reset_brings_back_the_defaults(app: &mut MyApp, r: Option<BleCommand>)
    requires
        call_ensures(MyApp::reset_config, (app,), r),
    ensures
        is_default_config(final(app).config),
        final(app).config.ble.mac is None,
        final(app).ble_mac_text@.len() == 0,
        feedback(final(app).config_feedback) == Some(
            Ok::<Seq<char>, Seq<char>>("Reset to defaults. Not saved yet."@),
        ),
        r is None <==> old(app).ble_intent == BleIntent::Idle,
        r is Some ==> r->0 is Connect && (r->0)->mac is None && ((r->0)->chase
            <==> old(app).ble_intent == BleIntent::ConnectSleeping),
        final(app).ble_intent == old(app).ble_intent,
        *final(app) == (MyApp {
            config: final(app).config,
            ble_mac_text: final(app).ble_mac_text,
            config_feedback: final(app).config_feedback,
            ..*old(app)
        }),
{
}

/// A radio file that spells a document is in the editor afterwards, with nothing
/// to save, and no edit is left open. One that does not, or that could not be
/// read, leaves the editor's document, and the page names the file and the reason.
pub proof fn a_loaded_radio_file_is_in_the_editor(
    app: &mut MyApp,
    path: &str,
    text: Result<String, String>,
)
    requires
        call_ensures(MyApp::load_radio, (app, path, text), ()),
    ensures
        final(app).radio_edit is Idle,
        text matches Ok(text) ==> {
            &&& parsed_document(text@) matches Ok(doc) ==> {
                &&& final(app).radio is Some
                &&& (final(app).radio->0).doc@ == doc
                &&& (final(app).radio->0).path@ == path@
                &&& !(final(app).radio->0).dirty
                &&& feedback(final(app).radio_feedback) == Some(
                    Ok::<Seq<char>, Seq<char>>("Loaded "@ + path@),
                )
            }
            &&& parsed_document(text@) matches Err(why) ==> {
                &&& final(app).radio == old(app).radio
                &&& feedback(final(app).radio_feedback) == Some(
                    Err::<Seq<char>, Seq<char>>(path@ + ": "@ + why),
                )
            }
        },
        text matches Err(why) ==> {
            &&& final(app).radio == old(app).radio
            &&& feedback(final(app).radio_feedback) == Some(
                Err::<Seq<char>, Seq<char>>(path@ + ": "@ + why@),
            )
        },
        *final(app) == (MyApp {
            radio: final(app).radio,
            radio_feedback: final(app).radio_feedback,
            radio_edit: final(app).radio_edit,
            ..*old(app)
        }),
{
}

/// The firmware's defaults are put into the editor as something still to save.
pub proof fn default_radio_settings_are_still_to_save(app: &mut MyApp, path: &str, example: &str)
    requires
        call_ensures(MyApp::default_radio, (app, path, example), ()),
    ensures
        final(app).radio_edit is Idle,
        parsed_document(example@) matches Ok(doc) ==> {
            &&& final(app).radio is Some
            &&& (final(app).radio->0).doc@ == doc
            &&& (final(app).radio->0).path@ == path@
            &&& (final(app).radio->0).dirty
            &&& feedback(final(app).radio_feedback) == Some(
                Ok::<Seq<char>, Seq<char>>("Default config ready. Press Save to write "@ + path@),
            )
        },
        parsed_document(example@) is Err ==> final(app).radio == old(app).radio,
        *final(app) == (MyApp {
            radio: final(app).radio,
            radio_feedback: final(app).radio_feedback,
            radio_edit: final(app).radio_edit,
            ..*old(app)
        }),
{
}

/// The document is clean after a save exactly where the previous version was kept
/// and the file was written; where either failed it is as unsaved as before, and
/// the page says which. A save never changes what the document holds.
pub proof fn a_save_is_done_once_it_is_written(
    app: &mut MyApp,
    backup: Result<Option<String>, String>,
    written: Result<(), String>,
)
    requires
        call_ensures(MyApp::save_radio, (app, backup, written), ()),
        old(app).radio is Some,
    ensures
        ({
            let (before, after) = (old(app).radio->0, final(app).radio->0);
            let said = feedback(final(app).radio_feedback);
            &&& final(app).radio is Some
            &&& after.doc == before.doc && after.fields == before.fields && after.path
                == before.path
            &&& backup is Ok && written is Ok ==> !after.dirty
            &&& backup is Err || written is Err ==> after.dirty == before.dirty
            &&& backup matches Err(why) ==> said == Some(Err::<Seq<char>, Seq<char>>(why@))
            &&& backup is Ok ==> (written matches Err(why) ==> said == Some(
                Err::<Seq<char>, Seq<char>>(before.path@ + ": "@ + why@),
            ))
            &&& written is Ok ==> {
                &&& backup == Ok::<Option<String>, String>(None) ==> said == Some(
                    Ok::<Seq<char>, Seq<char>>("Saved."@),
                )
                &&& backup matches Ok(Some(name)) ==> said == Some(
                    Ok::<Seq<char>, Seq<char>>("Saved. Backed up previous version as "@ + name@),
                )
            }
        }),
        *final(app) == (MyApp {
            radio: final(app).radio,
            radio_feedback: final(app).radio_feedback,
            ..*old(app)
        }),
{
}

/// Without a document there is nothing to save.
pub proof fn no_document_is_saved(
    app: &mut MyApp,
    backup: Result<Option<String>, String>,
    written: Result<(), String>,
)
    requires
        call_ensures(MyApp::save_radio, (app, backup, written), ()),
        old(app).radio is None,
    ensures
        *final(app) == *old(app),
{
}

/// A backup that spells a document is in the editor afterwards, still to be saved
/// to the file that the editor had; any other leaves the editor's document.
pub proof fn a_restored_backup_is_still_to_save(
    app: &mut MyApp,
    name: &str,
    path: &str,
    text: Result<String, String>,
)
    requires
        call_ensures(MyApp::restore_radio, (app, name, path, text), ()),
    ensures
        final(app).radio_edit is Idle,
        old(app).radio is None ==> final(app).radio is None
            && final(app).radio_feedback == old(app).radio_feedback,
        old(app).radio is Some ==> {
            &&& final(app).radio is Some
            &&& (final(app).radio->0).path == (old(app).radio->0).path
            &&& text matches Ok(text) ==> {
                &&& parsed_document(text@) matches Ok(doc) ==> {
                    &&& (final(app).radio->0).doc@ == doc
                    &&& (final(app).radio->0).dirty
                    &&& feedback(final(app).radio_feedback) == Some(
                        Ok::<Seq<char>, Seq<char>>(
                            "Restored "@ + name@ + " (unsaved - press Save)"@,
                        ),
                    )
                }
                &&& parsed_document(text@) matches Err(why) ==> final(app).radio == old(app).radio
                    && feedback(final(app).radio_feedback) == Some(
                    Err::<Seq<char>, Seq<char>>(path@ + ": "@ + why),
                )
            }
            &&& text matches Err(why) ==> final(app).radio == old(app).radio && feedback(
                final(app).radio_feedback,
            ) == Some(Err::<Seq<char>, Seq<char>>(path@ + ": "@ + why@))
        },
        *final(app) == (MyApp {
            radio: final(app).radio,
            radio_feedback: final(app).radio_feedback,
            radio_edit: final(app).radio_edit,
            ..*old(app)
        }),
{
}

/// A document is written out only where the previous version was kept, and then
/// as it is.
pub proof fn nothing_is_overwritten_unkept(
    doc: RadioDoc,
    backup: Result<Option<String>, String>,
    r: Option<String>,
    text: String,
)
    requires
        call_ensures(RadioDoc::text_to_write, (&doc, &backup), r),
        call_ensures(RadioDoc::to_text, (&doc,), text),
    ensures
        r is None <==> backup is Err,
        r is Some ==> (r->0)@ == text@,
{
}

/// A save of the document reports the backup that was made, or the file and why
/// it could not be written; it is clean in the one case only.
pub proof fn a_written_document_is_clean(
    doc: &mut RadioDoc,
    backup: Option<String>,
    written: Result<(), String>,
    r: Result<Option<String>, String>,
)
    requires
        call_ensures(RadioDoc::save, (doc, backup, written), r),
    ensures
        written is Ok ==> r == Ok::<Option<String>, String>(backup) && !final(doc).dirty,
        written matches Err(why) ==> r is Err && (r->Err_0)@ == old(doc).path@ + ": "@ + why@
            && final(doc).dirty == old(doc).dirty,
        final(doc).doc == old(doc).doc,
        final(doc).fields == old(doc).fields,
        final(doc).path == old(doc).path,
{
}

/// The name of a backup starts with the file's own name and its second, ends as
/// backups do, and is none of the names that are taken; the plain name is used
/// where it is free.
pub proof fn a_backup_takes_no_taken_name(
    stem: Option<&str>,
    stamp: u64,
    taken: Vec<String>,
    r: String,
)
    requires
        call_ensures(RadioDoc::backup_name, (stem, stamp, &taken), r),
    ensures
        ({
            let name = match stem {
                Some(name) => name@,
                None => "RADIO.toml"@,
            };
            let head = name + "."@ + decimal(stamp as nat);
            &&& r@.len() >= head.len() + 4
            &&& r@.take(head.len() as int) == head
            &&& r@.skip(r@.len() - 4) == ".bak"@
            &&& forall|i: int| head.len() <= i < r@.len() - 4 ==> #[trigger] r@[i] == '_'
            &&& forall|i: int| 0 <= i < taken@.len() ==> (#[trigger] taken@[i])@ != r@
            &&& (forall|i: int|
                0 <= i < taken@.len() ==> (#[trigger] taken@[i])@ != head + ".bak"@) ==> r@ == head
                + ".bak"@
        }),
{
    let own = match stem {
        Some(name) => Some(name@),
        None => None,
    };
    let name = match stem {
        Some(name) => name@,
        None => "RADIO.toml"@,
    };
    let head = name + "."@ + decimal(stamp as nat);
    reveal_strlit(".bak");
    let all = texts(taken@);
    let n = choose|n: nat| #[trigger]
        crate::radio::backup_name_of(own, stamp, n) == r@ && !all.contains(r@) && forall|m: nat|
            m < n ==> all.contains(#[trigger] crate::radio::backup_name_of(own, stamp, m));
    assert(r@ == head + crate::radio::marks(n) + ".bak"@);
    assert(r@.take(head.len() as int) =~= head);
    assert(r@.skip(r@.len() - 4) =~= ".bak"@);
    let plain = crate::radio::backup_name_of(own, stamp, 0);
    assert(head + crate::radio::marks(0) =~= head);
    assert(plain == head + ".bak"@);
    if n > 0 {
        assert(all.contains(plain));
        let i = choose|i: int| 0 <= i < all.len() && all[i] == plain;
        assert(taken@[i]@ == plain);
    }
}

/// The list of backups holds every file that is named as one, as often as it is
/// there, and no other, the later name before the earlier.
pub proof fn backups_are_listed_newest_first(names: Vec<String>, r: Vec<String>, i: int, j: int)
    requires
        call_ensures(RadioDoc::backups, (&names,), r),
    ensures
        0 <= i < j < r@.len() ==> !precedes(r@[i]@, r@[j]@),
        0 <= i < names@.len() ==> {
            let name = names@[i]@;
            let backup = name.len() > 4 && name.skip(name.len() - 4) == ".bak"@;
            &&& backup ==> texts(r@).contains(name)
            &&& !backup ==> !texts(r@).contains(name)
        },
        0 <= i < r@.len() ==> texts(names@).contains(r@[i]@),
{
    let pred = |name: Seq<char>| crate::radio::is_backup(name);
    let (all, out) = (texts(names@), texts(r@));
    let kept = all.filter(pred);
    reveal_strlit(".bak");
    kept.to_multiset_ensures();
    out.to_multiset_ensures();
    if 0 <= i < j < r@.len() {
        assert(out[i] == r@[i]@ && out[j] == r@[j]@);
    }
    if 0 <= i < names@.len() {
        let name = names@[i]@;
        assert(all[i] == name);
        assert(out.contains(name) <==> out.to_multiset().count(name) > 0);
        assert(kept.contains(name) <==> kept.to_multiset().count(name) > 0);
        if pred(name) {
            all.lemma_filter_contains(pred, i);
        } else if kept.contains(name) {
            let k = choose|k: int| 0 <= k < kept.len() && kept[k] == name;
            all.lemma_filter_pred(pred, k);
        }
    }
    if 0 <= i < r@.len() {
        let name = out[i];
        assert(name == r@[i]@);
        assert(out.contains(name));
        assert(out.to_multiset().count(name) > 0);
        assert(kept.contains(name));
        all.lemma_filter_contains_rev(pred, name);
    }
}

} // verus!
