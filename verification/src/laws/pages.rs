//! The other pages: typed positions and numbers, the Status page, the board
//! controls and the Radio page's edit flow.

use crate::app::pages::{
    field_heading, lat_lon_words, lines, page_items, words, words_and_rest, AckLine, Line,
    StatusLine,
};
use crate::app::{feedback, said, MyApp, Page};
use crate::ble::{BleCommand, ConfigWrite, Telemetry};
use crate::laws::radios::{holds, is_field, is_of};
use crate::document::{around_of, fresh, is_value, Node};
use crate::radio::RadioField;
use crate::text::{decimal, is_white, numbers_read_back, parse_u32, trim};
use vstd::prelude::*;

verus! {

/// A character that parts the two numbers of a position: a comma or white space.
pub open spec fn parts(c: char) -> bool {
    c == ',' || is_white(c)
}

/// A text of separators only.
pub open spec fn is_gap(s: Seq<char>) -> bool {
    forall|i: int| 0 <= i < s.len() ==> parts(#[trigger] s[i])
}

/// A text without separators that is not empty.
pub open spec fn is_word(s: Seq<char>) -> bool {
    s.len() > 0 && forall|i: int| 0 <= i < s.len() ==> !parts(#[trigger] s[i])
}

/// A text is two words with separators between them, and perhaps around them.
pub open spec fn is_pair(s: Seq<char>, lat: Seq<char>, lon: Seq<char>) -> bool {
    exists|a: Seq<char>, b: Seq<char>, c: Seq<char>|
        is_gap(a) && is_gap(b) && is_gap(c) && b.len() > 0 && is_word(lat) && is_word(lon) && s
            == #[trigger] (a + lat + b + lon + c)
}

proof fn lemma_gap(s: Seq<char>, gap: Seq<char>)
    requires
        is_gap(gap),
    ensures
        ({
            let (done, rest) = words_and_rest(s);
            words_and_rest(s + gap) == if gap.len() == 0 || rest.len() == 0 {
                (done, rest)
            } else {
                (done.push(rest), Seq::empty())
            }
        }),
    decreases gap.len(),
{
    if gap.len() == 0 {
        assert(s + gap =~= s);
    } else {
        let fewer = gap.drop_last();
        assert forall|i: int| 0 <= i < fewer.len() implies parts(#[trigger] fewer[i]) by {
            assert(fewer[i] == gap[i]);
        }
        lemma_gap(s, fewer);
        assert((s + gap).drop_last() =~= s + fewer);
        assert((s + gap).last() == gap[gap.len() - 1]);
        let (done, rest) = words_and_rest(s);
        assert(rest.len() == 0 ==> rest =~= Seq::<char>::empty());
    }
}

proof fn lemma_word(s: Seq<char>, word: Seq<char>)
    requires
        forall|i: int| 0 <= i < word.len() ==> !parts(#[trigger] word[i]),
    ensures
        words_and_rest(s + word) == (words_and_rest(s).0, words_and_rest(s).1 + word),
    decreases word.len(),
{
    let (done, rest) = words_and_rest(s);
    if word.len() == 0 {
        assert(s + word =~= s);
        assert(rest + word =~= rest);
    } else {
        let fewer = word.drop_last();
        assert forall|i: int| 0 <= i < fewer.len() implies !parts(#[trigger] fewer[i]) by {
            assert(fewer[i] == word[i]);
        }
        lemma_word(s, fewer);
        assert((s + word).drop_last() =~= s + fewer);
        assert((s + word).last() == word[word.len() - 1]);
        assert((rest + fewer).push(word.last()) =~= rest + word);
    }
}

/// The gaps that a text of at most two words has before, between and behind them.
proof fn lemma_gaps(s: Seq<char>) -> (r: (Seq<char>, Seq<char>, Seq<char>))
    ensures
        ({
            let (done, rest) = words_and_rest(s);
            let (a, b, c) = r;
            &&& forall|i: int| 0 <= i < done.len() ==> is_word(#[trigger] done[i])
            &&& rest.len() > 0 ==> is_word(rest)
            &&& is_gap(a) && is_gap(b) && is_gap(c)
            &&& done.len() == 0 ==> s == a + rest
            &&& done.len() == 1 ==> b.len() > 0 && s == a + done[0] + b + rest
            &&& done.len() == 2 && rest.len() == 0 ==> b.len() > 0 && s == a + done[0] + b
                + done[1] + c
        }),
    decreases s.len(),
{
    let none = Seq::<char>::empty();
    if s.len() == 0 {
        assert(s =~= none + none);
        (none, none, none)
    } else {
        let last = s.last();
        let (a, b, c) = lemma_gaps(s.drop_last());
        let (had, before) = words_and_rest(s.drop_last());
        let (done, rest) = words_and_rest(s);
        assert(s =~= s.drop_last().push(last));
        if parts(last) {
            if before.len() == 0 {
                if had.len() == 0 {
                    assert(s =~= a.push(last) + rest);
                    (a.push(last), b, c)
                } else if had.len() == 1 {
                    assert(s =~= a + done[0] + b.push(last) + rest);
                    (a, b.push(last), c)
                } else {
                    if had.len() == 2 {
                        assert(s =~= a + done[0] + b + done[1] + c.push(last));
                    }
                    (a, b, c.push(last))
                }
            } else {
                if had.len() == 0 {
                    let gap = seq![last];
                    assert(s =~= a + done[0] + gap + rest);
                    (a, gap, c)
                } else {
                    let gap = seq![last];
                    if had.len() == 1 {
                        assert(s =~= a + done[0] + b + done[1] + gap);
                    }
                    (a, b, gap)
                }
            }
        } else {
            assert forall|i: int| 0 <= i < rest.len() implies !parts(#[trigger] rest[i]) by {
                if i < before.len() {
                    assert(rest[i] == before[i]);
                }
            }
            if had.len() == 0 {
                assert(s =~= a + rest);
            } else if had.len() == 1 {
                assert(s =~= a + done[0] + b + rest);
            }
            (a, b, c)
        }
    }
}

/// A typed position is read as two words, latitude first, wherever the text is
/// two words with commas or white space between them, however many and whatever
/// stands around them; in no other case are there two.
pub proof fn a_position_is_two_words(
    s: &str,
    r: Option<(String, String)>,
    lat: Seq<char>,
    lon: Seq<char>,
)
    requires
        call_ensures(lat_lon_words, (s,), r),
    ensures
        is_pair(s@, lat, lon) ==> r is Some && (r->0).0@ == lat && (r->0).1@ == lon,
        r is Some ==> is_pair(s@, (r->0).0@, (r->0).1@),
{
    if is_pair(s@, lat, lon) {
        let (a, b, c) = choose|a: Seq<char>, b: Seq<char>, c: Seq<char>|
            is_gap(a) && is_gap(b) && is_gap(c) && b.len() > 0 && is_word(lat) && is_word(lon)
                && s@ == #[trigger] (a + lat + b + lon + c);
        let none = Seq::<char>::empty();
        lemma_gap(none, a);
        assert(none + a =~= a);
        lemma_word(a, lat);
        assert(none + lat =~= lat);
        lemma_gap(a + lat, b);
        lemma_word(a + lat + b, lon);
        assert(none + lon =~= lon);
        lemma_gap(a + lat + b + lon, c);
        assert(words(s@) =~= seq![lat, lon]);
        assert(words(s@)[0] == lat && words(s@)[1] == lon);
    }
    if r is Some {
        let (x, y) = ((r->0).0@, (r->0).1@);
        let (a, b, c) = lemma_gaps(s@);
        let (done, rest) = words_and_rest(s@);
        assert(words(s@)[0] == x && words(s@)[1] == y);
        if rest.len() == 0 {
            assert(done == words(s@));
            assert(s@ == a + x + b + y + c);
        } else {
            assert(words(s@) == done.push(rest));
            assert(done.push(rest).len() == 2);
            assert(done[0] == words(s@)[0]);
            let none = Seq::<char>::empty();
            assert(s@ =~= a + x + b + y + none);
        }
    }
}

/// The menu holds six pages, each once, in their order and under their names.
pub proof fn the_menu_holds_every_page_once(r: Vec<(Page, &'static str)>)
    requires
        call_ensures(page_items, (), r),
    ensures
        r@.len() == 6,
        forall|i: int, j: int|
            0 <= i < j < r@.len() ==> (#[trigger] r@[i]).0 != (#[trigger] r@[j]).0,
        r@[0].0 == Page::MapView && r@[0].1@ == "Map"@,
        r@[1].0 == Page::Points && r@[1].1@ == "Points"@,
        r@[2].0 == Page::Status && r@[2].1@ == "Status"@,
        r@[3].0 == Page::Beacon && r@[3].1@ == "Beacon"@,
        r@[4].0 == Page::Settings && r@[4].1@ == "Settings"@,
        r@[5].0 == Page::Radio && r@[5].1@ == "Radio"@,
{
}

/// An opened page is the one that is shown. The corner menu is on every page but
/// the map; the manual position bar is on the map only, and only without a live
/// GPS.
pub proof fn an_opened_page_is_shown(
    app: &mut MyApp,
    page: Page,
    after: MyApp,
    toggle: bool,
    bar: bool,
)
    requires
        call_ensures(MyApp::open_page, (app, page), ()),
        after == *final(app),
        call_ensures(MyApp::shows_page_toggle, (&after,), toggle),
        call_ensures(MyApp::shows_manual_bar, (&after,), bar),
    ensures
        final(app).page == page,
        toggle <==> page != Page::MapView,
        bar <==> page == Page::MapView && !old(app).live_gps,
        *final(app) == (MyApp { page: final(app).page, ..*old(app) }),
{
}

/// The count under the points list names both numbers, the listed one first.
pub proof fn the_count_names_both_numbers(listed: usize, total: usize, r: String)
    requires
        call_ensures(MyApp::points_count, (listed, total), r),
    ensures
        r@ == decimal(listed as nat) + " of "@ + decimal(total as nat) + " points"@,
{
}

/// The Status page starts with the link: whether it is up, and what the worker
/// said last. Without telemetry it says so and shows no figure. It ends with the
/// board's last message, where there is one.
pub proof fn the_status_page_starts_with_the_link(app: MyApp, r: Vec<StatusLine>)
    requires
        call_ensures(MyApp::status_page, (&app,), r),
    ensures
        ({
            let page = lines(r@);
            let tail: int = if app.board_log is Some {
                2
            } else {
                0
            };
            &&& page.len() >= 4 + tail
            &&& page[0] == Line::Heading("ESP32-C6 (BLE)"@)
            &&& page[1] == Line::Flag("Link"@, app.ble_connected)
            &&& page[2] == Line::Text(app.ble_status@)
            &&& app.telemetry is None ==> page.len() == 4 + tail && page[3] == Line::Text(
                "No board telemetry yet.\nWaiting for the esp32c6-gps board (an esp32c3 beacon does not report it)."@,
            )
            &&& app.board_log is Some ==> page.last() == Line::Fixed(app.board_log->0@)
                && page[page.len() - 2] == Line::Heading("Last message"@)
        }),
{
}

/// With telemetry the Status page shows the board's figures, each under its own
/// name: the fix and the satellites, when a packet was last received, the signal
/// where one was measured, the counts, and the two flags of the WIO-E5.
pub proof fn the_status_page_shows_the_telemetry(app: MyApp, t: Telemetry, r: Vec<StatusLine>)
    requires
        call_ensures(MyApp::status_page, (&app,), r),
        app.telemetry == Some(t),
    ensures
        ({
            let page = lines(r@);
            let more: int = if t.last_rssi != 0 {
                1
            } else {
                0
            };
            let tail: int = if app.board_log is Some {
                2
            } else {
                0
            };
            &&& page.len() == 12 + more + tail
            &&& page[3] == Line::Heading("GPS"@)
            &&& page[4] == Line::Flag("Fix"@, t.gps_fix)
            &&& page[5] == Line::Text("Satellites: "@ + decimal(t.sats as nat))
            &&& page[6] == Line::Heading("LoRa"@)
            &&& t.secs_since_rx == 0xffff ==> page[7] == Line::Text("Last RX: "@ + "never"@)
            &&& t.secs_since_rx < 0xffff ==> page[7] == Line::Text(
                "Last RX: "@ + (decimal(t.secs_since_rx as nat) + " s ago"@),
            )
            &&& page[8 + more] == Line::Text(
                "RX: "@ + decimal(t.rx_count as nat) + "   TX: "@ + decimal(t.tx_count as nat),
            )
            &&& page[9 + more] == Line::Heading("WIO-E5"@)
            &&& page[10 + more] == Line::Flag("SD logging"@, t.sd_ok)
            &&& page[11 + more] == Line::Flag("Radio config"@, t.cfg_loaded)
        }),
{
}

/// The signal line shows the strength in whole decibels and the ratio with two
/// decimals, each with its sign.
pub proof fn the_signal_is_shown_with_its_sign(
    app: MyApp,
    t: Telemetry,
    r: Vec<StatusLine>,
    whole: nat,
    tenth: nat,
    hundredth: nat,
)
    requires
        call_ensures(MyApp::status_page, (&app,), r),
        app.telemetry == Some(t),
        t.last_rssi != 0,
        tenth < 10,
        hundredth < 10,
        t.last_snr_cb as int == 100 * whole + 10 * tenth + hundredth || t.last_snr_cb as int == -(
        100 * whole + 10 * tenth + hundredth),
    ensures
        ({
            let strength = if t.last_rssi < 0 {
                seq!['-'] + decimal((-t.last_rssi) as nat)
            } else {
                decimal(t.last_rssi as nat)
            };
            let size = decimal(whole) + "."@ + (decimal(tenth) + decimal(hundredth));
            let ratio = if t.last_snr_cb < 0 {
                "-"@ + size
            } else {
                size
            };
            lines(r@)[8] == Line::Text(
                "RSSI: "@ + strength + " dBm   SNR: "@ + ratio + " dB"@,
            )
        }),
{
    let size = 100 * whole + 10 * tenth + hundredth;
    assert(size / 100 == whole);
    assert(size % 100 == 10 * tenth + hundredth);
    assert((10 * tenth + hundredth) / 10 == tenth);
    assert((10 * tenth + hundredth) % 10 == hundredth);
}

/// A board control sends its write where there is a connection and no other write
/// is waited for, and does nothing otherwise.
pub proof fn one_write_at_a_time(
    app: &mut MyApp,
    write: ConfigWrite,
    able: bool,
    r: Option<BleCommand>,
)
    requires
        call_ensures(MyApp::can_write, (&*app,), able),
        call_ensures(MyApp::request_write, (app, write), r),
    ensures
        able <==> old(app).ble_connected && !old(app).ble_ack_pending,
        able ==> r == Some(BleCommand::Config(write)) && final(app).ble_ack_pending
            && final(app).ble_ack is None,
        !able ==> r is None && *final(app) == *old(app),
        *final(app) == (MyApp {
            ble_ack: final(app).ble_ack,
            ble_ack_pending: final(app).ble_ack_pending,
            ..*old(app)
        }),
{
}

/// A typed number is written as it was typed, blanks around it aside: the notify
/// interval as milliseconds, the other two as seconds of the setting they were
/// named for. What is no number is complained about and not sent, and nothing is
/// sent while the board takes no write.
pub proof fn a_typed_number_is_written(
    interval: &mut MyApp,
    sleep: &mut MyApp,
    window: &mut MyApp,
    id: u8,
    input: &str,
    digits: String,
    typed: &str,
    number: Option<u32>,
    a: Option<BleCommand>,
    b: Option<BleCommand>,
    c: Option<BleCommand>,
)
    requires
        call_ensures(MyApp::apply_interval, (interval,), a),
        call_ensures(MyApp::apply_sleep_interval, (sleep, id), b),
        call_ensures(MyApp::apply_adv_window, (window, id), c),
        call_ensures(trim, (input,), digits),
        typed@ == digits@,
        call_ensures(parse_u32, (typed,), number),
    ensures
        old(interval).ble_interval_text@ == input@ ==> {
            let able = old(interval).ble_connected && !old(interval).ble_ack_pending;
            &&& a is Some <==> able && number is Some
            &&& a is Some ==> a == Some(BleCommand::Config(ConfigWrite::Interval(number->0)))
                && final(interval).ble_ack_pending
            &&& !able ==> *final(interval) == *old(interval)
            &&& able && number is None ==> feedback(final(interval).ble_ack) == Some(
                Err::<Seq<char>, Seq<char>>("Enter a whole number of milliseconds."@),
            ) && !final(interval).ble_ack_pending
        },
        old(sleep).sleep_interval_text@ == input@ ==> {
            let able = old(sleep).ble_connected && !old(sleep).ble_ack_pending;
            &&& b is Some <==> able && number is Some
            &&& b is Some ==> b == Some(
                BleCommand::Config(ConfigWrite::Seconds { id, secs: number->0 }),
            ) && final(sleep).ble_ack_pending
            &&& !able ==> *final(sleep) == *old(sleep)
            &&& able && number is None ==> feedback(final(sleep).ble_ack) == Some(
                Err::<Seq<char>, Seq<char>>("Enter a whole number of seconds."@),
            ) && !final(sleep).ble_ack_pending
        },
        old(window).adv_window_text@ == input@ ==> {
            let able = old(window).ble_connected && !old(window).ble_ack_pending;
            &&& c is Some <==> able && number is Some
            &&& c is Some ==> c == Some(
                BleCommand::Config(ConfigWrite::Seconds { id, secs: number->0 }),
            ) && final(window).ble_ack_pending
            &&& !able ==> *final(window) == *old(window)
            &&& able && number is None ==> feedback(final(window).ble_ack) == Some(
                Err::<Seq<char>, Seq<char>>("Enter a whole number of seconds."@),
            ) && !final(window).ble_ack_pending
        },
{
}

/// The number that the board reported, left in its input, asks the board for
/// that very number.
pub proof fn an_untouched_input_asks_for_the_same(
    interval: &mut MyApp,
    sleep: &mut MyApp,
    window: &mut MyApp,
    id: u8,
    n: u32,
    a: Option<BleCommand>,
    b: Option<BleCommand>,
    c: Option<BleCommand>,
)
    requires
        call_ensures(MyApp::apply_interval, (interval,), a),
        call_ensures(MyApp::apply_sleep_interval, (sleep, id), b),
        call_ensures(MyApp::apply_adv_window, (window, id), c),
        old(interval).ble_interval_text@ == decimal(n as nat),
        old(sleep).sleep_interval_text@ == decimal(n as nat),
        old(window).adv_window_text@ == decimal(n as nat),
    ensures
        old(interval).ble_connected && !old(interval).ble_ack_pending ==> a == Some(
            BleCommand::Config(ConfigWrite::Interval(n)),
        ),
        old(sleep).ble_connected && !old(sleep).ble_ack_pending ==> b == Some(
            BleCommand::Config(ConfigWrite::Seconds { id, secs: n }),
        ),
        old(window).ble_connected && !old(window).ble_ack_pending ==> c == Some(
            BleCommand::Config(ConfigWrite::Seconds { id, secs: n }),
        ),
{
    let s = decimal(n as nat);
    numbers_read_back(n as nat);
    let digits = crate::text::without_plus(s);
    assert(crate::text::is_digit(digits[0]));
    assert(crate::text::is_digit(digits[digits.len() - 1]));
    assert(digits.last() == s.last());
    crate::text::trimmed_already(s);
}

/// The MAC input pins what it holds, without the blanks around it, and a blank
/// one unpins. No other setting changes.
pub proof fn the_mac_input_pins(app: &mut MyApp, input: &str, mac: String)
    requires
        call_ensures(MyApp::edit_mac, (app,), ()),
        input@ == old(app).ble_mac_text@,
        call_ensures(trim, (input,), mac),
    ensures
        mac@.len() == 0 ==> final(app).config.ble.mac is None,
        mac@.len() > 0 ==> final(app).config.ble.mac is Some && (final(app).config.ble.mac->0)@
            == mac@,
        final(app).config.colors == old(app).config.colors,
        final(app).config.sizes == old(app).config.sizes,
        final(app).config.distance == old(app).config.distance,
        final(app).config.track == old(app).config.track,
        final(app).config.ble.enabled == old(app).config.ble.enabled,
        final(app).config.ble.show_path == old(app).config.ble.show_path,
        *final(app) == (MyApp { config: final(app).config, ..*old(app) }),
{
}

/// Under the board controls stands what was said last; while a write is waited
/// for and nothing was said yet, that; otherwise nothing.
pub proof fn the_line_shows_what_was_said(app: MyApp, r: AckLine)
    requires
        call_ensures(MyApp::ack_line, (&app,), r),
    ensures
        app.ble_ack is Some <==> r is Said,
        r is Said ==> feedback(app.ble_ack) == Some(said(r->Said_0)),
        r is Waiting <==> app.ble_ack is None && app.ble_ack_pending,
        r is Nothing <==> app.ble_ack is None && !app.ble_ack_pending,
{
}

/// The pencil asks about its own field, and only while no other field is being
/// edited.
pub proof fn one_field_is_edited_at_a_time(
    app: &mut MyApp,
    section: &str,
    key: &str,
    question: String,
)
    requires
        call_ensures(MyApp::press_edit, (app, section, key), ()),
        call_ensures(MyApp::edit_question, (key,), question),
    ensures
        old(app).radio_edit is Idle ==> final(app).radio_edit is Confirm
            && final(app).radio_edit->Confirm_section@ == section@
            && final(app).radio_edit->Confirm_key@ == key@,
        !(old(app).radio_edit is Idle) ==> *final(app) == *old(app),
        question@ == "Edit \""@ + key@ + "\"?"@,
        *final(app) == (MyApp { radio_edit: final(app).radio_edit, ..*old(app) }),
{
}

/// A confirmed edit is of the field that was asked about, and starts from the
/// very value that stands there, where it is of the field's kind.
pub proof fn an_edit_starts_from_the_value(
    app: &mut MyApp,
    i: int,
    node: Node,
)
    requires
        call_ensures(MyApp::confirm_edit, (app,), ()),
        old(app).radio_edit is Confirm,
        old(app).radio is Some,
        is_field(
            (old(app).radio->0).fields@,
            i,
            old(app).radio_edit->Confirm_section@,
            old(app).radio_edit->Confirm_key@,
        ),
        holds(
            (old(app).radio->0).doc@,
            old(app).radio_edit->Confirm_section@,
            old(app).radio_edit->Confirm_key@,
            node,
        ),
        node is Scalar,
    ensures
        final(app).radio_edit is Active,
        final(app).radio_edit->Active_section@ == old(app).radio_edit->Confirm_section@,
        final(app).radio_edit->Active_key@ == old(app).radio_edit->Confirm_key@,
        is_of(node->Scalar_0, (old(app).radio->0).fields@[i].ty) ==> final(app).radio_edit->val@
            == node->Scalar_0,
        *final(app) == (MyApp { radio_edit: final(app).radio_edit, ..*old(app) }),
{
    let doc = old(app).radio->0;
    let (section, key) = (
        old(app).radio_edit->Confirm_section@,
        old(app).radio_edit->Confirm_key@,
    );
    crate::laws::radios::lemma_holds(doc.doc@, section, key, node);
    crate::laws::radios::lemma_field(doc.fields@, i, section, key);
}

/// Only a question can be confirmed.
pub proof fn only_a_question_is_confirmed(app: &mut MyApp)
    requires
        call_ensures(MyApp::confirm_edit, (app,), ()),
        !(old(app).radio_edit is Confirm),
    ensures
        *final(app) == *old(app),
{
}

/// A cancelled edit leaves the document as it is.
pub proof fn a_cancelled_edit_changes_nothing(app: &mut MyApp)
    requires
        call_ensures(MyApp::cancel_edit, (app,), ()),
    ensures
        final(app).radio_edit is Idle,
        final(app).radio == old(app).radio,
        *final(app) == (MyApp { radio_edit: final(app).radio_edit, ..*old(app) }),
{
}

/// A committed edit is in the document: the edited value stands where it was
/// edited, no other value says anything else, and there is something to save.
pub proof fn a_committed_edit_is_in_the_document(
    app: &mut MyApp,
    node: Node,
    other_section: Seq<char>,
    other_key: Seq<char>,
    other: Node,
)
    requires
        call_ensures(MyApp::set_edit, (app,), ()),
        old(app).radio_edit is Active,
        old(app).radio is Some,
        holds(
            (old(app).radio->0).doc@,
            old(app).radio_edit->Active_section@,
            old(app).radio_edit->Active_key@,
            node,
        ),
        is_value(node),
        is_value(other),
        other_section != old(app).radio_edit->Active_section@
            || other_key != old(app).radio_edit->Active_key@,
    ensures
        final(app).radio_edit is Idle,
        final(app).radio is Some,
        (final(app).radio->0).dirty,
        holds(
            (final(app).radio->0).doc@,
            old(app).radio_edit->Active_section@,
            old(app).radio_edit->Active_key@,
            Node::Scalar(old(app).radio_edit->val@, fresh(around_of(node))),
        ),
        holds((old(app).radio->0).doc@, other_section, other_key, other) <==> holds(
            (final(app).radio->0).doc@,
            other_section,
            other_key,
            other,
        ),
        (final(app).radio->0).fields == (old(app).radio->0).fields,
        (final(app).radio->0).path == (old(app).radio->0).path,
        *final(app) == (MyApp {
            radio_edit: final(app).radio_edit,
            radio: final(app).radio,
            ..*old(app)
        }),
{
    let (before, after) = ((old(app).radio->0).doc@, (final(app).radio->0).doc@);
    let (section, key, val) = (
        old(app).radio_edit->Active_section@,
        old(app).radio_edit->Active_key@,
        old(app).radio_edit->val@,
    );
    let new = Node::Scalar(val, fresh(around_of(node)));
    crate::laws::radios::lemma_holds(before, section, key, node);
    crate::laws::radios::lemma_holds(after, section, key, new);
    crate::laws::radios::lemma_holds(before, other_section, other_key, other);
    crate::laws::radios::lemma_holds(after, other_section, other_key, other);
    crate::radio::apply_changes_one_value(
        before.rows,
        section,
        key,
        val,
        other_section,
        other_key,
    );
}

/// Only an open edit can be committed.
pub proof fn only_an_open_edit_is_committed(app: &mut MyApp)
    requires
        call_ensures(MyApp::set_edit, (app,), ()),
        !(old(app).radio_edit is Active),
    ensures
        *final(app) == *old(app),
{
}

/// The save button is marked exactly while there is something to save.
pub proof fn the_save_button_is_marked_while_unsaved(app: MyApp, r: &str)
    requires
        call_ensures(MyApp::radio_save_label, (&app,), r),
    ensures
        app.radio is Some && (app.radio->0).dirty ==> r@ == "Save *"@,
        app.radio is None || !(app.radio->0).dirty ==> r@ == "Save"@,
{
}

/// A heading stands above the first field of each section, and above no other; it
/// names the section, and the fields of none as general.
pub proof fn a_heading_starts_its_section(fields: Vec<RadioField>, i: usize, r: Option<String>)
    requires
        call_ensures(field_heading, (&fields, i), r),
        i < fields@.len(),
    ensures
        i == 0 ==> r is Some,
        i > 0 ==> (r is Some <==> fields@[i as int].section@ != fields@[i - 1].section@),
        r is Some && fields@[i as int].section@.len() > 0 ==> (r->0)@ == fields@[i as int].section@,
        r is Some && fields@[i as int].section@.len() == 0 ==> (r->0)@ == "general"@,
{
}

} // verus!
