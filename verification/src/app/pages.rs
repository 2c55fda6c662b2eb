//! What the other pages decide and show: the points list, the board Status
//! page, the Beacon and Settings controls, the Radio page's edit flow, and the
//! desktop manual-position bar.

use crate::app::{feedback, MyApp, Page, RadioEdit, Reading};
use crate::ble::{BleCommand, ConfigWrite, Position, Telemetry};
use crate::gps::GpsFix;
use crate::points::{lists_newest_first, point_rows, PointSource, TrackPoint};
use crate::radio::{applied, datum_at, edit_start, field_named, listed, EditVal, RadioField};
use crate::reals::{at_least, no_less};
use crate::text::{
    chars_of, decimal, decimal_text, is_white, joined, joined3, lowercase, number_spelled, opt_text,
    parse_u32, same, signed_decimal, signed_text, texts, trim, trimmed, white,
};
use vstd::prelude::*;

verus! {

/// Every page of the menu with its label, in menu order. Drives the page
/// dropdown menu.
pub fn page_items() -> (r: Vec<(Page, &'static str)>)
    ensures
        r@.len() == 6,
        r@[0].0 == Page::MapView && r@[0].1@ == "Map"@,
        r@[1].0 == Page::Points && r@[1].1@ == "Points"@,
        r@[2].0 == Page::Status && r@[2].1@ == "Status"@,
        r@[3].0 == Page::Beacon && r@[3].1@ == "Beacon"@,
        r@[4].0 == Page::Settings && r@[4].1@ == "Settings"@,
        r@[5].0 == Page::Radio && r@[5].1@ == "Radio"@,
{
    vec![
        (Page::MapView, "Map"),
        (Page::Points, "Points"),
        (Page::Status, "Status"),
        (Page::Beacon, "Beacon"),
        (Page::Settings, "Settings"),
        (Page::Radio, "Radio"),
    ]
}

/// The parts of a text between commas and white space, without the empty ones.
/// The last part is kept apart: it is empty where the text ends with a
/// separator.
pub open spec fn words_and_rest(s: Seq<char>) -> (Seq<Seq<char>>, Seq<char>)
    decreases s.len(),
{
    if s.len() == 0 {
        (Seq::empty(), Seq::empty())
    } else {
        let (words, rest) = words_and_rest(s.drop_last());
        let c = s.last();
        if c == ',' || is_white(c) {
            (
                if rest.len() == 0 {
                    words
                } else {
                    words.push(rest)
                },
                Seq::empty(),
            )
        } else {
            (words, rest.push(c))
        }
    }
}

/// The words of a text: its parts between commas and white space.
pub open spec fn words(s: Seq<char>) -> Seq<Seq<char>> {
    let (done, rest) = words_and_rest(s);
    if rest.len() == 0 {
        done
    } else {
        done.push(rest)
    }
}

fn split_words(s: &str) -> (r: Vec<String>)
    ensures
        texts(r@) == words(s@),
{
    let chars = chars_of(s);
    let mut done: Vec<String> = Vec::new();
    let mut rest = String::new();
    let mut i: usize = 0;
    proof {
        assert(chars@.take(0) =~= Seq::empty());
        assert(texts(done@) =~= Seq::empty());
        assert(rest@ =~= Seq::empty());
    }
    while i < chars.len()
        invariant
            chars@ == s@,
            i <= chars@.len(),
            (texts(done@), rest@) == words_and_rest(s@.take(i as int)),
        decreases chars@.len() - i,
    {
        let c = chars[i];
        proof {
            assert(s@.take(i + 1).drop_last() =~= s@.take(i as int));
            assert(s@.take(i + 1).last() == c);
        }
        if c == ',' || white(c) {
            if !rest.as_str().is_empty() {
                let ghost (before, word) = (done@, rest@);
                done.push(rest);
                rest = String::new();
                assert(texts(done@) =~= texts(before).push(word));
            }
            assert(rest@ =~= Seq::empty());
        } else {
            rest.push(c);
        }
        i = i + 1;
    }
    assert(s@.take(s@.len() as int) =~= s@);
    if !rest.as_str().is_empty() {
        let ghost (before, word) = (done@, rest@);
        done.push(rest);
        assert(texts(done@) =~= texts(before).push(word));
    }
    done
}

/// The two words of "lat, lon" or "lat lon", each still to be read as a number.
/// `None` unless there are exactly two.
pub fn lat_lon_words(s: &str) -> (r: Option<(String, String)>)
    ensures
        match r {
            Some((lat, lon)) => words(s@) == seq![lat@, lon@],
            None => words(s@).len() != 2,
        },
{
    let list = split_words(s);
    assert(texts(list@).len() == list@.len());
    if list.len() == 2 {
        let (lat, lon) = (list[0].clone(), list[1].clone());
        assert(texts(list@) =~= seq![lat@, lon@]);
        Some((lat, lon))
    } else {
        None
    }
}

/// A latitude between -90 and 90 degrees and a longitude between -180 and 180.
pub open spec fn on_the_globe(pos: Position) -> bool {
    &&& at_least(pos.lat, 0xc056_8000_0000_0000)
    &&& at_least(0x4056_8000_0000_0000, pos.lat)
    &&& at_least(pos.lon, 0xc066_8000_0000_0000)
    &&& at_least(0x4066_8000_0000_0000, pos.lon)
}

/// Whether a position is within the valid latitude/longitude range.
pub fn is_on_globe(pos: Position) -> (r: bool)
    ensures
        r == on_the_globe(pos),
{
    no_less(pos.lat, 0xc056_8000_0000_0000) && no_less(0x4056_8000_0000_0000, pos.lat) && no_less(
        pos.lon,
        0xc066_8000_0000_0000,
    ) && no_less(0x4066_8000_0000_0000, pos.lon)
}

fn copy_points(points: &Vec<TrackPoint>, out: &mut Vec<TrackPoint>)
    ensures
        final(out)@ == old(out)@ + points@,
{
    let ghost had = out@;
    let mut i: usize = 0;
    proof {
        assert(had + points@.take(0) =~= had);
    }
    while i < points.len()
        invariant
            i <= points@.len(),
            out@ == had + points@.take(i as int),
        decreases points@.len() - i,
    {
        let p = &points[i];
        out.push(
            TrackPoint { pos: p.pos, coords: p.coords.clone(), source: p.source, time: p.time },
        );
        proof {
            assert(had + points@.take(i + 1) =~= (had + points@.take(i as int)).push(
                points@[i as int],
            ));
        }
        i = i + 1;
    }
    assert(points@.take(points@.len() as int) =~= points@);
}

impl MyApp {
    /// Opens a page from the menu.
    pub fn open_page(&mut self, page: Page)
        ensures
            *final(self) == (MyApp { page, ..*old(self) }),
    {
        self.page = page;
    }

    /// Whether the floating corner menu is drawn: on every page but the map,
    /// where it lives at the right end of the controls bar instead.
    pub fn shows_page_toggle(&self) -> (r: bool)
        ensures
            r == (self.page != Page::MapView),
    {
        self.page != Page::MapView
    }

    /// Whether the manual position bar is drawn: with no live GPS source
    /// (desktop) a position can be typed in, on the map page.
    pub fn shows_manual_bar(&self) -> (r: bool)
        ensures
            r == (!self.live_gps && self.page == Page::MapView),
    {
        !self.live_gps && self.page == Page::MapView
    }

    /// Every recorded point: the phone's, then the beacon's.
    pub fn all_points(&self) -> (r: Vec<TrackPoint>)
        ensures
            r@ == self.track@ + self.beacon_track@,
    {
        let mut r: Vec<TrackPoint> = Vec::new();
        copy_points(&self.track, &mut r);
        copy_points(&self.beacon_track, &mut r);
        assert(r@ =~= self.track@ + self.beacon_track@);
        r
    }

    /// The points page: every recorded point, and the places of those that the
    /// filter and the search let through, newest first.
    pub fn points_page(&self) -> (r: (Vec<TrackPoint>, Vec<usize>))
        ensures
            r.0@ == self.track@ + self.beacon_track@,
            lists_newest_first(
                r.1@,
                r.0@,
                self.points_filter,
                lowercase(trimmed(self.points_search@)),
            ),
    {
        let points = self.all_points();
        let rows = point_rows(&points, self.points_filter, self.points_search.as_str());
        (points, rows)
    }

    /// How many of the points are listed, in words.
    pub fn points_count(listed: usize, total: usize) -> (r: String)
        ensures
            r@ == decimal(listed as nat) + " of "@ + decimal(total as nat) + " points"@,
    {
        let mut r = decimal_text(listed as u64);
        r.append(" of ");
        r.append(decimal_text(total as u64).as_str());
        r.append(" points");
        r
    }

    /// Takes a position typed by hand, read as two numbers where it could be. A
    /// valid entry feeds the same pipeline a real fix would, and the map then
    /// follows the position.
    pub fn enter_position(&mut self, entered: Option<Position>, reading: Reading) -> (r: bool)
        ensures
            r == (entered is Some && on_the_globe(entered->0)),
            if r {
                &&& *final(self) == (MyApp {
                    manual_gps_bad: false,
                    current: entered,
                    current_time: Some(reading.time),
                    heading: None,
                    track: final(self).track,
                    ..*old(self)
                })
                &&& crate::app::recorded(
                    old(self).track@,
                    final(self).track@,
                    entered->0,
                    PointSource::Phone,
                    reading,
                    old(self).config.track.min_distance,
                )
            } else {
                *final(self) == (MyApp { manual_gps_bad: true, ..*old(self) })
            },
    {
        match entered {
            Some(pos) => {
                if is_on_globe(pos) {
                    self.manual_gps_bad = false;
                    self.apply_gps_fix(GpsFix { pos, bearing: None }, reading);
                    return true;
                }
            },
            None => {},
        }
        self.manual_gps_bad = true;
        false
    }
}

/// One line of the Status page.
pub enum StatusLine {
    /// A heading, with space above it.
    Heading(String),
    /// A labeled yes or no.
    Flag(&'static str, bool),
    /// Plain text.
    Text(String),
    /// Text in a fixed-width font.
    Fixed(String),
}

/// What a [`StatusLine`] says.
pub enum Line {
    Heading(Seq<char>),
    Flag(Seq<char>, bool),
    Text(Seq<char>),
    Fixed(Seq<char>),
}

impl View for StatusLine {
    type V = Line;

    open spec fn view(&self) -> Line {
        match self {
            StatusLine::Heading(text) => Line::Heading(text@),
            StatusLine::Flag(label, on) => Line::Flag(label@, *on),
            StatusLine::Text(text) => Line::Text(text@),
            StatusLine::Fixed(text) => Line::Fixed(text@),
        }
    }
}

/// What the lines of a list say.
pub open spec fn lines(list: Seq<StatusLine>) -> Seq<Line> {
    list.map_values(|l: StatusLine| l@)
}

/// When the last packet was received, in words.
pub open spec fn last_rx_phrase(secs: u16) -> Seq<char> {
    if secs == 0xFFFF {
        "never"@
    } else {
        decimal(secs as nat) + " s ago"@
    }
}

/// Two decimal digits.
pub open spec fn two_digits(n: int) -> Seq<char> {
    decimal((n / 10) as nat) + decimal((n % 10) as nat)
}

/// Hundredths as a number with two decimals.
pub open spec fn hundredths(n: int) -> Seq<char> {
    let size = if n < 0 {
        -n
    } else {
        n
    };
    let body = decimal((size / 100) as nat) + "."@ + two_digits(size % 100);
    if n < 0 {
        "-"@ + body
    } else {
        body
    }
}

fn hundredths_text(n: i16) -> (r: String)
    ensures
        r@ == hundredths(n as int),
{
    let wide: i32 = n as i32;
    let size: u64 = if wide < 0 {
        (-wide) as u64
    } else {
        wide as u64
    };
    let mut body = decimal_text(size / 100);
    body.append(".");
    let mut two = decimal_text(size % 100 / 10);
    two.append(decimal_text(size % 10).as_str());
    proof {
        assert(size % 100 % 10 == size % 10);
        assert(two@ == two_digits((size % 100) as int));
    }
    body.append(two.as_str());
    if n < 0 {
        joined("-", body.as_str())
    } else {
        body
    }
}

/// The signal line of the Status page.
pub open spec fn signal_phrase(t: Telemetry) -> Seq<char> {
    "RSSI: "@ + signed_decimal(t.last_rssi as int) + " dBm   SNR: "@ + hundredths(
        t.last_snr_cb as int,
    ) + " dB"@
}

/// The lines of the Status page that the board's telemetry fills.
pub open spec fn telemetry_lines(t: Telemetry) -> Seq<Line> {
    seq![
        Line::Heading("GPS"@),
        Line::Flag("Fix"@, t.gps_fix),
        Line::Text("Satellites: "@ + decimal(t.sats as nat)),
        Line::Heading("LoRa"@),
        Line::Text("Last RX: "@ + last_rx_phrase(t.secs_since_rx)),
    ] + (if t.last_rssi != 0 {
        seq![Line::Text(signal_phrase(t))]
    } else {
        seq![]
    }) + seq![
        Line::Text(
            "RX: "@ + decimal(t.rx_count as nat) + "   TX: "@ + decimal(t.tx_count as nat),
        ),
        Line::Heading("WIO-E5"@),
        Line::Flag("SD logging"@, t.sd_ok),
        Line::Flag("Radio config"@, t.cfg_loaded),
    ]
}

/// The Status page.
pub open spec fn status_page_lines(app: MyApp) -> Seq<Line> {
    seq![
        Line::Heading("ESP32-C6 (BLE)"@),
        Line::Flag("Link"@, app.ble_connected),
        Line::Text(app.ble_status@),
    ] + (match app.telemetry {
        Some(t) => telemetry_lines(t),
        None => seq![
            Line::Text(
                "No board telemetry yet.\nWaiting for the esp32c6-gps board (an esp32c3 beacon does not report it)."@,
            ),
        ],
    }) + (match app.board_log {
        Some(line) => seq![Line::Heading("Last message"@), Line::Fixed(line@)],
        None => seq![],
    })
}

fn telemetry_rows(t: &Telemetry) -> (r: Vec<StatusLine>)
    ensures
        lines(r@) == telemetry_lines(*t),
{
    let last_rx = if t.secs_since_rx == 0xFFFF {
        "never".to_owned()
    } else {
        joined(decimal_text(t.secs_since_rx as u64).as_str(), " s ago")
    };
    let mut counts = joined("RX: ", decimal_text(t.rx_count as u64).as_str());
    counts.append("   TX: ");
    counts.append(decimal_text(t.tx_count as u64).as_str());
    let mut r: Vec<StatusLine> = Vec::new();
    r.push(StatusLine::Heading("GPS".to_owned()));
    r.push(StatusLine::Flag("Fix", t.gps_fix));
    r.push(
        StatusLine::Text(joined("Satellites: ", decimal_text(t.sats as u64).as_str())),
    );
    r.push(StatusLine::Heading("LoRa".to_owned()));
    r.push(StatusLine::Text(joined("Last RX: ", last_rx.as_str())));
    if t.last_rssi != 0 {
        let mut signal = joined("RSSI: ", signed_text(t.last_rssi as i64).as_str());
        signal.append(" dBm   SNR: ");
        signal.append(hundredths_text(t.last_snr_cb).as_str());
        signal.append(" dB");
        r.push(StatusLine::Text(signal));
    }
    r.push(StatusLine::Text(counts));
    r.push(StatusLine::Heading("WIO-E5".to_owned()));
    r.push(StatusLine::Flag("SD logging", t.sd_ok));
    r.push(StatusLine::Flag("Radio config", t.cfg_loaded));
    assert(lines(r@) =~= telemetry_lines(*t));
    r
}

impl MyApp {
    /// The status page: board health for the esp32c6-gps board. The BLE link
    /// state comes from the connection itself; the WIO/GPS/LoRa figures come
    /// from the board's telemetry characteristic, and the last line from its
    /// log characteristic.
    pub fn status_page(&self) -> (r: Vec<StatusLine>)
        ensures
            lines(r@) == status_page_lines(*self),
    {
        let mut r: Vec<StatusLine> = Vec::new();
        r.push(StatusLine::Heading("ESP32-C6 (BLE)".to_owned()));
        r.push(StatusLine::Flag("Link", self.ble_connected));
        r.push(StatusLine::Text(self.ble_status.clone()));
        let ghost head = lines(r@);
        match &self.telemetry {
            Some(t) => {
                let mut more = telemetry_rows(t);
                let ghost (a, b) = (r@, more@);
                r.append(&mut more);
                assert(lines(r@) =~= lines(a) + lines(b));
            },
            None => {
                r.push(
                    StatusLine::Text(
                        "No board telemetry yet.\nWaiting for the esp32c6-gps board (an esp32c3 beacon does not report it).".to_owned(),
                    ),
                );
            },
        }
        match &self.board_log {
            Some(line) => {
                r.push(StatusLine::Heading("Last message".to_owned()));
                r.push(StatusLine::Fixed(line.clone()));
            },
            None => {},
        }
        assert(lines(r@) =~= status_page_lines(*self));
        r
    }

    /// The board takes a config write now: there is a connection, and no other
    /// write waits for its ack.
    pub open spec fn takes_writes(&self) -> bool {
        self.ble_connected && !self.ble_ack_pending
    }

    /// Whether the board controls are enabled: one write at a time.
    pub fn can_write(&self) -> (r: bool)
        ensures
            r == self.takes_writes(),
    {
        self.ble_connected && !self.ble_ack_pending
    }

    /// A press of a board control, where it is enabled.
    pub fn request_write(&mut self, write: ConfigWrite) -> (r: Option<BleCommand>)
        ensures
            if old(self).takes_writes() {
                &&& r == Some(BleCommand::Config(write))
                &&& *final(self) == (MyApp { ble_ack: None, ble_ack_pending: true, ..*old(self) })
            } else {
                r is None && *final(self) == *old(self)
            },
    {
        if self.can_write() {
            Some(self.send_config(write))
        } else {
            None
        }
    }

    /// Asks the board for a setting that an input spells, or says why not.
    fn request_typed(&mut self, write: Option<ConfigWrite>, why: &str) -> (r: Option<BleCommand>)
        ensures
            typed_outcome(*old(self), *final(self), r, write, why@),
    {
        if !self.can_write() {
            return None;
        }
        match write {
            Some(write) => Some(self.send_config(write)),
            None => {
                self.ble_ack = Some(Err(why.to_owned()));
                None
            },
        }
    }

    /// The Apply button beside the notify interval.
    pub fn apply_interval(&mut self) -> (r: Option<BleCommand>)
        ensures
            typed_outcome(
                *old(self),
                *final(self),
                r,
                match typed_number(old(self).ble_interval_text@) {
                    Some(ms) => Some(ConfigWrite::Interval(ms)),
                    None => None,
                },
                "Enter a whole number of milliseconds."@,
            ),
    {
        let write = match parse_u32(trim(self.ble_interval_text.as_str()).as_str()) {
            Some(ms) => Some(ConfigWrite::Interval(ms)),
            None => None,
        };
        self.request_typed(write, "Enter a whole number of milliseconds.")
    }

    /// The Apply button beside the wake-check interval, whose setting is `id`.
    pub fn apply_sleep_interval(&mut self, id: u8) -> (r: Option<BleCommand>)
        ensures
            typed_outcome(
                *old(self),
                *final(self),
                r,
                match typed_number(old(self).sleep_interval_text@) {
                    Some(secs) => Some(ConfigWrite::Seconds { id, secs }),
                    None => None,
                },
                "Enter a whole number of seconds."@,
            ),
    {
        let write = match parse_u32(trim(self.sleep_interval_text.as_str()).as_str()) {
            Some(secs) => Some(ConfigWrite::Seconds { id, secs }),
            None => None,
        };
        self.request_typed(write, "Enter a whole number of seconds.")
    }

    /// The Apply button beside the advertising window, whose setting is `id`.
    pub fn apply_adv_window(&mut self, id: u8) -> (r: Option<BleCommand>)
        ensures
            typed_outcome(
                *old(self),
                *final(self),
                r,
                match typed_number(old(self).adv_window_text@) {
                    Some(secs) => Some(ConfigWrite::Seconds { id, secs }),
                    None => None,
                },
                "Enter a whole number of seconds."@,
            ),
    {
        let write = match parse_u32(trim(self.adv_window_text.as_str()).as_str()) {
            Some(secs) => Some(ConfigWrite::Seconds { id, secs }),
            None => None,
        };
        self.request_typed(write, "Enter a whole number of seconds.")
    }

    /// The MAC input changed: a blank one unpins the device.
    pub fn edit_mac(&mut self)
        ensures
            *final(self) == (MyApp {
                config: crate::config::AppConfig {
                    ble: crate::config::BleSettings {
                        mac: final(self).config.ble.mac,
                        ..old(self).config.ble
                    },
                    ..old(self).config
                },
                ..*old(self)
            }),
            opt_text(final(self).config.ble.mac) == if trimmed(old(self).ble_mac_text@).len()
                == 0 {
                None
            } else {
                Some(trimmed(old(self).ble_mac_text@))
            },
    {
        let mac = trim(self.ble_mac_text.as_str());
        self.config.ble.mac = if mac.as_str().is_empty() {
            None
        } else {
            Some(mac)
        };
    }
}

/// The number that an input spells, blanks around it aside, where it is one that
/// a setting can take.
pub open spec fn typed_number(input: Seq<char>) -> Option<u32> {
    match number_spelled(trimmed(input)) {
        Some(n) => if n <= u32::MAX {
            Some(n as u32)
        } else {
            None
        },
        None => None,
    }
}

/// What an Apply button comes to: nothing while it is disabled; the write, where
/// the input spells one; a complaint otherwise.
pub open spec fn typed_outcome(
    before: MyApp,
    after: MyApp,
    r: Option<BleCommand>,
    write: Option<ConfigWrite>,
    why: Seq<char>,
) -> bool {
    if !before.takes_writes() {
        r is None && after == before
    } else {
        match write {
            Some(write) => {
                &&& r == Some(BleCommand::Config(write))
                &&& after == (MyApp { ble_ack: None, ble_ack_pending: true, ..before })
            },
            None => {
                &&& r is None
                &&& after == (MyApp { ble_ack: after.ble_ack, ..before })
                &&& feedback(after.ble_ack) == Some(Err::<Seq<char>, Seq<char>>(why))
            },
        }
    }
}

/// What is shown under the board controls.
pub enum AckLine {
    /// A write waits for its ack.
    Waiting,
    /// The board, or the input check, said this.
    Said(Result<String, String>),
    Nothing,
}

impl MyApp {
    /// What is shown under the board controls.
    pub fn ack_line(&self) -> (r: AckLine)
        ensures
            match self.ble_ack {
                Some(message) => r matches AckLine::Said(m) && crate::app::said(m)
                    == crate::app::said(message),
                None => if self.ble_ack_pending {
                    r is Waiting
                } else {
                    r is Nothing
                },
            },
    {
        match &self.ble_ack {
            Some(Ok(text)) => AckLine::Said(Ok(text.clone())),
            Some(Err(text)) => AckLine::Said(Err(text.clone())),
            None => if self.ble_ack_pending {
                AckLine::Waiting
            } else {
                AckLine::Nothing
            },
        }
    }

    /// The pencil of a field on the Radio page: opens the confirm popup, unless
    /// a field is mid-edit already, so only one field is edited at a time.
    pub fn press_edit(&mut self, section: &str, key: &str)
        ensures
            if old(self).radio_edit is Idle {
                &&& *final(self) == (MyApp { radio_edit: final(self).radio_edit, ..*old(self) })
                &&& final(self).radio_edit matches RadioEdit::Confirm { section: s, key: k } && s@
                    == section@ && k@ == key@
            } else {
                *final(self) == *old(self)
            },
    {
        match self.radio_edit {
            RadioEdit::Idle => {
                self.radio_edit = RadioEdit::Confirm {
                    section: section.to_owned(),
                    key: key.to_owned(),
                };
            },
            _ => {},
        }
    }

    /// The question of the confirm popup.
    pub fn edit_question(key: &str) -> (r: String)
        ensures
            r@ == "Edit \""@ + key@ + "\"?"@,
    {
        joined3("Edit \"", key, "\"?")
    }

    /// Confirms the edit: the field is unlocked, with the value that stands in
    /// the document.
    pub fn confirm_edit(&mut self)
        ensures
            match old(self).radio_edit {
                RadioEdit::Confirm { section, key } => {
                    &&& *final(self) == (MyApp { radio_edit: final(self).radio_edit, ..*old(self) })
                    &&& final(self).radio_edit matches RadioEdit::Active { section: s, key: k, val }
                        && s@ == section@ && k@ == key@ && val@ == match old(self).radio {
                        Some(doc) => edit_start(
                            match field_named(listed(doc.fields@), section@, key@) {
                                Some(field) => Some(field.ty),
                                None => None,
                            },
                            datum_at(doc.rows(), section@, key@),
                        ),
                        None => crate::document::Datum::Text(Seq::empty()),
                    }
                },
                _ => *final(self) == *old(self),
            },
    {
        match &self.radio_edit {
            RadioEdit::Confirm { section, key } => {
                let (section, key) = (section.clone(), key.clone());
                let val = match &self.radio {
                    Some(doc) => doc.edit_val_at(section.as_str(), key.as_str()),
                    None => EditVal::Str(String::new()),
                };
                self.radio_edit = RadioEdit::Active { section, key, val };
            },
            _ => {},
        }
    }

    /// The x of the popup or of the unlocked field.
    pub fn cancel_edit(&mut self)
        ensures
            *final(self) == (MyApp { radio_edit: RadioEdit::Idle, ..*old(self) }),
    {
        self.radio_edit = RadioEdit::Idle;
    }

    /// The check of the unlocked field: writes the value into the document.
    pub fn set_edit(&mut self)
        ensures
            match old(self).radio_edit {
                RadioEdit::Active { section, key, val } => {
                    &&& *final(self) == (MyApp {
                        radio_edit: RadioEdit::Idle,
                        radio: final(self).radio,
                        ..*old(self)
                    })
                    &&& match old(self).radio {
                        None => final(self).radio is None,
                        Some(doc) => {
                            &&& final(self).radio is Some
                            &&& if datum_at(doc.rows(), section@, key@) is Some {
                                &&& final(self).radio->0 == (crate::radio::RadioDoc {
                                    doc: final(self).radio->0.doc,
                                    dirty: true,
                                    ..doc
                                })
                                &&& final(self).radio->0.doc@ == (crate::document::Doc {
                                    rows: applied(doc.rows(), section@, key@, val@),
                                    ..doc.doc@
                                })
                            } else {
                                final(self).radio->0 == doc
                            }
                        },
                    }
                },
                _ => *final(self) == *old(self),
            },
    {
        let mut edit = RadioEdit::Idle;
        std::mem::swap(&mut edit, &mut self.radio_edit);
        match edit {
            RadioEdit::Active { section, key, val } => {
                let mut radio = None;
                std::mem::swap(&mut radio, &mut self.radio);
                match radio {
                    Some(doc) => {
                        let mut doc = doc;
                        doc.apply(section.as_str(), key.as_str(), &val);
                        self.radio = Some(doc);
                    },
                    None => {},
                }
            },
            other => {
                self.radio_edit = other;
            },
        }
    }

    /// What the Radio page's save button says.
    pub fn radio_save_label(&self) -> (r: &'static str)
        ensures
            r@ == if self.radio is Some && self.radio->0.dirty {
                "Save *"@
            } else {
                "Save"@
            },
    {
        let dirty = match &self.radio {
            Some(doc) => doc.dirty,
            None => false,
        };
        if dirty {
            "Save *"
        } else {
            "Save"
        }
    }
}

/// The heading above a field of the Radio page, where a new section begins.
pub fn field_heading(fields: &Vec<RadioField>, i: usize) -> (r: Option<String>)
    requires
        i < fields@.len(),
    ensures
        ({
            let section = fields@[i as int].section@;
            if i > 0 && fields@[i - 1].section@ == section {
                r is None
            } else {
                r is Some && r->0@ == if section.len() == 0 {
                    "general"@
                } else {
                    section
                }
            }
        }),
{
    let section = fields[i].section.as_str();
    if i > 0 && same(fields[i - 1].section.as_str(), section) {
        None
    } else if section.is_empty() {
        Some("general".to_owned())
    } else {
        Some(section.to_owned())
    }
}

} // verus!
