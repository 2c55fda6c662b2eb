//! The application's own settings: marker colors, overlay sizes, the beacon
//! distance read-out, track recording, and the BLE beacon.
//!
//! Every setting is optional in the file; one that is missing keeps its
//! default. Real numbers are held as their IEEE 754 bit patterns.

pub use crate::names::normalize_mac;
use crate::names::{key_of_key_is_itself, normal_mac, NameTable};
use crate::text::{
    chars_of, digit, hex_digit, is_hex_digit, is_white, joined, joined3, lowercase, opt_text,
    quote, quoted, same, spelled, spells, to_lowercase, trim, trimmed, trimmed_already,
    trimming_twice,
};
use vstd::prelude::*;

verus! {

/// A color as its three channels.
#[derive(Clone, Copy, PartialEq, Eq, Debug, Structural)]
pub struct Rgb {
    pub r: u8,
    pub g: u8,
    pub b: u8,
}

/// Colors used to draw the map markers.
#[derive(Clone, Copy, PartialEq, Eq, Debug, Structural)]
pub struct MarkerColors {
    /// Track polyline, heading arrow, and the current-position dot.
    pub track: Rgb,
    /// BLE beacon marker, the line drawn to it, and its path.
    pub fixed: Rgb,
}

/// The colors of a fresh installation.
pub open spec fn default_colors() -> MarkerColors {
    MarkerColors { track: Rgb { r: 0, g: 120, b: 255 }, fixed: Rgb { r: 255, g: 80, b: 40 } }
}

impl Default for MarkerColors {
    fn default() -> (r: Self)
        ensures
            r == default_colors(),
    {
        MarkerColors { track: Rgb { r: 0, g: 120, b: 255 }, fixed: Rgb { r: 255, g: 80, b: 40 } }
    }
}

/// Sizes, in screen points, for the drawn map overlays, as single-precision bit
/// patterns. Each is independent so the markers, lines, and label can be tuned
/// separately.
#[derive(Clone, Copy, PartialEq, Eq, Debug, Structural)]
pub struct MarkerSizes {
    /// Radius of the current-position dot.
    pub marker: u32,
    /// Radius of the BLE beacon dot.
    pub beacon: u32,
    /// Width of the recorded track polylines (phone track and beacon path).
    pub track: u32,
    /// Width of the line drawn from the current position to the beacon.
    pub distance_line: u32,
    /// Font size of the distance label drawn on that line.
    pub distance_text: u32,
}

/// The sizes of a fresh installation: 8, 6, 3, 3 and 14 points.
pub open spec fn default_sizes() -> MarkerSizes {
    MarkerSizes {
        marker: 0x4100_0000,
        beacon: 0x40c0_0000,
        track: 0x4040_0000,
        distance_line: 0x4040_0000,
        distance_text: 0x4160_0000,
    }
}

impl Default for MarkerSizes {
    fn default() -> (r: Self)
        ensures
            r == default_sizes(),
    {
        MarkerSizes {
            marker: 0x4100_0000,
            beacon: 0x40c0_0000,
            track: 0x4040_0000,
            distance_line: 0x4040_0000,
            distance_text: 0x4160_0000,
        }
    }
}

/// Unit system for the beacon-distance label.
#[derive(Clone, Copy, PartialEq, Eq, Debug, Structural)]
pub enum DistanceUnits {
    /// Kilometers and meters.
    Metric,
    /// Miles and feet.
    Imperial,
}

/// The unit system that a word names, in any case.
pub open spec fn units_named(word: Seq<char>) -> Option<DistanceUnits> {
    if spells(word, "metric"@) || spells(word, "km"@) || spells(word, "km/m"@) || spells(
        word,
        "m"@,
    ) {
        Some(DistanceUnits::Metric)
    } else if spells(word, "imperial"@) || spells(word, "mi"@) || spells(word, "mi/ft"@) || spells(
        word,
        "ft"@,
    ) {
        Some(DistanceUnits::Imperial)
    } else {
        None
    }
}

/// The message for a unit system that nothing is called.
pub open spec fn bad_units(s: Seq<char>) -> Seq<char> {
    "invalid distance.units "@ + quoted(lowercase(trimmed(s)))
        + ", expected \"metric\" or \"imperial\""@
}

impl DistanceUnits {
    /// The word for this unit system.
    pub open spec fn word(self) -> Seq<char> {
        match self {
            DistanceUnits::Metric => "metric"@,
            DistanceUnits::Imperial => "imperial"@,
        }
    }

    /// The TOML spelling, the one [`Self::parse`] reads back.
    pub fn as_str(self) -> (r: &'static str)
        ensures
            r@ == self.word(),
    {
        match self {
            DistanceUnits::Metric => "metric",
            DistanceUnits::Imperial => "imperial",
        }
    }

    /// Parse the TOML `distance.units` string (case-insensitive).
    pub fn parse(s: &str) -> (r: Result<Self, String>)
        ensures
            match r {
                Ok(units) => units_named(trimmed(s@)) == Some(units),
                Err(message) => units_named(trimmed(s@)) is None && message@ == bad_units(s@),
            },
    {
        let word = trim(s);
        let w = word.as_str();
        if spelled(w, "metric") || spelled(w, "km") || spelled(w, "km/m") || spelled(w, "m") {
            Ok(DistanceUnits::Metric)
        } else if spelled(w, "imperial") || spelled(w, "mi") || spelled(w, "mi/ft") || spelled(
            w,
            "ft",
        ) {
            Ok(DistanceUnits::Imperial)
        } else {
            let shown = quote(to_lowercase(w).as_str());
            Err(
                joined3(
                    "invalid distance.units ",
                    shown.as_str(),
                    ", expected \"metric\" or \"imperial\"",
                ),
            )
        }
    }
}

/// The word for a unit system reads back as that unit system.
pub proof fn units_read_back(units: DistanceUnits)
    ensures
        units_named(trimmed(units.word())) == Some(units),
{
    reveal_strlit("metric");
    reveal_strlit("imperial");
    reveal_strlit("km");
    reveal_strlit("km/m");
    reveal_strlit("m");
    let w = units.word();
    assert(!is_white(w[0]) && !is_white(w.last()));
    trimmed_already(w);
    match units {
        DistanceUnits::Metric => {
            assert(spells(w, "metric"@));
        },
        DistanceUnits::Imperial => {
            assert(spells(w, "imperial"@));
        },
    }
}

/// Beacon-distance readout settings.
#[derive(Clone, Copy, PartialEq, Eq, Debug, Structural)]
pub struct DistanceSettings {
    /// Draw the distance label on the line to the beacon.
    pub show: bool,
    /// Which unit system the label uses.
    pub units: DistanceUnits,
    /// Draw the line to the beacon dotted rather than solid.
    pub dotted: bool,
}

/// The read-out settings of a fresh installation.
pub open spec fn default_distance() -> DistanceSettings {
    DistanceSettings { show: false, units: DistanceUnits::Metric, dotted: true }
}

impl Default for DistanceSettings {
    fn default() -> (r: Self)
        ensures
            r == default_distance(),
    {
        DistanceSettings { show: false, units: DistanceUnits::Metric, dotted: true }
    }
}

/// BLE beacon settings.
pub struct BleSettings {
    /// Connect to the beacon at all.
    pub enabled: bool,
    /// Draw the path of the incoming BLE GPS data on the map.
    pub show_path: bool,
    /// Pin a specific device MAC; `None` scans for the GPS service.
    pub mac: Option<String>,
    /// Nicknames for known boards, keyed by MAC. Every board runs the same
    /// firmware and so advertises the same name, which makes a scan a list of
    /// identical entries; these names are what tells them apart in the picker.
    /// Keys are normalized by [`normalize_mac`] so lookups ignore case and
    /// separator style.
    pub names: NameTable,
}

/// The beacon settings of a fresh installation.
pub open spec fn is_default_ble(b: BleSettings) -> bool {
    &&& b.enabled
    &&& !b.show_path
    &&& b.mac is None
    &&& b.names@ == Map::<Seq<char>, Seq<char>>::empty()
}

impl Default for BleSettings {
    fn default() -> (r: Self)
        ensures
            is_default_ble(r),
    {
        BleSettings { enabled: true, show_path: false, mac: None, names: NameTable::new() }
    }
}

impl BleSettings {
    /// The nickname for a device, if one is set.
    pub open spec fn nickname(&self, mac: Seq<char>) -> Option<Seq<char>> {
        if self.names@.dom().contains(normal_mac(mac)) {
            Some(self.names@[normal_mac(mac)])
        } else {
            None
        }
    }

    /// A device is the pinned one, however either is spelled.
    pub open spec fn pins(&self, mac: Seq<char>) -> bool {
        match self.mac {
            Some(pinned) => normal_mac(pinned@) == normal_mac(mac),
            None => false,
        }
    }

    /// The nickname for `mac`, if one is set.
    pub fn name_of(&self, mac: &str) -> (r: Option<&str>)
        ensures
            match r {
                Some(name) => self.nickname(mac@) == Some(name@),
                None => self.nickname(mac@) is None,
            },
    {
        let key = normalize_mac(mac);
        self.names.get(key.as_str())
    }

    /// Name `mac`, or forget it when `name` is blank - clearing the box is how
    /// a board leaves the picker.
    pub fn set_name(&mut self, mac: &str, name: &str)
        ensures
            *final(self) == (BleSettings { names: final(self).names, ..*old(self) }),
            final(self).names@ == if trimmed(name@).len() == 0 {
                old(self).names@.remove(normal_mac(mac@))
            } else {
                old(self).names@.insert(normal_mac(mac@), trimmed(name@))
            },
    {
        let key = normalize_mac(mac);
        let name = trim(name);
        if name.as_str().is_empty() {
            self.names.remove(key.as_str());
        } else {
            self.names.insert(key, name);
        }
    }

    /// How this device should be labelled: its nickname, or the MAC itself
    /// when it has none.
    pub fn label_of(&self, mac: &str) -> (r: String)
        ensures
            r@ == match self.nickname(mac@) {
                Some(name) => name,
                None => mac@,
            },
    {
        match self.name_of(mac) {
            Some(name) => name.to_owned(),
            None => mac.to_owned(),
        }
    }

    /// True when `mac` is the pinned device, comparing normalized.
    pub fn is_selected(&self, mac: &str) -> (r: bool)
        ensures
            r == self.pins(mac@),
    {
        match &self.mac {
            Some(pinned) => {
                let a = normalize_mac(pinned.as_str());
                let b = normalize_mac(mac);
                same(a.as_str(), b.as_str())
            },
            None => false,
        }
    }
}

/// Track recording settings.
#[derive(Clone, Copy, PartialEq, Eq, Debug, Structural)]
pub struct TrackSettings {
    /// Minimum distance in meters from the last recorded point before another
    /// is appended to a track, as a double-precision bit pattern. Decimates GPS
    /// jitter; 0 records every fix.
    pub min_distance: u64,
}

/// The track settings of a fresh installation: 3 meters.
pub open spec fn default_track() -> TrackSettings {
    TrackSettings { min_distance: 0x4008_0000_0000_0000 }
}

impl Default for TrackSettings {
    fn default() -> (r: Self)
        ensures
            r == default_track(),
    {
        TrackSettings { min_distance: 0x4008_0000_0000_0000 }
    }
}

/// Everything a config file can carry.
pub struct AppConfig {
    pub colors: MarkerColors,
    pub sizes: MarkerSizes,
    pub distance: DistanceSettings,
    pub ble: BleSettings,
    pub track: TrackSettings,
}

/// The settings of a fresh installation.
pub open spec fn is_default_config(c: AppConfig) -> bool {
    &&& c.colors == default_colors()
    &&& c.sizes == default_sizes()
    &&& c.distance == default_distance()
    &&& is_default_ble(c.ble)
    &&& c.track == default_track()
}

impl Default for AppConfig {
    fn default() -> (r: Self)
        ensures
            is_default_config(r),
    {
        AppConfig {
            colors: MarkerColors::default(),
            sizes: MarkerSizes::default(),
            distance: DistanceSettings::default(),
            ble: BleSettings::default(),
            track: TrackSettings::default(),
        }
    }
}

/// A size as the file gives it: the single-precision bit pattern and the way
/// the number prints.
pub struct RawSize {
    pub bits: u32,
    pub text: String,
}

/// A distance as the file gives it: the double-precision bit pattern and the
/// way the number prints.
pub struct RawDistanceValue {
    pub bits: u64,
    pub text: String,
}

/// The `[colors]` table of a file.
pub struct RawColors {
    pub track: Option<String>,
    pub fixed: Option<String>,
}

/// The `[sizes]` table of a file.
pub struct RawSizes {
    pub marker: Option<RawSize>,
    pub beacon: Option<RawSize>,
    pub track: Option<RawSize>,
    pub distance_line: Option<RawSize>,
    pub distance_text: Option<RawSize>,
}

/// The `[distance]` table of a file.
pub struct RawDistance {
    pub show: Option<bool>,
    pub units: Option<String>,
    pub dotted: Option<bool>,
}

/// The `[ble]` table of a file, with its names in the order of their keys.
pub struct RawBle {
    pub enabled: Option<bool>,
    pub show_path: Option<bool>,
    pub mac: Option<String>,
    pub names: Vec<(String, String)>,
}

/// The `[track]` table of a file.
pub struct RawTrack {
    pub min_distance: Option<RawDistanceValue>,
}

/// Mirrors the TOML shape; every field optional so a partial file keeps the
/// defaults for whatever it leaves out.
pub struct RawConfig {
    pub colors: RawColors,
    pub sizes: RawSizes,
    pub distance: RawDistance,
    pub ble: RawBle,
    pub track: RawTrack,
}

/// `s` without the one hash sign that it may start with.
pub open spec fn skip_hash(s: Seq<char>) -> Seq<char> {
    if s.len() > 0 && s[0] == '#' {
        s.drop_first()
    } else {
        s
    }
}

/// The number that a hexadecimal digit stands for.
pub open spec fn hex_value(c: char) -> int {
    if c as int <= 57 {
        c as int - 48
    } else if c as int <= 70 {
        c as int - 55
    } else {
        c as int - 87
    }
}

/// Six hexadecimal digits.
pub open spec fn is_hex_color(h: Seq<char>) -> bool {
    h.len() == 6 && forall|i: int| 0 <= i < 6 ==> is_hex_digit(#[trigger] h[i])
}

/// The color that `#rrggbb`, or bare `rrggbb`, spells.
pub open spec fn color_spelled(s: Seq<char>) -> Option<Rgb> {
    let h = skip_hash(trimmed(s));
    if is_hex_color(h) {
        Some(
            Rgb {
                r: (hex_value(h[0]) * 16 + hex_value(h[1])) as u8,
                g: (hex_value(h[2]) * 16 + hex_value(h[3])) as u8,
                b: (hex_value(h[4]) * 16 + hex_value(h[5])) as u8,
            },
        )
    } else {
        None
    }
}

/// The message for a text that spells no color.
pub open spec fn bad_color(s: Seq<char>) -> Seq<char> {
    "invalid hex color "@ + quoted(s) + ", expected #rrggbb"@
}

fn hex_number(c: char) -> (n: u8)
    requires
        is_hex_digit(c),
    ensures
        n == hex_value(c),
        n < 16,
{
    let k: u32 = c as u32;
    if k <= 57 {
        (k - 48) as u8
    } else if k <= 70 {
        (k - 55) as u8
    } else {
        (k - 87) as u8
    }
}

/// Parse a `#rrggbb` (or bare `rrggbb`) hex string into a color.
pub fn parse_hex(s: &str) -> (r: Result<Rgb, String>)
    ensures
        match r {
            Ok(color) => color_spelled(s@) == Some(color),
            Err(message) => color_spelled(s@) is None && message@ == bad_color(s@),
        },
{
    let t = chars_of(trim(s).as_str());
    let from: usize = if t.len() > 0 && t[0] == '#' {
        1
    } else {
        0
    };
    assert(t@.skip(from as int) =~= skip_hash(t@));
    let ghost h = t@.skip(from as int);
    let mut good: bool = t.len() - from == 6;
    let mut i: usize = from;
    while good && i < t.len()
        invariant
            from <= i <= t@.len(),
            h == t@.skip(from as int),
            good ==> t@.len() - from == 6 && forall|j: int|
                0 <= j < i - from ==> is_hex_digit(#[trigger] h[j]),
            !good ==> !is_hex_color(h),
        decreases t@.len() - i,
    {
        assert(h[i - from] == t@[i as int]);
        if !hex_digit(t[i]) {
            good = false;
        }
        i = i + 1;
    }
    if good {
        assert(is_hex_color(h));
        assert forall|j: int| 0 <= j < 6 implies is_hex_digit(#[trigger] t@[from + j]) by {
            assert(h[j] == t@[from + j]);
        }
        Ok(
            Rgb {
                r: hex_number(t[from]) * 16 + hex_number(t[from + 1]),
                g: hex_number(t[from + 2]) * 16 + hex_number(t[from + 3]),
                b: hex_number(t[from + 4]) * 16 + hex_number(t[from + 5]),
            },
        )
    } else {
        let shown = quote(s);
        Err(joined3("invalid hex color ", shown.as_str(), ", expected #rrggbb"))
    }
}

/// The small hexadecimal digit for a number below sixteen.
pub open spec fn hex_char(n: int) -> char {
    if n < 10 {
        digit(n as nat)
    } else {
        (87 + n) as char
    }
}

/// `#rrggbb` for a color.
pub open spec fn color_text(c: Rgb) -> Seq<char> {
    seq![
        '#',
        hex_char(c.r as int / 16),
        hex_char(c.r as int % 16),
        hex_char(c.g as int / 16),
        hex_char(c.g as int % 16),
        hex_char(c.b as int / 16),
        hex_char(c.b as int % 16),
    ]
}

/// The small hexadecimal digit for a number below sixteen.
pub fn hex_letter(n: u8) -> (c: char)
    requires
        n < 16,
    ensures
        c == hex_char(n as int),
{
    if n < 10 {
        (48 + n) as char
    } else {
        (87 + n) as char
    }
}

/// `#rrggbb` for a color: the form [`parse_hex`] reads back.
pub fn hex(c: Rgb) -> (r: String)
    ensures
        r@ == color_text(c),
{
    let mut r = String::new();
    r.push('#');
    r.push(hex_letter(c.r / 16));
    r.push(hex_letter(c.r % 16));
    r.push(hex_letter(c.g / 16));
    r.push(hex_letter(c.g % 16));
    r.push(hex_letter(c.b / 16));
    r.push(hex_letter(c.b % 16));
    assert(r@ =~= color_text(c));
    r
}

/// The text of a color spells that color.
pub proof fn colors_read_back(c: Rgb)
    ensures
        color_spelled(color_text(c)) == Some(c),
{
    let s = color_text(c);
    assert(forall|n: int| 0 <= n < 16 ==> is_hex_digit(#[trigger] hex_char(n)) && hex_value(
        hex_char(n),
    ) == n && !is_white(hex_char(n)) && hex_char(n) != '#');
    trimmed_already(s);
    let h = s.drop_first();
    assert(skip_hash(s) == h);
    assert(is_hex_color(h));
}

/// A single-precision bit pattern of a finite number above zero.
pub open spec fn is_size(bits: u32) -> bool {
    0 < bits < 0x7f80_0000
}

/// A double-precision bit pattern of a finite number that is not below zero.
/// Minus zero counts as zero.
pub open spec fn is_distance(bits: u64) -> bool {
    bits < 0x7ff0_0000_0000_0000 || bits == 0x8000_0000_0000_0000
}

/// The message for a size that no overlay can have.
pub open spec fn bad_size(name: Seq<char>, text: Seq<char>) -> Seq<char> {
    "sizes."@ + name + " must be > 0, got "@ + text
}

/// Validate an overlay size: finite and strictly positive.
pub fn parse_size(name: &str, v: &RawSize) -> (r: Result<u32, String>)
    ensures
        match r {
            Ok(bits) => is_size(v.bits) && bits == v.bits,
            Err(message) => !is_size(v.bits) && message@ == bad_size(name@, v.text@),
        },
{
    if v.bits == 0 || v.bits >= 0x7f80_0000 {
        let head = joined3("sizes.", name, " must be > 0, got ");
        Err(joined(head.as_str(), v.text.as_str()))
    } else {
        Ok(v.bits)
    }
}

/// What is wrong with a color, if one is given.
pub open spec fn color_problem(given: Option<String>) -> Option<Seq<char>> {
    match given {
        Some(s) => if color_spelled(s@) is None {
            Some(bad_color(s@))
        } else {
            None
        },
        None => None,
    }
}

/// What is wrong with a size, if one is given.
pub open spec fn size_problem(name: Seq<char>, given: Option<RawSize>) -> Option<Seq<char>> {
    match given {
        Some(v) => if is_size(v.bits) {
            None
        } else {
            Some(bad_size(name, v.text@))
        },
        None => None,
    }
}

/// What is wrong with the unit system, if one is given.
pub open spec fn units_problem(given: Option<String>) -> Option<Seq<char>> {
    match given {
        Some(s) => if units_named(trimmed(s@)) is None {
            Some(bad_units(s@))
        } else {
            None
        },
        None => None,
    }
}

/// What is wrong with the recording distance, if one is given.
pub open spec fn distance_problem(given: Option<RawDistanceValue>) -> Option<Seq<char>> {
    match given {
        Some(v) => if is_distance(v.bits) {
            None
        } else {
            Some("track.min_distance must be >= 0, got "@ + v.text@)
        },
        None => None,
    }
}

/// The first of two problems.
pub open spec fn or(first: Option<Seq<char>>, second: Option<Seq<char>>) -> Option<Seq<char>> {
    if first is Some {
        first
    } else {
        second
    }
}

/// The first setting of a file that cannot be taken, as its message.
pub open spec fn first_problem(raw: RawConfig) -> Option<Seq<char>> {
    or(
        color_problem(raw.colors.track),
        or(
            color_problem(raw.colors.fixed),
            or(
                size_problem("marker"@, raw.sizes.marker),
                or(
                    size_problem("beacon"@, raw.sizes.beacon),
                    or(
                        size_problem("track"@, raw.sizes.track),
                        or(
                            size_problem("distance_line"@, raw.sizes.distance_line),
                            or(
                                size_problem("distance_text"@, raw.sizes.distance_text),
                                or(
                                    units_problem(raw.distance.units),
                                    distance_problem(raw.track.min_distance),
                                ),
                            ),
                        ),
                    ),
                ),
            ),
        ),
    )
}

/// The color that a file gives, or the default.
pub open spec fn color_or(given: Option<String>, default_color: Rgb) -> Rgb {
    match given {
        Some(s) => color_spelled(s@)->0,
        None => default_color,
    }
}

/// The size that a file gives, or the default.
pub open spec fn size_or(given: Option<RawSize>, default_size: u32) -> u32 {
    match given {
        Some(v) => v.bits,
        None => default_size,
    }
}

/// The flag that a file gives, or the default.
pub open spec fn flag_or(given: Option<bool>, default_flag: bool) -> bool {
    match given {
        Some(b) => b,
        None => default_flag,
    }
}

/// The nicknames that a file gives: those that are not blank, trimmed, each
/// under the key of its address. Of two under one key the later one counts.
pub open spec fn names_given(names: Seq<(String, String)>) -> Map<Seq<char>, Seq<char>>
    decreases names.len(),
{
    if names.len() == 0 {
        Map::empty()
    } else {
        let before = names_given(names.drop_last());
        let (mac, name) = names.last();
        if trimmed(name@).len() == 0 {
            before
        } else {
            before.insert(normal_mac(mac@), trimmed(name@))
        }
    }
}

/// A pinned address counts unless it is blank.
pub open spec fn mac_given(given: Option<String>) -> Option<Seq<char>> {
    match given {
        Some(m) => if trimmed(m@).len() == 0 {
            None
        } else {
            Some(m@)
        },
        None => None,
    }
}

/// The settings that a file stands for: what it gives, and the default for
/// everything that it leaves out.
pub open spec fn read_as(raw: RawConfig, c: AppConfig) -> bool {
    &&& c.colors == (MarkerColors {
        track: color_or(raw.colors.track, default_colors().track),
        fixed: color_or(raw.colors.fixed, default_colors().fixed),
    })
    &&& c.sizes == (MarkerSizes {
        marker: size_or(raw.sizes.marker, default_sizes().marker),
        beacon: size_or(raw.sizes.beacon, default_sizes().beacon),
        track: size_or(raw.sizes.track, default_sizes().track),
        distance_line: size_or(raw.sizes.distance_line, default_sizes().distance_line),
        distance_text: size_or(raw.sizes.distance_text, default_sizes().distance_text),
    })
    &&& c.distance == (DistanceSettings {
        show: flag_or(raw.distance.show, default_distance().show),
        units: match raw.distance.units {
            Some(s) => units_named(trimmed(s@))->0,
            None => default_distance().units,
        },
        dotted: flag_or(raw.distance.dotted, default_distance().dotted),
    })
    &&& c.ble.enabled == flag_or(raw.ble.enabled, true)
    &&& c.ble.show_path == flag_or(raw.ble.show_path, false)
    &&& opt_text(c.ble.mac) == mac_given(raw.ble.mac)
    &&& c.ble.names@ == names_given(raw.ble.names@)
    &&& c.track.min_distance == match raw.track.min_distance {
        Some(v) => v.bits,
        None => default_track().min_distance,
    }
}

fn take_color(given: &Option<String>, default_color: Rgb) -> (r: Result<Rgb, String>)
    ensures
        match r {
            Ok(c) => color_problem(*given) is None && c == color_or(*given, default_color),
            Err(message) => color_problem(*given) == Some(message@),
        },
{
    match given {
        Some(s) => parse_hex(s.as_str()),
        None => Ok(default_color),
    }
}

fn take_size(name: &str, given: &Option<RawSize>, default_size: u32) -> (r: Result<u32, String>)
    ensures
        match r {
            Ok(bits) => size_problem(name@, *given) is None && bits == size_or(
                *given,
                default_size,
            ),
            Err(message) => size_problem(name@, *given) == Some(message@),
        },
{
    match given {
        Some(v) => parse_size(name, v),
        None => Ok(default_size),
    }
}

fn take_flag(given: &Option<bool>, default_flag: bool) -> (r: bool)
    ensures
        r == flag_or(*given, default_flag),
{
    match given {
        Some(b) => *b,
        None => default_flag,
    }
}

fn take_units(given: &Option<String>) -> (r: Result<DistanceUnits, String>)
    ensures
        match r {
            Ok(units) => units_problem(*given) is None && units == match *given {
                Some(s) => units_named(trimmed(s@))->0,
                None => default_distance().units,
            },
            Err(message) => units_problem(*given) == Some(message@),
        },
{
    match given {
        Some(s) => DistanceUnits::parse(s.as_str()),
        None => Ok(DistanceUnits::Metric),
    }
}

fn take_distance(given: &Option<RawDistanceValue>) -> (r: Result<u64, String>)
    ensures
        match r {
            Ok(bits) => distance_problem(*given) is None && bits == match *given {
                Some(v) => v.bits,
                None => default_track().min_distance,
            },
            Err(message) => distance_problem(*given) == Some(message@),
        },
{
    match given {
        Some(v) => if v.bits < 0x7ff0_0000_0000_0000 || v.bits == 0x8000_0000_0000_0000 {
            Ok(v.bits)
        } else {
            Err(joined("track.min_distance must be >= 0, got ", v.text.as_str()))
        },
        None => Ok(0x4008_0000_0000_0000),
    }
}

fn take_names(names: &Vec<(String, String)>) -> (r: NameTable)
    ensures
        r@ == names_given(names@),
{
    let mut r = NameTable::new();
    let mut i: usize = 0;
    proof {
        assert(names@.take(0) =~= Seq::empty());
    }
    while i < names.len()
        invariant
            i <= names@.len(),
            r@ == names_given(names@.take(i as int)),
        decreases names@.len() - i,
    {
        let name = trim(names[i].1.as_str());
        if !name.as_str().is_empty() {
            r.insert(normalize_mac(names[i].0.as_str()), name);
        }
        proof {
            assert(names@.take(i + 1).drop_last() =~= names@.take(i as int));
            assert(names@.take(i + 1).last() == names@[i as int]);
        }
        i = i + 1;
    }
    assert(names@.take(names@.len() as int) =~= names@);
    r
}

impl AppConfig {
    /// The settings that the tables of a file stand for. Missing fields fall
    /// back to the defaults; a returned `Err` is a human-readable message for
    /// the UI, about the first setting that cannot be taken.
    pub fn from_raw(raw: &RawConfig) -> (r: Result<AppConfig, String>)
        ensures
            match r {
                Ok(config) => first_problem(*raw) is None && read_as(*raw, config),
                Err(message) => first_problem(*raw) == Some(message@),
            },
    {
        let colors = MarkerColors::default();
        let sizes = MarkerSizes::default();
        let track = match take_color(&raw.colors.track, colors.track) {
            Ok(c) => c,
            Err(e) => {
                return Err(e);
            },
        };
        let fixed = match take_color(&raw.colors.fixed, colors.fixed) {
            Ok(c) => c,
            Err(e) => {
                return Err(e);
            },
        };
        let marker: u32 = match take_size("marker", &raw.sizes.marker, sizes.marker) {
            Ok(v) => v,
            Err(e) => {
                return Err(e);
            },
        };
        let beacon: u32 = match take_size("beacon", &raw.sizes.beacon, sizes.beacon) {
            Ok(v) => v,
            Err(e) => {
                return Err(e);
            },
        };
        let track_width: u32 = match take_size("track", &raw.sizes.track, sizes.track) {
            Ok(v) => v,
            Err(e) => {
                return Err(e);
            },
        };
        let distance_line: u32 = match take_size(
            "distance_line",
            &raw.sizes.distance_line,
            sizes.distance_line,
        ) {
            Ok(v) => v,
            Err(e) => {
                return Err(e);
            },
        };
        let distance_text: u32 = match take_size(
            "distance_text",
            &raw.sizes.distance_text,
            sizes.distance_text,
        ) {
            Ok(v) => v,
            Err(e) => {
                return Err(e);
            },
        };
        let units = match take_units(&raw.distance.units) {
            Ok(u) => u,
            Err(e) => {
                return Err(e);
            },
        };
        // Treat an empty string as unset so a template line can stay in the
        // file.
        let mac = match &raw.ble.mac {
            Some(m) => if trim(m.as_str()).as_str().is_empty() {
                None
            } else {
                Some(m.clone())
            },
            None => None,
        };
        // Normalize on the way in: a hand-edited file may spell a MAC any way,
        // and the picker looks these up by normalized key.
        let names = take_names(&raw.ble.names);
        let min_distance: u64 = match take_distance(&raw.track.min_distance) {
            Ok(v) => v,
            Err(e) => {
                return Err(e);
            },
        };
        Ok(
            AppConfig {
                colors: MarkerColors { track, fixed },
                sizes: MarkerSizes {
                    marker,
                    beacon,
                    track: track_width,
                    distance_line,
                    distance_text,
                },
                distance: DistanceSettings {
                    show: take_flag(&raw.distance.show, false),
                    units,
                    dotted: take_flag(&raw.distance.dotted, true),
                },
                ble: BleSettings {
                    enabled: take_flag(&raw.ble.enabled, true),
                    show_path: take_flag(&raw.ble.show_path, false),
                    mac,
                    names,
                },
                track: TrackSettings { min_distance },
            },
        )
    }
}

/// The settings of a file that gives nothing.
pub open spec fn gives_nothing(raw: RawConfig) -> bool {
    &&& raw.colors.track is None
    &&& raw.colors.fixed is None
    &&& raw.sizes.marker is None
    &&& raw.sizes.beacon is None
    &&& raw.sizes.track is None
    &&& raw.sizes.distance_line is None
    &&& raw.sizes.distance_text is None
    &&& raw.distance.show is None
    &&& raw.distance.units is None
    &&& raw.distance.dotted is None
    &&& raw.ble.enabled is None
    &&& raw.ble.show_path is None
    &&& raw.ble.mac is None
    &&& raw.ble.names@.len() == 0
    &&& raw.track.min_distance is None
}

/// Every setting is optional: a file that gives nothing stands for the default
/// settings.
pub proof fn nothing_given_is_default(raw: RawConfig, c: AppConfig)
    requires
        gives_nothing(raw),
    ensures
        first_problem(raw) is None,
        read_as(raw, c) <==> is_default_config(c),
{
}

/// Nicknames are in good order: every key is in the form that lookups use, and
/// every name is trimmed and not blank.
pub open spec fn tidy(names: Map<Seq<char>, Seq<char>>) -> bool {
    forall|k: Seq<char>| #[trigger]
        names.dom().contains(k) ==> normal_mac(k) == k && names[k].len() > 0 && trimmed(names[k])
            == names[k]
}

/// The nicknames that a file gives are in good order.
pub proof fn given_names_are_tidy(names: Seq<(String, String)>)
    ensures
        tidy(names_given(names)),
    decreases names.len(),
{
    if names.len() > 0 {
        given_names_are_tidy(names.drop_last());
        let (mac, name) = names.last();
        key_of_key_is_itself(mac@);
        trimming_twice(name@);
    }
}

/// Naming a board, or forgetting it, keeps the nicknames in good order.
pub proof fn naming_keeps_names_tidy(
    names: Map<Seq<char>, Seq<char>>,
    mac: Seq<char>,
    name: Seq<char>,
)
    requires
        tidy(names),
    ensures
        tidy(names.remove(normal_mac(mac))),
        trimmed(name).len() > 0 ==> tidy(names.insert(normal_mac(mac), trimmed(name))),
{
    key_of_key_is_itself(mac);
    trimming_twice(name);
}

/// A board is found under the name it was given, whatever spelling of its
/// address it was named or is looked up by; a blank name forgets it, and no
/// other board is touched.
pub proof fn name_given_is_name_found(
    before: BleSettings,
    after: BleSettings,
    mac: Seq<char>,
    name: Seq<char>,
    other: Seq<char>,
)
    requires
        after.names@ == if trimmed(name).len() == 0 {
            before.names@.remove(normal_mac(mac))
        } else {
            before.names@.insert(normal_mac(mac), trimmed(name))
        },
    ensures
        normal_mac(other) == normal_mac(mac) ==> after.nickname(other) == if trimmed(name).len()
            == 0 {
            None
        } else {
            Some(trimmed(name))
        },
        normal_mac(other) != normal_mac(mac) ==> after.nickname(other) == before.nickname(other),
{
}

} // verus!
