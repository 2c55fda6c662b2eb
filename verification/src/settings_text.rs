//! The settings as a complete, commented TOML file: its lines, how each of them
//! is written, and what a reader finds on them.

use crate::config::{color_text, hex, hex_char, hex_letter, AppConfig};
use crate::names::NameTable;
use crate::text::{chars_of, code};
use vstd::prelude::*;

verus! {

/// A character of a TOML basic string: quotes and backslashes behind a
/// backslash, the ends of lines by their letters, other control characters by
/// their number, and anything else as it is. A tab may stand as it is too.
pub open spec fn escape(c: char, tabs: bool) -> Seq<char> {
    if c == '"' || c == '\\' {
        seq!['\\', c]
    } else if c == '\n' {
        seq!['\\', 'n']
    } else if c == '\r' {
        seq!['\\', 'r']
    } else if c == '\t' {
        if tabs {
            seq!['\t']
        } else {
            seq!['\\', 't']
        }
    } else if (c as int) < 32 || c as int == 127 {
        seq!['\\', 'u', '0', '0', hex_char(c as int / 16), hex_char(c as int % 16)]
    } else {
        seq![c]
    }
}

/// The inside of a TOML basic string.
pub open spec fn escaped(s: Seq<char>, tabs: bool) -> Seq<char>
    decreases s.len(),
{
    if s.len() == 0 {
        Seq::empty()
    } else {
        escape(s[0], tabs) + escaped(s.drop_first(), tabs)
    }
}

/// A text as a TOML basic string, in its quotes.
pub open spec fn basic(s: Seq<char>, tabs: bool) -> Seq<char> {
    seq!['"'] + escaped(s, tabs) + seq!['"']
}

/// A text as a TOML basic string, in its quotes.
fn basic_string(s: &str, tabs: bool) -> (r: String)
    ensures
        r@ == basic(s@, tabs),
{
    let chars = chars_of(s);
    let mut r = String::new();
    r.push('"');
    let mut i: usize = 0;
    proof {
        assert(chars@.skip(0) =~= chars@);
        assert(r@ + escaped(chars@, tabs) =~= seq!['"'] + escaped(chars@, tabs));
    }
    while i < chars.len()
        invariant
            i <= chars@.len(),
            r@ + escaped(chars@.skip(i as int), tabs) == seq!['"'] + escaped(chars@, tabs),
        decreases chars@.len() - i,
    {
        let c = chars[i];
        let n: u32 = code(c);
        let ghost before = r@;
        let ghost left = chars@.skip(i as int);
        if c == '"' || c == '\\' {
            r.push('\\');
            r.push(c);
        } else if c == '\n' {
            r.push('\\');
            r.push('n');
        } else if c == '\r' {
            r.push('\\');
            r.push('r');
        } else if c == '\t' {
            if tabs {
                r.push('\t');
            } else {
                r.push('\\');
                r.push('t');
            }
        } else if n < 32 || n == 127 {
            let low: u8 = (n % 16) as u8;
            let high: u8 = (n / 16) as u8;
            r.push('\\');
            r.push('u');
            r.push('0');
            r.push('0');
            r.push(hex_letter(high));
            r.push(hex_letter(low));
        } else {
            r.push(c);
        }
        proof {
            assert(left[0] == c);
            assert(left.drop_first() =~= chars@.skip(i + 1));
            assert(r@ =~= before + escape(c, tabs));
            assert(before + (escape(c, tabs) + escaped(left.drop_first(), tabs)) =~= r@ + escaped(
                chars@.skip(i + 1),
                tabs,
            ));
        }
        i = i + 1;
    }
    proof {
        assert(chars@.skip(i as int) =~= Seq::<char>::empty());
        assert(r@ + Seq::<char>::empty() =~= r@);
    }
    r.push('"');
    assert(r@ =~= basic(s@, tabs));
    r
}

/// A word of the file.
pub enum Word {
    /// A string in quotes.
    Text(Seq<char>),
    /// A string in quotes, with its tabs as they are.
    Tabbed(Seq<char>),
    /// A word as it stands.
    Bare(Seq<char>),
}

/// A word as it is written.
pub open spec fn word_text(word: Word) -> Seq<char> {
    match word {
        Word::Text(s) => basic(s, false),
        Word::Tabbed(s) => basic(s, true),
        Word::Bare(s) => s,
    }
}

/// A line of the file.
pub enum Line {
    /// A comment, or nothing.
    Remark(Seq<char>),
    /// `[name]`, and what follows it on the line.
    Head(Seq<char>, Seq<char>),
    /// `key = value`, and what follows it on the line.
    Pair(Word, Word, Seq<char>),
}

/// A line as it is written, without its end.
pub open spec fn line_text(line: Line) -> Seq<char> {
    match line {
        Line::Remark(text) => text,
        Line::Head(name, tail) => seq!['['] + name + seq![']'] + tail,
        Line::Pair(key, value, tail) => word_text(key) + seq![' ', '=', ' '] + word_text(value)
            + tail,
    }
}

/// Lines as they are written, each with its end.
pub open spec fn written(lines: Seq<Line>) -> Seq<char>
    decreases lines.len(),
{
    if lines.len() == 0 {
        Seq::empty()
    } else {
        written(lines.drop_last()) + line_text(lines.last()) + seq!['\n']
    }
}

broadcast proof fn written_line_by_line(lines: Seq<Line>, line: Line)
    ensures
        #[trigger] written(lines.push(line)) == written(lines) + line_text(line) + seq!['\n'],
{
    assert(lines.push(line).drop_last() =~= lines);
}

/// A text that is written line by line.
struct Sheet {
    text: String,
    lines: Ghost<Seq<Line>>,
}

impl Sheet {
    spec fn fits(self) -> bool {
        self.text@ == written(self.lines@)
    }

    fn new() -> (r: Self)
        ensures
            r.fits(),
            r.lines@ == Seq::<Line>::empty(),
    {
        let r = Sheet { text: String::new(), lines: Ghost(Seq::empty()) };
        assert(r.text@ =~= Seq::<char>::empty());
        r
    }

    fn remark(&mut self, text: &str)
        requires
            old(self).fits(),
        ensures
            final(self).fits(),
            final(self).lines@ == old(self).lines@.push(Line::Remark(text@)),
    {
        broadcast use written_line_by_line;

        let ghost line = Line::Remark(text@);
        self.text.append(text);
        self.text.push('\n');
        self.lines = Ghost(self.lines@.push(line));
        assert(self.text@ =~= written(old(self).lines@) + line_text(line) + seq!['\n']);
    }

    fn head(&mut self, name: &str, tail: &str)
        requires
            old(self).fits(),
        ensures
            final(self).fits(),
            final(self).lines@ == old(self).lines@.push(Line::Head(name@, tail@)),
    {
        broadcast use written_line_by_line;

        let ghost line = Line::Head(name@, tail@);
        self.text.push('[');
        self.text.append(name);
        self.text.push(']');
        self.text.append(tail);
        self.text.push('\n');
        self.lines = Ghost(self.lines@.push(line));
        assert(self.text@ =~= written(old(self).lines@) + line_text(line) + seq!['\n']);
    }

    fn set(&mut self, key: &str, value: &str, tail: &str)
        requires
            old(self).fits(),
        ensures
            final(self).fits(),
            final(self).lines@ == old(self).lines@.push(
                Line::Pair(Word::Bare(key@), Word::Bare(value@), tail@),
            ),
    {
        broadcast use written_line_by_line;

        let ghost line = Line::Pair(Word::Bare(key@), Word::Bare(value@), tail@);
        self.text.append(key);
        self.equals();
        self.text.append(value);
        self.text.append(tail);
        self.text.push('\n');
        self.lines = Ghost(self.lines@.push(line));
        assert(self.text@ =~= written(old(self).lines@) + line_text(line) + seq!['\n']);
    }

    fn set_text(&mut self, key: &str, value: &str, tail: &str)
        requires
            old(self).fits(),
        ensures
            final(self).fits(),
            final(self).lines@ == old(self).lines@.push(
                Line::Pair(Word::Bare(key@), Word::Text(value@), tail@),
            ),
    {
        broadcast use written_line_by_line;

        let ghost line = Line::Pair(Word::Bare(key@), Word::Text(value@), tail@);
        self.text.append(key);
        self.equals();
        self.text.append(basic_string(value, false).as_str());
        self.text.append(tail);
        self.text.push('\n');
        self.lines = Ghost(self.lines@.push(line));
        assert(self.text@ =~= written(old(self).lines@) + line_text(line) + seq!['\n']);
    }

    fn set_tabbed(&mut self, key: &str, value: &str, tail: &str)
        requires
            old(self).fits(),
        ensures
            final(self).fits(),
            final(self).lines@ == old(self).lines@.push(
                Line::Pair(Word::Bare(key@), Word::Tabbed(value@), tail@),
            ),
    {
        broadcast use written_line_by_line;

        let ghost line = Line::Pair(Word::Bare(key@), Word::Tabbed(value@), tail@);
        self.text.append(key);
        self.equals();
        self.text.append(basic_string(value, true).as_str());
        self.text.append(tail);
        self.text.push('\n');
        self.lines = Ghost(self.lines@.push(line));
        assert(self.text@ =~= written(old(self).lines@) + line_text(line) + seq!['\n']);
    }

    fn set_name(&mut self, key: &str, value: &str)
        requires
            old(self).fits(),
        ensures
            final(self).fits(),
            final(self).lines@ == old(self).lines@.push(name_line((key@, value@))),
    {
        broadcast use written_line_by_line;

        let ghost line = name_line((key@, value@));
        self.text.append(basic_string(key, false).as_str());
        self.equals();
        self.text.append(basic_string(value, false).as_str());
        self.text.push('\n');
        self.lines = Ghost(self.lines@.push(line));
        assert(self.text@ =~= written(old(self).lines@) + line_text(line) + seq!['\n']);
    }

    fn equals(&mut self)
        ensures
            final(self).text@ == old(self).text@ + seq![' ', '=', ' '],
            final(self).lines == old(self).lines,
    {
        self.text.push(' ');
        self.text.push('=');
        self.text.push(' ');
        assert(self.text@ =~= old(self).text@ + seq![' ', '=', ' ']);
    }
}

/// The real-valued settings as they are written in a generated file.
pub struct RealTexts {
    pub marker: String,
    pub beacon: String,
    pub track: String,
    pub distance_line: String,
    pub distance_text: String,
    pub min_distance: String,
}

/// `true` or `false`.
pub open spec fn flag_text(b: bool) -> Seq<char> {
    if b {
        "true"@
    } else {
        "false"@
    }
}

fn flag_word(b: bool) -> (r: &'static str)
    ensures
        r@ == flag_text(b),
{
    if b {
        "true"
    } else {
        "false"
    }
}

/// The pinned address as the file has it: empty where none is pinned.
pub open spec fn mac_text(c: AppConfig) -> Seq<char> {
    match c.ble.mac {
        Some(mac) => mac@,
        None => Seq::empty(),
    }
}

/// `key = value`, for a setting that is no string.
pub open spec fn plain_line(key: Seq<char>, value: Seq<char>, tail: Seq<char>) -> Line {
    Line::Pair(Word::Bare(key), Word::Bare(value), tail)
}

/// `key = "value"`.
pub open spec fn text_line(key: Seq<char>, value: Seq<char>, tail: Seq<char>) -> Line {
    Line::Pair(Word::Bare(key), Word::Text(value), tail)
}

/// `"key" = "name"`.
pub open spec fn name_line(pair: (Seq<char>, Seq<char>)) -> Line {
    Line::Pair(Word::Text(pair.0), Word::Text(pair.1), Seq::empty())
}

/// The title, and the `[colors]` table.
pub open spec fn with_colors(lines: Seq<Line>, c: AppConfig) -> Seq<Line> {
    lines.push(
        Line::Remark(
            "# gps-gui-rs settings. Every key is optional; a missing one keeps its default."@,
        ),
    ).push(Line::Remark(""@)).push(Line::Head("colors"@, ""@)).push(
        text_line(
            "track"@,
            color_text(c.colors.track),
            "   # phone track, heading arrow, position dot"@,
        ),
    ).push(
        text_line(
            "fixed"@,
            color_text(c.colors.fixed),
            "   # BLE beacon marker, distance line, beacon path"@,
        ),
    )
}

/// The `[sizes]` table.
pub open spec fn with_sizes(lines: Seq<Line>, texts: RealTexts) -> Seq<Line> {
    lines.push(Line::Remark(""@)).push(
        Line::Head(
            "sizes"@,
            "              # screen points; each overlay is sized independently"@,
        ),
    ).push(
        plain_line("marker"@, texts.marker@, "          # current-position dot radius"@),
    ).push(plain_line("beacon"@, texts.beacon@, "          # beacon dot radius"@)).push(
        plain_line(
            "track"@,
            texts.track@,
            "           # track polyline width (phone track and beacon path)"@,
        ),
    ).push(
        plain_line("distance_line"@, texts.distance_line@, "    # user<->beacon line width"@),
    ).push(
        plain_line("distance_text"@, texts.distance_text@, "   # beacon-distance label font size"@),
    )
}

/// The `[distance]` table.
pub open spec fn with_distance(lines: Seq<Line>, c: AppConfig) -> Seq<Line> {
    lines.push(Line::Remark(""@)).push(Line::Head("distance"@, ""@)).push(
        plain_line(
            "show"@,
            flag_text(c.distance.show),
            "        # draw the distance label on the line to the beacon"@,
        ),
    ).push(
        text_line(
            "units"@,
            c.distance.units.word(),
            "    # \"metric\" (km/m) or \"imperial\" (mi/ft)"@,
        ),
    ).push(
        plain_line(
            "dotted"@,
            flag_text(c.distance.dotted),
            "       # draw distance line dotted rather than solid"@,
        ),
    )
}

/// The `[ble]` table, and the header of the nicknames.
pub open spec fn with_ble(lines: Seq<Line>, c: AppConfig) -> Seq<Line> {
    lines.push(Line::Remark(""@)).push(Line::Head("ble"@, ""@)).push(
        plain_line(
            "enabled"@,
            flag_text(c.ble.enabled),
            "       # master switch for the BLE GPS source"@,
        ),
    ).push(
        plain_line(
            "show_path"@,
            flag_text(c.ble.show_path),
            "    # draw the path of the incoming BLE GPS data"@,
        ),
    ).push(
        Line::Pair(
            Word::Bare("mac"@),
            Word::Tabbed(mac_text(c)),
            "            # pin a specific device; empty scans by service"@,
        ),
    ).push(Line::Remark(""@)).push(
        Line::Head(
            "ble.names"@,
            "          # nicknames for known boards; they all advertise the same name"@,
        ),
    )
}

/// The `[track]` table.
pub open spec fn with_track(lines: Seq<Line>, texts: RealTexts) -> Seq<Line> {
    lines.push(Line::Remark(""@)).push(Line::Head("track"@, ""@)).push(
        plain_line(
            "min_distance"@,
            texts.min_distance@,
            "   # meters of movement before a new track point"@,
        ),
    )
}

/// The lines above the nicknames.
pub open spec fn lines_above(c: AppConfig, texts: RealTexts) -> Seq<Line> {
    with_ble(with_distance(with_sizes(with_colors(Seq::empty(), c), texts), c), c)
}

/// The lines under `[ble.names]`. With no boards named yet they show the shape
/// as a comment: the section is hand-editable, and an empty header explains
/// nothing about what goes in it.
pub open spec fn name_lines(pairs: Seq<(Seq<char>, Seq<char>)>) -> Seq<Line> {
    if pairs.len() == 0 {
        seq![Line::Remark("# \"AA:BB:CC:DD:EE:FF\" = \"Truck\""@)]
    } else {
        pairs.map_values(|pair: (Seq<char>, Seq<char>)| name_line(pair))
    }
}

/// The lines of a complete, commented settings file.
pub open spec fn file_lines(c: AppConfig, texts: RealTexts) -> Seq<Line> {
    with_track(lines_above(c, texts) + name_lines(c.ble.names.pairs()), texts)
}

/// A complete, commented settings file.
pub open spec fn file_text(c: AppConfig, texts: RealTexts) -> Seq<char> {
    written(file_lines(c, texts))
}

impl AppConfig {
    fn write_colors(&self, sheet: &mut Sheet)
        requires
            old(sheet).fits(),
        ensures
            final(sheet).fits(),
            final(sheet).lines@ == with_colors(old(sheet).lines@, *self),
    {
        sheet.remark(
            "# gps-gui-rs settings. Every key is optional; a missing one keeps its default.",
        );
        sheet.remark("");
        sheet.head("colors", "");
        sheet.set_text(
            "track",
            hex(self.colors.track).as_str(),
            "   # phone track, heading arrow, position dot",
        );
        sheet.set_text(
            "fixed",
            hex(self.colors.fixed).as_str(),
            "   # BLE beacon marker, distance line, beacon path",
        );
    }

    fn write_distance(&self, sheet: &mut Sheet)
        requires
            old(sheet).fits(),
        ensures
            final(sheet).fits(),
            final(sheet).lines@ == with_distance(old(sheet).lines@, *self),
    {
        sheet.remark("");
        sheet.head("distance", "");
        sheet.set(
            "show",
            flag_word(self.distance.show),
            "        # draw the distance label on the line to the beacon",
        );
        sheet.set_text(
            "units",
            self.distance.units.as_str(),
            "    # \"metric\" (km/m) or \"imperial\" (mi/ft)",
        );
        sheet.set(
            "dotted",
            flag_word(self.distance.dotted),
            "       # draw distance line dotted rather than solid",
        );
    }

    fn write_ble(&self, sheet: &mut Sheet)
        requires
            old(sheet).fits(),
        ensures
            final(sheet).fits(),
            final(sheet).lines@ == with_ble(old(sheet).lines@, *self),
    {
        let mac = match &self.ble.mac {
            Some(mac) => mac.clone(),
            None => String::new(),
        };
        assert(mac@ =~= mac_text(*self));
        sheet.remark("");
        sheet.head("ble", "");
        sheet.set(
            "enabled",
            flag_word(self.ble.enabled),
            "       # master switch for the BLE GPS source",
        );
        sheet.set(
            "show_path",
            flag_word(self.ble.show_path),
            "    # draw the path of the incoming BLE GPS data",
        );
        sheet.set_tabbed(
            "mac",
            mac.as_str(),
            "            # pin a specific device; empty scans by service",
        );
        sheet.remark("");
        sheet.head(
            "ble.names",
            "          # nicknames for known boards; they all advertise the same name",
        );
    }

    /// These settings as a complete, commented TOML file - what the Settings
    /// page generates when there is no config file yet.
    pub fn to_toml(&self, texts: &RealTexts) -> (r: String)
        ensures
            r@ == file_text(*self, *texts),
    {
        let mut sheet = Sheet::new();
        self.write_colors(&mut sheet);
        write_sizes(texts, &mut sheet);
        self.write_distance(&mut sheet);
        self.write_ble(&mut sheet);
        write_names(&self.ble.names, &mut sheet);
        sheet.remark("");
        sheet.head("track", "");
        sheet.set(
            "min_distance",
            texts.min_distance.as_str(),
            "   # meters of movement before a new track point",
        );
        sheet.text
    }
}

fn write_sizes(texts: &RealTexts, sheet: &mut Sheet)
    requires
        old(sheet).fits(),
    ensures
        final(sheet).fits(),
        final(sheet).lines@ == with_sizes(old(sheet).lines@, *texts),
{
    sheet.remark("");
    sheet.head("sizes", "              # screen points; each overlay is sized independently");
    sheet.set("marker", texts.marker.as_str(), "          # current-position dot radius");
    sheet.set("beacon", texts.beacon.as_str(), "          # beacon dot radius");
    sheet.set(
        "track",
        texts.track.as_str(),
        "           # track polyline width (phone track and beacon path)",
    );
    sheet.set("distance_line", texts.distance_line.as_str(), "    # user<->beacon line width");
    sheet.set("distance_text", texts.distance_text.as_str(), "   # beacon-distance label font size");
}

fn write_names(names: &NameTable, sheet: &mut Sheet)
    requires
        old(sheet).fits(),
    ensures
        final(sheet).fits(),
        final(sheet).lines@ == old(sheet).lines@ + name_lines(names.pairs()),
{
    let ghost above = sheet.lines@;
    let ghost pairs = names.pairs();
    if names.is_empty() {
        sheet.remark("# \"AA:BB:CC:DD:EE:FF\" = \"Truck\"");
        assert(sheet.lines@ =~= above + name_lines(pairs));
        return;
    }
    let mut i: usize = 0;
    assert(above + name_lines(pairs).take(0) =~= above);
    while i < names.len()
        invariant
            pairs == names.pairs(),
            pairs.len() > 0,
            i <= pairs.len(),
            sheet.fits(),
            sheet.lines@ == above + name_lines(pairs).take(i as int),
        decreases pairs.len() - i,
    {
        sheet.set_name(names.key_at(i), names.name_at(i));
        proof {
            assert(name_lines(pairs).take(i as int).push(name_line(pairs[i as int]))
                =~= name_lines(pairs).take(i + 1));
            assert(sheet.lines@ =~= above + name_lines(pairs).take(i + 1));
        }
        i = i + 1;
    }
    assert(name_lines(pairs).take(i as int) =~= name_lines(pairs));
}

} // verus!
