//! What a reader finds in a settings file that was generated: every setting,
//! under its section and its key.

use crate::config::{
    color_text, colors_read_back, first_problem, hex_char, hex_value, names_given, read_as,
    units_read_back, AppConfig, RawConfig, RawSize,
};
use crate::names::{ascending, walk_matches_map};
use crate::settings_laws::{is_valid, lemma_names_given, name_read, same_settings};
use crate::settings_text::{
    basic, escape, escaped, file_lines, file_text, flag_text, line_text, mac_text, name_line,
    name_lines, with_ble, with_colors, with_distance, with_sizes, with_track, word_text, written,
    Line, RealTexts, Word,
};
use crate::text::{is_hex_digit, opt_text, pieces, trimmed};
use vstd::prelude::*;

verus! {

/// `c` does not occur in `s`.
pub open spec fn lacks(s: Seq<char>, c: char) -> bool {
    forall|i: int| 0 <= i < s.len() ==> #[trigger] s[i] != c
}

/// `s` up to the first `stop`, or all of it.
pub open spec fn upto(s: Seq<char>, stop: char) -> Seq<char>
    decreases s.len(),
{
    if s.len() == 0 || s[0] == stop {
        Seq::empty()
    } else {
        seq![s[0]] + upto(s.drop_first(), stop)
    }
}

/// A character in front of what was read behind it.
pub open spec fn behind(c: char, read: Option<(Seq<char>, Seq<char>)>) -> Option<
    (Seq<char>, Seq<char>),
> {
    match read {
        Some((text, rest)) => Some((seq![c] + text, rest)),
        None => None,
    }
}

/// The number that four hexadecimal digits from `at` on spell, if it is that of
/// a character.
pub open spec fn code_at(s: Seq<char>, at: int) -> Option<int> {
    if at + 4 <= s.len() && is_hex_digit(s[at]) && is_hex_digit(s[at + 1]) && is_hex_digit(
        s[at + 2],
    ) && is_hex_digit(s[at + 3]) {
        let n = hex_value(s[at]) * 4096 + hex_value(s[at + 1]) * 256 + hex_value(s[at + 2]) * 16
            + hex_value(s[at + 3]);
        if n < 0xd800 || 0xe000 <= n {
            Some(n)
        } else {
            None
        }
    } else {
        None
    }
}

/// The text of a TOML basic string whose opening quote stands before `s`, and
/// what follows its closing quote. Of TOML's escapes it takes quotes, backslashes,
/// tabs, the ends of lines and four-digit numbers.
pub open spec fn string_read(s: Seq<char>) -> Option<(Seq<char>, Seq<char>)>
    decreases s.len(),
{
    if s.len() == 0 {
        None
    } else if s[0] == '"' {
        Some((Seq::empty(), s.drop_first()))
    } else if s[0] != '\\' {
        behind(s[0], string_read(s.drop_first()))
    } else if s.len() >= 2 && (s[1] == '"' || s[1] == '\\') {
        behind(s[1], string_read(s.skip(2)))
    } else if s.len() >= 2 && s[1] == 'n' {
        behind('\n', string_read(s.skip(2)))
    } else if s.len() >= 2 && s[1] == 'r' {
        behind('\r', string_read(s.skip(2)))
    } else if s.len() >= 2 && s[1] == 't' {
        behind('\t', string_read(s.skip(2)))
    } else if s.len() >= 6 && s[1] == 'u' && code_at(s, 2) is Some {
        behind(code_at(s, 2)->0 as char, string_read(s.skip(6)))
    } else {
        None
    }
}

/// The word that `s` starts with, and what follows it.
pub open spec fn word_read(s: Seq<char>) -> Option<(Word, Seq<char>)> {
    if s.len() > 0 && s[0] == '"' {
        match string_read(s.drop_first()) {
            Some((text, rest)) => Some((Word::Text(text), rest)),
            None => None,
        }
    } else {
        let word = upto(s, ' ');
        Some((Word::Bare(word), s.skip(word.len() as int)))
    }
}

/// What a word says, with or without quotes.
pub open spec fn content(word: Word) -> Seq<char> {
    match word {
        Word::Text(s) => s,
        Word::Tabbed(s) => s,
        Word::Bare(s) => s,
    }
}

/// A word as it is read: how its tabs were written makes no difference.
pub open spec fn as_read(word: Word) -> Word {
    match word {
        Word::Tabbed(s) => Word::Text(s),
        _ => word,
    }
}

/// What a line says.
pub enum Said {
    Nothing,
    /// A section starts.
    Section(Seq<char>),
    /// A key is set.
    Setting(Seq<char>, Word),
}

/// What a line of a file says to a reader.
pub open spec fn line_said(line: Seq<char>) -> Said {
    if line.len() == 0 || line[0] == '#' {
        Said::Nothing
    } else if line[0] == '[' {
        Said::Section(upto(line.drop_first(), ']'))
    } else {
        match word_read(line) {
            Some((key, rest)) => if rest.len() >= 3 && rest.take(3) == seq![' ', '=', ' '] {
                match word_read(rest.skip(3)) {
                    Some((value, _)) => Said::Setting(content(key), value),
                    None => Said::Nothing,
                }
            } else {
                Said::Nothing
            },
            None => Said::Nothing,
        }
    }
}

/// What a line is meant to say.
pub open spec fn meant(line: Line) -> Said {
    match line {
        Line::Remark(_) => Said::Nothing,
        Line::Head(name, _) => Said::Section(name),
        Line::Pair(key, value, _) => Said::Setting(content(key), as_read(value)),
    }
}

/// A setting that was found: its section, its key and its value.
pub struct Told {
    pub section: Seq<char>,
    pub key: Seq<char>,
    pub value: Word,
}

/// The section that lines leave off in.
pub open spec fn section_after(lines: Seq<Said>) -> Seq<char>
    decreases lines.len(),
{
    if lines.len() == 0 {
        Seq::empty()
    } else {
        match lines.last() {
            Said::Section(name) => name,
            _ => section_after(lines.drop_last()),
        }
    }
}

/// The settings that lines hold, in order.
pub open spec fn told(lines: Seq<Said>) -> Seq<Told>
    decreases lines.len(),
{
    if lines.len() == 0 {
        Seq::empty()
    } else {
        let above = lines.drop_last();
        match lines.last() {
            Said::Setting(key, value) => told(above).push(
                Told { section: section_after(above), key, value },
            ),
            _ => told(above),
        }
    }
}

/// What the lines of a file say to a reader.
pub open spec fn all_said(lines: Seq<Seq<char>>) -> Seq<Said> {
    lines.map_values(|line: Seq<char>| line_said(line))
}

/// The settings that a reader finds in a file, in order.
pub open spec fn found(text: Seq<char>) -> Seq<Told> {
    told(all_said(pieces(text, '\n')))
}

/// What lines are meant to say.
pub open spec fn all_meant(lines: Seq<Line>) -> Seq<Said> {
    lines.map_values(|line: Line| meant(line))
}

/// A word that is read as it stands.
pub open spec fn is_word(s: Seq<char>) -> bool {
    s.len() > 0 && s[0] != '"' && lacks(s, ' ') && lacks(s, '\n')
}

/// A line that says to a reader what it is meant to say.
pub open spec fn is_line(line: Line) -> bool {
    match line {
        Line::Remark(text) => (text.len() == 0 || text[0] == '#') && lacks(text, '\n'),
        Line::Head(name, tail) => lacks(name, ']') && lacks(name, '\n') && lacks(tail, '\n'),
        Line::Pair(key, value, tail) => {
            &&& key matches Word::Bare(s) ==> is_word(s) && s[0] != '#' && s[0] != '['
            &&& value matches Word::Bare(s) ==> is_word(s)
            &&& tail.len() == 0 || tail[0] == ' '
            &&& lacks(tail, '\n')
        },
    }
}

/// Lines that say to a reader what they are meant to say.
pub open spec fn are_lines(lines: Seq<Line>) -> bool {
    forall|i: int| 0 <= i < lines.len() ==> is_line(#[trigger] lines[i])
}

proof fn lemma_upto(s: Seq<char>, stop: char, rest: Seq<char>)
    requires
        lacks(s, stop),
        rest.len() == 0 || rest[0] == stop,
    ensures
        upto(s + rest, stop) == s,
    decreases s.len(),
{
    if s.len() > 0 {
        assert((s + rest).drop_first() =~= s.drop_first() + rest);
        lemma_upto(s.drop_first(), stop, rest);
        assert((s + rest)[0] == s[0]);
        assert(seq![s[0]] + s.drop_first() =~= s);
    } else {
        assert(s + rest =~= rest);
        assert(upto(rest, stop) =~= s);
    }
}

proof fn lemma_hex_chars(n: int)
    requires
        0 <= n < 16,
    ensures
        is_hex_digit(hex_char(n)),
        hex_value(hex_char(n)) == n,
        hex_char(n) != '\n',
{
}

proof fn lemma_code(c: char)
    ensures
        0 <= c as int,
{
}

/// A text written as a basic string reads back, whatever follows it.
pub proof fn strings_read_back(s: Seq<char>, tabs: bool, rest: Seq<char>)
    ensures
        string_read(escaped(s, tabs) + seq!['"'] + rest) == Some((s, rest)),
    decreases s.len(),
{
    let all = escaped(s, tabs) + seq!['"'] + rest;
    if s.len() == 0 {
        assert(all.drop_first() =~= rest);
    } else {
        let c = s[0];
        let tail = s.drop_first();
        let more = escaped(tail, tabs) + seq!['"'] + rest;
        strings_read_back(tail, tabs, rest);
        assert(all =~= escape(c, tabs) + more);
        assert(seq![c] + tail =~= s);
        if c == '"' || c == '\\' || c == '\n' || c == '\r' || (c == '\t' && !tabs) {
            assert(all.skip(2) =~= more);
        } else if c == '\t' {
            assert(all.drop_first() =~= more);
        } else if (c as int) < 32 || c as int == 127 {
            let (high, low) = (c as int / 16, c as int % 16);
            lemma_code(c);
            lemma_hex_chars(high);
            lemma_hex_chars(low);
            lemma_hex_chars(0);
            assert(all[2] == '0' && all[3] == '0');
            assert(hex_char(0) == '0');
            assert(all[4] == hex_char(high) && all[5] == hex_char(low));
            assert(high * 16 + low == c as int);
            assert(code_at(all, 2) == Some(c as int));
            assert(all.skip(6) =~= more);
        } else {
            assert(all.drop_first() =~= more);
        }
    }
}

proof fn lemma_strings_stay_on_the_line(s: Seq<char>, tabs: bool)
    ensures
        lacks(escaped(s, tabs), '\n'),
    decreases s.len(),
{
    if s.len() > 0 {
        lemma_strings_stay_on_the_line(s.drop_first(), tabs);
        let c = s[0];
        if (c as int) < 32 || c as int == 127 {
            lemma_code(c);
            lemma_hex_chars(c as int / 16);
            lemma_hex_chars(c as int % 16);
        }
        let (one, more) = (escape(c, tabs), escaped(s.drop_first(), tabs));
        assert(lacks(one, '\n'));
        let all = escaped(s, tabs);
        assert forall|i: int| 0 <= i < all.len() implies #[trigger] all[i] != '\n' by {
            if i < one.len() {
                assert(all[i] == one[i]);
            } else {
                assert(all[i] == more[i - one.len()]);
            }
        }
    }
}

proof fn lemma_string_reads_back(s: Seq<char>, tabs: bool, rest: Seq<char>)
    ensures
        word_read(basic(s, tabs) + rest) == Some((Word::Text(s), rest)),
        lacks(basic(s, tabs), '\n'),
{
    let text = basic(s, tabs);
    let body = escaped(s, tabs);
    strings_read_back(s, tabs, rest);
    lemma_strings_stay_on_the_line(s, tabs);
    assert((text + rest).drop_first() =~= body + seq!['"'] + rest);
    assert forall|i: int| 0 <= i < text.len() implies #[trigger] text[i] != '\n' by {
        if 0 < i < text.len() - 1 {
            assert(text[i] == body[i - 1]);
        }
    }
}

proof fn lemma_word_reads_back(word: Word, rest: Seq<char>)
    requires
        word matches Word::Bare(s) ==> is_word(s),
        rest.len() == 0 || rest[0] == ' ',
    ensures
        word_read(word_text(word) + rest) == Some((as_read(word), rest)),
        lacks(word_text(word), '\n'),
        word_text(word).len() > 0,
{
    let all = word_text(word) + rest;
    match word {
        Word::Text(s) => {
            lemma_string_reads_back(s, false, rest);
        },
        Word::Tabbed(s) => {
            lemma_string_reads_back(s, true, rest);
        },
        Word::Bare(s) => {
            lemma_upto(s, ' ', rest);
            assert(all[0] == s[0]);
            assert(all.skip(s.len() as int) =~= rest);
        },
    }
}

/// A line says to a reader what it is meant to say.
pub proof fn lines_read_back(line: Line)
    requires
        is_line(line),
    ensures
        line_said(line_text(line)) == meant(line),
        lacks(line_text(line), '\n'),
{
    let text = line_text(line);
    match line {
        Line::Remark(_) => {},
        Line::Head(name, tail) => {
            assert(text.drop_first() =~= name + (seq![']'] + tail));
            lemma_upto(name, ']', seq![']'] + tail);
            assert forall|i: int| 0 <= i < text.len() implies #[trigger] text[i] != '\n' by {
                if 0 < i <= name.len() {
                    assert(text[i] == name[i - 1]);
                } else if i > name.len() + 1 {
                    assert(text[i] == tail[i - name.len() - 2]);
                }
            }
        },
        Line::Pair(key, value, tail) => {
            let equals = seq![' ', '=', ' '];
            let behind_key = equals + (word_text(value) + tail);
            assert(text =~= word_text(key) + behind_key);
            lemma_word_reads_back(key, behind_key);
            lemma_word_reads_back(value, tail);
            assert(behind_key.take(3) =~= equals);
            assert(behind_key.skip(3) =~= word_text(value) + tail);
            let (k, v) = (word_text(key), word_text(value));
            assert(text[0] == k[0]);
            assert forall|i: int| 0 <= i < text.len() implies #[trigger] text[i] != '\n' by {
                if i < k.len() {
                    assert(text[i] == k[i]);
                } else if i < k.len() + 3 {
                    assert(text[i] == equals[i - k.len()]);
                } else if i < k.len() + 3 + v.len() {
                    assert(text[i] == v[i - k.len() - 3]);
                } else {
                    assert(text[i] == tail[i - k.len() - 3 - v.len()]);
                }
            }
        },
    }
}

proof fn lemma_pieces_of_a_line(above: Seq<char>, done: Seq<Seq<char>>, line: Seq<char>)
    requires
        pieces(above, '\n') == done.push(Seq::empty()),
        lacks(line, '\n'),
    ensures
        pieces(above + line, '\n') == done.push(line),
    decreases line.len(),
{
    let all = above + line;
    if line.len() == 0 {
        assert(all =~= above);
        assert(line =~= Seq::empty());
    } else {
        let less = line.drop_last();
        lemma_pieces_of_a_line(above, done, less);
        assert(all.drop_last() =~= above + less);
        assert(all.last() == line[line.len() - 1]);
        assert(done.push(less).drop_last() =~= done);
        assert(less.push(line.last()) =~= line);
    }
}

/// The lines of a written text, and an empty one behind the last end of a line.
proof fn lemma_pieces(lines: Seq<Line>)
    requires
        are_lines(lines),
    ensures
        pieces(written(lines), '\n') == lines.map_values(|l: Line| line_text(l)).push(Seq::empty()),
    decreases lines.len(),
{
    let done = lines.map_values(|l: Line| line_text(l));
    if lines.len() == 0 {
        assert(done.push(Seq::empty()) =~= seq![Seq::<char>::empty()]);
    } else {
        let above = lines.drop_last();
        let line = lines.last();
        assert forall|i: int| 0 <= i < above.len() implies is_line(#[trigger] above[i]) by {
            assert(above[i] == lines[i]);
        }
        assert(is_line(lines[lines.len() - 1]));
        lemma_pieces(above);
        lines_read_back(line);
        let before = above.map_values(|l: Line| line_text(l));
        lemma_pieces_of_a_line(written(above), before, line_text(line));
        let all = written(lines);
        assert(all.drop_last() =~= written(above) + line_text(line));
        assert(before.push(line_text(line)) =~= done);
    }
}

/// What was written is what a reader finds.
pub proof fn written_lines_are_found(lines: Seq<Line>)
    requires
        are_lines(lines),
    ensures
        found(written(lines)) == told(all_meant(lines)),
{
    lemma_pieces(lines);
    let said = all_said(pieces(written(lines), '\n'));
    assert forall|i: int| 0 <= i < lines.len() implies #[trigger] said[i] == meant(lines[i]) by {
        assert(is_line(lines[i]));
        lines_read_back(lines[i]);
    }
    assert(said =~= all_meant(lines).push(Said::Nothing));
    assert(said.drop_last() =~= all_meant(lines));
}

broadcast proof fn meant_line_by_line(lines: Seq<Line>, line: Line)
    ensures
        #[trigger] all_meant(lines.push(line)) == all_meant(lines).push(meant(line)),
{
    assert(all_meant(lines.push(line)) =~= all_meant(lines).push(meant(line)));
}

broadcast proof fn told_line_by_line(lines: Seq<Said>, line: Said)
    ensures
        #[trigger] told(lines.push(line)) == match line {
            Said::Setting(key, value) => told(lines).push(
                Told { section: section_after(lines), key, value },
            ),
            _ => told(lines),
        },
{
    assert(lines.push(line).drop_last() =~= lines);
}

broadcast proof fn section_line_by_line(lines: Seq<Said>, line: Said)
    ensures
        #[trigger] section_after(lines.push(line)) == match line {
            Said::Section(name) => name,
            _ => section_after(lines),
        },
{
    assert(lines.push(line).drop_last() =~= lines);
}

broadcast proof fn good_line_by_line(lines: Seq<Line>, line: Line)
    ensures
        #[trigger] are_lines(lines.push(line)) <==> are_lines(lines) && is_line(line),
{
    let more = lines.push(line);
    if are_lines(more) {
        assert forall|i: int| 0 <= i < lines.len() implies is_line(#[trigger] lines[i]) by {
            assert(more[i] == lines[i]);
        }
        assert(is_line(more[lines.len() as int]));
    }
}

/// A setting that the file has under a section.
pub open spec fn tell(section: Seq<char>, key: Seq<char>, value: Word) -> Told {
    Told { section, key, value }
}

/// The nicknames as a file has them.
pub open spec fn names_told(pairs: Seq<(Seq<char>, Seq<char>)>) -> Seq<Told> {
    pairs.map_values(
        |pair: (Seq<char>, Seq<char>)| tell("ble.names"@, pair.0, Word::Text(pair.1)),
    )
}

/// The settings that a generated file has above the nicknames.
pub open spec fn told_above(c: AppConfig, texts: RealTexts) -> Seq<Told> {
    seq![
        tell("colors"@, "track"@, Word::Text(color_text(c.colors.track))),
        tell("colors"@, "fixed"@, Word::Text(color_text(c.colors.fixed))),
        tell("sizes"@, "marker"@, Word::Bare(texts.marker@)),
        tell("sizes"@, "beacon"@, Word::Bare(texts.beacon@)),
        tell("sizes"@, "track"@, Word::Bare(texts.track@)),
        tell("sizes"@, "distance_line"@, Word::Bare(texts.distance_line@)),
        tell("sizes"@, "distance_text"@, Word::Bare(texts.distance_text@)),
        tell("distance"@, "show"@, Word::Bare(flag_text(c.distance.show))),
        tell("distance"@, "units"@, Word::Text(c.distance.units.word())),
        tell("distance"@, "dotted"@, Word::Bare(flag_text(c.distance.dotted))),
        tell("ble"@, "enabled"@, Word::Bare(flag_text(c.ble.enabled))),
        tell("ble"@, "show_path"@, Word::Bare(flag_text(c.ble.show_path))),
        tell("ble"@, "mac"@, Word::Text(mac_text(c))),
    ]
}

/// Every setting, as a generated file has it.
pub open spec fn all_told(c: AppConfig, texts: RealTexts) -> Seq<Told> {
    (told_above(c, texts) + names_told(c.ble.names.pairs())).push(
        tell("track"@, "min_distance"@, Word::Bare(texts.min_distance@)),
    )
}

/// Numbers that a reader takes as they stand.
pub open spec fn are_words(texts: RealTexts) -> bool {
    &&& is_word(texts.marker@)
    &&& is_word(texts.beacon@)
    &&& is_word(texts.track@)
    &&& is_word(texts.distance_line@)
    &&& is_word(texts.distance_text@)
    &&& is_word(texts.min_distance@)
}

/// No `c` from a place on.
spec fn clear_from(s: Seq<char>, c: char, i: nat) -> bool
    decreases s.len() - i,
{
    i >= s.len() || (s[i as int] != c && clear_from(s, c, i + 1))
}

proof fn lemma_clear(s: Seq<char>, c: char, i: nat)
    requires
        clear_from(s, c, i),
    ensures
        forall|j: int| i <= j < s.len() ==> #[trigger] s[j] != c,
        i == 0 ==> lacks(s, c),
    decreases s.len() - i,
{
    if i < s.len() {
        lemma_clear(s, c, i + 1);
    }
}

proof fn lemma_words_of_title_and_colors()
    ensures
        lacks("# gps-gui-rs settings. Every key is optional; a missing one keeps its default."@, '\n'),
        "# gps-gui-rs settings. Every key is optional; a missing one keeps its default."@[0] == '#',
        lacks("   # phone track, heading arrow, position dot"@, '\n'),
        "   # phone track, heading arrow, position dot"@[0] == ' ',
        lacks("   # BLE beacon marker, distance line, beacon path"@, '\n'),
        "   # BLE beacon marker, distance line, beacon path"@[0] == ' ',
        lacks("colors"@, ']'),
        lacks("colors"@, '\n'),
        is_word("track"@),
        "track"@[0] == 't',
        is_word("fixed"@),
        "fixed"@[0] == 'f',
{
    reveal_with_fuel(clear_from, 80);
    reveal_strlit("# gps-gui-rs settings. Every key is optional; a missing one keeps its default.");
    assert(clear_from("# gps-gui-rs settings. Every key is optional; a missing one keeps its default."@, '\n', 0));
    lemma_clear("# gps-gui-rs settings. Every key is optional; a missing one keeps its default."@, '\n', 0);
    reveal_strlit("   # phone track, heading arrow, position dot");
    assert(clear_from("   # phone track, heading arrow, position dot"@, '\n', 0));
    lemma_clear("   # phone track, heading arrow, position dot"@, '\n', 0);
    reveal_strlit("   # BLE beacon marker, distance line, beacon path");
    assert(clear_from("   # BLE beacon marker, distance line, beacon path"@, '\n', 0));
    lemma_clear("   # BLE beacon marker, distance line, beacon path"@, '\n', 0);
    reveal_strlit("colors");
    assert(clear_from("colors"@, ']', 0));
    assert(clear_from("colors"@, '\n', 0));
    lemma_clear("colors"@, ']', 0);
    lemma_clear("colors"@, '\n', 0);
    reveal_strlit("track");
    assert(clear_from("track"@, ' ', 0));
    assert(clear_from("track"@, '\n', 0));
    lemma_clear("track"@, ' ', 0);
    lemma_clear("track"@, '\n', 0);
    reveal_strlit("fixed");
    assert(clear_from("fixed"@, ' ', 0));
    assert(clear_from("fixed"@, '\n', 0));
    lemma_clear("fixed"@, ' ', 0);
    lemma_clear("fixed"@, '\n', 0);
}

proof fn lemma_words_of_sizes()
    ensures
        lacks("              # screen points; each overlay is sized independently"@, '\n'),
        "              # screen points; each overlay is sized independently"@[0] == ' ',
        lacks("          # current-position dot radius"@, '\n'),
        "          # current-position dot radius"@[0] == ' ',
        lacks("          # beacon dot radius"@, '\n'),
        "          # beacon dot radius"@[0] == ' ',
        lacks("           # track polyline width (phone track and beacon path)"@, '\n'),
        "           # track polyline width (phone track and beacon path)"@[0] == ' ',
        lacks("    # user<->beacon line width"@, '\n'),
        "    # user<->beacon line width"@[0] == ' ',
        lacks("   # beacon-distance label font size"@, '\n'),
        "   # beacon-distance label font size"@[0] == ' ',
        lacks("sizes"@, ']'),
        lacks("sizes"@, '\n'),
        is_word("marker"@),
        "marker"@[0] == 'm',
        is_word("beacon"@),
        "beacon"@[0] == 'b',
        is_word("track"@),
        "track"@[0] == 't',
        is_word("distance_line"@),
        "distance_line"@[0] == 'd',
        is_word("distance_text"@),
        "distance_text"@[0] == 'd',
{
    reveal_with_fuel(clear_from, 80);
    reveal_strlit("              # screen points; each overlay is sized independently");
    assert(clear_from("              # screen points; each overlay is sized independently"@, '\n', 0));
    lemma_clear("              # screen points; each overlay is sized independently"@, '\n', 0);
    reveal_strlit("          # current-position dot radius");
    assert(clear_from("          # current-position dot radius"@, '\n', 0));
    lemma_clear("          # current-position dot radius"@, '\n', 0);
    reveal_strlit("          # beacon dot radius");
    assert(clear_from("          # beacon dot radius"@, '\n', 0));
    lemma_clear("          # beacon dot radius"@, '\n', 0);
    reveal_strlit("           # track polyline width (phone track and beacon path)");
    assert(clear_from("           # track polyline width (phone track and beacon path)"@, '\n', 0));
    lemma_clear("           # track polyline width (phone track and beacon path)"@, '\n', 0);
    reveal_strlit("    # user<->beacon line width");
    assert(clear_from("    # user<->beacon line width"@, '\n', 0));
    lemma_clear("    # user<->beacon line width"@, '\n', 0);
    reveal_strlit("   # beacon-distance label font size");
    assert(clear_from("   # beacon-distance label font size"@, '\n', 0));
    lemma_clear("   # beacon-distance label font size"@, '\n', 0);
    reveal_strlit("sizes");
    assert(clear_from("sizes"@, ']', 0));
    assert(clear_from("sizes"@, '\n', 0));
    lemma_clear("sizes"@, ']', 0);
    lemma_clear("sizes"@, '\n', 0);
    reveal_strlit("marker");
    assert(clear_from("marker"@, ' ', 0));
    assert(clear_from("marker"@, '\n', 0));
    lemma_clear("marker"@, ' ', 0);
    lemma_clear("marker"@, '\n', 0);
    reveal_strlit("beacon");
    assert(clear_from("beacon"@, ' ', 0));
    assert(clear_from("beacon"@, '\n', 0));
    lemma_clear("beacon"@, ' ', 0);
    lemma_clear("beacon"@, '\n', 0);
    reveal_strlit("track");
    assert(clear_from("track"@, ' ', 0));
    assert(clear_from("track"@, '\n', 0));
    lemma_clear("track"@, ' ', 0);
    lemma_clear("track"@, '\n', 0);
    reveal_strlit("distance_line");
    assert(clear_from("distance_line"@, ' ', 0));
    assert(clear_from("distance_line"@, '\n', 0));
    lemma_clear("distance_line"@, ' ', 0);
    lemma_clear("distance_line"@, '\n', 0);
    reveal_strlit("distance_text");
    assert(clear_from("distance_text"@, ' ', 0));
    assert(clear_from("distance_text"@, '\n', 0));
    lemma_clear("distance_text"@, ' ', 0);
    lemma_clear("distance_text"@, '\n', 0);
}

proof fn lemma_words_of_distance()
    ensures
        lacks("        # draw the distance label on the line to the beacon"@, '\n'),
        "        # draw the distance label on the line to the beacon"@[0] == ' ',
        lacks("    # \"metric\" (km/m) or \"imperial\" (mi/ft)"@, '\n'),
        "    # \"metric\" (km/m) or \"imperial\" (mi/ft)"@[0] == ' ',
        lacks("       # draw distance line dotted rather than solid"@, '\n'),
        "       # draw distance line dotted rather than solid"@[0] == ' ',
        lacks("distance"@, ']'),
        lacks("distance"@, '\n'),
        is_word("show"@),
        "show"@[0] == 's',
        is_word("units"@),
        "units"@[0] == 'u',
        is_word("dotted"@),
        "dotted"@[0] == 'd',
        is_word("true"@),
        "true"@[0] == 't',
        is_word("false"@),
        "false"@[0] == 'f',
{
    reveal_with_fuel(clear_from, 80);
    reveal_strlit("        # draw the distance label on the line to the beacon");
    assert(clear_from("        # draw the distance label on the line to the beacon"@, '\n', 0));
    lemma_clear("        # draw the distance label on the line to the beacon"@, '\n', 0);
    reveal_strlit("    # \"metric\" (km/m) or \"imperial\" (mi/ft)");
    assert(clear_from("    # \"metric\" (km/m) or \"imperial\" (mi/ft)"@, '\n', 0));
    lemma_clear("    # \"metric\" (km/m) or \"imperial\" (mi/ft)"@, '\n', 0);
    reveal_strlit("       # draw distance line dotted rather than solid");
    assert(clear_from("       # draw distance line dotted rather than solid"@, '\n', 0));
    lemma_clear("       # draw distance line dotted rather than solid"@, '\n', 0);
    reveal_strlit("distance");
    assert(clear_from("distance"@, ']', 0));
    assert(clear_from("distance"@, '\n', 0));
    lemma_clear("distance"@, ']', 0);
    lemma_clear("distance"@, '\n', 0);
    reveal_strlit("show");
    assert(clear_from("show"@, ' ', 0));
    assert(clear_from("show"@, '\n', 0));
    lemma_clear("show"@, ' ', 0);
    lemma_clear("show"@, '\n', 0);
    reveal_strlit("units");
    assert(clear_from("units"@, ' ', 0));
    assert(clear_from("units"@, '\n', 0));
    lemma_clear("units"@, ' ', 0);
    lemma_clear("units"@, '\n', 0);
    reveal_strlit("dotted");
    assert(clear_from("dotted"@, ' ', 0));
    assert(clear_from("dotted"@, '\n', 0));
    lemma_clear("dotted"@, ' ', 0);
    lemma_clear("dotted"@, '\n', 0);
    reveal_strlit("true");
    assert(clear_from("true"@, ' ', 0));
    assert(clear_from("true"@, '\n', 0));
    lemma_clear("true"@, ' ', 0);
    lemma_clear("true"@, '\n', 0);
    reveal_strlit("false");
    assert(clear_from("false"@, ' ', 0));
    assert(clear_from("false"@, '\n', 0));
    lemma_clear("false"@, ' ', 0);
    lemma_clear("false"@, '\n', 0);
}

proof fn lemma_words_of_ble()
    ensures
        lacks("       # master switch for the BLE GPS source"@, '\n'),
        "       # master switch for the BLE GPS source"@[0] == ' ',
        lacks("    # draw the path of the incoming BLE GPS data"@, '\n'),
        "    # draw the path of the incoming BLE GPS data"@[0] == ' ',
        lacks("            # pin a specific device; empty scans by service"@, '\n'),
        "            # pin a specific device; empty scans by service"@[0] == ' ',
        lacks("          # nicknames for known boards; they all advertise the same name"@, '\n'),
        "          # nicknames for known boards; they all advertise the same name"@[0] == ' ',
        lacks("ble"@, ']'),
        lacks("ble"@, '\n'),
        lacks("ble.names"@, ']'),
        lacks("ble.names"@, '\n'),
        is_word("enabled"@),
        "enabled"@[0] == 'e',
        is_word("show_path"@),
        "show_path"@[0] == 's',
        is_word("mac"@),
        "mac"@[0] == 'm',
        is_word("true"@),
        "true"@[0] == 't',
        is_word("false"@),
        "false"@[0] == 'f',
{
    reveal_with_fuel(clear_from, 80);
    reveal_strlit("       # master switch for the BLE GPS source");
    assert(clear_from("       # master switch for the BLE GPS source"@, '\n', 0));
    lemma_clear("       # master switch for the BLE GPS source"@, '\n', 0);
    reveal_strlit("    # draw the path of the incoming BLE GPS data");
    assert(clear_from("    # draw the path of the incoming BLE GPS data"@, '\n', 0));
    lemma_clear("    # draw the path of the incoming BLE GPS data"@, '\n', 0);
    reveal_strlit("            # pin a specific device; empty scans by service");
    assert(clear_from("            # pin a specific device; empty scans by service"@, '\n', 0));
    lemma_clear("            # pin a specific device; empty scans by service"@, '\n', 0);
    reveal_strlit("          # nicknames for known boards; they all advertise the same name");
    assert(clear_from("          # nicknames for known boards; they all advertise the same name"@, '\n', 0));
    lemma_clear("          # nicknames for known boards; they all advertise the same name"@, '\n', 0);
    reveal_strlit("ble");
    assert(clear_from("ble"@, ']', 0));
    assert(clear_from("ble"@, '\n', 0));
    lemma_clear("ble"@, ']', 0);
    lemma_clear("ble"@, '\n', 0);
    reveal_strlit("ble.names");
    assert(clear_from("ble.names"@, ']', 0));
    assert(clear_from("ble.names"@, '\n', 0));
    lemma_clear("ble.names"@, ']', 0);
    lemma_clear("ble.names"@, '\n', 0);
    reveal_strlit("enabled");
    assert(clear_from("enabled"@, ' ', 0));
    assert(clear_from("enabled"@, '\n', 0));
    lemma_clear("enabled"@, ' ', 0);
    lemma_clear("enabled"@, '\n', 0);
    reveal_strlit("show_path");
    assert(clear_from("show_path"@, ' ', 0));
    assert(clear_from("show_path"@, '\n', 0));
    lemma_clear("show_path"@, ' ', 0);
    lemma_clear("show_path"@, '\n', 0);
    reveal_strlit("mac");
    assert(clear_from("mac"@, ' ', 0));
    assert(clear_from("mac"@, '\n', 0));
    lemma_clear("mac"@, ' ', 0);
    lemma_clear("mac"@, '\n', 0);
    reveal_strlit("true");
    assert(clear_from("true"@, ' ', 0));
    assert(clear_from("true"@, '\n', 0));
    lemma_clear("true"@, ' ', 0);
    lemma_clear("true"@, '\n', 0);
    reveal_strlit("false");
    assert(clear_from("false"@, ' ', 0));
    assert(clear_from("false"@, '\n', 0));
    lemma_clear("false"@, ' ', 0);
    lemma_clear("false"@, '\n', 0);
}

proof fn lemma_words_of_track()
    ensures
        lacks("   # meters of movement before a new track point"@, '\n'),
        "   # meters of movement before a new track point"@[0] == ' ',
        lacks("# \"AA:BB:CC:DD:EE:FF\" = \"Truck\""@, '\n'),
        "# \"AA:BB:CC:DD:EE:FF\" = \"Truck\""@[0] == '#',
        lacks("track"@, ']'),
        lacks("track"@, '\n'),
        is_word("min_distance"@),
        "min_distance"@[0] == 'm',
{
    reveal_with_fuel(clear_from, 80);
    reveal_strlit("   # meters of movement before a new track point");
    assert(clear_from("   # meters of movement before a new track point"@, '\n', 0));
    lemma_clear("   # meters of movement before a new track point"@, '\n', 0);
    reveal_strlit("# \"AA:BB:CC:DD:EE:FF\" = \"Truck\"");
    assert(clear_from("# \"AA:BB:CC:DD:EE:FF\" = \"Truck\""@, '\n', 0));
    lemma_clear("# \"AA:BB:CC:DD:EE:FF\" = \"Truck\""@, '\n', 0);
    reveal_strlit("track");
    assert(clear_from("track"@, ']', 0));
    assert(clear_from("track"@, '\n', 0));
    lemma_clear("track"@, ']', 0);
    lemma_clear("track"@, '\n', 0);
    reveal_strlit("min_distance");
    assert(clear_from("min_distance"@, ' ', 0));
    assert(clear_from("min_distance"@, '\n', 0));
    lemma_clear("min_distance"@, ' ', 0);
    lemma_clear("min_distance"@, '\n', 0);
}

proof fn lemma_no_text()
    ensures
        ""@.len() == 0,
{
    reveal_strlit("");
}

proof fn lemma_colors(lines: Seq<Line>, c: AppConfig)
    requires
        are_lines(lines),
    ensures
        are_lines(with_colors(lines, c)),
        told(all_meant(with_colors(lines, c))) == told(all_meant(lines)).push(
            tell("colors"@, "track"@, Word::Text(color_text(c.colors.track))),
        ).push(tell("colors"@, "fixed"@, Word::Text(color_text(c.colors.fixed)))),
{
    broadcast use meant_line_by_line, told_line_by_line, section_line_by_line, good_line_by_line;

    lemma_words_of_title_and_colors();
    lemma_no_text();
}

proof fn lemma_sizes(lines: Seq<Line>, texts: RealTexts)
    requires
        are_lines(lines),
        are_words(texts),
    ensures
        are_lines(with_sizes(lines, texts)),
        told(all_meant(with_sizes(lines, texts))) == told(all_meant(lines)).push(
            tell("sizes"@, "marker"@, Word::Bare(texts.marker@)),
        ).push(tell("sizes"@, "beacon"@, Word::Bare(texts.beacon@))).push(
            tell("sizes"@, "track"@, Word::Bare(texts.track@)),
        ).push(tell("sizes"@, "distance_line"@, Word::Bare(texts.distance_line@))).push(
            tell("sizes"@, "distance_text"@, Word::Bare(texts.distance_text@)),
        ),
{
    broadcast use meant_line_by_line, told_line_by_line, section_line_by_line, good_line_by_line;

    lemma_words_of_sizes();
    lemma_no_text();
}

proof fn lemma_distance(lines: Seq<Line>, c: AppConfig)
    requires
        are_lines(lines),
    ensures
        are_lines(with_distance(lines, c)),
        told(all_meant(with_distance(lines, c))) == told(all_meant(lines)).push(
            tell("distance"@, "show"@, Word::Bare(flag_text(c.distance.show))),
        ).push(tell("distance"@, "units"@, Word::Text(c.distance.units.word()))).push(
            tell("distance"@, "dotted"@, Word::Bare(flag_text(c.distance.dotted))),
        ),
{
    broadcast use meant_line_by_line, told_line_by_line, section_line_by_line, good_line_by_line;

    lemma_words_of_distance();
    lemma_no_text();
}

proof fn lemma_ble(lines: Seq<Line>, c: AppConfig)
    requires
        are_lines(lines),
    ensures
        are_lines(with_ble(lines, c)),
        told(all_meant(with_ble(lines, c))) == told(all_meant(lines)).push(
            tell("ble"@, "enabled"@, Word::Bare(flag_text(c.ble.enabled))),
        ).push(tell("ble"@, "show_path"@, Word::Bare(flag_text(c.ble.show_path)))).push(
            tell("ble"@, "mac"@, Word::Text(mac_text(c))),
        ),
        section_after(all_meant(with_ble(lines, c))) == "ble.names"@,
{
    broadcast use meant_line_by_line, told_line_by_line, section_line_by_line, good_line_by_line;

    lemma_words_of_ble();
    lemma_no_text();
}

proof fn lemma_track(lines: Seq<Line>, texts: RealTexts)
    requires
        are_lines(lines),
        are_words(texts),
    ensures
        are_lines(with_track(lines, texts)),
        told(all_meant(with_track(lines, texts))) == told(all_meant(lines)).push(
            tell("track"@, "min_distance"@, Word::Bare(texts.min_distance@)),
        ),
{
    broadcast use meant_line_by_line, told_line_by_line, section_line_by_line, good_line_by_line;

    lemma_words_of_track();
    lemma_no_text();
}

proof fn lemma_names(above: Seq<Line>, pairs: Seq<(Seq<char>, Seq<char>)>)
    requires
        are_lines(above),
        section_after(all_meant(above)) == "ble.names"@,
    ensures
        ({
            let lines = above + pairs.map_values(|p: (Seq<char>, Seq<char>)| name_line(p));
            &&& are_lines(lines)
            &&& told(all_meant(lines)) == told(all_meant(above)) + names_told(pairs)
            &&& section_after(all_meant(lines)) == "ble.names"@
        }),
    decreases pairs.len(),
{
    broadcast use meant_line_by_line, told_line_by_line, section_line_by_line, good_line_by_line;

    let lines = above + pairs.map_values(|p: (Seq<char>, Seq<char>)| name_line(p));
    if pairs.len() == 0 {
        assert(lines =~= above);
        assert(told(all_meant(above)) + names_told(pairs) =~= told(all_meant(above)));
    } else {
        let fewer = pairs.drop_last();
        lemma_names(above, fewer);
        let before = above + fewer.map_values(|p: (Seq<char>, Seq<char>)| name_line(p));
        assert(lines =~= before.push(name_line(pairs.last())));
        assert(told(all_meant(above)) + names_told(pairs) =~= (told(all_meant(above))
            + names_told(fewer)).push(
            tell("ble.names"@, pairs.last().0, Word::Text(pairs.last().1)),
        ));
    }
}

/// A reader finds every setting in a generated file, under its section and its
/// key, each nickname among them, and nothing else.
pub proof fn the_generated_file_says_it_all(c: AppConfig, texts: RealTexts)
    requires
        are_words(texts),
    ensures
        found(file_text(c, texts)) == all_told(c, texts),
{
    broadcast use meant_line_by_line, told_line_by_line, section_line_by_line, good_line_by_line;

    let none: Seq<Line> = Seq::empty();
    let pairs = c.ble.names.pairs();
    assert(all_meant(none) =~= Seq::<Said>::empty());
    let l1 = with_colors(none, c);
    let l2 = with_sizes(l1, texts);
    let l3 = with_distance(l2, c);
    let above = with_ble(l3, c);
    lemma_colors(none, c);
    lemma_sizes(l1, texts);
    lemma_distance(l2, c);
    lemma_ble(l3, c);
    assert(told(all_meant(above)) =~= told_above(c, texts));
    let named = above + name_lines(pairs);
    if pairs.len() == 0 {
        let shape = Line::Remark("# \"AA:BB:CC:DD:EE:FF\" = \"Truck\""@);
        assert(named =~= above.push(shape));
        lemma_words_of_track();
        assert(told_above(c, texts) + names_told(pairs) =~= told_above(c, texts));
    } else {
        lemma_names(above, pairs);
        assert(name_lines(pairs) =~= pairs.map_values(
            |p: (Seq<char>, Seq<char>)| name_line(p),
        ));
    }
    lemma_track(named, texts);
    written_lines_are_found(file_lines(c, texts));
}

/// A setting is among those found in a file.
pub open spec fn is_set(
    list: Seq<Told>,
    section: Seq<char>,
    key: Seq<char>,
    value: Word,
) -> bool {
    exists|i: int| 0 <= i < list.len() && #[trigger] list[i] == tell(section, key, value)
}

/// A string is taken as the file has it.
pub open spec fn text_taken(
    list: Seq<Told>,
    section: Seq<char>,
    key: Seq<char>,
    given: Option<String>,
) -> bool {
    forall|text: Seq<char>| #[trigger]
        is_set(list, section, key, Word::Text(text)) ==> opt_text(given) == Some(text)
}

/// A boolean is taken as the file has it.
pub open spec fn flag_taken(
    list: Seq<Told>,
    section: Seq<char>,
    key: Seq<char>,
    given: Option<bool>,
) -> bool {
    forall|b: bool| #[trigger]
        is_set(list, section, key, Word::Bare(flag_text(b))) ==> given == Some(b)
}

/// A size is taken as the number that the file has, in single precision.
pub open spec fn size_taken(
    list: Seq<Told>,
    key: Seq<char>,
    given: Option<RawSize>,
    single: spec_fn(Seq<char>) -> u32,
) -> bool {
    forall|word: Seq<char>| #[trigger]
        is_set(list, "sizes"@, key, Word::Bare(word)) ==> given is Some && given->0.bits == single(
            word,
        )
}

/// The tables read from a file hold what the file has. `single` and `double` are
/// how numbers are read.
pub open spec fn all_taken(
    list: Seq<Told>,
    raw: RawConfig,
    single: spec_fn(Seq<char>) -> u32,
    double: spec_fn(Seq<char>) -> u64,
) -> bool {
    &&& text_taken(list, "colors"@, "track"@, raw.colors.track)
    &&& text_taken(list, "colors"@, "fixed"@, raw.colors.fixed)
    &&& size_taken(list, "marker"@, raw.sizes.marker, single)
    &&& size_taken(list, "beacon"@, raw.sizes.beacon, single)
    &&& size_taken(list, "track"@, raw.sizes.track, single)
    &&& size_taken(list, "distance_line"@, raw.sizes.distance_line, single)
    &&& size_taken(list, "distance_text"@, raw.sizes.distance_text, single)
    &&& flag_taken(list, "distance"@, "show"@, raw.distance.show)
    &&& text_taken(list, "distance"@, "units"@, raw.distance.units)
    &&& flag_taken(list, "distance"@, "dotted"@, raw.distance.dotted)
    &&& flag_taken(list, "ble"@, "enabled"@, raw.ble.enabled)
    &&& flag_taken(list, "ble"@, "show_path"@, raw.ble.show_path)
    &&& text_taken(list, "ble"@, "mac"@, raw.ble.mac)
    &&& forall|word: Seq<char>| #[trigger]
        is_set(list, "track"@, "min_distance"@, Word::Bare(word)) ==> raw.track.min_distance is Some
            && raw.track.min_distance->0.bits == double(word)
    &&& forall|key: Seq<char>, name: Seq<char>|
        is_set(list, "ble.names"@, key, Word::Text(name)) <==> #[trigger] name_read(
            raw.ble.names@,
            key,
            name,
        )
}

/// The numbers of a generated file are the settings: the sizes in single
/// precision, the recording distance as it is.
pub open spec fn texts_fit(
    texts: RealTexts,
    c: AppConfig,
    single: spec_fn(Seq<char>) -> u32,
    double: spec_fn(Seq<char>) -> u64,
) -> bool {
    &&& are_words(texts)
    &&& single(texts.marker@) == c.sizes.marker
    &&& single(texts.beacon@) == c.sizes.beacon
    &&& single(texts.track@) == c.sizes.track
    &&& single(texts.distance_line@) == c.sizes.distance_line
    &&& single(texts.distance_text@) == c.sizes.distance_text
    &&& double(texts.min_distance@) == c.track.min_distance
}

proof fn lemma_names_are_set(
    c: AppConfig,
    texts: RealTexts,
    key: Seq<char>,
    name: Seq<char>,
)
    requires
        ascending(c.ble.names.pairs()),
    ensures
        is_set(all_told(c, texts), "ble.names"@, key, Word::Text(name)) <==> {
            &&& c.ble.names@.dom().contains(key)
            &&& c.ble.names@[key] == name
        },
{
    let list = all_told(c, texts);
    let pairs = c.ble.names.pairs();
    let above = told_above(c, texts);
    let want = tell("ble.names"@, key, Word::Text(name));
    walk_matches_map(pairs);
    reveal_strlit("ble.names");
    reveal_strlit("colors");
    reveal_strlit("sizes");
    reveal_strlit("distance");
    reveal_strlit("ble");
    reveal_strlit("track");
    assert(above.len() == 13);
    assert(forall|i: int| 0 <= i < 13 ==> (#[trigger] above[i]).section.len() < 9);
    if is_set(list, "ble.names"@, key, Word::Text(name)) {
        let i = choose|i: int| 0 <= i < list.len() && #[trigger] list[i] == want;
        if i < 13 {
            assert(list[i] == above[i]);
            assert(false);
        } else if i < 13 + pairs.len() {
            assert(list[i] == names_told(pairs)[i - 13]);
            assert(pairs[i - 13] == (key, name));
        } else {
            assert(list[i].section == "track"@);
            assert(false);
        }
    }
    if c.ble.names@.dom().contains(key) && c.ble.names@[key] == name {
        let j = choose|j: int| 0 <= j < pairs.len() && (#[trigger] pairs[j]).0 == key;
        assert(pairs[j].1 == name);
        assert(list[13 + j] == names_told(pairs)[j]);
        assert(list[13 + j] == want);
    }
}

/// A generated file reads back as the same settings, every one of them: tables
/// that hold what the file has are accepted, and stand for the settings that the
/// file was generated from.
pub proof fn a_generated_file_reads_back(
    c: AppConfig,
    texts: RealTexts,
    single: spec_fn(Seq<char>) -> u32,
    double: spec_fn(Seq<char>) -> u64,
    raw: RawConfig,
    back: AppConfig,
)
    requires
        is_valid(c),
        ascending(c.ble.names.pairs()),
        texts_fit(texts, c, single, double),
        all_taken(found(file_text(c, texts)), raw, single, double),
    ensures
        first_problem(raw) is None,
        read_as(raw, back) ==> same_settings(back, c),
{
    the_generated_file_says_it_all(c, texts);
    let list = all_told(c, texts);
    let above = told_above(c, texts);
    let names = c.ble.names@;
    assert(above.len() == 13);
    assert forall|i: int| 0 <= i < 13 implies #[trigger] above[i] == list[i] by {}
    assert(is_set(list, above[0].section, above[0].key, above[0].value)) by {
        assert(list[0] == above[0]);
    }
    assert(is_set(list, above[1].section, above[1].key, above[1].value)) by {
        assert(list[1] == above[1]);
    }
    assert(is_set(list, above[2].section, above[2].key, above[2].value)) by {
        assert(list[2] == above[2]);
    }
    assert(is_set(list, above[3].section, above[3].key, above[3].value)) by {
        assert(list[3] == above[3]);
    }
    assert(is_set(list, above[4].section, above[4].key, above[4].value)) by {
        assert(list[4] == above[4]);
    }
    assert(is_set(list, above[5].section, above[5].key, above[5].value)) by {
        assert(list[5] == above[5]);
    }
    assert(is_set(list, above[6].section, above[6].key, above[6].value)) by {
        assert(list[6] == above[6]);
    }
    assert(is_set(list, above[7].section, above[7].key, above[7].value)) by {
        assert(list[7] == above[7]);
    }
    assert(is_set(list, above[8].section, above[8].key, above[8].value)) by {
        assert(list[8] == above[8]);
    }
    assert(is_set(list, above[9].section, above[9].key, above[9].value)) by {
        assert(list[9] == above[9]);
    }
    assert(is_set(list, above[10].section, above[10].key, above[10].value)) by {
        assert(list[10] == above[10]);
    }
    assert(is_set(list, above[11].section, above[11].key, above[11].value)) by {
        assert(list[11] == above[11]);
    }
    assert(is_set(list, above[12].section, above[12].key, above[12].value)) by {
        assert(list[12] == above[12]);
    }
    assert(is_set(list, "track"@, "min_distance"@, Word::Bare(texts.min_distance@))) by {
        assert(list[list.len() - 1] == tell(
            "track"@,
            "min_distance"@,
            Word::Bare(texts.min_distance@),
        ));
    }
    colors_read_back(c.colors.track);
    colors_read_back(c.colors.fixed);
    units_read_back(c.distance.units);
    assert(trimmed(Seq::<char>::empty()).len() == 0);
    let given = raw.ble.names@;
    assert forall|i: int| 0 <= i < given.len() implies names.dom().contains(
        (#[trigger] given[i]).0@,
    ) && names[given[i].0@] == given[i].1@ by {
        lemma_names_are_set(c, texts, given[i].0@, given[i].1@);
        assert(name_read(given, given[i].0@, given[i].1@));
    }
    lemma_names_given(given, names);
    assert forall|k: Seq<char>| #[trigger] names.dom().contains(k) implies names_given(
        given,
    ).dom().contains(k) by {
        lemma_names_are_set(c, texts, k, names[k]);
        assert(name_read(given, k, names[k]));
        let i = choose|i: int|
            0 <= i < given.len() && (#[trigger] given[i]).0@ == k && given[i].1@ == names[k];
        assert(names_given(given).dom().contains(given[i].0@));
    }
    assert(names_given(given) =~= names);
}

} // verus!
