//! The application's settings and their file.

use gps_gui_rs::config::{
    hex, normalize_mac, parse_hex, parse_size, AppConfig, BleSettings, DistanceUnits, RawBle,
    RawColors, RawConfig, RawDistance, RawDistanceValue, RawSize, RawSizes, RawTrack, Rgb,
};
use gps_gui_rs::document::Real;
use gps_gui_rs::settings_file::Reals;
use gps_gui_rs::settings_text::RealTexts;
use toml::Value;

/// A value of a section of a settings file.
fn value<'a>(table: &'a toml::Table, section: &str, key: &str) -> Option<&'a Value> {
    table.get(section)?.as_table()?.get(key)
}

fn text(table: &toml::Table, section: &str, key: &str) -> Option<String> {
    value(table, section, key)?.as_str().map(str::to_string)
}

fn flag(table: &toml::Table, section: &str, key: &str) -> Option<bool> {
    value(table, section, key)?.as_bool()
}

fn number(table: &toml::Table, section: &str, key: &str) -> Option<f64> {
    let v = value(table, section, key)?;
    v.as_float().or(v.as_integer().map(|n| n as f64))
}

fn size(table: &toml::Table, key: &str) -> Option<RawSize> {
    let v = number(table, "sizes", key)? as f32;
    Some(RawSize { bits: v.to_bits(), text: v.to_string() })
}

/// The tables of a settings file.
fn raw(text_of_file: &str) -> RawConfig {
    let t: toml::Table = text_of_file.parse().unwrap();
    let mut names: Vec<(String, String)> = Vec::new();
    if let Some(table) = value(&t, "ble", "names").and_then(Value::as_table) {
        for (mac, name) in table {
            names.push((mac.clone(), name.as_str().unwrap().to_string()));
        }
    }
    names.sort();
    RawConfig {
        colors: RawColors {
            track: text(&t, "colors", "track"),
            fixed: text(&t, "colors", "fixed"),
        },
        sizes: RawSizes {
            marker: size(&t, "marker"),
            beacon: size(&t, "beacon"),
            track: size(&t, "track"),
            distance_line: size(&t, "distance_line"),
            distance_text: size(&t, "distance_text"),
        },
        distance: RawDistance {
            show: flag(&t, "distance", "show"),
            units: text(&t, "distance", "units"),
            dotted: flag(&t, "distance", "dotted"),
        },
        ble: RawBle {
            enabled: flag(&t, "ble", "enabled"),
            show_path: flag(&t, "ble", "show_path"),
            mac: text(&t, "ble", "mac"),
            names,
        },
        track: RawTrack {
            min_distance: number(&t, "track", "min_distance")
                .map(|v| RawDistanceValue { bits: v.to_bits(), text: v.to_string() }),
        },
    }
}

fn from_toml(text_of_file: &str) -> Result<AppConfig, String> {
    AppConfig::from_raw(&raw(text_of_file))
}

/// The float that reads back as a single-precision number.
fn float_of(bits: u32) -> Real {
    let v = f32::from_bits(bits);
    let wide: f64 = format!("{v:?}").parse().unwrap();
    Real::new(toml_edit::Value::from(wide)).unwrap()
}

fn reals(c: &AppConfig) -> Reals {
    Reals {
        marker: float_of(c.sizes.marker),
        beacon: float_of(c.sizes.beacon),
        track: float_of(c.sizes.track),
        distance_line: float_of(c.sizes.distance_line),
        distance_text: float_of(c.sizes.distance_text),
        min_distance: Real::new(toml_edit::Value::from(f64::from_bits(c.track.min_distance)))
            .unwrap(),
    }
}

fn text_of_float(bits: u32) -> String {
    format!("{:?}", f32::from_bits(bits))
}

fn texts(c: &AppConfig) -> RealTexts {
    RealTexts {
        marker: text_of_float(c.sizes.marker),
        beacon: text_of_float(c.sizes.beacon),
        track: text_of_float(c.sizes.track),
        distance_line: text_of_float(c.sizes.distance_line),
        distance_text: text_of_float(c.sizes.distance_text),
        min_distance: format!("{:?}", f64::from_bits(c.track.min_distance)),
    }
}

/// Saves over a file's content, and tells whether the file is new.
fn save(c: &AppConfig, existing: Option<&str>) -> (String, bool) {
    let reals = reals(c);
    assert!(reals.fits(c));
    let Ok(file) = c.save("gps-config.toml", existing, &reals, &texts(c)) else {
        panic!("not saved");
    };
    (file.text, file.created)
}

#[test]
fn units_parse_is_case_insensitive_and_aliased() {
    assert_eq!(DistanceUnits::parse("Metric").unwrap(), DistanceUnits::Metric);
    assert_eq!(DistanceUnits::parse("km/m").unwrap(), DistanceUnits::Metric);
    assert_eq!(DistanceUnits::parse("IMPERIAL").unwrap(), DistanceUnits::Imperial);
    assert_eq!(DistanceUnits::parse("mi/ft").unwrap(), DistanceUnits::Imperial);
    assert!(DistanceUnits::parse("furlongs").is_err());
}

#[test]
fn units_parse_trims_and_names_what_it_refuses() {
    assert_eq!(DistanceUnits::parse("  m\t").unwrap(), DistanceUnits::Metric);
    assert_eq!(DistanceUnits::parse("KM").unwrap(), DistanceUnits::Metric);
    assert_eq!(DistanceUnits::parse("Ft").unwrap(), DistanceUnits::Imperial);
    assert_eq!(DistanceUnits::parse("mI").unwrap(), DistanceUnits::Imperial);
    assert_eq!(
        DistanceUnits::parse(" Fur\"longs ").unwrap_err(),
        "invalid distance.units \"fur\\\"longs\", expected \"metric\" or \"imperial\""
    );
}

/// Folding single characters must accept what folding the whole word accepts.
#[test]
fn units_parse_folds_as_lower_casing_does() {
    for n in 0..=0x10_ffff_u32 {
        let Some(c) = char::from_u32(n) else { continue };
        for word in [format!("{c}m"), format!("m{c}"), format!("f{c}")] {
            let lower = word.trim().to_lowercase();
            let want = match lower.as_str() {
                "metric" | "km" | "km/m" | "m" => Some(DistanceUnits::Metric),
                "imperial" | "mi" | "mi/ft" | "ft" => Some(DistanceUnits::Imperial),
                _ => None,
            };
            assert_eq!(DistanceUnits::parse(&word).ok(), want, "{word:?}");
        }
    }
}

#[test]
fn unit_words_read_back() {
    for units in [DistanceUnits::Metric, DistanceUnits::Imperial] {
        assert_eq!(DistanceUnits::parse(units.as_str()).unwrap(), units);
    }
}

#[test]
fn colors_read_back() {
    let c = Rgb { r: 0x0a, g: 0xff, b: 0x40 };
    assert_eq!(hex(c), "#0aff40");
    assert_eq!(parse_hex(&hex(c)).unwrap(), c);
    assert_eq!(parse_hex(" #0AFF40 ").unwrap(), c);
    assert_eq!(parse_hex("0aff40").unwrap(), c);
}

#[test]
fn bad_colors_are_named() {
    for s in ["#0aff4", "#0aff400", "#0aff4g", "", "#", "# 0aff40", "#0äff4", "##0078ff", "##"] {
        assert_eq!(
            parse_hex(s).unwrap_err(),
            format!("invalid hex color {s:?}, expected #rrggbb")
        );
    }
}

#[test]
fn generated_file_reads_back_as_the_same_settings() {
    let cfg = AppConfig::default();
    let back = from_toml(&cfg.to_toml(&texts(&cfg))).unwrap();
    assert_eq!(back.colors.fixed, cfg.colors.fixed);
    assert_eq!(back.sizes.distance_text, cfg.sizes.distance_text);
    assert_eq!(back.distance.units, cfg.distance.units);
    assert_eq!(back.track.min_distance, cfg.track.min_distance);
    // The generated `mac = ""` means "scan by service", not a pinned MAC.
    assert_eq!(back.ble.mac, None);
}

#[test]
fn generated_file_is_documented() {
    let mut cfg = AppConfig::default();
    let file = cfg.to_toml(&texts(&cfg));
    assert_eq!(
        file,
        "# gps-gui-rs settings. Every key is optional; a missing one keeps its default.\n\
         \n\
         [colors]\n\
         track = \"#0078ff\"   # phone track, heading arrow, position dot\n\
         fixed = \"#ff5028\"   # BLE beacon marker, distance line, beacon path\n\
         \n\
         [sizes]              # screen points; each overlay is sized independently\n\
         marker = 8.0          # current-position dot radius\n\
         beacon = 6.0          # beacon dot radius\n\
         track = 3.0           # track polyline width (phone track and beacon path)\n\
         distance_line = 3.0    # user<->beacon line width\n\
         distance_text = 14.0   # beacon-distance label font size\n\
         \n\
         [distance]\n\
         show = false        # draw the distance label on the line to the beacon\n\
         units = \"metric\"    # \"metric\" (km/m) or \"imperial\" (mi/ft)\n\
         dotted = true       # draw distance line dotted rather than solid\n\
         \n\
         [ble]\n\
         enabled = true       # master switch for the BLE GPS source\n\
         show_path = false    # draw the path of the incoming BLE GPS data\n\
         mac = \"\"            # pin a specific device; empty scans by service\n\
         \n\
         [ble.names]          # nicknames for known boards; they all advertise the same name\n\
         # \"AA:BB:CC:DD:EE:FF\" = \"Truck\"\n\
         \n\
         [track]\n\
         min_distance = 3.0   # meters of movement before a new track point\n"
    );
    cfg.ble.set_name("112233445566", "Back \"pack\"");
    let file = cfg.to_toml(&texts(&cfg));
    assert!(file.contains("\"11:22:33:44:55:66\" = \"Back \\\"pack\\\"\"\n\n[track]"), "{file}");
    assert!(!file.contains("Truck"));
}

/// Names and addresses are written so that a reader takes them as they are.
#[test]
fn generated_file_spells_any_text() {
    let mut cfg = AppConfig::default();
    cfg.ble.mac = Some("a\"b\\c\u{1}\u{7f}\u{85}é\t\r".into());
    cfg.ble.set_name("AA", "say \"hi\" \\ \u{0}\t\u{1f}\u{200b}\u{301}x");
    cfg.ble.set_name("BB", "a\nb\r = 1 # c [d]");
    cfg.distance.units = DistanceUnits::Imperial;
    let file = cfg.to_toml(&texts(&cfg));
    assert!(file.contains("mac = \"a\\\"b\\\\c\\u0001\\u007f\u{85}é\t\\r\" "), "{file}");
    assert!(file.contains("\\u0000\\t\\u001f\u{200b}\u{301}x\"\n"), "{file}");
    assert!(file.contains("\"BB\" = \"a\\nb\\r = 1 # c [d]\"\n"), "{file}");
    let back = from_toml(&file).unwrap();
    assert_eq!(back.ble.mac, cfg.ble.mac);
    assert_eq!(back.ble.names.len(), 2);
    assert_eq!(back.ble.name_of("AA"), cfg.ble.name_of("AA"));
    assert_eq!(back.ble.name_of("BB"), cfg.ble.name_of("BB"));
    assert_eq!(back.distance, cfg.distance);
    // What is saved next is edited in place.
    let (text, created) = save(&cfg, Some(&file));
    assert!(!created);
    assert_eq!(from_toml(&text).unwrap().ble.mac, cfg.ble.mac);
}

#[test]
fn save_edits_in_place_and_round_trips() {
    let existing = "# keep me\n[sizes]\nmarker = 8.0 # and me\n\n[extra]\nunknown = 1\n";
    let mut cfg = AppConfig::default();
    cfg.sizes.marker = 12.5f32.to_bits();
    cfg.colors.track = Rgb { r: 1, g: 2, b: 3 };
    // False: the file was already there, so it was edited, not generated.
    let (text, created) = save(&cfg, Some(existing));
    assert!(!created);

    assert!(text.contains("# keep me"), "{text}");
    assert!(text.contains("# and me"), "{text}");
    assert!(text.contains("unknown = 1"), "{text}");

    let back = from_toml(&text).unwrap();
    assert_eq!(back.sizes.marker, 12.5f32.to_bits());
    assert_eq!(back.colors.track, Rgb { r: 1, g: 2, b: 3 });
}

#[test]
fn save_keeps_comments_order_and_spacing() {
    let existing = "# top\n\n[track] # header\n# above the key\nmin_distance   =  5.0  # behind\n\
                    other = [ 1, 2 ]\n\n[colors]\nfixed = '#000000' # f\n# end\n";
    let mut cfg = AppConfig::default();
    cfg.track.min_distance = 7.25f64.to_bits();
    let (text, _) = save(&cfg, Some(existing));
    assert!(
        text.starts_with(
            "# top\n\n[track] # header\n# above the key\nmin_distance   =  7.25  # behind\n\
             other = [ 1, 2 ]\n\n[colors]\nfixed = \"#ff5028\" # f\ntrack = \"#0078ff\"\n"
        ),
        "{text}"
    );
    assert!(text.trim_end().ends_with("# end"), "{text}");
}

#[test]
fn every_setting_survives_a_save() {
    let mut cfg = AppConfig::default();
    cfg.colors.fixed = Rgb { r: 9, g: 0xab, b: 0 };
    cfg.sizes.marker = 14.4f32.to_bits();
    cfg.sizes.beacon = 0.1f32.to_bits();
    cfg.sizes.track = 1.0e-40f32.to_bits();
    cfg.sizes.distance_line = f32::MAX.to_bits();
    cfg.sizes.distance_text = 1.0f32.to_bits();
    cfg.distance.show = true;
    cfg.distance.units = DistanceUnits::Imperial;
    cfg.distance.dotted = false;
    cfg.ble.enabled = false;
    cfg.ble.show_path = true;
    cfg.ble.mac = Some("aa-bb".to_string());
    cfg.ble.set_name("AA:BB:CC:DD:EE:FF", "Truck");
    cfg.track.min_distance = 0.5f64.to_bits();
    let (text, created) = save(&cfg, Some(""));
    assert!(!created);
    // Written through the shortest decimal, not the widened binary.
    assert!(text.contains("marker = 14.4\n"), "{text}");
    let back = from_toml(&text).unwrap();
    assert_eq!(back.colors, cfg.colors);
    assert_eq!(back.sizes, cfg.sizes);
    assert_eq!(back.distance, cfg.distance);
    assert!(!back.ble.enabled);
    assert!(back.ble.show_path);
    assert_eq!(back.ble.mac.as_deref(), Some("aa-bb"));
    assert_eq!(back.ble.name_of("aabbccddeeff"), Some("Truck"));
    assert_eq!(back.ble.names.len(), 1);
    assert_eq!(back.track, cfg.track);
}

#[test]
fn save_leaves_what_is_no_table_alone() {
    let (text, created) = save(&AppConfig::default(), Some("ble = 5\n"));
    assert!(!created);
    assert!(text.starts_with("ble = 5\n"), "{text}");
    assert!(text.contains("[colors]\ntrack = \"#0078ff\"\n"), "{text}");
    assert!(!text.contains("enabled"), "{text}");

    let existing = "track = [ 1 ] # t\n\n[[colors]]\ntrack = '#000000'\n\n[ble]\nnames = 3\n";
    let mut cfg = AppConfig::default();
    cfg.ble.set_name("AA", "new");
    let (text, _) = save(&cfg, Some(existing));
    assert!(text.starts_with("track = [ 1 ] # t\n"), "{text}");
    assert!(text.contains("[[colors]]\ntrack = '#000000'\n"), "{text}");
    assert!(text.contains("[ble]\nnames = 3\nenabled = true\n"), "{text}");
    assert!(text.contains("[sizes]\nmarker = 8.0\n"), "{text}");
    assert!(!text.contains("min_distance") && !text.contains("new"), "{text}");

    let (text, _) = save(&cfg, Some("ble = { names = 'x' }\n"));
    assert!(text.starts_with("ble = { names = 'x'"), "{text}");
    assert!(text.contains("enabled = true") && !text.contains("new"), "{text}");
}

#[test]
fn save_reaches_into_inline_tables() {
    let (text, created) = save(&AppConfig::default(), Some("track = { min_distance = 5.0 }\n"));
    assert!(!created);
    assert!(text.starts_with("track = { min_distance = 3.0 }\n"), "{text}");
    assert_eq!(from_toml(&text).unwrap().track.min_distance, 3.0f64.to_bits());

    let existing = "sizes = { beacon = 1.5, extra = 1 } # one line\n\
                    ble = { mac = 'x', names = { AA = 'gone', 'BB:CC' = 'old' } }\n";
    let mut cfg = AppConfig::default();
    cfg.sizes.beacon = 2.5f32.to_bits();
    cfg.ble.mac = Some("AA:01".into());
    cfg.ble.set_name("BB:CC", "new");
    cfg.ble.set_name("DD", "added");
    let (text, _) = save(&cfg, Some(existing));
    assert!(text.contains("extra = 1"), "{text}");
    assert!(text.contains("# one line"), "{text}");
    assert!(!text.contains("gone"), "{text}");
    let back = from_toml(&text).unwrap();
    assert_eq!(back.sizes, cfg.sizes);
    assert_eq!(back.ble.mac, cfg.ble.mac);
    assert_eq!(back.ble.names.len(), 2);
    assert_eq!(back.ble.name_of("bbcc"), Some("new"));
    assert_eq!(back.ble.name_of("DD"), Some("added"));
    // A table that is missing comes to stand inside the inline one.
    let (text, _) = save(&cfg, Some("ble = {}\n"));
    assert_eq!(from_toml(&text).unwrap().ble.name_of("DD"), Some("added"));
}

#[test]
fn save_reaches_dotted_keys_and_keeps_other_spellings() {
    let existing = "track.min_distance = 5.0\nother = 0x10\nmore = 915_000_000\n\
                    when = 2020-01-02\n[[list]]\nx = 1e3\n[[list]]\n";
    let (text, _) = save(&AppConfig::default(), Some(existing));
    assert!(
        text.starts_with(
            "track.min_distance = 3.0\nother = 0x10\nmore = 915_000_000\nwhen = 2020-01-02\n"
        ),
        "{text}"
    );
    assert!(text.contains("[[list]]\nx = 1e3\n[[list]]\n"), "{text}");
}

#[test]
fn save_writes_numbers_afresh() {
    let mut cfg = AppConfig::default();
    cfg.track.min_distance = 5.5f64.to_bits();
    let (text, _) = save(&cfg, Some("[track]\nmin_distance = 5.50 # m\n"));
    assert!(text.starts_with("[track]\nmin_distance = 5.5 # m\n"), "{text}");
}

#[test]
fn save_replaces_a_table_in_a_keys_place() {
    let (text, _) = save(&AppConfig::default(), Some("[distance.show]\nx = 1\n"));
    let back = from_toml(&text).unwrap();
    assert!(!back.distance.show);
    assert!(!text.contains("x = 1"), "{text}");
}

#[test]
fn save_reports_a_file_that_is_no_toml() {
    let cfg = AppConfig::default();
    let e = match cfg.save("my.toml", Some("[oops"), &reals(&cfg), &texts(&cfg)) {
        Ok(_) => panic!("saved over a file that does not parse"),
        Err(e) => e,
    };
    let why = "[oops".parse::<toml_edit::DocumentMut>().unwrap_err().to_string();
    assert_eq!(e, format!("my.toml: {why}"));
}

#[test]
fn reals_must_be_the_settings() {
    let cfg = AppConfig::default();
    let mut r = reals(&cfg);
    assert!(r.fits(&cfg));
    r.beacon = float_of(6.5f32.to_bits());
    assert!(!r.fits(&cfg));
    assert!(Real::new(toml_edit::Value::from(6i64)).is_none());
    assert!(Real::new(toml_edit::Value::from("6.0")).is_none());
}

#[test]
fn mac_normalization_folds_case_and_separators() {
    assert_eq!(normalize_mac("aa:bb:cc:dd:ee:ff"), "AA:BB:CC:DD:EE:FF");
    assert_eq!(normalize_mac("AA-BB-CC-DD-EE-FF"), "AA:BB:CC:DD:EE:FF");
    assert_eq!(normalize_mac(" aabbccddeeff "), "AA:BB:CC:DD:EE:FF");
}

#[test]
fn mac_normalization_keeps_only_digits() {
    assert_eq!(normalize_mac(""), "");
    assert_eq!(normalize_mac("xyz"), "");
    assert_eq!(normalize_mac("a"), "A");
    assert_eq!(normalize_mac("abc"), "AB:C");
    assert_eq!(normalize_mac("ä1ß2"), "12");
    let once = normalize_mac("a1-b2 c3?d");
    assert_eq!(once, "A1:B2:C3:D");
    assert_eq!(normalize_mac(&once), once);
}

#[test]
fn names_are_found_however_the_mac_is_spelled() {
    let cfg = from_toml(
        "[ble]\nmac = \"aa:bb:cc:dd:ee:ff\"\n\n[ble.names]\n\"AA-BB-CC-DD-EE-FF\" = \"Truck\"\n",
    )
    .unwrap();
    // Stored canonically regardless of how the file spelled it.
    assert_eq!(cfg.ble.names.get("AA:BB:CC:DD:EE:FF").unwrap(), "Truck");
    assert_eq!(cfg.ble.name_of("aa:bb:cc:dd:ee:ff"), Some("Truck"));
    // The pinned MAC matches the same board despite the different spelling.
    assert!(cfg.ble.is_selected("AA-BB-CC-DD-EE-FF"));
    assert!(!cfg.ble.is_selected("11:22:33:44:55:66"));
}

#[test]
fn unnamed_board_falls_back_to_its_mac() {
    let cfg = AppConfig::default();
    assert_eq!(cfg.ble.label_of("AA:BB:CC:DD:EE:FF"), "AA:BB:CC:DD:EE:FF");
}

#[test]
fn named_board_goes_by_its_name() {
    let mut ble = BleSettings::default();
    ble.set_name("aabbccddeeff", " Truck ");
    assert_eq!(ble.label_of("AA-BB-CC-DD-EE-FF"), "Truck");
    assert!(!ble.is_selected("aabbccddeeff"));
}

#[test]
fn set_name_adds_renames_and_forgets() {
    let mut ble = BleSettings::default();
    ble.set_name("aa:bb:cc:dd:ee:ff", "Truck");
    assert_eq!(ble.name_of("AA:BB:CC:DD:EE:FF"), Some("Truck"));
    // Renaming through a different spelling hits the same entry.
    ble.set_name("AA-BB-CC-DD-EE-FF", "Van");
    assert_eq!(ble.names.len(), 1);
    assert_eq!(ble.name_of("AA:BB:CC:DD:EE:FF"), Some("Van"));
    // Blanking the name forgets the board.
    ble.set_name("AA:BB:CC:DD:EE:FF", "  ");
    assert!(ble.names.is_empty());
}

#[test]
fn names_are_walked_in_order() {
    let mut ble = BleSettings::default();
    for (mac, name) in [("30", "c"), ("10", "a"), ("20", "b"), ("1", "z")] {
        ble.set_name(mac, name);
    }
    let walk: Vec<(&str, &str)> = (0..ble.names.len())
        .map(|i| (ble.names.key_at(i), ble.names.name_at(i)))
        .collect();
    assert_eq!(walk, [("1", "z"), ("10", "a"), ("20", "b"), ("30", "c")]);
    ble.names.remove("10");
    assert!(!ble.names.contains_key("10"));
    assert_eq!(ble.names.copy().len(), 3);
}

#[test]
fn saved_names_round_trip_and_forgetting_sticks() {
    let mut cfg = AppConfig::default();
    cfg.ble.set_name("AA:BB:CC:DD:EE:FF", "Truck");
    cfg.ble.set_name("11:22:33:44:55:66", "Backpack");
    // No file yet, so this generates one from the template.
    let (text, created) = save(&cfg, None);
    assert!(created);
    let back = from_toml(&text).unwrap();
    assert_eq!(back.ble.name_of("AA:BB:CC:DD:EE:FF"), Some("Truck"));
    assert_eq!(back.ble.name_of("11:22:33:44:55:66"), Some("Backpack"));

    // Forget one and save over the existing file: the line has to go, not
    // linger because the edit-in-place path only ever adds.
    let mut cfg = back;
    cfg.ble.set_name("11:22:33:44:55:66", "");
    let (text, created) = save(&cfg, Some(&text));
    assert!(!created);
    let back = from_toml(&text).unwrap();
    assert_eq!(back.ble.name_of("AA:BB:CC:DD:EE:FF"), Some("Truck"));
    assert_eq!(back.ble.name_of("11:22:33:44:55:66"), None);
}

#[test]
fn saved_names_keep_their_comments_and_lose_other_spellings() {
    let existing = "[ble.names]\n\"aa-bb\" = \"Old\"\n# mine\n\"CC:DD\" = \"Van\"  # red\n";
    let mut cfg = AppConfig::default();
    cfg.ble.set_name("aabb", "Truck");
    cfg.ble.set_name("ccdd", "Bus");
    let (text, _) = save(&cfg, Some(existing));
    assert!(text.contains("# mine\n\"CC:DD\" = \"Bus\"  # red\n"), "{text}");
    assert!(text.contains("\"AA:BB\" = \"Truck\"\n"), "{text}");
    assert!(!text.contains("aa-bb"), "{text}");
}

#[test]
fn sizes_reject_non_positive() {
    assert!(from_toml("[sizes]\nmarker = 0.0").is_err());
    assert!(from_toml("[sizes]\nbeacon = -1.0").is_err());
    let cfg = from_toml("[sizes]\nmarker = 12.0").unwrap();
    assert_eq!(cfg.sizes.marker, 12.0f32.to_bits());
}

#[test]
fn size_messages_name_the_setting_and_the_number() {
    for (key, v) in [
        ("marker", "-0.0"),
        ("beacon", "-1.5"),
        ("track", "inf"),
        ("distance_line", "nan"),
        ("distance_text", "0.0"),
    ] {
        let n: f32 = v.parse().unwrap();
        let e = match from_toml(&format!("[sizes]\n{key} = {v}")) {
            Ok(_) => panic!("{key} = {v} was taken"),
            Err(e) => e,
        };
        assert_eq!(e, format!("sizes.{key} must be > 0, got {n}"));
    }
    let raw = RawSize { bits: f32::MIN_POSITIVE.to_bits(), text: String::new() };
    assert_eq!(parse_size("x", &raw), Ok(f32::MIN_POSITIVE.to_bits()));
}

#[test]
fn recording_distance_must_not_be_negative() {
    for v in ["-0.5", "inf", "nan", "-inf"] {
        let n: f64 = v.parse().unwrap();
        let e = match from_toml(&format!("[track]\nmin_distance = {v}")) {
            Ok(_) => panic!("{v} was taken"),
            Err(e) => e,
        };
        assert_eq!(e, format!("track.min_distance must be >= 0, got {n}"));
    }
    for v in ["0.0", "-0.0", "2.5", "3"] {
        let cfg = from_toml(&format!("[track]\nmin_distance = {v}")).unwrap();
        assert_eq!(f64::from_bits(cfg.track.min_distance), v.parse::<f64>().unwrap());
    }
}

#[test]
fn first_problem_is_the_one_reported() {
    let e = match from_toml(
        "[colors]\nfixed = \"red\"\n[sizes]\nmarker = 0.0\n[distance]\nunits = \"ells\"",
    ) {
        Ok(_) => panic!("taken"),
        Err(e) => e,
    };
    assert_eq!(e, "invalid hex color \"red\", expected #rrggbb");
    let e = match from_toml("[distance]\nunits = \"Ells\"\n[track]\nmin_distance = -1.0") {
        Ok(_) => panic!("taken"),
        Err(e) => e,
    };
    assert_eq!(e, "invalid distance.units \"ells\", expected \"metric\" or \"imperial\"");
}

#[test]
fn missing_settings_keep_their_defaults() {
    let cfg = from_toml("").unwrap();
    let d = AppConfig::default();
    assert_eq!(cfg.colors, d.colors);
    assert_eq!(cfg.sizes, d.sizes);
    assert_eq!(cfg.distance, d.distance);
    assert_eq!(cfg.track, d.track);
    assert!(cfg.ble.enabled && !cfg.ble.show_path && cfg.ble.mac.is_none());
    assert!(cfg.ble.names.is_empty());
    assert_eq!(d.colors.track, Rgb { r: 0, g: 120, b: 255 });
    assert_eq!(d.sizes.distance_text, 14.0f32.to_bits());
    assert_eq!(d.track.min_distance, 3.0f64.to_bits());
}

#[test]
fn blank_mac_and_names_are_unset() {
    let cfg = from_toml(
        "[ble]\nmac = \" \\t \"\n[ble.names]\n\"aa\" = \"  \"\n\"bb\" = \" Van \"\n",
    )
    .unwrap();
    assert_eq!(cfg.ble.mac, None);
    assert_eq!(cfg.ble.names.len(), 1);
    assert_eq!(cfg.ble.name_of("BB"), Some("Van"));
    // A pinned MAC is kept as it is spelled.
    let cfg = from_toml("[ble]\nmac = \" aa \"").unwrap();
    assert_eq!(cfg.ble.mac.as_deref(), Some(" aa "));
}

#[test]
fn later_of_two_spellings_wins() {
    let cfg = from_toml("[ble.names]\n\"AABB\" = \"first\"\n\"aa-bb\" = \"second\"\n").unwrap();
    assert_eq!(cfg.ble.names.len(), 1);
    assert_eq!(cfg.ble.name_of("aabb"), Some("second"));
}
