//! The RADIO.TOML editor.

use gps_gui_rs::document::Real;
use gps_gui_rs::radio::{is_meta_key, parse_type_spec, EditVal, FieldType, RadioDoc};

const SAMPLE: &str = "\
# a comment that must survive a round-trip
[radio]
frequency_hz = 915000000
frequency_hz_description = \"RF center frequency.\"

spreading_factor = 7

[gps]
gps_enabled = true
power_mode = \"full\"
power_mode_type = \"enum:full,psmoo,psmct\"
";

fn load(text: &str) -> RadioDoc {
    match RadioDoc::from_text("RADIO.toml", text) {
        Ok(d) => d,
        Err(e) => panic!("{e}"),
    }
}

fn doc() -> RadioDoc {
    load(SAMPLE)
}

#[test]
fn collects_fields_and_skips_metadata() {
    let d = doc();
    let keys: Vec<_> = d.fields.iter().map(|f| f.key.as_str()).collect();
    assert_eq!(keys, ["frequency_hz", "spreading_factor", "gps_enabled", "power_mode"]);
    // No `_description` / `_type` key leaks in as an editable field.
    assert!(!keys.iter().any(|k| k.contains("_description") || k.contains("_type")));
}

#[test]
fn infers_and_overrides_types() {
    let d = doc();
    let ty = |k: &str| &d.fields.iter().find(|f| f.key == k).unwrap().ty;
    assert_eq!(ty("frequency_hz"), &FieldType::Int);
    assert_eq!(ty("gps_enabled"), &FieldType::Bool);
    assert_eq!(
        ty("power_mode"),
        &FieldType::Enum(vec!["full".into(), "psmoo".into(), "psmct".into()])
    );
}

#[test]
fn description_is_read() {
    let d = doc();
    let f = d.fields.iter().find(|f| f.key == "frequency_hz").unwrap();
    assert_eq!(f.description.as_deref(), Some("RF center frequency."));
}

#[test]
fn apply_changes_only_the_value_and_keeps_comments() {
    let mut d = doc();
    d.apply("radio", "frequency_hz", &EditVal::Int(868000000));
    d.apply("gps", "power_mode", &EditVal::Str("psmct".into()));
    let out = d.to_text();
    assert!(out.contains("frequency_hz = 868000000"));
    assert!(out.contains("power_mode = \"psmct\""));
    // Untouched context is preserved verbatim.
    assert!(out.contains("# a comment that must survive a round-trip"));
    assert!(out.contains("frequency_hz_description = \"RF center frequency.\""));
    assert!(d.dirty);
}

#[test]
fn apply_touches_one_value_and_nothing_else() {
    let mut d = doc();
    d.apply("gps", "gps_enabled", &EditVal::Bool(false));
    assert_eq!(d.to_text(), SAMPLE.replace("gps_enabled = true", "gps_enabled = false"));
    let text = "# c\ntop  =  1.5   # tail\n\n# end\n";
    let mut d = load(text);
    let x = Real::new(toml_edit::Value::from(2.25)).unwrap();
    d.apply("", "top", &EditVal::Float(x));
    assert_eq!(d.to_text(), "# c\ntop  =  2.25   # tail\n\n# end\n");
}

#[test]
fn apply_adds_nothing() {
    let mut d = doc();
    d.apply("gps", "absent", &EditVal::Int(1));
    d.apply("nowhere", "gps_enabled", &EditVal::Int(1));
    d.apply("", "gps", &EditVal::Int(1));
    assert_eq!(d.to_text(), SAMPLE);
    assert!(!d.dirty);
}

#[test]
fn fields_are_listed_in_file_order_with_the_top_level_first() {
    let d = load("[b]\ny = 1\n[b.sub]\nz = 2\n[a]\nx = 0x10\n");
    let at: Vec<_> = d.fields.iter().map(|f| (f.section.as_str(), f.key.as_str())).collect();
    assert_eq!(at, [("b", "y"), ("a", "x")]);
    let d = load("q = 'v'\nq_type = 'nonsense'\n[s]\np = 1.5\n");
    let at: Vec<_> = d
        .fields
        .iter()
        .map(|f| (f.section.as_str(), f.key.as_str(), f.ty.clone()))
        .collect();
    assert_eq!(at, [("", "q", FieldType::Str), ("s", "p", FieldType::Float)]);
}

#[test]
fn type_specs_are_read_in_any_case() {
    assert_eq!(parse_type_spec(" INT "), Some(FieldType::Int));
    assert_eq!(parse_type_spec("Integer"), Some(FieldType::Int));
    assert_eq!(parse_type_spec("double"), Some(FieldType::Float));
    assert_eq!(parse_type_spec("float"), Some(FieldType::Float));
    assert_eq!(parse_type_spec("Bool"), Some(FieldType::Bool));
    assert_eq!(parse_type_spec("boolean"), Some(FieldType::Bool));
    assert_eq!(parse_type_spec("STR"), Some(FieldType::Str));
    assert_eq!(parse_type_spec("string"), Some(FieldType::Str));
    assert_eq!(parse_type_spec("number"), None);
    assert_eq!(parse_type_spec("enum: a , ,b,"), Some(FieldType::Enum(vec!["a".into(), "b".into()])));
    assert_eq!(parse_type_spec("enum: , "), None);
    assert_eq!(parse_type_spec("ENUM:a"), None);
}

#[test]
fn metadata_keys_are_told_by_their_ending() {
    assert!(is_meta_key("x_type"));
    assert!(is_meta_key("_description"));
    assert!(!is_meta_key("type"));
    assert!(!is_meta_key("x_type_y"));
    assert!(!is_meta_key("x_Type"));
}

#[test]
fn values_are_displayed_bare() {
    let d = load("a = 'text'\nb = -12\nc = 1e3\nd = false\ne = [ 1, 2 ]  \nf = 2020-01-02\n");
    assert_eq!(d.display_at("", "a"), "text");
    assert_eq!(d.display_at("", "b"), "-12");
    assert_eq!(d.display_at("", "c"), "1000");
    assert_eq!(d.display_at("", "d"), "false");
    assert_eq!(d.display_at("", "e"), "[ 1, 2 ]");
    assert_eq!(d.display_at("", "f"), "2020-01-02");
    assert_eq!(d.display_at("", "g"), "");
    assert_eq!(d.display_at("a", "a"), "");
    assert_eq!(doc().display_at("gps", "power_mode"), "full");
}

#[test]
fn editors_start_from_the_value_or_from_nothing() {
    let d = load(
        "i = 4\nf = 2.5\nb = true\ns = 't'\nwrong = 's'\nwrong_type = 'int'\n\
         real = 1\nreal_type = 'float'\nflag = 1\nflag_type = 'bool'\nnum = 3\nnum_type = 'str'\n",
    );
    assert!(matches!(d.edit_val_at("", "i"), EditVal::Int(4)));
    let EditVal::Float(x) = d.edit_val_at("", "f") else { panic!("f") };
    assert_eq!(x.to_bits(), 2.5f64.to_bits());
    assert_eq!(x.value().as_float(), Some(2.5));
    assert!(matches!(d.edit_val_at("", "b"), EditVal::Bool(true)));
    let EditVal::Str(s) = d.edit_val_at("", "s") else { panic!("s") };
    assert_eq!(s, "t");
    assert!(matches!(d.edit_val_at("", "wrong"), EditVal::Int(0)));
    let EditVal::Float(x) = d.edit_val_at("", "real") else { panic!("real") };
    assert_eq!(x.to_bits(), 1.0f64.to_bits());
    assert!(matches!(d.edit_val_at("", "flag"), EditVal::Bool(false)));
    let EditVal::Str(s) = d.edit_val_at("", "num") else { panic!("num") };
    assert_eq!(s, "");
    assert!(matches!(d.edit_val_at("x", "y"), EditVal::Str(_)));
}

/// A whole number in a float's place is that number, to the nearest float.
#[test]
fn float_editors_start_from_whole_numbers() {
    for n in [
        0i64,
        1,
        -1,
        5,
        7,
        -10,
        915_000_000,
        (1 << 53) - 1,
        1 << 53,
        (1 << 53) + 1,
        (1 << 53) + 3,
        -((1 << 54) + 2),
        (1 << 54) + 6,
        i64::MAX,
        i64::MAX - 1024,
        i64::MIN,
        i64::MIN + 1,
    ] {
        let d = load(&format!("rate = {n}\nrate_type = \"float\"\n"));
        let EditVal::Float(x) = d.edit_val_at("", "rate") else { panic!("rate") };
        assert_eq!(x.to_bits(), (n as f64).to_bits(), "{n}");
        assert_eq!(Real::whole(n).to_bits(), (n as f64).to_bits(), "{n}");
    }
    let d = load("[gps]\nrate = 5\nrate_type = \"float\"\n");
    let EditVal::Float(x) = d.edit_val_at("gps", "rate") else { panic!("rate") };
    assert_eq!(x.value().as_float(), Some(5.0));
    let mut d = load("rate = 5\nrate_type = \"float\"\n");
    let start = d.edit_val_at("", "rate");
    d.apply("", "rate", &start);
    assert_eq!(d.to_text(), "rate = 5.0\nrate_type = \"float\"\n");
}

#[test]
fn a_value_that_is_set_is_written_afresh() {
    let mut d = load("x = 5.50 # c\nn = 0x10\ns = 'a'\n");
    let x = d.edit_val_at("", "x");
    d.apply("", "x", &x);
    assert_eq!(d.to_text(), "x = 5.5 # c\nn = 0x10\ns = 'a'\n");
    let n = d.edit_val_at("", "n");
    d.apply("", "n", &n);
    let s = d.edit_val_at("", "s");
    d.apply("", "s", &s);
    assert_eq!(d.to_text(), "x = 5.5 # c\nn = 16\ns = \"a\"\n");
}

#[test]
fn what_is_not_edited_is_written_as_it_was_read() {
    let text = "# top\n\"a b\" = 0x10\nf = 915_000_000\nx . y = 1e3\nt = { p = 1, q = [ 1, 2 ] }\n\
                \n[[many]] # one\nn = 1\n[[many]]\n\n[z]\nv = \"\"\"m\nn\"\"\"\nw = 2020-01-02 # d\n# end\n";
    let mut d = load(text);
    assert_eq!(d.to_text(), text);
    d.apply("", "f", &EditVal::Int(868));
    assert_eq!(d.to_text(), text.replace("915_000_000", "868"));
    d.apply("", "absent", &EditVal::Int(868));
    d.apply("many", "n", &EditVal::Int(2));
    assert_eq!(d.to_text(), text.replace("915_000_000", "868"));
}

#[test]
fn a_file_that_does_not_parse_is_reported_with_its_path() {
    let why = "a =".parse::<toml_edit::DocumentMut>().unwrap_err().to_string();
    match RadioDoc::from_text("/x/R.toml", "a =") {
        Ok(_) => panic!("parsed"),
        Err(e) => assert_eq!(e, format!("/x/R.toml: {why}")),
    }
}

#[test]
fn saving_cleans_and_failing_does_not() {
    let mut d = doc();
    d.apply("gps", "gps_enabled", &EditVal::Bool(false));
    assert_eq!(
        d.save(None, Err("disk full".into())),
        Err("RADIO.toml: disk full".to_string())
    );
    assert!(d.dirty);
    assert_eq!(d.save(Some("R.1.bak".into()), Ok(())), Ok(Some("R.1.bak".to_string())));
    assert!(!d.dirty);
}

#[test]
fn nothing_is_written_without_a_backup() {
    let mut d = doc();
    d.apply("gps", "gps_enabled", &EditVal::Bool(false));
    let text = SAMPLE.replace("gps_enabled = true", "gps_enabled = false");
    assert_eq!(d.text_to_write(&Ok(Some("R.1.bak".into()))), Some(text.clone()));
    assert_eq!(d.text_to_write(&Ok(None)), Some(text));
    assert_eq!(d.text_to_write(&Err("radio-backups: denied".into())), None);
    assert!(d.dirty);
}

#[test]
fn restoring_replaces_the_document_and_leaves_it_unsaved() {
    let mut d = doc();
    assert!(d.restore("b.bak", "[radio]\nnew_key = 1\n").is_ok());
    assert!(d.dirty);
    assert_eq!(d.path, "RADIO.toml");
    assert_eq!(d.fields.len(), 1);
    assert_eq!(d.display_at("radio", "new_key"), "1");
    let why = "x".parse::<toml_edit::DocumentMut>().unwrap_err().to_string();
    assert_eq!(d.restore("c.bak", "x"), Err(format!("c.bak: {why}")));
    assert_eq!(d.display_at("radio", "new_key"), "1");
}

#[test]
fn backups_are_named_after_the_file_and_the_time() {
    let none: Vec<String> = Vec::new();
    assert_eq!(RadioDoc::backup_name(Some("R.toml"), 1700000000, &none), "R.toml.1700000000.bak");
    assert_eq!(RadioDoc::backup_name(None, 0, &none), "RADIO.toml.0.bak");
    assert_eq!(RadioDoc::backup_base(None), ".");
    assert_eq!(RadioDoc::backup_base(Some("")), ".");
    assert_eq!(RadioDoc::backup_base(Some("/sd")), "/sd");
}

/// Two saves within a second keep both versions, the later one first.
#[test]
fn backups_never_take_a_name_twice() {
    let mut taken: Vec<String> = vec!["R.toml.1699999999.bak".into(), "notes.txt".into()];
    for _ in 0..5 {
        let name = RadioDoc::backup_name(Some("R.toml"), 1700000000, &taken);
        assert!(!taken.contains(&name), "{name}");
        taken.push(name);
    }
    let later = RadioDoc::backup_name(Some("R.toml"), 1700000001, &taken);
    assert_eq!(later, "R.toml.1700000001.bak");
    taken.push(later);
    let listed = RadioDoc::backups(&taken);
    assert_eq!(listed.len(), 7);
    assert_eq!(listed[0], "R.toml.1700000001.bak");
    assert_eq!(listed[1], taken[6]);
    assert_eq!(listed[5], taken[2]);
    assert_eq!(listed[5], "R.toml.1700000000.bak");
    assert_eq!(listed[6], "R.toml.1699999999.bak");
}

#[test]
fn backups_come_newest_first() {
    let names: Vec<String> = [
        "R.toml.1700000001.bak",
        "R.toml.1700000003.bak",
        ".bak",
        "notes.txt",
        "R.toml.1700000002.bak",
        "x.bak.old",
        "..bak",
    ]
    .iter()
    .map(|s| s.to_string())
    .collect();
    assert_eq!(
        RadioDoc::backups(&names),
        [
            "R.toml.1700000003.bak",
            "R.toml.1700000002.bak",
            "R.toml.1700000001.bak",
            "..bak"
        ]
    );
    // The same rule as a file name's extension.
    for n in &names {
        let by_path = std::path::Path::new(n).extension().is_some_and(|e| e == "bak");
        assert_eq!(RadioDoc::backups(&vec![n.clone()]).len() == 1, by_path, "{n}");
    }
}
