//! Durations as phrases.

use gps_gui_rs::durations::secs_text;

/// The phrase, worked out with real numbers.
fn by_float(s: u32) -> String {
    match s {
        0 => "off".to_string(),
        s if s < 60 => format!("{s} s"),
        s if s < 3600 => format!("{:.0} min", s as f32 / 60.0),
        s if s % 3600 == 0 => format!("{} h", s / 3600),
        s => format!("{:.1} h", s as f32 / 3600.0),
    }
}

/// Reading 0 as "off" is what the interval read-outs want, and is exactly
/// wrong for an elapsed time - the wake-mode line clamps off zero for it.
#[test]
fn secs_text_scales_and_calls_zero_off() {
    assert_eq!(secs_text(0), "off");
    assert_eq!(secs_text(1), "1 s");
    assert_eq!(secs_text(45), "45 s");
    assert_eq!(secs_text(60), "1 min");
    assert_eq!(secs_text(900), "15 min");
    assert_eq!(secs_text(3600), "1 h");
    assert_eq!(secs_text(43200), "12 h");
    // Not a whole number of hours, so it keeps a decimal.
    assert_eq!(secs_text(45000), "12.5 h");
}

#[test]
fn secs_text_rounds_as_single_precision_does() {
    for s in 0..200_000u32 {
        assert_eq!(secs_text(s), by_float(s), "{s}");
    }
    // The ties of the tenths, where the rounding of the quotient decides.
    for k in 0..40_000u32 {
        let s = 180 + 360 * k;
        assert_eq!(secs_text(s), by_float(s), "{s}");
    }
    // Beyond 24 bits the number of seconds is rounded first.
    for k in 0..60_000u32 {
        let s = u32::MAX - k * 71_003;
        assert_eq!(secs_text(s), by_float(s), "{s}");
    }
}

#[test]
fn half_minutes_round_to_even() {
    assert_eq!(secs_text(90), "2 min");
    assert_eq!(secs_text(150), "2 min");
    assert_eq!(secs_text(210), "4 min");
}

#[test]
fn only_nothing_reads_as_off() {
    for s in [1, 2, 59, 60, 3599, 3600, 86_400, u32::MAX] {
        assert_ne!(secs_text(s), "off");
    }
}
