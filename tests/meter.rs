use burnout_meter::meter::{render, Builder, MeterError};
use burnout_meter::quantity::Quantity;
use burnout_meter::text::parse_decimal;

const GREEN: &str = "\u{1F7E9}";
const YELLOW: &str = "\u{1F7E8}";
const ORANGE: &str = "\u{1F7E7}";
const RED: &str = "\u{1F7E5}";
const BLANK: &str = "\u{2B1C}\u{FE0F}";

fn q(text: &str) -> Quantity {
    parse_decimal(text).unwrap()
}

fn row(glyph: &str, filled: usize, blank: usize) -> String {
    glyph.repeat(filled) + &BLANK.repeat(blank)
}

#[test]
fn test_create_meter() {
    let mut meter = Builder::new();

    meter.set_current(q("0")).build().unwrap();
    assert_eq!(meter, "⬜️⬜️⬜️⬜️⬜️⬜️⬜️⬜️");

    meter.set_current(q("1")).set_length(10).set_max(q("10")).build().unwrap();
    assert_eq!(meter, "🟩⬜️⬜️⬜️⬜️⬜️⬜️⬜️⬜️⬜️");

    meter.set_current(q("5.5")).build().unwrap();
    assert_eq!(meter, "🟨🟨🟨🟨🟨⬜️⬜️⬜️⬜️⬜️");

    meter.set_current(q("7.1")).build().unwrap();
    assert_eq!(meter, "🟧🟧🟧🟧🟧🟧🟧⬜️⬜️⬜️");

    // 9.4 of 10 is exactly 0.94, the top of the high band.
    meter.set_current(q("9.4")).build().unwrap();
    assert_eq!(meter, "🟧🟧🟧🟧🟧🟧🟧🟧🟧⬜️");

    meter.set_length(5).build().unwrap();
    assert_eq!(meter, "🟧🟧🟧🟧⬜️");

    meter.set_length(20).build().unwrap();
    assert_eq!(meter, "🟧🟧🟧🟧🟧🟧🟧🟧🟧🟧🟧🟧🟧🟧🟧🟧🟧🟧⬜️⬜️");
}

#[test]
fn just_above_high_band_is_red() {
    let text = render(Some(q("9.41")), q("10"), 10).unwrap();
    assert_eq!(text, row(RED, 9, 1));
}

#[test]
fn zero_reading_is_all_blank() {
    for (max, length) in [("1", 1u8), ("160", 8), ("0.5", 17), ("40", 255)] {
        let text = render(Some(q("0")), q(max), length).unwrap();
        assert_eq!(text, row(GREEN, 0, length as usize));
    }
}

#[test]
fn rendering_has_length_cells() {
    for (current, max, length) in [("3", "10", 4u8), ("250", "10", 12), ("-4.7", "3", 9), ("8.99", "9", 1)] {
        let text = render(Some(q(current)), q(max), length).unwrap();
        let blanks = text.matches(BLANK).count();
        let glyphs = text.chars().count() - 2 * blanks;
        assert_eq!(glyphs + blanks, length as usize);
    }
}

#[test]
fn larger_reading_fills_no_fewer_cells() {
    let mut last = 0;
    for current in ["0", "1", "2.5", "3", "4.25", "5", "7.5", "10", "12"] {
        let text = render(Some(q(current)), q("10"), 8).unwrap();
        let filled = text.chars().count() - 2 * text.matches(BLANK).count();
        assert!(filled >= last);
        last = filled;
    }
}

#[test]
fn render_twice_gives_same_text() {
    let first = render(Some(q("12.34")), q("40"), 12).unwrap();
    let second = render(Some(q("12.34")), q("40"), 12).unwrap();
    assert_eq!(first.as_bytes(), second.as_bytes());
}

#[test]
fn tier_boundary_is_exact() {
    assert_eq!(render(Some(q("0.45")), q("1"), 10).unwrap(), row(GREEN, 4, 6));
    assert_eq!(render(Some(q("0.450001")), q("1"), 10).unwrap(), row(YELLOW, 4, 6));
    assert_eq!(render(Some(q("0.7")), q("1"), 8).unwrap(), row(YELLOW, 5, 3));
    assert_eq!(render(Some(q("0.700001")), q("1"), 8).unwrap(), row(ORANGE, 5, 3));
    assert_eq!(render(Some(q("0.94")), q("1"), 8).unwrap(), row(ORANGE, 7, 1));
    assert_eq!(render(Some(q("0.940001")), q("1"), 8).unwrap(), row(RED, 7, 1));
}

#[test]
fn rounding_bonus_needs_ten_cells() {
    assert_eq!(render(Some(q("5.4")), q("10"), 10).unwrap(), row(YELLOW, 5, 5));
    assert_eq!(render(Some(q("5.6")), q("10"), 10).unwrap(), row(YELLOW, 6, 4));
    assert_eq!(render(Some(q("5.6")), q("10"), 5).unwrap(), row(YELLOW, 2, 3));
    assert_eq!(render(Some(q("5.5")), q("10"), 10).unwrap(), row(YELLOW, 5, 5));
}

#[test]
fn bonus_not_applied_when_full() {
    assert_eq!(render(Some(q("20.9")), q("10"), 10).unwrap(), row(RED, 10, 0));
}

#[test]
fn negative_reading_is_blank() {
    assert_eq!(render(Some(q("-0.3")), q("10"), 10).unwrap(), row(GREEN, 0, 10));
}

#[test]
fn missing_reading_fails() {
    assert_eq!(render(None, q("10"), 8), Err(MeterError::MissingMeasurement));
}

#[test]
fn bad_settings_fail() {
    assert_eq!(render(Some(q("1")), q("0"), 8), Err(MeterError::InvalidConfiguration));
    assert_eq!(render(Some(q("1")), q("-5"), 8), Err(MeterError::InvalidConfiguration));
    assert_eq!(render(Some(q("1")), q("10"), 0), Err(MeterError::InvalidConfiguration));
}

#[test]
fn end_to_end_reading() {
    // 155 of 170 is about 0.9118: in the high band, 7 of 8 cells.
    assert_eq!(render(Some(q("155.0")), q("170.0"), 8).unwrap(), row(ORANGE, 7, 1));
}

#[test]
fn failed_build_keeps_last_meter() {
    let mut meter = Builder::new();
    meter.set_current(q("80")).build().unwrap();
    assert_eq!(meter, row(YELLOW, 4, 4));
    assert_eq!(meter.set_length(0).build(), Err(MeterError::InvalidConfiguration));
    assert_eq!(meter, row(YELLOW, 4, 4));
    assert_eq!(meter.length, 0);
}

#[test]
fn builder_from_values() {
    let meter = Builder::from_values(Some("50"), Some("10")).unwrap();
    assert_eq!(meter.max(), q("50"));
    assert_eq!(meter.length, 10);
    assert_eq!(meter, row(GREEN, 0, 10));
    let unset = Builder::from_values(None, Some("many")).unwrap();
    assert_eq!(unset.max(), q("160"));
    assert_eq!(unset.length, 8);
    assert_eq!(unset.text(), row(GREEN, 0, 8));
    let signed = Builder::from_values(Some("abc"), Some("-0")).unwrap();
    assert_eq!(signed.max(), q("160"));
    assert_eq!(signed.length, 8);
    let too_long = Builder::from_values(None, Some("256")).unwrap();
    assert_eq!(too_long.length, 8);
    let plus = Builder::from_values(None, Some("+12")).unwrap();
    assert_eq!(plus.length, 12);
}

#[test]
fn builder_from_bad_values_fails() {
    assert_eq!(Builder::from_values(Some("-3"), None).err(), Some(MeterError::InvalidConfiguration));
    assert_eq!(Builder::from_values(Some("0"), None).err(), Some(MeterError::InvalidConfiguration));
    assert_eq!(Builder::from_values(None, Some("0")).err(), Some(MeterError::InvalidConfiguration));
    assert_eq!(Builder::from_values(Some("40"), Some("000")).err(), Some(MeterError::InvalidConfiguration));
}

#[test]
fn builder_compares_with_str() {
    let meter = Builder::new();
    let blank: &str = &row(GREEN, 0, 8);
    assert!(meter == *blank);
    assert!(meter == blank);
    assert!(meter == blank.to_string());
    let other: &str = &row(RED, 1, 7);
    assert!(!(meter == *other));
}
