use burnout_meter::meter::Builder;
use burnout_meter::quantity::Quantity;
use burnout_meter::run::{confirmed_location, hours_from_total, prepare_location, RunError};
use burnout_meter::settings::{AppSettings, ConfigurationError, Profile};
use burnout_meter::status::{hours_until_burnout, integer_to_text, quantity_to_text, round_units};
use burnout_meter::text::parse_decimal;

fn q(text: &str) -> Quantity {
    parse_decimal(text).unwrap()
}

fn some(text: &str) -> Option<String> {
    Some(text.to_string())
}

fn settings(limit: &str, length: &str) -> AppSettings {
    AppSettings::from_values(
        some("key"),
        some("consumer_key"),
        some("consumer_secret"),
        some("access_token"),
        some("access_token_secret"),
        some(limit),
        some("0"),
        some(length),
    )
    .unwrap()
}

#[test]
fn hours_read_from_total() {
    assert_eq!(hours_from_total(some("155.00")), Ok(q("155")));
    assert_eq!(hours_from_total(None), Err(RunError::MissingMeasurement));
    assert_eq!(hours_from_total(some("155 hrs")), Err(RunError::Fetch));
}

#[test]
fn location_shows_meter_and_hours() {
    let mut meter = Builder::new();
    let text = prepare_location(&mut meter, &settings("170", "8"), q("155.0")).unwrap();
    assert_eq!(text, "🟧🟧🟧🟧🟧🟧🟧⬜️ 155/170 hours");
    assert_eq!(meter, "🟧🟧🟧🟧🟧🟧🟧⬜️");

    let text = prepare_location(&mut meter, &settings("40.5", "10"), q("12.5")).unwrap();
    assert_eq!(text, "🟩🟩🟩⬜️⬜️⬜️⬜️⬜️⬜️⬜️ 13/40.5 hours");
}

#[test]
fn location_with_bad_length_fails() {
    let mut meter = Builder::new();
    let before = meter.text().to_string();
    let mut bad = settings("40", "8");
    bad.meter_length = 0;
    let result = prepare_location(&mut meter, &bad, q("10"));
    assert_eq!(result, Err(RunError::InvalidConfiguration));
    assert_eq!(meter, before);
}

#[test]
fn confirmation_is_required() {
    let confirmed = Profile { location: some("Kalamazoo, MI") };
    assert_eq!(confirmed_location(confirmed), Ok("Kalamazoo, MI".to_string()));
    assert_eq!(confirmed_location(Profile { location: None }), Err(RunError::Unconfirmed));
}

#[test]
fn numbers_as_text() {
    assert_eq!(integer_to_text(0), "0");
    assert_eq!(integer_to_text(155), "155");
    assert_eq!(integer_to_text(-42), "-42");
    assert_eq!(integer_to_text(i64::MIN), i64::MIN.to_string());
    assert_eq!(quantity_to_text(q("40")), "40");
    assert_eq!(quantity_to_text(q("40.50")), "40.5");
    assert_eq!(quantity_to_text(q("-0.000001")), "-0.000001");
    assert_eq!(quantity_to_text(q("12.3456")), "12.3456");
}

#[test]
fn rounding_halves_away_from_zero() {
    assert_eq!(round_units(q("2.5")), 3);
    assert_eq!(round_units(q("2.499999")), 2);
    assert_eq!(round_units(q("-2.5")), -3);
    assert_eq!(hours_until_burnout(q("40"), q("12.345")), Some(q("27.66")));
    assert_eq!(hours_until_burnout(q("40"), q("52.344")), Some(q("-12.34")));
    assert_eq!(hours_until_burnout(q("40"), q("40")), Some(q("0")));
}

#[test]
fn settings_need_every_secret() {
    let full = settings("40", "8");
    assert_eq!(full.wakatime_api_key, "key");
    assert_eq!(full.twitter_credentials.access_token_secret, "access_token_secret");
    let missing = AppSettings::from_values(some("key"), some("a"), None, some("c"), some("d"), None, None, None);
    assert_eq!(missing.err(), Some(ConfigurationError::MissingConsumerSecret));
    let no_key = AppSettings::from_values(some("key"), None, some("b"), some("c"), some("d"), None, None, None);
    assert_eq!(no_key.err(), Some(ConfigurationError::MissingConsumerKey));
    let no_token = AppSettings::from_values(some("key"), some("a"), some("b"), None, some("d"), None, None, None);
    assert_eq!(no_token.err(), Some(ConfigurationError::MissingAccessToken));
    let no_token_secret = AppSettings::from_values(some("key"), some("a"), some("b"), some("c"), None, None, None, None);
    assert_eq!(no_token_secret.err(), Some(ConfigurationError::MissingAccessTokenSecret));
    let none = AppSettings::from_values(None, None, None, None, None, None, None, None);
    assert_eq!(none.err(), Some(ConfigurationError::MissingApiKey));
}

#[test]
fn settings_fall_back_to_defaults() {
    let s = AppSettings::from_values(some("k"), some("a"), some("b"), some("c"), some("d"), None, None, None).unwrap();
    assert_eq!(s.burnout_limit, q("40"));
    assert_eq!(s.meter_length, 8);
    assert_eq!(s.timezone_offset, 0);
    let s = AppSettings::from_values(
        some("k"), some("a"), some("b"), some("c"), some("d"),
        some("forty"), some("-5"), some("300"),
    )
    .unwrap();
    assert_eq!(s.burnout_limit, q("40"));
    assert_eq!(s.timezone_offset, -5);
    assert_eq!(s.meter_length, 8);
    let s = AppSettings::from_values(
        some("k"), some("a"), some("b"), some("c"), some("d"),
        some("12.5"), some("200"), some("-0"),
    )
    .unwrap();
    assert_eq!(s.burnout_limit, q("12.5"));
    assert_eq!(s.timezone_offset, 0);
    assert_eq!(s.meter_length, 8);
}

#[test]
fn settings_out_of_range_fail() {
    let bad_limit = AppSettings::from_values(
        some("k"), some("a"), some("b"), some("c"), some("d"),
        some("0"), None, None,
    );
    assert_eq!(bad_limit.err(), Some(ConfigurationError::InvalidConfiguration));
    let negative_limit = AppSettings::from_values(
        some("k"), some("a"), some("b"), some("c"), some("d"),
        some("-40"), None, some("10"),
    );
    assert_eq!(negative_limit.err(), Some(ConfigurationError::InvalidConfiguration));
    let bad_length = AppSettings::from_values(
        some("k"), some("a"), some("b"), some("c"), some("d"),
        some("40"), None, some("0"),
    );
    assert_eq!(bad_length.err(), Some(ConfigurationError::InvalidConfiguration));
    let missing_first = AppSettings::from_values(
        some("k"), None, some("b"), some("c"), some("d"),
        some("0"), None, some("0"),
    );
    assert_eq!(missing_first.err(), Some(ConfigurationError::MissingConsumerKey));
}
