use vstd::prelude::*;

use crate::quantity::{Quantity, SCALE};
use crate::text::{
    decimal_setting, integer_value, parse_integer, read_decimal_setting, read_unsigned_setting,
    text_chars, unsigned_setting,
};

verus! {

/// The profile fields that an update reports back.
#[derive(Clone, Debug, PartialEq, Eq)]
pub struct Profile {
    pub location: Option<String>,
}

/// The four OAuth 1 secrets of the profile account.
#[derive(Clone, Debug)]
pub struct Credentials {
    pub consumer_key: String,
    pub consumer_secret: String,
    pub access_token: String,
    pub access_token_secret: String,
}

/// A required setting was not supplied.
#[derive(Clone, Copy, Debug, PartialEq, Eq, Structural)]
pub enum ConfigurationError {
    MissingApiKey,
    MissingConsumerKey,
    MissingConsumerSecret,
    MissingAccessToken,
    MissingAccessTokenSecret,
    /// The burnout limit is not positive, or the meter length is zero.
    InvalidConfiguration,
}

/// The burnout limit, in hours, when none is configured.
pub const DEFAULT_BURNOUT_LIMIT: i32 = 40;

/// The meter length when none is configured.
pub const DEFAULT_METER_LENGTH: u8 = 8;

/// The offset from UTC, in hours, when none is configured.
pub const DEFAULT_TIMEZONE_OFFSET: i8 = 0;

/// Everything a run needs to know.
#[derive(Clone, Debug)]
pub struct AppSettings {
    pub wakatime_api_key: String,
    pub twitter_credentials: Credentials,
    pub burnout_limit: Quantity,
    pub timezone_offset: i8,
    pub meter_length: u8,
}

/// The configured integer setting: the integer given when it lies in
/// `low..=high`, or `default` when it is absent, not an integer, or outside.
pub open spec fn bounded_integer_of(text: Option<Seq<char>>, low: int, high: int, default: int) -> int {
    match text {
        Some(t) => match integer_value(t) {
            Some(v) => if low <= v <= high {
                v
            } else {
                default
            },
            None => default,
        },
        None => default,
    }
}

/// The characters of a setting's text, when it is set.
pub open spec fn text_of(text: Option<String>) -> Option<Seq<char>> {
    match text {
        Some(t) => Some(t@),
        None => None,
    }
}

/// The text of a setting, borrowed.
fn as_text(text: &Option<String>) -> (r: Option<&str>)
    ensures
        text_chars(r) == text_of(*text),
{
    match text {
        Some(t) => Some(t.as_str()),
        None => None,
    }
}

/// The configured burnout limit, in millionths of an hour.
pub open spec fn burnout_limit_of(text: Option<String>) -> int {
    decimal_setting(text_of(text), DEFAULT_BURNOUT_LIMIT * SCALE)
}

/// The configured meter length.
pub open spec fn meter_length_of(text: Option<String>) -> int {
    unsigned_setting(text_of(text), 255, DEFAULT_METER_LENGTH as int)
}

/// Reads an integer setting that must lie in `low..=high`.
fn bounded_integer_setting(text: &Option<String>, low: i64, high: i64, default: i64) -> (r: i64)
    requires
        low <= default <= high,
    ensures
        r == bounded_integer_of(text_of(*text), low as int, high as int, default as int),
        low <= r <= high,
{
    match text {
        Some(t) => match parse_integer(t.as_str()) {
            Some(v) => if low <= v && v <= high {
                v
            } else {
                default
            },
            None => default,
        },
        None => default,
    }
}

impl AppSettings {
    /// Settings from the configured values, each given as the text it was
    /// set to, or `None` when it is unset. The key and the four secrets are
    /// required; the burnout limit defaults to 40 hours, the meter length to
    /// 8 cells and the offset from UTC to 0 hours, also when the text given
    /// does not read as one. A burnout limit that is not positive, or a
    /// meter length of zero, fails with `InvalidConfiguration`.
    pub fn from_values(
        wakatime_api_key: Option<String>,
        consumer_key: Option<String>,
        consumer_secret: Option<String>,
        access_token: Option<String>,
        access_token_secret: Option<String>,
        burnout_limit: Option<String>,
        timezone_offset: Option<String>,
        meter_length: Option<String>,
    ) -> (r: Result<AppSettings, ConfigurationError>)
        ensures
            wakatime_api_key is None ==> r == Err::<AppSettings, ConfigurationError>(
                ConfigurationError::MissingApiKey,
            ),
            wakatime_api_key is Some && consumer_key is None ==> r == Err::<
                AppSettings,
                ConfigurationError,
            >(ConfigurationError::MissingConsumerKey),
            wakatime_api_key is Some && consumer_key is Some && consumer_secret is None ==> r
                == Err::<AppSettings, ConfigurationError>(
                ConfigurationError::MissingConsumerSecret,
            ),
            wakatime_api_key is Some && consumer_key is Some && consumer_secret is Some
                && access_token is None ==> r == Err::<AppSettings, ConfigurationError>(
                ConfigurationError::MissingAccessToken,
            ),
            wakatime_api_key is Some && consumer_key is Some && consumer_secret is Some
                && access_token is Some && access_token_secret is None ==> r == Err::<
                AppSettings,
                ConfigurationError,
            >(ConfigurationError::MissingAccessTokenSecret),
            wakatime_api_key is Some && consumer_key is Some && consumer_secret is Some
                && access_token is Some && access_token_secret is Some && (burnout_limit_of(
                burnout_limit,
            ) <= 0 || meter_length_of(meter_length) == 0) ==> r == Err::<
                AppSettings,
                ConfigurationError,
            >(ConfigurationError::InvalidConfiguration),
            r is Ok <==> (wakatime_api_key is Some && consumer_key is Some && consumer_secret is Some
                && access_token is Some && access_token_secret is Some && burnout_limit_of(
                burnout_limit,
            ) > 0 && meter_length_of(meter_length) > 0),
            r matches Ok(s) ==> {
                &&& s.wakatime_api_key@ == wakatime_api_key->0@
                &&& s.twitter_credentials.consumer_key@ == consumer_key->0@
                &&& s.twitter_credentials.consumer_secret@ == consumer_secret->0@
                &&& s.twitter_credentials.access_token@ == access_token->0@
                &&& s.twitter_credentials.access_token_secret@ == access_token_secret->0@
                &&& s.burnout_limit@ == burnout_limit_of(burnout_limit)
                &&& s.timezone_offset == bounded_integer_of(
                    text_of(timezone_offset),
                    -128,
                    127,
                    DEFAULT_TIMEZONE_OFFSET as int,
                )
                &&& s.meter_length == meter_length_of(meter_length)
            },
    {
        let wakatime_api_key = match wakatime_api_key {
            Some(v) => v,
            None => {
                return Err(ConfigurationError::MissingApiKey);
            },
        };
        let consumer_key = match consumer_key {
            Some(v) => v,
            None => {
                return Err(ConfigurationError::MissingConsumerKey);
            },
        };
        let consumer_secret = match consumer_secret {
            Some(v) => v,
            None => {
                return Err(ConfigurationError::MissingConsumerSecret);
            },
        };
        let access_token = match access_token {
            Some(v) => v,
            None => {
                return Err(ConfigurationError::MissingAccessToken);
            },
        };
        let access_token_secret = match access_token_secret {
            Some(v) => v,
            None => {
                return Err(ConfigurationError::MissingAccessTokenSecret);
            },
        };
        let limit = read_decimal_setting(
            as_text(&burnout_limit),
            Quantity::from_integer(DEFAULT_BURNOUT_LIMIT),
        );
        let offset = bounded_integer_setting(
            &timezone_offset,
            -128,
            127,
            DEFAULT_TIMEZONE_OFFSET as i64,
        );
        let length = read_unsigned_setting(as_text(&meter_length), 255, DEFAULT_METER_LENGTH as i64);
        if limit.millionths <= 0 || length == 0 {
            return Err(ConfigurationError::InvalidConfiguration);
        }
        Ok(
            AppSettings {
                wakatime_api_key,
                twitter_credentials: Credentials {
                    consumer_key,
                    consumer_secret,
                    access_token,
                    access_token_secret,
                },
                burnout_limit: limit,
                timezone_offset: offset as i8,
                meter_length: length as u8,
            },
        )
    }
}

} // verus!
