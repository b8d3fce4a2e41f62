use vstd::prelude::*;

use crate::meter::{render_result, Builder};
use crate::quantity::Quantity;
use crate::settings::{AppSettings, Profile};
use crate::status::{integer_text, integer_to_text, quantity_text, quantity_to_text, round_units, rounded_units};
use crate::text::{decimal_value, parse_decimal};
use crate::window::WindowError;

verus! {

/// Why a run stopped.
#[derive(Clone, Copy, Debug, PartialEq, Eq, Structural)]
pub enum RunError {
    /// The reporting window could not be computed.
    Window(WindowError),
    /// The time-tracking request failed, or its answer did not read.
    Fetch,
    /// A request got no answer in time.
    Timeout,
    /// The time-tracking answer held no total.
    MissingMeasurement,
    /// The meter settings are out of range.
    InvalidConfiguration,
    /// The profile update failed.
    Update,
    /// The profile update did not report a location back.
    Unconfirmed,
}

/// The hours that a time-tracking answer reports: its decimal total, which
/// must be present and read as a decimal.
pub open spec fn hours_result(total: Option<Seq<char>>) -> Result<int, RunError> {
    match total {
        None => Err(RunError::MissingMeasurement),
        Some(t) => match decimal_value(t) {
            Some(v) => Ok(v),
            None => Err(RunError::Fetch),
        },
    }
}

/// The status text put in the profile location: the meter, the hours
/// rounded to a whole number, and the maximum, as `<meter> <hours>/<max> hours`.
pub open spec fn location_text(meter: Seq<char>, hours: int, maximum: int) -> Seq<char> {
    meter + seq![' '] + integer_text(rounded_units(hours)) + seq!['/'] + quantity_text(maximum)
        + seq![' ', 'h', 'o', 'u', 'r', 's']
}

/// The hours in a time-tracking answer whose decimal total is `total`.
pub fn hours_from_total(total: Option<String>) -> (r: Result<Quantity, RunError>)
    ensures
        match hours_result(
            match total {
                Some(t) => Some(t@),
                None => None,
            },
        ) {
            Ok(v) => r matches Ok(q) && q@ == v,
            Err(e) => r == Err::<Quantity, RunError>(e),
        },
{
    match total {
        None => Err(RunError::MissingMeasurement),
        Some(t) => match parse_decimal(t.as_str()) {
            Some(q) => Ok(q),
            None => Err(RunError::Fetch),
        },
    }
}

/// Sets the meter to the configured maximum and length and to `hours`,
/// renders it, and returns the status text for the profile location.
/// Fails with `InvalidConfiguration` when the settings do not render, and
/// leaves the last rendering in place then.
pub fn prepare_location(meter: &mut Builder, settings: &AppSettings, hours: Quantity) -> (r: Result<
    String,
    RunError,
>)
    ensures
        final(meter).current == Some(hours),
        final(meter).max == settings.burnout_limit,
        final(meter).length == settings.meter_length,
        match render_result(Some(hours), settings.burnout_limit@, settings.meter_length as nat) {
            Ok(t) => final(meter).meter@ == t && (r matches Ok(s) && s@ == location_text(
                t,
                hours@,
                settings.burnout_limit@,
            )),
            Err(_) => final(meter).meter@ == old(meter).meter@ && r == Err::<String, RunError>(
                RunError::InvalidConfiguration,
            ),
        },
{
    meter.set_max(settings.burnout_limit).set_length(settings.meter_length).set_current(hours);
    match meter.build() {
        Ok(()) => {},
        Err(_) => {
            return Err(RunError::InvalidConfiguration);
        },
    }
    let mut out = String::from_str(meter.text());
    proof {
        reveal_strlit(" ");
        reveal_strlit("/");
        reveal_strlit(" hours");
    }
    out.append(" ");
    let rounded = integer_to_text(round_units(hours));
    out.append(rounded.as_str());
    out.append("/");
    let max = quantity_to_text(meter.max());
    out.append(max.as_str());
    out.append(" hours");
    proof {
        assert(out@ =~= location_text(meter.meter@, hours@, settings.burnout_limit@));
    }
    Ok(out)
}

/// The location that the profile reports after an update; a missing one
/// means the update was not confirmed.
pub fn confirmed_location(profile: Profile) -> (r: Result<String, RunError>)
    ensures
        match profile.location {
            Some(l) => r matches Ok(s) && s@ == l@,
            None => r == Err::<String, RunError>(RunError::Unconfirmed),
        },
{
    match profile.location {
        Some(l) => Ok(l),
        None => Err(RunError::Unconfirmed),
    }
}

} // verus!
