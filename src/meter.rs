use vstd::prelude::*;

use crate::quantity::{Quantity, SCALE};
use crate::text::{decimal_setting, read_decimal_setting, read_unsigned_setting, text_chars, unsigned_setting};

verus! {

/// The colour band that a reading falls in, relative to the maximum.
#[derive(Clone, Copy, Debug, PartialEq, Eq, Structural)]
pub enum Tier {
    Low,
    Mid,
    High,
    Critical,
}

/// One cell of a rendered meter.
#[derive(Clone, Copy, Debug, PartialEq, Eq, Structural)]
pub enum Cell {
    Filled(Tier),
    Blank,
}

/// Why a meter could not be rendered.
#[derive(Clone, Copy, Debug, PartialEq, Eq, Structural)]
pub enum MeterError {
    /// No reading was supplied.
    MissingMeasurement,
    /// The maximum is not positive, or the length is zero.
    InvalidConfiguration,
}

/// The band of `current / maximum` (for a positive maximum): up to 0.45 is
/// low, up to 0.70 mid, up to 0.94 high, above that critical.
pub open spec fn tier_of(current: int, maximum: int) -> Tier {
    if 100 * current > 94 * maximum {
        Tier::Critical
    } else if 100 * current > 70 * maximum {
        Tier::High
    } else if 100 * current > 45 * maximum {
        Tier::Mid
    } else {
        Tier::Low
    }
}

/// `floor(current / maximum * length)`, the cells covered before rounding.
pub open spec fn floor_filled(current: int, maximum: int, length: int) -> int {
    (current * length) / maximum
}

/// The fractional part of the reading itself is above one half.
pub open spec fn fraction_above_half(current: int) -> bool {
    current % (SCALE as int) > (SCALE as int) / 2
}

/// Meters of ten cells or more round a reading whose fractional part is
/// above one half up by one cell, while there is room.
pub open spec fn bonus_applies(current: int, maximum: int, length: int) -> bool {
    fraction_above_half(current) && length >= 10 && floor_filled(current, maximum, length) < length
}

/// The covered cells before clamping.
pub open spec fn raw_filled(current: int, maximum: int, length: int) -> int {
    floor_filled(current, maximum, length) + if bonus_applies(current, maximum, length) {
        1int
    } else {
        0int
    }
}

/// The number of filled cells: the rounded count, clamped to `[0, length]`.
pub open spec fn filled_count(current: int, maximum: int, length: int) -> int {
    let f = raw_filled(current, maximum, length);
    if f < 0 {
        0
    } else if f > length {
        length
    } else {
        f
    }
}

/// The cells of a meter: the filled ones first, in the reading's tier, then
/// the blank ones.
pub open spec fn meter_cells(current: int, maximum: int, length: nat) -> Seq<Cell> {
    Seq::new(
        length,
        |i: int|
            if i < filled_count(current, maximum, length as int) {
                Cell::Filled(tier_of(current, maximum))
            } else {
                Cell::Blank
            },
    )
}

/// The characters that show one cell.
pub open spec fn glyph(cell: Cell) -> Seq<char> {
    match cell {
        Cell::Filled(Tier::Low) => seq!['\u{1F7E9}'],
        Cell::Filled(Tier::Mid) => seq!['\u{1F7E8}'],
        Cell::Filled(Tier::High) => seq!['\u{1F7E7}'],
        Cell::Filled(Tier::Critical) => seq!['\u{1F7E5}'],
        Cell::Blank => seq!['\u{2B1C}', '\u{FE0F}'],
    }
}

/// The text of a row of cells, each cell's glyph in order.
pub open spec fn cells_text(cells: Seq<Cell>) -> Seq<char>
    decreases cells.len(),
{
    if cells.len() == 0 {
        Seq::empty()
    } else {
        cells_text(cells.drop_last()) + glyph(cells.last())
    }
}

/// The text of the meter for a reading, a maximum and a length.
pub open spec fn meter_text(current: int, maximum: int, length: nat) -> Seq<char> {
    cells_text(meter_cells(current, maximum, length))
}

/// What `render` returns.
pub open spec fn render_result(current: Option<Quantity>, maximum: int, length: nat) -> Result<
    Seq<char>,
    MeterError,
> {
    match current {
        None => Err(MeterError::MissingMeasurement),
        Some(c) => if maximum <= 0 || length == 0 {
            Err(MeterError::InvalidConfiguration)
        } else {
            Ok(meter_text(c@, maximum, length))
        },
    }
}

/// `r` is what `render` owes for these arguments: the same text, or the
/// same error.
pub open spec fn renders(
    r: Result<String, MeterError>,
    current: Option<Quantity>,
    maximum: int,
    length: nat,
) -> bool {
    match (r, render_result(current, maximum, length)) {
        (Ok(s), Ok(t)) => s@ == t,
        (Err(e), Err(f)) => e == f,
        _ => false,
    }
}

/// `a / b` rounded down, for a positive `b`.
fn floor_div(a: i128, b: i128) -> (q: i128)
    requires
        b > 0,
        -0x1_0000_0000_0000_0000_0000_0000 <= a <= 0x1_0000_0000_0000_0000_0000_0000,
    ensures
        q == a / b,
{
    if a >= 0 {
        let q = (a as u128) / (b as u128);
        assert(q <= a) by (nonlinear_arith)
            requires
                q == a / b,
                a >= 0,
                b > 0,
        ;
        q as i128
    } else {
        let n = (-a) as u128;
        let bb = b as u128;
        let t = (n + bb - 1) / bb;
        assert(t <= n && -(t as int) == a / b) by (nonlinear_arith)
            requires
                t == (n + bb - 1) as int / bb as int,
                n == -a,
                bb == b,
                b > 0,
                n > 0,
        ;
        -(t as i128)
    }
}

/// The text that shows one cell.
fn glyph_str(cell: Cell) -> (s: &'static str)
    ensures
        s@ == glyph(cell),
{
    match cell {
        Cell::Filled(Tier::Low) => {
            proof {
                reveal_strlit("\u{1F7E9}");
            }
            "\u{1F7E9}"
        },
        Cell::Filled(Tier::Mid) => {
            proof {
                reveal_strlit("\u{1F7E8}");
            }
            "\u{1F7E8}"
        },
        Cell::Filled(Tier::High) => {
            proof {
                reveal_strlit("\u{1F7E7}");
            }
            "\u{1F7E7}"
        },
        Cell::Filled(Tier::Critical) => {
            proof {
                reveal_strlit("\u{1F7E5}");
            }
            "\u{1F7E5}"
        },
        Cell::Blank => {
            proof {
                reveal_strlit("\u{2B1C}\u{FE0F}");
            }
            "\u{2B1C}\u{FE0F}"
        },
    }
}

/// Renders a reading as a meter of `length` cells against `maximum`.
///
/// Fails with `MissingMeasurement` when there is no reading, and with
/// `InvalidConfiguration` when `maximum` is not positive or `length` is zero.
pub fn render(current: Option<Quantity>, maximum: Quantity, length: u8) -> (r: Result<
    String,
    MeterError,
>)
    ensures
        renders(r, current, maximum@, length as nat),
{
    let c = match current {
        None => {
            return Err(MeterError::MissingMeasurement);
        },
        Some(c) => c,
    };
    if maximum.millionths <= 0 || length == 0 {
        return Err(MeterError::InvalidConfiguration);
    }
    let cur = c.millionths as i128;
    let max = maximum.millionths as i128;
    let len = length as i128;
    assert(-0x1_0000_0000_0000_0000_0000_0000 <= cur * len <= 0x1_0000_0000_0000_0000_0000_0000)
        by (nonlinear_arith)
        requires
            -0x8000_0000_0000_0000 <= cur < 0x8000_0000_0000_0000,
            0 < len < 256,
    ;
    let floor = floor_div(cur * len, max);
    let whole = floor_div(cur, SCALE as i128);
    let fraction = cur - whole * (SCALE as i128);
    assert(fraction == c@ % (SCALE as int)) by {
        vstd::arithmetic::div_mod::lemma_fundamental_div_mod(c@, SCALE as int);
    }
    let mut filled: i128 = floor;
    if fraction > (SCALE as i128) / 2 && length >= 10 && floor < len {
        filled = floor + 1;
    }
    if filled < 0 {
        filled = 0;
    }
    if filled > len {
        filled = len;
    }
    let tier = if 100 * cur > 94 * max {
        Tier::Critical
    } else if 100 * cur > 70 * max {
        Tier::High
    } else if 100 * cur > 45 * max {
        Tier::Mid
    } else {
        Tier::Low
    };
    let ghost cells = meter_cells(c@, maximum@, length as nat);
    let mut out = String::new();
    let mut i: u8 = 0;
    while i < length
        invariant
            i <= length,
            filled == filled_count(c@, maximum@, length as int),
            tier == tier_of(c@, maximum@),
            cells == meter_cells(c@, maximum@, length as nat),
            out@ == cells_text(cells.take(i as int)),
        decreases length - i,
    {
        let cell = if (i as i128) < filled {
            Cell::Filled(tier)
        } else {
            Cell::Blank
        };
        out.append(glyph_str(cell));
        proof {
            assert(cells.take(i + 1).drop_last() =~= cells.take(i as int));
        }
        i = i + 1;
    }
    assert(cells.take(length as int) =~= cells);
    Ok(out)
}

/// A zero reading renders as `length` blank cells, for every positive
/// maximum and every length of at least one.
pub proof fn zero_reading_is_blank(maximum: Quantity, length: u8)
    requires
        maximum@ > 0,
        length >= 1,
    ensures
        render_result(Some(Quantity { millionths: 0 }), maximum@, length as nat) == Ok::<
            Seq<char>,
            MeterError,
        >(cells_text(Seq::new(length as nat, |i: int| Cell::Blank))),
{
    assert(floor_filled(0, maximum@, length as int) == 0);
    assert(filled_count(0, maximum@, length as int) == 0);
    assert(meter_cells(0, maximum@, length as nat) =~= Seq::new(length as nat, |i: int| Cell::Blank));
}

/// A reading that renders at all renders as exactly `length` cells.
pub proof fn rendering_has_length_cells(current: Quantity, maximum: Quantity, length: u8)
    requires
        maximum@ > 0,
        length >= 1,
    ensures
        meter_cells(current@, maximum@, length as nat).len() == length,
        render_result(Some(current), maximum@, length as nat) == Ok::<Seq<char>, MeterError>(
            cells_text(meter_cells(current@, maximum@, length as nat)),
        ),
{
}

/// For a fixed maximum and length, a larger reading never fills fewer
/// cells, as long as the rounding step treats both readings alike.
pub proof fn filled_is_monotone(lower: Quantity, higher: Quantity, maximum: Quantity, length: u8)
    requires
        maximum@ > 0,
        length >= 1,
        lower@ <= higher@,
        bonus_applies(lower@, maximum@, length as int) == bonus_applies(
            higher@,
            maximum@,
            length as int,
        ),
    ensures
        filled_count(lower@, maximum@, length as int) <= filled_count(
            higher@,
            maximum@,
            length as int,
        ),
{
    let l = length as int;
    assert(lower@ * l <= higher@ * l) by (nonlinear_arith)
        requires
            lower@ <= higher@,
            l >= 1,
    ;
    vstd::arithmetic::div_mod::lemma_div_is_ordered(lower@ * l, higher@ * l, maximum@);
}

/// Rendering the same arguments twice gives the same text, or the same
/// error.
pub proof fn render_is_deterministic(
    first: Result<String, MeterError>,
    second: Result<String, MeterError>,
    current: Option<Quantity>,
    maximum: Quantity,
    length: u8,
)
    requires
        renders(first, current, maximum@, length as nat),
        renders(second, current, maximum@, length as nat),
    ensures
        match (first, second) {
            (Ok(a), Ok(b)) => a@ == b@,
            (Err(a), Err(b)) => a == b,
            _ => false,
        },
{
}

/// Settings of a meter and its last successful rendering.
///
/// The setters only record a value; `build` renders the meter from the
/// settings and keeps the previous rendering when they are invalid.
#[derive(Clone, Debug)]
pub struct Builder {
    pub current: Option<Quantity>,
    pub max: Quantity,
    pub length: u8,
    pub meter: String,
}

/// The maximum that a new builder starts with, in hours.
pub const DEFAULT_MAX_HOURS: i32 = 160;

/// The length that a new builder starts with, in cells.
pub const DEFAULT_LENGTH: u8 = 8;

impl Builder {
    /// A builder with a zero reading, the default maximum and length, and
    /// the meter of those settings (all blank).
    pub fn new() -> (r: Builder)
        ensures
            r.current == Some(Quantity { millionths: 0 }),
            r.max@ == DEFAULT_MAX_HOURS * SCALE,
            r.length == DEFAULT_LENGTH,
            r.meter@ == meter_text(0, r.max@, DEFAULT_LENGTH as nat),
    {
        Builder::with_settings(Quantity::from_integer(DEFAULT_MAX_HOURS), DEFAULT_LENGTH)
    }

    /// A builder with a zero reading, the maximum and length given as texts
    /// (`None` when unset), and the meter of those settings (all blank). An
    /// unset setting, or one that does not read as a decimal (the maximum) or
    /// as an unsigned integer up to 255 (the length), takes its default. Fails
    /// with `InvalidConfiguration` when the maximum is not positive or the
    /// length is zero.
    pub fn from_values(max_text: Option<&str>, length_text: Option<&str>) -> (r: Result<
        Builder,
        MeterError,
    >)
        ensures
            ({
                let max = decimal_setting(text_chars(max_text), DEFAULT_MAX_HOURS * SCALE);
                let length = unsigned_setting(text_chars(length_text), 255, DEFAULT_LENGTH as int);
                &&& r is Err <==> (max <= 0 || length == 0)
                &&& r matches Err(e) ==> e == MeterError::InvalidConfiguration
                &&& r matches Ok(b) ==> {
                    &&& b.current == Some(Quantity { millionths: 0 })
                    &&& b.max@ == max
                    &&& b.length == length
                    &&& b.meter@ == meter_text(0, max, length as nat)
                }
            }),
    {
        let max = read_decimal_setting(max_text, Quantity::from_integer(DEFAULT_MAX_HOURS));
        let length = read_unsigned_setting(length_text, 255, DEFAULT_LENGTH as i64);
        if max.millionths <= 0 || length == 0 {
            return Err(MeterError::InvalidConfiguration);
        }
        Ok(Builder::with_settings(max, length as u8))
    }

    /// A builder with a zero reading, the given maximum and length, and the
    /// meter of those settings (all blank).
    pub fn with_settings(max: Quantity, length: u8) -> (r: Builder)
        requires
            max@ > 0,
            length > 0,
        ensures
            r.current == Some(Quantity { millionths: 0 }),
            r.max == max,
            r.length == length,
            r.meter@ == meter_text(0, max@, length as nat),
    {
        let current = Some(Quantity::from_millionths(0));
        let meter = match render(current, max, length) {
            Ok(text) => text,
            Err(_) => String::new(),
        };
        Builder { current, max, length, meter }
    }

    /// Renders the meter from the current settings. On success the rendering
    /// replaces the kept one; on failure the builder is left as it was.
    pub fn build(&mut self) -> (r: Result<(), MeterError>)
        ensures
            final(self).current == old(self).current,
            final(self).max == old(self).max,
            final(self).length == old(self).length,
            match render_result(old(self).current, old(self).max@, old(self).length as nat) {
                Ok(t) => r is Ok && final(self).meter@ == t,
                Err(e) => r == Err::<(), MeterError>(e) && final(self).meter@ == old(self).meter@,
            },
    {
        match render(self.current, self.max, self.length) {
            Ok(text) => {
                self.meter = text;
                Ok(())
            },
            Err(e) => Err(e),
        }
    }

    /// Records a reading.
    pub fn set_current(&mut self, current: Quantity) -> (r: &mut Builder)
        ensures
            r.current == Some(current),
            r.max == old(self).max,
            r.length == old(self).length,
            r.meter == old(self).meter,
            *final(self) == *final(r),
    {
        self.current = Some(current);
        self
    }

    /// Records the maximum.
    pub fn set_max(&mut self, max: Quantity) -> (r: &mut Builder)
        ensures
            r.current == old(self).current,
            r.max == max,
            r.length == old(self).length,
            r.meter == old(self).meter,
            *final(self) == *final(r),
    {
        self.max = max;
        self
    }

    /// Records the number of cells.
    pub fn set_length(&mut self, length: u8) -> (r: &mut Builder)
        ensures
            r.current == old(self).current,
            r.max == old(self).max,
            r.length == length,
            r.meter == old(self).meter,
            *final(self) == *final(r),
    {
        self.length = length;
        self
    }

    /// The maximum.
    pub fn max(&self) -> (r: Quantity)
        ensures
            r == self.max,
    {
        self.max
    }

    /// The kept rendering.
    pub fn text(&self) -> (r: &str)
        ensures
            r@ == self.meter@,
    {
        self.meter.as_str()
    }
}

impl PartialEq<String> for Builder {
    /// The kept rendering is the given text.
    fn eq(&self, other: &String) -> (r: bool) {
        self.meter == *other
    }
}

impl vstd::std_specs::cmp::PartialEqSpecImpl<String> for Builder {
    open spec fn obeys_eq_spec() -> bool {
        true
    }

    open spec fn eq_spec(&self, other: &String) -> bool {
        self.meter@ == other@
    }
}

impl PartialEq<str> for Builder {
    /// The kept rendering is the given text.
    fn eq(&self, other: &str) -> (r: bool) {
        self.meter == String::from_str(other)
    }
}

impl vstd::std_specs::cmp::PartialEqSpecImpl<str> for Builder {
    open spec fn obeys_eq_spec() -> bool {
        true
    }

    open spec fn eq_spec(&self, other: &str) -> bool {
        self.meter@ == other@
    }
}

impl PartialEq<&str> for Builder {
    /// The kept rendering is the given text.
    fn eq(&self, other: &&str) -> (r: bool) {
        self.meter == String::from_str(*other)
    }
}

impl vstd::std_specs::cmp::PartialEqSpecImpl<&str> for Builder {
    open spec fn obeys_eq_spec() -> bool {
        true
    }

    open spec fn eq_spec(&self, other: &&str) -> bool {
        self.meter@ == other@
    }
}

} // verus!
