use vstd::prelude::*;

use crate::quantity::{Quantity, SCALE};

verus! {

/// The most digits read before the point.
pub const MAX_WHOLE_DIGITS: usize = 12;

/// The most digits read after the point: amounts are held in millionths.
pub const MAX_FRACTION_DIGITS: usize = 6;

/// A decimal digit, `0` to `9`.
pub open spec fn is_digit(c: char) -> bool {
    '0' <= c && c <= '9'
}

/// The value of a decimal digit.
pub open spec fn digit_value(c: char) -> int {
    c as int - '0' as int
}

/// Every character is a decimal digit.
pub open spec fn all_digits(s: Seq<char>) -> bool {
    forall|i: int| 0 <= i < s.len() ==> is_digit(#[trigger] s[i])
}

/// The value of a run of decimal digits, most significant first.
pub open spec fn digits_value(s: Seq<char>) -> int
    decreases s.len(),
{
    if s.len() == 0 {
        0
    } else {
        10 * digits_value(s.drop_last()) + digit_value(s.last())
    }
}

/// Ten to the power `n`.
pub open spec fn pow10(n: nat) -> int
    decreases n,
{
    if n == 0 {
        1
    } else {
        10 * pow10((n - 1) as nat)
    }
}

/// The length of a leading `+` or `-`.
pub open spec fn sign_len(s: Seq<char>) -> int {
    if s.len() > 0 && (s[0] == '-' || s[0] == '+') {
        1
    } else {
        0
    }
}

/// The text after a leading sign.
pub open spec fn unsigned_part(s: Seq<char>) -> Seq<char> {
    s.skip(sign_len(s))
}

/// `magnitude`, negated when the text starts with `-`.
pub open spec fn signed(s: Seq<char>, magnitude: int) -> int {
    if s.len() > 0 && s[0] == '-' {
        -magnitude
    } else {
        magnitude
    }
}

/// The value of an integer written as an optional sign and one to twelve
/// digits; `None` for any other text.
pub open spec fn integer_value(s: Seq<char>) -> Option<int> {
    let b = unsigned_part(s);
    if 1 <= b.len() <= MAX_WHOLE_DIGITS && all_digits(b) {
        Some(signed(s, digits_value(b)))
    } else {
        None
    }
}

/// The value of an unsigned integer written as an optional `+` and one to
/// twelve digits; `None` for any other text.
pub open spec fn unsigned_value(s: Seq<char>) -> Option<int> {
    if s.len() > 0 && s[0] == '-' {
        None
    } else {
        integer_value(s)
    }
}

/// The characters of an optional text.
pub open spec fn text_chars(text: Option<&str>) -> Option<Seq<char>> {
    match text {
        Some(t) => Some(t@),
        None => None,
    }
}

/// A decimal setting: the decimal given, or `default` when the setting is
/// unset or does not read as a decimal.
pub open spec fn decimal_setting(text: Option<Seq<char>>, default: int) -> int {
    match text {
        Some(t) => match decimal_value(t) {
            Some(v) => v,
            None => default,
        },
        None => default,
    }
}

/// An unsigned setting: the unsigned integer given when it is at most
/// `high`, or `default` when the setting is unset, does not read as an
/// unsigned integer, or is larger.
pub open spec fn unsigned_setting(text: Option<Seq<char>>, high: int, default: int) -> int {
    match text {
        Some(t) => match unsigned_value(t) {
            Some(v) => if v <= high {
                v
            } else {
                default
            },
            None => default,
        },
        None => default,
    }
}

/// A point at `k` splits `b` into one to twelve digits before it and one to
/// six after it.
pub open spec fn point_splits(b: Seq<char>, k: int) -> bool {
    &&& 1 <= k <= MAX_WHOLE_DIGITS
    &&& k < b.len()
    &&& b[k] == '.'
    &&& all_digits(b.take(k))
    &&& 1 <= b.len() - k - 1 <= MAX_FRACTION_DIGITS
    &&& all_digits(b.skip(k + 1))
}

/// The millionths that the digits after a point stand for.
pub open spec fn fraction_value(f: Seq<char>) -> int {
    digits_value(f) * pow10((MAX_FRACTION_DIGITS - f.len()) as nat)
}

/// The value in millionths of a decimal written as an optional sign, one to
/// twelve digits, and optionally a point followed by one to six digits;
/// `None` for any other text.
pub open spec fn decimal_value(s: Seq<char>) -> Option<int> {
    let b = unsigned_part(s);
    if 1 <= b.len() <= MAX_WHOLE_DIGITS && all_digits(b) {
        Some(signed(s, digits_value(b) * SCALE))
    } else if exists|k: int| point_splits(b, k) {
        let k = choose|k: int| point_splits(b, k);
        Some(signed(s, digits_value(b.take(k)) * SCALE + fraction_value(b.skip(k + 1))))
    } else {
        None
    }
}

proof fn lemma_pow10_monotone(a: nat, b: nat)
    requires
        a <= b,
    ensures
        1 <= pow10(a) <= pow10(b),
    decreases b,
{
    if b > 0 {
        lemma_pow10_monotone(if a < b { a } else { 0 }, (b - 1) as nat);
    }
}

proof fn lemma_digits_value_nonnegative(s: Seq<char>)
    requires
        all_digits(s),
    ensures
        digits_value(s) >= 0,
    decreases s.len(),
{
    if s.len() > 0 {
        assert(all_digits(s.drop_last())) by {
            assert forall|i: int| 0 <= i < s.drop_last().len() implies is_digit(
                #[trigger] s.drop_last()[i],
            ) by {
                assert(s.drop_last()[i] == s[i]);
            }
        }
        lemma_digits_value_nonnegative(s.drop_last());
        assert(is_digit(s[s.len() - 1]));
    }
}

/// A point at `k`, after digits only, is the one place where a point can
/// split `b`.
proof fn lemma_point_unique(b: Seq<char>, k: int)
    requires
        0 <= k < b.len(),
        b[k] == '.',
        all_digits(b.take(k)),
    ensures
        forall|j: int| point_splits(b, j) ==> j == k,
{
    assert forall|j: int| point_splits(b, j) implies j == k by {
        if j < k {
            assert(b.take(k)[j] == b[j]);
        } else if j > k {
            assert(b.take(j)[k] == b[k]);
        }
    }
}

/// Whether `c` is a decimal digit.
fn is_digit_char(c: char) -> (r: bool)
    ensures
        r == is_digit(c),
{
    '0' <= c && c <= '9'
}

/// Reads up to `limit` digits of `s` from `start`: stops at the end, at a
/// character that is not a digit, or after `limit` digits.
fn scan_digits(s: &str, start: usize, limit: usize) -> (r: (usize, i64))
    requires
        start <= s@.len(),
        limit <= MAX_WHOLE_DIGITS,
    ensures
        start <= r.0 <= s@.len(),
        r.0 - start <= limit,
        all_digits(s@.subrange(start as int, r.0 as int)),
        r.1 == digits_value(s@.subrange(start as int, r.0 as int)),
        0 <= r.1 < pow10((r.0 - start) as nat),
        r.0 == s@.len() || !is_digit(s@[r.0 as int]) || r.0 - start == limit,
{
    let n = s.unicode_len();
    let mut i = start;
    let mut value: i64 = 0;
    proof {
        assert(s@.subrange(start as int, start as int) =~= Seq::<char>::empty());
        reveal_with_fuel(pow10, 13);
        assert(pow10(12) == 1_000_000_000_000);
    }
    while i < n && i - start < limit
        invariant
            n == s@.len(),
            start <= i <= n,
            i - start <= limit,
            limit <= MAX_WHOLE_DIGITS,
            pow10(12) == 1_000_000_000_000,
            all_digits(s@.subrange(start as int, i as int)),
            value == digits_value(s@.subrange(start as int, i as int)),
            0 <= value < pow10((i - start) as nat),
        decreases n - i,
    {
        let c = s.get_char(i);
        if !is_digit_char(c) {
            return (i, value);
        }
        proof {
            lemma_pow10_monotone((i - start) as nat, 11);
            let t = s@.subrange(start as int, i + 1);
            assert(t.drop_last() =~= s@.subrange(start as int, i as int));
            assert(t.last() == c);
            assert forall|j: int| 0 <= j < t.len() implies is_digit(#[trigger] t[j]) by {
                if j < t.len() - 1 {
                    assert(t[j] == s@.subrange(start as int, i as int)[j]);
                }
            }
        }
        value = value * 10 + (c as u32 - '0' as u32) as i64;
        i = i + 1;
    }
    (i, value)
}

/// The length of a leading sign of `s`, and whether it is `-`.
fn sign_prefix(s: &str) -> (r: (usize, bool))
    ensures
        r.0 == sign_len(s@),
        r.1 == (s@.len() > 0 && s@[0] == '-'),
{
    if s.unicode_len() > 0 {
        let c = s.get_char(0);
        if c == '-' {
            (1, true)
        } else if c == '+' {
            (1, false)
        } else {
            (0, false)
        }
    } else {
        (0, false)
    }
}

/// The millionths that `digits` digits after a point, of value `fraction`,
/// stand for.
fn fraction_millionths(fraction: i64, digits: usize, f: Ghost<Seq<char>>) -> (r: i64)
    requires
        1 <= digits <= MAX_FRACTION_DIGITS,
        f@.len() == digits,
        fraction == digits_value(f@),
        0 <= fraction < pow10(digits as nat),
    ensures
        r == fraction_value(f@),
        0 <= r < SCALE,
{
    proof {
        reveal_with_fuel(pow10, 7);
        assert(pow10(6) == 1_000_000);
        assert(pow10(0) == 1);
        assert((digits - f@.len()) as nat == 0);
        assert(digits_value(f@) * pow10(0) == digits_value(f@));
    }
    let mut scaled = fraction;
    let mut count = digits;
    while count < MAX_FRACTION_DIGITS
        invariant
            1 <= count <= MAX_FRACTION_DIGITS,
            f@.len() <= count,
            scaled == digits_value(f@) * pow10((count - f@.len()) as nat),
            0 <= scaled < pow10(count as nat),
            pow10(6) == 1_000_000,
        decreases MAX_FRACTION_DIGITS - count,
    {
        proof {
            lemma_pow10_monotone(count as nat, 5);
            assert(pow10((count + 1 - f@.len()) as nat) == 10 * pow10((count - f@.len()) as nat));
            assert(10 * (digits_value(f@) * pow10((count - f@.len()) as nat)) == digits_value(f@) * (
            10 * pow10((count - f@.len()) as nat))) by (nonlinear_arith);
        }
        scaled = scaled * 10;
        count = count + 1;
    }
    scaled
}

/// Reads an integer written as an optional sign and one to twelve digits.
pub fn parse_integer(s: &str) -> (r: Option<i64>)
    ensures
        r matches Some(v) ==> integer_value(s@) == Some(v as int),
        r is None ==> integer_value(s@) is None,
{
    let n = s.unicode_len();
    let (start, negative) = sign_prefix(s);
    let ghost b = unsigned_part(s@);
    proof {
        assert(b =~= s@.subrange(start as int, n as int));
    }
    let (end, value) = scan_digits(s, start, MAX_WHOLE_DIGITS);
    if end == start || end < n {
        proof {
            if end < n {
                assert(b[end - start] == s@[end as int]);
                if end - start == MAX_WHOLE_DIGITS {
                    assert(b.len() > MAX_WHOLE_DIGITS);
                }
            }
        }
        return None;
    }
    proof {
        assert(b =~= s@.subrange(start as int, end as int));
    }
    if negative {
        Some(-value)
    } else {
        Some(value)
    }
}

/// Reads an unsigned integer written as an optional `+` and one to twelve
/// digits.
pub fn parse_unsigned(s: &str) -> (r: Option<i64>)
    ensures
        r matches Some(v) ==> unsigned_value(s@) == Some(v as int) && v >= 0,
        r is None ==> unsigned_value(s@) is None,
{
    let (_, negative) = sign_prefix(s);
    if negative {
        return None;
    }
    let r = parse_integer(s);
    proof {
        if r is Some {
            lemma_digits_value_nonnegative(unsigned_part(s@));
        }
    }
    r
}

/// Reads a decimal setting, as `decimal_setting` says.
pub fn read_decimal_setting(text: Option<&str>, default: Quantity) -> (r: Quantity)
    ensures
        r@ == decimal_setting(text_chars(text), default@),
{
    match text {
        Some(t) => match parse_decimal(t) {
            Some(v) => v,
            None => default,
        },
        None => default,
    }
}

/// Reads an unsigned setting, as `unsigned_setting` says.
pub fn read_unsigned_setting(text: Option<&str>, high: i64, default: i64) -> (r: i64)
    requires
        0 <= default <= high,
    ensures
        r == unsigned_setting(text_chars(text), high as int, default as int),
        0 <= r <= high,
{
    match text {
        Some(t) => match parse_unsigned(t) {
            Some(v) => if v <= high {
                v
            } else {
                default
            },
            None => default,
        },
        None => default,
    }
}

/// Reads a decimal written as an optional sign, one to twelve digits, and
/// optionally a point followed by one to six digits, exactly.
#[verifier::rlimit(40)]
pub fn parse_decimal(s: &str) -> (r: Option<Quantity>)
    ensures
        r matches Some(q) ==> decimal_value(s@) == Some(q@),
        r is None ==> decimal_value(s@) is None,
{
    let n = s.unicode_len();
    let (start, negative) = sign_prefix(s);
    let ghost b = unsigned_part(s@);
    proof {
        assert(b =~= s@.subrange(start as int, n as int));
        reveal_with_fuel(pow10, 13);
        assert(pow10(12) == 1_000_000_000_000);
        assert(pow10(6) == 1_000_000);
    }
    let (point, whole) = scan_digits(s, start, MAX_WHOLE_DIGITS);
    let ghost k = point - start;
    proof {
        assert(b.take(k) =~= s@.subrange(start as int, point as int));
    }
    if point == start {
        proof {
            assert(!all_digits(b) || b.len() == 0) by {
                if b.len() > 0 {
                    assert(b[0] == s@[start as int]);
                }
            }
            assert forall|j: int| !point_splits(b, j) by {
                if point_splits(b, j) && j >= 1 {
                    assert(b.take(j)[0] == b[0]);
                    assert(b[0] == s@[start as int]);
                }
            }
        }
        return None;
    }
    if point == n {
        proof {
            assert(b =~= s@.subrange(start as int, point as int));
        }
        let magnitude = whole * SCALE;
        return Some(
            Quantity::from_millionths(
                if negative {
                    -magnitude
                } else {
                    magnitude
                },
            ),
        );
    }
    let c = s.get_char(point);
    proof {
        assert(b[k] == s@[point as int]);
    }
    if c != '.' {
        proof {
            assert(!all_digits(b) || b.len() > MAX_WHOLE_DIGITS);
            assert forall|j: int| !point_splits(b, j) by {
                if point_splits(b, j) {
                    if j < k {
                        assert(b.take(k)[j] == b[j]);
                    } else if j > k {
                        assert(b.take(j)[k] == b[k]);
                    }
                }
            }
        }
        return None;
    }
    proof {
        lemma_point_unique(b, k);
    }
    let (end, fraction) = scan_digits(s, point + 1, MAX_FRACTION_DIGITS);
    let ghost f = b.skip(k + 1);
    proof {
        assert(!all_digits(b)) by {
            assert(!is_digit(b[k]));
        }
    }
    if end == point + 1 || end < n {
        proof {
            assert forall|j: int| !point_splits(b, j) by {
                if point_splits(b, j) {
                    assert(j == k);
                    if end < n {
                        assert(f[end - point - 1] == s@[end as int]);
                        if end - point - 1 == MAX_FRACTION_DIGITS {
                            assert(f.len() > MAX_FRACTION_DIGITS);
                        }
                    }
                }
            }
        }
        return None;
    }
    proof {
        assert(f =~= s@.subrange(point + 1, end as int));
        assert(point_splits(b, k));
    }
    let scaled = fraction_millionths(fraction, end - point - 1, Ghost(f));
    let magnitude = whole * SCALE + scaled;
    Some(
        Quantity::from_millionths(
            if negative {
                -magnitude
            } else {
                magnitude
            },
        ),
    )
}

} // verus!
