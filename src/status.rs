use vstd::prelude::*;

use crate::quantity::{Quantity, SCALE};

verus! {

/// The character of a decimal digit.
pub open spec fn digit_char(d: int) -> char {
    if d == 0 {
        '0'
    } else if d == 1 {
        '1'
    } else if d == 2 {
        '2'
    } else if d == 3 {
        '3'
    } else if d == 4 {
        '4'
    } else if d == 5 {
        '5'
    } else if d == 6 {
        '6'
    } else if d == 7 {
        '7'
    } else if d == 8 {
        '8'
    } else {
        '9'
    }
}

/// A natural number in decimal, without leading zeros.
pub open spec fn natural_text(n: nat) -> Seq<char>
    decreases n,
{
    if n < 10 {
        seq![digit_char(n as int)]
    } else {
        natural_text(n / 10) + seq![digit_char((n % 10) as int)]
    }
}

/// An integer in decimal, with `-` before a negative one.
pub open spec fn integer_text(n: int) -> Seq<char> {
    if n < 0 {
        seq!['-'] + natural_text((-n) as nat)
    } else {
        natural_text(n as nat)
    }
}

/// The last `width` decimal digits of `n`, with leading zeros.
pub open spec fn padded_text(n: nat, width: nat) -> Seq<char>
    decreases width,
{
    if width == 0 {
        Seq::empty()
    } else {
        padded_text(n / 10, (width - 1) as nat) + seq![digit_char((n % 10) as int)]
    }
}

/// The digits of a fraction `n / 10^width`, without the trailing zeros.
pub open spec fn fraction_text(n: nat, width: nat) -> Seq<char>
    decreases width,
{
    if width > 0 && n % 10 == 0 {
        fraction_text(n / 10, (width - 1) as nat)
    } else {
        padded_text(n, width)
    }
}

/// The magnitude of an amount, in millionths.
pub open spec fn magnitude(millionths: int) -> nat {
    if millionths < 0 {
        (-millionths) as nat
    } else {
        millionths as nat
    }
}

/// An amount in decimal: its sign, its whole part, and its fractional part
/// after a point when that is not zero, without trailing zeros.
pub open spec fn quantity_text(millionths: int) -> Seq<char> {
    let m = magnitude(millionths);
    let sign = if millionths < 0 {
        seq!['-']
    } else {
        Seq::empty()
    };
    let whole = natural_text(m / (SCALE as nat));
    let rest = (m % (SCALE as nat)) as nat;
    if rest == 0 {
        sign + whole
    } else {
        sign + whole + seq!['.'] + fraction_text(rest, 6)
    }
}

/// An amount rounded to the nearest whole unit, halves away from zero.
pub open spec fn rounded_units(millionths: int) -> int {
    let r = (magnitude(millionths) + SCALE / 2) / (SCALE as int);
    if millionths < 0 {
        -r
    } else {
        r
    }
}

/// An amount rounded to the nearest hundredth, halves away from zero, in
/// millionths.
pub open spec fn rounded_hundredths(millionths: int) -> int {
    let r = (magnitude(millionths) + 5_000) / 10_000 * 10_000;
    if millionths < 0 {
        -r
    } else {
        r as int
    }
}

/// The text that shows a decimal digit.
fn digit_str(d: u64) -> (s: &'static str)
    requires
        d < 10,
    ensures
        s@ == seq![digit_char(d as int)],
{
    proof {
        reveal_strlit("0");
        reveal_strlit("1");
        reveal_strlit("2");
        reveal_strlit("3");
        reveal_strlit("4");
        reveal_strlit("5");
        reveal_strlit("6");
        reveal_strlit("7");
        reveal_strlit("8");
        reveal_strlit("9");
    }
    if d == 0 {
        "0"
    } else if d == 1 {
        "1"
    } else if d == 2 {
        "2"
    } else if d == 3 {
        "3"
    } else if d == 4 {
        "4"
    } else if d == 5 {
        "5"
    } else if d == 6 {
        "6"
    } else if d == 7 {
        "7"
    } else if d == 8 {
        "8"
    } else {
        "9"
    }
}

/// Appends a natural number in decimal.
fn push_natural(out: &mut String, n: u64)
    ensures
        final(out)@ == old(out)@ + natural_text(n as nat),
    decreases n,
{
    if n >= 10 {
        push_natural(out, n / 10);
    }
    out.append(digit_str(n % 10));
    proof {
        if n < 10 {
            assert(n % 10 == n);
        }
        assert(final(out)@ =~= old(out)@ + natural_text(n as nat));
    }
}

/// Appends the last `width` digits of `n`, with leading zeros.
fn push_padded(out: &mut String, n: u64, width: u64)
    ensures
        final(out)@ == old(out)@ + padded_text(n as nat, width as nat),
    decreases width,
{
    if width > 0 {
        push_padded(out, n / 10, width - 1);
        out.append(digit_str(n % 10));
        proof {
            assert(final(out)@ =~= old(out)@ + padded_text(n as nat, width as nat));
        }
    } else {
        proof {
            assert(final(out)@ =~= old(out)@ + padded_text(n as nat, width as nat));
        }
    }
}

/// Appends the digits of `n / 10^width` after the point, without trailing
/// zeros.
fn push_fraction(out: &mut String, n: u64, width: u64)
    ensures
        final(out)@ == old(out)@ + fraction_text(n as nat, width as nat),
    decreases width,
{
    if width > 0 && n % 10 == 0 {
        push_fraction(out, n / 10, width - 1);
    } else {
        push_padded(out, n, width);
    }
}

/// An integer in decimal.
pub fn integer_to_text(n: i64) -> (r: String)
    ensures
        r@ == integer_text(n as int),
{
    let mut out = String::new();
    if n < 0 {
        proof {
            reveal_strlit("-");
        }
        out.append("-");
        let m: u64 = if n == i64::MIN {
            0x8000_0000_0000_0000
        } else {
            (-n) as u64
        };
        push_natural(&mut out, m);
    } else {
        push_natural(&mut out, n as u64);
    }
    proof {
        assert(out@ =~= integer_text(n as int));
    }
    out
}

/// The magnitude of an amount.
fn magnitude_of(q: Quantity) -> (r: u64)
    ensures
        r == magnitude(q@),
{
    if q.millionths < 0 {
        if q.millionths == i64::MIN {
            0x8000_0000_0000_0000
        } else {
            (-q.millionths) as u64
        }
    } else {
        q.millionths as u64
    }
}

/// An amount in decimal, as `quantity_text` writes it.
pub fn quantity_to_text(q: Quantity) -> (r: String)
    ensures
        r@ == quantity_text(q@),
{
    let m = magnitude_of(q);
    let mut out = String::new();
    if q.millionths < 0 {
        proof {
            reveal_strlit("-");
        }
        out.append("-");
    }
    let ghost sign = out@;
    push_natural(&mut out, m / (SCALE as u64));
    let rest = m % (SCALE as u64);
    if rest != 0 {
        proof {
            reveal_strlit(".");
        }
        out.append(".");
        push_fraction(&mut out, rest, 6);
    }
    proof {
        assert(sign =~= if q@ < 0 { seq!['-'] } else { Seq::<char>::empty() });
        assert(out@ =~= quantity_text(q@));
    }
    out
}

/// An amount rounded to the nearest whole unit, halves away from zero.
pub fn round_units(q: Quantity) -> (r: i64)
    ensures
        r == rounded_units(q@),
{
    let m = magnitude_of(q);
    let r = ((m as u128 + (SCALE / 2) as u128) / (SCALE as u128)) as i64;
    if q.millionths < 0 {
        -r
    } else {
        r
    }
}

/// The hours left before `maximum` once `hours` are spent, rounded to the
/// nearest hundredth; `None` when that does not fit an amount.
pub fn hours_until_burnout(maximum: Quantity, hours: Quantity) -> (r: Option<Quantity>)
    ensures
        r matches Some(q) ==> q@ == rounded_hundredths(maximum@ - hours@),
        r is None <==> !(i64::MIN <= rounded_hundredths(maximum@ - hours@) <= i64::MAX),
{
    let d = maximum.millionths as i128 - hours.millionths as i128;
    let m: u128 = if d < 0 {
        (-d) as u128
    } else {
        d as u128
    };
    let r = (m + 5_000) / 10_000 * 10_000;
    let v: i128 = if d < 0 {
        -(r as i128)
    } else {
        r as i128
    };
    if v < i64::MIN as i128 || v > i64::MAX as i128 {
        None
    } else {
        Some(Quantity::from_millionths(v as i64))
    }
}

} // verus!
