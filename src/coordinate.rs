//! A geographic coordinate and the decimal text of its parts.
use vstd::prelude::*;

verus! {

/// Millionths of a degree in one degree.
pub const MICRO_PER_DEGREE: u64 = 1000000;

/// A coordinate, each part in millionths of a degree (north and east positive).
/// No range is enforced: the service judges the values.
#[derive(Debug, Clone, Copy, PartialEq, Eq, Structural)]
pub struct Coordinate {
    pub latitude: i64,
    pub longitude: i64,
}

/// The text of one decimal digit.
pub open spec fn digit_text(d: nat) -> Seq<char> {
    if d == 0 {
        "0"@
    } else if d == 1 {
        "1"@
    } else if d == 2 {
        "2"@
    } else if d == 3 {
        "3"@
    } else if d == 4 {
        "4"@
    } else if d == 5 {
        "5"@
    } else if d == 6 {
        "6"@
    } else if d == 7 {
        "7"@
    } else if d == 8 {
        "8"@
    } else {
        "9"@
    }
}

/// The decimal digits of `n`, without leading zeros.
pub open spec fn digits_of(n: nat) -> Seq<char>
    decreases n,
{
    if n < 10 {
        digit_text(n)
    } else {
        digits_of(n / 10) + digit_text(n % 10)
    }
}

/// The last `width` decimal digits of `n`, with leading zeros.
pub open spec fn padded_digits(n: nat, width: nat) -> Seq<char>
    decreases width,
{
    if width == 0 {
        Seq::empty()
    } else {
        padded_digits(n / 10, (width - 1) as nat) + digit_text(n % 10)
    }
}

/// The fractional part `f / 10^width` written after a point, trailing zeros
/// dropped; nothing at all when it is zero.
pub open spec fn fraction_text(f: nat, width: nat) -> Seq<char>
    decreases f,
{
    if f == 0 {
        Seq::empty()
    } else if f % 10 == 0 {
        fraction_text(f / 10, if width > 0 { (width - 1) as nat } else { 0 })
    } else {
        "."@ + padded_digits(f, width)
    }
}

/// The shortest decimal text of `micro` millionths: a minus sign when negative,
/// the whole degrees, and the fraction without trailing zeros
/// (10000000 is "10", -2500000 is "-2.5").
pub open spec fn decimal_text(micro: int) -> Seq<char> {
    let a: nat = if micro < 0 { (-micro) as nat } else { micro as nat };
    let sign = if micro < 0 { "-"@ } else { Seq::empty() };
    sign + digits_of(a / MICRO_PER_DEGREE as nat) + fraction_text(a % MICRO_PER_DEGREE as nat, 6)
}

fn digit_str(d: u64) -> (r: &'static str)
    requires
        d < 10,
    ensures
        r@ == digit_text(d as nat),
{
    if d == 0 {
        "0"
    } else if d == 1 {
        "1"
    } else if d == 2 {
        "2"
    } else if d == 3 {
        "3"
    } else if d == 4 {
        "4"
    } else if d == 5 {
        "5"
    } else if d == 6 {
        "6"
    } else if d == 7 {
        "7"
    } else if d == 8 {
        "8"
    } else {
        "9"
    }
}

/// Appends the decimal digits of `n`.
fn push_digits(s: &mut String, n: u64)
    ensures
        final(s)@ == old(s)@ + digits_of(n as nat),
    decreases n,
{
    if n >= 10 {
        push_digits(s, n / 10);
    }
    s.append(digit_str(n % 10));
    proof {
        assert(final(s)@ =~= old(s)@ + digits_of(n as nat));
    }
}

/// Appends the last `width` digits of `n`, with leading zeros.
fn push_padded(s: &mut String, n: u64, width: u64)
    ensures
        final(s)@ == old(s)@ + padded_digits(n as nat, width as nat),
    decreases width,
{
    if width > 0 {
        push_padded(s, n / 10, width - 1);
        s.append(digit_str(n % 10));
        proof {
            assert(final(s)@ =~= old(s)@ + padded_digits(n as nat, width as nat));
        }
    } else {
        proof {
            assert(final(s)@ =~= old(s)@ + padded_digits(n as nat, width as nat));
        }
    }
}

/// Appends the shortest decimal text of `micro` millionths.
pub fn push_decimal(s: &mut String, micro: i64)
    ensures
        final(s)@ == old(s)@ + decimal_text(micro as int),
{
    let ghost start = s@;
    let a: u64 = if micro < 0 {
        s.append("-");
        ((-(micro + 1)) as u64) + 1
    } else {
        micro as u64
    };
    let ghost sign = if micro < 0 { "-"@ } else { Seq::<char>::empty() };
    assert(s@ =~= start + sign);
    push_digits(s, a / MICRO_PER_DEGREE);
    let mut f: u64 = a % MICRO_PER_DEGREE;
    let mut width: u64 = 6;
    while f != 0 && f % 10 == 0
        invariant
            width <= 6,
            f < 1000000,
            fraction_text(f as nat, width as nat) == fraction_text(
                a as nat % MICRO_PER_DEGREE as nat,
                6,
            ),
        decreases f,
    {
        f = f / 10;
        width = if width > 0 { width - 1 } else { 0 };
    }
    if f != 0 {
        s.append(".");
        push_padded(s, f, width);
    }
    assert(s@ =~= start + decimal_text(micro as int));
}

} // verus!
