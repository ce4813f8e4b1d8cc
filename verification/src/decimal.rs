//! Numbers as text: whole numbers in decimal digits, and fixed-point
//! decimals with six places after the point.

use vstd::prelude::*;
use vstd::string::*;

verus! {

/// The character that stands for the digit `d`.
pub open spec fn digit(d: int) -> char
    recommends
        0 <= d < 10,
{
    if d == 0 {
        '0'
    } else if d == 1 {
        '1'
    } else if d == 2 {
        '2'
    } else if d == 3 {
        '3'
    } else if d == 4 {
        '4'
    } else if d == 5 {
        '5'
    } else if d == 6 {
        '6'
    } else if d == 7 {
        '7'
    } else if d == 8 {
        '8'
    } else {
        '9'
    }
}

/// The decimal digits of `n`, the most significant first, with no leading
/// zero but for zero itself.
pub open spec fn nat_text(n: nat) -> Seq<char>
    decreases n,
{
    if n < 10 {
        seq![digit(n as int)]
    } else {
        nat_text(n / 10).push(digit((n % 10) as int))
    }
}

/// A minus sign where `negative` holds, nothing otherwise.
pub open spec fn sign_text(negative: bool) -> Seq<char> {
    if negative {
        seq!['-']
    } else {
        Seq::empty()
    }
}

/// The distance of `i` from zero.
pub open spec fn magnitude(i: int) -> nat {
    if i < 0 {
        (-i) as nat
    } else {
        i as nat
    }
}

/// The decimal text of a whole number, with a minus sign where it is
/// negative.
pub open spec fn int_text(i: int) -> Seq<char> {
    sign_text(i < 0) + nat_text(magnitude(i))
}

/// The last `width` decimal digits of `n`, zeros included.
pub open spec fn fixed_digits(n: nat, width: nat) -> Seq<char>
    decreases width,
{
    if width == 0 {
        Seq::empty()
    } else {
        fixed_digits(n / 10, (width - 1) as nat).push(digit((n % 10) as int))
    }
}

/// The last `width` decimal digits of `n` without the zeros they end in.
pub open spec fn trimmed_digits(n: nat, width: nat) -> Seq<char>
    decreases width,
{
    if width == 0 {
        Seq::empty()
    } else if n % 10 == 0 {
        trimmed_digits(n / 10, (width - 1) as nat)
    } else {
        fixed_digits(n, width)
    }
}

/// How many millionths make one.
pub const MICROS_PER_UNIT: u64 = 1_000_000;

/// How many millionths make a tenth.
pub const MICROS_PER_TENTH: u64 = 100_000;

/// A decimal number with six places after the point, held as a count of
/// millionths.
#[derive(Clone, Copy, Debug, PartialEq, Eq, Structural)]
pub struct Decimal {
    pub micros: i64,
}

impl Decimal {
    /// The number's distance from zero, in millionths.
    pub open spec fn magnitude(self) -> nat {
        magnitude(self.micros as int)
    }

    /// The number in full: the whole part, then, unless they are all zero,
    /// a point and the places after it up to the last that is not zero.
    pub open spec fn text(self) -> Seq<char> {
        let whole = self.magnitude() / 1_000_000;
        let part = self.magnitude() % 1_000_000;
        sign_text(self.micros < 0) + nat_text(whole) + if part == 0 {
            Seq::empty()
        } else {
            seq!['.'] + trimmed_digits(part, 6)
        }
    }

    /// The number in tenths, rounded to the nearest; a number half way
    /// between two goes to the one farther from zero.
    pub open spec fn tenths(self) -> int {
        let nearest = (self.magnitude() + 50_000) / 100_000;
        if self.micros < 0 {
            -nearest
        } else {
            nearest as int
        }
    }

    /// The number rounded to one place after the point, which is always
    /// written.
    pub open spec fn rounded_text(self) -> Seq<char> {
        let nearest = magnitude(self.tenths());
        sign_text(self.tenths() < 0) + nat_text(nearest / 10) + seq![
            '.',
            digit((nearest % 10) as int),
        ]
    }

    /// The number of `micros` millionths.
    pub fn from_micros(micros: i64) -> (number: Decimal)
        ensures
            number.micros == micros,
    {
        Decimal { micros }
    }

    /// The number's distance from zero, in millionths.
    pub fn abs_micros(&self) -> (distance: u64)
        ensures
            distance == self.magnitude(),
    {
        if self.micros >= 0 {
            self.micros as u64
        } else {
            let below: i64 = -(self.micros + 1);
            below as u64 + 1
        }
    }

    /// Writes the number in full.
    pub fn to_string(&self) -> (text: String)
        ensures
            text@ == self.text(),
    {
        let distance: u64 = self.abs_micros();
        let whole: u64 = distance / MICROS_PER_UNIT;
        let part: u64 = distance % MICROS_PER_UNIT;
        let mut text = String::new();
        push_sign(&mut text, self.micros < 0);
        push_nat(&mut text, whole);
        if part != 0 {
            text.append(".");
            proof {
                reveal_strlit(".");
                assert("."@ =~= seq!['.']);
            }
            push_trimmed_digits(&mut text, part, 6);
        }
        proof {
            assert(text@ =~= self.text());
        }
        text
    }

    /// Writes the number rounded to one place after the point.
    pub fn to_rounded_string(&self) -> (text: String)
        ensures
            text@ == self.rounded_text(),
    {
        let distance: u64 = self.abs_micros();
        let nearest: u64 = if distance % MICROS_PER_TENTH >= MICROS_PER_TENTH / 2 {
            distance / MICROS_PER_TENTH + 1
        } else {
            distance / MICROS_PER_TENTH
        };
        assert(nearest == (distance + 50_000) / 100_000);
        assert(nearest == magnitude(self.tenths()));
        let mut text = String::new();
        push_sign(&mut text, self.micros < 0 && nearest != 0);
        push_nat(&mut text, nearest / 10);
        text.append(".");
        text.append(digit_str((nearest % 10) as u8));
        proof {
            reveal_strlit(".");
            assert("."@ =~= seq!['.']);
            assert(text@ =~= self.rounded_text());
        }
        text
    }
}

/// The one-character string of a digit.
pub fn digit_str(d: u8) -> (text: &'static str)
    requires
        d < 10,
    ensures
        text@ == seq![digit(d as int)],
{
    proof {
        reveal_strlit("0");
        reveal_strlit("1");
        reveal_strlit("2");
        reveal_strlit("3");
        reveal_strlit("4");
        reveal_strlit("5");
        reveal_strlit("6");
        reveal_strlit("7");
        reveal_strlit("8");
        reveal_strlit("9");
    }
    let text = if d == 0 {
        "0"
    } else if d == 1 {
        "1"
    } else if d == 2 {
        "2"
    } else if d == 3 {
        "3"
    } else if d == 4 {
        "4"
    } else if d == 5 {
        "5"
    } else if d == 6 {
        "6"
    } else if d == 7 {
        "7"
    } else if d == 8 {
        "8"
    } else {
        "9"
    };
    assert(text@ =~= seq![digit(d as int)]);
    text
}

/// Appends a minus sign where `negative` holds.
pub fn push_sign(out: &mut String, negative: bool)
    ensures
        final(out)@ == old(out)@ + sign_text(negative),
{
    if negative {
        out.append("-");
        proof {
            reveal_strlit("-");
            assert("-"@ =~= seq!['-']);
        }
    }
    assert(final(out)@ =~= old(out)@ + sign_text(negative));
}

/// Appends the decimal digits of `n`.
pub fn push_nat(out: &mut String, n: u64)
    ensures
        final(out)@ == old(out)@ + nat_text(n as nat),
    decreases n,
{
    if n >= 10 {
        push_nat(out, n / 10);
    }
    out.append(digit_str((n % 10) as u8));
    assert(final(out)@ =~= old(out)@ + nat_text(n as nat));
}

/// Appends the decimal text of a whole number.
pub fn push_int(out: &mut String, i: i32)
    ensures
        final(out)@ == old(out)@ + int_text(i as int),
{
    let distance: u64 = if i >= 0 {
        i as u64
    } else {
        (-(i as i64)) as u64
    };
    push_sign(out, i < 0);
    push_nat(out, distance);
    assert(final(out)@ =~= old(out)@ + int_text(i as int));
}

/// Appends the last `width` digits of `n`.
pub fn push_fixed_digits(out: &mut String, n: u64, width: u32)
    ensures
        final(out)@ == old(out)@ + fixed_digits(n as nat, width as nat),
    decreases width,
{
    if width > 0 {
        push_fixed_digits(out, n / 10, width - 1);
        out.append(digit_str((n % 10) as u8));
    }
    assert(final(out)@ =~= old(out)@ + fixed_digits(n as nat, width as nat));
}

/// Appends the last `width` digits of `n` without the zeros they end in.
pub fn push_trimmed_digits(out: &mut String, n: u64, width: u32)
    ensures
        final(out)@ == old(out)@ + trimmed_digits(n as nat, width as nat),
    decreases width,
{
    if width > 0 {
        if n % 10 == 0 {
            push_trimmed_digits(out, n / 10, width - 1);
        } else {
            push_fixed_digits(out, n, width);
        }
    }
    assert(final(out)@ =~= old(out)@ + trimmed_digits(n as nat, width as nat));
}

} // verus!
