//! Fixed-width decimal rendering of unsigned numbers.

use vstd::arithmetic::div_mod::{
    lemma_basic_div, lemma_breakdown, lemma_div_denominator, lemma_small_mod,
};
use vstd::arithmetic::power::{lemma_pow0, lemma_pow_increases, lemma_pow_positive, pow};
use vstd::prelude::*;
use vstd::string::StringExecFns;

verus! {

/// Ten to the power `n`.
pub open spec fn pow10(n: nat) -> nat {
    pow(10, n) as nat
}

/// The decimal digit of `value` at `place`, where place 0 is the units.
pub open spec fn digit_at(value: nat, place: nat) -> nat {
    (value / pow10(place)) % 10
}

/// The character that stands for the decimal digit `d`: the digits `'0'` to
/// `'9'` are the code points 48 to 57.
pub open spec fn digit_char(d: nat) -> char
    recommends
        d < 10,
{
    (48 + d) as char
}

/// The `width` least significant decimal digits of `value`, most significant
/// first. For `value < pow10(width)` this is the decimal representation of
/// `value`, padded on the left with zeros to exactly `width` characters.
pub open spec fn padded_decimal(value: nat, width: nat) -> Seq<char> {
    Seq::new(width, |i: int| digit_char(digit_at(value, (width - 1 - i) as nat)))
}

/// How many decimal digits `value` has; zero has one.
pub open spec fn decimal_len(value: nat) -> nat
    decreases value,
{
    if value < 10 {
        1
    } else {
        1 + decimal_len(value / 10)
    }
}

/// The decimal representation of `value`, without leading zeros.
pub open spec fn decimal(value: nat) -> Seq<char> {
    padded_decimal(value, decimal_len(value))
}

/// Whether `c` is one of the ten decimal digits.
pub open spec fn is_decimal_digit(c: char) -> bool {
    '0' <= c <= '9'
}

/// The number that a decimal digit stands for.
pub open spec fn digit_value(c: char) -> nat
    recommends
        is_decimal_digit(c),
{
    (c as nat - 48) as nat
}

/// The number that a string of decimal digits stands for; leading zeros do
/// not count, and the empty string stands for zero.
pub open spec fn decimal_value(digits: Seq<char>) -> nat
    decreases digits.len(),
{
    if digits.len() == 0 {
        0
    } else {
        decimal_value(digits.drop_last()) * 10 + digit_value(digits.last())
    }
}

/// Each power of ten is ten times the one before, starting from one.
pub proof fn lemma_pow10_unfold(n: nat)
    ensures
        pow10(0) == 1,
        pow10(n + 1) == 10 * pow10(n),
        pow10(n) > 0,
{
    reveal(pow);
    lemma_pow0(10);
    lemma_pow_positive(10, n);
    lemma_pow_positive(10, n + 1);
}

/// The powers of ten that a `u64` can hold are those up to the nineteenth,
/// and the tenth is the first above every number of 31 bits.
pub proof fn lemma_pow10_limits()
    ensures
        pow10(9) < 0x8000_0000 < pow10(10),
        pow10(19) == 10_000_000_000_000_000_000,
        pow10(19) <= u64::MAX < pow10(20),
{
    lemma_pow10_unfold(0);
    lemma_pow10_unfold(1);
    lemma_pow10_unfold(2);
    lemma_pow10_unfold(3);
    lemma_pow10_unfold(4);
    lemma_pow10_unfold(5);
    lemma_pow10_unfold(6);
    lemma_pow10_unfold(7);
    lemma_pow10_unfold(8);
    lemma_pow10_unfold(9);
    lemma_pow10_unfold(10);
    lemma_pow10_unfold(11);
    lemma_pow10_unfold(12);
    lemma_pow10_unfold(13);
    lemma_pow10_unfold(14);
    lemma_pow10_unfold(15);
    lemma_pow10_unfold(16);
    lemma_pow10_unfold(17);
    lemma_pow10_unfold(18);
    lemma_pow10_unfold(19);
}

/// Powers of ten grow with the exponent.
pub proof fn lemma_pow10_increases(a: nat, b: nat)
    requires
        a <= b,
    ensures
        0 < pow10(a) <= pow10(b),
{
    lemma_pow_positive(10, a);
    lemma_pow_positive(10, b);
    lemma_pow_increases(10, a, b);
}

/// A padded decimal has exactly `width` characters, each of them a decimal
/// digit.
pub proof fn lemma_padded_decimal_shape(value: nat, width: nat)
    ensures
        padded_decimal(value, width).len() == width,
        forall|i: int|
            0 <= i < width ==> is_decimal_digit(#[trigger] padded_decimal(value, width)[i]),
{
}

/// Dropping the last character of a padded decimal leaves the padded decimal
/// of the tenth of the value, and the last character is the units digit.
pub proof fn lemma_padded_decimal_step(value: nat, width: nat)
    requires
        width > 0,
    ensures
        padded_decimal(value, width).drop_last() == padded_decimal(value / 10, (width - 1) as nat),
        padded_decimal(value, width).last() == digit_char(value % 10),
{
    let whole = padded_decimal(value, width);
    let front = padded_decimal(value / 10, (width - 1) as nat);
    assert forall|i: int| 0 <= i < width - 1 implies whole[i] == front[i] by {
        let place = (width - 2 - i) as nat;
        lemma_pow10_unfold(place);
        lemma_div_denominator(value as int, 10, pow10(place) as int);
    }
    assert(whole.drop_last() =~= front);
    lemma_pow10_unfold(0);
}

/// Read back as a number, a padded decimal of `width` digits is the value
/// modulo ten to the power `width`: the value itself where it has no more
/// than `width` digits.
pub proof fn lemma_padded_decimal_value(value: nat, width: nat)
    ensures
        decimal_value(padded_decimal(value, width)) == value % pow10(width),
        value < pow10(width) ==> decimal_value(padded_decimal(value, width)) == value,
    decreases width,
{
    lemma_pow10_unfold(width);
    if width > 0 {
        let rest = (width - 1) as nat;
        lemma_padded_decimal_step(value, width);
        lemma_padded_decimal_value(value / 10, rest);
        lemma_pow10_unfold(rest);
        lemma_breakdown(value as int, 10, pow10(rest) as int);
    }
    if value < pow10(width) {
        lemma_small_mod(value, pow10(width));
    }
}

/// A number has as many digits as the first power of ten above it says: it
/// lies below ten to the power of its length, and, unless it has one digit
/// only, not below the power before.
pub proof fn lemma_decimal_len_bounds(value: nat)
    ensures
        decimal_len(value) >= 1,
        value < pow10(decimal_len(value)),
        decimal_len(value) > 1 ==> pow10((decimal_len(value) - 1) as nat) <= value,
    decreases value,
{
    lemma_pow10_unfold(0);
    lemma_pow10_unfold(1);
    if value >= 10 {
        let tenth = value / 10;
        lemma_decimal_len_bounds(tenth);
        lemma_pow10_unfold(decimal_len(tenth));
        lemma_pow10_unfold((decimal_len(tenth) - 1) as nat);
    }
}

/// Read back as a number, the decimal representation of a value is the
/// value.
pub proof fn lemma_decimal_value(value: nat)
    ensures
        decimal_value(decimal(value)) == value,
{
    lemma_decimal_len_bounds(value);
    lemma_padded_decimal_value(value, decimal_len(value));
}

/// Ten to the power `n`, for the exponents whose power fits in 64 bits.
pub fn pow10_u64(n: usize) -> (p: u64)
    requires
        n <= 19,
    ensures
        p == pow10(n as nat),
        p > 0,
{
    let mut p: u64 = 1;
    let mut i: usize = 0;
    proof {
        lemma_pow10_unfold(0);
    }
    while i < n
        invariant
            i <= n <= 19,
            p == pow10(i as nat),
            p > 0,
        decreases n - i,
    {
        proof {
            lemma_pow10_unfold(i as nat);
            lemma_pow10_increases((i + 1) as nat, 19);
            lemma_pow10_limits();
        }
        p = p * 10;
        i = i + 1;
    }
    p
}

/// The one-character string of a decimal digit.
fn digit_str(d: u64) -> (s: &'static str)
    requires
        d < 10,
    ensures
        s@ == seq![digit_char(d as nat)],
{
    proof {
        reveal_strlit("0");
        reveal_strlit("1");
        reveal_strlit("2");
        reveal_strlit("3");
        reveal_strlit("4");
        reveal_strlit("5");
        reveal_strlit("6");
        reveal_strlit("7");
        reveal_strlit("8");
        reveal_strlit("9");
    }
    match d {
        0 => "0",
        1 => "1",
        2 => "2",
        3 => "3",
        4 => "4",
        5 => "5",
        6 => "6",
        7 => "7",
        8 => "8",
        _ => "9",
    }
}

/// Renders the `width` least significant decimal digits of `value`, most
/// significant first, with zeros where `value` has no digit.
pub fn format_padded(value: u64, width: usize) -> (s: String)
    ensures
        s@ == padded_decimal(value as nat, width as nat),
{
    let mut s: String = String::new();
    let mut i: usize = 0;
    while i < width
        invariant
            i <= width,
            s@ == Seq::new(
                i as nat,
                |k: int| digit_char(digit_at(value as nat, (width - 1 - k) as nat)),
            ),
        decreases width - i,
    {
        let place: usize = width - 1 - i;
        let d: u64 = if place <= 19 {
            (value / pow10_u64(place)) % 10
        } else {
            proof {
                lemma_pow10_limits();
                lemma_pow10_increases(20, place as nat);
                lemma_basic_div(value as int, pow10(place as nat) as int);
            }
            0
        };
        s.append(digit_str(d));
        i = i + 1;
        assert(s@ =~= Seq::new(
            i as nat,
            |k: int| digit_char(digit_at(value as nat, (width - 1 - k) as nat)),
        ));
    }
    s
}

/// Renders `value` in decimal, without leading zeros.
pub fn format_decimal(value: u64) -> (s: String)
    ensures
        s@ == decimal(value as nat),
{
    let mut len: usize = 1;
    let mut rest: u64 = value;
    proof {
        lemma_pow10_unfold(0);
        let unit = pow10((len - 1) as nat);
        assert(unit * rest == rest) by (nonlinear_arith)
            requires
                unit == 1,
        ;
    }
    while rest >= 10
        invariant
            1 <= len <= 20,
            decimal_len(value as nat) == (len - 1) + decimal_len(rest as nat),
            pow10((len - 1) as nat) * rest <= value,
        decreases rest,
    {
        proof {
            let reached = pow10((len - 1) as nat);
            lemma_pow10_unfold((len - 1) as nat);
            assert(pow10(len as nat) * (rest / 10) <= reached * rest) by (nonlinear_arith)
                requires
                    pow10(len as nat) == 10 * reached,
                    reached > 0,
            ;
            if len >= 20 {
                lemma_pow10_limits();
                lemma_pow10_increases(20, len as nat);
                assert(pow10(len as nat) <= pow10(len as nat) * (rest / 10)) by (nonlinear_arith)
                    requires
                        rest / 10 >= 1,
                ;
            }
        }
        rest = rest / 10;
        len = len + 1;
    }
    format_padded(value, len)
}

} // verus!
