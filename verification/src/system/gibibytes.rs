//! Byte counts as gibibyte figures with two decimals, such as `1.50 GiB`.
//!
//! The figure is the one that double-precision arithmetic prints: the byte
//! count is taken to the nearest double, divided by 1024³, and rounded to
//! hundredths, ties going to the even neighbour both times. Below 2⁵³ bytes
//! the first rounding changes nothing. Everything is computed in integers.

use vstd::prelude::*;
use vstd::string::*;

verus! {

/// The bytes in a gibibyte: 1024³.
pub const BYTES_PER_GIB: u64 = 1_073_741_824;

/// 2⁵³. Every integer below it is a double; from here on doubles are more
/// than one apart.
pub const EXACT_LIMIT: u64 = 0x20_0000_0000_0000;

/// `dividend / divisor` rounded to the nearest integer; where two are equally
/// near, to the even one.
pub open spec fn round_half_even(dividend: nat, divisor: nat) -> nat
    recommends
        divisor > 0,
{
    let quotient = dividend / divisor;
    let remainder = dividend % divisor;
    if 2 * remainder > divisor || (2 * remainder == divisor && quotient % 2 == 1) {
        quotient + 1
    } else {
        quotient
    }
}

/// The distance between neighbouring doubles at `n`: 1 below 2⁵³, and twice
/// as much with every further bit of `n`.
pub open spec fn double_spacing(n: nat) -> nat
    decreases n,
{
    if n < EXACT_LIMIT {
        1
    } else {
        2 * double_spacing(n / 2)
    }
}

/// The double nearest to `n`, ties to the one with the even significand.
pub open spec fn nearest_double(n: nat) -> nat {
    round_half_even(n, double_spacing(n)) * double_spacing(n)
}

/// A byte count in hundredths of a gibibyte.
pub open spec fn gib_hundredths(bytes: nat) -> nat {
    round_half_even(nearest_double(bytes) * 100, BYTES_PER_GIB as nat)
}

/// The character of a decimal digit.
pub open spec fn digit_char(digit: nat) -> char
    recommends
        digit < 10,
{
    if digit == 0 {
        '0'
    } else if digit == 1 {
        '1'
    } else if digit == 2 {
        '2'
    } else if digit == 3 {
        '3'
    } else if digit == 4 {
        '4'
    } else if digit == 5 {
        '5'
    } else if digit == 6 {
        '6'
    } else if digit == 7 {
        '7'
    } else if digit == 8 {
        '8'
    } else {
        '9'
    }
}

/// A number in decimal, without leading zeros.
pub open spec fn decimal(n: nat) -> Seq<char>
    decreases n,
{
    if n < 10 {
        seq![digit_char(n)]
    } else {
        decimal(n / 10).push(digit_char(n % 10))
    }
}

/// A byte count as text: the gibibytes in decimal, a point, two decimals and
/// the unit.
pub open spec fn gib_text(bytes: nat) -> Seq<char> {
    let hundredths = gib_hundredths(bytes);
    decimal(hundredths / 100) + seq![
        '.',
        digit_char(hundredths / 10 % 10),
        digit_char(hundredths % 10),
        ' ',
        'G',
        'i',
        'B',
    ]
}

/// Rounding to nearest is off by at most half a divisor, and a result that
/// is off by exactly that much is even.
pub proof fn lemma_round_half_even_is_nearest(dividend: nat, divisor: nat)
    requires
        divisor > 0,
    ensures
        2 * (round_half_even(dividend, divisor) * divisor - dividend) <= divisor,
        2 * (dividend - round_half_even(dividend, divisor) * divisor) <= divisor,
        2 * (round_half_even(dividend, divisor) * divisor - dividend) == divisor
            || 2 * (dividend - round_half_even(dividend, divisor) * divisor) == divisor
            ==> round_half_even(dividend, divisor) % 2 == 0,
{
    let quotient = dividend / divisor;
    let remainder = dividend % divisor;
    assert(dividend == quotient * divisor + remainder && remainder < divisor) by (nonlinear_arith)
        requires
            quotient == dividend / divisor,
            remainder == dividend % divisor,
            divisor > 0,
    ;
    assert((quotient + 1) * divisor == quotient * divisor + divisor) by (nonlinear_arith);
}

/// Doubles are at least one apart, and from 2⁵² on never further apart than
/// one part in 2⁵² of their size.
pub proof fn lemma_double_spacing_bounds(n: nat)
    ensures
        double_spacing(n) >= 1,
        n < EXACT_LIMIT ==> double_spacing(n) == 1,
        n >= 0x10_0000_0000_0000 ==> double_spacing(n) * 0x10_0000_0000_0000 <= n,
    decreases n,
{
    if n >= EXACT_LIMIT {
        lemma_double_spacing_bounds(n / 2);
    }
}

/// Every integer below 2⁵³ is a double: rounding leaves it as it is.
pub proof fn lemma_nearest_double_exact(n: nat)
    requires
        n < EXACT_LIMIT,
    ensures
        nearest_double(n) == n,
{
    assert(double_spacing(n) == 1);
    assert(round_half_even(n, 1) == n);
}

/// The nearest double is within half a spacing.
pub proof fn lemma_nearest_double_is_near(n: nat)
    ensures
        2 * (nearest_double(n) - n) <= double_spacing(n),
        2 * (n - nearest_double(n)) <= double_spacing(n),
{
    lemma_double_spacing_bounds(n);
    lemma_round_half_even_is_nearest(n, double_spacing(n));
}

/// Below 2⁵³ bytes the figure is the exact quotient by 1024³, rounded once:
/// it is off by no more than half a hundredth of a gibibyte.
pub proof fn lemma_gib_hundredths_is_nearest(bytes: nat)
    requires
        bytes < EXACT_LIMIT,
    ensures
        gib_hundredths(bytes) == round_half_even(bytes * 100, BYTES_PER_GIB as nat),
        2 * (gib_hundredths(bytes) * BYTES_PER_GIB - bytes * 100) <= BYTES_PER_GIB,
        2 * (bytes * 100 - gib_hundredths(bytes) * BYTES_PER_GIB) <= BYTES_PER_GIB,
{
    lemma_nearest_double_exact(bytes);
    lemma_round_half_even_is_nearest(bytes * 100, BYTES_PER_GIB as nat);
}

/// A whole number of gibibytes reads as that number with `.00` behind it.
pub proof fn lemma_whole_gibibytes_read_exactly(count: nat, bytes: nat)
    requires
        bytes == count * BYTES_PER_GIB,
        bytes < EXACT_LIMIT,
    ensures
        gib_hundredths(bytes) == count * 100,
        gib_text(bytes) == decimal(count) + seq!['.', '0', '0', ' ', 'G', 'i', 'B'],
{
    lemma_nearest_double_exact(bytes);
    assert(bytes * 100 == (count * 100) * BYTES_PER_GIB) by (nonlinear_arith)
        requires
            bytes == count * BYTES_PER_GIB,
    ;
    vstd::arithmetic::div_mod::lemma_fundamental_div_mod_converse(
        (bytes * 100) as int,
        BYTES_PER_GIB as int,
        (count * 100) as int,
        0,
    );
    assert(gib_hundredths(bytes) == count * 100);
}

/// Divides and rounds to the nearest integer, ties to even.
pub fn divide_round_half_even(dividend: u128, divisor: u128) -> (rounded: u128)
    requires
        divisor > 0,
    ensures
        rounded == round_half_even(dividend as nat, divisor as nat),
{
    let quotient = dividend / divisor;
    let remainder = dividend % divisor;
    let rest = divisor - remainder;
    if remainder > rest || (remainder == rest && quotient % 2 == 1) {
        assert(quotient < u128::MAX) by (nonlinear_arith)
            requires
                quotient == dividend / divisor,
                remainder == dividend % divisor,
                remainder > 0,
                divisor > 0,
                dividend <= u128::MAX,
        {
            assert(divisor >= 2);
            assert(dividend == divisor * quotient + remainder);
        }
        quotient + 1
    } else {
        quotient
    }
}

/// Rounds a byte count to the nearest double.
pub fn round_to_double(bytes: u64) -> (nearest: u128)
    ensures
        nearest == nearest_double(bytes as nat),
{
    let mut spacing: u64 = 1;
    let mut rest: u64 = bytes;
    proof {
        lemma_double_spacing_bounds(bytes as nat);
    }
    while rest >= EXACT_LIMIT
        invariant
            double_spacing(bytes as nat) == spacing * double_spacing(rest as nat),
            double_spacing(bytes as nat) < 4096,
        decreases rest,
    {
        proof {
            lemma_double_spacing_bounds((rest / 2) as nat);
            let inner = double_spacing((rest / 2) as nat);
            assert(spacing * (2 * inner) == (spacing * 2) * inner && spacing * 2 <= (spacing * 2)
                * inner) by (nonlinear_arith)
                requires
                    inner >= 1,
            ;
        }
        rest = rest / 2;
        spacing = spacing * 2;
    }
    assert(spacing == double_spacing(bytes as nat)) by {
        assert(double_spacing(rest as nat) == 1);
        assert(spacing * 1 == spacing);
    }
    let steps = divide_round_half_even(bytes as u128, spacing as u128);
    proof {
        lemma_nearest_double_is_near(bytes as nat);
    }
    steps * (spacing as u128)
}

/// A decimal digit as a string of one character.
fn digit_text(digit: u64) -> (text: &'static str)
    requires
        digit < 10,
    ensures
        text@ == seq![digit_char(digit as nat)],
{
    proof {
        reveal_strlit("0");
        reveal_strlit("1");
        reveal_strlit("2");
        reveal_strlit("3");
        reveal_strlit("4");
        reveal_strlit("5");
        reveal_strlit("6");
        reveal_strlit("7");
        reveal_strlit("8");
        reveal_strlit("9");
    }
    let text = if digit == 0 {
        "0"
    } else if digit == 1 {
        "1"
    } else if digit == 2 {
        "2"
    } else if digit == 3 {
        "3"
    } else if digit == 4 {
        "4"
    } else if digit == 5 {
        "5"
    } else if digit == 6 {
        "6"
    } else if digit == 7 {
        "7"
    } else if digit == 8 {
        "8"
    } else {
        "9"
    };
    assert(text@ =~= seq![digit_char(digit as nat)]);
    text
}

/// Appends a number in decimal.
fn push_decimal(text: &mut String, n: u64)
    ensures
        final(text)@ == old(text)@ + decimal(n as nat),
    decreases n,
{
    if n >= 10 {
        push_decimal(text, n / 10);
    }
    text.append(digit_text(n % 10));
}

/// Writes a byte count as gibibytes with two decimals and the unit, as in
/// `1.50 GiB`.
pub fn format_gib(bytes: u64) -> (text: String)
    ensures
        text@ == gib_text(bytes as nat),
{
    let nearest = round_to_double(bytes);
    proof {
        lemma_nearest_double_is_near(bytes as nat);
        lemma_double_spacing_bounds(bytes as nat);
    }
    let hundredths = divide_round_half_even(nearest * 100, BYTES_PER_GIB as u128);
    let whole = (hundredths / 100) as u64;
    let tenths = ((hundredths / 10) % 10) as u64;
    let last = (hundredths % 10) as u64;

    let mut text = String::new();
    push_decimal(&mut text, whole);
    text.append(".");
    text.append(digit_text(tenths));
    text.append(digit_text(last));
    text.append(" GiB");
    proof {
        reveal_strlit(".");
        reveal_strlit(" GiB");
        assert(text@ =~= gib_text(bytes as nat));
    }
    text
}

} // verus!
