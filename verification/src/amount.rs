//! Token amounts as text: a raw integer amount and a number of decimals give
//! the amount in whole tokens, with the decimal point that many digits from
//! the right.

use crate::uint256::Uint256;
use vstd::arithmetic::div_mod::{lemma_div_denominator, lemma_mod_breakdown};
use vstd::prelude::*;
use vstd::string::*;

verus! {

/// The character of a decimal digit.
pub open spec fn digit_char(d: nat) -> char
    recommends
        d < 10,
{
    if d == 0 {
        '0'
    } else if d == 1 {
        '1'
    } else if d == 2 {
        '2'
    } else if d == 3 {
        '3'
    } else if d == 4 {
        '4'
    } else if d == 5 {
        '5'
    } else if d == 6 {
        '6'
    } else if d == 7 {
        '7'
    } else if d == 8 {
        '8'
    } else {
        '9'
    }
}

/// Whether a character is one of `'0'` to `'9'`.
pub open spec fn is_digit_char(c: char) -> bool {
    exists|d: nat| d < 10 && c == #[trigger] digit_char(d)
}

/// Ten to the power `d`.
pub open spec fn pow10(d: nat) -> nat
    decreases d,
{
    if d == 0 {
        1
    } else {
        10 * pow10((d - 1) as nat)
    }
}

/// The decimal digits of `n`, most significant first, without leading zeros;
/// zero is the single digit `0`.
pub open spec fn decimal_digits(n: nat) -> Seq<char>
    decreases n,
{
    if n < 10 {
        seq![digit_char(n)]
    } else {
        decimal_digits(n / 10).push(digit_char(n % 10))
    }
}

/// The lowest `width` decimal digits of `n`, most significant first, with
/// leading zeros where `n` is short.
pub open spec fn fixed_digits(n: nat, width: nat) -> Seq<char>
    decreases width,
{
    if width == 0 {
        Seq::empty()
    } else {
        fixed_digits(n / 10, (width - 1) as nat).push(digit_char(n % 10))
    }
}

/// `count` times the character `'0'`.
pub open spec fn zeros(count: nat) -> Seq<char> {
    Seq::new(count, |i: int| '0')
}

/// The text of the raw amount `n` with `decimals` decimals: the whole part,
/// a point, and exactly `decimals` digits of fraction.
pub open spec fn amount_text(n: nat, decimals: nat) -> Seq<char> {
    decimal_digits(n / pow10(decimals)) + seq!['.'] + fixed_digits(n % pow10(decimals), decimals)
}

/// Ten to any power is positive.
pub proof fn lemma_pow10_positive(d: nat)
    ensures
        pow10(d) > 0,
    decreases d,
{
    if d > 0 {
        lemma_pow10_positive((d - 1) as nat);
    }
}

/// `fixed_digits` gives exactly `width` characters, each a digit.
pub proof fn lemma_fixed_digits_shape(n: nat, width: nat)
    ensures
        fixed_digits(n, width).len() == width,
        forall|i: int| 0 <= i < width ==> is_digit_char(#[trigger] fixed_digits(n, width)[i]),
    decreases width,
{
    if width > 0 {
        lemma_fixed_digits_shape(n / 10, (width - 1) as nat);
        assert(is_digit_char(digit_char(n % 10)));
    }
}

/// `decimal_digits` gives at least one character, each a digit.
pub proof fn lemma_decimal_digits_shape(n: nat)
    ensures
        decimal_digits(n).len() >= 1,
        forall|i: int|
            0 <= i < decimal_digits(n).len() ==> is_digit_char(#[trigger] decimal_digits(n)[i]),
    decreases n,
{
    if n < 10 {
        assert(is_digit_char(digit_char(n)));
    } else {
        lemma_decimal_digits_shape(n / 10);
        assert(is_digit_char(digit_char(n % 10)));
    }
}

/// The lowest digits of zero are all `'0'`.
proof fn lemma_fixed_digits_of_zero(width: nat)
    ensures
        fixed_digits(0, width) == zeros(width),
    decreases width,
{
    if width > 0 {
        lemma_fixed_digits_of_zero((width - 1) as nat);
        assert(0nat / 10 == 0);
        assert(fixed_digits(0, width) =~= zeros(width));
    } else {
        assert(fixed_digits(0, width) =~= zeros(width));
    }
}

/// Dropping the last digit of the remainder by `10 * p` leaves the remainder
/// by `p` of the number without its last digit.
proof fn lemma_last_digit_of_remainder(n: nat, p: nat)
    requires
        p > 0,
    ensures
        (n % (10 * p)) / 10 == (n / 10) % p,
        (n % (10 * p)) % 10 == n % 10,
        (n / 10) / p == n / (10 * p),
{
    lemma_mod_breakdown(n as int, 10, p as int);
    lemma_div_denominator(n as int, 10, p as int);
}

/// A number with more than `d` digits is its digits above the lowest `d`
/// followed by its lowest `d` digits.
pub proof fn lemma_digits_split(n: nat, d: nat)
    requires
        decimal_digits(n).len() > d,
    ensures
        decimal_digits(n) == decimal_digits(n / pow10(d)) + fixed_digits(n % pow10(d), d),
    decreases d,
{
    if d == 0 {
        assert(pow10(d) == 1);
        assert(n / 1 == n);
        assert(decimal_digits(n) =~= decimal_digits(n / pow10(d)) + fixed_digits(
            n % pow10(d),
            d,
        ));
    } else {
        let p = pow10((d - 1) as nat);
        lemma_pow10_positive((d - 1) as nat);
        lemma_last_digit_of_remainder(n, p);
        lemma_digits_split(n / 10, (d - 1) as nat);
        assert(decimal_digits(n) =~= decimal_digits(n / pow10(d)) + fixed_digits(
            n % pow10(d),
            d,
        ));
    }
}

/// A number with at most `d` digits is below ten to the power `d`, and its
/// lowest `d` digits are its own digits after leading zeros.
pub proof fn lemma_digits_padded(n: nat, d: nat)
    requires
        decimal_digits(n).len() <= d,
    ensures
        n < pow10(d),
        fixed_digits(n, d) == zeros((d - decimal_digits(n).len()) as nat) + decimal_digits(n),
    decreases d,
{
    let pad = (d - decimal_digits(n).len()) as nat;
    if n < 10 {
        lemma_pow10_positive((d - 1) as nat);
        lemma_fixed_digits_of_zero((d - 1) as nat);
        assert(n / 10 == 0);
        assert(fixed_digits(n, d) =~= zeros(pad) + decimal_digits(n));
    } else {
        lemma_digits_padded(n / 10, (d - 1) as nat);
        assert(fixed_digits(n, d) =~= zeros(pad) + decimal_digits(n));
    }
}

/// The decimal point stands `decimals` digits from the right, and every other
/// character is a digit.
pub proof fn law_point_position(n: nat, decimals: nat)
    ensures
        amount_text(n, decimals).len() >= decimals + 2,
        amount_text(n, decimals)[amount_text(n, decimals).len() - 1 - decimals] == '.',
        forall|i: int|
            0 <= i < amount_text(n, decimals).len() && i != amount_text(n, decimals).len() - 1
                - decimals ==> is_digit_char(#[trigger] amount_text(n, decimals)[i]),
{
    lemma_pow10_positive(decimals);
    let whole = decimal_digits(n / pow10(decimals));
    let fraction = fixed_digits(n % pow10(decimals), decimals);
    lemma_decimal_digits_shape(n / pow10(decimals));
    lemma_fixed_digits_shape(n % pow10(decimals), decimals);
    let text = amount_text(n, decimals);
    assert(text.len() == whole.len() + 1 + decimals);
    assert forall|i: int|
        0 <= i < text.len() && i != text.len() - 1 - decimals implies is_digit_char(
        #[trigger] text[i],
    ) by {
        if i < whole.len() {
            assert(text[i] == whole[i]);
        } else {
            assert(text[i] == fraction[i - whole.len() - 1]);
        }
    }
}

/// An amount with no more digits than `decimals` reads `0.`, then zeros, then
/// its digits, the fraction being `decimals` characters long.
pub proof fn law_short_amount(n: nat, decimals: nat)
    requires
        decimal_digits(n).len() <= decimals,
    ensures
        amount_text(n, decimals) == seq!['0', '.'] + zeros(
            (decimals - decimal_digits(n).len()) as nat,
        ) + decimal_digits(n),
{
    lemma_digits_padded(n, decimals);
    assert(n / pow10(decimals) == 0 && n % pow10(decimals) == n) by {
        vstd::arithmetic::div_mod::lemma_small_mod(n, pow10(decimals));
        vstd::arithmetic::div_mod::lemma_basic_div(n as int, pow10(decimals) as int);
    }
    assert(amount_text(n, decimals) =~= seq!['0', '.'] + zeros(
        (decimals - decimal_digits(n).len()) as nat,
    ) + decimal_digits(n));
}

/// An amount with more digits than `decimals` reads as its own digits with
/// the point put in `decimals` digits from the right.
pub proof fn law_long_amount(n: nat, decimals: nat)
    requires
        decimal_digits(n).len() > decimals,
    ensures
        amount_text(n, decimals) == decimal_digits(n).take(
            decimal_digits(n).len() - decimals,
        ) + seq!['.'] + decimal_digits(n).skip(decimal_digits(n).len() - decimals),
{
    lemma_pow10_positive(decimals);
    lemma_digits_split(n, decimals);
    lemma_fixed_digits_shape(n % pow10(decimals), decimals);
    let whole = decimal_digits(n / pow10(decimals));
    let fraction = fixed_digits(n % pow10(decimals), decimals);
    let digits = decimal_digits(n);
    assert(digits.take(digits.len() - decimals) =~= whole);
    assert(digits.skip(digits.len() - decimals) =~= fraction);
}

/// The text that `web3::types::U256` gives for the value through `Display`:
/// `0` for zero, and otherwise its decimal digits from the most significant
/// down, with no leading zero and nothing else.
#[verifier::external_body]
pub(crate) fn u256_to_decimal(amount: Uint256) -> (text: String)
    ensures
        text@ == decimal_digits(amount@),
{
    web3::types::U256(amount.to_words()).to_string()
}

/// Renders a raw token amount with `decimal` decimals: the whole tokens, a
/// point, then exactly `decimal` digits. An amount below one token starts
/// with `0.` and has its fraction padded with zeros on the left.
pub fn convert_amount(amount: Uint256, decimal: usize) -> (output: String)
    ensures
        output@ == amount_text(amount@, decimal as nat),
{
    let digits: String = u256_to_decimal(amount);
    let length: usize = digits.as_str().unicode_len();
    proof {
        reveal_strlit("0");
        reveal_strlit(".");
    }
    if length > decimal {
        let amount_end: usize = length - decimal;
        let mut output: String = String::from_str(digits.as_str().substring_char(0, amount_end));
        output.append(".");
        output.append(digits.as_str().substring_char(amount_end, length));
        proof {
            law_long_amount(amount@, decimal as nat);
            assert("."@ =~= seq!['.']);
            assert(digits@.subrange(0, amount_end as int) =~= digits@.take(amount_end as int));
            assert(digits@.subrange(amount_end as int, length as int) =~= digits@.skip(
                amount_end as int,
            ));
        }
        output
    } else {
        let mut output: String = String::from_str("0");
        output.append(".");
        let padding: usize = decimal - length;
        let mut written: usize = 0;
        while written < padding
            invariant
                written <= padding,
                output@ == seq!['0', '.'] + zeros(written as nat),
                "0"@ == seq!['0'],
            decreases padding - written,
        {
            output.append("0");
            written = written + 1;
            assert(output@ =~= seq!['0', '.'] + zeros(written as nat));
        }
        output.append(digits.as_str());
        proof {
            law_short_amount(amount@, decimal as nat);
        }
        output
    }
}

} // verus!
