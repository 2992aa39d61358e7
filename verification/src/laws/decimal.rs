//! Prices and sizes, and the middle between prices.

use vstd::arithmetic::power::{lemma_pow0, lemma_pow1, lemma_pow_adds, pow};
use vstd::prelude::*;

use crate::decimal::{
    averages_exactly, decimal_in, decimal_json, decimal_quotient, decimal_sum, halves_exactly,
    is_decimal, last_place, lies_between, midpoint_value, plain_decimal, plain_magnitude, plain_sum,
    point_index, sum_fits, units,
};
use crate::json::Json;
use crate::text::{digits_value, is_digit, is_digits};

verus! {

/// A decimal has a mantissa of at most 96 bits and at most 28 decimal places.
pub proof fn law_decimals(mantissa: int, scale: int)
    ensures
        is_decimal(mantissa, scale) <==> {
            &&& -79228162514264337593543950336 < mantissa < 79228162514264337593543950336
            &&& 0 <= scale <= 28
        },
{
}

/// Values are counted in units of the last of 28 decimal places, and each place
/// less counts ten times as much.
pub proof fn law_values_of_decimals(mantissa: int, scale: nat)
    requires
        scale < 28,
    ensures
        units((mantissa, 28nat)) == mantissa,
        units((mantissa, scale)) == 10 * units((mantissa, scale + 1)),
{
    lemma_pow0(10);
    lemma_pow1(10);
    let p = pow(10, (28 - scale - 1) as nat);
    lemma_pow_adds(10, (28 - scale - 1) as nat, 1);
    assert(mantissa * (p * 10) == 10 * (mantissa * p)) by (nonlinear_arith);
}

/// Digits without a point have no point.
proof fn lemma_no_point(text: Seq<char>, tail: Seq<char>)
    requires
        forall|i: int| 0 <= i < text.len() ==> (#[trigger] text[i]) != '.',
    ensures
        point_index(text) == text.len(),
        point_index(text + seq!['.'] + tail) == text.len(),
    decreases text.len(),
{
    let all = text + seq!['.'] + tail;
    if text.len() > 0 {
        let rest = text.drop_first();
        assert forall|i: int| 0 <= i < rest.len() implies (#[trigger] rest[i]) != '.' by {
            assert(rest[i] == text[i + 1]);
        }
        lemma_no_point(rest, tail);
        assert(all.drop_first() =~= rest + seq!['.'] + tail);
        assert(all[0] == text[0]);
    } else {
        assert(all[0] == '.');
    }
}

/// A decimal is written plainly as digits, with or without a point between them
/// and a sign in front of them: it is the number that the digits write, with as
/// many decimal places as there are digits behind the point.
pub proof fn law_plain_decimals(whole: Seq<char>, fraction: Seq<char>)
    requires
        is_digits(whole),
        is_digits(fraction),
        whole.len() + fraction.len() <= 28,
    ensures
        plain_decimal(whole) == Some((digits_value(whole) as int, 0nat)),
        plain_decimal(seq!['+'] + whole) == Some((digits_value(whole) as int, 0nat)),
        plain_decimal(seq!['-'] + whole) == Some((-digits_value(whole), 0nat)),
        plain_decimal(whole + seq!['.'] + fraction) == Some(
            (digits_value(whole + fraction) as int, fraction.len()),
        ),
        plain_decimal(seq!['-'] + (whole + seq!['.'] + fraction)) == Some(
            (-digits_value(whole + fraction), fraction.len()),
        ),
{
    assert forall|i: int| 0 <= i < whole.len() implies (#[trigger] whole[i]) != '.' by {
        assert(is_digit(whole[i]));
    }
    assert(is_digit(whole[0]));
    lemma_no_point(whole, fraction);
    let all = whole + seq!['.'] + fraction;
    assert(all.take(whole.len() as int) =~= whole);
    assert(all.skip(whole.len() as int + 1) =~= fraction);
    assert(whole.take(whole.len() as int) =~= whole);
    assert(all[0] == whole[0]);
    assert((seq!['+'] + whole).skip(1) =~= whole);
    assert((seq!['-'] + whole).skip(1) =~= whole);
    assert((seq!['-'] + all).skip(1) =~= all);
}

/// The decimal in a JSON value: an integer is itself, a text that writes a
/// decimal plainly is that decimal, and other texts and fractions are what
/// `rust_decimal` makes of them. Nothing else has one.
pub proof fn law_decimals_in_json(tree: Json, n: int, text: Seq<char>)
    ensures
        decimal_in(Json::Integer(n)) == Some((n, 0nat)),
        plain_decimal(text) is Some ==> decimal_in(Json::String(text)) == plain_decimal(text),
        plain_decimal(text) is None ==> decimal_in(Json::String(text)) == decimal_json(
            Json::String(text),
        ),
        decimal_in(Json::Fraction(text)) == decimal_json(Json::Fraction(text)),
        tree is Null || tree is Bool || tree is Array
            || tree is Object ==> decimal_in(tree) is None,
{
}

/// The midpoint is half of the sum, as far as both are decimals.
pub proof fn law_midpoints(bid: (int, nat), ask: (int, nat))
    ensures
        decimal_sum(bid, ask) is None ==> midpoint_value(bid, ask) is None,
        decimal_sum(bid, ask) is Some ==> midpoint_value(bid, ask) == decimal_quotient(
            decimal_sum(bid, ask)->0,
            (2int, 0nat),
        ),
{
}

/// A text without a sign that writes a decimal plainly is digits, or digits on
/// both sides of one point, and no more than 28 of them.
pub proof fn law_shape_of_plain_decimals(text: Seq<char>) -> (parts: (Seq<char>, Seq<char>))
    requires
        plain_magnitude(text) is Some,
    ensures
        is_digits(parts.0),
        parts.0.len() + parts.1.len() <= 28,
        text == parts.0 && parts.1.len() == 0 || text == parts.0 + seq!['.'] + parts.1 && is_digits(
            parts.1,
        ),
{
    lemma_point(text);
    let point = point_index(text);
    let whole = text.take(point);
    if point == text.len() {
        assert(text =~= whole);
        (whole, Seq::empty())
    } else {
        let fraction = text.skip(point + 1);
        assert(text =~= whole + seq!['.'] + fraction);
        (whole, fraction)
    }
}

/// The first point of a text is a point, if there is one.
proof fn lemma_point(text: Seq<char>)
    ensures
        0 <= point_index(text) <= text.len(),
        point_index(text) < text.len() ==> text[point_index(text)] == '.',
    decreases text.len(),
{
    if text.len() > 0 && text[0] != '.' {
        lemma_point(text.drop_first());
    }
}

/// A sign in front of a text negates what it writes, or leaves it as it is; a
/// text without one is read as it is.
pub proof fn law_signs_of_plain_decimals(text: Seq<char>)
    ensures
        plain_decimal(seq!['+'] + text) == plain_magnitude(text),
        plain_magnitude(text) is None ==> plain_decimal(seq!['-'] + text) is None,
        plain_magnitude(text) matches Some(d) ==> plain_decimal(seq!['-'] + text) == Some(
            (-d.0, d.1),
        ),
        text.len() > 0 && text[0] != '+' && text[0] != '-' ==> plain_decimal(text)
            == plain_magnitude(text),
{
    assert((seq!['+'] + text).skip(1) =~= text);
    assert((seq!['-'] + text).skip(1) =~= text);
}

/// A sum without rounding is written with the larger number of decimal places;
/// a summand that is zero leaves the other as it is.
pub proof fn law_plain_sums(a: (int, nat), b: (int, nat))
    requires
        a.1 <= b.1,
    ensures
        plain_sum((0int, a.1), b) == b,
        b.0 != 0 ==> plain_sum(b, (0int, a.1)) == b,
        a.0 != 0 && b.0 != 0 ==> {
            let widened = a.0 * pow(10, (b.1 - a.1) as nat);
            &&& plain_sum(a, b) == (widened + b.0, b.1)
            &&& plain_sum(b, a) == (widened + b.0, b.1)
            &&& sum_fits(a, b) == sum_fits(b, a)
            &&& sum_fits(a, b) <==> {
                &&& -79228162514264337593543950336 < widened < 79228162514264337593543950336
                &&& -79228162514264337593543950336 < b.0 < 79228162514264337593543950336
                &&& -79228162514264337593543950336 < widened + b.0 < 79228162514264337593543950336
            }
        },
        sum_fits((0int, a.1), b),
        sum_fits(b, (0int, a.1)),
{
    lemma_pow0(10);
    assert(b.0 * 1 == b.0);
}

/// A value is halved without rounding where its mantissa is even, or where it
/// has room for one more decimal place.
pub proof fn law_exact_halves(d: (int, nat), a: (int, nat), b: (int, nat))
    ensures
        d.0 % 2 == 0 ==> halves_exactly(d),
        d.0 % 2 != 0 ==> (halves_exactly(d) <==> {
            &&& d.1 < 28
            &&& -79228162514264337593543950336 < 5 * d.0 < 79228162514264337593543950336
        }),
        averages_exactly(a, b) <==> sum_fits(a, b) && halves_exactly(plain_sum(a, b)),
        units(d) == d.0 * last_place(d),
        last_place((d.0, 28nat)) == 1,
{
    lemma_pow0(10);
}

/// To lie between two values is to be no smaller than the smaller and no larger
/// than the larger of them.
pub proof fn law_lying_between(a: (int, nat), d: (int, nat), b: (int, nat))
    ensures
        units(a) <= units(b) ==> (lies_between(a, d, b) <==> units(a) <= units(d) <= units(b)),
        units(b) <= units(a) ==> (lies_between(a, d, b) <==> units(b) <= units(d) <= units(a)),
{
}

/// Prices with the same number of decimal places, up to 27, and mantissas of up
/// to 91 bits have a sum that fits and an exact mean.
pub proof fn law_ordinary_prices_average_exactly(bid: (int, nat), ask: (int, nat))
    requires
        bid.1 == ask.1,
        bid.1 < 28,
        -0x800_0000_0000_0000_0000_0000 < bid.0 < 0x800_0000_0000_0000_0000_0000,
        -0x800_0000_0000_0000_0000_0000 < ask.0 < 0x800_0000_0000_0000_0000_0000,
    ensures
        sum_fits(bid, ask),
        averages_exactly(bid, ask),
        units(plain_sum(bid, ask)) == units(bid) + units(ask),
{
    lemma_pow0(10);
    let p = pow(10, (28 - bid.1) as nat);
    assert((bid.0 + ask.0) * p == bid.0 * p + ask.0 * p) by (nonlinear_arith);
    assert(bid.0 * 1 == bid.0);
    assert(ask.0 * 1 == ask.0);
}

} // verus!
