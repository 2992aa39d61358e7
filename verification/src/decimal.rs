//! Fixed-point decimal numbers, as prices and sizes are quoted in.
//!
//! The arithmetic is that of `rust_decimal`; this module holds a number as the
//! two integers that make it up, so that the proofs can speak of its value.

use vstd::arithmetic::power::{lemma_pow_adds, lemma_pow_positive, pow};
use vstd::prelude::*;

use crate::json::{json_tree, Json};
use crate::text::{digits_value, is_digits};

verus! {

/// The largest scale of a decimal.
pub const MAX_SCALE: u32 = 28;

/// The least magnitude that a mantissa cannot have: two to the power of 96.
pub const MANTISSA_BOUND: i128 = 0x1_0000_0000_0000_0000_0000_0000;

/// A decimal number: `mantissa` divided by ten to the power of `scale`. Its
/// view is the pair of the two.
#[derive(Debug, Clone, Copy)]
pub struct Decimal {
    mantissa: i128,
    scale: u32,
}

/// Whether a pair of a mantissa and a scale is a decimal.
pub open spec fn is_decimal(mantissa: int, scale: int) -> bool {
    &&& -MANTISSA_BOUND < mantissa < MANTISSA_BOUND
    &&& 0 <= scale <= MAX_SCALE
}

/// The value of a decimal, counted in units of ten to the power of minus 28.
pub open spec fn units(d: (int, nat)) -> int {
    d.0 * pow(10, (MAX_SCALE - d.1) as nat)
}

/// The larger of the scales of two decimals.
pub open spec fn common_scale(a: (int, nat), b: (int, nat)) -> nat {
    if a.1 >= b.1 {
        a.1
    } else {
        b.1
    }
}

/// The mantissa of `d` once it is written with `scale` decimal places.
pub open spec fn rescaled(d: (int, nat), scale: nat) -> int {
    d.0 * pow(10, (scale - d.1) as nat)
}

/// The sum of `a` and `b` written without rounding: the one that is not zero,
/// where the other is, and else with the larger of the two scales.
pub open spec fn plain_sum(a: (int, nat), b: (int, nat)) -> (int, nat) {
    let scale = common_scale(a, b);
    if a.0 == 0 {
        b
    } else if b.0 == 0 {
        a
    } else {
        (rescaled(a, scale) + rescaled(b, scale), scale)
    }
}

/// Whether `a`, `b` and their sum, all written with the same number of decimal
/// places, have mantissas that a decimal can have. The sum needs no rounding
/// then.
pub open spec fn sum_fits(a: (int, nat), b: (int, nat)) -> bool {
    let scale = common_scale(a, b);
    ||| a.0 == 0
    ||| b.0 == 0
    ||| {
        &&& -MANTISSA_BOUND < rescaled(a, scale) < MANTISSA_BOUND
        &&& -MANTISSA_BOUND < rescaled(b, scale) < MANTISSA_BOUND
        &&& -MANTISSA_BOUND < plain_sum(a, b).0 < MANTISSA_BOUND
    }
}

/// Whether half of `d` needs no rounding: its mantissa is even, or five times it
/// is a mantissa too and there is room for a further decimal place.
pub open spec fn halves_exactly(d: (int, nat)) -> bool {
    ||| d.0 % 2 == 0
    ||| -MANTISSA_BOUND < 5 * d.0 < MANTISSA_BOUND && d.1 < MAX_SCALE
}

/// One in the last decimal place of `d`, counted as in [`units`].
pub open spec fn last_place(d: (int, nat)) -> int {
    pow(10, (MAX_SCALE - d.1) as nat)
}

/// The view of a decimal that may be absent.
pub open spec fn decimal_opt(d: Option<Decimal>) -> Option<(int, nat)> {
    match d {
        Some(n) => Some(n@),
        None => None,
    }
}

/// What `rust_decimal` returns as the sum of two decimals; `None` where the sum
/// is too large.
pub uninterp spec fn decimal_sum(a: (int, nat), b: (int, nat)) -> Option<(int, nat)>;

/// What `rust_decimal` returns as the quotient of two decimals; `None` where
/// the divisor is zero or the quotient is too large.
pub uninterp spec fn decimal_quotient(a: (int, nat), b: (int, nat)) -> Option<(int, nat)>;

/// The decimal that `rust_decimal` reads from a JSON value; `None` where it
/// reports an error.
pub uninterp spec fn decimal_json(tree: Json) -> Option<(int, nat)>;

/// Where the first point of a text stands; its length, where it has none.
pub open spec fn point_index(text: Seq<char>) -> int
    decreases text.len(),
{
    if text.len() == 0 || text[0] == '.' {
        0
    } else {
        1 + point_index(text.drop_first())
    }
}

/// The decimal that a text without a sign writes plainly: digits, at most 28 of
/// them, with or without a point between two of them. Each digit behind the
/// point is a decimal place.
pub open spec fn plain_magnitude(text: Seq<char>) -> Option<(int, nat)> {
    let point = point_index(text);
    let whole = text.take(point);
    if point == text.len() {
        if is_digits(whole) && whole.len() <= MAX_SCALE {
            Some((digits_value(whole) as int, 0nat))
        } else {
            None
        }
    } else {
        let fraction = text.skip(point + 1);
        if is_digits(whole) && is_digits(fraction) && whole.len() + fraction.len() <= MAX_SCALE {
            Some((digits_value(whole + fraction) as int, fraction.len()))
        } else {
            None
        }
    }
}

/// The decimal that a text writes plainly, with or without a sign.
pub open spec fn plain_decimal(text: Seq<char>) -> Option<(int, nat)> {
    if text.len() > 0 && text[0] == '-' {
        match plain_magnitude(text.skip(1)) {
            Some(d) => Some((-d.0, d.1)),
            None => None,
        }
    } else if text.len() > 0 && text[0] == '+' {
        plain_magnitude(text.skip(1))
    } else {
        plain_magnitude(text)
    }
}

/// The decimal in a JSON value: an integer as it is, a text that writes a
/// decimal plainly, and what `rust_decimal` makes of other texts and of
/// fractions. `None` where there is none.
pub open spec fn decimal_in(tree: Json) -> Option<(int, nat)> {
    match tree {
        Json::Integer(n) => Some((n, 0nat)),
        Json::String(text) => if plain_decimal(text) is Some {
            plain_decimal(text)
        } else {
            decimal_json(tree)
        },
        Json::Fraction(_) => decimal_json(tree),
        _ => None,
    }
}

impl View for Decimal {
    type V = (int, nat);

    closed spec fn view(&self) -> (int, nat) {
        (self.mantissa as int, self.scale as nat)
    }
}

impl Decimal {
    #[verifier::type_invariant]
    spec fn in_range(self) -> bool {
        is_decimal(self.mantissa as int, self.scale as int)
    }

    /// The decimal `mantissa / 10^scale`, where there is one.
    pub fn new(mantissa: i128, scale: u32) -> (r: Option<Decimal>)
        ensures
            r is Some <==> is_decimal(mantissa as int, scale as int),
            r is Some ==> r->0@ == (mantissa as int, scale as nat),
    {
        if -MANTISSA_BOUND < mantissa && mantissa < MANTISSA_BOUND && scale <= MAX_SCALE {
            Some(Decimal { mantissa, scale })
        } else {
            None
        }
    }

    /// The integer that is divided by ten to the power of the scale.
    pub fn mantissa(&self) -> (r: i128)
        ensures
            r == self@.0,
            -MANTISSA_BOUND < r < MANTISSA_BOUND,
    {
        proof {
            use_type_invariant(self);
        }
        self.mantissa
    }

    /// The number of decimal places.
    pub fn scale(&self) -> (r: u32)
        ensures
            r == self@.1,
            r <= MAX_SCALE,
    {
        proof {
            use_type_invariant(self);
        }
        self.scale
    }
}

/// `rust_decimal::Decimal::checked_add`. Its result depends on the operands
/// alone, and is what [`decimal_sum`] names. Adding to zero gives the other
/// operand. Where both operands, written with the larger of the two scales, fit
/// in 96 bits, and so does their sum, the sum is exact and has that scale.
///
/// How a sum is rounded that does not fit is left to the name.
#[verifier::external_body]
fn checked_sum(a: Decimal, b: Decimal) -> (r: Option<Decimal>)
    requires
        is_decimal(a@.0, a@.1 as int),
        is_decimal(b@.0, b@.1 as int),
    ensures
        decimal_opt(r) == decimal_sum(a@, b@),
        sum_fits(a@, b@) ==> decimal_opt(r) == Some(plain_sum(a@, b@)),
{
    let left = rust_decimal::Decimal::from_i128_with_scale(a.mantissa, a.scale);
    let right = rust_decimal::Decimal::from_i128_with_scale(b.mantissa, b.scale);
    left.checked_add(right).map(|d| Decimal { mantissa: d.mantissa(), scale: d.scale() })
}

/// `rust_decimal::Decimal::checked_div`. Its result depends on the operands
/// alone, and is what [`decimal_quotient`] names. Half of zero is zero without
/// decimal places. Half of an even mantissa keeps the scale. Half of an odd
/// mantissa has the exact value, where a further decimal place is left and five
/// times the mantissa fits in 96 bits; else it is exact or rounded to the
/// scale of the dividend, up or down. The number of its decimal places is left
/// to the name.
///
/// What is returned for other divisors is left to the name.
#[verifier::external_body]
fn checked_quotient(a: Decimal, b: Decimal) -> (r: Option<Decimal>)
    requires
        is_decimal(a@.0, a@.1 as int),
        is_decimal(b@.0, b@.1 as int),
    ensures
        decimal_opt(r) == decimal_quotient(a@, b@),
        b@ == (2int, 0nat) && a@.0 == 0 ==> decimal_opt(r) == Some((0int, 0nat)),
        b@ == (2int, 0nat) && a@.0 != 0 && a@.0 % 2 == 0 ==> decimal_opt(r) == Some(
            (a@.0 / 2, a@.1),
        ),
        b@ == (2int, 0nat) && a@.0 % 2 == 1 ==> r is Some && -last_place(a@) <= 2 * units(r->0@)
            - units(a@) <= last_place(a@),
        b@ == (2int, 0nat) && a@.0 % 2 == 1 && halves_exactly(a@) ==> r is Some && 2 * units(
            r->0@,
        ) == units(a@),
{
    let dividend = rust_decimal::Decimal::from_i128_with_scale(a.mantissa, a.scale);
    let divisor = rust_decimal::Decimal::from_i128_with_scale(b.mantissa, b.scale);
    dividend.checked_div(divisor).map(|d| Decimal { mantissa: d.mantissa(), scale: d.scale() })
}

/// `serde_json::from_value::<rust_decimal::Decimal>`. Its result depends on the
/// value alone, and is what [`decimal_json`] names. An integer gives that
/// integer without decimal places, and a text that writes a decimal plainly
/// gives that decimal, with as many places as it has digits behind the point.
/// Another text or a fraction may give a decimal, and nothing else does.
#[verifier::external_body]
fn read_decimal(value: &serde_json::Value) -> (r: Option<Decimal>)
    ensures
        decimal_opt(r) == decimal_json(json_tree(*value)),
        json_tree(*value) matches Json::Integer(n) ==> decimal_opt(r) == Some((n, 0nat)),
        json_tree(*value) matches Json::String(text) ==> plain_decimal(text) is Some
            ==> decimal_opt(r) == plain_decimal(text),
        r is Some ==> json_tree(*value) is Integer || json_tree(*value) is Fraction || json_tree(
            *value,
        ) is String,
{
    let read = serde_json::from_value::<rust_decimal::Decimal>(value.clone());
    read.ok().map(|d| Decimal { mantissa: d.mantissa(), scale: d.scale() })
}

impl Decimal {
    /// The decimal in a JSON value.
    pub fn from_value(value: &serde_json::Value) -> (r: Option<Decimal>)
        ensures
            decimal_opt(r) == decimal_in(json_tree(*value)),
    {
        read_decimal(value)
    }
}

/// What the client reports as the middle between two prices: half their sum,
/// as `rust_decimal` computes it; `None` where the sum is too large.
pub open spec fn midpoint_value(bid: (int, nat), ask: (int, nat)) -> Option<(int, nat)> {
    match decimal_sum(bid, ask) {
        Some(sum) => decimal_quotient(sum, (2int, 0nat)),
        None => None,
    }
}

/// Whether the middle between two prices is computed without rounding: neither
/// their sum nor half of it needs any.
pub open spec fn averages_exactly(bid: (int, nat), ask: (int, nat)) -> bool {
    sum_fits(bid, ask) && halves_exactly(plain_sum(bid, ask))
}

/// Whether the value of `d` lies between those of `a` and `b`, whichever of the
/// two is larger.
pub open spec fn lies_between(a: (int, nat), d: (int, nat), b: (int, nat)) -> bool {
    ||| units(a) <= units(d) <= units(b)
    ||| units(b) <= units(d) <= units(a)
}

/// Writing a decimal with more places does not change its value.
proof fn lemma_rescaled_units(d: (int, nat), scale: nat)
    requires
        d.1 <= scale <= MAX_SCALE,
    ensures
        units((rescaled(d, scale), scale)) == units(d),
        d.0 == 0 ==> units(d) == 0,
{
    let low = pow(10, (scale - d.1) as nat);
    let high = pow(10, (MAX_SCALE - scale) as nat);
    lemma_pow_adds(10, (scale - d.1) as nat, (MAX_SCALE - scale) as nat);
    assert((d.0 * low) * high == d.0 * (low * high)) by (nonlinear_arith);
}

/// The sum of two decimals, written without rounding, has the sum of their
/// values, and both are whole numbers of its last places.
proof fn lemma_plain_sum(a: (int, nat), b: (int, nat)) -> (parts: (int, int))
    requires
        a.1 <= MAX_SCALE,
        b.1 <= MAX_SCALE,
    ensures
        units(plain_sum(a, b)) == units(a) + units(b),
        units(a) == parts.0 * last_place(plain_sum(a, b)),
        units(b) == parts.1 * last_place(plain_sum(a, b)),
        parts.0 + parts.1 == plain_sum(a, b).0,
        last_place(plain_sum(a, b)) >= 1,
{
    let scale = common_scale(a, b);
    lemma_rescaled_units(a, scale);
    lemma_rescaled_units(b, scale);
    let place = last_place(plain_sum(a, b));
    lemma_pow_positive(10, (MAX_SCALE - plain_sum(a, b).1) as nat);
    if a.0 == 0 {
        assert(0 * place == 0);
        (0, b.0)
    } else if b.0 == 0 {
        assert(0 * place == 0);
        (a.0, 0)
    } else {
        let left = rescaled(a, scale);
        let right = rescaled(b, scale);
        assert((left + right) * place == left * place + right * place) by (nonlinear_arith);
        (left, right)
    }
}

/// Half of `x + y`, which is odd, rounded up or down lies between `x` and `y`.
proof fn lemma_rounded_half_lies_between(x: int, y: int, place: int, twice: int)
    requires
        (x + y) % 2 == 1,
        place >= 1,
        -place <= twice - (x + y) * place <= place,
    ensures
        x < y ==> 2 * (x * place) <= twice <= 2 * (y * place),
        y < x ==> 2 * (y * place) <= twice <= 2 * (x * place),
        x != y,
{
    assert((x + y) * place - place == (x + y - 1) * place) by (nonlinear_arith);
    assert((x + y) * place + place == (x + y + 1) * place) by (nonlinear_arith);
    let low = if x < y {
        x
    } else {
        y
    };
    let high = if x < y {
        y
    } else {
        x
    };
    assert((2 * low) * place <= (x + y - 1) * place) by (nonlinear_arith)
        requires
            2 * low <= x + y - 1,
            place >= 1,
    ;
    assert((x + y + 1) * place <= (2 * high) * place) by (nonlinear_arith)
        requires
            x + y + 1 <= 2 * high,
            place >= 1,
    ;
    assert((2 * low) * place == 2 * (low * place)) by (nonlinear_arith);
    assert((2 * high) * place == 2 * (high * place)) by (nonlinear_arith);
}

/// Half of the sum of two prices, where it can be represented.
///
/// Where `sum_fits` holds it can be, and lies between the two. Where
/// `averages_exactly` holds, its value is exactly the mean of the two.
pub fn checked_midpoint(bid: Decimal, ask: Decimal) -> (r: Option<Decimal>)
    ensures
        decimal_opt(r) == midpoint_value(bid@, ask@),
        sum_fits(bid@, ask@) ==> r is Some && lies_between(bid@, r->0@, ask@),
        averages_exactly(bid@, ask@) ==> 2 * units(r->0@) == units(bid@) + units(ask@),
{
    proof {
        use_type_invariant(&bid);
        use_type_invariant(&ask);
    }
    let sum = match checked_sum(bid, ask) {
        Some(sum) => sum,
        None => {
            return None;
        },
    };
    proof {
        use_type_invariant(&sum);
    }
    let two = Decimal { mantissa: 2, scale: 0 };
    let half = checked_quotient(sum, two);
    proof {
        if sum_fits(bid@, ask@) {
            let (x, y) = lemma_plain_sum(bid@, ask@);
            let m = sum@.0;
            let place = last_place(sum@);
            if m % 2 == 0 {
                assert(2 * ((m / 2) * place) == m * place) by (nonlinear_arith)
                    requires
                        m % 2 == 0,
                ;
                assert(0int * pow(10, 28nat) == 0);
                assert(m == 0 ==> m * place == 0) by (nonlinear_arith);
                assert(2 * units(half->0@) == units(bid@) + units(ask@));
            } else {
                lemma_rounded_half_lies_between(x, y, place, 2 * units(half->0@));
            }
        }
    }
    half
}

/// Half of the sum of two prices.
pub fn midpoint(bid: Decimal, ask: Decimal) -> (r: Decimal)
    requires
        midpoint_value(bid@, ask@) is Some,
    ensures
        midpoint_value(bid@, ask@) == Some(r@),
        sum_fits(bid@, ask@) ==> lies_between(bid@, r@, ask@),
        averages_exactly(bid@, ask@) ==> 2 * units(r@) == units(bid@) + units(ask@),
{
    checked_midpoint(bid, ask).unwrap()
}

} // verus!
