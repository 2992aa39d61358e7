//! Texts and the numbers that they write.

use vstd::arithmetic::power::{lemma_pow0, lemma_pow_adds, pow};
use vstd::prelude::*;

use crate::text::{
    digits_value, has_suffix, i64_value, integer_value, is_digit, is_digits, is_white_space, joined,
    trimmed, trimmed_end, trimmed_start, without_trailing_slashes,
};

verus! {

/// A text has a suffix exactly where it is something followed by the suffix.
pub proof fn law_suffixes(text: Seq<char>, suffix: Seq<char>, head: Seq<char>)
    ensures
        has_suffix(head + suffix, suffix),
        has_suffix(text, suffix) ==> text == text.take(text.len() - suffix.len()) + suffix,
{
    assert((head + suffix).skip(head.len() as int) =~= suffix);
    if has_suffix(text, suffix) {
        assert(text =~= text.take(text.len() - suffix.len()) + text.skip(
            text.len() - suffix.len(),
        ));
    }
}

/// Without the slashes at its end, a text is the part of it that is followed by
/// nothing but slashes and does not end with one.
pub proof fn law_slashes_at_the_end(text: Seq<char>)
    ensures
        ({
            let left = without_trailing_slashes(text);
            &&& left.len() <= text.len()
            &&& left == text.take(left.len() as int)
            &&& forall|i: int| left.len() <= i < text.len() ==> (#[trigger] text[i]) == '/'
            &&& left.len() > 0 ==> left.last() != '/'
        }),
    decreases text.len(),
{
    if text.len() > 0 && text.last() == '/' {
        let rest = text.drop_last();
        law_slashes_at_the_end(rest);
        let left = without_trailing_slashes(rest);
        assert(left =~= text.take(left.len() as int));
        assert forall|i: int| left.len() <= i < text.len() implies (#[trigger] text[i]) == '/' by {
            if i < rest.len() {
                assert(rest[i] == text[i]);
            }
        }
    } else {
        assert(text =~= text.take(text.len() as int));
    }
}

/// The white space characters of Unicode.
pub proof fn law_white_space(c: char)
    ensures
        is_white_space(c) <==> {
            let code = c as int;
            ||| 9 <= code <= 13
            ||| code == 32
            ||| code == 133
            ||| code == 160
            ||| code == 5760
            ||| 8192 <= code <= 8202
            ||| code == 8232
            ||| code == 8233
            ||| code == 8239
            ||| code == 8287
            ||| code == 12288
        },
{
}

/// Taking white space off the end takes white space only, and all of it.
proof fn lemma_trimmed_end(text: Seq<char>)
    ensures
        trimmed_end(text).len() <= text.len(),
        trimmed_end(text) == text.take(trimmed_end(text).len() as int),
        forall|i: int|
            trimmed_end(text).len() <= i < text.len() ==> is_white_space(#[trigger] text[i]),
        trimmed_end(text).len() > 0 ==> !is_white_space(trimmed_end(text).last()),
    decreases text.len(),
{
    if text.len() > 0 && is_white_space(text.last()) {
        let rest = text.drop_last();
        lemma_trimmed_end(rest);
        assert(trimmed_end(text) =~= text.take(trimmed_end(text).len() as int));
        assert forall|i: int| trimmed_end(text).len() <= i < text.len() implies is_white_space(
            #[trigger] text[i],
        ) by {
            if i < rest.len() {
                assert(rest[i] == text[i]);
            }
        }
    } else {
        assert(text =~= text.take(text.len() as int));
    }
}

/// Taking white space off the start takes white space only, and all of it.
proof fn lemma_trimmed_start(text: Seq<char>)
    ensures
        trimmed_start(text).len() <= text.len(),
        trimmed_start(text) == text.skip(text.len() - trimmed_start(text).len()),
        forall|i: int|
            0 <= i < text.len() - trimmed_start(text).len() ==> is_white_space(#[trigger] text[i]),
        trimmed_start(text).len() > 0 ==> !is_white_space(trimmed_start(text)[0]),
    decreases text.len(),
{
    if text.len() > 0 && is_white_space(text[0]) {
        let rest = text.drop_first();
        lemma_trimmed_start(rest);
        assert(trimmed_start(text) =~= text.skip(text.len() - trimmed_start(text).len()));
        assert forall|i: int|
            0 <= i < text.len() - trimmed_start(text).len() implies is_white_space(
            #[trigger] text[i],
        ) by {
            if i > 0 {
                assert(rest[i - 1] == text[i]);
            }
        }
    } else {
        assert(text =~= text.skip(0));
    }
}

/// Without the white space around it, a text is the part of it that has nothing
/// but white space on both sides and neither starts nor ends with any.
pub proof fn law_trimming(text: Seq<char>) -> (start: int)
    ensures
        0 <= start <= start + trimmed(text).len() <= text.len(),
        trimmed(text) == text.subrange(start, start + trimmed(text).len()),
        forall|i: int| 0 <= i < start ==> is_white_space(#[trigger] text[i]),
        forall|i: int|
            start + trimmed(text).len() <= i < text.len() ==> is_white_space(#[trigger] text[i]),
        trimmed(text).len() > 0 ==> !is_white_space(trimmed(text)[0]) && !is_white_space(
            trimmed(text).last(),
        ),
{
    let tail = trimmed_start(text);
    let start = text.len() - tail.len();
    lemma_trimmed_start(text);
    lemma_trimmed_end(tail);
    assert(trimmed(text) =~= text.subrange(start, start + trimmed(text).len()));
    assert forall|i: int| start + trimmed(text).len() <= i < text.len() implies is_white_space(
        #[trigger] text[i],
    ) by {
        assert(tail[i - start] == text[i]);
    }
    start
}

/// Joined texts stand one after the other, with the separator between
/// neighbours and nowhere else.
pub proof fn law_joining(a: Seq<Seq<char>>, b: Seq<Seq<char>>, item: Seq<char>,
    separator: Seq<char>)
    ensures
        joined(Seq::<Seq<char>>::empty(), separator) == Seq::<char>::empty(),
        joined(seq![item], separator) == item,
        a.len() > 0 && b.len() > 0 ==> joined(a + b, separator) == joined(a, separator) + separator
            + joined(b, separator),
    decreases b.len(),
{
    if a.len() > 0 && b.len() > 0 {
        let all = a + b;
        assert(all.drop_last() =~= a + b.drop_last());
        assert(all.last() == b.last());
        if b.len() == 1 {
            assert(a + b.drop_last() =~= a);
            assert(joined(b, separator) == b[0]);
        } else {
            law_joining(a, b.drop_last(), item, separator);
            assert(joined(a, separator) + separator + joined(b.drop_last(), separator) + separator
                + b.last() =~= joined(a, separator) + separator + (joined(
                b.drop_last(),
                separator,
            ) + separator + b.last()));
        }
    }
}

/// The ten digits and their values.
pub proof fn law_digits(c: char)
    ensures
        is_digit(c) <==> c == '0' || c == '1' || c == '2' || c == '3' || c == '4' || c == '5' || c
            == '6' || c == '7' || c == '8' || c == '9',
        digits_value(seq!['0']) == 0,
        digits_value(seq!['1']) == 1,
        digits_value(seq!['2']) == 2,
        digits_value(seq!['3']) == 3,
        digits_value(seq!['4']) == 4,
        digits_value(seq!['5']) == 5,
        digits_value(seq!['6']) == 6,
        digits_value(seq!['7']) == 7,
        digits_value(seq!['8']) == 8,
        digits_value(seq!['9']) == 9,
{
    reveal_with_fuel(digits_value, 2);
    assert(seq!['0'].drop_last() =~= Seq::empty());
    assert(seq!['1'].drop_last() =~= Seq::empty());
    assert(seq!['2'].drop_last() =~= Seq::empty());
    assert(seq!['3'].drop_last() =~= Seq::empty());
    assert(seq!['4'].drop_last() =~= Seq::empty());
    assert(seq!['5'].drop_last() =~= Seq::empty());
    assert(seq!['6'].drop_last() =~= Seq::empty());
    assert(seq!['7'].drop_last() =~= Seq::empty());
    assert(seq!['8'].drop_last() =~= Seq::empty());
    assert(seq!['9'].drop_last() =~= Seq::empty());
}

/// Digits stand for tens by their place: what is written before `b` counts ten
/// times as much for each digit of `b`.
pub proof fn law_places(a: Seq<char>, b: Seq<char>)
    ensures
        digits_value(a + b) == digits_value(a) * pow(10, b.len()) + digits_value(b),
    decreases b.len(),
{
    if b.len() == 0 {
        assert(a + b =~= a);
        lemma_pow0(10);
    } else {
        let rest = b.drop_last();
        law_places(a, rest);
        assert((a + b).drop_last() =~= a + rest);
        lemma_pow_adds(10, rest.len(), 1);
        assert(pow(10, 1) == 10) by {
            reveal(pow);
            lemma_pow0(10);
        }
        let x = digits_value(a) as int;
        let p = pow(10, rest.len());
        assert((x * p) * 10 == x * (p * 10)) by (nonlinear_arith);
    }
}

/// A run of digits is one, and all of its characters are digits.
pub proof fn law_runs_of_digits(text: Seq<char>)
    ensures
        is_digits(text) <==> text.len() > 0 && forall|i: int|
            0 <= i < text.len() ==> is_digit(#[trigger] text[i]),
{
}

/// An integer is written as digits, with or without a sign in front of them,
/// and in no other way.
pub proof fn law_integers(digits: Seq<char>, text: Seq<char>)
    ensures
        is_digits(digits) ==> {
            &&& integer_value(digits) == Some(digits_value(digits) as int)
            &&& integer_value(seq!['+'] + digits) == Some(digits_value(digits) as int)
            &&& integer_value(seq!['-'] + digits) == Some(-digits_value(digits))
        },
        !is_digits(digits) ==> {
            &&& integer_value(seq!['+'] + digits) is None
            &&& integer_value(seq!['-'] + digits) is None
        },
        integer_value(text) is Some ==> is_digits(text) || text.len() > 0 && is_digits(text.skip(1))
            && (text[0] == '+' || text[0] == '-'),
{
    assert((seq!['+'] + digits).skip(1) =~= digits);
    assert((seq!['-'] + digits).skip(1) =~= digits);
    if is_digits(digits) {
        assert(is_digit(digits[0]));
    }
}

/// A 64-bit integer is an integer that fits.
pub proof fn law_64_bit_integers(text: Seq<char>, n: i64)
    ensures
        i64_value(text) == Some(n) <==> integer_value(text) == Some(n as int),
        i64_value(text) is None <==> integer_value(text) is None || integer_value(text)->0
            < -0x8000_0000_0000_0000 || integer_value(text)->0 > 0x7FFF_FFFF_FFFF_FFFF,
{
}

/// The decimal digits of a number.
pub open spec fn number_text(n: nat) -> Seq<char>
    decreases n,
{
    if n < 10 {
        seq![(48 + n) as char]
    } else {
        number_text(n / 10).push((48 + n % 10) as char)
    }
}

/// The digits of a number stand for it.
pub proof fn law_numbers_are_read_back(n: nat)
    ensures
        is_digits(number_text(n)),
        digits_value(number_text(n)) == n,
        n <= i64::MAX ==> i64_value(number_text(n)) == Some(n as i64),
    decreases n,
{
    reveal_with_fuel(digits_value, 2);
    if n < 10 {
        assert(number_text(n).drop_last() =~= Seq::empty());
        assert(is_digit(number_text(n)[0]));
    } else {
        law_numbers_are_read_back(n / 10);
        assert(number_text(n).drop_last() =~= number_text(n / 10));
        assert forall|i: int| 0 <= i < number_text(n).len() implies is_digit(
            #[trigger] number_text(n)[i],
        ) by {
            if i < number_text(n / 10).len() {
                assert(number_text(n)[i] == number_text(n / 10)[i]);
            }
        }
    }
    assert(is_digit(number_text(n)[0]));
}

} // verus!
