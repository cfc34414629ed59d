//! Numbers written out in decimal notation: whole numbers, and raw amounts in
//! Nano.

use crate::amount::{
    all_digits, digit_value, digits_value, frac_part, head_of, int_part, is_decimal, is_digit,
    lemma_digits_value_bound, lemma_dot_position_is, lemma_pow10_30, lemma_pow10_adds,
    lemma_pow10_positive, lemma_raw_structure, pow10, raw_amount, strip_sign, tail_of, unscaled,
    AmountError, RAW_DECIMALS, RAW_PER_NANO,
};
use vstd::prelude::*;
use vstd::string::*;

verus! {

/// The ten digits.
pub open spec fn decimal_digits() -> Seq<char> {
    seq!['0', '1', '2', '3', '4', '5', '6', '7', '8', '9']
}

/// A natural number in decimal notation, without leading zeros.
pub open spec fn numeral(n: nat) -> Seq<char>
    decreases n,
{
    if n < 10 {
        seq![decimal_digits()[n as int]]
    } else {
        numeral(n / 10).push(decimal_digits()[(n % 10) as int])
    }
}

/// A whole number in decimal notation: a minus sign before what is below zero.
pub open spec fn decimal_text(n: int) -> Seq<char> {
    if n < 0 {
        seq!['-'] + numeral((-n) as nat)
    } else {
        numeral(n as nat)
    }
}

/// The last `width` digits of a natural number, with zeros in front where
/// the number is short.
pub open spec fn padded(n: nat, width: nat) -> Seq<char>
    decreases width,
{
    if width == 0 {
        Seq::empty()
    } else {
        padded(n / 10, (width - 1) as nat).push(decimal_digits()[(n % 10) as int])
    }
}

/// A run of digits without the zeros at its end.
pub open spec fn trimmed(s: Seq<char>) -> Seq<char>
    decreases s.len(),
{
    if s.len() > 0 && s.last() == '0' {
        trimmed(s.drop_last())
    } else {
        s
    }
}

/// An amount of raw units written in Nano: the whole Nano, and behind a
/// `'.'` the thirty places of the rest without the zeros at their end. A
/// whole number of Nano is written without a `'.'`.
pub open spec fn nano_text(raw: nat) -> Seq<char> {
    let whole = numeral(raw / pow10(30));
    if raw % pow10(30) == 0 {
        whole
    } else {
        whole + seq!['.'] + trimmed(padded(raw % pow10(30), 30))
    }
}

/// Each of the ten digits is a digit and stands for its place among them.
pub proof fn lemma_decimal_digit(d: nat)
    requires
        d < 10,
    ensures
        is_digit(decimal_digits()[d as int]),
        digit_value(decimal_digits()[d as int]) == d,
        decimal_digits()[d as int] == '0' <==> d == 0,
{
}

/// A numeral is a run of digits, not empty, that stands for its number.
pub proof fn lemma_numeral(n: nat)
    ensures
        numeral(n).len() > 0,
        all_digits(numeral(n)),
        digits_value(numeral(n)) == n,
    decreases n,
{
    if n < 10 {
        lemma_decimal_digit(n);
        let s = numeral(n);
        assert(s.drop_last() =~= Seq::<char>::empty());
        assert(digits_value(s.drop_last()) == 0);
    } else {
        lemma_numeral(n / 10);
        lemma_decimal_digit(n % 10);
        let s = numeral(n);
        let front = numeral(n / 10);
        assert(s.drop_last() =~= front);
        assert forall|i: int| 0 <= i < s.len() implies is_digit(#[trigger] s[i]) by {
            if i < front.len() {
                assert(s[i] == front[i]);
            }
        }
    }
}

/// A number below ten to the `width` fills its `width` places and stands
/// there for itself.
pub proof fn lemma_padded(n: nat, width: nat)
    requires
        n < pow10(width),
    ensures
        padded(n, width).len() == width,
        all_digits(padded(n, width)),
        digits_value(padded(n, width)) == n,
    decreases width,
{
    if width > 0 {
        let rest = (width - 1) as nat;
        assert(pow10(width) == 10 * pow10(rest));
        lemma_padded(n / 10, rest);
        lemma_decimal_digit(n % 10);
        let s = padded(n, width);
        let front = padded(n / 10, rest);
        assert(s.drop_last() =~= front);
        assert forall|i: int| 0 <= i < s.len() implies is_digit(#[trigger] s[i]) by {
            if i < front.len() {
                assert(s[i] == front[i]);
            }
        }
    }
}

/// Zeros taken from the end of a run of digits divide its number by ten for
/// each: what is left, moved up again by as many places, is the number.
pub proof fn lemma_trimmed(s: Seq<char>)
    requires
        all_digits(s),
    ensures
        trimmed(s).len() <= s.len(),
        all_digits(trimmed(s)),
        digits_value(trimmed(s)) * pow10((s.len() - trimmed(s).len()) as nat) == digits_value(s),
        digits_value(s) > 0 ==> trimmed(s).len() > 0,
    decreases s.len(),
{
    if s.len() > 0 && s.last() == '0' {
        let front = s.drop_last();
        assert forall|i: int| 0 <= i < front.len() implies is_digit(#[trigger] front[i]) by {
            assert(front[i] == s[i]);
        }
        lemma_trimmed(front);
        let t = trimmed(front);
        let gap = (front.len() - t.len()) as nat;
        assert(pow10(gap + 1) == 10 * pow10(gap));
        assert(digits_value(s) == 10 * digits_value(front));
        assert(digits_value(t) * (10 * pow10(gap)) == 10 * (digits_value(t) * pow10(gap)))
            by (nonlinear_arith);
    } else {
        assert(digits_value(s) * pow10(0) == digits_value(s)) by (nonlinear_arith)
            requires
                pow10(0) == 1,
        ;
    }
}

/// Writing an amount out and reading it back gives the amount: every amount
/// of raw units that fits in 128 bits has a numeral, and the conversion of
/// that numeral is the amount.
pub proof fn lemma_written_amount_reads_back(raw: nat)
    requires
        raw <= u128::MAX,
    ensures
        raw_amount(nano_text(raw)) == Ok::<nat, AmountError>(raw),
{
    let p30 = pow10(30);
    lemma_pow10_positive(30);
    let w = raw / p30;
    let f = raw % p30;
    vstd::arithmetic::div_mod::lemma_fundamental_div_mod(raw as int, p30 as int);
    assert(raw == p30 * w + f);
    let whole = numeral(w);
    lemma_numeral(w);
    let places = padded(f, 30);
    lemma_padded(f, 30);
    let frac = if f == 0 {
        Seq::<char>::empty()
    } else {
        trimmed(places)
    };
    lemma_trimmed(places);
    let text = nano_text(raw);
    assert(is_digit(whole[0]));
    assert(text[0] == whole[0]);
    assert(strip_sign(text) == text);
    assert forall|j: int| 0 <= j < whole.len() implies text[j] != '.' by {
        assert(text[j] == whole[j]);
        assert(is_digit(whole[j]));
    }
    if f != 0 {
        assert(text[whole.len() as int] == '.');
    }
    lemma_dot_position_is(text, whole.len() as int);
    assert(int_part(text) =~= whole);
    assert(frac_part(text) =~= frac);
    assert(is_decimal(text));
    assert(head_of(frac) =~= frac);
    assert(tail_of(frac) =~= Seq::<char>::empty());
    lemma_raw_structure(whole, frac, Seq::<char>::empty());
    assert(whole + (frac + Seq::<char>::empty()) =~= whole + frac);
    let gap = (30 - frac.len()) as nat;
    assert(digits_value(frac) * pow10(gap) == f) by {
        if f == 0 {
            assert(digits_value(frac) * pow10(gap) == 0) by (nonlinear_arith)
                requires
                    digits_value(frac) == 0,
            ;
        }
    }
    assert(digits_value(Seq::<char>::empty()) * p30 == 0) by (nonlinear_arith)
        requires
            digits_value(Seq::<char>::empty()) == 0,
    ;
    assert(w * p30 == p30 * w) by (nonlinear_arith);
    let n = unscaled(text);
    assert((n * p30) / pow10(frac.len()) == raw);
    assert((n * p30) % pow10(frac.len()) == 0);
    if n == 0 {
        assert(w * p30 == 0) by (nonlinear_arith)
            requires
                w == 0,
        ;
    }
}

/// One digit as text.
fn digit_text(digit: u128) -> (text: &'static str)
    requires
        digit < 10,
    ensures
        text@ == seq![decimal_digits()[digit as int]],
{
    proof {
        reveal_strlit("0");
        reveal_strlit("1");
        reveal_strlit("2");
        reveal_strlit("3");
        reveal_strlit("4");
        reveal_strlit("5");
        reveal_strlit("6");
        reveal_strlit("7");
        reveal_strlit("8");
        reveal_strlit("9");
    }
    let text = if digit == 0 {
        "0"
    } else if digit == 1 {
        "1"
    } else if digit == 2 {
        "2"
    } else if digit == 3 {
        "3"
    } else if digit == 4 {
        "4"
    } else if digit == 5 {
        "5"
    } else if digit == 6 {
        "6"
    } else if digit == 7 {
        "7"
    } else if digit == 8 {
        "8"
    } else {
        "9"
    };
    assert(text@ =~= seq![decimal_digits()[digit as int]]);
    text
}

/// Writes a natural number behind what `text` holds.
fn push_numeral(text: &mut String, n: u128)
    ensures
        final(text)@ == old(text)@ + numeral(n as nat),
    decreases n,
{
    if n >= 10 {
        push_numeral(text, n / 10);
    }
    text.append(digit_text(n % 10));
    proof {
        if n >= 10 {
            assert(old(text)@ + numeral((n / 10) as nat) + seq![
                decimal_digits()[(n % 10) as int],
            ] =~= old(text)@ + numeral(n as nat));
        } else {
            assert(numeral(n as nat) =~= seq![decimal_digits()[(n % 10) as int]]);
        }
    }
}

/// Writes the last `width` digits of a natural number behind what `text`
/// holds.
fn push_padded(text: &mut String, n: u128, width: usize)
    ensures
        final(text)@ == old(text)@ + padded(n as nat, width as nat),
    decreases width,
{
    if width > 0 {
        push_padded(text, n / 10, width - 1);
        text.append(digit_text(n % 10));
        proof {
            assert(old(text)@ + padded((n / 10) as nat, (width - 1) as nat) + seq![
                decimal_digits()[(n % 10) as int],
            ] =~= old(text)@ + padded(n as nat, width as nat));
        }
    } else {
        assert(old(text)@ + padded(n as nat, 0) =~= old(text)@);
    }
}

/// A whole number in decimal notation.
pub fn decimal(n: i32) -> (text: String)
    ensures
        text@ == decimal_text(n as int),
{
    let mut text = String::new();
    if n < 0 {
        proof {
            reveal_strlit("-");
        }
        text.append("-");
        assert(text@ =~= seq!['-']);
        let magnitude: u128 = (-(n as i64)) as u128;
        push_numeral(&mut text, magnitude);
    } else {
        push_numeral(&mut text, n as u128);
        assert(text@ =~= numeral(n as nat));
    }
    text
}

/// An amount of raw units written in Nano, exactly: see [`nano_text`].
pub fn raw_to_nano(raw: u128) -> (text: String)
    ensures
        text@ == nano_text(raw as nat),
{
    proof {
        lemma_pow10_30();
    }
    let mut text = String::new();
    push_numeral(&mut text, raw / RAW_PER_NANO);
    assert(text@ =~= numeral((raw / RAW_PER_NANO) as nat));
    let rest = raw % RAW_PER_NANO;
    if rest != 0 {
        proof {
            reveal_strlit(".");
        }
        text.append(".");
        let mut left: u128 = rest;
        let mut width: usize = RAW_DECIMALS;
        while left % 10 == 0
            invariant
                left > 0,
                width <= 30,
                left < pow10(width as nat),
                trimmed(padded(left as nat, width as nat)) == trimmed(padded(rest as nat, 30)),
            decreases left,
        {
            proof {
                if width == 0 {
                    assert(pow10(0) == 1);
                }
                let rest_width = (width - 1) as nat;
                assert(pow10(width as nat) == 10 * pow10(rest_width));
                let s = padded(left as nat, width as nat);
                lemma_decimal_digit(0);
                assert(s.last() == '0');
                assert(s.drop_last() =~= padded((left / 10) as nat, rest_width));
            }
            left = left / 10;
            width = width - 1;
        }
        proof {
            if width == 0 {
                assert(pow10(0) == 1);
            }
            let s = padded(left as nat, width as nat);
            lemma_decimal_digit((left % 10) as nat);
            assert(s.last() == decimal_digits()[(left % 10) as int]);
            assert(trimmed(s) == s);
        }
        push_padded(&mut text, left, width);
        assert(text@ =~= nano_text(raw as nat));
    }
    text
}

} // verus!
