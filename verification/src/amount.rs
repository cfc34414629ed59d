//! Exact conversion of a decimal amount of Nano into raw units.
//!
//! One Nano is 10^30 raw. An amount is written as an unsigned decimal numeral
//! (`"1.5"`, `".25"`, `"3."`), optionally with a sign in front. The conversion
//! never rounds: an amount that is no whole number of raw units is refused.

use vstd::prelude::*;

verus! {

/// Number of decimal places between one Nano and one raw unit.
pub const RAW_DECIMALS: usize = 30;

/// Raw units in one Nano: 10^30.
pub const RAW_PER_NANO: u128 = 1_000_000_000_000_000_000_000_000_000_000;

/// The codes of the characters that a numeral is made of.
const DIGIT_ZERO: u8 = 48;

const DIGIT_NINE: u8 = 57;

const PLUS_SIGN: u8 = 43;

const MINUS_SIGN: u8 = 45;

const DECIMAL_POINT: u8 = 46;

/// Why an amount has no raw value.
#[derive(Clone, Copy, Debug, PartialEq, Eq, Structural)]
pub enum AmountError {
    /// The text is no decimal numeral.
    NotANumber,
    /// The amount is below zero.
    Negative,
    /// The amount is no whole number of raw units.
    TooPrecise,
    /// The amount in raw units does not fit in 128 bits.
    TooLarge,
}

/// Ten to the power `e`.
pub open spec fn pow10(e: nat) -> nat
    decreases e,
{
    if e == 0 {
        1
    } else {
        10 * pow10((e - 1) as nat)
    }
}

/// `c` is one of `'0'` to `'9'`.
pub open spec fn is_digit(c: char) -> bool {
    '0' <= c <= '9'
}

/// The number that a digit stands for.
pub open spec fn digit_value(c: char) -> nat {
    (c as int - '0' as int) as nat
}

/// Every character of `s` is a digit.
pub open spec fn all_digits(s: Seq<char>) -> bool {
    forall|i: int| 0 <= i < s.len() ==> is_digit(#[trigger] s[i])
}

/// The number that a sequence of digits stands for, most significant digit first.
pub open spec fn digits_value(s: Seq<char>) -> nat
    decreases s.len(),
{
    if s.len() == 0 {
        0
    } else {
        10 * digits_value(s.drop_last()) + digit_value(s.last())
    }
}

/// The text has a minus sign in front.
pub open spec fn has_minus(s: Seq<char>) -> bool {
    s.len() > 0 && s[0] == '-'
}

/// The text without the one sign that may stand in front.
pub open spec fn strip_sign(s: Seq<char>) -> Seq<char> {
    if s.len() > 0 && (s[0] == '+' || s[0] == '-') {
        s.subrange(1, s.len() as int)
    } else {
        s
    }
}

/// Index of the first `'.'` in `s`, or the length of `s` where there is none.
pub open spec fn dot_position(s: Seq<char>) -> int
    decreases s.len(),
{
    if s.len() == 0 || s[0] == '.' {
        0
    } else {
        1 + dot_position(s.drop_first())
    }
}

/// What stands before the first `'.'` of an unsigned numeral.
pub open spec fn int_part(body: Seq<char>) -> Seq<char> {
    body.subrange(0, dot_position(body))
}

/// What stands behind the first `'.'` of an unsigned numeral.
pub open spec fn frac_part(body: Seq<char>) -> Seq<char> {
    if dot_position(body) < body.len() {
        body.subrange(dot_position(body) + 1, body.len() as int)
    } else {
        Seq::empty()
    }
}

/// The text is a decimal numeral: an optional sign, then digits with at most
/// one `'.'` among them, and at least one digit.
pub open spec fn is_decimal(s: Seq<char>) -> bool {
    let body = strip_sign(s);
    &&& all_digits(int_part(body))
    &&& all_digits(frac_part(body))
    &&& int_part(body).len() + frac_part(body).len() > 0
}

/// All digits of a numeral read as one whole number: the amount is
/// `unscaled(s) / 10^scale(s)`, with the sign of `s`.
pub open spec fn unscaled(s: Seq<char>) -> nat {
    digits_value(int_part(strip_sign(s)) + frac_part(strip_sign(s)))
}

/// Number of digits behind the `'.'`.
pub open spec fn scale(s: Seq<char>) -> nat {
    frac_part(strip_sign(s)).len()
}

/// The amount `s` in raw units: `unscaled(s) * 10^30 / 10^scale(s)` where that
/// division leaves no remainder and the quotient fits in 128 bits. Zero is
/// accepted under either sign.
pub open spec fn raw_amount(s: Seq<char>) -> Result<nat, AmountError> {
    if !is_decimal(s) {
        Err(AmountError::NotANumber)
    } else if unscaled(s) == 0 {
        Ok(0)
    } else if has_minus(s) {
        Err(AmountError::Negative)
    } else if (unscaled(s) * pow10(30)) % pow10(scale(s)) != 0 {
        Err(AmountError::TooPrecise)
    } else if (unscaled(s) * pow10(30)) / pow10(scale(s)) > u128::MAX {
        Err(AmountError::TooLarge)
    } else {
        Ok((unscaled(s) * pow10(30)) / pow10(scale(s)))
    }
}

/// A converted amount is the amount that `expected` names.
pub open spec fn agrees(result: Result<u128, AmountError>, expected: Result<nat, AmountError>) -> bool {
    match result {
        Ok(raw) => expected == Ok::<nat, AmountError>(raw as nat),
        Err(e) => expected == Err::<nat, AmountError>(e),
    }
}

/// Every power of ten is above zero.
pub proof fn lemma_pow10_positive(e: nat)
    ensures
        pow10(e) > 0,
    decreases e,
{
    if e > 0 {
        lemma_pow10_positive((e - 1) as nat);
    }
}

/// Powers of ten multiply by adding their exponents.
pub proof fn lemma_pow10_adds(a: nat, b: nat)
    ensures
        pow10(a + b) == pow10(a) * pow10(b),
    decreases a,
{
    if a == 0 {
        assert(pow10(a) * pow10(b) == pow10(b)) by (nonlinear_arith)
            requires
                pow10(a) == 1,
        ;
    } else {
        lemma_pow10_adds((a - 1) as nat, b);
        assert(pow10(a + b) == 10 * pow10((a + b - 1) as nat));
        assert((a - 1) as nat + b == (a + b - 1) as nat);
        assert(10 * (pow10((a - 1) as nat) * pow10(b)) == (10 * pow10((a - 1) as nat)) * pow10(b))
            by (nonlinear_arith);
    }
}

/// The constant `RAW_PER_NANO` is ten to the thirtieth.
pub proof fn lemma_pow10_30()
    ensures
        pow10(30) == RAW_PER_NANO,
{
    reveal_with_fuel(pow10, 31);
}

/// A run of `n` digits stands for a number below 10^n.
pub proof fn lemma_digits_value_bound(s: Seq<char>)
    requires
        all_digits(s),
    ensures
        digits_value(s) < pow10(s.len()),
    decreases s.len(),
{
    if s.len() > 0 {
        assert(all_digits(s.drop_last())) by {
            assert forall|i: int| 0 <= i < s.drop_last().len() implies is_digit(
                #[trigger] s.drop_last()[i],
            ) by {
                assert(s.drop_last()[i] == s[i]);
            }
        }
        lemma_digits_value_bound(s.drop_last());
        assert(is_digit(s.last()));
        assert(digit_value(s.last()) <= 9);
    }
}

/// Digits written one run after another: the first run moves up by the length
/// of the second.
pub proof fn lemma_digits_value_concat(a: Seq<char>, b: Seq<char>)
    ensures
        digits_value(a + b) == digits_value(a) * pow10(b.len()) + digits_value(b),
    decreases b.len(),
{
    if b.len() == 0 {
        assert(a + b =~= a);
        assert(digits_value(a) * pow10(0) == digits_value(a)) by (nonlinear_arith)
            requires
                pow10(0) == 1,
        ;
    } else {
        assert((a + b).drop_last() =~= a + b.drop_last());
        assert((a + b).last() == b.last());
        lemma_digits_value_concat(a, b.drop_last());
        let x = digits_value(a);
        let p = pow10(b.drop_last().len());
        let y = digits_value(b.drop_last());
        assert(pow10(b.len()) == 10 * p);
        assert(10 * (x * p + y) == x * (10 * p) + 10 * y) by (nonlinear_arith);
    }
}

/// The first `'.'` lies within the text, and nothing before it is a `'.'`.
proof fn lemma_dot_position(s: Seq<char>)
    ensures
        0 <= dot_position(s) <= s.len(),
        forall|j: int| 0 <= j < dot_position(s) ==> s[j] != '.',
        dot_position(s) < s.len() ==> s[dot_position(s)] == '.',
    decreases s.len(),
{
    if s.len() == 0 || s[0] == '.' {
    } else {
        let t = s.drop_first();
        lemma_dot_position(t);
        assert forall|j: int| 0 <= j < dot_position(s) implies s[j] != '.' by {
            if j > 0 {
                assert(t[j - 1] == s[j]);
            }
        }
        if dot_position(s) < s.len() {
            assert(t[dot_position(t)] == s[dot_position(t) + 1]);
        }
    }
}

/// A place that holds the first `'.'`, or the end of a text without one, is
/// `dot_position`.
pub proof fn lemma_dot_position_is(s: Seq<char>, p: int)
    requires
        0 <= p <= s.len(),
        forall|j: int| 0 <= j < p ==> s[j] != '.',
        p < s.len() ==> s[p] == '.',
    ensures
        dot_position(s) == p,
{
    lemma_dot_position(s);
    let d = dot_position(s);
    if d < p {
        assert(s[d] == '.');
    } else if p < d {
        assert(s[p] == '.');
    }
}

/// Every character of an unsigned numeral whose two parts are digits is a digit,
/// but for the `'.'` between the parts.
proof fn lemma_body_chars(body: Seq<char>, j: int)
    requires
        all_digits(int_part(body)),
        all_digits(frac_part(body)),
        0 <= j < body.len(),
    ensures
        is_digit(body[j]) || (body[j] == '.' && j == dot_position(body)),
{
    lemma_dot_position(body);
    let d = dot_position(body);
    if j < d {
        assert(int_part(body)[j] == body[j]);
    } else if j > d {
        assert(frac_part(body)[j - d - 1] == body[j]);
    }
}

/// How the digits of a numeral make up its raw value: with `head` the first
/// thirty digits at most behind the `'.'` and `tail` the digits after those,
/// the whole part and `head` give the quotient and `tail` gives the remainder.
pub proof fn lemma_raw_structure(whole: Seq<char>, head: Seq<char>, tail: Seq<char>)
    requires
        all_digits(whole),
        all_digits(head),
        all_digits(tail),
        head.len() <= 30,
        tail.len() > 0 ==> head.len() == 30,
    ensures
        ({
            let n = digits_value(whole + (head + tail));
            let d = pow10(head.len() + tail.len());
            let q = digits_value(whole) * pow10(30) + digits_value(head) * pow10(
                (30 - head.len()) as nat,
            );
            &&& d > 0
            &&& (n * pow10(30)) % d == digits_value(tail) * pow10(30)
            &&& (n * pow10(30)) / d == q
            &&& n == 0 <==> digits_value(whole) == 0 && digits_value(head) == 0 && digits_value(
                tail,
            ) == 0
        }),
{
    let h = head.len();
    let m = tail.len();
    let n = digits_value(whole + (head + tail));
    let i = digits_value(whole);
    let hv = digits_value(head);
    let t = digits_value(tail);
    let p30 = pow10(30);
    let pm = pow10(m);
    let ph = pow10(h);
    let pc = pow10((30 - h) as nat);
    let ps = pow10(h + m);
    let q = i * p30 + hv * pc;
    lemma_digits_value_concat(whole, head + tail);
    lemma_digits_value_concat(head, tail);
    lemma_pow10_adds(h, m);
    lemma_pow10_adds((30 - h) as nat, h);
    lemma_pow10_positive(m);
    lemma_pow10_positive(h);
    lemma_pow10_positive(30);
    lemma_pow10_positive(h + m);
    lemma_digits_value_bound(tail);
    assert(n == i * ps + (hv * pm + t));
    assert(n * p30 == q * ps + t * p30) by (nonlinear_arith)
        requires
            n == i * ps + (hv * pm + t),
            q == i * p30 + hv * pc,
            pc * ph == p30,
            ps == ph * pm,
    ;
    assert(t * p30 < ps) by {
        if m == 0 {
            assert(t == 0);
            assert(t * p30 == 0);
        } else {
            assert(ph == p30);
            assert(t * p30 < pm * p30) by (nonlinear_arith)
                requires
                    t < pm,
                    p30 > 0,
            ;
            assert(pm * p30 == ph * pm) by (nonlinear_arith)
                requires
                    ph == p30,
            ;
        }
    }
    assert(0 <= t * p30) by (nonlinear_arith)
        requires
            t >= 0,
            p30 >= 0,
    ;
    vstd::arithmetic::div_mod::lemma_fundamental_div_mod_converse(
        (n * p30) as int,
        ps as int,
        q as int,
        (t * p30) as int,
    );
    assert(n == 0 <==> i == 0 && hv == 0 && t == 0) by (nonlinear_arith)
        requires
            n == i * ps + (hv * pm + t),
            ps > 0,
            pm > 0,
            i >= 0,
            hv >= 0,
            t >= 0,
    ;
}

/// Reads the digits of `text` from index `from` on, `limit` of them at most, and
/// returns the index behind the last one read with the number they stand for,
/// or `None` for a number that does not fit in 128 bits.
fn scan_digits(text: &str, len: usize, from: usize, limit: usize) -> (r: (usize, Option<u128>))
    requires
        text.is_ascii(),
        len == text@.len(),
        from <= len,
    ensures
        from <= r.0 <= len,
        r.0 - from <= limit,
        all_digits(text@.subrange(from as int, r.0 as int)),
        r.0 < len && r.0 - from < limit ==> !is_digit(text@[r.0 as int]),
        match r.1 {
            Some(v) => v == digits_value(text@.subrange(from as int, r.0 as int)),
            None => digits_value(text@.subrange(from as int, r.0 as int)) > u128::MAX,
        },
{
    let ghost s = text@;
    let mut i: usize = from;
    let mut acc: Option<u128> = Some(0);
    let mut done = false;
    assert(s.subrange(from as int, from as int) =~= Seq::<char>::empty());
    while !done && i < len && i - from < limit
        invariant
            text.is_ascii(),
            s == text@,
            len == s.len(),
            from <= i <= len,
            i - from <= limit,
            all_digits(s.subrange(from as int, i as int)),
            done ==> i < len && !is_digit(s[i as int]),
            match acc {
                Some(v) => v == digits_value(s.subrange(from as int, i as int)),
                None => digits_value(s.subrange(from as int, i as int)) > u128::MAX,
            },
        decreases len - i + (if done { 0int } else { 1int }),
    {
        let b = text.get_ascii(i);
        assert('\0' <= s[i as int] <= '\u{7f}');
        if b >= DIGIT_ZERO && b <= DIGIT_NINE {
            let ghost prev = s.subrange(from as int, i as int);
            let ghost next = s.subrange(from as int, i as int + 1);
            proof {
                assert(next.drop_last() =~= prev);
                assert(next.last() == s[i as int]);
                assert(digit_value(s[i as int]) == b - DIGIT_ZERO);
                assert(digits_value(next) == 10 * digits_value(prev) + (b - DIGIT_ZERO));
                assert forall|k: int| 0 <= k < next.len() implies is_digit(#[trigger] next[k]) by {
                    if k < prev.len() {
                        assert(next[k] == prev[k]);
                    }
                }
            }
            let d: u128 = (b - DIGIT_ZERO) as u128;
            acc = match acc {
                Some(v) => match v.checked_mul(10) {
                    Some(v10) => v10.checked_add(d),
                    None => None,
                },
                None => None,
            };
            i = i + 1;
        } else {
            done = true;
        }
    }
    (i, acc)
}

/// Moves a number of `digits` fractional digits up to thirty places.
fn pad_to_raw(value: u128, digits: usize) -> (r: u128)
    requires
        digits <= 30,
        value < pow10(digits as nat),
    ensures
        r == value * pow10((30 - digits) as nat),
        r < pow10(30),
{
    let mut acc: u128 = value;
    let mut k: usize = digits;
    proof {
        assert(value * pow10(0) == value) by (nonlinear_arith)
            requires
                pow10(0) == 1,
        ;
    }
    while k < 30
        invariant
            digits <= k <= 30,
            acc == value * pow10((k - digits) as nat),
            acc < pow10(k as nat),
        decreases 30 - k,
    {
        proof {
            lemma_pow10_adds((k + 1) as nat, (30 - (k + 1)) as nat);
            lemma_pow10_positive((30 - (k + 1)) as nat);
            lemma_pow10_30();
            let a = pow10((k + 1) as nat);
            let b = pow10((30 - (k + 1)) as nat);
            assert(a <= a * b) by (nonlinear_arith)
                requires
                    b >= 1,
                    a >= 0,
            ;
            assert(pow10((k + 1 - digits) as nat) == 10 * pow10((k - digits) as nat));
            assert(10 * (value * pow10((k - digits) as nat)) == value * (10 * pow10(
                (k - digits) as nat,
            ))) by (nonlinear_arith);
        }
        acc = acc * 10;
        k = k + 1;
    }
    acc
}

/// The first thirty digits at most of the digits behind the `'.'`: those that
/// count whole raw units.
pub open spec fn head_of(frac: Seq<char>) -> Seq<char> {
    frac.subrange(0, if frac.len() < 30 { frac.len() as int } else { 30 })
}

/// The digits behind the thirtieth: parts of one raw unit.
pub open spec fn tail_of(frac: Seq<char>) -> Seq<char> {
    frac.subrange(if frac.len() < 30 { frac.len() as int } else { 30 }, frac.len() as int)
}

/// A number read by `scan_digits`: its value, or `None` above 128 bits.
spec fn holds(read: Option<u128>, digits: Seq<char>) -> bool {
    match read {
        Some(v) => v == digits_value(digits),
        None => digits_value(digits) > u128::MAX,
    }
}

/// What `scan_numeral` reads off a decimal numeral.
struct Scanned {
    negative: bool,
    whole: Option<u128>,
    head: u128,
    head_len: usize,
    tail: Option<u128>,
}

/// Reads what stands behind the `'.'`: the value of the first thirty digits at
/// most, how many they are, and the value of the digits after those. `None`
/// where a character is no digit.
fn scan_fraction(text: &str, len: usize, from: usize) -> (r: Option<(u128, usize, Option<u128>)>)
    requires
        text.is_ascii(),
        len == text@.len(),
        from <= len,
    ensures
        r is Some <==> all_digits(text@.subrange(from as int, len as int)),
        r matches Some(read) ==> {
            let frac = text@.subrange(from as int, len as int);
            &&& read.1 == head_of(frac).len()
            &&& read.0 == digits_value(head_of(frac))
            &&& holds(read.2, tail_of(frac))
        },
{
    let ghost s = text@;
    let ghost frac = s.subrange(from as int, len as int);
    let (head_end, head_value) = scan_digits(text, len, from, RAW_DECIMALS);
    let (tail_end, tail_value) = scan_digits(text, len, head_end, len);
    let ghost head = s.subrange(from as int, head_end as int);
    let ghost tail = s.subrange(head_end as int, tail_end as int);
    if tail_end < len {
        proof {
            assert(frac[tail_end - from] == s[tail_end as int]);
        }
        return None;
    }
    proof {
        if head_end - from < 30 && head_end < len {
            assert(tail[0] == s[head_end as int]);
        }
        assert(head =~= head_of(frac));
        assert(tail =~= tail_of(frac));
        assert forall|j: int| 0 <= j < frac.len() implies is_digit(#[trigger] frac[j]) by {
            if j < head.len() {
                assert(head[j] == frac[j]);
            } else {
                assert(tail[j - head.len()] == frac[j]);
            }
        }
        lemma_digits_value_bound(head);
        lemma_pow10_le_30(head.len());
        lemma_pow10_30();
    }
    match head_value {
        Some(v) => Some((v, head_end - from, tail_value)),
        None => None,
    }
}

/// Powers of ten up to the thirtieth do not exceed it.
proof fn lemma_pow10_le_30(e: nat)
    requires
        e <= 30,
    ensures
        pow10(e) <= pow10(30),
{
    lemma_pow10_adds(e, (30 - e) as nat);
    lemma_pow10_positive((30 - e) as nat);
    assert(pow10(e) <= pow10(e) * pow10((30 - e) as nat)) by (nonlinear_arith)
        requires
            pow10((30 - e) as nat) >= 1,
            pow10(e) >= 0,
    ;
}

/// Takes a numeral apart: sign, whole part, and the two runs of digits behind
/// the `'.'`. `None` where the text is no decimal numeral.
fn scan_numeral(text: &str) -> (r: Option<Scanned>)
    ensures
        r is Some <==> is_decimal(text@),
        r matches Some(sc) ==> {
            let body = strip_sign(text@);
            &&& sc.negative == has_minus(text@)
            &&& holds(sc.whole, int_part(body))
            &&& sc.head == digits_value(head_of(frac_part(body)))
            &&& sc.head_len == head_of(frac_part(body)).len()
            &&& holds(sc.tail, tail_of(frac_part(body)))
        },
{
    let ghost s = text@;
    if !text.is_ascii() {
        proof {
            lemma_non_ascii_is_no_decimal(s);
        }
        return None;
    }
    let len = text.unicode_len();
    let mut start: usize = 0;
    let mut negative = false;
    if len > 0 {
        let first = text.get_ascii(0);
        assert('\0' <= s[0] <= '\u{7f}');
        if first == MINUS_SIGN {
            negative = true;
            start = 1;
        } else if first == PLUS_SIGN {
            start = 1;
        }
    }
    let ghost body = strip_sign(s);
    assert(body =~= s.subrange(start as int, len as int));
    let (whole_end, whole) = scan_digits(text, len, start, len);
    let ghost dot = whole_end - start;
    proof {
        assert forall|j: int| 0 <= j < dot implies body[j] != '.' by {
            assert(s.subrange(start as int, whole_end as int)[j] == body[j]);
        }
    }
    if whole_end == len {
        proof {
            lemma_dot_position_is(body, dot);
            assert(int_part(body) =~= s.subrange(start as int, whole_end as int));
            assert(head_of(frac_part(body)) =~= Seq::<char>::empty());
            assert(tail_of(frac_part(body)) =~= Seq::<char>::empty());
        }
        if whole_end == start {
            return None;
        }
        return Some(Scanned { negative, whole, head: 0, head_len: 0, tail: Some(0) });
    }
    let mark = text.get_ascii(whole_end);
    assert('\0' <= s[whole_end as int] <= '\u{7f}');
    assert(body[dot] == s[whole_end as int]);
    if mark != DECIMAL_POINT {
        proof {
            if is_decimal(s) {
                lemma_body_chars(body, dot);
            }
        }
        return None;
    }
    proof {
        lemma_dot_position_is(body, dot);
        assert(int_part(body) =~= s.subrange(start as int, whole_end as int));
        assert(frac_part(body) =~= s.subrange(whole_end as int + 1, len as int));
    }
    match scan_fraction(text, len, whole_end + 1) {
        None => None,
        Some((head, head_len, tail)) => {
            if whole_end == start && len == whole_end + 1 {
                None
            } else {
                Some(Scanned { negative, whole, head, head_len, tail })
            }
        },
    }
}

/// Converts a decimal amount of Nano into raw units, exactly.
///
/// `Ok(raw)` means that `raw / 10^30` is the amount written in `amount`, with
/// nothing rounded. Each error names the one reason for which no such `raw`
/// is returned.
pub fn nano_to_raw(amount: &str) -> (result: Result<u128, AmountError>)
    ensures
        agrees(result, raw_amount(amount@)),
{
    let sc = match scan_numeral(amount) {
        None => {
            return Err(AmountError::NotANumber);
        },
        Some(sc) => sc,
    };
    let ghost body = strip_sign(amount@);
    let ghost whole = int_part(body);
    let ghost head = head_of(frac_part(body));
    let ghost tail = tail_of(frac_part(body));
    proof {
        lemma_split_fraction(frac_part(body));
        lemma_raw_structure(whole, head, tail);
        lemma_pow10_30();
        lemma_digits_value_bound(head);
    }
    let tail_is_zero = match sc.tail {
        Some(v) => v == 0,
        None => false,
    };
    let whole_is_zero = match sc.whole {
        Some(v) => v == 0,
        None => false,
    };
    if whole_is_zero && sc.head == 0 && tail_is_zero {
        return Ok(0);
    }
    if sc.negative {
        return Err(AmountError::Negative);
    }
    if !tail_is_zero {
        proof {
            assert(digits_value(tail) * pow10(30) != 0) by (nonlinear_arith)
                requires
                    digits_value(tail) > 0,
                    pow10(30) > 0,
            ;
        }
        return Err(AmountError::TooPrecise);
    }
    assert(digits_value(tail) * pow10(30) == 0);
    let padded = pad_to_raw(sc.head, sc.head_len);
    match sc.whole {
        None => {
            proof {
                assert(digits_value(whole) * pow10(30) >= digits_value(whole)) by (nonlinear_arith)
                    requires
                        pow10(30) >= 1,
                        digits_value(whole) >= 0,
                ;
            }
            Err(AmountError::TooLarge)
        },
        Some(w) => match w.checked_mul(RAW_PER_NANO) {
            None => Err(AmountError::TooLarge),
            Some(scaled) => match scaled.checked_add(padded) {
                None => Err(AmountError::TooLarge),
                Some(raw) => Ok(raw),
            },
        },
    }
}

/// The two runs behind the `'.'` make up the fraction, and the second is
/// empty unless the first is full.
proof fn lemma_split_fraction(frac: Seq<char>)
    ensures
        head_of(frac) + tail_of(frac) == frac,
        head_of(frac).len() <= 30,
        tail_of(frac).len() > 0 ==> head_of(frac).len() == 30,
        all_digits(frac) ==> all_digits(head_of(frac)) && all_digits(tail_of(frac)),
{
    assert(head_of(frac) + tail_of(frac) =~= frac);
    if all_digits(frac) {
        assert forall|j: int| 0 <= j < head_of(frac).len() implies is_digit(
            #[trigger] head_of(frac)[j],
        ) by {
            assert(head_of(frac)[j] == frac[j]);
        }
        assert forall|j: int| 0 <= j < tail_of(frac).len() implies is_digit(
            #[trigger] tail_of(frac)[j],
        ) by {
            assert(tail_of(frac)[j] == frac[j + head_of(frac).len()]);
        }
    }
}

/// A text with a character outside ASCII is no decimal numeral.
proof fn lemma_non_ascii_is_no_decimal(s: Seq<char>)
    requires
        !vstd::utf8::is_ascii_chars(s),
    ensures
        !is_decimal(s),
{
    let i = choose|i: int| 0 <= i < s.len() && !('\0' <= #[trigger] s[i] <= '\u{7f}');
    let body = strip_sign(s);
    if is_decimal(s) {
        if body.len() == s.len() {
            assert(body[i] == s[i]);
            lemma_body_chars(body, i);
        } else {
            assert(i > 0);
            assert(body[i - 1] == s[i]);
            lemma_body_chars(body, i - 1);
        }
    }
}

/// The conversion is exact: a raw value, where there is one, stands to 10^30 as
/// the digits of the numeral stand to 10^scale. Nothing is rounded, so an
/// amount above zero never converts to zero.
pub proof fn lemma_raw_amount_exact(s: Seq<char>)
    ensures
        raw_amount(s) matches Ok(raw) ==> raw * pow10(scale(s)) == unscaled(s) * pow10(30),
        raw_amount(s) matches Ok(raw) ==> (raw == 0 <==> unscaled(s) == 0),
{
    if let Ok(raw) = raw_amount(s) {
        let n = unscaled(s);
        let d = pow10(scale(s));
        lemma_pow10_positive(scale(s));
        lemma_pow10_positive(30);
        if n == 0 {
            assert(raw * d == n * pow10(30)) by (nonlinear_arith)
                requires
                    raw == 0,
                    n == 0,
            ;
        } else {
            let x = n * pow10(30);
            vstd::arithmetic::div_mod::lemma_fundamental_div_mod(x as int, d as int);
            assert(x == d * raw);
            assert(raw * d == d * raw) by (nonlinear_arith);
            assert(x > 0) by (nonlinear_arith)
                requires
                    x == n * pow10(30),
                    n > 0,
                    pow10(30) > 0,
            ;
            if raw == 0 {
                assert(d * raw == 0) by (nonlinear_arith)
                    requires
                        raw == 0,
                ;
            }
        }
    }
}

/// An unsigned numeral with thirty digits at most behind the `'.'` is always a
/// whole number of raw units: it converts unless the result is too large.
pub proof fn lemma_thirty_places_suffice(s: Seq<char>)
    requires
        is_decimal(s),
        scale(s) <= 30,
    ensures
        raw_amount(s) != Err::<nat, AmountError>(AmountError::TooPrecise),
{
    let body = strip_sign(s);
    let frac = frac_part(body);
    lemma_split_fraction(frac);
    assert(tail_of(frac).len() == 0);
    lemma_raw_structure(int_part(body), head_of(frac), tail_of(frac));
    assert(digits_value(tail_of(frac)) * pow10(30) == 0) by (nonlinear_arith)
        requires
            digits_value(tail_of(frac)) == 0,
    ;
}

} // verus!
