use vstd::prelude::*;
use vstd::string::*;
use crate::math::decimal::{decimal, digit, digits, fraction, magnitude, padded};
use crate::math::fixed::UNIT;

verus! {

/// The value of a character that writes a digit; `None` for any other.
pub open spec fn digit_value(c: char) -> Option<nat> {
    if c == '0' {
        Some(0)
    } else if c == '1' {
        Some(1)
    } else if c == '2' {
        Some(2)
    } else if c == '3' {
        Some(3)
    } else if c == '4' {
        Some(4)
    } else if c == '5' {
        Some(5)
    } else if c == '6' {
        Some(6)
    } else if c == '7' {
        Some(7)
    } else if c == '8' {
        Some(8)
    } else if c == '9' {
        Some(9)
    } else {
        None
    }
}

/// Every character of `s` writes a digit.
pub open spec fn all_digits(s: Seq<char>) -> bool {
    forall|i: int| 0 <= i < s.len() ==> digit_value(#[trigger] s[i]) is Some
}

/// The number that a run of digits writes in base ten; an empty run writes zero.
pub open spec fn number(s: Seq<char>) -> nat
    decreases s.len(),
{
    if s.len() == 0 {
        0
    } else {
        number(s.drop_last()) * 10 + match digit_value(s.last()) {
            Some(d) => d,
            None => 0,
        }
    }
}

/// Where the first decimal point of `s` stands; the length of `s` if it has none.
pub open spec fn point_at(s: Seq<char>) -> int
    decreases s.len(),
{
    if s.len() == 0 || s[0] == '.' {
        0
    } else {
        1 + point_at(s.skip(1))
    }
}

/// How many millionths the last of `k` digits behind the point counts.
pub open spec fn place(k: nat) -> nat {
    if k == 0 {
        1_000_000
    } else if k == 1 {
        100_000
    } else if k == 2 {
        10_000
    } else if k == 3 {
        1_000
    } else if k == 4 {
        100
    } else if k == 5 {
        10
    } else {
        1
    }
}

/// Whether `s` starts with a sign.
pub open spec fn signed(s: Seq<char>) -> bool {
    s.len() > 0 && (s[0] == '-' || s[0] == '+')
}

/// The digits of `s` before its decimal point, the sign left aside.
pub open spec fn whole_part(s: Seq<char>) -> Seq<char> {
    let body = if signed(s) {
        s.skip(1)
    } else {
        s
    };
    body.take(point_at(body))
}

/// The digits of `s` behind its decimal point; empty if it has none.
pub open spec fn fraction_part(s: Seq<char>) -> Seq<char> {
    let body = if signed(s) {
        s.skip(1)
    } else {
        s
    };
    if point_at(body) < body.len() {
        body.skip(point_at(body) + 1)
    } else {
        Seq::empty()
    }
}

/// The fixed-point number that `s` writes, before it is asked whether an
/// `i64` can hold it.
pub open spec fn written(s: Seq<char>) -> int {
    let size = number(whole_part(s)) * UNIT + number(fraction_part(s)) * place(
        fraction_part(s).len(),
    );
    if s.len() > 0 && s[0] == '-' {
        -size
    } else {
        size
    }
}

/// The fixed-point number that a piece of text writes: an optional sign, at
/// least one digit, and optionally a point and up to six more digits. Text
/// of any other form, and text that writes a number too large for an `i64`,
/// writes none.
pub open spec fn parsed(s: Seq<char>) -> Option<i64> {
    if whole_part(s).len() >= 1 && all_digits(whole_part(s)) && all_digits(fraction_part(s))
        && fraction_part(s).len() <= 6 && i64::MIN <= written(s) <= i64::MAX {
        Some(written(s) as i64)
    } else {
        None
    }
}

/// Where no point stands before place `m`, and one stands there or the
/// text ends there, `m` is where the first point stands.
pub proof fn lemma_point_found(s: Seq<char>, m: int)
    requires
        0 <= m <= s.len(),
        forall|j: int| 0 <= j < m ==> s[j] != '.',
        m == s.len() || s[m] == '.',
    ensures
        point_at(s) == m,
    decreases m,
{
    if m > 0 {
        let rest = s.skip(1);
        assert forall|j: int| 0 <= j < m - 1 implies rest[j] != '.' by {
            assert(rest[j] == s[j + 1]);
        }
        lemma_point_found(rest, m - 1);
    }
}

/// Where no point stands up to and including place `m`, the first point
/// stands behind it.
pub proof fn lemma_point_beyond(s: Seq<char>, m: int)
    requires
        0 <= m < s.len(),
        forall|j: int| 0 <= j <= m ==> s[j] != '.',
    ensures
        m < point_at(s) <= s.len(),
    decreases m,
{
    let rest = s.skip(1);
    if m > 0 {
        assert forall|j: int| 0 <= j <= m - 1 implies rest[j] != '.' by {
            assert(rest[j] == s[j + 1]);
        }
        lemma_point_beyond(rest, m - 1);
    } else {
        lemma_point_in_range(rest);
    }
}

/// The first point stands within the text or at its end.
pub proof fn lemma_point_in_range(s: Seq<char>)
    ensures
        0 <= point_at(s) <= s.len(),
    decreases s.len(),
{
    if s.len() > 0 && s[0] != '.' {
        lemma_point_in_range(s.skip(1));
    }
}

/// One more digit at the end multiplies the number written so far by ten
/// and adds the digit.
pub proof fn lemma_number_step(s: Seq<char>, j: int)
    requires
        0 <= j < s.len(),
    ensures
        number(s.take(j + 1)) == number(s.take(j)) * 10 + match digit_value(s[j]) {
            Some(d) => d,
            None => 0,
        },
{
    assert(s.take(j + 1).drop_last() =~= s.take(j));
}

/// The beginning of a run of digits writes no more than the whole run.
pub proof fn lemma_number_of_prefix(s: Seq<char>, j: int)
    requires
        0 <= j <= s.len(),
    ensures
        number(s.take(j)) <= number(s),
    decreases s.len() - j,
{
    if j == s.len() {
        assert(s.take(j) =~= s);
    } else {
        lemma_number_step(s, j);
        lemma_number_of_prefix(s, j + 1);
    }
}

fn digit_of(c: char) -> (d: Option<u64>)
    ensures
        match d {
            Some(v) => digit_value(c) == Some(v as nat),
            None => digit_value(c) is None,
        },
{
    if c == '0' {
        Some(0)
    } else if c == '1' {
        Some(1)
    } else if c == '2' {
        Some(2)
    } else if c == '3' {
        Some(3)
    } else if c == '4' {
        Some(4)
    } else if c == '5' {
        Some(5)
    } else if c == '6' {
        Some(6)
    } else if c == '7' {
        Some(7)
    } else if c == '8' {
        Some(8)
    } else if c == '9' {
        Some(9)
    } else {
        None
    }
}

fn place_of(k: usize) -> (p: u64)
    requires
        k <= 6,
    ensures
        p == place(k as nat),
{
    if k == 0 {
        1_000_000
    } else if k == 1 {
        100_000
    } else if k == 2 {
        10_000
    } else if k == 3 {
        1_000
    } else if k == 4 {
        100
    } else if k == 5 {
        10
    } else {
        1
    }
}

/// The smallest number that takes more than `k` digits to write, for up to
/// six digits.
pub open spec fn ten_to(k: nat) -> nat {
    if k == 0 {
        1
    } else if k == 1 {
        10
    } else if k == 2 {
        100
    } else if k == 3 {
        1_000
    } else if k == 4 {
        10_000
    } else if k == 5 {
        100_000
    } else {
        1_000_000
    }
}

/// Reads the fixed-point number that a piece of text writes.
pub fn parse_decimal(text: &str) -> (r: Option<i64>)
    ensures
        r == parsed(text@),
{
    let n = text.unicode_len();
    let mut negative = false;
    let mut start: usize = 0;
    if n > 0 {
        let first = text.get_char(0);
        if first == '-' {
            negative = true;
            start = 1;
        } else if first == '+' {
            start = 1;
        }
    }
    let ghost body = text@.skip(start as int);
    proof {
        assert(text@.skip(0) =~= text@);
        lemma_point_in_range(body);
    }
    let mut i: usize = start;
    let mut whole: u64 = 0;
    let mut at_point = false;
    assert(body.take(0) =~= Seq::<char>::empty());
    while i < n && !at_point
        invariant
            n == text@.len(),
            start <= n,
            body == text@.skip(start as int),
            whole_part(text@) == body.take(point_at(body)),
            0 <= point_at(body) <= body.len(),
            start <= i <= n,
            at_point ==> i < n && text@[i as int] == '.',
            all_digits(body.take(i - start)),
            whole == number(body.take(i - start)),
            whole <= 9_223_372_036_854,
        decreases n - i + if at_point { 0int } else { 1int },
    {
        let c = text.get_char(i);
        if c == '.' {
            at_point = true;
        } else {
            let ghost j = i - start;
            proof {
                assert(body[j] == c);
                assert forall|k: int| 0 <= k <= j implies body[k] != '.' by {
                    if k < j {
                        assert(body.take(j)[k] == body[k]);
                        assert(digit_value(body.take(j)[k]) is Some);
                    }
                }
                lemma_point_beyond(body, j);
                lemma_number_step(body, j);
                assert(whole_part(text@)[j] == c);
            }
            match digit_of(c) {
                None => {
                    return None;
                },
                Some(d) => {
                    let next: u64 = whole * 10 + d;
                    if next > 9_223_372_036_854 {
                        proof {
                            let w = whole_part(text@);
                            assert(w.take(j + 1) =~= body.take(j + 1));
                            lemma_number_of_prefix(w, j + 1);
                            assert(number(w) * UNIT >= 9_223_372_036_855 * UNIT) by (nonlinear_arith)
                                requires
                                    number(w) >= 9_223_372_036_855,
                            ;
                            assert(number(fraction_part(text@)) * place(fraction_part(text@).len())
                                >= 0) by (nonlinear_arith);
                        }
                        return None;
                    }
                    whole = next;
                    proof {
                        assert forall|k: int| 0 <= k < j + 1 implies digit_value(
                            #[trigger] body.take(j + 1)[k],
                        ) is Some by {
                            if k < j {
                                assert(body.take(j)[k] == body[k]);
                            }
                        }
                    }
                },
            }
            i += 1;
        }
    }
    let ghost split = i - start;
    proof {
        assert forall|k: int| 0 <= k < split implies body[k] != '.' by {
            assert(body.take(split)[k] == body[k]);
            assert(digit_value(body.take(split)[k]) is Some);
        }
        assert(i < n ==> body[split] == '.');
        lemma_point_found(body, split);
    }
    if i == start {
        assert(whole_part(text@).len() == 0);
        return None;
    }
    let mut fraction: u64 = 0;
    let mut k: usize = 0;
    let ghost behind = fraction_part(text@);
    if i < n {
        i += 1;
        assert(behind == body.skip(split + 1));
        assert(body.len() == n - start);
        assert(behind.len() == n - (start + split + 1));
        assert(behind.take(0) =~= Seq::<char>::empty());
        while i < n
            invariant
                n == text@.len(),
                start + split + 1 <= n,
                body == text@.skip(start as int),
                behind == body.skip(split + 1),
                behind == fraction_part(text@),
                behind.len() == n - (start + split + 1),
                body.len() == n - start,
                split >= 0,
                i == start + split + 1 + k,
                i <= n,
                k <= 6,
                all_digits(behind.take(k as int)),
                fraction == number(behind.take(k as int)),
                fraction < ten_to(k as nat),
            decreases n - i,
        {
            if k == 6 {
                assert(behind.len() > 6);
                return None;
            }
            let c = text.get_char(i);
            proof {
                assert(behind[k as int] == body[split + 1 + k]);
                assert(body[split + 1 + k] == text@[start + split + 1 + k]);
                assert(behind[k as int] == c);
                lemma_number_step(behind, k as int);
            }
            match digit_of(c) {
                None => {
                    return None;
                },
                Some(d) => {
                    proof {
                        assert forall|m: int| 0 <= m < k + 1 implies digit_value(
                            #[trigger] behind.take(k + 1)[m],
                        ) is Some by {
                            if m < k {
                                assert(behind.take(k as int)[m] == behind[m]);
                            }
                        }
                    }
                    fraction = fraction * 10 + d;
                },
            }
            i += 1;
            k += 1;
        }
        assert(behind.take(k as int) =~= behind);
    } else {
        assert(behind =~= Seq::<char>::empty());
    }
    let unit: u64 = place_of(k);
    assert(fraction * unit < 1_000_000 * 1_000_000) by (nonlinear_arith)
        requires
            0 <= fraction < 1_000_000,
            0 <= unit <= 1_000_000,
    ;
    assert(whole * 1_000_000 <= 9_223_372_036_854 * 1_000_000) by (nonlinear_arith)
        requires
            0 <= whole <= 9_223_372_036_854,
    ;
    let size: u128 = (whole as u128) * 1_000_000 + (fraction as u128) * (unit as u128);
    if negative {
        if size > 9_223_372_036_854_775_808 {
            None
        } else {
            Some((-(size as i128)) as i64)
        }
    } else {
        if size > 9_223_372_036_854_775_807 {
            None
        } else {
            Some(size as i64)
        }
    }
}

/// The character that writes a digit has that digit for its value.
pub proof fn lemma_digit_value(d: int)
    requires
        0 <= d <= 9,
    ensures
        digit_value(digit(d)) == Some(d as nat),
{
}

/// A natural number written in base ten is a run of at least one digit that
/// writes the number.
pub proof fn lemma_digits_written(n: nat)
    ensures
        all_digits(digits(n)),
        digits(n).len() >= 1,
        number(digits(n)) == n,
    decreases n,
{
    let s = digits(n);
    if n < 10 {
        lemma_digit_value(n as int);
        assert(s.drop_last() =~= Seq::<char>::empty());
        assert(number(s.drop_last()) == 0);
    } else {
        lemma_digits_written(n / 10);
        lemma_digit_value((n % 10) as int);
        assert(s.drop_last() =~= digits(n / 10));
        assert forall|i: int| 0 <= i < s.len() implies digit_value(#[trigger] s[i]) is Some by {
            if i < s.len() - 1 {
                assert(s[i] == digits(n / 10)[i]);
            }
        }
    }
}

/// A number written in a fixed width that is wide enough for it is a run of
/// that many digits that writes the number.
pub proof fn lemma_padded_written(n: nat, width: nat)
    requires
        width <= 6,
        n < ten_to(width),
    ensures
        all_digits(padded(n, width)),
        padded(n, width).len() == width,
        number(padded(n, width)) == n,
    decreases width,
{
    let s = padded(n, width);
    if width > 0 {
        lemma_padded_written(n / 10, (width - 1) as nat);
        lemma_digit_value((n % 10) as int);
        assert(s.drop_last() =~= padded(n / 10, (width - 1) as nat));
        assert forall|i: int| 0 <= i < s.len() implies digit_value(#[trigger] s[i]) is Some by {
            if i < s.len() - 1 {
                assert(s[i] == padded(n / 10, (width - 1) as nat)[i]);
            }
        }
    }
}

/// The digits behind the point of a fraction are at least one and at most
/// `width` digits, and write the fraction once the zeros left out at the
/// end are counted in again.
pub proof fn lemma_fraction_written(f: nat, width: nat)
    requires
        width <= 6,
        0 < f < ten_to(width),
    ensures
        all_digits(fraction(f, width)),
        1 <= fraction(f, width).len() <= width,
        number(fraction(f, width)) * ten_to((width - fraction(f, width).len()) as nat) == f,
    decreases width,
{
    if f % 10 == 0 {
        lemma_fraction_written(f / 10, (width - 1) as nat);
        let s = fraction(f / 10, (width - 1) as nat);
        let rest = (width - 1 - s.len()) as nat;
        assert(ten_to(rest + 1) == 10 * ten_to(rest));
        assert(number(s) * (10 * ten_to(rest)) == 10 * (number(s) * ten_to(rest)))
            by (nonlinear_arith);
    } else {
        lemma_padded_written(f, width);
        assert(number(padded(f, width)) * 1 == f);
    }
}

/// What is written can be read again: the text of every fixed-point number
/// writes that number.
pub proof fn lemma_parse_of_decimal(v: i64)
    ensures
        parsed(decimal(v as int)) == Some(v),
{
    let m = magnitude(v as int);
    let text = decimal(v as int);
    let whole = digits(m / (UNIT as nat));
    let part = m % (UNIT as nat);
    let behind = if part == 0 {
        Seq::<char>::empty()
    } else {
        fraction(part, 6)
    };
    let body = if part == 0 {
        whole
    } else {
        whole + seq!['.'] + behind
    };
    lemma_digits_written(m / (UNIT as nat));
    if part != 0 {
        lemma_fraction_written(part, 6);
    }
    assert(digit_value('-') is None && digit_value('+') is None && digit_value('.') is None);
    assert(digit_value(whole[0]) is Some);
    if v < 0 {
        assert(text =~= seq!['-'] + body);
        assert(text[0] == '-');
        assert(text.skip(1) =~= body);
    } else {
        assert(text =~= body);
        assert(text[0] == whole[0]);
        assert(!signed(text));
    }
    assert forall|j: int| 0 <= j < whole.len() implies body[j] != '.' by {
        assert(body[j] == whole[j]);
        assert(digit_value(whole[j]) is Some);
    }
    lemma_point_found(body, whole.len() as int);
    assert(whole_part(text) =~= whole);
    assert(fraction_part(text) =~= behind);
    assert(place(behind.len()) == ten_to((6 - behind.len()) as nat));
    assert(number(behind) * place(behind.len()) == part) by {
        if part == 0 {
            assert(number(behind) == 0);
            assert(0 * place(behind.len()) == 0) by (nonlinear_arith);
        }
    }
    assert((m / (UNIT as nat)) * UNIT + part == m) by {
        vstd::arithmetic::div_mod::lemma_fundamental_div_mod(m as int, UNIT as int);
        assert((m / (UNIT as nat)) * UNIT == UNIT * (m / (UNIT as nat))) by (nonlinear_arith);
    }
    assert(written(text) == v);
}

} // verus!
