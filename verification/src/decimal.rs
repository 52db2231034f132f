//! Non-negative decimal quantities in fixed point, read from and written to
//! text without any floating-point arithmetic.

use crate::text::{
    all_digits, chars_of, digit_value, digits_only, digits_value, is_digit, read_digits,
};
use vstd::prelude::*;

verus! {

/// A non-negative quantity counted in millionths of its unit: a packet loss
/// of 0.5 % is `Millionths(500_000)`, a latency of 19.002 ms is
/// `Millionths(19_002_000)`.
#[derive(Clone, Copy, Debug, PartialEq, Eq, Structural)]
pub struct Millionths(pub u64);

/// How many millionths make one unit.
pub const MILLIONTHS_PER_UNIT: u64 = 1_000_000;

/// The largest whole part whose millionths can still fit in 64 bits.
pub const MAX_WHOLE_UNITS: u64 = 18_446_744_073_709;

/// The index of the first `.` at or after `i`, or the length of `s` when none
/// follows.
pub open spec fn dot_index(s: Seq<char>, i: int) -> int
    decreases s.len() - i,
{
    if 0 <= i < s.len() && s[i] != '.' {
        dot_index(s, i + 1)
    } else {
        i
    }
}

/// The digit at place `i` behind the decimal point; places that are not
/// written hold zero.
pub open spec fn fraction_digit(frac: Seq<char>, i: int) -> nat {
    if 0 <= i < frac.len() {
        digit_value(frac[i])
    } else {
        0
    }
}

/// The millionths that the digits behind a decimal point stand for. Digits
/// beyond the sixth place are cut off.
pub open spec fn micros_of_fraction(frac: Seq<char>) -> nat {
    fraction_digit(frac, 0) * 100_000 + fraction_digit(frac, 1) * 10_000 + fraction_digit(frac, 2)
        * 1_000 + fraction_digit(frac, 3) * 100 + fraction_digit(frac, 4) * 10 + fraction_digit(
        frac,
        5,
    )
}

/// The part of a decimal numeral in front of its point.
pub open spec fn whole_part(s: Seq<char>) -> Seq<char> {
    s.subrange(0, dot_index(s, 0))
}

/// The part of a decimal numeral behind its point; empty without a point.
pub open spec fn fraction_part(s: Seq<char>) -> Seq<char> {
    let dot = dot_index(s, 0);
    if dot < s.len() {
        s.subrange(dot + 1, s.len() as int)
    } else {
        Seq::empty()
    }
}

/// `s` is an unsigned decimal numeral: ASCII digits with at most one `.`
/// among them and at least one digit in all. `5`, `5.`, `.5` and `0.50` are
/// numerals; the empty text, `.`, `1.2.3`, `-1` and `1e3` are not.
pub open spec fn is_decimal(s: Seq<char>) -> bool {
    &&& all_digits(whole_part(s))
    &&& all_digits(fraction_part(s))
    &&& whole_part(s).len() + fraction_part(s).len() > 0
}

/// The value of the numeral `s` in millionths, rounded down.
pub open spec fn decimal_micros(s: Seq<char>) -> nat {
    digits_value(whole_part(s)) * 1_000_000 + micros_of_fraction(fraction_part(s))
}

/// What reading `s` as a decimal quantity gives: its value in millionths
/// where `s` is a numeral and the value fits in 64 bits, nothing otherwise.
pub open spec fn parse_decimal_spec(s: Seq<char>) -> Option<Millionths> {
    if is_decimal(s) && decimal_micros(s) <= u64::MAX {
        Some(Millionths(decimal_micros(s) as u64))
    } else {
        None
    }
}

/// The character of a decimal digit.
pub open spec fn digit_char(d: nat) -> char {
    if d == 0 {
        '0'
    } else if d == 1 {
        '1'
    } else if d == 2 {
        '2'
    } else if d == 3 {
        '3'
    } else if d == 4 {
        '4'
    } else if d == 5 {
        '5'
    } else if d == 6 {
        '6'
    } else if d == 7 {
        '7'
    } else if d == 8 {
        '8'
    } else {
        '9'
    }
}

/// The decimal numeral of `n`, without leading zeros.
pub open spec fn decimal_text(n: nat) -> Seq<char>
    decreases n,
{
    if n < 10 {
        seq![digit_char(n)]
    } else {
        decimal_text(n / 10).push(digit_char(n % 10))
    }
}

/// A quantity in hundredths of its unit, rounded to the nearest hundredth;
/// a quantity halfway between two hundredths goes to the even one.
pub open spec fn hundredths(micros: nat) -> nat {
    let q = micros / 10_000;
    let r = micros % 10_000;
    if r > 5_000 || (r == 5_000 && q % 2 == 1) {
        q + 1
    } else {
        q
    }
}

/// A quantity written with two decimal places, such as `0.50` or `12.30`.
pub open spec fn fixed2_text(micros: nat) -> Seq<char> {
    let h = hundredths(micros);
    decimal_text(h / 100) + seq!['.', digit_char(h / 10 % 10), digit_char(h % 10)]
}

/// The index of the first `.` at or after `i`.
fn scan_dot(s: &Vec<char>, i: usize) -> (j: usize)
    requires
        i <= s.len(),
    ensures
        j == dot_index(s@, i as int),
        i <= j <= s.len(),
{
    let mut j: usize = i;
    while j < s.len() && s[j] != '.'
        invariant
            i <= j <= s.len(),
            dot_index(s@, i as int) == dot_index(s@, j as int),
        decreases s.len() - j,
    {
        j += 1;
    }
    j
}

/// The digit at place `place` behind the point, for the fraction that spans
/// `from..to` of `s`.
fn read_fraction_digit(s: &Vec<char>, from: usize, to: usize, place: usize) -> (d: u64)
    requires
        from <= to <= s.len(),
        place < 6,
        all_digits(s@.subrange(from as int, to as int)),
    ensures
        d == fraction_digit(s@.subrange(from as int, to as int), place as int),
        d <= 9,
{
    if place < to - from {
        let c = s[from + place];
        assert(s@.subrange(from as int, to as int)[place as int] == c);
        (c as u32 - 0x30) as u64
    } else {
        0
    }
}

/// Reads an unsigned decimal numeral as a quantity in millionths.
///
/// Digits beyond the sixth decimal place are cut off. Text that is no
/// numeral, or whose value does not fit, gives nothing.
pub fn parse_decimal(s: &str) -> (value: Option<Millionths>)
    ensures
        value == parse_decimal_spec(s@),
{
    let chars = chars_of(s);
    let n = chars.len();
    let dot = scan_dot(&chars, 0);
    let frac_from: usize = if dot < n {
        dot + 1
    } else {
        n
    };
    proof {
        assert(whole_part(s@) == chars@.subrange(0, dot as int));
        assert(fraction_part(s@) == chars@.subrange(frac_from as int, n as int));
    }
    if dot + (n - frac_from) == 0 {
        return None;
    }
    if !digits_only(&chars, 0, dot) || !digits_only(&chars, frac_from, n) {
        return None;
    }
    let whole = match read_digits(&chars, 0, dot, MAX_WHOLE_UNITS) {
        Some(w) => w,
        None => {
            return None;
        },
    };
    let d0 = read_fraction_digit(&chars, frac_from, n, 0);
    let d1 = read_fraction_digit(&chars, frac_from, n, 1);
    let d2 = read_fraction_digit(&chars, frac_from, n, 2);
    let d3 = read_fraction_digit(&chars, frac_from, n, 3);
    let d4 = read_fraction_digit(&chars, frac_from, n, 4);
    let d5 = read_fraction_digit(&chars, frac_from, n, 5);
    let frac: u64 = d0 * 100_000 + d1 * 10_000 + d2 * 1_000 + d3 * 100 + d4 * 10 + d5;
    if whole == MAX_WHOLE_UNITS && frac > 551_615 {
        return None;
    }
    Some(Millionths(whole * MILLIONTHS_PER_UNIT + frac))
}

/// The numeral of one decimal digit.
fn digit_str(d: u64) -> (s: &'static str)
    requires
        d <= 9,
    ensures
        s@ == seq![digit_char(d as nat)],
{
    proof {
        reveal_strlit("0");
        reveal_strlit("1");
        reveal_strlit("2");
        reveal_strlit("3");
        reveal_strlit("4");
        reveal_strlit("5");
        reveal_strlit("6");
        reveal_strlit("7");
        reveal_strlit("8");
        reveal_strlit("9");
    }
    let s = if d == 0 {
        "0"
    } else if d == 1 {
        "1"
    } else if d == 2 {
        "2"
    } else if d == 3 {
        "3"
    } else if d == 4 {
        "4"
    } else if d == 5 {
        "5"
    } else if d == 6 {
        "6"
    } else if d == 7 {
        "7"
    } else if d == 8 {
        "8"
    } else {
        "9"
    };
    assert(s@ =~= seq![digit_char(d as nat)]);
    s
}

/// Appends the decimal numeral of `n` to `out`.
pub fn push_decimal(out: &mut String, n: u64)
    ensures
        final(out)@ == old(out)@ + decimal_text(n as nat),
    decreases n,
{
    if n >= 10 {
        push_decimal(out, n / 10);
    }
    out.append(digit_str(n % 10));
    proof {
        if n >= 10 {
            assert(old(out)@ + decimal_text((n / 10) as nat) + seq![digit_char((n % 10) as nat)]
                == old(out)@ + decimal_text(n as nat));
        }
    }
}

/// The decimal numeral of `n`.
pub fn decimal_string(n: u64) -> (s: String)
    ensures
        s@ == decimal_text(n as nat),
{
    let mut s = String::new();
    push_decimal(&mut s, n);
    assert(Seq::<char>::empty() + decimal_text(n as nat) == decimal_text(n as nat));
    s
}

/// Appends `value` to `out`, written with two decimal places.
pub fn push_fixed2(out: &mut String, value: Millionths)
    ensures
        final(out)@ == old(out)@ + fixed2_text(value.0 as nat),
{
    let q: u64 = value.0 / 10_000;
    let r: u64 = value.0 % 10_000;
    let h: u64 = if r > 5_000 || (r == 5_000 && q % 2 == 1) {
        q + 1
    } else {
        q
    };
    push_decimal(out, h / 100);
    out.append(".");
    out.append(digit_str(h / 10 % 10));
    out.append(digit_str(h % 10));
    proof {
        reveal_strlit(".");
        assert("."@ == seq!['.']);
        let tail = seq!['.', digit_char((h / 10 % 10) as nat), digit_char((h % 10) as nat)];
        assert(seq!['.'] + seq![digit_char((h / 10 % 10) as nat)] + seq![
            digit_char((h % 10) as nat),
        ] == tail);
        assert(final(out)@ == old(out)@ + decimal_text((h / 100) as nat) + tail);
        assert(old(out)@ + decimal_text((h / 100) as nat) + tail == old(out)@ + (decimal_text(
            (h / 100) as nat,
        ) + tail));
    }
}

/// A decimal numeral is made of digits, and of one at the least.
pub proof fn lemma_decimal_text_digits(n: nat)
    ensures
        decimal_text(n).len() >= 1,
        all_digits(decimal_text(n)),
    decreases n,
{
    if n >= 10 {
        lemma_decimal_text_digits(n / 10);
        let head = decimal_text(n / 10);
        let whole = head.push(digit_char(n % 10));
        assert forall|i: int| 0 <= i < whole.len() implies is_digit(#[trigger] whole[i]) by {
            if i < head.len() {
                assert(whole[i] == head[i]);
            }
        }
    }
}

/// Reading back the numeral of a number gives the number.
pub proof fn lemma_decimal_text_value(n: nat)
    ensures
        digits_value(decimal_text(n)) == n,
    decreases n,
{
    if n >= 10 {
        lemma_decimal_text_value(n / 10);
        let whole = decimal_text(n / 10).push(digit_char(n % 10));
        assert(whole.drop_last() == decimal_text(n / 10));
        assert(whole.last() == digit_char(n % 10));
    } else {
        let whole = seq![digit_char(n)];
        assert(whole.drop_last() == Seq::<char>::empty());
        assert(digits_value(whole.drop_last()) == 0);
    }
}

/// Rounding to hundredths moves a quantity by half a hundredth at the most.
pub proof fn lemma_hundredths_nearest(micros: nat)
    ensures
        hundredths(micros) * 10_000 - micros <= 5_000,
        micros - hundredths(micros) * 10_000 <= 5_000,
{
}

/// A quantity written with two decimal places holds digits and one point,
/// and ends in a digit.
pub proof fn lemma_fixed2_text_shape(micros: nat)
    ensures
        fixed2_text(micros).len() >= 4,
        forall|i: int|
            0 <= i < fixed2_text(micros).len() ==> is_digit(#[trigger] fixed2_text(micros)[i])
                || fixed2_text(micros)[i] == '.',
        is_digit(fixed2_text(micros).last()),
{
    let h = hundredths(micros);
    lemma_decimal_text_digits(h / 100);
    let head = decimal_text(h / 100);
    let tail = seq!['.', digit_char(h / 10 % 10), digit_char(h % 10)];
    let whole = head + tail;
    assert forall|i: int| 0 <= i < whole.len() implies is_digit(#[trigger] whole[i]) || whole[i]
        == '.' by {
        if i < head.len() {
            assert(whole[i] == head[i]);
        } else {
            assert(whole[i] == tail[i - head.len()]);
        }
    }
    assert(whole.last() == tail[2]);
}

/// In a text that starts with digits, the first point is not among them.
proof fn lemma_dot_behind_digits(text: Seq<char>, digits: int, i: int)
    requires
        0 <= i <= digits < text.len(),
        all_digits(text.subrange(0, digits)),
        text[digits] == '.',
    ensures
        dot_index(text, i) == digits,
    decreases digits - i,
{
    if i < digits {
        assert(text.subrange(0, digits)[i] == text[i]);
        lemma_dot_behind_digits(text, digits, i + 1);
    }
}

/// A numeral made of digits, a point and two more digits has the digits as
/// its whole part and the two as its fraction.
proof fn lemma_fixed2_parts(head: Seq<char>, tenths: char, hundredths: char)
    requires
        all_digits(head),
    ensures
        whole_part(head + seq!['.', tenths, hundredths]) == head,
        fraction_part(head + seq!['.', tenths, hundredths]) == seq![tenths, hundredths],
{
    let tail = seq!['.', tenths, hundredths];
    let text = head + tail;
    assert(text.subrange(0, head.len() as int) == head);
    assert(text[head.len() as int] == tail[0]);
    lemma_dot_behind_digits(text, head.len() as int, 0);
    assert(text.subrange(head.len() as int + 1, text.len() as int) == seq![tenths, hundredths]);
}

/// A count of hundredths is its hundreds, its tens and its ones.
proof fn lemma_hundredths_places(h: nat)
    ensures
        (h / 100) * 1_000_000 + (h / 10 % 10) * 100_000 + (h % 10) * 10_000 == h * 10_000,
{
}

/// Reading back a quantity as it is written with two decimal places gives
/// the quantity rounded to hundredths.
pub proof fn lemma_fixed2_text_reads_back(micros: nat)
    requires
        hundredths(micros) * 10_000 <= u64::MAX,
    ensures
        parse_decimal_spec(fixed2_text(micros)) == Some(
            Millionths((hundredths(micros) * 10_000) as u64),
        ),
{
    let h = hundredths(micros);
    let head = decimal_text(h / 100);
    let tenths = digit_char(h / 10 % 10);
    let ones = digit_char(h % 10);
    let text = fixed2_text(micros);
    lemma_decimal_text_digits(h / 100);
    lemma_decimal_text_value(h / 100);
    lemma_fixed2_parts(head, tenths, ones);
    lemma_hundredths_places(h);
    let frac = seq![tenths, ones];
    assert(micros_of_fraction(frac) == (h / 10 % 10) * 100_000 + (h % 10) * 10_000) by {
        assert(frac[0] == tenths);
        assert(frac[1] == ones);
    }
    assert(all_digits(frac)) by {
        assert(is_digit(frac[0]) && is_digit(frac[1]));
    }
    assert(decimal_micros(text) == h * 10_000);
}

} // verus!
