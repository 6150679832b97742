//! Fixed-point decimal amounts.
//!
//! Money amounts and percentages are held as whole numbers of hundredths
//! (`250` means `2.5`, `20000` means `200`). This module reads decimal
//! texts as such amounts and as plain counts, and renders them back as
//! decimal text, with a zero fractional part omitted.

use vstd::prelude::*;

verus! {

/// The decimal digit character for a value below ten.
pub open spec fn digit_char(d: int) -> char {
    if d == 0 {
        '0'
    } else if d == 1 {
        '1'
    } else if d == 2 {
        '2'
    } else if d == 3 {
        '3'
    } else if d == 4 {
        '4'
    } else if d == 5 {
        '5'
    } else if d == 6 {
        '6'
    } else if d == 7 {
        '7'
    } else if d == 8 {
        '8'
    } else {
        '9'
    }
}

/// The usual decimal rendering of a natural number, without sign,
/// leading zeros only for the number zero itself.
pub open spec fn dec_digits(n: int) -> Seq<char>
    decreases n,
{
    if n < 10 {
        seq![digit_char(n)]
    } else {
        dec_digits(n / 10).push(digit_char(n % 10))
    }
}

/// The decimal text of an amount in hundredths: the whole part, then a
/// fractional part of one or two digits only when it is not zero.
pub open spec fn amount_text(hundredths: int) -> Seq<char> {
    let whole = hundredths / 100;
    let frac = hundredths % 100;
    if frac == 0 {
        dec_digits(whole)
    } else if frac % 10 == 0 {
        dec_digits(whole).push('.').push(digit_char(frac / 10))
    } else {
        dec_digits(whole).push('.').push(digit_char(frac / 10)).push(digit_char(frac % 10))
    }
}

/// Whether a character is a decimal digit.
pub open spec fn is_digit(c: char) -> bool {
    48 <= c as u32 <= 57
}

/// The numeric value of a decimal digit character.
pub open spec fn digit_val(c: char) -> int {
    c as u32 - 48
}

/// Whether every character of the text is a decimal digit.
pub open spec fn all_digits(t: Seq<char>) -> bool {
    forall|i: int| 0 <= i < t.len() ==> is_digit(t[i])
}

/// The value of a digit string read as a decimal number.
pub open spec fn digits_value(t: Seq<char>) -> int
    decreases t.len(),
{
    if t.len() == 0 {
        0
    } else {
        digits_value(t.drop_last()) * 10 + digit_val(t.last())
    }
}

/// Ten to the given power.
pub open spec fn pow10(n: int) -> int
    decreases n,
{
    if n <= 0 {
        1
    } else {
        10 * pow10(n - 1)
    }
}

/// A digit string of length n has a value below ten to the n.
pub proof fn lemma_digits_value_bound(t: Seq<char>)
    requires
        all_digits(t),
    ensures
        0 <= digits_value(t) < pow10(t.len() as int),
    decreases t.len(),
{
    if t.len() > 0 {
        lemma_digits_value_bound(t.drop_last());
        assert(is_digit(t.last()));
        assert(0 <= digit_val(t.last()) <= 9);
    }
}

/// The index of the first '.' in the text, if any.
pub open spec fn first_dot(t: Seq<char>) -> Option<int>
    decreases t.len(),
{
    if t.len() == 0 {
        None
    } else if t[0] == '.' {
        Some(0int)
    } else {
        match first_dot(t.skip(1)) {
            None => None,
            Some(i) => Some(i + 1),
        }
    }
}

/// A text with no '.' anywhere has no first dot.
pub proof fn lemma_first_dot_none(t: Seq<char>)
    requires
        forall|j: int| 0 <= j < t.len() ==> t[j] != '.',
    ensures
        first_dot(t) is None,
    decreases t.len(),
{
    if t.len() > 0 {
        assert(forall|j: int| 0 <= j < t.skip(1).len() ==> t.skip(1)[j] == t[j + 1]);
        lemma_first_dot_none(t.skip(1));
    }
}

/// If position i holds the first '.', `first_dot` returns it.
pub proof fn lemma_first_dot_at(t: Seq<char>, i: int)
    requires
        0 <= i < t.len(),
        t[i] == '.',
        forall|j: int| 0 <= j < i ==> t[j] != '.',
    ensures
        first_dot(t) == Some(i),
    decreases t.len(),
{
    if i > 0 {
        assert(forall|j: int| 0 <= j < t.skip(1).len() ==> t.skip(1)[j] == t[j + 1]);
        lemma_first_dot_at(t.skip(1), i - 1);
    }
}

/// The number of digits accepted for the whole part of an amount.
pub const MAX_AMOUNT_DIGITS: u64 = 12;

/// The number of digits accepted for a count field.
pub const MAX_COUNT_DIGITS: u64 = 9;

/// The value in hundredths of a fractional digit string: the first two
/// digits weighted, valid only when any further digits are zero.
pub open spec fn frac_value(f: Seq<char>) -> int {
    if f.len() == 1 {
        10 * digit_val(f[0])
    } else {
        10 * digit_val(f[0]) + digit_val(f[1])
    }
}

/// Whether a fractional digit string is exact in hundredths: nonempty,
/// all digits, and zero beyond the second place.
pub open spec fn frac_ok(f: Seq<char>) -> bool {
    &&& f.len() >= 1
    &&& all_digits(f)
    &&& forall|i: int| 2 <= i < f.len() ==> f[i] == '0'
}

/// The amount in hundredths denoted by a decimal text, when the text is
/// unsigned decimal notation (`"200"`, `"7.5"`, `"0.25"`), the whole part
/// has at most `MAX_AMOUNT_DIGITS` digits, and the value is exact in
/// hundredths; `None` otherwise.
pub open spec fn amount_of_text(t: Seq<char>) -> Option<u64> {
    match first_dot(t) {
        None => if 1 <= t.len() <= MAX_AMOUNT_DIGITS && all_digits(t) {
            Some((100 * digits_value(t)) as u64)
        } else {
            None
        },
        Some(p) => {
            let ip = t.take(p);
            let fp = t.skip(p + 1);
            if 1 <= ip.len() <= MAX_AMOUNT_DIGITS && all_digits(ip) && frac_ok(fp) {
                Some((100 * digits_value(ip) + frac_value(fp)) as u64)
            } else {
                None
            }
        },
    }
}

/// The count denoted by a decimal text, when the text is an unsigned
/// integer of at most `MAX_COUNT_DIGITS` digits; `None` otherwise.
pub open spec fn count_of_text(t: Seq<char>) -> Option<u64> {
    if 1 <= t.len() <= MAX_COUNT_DIGITS && all_digits(t) {
        Some(digits_value(t) as u64)
    } else {
        None
    }
}

/// One-character string for a decimal digit.
fn digit_str(d: u64) -> (r: &'static str)
    requires
        d < 10,
    ensures
        r@ == seq![digit_char(d as int)],
{
    proof {
        reveal_strlit("0");
        reveal_strlit("1");
        reveal_strlit("2");
        reveal_strlit("3");
        reveal_strlit("4");
        reveal_strlit("5");
        reveal_strlit("6");
        reveal_strlit("7");
        reveal_strlit("8");
        reveal_strlit("9");
    }
    let r = match d {
        0 => "0",
        1 => "1",
        2 => "2",
        3 => "3",
        4 => "4",
        5 => "5",
        6 => "6",
        7 => "7",
        8 => "8",
        _ => "9",
    };
    proof {
        assert(r@ =~= seq![digit_char(d as int)]);
    }
    r
}

/// Renders a natural number as decimal digits.
pub fn u64_to_string(n: u64) -> (s: String)
    ensures
        s@ == dec_digits(n as int),
    decreases n,
{
    if n < 10 {
        String::from_str(digit_str(n))
    } else {
        assert(n / 10 < n && n / 10 >= 1);
        let mut s = u64_to_string(n / 10);
        s.append(digit_str(n % 10));
        proof {
            assert(s@ =~= dec_digits(n as int));
        }
        s
    }
}

/// Renders an amount held in hundredths as decimal text.
pub fn amount_to_string(hundredths: u64) -> (s: String)
    ensures
        s@ == amount_text(hundredths as int),
{
    let whole = hundredths / 100;
    let frac = hundredths % 100;
    if frac == 0 {
        u64_to_string(whole)
    } else if frac % 10 == 0 {
        let mut s = u64_to_string(whole);
        s.append(".");
        s.append(digit_str(frac / 10));
        proof {
            reveal_strlit(".");
            assert(s@ =~= amount_text(hundredths as int));
        }
        s
    } else {
        let mut s = u64_to_string(whole);
        s.append(".");
        s.append(digit_str(frac / 10));
        s.append(digit_str(frac % 10));
        proof {
            reveal_strlit(".");
            assert(s@ =~= amount_text(hundredths as int));
        }
        s
    }
}

/// Reads the digit string in `t[lo..hi]` as a number, or `None` if a
/// character there is not a digit.
fn parse_digits_range(t: &str, lo: usize, hi: usize) -> (r: Option<u64>)
    requires
        lo <= hi <= t@.len(),
        hi - lo <= MAX_AMOUNT_DIGITS,
    ensures
        all_digits(t@.subrange(lo as int, hi as int)) ==> r == Some(
            digits_value(t@.subrange(lo as int, hi as int)) as u64,
        ),
        !all_digits(t@.subrange(lo as int, hi as int)) ==> r is None,
{
    let ghost whole = t@.subrange(lo as int, hi as int);
    let mut acc: u64 = 0;
    let mut i: usize = lo;
    while i < hi
        invariant
            lo <= i <= hi <= t@.len(),
            hi - lo <= MAX_AMOUNT_DIGITS,
            whole == t@.subrange(lo as int, hi as int),
            all_digits(t@.subrange(lo as int, i as int)),
            acc == digits_value(t@.subrange(lo as int, i as int)),
            acc < pow10(i - lo),
        decreases hi - i,
    {
        let ghost prefix = t@.subrange(lo as int, i as int);
        let c = t.get_char(i);
        let u = c as u32;
        if u < 48 || u > 57 {
            assert(!all_digits(whole)) by {
                assert(whole[i - lo] == c);
            }
            return None;
        }
        let d = (u - 48) as u64;
        proof {
            assert(pow10(i - lo) <= pow10(MAX_AMOUNT_DIGITS as int)) by {
                lemma_pow10_ordered(i - lo, MAX_AMOUNT_DIGITS as int);
            }
            assert(pow10(MAX_AMOUNT_DIGITS as int) == 1000000000000) by {
                reveal_with_fuel(pow10, 13);
            }
        }
        acc = acc * 10 + d;
        i = i + 1;
        proof {
            let prefix2 = t@.subrange(lo as int, i as int);
            assert(prefix2.drop_last() =~= prefix);
            assert(prefix2.last() == c);
            assert(all_digits(prefix2)) by {
                assert(forall|j: int| 0 <= j < prefix.len() ==> prefix2[j] == prefix[j]);
            }
        }
    }
    assert(whole =~= t@.subrange(lo as int, i as int));
    Some(acc)
}

/// Ten to a power is ordered by the exponent.
proof fn lemma_pow10_ordered(m: int, n: int)
    requires
        m <= n,
    ensures
        pow10(m) <= pow10(n),
        pow10(m) >= 1,
    decreases n - m,
{
    if m < n {
        lemma_pow10_ordered(m, n - 1);
    } else if m == n {
        lemma_pow10_ordered_base(m);
    }
}

/// Ten to any power is at least one.
proof fn lemma_pow10_ordered_base(m: int)
    ensures
        pow10(m) >= 1,
    decreases if m <= 0 { 0int } else { m },
{
    if m > 0 {
        lemma_pow10_ordered_base(m - 1);
    }
}

/// Finds the first '.' in the text.
fn find_dot(t: &str) -> (r: Option<usize>)
    ensures
        match r {
            None => first_dot(t@) is None,
            Some(i) => first_dot(t@) == Some(i as int) && i < t@.len() && t@[i as int] == '.',
        },
{
    let n = t.unicode_len();
    let mut i: usize = 0;
    while i < n
        invariant
            i <= n,
            n == t@.len(),
            forall|j: int| 0 <= j < i ==> t@[j] != '.',
        decreases n - i,
    {
        if t.get_char(i) == '.' {
            proof {
                lemma_first_dot_at(t@, i as int);
            }
            return Some(i);
        }
        i = i + 1;
    }
    proof {
        lemma_first_dot_none(t@);
    }
    None
}

/// Reads the fractional digit string in `t[lo..hi]`, in hundredths.
fn parse_frac_range(t: &str, lo: usize, hi: usize) -> (r: Option<u64>)
    requires
        lo <= hi <= t@.len(),
    ensures
        frac_ok(t@.subrange(lo as int, hi as int)) ==> r == Some(
            frac_value(t@.subrange(lo as int, hi as int)) as u64,
        ),
        !frac_ok(t@.subrange(lo as int, hi as int)) ==> r is None,
{
    let ghost fp = t@.subrange(lo as int, hi as int);
    if lo == hi {
        return None;
    }
    let mut acc: u64 = 0;
    let mut i: usize = lo;
    while i < hi
        invariant
            lo <= i <= hi <= t@.len(),
            lo < hi,
            fp == t@.subrange(lo as int, hi as int),
            forall|j: int| lo <= j < i ==> is_digit(t@[j]),
            forall|j: int| lo + 2 <= j < i ==> t@[j] == '0',
            i - lo >= 1 ==> acc >= 10 * digit_val(t@[lo as int]),
            i - lo == 1 ==> acc == 10 * digit_val(t@[lo as int]),
            i - lo >= 2 ==> acc == 10 * digit_val(t@[lo as int]) + digit_val(
                t@[lo as int + 1],
            ),
            acc <= 99,
        decreases hi - i,
    {
        let c = t.get_char(i);
        let u = c as u32;
        if u < 48 || u > 57 {
            assert(!frac_ok(fp)) by {
                assert(fp[i - lo] == c);
            }
            return None;
        }
        if i - lo >= 2 && u != 48 {
            assert(!frac_ok(fp)) by {
                assert(fp[i - lo] == c);
                assert(digit_val(c) != 0);
            }
            return None;
        }
        let d = (u - 48) as u64;
        if i == lo {
            acc = 10 * d;
        } else if i == lo + 1 {
            acc = acc + d;
        }
        i = i + 1;
    }
    proof {
        assert(frac_ok(fp)) by {
            assert(forall|j: int| 0 <= j < fp.len() ==> fp[j] == t@[lo + j]);
        }
        assert(fp[0] == t@[lo as int]);
        if fp.len() >= 2 {
            assert(fp[1] == t@[lo as int + 1]);
        }
    }
    Some(acc)
}

/// Reads a decimal text as an amount in hundredths; `None` when the text
/// is not unsigned decimal notation exact in hundredths, per
/// `amount_of_text`.
pub fn parse_amount(t: &str) -> (r: Option<u64>)
    ensures
        r == amount_of_text(t@),
{
    let n = t.unicode_len();
    match find_dot(t) {
        None => {
            if n == 0 || n > 12 {
                return None;
            }
            proof {
                assert(t@.subrange(0, n as int) =~= t@);
            }
            match parse_digits_range(t, 0, n) {
                None => None,
                Some(v) => {
                    proof {
                        lemma_digits_value_bound(t@);
                        assert(pow10(t@.len() as int) <= pow10(12)) by {
                            lemma_pow10_ordered(t@.len() as int, 12);
                        }
                        assert(pow10(12) == 1000000000000) by {
                            reveal_with_fuel(pow10, 13);
                        }
                    }
                    Some(v * 100)
                },
            }
        },
        Some(p) => {
            let ghost ip = t@.take(p as int);
            let ghost fp = t@.skip(p as int + 1);
            proof {
                assert(ip =~= t@.subrange(0, p as int));
                assert(fp =~= t@.subrange(p as int + 1, t@.len() as int));
            }
            if p == 0 || p > 12 {
                return None;
            }
            let whole = match parse_digits_range(t, 0, p) {
                None => {
                    return None;
                },
                Some(v) => v,
            };
            let frac = match parse_frac_range(t, p + 1, n) {
                None => {
                    return None;
                },
                Some(v) => v,
            };
            proof {
                lemma_digits_value_bound(ip);
                assert(pow10(ip.len() as int) <= pow10(12)) by {
                    lemma_pow10_ordered(ip.len() as int, 12);
                }
                assert(pow10(12) == 1000000000000) by {
                    reveal_with_fuel(pow10, 13);
                }
            }
            Some(whole * 100 + frac)
        },
    }
}

/// Reads a decimal text as a count; `None` when the text is not an
/// unsigned integer of at most `MAX_COUNT_DIGITS` digits, per
/// `count_of_text`.
pub fn parse_count(t: &str) -> (r: Option<u64>)
    ensures
        r == count_of_text(t@),
{
    let n = t.unicode_len();
    if n == 0 || n > 9 {
        return None;
    }
    proof {
        assert(t@.subrange(0, n as int) =~= t@);
    }
    parse_digits_range(t, 0, n)
}

} // verus!
