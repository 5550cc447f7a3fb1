//! Integers in decimal notation.
use vstd::prelude::*;

use crate::text::{chars_of, text_of};

verus! {

/// The character of a decimal digit.
pub open spec fn digit_spec(d: int) -> char {
    (48 + d) as char
}

/// The character of a decimal digit.
fn digit(d: u64) -> (c: char)
    requires
        d < 10,
    ensures
        c == digit_spec(d as int),
{
    match d {
        0 => '0',
        1 => '1',
        2 => '2',
        3 => '3',
        4 => '4',
        5 => '5',
        6 => '6',
        7 => '7',
        8 => '8',
        _ => '9',
    }
}

/// A natural number in decimal notation.
pub open spec fn decimal_spec(n: int) -> Seq<char>
    decreases n,
{
    if n < 10 {
        seq![digit_spec(n)]
    } else {
        decimal_spec(n / 10).push(digit_spec(n % 10))
    }
}

/// A natural number in decimal notation.
pub fn decimal(n: u64) -> (r: String)
    ensures
        r@ == decimal_spec(n as int),
    decreases n,
{
    if n < 10 {
        let mut s = String::new();
        s.push(digit(n));
        assert(s@ =~= seq![digit_spec(n as int)]);
        s
    } else {
        let mut s = decimal(n / 10);
        s.push(digit(n % 10));
        s
    }
}

/// An integer in decimal notation.
pub open spec fn signed_spec(n: int) -> Seq<char> {
    if n < 0 {
        "-"@ + decimal_spec(-n)
    } else {
        decimal_spec(n)
    }
}

/// The distance of an integer from zero.
fn magnitude(n: i64) -> (m: u64)
    ensures
        m == if n < 0 {
            -n
        } else {
            n as int
        },
{
    if n >= 0 {
        n as u64
    } else {
        (-(n + 1)) as u64 + 1
    }
}

/// An integer in decimal notation.
pub fn signed(n: i64) -> (r: String)
    ensures
        r@ == signed_spec(n as int),
{
    let digits = decimal(magnitude(n));
    if n < 0 {
        crate::text::cat2("-", digits.as_str())
    } else {
        digits
    }
}

/// That many zeros.
pub open spec fn zeros(n: int) -> Seq<char> {
    Seq::new(
        if n < 0 {
            0
        } else {
            n as nat
        },
        |i: int| '0',
    )
}

/// A natural number in decimal notation, filled up with zeros to `width` characters.
pub open spec fn padded_spec(n: int, width: int) -> Seq<char> {
    zeros(width - decimal_spec(n).len()) + decimal_spec(n)
}

/// A natural number in decimal notation, filled up with zeros to `width` characters.
pub fn padded(n: u64, width: usize) -> (r: String)
    ensures
        r@ == padded_spec(n as int, width as int),
{
    let digits = decimal(n);
    let v = chars_of(digits.as_str());
    let mut r = String::new();
    let mut left: usize = if v.len() < width {
        width - v.len()
    } else {
        0
    };
    let ghost total = left;
    assert(r@ =~= zeros(0));
    while left > 0
        invariant
            left <= total,
            r@ == zeros(total - left),
        decreases left,
    {
        r.push('0');
        left = left - 1;
        assert(r@ =~= zeros(total - left));
    }
    assert(zeros(total as int) =~= zeros(width - v.len()));
    r.append(digits.as_str());
    r
}

/// An integer in decimal notation, filled up with zeros to `width` characters, the sign among them.
pub open spec fn padded_signed_spec(n: int, width: int) -> Seq<char> {
    if n < 0 {
        "-"@ + padded_spec(-n, width - 1)
    } else {
        padded_spec(n, width)
    }
}

/// An integer in decimal notation, filled up with zeros to `width` characters, the sign among them.
pub fn padded_signed(n: i64, width: usize) -> (r: String)
    requires
        width > 0,
    ensures
        r@ == padded_signed_spec(n as int, width as int),
{
    if n < 0 {
        crate::text::cat2("-", padded(magnitude(n), width - 1).as_str())
    } else {
        padded(magnitude(n), width)
    }
}

/// Whether a character is an ASCII decimal digit.
pub open spec fn is_digit_spec(c: char) -> bool {
    48 <= c as u32 <= 57
}

/// Whether every character of a text is an ASCII decimal digit.
pub open spec fn all_digits_spec(s: Seq<char>) -> bool {
    forall|i: int| 0 <= i < s.len() ==> is_digit_spec(#[trigger] s[i])
}

/// Whether every character of a text is an ASCII decimal digit.
pub fn all_digits(s: &str) -> (r: bool)
    ensures
        r == all_digits_spec(s@),
{
    let v = chars_of(s);
    let mut i: usize = 0;
    while i < v.len()
        invariant
            i <= v.len(),
            v@ == s@,
            forall|j: int| 0 <= j < i ==> is_digit_spec(#[trigger] s@[j]),
        decreases v.len() - i,
    {
        let n: u32 = v[i] as u32;
        if n < 48 || n > 57 {
            assert(!is_digit_spec(s@[i as int]));
            return false;
        }
        i = i + 1;
    }
    true
}

/// The number that a row of decimal digits denotes.
pub open spec fn number_spec(digits: Seq<char>) -> int
    decreases digits.len(),
{
    if digits.len() == 0 {
        0
    } else {
        number_spec(digits.drop_last()) * 10 + (digits.last() as u32 - 48)
    }
}

/// The number that a text denotes to `from_str` of an unsigned integer type with the given largest
/// value: digits, at least one, with an optional plus sign before them.
pub open spec fn parse_unsigned_spec(s: Seq<char>, max: int) -> Option<int> {
    let digits = if s.len() > 0 && s[0] == '+' {
        s.skip(1)
    } else {
        s
    };
    if digits.len() > 0 && all_digits_spec(digits) && number_spec(digits) <= max {
        Some(number_spec(digits))
    } else {
        None
    }
}

proof fn number_grows(digits: Seq<char>, i: int)
    requires
        0 <= i <= digits.len(),
        all_digits_spec(digits),
    ensures
        0 <= number_spec(digits.take(i)) <= number_spec(digits),
    decreases digits.len() - i,
{
    number_natural(digits.take(i));
    if i == digits.len() {
        assert(digits.take(i) =~= digits);
    } else {
        number_grows(digits, i + 1);
        assert(digits.take(i + 1).drop_last() =~= digits.take(i));
        assert(is_digit_spec(digits[i]));
    }
}

/// Digits denote a natural number.
pub proof fn number_natural(digits: Seq<char>)
    requires
        all_digits_spec(digits),
    ensures
        0 <= number_spec(digits),
    decreases digits.len(),
{
    if digits.len() > 0 {
        assert(all_digits_spec(digits.drop_last())) by {
            assert forall|i: int| 0 <= i < digits.len() - 1 implies is_digit_spec(
                #[trigger] digits.drop_last()[i],
            ) by {
                assert(is_digit_spec(digits[i]));
            }
        }
        number_natural(digits.drop_last());
        assert(is_digit_spec(digits[digits.len() - 1]));
    }
}

/// `from_str` of an unsigned integer type with the given largest value.
pub fn parse_unsigned(s: &str, max: u64) -> (r: Option<u64>)
    ensures
        match r {
            Some(n) => parse_unsigned_spec(s@, max as int) == Some(n as int),
            None => parse_unsigned_spec(s@, max as int) is None,
        },
{
    let v = chars_of(s);
    let from: usize = if v.len() > 0 && v[0] == '+' {
        1
    } else {
        0
    };
    let ghost digits = if s@.len() > 0 && s@[0] == '+' {
        s@.skip(1)
    } else {
        s@
    };
    assert(digits =~= v@.skip(from as int));
    if from == v.len() {
        return None;
    }
    let mut n: u64 = 0;
    let mut i: usize = from;
    assert(digits.take(0) =~= Seq::empty());
    while i < v.len()
        invariant
            from <= i <= v.len(),
            digits == v@.skip(from as int),
            all_digits_spec(digits.take(i - from)),
            n == number_spec(digits.take(i - from)),
            n <= max,
            digits.len() > 0,
            parse_unsigned_spec(s@, max as int) == if all_digits_spec(digits) && number_spec(digits)
                <= max {
                Some(number_spec(digits))
            } else {
                None
            },
        decreases v.len() - i,
    {
        let c: u32 = v[i] as u32;
        assert(digits[i - from] == v@[i as int]);
        if c < 48 || c > 57 {
            assert(!is_digit_spec(digits[i - from]));
            return None;
        }
        let d: u64 = (c - 48) as u64;
        proof {
            let next = digits.take(i - from + 1);
            assert(next.drop_last() =~= digits.take(i - from));
            assert(next.last() == digits[i - from]);
            assert forall|j: int| 0 <= j < next.len() implies is_digit_spec(#[trigger] next[j]) by {
                if j < i - from {
                    assert(is_digit_spec(digits.take(i - from)[j]));
                }
            }
            if all_digits_spec(digits) {
                number_grows(digits, i - from + 1);
            }
        }
        let next: u128 = n as u128 * 10 + d as u128;
        if next > max as u128 {
            return None;
        }
        n = next as u64;
        i = i + 1;
    }
    assert(digits.take(v.len() - from) =~= digits);
    Some(n)
}

/// Where the first character that is no decimal digit stands in a text, from an index on; its length
/// where there is none.
pub open spec fn digits_end(s: Seq<char>, i: int) -> int
    decreases s.len() - i,
{
    if 0 <= i < s.len() && is_digit_spec(s[i]) {
        digits_end(s, i + 1)
    } else {
        i
    }
}

/// Why a text that denotes no number to `from_str` of an unsigned integer type denotes none: it is
/// empty, the digits before any other character are too large a number, or there is another character
/// than a digit.
pub open spec fn unsigned_reason_spec(s: Seq<char>, max: int) -> Seq<char> {
    let digits = if s.len() > 0 && s[0] == '+' {
        s.skip(1)
    } else {
        s
    };
    if s.len() == 0 {
        "cannot parse integer from empty string"@
    } else if number_spec(digits.take(digits_end(digits, 0))) > max {
        "number too large to fit in target type"@
    } else {
        "invalid digit found in string"@
    }
}

proof fn digits_end_bounds(s: Seq<char>, i: int)
    requires
        0 <= i <= s.len(),
        all_digits_spec(s.take(i)),
    ensures
        i <= digits_end(s, i) <= s.len(),
        all_digits_spec(s.take(digits_end(s, i))),
    decreases s.len() - i,
{
    if i < s.len() && is_digit_spec(s[i]) {
        assert forall|j: int| 0 <= j < i + 1 implies is_digit_spec(#[trigger] s.take(i + 1)[j]) by {
            if j < i {
                assert(is_digit_spec(s.take(i)[j]));
            }
        }
        digits_end_bounds(s, i + 1);
    }
}

/// Why a text that denotes no number to `from_str` of an unsigned integer type denotes none.
pub fn unsigned_reason(s: &str, max: u64) -> (r: String)
    ensures
        r@ == unsigned_reason_spec(s@, max as int),
{
    let v = chars_of(s);
    if v.len() == 0 {
        return "cannot parse integer from empty string".to_owned();
    }
    let from: usize = if v[0] == '+' {
        1
    } else {
        0
    };
    let ghost digits = v@.skip(from as int);
    assert(digits =~= if s@[0] == '+' {
        s@.skip(1)
    } else {
        s@
    });
    let mut n: u64 = 0;
    let mut i: usize = from;
    assert(digits.take(0) =~= Seq::empty());
    while i < v.len()
        invariant
            from <= i <= v.len(),
            digits == v@.skip(from as int),
            all_digits_spec(digits.take(i - from)),
            digits_end(digits, 0) == digits_end(digits, i - from),
            n == number_spec(digits.take(i - from)),
            n <= max,
            s@.len() > 0,
            unsigned_reason_spec(s@, max as int) == if number_spec(
                digits.take(digits_end(digits, 0)),
            ) > max {
                "number too large to fit in target type"@
            } else {
                "invalid digit found in string"@
            },
        decreases v.len() - i,
    {
        let c: u32 = v[i] as u32;
        assert(digits[i - from] == v@[i as int]);
        if c < 48 || c > 57 {
            assert(digits_end(digits, 0) == i - from);
            return "invalid digit found in string".to_owned();
        }
        let d: u64 = (c - 48) as u64;
        let next: u128 = n as u128 * 10 + d as u128;
        proof {
            let k = i - from + 1;
            let more = digits.take(k);
            assert(more.drop_last() =~= digits.take(k - 1));
            assert(more.last() == digits[k - 1]);
            assert forall|j: int| 0 <= j < more.len() implies is_digit_spec(#[trigger] more[j]) by {
                if j < k - 1 {
                    assert(is_digit_spec(digits.take(k - 1)[j]));
                }
            }
            digits_end_bounds(digits, k);
            let row = digits.take(digits_end(digits, k));
            number_grows(row, k);
            assert(row.take(k) =~= more);
        }
        if next > max as u128 {
            return "number too large to fit in target type".to_owned();
        }
        n = next as u64;
        i = i + 1;
    }
    "invalid digit found in string".to_owned()
}

/// The number that a text denotes to `from_str` of a signed integer type that is wide enough:
/// digits, at least one, with an optional sign before them.
pub open spec fn parse_signed_spec(s: Seq<char>) -> Option<int> {
    let unsigned = s.len() == 0 || (s[0] != '-' && s[0] != '+');
    let digits = if unsigned {
        s
    } else {
        s.skip(1)
    };
    if digits.len() == 0 || !all_digits_spec(digits) {
        None
    } else if s[0] == '-' {
        Some(-number_spec(digits))
    } else {
        Some(number_spec(digits))
    }
}

proof fn number_bounded(digits: Seq<char>)
    requires
        all_digits_spec(digits),
        digits.len() <= 4,
    ensures
        0 <= number_spec(digits) <= 9999,
{
    reveal_with_fuel(number_spec, 5);
    number_natural(digits);
    let a = digits;
    if a.len() > 0 {
        assert(is_digit_spec(a[a.len() - 1]));
        let b = a.drop_last();
        if b.len() > 0 {
            assert(is_digit_spec(a[a.len() - 2]));
            let c = b.drop_last();
            if c.len() > 0 {
                assert(is_digit_spec(a[a.len() - 3]));
                let d = c.drop_last();
                if d.len() > 0 {
                    assert(is_digit_spec(a[a.len() - 4]));
                }
            }
        }
    }
}

/// The number that a short row of characters denotes to `from_str` of a signed integer type.
pub fn parse_signed(v: &Vec<char>, from: usize, to: usize) -> (r: Option<i64>)
    requires
        from <= to <= v.len(),
        to - from <= 4,
    ensures
        match r {
            Some(n) => parse_signed_spec(v@.subrange(from as int, to as int)) == Some(n as int)
                && -9999 <= n <= 9999,
            None => parse_signed_spec(v@.subrange(from as int, to as int)) is None,
        },
{
    let ghost s = v@.subrange(from as int, to as int);
    let sign = from < to && (v[from] == '-' || v[from] == '+');
    let start: usize = if sign {
        from + 1
    } else {
        from
    };
    let text = text_of(v, start, to);
    assert(text@ =~= if sign {
        s.skip(1)
    } else {
        s
    });
    if !all_digits(text.as_str()) {
        return None;
    }
    proof {
        number_bounded(text@);
        if text@.len() > 0 {
            assert(is_digit_spec(text@[0]));
        }
    }
    match parse_unsigned(text.as_str(), 9999) {
        Some(n) => if sign && v[from] == '-' {
            Some(-(n as i64))
        } else {
            Some(n as i64)
        },
        None => None,
    }
}

/// The number that a short row of characters denotes to `from_str` of an unsigned integer type.
pub fn parse_short(v: &Vec<char>, from: usize, to: usize) -> (r: Option<i64>)
    requires
        from <= to <= v.len(),
    ensures
        match r {
            Some(n) => parse_unsigned_spec(v@.subrange(from as int, to as int), u32::MAX as int)
                == Some(n as int) && 0 <= n <= u32::MAX,
            None => parse_unsigned_spec(v@.subrange(from as int, to as int), u32::MAX as int) is None,
        },
{
    match parse_unsigned(text_of(v, from, to).as_str(), u32::MAX as u64) {
        Some(n) => Some(n as i64),
        None => None,
    }
}

/// A number below a hundred, filled up to two characters, is its two digits, and denotes itself.
proof fn two_digits_exactly(n: int, max: int)
    requires
        0 <= n < 100 <= max,
    ensures
        padded_spec(n, 2) == seq![digit_spec(n / 10), digit_spec(n % 10)],
        all_digits_spec(padded_spec(n, 2)),
        parse_unsigned_spec(padded_spec(n, 2), max) == Some(n),
        parse_signed_spec(padded_spec(n, 2)) == Some(n),
{
    reveal_with_fuel(decimal_spec, 3);
    reveal_with_fuel(number_spec, 3);
    let s = seq![digit_spec(n / 10), digit_spec(n % 10)];
    assert(padded_spec(n, 2) =~= s);
    assert(s.drop_last() =~= seq![digit_spec(n / 10)]);
    assert(s.drop_last().drop_last() =~= Seq::empty());
    assert(number_spec(s) == n);
    assert(all_digits_spec(s));
}

/// A number below ten thousand, filled up to four characters, is its four digits, and denotes
/// itself.
proof fn four_digits_exactly(n: int)
    requires
        0 <= n < 10000,
    ensures
        padded_signed_spec(n, 4) == seq![
            digit_spec(n / 1000),
            digit_spec(n / 100 % 10),
            digit_spec(n / 10 % 10),
            digit_spec(n % 10),
        ],
        all_digits_spec(padded_signed_spec(n, 4)),
        parse_signed_spec(padded_signed_spec(n, 4)) == Some(n),
{
    reveal_with_fuel(decimal_spec, 5);
    reveal_with_fuel(number_spec, 5);
    let s = seq![
        digit_spec(n / 1000),
        digit_spec(n / 100 % 10),
        digit_spec(n / 10 % 10),
        digit_spec(n % 10),
    ];
    assert(padded_signed_spec(n, 4) =~= s);
    let t = s.drop_last();
    assert(t =~= seq![digit_spec(n / 1000), digit_spec(n / 100 % 10), digit_spec(n / 10 % 10)]);
    assert(t.drop_last() =~= seq![digit_spec(n / 1000), digit_spec(n / 100 % 10)]);
    assert(t.drop_last().drop_last() =~= seq![digit_spec(n / 1000)]);
    assert(t.drop_last().drop_last().drop_last() =~= Seq::empty());
    assert(number_spec(s) == n);
    assert(all_digits_spec(s));
}

/// A number below a hundred, filled up to two characters, is two digits and denotes itself.
pub proof fn two_digits(n: int, max: int)
    requires
        0 <= n < 100 <= max,
    ensures
        padded_spec(n, 2).len() == 2,
        all_digits_spec(padded_spec(n, 2)),
        parse_unsigned_spec(padded_spec(n, 2), max) == Some(n),
        parse_signed_spec(padded_spec(n, 2)) == Some(n),
{
    two_digits_exactly(n, max);
}

/// A number below ten thousand, filled up to four characters, is four digits and denotes itself.
pub proof fn four_digits(n: int)
    requires
        0 <= n < 10000,
    ensures
        padded_signed_spec(n, 4).len() == 4,
        all_digits_spec(padded_signed_spec(n, 4)),
        parse_signed_spec(padded_signed_spec(n, 4)) == Some(n),
{
    four_digits_exactly(n);
}

} // verus!
