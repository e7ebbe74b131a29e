//! Integers in decimal: how they are written and how they are read.

use crate::text::chars_of;
use vstd::prelude::*;
use vstd::string::*;

verus! {

/// The digit `d`, for `d` below ten.
pub open spec fn digit_char(d: int) -> char {
    (('0' as int) + d) as char
}

/// The value of a digit.
pub open spec fn digit_value(c: char) -> int {
    (c as int) - ('0' as int)
}

/// `c` is one of `0` to `9`.
pub open spec fn is_digit(c: char) -> bool {
    '0' <= c <= '9'
}

/// One or more digits and nothing else.
pub open spec fn is_digits(s: Seq<char>) -> bool {
    s.len() > 0 && forall|i: int| 0 <= i < s.len() ==> is_digit(#[trigger] s[i])
}

/// The number that a sequence of digits writes.
pub open spec fn digits_value(s: Seq<char>) -> int
    decreases s.len(),
{
    if s.len() == 0 {
        0
    } else {
        digits_value(s.drop_last()) * 10 + digit_value(s.last())
    }
}

/// The digits of a natural number, without leading zeros.
pub open spec fn digits_of(n: nat) -> Seq<char>
    decreases n,
{
    if n < 10 {
        seq![digit_char(n as int)]
    } else {
        digits_of(n / 10).push(digit_char((n % 10) as int))
    }
}

/// An integer as text: its digits, after a minus where it is negative.
pub open spec fn integer_text(n: int) -> Seq<char> {
    if n < 0 {
        seq!['-'] + digits_of((-n) as nat)
    } else {
        digits_of(n as nat)
    }
}

/// The integer that a text writes: digits, after an optional `+`, or `-` where
/// `signed`.
pub open spec fn integer_value(s: Seq<char>, signed: bool) -> Option<int> {
    if is_digits(s) {
        Some(digits_value(s))
    } else if s.len() > 0 && s[0] == '+' && is_digits(s.drop_first()) {
        Some(digits_value(s.drop_first()))
    } else if signed && s.len() > 0 && s[0] == '-' && is_digits(s.drop_first()) {
        Some(-digits_value(s.drop_first()))
    } else {
        None
    }
}

/// The `i64` that a text writes, where it writes one.
pub open spec fn i64_value(s: Seq<char>) -> Option<int> {
    match integer_value(s, true) {
        Some(n) => if i64::MIN <= n <= i64::MAX {
            Some(n)
        } else {
            None
        },
        None => None,
    }
}

/// The `u16` that a text writes, where it writes one.
pub open spec fn u16_value(s: Seq<char>) -> Option<int> {
    match integer_value(s, false) {
        Some(n) => if n <= u16::MAX {
            Some(n)
        } else {
            None
        },
        None => None,
    }
}

/// More digits never make a smaller number.
proof fn lemma_digits_grow(s: Seq<char>, i: int)
    requires
        0 <= i <= s.len(),
        forall|k: int| 0 <= k < s.len() ==> is_digit(#[trigger] s[k]),
    ensures
        0 <= digits_value(s.take(i)) <= digits_value(s),
    decreases s.len(),
{
    if i == s.len() {
        assert(s.take(i) =~= s);
        if i > 0 {
            let front = s.drop_last();
            assert forall|k: int| 0 <= k < front.len() implies is_digit(#[trigger] front[k]) by {
                assert(front[k] == s[k]);
            }
            lemma_digits_grow(front, i - 1);
            assert(is_digit(s[i - 1]));
        }
    } else {
        let front = s.drop_last();
        assert forall|k: int| 0 <= k < front.len() implies is_digit(#[trigger] front[k]) by {
            assert(front[k] == s[k]);
        }
        lemma_digits_grow(front, i);
        assert(front.take(i) =~= s.take(i));
        assert(is_digit(s[s.len() - 1]));
    }
}

/// The number that the characters from `from` on write, where they are digits
/// and the number is no larger than 2 to the power of 63.
fn read_digits(s: &Vec<char>, from: usize) -> (r: Option<u64>)
    requires
        from <= s@.len(),
    ensures
        match r {
            Some(n) => is_digits(s@.skip(from as int)) && digits_value(s@.skip(from as int)) == n
                && n <= 0x8000_0000_0000_0000,
            None => is_digits(s@.skip(from as int)) ==> digits_value(s@.skip(from as int))
                > 0x8000_0000_0000_0000,
        },
{
    let ghost digits = s@.skip(from as int);
    if from == s.len() {
        return None;
    }
    let mut value: u128 = 0;
    let mut i: usize = from;
    proof {
        assert(digits.take(0) =~= Seq::<char>::empty());
    }
    while i < s.len()
        invariant
            from <= i <= s@.len(),
            digits == s@.skip(from as int),
            forall|k: int| 0 <= k < i - from ==> is_digit(#[trigger] digits[k]),
            value == digits_value(digits.take(i - from)),
            value <= 0x8000_0000_0000_0000,
        decreases s@.len() - i,
    {
        let c: char = s[i];
        proof {
            assert(digits[i - from] == c);
            assert(digits.take(i - from + 1).drop_last() =~= digits.take(i - from));
            assert(digits.take(i - from + 1).last() == c);
        }
        if !('0' <= c && c <= '9') {
            return None;
        }
        value = value * 10 + (c as u32 - '0' as u32) as u128;
        if value > 0x8000_0000_0000_0000 {
            proof {
                if is_digits(digits) {
                    lemma_digits_grow(digits, i - from + 1);
                }
            }
            return None;
        }
        i += 1;
    }
    proof {
        assert(digits.take(digits.len() as int) =~= digits);
    }
    Some(value as u64)
}

/// The `i64` that a text writes, where it writes one.
pub fn parse_i64(text: &str) -> (r: Option<i64>)
    ensures
        match r {
            Some(n) => i64_value(text@) == Some(n as int),
            None => i64_value(text@) is None,
        },
{
    let s = chars_of(text);
    proof {
        assert(s@.skip(0) =~= s@);
        if s@.len() > 0 {
            assert(s@.skip(1) =~= s@.drop_first());
        }
    }
    if s.len() == 0 {
        return None;
    }
    let negative: bool = s[0] == '-';
    let from: usize = if negative || s[0] == '+' {
        1
    } else {
        0
    };
    proof {
        if from == 1 {
            assert(!is_digit(s@[0]));
        }
    }
    match read_digits(&s, from) {
        Some(n) => if negative {
            Some((-(n as i128)) as i64)
        } else if n <= 0x7FFF_FFFF_FFFF_FFFF {
            Some(n as i64)
        } else {
            None
        },
        None => None,
    }
}

/// What `ParseIntError` says of a text that is no `u16`.
pub uninterp spec fn u16_error(s: Seq<char>) -> Seq<char>;

/// `str::parse::<u16>`: "an optional + sign followed by only digits", and a
/// value in range. The words of the error are named [`u16_error`].
#[verifier::external_body]
pub(crate) fn parse_u16(text: &str) -> (r: Result<u16, String>)
    ensures
        match r {
            Ok(n) => u16_value(text@) == Some(n as int),
            Err(message) => u16_value(text@) is None && message@ == u16_error(text@),
        },
{
    match text.parse::<u16>() {
        Ok(n) => Ok(n),
        Err(e) => Err(e.to_string()),
    }
}

/// The digit `d` as text.
fn digit_text(d: u64) -> (r: &'static str)
    requires
        d < 10,
    ensures
        r@ == seq![digit_char(d as int)],
{
    proof {
        reveal_strlit("0");
        reveal_strlit("1");
        reveal_strlit("2");
        reveal_strlit("3");
        reveal_strlit("4");
        reveal_strlit("5");
        reveal_strlit("6");
        reveal_strlit("7");
        reveal_strlit("8");
        reveal_strlit("9");
    }
    let r = if d == 0 {
        "0"
    } else if d == 1 {
        "1"
    } else if d == 2 {
        "2"
    } else if d == 3 {
        "3"
    } else if d == 4 {
        "4"
    } else if d == 5 {
        "5"
    } else if d == 6 {
        "6"
    } else if d == 7 {
        "7"
    } else if d == 8 {
        "8"
    } else {
        "9"
    };
    assert(r@ =~= seq![digit_char(d as int)]);
    r
}

/// Writes a natural number in decimal.
fn write_digits(n: u64) -> (r: String)
    ensures
        r@ == digits_of(n as nat),
    decreases n,
{
    if n < 10 {
        digit_text(n).to_owned()
    } else {
        let mut out = write_digits(n / 10);
        out.append(digit_text(n % 10));
        assert(out@ =~= digits_of((n / 10) as nat).push(digit_char((n % 10) as int)));
        out
    }
}

/// Writes an integer in decimal.
pub fn write_i64(n: i64) -> (r: String)
    ensures
        r@ == integer_text(n as int),
{
    if n < 0 {
        let magnitude: u64 = (-(n as i128)) as u64;
        let mut out = "-".to_owned();
        proof {
            reveal_strlit("-");
            assert(out@ =~= seq!['-']);
        }
        out.append(write_digits(magnitude).as_str());
        out
    } else {
        write_digits(n as u64)
    }
}

/// The digits of a number are digits and write that number.
proof fn digits_write_their_number(n: nat)
    ensures
        is_digits(digits_of(n)),
        digits_value(digits_of(n)) == n,
    decreases n,
{
    if n < 10 {
        let s = digits_of(n);
        assert(s.drop_last() =~= Seq::<char>::empty());
        assert(digits_value(s.drop_last()) == 0);
        assert(digit_value(s.last()) == n);
    } else {
        digits_write_their_number(n / 10);
        let s = digits_of(n);
        assert(s.drop_last() =~= digits_of(n / 10));
        assert(digit_value(s.last()) == n % 10);
        assert(n == (n / 10) * 10 + n % 10);
        assert forall|i: int| 0 <= i < s.len() implies is_digit(#[trigger] s[i]) by {
            if i < s.len() - 1 {
                assert(s[i] == digits_of(n / 10)[i]);
            }
        }
    }
}

/// An `i64` that is written in decimal reads back as itself.
pub proof fn written_integers_read_back(n: i64)
    ensures
        i64_value(integer_text(n as int)) == Some(n as int),
{
    if n < 0 {
        let magnitude = (-(n as int)) as nat;
        digits_write_their_number(magnitude);
        let s = integer_text(n as int);
        assert(s.drop_first() =~= digits_of(magnitude));
        assert(s[0] == '-');
        assert(!is_digit(s[0]));
    } else {
        digits_write_their_number(n as nat);
    }
}

// ---------------------------------------------------------------------------
// Laws
// ---------------------------------------------------------------------------

/// Digits without a leading zero are those of the number that they write.
pub proof fn digits_are_those_of_their_number(s: Seq<char>)
    requires
        s.len() > 0,
        forall|i: int| 0 <= i < s.len() ==> '0' <= #[trigger] s[i] <= '9',
        s.len() > 1 ==> s[0] != '0',
    ensures
        digits_value(s) >= 0,
        s[0] != '0' ==> digits_value(s) > 0,
        digits_of(digits_value(s) as nat) == s,
    decreases s.len(),
{
    let front = s.drop_last();
    assert('0' <= s[s.len() - 1] <= '9');
    if s.len() == 1 {
        assert(front =~= Seq::<char>::empty());
        assert(digits_value(front) == 0);
        assert(digits_of(digits_value(s) as nat) =~= s);
    } else {
        assert forall|i: int| 0 <= i < front.len() implies '0' <= #[trigger] front[i] <= '9' by {
            assert('0' <= s[i] <= '9');
        }
        digits_are_those_of_their_number(front);
        let v = digits_value(front);
        let d = digit_value(s.last());
        assert(digits_value(s) == v * 10 + d);
        assert((v * 10 + d) / 10 == v && (v * 10 + d) % 10 == d);
        assert(digits_of(digits_value(s) as nat) =~= digits_of(v as nat).push(digit_char(d)));
        assert(digit_char(d) == s.last());
        assert(front.push(s.last()) =~= s);
    }
}

/// A number is written with a digit other than zero first, unless it has one
/// digit.
pub proof fn lemma_no_leading_zero(n: nat)
    ensures
        '0' <= digits_of(n)[0] <= '9',
        n > 0 ==> digits_of(n)[0] != '0',
        digits_of(n).len() > 0,
        digits_of(n).len() > 1 ==> n > 0,
    decreases n,
{
    if n >= 10 {
        lemma_no_leading_zero(n / 10);
    }
}

/// A leading zero does not count.
pub proof fn leading_zeros_do_not_count(s: Seq<char>)
    ensures
        digits_value(seq!['0'] + s) == digits_value(s),
    decreases s.len(),
{
    let zero = seq!['0'];
    if s.len() == 0 {
        assert((zero + s).drop_last() =~= Seq::<char>::empty());
        assert(digits_value((zero + s).drop_last()) == 0);
        assert((zero + s).last() == '0');
    } else {
        assert((zero + s).drop_last() =~= zero + s.drop_last());
        assert((zero + s).last() == s.last());
        leading_zeros_do_not_count(s.drop_last());
    }
}

/// Digits are read as their number, with a plus before them too, and as its
/// negative with a minus; but for numbers that are out of range.
pub proof fn integers_are_read_with_their_sign(digits: Seq<char>)
    requires
        digits.len() > 0,
        forall|i: int| 0 <= i < digits.len() ==> '0' <= #[trigger] digits[i] <= '9',
    ensures
        i64_value(digits) == if digits_value(digits) <= 9223372036854775807 {
            Some(digits_value(digits))
        } else {
            None
        },
        i64_value(seq!['+'] + digits) == i64_value(digits),
        i64_value(seq!['-'] + digits) == if digits_value(digits) <= 9223372036854775808 {
            Some(-digits_value(digits))
        } else {
            None
        },
{
    assert(digits.take(digits.len() as int) =~= digits);
    lemma_digits_grow(digits, digits.len() as int);
    let plus = seq!['+'] + digits;
    let minus = seq!['-'] + digits;
    assert(plus[0] == '+' && minus[0] == '-');
    assert(plus.drop_first() =~= digits);
    assert(minus.drop_first() =~= digits);
    assert(!is_digit(plus[0]) && !is_digit(minus[0]));
    assert(is_digits(digits));
}

/// What is anything but digits, with a sign before them or without, is no
/// integer.
pub proof fn other_texts_are_no_integers(s: Seq<char>, k: int)
    requires
        s.len() == 0 || (s.len() == 1 && k == 0 && !('0' <= s[0] <= '9')) || (0 < k < s.len() && !(
        '0' <= s[k] <= '9')) || (s.len() > 0 && k == 0 && !('0' <= s[0] <= '9') && s[0] != '+'
            && s[0] != '-'),
    ensures
        i64_value(s) is None,
{
    if s.len() > 0 {
        assert(!is_digit(s[k]));
        if k > 0 {
            assert(s.drop_first()[k - 1] == s[k]);
        }
    }
}

/// A natural number is written in digits, without a leading zero, that write it;
/// a negative one is written as its opposite after a minus.
pub proof fn integers_are_written_in_digits(n: int)
    ensures
        n >= 0 ==> {
            &&& integer_text(n).len() > 0
            &&& forall|i: int|
                0 <= i < integer_text(n).len() ==> '0' <= #[trigger] integer_text(n)[i] <= '9'
            &&& integer_text(n).len() > 1 ==> integer_text(n)[0] != '0'
            &&& digits_value(integer_text(n)) == n
        },
        n < 0 ==> integer_text(n) == seq!['-'] + integer_text(-n),
{
    if n >= 0 {
        digits_write_their_number(n as nat);
        lemma_no_leading_zero(n as nat);
        assert forall|i: int| 0 <= i < integer_text(n).len() implies '0' <= #[trigger] integer_text(
            n,
        )[i] <= '9' by {
            assert(is_digit(digits_of(n as nat)[i]));
        }
    }
}

} // verus!
