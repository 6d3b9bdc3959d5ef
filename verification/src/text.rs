//! Decimal numbers and small string operations, stated over `Seq<char>`.

use vstd::prelude::*;
use vstd::string::*;

verus! {

/// `c` is one of the ASCII digits `0` to `9`.
pub open spec fn is_digit(c: char) -> bool {
    48 <= c as u32 <= 57
}

/// The number that the ASCII digit `c` stands for.
pub open spec fn digit_value(c: char) -> nat
    recommends
        is_digit(c),
{
    (c as u32 - 48) as nat
}

/// Every character of `s` is an ASCII digit.
pub open spec fn all_digits(s: Seq<char>) -> bool {
    forall|i: int| 0 <= i < s.len() ==> is_digit(#[trigger] s[i])
}

/// The number written by the digits `s`, most significant digit first.
pub open spec fn decimal_value(s: Seq<char>) -> nat
    decreases s.len(),
{
    if s.len() == 0 {
        0
    } else {
        decimal_value(s.drop_last()) * 10 + digit_value(s.last())
    }
}

/// The digits of an unsigned literal: `s` without one leading `+`.
pub open spec fn unsigned_digits(s: Seq<char>) -> Seq<char> {
    if s.len() > 0 && s[0] == '+' {
        s.skip(1)
    } else {
        s
    }
}

/// What `s` denotes as an unsigned decimal literal no larger than `max`: an
/// optional `+`, then one or more ASCII digits and nothing else. Leading
/// zeros are accepted.
pub open spec fn parse_unsigned_spec(s: Seq<char>, max: nat) -> Option<nat> {
    let digits = unsigned_digits(s);
    if digits.len() > 0 && all_digits(digits) && decimal_value(digits) <= max {
        Some(decimal_value(digits))
    } else {
        None
    }
}

/// A longer run of digits never denotes a smaller number than its prefix.
pub proof fn lemma_decimal_value_prefix(s: Seq<char>, k: int)
    requires
        0 <= k <= s.len(),
    ensures
        decimal_value(s.take(k)) <= decimal_value(s),
    decreases s.len(),
{
    if k == s.len() {
        assert(s.take(k) =~= s);
    } else {
        lemma_decimal_value_prefix(s.drop_last(), k);
        assert(s.drop_last().take(k) =~= s.take(k));
    }
}

/// Reads an unsigned decimal literal that denotes at most `max`.
pub fn parse_unsigned(s: &str, max: u64) -> (result: Option<u64>)
    ensures
        (result == match parse_unsigned_spec(s@, max as nat) {
            Some(value) => Some(value as u64),
            None => None,
        }),
{
    let len: usize = s.unicode_len();
    let start: usize = if len > 0 && s.get_char(0) == '+' {
        1
    } else {
        0
    };
    if start == len {
        return None;
    }
    let ghost digits = unsigned_digits(s@);
    assert(digits =~= s@.skip(start as int));
    let mut value: u64 = 0;
    let mut i: usize = start;
    while i < len
        invariant
            start <= i <= len,
            len == s@.len(),
            digits == s@.skip(start as int),
            digits == unsigned_digits(s@),
            all_digits(digits.take(i - start)),
            value == decimal_value(digits.take(i - start)),
            value <= max,
        decreases len - i,
    {
        let c: char = s.get_char(i);
        let ghost k: int = i - start;
        assert(digits[k] == c);
        if c < '0' || c > '9' {
            assert(!is_digit(digits[k]));
            assert(!all_digits(digits));
            return None;
        }
        let digit: u64 = (c as u32 - 48) as u64;
        proof {
            assert(digits.take(k + 1).drop_last() =~= digits.take(k));
            assert(digits.take(k + 1).last() == c);
            assert(decimal_value(digits.take(k + 1)) == value * 10 + digit);
        }
        if digit > max || value > (max - digit) / 10 {
            proof {
                lemma_decimal_value_prefix(digits, k + 1);
            }
            return None;
        }
        value = value * 10 + digit;
        proof {
            assert forall|j: int| 0 <= j < k + 1 implies is_digit(
                #[trigger] digits.take(k + 1)[j],
            ) by {
                if j < k {
                    assert(digits.take(k)[j] == digits.take(k + 1)[j]);
                }
            }
        }
        i = i + 1;
    }
    assert(digits.take(len - start) =~= digits);
    Some(value)
}

/// The digits of an integer literal: `s` without one leading sign.
pub open spec fn integer_digits(s: Seq<char>) -> Seq<char> {
    if s.len() > 0 && (s[0] == '+' || s[0] == '-') {
        s.skip(1)
    } else {
        s
    }
}

/// `s` is a decimal integer literal: an optional `+` or `-`, then one or
/// more ASCII digits and nothing else. There is no limit to the number
/// of digits.
pub open spec fn is_integer(s: Seq<char>) -> bool {
    integer_digits(s).len() > 0 && all_digits(integer_digits(s))
}

/// The integer that the literal `s` denotes.
pub open spec fn integer_value(s: Seq<char>) -> int
    recommends
        is_integer(s),
{
    if s.len() > 0 && s[0] == '-' {
        -(decimal_value(integer_digits(s)) as int)
    } else {
        decimal_value(integer_digits(s)) as int
    }
}

/// What a text is, read as an integer that is to lie between zero and a
/// maximum.
#[derive(Clone, Copy, Debug, PartialEq, Eq, Structural)]
pub enum Reading {
    /// The text is no integer literal.
    NotANumber,
    /// The text denotes an integer below zero.
    Below,
    /// The text denotes this integer, which lies within the range.
    Within(u64),
    /// The text denotes an integer above the maximum.
    Above,
}

/// How `s` reads against the range from zero to `max`.
pub open spec fn read_integer_spec(s: Seq<char>, max: nat) -> Reading {
    if !is_integer(s) {
        Reading::NotANumber
    } else if integer_value(s) < 0 {
        Reading::Below
    } else if integer_value(s) > max {
        Reading::Above
    } else {
        Reading::Within(integer_value(s) as u64)
    }
}

/// Reads an integer literal of any length and places it against the
/// range from zero to `max`. A literal of too many digits for the machine
/// is still a number, and lies outside the range.
pub fn read_integer(s: &str, max: u64) -> (result: Reading)
    ensures
        result == read_integer_spec(s@, max as nat),
{
    let len: usize = s.unicode_len();
    let negative: bool = len > 0 && s.get_char(0) == '-';
    let start: usize = if len > 0 && (negative || s.get_char(0) == '+') {
        1
    } else {
        0
    };
    let ghost digits = integer_digits(s@);
    assert(digits =~= s@.skip(start as int));
    if start == len {
        return Reading::NotANumber;
    }
    let mut value: u64 = 0;
    let mut above: bool = false;
    let mut i: usize = start;
    while i < len
        invariant
            start <= i <= len,
            len == s@.len(),
            digits == s@.skip(start as int),
            digits == integer_digits(s@),
            all_digits(digits.take(i - start)),
            !above ==> value == decimal_value(digits.take(i - start)),
            above ==> decimal_value(digits.take(i - start)) > max,
            value <= max,
        decreases len - i,
    {
        let c: char = s.get_char(i);
        let ghost k: int = i - start;
        assert(digits[k] == c);
        if c < '0' || c > '9' {
            assert(!is_digit(digits[k]));
            assert(!all_digits(digits));
            return Reading::NotANumber;
        }
        let digit: u64 = (c as u32 - 48) as u64;
        proof {
            assert(digits.take(k + 1).drop_last() =~= digits.take(k));
            assert(digits.take(k + 1).last() == c);
            assert(decimal_value(digits.take(k + 1)) == decimal_value(digits.take(k)) * 10
                + digit);
            assert forall|j: int| 0 <= j < k + 1 implies is_digit(
                #[trigger] digits.take(k + 1)[j],
            ) by {
                if j < k {
                    assert(digits.take(k)[j] == digits.take(k + 1)[j]);
                }
            }
        }
        if !above {
            if digit > max || value > (max - digit) / 10 {
                above = true;
            } else {
                value = value * 10 + digit;
            }
        }
        i = i + 1;
    }
    assert(digits.take(len - start) =~= digits);
    if negative {
        if !above && value == 0 {
            Reading::Within(0)
        } else {
            Reading::Below
        }
    } else if above {
        Reading::Above
    } else {
        Reading::Within(value)
    }
}

/// The ASCII digit that stands for `d`.
pub open spec fn digit_char(d: nat) -> char
    recommends
        d < 10,
{
    (48 + d) as u8 as char
}

/// The decimal digits of `n`, most significant first, without leading zeros.
pub open spec fn decimal(n: nat) -> Seq<char>
    decreases n,
{
    if n < 10 {
        seq![digit_char(n)]
    } else {
        decimal(n / 10).push(digit_char(n % 10))
    }
}

/// The digits of a number are digits, and stand for that number.
pub proof fn lemma_decimal_digits(n: nat)
    ensures
        decimal(n).len() > 0,
        all_digits(decimal(n)),
        decimal_value(decimal(n)) == n,
    decreases n,
{
    if n < 10 {
        let s = decimal(n);
        assert(s.drop_last() =~= Seq::<char>::empty());
        assert(decimal_value(s.drop_last()) == 0);
    } else {
        lemma_decimal_digits(n / 10);
        let s = decimal(n);
        let t = decimal(n / 10);
        assert(s.drop_last() =~= t);
        assert(s.last() == digit_char(n % 10));
        assert forall|i: int| 0 <= i < s.len() implies is_digit(#[trigger] s[i]) by {
            if i < t.len() {
                assert(s[i] == t[i]);
            }
        }
    }
}

/// Reading what was written gives back the number written: the two
/// notations agree.
pub proof fn lemma_decimal_round_trip(n: nat, max: nat)
    requires
        n <= max,
    ensures
        parse_unsigned_spec(decimal(n), max) == Some(n),
{
    lemma_decimal_digits(n);
    let s = decimal(n);
    assert(is_digit(s[0]));
    assert(unsigned_digits(s) == s);
}

fn digit_str(d: u64) -> (result: &'static str)
    requires
        d < 10,
    ensures
        result@ == seq![digit_char(d as nat)],
{
    proof {
        reveal_strlit("0");
        reveal_strlit("1");
        reveal_strlit("2");
        reveal_strlit("3");
        reveal_strlit("4");
        reveal_strlit("5");
        reveal_strlit("6");
        reveal_strlit("7");
        reveal_strlit("8");
        reveal_strlit("9");
    }
    let result = if d == 0 {
        "0"
    } else if d == 1 {
        "1"
    } else if d == 2 {
        "2"
    } else if d == 3 {
        "3"
    } else if d == 4 {
        "4"
    } else if d == 5 {
        "5"
    } else if d == 6 {
        "6"
    } else if d == 7 {
        "7"
    } else if d == 8 {
        "8"
    } else {
        "9"
    };
    assert(result@ =~= seq![digit_char(d as nat)]);
    result
}

/// Appends the decimal digits of `n` to `out`.
pub fn append_decimal(out: &mut String, n: u64)
    ensures
        final(out)@ == old(out)@ + decimal(n as nat),
    decreases n,
{
    if n >= 10 {
        append_decimal(out, n / 10);
    }
    out.append(digit_str(n % 10));
    assert(out@ =~= old(out)@ + decimal(n as nat));
}

/// Writes `n` in decimal.
pub fn render_decimal(n: u64) -> (result: String)
    ensures
        result@ == decimal(n as nat),
{
    let mut out = String::new();
    append_decimal(&mut out, n);
    assert(out@ =~= decimal(n as nat));
    out
}

/// The first position at or after `from` at which `s` holds `c`, or the
/// length of `s` where there is none.
pub open spec fn position_from(s: Seq<char>, c: char, from: int) -> int
    decreases s.len() - from,
{
    if from < 0 || from >= s.len() {
        s.len() as int
    } else if s[from] == c {
        from
    } else {
        position_from(s, c, from + 1)
    }
}

/// The two parts of `s` around the first `delimiter`, which belongs to
/// neither; `None` where `s` holds no `delimiter`.
pub open spec fn split_once_spec(s: Seq<char>, delimiter: char) -> Option<(Seq<char>, Seq<char>)> {
    let at = position_from(s, delimiter, 0);
    if at < s.len() {
        Some((s.take(at), s.skip(at + 1)))
    } else {
        None
    }
}

/// Splits `s` at the first occurrence of `delimiter`.
pub fn split_once(s: &str, delimiter: char) -> (result: Option<(&str, &str)>)
    ensures
        (match result {
            Some((head, tail)) => split_once_spec(s@, delimiter) == Some((head@, tail@)),
            None => split_once_spec(s@, delimiter) is None,
        }),
{
    let len: usize = s.unicode_len();
    let mut i: usize = 0;
    while i < len
        invariant
            i <= len,
            len == s@.len(),
            position_from(s@, delimiter, 0) == position_from(s@, delimiter, i as int),
        decreases len - i,
    {
        if s.get_char(i) == delimiter {
            let head = s.substring_char(0, i);
            let tail = s.substring_char(i + 1, len);
            assert(head@ =~= s@.take(i as int));
            assert(tail@ =~= s@.skip(i + 1));
            return Some((head, tail));
        }
        i = i + 1;
    }
    None
}

/// Whether two strings hold the same characters.
pub fn same_text(a: &str, b: &str) -> (result: bool)
    ensures
        result == (a@ == b@),
{
    let len: usize = a.unicode_len();
    if len != b.unicode_len() {
        return false;
    }
    let mut i: usize = 0;
    while i < len
        invariant
            i <= len,
            len == a@.len(),
            len == b@.len(),
            forall|j: int| 0 <= j < i ==> a@[j] == b@[j],
        decreases len - i,
    {
        if a.get_char(i) != b.get_char(i) {
            return false;
        }
        i = i + 1;
    }
    assert(a@ =~= b@);
    true
}

} // verus!
