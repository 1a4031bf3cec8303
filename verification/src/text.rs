//! Small text utilities shared by the analysis engines and the command parser.

use vstd::prelude::*;
use vstd::string::is_ascii_spec_bytes;
use vstd::utf8::decode_utf8;
use vstd::utf8::valid_utf8;

verus! {

/// Equality of two string slices.
///
/// Trusted: this is `str`'s `==`, which holds exactly when both slices hold the same characters.
#[verifier::external_body]
pub(crate) fn str_eq(a: &str, b: &str) -> (same: bool)
    ensures
        same == (a@ == b@),
{
    a == b
}

/// Whether `c` is one of the ten decimal digits.
pub open spec fn is_digit(c: char) -> bool {
    '0' <= c <= '9'
}

/// Whether `s` is made of decimal digits only.
pub open spec fn all_digits(s: Seq<char>) -> bool {
    forall|i: int| 0 <= i < s.len() ==> is_digit(#[trigger] s[i])
}

/// The number that the digit string `s` writes in base ten.
pub open spec fn decimal_value(s: Seq<char>) -> nat
    decreases s.len(),
{
    if s.len() == 0 {
        0
    } else {
        decimal_value(s.drop_last()) * 10 + (s.last() as nat - '0' as nat) as nat
    }
}

/// `s` without the plus sign that may lead a number.
pub open spec fn unsigned_digits(s: Seq<char>) -> Seq<char> {
    if s.len() > 0 && s[0] == '+' {
        s.skip(1)
    } else {
        s
    }
}

/// The number that `s` writes, if `s` is a decimal number no greater than `max`: an optional
/// plus sign, then at least one digit and nothing else.
pub open spec fn spec_parse_unsigned(s: Seq<char>, max: nat) -> Option<nat> {
    let digits = unsigned_digits(s);
    if digits.len() > 0 && all_digits(digits) && decimal_value(digits) <= max {
        Some(decimal_value(digits))
    } else {
        None
    }
}

/// A digit string writes a number no smaller than any of its prefixes does.
pub proof fn lemma_decimal_value_grows(s: Seq<char>, n: int)
    requires
        0 <= n <= s.len(),
        all_digits(s),
    ensures
        decimal_value(s.take(n)) <= decimal_value(s),
    decreases s.len() - n,
{
    if n < s.len() {
        lemma_decimal_value_grows(s, n + 1);
        assert(s.take(n + 1).drop_last() =~= s.take(n));
        assert(is_digit(s[n]));
    } else {
        assert(s.take(n) =~= s);
    }
}

/// Reads `s` as a decimal number no greater than `max`.
pub fn parse_unsigned(s: &str, max: u64) -> (number: Option<u64>)
    ensures
        number == (match spec_parse_unsigned(s@, max as nat) {
            Some(n) => Some(n as u64),
            None => None,
        }),
{
    broadcast use is_ascii_spec_bytes;

    if !s.is_ascii() {
        proof {
            let digits = unsigned_digits(s@);
            if all_digits(digits) {
                assert forall|i: int| 0 <= i < s@.len() implies '\0' <= #[trigger] s@[i]
                    <= '\u{7f}' by {
                    if digits.len() == s@.len() {
                        assert(is_digit(digits[i]));
                    } else if i > 0 {
                        assert(is_digit(digits[i - 1]));
                    }
                }
            }
        }
        return None;
    }
    let bytes = s.as_bytes();
    let start: usize = if bytes.len() > 0 && bytes[0] == 43 {
        1
    } else {
        0
    };
    let ghost digits = unsigned_digits(s@);
    assert(digits.len() == bytes@.len() - start);
    assert(forall|i: int| 0 <= i < digits.len() ==> digits[i] as u8 == bytes@[i + start]);
    if start == bytes.len() {
        return None;
    }
    let mut value: u64 = 0;
    let mut i: usize = start;
    while i < bytes.len()
        invariant
            start <= i <= bytes.len(),
            digits == unsigned_digits(s@),
            digits.len() > 0,
            digits.len() == bytes@.len() - start,
            forall|k: int| 0 <= k < digits.len() ==> digits[k] as u8 == bytes@[k + start],
            forall|k: int| 0 <= k < digits.len() ==> '\0' <= #[trigger] digits[k] <= '\u{7f}',
            all_digits(digits.take(i - start)),
            value == decimal_value(digits.take(i - start)),
            value <= max,
        decreases bytes.len() - i,
    {
        let b = bytes[i];
        let ghost c = digits[i - start];
        assert('\0' <= c <= '\u{7f}');
        assert(c as u8 == b);
        if b < 48 || b > 57 {
            proof {
                if all_digits(digits) {
                    assert(is_digit(digits[i - start]));
                }
            }
            return None;
        }
        assert(is_digit(c));
        let d: u64 = (b - 48) as u64;
        proof {
            assert(digits.take(i - start + 1).drop_last() =~= digits.take(i - start));
            assert(digits.take(i - start + 1).last() == c);
            assert forall|k: int| 0 <= k < i - start + 1 implies is_digit(
                #[trigger] digits.take(i - start + 1)[k],
            ) by {
                if k < i - start {
                    assert(digits.take(i - start)[k] == digits[k]);
                }
            }
        }
        if d > max || value > (max - d) / 10 {
            proof {
                assert(decimal_value(digits.take(i - start + 1)) > max) by (nonlinear_arith)
                    requires
                        decimal_value(digits.take(i - start + 1)) == value * 10 + d,
                        d > max || value > (max - d) / 10,
                        d <= 9,
                ;
                if all_digits(digits) {
                    lemma_decimal_value_grows(digits, i - start + 1);
                }
            }
            return None;
        }
        assert(value * 10 + d <= max) by (nonlinear_arith)
            requires
                value <= (max - d) / 10,
                d <= max,
        ;
        value = value * 10 + d;
        i += 1;
    }
    assert(digits.take(i - start) =~= digits);
    Some(value)
}

/// Reads `s` as a decimal number that fits 32 bits.
pub fn parse_u32(s: &str) -> (number: Option<u32>)
    ensures
        number == (match spec_parse_unsigned(s@, u32::MAX as nat) {
            Some(n) => Some(n as u32),
            None => None,
        }),
{
    match parse_unsigned(s, u32::MAX as u64) {
        Some(n) => Some(n as u32),
        None => None,
    }
}

/// Reads `s` as a decimal number that fits the machine word.
pub fn parse_usize(s: &str) -> (number: Option<usize>)
    ensures
        number == (match spec_parse_unsigned(s@, usize::MAX as nat) {
            Some(n) => Some(n as usize),
            None => None,
        }),
{
    match parse_unsigned(s, usize::MAX as u64) {
        Some(n) => Some(n as usize),
        None => None,
    }
}

/// The truth value that `s` writes: `true` or `false`, in exactly these letters.
pub open spec fn spec_parse_bool(s: Seq<char>) -> Option<bool> {
    if s == "true"@ {
        Some(true)
    } else if s == "false"@ {
        Some(false)
    } else {
        None
    }
}

/// Reads `s` as a truth value.
pub fn parse_bool(s: &str) -> (value: Option<bool>)
    ensures
        value == spec_parse_bool(s@),
{
    if str_eq(s, "true") {
        Some(true)
    } else if str_eq(s, "false") {
        Some(false)
    } else {
        None
    }
}

/// The position of the first occurrence of `c` in `s`.
pub open spec fn first_occurrence(s: Seq<char>, c: char) -> Option<int>
    decreases s.len(),
{
    if s.len() == 0 {
        None
    } else if s[0] == c {
        Some(0)
    } else {
        match first_occurrence(s.skip(1), c) {
            Some(i) => Some(i + 1),
            None => None,
        }
    }
}

/// Splits `s` at its first space into what stands before and what stands after it.
///
/// Trusted: calls `str::split_once`, which cuts at the first occurrence of the delimiter and
/// drops it, and which finds nothing exactly when the delimiter does not occur.
#[verifier::external_body]
pub(crate) fn split_at_space(s: &str) -> (parts: Option<(&str, &str)>)
    ensures
        match (parts, first_occurrence(s@, ' ')) {
            (Some((head, tail)), Some(i)) => head@ == s@.take(i) && tail@ == s@.skip(i + 1),
            (None, None) => true,
            _ => false,
        },
{
    s.split_once(' ')
}

/// Reads `bytes` as UTF-8 text.
///
/// Trusted: calls `std::str::from_utf8`, which accepts exactly the well-formed UTF-8
/// sequences and then hands back the same bytes as text.
#[verifier::external_body]
pub(crate) fn utf8_text(bytes: &[u8]) -> (text: Option<&str>)
    ensures
        text is Some <==> valid_utf8(bytes@),
        text matches Some(t) ==> t@ == decode_utf8(bytes@),
{
    match std::str::from_utf8(bytes) {
        Ok(text) => Some(text),
        Err(_) => None,
    }
}

/// `s` without the NUL characters at its end.
pub open spec fn without_trailing_nuls(s: Seq<char>) -> Seq<char>
    decreases s.len(),
{
    if s.len() > 0 && s.last() == '\0' {
        without_trailing_nuls(s.drop_last())
    } else {
        s
    }
}

/// Drops the NUL characters at the end of `s`.
///
/// Trusted: calls `str::trim_end_matches` with the NUL character, which removes every
/// occurrence of it from the end and nothing else.
#[verifier::external_body]
pub(crate) fn trim_trailing_nuls(s: &str) -> (trimmed: &str)
    ensures
        trimmed@ == without_trailing_nuls(s@),
{
    s.trim_end_matches('\0')
}

/// The character that writes the digit `d`.
pub open spec fn digit_char(d: nat) -> char {
    if d == 0 {
        '0'
    } else if d == 1 {
        '1'
    } else if d == 2 {
        '2'
    } else if d == 3 {
        '3'
    } else if d == 4 {
        '4'
    } else if d == 5 {
        '5'
    } else if d == 6 {
        '6'
    } else if d == 7 {
        '7'
    } else if d == 8 {
        '8'
    } else {
        '9'
    }
}

/// The digits that write `n` in base ten, without leading zeros.
pub open spec fn decimal_digits(n: nat) -> Seq<char>
    decreases n,
{
    if n < 10 {
        seq![digit_char(n)]
    } else {
        decimal_digits(n / 10).push(digit_char(n % 10))
    }
}

/// The digits that write `n` in base ten, with a leading zero where `n` has one digit only.
pub open spec fn two_digits(n: nat) -> Seq<char> {
    if n < 10 {
        seq!['0', digit_char(n)]
    } else {
        decimal_digits(n)
    }
}

/// The character of a digit is a digit, and stands as far behind `0` as the digit says.
pub proof fn lemma_digit_char(d: nat)
    requires
        d < 10,
    ensures
        is_digit(digit_char(d)),
        digit_char(d) as nat - '0' as nat == d,
{
}

/// Reading the digits that write a number gives the number back.
pub proof fn lemma_decimal_roundtrip(n: nat, max: nat)
    requires
        n <= max,
    ensures
        all_digits(decimal_digits(n)),
        decimal_value(decimal_digits(n)) == n,
        spec_parse_unsigned(decimal_digits(n), max) == Some(n),
    decreases n,
{
    lemma_digit_char(n % 10);
    if n >= 10 {
        lemma_decimal_roundtrip(n / 10, max);
        let front = decimal_digits(n / 10);
        let digits = decimal_digits(n);
        assert(digits.drop_last() =~= front);
        assert(digits.last() == digit_char(n % 10));
        assert forall|i: int| 0 <= i < digits.len() implies is_digit(#[trigger] digits[i]) by {
            if i < front.len() {
                assert(is_digit(front[i]));
            }
        }
    } else {
        let digits = decimal_digits(n);
        assert(digits.drop_last() =~= Seq::<char>::empty());
        assert(digits.last() == digit_char(n));
        assert(decimal_value(digits.drop_last()) == 0);
    }
    let digits = decimal_digits(n);
    assert(digits[0] != '+') by {
        assert(is_digit(digits[0]));
    }
}

/// The text that writes the digit `d`.
fn digit_text(d: u64) -> (text: &'static str)
    requires
        d < 10,
    ensures
        text@ == seq![digit_char(d as nat)],
{
    proof {
        reveal_strlit("0");
        reveal_strlit("1");
        reveal_strlit("2");
        reveal_strlit("3");
        reveal_strlit("4");
        reveal_strlit("5");
        reveal_strlit("6");
        reveal_strlit("7");
        reveal_strlit("8");
        reveal_strlit("9");
    }
    let text = if d == 0 {
        "0"
    } else if d == 1 {
        "1"
    } else if d == 2 {
        "2"
    } else if d == 3 {
        "3"
    } else if d == 4 {
        "4"
    } else if d == 5 {
        "5"
    } else if d == 6 {
        "6"
    } else if d == 7 {
        "7"
    } else if d == 8 {
        "8"
    } else {
        "9"
    };
    assert(text@ =~= seq![digit_char(d as nat)]);
    text
}

/// Writes `n` in base ten.
pub fn decimal(n: u64) -> (text: String)
    ensures
        text@ == decimal_digits(n as nat),
    decreases n,
{
    if n < 10 {
        digit_text(n).to_owned()
    } else {
        let mut text = decimal(n / 10);
        text.append(digit_text(n % 10));
        text
    }
}

/// Writes `n` in base ten, with two digits at least.
pub fn decimal_two_digits(n: u64) -> (text: String)
    ensures
        text@ == two_digits(n as nat),
{
    if n < 10 {
        let mut text = "0".to_owned();
        text.append(digit_text(n));
        proof {
            reveal_strlit("0");
            assert(text@ =~= seq!['0', digit_char(n as nat)]);
        }
        text
    } else {
        decimal(n)
    }
}

} // verus!
