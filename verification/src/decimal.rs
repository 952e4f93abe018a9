//! Decimal text of unsigned 64-bit numbers: what a text denotes, what text a
//! number has, and the two conversions.

use crate::error::ParseDiagnostic;
use vstd::prelude::*;
use vstd::string::*;

verus! {

/// `c` is one of `0` to `9`.
pub open spec fn is_digit(c: char) -> bool {
    '0' <= c <= '9'
}

/// The number that the digit `c` stands for.
pub open spec fn digit_value(c: char) -> nat {
    (c as nat - '0' as nat) as nat
}

/// The digit that stands for `d`, for `d` below ten.
pub open spec fn digit_char(d: nat) -> char {
    ('0' as nat + d) as char
}

/// Every character of `s` is a digit.
pub open spec fn all_digits(s: Seq<char>) -> bool {
    forall|i: int| 0 <= i < s.len() ==> is_digit(#[trigger] s[i])
}

/// The number that a sequence of digits denotes, most significant first.
/// Leading zeros add nothing; the empty sequence denotes zero.
pub open spec fn decimal_value(s: Seq<char>) -> nat
    decreases s.len(),
{
    if s.len() == 0 {
        0
    } else {
        10 * decimal_value(s.drop_last()) + digit_value(s.last())
    }
}

/// The canonical text of `n`: its decimal digits, most significant first,
/// with no sign, separator or leading zero.
pub open spec fn decimal_text(n: nat) -> Seq<char>
    decreases n,
{
    if n < 10 {
        seq![digit_char(n)]
    } else {
        decimal_text(n / 10).push(digit_char(n % 10))
    }
}

/// What reading `s` as an unsigned 64-bit decimal number gives.
pub open spec fn parsed(s: Seq<char>) -> Result<u64, ParseDiagnostic> {
    if s.len() == 0 {
        Err(ParseDiagnostic::Empty)
    } else if !all_digits(s) {
        Err(ParseDiagnostic::InvalidDigit)
    } else if decimal_value(s) > u64::MAX {
        Err(ParseDiagnostic::Overflow)
    } else {
        Ok(decimal_value(s) as u64)
    }
}

/// Appending a digit multiplies the value by ten and adds the digit.
pub proof fn lemma_value_push(s: Seq<char>, c: char)
    ensures
        decimal_value(s.push(c)) == 10 * decimal_value(s) + digit_value(c),
{
    assert(s.push(c).drop_last() =~= s);
}

/// The canonical text of a number is made of digits, is not empty, and
/// denotes that number.
pub proof fn lemma_text_denotes(n: nat)
    ensures
        decimal_text(n).len() >= 1,
        all_digits(decimal_text(n)),
        decimal_value(decimal_text(n)) == n,
    decreases n,
{
    if n < 10 {
        let s = seq![digit_char(n)];
        assert(s.drop_last() =~= Seq::<char>::empty());
        assert(decimal_value(s.drop_last()) == 0);
    } else {
        lemma_text_denotes(n / 10);
        lemma_value_push(decimal_text(n / 10), digit_char(n % 10));
    }
}

/// The canonical text of a positive number does not start with `0`, and
/// that of zero is the single digit `0`.
pub proof fn lemma_text_canonical(n: nat)
    ensures
        decimal_text(n).len() >= 1,
        n > 0 ==> decimal_text(n)[0] != '0',
        n == 0 ==> decimal_text(n) =~= seq!['0'],
    decreases n,
{
    if n >= 10 {
        lemma_text_canonical(n / 10);
    }
}

/// Digits that do not start with `0` denote a positive number.
pub proof fn lemma_value_positive(s: Seq<char>)
    requires
        s.len() >= 1,
        all_digits(s),
        s[0] != '0',
    ensures
        decimal_value(s) > 0,
    decreases s.len(),
{
    if s.len() == 1 {
        assert(is_digit(s[0]));
        assert(s.drop_last() =~= Seq::<char>::empty());
        assert(decimal_value(s.drop_last()) == 0);
    } else {
        let init = s.drop_last();
        assert(init[0] == s[0]);
        assert forall|i: int| 0 <= i < init.len() implies is_digit(#[trigger] init[i]) by {
            assert(init[i] == s[i]);
        }
        lemma_value_positive(init);
    }
}

/// A number has one text without a leading zero: digits that are a single
/// character, or do not start with `0`, are the canonical text of the number
/// they denote.
pub proof fn lemma_text_unique(s: Seq<char>)
    requires
        s.len() >= 1,
        all_digits(s),
        s.len() > 1 ==> s[0] != '0',
    ensures
        decimal_text(decimal_value(s)) == s,
    decreases s.len(),
{
    let init = s.drop_last();
    let last = s.last();
    assert(is_digit(last));
    assert(digit_char(digit_value(last)) == last);
    if s.len() == 1 {
        assert(init =~= Seq::<char>::empty());
        assert(decimal_value(init) == 0);
        assert(decimal_text(decimal_value(s)) =~= s);
    } else {
        assert(init[0] == s[0]);
        assert forall|i: int| 0 <= i < init.len() implies is_digit(#[trigger] init[i]) by {
            assert(init[i] == s[i]);
        }
        lemma_value_positive(init);
        lemma_text_unique(init);
        let n = decimal_value(s);
        assert(n == 10 * decimal_value(init) + digit_value(last));
        assert(n / 10 == decimal_value(init) && n % 10 == digit_value(last));
        assert(decimal_text(n) =~= init.push(last));
        assert(init.push(last) =~= s);
    }
}

/// Reading the canonical text of a 64-bit number gives the number back.
pub proof fn lemma_parse_format(v: u64)
    ensures
        parsed(decimal_text(v as nat)) == Ok::<u64, ParseDiagnostic>(v),
{
    lemma_text_denotes(v as nat);
}

/// A text with a character outside ASCII holds a character that is no digit.
proof fn lemma_digits_are_ascii(s: Seq<char>)
    requires
        all_digits(s),
    ensures
        vstd::utf8::is_ascii_chars(s),
{
    assert forall|i: int| 0 <= i < s.len() implies '\0' <= #[trigger] s[i] <= '\u{7f}' by {
        assert(is_digit(s[i]));
    }
}

/// Reads `text` as an unsigned 64-bit decimal number.
///
/// The text must be one or more of the digits `0` to `9` and nothing else:
/// no sign, no blank. Leading zeros are read and add nothing.
pub fn parse_u64(text: &str) -> (r: Result<u64, ParseDiagnostic>)
    ensures
        r == parsed(text@),
{
    if text.is_empty() {
        return Err(ParseDiagnostic::Empty);
    }
    if !text.is_ascii() {
        proof {
            if all_digits(text@) {
                lemma_digits_are_ascii(text@);
            }
        }
        return Err(ParseDiagnostic::InvalidDigit);
    }
    let bytes = text.as_bytes();
    let ghost s = text@;
    proof {
        is_ascii_spec_bytes(text);
        assert forall|k: int| 0 <= k < s.len() implies s[k] as int == #[trigger] bytes@[k] by {
            assert('\0' <= s[k] <= '\u{7f}');
            assert(bytes@[k] == s[k] as u8);
        }
    }
    let n: usize = bytes.len();
    let mut acc: u64 = 0;
    let mut overflow: bool = false;
    let mut i: usize = 0;
    while i < n
        invariant
            s == text@,
            n == s.len(),
            bytes@.len() == n,
            forall|k: int| 0 <= k < n ==> s[k] as int == #[trigger] bytes@[k],
            0 <= i <= n,
            all_digits(s.take(i as int)),
            !overflow ==> acc == decimal_value(s.take(i as int)),
            overflow ==> decimal_value(s.take(i as int)) > u64::MAX,
        decreases n - i,
    {
        let b: u8 = bytes[i];
        if b < 48 || b > 57 {
            proof {
                assert(!is_digit(s[i as int]));
            }
            return Err(ParseDiagnostic::InvalidDigit);
        }
        let d: u64 = (b - 48) as u64;
        proof {
            assert(is_digit(s[i as int]));
            assert(digit_value(s[i as int]) == d);
            assert(s.take(i + 1) =~= s.take(i as int).push(s[i as int]));
            lemma_value_push(s.take(i as int), s[i as int]);
            assert forall|k: int| 0 <= k < s.take(i + 1).len() implies is_digit(
                #[trigger] s.take(i + 1)[k],
            ) by {
                if k < i {
                    assert(s.take(i + 1)[k] == s.take(i as int)[k]);
                }
            }
        }
        if !overflow {
            if acc > (u64::MAX - d) / 10 {
                overflow = true;
            } else {
                acc = acc * 10 + d;
            }
        }
        i = i + 1;
    }
    proof {
        assert(s.take(n as int) =~= s);
    }
    if overflow {
        Err(ParseDiagnostic::Overflow)
    } else {
        Ok(acc)
    }
}

/// The one-character text of a digit.
fn digit_text(d: u64) -> (r: &'static str)
    requires
        d < 10,
    ensures
        r@ == seq![digit_char(d as nat)],
{
    proof {
        reveal_strlit("0");
        reveal_strlit("1");
        reveal_strlit("2");
        reveal_strlit("3");
        reveal_strlit("4");
        reveal_strlit("5");
        reveal_strlit("6");
        reveal_strlit("7");
        reveal_strlit("8");
        reveal_strlit("9");
    }
    let r = match d {
        0 => "0",
        1 => "1",
        2 => "2",
        3 => "3",
        4 => "4",
        5 => "5",
        6 => "6",
        7 => "7",
        8 => "8",
        _ => "9",
    };
    assert(r@ =~= seq![digit_char(d as nat)]);
    r
}

/// Appends the canonical text of `v` to `out`.
fn push_decimal(out: &mut String, v: u64)
    ensures
        final(out)@ == old(out)@ + decimal_text(v as nat),
    decreases v,
{
    if v >= 10 {
        push_decimal(out, v / 10);
    }
    out.append(digit_text(v % 10));
    proof {
        let lo = seq![digit_char((v % 10) as nat)];
        if v >= 10 {
            let hi = decimal_text((v / 10) as nat);
            assert(decimal_text(v as nat) =~= hi + lo);
            assert(final(out)@ =~= old(out)@ + decimal_text(v as nat));
        } else {
            assert(decimal_text(v as nat) =~= lo);
        }
    }
}

/// The canonical decimal text of `v`.
pub fn format_u64(v: u64) -> (text: String)
    ensures
        text@ == decimal_text(v as nat),
{
    let mut text = String::new();
    push_decimal(&mut text, v);
    assert(text@ =~= decimal_text(v as nat));
    text
}

} // verus!
