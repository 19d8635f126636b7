//! The plain textual form of scalar values: what text denotes which value, and
//! how a value is written.

use vstd::prelude::*;

verus! {

/// Whether `c` is one of the ten decimal digits.
pub open spec fn is_digit(c: char) -> bool {
    '0' <= c && c <= '9'
}

/// Whether `s` is made of decimal digits only (the empty sequence included).
pub open spec fn all_digits(s: Seq<char>) -> bool {
    forall|i: int| 0 <= i < s.len() ==> is_digit(#[trigger] s[i])
}

/// The number that a sequence of decimal digits denotes, most significant first.
pub open spec fn digits_value(s: Seq<char>) -> nat
    decreases s.len(),
{
    if s.len() == 0 {
        0
    } else {
        (digits_value(s.drop_last()) * 10 + (s.last() as int - '0' as int)) as nat
    }
}

/// The decimal digits of `n`, without leading zeros; `"0"` for zero.
pub open spec fn decimal(n: nat) -> Seq<char>
    decreases n,
{
    if n < 10 {
        seq![('0' as int + n) as char]
    } else {
        decimal(n / 10).push(('0' as int + n % 10) as char)
    }
}

/// The number an optionally signed decimal numeral denotes, if `s` is one: an
/// optional `+` (or `-`, where `signed`) followed by at least one digit and nothing
/// else.
pub open spec fn numeral_value(s: Seq<char>, signed: bool) -> Option<int> {
    if s.len() > 0 && s[0] == '+' {
        if s.len() > 1 && all_digits(s.skip(1)) {
            Some(digits_value(s.skip(1)) as int)
        } else {
            None
        }
    } else if signed && s.len() > 0 && s[0] == '-' {
        if s.len() > 1 && all_digits(s.skip(1)) {
            Some(-(digits_value(s.skip(1)) as int))
        } else {
            None
        }
    } else if s.len() > 0 && all_digits(s) {
        Some(digits_value(s) as int)
    } else {
        None
    }
}

/// The `u32` that `s` denotes in plain text, if any.
pub open spec fn parse_u32(s: Seq<char>) -> Option<u32> {
    match numeral_value(s, false) {
        Some(n) if n <= u32::MAX => Some(n as u32),
        _ => None,
    }
}

/// The `i64` that `s` denotes in plain text, if any.
pub open spec fn parse_i64(s: Seq<char>) -> Option<i64> {
    match numeral_value(s, true) {
        Some(n) if i64::MIN <= n <= i64::MAX => Some(n as i64),
        _ => None,
    }
}

/// The `bool` that `s` denotes in plain text, if any.
pub open spec fn parse_bool(s: Seq<char>) -> Option<bool> {
    if s == "true"@ {
        Some(true)
    } else if s == "false"@ {
        Some(false)
    } else {
        None
    }
}

/// The plain text of a `u32`.
pub open spec fn render_u32(n: u32) -> Seq<char> {
    decimal(n as nat)
}

/// The plain text of an `i64`: a minus sign before the digits of a negative number.
pub open spec fn render_i64(n: i64) -> Seq<char> {
    if n < 0 {
        seq!['-'] + decimal((-(n as int)) as nat)
    } else {
        decimal(n as nat)
    }
}

/// The plain text of a `bool`.
pub open spec fn render_bool(b: bool) -> Seq<char> {
    if b {
        "true"@
    } else {
        "false"@
    }
}

/// The diagnostic that the standard library gives for text that denotes no `u32`.
pub uninterp spec fn u32_diagnostic(s: Seq<char>) -> Seq<char>;

/// The diagnostic that the standard library gives for text that denotes no `i64`.
pub uninterp spec fn i64_diagnostic(s: Seq<char>) -> Seq<char>;

/// The diagnostic that the standard library gives for text that denotes no `bool`.
pub uninterp spec fn bool_diagnostic(s: Seq<char>) -> Seq<char>;

/// Calls the standard library's `FromStr` of `u32`. It accepts an optional `+`
/// followed by decimal digits whose number fits the type, and nothing else; for
/// other text it gives an error, whose message is handed on.
#[verifier::external_body]
pub(crate) fn u32_from_text(s: &str) -> (r: Result<u32, String>)
    ensures
        match r {
            Ok(n) => parse_u32(s@) == Some(n),
            Err(e) => parse_u32(s@).is_none() && e@ == u32_diagnostic(s@),
        },
{
    match s.parse::<u32>() {
        Ok(v) => Ok(v),
        Err(e) => Err(e.to_string()),
    }
}

/// Calls the standard library's `FromStr` of `i64`. It accepts an optional `+` or
/// `-` followed by decimal digits whose number fits the type, and nothing else; for
/// other text it gives an error, whose message is handed on.
#[verifier::external_body]
pub(crate) fn i64_from_text(s: &str) -> (r: Result<i64, String>)
    ensures
        match r {
            Ok(n) => parse_i64(s@) == Some(n),
            Err(e) => parse_i64(s@).is_none() && e@ == i64_diagnostic(s@),
        },
{
    match s.parse::<i64>() {
        Ok(v) => Ok(v),
        Err(e) => Err(e.to_string()),
    }
}

/// Calls the standard library's `FromStr` of `bool`. It accepts `true` and `false`
/// and nothing else; for other text it gives an error, whose message is handed on.
#[verifier::external_body]
pub(crate) fn bool_from_text(s: &str) -> (r: Result<bool, String>)
    ensures
        match r {
            Ok(b) => parse_bool(s@) == Some(b),
            Err(e) => parse_bool(s@).is_none() && e@ == bool_diagnostic(s@),
        },
{
    match s.parse::<bool>() {
        Ok(v) => Ok(v),
        Err(e) => Err(e.to_string()),
    }
}

/// Calls the standard library's `ToString` of `u32`, which writes the number in
/// decimal digits without sign or leading zeros.
#[verifier::external_body]
pub(crate) fn u32_to_text(n: u32) -> (r: String)
    ensures
        r@ == render_u32(n),
{
    n.to_string()
}

/// Calls the standard library's `ToString` of `i64`, which writes the number in
/// decimal digits without leading zeros, after a `-` where it is negative.
#[verifier::external_body]
pub(crate) fn i64_to_text(n: i64) -> (r: String)
    ensures
        r@ == render_i64(n),
{
    n.to_string()
}

/// Writes a `bool` as `true` or `false`.
pub(crate) fn bool_to_text(b: bool) -> (r: String)
    ensures
        r@ == render_bool(b),
{
    if b {
        "true".to_owned()
    } else {
        "false".to_owned()
    }
}

/// The decimal digits of a number are digits, at least one of them, and denote
/// that number.
pub proof fn lemma_decimal_denotes(n: nat)
    ensures
        decimal(n).len() > 0,
        all_digits(decimal(n)),
        digits_value(decimal(n)) == n,
    decreases n,
{
    if n < 10 {
        let s = decimal(n);
        assert(s.drop_last().len() == 0);
        assert(digits_value(s.drop_last()) == 0);
        assert(s.last() == ('0' as int + n) as char);
        assert(s.last() as int - '0' as int == n);
        assert(digits_value(s) == n);
    } else {
        lemma_decimal_denotes(n / 10);
        let p = decimal(n / 10);
        let s = decimal(n);
        assert(s.drop_last() =~= p);
        assert(s.last() == ('0' as int + n % 10) as char);
        assert(s.last() as int - '0' as int == n % 10);
        assert(digits_value(s) == n);
    }
}

/// Reading back what was written of a `u32` gives the same number.
pub proof fn lemma_u32_round_trip(n: u32)
    ensures
        parse_u32(render_u32(n)) == Some(n),
{
    lemma_decimal_denotes(n as nat);
}

/// Reading back what was written of an `i64` gives the same number.
pub proof fn lemma_i64_round_trip(n: i64)
    ensures
        parse_i64(render_i64(n)) == Some(n),
{
    if n < 0 {
        let d = decimal((-(n as int)) as nat);
        lemma_decimal_denotes((-(n as int)) as nat);
        let s = render_i64(n);
        assert(s.skip(1) =~= d);
        assert(s[0] == '-');
    } else {
        lemma_decimal_denotes(n as nat);
    }
}

/// Reading back what was written of a `bool` gives the same truth value.
pub proof fn lemma_bool_round_trip(b: bool)
    ensures
        parse_bool(render_bool(b)) == Some(b),
{
    reveal_strlit("true");
    reveal_strlit("false");
    assert("true"@.len() != "false"@.len());
}

} // verus!
