//! The calls into std and outside crates that the library makes, each with
//! the contract that the verified code relies on. Nothing here is proved:
//! each contract is taken from the called function's source or documentation.

use vstd::prelude::*;
use crate::state::Timestamp;

verus! {

/// `String::push`: appends one character to the end of the string.
#[verifier::external_body]
pub(crate) fn push_char(s: &mut String, c: char)
    ensures
        final(s)@ == old(s)@.push(c),
{
    s.push(c);
}

/// `chrono::Utc::now`, as its whole seconds since the Unix epoch
/// (`DateTime::timestamp`) and the nanoseconds past them
/// (`DateTime::timestamp_subsec_nanos`). The clock decides the reading;
/// `Utc::now` builds it from the non-negative `Duration` since the epoch, so
/// the seconds are not negative and the nanoseconds stay below one second.
/// It panics when the system clock reads a time before 1970, which no
/// precondition can exclude.
#[verifier::external_body]
pub(crate) fn now() -> (t: Timestamp)
    ensures
        t.secs >= 0,
        t.nanos < 1_000_000_000,
{
    let t = chrono::Utc::now();
    Timestamp { secs: t.timestamp(), nanos: t.timestamp_subsec_nanos() }
}

/// 16 to the power `n`.
pub open spec fn pow16(n: nat) -> nat
    decreases n,
{
    if n == 0 {
        1
    } else {
        16 * pow16((n - 1) as nat)
    }
}

/// The `k`-th hexadecimal digit of `v` (0 to 31), counted from the most
/// significant one.
pub open spec fn nibble(v: u128, k: int) -> int {
    ((v as int) / (pow16((31 - k) as nat) as int)) % 16
}

/// The lower-case hexadecimal character of a digit below 16.
pub open spec fn hex_char(d: int) -> char {
    if d < 10 {
        crate::text::digit_char(d)
    } else if d == 10 {
        'a'
    } else if d == 11 {
        'b'
    } else if d == 12 {
        'c'
    } else if d == 13 {
        'd'
    } else if d == 14 {
        'e'
    } else {
        'f'
    }
}

/// How many hyphens stand before position `i` of a hyphenated UUID text.
pub open spec fn hyphens_before(i: int) -> int {
    if i < 8 {
        0
    } else if i < 13 {
        1
    } else if i < 18 {
        2
    } else if i < 23 {
        3
    } else {
        4
    }
}

/// The hyphenated lower-case text of the UUID whose 128 bits, read
/// big-endian, are `v`: 32 hexadecimal digits in groups of 8-4-4-4-12.
pub open spec fn hyphenated(v: u128) -> Seq<char> {
    Seq::new(
        36,
        |i: int|
            if i == 8 || i == 13 || i == 18 || i == 23 {
                '-'
            } else {
                hex_char(nibble(v, i - hyphens_before(i)))
            },
    )
}

/// `uuid::Uuid::new_v4`, as its 128-bit value (`Uuid::as_u128`). The value is
/// random; the contract states what holds of every outcome: the version
/// digit is 4 and the variant bits are `10` (RFC 9562). It panics when the
/// operating system's random source fails, which no precondition can
/// exclude.
#[verifier::external_body]
pub(crate) fn new_server_id() -> (id: u128)
    ensures
        nibble(id, 12) == 4,
        8 <= nibble(id, 16) < 12,
{
    uuid::Uuid::new_v4().as_u128()
}

/// The `Display` text of `uuid::Uuid::from_u128(id)`: the hyphenated
/// lower-case form.
#[verifier::external_body]
pub(crate) fn uuid_text(id: u128) -> (s: String)
    ensures
        s@ == hyphenated(id),
{
    uuid::Uuid::from_u128(id).to_string()
}

/// `http::StatusCode::from_u16` (as re-exported by axum) succeeds exactly
/// on the codes from 100 to 999.
#[verifier::external_body]
pub(crate) fn status_code_is_valid(code: u16) -> (valid: bool)
    ensures
        valid == (100 <= code <= 999),
{
    axum::http::StatusCode::from_u16(code).is_ok()
}

/// A `tchar` of RFC 9110: a character that may stand in an HTTP header name.
pub open spec fn is_token_char(c: char) -> bool {
    ||| ('a' <= c && c <= 'z')
    ||| ('A' <= c && c <= 'Z')
    ||| ('0' <= c && c <= '9')
    ||| c == '!' || c == '#' || c == '$' || c == '%' || c == '&' || c == '\''
    ||| c == '*' || c == '+' || c == '-' || c == '.' || c == '^' || c == '_'
    ||| c == '`' || c == '|' || c == '~'
}

/// The names that `http::HeaderName` accepts: from 1 to 65535 characters,
/// each of them a `tchar`.
pub open spec fn valid_header_name(name: Seq<char>) -> bool {
    &&& 0 < name.len() <= 65535
    &&& forall|i: int| 0 <= i < name.len() ==> is_token_char(#[trigger] name[i])
}

/// The characters that `http::HeaderValue` accepts: a tab, or any character
/// from the space up, but DEL (every byte of a non-ASCII character is 128
/// or more, and those bytes are accepted).
pub open spec fn is_header_value_char(c: char) -> bool {
    c == '\t' || (' ' <= c && c != '\x7f')
}

/// The values that `http::HeaderValue` accepts.
pub open spec fn valid_header_value(value: Seq<char>) -> bool {
    forall|i: int| 0 <= i < value.len() ==> is_header_value_char(#[trigger] value[i])
}

/// Parsing through `FromStr for http::HeaderName` succeeds exactly on the
/// valid header names.
#[verifier::external_body]
pub(crate) fn header_name_is_valid(name: &str) -> (valid: bool)
    ensures
        valid == valid_header_name(name@),
{
    name.parse::<axum::http::HeaderName>().is_ok()
}

/// Parsing through `FromStr for http::HeaderValue` succeeds exactly on the
/// valid header values.
#[verifier::external_body]
pub(crate) fn header_value_is_valid(value: &str) -> (valid: bool)
    ensures
        valid == valid_header_value(value@),
{
    value.parse::<axum::http::HeaderValue>().is_ok()
}

} // verus!
