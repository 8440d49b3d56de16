//! What every message is stamped with: a fresh identifier and the time at
//! which it left.
//!
//! Both come from outside this library, so neither is the same twice. What is
//! stated here is the shape that each of them has whenever it is made.

use vstd::prelude::*;

verus! {

/// Whether `c` is a decimal digit.
pub open spec fn is_digit(c: char) -> bool {
    '0' <= c <= '9'
}

/// Whether `c` is a hexadecimal digit in lower case.
pub open spec fn is_lower_hex(c: char) -> bool {
    is_digit(c) || 'a' <= c <= 'f'
}

/// Whether the characters of `s` from `from` up to, not including, `to` are
/// all decimal digits.
pub open spec fn all_digits(s: Seq<char>, from: int, to: int) -> bool {
    forall|i: int| from <= i < to ==> is_digit(#[trigger] s[i])
}

/// The number that the two digits of `s` at `at` and after it spell.
pub open spec fn two_digits(s: Seq<char>, at: int) -> int {
    10 * (s[at] as int - '0' as int) + (s[at + 1] as int - '0' as int)
}

/// The text of a version 7 identifier: thirty-two hexadecimal digits in lower
/// case in groups of 8, 4, 4, 4 and 12 with a hyphen between groups, the third
/// group opening with the version and the fourth with the variant.
pub open spec fn is_event_id(s: Seq<char>) -> bool {
    &&& s.len() == 36
    &&& forall|i: int|
        0 <= i < 36 ==> if i == 8 || i == 13 || i == 18 || i == 23 {
            #[trigger] s[i] == '-'
        } else {
            is_lower_hex(s[i])
        }
    &&& s[14] == '7'
    &&& s[19] == '8' || s[19] == '9' || s[19] == 'a' || s[19] == 'b'
}

/// Whether `s` goes on, from `at`, with a month, a day and a time of day to
/// the nanosecond in Coordinated Universal Time, and ends there: the text
/// `-MM-DDTHH:MM:SS.fffffffffZ`, each part within its range.
pub open spec fn is_utc_tail(s: Seq<char>, at: int) -> bool {
    &&& s.len() == at + 26
    &&& s[at] == '-'
    &&& all_digits(s, at + 1, at + 3)
    &&& 1 <= two_digits(s, at + 1) <= 12
    &&& s[at + 3] == '-'
    &&& all_digits(s, at + 4, at + 6)
    &&& 1 <= two_digits(s, at + 4) <= 31
    &&& s[at + 6] == 'T'
    &&& all_digits(s, at + 7, at + 9)
    &&& two_digits(s, at + 7) <= 23
    &&& s[at + 9] == ':'
    &&& all_digits(s, at + 10, at + 12)
    &&& two_digits(s, at + 10) <= 59
    &&& s[at + 12] == ':'
    &&& all_digits(s, at + 13, at + 15)
    &&& two_digits(s, at + 13) <= 59
    &&& s[at + 15] == '.'
    &&& all_digits(s, at + 16, at + 25)
    &&& s[at + 25] == 'Z'
}

/// An instant as RFC 3339 writes it, to the nanosecond and in Coordinated
/// Universal Time: a year of four digits, then the rest.
pub open spec fn is_rfc3339_utc_nanos(s: Seq<char>) -> bool {
    all_digits(s, 0, 4) && is_utc_tail(s, 4)
}

/// An instant after the year 9999, which RFC 3339 cannot write: a plus sign
/// and a year of five or six digits, then the rest as before.
pub open spec fn is_late_utc_nanos(s: Seq<char>) -> bool {
    let year_end = s.len() - 26;
    &&& 6 <= year_end <= 7
    &&& s[0] == '+'
    &&& all_digits(s, 1, year_end)
    &&& is_utc_tail(s, year_end)
}

/// The text of the time of emission: RFC 3339 while the clock shows a year
/// of four digits, and the longer form after that.
pub open spec fn is_emission_time(s: Seq<char>) -> bool {
    is_rfc3339_utc_nanos(s) || is_late_utc_nanos(s)
}

/// Makes a fresh identifier with `uuid::Uuid::now_v7` and writes it as text.
///
/// The identifier holds the time and random bits, so no two calls are known
/// to agree. Trusted: that the text is always the hyphenated lower-case form
/// of a version 7 identifier.
#[verifier::external_body]
pub(crate) fn fresh_event_id() -> (id: String)
    ensures
        is_event_id(id@),
{
    uuid::Uuid::now_v7().to_string()
}

/// Reads the clock with `chrono::Utc::now` and writes the instant with
/// `to_rfc3339_opts`, to the nanosecond and with `Z` for the offset.
///
/// Trusted: that the text is a valid date and time of day in that form, with
/// a signed year of more than four digits once the clock is past the year
/// 9999. (`chrono` refuses, by a panic, a clock set before 1970.)
#[verifier::external_body]
pub(crate) fn emission_time() -> (stamp: String)
    ensures
        is_emission_time(stamp@),
{
    chrono::Utc::now().to_rfc3339_opts(chrono::SecondsFormat::Nanos, true)
}

} // verus!
