//! Readings of the clock. What time it is, is not the library's to know;
//! what is claimed is only what holds of every reading: the range chrono
//! covers, how a later time is counted from the reading, and the form in
//! which a reading is written.

use vstd::prelude::*;

verus! {

/// An ASCII decimal digit.
pub open spec fn ascii_digit(c: char) -> bool {
    '0' <= c <= '9'
}

/// Every character is an ASCII decimal digit.
pub open spec fn all_digits(s: Seq<char>) -> bool {
    forall|i: int| 0 <= i < s.len() ==> ascii_digit(#[trigger] s[i])
}

/// A year from 1970 on as chrono writes it: four digits, or past 9999 a `+`
/// and five or six digits.
pub open spec fn year_text(s: Seq<char>) -> bool {
    ||| s.len() == 4 && all_digits(s)
    ||| (s.len() == 6 || s.len() == 7) && s[0] == '+' && all_digits(s.drop_first())
}

/// Two digits at `at` and `at + 1`.
pub open spec fn two_digits(s: Seq<char>, at: int) -> bool {
    ascii_digit(s[at]) && ascii_digit(s[at + 1])
}

/// The fraction of a second as chrono writes it: nothing, or `.` and three,
/// six or nine digits.
pub open spec fn fraction_text(s: Seq<char>) -> bool {
    ||| s.len() == 0
    ||| (s.len() == 4 || s.len() == 7 || s.len() == 10) && s[0] == '.' && all_digits(
        s.drop_first(),
    )
}

/// A time as chrono writes it: a year, `-MM-DD`, the separator `sep`,
/// `HH:MM:SS`, a fraction of a second, and then `suffix`.
pub open spec fn date_time_text(s: Seq<char>, sep: char, suffix: Seq<char>) -> bool {
    exists|y: int|
        #![trigger year_text(s.subrange(0, y))]
        0 <= y && y + 15 + suffix.len() <= s.len() && year_text(s.subrange(0, y)) && {
            let rest = s.subrange(y, s.len() - suffix.len());
            &&& rest[0] == '-' && two_digits(rest, 1) && rest[3] == '-' && two_digits(rest, 4)
            &&& rest[6] == sep && two_digits(rest, 7) && rest[9] == ':' && two_digits(rest, 10)
            &&& rest[12] == ':' && two_digits(rest, 13)
            &&& fraction_text(rest.subrange(15, rest.len() as int))
            &&& s.subrange(s.len() - suffix.len(), s.len() as int) == suffix
        }
}

/// Calls `chrono::Utc::now`, then `naive_utc` and `to_string`: the current
/// time as `YYYY-MM-DD HH:MM:SS` with a fraction of a second where it is not
/// zero. Trusted: the text has that form (`NaiveDateTime`'s `Display`, from
/// a reading that is never before 1970); which time it is, is not stated.
#[verifier::external_body]
pub(crate) fn now_naive_utc_text() -> (r: String)
    ensures
        date_time_text(r@, ' ', Seq::empty()),
{
    chrono::Utc::now().naive_utc().to_string()
}

/// Calls `chrono::Utc::now` and then `to_rfc3339`: the current time as
/// `YYYY-MM-DDTHH:MM:SS`, a fraction of a second where it is not zero, and
/// the offset `+00:00`. Trusted: the text has that form (`write_rfc3339` with
/// `AutoSi` seconds and no `Z`, for a reading never before 1970); which time
/// it is, is not stated.
#[verifier::external_body]
pub(crate) fn now_rfc3339_text() -> (r: String)
    ensures
        date_time_text(r@, 'T', "+00:00"@),
{
    chrono::Utc::now().to_rfc3339()
}

/// The Unix time of chrono's first second, -262143-01-01 00:00:00 UTC.
pub open spec fn first_second() -> int {
    -8334601315200
}

/// The Unix time of chrono's last second, +262142-12-31 23:59:59 UTC.
pub open spec fn last_second() -> int {
    8210266876799
}

/// Calls `chrono::Utc::now` and takes its Unix `timestamp`; then adds
/// `hours` hours to that same reading (a `chrono::Duration` made by `hours`,
/// which panics beyond about 2.5 * 10^12 hours, so the argument stays within
/// that) with `checked_add_signed`, and takes the `timestamp` of the sum, or
/// `None` where the sum leaves chrono's range.
///
/// Trusted: the reading lies between the Unix epoch and chrono's last second
/// (`Utc::now` panics on a clock before the epoch, and `from_timestamp`
/// beyond chrono's range is unwrapped); the sum exists exactly when its second
/// lies in chrono's range (`checked_add_signed` adds whole days to the date
/// and fails only past `NaiveDate::MIN` or `NaiveDate::MAX`), and its
/// timestamp is the reading's plus 3600 seconds an hour, since the duration
/// has no part below a second and `timestamp` drops the sub-second part of
/// both. Which time the reading is, is not stated.
#[verifier::external_body]
pub(crate) fn now_and_in_hours(hours: i64) -> (r: (i64, Option<i64>))
    requires
        -2562047788015 <= hours <= 2562047788015,
    ensures
        0 <= r.0 <= last_second(),
        r.1 is Some <==> first_second() <= r.0 + 3600 * hours <= last_second(),
        r.1 matches Some(t) ==> t == r.0 + 3600 * hours,
{
    let now = chrono::Utc::now();
    let later = match now.checked_add_signed(chrono::Duration::hours(hours)) {
        Some(t) => Some(t.timestamp()),
        None => None,
    };
    (now.timestamp(), later)
}

} // verus!
