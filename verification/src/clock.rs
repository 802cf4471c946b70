//! The wall clock, as text.

use vstd::prelude::*;

verus! {

/// The pattern of a date: year, month and day.
pub const DATE_PATTERN: &'static str = "%Y-%m-%d";

/// The pattern of a time of day: hour, minute and second.
pub const TIME_PATTERN: &'static str = "%H:%M:%S";

/// Whether `c` is one of the digits `0` to `9`.
pub open spec fn is_digit(c: char) -> bool {
    0x30 <= c as u32 <= 0x39
}

/// The shape of a date: a year, `-`, two digits of month, `-`, two digits of
/// day. The year is four digits, or a sign and four digits or more.
pub open spec fn is_calendar_date(text: Seq<char>) -> bool {
    let n = text.len() as int;
    &&& n >= 10
    &&& text[n - 6] == '-'
    &&& is_digit(text[n - 5])
    &&& is_digit(text[n - 4])
    &&& text[n - 3] == '-'
    &&& is_digit(text[n - 2])
    &&& is_digit(text[n - 1])
    &&& if n == 10 {
        forall|i: int| 0 <= i < 4 ==> is_digit(text[i])
    } else {
        &&& text[0] == '+' || text[0] == '-'
        &&& forall|i: int| 1 <= i < n - 6 ==> is_digit(text[i])
    }
}

/// The shape of a time of day: two digits each of hour, minute and second,
/// with `:` between them.
pub open spec fn is_time_of_day(text: Seq<char>) -> bool {
    &&& text.len() == 8
    &&& is_digit(text[0])
    &&& is_digit(text[1])
    &&& text[2] == ':'
    &&& is_digit(text[3])
    &&& is_digit(text[4])
    &&& text[5] == ':'
    &&& is_digit(text[6])
    &&& is_digit(text[7])
}

/// The local time of this moment, written after `pattern`.
///
/// Trusted, not proved: the body reads the clock with `chrono::Local::now` and
/// writes it down with `DateTime::format`. What the text says differs from
/// call to call, so the contract claims its shape alone, as chrono's table of
/// specifiers gives it: `%Y` is four digits for the years 0 to 9999 and a sign
/// with the digits for any other; `%m`, `%d`, `%H`, `%M` and `%S` are two
/// digits each. The contract admits only the two patterns above, which hold no
/// specifier that chrono refuses, so that writing the text down does not fail.
/// Like chrono itself, the call gives up on a machine whose clock stands
/// before 1970.
#[verifier::external_body]
pub(crate) fn local_now(pattern: &str) -> (text: String)
    requires
        pattern@ == DATE_PATTERN@ || pattern@ == TIME_PATTERN@,
    ensures
        pattern@ == DATE_PATTERN@ ==> is_calendar_date(text@),
        pattern@ == TIME_PATTERN@ ==> is_time_of_day(text@),
{
    chrono::Local::now().format(pattern).to_string()
}

} // verus!
