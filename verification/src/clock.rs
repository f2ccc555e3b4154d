//! Readings of the system clock, rendered as text by `chrono`.
//!
//! What a clock shows cannot be predicted, so the contracts here state only
//! what holds of every reading.

use vstd::prelude::*;

verus! {

/// The clock that a timestamp was read from.
#[derive(Clone, Copy, Debug, PartialEq, Eq, Structural)]
pub enum Clock {
    /// Coordinated universal time.
    Utc,
    /// The time zone of the machine.
    Local,
}

/// The marker that closes every rendered UTC timestamp.
pub open spec fn utc_suffix() -> Seq<char> {
    " UTC"@
}

/// `text` ends with `suffix`.
pub open spec fn ends_with(text: Seq<char>, suffix: Seq<char>) -> bool {
    &&& suffix.len() <= text.len()
    &&& text.subrange(text.len() - suffix.len(), text.len() as int) == suffix
}

/// One of the ten decimal digits.
pub open spec fn is_digit(c: char) -> bool {
    c == '0' || c == '1' || c == '2' || c == '3' || c == '4' || c == '5' || c == '6' || c == '7'
        || c == '8' || c == '9'
}

/// `text` is an offset from UTC as `chrono` writes one: a sign, the hours
/// and the minutes in two digits each with a colon between them and, where
/// the offset has odd seconds, a colon and the seconds in two digits.
pub open spec fn is_offset(text: Seq<char>) -> bool {
    &&& text.len() == 6 || text.len() == 9
    &&& text[0] == '+' || text[0] == '-'
    &&& is_digit(text[1])
    &&& is_digit(text[2])
    &&& text[3] == ':'
    &&& is_digit(text[4])
    &&& is_digit(text[5])
    &&& text.len() == 9 ==> text[6] == ':' && is_digit(text[7]) && is_digit(text[8])
}

/// The last `width` characters of `text` are an offset, and a space stands
/// before them.
pub open spec fn closes_with_offset(text: Seq<char>, width: int) -> bool {
    &&& width < text.len()
    &&& text[text.len() - width - 1] == ' '
    &&& is_offset(text.subrange(text.len() - width, text.len() as int))
}

/// `text` ends with a space and an offset from UTC, as every rendered local
/// timestamp does.
pub open spec fn ends_with_offset(text: Seq<char>) -> bool {
    closes_with_offset(text, 6) || closes_with_offset(text, 9)
}

/// `text` has the marks of a timestamp read from `clock`: the word UTC at
/// the end of a UTC reading, the offset of the machine at the end of a local
/// one.
pub open spec fn read_from(clock: Clock, text: Seq<char>) -> bool {
    match clock {
        Clock::Utc => ends_with(text, utc_suffix()),
        Clock::Local => ends_with_offset(text),
    }
}

/// The pattern of the date in a log record: year, month and day.
pub open spec fn date_pattern() -> Seq<char> {
    "%Y-%m-%d"@
}

/// The pattern of the time in a log record: hours, minutes and seconds.
pub open spec fn time_pattern() -> Seq<char> {
    "%H:%M:%S"@
}

/// `text` is a date as the date pattern renders one: the year in four
/// characters or more, then month and day in two digits each, with a dash
/// before either.
pub open spec fn is_date(text: Seq<char>) -> bool {
    let end = text.len() as int;
    &&& end >= 10
    &&& text[end - 6] == '-'
    &&& is_digit(text[end - 5])
    &&& is_digit(text[end - 4])
    &&& text[end - 3] == '-'
    &&& is_digit(text[end - 2])
    &&& is_digit(text[end - 1])
}

/// `text` is a time of day as the time pattern renders one: hours, minutes
/// and seconds in two digits each, with colons between them.
pub open spec fn is_time(text: Seq<char>) -> bool {
    &&& text.len() == 8
    &&& is_digit(text[0])
    &&& is_digit(text[1])
    &&& text[2] == ':'
    &&& is_digit(text[3])
    &&& is_digit(text[4])
    &&& text[5] == ':'
    &&& is_digit(text[6])
    &&& is_digit(text[7])
}

/// Calls `chrono::Utc::now` and renders the reading with its `Display`.
/// `chrono` writes the date, a space, the time, a space and the offset, which
/// for UTC is the word `UTC`; the contract claims that ending and nothing of
/// the date or the time. `chrono` panics where the system clock stands before
/// 1970.
#[verifier::external_body]
pub(crate) fn utc_now() -> (r: String)
    ensures
        ends_with(r@, utc_suffix()),
{
    chrono::Utc::now().to_string()
}

/// Calls `chrono::Local::now` and renders the reading with its `Display`.
/// `chrono` writes the date, a space, the time, a space and the offset. The
/// offset of the local zone is a `FixedOffset`, which is written as a sign,
/// hours and minutes in two digits each and, where they are not zero, the
/// seconds; the contract claims that ending and nothing of the date or the
/// time. `chrono` panics where the system clock stands before 1970 or the
/// machine's time zone cannot be read.
#[verifier::external_body]
pub(crate) fn local_now() -> (r: String)
    ensures
        ends_with_offset(r@),
{
    chrono::Local::now().to_string()
}

/// Calls `chrono::Local::now` and renders the reading with
/// `DateTime::format`. Rendering panics on a pattern that `chrono` cannot
/// parse, so only the two patterns of a log record are admitted. Under them
/// `chrono` pads month, day, hours, minutes and seconds with zeros to two
/// digits and the year to four; a year outside 0 to 9999 takes a sign and
/// more room. The contract claims that shape and nothing of the values.
#[verifier::external_body]
pub(crate) fn local_now_as(pattern: &str) -> (r: String)
    requires
        pattern@ == date_pattern() || pattern@ == time_pattern(),
    ensures
        pattern@ == date_pattern() ==> is_date(r@),
        pattern@ == time_pattern() ==> is_time(r@),
{
    chrono::Local::now().format(pattern).to_string()
}

/// Reads `clock` and renders the reading: for UTC as `chrono` prints a UTC
/// date and time, for the local clock with the machine's offset.
pub fn timestamp(clock: Clock) -> (r: String)
    ensures
        read_from(clock, r@),
{
    match clock {
        Clock::Utc => utc_now(),
        Clock::Local => local_now(),
    }
}

/// A timestamp is not empty and tells the clock it was read from: no text
/// bears the marks of both clocks.
pub proof fn reading_tells_its_clock(text: Seq<char>, clock: Clock, other: Clock)
    requires
        read_from(clock, text),
    ensures
        text.len() > 0,
        read_from(other, text) ==> other == clock,
{
    reveal_strlit(" UTC");
    let end = text.len() as int;
    if ends_with(text, utc_suffix()) {
        assert(utc_suffix().len() == 4 && utc_suffix()[3] == 'C');
        assert(text.subrange(end - 4, end)[3] == 'C');
        assert(text[end - 1] == 'C');
        if closes_with_offset(text, 6) {
            assert(text.subrange(end - 6, end)[5] == text[end - 1]);
        }
        if closes_with_offset(text, 9) {
            assert(text.subrange(end - 9, end)[8] == text[end - 1]);
        }
    }
}

} // verus!
