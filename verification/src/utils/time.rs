//! The local date and time stamped on each log record.
use vstd::prelude::*;

verus! {

/// An ASCII decimal digit.
pub open spec fn is_digit(c: char) -> bool {
    '0' <= c <= '9'
}

/// The shape of a date written with `%F`: `YYYY-MM-DD`, where a year outside
/// 0..=9999 takes a sign and up to six digits.
pub open spec fn date_shaped(d: Seq<char>) -> bool {
    &&& 10 <= d.len() <= 13
    &&& forall|i: int| 0 <= i < d.len() ==> is_digit(#[trigger] d[i]) || d[i] == '-' || d[i] == '+'
    &&& d[d.len() - 3] == '-'
    &&& d[d.len() - 6] == '-'
}

/// The shape of a time of day written with `%T`: `HH:MM:SS`.
pub open spec fn time_shaped(t: Seq<char>) -> bool {
    &&& t.len() == 8
    &&& t[2] == ':'
    &&& t[5] == ':'
    &&& is_digit(t[0]) && is_digit(t[1]) && is_digit(t[3])
    &&& is_digit(t[4]) && is_digit(t[6]) && is_digit(t[7])
}

/// A date and time of day as `get_date_time` reads them off the clock: of
/// the shapes of `%F` and `%T`. The definition is closed, so that outside this
/// module a date and time are known to be a reading of the clock only from
/// `get_date_time`; `lemma_clock_stamp_shape` gives their shape.
pub closed spec fn clock_stamp(date: Seq<char>, time: Seq<char>) -> bool {
    date_shaped(date) && time_shaped(time)
}

/// A reading of the clock has the shapes of `%F` and `%T`.
pub proof fn lemma_clock_stamp_shape(date: Seq<char>, time: Seq<char>)
    requires
        clock_stamp(date, time),
    ensures
        date_shaped(date),
        time_shaped(time),
{
}

/// `chrono::Local::now`, formatted with `%F` and `%T`: the current date and
/// time of day in the machine's time zone. Which date and time they are
/// depends on the clock and the time zone, so the contract states only
/// that they are a reading of the clock and their shape: chrono writes `%F` as the year (four digits, zero-padded,
/// with a sign outside 0..=9999), `-`, two-digit month, `-`, two-digit day,
/// and `%T` as two-digit hour, minute and second joined by `:`.
#[verifier::external_body]
pub fn get_date_time() -> (r: (String, String))
    ensures
        date_shaped(r.0@),
        time_shaped(r.1@),
        clock_stamp(r.0@, r.1@),
{
    let local = chrono::Local::now();
    (local.format("%F").to_string(), local.format("%T").to_string())
}

} // verus!
