//! The length of the queue of connections that wait to be accepted.
use crate::text::parse_i32;
#[allow(unused_imports)]
use crate::text;
use vstd::prelude::*;

verus! {

/// The backlog where the system does not tell its own limit.
pub const DEFAULT_BACKLOG: i32 = 1024;

/// What the system answered when it was asked for its maximum connection queue
/// length (`somaxconn`).
#[derive(Debug)]
pub enum SomaxconnReading {
    /// The contents of a file that holds the number as text.
    Text(String),
    /// The number itself.
    Value(i32),
    /// No answer, or one of another type.
    Unavailable,
}

/// The backlog that follows from a reading: the number that it holds, or the
/// default where it holds none.
pub open spec fn listen_backlog(reading: SomaxconnReading) -> i32 {
    match reading {
        SomaxconnReading::Text(s) => match text::parsed_i32(text::trimmed(s@)) {
            Some(value) => value,
            None => DEFAULT_BACKLOG,
        },
        SomaxconnReading::Value(value) => value,
        SomaxconnReading::Unavailable => DEFAULT_BACKLOG,
    }
}

/// Determines the listen backlog size.
///
/// The backlog adapts to the system's maximum connection queue length. If that
/// could not be read, it falls back to a default value.
pub fn get_listen_backlog(reading: &SomaxconnReading) -> (r: i32)
    ensures
        r == listen_backlog(*reading),
{
    match reading {
        SomaxconnReading::Text(s) => match parse_i32(s.as_str()) {
            Some(value) => value,
            None => DEFAULT_BACKLOG,
        },
        SomaxconnReading::Value(value) => *value,
        SomaxconnReading::Unavailable => DEFAULT_BACKLOG,
    }
}

/// The backlog is the system's limit, whatever white space surrounds the number
/// in the file that tells it.
pub proof fn law_backlog_is_the_system_limit(
    limit: i32,
    before: Seq<char>,
    after: Seq<char>,
    file: String,
)
    requires
        text::all_white_space(before),
        text::all_white_space(after),
        file@ == before + text::signed_decimal(limit as int) + after,
    ensures
        listen_backlog(SomaxconnReading::Text(file)) == limit,
{
    let number = text::signed_decimal(limit as int);
    let n = if limit < 0 {
        (-limit) as nat
    } else {
        limit as nat
    };
    text::law_decimal_writes_its_number(n);
    assert(number.last() == text::decimal(n).last());
    assert(text::is_digit(number.last()));
    assert(number[0] == '-' || number[0] == text::decimal(n)[0]);
    text::law_trimmed_takes_off_white_space(before, number, after);
    text::law_parse_reads_what_decimal_writes(limit);
}

/// A number that the system tells as a value is the backlog, whatever it is.
pub proof fn law_told_value_is_the_backlog(limit: i32)
    ensures
        listen_backlog(SomaxconnReading::Value(limit)) == limit,
{
}

/// A number leads to the same backlog, whether the system tells it as a value or
/// as text.
pub proof fn law_value_and_text_agree(
    limit: i32,
    before: Seq<char>,
    after: Seq<char>,
    file: String,
)
    requires
        text::all_white_space(before),
        text::all_white_space(after),
        file@ == before + text::signed_decimal(limit as int) + after,
    ensures
        listen_backlog(SomaxconnReading::Text(file)) == listen_backlog(
            SomaxconnReading::Value(limit),
        ),
{
    law_backlog_is_the_system_limit(limit, before, after, file);
}

/// Where the system tells no number, the backlog is 1024; a text that reads as a
/// number is that number. So texts that read alike lead to the same backlog.
pub proof fn law_backlog_without_a_number_is_the_default(file: String, n: i32)
    ensures
        listen_backlog(SomaxconnReading::Unavailable) == 1024,
        text::parsed_i32(text::trimmed(file@)) is None ==> listen_backlog(
            SomaxconnReading::Text(file),
        ) == 1024,
        text::parsed_i32(text::trimmed(file@)) == Some(n) ==> listen_backlog(
            SomaxconnReading::Text(file),
        ) == n,
{
}

} // verus!
