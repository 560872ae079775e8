//! The reporting window: two days, given as `YYYY-MM-DD`, and the
//! timestamps between which commits are collected.

use crate::error::InputError;
use crate::services::calendar::{midnight_of, parse_midnight};
use vstd::prelude::*;

verus! {

/// The seconds from midnight to the last second of the same day.
pub const LAST_SECOND_OF_DAY: i64 = 86_399;

/// The timestamp of the first second of the day `text` names.
pub open spec fn day_start(text: Seq<char>) -> Option<int> {
    midnight_of(text)
}

/// The timestamp of the last second of the day `text` names; `None` also
/// where a timestamp cannot hold it.
pub open spec fn day_end(text: Seq<char>) -> Option<int> {
    match midnight_of(text) {
        Some(midnight) => if midnight + LAST_SECOND_OF_DAY <= i64::MAX {
            Some(midnight + LAST_SECOND_OF_DAY)
        } else {
            None
        },
        None => None,
    }
}

/// The timestamp of the first second of the day `value` names.
pub fn parse_date_start(value: &str) -> (outcome: Result<i64, InputError>)
    ensures
        match outcome {
            Ok(timestamp) => day_start(value@) == Some(timestamp as int),
            Err(e) => day_start(value@) is None && e == InputError::InvalidDate,
        },
{
    match parse_midnight(value) {
        Some(midnight) => Ok(midnight),
        None => Err(InputError::InvalidDate),
    }
}

/// The timestamp of the last second of the day `value` names.
pub fn parse_date_end(value: &str) -> (outcome: Result<i64, InputError>)
    ensures
        match outcome {
            Ok(timestamp) => day_end(value@) == Some(timestamp as int),
            Err(e) => day_end(value@) is None && e == InputError::InvalidDate,
        },
{
    match parse_midnight(value) {
        Some(midnight) => match midnight.checked_add(LAST_SECOND_OF_DAY) {
            Some(last) => Ok(last),
            None => Err(InputError::InvalidDate),
        },
        None => Err(InputError::InvalidDate),
    }
}

/// Accepts a window that does not start after it ends.
pub fn check_window(from_ts: i64, to_ts: i64) -> (outcome: Result<(), InputError>)
    ensures
        match outcome {
            Ok(_) => from_ts <= to_ts,
            Err(e) => from_ts > to_ts && e == InputError::InvalidDateWindow,
        },
{
    if from_ts > to_ts {
        Err(InputError::InvalidDateWindow)
    } else {
        Ok(())
    }
}

/// The window from the first second of the day `from` to the last second of
/// the day `to`. Fails where one of them is no date, the start first, or
/// where the window starts after it ends.
pub fn parse_window(from: &str, to: &str) -> (outcome: Result<(i64, i64), InputError>)
    ensures
        match outcome {
            Ok(window) => day_start(from@) == Some(window.0 as int) && day_end(to@) == Some(
                window.1 as int,
            ) && window.0 <= window.1,
            Err(e) => if day_start(from@) is None || day_end(to@) is None {
                e == InputError::InvalidDate
            } else {
                e == InputError::InvalidDateWindow && day_start(from@)->0 > day_end(to@)->0
            },
        },
{
    let from_ts = match parse_date_start(from) {
        Ok(timestamp) => timestamp,
        Err(e) => {
            return Err(e);
        },
    };
    let to_ts = match parse_date_end(to) {
        Ok(timestamp) => timestamp,
        Err(e) => {
            return Err(e);
        },
    };
    match check_window(from_ts, to_ts) {
        Ok(_) => Ok((from_ts, to_ts)),
        Err(e) => Err(e),
    }
}

} // verus!
