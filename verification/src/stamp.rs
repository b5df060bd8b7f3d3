//! The time of a poll round: epoch seconds and their calendar form.

use chrono::DateTime;
use vstd::prelude::*;

verus! {

/// The calendar form of all timestamps: year, month, day, hour, minute and
/// second, as in `2023-01-01 00:00:00`.
pub const DATETIME_FORMAT: &'static str = "%Y-%m-%d %H:%M:%S";

/// The UTC date and time of an epoch second in `DATETIME_FORMAT`, as
/// `chrono` computes it; `None` for a second outside its calendar.
pub uninterp spec fn utc_datetime_text(secs: i64) -> Option<Seq<char>>;

/// `DateTime::from_timestamp` with no nanoseconds, then `DateTime::format`
/// with `DATETIME_FORMAT`, as a string: the result is the named calendar
/// form of the second.
#[verifier::external_body]
fn format_utc(secs: i64) -> (r: Option<String>)
    ensures
        match r {
            Some(text) => utc_datetime_text(secs) == Some(text@),
            None => utc_datetime_text(secs) is None,
        },
{
    match DateTime::from_timestamp(secs, 0) {
        Some(moment) => Some(moment.format(DATETIME_FORMAT).to_string()),
        None => None,
    }
}

/// The time that all entries of one round carry.
#[derive(Clone, Debug, PartialEq, Eq)]
pub struct RoundStamp {
    /// Seconds since the Unix epoch.
    pub timestamp: u64,
    /// The same moment in `DATETIME_FORMAT`, in UTC.
    pub datetime: String,
}

/// A `RoundStamp` as a mathematical value.
pub struct StampModel {
    pub timestamp: u64,
    pub datetime: Seq<char>,
}

impl View for RoundStamp {
    type V = StampModel;

    open spec fn view(&self) -> StampModel {
        StampModel { timestamp: self.timestamp, datetime: self.datetime@ }
    }
}

/// The stamp of a round that starts at `timestamp`: `None` where the calendar
/// has no date for that second.
pub open spec fn stamp_at(timestamp: u64) -> Option<StampModel> {
    if timestamp <= i64::MAX && utc_datetime_text(timestamp as i64) is Some {
        Some(StampModel { timestamp, datetime: utc_datetime_text(timestamp as i64)->0 })
    } else {
        None
    }
}

/// A stamp as a mathematical value, where there is one.
pub open spec fn stamp_view(stamp: Option<RoundStamp>) -> Option<StampModel> {
    match stamp {
        Some(s) => Some(s@),
        None => None,
    }
}

impl RoundStamp {
    /// The stamp of a round that starts `timestamp` seconds after the Unix
    /// epoch.
    pub fn at(timestamp: u64) -> (r: Option<RoundStamp>)
        ensures
            stamp_view(r) == stamp_at(timestamp),
    {
        if timestamp > i64::MAX as u64 {
            return None;
        }
        match format_utc(timestamp as i64) {
            Some(datetime) => Some(RoundStamp { timestamp, datetime }),
            None => None,
        }
    }
}

} // verus!
