//! Instants on the atomic time axis and the exact offsets the search uses.

use vstd::prelude::*;

verus! {

/// Nanoseconds in one minute.
pub const NANOS_PER_MINUTE: i128 = 60_000_000_000;

/// Nanoseconds in one day of 86 400 seconds.
pub const NANOS_PER_DAY: i128 = 86_400_000_000_000;

/// An instant: whole nanoseconds of International Atomic Time elapsed since
/// 1900-01-01T00:00:00 TAI. Instants before that origin are negative.
/// Instants are ordered as their counts are.
#[derive(Clone, Copy, Debug, PartialEq, Eq, PartialOrd, Ord, Hash, Structural)]
pub struct TimeValue {
    pub tai_nanos: i128,
}

impl View for TimeValue {
    type V = int;

    open spec fn view(&self) -> int {
        self.tai_nanos as int
    }
}

impl TimeValue {
    /// The instant `delta` nanoseconds after `self`, where the time axis can
    /// hold it.
    pub open spec fn offset_by(self, delta: int) -> Option<TimeValue> {
        if i128::MIN <= self.tai_nanos + delta <= i128::MAX {
            Some(TimeValue { tai_nanos: (self.tai_nanos + delta) as i128 })
        } else {
            None
        }
    }

    /// An instant from its count of TAI nanoseconds.
    pub fn from_tai_nanos(tai_nanos: i128) -> (t: TimeValue)
        ensures
            t@ == tai_nanos,
    {
        TimeValue { tai_nanos }
    }

    /// Moves forward by `delta` nanoseconds (backward where `delta` is
    /// negative); `None` exactly when the result leaves the time axis.
    pub fn checked_add_nanos(self, delta: i128) -> (r: Option<TimeValue>)
        ensures
            r == self.offset_by(delta as int),
    {
        match self.tai_nanos.checked_add(delta) {
            Some(tai_nanos) => Some(TimeValue { tai_nanos }),
            None => None,
        }
    }

    /// Moves backward by `delta` nanoseconds; `None` exactly when the result
    /// leaves the time axis.
    pub fn checked_sub_nanos(self, delta: i128) -> (r: Option<TimeValue>)
        ensures
            r == self.offset_by(-(delta as int)),
    {
        match self.tai_nanos.checked_sub(delta) {
            Some(tai_nanos) => Some(TimeValue { tai_nanos }),
            None => None,
        }
    }

    /// The civil year of this instant.
    pub fn civil_year(self) -> (year: i32)
        ensures
            year as int == utc_year_at(self@),
    {
        gregorian_utc_year(self.tai_nanos)
    }
}

/// The year of the Gregorian calendar date, in UTC, of the instant that lies
/// `tai_nanos` nanoseconds of TAI after 1900-01-01T00:00:00 TAI.
pub uninterp spec fn utc_year_at(tai_nanos: int) -> int;

/// `hifitime::Epoch::to_gregorian_utc`, on the epoch that hifitime builds from
/// a count of TAI nanoseconds, narrowed to the year. Not proved here: that the
/// year is a function of the count alone. hifitime derives it from the count
/// and its built-in leap second table, with saturating arithmetic throughout.
#[verifier::external_body]
fn gregorian_utc_year(tai_nanos: i128) -> (year: i32)
    ensures
        year as int == utc_year_at(tai_nanos as int),
{
    let span = hifitime::Duration::from_total_nanoseconds(tai_nanos);
    hifitime::Epoch::from_tai_duration(span).to_gregorian_utc().0
}

} // verus!
