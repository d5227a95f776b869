//! The lunisolar calendar: zodiacal months counted from the first new moon of
//! the civil year, the three precessional epochs, and the date built on them.

use vstd::prelude::*;
use crate::moon::{
    answers_everywhere, implements, last_moon_at, moon_before, moon_before_at, year_anchor_at,
    MoonFinder,
};
use crate::phase::{PhaseSample, SearchError};
use crate::time::{utc_year_at, TimeValue, NANOS_PER_DAY};

verus! {

/// The twelve months, in the order in which they follow one another.
#[derive(Clone, Copy, Debug, PartialEq, Eq, Structural)]
pub enum Month {
    Capricornus,
    Aquarius,
    Pisces,
    Aries,
    Taurus,
    Gemini,
    Cancer,
    Leo,
    Virgo,
    Libra,
    Scorpius,
    Sagittarius,
}

impl Month {
    /// The place of a month in the cycle, from 0 for Capricornus to 11 for
    /// Sagittarius.
    pub open spec fn index(self) -> int {
        match self {
            Month::Capricornus => 0,
            Month::Aquarius => 1,
            Month::Pisces => 2,
            Month::Aries => 3,
            Month::Taurus => 4,
            Month::Gemini => 5,
            Month::Cancer => 6,
            Month::Leo => 7,
            Month::Virgo => 8,
            Month::Libra => 9,
            Month::Scorpius => 10,
            Month::Sagittarius => 11,
        }
    }

    /// The month at place `i` of the cycle, places counted modulo 12.
    pub open spec fn at(i: int) -> Month {
        let place = i % 12;
        if place == 0 {
            Month::Capricornus
        } else if place == 1 {
            Month::Aquarius
        } else if place == 2 {
            Month::Pisces
        } else if place == 3 {
            Month::Aries
        } else if place == 4 {
            Month::Taurus
        } else if place == 5 {
            Month::Gemini
        } else if place == 6 {
            Month::Cancer
        } else if place == 7 {
            Month::Leo
        } else if place == 8 {
            Month::Virgo
        } else if place == 9 {
            Month::Libra
        } else if place == 10 {
            Month::Scorpius
        } else {
            Month::Sagittarius
        }
    }

    /// The month `steps` steps further round the cycle.
    pub open spec fn advanced(self, steps: nat) -> Month {
        Month::at(self.index() + steps)
    }

    /// The month that follows this one; Capricornus follows Sagittarius.
    pub open spec fn successor(self) -> Month {
        self.advanced(1)
    }

    /// The place of this month in the cycle.
    pub fn ordinal(self) -> (i: u8)
        ensures
            i == self.index(),
    {
        match self {
            Month::Capricornus => 0,
            Month::Aquarius => 1,
            Month::Pisces => 2,
            Month::Aries => 3,
            Month::Taurus => 4,
            Month::Gemini => 5,
            Month::Cancer => 6,
            Month::Leo => 7,
            Month::Virgo => 8,
            Month::Libra => 9,
            Month::Scorpius => 10,
            Month::Sagittarius => 11,
        }
    }

    /// The month at a place of the cycle, places counted modulo 12.
    pub fn from_ordinal(i: u8) -> (month: Month)
        ensures
            month == Month::at(i as int),
    {
        let place: u8 = i % 12;
        match place {
            0 => Month::Capricornus,
            1 => Month::Aquarius,
            2 => Month::Pisces,
            3 => Month::Aries,
            4 => Month::Taurus,
            5 => Month::Gemini,
            6 => Month::Cancer,
            7 => Month::Leo,
            8 => Month::Virgo,
            9 => Month::Libra,
            10 => Month::Scorpius,
            _ => Month::Sagittarius,
        }
    }

    /// The month that follows this one.
    pub fn next(self) -> (month: Month)
        ensures
            month == self.successor(),
    {
        Month::from_ordinal(self.ordinal() + 1)
    }

    /// The month `steps` steps further round the cycle.
    pub fn advanced_by(self, steps: u128) -> (month: Month)
        ensures
            month == self.advanced(steps as nat),
    {
        let turn: u8 = (steps % 12) as u8;
        Month::from_ordinal(self.ordinal() + turn)
    }
}

/// The three reference instants from which years are counted.
#[derive(Clone, Copy, Debug, PartialEq, Eq, Structural)]
pub enum PrecessionalEraEpoch {
    /// Julian day -1287717.
    First,
    /// Julian day 584283.
    Second,
    /// Julian day 2456283.
    Third,
}

/// The Julian day of the first epoch.
pub const FIRST_EPOCH_JD: i64 = -1287717;

/// The Julian day of the second epoch.
pub const SECOND_EPOCH_JD: i64 = 584283;

/// The Julian day of the third epoch.
pub const THIRD_EPOCH_JD: i64 = 2456283;

/// The years from January 2013 to January 2020.
pub const YEARS_TO_LATER_REFERENCE: i32 = 7;

/// Whole Julian years of 365.25 days in the days from `from_day` to `to_day`.
pub open spec fn whole_years_between(from_day: int, to_day: int) -> int {
    ((to_day - from_day) * 4) / 1461
}

impl PrecessionalEraEpoch {
    /// The Julian day on which the epoch falls.
    pub open spec fn julian_day_of(self) -> int {
        match self {
            PrecessionalEraEpoch::First => FIRST_EPOCH_JD as int,
            PrecessionalEraEpoch::Second => SECOND_EPOCH_JD as int,
            PrecessionalEraEpoch::Third => THIRD_EPOCH_JD as int,
        }
    }

    /// The Julian day on which the epoch falls.
    pub fn julian_day(self) -> (day: i64)
        ensures
            day == self.julian_day_of(),
    {
        match self {
            PrecessionalEraEpoch::First => FIRST_EPOCH_JD,
            PrecessionalEraEpoch::Second => SECOND_EPOCH_JD,
            PrecessionalEraEpoch::Third => THIRD_EPOCH_JD,
        }
    }

    /// The whole years from this epoch to the third.
    pub fn years_to_third(self) -> (years: i32)
        ensures
            years == whole_years_between(
                self.julian_day_of(),
                PrecessionalEraEpoch::Third.julian_day_of(),
            ),
    {
        let days: i64 = THIRD_EPOCH_JD - self.julian_day();
        let quarters: u64 = (days * 4) as u64;
        (quarters / 1461) as i32
    }
}

/// The whole years elapsed since the first epoch as of January 2013, the
/// month after the third epoch.
pub fn first_epoch_year_as_of_jan_2013() -> (years: i32)
    ensures
        years == whole_years_between(FIRST_EPOCH_JD as int, THIRD_EPOCH_JD as int),
        years == 10250,
{
    PrecessionalEraEpoch::First.years_to_third()
}

/// The whole years elapsed since the first epoch as of January 2020.
pub fn first_epoch_year_as_of_jan_2020() -> (years: i32)
    ensures
        years == whole_years_between(FIRST_EPOCH_JD as int, THIRD_EPOCH_JD as int)
            + YEARS_TO_LATER_REFERENCE,
        years == 10257,
{
    first_epoch_year_as_of_jan_2013() + YEARS_TO_LATER_REFERENCE
}

/// The whole years elapsed since the second epoch as of January 2013, the
/// month after the third epoch.
pub fn second_epoch_year_as_of_jan_2013() -> (years: i32)
    ensures
        years == whole_years_between(SECOND_EPOCH_JD as int, THIRD_EPOCH_JD as int),
        years == 5125,
{
    PrecessionalEraEpoch::Second.years_to_third()
}

/// The whole years elapsed since the second epoch as of January 2020.
pub fn second_epoch_year_as_of_jan_2020() -> (years: i32)
    ensures
        years == whole_years_between(SECOND_EPOCH_JD as int, THIRD_EPOCH_JD as int)
            + YEARS_TO_LATER_REFERENCE,
        years == 5132,
{
    second_epoch_year_as_of_jan_2013() + YEARS_TO_LATER_REFERENCE
}

/// The smallest whole number of days that holds the nanoseconds from
/// `new_moon` to `query`, kept within what a signed byte holds.
pub open spec fn day_of_month_at(query: int, new_moon: int) -> int {
    let days = -((new_moon - query) / (NANOS_PER_DAY as int));
    if days > i8::MAX {
        i8::MAX as int
    } else if days < i8::MIN {
        i8::MIN as int
    } else {
        days
    }
}

/// The day of the month of `query` in the month that began at `new_moon`:
/// the days elapsed since the new moon, rounded up.
pub fn day_of_month(query: TimeValue, new_moon: TimeValue) -> (day: i8)
    ensures
        day == day_of_month_at(query@, new_moon@),
{
    let high: i128 = 126 * NANOS_PER_DAY;
    let low: i128 = -128 * NANOS_PER_DAY;
    match query.tai_nanos.checked_sub(new_moon.tai_nanos) {
        None => {
            if query.tai_nanos > new_moon.tai_nanos {
                assert(-((new_moon@ - query@) / (NANOS_PER_DAY as int)) > i8::MAX) by (nonlinear_arith)
                    requires
                        query@ - new_moon@ > i128::MAX,
                ;
                i8::MAX
            } else {
                assert(-((new_moon@ - query@) / (NANOS_PER_DAY as int)) < i8::MIN) by (nonlinear_arith)
                    requires
                        query@ - new_moon@ < i128::MIN,
                ;
                i8::MIN
            }
        },
        Some(elapsed) => {
            if elapsed > high {
                i8::MAX
            } else if elapsed <= low {
                i8::MIN
            } else if elapsed > 0 {
                let whole: u128 = (elapsed as u128) / (NANOS_PER_DAY as u128);
                let rest: u128 = (elapsed as u128) % (NANOS_PER_DAY as u128);
                if rest == 0 {
                    whole as i8
                } else {
                    (whole + 1) as i8
                }
            } else {
                let back: u128 = (-elapsed) as u128;
                let whole: u128 = back / (NANOS_PER_DAY as u128);
                -(whole as i8)
            }
        },
    }
}

/// A date of the calendar.
#[derive(Clone, Copy, Debug, PartialEq, Eq, Structural)]
pub struct Date {
    pub epoch: PrecessionalEraEpoch,
    pub precessional_era: i8,
    pub year: i32,
    pub month: Month,
    pub day_of_month: i8,
}

impl Date {
    /// The date made of the given parts, with the day of the month of `query`
    /// counted from `new_moon`.
    pub open spec fn assembled(
        epoch: PrecessionalEraEpoch,
        precessional_era: i8,
        year: i32,
        month: Month,
        query: TimeValue,
        new_moon: TimeValue,
    ) -> Date {
        Date {
            epoch,
            precessional_era,
            year,
            month,
            day_of_month: day_of_month_at(query@, new_moon@) as i8,
        }
    }

    /// The date from which all counting starts.
    pub fn zero() -> (date: Date)
        ensures
            date == (Date {
                epoch: PrecessionalEraEpoch::Second,
                precessional_era: 0,
                year: 0,
                month: Month::Capricornus,
                day_of_month: 0,
            }),
    {
        Date {
            epoch: PrecessionalEraEpoch::Second,
            precessional_era: 0,
            year: 0,
            month: Month::Capricornus,
            day_of_month: 0,
        }
    }

    /// Builds a date from its parts and from the two instants that give the
    /// day of the month: the instant asked about and the new moon before it.
    pub fn assemble(
        epoch: PrecessionalEraEpoch,
        precessional_era: i8,
        year: i32,
        month: Month,
        query: TimeValue,
        new_moon: TimeValue,
    ) -> (date: Date)
        ensures
            date == Date::assembled(epoch, precessional_era, year, month, query, new_moon),
    {
        Date { epoch, precessional_era, year, month, day_of_month: day_of_month(query, new_moon) }
    }
}

/// The month in which the first new moon of the civil year `year` falls.
///
/// The equinoxes drift through the constellations, and the first new moon of
/// the year with them: one month back for each band of years. The bands are
/// rough, and rougher the further they lie from the present.
pub open spec fn base_month_of(year: int) -> Month {
    if year < -21700 {
        Month::Cancer
    } else if year < -17700 {
        Month::Gemini
    } else if year < -13700 {
        Month::Taurus
    } else if year < -9700 {
        Month::Aries
    } else if year < -5700 {
        Month::Pisces
    } else if year < -1700 {
        Month::Aquarius
    } else if year < 2300 {
        Month::Capricornus
    } else if year < 6300 {
        Month::Sagittarius
    } else if year < 10300 {
        Month::Scorpius
    } else if year < 14300 {
        Month::Libra
    } else if year < 18300 {
        Month::Virgo
    } else {
        Month::Leo
    }
}

/// The month in which the first new moon of the civil year `year` falls.
pub fn base_month(year: i32) -> (month: Month)
    ensures
        month == base_month_of(year as int),
{
    if year < -21700 {
        Month::Cancer
    } else if year < -17700 {
        Month::Gemini
    } else if year < -13700 {
        Month::Taurus
    } else if year < -9700 {
        Month::Aries
    } else if year < -5700 {
        Month::Pisces
    } else if year < -1700 {
        Month::Aquarius
    } else if year < 2300 {
        Month::Capricornus
    } else if year < 6300 {
        Month::Sagittarius
    } else if year < 10300 {
        Month::Scorpius
    } else if year < 14300 {
        Month::Libra
    } else if year < 18300 {
        Month::Virgo
    } else {
        Month::Leo
    }
}

/// The month of a new moon that is the `count`-th after the first new moon
/// of its civil year, where that first new moon falls in the civil year
/// `first_year`.
pub open spec fn month_of_count(first_year: int, count: nat) -> Month {
    base_month_of(first_year).advanced(count)
}

/// The month of a new moon from the civil year of the first new moon of its
/// year and the count of new moons between the two.
pub fn month_from_count(first_year: i32, count: u128) -> (month: Month)
    ensures
        month == month_of_count(first_year as int, count as nat),
{
    base_month(first_year).advanced_by(count)
}

/// Walking back from the new moon `moon` while the civil year does not drop,
/// with `count` moons passed already: the count of moons passed in all, and
/// the moon at which the walk stops, the first new moon of the civil year.
pub open spec fn year_walk_at(
    eph: spec_fn(TimeValue) -> PhaseSample,
    moon: TimeValue,
    count: nat,
) -> Result<(nat, TimeValue), SearchError>
    decreases moon.tai_nanos - i128::MIN,
{
    match moon_before_at(eph, moon) {
        Err(e) => Err(e),
        Ok(earlier) => if utc_year_at(earlier@) < utc_year_at(moon@) {
            Ok((count, moon))
        } else {
            year_walk_at(eph, earlier, count + 1)
        },
    }
}

/// The new moons that fall before the new moon `moon` in its civil year, as
/// a count, and the first of the new moons of that year.
pub open spec fn moons_before_in_year_at(
    eph: spec_fn(TimeValue) -> PhaseSample,
    moon: TimeValue,
) -> Result<(nat, TimeValue), SearchError> {
    year_walk_at(eph, moon, 0)
}

/// The month that begins at the new moon `moon`.
pub open spec fn month_from_new_moon_at(
    eph: spec_fn(TimeValue) -> PhaseSample,
    moon: TimeValue,
) -> Result<Month, SearchError> {
    match moons_before_in_year_at(eph, moon) {
        Err(e) => Err(e),
        Ok((count, first)) => Ok(month_of_count(utc_year_at(first@), count)),
    }
}

/// The date of the instant `query`: the month of the new moon before it, and
/// the day counted from that new moon.
pub open spec fn tetrabiblos_date_at(
    eph: spec_fn(TimeValue) -> PhaseSample,
    query: TimeValue,
) -> Result<Date, SearchError> {
    match last_moon_at(eph, query) {
        Err(e) => Err(e),
        Ok(moon) => match month_from_new_moon_at(eph, moon) {
            Err(e) => Err(e),
            Ok(month) => Ok(
                Date::assembled(PrecessionalEraEpoch::Second, 0, 0, month, query, moon),
            ),
        },
    }
}

/// What a counting walk returns for what the walk is: the same moon, and the
/// same count as a machine integer.
pub open spec fn counted(
    r: Result<(u128, TimeValue), SearchError>,
    walk: Result<(nat, TimeValue), SearchError>,
) -> bool {
    match walk {
        Ok((count, first)) => r == Ok::<(u128, TimeValue), SearchError>((count as u128, first))
            && count <= u128::MAX,
        Err(e) => r == Err::<(u128, TimeValue), SearchError>(e),
    }
}

/// Counts the new moons that fall before the new moon `moon` in its civil
/// year, and finds the first new moon of that year.
pub fn moons_before_in_year<F: Fn(TimeValue) -> PhaseSample>(moon: TimeValue, oracle: &F) -> (r:
    Result<(u128, TimeValue), SearchError>)
    requires
        answers_everywhere(oracle),
    ensures
        forall|eph: spec_fn(TimeValue) -> PhaseSample| #[trigger]
            implements(oracle, eph) ==> counted(r, moons_before_in_year_at(eph, moon)),
        r matches Ok((count, first)) ==> first.tai_nanos <= moon.tai_nanos && count
            <= moon.tai_nanos - first.tai_nanos,
        r matches Err(e) ==> e.stops_a_walk(),
{
    let mut current = moon;
    let mut count: u128 = 0;
    loop
        invariant
            answers_everywhere(oracle),
            count <= moon.tai_nanos - current.tai_nanos,
            forall|eph: spec_fn(TimeValue) -> PhaseSample| #[trigger]
                implements(oracle, eph) ==> year_walk_at(eph, current, count as nat)
                    == moons_before_in_year_at(eph, moon),
        decreases current.tai_nanos - i128::MIN,
    {
        let earlier = match moon_before(current, oracle) {
            Err(e) => {
                return Err(e);
            },
            Ok(earlier) => earlier,
        };
        if earlier.civil_year() < current.civil_year() {
            return Ok((count, current));
        }
        count = count + 1;
        current = earlier;
    }
}

/// A month that can be told from the new moon it begins at.
pub trait ConvertibleMonth: Sized {
    /// The month that begins at the new moon `newmoon`.
    fn convert_from_new_moon<F: Fn(TimeValue) -> PhaseSample>(newmoon: TimeValue, oracle: &F) -> (r:
        Result<Self, SearchError>)
        requires
            answers_everywhere(oracle),
    ;
}

impl ConvertibleMonth for Month {
    /// Counts the new moons back to the first of the civil year, and advances
    /// the base month of that year by the count.
    fn convert_from_new_moon<F: Fn(TimeValue) -> PhaseSample>(newmoon: TimeValue, oracle: &F) -> (r:
        Result<Month, SearchError>)
        ensures
            forall|eph: spec_fn(TimeValue) -> PhaseSample| #[trigger]
                implements(oracle, eph) ==> r == month_from_new_moon_at(eph, newmoon),
            r matches Err(e) ==> e.stops_a_walk(),
    {
        match moons_before_in_year(newmoon, oracle) {
            Err(e) => Err(e),
            Ok((count, first)) => Ok(month_from_count(first.civil_year(), count)),
        }
    }
}

/// An instant that has a date in the calendar.
pub trait ConvertibleToTetrabiblos {
    /// The date of this instant.
    fn to_tetrabiblos_date<F: Fn(TimeValue) -> PhaseSample>(&self, oracle: &F) -> (r: Result<
        Date,
        SearchError,
    >)
        requires
            answers_everywhere(oracle),
    ;
}

impl ConvertibleToTetrabiblos for TimeValue {
    /// Finds the new moon before this instant and the month it begins, and
    /// counts the days since.
    fn to_tetrabiblos_date<F: Fn(TimeValue) -> PhaseSample>(&self, oracle: &F) -> (r: Result<
        Date,
        SearchError,
    >)
        ensures
            forall|eph: spec_fn(TimeValue) -> PhaseSample| #[trigger]
                implements(oracle, eph) ==> r == tetrabiblos_date_at(eph, *self),
            r matches Ok(date) ==> date.epoch == PrecessionalEraEpoch::Second
                && date.precessional_era == 0 && date.year == 0,
            r matches Err(e) ==> e.stops_a_walk(),
    {
        let mut moon = *self;
        match moon.mut_last_moon(oracle) {
            Err(e) => {
                return Err(e);
            },
            Ok(()) => {},
        }
        match Month::convert_from_new_moon(moon, oracle) {
            Err(e) => Err(e),
            Ok(month) => Ok(Date::assemble(PrecessionalEraEpoch::Second, 0, 0, month, *self, moon)),
        }
    }
}

/// One step more round the cycle leads to the month that follows.
pub proof fn lemma_advancing_steps_to_successor(month: Month, steps: nat)
    ensures
        month.advanced(steps + 1) == month.advanced(steps).successor(),
        month.advanced(0) == month,
{
}

/// The cycle has twelve months and closes on itself: Capricornus follows
/// Sagittarius, and twelve steps lead back to the month they began at.
pub proof fn lemma_cycle_closes(month: Month, steps: nat)
    ensures
        Month::Sagittarius.successor() == Month::Capricornus,
        month.advanced(steps + 12) == month.advanced(steps),
        month.successor() != month,
{
}

/// A walk that starts with one more moon counted ends with one more moon
/// counted, at the same moon.
pub proof fn lemma_year_walk_counts_on(
    eph: spec_fn(TimeValue) -> PhaseSample,
    moon: TimeValue,
    count: nat,
)
    ensures
        match year_walk_at(eph, moon, count) {
            Ok((total, first)) => year_walk_at(eph, moon, count + 1) == Ok::<
                (nat, TimeValue),
                SearchError,
            >((total + 1, first)),
            Err(e) => year_walk_at(eph, moon, count + 1) == Err::<(nat, TimeValue), SearchError>(e),
        },
    decreases moon.tai_nanos - i128::MIN,
{
    match moon_before_at(eph, moon) {
        Ok(earlier) => {
            if !(utc_year_at(earlier@) < utc_year_at(moon@)) {
                lemma_year_walk_counts_on(eph, earlier, count + 1);
            }
        },
        Err(_) => {},
    }
}

/// Of two consecutive new moons of one civil year, the later has one more
/// new moon before it in that year than the earlier, the first new moon of
/// the year is the same for both, and the month of the later is the month
/// that follows the month of the earlier.
pub proof fn lemma_consecutive_moons_count_up(
    eph: spec_fn(TimeValue) -> PhaseSample,
    earlier: TimeValue,
    later: TimeValue,
    count: nat,
    first: TimeValue,
    month: Month,
)
    requires
        moon_before_at(eph, later) == Ok::<TimeValue, SearchError>(earlier),
        utc_year_at(earlier@) == utc_year_at(later@),
        moons_before_in_year_at(eph, earlier) == Ok::<(nat, TimeValue), SearchError>(
            (count, first),
        ),
        month_from_new_moon_at(eph, earlier) == Ok::<Month, SearchError>(month),
    ensures
        moons_before_in_year_at(eph, later) == Ok::<(nat, TimeValue), SearchError>(
            (count + 1, first),
        ),
        month_from_new_moon_at(eph, later) == Ok::<Month, SearchError>(month.successor()),
{
    lemma_year_walk_counts_on(eph, earlier, 0);
    lemma_advancing_steps_to_successor(base_month_of(utc_year_at(first@)), count);
}

/// The count ends on the new moon that follows the last new moon of the
/// year before: the moon before the first new moon of the year is the moon
/// that the walk for the first new moon of the year arrives at.
pub proof fn lemma_walk_ends_after_the_anchor(
    eph: spec_fn(TimeValue) -> PhaseSample,
    moon: TimeValue,
    count: nat,
    total: nat,
    first: TimeValue,
)
    requires
        year_walk_at(eph, moon, count) == Ok::<(nat, TimeValue), SearchError>((total, first)),
    ensures
        total >= count,
        first.tai_nanos <= moon.tai_nanos,
        year_anchor_at(eph, moon, utc_year_at(moon@)) == moon_before_at(eph, first),
        moon_before_at(eph, first) matches Ok(anchor) && utc_year_at(anchor@) < utc_year_at(
            first@,
        ),
    decreases moon.tai_nanos - i128::MIN,
{
    let earlier = moon_before_at(eph, moon)->Ok_0;
    assert(year_anchor_at(eph, moon, utc_year_at(moon@)) == year_anchor_at(
        eph,
        earlier,
        utc_year_at(moon@),
    ));
    if !(utc_year_at(earlier@) < utc_year_at(moon@)) {
        lemma_walk_ends_after_the_anchor(eph, earlier, count + 1, total, first);
        assert(year_anchor_at(eph, earlier, utc_year_at(moon@)) == year_anchor_at(
            eph,
            earlier,
            utc_year_at(earlier@),
        ));
    }
}

} // verus!
