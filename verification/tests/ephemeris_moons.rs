//! The searches against the VSOP87 ephemeris, on dates with known new moons.

use hifitime::{Duration, Epoch};
use tetrabiblos_lib::moon::{first_moon_of_solar_year, MoonFinder, STEP_NANOS};
use tetrabiblos_lib::phase::PhaseSample;
use tetrabiblos_lib::tetrabiblos::{
    moons_before_in_year, ConvertibleMonth, ConvertibleToTetrabiblos, Date, Month,
    PrecessionalEraEpoch,
};
use tetrabiblos_lib::time::TimeValue;
use vsop87::{vsop87a, RectangularCoordinates};

const SECONDS_PER_DAY: f64 = 86_400.0;
const ERROR_TOLERANCE_JDE_20MIN: f64 = 20.0 * 60.0 / SECONDS_PER_DAY;
const ERROR_TOLERANCE_JDE_10MIN: f64 = 10.0 * 60.0 / SECONDS_PER_DAY;

fn to_time(epoch: Epoch) -> TimeValue {
    TimeValue::from_tai_nanos(epoch.to_tai_duration().total_nanoseconds())
}

fn to_epoch(time: TimeValue) -> Epoch {
    Epoch::from_tai_duration(Duration::from_total_nanoseconds(time.tai_nanos))
}

fn longitude(c: &RectangularCoordinates) -> f64 {
    (c.y / c.x).atan()
}

fn magnitude(c: &RectangularCoordinates) -> f64 {
    (c.x * c.x + c.y * c.y + c.z * c.z).sqrt()
}

fn fixed(value: f64, unit: f64) -> u64 {
    if value.is_finite() {
        (value * unit).round() as u64
    } else {
        u64::MAX
    }
}

fn sample(time: TimeValue) -> PhaseSample {
    let jde = to_epoch(time).to_jde_tai_days();
    let earth = vsop87a::earth(jde);
    let barycenter = vsop87a::earth_moon(jde);
    let diff = (longitude(&earth) - longitude(&barycenter)).abs();
    let phase = diff * 0.5 * std::f64::consts::FRAC_1_PI;
    PhaseSample {
        phase: fixed(phase, 1e18),
        earth_distance: fixed(magnitude(&earth), 1e15),
        barycenter_distance: fixed(magnitude(&barycenter), 1e15),
    }
}

#[test]
fn test_aug_2020_new_moon_within_20min_tolerance() {
    let aug_2020_new_moon = Epoch::from_gregorian_utc(2020, 8, 19, 2, 28, 0, 0).to_jde_tai_days();
    let mut jde = to_time(Epoch::from_gregorian_utc(2020, 8, 18, 0, 0, 0, 0));
    jde.mut_next_moon(&sample).unwrap();
    assert_eq!(
        (to_epoch(jde).to_jde_tai_days() - aug_2020_new_moon).abs() < ERROR_TOLERANCE_JDE_20MIN,
        true
    );
}

#[test]
fn test_aug_2020_new_moon_exceeds_10min_tolerance() {
    let aug_2020_new_moon = Epoch::from_gregorian_utc(2020, 8, 19, 2, 28, 0, 0).to_jde_tai_days();
    let mut jde = to_time(Epoch::from_gregorian_utc(2020, 8, 18, 0, 0, 0, 0));
    jde.mut_next_moon(&sample).unwrap();
    assert_eq!(
        (to_epoch(jde).to_jde_tai_days() - aug_2020_new_moon).abs() < ERROR_TOLERANCE_JDE_10MIN,
        false
    );
}

#[test]
fn test_aug_2020_last_moon_within_20min_tolerance() {
    let aug_2020_new_moon = Epoch::from_gregorian_utc(2020, 8, 19, 2, 28, 0, 0).to_jde_tai_days();
    let mut jde = to_time(Epoch::from_gregorian_utc(2020, 8, 28, 0, 0, 0, 0));
    jde.mut_last_moon(&sample).unwrap();
    assert_eq!(
        (to_epoch(jde).to_jde_tai_days() - aug_2020_new_moon).abs() < ERROR_TOLERANCE_JDE_20MIN,
        true
    );
}

#[test]
fn test_aug_2020_last_moon_exceeds_10min_tolerance() {
    let aug_2020_new_moon = Epoch::from_gregorian_utc(2020, 8, 19, 2, 28, 0, 0).to_jde_tai_days();
    let mut jde = to_time(Epoch::from_gregorian_utc(2020, 8, 28, 0, 0, 0, 0));
    jde.mut_last_moon(&sample).unwrap();
    assert_eq!(
        (to_epoch(jde).to_jde_tai_days() - aug_2020_new_moon).abs() < ERROR_TOLERANCE_JDE_10MIN,
        false
    );
}

#[test]
fn first_moon_of_2020_is_on_january_24() {
    let start = to_time(Epoch::from_gregorian_utc(2020, 1, 24, 20, 0, 0, 0));
    let first = first_moon_of_solar_year(start, &sample).unwrap();
    let (year, month, day, _, _, _, _) = to_epoch(first).to_gregorian_utc();
    assert_eq!((year, month, day), (2020, 1, 24));
}

#[test]
fn a_new_moon_is_found_again_from_the_minute_before() {
    let mut moon = to_time(Epoch::from_gregorian_utc(2020, 8, 18, 20, 0, 0, 0));
    moon.mut_next_moon(&sample).unwrap();
    let mut again = moon.checked_sub_nanos(STEP_NANOS).unwrap();
    again.mut_next_moon(&sample).unwrap();
    assert_eq!(again, moon);
}

#[test]
fn last_moon_steps_over_the_new_moon_it_started_before() {
    let mut cursor = to_time(Epoch::from_gregorian_utc(2020, 8, 19, 2, 0, 0, 0));
    cursor.mut_last_moon(&sample).unwrap();
    let (year, month, day, hour, _, _, _) = to_epoch(cursor).to_gregorian_utc();
    assert_eq!((year, month, day, hour), (2020, 7, 20, 17));
}

#[test]
fn the_second_moon_of_2020_begins_aquarius() {
    let moon = to_time(Epoch::from_gregorian_utc(2020, 2, 23, 15, 33, 0, 0));
    let (count, first) = moons_before_in_year(moon, &sample).unwrap();
    assert_eq!(count, 1);
    let (year, month, day, _, _, _, _) = to_epoch(first).to_gregorian_utc();
    assert_eq!((year, month, day), (2020, 1, 24));
    assert_eq!(Month::convert_from_new_moon(moon, &sample), Ok(Month::Aquarius));
}

#[test]
fn the_date_of_a_february_day_of_2020() {
    let query = to_time(Epoch::from_gregorian_utc(2020, 2, 22, 0, 0, 0, 0));
    let date = query.to_tetrabiblos_date(&sample).unwrap();
    assert_eq!(
        date,
        Date {
            epoch: PrecessionalEraEpoch::Second,
            precessional_era: 0,
            year: 0,
            month: Month::Capricornus,
            day_of_month: 29,
        }
    );
}

#[test]
fn civil_year_follows_the_utc_calendar() {
    assert_eq!(to_time(Epoch::from_gregorian_utc(2020, 8, 18, 0, 0, 0, 0)).civil_year(), 2020);
    assert_eq!(to_time(Epoch::from_gregorian_utc(2019, 12, 31, 23, 59, 59, 0)).civil_year(), 2019);
    assert_eq!(to_time(Epoch::from_gregorian_utc(2020, 1, 1, 0, 0, 0, 0)).civil_year(), 2020);
    assert_eq!(TimeValue::from_tai_nanos(0).civil_year(), 1900);
    assert_eq!(TimeValue::from_tai_nanos(-1).civil_year(), 1899);
}
