//! The search for the next new moon, and the helpers that bracket a time
//! between new moons.

use vstd::prelude::*;
use crate::phase::{
    direction_of, phase_direction, PhaseSample, PhaseTrend, SearchError, Transition, PHASE_ONE,
};
use crate::time::{utc_year_at, TimeValue, NANOS_PER_DAY, NANOS_PER_MINUTE};

verus! {

/// The fine step between two samples: one minute.
pub const STEP_NANOS: i128 = NANOS_PER_MINUTE;

/// The coarse jump after a full moon: thirteen days, short of the half cycle
/// that leads to the new moon.
pub const JUMP_NANOS: i128 = 13 * NANOS_PER_DAY;

/// The way back from a new moon to before the one that preceded it:
/// thirty-one days, more than any synodic month.
pub const REWIND_NANOS: i128 = 31 * NANOS_PER_DAY;

/// The step back from a new moon before the search for the one before it:
/// one day, so that the search sees the phase fall into the minimum again.
pub const BACKSTEP_NANOS: i128 = NANOS_PER_DAY;

/// A search in progress.
#[derive(Clone, Copy, Debug, PartialEq, Eq, Structural)]
pub struct MoonSearch {
    /// The trend over the samples taken so far.
    pub trend: PhaseTrend,
    /// The phase of the newest sample, [`PHASE_ONE`] before the first.
    pub last_phase: u64,
    /// The instant of the newest sample, the start before the first.
    pub last_time: TimeValue,
    /// The instant of the sample to take next.
    pub cursor: TimeValue,
}

/// What a search does with one sample.
#[derive(Clone, Copy, Debug, PartialEq, Eq, Structural)]
pub enum SearchStep {
    /// It goes on, and wants the sample at the new cursor.
    Continue(MoonSearch),
    /// It ends: a new moon at this instant.
    NewMoon(TimeValue),
}

impl MoonSearch {
    /// The search about to take its first sample at `start`.
    pub open spec fn starting_at(start: TimeValue) -> MoonSearch {
        MoonSearch {
            trend: PhaseTrend::Uninitialized,
            last_phase: PHASE_ONE,
            last_time: start,
            cursor: start,
        }
    }

    /// The search that has read `sample` at the cursor, goes on with `trend`
    /// and moves the cursor by `delta`; it fails where the cursor cannot move
    /// that far.
    pub open spec fn moved(self, sample: PhaseSample, trend: PhaseTrend, delta: int) -> Result<
        SearchStep,
        SearchError,
    > {
        match self.cursor.offset_by(delta) {
            Some(cursor) => Ok(
                SearchStep::Continue(
                    MoonSearch { trend, last_phase: sample.phase, last_time: self.cursor, cursor },
                ),
            ),
            None => Err(SearchError::TimeOutOfRange),
        }
    }

    /// One step of the search: what follows from `sample`, taken at the cursor.
    ///
    /// A minimum of the phase with the Earth the farther body is the new moon
    /// and ends the search at the sample before this one. Any other minimum is
    /// a full moon: the cursor jumps, and the trend starts over as rising.
    /// Every step that does not end the search moves the cursor one fine step.
    pub open spec fn step(self, sample: PhaseSample) -> Result<SearchStep, SearchError> {
        if !sample.is_valid() {
            Err(SearchError::DegenerateSample)
        } else {
            match self.trend.after(direction_of(sample.phase, self.last_phase)) {
                None => Err(SearchError::InvalidTransition),
                Some(Transition::Minimum) => if sample.earth_is_farther() {
                    Ok(SearchStep::NewMoon(self.last_time))
                } else {
                    self.moved(sample, PhaseTrend::Rising, JUMP_NANOS + STEP_NANOS)
                },
                Some(Transition::Trend(trend)) => self.moved(sample, trend, STEP_NANOS as int),
            }
        }
    }

    /// The search about to take its first sample at `start`.
    pub fn new(start: TimeValue) -> (search: MoonSearch)
        ensures
            search == MoonSearch::starting_at(start),
    {
        MoonSearch {
            trend: PhaseTrend::Uninitialized,
            last_phase: PHASE_ONE,
            last_time: start,
            cursor: start,
        }
    }

    /// Feeds the search the sample taken at its cursor.
    pub fn advance(self, sample: PhaseSample) -> (r: Result<SearchStep, SearchError>)
        ensures
            r == self.step(sample),
    {
        if sample.phase > PHASE_ONE {
            return Err(SearchError::DegenerateSample);
        }
        let direction: i8 = phase_direction(sample.phase, self.last_phase);
        let (trend, delta): (PhaseTrend, i128) = match self.trend.transition(direction) {
            Err(e) => {
                return Err(e);
            },
            Ok(Transition::Minimum) => {
                if sample.earth_distance > sample.barycenter_distance {
                    return Ok(SearchStep::NewMoon(self.last_time));
                }
                (PhaseTrend::Rising, JUMP_NANOS + STEP_NANOS)
            },
            Ok(Transition::Trend(trend)) => (trend, STEP_NANOS),
        };
        match self.cursor.checked_add_nanos(delta) {
            Some(cursor) => Ok(
                SearchStep::Continue(
                    MoonSearch { trend, last_phase: sample.phase, last_time: self.cursor, cursor },
                ),
            ),
            None => Err(SearchError::TimeOutOfRange),
        }
    }
}

/// The search run to its end against the ephemeris `eph`: the new moon it
/// finds, or the error it stops on.
pub open spec fn run(eph: spec_fn(TimeValue) -> PhaseSample, search: MoonSearch) -> Result<
    TimeValue,
    SearchError,
>
    decreases i128::MAX - search.cursor.tai_nanos,
{
    match search.step(eph(search.cursor)) {
        Ok(SearchStep::NewMoon(moon)) => Ok(moon),
        Ok(SearchStep::Continue(next)) => run(eph, next),
        Err(e) => Err(e),
    }
}

/// The first new moon that a search started at `start` finds.
pub open spec fn next_moon_at(eph: spec_fn(TimeValue) -> PhaseSample, start: TimeValue) -> Result<
    TimeValue,
    SearchError,
> {
    run(eph, MoonSearch::starting_at(start))
}

/// The closure `oracle` computes the ephemeris `eph`: whatever it returns for
/// an instant is `eph` of that instant.
pub open spec fn implements<F: Fn(TimeValue) -> PhaseSample>(
    oracle: &F,
    eph: spec_fn(TimeValue) -> PhaseSample,
) -> bool {
    forall|t: TimeValue, s: PhaseSample| #[trigger] oracle.ensures((t,), s) ==> s == eph(t)
}

/// The closure `oracle` may be asked about every instant.
pub open spec fn answers_everywhere<F: Fn(TimeValue) -> PhaseSample>(oracle: &F) -> bool {
    forall|t: TimeValue| #[trigger] oracle.requires((t,))
}

/// Where a search that began at `start` can stand: on the grid of fine steps
/// laid out from `start`; at `start` itself before its first sample; after
/// that with its newest sample at `start` or later and its cursor beyond that
/// sample; and once it knows whether the phase rises or falls, with its
/// newest sample a fine step or more after `start`.
pub open spec fn on_track(search: MoonSearch, start: TimeValue) -> bool {
    &&& (search.cursor.tai_nanos - start.tai_nanos) % (STEP_NANOS as int) == 0
    &&& (search.last_time.tai_nanos - start.tai_nanos) % (STEP_NANOS as int) == 0
    &&& search.trend == PhaseTrend::Uninitialized ==> search.cursor == start
    &&& search.trend != PhaseTrend::Uninitialized ==> start.tai_nanos <= search.last_time.tai_nanos
        < search.cursor.tai_nanos
    &&& (search.trend == PhaseTrend::Rising || search.trend == PhaseTrend::Falling)
        ==> start.tai_nanos + STEP_NANOS <= search.last_time.tai_nanos
}

/// What a cursor-moving search leaves behind: on success the cursor stands on
/// the moon found, on failure it has not moved and the error is handed back.
pub open spec fn lands(
    before: TimeValue,
    after: TimeValue,
    r: Result<(), SearchError>,
    found: Result<TimeValue, SearchError>,
) -> bool {
    match found {
        Ok(moon) => r is Ok && after == moon,
        Err(e) => r == Err::<(), SearchError>(e) && after == before,
    }
}

/// The new moon before the one that a search from `cursor` finds: search
/// forward, step back by [`REWIND_NANOS`], search forward again.
pub open spec fn last_moon_at(eph: spec_fn(TimeValue) -> PhaseSample, cursor: TimeValue) -> Result<
    TimeValue,
    SearchError,
> {
    match next_moon_at(eph, cursor) {
        Err(e) => Err(e),
        Ok(next) => match next.offset_by(-REWIND_NANOS) {
            None => Err(SearchError::TimeOutOfRange),
            Some(earlier) => next_moon_at(eph, earlier),
        },
    }
}

/// The new moon before the new moon `moon`: the last moon as seen from one
/// day before `moon`. A result that is not earlier than `moon` is an error.
pub open spec fn moon_before_at(eph: spec_fn(TimeValue) -> PhaseSample, moon: TimeValue) -> Result<
    TimeValue,
    SearchError,
> {
    match moon.offset_by(-BACKSTEP_NANOS) {
        None => Err(SearchError::TimeOutOfRange),
        Some(cursor) => match last_moon_at(eph, cursor) {
            Err(e) => Err(e),
            Ok(earlier) => if earlier.tai_nanos < moon.tai_nanos {
                Ok(earlier)
            } else {
                Err(SearchError::NoEarlierMoon)
            },
        },
    }
}

/// Walking back moon by moon from `moon`, which was reached from a point in
/// the civil year `year`: the first moon met whose civil year is less than
/// that of the point it was reached from.
pub open spec fn year_anchor_at(
    eph: spec_fn(TimeValue) -> PhaseSample,
    moon: TimeValue,
    year: int,
) -> Result<TimeValue, SearchError>
    decreases moon.tai_nanos - i128::MIN,
{
    if utc_year_at(moon@) < year {
        Ok(moon)
    } else {
        match moon_before_at(eph, moon) {
            Err(e) => Err(e),
            Ok(earlier) => year_anchor_at(eph, earlier, utc_year_at(moon@)),
        }
    }
}

/// The first new moon of the civil year of `cursor`: the new moon that
/// follows the last one of the year before.
pub open spec fn first_moon_of_solar_year_at(
    eph: spec_fn(TimeValue) -> PhaseSample,
    cursor: TimeValue,
) -> Result<TimeValue, SearchError> {
    match last_moon_at(eph, cursor) {
        Err(e) => Err(e),
        Ok(moon) => match year_anchor_at(eph, moon, utc_year_at(cursor@)) {
            Err(e) => Err(e),
            Ok(anchor) => next_moon_at(eph, anchor),
        },
    }
}

/// A time cursor that can be moved onto a new moon. The ephemeris is a
/// closure from an instant to the sample of that instant.
pub trait MoonFinder: Sized {
    /// Moves the cursor back onto the most recent new moon.
    fn mut_last_moon<F: Fn(TimeValue) -> PhaseSample>(&mut self, oracle: &F) -> (r: Result<
        (),
        SearchError,
    >)
        requires
            answers_everywhere(oracle),
    ;

    /// Moves the cursor forward onto the next new moon.
    fn mut_next_moon<F: Fn(TimeValue) -> PhaseSample>(&mut self, oracle: &F) -> (r: Result<
        (),
        SearchError,
    >)
        requires
            answers_everywhere(oracle),
    ;
}

impl MoonFinder for TimeValue {
    /// Two forward searches: one to the next new moon, one from thirty-one
    /// days before it.
    fn mut_last_moon<F: Fn(TimeValue) -> PhaseSample>(&mut self, oracle: &F) -> (r: Result<
        (),
        SearchError,
    >)
        ensures
            forall|eph: spec_fn(TimeValue) -> PhaseSample| #[trigger]
                implements(oracle, eph) ==> lands(
                    *old(self),
                    *final(self),
                    r,
                    last_moon_at(eph, *old(self)),
                ),
            r is Ok ==> final(self).tai_nanos >= old(self).tai_nanos + 2 * STEP_NANOS
                - REWIND_NANOS,
            r is Ok ==> (final(self).tai_nanos - old(self).tai_nanos) % (STEP_NANOS as int) == 0,
            r matches Err(e) ==> *final(self) == *old(self) && e.stops_a_search(),
    {
        let mut cursor = *self;
        match cursor.mut_next_moon(oracle) {
            Err(e) => {
                return Err(e);
            },
            Ok(()) => {},
        }
        let mut earlier = match cursor.checked_sub_nanos(REWIND_NANOS) {
            None => {
                return Err(SearchError::TimeOutOfRange);
            },
            Some(earlier) => earlier,
        };
        match earlier.mut_next_moon(oracle) {
            Err(e) => Err(e),
            Ok(()) => {
                *self = earlier;
                Ok(())
            },
        }
    }

    /// Samples minute by minute until the phase has passed a minimum at which
    /// the Earth is the farther body, jumping thirteen days after each minimum
    /// at which it is not.
    fn mut_next_moon<F: Fn(TimeValue) -> PhaseSample>(&mut self, oracle: &F) -> (r: Result<
        (),
        SearchError,
    >)
        ensures
            forall|eph: spec_fn(TimeValue) -> PhaseSample| #[trigger]
                implements(oracle, eph) ==> lands(
                    *old(self),
                    *final(self),
                    r,
                    next_moon_at(eph, *old(self)),
                ),
            r is Ok ==> old(self).tai_nanos + STEP_NANOS <= final(self).tai_nanos,
            r is Ok ==> (final(self).tai_nanos - old(self).tai_nanos) % (STEP_NANOS as int) == 0,
            r matches Err(e) ==> *final(self) == *old(self) && e.stops_a_search(),
    {
        let start = *self;
        let mut search = MoonSearch::new(start);
        loop
            invariant
                answers_everywhere(oracle),
                *self == start,
                start == *old(self),
                on_track(search, start),
                forall|eph: spec_fn(TimeValue) -> PhaseSample| #[trigger]
                    implements(oracle, eph) ==> run(eph, search) == next_moon_at(eph, start),
            decreases i128::MAX - search.cursor.tai_nanos,
        {
            let sample = oracle(search.cursor);
            match search.advance(sample) {
                Ok(SearchStep::NewMoon(moon)) => {
                    *self = moon;
                    return Ok(());
                },
                Ok(SearchStep::Continue(next)) => {
                    search = next;
                },
                Err(e) => {
                    return Err(e);
                },
            }
        }
    }
}

/// Steps from the new moon `moon` back to the new moon before it.
pub fn moon_before<F: Fn(TimeValue) -> PhaseSample>(moon: TimeValue, oracle: &F) -> (r: Result<
    TimeValue,
    SearchError,
>)
    requires
        answers_everywhere(oracle),
    ensures
        forall|eph: spec_fn(TimeValue) -> PhaseSample| #[trigger]
            implements(oracle, eph) ==> r == moon_before_at(eph, moon),
        r matches Ok(earlier) ==> earlier.tai_nanos < moon.tai_nanos,
        r matches Err(e) ==> e.stops_a_walk(),
{
    let mut cursor = match moon.checked_sub_nanos(BACKSTEP_NANOS) {
        None => {
            return Err(SearchError::TimeOutOfRange);
        },
        Some(cursor) => cursor,
    };
    match cursor.mut_last_moon(oracle) {
        Err(e) => Err(e),
        Ok(()) => if cursor.tai_nanos < moon.tai_nanos {
            Ok(cursor)
        } else {
            Err(SearchError::NoEarlierMoon)
        },
    }
}

/// Finds the first new moon of the civil year of `cursor`: walks back new
/// moon by new moon until the civil year drops, then searches forward once.
pub fn first_moon_of_solar_year<F: Fn(TimeValue) -> PhaseSample>(
    cursor: TimeValue,
    oracle: &F,
) -> (r: Result<TimeValue, SearchError>)
    requires
        answers_everywhere(oracle),
    ensures
        forall|eph: spec_fn(TimeValue) -> PhaseSample| #[trigger]
            implements(oracle, eph) ==> r == first_moon_of_solar_year_at(eph, cursor),
        r matches Err(e) ==> e.stops_a_walk(),
{
    let mut moon = cursor;
    match moon.mut_last_moon(oracle) {
        Err(e) => {
            return Err(e);
        },
        Ok(()) => {},
    }
    let mut year: i32 = cursor.civil_year();
    let ghost first_moon = moon;
    loop
        invariant
            answers_everywhere(oracle),
            forall|eph: spec_fn(TimeValue) -> PhaseSample| #[trigger]
                implements(oracle, eph) ==> last_moon_at(eph, cursor) == Ok::<
                    TimeValue,
                    SearchError,
                >(first_moon),
            forall|eph: spec_fn(TimeValue) -> PhaseSample| #[trigger]
                implements(oracle, eph) ==> year_anchor_at(eph, moon, year as int)
                    == year_anchor_at(eph, first_moon, utc_year_at(cursor@)),
        ensures
            forall|eph: spec_fn(TimeValue) -> PhaseSample| #[trigger]
                implements(oracle, eph) ==> Ok::<TimeValue, SearchError>(moon) == year_anchor_at(
                    eph,
                    first_moon,
                    utc_year_at(cursor@),
                ),
        decreases moon.tai_nanos - i128::MIN,
    {
        let moon_year: i32 = moon.civil_year();
        if moon_year < year {
            break ;
        }
        match moon_before(moon, oracle) {
            Err(e) => {
                return Err(e);
            },
            Ok(earlier) => {
                moon = earlier;
                year = moon_year;
            },
        }
    }
    match moon.mut_next_moon(oracle) {
        Err(e) => Err(e),
        Ok(()) => Ok(moon),
    }
}

/// The mean length of a synodic month, from new moon to new moon:
/// 29.530588853 days.
pub const SYNODIC_MONTH_NANOS: i128 = 2_551_442_876_899_200;

/// A search on track stays on track, and ends a fine step or more after its
/// start, on the grid of fine steps laid out from the start.
pub proof fn lemma_run_ends_after_start(
    eph: spec_fn(TimeValue) -> PhaseSample,
    search: MoonSearch,
    start: TimeValue,
    moon: TimeValue,
)
    requires
        on_track(search, start),
        run(eph, search) == Ok::<TimeValue, SearchError>(moon),
    ensures
        start.tai_nanos + STEP_NANOS <= moon.tai_nanos,
        (moon.tai_nanos - start.tai_nanos) % (STEP_NANOS as int) == 0,
    decreases i128::MAX - search.cursor.tai_nanos,
{
    match search.step(eph(search.cursor)) {
        Ok(SearchStep::Continue(next)) => {
            lemma_run_ends_after_start(eph, next, start, moon);
        },
        _ => {},
    }
}

/// The new moon that a search finds lies a fine step or more after the
/// start of the search, a whole number of fine steps from it.
pub proof fn lemma_next_moon_after_start(
    eph: spec_fn(TimeValue) -> PhaseSample,
    start: TimeValue,
    moon: TimeValue,
)
    requires
        next_moon_at(eph, start) == Ok::<TimeValue, SearchError>(moon),
    ensures
        start.tai_nanos + STEP_NANOS <= moon.tai_nanos,
        (moon.tai_nanos - start.tai_nanos) % (STEP_NANOS as int) == 0,
{
    lemma_run_ends_after_start(eph, MoonSearch::starting_at(start), start, moon);
}

/// Of two searches that start more than a synodic month apart, the earlier
/// one does not find the later new moon, provided that the earlier search
/// ends within a synodic month of its start.
pub proof fn lemma_next_moon_monotonic(
    eph: spec_fn(TimeValue) -> PhaseSample,
    t1: TimeValue,
    t2: TimeValue,
    moon1: TimeValue,
    moon2: TimeValue,
)
    requires
        t2.tai_nanos - t1.tai_nanos > SYNODIC_MONTH_NANOS,
        next_moon_at(eph, t1) == Ok::<TimeValue, SearchError>(moon1),
        next_moon_at(eph, t2) == Ok::<TimeValue, SearchError>(moon2),
        moon1.tai_nanos - t1.tai_nanos <= SYNODIC_MONTH_NANOS,
    ensures
        moon1.tai_nanos <= moon2.tai_nanos,
{
    lemma_next_moon_after_start(eph, t2, moon2);
}

/// No search stops on a pair of trend and direction that the transition
/// table does not hold.
pub proof fn lemma_run_never_invalid(eph: spec_fn(TimeValue) -> PhaseSample, search: MoonSearch)
    ensures
        run(eph, search) != Err::<TimeValue, SearchError>(SearchError::InvalidTransition),
        run(eph, search) != Err::<TimeValue, SearchError>(SearchError::NoEarlierMoon),
    decreases i128::MAX - search.cursor.tai_nanos,
{
    match search.step(eph(search.cursor)) {
        Ok(SearchStep::Continue(next)) => {
            lemma_run_never_invalid(eph, next);
        },
        _ => {},
    }
}

/// A search that has taken a sample remembers it: the phase it holds is the
/// phase of the ephemeris at the instant of its newest sample.
pub open spec fn remembers(eph: spec_fn(TimeValue) -> PhaseSample, search: MoonSearch) -> bool {
    search.trend != PhaseTrend::Uninitialized ==> {
        &&& search.last_phase == eph(search.last_time).phase
        &&& search.last_time.tai_nanos < search.cursor.tai_nanos
        &&& search.trend == PhaseTrend::Falling ==> search.cursor.tai_nanos
            == search.last_time.tai_nanos + STEP_NANOS
    }
}

/// The instant `moon` is a new moon of the sampled ephemeris: one fine step
/// later the phase is higher and the Earth is the farther body.
pub open spec fn is_sampled_new_moon(eph: spec_fn(TimeValue) -> PhaseSample, moon: TimeValue) -> bool {
    match moon.offset_by(STEP_NANOS as int) {
        None => false,
        Some(after) => {
            &&& eph(after).is_valid()
            &&& eph(after).phase > eph(moon).phase
            &&& eph(after).earth_is_farther()
        },
    }
}

/// Where a search ends, the phase turns upward with the Earth the farther
/// body.
pub proof fn lemma_run_ends_on_new_moon(
    eph: spec_fn(TimeValue) -> PhaseSample,
    search: MoonSearch,
    moon: TimeValue,
)
    requires
        remembers(eph, search),
        run(eph, search) == Ok::<TimeValue, SearchError>(moon),
    ensures
        is_sampled_new_moon(eph, moon),
    decreases i128::MAX - search.cursor.tai_nanos,
{
    match search.step(eph(search.cursor)) {
        Ok(SearchStep::Continue(next)) => {
            lemma_run_ends_on_new_moon(eph, next, moon);
        },
        _ => {},
    }
}

/// The instant that `next_moon_at` returns is a new moon of the sampled
/// ephemeris.
pub proof fn lemma_next_moon_is_new_moon(
    eph: spec_fn(TimeValue) -> PhaseSample,
    start: TimeValue,
    moon: TimeValue,
)
    requires
        next_moon_at(eph, start) == Ok::<TimeValue, SearchError>(moon),
    ensures
        is_sampled_new_moon(eph, moon),
{
    lemma_run_ends_on_new_moon(eph, MoonSearch::starting_at(start), moon);
}

/// A new moon is found again from one fine step before it: where the phase
/// does not rise into `moon` and `moon` is a sampled new moon, the search
/// from the step before `moon` ends on `moon`.
pub proof fn lemma_new_moon_found_again(
    eph: spec_fn(TimeValue) -> PhaseSample,
    before: TimeValue,
    moon: TimeValue,
)
    requires
        before.offset_by(STEP_NANOS as int) == Some(moon),
        eph(before).is_valid(),
        eph(moon).phase <= eph(before).phase,
        is_sampled_new_moon(eph, moon),
    ensures
        next_moon_at(eph, before) == Ok::<TimeValue, SearchError>(moon),
{
    reveal_with_fuel(run, 3);
}

/// The instant that `last_moon_at` returns is a new moon of the sampled
/// ephemeris, and lies less than thirty-one days before the new moon that the
/// first of its two searches found.
pub proof fn lemma_last_moon_is_new_moon(
    eph: spec_fn(TimeValue) -> PhaseSample,
    cursor: TimeValue,
    moon: TimeValue,
)
    requires
        last_moon_at(eph, cursor) == Ok::<TimeValue, SearchError>(moon),
    ensures
        is_sampled_new_moon(eph, moon),
        cursor.tai_nanos + 2 * STEP_NANOS - REWIND_NANOS <= moon.tai_nanos,
        (moon.tai_nanos - cursor.tai_nanos) % (STEP_NANOS as int) == 0,
{
    let next = next_moon_at(eph, cursor)->Ok_0;
    let earlier = next.offset_by(-REWIND_NANOS)->Some_0;
    lemma_next_moon_after_start(eph, cursor, next);
    lemma_next_moon_after_start(eph, earlier, moon);
    lemma_next_moon_is_new_moon(eph, earlier, moon);
}

/// The walk back from `moon` ends on a new moon that is earlier than `moon`
/// or is `moon` itself, and whose civil year is less than `year` where it is
/// `moon` itself.
pub proof fn lemma_year_anchor_is_not_later(
    eph: spec_fn(TimeValue) -> PhaseSample,
    moon: TimeValue,
    year: int,
    anchor: TimeValue,
)
    requires
        year_anchor_at(eph, moon, year) == Ok::<TimeValue, SearchError>(anchor),
    ensures
        anchor.tai_nanos <= moon.tai_nanos,
        anchor == moon ==> utc_year_at(moon@) < year,
    decreases moon.tai_nanos - i128::MIN,
{
    if !(utc_year_at(moon@) < year) {
        let earlier = moon_before_at(eph, moon)->Ok_0;
        lemma_year_anchor_is_not_later(eph, earlier, utc_year_at(moon@), anchor);
    }
}

/// The first new moon of a civil year is a new moon of the sampled
/// ephemeris.
pub proof fn lemma_first_moon_is_new_moon(
    eph: spec_fn(TimeValue) -> PhaseSample,
    cursor: TimeValue,
    first: TimeValue,
)
    requires
        first_moon_of_solar_year_at(eph, cursor) == Ok::<TimeValue, SearchError>(first),
    ensures
        is_sampled_new_moon(eph, first),
{
    let moon = last_moon_at(eph, cursor)->Ok_0;
    let anchor = year_anchor_at(eph, moon, utc_year_at(cursor@))->Ok_0;
    lemma_next_moon_is_new_moon(eph, anchor, first);
}

} // verus!
