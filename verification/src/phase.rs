//! Phase samples and the trend state machine that reads them.

use vstd::prelude::*;

verus! {

/// The phase 1.0 in the fixed-point unit of [`PhaseSample::phase`]. No real
/// phase is larger, so a search starts with it as the phase seen last.
pub const PHASE_ONE: u64 = 1_000_000_000_000_000_000;

/// What the ephemeris says of one instant, in fixed point.
///
/// `phase` is the absolute difference of the ecliptic longitudes of the Earth
/// and of the Earth-Moon barycenter, divided by a full turn, in units of
/// 10^-18. The two distances are heliocentric, both in one unit of length.
/// Only the order of two phases, and of the two distances, is ever read.
#[derive(Clone, Copy, Debug, PartialEq, Eq, Structural)]
pub struct PhaseSample {
    pub phase: u64,
    pub earth_distance: u64,
    pub barycenter_distance: u64,
}

impl PhaseSample {
    /// A phase lies between 0 and 1. A projection that broke down (a
    /// non-finite longitude) is handed in as a phase above 1.
    pub open spec fn is_valid(self) -> bool {
        self.phase <= PHASE_ONE
    }

    /// At a minimum of the phase the Moon stands between the Sun and the Earth
    /// exactly when the Earth is the farther of the two from the Sun.
    pub open spec fn earth_is_farther(self) -> bool {
        self.earth_distance > self.barycenter_distance
    }
}

/// Why a search gave up.
#[derive(Clone, Copy, Debug, PartialEq, Eq, Structural)]
pub enum SearchError {
    /// A trend met a direction that is neither rising nor falling.
    InvalidTransition,
    /// A sample whose phase is not in [0, 1].
    DegenerateSample,
    /// The cursor would leave the time axis.
    TimeOutOfRange,
    /// A step backward from a new moon did not reach an earlier one.
    NoEarlierMoon,
}

impl SearchError {
    /// The errors on which a forward search can stop: a sample it cannot
    /// read, and the end of the time axis.
    pub open spec fn stops_a_search(self) -> bool {
        self == SearchError::DegenerateSample || self == SearchError::TimeOutOfRange
    }

    /// The errors on which a walk back from new moon to new moon can stop:
    /// those of a search, and a step that does not lead back.
    pub open spec fn stops_a_walk(self) -> bool {
        self.stops_a_search() || self == SearchError::NoEarlierMoon
    }
}

/// The phase is rising.
pub const RISING: i8 = 1;

/// The phase is falling, or has not changed.
pub const FALLING: i8 = -1;

/// The sign of `phase - last_phase`, a tie counting as falling.
pub open spec fn direction_of(phase: u64, last_phase: u64) -> i8 {
    if phase > last_phase {
        RISING
    } else {
        FALLING
    }
}

/// The sign of `phase - last_phase`, a tie counting as falling.
pub fn phase_direction(phase: u64, last_phase: u64) -> (direction: i8)
    ensures
        direction == direction_of(phase, last_phase),
{
    if phase > last_phase {
        RISING
    } else {
        FALLING
    }
}

/// How the phase has moved over the samples seen so far.
#[derive(Clone, Copy, Debug, PartialEq, Eq, Structural)]
pub enum PhaseTrend {
    /// No sample yet.
    Uninitialized,
    /// One sample: nothing to compare it with.
    FirstSample,
    /// The last sample was above the one before it.
    Rising,
    /// The last sample was not above the one before it.
    Falling,
}

/// What one more sample does to a trend.
#[derive(Clone, Copy, Debug, PartialEq, Eq, Structural)]
pub enum Transition {
    /// The search goes on with this trend.
    Trend(PhaseTrend),
    /// The phase fell and now rises: the sample before this one was a minimum.
    Minimum,
}

impl PhaseTrend {
    /// The transition table. `None` marks the pairs that no trajectory of the
    /// phase can produce.
    pub open spec fn after(self, direction: i8) -> Option<Transition> {
        if self == PhaseTrend::Uninitialized {
            Some(Transition::Trend(PhaseTrend::FirstSample))
        } else if direction == FALLING {
            Some(Transition::Trend(PhaseTrend::Falling))
        } else if direction == RISING && self == PhaseTrend::Falling {
            Some(Transition::Minimum)
        } else if direction == RISING {
            Some(Transition::Trend(PhaseTrend::Rising))
        } else {
            None
        }
    }

    /// Applies the transition table to a trend and the direction of the newest
    /// sample. Fails on the pairs the table does not hold, and on no others.
    pub fn transition(self, direction: i8) -> (r: Result<Transition, SearchError>)
        ensures
            r == match self.after(direction) {
                Some(t) => Ok::<Transition, SearchError>(t),
                None => Err(SearchError::InvalidTransition),
            },
    {
        match self {
            PhaseTrend::Uninitialized => Ok(Transition::Trend(PhaseTrend::FirstSample)),
            PhaseTrend::FirstSample | PhaseTrend::Rising => {
                if direction == FALLING {
                    Ok(Transition::Trend(PhaseTrend::Falling))
                } else if direction == RISING {
                    Ok(Transition::Trend(PhaseTrend::Rising))
                } else {
                    Err(SearchError::InvalidTransition)
                }
            },
            PhaseTrend::Falling => {
                if direction == FALLING {
                    Ok(Transition::Trend(PhaseTrend::Falling))
                } else if direction == RISING {
                    Ok(Transition::Minimum)
                } else {
                    Err(SearchError::InvalidTransition)
                }
            },
        }
    }
}

/// Whatever the trend, the direction of a sample is one the table holds.
pub proof fn lemma_sampled_direction_is_valid(trend: PhaseTrend, phase: u64, last_phase: u64)
    ensures
        trend.after(direction_of(phase, last_phase)) is Some,
{
}

} // verus!
