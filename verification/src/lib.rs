//! New and full moons found by scanning an ephemeris for the minima of the
//! Earth-Moon phase angle, and the lunisolar calendar date built on them.
//!
//! The library works on integers only. Whoever evaluates the ephemeris hands
//! the search one [`phase::PhaseSample`] per instant asked for; everything the
//! search decides from those samples is verified here.

pub mod moon;
pub mod phase;
pub mod tetrabiblos;
pub mod time;
