//! Polarity normalization between logical levels and raw line values.
//!
//! Every read and write path of a line pin funnels through these two
//! functions, so that callers always observe "logical high means the
//! external signal is asserted", independent of wiring polarity.

use vstd::prelude::*;

verus! {

/// Logical level of a line as observed by callers.
#[derive(Clone, Copy, Debug, PartialEq, Eq, Structural)]
pub enum Level {
    High,
    Low,
}

/// Raw electrical state of a line as the kernel reports and accepts it.
#[derive(Clone, Copy, Debug, PartialEq, Eq, Structural)]
pub enum RawValue {
    Active,
    Inactive,
}

/// The raw value that drives a line to the given logical level under the
/// given polarity.
pub open spec fn spec_to_raw(level: Level, active_low: bool) -> RawValue {
    match level {
        Level::High => if active_low { RawValue::Inactive } else { RawValue::Active },
        Level::Low => if active_low { RawValue::Active } else { RawValue::Inactive },
    }
}

/// The logical level a caller observes for a given raw value under the
/// given polarity.
pub open spec fn spec_from_raw(raw: RawValue, active_low: bool) -> Level {
    match raw {
        RawValue::Active => if active_low { Level::Low } else { Level::High },
        RawValue::Inactive => if active_low { Level::High } else { Level::Low },
    }
}

/// Maps a logical level to the raw value the kernel expects, honouring the
/// line's active-low flag.
pub fn to_raw(level: Level, active_low: bool) -> (r: RawValue)
    ensures
        r == spec_to_raw(level, active_low),
{
    match level {
        Level::High => if active_low { RawValue::Inactive } else { RawValue::Active },
        Level::Low => if active_low { RawValue::Active } else { RawValue::Inactive },
    }
}

/// Maps a raw value reported by the kernel to the logical level the caller
/// observes, honouring the line's active-low flag.
pub fn from_raw(raw: RawValue, active_low: bool) -> (r: Level)
    ensures
        r == spec_from_raw(raw, active_low),
{
    match raw {
        RawValue::Active => if active_low { Level::Low } else { Level::High },
        RawValue::Inactive => if active_low { Level::High } else { Level::Low },
    }
}

/// Round trip: a level driven onto the line reads back unchanged, whatever
/// the polarity.
pub proof fn lemma_polarity_round_trip(level: Level, active_low: bool)
    ensures
        spec_from_raw(spec_to_raw(level, active_low), active_low) == level,
{
}

} // verus!
