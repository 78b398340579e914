//! The negotiated configuration of a requested GPIO line.
//!
//! A [`LineConfig`] is the cached copy of what the kernel currently holds
//! for a line: direction, polarity, drive mode, edge detection, and, for
//! an output line, the last commanded value. The well-formedness predicate
//! ties the optional fields to the direction.

use vstd::prelude::*;

use crate::polarity::Level;

verus! {

/// Direction a line is configured for.
#[derive(Clone, Copy, Debug, PartialEq, Eq, Structural)]
pub enum Direction {
    Input,
    Output,
}

/// Output drive mode of a line; absent means the default push-pull drive.
#[derive(Clone, Copy, Debug, PartialEq, Eq, Structural)]
pub enum DriveMode {
    OpenDrain,
    OpenSource,
}

/// Edge-detection mode armed on an input line.
#[derive(Clone, Copy, Debug, PartialEq, Eq, Structural)]
pub enum EdgeDetection {
    Rising,
    Falling,
    Both,
}

/// Kind of a kernel-reported edge event.
#[derive(Clone, Copy, Debug, PartialEq, Eq, Structural)]
pub enum EdgeKind {
    Rising,
    Falling,
}

/// A kernel-reported transition of a line's level. Transient: consumed
/// immediately by the edge-wait engine, never persisted.
#[derive(Clone, Copy, Debug, PartialEq, Eq, Structural)]
pub struct EdgeEvent {
    /// Direction of the transition.
    pub kind: EdgeKind,
    /// Kernel timestamp of the transition, in nanoseconds.
    pub timestamp_ns: u64,
}

/// Configuration of a single requested line.
#[derive(Clone, Copy, Debug, PartialEq, Eq)]
pub struct LineConfig {
    /// Input or output.
    pub direction: Direction,
    /// Whether the line is wired active-low.
    pub active_low: bool,
    /// Output drive mode; `None` means the default push-pull drive.
    pub drive: Option<DriveMode>,
    /// Edge detection armed on the line; meaningful only for inputs.
    pub edge_detection: Option<EdgeDetection>,
    /// Last commanded output value; present exactly for outputs.
    pub output_value: Option<Level>,
}

impl LineConfig {
    /// A configuration is well formed when its optional fields agree with
    /// its direction: an output always carries its commanded value and
    /// never edge detection; an input carries no output value.
    pub open spec fn wf(self) -> bool {
        &&& (self.direction == Direction::Output ==> self.output_value is Some
            && self.edge_detection is None)
        &&& (self.direction == Direction::Input ==> self.output_value is None)
    }

    /// The configuration requested when acquiring a line as an input.
    pub open spec fn spec_input(active_low: bool) -> LineConfig {
        LineConfig {
            direction: Direction::Input,
            active_low: active_low,
            drive: None,
            edge_detection: None,
            output_value: None,
        }
    }

    /// The configuration requested when acquiring a line as an output
    /// driven to `initial`.
    pub open spec fn spec_output(active_low: bool, initial: Level) -> LineConfig {
        LineConfig {
            direction: Direction::Output,
            active_low: active_low,
            drive: None,
            edge_detection: None,
            output_value: Some(initial),
        }
    }

    /// This configuration converted to an output driven to `initial`,
    /// preserving the negotiated polarity and drive mode. Edge detection
    /// is dropped: it is meaningful only for inputs.
    pub open spec fn spec_as_output(self, initial: Level) -> LineConfig {
        LineConfig {
            direction: Direction::Output,
            active_low: self.active_low,
            drive: self.drive,
            edge_detection: None,
            output_value: Some(initial),
        }
    }

    /// This configuration converted to an input, preserving the negotiated
    /// polarity and drive mode.
    pub open spec fn spec_as_input(self) -> LineConfig {
        LineConfig {
            direction: Direction::Input,
            active_low: self.active_low,
            drive: self.drive,
            edge_detection: None,
            output_value: None,
        }
    }

    /// This configuration with the given edge-detection mode armed.
    pub open spec fn spec_with_edge(self, edge: EdgeDetection) -> LineConfig {
        LineConfig {
            direction: self.direction,
            active_low: self.active_low,
            drive: self.drive,
            edge_detection: Some(edge),
            output_value: self.output_value,
        }
    }

    /// Builds the initial configuration of an input line.
    pub fn input(active_low: bool) -> (c: LineConfig)
        ensures
            c == LineConfig::spec_input(active_low),
            c.wf(),
    {
        LineConfig {
            direction: Direction::Input,
            active_low: active_low,
            drive: None,
            edge_detection: None,
            output_value: None,
        }
    }

    /// Builds the initial configuration of an output line driven to
    /// `initial`.
    pub fn output(active_low: bool, initial: Level) -> (c: LineConfig)
        ensures
            c == LineConfig::spec_output(active_low, initial),
            c.wf(),
    {
        LineConfig {
            direction: Direction::Output,
            active_low: active_low,
            drive: None,
            edge_detection: None,
            output_value: Some(initial),
        }
    }

    /// Decides well-formedness at run time, e.g. before handing a caller's
    /// configuration to the kernel.
    pub fn is_well_formed(&self) -> (r: bool)
        ensures
            r == self.wf(),
    {
        match self.direction {
            Direction::Output => self.output_value.is_some() && self.edge_detection.is_none(),
            Direction::Input => self.output_value.is_none(),
        }
    }
}

} // verus!
