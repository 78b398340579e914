//! The line-pin facade: the owner of a single kernel line request.
//!
//! A [`LinePin`] carries the line offset, a cached copy of the line's
//! kernel-side configuration, and whether the kernel handle is still held.
//! The kernel transport itself (request, reconfigure, value read/write) is
//! driven by an unverified shell: each operation here either plans what to
//! hand to the kernel, or consumes the kernel's outcome as a plain value
//! and updates the cache so that it always reflects the last known-good
//! kernel-side state.

use vstd::prelude::*;

use crate::config::Direction;
use crate::config::LineConfig;
use crate::polarity::from_raw;
use crate::polarity::spec_from_raw;
use crate::polarity::spec_to_raw;
use crate::polarity::to_raw;
use crate::polarity::Level;
use crate::polarity::RawValue;

verus! {

/// Marker type tagging a pin facade in input mode.
#[non_exhaustive]
#[derive(Clone, Copy, Debug)]
pub struct Input;

/// Marker type tagging a pin facade in output mode.
#[non_exhaustive]
#[derive(Clone, Copy, Debug)]
pub struct Output;

/// Errors surfaced by line-pin operations.
#[derive(Clone, Copy, Debug, PartialEq, Eq, Structural)]
pub enum PinError {
    /// The line could not be acquired: unavailable, already held, or the
    /// requested configuration was invalid.
    AcquisitionFailed,
    /// The kernel refused a live or close-and-reopen reconfiguration.
    ReconfigurationFailed,
    /// A value read or write failed, or the kernel handle is no longer
    /// held (for example after a failed close-and-reopen).
    IoFailed,
    /// Arming edge detection or reading an edge event failed.
    EdgeWaitFailed,
    /// The operation is not valid for the pin's current direction.
    InvalidOperationForDirection,
}

/// Outcome of a reconfiguration attempt, as the shell observed it. The
/// kernel may support altering a live request in place, or may require
/// releasing the handle and immediately re-acquiring the line; the two
/// strategies fail differently.
#[derive(Clone, Copy, Debug, PartialEq, Eq, Structural)]
pub enum ReconfigOutcome {
    /// The new configuration is live, by either strategy.
    Applied,
    /// An in-place reconfiguration was refused; the old handle, with the
    /// old configuration, is still held.
    RejectedInPlace,
    /// The old handle was released but the replacement request failed:
    /// the line is no longer owned.
    LostOnReopen,
}

/// The public capability object bound to one kernel line request.
#[derive(Clone, Copy, Debug, PartialEq, Eq)]
pub struct LinePin {
    /// Offset of the line on its chip.
    pub offset: u32,
    /// Cached copy of the line's current kernel-side configuration.
    pub config: LineConfig,
    /// Whether the kernel handle is still owned. Cleared when the pin is
    /// released, or when a close-and-reopen reconfiguration lost the line;
    /// a pin that no longer holds its line refuses every kernel-bound
    /// operation with [`PinError::IoFailed`].
    pub held: bool,
}

impl LinePin {
    /// A pin is well formed when its cached configuration is.
    pub open spec fn wf(self) -> bool {
        self.config.wf()
    }

    /// Outcome of acquiring `offset` with `config`: the kernel grants the
    /// request (`granted`) only for valid configurations, and a granted
    /// request yields a pin whose cache equals the negotiated
    /// configuration.
    pub open spec fn spec_acquire(offset: u32, config: LineConfig, granted: bool) -> Result<
        LinePin,
        PinError,
    > {
        if granted && config.wf() {
            Ok(LinePin { offset, config, held: true })
        } else {
            Err(PinError::AcquisitionFailed)
        }
    }

    /// Builds the pin for a line the shell has just requested from the
    /// kernel. `granted` says whether the kernel granted the request; a
    /// denial, or an invalid configuration, is an acquisition failure.
    pub fn acquire_result(offset: u32, config: LineConfig, granted: bool) -> (r: Result<
        LinePin,
        PinError,
    >)
        ensures
            r == LinePin::spec_acquire(offset, config, granted),
            r matches Ok(p) ==> p.wf() && p.held && p.config == config && p.offset == offset,
    {
        if granted && config.is_well_formed() {
            Ok(LinePin { offset, config, held: true })
        } else {
            Err(PinError::AcquisitionFailed)
        }
    }

    /// What `read_level` returns when the kernel reported `raw`.
    pub open spec fn spec_read_level(self, raw: RawValue) -> Result<Level, PinError> {
        if !self.held {
            Err(PinError::IoFailed)
        } else if self.config.direction != Direction::Input {
            Err(PinError::InvalidOperationForDirection)
        } else {
            Ok(spec_from_raw(raw, self.config.active_low))
        }
    }

    /// Normalizes a raw value the kernel reported for this line into the
    /// logical level the caller observes. Valid only for an input pin.
    pub fn read_level(&self, raw: RawValue) -> (r: Result<Level, PinError>)
        ensures
            r == self.spec_read_level(raw),
    {
        if !self.held {
            Err(PinError::IoFailed)
        } else if self.config.direction != Direction::Input {
            Err(PinError::InvalidOperationForDirection)
        } else {
            Ok(from_raw(raw, self.config.active_low))
        }
    }

    /// What `write_plan` returns.
    pub open spec fn spec_write_plan(self, level: Level) -> Result<RawValue, PinError> {
        if !self.held {
            Err(PinError::IoFailed)
        } else if self.config.direction != Direction::Output {
            Err(PinError::InvalidOperationForDirection)
        } else {
            Ok(spec_to_raw(level, self.config.active_low))
        }
    }

    /// The raw value the shell must hand to the kernel to drive this line
    /// to `level`. Valid only for an output pin.
    pub fn write_plan(&self, level: Level) -> (r: Result<RawValue, PinError>)
        ensures
            r == self.spec_write_plan(level),
    {
        if !self.held {
            Err(PinError::IoFailed)
        } else if self.config.direction != Direction::Output {
            Err(PinError::InvalidOperationForDirection)
        } else {
            Ok(to_raw(level, self.config.active_low))
        }
    }

    /// The pin and result after the kernel write planned for `level` came
    /// back: `accepted` commits `level` to the cached output value, a
    /// refusal leaves the cache at the last known-good state.
    pub open spec fn spec_write_result(self, level: Level, accepted: bool) -> (LinePin, Result<
        (),
        PinError,
    >) {
        if !self.held {
            (self, Err(PinError::IoFailed))
        } else if self.config.direction != Direction::Output {
            (self, Err(PinError::InvalidOperationForDirection))
        } else if accepted {
            (
                LinePin {
                    config: LineConfig { output_value: Some(level), ..self.config },
                    ..self
                },
                Ok(()),
            )
        } else {
            (self, Err(PinError::IoFailed))
        }
    }

    /// Consumes the outcome of the kernel write planned for `level`.
    /// On success a subsequent stateful read reflects `level` without a
    /// kernel round trip; on failure the pin is unchanged.
    pub fn write_result(&mut self, level: Level, accepted: bool) -> (r: Result<(), PinError>)
        requires
            old(self).wf(),
        ensures
            (*final(self), r) == old(self).spec_write_result(level, accepted),
            final(self).wf(),
            final(self).offset == old(self).offset,
            final(self).held == old(self).held,
    {
        if !self.held {
            Err(PinError::IoFailed)
        } else if self.config.direction != Direction::Output {
            Err(PinError::InvalidOperationForDirection)
        } else if accepted {
            self.config.output_value = Some(level);
            Ok(())
        } else {
            Err(PinError::IoFailed)
        }
    }

    /// What `cached_output_level` returns.
    pub open spec fn spec_cached_output_level(self) -> Result<Level, PinError> {
        if !self.held {
            Err(PinError::IoFailed)
        } else if self.config.direction != Direction::Output {
            Err(PinError::InvalidOperationForDirection)
        } else {
            match self.config.output_value {
                Some(level) => Ok(level),
                None => Err(PinError::InvalidOperationForDirection),
            }
        }
    }

    /// The last commanded output level, from the cache alone: no kernel
    /// round trip. Valid only for an output pin, whose cache always holds
    /// a value.
    pub fn cached_output_level(&self) -> (r: Result<Level, PinError>)
        ensures
            r == self.spec_cached_output_level(),
            self.wf() && self.held && self.config.direction == Direction::Output ==> (r matches
                Ok(level) && Some(level) == self.config.output_value),
    {
        if !self.held {
            Err(PinError::IoFailed)
        } else if self.config.direction != Direction::Output {
            Err(PinError::InvalidOperationForDirection)
        } else {
            match self.config.output_value {
                Some(level) => Ok(level),
                None => Err(PinError::InvalidOperationForDirection),
            }
        }
    }

    /// What `into_output_plan` returns.
    pub open spec fn spec_into_output_plan(self, initial: Level) -> Result<
        Option<LineConfig>,
        PinError,
    > {
        if !self.held {
            Err(PinError::IoFailed)
        } else if self.config.direction == Direction::Output {
            Ok(None)
        } else {
            Ok(Some(self.config.spec_as_output(initial)))
        }
    }

    /// Plans the conversion of this pin to an output driven to `initial`.
    /// `Ok(None)` means the pin already is an output: the conversion is a
    /// no-op that succeeds without touching the kernel, decided from the
    /// cache alone. `Ok(Some(c))` is the configuration to reconfigure
    /// with; polarity and drive mode are preserved, only the direction and
    /// the initial drive value change.
    pub fn into_output_plan(&self, initial: Level) -> (r: Result<Option<LineConfig>, PinError>)
        ensures
            r == self.spec_into_output_plan(initial),
            r matches Ok(Some(c)) ==> c.wf(),
    {
        if !self.held {
            Err(PinError::IoFailed)
        } else if self.config.direction == Direction::Output {
            Ok(None)
        } else {
            Ok(
                Some(
                    LineConfig {
                        direction: Direction::Output,
                        active_low: self.config.active_low,
                        drive: self.config.drive,
                        edge_detection: None,
                        output_value: Some(initial),
                    },
                ),
            )
        }
    }

    /// What `into_input_plan` returns.
    pub open spec fn spec_into_input_plan(self) -> Result<Option<LineConfig>, PinError> {
        if !self.held {
            Err(PinError::IoFailed)
        } else if self.config.direction == Direction::Input {
            Ok(None)
        } else {
            Ok(Some(self.config.spec_as_input()))
        }
    }

    /// Plans the conversion of this pin to an input; the counterpart of
    /// [`LinePin::into_output_plan`].
    pub fn into_input_plan(&self) -> (r: Result<Option<LineConfig>, PinError>)
        ensures
            r == self.spec_into_input_plan(),
            r matches Ok(Some(c)) ==> c.wf(),
    {
        if !self.held {
            Err(PinError::IoFailed)
        } else if self.config.direction == Direction::Input {
            Ok(None)
        } else {
            Ok(
                Some(
                    LineConfig {
                        direction: Direction::Input,
                        active_low: self.config.active_low,
                        drive: self.config.drive,
                        edge_detection: None,
                        output_value: None,
                    },
                ),
            )
        }
    }

    /// The pin and result after a reconfiguration with `config` came back
    /// with `outcome`.
    pub open spec fn spec_apply_reconfigure(
        self,
        config: LineConfig,
        outcome: ReconfigOutcome,
    ) -> (LinePin, Result<(), PinError>) {
        if !self.held {
            (self, Err(PinError::IoFailed))
        } else {
            match outcome {
                ReconfigOutcome::Applied => (
                    LinePin { config, ..self },
                    Ok(()),
                ),
                ReconfigOutcome::RejectedInPlace => (self, Err(PinError::ReconfigurationFailed)),
                ReconfigOutcome::LostOnReopen => (
                    LinePin { held: false, ..self },
                    Err(PinError::ReconfigurationFailed),
                ),
            }
        }
    }

    /// Consumes the outcome of the reconfiguration the shell attempted
    /// with `config` (from a conversion plan). On success the cache equals
    /// the applied configuration. A refused in-place reconfiguration
    /// leaves the pin in its prior, fully functional state. A failed
    /// close-and-reopen leaves the pin in a terminal state: the line is
    /// reported lost rather than silently dropped.
    pub fn apply_reconfigure(&mut self, config: LineConfig, outcome: ReconfigOutcome) -> (r: Result<
        (),
        PinError,
    >)
        requires
            old(self).wf(),
            config.wf(),
        ensures
            (*final(self), r) == old(self).spec_apply_reconfigure(config, outcome),
            final(self).wf(),
            final(self).offset == old(self).offset,
            r is Err ==> final(self).config == old(self).config,
    {
        if !self.held {
            Err(PinError::IoFailed)
        } else {
            match outcome {
                ReconfigOutcome::Applied => {
                    self.config = config;
                    Ok(())
                },
                ReconfigOutcome::RejectedInPlace => Err(PinError::ReconfigurationFailed),
                ReconfigOutcome::LostOnReopen => {
                    self.held = false;
                    Err(PinError::ReconfigurationFailed)
                },
            }
        }
    }

    /// Relinquishes the kernel resource in the model; idempotent. The
    /// shell releases the actual handle.
    pub fn release(&mut self)
        ensures
            *final(self) == (LinePin { held: false, ..*old(self) }),
    {
        self.held = false;
    }
}

/// Polarity inversion is transparent to the caller: for an output pin, a
/// committed write of a level is exactly what a stateful read then
/// reports, and the raw value planned for the write reads back as the
/// same level, whatever the active-low flag.
pub proof fn lemma_write_then_read_back(pin: LinePin, level: Level)
    requires
        pin.wf(),
        pin.held,
        pin.config.direction == Direction::Output,
    ensures
        pin.spec_write_plan(level) == Ok::<RawValue, PinError>(
            spec_to_raw(level, pin.config.active_low),
        ),
        spec_from_raw(spec_to_raw(level, pin.config.active_low), pin.config.active_low) == level,
        pin.spec_write_result(level, true).1 == Ok::<(), PinError>(()),
        pin.spec_write_result(level, true).0.spec_cached_output_level() == Ok::<Level, PinError>(
            level,
        ),
{
}

/// Converting a pin already in the requested direction is a no-op: the
/// plan orders no kernel reconfiguration, and the conversion succeeds
/// from the cached configuration alone.
pub proof fn lemma_same_direction_conversion_is_noop(pin: LinePin, initial: Level)
    requires
        pin.wf(),
        pin.held,
    ensures
        pin.config.direction == Direction::Output ==> pin.spec_into_output_plan(initial) == Ok::<
            Option<LineConfig>,
            PinError,
        >(None),
        pin.config.direction == Direction::Input ==> pin.spec_into_input_plan() == Ok::<
            Option<LineConfig>,
            PinError,
        >(None),
{
}

/// Strong exception safety of direction conversion: when the kernel
/// refuses the in-place reconfiguration planned for a conversion to
/// output, the pin keeps its input direction and its whole prior
/// configuration, and a subsequent level read still succeeds.
pub proof fn lemma_failed_output_conversion_preserves_input(
    pin: LinePin,
    initial: Level,
    raw: RawValue,
)
    requires
        pin.wf(),
        pin.held,
        pin.config.direction == Direction::Input,
    ensures
        pin.spec_into_output_plan(initial) == Ok::<Option<LineConfig>, PinError>(
            Some(pin.config.spec_as_output(initial)),
        ),
        pin.spec_apply_reconfigure(
            pin.config.spec_as_output(initial),
            ReconfigOutcome::RejectedInPlace,
        ) == (pin, Err::<(), PinError>(PinError::ReconfigurationFailed)),
        pin.spec_read_level(raw) == Ok::<Level, PinError>(
            spec_from_raw(raw, pin.config.active_low),
        ),
{
}

} // verus!
