//! The edge-wait engine: the state machine behind the blocking and
//! asynchronous edge waits of a line pin.
//!
//! A wait is a dialogue between this engine and the unverified shell that
//! owns the kernel handle. The engine emits a [`WaitAction`] (probe the
//! level, reconfigure edge detection, read an edge event, or stop); the
//! shell performs it against the kernel and answers with a
//! [`WaitResponse`]; [`EdgeWaitEngine::step`] consumes the response,
//! updates the pin's cached configuration when arming succeeded, filters
//! events by the requested edge kind, and emits the next action. The
//! engine never completes a wait on a wrong-edge event, never rearms a
//! detection mode that already covers the request, and a failed wait
//! leaves the pin usable for further level reads and writes. Abandoning
//! a wait between steps is harmless: the pin's cache is only ever
//! updated by a step, and every step leaves it well formed.

use vstd::prelude::*;

use crate::config::Direction;
use crate::config::EdgeDetection;
use crate::config::EdgeEvent;
use crate::config::EdgeKind;
use crate::config::LineConfig;
use crate::pin::LinePin;
use crate::pin::PinError;
use crate::polarity::spec_from_raw;
use crate::polarity::Level;
use crate::polarity::RawValue;

verus! {

/// The wait a caller requested.
#[derive(Clone, Copy, Debug, PartialEq, Eq, Structural)]
pub enum WaitRequest {
    /// Complete on a rising edge.
    RisingEdge,
    /// Complete on a falling edge.
    FallingEdge,
    /// Complete on the first edge of either kind.
    AnyEdge,
    /// Complete once the line is at logical high: immediately if it
    /// already is, otherwise on a rising edge.
    LevelHigh,
    /// Complete once the line is at logical low: immediately if it
    /// already is, otherwise on a falling edge.
    LevelLow,
}

/// Where the engine stands in the dialogue.
#[derive(Clone, Copy, Debug, PartialEq, Eq, Structural)]
pub enum WaitPhase {
    /// A level request's synchronous probe is outstanding.
    CheckingLevel,
    /// A reconfiguration arming edge detection is outstanding.
    Arming,
    /// Edge detection covers the request; an event read is outstanding.
    Listening,
    /// The wait completed; no further transport call is needed.
    Satisfied,
    /// The wait failed; the error has been surfaced to the caller.
    Failed,
}

/// What the shell must do next against the kernel.
#[derive(Clone, Copy, Debug, PartialEq, Eq)]
pub enum WaitAction {
    /// Read the line's raw value.
    ReadLevel,
    /// Apply this configuration to the live request (or close and reopen
    /// with it, where the kernel cannot alter a live request).
    Reconfigure(LineConfig),
    /// Read the next edge event; this may suspend until one arrives.
    ReadEvent,
    /// The wait is satisfied; make no further kernel call.
    Complete,
}

/// The outcome of the action the shell performed.
#[derive(Clone, Copy, Debug, PartialEq, Eq)]
pub enum WaitResponse {
    /// The level read returned this raw value.
    LevelIs(RawValue),
    /// The level read failed.
    LevelReadFailed,
    /// The reconfiguration is live.
    ReconfigureDone,
    /// The reconfiguration failed; `line_lost` says whether a
    /// close-and-reopen attempt released the old handle without acquiring
    /// a replacement.
    ReconfigureFailed { line_lost: bool },
    /// An edge event arrived.
    Event(EdgeEvent),
    /// The event read failed.
    EventReadFailed,
}

/// The edge-detection mode that must be armed before listening for the
/// given request.
pub open spec fn spec_target_edge(request: WaitRequest) -> EdgeDetection {
    match request {
        WaitRequest::RisingEdge => EdgeDetection::Rising,
        WaitRequest::FallingEdge => EdgeDetection::Falling,
        WaitRequest::AnyEdge => EdgeDetection::Both,
        WaitRequest::LevelHigh => EdgeDetection::Rising,
        WaitRequest::LevelLow => EdgeDetection::Falling,
    }
}

/// Whether an already-armed detection mode covers the request, so that no
/// reconfiguration is needed before listening.
pub open spec fn spec_armed_covers(edge: Option<EdgeDetection>, request: WaitRequest) -> bool {
    match spec_target_edge(request) {
        EdgeDetection::Rising => edge == Some(EdgeDetection::Rising) || edge == Some(
            EdgeDetection::Both,
        ),
        EdgeDetection::Falling => edge == Some(EdgeDetection::Falling) || edge == Some(
            EdgeDetection::Both,
        ),
        EdgeDetection::Both => edge == Some(EdgeDetection::Both),
    }
}

/// Whether an event of the given kind satisfies the request. Under a
/// detection mode broader than the request (armed-both residue), events
/// of the other kind arrive and must not complete the wait.
pub open spec fn spec_event_completes(request: WaitRequest, kind: EdgeKind) -> bool {
    match request {
        WaitRequest::RisingEdge => kind == EdgeKind::Rising,
        WaitRequest::FallingEdge => kind == EdgeKind::Falling,
        WaitRequest::AnyEdge => true,
        WaitRequest::LevelHigh => kind == EdgeKind::Rising,
        WaitRequest::LevelLow => kind == EdgeKind::Falling,
    }
}

/// Whether the request begins with a synchronous level probe.
pub open spec fn spec_checks_level_first(request: WaitRequest) -> bool {
    request == WaitRequest::LevelHigh || request == WaitRequest::LevelLow
}

/// Whether an already-observed level satisfies the request without any
/// arming or suspension.
pub open spec fn spec_level_satisfies(request: WaitRequest, level: Level) -> bool {
    match request {
        WaitRequest::LevelHigh => level == Level::High,
        WaitRequest::LevelLow => level == Level::Low,
        _ => false,
    }
}

/// One in-flight wait on one pin.
#[derive(Clone, Copy, Debug, PartialEq, Eq)]
pub struct EdgeWaitEngine {
    /// The wait being served.
    pub request: WaitRequest,
    /// Where the dialogue stands.
    pub phase: WaitPhase,
    /// While arming: the configuration handed to the kernel, committed to
    /// the pin's cache once the kernel confirms it.
    pub pending: Option<LineConfig>,
}

impl EdgeWaitEngine {
    /// The engine still expects a response from the shell.
    pub open spec fn is_active(self) -> bool {
        self.phase == WaitPhase::CheckingLevel || self.phase == WaitPhase::Arming || self.phase
            == WaitPhase::Listening
    }

    /// Invariant tying an engine to the pin it waits on: the pin is a
    /// well-formed, still-held input; a pending configuration exists
    /// exactly while arming and arms the target detection mode on the
    /// pin's current configuration; and while listening, the armed
    /// detection mode covers the request.
    pub open spec fn inv(self, pin: LinePin) -> bool {
        &&& pin.wf()
        &&& (self.is_active() ==> pin.held && pin.config.direction == Direction::Input)
        &&& (self.phase == WaitPhase::Arming <==> self.pending is Some)
        &&& (self.phase == WaitPhase::Arming ==> self.pending == Some(
            pin.config.spec_with_edge(spec_target_edge(self.request)),
        ))
        &&& (self.phase == WaitPhase::Listening ==> spec_armed_covers(
            pin.config.edge_detection,
            self.request,
        ))
    }

    /// Which responses answer the outstanding action of each phase.
    pub open spec fn spec_response_matches(phase: WaitPhase, response: WaitResponse) -> bool {
        match phase {
            WaitPhase::CheckingLevel => response is LevelIs || response is LevelReadFailed,
            WaitPhase::Arming => response is ReconfigureDone || response is ReconfigureFailed,
            WaitPhase::Listening => response is Event || response is EventReadFailed,
            WaitPhase::Satisfied => false,
            WaitPhase::Failed => false,
        }
    }

    /// The engine and first action for a wait on `pin`.
    pub open spec fn spec_start_wait(pin: LinePin, request: WaitRequest) -> Result<
        (EdgeWaitEngine, WaitAction),
        PinError,
    > {
        if !pin.held {
            Err(PinError::IoFailed)
        } else if pin.config.direction != Direction::Input {
            Err(PinError::InvalidOperationForDirection)
        } else if spec_checks_level_first(request) {
            Ok(
                (
                    EdgeWaitEngine { request, phase: WaitPhase::CheckingLevel, pending: None },
                    WaitAction::ReadLevel,
                ),
            )
        } else if spec_armed_covers(pin.config.edge_detection, request) {
            Ok(
                (
                    EdgeWaitEngine { request, phase: WaitPhase::Listening, pending: None },
                    WaitAction::ReadEvent,
                ),
            )
        } else {
            let armed = pin.config.spec_with_edge(spec_target_edge(request));
            Ok(
                (
                    EdgeWaitEngine { request, phase: WaitPhase::Arming, pending: Some(armed) },
                    WaitAction::Reconfigure(armed),
                ),
            )
        }
    }

    /// The engine, pin, and result after a response is consumed.
    pub open spec fn spec_step(self, pin: LinePin, response: WaitResponse) -> (
        EdgeWaitEngine,
        LinePin,
        Result<WaitAction, PinError>,
    ) {
        match response {
            WaitResponse::LevelIs(raw) => {
                if spec_level_satisfies(
                    self.request,
                    spec_from_raw(raw, pin.config.active_low),
                ) {
                    (
                        EdgeWaitEngine { phase: WaitPhase::Satisfied, pending: None, ..self },
                        pin,
                        Ok(WaitAction::Complete),
                    )
                } else if spec_armed_covers(pin.config.edge_detection, self.request) {
                    (
                        EdgeWaitEngine { phase: WaitPhase::Listening, pending: None, ..self },
                        pin,
                        Ok(WaitAction::ReadEvent),
                    )
                } else {
                    let armed = pin.config.spec_with_edge(spec_target_edge(self.request));
                    (
                        EdgeWaitEngine { phase: WaitPhase::Arming, pending: Some(armed), ..self },
                        pin,
                        Ok(WaitAction::Reconfigure(armed)),
                    )
                }
            },
            WaitResponse::LevelReadFailed => (
                EdgeWaitEngine { phase: WaitPhase::Failed, pending: None, ..self },
                pin,
                Err(PinError::EdgeWaitFailed),
            ),
            WaitResponse::ReconfigureDone => {
                match self.pending {
                    Some(armed) => (
                        EdgeWaitEngine { phase: WaitPhase::Listening, pending: None, ..self },
                        LinePin { config: armed, ..pin },
                        Ok(WaitAction::ReadEvent),
                    ),
                    None => (
                        EdgeWaitEngine { phase: WaitPhase::Failed, pending: None, ..self },
                        pin,
                        Err(PinError::EdgeWaitFailed),
                    ),
                }
            },
            WaitResponse::ReconfigureFailed { line_lost } => (
                EdgeWaitEngine { phase: WaitPhase::Failed, pending: None, ..self },
                if line_lost {
                    LinePin { held: false, ..pin }
                } else {
                    pin
                },
                Err(PinError::EdgeWaitFailed),
            ),
            WaitResponse::Event(event) => {
                if spec_event_completes(self.request, event.kind) {
                    (
                        EdgeWaitEngine { phase: WaitPhase::Satisfied, pending: None, ..self },
                        pin,
                        Ok(WaitAction::Complete),
                    )
                } else {
                    (self, pin, Ok(WaitAction::ReadEvent))
                }
            },
            WaitResponse::EventReadFailed => (
                EdgeWaitEngine { phase: WaitPhase::Failed, pending: None, ..self },
                pin,
                Err(PinError::EdgeWaitFailed),
            ),
        }
    }
}

impl LinePin {
    /// Begins a wait on this pin. Valid only for a held input pin. For a
    /// level request the first action probes the line; for an edge request
    /// the engine listens at once when the armed detection mode already
    /// covers the request, and reconfigures otherwise.
    pub fn start_wait(&self, request: WaitRequest) -> (r: Result<
        (EdgeWaitEngine, WaitAction),
        PinError,
    >)
        requires
            self.wf(),
        ensures
            r == EdgeWaitEngine::spec_start_wait(*self, request),
            r matches Ok(p) ==> p.0.inv(*self) && p.0.is_active() && p.0.request == request,
    {
        if !self.held {
            Err(PinError::IoFailed)
        } else if self.config.direction != Direction::Input {
            Err(PinError::InvalidOperationForDirection)
        } else if request == WaitRequest::LevelHigh || request == WaitRequest::LevelLow {
            Ok(
                (
                    EdgeWaitEngine { request, phase: WaitPhase::CheckingLevel, pending: None },
                    WaitAction::ReadLevel,
                ),
            )
        } else {
            let covered = match (self.config.edge_detection, request) {
                (Some(EdgeDetection::Both), _) => true,
                (Some(EdgeDetection::Rising), WaitRequest::RisingEdge) => true,
                (Some(EdgeDetection::Falling), WaitRequest::FallingEdge) => true,
                _ => false,
            };
            if covered {
                Ok(
                    (
                        EdgeWaitEngine { request, phase: WaitPhase::Listening, pending: None },
                        WaitAction::ReadEvent,
                    ),
                )
            } else {
                let target = match request {
                    WaitRequest::RisingEdge => EdgeDetection::Rising,
                    WaitRequest::FallingEdge => EdgeDetection::Falling,
                    _ => EdgeDetection::Both,
                };
                let armed = LineConfig {
                    edge_detection: Some(target),
                    ..self.config
                };
                Ok(
                    (
                        EdgeWaitEngine { request, phase: WaitPhase::Arming, pending: Some(armed) },
                        WaitAction::Reconfigure(armed),
                    ),
                )
            }
        }
    }
}

impl EdgeWaitEngine {
    /// Consumes the shell's response to the outstanding action and emits
    /// the next one. Arming success commits the armed configuration to
    /// the pin's cache; any transport failure surfaces as
    /// [`PinError::EdgeWaitFailed`] and, unless a close-and-reopen lost
    /// the line, leaves the pin untouched and fully usable.
    pub fn step(&mut self, pin: &mut LinePin, response: WaitResponse) -> (r: Result<
        WaitAction,
        PinError,
    >)
        requires
            old(self).inv(*old(pin)),
            EdgeWaitEngine::spec_response_matches(old(self).phase, response),
        ensures
            (*final(self), *final(pin), r) == old(self).spec_step(*old(pin), response),
            final(self).inv(*final(pin)),
            final(self).request == old(self).request,
            final(pin).offset == old(pin).offset,
            final(pin).config.active_low == old(pin).config.active_low,
            final(pin).config.direction == old(pin).config.direction,
            r == Ok::<WaitAction, PinError>(WaitAction::Complete) <==> final(self).phase
                == WaitPhase::Satisfied,
            r is Err ==> final(self).phase == WaitPhase::Failed && r == Err::<
                WaitAction,
                PinError,
            >(PinError::EdgeWaitFailed),
            r is Err && !(response matches WaitResponse::ReconfigureFailed { line_lost: true })
                ==> *final(pin) == *old(pin),
    {
        match response {
            WaitResponse::LevelIs(raw) => {
                let level = crate::polarity::from_raw(raw, pin.config.active_low);
                let satisfied = match (self.request, level) {
                    (WaitRequest::LevelHigh, Level::High) => true,
                    (WaitRequest::LevelLow, Level::Low) => true,
                    _ => false,
                };
                if satisfied {
                    self.phase = WaitPhase::Satisfied;
                    self.pending = None;
                    Ok(WaitAction::Complete)
                } else {
                    let covered = match (pin.config.edge_detection, self.request) {
                        (Some(EdgeDetection::Both), _) => true,
                        (Some(EdgeDetection::Rising), WaitRequest::LevelHigh) => true,
                        (Some(EdgeDetection::Falling), WaitRequest::LevelLow) => true,
                        (Some(EdgeDetection::Rising), WaitRequest::RisingEdge) => true,
                        (Some(EdgeDetection::Falling), WaitRequest::FallingEdge) => true,
                        _ => false,
                    };
                    if covered {
                        self.phase = WaitPhase::Listening;
                        self.pending = None;
                        Ok(WaitAction::ReadEvent)
                    } else {
                        let target = match self.request {
                            WaitRequest::RisingEdge => EdgeDetection::Rising,
                            WaitRequest::LevelHigh => EdgeDetection::Rising,
                            WaitRequest::FallingEdge => EdgeDetection::Falling,
                            WaitRequest::LevelLow => EdgeDetection::Falling,
                            WaitRequest::AnyEdge => EdgeDetection::Both,
                        };
                        let armed = LineConfig {
                            edge_detection: Some(target),
                            ..pin.config
                        };
                        self.phase = WaitPhase::Arming;
                        self.pending = Some(armed);
                        Ok(WaitAction::Reconfigure(armed))
                    }
                }
            },
            WaitResponse::LevelReadFailed => {
                self.phase = WaitPhase::Failed;
                self.pending = None;
                Err(PinError::EdgeWaitFailed)
            },
            WaitResponse::ReconfigureDone => {
                match self.pending {
                    Some(armed) => {
                        self.phase = WaitPhase::Listening;
                        self.pending = None;
                        pin.config = armed;
                        Ok(WaitAction::ReadEvent)
                    },
                    None => {
                        self.phase = WaitPhase::Failed;
                        self.pending = None;
                        Err(PinError::EdgeWaitFailed)
                    },
                }
            },
            WaitResponse::ReconfigureFailed { line_lost } => {
                self.phase = WaitPhase::Failed;
                self.pending = None;
                if line_lost {
                    pin.held = false;
                }
                Err(PinError::EdgeWaitFailed)
            },
            WaitResponse::Event(event) => {
                let completes = match (self.request, event.kind) {
                    (WaitRequest::RisingEdge, EdgeKind::Rising) => true,
                    (WaitRequest::FallingEdge, EdgeKind::Falling) => true,
                    (WaitRequest::AnyEdge, _) => true,
                    (WaitRequest::LevelHigh, EdgeKind::Rising) => true,
                    (WaitRequest::LevelLow, EdgeKind::Falling) => true,
                    _ => false,
                };
                if completes {
                    self.phase = WaitPhase::Satisfied;
                    self.pending = None;
                    Ok(WaitAction::Complete)
                } else {
                    Ok(WaitAction::ReadEvent)
                }
            },
            WaitResponse::EventReadFailed => {
                self.phase = WaitPhase::Failed;
                self.pending = None;
                Err(PinError::EdgeWaitFailed)
            },
        }
    }
}

/// A level wait on a line that already satisfies it completes on the
/// first probe: the engine orders one level read and then completes,
/// never ordering a reconfiguration, and the pin is untouched.
pub proof fn lemma_satisfied_level_wait_short_circuits(
    pin: LinePin,
    request: WaitRequest,
    raw: RawValue,
)
    requires
        pin.wf(),
        pin.held,
        pin.config.direction == Direction::Input,
        spec_checks_level_first(request),
        spec_level_satisfies(request, spec_from_raw(raw, pin.config.active_low)),
    ensures
        EdgeWaitEngine::spec_start_wait(pin, request) == Ok::<(EdgeWaitEngine, WaitAction), PinError>(
            (
                (EdgeWaitEngine { request, phase: WaitPhase::CheckingLevel, pending: None }),
                WaitAction::ReadLevel,
            ),
        ),
        (EdgeWaitEngine { request, phase: WaitPhase::CheckingLevel, pending: None }).spec_step(
            pin,
            WaitResponse::LevelIs(raw),
        ) == (
            (EdgeWaitEngine { request, phase: WaitPhase::Satisfied, pending: None }),
            pin,
            Ok::<WaitAction, PinError>(WaitAction::Complete),
        ),
{
}

/// Armed configuration is held across consecutive waits: once the armed
/// detection mode covers an edge request, starting that wait again
/// listens at once, without a reconfiguration.
pub proof fn lemma_repeat_wait_does_not_rearm(pin: LinePin, request: WaitRequest)
    requires
        pin.wf(),
        pin.held,
        pin.config.direction == Direction::Input,
        !spec_checks_level_first(request),
        spec_armed_covers(pin.config.edge_detection, request),
    ensures
        EdgeWaitEngine::spec_start_wait(pin, request) == Ok::<(EdgeWaitEngine, WaitAction), PinError>(
            (
                (EdgeWaitEngine { request, phase: WaitPhase::Listening, pending: None }),
                WaitAction::ReadEvent,
            ),
        ),
{
}

/// The engine never returns a wrong-edge success: a listening step
/// completes exactly when the event's kind satisfies the request, and an
/// event never changes the pin.
pub proof fn lemma_completion_only_on_requested_edge(
    engine: EdgeWaitEngine,
    pin: LinePin,
    event: EdgeEvent,
)
    requires
        engine.inv(pin),
        engine.phase == WaitPhase::Listening,
    ensures
        engine.spec_step(pin, WaitResponse::Event(event)).2 == Ok::<WaitAction, PinError>(
            WaitAction::Complete,
        ) <==> spec_event_completes(engine.request, event.kind),
        engine.spec_step(pin, WaitResponse::Event(event)).1 == pin,
{
}

/// A wait for a rising edge never completes on a falling event: while
/// the engine listens, a falling event (possible under armed-both
/// residue) leaves it listening and orders another event read, and a
/// rising event completes the wait. The pin is untouched either way.
pub proof fn lemma_rising_wait_filters_falling_events(
    engine: EdgeWaitEngine,
    pin: LinePin,
    falling: EdgeEvent,
    rising: EdgeEvent,
)
    requires
        engine.inv(pin),
        engine.phase == WaitPhase::Listening,
        engine.request == WaitRequest::RisingEdge,
        falling.kind == EdgeKind::Falling,
        rising.kind == EdgeKind::Rising,
    ensures
        engine.spec_step(pin, WaitResponse::Event(falling)) == (
            engine,
            pin,
            Ok::<WaitAction, PinError>(WaitAction::ReadEvent),
        ),
        engine.spec_step(pin, WaitResponse::Event(rising)) == (
            (EdgeWaitEngine { phase: WaitPhase::Satisfied, pending: None, ..engine }),
            pin,
            Ok::<WaitAction, PinError>(WaitAction::Complete),
        ),
{
}

} // verus!
