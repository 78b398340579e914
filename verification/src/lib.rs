//! Verified core of a Linux GPIO character-device line driver.
//!
//! The crate models the lifecycle of an exclusively owned kernel line
//! request: polarity normalization between logical and raw levels, the
//! cached line configuration, direction conversion, and the edge-wait
//! state machine. Kernel transport calls (request, reconfigure, value
//! read/write, edge-event read) are performed by an unverified shell
//! that drives the state machines in this crate and hands their results
//! back as plain values.

pub mod config;
pub mod delay;
pub mod edge_wait;
pub mod pin;
pub mod polarity;
pub mod serial;
pub mod spi;
pub mod timer;

pub use config::Direction;
pub use config::DriveMode;
pub use config::EdgeDetection;
pub use config::EdgeEvent;
pub use config::EdgeKind;
pub use config::LineConfig;
pub use delay::Delay;
pub use edge_wait::EdgeWaitEngine;
pub use edge_wait::WaitAction;
pub use edge_wait::WaitPhase;
pub use edge_wait::WaitRequest;
pub use edge_wait::WaitResponse;
pub use pin::Input;
pub use pin::LinePin;
pub use pin::Output;
pub use pin::PinError;
pub use pin::ReconfigOutcome;
pub use polarity::from_raw;
pub use polarity::to_raw;
pub use polarity::Level;
pub use polarity::RawValue;
pub use serial::SerialError;
pub use spi::SPIError;
pub use timer::SysTimer;
pub use timer::TimerPoll;
