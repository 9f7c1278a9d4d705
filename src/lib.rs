//! Scheduling and bus-arbitration core of an environmental sensor poller.
//!
//! - [`bus`]: the shared bus, whose transactions never interleave on the wire.
//! - [`schedule`]: the polling state machine of one sensor, and its cadence.
//! - [`runtime`]: one independent scheduler per configured sensor.
//! - [`sensor`], [`pmsa003i`], [`scd30`], [`sht40`]: the adapters, which turn
//!   what a vendor driver returned into updates of the gauges they own.
pub mod bus;
pub mod error;
pub mod gauge;
pub mod pmsa003i;
pub mod runtime;
pub mod schedule;
pub mod scd30;
pub mod sensor;
pub mod sht40;

pub use error::{BootError, DecodeError, PollError, TransportError};
pub use gauge::Gauge;
