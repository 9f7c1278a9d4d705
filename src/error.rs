use vstd::prelude::*;

verus! {

/// A failure of one transaction on the shared bus.
#[derive(Clone, Copy, Debug, PartialEq, Eq, Structural)]
pub enum TransportError {
    /// The addressed device did not acknowledge.
    Nack,
    /// The bus device reported an I/O error.
    Io,
}

/// A vendor reading that arrived but could not be decoded.
#[derive(Clone, Copy, Debug, PartialEq, Eq, Structural)]
pub enum DecodeError {
    /// A checksum over the received bytes did not match.
    Checksum,
    /// The frame did not start with the expected marker.
    Framing,
}

/// Why a sensor could not be booted; fatal to that sensor's scheduler only.
#[derive(Clone, Copy, Debug, PartialEq, Eq, Structural)]
pub enum BootError {
    /// The device answered, but not as the expected sensor.
    HandshakeFailed,
    /// The bus failed during initialisation.
    Transport(TransportError),
}

/// Why one poll failed; the scheduler logs it and retries on the next tick.
#[derive(Clone, Copy, Debug, PartialEq, Eq, Structural)]
pub enum PollError {
    Transport(TransportError),
    Decode(DecodeError),
}

} // verus!
