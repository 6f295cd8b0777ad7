//! The transport boundary: a full-duplex, byte-oriented transaction
//! primitive supplied by the host platform.

use vstd::prelude::*;

verus! {

/// Failure modes of the register, FIFO and command layers.
///
/// The transport itself only ever reports `BusError`; the other variants are
/// produced by the layers built on top of it.
#[derive(Clone, Copy, Debug, PartialEq, Eq, Structural)]
pub enum SpiError {
    /// An underlying transport transaction failed. Never retried internally;
    /// surfaced immediately, aborting the in-progress operation.
    BusError,
    /// The chip did not return to `Idle` within the poll budget.
    ChipTimeout,
    /// The version byte did not match either known chip revision.
    UnrecognizedDevice,
}

/// The bus transaction primitive consumed by the register protocol.
///
/// The host platform (or, in tests, a simulated bus) implements this trait.
/// Nothing is assumed about an implementation: every byte it hands back is
/// treated as arbitrary, and the layers above state only what holds of every
/// outcome.
pub trait BusTransport {
    /// One full-duplex transaction: send the bytes of `tx`, then receive a
    /// single byte.
    fn write_then_read(&mut self, tx: &[u8]) -> Result<u8, SpiError>;

    /// One write transaction: send the bytes of `tx`.
    fn write(&mut self, tx: &[u8]) -> Result<(), SpiError>;
}

} // verus!
