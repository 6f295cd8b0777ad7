//! Protocol core of a driver for an MFRC522 contactless-reader chip reachable
//! over a register-addressed serial bus.
//!
//! The crate covers the bus-transaction primitives that read and write chip
//! registers, the chip's one-byte command/status encoding together with its
//! busy-wait completion protocol, the small FIFO buffer management built on
//! those registers, the four compound user-facing operations, and the text
//! parser that turns a line of user input into one of those operations.
//!
//! The bus itself is an external collaborator: anything that implements
//! [`bus::BusTransport`] can stand in for the host platform's transport.

use vstd::prelude::*;

pub mod bus;
pub mod command;
pub mod command_byte;
pub mod parser;
pub mod spi;

verus! {

/// Maximum amount of bytes handled by the MFRC522's internal memory.
pub const MAX_DATA_LEN: usize = 25;

/// Answer buffer in which the command engine writes, if necessary. This
/// represents the inner memory of the MFRC522 and is not guaranteed to be
/// valid ASCII or UTF-8. Positions the engine does not write keep whatever
/// the buffer held before the call.
pub type Answer = [u8; MAX_DATA_LEN];

} // verus!
