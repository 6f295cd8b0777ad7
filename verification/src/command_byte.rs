//! The chip's one-byte internal command/status encoding.
//!
//! A status byte packs a receiver-enable bit (bit 5), a power-down bit
//! (bit 4) and a 4-bit command code (bits 0..=3). The 4-bit code ranges over
//! a sparse enumeration; decoding a reserved code yields an explicit
//! `Unknown` variant rather than an arbitrary chip command.

use vstd::prelude::*;

verus! {

/// Power-down bit of the status byte.
#[derive(Clone, Copy, Debug, PartialEq, Eq, Structural)]
pub enum Mfrc522PowerDown {
    Off,
    On,
}

/// Receiver-enable bit of the status byte.
#[derive(Clone, Copy, Debug, PartialEq, Eq, Structural)]
pub enum Mfrc522Receiver {
    Off,
    On,
}

/// The chip's 4-bit internal command code.
///
/// The values 5, 6, 9, 10, 11 and 13 are reserved; a decoded reserved code
/// is carried as `Unknown` and never mapped onto a defined command.
#[derive(Clone, Copy, Debug, PartialEq, Eq, Structural)]
pub enum Mfrc522Command {
    Idle,
    Mem,
    GenerateRandomId,
    CalcCrc,
    Transmit,
    NoCmdChange,
    Receive,
    Transceive,
    MfAuthent,
    SoftReset,
    /// A reserved 4-bit code, kept as decoded.
    Unknown(u8),
}

/// The 4-bit code of a command, per the chip's command table.
pub open spec fn command_code(cmd: Mfrc522Command) -> u8 {
    match cmd {
        Mfrc522Command::Idle => 0x0,
        Mfrc522Command::Mem => 0x1,
        Mfrc522Command::GenerateRandomId => 0x2,
        Mfrc522Command::CalcCrc => 0x3,
        Mfrc522Command::Transmit => 0x4,
        Mfrc522Command::NoCmdChange => 0x7,
        Mfrc522Command::Receive => 0x8,
        Mfrc522Command::Transceive => 0xC,
        Mfrc522Command::MfAuthent => 0xE,
        Mfrc522Command::SoftReset => 0xF,
        Mfrc522Command::Unknown(c) => c & 0xF,
    }
}

/// Total mapping from a 4-bit code back to the command enumeration; the
/// reserved bit patterns map to `Unknown`.
pub open spec fn command_of_code(code: u8) -> Mfrc522Command {
    if code == 0x0 {
        Mfrc522Command::Idle
    } else if code == 0x1 {
        Mfrc522Command::Mem
    } else if code == 0x2 {
        Mfrc522Command::GenerateRandomId
    } else if code == 0x3 {
        Mfrc522Command::CalcCrc
    } else if code == 0x4 {
        Mfrc522Command::Transmit
    } else if code == 0x7 {
        Mfrc522Command::NoCmdChange
    } else if code == 0x8 {
        Mfrc522Command::Receive
    } else if code == 0xC {
        Mfrc522Command::Transceive
    } else if code == 0xE {
        Mfrc522Command::MfAuthent
    } else if code == 0xF {
        Mfrc522Command::SoftReset
    } else {
        Mfrc522Command::Unknown(code)
    }
}

/// The power-down bit of a status byte: 1 when on.
pub open spec fn power_bit(power: Mfrc522PowerDown) -> u8 {
    match power {
        Mfrc522PowerDown::Off => 0,
        Mfrc522PowerDown::On => 1,
    }
}

/// The receiver-enable bit of a status byte: 1 when on.
pub open spec fn receiver_bit(receiver: Mfrc522Receiver) -> u8 {
    match receiver {
        Mfrc522Receiver::Off => 0,
        Mfrc522Receiver::On => 1,
    }
}

/// The power-down field decoded from its bit.
pub open spec fn power_of_bit(bit: u8) -> Mfrc522PowerDown {
    if bit == 1 {
        Mfrc522PowerDown::On
    } else {
        Mfrc522PowerDown::Off
    }
}

/// The receiver-enable field decoded from its bit.
pub open spec fn receiver_of_bit(bit: u8) -> Mfrc522Receiver {
    if bit == 1 {
        Mfrc522Receiver::On
    } else {
        Mfrc522Receiver::Off
    }
}

/// A decoded status byte: receiver-enable bit, power-down bit and 4-bit
/// command code.
#[derive(Clone, Copy, Debug, PartialEq, Eq, Structural)]
pub struct Mfrc522CommandByte {
    pub cmd: Mfrc522Command,
    pub power: Mfrc522PowerDown,
    pub receiver: Mfrc522Receiver,
}

/// The bit layout of an encoded status byte:
/// `(receiver_bit << 5) | (power_bit << 4) | command_code`.
pub open spec fn spec_to_byte(b: Mfrc522CommandByte) -> u8 {
    (receiver_bit(b.receiver) << 5) | (power_bit(b.power) << 4) | command_code(b.cmd)
}

/// The three fields extracted from a status byte by shifting and masking.
pub open spec fn spec_from_byte(byte: u8) -> Mfrc522CommandByte {
    Mfrc522CommandByte {
        cmd: command_of_code(byte & 0xF),
        power: power_of_bit((byte >> 4) & 1),
        receiver: receiver_of_bit((byte >> 5) & 1),
    }
}

impl Mfrc522CommandByte {
    /// Pack the three fields into a status-byte value.
    pub fn new(cmd: Mfrc522Command, power: Mfrc522PowerDown, receiver: Mfrc522Receiver) -> (r:
        Self)
        ensures
            r == (Mfrc522CommandByte { cmd, power, receiver }),
    {
        Self { cmd, power, receiver }
    }

    /// Encode the status byte per the chip's bit layout.
    pub fn to_byte(&self) -> (r: u8)
        ensures
            r == spec_to_byte(*self),
    {
        let rec: u8 = match self.receiver {
            Mfrc522Receiver::Off => 0,
            Mfrc522Receiver::On => 1,
        };
        let pwr: u8 = match self.power {
            Mfrc522PowerDown::Off => 0,
            Mfrc522PowerDown::On => 1,
        };
        let code: u8 = command_code_exec(self.cmd);
        (rec << 5u8) | (pwr << 4u8) | code
    }

    /// Decode a status byte into its three fields. Total: a reserved command
    /// code becomes `Unknown`, never an arbitrary chip command.
    pub fn from_byte(byte: u8) -> (r: Self)
        ensures
            r == spec_from_byte(byte),
    {
        let code: u8 = byte & 0xF;
        let pwr: u8 = (byte >> 4u8) & 1;
        let rec: u8 = (byte >> 5u8) & 1;
        let cmd = if code == 0x0 {
            Mfrc522Command::Idle
        } else if code == 0x1 {
            Mfrc522Command::Mem
        } else if code == 0x2 {
            Mfrc522Command::GenerateRandomId
        } else if code == 0x3 {
            Mfrc522Command::CalcCrc
        } else if code == 0x4 {
            Mfrc522Command::Transmit
        } else if code == 0x7 {
            Mfrc522Command::NoCmdChange
        } else if code == 0x8 {
            Mfrc522Command::Receive
        } else if code == 0xC {
            Mfrc522Command::Transceive
        } else if code == 0xE {
            Mfrc522Command::MfAuthent
        } else if code == 0xF {
            Mfrc522Command::SoftReset
        } else {
            Mfrc522Command::Unknown(code)
        };
        let power = if pwr == 1 {
            Mfrc522PowerDown::On
        } else {
            Mfrc522PowerDown::Off
        };
        let receiver = if rec == 1 {
            Mfrc522Receiver::On
        } else {
            Mfrc522Receiver::Off
        };
        Self { cmd, power, receiver }
    }
}

/// The 4-bit code of a command (executable form of [`command_code`]).
pub fn command_code_exec(cmd: Mfrc522Command) -> (r: u8)
    ensures
        r == command_code(cmd),
{
    match cmd {
        Mfrc522Command::Idle => 0x0,
        Mfrc522Command::Mem => 0x1,
        Mfrc522Command::GenerateRandomId => 0x2,
        Mfrc522Command::CalcCrc => 0x3,
        Mfrc522Command::Transmit => 0x4,
        Mfrc522Command::NoCmdChange => 0x7,
        Mfrc522Command::Receive => 0x8,
        Mfrc522Command::Transceive => 0xC,
        Mfrc522Command::MfAuthent => 0xE,
        Mfrc522Command::SoftReset => 0xF,
        Mfrc522Command::Unknown(c) => c & 0xF,
    }
}

/// The three fields of an encoded status byte read back exactly, for any
/// one-bit receiver and power values and any 4-bit command code.
proof fn lemma_status_bits(rec: u8, pwr: u8, code: u8)
    by (bit_vector)
    requires
        rec <= 1,
        pwr <= 1,
        code <= 0xF,
    ensures
        ((rec << 5) | (pwr << 4) | code) & 0xF == code,
        (((rec << 5) | (pwr << 4) | code) >> 4) & 1 == pwr,
        (((rec << 5) | (pwr << 4) | code) >> 5) & 1 == rec,
{
}

/// Round trip: decoding an encoded status byte reproduces the command code,
/// the power-down bit and the receiver-enable bit exactly, for every
/// combination of the defined enumerations.
pub proof fn lemma_status_round_trip(
    cmd: Mfrc522Command,
    power: Mfrc522PowerDown,
    receiver: Mfrc522Receiver,
)
    requires
        !(cmd is Unknown),
    ensures
        spec_from_byte(spec_to_byte(Mfrc522CommandByte { cmd, power, receiver }))
            == (Mfrc522CommandByte { cmd, power, receiver }),
{
    let rec = receiver_bit(receiver);
    let pwr = power_bit(power);
    let code = command_code(cmd);
    lemma_status_bits(rec, pwr, code);
}

} // verus!
