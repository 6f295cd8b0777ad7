//! Register protocol and FIFO controller.
//!
//! Register addresses and the read/write mode are packed into a one-byte
//! address header; every register read re-sends that header once per byte
//! received, and every register write is a single two-byte transaction.
//! This wire behaviour is what the physical chip expects and is kept
//! bit-for-bit.

use vstd::prelude::*;

use crate::bus::{BusTransport, SpiError};
use crate::command_byte::{
    Mfrc522Command, Mfrc522CommandByte, Mfrc522PowerDown, Mfrc522Receiver,
};
use crate::Answer;

verus! {

/// Address of the MFRC522 registers used by this driver.
#[derive(Clone, Copy, Debug, PartialEq, Eq, Structural)]
pub enum Mfrc522Register {
    /// VersionReg register.
    Version,
    /// FIFO level register.
    FifoLevel,
    /// FIFO data register.
    FifoData,
    /// Command register.
    Command,
}

/// The 6-bit address of a register.
pub open spec fn register_code(reg: Mfrc522Register) -> u8 {
    match reg {
        Mfrc522Register::Version => 0x37,
        Mfrc522Register::FifoLevel => 0x0A,
        Mfrc522Register::FifoData => 0x09,
        Mfrc522Register::Command => 0x01,
    }
}

/// The mode of an address byte: register read or register write.
#[derive(Clone, Copy, Debug, PartialEq, Eq, Structural)]
pub enum ReadWrite {
    Read,
    Write,
}

/// The mode bit of an address byte: 1 for a write.
pub open spec fn mode_bit(mode: ReadWrite) -> u8 {
    match mode {
        ReadWrite::Read => 0,
        ReadWrite::Write => 1,
    }
}

/// The encoded address header:
/// `(mode_bit << 7) | ((register_address & 0x3F) << 1)`;
/// the least-significant bit is always 0.
pub open spec fn spec_address_byte(reg: Mfrc522Register, mode: ReadWrite) -> u8 {
    (mode_bit(mode) << 7) | ((register_code(reg) & 0x3F) << 1)
}

/// The one-byte address header of a bus transaction: a register address and
/// the read/write mode. Produced per transaction, never stored.
#[derive(Clone, Copy, Debug, PartialEq, Eq, Structural)]
pub struct AddressByte {
    pub addr: Mfrc522Register,
    pub mode: ReadWrite,
}

impl AddressByte {
    /// Pair a register address with a transaction mode.
    pub fn new(addr: Mfrc522Register, mode: ReadWrite) -> (r: Self)
        ensures
            r == (AddressByte { addr, mode }),
    {
        AddressByte { addr, mode }
    }

    /// Encode the address header. Bit 0 is always 0, bit 7 is the mode and
    /// bits 6..=1 are the register address, for every register/mode pair.
    pub fn to_byte(&self) -> (r: u8)
        ensures
            r == spec_address_byte(self.addr, self.mode),
            r & 1 == 0,
            (r >> 7) & 1 == mode_bit(self.mode),
            (r >> 1) & 0x3F == register_code(self.addr),
    {
        let m: u8 = match self.mode {
            ReadWrite::Read => 0,
            ReadWrite::Write => 1,
        };
        let code: u8 = match self.addr {
            Mfrc522Register::Version => 0x37,
            Mfrc522Register::FifoLevel => 0x0A,
            Mfrc522Register::FifoData => 0x09,
            Mfrc522Register::Command => 0x01,
        };
        proof {
            lemma_address_bits(m, code);
        }
        (m << 7u8) | ((code & 0x3F) << 1u8)
    }
}

/// Bit-level facts about the address header layout: the mode and address
/// fields read back exactly and the least-significant bit stays clear.
proof fn lemma_address_bits(m: u8, code: u8)
    by (bit_vector)
    requires
        m <= 1,
        code <= 0x3F,
    ensures
        ((m << 7) | ((code & 0x3F) << 1)) & 1 == 0,
        (((m << 7) | ((code & 0x3F) << 1)) >> 7) & 1 == m,
        (((m << 7) | ((code & 0x3F) << 1)) >> 1) & 0x3F == code,
{
}

/// The possible values of the VersionReg register.
#[derive(Clone, Copy, Debug, PartialEq, Eq, Structural)]
pub enum Mfrc522Version {
    /// Chip revision 1, version byte 0x91.
    Version1,
    /// Chip revision 2, version byte 0x92.
    Version2,
    /// Any other version byte, kept as read.
    Unknown(u8),
}

/// Classification of a version byte.
pub open spec fn spec_version_of(byte: u8) -> Mfrc522Version {
    if byte == 0x91 {
        Mfrc522Version::Version1
    } else if byte == 0x92 {
        Mfrc522Version::Version2
    } else {
        Mfrc522Version::Unknown(byte)
    }
}

impl Mfrc522Version {
    /// Classify a version byte: only 0x91 and 0x92 are known revisions.
    pub fn from_byte(byte: u8) -> (r: Self)
        ensures
            r == spec_version_of(byte),
    {
        if byte == 0x91 {
            Mfrc522Version::Version1
        } else if byte == 0x92 {
            Mfrc522Version::Version2
        } else {
            Mfrc522Version::Unknown(byte)
        }
    }
}

/// The buffer after a call agrees with the buffer before it at every
/// position at or beyond `k`.
pub open spec fn tail_unchanged(pre: Seq<u8>, post: Seq<u8>, k: int) -> bool {
    post.len() == pre.len() && forall|i: int| k <= i < pre.len() ==> post[i] == pre[i]
}

/// The chip's documented FIFO flush signal: only the top bit of the
/// FifoLevel register set, all others clear. Not a byte count.
pub const FIFO_FLUSH_BYTE: u8 = 0x80;

/// The 7-bit byte count held in a FifoLevel register byte: the top bit
/// (the flush flag position) masked off.
pub fn level_of_byte(byte: u8) -> (r: u8)
    ensures
        r == byte & 0x7F,
        r < 0x80,
{
    proof {
        assert(byte & 0x7F < 0x80) by (bit_vector);
    }
    byte & 0x7F
}

/// The number of bytes a FIFO read transfers for a reported level: the
/// level itself, held within the answer buffer's size.
pub fn count_of_level(level: u8) -> (r: u8)
    ensures
        level as int <= crate::MAX_DATA_LEN as int ==> r == level,
        level as int > crate::MAX_DATA_LEN as int ==> r as int == crate::MAX_DATA_LEN as int,
{
    if level as usize > crate::MAX_DATA_LEN {
        crate::MAX_DATA_LEN as u8
    } else {
        level
    }
}

/// SPI API specific to the MFRC522.
pub struct Mfrc522Spi;

impl Mfrc522Spi {
    /// Read an MFRC522 register. The one-byte address header is re-sent once
    /// per byte received, as the chip's wire protocol expects; the first
    /// failed transaction aborts the remaining bytes, so a partial read is
    /// never reported as success. Positions at or beyond `read_len` are left
    /// as they were.
    pub fn register_read<B: BusTransport>(
        dev: &mut B,
        reg: Mfrc522Register,
        read_buf: &mut [u8],
        read_len: u8,
    ) -> (r: Result<(), SpiError>)
        requires
            read_len as int <= old(read_buf)@.len(),
        ensures
            tail_unchanged(old(read_buf)@, final(read_buf)@, read_len as int),
            read_len == 0 ==> r is Ok,
    {
        let address_byte = AddressByte::new(reg, ReadWrite::Read).to_byte();
        let tx: [u8; 1] = [address_byte];

        let mut i: usize = 0;
        while i < read_len as usize
            invariant
                i <= read_len as usize,
                read_len as int <= read_buf@.len(),
                read_buf@.len() == old(read_buf)@.len(),
                forall|j: int|
                    i as int <= j < old(read_buf)@.len() ==> read_buf@[j] == old(read_buf)@[j],
            decreases read_len as int - i as int,
        {
            match dev.write_then_read(&tx) {
                Ok(byte) => {
                    read_buf[i] = byte;
                },
                Err(e) => {
                    return Err(e);
                },
            }
            i = i + 1;
        }

        Ok(())
    }

    /// Write to an MFRC522 register: a single two-byte transaction holding
    /// the address header (write mode) and the value.
    pub fn register_write<B: BusTransport>(
        dev: &mut B,
        reg: Mfrc522Register,
        value: u8,
    ) -> (r: Result<(), SpiError>) {
        let address_byte = AddressByte::new(reg, ReadWrite::Write).to_byte();
        let data: [u8; 2] = [address_byte, value];

        dev.write(&data)
    }

    /// Get the MFRC522 version stored in the VersionReg register. Only the
    /// two known revisions are success outcomes; any other version byte is
    /// surfaced as `UnrecognizedDevice`.
    pub fn get_version<B: BusTransport>(dev: &mut B) -> (r: Result<Mfrc522Version, SpiError>)
        ensures
            r matches Ok(v) ==> (v is Version1 || v is Version2),
    {
        let mut version: [u8; 1] = [0u8; 1];

        match Mfrc522Spi::register_read(dev, Mfrc522Register::Version, &mut version, 1) {
            Ok(()) => (),
            Err(e) => {
                return Err(e);
            },
        }

        match Mfrc522Version::from_byte(version[0]) {
            Mfrc522Version::Unknown(_) => Err(SpiError::UnrecognizedDevice),
            val => Ok(val),
        }
    }

    /// Get the current FIFO level: the FifoLevel register byte with its top
    /// bit (the flush flag position) masked off by [`level_of_byte`],
    /// leaving the 7-bit byte count.
    pub fn fifo_level<B: BusTransport>(dev: &mut B) -> (r: Result<u8, SpiError>)
        ensures
            r matches Ok(level) ==> level < 0x80,
    {
        let mut level: [u8; 1] = [0u8; 1];

        match Mfrc522Spi::register_read(dev, Mfrc522Register::FifoLevel, &mut level, 1) {
            Ok(()) => (),
            Err(e) => {
                return Err(e);
            },
        }

        Ok(level_of_byte(level[0]))
    }

    /// Read data from the MFRC522's FIFO into the answer buffer: first the
    /// FIFO level, then exactly that many bytes from the FifoData register.
    /// The returned count is the number of bytes actually read: the reported
    /// level, held within the answer buffer's size by [`count_of_level`].
    /// Positions at or beyond the count keep whatever the buffer held before
    /// the call; a partial read is never reported as success.
    pub fn fifo_read<B: BusTransport>(dev: &mut B, data: &mut Answer) -> (r: Result<u8, SpiError>)
        ensures
            r matches Ok(count) ==> count as int <= crate::MAX_DATA_LEN as int,
            r matches Ok(count) ==> tail_unchanged(old(data)@, final(data)@, count as int),
    {
        let fifo_level = match Mfrc522Spi::fifo_level(dev) {
            Ok(level) => level,
            Err(e) => {
                return Err(e);
            },
        };
        let count = count_of_level(fifo_level);

        match Mfrc522Spi::register_read(dev, Mfrc522Register::FifoData, data, count) {
            Ok(()) => (),
            Err(e) => {
                return Err(e);
            },
        }

        Ok(count)
    }

    /// Write data to the MFRC522's FIFO: one FifoData register write per
    /// input byte, in order, failing fast on the first bus error. Writing
    /// nothing cannot fail: no bus transaction is issued.
    pub fn fifo_write<B: BusTransport>(dev: &mut B, data: &[u8]) -> (r: Result<(), SpiError>)
        ensures
            data@.len() == 0 ==> r is Ok,
    {
        let mut i: usize = 0;
        while i < data.len()
            invariant
                i <= data@.len(),
            decreases data@.len() - i as int,
        {
            match Mfrc522Spi::register_write(dev, Mfrc522Register::FifoData, data[i]) {
                Ok(()) => (),
                Err(e) => {
                    return Err(e);
                },
            }
            i = i + 1;
        }

        Ok(())
    }

    /// Flush the MFRC522's FIFO buffer: write the FifoLevel register with
    /// [`FIFO_FLUSH_BYTE`], the chip's documented flush signal (not a byte
    /// count).
    pub fn fifo_flush<B: BusTransport>(dev: &mut B) -> (r: Result<(), SpiError>) {
        Mfrc522Spi::register_write(dev, Mfrc522Register::FifoLevel, FIFO_FLUSH_BYTE)
    }

    /// Wait for a command to finish executing: poll the Command register
    /// until the chip reports `Idle`, at most `poll_budget` times. A chip
    /// that never returns to `Idle` yields `ChipTimeout` instead of hanging
    /// the caller forever.
    pub fn wait_for_command<B: BusTransport>(dev: &mut B, poll_budget: u32) -> (r: Result<
        (),
        SpiError,
    >)
        ensures
            poll_budget == 0 ==> r == Err::<(), SpiError>(SpiError::ChipTimeout),
    {
        let mut polls: u32 = 0;
        while polls < poll_budget
            invariant
                polls <= poll_budget,
            decreases poll_budget as int - polls as int,
        {
            let current_cmd = match Mfrc522Spi::read_command(dev) {
                Ok(cmd) => cmd,
                Err(e) => {
                    return Err(e);
                },
            };
            match current_cmd {
                Mfrc522Command::Idle => {
                    return Ok(());
                },
                _ => (),
            }
            polls = polls + 1;
        }

        Err(SpiError::ChipTimeout)
    }

    /// Send a command to the MFRC522: encode a status byte with power-down
    /// off, receiver on and the given command code, write it to the Command
    /// register, then block until the chip reports `Idle` or the poll budget
    /// runs out.
    pub fn send_command<B: BusTransport>(dev: &mut B, cmd: Mfrc522Command, poll_budget: u32) -> (r:
        Result<(), SpiError>)
        ensures
            poll_budget == 0 ==> !(r is Ok),
    {
        let cmd_byte = Mfrc522CommandByte::new(
            cmd,
            Mfrc522PowerDown::Off,
            Mfrc522Receiver::On,
        ).to_byte();

        match Mfrc522Spi::register_write(dev, Mfrc522Register::Command, cmd_byte) {
            Ok(()) => (),
            Err(e) => {
                return Err(e);
            },
        }

        Mfrc522Spi::wait_for_command(dev, poll_budget)
    }

    /// Read the Command register and decode its command-code field.
    pub fn read_command<B: BusTransport>(dev: &mut B) -> (r: Result<Mfrc522Command, SpiError>) {
        let mut cmd_byte: [u8; 1] = [0u8; 1];

        match Mfrc522Spi::register_read(dev, Mfrc522Register::Command, &mut cmd_byte, 1) {
            Ok(()) => (),
            Err(e) => {
                return Err(e);
            },
        }

        Ok(Mfrc522CommandByte::from_byte(cmd_byte[0]).cmd)
    }
}

} // verus!
