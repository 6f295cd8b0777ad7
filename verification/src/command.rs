//! User commands and the command engine.
//!
//! A [`Command`] pairs one of the four user-facing operations with its
//! optional argument. [`Command::execute`] composes the register protocol,
//! the status codec and the FIFO controller into the four compound
//! operations, including the busy-wait completion protocol.

use vstd::prelude::*;

use vstd::string::StringSliceAdditionalSpecFns;

use crate::bus::{BusTransport, SpiError};
use crate::command_byte::Mfrc522Command;
use crate::spi::Mfrc522Spi;
use crate::{Answer, MAX_DATA_LEN};

verus! {

/// Result of a successful command execution.
#[derive(Clone, Copy, Debug, PartialEq, Eq, Structural)]
pub enum CommandSuccess {
    /// Amount of bytes written, if any.
    BytesWritten(usize),
    /// Amount of bytes read, if any.
    BytesRead(usize),
    /// The command returned successfully without an answer.
    NoAnswer,
}

/// Possible causes of an error during command execution.
#[derive(Clone, Copy, Debug, PartialEq, Eq, Structural)]
pub enum CommandExecutionError {
    /// An underlying bus transaction failed.
    BusError,
    /// The chip did not return to `Idle` within the poll budget.
    ChipTimeout,
    /// The version byte did not match either known chip revision.
    UnrecognizedDevice,
    /// No device handle is bound; checked before any bus access.
    DeviceNotBound,
}

/// The engine-level error corresponding to a register-layer error.
pub open spec fn spec_error_of_spi(e: SpiError) -> CommandExecutionError {
    match e {
        SpiError::BusError => CommandExecutionError::BusError,
        SpiError::ChipTimeout => CommandExecutionError::ChipTimeout,
        SpiError::UnrecognizedDevice => CommandExecutionError::UnrecognizedDevice,
    }
}

impl CommandExecutionError {
    /// Map a register-layer error onto the engine's error taxonomy.
    pub fn from_spi(e: SpiError) -> (r: Self)
        ensures
            r == spec_error_of_spi(e),
    {
        match e {
            SpiError::BusError => CommandExecutionError::BusError,
            SpiError::ChipTimeout => CommandExecutionError::ChipTimeout,
            SpiError::UnrecognizedDevice => CommandExecutionError::UnrecognizedDevice,
        }
    }
}

/// Return type of command execution functions.
pub type CommandResult = Result<CommandSuccess, CommandExecutionError>;

/// Possible commands accepted by the MFRC522.
#[derive(Clone, Copy, Debug, PartialEq, Eq, Structural)]
pub enum Cmd {
    /// Write data to the MFRC522's internal buffer.
    MemWrite,
    /// Read data from the MFRC522's internal buffer.
    MemRead,
    /// Report the version of the connected MFRC522.
    GetVersion,
    /// Generate a random ID.
    GenRand,
}

/// The bytes of the text-protocol name `mem_read`.
pub open spec fn name_mem_read() -> Seq<u8> {
    seq![
        'm' as u8,
        'e' as u8,
        'm' as u8,
        '_' as u8,
        'r' as u8,
        'e' as u8,
        'a' as u8,
        'd' as u8,
    ]
}

/// The bytes of the text-protocol name `mem_write`.
pub open spec fn name_mem_write() -> Seq<u8> {
    seq![
        'm' as u8,
        'e' as u8,
        'm' as u8,
        '_' as u8,
        'w' as u8,
        'r' as u8,
        'i' as u8,
        't' as u8,
        'e' as u8,
    ]
}

/// The bytes of the text-protocol name `get_version`.
pub open spec fn name_get_version() -> Seq<u8> {
    seq![
        'g' as u8,
        'e' as u8,
        't' as u8,
        '_' as u8,
        'v' as u8,
        'e' as u8,
        'r' as u8,
        's' as u8,
        'i' as u8,
        'o' as u8,
        'n' as u8,
    ]
}

/// The bytes of the text-protocol name `gen_rand_id`.
pub open spec fn name_gen_rand_id() -> Seq<u8> {
    seq![
        'g' as u8,
        'e' as u8,
        'n' as u8,
        '_' as u8,
        'r' as u8,
        'a' as u8,
        'n' as u8,
        'd' as u8,
        '_' as u8,
        'i' as u8,
        'd' as u8,
    ]
}

/// The command named by a byte sequence, if any.
pub open spec fn spec_cmd_of_name(f: Seq<u8>) -> Option<Cmd> {
    if f == name_mem_read() {
        Some(Cmd::MemRead)
    } else if f == name_mem_write() {
        Some(Cmd::MemWrite)
    } else if f == name_get_version() {
        Some(Cmd::GetVersion)
    } else if f == name_gen_rand_id() {
        Some(Cmd::GenRand)
    } else {
        None
    }
}

/// Whether a byte range of `bytes` equals the whole of `name`.
pub(crate) fn range_eq(bytes: &[u8], start: usize, end: usize, name: &[u8]) -> (r: bool)
    requires
        start <= end <= bytes@.len(),
    ensures
        r == (bytes@.subrange(start as int, end as int) == name@),
{
    let ghost f = bytes@.subrange(start as int, end as int);
    if end - start != name.len() {
        proof {
            assert(f.len() != name@.len());
        }
        return false;
    }
    let n = name.len();
    let mut i: usize = 0;
    while i < n
        invariant
            i <= n,
            n == name@.len(),
            start + n <= bytes@.len(),
            end == start + n,
            f == bytes@.subrange(start as int, end as int),
            forall|j: int| 0 <= j < i ==> f[j] == name@[j],
        decreases n - i,
    {
        if *vstd::slice::slice_index_get(bytes, start + i) != *vstd::slice::slice_index_get(
            name,
            i,
        ) {
            proof {
                assert(f[i as int] != name@[i as int]);
            }
            return false;
        }
        i = i + 1;
    }
    proof {
        assert(f =~= name@);
    }
    true
}

/// The command named by the byte range `bytes[start..end]`, if any: the
/// byte-range form of [`Cmd::from_str`], shared with the text parser.
pub(crate) fn cmd_of_bytes(bytes: &[u8], start: usize, end: usize) -> (r: Option<Cmd>)
    requires
        start <= end <= bytes@.len(),
    ensures
        r == spec_cmd_of_name(bytes@.subrange(start as int, end as int)),
{
    let mem_read_name: [u8; 8] = [
        'm' as u8,
        'e' as u8,
        'm' as u8,
        '_' as u8,
        'r' as u8,
        'e' as u8,
        'a' as u8,
        'd' as u8,
    ];
    let mem_write_name: [u8; 9] = [
        'm' as u8,
        'e' as u8,
        'm' as u8,
        '_' as u8,
        'w' as u8,
        'r' as u8,
        'i' as u8,
        't' as u8,
        'e' as u8,
    ];
    let get_version_name: [u8; 11] = [
        'g' as u8,
        'e' as u8,
        't' as u8,
        '_' as u8,
        'v' as u8,
        'e' as u8,
        'r' as u8,
        's' as u8,
        'i' as u8,
        'o' as u8,
        'n' as u8,
    ];
    let gen_rand_id_name: [u8; 11] = [
        'g' as u8,
        'e' as u8,
        'n' as u8,
        '_' as u8,
        'r' as u8,
        'a' as u8,
        'n' as u8,
        'd' as u8,
        '_' as u8,
        'i' as u8,
        'd' as u8,
    ];
    proof {
        assert(mem_read_name@ =~= name_mem_read());
        assert(mem_write_name@ =~= name_mem_write());
        assert(get_version_name@ =~= name_get_version());
        assert(gen_rand_id_name@ =~= name_gen_rand_id());
    }
    if range_eq(bytes, start, end, mem_read_name.as_slice()) {
        Some(Cmd::MemRead)
    } else if range_eq(bytes, start, end, mem_write_name.as_slice()) {
        Some(Cmd::MemWrite)
    } else if range_eq(bytes, start, end, get_version_name.as_slice()) {
        Some(Cmd::GetVersion)
    } else if range_eq(bytes, start, end, gen_rand_id_name.as_slice()) {
        Some(Cmd::GenRand)
    } else {
        None
    }
}

impl Cmd {
    /// Get the corresponding `Cmd` from a text command, `None` if invalid.
    pub fn from_str(cmd: &str) -> (r: Option<Cmd>)
        ensures
            r == spec_cmd_of_name(cmd.spec_bytes()),
    {
        let bytes = cmd.as_bytes();
        let n = bytes.len();
        proof {
            assert(bytes@.subrange(0, n as int) =~= bytes@);
        }
        cmd_of_bytes(bytes, 0, n)
    }

    /// Does the command need an argument or not.
    pub fn has_args(&self) -> (r: bool)
        ensures
            r == (*self is MemWrite),
    {
        match self {
            Cmd::MemRead | Cmd::GenRand | Cmd::GetVersion => false,
            Cmd::MemWrite => true,
        }
    }
}

/// Argument of a command, if present.
#[derive(Clone, Copy, Debug, PartialEq, Eq)]
pub struct CommandArg {
    /// Length of the data as given by the user. Deliberately not required to
    /// equal the number of non-padding bytes in `data`; it is carried
    /// through unmodified for downstream reporting.
    pub data_len: u8,
    /// Extra data given by the user, zero-padded to the chip's memory size.
    pub data: Answer,
}

/// Mathematical model of a command argument.
pub struct ArgModel {
    pub data_len: u8,
    pub data: Seq<u8>,
}

impl View for CommandArg {
    type V = ArgModel;

    open spec fn view(&self) -> ArgModel {
        ArgModel { data_len: self.data_len, data: self.data@ }
    }
}

impl CommandArg {
    /// Create a new command argument from data and its declared length.
    pub fn new(data_len: u8, data: Answer) -> (r: CommandArg)
        ensures
            r == (CommandArg { data_len, data }),
    {
        CommandArg { data_len, data }
    }
}

/// User command, containing a command and a possible argument.
#[derive(Clone, Copy, Debug, PartialEq, Eq)]
pub struct Command {
    /// Command required by the user.
    pub cmd: Cmd,
    /// Argument as required by the user.
    pub arg: Option<CommandArg>,
}

/// Mathematical model of a user command.
pub struct CommandModel {
    pub cmd: Cmd,
    pub arg: Option<ArgModel>,
}

impl View for Command {
    type V = CommandModel;

    open spec fn view(&self) -> CommandModel {
        CommandModel {
            cmd: self.cmd,
            arg: match self.arg {
                Some(a) => Some(a@),
                None => None,
            },
        }
    }
}

impl Command {
    /// A command that takes an argument carries one.
    pub open spec fn wf(self) -> bool {
        self.cmd is MemWrite ==> self.arg is Some
    }

    /// Whether the command carries the argument it needs; `execute` asks
    /// for this.
    pub fn is_well_formed(&self) -> (r: bool)
        ensures
            r == self.wf(),
    {
        match self.cmd {
            Cmd::MemWrite => self.arg.is_some(),
            _ => true,
        }
    }

    /// Create a new complete command with an argument.
    pub fn new(cmd: Cmd, data_len: u8, data: Answer) -> (r: Command)
        ensures
            r.cmd == cmd,
            r.arg == Some(CommandArg { data_len, data }),
    {
        Command { cmd, arg: Some(CommandArg::new(data_len, data)) }
    }

    /// Create a simple command without an argument.
    pub fn new_simple(cmd: Cmd) -> (r: Command)
        ensures
            r.cmd == cmd,
            r.arg is None,
    {
        Command { cmd, arg: None }
    }
}

/// The ASCII byte of a hexadecimal digit, upper case.
pub open spec fn hex_digit(v: u8) -> u8
    recommends
        v < 0x10,
{
    if v < 10 {
        (v + 0x30) as u8
    } else {
        (v + 0x37) as u8
    }
}

/// The text of one byte in hexadecimal: `0x` followed by one digit for a
/// value below 0x10, two digits otherwise (no leading-zero padding).
pub open spec fn spec_hex_token(b: u8) -> Seq<u8> {
    if b < 0x10 {
        seq!['0' as u8, 'x' as u8, hex_digit(b)]
    } else {
        seq!['0' as u8, 'x' as u8, hex_digit(b / 16), hex_digit(b % 16)]
    }
}

/// The hexadecimal dump of a byte sequence: the tokens of its bytes, in
/// order, with nothing between them.
pub open spec fn spec_hex_dump(id: Seq<u8>) -> Seq<u8>
    decreases id.len(),
{
    if id.len() == 0 {
        Seq::empty()
    } else {
        spec_hex_dump(id.drop_last()) + spec_hex_token(id.last())
    }
}

/// The line the engine appends to the diagnostic sink for a generated ID.
pub open spec fn spec_id_dump(id: Seq<u8>) -> Seq<u8> {
    "[MFRC522-RS] Generated random ID: ".spec_bytes() + spec_hex_dump(id) + seq!['\n' as u8]
}

/// The ASCII byte of a hexadecimal digit (executable form of
/// [`hex_digit`]).
pub fn hex_digit_exec(v: u8) -> (r: u8)
    requires
        v < 0x10,
    ensures
        r == hex_digit(v),
{
    if v < 10 {
        v + 0x30
    } else {
        v + 0x37
    }
}

/// Append the hexadecimal text of one byte to the output.
pub fn push_hex_byte(out: &mut Vec<u8>, b: u8)
    ensures
        final(out)@ == old(out)@ + spec_hex_token(b),
{
    out.push('0' as u8);
    out.push('x' as u8);
    if b < 0x10 {
        out.push(hex_digit_exec(b));
        proof {
            assert(out@ =~= old(out)@ + spec_hex_token(b));
        }
    } else {
        let hi = b >> 4u8;
        let lo = b & 0xF;
        proof {
            assert(b >> 4u8 == b / 16 && (b & 0xF) == b % 16 && b / 16 < 0x10 && b % 16 < 0x10)
                by (bit_vector);
        }
        out.push(hex_digit_exec(hi));
        out.push(hex_digit_exec(lo));
        proof {
            assert(out@ =~= old(out)@ + spec_hex_token(b));
        }
    }
}

impl Command {
    /// Write the argument's 25 bytes into the chip's FIFO, then run the
    /// `Mem` command. Success is reported as a fixed count of 25 bytes
    /// written, independent of the declared length or the payload: existing
    /// behaviour, preserved for compatibility.
    fn mem_write<B: BusTransport>(&self, dev: &mut B, poll_budget: u32) -> (r: CommandResult)
        requires
            self.arg is Some,
        ensures
            r matches Ok(s) ==> s == CommandSuccess::BytesWritten(MAX_DATA_LEN),
            r matches Err(e) ==> !(e is DeviceNotBound),
            poll_budget == 0 ==> r is Err,
    {
        let data: &Answer = match &self.arg {
            Some(arg) => &arg.data,
            None => vstd::pervasive::unreached(),
        };
        match Mfrc522Spi::fifo_write(dev, data.as_slice()) {
            Ok(()) => (),
            Err(e) => {
                return Err(CommandExecutionError::from_spi(e));
            },
        }
        match Mfrc522Spi::send_command(dev, Mfrc522Command::Mem, poll_budget) {
            Ok(()) => (),
            Err(e) => {
                return Err(CommandExecutionError::from_spi(e));
            },
        }

        Ok(CommandSuccess::BytesWritten(MAX_DATA_LEN))
    }

    /// Flush the FIFO, run the `Mem` command, then read the FIFO into the
    /// answer buffer. Success is reported as the FIFO-reported byte count;
    /// positions at or beyond it keep what the buffer held before.
    fn mem_read<B: BusTransport>(
        &self,
        dev: &mut B,
        answer: &mut Answer,
        poll_budget: u32,
    ) -> (r: CommandResult)
        ensures
            r matches Ok(s) ==> (s matches CommandSuccess::BytesRead(n) && n <= MAX_DATA_LEN),
            r matches Ok(CommandSuccess::BytesRead(n)) ==> forall|i: int|
                n <= i < final(answer)@.len() ==> final(answer)@[i] == old(answer)@[i],
            r matches Err(e) ==> !(e is DeviceNotBound),
            poll_budget == 0 ==> r is Err,
    {
        match Mfrc522Spi::fifo_flush(dev) {
            Ok(()) => (),
            Err(e) => {
                return Err(CommandExecutionError::from_spi(e));
            },
        }
        match Mfrc522Spi::send_command(dev, Mfrc522Command::Mem, poll_budget) {
            Ok(()) => (),
            Err(e) => {
                return Err(CommandExecutionError::from_spi(e));
            },
        }
        let bytes_read = match Mfrc522Spi::fifo_read(dev, answer) {
            Ok(count) => count,
            Err(e) => {
                return Err(CommandExecutionError::from_spi(e));
            },
        };

        Ok(CommandSuccess::BytesRead(bytes_read as usize))
    }

    /// Read and classify the chip's version register. Only the two known
    /// revisions are success outcomes; the result itself carries no answer.
    fn get_version<B: BusTransport>(&self, dev: &mut B) -> (r: CommandResult)
        ensures
            r matches Ok(s) ==> s is NoAnswer,
            r matches Err(e) ==> !(e is DeviceNotBound),
    {
        match Mfrc522Spi::get_version(dev) {
            Ok(_) => Ok(CommandSuccess::NoAnswer),
            Err(e) => Err(CommandExecutionError::from_spi(e)),
        }
    }

    /// Read the chip's memory and append its 25 bytes, in hexadecimal, as
    /// one line to the diagnostic sink. The sink is append-only; the bytes
    /// are not routed into any answer buffer.
    fn show_generated_id<B: BusTransport>(
        &self,
        dev: &mut B,
        diag: &mut Vec<u8>,
        poll_budget: u32,
    ) -> (r: CommandResult)
        ensures
            r matches Ok(s) ==> s is NoAnswer,
            r matches Err(e) ==> !(e is DeviceNotBound),
            old(diag)@.is_prefix_of(final(diag)@),
            r is Ok ==> exists|id: Seq<u8>|
                id.len() == MAX_DATA_LEN && final(diag)@ == old(diag)@ + spec_id_dump(id),
            poll_budget == 0 ==> r is Err,
    {
        let mut dbg_buffer: Answer = [0u8; MAX_DATA_LEN];
        match self.mem_read(dev, &mut dbg_buffer, poll_budget) {
            Ok(_) => (),
            Err(e) => {
                proof {
                    assert(diag@ =~= old(diag)@);
                }
                return Err(e);
            },
        }

        diag.extend_from_slice("[MFRC522-RS] Generated random ID: ".as_bytes());

        let ghost mark = diag@;
        let mut i: usize = 0;
        while i < MAX_DATA_LEN
            invariant
                i <= MAX_DATA_LEN,
                diag@ == mark + spec_hex_dump(dbg_buffer@.take(i as int)),
            decreases MAX_DATA_LEN - i,
        {
            push_hex_byte(diag, dbg_buffer[i]);
            proof {
                assert(dbg_buffer@.take(i + 1).drop_last() =~= dbg_buffer@.take(i as int));
                assert(dbg_buffer@.take(i + 1).last() == dbg_buffer@[i as int]);
            }
            i = i + 1;
        }

        diag.push('\n' as u8);

        proof {
            assert(dbg_buffer@.take(MAX_DATA_LEN as int) =~= dbg_buffer@);
            assert(diag@ =~= old(diag)@ + spec_id_dump(dbg_buffer@));
            assert(old(diag)@.is_prefix_of(diag@));
        }
        Ok(CommandSuccess::NoAnswer)
    }

    /// Clear the chip's memory by writing 25 zero bytes, run the
    /// random-ID generation command, then emit the generated bytes to the
    /// diagnostic sink. Every success appends exactly one hex dump line of
    /// a 25-byte ID to the sink. The generated bytes are not returned
    /// through the answer channel: the reported result is "no answer", as
    /// the existing protocol has it.
    fn generate_random_id<B: BusTransport>(
        &self,
        dev: &mut B,
        diag: &mut Vec<u8>,
        poll_budget: u32,
    ) -> (r: CommandResult)
        ensures
            r matches Ok(s) ==> s is NoAnswer,
            r matches Err(e) ==> !(e is DeviceNotBound),
            old(diag)@.is_prefix_of(final(diag)@),
            r is Ok ==> exists|id: Seq<u8>|
                id.len() == MAX_DATA_LEN && final(diag)@ == old(diag)@ + spec_id_dump(id),
            poll_budget == 0 ==> r is Err,
    {
        let zero_buffer: Answer = [0u8; MAX_DATA_LEN];
        let cmd = Command::new(Cmd::MemWrite, MAX_DATA_LEN as u8, zero_buffer);
        match cmd.mem_write(dev, poll_budget) {
            Ok(_) => (),
            Err(e) => {
                proof {
                    assert(diag@ =~= old(diag)@);
                }
                return Err(e);
            },
        }

        match Mfrc522Spi::send_command(dev, Mfrc522Command::GenerateRandomId, poll_budget) {
            Ok(()) => (),
            Err(e) => {
                proof {
                    assert(diag@ =~= old(diag)@);
                }
                return Err(CommandExecutionError::from_spi(e));
            },
        }

        match self.show_generated_id(dev, diag, poll_budget) {
            Ok(_) => Ok(CommandSuccess::NoAnswer),
            Err(e) => Err(e),
        }
    }

    /// Execute the required command, sending and receiving information to
    /// the MFRC522 over the given bus handle.
    ///
    /// `poll_budget` bounds the busy-wait completion poll of every command
    /// write; a chip that never reports `Idle` yields `ChipTimeout`. The
    /// diagnostic sink `diag` is append-only text, written only by the
    /// random-ID operation.
    pub fn execute<B: BusTransport>(
        &self,
        dev: &mut B,
        answer: &mut Answer,
        diag: &mut Vec<u8>,
        poll_budget: u32,
    ) -> (r: CommandResult)
        requires
            self.wf(),
        ensures
            self.cmd is MemWrite ==> (r matches Ok(s) ==> s == CommandSuccess::BytesWritten(
                MAX_DATA_LEN,
            )),
            self.cmd is MemRead ==> (r matches Ok(s) ==> (s matches CommandSuccess::BytesRead(n)
                && n <= MAX_DATA_LEN)),
            self.cmd is MemRead ==> (r matches Ok(CommandSuccess::BytesRead(n)) ==> forall|i: int|
                n <= i < final(answer)@.len() ==> final(answer)@[i] == old(answer)@[i]),
            self.cmd is GetVersion || self.cmd is GenRand ==> (r matches Ok(s) ==> s is NoAnswer),
            !(self.cmd is MemRead) ==> final(answer)@ == old(answer)@,
            !(self.cmd is GenRand) ==> final(diag)@ == old(diag)@,
            old(diag)@.is_prefix_of(final(diag)@),
            self.cmd is GenRand && r is Ok ==> exists|id: Seq<u8>|
                id.len() == MAX_DATA_LEN && final(diag)@ == old(diag)@ + spec_id_dump(id),
            r matches Err(e) ==> !(e is DeviceNotBound),
            poll_budget == 0 && !(self.cmd is GetVersion) ==> r is Err,
    {
        match self.cmd {
            Cmd::MemWrite => self.mem_write(dev, poll_budget),
            Cmd::MemRead => self.mem_read(dev, answer, poll_budget),
            Cmd::GetVersion => self.get_version(dev),
            Cmd::GenRand => self.generate_random_id(dev, diag, poll_budget),
        }
    }

    /// Execute the required command against a device handle that may be
    /// absent. An absent handle is a distinct, explicit precondition
    /// failure, `DeviceNotBound`, reported before any bus access.
    pub fn execute_on<B: BusTransport>(
        &self,
        dev: &mut Option<B>,
        answer: &mut Answer,
        diag: &mut Vec<u8>,
        poll_budget: u32,
    ) -> (r: CommandResult)
        requires
            self.wf(),
        ensures
            *old(dev) is None ==> r == Err::<CommandSuccess, CommandExecutionError>(
                CommandExecutionError::DeviceNotBound,
            ) && final(answer)@ == old(answer)@ && final(diag)@ == old(diag)@,
            self.cmd is MemWrite ==> (r matches Ok(s) ==> s == CommandSuccess::BytesWritten(
                MAX_DATA_LEN,
            )),
            self.cmd is MemRead ==> (r matches Ok(s) ==> (s matches CommandSuccess::BytesRead(n)
                && n <= MAX_DATA_LEN)),
            self.cmd is GetVersion || self.cmd is GenRand ==> (r matches Ok(s) ==> s is NoAnswer),
            !(self.cmd is MemRead) ==> final(answer)@ == old(answer)@,
            !(self.cmd is GenRand) ==> final(diag)@ == old(diag)@,
            old(diag)@.is_prefix_of(final(diag)@),
            self.cmd is GenRand && r is Ok ==> exists|id: Seq<u8>|
                id.len() == MAX_DATA_LEN && final(diag)@ == old(diag)@ + spec_id_dump(id),
            poll_budget == 0 && *old(dev) is Some && !(self.cmd is GetVersion) ==> r is Err,
    {
        match dev.as_mut() {
            Some(handle) => self.execute(handle, answer, diag, poll_budget),
            None => Err(CommandExecutionError::DeviceNotBound),
        }
    }
}

} // verus!
