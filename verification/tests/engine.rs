use mfrc522::bus::{BusTransport, SpiError};
use mfrc522::command::{Cmd, Command, CommandExecutionError, CommandSuccess};
use mfrc522::parser::Parser;
use mfrc522::spi::{count_of_level, level_of_byte, Mfrc522Spi, Mfrc522Version};
use mfrc522::MAX_DATA_LEN;

/// A simulated bus: hands out queued read bytes in order (zero once the
/// queue is exhausted) and logs every write transaction.
struct SimBus {
    reads: Vec<u8>,
    read_pos: usize,
    writes: Vec<Vec<u8>>,
    fail_all: bool,
}

impl SimBus {
    fn new(reads: Vec<u8>) -> SimBus {
        SimBus { reads, read_pos: 0, writes: Vec::new(), fail_all: false }
    }

    fn failing() -> SimBus {
        SimBus { reads: Vec::new(), read_pos: 0, writes: Vec::new(), fail_all: true }
    }
}

impl BusTransport for SimBus {
    fn write_then_read(&mut self, tx: &[u8]) -> Result<u8, SpiError> {
        if self.fail_all {
            return Err(SpiError::BusError);
        }
        self.writes.push(tx.to_vec());
        let byte = if self.read_pos < self.reads.len() {
            self.reads[self.read_pos]
        } else {
            0
        };
        self.read_pos += 1;
        Ok(byte)
    }

    fn write(&mut self, tx: &[u8]) -> Result<(), SpiError> {
        if self.fail_all {
            return Err(SpiError::BusError);
        }
        self.writes.push(tx.to_vec());
        Ok(())
    }
}

const BUDGET: u32 = 16;

#[test]
fn get_version_v1() {
    let mut bus = SimBus::new(vec![0x91]);
    assert_eq!(Mfrc522Spi::get_version(&mut bus), Ok(Mfrc522Version::Version1));
    // One full-duplex transaction sending the one-byte read header for the
    // Version register.
    assert_eq!(bus.writes, vec![vec![0x6E]]);
}

#[test]
fn get_version_v2() {
    let mut bus = SimBus::new(vec![0x92]);
    assert_eq!(Mfrc522Spi::get_version(&mut bus), Ok(Mfrc522Version::Version2));
}

#[test]
fn get_version_unrecognized() {
    let mut bus = SimBus::new(vec![0x55]);
    assert_eq!(Mfrc522Spi::get_version(&mut bus), Err(SpiError::UnrecognizedDevice));
}

#[test]
fn execute_get_version_v1() {
    let mut bus = SimBus::new(vec![0x91]);
    let cmd = Parser::parse("get_version").unwrap();
    let mut answer = [0u8; MAX_DATA_LEN];
    let mut diag = Vec::new();
    let r = cmd.execute(&mut bus, &mut answer, &mut diag, BUDGET);
    assert_eq!(r, Ok(CommandSuccess::NoAnswer));
    assert!(diag.is_empty());
}

#[test]
fn execute_get_version_unrecognized() {
    let mut bus = SimBus::new(vec![0x55]);
    let cmd = Command::new_simple(Cmd::GetVersion);
    let mut answer = [0u8; MAX_DATA_LEN];
    let mut diag = Vec::new();
    let r = cmd.execute(&mut bus, &mut answer, &mut diag, BUDGET);
    assert_eq!(r, Err(CommandExecutionError::UnrecognizedDevice));
}

#[test]
fn execute_mem_write_reports_25() {
    // The chip accepts all writes and reports Idle on the first status read.
    let mut bus = SimBus::new(vec![0x00]);
    let cmd = Parser::parse("mem_write:3:Hey").unwrap();
    let mut answer = [0u8; MAX_DATA_LEN];
    let mut diag = Vec::new();
    let r = cmd.execute(&mut bus, &mut answer, &mut diag, BUDGET);
    assert_eq!(r, Ok(CommandSuccess::BytesWritten(25)));

    // Wire level: 25 two-byte FIFO data writes (zero-padded payload), one
    // command write, one status poll.
    assert_eq!(bus.writes.len(), 27);
    assert_eq!(bus.writes[0], vec![0x92, 'H' as u8]);
    assert_eq!(bus.writes[1], vec![0x92, 'e' as u8]);
    assert_eq!(bus.writes[2], vec![0x92, 'y' as u8]);
    for i in 3..25 {
        assert_eq!(bus.writes[i], vec![0x92, 0x00]);
    }
    // Mem command (code 1), receiver on, power-down off: 0x21, written to
    // the Command register.
    assert_eq!(bus.writes[25], vec![0x82, 0x21]);
    // One poll of the Command register: the read header alone.
    assert_eq!(bus.writes[26], vec![0x02]);
}

#[test]
fn fifo_read_masks_level() {
    // FifoLevel value 0x85: top bit (flush flag position) set plus count 5.
    let mut bus = SimBus::new(vec![0x85, 0xDE, 0xAD, 0xBE, 0xEF, 0x77]);
    let mut answer = [0xAAu8; MAX_DATA_LEN];
    let r = Mfrc522Spi::fifo_read(&mut bus, &mut answer);
    assert_eq!(r, Ok(5));
    assert_eq!(&answer[0..5], &[0xDE, 0xAD, 0xBE, 0xEF, 0x77]);
    // Unwritten trailing bytes keep what the buffer held before the call.
    for i in 5..MAX_DATA_LEN {
        assert_eq!(answer[i], 0xAA);
    }
    // One FifoLevel read, then one FifoData read header per byte.
    assert_eq!(bus.writes.len(), 6);
    assert_eq!(bus.writes[0], vec![0x14]);
    for i in 1..6 {
        assert_eq!(bus.writes[i], vec![0x12]);
    }
}

#[test]
fn execute_mem_read_reports_count() {
    let mut bus = SimBus::new(vec![
        0x00, // Idle on first status poll
        0x03, // FIFO level 3
        0x10, 0x20, 0x30, // FIFO data
    ]);
    let cmd = Parser::parse("mem_read").unwrap();
    let mut answer = [0u8; MAX_DATA_LEN];
    let mut diag = Vec::new();
    let r = cmd.execute(&mut bus, &mut answer, &mut diag, BUDGET);
    assert_eq!(r, Ok(CommandSuccess::BytesRead(3)));
    assert_eq!(&answer[0..3], &[0x10, 0x20, 0x30]);
    // Flush first: FifoLevel written with only the top bit set.
    assert_eq!(bus.writes[0], vec![0x94, 0x80]);
}

#[test]
fn execute_waits_until_idle() {
    // Three busy polls (Mem still running) before Idle.
    let mut bus = SimBus::new(vec![0x21, 0x21, 0x21, 0x00]);
    let cmd = Parser::parse("mem_write:3:Hey").unwrap();
    let mut answer = [0u8; MAX_DATA_LEN];
    let mut diag = Vec::new();
    let r = cmd.execute(&mut bus, &mut answer, &mut diag, BUDGET);
    assert_eq!(r, Ok(CommandSuccess::BytesWritten(25)));
    // 25 data writes + 1 command write + 4 polls.
    assert_eq!(bus.writes.len(), 30);
}

#[test]
fn execute_times_out() {
    // The chip never reports Idle: the poll budget runs out.
    let mut bus = SimBus::new(vec![0x21; 64]);
    let cmd = Parser::parse("mem_write:3:Hey").unwrap();
    let mut answer = [0u8; MAX_DATA_LEN];
    let mut diag = Vec::new();
    let r = cmd.execute(&mut bus, &mut answer, &mut diag, 8);
    assert_eq!(r, Err(CommandExecutionError::ChipTimeout));
}

#[test]
fn execute_surfaces_bus_error() {
    let mut bus = SimBus::failing();
    let cmd = Parser::parse("mem_write:3:Hey").unwrap();
    let mut answer = [0u8; MAX_DATA_LEN];
    let mut diag = Vec::new();
    let r = cmd.execute(&mut bus, &mut answer, &mut diag, BUDGET);
    assert_eq!(r, Err(CommandExecutionError::BusError));
}

#[test]
fn execute_on_absent_handle() {
    let mut handle: Option<SimBus> = None;
    let cmd = Command::new_simple(Cmd::GetVersion);
    let mut answer = [0u8; MAX_DATA_LEN];
    let mut diag = Vec::new();
    let r = cmd.execute_on(&mut handle, &mut answer, &mut diag, BUDGET);
    assert_eq!(r, Err(CommandExecutionError::DeviceNotBound));
}

#[test]
fn execute_on_bound_handle() {
    let mut handle = Some(SimBus::new(vec![0x91]));
    let cmd = Command::new_simple(Cmd::GetVersion);
    let mut answer = [0u8; MAX_DATA_LEN];
    let mut diag = Vec::new();
    let r = cmd.execute_on(&mut handle, &mut answer, &mut diag, BUDGET);
    assert_eq!(r, Ok(CommandSuccess::NoAnswer));
}

#[test]
fn execute_gen_rand_id_logs_hex_dump() {
    let id: Vec<u8> = (0..25).map(|i| (i * 11) as u8).collect();
    let mut reads = vec![
        0x00, // Idle after the zero-fill mem write
        0x00, // Idle after the GenerateRandomId command
        0x00, // Idle after the Mem command of the read-back
        25,   // FIFO level: the whole memory
    ];
    reads.extend_from_slice(&id);
    let mut bus = SimBus::new(reads);
    let cmd = Parser::parse("gen_rand_id").unwrap();
    let mut answer = [0x5Au8; MAX_DATA_LEN];
    let mut diag = Vec::new();
    let r = cmd.execute(&mut bus, &mut answer, &mut diag, BUDGET);

    // The generated bytes go to the diagnostic sink only: the reported
    // result carries no answer and the answer buffer stays untouched.
    assert_eq!(r, Ok(CommandSuccess::NoAnswer));
    assert_eq!(answer, [0x5Au8; MAX_DATA_LEN]);

    let mut expected = String::from("[MFRC522-RS] Generated random ID: ");
    for b in &id {
        expected.push_str(&format!("{:#X}", b));
    }
    expected.push('\n');
    assert_eq!(String::from_utf8(diag).unwrap(), expected);

    // The zero-fill pass clears the chip's memory first.
    for i in 0..25 {
        assert_eq!(bus.writes[i], vec![0x92, 0x00]);
    }
}

#[test]
fn fifo_write_one_transaction_per_byte() {
    let mut bus = SimBus::new(Vec::new());
    let r = Mfrc522Spi::fifo_write(&mut bus, &[1, 2, 3]);
    assert_eq!(r, Ok(()));
    assert_eq!(bus.writes, vec![vec![0x92, 1], vec![0x92, 2], vec![0x92, 3]]);
}

#[test]
fn fifo_level_direct() {
    let mut bus = SimBus::new(vec![0x85]);
    assert_eq!(Mfrc522Spi::fifo_level(&mut bus), Ok(5));
}

#[test]
fn level_mask_and_count_clamp() {
    assert_eq!(level_of_byte(0x85), 5);
    assert_eq!(level_of_byte(0x7F), 0x7F);
    assert_eq!(level_of_byte(0x80), 0);
    assert_eq!(count_of_level(5), 5);
    assert_eq!(count_of_level(25), 25);
    assert_eq!(count_of_level(0x7F), 25);
}

#[test]
fn fifo_flush_signal() {
    let mut bus = SimBus::new(Vec::new());
    assert_eq!(Mfrc522Spi::fifo_flush(&mut bus), Ok(()));
    assert_eq!(bus.writes, vec![vec![0x94, 0x80]]);
}

#[test]
fn fifo_write_surfaces_bus_error() {
    let mut bus = SimBus::failing();
    assert_eq!(Mfrc522Spi::fifo_write(&mut bus, &[1, 2, 3]), Err(SpiError::BusError));
}

#[test]
fn send_command_zero_budget_times_out() {
    let mut bus = SimBus::new(vec![0x00]);
    let r = Mfrc522Spi::send_command(&mut bus, mfrc522::command_byte::Mfrc522Command::Mem, 0);
    assert_eq!(r, Err(SpiError::ChipTimeout));
}
