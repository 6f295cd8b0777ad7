use mfrc522::command::{push_hex_byte, Cmd};
use mfrc522::command_byte::{
    Mfrc522Command, Mfrc522CommandByte, Mfrc522PowerDown, Mfrc522Receiver,
};
use mfrc522::spi::{AddressByte, Mfrc522Register, Mfrc522Version, ReadWrite};

#[test]
fn status_round_trip_all_defined() {
    let commands = [
        Mfrc522Command::Idle,
        Mfrc522Command::Mem,
        Mfrc522Command::GenerateRandomId,
        Mfrc522Command::CalcCrc,
        Mfrc522Command::Transmit,
        Mfrc522Command::NoCmdChange,
        Mfrc522Command::Receive,
        Mfrc522Command::Transceive,
        Mfrc522Command::MfAuthent,
        Mfrc522Command::SoftReset,
    ];
    let powers = [Mfrc522PowerDown::Off, Mfrc522PowerDown::On];
    let receivers = [Mfrc522Receiver::Off, Mfrc522Receiver::On];
    for &cmd in &commands {
        for &power in &powers {
            for &receiver in &receivers {
                let encoded = Mfrc522CommandByte::new(cmd, power, receiver).to_byte();
                let decoded = Mfrc522CommandByte::from_byte(encoded);
                assert_eq!(decoded.cmd, cmd);
                assert_eq!(decoded.power, power);
                assert_eq!(decoded.receiver, receiver);
            }
        }
    }
}

#[test]
fn status_encode_exact() {
    let b = Mfrc522CommandByte::new(
        Mfrc522Command::Mem,
        Mfrc522PowerDown::Off,
        Mfrc522Receiver::On,
    );
    assert_eq!(b.to_byte(), 0x21);

    let b = Mfrc522CommandByte::new(
        Mfrc522Command::SoftReset,
        Mfrc522PowerDown::On,
        Mfrc522Receiver::Off,
    );
    assert_eq!(b.to_byte(), 0x1F);
}

#[test]
fn status_decode_reserved_is_unknown() {
    assert_eq!(Mfrc522CommandByte::from_byte(0x05).cmd, Mfrc522Command::Unknown(5));
    assert_eq!(Mfrc522CommandByte::from_byte(0x06).cmd, Mfrc522Command::Unknown(6));
    assert_eq!(Mfrc522CommandByte::from_byte(0x3D).cmd, Mfrc522Command::Unknown(13));
}

#[test]
fn status_decode_fields() {
    let decoded = Mfrc522CommandByte::from_byte(0x31);
    assert_eq!(decoded.cmd, Mfrc522Command::Mem);
    assert_eq!(decoded.power, Mfrc522PowerDown::On);
    assert_eq!(decoded.receiver, Mfrc522Receiver::On);

    let decoded = Mfrc522CommandByte::from_byte(0x00);
    assert_eq!(decoded.cmd, Mfrc522Command::Idle);
    assert_eq!(decoded.power, Mfrc522PowerDown::Off);
    assert_eq!(decoded.receiver, Mfrc522Receiver::Off);
}

#[test]
fn address_byte_bits() {
    let registers = [
        (Mfrc522Register::Version, 0x37u8),
        (Mfrc522Register::FifoLevel, 0x0A),
        (Mfrc522Register::FifoData, 0x09),
        (Mfrc522Register::Command, 0x01),
    ];
    let modes = [(ReadWrite::Read, 0u8), (ReadWrite::Write, 1u8)];
    for &(reg, code) in &registers {
        for &(mode, bit) in &modes {
            let byte = AddressByte::new(reg, mode).to_byte();
            assert_eq!(byte & 1, 0);
            assert_eq!((byte >> 7) & 1, bit);
            assert_eq!((byte >> 1) & 0x3F, code);
        }
    }
}

#[test]
fn address_byte_exact() {
    assert_eq!(AddressByte::new(Mfrc522Register::FifoData, ReadWrite::Write).to_byte(), 0x92);
    assert_eq!(AddressByte::new(Mfrc522Register::Version, ReadWrite::Read).to_byte(), 0x6E);
    assert_eq!(AddressByte::new(Mfrc522Register::Command, ReadWrite::Write).to_byte(), 0x82);
    assert_eq!(AddressByte::new(Mfrc522Register::FifoLevel, ReadWrite::Write).to_byte(), 0x94);
}

#[test]
fn version_classification() {
    assert_eq!(Mfrc522Version::from_byte(0x91), Mfrc522Version::Version1);
    assert_eq!(Mfrc522Version::from_byte(0x92), Mfrc522Version::Version2);
    assert_eq!(Mfrc522Version::from_byte(0x55), Mfrc522Version::Unknown(0x55));
}

#[test]
fn cmd_from_str_names() {
    assert_eq!(Cmd::from_str("mem_read"), Some(Cmd::MemRead));
    assert_eq!(Cmd::from_str("mem_write"), Some(Cmd::MemWrite));
    assert_eq!(Cmd::from_str("get_version"), Some(Cmd::GetVersion));
    assert_eq!(Cmd::from_str("gen_rand_id"), Some(Cmd::GenRand));
    assert_eq!(Cmd::from_str("mem_writ"), None);
    assert_eq!(Cmd::from_str(""), None);
}

#[test]
fn cmd_has_args() {
    assert!(Cmd::MemWrite.has_args());
    assert!(!Cmd::MemRead.has_args());
    assert!(!Cmd::GetVersion.has_args());
    assert!(!Cmd::GenRand.has_args());
}

#[test]
fn hex_tokens_match_display() {
    // One byte formats as `0x` plus upper-case digits with no zero padding,
    // exactly as the reference diagnostic output had it.
    for b in [0u8, 5, 0x0F, 0x10, 0x4A, 0xA0, 0xFF] {
        let mut out = Vec::new();
        push_hex_byte(&mut out, b);
        assert_eq!(String::from_utf8(out).unwrap(), format!("{:#X}", b));
    }
}
