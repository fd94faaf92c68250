use atca::command::{
    Aes, ClockDivider, Digest, Info, Lock, OpCode, Read, Serial, Sha, Word, Write,
    MODE_SHA256_START,
};
use atca::error::Error;
use atca::memory::{Size, Slot, Zone};
use atca::packet::{compute_crc16, PacketBuilder};

#[test]
fn sha() {
    let buf = vec![0x00u8; 0xff];
    let mut sha = Sha::new(PacketBuilder::new(buf));
    let _packet = sha.start().unwrap();
    let packet = sha.builder.buffer();
    assert_eq!(packet[0x01], 0x07);
    assert_eq!(packet[0x02], OpCode::Sha.value());
    assert_eq!(packet[0x03], MODE_SHA256_START);
    assert_eq!(packet[0x04..0x06], [0x00, 0x00]);
}

#[test]
fn sha_start_frame_checksum() {
    let mut sha = Sha::new(PacketBuilder::new(vec![0u8; 0xff]));
    let packet = sha.start().unwrap();
    assert_eq!(packet.length, 7);
    assert_eq!(packet.opcode, OpCode::Sha);
    let frame = &sha.builder.buffer()[1..8];
    assert_eq!(frame, [0x07, 0x47, 0x00, 0x00, 0x00, 0x2e, 0x85]);
}

#[test]
fn sha_update_payload_bounds() {
    let mut sha = Sha::new(PacketBuilder::new(vec![0u8; 0xff]));
    assert_eq!(Err(Error::InvalidSize), sha.update(&[0u8; 64]));
    assert_eq!(Err(Error::InvalidSize), sha.update(&[0u8; 65]));
    let packet = sha.update(&[0u8; 63]).unwrap();
    assert_eq!(packet.length, 63 + 7);
    let frame = sha.builder.buffer();
    assert_eq!(frame[1], 63 + 7);
    assert_eq!(frame[2], 0x47);
    assert_eq!(frame[3], 0x01);
}

#[test]
fn sha_sequence_reuses_buffer() {
    let mut sha = Sha::new(PacketBuilder::new(vec![0u8; 0xff]));
    sha.start().unwrap();
    sha.update(&[0xabu8; 5]).unwrap();
    assert_eq!(sha.builder.buffer()[1], 12);
    let packet = sha.end().unwrap();
    assert_eq!(packet.length, 7);
    // The payload of the update must not leak into the end frame.
    assert_eq!(sha.builder.buffer()[1], 7);
    assert_eq!(sha.builder.buffer()[3], 0x02);
}

#[test]
fn aes_payload_bounds() {
    let mut aes = Aes::new(PacketBuilder::new(vec![0u8; 0xff]));
    assert_eq!(
        Err(Error::InvalidSize),
        aes.encrypt(Slot::PrivateKey00, &[0u8; 15])
    );
    assert_eq!(
        Err(Error::InvalidSize),
        aes.encrypt(Slot::PrivateKey00, &[0u8; 17])
    );
    assert_eq!(
        Err(Error::InvalidSize),
        aes.decrypt(Slot::PrivateKey00, &[0u8; 15])
    );
    assert_eq!(
        Err(Error::InvalidSize),
        aes.decrypt(Slot::PrivateKey00, &[0u8; 17])
    );
    let packet = aes.encrypt(Slot::PrivateKey00, &[0u8; 16]).unwrap();
    assert_eq!(packet.length, 16 + 7);
    let packet = aes.decrypt(Slot::PrivateKey00, &[0u8; 16]).unwrap();
    assert_eq!(packet.length, 16 + 7);
}

#[test]
fn aes_rejects_non_private_slot() {
    let mut aes = Aes::new(PacketBuilder::new(vec![0u8; 0xff]));
    assert_eq!(
        Err(Error::BadParam),
        aes.encrypt(Slot::Certificate09, &[0u8; 16])
    );
    assert_eq!(
        Err(Error::BadParam),
        aes.decrypt(Slot::Data08, &[0u8; 16])
    );
    // The slot check comes before the size check.
    assert_eq!(
        Err(Error::BadParam),
        aes.encrypt(Slot::Certificate09, &[0u8; 15])
    );
}

#[test]
fn aes_frame_layout() {
    let mut aes = Aes::new(PacketBuilder::new(vec![0u8; 0xff]));
    aes.encrypt(Slot::PrivateKey01, &[0x11u8; 16]).unwrap();
    let frame = aes.builder.buffer();
    assert_eq!(frame[1], 23);
    assert_eq!(frame[2], 0x51);
    assert_eq!(frame[3], 0x00);
    assert_eq!(frame[4..6], [0x01, 0x00]);
    assert_eq!(frame[6..22], [0x11u8; 16]);
    aes.decrypt(Slot::PrivateKey01, &[0x11u8; 16]).unwrap();
    assert_eq!(aes.builder.buffer()[3], 0x01);
}

#[test]
fn info_revision_frame() {
    let mut info = Info::new(PacketBuilder::new(vec![0u8; 0xff]));
    let packet = info.revision().unwrap();
    assert_eq!(packet.opcode, OpCode::Info);
    let frame = &info.builder.buffer()[1..8];
    assert_eq!(frame, [0x07, 0x30, 0x00, 0x00, 0x00, 0x03, 0x5d]);
}

#[test]
fn read_slot_frame() {
    let mut read = Read::new(PacketBuilder::new(vec![0u8; 0xff]));
    let packet = read.slot(Slot::Certificate09, 1).unwrap();
    assert_eq!(packet.opcode, OpCode::Read);
    let frame = read.builder.buffer();
    assert_eq!(frame[2], 0x02);
    assert_eq!(frame[3], 0x82);
    // Address 0x0148: slot 9 in bits 3..=6, block 1 in bits 8 and up.
    assert_eq!(frame[4..6], [0x48, 0x01]);
}

#[test]
fn read_slot_rejects_block_beyond_capacity() {
    let mut read = Read::new(PacketBuilder::new(vec![0u8; 0xff]));
    assert!(matches!(read.slot(Slot::PrivateKey00, 2), Err(Error::OutOfRange)));
    assert!(read.slot(Slot::PrivateKey00, 1).is_ok());
    assert!(matches!(read.slot(Slot::Data08, 13), Err(Error::OutOfRange)));
    assert!(read.slot(Slot::Data08, 12).is_ok());
}

#[test]
fn read_register_validity() {
    let mut read = Read::new(PacketBuilder::new(vec![0u8; 0xff]));
    let packet = read.register(Zone::Config, Size::Word, 2, 5).unwrap();
    assert_eq!(packet.opcode, OpCode::Read);
    let frame = read.builder.buffer();
    assert_eq!(frame[3], 0x00);
    assert_eq!(frame[4..6], [21, 0x00]);
    assert!(matches!(
        read.register(Zone::Config, Size::Word, 4, 0),
        Err(Error::OutOfRange)
    ));
    assert!(matches!(
        read.register(Zone::Otp, Size::Word, 2, 0),
        Err(Error::OutOfRange)
    ));
    assert!(matches!(
        read.register(Zone::Data, Size::Word, 0, 0),
        Err(Error::BadParam)
    ));
    assert!(read.register(Zone::Otp, Size::Block, 1, 7).is_ok());
}

#[test]
fn write_config_frame() {
    let mut write = Write::new(PacketBuilder::new(vec![0u8; 0xff]));
    let packet = write
        .config(Size::Word, 2, 6, &[0xff, 0xff, 0x60, 0x0e])
        .unwrap();
    assert_eq!(packet.opcode, OpCode::Write);
    assert_eq!(packet.length, 11);
    let frame = write.builder.buffer();
    assert_eq!(frame[1], 11);
    assert_eq!(frame[2], 0x12);
    assert_eq!(frame[3], 0x00);
    assert_eq!(frame[4..6], [22, 0x00]);
    assert_eq!(frame[6..10], [0xff, 0xff, 0x60, 0x0e]);
}

#[test]
fn write_config_rejects_bad_inputs() {
    let mut write = Write::new(PacketBuilder::new(vec![0u8; 0xff]));
    assert!(matches!(
        write.config(Size::Word, 4, 0, &[0u8; 4]),
        Err(Error::OutOfRange)
    ));
    assert!(matches!(
        write.config(Size::Word, 0, 5, &[0u8; 3]),
        Err(Error::InvalidSize)
    ));
    assert!(matches!(
        write.config(Size::Block, 3, 0, &[0u8; 4]),
        Err(Error::InvalidSize)
    ));
    assert!(write.config(Size::Block, 3, 0, &[0u8; 16]).is_ok());
}

#[test]
fn lock_zone_frames() {
    let mut lock = Lock::new(PacketBuilder::new(vec![0u8; 0xff]));
    let packet = lock.zone(Zone::Config).unwrap();
    assert_eq!(packet.opcode, OpCode::Lock);
    assert_eq!(lock.builder.buffer()[2], 0x17);
    assert_eq!(lock.builder.buffer()[3], 0x80);
    lock.zone(Zone::Data).unwrap();
    assert_eq!(lock.builder.buffer()[3], 0x81);
    assert_eq!(Err(Error::BadParam), lock.zone(Zone::Otp));
}

#[test]
fn execution_time_table_values() {
    assert_eq!(Some(27), OpCode::Aes.execution_time(ClockDivider::Zero));
    assert_eq!(Some(27), OpCode::Aes.execution_time(ClockDivider::Two));
    assert_eq!(Some(172), OpCode::Ecdh.execution_time(ClockDivider::Zero));
    assert_eq!(Some(75), OpCode::Ecdh.execution_time(ClockDivider::One));
    assert_eq!(Some(531), OpCode::Ecdh.execution_time(ClockDivider::Two));
    assert_eq!(Some(625), OpCode::SelfTest.execution_time(ClockDivider::Zero));
    assert_eq!(Some(2324), OpCode::SelfTest.execution_time(ClockDivider::Two));
    assert_eq!(Some(36), OpCode::Sha.execution_time(ClockDivider::Zero));
    assert_eq!(Some(42), OpCode::Sha.execution_time(ClockDivider::One));
    assert_eq!(Some(5), OpCode::Read.execution_time(ClockDivider::One));
    assert_eq!(Some(45), OpCode::Write.execution_time(ClockDivider::Two));
    assert_eq!(None, OpCode::HMac.execution_time(ClockDivider::Zero));
    assert_eq!(None, OpCode::Pause.execution_time(ClockDivider::Two));
}

#[test]
fn opcode_byte_values() {
    assert_eq!(0x28, OpCode::CheckMac.value());
    assert_eq!(0x30, OpCode::Info.value());
    assert_eq!(0x15, OpCode::GenDig.value());
    assert_eq!(0x17, OpCode::Lock.value());
    assert_eq!(0x02, OpCode::Read.value());
    assert_eq!(0x12, OpCode::Write.value());
    assert_eq!(0x47, OpCode::Sha.value());
    assert_eq!(0x51, OpCode::Aes.value());
    assert_eq!(0x80, OpCode::SecureBoot.value());
    assert_eq!(0x77, OpCode::SelfTest.value());
}

#[test]
fn crc_known_answers() {
    assert_eq!(0x0000, compute_crc16(&[]));
    assert_eq!(0x1ce9, compute_crc16(&[0x61, 0x62, 0x63]));
    assert_eq!(0x852e, compute_crc16(&[0x07, 0x47, 0x00, 0x00, 0x00]));
    assert_eq!(0x5d03, compute_crc16(&[0x07, 0x30, 0x00, 0x00, 0x00]));
}

#[test]
fn word_parse() {
    let word = Word::try_from(&[1, 2, 3, 4][..]).unwrap();
    assert_eq!(word.as_bytes(), &[1, 2, 3, 4]);
    assert_eq!(
        Err(Error::ParseFailure),
        Word::try_from(&[1, 2, 3][..]).map(|w| w.value)
    );
    assert_eq!(
        Err(Error::ParseFailure),
        Word::try_from(&[0u8; 5][..]).map(|w| w.value)
    );
}

#[test]
fn digest_parse() {
    let buf = [0x5au8; 32];
    let digest = Digest::try_from(&buf[..]).unwrap();
    assert_eq!(digest.as_bytes(), &[0x5au8; 32]);
    assert!(Digest::try_from(&buf[..31]).is_err());
}

#[test]
fn serial_parse() {
    let mut buf = [0u8; 32];
    for (i, b) in buf.iter_mut().enumerate() {
        *b = i as u8;
    }
    let serial = Serial::try_from(&buf[..]).unwrap();
    assert_eq!(serial.as_bytes(), &[0, 1, 2, 3, 8, 9, 10, 11, 12]);
    assert!(Serial::try_from(&buf[..12]).is_err());
}
