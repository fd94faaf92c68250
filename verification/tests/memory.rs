use atca::error::Error;
use atca::memory::{Size, Slot, Zone};

#[test]
fn size_lengths() {
    assert_eq!(4, Size::Word.len());
    assert_eq!(16, Size::Block.len());
}

#[test]
fn zone_mode_encoding() {
    assert_eq!(0x00, Zone::Config.encode(Size::Word));
    assert_eq!(0x80, Zone::Config.encode(Size::Block));
    assert_eq!(0x01, Zone::Otp.encode(Size::Word));
    assert_eq!(0x81, Zone::Otp.encode(Size::Block));
    assert_eq!(0x02, Zone::Data.encode(Size::Word));
    assert_eq!(0x82, Zone::Data.encode(Size::Block));
}

#[test]
fn register_addresses() {
    assert_eq!(Ok(0), Zone::Config.get_addr(0, 0));
    assert_eq!(Ok(21), Zone::Config.get_addr(2, 5));
    assert_eq!(Ok(31), Zone::Config.get_addr(3, 7));
    assert_eq!(Err(Error::OutOfRange), Zone::Config.get_addr(4, 0));
    assert_eq!(Err(Error::OutOfRange), Zone::Config.get_addr(0, 8));
    assert_eq!(Ok(15), Zone::Otp.get_addr(1, 7));
    assert_eq!(Err(Error::OutOfRange), Zone::Otp.get_addr(2, 0));
    assert_eq!(Err(Error::BadParam), Zone::Data.get_addr(0, 0));
}

#[test]
fn slot_addresses() {
    assert_eq!(Ok(0x0000), Zone::Data.get_slot_addr(Slot::PrivateKey00, 0));
    assert_eq!(Ok(0x0148), Zone::Data.get_slot_addr(Slot::Certificate09, 1));
    assert_eq!(Ok(0x0c40), Zone::Data.get_slot_addr(Slot::Data08, 12));
    assert_eq!(
        Err(Error::OutOfRange),
        Zone::Data.get_slot_addr(Slot::PrivateKey07, 2)
    );
    assert_eq!(
        Err(Error::OutOfRange),
        Zone::Data.get_slot_addr(Slot::Certificate0a, 3)
    );
    assert_eq!(
        Err(Error::BadParam),
        Zone::Config.get_slot_addr(Slot::PrivateKey00, 0)
    );
}

#[test]
fn slot_numbering() {
    assert_eq!(0x00, Slot::PrivateKey00.number());
    assert_eq!(0x09, Slot::Certificate09.number());
    assert_eq!(0x0f, Slot::Data0f.number());
    assert!(Slot::PrivateKey07.is_private_key());
    assert!(!Slot::Data08.is_private_key());
    assert!(!Slot::Certificate09.is_private_key());
}

#[test]
fn locate_index_of_table_anchors() {
    // The three documented table anchors of the Config zone.
    assert_eq!((0, 5, Zone::Config), Zone::locate_index(20));
    assert_eq!((2, 6, Zone::Config), Zone::locate_index(88));
    assert_eq!((3, 0, Zone::Config), Zone::locate_index(96));
    assert_eq!((3, 4, Zone::Config), Zone::locate_index(112));
}

#[test]
fn locate_index_inverts_table_addresses() {
    // Over both documented table ranges, locate_index recovers exactly the
    // (block, offset) pair whose flat index the address function assigns.
    let mut index = 20;
    while index <= 51 {
        let (block, offset, zone) = Zone::locate_index(index);
        assert_eq!(Zone::Config, zone);
        assert_eq!(index, 32 * block as usize + 4 * offset as usize);
        index += 4;
    }
    let mut index = 96;
    while index <= 127 {
        let (block, offset, zone) = Zone::locate_index(index);
        assert_eq!(Zone::Config, zone);
        assert_eq!(index, 32 * block as usize + 4 * offset as usize);
        index += 4;
    }
}
