use atca::error::Error;
use atca::slot_config::{KeyConfig, KeyType, ReadPermission, SlotConfig, WritePermission};
use atca::tngtls::TrustAndGo;

#[test]
fn slot_config_round_trip_over_shipped_table() {
    // Decoding each of the 16 provisioned slot-configuration words and
    // re-encoding it yields the original word.
    for i in 0..16usize {
        let word = TrustAndGo::slot_config_word(i);
        let config = SlotConfig::decode(word).unwrap();
        assert_eq!(word, config.encode());
    }
}

#[test]
fn key_config_round_trip_over_shipped_table() {
    for i in 0..16usize {
        let word = TrustAndGo::key_config_word(i);
        let config = KeyConfig::decode(word).unwrap();
        assert_eq!(word, config.encode());
    }
}

#[test]
fn slot_config_round_trip_sweep() {
    // The round trip holds for every legal word, not only the shipped ones:
    // sweep a spread of bit patterns.
    let mut w: u32 = 0;
    while w <= 0xffff {
        let word = w as u16;
        match SlotConfig::decode(word) {
            Ok(config) => assert_eq!(word, config.encode()),
            Err(e) => {
                assert_eq!(Error::ProtocolViolation, e);
                // Rejected exactly when encrypt-read is set without
                // is-secret.
                assert_eq!(0x40, word & 0xc0);
            }
        }
        w += 7;
    }
}

#[test]
fn key_config_round_trip_sweep() {
    let mut w: u32 = 0;
    while w <= 0xffff {
        let word = w as u16;
        match KeyConfig::decode(word) {
            Ok(config) => assert_eq!(word, config.encode()),
            Err(e) => {
                assert_eq!(Error::ProtocolViolation, e);
                // Rejected exactly when the reserved bit 13 is set.
                assert_eq!(0x2000, word & 0x2000);
            }
        }
        w += 7;
    }
}

#[test]
fn slot_config_field_extraction() {
    // 0x2085: read-key 5, is-secret, write-config 2.
    let config = SlotConfig::decode(0x2085).unwrap();
    assert_eq!(0x05, config.read_key);
    assert!(!config.no_mac);
    assert!(!config.limited_use);
    assert!(!config.encrypt_read);
    assert!(config.is_secret);
    assert_eq!(0x00, config.write_key);
    assert_eq!(0x02, config.write_config);
}

#[test]
fn slot_config_rejects_prohibited_combination() {
    // Bit 6 (encrypt-read) set while bit 7 (is-secret) is clear.
    assert_eq!(
        Err(Error::ProtocolViolation),
        SlotConfig::decode(0x0040).map(|c| c.encode())
    );
    // Both set is legal.
    assert!(SlotConfig::decode(0x00c0).is_ok());
}

#[test]
fn key_config_rejects_reserved_bit() {
    assert_eq!(
        Err(Error::ProtocolViolation),
        KeyConfig::decode(0x2000).map(|c| c.encode())
    );
    assert!(KeyConfig::decode(0x1000).is_ok());
}

#[test]
fn key_config_field_extraction() {
    // 0x0073: private, pub-info, key type 4 (P256), lockable, req-random.
    let key = KeyConfig::decode(0x0073).unwrap();
    assert!(key.private);
    assert!(key.pub_info);
    assert_eq!(KeyType::P256, key.key_type);
    assert!(key.lockable);
    assert!(key.req_random);
    assert!(!key.req_auth);
    assert_eq!(0, key.auth_key);
    assert!(!key.persistent_disable);
    assert_eq!(0, key.x509id);
    // 0x001a: not private, key type 6 (AES).
    let key = KeyConfig::decode(0x001a).unwrap();
    assert!(!key.private);
    assert_eq!(KeyType::Aes, key.key_type);
    // 0x001c: key type 7 (SHA or data).
    let key = KeyConfig::decode(0x001c).unwrap();
    assert_eq!(KeyType::ShaOrData, key.key_type);
    // Key type 0 is reserved and kept as read.
    let key = KeyConfig::decode(0x0000).unwrap();
    assert_eq!(KeyType::Reserved(0), key.key_type);
}

#[test]
fn read_permission_classification() {
    let clear = SlotConfig::decode(0x0000).unwrap();
    assert_eq!(Ok(ReadPermission::ClearText), clear.read_permission());
    let never = SlotConfig::decode(0x0080).unwrap();
    assert_eq!(Ok(ReadPermission::Never), never.read_permission());
    let encrypted = SlotConfig::decode(0x00c0).unwrap();
    assert_eq!(Ok(ReadPermission::Encrypted), encrypted.read_permission());
    // A hand-built prohibited combination still reports the violation.
    let prohibited = SlotConfig { encrypt_read: true, is_secret: false, ..clear };
    assert_eq!(Err(Error::ProtocolViolation), prohibited.read_permission());
}

#[test]
fn write_permission_classification() {
    let of = |word: u16| SlotConfig::decode(word).unwrap().write_permission();
    // Write-config 0 on a non-secret slot: clear text.
    assert_eq!(WritePermission::ClearText, of(0x0000));
    // Write-config 0 on a secret slot: never written in the clear.
    assert_eq!(WritePermission::Never, of(0x0080));
    assert_eq!(WritePermission::PubInvalid, of(0x1000));
    assert_eq!(WritePermission::Never, of(0x2000));
    assert_eq!(WritePermission::Never, of(0x3000));
    assert_eq!(WritePermission::Encrypted, of(0x4000));
    assert_eq!(WritePermission::Encrypted, of(0x7000));
    assert_eq!(WritePermission::Never, of(0x8000));
    assert_eq!(WritePermission::Never, of(0xb000));
    assert_eq!(WritePermission::Encrypted, of(0xc000));
    assert_eq!(WritePermission::Encrypted, of(0xf000));
}
