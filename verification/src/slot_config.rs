//! The per-slot permission words.
//!
//! Two 16-bit words govern each of the 16 key slots: the slot configuration
//! word, which controls reading and writing, and the key configuration word,
//! which describes what the slot holds and how it may be used. Both are
//! decoded into explicit field structures — each accessor documents its bit
//! range — and an illegal combination is rejected with a protocol violation
//! rather than silently masked.
//!
//! Slot configuration layout: read-key in bits 0..=3, no-mac in bit 4,
//! limited-use in bit 5, encrypt-read in bit 6, is-secret in bit 7,
//! write-key in bits 8..=11 and write-config in bits 12..=15. If
//! encrypt-read is set, is-secret must be set too.
//!
//! Key configuration layout: private in bit 0, pub-info in bit 1, key-type
//! in bits 2..=4, lockable in bit 5, req-random in bit 6, req-auth in bit 7,
//! auth-key in bits 8..=11, persistent-disable in bit 12 and x509id in bits
//! 14..=15. Bit 13 is reserved and must read zero.

use vstd::prelude::*;

use crate::error::Error;

verus! {

/// How the contents of a slot may be read back.
#[derive(Clone, Copy, Debug, PartialEq, Eq, Structural)]
pub enum ReadPermission {
    /// Clear text reads may be permitted.
    ClearText,
    /// The contents are secret and never leave the device in the clear.
    Never,
    /// Reads are encrypted under the slot's read key.
    Encrypted,
}

/// How the contents of a slot may be modified.
#[derive(Clone, Copy, Debug, PartialEq, Eq, Structural)]
pub enum WritePermission {
    /// Clear text writes are accepted.
    ClearText,
    /// Writes only to invalidate a validated public key.
    PubInvalid,
    /// The slot is never written by the Write command.
    Never,
    /// Writes are encrypted under the slot's write key.
    Encrypted,
}

/// What a slot holds, from the 3-bit key-type field.
#[derive(Clone, Copy, Debug, PartialEq, Eq, Structural)]
pub enum KeyType {
    /// A P256 NIST ECC key (code 4).
    P256,
    /// An AES-128 key (code 6).
    Aes,
    /// A SHA key or plain data (code 7).
    ShaOrData,
    /// A code reserved for future use, kept as read.
    Reserved(u8),
}

impl KeyType {
    /// The 3-bit code of this key type.
    pub open spec fn spec_bits(self) -> u8 {
        match self {
            KeyType::P256 => 4,
            KeyType::Aes => 6,
            KeyType::ShaOrData => 7,
            KeyType::Reserved(b) => b,
        }
    }

    /// The key type a 3-bit code names.
    pub open spec fn spec_of_bits(bits: u8) -> KeyType {
        if bits == 4 {
            KeyType::P256
        } else if bits == 6 {
            KeyType::Aes
        } else if bits == 7 {
            KeyType::ShaOrData
        } else {
            KeyType::Reserved(bits)
        }
    }

    /// A key type that can come out of a decode: a reserved code stays
    /// inside the 3-bit range and never shadows a named type.
    pub open spec fn wf(self) -> bool {
        match self {
            KeyType::Reserved(b) => b < 8 && b != 4 && b != 6 && b != 7,
            _ => true,
        }
    }

    pub fn bits(&self) -> (r: u8)
        ensures
            r == self.spec_bits(),
    {
        match self {
            KeyType::P256 => 4,
            KeyType::Aes => 6,
            KeyType::ShaOrData => 7,
            KeyType::Reserved(b) => *b,
        }
    }

    pub fn of_bits(bits: u8) -> (r: KeyType)
        ensures
            r == KeyType::spec_of_bits(bits),
    {
        if bits == 4 {
            KeyType::P256
        } else if bits == 6 {
            KeyType::Aes
        } else if bits == 7 {
            KeyType::ShaOrData
        } else {
            KeyType::Reserved(bits)
        }
    }
}

/// Codes round-trip through the key-type names.
pub proof fn lemma_key_type_bits_round_trip(bits: u8)
    requires
        bits < 8,
    ensures
        KeyType::spec_of_bits(bits).spec_bits() == bits,
        KeyType::spec_of_bits(bits).wf(),
{
}

/// The decoded slot configuration word of one slot.
#[derive(Clone, Copy, Debug, PartialEq, Eq, Structural)]
pub struct SlotConfig {
    /// Bits 0..=3: the key that governs encrypted reads, or, for a
    /// private-key slot, the signing and ECDH capability bits.
    pub read_key: u8,
    /// Bit 4: the key is for verification only and the MAC command may not
    /// use it.
    pub no_mac: bool,
    /// Bit 5: use of the key is metered by the monotonic counter.
    pub limited_use: bool,
    /// Bit 6: reads are encrypted under the read key. Requires is-secret.
    pub encrypt_read: bool,
    /// Bit 7: the contents are secret; clear-text and 4-byte accesses are
    /// prohibited.
    pub is_secret: bool,
    /// Bits 8..=11: the key that validates and encrypts data written here.
    pub write_key: u8,
    /// Bits 12..=15: how the slot's data may be modified.
    pub write_config: u8,
}

/// A slot configuration word is legal when encrypt-read implies is-secret;
/// the reverse combination is marked prohibited by the device specification.
pub open spec fn spec_slot_config_valid(w: u16) -> bool {
    ((w >> 6) & 1) == 1 ==> ((w >> 7) & 1) == 1
}

/// The fields a slot configuration word decodes to.
pub open spec fn spec_decode_slot_config(w: u16) -> SlotConfig {
    SlotConfig {
        read_key: (w & 0xf) as u8,
        no_mac: ((w >> 4) & 1) == 1,
        limited_use: ((w >> 5) & 1) == 1,
        encrypt_read: ((w >> 6) & 1) == 1,
        is_secret: ((w >> 7) & 1) == 1,
        write_key: ((w >> 8) & 0xf) as u8,
        write_config: ((w >> 12) & 0xf) as u8,
    }
}

/// The word a decoded slot configuration encodes back to.
pub open spec fn spec_encode_slot_config(c: SlotConfig) -> u16 {
    (c.read_key as u16) | ((if c.no_mac {
        1u16
    } else {
        0u16
    }) << 4) | ((if c.limited_use {
        1u16
    } else {
        0u16
    }) << 5) | ((if c.encrypt_read {
        1u16
    } else {
        0u16
    }) << 6) | ((if c.is_secret {
        1u16
    } else {
        0u16
    }) << 7) | ((c.write_key as u16) << 8) | ((c.write_config as u16) << 12)
}

impl SlotConfig {
    /// The field ranges a decode establishes, with the legality invariant.
    pub open spec fn wf(self) -> bool {
        &&& self.read_key < 16
        &&& self.write_key < 16
        &&& self.write_config < 16
        &&& (self.encrypt_read ==> self.is_secret)
    }

    /// Decode one slot configuration word. The prohibited combination —
    /// encrypt-read set while is-secret is clear — is a configuration error
    /// and is rejected, never masked.
    pub fn decode(word: u16) -> (r: Result<SlotConfig, Error>)
        ensures
            r is Ok <==> spec_slot_config_valid(word),
            r is Ok ==> r->Ok_0 == spec_decode_slot_config(word) && r->Ok_0.wf(),
            r is Err ==> r == Err::<SlotConfig, Error>(Error::ProtocolViolation),
    {
        let encrypt_read = ((word >> 6) & 1) == 1;
        let is_secret = ((word >> 7) & 1) == 1;
        if encrypt_read && !is_secret {
            return Err(Error::ProtocolViolation);
        }
        proof {
            assert(word & 0xf < 16 && (word >> 8) & 0xf < 16 && (word >> 12) & 0xf < 16)
                by (bit_vector);
        }
        Ok(
            SlotConfig {
                read_key: (word & 0xf) as u8,
                no_mac: ((word >> 4) & 1) == 1,
                limited_use: ((word >> 5) & 1) == 1,
                encrypt_read,
                is_secret,
                write_key: ((word >> 8) & 0xf) as u8,
                write_config: ((word >> 12) & 0xf) as u8,
            },
        )
    }

    /// Encode the fields back into a slot configuration word.
    pub fn encode(&self) -> (r: u16)
        ensures
            r == spec_encode_slot_config(*self),
    {
        (self.read_key as u16) | ((if self.no_mac {
            1u16
        } else {
            0u16
        }) << 4) | ((if self.limited_use {
            1u16
        } else {
            0u16
        }) << 5) | ((if self.encrypt_read {
            1u16
        } else {
            0u16
        }) << 6) | ((if self.is_secret {
            1u16
        } else {
            0u16
        }) << 7) | ((self.write_key as u16) << 8) | ((self.write_config as u16) << 12)
    }

    /// How the slot's contents may be read, from (is-secret, encrypt-read).
    /// The prohibited combination reports a protocol violation.
    pub open spec fn spec_read_permission(self) -> Result<ReadPermission, Error> {
        if self.encrypt_read && !self.is_secret {
            Err(Error::ProtocolViolation)
        } else if !self.is_secret {
            Ok(ReadPermission::ClearText)
        } else if !self.encrypt_read {
            Ok(ReadPermission::Never)
        } else {
            Ok(ReadPermission::Encrypted)
        }
    }

    pub fn read_permission(&self) -> (r: Result<ReadPermission, Error>)
        ensures
            r == self.spec_read_permission(),
    {
        if self.encrypt_read && !self.is_secret {
            Err(Error::ProtocolViolation)
        } else if !self.is_secret {
            Ok(ReadPermission::ClearText)
        } else if !self.encrypt_read {
            Ok(ReadPermission::Never)
        } else {
            Ok(ReadPermission::Encrypted)
        }
    }

    /// How the slot's data may be modified, derived from the full
    /// (is-secret, encrypt-read, write-config) triple. A write-config of
    /// zero normally means clear-text writes, but a slot whose contents are
    /// secret is never written in the clear by this driver, whatever its
    /// write-config field says. A write-config beyond the 4-bit range is
    /// treated as never writable.
    pub open spec fn spec_write_permission(self) -> WritePermission {
        if self.write_config == 0x00 {
            if self.is_secret || self.encrypt_read {
                WritePermission::Never
            } else {
                WritePermission::ClearText
            }
        } else if self.write_config == 0x01 {
            WritePermission::PubInvalid
        } else if (self.write_config >> 1) == 0x01 {
            WritePermission::Never
        } else if (self.write_config >> 2) == 0x02 {
            WritePermission::Never
        } else if ((self.write_config >> 2) & 1) == 1 {
            WritePermission::Encrypted
        } else {
            WritePermission::Never
        }
    }

    pub fn write_permission(&self) -> (r: WritePermission)
        ensures
            r == self.spec_write_permission(),
    {
        if self.write_config == 0x00 {
            if self.is_secret || self.encrypt_read {
                WritePermission::Never
            } else {
                WritePermission::ClearText
            }
        } else if self.write_config == 0x01 {
            WritePermission::PubInvalid
        } else if (self.write_config >> 1) == 0x01 {
            WritePermission::Never
        } else if (self.write_config >> 2) == 0x02 {
            WritePermission::Never
        } else if ((self.write_config >> 2) & 1) == 1 {
            WritePermission::Encrypted
        } else {
            WritePermission::Never
        }
    }
}

/// Decoding a legal slot configuration word and re-encoding it yields the
/// original word, for every one of the 16 slots and indeed for every legal
/// word.
pub proof fn lemma_slot_config_round_trip(w: u16)
    requires
        spec_slot_config_valid(w),
    ensures
        spec_encode_slot_config(spec_decode_slot_config(w)) == w,
{
    assert((((w & 0xf) as u8) as u16) | ((if ((w >> 4) & 1) == 1 {
        1u16
    } else {
        0u16
    }) << 4) | ((if ((w >> 5) & 1) == 1 {
        1u16
    } else {
        0u16
    }) << 5) | ((if ((w >> 6) & 1) == 1 {
        1u16
    } else {
        0u16
    }) << 6) | ((if ((w >> 7) & 1) == 1 {
        1u16
    } else {
        0u16
    }) << 7) | ((((w >> 8) & 0xf) as u8) as u16) << 8 | ((((w >> 12) & 0xf) as u8) as u16) << 12
        == w) by (bit_vector);
}

/// The decoded key configuration word of one slot.
#[derive(Clone, Copy, Debug, PartialEq, Eq, Structural)]
pub struct KeyConfig {
    /// Bit 0: the slot holds an ECC private key, reachable only through the
    /// Sign, GenKey and PrivWrite commands.
    pub private: bool,
    /// Bit 1: for a private key, its public half can be generated; for a
    /// public key, it must be validated before Verify uses it.
    pub pub_info: bool,
    /// Bits 2..=4: what the slot holds.
    pub key_type: KeyType,
    /// Bit 5: the slot can be individually locked.
    pub lockable: bool,
    /// Bit 6: a random nonce is required before use.
    pub req_random: bool,
    /// Bit 7: a prior authorization against the auth key is required.
    pub req_auth: bool,
    /// Bits 8..=11: the key that performs that authorization; meaningful
    /// when req-auth is set.
    pub auth_key: u8,
    /// Bit 12: use is gated on the persistent latch.
    pub persistent_disable: bool,
    /// Bits 14..=15: which certificate template the slot belongs to.
    pub x509id: u8,
}

/// A key configuration word is legal when its reserved bit 13 reads zero.
pub open spec fn spec_key_config_valid(w: u16) -> bool {
    ((w >> 13) & 1) == 0
}

/// The fields a key configuration word decodes to.
pub open spec fn spec_decode_key_config(w: u16) -> KeyConfig {
    KeyConfig {
        private: (w & 1) == 1,
        pub_info: ((w >> 1) & 1) == 1,
        key_type: KeyType::spec_of_bits(((w >> 2) & 7) as u8),
        lockable: ((w >> 5) & 1) == 1,
        req_random: ((w >> 6) & 1) == 1,
        req_auth: ((w >> 7) & 1) == 1,
        auth_key: ((w >> 8) & 0xf) as u8,
        persistent_disable: ((w >> 12) & 1) == 1,
        x509id: ((w >> 14) & 3) as u8,
    }
}

/// The word a decoded key configuration encodes back to.
pub open spec fn spec_encode_key_config(c: KeyConfig) -> u16 {
    (if c.private {
        1u16
    } else {
        0u16
    }) | ((if c.pub_info {
        1u16
    } else {
        0u16
    }) << 1) | ((c.key_type.spec_bits() as u16) << 2) | ((if c.lockable {
        1u16
    } else {
        0u16
    }) << 5) | ((if c.req_random {
        1u16
    } else {
        0u16
    }) << 6) | ((if c.req_auth {
        1u16
    } else {
        0u16
    }) << 7) | ((c.auth_key as u16) << 8) | ((if c.persistent_disable {
        1u16
    } else {
        0u16
    }) << 12) | ((c.x509id as u16) << 14)
}

impl KeyConfig {
    /// The field ranges a decode establishes.
    pub open spec fn wf(self) -> bool {
        &&& self.key_type.wf()
        &&& self.auth_key < 16
        &&& self.x509id < 4
    }

    /// Decode one key configuration word. A word with the reserved bit 13
    /// set does not come from this device's specification and is rejected.
    pub fn decode(word: u16) -> (r: Result<KeyConfig, Error>)
        ensures
            r is Ok <==> spec_key_config_valid(word),
            r is Ok ==> r->Ok_0 == spec_decode_key_config(word) && r->Ok_0.wf(),
            r is Err ==> r == Err::<KeyConfig, Error>(Error::ProtocolViolation),
    {
        if ((word >> 13) & 1) != 0 {
            return Err(Error::ProtocolViolation);
        }
        proof {
            assert((word >> 2) & 7 < 8 && (word >> 8) & 0xf < 16 && (word >> 14) & 3 < 4)
                by (bit_vector);
            lemma_key_type_bits_round_trip((((word >> 2) & 7) as u8));
        }
        Ok(
            KeyConfig {
                private: (word & 1) == 1,
                pub_info: ((word >> 1) & 1) == 1,
                key_type: KeyType::of_bits(((word >> 2) & 7) as u8),
                lockable: ((word >> 5) & 1) == 1,
                req_random: ((word >> 6) & 1) == 1,
                req_auth: ((word >> 7) & 1) == 1,
                auth_key: ((word >> 8) & 0xf) as u8,
                persistent_disable: ((word >> 12) & 1) == 1,
                x509id: ((word >> 14) & 3) as u8,
            },
        )
    }

    /// Encode the fields back into a key configuration word.
    pub fn encode(&self) -> (r: u16)
        ensures
            r == spec_encode_key_config(*self),
    {
        (if self.private {
            1u16
        } else {
            0u16
        }) | ((if self.pub_info {
            1u16
        } else {
            0u16
        }) << 1) | ((self.key_type.bits() as u16) << 2) | ((if self.lockable {
            1u16
        } else {
            0u16
        }) << 5) | ((if self.req_random {
            1u16
        } else {
            0u16
        }) << 6) | ((if self.req_auth {
            1u16
        } else {
            0u16
        }) << 7) | ((self.auth_key as u16) << 8) | ((if self.persistent_disable {
            1u16
        } else {
            0u16
        }) << 12) | ((self.x509id as u16) << 14)
    }
}

/// Decoding a legal key configuration word and re-encoding it yields the
/// original word, for every one of the 16 slots and indeed for every legal
/// word.
pub proof fn lemma_key_config_round_trip(w: u16)
    requires
        spec_key_config_valid(w),
    ensures
        spec_encode_key_config(spec_decode_key_config(w)) == w,
{
    assert((w >> 2) & 7 < 8) by (bit_vector);
    lemma_key_type_bits_round_trip((((w >> 2) & 7) as u8));
    let ktb = spec_decode_key_config(w).key_type.spec_bits();
    assert(ktb == ((w >> 2) & 7) as u8);
    assert((if (w & 1) == 1 {
        1u16
    } else {
        0u16
    }) | ((if ((w >> 1) & 1) == 1 {
        1u16
    } else {
        0u16
    }) << 1) | (((((w >> 2) & 7) as u8) as u16) << 2) | ((if ((w >> 5) & 1) == 1 {
        1u16
    } else {
        0u16
    }) << 5) | ((if ((w >> 6) & 1) == 1 {
        1u16
    } else {
        0u16
    }) << 6) | ((if ((w >> 7) & 1) == 1 {
        1u16
    } else {
        0u16
    }) << 7) | ((((w >> 8) & 0xf) as u8) as u16) << 8 | ((if ((w >> 12) & 1) == 1 {
        1u16
    } else {
        0u16
    }) << 12) | ((((w >> 14) & 3) as u8) as u16) << 14 == w)
        by (bit_vector)
        requires
            ((w >> 13) & 1) == 0,
    ;
}

} // verus!
