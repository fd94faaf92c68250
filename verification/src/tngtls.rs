//! The one-shot provisioning lifecycle for a pre-configured key store:
//! a fully specified configuration zone, a permanent primary P-256 private
//! key, an internal sign key, three regenerable secondary keys, an I/O
//! protection key, an AES key slot and compressed-certificate storage.
//!
//! The device's two zones each carry a lock flag that, once set, is never
//! cleared: provisioning writes the slot-configuration table, the
//! chip-options word and the key-configuration table, in that order, and
//! then locks the Config zone. Locking the Data zone afterwards is a policy
//! choice, not a protocol requirement.
//!
//! The decisions live here; the bus does not. `provision` turns the lock
//! state into the exact ordered sequence of write and lock operations the
//! device needs, queued as [`Action`] values for the transport collaborator
//! to carry out. Against a zone that already reports locked, the write path
//! fails locally and the provisioning sequence queues no write at all, so a
//! re-run against a sealed device is a no-op that touches no bus.

use vstd::prelude::*;

use crate::error::Error;
use crate::memory::{Size, Slot, Zone};
use crate::slot_config::{
    lemma_key_config_round_trip, lemma_slot_config_round_trip, spec_decode_key_config,
    spec_decode_slot_config, spec_encode_key_config, spec_encode_slot_config,
    spec_key_config_valid, spec_slot_config_valid,
};

verus! {

/// The slot that holds the permanent primary private key.
pub const AUTH_PRIVATE_KEY: Slot = Slot::PrivateKey00;

/// The slot that holds the internal sign private key.
pub const SIGN_PRIVATE_KEY: Slot = Slot::PrivateKey01;

/// The first regenerable secondary private key.
pub const USER_PRIVATE_KEY1: Slot = Slot::PrivateKey02;

/// The second regenerable secondary private key.
pub const USER_PRIVATE_KEY2: Slot = Slot::PrivateKey03;

/// The third regenerable secondary private key.
pub const USER_PRIVATE_KEY3: Slot = Slot::PrivateKey04;

/// The I/O protection key.
pub const IO_PROTECTION_KEY: Slot = Slot::PrivateKey06;

/// The AES key slot.
pub const AES_KEY: Slot = Slot::Certificate09;

/// The device compressed certificate.
pub const DEVICE_CERTIFICATE: Slot = Slot::Certificate0a;

/// The signer public key.
pub const SIGNER_PUBLIC_KEY: Slot = Slot::Certificate0b;

/// The signer compressed certificate.
pub const SIGNER_CERTIFICATE: Slot = Slot::Certificate0c;

/// The flat Config-zone byte index of the slot-configuration table
/// (32 bytes: block 0, word offset 5).
pub const SLOT_CONFIG_INDEX: usize = 20;

/// The flat Config-zone byte index of the chip-options word
/// (block 2, word offset 6).
pub const CHIP_OPTIONS_INDEX: usize = 88;

/// The flat Config-zone byte index of the key-configuration table
/// (32 bytes: block 3, word offset 0).
pub const KEY_CONFIG_INDEX: usize = 96;

/// The provisioned slot-configuration word of each of the 16 slots.
pub open spec fn spec_slot_config_word(i: int) -> u16 {
    if i == 0 {
        0x0085
    } else if i == 1 {
        0x0082
    } else if i == 2 {
        0x2085
    } else if i == 3 {
        0x2085
    } else if i == 4 {
        0x2085
    } else if i == 5 {
        0x8f8f
    } else if i == 6 {
        0x0f8f
    } else if i == 7 {
        0x8faf
    } else if i == 8 {
        0x0f0f
    } else if i == 9 {
        0x0f8f
    } else if i == 10 {
        0x8f0f
    } else if i == 11 {
        0x8f0f
    } else if i == 12 {
        0x8f0f
    } else if i == 13 {
        0x0000
    } else if i == 14 {
        0x0000
    } else {
        0x8faf
    }
}

/// The provisioned key-configuration word of each of the 16 slots.
pub open spec fn spec_key_config_word(i: int) -> u16 {
    if i == 0 {
        0x0053
    } else if i == 1 {
        0x0053
    } else if i == 2 {
        0x0073
    } else if i == 3 {
        0x0073
    } else if i == 4 {
        0x0073
    } else if i == 5 {
        0x001c
    } else if i == 6 {
        0x007c
    } else if i == 7 {
        0x003c
    } else if i == 8 {
        0x003c
    } else if i == 9 {
        0x001a
    } else if i == 10 {
        0x001c
    } else if i == 11 {
        0x0010
    } else if i == 12 {
        0x001c
    } else if i == 13 {
        0x003c
    } else if i == 14 {
        0x003c
    } else {
        0x001c
    }
}

/// The low byte of a 16-bit word.
pub open spec fn lo_byte(w: u16) -> u8 {
    (w & 0xff) as u8
}

/// The high byte of a 16-bit word.
pub open spec fn hi_byte(w: u16) -> u8 {
    (w >> 8) as u8
}

/// The slot-configuration table as it lies in the Config zone: the 16 words
/// little-endian, 32 bytes.
pub open spec fn spec_slot_config_data() -> Seq<u8> {
    Seq::new(
        32,
        |j: int|
            if j % 2 == 0 {
                lo_byte(spec_slot_config_word(j / 2))
            } else {
                hi_byte(spec_slot_config_word(j / 2))
            },
    )
}

/// The key-configuration table as it lies in the Config zone: the 16 words
/// little-endian, 32 bytes.
pub open spec fn spec_key_config_data() -> Seq<u8> {
    Seq::new(
        32,
        |j: int|
            if j % 2 == 0 {
                lo_byte(spec_key_config_word(j / 2))
            } else {
                hi_byte(spec_key_config_word(j / 2))
            },
    )
}

/// The provisioned chip-options word, 4 bytes.
pub open spec fn spec_chip_options_data() -> Seq<u8> {
    seq![0xffu8, 0xffu8, 0x60u8, 0x0eu8]
}

/// One operation the provisioning sequence asks the transport collaborator
/// to carry out, in queue order.
pub enum Action {
    /// Write `data` to the Config zone at (block, offset), as a transfer of
    /// the given size.
    WriteConfig { size: Size, block: u8, offset: u8, data: Vec<u8> },
    /// Permanently lock a zone.
    LockZone { zone: Zone },
}

/// Whether an action is a Config-zone write of exactly these bytes at this
/// address.
pub open spec fn is_config_write(a: Action, size: Size, block: u8, offset: u8, bytes: Seq<u8>) -> bool {
    match a {
        Action::WriteConfig { size: s, block: b, offset: o, data } => {
            &&& s == size
            &&& b == block
            &&& o == offset
            &&& data@ == bytes
        },
        Action::LockZone { .. } => false,
    }
}

/// Whether an action writes anything.
pub open spec fn is_write(a: Action) -> bool {
    a is WriteConfig
}

/// Whether an action locks this zone.
pub open spec fn is_lock(a: Action, zone: Zone) -> bool {
    match a {
        Action::LockZone { zone: z } => z == zone,
        Action::WriteConfig { .. } => false,
    }
}

/// The 11 Config-zone writes of a full provisioning pass, starting at
/// position `at` of the queue: the 8 slot-configuration words, the
/// chip-options word, and the key-configuration table in two block
/// transfers, each at the address the addressing model assigns its flat
/// index.
pub open spec fn spec_config_writes(s: Seq<Action>, at: int) -> bool {
    &&& forall|i: int|
        0 <= i < 8 ==> is_config_write(
            #[trigger] s[at + i],
            Size::Word,
            Zone::spec_locate_block(20 + 4 * i) as u8,
            Zone::spec_locate_offset(20 + 4 * i) as u8,
            spec_slot_config_data().subrange(4 * i, 4 * i + 4),
        )
    &&& is_config_write(
        s[at + 8],
        Size::Word,
        Zone::spec_locate_block(88) as u8,
        Zone::spec_locate_offset(88) as u8,
        spec_chip_options_data(),
    )
    &&& is_config_write(
        s[at + 9],
        Size::Block,
        Zone::spec_locate_block(96) as u8,
        Zone::spec_locate_offset(96) as u8,
        spec_key_config_data().subrange(0, 16),
    )
    &&& is_config_write(
        s[at + 10],
        Size::Block,
        Zone::spec_locate_block(112) as u8,
        Zone::spec_locate_offset(112) as u8,
        spec_key_config_data().subrange(16, 32),
    )
}

/// The provisioning state machine over the two zone lock flags. The flags
/// move from unlocked to locked only, driven by this software alone; no
/// operation clears one. Write and lock operations are not transmitted here:
/// they are queued on `pending`, in order, for the transport collaborator.
pub struct TrustAndGo {
    /// Whether the Config zone is locked, or will be once the queue is
    /// carried out.
    pub config_locked: bool,
    /// The same for the Data zone.
    pub data_locked: bool,
    /// The deployment's policy choice: lock the Data zone too.
    pub lock_data_policy: bool,
    /// The operations queued for the transport, oldest first.
    pub pending: Vec<Action>,
}

impl TrustAndGo {
    /// Start from the lock state the device reports and the deployment's
    /// Data-zone policy, with nothing queued.
    pub fn new(config_locked: bool, data_locked: bool, lock_data_policy: bool) -> (r: Self)
        ensures
            r.config_locked == config_locked,
            r.data_locked == data_locked,
            r.lock_data_policy == lock_data_policy,
            r.pending@ == Seq::<Action>::empty(),
    {
        TrustAndGo { config_locked, data_locked, lock_data_policy, pending: Vec::new() }
    }

    /// The provisioned slot-configuration word of slot `i`.
    pub fn slot_config_word(i: usize) -> (r: u16)
        requires
            i < 16,
        ensures
            r == spec_slot_config_word(i as int),
    {
        if i == 0 {
            0x0085
        } else if i == 1 {
            0x0082
        } else if i == 2 {
            0x2085
        } else if i == 3 {
            0x2085
        } else if i == 4 {
            0x2085
        } else if i == 5 {
            0x8f8f
        } else if i == 6 {
            0x0f8f
        } else if i == 7 {
            0x8faf
        } else if i == 8 {
            0x0f0f
        } else if i == 9 {
            0x0f8f
        } else if i == 10 {
            0x8f0f
        } else if i == 11 {
            0x8f0f
        } else if i == 12 {
            0x8f0f
        } else if i == 13 {
            0x0000
        } else if i == 14 {
            0x0000
        } else {
            0x8faf
        }
    }

    /// The provisioned key-configuration word of slot `i`.
    pub fn key_config_word(i: usize) -> (r: u16)
        requires
            i < 16,
        ensures
            r == spec_key_config_word(i as int),
    {
        if i == 0 {
            0x0053
        } else if i == 1 {
            0x0053
        } else if i == 2 {
            0x0073
        } else if i == 3 {
            0x0073
        } else if i == 4 {
            0x0073
        } else if i == 5 {
            0x001c
        } else if i == 6 {
            0x007c
        } else if i == 7 {
            0x003c
        } else if i == 8 {
            0x003c
        } else if i == 9 {
            0x001a
        } else if i == 10 {
            0x001c
        } else if i == 11 {
            0x0010
        } else if i == 12 {
            0x001c
        } else if i == 13 {
            0x003c
        } else if i == 14 {
            0x003c
        } else {
            0x001c
        }
    }

    /// The slot-configuration table, 16 words little-endian.
    pub fn tng_tls_slot_config_data() -> (r: Vec<u8>)
        ensures
            r@ == spec_slot_config_data(),
    {
        let mut v: Vec<u8> = Vec::new();
        let mut t: usize = 0;
        while t < 16
            invariant
                t <= 16,
                v@.len() == 2 * t,
                forall|j: int| 0 <= j < 2 * t ==> v@[j] == spec_slot_config_data()[j],
            decreases 16 - t,
        {
            let w = Self::slot_config_word(t);
            proof {
                assert(w >> 8 < 256) by (bit_vector);
                assert((2 * t) % 2 == 0 && (2 * t) / 2 == t as int && (2 * t + 1) % 2 == 1 && (2 * t
                    + 1) / 2 == t as int);
            }
            v.push((w & 0xff) as u8);
            v.push((w >> 8) as u8);
            t = t + 1;
        }
        proof {
            assert(v@ =~= spec_slot_config_data());
        }
        v
    }

    /// The key-configuration table, 16 words little-endian.
    pub fn tng_tls_key_config_data() -> (r: Vec<u8>)
        ensures
            r@ == spec_key_config_data(),
    {
        let mut v: Vec<u8> = Vec::new();
        let mut t: usize = 0;
        while t < 16
            invariant
                t <= 16,
                v@.len() == 2 * t,
                forall|j: int| 0 <= j < 2 * t ==> v@[j] == spec_key_config_data()[j],
            decreases 16 - t,
        {
            let w = Self::key_config_word(t);
            proof {
                assert(w >> 8 < 256) by (bit_vector);
                assert((2 * t) % 2 == 0 && (2 * t) / 2 == t as int && (2 * t + 1) % 2 == 1 && (2 * t
                    + 1) / 2 == t as int);
            }
            v.push((w & 0xff) as u8);
            v.push((w >> 8) as u8);
            t = t + 1;
        }
        proof {
            assert(v@ =~= spec_key_config_data());
        }
        v
    }

    /// The chip-options word bytes.
    pub fn tng_tls_chip_options() -> (r: Vec<u8>)
        ensures
            r@ == spec_chip_options_data(),
    {
        let mut v: Vec<u8> = Vec::new();
        v.push(0xff);
        v.push(0xff);
        v.push(0x60);
        v.push(0x0e);
        proof {
            assert(v@ =~= spec_chip_options_data());
        }
        v
    }

    /// Queue the 8 word-writes that lay down the slot-configuration table.
    /// Against a locked Config zone this fails locally, with nothing queued
    /// and no bus traffic.
    pub fn configure_permissions(&mut self) -> (r: Result<(), Error>)
        ensures
            final(self).config_locked == old(self).config_locked,
            final(self).data_locked == old(self).data_locked,
            final(self).lock_data_policy == old(self).lock_data_policy,
            old(self).config_locked ==> r == Err::<(), Error>(Error::BadParam) && final(self).pending@ == old(self).pending@,
            !old(self).config_locked ==> r is Ok && final(self).pending@.len() == old(self).pending@.len() + 8,
            forall|i: int|
                0 <= i < old(self).pending@.len() ==> final(self).pending@[i] == old(self).pending@[i],
            !old(self).config_locked ==> forall|i: int|
                0 <= i < 8 ==> is_config_write(
                    #[trigger] final(self).pending@[old(self).pending@.len() + i],
                    Size::Word,
                    Zone::spec_locate_block(20 + 4 * i) as u8,
                    Zone::spec_locate_offset(20 + 4 * i) as u8,
                    spec_slot_config_data().subrange(4 * i, 4 * i + 4),
                ),
    {
        if self.config_locked {
            return Err(Error::BadParam);
        }
        let table = Self::tng_tls_slot_config_data();
        let ghost n0 = self.pending@.len();
        let mut i: usize = 0;
        while i < 8
            invariant
                i <= 8,
                table@ == spec_slot_config_data(),
                self.config_locked == old(self).config_locked,
                self.data_locked == old(self).data_locked,
                self.lock_data_policy == old(self).lock_data_policy,
                self.pending@.len() == n0 + i,
                forall|t: int| 0 <= t < n0 ==> self.pending@[t] == old(self).pending@[t],
                forall|t: int|
                    0 <= t < i ==> is_config_write(
                        #[trigger] self.pending@[n0 + t],
                        Size::Word,
                        Zone::spec_locate_block(20 + 4 * t) as u8,
                        Zone::spec_locate_offset(20 + 4 * t) as u8,
                        spec_slot_config_data().subrange(4 * t, 4 * t + 4),
                    ),
            decreases 8 - i,
        {
            let index = SLOT_CONFIG_INDEX + 4 * i;
            let (block, offset, _zone) = Zone::locate_index(index);
            let mut data: Vec<u8> = Vec::new();
            data.push(table[4 * i]);
            data.push(table[4 * i + 1]);
            data.push(table[4 * i + 2]);
            data.push(table[4 * i + 3]);
            proof {
                assert(data@ =~= spec_slot_config_data().subrange(
                    4 * i as int,
                    4 * i as int + 4,
                ));
            }
            self.pending.push(Action::WriteConfig { size: Size::Word, block, offset, data });
            i = i + 1;
        }
        Ok(())
    }

    /// Queue the word-write that lays down the chip-options word, with the
    /// same local gate on the Config lock.
    pub fn configure_chip_options(&mut self) -> (r: Result<(), Error>)
        ensures
            final(self).config_locked == old(self).config_locked,
            final(self).data_locked == old(self).data_locked,
            final(self).lock_data_policy == old(self).lock_data_policy,
            old(self).config_locked ==> r == Err::<(), Error>(Error::BadParam) && final(self).pending@ == old(self).pending@,
            !old(self).config_locked ==> r is Ok && final(self).pending@.len() == old(self).pending@.len() + 1 && is_config_write(
                final(self).pending@[old(self).pending@.len() as int],
                Size::Word,
                Zone::spec_locate_block(88) as u8,
                Zone::spec_locate_offset(88) as u8,
                spec_chip_options_data(),
            ),
            forall|i: int|
                0 <= i < old(self).pending@.len() ==> final(self).pending@[i] == old(self).pending@[i],
    {
        if self.config_locked {
            return Err(Error::BadParam);
        }
        let (block, offset, _zone) = Zone::locate_index(CHIP_OPTIONS_INDEX);
        let data = Self::tng_tls_chip_options();
        self.pending.push(Action::WriteConfig { size: Size::Word, block, offset, data });
        Ok(())
    }

    /// Queue the two block-writes that lay down the key-configuration
    /// table, with the same local gate on the Config lock.
    pub fn configure_key_types(&mut self) -> (r: Result<(), Error>)
        ensures
            final(self).config_locked == old(self).config_locked,
            final(self).data_locked == old(self).data_locked,
            final(self).lock_data_policy == old(self).lock_data_policy,
            old(self).config_locked ==> r == Err::<(), Error>(Error::BadParam) && final(self).pending@ == old(self).pending@,
            !old(self).config_locked ==> r is Ok && final(self).pending@.len() == old(self).pending@.len() + 2 && is_config_write(
                final(self).pending@[old(self).pending@.len() as int],
                Size::Block,
                Zone::spec_locate_block(96) as u8,
                Zone::spec_locate_offset(96) as u8,
                spec_key_config_data().subrange(0, 16),
            ) && is_config_write(
                final(self).pending@[old(self).pending@.len() + 1int],
                Size::Block,
                Zone::spec_locate_block(112) as u8,
                Zone::spec_locate_offset(112) as u8,
                spec_key_config_data().subrange(16, 32),
            ),
            forall|i: int|
                0 <= i < old(self).pending@.len() ==> final(self).pending@[i] == old(self).pending@[i],
    {
        if self.config_locked {
            return Err(Error::BadParam);
        }
        let table = Self::tng_tls_key_config_data();
        let (block_lo, offset_lo, _zone_lo) = Zone::locate_index(KEY_CONFIG_INDEX);
        let mut data_lo: Vec<u8> = Vec::new();
        let mut j: usize = 0;
        while j < 16
            invariant
                j <= 16,
                table@ == spec_key_config_data(),
                data_lo@.len() == j,
                forall|t: int| 0 <= t < j ==> data_lo@[t] == spec_key_config_data()[t],
            decreases 16 - j,
        {
            data_lo.push(table[j]);
            j = j + 1;
        }
        proof {
            assert(data_lo@ =~= spec_key_config_data().subrange(0, 16));
        }
        let (block_hi, offset_hi, _zone_hi) = Zone::locate_index(KEY_CONFIG_INDEX + 16);
        let mut data_hi: Vec<u8> = Vec::new();
        let mut k: usize = 0;
        while k < 16
            invariant
                k <= 16,
                table@ == spec_key_config_data(),
                data_hi@.len() == k,
                forall|t: int| 0 <= t < k ==> data_hi@[t] == spec_key_config_data()[16 + t],
            decreases 16 - k,
        {
            data_hi.push(table[16 + k]);
            k = k + 1;
        }
        proof {
            assert(data_hi@ =~= spec_key_config_data().subrange(16, 32));
        }
        self.pending.push(
            Action::WriteConfig { size: Size::Block, block: block_lo, offset: offset_lo, data: data_lo },
        );
        self.pending.push(
            Action::WriteConfig { size: Size::Block, block: block_hi, offset: offset_hi, data: data_hi },
        );
        Ok(())
    }

    /// Run the provisioning sequence from the current lock state. An
    /// unlocked Config zone gets the 11 table writes, in order, followed by
    /// the Config lock; a locked one gets nothing — no write is ever queued
    /// against a locked zone, so a second pass over a sealed device is an
    /// idempotent no-op. The Data zone is locked only where the policy asks
    /// for it and it is not locked yet. Lock flags only ever rise.
    pub fn provision(&mut self) -> (r: Result<(), Error>)
        ensures
            r is Ok,
            final(self).config_locked,
            final(self).data_locked == (old(self).data_locked || old(self).lock_data_policy),
            final(self).lock_data_policy == old(self).lock_data_policy,
            old(self).config_locked ==> final(self).config_locked,
            old(self).data_locked ==> final(self).data_locked,
            final(self).pending@.len() >= old(self).pending@.len(),
            forall|i: int|
                0 <= i < old(self).pending@.len() ==> final(self).pending@[i] == old(self).pending@[i],
            old(self).config_locked ==> forall|i: int|
                old(self).pending@.len() <= i < final(self).pending@.len() ==> !is_write(
                    #[trigger] final(self).pending@[i],
                ),
            (old(self).config_locked && (old(self).data_locked || !old(self).lock_data_policy))
                ==> final(self).pending@ == old(self).pending@,
            !old(self).config_locked ==> {
                &&& spec_config_writes(final(self).pending@, old(self).pending@.len() as int)
                &&& is_lock(final(self).pending@[old(self).pending@.len() + 11int], Zone::Config)
            },
            (!old(self).data_locked && old(self).lock_data_policy) ==> is_lock(
                final(self).pending@[final(self).pending@.len() - 1],
                Zone::Data,
            ),
            final(self).pending@.len() == old(self).pending@.len() + (if old(self).config_locked {
                0int
            } else {
                12int
            }) + (if !old(self).data_locked && old(self).lock_data_policy {
                1int
            } else {
                0int
            }),
    {
        if !self.config_locked {
            match self.configure_permissions() {
                Ok(()) => {},
                Err(e) => {
                    return Err(e);
                },
            }
            match self.configure_chip_options() {
                Ok(()) => {},
                Err(e) => {
                    return Err(e);
                },
            }
            match self.configure_key_types() {
                Ok(()) => {},
                Err(e) => {
                    return Err(e);
                },
            }
            self.pending.push(Action::LockZone { zone: Zone::Config });
            self.config_locked = true;
        }
        if !self.data_locked && self.lock_data_policy {
            self.pending.push(Action::LockZone { zone: Zone::Data });
            self.data_locked = true;
        }
        Ok(())
    }

    /// Stateful construction: start from the lock state the device reports
    /// and run the provisioning sequence at once, as initialization does.
    pub fn try_from(config_locked: bool, data_locked: bool, lock_data_policy: bool) -> (r: Result<
        TrustAndGo,
        Error,
    >)
        ensures
            r is Ok,
            r->Ok_0.config_locked,
            r->Ok_0.data_locked == (data_locked || lock_data_policy),
            r->Ok_0.lock_data_policy == lock_data_policy,
            config_locked ==> forall|i: int|
                0 <= i < r->Ok_0.pending@.len() ==> !is_write(#[trigger] r->Ok_0.pending@[i]),
            !config_locked ==> spec_config_writes(r->Ok_0.pending@, 0) && is_lock(
                r->Ok_0.pending@[11],
                Zone::Config,
            ),
            r->Ok_0.pending@.len() == (if config_locked {
                0int
            } else {
                12int
            }) + (if !data_locked && lock_data_policy {
                1int
            } else {
                0int
            }),
    {
        let mut tng = TrustAndGo::new(config_locked, data_locked, lock_data_policy);
        match tng.provision() {
            Ok(()) => {},
            Err(e) => {
                return Err(e);
            },
        }
        Ok(tng)
    }

    /// Hand the queued operations to the caller, oldest first, leaving the
    /// queue empty. The transport collaborator carries them out in order.
    pub fn take_pending(&mut self) -> (r: Vec<Action>)
        ensures
            r@ == old(self).pending@,
            final(self).pending@ == Seq::<Action>::empty(),
            final(self).config_locked == old(self).config_locked,
            final(self).data_locked == old(self).data_locked,
            final(self).lock_data_policy == old(self).lock_data_policy,
    {
        let mut out: Vec<Action> = Vec::new();
        core::mem::swap(&mut out, &mut self.pending);
        out
    }
}

/// Every provisioned slot-configuration word is legal: wherever
/// encrypt-read is set, is-secret is set too. The shipped tables never put a
/// slot in the prohibited combination.
pub proof fn lemma_shipped_slot_configs_valid()
    ensures
        forall|i: int| 0 <= i < 16 ==> spec_slot_config_valid(#[trigger] spec_slot_config_word(i)),
{
    assert(spec_slot_config_valid(0x0085u16) && spec_slot_config_valid(0x0082u16)
        && spec_slot_config_valid(0x2085u16) && spec_slot_config_valid(0x8f8fu16)
        && spec_slot_config_valid(0x0f8fu16) && spec_slot_config_valid(0x8fafu16)
        && spec_slot_config_valid(0x0f0fu16) && spec_slot_config_valid(0x8f0fu16)
        && spec_slot_config_valid(0x0000u16)) by (bit_vector);
}

/// Every provisioned key-configuration word is legal: the reserved bit 13
/// reads zero across the whole table.
pub proof fn lemma_shipped_key_configs_valid()
    ensures
        forall|i: int| 0 <= i < 16 ==> spec_key_config_valid(#[trigger] spec_key_config_word(i)),
{
    assert(spec_key_config_valid(0x0053u16) && spec_key_config_valid(0x0073u16)
        && spec_key_config_valid(0x001cu16) && spec_key_config_valid(0x007cu16)
        && spec_key_config_valid(0x003cu16) && spec_key_config_valid(0x001au16)
        && spec_key_config_valid(0x0010u16)) by (bit_vector);
}

/// For all 16 slots, decoding the provisioned slot-configuration and
/// key-configuration words and re-encoding them yields the original words.
pub proof fn lemma_shipped_words_round_trip()
    ensures
        forall|i: int|
            0 <= i < 16 ==> spec_encode_slot_config(
                spec_decode_slot_config(#[trigger] spec_slot_config_word(i)),
            ) == spec_slot_config_word(i),
        forall|i: int|
            0 <= i < 16 ==> spec_encode_key_config(
                spec_decode_key_config(#[trigger] spec_key_config_word(i)),
            ) == spec_key_config_word(i),
{
    lemma_shipped_slot_configs_valid();
    lemma_shipped_key_configs_valid();
    assert forall|i: int|
        0 <= i < 16 implies spec_encode_slot_config(
        spec_decode_slot_config(#[trigger] spec_slot_config_word(i)),
    ) == spec_slot_config_word(i) by {
        lemma_slot_config_round_trip(spec_slot_config_word(i));
    }
    assert forall|i: int|
        0 <= i < 16 implies spec_encode_key_config(
        spec_decode_key_config(#[trigger] spec_key_config_word(i)),
    ) == spec_key_config_word(i) by {
        lemma_key_config_round_trip(spec_key_config_word(i));
    }
}

} // verus!
