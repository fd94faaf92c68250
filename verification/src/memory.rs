//! Memory-zone addressing model.
//!
//! The device exposes three named memory regions. Read and Write commands
//! address them through a zone-relative linear word address: for the Config
//! and OTP zones the address is built from a block number and a word offset
//! (a block holds 8 words of 4 bytes), for the Data zone from a slot number
//! and a block number. `locate_index` inverts the Config-zone address
//! function: it maps a flat byte index back to the (block, offset) pair the
//! Read and Write commands expect.

use vstd::prelude::*;

use crate::error::Error;

verus! {

/// A length classifier for transfers and for the size-encoding bit of the
/// Read and Write mode byte: a Word moves 4 bytes, a Block 16.
#[derive(Clone, Copy, Debug, PartialEq, Eq, Structural)]
pub enum Size {
    Word,
    Block,
}

impl Size {
    /// The number of bytes a transfer of this size moves.
    pub open spec fn spec_len(self) -> nat {
        match self {
            Size::Word => 4,
            Size::Block => 16,
        }
    }

    pub fn len(&self) -> (r: usize)
        ensures
            r == self.spec_len(),
    {
        match self {
            Size::Word => 4,
            Size::Block => 16,
        }
    }
}

/// One of the 16 key/data slots of the Data zone. Slots in the lower half
/// can hold ECC private keys; the device gives their permission fields a
/// different meaning and never reads them out in the clear.
#[derive(Clone, Copy, Debug, PartialEq, Eq, Structural)]
pub enum Slot {
    PrivateKey00,
    PrivateKey01,
    PrivateKey02,
    PrivateKey03,
    PrivateKey04,
    PrivateKey05,
    PrivateKey06,
    PrivateKey07,
    Data08,
    Certificate09,
    Certificate0a,
    Certificate0b,
    Certificate0c,
    Data0d,
    Data0e,
    Data0f,
}

impl Slot {
    /// The slot's number, 0x00 through 0x0f.
    pub open spec fn spec_number(self) -> u8 {
        match self {
            Slot::PrivateKey00 => 0x00,
            Slot::PrivateKey01 => 0x01,
            Slot::PrivateKey02 => 0x02,
            Slot::PrivateKey03 => 0x03,
            Slot::PrivateKey04 => 0x04,
            Slot::PrivateKey05 => 0x05,
            Slot::PrivateKey06 => 0x06,
            Slot::PrivateKey07 => 0x07,
            Slot::Data08 => 0x08,
            Slot::Certificate09 => 0x09,
            Slot::Certificate0a => 0x0a,
            Slot::Certificate0b => 0x0b,
            Slot::Certificate0c => 0x0c,
            Slot::Data0d => 0x0d,
            Slot::Data0e => 0x0e,
            Slot::Data0f => 0x0f,
        }
    }

    pub fn number(&self) -> (r: u8)
        ensures
            r == self.spec_number(),
    {
        match self {
            Slot::PrivateKey00 => 0x00,
            Slot::PrivateKey01 => 0x01,
            Slot::PrivateKey02 => 0x02,
            Slot::PrivateKey03 => 0x03,
            Slot::PrivateKey04 => 0x04,
            Slot::PrivateKey05 => 0x05,
            Slot::PrivateKey06 => 0x06,
            Slot::PrivateKey07 => 0x07,
            Slot::Data08 => 0x08,
            Slot::Certificate09 => 0x09,
            Slot::Certificate0a => 0x0a,
            Slot::Certificate0b => 0x0b,
            Slot::Certificate0c => 0x0c,
            Slot::Data0d => 0x0d,
            Slot::Data0e => 0x0e,
            Slot::Data0f => 0x0f,
        }
    }

    /// Whether the slot can hold an ECC private key: true exactly for slots
    /// 0x00 through 0x07.
    pub open spec fn spec_is_private_key(self) -> bool {
        self.spec_number() < 0x08
    }

    pub fn is_private_key(&self) -> (r: bool)
        ensures
            r == self.spec_is_private_key(),
    {
        self.number() < 0x08
    }

    /// How many addressable blocks the slot spans: the private-key slots
    /// hold 36 bytes (2 blocks), slot 0x08 holds 416 bytes (13 blocks) and
    /// the remaining slots hold 72 bytes (3 blocks).
    pub open spec fn spec_block_count(self) -> u8 {
        if self.spec_number() < 0x08 {
            2
        } else if self.spec_number() == 0x08 {
            13
        } else {
            3
        }
    }

    pub fn block_count(&self) -> (r: u8)
        ensures
            r == self.spec_block_count(),
    {
        let n = self.number();
        if n < 0x08 {
            2
        } else if n == 0x08 {
            13
        } else {
            3
        }
    }
}

/// A named region of device memory with its own capacity and lock flag.
#[derive(Clone, Copy, Debug, PartialEq, Eq, Structural)]
pub enum Zone {
    Config,
    Data,
    Otp,
}

/// The number of blocks a register zone holds: the Config zone spans 128
/// bytes (4 blocks of 8 words), the OTP zone 64 bytes (2 blocks). The Data
/// zone is addressed per slot and has no flat block capacity here.
pub open spec fn spec_zone_blocks(zone: Zone) -> u8 {
    match zone {
        Zone::Config => 4,
        Zone::Otp => 2,
        Zone::Data => 0,
    }
}

/// Words per block: a block holds 8 words of 4 bytes.
pub const WORDS_PER_BLOCK: u8 = 8;

/// Bytes per block of the Config and OTP zones.
pub const BYTES_PER_BLOCK: u8 = 32;

/// Byte capacity of the Config zone.
pub const CONFIG_ZONE_BYTES: u8 = 128;

impl Zone {
    /// The zone bits of a Read or Write mode byte.
    pub open spec fn spec_zone_bits(self) -> u8 {
        match self {
            Zone::Config => 0x00,
            Zone::Otp => 0x01,
            Zone::Data => 0x02,
        }
    }

    /// The mode byte a Read or Write command carries for this zone and
    /// transfer size: the zone selector in the low bits, and the top bit set
    /// when a whole block is moved instead of a word.
    pub open spec fn spec_encode(self, size: Size) -> u8 {
        match size {
            Size::Word => self.spec_zone_bits(),
            Size::Block => self.spec_zone_bits() | 0x80,
        }
    }

    /// Fold a transfer size into the mode bits a Read or Write command
    /// expects for this zone.
    pub fn encode(&self, size: Size) -> (r: u8)
        ensures
            r == self.spec_encode(size),
    {
        let bits = match self {
            Zone::Config => 0x00u8,
            Zone::Otp => 0x01u8,
            Zone::Data => 0x02u8,
        };
        match size {
            Size::Word => bits,
            Size::Block => bits | 0x80,
        }
    }

    /// Whether (block, offset) lies inside this zone's register capacity.
    pub open spec fn spec_register_valid(self, block: u8, offset: u8) -> bool {
        self != Zone::Data && block < spec_zone_blocks(self) && offset < WORDS_PER_BLOCK
    }

    /// The zone-relative linear word address of (block, offset).
    pub open spec fn spec_register_addr(block: u8, offset: u8) -> u16 {
        (block * WORDS_PER_BLOCK + offset) as u16
    }

    /// The linear word address a register read or write of this zone
    /// carries for (block, offset). The Data zone is addressed per slot and
    /// is rejected here; a block or offset beyond the zone's capacity is out
    /// of range.
    pub fn get_addr(&self, block: u8, offset: u8) -> (r: Result<u16, Error>)
        ensures
            r is Ok <==> self.spec_register_valid(block, offset),
            r is Ok ==> r->Ok_0 == Self::spec_register_addr(block, offset),
            *self == Zone::Data ==> r == Err::<u16, Error>(Error::BadParam),
            (*self != Zone::Data && !self.spec_register_valid(block, offset)) ==> r
                == Err::<u16, Error>(Error::OutOfRange),
    {
        let blocks = match self {
            Zone::Config => 4u8,
            Zone::Otp => 2u8,
            Zone::Data => {
                return Err(Error::BadParam);
            },
        };
        if block >= blocks || offset >= WORDS_PER_BLOCK {
            return Err(Error::OutOfRange);
        }
        Ok((block as u16) * 8 + (offset as u16))
    }

    /// Whether the block lies inside the slot's capacity.
    pub open spec fn spec_slot_valid(self, slot: Slot, block: u8) -> bool {
        self == Zone::Data && block < slot.spec_block_count()
    }

    /// The linear word address of a Data-zone slot block: the slot number in
    /// bits 3 through 6 and the block number in bits 8 and up.
    pub open spec fn spec_slot_addr(slot: Slot, block: u8) -> u16 {
        ((slot.spec_number() as u16) << 3) | ((block as u16) << 8)
    }

    /// The linear word address of a whole block of a Data-zone slot. Only
    /// the Data zone holds slots; a block beyond the slot's capacity is out
    /// of range.
    pub fn get_slot_addr(&self, slot: Slot, block: u8) -> (r: Result<u16, Error>)
        ensures
            r is Ok <==> self.spec_slot_valid(slot, block),
            r is Ok ==> r->Ok_0 == Self::spec_slot_addr(slot, block),
            *self != Zone::Data ==> r == Err::<u16, Error>(Error::BadParam),
            (*self == Zone::Data && block >= slot.spec_block_count()) ==> r == Err::<
                u16,
                Error,
            >(Error::OutOfRange),
    {
        match self {
            Zone::Data => {},
            _ => {
                return Err(Error::BadParam);
            },
        }
        if block >= slot.block_count() {
            return Err(Error::OutOfRange);
        }
        Ok(((slot.number() as u16) << 3) | ((block as u16) << 8))
    }

    /// The block a flat Config-zone byte index falls in.
    pub open spec fn spec_locate_block(index: int) -> int {
        index / (BYTES_PER_BLOCK as int)
    }

    /// The word offset inside that block.
    pub open spec fn spec_locate_offset(index: int) -> int {
        (index % (BYTES_PER_BLOCK as int)) / (Size::Word.spec_len() as int)
    }

    /// Map a flat Config-zone byte index to the (block, word offset) pair
    /// that `get_addr` expects, together with the zone it belongs to.
    pub fn locate_index(index: usize) -> (r: (u8, u8, Zone))
        requires
            index < CONFIG_ZONE_BYTES,
        ensures
            r.0 == Self::spec_locate_block(index as int),
            r.1 == Self::spec_locate_offset(index as int),
            r.2 == Zone::Config,
    {
        let block = (index / (BYTES_PER_BLOCK as usize)) as u8;
        let offset = ((index % (BYTES_PER_BLOCK as usize)) / (Size::Word.len())) as u8;
        (block, offset, Zone::Config)
    }
}

/// The flat Config-zone byte index of a word at (block, offset): the address
/// function behind the SlotConfig and KeyConfig table layout.
pub open spec fn config_index(block: int, offset: int) -> int {
    block * (BYTES_PER_BLOCK as int) + offset * (Size::Word.spec_len() as int)
}

/// `locate_index` inverts the Config-zone address function on the word
/// tables' documented index ranges: a word-aligned index maps to the unique
/// (block, offset) pair whose flat index it is.
pub proof fn lemma_locate_index_inverse(index: int)
    requires
        20 <= index <= 51 || 96 <= index <= 127,
        index % 4 == 0,
    ensures
        config_index(Zone::spec_locate_block(index), Zone::spec_locate_offset(index)) == index,
{
    let q = index / 32;
    let m = index % 32;
    vstd::arithmetic::div_mod::lemma_fundamental_div_mod(index, 32);
    assert(index == 32 * q + m);
    vstd::arithmetic::div_mod::lemma_fundamental_div_mod(m, 4);
    assert(m % 4 == index % 4) by {
        vstd::arithmetic::div_mod::lemma_mod_mod(index, 4, 8);
    }
}

/// The other direction: every in-range (block, offset) pair is recovered by
/// `locate_index` from its flat index.
pub proof fn lemma_config_index_locates(block: int, offset: int)
    requires
        0 <= block < 4,
        0 <= offset < 8,
    ensures
        Zone::spec_locate_block(config_index(block, offset)) == block,
        Zone::spec_locate_offset(config_index(block, offset)) == offset,
{
    let index = 32 * block + 4 * offset;
    assert(index / 32 == block && index % 32 == 4 * offset) by {
        vstd::arithmetic::div_mod::lemma_fundamental_div_mod_converse(
            index,
            32,
            block,
            4 * offset,
        );
    }
    assert((4 * offset) / 4 == offset) by {
        vstd::arithmetic::div_mod::lemma_div_multiples_vanish(offset, 4);
    }
    assert(config_index(block, offset) == index);
    assert(Zone::spec_locate_offset(index) == (4 * offset) / 4);
}

} // verus!
