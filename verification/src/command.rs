//! Typed command constructors and their response types.
//!
//! Each command type wraps a `PacketBuilder` and exposes one operation per
//! device sub-mode. A command validates its operation-specific preconditions
//! locally, before anything would reach the bus, and then emits a bit-exact
//! frame into the builder's buffer. Commands have no observable effect
//! besides producing that frame; the transport collaborator transmits it and
//! returns the response buffer that the typed result parsers below decode.

use vstd::prelude::*;

use crate::error::Error;
use crate::memory::{Size, Slot, Zone};
use crate::packet::{built_with, packet_for, Packet, PacketBuilder};

verus! {

/// AES mode: encrypt.
pub const MODE_ENCRYPT: u8 = 0x00;

/// AES mode: decrypt.
pub const MODE_DECRYPT: u8 = 0x01;

/// SHA mode: initialization, accepts no message.
pub const MODE_SHA256_START: u8 = 0x00;

/// SHA mode: add up to 63 message bytes to the SHA context.
pub const MODE_SHA256_UPDATE: u8 = 0x01;

/// SHA mode: complete the calculation and return the digest.
pub const MODE_SHA256_END: u8 = 0x02;

/// Info mode: revision.
pub const MODE_REVISION: u8 = 0x00;

/// The byte identifying which device operation a frame requests.
#[derive(Clone, Copy, Debug, PartialEq, Eq, Structural)]
pub enum OpCode {
    CheckMac,
    DeriveKey,
    Info,
    GenDig,
    GenKey,
    HMac,
    Lock,
    Mac,
    Nonce,
    Pause,
    PrivWrite,
    Random,
    Read,
    Sign,
    UpdateExtra,
    Verify,
    Write,
    Ecdh,
    Counter,
    Sha,
    Aes,
    Kdf,
    SecureBoot,
    SelfTest,
}

impl OpCode {
    /// The fixed byte value of this opcode.
    pub open spec fn spec_value(self) -> u8 {
        match self {
            OpCode::CheckMac => 0x28,
            OpCode::DeriveKey => 0x1c,
            OpCode::Info => 0x30,
            OpCode::GenDig => 0x15,
            OpCode::GenKey => 0x40,
            OpCode::HMac => 0x11,
            OpCode::Lock => 0x17,
            OpCode::Mac => 0x08,
            OpCode::Nonce => 0x16,
            OpCode::Pause => 0x01,
            OpCode::PrivWrite => 0x46,
            OpCode::Random => 0x1b,
            OpCode::Read => 0x02,
            OpCode::Sign => 0x41,
            OpCode::UpdateExtra => 0x20,
            OpCode::Verify => 0x45,
            OpCode::Write => 0x12,
            OpCode::Ecdh => 0x43,
            OpCode::Counter => 0x24,
            OpCode::Sha => 0x47,
            OpCode::Aes => 0x51,
            OpCode::Kdf => 0x56,
            OpCode::SecureBoot => 0x80,
            OpCode::SelfTest => 0x77,
        }
    }

    pub fn value(&self) -> (r: u8)
        ensures
            r == self.spec_value(),
    {
        match self {
            OpCode::CheckMac => 0x28,
            OpCode::DeriveKey => 0x1c,
            OpCode::Info => 0x30,
            OpCode::GenDig => 0x15,
            OpCode::GenKey => 0x40,
            OpCode::HMac => 0x11,
            OpCode::Lock => 0x17,
            OpCode::Mac => 0x08,
            OpCode::Nonce => 0x16,
            OpCode::Pause => 0x01,
            OpCode::PrivWrite => 0x46,
            OpCode::Random => 0x1b,
            OpCode::Read => 0x02,
            OpCode::Sign => 0x41,
            OpCode::UpdateExtra => 0x20,
            OpCode::Verify => 0x45,
            OpCode::Write => 0x12,
            OpCode::Ecdh => 0x43,
            OpCode::Counter => 0x24,
            OpCode::Sha => 0x47,
            OpCode::Aes => 0x51,
            OpCode::Kdf => 0x56,
            OpCode::SecureBoot => 0x80,
            OpCode::SelfTest => 0x77,
        }
    }

    /// The typical worst-case execution time for this command, in
    /// milliseconds, at the given clock-divider setting: the window the
    /// caller must wait out before polling for a response. Opcodes with no
    /// published timing yield nothing and the caller must fall back to a
    /// conservative default.
    pub fn execution_time(&self, div: ClockDivider) -> (r: Option<u32>)
        ensures
            r == spec_execution_time(*self, div),
    {
        match self {
            OpCode::CheckMac => Some(40),
            OpCode::Counter => Some(25),
            OpCode::DeriveKey => Some(50),
            OpCode::Ecdh => Some(
                match div {
                    ClockDivider::Zero => 172,
                    ClockDivider::One => 75,
                    ClockDivider::Two => 531,
                },
            ),
            OpCode::GenDig => Some(
                match div {
                    ClockDivider::Zero => 35,
                    ClockDivider::One => 25,
                    ClockDivider::Two => 35,
                },
            ),
            OpCode::GenKey => Some(
                match div {
                    ClockDivider::Zero => 215,
                    ClockDivider::One => 115,
                    ClockDivider::Two => 653,
                },
            ),
            OpCode::Info => Some(5),
            OpCode::Lock => Some(35),
            OpCode::Mac => Some(55),
            OpCode::Nonce => Some(20),
            OpCode::PrivWrite => Some(50),
            OpCode::Random => Some(23),
            OpCode::Read => Some(5),
            OpCode::Sign => Some(
                match div {
                    ClockDivider::Zero => 115,
                    ClockDivider::One => 220,
                    ClockDivider::Two => 665,
                },
            ),
            OpCode::UpdateExtra => Some(10),
            OpCode::Verify => Some(
                match div {
                    ClockDivider::Zero => 105,
                    ClockDivider::One => 295,
                    ClockDivider::Two => 1085,
                },
            ),
            OpCode::Write => Some(45),
            OpCode::Sha => Some(
                match div {
                    ClockDivider::Zero => 36,
                    ClockDivider::One => 42,
                    ClockDivider::Two => 75,
                },
            ),
            OpCode::Aes => Some(27),
            OpCode::Kdf => Some(165),
            OpCode::SecureBoot => Some(
                match div {
                    ClockDivider::Zero => 160,
                    ClockDivider::One => 80,
                    ClockDivider::Two => 480,
                },
            ),
            OpCode::SelfTest => Some(
                match div {
                    ClockDivider::Zero => 625,
                    ClockDivider::One => 250,
                    ClockDivider::Two => 2324,
                },
            ),
            OpCode::HMac => None,
            OpCode::Pause => None,
        }
    }
}

/// The device's internal clock-divider selector, which the execution-time
/// table is keyed by.
#[derive(Clone, Copy, Debug, PartialEq, Eq, Structural)]
pub enum ClockDivider {
    Zero,
    One,
    Two,
}

/// The published worst-case execution times, fixed data keyed by opcode and
/// clock divider. Polling loops depend on these exact values.
pub open spec fn spec_execution_time(op: OpCode, div: ClockDivider) -> Option<u32> {
    match op {
        OpCode::CheckMac => Some(40u32),
        OpCode::Counter => Some(25u32),
        OpCode::DeriveKey => Some(50u32),
        OpCode::Ecdh => Some(
            match div {
                ClockDivider::Zero => 172u32,
                ClockDivider::One => 75u32,
                ClockDivider::Two => 531u32,
            },
        ),
        OpCode::GenDig => Some(
            match div {
                ClockDivider::Zero => 35u32,
                ClockDivider::One => 25u32,
                ClockDivider::Two => 35u32,
            },
        ),
        OpCode::GenKey => Some(
            match div {
                ClockDivider::Zero => 215u32,
                ClockDivider::One => 115u32,
                ClockDivider::Two => 653u32,
            },
        ),
        OpCode::Info => Some(5u32),
        OpCode::Lock => Some(35u32),
        OpCode::Mac => Some(55u32),
        OpCode::Nonce => Some(20u32),
        OpCode::PrivWrite => Some(50u32),
        OpCode::Random => Some(23u32),
        OpCode::Read => Some(5u32),
        OpCode::Sign => Some(
            match div {
                ClockDivider::Zero => 115u32,
                ClockDivider::One => 220u32,
                ClockDivider::Two => 665u32,
            },
        ),
        OpCode::UpdateExtra => Some(10u32),
        OpCode::Verify => Some(
            match div {
                ClockDivider::Zero => 105u32,
                ClockDivider::One => 295u32,
                ClockDivider::Two => 1085u32,
            },
        ),
        OpCode::Write => Some(45u32),
        OpCode::Sha => Some(
            match div {
                ClockDivider::Zero => 36u32,
                ClockDivider::One => 42u32,
                ClockDivider::Two => 75u32,
            },
        ),
        OpCode::Aes => Some(27u32),
        OpCode::Kdf => Some(165u32),
        OpCode::SecureBoot => Some(
            match div {
                ClockDivider::Zero => 160u32,
                ClockDivider::One => 80u32,
                ClockDivider::Two => 480u32,
            },
        ),
        OpCode::SelfTest => Some(
            match div {
                ClockDivider::Zero => 625u32,
                ClockDivider::One => 250u32,
                ClockDivider::Two => 2324u32,
            },
        ),
        OpCode::HMac => None,
        OpCode::Pause => None,
    }
}

/// Copy `N` bytes out of `src` starting at `start`.
fn copy_bytes<const N: usize>(src: &[u8], start: usize) -> (r: [u8; N])
    requires
        start + N <= src@.len(),
    ensures
        r@ == src@.subrange(start as int, start + N),
{
    let total = src.len();
    let mut out = [0u8; N];
    let mut i: usize = 0;
    while i < N
        invariant
            i <= N,
            start + N <= total,
            total == src@.len(),
            out@.len() == N,
            forall|t: int| 0 <= t < i ==> out@[t] == src@[start + t],
        decreases N - i,
    {
        out.set(i, src[start + i]);
        i = i + 1;
    }
    proof {
        assert(out@ =~= src@.subrange(start as int, start + N));
    }
    out
}

/// A 4-byte word read back from the device, e.g. the revision returned by
/// the Info command.
#[derive(Clone, Copy, Debug)]
pub struct Word {
    pub value: [u8; 4],
}

impl Word {
    /// Parse a word from a response buffer: the buffer must hold exactly the
    /// 4 word bytes.
    pub fn try_from(buffer: &[u8]) -> (r: Result<Word, Error>)
        ensures
            r is Ok <==> buffer@.len() == 4,
            r is Ok ==> r->Ok_0.value@ == buffer@,
            r is Err ==> r == Err::<Word, Error>(Error::ParseFailure),
    {
        if buffer.len() != 4 {
            return Err(Error::ParseFailure);
        }
        Ok(Word { value: copy_bytes::<4>(buffer, 0) })
    }

    pub fn as_bytes(&self) -> (r: &[u8; 4])
        ensures
            r@ == self.value@,
    {
        &self.value
    }
}

/// A 16-byte block read back from the device.
#[derive(Clone, Copy, Debug)]
pub struct Block {
    pub value: [u8; 16],
}

impl Block {
    /// Parse a block from a response buffer: the buffer must hold exactly
    /// the 16 block bytes.
    pub fn try_from(buffer: &[u8]) -> (r: Result<Block, Error>)
        ensures
            r is Ok <==> buffer@.len() == 16,
            r is Ok ==> r->Ok_0.value@ == buffer@,
            r is Err ==> r == Err::<Block, Error>(Error::ParseFailure),
    {
        if buffer.len() != 16 {
            return Err(Error::ParseFailure);
        }
        Ok(Block { value: copy_bytes::<16>(buffer, 0) })
    }

    pub fn as_bytes(&self) -> (r: &[u8; 16])
        ensures
            r@ == self.value@,
    {
        &self.value
    }
}

/// The device's unique 9-byte serial number. It sits in the first Config
/// zone block, split across bytes 0 through 3 and 8 through 12.
#[derive(Clone, Copy, Debug)]
pub struct Serial {
    pub value: [u8; 9],
}

impl Serial {
    /// Assemble the serial number from a read of the first Config zone
    /// block: bytes 0 through 3 and 8 through 12 of the response. The buffer
    /// must reach past byte 12.
    pub fn try_from(buffer: &[u8]) -> (r: Result<Serial, Error>)
        ensures
            r is Ok <==> buffer@.len() >= 13,
            r is Ok ==> r->Ok_0.value@ == buffer@.subrange(0, 4) + buffer@.subrange(8, 13),
            r is Err ==> r == Err::<Serial, Error>(Error::ParseFailure),
    {
        if buffer.len() < 13 {
            return Err(Error::ParseFailure);
        }
        let head: [u8; 4] = copy_bytes::<4>(buffer, 0);
        let tail: [u8; 5] = copy_bytes::<5>(buffer, 8);
        let mut value = [0u8; 9];
        let mut i: usize = 0;
        while i < 4
            invariant
                i <= 4,
                value@.len() == 9,
                forall|t: int| 0 <= t < i ==> value@[t] == head@[t],
            decreases 4 - i,
        {
            value.set(i, head[i]);
            i = i + 1;
        }
        let mut j: usize = 0;
        while j < 5
            invariant
                j <= 5,
                value@.len() == 9,
                forall|t: int| 0 <= t < 4 ==> value@[t] == head@[t],
                forall|t: int| 0 <= t < j ==> value@[4 + t] == tail@[t],
            decreases 5 - j,
        {
            value.set(4 + j, tail[j]);
            j = j + 1;
        }
        proof {
            assert(value@ =~= buffer@.subrange(0, 4) + buffer@.subrange(8, 13));
        }
        Ok(Serial { value })
    }

    pub fn as_bytes(&self) -> (r: &[u8; 9])
        ensures
            r@ == self.value@,
    {
        &self.value
    }
}

/// A signature returned from a signing operation: the R and S integers in
/// big-endian form, 64 bytes for the P256 curve.
#[derive(Clone, Copy, Debug)]
pub struct Signature {
    pub value: [u8; 64],
}

impl Signature {
    /// Parse a signature from a response buffer: the buffer must hold
    /// exactly the 64 signature bytes.
    pub fn try_from(buffer: &[u8]) -> (r: Result<Signature, Error>)
        ensures
            r is Ok <==> buffer@.len() == 64,
            r is Ok ==> r->Ok_0.value@ == buffer@,
            r is Err ==> r == Err::<Signature, Error>(Error::ParseFailure),
    {
        if buffer.len() != 64 {
            return Err(Error::ParseFailure);
        }
        Ok(Signature { value: copy_bytes::<64>(buffer, 0) })
    }

    pub fn as_bytes(&self) -> (r: &[u8; 64])
        ensures
            r@ == self.value@,
    {
        &self.value
    }
}

/// A 32-byte digest yielded by the device's hash engine.
#[derive(Clone, Copy, Debug)]
pub struct Digest {
    pub value: [u8; 32],
}

impl Digest {
    /// Parse a digest from a response buffer: the buffer must hold exactly
    /// the 32 digest bytes.
    pub fn try_from(buffer: &[u8]) -> (r: Result<Digest, Error>)
        ensures
            r is Ok <==> buffer@.len() == 32,
            r is Ok ==> r->Ok_0.value@ == buffer@,
            r is Err ==> r == Err::<Digest, Error>(Error::ParseFailure),
    {
        if buffer.len() != 32 {
            return Err(Error::ParseFailure);
        }
        Ok(Digest { value: copy_bytes::<32>(buffer, 0) })
    }

    pub fn as_bytes(&self) -> (r: &[u8; 32])
        ensures
            r@ == self.value@,
    {
        &self.value
    }
}

/// The 32-byte shared secret an ECDH operation returns.
#[derive(Clone, Copy, Debug)]
pub struct PremasterSecret {
    pub value: [u8; 32],
}

impl PremasterSecret {
    /// Parse a premaster secret from a response buffer: the buffer must hold
    /// exactly its 32 bytes.
    pub fn try_from(buffer: &[u8]) -> (r: Result<PremasterSecret, Error>)
        ensures
            r is Ok <==> buffer@.len() == 32,
            r is Ok ==> r->Ok_0.value@ == buffer@,
            r is Err ==> r == Err::<PremasterSecret, Error>(Error::ParseFailure),
    {
        if buffer.len() != 32 {
            return Err(Error::ParseFailure);
        }
        Ok(PremasterSecret { value: copy_bytes::<32>(buffer, 0) })
    }

    pub fn as_bytes(&self) -> (r: &[u8; 32])
        ensures
            r@ == self.value@,
    {
        &self.value
    }
}

/// A 32-byte nonce, as returned by the Nonce or Random commands.
#[derive(Clone, Copy, Debug)]
pub struct Nonce {
    pub value: [u8; 32],
}

impl Nonce {
    /// Parse a nonce from a response buffer: the buffer must hold exactly
    /// its 32 bytes.
    pub fn try_from(buffer: &[u8]) -> (r: Result<Nonce, Error>)
        ensures
            r is Ok <==> buffer@.len() == 32,
            r is Ok ==> r->Ok_0.value@ == buffer@,
            r is Err ==> r == Err::<Nonce, Error>(Error::ParseFailure),
    {
        if buffer.len() != 32 {
            return Err(Error::ParseFailure);
        }
        Ok(Nonce { value: copy_bytes::<32>(buffer, 0) })
    }

    pub fn as_bytes(&self) -> (r: &[u8; 32])
        ensures
            r@ == self.value@,
    {
        &self.value
    }
}

/// Generate Digest: combine a stored slot value into the device's internal
/// working register over SHA-256. The register must already hold a valid
/// nonce; the protocol enforces that precondition on the device, it is not
/// locally checkable.
pub struct GenDig {
    pub builder: PacketBuilder,
}

impl GenDig {
    pub fn new(builder: PacketBuilder) -> (r: Self)
        ensures
            r.builder == builder,
    {
        GenDig { builder }
    }

    /// Build a GenDig frame naming the slot to fold in.
    pub fn gendig(&mut self, key_id: Slot) -> (r: Result<Packet, Error>)
        requires
            old(self).builder.wf(),
        ensures
            final(self).builder.wf(),
            r is Ok,
            built_with(
                final(self).builder,
                old(self).builder,
                OpCode::GenDig.spec_value(),
                0x00,
                key_id.spec_number() as u16,
                Seq::<u8>::empty(),
            ),
            packet_for(r->Ok_0, OpCode::GenDig, 0),
    {
        self.builder.opcode(OpCode::GenDig);
        self.builder.mode(0x00);
        self.builder.param2(key_id.number() as u16);
        self.builder.clear_pdu();
        Ok(self.builder.build())
    }
}

/// The Info command.
pub struct Info {
    pub builder: PacketBuilder,
}

impl Info {
    pub fn new(builder: PacketBuilder) -> (r: Self)
        ensures
            r.builder == builder,
    {
        Info { builder }
    }

    /// Build an Info frame in revision mode; executing it returns a word
    /// containing the device revision.
    pub fn revision(&mut self) -> (r: Result<Packet, Error>)
        requires
            old(self).builder.wf(),
        ensures
            final(self).builder.wf(),
            r is Ok,
            built_with(
                final(self).builder,
                old(self).builder,
                OpCode::Info.spec_value(),
                MODE_REVISION,
                0x0000,
                Seq::<u8>::empty(),
            ),
            packet_for(r->Ok_0, OpCode::Info, 0),
    {
        self.builder.opcode(OpCode::Info);
        self.builder.mode(MODE_REVISION);
        self.builder.param2(0);
        self.builder.clear_pdu();
        Ok(self.builder.build())
    }
}

/// The Nonce command. Loading a nonce into the device's working register is
/// a protocol-level concern of the caller; this type reserves the command's
/// place in the set.
pub struct NonceCmd {
    pub builder: PacketBuilder,
}

impl NonceCmd {
    pub fn new(builder: PacketBuilder) -> (r: Self)
        ensures
            r.builder == builder,
    {
        NonceCmd { builder }
    }
}

/// Three-phase incremental hashing: start, any number of updates, end.
pub struct Sha {
    pub builder: PacketBuilder,
}

impl Sha {
    pub fn new(builder: PacketBuilder) -> (r: Self)
        ensures
            r.builder == builder,
    {
        Sha { builder }
    }

    /// Build the frame that initializes the SHA context; it takes no
    /// payload.
    pub fn start(&mut self) -> (r: Result<Packet, Error>)
        requires
            old(self).builder.wf(),
        ensures
            final(self).builder.wf(),
            r is Ok,
            built_with(
                final(self).builder,
                old(self).builder,
                OpCode::Sha.spec_value(),
                MODE_SHA256_START,
                0x0000,
                Seq::<u8>::empty(),
            ),
            packet_for(r->Ok_0, OpCode::Sha, 0),
    {
        self.builder.opcode(OpCode::Sha);
        self.builder.mode(MODE_SHA256_START);
        self.builder.param2(0);
        self.builder.clear_pdu();
        Ok(self.builder.build())
    }

    /// Build the frame that adds `data` to the SHA context. The device
    /// accepts less than 64 bytes per update; a payload of 64 bytes or more
    /// is rejected with a size error before anything reaches the bus.
    pub fn update(&mut self, data: &[u8]) -> (r: Result<Packet, Error>)
        requires
            old(self).builder.wf(),
        ensures
            final(self).builder.wf(),
            r is Ok <==> (data@.len() < 64 && 8 + data@.len() <= old(self).builder.buffer@.len()),
            r is Ok ==> built_with(
                final(self).builder,
                old(self).builder,
                OpCode::Sha.spec_value(),
                MODE_SHA256_UPDATE,
                0x0000,
                data@,
            ) && packet_for(r->Ok_0, OpCode::Sha, data@.len()),
            r is Err ==> r == Err::<Packet, Error>(Error::InvalidSize) && final(self).builder.buffer@
                == old(self).builder.buffer@,
    {
        if data.len() >= 64 {
            return Err(Error::InvalidSize);
        }
        self.builder.opcode(OpCode::Sha);
        self.builder.mode(MODE_SHA256_UPDATE);
        self.builder.param2(0);
        match self.builder.pdu_data(data) {
            Ok(()) => {},
            Err(e) => {
                return Err(e);
            },
        }
        Ok(self.builder.build())
    }

    /// Build the frame that completes the calculation; executing it returns
    /// the 32-byte digest.
    pub fn end(&mut self) -> (r: Result<Packet, Error>)
        requires
            old(self).builder.wf(),
        ensures
            final(self).builder.wf(),
            r is Ok,
            built_with(
                final(self).builder,
                old(self).builder,
                OpCode::Sha.spec_value(),
                MODE_SHA256_END,
                0x0000,
                Seq::<u8>::empty(),
            ),
            packet_for(r->Ok_0, OpCode::Sha, 0),
    {
        self.builder.opcode(OpCode::Sha);
        self.builder.mode(MODE_SHA256_END);
        self.builder.param2(0);
        self.builder.clear_pdu();
        Ok(self.builder.build())
    }
}

/// AES-128 on a stored key: one 16-byte block per command.
pub struct Aes {
    pub builder: PacketBuilder,
}

impl Aes {
    pub fn new(builder: PacketBuilder) -> (r: Self)
        ensures
            r.builder == builder,
    {
        Aes { builder }
    }

    /// Build an AES-encrypt frame over one 16-byte plaintext block held in
    /// `slot`. A slot that cannot hold a private key is rejected with a
    /// parameter error, and a payload that is not exactly 16 bytes with a
    /// size error, before anything reaches the bus.
    pub fn encrypt(&mut self, slot: Slot, plaintext: &[u8]) -> (r: Result<Packet, Error>)
        requires
            old(self).builder.wf(),
        ensures
            final(self).builder.wf(),
            r is Ok <==> (slot.spec_is_private_key() && plaintext@.len() == 16 && 24 <= old(
                self,
            ).builder.buffer@.len()),
            r is Ok ==> built_with(
                final(self).builder,
                old(self).builder,
                OpCode::Aes.spec_value(),
                MODE_ENCRYPT,
                slot.spec_number() as u16,
                plaintext@,
            ) && packet_for(r->Ok_0, OpCode::Aes, 16),
            !slot.spec_is_private_key() ==> r == Err::<Packet, Error>(Error::BadParam),
            (slot.spec_is_private_key() && plaintext@.len() != 16) ==> r == Err::<
                Packet,
                Error,
            >(Error::InvalidSize),
            r is Err ==> final(self).builder.buffer@ == old(self).builder.buffer@,
    {
        if !slot.is_private_key() {
            return Err(Error::BadParam);
        }
        if plaintext.len() != 16 {
            return Err(Error::InvalidSize);
        }
        self.builder.opcode(OpCode::Aes);
        self.builder.mode(MODE_ENCRYPT);
        self.builder.param2(slot.number() as u16);
        match self.builder.pdu_data(plaintext) {
            Ok(()) => {},
            Err(e) => {
                return Err(e);
            },
        }
        Ok(self.builder.build())
    }

    /// Build an AES-decrypt frame over one 16-byte ciphertext block held in
    /// `slot`, with the same local checks as `encrypt`.
    pub fn decrypt(&mut self, slot: Slot, ciphertext: &[u8]) -> (r: Result<Packet, Error>)
        requires
            old(self).builder.wf(),
        ensures
            final(self).builder.wf(),
            r is Ok <==> (slot.spec_is_private_key() && ciphertext@.len() == 16 && 24 <= old(
                self,
            ).builder.buffer@.len()),
            r is Ok ==> built_with(
                final(self).builder,
                old(self).builder,
                OpCode::Aes.spec_value(),
                MODE_DECRYPT,
                slot.spec_number() as u16,
                ciphertext@,
            ) && packet_for(r->Ok_0, OpCode::Aes, 16),
            !slot.spec_is_private_key() ==> r == Err::<Packet, Error>(Error::BadParam),
            (slot.spec_is_private_key() && ciphertext@.len() != 16) ==> r == Err::<
                Packet,
                Error,
            >(Error::InvalidSize),
            r is Err ==> final(self).builder.buffer@ == old(self).builder.buffer@,
    {
        if !slot.is_private_key() {
            return Err(Error::BadParam);
        }
        if ciphertext.len() != 16 {
            return Err(Error::InvalidSize);
        }
        self.builder.opcode(OpCode::Aes);
        self.builder.mode(MODE_DECRYPT);
        self.builder.param2(slot.number() as u16);
        match self.builder.pdu_data(ciphertext) {
            Ok(()) => {},
            Err(e) => {
                return Err(e);
            },
        }
        Ok(self.builder.build())
    }
}

/// The Read command.
pub struct Read {
    pub builder: PacketBuilder,
}

impl Read {
    pub fn new(builder: PacketBuilder) -> (r: Self)
        ensures
            r.builder == builder,
    {
        Read { builder }
    }

    /// Build a Block-sized read of one block of a Data-zone slot, at the
    /// address the addressing model assigns it.
    pub fn slot(&mut self, slot: Slot, block: u8) -> (r: Result<Packet, Error>)
        requires
            old(self).builder.wf(),
        ensures
            final(self).builder.wf(),
            r is Ok <==> block < slot.spec_block_count(),
            r is Ok ==> built_with(
                final(self).builder,
                old(self).builder,
                OpCode::Read.spec_value(),
                Zone::Data.spec_encode(Size::Block),
                Zone::spec_slot_addr(slot, block),
                Seq::<u8>::empty(),
            ) && packet_for(r->Ok_0, OpCode::Read, 0),
            r is Err ==> r == Err::<Packet, Error>(Error::OutOfRange) && final(self).builder.buffer@
                == old(self).builder.buffer@,
    {
        let addr = match Zone::Data.get_slot_addr(slot, block) {
            Ok(a) => a,
            Err(e) => {
                return Err(e);
            },
        };
        let mode = Zone::Data.encode(Size::Block);
        self.builder.opcode(OpCode::Read);
        self.builder.mode(mode);
        self.builder.param2(addr);
        self.builder.clear_pdu();
        Ok(self.builder.build())
    }

    /// Build a generic register read across any register zone, at the
    /// address the addressing model assigns to (block, offset).
    pub fn register(&mut self, zone: Zone, size: Size, block: u8, offset: u8) -> (r: Result<
        Packet,
        Error,
    >)
        requires
            old(self).builder.wf(),
        ensures
            final(self).builder.wf(),
            r is Ok <==> zone.spec_register_valid(block, offset),
            r is Ok ==> built_with(
                final(self).builder,
                old(self).builder,
                OpCode::Read.spec_value(),
                zone.spec_encode(size),
                Zone::spec_register_addr(block, offset),
                Seq::<u8>::empty(),
            ) && packet_for(r->Ok_0, OpCode::Read, 0),
            zone == Zone::Data ==> r == Err::<Packet, Error>(Error::BadParam),
            (zone != Zone::Data && !zone.spec_register_valid(block, offset)) ==> r == Err::<
                Packet,
                Error,
            >(Error::OutOfRange),
            r is Err ==> final(self).builder.buffer@ == old(self).builder.buffer@,
    {
        let addr = match zone.get_addr(block, offset) {
            Ok(a) => a,
            Err(e) => {
                return Err(e);
            },
        };
        let mode = zone.encode(size);
        self.builder.opcode(OpCode::Read);
        self.builder.mode(mode);
        self.builder.param2(addr);
        self.builder.clear_pdu();
        Ok(self.builder.build())
    }
}

/// The Write command.
pub struct Write {
    pub builder: PacketBuilder,
}

impl Write {
    pub fn new(builder: PacketBuilder) -> (r: Self)
        ensures
            r.builder == builder,
    {
        Write { builder }
    }

    /// Build a Config-zone write of one word or block at (block, offset).
    /// The payload must be exactly as long as the transfer size; an address
    /// outside the zone's capacity is out of range.
    pub fn config(&mut self, size: Size, block: u8, offset: u8, data: &[u8]) -> (r: Result<
        Packet,
        Error,
    >)
        requires
            old(self).builder.wf(),
        ensures
            final(self).builder.wf(),
            r is Ok <==> (Zone::Config.spec_register_valid(block, offset) && data@.len()
                == size.spec_len() && 8 + data@.len() <= old(self).builder.buffer@.len()),
            r is Ok ==> built_with(
                final(self).builder,
                old(self).builder,
                OpCode::Write.spec_value(),
                Zone::Config.spec_encode(size),
                Zone::spec_register_addr(block, offset),
                data@,
            ) && packet_for(r->Ok_0, OpCode::Write, data@.len()),
            !Zone::Config.spec_register_valid(block, offset) ==> r == Err::<
                Packet,
                Error,
            >(Error::OutOfRange),
            (Zone::Config.spec_register_valid(block, offset) && data@.len() != size.spec_len())
                ==> r == Err::<Packet, Error>(Error::InvalidSize),
            r is Err ==> final(self).builder.buffer@ == old(self).builder.buffer@,
    {
        let addr = match Zone::Config.get_addr(block, offset) {
            Ok(a) => a,
            Err(e) => {
                return Err(e);
            },
        };
        if data.len() != size.len() {
            return Err(Error::InvalidSize);
        }
        let mode = Zone::Config.encode(size);
        self.builder.opcode(OpCode::Write);
        self.builder.mode(mode);
        self.builder.param2(addr);
        match self.builder.pdu_data(data) {
            Ok(()) => {},
            Err(e) => {
                return Err(e);
            },
        }
        Ok(self.builder.build())
    }
}

/// The mode byte of a Lock frame: the zone selector in the low bits, and the
/// top bit set to skip the summary-checksum comparison.
pub open spec fn spec_lock_mode(zone: Zone) -> u8 {
    match zone {
        Zone::Config => 0x80,
        Zone::Data => 0x81,
        Zone::Otp => 0x00,
    }
}

/// The Lock command: the irreversible transition that seals a zone.
pub struct Lock {
    pub builder: PacketBuilder,
}

impl Lock {
    pub fn new(builder: PacketBuilder) -> (r: Self)
        ensures
            r.builder == builder,
    {
        Lock { builder }
    }

    /// Build the frame that permanently locks a zone. The Config zone locks
    /// alone; the Data and OTP zones lock together under the Data selector,
    /// so OTP is rejected as a parameter error.
    pub fn zone(&mut self, zone: Zone) -> (r: Result<Packet, Error>)
        requires
            old(self).builder.wf(),
        ensures
            final(self).builder.wf(),
            r is Ok <==> zone != Zone::Otp,
            r is Ok ==> built_with(
                final(self).builder,
                old(self).builder,
                OpCode::Lock.spec_value(),
                spec_lock_mode(zone),
                0x0000,
                Seq::<u8>::empty(),
            ) && packet_for(r->Ok_0, OpCode::Lock, 0),
            r is Err ==> r == Err::<Packet, Error>(Error::BadParam) && final(self).builder.buffer@
                == old(self).builder.buffer@,
    {
        let mode = match zone {
            Zone::Config => 0x80u8,
            Zone::Data => 0x81u8,
            Zone::Otp => {
                return Err(Error::BadParam);
            },
        };
        self.builder.opcode(OpCode::Lock);
        self.builder.mode(mode);
        self.builder.param2(0);
        self.builder.clear_pdu();
        Ok(self.builder.build())
    }
}

} // verus!
