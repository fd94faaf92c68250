//! Command frame assembly.
//!
//! A frame is laid out as
//! `[count][opcode][param1][param2_lo][param2_hi][data...][crc_lo][crc_hi]`,
//! where `count` is the total frame length including itself and the two
//! checksum bytes. The checksum is a 16-bit CRC over everything from `count`
//! through the last data byte, with the device's polynomial 0x8005 fed the
//! data bits least-significant first; the device silently drops a frame whose
//! trailing checksum does not match, so every built frame carries one.
//!
//! The builder writes the frame into a caller-supplied buffer, starting at
//! byte 1: byte 0 is left for the transport's lead byte (the bus word
//! address), so the same buffer can be handed to the wire as-is and reused
//! across sequential commands.

use vstd::prelude::*;

use crate::command::OpCode;
use crate::error::Error;

verus! {

/// The largest payload a frame can carry: with the 5 header bytes and the
/// 2 checksum bytes, the one-byte `count` field tops out at a 248-byte
/// payload.
pub const MAX_PDU: usize = 248;

/// The CRC polynomial the device's datasheet fixes for frame checksums.
pub const CRC_POLYNOMIAL: u16 = 0x8005;

/// One step of the CRC register: shift, folding the polynomial in when the
/// incoming data bit differs from the outgoing register bit.
pub open spec fn crc16_bit(crc: u16, bit: bool) -> u16 {
    if bit != ((crc >> 15) == 1) {
        (crc << 1) ^ CRC_POLYNOMIAL
    } else {
        (crc << 1)
    }
}

/// The CRC register after feeding the `n` lowest bits of `byte`,
/// least-significant first.
pub open spec fn crc16_bits(crc: u16, byte: u8, n: nat) -> u16
    decreases n,
{
    if n == 0 {
        crc
    } else {
        crc16_bit(crc16_bits(crc, byte, (n - 1) as nat), ((byte >> ((n - 1) as u8)) & 1) == 1)
    }
}

/// The CRC register after feeding one whole byte.
pub open spec fn crc16_byte(crc: u16, byte: u8) -> u16 {
    crc16_bits(crc, byte, 8)
}

/// The frame checksum of a byte sequence: the CRC register after feeding
/// every byte in order, starting from zero.
pub open spec fn crc16(data: Seq<u8>) -> u16
    decreases data.len(),
{
    if data.len() == 0 {
        0
    } else {
        crc16_byte(crc16(data.drop_last()), data.last())
    }
}

/// Compute the frame checksum of `data`.
pub fn compute_crc16(data: &[u8]) -> (r: u16)
    ensures
        r == crc16(data@),
{
    let mut reg: u16 = 0;
    let mut i: usize = 0;
    while i < data.len()
        invariant
            i <= data@.len(),
            reg == crc16(data@.subrange(0, i as int)),
        decreases data@.len() - i,
    {
        let byte = data[i];
        let ghost prev = reg;
        let mut j: u8 = 0;
        while j < 8
            invariant
                j <= 8,
                i < data@.len(),
                byte == data@[i as int],
                prev == crc16(data@.subrange(0, i as int)),
                reg == crc16_bits(prev, byte, j as nat),
            decreases 8 - j,
        {
            let data_bit = (byte >> j) & 1;
            let crc_bit = reg >> 15;
            let shifted = reg << 1;
            if (data_bit == 1) != (crc_bit == 1) {
                reg = shifted ^ CRC_POLYNOMIAL;
            } else {
                reg = shifted;
            }
            j = j + 1;
        }
        proof {
            assert(data@.subrange(0, i + 1).drop_last() =~= data@.subrange(0, i as int));
            assert(data@.subrange(0, i + 1).last() == data@[i as int]);
        }
        i = i + 1;
    }
    proof {
        assert(data@.subrange(0, data@.len() as int) =~= data@);
    }
    reg
}

/// The checksummed span of a frame: count, opcode, the two parameter fields
/// (param2 little-endian) and the payload.
pub open spec fn frame_body(op: u8, param1: u8, param2: u16, pdu: Seq<u8>) -> Seq<u8> {
    seq![(pdu.len() + 7) as u8, op, param1, (param2 & 0xff) as u8, (param2 >> 8) as u8] + pdu
}

/// A complete frame: the checksummed span followed by its CRC,
/// little-endian.
pub open spec fn frame_bytes(op: u8, param1: u8, param2: u16, pdu: Seq<u8>) -> Seq<u8> {
    frame_body(op, param1, param2, pdu) + seq![
        (crc16(frame_body(op, param1, param2, pdu)) & 0xff) as u8,
        (crc16(frame_body(op, param1, param2, pdu)) >> 8) as u8,
    ]
}

/// A transient description of one built frame: which operation it requests
/// and its `count` byte. The frame's bytes sit in the builder's buffer, from
/// byte 1 through byte `length`.
#[derive(Clone, Copy, Debug, PartialEq, Eq, Structural)]
pub struct Packet {
    pub opcode: OpCode,
    pub length: u8,
}

/// A builder that accumulates opcode, mode, param2 and an optional payload,
/// then emits a finished frame on `build` into the buffer supplied at
/// construction. All fallible checks happen when the payload is supplied;
/// `build` itself is infallible.
pub struct PacketBuilder {
    pub buffer: Vec<u8>,
    pub op: Option<OpCode>,
    pub param1: u8,
    pub param2: u16,
    pub pdu: Vec<u8>,
}

impl PacketBuilder {
    /// Well-formedness: the buffer leaves room for the transport's lead byte
    /// plus an empty-payload frame, and any pending payload still fits.
    pub open spec fn wf(self) -> bool {
        &&& self.buffer@.len() >= 8
        &&& self.pdu@.len() <= MAX_PDU
        &&& 8 + self.pdu@.len() <= self.buffer@.len()
    }

    /// Take ownership of the caller's buffer; the buffer must at least hold
    /// the lead byte and an empty-payload frame.
    pub fn new(buffer: Vec<u8>) -> (r: Self)
        requires
            buffer@.len() >= 8,
        ensures
            r.wf(),
            r.buffer@ == buffer@,
            r.op is None,
            r.param1 == 0,
            r.param2 == 0,
            r.pdu@ == Seq::<u8>::empty(),
    {
        PacketBuilder { buffer, op: None, param1: 0, param2: 0, pdu: Vec::new() }
    }

    /// Read access to the buffer, and so to the most recently built frame.
    pub fn buffer(&self) -> (r: &Vec<u8>)
        ensures
            r@ == self.buffer@,
    {
        &self.buffer
    }

    /// Select the operation the next frame requests.
    pub fn opcode(&mut self, op: OpCode)
        ensures
            final(self).op == Some(op),
            final(self).buffer@ == old(self).buffer@,
            final(self).param1 == old(self).param1,
            final(self).param2 == old(self).param2,
            final(self).pdu@ == old(self).pdu@,
    {
        self.op = Some(op);
    }

    /// Set the mode byte (param1) of the next frame.
    pub fn mode(&mut self, mode: u8)
        ensures
            final(self).param1 == mode,
            final(self).buffer@ == old(self).buffer@,
            final(self).op == old(self).op,
            final(self).param2 == old(self).param2,
            final(self).pdu@ == old(self).pdu@,
    {
        self.param1 = mode;
    }

    /// Set the 16-bit param2 field of the next frame.
    pub fn param2(&mut self, param2: u16)
        ensures
            final(self).param2 == param2,
            final(self).buffer@ == old(self).buffer@,
            final(self).op == old(self).op,
            final(self).param1 == old(self).param1,
            final(self).pdu@ == old(self).pdu@,
    {
        self.param2 = param2;
    }

    /// Drop any pending payload: the next frame carries none.
    pub fn clear_pdu(&mut self)
        ensures
            final(self).pdu@ == Seq::<u8>::empty(),
            final(self).buffer@ == old(self).buffer@,
            final(self).op == old(self).op,
            final(self).param1 == old(self).param1,
            final(self).param2 == old(self).param2,
    {
        self.pdu.clear();
    }

    /// Supply the payload of the next frame. Fails with a size error, and
    /// leaves the builder unchanged, when the payload exceeds the protocol's
    /// maximum data unit or the frame would no longer fit the buffer.
    pub fn pdu_data(&mut self, data: &[u8]) -> (r: Result<(), Error>)
        requires
            old(self).wf(),
        ensures
            final(self).wf(),
            r is Ok <==> (data@.len() <= MAX_PDU && 8 + data@.len() <= old(self).buffer@.len()),
            r is Ok ==> final(self).pdu@ == data@,
            r is Err ==> r == Err::<(), Error>(Error::InvalidSize) && *final(self) == *old(self),
            final(self).buffer@ == old(self).buffer@,
            final(self).op == old(self).op,
            final(self).param1 == old(self).param1,
            final(self).param2 == old(self).param2,
    {
        if data.len() > MAX_PDU || data.len() > self.buffer.len() - 8 {
            return Err(Error::InvalidSize);
        }
        self.pdu.clear();
        self.pdu.extend_from_slice(data);
        Ok(())
    }
}

/// What `build` leaves behind: the frame for (op, param1, param2, pdu)
/// written at byte 1 of the buffer, the lead byte and the bytes past the
/// frame untouched.
pub open spec fn built_with(post: PacketBuilder, pre: PacketBuilder, op: u8, param1: u8, param2: u16, pdu: Seq<u8>) -> bool {
    &&& post.buffer@.len() == pre.buffer@.len()
    &&& 8 + pdu.len() <= post.buffer@.len()
    &&& post.buffer@[0] == pre.buffer@[0]
    &&& post.buffer@.subrange(1, 8 + pdu.len() as int) == frame_bytes(op, param1, param2, pdu)
    &&& forall|k: int|
        8 + pdu.len() <= k < post.buffer@.len() ==> post.buffer@[k] == pre.buffer@[k]
}

/// The packet descriptor a build of `op` over a `pdu_len`-byte payload
/// yields.
pub open spec fn packet_for(p: Packet, op: OpCode, pdu_len: nat) -> bool {
    &&& p.opcode == op
    &&& p.length == pdu_len + 7
}

impl PacketBuilder {
    /// Emit the accumulated frame into the buffer. Infallible by
    /// construction: every fallible check happened when the payload and
    /// parameters were supplied. The pending payload is consumed, so a later
    /// build on the same builder starts from an empty payload.
    pub fn build(&mut self) -> (r: Packet)
        requires
            old(self).wf(),
            old(self).op is Some,
        ensures
            final(self).wf(),
            built_with(
                *final(self),
                *old(self),
                old(self).op->Some_0.spec_value(),
                old(self).param1,
                old(self).param2,
                old(self).pdu@,
            ),
            packet_for(r, old(self).op->Some_0, old(self).pdu@.len()),
            final(self).op == old(self).op,
            final(self).param1 == old(self).param1,
            final(self).param2 == old(self).param2,
            final(self).pdu@ == Seq::<u8>::empty(),
    {
        let op = match self.op {
            Some(o) => o,
            None => {
                proof {
                    assert(false);
                }
                OpCode::Info
            },
        };
        let n = self.pdu.len();
        let count = (n + 7) as u8;

        let mut body: Vec<u8> = Vec::new();
        body.push(count);
        body.push(op.value());
        body.push(self.param1);
        body.push((self.param2 & 0xff) as u8);
        let p2 = self.param2;
        proof {
            assert(p2 >> 8 < 256) by (bit_vector);
        }
        body.push((p2 >> 8) as u8);
        body.extend_from_slice(self.pdu.as_slice());
        proof {
            assert(body@ =~= frame_body(
                op.spec_value(),
                old(self).param1,
                old(self).param2,
                old(self).pdu@,
            ));
        }

        let crc = compute_crc16(body.as_slice());
        let crc_lo = (crc & 0xff) as u8;
        proof {
            assert(crc >> 8 < 256) by (bit_vector);
        }
        let crc_hi = (crc >> 8) as u8;

        let ghost buf0 = self.buffer@;
        let ghost p1v = self.param1;
        let ghost pdu0 = self.pdu@;
        let mut k: usize = 0;
        while k < body.len()
            invariant
                k <= body@.len(),
                body@.len() + 3 <= self.buffer@.len(),
                self.buffer@.len() == buf0.len(),
                self.op == Some(op),
                self.param1 == p1v,
                self.param2 == p2,
                self.pdu@ == pdu0,
                forall|t: int| 1 <= t < 1 + k ==> self.buffer@[t] == body@[t - 1],
                forall|t: int|
                    0 <= t < buf0.len() && !(1 <= t < 1 + k) ==> self.buffer@[t] == buf0[t],
            decreases body@.len() - k,
        {
            let b = body[k];
            self.buffer.set(1 + k, b);
            k = k + 1;
        }
        self.buffer.set(1 + body.len(), crc_lo);
        self.buffer.set(2 + body.len(), crc_hi);

        self.pdu.clear();
        proof {
            let m = old(self).pdu@.len() as int;
            let frame = frame_bytes(
                op.spec_value(),
                old(self).param1,
                old(self).param2,
                old(self).pdu@,
            );
            assert(frame.len() == m + 7);
            assert forall|t: int| 1 <= t < 6 + m implies self.buffer@[t] == frame[t - 1] by {
                assert(self.buffer@[t] == body@[t - 1]);
            }
            assert(self.buffer@[6 + m] == frame[5 + m]);
            assert(self.buffer@[7 + m] == frame[6 + m]);
            assert(self.buffer@.subrange(1, 8 + m) =~= frame);
        }
        Packet { opcode: op, length: count }
    }
}

} // verus!
