//! Driver-layer protocol stack for a discrete crypto-authentication element:
//! a secure key-storage co-processor addressed over a narrow command/response
//! bus.
//!
//! The crate covers the command/packet framing layer, the memory-zone
//! addressing model, the per-slot permission words, the per-opcode execution
//! timing table, and the one-shot configuration-lock lifecycle. The physical
//! bus transport and delay primitives are collaborators outside this crate:
//! they transmit the frames built here and hand back response buffers.

pub mod command;
pub mod error;
pub mod memory;
pub mod packet;
pub mod slot_config;
pub mod tngtls;
