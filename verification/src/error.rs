//! Error taxonomy for the driver.
//!
//! Every fallible operation reports one of these kinds; there is no silent
//! recovery. Local precondition failures (a bad slot, an oversize payload, a
//! write to a locked zone) are detected before any frame would be handed to
//! the transport.

use vstd::prelude::*;

verus! {

/// The kinds of failure this driver reports.
#[derive(Clone, Copy, Debug, PartialEq, Eq, Structural)]
pub enum Error {
    /// An invalid slot, zone or size combination, caught before transmission.
    BadParam,
    /// A payload length outside the protocol bounds.
    InvalidSize,
    /// An address or index outside the zone's declared capacity.
    OutOfRange,
    /// A response buffer that does not match the expected shape.
    ParseFailure,
    /// An illegal bitfield combination, e.g. encrypt-read set without
    /// is-secret.
    ProtocolViolation,
}

} // verus!
