//! Errors of the register protocol and of decoding.

use vstd::prelude::*;

verus! {

/// What can go wrong while talking to the controller or decoding its reply.
#[derive(Clone, Copy, Debug, PartialEq, Eq, Structural)]
pub enum Error {
    /// The controller service is absent or the handle could not be opened.
    ResourceUnavailable,
    /// The call was refused for lack of privileges.
    NotPrivileged,
    /// Any other failed call, with the status code it returned.
    ProtocolError(i32),
    /// The controller does not know the key.
    UnknownKey,
    /// The controller announced more payload than the fixed buffer holds.
    OversizedPayload { key: u32, data_size: u32 },
    /// The bytes of a key could not be turned into the value asked for.
    DecodeError { key: u32, tpe: u32 },
    /// A key given as text is not exactly four bytes long.
    InvalidKeyFormat,
}

/// Result of a library operation.
pub type Result<T> = core::result::Result<T, Error>;

} // verus!
