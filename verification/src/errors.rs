use vstd::prelude::*;

verus! {

/// The failure taxonomy of the protocol. Every handler rejects with exactly
/// one of these, and a rejected invocation applies no mutation at all.
#[derive(Clone, Copy, Debug, PartialEq, Eq, Structural)]
pub enum EscrowError {
    /// Wrong count or order of accounts handed to an instruction.
    AccountShapeError,
    /// A derived address does not match the supplied account key.
    AddressMismatch,
    /// The record's backing account is already owned by this protocol,
    /// or the account to provision is already occupied.
    AlreadyInitialized,
    /// Record bytes do not parse, or the backing buffer is too short.
    DeserializationFailed,
    /// An owner or authority check failed.
    Unauthorized,
    /// A balance move that the asset or funding collaborator cannot perform.
    InsufficientFunds,
    /// Instruction bytes too short or invalid.
    MalformedPayload,
}

} // verus!
