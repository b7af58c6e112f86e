use vstd::prelude::*;

verus! {

/// Every way the hook or its administration can refuse a call.
///
/// The first three variants are policy violations: the enclosing
/// transfer must be aborted with no partial effects.  `AlreadyExists`
/// is a resource violation at registry creation.  The last two stand
/// for errors of the host ledger that the hook propagates unchanged:
/// a source account whose data does not parse, and instruction data
/// that is not a well-formed transfer-execution instruction.
#[derive(Clone, Copy, Debug, PartialEq, Eq, Structural)]
pub enum TransferError {
    /// The source account's transfer-in-flight flag is not set: the
    /// call does not originate from a genuine asset-layer transfer.
    NotTransferring,
    /// Allow-list enforcement is on and the destination account is not
    /// a member.
    NotWhitelisted,
    /// An administrative call was signed by an identity other than the
    /// registry's authority.
    Unauthorized,
    /// The registry was already created at its well-known address.
    AlreadyExists,
    /// The source account's data is not a valid holding account with a
    /// transfer-hook extension.
    InvalidAccountData,
    /// The instruction data handed to the fallback dispatcher is not a
    /// transfer-execution instruction.
    InvalidInstruction,
}

} // verus!
