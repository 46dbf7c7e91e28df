use vstd::prelude::*;

verus! {

/// Every way an invocation of this program can fail, as a closed set of
/// variants so that callers and tests can tell which precondition broke.
#[derive(Clone, Copy, Debug, PartialEq, Eq, Structural)]
pub enum EscrowError {
    /// The instruction payload is shorter than nine bytes or its
    /// discriminant byte selects no supported action.
    InvalidInstruction,
    /// The caller supplied fewer account references than the transition
    /// consumes.
    NotEnoughAccounts,
    /// The initializer account is not a transaction signer.
    MissingSignature,
    /// The receiving account is not owned by the token program.
    WrongOwner,
    /// The storage account's balance does not satisfy the rent-exemption
    /// predicate for its data size.
    NotRentExempt,
    /// The rent oracle account could not be read, or its parameters admit no
    /// verdict.
    InvalidRentOracle,
    /// Stored record bytes are not a valid 105-byte encoding.
    InvalidEncoding,
    /// The storage account already holds an initialized record.
    AlreadyInitialized,
    /// No custody authority could be derived for the program identity.
    AuthorityUnavailable,
}

} // verus!
