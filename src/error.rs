use vstd::prelude::*;

verus! {

/// Every way an instruction of this program can fail.
#[derive(Clone, Copy, Debug, PartialEq, Eq, Structural)]
pub enum MetaBricksError {
    /// The instruction bytes are truncated, hold invalid text or an unknown tag.
    MalformedInstruction,
    /// An account that the instruction requires was not supplied.
    MissingAccount,
    /// An account that must sign the transaction did not.
    MissingSignature,
    /// An account is not owned by the program that must own it.
    WrongOwner,
    /// An account's address is not the one derived from its seeds.
    InvalidDerivation,
    /// An account's data does not hold the record it must hold.
    InvalidAccountData,
    /// The brick id lies outside `1..=432`.
    InvalidBrickId,
    /// The brick has been sold already.
    BrickAlreadySold,
    /// The signer is not the program's authority.
    Unauthorized,
    /// Name, symbol or uri exceed the metadata record's fixed budget.
    MetadataTooLong,
    /// One more sale would overflow the sold count or the revenue.
    CounterOverflow,
    /// A delegated call (mint, metadata, edition or payment) failed.
    DelegatedCallFailed,
}

} // verus!
