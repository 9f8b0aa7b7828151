//! Typed failures of the instruction processor.
use vstd::prelude::*;

verus! {

/// Failures specific to the record store, surfaced by the environment as
/// custom error codes starting at 70.
#[derive(Clone, Copy, Debug, PartialEq, Eq, Structural)]
pub enum DataStorageError {
    /// The record's authority is the reserved environment key: it can never
    /// be edited or closed.
    ImmutableDataStorage,
    /// The address-derivation function found no usable disambiguation nonce.
    FailedToFindProgramAddress,
    /// The label bytes of a Create instruction are not valid UTF-8.
    InvalidLabel,
    /// The instruction payload is malformed: too short to carry a label, or
    /// too long for the 16-bit payload-length field.
    InvalidData,
}

impl DataStorageError {
    /// The numeric code under which the environment reports this failure.
    pub open spec fn spec_code(self) -> u32 {
        match self {
            DataStorageError::ImmutableDataStorage => 70,
            DataStorageError::FailedToFindProgramAddress => 71,
            DataStorageError::InvalidLabel => 72,
            DataStorageError::InvalidData => 73,
        }
    }

    /// Returns the numeric code under which the environment reports this
    /// failure.
    pub fn code(&self) -> (c: u32)
        ensures
            c == self.spec_code(),
    {
        match self {
            DataStorageError::ImmutableDataStorage => 70,
            DataStorageError::FailedToFindProgramAddress => 71,
            DataStorageError::InvalidLabel => 72,
            DataStorageError::InvalidData => 73,
        }
    }
}

/// Every way an operation can fail. The first group mirrors the environment's
/// own failure codes; `Custom` carries the store's own codes.
#[derive(Clone, Copy, Debug, PartialEq, Eq, Structural)]
pub enum StorageError {
    /// The instruction bytes are empty or start with an unknown discriminator.
    InvalidInstructionData,
    /// An operation pulled more account handles than were supplied.
    NotEnoughAccountKeys,
    /// The designated authority did not sign the transaction.
    MissingRequiredSignature,
    /// The supplied system-program handle is not the environment's reserved
    /// system-program identity.
    IncorrectProgramId,
    /// The target address disagrees with the address derived from
    /// (authority, label) at creation.
    InvalidSeeds,
    /// The record is not owned by this program, so its bytes cannot be
    /// trusted.
    InvalidAccountOwner,
    /// The record's bytes are inconsistent with the layout, or its stored
    /// seeds re-derive to a different address.
    InvalidAccountData,
    /// The signer's key does not match the record's stored authority.
    IncorrectAuthority,
    /// The record's initialization flag is off: it was closed or never
    /// created.
    UninitializedAccount,
    /// The target address is already occupied by a live account.
    AccountAlreadyInUse,
    /// The funding account cannot cover the required deposit.
    InsufficientFunds,
    /// A deposit computation or balance transfer would overflow or
    /// underflow; conservation of value forbids wrapping.
    ArithmeticOverflow,
    /// A failure specific to the record store.
    Custom(DataStorageError),
}

} // verus!
