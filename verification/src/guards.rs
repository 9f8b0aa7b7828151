//! The validation guards: independent, composable checks over account
//! handles and stored record fields, each with its own typed failure. The
//! processor composes them in a fixed order per operation and stops at the
//! first failure.
use crate::codec::stored_authority;
use crate::codec::stored_is_initialized;
use crate::errors::DataStorageError;
use crate::errors::StorageError;
use crate::model::Account;
use crate::model::is_reserved_key;
use crate::model::reserved_key;
use vstd::prelude::*;

verus! {

/// Validity of a byte sequence as UTF-8.
pub uninterp spec fn is_utf8(bytes: Seq<u8>) -> bool;

/// Relies on std's str::from_utf8: Ok exactly when the bytes are valid
/// UTF-8, a function of the bytes alone.
#[verifier::external_body]
pub(crate) fn check_utf8(bytes: &Vec<u8>) -> (r: bool)
    ensures
        r == is_utf8(bytes@),
{
    std::str::from_utf8(bytes.as_slice()).is_ok()
}

/// What the signer-presence guard returns for a signature flag.
pub open spec fn spec_check_signer(is_signer: bool) -> Result<(), StorageError> {
    if is_signer {
        Ok(())
    } else {
        Err(StorageError::MissingRequiredSignature)
    }
}

/// The designated authority handle must carry a verified-signature flag.
pub fn check_account_is_signer(account: &Account) -> (r: Result<(), StorageError>)
    ensures
        r == spec_check_signer(account.is_signer),
{
    if account.is_signer == false {
        return Err(StorageError::MissingRequiredSignature);
    }
    Ok(())
}

/// What the environment-identity guard returns for a key.
pub open spec fn spec_check_system_program(key: Seq<u8>) -> Result<(), StorageError> {
    if key == reserved_key() {
        Ok(())
    } else {
        Err(StorageError::IncorrectProgramId)
    }
}

/// A supplied system-program handle must be the environment's reserved
/// system-program identity.
pub fn check_system_program_account(expected_program_id: &Vec<u8>) -> (r: Result<
    (),
    StorageError,
>)
    ensures
        r == spec_check_system_program(expected_program_id@),
{
    if is_reserved_key(expected_program_id) == false {
        return Err(StorageError::IncorrectProgramId);
    }
    Ok(())
}

/// What the immutability guard returns for a record buffer.
pub open spec fn spec_check_mutable(data: Seq<u8>) -> Result<(), StorageError> {
    if stored_authority(data) == reserved_key() {
        Err(StorageError::Custom(DataStorageError::ImmutableDataStorage))
    } else {
        Ok(())
    }
}

/// A record whose stored authority is the reserved environment key is
/// permanently immutable: reject it.
pub fn check_if_data_storage_account_is_immutable(data_storage_account: &Account) -> (r: Result<
    (),
    StorageError,
>)
    requires
        data_storage_account.data@.len() >= 32,
    ensures
        r == spec_check_mutable(data_storage_account.data@),
{
    let authority = crate::codec::read_authority(&data_storage_account.data);
    if is_reserved_key(&authority) {
        return Err(StorageError::Custom(DataStorageError::ImmutableDataStorage));
    }
    Ok(())
}

/// What the record-ownership guard returns for an owner key.
pub open spec fn spec_check_owner(owner: Seq<u8>, expected: Seq<u8>) -> Result<(), StorageError> {
    if owner == expected {
        Ok(())
    } else {
        Err(StorageError::InvalidAccountOwner)
    }
}

/// A record's owning-program field must equal this program's own identity.
pub fn check_dsa_account_owner(data_storage_account: &Account, expected_owner: &Vec<u8>) -> (r:
    Result<(), StorageError>)
    ensures
        r == spec_check_owner(data_storage_account.owner@, expected_owner@),
{
    if crate::model::bytes_eq(&data_storage_account.owner, expected_owner) == false {
        return Err(StorageError::InvalidAccountOwner);
    }
    Ok(())
}

/// What the initialization guard returns for a record buffer.
pub open spec fn spec_check_initialized(data: Seq<u8>) -> Result<(), StorageError> {
    if stored_is_initialized(data) {
        Ok(())
    } else {
        Err(StorageError::UninitializedAccount)
    }
}

/// A record's initialization flag must be on before Edit or Close act on
/// it.
pub fn check_dsa_account_is_initialized(data_storage_account: &Account) -> (r: Result<
    (),
    StorageError,
>)
    requires
        data_storage_account.data@.len() >= 72,
    ensures
        r == spec_check_initialized(data_storage_account.data@),
{
    if crate::codec::read_is_initialized(&data_storage_account.data) == false {
        return Err(StorageError::UninitializedAccount);
    }
    Ok(())
}

/// What the authority-match guard returns for a record buffer and a
/// signer's key.
pub open spec fn spec_check_authority(data: Seq<u8>, expected: Seq<u8>) -> Result<
    (),
    StorageError,
> {
    if stored_authority(data) == expected {
        Ok(())
    } else {
        Err(StorageError::IncorrectAuthority)
    }
}

/// A record's stored authority must byte-equal the signer's key.
pub fn check_dsa_account_authority(
    data_storage_account: &Account,
    expected_authority_pubkey: &Vec<u8>,
) -> (r: Result<(), StorageError>)
    requires
        data_storage_account.data@.len() >= 32,
    ensures
        r == spec_check_authority(data_storage_account.data@, expected_authority_pubkey@),
{
    let authority = crate::codec::read_authority(&data_storage_account.data);
    if crate::model::bytes_eq(&authority, expected_authority_pubkey) == false {
        return Err(StorageError::IncorrectAuthority);
    }
    Ok(())
}

} // verus!
