//! The address-derivation adapter.
//!
//! A record's canonical address is a deterministic function of the namespace
//! seed, the authority key, the label and the owning program's identity; a
//! one-byte disambiguation nonce ("bump") is searched for so that the
//! address falls outside the environment's own keyspace. The environment's
//! derivation function is called through trusted wrappers; its results are
//! named by uninterpreted spec functions, since the underlying hash has no
//! short statement.
use crate::errors::DataStorageError;
use crate::errors::StorageError;
use crate::model::bytes_eq;
use vstd::prelude::*;

verus! {

/// The namespace seed every record address derivation starts with: the
/// bytes of "data_storage_account".
pub open spec fn spec_namespace() -> Seq<u8> {
    seq![
        100u8, 97u8, 116u8, 97u8, 95u8, 115u8, 116u8, 111u8, 114u8, 97u8, 103u8, 101u8, 95u8,
        97u8, 99u8, 99u8, 111u8, 117u8, 110u8, 116u8,
    ]
}

/// Returns the namespace seed as bytes.
pub fn namespace_bytes() -> (r: Vec<u8>)
    ensures
        r@ == spec_namespace(),
{
    let mut out: Vec<u8> = Vec::new();
    out.push(100u8);
    out.push(97u8);
    out.push(116u8);
    out.push(97u8);
    out.push(95u8);
    out.push(115u8);
    out.push(116u8);
    out.push(111u8);
    out.push(114u8);
    out.push(97u8);
    out.push(103u8);
    out.push(101u8);
    out.push(95u8);
    out.push(97u8);
    out.push(99u8);
    out.push(99u8);
    out.push(111u8);
    out.push(117u8);
    out.push(110u8);
    out.push(116u8);
    assert(out@ =~= spec_namespace());
    out
}

/// What the environment's bump search returns for the seed triple
/// (namespace, authority, label) under a program id: the canonical
/// (address, bump), or nothing when no nonce in range works.
pub uninterp spec fn derived_address_lookup(
    namespace: Seq<u8>,
    authority: Seq<u8>,
    label: Seq<u8>,
    program_id: Seq<u8>,
) -> Option<(Seq<u8>, u8)>;

/// What the environment's derivation function returns for the seed triple
/// plus an explicit bump: the derived address, or nothing when the derived
/// bytes fall inside the environment's own keyspace.
pub uninterp spec fn derived_address_at(
    namespace: Seq<u8>,
    authority: Seq<u8>,
    label: Seq<u8>,
    bump: u8,
    program_id: Seq<u8>,
) -> Option<Seq<u8>>;

/// Relies on solana_program's Pubkey::try_find_program_address: a
/// deterministic function of the seeds and the program id that scans bumps
/// from 255 downward and returns the first (address, bump) whose derivation
/// succeeds; by its source, create_program_address on the same seeds plus
/// the returned bump then returns the returned address.
#[verifier::external_body]
fn find_program_address_raw(
    namespace: &Vec<u8>,
    authority: &Vec<u8>,
    label: &Vec<u8>,
    program_id: &Vec<u8>,
) -> (r: Option<(Vec<u8>, u8)>)
    requires
        program_id@.len() == 32,
    ensures
        r matches Some(p) ==> {
            &&& derived_address_lookup(namespace@, authority@, label@, program_id@) == Some(
                (p.0@, p.1),
            )
            &&& derived_address_at(namespace@, authority@, label@, p.1, program_id@) == Some(p.0@)
            &&& p.0@.len() == 32
        },
        r is None ==> derived_address_lookup(namespace@, authority@, label@, program_id@) is None,
{
    let pid = solana_program::pubkey::Pubkey::try_from(program_id.as_slice()).unwrap();
    let seeds: [&[u8]; 3] = [namespace.as_slice(), authority.as_slice(), label.as_slice()];
    solana_program::pubkey::Pubkey::try_find_program_address(&seeds, &pid).map(
        |p: (solana_program::pubkey::Pubkey, u8)| (p.0.to_bytes().to_vec(), p.1),
    )
}

/// Relies on solana_program's Pubkey::create_program_address: a
/// deterministic function of the seeds (here: namespace, authority, label,
/// bump) and the program id; an error when the derived bytes form a valid
/// key of the environment's own keyspace or a seed is out of range.
#[verifier::external_body]
fn create_program_address_raw(
    namespace: &Vec<u8>,
    authority: &Vec<u8>,
    label: &Vec<u8>,
    bump: u8,
    program_id: &Vec<u8>,
) -> (r: Option<Vec<u8>>)
    requires
        program_id@.len() == 32,
    ensures
        r matches Some(a) ==> derived_address_at(namespace@, authority@, label@, bump, program_id@)
            == Some(a@) && a@.len() == 32,
        r is None ==> derived_address_at(namespace@, authority@, label@, bump, program_id@)
            is None,
{
    let pid = solana_program::pubkey::Pubkey::try_from(program_id.as_slice()).unwrap();
    let bump_seed: [u8; 1] = [bump];
    let seeds: [&[u8]; 4] = [
        namespace.as_slice(),
        authority.as_slice(),
        label.as_slice(),
        &bump_seed,
    ];
    match solana_program::pubkey::Pubkey::create_program_address(&seeds, &pid) {
        Ok(a) => Some(a.to_bytes().to_vec()),
        Err(_) => None,
    }
}

/// The canonical derivation for (authority, label) under a program id.
pub open spec fn spec_derive(authority: Seq<u8>, label: Seq<u8>, program_id: Seq<u8>) -> Option<
    (Seq<u8>, u8),
> {
    derived_address_lookup(spec_namespace(), authority, label, program_id)
}

/// What verifying an explicit (authority, label, bump) against an expected
/// address returns: the derivation's failure, an address mismatch, or
/// success.
pub open spec fn spec_verify_address(
    authority: Seq<u8>,
    label: Seq<u8>,
    bump: u8,
    program_id: Seq<u8>,
    expected: Seq<u8>,
) -> Result<(), StorageError> {
    match derived_address_at(spec_namespace(), authority, label, bump, program_id) {
        Option::None => Err(StorageError::Custom(DataStorageError::FailedToFindProgramAddress)),
        Option::Some(a) => if a == expected {
            Ok(())
        } else {
            Err(StorageError::InvalidAccountData)
        },
    }
}

/// Derives the canonical (address, bump) of the record identified by
/// (authority, label). Deterministic: the result equals `spec_derive` of the
/// inputs, and verifying the returned bump against the returned address is
/// guaranteed to succeed.
pub fn derive_record_address(authority: &Vec<u8>, label: &Vec<u8>, program_id: &Vec<u8>) -> (r:
    Result<(Vec<u8>, u8), StorageError>)
    requires
        program_id@.len() == 32,
    ensures
        r matches Ok(p) ==> {
            &&& spec_derive(authority@, label@, program_id@) == Some((p.0@, p.1))
            &&& spec_verify_address(authority@, label@, p.1, program_id@, p.0@) == Ok::<
                (),
                StorageError,
            >(())
            &&& p.0@.len() == 32
        },
        r matches Err(e) ==> {
            &&& spec_derive(authority@, label@, program_id@) is None
            &&& e == StorageError::Custom(DataStorageError::FailedToFindProgramAddress)
        },
{
    let ns = namespace_bytes();
    match find_program_address_raw(&ns, authority, label, program_id) {
        Option::Some(p) => Ok(p),
        Option::None => Err(StorageError::Custom(DataStorageError::FailedToFindProgramAddress)),
    }
}

/// Recomputes the address from explicit seeds (including a supplied bump)
/// and compares it with the expected address.
pub fn create_and_check_program_address(
    authority: &Vec<u8>,
    label: &Vec<u8>,
    bump: u8,
    program_id: &Vec<u8>,
    expected: &Vec<u8>,
) -> (r: Result<(), StorageError>)
    requires
        program_id@.len() == 32,
    ensures
        r == spec_verify_address(authority@, label@, bump, program_id@, expected@),
{
    let ns = namespace_bytes();
    match create_program_address_raw(&ns, authority, label, bump, program_id) {
        Option::None => Err(StorageError::Custom(DataStorageError::FailedToFindProgramAddress)),
        Option::Some(a) => {
            if bytes_eq(&a, expected) {
                Ok(())
            } else {
                Err(StorageError::InvalidAccountData)
            }
        },
    }
}

} // verus!
