//! The instruction processor: the per-record state machine.
//!
//! An operation is a pure function from the program's identity, the ordered
//! list of account handles, the raw instruction bytes and the environment
//! parameters to the new account states and a result. The host environment
//! applies the returned states only as a whole; on any failure it discards
//! every partial mutation, and the functions here return the account list
//! unchanged alongside the error.
//!
//! The model of each operation is a spec function (`spec_create`,
//! `spec_edit`, `spec_close`, dispatched by `spec_process`); each exec
//! function is proved to return exactly what its model says.
use crate::address::spec_derive;
use crate::address::spec_verify_address;
use crate::address::create_and_check_program_address;
use crate::address::derive_record_address;
use crate::codec::DATA_OFFSET;
use crate::codec::IS_INITIALIZED_OFFSET;
use crate::codec::AUTHORITY_OFFSET;
use crate::codec::BUMP_OFFSET;
use crate::codec::DATA_LENGTH_OFFSET;
use crate::codec::LABEL_OFFSET;
use crate::codec::apply_edit_bytes;
use crate::codec::lemma_u64_zero_le_bytes;
use crate::codec::write_range;
use crate::codec::read_bump;
use crate::codec::read_data_length;
use crate::codec::read_label;
use crate::codec::record_well_formed;
use crate::codec::spec_edited_bytes;
use crate::codec::spec_record_bytes;
use crate::codec::stored_authority;
use crate::codec::stored_bump;
use crate::codec::stored_data_length;
use crate::codec::stored_is_initialized;
use crate::codec::stored_label;
use crate::errors::DataStorageError;
use crate::errors::StorageError;
use crate::guards::check_account_is_signer;
use crate::guards::check_dsa_account_authority;
use crate::guards::check_dsa_account_is_initialized;
use crate::guards::check_dsa_account_owner;
use crate::guards::check_if_data_storage_account_is_immutable;
use crate::guards::check_system_program_account;
use crate::guards::check_utf8;
use crate::guards::is_utf8;
use crate::model::Account;
use crate::model::AccountView;
use crate::model::EnvParams;
use crate::model::EventView;
use crate::model::Events;
use crate::model::bytes_eq;
use crate::model::clone_bytes;
use crate::model::is_reserved_key;
use crate::model::reserved_key;
use crate::model::wf_account;
use crate::rent::calculate_extra_rent_exempt_lamports;
use crate::rent::spec_extra_rent_lamports;
use vstd::bytes::lemma_auto_spec_u16_to_from_le_bytes;
use vstd::bytes::lemma_auto_spec_u64_to_from_le_bytes;
use vstd::bytes::u16_to_le_bytes;
use vstd::prelude::*;

verus! {

/// What an operation leaves behind in the model: the account states and the
/// result. On an error the account states are the inputs unchanged: the
/// host environment commits nothing of a failed operation.
#[verifier::ext_equal]
pub struct SpecOutcome {
    pub accounts: Seq<AccountView>,
    pub result: Result<EventView, StorageError>,
}

/// An operation that failed: accounts unchanged, a typed failure.
pub open spec fn spec_fail(accs: Seq<AccountView>, e: StorageError) -> SpecOutcome {
    SpecOutcome { accounts: accs, result: Err(e) }
}

/// The view of an exec result against the model's.
pub open spec fn spec_result_view(r: Result<Events, StorageError>) -> Result<
    EventView,
    StorageError,
> {
    match r {
        Ok(e) => Ok(e.deep_view()),
        Err(s) => Err(s),
    }
}

/// The environment's account-creation sequence in the model: top the
/// target up to the environment's minimum balance from the fee payer,
/// then allocate `space` zeroed bytes at it and assign ownership to this
/// program. Fails when the fee payer cannot cover the top-up, or when the
/// target is still a live account — the environment treats only a
/// zero-balance or empty account as available.
pub open spec fn spec_create_pda(
    target: AccountView,
    fee_payer: AccountView,
    space: int,
    program_id: Seq<u8>,
    rent_minimum_balance: u64,
) -> Result<(AccountView, AccountView), StorageError> {
    let needed: int = if target.lamports < rent_minimum_balance {
        rent_minimum_balance - target.lamports
    } else {
        0
    };
    if fee_payer.lamports < needed {
        Err(StorageError::InsufficientFunds)
    } else if !(target.data.len() == 0 || target.lamports == 0) {
        Err(StorageError::AccountAlreadyInUse)
    } else {
        Ok(
            (
                AccountView {
                    lamports: (target.lamports + needed) as u64,
                    data: Seq::new(space as nat, |i: int| 0u8),
                    owner: program_id,
                    ..target
                },
                AccountView { lamports: (fee_payer.lamports - needed) as u64, ..fee_payer },
            ),
        )
    }
}

/// Makes the target a fresh, program-owned buffer of `space` zero bytes,
/// funded to the environment's minimum balance from the fee payer: the
/// model of the environment's transfer, allocate and assign sequence.
/// On an error neither account changes.
pub fn create_pda_account(
    new_pda_account: &mut Account,
    fee_payer_account: &mut Account,
    space: usize,
    program_id: &Vec<u8>,
    rent_minimum_balance: u64,
) -> (r: Result<(), StorageError>)
    ensures
        ({
            let outcome = spec_create_pda(
                old(new_pda_account).deep_view(),
                old(fee_payer_account).deep_view(),
                space as int,
                program_id@,
                rent_minimum_balance,
            );
            match outcome {
                Ok(pair) => {
                    &&& r is Ok
                    &&& final(new_pda_account).deep_view() == pair.0
                    &&& final(fee_payer_account).deep_view() == pair.1
                },
                Err(e) => {
                    &&& r == Err::<(), StorageError>(e)
                    &&& *final(new_pda_account) == *old(new_pda_account)
                    &&& *final(fee_payer_account) == *old(fee_payer_account)
                },
            }
        }),
{
    let needed: u64 = if new_pda_account.lamports < rent_minimum_balance {
        rent_minimum_balance - new_pda_account.lamports
    } else {
        0
    };
    if fee_payer_account.lamports < needed {
        return Err(StorageError::InsufficientFunds);
    }
    let target_is_blank = new_pda_account.data.len() == 0;
    if !(target_is_blank || new_pda_account.lamports == 0) {
        return Err(StorageError::AccountAlreadyInUse);
    }
    new_pda_account.lamports = new_pda_account.lamports + needed;
    fee_payer_account.lamports = fee_payer_account.lamports - needed;
    new_pda_account.data = crate::codec::zero_bytes(space);
    new_pda_account.owner = clone_bytes(program_id);
    proof {
        let outcome = spec_create_pda(
            old(new_pda_account).deep_view(),
            old(fee_payer_account).deep_view(),
            space as int,
            program_id@,
            rent_minimum_balance,
        );
        assert(new_pda_account.deep_view() =~= outcome->Ok_0.0);
    }
    Ok(())
}

/// The Create operation in the model. Accounts: target address, authority,
/// funding source, system-program reference. Instruction payload: a
/// fixed 30-byte label followed by the record's initial payload. On
/// success the target holds a fresh record buffer, is owned by this
/// program, and has been topped up to the environment's minimum balance
/// from the funding source.
pub open spec fn spec_create(
    program_id: Seq<u8>,
    accs: Seq<AccountView>,
    ix_data: Seq<u8>,
    env: EnvParams,
) -> SpecOutcome {
    if accs.len() < 4 {
        spec_fail(accs, StorageError::NotEnoughAccountKeys)
    } else {
        let target = accs[0];
        let authority = accs[1];
        let funder = accs[2];
        let sys = accs[3];
        if sys.key != reserved_key() {
            spec_fail(accs, StorageError::IncorrectProgramId)
        } else if authority.key != reserved_key() && !authority.is_signer {
            spec_fail(accs, StorageError::MissingRequiredSignature)
        } else if ix_data.len() < 30 {
            spec_fail(accs, StorageError::Custom(DataStorageError::InvalidData))
        } else {
            let label = ix_data.subrange(0, 30);
            let payload = ix_data.skip(30);
            if !is_utf8(label) {
                spec_fail(accs, StorageError::Custom(DataStorageError::InvalidLabel))
            } else if payload.len() > 65535 {
                spec_fail(accs, StorageError::Custom(DataStorageError::InvalidData))
            } else {
                match spec_derive(authority.key, label, program_id) {
                    Option::None => spec_fail(
                        accs,
                        StorageError::Custom(DataStorageError::FailedToFindProgramAddress),
                    ),
                    Option::Some(derived) => {
                        if derived.0 != target.key {
                            spec_fail(accs, StorageError::InvalidSeeds)
                        } else {
                            match spec_create_pda(
                                target,
                                funder,
                                74 + payload.len() as int,
                                program_id,
                                env.rent_minimum_balance,
                            ) {
                                Err(e) => spec_fail(accs, e),
                                Ok(pair) => {
                                    let new_target = AccountView {
                                        data: spec_record_bytes(
                                            authority.key,
                                            label,
                                            0,
                                            derived.1,
                                            true,
                                            payload,
                                        ),
                                        ..pair.0
                                    };
                                    SpecOutcome {
                                        accounts: accs.update(0, new_target).update(2, pair.1),
                                        result: Ok(
                                            EventView::NewDataStorageAccountCreated {
                                                data_storage_account: target.key,
                                                authority_account: authority.key,
                                                account_label: label,
                                            },
                                        ),
                                    }
                                },
                            }
                        }
                    },
                }
            }
        }
    }
}

/// Creates and initializes a record at its derived address: verifies the
/// system-program identity and (for a mutable record) the authority's
/// signature, validates the label, re-derives the target address, funds
/// the target to the environment's minimum balance, and writes the record
/// buffer. Exactly the model's `spec_create` of the inputs.
pub fn process_create(
    program_id: &Vec<u8>,
    accounts: &mut Vec<Account>,
    ix_data: &Vec<u8>,
    env: &EnvParams,
) -> (r: Result<Events, StorageError>)
    requires
        program_id@.len() == 32,
        forall|i: int| 0 <= i < old(accounts)@.len() ==> wf_account(
            #[trigger] old(accounts)@[i].deep_view(),
        ),
    ensures
        ({
            let outcome = spec_create(program_id@, old(accounts).deep_view(), ix_data@, *env);
            &&& final(accounts).deep_view() == outcome.accounts
            &&& spec_result_view(r) == outcome.result
        }),
{
    if accounts.len() < 4 {
        return Err(StorageError::NotEnoughAccountKeys);
    }
    match check_system_program_account(&accounts[3].key) {
        Err(e) => {
            return Err(e);
        },
        Ok(_) => {},
    }
    let authority_is_reserved = is_reserved_key(&accounts[1].key);
    if !authority_is_reserved {
        match check_account_is_signer(&accounts[1]) {
            Err(e) => {
                return Err(e);
            },
            Ok(_) => {},
        }
    }
    if ix_data.len() < crate::MAX_LABEL_LENGTH {
        return Err(StorageError::Custom(DataStorageError::InvalidData));
    }
    let label = crate::codec::read_range(ix_data, 0, crate::MAX_LABEL_LENGTH);
    let payload = crate::codec::read_range(ix_data, crate::MAX_LABEL_LENGTH, ix_data.len());
    if !check_utf8(&label) {
        return Err(StorageError::Custom(DataStorageError::InvalidLabel));
    }
    if payload.len() > crate::MAX_DATA_LENGTH {
        return Err(StorageError::Custom(DataStorageError::InvalidData));
    }
    let authority_key = clone_bytes(&accounts[1].key);
    let derived = match derive_record_address(&authority_key, &label, program_id) {
        Ok(p) => p,
        Err(e) => {
            return Err(e);
        },
    };
    let dsa_address = derived.0;
    let dsa_bump = derived.1;
    if !bytes_eq(&dsa_address, &accounts[0].key) {
        return Err(StorageError::InvalidSeeds);
    }
    let mut target = accounts.remove(0);
    let mut funder = accounts.remove(1);
    let account_size = DATA_OFFSET + payload.len();
    match create_pda_account(&mut target, &mut funder, account_size, program_id, env.rent_minimum_balance) {
        Err(e) => {
            accounts.insert(0, target);
            accounts.insert(2, funder);
            proof {
                assert(accounts@ =~= old(accounts)@);
            }
            return Err(e);
        },
        Ok(_) => {},
    }
    // Initialize the freshly allocated buffer field by field; the
    // timestamp stays zero, as the fresh buffer already carries it.
    write_range(&mut target.data, AUTHORITY_OFFSET, &authority_key);
    write_range(&mut target.data, LABEL_OFFSET, &label);
    target.data.set(BUMP_OFFSET, dsa_bump);
    target.data.set(IS_INITIALIZED_OFFSET, 1u8);
    let len_bytes = u16_to_le_bytes(payload.len() as u16);
    write_range(&mut target.data, DATA_LENGTH_OFFSET, &len_bytes);
    if payload.len() > 0 {
        write_range(&mut target.data, DATA_OFFSET, &payload);
    }
    proof {
        lemma_auto_spec_u16_to_from_le_bytes();
        lemma_auto_spec_u64_to_from_le_bytes();
        lemma_u64_zero_le_bytes();
        assert(target.data@ =~= spec_record_bytes(
            authority_key@,
            label@,
            0,
            dsa_bump,
            true,
            payload@,
        ));
    }
    accounts.insert(0, target);
    accounts.insert(2, funder);
    proof {
        let outcome = spec_create(program_id@, old(accounts).deep_view(), ix_data@, *env);
        assert(accounts.deep_view() =~~= outcome.accounts);
    }
    Ok(
        Events::NewDataStorageAccountCreated {
            data_storage_account: dsa_address,
            authority_account: authority_key,
            account_label: label,
        },
    )
}

/// The Edit operation in the model, after its guards have passed: the
/// record's buffer is rewritten with the new timestamp and payload, and
/// the deposit delta moves between the record and its counterpart account
/// when the size changes. Accounts: record, authority signer, then —
/// only when the payload shrinks — a deposit receiver, or — only when it
/// grows — a funding source and a system-program reference.
pub open spec fn spec_edit_sized(
    accs: Seq<AccountView>,
    payload: Seq<u8>,
    env: EnvParams,
) -> SpecOutcome {
    let record = accs[0];
    let authority = accs[1];
    let old_len: int = stored_data_length(record.data) as int;
    let new_len: int = payload.len() as int;
    let edited = spec_edited_bytes(record.data, env.current_time, payload);
    let event = EventView::DataStorageAccountEdited {
        data_storage_account: record.key,
        authority_account: authority.key,
        old_data_len: old_len as usize,
        new_data_len: new_len as usize,
    };
    if new_len == old_len {
        let new_record = AccountView { data: edited, ..record };
        SpecOutcome { accounts: accs.update(0, new_record), result: Ok(event) }
    } else if new_len < old_len {
        match spec_extra_rent_lamports(
            old_len,
            new_len,
            env.lamports_per_byte_year,
            env.exemption_threshold,
        ) {
            Err(e) => spec_fail(accs, e),
            Ok(delta) => {
                if accs.len() < 3 {
                    spec_fail(accs, StorageError::NotEnoughAccountKeys)
                } else {
                    let receiver = accs[2];
                    if record.lamports < delta {
                        spec_fail(accs, StorageError::ArithmeticOverflow)
                    } else if receiver.lamports + delta > u64::MAX {
                        spec_fail(accs, StorageError::ArithmeticOverflow)
                    } else {
                        let new_record = AccountView {
                            data: edited,
                            lamports: (record.lamports - delta) as u64,
                            ..record
                        };
                        let new_receiver = AccountView {
                            lamports: (receiver.lamports + delta) as u64,
                            ..receiver
                        };
                        SpecOutcome {
                            accounts: accs.update(0, new_record).update(2, new_receiver),
                            result: Ok(event),
                        }
                    }
                }
            },
        }
    } else {
        if new_len > 65535 {
            spec_fail(accs, StorageError::Custom(DataStorageError::InvalidData))
        } else {
            match spec_extra_rent_lamports(
                old_len,
                new_len,
                env.lamports_per_byte_year,
                env.exemption_threshold,
            ) {
                Err(e) => spec_fail(accs, e),
                Ok(delta) => {
                    if accs.len() < 4 {
                        spec_fail(accs, StorageError::NotEnoughAccountKeys)
                    } else {
                        let funder = accs[2];
                        let sys = accs[3];
                        if sys.key != reserved_key() {
                            spec_fail(accs, StorageError::IncorrectProgramId)
                        } else if funder.lamports < delta {
                            spec_fail(accs, StorageError::InsufficientFunds)
                        } else if record.lamports + delta > u64::MAX {
                            spec_fail(accs, StorageError::ArithmeticOverflow)
                        } else {
                            let new_record = AccountView {
                                data: edited,
                                lamports: (record.lamports + delta) as u64,
                                ..record
                            };
                            let new_funder = AccountView {
                                lamports: (funder.lamports - delta) as u64,
                                ..funder
                            };
                            SpecOutcome {
                                accounts: accs.update(0, new_record).update(2, new_funder),
                                result: Ok(event),
                            }
                        }
                    }
                },
            }
        }
    }
}

/// The Edit operation in the model: the guards in their fixed order, then
/// the size-dependent rewrite of `spec_edit_sized`.
pub open spec fn spec_edit(
    program_id: Seq<u8>,
    accs: Seq<AccountView>,
    payload: Seq<u8>,
    env: EnvParams,
) -> SpecOutcome {
    if accs.len() < 2 {
        spec_fail(accs, StorageError::NotEnoughAccountKeys)
    } else {
        let record = accs[0];
        let authority = accs[1];
        if record.data.len() < 74 || !record_well_formed(record.data) {
            spec_fail(accs, StorageError::InvalidAccountData)
        } else if stored_authority(record.data) == reserved_key() {
            spec_fail(accs, StorageError::Custom(DataStorageError::ImmutableDataStorage))
        } else if !authority.is_signer {
            spec_fail(accs, StorageError::MissingRequiredSignature)
        } else if record.owner != program_id {
            spec_fail(accs, StorageError::InvalidAccountOwner)
        } else if !stored_is_initialized(record.data) {
            spec_fail(accs, StorageError::UninitializedAccount)
        } else if stored_authority(record.data) != authority.key {
            spec_fail(accs, StorageError::IncorrectAuthority)
        } else {
            match spec_verify_address(
                authority.key,
                stored_label(record.data),
                stored_bump(record.data),
                program_id,
                record.key,
            ) {
                Err(e) => spec_fail(accs, e),
                Ok(_) => spec_edit_sized(accs, payload, env),
            }
        }
    }
}

/// Edits a record: after the guards and the address re-derivation pass,
/// stamps the timestamp, writes the new payload, resizes the buffer, and
/// settles the deposit delta — refunded to the receiver on a shrink,
/// collected from the funding source on a growth, no transfer at equal
/// size. Exactly the model's `spec_edit` of the inputs.
pub fn process_edit(
    program_id: &Vec<u8>,
    accounts: &mut Vec<Account>,
    payload: &Vec<u8>,
    env: &EnvParams,
) -> (r: Result<Events, StorageError>)
    requires
        program_id@.len() == 32,
        forall|i: int| 0 <= i < old(accounts)@.len() ==> wf_account(
            #[trigger] old(accounts)@[i].deep_view(),
        ),
    ensures
        ({
            let outcome = spec_edit(program_id@, old(accounts).deep_view(), payload@, *env);
            &&& final(accounts).deep_view() == outcome.accounts
            &&& spec_result_view(r) == outcome.result
        }),
{
    if accounts.len() < 2 {
        return Err(StorageError::NotEnoughAccountKeys);
    }
    let data_len_ok = { accounts[0].data.len() >= DATA_OFFSET };
    if !data_len_ok {
        return Err(StorageError::InvalidAccountData);
    }
    let old_len_u16 = read_data_length(&accounts[0].data);
    let old_len: usize = old_len_u16 as usize;
    if accounts[0].data.len() != DATA_OFFSET + old_len {
        return Err(StorageError::InvalidAccountData);
    }
    match check_if_data_storage_account_is_immutable(&accounts[0]) {
        Err(e) => {
            return Err(e);
        },
        Ok(_) => {},
    }
    match check_account_is_signer(&accounts[1]) {
        Err(e) => {
            return Err(e);
        },
        Ok(_) => {},
    }
    match check_dsa_account_owner(&accounts[0], program_id) {
        Err(e) => {
            return Err(e);
        },
        Ok(_) => {},
    }
    match check_dsa_account_is_initialized(&accounts[0]) {
        Err(e) => {
            return Err(e);
        },
        Ok(_) => {},
    }
    let authority_key = clone_bytes(&accounts[1].key);
    match check_dsa_account_authority(&accounts[0], &authority_key) {
        Err(e) => {
            return Err(e);
        },
        Ok(_) => {},
    }
    let label = read_label(&accounts[0].data);
    let bump = read_bump(&accounts[0].data);
    let record_key = clone_bytes(&accounts[0].key);
    match create_and_check_program_address(&authority_key, &label, bump, program_id, &record_key) {
        Err(e) => {
            return Err(e);
        },
        Ok(_) => {},
    }
    let new_len: usize = payload.len();
    let current_time = env.current_time;
    let event = Events::DataStorageAccountEdited {
        data_storage_account: record_key,
        authority_account: authority_key,
        old_data_len: old_len,
        new_data_len: new_len,
    };
    if new_len == old_len {
        let mut record = accounts.remove(0);
        apply_edit_bytes(&mut record.data, current_time, payload);
        accounts.insert(0, record);
        proof {
            let outcome = spec_edit(program_id@, old(accounts).deep_view(), payload@, *env);
            assert(accounts.deep_view() =~~= outcome.accounts);
        }
        Ok(event)
    } else if new_len < old_len {
        let delta = match calculate_extra_rent_exempt_lamports(
            old_len,
            new_len,
            false,
            env.lamports_per_byte_year,
            env.exemption_threshold,
        ) {
            Ok(d) => d,
            Err(e) => {
                return Err(e);
            },
        };
        if accounts.len() < 3 {
            return Err(StorageError::NotEnoughAccountKeys);
        }
        let record_lamports = accounts[0].lamports;
        if record_lamports < delta {
            return Err(StorageError::ArithmeticOverflow);
        }
        let receiver_lamports = accounts[2].lamports;
        let new_receiver_lamports = match receiver_lamports.checked_add(delta) {
            Option::Some(v) => v,
            Option::None => {
                return Err(StorageError::ArithmeticOverflow);
            },
        };
        let mut record = accounts.remove(0);
        apply_edit_bytes(&mut record.data, current_time, payload);
        record.lamports = record_lamports - delta;
        accounts.insert(0, record);
        let mut receiver = accounts.remove(2);
        receiver.lamports = new_receiver_lamports;
        accounts.insert(2, receiver);
        proof {
            let outcome = spec_edit(program_id@, old(accounts).deep_view(), payload@, *env);
            assert(accounts.deep_view() =~~= outcome.accounts);
        }
        Ok(event)
    } else {
        if new_len > crate::MAX_DATA_LENGTH {
            return Err(StorageError::Custom(DataStorageError::InvalidData));
        }
        let delta = match calculate_extra_rent_exempt_lamports(
            old_len,
            new_len,
            true,
            env.lamports_per_byte_year,
            env.exemption_threshold,
        ) {
            Ok(d) => d,
            Err(e) => {
                return Err(e);
            },
        };
        if accounts.len() < 4 {
            return Err(StorageError::NotEnoughAccountKeys);
        }
        match check_system_program_account(&accounts[3].key) {
            Err(e) => {
                return Err(e);
            },
            Ok(_) => {},
        }
        let funder_lamports = accounts[2].lamports;
        if funder_lamports < delta {
            return Err(StorageError::InsufficientFunds);
        }
        let record_lamports = accounts[0].lamports;
        let new_record_lamports = match record_lamports.checked_add(delta) {
            Option::Some(v) => v,
            Option::None => {
                return Err(StorageError::ArithmeticOverflow);
            },
        };
        let mut record = accounts.remove(0);
        apply_edit_bytes(&mut record.data, current_time, payload);
        record.lamports = new_record_lamports;
        accounts.insert(0, record);
        let mut funder = accounts.remove(2);
        funder.lamports = funder_lamports - delta;
        accounts.insert(2, funder);
        proof {
            let outcome = spec_edit(program_id@, old(accounts).deep_view(), payload@, *env);
            assert(accounts.deep_view() =~~= outcome.accounts);
        }
        Ok(event)
    }
}

/// The Close operation in the model. Accounts: record, authority signer,
/// deposit receiver. After the guards pass, the record's whole balance
/// moves to the receiver and the initialization flag is cleared; the bytes
/// otherwise stay.
pub open spec fn spec_close(program_id: Seq<u8>, accs: Seq<AccountView>) -> SpecOutcome {
    if accs.len() < 3 {
        spec_fail(accs, StorageError::NotEnoughAccountKeys)
    } else {
        let record = accs[0];
        let authority = accs[1];
        let receiver = accs[2];
        if record.data.len() < 74 {
            spec_fail(accs, StorageError::InvalidAccountData)
        } else if stored_authority(record.data) == reserved_key() {
            spec_fail(accs, StorageError::Custom(DataStorageError::ImmutableDataStorage))
        } else if !authority.is_signer {
            spec_fail(accs, StorageError::MissingRequiredSignature)
        } else if record.owner != program_id {
            spec_fail(accs, StorageError::InvalidAccountOwner)
        } else if !stored_is_initialized(record.data) {
            spec_fail(accs, StorageError::UninitializedAccount)
        } else if stored_authority(record.data) != authority.key {
            spec_fail(accs, StorageError::IncorrectAuthority)
        } else {
            match spec_verify_address(
                authority.key,
                stored_label(record.data),
                stored_bump(record.data),
                program_id,
                record.key,
            ) {
                Err(e) => spec_fail(accs, e),
                Ok(_) => {
                    if receiver.lamports + record.lamports > u64::MAX {
                        spec_fail(accs, StorageError::ArithmeticOverflow)
                    } else {
                        let new_record = AccountView {
                            lamports: 0,
                            data: record.data.update(71, 0u8),
                            ..record
                        };
                        let new_receiver = AccountView {
                            lamports: (receiver.lamports + record.lamports) as u64,
                            ..receiver
                        };
                        SpecOutcome {
                            accounts: accs.update(0, new_record).update(2, new_receiver),
                            result: Ok(
                                EventView::DataStorageAccountClosed {
                                    data_storage_account: record.key,
                                    authority_account: authority.key,
                                },
                            ),
                        }
                    }
                },
            }
        }
    }
}

/// Closes a record: drains its whole balance to the receiver and clears the
/// initialization flag, leaving the bytes in place. Exactly the model's
/// `spec_close` of the inputs.
pub fn process_close(program_id: &Vec<u8>, accounts: &mut Vec<Account>) -> (r: Result<
    Events,
    StorageError,
>)
    requires
        program_id@.len() == 32,
        forall|i: int| 0 <= i < old(accounts)@.len() ==> wf_account(
            #[trigger] old(accounts)@[i].deep_view(),
        ),
    ensures
        ({
            let outcome = spec_close(program_id@, old(accounts).deep_view());
            &&& final(accounts).deep_view() == outcome.accounts
            &&& spec_result_view(r) == outcome.result
        }),
{
    if accounts.len() < 3 {
        return Err(StorageError::NotEnoughAccountKeys);
    }
    let data_len_ok = { accounts[0].data.len() >= DATA_OFFSET };
    if !data_len_ok {
        return Err(StorageError::InvalidAccountData);
    }
    match check_if_data_storage_account_is_immutable(&accounts[0]) {
        Err(e) => {
            return Err(e);
        },
        Ok(_) => {},
    }
    match check_account_is_signer(&accounts[1]) {
        Err(e) => {
            return Err(e);
        },
        Ok(_) => {},
    }
    match check_dsa_account_owner(&accounts[0], program_id) {
        Err(e) => {
            return Err(e);
        },
        Ok(_) => {},
    }
    match check_dsa_account_is_initialized(&accounts[0]) {
        Err(e) => {
            return Err(e);
        },
        Ok(_) => {},
    }
    let authority_key = clone_bytes(&accounts[1].key);
    match check_dsa_account_authority(&accounts[0], &authority_key) {
        Err(e) => {
            return Err(e);
        },
        Ok(_) => {},
    }
    let label = read_label(&accounts[0].data);
    let bump = read_bump(&accounts[0].data);
    let record_key = clone_bytes(&accounts[0].key);
    match create_and_check_program_address(&authority_key, &label, bump, program_id, &record_key) {
        Err(e) => {
            return Err(e);
        },
        Ok(_) => {},
    }
    let record_lamports = accounts[0].lamports;
    let receiver_lamports = accounts[2].lamports;
    let new_receiver_lamports = match receiver_lamports.checked_add(record_lamports) {
        Option::Some(v) => v,
        Option::None => {
            return Err(StorageError::ArithmeticOverflow);
        },
    };
    let mut record = accounts.remove(0);
    record.lamports = 0;
    record.data.set(IS_INITIALIZED_OFFSET, 0u8);
    accounts.insert(0, record);
    let mut receiver = accounts.remove(2);
    receiver.lamports = new_receiver_lamports;
    accounts.insert(2, receiver);
    proof {
        let outcome = spec_close(program_id@, old(accounts).deep_view());
        assert(accounts.deep_view() =~~= outcome.accounts);
    }
    Ok(
        Events::DataStorageAccountClosed {
            data_storage_account: record_key,
            authority_account: authority_key,
        },
    )
}

/// The whole processor in the model: dispatch on the leading discriminator
/// byte, then the selected operation on the rest of the instruction bytes.
pub open spec fn spec_process(
    program_id: Seq<u8>,
    accs: Seq<AccountView>,
    instruction_data: Seq<u8>,
    env: EnvParams,
) -> SpecOutcome {
    if instruction_data.len() == 0 {
        spec_fail(accs, StorageError::InvalidInstructionData)
    } else {
        let discriminator = instruction_data[0];
        let rest = instruction_data.skip(1);
        if discriminator == 0 {
            spec_create(program_id, accs, rest, env)
        } else if discriminator == 1 {
            spec_edit(program_id, accs, rest, env)
        } else if discriminator == 2 {
            spec_close(program_id, accs)
        } else {
            spec_fail(accs, StorageError::InvalidInstructionData)
        }
    }
}

/// Processes one instruction: splits off the leading discriminator byte,
/// dispatches to Create, Edit or Close, and leaves the account list in the
/// state the model's `spec_process` prescribes — unchanged whenever the
/// result is an error, since the host environment commits nothing of a
/// failed operation.
pub fn process_instruction(
    program_id: &Vec<u8>,
    accounts: &mut Vec<Account>,
    instruction_data: &Vec<u8>,
    env: &EnvParams,
) -> (r: Result<Events, StorageError>)
    requires
        program_id@.len() == 32,
        forall|i: int| 0 <= i < old(accounts)@.len() ==> wf_account(
            #[trigger] old(accounts)@[i].deep_view(),
        ),
    ensures
        ({
            let outcome = spec_process(
                program_id@,
                old(accounts).deep_view(),
                instruction_data@,
                *env,
            );
            &&& final(accounts).deep_view() == outcome.accounts
            &&& spec_result_view(r) == outcome.result
        }),
{
    if instruction_data.len() == 0 {
        return Err(StorageError::InvalidInstructionData);
    }
    let ix_discriminator = instruction_data[0];
    let ix_data = crate::codec::read_range(instruction_data, 1, instruction_data.len());
    proof {
        assert(ix_data@ =~= instruction_data@.skip(1));
    }
    if ix_discriminator == crate::CREATE_NEW_DATA_STORAGE_ACCOUNT_INSTRUCTION_DISCRIMINATOR {
        process_create(program_id, accounts, &ix_data, env)
    } else if ix_discriminator == crate::EDIT_DATA_STORAGE_ACCOUNT_INSTRUCTION_DISCRIMINATOR {
        process_edit(program_id, accounts, &ix_data, env)
    } else if ix_discriminator == crate::CLOSE_DATA_STORAGE_ACCOUNT_INSTRUCTION_DISCRIMINATOR {
        process_close(program_id, accounts)
    } else {
        Err(StorageError::InvalidInstructionData)
    }
}

} // verus!

