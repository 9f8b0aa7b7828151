use data_storage::address::derive_record_address;
use data_storage::codec::read_authority;
use data_storage::codec::read_bump;
use data_storage::codec::read_data_length;
use data_storage::codec::read_is_initialized;
use data_storage::codec::read_label;
use data_storage::codec::read_last_updated;
use data_storage::codec::read_payload;
use data_storage::errors::DataStorageError;
use data_storage::errors::StorageError;
use data_storage::model::Account;
use data_storage::model::EnvParams;
use data_storage::model::Events;
use data_storage::processor::process_instruction;

fn program_id() -> Vec<u8> {
    vec![7u8; 32]
}

fn zero_key() -> Vec<u8> {
    vec![0u8; 32]
}

fn env(current_time: i64, rent_minimum_balance: u64) -> EnvParams {
    EnvParams {
        current_time,
        lamports_per_byte_year: 10,
        exemption_threshold: 2,
        rent_minimum_balance,
    }
}

fn blank_account(key: Vec<u8>, lamports: u64, is_signer: bool) -> Account {
    Account { key, lamports, data: Vec::new(), owner: zero_key(), is_signer }
}

fn create_ix(label: &[u8], payload: &[u8]) -> Vec<u8> {
    let mut ix = vec![0u8];
    ix.extend_from_slice(label);
    ix.extend_from_slice(payload);
    ix
}

fn edit_ix(payload: &[u8]) -> Vec<u8> {
    let mut ix = vec![1u8];
    ix.extend_from_slice(payload);
    ix
}

/// Creates a record and returns (accounts, event): accounts[0] is the
/// record, accounts[1] the authority, accounts[2] the funder, accounts[3]
/// the system-program handle.
fn run_create(
    authority_key: Vec<u8>,
    authority_signs: bool,
    label: &[u8],
    payload: &[u8],
    funder_lamports: u64,
    rent_minimum_balance: u64,
) -> (Vec<Account>, Events) {
    let pid = program_id();
    let label_vec = label.to_vec();
    let (address, _bump) = derive_record_address(&authority_key, &label_vec, &pid).unwrap();
    let mut accounts = vec![
        blank_account(address, 0, false),
        blank_account(authority_key, 0, authority_signs),
        blank_account(vec![9u8; 32], funder_lamports, true),
        blank_account(zero_key(), 0, false),
    ];
    let ix = create_ix(label, payload);
    let event =
        process_instruction(&pid, &mut accounts, &ix, &env(0, rent_minimum_balance)).unwrap();
    (accounts, event)
}

#[test]
fn test_create_and_initialize_new_data_storage_account() {
    let authority_key = vec![97u8; 32];
    let label = [65u8; 30];
    let payload = b"PooriaGG..";
    assert_eq!(payload.len(), 10);
    let (accounts, event) = run_create(authority_key.clone(), true, &label, payload, 100, 100);

    let record = &accounts[0];
    assert_eq!(record.owner, program_id(), "Invalid data_storage_account's owner.");
    assert_eq!(record.data.len(), 84, "Invalid data length.");
    assert_eq!(read_authority(&record.data), authority_key, "Invalid expected authority.");
    assert_eq!(read_label(&record.data), label.to_vec(), "Invalid expected label.");
    assert_eq!(read_last_updated(&record.data), 0, "Invalid expected last_updated.");
    assert!(read_is_initialized(&record.data), "Invalid expected is_initialized flag.");
    assert_eq!(read_data_length(&record.data), 10, "Invalid expected data_length.");
    assert_eq!(read_payload(&record.data), payload.to_vec(), "Invalid expected data.");
    assert_eq!(record.lamports, 100);
    assert_eq!(accounts[2].lamports, 0);

    let pid = program_id();
    let label_vec = label.to_vec();
    let (address, _bump) = derive_record_address(&authority_key, &label_vec, &pid).unwrap();
    let expected = Events::NewDataStorageAccountCreated {
        data_storage_account: address,
        authority_account: authority_key,
        account_label: label.to_vec(),
    };
    assert_eq!(event, expected, "Invalid emitted event!");
}

#[test]
fn test_edit_data_storage_account() {
    let authority_key = vec![97u8; 32];
    let label = [65u8; 30];
    let (mut accounts, _) = run_create(authority_key.clone(), true, &label, b"Solana", 300, 100);
    let pid = program_id();
    let record_key = accounts[0].key.clone();

    // Same length: payload replaced in place, timestamp stamped, no
    // transfer, no resize.
    let before_lamports = accounts[0].lamports;
    let event = process_instruction(&pid, &mut accounts, &edit_ix(b"Pooria"), &env(450, 0))
        .expect("equal-size edit must succeed");
    assert_eq!(accounts[0].lamports, before_lamports, "Invalid PDA lamport balance.");
    assert_eq!(accounts[0].data.len(), 80, "Invalid data len.");
    assert_eq!(read_payload(&accounts[0].data), b"Pooria".to_vec(), "Invalid new data.");
    assert_eq!(read_last_updated(&accounts[0].data), 450, "Invalid time.");
    assert_eq!(
        event,
        Events::DataStorageAccountEdited {
            data_storage_account: record_key.clone(),
            authority_account: authority_key.clone(),
            old_data_len: 6,
            new_data_len: 6,
        },
        "Invalid emitted event!"
    );

    // Shrink to "SOL": three bytes leave, 3 * 10 * 2 lamports move from the
    // record to the receiver.
    accounts[2] = blank_account(vec![8u8; 32], 5, false);
    let event = process_instruction(&pid, &mut accounts, &edit_ix(b"SOL"), &env(550, 0))
        .expect("shrinking edit must succeed");
    assert_eq!(accounts[0].data.len(), 77, "Invalid data-storage-account's data len.");
    assert_eq!(read_payload(&accounts[0].data), b"SOL".to_vec(), "Invalid new data.");
    assert_eq!(read_data_length(&accounts[0].data), 3, "Ivnalid data len.");
    assert_eq!(accounts[0].lamports, 100 - 60, "Invalid data-storage-account's lamport balance.");
    assert_eq!(accounts[2].lamports, 5 + 60, "Invalid rent_receiver_account's lamport balance.");
    assert_eq!(read_last_updated(&accounts[0].data), 550, "Invalid last-updated-time.");
    assert_eq!(
        event,
        Events::DataStorageAccountEdited {
            data_storage_account: record_key.clone(),
            authority_account: authority_key.clone(),
            old_data_len: 6,
            new_data_len: 3,
        },
        "Invalid emitted event!"
    );

    // Grow to "PooriaGG!": six bytes come in, 6 * 10 * 2 lamports move from
    // the funder into the record.
    accounts[2] = blank_account(vec![9u8; 32], 500, true);
    let event = process_instruction(&pid, &mut accounts, &edit_ix(b"PooriaGG!"), &env(560, 0))
        .expect("growing edit must succeed");
    assert_eq!(accounts[0].data.len(), 83, "Invalid data-storage-account's data len.");
    assert_eq!(read_payload(&accounts[0].data), b"PooriaGG!".to_vec(), "Invalid new data.");
    assert_eq!(accounts[0].lamports, 40 + 120, "Invalid data-storage-account's lamport balance.");
    assert_eq!(accounts[2].lamports, 500 - 120, "Invalid funding_account's lamport balance.");
    assert_eq!(
        event,
        Events::DataStorageAccountEdited {
            data_storage_account: record_key,
            authority_account: authority_key,
            old_data_len: 3,
            new_data_len: 9,
        },
        "Invalid emitted event!"
    );
}

#[test]
fn test_close_data_storage_account() {
    let authority_key = vec![97u8; 32];
    let label = [65u8; 30];
    let (mut accounts, _) = run_create(authority_key.clone(), true, &label, b"Solana", 100, 100);
    let pid = program_id();
    let record_key = accounts[0].key.clone();
    accounts.truncate(2);
    accounts.push(blank_account(vec![8u8; 32], 65, false));

    let event = process_instruction(&pid, &mut accounts, &vec![2u8], &env(600, 0))
        .expect("close must succeed");
    assert_eq!(accounts[2].lamports, 165, "Invalid rent_exempt_receiver lamport balance.");
    assert_eq!(accounts[0].lamports, 0);
    assert!(!read_is_initialized(&accounts[0].data), "Account must be closed so far !");
    assert_eq!(
        event,
        Events::DataStorageAccountClosed {
            data_storage_account: record_key,
            authority_account: authority_key,
        },
        "Invalid emitted event!"
    );
}

#[test]
fn scenario_create_buffer_layout() {
    let (accounts, _) = run_create(vec![42u8; 32], true, &[65u8; 30], b"PooriaGG..", 0, 0);
    let record = &accounts[0];
    assert_eq!(record.data.len(), 84);
    assert_eq!(u16::from_le_bytes([record.data[72], record.data[73]]), 10);
    assert_eq!(&record.data[74..84], b"PooriaGG..");
}

#[test]
fn scenario_edit_shrink_refunds_deposit() {
    let authority_key = vec![42u8; 32];
    let (mut accounts, _) = run_create(authority_key, true, &[66u8; 30], b"Solana", 200, 200);
    let pid = program_id();
    assert_eq!(read_data_length(&accounts[0].data), 6);
    let old_buffer_len = accounts[0].data.len();
    accounts[2] = blank_account(vec![8u8; 32], 0, false);

    process_instruction(&pid, &mut accounts, &edit_ix(b"SOL"), &env(450, 0))
        .expect("shrinking edit must succeed");
    assert_eq!(accounts[0].data.len(), old_buffer_len - 3);
    assert_eq!(accounts[2].lamports, 3 * 10 * 2);
    assert_eq!(accounts[0].lamports, 200 - 3 * 10 * 2);
    assert_eq!(read_last_updated(&accounts[0].data), 450);
}

#[test]
fn scenario_edit_same_length_no_transfer_no_resize() {
    let authority_key = vec![42u8; 32];
    let (mut accounts, _) = run_create(authority_key, true, &[66u8; 30], b"Solana", 200, 200);
    let pid = program_id();
    let old_buffer_len = accounts[0].data.len();
    let balances: Vec<u64> = accounts.iter().map(|a| a.lamports).collect();

    process_instruction(&pid, &mut accounts, &edit_ix(b"SOLANA"), &env(700, 0))
        .expect("equal-size edit must succeed");
    assert_eq!(accounts[0].data.len(), old_buffer_len);
    let after: Vec<u64> = accounts.iter().map(|a| a.lamports).collect();
    assert_eq!(balances, after);
    assert_eq!(read_payload(&accounts[0].data), b"SOLANA".to_vec());
}

#[test]
fn immutable_record_rejects_edit_and_close() {
    // A record created with the reserved key as authority needs no
    // signature and can never be touched again.
    let (mut accounts, _) = run_create(zero_key(), false, &[67u8; 30], b"frozen", 50, 50);
    let pid = program_id();

    let err = process_instruction(&pid, &mut accounts, &edit_ix(b"thawed"), &env(1, 0))
        .expect_err("edit of an immutable record must fail");
    assert_eq!(err, StorageError::Custom(DataStorageError::ImmutableDataStorage), "Invalid error!");
    assert_eq!(DataStorageError::ImmutableDataStorage.code(), 70);

    let err = process_instruction(&pid, &mut accounts, &vec![2u8], &env(1, 0))
        .expect_err("close of an immutable record must fail");
    assert_eq!(err, StorageError::Custom(DataStorageError::ImmutableDataStorage), "Invalid error!");
    assert_eq!(read_payload(&accounts[0].data), b"frozen".to_vec());
}

#[test]
fn closed_record_rejects_edit_and_allows_recreate() {
    let authority_key = vec![42u8; 32];
    let label = [68u8; 30];
    let (mut accounts, _) = run_create(authority_key.clone(), true, &label, b"Solana", 100, 100);
    let pid = program_id();

    // Close it: balance drained, flag cleared, bytes retained.
    accounts.truncate(2);
    accounts.push(blank_account(vec![8u8; 32], 0, false));
    process_instruction(&pid, &mut accounts, &vec![2u8], &env(5, 0)).expect("close must succeed");
    assert_eq!(accounts[0].lamports, 0);
    assert_eq!(read_payload(&accounts[0].data), b"Solana".to_vec());

    // Edit after close fails with the uninitialized error.
    let err = process_instruction(&pid, &mut accounts, &edit_ix(b"SOLANA"), &env(6, 0))
        .expect_err("edit of a closed record must fail");
    assert_eq!(err, StorageError::UninitializedAccount);

    // Create at the same derived address succeeds and fully overwrites the
    // prior bytes: the environment treats the drained account as available.
    let mut create_accounts = vec![
        accounts.remove(0),
        blank_account(authority_key.clone(), 0, true),
        blank_account(vec![9u8; 32], 400, true),
        blank_account(zero_key(), 0, false),
    ];
    let ix = create_ix(&label, b"Reborn!");
    process_instruction(&pid, &mut create_accounts, &ix, &env(7, 400))
        .expect("create at a closed address must succeed");
    let record = &create_accounts[0];
    assert_eq!(record.data.len(), 74 + 7);
    assert_eq!(read_payload(&record.data), b"Reborn!".to_vec());
    assert!(read_is_initialized(&record.data));
    assert_eq!(read_last_updated(&record.data), 0);
    assert_eq!(record.lamports, 400);
}

#[test]
fn derivation_is_idempotent() {
    let pid = program_id();
    let authority_key = vec![42u8; 32];
    let label = vec![69u8; 30];
    let first = derive_record_address(&authority_key, &label, &pid).unwrap();
    let second = derive_record_address(&authority_key, &label, &pid).unwrap();
    assert_eq!(first, second);
    let (address, bump) = first;
    data_storage::address::create_and_check_program_address(
        &authority_key,
        &label,
        bump,
        &pid,
        &address,
    )
    .expect("the derived seeds must verify against the derived address");
}

#[test]
fn derivation_matches_environment() {
    // The trusted wrappers must agree with the environment's own
    // derivation, called directly.
    let pid_bytes = program_id();
    let authority_key = vec![42u8; 32];
    let label = vec![69u8; 30];
    let (address, bump) = derive_record_address(&authority_key, &label, &pid_bytes).unwrap();

    let pid = solana_program::pubkey::Pubkey::try_from(pid_bytes.as_slice()).unwrap();
    let (expected, expected_bump) = solana_program::pubkey::Pubkey::find_program_address(
        &[b"data_storage_account", authority_key.as_slice(), label.as_slice()],
        &pid,
    );
    assert_eq!(address, expected.to_bytes().to_vec());
    assert_eq!(bump, expected_bump);
}

#[test]
fn stored_bump_is_cross_checked() {
    // Corrupting the stored bump makes the address re-derivation disagree:
    // the record is rejected before anything is touched.
    let authority_key = vec![42u8; 32];
    let (mut accounts, _) = run_create(authority_key, true, &[70u8; 30], b"Solana", 100, 100);
    let pid = program_id();
    let good_bump = read_bump(&accounts[0].data);
    accounts[0].data[70] = good_bump.wrapping_add(1);

    let err = process_instruction(&pid, &mut accounts, &edit_ix(b"SOLANA"), &env(1, 0))
        .expect_err("a corrupted bump must be rejected");
    assert!(
        err == StorageError::InvalidAccountData
            || err == StorageError::Custom(DataStorageError::FailedToFindProgramAddress)
    );
}

#[test]
fn record_bytes_round_trip() {
    // The codec's round-trip law on one concrete record: every field written
    // into a fresh buffer is read back unchanged.
    let authority = vec![1u8; 32];
    let label = vec![76u8; 30];
    let payload = b"payload".to_vec();
    let data = data_storage::codec::build_record_bytes(&authority, &label, 9, &payload);
    assert_eq!(data.len(), 74 + 7);
    assert_eq!(read_authority(&data), authority);
    assert_eq!(read_label(&data), label);
    assert_eq!(read_last_updated(&data), 0);
    assert_eq!(read_bump(&data), 9);
    assert!(read_is_initialized(&data));
    assert_eq!(read_data_length(&data), 7);
    assert_eq!(read_payload(&data), payload);
}

#[test]
fn handcrafted_record_accepts_edit() {
    // A record buffer assembled directly through the codec behaves exactly
    // like one the processor created.
    let pid = program_id();
    let authority_key = vec![42u8; 32];
    let label = vec![75u8; 30];
    let (address, bump) = derive_record_address(&authority_key, &label, &pid).unwrap();
    let data = data_storage::codec::build_record_bytes(&authority_key, &label, bump, &vec![1, 2, 3]);
    let mut accounts = vec![
        Account { key: address, lamports: 500, data, owner: pid.clone(), is_signer: false },
        blank_account(authority_key, 0, true),
        blank_account(vec![8u8; 32], 0, false),
    ];
    process_instruction(&pid, &mut accounts, &edit_ix(&[9, 9]), &env(123, 0))
        .expect("edit of a well-formed handcrafted record must succeed");
    assert_eq!(read_payload(&accounts[0].data), vec![9, 9]);
    assert_eq!(read_last_updated(&accounts[0].data), 123);
    assert_eq!(accounts[0].lamports, 500 - 20);
    assert_eq!(accounts[2].lamports, 20);
}
