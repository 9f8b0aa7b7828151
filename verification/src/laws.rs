//! The store's laws: properties of the operation models, stated and proved
//! once and for all inputs. Together with the processor functions' own
//! contracts — each returns exactly its model — these carry over to every
//! execution.
use crate::address::spec_derive;
use crate::codec::record_well_formed;
use crate::codec::spec_edited_bytes;
use crate::codec::spec_record_bytes;
use crate::codec::stored_authority;
use crate::codec::stored_bump;
use crate::codec::stored_data_length;
use crate::codec::stored_is_initialized;
use crate::codec::stored_label;
use crate::codec::stored_last_updated;
use crate::codec::stored_payload;
use crate::errors::DataStorageError;
use crate::errors::StorageError;
use crate::guards::is_utf8;
use crate::model::AccountView;
use crate::model::wf_account;
use crate::model::EnvParams;
use crate::model::reserved_key;
use crate::processor::spec_close;
use crate::processor::spec_create;
use crate::processor::spec_edit;
use crate::processor::spec_fail;
use vstd::bytes::lemma_auto_spec_u16_to_from_le_bytes;
use vstd::bytes::lemma_auto_spec_u64_to_from_le_bytes;
use vstd::bytes::spec_u16_to_le_bytes;
use vstd::bytes::spec_u64_to_le_bytes;
use vstd::prelude::*;

verus! {

/// Round-trip at creation. A successful Create leaves the record buffer
/// well formed and every stored field reading back exactly what the
/// instruction carried: the authority key, the 30-byte label, a zero
/// timestamp, the set flag, and the payload with its length.
pub proof fn lemma_create_round_trip(
    program_id: Seq<u8>,
    accs: Seq<AccountView>,
    ix_data: Seq<u8>,
    env: EnvParams,
)
    requires
        spec_create(program_id, accs, ix_data, env).result is Ok,
        wf_account(accs[1]),
    ensures
        ({
            let out = spec_create(program_id, accs, ix_data, env).accounts[0].data;
            &&& out.len() == 74 + (ix_data.len() - 30)
            &&& record_well_formed(out)
            &&& stored_authority(out) == accs[1].key
            &&& stored_label(out) == ix_data.subrange(0, 30)
            &&& stored_last_updated(out) == 0
            &&& stored_is_initialized(out)
            &&& stored_data_length(out) == ix_data.len() - 30
            &&& stored_payload(out) == ix_data.skip(30)
        }),
{
    crate::codec::lemma_record_round_trip(
        accs[1].key,
        ix_data.subrange(0, 30),
        0,
        spec_derive(accs[1].key, ix_data.subrange(0, 30), program_id)->Some_0.1,
        true,
        ix_data.skip(30),
    );
}

/// Write-once identity. A successful Edit changes only the timestamp, the
/// payload and its length: the stored authority, label and nonce read
/// back unchanged, the flag stays set, the buffer is again well formed,
/// and the timestamp and payload are exactly the ones supplied.
pub proof fn lemma_edit_preserves_identity(
    program_id: Seq<u8>,
    accs: Seq<AccountView>,
    payload: Seq<u8>,
    env: EnvParams,
)
    requires
        spec_edit(program_id, accs, payload, env).result is Ok,
    ensures
        ({
            let out = spec_edit(program_id, accs, payload, env).accounts[0].data;
            let before = accs[0].data;
            &&& out.len() == 74 + payload.len()
            &&& record_well_formed(out)
            &&& stored_authority(out) == stored_authority(before)
            &&& stored_label(out) == stored_label(before)
            &&& stored_bump(out) == stored_bump(before)
            &&& stored_is_initialized(out)
            &&& stored_last_updated(out) == env.current_time
            &&& stored_data_length(out) == payload.len()
            &&& stored_payload(out) == payload
        }),
{
    lemma_auto_spec_u16_to_from_le_bytes();
    lemma_auto_spec_u64_to_from_le_bytes();
    let out = spec_edit(program_id, accs, payload, env).accounts[0].data;
    let before = accs[0].data;
    let t = env.current_time;
    assert(out == spec_edited_bytes(before, t, payload));
    assert(stored_authority(out) =~= stored_authority(before));
    assert(stored_label(out) =~= stored_label(before));
    assert(out[70] == before[70]);
    assert(out[71] == before[71]);
    assert(out.subrange(62, 70) =~= spec_u64_to_le_bytes(t as u64));
    assert(((t as u64) as i64) == t) by (bit_vector);
    assert(out.subrange(72, 74) =~= spec_u16_to_le_bytes(payload.len() as u16));
    assert(stored_payload(out) =~= payload);
}

/// Soft delete. A successful Close drains the record's balance into the
/// receiver in full, clears the flag, and touches nothing else: length,
/// authority, label, nonce and payload bytes all stay readable — and must
/// not be trusted, exactly because the flag is off.
pub proof fn lemma_close_is_soft_delete(program_id: Seq<u8>, accs: Seq<AccountView>)
    requires
        spec_close(program_id, accs).result is Ok,
    ensures
        ({
            let outcome = spec_close(program_id, accs);
            let out = outcome.accounts[0];
            let before = accs[0];
            &&& out.lamports == 0
            &&& outcome.accounts[2].lamports == accs[2].lamports + before.lamports
            &&& !stored_is_initialized(out.data)
            &&& out.data.len() == before.data.len()
            &&& stored_authority(out.data) == stored_authority(before.data)
            &&& stored_label(out.data) == stored_label(before.data)
            &&& stored_bump(out.data) == stored_bump(before.data)
            &&& stored_payload(out.data) == stored_payload(before.data)
        }),
{
    let out = spec_close(program_id, accs).accounts[0];
    let before = accs[0];
    assert(out.data == before.data.update(71, 0u8));
    assert(stored_authority(out.data) =~= stored_authority(before.data));
    assert(stored_label(out.data) =~= stored_label(before.data));
    assert(stored_payload(out.data) =~= stored_payload(before.data));
}

/// Deposit conservation. When an Edit succeeds and shrinks the payload
/// from length A to length B, the receiver gains exactly
/// `(A - B) * lamports_per_byte_year * exemption_threshold` and the record
/// loses exactly that amount; symmetrically, when it grows, the record
/// gains and the funding source loses `(B - A)` times the same rate. No
/// other account's balance moves.
pub proof fn lemma_edit_deposit_conservation(
    program_id: Seq<u8>,
    accs: Seq<AccountView>,
    payload: Seq<u8>,
    env: EnvParams,
)
    requires
        spec_edit(program_id, accs, payload, env).result is Ok,
    ensures
        ({
            let outcome = spec_edit(program_id, accs, payload, env);
            let old_len: int = stored_data_length(accs[0].data) as int;
            let new_len: int = payload.len() as int;
            &&& new_len < old_len ==> {
                &&& outcome.accounts[2].lamports - accs[2].lamports == (env.lamports_per_byte_year
                    * (old_len - new_len)) * env.exemption_threshold
                &&& accs[0].lamports - outcome.accounts[0].lamports == (env.lamports_per_byte_year
                    * (old_len - new_len)) * env.exemption_threshold
            }
            &&& new_len > old_len ==> {
                &&& outcome.accounts[0].lamports - accs[0].lamports == (env.lamports_per_byte_year
                    * (new_len - old_len)) * env.exemption_threshold
                &&& accs[2].lamports - outcome.accounts[2].lamports == (env.lamports_per_byte_year
                    * (new_len - old_len)) * env.exemption_threshold
            }
            &&& forall|i: int|
                0 <= i < accs.len() && i != 0 && i != 2 ==> #[trigger] outcome.accounts[i].lamports
                    == accs[i].lamports
        }),
{
}

/// An Edit whose payload has the same length as the stored one never
/// triggers any balance transfer and never resizes the buffer: every
/// account's balance is unchanged, and the record's buffer keeps its
/// length.
pub proof fn lemma_edit_same_length_no_transfer(
    program_id: Seq<u8>,
    accs: Seq<AccountView>,
    payload: Seq<u8>,
    env: EnvParams,
)
    requires
        accs.len() >= 1,
        payload.len() == stored_data_length(accs[0].data),
    ensures
        ({
            let outcome = spec_edit(program_id, accs, payload, env);
            &&& outcome.accounts.len() == accs.len()
            &&& forall|i: int|
                0 <= i < accs.len() ==> #[trigger] outcome.accounts[i].lamports
                    == accs[i].lamports
            &&& forall|i: int|
                0 <= i < accs.len() ==> #[trigger] outcome.accounts[i].data.len()
                    == accs[i].data.len()
        }),
{
    lemma_auto_spec_u16_to_from_le_bytes();
    lemma_auto_spec_u64_to_from_le_bytes();
}

/// Immutability. A record whose stored authority is the reserved
/// environment key rejects every Edit and every Close with the
/// immutability error and stays untouched, regardless of any signature
/// supplied.
pub proof fn lemma_immutable_record_rejected(
    program_id: Seq<u8>,
    accs: Seq<AccountView>,
    payload: Seq<u8>,
    env: EnvParams,
)
    requires
        accs.len() >= 1,
        accs[0].data.len() >= 74,
        record_well_formed(accs[0].data),
        stored_authority(accs[0].data) == reserved_key(),
    ensures
        accs.len() >= 2 ==> spec_edit(program_id, accs, payload, env) == spec_fail(
            accs,
            StorageError::Custom(DataStorageError::ImmutableDataStorage),
        ),
        accs.len() >= 3 ==> spec_close(program_id, accs) == spec_fail(
            accs,
            StorageError::Custom(DataStorageError::ImmutableDataStorage),
        ),
{
}

/// Revival rejection, first half. After a Close succeeds, an Edit against
/// the closed record — with any signing authority, any payload and any
/// further accounts — fails with the uninitialized error and changes
/// nothing.
pub proof fn lemma_closed_record_rejects_edit(
    program_id: Seq<u8>,
    accs: Seq<AccountView>,
    authority: AccountView,
    rest: Seq<AccountView>,
    payload: Seq<u8>,
    env: EnvParams,
)
    requires
        spec_close(program_id, accs).result is Ok,
        record_well_formed(accs[0].data),
        authority.is_signer,
    ensures
        ({
            let closed = spec_close(program_id, accs).accounts[0];
            let edit_accs = seq![closed, authority] + rest;
            spec_edit(program_id, edit_accs, payload, env) == spec_fail(
                edit_accs,
                StorageError::UninitializedAccount,
            )
        }),
{
    let closed = spec_close(program_id, accs).accounts[0];
    let edit_accs = seq![closed, authority] + rest;
    assert(edit_accs[0] == closed);
    assert(edit_accs[1] == authority);
    assert(closed.data == accs[0].data.update(71, 0u8));
    assert(closed.data.subrange(0, 32) =~= accs[0].data.subrange(0, 32));
    assert(closed.data.subrange(72, 74) =~= accs[0].data.subrange(72, 74));
    assert(closed.data[71] == 0);
}

/// Revival rejection, second half. After a Close succeeds, a Create at the
/// same derived address succeeds — the environment treats the drained
/// account as available — and fully overwrites the prior bytes with a
/// fresh record buffer.
pub proof fn lemma_create_revives_closed_address(
    program_id: Seq<u8>,
    accs: Seq<AccountView>,
    authority: AccountView,
    funder: AccountView,
    sys: AccountView,
    rest: Seq<AccountView>,
    ix_data: Seq<u8>,
    bump: u8,
    env: EnvParams,
)
    requires
        spec_close(program_id, accs).result is Ok,
        sys.key == reserved_key(),
        authority.key == reserved_key() || authority.is_signer,
        30 <= ix_data.len(),
        ix_data.len() <= 30 + 65535,
        is_utf8(ix_data.subrange(0, 30)),
        spec_derive(authority.key, ix_data.subrange(0, 30), program_id) == Some(
            (accs[0].key, bump),
        ),
        funder.lamports >= env.rent_minimum_balance,
    ensures
        ({
            let closed = spec_close(program_id, accs).accounts[0];
            let create_accs = seq![closed, authority, funder, sys] + rest;
            let outcome = spec_create(program_id, create_accs, ix_data, env);
            &&& outcome.result is Ok
            &&& outcome.accounts[0].data == spec_record_bytes(
                authority.key,
                ix_data.subrange(0, 30),
                0,
                bump,
                true,
                ix_data.skip(30),
            )
        }),
{
    let closed = spec_close(program_id, accs).accounts[0];
    let create_accs = seq![closed, authority, funder, sys] + rest;
    assert(create_accs[0] == closed);
    assert(create_accs[1] == authority);
    assert(create_accs[2] == funder);
    assert(create_accs[3] == sys);
    assert(closed.lamports == 0);
    assert(closed.key == accs[0].key);
    let outcome = spec_create(program_id, create_accs, ix_data, env);
    assert(outcome.accounts[0] == outcome.accounts.index(0));
}

} // verus!
