//! The account model: the plain values the processor reads and writes.
//!
//! The host environment hands every operation an ordered list of account
//! handles. Each handle carries a 32-byte address, a balance, a byte buffer,
//! the owning program's key and a verified-signature flag; that is all the
//! processor ever sees of it, so an [`Account`] holds exactly those fields.
use vstd::prelude::*;

verus! {

/// One account handle, as supplied by the host environment.
#[derive(Debug, Clone, PartialEq, Eq)]
pub struct Account {
    /// The account's 32-byte address.
    pub key: Vec<u8>,
    /// The account's balance.
    pub lamports: u64,
    /// The account's byte buffer.
    pub data: Vec<u8>,
    /// The 32-byte key of the program that owns the account.
    pub owner: Vec<u8>,
    /// Whether the environment verified a signature for this account's key.
    pub is_signer: bool,
}

/// The mathematical view of an [`Account`].
#[verifier::ext_equal]
pub struct AccountView {
    pub key: Seq<u8>,
    pub lamports: u64,
    pub data: Seq<u8>,
    pub owner: Seq<u8>,
    pub is_signer: bool,
}

impl DeepView for Account {
    type V = AccountView;

    open spec fn deep_view(&self) -> AccountView {
        AccountView {
            key: self.key@,
            lamports: self.lamports,
            data: self.data@,
            owner: self.owner@,
            is_signer: self.is_signer,
        }
    }
}

/// An account handle as the environment delivers it: addresses and owner
/// keys are exactly 32 bytes.
pub open spec fn wf_account(a: AccountView) -> bool {
    &&& a.key.len() == 32
    &&& a.owner.len() == 32
}

/// The reserved all-zero environment key. It is at once the system program's
/// identity and the sentinel authority that marks a record immutable.
pub open spec fn reserved_key() -> Seq<u8> {
    Seq::new(32, |i: int| 0u8)
}

/// The environment parameters an operation runs under, read fresh by the
/// caller on every invocation: the current wall-clock time, the storage-cost
/// parameters, and the minimum balance the environment demands of a buffer
/// of the size a Create is about to allocate.
#[derive(Debug, Clone, Copy, PartialEq, Eq, Structural)]
pub struct EnvParams {
    /// The environment's current timestamp.
    pub current_time: i64,
    /// Storage cost per byte-year, the variable factor of the deposit rate.
    pub lamports_per_byte_year: u64,
    /// The exemption threshold (in years) the deposit must cover, as the
    /// whole number the deposit formula multiplies by.
    pub exemption_threshold: u64,
    /// The minimum balance the environment demands of the buffer a Create
    /// is about to allocate.
    pub rent_minimum_balance: u64,
}

/// The structured event a successful operation emits.
#[derive(Debug, Clone, PartialEq, Eq)]
pub enum Events {
    NewDataStorageAccountCreated {
        data_storage_account: Vec<u8>,
        authority_account: Vec<u8>,
        account_label: Vec<u8>,
    },
    DataStorageAccountEdited {
        data_storage_account: Vec<u8>,
        authority_account: Vec<u8>,
        old_data_len: usize,
        new_data_len: usize,
    },
    DataStorageAccountClosed {
        data_storage_account: Vec<u8>,
        authority_account: Vec<u8>,
    },
}

/// The mathematical view of an [`Events`] value.
#[verifier::ext_equal]
pub enum EventView {
    NewDataStorageAccountCreated {
        data_storage_account: Seq<u8>,
        authority_account: Seq<u8>,
        account_label: Seq<u8>,
    },
    DataStorageAccountEdited {
        data_storage_account: Seq<u8>,
        authority_account: Seq<u8>,
        old_data_len: usize,
        new_data_len: usize,
    },
    DataStorageAccountClosed {
        data_storage_account: Seq<u8>,
        authority_account: Seq<u8>,
    },
}

impl DeepView for Events {
    type V = EventView;

    open spec fn deep_view(&self) -> EventView {
        match self {
            Events::NewDataStorageAccountCreated {
                data_storage_account,
                authority_account,
                account_label,
            } => EventView::NewDataStorageAccountCreated {
                data_storage_account: data_storage_account@,
                authority_account: authority_account@,
                account_label: account_label@,
            },
            Events::DataStorageAccountEdited {
                data_storage_account,
                authority_account,
                old_data_len,
                new_data_len,
            } => EventView::DataStorageAccountEdited {
                data_storage_account: data_storage_account@,
                authority_account: authority_account@,
                old_data_len: *old_data_len,
                new_data_len: *new_data_len,
            },
            Events::DataStorageAccountClosed { data_storage_account, authority_account } => (
            EventView::DataStorageAccountClosed {
                data_storage_account: data_storage_account@,
                authority_account: authority_account@,
            }),
        }
    }
}

/// Returns a copy of a byte vector.
pub fn clone_bytes(src: &Vec<u8>) -> (r: Vec<u8>)
    ensures
        r@ == src@,
{
    let mut out: Vec<u8> = Vec::new();
    let mut i: usize = 0;
    while i < src.len()
        invariant
            i <= src.len(),
            out@ =~= src@.subrange(0, i as int),
        decreases src.len() - i,
    {
        out.push(src[i]);
        i = i + 1;
    }
    assert(out@ =~= src@);
    out
}

/// Compares two byte vectors for equality, byte by byte.
pub fn bytes_eq(a: &Vec<u8>, b: &Vec<u8>) -> (r: bool)
    ensures
        r <==> a@ == b@,
{
    if a.len() != b.len() {
        return false;
    }
    let mut i: usize = 0;
    while i < a.len()
        invariant
            i <= a.len(),
            a@.len() == b@.len(),
            forall|k: int| 0 <= k < i ==> a@[k] == b@[k],
        decreases a.len() - i,
    {
        if a[i] != b[i] {
            return false;
        }
        i = i + 1;
    }
    assert(a@ =~= b@);
    true
}

/// Returns the reserved all-zero environment key as bytes.
pub fn reserved_key_bytes() -> (r: Vec<u8>)
    ensures
        r@ == reserved_key(),
{
    let mut out: Vec<u8> = Vec::new();
    let mut i: usize = 0;
    while i < 32
        invariant
            i <= 32,
            out@.len() == i,
            forall|k: int| 0 <= k < i ==> out@[k] == 0u8,
        decreases 32 - i,
    {
        out.push(0u8);
        i = i + 1;
    }
    assert(out@ =~= reserved_key());
    out
}

/// Tests whether a key is the reserved all-zero environment key.
pub fn is_reserved_key(key: &Vec<u8>) -> (r: bool)
    ensures
        r <==> key@ == reserved_key(),
{
    if key.len() != 32 {
        assert(key@ !~= reserved_key());
        return false;
    }
    let mut i: usize = 0;
    while i < 32
        invariant
            i <= 32,
            key@.len() == 32,
            forall|k: int| 0 <= k < i ==> key@[k] == 0u8,
        decreases 32 - i,
    {
        if key[i] != 0 {
            assert(key@[i as int] != reserved_key()[i as int]);
            return false;
        }
        i = i + 1;
    }
    assert(key@ =~= reserved_key());
    true
}

} // verus!
