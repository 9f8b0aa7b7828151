//! A keyed, variable-length record store for a deterministic, resource-metered
//! execution environment.
//!
//! Each record ("data storage account") lives in a byte buffer with a fixed
//! header layout, is owned by an authority key, carries a human-chosen label,
//! and sits at an address derived deterministically from (authority, label).
//! The instruction processor creates, edits (including resizing, with a
//! storage-deposit transfer proportional to the size change) and closes such
//! records.
use vstd::prelude::*;

pub mod address;
pub mod codec;
pub mod errors;
pub mod guards;
pub mod laws;
pub mod model;
pub mod processor;
pub mod rent;

pub use errors::DataStorageError;
pub use errors::StorageError;
pub use model::Account;
pub use model::EnvParams;
pub use model::Events;
pub use processor::process_instruction;

verus! {

/// Discriminator byte selecting the Create operation.
pub const CREATE_NEW_DATA_STORAGE_ACCOUNT_INSTRUCTION_DISCRIMINATOR: u8 = 0;

/// Discriminator byte selecting the Edit operation.
pub const EDIT_DATA_STORAGE_ACCOUNT_INSTRUCTION_DISCRIMINATOR: u8 = 1;

/// Discriminator byte selecting the Close operation.
pub const CLOSE_DATA_STORAGE_ACCOUNT_INSTRUCTION_DISCRIMINATOR: u8 = 2;

/// The fixed width of a record's label.
pub const MAX_LABEL_LENGTH: usize = 30;

/// The largest payload a record can carry: its length field is 16 bits.
pub const MAX_DATA_LENGTH: usize = 65535;

} // verus!
