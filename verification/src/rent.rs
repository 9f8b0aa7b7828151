//! The resource-accounting module: the storage-deposit delta owed for a
//! record resize.
//!
//! The deposit rate is not a compile-time constant; the caller reads the
//! environment's current storage-cost parameters fresh on every resize and
//! passes them in. All arithmetic is checked: a deposit is a
//! conservation-of-value transfer, and any overflow is surfaced as a typed
//! failure instead of wrapping.
use crate::errors::StorageError;
use vstd::prelude::*;

verus! {

/// The deposit delta for a resize between the two payload lengths:
/// `|new - old| * lamports_per_byte_year * exemption_threshold`, or an
/// arithmetic failure when that product exceeds the balance type.
pub open spec fn spec_extra_rent_lamports(
    old_data_length: int,
    new_data_length: int,
    lamports_per_byte_year: u64,
    exemption_threshold: u64,
) -> Result<u64, StorageError> {
    let extra_bytes = if new_data_length >= old_data_length {
        new_data_length - old_data_length
    } else {
        old_data_length - new_data_length
    };
    if lamports_per_byte_year * extra_bytes > u64::MAX {
        Err(StorageError::ArithmeticOverflow)
    } else if (lamports_per_byte_year * extra_bytes) * exemption_threshold > u64::MAX {
        Err(StorageError::ArithmeticOverflow)
    } else {
        Ok(((lamports_per_byte_year * extra_bytes) * exemption_threshold) as u64)
    }
}

/// Computes the deposit delta owed for a resize from `old_data_length` to
/// `new_data_length` under the given storage-cost parameters.
pub fn calculate_extra_rent_exempt_lamports(
    old_data_length: usize,
    new_data_length: usize,
    new_is_bigger: bool,
    lamports_per_byte_year: u64,
    exemption_threshold: u64,
) -> (r: Result<u64, StorageError>)
    requires
        new_is_bigger <==> new_data_length > old_data_length,
    ensures
        r == spec_extra_rent_lamports(
            old_data_length as int,
            new_data_length as int,
            lamports_per_byte_year,
            exemption_threshold,
        ),
{
    let extra_bytes_len: usize = if new_is_bigger == false {
        old_data_length - new_data_length
    } else {
        new_data_length - old_data_length
    };
    let extra_bytes: u64 = extra_bytes_len as u64;
    let per_year = match lamports_per_byte_year.checked_mul(extra_bytes) {
        Option::Some(v) => v,
        Option::None => {
            return Err(StorageError::ArithmeticOverflow);
        },
    };
    match per_year.checked_mul(exemption_threshold) {
        Option::Some(v) => Ok(v),
        Option::None => Err(StorageError::ArithmeticOverflow),
    }
}

} // verus!
