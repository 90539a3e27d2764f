//! Capacity arithmetic, done by the ledger's own capacity type.

use ckb_occupied_capacity::Capacity;
use ckb_types::packed;
use ckb_types::prelude::{Builder, Entity};
use vstd::prelude::*;

verus! {

/// How many of the smallest capacity units one byte of storage costs.
pub const BYTE_SHANNONS: u64 = 100_000_000;

/// Bytes that a cell with no data and no type script occupies besides the
/// arguments of its lock: 8 for the capacity field, 32 for the lock's code
/// hash and 1 for its hash type.
pub const BARE_CELL_BYTES: u64 = 41;

/// The least capacity of a cell without data or type script whose lock has
/// arguments of this length, or `None` where it exceeds `u64::MAX`.
pub open spec fn occupied_capacity_of(args_len: nat) -> Option<u64> {
    let shannons = (BARE_CELL_BYTES + args_len) * BYTE_SHANNONS;
    if shannons > u64::MAX {
        None
    } else {
        Some(shannons as u64)
    }
}

/// `Capacity::safe_add` of ckb-occupied-capacity on two amounts of shannons:
/// their sum, or `None` where it exceeds `u64::MAX`.
#[verifier::external_body]
pub(crate) fn capacity_add(left: u64, right: u64) -> (sum: Option<u64>)
    ensures
        sum == (if left + right > u64::MAX {
            None
        } else {
            Some((left + right) as u64)
        }),
{
    Capacity::shannons(left).safe_add(Capacity::shannons(right)).ok().map(Capacity::as_u64)
}

/// `Capacity::safe_sub` of ckb-occupied-capacity on two amounts of shannons:
/// their difference, or `None` where the second exceeds the first.
#[verifier::external_body]
pub(crate) fn capacity_sub(left: u64, right: u64) -> (difference: Option<u64>)
    ensures
        difference == (if left < right {
            None
        } else {
            Some((left - right) as u64)
        }),
{
    Capacity::shannons(left).safe_sub(Capacity::shannons(right)).ok().map(Capacity::as_u64)
}

/// `CellOutput::occupied_capacity` of ckb-types, on a cell without data or
/// type script whose lock is built from the three parts given: 8 bytes for
/// the capacity field, 33 for the lock's code hash and hash type, one for
/// each byte of its arguments, each byte at `BYTE_SHANNONS`; `None` where the
/// crate reports an overflow.
#[verifier::external_body]
pub(crate) fn lock_occupied_capacity(code_hash: &[u8; 32], hash_type: u8, args: &Vec<u8>) -> (occupied:
    Option<u64>)
    ensures
        occupied == occupied_capacity_of(args@.len()),
{
    let lock = packed::Script::new_builder()
        .code_hash(code_hash)
        .hash_type(hash_type)
        .args(&args[..])
        .build();
    let output = packed::CellOutput::new_builder().lock(lock).build();
    output.occupied_capacity(Capacity::zero()).ok().map(Capacity::as_u64)
}

} // verus!
