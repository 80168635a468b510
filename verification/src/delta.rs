//! The calibrated root-Hermite-factor table, in exact fixed-point form.
//!
//! BKZ at block size `beta` reduces a basis to quality `delta(beta)`, the
//! root Hermite factor.  At small block sizes no asymptotic formula fits and
//! the factor is read from a table calibrated in the literature; above the
//! last calibration point an asymptotic closed form takes over.  The table
//! entries are exact five-decimal values, so the verified core carries them
//! as integers in units of `1 / DELTA_SCALE` and proves the step function
//! they induce non-increasing; callers divide by `DELTA_SCALE` to obtain the
//! real-valued factor.

use vstd::prelude::*;

verus! {

/// Fixed-point scale of the table: one unit is `10^-5` of the factor.
pub const DELTA_SCALE: u64 = 100000;

/// Largest block size covered by the calibration table; beyond it the
/// asymptotic closed form applies.
pub const DELTA_TABLE_MAX: u64 = 40;

/// The calibrated root Hermite factor in units of `1 / DELTA_SCALE`, as a
/// step function of the block size: the table is keyed at 2, 5, 10, 15, 20,
/// 25, 28 and 40, and a block size between two keys reads the entry of the
/// largest key at or below it.  Block sizes below the first key read the
/// entry of the first key.
pub open spec fn spec_delta_micro(block_size: u64) -> u64 {
    if block_size < 5 {
        102190
    } else if block_size < 10 {
        101862
    } else if block_size < 15 {
        101616
    } else if block_size < 20 {
        101485
    } else if block_size < 25 {
        101420
    } else if block_size < 28 {
        101342
    } else if block_size < 40 {
        101331
    } else {
        101295
    }
}

/// The tabulated root Hermite factor at block sizes up to the last
/// calibration point, scaled by `DELTA_SCALE`.
pub fn bkz_delta_micro(block_size: u64) -> (delta_micro: u64)
    requires
        block_size <= DELTA_TABLE_MAX,
    ensures
        delta_micro == spec_delta_micro(block_size),
{
    if block_size < 5 {
        102190
    } else if block_size < 10 {
        101862
    } else if block_size < 15 {
        101616
    } else if block_size < 20 {
        101485
    } else if block_size < 25 {
        101420
    } else if block_size < 28 {
        101342
    } else if block_size < 40 {
        101331
    } else {
        101295
    }
}

/// A larger block size never yields a larger root Hermite factor: the
/// calibrated table is non-increasing, so stronger reduction means at least
/// the same geometric quality.
pub proof fn lemma_delta_micro_non_increasing(b1: u64, b2: u64)
    requires
        b1 <= b2,
    ensures
        spec_delta_micro(b1) >= spec_delta_micro(b2),
{
}

} // verus!
