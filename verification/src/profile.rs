//! Integer skeleton of the simulated Gram-Schmidt profiles.
//!
//! The basis-shape simulators predict the squared Gram-Schmidt norms of a
//! reduced basis.  Under the geometric series assumption (GSA) the
//! log-profile is an arithmetic progression whose integer coefficients are
//! built here; the Z-shaped variant keeps a flat region of tabulated length
//! and applies a slope whose defining rule changes with the block size.
//! The real-valued volume and slope factors are applied by the caller.

use vstd::prelude::*;

verus! {

/// Exponent of the modulus `q` in the lattice volume: of the `d`
/// Gram-Schmidt directions, `d - n` carry a factor `q` in the homogeneous
/// case and one fewer when an explicit approximation factor scales the
/// volume.  The same number is the length of the flat region of the Z-shaped
/// profile.
pub open spec fn spec_volume_q_exponent(d: u64, n: u64, scaled: bool) -> int {
    if scaled {
        d - n - 1
    } else {
        d - n
    }
}

/// The power of `q` in the simulated lattice volume; with `scaled` set, one
/// direction is reserved for the approximation factor.
pub fn volume_q_exponent(d: u64, n: u64, scaled: bool) -> (e: u64)
    requires
        n < d,
    ensures
        e == spec_volume_q_exponent(d, n, scaled),
{
    if scaled {
        d - n - 1
    } else {
        d - n
    }
}

/// GSA exponent coefficient of the Gram-Schmidt vector at index `i` in a
/// rank-`d` lattice: the log-profile is `d - 1 - 2i` times the log root
/// Hermite factor, plus the same volume share at every index.
pub open spec fn spec_gsa_coeff(d: u64, i: int) -> int {
    d - 1 - 2 * i
}

/// The integer coefficients `d - 1 - 2i` of the GSA log-profile, in index
/// order: one entry per Gram-Schmidt vector, largest first.
pub fn gsa_coeffs(d: u64) -> (coeffs: Vec<i64>)
    requires
        d <= 0x4000_0000_0000_0000,
    ensures
        coeffs@.len() == d,
        forall|i: int| 0 <= i < d ==> #[trigger] coeffs@[i] == spec_gsa_coeff(d, i),
{
    let mut coeffs: Vec<i64> = Vec::new();
    let mut i: u64 = 0;
    while i < d
        invariant
            i <= d,
            d <= 0x4000_0000_0000_0000,
            coeffs@.len() == i,
            forall|j: int| 0 <= j < i ==> #[trigger] coeffs@[j] == spec_gsa_coeff(d, j),
        decreases d - i,
    {
        let c: i64 = d as i64 - 1 - 2 * (i as i64);
        coeffs.push(c);
        i = i + 1;
    }
    coeffs
}

/// The GSA coefficients drop by exactly 2 per index, so the predicted
/// log-profile strictly decreases: the simulated basis carries its
/// largest-norm vector first.
pub proof fn lemma_gsa_coeffs_strictly_decreasing(d: u64, i: int, j: int)
    requires
        0 <= i < j < d,
    ensures
        spec_gsa_coeff(d, i) > spec_gsa_coeff(d, j),
{
}

/// Which rule gives the slope of the Z-shaped profile at a block size.
#[derive(Clone, Copy, Debug, PartialEq, Eq, Structural)]
pub enum SlopeRegime {
    /// Block size at most 60: the slope comes from the calibration table.
    Table,
    /// Block sizes 61 to 70: linear interpolation between the table entry at
    /// 60 and twice the log root Hermite factor at 70.
    Interpolated,
    /// Block size above 70: fixed at twice the log root Hermite factor at 70.
    Asymptotic,
}

/// The slope rule applied by the Z-shaped simulator at `block_size`.
pub open spec fn spec_zgsa_slope_regime(block_size: u64) -> SlopeRegime {
    if block_size <= 60 {
        SlopeRegime::Table
    } else if block_size <= 70 {
        SlopeRegime::Interpolated
    } else {
        SlopeRegime::Asymptotic
    }
}

/// Selects the slope rule of the Z-shaped simulator for a block size.
pub fn zgsa_slope_regime(block_size: u64) -> (regime: SlopeRegime)
    ensures
        regime == spec_zgsa_slope_regime(block_size),
{
    if block_size <= 60 {
        SlopeRegime::Table
    } else if block_size <= 70 {
        SlopeRegime::Interpolated
    } else {
        SlopeRegime::Asymptotic
    }
}

} // verus!
