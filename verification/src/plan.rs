//! From a cost model and lattice parameters to an evaluation plan.
//!
//! `bkz_cost` prices a BKZ reduction at block size `beta` of a rank-`d`
//! lattice under a chosen cost model.  Every model evaluates one closed-form
//! real expression, but the choice of expression is exact integer logic: the
//! block-size regime of the formula, the tour multiplier, the dimension of
//! the LLL preprocessing term, the small-block enumeration fallback of the
//! combined models and their SVP-call multiplier.  [`bkz_cost_plan`] makes
//! those choices with a verified contract; evaluating the selected formula
//! takes transcendental arithmetic and stays with the caller.

use vstd::prelude::*;
use crate::models::Estimates;

verus! {

/// Fixed heuristic number of BKZ tours per lattice dimension.
pub const NB_BKZ_TOURS: u64 = 8;

/// Combined models fall back to the Chen-Nguyen enumeration estimate below
/// this block size, where their asymptotics do not hold.
pub const COMBINED_MIN_BLOCK_SIZE: u64 = 20;

/// How many BKZ tours a full reduction at block size `block_size` of a
/// rank-`d` lattice is charged: `NB_BKZ_TOURS * d` while the block is
/// strictly smaller than the lattice rank, and a single tour once the block
/// spans the whole lattice.
pub open spec fn spec_bkz_tours(block_size: u64, d: u64) -> int {
    if block_size < d {
        NB_BKZ_TOURS * d
    } else {
        1
    }
}

/// Tour multiplier applied to the per-call SVP-oracle cost.
pub fn bkz_tours(block_size: u64, d: u64) -> (tours: u64)
    requires
        NB_BKZ_TOURS * d <= u64::MAX,
    ensures
        tours == spec_bkz_tours(block_size, d),
{
    if block_size < d {
        NB_BKZ_TOURS * d
    } else {
        1
    }
}

/// One closed-form SVP-oracle cost formula, with its block-size regime.
/// The regime boundaries are those of the source analyses and are strict in
/// exactly the stated direction.
#[derive(Clone, Copy, Debug, PartialEq, Eq, Structural)]
pub enum SvpFormula {
    /// BDGL sieve below block size 90.
    BdglLow,
    /// BDGL sieve at block size 90 and above.
    BdglHigh,
    /// ChaLoy quantum sieve.
    ChaLoy,
    /// BJG sieve.
    Bjg,
    /// ADPS sieve, classical exponent.
    AdpsClassical,
    /// ADPS sieve, quantum exponent.
    AdpsQuantum,
    /// Quantum sieve with the fixed additive overhead.
    QSieve,
    /// Chen-Nguyen enumeration with the fixed node-processing overhead.
    CheNgue,
    /// ABF classical enumeration at block size 92 and below.
    AbfClassicalLow,
    /// ABF classical enumeration above block size 92.
    AbfClassicalHigh,
    /// ABF quantum enumeration.
    AbfQuantum,
    /// ABLR enumeration at block size 97 and below.
    AblrLow,
    /// ABLR enumeration above block size 97.
    AblrHigh,
    /// LOTUS enumeration.
    Lotus,
}

/// The two combined whole-attack model families.
#[derive(Clone, Copy, Debug, PartialEq, Eq, Structural)]
pub enum CombinedFamily {
    Kyber,
    Matzov,
}

/// How to evaluate `bkz_cost` for one model and parameter set.
#[derive(Clone, Copy, Debug, PartialEq, Eq, Structural)]
pub enum CostPlan {
    /// `tours` SVP-oracle calls of `formula` at the block size, plus the
    /// cubic LLL preprocessing term in dimension `lll_dim`.
    Standard { formula: SvpFormula, tours: u64, lll_dim: u64 },
    /// Block size too small for the combined asymptotics: the Chen-Nguyen
    /// enumeration estimate alone, with no tour or LLL term.
    EnumFallback,
    /// Combined attack: the cubic LLL term in dimension `lll_dim`, plus
    /// `svp_call_blocks` times the base SVP-call count, each call priced at
    /// the regression coefficients of the family and flag.
    Combined { family: CombinedFamily, classical: bool, svp_call_blocks: u64, lll_dim: u64 },
}

/// Multiplier on the base SVP-call count of the combined models: one call
/// per dimension left over the block when more than one is left, else a
/// single call.
pub open spec fn spec_svp_call_blocks(block_size: u64, d: u64) -> int {
    if d - block_size > 1 {
        d - block_size
    } else {
        1
    }
}

/// The formula a standard (non-combined) model selects at a block size.
pub open spec fn spec_svp_formula(est: Estimates, block_size: u64) -> SvpFormula {
    match est {
        Estimates::BdglSieve => if block_size < 90 {
            SvpFormula::BdglLow
        } else {
            SvpFormula::BdglHigh
        },
        Estimates::QSieve => SvpFormula::QSieve,
        Estimates::BjgSieve => SvpFormula::Bjg,
        Estimates::AdpsSieve(classical) => if classical {
            SvpFormula::AdpsClassical
        } else {
            SvpFormula::AdpsQuantum
        },
        Estimates::ChaLoySieve => SvpFormula::ChaLoy,
        Estimates::CheNgueEnum => SvpFormula::CheNgue,
        Estimates::AbfEnum(classical) => if !classical {
            SvpFormula::AbfQuantum
        } else if block_size <= 92 {
            SvpFormula::AbfClassicalLow
        } else {
            SvpFormula::AbfClassicalHigh
        },
        Estimates::AblrEnum => if block_size <= 97 {
            SvpFormula::AblrLow
        } else {
            SvpFormula::AblrHigh
        },
        Estimates::LotusEnum => SvpFormula::Lotus,
        // The combined models are dispatched before any formula is selected;
        // their small-block fallback evaluates this same estimate.
        Estimates::Kyber(_) => SvpFormula::CheNgue,
        Estimates::Matzov(_) => SvpFormula::CheNgue,
    }
}

/// The plan of a standard model: the selected formula, the tour multiplier
/// and an LLL term in the full lattice dimension.
pub open spec fn spec_standard_plan(est: Estimates, block_size: u64, d: u64) -> CostPlan {
    CostPlan::Standard {
        formula: spec_svp_formula(est, block_size),
        tours: spec_bkz_tours(block_size, d) as u64,
        lll_dim: d,
    }
}

/// The plan of a combined model: the enumeration fallback below
/// `COMBINED_MIN_BLOCK_SIZE`, else the SVP-call multiplier and an LLL term
/// in the full lattice dimension.
pub open spec fn spec_combined_plan(
    family: CombinedFamily,
    classical: bool,
    block_size: u64,
    d: u64,
) -> CostPlan {
    if block_size < COMBINED_MIN_BLOCK_SIZE {
        CostPlan::EnumFallback
    } else {
        CostPlan::Combined {
            family,
            classical,
            svp_call_blocks: spec_svp_call_blocks(block_size, d) as u64,
            lll_dim: d,
        }
    }
}

/// The evaluation plan of `bkz_cost` for any model.
pub open spec fn spec_cost_plan(est: Estimates, block_size: u64, d: u64) -> CostPlan {
    match est {
        Estimates::Kyber(classical) => spec_combined_plan(
            CombinedFamily::Kyber,
            classical,
            block_size,
            d,
        ),
        Estimates::Matzov(classical) => spec_combined_plan(
            CombinedFamily::Matzov,
            classical,
            block_size,
            d,
        ),
        _ => spec_standard_plan(est, block_size, d),
    }
}

/// Selects the evaluation plan of `bkz_cost`: the formula and block-size
/// regime for the standard models, with the tour multiplier and the LLL
/// dimension; for the combined models, the small-block enumeration fallback
/// or the SVP-call multiplier with the LLL term over the full lattice.
pub fn bkz_cost_plan(est: Estimates, block_size: u64, d: u64) -> (plan: CostPlan)
    requires
        2 <= block_size <= d,
        NB_BKZ_TOURS * d <= u64::MAX,
    ensures
        plan == spec_cost_plan(est, block_size, d),
{
    match est {
        Estimates::Kyber(classical) => combined_plan(CombinedFamily::Kyber, classical, block_size, d),
        Estimates::Matzov(classical) => combined_plan(
            CombinedFamily::Matzov,
            classical,
            block_size,
            d,
        ),
        _ => CostPlan::Standard {
            formula: svp_formula(est, block_size),
            tours: bkz_tours(block_size, d),
            lll_dim: d,
        },
    }
}

/// Regime selection of the standard models.
fn svp_formula(est: Estimates, block_size: u64) -> (formula: SvpFormula)
    ensures
        formula == spec_svp_formula(est, block_size),
{
    match est {
        Estimates::BdglSieve => if block_size < 90 {
            SvpFormula::BdglLow
        } else {
            SvpFormula::BdglHigh
        },
        Estimates::QSieve => SvpFormula::QSieve,
        Estimates::BjgSieve => SvpFormula::Bjg,
        Estimates::AdpsSieve(classical) => if classical {
            SvpFormula::AdpsClassical
        } else {
            SvpFormula::AdpsQuantum
        },
        Estimates::ChaLoySieve => SvpFormula::ChaLoy,
        Estimates::CheNgueEnum => SvpFormula::CheNgue,
        Estimates::AbfEnum(classical) => if !classical {
            SvpFormula::AbfQuantum
        } else if block_size <= 92 {
            SvpFormula::AbfClassicalLow
        } else {
            SvpFormula::AbfClassicalHigh
        },
        Estimates::AblrEnum => if block_size <= 97 {
            SvpFormula::AblrLow
        } else {
            SvpFormula::AblrHigh
        },
        Estimates::LotusEnum => SvpFormula::Lotus,
        Estimates::Kyber(_) => SvpFormula::CheNgue,
        Estimates::Matzov(_) => SvpFormula::CheNgue,
    }
}

/// Combined-model dispatch between the enumeration fallback and the
/// asymptotic attack.
fn combined_plan(family: CombinedFamily, classical: bool, block_size: u64, d: u64) -> (plan:
    CostPlan)
    requires
        2 <= block_size <= d,
    ensures
        plan == spec_combined_plan(family, classical, block_size, d),
{
    if block_size < COMBINED_MIN_BLOCK_SIZE {
        CostPlan::EnumFallback
    } else {
        let svp_call_blocks: u64 = if d - block_size > 1 {
            d - block_size
        } else {
            1
        };
        CostPlan::Combined { family, classical, svp_call_blocks, lll_dim: d }
    }
}

/// Exact value of the cubic LLL cost heuristic: `dim^3`, or `dim^3 * bits^2`
/// when a bit-size hint is given.
pub open spec fn spec_lll_cost_units(dim: u64, bit_size: Option<u64>) -> int {
    match bit_size {
        None => dim * dim * dim,
        Some(bits) => dim * dim * dim * bits * bits,
    }
}

/// The cubic LLL preprocessing cost in exact units, or `None` when it
/// exceeds `u64::MAX`.
pub fn lll_cost_units(dim: u64, bit_size: Option<u64>) -> (units: Option<u64>)
    ensures
        spec_lll_cost_units(dim, bit_size) <= u64::MAX ==> units == Some(
            spec_lll_cost_units(dim, bit_size) as u64,
        ),
        spec_lll_cost_units(dim, bit_size) > u64::MAX ==> units is None,
{
    let bits: u64 = match bit_size {
        None => 1,
        Some(b) => b,
    };
    if bits == 0 || dim == 0 {
        proof {
            assert(dim == 0 ==> dim * dim * dim == 0) by (nonlinear_arith);
            assert(bits == 0 || dim == 0 ==> dim * dim * dim * bits * bits == 0) by (
            nonlinear_arith);
        }
        return Some(0);
    }
    let d2 = match dim.checked_mul(dim) {
        Some(v) => v,
        None => {
            proof {
                assert(dim * dim * dim >= dim * dim) by (nonlinear_arith)
                    requires
                        dim >= 1;
                assert(dim * dim * dim * bits * bits >= dim * dim * dim) by (nonlinear_arith)
                    requires
                        dim >= 1 && bits >= 1;
            }
            return None;
        },
    };
    let d3 = match d2.checked_mul(dim) {
        Some(v) => v,
        None => {
            proof {
                assert(dim * dim * dim * bits * bits >= dim * dim * dim) by (nonlinear_arith)
                    requires
                        dim >= 1 && bits >= 1;
            }
            return None;
        },
    };
    if bits == 1 {
        proof {
            assert(dim * dim * dim * bits * bits == dim * dim * dim) by (nonlinear_arith)
                requires
                    bits == 1;
        }
        return Some(d3);
    }
    let m1 = match d3.checked_mul(bits) {
        Some(v) => v,
        None => {
            proof {
                assert(dim * dim * dim * bits * bits >= dim * dim * dim * bits) by (
                nonlinear_arith)
                    requires
                        bits >= 1;
            }
            return None;
        },
    };
    m1.checked_mul(bits)
}

/// Batching mode of the short-vector estimators.
#[derive(Clone, Copy, Debug, PartialEq, Eq, Structural)]
pub enum BatchRequest {
    /// Exactly one vector was requested: the plain combined cost applies,
    /// with no batching.
    Single,
    /// No count was requested: one full sieve batch at the effective
    /// dimension.
    Natural,
    /// An explicit count, to be amortized over whole sieve batches.
    Explicit(u64),
}

/// The batching mode a requested output count selects.
pub open spec fn spec_batch_request(nb_vec_out: Option<u64>) -> BatchRequest {
    match nb_vec_out {
        None => BatchRequest::Natural,
        Some(n) => if n == 1 {
            BatchRequest::Single
        } else {
            BatchRequest::Explicit(n)
        },
    }
}

/// Dispatch of the short-vector estimators on the requested output count.
pub fn batch_request(nb_vec_out: Option<u64>) -> (request: BatchRequest)
    ensures
        request == spec_batch_request(nb_vec_out),
{
    match nb_vec_out {
        None => BatchRequest::Natural,
        Some(n) => if n == 1 {
            BatchRequest::Single
        } else {
            BatchRequest::Explicit(n)
        },
    }
}

} // verus!
