use lattice_estimator::delta::{bkz_delta_micro, DELTA_SCALE, DELTA_TABLE_MAX};
use lattice_estimator::models::Estimates;
use lattice_estimator::plan::{
    batch_request, bkz_cost_plan, bkz_tours, lll_cost_units, BatchRequest, CombinedFamily,
    CostPlan, SvpFormula, NB_BKZ_TOURS,
};
use lattice_estimator::profile::{gsa_coeffs, volume_q_exponent, zgsa_slope_regime, SlopeRegime};

#[test]
fn test_chengue_plan() {
    let plan = bkz_cost_plan(Estimates::CheNgueEnum, 500, 1024);
    assert_eq!(
        plan,
        CostPlan::Standard { formula: SvpFormula::CheNgue, tours: 8192, lll_dim: 1024 }
    );
}

#[test]
fn test_bdgl_regime_boundary() {
    let low = bkz_cost_plan(Estimates::BdglSieve, 89, 1024);
    assert_eq!(
        low,
        CostPlan::Standard { formula: SvpFormula::BdglLow, tours: 8192, lll_dim: 1024 }
    );
    let high = bkz_cost_plan(Estimates::BdglSieve, 90, 1024);
    assert_eq!(
        high,
        CostPlan::Standard { formula: SvpFormula::BdglHigh, tours: 8192, lll_dim: 1024 }
    );
}

#[test]
fn test_abf_regime_boundary() {
    let low = bkz_cost_plan(Estimates::AbfEnum(true), 92, 1024);
    assert!(matches!(
        low,
        CostPlan::Standard { formula: SvpFormula::AbfClassicalLow, .. }
    ));
    let high = bkz_cost_plan(Estimates::AbfEnum(true), 93, 1024);
    assert!(matches!(
        high,
        CostPlan::Standard { formula: SvpFormula::AbfClassicalHigh, .. }
    ));
    let quantum = bkz_cost_plan(Estimates::AbfEnum(false), 92, 1024);
    assert!(matches!(
        quantum,
        CostPlan::Standard { formula: SvpFormula::AbfQuantum, .. }
    ));
    let quantum_high = bkz_cost_plan(Estimates::AbfEnum(false), 500, 1024);
    assert!(matches!(
        quantum_high,
        CostPlan::Standard { formula: SvpFormula::AbfQuantum, .. }
    ));
}

#[test]
fn test_ablr_regime_boundary() {
    let low = bkz_cost_plan(Estimates::AblrEnum, 97, 1024);
    assert!(matches!(
        low,
        CostPlan::Standard { formula: SvpFormula::AblrLow, .. }
    ));
    let high = bkz_cost_plan(Estimates::AblrEnum, 98, 1024);
    assert!(matches!(
        high,
        CostPlan::Standard { formula: SvpFormula::AblrHigh, .. }
    ));
}

#[test]
fn test_adps_flag() {
    let classical = bkz_cost_plan(Estimates::AdpsSieve(true), 500, 1024);
    assert!(matches!(
        classical,
        CostPlan::Standard { formula: SvpFormula::AdpsClassical, .. }
    ));
    let quantum = bkz_cost_plan(Estimates::AdpsSieve(false), 500, 1024);
    assert_eq!(
        quantum,
        CostPlan::Standard { formula: SvpFormula::AdpsQuantum, tours: 8192, lll_dim: 1024 }
    );
}

#[test]
fn test_single_regime_formulas() {
    let q = bkz_cost_plan(Estimates::QSieve, 200, 400);
    assert!(matches!(q, CostPlan::Standard { formula: SvpFormula::QSieve, .. }));
    let bjg = bkz_cost_plan(Estimates::BjgSieve, 200, 400);
    assert!(matches!(bjg, CostPlan::Standard { formula: SvpFormula::Bjg, .. }));
    let chaloy = bkz_cost_plan(Estimates::ChaLoySieve, 200, 400);
    assert!(matches!(chaloy, CostPlan::Standard { formula: SvpFormula::ChaLoy, .. }));
    let lotus = bkz_cost_plan(Estimates::LotusEnum, 200, 400);
    assert!(matches!(lotus, CostPlan::Standard { formula: SvpFormula::Lotus, .. }));
}

#[test]
fn test_combined_fallback_boundary() {
    let below = bkz_cost_plan(Estimates::Kyber(true), 19, 1024);
    assert_eq!(below, CostPlan::EnumFallback);
    let at = bkz_cost_plan(Estimates::Kyber(true), 20, 1024);
    assert_eq!(
        at,
        CostPlan::Combined {
            family: CombinedFamily::Kyber,
            classical: true,
            svp_call_blocks: 1004,
            lll_dim: 1024,
        }
    );
    let matzov = bkz_cost_plan(Estimates::Matzov(false), 19, 1024);
    assert_eq!(matzov, CostPlan::EnumFallback);
}

#[test]
fn test_combined_svp_call_blocks() {
    // One dimension left over the block: a single SVP call batch.
    let one_left = bkz_cost_plan(Estimates::Matzov(true), 1023, 1024);
    assert_eq!(
        one_left,
        CostPlan::Combined {
            family: CombinedFamily::Matzov,
            classical: true,
            svp_call_blocks: 1,
            lll_dim: 1024,
        }
    );
    // Two left: one batch per leftover dimension.
    let two_left = bkz_cost_plan(Estimates::Matzov(true), 1022, 1024);
    assert!(matches!(
        two_left,
        CostPlan::Combined { svp_call_blocks: 2, .. }
    ));
    // Block spans the lattice.
    let full = bkz_cost_plan(Estimates::Kyber(false), 1024, 1024);
    assert_eq!(
        full,
        CostPlan::Combined {
            family: CombinedFamily::Kyber,
            classical: false,
            svp_call_blocks: 1,
            lll_dim: 1024,
        }
    );
}

#[test]
fn test_bkz_tours() {
    assert_eq!(NB_BKZ_TOURS, 8);
    assert_eq!(bkz_tours(500, 1024), 8192);
    assert_eq!(bkz_tours(1023, 1024), 8192);
    assert_eq!(bkz_tours(1024, 1024), 1);
    assert_eq!(bkz_tours(2000, 1024), 1);
}

#[test]
fn test_lll_cost_units() {
    assert_eq!(lll_cost_units(1024, None), Some(1 << 30));
    assert_eq!(lll_cost_units(3, Some(2)), Some(108));
    assert_eq!(lll_cost_units(0, None), Some(0));
    assert_eq!(lll_cost_units(5, Some(0)), Some(0));
    assert_eq!(lll_cost_units(7, Some(1)), Some(343));
    // Largest cube below the overflow edge, then the first above it.
    assert_eq!(lll_cost_units(2642245, None), Some(2642245u64 * 2642245 * 2642245));
    assert_eq!(lll_cost_units(2642246, None), None);
    assert_eq!(lll_cost_units(u64::MAX, Some(u64::MAX)), None);
    assert_eq!(lll_cost_units(1024, Some(1 << 32)), None);
}

#[test]
fn test_delta_calibration_points() {
    assert_eq!(DELTA_SCALE, 100000);
    assert_eq!(DELTA_TABLE_MAX, 40);
    assert_eq!(bkz_delta_micro(2), 102190);
    assert_eq!(bkz_delta_micro(5), 101862);
    assert_eq!(bkz_delta_micro(10), 101616);
    assert_eq!(bkz_delta_micro(15), 101485);
    assert_eq!(bkz_delta_micro(20), 101420);
    assert_eq!(bkz_delta_micro(25), 101342);
    assert_eq!(bkz_delta_micro(28), 101331);
    assert_eq!(bkz_delta_micro(40), 101295);
    // The table never increases with the block size.
    assert!(bkz_delta_micro(2) >= bkz_delta_micro(40));
}

#[test]
fn test_delta_step_function() {
    assert_eq!(bkz_delta_micro(0), 102190);
    assert_eq!(bkz_delta_micro(1), 102190);
    assert_eq!(bkz_delta_micro(3), 102190);
    assert_eq!(bkz_delta_micro(4), 102190);
    assert_eq!(bkz_delta_micro(9), 101862);
    assert_eq!(bkz_delta_micro(14), 101616);
    assert_eq!(bkz_delta_micro(19), 101485);
    assert_eq!(bkz_delta_micro(24), 101420);
    assert_eq!(bkz_delta_micro(27), 101342);
    assert_eq!(bkz_delta_micro(39), 101331);
}

#[test]
fn test_batch_request() {
    assert_eq!(batch_request(Some(1)), BatchRequest::Single);
    assert_eq!(batch_request(None), BatchRequest::Natural);
    assert_eq!(batch_request(Some(1000)), BatchRequest::Explicit(1000));
    assert_eq!(batch_request(Some(0)), BatchRequest::Explicit(0));
}

#[test]
fn test_volume_q_exponent() {
    assert_eq!(volume_q_exponent(213, 128, false), 85);
    assert_eq!(volume_q_exponent(213, 128, true), 84);
    assert_eq!(volume_q_exponent(5, 4, true), 0);
    assert_eq!(volume_q_exponent(5, 0, false), 5);
}

#[test]
fn test_gsa_coeffs() {
    let coeffs = gsa_coeffs(213);
    assert_eq!(coeffs.len(), 213);
    assert_eq!(coeffs[0], 212);
    assert_eq!(coeffs[1], 210);
    assert_eq!(coeffs[212], -212);
    let small = gsa_coeffs(5);
    assert_eq!(small, vec![4i64, 2, 0, -2, -4]);
    let empty = gsa_coeffs(0);
    assert!(empty.is_empty());
}

#[test]
fn test_gsa_coeffs_strictly_decreasing() {
    let coeffs = gsa_coeffs(97);
    for pair in coeffs.windows(2) {
        assert!(pair[0] > pair[1]);
    }
}

#[test]
fn test_zgsa_slope_regime() {
    assert_eq!(zgsa_slope_regime(2), SlopeRegime::Table);
    assert_eq!(zgsa_slope_regime(60), SlopeRegime::Table);
    assert_eq!(zgsa_slope_regime(61), SlopeRegime::Interpolated);
    assert_eq!(zgsa_slope_regime(70), SlopeRegime::Interpolated);
    assert_eq!(zgsa_slope_regime(71), SlopeRegime::Asymptotic);
}
