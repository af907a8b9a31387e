use cyboair_core::controller::CorridorController;
use cyboair_core::corridor::{
    compute_karma_bytes, compute_mass_kg, unit_to_kg_factor, ConcentrationUnit, CorridorRow, KgFactor, NodeState,
};
use cyboair_core::fixed::UNIT;
use cyboair_core::guards::{
    DwCeilingInvariant, EcoBand, EcoBandClassifier, HostBudget, RectSafetyEnvelope, SafetyEnvelope, SafetyError,
    SimpleDwCeiling, SimpleHostBudget, ThresholdEcoBand,
};

fn fx(x: f64) -> i64 {
    (x * 1e9).round() as i64
}

fn canopy_row() -> CorridorRow {
    CorridorRow {
        machine_id: "CYB-AIR-CANOPY-01".to_string(),
        node_type: "UrbanNanoswarmCanopy".to_string(),
        location: "Phoenix-Intersection-A".to_string(),
        pollutant: "PM2.5".to_string(),
        cin: fx(40.0),
        cout: fx(28.0),
        unit: ConcentrationUnit::MicrogramsPerM3,
        airflow_m3_per_s: fx(3.0),
        period_s: fx(3600.0),
        lambda_hazard: fx(3.0),
        beta_nb_per_kg: fx(5.0e8),
        ecoimpact_score: fx(0.92),
    }
}

fn node(row: CorridorRow, duty: f64) -> NodeState {
    NodeState { row, mass_kg: 129_600, karma_bytes: fx(194_400.0), duty_cycle: fx(duty), power_w: fx(50.0), geo_weight: fx(0.8) }
}

type Controller = CorridorController<RectSafetyEnvelope, SimpleHostBudget, ThresholdEcoBand, SimpleDwCeiling>;

fn controller(eta_m: f64, eta_k: f64, eta_w: f64, eta_b: f64, eta_p: f64, eta_dw: f64) -> Controller {
    CorridorController {
        envelope: RectSafetyEnvelope {
            u_min: 0,
            u_max: UNIT,
            z_min_m: fx(5.0),
            z_max_m: fx(600.0),
            ecoimpact_min: fx(0.7),
            ecoimpact_max: fx(1.0),
        },
        host_budget: SimpleHostBudget { p_max_w: fx(150.0), e_step_max_j: fx(1.0e5), step_dt_s: fx(300.0) },
        eco_band: ThresholdEcoBand {
            theta_green_amber: fx(0.5),
            theta_amber_red: fx(1.0),
            gain_green: 0,
            gain_amber: fx(0.2),
            gain_red: fx(0.5),
        },
        dw_ceiling: SimpleDwCeiling { phi_dw_max: fx(1.0e-6) },
        m_ref_kg: fx(1.0e-6),
        k_ref_nb: fx(1.0e9),
        eta_m: fx(eta_m),
        eta_k: fx(eta_k),
        eta_w: fx(eta_w),
        eta_b: fx(eta_b),
        eta_p: fx(eta_p),
        eta_dw: fx(eta_dw),
    }
}

#[test]
fn mass_and_karma_of_canopy_row() {
    let row = canopy_row();
    let m = compute_mass_kg(&row, fx(310.0), fx(0.048));
    // (40 - 28) * 1e-9 * 3 * 3600 = 1.296e-4 kg
    assert_eq!(m, 129_600);
    let k = compute_karma_bytes(&row, m);
    // 3.0 * 5e8 * 1.296e-4 = 1.944e5
    assert_eq!(k, fx(194_400.0));
}

#[test]
fn mass_is_zero_when_outflow_exceeds_inflow_or_unit_unknown() {
    let mut row = canopy_row();
    row.cout = fx(50.0);
    assert_eq!(compute_mass_kg(&row, fx(310.0), fx(0.048)), 0);
    let mut row = canopy_row();
    row.unit = ConcentrationUnit::Unrecognized;
    assert_eq!(compute_mass_kg(&row, fx(310.0), fx(0.048)), 0);
    // Negative readings are accepted; only the positive drop counts.
    let mut row = canopy_row();
    row.cin = fx(-2.0);
    row.cout = fx(-14.0);
    assert_eq!(compute_mass_kg(&row, fx(310.0), fx(0.048)), 129_600);
    // A heavy molar mass is fine for ppb while the product stays in range.
    row.unit = ConcentrationUnit::Ppb;
    assert!(compute_mass_kg(&row, fx(310.0), fx(3.0)) > 0);
}

#[test]
fn mass_in_milligrams_and_ppb() {
    let mut row = canopy_row();
    row.unit = ConcentrationUnit::MilligramsPerM3;
    // 12 mg/m3 * 10800 m3 = 0.1296 kg
    assert_eq!(compute_mass_kg(&row, fx(310.0), fx(0.048)), 129_600_000);
    row.unit = ConcentrationUnit::Ppb;
    row.cin = fx(100.0);
    row.cout = 0;
    row.airflow_m3_per_s = fx(10.0);
    row.period_s = fx(1000.0);
    // 100 * 1e4 * 0.048 / (8.3145 * 310) * 1e-9 kg = 1.862e-8 kg
    assert_eq!(compute_mass_kg(&row, fx(310.0), fx(0.048)), 18);
}

#[test]
fn unit_factors() {
    assert_eq!(unit_to_kg_factor(ConcentrationUnit::MicrogramsPerM3, fx(300.0), 0), KgFactor { num: 1, den: 1_000_000_000 });
    assert_eq!(unit_to_kg_factor(ConcentrationUnit::MilligramsPerM3, fx(300.0), 0), KgFactor { num: 1, den: 1_000_000 });
    assert_eq!(unit_to_kg_factor(ConcentrationUnit::Unrecognized, fx(300.0), 0), KgFactor { num: 0, den: 1 });
    let f = unit_to_kg_factor(ConcentrationUnit::Ppb, fx(300.0), fx(0.048));
    assert_eq!(f.num, fx(0.048));
    assert_eq!(f.den, 83145i128 * (fx(300.0) as i128) * 100_000);
}

#[test]
fn unit_tags() {
    assert_eq!(ConcentrationUnit::from_tag(&"ugm3".to_string()), ConcentrationUnit::MicrogramsPerM3);
    assert_eq!(ConcentrationUnit::from_tag(&"mgm3".to_string()), ConcentrationUnit::MilligramsPerM3);
    assert_eq!(ConcentrationUnit::from_tag(&"ppb".to_string()), ConcentrationUnit::Ppb);
    assert_eq!(ConcentrationUnit::from_tag(&"ug/m3".to_string()), ConcentrationUnit::MicrogramsPerM3);
    assert_eq!(ConcentrationUnit::from_tag(&"mg/m3".to_string()), ConcentrationUnit::MilligramsPerM3);
    assert_eq!(ConcentrationUnit::from_tag(&"g/m3".to_string()), ConcentrationUnit::Unrecognized);
}

#[test]
fn envelope_passes_then_holds_duty_cycle() {
    let env = controller(0.1, 0.1, 0.2, 0.2, 0.05, 0.1).envelope;
    let n = node(canopy_row(), 0.5);
    assert_eq!(env.check_envelope(&n, fx(331.0)), Ok(()));

    let mut low = canopy_row();
    low.ecoimpact_score = fx(0.5);
    let mut n_low = node(low, 0.5);
    assert!(matches!(env.check_envelope(&n_low, fx(331.0)), Err(SafetyError::EnvelopeViolation(_))));
    let c = controller(0.1, 0.1, 0.2, 0.2, 0.05, 0.1);
    let r = c.update_node_duty(&mut n_low, EcoBand::Green, fx(5.0e-7), fx(331.0));
    assert!(matches!(r, Err(SafetyError::EnvelopeViolation(_))));
    assert_eq!(n_low.duty_cycle, fx(0.5));
}

#[test]
fn envelope_rejects_altitude_and_duty() {
    let env = controller(0.1, 0.1, 0.2, 0.2, 0.05, 0.1).envelope;
    let n = node(canopy_row(), 0.5);
    assert_eq!(env.check_envelope(&n, fx(700.0)), Err(SafetyError::EnvelopeViolation("altitude out of bounds")));
    let n2 = node(canopy_row(), 1.5);
    assert_eq!(env.check_envelope(&n2, fx(331.0)), Err(SafetyError::EnvelopeViolation("duty_cycle out of bounds")));
}

#[test]
fn host_budget_checks_power_and_energy() {
    let hb = SimpleHostBudget { p_max_w: fx(150.0), e_step_max_j: fx(1.0e4), step_dt_s: fx(300.0) };
    let mut n = node(canopy_row(), 0.5);
    n.power_w = fx(30.0);
    assert_eq!(hb.check_host_budget(&n), Ok(()));
    assert_eq!(hb.power_fraction(&n), 200_000_000);
    n.power_w = fx(50.0);
    assert_eq!(hb.check_host_budget(&n), Err(SafetyError::HostBudgetExceeded("per-step energy exceeded")));
    n.power_w = fx(200.0);
    assert_eq!(hb.check_host_budget(&n), Err(SafetyError::HostBudgetExceeded("instantaneous power exceeded")));
    n.power_w = fx(-10.0);
    assert_eq!(hb.power_fraction(&n), 0);
    let zero = SimpleHostBudget { p_max_w: 0, e_step_max_j: 0, step_dt_s: 0 };
    assert_eq!(zero.power_fraction(&n), 0);
}

#[test]
fn eco_band_thresholds_and_gains() {
    let b = controller(0.1, 0.1, 0.2, 0.2, 0.05, 0.1).eco_band;
    assert_eq!(b.classify(fx(0.2)), EcoBand::Green);
    assert_eq!(b.classify(fx(0.5)), EcoBand::Amber);
    assert_eq!(b.classify(fx(1.0)), EcoBand::Red);
    assert_eq!(b.band_gain(EcoBand::Amber), fx(0.2));
    assert_eq!(b.band_gain(EcoBand::Red), fx(0.5));
}

#[test]
fn dw_ceiling_violation() {
    let d = SimpleDwCeiling { phi_dw_max: fx(2.0) };
    assert_eq!(d.check_dw_ceiling(fx(1.0)), Ok(()));
    assert!(matches!(d.check_dw_ceiling(fx(3.0)), Err(SafetyError::DwCeilingExceeded(_))));
    assert_eq!(d.dw_violation(fx(3.0)), fx(0.5));
    assert_eq!(d.dw_violation(fx(1.0)), 0);
    assert_eq!(SimpleDwCeiling { phi_dw_max: 0 }.dw_violation(fx(3.0)), 0);
    // The smallest overage still counts: rounded up, never to zero.
    assert!(d.check_dw_ceiling(fx(2.0) + 1).is_err());
    assert_eq!(d.dw_violation(fx(2.0) + 1), 1);
    assert_eq!(d.dw_violation(fx(2.0)), 0);
}

#[test]
fn duty_update_follows_the_linear_law() {
    // Only the geo-weight and band terms act: u' = 0.5 + 0.2*0.8 + 0.2*0.2 = 0.7.
    let c = controller(0.0, 0.0, 0.2, 0.2, 0.0, 0.0);
    let mut n = node(canopy_row(), 0.5);
    assert_eq!(c.update_node_duty(&mut n, EcoBand::Amber, 0, fx(331.0)), Ok(()));
    assert_eq!(n.duty_cycle, fx(0.7));
    // The power penalty: 50 W of 150 W at gain 0.3 removes 0.099999999
    // (one third is truncated to 0.333333333).
    let c = controller(0.0, 0.0, 0.0, 0.0, 0.3, 0.0);
    let mut n = node(canopy_row(), 0.5);
    assert_eq!(c.update_node_duty(&mut n, EcoBand::Green, 0, fx(331.0)), Ok(()));
    assert_eq!(n.duty_cycle, 400_000_001);
    assert_eq!(n.mass_kg, 129_600);
}

#[test]
fn duty_update_projects_onto_unit_interval() {
    // Huge mass and karma terms saturate at 1.
    let c = controller(1000.0, 1000.0, 1.0, 1.0, 0.0, 0.0);
    let mut n = node(canopy_row(), 0.5);
    assert_eq!(c.update_node_duty(&mut n, EcoBand::Red, 0, fx(331.0)), Ok(()));
    assert_eq!(n.duty_cycle, UNIT);
    // A large DW penalty drives it to 0.
    let c = controller(0.0, 0.0, 0.0, 0.0, 0.0, 1000.0);
    let mut n = node(canopy_row(), 0.5);
    assert_eq!(c.update_node_duty(&mut n, EcoBand::Green, fx(1.0), fx(331.0)), Ok(()));
    assert_eq!(n.duty_cycle, 0);
}

#[test]
fn duty_update_stops_on_host_budget() {
    let c = controller(0.1, 0.1, 0.2, 0.2, 0.05, 0.1);
    let mut n = node(canopy_row(), 0.5);
    n.power_w = fx(400.0);
    assert!(matches!(c.update_node_duty(&mut n, EcoBand::Green, 0, fx(331.0)), Err(SafetyError::HostBudgetExceeded(_))));
    assert_eq!(n.duty_cycle, fx(0.5));
}

#[test]
fn eco_load_sums_the_corridor() {
    let c = controller(0.1, 0.1, 0.2, 0.2, 0.05, 0.1);
    let a = node(canopy_row(), 0.5);
    let mut b = node(canopy_row(), 0.7);
    b.mass_kg = 32_400;
    b.karma_bytes = fx(100_000.0);
    // 0.5 * (1.62e-4 / 1e-6) + 0.5 * (294400 / 1e9) = 81.0001472
    assert_eq!(c.eco_load(&[a, b], fx(0.5), fx(0.5)), 81_000_147_200);
    assert_eq!(c.eco_load(&[], fx(0.5), fx(0.5)), 0);
    assert_eq!(c.dw_flux_density(fx(5.0e-7)), fx(5.0e-7));
}

#[test]
fn safety_error_details() {
    assert_eq!(SafetyError::DwCeilingExceeded("dw ceiling violated").detail(), "dw ceiling violated");
    assert_eq!(SafetyError::HostBudgetExceeded("x").detail(), "x");
}

#[test]
fn checked_estimates_refuse_out_of_range_rows() {
    let row = canopy_row();
    assert_eq!(cyboair_core::corridor::try_compute_mass_kg(&row, fx(310.0), fx(0.048)), Some(129_600));
    assert_eq!(cyboair_core::corridor::try_compute_karma_bytes(&row, 129_600), Some(fx(194_400.0)));
    let mut negative = canopy_row();
    negative.airflow_m3_per_s = fx(-1.0);
    assert_eq!(cyboair_core::corridor::try_compute_mass_kg(&negative, fx(310.0), fx(0.048)), None);
    let mut huge = canopy_row();
    huge.airflow_m3_per_s = i64::MAX;
    huge.period_s = i64::MAX;
    assert_eq!(cyboair_core::corridor::try_compute_mass_kg(&huge, fx(310.0), fx(0.048)), None);
    let mut ppb = canopy_row();
    ppb.unit = ConcentrationUnit::Ppb;
    assert_eq!(cyboair_core::corridor::try_compute_mass_kg(&ppb, 0, fx(0.048)), None);
    assert_eq!(cyboair_core::corridor::try_compute_karma_bytes(&row, i64::MAX), None);
}

#[test]
fn checked_eco_load_and_update_range() {
    let c = controller(0.1, 0.1, 0.2, 0.2, 0.05, 0.1);
    let a = node(canopy_row(), 0.5);
    assert_eq!(c.try_eco_load(&[a.clone()], fx(0.5), fx(0.5)), Some(c.eco_load(&[a.clone()], fx(0.5), fx(0.5))));
    let mut big = node(canopy_row(), 0.5);
    big.mass_kg = i64::MAX;
    assert_eq!(c.try_eco_load(&[big.clone(), big.clone()], fx(0.5), fx(0.5)), None);
    assert!(c.update_in_range(&a, fx(5.0e-7)));
    assert!(!c.update_in_range(&big, fx(5.0e-7)));
    assert!(!c.update_in_range(&a, i64::MAX));
}
