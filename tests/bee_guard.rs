use cyboair_core::bee_guard::{
    bee_beta_for_pollutant, bee_lambda_for_pollutant, bee_lambda_for_row, compute_bee_karmabytes, geo_weight,
    residual_risk_ok, update_duty_cycle, update_node_bee, BeeContext, BeeGains, BeeGuardNode, ForageNode,
    ForageParams,
};
use cyboair_core::corridor::{validate_row, ConcentrationUnit, CorridorRow};
use cyboair_core::fixed::UNIT;
use cyboair_core::materials::MineralSheet;
use cyboair_core::microspace::{step_node, QpuRow};
use cyboair_core::text::contains_text;

fn fx(x: f64) -> i64 {
    (x * 1e9).round() as i64
}

fn row(location: &str) -> CorridorRow {
    CorridorRow {
        machine_id: "CYB-AIR-BEE-01".to_string(),
        node_type: "HiveShield".to_string(),
        location: location.to_string(),
        pollutant: "PM2.5".to_string(),
        cin: fx(40.0),
        cout: fx(28.0),
        unit: ConcentrationUnit::MicrogramsPerM3,
        airflow_m3_per_s: fx(3.0),
        period_s: fx(3600.0),
        lambda_hazard: fx(3.0),
        beta_nb_per_kg: fx(5.0e8),
        ecoimpact_score: fx(0.9),
    }
}

#[test]
fn pollutant_tables_with_defaults() {
    assert_eq!(bee_lambda_for_pollutant(&"PM2.5".to_string()), fx(3.0));
    assert_eq!(bee_lambda_for_pollutant(&"VOC".to_string()), fx(4.0));
    assert_eq!(bee_lambda_for_pollutant(&"NOx".to_string()), fx(2.5));
    assert_eq!(bee_lambda_for_pollutant(&"Radon".to_string()), fx(1.0));
    assert_eq!(bee_beta_for_pollutant(&"DustPM10".to_string()), fx(3.0e8));
    assert_eq!(bee_beta_for_pollutant(&"O3".to_string()), fx(4.0e8));
    assert_eq!(bee_beta_for_pollutant(&"Radon".to_string()), fx(2.0e8));
}

#[test]
fn bee_karma_and_forage_multiplier() {
    // 3.0 * 6e8 * 1.296e-4 kg = 2.3328e5
    assert_eq!(compute_bee_karmabytes(129_600, fx(3.0), fx(6.0e8)), fx(233_280.0));
    assert_eq!(bee_lambda_for_row(fx(3.0), true, fx(1.5)), fx(4.5));
    assert_eq!(bee_lambda_for_row(fx(3.0), false, fx(1.5)), fx(3.0));
}

fn ctx(mass: f64) -> BeeContext {
    BeeContext {
        hive_id: "HIVE-7".to_string(),
        colony_mass_kg: fx(mass),
        colony_mass_baseline_kg: fx(10.0),
        sbee_min: fx(0.5),
        kref_bee: fx(1.0e6),
        alpha: fx(1.0),
    }
}

#[test]
fn residual_risk_allows_at_most_ten_percent_loss() {
    assert!(residual_risk_ok(&ctx(9.5)));
    assert!(residual_risk_ok(&ctx(9.0)));
    assert!(!residual_risk_ok(&ctx(8.5)));
    let empty = BeeContext { colony_mass_kg: 0, colony_mass_baseline_kg: 0, ..ctx(0.0) };
    assert!(residual_risk_ok(&empty));
}

#[test]
fn location_weights() {
    assert_eq!(geo_weight("North-Apiary-3"), UNIT);
    assert_eq!(geo_weight("Elementary School"), UNIT);
    assert_eq!(geo_weight("Industrial Park"), fx(0.8));
    assert_eq!(geo_weight("Downtown"), fx(0.5));
    assert!(contains_text("Phoenix-Orchard", "Orchard"));
    assert!(!contains_text("Orch", "Orchard"));
    assert!(contains_text("abc", ""));
}

#[test]
fn bee_aware_duty_update() {
    let gains = BeeGains { eta1: 0, eta2: 0, eta3: fx(0.2), eta4: fx(0.1), eta5: fx(0.05) };
    let mut node = BeeGuardNode {
        row: row("Downtown"),
        mass_kg: 0,
        air_karma_bytes: 0,
        bee_karma_bytes: 0,
        duty_cycle: fx(0.5),
        sbee: fx(0.6),
    };
    let start = node.clone();
    // 0.5 + 0.2*0.5 + 0.1*1 - 0.05*1 = 0.65
    update_duty_cycle(&mut node, &ctx(9.5), fx(1.0e-6), fx(1.0e9), fx(1.0), &gains);
    assert_eq!(node.duty_cycle, fx(0.65));
    // A colony that lost 20% turns the bee signal negative: 0.45.
    let mut node = start.clone();
    update_duty_cycle(&mut node, &ctx(8.0), fx(1.0e-6), fx(1.0e9), fx(1.0), &gains);
    assert_eq!(node.duty_cycle, fx(0.45));
    // Strong gains saturate.
    let strong = BeeGains { eta1: 0, eta2: 0, eta3: fx(10.0), eta4: 0, eta5: 0 };
    let mut node = start.clone();
    update_duty_cycle(&mut node, &ctx(9.5), fx(1.0e-6), fx(1.0e9), 0, &strong);
    assert_eq!(node.duty_cycle, UNIT);
}

#[test]
fn forage_node_update() {
    let mut node = ForageNode {
        row: row("School-Garden-East"),
        bee_flag: 1,
        bee_weight: fx(1.5),
        mass_kg: 0,
        karma_bee: 0,
        duty_cycle: 0,
        emf_score: 0,
    };
    let p = ForageParams {
        temperature_k: fx(310.0),
        molar_mass_kg_per_mol: fx(0.048),
        m_ref: fx(1.0e-6),
        k_ref: fx(1.0e9),
        e_ref_bee: fx(1.0),
        eta1: 0,
        eta2: fx(0.1),
        eta3: fx(0.2),
        eta4: fx(0.05),
    };
    update_node_bee(&mut node, &p);
    assert_eq!(node.mass_kg, 129_600);
    // 4.5 * 5e8 * 1.296e-4 = 2.916e5
    assert_eq!(node.karma_bee, fx(291_600.0));
    assert_eq!(node.emf_score, UNIT);
    // 0.1 * 2.916e-4 + 0.2 * (0.5 + 0.3 + 0.2 - 0.5) - 0.05 * 1.0
    assert_eq!(node.duty_cycle, 50_029_160);
}

#[test]
fn row_validation() {
    let r = row("Downtown");
    assert_eq!(validate_row(&r, fx(310.0), fx(0.048)), Ok(()));
    let mut bad = row("Downtown");
    bad.lambda_hazard = fx(-1.0);
    assert!(validate_row(&bad, fx(310.0), fx(0.048)).is_err());
}

#[test]
fn mineral_sheet_net_co2() {
    let s = MineralSheet {
        area_m2: fx(2.0),
        e_prod_kgco2_per_m2: fx(10.0),
        m_carb_kg_per_m2: fx(2.0),
        beta_carb_kgco2_per_kg: fx(1.5),
    };
    assert_eq!(s.net_co2_kg_per_m2(), fx(7.0));
}

fn qpu() -> QpuRow {
    QpuRow {
        node_id: [1; 16],
        region: [2; 16],
        band: 0,
        pollutant: 3,
        cin: fx(1.0),
        cout: fx(0.5),
        q: fx(2.0),
        area: fx(4.0),
        beta_band: fx(0.5),
        dt: fx(10.0),
        lambda_hazard: fx(2.0),
        beta_nb_per_kg: fx(3.0),
    }
}

#[test]
fn microspace_step() {
    // Per row: m = 10 kg, flux 0.25, band mass 5 kg, karma 30.
    let t = step_node(&[qpu(), qpu()], fx(0.2), fx(1.0), fx(0.1), fx(0.05));
    assert_eq!(t.m_removed_kg, fx(10.0));
    assert_eq!(t.nk_bytes, fx(60.0));
    assert_eq!(t.ecoimpact_score, fx(60.0));
    // 0.2 + 0.05 * 10 - 0.1 * 1 = 0.6
    assert_eq!(t.duty_next, fx(0.6));
    let idle = step_node(&[], fx(0.2), fx(10.0), fx(0.1), fx(0.05));
    assert_eq!(idle.duty_next, 0);
}

#[test]
fn checked_forage_update_refuses_bad_parameters() {
    let fresh = ForageNode {
        row: row("Orchard-West"),
        bee_flag: 0,
        bee_weight: fx(2.0),
        mass_kg: 0,
        karma_bee: 0,
        duty_cycle: fx(0.3),
        emf_score: 0,
    };
    let good = ForageParams {
        temperature_k: fx(310.0),
        molar_mass_kg_per_mol: fx(0.048),
        m_ref: fx(1.0e-3),
        k_ref: fx(1.0e9),
        e_ref_bee: fx(1.0),
        eta1: 0,
        eta2: 0,
        eta3: fx(0.1),
        eta4: 0,
    };
    let mut node = fresh.clone();
    assert!(cyboair_core::bee_guard::try_update_node_bee(&mut node, &good));
    // Not in a bee zone: weight 0.5 + 0.2 for the orchard, so 0.3 + 0.1 * 0.7.
    assert_eq!(node.duty_cycle, fx(0.37));
    assert_eq!(node.emf_score, 0);
    let bad = ForageParams { m_ref: 0, ..good };
    let mut node = fresh.clone();
    assert!(!cyboair_core::bee_guard::try_update_node_bee(&mut node, &bad));
    assert_eq!(node.duty_cycle, fx(0.3));
    assert_eq!(node.mass_kg, 0);
}

#[test]
fn checked_bee_karma_and_duty_range() {
    assert_eq!(cyboair_core::bee_guard::try_compute_bee_karmabytes(129_600, fx(3.0), fx(6.0e8)), Some(fx(233_280.0)));
    assert_eq!(cyboair_core::bee_guard::try_compute_bee_karmabytes(i64::MAX, fx(3.0), fx(6.0e8)), None);
    let node = BeeGuardNode {
        row: row("Downtown"),
        mass_kg: 129_600,
        air_karma_bytes: fx(194_400.0),
        bee_karma_bytes: 0,
        duty_cycle: 0,
        sbee: 0,
    };
    assert!(cyboair_core::bee_guard::duty_update_in_range(&node, fx(1.0e-6), fx(1.0e9)));
    let huge = BeeGuardNode { mass_kg: i64::MAX, ..node.clone() };
    assert!(!cyboair_core::bee_guard::duty_update_in_range(&huge, 0, fx(1.0e9)));
}
