use cyboair_core::fixed::UNIT;
use cyboair_core::polytope::{
    compute_h_bee, compute_h_bio, compute_h_poll, compute_h_rf, enforce_bee_rights, BeeEnvSample,
    BeerightsPolytope, HazardWeights, LinearConstraint, ParameterVector,
};

fn fx(x: f64) -> i64 {
    (x * 1e9).round() as i64
}

#[test]
fn test_polytope_inside_and_outside() {
    let p = BeerightsPolytope::default_conservative();

    // Clearly safe point.
    let x_safe: ParameterVector = [fx(100.0), fx(40.0), fx(0.2), fx(0.1)];
    assert!(p.is_inside(&x_safe, fx(1e-9)));

    // Too close, too high duty cycle, excessive EMF and O3.
    let x_unsafe: ParameterVector = [fx(10.0), fx(120.0), fx(2.0), fx(0.8)];
    assert!(!p.is_inside(&x_unsafe, fx(1e-9)));
}

#[test]
fn test_hazard_indices_and_enforcement() {
    let env = BeeEnvSample {
        distance_from_hive_m: fx(60.0),
        o3_ugm3: fx(70.0),
        aqhi: fx(6.0),
        pm25_ugm3: fx(20.0),
        emf_vpm: fx(0.5),
        pesticide_index: fx(0.4),
    };
    let cfg = HazardWeights::default();
    let h_bee = compute_h_bee(&env, &cfg);
    assert!(h_bee >= 0 && h_bee <= UNIT);

    let poly = BeerightsPolytope::default_conservative();
    let (ok, dc) = enforce_bee_rights(&env, fx(0.2), &poly);
    assert!(ok);
    assert_eq!(dc, fx(0.2));

    let env_bad = BeeEnvSample {
        distance_from_hive_m: fx(20.0),
        o3_ugm3: fx(100.0),
        aqhi: fx(9.0),
        pm25_ugm3: fx(50.0),
        emf_vpm: fx(2.0),
        pesticide_index: fx(0.9),
    };
    let (ok2, dc2) = enforce_bee_rights(&env_bad, fx(0.8), &poly);
    assert!(!ok2);
    assert_eq!(dc2, 0);
}

#[test]
fn default_polytope_holds_the_four_box_constraints() {
    let p = BeerightsPolytope::default_conservative();
    assert_eq!(p.constraints.len(), 4);
    assert_eq!(p.constraints[0].a, [-UNIT, 0, 0, 0]);
    assert_eq!(p.constraints[0].b, fx(50.0));
    assert_eq!(p.constraints[1].b, fx(-80.0));
    assert_eq!(p.constraints[2].b, fx(-1.0));
    assert_eq!(p.constraints[3].a, [0, 0, 0, UNIT]);
    assert_eq!(p.constraints[3].b, fx(-0.3));
}

#[test]
fn close_hive_forces_stand_down() {
    let env = BeeEnvSample {
        distance_from_hive_m: fx(10.0),
        o3_ugm3: fx(120.0),
        aqhi: fx(5.0),
        pm25_ugm3: fx(10.0),
        emf_vpm: fx(2.0),
        pesticide_index: 0,
    };
    let poly = BeerightsPolytope::default_conservative();
    let (ok, dc) = enforce_bee_rights(&env, fx(0.8), &poly);
    assert!(!ok);
    assert_eq!(dc, 0);
}

#[test]
fn strictly_inside_point_passes_and_single_violation_fails() {
    let p = BeerightsPolytope::default_conservative();
    // Every constraint strictly negative.
    assert!(p.is_inside(&[fx(51.0), fx(79.0), fx(0.9), fx(0.29)], 0));
    // Only the duty-cycle constraint violated, by more than the tolerance.
    assert!(!p.is_inside(&[fx(51.0), fx(79.0), fx(0.9), fx(0.31)], fx(0.005)));
    // A violation within the tolerance is accepted.
    assert!(p.is_inside(&[fx(51.0), fx(79.0), fx(0.9), fx(0.301)], fx(0.005)));
}

#[test]
fn is_inside_on_custom_constraint() {
    let p = BeerightsPolytope {
        constraints: vec![LinearConstraint { a: [UNIT, UNIT, 0, 0], b: fx(-1.0) }],
    };
    assert!(p.is_inside(&[fx(0.5), fx(0.5), 0, 0], 0));
    assert!(!p.is_inside(&[fx(0.5), fx(0.6), 0, 0], 0));
    let empty = BeerightsPolytope { constraints: vec![] };
    assert!(empty.is_inside(&[i64::MAX, i64::MIN, 0, 0], 0));
}

#[test]
fn enforcement_clamps_proposed_duty_cycle() {
    let env = BeeEnvSample {
        distance_from_hive_m: fx(100.0),
        o3_ugm3: fx(10.0),
        aqhi: fx(1.0),
        pm25_ugm3: fx(1.0),
        emf_vpm: fx(0.1),
        pesticide_index: 0,
    };
    let poly = BeerightsPolytope { constraints: vec![] };
    assert_eq!(enforce_bee_rights(&env, fx(1.7), &poly), (true, UNIT));
    assert_eq!(enforce_bee_rights(&env, fx(-0.2), &poly), (true, 0));
}

#[test]
fn hazard_index_exact_values() {
    let env = BeeEnvSample {
        distance_from_hive_m: fx(60.0),
        o3_ugm3: fx(70.0),
        aqhi: fx(6.0),
        pm25_ugm3: fx(20.0),
        emf_vpm: fx(0.5),
        pesticide_index: fx(0.4),
    };
    let cfg = HazardWeights::default();
    assert_eq!(compute_h_poll(&env, &cfg), 844_047_619);
    assert_eq!(compute_h_bio(&env), 400_000_000);
    assert_eq!(compute_h_rf(&env, &cfg), 500_000_000);
    assert_eq!(compute_h_bee(&env, &cfg), 642_023_809);
}

#[test]
fn hazard_indices_saturate() {
    let env = BeeEnvSample {
        distance_from_hive_m: 0,
        o3_ugm3: fx(1000.0),
        aqhi: fx(100.0),
        pm25_ugm3: fx(500.0),
        emf_vpm: fx(30.0),
        pesticide_index: fx(3.0),
    };
    let cfg = HazardWeights::default();
    assert_eq!(compute_h_poll(&env, &cfg), UNIT);
    assert_eq!(compute_h_bio(&env), UNIT);
    assert_eq!(compute_h_rf(&env, &cfg), UNIT);
    assert_eq!(compute_h_bee(&env, &cfg), UNIT);
    let neg = BeeEnvSample { pesticide_index: fx(-0.5), emf_vpm: fx(-1.0), ..env };
    assert_eq!(compute_h_bio(&neg), 0);
    assert_eq!(compute_h_rf(&neg, &cfg), 0);
}
