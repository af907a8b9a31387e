use cyboair_core::bee::{BeeAdmissible, BloodGated};
use cyboair_core::bee::{
    access_tier, aggregate_harm, apply_liability_to_envelope, is_admissible, is_inside_corridor, BeeCorridorPolytope,
    BeeKarma, BeeKarmaEnvelope, BeeStressorState, BeeTwinSnapshot, HarmAggregation,
};

fn fx(x: f64) -> i64 {
    (x * 1e9).round() as i64
}

fn envelope(kappa: f64, tier: u8) -> BeeKarmaEnvelope {
    BeeKarmaEnvelope {
        agent_id: 1,
        corridor_id: 2,
        kappa: BeeKarma(fx(kappa)),
        last_update: 1_700_000_000_000,
        realized_harm_score: 0,
        predicted_harm_score: 0,
        blood_gate_level: tier,
    }
}

fn harm(delta: f64) -> HarmAggregation {
    HarmAggregation { corridor_id: 2, predicted_harm: 0, realized_harm: fx(delta), delta_liability: fx(delta) }
}

#[test]
fn liability_above_warn_lowers_trust_and_tier() {
    let mut env = envelope(0.5, 1);
    apply_liability_to_envelope(&mut env, &harm(0.2), fx(0.05), fx(1.0), fx(1.0));
    assert_eq!(env.kappa, BeeKarma(fx(0.35)));
    assert_eq!(env.blood_gate_level, 0);
    assert_eq!(env.realized_harm_score, fx(0.2));
}

#[test]
fn liability_below_warn_threshold_is_a_no_op() {
    let mut env = envelope(0.5, 1);
    apply_liability_to_envelope(&mut env, &harm(0.05), fx(0.05), fx(1.0), fx(1.0));
    assert_eq!(env.kappa, BeeKarma(fx(0.5)));
    assert_eq!(env.blood_gate_level, 1);
    assert_eq!(env.realized_harm_score, fx(0.05));
}

#[test]
fn larger_liability_never_leaves_more_trust() {
    let mut previous = i64::MAX;
    for d in [0.06, 0.1, 0.2, 0.4, 0.8, 2.0] {
        let mut env = envelope(0.9, 3);
        apply_liability_to_envelope(&mut env, &harm(d), fx(0.05), fx(10.0), fx(0.5));
        assert!(env.kappa.0 <= previous);
        previous = env.kappa.0;
    }
    assert_eq!(previous, 0);
}

#[test]
fn downgrade_threshold_forces_an_extra_tier_step() {
    let mut env = envelope(0.95, 3);
    apply_liability_to_envelope(&mut env, &harm(0.3), fx(0.25), fx(0.3), fx(1.0));
    // kappa 0.9 gives tier 3, one step lower for the trip.
    assert_eq!(env.kappa, BeeKarma(fx(0.9)));
    assert_eq!(env.blood_gate_level, 2);
    let mut env = envelope(0.1, 0);
    apply_liability_to_envelope(&mut env, &harm(0.9), fx(0.05), fx(0.3), fx(1.0));
    assert_eq!(env.kappa, BeeKarma(0));
    assert_eq!(env.blood_gate_level, 0);
}

#[test]
fn tiers_follow_fixed_thresholds() {
    assert_eq!(access_tier(fx(0.8)), 3);
    assert_eq!(access_tier(fx(0.79)), 2);
    assert_eq!(access_tier(fx(0.6)), 2);
    assert_eq!(access_tier(fx(0.4)), 1);
    assert_eq!(access_tier(fx(0.39)), 0);
}

#[test]
fn karma_delta_is_clamped_and_retiers() {
    let mut env = envelope(0.7, 2);
    env.apply_karma_delta(fx(0.5));
    assert_eq!(env.kappa, BeeKarma(fx(1.0)));
    assert_eq!(env.blood_gate_level, 3);
    env.apply_karma_delta(fx(-1.7));
    assert_eq!(env.kappa, BeeKarma(0));
    assert_eq!(env.blood_gate_level, 0);
    env.apply_karma_delta(fx(0.45));
    assert_eq!(env.blood_gate_level, 1);
}

fn snapshot(vg: (f64, f64), dwv: (f64, f64), w: (f64, f64)) -> BeeTwinSnapshot {
    BeeTwinSnapshot {
        twin_id: 9,
        corridor_id: 42,
        t: 0,
        vg_pred: fx(vg.0),
        vg_obs: fx(vg.1),
        dwv_pred: fx(dwv.0),
        dwv_obs: fx(dwv.1),
        weight_pred: fx(w.0),
        weight_obs: fx(w.1),
    }
}

#[test]
fn harm_is_the_mean_weighted_deviation() {
    let snaps = [snapshot((1.0, 0.5), (0.2, 0.4), (3.0, 3.0)), snapshot((1.0, 1.0), (0.0, 0.0), (2.0, 1.0))];
    // (0.5*0.5 + 0.3*0.2 + 0.2*0) and (0 + 0 + 0.2*1.0): (0.31 + 0.2) / 2
    let h = aggregate_harm(&snaps, fx(0.5), fx(0.3), fx(0.2));
    assert_eq!(h.corridor_id, 42);
    assert_eq!(h.predicted_harm, 0);
    assert_eq!(h.realized_harm, fx(0.255));
    assert_eq!(h.delta_liability, fx(0.255));
}

fn stressors(hq: f64, forage: f64) -> BeeStressorState {
    BeeStressorState { hq_pest: fx(hq), h_rf: 0, h_poll: 0, d_h_bio: 0, varroa_per_100: 0, d_thive_c: 0, q_forage: fx(forage) }
}

#[test]
fn corridor_polytope_admissibility() {
    // hq_pest <= 0.5 and forage deficit (1 - q) <= 0.4
    let p = BeeCorridorPolytope {
        a: vec![vec![fx(1.0)], vec![0, 0, 0, 0, 0, 0, fx(1.0)]],
        b: vec![fx(0.5), fx(0.4)],
        kappa_min: fx(0.6),
    };
    assert!(is_inside_corridor(&stressors(0.3, 0.8), &p));
    assert!(is_admissible(&stressors(0.3, 0.8), &p, BeeKarma(fx(0.6))));
    assert!(!is_admissible(&stressors(0.3, 0.8), &p, BeeKarma(fx(0.59))));
    assert!(!is_inside_corridor(&stressors(0.6, 0.8), &p));
    assert!(!is_inside_corridor(&stressors(0.3, 0.5), &p));
    // A row without a bound is ignored.
    let unbounded = BeeCorridorPolytope { a: vec![vec![fx(1.0)]], b: vec![], kappa_min: 0 };
    assert!(is_inside_corridor(&stressors(9.0, 0.0), &unbounded));
}

struct Agent {
    state: BeeStressorState,
    corridor: BeeCorridorPolytope,
    env: BeeKarmaEnvelope,
}

impl BeeAdmissible for Agent {
    fn state_of(&self) -> BeeStressorState {
        self.state
    }

    fn corridor_of(&self) -> BeeCorridorPolytope {
        self.corridor.clone()
    }

    fn karma_of(&self) -> BeeKarma {
        self.env.kappa
    }

    fn bee_state(&self) -> &BeeStressorState {
        &self.state
    }

    fn bee_corridor(&self) -> &BeeCorridorPolytope {
        &self.corridor
    }

    fn bee_karma(&self) -> BeeKarma {
        self.env.kappa
    }
}

impl BloodGated for Agent {
    fn envelope_of(&self) -> BeeKarmaEnvelope {
        self.env
    }

    fn envelope(&self) -> &BeeKarmaEnvelope {
        &self.env
    }

    fn set_envelope(&mut self, env: BeeKarmaEnvelope) {
        self.env = env;
    }
}

#[test]
fn agent_traits_use_the_verified_checks() {
    let mut agent = Agent {
        state: stressors(0.3, 0.8),
        corridor: BeeCorridorPolytope { a: vec![vec![fx(1.0)]], b: vec![fx(0.5)], kappa_min: fx(0.6) },
        env: envelope(0.7, 2),
    };
    assert!(agent.is_inside_polytope());
    assert!(agent.is_bee_admissible());
    agent.apply_karma_delta(fx(-0.2));
    assert_eq!(agent.envelope().kappa, BeeKarma(fx(0.5)));
    assert_eq!(agent.envelope().blood_gate_level, 1);
    assert!(!agent.is_bee_admissible());
}
