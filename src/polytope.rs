//! The bee-rights polytope over a four-component parameter vector, bee
//! hazard indices, and the rights check applied before actuation.
use vstd::prelude::*;

use crate::fixed::{clamp, div_fx, fx_div, fx_mul, mul_fx, UNIT};

verus! {

/// `[distance_from_hive_m, o3_concentration_ugm3, emf_intensity_vpm, duty_cycle]`.
pub type ParameterVector = [i64; 4];

/// One half-space `a·x + b <= 0`.
#[derive(Debug, Clone, Copy)]
pub struct LinearConstraint {
    pub a: ParameterVector,
    pub b: i64,
}

/// A set of half-space constraints; replaced whole, never edited in place.
#[derive(Debug, Clone)]
pub struct BeerightsPolytope {
    pub constraints: Vec<LinearConstraint>,
}

/// `a·x + b` in fixed point.
pub open spec fn constraint_value(c: LinearConstraint, x: ParameterVector) -> int {
    fx_mul(c.a[0] as int, x[0] as int) + fx_mul(c.a[1] as int, x[1] as int) + fx_mul(c.a[2] as int, x[2] as int)
        + fx_mul(c.a[3] as int, x[3] as int) + c.b
}

/// `x` satisfies every constraint of `cs` within tolerance `tol`.
pub open spec fn inside(cs: Seq<LinearConstraint>, x: ParameterVector, tol: int) -> bool {
    forall|i: int| 0 <= i < cs.len() ==> #[trigger] constraint_value(cs[i], x) <= tol
}

/// Tolerance used by the rights check: one billionth.
pub const RIGHTS_TOLERANCE: i64 = 1;

/// Minus one whole unit.
pub const MINUS_ONE: i64 = -1_000_000_000;

/// Offsets of the default box: 50 m, -80 ug/m³, -0.3.
pub const MIN_HIVE_DISTANCE_M: i64 = 50_000_000_000;

pub const MINUS_MAX_O3_UGM3: i64 = -80_000_000_000;

pub const MINUS_MAX_DUTY: i64 = -300_000_000;

/// The conservative default box: distance >= 50 m, O3 <= 80 ug/m³,
/// EMF <= 1.0 V/m, duty cycle <= 0.3.
pub open spec fn conservative_constraints() -> Seq<LinearConstraint> {
    seq![
        LinearConstraint { a: [MINUS_ONE, 0, 0, 0], b: MIN_HIVE_DISTANCE_M },
        LinearConstraint { a: [0, UNIT, 0, 0], b: MINUS_MAX_O3_UGM3 },
        LinearConstraint { a: [0, 0, UNIT, 0], b: MINUS_ONE },
        LinearConstraint { a: [0, 0, 0, UNIT], b: MINUS_MAX_DUTY },
    ]
}

impl BeerightsPolytope {
    pub fn default_conservative() -> (r: Self)
        ensures
            r.constraints@ == conservative_constraints(),
    {
        let c1 = LinearConstraint { a: [MINUS_ONE, 0, 0, 0], b: MIN_HIVE_DISTANCE_M };
        let c2 = LinearConstraint { a: [0, UNIT, 0, 0], b: MINUS_MAX_O3_UGM3 };
        let c3 = LinearConstraint { a: [0, 0, UNIT, 0], b: MINUS_ONE };
        let c4 = LinearConstraint { a: [0, 0, 0, UNIT], b: MINUS_MAX_DUTY };
        let r = BeerightsPolytope { constraints: vec![c1, c2, c3, c4] };
        assert(r.constraints@ =~= conservative_constraints());
        r
    }

    /// Whether `x` satisfies every `a·x + b <= tol`.
    pub fn is_inside(&self, x: &ParameterVector, tol: i64) -> (r: bool)
        ensures
            r == inside(self.constraints@, *x, tol as int),
    {
        let mut i: usize = 0;
        while i < self.constraints.len()
            invariant
                0 <= i <= self.constraints@.len(),
                forall|j: int| 0 <= j < i ==> #[trigger] constraint_value(self.constraints@[j], *x) <= tol,
            decreases self.constraints@.len() - i,
        {
            let c = self.constraints[i];
            let dot = mul_fx(c.a[0], x[0]) + mul_fx(c.a[1], x[1]) + mul_fx(c.a[2], x[2]) + mul_fx(c.a[3], x[3])
                + (c.b as i128);
            if dot > tol as i128 {
                assert(constraint_value(self.constraints@[i as int], *x) > tol);
                return false;
            }
            i = i + 1;
        }
        true
    }
}

/// Raw environmental inputs near a hive.
#[derive(Debug, Clone, Copy)]
pub struct BeeEnvSample {
    pub distance_from_hive_m: i64,
    pub o3_ugm3: i64,
    pub aqhi: i64,
    pub pm25_ugm3: i64,
    pub emf_vpm: i64,
    /// Normalized pesticide index, nominally in `[0, UNIT]`.
    pub pesticide_index: i64,
}

/// Weights of the three hazard indices and the reference scales that
/// normalize the raw inputs.
#[derive(Debug, Clone, Copy)]
pub struct HazardWeights {
    pub w_poll: i64,
    pub w_bio: i64,
    pub w_rf: i64,
    pub o3_ref_ugm3: i64,
    pub aqhi_ref: i64,
    pub pm25_ref_ugm3: i64,
    pub emf_ref_vpm: i64,
}

impl HazardWeights {
    /// Weights 0.5 / 0.3 / 0.2; references O3 80 ug/m³, AQHI 7, PM2.5 25 ug/m³,
    /// EMF 1 V/m.
    pub fn default() -> (r: Self)
        ensures
            r.w_poll == 500_000_000 && r.w_bio == 300_000_000 && r.w_rf == 200_000_000,
            r.o3_ref_ugm3 == 80 * UNIT && r.aqhi_ref == 7 * UNIT && r.pm25_ref_ugm3 == 25 * UNIT,
            r.emf_ref_vpm == UNIT,
    {
        HazardWeights {
            w_poll: 500_000_000,
            w_bio: 300_000_000,
            w_rf: 200_000_000,
            o3_ref_ugm3: 80 * UNIT,
            aqhi_ref: 7 * UNIT,
            pm25_ref_ugm3: 25 * UNIT,
            emf_ref_vpm: UNIT,
        }
    }
}

/// The reference scales are positive.
pub open spec fn references_ok(cfg: HazardWeights) -> bool {
    cfg.o3_ref_ugm3 > 0 && cfg.aqhi_ref > 0 && cfg.pm25_ref_ugm3 > 0 && cfg.emf_ref_vpm > 0
}

/// `min(v / reference, 2)`.
pub open spec fn capped_ratio(v: int, reference: int) -> int {
    let q = fx_div(v, reference);
    if q < 2 * UNIT {
        q
    } else {
        2 * UNIT
    }
}

pub open spec fn h_poll_of(env: BeeEnvSample, cfg: HazardWeights) -> int {
    let sum = capped_ratio(env.o3_ugm3 as int, cfg.o3_ref_ugm3 as int) + capped_ratio(
        env.aqhi as int,
        cfg.aqhi_ref as int,
    ) + capped_ratio(env.pm25_ugm3 as int, cfg.pm25_ref_ugm3 as int);
    clamp(crate::fixed::trunc_div(sum, 3), 0, UNIT as int)
}

pub open spec fn h_bio_of(env: BeeEnvSample) -> int {
    clamp(env.pesticide_index as int, 0, UNIT as int)
}

pub open spec fn h_rf_of(env: BeeEnvSample, cfg: HazardWeights) -> int {
    clamp(capped_ratio(env.emf_vpm as int, cfg.emf_ref_vpm as int), 0, UNIT as int)
}

pub open spec fn h_bee_of(env: BeeEnvSample, cfg: HazardWeights) -> int {
    let num = fx_mul(cfg.w_poll as int, h_poll_of(env, cfg)) + fx_mul(cfg.w_bio as int, h_bio_of(env))
        + fx_mul(cfg.w_rf as int, h_rf_of(env, cfg));
    let den = cfg.w_poll + cfg.w_bio + cfg.w_rf;
    clamp(fx_div(num, den), 0, UNIT as int)
}

/// `min(v / reference, 2)` for a positive reference.
fn capped_ratio_exec(v: i64, reference: i64) -> (r: i128)
    requires
        reference > 0,
    ensures
        r == capped_ratio(v as int, reference as int),
        -RATIO_BOUND <= r <= 2 * UNIT,
{
    proof {
        assert(-RATIO_BOUND <= (v as int) * 1_000_000_000 <= RATIO_BOUND);
        crate::fixed::lemma_trunc_div_bound((v as int) * 1_000_000_000, reference as int);
    }
    let q = div_fx(v, reference);
    if q < 2 * (UNIT as i128) {
        q
    } else {
        2 * (UNIT as i128)
    }
}

/// Bound on the magnitude of `v · UNIT` for an `i64` value `v`.
pub const RATIO_BOUND: i128 = 10_000_000_000_000_000_000_000_000_000;

/// Pollution hazard index from normalized O3, AQHI and PM2.5, in `[0, UNIT]`.
pub fn compute_h_poll(env: &BeeEnvSample, cfg: &HazardWeights) -> (r: i64)
    requires
        references_ok(*cfg),
    ensures
        r == h_poll_of(*env, *cfg),
        0 <= r <= UNIT,
{
    let o3 = capped_ratio_exec(env.o3_ugm3, cfg.o3_ref_ugm3);
    let aqhi = capped_ratio_exec(env.aqhi, cfg.aqhi_ref);
    let pm25 = capped_ratio_exec(env.pm25_ugm3, cfg.pm25_ref_ugm3);
    let raw = crate::fixed::div_trunc(o3 + aqhi + pm25, 3);
    if raw < 0 {
        0
    } else if raw > UNIT as i128 {
        UNIT
    } else {
        raw as i64
    }
}

/// Biological hazard index: the pesticide index limited to `[0, UNIT]`.
pub fn compute_h_bio(env: &BeeEnvSample) -> (r: i64)
    ensures
        r == h_bio_of(*env),
{
    if env.pesticide_index > UNIT {
        UNIT
    } else if env.pesticide_index < 0 {
        0
    } else {
        env.pesticide_index
    }
}

/// RF hazard index from the EMF intensity, in `[0, UNIT]`.
pub fn compute_h_rf(env: &BeeEnvSample, cfg: &HazardWeights) -> (r: i64)
    requires
        cfg.emf_ref_vpm > 0,
    ensures
        r == h_rf_of(*env, *cfg),
{
    let rf = capped_ratio_exec(env.emf_vpm, cfg.emf_ref_vpm);
    if rf > UNIT as i128 {
        UNIT
    } else if rf < 0 {
        0
    } else {
        rf as i64
    }
}

/// A weight times an index in `[0, UNIT]` is no larger in magnitude than the weight.
proof fn lemma_weighted_index(w: int, h: int)
    requires
        0 <= h <= UNIT,
    ensures
        -(if w < 0 { -w } else { w }) <= fx_mul(w, h) <= (if w < 0 { -w } else { w }),
{
    let u = UNIT as int;
    if w >= 0 {
        assert(0 <= w * h <= w * u) by (nonlinear_arith)
            requires
                w >= 0,
                0 <= h <= u,
        ;
        vstd::arithmetic::div_mod::lemma_div_is_ordered(w * h, w * u, u);
        vstd::arithmetic::div_mod::lemma_div_multiples_vanish(w, u);
        vstd::arithmetic::div_mod::lemma_div_pos_is_pos(w * h, u);
        assert(u * w == w * u) by (nonlinear_arith);
    } else {
        assert(0 <= (-w) * h <= (-w) * u) by (nonlinear_arith)
            requires
                w < 0,
                0 <= h <= u,
        ;
        assert(-(w * h) == (-w) * h) by (nonlinear_arith);
        vstd::arithmetic::div_mod::lemma_div_is_ordered((-w) * h, (-w) * u, u);
        vstd::arithmetic::div_mod::lemma_div_multiples_vanish(-w, u);
        vstd::arithmetic::div_mod::lemma_div_pos_is_pos((-w) * h, u);
        assert(u * (-w) == (-w) * u) by (nonlinear_arith);
    }
}

/// Weighted bee hazard index in `[0, UNIT]`.
pub fn compute_h_bee(env: &BeeEnvSample, cfg: &HazardWeights) -> (r: i64)
    requires
        references_ok(*cfg),
        cfg.w_poll + cfg.w_bio + cfg.w_rf > 0,
    ensures
        r == h_bee_of(*env, *cfg),
        0 <= r <= UNIT,
{
    let h_poll = compute_h_poll(env, cfg);
    let h_bio = compute_h_bio(env);
    let h_rf = compute_h_rf(env, cfg);
    let a = mul_fx(cfg.w_poll, h_poll);
    let b = mul_fx(cfg.w_bio, h_bio);
    let c = mul_fx(cfg.w_rf, h_rf);
    proof {
        lemma_weighted_index(cfg.w_poll as int, h_poll as int);
        lemma_weighted_index(cfg.w_bio as int, h_bio as int);
        lemma_weighted_index(cfg.w_rf as int, h_rf as int);
    }
    let num = a + b + c;
    let den = (cfg.w_poll as i128) + (cfg.w_bio as i128) + (cfg.w_rf as i128);
    proof {
        assert(-30_000_000_000_000_000_000_000_000_000 <= (num as int) * 1_000_000_000
            <= 30_000_000_000_000_000_000_000_000_000);
    }
    let q = crate::fixed::div_trunc(num * (UNIT as i128), den);
    if q < 0 {
        0
    } else if q > UNIT as i128 {
        UNIT
    } else {
        q as i64
    }
}

/// The parameter vector checked by the rights polytope.
pub open spec fn rights_vector(env: BeeEnvSample, duty_cycle: i64) -> ParameterVector {
    [env.distance_from_hive_m, env.o3_ugm3, env.emf_vpm, duty_cycle]
}

/// Checks bee rights before actuation. The proposed duty cycle is first
/// limited to `[0, UNIT]`; if the resulting point lies in the polytope it is
/// returned with `true`, else the node stands down: `(false, 0)`.
pub fn enforce_bee_rights(env: &BeeEnvSample, proposed_duty_cycle: i64, polytope: &BeerightsPolytope) -> (r: (
    bool,
    i64,
))
    ensures
        ({
            let dc = clamp(proposed_duty_cycle as int, 0, UNIT as int) as i64;
            if inside(polytope.constraints@, rights_vector(*env, dc), RIGHTS_TOLERANCE as int) {
                r == (true, dc)
            } else {
                r == (false, 0i64)
            }
        }),
        0 <= r.1 <= UNIT,
{
    let dc_clamped: i64 = if proposed_duty_cycle < 0 {
        0
    } else if proposed_duty_cycle > UNIT {
        UNIT
    } else {
        proposed_duty_cycle
    };
    let x: ParameterVector = [env.distance_from_hive_m, env.o3_ugm3, env.emf_vpm, dc_clamped];
    if polytope.is_inside(&x, RIGHTS_TOLERANCE) {
        (true, dc_clamped)
    } else {
        (false, 0)
    }
}

/// A point strictly inside every half-space passes the check under any
/// non-negative tolerance.
pub proof fn lemma_strictly_inside_passes(cs: Seq<LinearConstraint>, x: ParameterVector, tol: int)
    requires
        tol >= 0,
        forall|i: int| 0 <= i < cs.len() ==> #[trigger] constraint_value(cs[i], x) < 0,
    ensures
        inside(cs, x, tol),
{
}

/// A single constraint violated by more than the tolerance fails the check.
pub proof fn lemma_violation_fails(cs: Seq<LinearConstraint>, x: ParameterVector, tol: int, i: int)
    requires
        0 <= i < cs.len(),
        constraint_value(cs[i], x) > tol,
    ensures
        !inside(cs, x, tol),
{
}

} // verus!
