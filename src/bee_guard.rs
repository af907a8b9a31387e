//! Bee-aware variants of the estimator and the duty-cycle law: pollutant-keyed
//! hazard tables, the residual-risk constraint on colony mass, a location
//! weight, and the bee-aware duty update.
use vstd::prelude::*;

use crate::corridor::{compute_mass_kg, mass_inputs_ok, removed_mass, try_compute_mass_kg, CorridorRow};
use crate::fixed::{clamp, div_fx, fits_i64, fx_div, fx_mul, mul_fx, UNIT};
use crate::text::{contains_text, occurs_in};

verus! {

/// Bee hazard coefficient λ per pollutant; 1.0 for any other pollutant.
pub open spec fn bee_lambda_of(p: Seq<char>) -> int {
    if p == "PM2.5"@ {
        3_000_000_000
    } else if p == "VOC"@ {
        4_000_000_000
    } else if p == "O3"@ || p == "NOx"@ {
        2_500_000_000
    } else if p == "DustPM10"@ {
        1_500_000_000
    } else {
        1_000_000_000
    }
}

/// Bee karma per kilogram β per pollutant; 2e8 for any other pollutant.
pub open spec fn bee_beta_of(p: Seq<char>) -> int {
    if p == "PM2.5"@ {
        600_000_000_000_000_000
    } else if p == "VOC"@ {
        700_000_000_000_000_000
    } else if p == "O3"@ || p == "NOx"@ {
        400_000_000_000_000_000
    } else if p == "DustPM10"@ {
        300_000_000_000_000_000
    } else {
        200_000_000_000_000_000
    }
}

fn is_text(s: &String, lit: &str) -> (r: bool)
    ensures
        r == (s@ == lit@),
{
    *s == lit.to_owned()
}

/// Bee hazard coefficient of a pollutant.
pub fn bee_lambda_for_pollutant(p: &String) -> (r: i64)
    ensures
        r == bee_lambda_of(p@),
{
    if is_text(p, "PM2.5") {
        3_000_000_000
    } else if is_text(p, "VOC") {
        4_000_000_000
    } else if is_text(p, "O3") || is_text(p, "NOx") {
        2_500_000_000
    } else if is_text(p, "DustPM10") {
        1_500_000_000
    } else {
        1_000_000_000
    }
}

/// Bee karma per kilogram of a pollutant.
pub fn bee_beta_for_pollutant(p: &String) -> (r: i64)
    ensures
        r == bee_beta_of(p@),
{
    if is_text(p, "PM2.5") {
        600_000_000_000_000_000
    } else if is_text(p, "VOC") {
        700_000_000_000_000_000
    } else if is_text(p, "O3") || is_text(p, "NOx") {
        400_000_000_000_000_000
    } else if is_text(p, "DustPM10") {
        300_000_000_000_000_000
    } else {
        200_000_000_000_000_000
    }
}

/// Bee-specific karma `λ_bee · β_bee · mass`.
pub open spec fn bee_karma_of(mass_kg: int, lambda_bee: int, beta_bee: int) -> int {
    fx_mul(fx_mul(lambda_bee, beta_bee), mass_kg)
}

pub fn compute_bee_karmabytes(mass_kg: i64, lambda_bee_j: i64, beta_bee_j: i64) -> (r: i64)
    requires
        fits_i64(fx_mul(lambda_bee_j as int, beta_bee_j as int)),
        fits_i64(bee_karma_of(mass_kg as int, lambda_bee_j as int, beta_bee_j as int)),
    ensures
        r == bee_karma_of(mass_kg as int, lambda_bee_j as int, beta_bee_j as int),
{
    let rate = mul_fx(lambda_bee_j, beta_bee_j);
    mul_fx(rate as i64, mass_kg) as i64
}

/// Bee karma where the rate and the karma fit the fixed-point range, `None`
/// elsewhere.
pub fn try_compute_bee_karmabytes(mass_kg: i64, lambda_bee_j: i64, beta_bee_j: i64) -> (r: Option<i64>)
    ensures
        r is Some <==> (fits_i64(fx_mul(lambda_bee_j as int, beta_bee_j as int)) && fits_i64(
            bee_karma_of(mass_kg as int, lambda_bee_j as int, beta_bee_j as int),
        )),
        r matches Some(k) ==> k == bee_karma_of(mass_kg as int, lambda_bee_j as int, beta_bee_j as int),
{
    let rate = mul_fx(lambda_bee_j, beta_bee_j);
    if !fits_wide(rate) {
        return None;
    }
    let k = mul_fx(rate as i64, mass_kg);
    if !fits_wide(k) {
        return None;
    }
    Some(k as i64)
}

/// Hazard coefficient of a row for bees: the row's λ, scaled by the bee
/// sensitivity multiplier when the node lies in a foraging microspace.
pub open spec fn bee_weighted_lambda(lambda_hazard: int, in_forage_zone: bool, bee_weight: int) -> int {
    if in_forage_zone {
        fx_mul(lambda_hazard, bee_weight)
    } else {
        lambda_hazard
    }
}

pub fn bee_lambda_for_row(lambda_hazard: i64, in_forage_zone: bool, bee_weight: i64) -> (r: i64)
    requires
        fits_i64(bee_weighted_lambda(lambda_hazard as int, in_forage_zone, bee_weight as int)),
    ensures
        r == bee_weighted_lambda(lambda_hazard as int, in_forage_zone, bee_weight as int),
{
    if in_forage_zone {
        mul_fx(lambda_hazard, bee_weight) as i64
    } else {
        lambda_hazard
    }
}

/// Hive context of a bee-aware node.
#[derive(Debug, Clone)]
pub struct BeeContext {
    pub hive_id: String,
    pub colony_mass_kg: i64,
    pub colony_mass_baseline_kg: i64,
    pub sbee_min: i64,
    pub kref_bee: i64,
    pub alpha: i64,
}

/// Smallest baseline used as a divisor: 1e-6 kg.
pub const MIN_BASELINE_KG: i64 = 1000;

/// Residual-risk constraint: the colony has lost at most 10% of its
/// baseline mass, `(baseline - mass) / max(baseline, 1e-6) <= 0.10`.
pub open spec fn residual_risk_holds(ctx: BeeContext) -> bool {
    let denom = if ctx.colony_mass_baseline_kg > MIN_BASELINE_KG {
        ctx.colony_mass_baseline_kg as int
    } else {
        MIN_BASELINE_KG as int
    };
    10 * (ctx.colony_mass_baseline_kg - ctx.colony_mass_kg) <= denom
}

pub fn residual_risk_ok(ctx: &BeeContext) -> (r: bool)
    ensures
        r == residual_risk_holds(*ctx),
{
    let denom: i128 = if ctx.colony_mass_baseline_kg > MIN_BASELINE_KG {
        ctx.colony_mass_baseline_kg as i128
    } else {
        MIN_BASELINE_KG as i128
    };
    10 * ((ctx.colony_mass_baseline_kg as i128) - (ctx.colony_mass_kg as i128)) <= denom
}

/// Location weight: 1.0 near an apiary or school, 0.8 in an industrial
/// area, 0.5 elsewhere.
pub open spec fn geo_weight_of(location: Seq<char>) -> int {
    if occurs_in(location, "Apiary"@) || occurs_in(location, "School"@) {
        UNIT as int
    } else if occurs_in(location, "Industrial"@) {
        800_000_000
    } else {
        500_000_000
    }
}

pub fn geo_weight(location: &str) -> (r: i64)
    ensures
        r == geo_weight_of(location@),
{
    if contains_text(location, "Apiary") || contains_text(location, "School") {
        UNIT
    } else if contains_text(location, "Industrial") {
        800_000_000
    } else {
        500_000_000
    }
}

/// A node under bee-aware control.
#[derive(Debug, Clone)]
pub struct BeeGuardNode {
    pub row: CorridorRow,
    pub mass_kg: i64,
    pub air_karma_bytes: i64,
    pub bee_karma_bytes: i64,
    pub duty_cycle: i64,
    /// Bee stress index, nominally in `[0, UNIT]`.
    pub sbee: i64,
}

/// `+1` where the colony's residual risk holds and the stress index is at
/// least its minimum, `-1` otherwise.
pub open spec fn bee_signal(node: BeeGuardNode, ctx: BeeContext) -> int {
    if residual_risk_holds(ctx) && node.sbee >= ctx.sbee_min {
        UNIT as int
    } else {
        -UNIT
    }
}

/// `max(x, floor)`.
pub open spec fn at_least(x: int, floor: int) -> int {
    if x > floor {
        x
    } else {
        floor
    }
}

/// Gains of the bee-aware duty law.
#[derive(Debug, Clone, Copy)]
pub struct BeeGains {
    pub eta1: i64,
    pub eta2: i64,
    pub eta3: i64,
    pub eta4: i64,
    pub eta5: i64,
}

/// The unprojected bee-aware duty update:
/// `u + η1·m/max(mref, ε) + η2·K/max(kref, 1) + η3·w + η4·φ − η5·c`, with `ε`
/// the smallest positive fixed-point value.
pub open spec fn bee_duty_raw(node: BeeGuardNode, ctx: BeeContext, mref: int, kref: int, cpower: int, g: BeeGains) -> int {
    node.duty_cycle + fx_mul(g.eta1 as int, fx_div(node.mass_kg as int, at_least(mref, 1))) + fx_mul(
        g.eta2 as int,
        fx_div(node.air_karma_bytes as int, at_least(kref, UNIT as int)),
    ) + fx_mul(g.eta3 as int, geo_weight_of(node.row.location@)) + fx_mul(g.eta4 as int, bee_signal(node, ctx))
        - fx_mul(g.eta5 as int, cpower)
}

/// Whether the normalized mass and karma of the bee-aware update fit the
/// fixed-point range.
pub fn duty_update_in_range(node: &BeeGuardNode, mref: i64, kref: i64) -> (r: bool)
    ensures
        r == (fits_i64(fx_div(node.mass_kg as int, at_least(mref as int, 1))) && fits_i64(
            fx_div(node.air_karma_bytes as int, at_least(kref as int, UNIT as int)),
        )),
{
    let m_den = if mref > 1 {
        mref
    } else {
        1
    };
    let k_den = if kref > UNIT {
        kref
    } else {
        UNIT
    };
    fits_wide(div_fx(node.mass_kg, m_den)) && fits_wide(div_fx(node.air_karma_bytes, k_den))
}

/// Bee-aware duty update, projected onto `[0, UNIT]`.
pub fn update_duty_cycle(
    node: &mut BeeGuardNode,
    beectx: &BeeContext,
    mref: i64,
    kref: i64,
    cpower_i: i64,
    gains: &BeeGains,
)
    requires
        fits_i64(fx_div(old(node).mass_kg as int, at_least(mref as int, 1))),
        fits_i64(fx_div(old(node).air_karma_bytes as int, at_least(kref as int, UNIT as int))),
    ensures
        final(node).duty_cycle == clamp(
            bee_duty_raw(*old(node), *beectx, mref as int, kref as int, cpower_i as int, *gains),
            0,
            UNIT as int,
        ),
        0 <= final(node).duty_cycle <= UNIT,
        final(node).row == old(node).row,
        final(node).mass_kg == old(node).mass_kg,
        final(node).air_karma_bytes == old(node).air_karma_bytes,
        final(node).bee_karma_bytes == old(node).bee_karma_bytes,
        final(node).sbee == old(node).sbee,
{
    let phi_bee: i64 = if residual_risk_ok(beectx) && node.sbee >= beectx.sbee_min {
        UNIT
    } else {
        -UNIT
    };
    let wi = geo_weight(node.row.location.as_str());
    let m_den = if mref > 1 {
        mref
    } else {
        1
    };
    let k_den = if kref > UNIT {
        kref
    } else {
        UNIT
    };
    let m_norm = div_fx(node.mass_kg, m_den) as i64;
    let k_norm = div_fx(node.air_karma_bytes, k_den) as i64;
    let uraw: i128 = (node.duty_cycle as i128) + mul_fx(gains.eta1, m_norm) + mul_fx(gains.eta2, k_norm) + mul_fx(
        gains.eta3,
        wi,
    ) + mul_fx(gains.eta4, phi_bee) - mul_fx(gains.eta5, cpower_i);
    node.duty_cycle = if uraw <= 0 {
        0
    } else if uraw >= UNIT as i128 {
        UNIT
    } else {
        uraw as i64
    };
}

/// A node in a bee foraging corridor: its row, whether it lies in a foraging
/// microspace, and the extra hazard multiplier that applies there.
#[derive(Debug, Clone)]
pub struct ForageNode {
    pub row: CorridorRow,
    pub bee_flag: u8,
    pub bee_weight: i64,
    pub mass_kg: i64,
    pub karma_bee: i64,
    pub duty_cycle: i64,
    pub emf_score: i64,
}

/// Reference scales and gains of the forage-corridor update.
#[derive(Debug, Clone, Copy)]
pub struct ForageParams {
    pub temperature_k: i64,
    pub molar_mass_kg_per_mol: i64,
    pub m_ref: i64,
    pub k_ref: i64,
    pub e_ref_bee: i64,
    pub eta1: i64,
    pub eta2: i64,
    pub eta3: i64,
    pub eta4: i64,
}

/// EMF proxy: high-airflow nodes in bee zones, `min(airflow / 3, 1)`.
pub open spec fn emf_score_of(n: ForageNode) -> int {
    if n.bee_flag == 1 {
        let s = crate::fixed::trunc_div(n.row.airflow_m3_per_s as int, 3);
        if s < UNIT {
            s
        } else {
            UNIT as int
        }
    } else {
        0
    }
}

/// Sensitive locations: schools, orchards and gardens.
pub open spec fn sensitive_site(location: Seq<char>) -> bool {
    occurs_in(location, "School"@) || occurs_in(location, "Orchard"@) || occurs_in(location, "Garden"@)
}

/// Bee location weight `0.5 + 0.3·[bee zone] + 0.2·[sensitive] - min(emf / e_ref, 0.5)`.
pub open spec fn bee_site_weight(n: ForageNode, emf: int, e_ref: int) -> int {
    let base = 500_000_000 + (if n.bee_flag == 1 { 300_000_000int } else { 0int }) + (if sensitive_site(
        n.row.location@,
    ) {
        200_000_000int
    } else {
        0int
    });
    let emf_ratio = fx_div(emf, e_ref);
    base - (if emf_ratio < 500_000_000 { emf_ratio } else { 500_000_000 })
}

/// Inputs on which the forage update is defined and fits the fixed-point range.
pub open spec fn forage_inputs_ok(n: ForageNode, p: ForageParams) -> bool {
    let mass = removed_mass(n.row, p.temperature_k as int, p.molar_mass_kg_per_mol as int);
    let lambda = bee_weighted_lambda(n.row.lambda_hazard as int, n.bee_flag == 1, n.bee_weight as int);
    &&& mass_inputs_ok(n.row, p.temperature_k as int, p.molar_mass_kg_per_mol as int)
    &&& p.m_ref > 0 && p.k_ref > 0 && p.e_ref_bee > 0
    &&& fits_i64(lambda)
    &&& fits_i64(fx_mul(lambda, n.row.beta_nb_per_kg as int))
    &&& fits_i64(bee_karma_of(mass, lambda, n.row.beta_nb_per_kg as int))
    &&& fits_i64(fx_div(mass, p.m_ref as int))
    &&& fits_i64(fx_div(bee_karma_of(mass, lambda, n.row.beta_nb_per_kg as int), p.k_ref as int))
}

/// The unprojected forage duty update.
pub open spec fn forage_duty_raw(n: ForageNode, p: ForageParams) -> int {
    let mass = removed_mass(n.row, p.temperature_k as int, p.molar_mass_kg_per_mol as int);
    let lambda = bee_weighted_lambda(n.row.lambda_hazard as int, n.bee_flag == 1, n.bee_weight as int);
    let karma = bee_karma_of(mass, lambda, n.row.beta_nb_per_kg as int);
    let emf = emf_score_of(n);
    n.duty_cycle + fx_mul(p.eta1 as int, fx_div(mass, p.m_ref as int)) + fx_mul(p.eta2 as int, fx_div(karma, p.k_ref as int))
        + fx_mul(p.eta3 as int, bee_site_weight(n, emf, p.e_ref_bee as int)) - fx_mul(p.eta4 as int, emf)
}

/// One control step of a node in a bee foraging corridor: removed mass, bee
/// karma, EMF proxy, then the duty update projected onto `[0, UNIT]`.
pub fn update_node_bee(node: &mut ForageNode, p: &ForageParams)
    requires
        forage_inputs_ok(*old(node), *p),
    ensures
        final(node).mass_kg == removed_mass(old(node).row, p.temperature_k as int, p.molar_mass_kg_per_mol as int),
        final(node).karma_bee == bee_karma_of(
            final(node).mass_kg as int,
            bee_weighted_lambda(old(node).row.lambda_hazard as int, old(node).bee_flag == 1, old(node).bee_weight as int),
            old(node).row.beta_nb_per_kg as int,
        ),
        final(node).emf_score == emf_score_of(*old(node)),
        final(node).duty_cycle == clamp(forage_duty_raw(*old(node), *p), 0, UNIT as int),
        final(node).row == old(node).row,
        final(node).bee_flag == old(node).bee_flag,
        final(node).bee_weight == old(node).bee_weight,
{
    let ghost before = *node;
    let mass = compute_mass_kg(&node.row, p.temperature_k, p.molar_mass_kg_per_mol);
    let in_zone = node.bee_flag == 1;
    let lambda_bee = bee_lambda_for_row(node.row.lambda_hazard, in_zone, node.bee_weight);
    let karma = compute_bee_karmabytes(mass, lambda_bee, node.row.beta_nb_per_kg);
    let emf: i64 = if in_zone {
        let s = node.row.airflow_m3_per_s / 3;
        if s < UNIT {
            s
        } else {
            UNIT
        }
    } else {
        0
    };
    let loc = node.row.location.as_str();
    let mut w_bee: i64 = 500_000_000;
    if in_zone {
        w_bee = w_bee + 300_000_000;
    }
    if contains_text(loc, "School") || contains_text(loc, "Orchard") || contains_text(loc, "Garden") {
        w_bee = w_bee + 200_000_000;
    }
    let emf_ratio = div_fx(emf, p.e_ref_bee);
    let emf_cut: i64 = if emf_ratio < 500_000_000 {
        emf_ratio as i64
    } else {
        500_000_000
    };
    proof {
        crate::fixed::lemma_trunc_div_bound((emf as int) * (UNIT as int), p.e_ref_bee as int);
        assert(0 <= (emf as int) * (UNIT as int)) by (nonlinear_arith)
            requires
                emf >= 0,
                UNIT > 0,
        ;
    }
    w_bee = w_bee - emf_cut;
    let m_norm = div_fx(mass, p.m_ref) as i64;
    let k_norm = div_fx(karma, p.k_ref) as i64;
    let u: i128 = (node.duty_cycle as i128) + mul_fx(p.eta1, m_norm) + mul_fx(p.eta2, k_norm) + mul_fx(p.eta3, w_bee)
        - mul_fx(p.eta4, emf);
    node.mass_kg = mass;
    node.karma_bee = karma;
    node.emf_score = emf;
    node.duty_cycle = if u < 0 {
        0
    } else if u > UNIT as i128 {
        UNIT
    } else {
        u as i64
    };
    assert(w_bee == bee_site_weight(before, emf as int, p.e_ref_bee as int));
}

fn fits_wide(x: i128) -> (r: bool)
    ensures
        r == fits_i64(x as int),
{
    i64::MIN as i128 <= x && x <= i64::MAX as i128
}

/// The forage update where its inputs are in its domain and range; the node
/// is left unchanged and `false` returned elsewhere.
pub fn try_update_node_bee(node: &mut ForageNode, p: &ForageParams) -> (r: bool)
    ensures
        r == forage_inputs_ok(*old(node), *p),
        !r ==> *final(node) == *old(node),
        r ==> final(node).duty_cycle == clamp(forage_duty_raw(*old(node), *p), 0, UNIT as int),
        r ==> final(node).mass_kg == removed_mass(
            old(node).row,
            p.temperature_k as int,
            p.molar_mass_kg_per_mol as int,
        ),
        r ==> final(node).karma_bee == bee_karma_of(
            final(node).mass_kg as int,
            bee_weighted_lambda(old(node).row.lambda_hazard as int, old(node).bee_flag == 1, old(node).bee_weight as int),
            old(node).row.beta_nb_per_kg as int,
        ),
        r ==> final(node).emf_score == emf_score_of(*old(node)),
        r ==> final(node).row == old(node).row && final(node).bee_flag == old(node).bee_flag
            && final(node).bee_weight == old(node).bee_weight,
{
    let mass = match try_compute_mass_kg(&node.row, p.temperature_k, p.molar_mass_kg_per_mol) {
        Some(m) => m,
        None => {
            return false;
        },
    };
    if !(p.m_ref > 0 && p.k_ref > 0 && p.e_ref_bee > 0) {
        return false;
    }
    let lambda: i128 = if node.bee_flag == 1 {
        mul_fx(node.row.lambda_hazard, node.bee_weight)
    } else {
        node.row.lambda_hazard as i128
    };
    if !fits_wide(lambda) {
        return false;
    }
    let rate = mul_fx(lambda as i64, node.row.beta_nb_per_kg);
    if !fits_wide(rate) {
        return false;
    }
    let karma = mul_fx(rate as i64, mass);
    if !fits_wide(karma) {
        return false;
    }
    if !fits_wide(div_fx(mass, p.m_ref)) || !fits_wide(div_fx(karma as i64, p.k_ref)) {
        return false;
    }
    update_node_bee(node, p);
    true
}

} // verus!
