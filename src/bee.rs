//! Bee stressor state, the corridor polytope over it, and the trust ("bee
//! karma") envelope that gates an agent's access tier.
use vstd::prelude::*;

use crate::fixed::{fits_i64, fx_mul, mul_fx_wide, nonneg, trunc_div, div_trunc, UNIT};

verus! {

/// Trust scalar, nominally in `[0, UNIT]`.
#[derive(Debug, Clone, Copy, PartialEq, Eq, Structural)]
pub struct BeeKarma(pub i64);

/// Stressor vector projected into the bee-rights polytope.
#[derive(Debug, Clone, Copy)]
pub struct BeeStressorState {
    /// Pesticide hazard quotient.
    pub hq_pest: i64,
    /// RF-EMF hazard index.
    pub h_rf: i64,
    /// Air pollutant hazard index.
    pub h_poll: i64,
    /// Biomarker harm delta.
    pub d_h_bio: i64,
    pub varroa_per_100: i64,
    /// `|T_hive - 34.5|` in °C.
    pub d_thive_c: i64,
    /// Normalized foraging success.
    pub q_forage: i64,
}

/// Rows `a_i` with bounds `b_i` (`a_i · x <= b_i`), and the minimum trust
/// for actuation.
#[derive(Debug, Clone)]
pub struct BeeCorridorPolytope {
    pub a: Vec<Vec<i64>>,
    pub b: Vec<i64>,
    pub kappa_min: i64,
}

/// Governance envelope of one agent in one corridor. Identifiers are the
/// 128-bit values of UUIDs; `last_update` is in milliseconds since the Unix
/// epoch.
#[derive(Debug, Clone, Copy)]
pub struct BeeKarmaEnvelope {
    pub agent_id: u128,
    pub corridor_id: u128,
    pub kappa: BeeKarma,
    pub last_update: i64,
    pub realized_harm_score: i64,
    pub predicted_harm_score: i64,
    /// 0 = revoked, 1 = read-only, 2 = limited-write, 3 = full.
    pub blood_gate_level: u8,
}

/// The stressor vector: the six hazard components and forage deficit `1 - q`.
pub open spec fn stress_vector(x: BeeStressorState) -> Seq<int> {
    seq![
        x.hq_pest as int,
        x.h_rf as int,
        x.h_poll as int,
        x.d_h_bio as int,
        x.varroa_per_100 as int,
        x.d_thive_c as int,
        UNIT - x.q_forage,
    ]
}

/// `Σ_{j < n} row[j] · v[j]` in fixed point.
pub open spec fn row_dot(row: Seq<i64>, v: Seq<int>, n: int) -> int
    decreases n,
{
    if n <= 0 {
        0
    } else {
        row_dot(row, v, n - 1) + fx_mul(row[n - 1] as int, v[n - 1])
    }
}

pub open spec fn min_len(a: int, b: int) -> int {
    if a < b {
        a
    } else {
        b
    }
}

/// `row · v` over the components both have.
pub open spec fn row_value(row: Seq<i64>, v: Seq<int>) -> int {
    row_dot(row, v, min_len(row.len() as int, v.len() as int))
}

/// Number of constraints of a polytope: rows that have a bound.
pub open spec fn n_constraints(p: BeeCorridorPolytope) -> int {
    min_len(p.a@.len() as int, p.b@.len() as int)
}

/// The stressor vector satisfies every constraint of the polytope.
pub open spec fn inside_corridor(x: BeeStressorState, p: BeeCorridorPolytope) -> bool {
    forall|i: int| 0 <= i < n_constraints(p) ==> #[trigger] row_value(p.a@[i]@, stress_vector(x)) <= p.b@[i]
}

/// Admissible: inside the polytope, with trust at least the floor.
pub open spec fn bee_admissible(x: BeeStressorState, p: BeeCorridorPolytope, kappa: BeeKarma) -> bool {
    inside_corridor(x, p) && kappa.0 >= p.kappa_min
}

/// Bound on each partial sum of a row product with a stressor vector.
pub open spec fn dot_bound(n: int) -> int {
    n * crate::fixed::WIDE_MUL_BOUND
}

fn row_value_exec(row: &Vec<i64>, v: &Vec<i128>, ghost_v: Ghost<Seq<int>>) -> (r: i128)
    requires
        v@.len() == 7,
        ghost_v@.len() == 7,
        forall|j: int| 0 <= j < 7 ==> v@[j] == #[trigger] ghost_v@[j],
        forall|j: int| 0 <= j < 7 ==> -0xFFFF_FFFF_FFFF_FFFF <= #[trigger] v@[j] <= 0xFFFF_FFFF_FFFF_FFFF,
    ensures
        r == row_value(row@, ghost_v@),
{
    let n: usize = if row.len() < 7 {
        row.len()
    } else {
        7
    };
    let mut acc: i128 = 0;
    let mut j: usize = 0;
    while j < n
        invariant
            n == min_len(row@.len() as int, 7),
            0 <= j <= n,
            v@.len() == 7,
            ghost_v@.len() == 7,
            forall|k: int| 0 <= k < 7 ==> v@[k] == #[trigger] ghost_v@[k],
            forall|k: int| 0 <= k < 7 ==> -0xFFFF_FFFF_FFFF_FFFF <= #[trigger] v@[k] <= 0xFFFF_FFFF_FFFF_FFFF,
            acc == row_dot(row@, ghost_v@, j as int),
            -dot_bound(j as int) <= acc <= dot_bound(j as int),
        decreases n - j,
    {
        let t = mul_fx_wide(row[j], v[j]);
        acc = acc + t;
        j = j + 1;
    }
    acc
}

/// The stressor vector of `x`, each entry widened.
fn stress_vector_exec(x: &BeeStressorState) -> (r: Vec<i128>)
    ensures
        r@.len() == 7,
        forall|j: int| 0 <= j < 7 ==> r@[j] == #[trigger] stress_vector(*x)[j],
        forall|j: int| 0 <= j < 7 ==> -0xFFFF_FFFF_FFFF_FFFF <= #[trigger] r@[j] <= 0xFFFF_FFFF_FFFF_FFFF,
{
    let forage_deficit = (UNIT as i128) - (x.q_forage as i128);
    vec![
        x.hq_pest as i128,
        x.h_rf as i128,
        x.h_poll as i128,
        x.d_h_bio as i128,
        x.varroa_per_100 as i128,
        x.d_thive_c as i128,
        forage_deficit,
    ]
}

/// Whether the stressor vector satisfies every `a_i · x <= b_i`.
pub fn is_inside_corridor(x: &BeeStressorState, p: &BeeCorridorPolytope) -> (r: bool)
    ensures
        r == inside_corridor(*x, *p),
{
    let v = stress_vector_exec(x);
    let n: usize = if p.a.len() < p.b.len() {
        p.a.len()
    } else {
        p.b.len()
    };
    let mut i: usize = 0;
    while i < n
        invariant
            n == n_constraints(*p),
            0 <= i <= n,
            v@.len() == 7,
            forall|j: int| 0 <= j < 7 ==> v@[j] == #[trigger] stress_vector(*x)[j],
            forall|j: int| 0 <= j < 7 ==> -0xFFFF_FFFF_FFFF_FFFF <= #[trigger] v@[j] <= 0xFFFF_FFFF_FFFF_FFFF,
            forall|k: int| 0 <= k < i ==> #[trigger] row_value(p.a@[k]@, stress_vector(*x)) <= p.b@[k],
        decreases n - i,
    {
        let dot = row_value_exec(&p.a[i], &v, Ghost(stress_vector(*x)));
        if dot > p.b[i] as i128 {
            return false;
        }
        i = i + 1;
    }
    true
}

/// Inside the polytope and trusted at least to the polytope's floor.
pub fn is_admissible(x: &BeeStressorState, p: &BeeCorridorPolytope, kappa: BeeKarma) -> (r: bool)
    ensures
        r == bee_admissible(*x, *p, kappa),
{
    is_inside_corridor(x, p) && kappa.0 >= p.kappa_min
}

/// Access tier of a trust value: `>= 0.8 → 3`, `>= 0.6 → 2`, `>= 0.4 → 1`, else 0.
pub open spec fn tier_of(k: int) -> u8 {
    if k >= 800_000_000 {
        3
    } else if k >= 600_000_000 {
        2
    } else if k >= 400_000_000 {
        1
    } else {
        0
    }
}

/// Access tier of a trust value.
pub fn access_tier(k: i64) -> (r: u8)
    ensures
        r == tier_of(k as int),
{
    if k >= 800_000_000 {
        3
    } else if k >= 600_000_000 {
        2
    } else if k >= 400_000_000 {
        1
    } else {
        0
    }
}

impl BeeKarmaEnvelope {
    /// Adds `delta` to the trust scalar, limits it to `[0, UNIT]`, and
    /// recomputes the tier from it.
    pub fn apply_karma_delta(&mut self, delta: i64)
        ensures
            final(self).kappa.0 == crate::fixed::clamp(old(self).kappa.0 + delta, 0, UNIT as int),
            final(self).blood_gate_level == tier_of(final(self).kappa.0 as int),
            final(self).agent_id == old(self).agent_id,
            final(self).corridor_id == old(self).corridor_id,
            final(self).last_update == old(self).last_update,
            final(self).realized_harm_score == old(self).realized_harm_score,
            final(self).predicted_harm_score == old(self).predicted_harm_score,
    {
        let mut k: i128 = (self.kappa.0 as i128) + (delta as i128);
        if k > UNIT as i128 {
            k = UNIT as i128;
        }
        if k < 0 {
            k = 0;
        }
        self.kappa = BeeKarma(k as i64);
        self.blood_gate_level = access_tier(k as i64);
    }
}

/// Access to a stressor state, its corridor polytope and the agent's trust.
pub trait BeeAdmissible {
    spec fn state_of(&self) -> BeeStressorState;

    spec fn corridor_of(&self) -> BeeCorridorPolytope;

    spec fn karma_of(&self) -> BeeKarma;

    fn bee_state(&self) -> (r: &BeeStressorState)
        ensures
            *r == self.state_of(),
    ;

    fn bee_corridor(&self) -> (r: &BeeCorridorPolytope)
        ensures
            *r == self.corridor_of(),
    ;

    fn bee_karma(&self) -> (r: BeeKarma)
        ensures
            r == self.karma_of(),
    ;

    /// Whether the stressor vector satisfies every constraint of the polytope.
    fn is_inside_polytope(&self) -> (r: bool)
        ensures
            r == inside_corridor(self.state_of(), self.corridor_of()),
    {
        is_inside_corridor(self.bee_state(), self.bee_corridor())
    }

    /// Inside the polytope, with trust at least the polytope's floor.
    fn is_bee_admissible(&self) -> (r: bool)
        ensures
            r == bee_admissible(self.state_of(), self.corridor_of(), self.karma_of()),
    {
        is_admissible(self.bee_state(), self.bee_corridor(), self.bee_karma())
    }
}

/// Owners of a trust envelope.
pub trait BloodGated {
    spec fn envelope_of(&self) -> BeeKarmaEnvelope;

    fn envelope(&self) -> (r: &BeeKarmaEnvelope)
        ensures
            *r == self.envelope_of(),
    ;

    fn set_envelope(&mut self, env: BeeKarmaEnvelope)
        ensures
            final(self).envelope_of() == env,
    ;

    /// Adds `delta` to the trust scalar, limits it to `[0, UNIT]`, and
    /// recomputes the tier; the envelope's other fields are unchanged.
    fn apply_karma_delta(&mut self, delta: i64)
        ensures
            final(self).envelope_of().kappa.0 == crate::fixed::clamp(
                old(self).envelope_of().kappa.0 + delta,
                0,
                UNIT as int,
            ),
            final(self).envelope_of().blood_gate_level == tier_of(final(self).envelope_of().kappa.0 as int),
            final(self).envelope_of().agent_id == old(self).envelope_of().agent_id,
            final(self).envelope_of().corridor_id == old(self).envelope_of().corridor_id,
            final(self).envelope_of().last_update == old(self).envelope_of().last_update,
            final(self).envelope_of().realized_harm_score == old(self).envelope_of().realized_harm_score,
            final(self).envelope_of().predicted_harm_score == old(self).envelope_of().predicted_harm_score,
    {
        let mut env = *self.envelope();
        env.apply_karma_delta(delta);
        self.set_envelope(env);
    }
}

/// One comparison of a bee twin's prediction with telemetry, at time `t`
/// (milliseconds since the Unix epoch).
#[derive(Debug, Clone, Copy)]
pub struct BeeTwinSnapshot {
    pub twin_id: u128,
    pub corridor_id: u128,
    pub t: i64,
    pub vg_pred: i64,
    pub vg_obs: i64,
    pub dwv_pred: i64,
    pub dwv_obs: i64,
    pub weight_pred: i64,
    pub weight_obs: i64,
}

/// Harm over a window of snapshots of one corridor.
#[derive(Debug, Clone, Copy)]
pub struct HarmAggregation {
    pub corridor_id: u128,
    pub predicted_harm: i64,
    pub realized_harm: i64,
    pub delta_liability: i64,
}

pub open spec fn abs(x: int) -> int {
    if x < 0 {
        -x
    } else {
        x
    }
}

/// Realized harm of one snapshot: weighted sum of absolute deviations.
pub open spec fn realized_harm_of(s: BeeTwinSnapshot, w_v: int, w_d: int, w_w: int) -> int {
    fx_mul(w_v, abs(s.vg_pred - s.vg_obs)) + fx_mul(w_d, abs(s.dwv_pred - s.dwv_obs)) + fx_mul(
        w_w,
        abs(s.weight_pred - s.weight_obs),
    )
}

/// Sum of the realized harm over a window.
pub open spec fn total_realized_harm(snaps: Seq<BeeTwinSnapshot>, w_v: int, w_d: int, w_w: int) -> int
    decreases snaps.len(),
{
    if snaps.len() == 0 {
        0
    } else {
        total_realized_harm(snaps.drop_last(), w_v, w_d, w_w) + realized_harm_of(snaps.last(), w_v, w_d, w_w)
    }
}

/// Mean realized harm over a non-empty window.
pub open spec fn mean_realized_harm(snaps: Seq<BeeTwinSnapshot>, w_v: int, w_d: int, w_w: int) -> int {
    trunc_div(total_realized_harm(snaps, w_v, w_d, w_w), snaps.len() as int)
}

/// Largest window that [`aggregate_harm`] accepts.
pub const MAX_WINDOW: usize = 1_048_576;

/// Bound on the realized harm of one snapshot.
pub open spec fn harm_bound() -> int {
    3 * crate::fixed::WIDE_MUL_BOUND
}

fn abs_diff(a: i64, b: i64) -> (r: i128)
    ensures
        r == abs(a - b),
        0 <= r <= 0xFFFF_FFFF_FFFF_FFFF,
{
    let d = (a as i128) - (b as i128);
    if d < 0 {
        -d
    } else {
        d
    }
}

/// Aggregates realized and predicted harm over a window of snapshots of one
/// corridor. Predicted harm is zero: the twin expects no residual.
///
/// The window holds at most [`MAX_WINDOW`] snapshots: a machine limit that
/// keeps the running sum of weighted deviations within `i128`.
pub fn aggregate_harm(snapshots: &[BeeTwinSnapshot], w_v: i64, w_d: i64, w_w: i64) -> (r: HarmAggregation)
    requires
        0 < snapshots@.len() <= MAX_WINDOW,
        fits_i64(mean_realized_harm(snapshots@, w_v as int, w_d as int, w_w as int)),
    ensures
        r.corridor_id == snapshots@[0].corridor_id,
        r.predicted_harm == 0,
        r.realized_harm == mean_realized_harm(snapshots@, w_v as int, w_d as int, w_w as int),
        r.delta_liability == r.realized_harm - r.predicted_harm,
{
    let corridor_id = snapshots[0].corridor_id;
    let mut realized_sum: i128 = 0;
    let mut i: usize = 0;
    while i < snapshots.len()
        invariant
            0 <= i <= snapshots@.len() <= MAX_WINDOW,
            realized_sum == total_realized_harm(snapshots@.take(i as int), w_v as int, w_d as int, w_w as int),
            -((i as int) * harm_bound()) <= realized_sum <= (i as int) * harm_bound(),
            (i as int) * harm_bound() <= 1_048_576 * harm_bound(),
        decreases snapshots@.len() - i,
    {
        let s = snapshots[i];
        let h_real = mul_fx_wide(w_v, abs_diff(s.vg_pred, s.vg_obs)) + mul_fx_wide(
            w_d,
            abs_diff(s.dwv_pred, s.dwv_obs),
        ) + mul_fx_wide(w_w, abs_diff(s.weight_pred, s.weight_obs));
        proof {
            assert(snapshots@.take(i + 1).drop_last() =~= snapshots@.take(i as int));
            let hb = harm_bound();
            let n = i as int;
            assert((n + 1) * hb == n * hb + hb && (n + 1) * hb <= 1_048_576 * hb) by (nonlinear_arith)
                requires
                    0 <= n < 1_048_576,
                    hb >= 0,
            ;
        }
        realized_sum = realized_sum + h_real;
        i = i + 1;
    }
    proof {
        assert(snapshots@.take(snapshots@.len() as int) =~= snapshots@);
    }
    let realized = div_trunc(realized_sum, snapshots.len() as i128) as i64;
    HarmAggregation { corridor_id, predicted_harm: 0, realized_harm: realized, delta_liability: realized - 0 }
}

/// Trust after a liability above the warn threshold:
/// `max(0, κ - scale · (delta - warn))`.
pub open spec fn penalized_kappa(kappa: int, delta: int, warn: int, scale: int) -> int {
    nonneg(kappa - fx_mul(scale, delta - warn))
}

/// One tier lower, never below 0.
pub open spec fn tier_below(t: u8) -> u8 {
    if t == 0 {
        0
    } else {
        (t - 1) as u8
    }
}

/// Tier after a liability above the warn threshold: the tier of the new
/// trust, one step lower still when the downgrade threshold is reached.
pub open spec fn penalized_tier(k: int, delta: int, downgrade: int) -> u8 {
    if delta >= downgrade {
        tier_below(tier_of(k))
    } else {
        tier_of(k)
    }
}

/// Records the window's harm scores in `env` and, when the liability exceeds
/// `warn_threshold`, lowers the trust scalar and recomputes the tier.
pub fn apply_liability_to_envelope(
    env: &mut BeeKarmaEnvelope,
    harm: &HarmAggregation,
    warn_threshold: i64,
    downgrade_threshold: i64,
    karma_penalty_scale: i64,
)
    requires
        karma_penalty_scale >= 0,
    ensures
        final(env).predicted_harm_score == harm.predicted_harm,
        final(env).realized_harm_score == harm.realized_harm,
        final(env).agent_id == old(env).agent_id,
        final(env).corridor_id == old(env).corridor_id,
        final(env).last_update == old(env).last_update,
        harm.delta_liability <= warn_threshold ==> final(env).kappa == old(env).kappa
            && final(env).blood_gate_level == old(env).blood_gate_level,
        harm.delta_liability > warn_threshold ==> final(env).kappa.0 == penalized_kappa(
            old(env).kappa.0 as int,
            harm.delta_liability as int,
            warn_threshold as int,
            karma_penalty_scale as int,
        ) && final(env).blood_gate_level == penalized_tier(
            final(env).kappa.0 as int,
            harm.delta_liability as int,
            downgrade_threshold as int,
        ),
{
    env.predicted_harm_score = harm.predicted_harm;
    env.realized_harm_score = harm.realized_harm;

    if harm.delta_liability <= warn_threshold {
        return;
    }
    let delta_over = (harm.delta_liability as i128) - (warn_threshold as i128);
    let penalty = mul_fx_wide(karma_penalty_scale, delta_over);
    proof {
        assert(0 <= (karma_penalty_scale as int) * (delta_over as int)) by (nonlinear_arith)
            requires
                karma_penalty_scale >= 0,
                delta_over > 0,
        ;
        crate::fixed::lemma_trunc_div_bound((karma_penalty_scale as int) * (delta_over as int), UNIT as int);
    }
    let mut k = (env.kappa.0 as i128) - penalty;
    if k < 0 {
        k = 0;
    }
    env.kappa = BeeKarma(k as i64);
    let tier = access_tier(k as i64);
    env.blood_gate_level = if harm.delta_liability >= downgrade_threshold {
        tier.saturating_sub(1)
    } else {
        tier
    };
}

/// Above the warn threshold, trust after the liability update is monotone
/// non-increasing in the liability: a larger liability never leaves more
/// trust.
pub proof fn lemma_liability_decay_monotone(kappa: int, d1: int, d2: int, warn: int, scale: int)
    requires
        scale >= 0,
        warn < d1 <= d2,
    ensures
        penalized_kappa(kappa, d2, warn, scale) <= penalized_kappa(kappa, d1, warn, scale),
{
    let q1 = scale * (d1 - warn);
    let q2 = scale * (d2 - warn);
    assert(0 <= q1 <= q2) by (nonlinear_arith)
        requires
            scale >= 0,
            warn < d1 <= d2,
            q1 == scale * (d1 - warn),
            q2 == scale * (d2 - warn),
    ;
    vstd::arithmetic::div_mod::lemma_div_is_ordered(q1, q2, UNIT as int);
}

/// The access tier is monotone in trust: less trust never grants a higher tier.
pub proof fn lemma_tier_monotone(k1: int, k2: int)
    requires
        k1 <= k2,
    ensures
        tier_of(k1) <= tier_of(k2),
{
}

/// A stressor vector strictly inside every half-space, with trust at the
/// floor or above, is admissible.
pub proof fn lemma_strictly_inside_admissible(x: BeeStressorState, p: BeeCorridorPolytope, kappa: BeeKarma)
    requires
        forall|i: int| 0 <= i < n_constraints(p) ==> #[trigger] row_value(p.a@[i]@, stress_vector(x)) < p.b@[i],
        kappa.0 >= p.kappa_min,
    ensures
        bee_admissible(x, p, kappa),
{
}

/// Violating any single constraint makes the stressor vector inadmissible,
/// whatever the trust.
pub proof fn lemma_violation_inadmissible(x: BeeStressorState, p: BeeCorridorPolytope, kappa: BeeKarma, i: int)
    requires
        0 <= i < n_constraints(p),
        row_value(p.a@[i]@, stress_vector(x)) > p.b@[i],
    ensures
        !bee_admissible(x, p, kappa),
{
}

/// Trust below the polytope's floor makes any stressor vector inadmissible.
pub proof fn lemma_low_trust_inadmissible(x: BeeStressorState, p: BeeCorridorPolytope, kappa: BeeKarma)
    requires
        kappa.0 < p.kappa_min,
    ensures
        !bee_admissible(x, p, kappa),
{
}

} // verus!
