//! Generic envelope / hysteresis / escalation framework over domain states,
//! with its bee-domain implementation.
use vstd::prelude::*;

use crate::fixed::{fx_mul, nonneg, UNIT};
use crate::sealed::Sealed;

verus! {

/// Metric families across bee, marine and urban (UHI) domains.
#[derive(Clone, Copy, Debug, PartialEq, Eq, Structural)]
pub enum MetricFamily {
    BeeThermal,
    BeeChem,
    BeeEMF,
    BeeNoise,
    MarineThermal,
    MarineSalinity,
    MarineShear,
    MarineNoise,
    UrbanHeatIndex,
    UrbanWBGT,
    UrbanNOx,
}

/// A corridor invariant over samples of type `T`, with a non-negative
/// residual (0 is ideal).
pub trait CorridorInvariant<T> {
    spec fn holds_of(&self, sample: &T) -> bool;

    spec fn residual_of(&self, sample: &T) -> int;

    /// Whether all corridor constraints hold for this sample.
    fn holds(&self, sample: &T) -> (r: bool)
        ensures
            r == self.holds_of(sample),
    ;

    fn residual(&self, sample: &T) -> (r: i128)
        ensures
            r == self.residual_of(sample),
            r >= 0,
    ;
}

/// A band that names the metric family it applies to.
pub trait EcoBandCapable {
    fn metric_family(&self) -> MetricFamily;
}

/// Normalized host-budget, eco-band and DW-ceiling indices of a domain
/// envelope; 1 (one `UNIT`) is the edge of each.
pub trait HostBudgetEnvelope: Sized {
    type Band: EcoBandCapable;

    type Invariant: CorridorInvariant<Self>;

    spec fn host_budget_of(&self) -> int;

    spec fn eco_band_of(&self) -> int;

    spec fn dw_ceiling_of(&self) -> int;

    fn host_budget_index(&self) -> (r: i64)
        ensures
            r == self.host_budget_of(),
    ;

    fn eco_band_index(&self) -> (r: i64)
        ensures
            r == self.eco_band_of(),
    ;

    fn dw_ceiling_index(&self) -> (r: i64)
        ensures
            r == self.dw_ceiling_of(),
    ;

    /// Hard safety gate: every index at most 1 and the invariant holds.
    fn is_within_envelope(&self, inv: &Self::Invariant) -> (r: bool)
        ensures
            r == (self.host_budget_of() <= UNIT && self.eco_band_of() <= UNIT && self.dw_ceiling_of() <= UNIT
                && inv.holds_of(self)),
    {
        self.host_budget_index() <= UNIT && self.eco_band_index() <= UNIT && self.dw_ceiling_index() <= UNIT
            && inv.holds(self)
    }
}

/// A state that lives inside a safety envelope.
pub trait SafetyEnvelopeState {
    type Envelope: HostBudgetEnvelope;

    fn envelope(&self) -> &Self::Envelope;
}

/// Domain invariants that must hold for hysteresis to be legal.
pub trait DomainInvariant {
    fn host_vs_eco_ok(&self) -> bool;
}

/// Hold-or-accept rule: the next state is the proposal where the rule
/// accepts it, and the current state otherwise.
pub trait HysteresisRule<S> where S: SafetyEnvelopeState {
    type Inv: CorridorInvariant<S::Envelope> + DomainInvariant;

    spec fn accepts(&self, proposed: &S, inv: &Self::Inv) -> bool;

    fn next_state(&self, current: &S, proposed: &S, inv: &Self::Inv) -> (r: S)
        ensures
            r == (if self.accepts(proposed, inv) {
                *proposed
            } else {
                *current
            }),
    ;
}

/// Escalation triggers across domains.
#[derive(Clone, Copy, Debug, PartialEq, Eq, Structural)]
pub enum EscalationTrigger {
    BeeColonyStress,
    BeeThermalDrift,
    BeeEMFOverload,
    MarinePHDrift,
    MarineLarvaeShearRisk,
    MarineNoiseStress,
    UrbanUHIOverheat,
    UrbanNightWBGTDrift,
    UrbanNOxSpike,
}

/// Abstract escalation actions, bound by higher layers.
#[derive(Clone, Copy, Debug, PartialEq, Eq, Structural)]
pub enum EscalationAction {
    ThrottleDutyCycle,
    DisableActuation,
    ReroutePath,
    EnterSensingOnly,
    TriggerAudit,
    TriggerAlert,
}

/// Classifies a state into at most one trigger, most severe first, and maps
/// triggers to actions.
pub trait EscalationPolicy<S>: HysteresisRule<S> where S: SafetyEnvelopeState {
    spec fn trigger_of(&self, state: &S) -> Option<EscalationTrigger>;

    spec fn actions_of(&self, trig: EscalationTrigger) -> Seq<EscalationAction>;

    fn classify_trigger(&self, state: &S) -> (r: Option<EscalationTrigger>)
        ensures
            r == self.trigger_of(state),
    ;

    fn escalation_actions(&self, trig: EscalationTrigger) -> (r: Vec<EscalationAction>)
        ensures
            r@ == self.actions_of(trig),
    ;
}

/// Degradation-weighted ceiling of one metric family. Only this crate can
/// implement it, so no outside code can relax a ceiling.
pub trait CorridorCeiling: Sealed {
    spec fn family_of() -> MetricFamily;

    spec fn ceiling_min_of() -> int;

    spec fn ceiling_max_of() -> int;

    fn family() -> (r: MetricFamily)
        ensures
            r == Self::family_of(),
    ;

    /// Minimal allowed DW ceiling.
    fn dw_ceiling_min() -> (r: i64)
        ensures
            r == Self::ceiling_min_of(),
    ;

    /// Hard maximal value.
    fn dw_ceiling_max() -> (r: i64)
        ensures
            r == Self::ceiling_max_of(),
    ;
}

/// Bee thermal ceiling (brood and hive corridors): 2.1 to 3.0 °C.
pub struct BeeThermalCeiling;

impl Sealed for BeeThermalCeiling {}

impl CorridorCeiling for BeeThermalCeiling {
    open spec fn family_of() -> MetricFamily {
        MetricFamily::BeeThermal
    }

    open spec fn ceiling_min_of() -> int {
        2_100_000_000
    }

    open spec fn ceiling_max_of() -> int {
        3_000_000_000
    }

    fn family() -> (r: MetricFamily) {
        MetricFamily::BeeThermal
    }

    fn dw_ceiling_min() -> (r: i64) {
        2_100_000_000
    }

    fn dw_ceiling_max() -> (r: i64) {
        3_000_000_000
    }
}

/// Marine larvae thermal ceiling, tighter than the bee one: 0.5 to 1.5 °C.
pub struct MarineLarvaeThermalCeiling;

impl Sealed for MarineLarvaeThermalCeiling {}

impl CorridorCeiling for MarineLarvaeThermalCeiling {
    open spec fn family_of() -> MetricFamily {
        MetricFamily::MarineThermal
    }

    open spec fn ceiling_min_of() -> int {
        500_000_000
    }

    open spec fn ceiling_max_of() -> int {
        1_500_000_000
    }

    fn family() -> (r: MetricFamily) {
        MetricFamily::MarineThermal
    }

    fn dw_ceiling_min() -> (r: i64) {
        500_000_000
    }

    fn dw_ceiling_max() -> (r: i64) {
        1_500_000_000
    }
}

/// Host-budget band in whole percent (0 to 100).
#[derive(Clone, Copy, Debug, PartialEq, Eq, Structural)]
pub struct HostBudgetBand {
    pub min: u8,
    pub max: u8,
}

/// A host-budget band tied to the ceiling of one metric family.
#[derive(Debug)]
pub struct CorridorBand<C: CorridorCeiling> {
    pub budget: HostBudgetBand,
    pub _ceiling: core::marker::PhantomData<C>,
}

/// A ceiling in tenths of its unit, saturated to `[0, 255]`.
pub open spec fn ceiling_tenths(ceiling: int) -> int {
    crate::fixed::clamp(crate::fixed::trunc_div(ceiling * 10, UNIT as int), 0, 255)
}

/// Largest budget a band may allow: 85% of the ceiling in tenths.
pub open spec fn allowed_budget(ceiling: int) -> int {
    ceiling_tenths(ceiling) * 85 / 100
}

impl<C: CorridorCeiling> CorridorBand<C> {
    /// The band's upper bound is at most 85% of the family's minimal
    /// ceiling, both on the 0 to 255 scale of tenths.
    pub fn budget_within_ceiling(&self) -> (r: bool)
        ensures
            r == (self.budget.max as int <= allowed_budget(C::ceiling_min_of())),
    {
        let c = C::dw_ceiling_min();
        let tenths = crate::fixed::div_trunc((c as i128) * 10, UNIT as i128);
        let scaled: u16 = if tenths < 0 {
            0
        } else if tenths > 255 {
            255
        } else {
            tenths as u16
        };
        let allowed = scaled * 85 / 100;
        (self.budget.max as u16) <= allowed
    }
}

/// Corridor trace identifier (the 128-bit value of a UUID).
pub trait Traceable {
    fn corridor_trace_id(&self) -> u128;
}

/// Serialization into the corridor research spine's wire format.
pub trait BinaryEcoTrace: Traceable {
    fn to_wire_bytes(&self) -> Vec<u8>;
}

/// Bee corridor band with normalized indices, each nominally in `[0, UNIT]`.
#[derive(Clone, Copy, Debug)]
pub struct BeeBand {
    pub family: MetricFamily,
    pub host_budget: i64,
    pub eco_band: i64,
    pub dw_ceiling: i64,
}

impl EcoBandCapable for BeeBand {
    fn metric_family(&self) -> MetricFamily {
        self.family
    }
}

/// Bee envelope: a band and the corridor's trace identifier.
#[derive(Clone, Copy, Debug)]
pub struct BeeEnvelope {
    pub band: BeeBand,
    pub trace_id: u128,
}

impl HostBudgetEnvelope for BeeEnvelope {
    type Band = BeeBand;

    type Invariant = BeeCorridorInvariant;

    open spec fn host_budget_of(&self) -> int {
        self.band.host_budget as int
    }

    open spec fn eco_band_of(&self) -> int {
        self.band.eco_band as int
    }

    open spec fn dw_ceiling_of(&self) -> int {
        self.band.dw_ceiling as int
    }

    fn host_budget_index(&self) -> (r: i64) {
        self.band.host_budget
    }

    fn eco_band_index(&self) -> (r: i64) {
        self.band.eco_band
    }

    fn dw_ceiling_index(&self) -> (r: i64) {
        self.band.dw_ceiling
    }
}

impl Traceable for BeeEnvelope {
    fn corridor_trace_id(&self) -> u128 {
        self.trace_id
    }
}

/// Bee Lyapunov-style invariant: the residual must not exceed `v_safe`.
#[derive(Clone, Copy, Debug, PartialEq, Eq, Structural)]
pub struct BeeCorridorInvariant {
    pub v_safe: i64,
}

/// Quadratic residual over the non-negative parts of the three indices.
pub open spec fn bee_residual(band: BeeBand) -> int {
    let hb = nonneg(band.host_budget as int);
    let eco = nonneg(band.eco_band as int);
    let dw = nonneg(band.dw_ceiling as int);
    fx_mul(hb, hb) + fx_mul(eco, eco) + fx_mul(dw, dw)
}

fn square_of_nonneg(x: i64) -> (r: i128)
    ensures
        r == fx_mul(nonneg(x as int), nonneg(x as int)),
        0 <= r <= crate::fixed::FX_MUL_BOUND,
{
    let y = if x < 0 {
        0
    } else {
        x
    };
    proof {
        assert(0 <= (y as int) * (y as int)) by (nonlinear_arith);
        crate::fixed::lemma_trunc_div_bound((y as int) * (y as int), UNIT as int);
    }
    crate::fixed::mul_fx(y, y)
}

impl CorridorInvariant<BeeEnvelope> for BeeCorridorInvariant {
    open spec fn holds_of(&self, sample: &BeeEnvelope) -> bool {
        bee_residual(sample.band) <= self.v_safe
    }

    open spec fn residual_of(&self, sample: &BeeEnvelope) -> int {
        bee_residual(sample.band)
    }

    fn holds(&self, sample: &BeeEnvelope) -> (r: bool) {
        self.residual(sample) <= self.v_safe as i128
    }

    fn residual(&self, sample: &BeeEnvelope) -> (r: i128) {
        square_of_nonneg(sample.band.host_budget) + square_of_nonneg(sample.band.eco_band) + square_of_nonneg(
            sample.band.dw_ceiling,
        )
    }
}

impl DomainInvariant for BeeCorridorInvariant {
    fn host_vs_eco_ok(&self) -> bool {
        true
    }
}

/// Bee state inside an envelope.
#[derive(Clone, Copy, Debug)]
pub struct BeeState {
    pub envelope: BeeEnvelope,
    /// Aggregate bee health score, nominally in `[0, UNIT]`.
    pub hb_score: i64,
}

impl SafetyEnvelopeState for BeeState {
    type Envelope = BeeEnvelope;

    fn envelope(&self) -> &BeeEnvelope {
        &self.envelope
    }
}

/// Domain invariant for bees: the host budget never exceeds 0.85 of the eco
/// band. The inequality itself is enforced by the hysteresis rule.
#[derive(Clone, Copy, Debug, PartialEq, Eq, Structural)]
pub struct BeeDomainInvariant;

impl DomainInvariant for BeeDomainInvariant {
    fn host_vs_eco_ok(&self) -> bool {
        true
    }
}

/// `hb <= 0.85 · eco` with a positive eco band: the bee cross-invariant.
pub open spec fn host_vs_eco_holds(band: BeeBand) -> bool {
    band.eco_band > 0 && 100 * (band.host_budget as int) <= 85 * (band.eco_band as int)
}

/// A proposal is accepted when the cross-invariant holds and its envelope
/// is within bounds under `inv`.
pub open spec fn bee_accepts(proposed: BeeState, inv: BeeCorridorInvariant) -> bool {
    &&& host_vs_eco_holds(proposed.envelope.band)
    &&& proposed.envelope.band.host_budget <= UNIT
    &&& proposed.envelope.band.eco_band <= UNIT
    &&& proposed.envelope.band.dw_ceiling <= UNIT
    &&& inv.holds_of(&proposed.envelope)
}

/// The bee hold-or-accept rule.
#[derive(Clone, Copy, Debug)]
pub struct BeeHysteresisRule;

impl HysteresisRule<BeeState> for BeeHysteresisRule {
    type Inv = BeeCorridorInvariant;

    open spec fn accepts(&self, proposed: &BeeState, inv: &BeeCorridorInvariant) -> bool {
        bee_accepts(*proposed, *inv)
    }

    fn next_state(&self, current: &BeeState, proposed: &BeeState, inv: &BeeCorridorInvariant) -> (r: BeeState) {
        let env = &proposed.envelope;
        let hb = env.band.host_budget;
        let eco = env.band.eco_band;
        if eco <= 0 {
            return *current;
        }
        if 100 * (hb as i128) > 85 * (eco as i128) {
            return *current;
        }
        if !env.is_within_envelope(inv) {
            return *current;
        }
        *proposed
    }
}

/// Threshold on the host budget above which a colony is under stress: 0.9.
pub const COLONY_STRESS_HOST_BUDGET: i64 = 900_000_000;

/// The bee trigger: colony stress above 0.9 host budget, else thermal drift
/// where the host budget exceeds 0.85 of the eco band, else none.
pub open spec fn bee_trigger(state: BeeState) -> Option<EscalationTrigger> {
    let band = state.envelope.band;
    if band.host_budget > COLONY_STRESS_HOST_BUDGET {
        Some(EscalationTrigger::BeeColonyStress)
    } else if 100 * (band.host_budget as int) > 85 * (band.eco_band as int) {
        Some(EscalationTrigger::BeeThermalDrift)
    } else {
        None
    }
}

pub open spec fn bee_actions(trig: EscalationTrigger) -> Seq<EscalationAction> {
    match trig {
        EscalationTrigger::BeeColonyStress => seq![
            EscalationAction::DisableActuation,
            EscalationAction::EnterSensingOnly,
            EscalationAction::TriggerAudit,
        ],
        EscalationTrigger::BeeThermalDrift => seq![
            EscalationAction::ThrottleDutyCycle,
            EscalationAction::ReroutePath,
            EscalationAction::TriggerAlert,
        ],
        _ => seq![EscalationAction::TriggerAudit],
    }
}

/// Escalation policy for bee states; its hysteresis is the bee rule's.
#[derive(Clone, Copy, Debug)]
pub struct BeeEscalationPolicy;

impl HysteresisRule<BeeState> for BeeEscalationPolicy {
    type Inv = BeeCorridorInvariant;

    open spec fn accepts(&self, proposed: &BeeState, inv: &BeeCorridorInvariant) -> bool {
        bee_accepts(*proposed, *inv)
    }

    fn next_state(&self, current: &BeeState, proposed: &BeeState, inv: &BeeCorridorInvariant) -> (r: BeeState) {
        BeeHysteresisRule.next_state(current, proposed, inv)
    }
}

impl EscalationPolicy<BeeState> for BeeEscalationPolicy {
    open spec fn trigger_of(&self, state: &BeeState) -> Option<EscalationTrigger> {
        bee_trigger(*state)
    }

    open spec fn actions_of(&self, trig: EscalationTrigger) -> Seq<EscalationAction> {
        bee_actions(trig)
    }

    fn classify_trigger(&self, state: &BeeState) -> (r: Option<EscalationTrigger>) {
        let hb = state.envelope.band.host_budget;
        let eco = state.envelope.band.eco_band;
        if hb > COLONY_STRESS_HOST_BUDGET {
            Some(EscalationTrigger::BeeColonyStress)
        } else if 100 * (hb as i128) > 85 * (eco as i128) {
            Some(EscalationTrigger::BeeThermalDrift)
        } else {
            None
        }
    }

    fn escalation_actions(&self, trig: EscalationTrigger) -> (r: Vec<EscalationAction>) {
        let r = match trig {
            EscalationTrigger::BeeColonyStress => vec![
                EscalationAction::DisableActuation,
                EscalationAction::EnterSensingOnly,
                EscalationAction::TriggerAudit,
            ],
            EscalationTrigger::BeeThermalDrift => vec![
                EscalationAction::ThrottleDutyCycle,
                EscalationAction::ReroutePath,
                EscalationAction::TriggerAlert,
            ],
            _ => vec![EscalationAction::TriggerAudit],
        };
        assert(r@ =~= bee_actions(trig));
        r
    }
}

/// Holding is idempotent: whatever a hold-or-accept rule returns when the
/// proposal is the current state is that state, under any invariant.
pub proof fn lemma_hold_idempotent<S, R>(rule: R, s: S, inv: R::Inv, r: S) where
    S: SafetyEnvelopeState,
    R: HysteresisRule<S>,

    requires
        call_ensures(R::next_state, (&rule, &s, &s, &inv), r),
    ensures
        r == s,
{
}

/// The bee rule accepts a proposal that meets its cross-invariant and
/// envelope, whatever the current state, and then moves to it.
pub proof fn lemma_bee_accepts_safe_proposal(proposed: BeeState, inv: BeeCorridorInvariant)
    requires
        host_vs_eco_holds(proposed.envelope.band),
        proposed.envelope.band.host_budget <= UNIT,
        proposed.envelope.band.eco_band <= UNIT,
        proposed.envelope.band.dw_ceiling <= UNIT,
        bee_residual(proposed.envelope.band) <= inv.v_safe,
    ensures
        BeeHysteresisRule.accepts(&proposed, &inv),
{
}

} // verus!
