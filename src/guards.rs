//! The four guard predicates over a node's proposed state: safety envelope,
//! host budget, eco-band classification and the DW ceiling.
use vstd::prelude::*;

use crate::corridor::NodeState;
use crate::fixed::{div_fx, fits_i64, fx_div, nonneg, UNIT};

verus! {

/// Corridor-wide load band, ordered from lowest to highest.
#[derive(Debug, Copy, Clone, Eq, PartialEq, Structural)]
pub enum EcoBand {
    Green,
    Amber,
    Red,
}

/// A violated guard, with a short description of what failed.
#[derive(Debug, Clone, Copy, PartialEq, Eq)]
pub enum SafetyError {
    EnvelopeViolation(&'static str),
    HostBudgetExceeded(&'static str),
    DwCeilingExceeded(&'static str),
}

impl SafetyError {
    /// What failed, in a few words.
    pub fn detail(&self) -> (r: &'static str)
        ensures
            r == match self {
                SafetyError::EnvelopeViolation(d) => *d,
                SafetyError::HostBudgetExceeded(d) => *d,
                SafetyError::DwCeilingExceeded(d) => *d,
            },
    {
        match self {
            SafetyError::EnvelopeViolation(d) => *d,
            SafetyError::HostBudgetExceeded(d) => *d,
            SafetyError::DwCeilingExceeded(d) => *d,
        }
    }
}

/// Bounds on a node's duty cycle, altitude and ecoimpact score.
pub trait SafetyEnvelope {
    /// The node, found at `altitude_m`, lies inside the envelope.
    spec fn admits(&self, node: &NodeState, altitude_m: i64) -> bool;

    /// The violation reported for a node outside the envelope.
    spec fn envelope_error(&self, node: &NodeState, altitude_m: i64) -> SafetyError;

    /// Checks the envelope; `altitude_m` is the lookup for the node's location.
    fn check_envelope(&self, node: &NodeState, altitude_m: i64) -> (r: Result<(), SafetyError>)
        ensures
            r is Ok <==> self.admits(node, altitude_m),
            !self.admits(node, altitude_m) ==> r == Err::<(), SafetyError>(self.envelope_error(node, altitude_m)),
            !self.admits(node, altitude_m) ==> r matches Err(SafetyError::EnvelopeViolation(_)),
    ;
}

/// Power and per-step energy budgets of a node's host.
pub trait HostBudget {
    /// The node respects its host budgets in the current step.
    spec fn within_budget(&self, node: &NodeState) -> bool;

    /// Normalized power draw of the node.
    spec fn power_fraction_of(&self, node: &NodeState) -> int;

    /// The violation reported for a node over its budget.
    spec fn budget_error(&self, node: &NodeState) -> SafetyError;

    fn check_host_budget(&self, node: &NodeState) -> (r: Result<(), SafetyError>)
        ensures
            r is Ok <==> self.within_budget(node),
            !self.within_budget(node) ==> r == Err::<(), SafetyError>(self.budget_error(node)),
            !self.within_budget(node) ==> r matches Err(SafetyError::HostBudgetExceeded(_)),
    ;

    /// Power fraction `P / P_max`, never negative, and at most one whole unit
    /// for a node within its budget.
    fn power_fraction(&self, node: &NodeState) -> (r: i128)
        ensures
            r == self.power_fraction_of(node),
            r >= 0,
            self.within_budget(node) ==> r <= UNIT,
    ;
}

/// Classification of the corridor-wide eco-load into bands, each with a gain.
pub trait EcoBandClassifier {
    spec fn band_of(&self, eco_load: i64) -> EcoBand;

    spec fn gain_of(&self, band: EcoBand) -> int;

    fn classify(&self, eco_load: i64) -> (r: EcoBand)
        ensures
            r == self.band_of(eco_load),
    ;

    fn band_gain(&self, band: EcoBand) -> (r: i64)
        ensures
            r == self.gain_of(band),
    ;
}

/// Ceiling on a corridor's degradation-weighted flux density.
pub trait DwCeilingInvariant {
    spec fn respects(&self, phi_dw: i64) -> bool;

    /// Normalized overage above the ceiling; zero when compliant.
    spec fn violation_of(&self, phi_dw: i64) -> int;

    /// The ceiling is configured with a positive value.
    spec fn ceiling_positive(&self) -> bool;

    fn check_dw_ceiling(&self, phi_dw: i64) -> (r: Result<(), SafetyError>)
        ensures
            r is Ok <==> self.respects(phi_dw),
            !self.respects(phi_dw) ==> r matches Err(SafetyError::DwCeilingExceeded(_)),
            self.ceiling_positive() ==> (self.violation_of(phi_dw) == 0 <==> self.respects(phi_dw)),
    ;

    /// The violation: zero exactly when a positive ceiling is respected.
    fn dw_violation(&self, phi_dw: i64) -> (r: i64)
        requires
            fits_i64(self.violation_of(phi_dw)),
        ensures
            r == self.violation_of(phi_dw),
            r >= 0,
            self.ceiling_positive() ==> (r == 0 <==> self.respects(phi_dw)),
    ;

    /// Whether the violation fits the fixed-point range.
    fn violation_in_range(&self, phi_dw: i64) -> (r: bool)
        ensures
            r == fits_i64(self.violation_of(phi_dw)),
    ;
}

/// A rectangular envelope: closed intervals for duty cycle, altitude (m) and
/// ecoimpact score.
#[derive(Debug, Clone, Copy)]
pub struct RectSafetyEnvelope {
    pub u_min: i64,
    pub u_max: i64,
    pub z_min_m: i64,
    pub z_max_m: i64,
    pub ecoimpact_min: i64,
    pub ecoimpact_max: i64,
}

impl SafetyEnvelope for RectSafetyEnvelope {
    open spec fn admits(&self, node: &NodeState, altitude_m: i64) -> bool {
        &&& self.u_min <= node.duty_cycle <= self.u_max
        &&& self.z_min_m <= altitude_m <= self.z_max_m
        &&& self.ecoimpact_min <= node.row.ecoimpact_score <= self.ecoimpact_max
    }

    /// Duty cycle first, then altitude, then ecoimpact.
    open spec fn envelope_error(&self, node: &NodeState, altitude_m: i64) -> SafetyError {
        if !(self.u_min <= node.duty_cycle <= self.u_max) {
            SafetyError::EnvelopeViolation("duty_cycle out of bounds")
        } else if !(self.z_min_m <= altitude_m <= self.z_max_m) {
            SafetyError::EnvelopeViolation("altitude out of bounds")
        } else {
            SafetyError::EnvelopeViolation("ecoimpact score outside envelope")
        }
    }

    fn check_envelope(&self, node: &NodeState, altitude_m: i64) -> (r: Result<(), SafetyError>) {
        let u = node.duty_cycle;
        if u < self.u_min || u > self.u_max {
            return Err(SafetyError::EnvelopeViolation("duty_cycle out of bounds"));
        }
        if altitude_m < self.z_min_m || altitude_m > self.z_max_m {
            return Err(SafetyError::EnvelopeViolation("altitude out of bounds"));
        }
        let s = node.row.ecoimpact_score;
        if s < self.ecoimpact_min || s > self.ecoimpact_max {
            return Err(SafetyError::EnvelopeViolation("ecoimpact score outside envelope"));
        }
        Ok(())
    }
}

/// Host budget over instantaneous power (W) and per-step energy (J), with the
/// step length in seconds.
#[derive(Debug, Clone, Copy)]
pub struct SimpleHostBudget {
    pub p_max_w: i64,
    pub e_step_max_j: i64,
    pub step_dt_s: i64,
}

impl HostBudget for SimpleHostBudget {
    /// Energy `P · dt` is compared with the ceiling exactly, without rounding.
    open spec fn within_budget(&self, node: &NodeState) -> bool {
        &&& node.power_w <= self.p_max_w
        &&& node.power_w * self.step_dt_s <= self.e_step_max_j * UNIT
    }

    /// Instantaneous power is reported ahead of per-step energy.
    open spec fn budget_error(&self, node: &NodeState) -> SafetyError {
        if node.power_w > self.p_max_w {
            SafetyError::HostBudgetExceeded("instantaneous power exceeded")
        } else {
            SafetyError::HostBudgetExceeded("per-step energy exceeded")
        }
    }

    open spec fn power_fraction_of(&self, node: &NodeState) -> int {
        if self.p_max_w <= 0 {
            0
        } else {
            nonneg(fx_div(node.power_w as int, self.p_max_w as int))
        }
    }

    fn check_host_budget(&self, node: &NodeState) -> (r: Result<(), SafetyError>) {
        if node.power_w > self.p_max_w {
            return Err(SafetyError::HostBudgetExceeded("instantaneous power exceeded"));
        }
        proof {
            assert(-0x4000_0000_0000_0000_0000_0000_0000_0000 <= (node.power_w as int) * (self.step_dt_s as int)
                <= 0x4000_0000_0000_0000_0000_0000_0000_0000) by (nonlinear_arith)
                requires
                    i64::MIN <= node.power_w <= i64::MAX,
                    i64::MIN <= self.step_dt_s <= i64::MAX,
            ;
        }
        let e_step = (node.power_w as i128) * (self.step_dt_s as i128);
        assert(-10_000_000_000_000_000_000_000_000_000 <= (self.e_step_max_j as int) * 1_000_000_000
            <= 10_000_000_000_000_000_000_000_000_000);
        if e_step > (self.e_step_max_j as i128) * (UNIT as i128) {
            return Err(SafetyError::HostBudgetExceeded("per-step energy exceeded"));
        }
        Ok(())
    }

    fn power_fraction(&self, node: &NodeState) -> (r: i128) {
        if self.p_max_w <= 0 {
            0
        } else {
            let f = div_fx(node.power_w, self.p_max_w);
            proof {
                if node.power_w >= 0 && node.power_w <= self.p_max_w {
                    let a = (node.power_w as int) * (UNIT as int);
                    let b = (self.p_max_w as int) * (UNIT as int);
                    assert(a <= b) by (nonlinear_arith)
                        requires
                            0 <= node.power_w <= self.p_max_w,
                            a == (node.power_w as int) * (UNIT as int),
                            b == (self.p_max_w as int) * (UNIT as int),
                            UNIT > 0,
                    ;
                    vstd::arithmetic::div_mod::lemma_div_is_ordered(a, b, self.p_max_w as int);
                    vstd::arithmetic::div_mod::lemma_div_multiples_vanish(UNIT as int, self.p_max_w as int);
                }
            }
            if f < 0 {
                0
            } else {
                f
            }
        }
    }
}

/// Two thresholds on the eco-load and a gain per band.
#[derive(Debug, Clone, Copy)]
pub struct ThresholdEcoBand {
    pub theta_green_amber: i64,
    pub theta_amber_red: i64,
    pub gain_green: i64,
    pub gain_amber: i64,
    pub gain_red: i64,
}

impl EcoBandClassifier for ThresholdEcoBand {
    open spec fn band_of(&self, eco_load: i64) -> EcoBand {
        if eco_load < self.theta_green_amber {
            EcoBand::Green
        } else if eco_load < self.theta_amber_red {
            EcoBand::Amber
        } else {
            EcoBand::Red
        }
    }

    open spec fn gain_of(&self, band: EcoBand) -> int {
        match band {
            EcoBand::Green => self.gain_green as int,
            EcoBand::Amber => self.gain_amber as int,
            EcoBand::Red => self.gain_red as int,
        }
    }

    fn classify(&self, eco_load: i64) -> (r: EcoBand) {
        if eco_load < self.theta_green_amber {
            EcoBand::Green
        } else if eco_load < self.theta_amber_red {
            EcoBand::Amber
        } else {
            EcoBand::Red
        }
    }

    fn band_gain(&self, band: EcoBand) -> (r: i64) {
        match band {
            EcoBand::Green => self.gain_green,
            EcoBand::Amber => self.gain_amber,
            EcoBand::Red => self.gain_red,
        }
    }
}

/// DW ceiling over the corridor's mass-flux density.
#[derive(Debug, Clone, Copy)]
pub struct SimpleDwCeiling {
    pub phi_dw_max: i64,
}

impl DwCeilingInvariant for SimpleDwCeiling {
    open spec fn respects(&self, phi_dw: i64) -> bool {
        phi_dw <= self.phi_dw_max
    }

    /// `(phi - max) / max` rounded up above the ceiling, so that any
    /// overage counts; zero when compliant or for a non-positive ceiling.
    open spec fn violation_of(&self, phi_dw: i64) -> int {
        if self.phi_dw_max <= 0 || phi_dw <= self.phi_dw_max {
            0
        } else {
            ((phi_dw - self.phi_dw_max) * UNIT + self.phi_dw_max - 1) / (self.phi_dw_max as int)
        }
    }

    open spec fn ceiling_positive(&self) -> bool {
        self.phi_dw_max > 0
    }

    fn check_dw_ceiling(&self, phi_dw: i64) -> (r: Result<(), SafetyError>) {
        proof {
            self.lemma_overage_positive(phi_dw);
        }
        if phi_dw > self.phi_dw_max {
            Err(SafetyError::DwCeilingExceeded("dw ceiling violated"))
        } else {
            Ok(())
        }
    }

    fn dw_violation(&self, phi_dw: i64) -> (r: i64) {
        proof {
            self.lemma_overage_positive(phi_dw);
        }
        match self.overage(phi_dw) {
            Some(v) => v as i64,
            None => 0,
        }
    }

    fn violation_in_range(&self, phi_dw: i64) -> (r: bool) {
        match self.overage(phi_dw) {
            Some(v) => v <= i64::MAX as i128,
            None => true,
        }
    }
}

impl SimpleDwCeiling {
    /// A positive overage is at least one.
    proof fn lemma_overage_positive(&self, phi_dw: i64)
        ensures
            self.violation_of(phi_dw) >= 0,
            self.phi_dw_max > 0 && phi_dw > self.phi_dw_max ==> self.violation_of(phi_dw) >= 1,
    {
        if self.phi_dw_max > 0 && phi_dw > self.phi_dw_max {
            let a = (phi_dw - self.phi_dw_max) * UNIT + self.phi_dw_max - 1;
            assert(a >= self.phi_dw_max as int) by (nonlinear_arith)
                requires
                    phi_dw - self.phi_dw_max >= 1,
                    a == (phi_dw - self.phi_dw_max) * UNIT + self.phi_dw_max - 1,
                    UNIT >= 1,
            ;
            vstd::arithmetic::div_mod::lemma_div_is_ordered(self.phi_dw_max as int, a, self.phi_dw_max as int);
            vstd::arithmetic::div_mod::lemma_div_by_self(self.phi_dw_max as int);
        }
    }

    /// The overage of a violated positive ceiling, computed wide; `None` when
    /// the violation is zero by definition.
    fn overage(&self, phi_dw: i64) -> (r: Option<i128>)
        ensures
            r is None ==> self.violation_of(phi_dw) == 0,
            r matches Some(v) ==> v == self.violation_of(phi_dw) && v >= 1,
    {
        proof {
            self.lemma_overage_positive(phi_dw);
        }
        if self.phi_dw_max <= 0 || phi_dw <= self.phi_dw_max {
            None
        } else {
            let over = (phi_dw as i128) - (self.phi_dw_max as i128);
            proof {
                assert(0 < (over as int) * 1_000_000_000 <= 20_000_000_000_000_000_000_000_000_000);
            }
            let a = over * (UNIT as i128) + (self.phi_dw_max as i128) - 1;
            Some(a / (self.phi_dw_max as i128))
        }
    }
}

} // verus!
