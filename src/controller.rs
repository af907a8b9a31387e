//! The corridor controller: composes the guards into one duty-cycle update.
use vstd::prelude::*;

use crate::corridor::NodeState;
use crate::fixed::{clamp, div_fx, fits_i64, fx_div, fx_mul, mul_fx, UNIT};
use crate::guards::{
    DwCeilingInvariant, EcoBand, EcoBandClassifier, HostBudget, SafetyEnvelope, SafetyError,
};

verus! {

/// `v / reference` in fixed point, or zero where the reference is not positive.
pub open spec fn normalized(v: int, reference: int) -> int {
    if reference > 0 {
        fx_div(v, reference)
    } else {
        0
    }
}

/// Total removed mass of a sequence of nodes.
pub open spec fn total_mass(nodes: Seq<NodeState>) -> int
    decreases nodes.len(),
{
    if nodes.len() == 0 {
        0
    } else {
        total_mass(nodes.drop_last()) + nodes.last().mass_kg
    }
}

/// Total karma of a sequence of nodes.
pub open spec fn total_karma(nodes: Seq<NodeState>) -> int
    decreases nodes.len(),
{
    if nodes.len() == 0 {
        0
    } else {
        total_karma(nodes.drop_last()) + nodes.last().karma_bytes
    }
}

fn fits_i128(x: i128) -> (r: bool)
    ensures
        r == fits_i64(x as int),
{
    i64::MIN as i128 <= x && x <= i64::MAX as i128
}

/// Total mass and karma of a corridor snapshot.
fn corridor_totals(nodes: &[NodeState]) -> (r: (i128, i128))
    ensures
        r.0 == total_mass(nodes@),
        r.1 == total_karma(nodes@),
{
    let mut m_sum: i128 = 0;
    let mut k_sum: i128 = 0;
    let mut i: usize = 0;
    while i < nodes.len()
        invariant
            0 <= i <= nodes@.len(),
            m_sum == total_mass(nodes@.take(i as int)),
            k_sum == total_karma(nodes@.take(i as int)),
            -((i as int) * 0x8000_0000_0000_0000) <= m_sum <= (i as int) * 0x8000_0000_0000_0000,
            -((i as int) * 0x8000_0000_0000_0000) <= k_sum <= (i as int) * 0x8000_0000_0000_0000,
        decreases nodes@.len() - i,
    {
        proof {
            assert(nodes@.take(i + 1).drop_last() =~= nodes@.take(i as int));
            assert(((i as int) + 1) * 0x8000_0000_0000_0000 <= 0x8000_0000_0000_0000_0000_0000_0000_0000)
                by (nonlinear_arith)
                requires
                    (i as int) + 1 <= 0x1_0000_0000_0000_0000,
            ;
        }
        m_sum = m_sum + nodes[i].mass_kg as i128;
        k_sum = k_sum + nodes[i].karma_bytes as i128;
        i = i + 1;
    }
    proof {
        assert(nodes@.take(nodes@.len() as int) =~= nodes@);
    }
    (m_sum, k_sum)
}

/// Controller for one corridor: the four guards, reference scales and the
/// gains of the additive update law. All numbers are fixed-point.
#[derive(Debug, Clone)]
pub struct CorridorController<E, H, B, D> where
    E: SafetyEnvelope,
    H: HostBudget,
    B: EcoBandClassifier,
    D: DwCeilingInvariant,
 {
    pub envelope: E,
    pub host_budget: H,
    pub eco_band: B,
    pub dw_ceiling: D,
    pub m_ref_kg: i64,
    pub k_ref_nb: i64,
    pub eta_m: i64,
    pub eta_k: i64,
    pub eta_w: i64,
    pub eta_b: i64,
    pub eta_p: i64,
    pub eta_dw: i64,
}

impl<E, H, B, D> CorridorController<E, H, B, D> where
    E: SafetyEnvelope,
    H: HostBudget,
    B: EcoBandClassifier,
    D: DwCeilingInvariant,
 {
    /// Corridor eco-load `a_M · Σmass / m_ref + a_K · Σkarma / k_ref`.
    pub open spec fn eco_load_of(&self, nodes: Seq<NodeState>, alpha_m: int, alpha_k: int) -> int {
        fx_mul(alpha_m, normalized(total_mass(nodes), self.m_ref_kg as int)) + fx_mul(
            alpha_k,
            normalized(total_karma(nodes), self.k_ref_nb as int),
        )
    }

    /// Inputs on which the eco-load and its parts fit the fixed-point range.
    pub open spec fn eco_load_fits(&self, nodes: Seq<NodeState>, alpha_m: int, alpha_k: int) -> bool {
        &&& fits_i64(total_mass(nodes))
        &&& fits_i64(total_karma(nodes))
        &&& fits_i64(normalized(total_mass(nodes), self.m_ref_kg as int))
        &&& fits_i64(normalized(total_karma(nodes), self.k_ref_nb as int))
        &&& fits_i64(self.eco_load_of(nodes, alpha_m, alpha_k))
    }

    /// The unprojected next duty cycle of the update law:
    /// `u + η_m·m + η_k·k + η_w·w + η_b·g − η_p·p − η_dw·δ`.
    pub open spec fn proposed_duty(&self, node: NodeState, band: EcoBand, phi_dw: i64) -> int {
        node.duty_cycle + fx_mul(self.eta_m as int, normalized(node.mass_kg as int, self.m_ref_kg as int))
            + fx_mul(self.eta_k as int, normalized(node.karma_bytes as int, self.k_ref_nb as int))
            + fx_mul(self.eta_w as int, node.geo_weight as int)
            + fx_mul(self.eta_b as int, self.eco_band.gain_of(band))
            - fx_mul(self.eta_p as int, self.host_budget.power_fraction_of(&node))
            - fx_mul(self.eta_dw as int, self.dw_ceiling.violation_of(phi_dw))
    }

    /// Inputs on which the terms of the update law fit the fixed-point range.
    pub open spec fn update_fits(&self, node: NodeState, phi_dw: i64) -> bool {
        &&& fits_i64(normalized(node.mass_kg as int, self.m_ref_kg as int))
        &&& fits_i64(normalized(node.karma_bytes as int, self.k_ref_nb as int))
        &&& fits_i64(self.dw_ceiling.violation_of(phi_dw))
    }

    /// Corridor-wide eco-load of a snapshot of the corridor's nodes.
    pub fn eco_load(&self, nodes: &[NodeState], alpha_m: i64, alpha_k: i64) -> (r: i64)
        requires
            self.eco_load_fits(nodes@, alpha_m as int, alpha_k as int),
        ensures
            r == self.eco_load_of(nodes@, alpha_m as int, alpha_k as int),
    {
        let (m_sum, k_sum) = corridor_totals(nodes);
        let m_sum = m_sum as i64;
        let k_sum = k_sum as i64;
        let m_norm: i64 = if self.m_ref_kg > 0 {
            div_fx(m_sum, self.m_ref_kg) as i64
        } else {
            0
        };
        let k_norm: i64 = if self.k_ref_nb > 0 {
            div_fx(k_sum, self.k_ref_nb) as i64
        } else {
            0
        };
        let e = mul_fx(alpha_m, m_norm) + mul_fx(alpha_k, k_norm);
        e as i64
    }

    /// The eco-load where it and its parts fit the fixed-point range, `None`
    /// elsewhere.
    pub fn try_eco_load(&self, nodes: &[NodeState], alpha_m: i64, alpha_k: i64) -> (r: Option<i64>)
        ensures
            r is Some <==> self.eco_load_fits(nodes@, alpha_m as int, alpha_k as int),
            r matches Some(e) ==> e == self.eco_load_of(nodes@, alpha_m as int, alpha_k as int),
    {
        let (m_sum, k_sum) = corridor_totals(nodes);
        if !(fits_i128(m_sum) && fits_i128(k_sum)) {
            return None;
        }
        let m_norm: i128 = if self.m_ref_kg > 0 {
            div_fx(m_sum as i64, self.m_ref_kg)
        } else {
            0
        };
        let k_norm: i128 = if self.k_ref_nb > 0 {
            div_fx(k_sum as i64, self.k_ref_nb)
        } else {
            0
        };
        if !(fits_i128(m_norm) && fits_i128(k_norm)) {
            return None;
        }
        let e = mul_fx(alpha_m, m_norm as i64) + mul_fx(alpha_k, k_norm as i64);
        if !fits_i128(e) {
            return None;
        }
        Some(e as i64)
    }

    /// Whether the terms of the update law fit the fixed-point range for
    /// this node and flux.
    pub fn update_in_range(&self, node: &NodeState, phi_dw: i64) -> (r: bool)
        ensures
            r == self.update_fits(*node, phi_dw),
    {
        let m_ok = self.m_ref_kg <= 0 || fits_i128(div_fx(node.mass_kg, self.m_ref_kg));
        let k_ok = self.k_ref_nb <= 0 || fits_i128(div_fx(node.karma_bytes, self.k_ref_nb));
        m_ok && k_ok && self.dw_ceiling.violation_in_range(phi_dw)
    }

    /// DW flux density of the corridor; the flux is aggregated upstream.
    pub fn dw_flux_density(&self, phi_dw_raw: i64) -> (r: i64)
        ensures
            r == phi_dw_raw,
    {
        phi_dw_raw
    }

    /// One step of the duty-cycle update for `node`, found at `altitude_m`.
    ///
    /// The envelope and host budget are checked first; a failure leaves the
    /// node unchanged and names the guard. Otherwise the update law's value
    /// is projected onto `[0, UNIT]` and committed.
    pub fn update_node_duty(
        &self,
        node: &mut NodeState,
        eco_band: EcoBand,
        phi_dw: i64,
        altitude_m: i64,
    ) -> (r: Result<(), SafetyError>)
        requires
            self.update_fits(*old(node), phi_dw),
        ensures
            r is Ok <==> (self.envelope.admits(old(node), altitude_m)
                && self.host_budget.within_budget(old(node))),
            !self.envelope.admits(old(node), altitude_m) ==> r matches Err(
                SafetyError::EnvelopeViolation(_),
            ),
            self.envelope.admits(old(node), altitude_m) && !self.host_budget.within_budget(old(node))
                ==> r matches Err(SafetyError::HostBudgetExceeded(_)),
            r is Err ==> *final(node) == *old(node),
            r is Ok ==> final(node).duty_cycle == clamp(
                self.proposed_duty(*old(node), eco_band, phi_dw),
                0,
                UNIT as int,
            ),
            r is Ok ==> 0 <= final(node).duty_cycle <= UNIT,
            r is Ok ==> final(node).row == old(node).row && final(node).mass_kg == old(node).mass_kg
                && final(node).karma_bytes == old(node).karma_bytes && final(node).power_w
                == old(node).power_w && final(node).geo_weight == old(node).geo_weight,
    {
        match self.envelope.check_envelope(node, altitude_m) {
            Ok(()) => {},
            Err(e) => {
                return Err(e);
            },
        }
        match self.host_budget.check_host_budget(node) {
            Ok(()) => {},
            Err(e) => {
                return Err(e);
            },
        }
        let m_norm: i64 = if self.m_ref_kg > 0 {
            div_fx(node.mass_kg, self.m_ref_kg) as i64
        } else {
            0
        };
        let k_norm: i64 = if self.k_ref_nb > 0 {
            div_fx(node.karma_bytes, self.k_ref_nb) as i64
        } else {
            0
        };
        let band_gain = self.eco_band.band_gain(eco_band);
        let p_frac = self.host_budget.power_fraction(node) as i64;
        let dw_violation = self.dw_ceiling.dw_violation(phi_dw);

        let u_new: i128 = (node.duty_cycle as i128) + mul_fx(self.eta_m, m_norm) + mul_fx(
            self.eta_k,
            k_norm,
        ) + mul_fx(self.eta_w, node.geo_weight) + mul_fx(self.eta_b, band_gain) - mul_fx(
            self.eta_p,
            p_frac,
        ) - mul_fx(self.eta_dw, dw_violation);

        let projected: i64 = if u_new < 0 {
            0
        } else if u_new > UNIT as i128 {
            UNIT
        } else {
            u_new as i64
        };
        node.duty_cycle = projected;
        Ok(())
    }
}

} // verus!
