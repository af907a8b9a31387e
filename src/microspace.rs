//! Microspace kernel: band-resolved removed mass and karma of one node over
//! its sensor rows, and the node's next duty cycle.
use vstd::prelude::*;

use crate::fixed::{clamp, div_fx, fits_i64, fx_div, fx_mul, mul_fx, UNIT};

verus! {

/// One sensor row of a node; concentrations in kg/m³, flow in m³/s, area in
/// m², time in s, all fixed-point.
#[derive(Debug, Clone, Copy)]
pub struct QpuRow {
    pub node_id: [u8; 16],
    pub region: [u8; 16],
    pub band: u8,
    pub pollutant: u8,
    pub cin: i64,
    pub cout: i64,
    pub q: i64,
    pub area: i64,
    pub beta_band: i64,
    pub dt: i64,
    pub lambda_hazard: i64,
    pub beta_nb_per_kg: i64,
}

#[derive(Debug, Clone, Copy)]
pub struct NodeTelemetry {
    pub m_removed_kg: i64,
    pub nk_bytes: i64,
    pub ecoimpact_score: i64,
    pub duty_next: i64,
}

/// Smallest area-time product used as a divisor: 1e-6 m²·s.
pub const MIN_AREA_TIME: i64 = 1000;

/// Removed mass of a row, `(cin - cout) · q · dt`.
pub open spec fn row_mass(r: QpuRow) -> int {
    fx_mul(fx_mul(r.cin - r.cout, r.q as int), r.dt as int)
}

/// `max(area · dt, 1e-6)`.
pub open spec fn area_time(r: QpuRow) -> int {
    let a = fx_mul(r.area as int, r.dt as int);
    if a > MIN_AREA_TIME {
        a
    } else {
        MIN_AREA_TIME as int
    }
}

/// Mass flux `m / max(area · dt, 1e-6)`.
pub open spec fn row_flux(r: QpuRow) -> int {
    fx_div(row_mass(r), area_time(r))
}

/// Band mass `flux · area · beta_band · dt`.
pub open spec fn band_mass(r: QpuRow) -> int {
    fx_mul(fx_mul(fx_mul(row_flux(r), r.area as int), r.beta_band as int), r.dt as int)
}

/// Band karma `beta_nb · lambda · band mass`.
pub open spec fn band_karma(r: QpuRow) -> int {
    fx_mul(fx_mul(r.beta_nb_per_kg as int, r.lambda_hazard as int), band_mass(r))
}

/// Every intermediate value of a row fits an `i64`.
pub open spec fn row_fits(r: QpuRow) -> bool {
    &&& fits_i64(r.cin - r.cout)
    &&& fits_i64(fx_mul(r.cin - r.cout, r.q as int))
    &&& fits_i64(row_mass(r))
    &&& fits_i64(fx_mul(r.area as int, r.dt as int))
    &&& fits_i64(row_flux(r))
    &&& fits_i64(fx_mul(row_flux(r), r.area as int))
    &&& fits_i64(fx_mul(fx_mul(row_flux(r), r.area as int), r.beta_band as int))
    &&& fits_i64(band_mass(r))
    &&& fits_i64(fx_mul(r.beta_nb_per_kg as int, r.lambda_hazard as int))
    &&& fits_i64(band_karma(r))
}

pub open spec fn total_band_mass(rows: Seq<QpuRow>) -> int
    decreases rows.len(),
{
    if rows.len() == 0 {
        0
    } else {
        total_band_mass(rows.drop_last()) + band_mass(rows.last())
    }
}

pub open spec fn total_band_karma(rows: Seq<QpuRow>) -> int
    decreases rows.len(),
{
    if rows.len() == 0 {
        0
    } else {
        total_band_karma(rows.drop_last()) + band_karma(rows.last())
    }
}

/// Next duty cycle `clamp(u + γ·M - η·P, 0, 1)`.
pub open spec fn next_duty(rows: Seq<QpuRow>, u_k: int, p_watts: int, eta_cost: int, gamma_mass: int) -> int {
    clamp(u_k + fx_mul(gamma_mass, total_band_mass(rows)) - fx_mul(eta_cost, p_watts), 0, UNIT as int)
}

fn row_terms(r: &QpuRow) -> (t: (i64, i64))
    requires
        row_fits(*r),
    ensures
        t.0 == band_mass(*r),
        t.1 == band_karma(*r),
{
    let dc = ((r.cin as i128) - (r.cout as i128)) as i64;
    let m = mul_fx(mul_fx(dc, r.q) as i64, r.dt) as i64;
    let at = mul_fx(r.area, r.dt) as i64;
    let den = if at > MIN_AREA_TIME {
        at
    } else {
        MIN_AREA_TIME
    };
    let j = div_fx(m, den) as i64;
    let ja = mul_fx(j, r.area) as i64;
    let jab = mul_fx(ja, r.beta_band) as i64;
    let m_band = mul_fx(jab, r.dt) as i64;
    let rate = mul_fx(r.beta_nb_per_kg, r.lambda_hazard) as i64;
    let k = mul_fx(rate, m_band) as i64;
    (m_band, k)
}

/// One kernel step over a node's rows.
pub fn step_node(rows: &[QpuRow], u_k: i64, p_watts: i64, eta_cost: i64, gamma_mass: i64) -> (r: NodeTelemetry)
    requires
        forall|i: int| 0 <= i < rows@.len() ==> row_fits(#[trigger] rows@[i]),
        fits_i64(total_band_mass(rows@)),
        fits_i64(total_band_karma(rows@)),
    ensures
        r.m_removed_kg == total_band_mass(rows@),
        r.nk_bytes == total_band_karma(rows@),
        r.ecoimpact_score == r.nk_bytes,
        r.duty_next == next_duty(rows@, u_k as int, p_watts as int, eta_cost as int, gamma_mass as int),
{
    let mut m_total: i128 = 0;
    let mut k_total: i128 = 0;
    let mut i: usize = 0;
    while i < rows.len()
        invariant
            0 <= i <= rows@.len(),
            forall|j: int| 0 <= j < rows@.len() ==> row_fits(#[trigger] rows@[j]),
            m_total == total_band_mass(rows@.take(i as int)),
            k_total == total_band_karma(rows@.take(i as int)),
            -((i as int) * 0x8000_0000_0000_0000) <= m_total <= (i as int) * 0x8000_0000_0000_0000,
            -((i as int) * 0x8000_0000_0000_0000) <= k_total <= (i as int) * 0x8000_0000_0000_0000,
        decreases rows@.len() - i,
    {
        proof {
            assert(rows@.take(i + 1).drop_last() =~= rows@.take(i as int));
            assert(((i as int) + 1) * 0x8000_0000_0000_0000 <= 0x8000_0000_0000_0000_0000_0000_0000_0000)
                by (nonlinear_arith)
                requires
                    (i as int) + 1 <= 0x1_0000_0000_0000_0000,
            ;
        }
        let (m_band, k) = row_terms(&rows[i]);
        m_total = m_total + m_band as i128;
        k_total = k_total + k as i128;
        i = i + 1;
    }
    proof {
        assert(rows@.take(rows@.len() as int) =~= rows@);
    }
    let m_total = m_total as i64;
    let k_total = k_total as i64;
    let u_next = (u_k as i128) + mul_fx(gamma_mass, m_total) - mul_fx(eta_cost, p_watts);
    let duty_next: i64 = if u_next < 0 {
        0
    } else if u_next > UNIT as i128 {
        UNIT
    } else {
        u_next as i64
    };
    NodeTelemetry { m_removed_kg: m_total, nk_bytes: k_total, ecoimpact_score: k_total, duty_next }
}

} // verus!
