//! Embodied carbon of mineral sheets.
use vstd::prelude::*;

use crate::fixed::{fits_i64, fx_mul, mul_fx};

verus! {

/// A mineral sheet: production emissions and carbonation uptake per m²,
/// all fixed-point.
#[derive(Debug, Clone, Copy)]
pub struct MineralSheet {
    pub area_m2: i64,
    pub e_prod_kgco2_per_m2: i64,
    pub m_carb_kg_per_m2: i64,
    pub beta_carb_kgco2_per_kg: i64,
}

/// Net embodied CO₂ per m² after full carbonation: `E_prod - β · m_carb`.
pub open spec fn net_co2_of(s: MineralSheet) -> int {
    s.e_prod_kgco2_per_m2 - fx_mul(s.beta_carb_kgco2_per_kg as int, s.m_carb_kg_per_m2 as int)
}

impl MineralSheet {
    pub fn net_co2_kg_per_m2(&self) -> (r: i64)
        requires
            fits_i64(net_co2_of(*self)),
        ensures
            r == net_co2_of(*self),
    {
        let uptake = mul_fx(self.beta_carb_kgco2_per_kg, self.m_carb_kg_per_m2);
        ((self.e_prod_kgco2_per_m2 as i128) - uptake) as i64
    }
}

} // verus!
