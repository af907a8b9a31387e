//! Corridor rows, node state, and the physical quantity estimator: removed
//! pollutant mass and its hazard-weighted karma.
use vstd::prelude::*;

use crate::fixed::{fits_i64, fx_mul, mul_fx, nonneg, UNIT};

verus! {

/// Reporting unit of a concentration reading.
#[derive(Debug, Clone, Copy, PartialEq, Eq, Structural)]
pub enum ConcentrationUnit {
    /// Micrograms per cubic metre (`ugm3` or `ug/m3`).
    MicrogramsPerM3,
    /// Milligrams per cubic metre (`mgm3` or `mg/m3`).
    MilligramsPerM3,
    /// Parts per billion by volume (`ppb`), converted through the ideal gas law.
    Ppb,
    /// Any other tag: it contributes no mass.
    Unrecognized,
}

pub open spec fn unit_of_tag(tag: Seq<char>) -> ConcentrationUnit {
    if tag == "ugm3"@ || tag == "ug/m3"@ {
        ConcentrationUnit::MicrogramsPerM3
    } else if tag == "mgm3"@ || tag == "mg/m3"@ {
        ConcentrationUnit::MilligramsPerM3
    } else if tag == "ppb"@ {
        ConcentrationUnit::Ppb
    } else {
        ConcentrationUnit::Unrecognized
    }
}

impl ConcentrationUnit {
    /// Reads a unit tag as it appears in a corridor row.
    pub fn from_tag(tag: &String) -> (r: ConcentrationUnit)
        ensures
            r == unit_of_tag(tag@),
    {
        proof {
            reveal_strlit("ugm3");
            reveal_strlit("ug/m3");
            reveal_strlit("mgm3");
            reveal_strlit("mg/m3");
            reveal_strlit("ppb");
        }
        let ug = "ugm3".to_owned();
        let ug_slash = "ug/m3".to_owned();
        let mg = "mgm3".to_owned();
        let mg_slash = "mg/m3".to_owned();
        let ppb = "ppb".to_owned();
        if *tag == ug || *tag == ug_slash {
            ConcentrationUnit::MicrogramsPerM3
        } else if *tag == mg || *tag == mg_slash {
            ConcentrationUnit::MilligramsPerM3
        } else if *tag == ppb {
            ConcentrationUnit::Ppb
        } else {
            ConcentrationUnit::Unrecognized
        }
    }
}

/// One validated sensor row of a corridor node. Concentrations are in `unit`,
/// airflow in m³/s, the sampling period in s; all fixed-point.
#[derive(Debug, Clone)]
pub struct CorridorRow {
    pub machine_id: String,
    pub node_type: String,
    pub location: String,
    pub pollutant: String,
    pub cin: i64,
    pub cout: i64,
    pub unit: ConcentrationUnit,
    pub airflow_m3_per_s: i64,
    pub period_s: i64,
    pub lambda_hazard: i64,
    pub beta_nb_per_kg: i64,
    pub ecoimpact_score: i64,
}

/// Per-actuator state for one control cycle. `duty_cycle` lies in
/// `[0, UNIT]` once the controller has written it.
#[derive(Debug, Clone)]
pub struct NodeState {
    pub row: CorridorRow,
    pub mass_kg: i64,
    pub karma_bytes: i64,
    pub duty_cycle: i64,
    pub power_w: i64,
    pub geo_weight: i64,
}

/// A corridor row as seen by governance checks.
pub type GovernanceRow = CorridorRow;

/// Molar gas constant 8.3145 J/(mol·K), as a ratio of integers.
pub const GAS_CONSTANT_NUM: i64 = 83145;

pub const GAS_CONSTANT_DEN: i64 = 10000;

/// A conversion factor to kg/m³, held exactly as `num / den` kilograms per
/// cubic metre for each whole unit of concentration.
#[derive(Debug, Clone, Copy, PartialEq, Eq, Structural)]
pub struct KgFactor {
    pub num: i64,
    pub den: i128,
}

/// The factor of each unit: fixed for mass-based units, `M / (R·T) · 1e-9`
/// for ppb with `temperature_k` and `molar_mass_kg_per_mol` fixed-point, and
/// zero for an unrecognized unit.
pub open spec fn kg_factor(unit: ConcentrationUnit, temperature_k: int, molar_mass_kg_per_mol: int) -> (int, int) {
    match unit {
        ConcentrationUnit::MicrogramsPerM3 => (1, 1_000_000_000),
        ConcentrationUnit::MilligramsPerM3 => (1, 1_000_000),
        // M/UNIT / (83145/10000 · T/UNIT) · 1e-9 == M / (83145 · T · 100000)
        ConcentrationUnit::Ppb => (molar_mass_kg_per_mol, GAS_CONSTANT_NUM * temperature_k * 100_000),
        ConcentrationUnit::Unrecognized => (0, 1),
    }
}

/// Converts a reporting unit to a kg/m³ factor, exactly as a ratio.
pub fn unit_to_kg_factor(unit: ConcentrationUnit, temperature_k: i64, molar_mass_kg_per_mol: i64) -> (r: KgFactor)
    ensures
        (r.num as int, r.den as int) == kg_factor(unit, temperature_k as int, molar_mass_kg_per_mol as int),
{
    match unit {
        ConcentrationUnit::MicrogramsPerM3 => KgFactor { num: 1, den: 1_000_000_000 },
        ConcentrationUnit::MilligramsPerM3 => KgFactor { num: 1, den: 1_000_000 },
        ConcentrationUnit::Ppb => {
            proof {
                assert(-83145 * 0x8000_0000_0000_0000 * 100_000 <= (GAS_CONSTANT_NUM as int) * (
                temperature_k as int) * 100_000 <= 83145 * 0x8000_0000_0000_0000 * 100_000);
            }
            KgFactor {
                num: molar_mass_kg_per_mol,
                den: (GAS_CONSTANT_NUM as i128) * (temperature_k as i128) * 100_000,
            }
        },
        ConcentrationUnit::Unrecognized => KgFactor { num: 0, den: 1 },
    }
}

/// Concentration removed across the node: `max(cin - cout, 0)`.
pub open spec fn concentration_drop(row: CorridorRow) -> int {
    nonneg(row.cin - row.cout)
}

/// Air volume (m³, fixed-point) passed through the node in one period.
pub open spec fn air_volume(row: CorridorRow) -> int {
    (row.airflow_m3_per_s * row.period_s) / (UNIT as int)
}

/// Concentration drop times air volume, in units of the reporting unit · m³.
pub open spec fn drop_volume(row: CorridorRow) -> int {
    (concentration_drop(row) * air_volume(row)) / (UNIT as int)
}

/// Removed mass in kg (fixed-point): `max(cin - cout, 0) · factor · Q · t`.
pub open spec fn removed_mass(row: CorridorRow, temperature_k: int, molar_mass_kg_per_mol: int) -> int {
    let f = kg_factor(row.unit, temperature_k, molar_mass_kg_per_mol);
    drop_volume(row) * f.0 / f.1
}

/// Inputs on which the mass estimate is defined and fits the fixed-point
/// range: non-negative airflow and period; for ppb a positive temperature and
/// a non-negative molar mass; and every intermediate within range.
pub open spec fn mass_inputs_ok(row: CorridorRow, temperature_k: int, molar_mass_kg_per_mol: int) -> bool {
    &&& 0 <= row.airflow_m3_per_s
    &&& 0 <= row.period_s
    &&& air_volume(row) <= i64::MAX
    &&& row.unit == ConcentrationUnit::Ppb ==> (0 < temperature_k && 0 <= molar_mass_kg_per_mol)
    &&& drop_volume(row) * kg_factor(row.unit, temperature_k, molar_mass_kg_per_mol).0 <= i128::MAX
    &&& removed_mass(row, temperature_k, molar_mass_kg_per_mol) <= i64::MAX
}

/// `drop_volume` for a row with non-negative flow whose volume fits.
fn drop_volume_exec(row: &CorridorRow) -> (r: i128)
    requires
        0 <= row.airflow_m3_per_s,
        0 <= row.period_s,
        air_volume(*row) <= i64::MAX,
    ensures
        r == drop_volume(*row),
        r >= 0,
{
    let delta_c: i128 = if row.cin > row.cout {
        (row.cin as i128) - (row.cout as i128)
    } else {
        0
    };
    proof {
        assert(0 <= (row.airflow_m3_per_s as int) * (row.period_s as int)
            <= 0x4000_0000_0000_0000_0000_0000_0000_0000) by (nonlinear_arith)
            requires
                0 <= row.airflow_m3_per_s <= i64::MAX,
                0 <= row.period_s <= i64::MAX,
        ;
    }
    let flow = (row.airflow_m3_per_s as i128) * (row.period_s as i128);
    let volume = flow / (UNIT as i128);
    proof {
        vstd::arithmetic::div_mod::lemma_div_pos_is_pos(flow as int, UNIT as int);
        assert(0 <= (delta_c as int) * (volume as int) <= 0x7FFF_FFFF_FFFF_FFFF_0000_0000_0000_0001)
            by (nonlinear_arith)
            requires
                0 <= delta_c <= 0xFFFF_FFFF_FFFF_FFFF,
                0 <= volume <= 0x7FFF_FFFF_FFFF_FFFF,
        ;
    }
    let moved = delta_c * volume;
    proof {
        vstd::arithmetic::div_mod::lemma_div_pos_is_pos(moved as int, UNIT as int);
    }
    moved / (UNIT as i128)
}

/// The removed mass, computed wide enough that only its final fit is left open.
fn removed_mass_wide(row: &CorridorRow, temperature_k: i64, molar_mass_kg_per_mol: i64) -> (r: i128)
    requires
        0 <= row.airflow_m3_per_s,
        0 <= row.period_s,
        air_volume(*row) <= i64::MAX,
        row.unit == ConcentrationUnit::Ppb ==> (0 < temperature_k && 0 <= molar_mass_kg_per_mol),
        drop_volume(*row) * kg_factor(row.unit, temperature_k as int, molar_mass_kg_per_mol as int).0
            <= i128::MAX,
    ensures
        r == removed_mass(*row, temperature_k as int, molar_mass_kg_per_mol as int),
        r >= 0,
{
    let f = unit_to_kg_factor(row.unit, temperature_k, molar_mass_kg_per_mol);
    let moved_units = drop_volume_exec(row);
    proof {
        assert(0 <= (moved_units as int) * (f.num as int)) by (nonlinear_arith)
            requires
                0 <= moved_units,
                0 <= f.num,
        ;
        assert(f.den > 0) by (nonlinear_arith)
            requires
                row.unit == ConcentrationUnit::Ppb ==> f.den == 83145 * (temperature_k as int) * 100_000,
                row.unit == ConcentrationUnit::Ppb ==> temperature_k > 0,
                row.unit != ConcentrationUnit::Ppb ==> f.den >= 1,
        ;
    }
    let scaled = moved_units * (f.num as i128);
    proof {
        vstd::arithmetic::div_mod::lemma_div_pos_is_pos(scaled as int, f.den as int);
    }
    scaled / f.den
}

/// Mass removed by a node over its sampling period.
pub fn compute_mass_kg(row: &CorridorRow, temperature_k: i64, molar_mass_kg_per_mol: i64) -> (r: i64)
    requires
        mass_inputs_ok(*row, temperature_k as int, molar_mass_kg_per_mol as int),
    ensures
        r == removed_mass(*row, temperature_k as int, molar_mass_kg_per_mol as int),
        r >= 0,
{
    removed_mass_wide(row, temperature_k, molar_mass_kg_per_mol) as i64
}

/// The removed mass where the estimate is defined and fits the fixed-point
/// range, `None` elsewhere.
pub fn try_compute_mass_kg(row: &CorridorRow, temperature_k: i64, molar_mass_kg_per_mol: i64) -> (r: Option<i64>)
    ensures
        r is Some <==> mass_inputs_ok(*row, temperature_k as int, molar_mass_kg_per_mol as int),
        r matches Some(m) ==> m == removed_mass(*row, temperature_k as int, molar_mass_kg_per_mol as int),
{
    if row.airflow_m3_per_s < 0 || row.period_s < 0 {
        return None;
    }
    if row.unit == ConcentrationUnit::Ppb && !(temperature_k > 0 && 0 <= molar_mass_kg_per_mol) {
        return None;
    }
    proof {
        assert(0 <= (row.airflow_m3_per_s as int) * (row.period_s as int)
            <= 0x4000_0000_0000_0000_0000_0000_0000_0000) by (nonlinear_arith)
            requires
                0 <= row.airflow_m3_per_s <= i64::MAX,
                0 <= row.period_s <= i64::MAX,
        ;
    }
    let volume = (row.airflow_m3_per_s as i128) * (row.period_s as i128) / (UNIT as i128);
    if volume > i64::MAX as i128 {
        return None;
    }
    let f = unit_to_kg_factor(row.unit, temperature_k, molar_mass_kg_per_mol);
    if drop_volume_exec(row).checked_mul(f.num as i128).is_none() {
        return None;
    }
    let mass = removed_mass_wide(row, temperature_k, molar_mass_kg_per_mol);
    if mass > i64::MAX as i128 {
        return None;
    }
    Some(mass as i64)
}

/// Karma per kilogram for a row: `lambda_hazard · beta_nb_per_kg`.
pub open spec fn karma_rate(row: CorridorRow) -> int {
    fx_mul(row.lambda_hazard as int, row.beta_nb_per_kg as int)
}

/// Hazard-weighted karma of a removed mass: `lambda · beta · mass`.
pub open spec fn karma_of(row: CorridorRow, mass_kg: int) -> int {
    fx_mul(karma_rate(row), mass_kg)
}

/// Karma where the rate and the karma fit the fixed-point range, `None` elsewhere.
pub fn try_compute_karma_bytes(row: &CorridorRow, mass_kg: i64) -> (r: Option<i64>)
    ensures
        r is Some <==> (fits_i64(karma_rate(*row)) && fits_i64(karma_of(*row, mass_kg as int))),
        r matches Some(k) ==> k == karma_of(*row, mass_kg as int),
{
    let rate = mul_fx(row.lambda_hazard, row.beta_nb_per_kg);
    if rate < i64::MIN as i128 || rate > i64::MAX as i128 {
        return None;
    }
    let k = mul_fx(rate as i64, mass_kg);
    if k < i64::MIN as i128 || k > i64::MAX as i128 {
        return None;
    }
    Some(k as i64)
}

/// Hazard-weighted karma for `mass_kg` removed under `row`.
pub fn compute_karma_bytes(row: &CorridorRow, mass_kg: i64) -> (r: i64)
    requires
        fits_i64(karma_rate(*row)),
        fits_i64(karma_of(*row, mass_kg as int)),
    ensures
        r == karma_of(*row, mass_kg as int),
{
    let rate = mul_fx(row.lambda_hazard, row.beta_nb_per_kg);
    let k = mul_fx(rate as i64, mass_kg);
    k as i64
}

/// Governance check that a row is physically plausible: its mass is not
/// negative and its hazard coefficients are not negative.
pub fn validate_row(row: &CorridorRow, temperature_k: i64, molar_mass_kg_per_mol: i64) -> (r: Result<(), &'static str>)
    requires
        mass_inputs_ok(*row, temperature_k as int, molar_mass_kg_per_mol as int),
    ensures
        r is Ok <==> (row.lambda_hazard >= 0 && row.beta_nb_per_kg >= 0),
{
    let m = compute_mass_kg(row, temperature_k, molar_mass_kg_per_mol);
    if m < 0 {
        return Err("Negative mass violates CEIM conservation");
    }
    if row.lambda_hazard < 0 || row.beta_nb_per_kg < 0 {
        return Err("Negative hazard or Karma/kg violates governance spec");
    }
    Ok(())
}

} // verus!
