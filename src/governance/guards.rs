//! Schema checks on control proposals arriving at the governance boundary.
use vstd::prelude::*;

use crate::fixed::UNIT;

verus! {

/// The only shape of control request accepted from outside.
#[derive(Debug, Clone)]
pub struct ControlProposal {
    pub node_id: String,
    pub new_duty_cycle: i64,
    pub horizon_seconds: u64,
}

/// A proposal names a node, asks for a duty cycle in `[0, UNIT]`, and has a
/// positive horizon.
pub open spec fn control_proposal_ok(p: ControlProposal) -> bool {
    p.node_id@.len() > 0 && 0 <= p.new_duty_cycle <= UNIT && p.horizon_seconds > 0
}

/// First line of defence against malformed or hostile payloads.
#[derive(Debug, Clone, Copy)]
pub struct InputGuard;

impl InputGuard {
    /// Checks the node id, then the duty cycle, then the horizon, and
    /// reports the first failure.
    pub fn validate_control_proposal(p: &ControlProposal) -> (r: Result<(), String>)
        ensures
            r is Ok <==> control_proposal_ok(*p),
    {
        if p.node_id.as_str().is_empty() {
            return Err("node_id must not be empty".to_owned());
        }
        if !(0 <= p.new_duty_cycle && p.new_duty_cycle <= UNIT) {
            return Err("new_duty_cycle must be between 0.0 and 1.0".to_owned());
        }
        if p.horizon_seconds == 0 {
            return Err("horizon_seconds must be > 0".to_owned());
        }
        Ok(())
    }
}

} // verus!
