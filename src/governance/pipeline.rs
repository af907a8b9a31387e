//! The verifier that blesses single control proposals for execution.
use vstd::prelude::*;

use super::guards::{control_proposal_ok, ControlProposal, InputGuard};

verus! {

#[derive(Debug, Clone)]
pub struct VerifierVerdict {
    pub approved: bool,
    pub reason: String,
}

/// The only component allowed to approve a control proposal.
#[derive(Debug, Clone, Copy)]
pub struct Verifier;

impl Verifier {
    /// Approves exactly the structurally valid proposals.
    pub fn verify(proposal: &ControlProposal) -> (r: VerifierVerdict)
        ensures
            r.approved == control_proposal_ok(*proposal),
    {
        match InputGuard::validate_control_proposal(proposal) {
            Err(_) => VerifierVerdict { approved: false, reason: "invalid proposal".to_owned() },
            Ok(()) => VerifierVerdict { approved: true, reason: "proposal passed governance checks".to_owned() },
        }
    }
}

} // verus!
