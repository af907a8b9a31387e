//! Operator governance: role- and attribute-based access decisions, input
//! guards for control proposals, and the proposal verifier.
use vstd::prelude::*;

use crate::fixed::UNIT;

pub mod guards;
pub mod pipeline;
pub mod policy;
pub mod types;

verus! {

#[derive(Debug, Clone, Copy, PartialEq, Eq, Structural)]
pub enum Role {
    Superchair,
    Stakeholder,
    Staff,
    Guest,
    Bot,
}

#[derive(Debug, Clone, Copy, PartialEq, Eq, Structural)]
pub enum Action {
    ReadShard,
    WriteTelemetry,
    ProposeControl,
}

/// An operator, with free-form `(key, value)` attributes.
#[derive(Debug, Clone)]
pub struct Principal {
    pub id: String,
    pub role: Role,
    pub attributes: Vec<(String, String)>,
}

/// A node or shard, with its owner (if recorded) and `(key, value)` attributes.
#[derive(Debug, Clone)]
pub struct Resource {
    pub resource_id: String,
    pub owner: Option<String>,
    pub attributes: Vec<(String, String)>,
}

/// Extra request metadata; empty for now.
#[derive(Debug, Clone, Copy, Default)]
pub struct GovContext;

/// Role-based policy: a coarse allow or deny per role and action.
#[derive(Debug, Clone, Copy)]
pub struct RbacPolicy;

pub open spec fn rbac_allows(role: Role, action: Action) -> bool {
    match role {
        Role::Superchair => true,
        Role::Stakeholder => action != Action::ProposeControl,
        Role::Staff => true,
        Role::Guest => action == Action::ReadShard,
        Role::Bot => action != Action::ProposeControl,
    }
}

impl RbacPolicy {
    pub fn allows(&self, principal: &Principal, action: &Action) -> (r: bool)
        ensures
            r == rbac_allows(principal.role, *action),
    {
        match (principal.role, *action) {
            (Role::Superchair, _) => true,
            (Role::Stakeholder, Action::ReadShard) => true,
            (Role::Stakeholder, Action::WriteTelemetry) => true,
            (Role::Stakeholder, Action::ProposeControl) => false,
            (Role::Staff, _) => true,
            (Role::Guest, Action::ReadShard) => true,
            (Role::Guest, _) => false,
            (Role::Bot, Action::ProposeControl) => false,
            (Role::Bot, _) => true,
        }
    }

    pub fn policy_type(&self) -> (r: &'static str) {
        "RbacPolicy"
    }
}

/// Whether the attributes hold the pair `("visibility", "public")`.
pub open spec fn is_public(attributes: Seq<(String, String)>) -> bool {
    exists|i: int| 0 <= i < attributes.len() && #[trigger] attributes[i].0@ == "visibility"@ && attributes[i].1@
        == "public"@
}

/// Attribute-based policy: a stakeholder may touch only resources it owns,
/// and a guest may read only public resources.
pub open spec fn abac_grants(principal: Principal, action: Action, resource: Resource) -> bool {
    &&& principal.role == Role::Stakeholder ==> (resource.owner matches Some(o) && o@ == principal.id@)
    &&& (principal.role == Role::Guest && action == Action::ReadShard) ==> is_public(resource.attributes@)
}

#[derive(Debug, Clone, Copy)]
pub struct AbacPolicy;

impl AbacPolicy {
    /// `Ok` with the grant's reason, or `Err` with the denial's.
    pub fn decide(&self, principal: &Principal, action: &Action, resource: &Resource) -> (r: Result<
        &'static str,
        &'static str,
    >)
        ensures
            r is Ok <==> abac_grants(*principal, *action, *resource),
    {
        if principal.role == Role::Stakeholder {
            match &resource.owner {
                Some(owner) => {
                    if *owner != principal.id {
                        return Err("stakeholder not owner of resource");
                    }
                },
                None => {
                    return Err("resource has no owner metadata");
                },
            }
        }
        if principal.role == Role::Guest && *action == Action::ReadShard {
            if !has_public_visibility(&resource.attributes) {
                return Err("guest cannot read non-public resource");
            }
        }
        Ok("ABAC conditions satisfied")
    }

    pub fn policy_type(&self) -> (r: &'static str) {
        "AbacPolicy"
    }
}

fn has_public_visibility(attributes: &Vec<(String, String)>) -> (r: bool)
    ensures
        r == is_public(attributes@),
{
    proof {
        reveal_strlit("visibility");
        reveal_strlit("public");
    }
    let key = "visibility".to_owned();
    let value = "public".to_owned();
    let mut i: usize = 0;
    while i < attributes.len()
        invariant
            0 <= i <= attributes@.len(),
            key@ == "visibility"@,
            value@ == "public"@,
            forall|j: int|
                0 <= j < i ==> !(#[trigger] attributes@[j].0@ == "visibility"@ && attributes@[j].1@ == "public"@),
        decreases attributes@.len() - i,
    {
        if attributes[i].0 == key && attributes[i].1 == value {
            return true;
        }
        i = i + 1;
    }
    false
}

/// Checks on numeric inputs at the governance boundary.
#[derive(Debug, Clone, Copy)]
pub struct InputGuard;

impl InputGuard {
    /// A duty cycle must lie in `[0, UNIT]`.
    pub fn validate_duty_cycle(duty_cycle: i64) -> (r: Result<(), String>)
        ensures
            r is Ok <==> 0 <= duty_cycle <= UNIT,
    {
        if 0 <= duty_cycle && duty_cycle <= UNIT {
            Ok(())
        } else {
            Err("duty_cycle must be between 0.0 and 1.0".to_owned())
        }
    }
}

/// A batch of duty cycles proposed for nodes.
#[derive(Debug, Clone)]
pub struct Proposal {
    pub node_ids: Vec<String>,
    pub duty_cycles: Vec<i64>,
}

#[derive(Debug, Clone)]
pub struct Verdict {
    pub approved: bool,
    pub message: String,
}

/// Builds proposals; it never applies them.
#[derive(Debug, Clone, Copy)]
pub struct Generator;

impl Generator {
    /// An empty proposal.
    pub fn generate_proposal(_task: &str) -> (r: Proposal)
        ensures
            r.node_ids@.len() == 0,
            r.duty_cycles@.len() == 0,
    {
        Proposal { node_ids: Vec::new(), duty_cycles: Vec::new() }
    }
}

/// A proposal passes when each node has one duty cycle and every duty cycle
/// lies in `[0, UNIT]`.
pub open spec fn proposal_ok(p: Proposal) -> bool {
    &&& p.node_ids@.len() == p.duty_cycles@.len()
    &&& forall|i: int| 0 <= i < p.duty_cycles@.len() ==> 0 <= #[trigger] p.duty_cycles@[i] <= UNIT
}

/// The only source of an approved verdict.
#[derive(Debug, Clone, Copy)]
pub struct Verifier;

impl Verifier {
    pub fn verify(proposal: &Proposal) -> (r: Verdict)
        ensures
            r.approved == proposal_ok(*proposal),
    {
        if proposal.node_ids.len() != proposal.duty_cycles.len() {
            return Verdict { approved: false, message: "node_ids and duty_cycles length mismatch".to_owned() };
        }
        let mut i: usize = 0;
        while i < proposal.duty_cycles.len()
            invariant
                0 <= i <= proposal.duty_cycles@.len(),
                forall|j: int| 0 <= j < i ==> 0 <= #[trigger] proposal.duty_cycles@[j] <= UNIT,
            decreases proposal.duty_cycles@.len() - i,
        {
            if InputGuard::validate_duty_cycle(proposal.duty_cycles[i]).is_err() {
                return Verdict {
                    approved: false,
                    message: "invalid duty_cycle: duty_cycle must be between 0.0 and 1.0".to_owned(),
                };
            }
            i = i + 1;
        }
        Verdict { approved: true, message: "proposal passed core governance checks".to_owned() }
    }
}

} // verus!
