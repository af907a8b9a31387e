//! Role- and attribute-based decisions over users, resources and context.
use vstd::prelude::*;

use super::types::{
    find_key, lemma_lookup_at, lookup, Action, AttributeValue, EnvironmentCtx, PropertyValue, Resource, Role, User,
};

verus! {

pub open spec fn rbac_allows(role: Role, action: Action) -> bool {
    match role {
        Role::Superchair => true,
        Role::Stakeholder => action == Action::Read || action == Action::Write,
        Role::Staff => action != Action::Export,
        Role::Guest => action == Action::Read,
        Role::Bot => action == Action::Read || action == Action::Write,
    }
}

/// Static role permissions.
#[derive(Debug, Clone, Copy)]
pub struct RbacPolicy;

impl RbacPolicy {
    pub fn allows(&self, user: &User, action: &Action) -> (r: bool)
        ensures
            r == rbac_allows(user.role, *action),
    {
        match (user.role, *action) {
            (Role::Superchair, _) => true,
            (Role::Stakeholder, Action::Read) | (Role::Stakeholder, Action::Write) => true,
            (Role::Stakeholder, _) => false,
            (Role::Staff, Action::Export) => false,
            (Role::Staff, _) => true,
            (Role::Guest, Action::Read) => true,
            (Role::Guest, _) => false,
            (Role::Bot, Action::Read) | (Role::Bot, Action::Write) => true,
            (Role::Bot, _) => false,
        }
    }

    pub fn policy_type(&self) -> (r: &'static str) {
        "RbacPolicy"
    }
}

/// A stakeholder's resource must carry `owner_id`; a textual owner must be
/// the stakeholder.
pub open spec fn owner_ok(user: User, res: Resource) -> bool {
    match lookup(res.properties@, "owner_id"@) {
        None => false,
        Some(PropertyValue::Str(owner)) => owner@ == user.user_id@,
        Some(_) => true,
    }
}

pub open spec fn in_phoenix(res: Resource) -> bool {
    match lookup(res.properties@, "city"@) {
        Some(PropertyValue::Str(city)) => city@ == "Phoenix"@,
        _ => false,
    }
}

pub open spec fn in_phoenix_ops(user: User) -> bool {
    match lookup(user.attributes@, "department"@) {
        Some(AttributeValue::Str(d)) => d@ == "PhoenixOps"@,
        _ => false,
    }
}

/// Stakeholders touch only what they own; executing a control proposal on a
/// Phoenix node takes a PhoenixOps staff member; writes and executions need
/// an encrypted channel.
pub open spec fn abac_grants(user: User, res: Resource, action: Action, env: EnvironmentCtx) -> bool {
    &&& user.role == Role::Stakeholder ==> owner_ok(user, res)
    &&& (user.role == Role::Staff && action == Action::ExecuteControlProposal && in_phoenix(res))
        ==> in_phoenix_ops(user)
    &&& (action == Action::Write || action == Action::ExecuteControlProposal) ==> env.is_encrypted_channel
}

#[derive(Debug, Clone, Copy)]
pub struct AbacPolicy;

fn property_is_text(res: &Resource, key: &String, text: &String) -> (r: bool)
    ensures
        r == (match lookup(res.properties@, key@) {
            Some(PropertyValue::Str(s)) => s@ == text@,
            _ => false,
        }),
{
    match find_key(&res.properties, key) {
        Some(i) => {
            proof {
                lemma_lookup_at(res.properties@, key@, i as int);
            }
            match &res.properties[i].1 {
                PropertyValue::Str(s) => *s == *text,
                _ => false,
            }
        },
        None => false,
    }
}

impl AbacPolicy {
    /// `Ok` with the grant's reason, or `Err` with the denial's.
    pub fn decide(&self, user: &User, res: &Resource, action: &Action, env: &EnvironmentCtx) -> (r: Result<
        &'static str,
        &'static str,
    >)
        ensures
            r is Ok <==> abac_grants(*user, *res, *action, *env),
    {
        proof {
            reveal_strlit("owner_id");
            reveal_strlit("city");
            reveal_strlit("Phoenix");
            reveal_strlit("department");
            reveal_strlit("PhoenixOps");
        }
        if user.role == Role::Stakeholder {
            let key = "owner_id".to_owned();
            match find_key(&res.properties, &key) {
                Some(i) => {
                    proof {
                        lemma_lookup_at(res.properties@, key@, i as int);
                    }
                    if let PropertyValue::Str(owner_id) = &res.properties[i].1 {
                        if *owner_id != user.user_id {
                            return Err("stakeholder not owner of resource");
                        }
                    }
                },
                None => {
                    return Err("resource missing owner_id for stakeholder");
                },
            }
        }
        if user.role == Role::Staff && *action == Action::ExecuteControlProposal {
            if property_is_text(res, &"city".to_owned(), &"Phoenix".to_owned()) {
                let dept_key = "department".to_owned();
                let dept_ok = match find_key(&user.attributes, &dept_key) {
                    Some(i) => {
                        proof {
                            lemma_lookup_at(user.attributes@, dept_key@, i as int);
                        }
                        match &user.attributes[i].1 {
                            AttributeValue::Str(d) => *d == "PhoenixOps".to_owned(),
                            _ => false,
                        }
                    },
                    None => false,
                };
                if !dept_ok {
                    return Err("staff not in PhoenixOps for Phoenix node");
                }
            }
        }
        if (*action == Action::Write || *action == Action::ExecuteControlProposal) && !env.is_encrypted_channel {
            return Err("unencrypted channel not allowed for privileged actions");
        }
        Ok("ABAC conditions satisfied")
    }

    pub fn policy_type(&self) -> (r: &'static str) {
        "AbacPolicy"
    }
}

} // verus!
