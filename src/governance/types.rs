//! Operators, resources and request context for the attribute-based policy.
use vstd::prelude::*;

verus! {

#[derive(Debug, Clone, Copy, PartialEq, Eq, Structural)]
pub enum Role {
    Superchair,
    Stakeholder,
    Staff,
    Guest,
    Bot,
}

#[derive(Debug, Clone, Copy, PartialEq, Eq, Structural)]
pub enum ResourceType {
    Shard,
    Node,
    TelemetryStream,
    ControlProposal,
}

#[derive(Debug, Clone)]
pub enum AttributeValue {
    Str(String),
    Bool(bool),
    Int(i64),
}

#[derive(Debug, Clone)]
pub enum PropertyValue {
    Str(String),
    Bool(bool),
    Int(i64),
}

/// An operator. `attributes` maps names to values; the first entry with a
/// name is the one that counts.
#[derive(Debug, Clone)]
pub struct User {
    pub user_id: String,
    pub role: Role,
    pub attributes: Vec<(String, AttributeValue)>,
}

/// A resource. `properties` maps names to values; the first entry with a
/// name is the one that counts.
#[derive(Debug, Clone)]
pub struct Resource {
    pub resource_id: String,
    pub resource_type: ResourceType,
    pub properties: Vec<(String, PropertyValue)>,
}

#[derive(Debug, Clone, Copy, PartialEq, Eq, Structural)]
pub enum Action {
    Read,
    Write,
    ExecuteControlProposal,
    Export,
}

/// Request context: time (milliseconds since the Unix epoch), peer address,
/// and whether the channel is encrypted.
#[derive(Debug, Clone)]
pub struct EnvironmentCtx {
    pub time_utc: i64,
    pub ip_address: String,
    pub is_encrypted_channel: bool,
}

/// `i` is the first position of `entries` whose name is `key`.
pub open spec fn is_first_key<V>(entries: Seq<(String, V)>, key: Seq<char>, i: int) -> bool {
    &&& 0 <= i < entries.len()
    &&& entries[i].0@ == key
    &&& forall|j: int| 0 <= j < i ==> #[trigger] entries[j].0@ != key
}

/// The value of the first entry named `key`, if any.
pub open spec fn lookup<V>(entries: Seq<(String, V)>, key: Seq<char>) -> Option<V> {
    if exists|i: int| is_first_key(entries, key, i) {
        Some(entries[choose|i: int| is_first_key(entries, key, i)].1)
    } else {
        None
    }
}

/// Position of the first entry named `key`.
pub fn find_key<V>(entries: &Vec<(String, V)>, key: &String) -> (r: Option<usize>)
    ensures
        match r {
            Some(i) => is_first_key(entries@, key@, i as int),
            None => forall|j: int| 0 <= j < entries@.len() ==> #[trigger] entries@[j].0@ != key@,
        },
{
    let mut i: usize = 0;
    while i < entries.len()
        invariant
            0 <= i <= entries@.len(),
            forall|j: int| 0 <= j < i ==> #[trigger] entries@[j].0@ != key@,
        decreases entries@.len() - i,
    {
        if entries[i].0 == *key {
            return Some(i);
        }
        i = i + 1;
    }
    None
}

/// The first position named `key` is unique, so `lookup` returns its value.
pub proof fn lemma_lookup_at<V>(entries: Seq<(String, V)>, key: Seq<char>, i: int)
    requires
        is_first_key(entries, key, i),
    ensures
        lookup(entries, key) == Some(entries[i].1),
{
    let k = choose|k: int| is_first_key(entries, key, k);
    assert(is_first_key(entries, key, k));
    if k < i {
        assert(entries[k].0@ != key);
    } else if i < k {
        assert(entries[i].0@ != key);
    }
}

} // verus!
