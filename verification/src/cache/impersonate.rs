//! Who each member is currently impersonating.
use vstd::prelude::*;
use std::collections::HashMap;
use crate::cache::CacheItem;
use crate::ids::UserId;

verus! {

broadcast use vstd::std_specs::hash::group_hash_axioms;

#[derive(Clone, Copy, Debug, PartialEq, Eq, Structural)]
pub struct Impersonation;

impl CacheItem for Impersonation {
    open spec fn spec_key() -> u64 {
        4
    }

    fn key() -> (k: u64) {
        4
    }
}

pub open spec fn spec_impersonated(value: Map<u64, Option<u64>>, key: UserId) -> Option<u64> {
    if value.contains_key(key.0) {
        value[key.0]
    } else {
        None
    }
}

impl Impersonation {
    /// The member that `key` impersonates, if any.
    pub fn get(value: &HashMap<u64, Option<u64>>, key: UserId) -> (res: Option<UserId>)
        ensures
            match spec_impersonated(value@, key) {
                Some(u) => res == Some(UserId(u)),
                None => res is None,
            },
    {
        match value.get(&key.0) {
            Some(Some(u)) => Some(UserId(*u)),
            _ => None,
        }
    }

    /// Starts (`Some`) or stops (`None`) an impersonation.
    pub fn update(current_value: &mut HashMap<u64, Option<u64>>, key: UserId, to: Option<UserId>)
        ensures
            final(current_value)@ == old(current_value)@.insert(
                key.0,
                match to {
                    Some(u) => Some(u.0),
                    None => None,
                },
            ),
    {
        let v = match to {
            Some(u) => Some(u.0),
            None => None,
        };
        current_value.insert(key.0, v);
    }
}

/// After a member starts impersonating someone, the cache names that
/// someone; after the member stops, it names nobody.
pub proof fn impersonation_update_then_get(value: Map<u64, Option<u64>>, key: UserId, to: Option<u64>)
    ensures
        spec_impersonated(value.insert(key.0, to), key) == to,
{
}

} // verus!
