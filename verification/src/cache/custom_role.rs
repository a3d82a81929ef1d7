//! Roles created by hand, which are kept out of the logs.
use vstd::prelude::*;
use crate::cache::CacheItem;
use crate::ids::RoleId;
use crate::dec::{parse_u64, u64_from_dec_str};

verus! {

pub struct CustomRole;

impl CacheItem for CustomRole {
    open spec fn spec_key() -> u64 {
        3
    }

    fn key() -> (k: u64) {
        3
    }
}

impl CustomRole {
    /// All the custom roles.
    pub fn get(value: &Vec<RoleId>) -> (res: Vec<RoleId>)
        ensures
            res@ == value@,
    {
        let mut out: Vec<RoleId> = Vec::new();
        let mut i: usize = 0;
        while i < value.len()
            invariant
                i <= value@.len(),
                out@ == value@.subrange(0, i as int),
            decreases value@.len() - i,
        {
            out.push(value[i]);
            i = i + 1;
        }
        out
    }

    /// The cache's first value, from the numbers of the roles that the
    /// database keeps out of the logs (each must be a number: the loader
    /// stops the program otherwise).
    pub fn default_from_rows(ids: &Vec<String>) -> (res: Vec<RoleId>)
        requires
            forall|i: int| 0 <= i < ids@.len() ==> u64_from_dec_str(#[trigger] ids@[i]@) is Some,
        ensures
            res@.len() == ids@.len(),
            forall|i: int| 0 <= i < ids@.len() ==> #[trigger] res@[i] == RoleId(u64_from_dec_str(ids@[i]@)->0),
    {
        let mut out: Vec<RoleId> = Vec::new();
        let mut i: usize = 0;
        while i < ids.len()
            invariant
                i <= ids@.len(),
                out@.len() == i,
                forall|j: int| 0 <= j < ids@.len() ==> u64_from_dec_str(#[trigger] ids@[j]@) is Some,
                forall|j: int| 0 <= j < i ==> #[trigger] out@[j] == RoleId(u64_from_dec_str(ids@[j]@)->0),
            decreases ids@.len() - i,
        {
            assert(u64_from_dec_str(ids@[i as int]@) is Some);
            let id = match parse_u64(ids[i].as_str()) {
                Some(v) => v,
                None => 0,
            };
            out.push(RoleId(id));
            i = i + 1;
        }
        out
    }

    /// Adds a newly created role at the end.
    pub fn update(current_value: &mut Vec<RoleId>, to: RoleId)
        ensures
            final(current_value)@ == old(current_value)@.push(to),
    {
        current_value.push(to);
    }
}

} // verus!
