//! Roles of the NCI server.
use vstd::prelude::*;
use crate::ids::RoleId;

verus! {

pub const OVERRIDES: u64 = 878033546848108606;
pub const MEMBERS: u64 = 1016810972415008850;
pub const BOTS: u64 = 813138438013452348;
pub const BOOSTER: u64 = 1022189509363904716;
pub const EVERYONE: u64 = 803315311663251537;
pub const SECRET: u64 = 1153141223398330398;

/// A role is a personal color role unless it is one of the server's fixed roles.
pub open spec fn spec_is_color_role(role: RoleId) -> bool {
    &&& role.0 != OVERRIDES
    &&& role.0 != MEMBERS
    &&& role.0 != BOTS
    &&& role.0 != BOOSTER
    &&& role.0 != EVERYONE
    &&& role.0 != SECRET
}

/// Every role but `@everyone` and the booster role may be logged.
pub open spec fn spec_can_log(role: RoleId) -> bool {
    role.0 != EVERYONE && role.0 != BOOSTER
}

pub fn is_color_role(role: RoleId) -> (res: bool)
    ensures
        res == spec_is_color_role(role),
{
    role.0 != OVERRIDES && role.0 != MEMBERS && role.0 != BOTS && role.0 != BOOSTER
        && role.0 != EVERYONE && role.0 != SECRET
}

pub fn can_log(role: RoleId) -> (res: bool)
    ensures
        res == spec_can_log(role),
{
    role.0 != EVERYONE && role.0 != BOOSTER
}

/// Every personal color role is a role that may be logged.
pub proof fn color_roles_can_be_logged(role: RoleId)
    requires
        spec_is_color_role(role),
    ensures
        spec_can_log(role),
{
}

} // verus!

verus! {

/// The first of a member's roles that is a personal color role.
pub fn first_color_role(roles: &Vec<RoleId>) -> (res: Option<RoleId>)
    ensures
        match res {
            Some(r) => exists|i: int|
                0 <= i < roles@.len() && roles@[i] == r && spec_is_color_role(r) && forall|j: int|
                    0 <= j < i ==> !spec_is_color_role(#[trigger] roles@[j]),
            None => forall|j: int| 0 <= j < roles@.len() ==> !spec_is_color_role(#[trigger] roles@[j]),
        },
{
    let mut i: usize = 0;
    while i < roles.len()
        invariant
            i <= roles@.len(),
            forall|j: int| 0 <= j < i ==> !spec_is_color_role(#[trigger] roles@[j]),
        decreases roles@.len() - i,
    {
        if is_color_role(roles[i]) {
            return Some(roles[i]);
        }
        i = i + 1;
    }
    None
}

} // verus!
