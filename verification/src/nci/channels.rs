//! Channels of the NCI server.
use vstd::prelude::*;

verus! {

pub const CHAT: u64 = 1014256055330549842;
pub const NEWS: u64 = 997661924546322472;
pub const STARRED: u64 = 1016113247662919760;

} // verus!
