//! Fixed identifiers of the NCI server and the rules built on them.
pub mod channels;
pub mod roles;
pub mod smarty;

use vstd::prelude::*;

verus! {

/// The NCI guild itself.
pub const ID: u64 = 803315311663251537;

} // verus!
