//! Identifiers that belong to the Smarty bot.
use vstd::prelude::*;

verus! {

pub const CHAT_WH: u64 = 1013868027500052561;

} // verus!
