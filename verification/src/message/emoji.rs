//! Custom emoji of the server.
use vstd::prelude::*;
use crate::text::concat;

verus! {

pub const CURVED: &'static str = "1034653422416302151";
pub const STRAIGHT: &'static str = "1034653871613681714";
pub const PIN_EMOJI: &'static str = "\u{1F4CC}";

/// How Discord writes a custom emoji: `<:name:id>`.
pub open spec fn spec_create(id: Seq<char>, name: Seq<char>) -> Seq<char> {
    "<:"@ + name + ":"@ + id + ">"@
}

pub fn create(id: &str, name: &str) -> (res: String)
    ensures
        res@ == spec_create(id@, name@),
{
    let mut s = concat("<:", name);
    s.append(":");
    s.append(id);
    s.append(">");
    s
}

} // verus!
