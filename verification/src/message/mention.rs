//! Mentions of users, roles and channels.
use vstd::prelude::*;
use crate::text::concat;

verus! {

#[derive(Debug, Clone, Copy, PartialEq, Eq, Structural)]
pub enum MentionType {
    User,
    Role,
    Channel,
}

/// How Discord writes a mention: `<@id>`, `<@&id>` or `<#id>`.
pub open spec fn spec_create(id: Seq<char>, kind: MentionType) -> Seq<char> {
    match kind {
        MentionType::Role => "<@&"@ + id + ">"@,
        MentionType::User => "<@"@ + id + ">"@,
        MentionType::Channel => "<#"@ + id + ">"@,
    }
}

pub fn create(id: &str, kind: MentionType) -> (res: String)
    ensures
        res@ == spec_create(id@, kind),
{
    let mut s = match kind {
        MentionType::Role => concat("<@&", id),
        MentionType::User => concat("<@", id),
        MentionType::Channel => concat("<#", id),
    };
    s.append(">");
    s
}

} // verus!
