//! Stored settings: server-wide ones by kind, personal ones by kind and
//! member, each kept as the text of its serialised value; and the two
//! personal settings of a member's color role.
use vstd::prelude::*;
use std::collections::HashMap;
use crate::color::{Color, from_hex_defined, spec_from_hex, HEX_PARSE_PROBLEM};
use crate::error::AnyError;
use crate::ids::{RoleId, UserId};
use crate::nci::roles::{OVERRIDES, MEMBERS, BOTS};
use crate::text::{concat, dec_digits, string_of, u64_to_string};

verus! {

broadcast use vstd::std_specs::hash::group_hash_axioms;

/// The stored settings. Server-wide settings are keyed by the number of
/// their kind; personal ones by member, then by kind.
pub struct Settings {
    guild: HashMap<u64, String>,
    user: HashMap<u64, HashMap<u64, String>>,
}

/// The personal settings of a member in a store.
pub open spec fn user_map(m: Map<u64, Map<u64, Seq<char>>>, user: UserId) -> Map<u64, Seq<char>> {
    if m.contains_key(user.0) {
        m[user.0]
    } else {
        Map::empty()
    }
}

impl View for Settings {
    type V = (Map<u64, Seq<char>>, Map<u64, Map<u64, Seq<char>>>);

    closed spec fn view(&self) -> Self::V {
        (
            self.guild@.map_values(|s: String| s@),
            self.user@.map_values(|m: HashMap<u64, String>| m@.map_values(|s: String| s@)),
        )
    }
}

pub open spec fn text_of(o: Option<String>) -> Option<Seq<char>> {
    match o {
        Some(s) => Some(s@),
        None => None,
    }
}

impl Settings {
    pub fn new() -> (res: Settings)
        ensures
            res@.0 == Map::<u64, Seq<char>>::empty(),
            res@.1 == Map::<u64, Map<u64, Seq<char>>>::empty(),
    {
        let res = Settings { guild: HashMap::new(), user: HashMap::new() };
        assert(res@.0 =~= Map::<u64, Seq<char>>::empty());
        assert(res@.1 =~= Map::<u64, Map<u64, Seq<char>>>::empty());
        res
    }

    /// The stored value of a server-wide setting (its default is computed
    /// and stored by the caller when there is none).
    pub fn get_guild(&self, kind: u64) -> (res: Option<String>)
        ensures
            text_of(res) == (if self@.0.contains_key(kind) {
                Some(self@.0[kind])
            } else {
                None
            }),
    {
        match self.guild.get(&kind) {
            Some(s) => Some(s.clone()),
            None => None,
        }
    }

    /// Stores the value of a server-wide setting.
    pub fn set_guild(&mut self, kind: u64, value: String)
        ensures
            final(self)@.0 == old(self)@.0.insert(kind, value@),
            final(self)@.1 == old(self)@.1,
    {
        let ghost v = value@;
        self.guild.insert(kind, value);
        assert(self@.0 =~= old(self)@.0.insert(kind, v));
        assert(self@.1 =~= old(self)@.1);
    }

    /// The stored value of a member's setting.
    pub fn get_user(&self, kind: u64, user: UserId) -> (res: Option<String>)
        ensures
            text_of(res) == (if user_map(self@.1, user).contains_key(kind) {
                Some(user_map(self@.1, user)[kind])
            } else {
                None
            }),
    {
        match self.user.get(&user.0) {
            Some(m) => {
                assert(user_map(self@.1, user) == m@.map_values(|s: String| s@));
                match m.get(&kind) {
                    Some(s) => Some(s.clone()),
                    None => None,
                }
            },
            None => None,
        }
    }

    /// Stores the value of a member's setting.
    pub fn set_user(&mut self, kind: u64, user: UserId, value: String)
        ensures
            final(self)@.0 == old(self)@.0,
            final(self)@.1 == old(self)@.1.insert(user.0, user_map(old(self)@.1, user).insert(kind, value@)),
    {
        let ghost v = value@;
        let mut inner = match self.user.remove(&user.0) {
            Some(m) => m,
            None => HashMap::new(),
        };
        assert(inner@.map_values(|s: String| s@) =~= user_map(old(self)@.1, user));
        inner.insert(kind, value);
        assert(inner@.map_values(|s: String| s@) =~= user_map(old(self)@.1, user).insert(kind, v));
        self.user.insert(user.0, inner);
        assert(self@.1 =~= old(self)@.1.insert(user.0, user_map(old(self)@.1, user).insert(kind, v)));
        assert(self@.0 =~= old(self)@.0);
    }
}

/// A member's setting reads back what was stored last, and storing it
/// leaves every other setting as it was.
pub proof fn user_setting_read_back(
    m: Map<u64, Map<u64, Seq<char>>>,
    kind: u64,
    user: UserId,
    value: Seq<char>,
    other_kind: u64,
    other_user: UserId,
)
    requires
        other_kind != kind || other_user != user,
    ensures
        ({
            let after = m.insert(user.0, user_map(m, user).insert(kind, value));
            &&& user_map(after, user).contains_key(kind)
            &&& user_map(after, user)[kind] == value
            &&& user_map(after, other_user).contains_key(other_kind) == user_map(m, other_user).contains_key(other_kind)
            &&& user_map(after, other_user).contains_key(other_kind) ==> user_map(after, other_user)[other_kind] == user_map(m, other_user)[other_kind]
        }),
{
}

/// The number of the personal setting of a color role's color.
pub const ROLE_COLOR: u64 = 1;

/// The number of the personal setting of a color role's name.
pub const ROLE_NAME: u64 = 2;

/// The role whose color or name a changed setting is written to: the first
/// of the member's roles that is one of the server's admin, member or bot
/// roles.
pub open spec fn first_base_index(roles: Seq<RoleId>) -> Option<int>
    decreases roles.len(),
{
    if roles.len() == 0 {
        None
    } else {
        match first_base_index(roles.drop_last()) {
            Some(i) => Some(i),
            None => if roles.last().0 == OVERRIDES || roles.last().0 == MEMBERS || roles.last().0 == BOTS {
                Some(roles.len() - 1)
            } else {
                None
            },
        }
    }
}

/// The role that a changed color-role setting edits, or the failure
/// "User has no color role".
pub fn role_to_edit(roles: &Vec<RoleId>) -> (res: Result<RoleId, AnyError>)
    ensures
        match first_base_index(roles@) {
            Some(i) => res == Ok::<RoleId, AnyError>(roles@[i]),
            None => (res matches Err(AnyError::Anyhow(m)) && m@ == "User has no color role"@),
        },
{
    let mut i: usize = 0;
    while i < roles.len()
        invariant
            i <= roles@.len(),
            first_base_index(roles@.subrange(0, i as int)) is None,
        decreases roles@.len() - i,
    {
        assert(roles@.subrange(0, i + 1).drop_last() =~= roles@.subrange(0, i as int));
        let r = roles[i];
        if r.0 == OVERRIDES || r.0 == MEMBERS || r.0 == BOTS {
            proof {
                lemma_first_base_prefix(roles@, i as int);
            }
            return Ok(r);
        }
        i = i + 1;
    }
    assert(roles@.subrange(0, roles@.len() as int) =~= roles@);
    Err(AnyError::Anyhow(string_of("User has no color role")))
}

/// Where a prefix has no base role and the next role is one, that role is
/// the first.
proof fn lemma_first_base_prefix(roles: Seq<RoleId>, i: int)
    requires
        0 <= i < roles.len(),
        first_base_index(roles.subrange(0, i)) is None,
        roles[i].0 == OVERRIDES || roles[i].0 == MEMBERS || roles[i].0 == BOTS,
    ensures
        first_base_index(roles) == Some(i),
    decreases roles.len(),
{
    assert(roles.subrange(0, i + 1).drop_last() =~= roles.subrange(0, i));
    if i + 1 < roles.len() {
        assert(roles.drop_last().subrange(0, i) =~= roles.subrange(0, i));
        lemma_first_base_prefix(roles.drop_last(), i);
    } else {
        assert(roles.subrange(0, i + 1) =~= roles);
    }
}

/// A member's color-role color, from the stored color of their color role
/// (a text that reading as hexadecimal must not stop the program).
pub fn role_color_default(user: UserId, stored: &Option<String>) -> (res: Result<Color, AnyError>)
    requires
        stored matches Some(s) ==> from_hex_defined(s@),
    ensures
        stored is None ==> (res matches Err(AnyError::Anyhow(m)) && m@ == "no color role found for user "@
            + dec_digits(user.0 as nat)),
        stored matches Some(s) ==> match spec_from_hex(s@) {
            Some(c) => res == Ok::<Color, AnyError>(c),
            None => res matches Err(AnyError::Anyhow(t)) && t@ == HEX_PARSE_PROBLEM@,
        },
{
    match stored {
        None => {
            let n = u64_to_string(user.0);
            Err(AnyError::Anyhow(concat("no color role found for user ", n.as_str())))
        },
        Some(s) => match Color::from_hex(s.as_str()) {
            Ok(c) => Ok(c),
            Err(e) => Err(AnyError::Anyhow(e.0)),
        },
    }
}

/// A member's color-role name, from the stored name of their color role.
pub fn role_name_default(stored: &Option<String>) -> (res: Result<String, AnyError>)
    ensures
        stored is None ==> (res matches Err(AnyError::Anyhow(m)) && m@ == "No color role found"@),
        stored matches Some(s) ==> (res matches Ok(t) && t@ == s@),
{
    match stored {
        None => Err(AnyError::Anyhow(string_of("No color role found"))),
        Some(s) => Ok(s.clone()),
    }
}

} // verus!
