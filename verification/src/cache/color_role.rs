//! The color and the name of each member's personal color role.
use vstd::prelude::*;
use std::collections::HashMap;
use crate::cache::CacheItem;
use crate::color::{Color, from_hex_defined, spec_from_hex};
use crate::dec::{parse_u64, u64_from_dec_str};
use crate::ids::UserId;

verus! {

broadcast use vstd::std_specs::hash::group_hash_axioms;

/// The color of each member's color role, by member.
#[derive(Clone, Copy, Debug, PartialEq, Eq, Structural)]
pub struct RoleColor;

impl CacheItem for RoleColor {
    open spec fn spec_key() -> u64 {
        1
    }

    fn key() -> (k: u64) {
        1
    }
}

impl RoleColor {
    /// The cached color of a member's role; `None` sends the caller to the database.
    pub fn get(value: &HashMap<u64, Color>, key: UserId) -> (res: Option<Color>)
        ensures
            res == (if value@.contains_key(key.0) {
                Some(value@[key.0])
            } else {
                None::<Color>
            }),
    {
        match value.get(&key.0) {
            Some(c) => Some(*c),
            None => None,
        }
    }

    /// Records the new color of a member's role, once Discord has it.
    pub fn update(current_value: &mut HashMap<u64, Color>, key: UserId, value: Color)
        ensures
            final(current_value)@ == old(current_value)@.insert(key.0, value),
    {
        current_value.insert(key.0, value);
    }
}

/// The name of each member's color role, by member.
#[derive(Clone, Copy, Debug, PartialEq, Eq, Structural)]
pub struct RoleName;

impl CacheItem for RoleName {
    open spec fn spec_key() -> u64 {
        2
    }

    fn key() -> (k: u64) {
        2
    }
}

impl RoleName {
    /// The cached name of a member's role; `None` sends the caller to the database.
    pub fn get(value: &HashMap<u64, String>, key: UserId) -> (res: Option<String>)
        ensures
            res == (if value@.contains_key(key.0) {
                Some(value@[key.0])
            } else {
                None::<String>
            }),
    {
        match value.get(&key.0) {
            Some(n) => Some(n.clone()),
            None => None,
        }
    }

    /// Records the new name of a member's role, once Discord has it.
    pub fn update(current_value: &mut HashMap<u64, String>, key: UserId, value: String)
        ensures
            final(current_value)@ == old(current_value)@.insert(key.0, value),
    {
        current_value.insert(key.0, value);
    }
}

/// The colors that the database's color roles give, by their first user;
/// a later row wins over an earlier one of the same user.
pub open spec fn colors_of_rows(rows: Seq<(String, String)>) -> Map<u64, Color>
    decreases rows.len(),
{
    if rows.len() == 0 {
        Map::empty()
    } else {
        colors_of_rows(rows.drop_last()).insert(
            u64_from_dec_str(rows.last().0@)->0,
            spec_from_hex(rows.last().1@)->0,
        )
    }
}

/// Every row holds a user number and a color that the loader can read
/// (it stops the program otherwise).
pub open spec fn color_rows_readable(rows: Seq<(String, String)>) -> bool {
    forall|i: int|
        0 <= i < rows.len() ==> u64_from_dec_str(#[trigger] rows[i].0@) is Some && from_hex_defined(rows[i].1@)
            && spec_from_hex(rows[i].1@) is Some
}

impl RoleColor {
    /// The cache's first value, from the database's color roles: for each,
    /// the number of its first user and its stored color.
    pub fn default_from_rows(rows: &Vec<(String, String)>) -> (res: HashMap<u64, Color>)
        requires
            color_rows_readable(rows@),
        ensures
            res@ == colors_of_rows(rows@),
    {
        let mut m: HashMap<u64, Color> = HashMap::new();
        let mut i: usize = 0;
        assert(colors_of_rows(rows@.subrange(0, 0)) =~= Map::<u64, Color>::empty());
        while i < rows.len()
            invariant
                i <= rows@.len(),
                color_rows_readable(rows@),
                m@ == colors_of_rows(rows@.subrange(0, i as int)),
            decreases rows@.len() - i,
        {
            assert(rows@.subrange(0, i + 1).drop_last() =~= rows@.subrange(0, i as int));
            let (uid, hex) = &rows[i];
            assert(u64_from_dec_str(rows@[i as int].0@) is Some);
            let id = match parse_u64(uid.as_str()) {
                Some(v) => v,
                None => 0,
            };
            let c = match Color::from_hex(hex.as_str()) {
                Ok(c) => c,
                Err(_) => Color { r: 0, g: 0, b: 0 },
            };
            m.insert(id, c);
            i = i + 1;
        }
        assert(rows@.subrange(0, rows@.len() as int) =~= rows@);
        m
    }
}

/// The names of the database's color roles that are not deleted, by their
/// first user; a later row wins.
pub open spec fn names_of_rows(rows: Seq<(bool, String, String)>) -> Map<u64, String>
    decreases rows.len(),
{
    if rows.len() == 0 {
        Map::empty()
    } else if rows.last().0 {
        names_of_rows(rows.drop_last())
    } else {
        names_of_rows(rows.drop_last()).insert(u64_from_dec_str(rows.last().1@)->0, rows.last().2)
    }
}

/// Every live row holds a user number (the loader stops the program otherwise).
pub open spec fn name_rows_readable(rows: Seq<(bool, String, String)>) -> bool {
    forall|i: int| 0 <= i < rows.len() && !rows[i].0 ==> u64_from_dec_str(#[trigger] rows[i].1@) is Some
}

impl RoleName {
    /// The cache's first value, from the database's color roles: for each,
    /// whether it is deleted, the number of its first user and its name.
    pub fn default_from_rows(rows: &Vec<(bool, String, String)>) -> (res: HashMap<u64, String>)
        requires
            name_rows_readable(rows@),
        ensures
            res@ == names_of_rows(rows@),
    {
        let mut m: HashMap<u64, String> = HashMap::new();
        let mut i: usize = 0;
        assert(names_of_rows(rows@.subrange(0, 0)) =~= Map::<u64, String>::empty());
        while i < rows.len()
            invariant
                i <= rows@.len(),
                name_rows_readable(rows@),
                m@ == names_of_rows(rows@.subrange(0, i as int)),
            decreases rows@.len() - i,
        {
            assert(rows@.subrange(0, i + 1).drop_last() =~= rows@.subrange(0, i as int));
            let (deleted, uid, name) = &rows[i];
            if !*deleted {
                assert(u64_from_dec_str(rows@[i as int].1@) is Some);
                let id = match parse_u64(uid.as_str()) {
                    Some(v) => v,
                    None => 0,
                };
                m.insert(id, name.clone());
            }
            i = i + 1;
        }
        assert(rows@.subrange(0, rows@.len() as int) =~= rows@);
        m
    }
}

/// A name or color recorded for a member is what the cache then gives for
/// that member.
pub proof fn role_update_then_get(colors: Map<u64, Color>, names: Map<u64, String>, key: UserId, c: Color, n: String)
    ensures
        colors.insert(key.0, c).contains_key(key.0) && colors.insert(key.0, c)[key.0] == c,
        names.insert(key.0, n).contains_key(key.0) && names.insert(key.0, n)[key.0] == n,
{
}

} // verus!
