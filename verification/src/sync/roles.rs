//! Which role records to update, create or mark deleted.
use vstd::prelude::*;
use crate::hex::{format_hex6, hex6};
use crate::ids::RoleId;
use crate::nci::roles::{can_log, is_color_role, spec_can_log, spec_is_color_role};
use crate::text::{dec_digits, string_of, u64_to_string};

verus! {

/// A role as the server has it.
pub struct DiscordRole {
    pub id: RoleId,
    pub name: String,
    pub colour: u32,
}

/// A role as the database has it.
pub struct DbRole {
    pub id: String,
    pub name: String,
    pub color: String,
    pub color_role: bool,
    pub deleted: bool,
}

/// A database write about roles.
#[allow(inconsistent_fields)]
pub enum RoleOp {
    /// Set the fields that are `Some`.
    Update { id: RoleId, name: Option<String>, color: Option<String>, color_role: Option<bool> },
    /// Delete the record.
    Delete { id: RoleId },
    /// Create a record.
    Create { id: RoleId, name: String, color: String, color_role: bool },
    /// Mark these records deleted.
    /// The ids are handed to the database client as one list of
    /// conditions `id == x`, which it joins with AND:
    /// with two or more ids no record matches, and none is marked.
    MarkDeleted { ids: Vec<String> },
}

/// A role write, with texts as character sequences.
#[allow(inconsistent_fields)]
pub enum RoleOpSpec {
    Update { id: RoleId, name: Option<Seq<char>>, color: Option<Seq<char>>, color_role: Option<bool> },
    Delete { id: RoleId },
    Create { id: RoleId, name: Seq<char>, color: Seq<char>, color_role: bool },
    MarkDeleted { ids: Seq<Seq<char>> },
}

pub open spec fn opt_view(o: Option<String>) -> Option<Seq<char>> {
    match o {
        Some(s) => Some(s@),
        None => None,
    }
}

impl View for RoleOp {
    type V = RoleOpSpec;

    open spec fn view(&self) -> RoleOpSpec {
        match self {
            RoleOp::Update { id, name, color, color_role } => RoleOpSpec::Update {
                id: *id,
                name: opt_view(*name),
                color: opt_view(*color),
                color_role: *color_role,
            },
            RoleOp::Delete { id } => RoleOpSpec::Delete { id: *id },
            RoleOp::Create { id, name, color, color_role } => RoleOpSpec::Create {
                id: *id,
                name: name@,
                color: color@,
                color_role: *color_role,
            },
            RoleOp::MarkDeleted { ids } => RoleOpSpec::MarkDeleted {
                ids: ids@.map_values(|s: String| s@),
            },
        }
    }
}

/// The index of the first database record of the role with this id.
pub open spec fn db_role_index(db: Seq<DbRole>, id: u64) -> Option<int>
    decreases db.len(),
{
    if db.len() == 0 {
        None
    } else {
        match db_role_index(db.drop_last(), id) {
            Some(i) => Some(i),
            None => if db.last().id@ == dec_digits(id as nat) {
                Some(db.len() - 1)
            } else {
                None
            },
        }
    }
}

/// The writes for one role of the server: create it when the database does
/// not know it; otherwise update what differs, and then, if the role may be
/// logged, delete the record.
pub open spec fn role_ops_one(r: DiscordRole, db: Seq<DbRole>) -> Seq<RoleOpSpec> {
    match db_role_index(db, r.id.0) {
        Some(i) => {
            let p = db[i];
            let name = if r.name@ != p.name@ {
                Some(r.name@)
            } else {
                None
            };
            let color = if hex6(r.colour) != p.color@ {
                Some(hex6(r.colour))
            } else {
                None
            };
            let color_role = if spec_is_color_role(r.id) != p.color_role {
                Some(spec_is_color_role(r.id))
            } else {
                None
            };
            if name is None && color is None && color_role is None {
                Seq::empty()
            } else {
                seq![RoleOpSpec::Update { id: r.id, name, color, color_role }] + if spec_can_log(r.id) {
                    seq![RoleOpSpec::Delete { id: r.id }]
                } else {
                    Seq::empty()
                }
            }
        },
        None => seq![RoleOpSpec::Create {
            id: r.id,
            name: r.name@,
            color: hex6(r.colour),
            color_role: spec_is_color_role(r.id),
        }],
    }
}

pub open spec fn role_ops(roles: Seq<DiscordRole>, db: Seq<DbRole>) -> Seq<RoleOpSpec>
    decreases roles.len(),
{
    if roles.len() == 0 {
        Seq::empty()
    } else {
        role_ops(roles.drop_last(), db) + role_ops_one(roles.last(), db)
    }
}

/// Whether the server has a role with this id text.
pub open spec fn server_has_role(roles: Seq<DiscordRole>, id: Seq<char>) -> bool {
    exists|i: int| 0 <= i < roles.len() && dec_digits(#[trigger] roles[i].id.0 as nat) == id
}

/// The ids of the records, not yet marked deleted, of roles that the server
/// no longer has, in database order.
pub open spec fn stale_roles(roles: Seq<DiscordRole>, db: Seq<DbRole>) -> Seq<Seq<char>>
    decreases db.len(),
{
    if db.len() == 0 {
        Seq::empty()
    } else {
        let rest = stale_roles(roles, db.drop_last());
        let p = db.last();
        if !server_has_role(roles, p.id@) && !p.deleted {
            rest.push(p.id@)
        } else {
            rest
        }
    }
}

/// All the writes, in order: those for each role of the server, then one
/// marking the stale records deleted, if there are any.
pub open spec fn spec_role_plan(roles: Seq<DiscordRole>, db: Seq<DbRole>) -> Seq<RoleOpSpec> {
    let stale = stale_roles(roles, db);
    role_ops(roles, db) + if stale.len() > 0 {
        seq![RoleOpSpec::MarkDeleted { ids: stale }]
    } else {
        Seq::empty()
    }
}

fn find_db_role(db: &Vec<DbRole>, id: u64) -> (res: Option<usize>)
    ensures
        match db_role_index(db@, id) {
            Some(i) => res matches Some(k) && k as int == i,
            None => res is None,
        },
{
    let key = u64_to_string(id);
    let mut i: usize = 0;
    while i < db.len()
        invariant
            i <= db@.len(),
            key@ == dec_digits(id as nat),
            db_role_index(db@.subrange(0, i as int), id) is None,
        decreases db@.len() - i,
    {
        assert(db@.subrange(0, i + 1).drop_last() =~= db@.subrange(0, i as int));
        if db[i].id == key {
            proof {
                lemma_db_role_index_prefix(db@, id, (i + 1) as int);
            }
            return Some(i);
        }
        i = i + 1;
    }
    assert(db@.subrange(0, db@.len() as int) =~= db@);
    None
}

/// The first record with the id is found, if there is one.
pub proof fn lemma_db_role_index(db: Seq<DbRole>, id: u64)
    ensures
        match db_role_index(db, id) {
            Some(i) => 0 <= i < db.len() && db[i].id@ == dec_digits(id as nat) && forall|j: int|
                0 <= j < i ==> (#[trigger] db[j]).id@ != dec_digits(id as nat),
            None => forall|j: int| 0 <= j < db.len() ==> (#[trigger] db[j]).id@ != dec_digits(id as nat),
        },
    decreases db.len(),
{
    if db.len() > 0 {
        lemma_db_role_index(db.drop_last(), id);
        assert forall|j: int| 0 <= j < db.len() - 1 implies db[j] == db.drop_last()[j] by {}
    }
}

/// A match found in a prefix is the match in the whole.
proof fn lemma_db_role_index_prefix(db: Seq<DbRole>, id: u64, n: int)
    requires
        0 <= n <= db.len(),
        db_role_index(db.subrange(0, n), id) is Some,
    ensures
        db_role_index(db, id) == db_role_index(db.subrange(0, n), id),
    decreases db.len() - n,
{
    if n < db.len() {
        assert(db.subrange(0, n + 1).drop_last() =~= db.subrange(0, n));
        lemma_db_role_index_prefix(db, id, n + 1);
    } else {
        assert(db.subrange(0, n) =~= db);
    }
}

fn copy_string(s: &String) -> (res: String)
    ensures
        res@ == s@,
{
    string_of(s.as_str())
}

fn ops_for_role(r: &DiscordRole, db: &Vec<DbRole>, out: &mut Vec<RoleOp>)
    ensures
        final(out)@.map_values(|o: RoleOp| o@) == old(out)@.map_values(|o: RoleOp| o@) + role_ops_one(*r, db@),
{
    let ghost before = out@;
    let hex = format_hex6(r.colour);
    let color_role = is_color_role(r.id);
    proof {
        lemma_db_role_index(db@, r.id.0);
    }
    match find_db_role(db, r.id.0) {
        Some(i) => {
            let p = &db[i];
            let name = if r.name != p.name {
                Some(copy_string(&r.name))
            } else {
                None
            };
            let color = if hex != p.color {
                Some(copy_string(&hex))
            } else {
                None
            };
            let cr = if color_role != p.color_role {
                Some(color_role)
            } else {
                None
            };
            if name.is_none() && color.is_none() && cr.is_none() {
                assert(out@.map_values(|o: RoleOp| o@) =~= before.map_values(|o: RoleOp| o@) + role_ops_one(*r, db@));
                return ;
            }
            out.push(RoleOp::Update { id: r.id, name, color, color_role: cr });
            if can_log(r.id) {
                out.push(RoleOp::Delete { id: r.id });
            }
            assert(out@.map_values(|o: RoleOp| o@) =~= before.map_values(|o: RoleOp| o@) + role_ops_one(*r, db@));
        },
        None => {
            out.push(RoleOp::Create { id: r.id, name: copy_string(&r.name), color: hex, color_role });
            assert(out@.map_values(|o: RoleOp| o@) =~= before.map_values(|o: RoleOp| o@) + role_ops_one(*r, db@));
        },
    }
}

fn server_has_role_exec(roles: &Vec<DiscordRole>, id: &String) -> (res: bool)
    ensures
        res == server_has_role(roles@, id@),
{
    let mut i: usize = 0;
    while i < roles.len()
        invariant
            i <= roles@.len(),
            forall|j: int| 0 <= j < i ==> dec_digits(#[trigger] roles@[j].id.0 as nat) != id@,
        decreases roles@.len() - i,
    {
        let text = u64_to_string(roles[i].id.0);
        if text == *id {
            return true;
        }
        i = i + 1;
    }
    false
}

/// The database writes that bring the role records in line with the server.
pub fn plan_role_sync(roles: &Vec<DiscordRole>, db: &Vec<DbRole>) -> (res: Vec<RoleOp>)
    ensures
        res@.map_values(|o: RoleOp| o@) == spec_role_plan(roles@, db@),
{
    let mut out: Vec<RoleOp> = Vec::new();
    let mut i: usize = 0;
    while i < roles.len()
        invariant
            i <= roles@.len(),
            out@.map_values(|o: RoleOp| o@) == role_ops(roles@.subrange(0, i as int), db@),
        decreases roles@.len() - i,
    {
        assert(roles@.subrange(0, i + 1).drop_last() =~= roles@.subrange(0, i as int));
        ops_for_role(&roles[i], db, &mut out);
        i = i + 1;
    }
    assert(roles@.subrange(0, roles@.len() as int) =~= roles@);
    let mut stale: Vec<String> = Vec::new();
    let mut j: usize = 0;
    while j < db.len()
        invariant
            j <= db@.len(),
            stale@.map_values(|s: String| s@) == stale_roles(roles@, db@.subrange(0, j as int)),
        decreases db@.len() - j,
    {
        assert(db@.subrange(0, j + 1).drop_last() =~= db@.subrange(0, j as int));
        let p = &db[j];
        let ghost before = stale@;
        if !server_has_role_exec(roles, &p.id) && !p.deleted {
            stale.push(copy_string(&p.id));
            assert(stale@.map_values(|s: String| s@) =~= before.map_values(|s: String| s@).push(p.id@));
        }
        j = j + 1;
    }
    assert(db@.subrange(0, db@.len() as int) =~= db@);
    let ghost ops = out@.map_values(|o: RoleOp| o@);
    if stale.len() > 0 {
        out.push(RoleOp::MarkDeleted { ids: stale });
        assert(out@.map_values(|o: RoleOp| o@) =~= ops + seq![RoleOpSpec::MarkDeleted { ids: stale_roles(roles@, db@) }]);
    } else {
        assert(out@.map_values(|o: RoleOp| o@) =~= ops + Seq::<RoleOpSpec>::empty());
    }
    out
}


/// For a role that the database knows, the synchronization writes the
/// server's values over the record: the name, the color (as six hexadecimal
/// digits of the server's colour) and the color-role flag are set exactly
/// when they differ from the record, and then to the server's values; a
/// deletion of the record follows the update only for a role that may be
/// logged.
pub proof fn role_update_writes_server_values(r: DiscordRole, db: Seq<DbRole>, i: int)
    requires
        db_role_index(db, r.id.0) == Some(i),
    ensures
        ({
            let ops = role_ops_one(r, db);
            let p = db[i];
            &&& ops.len() <= 2
            &&& ops.len() >= 1 ==> ops[0] is Update && ops[0]->Update_id == r.id
            &&& ops.len() == 2 ==> ops[1] == RoleOpSpec::Delete { id: r.id } && spec_can_log(r.id)
            &&& hex6(r.colour) != p.color@ ==> ops.len() >= 1 && ops[0]->Update_color == Some(hex6(r.colour))
            &&& hex6(r.colour) == p.color@ && ops.len() >= 1 ==> ops[0]->Update_color is None
            &&& r.name@ != p.name@ ==> ops.len() >= 1 && ops[0]->Update_name == Some(r.name@)
            &&& r.name@ == p.name@ && ops.len() >= 1 ==> ops[0]->Update_name is None
            &&& spec_is_color_role(r.id) != p.color_role ==> ops.len() >= 1 && ops[0]->Update_color_role
                == Some(spec_is_color_role(r.id))
            &&& spec_is_color_role(r.id) == p.color_role && ops.len() >= 1 ==> ops[0]->Update_color_role is None
        }),
{
}

} // verus!
