//! For each member: where the color role comes from, and which user record
//! to update or create; then which records to mark removed.
use vstd::prelude::*;
use crate::ids::{RoleId, UserId};
use crate::nci::roles::{MEMBERS, OVERRIDES, first_color_role, spec_is_color_role};
use crate::sync::roles::opt_view;
use crate::text::{dec_digits, string_of, u64_to_string};

verus! {

/// A member as the server has it.
pub struct DiscordMember {
    pub id: UserId,
    pub name: String,
    pub nick: Option<String>,
    pub bot: bool,
    pub roles: Vec<RoleId>,
}

/// A user as the database has it; `roles` is `None` when they were not fetched.
pub struct DbUser {
    pub id: String,
    pub username: String,
    pub nickname: Option<String>,
    pub admin: bool,
    pub verified: bool,
    pub removed: bool,
    pub roles: Option<Vec<String>>,
}

/// Where a member's color role comes from.
#[derive(Debug, Clone, Copy, PartialEq, Eq, Structural)]
pub enum ColorRoleSource {
    /// The member already has this color role.
    Existing(RoleId),
    /// A role must be created, named after the member and colored with the
    /// primary color, given to the member and recorded as a color role.
    Create,
}

/// A database write about one user.
#[allow(inconsistent_fields)]
pub enum UserOp {
    /// Set the fields that are `Some`.
    Update {
        id: UserId,
        username: Option<String>,
        nickname: Option<Option<String>>,
        admin: Option<bool>,
        verified: Option<bool>,
        unremove: bool,
        roles: Option<Vec<String>>,
    },
    Create {
        id: UserId,
        username: String,
        nickname: Option<String>,
        admin: bool,
        verified: bool,
        bot: bool,
        roles: Vec<String>,
    },
}

#[allow(inconsistent_fields)]
pub enum UserOpSpec {
    Update {
        id: UserId,
        username: Option<Seq<char>>,
        nickname: Option<Option<Seq<char>>>,
        admin: Option<bool>,
        verified: Option<bool>,
        unremove: bool,
        roles: Option<Seq<Seq<char>>>,
    },
    Create {
        id: UserId,
        username: Seq<char>,
        nickname: Option<Seq<char>>,
        admin: bool,
        verified: bool,
        bot: bool,
        roles: Seq<Seq<char>>,
    },
}

pub open spec fn texts(v: Vec<String>) -> Seq<Seq<char>> {
    v@.map_values(|s: String| s@)
}

impl View for UserOp {
    type V = UserOpSpec;

    open spec fn view(&self) -> UserOpSpec {
        match self {
            UserOp::Update { id, username, nickname, admin, verified, unremove, roles } => UserOpSpec::Update {
                id: *id,
                username: opt_view(*username),
                nickname: match nickname {
                    Some(n) => Some(opt_view(*n)),
                    None => None,
                },
                admin: *admin,
                verified: *verified,
                unremove: *unremove,
                roles: match roles {
                    Some(r) => Some(texts(*r)),
                    None => None,
                },
            },
            UserOp::Create { id, username, nickname, admin, verified, bot, roles } => UserOpSpec::Create {
                id: *id,
                username: username@,
                nickname: opt_view(*nickname),
                admin: *admin,
                verified: *verified,
                bot: *bot,
                roles: texts(*roles),
            },
        }
    }
}

/// What the bot does for one member once its color role is known: the color
/// role (kept or newly made), and the write of its user record.
pub struct MemberSync {
    pub color_role: RoleId,
    pub user: Option<UserOp>,
}

pub struct MemberSyncSpec {
    pub color_role: RoleId,
    pub user: Option<UserOpSpec>,
}

impl View for MemberSync {
    type V = MemberSyncSpec;

    open spec fn view(&self) -> MemberSyncSpec {
        MemberSyncSpec {
            color_role: self.color_role,
            user: match self.user {
                Some(u) => Some(u@),
                None => None,
            },
        }
    }
}

/// The ids of a member's roles, as text, in the member's order.
pub open spec fn role_texts(roles: Seq<RoleId>) -> Seq<Seq<char>> {
    roles.map_values(|r: RoleId| dec_digits(r.0 as nat))
}

/// The first of a member's roles that is a color role.
pub open spec fn first_color_index(roles: Seq<RoleId>) -> Option<int>
    decreases roles.len(),
{
    if roles.len() == 0 {
        None
    } else {
        match first_color_index(roles.drop_last()) {
            Some(i) => Some(i),
            None => if spec_is_color_role(roles.last()) {
                Some(roles.len() - 1)
            } else {
                None
            },
        }
    }
}

pub proof fn lemma_first_color_index(roles: Seq<RoleId>)
    ensures
        match first_color_index(roles) {
            Some(i) => 0 <= i < roles.len() && spec_is_color_role(roles[i]) && forall|j: int|
                0 <= j < i ==> !spec_is_color_role(#[trigger] roles[j]),
            None => forall|j: int| 0 <= j < roles.len() ==> !spec_is_color_role(#[trigger] roles[j]),
        },
    decreases roles.len(),
{
    if roles.len() > 0 {
        lemma_first_color_index(roles.drop_last());
        assert forall|j: int| 0 <= j < roles.len() - 1 implies roles[j] == roles.drop_last()[j] by {}
    }
}

pub open spec fn spec_color_source(roles: Seq<RoleId>) -> ColorRoleSource {
    match first_color_index(roles) {
        Some(i) => ColorRoleSource::Existing(roles[i]),
        None => ColorRoleSource::Create,
    }
}

/// Reading a member's existing color role stops the program when the server
/// does not list that role.
pub open spec fn color_role_known(roles: Seq<RoleId>, guild_roles: Seq<RoleId>) -> bool {
    match first_color_index(roles) {
        Some(i) => guild_roles.contains(roles[i]),
        None => true,
    }
}

pub open spec fn has_role(roles: Seq<RoleId>, id: u64) -> bool {
    exists|i: int| 0 <= i < roles.len() && (#[trigger] roles[i]).0 == id
}

/// The index of the first database record of the user with this id.
pub open spec fn db_user_index(db: Seq<DbUser>, id: u64) -> Option<int>
    decreases db.len(),
{
    if db.len() == 0 {
        None
    } else {
        match db_user_index(db.drop_last(), id) {
            Some(i) => Some(i),
            None => if db.last().id@ == dec_digits(id as nat) {
                Some(db.len() - 1)
            } else {
                None
            },
        }
    }
}

pub proof fn lemma_db_user_index(db: Seq<DbUser>, id: u64)
    ensures
        match db_user_index(db, id) {
            Some(i) => 0 <= i < db.len() && db[i].id@ == dec_digits(id as nat),
            None => forall|j: int| 0 <= j < db.len() ==> (#[trigger] db[j]).id@ != dec_digits(id as nat),
        },
    decreases db.len(),
{
    if db.len() > 0 {
        lemma_db_user_index(db.drop_last(), id);
        assert forall|j: int| 0 <= j < db.len() - 1 implies db[j] == db.drop_last()[j] by {}
    }
}

proof fn lemma_first_user_match(db: Seq<DbUser>, id: u64, i: int)
    requires
        0 <= i < db.len(),
        db[i].id@ == dec_digits(id as nat),
        forall|j: int| 0 <= j < i ==> (#[trigger] db[j]).id@ != dec_digits(id as nat),
    ensures
        db_user_index(db, id) == Some(i),
    decreases db.len(),
{
    if i < db.len() - 1 {
        lemma_first_user_match(db.drop_last(), id, i);
    } else {
        lemma_db_user_index(db.drop_last(), id);
        assert forall|j: int| 0 <= j < db.len() - 1 implies db[j] == db.drop_last()[j] by {}
    }
}

/// The role ids that the database holds for a user, none when not fetched.
pub open spec fn db_role_texts(roles: Option<Vec<String>>) -> Seq<Seq<char>> {
    match roles {
        Some(v) => texts(v),
        None => Seq::empty(),
    }
}

/// A member's roles once a newly made color role was given to it (giving a
/// role the member holds already changes nothing).
pub open spec fn roles_after(roles: Seq<RoleId>, created: Option<RoleId>) -> Seq<RoleId> {
    match created {
        Some(r) => if roles.contains(r) {
            roles
        } else {
            roles.push(r)
        },
        None => roles,
    }
}

/// The user write for one member whose roles are `member_roles`: update
/// what differs from the record, or create the record when there is none.
pub open spec fn spec_user_op(m: DiscordMember, member_roles: Seq<RoleId>, db: Seq<DbUser>) -> Option<UserOpSpec> {
    let admin = has_role(member_roles, OVERRIDES);
    let verified = has_role(member_roles, MEMBERS);
    let roles = role_texts(member_roles);
    match db_user_index(db, m.id.0) {
        Some(i) => {
            let p = db[i];
            let username = if m.name@ != p.username@ {
                Some(m.name@)
            } else {
                None
            };
            let nickname = if opt_view(m.nick) != opt_view(p.nickname) {
                Some(opt_view(m.nick))
            } else {
                None
            };
            let admin_change = if admin != p.admin {
                Some(!p.admin)
            } else {
                None
            };
            let verified_change = if verified != p.verified {
                Some(!p.verified)
            } else {
                None
            };
            let roles_change = if roles != db_role_texts(p.roles) {
                Some(roles)
            } else {
                None
            };
            if username is None && nickname is None && admin_change is None && verified_change is None
                && !p.removed && roles_change is None {
                None
            } else {
                Some(
                    UserOpSpec::Update {
                        id: m.id,
                        username,
                        nickname,
                        admin: admin_change,
                        verified: verified_change,
                        unremove: p.removed,
                        roles: roles_change,
                    },
                )
            }
        },
        None => Some(
            UserOpSpec::Create {
                id: m.id,
                username: m.name@,
                nickname: opt_view(m.nick),
                admin,
                verified,
                bot: m.bot,
                roles,
            },
        ),
    }
}

/// The work for one member, given the color role made for it when it had
/// none: its color role, and its user write over its roles at that point.
pub open spec fn spec_member_sync(m: DiscordMember, created: Option<RoleId>, db: Seq<DbUser>) -> MemberSyncSpec {
    MemberSyncSpec {
        color_role: match spec_color_source(m.roles@) {
            ColorRoleSource::Existing(r) => r,
            ColorRoleSource::Create => created->0,
        },
        user: spec_user_op(m, roles_after(m.roles@, created), db),
    }
}

pub open spec fn server_has_user(ms: Seq<DiscordMember>, id: Seq<char>) -> bool {
    exists|i: int| 0 <= i < ms.len() && dec_digits(#[trigger] ms[i].id.0 as nat) == id
}

/// The ids of the records, not yet marked removed, of users who are no
/// longer members.
pub open spec fn stale_users(ms: Seq<DiscordMember>, db: Seq<DbUser>) -> Seq<Seq<char>>
    decreases db.len(),
{
    if db.len() == 0 {
        Seq::empty()
    } else {
        let rest = stale_users(ms, db.drop_last());
        let p = db.last();
        if !server_has_user(ms, p.id@) && !p.removed {
            rest.push(p.id@)
        } else {
            rest
        }
    }
}

/// Where each member's color role comes from, in member order, and the
/// records to mark removed. The ids in `removed` are handed to the database
/// client as one list of conditions `id == x`, which it joins with AND:
/// with two or more ids no record matches.
pub struct UserPlan {
    pub members: Vec<ColorRoleSource>,
    pub removed: Vec<String>,
}

pub(crate) fn has_role_exec(roles: &Vec<RoleId>, id: u64) -> (res: bool)
    ensures
        res == has_role(roles@, id),
{
    let mut i: usize = 0;
    while i < roles.len()
        invariant
            i <= roles@.len(),
            forall|j: int| 0 <= j < i ==> (#[trigger] roles@[j]).0 != id,
        decreases roles@.len() - i,
    {
        if roles[i].0 == id {
            return true;
        }
        i = i + 1;
    }
    false
}

pub(crate) fn role_texts_exec(roles: &Vec<RoleId>) -> (res: Vec<String>)
    ensures
        texts(res) == role_texts(roles@),
{
    let mut out: Vec<String> = Vec::new();
    let mut i: usize = 0;
    while i < roles.len()
        invariant
            i <= roles@.len(),
            texts(out) == role_texts(roles@.subrange(0, i as int)),
        decreases roles@.len() - i,
    {
        let ghost before = out@;
        let t = u64_to_string(roles[i].0);
        out.push(t);
        assert(out@ == before.push(t));
        assert(texts(out) =~= before.map_values(|s: String| s@).push(t@));
        assert(roles@.subrange(0, i + 1) =~= roles@.subrange(0, i as int).push(roles@[i as int]));
        assert(role_texts(roles@.subrange(0, i + 1)) =~= role_texts(roles@.subrange(0, i as int)).push(dec_digits(roles@[i as int].0 as nat)));
        i = i + 1;
    }
    assert(roles@.subrange(0, roles@.len() as int) =~= roles@);
    out
}

fn texts_eq(a: &Vec<String>, b: &Vec<String>) -> (res: bool)
    ensures
        res == (texts(*a) == texts(*b)),
{
    if a.len() != b.len() {
        assert(texts(*a).len() != texts(*b).len());
        return false;
    }
    let mut i: usize = 0;
    while i < a.len()
        invariant
            a@.len() == b@.len(),
            i <= a@.len(),
            forall|j: int| 0 <= j < i ==> (#[trigger] a@[j])@ == b@[j]@,
        decreases a@.len() - i,
    {
        if a[i] != b[i] {
            assert(texts(*a)[i as int] != texts(*b)[i as int]);
            return false;
        }
        i = i + 1;
    }
    assert(texts(*a) =~= texts(*b));
    true
}

fn copy_opt(o: &Option<String>) -> (res: Option<String>)
    ensures
        opt_view(res) == opt_view(*o),
{
    match o {
        Some(s) => Some(string_of(s.as_str())),
        None => None,
    }
}

fn opt_eq(a: &Option<String>, b: &Option<String>) -> (res: bool)
    ensures
        res == (opt_view(*a) == opt_view(*b)),
{
    match (a, b) {
        (Some(x), Some(y)) => *x == *y,
        (None, None) => true,
        _ => false,
    }
}

fn find_db_user(db: &Vec<DbUser>, id: u64) -> (res: Option<usize>)
    ensures
        match db_user_index(db@, id) {
            Some(i) => res matches Some(k) && k as int == i,
            None => res is None,
        },
{
    proof {
        lemma_db_user_index(db@, id);
    }
    let key = u64_to_string(id);
    let mut i: usize = 0;
    while i < db.len()
        invariant
            i <= db@.len(),
            key@ == dec_digits(id as nat),
            forall|j: int| 0 <= j < i ==> (#[trigger] db@[j]).id@ != dec_digits(id as nat),
            match db_user_index(db@, id) {
                Some(k) => 0 <= k < db@.len() && db@[k].id@ == dec_digits(id as nat),
                None => forall|j: int| 0 <= j < db@.len() ==> (#[trigger] db@[j]).id@ != dec_digits(id as nat),
            },
        decreases db@.len() - i,
    {
        if db[i].id == key {
            proof {
                lemma_first_user_match(db@, id, i as int);
            }
            return Some(i);
        }
        i = i + 1;
    }
    None
}

/// The user write for one member whose roles are `member_roles`.
pub fn user_op(m: &DiscordMember, member_roles: &Vec<RoleId>, db: &Vec<DbUser>) -> (res: Option<UserOp>)
    ensures
        match res {
            Some(o) => spec_user_op(*m, member_roles@, db@) == Some(o@),
            None => spec_user_op(*m, member_roles@, db@) is None,
        },
{
    let admin = has_role_exec(member_roles, OVERRIDES);
    let verified = has_role_exec(member_roles, MEMBERS);
    let roles = role_texts_exec(member_roles);
    proof {
        lemma_db_user_index(db@, m.id.0);
    }
    match find_db_user(db, m.id.0) {
        Some(k) => {
            let p = &db[k];
            let username = if m.name != p.username {
                Some(string_of(m.name.as_str()))
            } else {
                None
            };
            let nickname = if !opt_eq(&m.nick, &p.nickname) {
                Some(copy_opt(&m.nick))
            } else {
                None
            };
            let admin_change = if admin != p.admin {
                Some(!p.admin)
            } else {
                None
            };
            let verified_change = if verified != p.verified {
                Some(!p.verified)
            } else {
                None
            };
            let same_roles = match &p.roles {
                Some(r) => texts_eq(&roles, r),
                None => roles.len() == 0,
            };
            proof {
                if p.roles is None {
                    if roles@.len() == 0 {
                        assert(texts(roles) =~= Seq::<Seq<char>>::empty());
                    } else {
                        assert(texts(roles).len() != 0);
                    }
                }
            }
            let roles_change = if !same_roles {
                Some(roles)
            } else {
                None
            };
            if username.is_none() && nickname.is_none() && admin_change.is_none() && verified_change.is_none()
                && !p.removed && roles_change.is_none() {
                return None;
            }
            Some(
                UserOp::Update {
                    id: m.id,
                    username,
                    nickname,
                    admin: admin_change,
                    verified: verified_change,
                    unremove: p.removed,
                    roles: roles_change,
                },
            )
        },
        None => Some(
            UserOp::Create {
                id: m.id,
                username: string_of(m.name.as_str()),
                nickname: copy_opt(&m.nick),
                admin,
                verified,
                bot: m.bot,
                roles,
            },
        ),
    }
}

/// Where a member's color role comes from.
pub fn color_source(roles: &Vec<RoleId>) -> (res: ColorRoleSource)
    ensures
        res == spec_color_source(roles@),
{
    proof {
        lemma_first_color_index(roles@);
    }
    match first_color_role(roles) {
        Some(r) => {
            proof {
                let i = choose|i: int|
                    0 <= i < roles@.len() && roles@[i] == r && spec_is_color_role(r) && forall|j: int|
                        0 <= j < i ==> !spec_is_color_role(#[trigger] roles@[j]);
                let k = first_color_index(roles@)->0;
                assert(k == i) by {
                    if k < i {
                    } else if i < k {
                    }
                }
            }
            ColorRoleSource::Existing(r)
        },
        None => ColorRoleSource::Create,
    }
}

fn server_has_user_exec(ms: &Vec<DiscordMember>, id: &String) -> (res: bool)
    ensures
        res == server_has_user(ms@, id@),
{
    let mut i: usize = 0;
    while i < ms.len()
        invariant
            i <= ms@.len(),
            forall|j: int| 0 <= j < i ==> dec_digits(#[trigger] ms@[j].id.0 as nat) != id@,
        decreases ms@.len() - i,
    {
        let text = u64_to_string(ms[i].id.0);
        if text == *id {
            return true;
        }
        i = i + 1;
    }
    false
}

fn contains_role(roles: &Vec<RoleId>, r: RoleId) -> (res: bool)
    ensures
        res == roles@.contains(r),
{
    let mut i: usize = 0;
    while i < roles.len()
        invariant
            i <= roles@.len(),
            forall|j: int| 0 <= j < i ==> roles@[j] != r,
        decreases roles@.len() - i,
    {
        if roles[i] == r {
            return true;
        }
        i = i + 1;
    }
    false
}

/// The work for one member once its color role is known: `created` is the
/// role made for it, which is given exactly when the member had no color
/// role. The member's roles then include the new one, as they do once the
/// role is given on the server.
pub fn member_sync(m: &DiscordMember, created: Option<RoleId>, db: &Vec<DbUser>) -> (res: MemberSync)
    requires
        (spec_color_source(m.roles@) is Create) == (created is Some),
    ensures
        res@ == spec_member_sync(*m, created, db@),
{
    let source = color_source(&m.roles);
    let mut roles = m.roles.clone();
    assert(roles@ == m.roles@);
    let color_role = match created {
        Some(r) => {
            if !contains_role(&roles, r) {
                roles.push(r);
            }
            r
        },
        None => match source {
            ColorRoleSource::Existing(r) => r,
            ColorRoleSource::Create => RoleId(0),
        },
    };
    assert(roles@ == roles_after(m.roles@, created));
    let user = user_op(m, &roles, db);
    let res = MemberSync { color_role, user };
    assert(res@ == spec_member_sync(*m, created, db@)) by {
        match user {
            Some(o) => {},
            None => {},
        }
    }
    res
}

/// The color roles to mark as color roles once every member is done, in
/// member order. They are handed to the database client as one list of
/// conditions `id == x`, which it joins with AND:
/// with two or more roles no record matches.
pub fn color_role_marks(steps: &Vec<MemberSync>) -> (res: Vec<RoleId>)
    ensures
        res@ == steps@.map_values(|s: MemberSync| s.color_role),
{
    let mut out: Vec<RoleId> = Vec::new();
    let mut i: usize = 0;
    while i < steps.len()
        invariant
            i <= steps@.len(),
            out@ == steps@.subrange(0, i as int).map_values(|s: MemberSync| s.color_role),
        decreases steps@.len() - i,
    {
        out.push(steps[i].color_role);
        assert(out@ =~= steps@.subrange(0, i + 1).map_values(|s: MemberSync| s.color_role));
        i = i + 1;
    }
    assert(steps@.subrange(0, steps@.len() as int) =~= steps@);
    out
}

/// The start of the work that brings the user records in line with the
/// server's members: where each member's color role comes from (the role is
/// then made where needed, and each member handed to `member_sync`), and
/// the records to mark removed.
pub fn plan_user_sync(members: &Vec<DiscordMember>, guild_roles: &Vec<RoleId>, db: &Vec<DbUser>) -> (res: UserPlan)
    requires
        forall|i: int| 0 <= i < members@.len() ==> color_role_known(#[trigger] members@[i].roles@, guild_roles@),
    ensures
        res.members@.len() == members@.len(),
        forall|i: int| 0 <= i < members@.len() ==> #[trigger] res.members@[i] == spec_color_source(members@[i].roles@),
        texts(res.removed) == stale_users(members@, db@),
{
    let mut out: Vec<ColorRoleSource> = Vec::new();
    let mut i: usize = 0;
    while i < members.len()
        invariant
            i <= members@.len(),
            out@.len() == i,
            forall|k: int| 0 <= k < i ==> #[trigger] out@[k] == spec_color_source(members@[k].roles@),
        decreases members@.len() - i,
    {
        let m = &members[i];
        out.push(color_source(&m.roles));
        i = i + 1;
    }
    let mut removed: Vec<String> = Vec::new();
    let mut j: usize = 0;
    while j < db.len()
        invariant
            j <= db@.len(),
            texts(removed) == stale_users(members@, db@.subrange(0, j as int)),
        decreases db@.len() - j,
    {
        assert(db@.subrange(0, j + 1).drop_last() =~= db@.subrange(0, j as int));
        let p = &db[j];
        if !server_has_user_exec(members, &p.id) && !p.removed {
            let ghost before = removed@;
            removed.push(string_of(p.id.as_str()));
            assert(texts(removed) =~= before.map_values(|s: String| s@).push(p.id@));
        }
        j = j + 1;
    }
    assert(db@.subrange(0, db@.len() as int) =~= db@);
    UserPlan { members: out, removed }
}


/// For a member that the database knows, the synchronization writes the
/// member's values over the record: the admin and verified flags follow
/// whether the member's roles hold the admin and member roles, and the
/// names are the member's; each is set exactly when it differs from the
/// record. The write, if any, is an update of this member's record.
pub proof fn user_update_writes_member_values(m: DiscordMember, roles: Seq<RoleId>, db: Seq<DbUser>, i: int)
    requires
        db_user_index(db, m.id.0) == Some(i),
    ensures
        ({
            let res = spec_user_op(m, roles, db);
            let p = db[i];
            &&& res is Some ==> res->0 is Update && res->0->Update_id == m.id
            &&& has_role(roles, OVERRIDES) != p.admin ==> (res is Some && res->0->Update_admin == Some(
                has_role(roles, OVERRIDES),
            ))
            &&& has_role(roles, OVERRIDES) == p.admin ==> !(res is Some && res->0->Update_admin is Some)
            &&& has_role(roles, MEMBERS) != p.verified ==> (res is Some && res->0->Update_verified == Some(
                has_role(roles, MEMBERS),
            ))
            &&& has_role(roles, MEMBERS) == p.verified ==> !(res is Some && res->0->Update_verified is Some)
            &&& m.name@ != p.username@ ==> (res is Some && res->0->Update_username == Some(m.name@))
            &&& m.name@ == p.username@ ==> !(res is Some && res->0->Update_username is Some)
            &&& opt_view(m.nick) != opt_view(p.nickname) ==> (res is Some && res->0->Update_nickname == Some(
                opt_view(m.nick),
            ))
        }),
{
}

/// A member that the database does not know gets a new record with the
/// member's own values: the admin and verified flags follow its roles.
pub proof fn user_create_takes_member_values(m: DiscordMember, roles: Seq<RoleId>, db: Seq<DbUser>)
    requires
        db_user_index(db, m.id.0) is None,
    ensures
        spec_user_op(m, roles, db) matches Some(op) && op is Create && op->Create_id == m.id
            && op->Create_username == m.name@ && op->Create_admin == has_role(roles, OVERRIDES)
            && op->Create_verified == has_role(roles, MEMBERS) && op->Create_bot == m.bot,
{
}

} // verus!
