//! Which channel records to update, create or mark deleted.
use vstd::prelude::*;
use crate::ids::ChannelId;
use crate::sync::roles::opt_view;
use crate::text::{dec_digits, string_of, u64_to_string};

verus! {

/// The kind of a channel on the server.
#[derive(Debug, Clone, Copy, PartialEq, Eq, Structural)]
pub enum ChannelKind {
    Text,
    News,
    Stage,
    Voice,
    /// Any other kind, which the database does not record.
    Other,
}

/// The kind of a channel in the database.
#[derive(Debug, Clone, Copy, PartialEq, Eq, Structural)]
pub enum DbChannelType {
    Text,
    News,
    Stage,
    Voice,
}

/// A channel as the server has it.
pub struct DiscordChannel {
    pub id: ChannelId,
    pub name: String,
    pub topic: Option<String>,
    pub nsfw: bool,
    pub kind: ChannelKind,
    pub parent_id: Option<ChannelId>,
    pub is_thread: bool,
}

/// A channel as the database has it.
pub struct DbChannel {
    pub id: String,
    pub name: String,
    pub topic: Option<String>,
    pub nsfw: bool,
    pub kind: DbChannelType,
    pub category_id: Option<String>,
    pub deleted: bool,
}

/// A new category for a channel record.
#[derive(Debug, Clone, Copy, PartialEq, Eq, Structural)]
pub enum ParentChange {
    Connect(ChannelId),
    Disconnect,
}

/// A database write about channels.
#[allow(inconsistent_fields)]
pub enum ChannelOp {
    Update {
        id: ChannelId,
        name: Option<String>,
        topic: Option<Option<String>>,
        nsfw: Option<bool>,
        kind: Option<DbChannelType>,
        parent: Option<ParentChange>,
    },
    Create {
        id: ChannelId,
        name: String,
        nsfw: bool,
        kind: DbChannelType,
        topic: Option<String>,
        parent: Option<ChannelId>,
    },
    /// Mark these channels deleted, and the messages in each. The channels
    /// are handed to the database client as one list of conditions
    /// `id == x`, which it joins with AND: with two
    /// or more ids no channel record matches. The messages are marked
    /// channel by channel.
    MarkDeleted { ids: Vec<String> },
}

#[allow(inconsistent_fields)]
pub enum ChannelOpSpec {
    Update {
        id: ChannelId,
        name: Option<Seq<char>>,
        topic: Option<Option<Seq<char>>>,
        nsfw: Option<bool>,
        kind: Option<DbChannelType>,
        parent: Option<ParentChange>,
    },
    Create {
        id: ChannelId,
        name: Seq<char>,
        nsfw: bool,
        kind: DbChannelType,
        topic: Option<Seq<char>>,
        parent: Option<ChannelId>,
    },
    MarkDeleted { ids: Seq<Seq<char>> },
}

impl View for ChannelOp {
    type V = ChannelOpSpec;

    open spec fn view(&self) -> ChannelOpSpec {
        match self {
            ChannelOp::Update { id, name, topic, nsfw, kind, parent } => ChannelOpSpec::Update {
                id: *id,
                name: opt_view(*name),
                topic: match topic {
                    Some(t) => Some(opt_view(*t)),
                    None => None,
                },
                nsfw: *nsfw,
                kind: *kind,
                parent: *parent,
            },
            ChannelOp::Create { id, name, nsfw, kind, topic, parent } => ChannelOpSpec::Create {
                id: *id,
                name: name@,
                nsfw: *nsfw,
                kind: *kind,
                topic: opt_view(*topic),
                parent: *parent,
            },
            ChannelOp::MarkDeleted { ids } => ChannelOpSpec::MarkDeleted {
                ids: ids@.map_values(|s: String| s@),
            },
        }
    }
}

/// The database kind of a server kind; `None` for kinds it does not record.
pub open spec fn db_kind(k: ChannelKind) -> Option<DbChannelType> {
    match k {
        ChannelKind::Text => Some(DbChannelType::Text),
        ChannelKind::News => Some(DbChannelType::News),
        ChannelKind::Stage => Some(DbChannelType::Stage),
        ChannelKind::Voice => Some(DbChannelType::Voice),
        ChannelKind::Other => None,
    }
}

pub open spec fn server_kind(k: DbChannelType) -> ChannelKind {
    match k {
        DbChannelType::Text => ChannelKind::Text,
        DbChannelType::News => ChannelKind::News,
        DbChannelType::Stage => ChannelKind::Stage,
        DbChannelType::Voice => ChannelKind::Voice,
    }
}

pub open spec fn parent_text(p: Option<ChannelId>) -> Option<Seq<char>> {
    match p {
        Some(c) => Some(dec_digits(c.0 as nat)),
        None => None,
    }
}

/// The index of the first database record of the channel with this id.
pub open spec fn db_channel_index(db: Seq<DbChannel>, id: u64) -> Option<int>
    decreases db.len(),
{
    if db.len() == 0 {
        None
    } else {
        match db_channel_index(db.drop_last(), id) {
            Some(i) => Some(i),
            None => if db.last().id@ == dec_digits(id as nat) {
                Some(db.len() - 1)
            } else {
                None
            },
        }
    }
}

pub proof fn lemma_db_channel_index(db: Seq<DbChannel>, id: u64)
    ensures
        match db_channel_index(db, id) {
            Some(i) => 0 <= i < db.len() && db[i].id@ == dec_digits(id as nat),
            None => forall|j: int| 0 <= j < db.len() ==> (#[trigger] db[j]).id@ != dec_digits(id as nat),
        },
    decreases db.len(),
{
    if db.len() > 0 {
        lemma_db_channel_index(db.drop_last(), id);
        assert forall|j: int| 0 <= j < db.len() - 1 implies db[j] == db.drop_last()[j] by {}
    }
}

proof fn lemma_first_channel_match(db: Seq<DbChannel>, id: u64, i: int)
    requires
        0 <= i < db.len(),
        db[i].id@ == dec_digits(id as nat),
        forall|j: int| 0 <= j < i ==> (#[trigger] db[j]).id@ != dec_digits(id as nat),
    ensures
        db_channel_index(db, id) == Some(i),
    decreases db.len(),
{
    if i < db.len() - 1 {
        lemma_first_channel_match(db.drop_last(), id, i);
    } else {
        lemma_db_channel_index(db.drop_last(), id);
        assert forall|j: int| 0 <= j < db.len() - 1 implies db[j] == db.drop_last()[j] by {}
    }
}

/// The writes for one channel of the server, or `None` when the channel's
/// kind is one that the database does not record, which ends the whole
/// synchronization of channels there. Threads are skipped.
pub open spec fn channel_ops_one(c: DiscordChannel, db: Seq<DbChannel>) -> Option<Seq<ChannelOpSpec>> {
    if c.is_thread {
        Some(Seq::empty())
    } else {
        match db_channel_index(db, c.id.0) {
            Some(i) => {
                let p = db[i];
                if c.kind != server_kind(p.kind) && db_kind(c.kind) is None {
                    None
                } else {
                    let name = if p.name@ != c.name@ {
                        Some(c.name@)
                    } else {
                        None
                    };
                    let topic = if opt_view(c.topic) != opt_view(p.topic) {
                        Some(opt_view(c.topic))
                    } else {
                        None
                    };
                    let nsfw = if c.nsfw != p.nsfw {
                        Some(c.nsfw)
                    } else {
                        None
                    };
                    let kind = if c.kind != server_kind(p.kind) {
                        db_kind(c.kind)
                    } else {
                        None
                    };
                    let parent = if parent_text(c.parent_id) != opt_view(p.category_id) {
                        match c.parent_id {
                            Some(pid) => Some(ParentChange::Connect(pid)),
                            None => Some(ParentChange::Disconnect),
                        }
                    } else {
                        None
                    };
                    if name is None && topic is None && nsfw is None && kind is None && parent is None {
                        Some(Seq::empty())
                    } else {
                        Some(seq![ChannelOpSpec::Update { id: c.id, name, topic, nsfw, kind, parent }])
                    }
                }
            },
            None => match db_kind(c.kind) {
                Some(k) => Some(
                    seq![ChannelOpSpec::Create {
                        id: c.id,
                        name: c.name@,
                        nsfw: c.nsfw,
                        kind: k,
                        topic: opt_view(c.topic),
                        parent: c.parent_id,
                    }],
                ),
                None => None,
            },
        }
    }
}

/// The writes for the server's channels in order, and whether a channel of
/// an unrecorded kind stopped them.
pub open spec fn channel_ops(cs: Seq<DiscordChannel>, db: Seq<DbChannel>) -> (Seq<ChannelOpSpec>, bool)
    decreases cs.len(),
{
    if cs.len() == 0 {
        (Seq::empty(), false)
    } else {
        let (ops, stopped) = channel_ops(cs.drop_last(), db);
        if stopped {
            (ops, true)
        } else {
            match channel_ops_one(cs.last(), db) {
                Some(more) => (ops + more, false),
                None => (ops, true),
            }
        }
    }
}

pub open spec fn server_has_channel(cs: Seq<DiscordChannel>, id: Seq<char>) -> bool {
    exists|i: int| 0 <= i < cs.len() && dec_digits(#[trigger] cs[i].id.0 as nat) == id
}

/// The ids of the records, not yet marked deleted, of channels that the
/// server no longer has.
pub open spec fn stale_channels(cs: Seq<DiscordChannel>, db: Seq<DbChannel>) -> Seq<Seq<char>>
    decreases db.len(),
{
    if db.len() == 0 {
        Seq::empty()
    } else {
        let rest = stale_channels(cs, db.drop_last());
        let p = db.last();
        if !server_has_channel(cs, p.id@) && !p.deleted {
            rest.push(p.id@)
        } else {
            rest
        }
    }
}

/// All the writes: those for the server's channels, then, unless a channel
/// stopped the synchronization, one marking stale channels deleted.
pub open spec fn spec_channel_plan(cs: Seq<DiscordChannel>, db: Seq<DbChannel>) -> Seq<ChannelOpSpec> {
    let (ops, stopped) = channel_ops(cs, db);
    let stale = stale_channels(cs, db);
    if stopped || stale.len() == 0 {
        ops
    } else {
        ops.push(ChannelOpSpec::MarkDeleted { ids: stale })
    }
}

fn find_db_channel(db: &Vec<DbChannel>, id: u64) -> (res: Option<usize>)
    ensures
        match db_channel_index(db@, id) {
            Some(i) => res matches Some(k) && k as int == i,
            None => res is None,
        },
{
    proof {
        lemma_db_channel_index(db@, id);
    }
    let key = u64_to_string(id);
    let mut i: usize = 0;
    while i < db.len()
        invariant
            i <= db@.len(),
            key@ == dec_digits(id as nat),
            forall|j: int| 0 <= j < i ==> (#[trigger] db@[j]).id@ != dec_digits(id as nat),
            match db_channel_index(db@, id) {
                Some(k) => 0 <= k < db@.len() && db@[k].id@ == dec_digits(id as nat),
                None => forall|j: int| 0 <= j < db@.len() ==> (#[trigger] db@[j]).id@ != dec_digits(id as nat),
            },
        decreases db@.len() - i,
    {
        if db[i].id == key {
            proof {
                lemma_first_channel_match(db@, id, i as int);
            }
            return Some(i);
        }
        i = i + 1;
    }
    None
}

fn copy_opt(o: &Option<String>) -> (res: Option<String>)
    ensures
        opt_view(res) == opt_view(*o),
{
    match o {
        Some(s) => Some(string_of(s.as_str())),
        None => None,
    }
}

fn opt_eq(a: &Option<String>, b: &Option<String>) -> (res: bool)
    ensures
        res == (opt_view(*a) == opt_view(*b)),
{
    match (a, b) {
        (Some(x), Some(y)) => *x == *y,
        (None, None) => true,
        _ => false,
    }
}

fn to_db_kind(k: ChannelKind) -> (res: Option<DbChannelType>)
    ensures
        res == db_kind(k),
{
    match k {
        ChannelKind::Text => Some(DbChannelType::Text),
        ChannelKind::News => Some(DbChannelType::News),
        ChannelKind::Stage => Some(DbChannelType::Stage),
        ChannelKind::Voice => Some(DbChannelType::Voice),
        ChannelKind::Other => None,
    }
}

fn to_server_kind(k: DbChannelType) -> (res: ChannelKind)
    ensures
        res == server_kind(k),
{
    match k {
        DbChannelType::Text => ChannelKind::Text,
        DbChannelType::News => ChannelKind::News,
        DbChannelType::Stage => ChannelKind::Stage,
        DbChannelType::Voice => ChannelKind::Voice,
    }
}

fn parent_text_exec(p: Option<ChannelId>) -> (res: Option<String>)
    ensures
        opt_view(res) == parent_text(p),
{
    match p {
        Some(c) => Some(u64_to_string(c.0)),
        None => None,
    }
}

/// The writes for one channel, appended to `out`; `false` when the channel
/// stops the synchronization.
fn ops_for_channel(c: &DiscordChannel, db: &Vec<DbChannel>, out: &mut Vec<ChannelOp>) -> (res: bool)
    ensures
        match channel_ops_one(*c, db@) {
            Some(more) => res && final(out)@.map_values(|o: ChannelOp| o@) == old(out)@.map_values(|o: ChannelOp| o@) + more,
            None => !res && final(out)@ == old(out)@,
        },
{
    let ghost before = out@.map_values(|o: ChannelOp| o@);
    if c.is_thread {
        assert(out@.map_values(|o: ChannelOp| o@) =~= before + Seq::<ChannelOpSpec>::empty());
        return true;
    }
    proof {
        lemma_db_channel_index(db@, c.id.0);
    }
    match find_db_channel(db, c.id.0) {
        Some(k) => {
            let p = &db[k];
            let same_kind = c.kind == to_server_kind(p.kind);
            if !same_kind && to_db_kind(c.kind).is_none() {
                return false;
            }
            let name = if p.name != c.name {
                Some(string_of(c.name.as_str()))
            } else {
                None
            };
            let topic = if !opt_eq(&c.topic, &p.topic) {
                Some(copy_opt(&c.topic))
            } else {
                None
            };
            let nsfw = if c.nsfw != p.nsfw {
                Some(c.nsfw)
            } else {
                None
            };
            let kind = if !same_kind {
                to_db_kind(c.kind)
            } else {
                None
            };
            let pt = parent_text_exec(c.parent_id);
            let parent = if !opt_eq(&pt, &p.category_id) {
                match c.parent_id {
                    Some(pid) => Some(ParentChange::Connect(pid)),
                    None => Some(ParentChange::Disconnect),
                }
            } else {
                None
            };
            if name.is_none() && topic.is_none() && nsfw.is_none() && kind.is_none() && parent.is_none() {
                assert(out@.map_values(|o: ChannelOp| o@) =~= before + Seq::<ChannelOpSpec>::empty());
                return true;
            }
            out.push(ChannelOp::Update { id: c.id, name, topic, nsfw, kind, parent });
            assert(out@.map_values(|o: ChannelOp| o@) =~= before + channel_ops_one(*c, db@)->0);
            true
        },
        None => {
            match to_db_kind(c.kind) {
                Some(k) => {
                    out.push(
                        ChannelOp::Create {
                            id: c.id,
                            name: string_of(c.name.as_str()),
                            nsfw: c.nsfw,
                            kind: k,
                            topic: copy_opt(&c.topic),
                            parent: c.parent_id,
                        },
                    );
                    assert(out@.map_values(|o: ChannelOp| o@) =~= before + channel_ops_one(*c, db@)->0);
                    true
                },
                None => false,
            }
        },
    }
}

fn server_has_channel_exec(cs: &Vec<DiscordChannel>, id: &String) -> (res: bool)
    ensures
        res == server_has_channel(cs@, id@),
{
    let mut i: usize = 0;
    while i < cs.len()
        invariant
            i <= cs@.len(),
            forall|j: int| 0 <= j < i ==> dec_digits(#[trigger] cs@[j].id.0 as nat) != id@,
        decreases cs@.len() - i,
    {
        let text = u64_to_string(cs[i].id.0);
        if text == *id {
            return true;
        }
        i = i + 1;
    }
    false
}

/// A stop in a prefix stops everything after it.
proof fn lemma_stopped_prefix(cs: Seq<DiscordChannel>, db: Seq<DbChannel>, n: int)
    requires
        0 <= n <= cs.len(),
        channel_ops(cs.subrange(0, n), db).1,
    ensures
        channel_ops(cs, db) == channel_ops(cs.subrange(0, n), db),
    decreases cs.len() - n,
{
    if n < cs.len() {
        assert(cs.subrange(0, n + 1).drop_last() =~= cs.subrange(0, n));
        lemma_stopped_prefix(cs, db, n + 1);
    } else {
        assert(cs.subrange(0, n) =~= cs);
    }
}

/// The database writes that bring the channel records in line with the server.
pub fn plan_channel_sync(cs: &Vec<DiscordChannel>, db: &Vec<DbChannel>) -> (res: Vec<ChannelOp>)
    ensures
        res@.map_values(|o: ChannelOp| o@) == spec_channel_plan(cs@, db@),
{
    let mut out: Vec<ChannelOp> = Vec::new();
    let mut i: usize = 0;
    while i < cs.len()
        invariant
            i <= cs@.len(),
            channel_ops(cs@.subrange(0, i as int), db@) == (out@.map_values(|o: ChannelOp| o@), false),
        decreases cs@.len() - i,
    {
        assert(cs@.subrange(0, i + 1).drop_last() =~= cs@.subrange(0, i as int));
        assert(cs@.subrange(0, i + 1).last() == cs@[i as int]);
        if !ops_for_channel(&cs[i], db, &mut out) {
            proof {
                lemma_stopped_prefix(cs@, db@, (i + 1) as int);
            }
            return out;
        }
        i = i + 1;
    }
    assert(cs@.subrange(0, cs@.len() as int) =~= cs@);
    let mut stale: Vec<String> = Vec::new();
    let mut j: usize = 0;
    while j < db.len()
        invariant
            j <= db@.len(),
            stale@.map_values(|s: String| s@) == stale_channels(cs@, db@.subrange(0, j as int)),
        decreases db@.len() - j,
    {
        assert(db@.subrange(0, j + 1).drop_last() =~= db@.subrange(0, j as int));
        let p = &db[j];
        let ghost before = stale@;
        if !server_has_channel_exec(cs, &p.id) && !p.deleted {
            stale.push(string_of(p.id.as_str()));
            assert(stale@.map_values(|s: String| s@) =~= before.map_values(|s: String| s@).push(p.id@));
        }
        j = j + 1;
    }
    assert(db@.subrange(0, db@.len() as int) =~= db@);
    let ghost ops = out@.map_values(|o: ChannelOp| o@);
    if stale.len() > 0 {
        out.push(ChannelOp::MarkDeleted { ids: stale });
        assert(out@.map_values(|o: ChannelOp| o@) =~= ops.push(ChannelOpSpec::MarkDeleted { ids: stale_channels(cs@, db@) }));
    }
    out
}


/// For a channel that the database knows, the synchronization writes the
/// server's values over the record: the name, topic and nsfw flag are set
/// exactly when they differ from the record, and then to the channel's own
/// values; there is at most one write, and it is about this channel. This
/// holds whenever the channel keeps its kind or takes one that the database
/// records.
pub proof fn channel_update_writes_server_values(c: DiscordChannel, db: Seq<DbChannel>, i: int)
    requires
        !c.is_thread,
        db_channel_index(db, c.id.0) == Some(i),
        c.kind == server_kind(db[i].kind) || db_kind(c.kind) is Some,
    ensures
        channel_ops_one(c, db) is Some,
        ({
            let ops = channel_ops_one(c, db)->0;
            let p = db[i];
            &&& ops.len() <= 1
            &&& ops.len() == 1 ==> ops[0] is Update && ops[0]->Update_id == c.id
            &&& p.name@ != c.name@ ==> ops.len() == 1 && ops[0]->Update_name == Some(c.name@)
            &&& p.name@ == c.name@ && ops.len() == 1 ==> ops[0]->Update_name is None
            &&& opt_view(p.topic) != opt_view(c.topic) ==> ops.len() == 1 && ops[0]->Update_topic == Some(
                opt_view(c.topic),
            )
            &&& opt_view(p.topic) == opt_view(c.topic) && ops.len() == 1 ==> ops[0]->Update_topic is None
            &&& p.nsfw != c.nsfw ==> ops.len() == 1 && ops[0]->Update_nsfw == Some(c.nsfw)
            &&& p.nsfw == c.nsfw && ops.len() == 1 ==> ops[0]->Update_nsfw is None
        }),
{
}

} // verus!
