//! Which category records to rename, create or mark deleted.
use vstd::prelude::*;
use crate::ids::ChannelId;
use crate::text::{dec_digits, string_of, u64_to_string};

verus! {

/// A category as the server has it.
pub struct DiscordCategory {
    pub id: ChannelId,
    pub name: String,
}

/// A category as the database has it.
pub struct DbCategory {
    pub id: String,
    pub name: String,
    pub deleted: bool,
}

/// A database write about categories.
#[allow(inconsistent_fields)]
pub enum CategoryOp {
    Rename { id: ChannelId, name: String },
    Create { id: ChannelId, name: String },
    /// Mark these records deleted.
    /// The ids are handed to the database client as one list of
    /// conditions `id == x`, which it joins with AND:
    /// with two or more ids no record matches, and none is marked.
    MarkDeleted { ids: Vec<String> },
}

#[allow(inconsistent_fields)]
pub enum CategoryOpSpec {
    Rename { id: ChannelId, name: Seq<char> },
    Create { id: ChannelId, name: Seq<char> },
    MarkDeleted { ids: Seq<Seq<char>> },
}

impl View for CategoryOp {
    type V = CategoryOpSpec;

    open spec fn view(&self) -> CategoryOpSpec {
        match self {
            CategoryOp::Rename { id, name } => CategoryOpSpec::Rename { id: *id, name: name@ },
            CategoryOp::Create { id, name } => CategoryOpSpec::Create { id: *id, name: name@ },
            CategoryOp::MarkDeleted { ids } => CategoryOpSpec::MarkDeleted {
                ids: ids@.map_values(|s: String| s@),
            },
        }
    }
}

/// The index of the first database record of the category with this id.
pub open spec fn db_category_index(db: Seq<DbCategory>, id: u64) -> Option<int>
    decreases db.len(),
{
    if db.len() == 0 {
        None
    } else {
        match db_category_index(db.drop_last(), id) {
            Some(i) => Some(i),
            None => if db.last().id@ == dec_digits(id as nat) {
                Some(db.len() - 1)
            } else {
                None
            },
        }
    }
}

pub proof fn lemma_db_category_index(db: Seq<DbCategory>, id: u64)
    ensures
        match db_category_index(db, id) {
            Some(i) => 0 <= i < db.len() && db[i].id@ == dec_digits(id as nat),
            None => forall|j: int| 0 <= j < db.len() ==> (#[trigger] db[j]).id@ != dec_digits(id as nat),
        },
    decreases db.len(),
{
    if db.len() > 0 {
        lemma_db_category_index(db.drop_last(), id);
        assert forall|j: int| 0 <= j < db.len() - 1 implies db[j] == db.drop_last()[j] by {}
    }
}

/// The write for one category of the server: rename it when the name
/// differs, create it when the database does not know it.
pub open spec fn category_ops_one(c: DiscordCategory, db: Seq<DbCategory>) -> Seq<CategoryOpSpec> {
    match db_category_index(db, c.id.0) {
        Some(i) => if db[i].name@ != c.name@ {
            seq![CategoryOpSpec::Rename { id: c.id, name: c.name@ }]
        } else {
            Seq::empty()
        },
        None => seq![CategoryOpSpec::Create { id: c.id, name: c.name@ }],
    }
}

pub open spec fn category_ops(cs: Seq<DiscordCategory>, db: Seq<DbCategory>) -> Seq<CategoryOpSpec>
    decreases cs.len(),
{
    if cs.len() == 0 {
        Seq::empty()
    } else {
        category_ops(cs.drop_last(), db) + category_ops_one(cs.last(), db)
    }
}

pub open spec fn server_has_category(cs: Seq<DiscordCategory>, id: Seq<char>) -> bool {
    exists|i: int| 0 <= i < cs.len() && dec_digits(#[trigger] cs[i].id.0 as nat) == id
}

/// The ids of the records, not yet marked deleted, of categories that the
/// server no longer has.
pub open spec fn stale_categories(cs: Seq<DiscordCategory>, db: Seq<DbCategory>) -> Seq<Seq<char>>
    decreases db.len(),
{
    if db.len() == 0 {
        Seq::empty()
    } else {
        let rest = stale_categories(cs, db.drop_last());
        let p = db.last();
        if !server_has_category(cs, p.id@) && !p.deleted {
            rest.push(p.id@)
        } else {
            rest
        }
    }
}

pub open spec fn spec_category_plan(cs: Seq<DiscordCategory>, db: Seq<DbCategory>) -> Seq<CategoryOpSpec> {
    let stale = stale_categories(cs, db);
    category_ops(cs, db) + if stale.len() > 0 {
        seq![CategoryOpSpec::MarkDeleted { ids: stale }]
    } else {
        Seq::empty()
    }
}

fn find_db_category(db: &Vec<DbCategory>, id: u64) -> (res: Option<usize>)
    ensures
        match db_category_index(db@, id) {
            Some(i) => res matches Some(k) && k as int == i,
            None => res is None,
        },
{
    proof {
        lemma_db_category_index(db@, id);
    }
    let key = u64_to_string(id);
    let mut i: usize = 0;
    while i < db.len()
        invariant
            i <= db@.len(),
            key@ == dec_digits(id as nat),
            forall|j: int| 0 <= j < i ==> (#[trigger] db@[j]).id@ != dec_digits(id as nat),
            match db_category_index(db@, id) {
                Some(k) => 0 <= k < db@.len() && db@[k].id@ == dec_digits(id as nat),
                None => forall|j: int| 0 <= j < db@.len() ==> (#[trigger] db@[j]).id@ != dec_digits(id as nat),
            },
        decreases db@.len() - i,
    {
        if db[i].id == key {
            proof {
                lemma_first_category_match(db@, id, i as int);
            }
            return Some(i);
        }
        i = i + 1;
    }
    None
}

proof fn lemma_first_category_match(db: Seq<DbCategory>, id: u64, i: int)
    requires
        0 <= i < db.len(),
        db[i].id@ == dec_digits(id as nat),
        forall|j: int| 0 <= j < i ==> (#[trigger] db[j]).id@ != dec_digits(id as nat),
    ensures
        db_category_index(db, id) == Some(i),
    decreases db.len(),
{
    if i < db.len() - 1 {
        lemma_first_category_match(db.drop_last(), id, i);
    } else {
        lemma_db_category_index(db.drop_last(), id);
        assert forall|j: int| 0 <= j < db.len() - 1 implies db[j] == db.drop_last()[j] by {}
    }
}

fn server_has_category_exec(cs: &Vec<DiscordCategory>, id: &String) -> (res: bool)
    ensures
        res == server_has_category(cs@, id@),
{
    let mut i: usize = 0;
    while i < cs.len()
        invariant
            i <= cs@.len(),
            forall|j: int| 0 <= j < i ==> dec_digits(#[trigger] cs@[j].id.0 as nat) != id@,
        decreases cs@.len() - i,
    {
        let text = u64_to_string(cs[i].id.0);
        if text == *id {
            return true;
        }
        i = i + 1;
    }
    false
}

/// The database writes that bring the category records in line with the server.
pub fn plan_category_sync(cs: &Vec<DiscordCategory>, db: &Vec<DbCategory>) -> (res: Vec<CategoryOp>)
    ensures
        res@.map_values(|o: CategoryOp| o@) == spec_category_plan(cs@, db@),
{
    let mut out: Vec<CategoryOp> = Vec::new();
    let mut i: usize = 0;
    while i < cs.len()
        invariant
            i <= cs@.len(),
            out@.map_values(|o: CategoryOp| o@) == category_ops(cs@.subrange(0, i as int), db@),
        decreases cs@.len() - i,
    {
        assert(cs@.subrange(0, i + 1).drop_last() =~= cs@.subrange(0, i as int));
        let c = &cs[i];
        let ghost before = out@.map_values(|o: CategoryOp| o@);
        proof {
            lemma_db_category_index(db@, c.id.0);
        }
        match find_db_category(db, c.id.0) {
            Some(k) => {
                if db[k].name != c.name {
                    out.push(CategoryOp::Rename { id: c.id, name: string_of(c.name.as_str()) });
                }
            },
            None => {
                out.push(CategoryOp::Create { id: c.id, name: string_of(c.name.as_str()) });
            },
        }
        assert(out@.map_values(|o: CategoryOp| o@) =~= before + category_ops_one(*c, db@));
        i = i + 1;
    }
    assert(cs@.subrange(0, cs@.len() as int) =~= cs@);
    let mut stale: Vec<String> = Vec::new();
    let mut j: usize = 0;
    while j < db.len()
        invariant
            j <= db@.len(),
            stale@.map_values(|s: String| s@) == stale_categories(cs@, db@.subrange(0, j as int)),
        decreases db@.len() - j,
    {
        assert(db@.subrange(0, j + 1).drop_last() =~= db@.subrange(0, j as int));
        let p = &db[j];
        let ghost before = stale@;
        if !server_has_category_exec(cs, &p.id) && !p.deleted {
            stale.push(string_of(p.id.as_str()));
            assert(stale@.map_values(|s: String| s@) =~= before.map_values(|s: String| s@).push(p.id@));
        }
        j = j + 1;
    }
    assert(db@.subrange(0, db@.len() as int) =~= db@);
    let ghost ops = out@.map_values(|o: CategoryOp| o@);
    if stale.len() > 0 {
        out.push(CategoryOp::MarkDeleted { ids: stale });
        assert(out@.map_values(|o: CategoryOp| o@) =~= ops + seq![CategoryOpSpec::MarkDeleted { ids: stale_categories(cs@, db@) }]);
    } else {
        assert(out@.map_values(|o: CategoryOp| o@) =~= ops + Seq::<CategoryOpSpec>::empty());
    }
    out
}

} // verus!
