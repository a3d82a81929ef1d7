//! For each announcement, the message that copies it into the chat.
use vstd::prelude::*;
use std::collections::HashMap;
use crate::cache::CacheItem;
use crate::ids::MessageId;
use crate::dec::{parse_u64, u64_from_dec_str};

verus! {

broadcast use vstd::std_specs::hash::group_hash_axioms;

pub struct NewsInChat;

impl CacheItem for NewsInChat {
    open spec fn spec_key() -> u64 {
        5
    }

    fn key() -> (k: u64) {
        5
    }
}

/// The copies that the database's rows give, by announcement; a later row wins.
pub open spec fn copies_of_rows(rows: Seq<(String, String)>) -> Map<u64, u64>
    decreases rows.len(),
{
    if rows.len() == 0 {
        Map::empty()
    } else {
        copies_of_rows(rows.drop_last()).insert(
            u64_from_dec_str(rows.last().0@)->0,
            u64_from_dec_str(rows.last().1@)->0,
        )
    }
}

impl NewsInChat {
    /// The cache's first value, from the database's rows: the numbers of an
    /// announcement and of its copy (both must be numbers: the loader stops
    /// the program otherwise).
    pub fn default_from_rows(rows: &Vec<(String, String)>) -> (res: HashMap<u64, u64>)
        requires
            forall|i: int| 0 <= i < rows@.len() ==> u64_from_dec_str(#[trigger] rows@[i].0@) is Some
                && u64_from_dec_str(rows@[i].1@) is Some,
        ensures
            res@ == copies_of_rows(rows@),
    {
        let mut m: HashMap<u64, u64> = HashMap::new();
        let mut i: usize = 0;
        assert(copies_of_rows(rows@.subrange(0, 0)) =~= Map::<u64, u64>::empty());
        while i < rows.len()
            invariant
                i <= rows@.len(),
                forall|j: int| 0 <= j < rows@.len() ==> u64_from_dec_str(#[trigger] rows@[j].0@) is Some
                    && u64_from_dec_str(rows@[j].1@) is Some,
                m@ == copies_of_rows(rows@.subrange(0, i as int)),
            decreases rows@.len() - i,
        {
            assert(rows@.subrange(0, i + 1).drop_last() =~= rows@.subrange(0, i as int));
            let (source, copy) = &rows[i];
            assert(u64_from_dec_str(rows@[i as int].0@) is Some);
            let s = match parse_u64(source.as_str()) {
                Some(v) => v,
                None => 0,
            };
            let c = match parse_u64(copy.as_str()) {
                Some(v) => v,
                None => 0,
            };
            m.insert(s, c);
            i = i + 1;
        }
        assert(rows@.subrange(0, rows@.len() as int) =~= rows@);
        m
    }

    /// The chat copy of an announcement, if it is known.
    pub fn get(value: &HashMap<u64, u64>, key: MessageId) -> (res: Option<MessageId>)
        ensures
            res == (if value@.contains_key(key.0) {
                Some(MessageId(value@[key.0]))
            } else {
                None::<MessageId>
            }),
    {
        match value.get(&key.0) {
            Some(c) => Some(MessageId(*c)),
            None => None,
        }
    }

    /// Records the chat copy of an announcement.
    pub fn update(current_value: &mut HashMap<u64, u64>, key: MessageId, value: MessageId)
        ensures
            final(current_value)@ == old(current_value)@.insert(key.0, value.0),
    {
        current_value.insert(key.0, value.0);
    }
}

/// Once the copy of an announcement is recorded, the announcement's copy is
/// that one, and every other announcement keeps its own.
pub proof fn copy_read_back(copies: Map<u64, u64>, announcement: MessageId, copy: MessageId, other: MessageId)
    requires
        other.0 != announcement.0,
    ensures
        copies.insert(announcement.0, copy.0).contains_key(announcement.0),
        copies.insert(announcement.0, copy.0)[announcement.0] == copy.0,
        copies.insert(announcement.0, copy.0).contains_key(other.0) == copies.contains_key(other.0),
        copies.contains_key(other.0) ==> copies.insert(announcement.0, copy.0)[other.0] == copies[other.0],
{
}

} // verus!
