//! The bot's cache: for each kind of item, its whole value kept serialized.
pub mod all;
pub mod color_role;
pub mod custom_role;
pub mod impersonate;
pub mod newsinchat;
pub mod user_settings;

use vstd::prelude::*;
use std::collections::HashMap;
use crate::error::CacheError;
use crate::text::string_of;

verus! {

broadcast use vstd::std_specs::hash::group_hash_axioms;

/// A kind of item that the cache holds, known by a key of its own.
pub trait CacheItem {
    spec fn spec_key() -> u64;

    fn key() -> (k: u64)
        ensures
            k == Self::spec_key(),
    ;
}

/// The cache: the serialized value of each kind of item, by its key.
#[derive(Debug, Clone)]
pub struct Cache {
    items: HashMap<u64, String>,
}

impl View for Cache {
    type V = Map<u64, String>;

    closed spec fn view(&self) -> Map<u64, String> {
        self.items@
    }
}

impl Cache {
    pub fn new() -> (res: Cache)
        ensures
            res@ == Map::<u64, String>::empty(),
    {
        Cache { items: HashMap::new() }
    }

    /// The value stored for an item, if one was stored.
    pub fn stored(&self, key: u64) -> (res: Option<String>)
        ensures
            res == (if self@.contains_key(key) {
                Some(self@[key])
            } else {
                None::<String>
            }),
    {
        match self.items.get(&key) {
            Some(v) => Some(v.clone()),
            None => None,
        }
    }

    /// Stores the value of an item, in place of any earlier one.
    pub fn store(&mut self, key: u64, value: String)
        ensures
            final(self)@ == old(self)@.insert(key, value),
    {
        self.items.insert(key, value);
    }
}

/// The steps of reading or changing an item through the cache. The caller
/// turns stored text into values and back, computes defaults and runs the
/// item's own `get` and `update`; these say what becomes of the cache and
/// which error is reported.
impl Cache {
    /// An item is read from its stored text; only when none is stored is
    /// its default computed.
    pub fn needs_default(&self, key: u64) -> (res: bool)
        ensures
            res == !self@.contains_key(key),
    {
        !self.items.contains_key(&key)
    }

    /// The default of an absent item, as text, is stored; a failure to
    /// compute it is reported as `DefaultValueFailed` of the item and
    /// leaves the cache as it was.
    pub fn settle_default(&mut self, key: u64, item: &str, default: Result<String, ()>) -> (res: Result<(), CacheError>)
        ensures
            match default {
                Ok(t) => res is Ok && final(self)@ == old(self)@.insert(key, t),
                Err(_) => (res matches Err(CacheError::DefaultValueFailed(n)) && n@ == item@)
                    && final(self)@ == old(self)@,
            },
    {
        match default {
            Ok(t) => {
                self.items.insert(key, t);
                Ok(())
            },
            Err(_) => Err(CacheError::DefaultValueFailed(string_of(item))),
        }
    }

    /// The result of an item's own `get`: a failure is reported as
    /// `GetFailed` of the item's value type.
    pub fn settle_get<T, E>(value_type: &str, got: Result<T, E>) -> (res: Result<T, CacheError>)
        ensures
            match got {
                Ok(v) => res == Ok::<T, CacheError>(v),
                Err(_) => res matches Err(CacheError::GetFailed(n)) && n@ == value_type@,
            },
    {
        match got {
            Ok(v) => Ok(v),
            Err(_) => Err(CacheError::GetFailed(string_of(value_type))),
        }
    }

    /// The result of an item's own `update`, as the text of the changed
    /// whole value: it is stored; a failure is reported as `UpdateFailed` of
    /// the item's value type and leaves the stored value as it was.
    pub fn settle_update<E>(&mut self, key: u64, value_type: &str, updated: Result<String, E>) -> (res: Result<(), CacheError>)
        ensures
            match updated {
                Ok(t) => res is Ok && final(self)@ == old(self)@.insert(key, t),
                Err(_) => (res matches Err(CacheError::UpdateFailed(n)) && n@ == value_type@)
                    && final(self)@ == old(self)@,
            },
    {
        match updated {
            Ok(t) => {
                self.items.insert(key, t);
                Ok(())
            },
            Err(_) => Err(CacheError::UpdateFailed(string_of(value_type))),
        }
    }
}

impl Default for Cache {
    fn default() -> (res: Cache)
        ensures
            res@ == Map::<u64, String>::empty(),
    {
        Cache::new()
    }
}

/// What the cache gives back for an item is what was last stored for it;
/// storing one item leaves every other as it was.
pub proof fn stored_value_is_read_back(c: Cache, key: u64, value: String, other: u64)
    requires
        other != key,
    ensures
        c@.insert(key, value).contains_key(key),
        c@.insert(key, value)[key] == value,
        c@.insert(key, value).contains_key(other) == c@.contains_key(other),
        c@.contains_key(other) ==> c@.insert(key, value)[other] == c@[other],
{
}

} // verus!
