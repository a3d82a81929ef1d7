//! Each member's settings.
use vstd::prelude::*;
use std::collections::HashMap;
use crate::cache::CacheItem;
use crate::ids::UserId;
use crate::dec::{parse_u64, u64_from_dec_str};

verus! {

broadcast use vstd::std_specs::hash::group_hash_axioms;

#[derive(Debug, Clone, Copy, PartialEq, Eq, Structural, Hash)]
pub struct SettingsData {
    pub pin_confirm: bool,
}

impl Default for SettingsData {
    /// A member who never changed a setting is asked to confirm pins.
    fn default() -> (res: SettingsData)
        ensures
            res == (SettingsData { pin_confirm: true }),
    {
        SettingsData { pin_confirm: true }
    }
}

/// A change to one setting.
#[derive(Debug, Clone, Copy, PartialEq, Eq, Structural)]
pub enum SettingsDataUpdate {
    PinConfirm(bool),
}

/// The database write that records a change of settings.
#[derive(Debug, Clone, Copy, PartialEq, Eq, Structural)]
pub enum SettingsWrite {
    /// The member has a settings row: update it to these settings.
    Update(SettingsData),
    /// The member has none yet: create it with these settings.
    Create(SettingsData),
}

pub struct UserSettings;

impl CacheItem for UserSettings {
    open spec fn spec_key() -> u64 {
        6
    }

    fn key() -> (k: u64) {
        6
    }
}

/// The settings of a member, the defaults when none are cached.
pub open spec fn spec_settings(value: Map<u64, SettingsData>, key: UserId) -> SettingsData {
    if value.contains_key(key.0) {
        value[key.0]
    } else {
        SettingsData { pin_confirm: true }
    }
}

/// The settings of a member once a change is applied to them.
pub open spec fn spec_changed(value: Map<u64, SettingsData>, key: UserId, to: SettingsDataUpdate) -> SettingsData {
    match to {
        SettingsDataUpdate::PinConfirm(b) => SettingsData { pin_confirm: b },
    }
}

/// The settings that the database's rows give, by member; a later row wins.
pub open spec fn settings_of_rows(rows: Seq<(String, bool)>) -> Map<u64, SettingsData>
    decreases rows.len(),
{
    if rows.len() == 0 {
        Map::empty()
    } else {
        settings_of_rows(rows.drop_last()).insert(
            u64_from_dec_str(rows.last().0@)->0,
            SettingsData { pin_confirm: rows.last().1 },
        )
    }
}

impl UserSettings {
    /// The cache's first value, from the database's rows of settings: the
    /// member's number (which must be one: the loader stops the program
    /// otherwise) and the pin confirmation flag.
    pub fn default_from_rows(rows: &Vec<(String, bool)>) -> (res: HashMap<u64, SettingsData>)
        requires
            forall|i: int| 0 <= i < rows@.len() ==> u64_from_dec_str(#[trigger] rows@[i].0@) is Some,
        ensures
            res@ == settings_of_rows(rows@),
    {
        let mut m: HashMap<u64, SettingsData> = HashMap::new();
        let mut i: usize = 0;
        assert(settings_of_rows(rows@.subrange(0, 0)) =~= Map::<u64, SettingsData>::empty());
        while i < rows.len()
            invariant
                i <= rows@.len(),
                forall|j: int| 0 <= j < rows@.len() ==> u64_from_dec_str(#[trigger] rows@[j].0@) is Some,
                m@ == settings_of_rows(rows@.subrange(0, i as int)),
            decreases rows@.len() - i,
        {
            assert(rows@.subrange(0, i + 1).drop_last() =~= rows@.subrange(0, i as int));
            let (uid, pin) = &rows[i];
            assert(u64_from_dec_str(rows@[i as int].0@) is Some);
            let id = match parse_u64(uid.as_str()) {
                Some(v) => v,
                None => 0,
            };
            m.insert(id, SettingsData { pin_confirm: *pin });
            i = i + 1;
        }
        assert(rows@.subrange(0, rows@.len() as int) =~= rows@);
        m
    }

    pub fn get(value: &HashMap<u64, SettingsData>, key: UserId) -> (res: SettingsData)
        ensures
            res == spec_settings(value@, key),
    {
        match value.get(&key.0) {
            Some(d) => *d,
            None => SettingsData { pin_confirm: true },
        }
    }

    /// Which database write records the change, and with what settings.
    pub fn write_for(value: &HashMap<u64, SettingsData>, key: UserId, to: SettingsDataUpdate) -> (res: SettingsWrite)
        ensures
            res == (if value@.contains_key(key.0) {
                SettingsWrite::Update(spec_changed(value@, key, to))
            } else {
                SettingsWrite::Create(spec_changed(value@, key, to))
            }),
    {
        let data = match to {
            SettingsDataUpdate::PinConfirm(b) => SettingsData { pin_confirm: b },
        };
        if value.contains_key(&key.0) {
            SettingsWrite::Update(data)
        } else {
            SettingsWrite::Create(data)
        }
    }

    /// Applies a change to the cached settings of a member.
    pub fn update(current_value: &mut HashMap<u64, SettingsData>, key: UserId, to: SettingsDataUpdate)
        ensures
            final(current_value)@ == old(current_value)@.insert(key.0, spec_changed(old(current_value)@, key, to)),
    {
        let data = match to {
            SettingsDataUpdate::PinConfirm(b) => SettingsData { pin_confirm: b },
        };
        current_value.insert(key.0, data);
    }
}

/// After a change, a member's settings are the changed ones, and no other
/// member's settings move.
pub proof fn settings_update_then_get(value: Map<u64, SettingsData>, key: UserId, to: SettingsDataUpdate, other: UserId)
    requires
        other.0 != key.0,
    ensures
        spec_settings(value.insert(key.0, spec_changed(value, key, to)), key) == spec_changed(value, key, to),
        spec_settings(value.insert(key.0, spec_changed(value, key, to)), other) == spec_settings(value, other),
{
}

} // verus!
