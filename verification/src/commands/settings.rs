//! `/settings`: a menu of the member's settings, then a menu of values for
//! the one picked, then the change.
use vstd::prelude::*;
use crate::cache::user_settings::SettingsDataUpdate;
use crate::embed::{Reply, EmbedStatus};
use crate::text::{chars_of, concat, string_of, text_eq, starts_with, starts_with_exec};

verus! {

/// A setting that a member can change.
#[derive(Debug, Clone, Copy, PartialEq, Eq, Structural, Hash)]
pub enum UserSetting {
    PinConfirm,
}

impl UserSetting {
    pub open spec fn spec_name(self) -> Seq<char> {
        match self {
            UserSetting::PinConfirm => "PinConfirm"@,
        }
    }

    /// The value that stands for the setting in menus and ids.
    pub fn name(self) -> (res: String)
        ensures
            res@ == self.spec_name(),
    {
        match self {
            UserSetting::PinConfirm => string_of("PinConfirm"),
        }
    }

    pub open spec fn spec_label(self) -> Seq<char> {
        match self {
            UserSetting::PinConfirm => "Pin Confirmation"@,
        }
    }

    /// What the menu shows for the setting.
    pub fn label(self) -> (res: String)
        ensures
            res@ == self.spec_label(),
    {
        match self {
            UserSetting::PinConfirm => string_of("Pin Confirmation"),
        }
    }

    /// The setting that a menu value stands for.
    pub fn from_str(value: &str) -> (res: Option<UserSetting>)
        ensures
            value@ == UserSetting::PinConfirm.spec_name() <==> res == Some(UserSetting::PinConfirm),
            value@ != UserSetting::PinConfirm.spec_name() <==> res is None,
    {
        if text_eq(value, "PinConfirm") {
            Some(UserSetting::PinConfirm)
        } else {
            None
        }
    }

    /// Reads the value picked for a yes-or-no setting.
    pub fn parse_as_bool(self, text: &str) -> (res: Option<bool>)
        ensures
            text@ == "true"@ ==> res == Some(true),
            text@ == "false"@ ==> res == Some(false),
            text@ != "true"@ && text@ != "false"@ ==> res is None,
    {
        proof {
            reveal_strlit("true");
            reveal_strlit("false");
            assert("true"@.len() != "false"@.len());
        }
        if text_eq(text, "true") {
            Some(true)
        } else if text_eq(text, "false") {
            Some(false)
        } else {
            None
        }
    }
}

/// The id that the menu of settings sends.
pub const SETTING_NAME_ID: &'static str = "oreo_setting_name";

/// The start of the id that a menu of values sends.
pub const SETTING_VALUE_PREFIX: &'static str = "oreo_setting_value_";

/// The menu of settings: its answer, and the select menu's id and
/// placeholder (one value to pick).
pub struct SettingsMenu {
    pub reply: Reply,
    pub custom_id: String,
    pub placeholder: String,
    pub min_values: u64,
    pub max_values: u64,
}

/// The answer of `/settings`.
pub fn settings() -> (res: SettingsMenu)
    ensures
        res.reply@ == (
            EmbedStatus::Sucess,
            "Settings"@,
            Some("Select a setting to change"@),
            Seq::<(Seq<char>, Seq<char>)>::empty(),
        ),
        res.custom_id@ == SETTING_NAME_ID@,
        res.placeholder@ == "Select a setting to change"@,
        res.min_values == 1,
        res.max_values == 1,
{
    SettingsMenu {
        reply: Reply::new(
            EmbedStatus::Sucess,
            string_of("Settings"),
            Some(string_of("Select a setting to change")),
        ),
        custom_id: string_of(SETTING_NAME_ID),
        placeholder: string_of("Select a setting to change"),
        min_values: 1,
        max_values: 1,
    }
}

/// A pick in the menu of settings.
pub fn is_setting_name_pick(custom_id: &str) -> (res: bool)
    ensures
        res == (custom_id@ == SETTING_NAME_ID@),
{
    text_eq(custom_id, SETTING_NAME_ID)
}

/// A pick in a menu of values.
pub fn is_setting_value_pick(custom_id: &str) -> (res: bool)
    ensures
        res == starts_with(custom_id@, SETTING_VALUE_PREFIX@),
{
    let s = chars_of(custom_id);
    let p = chars_of(SETTING_VALUE_PREFIX);
    starts_with_exec(&s, &p)
}

/// `s` without the copies of `p` that it starts with (`trim_start_matches`).
pub open spec fn trim_prefixes(s: Seq<char>, p: Seq<char>) -> Seq<char>
    decreases s.len(),
{
    if p.len() > 0 && starts_with(s, p) {
        trim_prefixes(s.subrange(p.len() as int, s.len() as int), p)
    } else {
        s
    }
}

fn trim_prefixes_exec(s: &Vec<char>, p: &Vec<char>) -> (res: Vec<char>)
    ensures
        res@ == trim_prefixes(s@, p@),
{
    let mut cur: Vec<char> = s.clone();
    assert(cur@ == s@);
    if p.len() == 0 {
        return cur;
    }
    while starts_with_exec(&cur, p)
        invariant
            p@.len() > 0,
            trim_prefixes(cur@, p@) == trim_prefixes(s@, p@),
        decreases cur@.len(),
    {
        let mut next: Vec<char> = Vec::new();
        let mut i = p.len();
        while i < cur.len()
            invariant
                p@.len() <= i <= cur@.len(),
                next@ == cur@.subrange(p@.len() as int, i as int),
            decreases cur@.len() - i,
        {
            next.push(cur[i]);
            i = i + 1;
        }
        cur = next;
    }
    cur
}

/// The id of the menu of values for a setting.
pub fn setting_value_id(setting: &str) -> (res: String)
    ensures
        res@ == SETTING_VALUE_PREFIX@ + setting@,
{
    concat(SETTING_VALUE_PREFIX, setting)
}

/// The id of a menu of values reads back the setting it was made for,
/// provided the setting's value does not itself start with the prefix.
pub proof fn value_menu_id_round_trip(setting: Seq<char>)
    requires
        !starts_with(setting, SETTING_VALUE_PREFIX@),
    ensures
        picked_setting(SETTING_VALUE_PREFIX@ + setting) == setting,
{
    let p = SETTING_VALUE_PREFIX@;
    reveal_strlit("oreo_setting_value_");
    let s = p + setting;
    assert(s.subrange(0, p.len() as int) =~= p);
    assert(s.subrange(p.len() as int, s.len() as int) =~= setting);
    assert(trim_prefixes(setting, p) == setting);
}

/// The page that a pick in the menu of settings opens: the setting, the id
/// of its menu of values and the answer.
pub struct SettingPage {
    pub setting: UserSetting,
    pub value_menu_id: String,
    pub reply: Reply,
}

/// A pick in the menu of settings, given the values picked (there is at
/// least one); a value that is no setting opens nothing.
pub fn setting_name_picked(values: &Vec<String>) -> (res: Option<SettingPage>)
    requires
        values@.len() > 0,
    ensures
        values@[0]@ == UserSetting::PinConfirm.spec_name() ==> (res matches Some(p)
            && p.setting == UserSetting::PinConfirm
            && p.value_menu_id@ == SETTING_VALUE_PREFIX@ + values@[0]@
            && p.reply@ == (
            EmbedStatus::Sucess,
            "Settings"@,
            Some("Change value of setting"@),
            Seq::<(Seq<char>, Seq<char>)>::empty(),
        )),
        values@[0]@ != UserSetting::PinConfirm.spec_name() ==> res is None,
{
    let value = &values[0];
    let setting = match UserSetting::from_str(value.as_str()) {
        Some(s) => s,
        None => {
            return None;
        },
    };
    let value_menu_id = setting_value_id(value.as_str());
    let reply = Reply::new(
        EmbedStatus::Sucess,
        string_of("Settings"),
        Some(string_of("Change value of setting")),
    );
    Some(SettingPage { setting, value_menu_id, reply })
}

/// The setting that a menu of values is about: its id without the prefix.
pub open spec fn picked_setting(custom_id: Seq<char>) -> Seq<char> {
    trim_prefixes(custom_id, SETTING_VALUE_PREFIX@)
}

/// A pick in the menu of values with id `custom_id`, given the values picked
/// (there is at least one): the change to make, if the id names a setting
/// and the value fits it.
pub fn setting_value_picked(custom_id: &str, values: &Vec<String>) -> (res: Option<SettingsDataUpdate>)
    requires
        values@.len() > 0,
    ensures
        picked_setting(custom_id@) != UserSetting::PinConfirm.spec_name() ==> res is None,
        picked_setting(custom_id@) == UserSetting::PinConfirm.spec_name() ==> (
            (values@[0]@ == "true"@ ==> res == Some(SettingsDataUpdate::PinConfirm(true)))
            && (values@[0]@ == "false"@ ==> res == Some(SettingsDataUpdate::PinConfirm(false)))
            && (values@[0]@ != "true"@ && values@[0]@ != "false"@ ==> res is None)),
{
    let id = chars_of(custom_id);
    let prefix = chars_of(SETTING_VALUE_PREFIX);
    let rest = trim_prefixes_exec(&id, &prefix);
    let mut name = String::new();
    let mut i: usize = 0;
    while i < rest.len()
        invariant
            i <= rest@.len(),
            name@ == rest@.subrange(0, i as int),
        decreases rest@.len() - i,
    {
        crate::text::push_char(&mut name, rest[i]);
        assert(name@ =~= rest@.subrange(0, i + 1));
        i = i + 1;
    }
    assert(rest@.subrange(0, rest@.len() as int) =~= rest@);
    let setting = match UserSetting::from_str(name.as_str()) {
        Some(s) => s,
        None => {
            return None;
        },
    };
    match setting {
        UserSetting::PinConfirm => {
            match setting.parse_as_bool(values[0].as_str()) {
                Some(b) => Some(SettingsDataUpdate::PinConfirm(b)),
                None => None,
            }
        },
    }
}

} // verus!
