use std::collections::HashMap;
use oreo::cache::color_role::{RoleColor, RoleName};
use oreo::cache::custom_role::CustomRole;
use oreo::cache::impersonate::Impersonation;
use oreo::cache::newsinchat::NewsInChat;
use oreo::cache::user_settings::{SettingsData, SettingsDataUpdate, SettingsWrite, UserSettings};
use oreo::cache::Cache;
use oreo::color::Color;
use oreo::embed::{self, ButtonStyle, EmbedStatus, DEFAULT_ICON_URL};
use oreo::error::{AnyError, StarboardError};
use oreo::features::{is_announcement, is_chat_copy, repost, star, star_confirmation, star_destination, NewsRelay, StarAction};
use oreo::ids::{ChannelId, MessageId, RoleId, UserId};
use oreo::nci;
use oreo::nci::roles::{first_color_role, is_color_role, can_log, BOTS, MEMBERS, OVERRIDES, EVERYONE};
use oreo::settings::{role_color_default, role_name_default, role_to_edit, Settings, ROLE_COLOR};

#[test]
fn announcements_ping_everyone_in_the_news() {
    let news = ChannelId(nci::channels::NEWS);
    assert!(is_announcement(news, "hello @everyone"));
    assert!(is_announcement(news, "@here now"));
    assert!(!is_announcement(news, "hello all"));
    assert!(!is_announcement(ChannelId(nci::channels::CHAT), "@everyone"));
    assert!(is_chat_copy(ChannelId(nci::channels::CHAT), true));
    assert!(!is_chat_copy(ChannelId(nci::channels::CHAT), false));
}

#[test]
fn a_copy_pairs_with_the_last_announcement() {
    let mut relay: NewsRelay<u64> = NewsRelay::new();
    assert_eq!(relay.on_chat_copy(), None);
    relay.on_announcement(1);
    relay.on_announcement(2);
    assert_eq!(relay.on_chat_copy(), Some(2));
    assert_eq!(relay.on_chat_copy(), None);
}

#[test]
fn starring_decisions() {
    assert!(matches!(star(MessageId(4), None), Err(StarboardError::MessageNotInDatabase(MessageId(4)))));
    assert_eq!(star(MessageId(4), Some(None)).ok(), Some(StarAction::Pin));
    assert_eq!(star(MessageId(4), Some(Some(true))).ok(), Some(StarAction::Restore));
    assert_eq!(star(MessageId(4), Some(Some(false))).ok(), Some(StarAction::Nothing));
    assert_eq!(star_destination(), ChannelId(nci::channels::STARRED));
}

#[test]
fn star_twice_does_nothing_on_concrete_values() {
    // after a first star the pin exists and is not removed
    assert_eq!(star(MessageId(4), Some(None)).ok(), Some(StarAction::Pin));
    assert_eq!(star(MessageId(4), Some(Some(false))).ok(), Some(StarAction::Nothing));
}

#[test]
fn star_confirmation_follows_the_setting() {
    assert!(star_confirmation(SettingsData { pin_confirm: false }).is_none());
    let r = star_confirmation(SettingsData { pin_confirm: true }).unwrap();
    assert_eq!(r.title, "Starboard > Success");
    assert_eq!(r.description.as_deref(), Some("Message has been starred"));
}

#[test]
fn impersonated_messages_are_reposted() {
    assert!(repost(None, ChannelId(3)).is_none());
    let r = repost(Some(UserId(9)), ChannelId(3)).unwrap();
    assert_eq!(r.as_user, UserId(9));
    assert_eq!(r.channel, ChannelId(3));
    assert!(r.ping && !r.jump_button);
}

#[test]
fn cache_reads_back_what_was_stored() {
    let mut c = Cache::new();
    assert_eq!(c.stored(1), None);
    c.store(1, "{}".to_string());
    c.store(2, "[]".to_string());
    c.store(1, "{\"a\":1}".to_string());
    assert_eq!(c.stored(1).as_deref(), Some("{\"a\":1}"));
    assert_eq!(c.stored(2).as_deref(), Some("[]"));
}

#[test]
fn impersonation_update_then_get_on_concrete_values() {
    let mut m: HashMap<u64, Option<u64>> = HashMap::new();
    assert_eq!(Impersonation::get(&m, UserId(1)), None);
    Impersonation::update(&mut m, UserId(1), Some(UserId(2)));
    assert_eq!(Impersonation::get(&m, UserId(1)), Some(UserId(2)));
    Impersonation::update(&mut m, UserId(1), None);
    assert_eq!(Impersonation::get(&m, UserId(1)), None);
}

#[test]
fn role_cache_update_then_get() {
    let mut colors: HashMap<u64, Color> = HashMap::new();
    RoleColor::update(&mut colors, UserId(1), Color { r: 1, g: 2, b: 3 });
    assert_eq!(RoleColor::get(&colors, UserId(1)), Some(Color { r: 1, g: 2, b: 3 }));
    assert_eq!(RoleColor::get(&colors, UserId(2)), None);
    let mut names: HashMap<u64, String> = HashMap::new();
    RoleName::update(&mut names, UserId(1), "Blue".to_string());
    assert_eq!(RoleName::get(&names, UserId(1)).as_deref(), Some("Blue"));
}

#[test]
fn cache_loaders_read_database_rows() {
    let colors = RoleColor::default_from_rows(&vec![
        ("1".to_string(), "#010203".to_string()),
        ("2".to_string(), "#0a0b0c".to_string()),
        ("1".to_string(), "#ffffff".to_string()),
    ]);
    assert_eq!(colors.len(), 2);
    assert_eq!(colors[&1], Color { r: 255, g: 255, b: 255 });
    let names = RoleName::default_from_rows(&vec![
        (false, "1".to_string(), "A".to_string()),
        (true, "2".to_string(), "B".to_string()),
    ]);
    assert_eq!(names.len(), 1);
    assert_eq!(names[&1], "A");
    assert_eq!(CustomRole::default_from_rows(&vec!["5".to_string(), "6".to_string()]), vec![RoleId(5), RoleId(6)]);
    let settings = UserSettings::default_from_rows(&vec![("3".to_string(), false)]);
    assert_eq!(settings[&3], SettingsData { pin_confirm: false });
    let copies = NewsInChat::default_from_rows(&vec![("10".to_string(), "20".to_string())]);
    assert_eq!(NewsInChat::get(&copies, MessageId(10)), Some(MessageId(20)));
}

#[test]
fn custom_roles_append() {
    let mut v = vec![RoleId(1)];
    CustomRole::update(&mut v, RoleId(2));
    assert_eq!(CustomRole::get(&v), vec![RoleId(1), RoleId(2)]);
}

#[test]
fn news_copy_read_back_on_concrete_values() {
    let mut m: HashMap<u64, u64> = HashMap::new();
    NewsInChat::update(&mut m, MessageId(1), MessageId(2));
    NewsInChat::update(&mut m, MessageId(3), MessageId(4));
    assert_eq!(NewsInChat::get(&m, MessageId(1)), Some(MessageId(2)));
    assert_eq!(NewsInChat::get(&m, MessageId(5)), None);
}

#[test]
fn user_settings_default_update_and_write() {
    let mut m: HashMap<u64, SettingsData> = HashMap::new();
    assert_eq!(UserSettings::get(&m, UserId(1)), SettingsData::default());
    assert_eq!(SettingsData::default(), SettingsData { pin_confirm: true });
    assert_eq!(
        UserSettings::write_for(&m, UserId(1), SettingsDataUpdate::PinConfirm(false)),
        SettingsWrite::Create(SettingsData { pin_confirm: false })
    );
    UserSettings::update(&mut m, UserId(1), SettingsDataUpdate::PinConfirm(false));
    assert_eq!(UserSettings::get(&m, UserId(1)), SettingsData { pin_confirm: false });
    assert_eq!(
        UserSettings::write_for(&m, UserId(1), SettingsDataUpdate::PinConfirm(true)),
        SettingsWrite::Update(SettingsData { pin_confirm: true })
    );
    assert_eq!(UserSettings::get(&m, UserId(2)), SettingsData { pin_confirm: true });
}

#[test]
fn stored_settings_read_back() {
    let mut s = Settings::new();
    assert_eq!(s.get_guild(1), None);
    s.set_guild(1, "true".to_string());
    assert_eq!(s.get_guild(1).as_deref(), Some("true"));
    s.set_user(ROLE_COLOR, UserId(5), "\"#fff\"".to_string());
    s.set_user(ROLE_COLOR, UserId(6), "\"#000\"".to_string());
    assert_eq!(s.get_user(ROLE_COLOR, UserId(5)).as_deref(), Some("\"#fff\""));
    assert_eq!(s.get_user(ROLE_COLOR + 1, UserId(5)), None);
    assert_eq!(s.get_user(ROLE_COLOR, UserId(7)), None);
}

#[test]
fn changed_role_settings_edit_the_first_base_role() {
    assert_eq!(role_to_edit(&vec![RoleId(4), RoleId(MEMBERS), RoleId(OVERRIDES)]).ok(), Some(RoleId(MEMBERS)));
    assert_eq!(role_to_edit(&vec![RoleId(BOTS)]).ok(), Some(RoleId(BOTS)));
    match role_to_edit(&vec![RoleId(4)]) {
        Err(AnyError::Anyhow(m)) => assert_eq!(m, "User has no color role"),
        _ => panic!("expected an error"),
    }
}

#[test]
fn role_setting_defaults() {
    assert_eq!(role_color_default(UserId(1), &Some("#102030".to_string())).ok(), Some(Color { r: 16, g: 32, b: 48 }));
    match role_color_default(UserId(1), &None) {
        Err(AnyError::Anyhow(m)) => assert_eq!(m, "no color role found for user 1"),
        _ => panic!("expected an error"),
    }
    match role_color_default(UserId(1), &Some("#1".to_string())) {
        Err(AnyError::Anyhow(m)) => assert_eq!(m, "Problem parsing hex"),
        _ => panic!("expected the hex error"),
    }
    assert_eq!(role_name_default(&Some("Blue".to_string())).ok().as_deref(), Some("Blue"));
    assert!(matches!(role_name_default(&None), Err(AnyError::Anyhow(_))));
}

#[test]
fn color_roles_can_be_logged_on_concrete_values() {
    assert!(is_color_role(RoleId(4)) && can_log(RoleId(4)));
    assert!(!is_color_role(RoleId(EVERYONE)) && !can_log(RoleId(EVERYONE)));
    assert_eq!(first_color_role(&vec![RoleId(MEMBERS), RoleId(4), RoleId(5)]), Some(RoleId(4)));
    assert_eq!(first_color_role(&vec![RoleId(MEMBERS)]), None);
}

#[test]
fn embed_bases() {
    let b = embed::default(None, EmbedStatus::Warning);
    assert_eq!(b.colour, 0xb29203);
    assert_eq!(b.footer_text, "OreoBot");
    assert_eq!(b.icon_url, DEFAULT_ICON_URL);
    let b = embed::serenity_default(Some("https://x/y.png".to_string()), EmbedStatus::Error);
    assert_eq!(b.colour, 0xbf243b);
    assert_eq!(b.icon_url, "https://x/y.png");
    assert_eq!(EmbedStatus::Sucess.rgb(), (43, 45, 49));
}

#[test]
fn share_buttons_and_rows() {
    let b = embed::button(true);
    assert_eq!(b.custom_id.as_deref(), Some("oreo_share"));
    assert_eq!(b.label, "Share");
    assert_eq!(b.style, ButtonStyle::Secondary);
    assert!(b.disabled);
    let u = embed::unshare_button();
    assert_eq!(u.custom_id.as_deref(), Some("oreo_unshare"));
    assert_eq!(u.style, ButtonStyle::Danger);
    assert_eq!(embed::row(false).len(), 1);
    assert_eq!(embed::unshare_row()[0].label, "Unshare");
    let l = embed::loading("wait");
    assert_eq!(l.status, EmbedStatus::Warning);
    assert_eq!(l.title, "Loading");
}

#[test]
fn default_role_is_named_after_the_member() {
    let r = embed::default_role("alice");
    assert_eq!(r.name, "alice");
    assert_eq!(r.colour, 0x2b2d31);
}
