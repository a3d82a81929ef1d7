use oreo::color::Color;
use oreo::commands::chat::{impersonate, jump_to_chat, jump_to_chat_channel, star, CACHE_MSG_NOT_FOUND, BOO_REPLY};
use oreo::commands::failure::handle;
use oreo::commands::role::{add_check, add_reply, color_role, edit, new_role};
use oreo::commands::server::{chernobyl, is_admin, is_share_press, is_unshare_press, ping, unshare, GuildSnapshot};
use oreo::commands::settings::{
    is_setting_name_pick, is_setting_value_pick, setting_name_picked, setting_value_id, setting_value_picked,
    settings, UserSetting,
};
use oreo::cache::user_settings::SettingsDataUpdate;
use oreo::embed::{ButtonStyle, EmbedStatus, Reply};
use oreo::error::{CommandError, PrismaError};
use oreo::ids::{ChannelId, MessageId, RoleId, UserId};
use oreo::nci;

fn fields(r: &Reply) -> Vec<(String, String)> {
    r.fields.iter().map(|f| (f.name.clone(), f.value.clone())).collect()
}

fn runtime_error(e: &CommandError) -> Option<(String, String)> {
    match e {
        CommandError::RuntimeError { title, description } => Some((title.clone(), description.clone())),
        _ => None,
    }
}

fn runtime_warning(e: &CommandError) -> Option<(String, String)> {
    match e {
        CommandError::RuntimeWarning { title, description } => Some((title.clone(), description.clone())),
        _ => None,
    }
}

#[test]
fn jump_to_chat_refuses_other_channels() {
    let e = jump_to_chat(ChannelId(nci::channels::CHAT), Some(MessageId(1))).err().unwrap();
    assert_eq!(
        runtime_error(&e),
        Some((
            "Wrong channel".to_string(),
            "This context menu command can only be used in the news channel".to_string()
        ))
    );
    assert!(jump_to_chat_channel(ChannelId(nci::channels::NEWS)).is_ok());
    assert!(jump_to_chat_channel(ChannelId(1)).is_err());
}

#[test]
fn jump_to_chat_warns_when_no_copy_is_known() {
    let e = jump_to_chat(ChannelId(nci::channels::NEWS), None).err().unwrap();
    let (t, d) = runtime_warning(&e).unwrap();
    assert_eq!(t, "Message not in cache");
    assert_eq!(d, CACHE_MSG_NOT_FOUND);
    assert!(d.starts_with("\nThis message does not seem to be in the cache. \n"));
}

#[test]
fn jump_to_chat_links_to_the_copy() {
    let j = jump_to_chat(ChannelId(nci::channels::NEWS), Some(MessageId(42))).ok().unwrap();
    assert_eq!(
        j.link.url.as_deref(),
        Some("https://discordapp.com/channels/803315311663251537/1014256055330549842/42")
    );
    assert_eq!(j.link.label, "Jump to Chat");
    assert_eq!(j.link.style, ButtonStyle::Link);
    assert_eq!(j.reply.status, EmbedStatus::Sucess);
    assert_eq!(j.reply.title, "Jump to Chat > Link");
    assert_eq!(
        j.reply.description.as_deref(),
        Some("Sorry, you have to click two buttons :(\n Discord should add context menu links.")
    );
}

#[test]
fn star_refuses_the_starred_channel() {
    let e = star(ChannelId(nci::channels::STARRED)).err().unwrap();
    assert_eq!(
        runtime_error(&e),
        Some(("Cannot star".to_string(), "Cannot star a message that is in the starred channel".to_string()))
    );
    assert!(star(ChannelId(nci::channels::CHAT)).is_ok());
}

#[test]
fn impersonate_refuses_bots() {
    let e = impersonate(UserId(1), UserId(2), true, "bot#0001").err().unwrap();
    assert_eq!(runtime_error(&e).unwrap().0, "Bots");
}

#[test]
fn impersonating_yourself_stops() {
    let i = impersonate(UserId(1), UserId(1), false, "me#0001").ok().unwrap();
    assert_eq!(i.speak_as, None);
    assert_eq!(i.reply.title, "Impersonate > Set > Stop");
    assert_eq!(i.reply.description.as_deref(), Some("Sucessfully stopped your impersonation"));
}

#[test]
fn impersonating_another_member() {
    let i = impersonate(UserId(1), UserId(2), false, "you#0002").ok().unwrap();
    assert_eq!(i.speak_as, Some(UserId(2)));
    assert_eq!(i.reply.title, "Impersonate > Set > you#0002");
    assert_eq!(i.reply.description.as_deref(), Some("Sucessfully set your impersonation to `you#0002`"));
}

#[test]
fn boo_reply_text() {
    assert!(BOO_REPLY.starts_with("wooooooow."));
}

fn guild() -> GuildSnapshot {
    GuildSnapshot {
        owner: UserId(7),
        channels: vec![ChannelId(1), ChannelId(2), ChannelId(3)],
        members: vec![UserId(7), UserId(8)],
        roles: vec![RoleId(10), RoleId(11)],
    }
}

#[test]
fn chernobyl_needs_the_phrase() {
    let e = chernobyl("yes", &Some(guild()), UserId(7), ChannelId(2)).err().unwrap();
    assert_eq!(
        runtime_warning(&e),
        Some(("Sanity".to_string(), "The sanity check didn't work. DM angad for it".to_string()))
    );
}

#[test]
fn chernobyl_phrase_in_any_case_needs_a_server() {
    let e = chernobyl("YES, IM REALLY SURE", &None, UserId(7), ChannelId(2)).err().unwrap();
    assert!(matches!(e, CommandError::NotInGuild));
}

#[test]
fn chernobyl_needs_the_owner() {
    let e = chernobyl("yes, im really sure", &Some(guild()), UserId(8), ChannelId(2)).err().unwrap();
    assert_eq!(
        runtime_error(&e),
        Some(("Ownership".to_string(), "You aren't the server owner".to_string()))
    );
}

#[test]
fn chernobyl_spares_author_and_channel_on_concrete_values() {
    let w = chernobyl("Yes, Im Really Sure", &Some(guild()), UserId(7), ChannelId(2)).ok().unwrap();
    assert_eq!(w.channels, vec![ChannelId(1), ChannelId(3)]);
    assert_eq!(w.members, vec![UserId(8)]);
    assert_eq!(w.roles, vec![RoleId(10), RoleId(11)]);
}

#[test]
fn color_role_for_another_member_needs_an_admin() {
    let e = color_role(UserId(1), false, Some(UserId(2)), None, None).err().unwrap();
    assert_eq!(
        runtime_error(&e),
        Some(("Admin".to_string(), "You must be an admin to change other users' roles".to_string()))
    );
}

#[test]
fn color_role_admin_check_is_on_the_author() {
    // a non-admin author naming another member is refused, whoever that member is
    assert!(color_role(UserId(1), false, Some(UserId(2)), None, None).is_err());
    // naming oneself needs no admin
    let c = color_role(UserId(1), false, Some(UserId(1)), None, None).ok().unwrap();
    assert_eq!(c.user, UserId(1));
}

#[test]
fn color_role_fields_follow_the_changes() {
    let c = color_role(UserId(1), false, None, Some("Blue".to_string()), Some(Color { r: 0x11, g: 0x22, b: 0x33 }))
        .ok()
        .unwrap();
    assert_eq!(c.user, UserId(1));
    assert_eq!(c.reply.title, "Role > Set");
    assert_eq!(c.reply.description.as_deref(), Some("Sucessfully updated your role"));
    assert_eq!(
        fields(&c.reply),
        vec![("Name".to_string(), "Blue".to_string()), ("Color".to_string(), "#112233".to_string())]
    );
    let c = color_role(UserId(1), true, Some(UserId(2)), None, None).ok().unwrap();
    assert_eq!(c.user, UserId(2));
    assert!(c.reply.fields.is_empty());
}

#[test]
fn edit_checks_admin_then_server() {
    let e = edit(false, false, RoleId(5), false, &None, None, None, None).err().unwrap();
    assert_eq!(runtime_error(&e).unwrap().1, "This is an admin-only command");
    let e = edit(true, false, RoleId(5), false, &None, None, None, None).err().unwrap();
    assert!(matches!(e, CommandError::NotInGuild));
}

#[test]
fn edit_confirmation_lists_every_change() {
    let r = edit(
        true,
        true,
        RoleId(5),
        true,
        &Some("New".to_string()),
        Some(Color { r: 0xab, g: 0xcd, b: 0xef }),
        Some(UserId(8)),
        Some(UserId(9)),
    )
    .ok()
    .unwrap();
    assert_eq!(r.colour, Some(0xabcdef));
    assert_eq!(r.reply.title, "Role > Manage");
    assert_eq!(r.reply.description.as_deref(), Some("Sucessfully updated role <@&5>"));
    assert_eq!(
        fields(&r.reply),
        vec![
            ("Name".to_string(), "New".to_string()),
            ("Color".to_string(), "#abcdef".to_string()),
            ("Added to".to_string(), "<@8>".to_string()),
            ("Removed from".to_string(), "<@9>".to_string()),
        ]
    );
}

#[test]
fn add_checks_server_then_admin() {
    assert!(matches!(add_check(false, false), Err(CommandError::NotInGuild)));
    assert_eq!(runtime_error(&add_check(true, false).err().unwrap()).unwrap().0, "Admin");
    assert!(add_check(true, true).is_ok());
}

#[test]
fn add_creates_and_confirms() {
    let role = new_role("Team", Color { r: 1, g: 2, b: 3 });
    assert_eq!(role.name, "Team");
    assert_eq!(role.colour, 0x010203);
    assert!(!role.mentionable);
    assert_eq!(role.position, 255);
    let r = add_reply(RoleId(77), "Team", Color { r: 0x10, g: 0x20, b: 0x30 });
    assert_eq!(r.title, "Role > Create");
    assert_eq!(r.description.as_deref(), Some("Successfully created a new role: <@&77>"));
    assert_eq!(
        fields(&r),
        vec![("Name".to_string(), "Team".to_string()), ("Color".to_string(), "#102030".to_string())]
    );
}

#[test]
fn ping_reports_both_latencies() {
    let r = ping(1000, 1250, Some(80));
    assert_eq!(r.title, "The bot is up and running!");
    assert_eq!(r.description, None);
    assert_eq!(
        fields(&r),
        vec![("Latency".to_string(), "250ms".to_string()), ("API Ping".to_string(), "80ms".to_string())]
    );
    let r = ping(1000, 990, None);
    assert_eq!(
        fields(&r),
        vec![
            ("Latency".to_string(), "-10ms".to_string()),
            ("API Ping".to_string(), "Could not get API latency".to_string())
        ]
    );
}

#[test]
fn share_buttons_are_recognised() {
    assert!(is_share_press("oreo_share"));
    assert!(!is_share_press("oreo_unshare"));
    assert!(is_unshare_press("oreo_unshare"));
}

#[test]
fn only_admins_unshare() {
    let u = unshare(false);
    assert!(!u.delete_message);
    assert_eq!(u.reply.status, EmbedStatus::Warning);
    assert_eq!(u.reply.title, "Not Admin");
    let u = unshare(true);
    assert!(u.delete_message);
    assert_eq!(u.reply.description.as_deref(), Some("Message sucessfully unsahred"));
}

#[test]
fn is_admin_reads_the_record() {
    assert_eq!(is_admin(UserId(3), Some(true)).ok(), Some(true));
    match is_admin(UserId(3), None) {
        Err(PrismaError::NotFound(m)) => assert_eq!(m, "user with id 3"),
        _ => panic!("expected not found"),
    }
}

#[test]
fn settings_menu() {
    let m = settings();
    assert_eq!(m.custom_id, "oreo_setting_name");
    assert_eq!(m.placeholder, "Select a setting to change");
    assert_eq!((m.min_values, m.max_values), (1, 1));
    assert_eq!(m.reply.title, "Settings");
    assert!(is_setting_name_pick("oreo_setting_name"));
    assert!(is_setting_value_pick("oreo_setting_value_PinConfirm"));
    assert!(!is_setting_value_pick("oreo_setting_name"));
    assert_eq!(UserSetting::PinConfirm.label(), "Pin Confirmation");
    assert_eq!(UserSetting::from_str("PinConfirm"), Some(UserSetting::PinConfirm));
    assert_eq!(UserSetting::from_str("Other"), None);
}

#[test]
fn picking_a_setting_opens_its_values() {
    let p = setting_name_picked(&vec!["PinConfirm".to_string()]).unwrap();
    assert_eq!(p.setting, UserSetting::PinConfirm);
    assert_eq!(p.value_menu_id, "oreo_setting_value_PinConfirm");
    assert_eq!(p.reply.description.as_deref(), Some("Change value of setting"));
    assert!(setting_name_picked(&vec!["Nope".to_string()]).is_none());
}

#[test]
fn value_menu_id_round_trip_on_concrete_values() {
    let id = setting_value_id("PinConfirm");
    assert_eq!(
        setting_value_picked(&id, &vec!["false".to_string()]),
        Some(SettingsDataUpdate::PinConfirm(false))
    );
    assert_eq!(
        setting_value_picked("oreo_setting_value_oreo_setting_value_PinConfirm", &vec!["true".to_string()]),
        Some(SettingsDataUpdate::PinConfirm(true))
    );
    assert_eq!(setting_value_picked(&id, &vec!["maybe".to_string()]), None);
    assert_eq!(setting_value_picked("oreo_setting_value_X", &vec!["true".to_string()]), None);
}

#[test]
fn failure_reply_for_a_warning() {
    let e = CommandError::RuntimeWarning { title: "Sanity".to_string(), description: "bad".to_string() };
    let r = handle("chernobyl", true, &e);
    assert_eq!(r.status, EmbedStatus::Warning);
    assert_eq!(r.title, "chernobyl > Warning > Sanity");
    assert_eq!(
        r.description.as_deref(),
        Some("Warning in command `/chernobyl`:\nbad\n\nDon't worry, this warning has been appropriately handled and the bot will continue to function normally")
    );
    let r = handle("News to Chat", false, &e);
    assert!(r.description.unwrap().starts_with("Warning in command `News to Chat`"));
}

#[test]
fn failure_reply_for_an_error() {
    let e = CommandError::RuntimeError { title: "Admin".to_string(), description: "no".to_string() };
    let r = handle("color_role", true, &e);
    assert_eq!(r.status, EmbedStatus::Error);
    assert_eq!(r.title, "Color Role > Error > Admin");
    assert_eq!(
        r.description.as_deref(),
        Some("Error in command `/color_role`:\nno\n\nDon't worry, this error has been appropriately handled and the bot will continue to function normally")
    );
}

#[test]
fn failure_reply_for_any_other_error() {
    let r = handle("edit", true, &CommandError::NotInGuild);
    assert_eq!(r.status, EmbedStatus::Error);
    assert_eq!(r.title, "Edit > Error");
    assert!(r.description.unwrap().starts_with("Error in command `/edit`:\nthis command can only be used in a server\n\n"));
}
