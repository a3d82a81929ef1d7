use oreo::cache::Cache;
use oreo::color::Color;
use oreo::colors::hex_to_rgb;
use oreo::embed::ButtonStyle;
use oreo::error::CacheError;
use oreo::ids::{ChannelId, GuildId, MessageId, RoleId, UserId, WebhookId};
use oreo::message::clone::{clone_link_row, message_link, synced_content, truncate_is_defined, CloneLink, MessageRef};
use oreo::string_util::StringUtil;
use oreo::sync::users::{color_role_marks, member_sync, plan_user_sync, ColorRoleSource, DbUser, DiscordMember, UserOp};

#[test]
fn hex_to_rgb_reads_formatted_hex_on_concrete_values() {
    for &(r, g, b) in &[(0u8, 0u8, 0u8), (1, 2, 3), (255, 16, 171)] {
        assert_eq!(hex_to_rgb(&format!("#{:02x}{:02x}{:02x}", r, g, b)), Ok((r, g, b)));
        assert_eq!(hex_to_rgb(&format!("{:02X}{:02X}{:02X}", r, g, b)), Ok((r, g, b)));
    }
}

#[test]
fn from_hex_agrees_with_hex_to_rgb_on_concrete_values() {
    for text in ["#2b2d31", "##0A0b0C", "ffffff"] {
        let (r, g, b) = hex_to_rgb(text).unwrap();
        assert_eq!(Color::from_hex(text).unwrap(), Color { r, g, b });
    }
    assert_eq!(Color::from_hex("#2b2d31").unwrap(), Color { r: 43, g: 45, b: 49 });
}

#[test]
fn display_case_on_ascii_text() {
    assert_eq!("role_color".display_case(), "Role Color");
    assert_eq!(String::from("abc").capitalize_first_letter(), "Abc");
}

#[test]
fn cache_defaults_are_stored() {
    let mut c = Cache::new();
    assert!(c.needs_default(1));
    assert!(c.settle_default(1, "RoleColor", Ok("{}".to_string())).is_ok());
    assert!(!c.needs_default(1));
    assert_eq!(c.stored(1).as_deref(), Some("{}"));
    match c.settle_default(2, "RoleName", Err(())) {
        Err(CacheError::DefaultValueFailed(n)) => assert_eq!(n, "RoleName"),
        _ => panic!("expected a default failure"),
    }
    assert!(c.needs_default(2));
}

#[test]
fn failed_updates_keep_the_entry() {
    let mut c = Cache::new();
    c.store(1, "old".to_string());
    match c.settle_update(1, "HashMap", Err::<String, ()>(())) {
        Err(CacheError::UpdateFailed(n)) => assert_eq!(n, "HashMap"),
        _ => panic!("expected an update failure"),
    }
    assert_eq!(c.stored(1).as_deref(), Some("old"));
    assert!(c.settle_update(1, "HashMap", Ok::<String, ()>("new".to_string())).is_ok());
    assert_eq!(c.stored(1).as_deref(), Some("new"));
    assert_eq!(Cache::settle_get("V", Ok::<u8, ()>(3)).ok(), Some(3));
    assert!(matches!(Cache::settle_get("V", Err::<u8, ()>(())), Err(CacheError::GetFailed(_))));
}

#[test]
fn message_links_and_clone_rows() {
    let original = MessageRef { guild: Some(GuildId(1)), channel: ChannelId(2), id: MessageId(3) };
    let dm = MessageRef { guild: None, channel: ChannelId(4), id: MessageId(5) };
    assert_eq!(message_link(original), "https://discord.com/channels/1/2/3");
    assert_eq!(message_link(dm), "https://discord.com/channels/@me/4/5");
    let row = clone_link_row(true, original, true, Some(dm));
    assert_eq!(row.len(), 2);
    assert_eq!(row[0].label, "Jump to original");
    assert_eq!(row[0].url.as_deref(), Some("https://discord.com/channels/1/2/3"));
    assert_eq!(row[1].label, "Jump to reply");
    assert_eq!(row[1].style, ButtonStyle::Link);
    assert!(clone_link_row(false, original, true, None).is_empty());
    assert_eq!(clone_link_row(false, original, false, Some(dm)).len(), 0);
}

#[test]
fn clones_follow_their_original() {
    let link = CloneLink { clone_id: MessageId(9), original_id: MessageId(3), webhook_id: WebhookId(7) };
    assert!(link.follows(MessageId(3)));
    assert!(!link.follows(MessageId(9)));
    assert_eq!(synced_content("plain", &Some("new".to_string())).as_deref(), Some("new"));
    assert_eq!(synced_content("plain", &None), None);
}

#[test]
fn truncation_definedness() {
    assert!(truncate_is_defined("hello", 3));
    assert!(truncate_is_defined("hi", 50));
    // 'é' takes bytes 1 and 2: cutting after byte 2 keeps "aé", after byte 1 splits it
    assert!(truncate_is_defined("aéb", 3));
    assert!(!truncate_is_defined("aéb", 2));
}

fn member(id: u64, roles: Vec<RoleId>) -> DiscordMember {
    DiscordMember { id: UserId(id), name: "alice".to_string(), nick: None, bot: false, roles }
}

#[test]
fn a_created_color_role_is_written_to_the_record() {
    let m = member(5, vec![RoleId(oreo::nci::roles::MEMBERS)]);
    let plan = plan_user_sync(&vec![member(5, vec![RoleId(oreo::nci::roles::MEMBERS)])], &vec![], &vec![]);
    assert_eq!(plan.members, vec![ColorRoleSource::Create]);
    let step = member_sync(&m, Some(RoleId(77)), &vec![]);
    assert_eq!(step.color_role, RoleId(77));
    match &step.user {
        Some(UserOp::Create { roles, verified, .. }) => {
            assert_eq!(roles, &vec![oreo::nci::roles::MEMBERS.to_string(), "77".to_string()]);
            assert!(*verified);
        }
        _ => panic!("expected a create"),
    }
    let kept = member(6, vec![RoleId(40)]);
    let db = vec![DbUser {
        id: "6".to_string(),
        username: "alice".to_string(),
        nickname: None,
        admin: false,
        verified: false,
        removed: false,
        roles: Some(vec!["40".to_string()]),
    }];
    let step2 = member_sync(&kept, None, &db);
    assert_eq!(step2.color_role, RoleId(40));
    assert!(step2.user.is_none());
    assert_eq!(color_role_marks(&vec![step, step2]), vec![RoleId(77), RoleId(40)]);
}
