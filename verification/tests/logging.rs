use oreo::error::LoggingError;
use oreo::ids::{ChannelId, MessageId, RoleId, UserId};
use oreo::logging::{
    absorb_thread, channel_create, channel_update, deleted_role_action, deleted_role_owner, edited_content,
    interaction_reusable, join_roles, member_leave, member_update, message_create, message_delete, role_record,
    role_update, stale_attachments, MemberLogError, RoleDeleteAction, StoredFlags,
};
use oreo::nci::roles::{BOOSTER, BOTS, MEMBERS, OVERRIDES};
use oreo::sync::channels::{ChannelKind, ChannelOp, DbChannelType, DiscordChannel, ParentChange};

fn channel(kind: ChannelKind, thread: bool) -> DiscordChannel {
    DiscordChannel {
        id: ChannelId(5),
        name: "general".to_string(),
        topic: Some("talk".to_string()),
        nsfw: false,
        kind,
        parent_id: Some(ChannelId(9)),
        is_thread: thread,
    }
}

#[test]
fn threads_are_refused_and_then_absorbed() {
    let r = channel_create(&channel(ChannelKind::Text, true));
    assert!(matches!(r, Err(LoggingError::ChannelIsThread(ChannelId(5)))));
    assert!(matches!(channel_update(&channel(ChannelKind::Text, true)), Err(LoggingError::ChannelIsThread(_))));
    assert!(absorb_thread(Err(LoggingError::ChannelIsThread(ChannelId(5)))).is_ok());
    assert!(matches!(absorb_thread(Err(LoggingError::NciNotFound)), Err(LoggingError::NciNotFound)));
}

#[test]
fn unknown_channel_kinds_are_skipped() {
    assert!(matches!(channel_create(&channel(ChannelKind::Other, false)), Ok(None)));
}

#[test]
fn new_channels_are_recorded() {
    match channel_create(&channel(ChannelKind::News, false)) {
        Ok(Some(ChannelOp::Create { id, name, nsfw, kind, topic, parent })) => {
            assert_eq!(id, ChannelId(5));
            assert_eq!(name, "general");
            assert!(!nsfw);
            assert_eq!(kind, DbChannelType::News);
            assert_eq!(topic.as_deref(), Some("talk"));
            assert_eq!(parent, Some(ChannelId(9)));
        }
        _ => panic!("expected a create"),
    }
}

#[test]
fn changed_channels_overwrite_the_record() {
    let mut c = channel(ChannelKind::Voice, false);
    c.parent_id = None;
    match channel_update(&c) {
        Ok(ChannelOp::Update { name, topic, nsfw, kind, parent, .. }) => {
            assert_eq!(name.as_deref(), Some("general"));
            assert_eq!(topic, Some(Some("talk".to_string())));
            assert_eq!(nsfw, Some(false));
            assert_eq!(kind, None);
            assert_eq!(parent, Some(ParentChange::Disconnect));
        }
        _ => panic!("expected an update"),
    }
}

#[test]
fn role_records_spell_colors_in_six_digits() {
    let r = role_record(RoleId(3), "Mods", 0xff);
    assert_eq!(r.color, "0000FF");
    assert_eq!(r.name, "Mods");
}

#[test]
fn role_update_refuses_loggable_roles() {
    match role_update(RoleId(3), "Mods", 0x123456) {
        Err(LoggingError::Blacklisted(m)) => assert_eq!(m, "role with id 3"),
        _ => panic!("expected blacklisted"),
    }
    let r = role_update(RoleId(BOOSTER), "Booster", 0x123456).ok().unwrap();
    assert_eq!(r.color, "123456");
}

#[test]
fn deleted_role_owner_is_looked_up_for_live_color_roles_only() {
    assert_eq!(deleted_role_owner(true, &Some(("42".to_string(), false))), Some(UserId(42)));
    assert_eq!(deleted_role_owner(true, &Some(("42".to_string(), true))), None);
    assert_eq!(deleted_role_owner(false, &Some(("42".to_string(), false))), None);
    assert_eq!(deleted_role_owner(true, &None), None);
}

#[test]
fn deleted_role_action_recreates_for_a_present_owner() {
    assert!(matches!(deleted_role_action(false, "x", "#zz"), Ok(RoleDeleteAction::MarkDeleted)));
    match deleted_role_action(true, "Blue", "#0000ff") {
        Ok(RoleDeleteAction::Recreate { name, colour }) => {
            assert_eq!(name, "Blue");
            assert_eq!(colour, 0x0000ff);
        }
        _ => panic!("expected a recreate"),
    }
    match deleted_role_action(true, "Blue", "#ffff") {
        Err(e) => assert_eq!(e.0, "Problem parsing hex"),
        _ => panic!("expected a color error"),
    }
}

#[test]
fn joining_members_get_their_remembered_roles() {
    assert_eq!(join_roles(RoleId(1), None), vec![RoleId(1)]);
    let flags = StoredFlags { admin: true, verified: false, bot: true };
    assert_eq!(join_roles(RoleId(1), Some(flags)), vec![RoleId(1), RoleId(OVERRIDES), RoleId(BOTS)]);
    let flags = StoredFlags { admin: false, verified: true, bot: false };
    assert_eq!(join_roles(RoleId(1), Some(flags)), vec![RoleId(1), RoleId(MEMBERS)]);
}

#[test]
fn member_update_restores_a_lost_color_role() {
    let roles = vec![RoleId(MEMBERS), RoleId(4)];
    let u = member_update(
        &roles,
        &vec!["9".to_string()],
        &"alice".to_string(),
        &None,
        &"al".to_string(),
        &None,
    )
    .ok()
    .unwrap();
    assert_eq!(u.restore_color_role, Some(RoleId(9)));
    assert!(!u.admin && u.verified && !u.bot);
    assert_eq!(u.username.as_deref(), Some("alice"));
    assert_eq!(u.nickname, None);
    assert_eq!(u.connect, vec![MEMBERS.to_string(), "4".to_string(), "9".to_string()]);
}

#[test]
fn member_update_keeps_a_held_color_role() {
    let roles = vec![RoleId(4), RoleId(OVERRIDES)];
    let u = member_update(
        &roles,
        &vec!["4".to_string()],
        &"alice".to_string(),
        &Some("A".to_string()),
        &"alice".to_string(),
        &None,
    )
    .ok()
    .unwrap();
    assert_eq!(u.restore_color_role, None);
    assert!(u.admin);
    assert_eq!(u.username, None);
    assert_eq!(u.nickname, Some(Some("A".to_string())));
    assert_eq!(u.connect, vec!["4".to_string(), OVERRIDES.to_string()]);
}

#[test]
fn member_update_errors() {
    let r = member_update(&vec![], &vec![], &"a".to_string(), &None, &"a".to_string(), &None);
    assert!(matches!(r, Err(MemberLogError::NoColorRole)));
    let r = member_update(&vec![], &vec!["x1".to_string()], &"a".to_string(), &None, &"a".to_string(), &None);
    match r {
        Err(MemberLogError::InvalidRoleId(s)) => assert_eq!(s, "x1"),
        _ => panic!("expected an invalid id"),
    }
}

#[test]
fn member_leave_picks_the_first_color_role() {
    assert_eq!(member_leave(&vec!["12".to_string(), "13".to_string()]).ok(), Some(RoleId(12)));
    assert!(matches!(member_leave(&vec![]), Err(MemberLogError::NoColorRole)));
    assert!(matches!(member_leave(&vec!["?".to_string()]), Err(MemberLogError::InvalidRoleId(_))));
}

#[test]
fn message_log_decisions() {
    assert_eq!(message_create(true, true, UserId(1)).ok(), Some(false));
    assert!(matches!(message_create(false, true, UserId(1)), Err(LoggingError::UserImpersonated(UserId(1)))));
    assert_eq!(message_create(false, false, UserId(1)).ok(), Some(true));
    assert_eq!(edited_content(None), "");
    assert_eq!(edited_content(Some("hi".to_string())), "hi");
    match message_delete(MessageId(55), false, false) {
        Err(LoggingError::NotFound(m)) => assert_eq!(m, "message with id 55"),
        _ => panic!("expected not found"),
    }
    assert_eq!(message_delete(MessageId(55), true, true).ok(), Some(false));
    assert_eq!(message_delete(MessageId(55), true, false).ok(), Some(true));
}

#[test]
fn interactions_are_reusable_when_answered_by_this_bot() {
    assert!(interaction_reusable(true, 5, 5));
    assert!(!interaction_reusable(true, 5, 6));
    assert!(!interaction_reusable(false, 5, 5));
}

#[test]
fn stale_attachments_are_the_recorded_ones_gone() {
    let now = Some(vec!["a".to_string(), "c".to_string()]);
    let recorded = vec!["a".to_string(), "b".to_string(), "b".to_string(), "d".to_string()];
    let mut s = stale_attachments(&now, &recorded).unwrap();
    s.sort();
    assert_eq!(s, vec!["b".to_string(), "d".to_string()]);
    assert_eq!(stale_attachments(&None, &recorded), None);
}
