use oreo::events::emitter::EventEmitter;
use oreo::events::events::{EmitterEvent, MessageCreateEvent, MESSAGE_CREATE, MESSAGE_DELETE, ROLE_DELETE, CATEGORY_UPDATE};
use oreo::events::payloads::MessageReactionAddPayload;
use oreo::events::route::{route, GatewayEvent};
use oreo::ids::{ChannelId, MessageId, RoleId, UserId};
use oreo::message::clone::{clone_text, edited_text, find_internal_webhook, is_internal_webhook, reply_header, reply_prefix, truncate, ReplySource};
use oreo::sync::categories::{plan_category_sync, CategoryOp, DbCategory, DiscordCategory};
use oreo::sync::roles::{plan_role_sync, DbRole, DiscordRole, RoleOp};
use oreo::error::{MakeError, UnfinishedBuilderError, CommandError};

#[test]
fn unfiltered_listener_always_runs_on_concrete_values() {
    let mut e = EventEmitter::new();
    e.on_filter(MESSAGE_CREATE, 1);
    e.on(MESSAGE_CREATE, 2);
    e.on_filter(MESSAGE_CREATE, 3);
    e.on(MESSAGE_DELETE, 4);
    assert_eq!(e.dispatch(MESSAGE_CREATE, &vec![false, false, true]), vec![2, 3]);
    assert_eq!(e.dispatch(MESSAGE_CREATE, &vec![true, true, false]), vec![1, 2]);
    assert_eq!(e.dispatch(MESSAGE_DELETE, &vec![false]), vec![4]);
    assert_eq!(e.listeners_of(ROLE_DELETE).len(), 0);
}

#[test]
fn event_kinds() {
    assert_eq!(MessageCreateEvent::kind(), MESSAGE_CREATE);
}

#[test]
fn gateway_events_route_to_bus_events() {
    assert_eq!(route(GatewayEvent::Message), vec![MESSAGE_CREATE]);
    assert_eq!(route(GatewayEvent::ChannelUpdateCategory), vec![CATEGORY_UPDATE]);
    assert_eq!(route(GatewayEvent::MessageDeleteBulk(3)), vec![MESSAGE_DELETE; 3]);
    assert!(route(GatewayEvent::Other).is_empty());
    assert!(route(GatewayEvent::ChannelUpdateOther).is_empty());
}

#[test]
fn pin_reactions() {
    let mut p = MessageReactionAddPayload {
        emoji: Some("\u{1F4CC}".to_string()),
        user_id: Some(UserId(1)),
        channel_id: ChannelId(2),
        message_id: MessageId(3),
    };
    assert!(p.is_pin_reaction());
    p.emoji = Some("⭐".to_string());
    assert!(!p.is_pin_reaction());
    p.emoji = None;
    assert!(!p.is_pin_reaction());
}

#[test]
fn truncate_keeps_whole_characters() {
    assert_eq!(truncate("hello", 3), "hel");
    assert_eq!(truncate("hi", 10), "hi");
}

#[test]
fn reply_quotes() {
    let h = reply_header("hello", UserId(5));
    assert_eq!(
        h,
        "<:curved:1034653422416302151>\t<@5> hello...\n<:straight:1034653871613681714>\n"
    );
    let src = Some(ReplySource { content: "hello".to_string(), author: UserId(5) });
    assert_eq!(clone_text(true, &src, "yes"), format!("{}yes", h));
    assert_eq!(clone_text(false, &src, "yes"), "yes");
    assert_eq!(clone_text(true, &None, "yes"), "yes");
}

#[test]
fn reply_quote_survives_edit_on_concrete_values() {
    let src = Some(ReplySource { content: "hello".to_string(), author: UserId(5) });
    let old = clone_text(true, &src, "first");
    let new = edited_text(&old, "second");
    assert_eq!(
        new,
        "<:curved:1034653422416302151>\t<@5> hello...\n<:straight:1034653871613681714>\n\nsecond"
    );
    assert!(reply_prefix("no quote").is_none());
    assert_eq!(edited_text("plain", "new"), "new");
}

#[test]
fn internal_webhooks() {
    assert!(is_internal_webhook(&Some("Oreo's Internals".to_string())));
    assert!(!is_internal_webhook(&None));
    let names = vec![None, Some("other".to_string()), Some("Oreo's Internals".to_string())];
    assert_eq!(find_internal_webhook(&names), Some(2));
}

#[test]
fn role_sync_creates_updates_and_retires() {
    let roles = vec![
        DiscordRole { id: RoleId(1), name: "new".to_string(), colour: 0x010203 },
        DiscordRole { id: RoleId(2), name: "renamed".to_string(), colour: 0x000000 },
    ];
    let db = vec![
        DbRole { id: "2".to_string(), name: "old".to_string(), color: "000000".to_string(), color_role: true, deleted: false },
        DbRole { id: "3".to_string(), name: "gone".to_string(), color: "000000".to_string(), color_role: true, deleted: false },
    ];
    let ops = plan_role_sync(&roles, &db);
    assert_eq!(ops.len(), 4);
    match &ops[0] {
        RoleOp::Create { id, name, color, color_role } => {
            assert_eq!(*id, RoleId(1));
            assert_eq!(name, "new");
            assert_eq!(color, "010203");
            assert!(*color_role);
        }
        _ => panic!("expected a create"),
    }
    match &ops[1] {
        RoleOp::Update { id, name, color, color_role } => {
            assert_eq!(*id, RoleId(2));
            assert_eq!(name.as_deref(), Some("renamed"));
            assert_eq!(*color, None);
            assert_eq!(*color_role, None);
        }
        _ => panic!("expected an update"),
    }
    assert!(matches!(ops[2], RoleOp::Delete { id: RoleId(2) }));
    match &ops[3] {
        RoleOp::MarkDeleted { ids } => assert_eq!(ids, &vec!["3".to_string()]),
        _ => panic!("expected mark deleted"),
    }
}

#[test]
fn category_sync_renames_creates_and_retires() {
    let cs = vec![
        DiscordCategory { id: ChannelId(1), name: "A".to_string() },
        DiscordCategory { id: ChannelId(2), name: "B".to_string() },
    ];
    let db = vec![
        DbCategory { id: "1".to_string(), name: "a".to_string(), deleted: false },
        DbCategory { id: "9".to_string(), name: "z".to_string(), deleted: false },
        DbCategory { id: "8".to_string(), name: "y".to_string(), deleted: true },
    ];
    let ops = plan_category_sync(&cs, &db);
    assert_eq!(ops.len(), 3);
    assert!(matches!(&ops[0], CategoryOp::Rename { id: ChannelId(1), name } if name == "A"));
    assert!(matches!(&ops[1], CategoryOp::Create { id: ChannelId(2), name } if name == "B"));
    assert!(matches!(&ops[2], CategoryOp::MarkDeleted { ids } if ids == &vec!["9".to_string()]));
}

#[test]
fn make_error_replaces_failures() {
    let r: Result<u8, CommandError> = None::<u8>.make_error(CommandError::NotInGuild);
    assert!(matches!(r, Err(CommandError::NotInGuild)));
    let r: Result<u8, CommandError> = Ok::<u8, ()>(3).make_error(CommandError::NotInGuild);
    assert_eq!(r.ok(), Some(3));
}

#[test]
fn unfinished_builder_message() {
    let e = UnfinishedBuilderError(vec!["a".to_string(), "b".to_string()]);
    assert_eq!(e.message(), "required field(s) [\"a\", \"b\"] not found in database");
}
