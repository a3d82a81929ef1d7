//! Which bus events a gateway event becomes.
use vstd::prelude::*;
use crate::events::events::{
    EmitterEvent, BotReadyEvent, CategoryCreateEvent, CategoryDeleteEvent, CategoryUpdateEvent, ChannelCreateEvent,
    ChannelDeleteEvent, ChannelUpdateEvent, CommandInteractionEvent, ComponentInteractionEvent, MemberJoinEvent,
    MemberLeaveEvent, MemberUpdateEvent, MessageCreateEvent, MessageDeleteEvent, MessageReactionAdd,
    MessageUpdateEvent, ModalInteractionEvent, RoleCreateEvent, RoleDeleteEvent, RoleUpdateEvent,
    BOT_READY, CATEGORY_CREATE, CATEGORY_DELETE, CATEGORY_UPDATE, CHANNEL_CREATE, CHANNEL_DELETE,
    CHANNEL_UPDATE, COMMAND_INTERACTION, COMPONENT_INTERACTION, MEMBER_JOIN, MEMBER_LEAVE,
    MEMBER_UPDATE, MESSAGE_CREATE, MESSAGE_DELETE, MESSAGE_REACTION_ADD, MESSAGE_UPDATE,
    MODAL_INTERACTION, ROLE_CREATE, ROLE_DELETE, ROLE_UPDATE,
};

verus! {

/// The gateway events that the bot tells apart.
#[derive(Debug, Clone, Copy, PartialEq, Eq, Structural)]
pub enum GatewayEvent {
    CommandInteraction,
    ComponentInteraction,
    ModalInteraction,
    OtherInteraction,
    CategoryCreate,
    CategoryDelete,
    ChannelCreate,
    /// A channel update about a guild channel.
    ChannelUpdateGuild,
    /// A channel update about a category.
    ChannelUpdateCategory,
    /// A channel update about any other channel.
    ChannelUpdateOther,
    ChannelDelete,
    Message,
    MessageUpdate,
    MessageDelete,
    /// Several messages deleted at once: how many.
    MessageDeleteBulk(usize),
    ReactionAdd,
    RoleCreate,
    RoleUpdate,
    RoleDelete,
    MemberAddition,
    MemberUpdate,
    MemberRemoval,
    Ready,
    Other,
}

/// The bus events, in order, that the handler emits for a gateway event.
pub open spec fn spec_route(e: GatewayEvent) -> Seq<u64> {
    match e {
        GatewayEvent::CommandInteraction => seq![COMMAND_INTERACTION],
        GatewayEvent::ComponentInteraction => seq![COMPONENT_INTERACTION],
        GatewayEvent::ModalInteraction => seq![MODAL_INTERACTION],
        GatewayEvent::OtherInteraction => Seq::empty(),
        GatewayEvent::CategoryCreate => seq![CATEGORY_CREATE],
        GatewayEvent::CategoryDelete => seq![CATEGORY_DELETE],
        GatewayEvent::ChannelCreate => seq![CHANNEL_CREATE],
        GatewayEvent::ChannelUpdateGuild => seq![CHANNEL_UPDATE],
        GatewayEvent::ChannelUpdateCategory => seq![CATEGORY_UPDATE],
        GatewayEvent::ChannelUpdateOther => Seq::empty(),
        GatewayEvent::ChannelDelete => seq![CHANNEL_DELETE],
        GatewayEvent::Message => seq![MESSAGE_CREATE],
        GatewayEvent::MessageUpdate => seq![MESSAGE_UPDATE],
        GatewayEvent::MessageDelete => seq![MESSAGE_DELETE],
        GatewayEvent::MessageDeleteBulk(n) => Seq::new(n as nat, |i: int| MESSAGE_DELETE),
        GatewayEvent::ReactionAdd => seq![MESSAGE_REACTION_ADD],
        GatewayEvent::RoleCreate => seq![ROLE_CREATE],
        GatewayEvent::RoleUpdate => seq![ROLE_UPDATE],
        GatewayEvent::RoleDelete => seq![ROLE_DELETE],
        GatewayEvent::MemberAddition => seq![MEMBER_JOIN],
        GatewayEvent::MemberUpdate => seq![MEMBER_UPDATE],
        GatewayEvent::MemberRemoval => seq![MEMBER_LEAVE],
        GatewayEvent::Ready => seq![BOT_READY],
        GatewayEvent::Other => Seq::empty(),
    }
}

fn one(kind: u64) -> (res: Vec<u64>)
    ensures
        res@ == seq![kind],
{
    let mut v: Vec<u64> = Vec::new();
    v.push(kind);
    v
}

/// The bus events that the handler emits for a gateway event; a bulk
/// deletion emits one message deletion per message.
pub fn route(e: GatewayEvent) -> (res: Vec<u64>)
    ensures
        res@ == spec_route(e),
{
    match e {
        GatewayEvent::CommandInteraction => one(COMMAND_INTERACTION),
        GatewayEvent::ComponentInteraction => one(COMPONENT_INTERACTION),
        GatewayEvent::ModalInteraction => one(MODAL_INTERACTION),
        GatewayEvent::OtherInteraction => Vec::new(),
        GatewayEvent::CategoryCreate => one(CATEGORY_CREATE),
        GatewayEvent::CategoryDelete => one(CATEGORY_DELETE),
        GatewayEvent::ChannelCreate => one(CHANNEL_CREATE),
        GatewayEvent::ChannelUpdateGuild => one(CHANNEL_UPDATE),
        GatewayEvent::ChannelUpdateCategory => one(CATEGORY_UPDATE),
        GatewayEvent::ChannelUpdateOther => Vec::new(),
        GatewayEvent::ChannelDelete => one(CHANNEL_DELETE),
        GatewayEvent::Message => one(MESSAGE_CREATE),
        GatewayEvent::MessageUpdate => one(MESSAGE_UPDATE),
        GatewayEvent::MessageDelete => one(MESSAGE_DELETE),
        GatewayEvent::MessageDeleteBulk(n) => {
            let mut v: Vec<u64> = Vec::new();
            let mut i: usize = 0;
            while i < n
                invariant
                    i <= n,
                    v@ == Seq::new(i as nat, |k: int| MESSAGE_DELETE),
                decreases n - i,
            {
                v.push(MESSAGE_DELETE);
                i = i + 1;
                assert(v@ =~= Seq::new(i as nat, |k: int| MESSAGE_DELETE));
            }
            v
        },
        GatewayEvent::ReactionAdd => one(MESSAGE_REACTION_ADD),
        GatewayEvent::RoleCreate => one(ROLE_CREATE),
        GatewayEvent::RoleUpdate => one(ROLE_UPDATE),
        GatewayEvent::RoleDelete => one(ROLE_DELETE),
        GatewayEvent::MemberAddition => one(MEMBER_JOIN),
        GatewayEvent::MemberUpdate => one(MEMBER_UPDATE),
        GatewayEvent::MemberRemoval => one(MEMBER_LEAVE),
        GatewayEvent::Ready => one(BOT_READY),
        GatewayEvent::Other => Vec::new(),
    }
}

/// Every gateway event that the bot handles becomes the bus event of its own
/// kind: a command interaction the command-interaction event, an edit the
/// message-update event, and so on; a bulk deletion becomes one
/// message-deletion event per message; the rest become none.
pub proof fn each_event_routes_to_its_own_kind(n: usize)
    ensures
        spec_route(GatewayEvent::CommandInteraction) == seq![CommandInteractionEvent::spec_kind()],
        spec_route(GatewayEvent::ComponentInteraction) == seq![ComponentInteractionEvent::spec_kind()],
        spec_route(GatewayEvent::ModalInteraction) == seq![ModalInteractionEvent::spec_kind()],
        spec_route(GatewayEvent::CategoryCreate) == seq![CategoryCreateEvent::spec_kind()],
        spec_route(GatewayEvent::CategoryDelete) == seq![CategoryDeleteEvent::spec_kind()],
        spec_route(GatewayEvent::ChannelCreate) == seq![ChannelCreateEvent::spec_kind()],
        spec_route(GatewayEvent::ChannelUpdateGuild) == seq![ChannelUpdateEvent::spec_kind()],
        spec_route(GatewayEvent::ChannelUpdateCategory) == seq![CategoryUpdateEvent::spec_kind()],
        spec_route(GatewayEvent::ChannelDelete) == seq![ChannelDeleteEvent::spec_kind()],
        spec_route(GatewayEvent::Message) == seq![MessageCreateEvent::spec_kind()],
        spec_route(GatewayEvent::MessageUpdate) == seq![MessageUpdateEvent::spec_kind()],
        spec_route(GatewayEvent::MessageDelete) == seq![MessageDeleteEvent::spec_kind()],
        spec_route(GatewayEvent::MessageDeleteBulk(n)) == Seq::new(n as nat, |i: int| MessageDeleteEvent::spec_kind()),
        spec_route(GatewayEvent::ReactionAdd) == seq![MessageReactionAdd::spec_kind()],
        spec_route(GatewayEvent::RoleCreate) == seq![RoleCreateEvent::spec_kind()],
        spec_route(GatewayEvent::RoleUpdate) == seq![RoleUpdateEvent::spec_kind()],
        spec_route(GatewayEvent::RoleDelete) == seq![RoleDeleteEvent::spec_kind()],
        spec_route(GatewayEvent::MemberAddition) == seq![MemberJoinEvent::spec_kind()],
        spec_route(GatewayEvent::MemberUpdate) == seq![MemberUpdateEvent::spec_kind()],
        spec_route(GatewayEvent::MemberRemoval) == seq![MemberLeaveEvent::spec_kind()],
        spec_route(GatewayEvent::Ready) == seq![BotReadyEvent::spec_kind()],
        spec_route(GatewayEvent::OtherInteraction) == Seq::<u64>::empty(),
        spec_route(GatewayEvent::ChannelUpdateOther) == Seq::<u64>::empty(),
        spec_route(GatewayEvent::Other) == Seq::<u64>::empty(),
{
}

/// Two different gateway events that each become one bus event become
/// different bus events (a bulk deletion aside, which becomes deletions).
pub proof fn distinct_events_route_apart(a: GatewayEvent, b: GatewayEvent)
    requires
        a != b,
        !(a is MessageDeleteBulk),
        !(b is MessageDeleteBulk),
        spec_route(a).len() == 1,
        spec_route(b).len() == 1,
    ensures
        spec_route(a) != spec_route(b),
{
    assert(spec_route(a)[0] != spec_route(b)[0]);
}

} // verus!
