//! The kinds of events that listeners can subscribe to.
use vstd::prelude::*;

verus! {

/// A kind of event on the bus, known by a number of its own.
pub trait EmitterEvent {
    spec fn spec_kind() -> u64;

    fn kind() -> (k: u64)
        ensures
            k == Self::spec_kind(),
    ;
}

pub struct CommandInteractionEvent;
pub struct ComponentInteractionEvent;
pub struct ModalInteractionEvent;
pub struct CategoryCreateEvent;
pub struct CategoryUpdateEvent;
pub struct CategoryDeleteEvent;
pub struct ChannelCreateEvent;
pub struct ChannelUpdateEvent;
pub struct ChannelDeleteEvent;
pub struct MessageCreateEvent;
pub struct MessageUpdateEvent;
pub struct MessageDeleteEvent;
pub struct MessageReactionAdd;
pub struct RoleCreateEvent;
pub struct RoleUpdateEvent;
pub struct RoleDeleteEvent;
pub struct MemberJoinEvent;
pub struct MemberUpdateEvent;
pub struct MemberLeaveEvent;
pub struct BotReadyEvent;

pub const COMMAND_INTERACTION: u64 = 1;
pub const COMPONENT_INTERACTION: u64 = 2;
pub const MODAL_INTERACTION: u64 = 3;
pub const CATEGORY_CREATE: u64 = 4;
pub const CATEGORY_UPDATE: u64 = 5;
pub const CATEGORY_DELETE: u64 = 6;
pub const CHANNEL_CREATE: u64 = 7;
pub const CHANNEL_UPDATE: u64 = 8;
pub const CHANNEL_DELETE: u64 = 9;
pub const MESSAGE_CREATE: u64 = 10;
pub const MESSAGE_UPDATE: u64 = 11;
pub const MESSAGE_DELETE: u64 = 12;
pub const MESSAGE_REACTION_ADD: u64 = 13;
pub const ROLE_CREATE: u64 = 14;
pub const ROLE_UPDATE: u64 = 15;
pub const ROLE_DELETE: u64 = 16;
pub const MEMBER_JOIN: u64 = 17;
pub const MEMBER_UPDATE: u64 = 18;
pub const MEMBER_LEAVE: u64 = 19;
pub const BOT_READY: u64 = 20;

impl EmitterEvent for CommandInteractionEvent {
    open spec fn spec_kind() -> u64 {
        COMMAND_INTERACTION
    }

    fn kind() -> (k: u64) {
        COMMAND_INTERACTION
    }
}

impl EmitterEvent for ComponentInteractionEvent {
    open spec fn spec_kind() -> u64 {
        COMPONENT_INTERACTION
    }

    fn kind() -> (k: u64) {
        COMPONENT_INTERACTION
    }
}

impl EmitterEvent for ModalInteractionEvent {
    open spec fn spec_kind() -> u64 {
        MODAL_INTERACTION
    }

    fn kind() -> (k: u64) {
        MODAL_INTERACTION
    }
}

impl EmitterEvent for CategoryCreateEvent {
    open spec fn spec_kind() -> u64 {
        CATEGORY_CREATE
    }

    fn kind() -> (k: u64) {
        CATEGORY_CREATE
    }
}

impl EmitterEvent for CategoryUpdateEvent {
    open spec fn spec_kind() -> u64 {
        CATEGORY_UPDATE
    }

    fn kind() -> (k: u64) {
        CATEGORY_UPDATE
    }
}

impl EmitterEvent for CategoryDeleteEvent {
    open spec fn spec_kind() -> u64 {
        CATEGORY_DELETE
    }

    fn kind() -> (k: u64) {
        CATEGORY_DELETE
    }
}

impl EmitterEvent for ChannelCreateEvent {
    open spec fn spec_kind() -> u64 {
        CHANNEL_CREATE
    }

    fn kind() -> (k: u64) {
        CHANNEL_CREATE
    }
}

impl EmitterEvent for ChannelUpdateEvent {
    open spec fn spec_kind() -> u64 {
        CHANNEL_UPDATE
    }

    fn kind() -> (k: u64) {
        CHANNEL_UPDATE
    }
}

impl EmitterEvent for ChannelDeleteEvent {
    open spec fn spec_kind() -> u64 {
        CHANNEL_DELETE
    }

    fn kind() -> (k: u64) {
        CHANNEL_DELETE
    }
}

impl EmitterEvent for MessageCreateEvent {
    open spec fn spec_kind() -> u64 {
        MESSAGE_CREATE
    }

    fn kind() -> (k: u64) {
        MESSAGE_CREATE
    }
}

impl EmitterEvent for MessageUpdateEvent {
    open spec fn spec_kind() -> u64 {
        MESSAGE_UPDATE
    }

    fn kind() -> (k: u64) {
        MESSAGE_UPDATE
    }
}

impl EmitterEvent for MessageDeleteEvent {
    open spec fn spec_kind() -> u64 {
        MESSAGE_DELETE
    }

    fn kind() -> (k: u64) {
        MESSAGE_DELETE
    }
}

impl EmitterEvent for MessageReactionAdd {
    open spec fn spec_kind() -> u64 {
        MESSAGE_REACTION_ADD
    }

    fn kind() -> (k: u64) {
        MESSAGE_REACTION_ADD
    }
}

impl EmitterEvent for RoleCreateEvent {
    open spec fn spec_kind() -> u64 {
        ROLE_CREATE
    }

    fn kind() -> (k: u64) {
        ROLE_CREATE
    }
}

impl EmitterEvent for RoleUpdateEvent {
    open spec fn spec_kind() -> u64 {
        ROLE_UPDATE
    }

    fn kind() -> (k: u64) {
        ROLE_UPDATE
    }
}

impl EmitterEvent for RoleDeleteEvent {
    open spec fn spec_kind() -> u64 {
        ROLE_DELETE
    }

    fn kind() -> (k: u64) {
        ROLE_DELETE
    }
}

impl EmitterEvent for MemberJoinEvent {
    open spec fn spec_kind() -> u64 {
        MEMBER_JOIN
    }

    fn kind() -> (k: u64) {
        MEMBER_JOIN
    }
}

impl EmitterEvent for MemberUpdateEvent {
    open spec fn spec_kind() -> u64 {
        MEMBER_UPDATE
    }

    fn kind() -> (k: u64) {
        MEMBER_UPDATE
    }
}

impl EmitterEvent for MemberLeaveEvent {
    open spec fn spec_kind() -> u64 {
        MEMBER_LEAVE
    }

    fn kind() -> (k: u64) {
        MEMBER_LEAVE
    }
}

impl EmitterEvent for BotReadyEvent {
    open spec fn spec_kind() -> u64 {
        BOT_READY
    }

    fn kind() -> (k: u64) {
        BOT_READY
    }
}

} // verus!
