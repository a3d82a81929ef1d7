//! The payloads of the events that Discord does not send as one object.
use vstd::prelude::*;
use crate::ids::{ChannelId, GuildId, MessageId, RoleId, UserId};

verus! {

#[derive(Debug, Clone, Copy, PartialEq, Eq, Structural)]
pub struct MessageDeletePayload {
    pub guild_id: Option<GuildId>,
    pub channel_id: ChannelId,
    pub message_id: MessageId,
}

#[derive(Debug, Clone, Copy, PartialEq, Eq, Structural)]
pub struct RoleDeletePayload {
    pub guild_id: GuildId,
    pub role_id: RoleId,
}

/// A member left; the user is known by id.
#[derive(Debug, Clone, Copy, PartialEq, Eq, Structural)]
pub struct MemberLeavePayload {
    pub guild_id: GuildId,
    pub user: UserId,
}

/// A reaction was added to a message.
#[derive(Debug, Clone)]
pub struct MessageReactionAddPayload {
    /// The reaction's emoji when it is a Unicode emoji, `None` for a custom one.
    pub emoji: Option<String>,
    /// Who reacted, when Discord says so.
    pub user_id: Option<UserId>,
    pub channel_id: ChannelId,
    pub message_id: MessageId,
}

pub open spec fn spec_is_pin_reaction(payload: MessageReactionAddPayload) -> bool {
    payload.emoji matches Some(e) && e@ == "\u{1F4CC}"@
}

impl MessageReactionAddPayload {
    /// Whether the reaction is the pushpin, which stars a message.
    pub fn is_pin_reaction(&self) -> (res: bool)
        ensures
            res == spec_is_pin_reaction(*self),
    {
        match &self.emoji {
            Some(e) => {
                let pin = crate::text::string_of(crate::message::emoji::PIN_EMOJI);
                *e == pin
            },
            None => false,
        }
    }
}

} // verus!
