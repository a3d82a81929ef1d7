//! The bot's standing features: copying announcements into the chat,
//! the starboard, and speaking as another member.
use vstd::prelude::*;
use crate::cache::user_settings::SettingsData;
use crate::embed::{Reply, EmbedStatus};
use crate::error::StarboardError;
use crate::ids::{ChannelId, MessageId, UserId};
use crate::nci;
use crate::text::{chars_of, contains, contains_exec, string_of};

verus! {

/// An announcement in the news channel that pings everyone.
pub open spec fn spec_is_announcement(channel: ChannelId, content: Seq<char>) -> bool {
    channel.0 == nci::channels::NEWS && (contains(content, "@everyone"@) || contains(content, "@here"@))
}

pub fn is_announcement(channel: ChannelId, content: &str) -> (res: bool)
    ensures
        res == spec_is_announcement(channel, content@),
{
    if channel.0 != nci::channels::NEWS {
        return false;
    }
    let cs = chars_of(content);
    let everyone = chars_of("@everyone");
    let here = chars_of("@here");
    contains_exec(&cs, &everyone) || contains_exec(&cs, &here)
}

/// The chat copy of an announcement: a webhook message in the chat channel.
pub fn is_chat_copy(channel: ChannelId, from_webhook: bool) -> (res: bool)
    ensures
        res == (channel.0 == nci::channels::CHAT && from_webhook),
{
    channel.0 == nci::channels::CHAT && from_webhook
}

/// The announcement waiting for its copy in the chat.
pub struct NewsRelay<M> {
    pub working: Option<M>,
}

impl<M> NewsRelay<M> {
    pub fn new() -> (res: NewsRelay<M>)
        ensures
            res.working is None,
    {
        NewsRelay { working: None }
    }

    /// An announcement arrives: it waits for its copy (replacing any other).
    pub fn on_announcement(&mut self, message: M)
        ensures
            final(self).working == Some(message),
    {
        self.working = Some(message);
    }

    /// A copy arrives in the chat: the waiting announcement, if any, is the
    /// one it copies, and nothing waits any more.
    pub fn on_chat_copy(&mut self) -> (res: Option<M>)
        ensures
            res == old(self).working,
            final(self).working is None,
    {
        self.working.take()
    }
}

/// What starring a message does with its pin.
#[derive(Debug, Clone, Copy, PartialEq, Eq, Structural)]
pub enum StarAction {
    /// The message is pinned already: nothing to do.
    Nothing,
    /// It was pinned once and the pin was removed: copy it to the starred
    /// channel and restore the old pin.
    Restore,
    /// It was never pinned: copy it to the starred channel and record a pin
    /// for the copy.
    Pin,
}

/// Starring a message, given whether the database has it and its pin (by
/// whether the pin was removed): an unknown message is refused.
pub open spec fn spec_star(message: MessageId, record: Option<Option<bool>>) -> Result<StarAction, StarboardError> {
    match record {
        None => Err(StarboardError::MessageNotInDatabase(message)),
        Some(None) => Ok(StarAction::Pin),
        Some(Some(removed)) => if removed {
            Ok(StarAction::Restore)
        } else {
            Ok(StarAction::Nothing)
        },
    }
}

pub fn star(message: MessageId, record: Option<Option<bool>>) -> (res: Result<StarAction, StarboardError>)
    ensures
        res == spec_star(message, record),
{
    match record {
        None => Err(StarboardError::MessageNotInDatabase(message)),
        Some(pin) => {
            let pinned = match pin {
                Some(removed) => !removed,
                None => false,
            };
            if pinned {
                return Ok(StarAction::Nothing);
            }
            match pin {
                Some(_) => Ok(StarAction::Restore),
                None => Ok(StarAction::Pin),
            }
        },
    }
}

/// The pin of a message after a star action: copying it leaves a pin that
/// is not removed; doing nothing leaves the pin as it was.
pub open spec fn pin_after(pin: Option<bool>, action: StarAction) -> Option<bool> {
    match action {
        StarAction::Nothing => pin,
        StarAction::Restore => Some(false),
        StarAction::Pin => Some(false),
    }
}

/// Starring is idempotent: once a star went through, starring the message
/// again does nothing.
pub proof fn star_twice_does_nothing(message: MessageId, pin: Option<bool>)
    ensures
        spec_star(message, Some(pin)) matches Ok(a) && spec_star(message, Some(pin_after(pin, a)))
            == Ok::<StarAction, StarboardError>(StarAction::Nothing),
{
}

/// Where starred messages are copied to.
pub fn star_destination() -> (res: ChannelId)
    ensures
        res.0 == nci::channels::STARRED,
{
    ChannelId(nci::channels::STARRED)
}

/// The private note that a message was starred, for a member who wants one.
pub fn star_confirmation(settings: SettingsData) -> (res: Option<Reply>)
    ensures
        !settings.pin_confirm ==> res is None,
        settings.pin_confirm ==> (res matches Some(r) && r@ == (
            EmbedStatus::Sucess,
            "Starboard > Success"@,
            Some("Message has been starred"@),
            Seq::<(Seq<char>, Seq<char>)>::empty(),
        )),
{
    if !settings.pin_confirm {
        return None;
    }
    Some(
        Reply::new(
            EmbedStatus::Sucess,
            string_of("Starboard > Success"),
            Some(string_of("Message has been starred")),
        ),
    )
}

/// How a message of an impersonating member is posted again: as the
/// impersonated member, in the same channel, pinging as the original did,
/// without a link back (the original is deleted).
pub struct Repost {
    pub as_user: UserId,
    pub channel: ChannelId,
    pub ping: bool,
    pub jump_button: bool,
}

/// A new message, given whom its author speaks as (if anyone).
pub fn repost(speak_as: Option<UserId>, channel: ChannelId) -> (res: Option<Repost>)
    ensures
        speak_as is None ==> res is None,
        speak_as matches Some(u) ==> (res matches Some(r) && r.as_user == u && r.channel == channel && r.ping
            && !r.jump_button),
{
    match speak_as {
        Some(u) => Some(Repost { as_user: u, channel, ping: true, jump_button: false }),
        None => None,
    }
}

} // verus!
