//! The message commands: jump from an announcement to its copy in the chat,
//! star a message, and impersonate another member.
use vstd::prelude::*;
use crate::embed::{Reply, EmbedStatus, Button, ButtonStyle};
use crate::error::CommandError;
use crate::ids::{ChannelId, MessageId, UserId};
use crate::nci;
use crate::text::{concat, dec_digits, string_of, u64_to_string};

verus! {

/// What a member sees when an announcement's copy is not known yet.
pub const CACHE_MSG_NOT_FOUND: &'static str = "\nThis message does not seem to be in the cache. \nThis could be because:\n\n- Smarty is down\n- My internet is slow\n- This message was created before I started logging news-in-chat messages.\n \nPlease wait a few seconds and try again.";

/// The address of a message of the chat channel.
pub open spec fn chat_link(message: MessageId) -> Seq<char> {
    "https://discordapp.com/channels/"@ + dec_digits(nci::ID as nat) + "/"@ + dec_digits(
        nci::channels::CHAT as nat,
    ) + "/"@ + dec_digits(message.0 as nat)
}

/// The answer of "News to Chat": an explanation and a button that opens the
/// copy (followed by the share row).
pub struct JumpToChat {
    pub reply: Reply,
    pub link: Button,
}

/// The refusal of "News to Chat" outside the news channel, made before the
/// copy is looked up.
pub fn jump_to_chat_channel(channel: ChannelId) -> (res: Result<(), CommandError>)
    ensures
        channel.0 == nci::channels::NEWS <==> res is Ok,
        res matches Err(e) ==> e.is_runtime_error(
            "Wrong channel"@,
            "This context menu command can only be used in the news channel"@,
        ),
{
    if channel.0 != nci::channels::NEWS {
        return Err(
            CommandError::runtime_error(
                "Wrong channel",
                "This context menu command can only be used in the news channel",
            ),
        );
    }
    Ok(())
}

/// "News to Chat" on a message of `channel`, given the copy of it that the
/// cache knows: it is refused outside the news channel, warns when no copy
/// is known, and otherwise links to the copy.
pub fn jump_to_chat(channel: ChannelId, copy: Option<MessageId>) -> (res: Result<JumpToChat, CommandError>)
    ensures
        channel.0 != nci::channels::NEWS ==> (res matches Err(e) && e.is_runtime_error(
            "Wrong channel"@,
            "This context menu command can only be used in the news channel"@,
        )),
        channel.0 == nci::channels::NEWS && copy is None ==> (res matches Err(e)
            && e.is_runtime_warning("Message not in cache"@, CACHE_MSG_NOT_FOUND@)),
        channel.0 == nci::channels::NEWS && copy is Some ==> (res matches Ok(j) && j.reply@ == (
            EmbedStatus::Sucess,
            "Jump to Chat > Link"@,
            Some("Sorry, you have to click two buttons :(\n Discord should add context menu links."@),
            Seq::<(Seq<char>, Seq<char>)>::empty(),
        ) && j.link@ == (
            None::<Seq<char>>,
            Some(chat_link(copy->0)),
            "Jump to Chat"@,
            ButtonStyle::Link,
            false,
        )),
{
    jump_to_chat_channel(channel)?;
    let id = match copy {
        Some(id) => id,
        None => {
            return Err(CommandError::runtime_warning("Message not in cache", CACHE_MSG_NOT_FOUND));
        },
    };
    let mut link = concat("https://discordapp.com/channels/", u64_to_string(nci::ID).as_str());
    link.append("/");
    link.append(u64_to_string(nci::channels::CHAT).as_str());
    link.append("/");
    link.append(u64_to_string(id.0).as_str());
    let reply = Reply::new(
        EmbedStatus::Sucess,
        string_of("Jump to Chat > Link"),
        Some(string_of("Sorry, you have to click two buttons :(\n Discord should add context menu links.")),
    );
    let link = Button {
        custom_id: None,
        url: Some(link),
        label: string_of("Jump to Chat"),
        style: ButtonStyle::Link,
        disabled: false,
    };
    Ok(JumpToChat { reply, link })
}

/// What "Boo (for Helen)" replies to a message.
pub const BOO_REPLY: &'static str = "wooooooow. this is the most unfunny joke i have ever had the displeasure of reading. try again later.";

/// "Star Message" is refused on messages of the starred channel itself.
pub fn star(channel: ChannelId) -> (res: Result<(), CommandError>)
    ensures
        channel.0 != nci::channels::STARRED <==> res is Ok,
        res matches Err(e) ==> e.is_runtime_error(
            "Cannot star"@,
            "Cannot star a message that is in the starred channel"@,
        ),
{
    if channel.0 == nci::channels::STARRED {
        return Err(
            CommandError::runtime_error("Cannot star", "Cannot star a message that is in the starred channel"),
        );
    }
    Ok(())
}

/// What `/impersonate` shows while it waits for the cache.
pub const LOCKING_CACHE: &'static str = "Locking cache. Depending on how long the bot has been up, this may take a while.";

/// The outcome of `/impersonate`: whom the author now speaks as (`None`:
/// as themselves), and the answer.
pub struct Impersonate {
    pub speak_as: Option<UserId>,
    pub reply: Reply,
}

/// `/impersonate` by `author` on a member: bots are refused; naming oneself
/// stops the impersonation; anyone else becomes the one the author speaks as.
pub fn impersonate(author: UserId, target: UserId, target_is_bot: bool, target_tag: &str) -> (res: Result<Impersonate, CommandError>)
    ensures
        target_is_bot ==> (res matches Err(e) && e.is_runtime_error(
            "Bots"@,
            "Cannot impersonate bots. This has been disabled for the sake of nMarkov"@,
        )),
        !target_is_bot && target == author ==> (res matches Ok(i) && i.speak_as is None && i.reply@ == (
            EmbedStatus::Sucess,
            "Impersonate > Set > Stop"@,
            Some("Sucessfully stopped your impersonation"@),
            Seq::<(Seq<char>, Seq<char>)>::empty(),
        )),
        !target_is_bot && target != author ==> (res matches Ok(i) && i.speak_as == Some(target)
            && i.reply@ == (
            EmbedStatus::Sucess,
            "Impersonate > Set > "@ + target_tag@,
            Some("Sucessfully set your impersonation to `"@ + target_tag@ + "`"@),
            Seq::<(Seq<char>, Seq<char>)>::empty(),
        )),
{
    if target_is_bot {
        return Err(
            CommandError::runtime_error(
                "Bots",
                "Cannot impersonate bots. This has been disabled for the sake of nMarkov",
            ),
        );
    }
    if target == author {
        let reply = Reply::new(
            EmbedStatus::Sucess,
            string_of("Impersonate > Set > Stop"),
            Some(string_of("Sucessfully stopped your impersonation")),
        );
        Ok(Impersonate { speak_as: None, reply })
    } else {
        let title = concat("Impersonate > Set > ", target_tag);
        let mut description = concat("Sucessfully set your impersonation to `", target_tag);
        description.append("`");
        let reply = Reply::new(EmbedStatus::Sucess, title, Some(description));
        Ok(Impersonate { speak_as: Some(target), reply })
    }
}

} // verus!
