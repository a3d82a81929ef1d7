//! Server-wide commands: `/chernobyl`, `/ping`, and the share buttons under
//! the bot's answers.
use vstd::prelude::*;
use crate::embed::{Reply, EmbedStatus, SHARE_ID, UNSHARE_ID};
use crate::error::{CommandError, PrismaError};
use crate::ids::{ChannelId, RoleId, UserId};
use crate::string_util::{lowercase_of, to_lowercase, ascii_text, ascii_lower};
use crate::text::{dec_digits, string_of, text_eq, u64_to_string, push_char};

verus! {

/// What `/chernobyl` must be given, in any case.
pub const SANITY_PHRASE: &'static str = "yes, im really sure";

/// What the command needs to know of the server it runs in.
pub struct GuildSnapshot {
    pub owner: UserId,
    pub channels: Vec<ChannelId>,
    pub members: Vec<UserId>,
    pub roles: Vec<RoleId>,
}

/// What `/chernobyl` destroys, in this order, before the server itself:
/// channels to delete, members to ban (with a week of their messages) and
/// roles to delete.
pub struct Wipe {
    pub channels: Vec<ChannelId>,
    pub members: Vec<UserId>,
    pub roles: Vec<RoleId>,
}

/// How many days of messages a ban removes.
pub const BAN_DELETE_DAYS: u8 = 7;

/// `s` without the copies of `x`, the rest in order.
pub open spec fn without<A>(s: Seq<A>, x: A) -> Seq<A>
    decreases s.len(),
{
    if s.len() == 0 {
        s
    } else {
        let rest = without(s.drop_last(), x);
        if s.last() == x {
            rest
        } else {
            rest.push(s.last())
        }
    }
}

/// What is left out is gone.
pub proof fn without_removes<A>(s: Seq<A>, x: A)
    ensures
        !without(s, x).contains(x),
    decreases s.len(),
{
    if s.len() > 0 {
        without_removes(s.drop_last(), x);
        let rest = without(s.drop_last(), x);
        if s.last() != x {
            assert forall|i: int| 0 <= i < rest.push(s.last()).len() implies rest.push(s.last())[i] != x by {
                if i < rest.len() {
                    assert(rest[i] != x);
                }
            }
        }
    }
}

/// `/chernobyl` never bans the one who runs it, and never deletes the
/// channel it runs in.
pub proof fn chernobyl_spares_author_and_channel(
    channels: Seq<ChannelId>,
    members: Seq<UserId>,
    here: ChannelId,
    author: UserId,
)
    ensures
        !without(channels, here).contains(here),
        !without(members, author).contains(author),
{
    without_removes(channels, here);
    without_removes(members, author);
}

fn channels_without(s: &Vec<ChannelId>, x: ChannelId) -> (res: Vec<ChannelId>)
    ensures
        res@ == without(s@, x),
{
    let mut out: Vec<ChannelId> = Vec::new();
    let mut i: usize = 0;
    while i < s.len()
        invariant
            i <= s@.len(),
            out@ == without(s@.subrange(0, i as int), x),
        decreases s@.len() - i,
    {
        assert(s@.subrange(0, i + 1).drop_last() =~= s@.subrange(0, i as int));
        if s[i] != x {
            out.push(s[i]);
        }
        i = i + 1;
    }
    assert(s@.subrange(0, s@.len() as int) =~= s@);
    out
}

fn users_without(s: &Vec<UserId>, x: UserId) -> (res: Vec<UserId>)
    ensures
        res@ == without(s@, x),
{
    let mut out: Vec<UserId> = Vec::new();
    let mut i: usize = 0;
    while i < s.len()
        invariant
            i <= s@.len(),
            out@ == without(s@.subrange(0, i as int), x),
        decreases s@.len() - i,
    {
        assert(s@.subrange(0, i + 1).drop_last() =~= s@.subrange(0, i as int));
        if s[i] != x {
            out.push(s[i]);
        }
        i = i + 1;
    }
    assert(s@.subrange(0, s@.len() as int) =~= s@);
    out
}

/// `/chernobyl`, typed by `author` in the channel `here`: the phrase must be
/// given (in any case), the command must run in a server, and only its
/// owner may run it. An ASCII phrase is compared letter by letter in ASCII
/// lower case. Then every channel but this one, every member but the
/// author and every role goes.
pub fn chernobyl(check: &str, guild: &Option<GuildSnapshot>, author: UserId, here: ChannelId) -> (res: Result<Wipe, CommandError>)
    ensures
        ascii_text(check@) ==> lowercase_of(check@) == check@.map_values(|c: char| ascii_lower(c)),
        lowercase_of(check@) != SANITY_PHRASE@ ==> (res matches Err(e) && e.is_runtime_warning(
            "Sanity"@,
            "The sanity check didn't work. DM angad for it"@,
        )),
        lowercase_of(check@) == SANITY_PHRASE@ && guild is None ==> (res matches Err(CommandError::NotInGuild)),
        lowercase_of(check@) == SANITY_PHRASE@ && guild is Some && guild->0.owner != author ==> (res matches Err(e)
            && e.is_runtime_error("Ownership"@, "You aren't the server owner"@)),
        lowercase_of(check@) == SANITY_PHRASE@ && guild is Some && guild->0.owner == author ==> (res matches Ok(w)
            && w.channels@ == without(guild->0.channels@, here)
            && w.members@ == without(guild->0.members@, author)
            && w.roles@ == guild->0.roles@),
{
    let lower = to_lowercase(check);
    if !text_eq(lower.as_str(), SANITY_PHRASE) {
        return Err(
            CommandError::runtime_warning("Sanity", "The sanity check didn't work. DM angad for it"),
        );
    }
    let g = match guild {
        Some(g) => g,
        None => {
            return Err(CommandError::NotInGuild);
        },
    };
    if author != g.owner {
        return Err(CommandError::runtime_error("Ownership", "You aren't the server owner"));
    }
    let channels = channels_without(&g.channels, here);
    let members = users_without(&g.members, author);
    let roles = g.roles.clone();
    Ok(Wipe { channels, members, roles })
}

/// A number written as `to_string` writes it, with a `-` when negative.
pub open spec fn signed_digits(n: int) -> Seq<char> {
    if n < 0 {
        seq!['-'] + dec_digits((-n) as nat)
    } else {
        dec_digits(n as nat)
    }
}

fn i64_to_string(n: i64) -> (res: String)
    ensures
        res@ == signed_digits(n as int),
{
    if n < 0 {
        let m: u64 = (0i128 - (n as i128)) as u64;
        let mut s = String::new();
        push_char(&mut s, '-');
        let d = u64_to_string(m);
        s.append(d.as_str());
        assert(s@ =~= signed_digits(n as int));
        s
    } else {
        u64_to_string(n as u64)
    }
}

/// What `/ping` says of the API latency when it is not known.
pub const NO_API_LATENCY: &'static str = "Could not get API latency";

/// The answer of `/ping`: the time between the command and now, and the
/// latency of the API connection if it is known, in milliseconds.
pub fn ping(created_ms: i64, now_ms: i64, api_ms: Option<u64>) -> (res: Reply)
    requires
        i64::MIN <= now_ms - created_ms <= i64::MAX,
    ensures
        res@ == (
            EmbedStatus::Sucess,
            "The bot is up and running!"@,
            None::<Seq<char>>,
            seq![
                ("Latency"@, signed_digits(now_ms - created_ms) + "ms"@),
                ("API Ping"@, match api_ms {
                    Some(a) => dec_digits(a as nat) + "ms"@,
                    None => NO_API_LATENCY@,
                }),
            ],
        ),
{
    let latency = now_ms - created_ms;
    let mut reply = Reply::new(EmbedStatus::Sucess, string_of("The bot is up and running!"), None);
    let mut l = i64_to_string(latency);
    l.append("ms");
    reply.add_field("Latency", l);
    let api = match api_ms {
        Some(a) => {
            let mut t = u64_to_string(a);
            t.append("ms");
            t
        },
        None => string_of(NO_API_LATENCY),
    };
    reply.add_field("API Ping", api);
    assert(reply@.3 =~= seq![
        ("Latency"@, signed_digits(now_ms - created_ms) + "ms"@),
        ("API Ping"@, match api_ms {
            Some(a) => dec_digits(a as nat) + "ms"@,
            None => NO_API_LATENCY@,
        }),
    ]);
    reply
}

/// A press of a share button (it sends `oreo_share`).
pub fn is_share_press(custom_id: &str) -> (res: bool)
    ensures
        res == (custom_id@ == SHARE_ID@),
{
    text_eq(custom_id, SHARE_ID)
}

/// A press of an unshare button (it sends `oreo_unshare`).
pub fn is_unshare_press(custom_id: &str) -> (res: bool)
    ensures
        res == (custom_id@ == UNSHARE_ID@),
{
    text_eq(custom_id, UNSHARE_ID)
}

/// What a press of the unshare button does: delete the shared message or
/// not, and the private answer (with a share row under it).
pub struct Unshare {
    pub delete_message: bool,
    pub reply: Reply,
}

/// Only admins can take a shared answer back.
pub fn unshare(presser_is_admin: bool) -> (res: Unshare)
    ensures
        res.delete_message == presser_is_admin,
        !presser_is_admin ==> res.reply@ == (
            EmbedStatus::Warning,
            "Not Admin"@,
            Some("You must be an admin to unshare this message"@),
            Seq::<(Seq<char>, Seq<char>)>::empty(),
        ),
        presser_is_admin ==> res.reply@ == (
            EmbedStatus::Sucess,
            "Unshare"@,
            Some("Message sucessfully unsahred"@),
            Seq::<(Seq<char>, Seq<char>)>::empty(),
        ),
{
    if !presser_is_admin {
        let reply = Reply::new(
            EmbedStatus::Warning,
            string_of("Not Admin"),
            Some(string_of("You must be an admin to unshare this message")),
        );
        Unshare { delete_message: false, reply }
    } else {
        let reply = Reply::new(
            EmbedStatus::Sucess,
            string_of("Unshare"),
            Some(string_of("Message sucessfully unsahred")),
        );
        Unshare { delete_message: true, reply }
    }
}

} // verus!

verus! {

/// Whether a user is an admin, by the flag of their database record: a user
/// without one is refused as not found.
pub fn is_admin(user: UserId, stored_admin: Option<bool>) -> (res: Result<bool, PrismaError>)
    ensures
        stored_admin matches Some(a) ==> res == Ok::<bool, PrismaError>(a),
        stored_admin is None ==> (res matches Err(PrismaError::NotFound(m)) && m@ == "user with id "@
            + dec_digits(user.0 as nat)),
{
    match stored_admin {
        Some(a) => Ok(a),
        None => {
            let n = u64_to_string(user.0);
            let mut m = string_of("user with id ");
            m.append(n.as_str());
            Err(PrismaError::NotFound(m))
        },
    }
}

} // verus!
