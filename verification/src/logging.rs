//! What the database log records of each event: which events it refuses
//! or skips, and the records it writes.
use vstd::prelude::*;
use crate::color::{Color, from_hex_defined, spec_from_hex, HEX_PARSE_PROBLEM};
use crate::colors::rgb_value;
use crate::dec::{u64_from_dec_str, dec_value_bounded};
use crate::error::{LoggingError, MessageError};
use crate::hex::{format_hex6, hex6};
use crate::ids::{MessageId, RoleId, UserId};
use crate::nci::roles::{can_log, spec_can_log, OVERRIDES, MEMBERS, BOTS};
use crate::sync::channels::{ChannelKind, ChannelOp, ChannelOpSpec, DbChannelType, DiscordChannel, ParentChange};
use crate::sync::roles::opt_view;
use crate::sync::users::{has_role, has_role_exec, role_texts, role_texts_exec, texts};
use crate::text::{chars_of, concat, dec_digits, string_of, u64_to_string};

verus! {

/// The database kind of a channel kind, where it has one.
pub open spec fn db_kind(kind: ChannelKind) -> Option<DbChannelType> {
    match kind {
        ChannelKind::News => Some(DbChannelType::News),
        ChannelKind::Text => Some(DbChannelType::Text),
        ChannelKind::Stage => Some(DbChannelType::Stage),
        ChannelKind::Voice => Some(DbChannelType::Voice),
        ChannelKind::Other => None,
    }
}

/// A new channel: threads are refused; kinds that the database does not
/// know are skipped; any other channel is recorded.
pub fn channel_create(channel: &DiscordChannel) -> (res: Result<Option<ChannelOp>, LoggingError>)
    ensures
        channel.is_thread ==> (res matches Err(LoggingError::ChannelIsThread(id)) && id == channel.id),
        !channel.is_thread && db_kind(channel.kind) is None ==> (res matches Ok(None)),
        !channel.is_thread && db_kind(channel.kind) is Some ==> (res matches Ok(Some(op))
            && op@ == ChannelOpSpec::Create {
            id: channel.id,
            name: channel.name@,
            nsfw: channel.nsfw,
            kind: db_kind(channel.kind)->0,
            topic: opt_view(channel.topic),
            parent: channel.parent_id,
        }),
{
    if channel.is_thread {
        return Err(LoggingError::ChannelIsThread(channel.id));
    }
    let kind = match channel.kind {
        ChannelKind::News => DbChannelType::News,
        ChannelKind::Text => DbChannelType::Text,
        ChannelKind::Stage => DbChannelType::Stage,
        ChannelKind::Voice => DbChannelType::Voice,
        ChannelKind::Other => {
            return Ok(None);
        },
    };
    Ok(
        Some(
            ChannelOp::Create {
                id: channel.id,
                name: channel.name.clone(),
                nsfw: channel.nsfw,
                kind,
                topic: channel.topic.clone(),
                parent: channel.parent_id,
            },
        ),
    )
}

/// A changed channel: threads are refused; otherwise its name, topic,
/// nsfw flag and category are written over the record.
pub fn channel_update(channel: &DiscordChannel) -> (res: Result<ChannelOp, LoggingError>)
    ensures
        channel.is_thread ==> (res matches Err(LoggingError::ChannelIsThread(id)) && id == channel.id),
        !channel.is_thread ==> (res matches Ok(op) && op@ == ChannelOpSpec::Update {
            id: channel.id,
            name: Some(channel.name@),
            topic: Some(opt_view(channel.topic)),
            nsfw: Some(channel.nsfw),
            kind: None,
            parent: Some(
                match channel.parent_id {
                    Some(p) => ParentChange::Connect(p),
                    None => ParentChange::Disconnect,
                },
            ),
        }),
{
    if channel.is_thread {
        return Err(LoggingError::ChannelIsThread(channel.id));
    }
    let parent = match channel.parent_id {
        Some(p) => ParentChange::Connect(p),
        None => ParentChange::Disconnect,
    };
    Ok(
        ChannelOp::Update {
            id: channel.id,
            name: Some(channel.name.clone()),
            topic: Some(channel.topic.clone()),
            nsfw: Some(channel.nsfw),
            kind: None,
            parent: Some(parent),
        },
    )
}

/// The listeners of channel events let a refused thread pass as success.
pub fn absorb_thread(r: Result<(), LoggingError>) -> (res: Result<(), LoggingError>)
    ensures
        (r matches Err(LoggingError::ChannelIsThread(_))) ==> res is Ok,
        !(r matches Err(LoggingError::ChannelIsThread(_))) ==> res == r,
{
    match r {
        Err(LoggingError::ChannelIsThread(_)) => Ok(()),
        other => other,
    }
}

/// A role as the log records it: its number, name and color as six
/// upper-case hexadecimal digits.
pub struct RoleRecord {
    pub id: RoleId,
    pub name: String,
    pub color: String,
}

/// The record of a role.
pub fn role_record(id: RoleId, name: &str, colour: u32) -> (res: RoleRecord)
    ensures
        res.id == id,
        res.name@ == name@,
        res.color@ == hex6(colour),
{
    RoleRecord { id, name: string_of(name), color: format_hex6(colour) }
}

/// A changed role is written over its record, except that a role that may
/// be logged is refused as blacklisted (the test is the other way round
/// from its name, and that is what the log does).
pub fn role_update(id: RoleId, name: &str, colour: u32) -> (res: Result<RoleRecord, LoggingError>)
    ensures
        spec_can_log(id) ==> (res matches Err(LoggingError::Blacklisted(m)) && m@ == "role with id "@
            + dec_digits(id.0 as nat)),
        !spec_can_log(id) ==> (res matches Ok(r) && r.id == id && r.name@ == name@ && r.color@ == hex6(
            colour,
        )),
{
    if can_log(id) {
        let n = u64_to_string(id.0);
        return Err(LoggingError::Blacklisted(concat("role with id ", n.as_str())));
    }
    Ok(role_record(id, name, colour))
}

/// The stored number of a role's first user.
pub open spec fn stored_user_id(first_user: Option<(String, bool)>) -> Seq<char> {
    match first_user {
        Some((id, _)) => id@,
        None => Seq::empty(),
    }
}

/// The role is a color role whose first user has not left.
pub open spec fn owner_wanted(color_role: bool, first_user: Option<(String, bool)>) -> bool {
    color_role && match first_user {
        Some((_, removed)) => !removed,
        None => false,
    }
}

/// A deleted role whose color-role owner should be looked up: the role is a
/// color role, it has a first user and that user has not left. The owner's
/// number is read from the record (the log stops the program when it is
/// not a number).
pub fn deleted_role_owner(color_role: bool, first_user: &Option<(String, bool)>) -> (res: Option<UserId>)
    requires
        owner_wanted(color_role, *first_user) ==> u64_from_dec_str(stored_user_id(*first_user)) is Some,
    ensures
        owner_wanted(color_role, *first_user) ==> res == Some(
            UserId(u64_from_dec_str(stored_user_id(*first_user))->0),
        ),
        !owner_wanted(color_role, *first_user) ==> res is None,
{
    if !color_role {
        return None;
    }
    match first_user {
        Some((id, removed)) => {
            if *removed {
                return None;
            }
            let cs = chars_of(id.as_str());
            assert(cs@.subrange(0, cs@.len() as int) =~= cs@);
            match dec_value_bounded(&cs, 0, cs.len(), u64::MAX) {
                Some(v) => Some(UserId(v)),
                None => None,
            }
        },
        None => None,
    }
}

/// What happens to the record of a deleted role.
pub enum RoleDeleteAction {
    /// Its owner is still here: make the role again with this name and
    /// color, give it to them, and move the record to the new role.
    Recreate { name: String, colour: u32 },
    /// Mark the record deleted and take it from its users.
    MarkDeleted,
}

/// The action on a deleted role's record, given whether its owner was found
/// on the server (then the stored color must be readable as hexadecimal
/// without stopping the program). A color that is not three pieces fails
/// with the error of `Color::from_hex`, handed on as it is.
pub fn deleted_role_action(owner_found: bool, name: &str, stored_color: &str) -> (res: Result<RoleDeleteAction, MessageError>)
    requires
        owner_found ==> from_hex_defined(stored_color@),
    ensures
        !owner_found ==> (res matches Ok(RoleDeleteAction::MarkDeleted)),
        owner_found && spec_from_hex(stored_color@) is None ==> (res matches Err(e) && e.0@ == HEX_PARSE_PROBLEM@),
        owner_found && spec_from_hex(stored_color@) is Some ==> (res matches Ok(RoleDeleteAction::Recreate { name: n, colour })
            && n@ == name@ && colour == rgb_value(
            spec_from_hex(stored_color@)->0.r,
            spec_from_hex(stored_color@)->0.g,
            spec_from_hex(stored_color@)->0.b,
        )),
{
    if !owner_found {
        return Ok(RoleDeleteAction::MarkDeleted);
    }
    match Color::from_hex(stored_color) {
        Ok(c) => Ok(RoleDeleteAction::Recreate { name: string_of(name), colour: c.into_u32() }),
        Err(e) => Err(e),
    }
}

/// What the database says of a member who joins again.
#[derive(Debug, Clone, Copy, PartialEq, Eq, Structural)]
pub struct StoredFlags {
    pub admin: bool,
    pub verified: bool,
    pub bot: bool,
}

/// The roles a joining member gets: the new color role, then the roles that
/// the database remembers (admin, verified, bot), in that order.
pub open spec fn spec_join_roles(color_role: RoleId, stored: Option<StoredFlags>) -> Seq<RoleId> {
    match stored {
        Some(f) => seq![color_role] + (if f.admin {
            seq![RoleId(OVERRIDES)]
        } else {
            Seq::empty()
        }) + (if f.verified {
            seq![RoleId(MEMBERS)]
        } else {
            Seq::empty()
        }) + (if f.bot {
            seq![RoleId(BOTS)]
        } else {
            Seq::empty()
        }),
        None => seq![color_role],
    }
}

pub fn join_roles(color_role: RoleId, stored: Option<StoredFlags>) -> (res: Vec<RoleId>)
    ensures
        res@ == spec_join_roles(color_role, stored),
{
    let mut v: Vec<RoleId> = Vec::new();
    v.push(color_role);
    match stored {
        Some(f) => {
            let ghost v0 = v@;
            if f.admin {
                v.push(RoleId(OVERRIDES));
            }
            let ghost v1 = v@;
            if f.verified {
                v.push(RoleId(MEMBERS));
            }
            let ghost v2 = v@;
            if f.bot {
                v.push(RoleId(BOTS));
            }
            assert(v@ =~= spec_join_roles(color_role, stored));
        },
        None => {
            assert(v@ =~= spec_join_roles(color_role, stored));
        },
    }
    v
}

/// Why a member's record could not be brought up to date.
#[derive(Debug)]
pub enum MemberLogError {
    /// The database has no color role for the member.
    NoColorRole,
    /// The stored number of the color role is not a number.
    InvalidRoleId(String),
}

/// The update of a member's record after a change on the server.
pub struct MemberUpdate {
    /// The color role to give back, when the member lost it.
    pub restore_color_role: Option<RoleId>,
    pub admin: bool,
    pub verified: bool,
    pub bot: bool,
    /// The new user name, when it changed.
    pub username: Option<String>,
    /// The new nickname, when it changed.
    pub nickname: Option<Option<String>>,
    /// The numbers of the roles to connect to the record.
    pub connect: Vec<String>,
}

pub open spec fn opt_opt_view(o: Option<Option<String>>) -> Option<Option<Seq<char>>> {
    match o {
        Some(x) => Some(opt_view(x)),
        None => None,
    }
}

/// Whether the member's roles include the one stored under this number.
pub open spec fn holds_stored_role(roles: Seq<RoleId>, stored: Seq<char>) -> bool {
    role_texts(roles).contains(stored)
}

fn texts_contain(v: &Vec<String>, t: &String) -> (res: bool)
    ensures
        res == texts(*v).contains(t@),
{
    let mut i: usize = 0;
    while i < v.len()
        invariant
            i <= v@.len(),
            forall|j: int| 0 <= j < i ==> texts(*v)[j] != t@,
        decreases v@.len() - i,
    {
        if v[i] == *t {
            assert(texts(*v)[i as int] == t@);
            return true;
        }
        i = i + 1;
    }
    false
}

fn same_opt_text(a: &Option<String>, b: &Option<String>) -> (res: bool)
    ensures
        res == (opt_view(*a) == opt_view(*b)),
{
    match (a, b) {
        (Some(x), Some(y)) => *x == *y,
        (None, None) => true,
        _ => false,
    }
}

/// A member changed on the server: their stored color role (the first of
/// the record's color roles) is given back if they lost it, their flags
/// follow their roles, and their names are written when they changed.
pub fn member_update(
    roles: &Vec<RoleId>,
    stored_color_roles: &Vec<String>,
    name: &String,
    nick: &Option<String>,
    stored_name: &String,
    stored_nick: &Option<String>,
) -> (res: Result<MemberUpdate, MemberLogError>)
    ensures
        stored_color_roles@.len() == 0 ==> (res matches Err(MemberLogError::NoColorRole)),
        stored_color_roles@.len() > 0 && !holds_stored_role(roles@, stored_color_roles@[0]@)
            && u64_from_dec_str(stored_color_roles@[0]@) is None ==> (res matches Err(MemberLogError::InvalidRoleId(s))
            && s@ == stored_color_roles@[0]@),
        res matches Ok(u) ==> {
            &&& stored_color_roles@.len() > 0
            &&& u.restore_color_role == (if holds_stored_role(roles@, stored_color_roles@[0]@) {
                None
            } else {
                Some(RoleId(u64_from_dec_str(stored_color_roles@[0]@)->0))
            })
            &&& u.admin == has_role(roles@, OVERRIDES)
            &&& u.verified == has_role(roles@, MEMBERS)
            &&& u.bot == has_role(roles@, BOTS)
            &&& opt_view(u.username) == (if name@ != stored_name@ {
                Some(name@)
            } else {
                None
            })
            &&& opt_opt_view(u.nickname) == (if opt_view(*nick) != opt_view(*stored_nick) {
                Some(opt_view(*nick))
            } else {
                None
            })
            &&& texts(u.connect) == (if holds_stored_role(roles@, stored_color_roles@[0]@) {
                role_texts(roles@)
            } else {
                role_texts(roles@).push(stored_color_roles@[0]@)
            })
        },
        stored_color_roles@.len() > 0 && (holds_stored_role(roles@, stored_color_roles@[0]@) || u64_from_dec_str(stored_color_roles@[0]@) is Some) ==> res is Ok,
{
    if stored_color_roles.len() == 0 {
        return Err(MemberLogError::NoColorRole);
    }
    let stored = &stored_color_roles[0];
    let mut connect = role_texts_exec(roles);
    let holds = texts_contain(&connect, stored);
    let restore = if holds {
        None
    } else {
        let cs = chars_of(stored.as_str());
        assert(cs@.subrange(0, cs@.len() as int) =~= cs@);
        match dec_value_bounded(&cs, 0, cs.len(), u64::MAX) {
            Some(v) => {
                connect.push(stored.clone());
                assert(texts(connect) =~= role_texts(roles@).push(stored_color_roles@[0]@));
                Some(RoleId(v))
            },
            None => {
                return Err(MemberLogError::InvalidRoleId(stored.clone()));
            },
        }
    };
    let admin = has_role_exec(roles, OVERRIDES);
    let verified = has_role_exec(roles, MEMBERS);
    let bot = has_role_exec(roles, BOTS);
    let username = if *name != *stored_name {
        Some(name.clone())
    } else {
        None
    };
    let nickname = if !same_opt_text(nick, stored_nick) {
        Some(nick.clone())
    } else {
        None
    };
    Ok(MemberUpdate { restore_color_role: restore, admin, verified, bot, username, nickname, connect })
}

/// A member left: the color role to delete is the first of the record's
/// color roles (deleting it sends a role deletion, which the log handles).
pub fn member_leave(stored_color_roles: &Vec<String>) -> (res: Result<RoleId, MemberLogError>)
    ensures
        stored_color_roles@.len() == 0 ==> (res matches Err(MemberLogError::NoColorRole)),
        stored_color_roles@.len() > 0 && u64_from_dec_str(stored_color_roles@[0]@) is None ==> (res matches Err(MemberLogError::InvalidRoleId(s))
            && s@ == stored_color_roles@[0]@),
        stored_color_roles@.len() > 0 && u64_from_dec_str(stored_color_roles@[0]@) is Some ==> res == Ok::<RoleId, MemberLogError>(
            RoleId(u64_from_dec_str(stored_color_roles@[0]@)->0),
        ),
{
    if stored_color_roles.len() == 0 {
        return Err(MemberLogError::NoColorRole);
    }
    let stored = &stored_color_roles[0];
    let cs = chars_of(stored.as_str());
    assert(cs@.subrange(0, cs@.len() as int) =~= cs@);
    match dec_value_bounded(&cs, 0, cs.len(), u64::MAX) {
        Some(v) => Ok(RoleId(v)),
        None => Err(MemberLogError::InvalidRoleId(stored.clone())),
    }
}

/// A new message is recorded unless a webhook sent it (skipped) or its
/// author speaks through the bot as someone else (refused).
pub fn message_create(from_webhook: bool, author_impersonates: bool, author: UserId) -> (res: Result<bool, LoggingError>)
    ensures
        from_webhook ==> res == Ok::<bool, LoggingError>(false),
        !from_webhook && author_impersonates ==> (res matches Err(LoggingError::UserImpersonated(u)) && u == author),
        !from_webhook && !author_impersonates ==> res == Ok::<bool, LoggingError>(true),
{
    if from_webhook {
        return Ok(false);
    }
    if author_impersonates {
        return Err(LoggingError::UserImpersonated(author));
    }
    Ok(true)
}

/// The content recorded for an edited message: nothing when the edit did
/// not carry one.
pub fn edited_content(content: Option<String>) -> (res: String)
    ensures
        res@ == (match content {
            Some(c) => c@,
            None => Seq::<char>::empty(),
        }),
{
    match content {
        Some(c) => c,
        None => String::new(),
    }
}

/// A deleted message, given whether the database has it and whether it
/// stands for an impersonated message: unknown messages are refused,
/// impersonated ones are kept for now, others are marked deleted with their
/// attachments.
pub fn message_delete(id: MessageId, known: bool, impersonated: bool) -> (res: Result<bool, LoggingError>)
    ensures
        !known ==> (res matches Err(LoggingError::NotFound(m)) && m@ == "message with id "@ + dec_digits(
            id.0 as nat,
        )),
        known && impersonated ==> res == Ok::<bool, LoggingError>(false),
        known && !impersonated ==> res == Ok::<bool, LoggingError>(true),
{
    if !known {
        let n = u64_to_string(id.0);
        return Err(LoggingError::NotFound(concat("message with id ", n.as_str())));
    }
    if impersonated {
        return Ok(false);
    }
    Ok(true)
}

/// An interaction can be answered again later when it was answered within
/// three seconds and belongs to this bot.
pub fn interaction_reusable(answered: bool, application_id: u64, current_application_id: u64) -> (res: bool)
    ensures
        res == (answered && application_id == current_application_id),
{
    answered && application_id == current_application_id
}

/// The attachments of an edited message that it no longer has: those
/// recorded, each once, that are not among its attachments now (nothing
/// when the edit does not list attachments).
pub open spec fn spec_stale_attachments(now: Option<Seq<Seq<char>>>, recorded: Seq<Seq<char>>) -> Option<Set<Seq<char>>> {
    match now {
        Some(n) => Some(recorded.to_set().difference(n.to_set())),
        None => None,
    }
}

pub fn stale_attachments(now: &Option<Vec<String>>, recorded: &Vec<String>) -> (res: Option<Vec<String>>)
    ensures
        match (now, spec_stale_attachments(
            match now {
                Some(n) => Some(texts(*n)),
                None => None,
            },
            texts(*recorded),
        )) {
            (Some(_), Some(s)) => res matches Some(v) && texts(v).to_set() == s && texts(v).no_duplicates(),
            _ => res is None,
        },
{
    let n = match now {
        Some(n) => n,
        None => {
            return None;
        },
    };
    let mut out: Vec<String> = Vec::new();
    let mut i: usize = 0;
    while i < recorded.len()
        invariant
            i <= recorded@.len(),
            texts(out).to_set() == texts(*recorded).subrange(0, i as int).to_set().difference(texts(*n).to_set()),
            texts(out).no_duplicates(),
        decreases recorded@.len() - i,
    {
        let t = &recorded[i];
        let ghost before = texts(out);
        let ghost pre = texts(*recorded).subrange(0, i as int);
        assert(texts(*recorded).subrange(0, i + 1) =~= pre.push(t@));
        let stale = !texts_contain(n, t) && !texts_contain(&out, t);
        if stale {
            out.push(t.clone());
            assert(texts(out) =~= before.push(t@));
        }
        proof {
            pre.lemma_push_to_set_commute(t@);
            if !texts(*n).contains(t@) && before.contains(t@) {
                assert(before.to_set().contains(t@));
            }
            assert(texts(out).to_set() =~= pre.push(t@).to_set().difference(texts(*n).to_set())) by {
                assert forall|x: Seq<char>| #[trigger] texts(out).to_set().contains(x) == pre.push(t@).to_set().difference(texts(*n).to_set()).contains(x) by {
                    if stale {
                        assert(texts(out).to_set().contains(x) == (before.to_set().contains(x) || x == t@)) by {
                            if texts(out).to_set().contains(x) {
                                let k = texts(out).index_of(x);
                                if k < before.len() {
                                    assert(before[k] == x);
                                }
                            }
                            if before.to_set().contains(x) {
                                let k = before.index_of(x);
                                assert(texts(out)[k] == x);
                            }
                            if x == t@ {
                                assert(texts(out)[before.len() as int] == x);
                            }
                        }
                    }
                }
            }
        }
        i = i + 1;
    }
    assert(texts(*recorded).subrange(0, recorded@.len() as int) =~= texts(*recorded));
    Some(out)
}

} // verus!
