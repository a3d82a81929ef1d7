//! The `/role` commands: a member's own color role, and the roles that
//! admins manage.
use vstd::prelude::*;
use crate::color::{Color, spec_hex};
use crate::colors::rgb_value;
use crate::embed::{Reply, EmbedStatus};
use crate::error::CommandError;
use crate::ids::{RoleId, UserId};
use crate::message::mention::{create as mention, spec_create as spec_mention, MentionType};
use crate::text::{concat, dec_digits, string_of, u64_to_string};

verus! {

/// A field `(label, value)` when there is a value, nothing otherwise.
pub open spec fn opt_field(label: Seq<char>, value: Option<Seq<char>>) -> Seq<(Seq<char>, Seq<char>)> {
    match value {
        Some(v) => seq![(label, v)],
        None => Seq::empty(),
    }
}

pub open spec fn name_text(name: Option<String>) -> Option<Seq<char>> {
    match name {
        Some(n) => Some(n@),
        None => None,
    }
}

pub open spec fn hex_text(color: Option<Color>) -> Option<Seq<char>> {
    match color {
        Some(c) => Some(spec_hex(c)),
        None => None,
    }
}

/// How Discord mentions a role or a user by its number.
pub open spec fn mention_of(id: u64, kind: MentionType) -> Seq<char> {
    spec_mention(dec_digits(id as nat), kind)
}

pub open spec fn mention_text(id: Option<UserId>) -> Option<Seq<char>> {
    match id {
        Some(u) => Some(mention_of(u.0, MentionType::User)),
        None => None,
    }
}

fn add_name_field(reply: &mut Reply, label: &str, name: &Option<String>)
    ensures
        final(reply)@ == (old(reply)@.0, old(reply)@.1, old(reply)@.2, old(reply)@.3 + opt_field(label@, name_text(*name))),
{
    match name {
        Some(n) => {
            reply.add_field(label, n.clone());
        },
        None => {
            assert(old(reply)@.3 + opt_field(label@, name_text(*name)) =~= old(reply)@.3);
        },
    }
}

fn add_color_field(reply: &mut Reply, color: Option<Color>)
    ensures
        final(reply)@ == (old(reply)@.0, old(reply)@.1, old(reply)@.2, old(reply)@.3 + opt_field("Color"@, hex_text(color))),
{
    match color {
        Some(c) => {
            reply.add_field("Color", c.into_hex());
        },
        None => {
            assert(old(reply)@.3 + opt_field("Color"@, hex_text(color)) =~= old(reply)@.3);
        },
    }
}

fn add_user_field(reply: &mut Reply, label: &str, user: Option<UserId>)
    ensures
        final(reply)@ == (old(reply)@.0, old(reply)@.1, old(reply)@.2, old(reply)@.3 + opt_field(label@, mention_text(user))),
{
    match user {
        Some(u) => {
            let id = u64_to_string(u.0);
            reply.add_field(label, mention(id.as_str(), MentionType::User));
        },
        None => {
            assert(old(reply)@.3 + opt_field(label@, mention_text(user)) =~= old(reply)@.3);
        },
    }
}

/// A change of a member's color role: whose, its new name and color.
pub struct ColorRoleChange {
    pub user: UserId,
    pub name: Option<String>,
    pub color: Option<Color>,
    pub reply: Reply,
}

/// Whether `/role color_role` names a member other than its author.
pub open spec fn names_other(author: UserId, target: Option<UserId>) -> bool {
    target matches Some(u) && u != author
}

/// `/role color_role` by `author` (an admin or not), for `target` or for the
/// author: only an admin may change the role of another member.
pub fn color_role(
    author: UserId,
    author_is_admin: bool,
    target: Option<UserId>,
    name: Option<String>,
    color: Option<Color>,
) -> (res: Result<ColorRoleChange, CommandError>)
    ensures
        names_other(author, target) && !author_is_admin ==> (res matches Err(e) && e.is_runtime_error(
            "Admin"@,
            "You must be an admin to change other users' roles"@,
        )),
        !(names_other(author, target) && !author_is_admin) ==> (res matches Ok(c)
            && c.user == (match target {
            Some(u) => u,
            None => author,
        }) && name_text(c.name) == name_text(name) && c.color == color && c.reply@ == (
            EmbedStatus::Sucess,
            "Role > Set"@,
            Some("Sucessfully updated your role"@),
            opt_field("Name"@, name_text(name)) + opt_field("Color"@, hex_text(color)),
        )),
{
    let user = match target {
        Some(u) => {
            if u != author && !author_is_admin {
                return Err(
                    CommandError::runtime_error("Admin", "You must be an admin to change other users' roles"),
                );
            }
            u
        },
        None => author,
    };
    let mut reply = Reply::new(
        EmbedStatus::Sucess,
        string_of("Role > Set"),
        Some(string_of("Sucessfully updated your role")),
    );
    add_name_field(&mut reply, "Name", &name);
    add_color_field(&mut reply, color);
    assert(reply@.3 =~= opt_field("Name"@, name_text(name)) + opt_field("Color"@, hex_text(color)));
    Ok(ColorRoleChange { user, name, color, reply })
}

pub open spec fn colour_of(color: Option<Color>) -> Option<u32> {
    match color {
        Some(c) => Some(rgb_value(c.r, c.g, c.b)),
        None => None,
    }
}

/// What `/role edit` changes on a role and answers.
pub struct RoleEdit {
    /// The new color number of the role.
    pub colour: Option<u32>,
    pub reply: Reply,
}

/// `/role edit`: admins only, in a server, on one of its roles (the command
/// stops the program on a role that the server's cache lacks).
pub fn edit(
    author_is_admin: bool,
    in_guild: bool,
    role: RoleId,
    role_in_guild: bool,
    name: &Option<String>,
    color: Option<Color>,
    add: Option<UserId>,
    remove: Option<UserId>,
) -> (res: Result<RoleEdit, CommandError>)
    requires
        author_is_admin && in_guild ==> role_in_guild,
    ensures
        !author_is_admin ==> (res matches Err(e) && e.is_runtime_error("Admin"@, "This is an admin-only command"@)),
        author_is_admin && !in_guild ==> (res matches Err(CommandError::NotInGuild)),
        author_is_admin && in_guild ==> (res matches Ok(r) && r.colour == colour_of(color) && r.reply@ == (
            EmbedStatus::Sucess,
            "Role > Manage"@,
            Some("Sucessfully updated role "@ + mention_of(role.0, MentionType::Role)),
            opt_field("Name"@, name_text(*name)) + opt_field("Color"@, hex_text(color)) + opt_field(
                "Added to"@,
                mention_text(add),
            ) + opt_field("Removed from"@, mention_text(remove)),
        )),
{
    if !author_is_admin {
        return Err(CommandError::runtime_error("Admin", "This is an admin-only command"));
    }
    if !in_guild {
        return Err(CommandError::NotInGuild);
    }
    let colour = match color {
        Some(c) => Some(c.into_u32()),
        None => None,
    };
    let id = u64_to_string(role.0);
    let m = mention(id.as_str(), MentionType::Role);
    let description = concat("Sucessfully updated role ", m.as_str());
    let mut reply = Reply::new(EmbedStatus::Sucess, string_of("Role > Manage"), Some(description));
    add_name_field(&mut reply, "Name", name);
    add_color_field(&mut reply, color);
    add_user_field(&mut reply, "Added to", add);
    add_user_field(&mut reply, "Removed from", remove);
    Ok(RoleEdit { colour, reply })
}

/// `/role add` before the role is made: it needs a server, then an admin.
pub fn add_check(in_guild: bool, author_is_admin: bool) -> (res: Result<(), CommandError>)
    ensures
        !in_guild ==> (res matches Err(CommandError::NotInGuild)),
        in_guild && !author_is_admin ==> (res matches Err(e) && e.is_runtime_error(
            "Admin"@,
            "This is an admin-only command"@,
        )),
        in_guild && author_is_admin ==> res is Ok,
{
    if !in_guild {
        return Err(CommandError::NotInGuild);
    }
    if !author_is_admin {
        return Err(CommandError::runtime_error("Admin", "This is an admin-only command"));
    }
    Ok(())
}

/// A role that `/role add` creates.
pub struct NewRole {
    pub name: String,
    pub colour: u32,
    pub mentionable: bool,
    pub position: u64,
}

/// The role that `/role add` creates: not mentionable, at the top.
pub fn new_role(name: &str, color: Color) -> (res: NewRole)
    ensures
        res.name@ == name@,
        res.colour == rgb_value(color.r, color.g, color.b),
        !res.mentionable,
        res.position == 255,
{
    NewRole { name: string_of(name), colour: color.into_u32(), mentionable: false, position: 255 }
}

/// The answer of `/role add` once the role exists.
pub fn add_reply(role: RoleId, name: &str, color: Color) -> (res: Reply)
    ensures
        res@ == (
            EmbedStatus::Sucess,
            "Role > Create"@,
            Some("Successfully created a new role: "@ + mention_of(role.0, MentionType::Role)),
            seq![("Name"@, name@), ("Color"@, spec_hex(color))],
        ),
{
    let id = u64_to_string(role.0);
    let m = mention(id.as_str(), MentionType::Role);
    let description = concat("Successfully created a new role: ", m.as_str());
    let mut reply = Reply::new(EmbedStatus::Sucess, string_of("Role > Create"), Some(description));
    reply.add_field("Name", string_of(name));
    reply.add_field("Color", color.into_hex());
    assert(reply@.3 =~= seq![("Name"@, name@), ("Color"@, spec_hex(color))]);
    reply
}

} // verus!
