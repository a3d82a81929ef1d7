//! What the bot's replies look like: the status colors and footer of its
//! embeds, their titles, descriptions and fields, the share buttons, and
//! the role that a new member gets.
use vstd::prelude::*;
use crate::colors::{PRIMARY, WARN, ERROR, rgb_value, colour_from_rgb};
use crate::text::string_of;

verus! {

/// How a reply went; it decides the color of the embed.
#[derive(Debug, Clone, Copy, PartialEq, Eq, Structural, Hash)]
pub enum EmbedStatus {
    Sucess,
    Warning,
    Error,
}

impl EmbedStatus {
    pub open spec fn spec_rgb(self) -> (u8, u8, u8) {
        match self {
            EmbedStatus::Sucess => PRIMARY,
            EmbedStatus::Warning => WARN,
            EmbedStatus::Error => ERROR,
        }
    }

    /// The color of the embed, as components.
    pub fn rgb(self) -> (res: (u8, u8, u8))
        ensures
            res == self.spec_rgb(),
    {
        match self {
            EmbedStatus::Sucess => PRIMARY,
            EmbedStatus::Warning => WARN,
            EmbedStatus::Error => ERROR,
        }
    }

    pub open spec fn spec_colour(self) -> u32 {
        rgb_value(self.spec_rgb().0, self.spec_rgb().1, self.spec_rgb().2)
    }

    /// The color of the embed, as Discord's number.
    pub fn colour(self) -> (res: u32)
        ensures
            res == self.spec_colour(),
    {
        let (r, g, b) = self.rgb();
        colour_from_rgb(r, g, b)
    }
}

/// The footer text of every embed.
pub const FOOTER_TEXT: &'static str = "OreoBot";

/// The footer icon where the bot's user has no avatar.
pub const DEFAULT_ICON_URL: &'static str = "https://cdn.discordapp.com/avatars/1025778682394058772/83ba9fd96ca2f8931e7c7e0b7d8d2431.webp?size=80";

/// The parts of an embed that do not depend on the reply: color and footer
/// (the time stamp is the time of sending).
pub struct EmbedBase {
    pub colour: u32,
    pub footer_text: String,
    pub icon_url: String,
}

fn base(avatar_url: Option<String>, status: EmbedStatus) -> (res: EmbedBase)
    ensures
        res.colour == status.spec_colour(),
        res.footer_text@ == FOOTER_TEXT@,
        res.icon_url@ == (match avatar_url {
            Some(u) => u@,
            None => DEFAULT_ICON_URL@,
        }),
{
    let icon_url = match avatar_url {
        Some(u) => u,
        None => string_of(DEFAULT_ICON_URL),
    };
    EmbedBase { colour: status.colour(), footer_text: string_of(FOOTER_TEXT), icon_url }
}

/// The base of an embed that answers a command, given the avatar of the
/// bot's user.
pub fn default(avatar_url: Option<String>, status: EmbedStatus) -> (res: EmbedBase)
    ensures
        res.colour == status.spec_colour(),
        res.footer_text@ == FOOTER_TEXT@,
        res.icon_url@ == (match avatar_url {
            Some(u) => u@,
            None => DEFAULT_ICON_URL@,
        }),
{
    base(avatar_url, status)
}

/// The base of an embed sent outside a command, given the avatar of the
/// bot's user.
pub fn serenity_default(avatar_url: Option<String>, status: EmbedStatus) -> (res: EmbedBase)
    ensures
        res.colour == status.spec_colour(),
        res.footer_text@ == FOOTER_TEXT@,
        res.icon_url@ == (match avatar_url {
            Some(u) => u@,
            None => DEFAULT_ICON_URL@,
        }),
{
    base(avatar_url, status)
}

/// A field of an embed (always shown inline): its name and its value.
pub struct Field {
    pub name: String,
    pub value: String,
}

/// What a reply says: its status, title, description (if any) and fields.
pub struct Reply {
    pub status: EmbedStatus,
    pub title: String,
    pub description: Option<String>,
    pub fields: Vec<Field>,
}

pub open spec fn text_opt(t: Option<String>) -> Option<Seq<char>> {
    match t {
        Some(s) => Some(s@),
        None => None,
    }
}

impl View for Reply {
    type V = (EmbedStatus, Seq<char>, Option<Seq<char>>, Seq<(Seq<char>, Seq<char>)>);

    open spec fn view(&self) -> Self::V {
        (
            self.status,
            self.title@,
            text_opt(self.description),
            self.fields@.map_values(|f: Field| (f.name@, f.value@)),
        )
    }
}

impl Reply {
    /// A reply without fields.
    pub fn new(status: EmbedStatus, title: String, description: Option<String>) -> (res: Reply)
        ensures
            res@ == (status, title@, text_opt(description), Seq::<(Seq<char>, Seq<char>)>::empty()),
    {
        let res = Reply { status, title, description, fields: Vec::new() };
        assert(res@.3 =~= Seq::<(Seq<char>, Seq<char>)>::empty());
        res
    }

    /// Adds a field after the others.
    pub fn add_field(&mut self, name: &str, value: String)
        ensures
            final(self)@ == (old(self)@.0, old(self)@.1, old(self)@.2, old(self)@.3.push((name@, value@))),
    {
        self.fields.push(Field { name: string_of(name), value });
        assert(self@.3 =~= old(self)@.3.push((name@, value@)));
    }
}

/// The answer shown while a command waits: a yellow "Loading" with the
/// reason (under it, a share row that cannot be pressed yet).
pub fn loading(message: &str) -> (res: Reply)
    ensures
        res@ == (
            EmbedStatus::Warning,
            "Loading"@,
            Some(message@),
            Seq::<(Seq<char>, Seq<char>)>::empty(),
        ),
{
    Reply::new(EmbedStatus::Warning, string_of("Loading"), Some(string_of(message)))
}

/// The look of a button.
#[derive(Debug, Clone, Copy, PartialEq, Eq, Structural)]
pub enum ButtonStyle {
    Secondary,
    Danger,
    Link,
}

/// A button: what it sends back when pressed (or the link it opens), its
/// label, its look and whether it can be pressed.
pub struct Button {
    pub custom_id: Option<String>,
    pub url: Option<String>,
    pub label: String,
    pub style: ButtonStyle,
    pub disabled: bool,
}

impl View for Button {
    type V = (Option<Seq<char>>, Option<Seq<char>>, Seq<char>, ButtonStyle, bool);

    open spec fn view(&self) -> Self::V {
        (text_opt(self.custom_id), text_opt(self.url), self.label@, self.style, self.disabled)
    }
}

/// The id that a share button sends.
pub const SHARE_ID: &'static str = "oreo_share";

/// The id that an unshare button sends.
pub const UNSHARE_ID: &'static str = "oreo_unshare";

/// The button that shares an answer with the channel.
pub fn button(disabled: bool) -> (res: Button)
    ensures
        res@ == (Some(SHARE_ID@), None::<Seq<char>>, "Share"@, ButtonStyle::Secondary, disabled),
{
    Button {
        custom_id: Some(string_of(SHARE_ID)),
        url: None,
        label: string_of("Share"),
        style: ButtonStyle::Secondary,
        disabled,
    }
}

/// The button that takes a shared answer back.
pub fn unshare_button() -> (res: Button)
    ensures
        res@ == (Some(UNSHARE_ID@), None::<Seq<char>>, "Unshare"@, ButtonStyle::Danger, false),
{
    Button {
        custom_id: Some(string_of(UNSHARE_ID)),
        url: None,
        label: string_of("Unshare"),
        style: ButtonStyle::Danger,
        disabled: false,
    }
}

/// A row of buttons, by their views.
pub open spec fn row_view(row: Seq<Button>) -> Seq<<Button as View>::V> {
    row.map_values(|b: Button| b@)
}

/// The row that holds the share button.
pub fn row(disabled: bool) -> (res: Vec<Button>)
    ensures
        row_view(res@) == seq![button_view(SHARE_ID@, "Share"@, ButtonStyle::Secondary, disabled)],
{
    let mut v: Vec<Button> = Vec::new();
    v.push(button(disabled));
    assert(row_view(v@) =~= seq![button_view(SHARE_ID@, "Share"@, ButtonStyle::Secondary, disabled)]);
    v
}

/// The row that holds the unshare button.
pub fn unshare_row() -> (res: Vec<Button>)
    ensures
        row_view(res@) == seq![button_view(UNSHARE_ID@, "Unshare"@, ButtonStyle::Danger, false)],
{
    let mut v: Vec<Button> = Vec::new();
    v.push(unshare_button());
    assert(row_view(v@) =~= seq![button_view(UNSHARE_ID@, "Unshare"@, ButtonStyle::Danger, false)]);
    v
}

/// The view of a button that sends an id.
pub open spec fn button_view(id: Seq<char>, label: Seq<char>, style: ButtonStyle, disabled: bool) -> <Button as View>::V {
    (Some(id), None, label, style, disabled)
}

/// A role to create: its name and color number.
pub struct RoleSpec {
    pub name: String,
    pub colour: u32,
}

/// The color role that a member gets: named after the member, in the
/// primary color.
pub fn default_role(member_name: &str) -> (res: RoleSpec)
    ensures
        res.name@ == member_name@,
        res.colour == rgb_value(PRIMARY.0, PRIMARY.1, PRIMARY.2),
{
    RoleSpec { name: string_of(member_name), colour: colour_from_rgb(PRIMARY.0, PRIMARY.1, PRIMARY.2) }
}

} // verus!
