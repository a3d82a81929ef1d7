//! The library's error types, the text each one displays, and the
//! `make_error` conversions.
use vstd::prelude::*;
use crate::ids::{ChannelId, MessageId, UserId};
use crate::text::{concat, dec_digits, u64_to_string};

verus! {

/// `format!("{:?}", fields)` for a list of texts.
pub uninterp spec fn debug_text_list(fields: Seq<Seq<char>>) -> Seq<char>;

/// `format!("{:?}", fields)`: the `Debug` spelling of a list of texts.
#[verifier::external_body]
fn format_debug_list(fields: &Vec<String>) -> (res: String)
    ensures
        res@ == debug_text_list(fields@.map_values(|s: String| s@)),
{
    format!("{:?}", fields)
}

/// `a`, the text of `b`, then `c`.
fn around(a: &str, b: &str, c: &str) -> (res: String)
    ensures
        res@ == a@ + b@ + c@,
{
    let mut s = concat(a, b);
    s.append(c);
    s
}

/// Fields that a record needed and the database did not have.
#[derive(Debug)]
pub struct UnfinishedBuilderError(pub Vec<String>);

impl UnfinishedBuilderError {
    pub open spec fn spec_message(&self) -> Seq<char> {
        "required field(s) "@ + debug_text_list(self.0@.map_values(|s: String| s@)) + " not found in database"@
    }

    /// The text that the error displays.
    pub fn message(&self) -> (res: String)
        ensures
            res@ == self.spec_message(),
    {
        let list = format_debug_list(&self.0);
        around("required field(s) ", list.as_str(), " not found in database")
    }
}

/// An error that is only a message, as `anyhow`'s `context` makes one.
#[derive(Debug)]
pub struct MessageError(pub String);

impl MessageError {
    pub open spec fn spec_message(&self) -> Seq<char> {
        self.0@
    }

    /// The text that the error displays: its message.
    pub fn message(&self) -> (res: String)
        ensures
            res@ == self.spec_message(),
    {
        self.0.clone()
    }
}

/// Why a color could not be read.
#[derive(Debug)]
pub enum ColorParseError {
    ParseHex(String),
    ParseName(String),
    ParseStr(String),
}

impl ColorParseError {
    pub open spec fn spec_message(&self) -> Seq<char> {
        match self {
            ColorParseError::ParseHex(x) => "failed to parse from hex "@ + x@,
            ColorParseError::ParseName(x) => "failed to parse from color name "@ + x@,
            ColorParseError::ParseStr(x) => "Color::from_str failed to parse "@ + x@,
        }
    }

    /// The text that the error displays.
    pub fn message(&self) -> (res: String)
        ensures
            res@ == self.spec_message(),
    {
        match self {
            ColorParseError::ParseHex(x) => {
                concat("failed to parse from hex ", x.as_str())
            },
            ColorParseError::ParseName(x) => {
                concat("failed to parse from color name ", x.as_str())
            },
            ColorParseError::ParseStr(x) => {
                concat("Color::from_str failed to parse ", x.as_str())
            },
        }
    }
}

/// A failed database query.
#[derive(Debug)]
pub enum PrismaError {
    PrismaQuery(String),
    PrismaCreate(String),
    NotFound(String),
}

impl PrismaError {
    pub open spec fn spec_message(&self) -> Seq<char> {
        match self {
            PrismaError::PrismaQuery(x) => "prisma query error: "@ + x@,
            PrismaError::PrismaCreate(x) => "prisma create error: "@ + x@,
            PrismaError::NotFound(x) => ""@ + x@ + " not found in database"@,
        }
    }

    /// The text that the error displays.
    pub fn message(&self) -> (res: String)
        ensures
            res@ == self.spec_message(),
    {
        match self {
            PrismaError::PrismaQuery(x) => {
                concat("prisma query error: ", x.as_str())
            },
            PrismaError::PrismaCreate(x) => {
                concat("prisma create error: ", x.as_str())
            },
            PrismaError::NotFound(x) => {
                around("", x.as_str(), " not found in database")
            },
        }
    }
}

/// A failure of the cache.
#[derive(Debug)]
pub enum CacheError {
    Serde(String),
    DefaultValueFailed(String),
    OnChangeFailed(String),
    GetFailed(String),
    UpdateFailed(String),
}

impl CacheError {
    pub open spec fn spec_message(&self) -> Seq<char> {
        match self {
            CacheError::Serde(x) => "serde error: "@ + x@,
            CacheError::DefaultValueFailed(x) => "<"@ + x@ + ">::default_value failed"@,
            CacheError::OnChangeFailed(x) => "<"@ + x@ + ">::on_change failed"@,
            CacheError::GetFailed(x) => "<"@ + x@ + ">::get failed"@,
            CacheError::UpdateFailed(x) => "<"@ + x@ + ">::update failed"@,
        }
    }

    /// The text that the error displays.
    pub fn message(&self) -> (res: String)
        ensures
            res@ == self.spec_message(),
    {
        match self {
            CacheError::Serde(x) => {
                concat("serde error: ", x.as_str())
            },
            CacheError::DefaultValueFailed(x) => {
                around("<", x.as_str(), ">::default_value failed")
            },
            CacheError::OnChangeFailed(x) => {
                around("<", x.as_str(), ">::on_change failed")
            },
            CacheError::GetFailed(x) => {
                around("<", x.as_str(), ">::get failed")
            },
            CacheError::UpdateFailed(x) => {
                around("<", x.as_str(), ">::update failed")
            },
        }
    }
}

/// A failure of the event bus.
#[derive(Debug)]
pub enum EventError {
    Serde(String),
}

impl EventError {
    pub open spec fn spec_message(&self) -> Seq<char> {
        match self {
            EventError::Serde(x) => "serde error "@ + x@,
        }
    }

    /// The text that the error displays.
    pub fn message(&self) -> (res: String)
        ensures
            res@ == self.spec_message(),
    {
        match self {
            EventError::Serde(x) => {
                concat("serde error ", x.as_str())
            },
        }
    }
}

/// A failure while cloning a message.
#[derive(Debug)]
pub enum MessageCloneError {
    Serenity(String),
    PrismaQuery(String),
    PrismaCreate(String),
    PrismaRelationNotFetched(String),
    NoWebhook,
    NoWebhookMessage,
    NciNotFound,
}

impl MessageCloneError {
    pub open spec fn spec_message(&self) -> Seq<char> {
        match self {
            MessageCloneError::Serenity(x) => "serenity error: "@ + x@,
            MessageCloneError::PrismaQuery(x) => "prisma query error: "@ + x@,
            MessageCloneError::PrismaCreate(x) => "prisma create error: "@ + x@,
            MessageCloneError::PrismaRelationNotFetched(x) => "prisma relation not fetched error: "@ + x@,
            MessageCloneError::NoWebhook => "webhook not found while trying to resync"@,
            MessageCloneError::NoWebhookMessage => "webhook message not found after cloning"@,
            MessageCloneError::NciNotFound => "could not find nci in ctx.cache"@,
        }
    }

    /// The text that the error displays.
    pub fn message(&self) -> (res: String)
        ensures
            res@ == self.spec_message(),
    {
        match self {
            MessageCloneError::Serenity(x) => {
                concat("serenity error: ", x.as_str())
            },
            MessageCloneError::PrismaQuery(x) => {
                concat("prisma query error: ", x.as_str())
            },
            MessageCloneError::PrismaCreate(x) => {
                concat("prisma create error: ", x.as_str())
            },
            MessageCloneError::PrismaRelationNotFetched(x) => {
                concat("prisma relation not fetched error: ", x.as_str())
            },
            MessageCloneError::NoWebhook => "webhook not found while trying to resync".to_owned(),
            MessageCloneError::NoWebhookMessage => "webhook message not found after cloning".to_owned(),
            MessageCloneError::NciNotFound => "could not find nci in ctx.cache".to_owned(),
        }
    }
}

/// A failure of the starboard.
#[derive(Debug)]
pub enum StarboardError {
    PrismaQuery(String),
    PrismaCreate(String),
    PrismaRelationNotFetched(String),
    MessageNotInDatabase(MessageId),
    MessageClone(MessageCloneError),
    Serenity(String),
    UnfinishedBuilder(UnfinishedBuilderError),
}

impl StarboardError {
    pub open spec fn spec_message(&self) -> Seq<char> {
        match self {
            StarboardError::PrismaQuery(x) => "prisma query error "@ + x@,
            StarboardError::PrismaCreate(x) => "prisma create error: "@ + x@,
            StarboardError::PrismaRelationNotFetched(_) => "prisma relation not fetched error"@,
            StarboardError::MessageNotInDatabase(x) => "the following message with id "@ + dec_digits(x.0 as nat) + " was not found in the database"@,
            StarboardError::MessageClone(_) => "message clone error"@,
            StarboardError::Serenity(x) => "serenity error "@ + x@,
            StarboardError::UnfinishedBuilder(_) => "clone builder unfinished"@,
        }
    }

    /// The text that the error displays.
    pub fn message(&self) -> (res: String)
        ensures
            res@ == self.spec_message(),
    {
        match self {
            StarboardError::PrismaQuery(x) => {
                concat("prisma query error ", x.as_str())
            },
            StarboardError::PrismaCreate(x) => {
                concat("prisma create error: ", x.as_str())
            },
            StarboardError::PrismaRelationNotFetched(_) => "prisma relation not fetched error".to_owned(),
            StarboardError::MessageNotInDatabase(x) => {
                let t = u64_to_string(x.0);
                around("the following message with id ", t.as_str(), " was not found in the database")
            },
            StarboardError::MessageClone(_) => "message clone error".to_owned(),
            StarboardError::Serenity(x) => {
                concat("serenity error ", x.as_str())
            },
            StarboardError::UnfinishedBuilder(_) => "clone builder unfinished".to_owned(),
        }
    }
}

/// A failure while logging to the database.
#[derive(Debug)]
pub enum LoggingError {
    PrismaQuery(String),
    PrismaCreate(String),
    PrismaRelationNotFetched(String),
    Serenity(String),
    ChannelIsThread(ChannelId),
    UserNotInDatabase(UserId),
    UserNoColorRole(UserId),
    NciNotFound,
    Color(ColorParseError),
    Cache(CacheError),
    NotFound(String),
    UserImpersonated(UserId),
    Blacklisted(String),
}

impl LoggingError {
    pub open spec fn spec_message(&self) -> Seq<char> {
        match self {
            LoggingError::PrismaQuery(x) => "prisma query error: "@ + x@,
            LoggingError::PrismaCreate(x) => "prisma create error: "@ + x@,
            LoggingError::PrismaRelationNotFetched(_) => "prisma relation not fetched error"@,
            LoggingError::Serenity(x) => "serenity error "@ + x@,
            LoggingError::ChannelIsThread(x) => "channel with id "@ + dec_digits(x.0 as nat) + " is a thread"@,
            LoggingError::UserNotInDatabase(x) => "could not find user with id "@ + dec_digits(x.0 as nat) + " in the database"@,
            LoggingError::UserNoColorRole(x) => "user with id "@ + dec_digits(x.0 as nat) + " does not have a color role in the database"@,
            LoggingError::NciNotFound => "could not find nci in ctx.cache"@,
            LoggingError::Color(x) => "color parse error: "@ + x.spec_message(),
            LoggingError::Cache(x) => "cache error: "@ + x.spec_message(),
            LoggingError::NotFound(x) => ""@ + x@ + " not found in database"@,
            LoggingError::UserImpersonated(x) => "warning: user with id "@ + dec_digits(x.0 as nat) + " impersonated, skipping"@,
            LoggingError::Blacklisted(x) => ""@ + x@ + " may not be logged"@,
        }
    }

    /// The text that the error displays.
    pub fn message(&self) -> (res: String)
        ensures
            res@ == self.spec_message(),
    {
        match self {
            LoggingError::PrismaQuery(x) => {
                concat("prisma query error: ", x.as_str())
            },
            LoggingError::PrismaCreate(x) => {
                concat("prisma create error: ", x.as_str())
            },
            LoggingError::PrismaRelationNotFetched(_) => "prisma relation not fetched error".to_owned(),
            LoggingError::Serenity(x) => {
                concat("serenity error ", x.as_str())
            },
            LoggingError::ChannelIsThread(x) => {
                let t = u64_to_string(x.0);
                around("channel with id ", t.as_str(), " is a thread")
            },
            LoggingError::UserNotInDatabase(x) => {
                let t = u64_to_string(x.0);
                around("could not find user with id ", t.as_str(), " in the database")
            },
            LoggingError::UserNoColorRole(x) => {
                let t = u64_to_string(x.0);
                around("user with id ", t.as_str(), " does not have a color role in the database")
            },
            LoggingError::NciNotFound => "could not find nci in ctx.cache".to_owned(),
            LoggingError::Color(x) => {
                let t = x.message();
                concat("color parse error: ", t.as_str())
            },
            LoggingError::Cache(x) => {
                let t = x.message();
                concat("cache error: ", t.as_str())
            },
            LoggingError::NotFound(x) => {
                around("", x.as_str(), " not found in database")
            },
            LoggingError::UserImpersonated(x) => {
                let t = u64_to_string(x.0);
                around("warning: user with id ", t.as_str(), " impersonated, skipping")
            },
            LoggingError::Blacklisted(x) => {
                around("", x.as_str(), " may not be logged")
            },
        }
    }
}

/// A failure of a command.
#[derive(Debug)]
pub enum CommandError {
    Serenity(String),
    PrismaQuery(String),
    PrismaCreate(String),
    PrismaRelationNotFetched(String),
    SettingsError(CacheError),
    Prisma(PrismaError),
    RuntimeError { title: String, description: String },
    RuntimeWarning { title: String, description: String },
    Starboard(StarboardError),
    NotInGuild,
}

impl CommandError {
    /// The error is a `RuntimeError` with this title and description.
    pub open spec fn is_runtime_error(&self, t: Seq<char>, d: Seq<char>) -> bool {
        self matches CommandError::RuntimeError { title, description } && title@ == t && description@ == d
    }

    /// The error is a `RuntimeWarning` with this title and description.
    pub open spec fn is_runtime_warning(&self, t: Seq<char>, d: Seq<char>) -> bool {
        self matches CommandError::RuntimeWarning { title, description } && title@ == t && description@ == d
    }

    pub fn runtime_error(title: &str, description: &str) -> (res: CommandError)
        ensures
            res.is_runtime_error(title@, description@),
    {
        CommandError::RuntimeError { title: title.to_owned(), description: description.to_owned() }
    }

    pub fn runtime_warning(title: &str, description: &str) -> (res: CommandError)
        ensures
            res.is_runtime_warning(title@, description@),
    {
        CommandError::RuntimeWarning { title: title.to_owned(), description: description.to_owned() }
    }

    pub open spec fn spec_message(&self) -> Seq<char> {
        match self {
            CommandError::Serenity(x) => "serenity error, "@ + x@,
            CommandError::PrismaQuery(x) => "prisma query error, "@ + x@,
            CommandError::PrismaCreate(x) => "prisma create error, "@ + x@,
            CommandError::PrismaRelationNotFetched(x) => "prisma relation not fetched error, "@ + x@,
            CommandError::SettingsError(x) => "settings error, "@ + x.spec_message(),
            CommandError::Prisma(x) => "prisma error, "@ + x.spec_message(),
            CommandError::RuntimeError { title, description } => "error while running command: "@ + description@,
            CommandError::RuntimeWarning { title, description } => "warning while running command: "@ + description@,
            CommandError::Starboard(x) => "starboard error, "@ + x.spec_message(),
            CommandError::NotInGuild => "this command can only be used in a server"@,
        }
    }

    /// The text that the error displays.
    pub fn message(&self) -> (res: String)
        ensures
            res@ == self.spec_message(),
    {
        match self {
            CommandError::Serenity(x) => {
                concat("serenity error, ", x.as_str())
            },
            CommandError::PrismaQuery(x) => {
                concat("prisma query error, ", x.as_str())
            },
            CommandError::PrismaCreate(x) => {
                concat("prisma create error, ", x.as_str())
            },
            CommandError::PrismaRelationNotFetched(x) => {
                concat("prisma relation not fetched error, ", x.as_str())
            },
            CommandError::SettingsError(x) => {
                let t = x.message();
                concat("settings error, ", t.as_str())
            },
            CommandError::Prisma(x) => {
                let t = x.message();
                concat("prisma error, ", t.as_str())
            },
            CommandError::RuntimeError { title, description } => {
                concat("error while running command: ", description.as_str())
            },
            CommandError::RuntimeWarning { title, description } => {
                concat("warning while running command: ", description.as_str())
            },
            CommandError::Starboard(x) => {
                let t = x.message();
                concat("starboard error, ", t.as_str())
            },
            CommandError::NotInGuild => "this command can only be used in a server".to_owned(),
        }
    }
}

/// Any failure of the bot.
#[derive(Debug)]
pub enum AnyError {
    Serenity(String),
    PrismaQuery(String),
    PrismaCreate(String),
    PrismaRelationNotFetched(String),
    Anyhow(String),
    Clone(MessageCloneError),
    Color(ColorParseError),
    Command(CommandError),
    Event(EventError),
    Logging(LoggingError),
    Settings(CacheError),
    Starboard(StarboardError),
    Prisma(PrismaError),
    UnfinishedBuilder(UnfinishedBuilderError),
}

impl AnyError {
    pub open spec fn spec_message(&self) -> Seq<char> {
        match self {
            AnyError::Serenity(x) => "serenity error "@ + x@,
            AnyError::PrismaQuery(x) => "prisma query error: "@ + x@,
            AnyError::PrismaCreate(x) => "prisma create error: "@ + x@,
            AnyError::PrismaRelationNotFetched(_) => "prisma relation not fetched error"@,
            AnyError::Anyhow(_) => "anyhow error"@,
            AnyError::Clone(_) => "message clone error"@,
            AnyError::Color(x) => "color parse error: "@ + x.spec_message(),
            AnyError::Command(x) => "command error: "@ + x.spec_message(),
            AnyError::Event(x) => "event emitter error: "@ + x.spec_message(),
            AnyError::Logging(x) => "database logging error: "@ + x.spec_message(),
            AnyError::Settings(x) => "settings error: "@ + x.spec_message(),
            AnyError::Starboard(x) => "starboard error: "@ + x.spec_message(),
            AnyError::Prisma(x) => "prisma error: "@ + x.spec_message(),
            AnyError::UnfinishedBuilder(x) => "clone builder unfinished: "@ + x.spec_message(),
        }
    }

    /// The text that the error displays.
    pub fn message(&self) -> (res: String)
        ensures
            res@ == self.spec_message(),
    {
        match self {
            AnyError::Serenity(x) => {
                concat("serenity error ", x.as_str())
            },
            AnyError::PrismaQuery(x) => {
                concat("prisma query error: ", x.as_str())
            },
            AnyError::PrismaCreate(x) => {
                concat("prisma create error: ", x.as_str())
            },
            AnyError::PrismaRelationNotFetched(_) => "prisma relation not fetched error".to_owned(),
            AnyError::Anyhow(_) => "anyhow error".to_owned(),
            AnyError::Clone(_) => "message clone error".to_owned(),
            AnyError::Color(x) => {
                let t = x.message();
                concat("color parse error: ", t.as_str())
            },
            AnyError::Command(x) => {
                let t = x.message();
                concat("command error: ", t.as_str())
            },
            AnyError::Event(x) => {
                let t = x.message();
                concat("event emitter error: ", t.as_str())
            },
            AnyError::Logging(x) => {
                let t = x.message();
                concat("database logging error: ", t.as_str())
            },
            AnyError::Settings(x) => {
                let t = x.message();
                concat("settings error: ", t.as_str())
            },
            AnyError::Starboard(x) => {
                let t = x.message();
                concat("starboard error: ", t.as_str())
            },
            AnyError::Prisma(x) => {
                let t = x.message();
                concat("prisma error: ", t.as_str())
            },
            AnyError::UnfinishedBuilder(x) => {
                let t = x.message();
                concat("clone builder unfinished: ", t.as_str())
            },
        }
    }
}

/// Turns an `Option` or a `Result` into a `Result` with the given error.
pub trait MakeError<T, E>: Sized {
    spec fn spec_make_error(self, error: E) -> Result<T, E>;

    fn make_error(self, error: E) -> (res: Result<T, E>)
        ensures
            res == self.spec_make_error(error),
    ;
}

impl<T, U, E> MakeError<T, E> for Result<T, U> {
    /// The value is kept; any error is replaced by the given one.
    open spec fn spec_make_error(self, error: E) -> Result<T, E> {
        match self {
            Ok(n) => Ok(n),
            Err(_) => Err(error),
        }
    }

    fn make_error(self, error: E) -> (res: Result<T, E>) {
        match self {
            Ok(n) => Ok(n),
            Err(_) => Err(error),
        }
    }
}

impl<T, E> MakeError<T, E> for Option<T> {
    /// A value is kept; its absence becomes the given error.
    open spec fn spec_make_error(self, error: E) -> Result<T, E> {
        match self {
            Some(n) => Ok(n),
            None => Err(error),
        }
    }

    fn make_error(self, error: E) -> (res: Result<T, E>) {
        match self {
            Some(n) => Ok(n),
            None => Err(error),
        }
    }
}

} // verus!
