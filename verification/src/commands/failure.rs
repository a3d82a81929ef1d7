//! The answer that a failed command gets.
use vstd::prelude::*;
use crate::embed::{Reply, EmbedStatus};
use crate::error::CommandError;
use crate::string_util::{StringUtil, display_cased};
use crate::text::concat;

verus! {

/// The end of the description of a handled warning.
pub const WARNING_TAIL: &'static str = "\n\nDon't worry, this warning has been appropriately handled and the bot will continue to function normally";

/// The end of the description of a handled error.
pub const ERROR_TAIL: &'static str = "\n\nDon't worry, this error has been appropriately handled and the bot will continue to function normally";

/// The answer to a command `name` that failed with `error`; `is_slash` says
/// whether the command can be typed as a slash command. Warnings are yellow
/// and name the command as it was typed; errors are red and title the
/// command in display case.
pub open spec fn spec_failure_reply(name: Seq<char>, is_slash: bool, error: CommandError) -> (
    EmbedStatus,
    Seq<char>,
    Option<Seq<char>>,
    Seq<(Seq<char>, Seq<char>)>,
) {
    match error {
        CommandError::RuntimeWarning { title, description } => (
            EmbedStatus::Warning,
            name + " > Warning > "@ + title@,
            Some(
                "Warning in command `"@ + (if is_slash {
                    "/"@
                } else {
                    Seq::<char>::empty()
                }) + name + "`:\n"@ + description@ + WARNING_TAIL@,
            ),
            Seq::empty(),
        ),
        CommandError::RuntimeError { title, description } => (
            EmbedStatus::Error,
            display_cased(name) + " > Error > "@ + title@,
            Some("Error in command `/"@ + name + "`:\n"@ + description@ + ERROR_TAIL@),
            Seq::empty(),
        ),
        _ => (
            EmbedStatus::Error,
            display_cased(name) + " > Error"@,
            Some("Error in command `/"@ + name + "`:\n"@ + error.spec_message() + ERROR_TAIL@),
            Seq::empty(),
        ),
    }
}

/// `a + b + c + d + e` as one text.
fn glue(a: &str, b: &str, c: &str, d: &str, e: &str) -> (res: String)
    ensures
        res@ == a@ + b@ + c@ + d@ + e@,
{
    let mut s = concat(a, b);
    s.append(c);
    s.append(d);
    s.append(e);
    s
}

/// The answer to a failed command (with a share row under it).
pub fn handle(name: &str, is_slash: bool, error: &CommandError) -> (res: Reply)
    ensures
        res@ == spec_failure_reply(name@, is_slash, *error),
{
    match error {
        CommandError::RuntimeWarning { title, description } => {
            let t = glue(name, " > Warning > ", title.as_str(), "", "");
            let slash = if is_slash {
                "/"
            } else {
                ""
            };
            let head = glue("Warning in command `", slash, name, "`:\n", description.as_str());
            let d = concat(head.as_str(), WARNING_TAIL);
            proof {
                reveal_strlit("");
            }
            let res = Reply::new(EmbedStatus::Warning, t, Some(d));
            assert(res@ =~= spec_failure_reply(name@, is_slash, *error));
            res
        },
        CommandError::RuntimeError { title, description } => {
            let shown = name.display_case();
            let t = glue(shown.as_str(), " > Error > ", title.as_str(), "", "");
            let head = glue("Error in command `/", name, "`:\n", description.as_str(), ERROR_TAIL);
            proof {
                reveal_strlit("");
            }
            let res = Reply::new(EmbedStatus::Error, t, Some(head));
            assert(res@ =~= spec_failure_reply(name@, is_slash, *error));
            res
        },
        _ => {
            let shown = name.display_case();
            let t = concat(shown.as_str(), " > Error");
            let m = error.message();
            let head = glue("Error in command `/", name, "`:\n", m.as_str(), ERROR_TAIL);
            let res = Reply::new(EmbedStatus::Error, t, Some(head));
            res
        },
    }
}

} // verus!
