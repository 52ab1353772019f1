//! Replies that need nothing but the words of the request.

pub mod language;
pub mod who;

use crate::text::same_text;
use vstd::prelude::*;
use vstd::string::StringExecFns;

verus! {

/// What the bot prints for a slash command, if it knows the command.
pub open spec fn slash_reply(name: Seq<char>) -> Option<Seq<char>> {
    if name == "ping"@ {
        Some("POng"@)
    } else {
        None
    }
}

/// The line to print for the slash command `name`; `None` for a command
/// the bot does not know.
pub fn run(name: &str) -> (reply: Option<String>)
    ensures
        reply is Some <==> slash_reply(name@) is Some,
        reply matches Some(text) ==> Some(text@) == slash_reply(name@),
{
    if same_text(name, "ping") {
        Some(String::from_str("POng"))
    } else {
        None
    }
}

} // verus!
