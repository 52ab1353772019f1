//! Who the bot is, which messages are meant for it, and what it does about them.

pub mod server;

use crate::error::{Error, ErrorView};
use crate::slash_commands::who;
use crate::text::{
    decimal, joined, lowercase_of, same_text, split_whitespace, to_lowercase, words_of,
};
use serenity::model::id::UserId;
use serenity::model::mention::Mentionable;
use server::authoritative_users::{AuthorityTable, ExecutionAlias};
use server::relay::Execution;
use server::{
    execute_request, permit_view, permitted, whitelist_add, whitelist_add_command, whitelist_remove,
    whitelist_remove_command,
};
use vstd::prelude::*;
use vstd::string::{StringExecFns, StringSliceAdditionalSpecFns};

verus! {

/// The text that mentions the user of this identifier in a message.
pub open spec fn user_mention(user_id: u64) -> Seq<char> {
    "<@"@ + decimal(user_id as nat) + ">"@
}

/// Calls serenity's `UserId::new`, `Mentionable::mention` and the `Display`
/// of the `Mention` that comes back. For a user that is `<@`, the identifier
/// in decimal digits, and `>`. `UserId::new` panics on zero.
#[verifier::external_body]
fn mention(user_id: u64) -> (text: String)
    requires
        user_id != 0,
    ensures
        text@ == user_mention(user_id),
{
    UserId::new(user_id).mention().to_string()
}

/// What the bot does about a message.
#[derive(Debug)]
pub enum Reaction {
    /// Answer in the channel with this text.
    Say(String),
    /// Relay a command to the servers.
    Relay(Execution),
    /// Turn the request down.
    Refuse(Error),
}

/// Mathematical value of a [`Reaction`].
pub enum ReactionView {
    Say(Seq<char>),
    Relay(Seq<char>),
    Refuse(ErrorView),
}

impl View for Reaction {
    type V = ReactionView;

    open spec fn view(&self) -> ReactionView {
        match *self {
            Reaction::Say(text) => ReactionView::Say(text@),
            Reaction::Relay(execution) => ReactionView::Relay(execution@),
            Reaction::Refuse(error) => ReactionView::Refuse(error@),
        }
    }
}

/// The reaction that a permit amounts to.
pub open spec fn permit_reaction(permit: Result<Seq<char>, ErrorView>) -> ReactionView {
    match permit {
        Ok(command) => ReactionView::Relay(command),
        Err(error) => ReactionView::Refuse(error),
    }
}

/// The first of the words, or the empty text if there is none.
pub open spec fn first_or_empty(words: Seq<Seq<char>>) -> Seq<char> {
    if words.len() > 0 {
        words[0]
    } else {
        Seq::empty()
    }
}

/// What the bot does about a request from `sender` that consists of these
/// words: a verb, then what the verb applies to.
pub open spec fn reaction_to(
    table: Map<u64, ExecutionAlias>,
    sender: u64,
    command: Seq<Seq<char>>,
) -> ReactionView {
    if command.len() == 0 {
        ReactionView::Say(greeting())
    } else {
        let verb = command[0];
        let rest = command.skip(1);
        if verb == "hello"@ {
            ReactionView::Say("ðŸ‘‹ hello!"@)
        } else if verb == "who"@ {
            ReactionView::Say(who::who_reply(rest))
        } else if verb == "add"@ {
            ReactionView::Relay(whitelist_add_command(first_or_empty(rest)))
        } else if verb == "remove"@ {
            permit_reaction(
                permitted(
                    table,
                    sender,
                    ExecutionAlias::Please,
                    whitelist_remove_command(first_or_empty(rest)),
                ),
            )
        } else if verb == "please"@ {
            permit_reaction(permitted(table, sender, ExecutionAlias::Please, joined(rest)))
        } else if verb == "execute"@ {
            permit_reaction(permitted(table, sender, ExecutionAlias::Execute, joined(rest)))
        } else {
            ReactionView::Say("idk"@)
        }
    }
}

/// The value of a reaction that may be missing.
pub open spec fn reaction_view(reaction: Option<Reaction>) -> Option<ReactionView> {
    match reaction {
        Some(reaction) => Some(reaction@),
        None => None,
    }
}

/// What the bot knows of itself once the gateway has told it who it is.
#[derive(Debug)]
pub struct Handler {
    bot: Option<BotData>,
}

/// Who the bot is: how it is mentioned, and its user name in lower case.
#[derive(Debug)]
struct BotData {
    mention: String,
    lower_username: String,
}

fn into_reaction(permit: Result<Execution, Error>) -> (reaction: Reaction)
    ensures
        reaction@ == permit_reaction(permit_view(permit)),
{
    match permit {
        Ok(execution) => Reaction::Relay(execution),
        Err(error) => Reaction::Refuse(error),
    }
}

impl Handler {
    /// The text by which the bot is mentioned, once it is known.
    pub closed spec fn mention(&self) -> Option<Seq<char>> {
        match self.bot {
            Some(bot) => Some(bot.mention@),
            None => None,
        }
    }

    /// The bot's user name in lower case, once it is known.
    pub closed spec fn lower_username(&self) -> Option<Seq<char>> {
        match self.bot {
            Some(bot) => Some(bot.lower_username@),
            None => None,
        }
    }

    /// Whether the bot has been told who it is.
    pub open spec fn is_ready(&self) -> bool {
        self.mention() is Some
    }

    /// The mention and the user name are known together or not at all.
    pub proof fn lemma_known_together(&self)
        ensures
            self.mention() is Some <==> self.lower_username() is Some,
    {
    }

    /// Whether a message of these words is meant for the bot: its first word
    /// mentions the bot, or is the bot's user name in any letter case.
    pub open spec fn addressed_by(&self, words: Seq<Seq<char>>) -> bool {
        words.len() > 0 && (Some(words[0]) == self.mention() || Some(lowercase_of(words[0]))
            == self.lower_username())
    }

    /// What the bot does about a message of these words, if anything.
    pub open spec fn reaction_to_message(
        &self,
        table: Map<u64, ExecutionAlias>,
        author_is_bot: bool,
        sender: u64,
        words: Seq<Seq<char>>,
    ) -> Option<ReactionView> {
        if author_is_bot || !self.addressed_by(words) {
            None
        } else {
            Some(reaction_to(table, sender, words.skip(1)))
        }
    }

    /// A handler that does not know yet who the bot is.
    pub fn new() -> (handler: Handler)
        ensures
            !handler.is_ready(),
    {
        Handler { bot: None }
    }

    /// Whether the bot has been told who it is.
    pub fn ready(&self) -> (ready: bool)
        ensures
            ready == self.is_ready(),
    {
        self.bot.is_some()
    }

    /// Takes note of who the bot is. This happens once.
    pub fn set_bot_data(&mut self, user_id: u64, name: &str)
        requires
            user_id != 0,
            !old(self).is_ready(),
        ensures
            final(self).mention() == Some(user_mention(user_id)),
            final(self).lower_username() == Some(lowercase_of(name@)),
    {
        self.bot = Some(BotData { mention: mention(user_id), lower_username: to_lowercase(name) });
    }

    /// The bot's user name in lower case.
    pub fn get_bot_lower_username(&self) -> (name: &str)
        requires
            self.is_ready(),
        ensures
            Some(name@) == self.lower_username(),
    {
        self.bot.as_ref().unwrap().lower_username.as_str()
    }

    /// The text by which the bot is mentioned.
    pub fn get_bot_mention(&self) -> (mention: &str)
        requires
            self.is_ready(),
        ensures
            Some(mention@) == self.mention(),
    {
        self.bot.as_ref().unwrap().mention.as_str()
    }

    /// Whether a word calls the bot: it is the bot's mention, or its lower-case
    /// form is the bot's user name in lower case.
    pub fn has_mention(&self, word: &str, lower_word: &str) -> (called: bool)
        requires
            self.is_ready(),
        ensures
            called == (Some(word@) == self.mention() || Some(lower_word@)
                == self.lower_username()),
    {
        if same_text(word, self.get_bot_mention()) {
            return true;
        }
        same_text(lower_word, self.get_bot_lower_username())
    }

    /// What the bot does about a request from `sender`. The request is the
    /// words of `command` from position `from` on: a verb, then what the verb
    /// applies to.
    pub fn handle_command(
        &self,
        table: &AuthorityTable,
        sender: u64,
        command: &Vec<String>,
        from: usize,
    ) -> (reaction: Reaction)
        requires
            from <= command.len(),
        ensures
            reaction@ == reaction_to(table@, sender, command.deep_view().skip(from as int)),
    {
        let ghost request = command.deep_view().skip(from as int);
        if from == command.len() {
            return Reaction::Say(String::from_str("# yo <a:ferris_moving:1408770783559553064>"));
        }
        assert(request[0] == command[from as int]@);
        assert(request.skip(1) == command.deep_view().skip(from + 1));
        let command_word = command[from].as_str();
        if same_text(command_word, "hello") {
            Reaction::Say(String::from_str("ðŸ‘‹ hello!"))
        } else if same_text(command_word, "who") {
            Reaction::Say(who::run(command, from + 1))
        } else if same_text(command_word, "add") {
            Reaction::Relay(whitelist_add(sender, first_word(command, from + 1)))
        } else if same_text(command_word, "remove") {
            into_reaction(whitelist_remove(table, sender, first_word(command, from + 1)))
        } else if same_text(command_word, "please") {
            into_reaction(
                execute_request(table, sender, ExecutionAlias::Please, command, from + 1),
            )
        } else if same_text(command_word, "execute") {
            into_reaction(
                execute_request(table, sender, ExecutionAlias::Execute, command, from + 1),
            )
        } else {
            Reaction::Say(String::from_str("idk"))
        }
    }

    /// What the bot does about a message that has been split into its words:
    /// nothing, unless somebody other than a bot wrote it for this bot.
    pub fn respond(
        &self,
        table: &AuthorityTable,
        author_is_bot: bool,
        sender: u64,
        words: &Vec<String>,
    ) -> (reaction: Option<Reaction>)
        requires
            !author_is_bot ==> self.is_ready(),
        ensures
            reaction_view(reaction) == self.reaction_to_message(
                table@,
                author_is_bot,
                sender,
                words.deep_view(),
            ),
    {
        if author_is_bot {
            return None;
        }
        if words.len() == 0 {
            return None;
        }
        let first_word = words[0].as_str();
        assert(words.deep_view()[0] == first_word@);
        let lower_first_word = to_lowercase(first_word);
        if !self.has_mention(first_word, lower_first_word.as_str()) {
            return None;
        }
        assert(words.deep_view().skip(1) == words.deep_view().skip(1int));
        Some(self.handle_command(table, sender, words, 1))
    }

    /// What the bot does about a message, if anything.
    pub fn message(
        &self,
        table: &AuthorityTable,
        author_is_bot: bool,
        sender: u64,
        content: &str,
    ) -> (reaction: Option<Reaction>)
        requires
            !author_is_bot ==> self.is_ready(),
        ensures
            reaction_view(reaction) == self.reaction_to_message(
                table@,
                author_is_bot,
                sender,
                words_of(content@),
            ),
    {
        if author_is_bot {
            return None;
        }
        let words = split_whitespace(content);
        self.respond(table, author_is_bot, sender, &words)
    }
}

/// The greeting for somebody who calls the bot and asks for nothing.
pub open spec fn greeting() -> Seq<char> {
    "# yo <a:ferris_moving:1408770783559553064>"@
}

/// Whether a message is nothing but the bot's prefix `bluestone`, in any
/// letter case: it takes as many bytes as the prefix and is the prefix once
/// it is put in lower case.
pub open spec fn is_bot_prefix(content: Seq<char>, bytes: usize) -> bool {
    bytes == 9 && lowercase_of(content) == "bluestone"@
}

/// Whether a message of this many bytes, which reads `lower_content` in
/// lower case, is nothing but the bot's prefix.
pub fn bot_prefix_in(bytes: usize, lower_content: &str) -> (alone: bool)
    ensures
        alone == (bytes == 9 && lower_content@ == "bluestone"@),
{
    bytes == 9 && same_text(lower_content, "bluestone")
}

/// The greeting, for a message that somebody other than a bot wrote and that
/// is nothing but the bot's prefix; for any other message, nothing.
pub fn prefix_message(author_is_bot: bool, content: &str) -> (reaction: Option<Reaction>)
    ensures
        reaction_view(reaction) == (if !author_is_bot && is_bot_prefix(
            content@,
            content.spec_bytes().len() as usize,
        ) {
            Some(ReactionView::Say(greeting()))
        } else {
            None
        }),
{
    if author_is_bot {
        return None;
    }
    let lower_content = to_lowercase(content);
    if !bot_prefix_in(content.len(), lower_content.as_str()) {
        return None;
    }
    Some(Reaction::Say(String::from_str("# yo <a:ferris_moving:1408770783559553064>")))
}

/// The word at position `at`, or the empty text if there is none.
fn first_word(words: &Vec<String>, at: usize) -> (word: &str)
    requires
        at <= words.len(),
    ensures
        word@ == first_or_empty(words.deep_view().skip(at as int)),
{
    if at < words.len() {
        assert(words.deep_view().skip(at as int)[0] == words[at as int]@);
        words[at].as_str()
    } else {
        proof {
            reveal_strlit("");
        }
        ""
    }
}

} // verus!
