use bluestone::error::Error;
use bluestone::handler::server::authoritative_users::{AuthorityTable, ExecutionAlias};
use bluestone::handler::{bot_prefix_in, prefix_message, Handler, Reaction};

const BOT: u64 = 1408770783559553064;
const OPERATOR: u64 = 11;
const HELPER: u64 = 12;
const STRANGER: u64 = 13;

fn table() -> AuthorityTable {
    let mut table = AuthorityTable::new();
    table.grant(OPERATOR, ExecutionAlias::Execute);
    table.grant(HELPER, ExecutionAlias::Please);
    table
}

fn handler() -> Handler {
    let mut handler = Handler::new();
    handler.set_bot_data(BOT, "BlueStone");
    handler
}

fn words(words: &[&str]) -> Vec<String> {
    words.iter().map(|word| word.to_string()).collect()
}

fn said(reaction: Reaction) -> String {
    match reaction {
        Reaction::Say(text) => text,
        other => panic!("{other:?}"),
    }
}

fn relayed(reaction: Reaction) -> String {
    match reaction {
        Reaction::Relay(execution) => execution.command().to_string(),
        other => panic!("{other:?}"),
    }
}

fn refused(reaction: Reaction) -> Error {
    match reaction {
        Reaction::Refuse(error) => error,
        other => panic!("{other:?}"),
    }
}

#[test]
fn a_new_handler_knows_nothing_of_the_bot() {
    assert!(!Handler::new().ready());
    assert!(handler().ready());
}

#[test]
fn the_mention_is_the_identifier_in_angle_brackets() {
    assert_eq!(handler().get_bot_mention(), "<@1408770783559553064>");
    let mut small = Handler::new();
    small.set_bot_data(7, "x");
    assert_eq!(small.get_bot_mention(), "<@7>");
    let mut large = Handler::new();
    large.set_bot_data(u64::MAX, "x");
    assert_eq!(large.get_bot_mention(), "<@18446744073709551615>");
    let mut round = Handler::new();
    round.set_bot_data(1000, "x");
    assert_eq!(round.get_bot_mention(), "<@1000>");
}

#[test]
fn the_user_name_is_kept_in_lower_case() {
    assert_eq!(handler().get_bot_lower_username(), "bluestone");
    let mut other = Handler::new();
    other.set_bot_data(7, "\u{c9}TOILE Bot");
    assert_eq!(other.get_bot_lower_username(), "\u{e9}toile bot");
}

#[test]
fn a_request_without_words_is_greeted() {
    let reaction = handler().handle_command(&table(), STRANGER, &words(&[]), 0);
    assert_eq!(said(reaction), "# yo <a:ferris_moving:1408770783559553064>");
    let reaction = handler().handle_command(&table(), STRANGER, &words(&["<@1>"]), 1);
    assert_eq!(said(reaction), "# yo <a:ferris_moving:1408770783559553064>");
}

#[test]
fn hello_is_answered_with_hello() {
    let reaction = handler().handle_command(&table(), STRANGER, &words(&["hello"]), 0);
    assert_eq!(said(reaction), "\u{f0}\u{178}\u{2018}\u{2039} hello!");
    let reaction = handler().handle_command(&table(), STRANGER, &words(&["hello", "there"]), 0);
    assert_eq!(said(reaction), "\u{f0}\u{178}\u{2018}\u{2039} hello!");
}

#[test]
fn an_unknown_verb_is_answered_with_idk() {
    for verb in ["Hello", "helloo", "", "whitelist", "EXECUTE", "language"] {
        let reaction = handler().handle_command(&table(), OPERATOR, &words(&[verb, "x"]), 0);
        assert_eq!(said(reaction), "idk");
    }
}

#[test]
fn who_is_answered_from_the_words_after_it() {
    let reaction = handler().handle_command(&table(), STRANGER, &words(&["who", "is", "steve"]), 0);
    assert_eq!(said(reaction), "[user info for steve]");
    let reaction = handler().handle_command(&table(), STRANGER, &words(&["who"]), 0);
    assert_eq!(said(reaction), "no verb");
}

#[test]
fn add_needs_no_authority() {
    let reaction = handler().handle_command(&table(), STRANGER, &words(&["add", "steve"]), 0);
    assert_eq!(relayed(reaction), "whitelist add steve");
    let reaction = handler().handle_command(&table(), STRANGER, &words(&["add"]), 0);
    assert_eq!(relayed(reaction), "whitelist add ");
    let reaction = handler().handle_command(&table(), STRANGER, &words(&["add", "a", "b"]), 0);
    assert_eq!(relayed(reaction), "whitelist add a");
}

#[test]
fn remove_takes_please() {
    let command = words(&["remove", "steve"]);
    assert_eq!(relayed(handler().handle_command(&table(), HELPER, &command, 0)), "whitelist remove steve");
    assert_eq!(relayed(handler().handle_command(&table(), OPERATOR, &command, 0)), "whitelist remove steve");
    assert_eq!(
        refused(handler().handle_command(&table(), STRANGER, &command, 0)),
        Error::InsufficientPermissions
    );
    let bare = words(&["remove"]);
    assert_eq!(relayed(handler().handle_command(&table(), HELPER, &bare, 0)), "whitelist remove ");
}

#[test]
fn please_and_execute_take_their_own_level() {
    let please = words(&["please", "say", "hi", "all"]);
    assert_eq!(relayed(handler().handle_command(&table(), HELPER, &please, 0)), "say hi all");
    assert_eq!(relayed(handler().handle_command(&table(), OPERATOR, &please, 0)), "say hi all");
    assert_eq!(
        refused(handler().handle_command(&table(), STRANGER, &please, 0)),
        Error::InsufficientPermissions
    );
    let execute = words(&["execute", "stop"]);
    assert_eq!(relayed(handler().handle_command(&table(), OPERATOR, &execute, 0)), "stop");
    assert_eq!(
        refused(handler().handle_command(&table(), HELPER, &execute, 0)),
        Error::InsufficientPermissions
    );
    assert_eq!(
        refused(handler().handle_command(&table(), STRANGER, &execute, 0)),
        Error::InsufficientPermissions
    );
    assert_eq!(relayed(handler().handle_command(&table(), OPERATOR, &words(&["execute"]), 0)), "");
}

#[test]
fn a_message_is_for_the_bot_if_it_starts_with_its_mention_or_name() {
    let handler = handler();
    let table = table();
    let by_mention = handler.message(&table, false, OPERATOR, "<@1408770783559553064> execute stop");
    assert_eq!(relayed(by_mention.unwrap()), "stop");
    let by_name = handler.message(&table, false, OPERATOR, "bluestone execute stop");
    assert_eq!(relayed(by_name.unwrap()), "stop");
    let by_loud_name = handler.message(&table, false, OPERATOR, "BLUEstone hello");
    assert_eq!(said(by_loud_name.unwrap()), "\u{f0}\u{178}\u{2018}\u{2039} hello!");
    let bare = handler.message(&table, false, STRANGER, "bluestone");
    assert_eq!(said(bare.unwrap()), "# yo <a:ferris_moving:1408770783559553064>");
}

#[test]
fn other_messages_are_passed_over() {
    let handler = handler();
    let table = table();
    assert!(handler.message(&table, false, OPERATOR, "").is_none());
    assert!(handler.message(&table, false, OPERATOR, "   ").is_none());
    assert!(handler.message(&table, false, OPERATOR, "execute stop").is_none());
    assert!(handler.message(&table, false, OPERATOR, "hello bluestone").is_none());
    assert!(handler.message(&table, false, OPERATOR, "<@1408770783559553065> hello").is_none());
    assert!(handler.message(&table, false, OPERATOR, "<@!1408770783559553064> hello").is_none());
    assert!(handler.message(&table, false, OPERATOR, "bluestone, hello").is_none());
}

#[test]
fn bots_are_passed_over() {
    let handler = handler();
    let table = table();
    assert!(handler.message(&table, true, OPERATOR, "bluestone execute stop").is_none());
    assert!(handler.message(&table, true, OPERATOR, "<@1408770783559553064> hello").is_none());
    assert!(Handler::new().message(&table, true, OPERATOR, "bluestone hello").is_none());
    assert!(handler.respond(&table, true, OPERATOR, &words(&["bluestone", "hello"])).is_none());
}

#[test]
fn words_are_split_at_any_white_space() {
    let handler = handler();
    let table = table();
    let reaction = handler.message(&table, false, HELPER, "  bluestone \t please\n say   hi\u{a0}all  ");
    assert_eq!(relayed(reaction.unwrap()), "say hi all");
    let reaction = handler.message(&table, false, HELPER, "bluestone\u{3000}remove\u{2003}steve extra");
    assert_eq!(relayed(reaction.unwrap()), "whitelist remove steve");
}

#[test]
fn split_words_are_answered_like_the_message() {
    let handler = handler();
    let table = table();
    let reaction = handler.respond(&table, false, HELPER, &words(&["BlueStone", "please", "list"]));
    assert_eq!(relayed(reaction.unwrap()), "list");
    assert!(handler.respond(&table, false, HELPER, &words(&[])).is_none());
    assert!(handler.respond(&table, false, HELPER, &words(&["please", "list"])).is_none());
}

#[test]
fn the_bare_prefix_is_greeted() {
    for content in ["bluestone", "BLUESTONE", "BlueStone"] {
        assert_eq!(
            said(prefix_message(false, content).unwrap()),
            "# yo <a:ferris_moving:1408770783559553064>"
        );
    }
    for content in ["bluestone ", " bluestone", "bluestone hello", "bluestones", "bluston", ""] {
        assert!(prefix_message(false, content).is_none());
    }
    assert!(prefix_message(true, "bluestone").is_none());
}

#[test]
fn a_word_calls_the_bot_as_its_mention_or_its_lower_case_name() {
    let handler = handler();
    assert!(handler.has_mention("<@1408770783559553064>", "<@1408770783559553064>"));
    assert!(handler.has_mention("<@1408770783559553064>", "anything"));
    assert!(handler.has_mention("BlueStone", "bluestone"));
    assert!(handler.has_mention("anything", "bluestone"));
    assert!(!handler.has_mention("bluestone", "BlueStone"));
    assert!(!handler.has_mention("<@1>", "<@1>"));
    assert!(!handler.has_mention("", ""));
}

#[test]
fn the_prefix_is_nine_bytes_that_read_bluestone() {
    assert!(bot_prefix_in(9, "bluestone"));
    assert!(!bot_prefix_in(10, "bluestone"));
    assert!(!bot_prefix_in(8, "bluestone"));
    assert!(!bot_prefix_in(9, "BlueStone"));
    assert!(!bot_prefix_in(9, "bluestones"));
    assert!(!bot_prefix_in(0, ""));
}
