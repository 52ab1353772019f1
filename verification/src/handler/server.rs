//! The privileged verbs: who may use them, which servers they reach, and what is sent.

pub mod authoritative_users;
pub mod prelude;
pub mod relay;

use crate::error::{Error, ErrorView};
use crate::text::{concat, join_words, joined};
use authoritative_users::{authorized, AuthorityTable, ExecutionAlias};
use relay::Execution;
use vstd::prelude::*;

verus! {

/// The servers to command, given the arguments the process was started with
/// and the server that the configuration names, if it names one.
pub open spec fn resolved_servers(
    args: Seq<Seq<char>>,
    default_server: Option<Seq<char>>,
) -> Result<Seq<Seq<char>>, ErrorView> {
    if args.len() > 0 {
        Ok(args)
    } else {
        match default_server {
            Some(server) => if server.len() > 0 {
                Ok(seq![server])
            } else {
                Err(ErrorView::NoServers)
            },
            None => Err(ErrorView::NoServers),
        }
    }
}

/// The value of a configured server name.
pub open spec fn default_view(default_server: Option<String>) -> Option<Seq<char>> {
    match default_server {
        Some(server) => Some(server@),
        None => None,
    }
}

/// Whether the configuration has to be asked for a server: only if no
/// arguments were given.
pub fn needs_default_server(args: &Vec<String>) -> (needed: bool)
    ensures
        needed == (args.len() == 0),
        !needed ==> forall|default_server: Option<Seq<char>>|
            resolved_servers(args.deep_view(), default_server) == Ok::<
                Seq<Seq<char>>,
                ErrorView,
            >(args.deep_view()),
{
    args.len() == 0
}

/// Picks the servers to command: the arguments if there are any, else the
/// configured server, else none.
pub fn resolve_servers(args: Vec<String>, default_server: Option<String>) -> (servers: Result<
    Vec<String>,
    Error,
>)
    ensures
        relay::resolution_view(servers) == resolved_servers(
            args.deep_view(),
            default_view(default_server),
        ),
{
    if args.len() > 0 {
        return Ok(args);
    }
    match default_server {
        Some(server) => {
            if server.as_str().is_empty() {
                Err(Error::NoServers)
            } else {
                let mut servers = Vec::new();
                servers.push(server);
                assert(servers.deep_view() == seq![server@]);
                Ok(servers)
            }
        },
        None => Err(Error::NoServers),
    }
}

/// The servers to command, once they have been found. They are found once
/// and kept from then on.
#[derive(Debug)]
pub struct ServerCache {
    servers: Option<Vec<String>>,
}

impl View for ServerCache {
    type V = Option<Seq<Seq<char>>>;

    closed spec fn view(&self) -> Option<Seq<Seq<char>>> {
        match self.servers {
            Some(servers) => Some(servers.deep_view()),
            None => None,
        }
    }
}

/// What a look-up leaves in the cache and what it answers, for a cache that
/// held `cache` and a source that gives `args` and `default_server`.
pub open spec fn lookup(
    cache: Option<Seq<Seq<char>>>,
    args: Seq<Seq<char>>,
    default_server: Option<Seq<char>>,
) -> (Option<Seq<Seq<char>>>, Result<Seq<Seq<char>>, ErrorView>) {
    match cache {
        Some(servers) => (cache, Ok(servers)),
        None => match resolved_servers(args, default_server) {
            Ok(servers) => (Some(servers), Ok(servers)),
            Err(error) => (None, Err(error)),
        },
    }
}

/// The value of a list of servers that may be missing.
pub open spec fn servers_view(servers: Option<Vec<String>>) -> Option<Seq<Seq<char>>> {
    match servers {
        Some(servers) => Some(servers.deep_view()),
        None => None,
    }
}

fn copy_names(names: &Vec<String>) -> (copy: Vec<String>)
    ensures
        copy.deep_view() == names.deep_view(),
{
    let mut copy: Vec<String> = Vec::new();
    let mut i: usize = 0;
    while i < names.len()
        invariant
            i <= names.len(),
            copy.len() == i,
            forall|j: int| 0 <= j < i ==> copy[j]@ == names[j]@,
        decreases names.len() - i,
    {
        copy.push(names[i].clone());
        i += 1;
    }
    assert(copy.deep_view() =~= names.deep_view());
    copy
}

impl ServerCache {
    /// A cache in which nothing has been found yet.
    pub fn new() -> (cache: ServerCache)
        ensures
            cache@ is None,
    {
        ServerCache { servers: None }
    }

    /// The servers, if they have been found.
    pub fn get(&self) -> (servers: Option<Vec<String>>)
        ensures
            servers_view(servers) == self@,
    {
        match &self.servers {
            Some(servers) => Some(copy_names(servers)),
            None => None,
        }
    }
}

/// The servers to command. The first look-up that finds servers keeps them;
/// every look-up after it answers with the servers that were kept, whatever
/// the arguments and the configuration say by then. A look-up that finds
/// none keeps nothing.
pub fn get_servers(
    cache: &mut ServerCache,
    args: Vec<String>,
    default_server: Option<String>,
) -> (servers: Result<Vec<String>, Error>)
    ensures
        (final(cache)@, relay::resolution_view(servers)) == lookup(
            old(cache)@,
            args.deep_view(),
            default_view(default_server),
        ),
{
    if let Some(servers) = &cache.servers {
        return Ok(copy_names(servers));
    }
    match resolve_servers(args, default_server) {
        Ok(servers) => {
            let answer = copy_names(&servers);
            cache.servers = Some(servers);
            Ok(answer)
        },
        Err(error) => Err(error),
    }
}

/// Once servers have been found, later look-ups answer with the same servers
/// and leave the cache as it is, whatever source they are given.
pub proof fn lemma_servers_are_found_once(
    cache: Option<Seq<Seq<char>>>,
    args: Seq<Seq<char>>,
    default_server: Option<Seq<char>>,
    later_args: Seq<Seq<char>>,
    later_default_server: Option<Seq<char>>,
)
    requires
        lookup(cache, args, default_server).1 is Ok,
    ensures
        lookup(lookup(cache, args, default_server).0, later_args, later_default_server) == lookup(
            cache,
            args,
            default_server,
        ),
{
}

/// The arguments and the configured server that one look-up is given.
pub struct Source {
    pub args: Seq<Seq<char>>,
    pub default_server: Option<Seq<char>>,
}

/// What is in the cache after one look-up for each of these sources.
pub open spec fn cache_after(cache: Option<Seq<Seq<char>>>, sources: Seq<Source>) -> Option<
    Seq<Seq<char>>,
>
    decreases sources.len(),
{
    if sources.len() == 0 {
        cache
    } else {
        lookup(
            cache_after(cache, sources.drop_last()),
            sources.last().args,
            sources.last().default_server,
        ).0
    }
}

/// The answer to the look-up at position `at` in a row of look-ups.
pub open spec fn answer_at(cache: Option<Seq<Seq<char>>>, sources: Seq<Source>, at: int) -> Result<
    Seq<Seq<char>>,
    ErrorView,
> {
    lookup(cache_after(cache, sources.take(at)), sources[at].args, sources[at].default_server).1
}

/// In a row of look-ups, however many and whatever their sources, every
/// look-up after one that found servers answers with the same servers.
pub proof fn lemma_all_lookups_agree(
    cache: Option<Seq<Seq<char>>>,
    sources: Seq<Source>,
    first: int,
    later: int,
)
    requires
        0 <= first <= later < sources.len(),
        answer_at(cache, sources, first) is Ok,
    ensures
        answer_at(cache, sources, later) == answer_at(cache, sources, first),
        cache_after(cache, sources.take(later + 1)) == Some(
            answer_at(cache, sources, first)->Ok_0,
        ),
    decreases later - first,
{
    let upto = sources.take(later + 1);
    assert(upto.drop_last() == sources.take(later));
    assert(upto.last() == sources[later]);
    if first < later {
        lemma_all_lookups_agree(cache, sources, first, later - 1);
        assert(sources.take(later - 1 + 1) == sources.take(later));
    }
}

/// Arguments, if there are any, are the servers, and the configuration is
/// not looked at. Without arguments the configured server is the only
/// server, and without that there are none.
pub proof fn lemma_arguments_come_first(args: Seq<Seq<char>>, default_server: Option<Seq<char>>)
    ensures
        args.len() > 0 ==> resolved_servers(args, default_server) == Ok::<
            Seq<Seq<char>>,
            ErrorView,
        >(args),
        args.len() == 0 && (default_server is None || default_server->0.len() == 0)
            ==> resolved_servers(args, default_server) == Err::<Seq<Seq<char>>, ErrorView>(
            ErrorView::NoServers,
        ),
        args.len() == 0 && default_server is Some && default_server->0.len() > 0
            ==> resolved_servers(args, default_server) == Ok::<Seq<Seq<char>>, ErrorView>(
            seq![default_server->0],
        ),
{
}

/// Starts the relay of `command` to the servers.
pub fn execute(command: &str) -> (execution: Execution)
    ensures
        execution@ == command@,
{
    Execution::new(command.to_owned())
}

/// The value of a permit: the command that will be relayed, or the reason
/// why none will be.
pub open spec fn permit_view(permit: Result<Execution, Error>) -> Result<Seq<char>, ErrorView> {
    match permit {
        Ok(execution) => Ok(execution@),
        Err(error) => Err(error@),
    }
}

/// The permit for a sender who asks for the relay of `command` under a verb
/// that takes the tier `required`.
pub open spec fn permitted(
    table: Map<u64, ExecutionAlias>,
    sender: u64,
    required: ExecutionAlias,
    command: Seq<char>,
) -> Result<Seq<char>, ErrorView> {
    if authorized(table, sender, required) {
        Ok(command)
    } else {
        Err(ErrorView::InsufficientPermissions)
    }
}

/// Lets the sender through to the relay of `command` if the table knows them
/// at `required` or above.
pub fn authorize_and_relay(
    table: &AuthorityTable,
    sender: u64,
    required: ExecutionAlias,
    command: &str,
) -> (permit: Result<Execution, Error>)
    ensures
        permit_view(permit) == permitted(table@, sender, required, command@),
{
    match table.authorize(sender, required) {
        Ok(()) => Ok(execute(command)),
        Err(error) => Err(error),
    }
}

/// The command that puts a player on the whitelist.
pub open spec fn whitelist_add_command(target_player: Seq<char>) -> Seq<char> {
    "whitelist add "@ + target_player
}

/// The command that takes a player off the whitelist.
pub open spec fn whitelist_remove_command(target_player: Seq<char>) -> Seq<char> {
    "whitelist remove "@ + target_player
}

/// Puts a player on the whitelist of every server. Anybody may ask for this.
pub fn whitelist_add(_sender: u64, target_player: &str) -> (execution: Execution)
    ensures
        execution@ == whitelist_add_command(target_player@),
{
    let command = concat("whitelist add ", target_player);
    execute(command.as_str())
}

/// Takes a player off the whitelist of every server, for a sender of the
/// tier `Please` or above.
pub fn whitelist_remove(table: &AuthorityTable, sender: u64, target_player: &str) -> (permit: Result<
    Execution,
    Error,
>)
    ensures
        permit_view(permit) == permitted(
            table@,
            sender,
            ExecutionAlias::Please,
            whitelist_remove_command(target_player@),
        ),
{
    let command = concat("whitelist remove ", target_player);
    authorize_and_relay(table, sender, ExecutionAlias::Please, command.as_str())
}

/// Relays the words from position `from` on, joined by single spaces, for a
/// sender of the tier `alias` or above.
pub fn execute_request(
    table: &AuthorityTable,
    sender: u64,
    alias: ExecutionAlias,
    command: &Vec<String>,
    from: usize,
) -> (permit: Result<Execution, Error>)
    requires
        from <= command.len(),
    ensures
        permit_view(permit) == permitted(
            table@,
            sender,
            alias,
            joined(command.deep_view().skip(from as int)),
        ),
{
    let command_str = join_words(command, from);
    authorize_and_relay(table, sender, alias, command_str.as_str())
}

} // verus!
