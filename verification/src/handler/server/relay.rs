//! Delivery of one command to every server, one server at a time.
//!
//! The library never talks to a server itself. It says which server is next
//! and takes back what came of the delivery, until every server has had its turn.

use crate::error::{failure_views, Error, ErrorView, Fault, FaultView, ServerFailure, ServerFailureView};
use vstd::prelude::*;
use vstd::string::StringExecFns;

verus! {

/// What came of handing the command to one server.
#[derive(Clone, Debug, PartialEq, Eq)]
pub enum Delivery {
    /// The transport ran to its end and reported this status and error output.
    Completed { success: bool, code: Option<i32>, stderr: Vec<u8> },
    /// The transport could not be started or did not complete.
    Failed { message: String },
}

/// Mathematical value of a [`Delivery`].
pub enum DeliveryView {
    Completed { success: bool, code: Option<i32>, stderr: Seq<u8> },
    Failed { message: Seq<char> },
}

impl View for Delivery {
    type V = DeliveryView;

    open spec fn view(&self) -> DeliveryView {
        match *self {
            Delivery::Completed { success, code, stderr } => DeliveryView::Completed {
                success,
                code,
                stderr: stderr@,
            },
            Delivery::Failed { message } => DeliveryView::Failed { message: message@ },
        }
    }
}

impl DeliveryView {
    /// What is held against the server after this delivery, if anything.
    pub open spec fn fault(self) -> Option<FaultView> {
        match self {
            DeliveryView::Completed { success, code, stderr } => if success {
                None
            } else {
                Some(FaultView::CommandFailure { code, stderr })
            },
            DeliveryView::Failed { message } => Some(FaultView::Io { message }),
        }
    }
}

/// The arguments with which `tmux` types `command` into the session of
/// `server` and presses enter.
pub open spec fn send_keys_arguments(server: Seq<char>, command: Seq<char>) -> Seq<Seq<char>> {
    seq!["send-keys"@, "-t"@, server, command, "Enter"@]
}

/// A relay that still has a server to deliver to.
pub struct SendingView {
    pub command: Seq<char>,
    pub servers: Seq<Seq<char>>,
    pub attempted: nat,
    pub failures: Seq<ServerFailureView>,
}

/// Where a relay stands: a server is due, or the relay is over.
pub enum ProgressView {
    Send(SendingView),
    Done(Result<(), ErrorView>),
}

/// The result of a relay that collected `failures`.
pub open spec fn verdict(failures: Seq<ServerFailureView>) -> Result<(), ErrorView> {
    if failures.len() == 0 {
        Ok(())
    } else {
        Err(ErrorView::ServerFailures(failures))
    }
}

/// Where a relay stands once `attempted` servers have had their turn.
pub open spec fn proceed(
    command: Seq<char>,
    servers: Seq<Seq<char>>,
    attempted: nat,
    failures: Seq<ServerFailureView>,
) -> ProgressView {
    if attempted < servers.len() {
        ProgressView::Send(SendingView { command, servers, attempted, failures })
    } else {
        ProgressView::Done(verdict(failures))
    }
}

/// Where a relay stands once the servers are known, or known to be missing.
pub open spec fn begin(
    command: Seq<char>,
    servers: Result<Seq<Seq<char>>, ErrorView>,
) -> ProgressView {
    match servers {
        Ok(servers) => proceed(command, servers, 0, Seq::empty()),
        Err(error) => ProgressView::Done(Err(error)),
    }
}

impl SendingView {
    /// The server that is due.
    pub open spec fn server(self) -> Seq<char> {
        self.servers[self.attempted as int]
    }

    /// Where the relay stands after the due server's delivery came back as `delivery`.
    pub open spec fn delivered(self, delivery: DeliveryView) -> ProgressView {
        let failures = match delivery.fault() {
            Some(fault) => self.failures.push(ServerFailureView { server: self.server(), fault }),
            None => self.failures,
        };
        proceed(self.command, self.servers, self.attempted + 1, failures)
    }
}

/// Where a relay stands after these deliveries came back, one by one.
/// Deliveries that come back once the relay is over change nothing.
pub open spec fn after(progress: ProgressView, deliveries: Seq<DeliveryView>) -> ProgressView
    decreases deliveries.len(),
{
    if deliveries.len() == 0 {
        progress
    } else {
        match after(progress, deliveries.drop_last()) {
            ProgressView::Send(sending) => sending.delivered(deliveries.last()),
            ProgressView::Done(outcome) => ProgressView::Done(outcome),
        }
    }
}

/// The positions of the deliveries that went wrong, in increasing order.
pub open spec fn failed_positions(deliveries: Seq<DeliveryView>) -> Seq<int>
    decreases deliveries.len(),
{
    if deliveries.len() == 0 {
        Seq::empty()
    } else {
        let earlier = failed_positions(deliveries.drop_last());
        if deliveries.last().fault() is Some {
            earlier.push(deliveries.len() - 1)
        } else {
            earlier
        }
    }
}

/// The failures of a relay in which the delivery at each position went to
/// the server at the same position.
pub open spec fn failures_of(servers: Seq<Seq<char>>, deliveries: Seq<DeliveryView>) -> Seq<
    ServerFailureView,
> {
    let at = failed_positions(deliveries);
    Seq::new(
        at.len(),
        |k: int| ServerFailureView { server: servers[at[k]], fault: deliveries[at[k]].fault()->0 },
    )
}

/// The positions of the deliveries that went wrong, as a set.
pub open spec fn failed_set(deliveries: Seq<DeliveryView>) -> Set<int> {
    Set::new(|i: int| 0 <= i < deliveries.len() && deliveries[i].fault() is Some)
}

/// `failed_positions` lists each delivery that went wrong once, and no other,
/// from the first to the last. So the failures of a relay are as many as the
/// servers on which the command failed, and stand in the order of the servers.
pub proof fn lemma_failed_positions(deliveries: Seq<DeliveryView>)
    ensures
        forall|k: int|
            0 <= k < failed_positions(deliveries).len() ==> {
                &&& 0 <= #[trigger] failed_positions(deliveries)[k] < deliveries.len()
                &&& deliveries[failed_positions(deliveries)[k]].fault() is Some
            },
        forall|j: int, k: int|
            0 <= j < k < failed_positions(deliveries).len() ==> failed_positions(deliveries)[j]
                < failed_positions(deliveries)[k],
        failed_positions(deliveries).to_set() == failed_set(deliveries),
        failed_set(deliveries).finite(),
        failed_positions(deliveries).len() == failed_set(deliveries).len(),
    decreases deliveries.len(),
{
    let at = failed_positions(deliveries);
    if deliveries.len() == 0 {
        assert(at.to_set() =~= failed_set(deliveries));
    } else {
        let shorter = deliveries.drop_last();
        let earlier = failed_positions(shorter);
        let last = deliveries.len() - 1;
        lemma_failed_positions(shorter);
        assert forall|k: int| 0 <= k < at.len() implies {
            &&& 0 <= #[trigger] at[k] < deliveries.len()
            &&& deliveries[at[k]].fault() is Some
        } by {
            if k < earlier.len() {
                assert(at[k] == earlier[k]);
                assert(shorter[earlier[k]] == deliveries[earlier[k]]);
            }
        }
        assert forall|j: int, k: int| 0 <= j < k < at.len() implies at[j] < at[k] by {
            assert(at[j] == earlier[j]);
            if k < earlier.len() {
                assert(at[k] == earlier[k]);
            }
        }
        assert forall|i: int| failed_set(deliveries).contains(i) implies at.to_set().contains(
            i,
        ) by {
            if i < last {
                assert(shorter[i] == deliveries[i]);
                assert(failed_set(shorter).contains(i));
                assert(earlier.to_set().contains(i));
                let k = choose|k: int| 0 <= k < earlier.len() && earlier[k] == i;
                assert(at[k] == i);
            } else {
                assert(at[at.len() - 1] == last);
            }
        }
        assert forall|i: int| at.to_set().contains(i) implies failed_set(deliveries).contains(
            i,
        ) by {
            let k = choose|k: int| 0 <= k < at.len() && at[k] == i;
            assert(0 <= at[k] < deliveries.len());
        }
        assert(at.to_set() =~= failed_set(deliveries));
    }
    assert(at.no_duplicates());
    at.unique_seq_to_set();
}

/// Every server gets its turn, in the order of the list, whatever came of the
/// deliveries before it: after `n` deliveries the server at position `n` is
/// due, and after as many deliveries as there are servers the relay is over
/// with the failures of those deliveries.
pub proof fn lemma_relay_tries_every_server(
    command: Seq<char>,
    servers: Seq<Seq<char>>,
    deliveries: Seq<DeliveryView>,
)
    requires
        deliveries.len() <= servers.len(),
    ensures
        after(begin(command, Ok(servers)), deliveries) == proceed(
            command,
            servers,
            deliveries.len(),
            failures_of(servers, deliveries),
        ),
        deliveries.len() < servers.len() ==> {
            &&& after(begin(command, Ok(servers)), deliveries) matches ProgressView::Send(sending)
            &&& sending.server() == servers[deliveries.len() as int]
            &&& sending.command == command
        },
        deliveries.len() == servers.len() ==> after(begin(command, Ok(servers)), deliveries)
            == ProgressView::Done(verdict(failures_of(servers, deliveries))),
    decreases deliveries.len(),
{
    if deliveries.len() == 0 {
        assert(failures_of(servers, deliveries) == Seq::<ServerFailureView>::empty());
    } else {
        let shorter = deliveries.drop_last();
        lemma_relay_tries_every_server(command, servers, shorter);
        lemma_failed_positions(shorter);
        let earlier = failed_positions(shorter);
        let last = deliveries.len() - 1;
        assert forall|k: int| 0 <= k < earlier.len() implies shorter[earlier[k]]
            == deliveries[earlier[k]] by {}
        if deliveries.last().fault() is Some {
            assert(failures_of(servers, deliveries) == failures_of(servers, shorter).push(
                ServerFailureView { server: servers[last], fault: deliveries[last].fault()->0 },
            ));
        } else {
            assert(failures_of(servers, deliveries) == failures_of(servers, shorter));
        }
    }
}

/// A relay that tried every server ends well exactly if no delivery went
/// wrong, and else ends with one failure for each delivery that did.
pub proof fn lemma_relay_succeeds_iff_nothing_failed(
    command: Seq<char>,
    servers: Seq<Seq<char>>,
    deliveries: Seq<DeliveryView>,
)
    requires
        deliveries.len() == servers.len(),
    ensures
        after(begin(command, Ok(servers)), deliveries) == ProgressView::Done(Ok(()))
            <==> failures_of(servers, deliveries).len() == 0,
        failures_of(servers, deliveries).len() == 0 <==> forall|i: int|
            0 <= i < deliveries.len() ==> (#[trigger] deliveries[i]).fault() is None,
        failures_of(servers, deliveries).len() > 0 ==> after(
            begin(command, Ok(servers)),
            deliveries,
        ) == ProgressView::Done(
            Err(ErrorView::ServerFailures(failures_of(servers, deliveries))),
        ),
        failures_of(servers, deliveries).len() == failed_set(deliveries).len(),
{
    lemma_relay_tries_every_server(command, servers, deliveries);
    lemma_failed_positions(deliveries);
    let at = failed_positions(deliveries);
    if at.len() == 0 {
        assert forall|i: int| 0 <= i < deliveries.len() implies (#[trigger] deliveries[i]).fault()
            is None by {
            if deliveries[i].fault() is Some {
                assert(failed_set(deliveries).contains(i));
                assert(at.to_set().contains(i));
            }
        }
    } else {
        assert(deliveries[at[0]].fault() is Some);
    }
}

/// Without servers nothing is delivered: the relay is over with the error
/// that kept the servers from being found.
pub proof fn lemma_relay_without_servers(
    command: Seq<char>,
    error: ErrorView,
    deliveries: Seq<DeliveryView>,
)
    ensures
        after(begin(command, Err(error)), deliveries) == ProgressView::Done(Err(error)),
    decreases deliveries.len(),
{
    if deliveries.len() > 0 {
        lemma_relay_without_servers(command, error, deliveries.drop_last());
    }
}

/// A command on its way to the servers, before the servers are known.
#[derive(Debug)]
pub struct Execution {
    command: String,
}

impl View for Execution {
    type V = Seq<char>;

    closed spec fn view(&self) -> Seq<char> {
        self.command@
    }
}

/// A relay that waits for the delivery to one server.
#[derive(Debug)]
pub struct Sending {
    command: String,
    servers: Vec<String>,
    attempted: usize,
    failures: Vec<ServerFailure>,
}

impl View for Sending {
    type V = SendingView;

    closed spec fn view(&self) -> SendingView {
        SendingView {
            command: self.command@,
            servers: self.servers.deep_view(),
            attempted: self.attempted as nat,
            failures: failure_views(self.failures@),
        }
    }
}

/// Where a relay stands: a server is due, or the relay is over.
#[derive(Debug)]
pub enum Progress {
    Send(Sending),
    Done(Result<(), Error>),
}

impl View for Progress {
    type V = ProgressView;

    open spec fn view(&self) -> ProgressView {
        match *self {
            Progress::Send(sending) => ProgressView::Send(sending@),
            Progress::Done(Ok(())) => ProgressView::Done(Ok(())),
            Progress::Done(Err(error)) => ProgressView::Done(Err(error@)),
        }
    }
}

/// The value of a server list handed to a relay.
pub open spec fn resolution_view(servers: Result<Vec<String>, Error>) -> Result<
    Seq<Seq<char>>,
    ErrorView,
> {
    match servers {
        Ok(servers) => Ok(servers.deep_view()),
        Err(error) => Err(error@),
    }
}

fn advance(
    command: String,
    servers: Vec<String>,
    attempted: usize,
    failures: Vec<ServerFailure>,
) -> (progress: Progress)
    ensures
        progress@ == proceed(
            command@,
            servers.deep_view(),
            attempted as nat,
            failure_views(failures@),
        ),
{
    if attempted < servers.len() {
        Progress::Send(Sending { command, servers, attempted, failures })
    } else if failures.len() == 0 {
        Progress::Done(Ok(()))
    } else {
        Progress::Done(Err(Error::ServerFailures(failures)))
    }
}

impl Execution {
    /// A relay of `command` that has not been told its servers yet.
    pub fn new(command: String) -> (execution: Execution)
        ensures
            execution@ == command@,
    {
        Execution { command }
    }

    /// The text that will be sent.
    pub fn command(&self) -> (command: &str)
        ensures
            command@ == self@,
    {
        self.command.as_str()
    }

    /// Hands the relay its servers. Without servers the relay is over at once,
    /// with the error that kept them from being found.
    pub fn resolved(self, servers: Result<Vec<String>, Error>) -> (progress: Progress)
        ensures
            progress@ == begin(self@, resolution_view(servers)),
    {
        match servers {
            Ok(servers) => {
                let failures: Vec<ServerFailure> = Vec::new();
                assert(failure_views(failures@) == Seq::<ServerFailureView>::empty());
                advance(self.command, servers, 0, failures)
            },
            Err(error) => Progress::Done(Err(error)),
        }
    }
}

impl Sending {
    #[verifier::type_invariant]
    spec fn has_server_due(self) -> bool {
        self.attempted < self.servers.len()
    }

    /// The server to deliver to now.
    pub fn server(&self) -> (server: &str)
        ensures
            self@.attempted < self@.servers.len(),
            server@ == self@.server(),
    {
        proof {
            use_type_invariant(self);
        }
        self.servers[self.attempted].as_str()
    }

    /// The text to deliver.
    pub fn command(&self) -> (command: &str)
        ensures
            command@ == self@.command,
    {
        self.command.as_str()
    }

    /// The arguments with which `tmux` delivers the text to the due server.
    pub fn arguments(&self) -> (arguments: Vec<String>)
        ensures
            arguments.deep_view() == send_keys_arguments(self@.server(), self@.command),
    {
        let mut arguments: Vec<String> = Vec::new();
        arguments.push(String::from_str("send-keys"));
        arguments.push(String::from_str("-t"));
        arguments.push(self.server().to_owned());
        arguments.push(self.command().to_owned());
        arguments.push(String::from_str("Enter"));
        assert(arguments.deep_view() =~= send_keys_arguments(self@.server(), self@.command));
        arguments
    }

    /// Takes note of what came of the delivery to the due server and moves on
    /// to the next one, whatever came of it.
    pub fn delivered(self, delivery: Delivery) -> (progress: Progress)
        ensures
            progress@ == self@.delivered(delivery@),
    {
        proof {
            use_type_invariant(&self);
        }
        let ghost before = self@;
        let Sending { command, servers, attempted, mut failures } = self;
        let ghost collected = failure_views(failures@);
        match delivery {
            Delivery::Completed { success, code, stderr } => {
                if !success {
                    let server = servers[attempted].clone();
                    failures.push(ServerFailure { server, fault: Fault::CommandFailure { code, stderr } });
                    assert(failure_views(failures@) == collected.push(
                        ServerFailureView {
                            server: before.server(),
                            fault: FaultView::CommandFailure { code, stderr: stderr@ },
                        },
                    ));
                }
            },
            Delivery::Failed { message } => {
                let server = servers[attempted].clone();
                failures.push(ServerFailure { server, fault: Fault::Io { message } });
                assert(failure_views(failures@) == collected.push(
                    ServerFailureView {
                        server: before.server(),
                        fault: FaultView::Io { message: message@ },
                    },
                ));
            },
        }
        advance(command, servers, attempted + 1, failures)
    }
}

} // verus!
