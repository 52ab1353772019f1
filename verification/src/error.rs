//! What can go wrong while a request is handled, and what went wrong on one server.

use crate::text::{concat, decimal};
use vstd::prelude::*;
use vstd::string::StringExecFns;

verus! {

/// The text that a permissive decoder makes of these bytes: what is valid
/// UTF-8 as it is, the rest replaced.
pub uninterp spec fn utf8_lossy_of(bytes: Seq<u8>) -> Seq<char>;

/// Calls `String::from_utf8_lossy` and takes the text as an owned string.
/// Nothing is claimed of the result but that it is the permissive reading of
/// the bytes, which depends on the bytes alone.
#[verifier::external_body]
fn from_utf8_lossy(bytes: &Vec<u8>) -> (text: String)
    ensures
        text@ == utf8_lossy_of(bytes@),
{
    String::from_utf8_lossy(bytes).into_owned()
}

/// A whole number in decimal digits, with a minus sign if it is negative.
pub open spec fn signed_decimal(n: int) -> Seq<char> {
    if n < 0 {
        seq!['-'] + decimal((-n) as nat)
    } else {
        decimal(n as nat)
    }
}

/// Calls `i32::to_string`, which writes the number in decimal digits, with a
/// minus sign before a negative one.
#[verifier::external_body]
fn exit_code_to_string(code: i32) -> (text: String)
    ensures
        text@ == signed_decimal(code as int),
{
    code.to_string()
}

/// How an exit code is shown: its digits, or `none` if the transport ended
/// without one.
pub open spec fn code_text(code: Option<i32>) -> Seq<char> {
    match code {
        Some(code) => signed_decimal(code as int),
        None => "none"@,
    }
}

/// What was being done for a server when the command failed on it.
pub open spec fn command_info(server: Seq<char>) -> Seq<char> {
    "sending keys to tmux session "@ + server
}

/// Why the command did not get through to one server.
#[derive(Clone, Debug, PartialEq, Eq)]
pub enum Fault {
    /// The transport could not be started or did not complete.
    Io { message: String },
    /// The transport ran and reported failure.
    CommandFailure { code: Option<i32>, stderr: Vec<u8> },
}

/// One server on which the command failed.
#[derive(Clone, Debug, PartialEq, Eq)]
pub struct ServerFailure {
    pub server: String,
    pub fault: Fault,
}

/// Why a request to the bot was turned down or could not be carried out.
#[derive(Clone, Debug, PartialEq, Eq)]
pub enum Error {
    /// The sender is unknown, or ranks below what the verb asks for.
    InsufficientPermissions,
    /// Neither the arguments nor the configuration name a server.
    NoServers,
    /// The command failed on these servers, listed in the order they were tried.
    ServerFailures(Vec<ServerFailure>),
}

/// Mathematical value of a [`Fault`].
pub enum FaultView {
    Io { message: Seq<char> },
    CommandFailure { code: Option<i32>, stderr: Seq<u8> },
}

/// Mathematical value of a [`ServerFailure`].
pub struct ServerFailureView {
    pub server: Seq<char>,
    pub fault: FaultView,
}

/// Mathematical value of an [`Error`].
pub enum ErrorView {
    InsufficientPermissions,
    NoServers,
    ServerFailures(Seq<ServerFailureView>),
}

impl View for Fault {
    type V = FaultView;

    open spec fn view(&self) -> FaultView {
        match *self {
            Fault::Io { message } => FaultView::Io { message: message@ },
            Fault::CommandFailure { code, stderr } => FaultView::CommandFailure {
                code,
                stderr: stderr@,
            },
        }
    }
}

impl View for ServerFailure {
    type V = ServerFailureView;

    open spec fn view(&self) -> ServerFailureView {
        ServerFailureView { server: self.server@, fault: self.fault@ }
    }
}

/// What is said of a command that failed on `server` with this exit code
/// and this error output.
pub open spec fn command_failure_text(
    server: Seq<char>,
    code: Option<i32>,
    output: Seq<char>,
) -> Seq<char> {
    "Command "@ + command_info(server) + " failed with code "@ + code_text(code) + ": "@ + output
}

impl ServerFailureView {
    /// The failure in words.
    pub open spec fn message(self) -> Seq<char> {
        match self.fault {
            FaultView::Io { message } => message,
            FaultView::CommandFailure { code, stderr } => command_failure_text(
                self.server,
                code,
                utf8_lossy_of(stderr),
            ),
        }
    }
}

/// What is said of a command that failed on `server` with this exit code
/// and this error output, the output being given as text.
pub fn describe_command_failure(server: &str, code: Option<i32>, output: &str) -> (message: String)
    ensures
        message@ == command_failure_text(server@, code, output@),
{
    let info = concat("sending keys to tmux session ", server);
    let mut message = concat("Command ", info.as_str());
    message.append(" failed with code ");
    match code {
        Some(code) => message.append(exit_code_to_string(code).as_str()),
        None => message.append("none"),
    }
    message.append(": ");
    message.append(output);
    message
}

/// The failures in words, one line each.
pub open spec fn failure_lines(failures: Seq<ServerFailureView>) -> Seq<char>
    decreases failures.len(),
{
    if failures.len() == 0 {
        Seq::empty()
    } else if failures.len() == 1 {
        failures[0].message()
    } else {
        failure_lines(failures.drop_last()) + "\n"@ + failures.last().message()
    }
}

impl ErrorView {
    /// The error in words.
    pub open spec fn message(self) -> Seq<char> {
        match self {
            ErrorView::InsufficientPermissions => "Insufficient permissions"@,
            ErrorView::NoServers => "No servers were found"@,
            ErrorView::ServerFailures(failures) => failure_lines(failures),
        }
    }
}

impl ServerFailure {
    /// What was being done for the server when the command failed on it.
    pub fn command_info(&self) -> (info: String)
        ensures
            info@ == command_info(self@.server),
    {
        concat("sending keys to tmux session ", self.server.as_str())
    }

    /// The failure in words. Error output that is not valid UTF-8 is shown
    /// as far as it can be read.
    pub fn message(&self) -> (message: String)
        ensures
            message@ == self@.message(),
    {
        match &self.fault {
            Fault::Io { message } => message.clone(),
            Fault::CommandFailure { code, stderr } => {
                let output = from_utf8_lossy(stderr);
                describe_command_failure(self.server.as_str(), *code, output.as_str())
            },
        }
    }
}

impl Error {
    /// The error in words.
    pub fn message(&self) -> (message: String)
        ensures
            message@ == self@.message(),
    {
        match self {
            Error::InsufficientPermissions => String::from_str("Insufficient permissions"),
            Error::NoServers => String::from_str("No servers were found"),
            Error::ServerFailures(failures) => {
                let ghost views = failure_views(failures@);
                let mut message = String::new();
                let mut i: usize = 0;
                while i < failures.len()
                    invariant
                        i <= failures.len(),
                        views == failure_views(failures@),
                        message@ == failure_lines(views.take(i as int)),
                    decreases failures.len() - i,
                {
                    proof {
                        let seen = views.take(i as int);
                        let next = views.take(i + 1);
                        assert(next.drop_last() == seen);
                        assert(next.last() == failures[i as int]@);
                    }
                    if i > 0 {
                        message.append("\n");
                    }
                    message.append(failures[i].message().as_str());
                    i += 1;
                }
                proof {
                    assert(views.take(failures.len() as int) == views);
                }
                message
            },
        }
    }
}

/// The values of a list of failures, in the same order.
pub open spec fn failure_views(failures: Seq<ServerFailure>) -> Seq<ServerFailureView> {
    Seq::new(failures.len(), |i: int| failures[i]@)
}

impl View for Error {
    type V = ErrorView;

    open spec fn view(&self) -> ErrorView {
        match *self {
            Error::InsufficientPermissions => ErrorView::InsufficientPermissions,
            Error::NoServers => ErrorView::NoServers,
            Error::ServerFailures(failures) => ErrorView::ServerFailures(failure_views(failures@)),
        }
    }
}

/// The value of a result that carries an [`Error`].
pub open spec fn outcome_view(outcome: Result<(), Error>) -> Result<(), ErrorView> {
    match outcome {
        Ok(()) => Ok(()),
        Err(error) => Err(error@),
    }
}

} // verus!
