//! What can go wrong, and how it is worded.

use vstd::prelude::*;

use crate::text::{decimal, push_decimal};

verus! {

/// The library's error. `S` is the type of its messages: `String` in programs,
/// a sequence of characters in contracts.
#[derive(Debug)]
#[non_exhaustive]
pub enum Error<S = String> {
    /// The transport failed.
    Io(S),
    /// A time limit ran out.
    Timeout(S),
    /// The TLS layer refused its set-up or the handshake.
    Tls(S),
    /// The peer sent something malformed.
    Protocol(S),
    /// A size is over the configured limit.
    BufferOverflow { expected: usize, limit: usize },
    /// There is no connection.
    NotConnected,
    /// The response carries a status other than success.
    ResponseError { status: u8 },
    /// The configuration contradicts itself.
    Config(S),
    /// Any other error.
    Other(S),
    /// A bare message.
    Msg(S),
}

/// Result of the library's operations.
pub type Result<T, E = Error> = std::result::Result<T, E>;

impl View for Error {
    type V = Error<Seq<char>>;

    open spec fn view(&self) -> Error<Seq<char>> {
        match self {
            Error::Io(text) => Error::Io(text@),
            Error::Timeout(text) => Error::Timeout(text@),
            Error::Tls(text) => Error::Tls(text@),
            Error::Protocol(text) => Error::Protocol(text@),
            Error::BufferOverflow { expected, limit } => Error::BufferOverflow {
                expected: *expected,
                limit: *limit,
            },
            Error::NotConnected => Error::NotConnected,
            Error::ResponseError { status } => Error::ResponseError { status: *status },
            Error::Config(text) => Error::Config(text@),
            Error::Other(text) => Error::Other(text@),
            Error::Msg(text) => Error::Msg(text@),
        }
    }
}

/// A result by the views of its value and of its error.
pub open spec fn outcome<T: View>(result: Result<T>) -> Result<T::V, Error<Seq<char>>> {
    match result {
        Ok(value) => Ok(value@),
        Err(error) => Err(error@),
    }
}

impl Error<Seq<char>> {
    /// The text shown to users.
    pub open spec fn display(self) -> Seq<char> {
        match self {
            Error::Io(text) => "I/O error: "@ + text,
            Error::Timeout(text) => "Timeout: "@ + text,
            Error::Tls(text) => "TLS error: "@ + text,
            Error::Protocol(text) => "Protocol error: "@ + text,
            Error::BufferOverflow { expected, limit } => "Buffer overflow: expected "@ + decimal(
                expected as nat,
            ) + ", limit "@ + decimal(limit as nat),
            Error::NotConnected => "Not connected"@,
            Error::ResponseError { status } => "Response error: status "@ + decimal(status as nat),
            Error::Config(text) => "Invalid config: "@ + text,
            Error::Other(text) => text,
            Error::Msg(text) => text,
        }
    }
}

fn prefixed(prefix: &str, text: &String) -> (joined: String)
    ensures
        joined@ == prefix@ + text@,
{
    let mut joined = prefix.to_owned();
    joined.append(text.as_str());
    joined
}

impl Error {
    /// The text shown to users.
    pub fn to_string(&self) -> (text: String)
        ensures
            text@ == self@.display(),
            match *self {
                Error::Io(reason) => text@ == "I/O error: "@ + reason@,
                Error::Timeout(reason) => text@ == "Timeout: "@ + reason@,
                Error::Tls(reason) => text@ == "TLS error: "@ + reason@,
                Error::Protocol(reason) => text@ == "Protocol error: "@ + reason@,
                Error::BufferOverflow { expected, limit } => text@ == "Buffer overflow: expected "@
                    + decimal(expected as nat) + ", limit "@ + decimal(limit as nat),
                Error::NotConnected => text@ == "Not connected"@,
                Error::ResponseError { status } => text@ == "Response error: status "@ + decimal(
                    status as nat,
                ),
                Error::Config(reason) => text@ == "Invalid config: "@ + reason@,
                Error::Other(reason) => text@ == reason@,
                Error::Msg(reason) => text@ == reason@,
            },
    {
        match self {
            Error::Io(text) => prefixed("I/O error: ", text),
            Error::Timeout(text) => prefixed("Timeout: ", text),
            Error::Tls(text) => prefixed("TLS error: ", text),
            Error::Protocol(text) => prefixed("Protocol error: ", text),
            Error::BufferOverflow { expected, limit } => {
                let mut text = "Buffer overflow: expected ".to_owned();
                push_decimal(&mut text, *expected);
                text.append(", limit ");
                push_decimal(&mut text, *limit);
                text
            },
            Error::NotConnected => "Not connected".to_owned(),
            Error::ResponseError { status } => {
                let mut text = "Response error: status ".to_owned();
                push_decimal(&mut text, *status as usize);
                text
            },
            Error::Config(text) => prefixed("Invalid config: ", text),
            Error::Other(text) => text.clone(),
            Error::Msg(text) => text.clone(),
        }
    }
}

impl vstd::std_specs::convert::FromSpecImpl<String> for Error {
    open spec fn obeys_from_spec() -> bool {
        true
    }

    open spec fn from_spec(text: String) -> Error {
        Error::Msg(text)
    }
}

impl From<String> for Error {
    fn from(text: String) -> (error: Error) {
        Error::Msg(text)
    }
}

impl<'a> vstd::std_specs::convert::FromSpecImpl<&'a str> for Error {
    open spec fn obeys_from_spec() -> bool {
        false
    }

    open spec fn from_spec(text: &'a str) -> Error {
        arbitrary()
    }
}

impl<'a> From<&'a str> for Error {
    fn from(text: &'a str) -> (error: Error)
        ensures
            error@ == Error::Msg(text@),
    {
        Error::Msg(text.to_owned())
    }
}

/// How errors are worded. Those with a reason of their own end with it, after a prefix that
/// tells their kind; bare messages are shown as they are.
pub proof fn errors_are_worded(reason: Seq<char>, expected: usize, limit: usize, status: u8)
    ensures
        Error::Io(reason).display() == "I/O error: "@ + reason,
        Error::Timeout(reason).display() == "Timeout: "@ + reason,
        Error::Tls(reason).display() == "TLS error: "@ + reason,
        Error::Protocol(reason).display() == "Protocol error: "@ + reason,
        (Error::<Seq<char>>::BufferOverflow { expected, limit }).display()
            == "Buffer overflow: expected "@ + decimal(expected as nat) + ", limit "@ + decimal(
            limit as nat,
        ),
        Error::<Seq<char>>::NotConnected.display() == "Not connected"@,
        (Error::<Seq<char>>::ResponseError { status }).display() == "Response error: status "@
            + decimal(status as nat),
        Error::Config(reason).display() == "Invalid config: "@ + reason,
        Error::Other(reason).display() == reason,
        Error::Msg(reason).display() == reason,
{
}

/// Contracts speak of errors and results part by part.
pub proof fn errors_are_viewed_whole(
    reason: String,
    expected: usize,
    limit: usize,
    status: u8,
    error: Error,
    bytes: Vec<u8>,
)
    ensures
        Error::Io(reason)@ == Error::Io(reason@),
        Error::Timeout(reason)@ == Error::Timeout(reason@),
        Error::Tls(reason)@ == Error::Tls(reason@),
        Error::Protocol(reason)@ == Error::Protocol(reason@),
        (Error::<String>::BufferOverflow { expected, limit })@ == (Error::<
            Seq<char>,
        >::BufferOverflow { expected, limit }),
        Error::<String>::NotConnected@ == Error::<Seq<char>>::NotConnected,
        (Error::<String>::ResponseError { status })@ == (Error::<Seq<char>>::ResponseError {
            status,
        }),
        Error::Config(reason)@ == Error::Config(reason@),
        Error::Other(reason)@ == Error::Other(reason@),
        Error::Msg(reason)@ == Error::Msg(reason@),
        outcome::<Vec<u8>>(Ok(bytes)) == Ok::<Seq<u8>, Error<Seq<char>>>(bytes@),
        outcome::<Vec<u8>>(Err(error)) == Err::<Seq<u8>, Error<Seq<char>>>(error@),
        <Error as vstd::std_specs::convert::FromSpec<String>>::from_spec(reason) == Error::Msg(
            reason,
        ),
{
}

} // verus!
