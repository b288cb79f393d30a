//! The network-error heuristic: a classification over failure values
//! answering "might a retry fix this?".
//!
//! The heuristic is true for connection resets, aborts and refusals,
//! timeouts, unexpected ends of stream, broken pipes, unreachable hosts and
//! networks, a fixed list of OS-specific name-resolution failure texts, and
//! the transient classes of HTTP-client and websocket failures; it is false
//! for everything else, including all non-I/O error kinds.

use vstd::prelude::*;
use vstd::string::StringExecFns;
use crate::error::{Error, IoError, IoErrorKind};

verus! {

/// The fields this library reads of an HTTP-client failure, as plain values:
/// its rendering, its transience classification bits, and the response status
/// if the failure stems from one.
#[derive(Clone, Debug, PartialEq, Eq)]
pub struct HttpError {
    /// The failure's human-readable rendering.
    pub message: String,
    /// Whether the failure arose while sending the request.
    pub is_request: bool,
    /// Whether the failure arose while connecting.
    pub is_connect: bool,
    /// Whether the failure is a timeout.
    pub is_timeout: bool,
    /// The response's status code, if the failure stems from one.
    pub status: Option<u16>,
}

/// The fields this library reads of a websocket-layer failure.
#[derive(Clone, Debug, PartialEq, Eq)]
pub enum WsError {
    /// The socket was already closed. Though sometimes described as a caller
    /// error, it is unavoidable when the socket is handled as a concurrent
    /// split sink/stream pair, so it counts as transient.
    AlreadyClosed,
    /// An HTTP error response during the handshake, with its status code.
    Http {
        /// The response's status code.
        status: u16,
    },
    /// An I/O failure.
    Io(IoError),
    /// The peer reset the connection without a closing handshake.
    ResetWithoutClosingHandshake,
    /// Any other protocol violation.
    OtherProtocol,
    /// Any other websocket failure.
    Other,
}

/// The fields this library reads of a protocol-read failure.
#[derive(Clone, Debug, PartialEq, Eq)]
pub enum ProtoReadError {
    /// The stream ended mid-message.
    EndOfStream,
    /// An I/O failure.
    Io(IoError),
    /// A websocket-layer failure.
    Ws(WsError),
    /// Any other read failure.
    Other,
}

/// The fields this library reads of a protocol-write failure.
#[derive(Clone, Debug, PartialEq, Eq)]
pub enum ProtoWriteError {
    /// An I/O failure.
    Io(IoError),
    /// A websocket-layer failure.
    Ws(WsError),
    /// Any other write failure.
    Other,
}

/// The fields this library reads of a race-client failure.
#[derive(Clone, Debug, PartialEq, Eq)]
pub enum RaceClientError {
    /// A caller-supplied failure.
    Custom,
    /// A header value that was not text.
    HeaderToStr,
    /// An invalid header value.
    InvalidHeaderValue,
    /// An I/O failure.
    Io(IoError),
    /// A structured-data parse failure.
    Json,
    /// A task failure.
    Task,
    /// A URL parse failure.
    UrlParse,
    /// The stream ended mid-message.
    EndOfStream,
    /// A malformed location category.
    LocationCategory,
    /// A malformed location header.
    LocationFormat,
    /// A response without its location header.
    MissingLocationHeader,
    /// An HTTP-client failure.
    Reqwest(HttpError),
    /// A response with an HTTP error status.
    ResponseStatus(HttpError),
    /// A server-reported failure.
    Server,
    /// A websocket-layer failure.
    Tungstenite(WsError),
    /// A message of an unexpected type.
    UnexpectedMessageType,
}

/// Whether this rendering is one of the OS-specific name-resolution failure
/// texts. Some error sources do not provide structured information about I/O
/// errors, so the heuristic also checks the rendering.
pub open spec fn spec_dns_failure_message(message: Seq<char>) -> bool {
    ||| message == "No such host is known. (os error 11001)"@
    ||| message == "failed to lookup address information: Temporary failure in name resolution"@
    ||| message == "failed to lookup address information: No address associated with hostname"@
}

/// A heuristic for whether an error is a network error outside of our control
/// that might be fixed by retrying the operation.
pub trait IsNetworkError {
    /// The classification this implementation computes.
    spec fn spec_is_network_error(&self) -> bool;

    /// A heuristic for whether an error is a network error outside of our
    /// control that might be fixed by retrying the operation.
    fn is_network_error(&self) -> (r: bool)
        ensures
            r == self.spec_is_network_error(),
    ;
}

impl IsNetworkError for IoError {
    open spec fn spec_is_network_error(&self) -> bool {
        ||| self.kind is BrokenPipe
        ||| self.kind is ConnectionAborted
        ||| self.kind is ConnectionRefused
        ||| self.kind is ConnectionReset
        ||| self.kind is HostUnreachable
        ||| self.kind is NetworkUnreachable
        ||| self.kind is TimedOut
        ||| self.kind is UnexpectedEof
        ||| spec_dns_failure_message(self.message@)
    }

    fn is_network_error(&self) -> (r: bool)
        ensures
            r == self.spec_is_network_error(),
    {
        let transient_kind = matches!(
            self.kind,
            IoErrorKind::BrokenPipe
                | IoErrorKind::ConnectionAborted
                | IoErrorKind::ConnectionRefused
                | IoErrorKind::ConnectionReset
                | IoErrorKind::HostUnreachable
                | IoErrorKind::NetworkUnreachable
                | IoErrorKind::TimedOut
                | IoErrorKind::UnexpectedEof
        );
        if transient_kind {
            true
        } else {
            let no_host = String::from_str("No such host is known. (os error 11001)");
            let temporary = String::from_str(
                "failed to lookup address information: Temporary failure in name resolution",
            );
            let no_address = String::from_str(
                "failed to lookup address information: No address associated with hostname",
            );
            self.message == no_host || self.message == temporary || self.message == no_address
        }
    }
}

impl IsNetworkError for HttpError {
    open spec fn spec_is_network_error(&self) -> bool {
        ||| self.is_request
        ||| self.is_connect
        ||| self.is_timeout
        ||| match self.status {
            Some(status) => 500 <= status < 600,
            None => false,
        }
    }

    fn is_network_error(&self) -> (r: bool)
        ensures
            r == self.spec_is_network_error(),
    {
        self.is_request || self.is_connect || self.is_timeout || match self.status {
            Some(status) => 500 <= status && status < 600,
            None => false,
        }
    }
}

impl IsNetworkError for WsError {
    open spec fn spec_is_network_error(&self) -> bool {
        match self {
            WsError::AlreadyClosed => true,
            WsError::Http { status } => 500 <= *status < 600,
            WsError::Io(inner) => inner.spec_is_network_error(),
            WsError::ResetWithoutClosingHandshake => true,
            WsError::OtherProtocol => false,
            WsError::Other => false,
        }
    }

    fn is_network_error(&self) -> (r: bool)
        ensures
            r == self.spec_is_network_error(),
    {
        match self {
            WsError::AlreadyClosed => true,
            WsError::Http { status } => 500 <= *status && *status < 600,
            WsError::Io(inner) => inner.is_network_error(),
            WsError::ResetWithoutClosingHandshake => true,
            WsError::OtherProtocol => false,
            WsError::Other => false,
        }
    }
}

impl IsNetworkError for ProtoReadError {
    open spec fn spec_is_network_error(&self) -> bool {
        match self {
            ProtoReadError::EndOfStream => true,
            ProtoReadError::Io(inner) => inner.spec_is_network_error(),
            ProtoReadError::Ws(inner) => inner.spec_is_network_error(),
            ProtoReadError::Other => false,
        }
    }

    fn is_network_error(&self) -> (r: bool)
        ensures
            r == self.spec_is_network_error(),
    {
        match self {
            ProtoReadError::EndOfStream => true,
            ProtoReadError::Io(inner) => inner.is_network_error(),
            ProtoReadError::Ws(inner) => inner.is_network_error(),
            ProtoReadError::Other => false,
        }
    }
}

impl IsNetworkError for ProtoWriteError {
    open spec fn spec_is_network_error(&self) -> bool {
        match self {
            ProtoWriteError::Io(inner) => inner.spec_is_network_error(),
            ProtoWriteError::Ws(inner) => inner.spec_is_network_error(),
            ProtoWriteError::Other => false,
        }
    }

    fn is_network_error(&self) -> (r: bool)
        ensures
            r == self.spec_is_network_error(),
    {
        match self {
            ProtoWriteError::Io(inner) => inner.is_network_error(),
            ProtoWriteError::Ws(inner) => inner.is_network_error(),
            ProtoWriteError::Other => false,
        }
    }
}

impl IsNetworkError for RaceClientError {
    open spec fn spec_is_network_error(&self) -> bool {
        match self {
            RaceClientError::Io(inner) => inner.spec_is_network_error(),
            RaceClientError::EndOfStream => true,
            RaceClientError::Reqwest(inner) => inner.spec_is_network_error(),
            RaceClientError::ResponseStatus(inner) => inner.spec_is_network_error(),
            RaceClientError::Tungstenite(inner) => inner.spec_is_network_error(),
            _ => false,
        }
    }

    fn is_network_error(&self) -> (r: bool)
        ensures
            r == self.spec_is_network_error(),
    {
        match self {
            RaceClientError::Io(inner) => inner.is_network_error(),
            RaceClientError::EndOfStream => true,
            RaceClientError::Reqwest(inner) => inner.is_network_error(),
            RaceClientError::ResponseStatus(inner) => inner.is_network_error(),
            RaceClientError::Tungstenite(inner) => inner.is_network_error(),
            _ => false,
        }
    }
}

impl IsNetworkError for Error {
    open spec fn spec_is_network_error(&self) -> bool {
        match self {
            Error::Io { inner, .. } => inner.spec_is_network_error(),
            Error::Reqwest(inner) => inner.spec_is_network_error(),
            Error::ResponseStatus { inner, .. } => inner.spec_is_network_error(),
            _ => false,
        }
    }

    fn is_network_error(&self) -> (r: bool)
        ensures
            r == self.spec_is_network_error(),
    {
        match self {
            Error::Io { inner, .. } => inner.is_network_error(),
            Error::Reqwest(inner) => inner.is_network_error(),
            Error::ResponseStatus { inner, .. } => inner.is_network_error(),
            _ => false,
        }
    }
}

/// Converts an HTTP-client failure into the I/O failure model with the
/// appropriate kind: a timeout keeps its kind, anything else is unclassified.
pub fn io_error_from_reqwest(e: HttpError) -> (r: IoError)
    ensures
        r.kind == (if e.is_timeout {
            IoErrorKind::TimedOut
        } else {
            IoErrorKind::Other
        }),
        r.message == e.message,
{
    IoError {
        kind: if e.is_timeout {
            IoErrorKind::TimedOut
        } else {
            IoErrorKind::Other
        },
        message: e.message,
    }
}

} // verus!
