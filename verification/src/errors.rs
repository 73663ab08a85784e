//! Error taxonomy of the host interface.
//!
//! Errors surfaced to the guest are structured values, never host faults:
//! the HTTP pipeline classifies failures into [`HttpError`], streams report
//! [`StreamError`], and address resolution reports a socket [`ErrorCode`].
//! Resource-table misuse is a distinguishable host-internal fault
//! ([`TableError`]).

use vstd::prelude::*;
use vstd::string::StringExecFns;

verus! {

/// Classified failure of the outgoing HTTP pipeline, surfaced to the guest.
#[derive(Debug, Clone)]
pub enum HttpError {
    /// The connection target could not be reached or resolved.
    InvalidUrl(String),
    /// A phase timed out; the message names the phase.
    TimeoutError(String),
    /// A wire-protocol or TLS failure, with a readable cause.
    ProtocolError(String),
    /// Catch-all, e.g. a platform without TLS support.
    UnexpectedError(String),
}

/// Host-internal resource-table fault: indicates a host bug, not guest input.
#[derive(Debug, Clone, PartialEq, Eq, Structural)]
pub enum TableError {
    /// The table cannot allocate another handle.
    Full,
    /// The handle is not live: never created, or already deleted.
    NotPresent,
    /// The handle is live but holds a resource of another kind.
    WrongType,
    /// The entry still has live children and cannot be deleted.
    HasChildren,
}

/// Stream failure as the host sees it.
#[derive(Debug)]
pub enum StreamError {
    /// The stream is permanently done; not a failure.
    Closed,
    /// The last operation failed; carries an opaque cause the guest may
    /// inspect as text but not otherwise interpret.
    LastOperationFailed(String),
    /// The caller broke a contract it was responsible for (e.g. wrote past
    /// the reported capacity): terminates the call rather than being
    /// returned to the guest.
    Trap(String),
}

/// Stream failure as the guest sees it: the opaque cause of
/// `LastOperationFailed` has been moved into the table and is referred to
/// by handle.
#[derive(Debug, Clone, PartialEq, Eq, Structural)]
pub enum GuestStreamError {
    Closed,
    LastOperationFailed(u32),
}

/// Socket-domain error codes used by address resolution.
#[derive(Debug, Clone, Copy, PartialEq, Eq, Structural)]
pub enum ErrorCode {
    /// The name is not a valid domain name or IP literal.
    InvalidArgument,
    /// The network capability does not allow name lookups.
    PermanentResolverFailure,
    /// Resolution has not completed yet; subscribe and retry.
    WouldBlock,
    /// The resolver could not resolve the name.
    NameUnresolvable,
}

/// Result of a socket-domain host call: either a guest-visible code or a
/// host-internal table fault that aborts the call.
#[derive(Debug, Clone, PartialEq, Eq, Structural)]
pub enum SocketError {
    Code(ErrorCode),
    Table(TableError),
}

/// Builds the timeout error for a pipeline phase: the message is the phase
/// name followed by " timed out".
pub fn timeout_error(kind: &str) -> (e: HttpError)
    ensures
        (e matches HttpError::TimeoutError(m) && m@ == kind@ + " timed out"@),
{
    HttpError::TimeoutError(kind.to_owned().concat(" timed out"))
}

/// Classifies a wire-level (request construction) failure, already rendered
/// to text, as a protocol error.
pub fn http_protocol_error(cause: String) -> (e: HttpError)
    ensures
        e == HttpError::ProtocolError(cause),
{
    HttpError::ProtocolError(cause)
}

/// Classifies a connection-level protocol failure, already rendered to
/// text, as a protocol error.
pub fn hyper_protocol_error(cause: String) -> (e: HttpError)
    ensures
        e == HttpError::ProtocolError(cause),
{
    HttpError::ProtocolError(cause)
}

/// Classifies a failure to open the connection (unresolvable or invalid
/// target), already rendered to text, as an invalid-url error.
pub fn invalid_url(cause: String) -> (e: HttpError)
    ensures
        e == HttpError::InvalidUrl(cause),
{
    HttpError::InvalidUrl(cause)
}

impl HttpError {
    /// The readable message carried by this error.
    pub fn message(&self) -> (m: &String)
        ensures
            *m == self.spec_message(),
    {
        match self {
            HttpError::InvalidUrl(m) => m,
            HttpError::TimeoutError(m) => m,
            HttpError::ProtocolError(m) => m,
            HttpError::UnexpectedError(m) => m,
        }
    }

    /// The message, as a spec-level value.
    pub open spec fn spec_message(&self) -> String {
        match self {
            HttpError::InvalidUrl(m) => *m,
            HttpError::TimeoutError(m) => *m,
            HttpError::ProtocolError(m) => *m,
            HttpError::UnexpectedError(m) => *m,
        }
    }
}

} // verus!
