//! Guest-visible HTTP types and their wire-level counterparts.
//!
//! The wire side of a request or response is held as plain data: a method
//! token, a status code, a header list, and stream handles for bodies.
//! Conversion between the guest's enumerated method and the wire token is
//! total and lossless: nine named methods map to variants, anything else
//! survives verbatim in an "other" variant, and converting back validates
//! the literal with the wire library's method-token rules.

use vstd::prelude::*;
use crate::errors::HttpError;
use crate::streams::InputStream;

verus! {

/// A span of time in nanoseconds, as the guest interface counts it.
#[derive(Debug, Clone, Copy, PartialEq, Eq, Structural)]
pub struct Duration {
    pub nanos: u64,
}

/// Header fields as a list of (name, value) pairs, in insertion order.
pub type FieldMap = Vec<(String, Vec<u8>)>;

/// The guest's view of a request method.
#[derive(Debug, Clone)]
pub enum Method {
    Get,
    Head,
    Post,
    Put,
    Delete,
    Connect,
    Options,
    Trace,
    Patch,
    /// Any other method, carried as its literal token.
    Other(String),
}

/// The guest's view of a URL scheme.
#[derive(Debug, Clone)]
pub enum Scheme {
    Http,
    Https,
    Other(String),
}

/// A character allowed in an HTTP method token: `!#$%&'*+-.^_`|~`, digits
/// and letters.
pub open spec fn is_method_char(c: char) -> bool {
    ||| c == '!' ||| c == '#' ||| c == '$' ||| c == '%' ||| c == '&' ||| c == '\''
    ||| c == '*' ||| c == '+' ||| c == '-' ||| c == '.'
    ||| ('0' <= c && c <= '9') ||| ('A' <= c && c <= 'Z')
    ||| c == '^' ||| c == '_' ||| c == '`' ||| ('a' <= c && c <= 'z')
    ||| c == '|' ||| c == '~'
}

/// A valid method token: non-empty, token characters only.
pub open spec fn is_method_token(t: Seq<char>) -> bool {
    t.len() > 0 && forall|i: int| 0 <= i < t.len() ==> is_method_char(#[trigger] t[i])
}

/// Relies on `http::Method::from_bytes`: it accepts exactly the non-empty
/// byte strings made of HTTP token characters (its `METHOD_CHARS` table).
/// Any character outside ASCII encodes to bytes the table rejects, so over
/// characters the acceptance condition is `is_method_token`.
#[verifier::external_body]
pub fn wire_method_token_ok(token: &str) -> (r: bool)
    ensures
        r == is_method_token(token@),
{
    http::Method::from_bytes(token.as_bytes()).is_ok()
}

/// The wire token names one of the nine guest method variants.
pub open spec fn is_named_method_token(t: Seq<char>) -> bool {
    ||| t == "GET"@ ||| t == "HEAD"@ ||| t == "POST"@ ||| t == "PUT"@
    ||| t == "DELETE"@ ||| t == "CONNECT"@ ||| t == "OPTIONS"@ ||| t == "TRACE"@
    ||| t == "PATCH"@
}

/// How a wire method token classifies into the guest's enumeration.
pub open spec fn token_to_method_rel(t: Seq<char>, m: Method) -> bool {
    if t == "GET"@ {
        m is Get
    } else if t == "HEAD"@ {
        m is Head
    } else if t == "POST"@ {
        m is Post
    } else if t == "PUT"@ {
        m is Put
    } else if t == "DELETE"@ {
        m is Delete
    } else if t == "CONNECT"@ {
        m is Connect
    } else if t == "OPTIONS"@ {
        m is Options
    } else if t == "TRACE"@ {
        m is Trace
    } else if t == "PATCH"@ {
        m is Patch
    } else {
        m matches Method::Other(s) && s@ == t
    }
}

/// What converting a guest method back to a wire token yields: `Some`
/// token on success, `None` when the "other" literal fails token
/// validation.
pub open spec fn method_to_token_rel(m: Method, out: Option<Seq<char>>) -> bool {
    match m {
        Method::Get => out == Some("GET"@),
        Method::Head => out == Some("HEAD"@),
        Method::Post => out == Some("POST"@),
        Method::Put => out == Some("PUT"@),
        Method::Delete => out == Some("DELETE"@),
        Method::Connect => out == Some("CONNECT"@),
        Method::Options => out == Some("OPTIONS"@),
        Method::Trace => out == Some("TRACE"@),
        Method::Patch => out == Some("PATCH"@),
        Method::Other(s) => if is_method_token(s@) {
            out == Some(s@)
        } else {
            out is None
        },
    }
}

/// The literal carried by an "other" method was not a valid token: a
/// caller error, not a host error.
#[derive(Debug, Clone, Copy, PartialEq, Eq, Structural)]
pub struct InvalidMethod;

fn str_eq(a: &str, b: &str) -> (r: bool)
    ensures
        r == (a@ == b@),
{
    let a_string: String = a.to_owned();
    let b_string: String = b.to_owned();
    a_string.eq(&b_string)
}

/// Classifies a wire method token as the guest sees it: the nine standard
/// tokens map to their named variants, everything else is carried verbatim
/// as `Other`.
pub fn method_from_wire(token: &str) -> (m: Method)
    ensures
        token_to_method_rel(token@, m),
{
    if str_eq(token, "GET") {
        Method::Get
    } else if str_eq(token, "HEAD") {
        Method::Head
    } else if str_eq(token, "POST") {
        Method::Post
    } else if str_eq(token, "PUT") {
        Method::Put
    } else if str_eq(token, "DELETE") {
        Method::Delete
    } else if str_eq(token, "CONNECT") {
        Method::Connect
    } else if str_eq(token, "OPTIONS") {
        Method::Options
    } else if str_eq(token, "TRACE") {
        Method::Trace
    } else if str_eq(token, "PATCH") {
        Method::Patch
    } else {
        Method::Other(token.to_owned())
    }
}

/// Converts a guest method to its wire token. Named variants are total;
/// an `Other` literal is validated with the wire library's method-token
/// rules and rejected as a caller error when invalid.
pub fn method_to_wire(m: Method) -> (r: Result<String, InvalidMethod>)
    ensures
        match r {
            Ok(s) => method_to_token_rel(m, Some(s@)),
            Err(_) => method_to_token_rel(m, None::<Seq<char>>),
        },
{
    match m {
        Method::Get => Ok("GET".to_owned()),
        Method::Head => Ok("HEAD".to_owned()),
        Method::Post => Ok("POST".to_owned()),
        Method::Put => Ok("PUT".to_owned()),
        Method::Delete => Ok("DELETE".to_owned()),
        Method::Connect => Ok("CONNECT".to_owned()),
        Method::Options => Ok("OPTIONS".to_owned()),
        Method::Trace => Ok("TRACE".to_owned()),
        Method::Patch => Ok("PATCH".to_owned()),
        Method::Other(s) => {
            if wire_method_token_ok(s.as_str()) {
                Ok(s)
            } else {
                Err(InvalidMethod)
            }
        }
    }
}

/// Law: wire → guest → wire is the identity on every valid method token.
/// The nine named tokens come back as themselves through their variants,
/// and any other valid token survives the `Other` variant unchanged.
pub proof fn lemma_method_round_trip(t: Seq<char>, m: Method, out: Option<Seq<char>>)
    requires
        is_method_token(t),
        token_to_method_rel(t, m),
        method_to_token_rel(m, out),
    ensures
        out == Some(t),
{
}

/// State passed by the guest when it builds a request: all three timeout
/// budgets are optional.
#[derive(Debug, Clone, Copy, PartialEq, Eq, Structural)]
pub struct HostRequestOptions {
    pub connect_timeout: Option<Duration>,
    pub first_byte_timeout: Option<Duration>,
    pub between_bytes_timeout: Option<Duration>,
}

impl Default for HostRequestOptions {
    /// No budget set: the pipeline's defaults apply.
    fn default() -> (d: Self)
        ensures
            d.connect_timeout is None,
            d.first_byte_timeout is None,
            d.between_bytes_timeout is None,
    {
        HostRequestOptions { connect_timeout: None, first_byte_timeout: None, between_bytes_timeout: None }
    }
}

/// Marker state for the outgoing-HTTP host interface.
pub struct WasiHttpCtx;

/// The wire-level request handed to the connection: a validated method
/// token, target path, headers, and an optional streaming-body handle.
pub struct WireRequest {
    pub method: String,
    pub path_with_query: Option<String>,
    pub headers: FieldMap,
    pub body: Option<u32>,
}

/// Everything `send_request` needs: the connection target, whether TLS is
/// required, the wire request, and the three independent timeout budgets.
pub struct OutgoingRequest {
    pub use_tls: bool,
    pub authority: String,
    pub request: WireRequest,
    pub connect_timeout: Duration,
    pub first_byte_timeout: Duration,
    pub between_bytes_timeout: Duration,
}

/// A guest-built outgoing request before it is turned into wire form.
pub struct HostOutgoingRequest {
    pub method: Method,
    pub scheme: Option<Scheme>,
    pub path_with_query: Option<String>,
    pub authority: Option<String>,
    pub headers: FieldMap,
    pub body: Option<u32>,
}

/// The head of a wire-level incoming request, as plain data.
pub struct RequestParts {
    pub method: String,
    pub scheme: Option<Scheme>,
    pub authority: Option<String>,
    pub path_with_query: Option<String>,
    pub headers: FieldMap,
}

/// A streaming incoming body not yet exposed to the guest: the byte
/// source, the handle of the task driving its connection (if any), and the
/// between-bytes timeout to apply to each read.
pub struct HostIncomingBodyBuilder {
    pub body: InputStream,
    pub worker: Option<u64>,
    pub between_bytes_timeout: Duration,
}

/// A wire-level incoming request made table-resident for the guest.
pub struct HostIncomingRequest {
    pub parts: RequestParts,
    pub body: Option<HostIncomingBodyBuilder>,
}

/// One-shot completion channel for a dispatched request: the embedder
/// blocks on the channel named by `result` until the guest's response or
/// error is sent through it.
pub struct HostResponseOutparam {
    pub result: u64,
}

/// A guest-constructed outgoing response.
pub struct HostOutgoingResponse {
    pub status: u16,
    pub headers: FieldMap,
    pub body: Option<u32>,
}

/// The body of a wire-level outgoing response: a stream, or nothing.
#[derive(Debug, Clone, Copy, PartialEq, Eq, Structural)]
pub enum BodySource {
    Empty,
    Stream(u32),
}

/// A wire-level outgoing response ready to send.
pub struct WireOutgoingResponse {
    pub status: u16,
    pub headers: FieldMap,
    pub body: BodySource,
}

/// Converts a guest-built response to wire form, substituting an empty
/// body when none was supplied. With typed status and headers nothing can
/// fail.
pub fn outgoing_response_to_wire(resp: HostOutgoingResponse) -> (w: WireOutgoingResponse)
    ensures
        w.status == resp.status,
        w.headers == resp.headers,
        match resp.body {
            Some(h) => w.body == BodySource::Stream(h),
            None => w.body == BodySource::Empty,
        },
{
    match resp.body {
        Some(h) => WireOutgoingResponse { status: resp.status, headers: resp.headers, body: BodySource::Stream(h) },
        None => WireOutgoingResponse { status: resp.status, headers: resp.headers, body: BodySource::Empty },
    }
}

/// A response received from the wire but not yet exposed to the guest.
pub struct WireResponse {
    pub status: u16,
    pub headers: FieldMap,
    pub body: InputStream,
}

/// A resolved response travelling from the background connection task to
/// the guest: the wire response, a shared handle to the task that keeps
/// driving the connection, and the between-bytes timeout for body reads.
pub struct IncomingResponseInternal {
    pub resp: WireResponse,
    pub worker: u64,
    pub between_bytes_timeout: Duration,
}

/// A table-resident incoming response, after the guest consumed the
/// future.
pub struct HostIncomingResponse {
    pub status: u16,
    pub headers: FieldMap,
    pub body: Option<HostIncomingBodyBuilder>,
    pub worker: u64,
}

/// Header fields resource: either owned outright, or a view into the
/// fields of the parent entry (the table keeps the parent live while this
/// entry exists).
pub enum HostFields {
    Ref { parent: u32 },
    Owned { fields: FieldMap },
}

/// The guest read a future that was already consumed: a host-level
/// contract violation, reported loudly rather than as a guest error.
#[derive(Debug, Clone, Copy, PartialEq, Eq, Structural)]
pub struct FutureAlreadyConsumed;

/// The tri-state future for an in-flight request. `Pending` holds the
/// background task handle; polling moves it to `Ready` exactly once; the
/// guest's read moves `Ready` to `Consumed` exactly once.
pub enum HostFutureIncomingResponse {
    Pending(u64),
    Ready(Result<IncomingResponseInternal, HttpError>),
    Consumed,
}

impl HostFutureIncomingResponse {
    /// A freshly spawned request future.
    pub fn new(handle: u64) -> (s: Self)
        ensures
            s == HostFutureIncomingResponse::Pending(handle),
    {
        Self::Pending(handle)
    }

    /// Whether the background task's result has arrived.
    pub fn is_ready(&self) -> (r: bool)
        ensures
            r == (self is Ready),
    {
        matches!(self, Self::Ready(_))
    }

    /// Takes the resolved result out. Calling this in any state but
    /// `Ready` is a panic-level host bug, never a silently returned value;
    /// this library's verified code does not panic, so the precondition
    /// rules those states out instead.
    pub fn unwrap_ready(self) -> (r: Result<IncomingResponseInternal, HttpError>)
        requires
            self is Ready,
        ensures
            self == HostFutureIncomingResponse::Ready(r),
    {
        match self {
            Self::Ready(res) => res,
            _ => vstd::pervasive::unreached(),
        }
    }

    /// Readiness step: the awaited outcome of the background task moves
    /// `Pending` to `Ready`; any other state is left as it is, so the
    /// transition happens exactly once.
    pub fn ready(&mut self, outcome: Result<IncomingResponseInternal, HttpError>)
        ensures
            *old(self) is Pending ==> *final(self) == HostFutureIncomingResponse::Ready(outcome),
            !(*old(self) is Pending) ==> *final(self) == *old(self),
    {
        if matches!(self, Self::Pending(_)) {
            *self = Self::Ready(outcome);
        }
    }

    /// The guest's read. Before the background task completes it always
    /// reports "not ready" (`None`) and changes nothing; once `Ready`,
    /// exactly one read delivers the result and consumes the future; every
    /// read after that fails as an invalid-state error.
    pub fn get(&mut self) -> (r: Result<
        Option<Result<IncomingResponseInternal, HttpError>>,
        FutureAlreadyConsumed,
    >)
        ensures
            *old(self) is Pending ==> r == Ok::<_, FutureAlreadyConsumed>(
                None::<Result<IncomingResponseInternal, HttpError>>,
            ) && *final(self) == *old(self),
            *old(self) is Ready ==> (r matches Ok(Some(res))
                && *old(self) == HostFutureIncomingResponse::Ready(res))
                && *final(self) == HostFutureIncomingResponse::Consumed,
            *old(self) is Consumed ==> r == Err::<
                Option<Result<IncomingResponseInternal, HttpError>>,
                _,
            >(FutureAlreadyConsumed) && *final(self) == *old(self),
    {
        match self {
            Self::Pending(_) => Ok(None),
            Self::Ready(_) => {
                let mut taken = Self::Consumed;
                core::mem::swap(self, &mut taken);
                match taken {
                    Self::Ready(res) => Ok(Some(res)),
                    _ => vstd::pervasive::unreached(),
                }
            }
            Self::Consumed => Err(FutureAlreadyConsumed),
        }
    }
}

} // verus!
