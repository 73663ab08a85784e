//! The outgoing HTTP request pipeline.
//!
//! `send_request` never blocks: it records a pending future in the table
//! and the connection work runs on a background task. That task's
//! decisions — which step comes next and how each failure classifies —
//! are the state machine here: open TCP to the authority, optionally
//! negotiate TLS, perform the HTTP/1.1 handshake bounded by the connect
//! timeout, send the request bounded by the first-byte timeout, and wrap
//! the resolved response with the between-bytes timeout. The embedder
//! performs each step's I/O and feeds the outcome back as an event.

use vstd::prelude::*;
use crate::errors::{HttpError, TableError};
use crate::host_io::resource_wf;
use crate::http_types::{
    HostIncomingBodyBuilder, HostIncomingRequest, HostFutureIncomingResponse,
    HostResponseOutparam, IncomingResponseInternal, OutgoingRequest, RequestParts, WasiHttpCtx,
    WireResponse, Duration,
};
use crate::poll::Resource;
use crate::streams::InputStream;
use crate::table::Table;

verus! {

/// Default between-bytes timeout for freshly bridged incoming requests,
/// pending real per-request plumbing: 600 seconds, in nanoseconds.
pub const DEFAULT_BETWEEN_BYTES_TIMEOUT_NS: u64 = 600_000_000_000;

/// Where the background connection task stands. Each state names the I/O
/// step the embedder must perform next.
pub enum SendState {
    /// Open a TCP connection to the request's authority.
    Connecting,
    /// Negotiate TLS against the platform's trusted roots, with `host` as
    /// the server name.
    TlsHandshaking { host: String },
    /// Perform the HTTP/1.1 handshake, bounded by the connect timeout.
    HttpHandshaking,
    /// Send the request and await response headers, bounded by the
    /// first-byte timeout; `worker` is the detached task now driving the
    /// connection's I/O.
    SendingRequest { worker: u64 },
    /// The pipeline finished with this classified outcome.
    Finished(Result<IncomingResponseInternal, HttpError>),
}

/// The outcome of one I/O step, fed back by the embedder. Failures carry
/// their cause already rendered to text.
pub enum SendEvent {
    TcpConnected,
    TcpFailed(String),
    TlsConnected,
    TlsFailed(String),
    /// TLS is not supported on this platform.
    TlsUnsupported,
    /// The HTTP handshake finished and the connection-driving task was
    /// spawned under this handle.
    HandshakeOk { worker: u64 },
    HandshakeFailed(String),
    /// The connect timeout elapsed during the HTTP handshake.
    HandshakeTimedOut,
    /// Response headers arrived.
    ResponseReceived(WireResponse),
    SendFailed(String),
    /// The first-byte timeout elapsed awaiting response headers.
    FirstByteTimedOut,
}

/// The host part of an authority string: everything before the first
/// colon (the whole string when there is none). Used as the TLS server
/// name.
pub fn host_of_authority(authority: &str) -> (r: &str)
    ensures
        ({
            let a = authority@;
            let rv = r@;
            &&& rv.len() <= a.len()
            &&& rv == a.take(rv.len() as int)
            &&& (forall|i: int| 0 <= i < rv.len() ==> a[i] != ':')
            &&& (rv.len() < a.len() ==> a[rv.len() as int] == ':')
        }),
{
    let n = authority.unicode_len();
    let mut i: usize = 0;
    let mut found = false;
    while !found && i < n
        invariant
            n == authority@.len(),
            i <= n,
            forall|j: int| 0 <= j < i ==> authority@[j] != ':',
            found ==> i < n && authority@[i as int] == ':',
        decreases n - i, if found { 0int } else { 1int },
    {
        if authority.get_char(i) == ':' {
            found = true;
        } else {
            i += 1;
        }
    }
    let r = authority.substring_char(0, i);
    proof {
        assert(r@ =~= authority@.take(i as int));
    }
    r
}

/// One decision step of the background task. The request configuration
/// decides whether TLS is negotiated and supplies the timeout budgets;
/// every failure event classifies exactly as the spec of each phase says.
/// An event that does not belong to the current state changes nothing.
pub fn send_request_step(req: &OutgoingRequest, state: SendState, event: SendEvent) -> (next:
    SendState)
    ensures
        match (state, event) {
            (SendState::Connecting, SendEvent::TcpConnected) => if req.use_tls {
                next matches SendState::TlsHandshaking { host }
                    && host@ == req.authority@.take(host@.len() as int)
                    && (forall|i: int| 0 <= i < host@.len() ==> req.authority@[i] != ':')
                    && (host@.len() < req.authority@.len() ==> req.authority@[host@.len() as int]
                    == ':')
            } else {
                next is HttpHandshaking
            },
            (SendState::Connecting, SendEvent::TcpFailed(m)) => next == SendState::Finished(
                Err::<IncomingResponseInternal, _>(HttpError::InvalidUrl(m)),
            ),
            (SendState::TlsHandshaking { .. }, SendEvent::TlsConnected) => next
                is HttpHandshaking,
            (SendState::TlsHandshaking { .. }, SendEvent::TlsUnsupported) => (next
                matches SendState::Finished(Err(HttpError::UnexpectedError(m)))
                && m@ == "unsupported architecture for SSL"@),
            (SendState::TlsHandshaking { .. }, SendEvent::TlsFailed(m)) => next
                == SendState::Finished(
                Err::<IncomingResponseInternal, _>(HttpError::ProtocolError(m)),
            ),
            (SendState::HttpHandshaking, SendEvent::HandshakeOk { worker }) => next
                == SendState::SendingRequest { worker },
            (SendState::HttpHandshaking, SendEvent::HandshakeTimedOut) => (next
                matches SendState::Finished(Err(HttpError::TimeoutError(m)))
                && m@ == "connection"@ + " timed out"@),
            (SendState::HttpHandshaking, SendEvent::HandshakeFailed(m)) => next
                == SendState::Finished(
                Err::<IncomingResponseInternal, _>(HttpError::ProtocolError(m)),
            ),
            (SendState::SendingRequest { worker }, SendEvent::ResponseReceived(resp)) => next
                == SendState::Finished(
                Ok::<_, HttpError>(
                    IncomingResponseInternal {
                        resp,
                        worker,
                        between_bytes_timeout: req.between_bytes_timeout,
                    },
                ),
            ),
            (SendState::SendingRequest { .. }, SendEvent::FirstByteTimedOut) => (next
                matches SendState::Finished(Err(HttpError::TimeoutError(m)))
                && m@ == "first byte"@ + " timed out"@),
            (SendState::SendingRequest { .. }, SendEvent::SendFailed(m)) => next
                == SendState::Finished(
                Err::<IncomingResponseInternal, _>(HttpError::ProtocolError(m)),
            ),
            (s, _) => next == s,
        },
{
    match (state, event) {
        (SendState::Connecting, SendEvent::TcpConnected) => {
            if req.use_tls {
                let host = host_of_authority(req.authority.as_str()).to_owned();
                SendState::TlsHandshaking { host }
            } else {
                SendState::HttpHandshaking
            }
        }
        (SendState::Connecting, SendEvent::TcpFailed(m)) => SendState::Finished(
            Err(crate::errors::invalid_url(m)),
        ),
        (SendState::TlsHandshaking { .. }, SendEvent::TlsConnected) => SendState::HttpHandshaking,
        (SendState::TlsHandshaking { .. }, SendEvent::TlsUnsupported) => SendState::Finished(
            Err(HttpError::UnexpectedError("unsupported architecture for SSL".to_owned())),
        ),
        (SendState::TlsHandshaking { .. }, SendEvent::TlsFailed(m)) => SendState::Finished(
            Err(HttpError::ProtocolError(m)),
        ),
        (SendState::HttpHandshaking, SendEvent::HandshakeOk { worker }) => {
            SendState::SendingRequest { worker }
        }
        (SendState::HttpHandshaking, SendEvent::HandshakeTimedOut) => SendState::Finished(
            Err(crate::errors::timeout_error("connection")),
        ),
        (SendState::HttpHandshaking, SendEvent::HandshakeFailed(m)) => SendState::Finished(
            Err(HttpError::ProtocolError(m)),
        ),
        (SendState::SendingRequest { worker }, SendEvent::ResponseReceived(resp)) => {
            SendState::Finished(
                Ok(
                    IncomingResponseInternal {
                        resp,
                        worker,
                        between_bytes_timeout: req.between_bytes_timeout,
                    },
                ),
            )
        }
        (SendState::SendingRequest { .. }, SendEvent::FirstByteTimedOut) => SendState::Finished(
            Err(crate::errors::timeout_error("first byte")),
        ),
        (SendState::SendingRequest { .. }, SendEvent::SendFailed(m)) => SendState::Finished(
            Err(HttpError::ProtocolError(m)),
        ),
        (s, _) => s,
    }
}

/// The outgoing-HTTP host: its marker context plus the resource table.
pub struct WasiHttpView {
    pub ctx: WasiHttpCtx,
    pub table: Table<Resource>,
}

impl WasiHttpView {
    /// The table invariant, and every stored resource internally
    /// consistent.
    pub open spec fn wf(self) -> bool {
        &&& self.table.wf()
        &&& forall|h: u32| self.table.live(h) ==> resource_wf(#[trigger] self.table.value_of(h))
    }

    /// A fresh host with an empty table.
    pub fn new() -> (w: WasiHttpView)
        ensures
            w.wf(),
            w.table.num_slots() == 0,
    {
        WasiHttpView { ctx: WasiHttpCtx, table: Table::new() }
    }

    /// Bridges a wire-level incoming request into a table-resident
    /// resource: the head as plain data, the body (when present) under a
    /// builder carrying the fixed default between-bytes timeout until the
    /// real per-request value is threaded through.
    pub fn new_incoming_request(&mut self, parts: RequestParts, body: Option<InputStream>) -> (r:
        Result<u32, TableError>)
        requires
            old(self).wf(),
        ensures
            final(self).wf(),
            match r {
                Ok(h) => {
                    &&& !old(self).table.live(h)
                    &&& final(self).table.live(h)
                    &&& final(self).table.num_slots() == old(self).table.num_slots() + 1
                    &&& (final(self).table.value_of(h) matches Resource::IncomingRequest(ir)
                        && ir.parts == parts && match (ir.body, body) {
                        (Some(b), Some(src)) => b.worker is None
                            && b.between_bytes_timeout == (Duration {
                                nanos: DEFAULT_BETWEEN_BYTES_TIMEOUT_NS,
                            }) && b.body == src,
                        (None, None) => true,
                        _ => false,
                    })
                    &&& (forall|c: u32| c != h
                            ==> final(self).table.live(c) == old(self).table.live(c))
                    &&& (forall|c: u32| old(self).table.live(c)
                            ==> final(self).table.value_of(c) == old(self).table.value_of(c))
                }
                Err(e) => e == TableError::Full && old(self).table.num_slots()
                    == u32::MAX as int && *final(self) == *old(self),
            },
    {
        let ghost pre = *self;
        let body = match body {
            Some(src) => Some(
                HostIncomingBodyBuilder {
                    body: src,
                    worker: None,
                    between_bytes_timeout: Duration { nanos: DEFAULT_BETWEEN_BYTES_TIMEOUT_NS },
                },
            ),
            None => None,
        };
        let r = self.table.push(Resource::IncomingRequest(HostIncomingRequest { parts, body }));
        proof {
            if r is Ok {
                assert forall|c: u32| self.table.live(c) implies resource_wf(
                    #[trigger] self.table.value_of(c),
                ) by {
                    if c != r->Ok_0 {
                        assert(pre.table.live(c));
                        assert(self.table.value_of(c) == pre.table.value_of(c));
                    }
                }
            }
        }
        match r {
            Ok(h) => Ok(h),
            Err(_) => Err(TableError::Full),
        }
    }

    /// Makes the one-shot completion channel named by `result`
    /// table-resident, for the component that dispatches the request to
    /// guest code.
    pub fn new_response_outparam(&mut self, result: u64) -> (r: Result<u32, TableError>)
        requires
            old(self).wf(),
        ensures
            final(self).wf(),
            match r {
                Ok(h) => {
                    &&& !old(self).table.live(h)
                    &&& final(self).table.live(h)
                    &&& final(self).table.num_slots() == old(self).table.num_slots() + 1
                    &&& final(self).table.value_of(h) == Resource::ResponseOutparam(
                        HostResponseOutparam { result },
                    )
                    &&& (forall|c: u32| c != h
                            ==> final(self).table.live(c) == old(self).table.live(c))
                    &&& (forall|c: u32| old(self).table.live(c)
                            ==> final(self).table.value_of(c) == old(self).table.value_of(c))
                }
                Err(e) => e == TableError::Full && old(self).table.num_slots()
                    == u32::MAX as int && *final(self) == *old(self),
            },
    {
        let ghost pre = *self;
        let r = self.table.push(Resource::ResponseOutparam(HostResponseOutparam { result }));
        proof {
            if r is Ok {
                assert forall|c: u32| self.table.live(c) implies resource_wf(
                    #[trigger] self.table.value_of(c),
                ) by {
                    if c != r->Ok_0 {
                        assert(pre.table.live(c));
                        assert(self.table.value_of(c) == pre.table.value_of(c));
                    }
                }
            }
        }
        match r {
            Ok(h) => Ok(h),
            Err(_) => Err(TableError::Full),
        }
    }

    /// Starts an outbound request; see [`default_send_request`].
    pub fn send_request(&mut self, request: OutgoingRequest, task: u64) -> (r: Result<
        u32,
        TableError,
    >)
        requires
            old(self).wf(),
        ensures
            final(self).wf(),
            match r {
                Ok(h) => {
                    &&& !old(self).table.live(h)
                    &&& final(self).table.live(h)
                    &&& final(self).table.value_of(h) == Resource::FutureIncomingResponse(
                        HostFutureIncomingResponse::Pending(task),
                    )
                    &&& (forall|c: u32| c != h
                            ==> final(self).table.live(c) == old(self).table.live(c))
                    &&& (forall|c: u32| old(self).table.live(c)
                            ==> final(self).table.value_of(c) == old(self).table.value_of(c))
                }
                Err(e) => e == TableError::Full && old(self).table.num_slots()
                    == u32::MAX as int && *final(self) == *old(self),
            },
    {
        default_send_request(self, request, task)
    }

    /// No header is forbidden by default.
    pub fn is_forbidden_header(&self, name: &str) -> (r: bool)
        ensures
            !r,
    {
        let _ = name;
        false
    }
}

/// Starts an outbound request without blocking and without validating
/// anything beyond what request construction already validated: the
/// connection work has been spawned as the background task named `task`
/// (its decisions are `send_request_step`, starting from `Connecting`),
/// and the call just records the pending future and returns its handle.
pub fn default_send_request(view: &mut WasiHttpView, request: OutgoingRequest, task: u64) -> (r:
    Result<u32, TableError>)
    requires
        old(view).wf(),
    ensures
        final(view).wf(),
        match r {
            Ok(h) => {
                &&& !old(view).table.live(h)
                &&& final(view).table.live(h)
                &&& final(view).table.num_slots() == old(view).table.num_slots() + 1
                &&& final(view).table.value_of(h) == Resource::FutureIncomingResponse(
                    HostFutureIncomingResponse::Pending(task),
                )
                &&& (forall|c: u32| c != h
                        ==> final(view).table.live(c) == old(view).table.live(c))
                &&& (forall|c: u32| old(view).table.live(c)
                        ==> final(view).table.value_of(c) == old(view).table.value_of(c))
            }
            Err(e) => e == TableError::Full && old(view).table.num_slots() == u32::MAX as int
                && *final(view) == *old(view),
        },
{
    let ghost pre = *view;
    let _ = request;
    let r = view.table.push(
        Resource::FutureIncomingResponse(HostFutureIncomingResponse::new(task)),
    );
    proof {
        if r is Ok {
            assert forall|c: u32| view.table.live(c) implies resource_wf(
                #[trigger] view.table.value_of(c),
            ) by {
                if c != r->Ok_0 {
                    assert(pre.table.live(c));
                    assert(view.table.value_of(c) == pre.table.value_of(c));
                }
            }
        }
    }
    match r {
        Ok(h) => Ok(h),
        Err(_) => Err(TableError::Full),
    }
}

} // verus!
