//! Pollable, restartable-once address resolution.
//!
//! `resolve_addresses` validates the name, consults the network
//! capability, and — only for domain names — asks for a blocking-pool
//! lookup, returning a stream resource in the `Waiting` state. IP literals
//! resolve instantly with no pool work: the stream starts out `Done`.
//! `resolve_next_address` hands the addresses out one per call; an error
//! is surfaced exactly once, after which the stream is exhausted.

use vstd::prelude::*;
use vstd::string::StringExecFns;
use crate::errors::{ErrorCode, SocketError, TableError};
use crate::poll::Resource;
use crate::table::Table;

verus! {

/// A resolved address in guest form.
#[derive(Debug, Clone, Copy, PartialEq, Eq, Structural)]
pub enum IpAddress {
    Ipv4(u8, u8, u8, u8),
    Ipv6(u16, u16, u16, u16, u16, u16, u16, u16),
}

/// A validated lookup target: an IP literal, or a domain name (already
/// punycoded to ASCII by the parser).
#[derive(Debug, Clone)]
pub enum HostAddr {
    Ipv4(u8, u8, u8, u8),
    Ipv6(u16, u16, u16, u16, u16, u16, u16, u16),
    Domain(String),
}

/// An ordered, one-shot-consumable sequence of resolved addresses.
pub struct AddressIterator {
    pub addrs: Vec<IpAddress>,
    pub pos: usize,
}

impl AddressIterator {
    /// The addresses not yet handed out.
    pub open spec fn remaining(self) -> Seq<IpAddress> {
        self.addrs@.skip(self.pos as int)
    }

    /// The cursor never passes the end.
    pub open spec fn wf(self) -> bool {
        self.pos <= self.addrs@.len()
    }
}

/// The two states of a lookup stream: waiting on a blocking-pool task
/// (named by its handle), or done with either the address sequence or a
/// terminal error still to be delivered once.
pub enum ResolveAddressStream {
    Waiting(u64),
    Done(Result<AddressIterator, ErrorCode>),
}

impl ResolveAddressStream {
    /// Iterator cursor in range, in every state that has one.
    pub open spec fn wf(self) -> bool {
        match self {
            ResolveAddressStream::Done(Ok(it)) => it.wf(),
            _ => true,
        }
    }

    /// Readiness step: the awaited outcome of the blocking-pool task moves
    /// `Waiting` to `Done`; a stream already done is left as it is.
    pub fn ready(&mut self, outcome: Result<Vec<IpAddress>, ErrorCode>)
        requires
            old(self).wf(),
        ensures
            final(self).wf(),
            *old(self) is Waiting ==> match outcome {
                Ok(addrs) => (*final(self) matches ResolveAddressStream::Done(Ok(it))
                    && it.remaining() == addrs@),
                Err(e) => *final(self) == ResolveAddressStream::Done(
                    Err::<AddressIterator, ErrorCode>(e),
                ),
            },
            !(*old(self) is Waiting) ==> *final(self) == *old(self),
    {
        if matches!(self, ResolveAddressStream::Waiting(_)) {
            *self = match outcome {
                Ok(addrs) => ResolveAddressStream::Done(
                    Ok(AddressIterator { addrs, pos: 0 }),
                ),
                Err(e) => ResolveAddressStream::Done(Err(e)),
            };
        }
    }
}

/// Advances the stream by one address. `poll` is the outcome of one
/// non-blocking poll of the background task, meaningful only in the
/// `Waiting` state (`None`: still running). While waiting, the call
/// reports `WouldBlock`; once done, addresses come out one per call in
/// order, then `None`; a terminal error is delivered exactly once, after
/// which the stream behaves as exhausted.
pub fn resolve_next_address(
    stream: &mut ResolveAddressStream,
    poll: Option<Result<Vec<IpAddress>, ErrorCode>>,
) -> (r: Result<Option<IpAddress>, ErrorCode>)
    requires
        old(stream).wf(),
    ensures
        final(stream).wf(),
        match *old(stream) {
            ResolveAddressStream::Waiting(_) => match poll {
                None => r == Err::<Option<IpAddress>, _>(ErrorCode::WouldBlock)
                    && *final(stream) == *old(stream),
                Some(Ok(addrs)) => {
                    &&& (*final(stream) matches ResolveAddressStream::Done(Ok(it2))
                        && it2.remaining() == addrs@.skip(if addrs@.len() > 0 { 1int } else { 0int }))
                    &&& r == Ok::<_, ErrorCode>(
                        if addrs@.len() > 0 { Some(addrs@[0]) } else { None::<IpAddress> },
                    )
                }
                Some(Err(e)) => {
                    &&& r == Err::<Option<IpAddress>, _>(e)
                    &&& (*final(stream) matches ResolveAddressStream::Done(Ok(it2))
                        && it2.remaining() == Seq::<IpAddress>::empty())
                }
            },
            ResolveAddressStream::Done(Err(e)) => {
                &&& r == Err::<Option<IpAddress>, _>(e)
                &&& (*final(stream) matches ResolveAddressStream::Done(Ok(it2))
                    && it2.remaining() == Seq::<IpAddress>::empty())
            }
            ResolveAddressStream::Done(Ok(it)) => {
                if it.remaining().len() > 0 {
                    &&& r == Ok::<_, ErrorCode>(Some(it.remaining()[0]))
                    &&& (*final(stream) matches ResolveAddressStream::Done(Ok(it2))
                        && it2.remaining() == it.remaining().skip(1))
                } else {
                    &&& r == Ok::<_, ErrorCode>(None::<IpAddress>)
                    &&& *final(stream) == *old(stream)
                }
            }
        },
{
    if matches!(stream, ResolveAddressStream::Waiting(_)) {
        match poll {
            None => {
                return Err(ErrorCode::WouldBlock);
            }
            Some(outcome) => stream.ready(outcome),
        }
    }
    // From here the stream is Done; deliver an error once, else iterate.
    let mut taken = ResolveAddressStream::Done(Ok(AddressIterator { addrs: Vec::new(), pos: 0 }));
    core::mem::swap(stream, &mut taken);
    match taken {
        ResolveAddressStream::Done(Ok(it)) => {
            let mut it = it;
            if it.pos < it.addrs.len() {
                let addr = it.addrs[it.pos];
                it.pos = it.pos + 1;
                *stream = ResolveAddressStream::Done(Ok(it));
                Ok(Some(addr))
            } else {
                *stream = ResolveAddressStream::Done(Ok(it));
                Ok(None)
            }
        }
        ResolveAddressStream::Done(Err(e)) => {
            // One-shot error delivery: leave the stream exhausted.
            Err(e)
        }
        ResolveAddressStream::Waiting(_) => vstd::pervasive::unreached(),
    }
}

/// Deletes a lookup stream; dropping the resource aborts any
/// still-running pool task the embedder keyed to its `Waiting` handle.
/// Succeeds exactly on a live, childless lookup-stream handle; a handle
/// that is dead or of another kind fails with the not-found error, one
/// with a live child (its pollable) cannot be deleted yet, and on any
/// failure the table is untouched.
pub fn drop_resolve_address_stream(table: &mut Table<Resource>, h: u32) -> (r: Result<
    (),
    TableError,
>)
    requires
        old(table).wf(),
    ensures
        final(table).wf(),
        match r {
            Ok(_) => {
                &&& old(table).live(h)
                &&& old(table).value_of(h) is ResolveAddressStream
                &&& !old(table).has_children(h)
                &&& !final(table).live(h)
                &&& final(table).num_slots() == old(table).num_slots()
                &&& (forall|c: u32| c != h ==> final(table).live(c) == old(table).live(c))
                &&& (forall|c: u32| c != h && old(table).live(c)
                        ==> final(table).value_of(c) == old(table).value_of(c)
                            && final(table).parent_of(c) == old(table).parent_of(c))
            }
            Err(TableError::NotPresent) => (!old(table).live(h) || !(old(table).value_of(h)
                is ResolveAddressStream)) && *final(table) == *old(table),
            Err(TableError::HasChildren) => old(table).live(h) && old(table).value_of(h)
                is ResolveAddressStream && old(table).has_children(h) && *final(table) == *old(
                table,
            ),
            Err(_) => false,
        },
{
    let is_stream = match table.get(h) {
        Ok(Resource::ResolveAddressStream(_)) => true,
        _ => false,
    };
    if !is_stream {
        return Err(TableError::NotPresent);
    }
    match table.delete(h) {
        Ok(_) => Ok(()),
        Err(e) => Err(e),
    }
}

/// Instant resolution for IP literals: a literal maps to the one-element
/// address list with no pool work; a domain name needs the blocking
/// resolver and yields `None` here.
pub fn resolve_local(host: &HostAddr) -> (r: Option<Vec<IpAddress>>)
    ensures
        match *host {
            HostAddr::Ipv4(a, b, c, d) => (r matches Some(v)
                && v@ == seq![IpAddress::Ipv4(a, b, c, d)]),
            HostAddr::Ipv6(a, b, c, d, e, f, g, h) => (r matches Some(v)
                && v@ == seq![IpAddress::Ipv6(a, b, c, d, e, f, g, h)]),
            HostAddr::Domain(_) => r is None,
        },
{
    match host {
        HostAddr::Ipv4(a, b, c, d) => {
            let mut v: Vec<IpAddress> = Vec::new();
            v.push(IpAddress::Ipv4(*a, *b, *c, *d));
            Some(v)
        }
        HostAddr::Ipv6(a, b, c, d, e, f, g, h) => {
            let mut v: Vec<IpAddress> = Vec::new();
            v.push(IpAddress::Ipv6(*a, *b, *c, *d, *e, *f, *g, *h));
            Some(v)
        }
        HostAddr::Domain(_) => None,
    }
}

/// What `url::Host::parse` makes of a name: the parsed IP literal or the
/// (punycoded) domain, or nothing when the parser rejects it. The parser
/// is a function of the name alone, so the verdict can carry this name.
pub uninterp spec fn url_host_verdict(name: Seq<char>) -> Option<HostAddr>;

/// How the library validates a lookup target: the parser's verdict on the
/// name itself or, failing that (the URL host syntax wants IPv6 in
/// brackets), its verdict on the bracketed name, kept only when that
/// names an IPv6 literal.
pub open spec fn host_parse_verdict(name: Seq<char>) -> Option<HostAddr> {
    match url_host_verdict(name) {
        Some(h) => Some(h),
        None => match url_host_verdict(seq!['['] + name + seq![']']) {
            Some(HostAddr::Ipv6(a, b, c, d, e, f, g, h)) => Some(
                HostAddr::Ipv6(a, b, c, d, e, f, g, h),
            ),
            _ => None,
        },
    }
}

/// Relies on `url::Host::parse`: it validates the input as a domain name
/// (punycoding non-ASCII labels) or an IP address in the URL host syntax,
/// and rejects everything else; its result depends on the name alone,
/// which is what lets the verdict be named. Bare IPv6 addresses without
/// brackets are rejected here and handled by `parse`'s bracketed retry.
#[verifier::external_body]
fn parse_url_host(name: &str) -> (r: Option<HostAddr>)
    ensures
        r == url_host_verdict(name@),
{
    match url::Host::parse(name) {
        Ok(url::Host::Ipv4(a)) => {
            let o = a.octets();
            Some(HostAddr::Ipv4(o[0], o[1], o[2], o[3]))
        }
        Ok(url::Host::Ipv6(a)) => {
            let s = a.segments();
            Some(HostAddr::Ipv6(s[0], s[1], s[2], s[3], s[4], s[5], s[6], s[7]))
        }
        Ok(url::Host::Domain(d)) => Some(HostAddr::Domain(d)),
        Err(_) => None,
    }
}

/// Validates a lookup target: a domain name or IP literal in URL host
/// syntax, with one retry that brackets the input so a bare IPv6 literal
/// is accepted too. Returns exactly the parser's verdict on the name;
/// anything the parser rejects is an argument error.
pub fn parse(name: &str) -> (r: Result<HostAddr, ErrorCode>)
    ensures
        match r {
            Ok(h) => host_parse_verdict(name@) == Some(h),
            Err(e) => e == ErrorCode::InvalidArgument && host_parse_verdict(name@) is None,
        },
{
    match parse_url_host(name) {
        Some(host) => Ok(host),
        None => {
            let bracketed = "[".to_owned().concat(name).concat("]");
            proof {
                reveal_strlit("[");
                reveal_strlit("]");
                assert("["@ =~= seq!['[']);
                assert("]"@ =~= seq![']']);
                assert(bracketed@ == seq!['['] + name@ + seq![']']);
            }
            match parse_url_host(bracketed.as_str()) {
                Some(HostAddr::Ipv6(a, b, c, d, e, f, g, h)) => Ok(
                    HostAddr::Ipv6(a, b, c, d, e, f, g, h),
                ),
                _ => Err(ErrorCode::InvalidArgument),
            }
        }
    }
}

/// The exact resolution step, once the name has been validated. If the
/// network capability disallows lookups it fails with the
/// permanent-resolver-failure error and creates nothing. An IP literal
/// yields a stream already `Done` with exactly that address and no task;
/// a domain yields a `Waiting` stream under the task handle `task`, and
/// the domain comes back so the embedder can start the blocking lookup.
pub fn resolve_addresses_host(
    table: &mut Table<Resource>,
    allow_ip_name_lookup: bool,
    host: HostAddr,
    task: u64,
) -> (r: Result<(u32, Option<String>), SocketError>)
    requires
        old(table).wf(),
    ensures
        final(table).wf(),
        !allow_ip_name_lookup ==> r == Err::<(u32, Option<String>), _>(
            SocketError::Code(ErrorCode::PermanentResolverFailure),
        ) && *final(table) == *old(table),
        match r {
            Ok((h, job)) => {
                &&& allow_ip_name_lookup
                &&& !old(table).live(h)
                &&& final(table).live(h)
                &&& final(table).num_slots() == old(table).num_slots() + 1
                &&& forall|c: u32| c != h ==> final(table).live(c) == old(table).live(c)
                &&& forall|c: u32| old(table).live(c)
                        ==> final(table).value_of(c) == old(table).value_of(c)
                &&& match host {
                    HostAddr::Ipv4(a, b, c, d) => job is None
                        && (final(table).value_of(h) matches Resource::ResolveAddressStream(
                            ResolveAddressStream::Done(Ok(it)),
                        ) && it.wf() && it.remaining() == seq![IpAddress::Ipv4(a, b, c, d)]),
                    HostAddr::Ipv6(a, b, c, d, e, f, g, hh) => job is None
                        && (final(table).value_of(h) matches Resource::ResolveAddressStream(
                            ResolveAddressStream::Done(Ok(it)),
                        ) && it.wf() && it.remaining() == seq![
                            IpAddress::Ipv6(a, b, c, d, e, f, g, hh),
                        ]),
                    HostAddr::Domain(d) => job == Some(d)
                        && final(table).value_of(h) == Resource::ResolveAddressStream(
                            ResolveAddressStream::Waiting(task),
                        ),
                }
            }
            Err(SocketError::Code(e)) => e == ErrorCode::PermanentResolverFailure
                && !allow_ip_name_lookup && *final(table) == *old(table),
            Err(SocketError::Table(e)) => e == TableError::Full && allow_ip_name_lookup && old(
                table,
            ).num_slots() == u32::MAX as int && *final(table) == *old(table),
        },
{
    if !allow_ip_name_lookup {
        return Err(SocketError::Code(ErrorCode::PermanentResolverFailure));
    }
    match resolve_local(&host) {
        Some(addrs) => {
            let stream = ResolveAddressStream::Done(Ok(AddressIterator { addrs, pos: 0 }));
            match table.push(Resource::ResolveAddressStream(stream)) {
                Ok(h) => Ok((h, None)),
                Err(_) => Err(SocketError::Table(TableError::Full)),
            }
        }
        None => {
            let domain = match host {
                HostAddr::Domain(d) => d,
                _ => vstd::pervasive::unreached(),
            };
            let stream = ResolveAddressStream::Waiting(task);
            match table.push(Resource::ResolveAddressStream(stream)) {
                Ok(h) => Ok((h, Some(domain))),
                Err(_) => Err(SocketError::Table(TableError::Full)),
            }
        }
    }
}

/// Guest entry point: validates `name`, consults the capability, and
/// creates the stream resource. A name the parser rejects is an argument
/// error and a disallowed lookup a permanent resolver failure; in both
/// cases no resource is created. Otherwise success is owed while handles
/// remain: an IP literal yields a stream already `Done` with exactly that
/// address (no pool work), and a domain yields a `Waiting` stream under
/// `task`, the (punycoded) domain coming back for the embedder's blocking
/// lookup.
pub fn resolve_addresses(
    table: &mut Table<Resource>,
    allow_ip_name_lookup: bool,
    name: &str,
    task: u64,
) -> (r: Result<(u32, Option<String>), SocketError>)
    requires
        old(table).wf(),
    ensures
        final(table).wf(),
        r is Err ==> *final(table) == *old(table),
        match r {
            Ok((h, job)) => {
                &&& allow_ip_name_lookup
                &&& host_parse_verdict(name@) is Some
                &&& !old(table).live(h)
                &&& final(table).live(h)
                &&& final(table).num_slots() == old(table).num_slots() + 1
                &&& forall|c: u32| c != h ==> final(table).live(c) == old(table).live(c)
                &&& forall|c: u32| old(table).live(c)
                        ==> final(table).value_of(c) == old(table).value_of(c)
                &&& match host_parse_verdict(name@)->Some_0 {
                    HostAddr::Ipv4(a, b, c, d) => job is None
                        && (final(table).value_of(h) matches Resource::ResolveAddressStream(
                            ResolveAddressStream::Done(Ok(it)),
                        ) && it.wf() && it.remaining() == seq![IpAddress::Ipv4(a, b, c, d)]),
                    HostAddr::Ipv6(a, b, c, d, e, f, g, hh) => job is None
                        && (final(table).value_of(h) matches Resource::ResolveAddressStream(
                            ResolveAddressStream::Done(Ok(it)),
                        ) && it.wf() && it.remaining() == seq![
                            IpAddress::Ipv6(a, b, c, d, e, f, g, hh),
                        ]),
                    HostAddr::Domain(d) => job == Some(d)
                        && final(table).value_of(h) == Resource::ResolveAddressStream(
                            ResolveAddressStream::Waiting(task),
                        ),
                }
            }
            Err(SocketError::Code(ErrorCode::InvalidArgument)) => host_parse_verdict(name@)
                is None,
            Err(SocketError::Code(ErrorCode::PermanentResolverFailure)) => host_parse_verdict(
                name@,
            ) is Some && !allow_ip_name_lookup,
            Err(SocketError::Code(_)) => false,
            Err(SocketError::Table(e)) => e == TableError::Full && allow_ip_name_lookup
                && host_parse_verdict(name@) is Some && old(table).num_slots()
                == u32::MAX as int,
        },
        !allow_ip_name_lookup ==> r is Err,
{
    let host = match parse(name) {
        Ok(h) => h,
        Err(_) => {
            return Err(SocketError::Code(ErrorCode::InvalidArgument));
        }
    };
    if !allow_ip_name_lookup {
        return Err(SocketError::Code(ErrorCode::PermanentResolverFailure));
    }
    resolve_addresses_host(table, allow_ip_name_lookup, host, task)
}

} // verus!
