//! Pollables: the readiness capability shared by every waitable resource.
//!
//! Any waitable resource — a timer deadline, a stream, an in-flight
//! request future, an address lookup — can be wrapped by a pollable entry
//! that records the source handle and an optional absolute deadline. The
//! pollable reports ready as soon as the deadline is reached or the source
//! itself is ready, whichever comes first.

use vstd::prelude::*;
use crate::clocks::Deadline;
use crate::errors::TableError;
use crate::http_types::{
    HostFields, HostFutureIncomingResponse, HostIncomingRequest, HostIncomingResponse,
    HostOutgoingRequest, HostOutgoingResponse, HostResponseOutparam,
};
use crate::ip_name_lookup::ResolveAddressStream;
use crate::streams::{InputStream, OutputStream};
use crate::table::Table;

verus! {

/// Interest in a readiness event: the source resource being waited on,
/// and an optional absolute monotonic deadline (in nanoseconds).
pub struct Pollable {
    pub source: u32,
    pub deadline: Option<u64>,
}

/// Every kind of resource the table can hold, behind one uniform handle
/// type.
pub enum Resource {
    Deadline(Deadline),
    Pollable(Pollable),
    InputStream(InputStream),
    OutputStream(OutputStream),
    /// The opaque cause of a failed stream operation, made table-resident
    /// so the guest can inspect it by handle.
    StreamErrorPayload(String),
    Fields(HostFields),
    IncomingRequest(HostIncomingRequest),
    ResponseOutparam(HostResponseOutparam),
    OutgoingRequest(HostOutgoingRequest),
    OutgoingResponse(HostOutgoingResponse),
    IncomingResponse(HostIncomingResponse),
    FutureIncomingResponse(HostFutureIncomingResponse),
    ResolveAddressStream(ResolveAddressStream),
}

/// The resource kinds that can be waited on.
pub open spec fn is_subscribable(r: Resource) -> bool {
    match r {
        Resource::Deadline(_) => true,
        Resource::InputStream(_) => true,
        Resource::OutputStream(_) => true,
        Resource::FutureIncomingResponse(_) => true,
        Resource::ResolveAddressStream(_) => true,
        _ => false,
    }
}

/// When a waitable resource is ready at monotonic time `now`: a deadline
/// when reached; an input stream when it has data or is at end; an output
/// stream when it has capacity or is closed; a request future once its
/// result arrived; a lookup once resolution completed.
pub open spec fn spec_source_ready(r: Resource, now: u64) -> bool {
    match r {
        Resource::Deadline(d) => d.is_ready_at(now),
        Resource::InputStream(s) => s.data().len() > 0 || s.is_closed(),
        Resource::OutputStream(s) => s.available() > 0 || s.is_closed(),
        Resource::FutureIncomingResponse(f) => !(f is Pending),
        Resource::ResolveAddressStream(st) => st is Done,
        _ => false,
    }
}

/// When the pollable `p` reports ready: its deadline is reached, or its
/// source resource is ready.
pub open spec fn spec_pollable_ready(t: Table<Resource>, p: u32, now: u64) -> bool {
    t.live(p) && match t.value_of(p) {
        Resource::Pollable(pl) => {
            ||| (match pl.deadline {
                Some(d) => now >= d,
                None => false,
            })
            ||| (t.live(pl.source) && spec_source_ready(t.value_of(pl.source), now))
        }
        _ => false,
    }
}

/// The two tables have the same handles, parents and values.
pub open spec fn tables_agree(pre: Table<Resource>, post: Table<Resource>) -> bool {
    &&& post.num_slots() == pre.num_slots()
    &&& forall|c: u32| post.live(c) == pre.live(c)
    &&& forall|c: u32| pre.live(c)
            ==> post.parent_of(c) == pre.parent_of(c) && post.value_of(c) == pre.value_of(c)
}

/// The two tables have the same handles, parents and values, except that
/// the value under `h` may differ.
pub open spec fn agree_except(pre: Table<Resource>, post: Table<Resource>, h: u32) -> bool {
    &&& post.num_slots() == pre.num_slots()
    &&& forall|c: u32| post.live(c) == pre.live(c)
    &&& forall|c: u32| pre.live(c) ==> post.parent_of(c) == pre.parent_of(c)
    &&& forall|c: u32| c != h && pre.live(c) ==> post.value_of(c) == pre.value_of(c)
}

/// The two tables have the same handles, parents and values, except that
/// the values under `h1` and `h2` may differ.
pub open spec fn agree_except_two(
    pre: Table<Resource>,
    post: Table<Resource>,
    h1: u32,
    h2: u32,
) -> bool {
    &&& post.num_slots() == pre.num_slots()
    &&& forall|c: u32| post.live(c) == pre.live(c)
    &&& forall|c: u32| pre.live(c) ==> post.parent_of(c) == pre.parent_of(c)
    &&& forall|c: u32| c != h1 && c != h2 && pre.live(c) ==> post.value_of(c) == pre.value_of(c)
}

/// The output stream stored under `h`, if that is what `h` holds.
pub open spec fn output_stream_at(t: Table<Resource>, h: u32) -> Option<OutputStream> {
    if t.live(h) {
        match t.value_of(h) {
            Resource::OutputStream(s) => Some(s),
            _ => None,
        }
    } else {
        None
    }
}

/// The input stream stored under `h`, if that is what `h` holds.
pub open spec fn input_stream_at(t: Table<Resource>, h: u32) -> Option<InputStream> {
    if t.live(h) {
        match t.value_of(h) {
            Resource::InputStream(s) => Some(s),
            _ => None,
        }
    } else {
        None
    }
}

/// Registers interest in `source` becoming ready: wraps it in a pollable
/// entry, registered as a child of the source so the source cannot be
/// deleted out from under it. Fails with `NotPresent` on a dead handle,
/// `WrongType` on a resource that cannot be waited on, and `Full` on
/// handle exhaustion; the table is unchanged on failure.
pub fn subscribe(table: &mut Table<Resource>, source: u32, deadline: Option<u64>) -> (r: Result<
    u32,
    TableError,
>)
    requires
        old(table).wf(),
    ensures
        final(table).wf(),
        match r {
            Ok(p) => {
                &&& old(table).live(source)
                &&& is_subscribable(old(table).value_of(source))
                &&& p == old(table).num_slots()
                &&& !old(table).live(p)
                &&& final(table).num_slots() == old(table).num_slots() + 1
                &&& final(table).live(p)
                &&& final(table).value_of(p) == Resource::Pollable(
                    Pollable { source, deadline },
                )
                &&& final(table).parent_of(p) == Some(source)
                &&& forall|c: u32| c != p ==> final(table).live(c) == old(table).live(c)
                &&& forall|c: u32| old(table).live(c)
                        ==> final(table).value_of(c) == old(table).value_of(c)
                            && final(table).parent_of(c) == old(table).parent_of(c)
                &&& forall|c: u32| old(table).retired(c) ==> final(table).retired(c)
            }
            Err(TableError::NotPresent) => !old(table).live(source) && *final(table) == *old(
                table,
            ),
            Err(TableError::WrongType) => old(table).live(source) && !is_subscribable(
                old(table).value_of(source),
            ) && *final(table) == *old(table),
            Err(TableError::Full) => old(table).num_slots() == u32::MAX as int && *final(table)
                == *old(table),
            Err(_) => false,
        },
{
    let subscribable = match table.get(source) {
        Ok(v) => match v {
            Resource::Deadline(_) => true,
            Resource::InputStream(_) => true,
            Resource::OutputStream(_) => true,
            Resource::FutureIncomingResponse(_) => true,
            Resource::ResolveAddressStream(_) => true,
            _ => false,
        },
        Err(_) => {
            return Err(TableError::NotPresent);
        }
    };
    if !subscribable {
        return Err(TableError::WrongType);
    }
    table.push_child(Resource::Pollable(Pollable { source, deadline }), source)
}

/// Deletes a pollable, releasing its hold on the source entry. Succeeds
/// exactly on a live, childless pollable handle; a handle that is dead or
/// of another kind fails with the not-found error.
pub fn drop_pollable(table: &mut Table<Resource>, p: u32) -> (r: Result<(), TableError>)
    requires
        old(table).wf(),
    ensures
        final(table).wf(),
        match r {
            Ok(_) => {
                &&& old(table).live(p)
                &&& old(table).value_of(p) is Pollable
                &&& !old(table).has_children(p)
                &&& !final(table).live(p)
                &&& final(table).num_slots() == old(table).num_slots()
                &&& (forall|c: u32| c != p ==> final(table).live(c) == old(table).live(c))
                &&& (forall|c: u32| c != p && old(table).live(c)
                        ==> final(table).value_of(c) == old(table).value_of(c)
                            && final(table).parent_of(c) == old(table).parent_of(c))
            }
            Err(TableError::NotPresent) => (!old(table).live(p) || !(old(table).value_of(p)
                is Pollable)) && *final(table) == *old(table),
            Err(TableError::HasChildren) => old(table).live(p) && old(table).value_of(p)
                is Pollable && old(table).has_children(p) && *final(table) == *old(table),
            Err(_) => false,
        },
{
    let is_pollable = match table.get(p) {
        Ok(Resource::Pollable(_)) => true,
        _ => false,
    };
    if !is_pollable {
        return Err(TableError::NotPresent);
    }
    match table.delete(p) {
        Ok(_) => Ok(()),
        Err(e) => Err(e),
    }
}

/// The header fields a fields resource exposes: its own when owned, the
/// parent entry's when it is a view. The table keeps such a parent live
/// while the view exists (children are deleted no later than parents), so
/// a well-formed view always resolves.
pub fn get_fields<'a>(table: &'a Table<Resource>, h: u32) -> (r: Result<
    &'a crate::http_types::FieldMap,
    TableError,
>)
    ensures
        match r {
            Ok(fields) => table.live(h) && match table.value_of(h) {
                Resource::Fields(HostFields::Owned { fields: f }) => *fields == f,
                Resource::Fields(HostFields::Ref { parent }) => table.live(parent)
                    && match table.value_of(parent) {
                    Resource::IncomingRequest(ir) => *fields == ir.parts.headers,
                    Resource::OutgoingRequest(or) => *fields == or.headers,
                    Resource::IncomingResponse(ir) => *fields == ir.headers,
                    Resource::OutgoingResponse(or) => *fields == or.headers,
                    _ => false,
                },
                _ => false,
            },
            Err(_) => !(table.live(h) && match table.value_of(h) {
                Resource::Fields(HostFields::Owned { .. }) => true,
                Resource::Fields(HostFields::Ref { parent }) => table.live(parent) && (
                table.value_of(parent) is IncomingRequest || table.value_of(parent)
                    is OutgoingRequest || table.value_of(parent) is IncomingResponse
                    || table.value_of(parent) is OutgoingResponse),
                _ => false,
            }),
        },
{
    let parent = match table.get(h) {
        Ok(Resource::Fields(HostFields::Owned { fields })) => {
            return Ok(fields);
        }
        Ok(Resource::Fields(HostFields::Ref { parent })) => *parent,
        Ok(_) => {
            return Err(TableError::WrongType);
        }
        Err(e) => {
            return Err(e);
        }
    };
    match table.get(parent) {
        Ok(Resource::IncomingRequest(ir)) => Ok(&ir.parts.headers),
        Ok(Resource::OutgoingRequest(or)) => Ok(&or.headers),
        Ok(Resource::IncomingResponse(ir)) => Ok(&ir.headers),
        Ok(Resource::OutgoingResponse(or)) => Ok(&or.headers),
        Ok(_) => Err(TableError::WrongType),
        Err(e) => Err(e),
    }
}

/// One non-blocking poll of a pollable: reports whether it is ready at
/// monotonic time `now`. A handle that is dead or does not hold a
/// pollable is a host-level fault.
pub fn pollable_ready(table: &Table<Resource>, p: u32, now: u64) -> (r: Result<bool, TableError>)
    ensures
        match r {
            Ok(b) => b == spec_pollable_ready(*table, p, now),
            Err(TableError::NotPresent) => !table.live(p),
            Err(TableError::WrongType) => table.live(p) && !(table.value_of(p) is Pollable),
            Err(_) => false,
        },
{
    let pl = match table.get(p) {
        Ok(v) => match v {
            Resource::Pollable(pl) => Pollable { source: pl.source, deadline: pl.deadline },
            _ => {
                return Err(TableError::WrongType);
            }
        },
        Err(_) => {
            return Err(TableError::NotPresent);
        }
    };
    let deadline_hit = match pl.deadline {
        Some(d) => now >= d,
        None => false,
    };
    if deadline_hit {
        return Ok(true);
    }
    let source_ready = match table.get(pl.source) {
        Ok(v) => match v {
            Resource::Deadline(d) => match d {
                Deadline::Past => true,
                Deadline::Instant(t) => now >= *t,
                Deadline::Never => false,
            },
            Resource::InputStream(s) => s.has_data() || s.closed_flag(),
            Resource::OutputStream(s) => s.has_capacity() || s.closed_flag(),
            Resource::FutureIncomingResponse(f) => !matches!(f, HostFutureIncomingResponse::Pending(_)),
            Resource::ResolveAddressStream(st) => matches!(st, ResolveAddressStream::Done(_)),
            _ => false,
        },
        Err(_) => false,
    };
    Ok(source_ready)
}

} // verus!
