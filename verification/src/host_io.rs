//! The guest-facing host surface for streams, environment and randomness
//! seeding: every call resolves its handle through the resource table,
//! inspects or mutates the resource, and returns plain values.

use vstd::prelude::*;
use crate::errors::{GuestStreamError, StreamError, TableError};
use crate::poll::{
    agree_except, agree_except_two, input_stream_at, output_stream_at, subscribe, tables_agree,
    Resource,
};
use crate::streams::{same_input_stream, same_output_stream, StreamResult};
use crate::table::{lemma_wf_preserved, Table};

verus! {

/// Maximum chunk accepted by the blocking write conveniences.
pub const MAX_BLOCKING_WRITE: usize = 4096;

/// Host-side per-instance state outside the table: the environment and
/// arguments shown to the guest, and the seed handed out for guest-local
/// insecure randomness.
pub struct WasiCtx {
    pub env: Vec<(String, String)>,
    pub args: Vec<String>,
    pub insecure_random_seed: u128,
}

/// A stored resource is internally consistent.
pub open spec fn resource_wf(r: Resource) -> bool {
    match r {
        Resource::OutputStream(s) => s.wf(),
        Resource::ResolveAddressStream(st) => st.wf(),
        _ => true,
    }
}

/// The host implementation: instance context plus the resource table.
pub struct WasiImpl {
    pub ctx: WasiCtx,
    pub table: Table<Resource>,
}

impl WasiImpl {
    /// The table invariant, and every stored resource internally
    /// consistent.
    pub open spec fn wf(self) -> bool {
        &&& self.table.wf()
        &&& forall|h: u32| self.table.live(h) ==> resource_wf(#[trigger] self.table.value_of(h))
    }

    /// A fresh host with an empty table.
    pub fn new(ctx: WasiCtx) -> (w: WasiImpl)
        ensures
            w.wf(),
            w.ctx == ctx,
            w.table.num_slots() == 0,
    {
        WasiImpl { ctx, table: Table::new() }
    }

    /// The environment shown to the guest.
    pub fn get_environment(&self) -> (r: Vec<(String, String)>)
        ensures
            r@ == self.ctx.env@,
    {
        clone_pairs(&self.ctx.env)
    }

    /// The arguments shown to the guest.
    pub fn get_arguments(&self) -> (r: Vec<String>)
        ensures
            r@ == self.ctx.args@,
    {
        clone_strings(&self.ctx.args)
    }

    /// No initial working directory is exposed.
    pub fn initial_cwd(&self) -> (r: Option<String>)
        ensures
            r is None,
    {
        None
    }

    /// The insecure-randomness seed, split into its low and high halves.
    pub fn insecure_seed(&self) -> (r: (u64, u64))
        ensures
            r.0 == self.ctx.insecure_random_seed % 0x1_0000_0000_0000_0000,
            r.1 == self.ctx.insecure_random_seed / 0x1_0000_0000_0000_0000,
    {
        let seed: u128 = self.ctx.insecure_random_seed;
        let lo: u128 = seed % 0x1_0000_0000_0000_0000;
        let hi: u128 = seed / 0x1_0000_0000_0000_0000;
        (lo as u64, hi as u64)
    }

    /// Registers interest in a waitable resource; see [`subscribe`].
    pub fn subscribe(&mut self, source: u32) -> (r: Result<u32, TableError>)
        requires
            old(self).wf(),
        ensures
            final(self).wf(),
            final(self).ctx == old(self).ctx,
            match r {
                Ok(p) => {
                    &&& old(self).table.live(source)
                    &&& !old(self).table.live(p)
                    &&& final(self).table.live(p)
                    &&& final(self).table.num_slots() == old(self).table.num_slots() + 1
                    &&& final(self).table.value_of(p) == Resource::Pollable(
                        crate::poll::Pollable { source, deadline: None },
                    )
                    &&& final(self).table.parent_of(p) == Some(source)
                    &&& (forall|c: u32| c != p
                            ==> final(self).table.live(c) == old(self).table.live(c))
                    &&& (forall|c: u32| old(self).table.live(c)
                            ==> final(self).table.value_of(c) == old(self).table.value_of(c))
                }
                Err(TableError::NotPresent) => !old(self).table.live(source) && *final(self)
                    == *old(self),
                Err(TableError::WrongType) => old(self).table.live(source)
                    && !crate::poll::is_subscribable(old(self).table.value_of(source))
                    && *final(self) == *old(self),
                Err(TableError::Full) => old(self).table.num_slots() == u32::MAX as int
                    && *final(self) == *old(self),
                Err(_) => false,
            },
    {
        let ghost pre = *self;
        let r = subscribe(&mut self.table, source, None);
        proof {
            if r is Ok {
                assert forall|h: u32| self.table.live(h) implies resource_wf(
                    #[trigger] self.table.value_of(h),
                ) by {
                    if h != r->Ok_0 {
                        assert(pre.table.live(h));
                        assert(self.table.value_of(h) == pre.table.value_of(h));
                    }
                }
            }
        }
        r
    }

    /// Reports the stream's currently available write capacity without
    /// blocking; 0 means "not ready" and is not an error. A handle that is
    /// dead or not an output stream is a host-level fault (a trap).
    pub fn check_write(&mut self, stream: u32) -> (r: StreamResult<u64>)
        requires
            old(self).wf(),
        ensures
            final(self).wf(),
            *final(self) == *old(self),
            match output_stream_at(old(self).table, stream) {
                Some(s) => match r {
                    Ok(k) => !s.is_closed() && k == s.available(),
                    Err(e) => s.is_closed() && (e matches StreamError::Closed),
                },
                None => r is Err && (r matches Err(StreamError::Trap(_))),
            },
    {
        match self.table.get(stream) {
            Ok(Resource::OutputStream(s)) => {
                match s.check_write() {
                    Ok(k) => Ok(k as u64),
                    Err(e) => Err(e),
                }
            }
            _ => Err(StreamError::Trap("not a live output stream handle".to_owned())),
        }
    }

    /// Enqueues `bytes` on the stream. Writing more than the capacity most
    /// recently reported by `check_write` is a caller contract violation
    /// and traps; within the report the write always succeeds.
    pub fn write(&mut self, stream: u32, bytes: Vec<u8>) -> (r: StreamResult<()>)
        requires
            old(self).wf(),
        ensures
            final(self).wf(),
            final(self).ctx == old(self).ctx,
            agree_except(old(self).table, final(self).table, stream),
            match output_stream_at(old(self).table, stream) {
                Some(s) => {
                    &&& (r is Ok <==> s.write_accepts(bytes@.len() as int))
                    &&& (r is Ok ==> (output_stream_at(final(self).table, stream)
                        matches Some(s2) && s2.contents() == s.contents() + bytes@
                            && s2.capacity() == s.capacity()
                            && s2.is_closed() == s.is_closed()))
                    &&& (r is Err ==> (output_stream_at(final(self).table, stream)
                        matches Some(s2) && s2.contents() == s.contents()
                            && s2.capacity() == s.capacity()
                            && s2.is_closed() == s.is_closed()))
                    &&& ((r matches Err(StreamError::Closed)) <==> s.is_closed())
                    &&& ((r matches Err(StreamError::Trap(_))) <==> (!s.is_closed()
                        && bytes@.len() > s.available()))
                }
                None => (r matches Err(StreamError::Trap(_))) && tables_agree(
                    old(self).table,
                    final(self).table,
                ),
            },
    {
        let ghost pre = *self;
        if !self.table.contains(stream) {
            return Err(StreamError::Trap("not a live output stream handle".to_owned()));
        }
        let res = self.table.get_mut(stream);
        let out = match res {
            Resource::OutputStream(s) => s.write(bytes),
            _ => Err(StreamError::Trap("not a live output stream handle".to_owned())),
        };
        proof {
            lemma_wf_preserved(pre.table, self.table);
            assert forall|h: u32| self.table.live(h) implies resource_wf(
                #[trigger] self.table.value_of(h),
            ) by {
                if h != stream {
                    assert(pre.table.live(h));
                    assert(self.table.value_of(h) == pre.table.value_of(h));
                }
            }
        }
        out
    }
    /// Enqueues `len` zero bytes, under the same capacity discipline as
    /// `write`.
    pub fn write_zeroes(&mut self, stream: u32, len: u64) -> (r: StreamResult<()>)
        requires
            old(self).wf(),
        ensures
            final(self).wf(),
            final(self).ctx == old(self).ctx,
            agree_except(old(self).table, final(self).table, stream),
            match output_stream_at(old(self).table, stream) {
                Some(s) => {
                    &&& (r is Ok <==> (len <= usize::MAX && s.write_accepts(len as int)))
                    &&& (r is Ok ==> (output_stream_at(final(self).table, stream)
                        matches Some(s2) && s2.contents() == s.contents() + Seq::new(
                        len as nat,
                        |i: int| 0u8,
                    ) && s2.capacity() == s.capacity() && s2.is_closed() == s.is_closed()))
                    &&& (r is Err ==> (output_stream_at(final(self).table, stream)
                        matches Some(s2) && same_output_stream(s2, s)))
                    &&& ((r matches Err(StreamError::Closed)) <==> (len <= usize::MAX
                        && s.is_closed()))
                    &&& ((r matches Err(StreamError::Trap(_))) <==> (len > usize::MAX || (
                    !s.is_closed() && len > s.available())))
                }
                None => (r matches Err(StreamError::Trap(_))) && tables_agree(
                    old(self).table,
                    final(self).table,
                ),
            },
    {
        let ghost pre = *self;
        if !self.table.contains(stream) {
            return Err(StreamError::Trap("not a live output stream handle".to_owned()));
        }
        if len > usize::MAX as u64 {
            return Err(StreamError::Trap(
                "write exceeded the most recently reported capacity".to_owned(),
            ));
        }
        let res = self.table.get_mut(stream);
        let out = match res {
            Resource::OutputStream(s) => s.write_zeroes(len as usize),
            _ => Err(StreamError::Trap("not a live output stream handle".to_owned())),
        };
        proof {
            lemma_wf_preserved(pre.table, self.table);
            assert forall|h: u32| self.table.live(h) implies resource_wf(
                #[trigger] self.table.value_of(h),
            ) by {
                if h != stream {
                    assert(pre.table.live(h));
                    assert(self.table.value_of(h) == pre.table.value_of(h));
                }
            }
        }
        out
    }

    /// Pushes buffered bytes onward; on the in-memory pipe this only
    /// checks that the stream is still open, leaving it unchanged.
    pub fn flush(&mut self, stream: u32) -> (r: StreamResult<()>)
        requires
            old(self).wf(),
        ensures
            final(self).wf(),
            final(self).ctx == old(self).ctx,
            tables_agree(old(self).table, final(self).table),
            match output_stream_at(old(self).table, stream) {
                Some(s) => (r is Ok <==> !s.is_closed()) && (r is Err ==> (r matches Err(
                    StreamError::Closed,
                ))),
                None => r matches Err(StreamError::Trap(_)),
            },
    {
        match self.table.get(stream) {
            Ok(Resource::OutputStream(s)) => {
                if s.closed_flag() {
                    Err(StreamError::Closed)
                } else {
                    Ok(())
                }
            }
            _ => Err(StreamError::Trap("not a live output stream handle".to_owned())),
        }
    }

    /// Flushes, then suspends until the stream again reports write
    /// capacity. An in-memory pipe gains capacity only when the embedder
    /// drains it, so the wait's outcome is modeled as the precondition: an
    /// open stream already has capacity again — which is then what the
    /// call guarantees on success.
    pub fn blocking_flush(&mut self, stream: u32) -> (r: StreamResult<()>)
        requires
            old(self).wf(),
            (output_stream_at(old(self).table, stream) matches Some(s) && !s.is_closed())
                ==> (output_stream_at(old(self).table, stream) matches Some(s)
                && s.available() > 0),
        ensures
            final(self).wf(),
            final(self).ctx == old(self).ctx,
            tables_agree(old(self).table, final(self).table),
            match output_stream_at(old(self).table, stream) {
                Some(s) => (r is Ok <==> !s.is_closed()) && (r is Err ==> (r matches Err(
                    StreamError::Closed,
                ))) && (r is Ok ==> (output_stream_at(final(self).table, stream)
                    matches Some(s2) && s2.available() > 0)),
                None => r matches Err(StreamError::Trap(_)),
            },
    {
        self.flush(stream)
    }

    /// Convenience write bounded to `MAX_BLOCKING_WRITE` bytes: a larger
    /// buffer is rejected as a contract violation before any I/O is
    /// attempted; within the bound the call suspends until the stream can
    /// take the whole buffer, then writes and flushes. An in-memory pipe
    /// gains capacity only when the embedder drains it, so the wait's
    /// outcome is modeled as the precondition: an open stream asked for a
    /// bounded write already has the capacity for it.
    pub fn blocking_write_and_flush(&mut self, stream: u32, bytes: Vec<u8>) -> (r: StreamResult<
        (),
    >)
        requires
            old(self).wf(),
            (output_stream_at(old(self).table, stream) matches Some(s) && !s.is_closed()
                && bytes@.len() <= MAX_BLOCKING_WRITE) ==> (output_stream_at(
                old(self).table,
                stream,
            ) matches Some(s) && s.available() >= bytes@.len()),
        ensures
            final(self).wf(),
            final(self).ctx == old(self).ctx,
            agree_except(old(self).table, final(self).table, stream),
            bytes@.len() > MAX_BLOCKING_WRITE ==> (r matches Err(StreamError::Trap(_)))
                && tables_agree(old(self).table, final(self).table),
            bytes@.len() <= MAX_BLOCKING_WRITE ==> match output_stream_at(
                old(self).table,
                stream,
            ) {
                Some(s) => {
                    &&& (r is Ok <==> !s.is_closed())
                    &&& (r is Ok ==> (output_stream_at(final(self).table, stream)
                        matches Some(s2) && s2.contents() == s.contents() + bytes@
                            && s2.capacity() == s.capacity()
                            && s2.is_closed() == s.is_closed()))
                    &&& (r is Err ==> (r matches Err(StreamError::Closed))
                        && (output_stream_at(final(self).table, stream)
                        matches Some(s2) && same_output_stream(s2, s)))
                }
                None => (r matches Err(StreamError::Trap(_))) && tables_agree(
                    old(self).table,
                    final(self).table,
                ),
            },
    {
        if bytes.len() > MAX_BLOCKING_WRITE {
            return Err(StreamError::Trap(
                "buffer too large for a blocking write (4096 bytes at most)".to_owned(),
            ));
        }
        match self.write(stream, bytes) {
            Ok(()) => self.flush(stream),
            Err(e) => Err(e),
        }
    }

    /// Convenience zero-write bounded to `MAX_BLOCKING_WRITE` bytes, under
    /// the same rules as `blocking_write_and_flush`, including the modeled
    /// wait for capacity.
    pub fn blocking_write_zeroes_and_flush(&mut self, stream: u32, len: u64) -> (r: StreamResult<
        (),
    >)
        requires
            old(self).wf(),
            (output_stream_at(old(self).table, stream) matches Some(s) && !s.is_closed()
                && len <= MAX_BLOCKING_WRITE) ==> (output_stream_at(old(self).table, stream)
                matches Some(s) && s.available() >= len),
        ensures
            final(self).wf(),
            final(self).ctx == old(self).ctx,
            agree_except(old(self).table, final(self).table, stream),
            len > MAX_BLOCKING_WRITE ==> (r matches Err(StreamError::Trap(_))) && tables_agree(
                old(self).table,
                final(self).table,
            ),
            len <= MAX_BLOCKING_WRITE ==> match output_stream_at(old(self).table, stream) {
                Some(s) => {
                    &&& (r is Ok <==> !s.is_closed())
                    &&& (r is Ok ==> (output_stream_at(final(self).table, stream)
                        matches Some(s2) && s2.contents() == s.contents() + Seq::new(
                        len as nat,
                        |i: int| 0u8,
                    ) && s2.capacity() == s.capacity() && s2.is_closed() == s.is_closed()))
                    &&& (r is Err ==> (r matches Err(StreamError::Closed))
                        && (output_stream_at(final(self).table, stream)
                        matches Some(s2) && same_output_stream(s2, s)))
                }
                None => (r matches Err(StreamError::Trap(_))) && tables_agree(
                    old(self).table,
                    final(self).table,
                ),
            },
    {
        if len > MAX_BLOCKING_WRITE as u64 {
            return Err(StreamError::Trap(
                "buffer too large for a blocking write (4096 bytes at most)".to_owned(),
            ));
        }
        match self.write_zeroes(stream, len) {
            Ok(()) => self.flush(stream),
            Err(e) => Err(e),
        }
    }

    /// Returns at most `len` bytes from the input stream, possibly fewer,
    /// never more; an empty result while the stream is open is not an
    /// error, and a read at end-of-data reports `Closed`.
    pub fn read(&mut self, stream: u32, len: u64) -> (r: StreamResult<Vec<u8>>)
        requires
            old(self).wf(),
        ensures
            final(self).wf(),
            final(self).ctx == old(self).ctx,
            agree_except(old(self).table, final(self).table, stream),
            match input_stream_at(old(self).table, stream) {
                Some(s) => {
                    &&& (s.at_end() ==> (r matches Err(StreamError::Closed)) && (input_stream_at(
                        final(self).table,
                        stream,
                    ) matches Some(s2) && same_input_stream(s2, s)))
                    &&& (!s.at_end() ==> (r matches Ok(v) && v@.len() <= len && v@.len()
                        == vstd::math::min(
                        vstd::math::min(len as int, usize::MAX as int),
                        s.data().len() as int,
                    ) && v@ == s.data().take(v@.len() as int) && (input_stream_at(
                        final(self).table,
                        stream,
                    ) matches Some(s2) && s2.data() == s.data().skip(v@.len() as int)
                        && s2.is_closed() == s.is_closed())))
                }
                None => (r matches Err(StreamError::Trap(_))) && tables_agree(
                    old(self).table,
                    final(self).table,
                ),
            },
    {
        let ghost pre = *self;
        if !self.table.contains(stream) {
            return Err(StreamError::Trap("not a live input stream handle".to_owned()));
        }
        let len_clamped = clamp_len(len);
        let res = self.table.get_mut(stream);
        let out = match res {
            Resource::InputStream(s) => s.read(len_clamped),
            _ => Err(StreamError::Trap("not a live input stream handle".to_owned())),
        };
        proof {
            lemma_wf_preserved(pre.table, self.table);
            assert forall|h: u32| self.table.live(h) implies resource_wf(
                #[trigger] self.table.value_of(h),
            ) by {
                if h != stream {
                    assert(pre.table.live(h));
                    assert(self.table.value_of(h) == pre.table.value_of(h));
                }
            }
        }
        out
    }

    /// The blocking read: suspends until the stream has data or is at
    /// end-of-data, then reads as `read` does. An in-memory pipe gains
    /// data only when the embedder feeds it, so the wait's outcome is
    /// modeled as the precondition: the stream already has data or is
    /// closed.
    pub fn blocking_read(&mut self, stream: u32, len: u64) -> (r: StreamResult<Vec<u8>>)
        requires
            old(self).wf(),
            (input_stream_at(old(self).table, stream) matches Some(s)) ==> (input_stream_at(
                old(self).table,
                stream,
            ) matches Some(s) && (s.data().len() > 0 || s.is_closed())),
        ensures
            final(self).wf(),
            final(self).ctx == old(self).ctx,
            agree_except(old(self).table, final(self).table, stream),
            match input_stream_at(old(self).table, stream) {
                Some(s) => {
                    &&& (s.at_end() ==> (r matches Err(StreamError::Closed)) && (input_stream_at(
                        final(self).table,
                        stream,
                    ) matches Some(s2) && same_input_stream(s2, s)))
                    &&& (!s.at_end() ==> (r matches Ok(v) && v@.len() <= len && v@.len()
                        == vstd::math::min(
                        vstd::math::min(len as int, usize::MAX as int),
                        s.data().len() as int,
                    ) && v@ == s.data().take(v@.len() as int) && (input_stream_at(
                        final(self).table,
                        stream,
                    ) matches Some(s2) && s2.data() == s.data().skip(v@.len() as int)
                        && s2.is_closed() == s.is_closed())))
                }
                None => (r matches Err(StreamError::Trap(_))) && tables_agree(
                    old(self).table,
                    final(self).table,
                ),
            },
    {
        self.read(stream, len)
    }

    /// Discards up to `len` bytes from the input stream, reporting how
    /// many were discarded.
    pub fn skip(&mut self, stream: u32, len: u64) -> (r: StreamResult<u64>)
        requires
            old(self).wf(),
        ensures
            final(self).wf(),
            final(self).ctx == old(self).ctx,
            agree_except(old(self).table, final(self).table, stream),
            match input_stream_at(old(self).table, stream) {
                Some(s) => {
                    &&& (s.at_end() ==> (r matches Err(StreamError::Closed)) && (input_stream_at(
                        final(self).table,
                        stream,
                    ) matches Some(s2) && same_input_stream(s2, s)))
                    &&& (!s.at_end() ==> (r matches Ok(n) && n <= len && n == vstd::math::min(
                        vstd::math::min(len as int, usize::MAX as int),
                        s.data().len() as int,
                    ) && (input_stream_at(final(self).table, stream) matches Some(s2)
                        && s2.data() == s.data().skip(n as int) && s2.is_closed()
                        == s.is_closed())))
                }
                None => (r matches Err(StreamError::Trap(_))) && tables_agree(
                    old(self).table,
                    final(self).table,
                ),
            },
    {
        match self.read(stream, len) {
            Ok(v) => Ok(v.len() as u64),
            Err(e) => Err(e),
        }
    }

    /// The blocking skip: suspends until the stream has data or is at
    /// end-of-data, then discards as `skip` does, under the same modeled
    /// wait as `blocking_read`.
    pub fn blocking_skip(&mut self, stream: u32, len: u64) -> (r: StreamResult<u64>)
        requires
            old(self).wf(),
            (input_stream_at(old(self).table, stream) matches Some(s)) ==> (input_stream_at(
                old(self).table,
                stream,
            ) matches Some(s) && (s.data().len() > 0 || s.is_closed())),
        ensures
            final(self).wf(),
            final(self).ctx == old(self).ctx,
            agree_except(old(self).table, final(self).table, stream),
            match input_stream_at(old(self).table, stream) {
                Some(s) => {
                    &&& (s.at_end() ==> (r matches Err(StreamError::Closed)) && (input_stream_at(
                        final(self).table,
                        stream,
                    ) matches Some(s2) && same_input_stream(s2, s)))
                    &&& (!s.at_end() ==> (r matches Ok(n) && n <= len && n == vstd::math::min(
                        vstd::math::min(len as int, usize::MAX as int),
                        s.data().len() as int,
                    ) && (input_stream_at(final(self).table, stream) matches Some(s2)
                        && s2.data() == s.data().skip(n as int) && s2.is_closed()
                        == s.is_closed())))
                }
                None => (r matches Err(StreamError::Trap(_))) && tables_agree(
                    old(self).table,
                    final(self).table,
                ),
            },
    {
        self.skip(stream, len)
    }

    /// Moves up to `len` bytes from `src` straight to `dest` without
    /// exposing them to the caller. At most `min(len, dest's capacity at
    /// call time)` bytes move; if that capacity is 0 the call returns 0
    /// and touches `src` not at all. A short read from `src` is honored
    /// as-is: callers loop to move more.
    pub fn splice(&mut self, dest: u32, src: u32, len: u64) -> (r: StreamResult<u64>)
        requires
            old(self).wf(),
        ensures
            final(self).wf(),
            final(self).ctx == old(self).ctx,
            agree_except_two(old(self).table, final(self).table, dest, src),
            match output_stream_at(old(self).table, dest) {
                Some(d) => {
                    &&& (r matches Ok(n) ==> n <= len && n <= d.available())
                    &&& (d.is_closed() ==> (r matches Err(StreamError::Closed)) && tables_agree(
                        old(self).table,
                        final(self).table,
                    ))
                    &&& (!d.is_closed() && vstd::math::min(len as int, d.available()) == 0
                        ==> r == Ok::<u64, StreamError>(0u64) && tables_agree(
                        old(self).table,
                        final(self).table,
                    ))
                    &&& (!d.is_closed() && vstd::math::min(len as int, d.available()) > 0
                        ==> match input_stream_at(old(self).table, src) {
                        Some(s) => {
                            let k = vstd::math::min(
                                vstd::math::min(len as int, usize::MAX as int),
                                d.available(),
                            );
                            let n = vstd::math::min(k, s.data().len() as int);
                            if s.at_end() {
                                (r matches Err(StreamError::Closed)) && (output_stream_at(
                                    final(self).table,
                                    dest,
                                ) matches Some(d2) && same_output_stream(d2, d)) && (
                                input_stream_at(final(self).table, src) matches Some(s2)
                                    && same_input_stream(s2, s))
                            } else if n == 0 {
                                r == Ok::<u64, StreamError>(0u64) && (output_stream_at(
                                    final(self).table,
                                    dest,
                                ) matches Some(d2) && same_output_stream(d2, d)) && (
                                input_stream_at(final(self).table, src) matches Some(s2)
                                    && same_input_stream(s2, s))
                            } else {
                                &&& r == Ok::<u64, StreamError>(n as u64)
                                &&& (output_stream_at(final(self).table, dest) matches Some(d2)
                                    && d2.contents() == d.contents() + s.data().take(n)
                                    && d2.capacity() == d.capacity() && !d2.is_closed())
                                &&& (input_stream_at(final(self).table, src) matches Some(s2)
                                    && s2.data() == s.data().skip(n) && s2.is_closed()
                                    == s.is_closed())
                            }
                        },
                        None => (r matches Err(StreamError::Trap(_))) && tables_agree(
                            old(self).table,
                            final(self).table,
                        ),
                    })
                }
                None => (r matches Err(StreamError::Trap(_))) && tables_agree(
                    old(self).table,
                    final(self).table,
                ),
            },
    {
        let permit = match self.table.get(dest) {
            Ok(Resource::OutputStream(s)) => match s.check_write() {
                Ok(p) => p,
                Err(e) => {
                    return Err(e);
                }
            },
            _ => {
                return Err(StreamError::Trap("not a live output stream handle".to_owned()));
            }
        };
        let len_clamped = clamp_len(len);
        let k = if len_clamped < permit {
            len_clamped
        } else {
            permit
        };
        if k == 0 {
            return Ok(0);
        }
        let ghost pre = *self;
        if !self.table.contains(src) {
            return Err(StreamError::Trap("not a live input stream handle".to_owned()));
        }
        let contents = {
            let res = self.table.get_mut(src);
            let out = match res {
                Resource::InputStream(s) => s.read(k),
                _ => Err(StreamError::Trap("not a live input stream handle".to_owned())),
            };
            proof {
                lemma_wf_preserved(pre.table, self.table);
                assert forall|h: u32| self.table.live(h) implies resource_wf(
                    #[trigger] self.table.value_of(h),
                ) by {
                    if h != src {
                        assert(pre.table.live(h));
                        assert(self.table.value_of(h) == pre.table.value_of(h));
                    }
                }
            }
            match out {
                Ok(v) => v,
                Err(e) => {
                    return Err(e);
                }
            }
        };
        let n = contents.len();
        if n == 0 {
            proof {
                let sdata = input_stream_at(pre.table, src)->Some_0.data();
                assert(sdata.skip(0) =~= sdata);
            }
            return Ok(0);
        }
        let ghost mid = *self;
        let res = self.table.get_mut(dest);
        let wrote = match res {
            Resource::OutputStream(s) => s.write(contents),
            _ => Err(StreamError::Trap("not a live output stream handle".to_owned())),
        };
        proof {
            lemma_wf_preserved(mid.table, self.table);
            assert forall|h: u32| self.table.live(h) implies resource_wf(
                #[trigger] self.table.value_of(h),
            ) by {
                if h != dest {
                    assert(mid.table.live(h));
                    assert(self.table.value_of(h) == mid.table.value_of(h));
                }
            }
        }
        match wrote {
            Ok(()) => Ok(n as u64),
            Err(e) => Err(e),
        }
    }

    /// The blocking splice: where `splice` returns 0 on a momentarily full
    /// destination, this variant waits for capacity first. An in-memory
    /// pipe gains capacity only when the embedder drains it, so the wait's
    /// outcome is modeled as the precondition: an open destination asked
    /// for bytes already has capacity. The transfer itself is exactly
    /// `splice`'s.
    pub fn blocking_splice(&mut self, dest: u32, src: u32, len: u64) -> (r: StreamResult<u64>)
        requires
            old(self).wf(),
            (output_stream_at(old(self).table, dest) matches Some(d) && !d.is_closed() && len > 0)
                ==> (output_stream_at(old(self).table, dest) matches Some(d)
                && d.available() > 0),
        ensures
            final(self).wf(),
            final(self).ctx == old(self).ctx,
            agree_except_two(old(self).table, final(self).table, dest, src),
            match output_stream_at(old(self).table, dest) {
                Some(d) => {
                    &&& (r matches Ok(n) ==> n <= len && n <= d.available())
                    &&& (d.is_closed() ==> (r matches Err(StreamError::Closed)) && tables_agree(
                        old(self).table,
                        final(self).table,
                    ))
                    &&& (!d.is_closed() && len == 0 ==> r == Ok::<u64, StreamError>(0u64)
                        && tables_agree(old(self).table, final(self).table))
                    &&& (!d.is_closed() && vstd::math::min(len as int, d.available()) > 0
                        ==> match input_stream_at(old(self).table, src) {
                        Some(s) => {
                            let k = vstd::math::min(
                                vstd::math::min(len as int, usize::MAX as int),
                                d.available(),
                            );
                            let n = vstd::math::min(k, s.data().len() as int);
                            if s.at_end() {
                                (r matches Err(StreamError::Closed)) && (output_stream_at(
                                    final(self).table,
                                    dest,
                                ) matches Some(d2) && same_output_stream(d2, d)) && (
                                input_stream_at(final(self).table, src) matches Some(s2)
                                    && same_input_stream(s2, s))
                            } else if n == 0 {
                                r == Ok::<u64, StreamError>(0u64) && (output_stream_at(
                                    final(self).table,
                                    dest,
                                ) matches Some(d2) && same_output_stream(d2, d)) && (
                                input_stream_at(final(self).table, src) matches Some(s2)
                                    && same_input_stream(s2, s))
                            } else {
                                &&& r == Ok::<u64, StreamError>(n as u64)
                                &&& (output_stream_at(final(self).table, dest) matches Some(d2)
                                    && d2.contents() == d.contents() + s.data().take(n)
                                    && d2.capacity() == d.capacity() && !d2.is_closed())
                                &&& (input_stream_at(final(self).table, src) matches Some(s2)
                                    && s2.data() == s.data().skip(n) && s2.is_closed()
                                    == s.is_closed())
                            }
                        },
                        None => (r matches Err(StreamError::Trap(_))) && tables_agree(
                            old(self).table,
                            final(self).table,
                        ),
                    })
                }
                None => (r matches Err(StreamError::Trap(_))) && tables_agree(
                    old(self).table,
                    final(self).table,
                ),
            },
    {
        self.splice(dest, src, len)
    }

    /// Converts a host-level stream failure into the guest's view of it: a
    /// `LastOperationFailed` cause is moved into the table and referred to
    /// by handle; a trap is a host fault and aborts the call with its
    /// text.
    pub fn convert_stream_error(&mut self, err: StreamError) -> (r: Result<
        GuestStreamError,
        String,
    >)
        requires
            old(self).wf(),
        ensures
            final(self).wf(),
            final(self).ctx == old(self).ctx,
            match err {
                StreamError::Closed => r == Ok::<_, String>(GuestStreamError::Closed)
                    && tables_agree(old(self).table, final(self).table),
                StreamError::LastOperationFailed(m) => match r {
                    Ok(g) => {
                        &&& (g matches GuestStreamError::LastOperationFailed(h)
                            && final(self).table.live(h) && !old(self).table.live(h)
                            && final(self).table.value_of(h) == Resource::StreamErrorPayload(m)
                            && final(self).table.num_slots() == old(self).table.num_slots() + 1
                            && (forall|c: u32| old(self).table.live(c)
                                ==> final(self).table.live(c) && final(self).table.value_of(c)
                                    == old(self).table.value_of(c)))
                    }
                    Err(_) => old(self).table.num_slots() == u32::MAX as int,
                },
                StreamError::Trap(m) => r == Err::<GuestStreamError, _>(m) && tables_agree(
                    old(self).table,
                    final(self).table,
                ),
            },
    {
        let ghost pre = *self;
        match err {
            StreamError::Closed => Ok(GuestStreamError::Closed),
            StreamError::LastOperationFailed(m) => {
                match self.table.push(Resource::StreamErrorPayload(m)) {
                    Ok(h) => {
                        proof {
                            assert forall|c: u32| self.table.live(c) implies resource_wf(
                                #[trigger] self.table.value_of(c),
                            ) by {
                                if c != h {
                                    assert(pre.table.live(c));
                                    assert(self.table.value_of(c) == pre.table.value_of(c));
                                }
                            }
                        }
                        Ok(GuestStreamError::LastOperationFailed(h))
                    }
                    Err(_) => Err("the resource table is out of handles".to_owned()),
                }
            }
            StreamError::Trap(m) => Err(m),
        }
    }

    /// The text of a table-resident stream-error cause, for the guest to
    /// inspect.
    pub fn to_debug_string(&self, err: u32) -> (r: Result<String, TableError>)
        ensures
            match r {
                Ok(m) => self.table.live(err) && self.table.value_of(err)
                    == Resource::StreamErrorPayload(m),
                Err(TableError::NotPresent) => !self.table.live(err),
                Err(TableError::WrongType) => self.table.live(err) && !(self.table.value_of(err)
                    is StreamErrorPayload),
                Err(_) => false,
            },
    {
        match self.table.get(err) {
            Ok(Resource::StreamErrorPayload(m)) => Ok(m.clone()),
            Ok(_) => Err(TableError::WrongType),
            Err(_) => Err(TableError::NotPresent),
        }
    }

    /// Deletes a table-resident stream-error cause.
    pub fn drop_error(&mut self, err: u32) -> (r: Result<(), TableError>)
        requires
            old(self).wf(),
        ensures
            final(self).wf(),
            final(self).ctx == old(self).ctx,
            drop_outcome(old(self).table, final(self).table, err, ResourceKind::ErrorPayload, r),
    {
        self.drop_typed(err, ResourceKind::ErrorPayload)
    }

    /// Deletes an output stream. The entry must have no live children (a
    /// pollable subscribed to it must be dropped first); any background
    /// work tied to the stream ends with it.
    pub fn drop_output_stream(&mut self, stream: u32) -> (r: Result<(), TableError>)
        requires
            old(self).wf(),
        ensures
            final(self).wf(),
            final(self).ctx == old(self).ctx,
            drop_outcome(old(self).table, final(self).table, stream, ResourceKind::Output, r),
    {
        self.drop_typed(stream, ResourceKind::Output)
    }

    /// Deletes an input stream, under the same rules as
    /// `drop_output_stream`.
    pub fn drop_input_stream(&mut self, stream: u32) -> (r: Result<(), TableError>)
        requires
            old(self).wf(),
        ensures
            final(self).wf(),
            final(self).ctx == old(self).ctx,
            drop_outcome(old(self).table, final(self).table, stream, ResourceKind::Input, r),
    {
        self.drop_typed(stream, ResourceKind::Input)
    }

    /// The shared typed delete: checks the resource kind, then deletes.
    fn drop_typed(&mut self, h: u32, kind: ResourceKind) -> (r: Result<(), TableError>)
        requires
            old(self).wf(),
        ensures
            final(self).wf(),
            final(self).ctx == old(self).ctx,
            drop_outcome(old(self).table, final(self).table, h, kind, r),
    {
        let ghost pre = *self;
        let ok = match (self.table.get(h), kind) {
            (Ok(Resource::StreamErrorPayload(_)), ResourceKind::ErrorPayload) => true,
            (Ok(Resource::OutputStream(_)), ResourceKind::Output) => true,
            (Ok(Resource::InputStream(_)), ResourceKind::Input) => true,
            (Ok(_), _) => false,
            (Err(_), _) => false,
        };
        if !ok {
            return Err(TableError::NotPresent);
        }
        match self.table.delete(h) {
            Ok(_) => {
                proof {
                    assert forall|c: u32| self.table.live(c) implies resource_wf(
                        #[trigger] self.table.value_of(c),
                    ) by {
                        assert(pre.table.live(c));
                        assert(self.table.value_of(c) == pre.table.value_of(c));
                    }
                }
                Ok(())
            }
            Err(e) => Err(e),
        }
    }
}

/// A resource kind tag used by the typed deletes.
pub enum ResourceKind {
    ErrorPayload,
    Output,
    Input,
}

/// The stored resource is of the tagged kind.
pub open spec fn kind_matches(r: Resource, kind: ResourceKind) -> bool {
    match kind {
        ResourceKind::ErrorPayload => r is StreamErrorPayload,
        ResourceKind::Output => r is OutputStream,
        ResourceKind::Input => r is InputStream,
    }
}

/// What a typed drop does, exactly: it succeeds precisely on a live,
/// childless handle of the right kind and removes that entry alone; a
/// dead handle or one of another kind is a not-found error, an entry that
/// still has a live child (its pollable) cannot be deleted yet, and in
/// every failure the table is untouched.
pub open spec fn drop_outcome(
    pre: Table<Resource>,
    post: Table<Resource>,
    h: u32,
    kind: ResourceKind,
    r: Result<(), TableError>,
) -> bool {
    match r {
        Ok(_) => {
            &&& pre.live(h)
            &&& kind_matches(pre.value_of(h), kind)
            &&& !pre.has_children(h)
            &&& !post.live(h)
            &&& post.num_slots() == pre.num_slots()
            &&& (forall|c: u32| c != h ==> post.live(c) == pre.live(c))
            &&& (forall|c: u32| c != h && pre.live(c)
                    ==> post.value_of(c) == pre.value_of(c) && post.parent_of(c) == pre.parent_of(
                        c,
                    ))
        }
        Err(TableError::NotPresent) => (!pre.live(h) || !kind_matches(pre.value_of(h), kind))
            && post == pre,
        Err(TableError::HasChildren) => pre.live(h) && kind_matches(pre.value_of(h), kind)
            && pre.has_children(h) && post == pre,
        Err(_) => false,
    }
}

/// Clamps a guest-supplied 64-bit length to the address space.
fn clamp_len(len: u64) -> (r: usize)
    ensures
        r as int == vstd::math::min(len as int, usize::MAX as int),
{
    if len > usize::MAX as u64 {
        usize::MAX
    } else {
        len as usize
    }
}

/// An element-wise copy; the clone of each string equals the original.
fn clone_pairs(v: &Vec<(String, String)>) -> (r: Vec<(String, String)>)
    ensures
        r@ == v@,
{
    let mut out: Vec<(String, String)> = Vec::new();
    let mut i: usize = 0;
    while i < v.len()
        invariant
            i <= v.len(),
            out@ == v@.take(i as int),
        decreases v.len() - i,
    {
        let pair = &v[i];
        out.push((pair.0.clone(), pair.1.clone()));
        proof {
            assert(v@.take(i + 1 as int) =~= v@.take(i as int).push(v@[i as int]));
        }
        i += 1;
    }
    proof {
        assert(v@.take(v@.len() as int) =~= v@);
    }
    out
}

/// An element-wise copy; the clone of each string equals the original.
fn clone_strings(v: &Vec<String>) -> (r: Vec<String>)
    ensures
        r@ == v@,
{
    let mut out: Vec<String> = Vec::new();
    let mut i: usize = 0;
    while i < v.len()
        invariant
            i <= v.len(),
            out@ == v@.take(i as int),
        decreases v.len() - i,
    {
        out.push(v[i].clone());
        proof {
            assert(v@.take(i + 1 as int) =~= v@.take(i as int).push(v@[i as int]));
        }
        i += 1;
    }
    proof {
        assert(v@.take(v@.len() as int) =~= v@);
    }
    out
}

} // verus!
