//! In-memory byte-stream pipes with explicit backpressure.
//!
//! An output stream reports its currently available write capacity and
//! accepts writes only up to that report; writing past it is a caller
//! contract violation (a trap), never a recoverable error. An input stream
//! hands out at most the requested number of bytes, possibly fewer; an
//! empty read while the stream is still open is not an error, and a read
//! at end-of-data reports `Closed`.

use vstd::prelude::*;
use crate::errors::StreamError;

verus! {

/// Outcome of a host stream operation.
pub type StreamResult<T> = Result<T, StreamError>;

/// A bounded in-memory output pipe. The writer (the guest) fills `buf` up
/// to `capacity`; the embedder drains it with `take_contents`, which is
/// what makes capacity available again.
pub struct OutputStream {
    buf: Vec<u8>,
    capacity: usize,
    closed: bool,
}

impl OutputStream {
    /// Bytes written and not yet drained.
    pub closed spec fn contents(self) -> Seq<u8> {
        self.buf@
    }

    /// The fixed buffer bound.
    pub closed spec fn capacity(self) -> int {
        self.capacity as int
    }

    /// Whether the pipe has been closed.
    pub closed spec fn is_closed(self) -> bool {
        self.closed
    }

    /// Write capacity available right now.
    pub open spec fn available(self) -> int {
        self.capacity() - self.contents().len()
    }

    /// The buffer never exceeds its bound.
    pub open spec fn wf(self) -> bool {
        self.contents().len() <= self.capacity()
    }

    /// A write of `n` bytes would be accepted in this state.
    pub open spec fn write_accepts(self, n: int) -> bool {
        !self.is_closed() && n <= self.available()
    }

    /// An open pipe with the given capacity and nothing buffered.
    pub fn new(capacity: usize) -> (s: OutputStream)
        ensures
            s.wf(),
            s.contents() == Seq::<u8>::empty(),
            s.capacity() == capacity,
            !s.is_closed(),
    {
        OutputStream { buf: Vec::new(), capacity, closed: false }
    }

    /// Reports the capacity available right now without blocking; 0 means
    /// "not ready", which is not an error. Fails only once the stream is
    /// closed for good.
    pub fn check_write(&self) -> (r: StreamResult<usize>)
        requires
            self.wf(),
        ensures
            match r {
                Ok(k) => !self.is_closed() && k == self.available(),
                Err(e) => self.is_closed() && (e matches StreamError::Closed),
            },
    {
        if self.closed {
            Err(StreamError::Closed)
        } else {
            Ok(self.capacity - self.buf.len())
        }
    }

    /// Enqueues `bytes`. Accepts exactly the writes within the capacity
    /// most recently reported: more than that is a caller contract
    /// violation and traps; a closed stream reports `Closed`. On any error
    /// the stream is unchanged.
    pub fn write(&mut self, bytes: Vec<u8>) -> (r: StreamResult<()>)
        requires
            old(self).wf(),
        ensures
            final(self).wf(),
            final(self).capacity() == old(self).capacity(),
            final(self).is_closed() == old(self).is_closed(),
            r is Ok <==> old(self).write_accepts(bytes@.len() as int),
            r is Ok ==> final(self).contents() == old(self).contents() + bytes@,
            r is Err ==> final(self).contents() == old(self).contents(),
            r matches Err(StreamError::Closed) <==> old(self).is_closed(),
            (r matches Err(StreamError::Trap(_))) <==> (!old(self).is_closed()
                && bytes@.len() > old(self).available()),
    {
        if self.closed {
            return Err(StreamError::Closed);
        }
        if bytes.len() > self.capacity - self.buf.len() {
            return Err(StreamError::Trap(
                "write exceeded the most recently reported capacity".to_owned(),
            ));
        }
        let mut bytes = bytes;
        self.buf.append(&mut bytes);
        Ok(())
    }

    /// Enqueues `len` zero bytes, under the same capacity discipline as
    /// `write`.
    pub fn write_zeroes(&mut self, len: usize) -> (r: StreamResult<()>)
        requires
            old(self).wf(),
        ensures
            final(self).wf(),
            final(self).capacity() == old(self).capacity(),
            final(self).is_closed() == old(self).is_closed(),
            r is Ok <==> old(self).write_accepts(len as int),
            r is Ok ==> final(self).contents()
                == old(self).contents() + Seq::new(len as nat, |i: int| 0u8),
            r is Err ==> final(self).contents() == old(self).contents(),
            r matches Err(StreamError::Closed) <==> old(self).is_closed(),
            (r matches Err(StreamError::Trap(_))) <==> (!old(self).is_closed()
                && len > old(self).available()),
    {
        let zeroes: Vec<u8> = vec![0u8; len];
        self.write(zeroes)
    }

    /// Pushes buffered bytes onward. For an in-memory pipe there is
    /// nowhere further to push, so this only checks that the stream is
    /// still open.
    pub fn flush(&mut self) -> (r: StreamResult<()>)
        requires
            old(self).wf(),
        ensures
            *final(self) == *old(self),
            r is Ok <==> !old(self).is_closed(),
            r is Err ==> (r matches Err(StreamError::Closed)),
    {
        if self.closed {
            Err(StreamError::Closed)
        } else {
            Ok(())
        }
    }

    /// Waits until the stream can accept bytes again and reports how many,
    /// returning only once capacity exists. An in-memory pipe gains
    /// capacity only when the embedder drains it, so the wait's outcome is
    /// modeled as the precondition: an open pipe already has capacity.
    pub fn write_ready(&mut self) -> (r: StreamResult<usize>)
        requires
            old(self).wf(),
            old(self).is_closed() || old(self).available() > 0,
        ensures
            *final(self) == *old(self),
            match r {
                Ok(k) => !old(self).is_closed() && k == old(self).available() && k > 0,
                Err(e) => old(self).is_closed() && (e matches StreamError::Closed),
            },
    {
        if self.closed {
            Err(StreamError::Closed)
        } else {
            Ok(self.capacity - self.buf.len())
        }
    }

    /// Closes the pipe: all later writes report `Closed`.
    pub fn close(&mut self)
        ensures
            final(self).is_closed(),
            final(self).contents() == old(self).contents(),
            final(self).capacity() == old(self).capacity(),
    {
        self.closed = true;
    }

    /// Whether a write of at least one byte could be accepted right now.
    pub fn has_capacity(&self) -> (r: bool)
        ensures
            r == (self.available() > 0),
    {
        self.buf.len() < self.capacity
    }

    /// The closed flag, as an executable check.
    pub fn closed_flag(&self) -> (r: bool)
        ensures
            r == self.is_closed(),
    {
        self.closed
    }

    /// Embedder side of the pipe: drains and returns everything buffered,
    /// making the full capacity available again.
    pub fn take_contents(&mut self) -> (r: Vec<u8>)
        ensures
            r@ == old(self).contents(),
            final(self).contents() == Seq::<u8>::empty(),
            final(self).capacity() == old(self).capacity(),
            final(self).is_closed() == old(self).is_closed(),
    {
        let mut out: Vec<u8> = Vec::new();
        core::mem::swap(&mut self.buf, &mut out);
        out
    }
}

/// Law: a write that stays within the capacity just reported by
/// `check_write` is always accepted (it cannot trap), and a write of one
/// byte more than the report is never accepted. Together with `write`'s
/// contract — accepted exactly when `write_accepts` holds, trapping
/// otherwise on an open stream — this pins the backpressure discipline.
pub proof fn lemma_backpressure(s: OutputStream, k: int, n: int)
    requires
        s.wf(),
        !s.is_closed(),
        s.available() == k,
    ensures
        0 <= n <= k ==> s.write_accepts(n),
        n == k + 1 ==> !s.write_accepts(n),
{
}

/// The two output streams are observably the same.
pub open spec fn same_output_stream(a: OutputStream, b: OutputStream) -> bool {
    a.contents() == b.contents() && a.capacity() == b.capacity() && a.is_closed() == b.is_closed()
}

/// The two input streams are observably the same.
pub open spec fn same_input_stream(a: InputStream, b: InputStream) -> bool {
    a.data() == b.data() && a.is_closed() == b.is_closed()
}

/// A readable in-memory pipe. The embedder feeds bytes in with `feed` and
/// eventually calls `close`; the guest reads them out. Once the buffer is
/// drained and the pipe is closed, reads report `Closed` (end-of-data).
pub struct InputStream {
    data: Vec<u8>,
    closed: bool,
}

impl InputStream {
    /// Bytes available to read.
    pub closed spec fn data(self) -> Seq<u8> {
        self.data@
    }

    /// Whether the feeding side is done.
    pub closed spec fn is_closed(self) -> bool {
        self.closed
    }

    /// At end-of-data: nothing buffered and nothing more coming.
    pub open spec fn at_end(self) -> bool {
        self.data().len() == 0 && self.is_closed()
    }

    /// An open pipe with nothing buffered yet.
    pub fn new() -> (s: InputStream)
        ensures
            s.data() == Seq::<u8>::empty(),
            !s.is_closed(),
    {
        InputStream { data: Vec::new(), closed: false }
    }

    /// Embedder side: appends bytes for the guest to read.
    pub fn feed(&mut self, bytes: Vec<u8>)
        ensures
            final(self).data() == old(self).data() + bytes@,
            final(self).is_closed() == old(self).is_closed(),
    {
        let mut bytes = bytes;
        self.data.append(&mut bytes);
    }

    /// Embedder side: marks end-of-data.
    pub fn close(&mut self)
        ensures
            final(self).is_closed(),
            final(self).data() == old(self).data(),
    {
        self.closed = true;
    }

    /// Whether at least one byte is buffered.
    pub fn has_data(&self) -> (r: bool)
        ensures
            r == (self.data().len() > 0),
    {
        self.data.len() > 0
    }

    /// The closed flag, as an executable check.
    pub fn closed_flag(&self) -> (r: bool)
        ensures
            r == self.is_closed(),
    {
        self.closed
    }

    /// Returns at most `len` bytes — exactly `min(len, buffered)` for this
    /// pipe — never more. An empty result while the pipe is open is not an
    /// error; at end-of-data the read reports `Closed`.
    pub fn read(&mut self, len: usize) -> (r: StreamResult<Vec<u8>>)
        ensures
            final(self).is_closed() == old(self).is_closed(),
            match r {
                Ok(v) => {
                    &&& !old(self).at_end()
                    &&& v@.len() == vstd::math::min(len as int, old(self).data().len() as int)
                    &&& v@ == old(self).data().take(v@.len() as int)
                    &&& final(self).data() == old(self).data().skip(v@.len() as int)
                }
                Err(e) => {
                    &&& old(self).at_end()
                    &&& (e matches StreamError::Closed)
                    &&& final(self).data() == old(self).data()
                }
            },
    {
        if self.data.len() == 0 && self.closed {
            return Err(StreamError::Closed);
        }
        let k = if len < self.data.len() { len } else { self.data.len() };
        let mut tail = self.data.split_off(k);
        core::mem::swap(&mut self.data, &mut tail);
        proof {
            assert(tail@ == old(self).data().take(k as int));
            assert(self.data@ == old(self).data().skip(k as int));
        }
        Ok(tail)
    }

    /// Discards up to `len` bytes and reports how many were discarded.
    pub fn skip(&mut self, len: usize) -> (r: StreamResult<usize>)
        ensures
            final(self).is_closed() == old(self).is_closed(),
            match r {
                Ok(n) => {
                    &&& !old(self).at_end()
                    &&& n == vstd::math::min(len as int, old(self).data().len() as int)
                    &&& final(self).data() == old(self).data().skip(n as int)
                }
                Err(e) => {
                    &&& old(self).at_end()
                    &&& (e matches StreamError::Closed)
                    &&& final(self).data() == old(self).data()
                }
            },
    {
        let taken = self.read(len)?;
        Ok(taken.len())
    }
}

} // verus!
