//! Clock subscriptions: deadlines as pollable resources.
//!
//! A subscription to a duration or an absolute instant becomes a deadline
//! resource wrapped by a pollable. A requested duration of zero resolves
//! immediately; a deadline beyond the representable range never fires (the
//! pollable waits forever rather than erroring).

use vstd::prelude::*;
use crate::errors::TableError;
use crate::http_types::Duration;
use crate::poll::{subscribe, spec_pollable_ready, Resource};
use crate::table::Table;

verus! {

/// A wall-clock instant: whole seconds since the epoch plus the
/// sub-second remainder in nanoseconds.
#[derive(Debug, Clone, Copy, PartialEq, Eq, Structural)]
pub struct Datetime {
    pub seconds: u64,
    pub nanoseconds: u32,
}

impl Datetime {
    /// The remainder really is a remainder.
    pub open spec fn wf(self) -> bool {
        self.nanoseconds < 1_000_000_000
    }
}

/// Splits a span since the epoch, given in nanoseconds, into a datetime.
/// Fails only when the whole-second count exceeds the representable
/// range.
pub fn datetime_from_nanos(total: u128) -> (r: Option<Datetime>)
    ensures
        match r {
            Some(d) => {
                &&& total / 1_000_000_000 <= u64::MAX
                &&& d.seconds == total / 1_000_000_000
                &&& d.nanoseconds == total % 1_000_000_000
                &&& d.wf()
            }
            None => total / 1_000_000_000 > u64::MAX,
        },
{
    let secs = total / 1_000_000_000;
    if secs > u64::MAX as u128 {
        return None;
    }
    let nanos = total % 1_000_000_000;
    Some(Datetime { seconds: secs as u64, nanoseconds: nanos as u32 })
}

/// A timer resource: already expired, expiring at a monotonic instant (in
/// nanoseconds), or never expiring at all.
pub enum Deadline {
    Past,
    Instant(u64),
    Never,
}

impl Deadline {
    /// Whether the deadline has been reached at monotonic time `now`.
    pub open spec fn is_ready_at(self, now: u64) -> bool {
        match self {
            Deadline::Past => true,
            Deadline::Instant(t) => now >= t,
            Deadline::Never => false,
        }
    }
}

/// Subscribes to a relative duration from monotonic time `now`: a zero
/// duration yields a pollable that is ready at every instant; a duration
/// whose deadline fits yields one ready exactly from that deadline on; a
/// deadline past the representable range yields one that never fires.
/// Fails only when the table is within one handle of exhaustion (the
/// subscription needs two); no guest-visible handle is disturbed by a
/// failure, though an attempt that fails at the second step leaves its
/// freshly created deadline entry behind, live but referenced by nothing.
pub fn subscribe_to_duration(table: &mut Table<Resource>, duration: Duration, now: u64) -> (r:
    Result<u32, TableError>)
    requires
        old(table).wf(),
    ensures
        final(table).wf(),
        match r {
            Ok(p) => {
                &&& final(table).live(p)
                &&& !old(table).live(p)
                &&& final(table).num_slots() == old(table).num_slots() + 2
                &&& forall|c: u32| old(table).live(c)
                        ==> final(table).live(c)
                            && final(table).value_of(c) == old(table).value_of(c)
                            && final(table).parent_of(c) == old(table).parent_of(c)
                &&& (duration.nanos == 0 ==> forall|n2: u64|
                        spec_pollable_ready(*final(table), p, n2))
                &&& (duration.nanos > 0 && now + duration.nanos <= u64::MAX ==> forall|n2: u64|
                        spec_pollable_ready(*final(table), p, n2)
                            == (n2 >= now + duration.nanos))
                &&& (now + duration.nanos > u64::MAX ==> forall|n2: u64|
                        !spec_pollable_ready(*final(table), p, n2))
            }
            Err(e) => {
                &&& e == TableError::Full
                &&& old(table).num_slots() + 1 >= u32::MAX as int
                &&& (forall|c: u32| old(table).live(c)
                        ==> final(table).live(c)
                            && final(table).value_of(c) == old(table).value_of(c)
                            && final(table).parent_of(c) == old(table).parent_of(c))
            },
        },
{
    let sleep: Result<u32, TableError> = if duration.nanos == 0 {
        table.push(Resource::Deadline(Deadline::Past))
    } else if duration.nanos <= u64::MAX - now {
        table.push(Resource::Deadline(Deadline::Instant(now + duration.nanos)))
    } else {
        // The deadline cannot be represented: wait forever rather than
        // fail the subscription.
        table.push(Resource::Deadline(Deadline::Never))
    };
    let sleep = match sleep {
        Ok(h) => h,
        Err(e) => {
            return Err(TableError::Full);
        }
    };
    let suspend = if duration.nanos == 0 {
        None
    } else if duration.nanos <= u64::MAX - now {
        Some(now + duration.nanos)
    } else {
        None
    };
    match subscribe(table, sleep, suspend) {
        Ok(p) => Ok(p),
        Err(e) => Err(TableError::Full),
    }
}

/// Subscribes to an absolute monotonic instant: an instant already
/// reached behaves as a zero duration and is immediately ready.
pub fn subscribe_instant(table: &mut Table<Resource>, when: u64, now: u64) -> (r: Result<
    u32,
    TableError,
>)
    requires
        old(table).wf(),
    ensures
        final(table).wf(),
        match r {
            Ok(p) => {
                &&& final(table).live(p)
                &&& !old(table).live(p)
                &&& final(table).num_slots() == old(table).num_slots() + 2
                &&& forall|c: u32| old(table).live(c)
                        ==> final(table).live(c)
                            && final(table).value_of(c) == old(table).value_of(c)
                            && final(table).parent_of(c) == old(table).parent_of(c)
                &&& (when <= now ==> forall|n2: u64| spec_pollable_ready(*final(table), p, n2))
                &&& (when > now ==> forall|n2: u64|
                        spec_pollable_ready(*final(table), p, n2) == (n2 >= when))
            }
            Err(e) => {
                &&& e == TableError::Full
                &&& old(table).num_slots() + 1 >= u32::MAX as int
                &&& (forall|c: u32| old(table).live(c)
                        ==> final(table).live(c)
                            && final(table).value_of(c) == old(table).value_of(c)
                            && final(table).parent_of(c) == old(table).parent_of(c))
            },
        },
{
    let duration = if when > now {
        Duration { nanos: when - now }
    } else {
        Duration { nanos: 0 }
    };
    subscribe_to_duration(table, duration, now)
}

} // verus!
