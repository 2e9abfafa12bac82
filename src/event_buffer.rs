//! A bounded, reusable buffer of edge events.

use vstd::prelude::*;

use crate::edge_event::{edge_event_at, EdgeEvent};
use crate::uapi::{errno_invalid, errno_io, EDGE_EVENT_RECORD_SIZE};
use crate::{Error, Operation};

verus! {

/// Capacity of a buffer created with capacity 0.
pub const DEFAULT_CAPACITY: u32 = 64;

/// The largest capacity of a buffer.
pub const MAX_CAPACITY: u32 = 1024;

/// The capacity a buffer asked for with `requested` gets.
pub open spec fn clamped_capacity(requested: u32) -> u32 {
    if requested == 0 {
        DEFAULT_CAPACITY
    } else if requested > MAX_CAPACITY {
        MAX_CAPACITY
    } else {
        requested
    }
}

/// The smaller of two numbers.
pub open spec fn min(a: int, b: int) -> int {
    if a <= b {
        a
    } else {
        b
    }
}

/// The edge events that the first `n` records of `b` hold, in order.
pub open spec fn edge_events_of(b: Seq<u8>, n: int) -> Seq<EdgeEvent> {
    Seq::new(n as nat, |i: int| edge_event_at(b, i * EDGE_EVENT_RECORD_SIZE))
}

/// Reading the events of a queue of records in two steps, the first `n1`
/// and then the next `n2` from what is left, gives the same events in the
/// same order as reading all `n1 + n2` at once: the events a read leaves in
/// the queue are those a later read retrieves.
pub proof fn lemma_read_in_two_steps(q: Seq<u8>, n1: int, n2: int)
    requires
        0 <= n1,
        0 <= n2,
        (n1 + n2) * EDGE_EVENT_RECORD_SIZE <= q.len(),
    ensures
        edge_events_of(q, n1) + edge_events_of(q.skip(n1 * EDGE_EVENT_RECORD_SIZE), n2)
            == edge_events_of(q, n1 + n2),
{
    let rest = q.skip(n1 * EDGE_EVENT_RECORD_SIZE);
    assert forall|i: int| 0 <= i < n2 implies #[trigger] edge_events_of(rest, n2)[i]
        == edge_events_of(q, n1 + n2)[n1 + i] by {
        assert((n1 + i) * 48 == n1 * 48 + i * 48) by (nonlinear_arith);
        assert((n1 + i + 1) * 48 == n1 * 48 + i * 48 + 48) by (nonlinear_arith);
        assert((n1 + i + 1) * 48 <= (n1 + n2) * 48) by (nonlinear_arith)
            requires
                i < n2,
        ;
        assert(n1 * 48 >= 0) by (nonlinear_arith)
            requires
                n1 >= 0,
        ;
        assert(i * 48 >= 0) by (nonlinear_arith)
            requires
                i >= 0,
        ;
        let b = i * 48;
        let a = n1 * 48;
        assert forall|k: int| 0 <= k < 48 implies #[trigger] rest[b + k] == q[a + b + k] by {}
    }
    assert(edge_events_of(q, n1) + edge_events_of(rest, n2) =~= edge_events_of(q, n1 + n2));
}

/// Line edge events buffer
///
/// Holds up to its capacity of events after each read; each read replaces
/// what it held.
#[derive(Debug)]
pub struct EdgeEventBuffer {
    capacity: u32,
    events: Vec<EdgeEvent>,
}

impl EdgeEventBuffer {
    #[verifier::type_invariant]
    spec fn inv(self) -> bool {
        &&& 1 <= self.capacity <= MAX_CAPACITY
        &&& self.events@.len() <= self.capacity
    }

    /// How many events the buffer can hold.
    pub closed spec fn capacity_spec(self) -> u32 {
        self.capacity
    }

    /// The events the buffer holds, oldest first.
    pub closed spec fn events_spec(self) -> Seq<EdgeEvent> {
        self.events@
    }

    /// Create a new edge event buffer.
    ///
    /// If capacity equals 0, it will be set to a default value of 64. If
    /// capacity is larger than 1024, it will be limited to 1024.
    pub fn new(capacity: u32) -> (r: Result<Self, Error>)
        ensures
            r matches Ok(b) && b.capacity_spec() == clamped_capacity(capacity)
                && b.events_spec().len() == 0,
    {
        let c = if capacity == 0 {
            DEFAULT_CAPACITY
        } else if capacity > MAX_CAPACITY {
            MAX_CAPACITY
        } else {
            capacity
        };
        Ok(EdgeEventBuffer { capacity: c, events: Vec::new() })
    }

    /// Get the capacity of the event buffer.
    pub fn get_capacity(&self) -> (r: u32)
        ensures
            r == self.capacity_spec(),
            1 <= r <= MAX_CAPACITY,
    {
        proof {
            use_type_invariant(self);
        }
        self.capacity
    }

    /// Get the number of events the buffer stores.
    pub fn get_num_events(&self) -> (r: u32)
        ensures
            r == self.events_spec().len(),
            r <= self.capacity_spec(),
    {
        proof {
            use_type_invariant(self);
        }
        self.events.len() as u32
    }

    /// Read an event stored in the buffer. Fails if `index` is not below the
    /// number of events held.
    pub fn get_event(&self, index: u64) -> (r: Result<EdgeEvent, Error>)
        ensures
            index < self.events_spec().len() ==> r == Ok::<EdgeEvent, Error>(
                self.events_spec()[index as int],
            ),
            index >= self.events_spec().len() ==> r == Err::<EdgeEvent, Error>(
                Error::OperationFailed(Operation::BufferGetEvent, 22),
            ),
    {
        proof {
            use_type_invariant(self);
        }
        if index < self.events.len() as u64 {
            Ok(self.events[index as usize])
        } else {
            Err(Error::OperationFailed(Operation::BufferGetEvent, errno_invalid()))
        }
    }

    /// Make a copy of an edge event stored in the buffer, which stays valid
    /// after the buffer is reused or dropped. Fails as `get_event` does.
    pub fn get_event_copy(&self, index: u64) -> (r: Result<EdgeEvent, Error>)
        ensures
            index < self.events_spec().len() ==> r == Ok::<EdgeEvent, Error>(
                self.events_spec()[index as int],
            ),
            index >= self.events_spec().len() ==> r == Err::<EdgeEvent, Error>(
                Error::OperationFailed(Operation::BufferGetEvent, 22),
            ),
    {
        self.get_event(index)
    }

    /// How many records a read asking for `max_events` takes from the kernel:
    /// never more than the capacity.
    pub fn records_to_read(&self, max_events: u32) -> (r: usize)
        ensures
            r == min(max_events as int, self.capacity_spec() as int),
    {
        if max_events > self.capacity {
            self.capacity as usize
        } else {
            max_events as usize
        }
    }

    /// Replace the buffer's contents with the events of the records read from
    /// the kernel, oldest first, keeping at most `max_events` and at most the
    /// capacity; returns how many were kept. Fails with an I/O error if
    /// `records` holds no whole record.
    pub fn fill(&mut self, records: &[u8], max_events: u32) -> (r: Result<u32, Error>)
        ensures
            records@.len() < EDGE_EVENT_RECORD_SIZE ==> r == Err::<u32, Error>(
                Error::OperationFailed(Operation::ReadEdgeEvent, 5),
            ) && final(self).events_spec() == old(self).events_spec(),
            records@.len() >= EDGE_EVENT_RECORD_SIZE ==> r == Ok::<u32, Error>(
                final(self).events_spec().len() as u32,
            ) && final(self).events_spec() == edge_events_of(
                records@,
                min(
                    min(records@.len() as int / EDGE_EVENT_RECORD_SIZE as int, max_events as int),
                    old(self).capacity_spec() as int,
                ),
            ),
            records@.len() >= EDGE_EVENT_RECORD_SIZE ==> final(self).events_spec().len() <= max_events,
            final(self).capacity_spec() == old(self).capacity_spec(),
            final(self).events_spec().len() <= final(self).capacity_spec(),
    {
        proof {
            use_type_invariant(&*self);
        }
        if records.len() < EDGE_EVENT_RECORD_SIZE {
            return Err(Error::OperationFailed(Operation::ReadEdgeEvent, errno_io()));
        }
        let whole = records.len() / EDGE_EVENT_RECORD_SIZE;
        let mut n = self.records_to_read(max_events);
        if whole < n {
            n = whole;
        }
        let mut events: Vec<EdgeEvent> = Vec::new();
        let mut i: usize = 0;
        while i < n
            invariant
                n <= whole,
                records@.len() <= usize::MAX,
                whole == records@.len() as int / EDGE_EVENT_RECORD_SIZE as int,
                i <= n,
                events@ == edge_events_of(records@, i as int),
            decreases n - i,
        {
            proof {
                assert(i * EDGE_EVENT_RECORD_SIZE + EDGE_EVENT_RECORD_SIZE <= records@.len());
                assert((i + 1) * EDGE_EVENT_RECORD_SIZE <= whole * EDGE_EVENT_RECORD_SIZE) by (
                nonlinear_arith)
                    requires
                        i + 1 <= whole,
                ;
                assert(whole * EDGE_EVENT_RECORD_SIZE <= records@.len()) by (nonlinear_arith)
                    requires
                        whole == records@.len() / 48,
                ;
            }
            events.push(EdgeEvent::from_record(records, i * EDGE_EVENT_RECORD_SIZE));
            i = i + 1;
            assert(events@ =~= edge_events_of(records@, i as int));
        }
        self.events = events;
        Ok(n as u32)
    }
}

} // verus!
