//! The dispatch pipeline's data side: a bounded multi-producer
//! multi-consumer queue of packets with a drop counter, and the decision a
//! worker takes on each turn of its loop.
//!
//! Backpressure is fail-fast: a push onto a full queue drops the packet
//! and counts it, and never blocks the producing connection. Workers pop;
//! an empty queue tells a worker to wait for the next wake, and a cleared
//! running flag tells it to exit whatever the queue holds.

use vstd::prelude::*;
use crossbeam_queue::ArrayQueue;
use crate::errors::QueueError;
use crate::session::{Packet, PacketView};

verus! {

#[verifier::external_type_specification]
#[verifier::external_body]
#[verifier::reject_recursive_types(T)]
pub struct ExArrayQueue<T>(ArrayQueue<T>);

/// What a packet queue holds, oldest first. Named so that the pipeline's
/// contracts can speak of the queue's contents.
pub uninterp spec fn queue_contents(q: ArrayQueue<Packet>) -> Seq<PacketView>;

/// The bound a packet queue was created with.
pub uninterp spec fn queue_capacity(q: ArrayQueue<Packet>) -> usize;

/// Relies on crossbeam_queue::ArrayQueue::new: a fresh queue with the
/// given bound holds nothing. The call panics on a zero capacity, so that
/// is required away here.
#[verifier::external_body]
fn packet_queue_new(capacity: usize) -> (q: ArrayQueue<Packet>)
    requires
        0 < capacity <= 65535,
    ensures
        queue_contents(q) == Seq::<PacketView>::empty(),
        queue_capacity(q) == capacity,
{
    ArrayQueue::new(capacity)
}

/// Relies on crossbeam_queue::ArrayQueue::push: the value enters at the
/// back when the queue is below its bound, and comes back as the error
/// when the queue is full.
#[verifier::external_body]
fn packet_queue_push(q: &mut ArrayQueue<Packet>, packet: Packet) -> (out: Result<(), Packet>)
    ensures
        queue_capacity(*final(q)) == queue_capacity(*old(q)),
        queue_contents(*old(q)).len() < queue_capacity(*old(q)) ==> (out matches Ok(()) && (
        queue_contents(*final(q)) == queue_contents(*old(q)).push(packet@))),
        queue_contents(*old(q)).len() >= queue_capacity(*old(q)) ==> (out matches Err(back) && back
            == packet && queue_contents(*final(q)) == queue_contents(*old(q))),
{
    q.push(packet)
}

/// Relies on crossbeam_queue::ArrayQueue::pop: the oldest value leaves the
/// queue, or `None` when the queue is empty.
#[verifier::external_body]
fn packet_queue_pop(q: &mut ArrayQueue<Packet>) -> (out: Option<Packet>)
    ensures
        queue_capacity(*final(q)) == queue_capacity(*old(q)),
        queue_contents(*old(q)).len() == 0 ==> out is None && queue_contents(*final(q))
            == queue_contents(*old(q)),
        queue_contents(*old(q)).len() > 0 ==> (out matches Some(packet) && packet@
            == queue_contents(*old(q))[0] && queue_contents(*final(q)) == queue_contents(
            *old(q),
        ).drop_first()),
{
    q.pop()
}

/// Relies on crossbeam_queue::ArrayQueue::len.
#[verifier::external_body]
fn packet_queue_len(q: &ArrayQueue<Packet>) -> (count: usize)
    ensures
        count == queue_contents(*q).len(),
{
    q.len()
}

/// Relies on crossbeam_queue::ArrayQueue::capacity.
#[verifier::external_body]
fn packet_queue_capacity(q: &ArrayQueue<Packet>) -> (bound: usize)
    ensures
        bound == queue_capacity(*q),
{
    q.capacity()
}

/// What one enqueue attempt does to a queue at its bound: below the bound
/// the packet enters at the back; at the bound the queue keeps what it has
/// and the drop counter moves up, saturating only at its type's end.
pub open spec fn spec_try_enqueue(
    contents: Seq<PacketView>,
    capacity: nat,
    dropped: u64,
    packet: PacketView,
) -> (Seq<PacketView>, u64) {
    if contents.len() < capacity {
        (contents.push(packet), dropped)
    } else {
        (contents, if dropped < u64::MAX {
            (dropped + 1) as u64
        } else {
            dropped
        })
    }
}

/// What a whole burst of enqueue attempts does, first packet first.
pub open spec fn spec_enqueue_burst(
    contents: Seq<PacketView>,
    capacity: nat,
    dropped: u64,
    packets: Seq<PacketView>,
) -> (Seq<PacketView>, u64)
    decreases packets.len(),
{
    if packets.len() == 0 {
        (contents, dropped)
    } else {
        let (next_contents, next_dropped) = spec_try_enqueue(
            contents,
            capacity,
            dropped,
            packets.first(),
        );
        spec_enqueue_burst(next_contents, capacity, next_dropped, packets.drop_first())
    }
}

/// Law: pushing a burst of packets at a queue fills it to its bound and no
/// further. Exactly the first packets up to the bound stay enqueued, in
/// arrival order; every later push is dropped and counted, one count per
/// drop, and no push ever blocks or reorders what the queue holds.
pub proof fn lemma_burst_fills_to_capacity(
    contents: Seq<PacketView>,
    capacity: nat,
    dropped: u64,
    packets: Seq<PacketView>,
)
    requires
        contents.len() <= capacity,
        dropped + packets.len() <= u64::MAX,
    ensures
        ({
            let (full, counted) = spec_enqueue_burst(contents, capacity, dropped, packets);
            let total = contents.len() + packets.len();
            &&& full.len() == if total <= capacity {
                total as int
            } else {
                capacity as int
            }
            &&& full == (contents + packets).take(full.len() as int)
            &&& counted == dropped + if total <= capacity {
                0int
            } else {
                total - capacity
            }
        }),
    decreases packets.len(),
{
    let (full, counted) = spec_enqueue_burst(contents, capacity, dropped, packets);
    if packets.len() == 0 {
        assert(full == (contents + packets).take(full.len() as int)) by {
            assert((contents + packets).take(contents.len() as int) =~= contents);
        }
    } else {
        let first = packets.first();
        let rest = packets.drop_first();
        if contents.len() < capacity {
            lemma_burst_fills_to_capacity(contents.push(first), capacity, dropped, rest);
            assert(contents.push(first) + rest =~= contents + packets);
        } else {
            let bumped = (dropped + 1) as u64;
            lemma_burst_fills_to_capacity(contents, capacity, bumped, rest);
            assert(contents.len() == capacity);
            assert((contents + rest).take(capacity as int) =~= (contents + packets).take(
                capacity as int,
            ));
        }
    }
}

/// The bounded work queue between the connection handlers, which produce
/// packets, and the worker pool, which drains them — plus the count of
/// packets dropped against a full queue.
pub struct DispatchQueue {
    queue: ArrayQueue<Packet>,
    dropped: u64,
}

impl DispatchQueue {
    /// What the queue holds, oldest first.
    pub closed spec fn contents(self) -> Seq<PacketView> {
        queue_contents(self.queue)
    }

    /// The bound the queue was created with.
    pub closed spec fn capacity(self) -> usize {
        queue_capacity(self.queue)
    }

    /// How many packets were dropped against the full queue.
    pub closed spec fn dropped_count(self) -> u64 {
        self.dropped
    }

    /// A fresh queue with the configured bound, holding nothing, with
    /// nothing dropped yet. The bound is the configured
    /// `packet_buffer_size`, which must not be zero.
    pub fn new(capacity: u16) -> (queue: DispatchQueue)
        requires
            capacity > 0,
        ensures
            queue.contents() == Seq::<PacketView>::empty(),
            queue.capacity() == capacity,
            queue.dropped_count() == 0,
    {
        DispatchQueue { queue: packet_queue_new(capacity as usize), dropped: 0 }
    }

    /// Offers one packet to the queue, exactly as `spec_try_enqueue` says:
    /// it enters at the back, or — against a full queue — it is dropped and
    /// counted, with `QueueFull`, and the caller is never blocked.
    pub fn try_enqueue(&mut self, packet: Packet) -> (out: Result<(), QueueError>)
        ensures
            final(self).capacity() == old(self).capacity(),
            (final(self).contents(), final(self).dropped_count()) == spec_try_enqueue(
                old(self).contents(),
                old(self).capacity() as nat,
                old(self).dropped_count(),
                packet@,
            ),
            out == Ok::<(), QueueError>(()) <==> old(self).contents().len() < old(
                self,
            ).capacity(),
            out matches Err(e) ==> e == QueueError::QueueFull,
    {
        match packet_queue_push(&mut self.queue, packet) {
            Ok(()) => Ok(()),
            Err(rejected) => {
                if self.dropped < u64::MAX {
                    self.dropped = self.dropped + 1;
                }
                Err(QueueError::QueueFull)
            },
        }
    }

    /// Takes the oldest packet, or nothing from an empty queue. A worker
    /// that gets nothing waits for the next wake; the blocking itself
    /// belongs to the runtime around the library.
    pub fn dequeue(&mut self) -> (out: Option<Packet>)
        ensures
            final(self).capacity() == old(self).capacity(),
            final(self).dropped_count() == old(self).dropped_count(),
            old(self).contents().len() == 0 ==> out is None && final(self).contents() == old(
                self,
            ).contents(),
            old(self).contents().len() > 0 ==> (out matches Some(packet) && packet@ == old(
                self,
            ).contents()[0] && final(self).contents() == old(self).contents().drop_first()),
    {
        packet_queue_pop(&mut self.queue)
    }

    /// How many packets wait in the queue.
    pub fn len(&self) -> (count: usize)
        ensures
            count == self.contents().len(),
    {
        packet_queue_len(&self.queue)
    }

    /// The bound the queue was created with.
    pub fn capacity_limit(&self) -> (bound: usize)
        ensures
            bound == self.capacity(),
    {
        packet_queue_capacity(&self.queue)
    }

    /// How many packets were dropped against the full queue.
    pub fn dropped_packets(&self) -> (count: u64)
        ensures
            count == self.dropped_count(),
    {
        self.dropped
    }
}

/// What a worker does with one turn of its loop.
pub enum WorkerStep {
    /// The running flag is cleared: leave the loop, whatever the queue
    /// still holds. Shutdown must wake every blocked worker so each one
    /// reaches this decision.
    Exit,
    /// Nothing to do: block until the next enqueue or the shutdown
    /// broadcast wakes the worker.
    Wait,
    /// One packet to process against the broker state.
    Process(Packet),
}

/// The decision a worker takes from the running flag and its pop: stop
/// when the flag is cleared, wait when the queue gave nothing, otherwise
/// process the popped packet.
pub fn worker_step(running: bool, popped: Option<Packet>) -> (step: WorkerStep)
    ensures
        !running ==> step == WorkerStep::Exit,
        running && popped is None ==> step == WorkerStep::Wait,
        running ==> (popped matches Some(packet) ==> step == WorkerStep::Process(packet)),
{
    if !running {
        WorkerStep::Exit
    } else {
        match popped {
            None => WorkerStep::Wait,
            Some(packet) => WorkerStep::Process(packet),
        }
    }
}

} // verus!
