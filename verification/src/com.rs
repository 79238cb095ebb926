//! Receive-side handoff channel for the serial device.
//!
//! The device-receive handler is the single producer and mainline code
//! the single consumer of a bounded byte queue. The producer never
//! blocks: when the queue is full the byte is dropped, an accepted loss
//! under burst. The queue itself comes from an outside collection crate;
//! its behaviour enters the proofs only through the contracts on the
//! small trusted wrappers below, stated over the queue's abstract
//! contents.

use vstd::prelude::*;

verus! {

/// IRQ line of the serial device on the I/O controller.
pub const COM1_IRQ: u8 = 0x04;

/// Bytes the receive queue can hold. Its backing store has one slot more:
/// the ring keeps one slot free to tell a full queue from an empty one.
pub const RX_CAPACITY: usize = 256;

/// Declares heapless::spsc::Queue, the outside single-producer
/// single-consumer ring the receive channel is built on, so that it can
/// stand in fields and signatures; the verifier sees nothing inside it.
#[verifier::external_type_specification]
#[verifier::external_body]
#[verifier::reject_recursive_types(T)]
pub struct ExSpscQueue<T, const N: usize>(heapless::spsc::Queue<T, N>);

/// The bytes a receive queue currently holds, oldest first.
pub uninterp spec fn rx_queue_contents(q: heapless::spsc::Queue<u8, 257>) -> Seq<u8>;

/// Relies on heapless::spsc::Queue::new: a fresh queue holds nothing.
#[verifier::external_body]
fn queue_new() -> (q: heapless::spsc::Queue<u8, 257>)
    ensures
        rx_queue_contents(q) == Seq::<u8>::empty(),
{
    heapless::spsc::Queue::new()
}

/// Relies on heapless::spsc::Queue::enqueue: when a slot is free (the
/// store of `N` slots holds at most `N - 1` items) the byte is appended
/// at the tail; on a full queue the byte is handed back and nothing
/// changes.
#[verifier::external_body]
fn queue_enqueue(q: &mut heapless::spsc::Queue<u8, 257>, byte: u8) -> (r: Result<(), u8>)
    ensures
        r == (if rx_queue_contents(*old(q)).len() < RX_CAPACITY {
            Result::<(), u8>::Ok(())
        } else {
            Result::<(), u8>::Err(byte)
        }),
        rx_queue_contents(*final(q)) == (if rx_queue_contents(*old(q)).len() < RX_CAPACITY {
            rx_queue_contents(*old(q)).push(byte)
        } else {
            rx_queue_contents(*old(q))
        }),
{
    q.enqueue(byte)
}

/// Relies on heapless::spsc::Queue::dequeue: removes and returns the
/// oldest item, or returns nothing on an empty queue.
#[verifier::external_body]
fn queue_dequeue(q: &mut heapless::spsc::Queue<u8, 257>) -> (r: Option<u8>)
    ensures
        r == (if rx_queue_contents(*old(q)).len() == 0 {
            Option::<u8>::None
        } else {
            Option::<u8>::Some(rx_queue_contents(*old(q))[0])
        }),
        rx_queue_contents(*final(q)) == (if rx_queue_contents(*old(q)).len() == 0 {
            rx_queue_contents(*old(q))
        } else {
            rx_queue_contents(*old(q)).drop_first()
        }),
{
    q.dequeue()
}

/// What a sequence of enqueue attempts leaves in a queue of capacity
/// `cap` that held `c`: each byte in turn is appended if a slot is free,
/// else dropped.
pub open spec fn enqueue_all(c: Seq<u8>, bytes: Seq<u8>, cap: nat) -> Seq<u8>
    decreases bytes.len(),
{
    if bytes.len() == 0 {
        c
    } else {
        enqueue_all(
            if c.len() < cap {
                c.push(bytes[0])
            } else {
                c
            },
            bytes.drop_first(),
            cap,
        )
    }
}

/// The bounded single-producer/single-consumer receive queue. Its view is
/// the byte sequence it holds, oldest first; it never holds more than
/// [`RX_CAPACITY`] bytes.
pub struct RxQueue {
    q: heapless::spsc::Queue<u8, 257>,
}

impl View for RxQueue {
    type V = Seq<u8>;

    closed spec fn view(&self) -> Seq<u8> {
        rx_queue_contents(self.q)
    }
}

impl RxQueue {
    /// The queue's bound is respected. Established by the constructor and
    /// kept by every operation.
    pub open spec fn well_formed(&self) -> bool {
        self@.len() <= RX_CAPACITY
    }

    /// An empty receive queue.
    pub fn new() -> (r: RxQueue)
        ensures
            r@ == Seq::<u8>::empty(),
            r.well_formed(),
    {
        RxQueue { q: queue_new() }
    }

    /// Producer side: append one byte if a slot is free, else drop it.
    /// Returns whether the byte was accepted. Never blocks.
    pub fn enqueue(&mut self, byte: u8) -> (accepted: bool)
        requires
            old(self).well_formed(),
        ensures
            final(self).well_formed(),
            accepted == (old(self)@.len() < RX_CAPACITY),
            accepted ==> final(self)@ == old(self)@.push(byte),
            !accepted ==> final(self)@ == old(self)@,
    {
        queue_enqueue(&mut self.q, byte).is_ok()
    }

    /// Producer side: attempt to append a whole burst, dropping what does
    /// not fit.
    pub fn enqueue_burst(&mut self, bytes: &Vec<u8>)
        requires
            old(self).well_formed(),
        ensures
            final(self).well_formed(),
            final(self)@ == enqueue_all(old(self)@, bytes@, RX_CAPACITY as nat),
    {
        let ghost start = self@;
        let mut i: usize = 0;
        while i < bytes.len()
            invariant
                i <= bytes@.len(),
                self.well_formed(),
                self@ == enqueue_all(start, bytes@.take(i as int), RX_CAPACITY as nat),
            decreases bytes@.len() - i,
        {
            let _ = self.enqueue(bytes[i]);
            i = i + 1;
            proof {
                assert(bytes@.take(i as int).drop_last() =~= bytes@.take(i - 1));
                lemma_enqueue_all_snoc(start, bytes@.take(i as int), RX_CAPACITY as nat);
            }
        }
        proof {
            assert(bytes@.take(bytes@.len() as int) =~= bytes@);
        }
    }

    /// Consumer side: remove and return the oldest byte, if any.
    pub fn dequeue(&mut self) -> (r: Option<u8>)
        requires
            old(self).well_formed(),
        ensures
            final(self).well_formed(),
            old(self)@.len() == 0 ==> r == None::<u8> && final(self)@ == old(self)@,
            old(self)@.len() > 0 ==> r == Some(old(self)@[0]) && final(self)@ == old(
                self,
            )@.drop_first(),
    {
        queue_dequeue(&mut self.q)
    }

    /// Consumer side: take every held byte out, oldest first.
    pub fn drain(&mut self) -> (r: Vec<u8>)
        requires
            old(self).well_formed(),
        ensures
            final(self).well_formed(),
            r@ == old(self)@,
            final(self)@.len() == 0,
    {
        let ghost start = self@;
        let mut r: Vec<u8> = Vec::new();
        loop
            invariant
                self.well_formed(),
                r@ + self@ == start,
            ensures
                r@ == start,
                self@.len() == 0,
                self.well_formed(),
            decreases self@.len(),
        {
            match self.dequeue() {
                Some(byte) => {
                    r.push(byte);
                    proof {
                        assert(r@ + self@ =~= start);
                    }
                },
                None => {
                    proof {
                        assert(r@ =~= start);
                    }
                    break ;
                },
            }
        }
        r
    }
}

/// Attempting one more byte after a burst is the same as attempting the
/// longer burst at once.
proof fn lemma_enqueue_all_snoc(c: Seq<u8>, bytes: Seq<u8>, cap: nat)
    requires
        bytes.len() > 0,
    ensures
        enqueue_all(c, bytes, cap) == ({
            let held = enqueue_all(c, bytes.drop_last(), cap);
            if held.len() < cap {
                held.push(bytes.last())
            } else {
                held
            }
        }),
    decreases bytes.len(),
{
    let stepped = if c.len() < cap {
        c.push(bytes[0])
    } else {
        c
    };
    assert(enqueue_all(c, bytes, cap) == enqueue_all(stepped, bytes.drop_first(), cap));
    if bytes.len() == 1 {
        assert(bytes.drop_last() =~= Seq::<u8>::empty());
        assert(bytes.drop_first() =~= Seq::<u8>::empty());
        assert(enqueue_all(stepped, bytes.drop_first(), cap) == stepped);
        assert(enqueue_all(c, bytes.drop_last(), cap) == c);
        assert(bytes.last() == bytes[0]);
    } else {
        lemma_enqueue_all_snoc(stepped, bytes.drop_first(), cap);
        assert(bytes.drop_first().drop_last() =~= bytes.drop_last().drop_first());
        assert(bytes.drop_first().last() == bytes.last());
        assert(bytes.drop_last().len() > 0);
        assert(bytes.drop_last()[0] == bytes[0]);
        assert(enqueue_all(c, bytes.drop_last(), cap) == enqueue_all(
            stepped,
            bytes.drop_last().drop_first(),
            cap,
        ));
    }
}

/// Law: filling a queue that holds `c` with a burst keeps FIFO order and
/// drops exactly the overflow — the whole burst is appended when it fits,
/// else its earliest bytes up to the free room, and never more than `cap`
/// bytes are held.
pub proof fn lemma_burst_fifo(c: Seq<u8>, bytes: Seq<u8>, cap: nat)
    requires
        c.len() <= cap,
    ensures
        c.len() + bytes.len() <= cap ==> enqueue_all(c, bytes, cap) == c + bytes,
        c.len() + bytes.len() > cap ==> enqueue_all(c, bytes, cap) == c + bytes.take(
            cap - c.len(),
        ),
        enqueue_all(c, bytes, cap).len() <= cap,
    decreases bytes.len(),
{
    if bytes.len() == 0 {
        assert(c + bytes =~= c);
    } else {
        if c.len() < cap {
            lemma_burst_fifo(c.push(bytes[0]), bytes.drop_first(), cap);
            if c.len() + bytes.len() <= cap {
                assert(c.push(bytes[0]) + bytes.drop_first() =~= c + bytes);
            } else {
                assert(c.push(bytes[0]) + bytes.drop_first().take(cap - c.len() - 1) =~= c
                    + bytes.take(cap - c.len()));
            }
        } else {
            lemma_burst_fifo(c, bytes.drop_first(), cap);
            assert(c + bytes.drop_first().take(0) =~= c + bytes.take(0));
        }
    }
}

/// Law: enqueuing `bytes` into an empty queue and then draining it in
/// full yields exactly `bytes` in first-in-first-out order when they fit,
/// and exactly the earliest `cap` of them when they do not.
pub proof fn lemma_ring_buffer_round_trip(bytes: Seq<u8>, cap: nat)
    ensures
        bytes.len() <= cap ==> enqueue_all(Seq::<u8>::empty(), bytes, cap) == bytes,
        bytes.len() > cap ==> enqueue_all(Seq::<u8>::empty(), bytes, cap) == bytes.take(cap as int),
{
    lemma_burst_fifo(Seq::<u8>::empty(), bytes, cap);
    if bytes.len() <= cap {
        assert(Seq::<u8>::empty() + bytes =~= bytes);
    } else {
        assert(Seq::<u8>::empty() + bytes.take(cap as int) =~= bytes.take(cap as int));
    }
}

} // verus!
