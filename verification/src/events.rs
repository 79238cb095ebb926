//! Timer-to-mainline handoff: the event counters.
//!
//! The timer handler increments a monotonically growing tick count and,
//! on every threshold crossing, a separate pending-deferred-work count.
//! Mainline code drains the pending count with a single swap-to-zero.
//! The laws at the end show that no tick and no crossing is ever lost or
//! double-counted, however drains interleave with ticks.

use vstd::prelude::*;

verus! {

/// Mathematical state of the counters.
pub struct CounterModel {
    /// Ticks delivered so far.
    pub ticks: nat,
    /// Deferred-work units accumulated and not yet drained.
    pub pending: nat,
    /// Every `threshold`-th tick queues one unit of deferred work.
    pub threshold: nat,
}

/// One timer tick: the tick count grows by one, and the pending count by
/// one exactly when the new tick count is a threshold multiple.
pub open spec fn tick_model(m: CounterModel) -> CounterModel {
    CounterModel {
        ticks: m.ticks + 1,
        pending: if (m.ticks + 1) % m.threshold == 0 {
            m.pending + 1
        } else {
            m.pending
        },
        threshold: m.threshold,
    }
}

/// `n` consecutive ticks.
pub open spec fn ticks_model(m: CounterModel, n: nat) -> CounterModel
    decreases n,
{
    if n == 0 {
        m
    } else {
        tick_model(ticks_model(m, (n - 1) as nat))
    }
}

/// One mainline drain: the pending count is swapped to zero.
pub open spec fn drain_model(m: CounterModel) -> CounterModel {
    CounterModel { ticks: m.ticks, pending: 0, threshold: m.threshold }
}

/// The number of threshold multiples among the tick counts
/// `start + 1 ..= start + n`: how often `n` further ticks cross the
/// threshold when `start` ticks have already been delivered.
pub open spec fn crossings(start: nat, n: nat, threshold: nat) -> nat
    decreases n,
{
    if n == 0 {
        0nat
    } else {
        crossings(start, (n - 1) as nat, threshold) + if (start + n) % threshold == 0 {
            1nat
        } else {
            0nat
        }
    }
}

/// The event counters as the handlers and the mainline loop see them.
/// Both increments are single atomic operations on the machine, so on
/// one core a handler and the mainline never observe a half-done update;
/// the model below is therefore exact for every interleaving.
pub struct EventCounters {
    ticks: u64,
    pending: u64,
    threshold: u64,
}

impl View for EventCounters {
    type V = CounterModel;

    closed spec fn view(&self) -> CounterModel {
        CounterModel {
            ticks: self.ticks as nat,
            pending: self.pending as nat,
            threshold: self.threshold as nat,
        }
    }
}

impl EventCounters {
    /// The counters make sense only for a positive threshold.
    pub open spec fn well_formed(&self) -> bool {
        self@.threshold > 0
    }

    /// Fresh counters: nothing delivered, nothing pending.
    pub fn new(threshold: u64) -> (c: EventCounters)
        requires
            threshold > 0,
        ensures
            c.well_formed(),
            c@ == (CounterModel { ticks: 0, pending: 0, threshold: threshold as nat }),
    {
        EventCounters { ticks: 0, pending: 0, threshold }
    }

    /// Interrupt side: record one tick, queueing one unit of deferred
    /// work on a threshold crossing. The counter widths are the only
    /// machine limit.
    pub fn record_tick(&mut self)
        requires
            old(self).well_formed(),
            old(self)@.ticks < u64::MAX,
            old(self)@.pending < u64::MAX,
        ensures
            final(self).well_formed(),
            final(self)@ == tick_model(old(self)@),
    {
        self.ticks = self.ticks + 1;
        if self.ticks % self.threshold == 0 {
            self.pending = self.pending + 1;
        }
    }

    /// Mainline side: take all pending deferred-work units at once,
    /// leaving zero behind — the atomic swap.
    pub fn drain_pending(&mut self) -> (n: u64)
        ensures
            n == old(self)@.pending,
            final(self)@ == drain_model(old(self)@),
            final(self).well_formed() == old(self).well_formed(),
    {
        let n = self.pending;
        self.pending = 0;
        n
    }

    /// The tick count, as mainline diagnostics read it.
    pub fn ticks(&self) -> (t: u64)
        ensures
            t == self@.ticks,
    {
        self.ticks
    }

    /// The pending count, read without draining.
    pub fn pending(&self) -> (p: u64)
        ensures
            p == self@.pending,
    {
        self.pending
    }
}

/// Law: `n` ticks grow the tick count by exactly `n`, whatever else the
/// counters hold — no tick is lost or double-counted.
pub proof fn lemma_ticks_accumulate(m: CounterModel, n: nat)
    ensures
        ticks_model(m, n).ticks == m.ticks + n,
        ticks_model(m, n).threshold == m.threshold,
    decreases n,
{
    if n > 0 {
        lemma_ticks_accumulate(m, (n - 1) as nat);
    }
}

/// Law: `n` ticks queue exactly the threshold crossings among them as
/// deferred work.
pub proof fn lemma_ticks_pending(m: CounterModel, n: nat)
    requires
        m.threshold > 0,
    ensures
        ticks_model(m, n).pending == m.pending + crossings(m.ticks, n, m.threshold),
    decreases n,
{
    if n > 0 {
        lemma_ticks_pending(m, (n - 1) as nat);
        lemma_ticks_accumulate(m, (n - 1) as nat);
    }
}

/// How many multiples of `threshold` lie in `1 ..= m`.
pub open spec fn multiples_upto(m: nat, threshold: nat) -> nat {
    m / threshold
}

/// Dividing by the threshold counts one more multiple exactly when the
/// bound itself is a multiple.
proof fn lemma_quotient_step(m: nat, threshold: nat)
    requires
        threshold > 0,
        m > 0,
    ensures
        m % threshold == 0 ==> m / threshold == (m - 1) as nat / threshold + 1,
        m % threshold != 0 ==> m / threshold == (m - 1) as nat / threshold,
{
    let prev = (m - 1) as nat;
    let q = prev / threshold;
    let r = prev % threshold;
    vstd::arithmetic::div_mod::lemma_fundamental_div_mod(prev as int, threshold as int);
    assert(prev == threshold * q + r);
    assert(q * threshold == threshold * q) by (nonlinear_arith);
    if r == threshold - 1 {
        assert(m == q * threshold + threshold);
        assert((q + 1) * threshold == q * threshold + threshold) by (nonlinear_arith);
        vstd::arithmetic::div_mod::lemma_fundamental_div_mod_converse(
            m as int,
            threshold as int,
            q + 1 as int,
            0,
        );
    } else {
        assert(m == q * threshold + (r + 1));
        vstd::arithmetic::div_mod::lemma_fundamental_div_mod_converse(
            m as int,
            threshold as int,
            q as int,
            r + 1 as int,
        );
    }
}

/// Law: the crossings among `n` ticks after `start` are exactly the
/// difference of the two multiple counts — `floor((start + n) / threshold)
/// - floor(start / threshold)`; in particular, starting at a multiple (or
/// at zero), `n` ticks cross exactly `floor(n / threshold)` times.
pub proof fn lemma_crossings_are_quotients(start: nat, n: nat, threshold: nat)
    requires
        threshold > 0,
    ensures
        crossings(start, n, threshold) + multiples_upto(start, threshold) == multiples_upto(
            start + n,
            threshold,
        ),
    decreases n,
{
    if n > 0 {
        lemma_crossings_are_quotients(start, (n - 1) as nat, threshold);
        lemma_quotient_step(start + n, threshold);
    }
}

/// One step of a counter run: a tick from the interrupt side or a drain
/// from the mainline side.
pub enum CounterEvent {
    Tick,
    Drain,
}

/// The ticks among a sequence of events.
pub open spec fn tick_count(events: Seq<CounterEvent>) -> nat
    decreases events.len(),
{
    if events.len() == 0 {
        0nat
    } else {
        (if events[0] is Tick {
            1nat
        } else {
            0nat
        }) + tick_count(events.drop_first())
    }
}

/// Run a sequence of ticks and drains over the counters, accumulating
/// everything the drains took: the final state and the drained total.
pub open spec fn run_model(m: CounterModel, events: Seq<CounterEvent>) -> (CounterModel, nat)
    decreases events.len(),
{
    if events.len() == 0 {
        (m, 0nat)
    } else {
        let stepped = if events[0] is Tick {
            tick_model(m)
        } else {
            drain_model(m)
        };
        let taken: nat = if events[0] is Drain {
            m.pending
        } else {
            0nat
        };
        let (end, rest) = run_model(stepped, events.drop_first());
        (end, taken + rest)
    }
}

/// Law: over any interleaving of ticks and drains, what the drains took
/// plus what is still pending equals what was pending at the start plus
/// every threshold crossing among the ticks — drains at arbitrary points
/// lose no crossing and count none twice.
pub proof fn lemma_no_crossing_lost(m: CounterModel, events: Seq<CounterEvent>)
    requires
        m.threshold > 0,
    ensures
        ({
            let (end, drained) = run_model(m, events);
            &&& drained + end.pending == m.pending + crossings(
                m.ticks,
                tick_count(events),
                m.threshold,
            )
            &&& end.ticks == m.ticks + tick_count(events)
            &&& end.threshold == m.threshold
        }),
    decreases events.len(),
{
    if events.len() > 0 {
        let rest = events.drop_first();
        if events[0] is Tick {
            lemma_no_crossing_lost(tick_model(m), rest);
            lemma_crossings_chain(m.ticks, tick_count(rest), m.threshold);
        } else {
            lemma_no_crossing_lost(drain_model(m), rest);
        }
    }
}

/// Counting crossings from `start` splits at the first tick.
proof fn lemma_crossings_chain(start: nat, n: nat, threshold: nat)
    requires
        threshold > 0,
    ensures
        crossings(start, n + 1, threshold) == (if (start + 1) % threshold == 0 {
            1nat
        } else {
            0nat
        }) + crossings(start + 1, n, threshold),
    decreases n,
{
    if n == 0 {
        assert(crossings(start, 0nat, threshold) == 0);
        assert(crossings(start + 1, 0nat, threshold) == 0);
        assert(crossings(start, 1, threshold) == crossings(start, 0nat, threshold) + (if (start + 1)
            % threshold == 0 {
            1nat
        } else {
            0nat
        }));
    } else {
        lemma_crossings_chain(start, (n - 1) as nat, threshold);
        assert(crossings(start, n + 1, threshold) == crossings(start, n, threshold) + (if (start + n
            + 1) % threshold == 0 {
            1nat
        } else {
            0nat
        }));
        assert(crossings(start + 1, n, threshold) == crossings(start + 1, (n - 1) as nat, threshold)
            + (if (start + 1 + n) % threshold == 0 {
            1nat
        } else {
            0nat
        }));
    }
}

} // verus!
