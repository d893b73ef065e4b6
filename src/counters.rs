//! The counters that all launches of one session share.
use vstd::prelude::*;

verus! {

/// Session-wide counts. The shell holds one value behind a lock and hands
/// each launch, and the readiness watcher, a shared reference to it.
#[derive(Clone, Copy, Debug, PartialEq, Eq, Structural)]
pub struct SharedCounters {
    /// Windows constructed so far; never decreases.
    pub windows_created: usize,
    /// Items that launches have handed to the user interface.
    pub items_delivered: usize,
    /// Items that launches have announced, summed over all launches.
    pub items_expected_total: usize,
    /// How many items the user interface reports it has confirmed.
    pub acknowledged_count: usize,
}

/// The counters as unbounded numbers.
pub struct CountersView {
    pub windows_created: nat,
    pub items_delivered: nat,
    pub items_expected_total: nat,
    pub acknowledged_count: nat,
}

/// One change to the counters, as the components make them.
pub enum CounterOp {
    /// A window was constructed.
    WindowCreated,
    /// A launch announced an item list of this length.
    Announce(nat),
    /// A launch delivered an item list of this length.
    Deliver(nat),
    /// The user interface reported this count.
    Acknowledge(nat),
}

impl CountersView {
    /// Every announced item has been delivered, and there was at least one.
    pub open spec fn ready(self) -> bool {
        self.items_delivered == self.items_expected_total && self.items_expected_total > 0
    }

    pub open spec fn apply(self, op: CounterOp) -> CountersView {
        match op {
            CounterOp::WindowCreated => CountersView {
                windows_created: self.windows_created + 1,
                ..self
            },
            CounterOp::Announce(n) => CountersView {
                items_expected_total: self.items_expected_total + n,
                ..self
            },
            CounterOp::Deliver(n) => CountersView { items_delivered: self.items_delivered + n, ..self },
            CounterOp::Acknowledge(n) => CountersView { acknowledged_count: n, ..self },
        }
    }

    /// The counters after the changes, applied in the order given.
    pub open spec fn apply_all(self, ops: Seq<CounterOp>) -> CountersView
        decreases ops.len(),
    {
        if ops.len() == 0 {
            self
        } else {
            self.apply(ops[0]).apply_all(ops.drop_first())
        }
    }
}

/// The sum of the lengths that the announcements among `ops` carry.
pub open spec fn announced(ops: Seq<CounterOp>) -> nat
    decreases ops.len(),
{
    if ops.len() == 0 {
        0
    } else {
        (match ops[0] {
            CounterOp::Announce(n) => n,
            _ => 0,
        }) + announced(ops.drop_first())
    }
}

impl View for SharedCounters {
    type V = CountersView;

    open spec fn view(&self) -> CountersView {
        CountersView {
            windows_created: self.windows_created as nat,
            items_delivered: self.items_delivered as nat,
            items_expected_total: self.items_expected_total as nat,
            acknowledged_count: self.acknowledged_count as nat,
        }
    }
}

impl SharedCounters {
    pub fn new() -> (r: SharedCounters)
        ensures
            r@ == (CountersView {
                windows_created: 0,
                items_delivered: 0,
                items_expected_total: 0,
                acknowledged_count: 0,
            }),
    {
        SharedCounters {
            windows_created: 0,
            items_delivered: 0,
            items_expected_total: 0,
            acknowledged_count: 0,
        }
    }

    pub fn record_window(&mut self)
        requires
            old(self).windows_created < usize::MAX,
        ensures
            final(self)@ == old(self)@.apply(CounterOp::WindowCreated),
    {
        self.windows_created = self.windows_created + 1;
    }

    pub fn announce(&mut self, n: usize)
        requires
            old(self).items_expected_total + n <= usize::MAX,
        ensures
            final(self)@ == old(self)@.apply(CounterOp::Announce(n as nat)),
    {
        self.items_expected_total = self.items_expected_total + n;
    }

    pub fn record_delivery(&mut self, n: usize)
        requires
            old(self).items_delivered + n <= usize::MAX,
        ensures
            final(self)@ == old(self)@.apply(CounterOp::Deliver(n as nat)),
    {
        self.items_delivered = self.items_delivered + n;
    }

    /// Replaces the count that the user interface reported last.
    pub fn acknowledge(&mut self, count: usize)
        ensures
            final(self)@ == old(self)@.apply(CounterOp::Acknowledge(count as nat)),
    {
        self.acknowledged_count = count;
    }

    pub fn is_ready(&self) -> (r: bool)
        ensures
            r == self@.ready(),
    {
        self.items_delivered == self.items_expected_total && self.items_expected_total > 0
    }
}

/// Whatever the interleaving of windows, deliveries and acknowledgements
/// among the launches, the expected total grows by exactly the lengths that
/// the launches announced, and no counter but the acknowledged one ever
/// goes down.
pub proof fn lemma_expected_total_is_sum_of_announced(start: CountersView, ops: Seq<CounterOp>)
    ensures
        start.apply_all(ops).items_expected_total == start.items_expected_total + announced(ops),
        start.apply_all(ops).items_delivered >= start.items_delivered,
        start.apply_all(ops).windows_created >= start.windows_created,
    decreases ops.len(),
{
    if ops.len() > 0 {
        lemma_expected_total_is_sum_of_announced(start.apply(ops[0]), ops.drop_first());
    }
}

} // verus!
