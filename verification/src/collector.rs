//! The sampling collector: one fresh snapshot per scrape, folded into the
//! store, then every series rendered in emission order.

use crate::metric::{MetricValue, Sample};
use crate::store::{folded, samples_of, zeroed, RuntimeMetrics, Snapshot};
use vstd::prelude::*;

verus! {

/// A snapshot source seeded with a finite sequence of snapshots. Every pull
/// hands out the next one; once all were handed out the source is exhausted.
#[derive(Debug)]
pub struct SnapshotQueue {
    items: Vec<Snapshot>,
    consumed: usize,
}

impl SnapshotQueue {
    #[verifier::type_invariant]
    spec fn within_bounds(self) -> bool {
        self.consumed <= self.items@.len()
    }

    /// The snapshots the source was seeded with, pulled or not.
    pub closed spec fn seeded(&self) -> Seq<Snapshot> {
        self.items@
    }

    /// How many snapshots were pulled so far.
    pub closed spec fn consumed(&self) -> nat {
        self.consumed as nat
    }

    /// The snapshots still to come, next one first.
    pub open spec fn pending(&self) -> Seq<Snapshot> {
        self.seeded().skip(self.consumed() as int)
    }

    /// A source that will hand out `items`, first to last.
    pub fn new(items: Vec<Snapshot>) -> (source: SnapshotQueue)
        ensures
            source.seeded() == items@,
            source.consumed() == 0,
    {
        SnapshotQueue { items, consumed: 0 }
    }

    /// How many snapshots are still to come.
    pub fn remaining(&self) -> (n: usize)
        ensures
            n == self.pending().len(),
            self.consumed() + n == self.seeded().len(),
    {
        proof {
            use_type_invariant(self);
        }
        self.items.len() - self.consumed
    }

    /// Hands out the next snapshot, or `None` once the source is exhausted.
    /// A snapshot that was handed out is never handed out again, and none is
    /// skipped.
    pub fn pull(&mut self) -> (next: Option<Snapshot>)
        ensures
            final(self).seeded() == old(self).seeded(),
            old(self).consumed() <= old(self).seeded().len(),
            old(self).consumed() < old(self).seeded().len() ==> {
                &&& next == Some(old(self).seeded()[old(self).consumed() as int])
                &&& final(self).consumed() == old(self).consumed() + 1
            },
            old(self).consumed() == old(self).seeded().len() ==> {
                &&& next.is_none()
                &&& final(self).consumed() == old(self).consumed()
            },
    {
        proof {
            use_type_invariant(&*self);
        }
        if self.consumed < self.items.len() {
            let next = self.items[self.consumed];
            self.consumed = self.consumed + 1;
            Some(next)
        } else {
            None
        }
    }
}

/// What one scrape does to a collector and its seeded source, given the
/// store's values and the number of snapshots pulled so far: it pulls the
/// next snapshot and folds it in, or changes nothing once the source is
/// exhausted.
pub open spec fn scrape_step(
    state: (Seq<MetricValue>, nat),
    seeded: Seq<Snapshot>,
) -> (Seq<MetricValue>, nat) {
    if state.1 < seeded.len() {
        (folded(state.0, seeded[state.1 as int]), state.1 + 1nat)
    } else {
        state
    }
}

/// What a number of scrapes, one after the other, do to a collector and its
/// seeded source.
pub open spec fn scrape_run(
    state: (Seq<MetricValue>, nat),
    seeded: Seq<Snapshot>,
    scrapes: nat,
) -> (Seq<MetricValue>, nat)
    decreases scrapes,
{
    if scrapes == 0 {
        state
    } else {
        scrape_step(scrape_run(state, seeded, (scrapes - 1) as nat), seeded)
    }
}

/// Collects runtime metrics: owns the store and serves scrapes.
#[derive(Debug)]
pub struct RuntimeCollector {
    metrics: RuntimeMetrics,
}

impl View for RuntimeCollector {
    type V = Seq<MetricValue>;

    /// The value of every series, in emission order.
    closed spec fn view(&self) -> Seq<MetricValue> {
        self.metrics@
    }
}

impl RuntimeCollector {
    /// A collector with every counter and every gauge at zero.
    pub fn new() -> (collector: RuntimeCollector)
        ensures
            collector@ == zeroed(),
    {
        RuntimeCollector { metrics: RuntimeMetrics::new() }
    }

    /// The store as the most recent scrape left it.
    pub fn metrics(&self) -> (store: &RuntimeMetrics)
        ensures
            store@ == self@,
    {
        &self.metrics
    }

    /// Serves one scrape with the snapshot pulled for it: folds the snapshot
    /// into the store and returns every series in emission order, each with
    /// the value it has after this fold.
    pub fn encode(&mut self, interval: Snapshot) -> (samples: Vec<Sample>)
        ensures
            final(self)@ == folded(old(self)@, interval),
            samples@ == samples_of(final(self)@),
    {
        self.metrics.update(interval);
        self.metrics.samples()
    }

    /// Serves one scrape from a seeded source: pulls exactly one snapshot and
    /// serves the scrape with it. On an exhausted source nothing is served:
    /// the result is `None` and the store is left as it was.
    pub fn encode_next(&mut self, source: &mut SnapshotQueue) -> (samples: Option<Vec<Sample>>)
        ensures
            final(source).seeded() == old(source).seeded(),
            old(source).consumed() <= old(source).seeded().len(),
            (final(self)@, final(source).consumed()) == scrape_step(
                (old(self)@, old(source).consumed()),
                old(source).seeded(),
            ),
            match samples {
                Some(served) => {
                    &&& old(source).consumed() < old(source).seeded().len()
                    &&& served@ == samples_of(final(self)@)
                },
                None => old(source).consumed() == old(source).seeded().len(),
            },
    {
        match source.pull() {
            Some(interval) => Some(self.encode(interval)),
            None => None,
        }
    }
}

impl Default for RuntimeCollector {
    fn default() -> (collector: RuntimeCollector)
        ensures
            collector@ == zeroed(),
    {
        RuntimeCollector::new()
    }
}

} // verus!
