//! The metric store: the current value of every series, and the rule by which
//! one snapshot is folded into it.

use crate::metric::{MetricId, MetricType, MetricValue, Sample, METRIC_COUNT};
use vstd::prelude::*;

verus! {

/// One observation of the scheduler. The counter fields say how much happened
/// since the previous observation; the gauge fields say how things stand at
/// the moment of sampling.
#[derive(Clone, Copy, Debug, PartialEq, Eq, Structural)]
pub struct Snapshot {
    pub workers_count: usize,
    pub total_park_count: u64,
    pub total_noop_count: u64,
    pub total_steal_count: u64,
    pub total_steal_operations: u64,
    pub num_remote_schedules: u64,
    pub total_local_schedule_count: u64,
    pub total_overflow_count: u64,
    pub total_polls_count: u64,
    /// Time spent busy since the previous observation, in nanoseconds.
    pub total_busy_duration: u128,
    pub injection_queue_depth: usize,
    pub total_local_queue_depth: usize,
    pub budget_forced_yield_count: u64,
    pub io_driver_ready_count: u64,
}

/// A size reinterpreted as a signed 64-bit reading, bit for bit: sizes above
/// `i64::MAX` come out negative. Nothing is clamped.
pub open spec fn gauge_reading(n: usize) -> i64 {
    if n <= i64::MAX {
        n as i64
    } else {
        (n - 0x1_0000_0000_0000_0000) as i64
    }
}

/// The sum of an event counter and an increment, wrapping around at 2^64.
pub open spec fn wrapped_sum(total: u64, delta: u64) -> u64 {
    if total + delta <= u64::MAX {
        (total + delta) as u64
    } else {
        (total + delta - 0x1_0000_0000_0000_0000) as u64
    }
}

/// The sum of two amounts of time in nanoseconds, held at `u128::MAX` once it
/// would pass it.
pub open spec fn saturated_sum(total: u128, delta: u128) -> u128 {
    if total + delta <= u128::MAX {
        (total + delta) as u128
    } else {
        u128::MAX
    }
}

/// The value a series has before anything was observed.
pub open spec fn zero_value(id: MetricId) -> MetricValue {
    if id.spec_metric_type() == MetricType::Gauge {
        MetricValue::Gauge(0)
    } else if id.is_duration() {
        MetricValue::DurationCounter(0)
    } else {
        MetricValue::Counter(0)
    }
}

/// Whether a value has the shape its series calls for: a reading for a
/// gauge, nanoseconds for elapsed time, events for any other counter.
pub open spec fn fits(id: MetricId, value: MetricValue) -> bool {
    match value {
        MetricValue::Gauge(_) => id.spec_metric_type() == MetricType::Gauge,
        MetricValue::DurationCounter(_) => id.is_duration(),
        MetricValue::Counter(_) => id.spec_metric_type() == MetricType::Counter
            && !id.is_duration(),
    }
}

/// One value per series in emission order, each of the right shape.
pub open spec fn well_formed(values: Seq<MetricValue>) -> bool {
    &&& values.len() == METRIC_COUNT
    &&& forall|i: int| 0 <= i < METRIC_COUNT ==> fits(MetricId::order()[i], #[trigger] values[i])
}

/// The state of a store on which nothing was folded yet.
pub open spec fn zeroed() -> Seq<MetricValue> {
    Seq::new(METRIC_COUNT as nat, |i: int| zero_value(MetricId::order()[i]))
}

/// What one observation does to one series: a gauge takes the reading, a
/// counter takes the sum.
pub open spec fn fold_value(current: MetricValue, reading: MetricValue) -> MetricValue {
    match (current, reading) {
        (MetricValue::Counter(total), MetricValue::Counter(delta)) => MetricValue::Counter(
            wrapped_sum(total, delta),
        ),
        (
            MetricValue::DurationCounter(total),
            MetricValue::DurationCounter(delta),
        ) => MetricValue::DurationCounter(saturated_sum(total, delta)),
        (MetricValue::Gauge(_), MetricValue::Gauge(now)) => MetricValue::Gauge(now),
        _ => current,
    }
}

/// The store's values after one snapshot was folded in.
pub open spec fn folded(values: Seq<MetricValue>, data: Snapshot) -> Seq<MetricValue> {
    Seq::new(
        METRIC_COUNT as nat,
        |i: int| fold_value(values[i], data.reading(MetricId::order()[i])),
    )
}

/// The store's values after a sequence of snapshots was folded in, first to
/// last.
pub open spec fn folded_all(values: Seq<MetricValue>, pulls: Seq<Snapshot>) -> Seq<MetricValue>
    decreases pulls.len(),
{
    if pulls.len() == 0 {
        values
    } else {
        folded(folded_all(values, pulls.drop_last()), pulls.last())
    }
}

/// What a sequence of snapshots reports for one series, summed.
pub open spec fn total_reported(pulls: Seq<Snapshot>, id: MetricId) -> int
    decreases pulls.len(),
{
    if pulls.len() == 0 {
        0
    } else {
        total_reported(pulls.drop_last(), id) + pulls.last().reading(id).amount()
    }
}

/// The largest total a counter can hold.
pub open spec fn counter_limit(id: MetricId) -> int {
    if id.is_duration() {
        u128::MAX as int
    } else {
        u64::MAX as int
    }
}

/// The samples of a scrape: every series in emission order with its value.
pub open spec fn samples_of(values: Seq<MetricValue>) -> Seq<Sample> {
    Seq::new(
        METRIC_COUNT as nat,
        |i: int| (Sample { id: MetricId::order()[i], value: values[i] }),
    )
}

impl Snapshot {
    /// An observation in which nothing happened and nothing is queued.
    pub open spec fn spec_default() -> Snapshot {
        Snapshot {
            workers_count: 0,
            total_park_count: 0,
            total_noop_count: 0,
            total_steal_count: 0,
            total_steal_operations: 0,
            num_remote_schedules: 0,
            total_local_schedule_count: 0,
            total_overflow_count: 0,
            total_polls_count: 0,
            total_busy_duration: 0,
            injection_queue_depth: 0,
            total_local_queue_depth: 0,
            budget_forced_yield_count: 0,
            io_driver_ready_count: 0,
        }
    }

    /// What the snapshot reports for a series, in the series' own domain.
    pub open spec fn reading(self, id: MetricId) -> MetricValue {
        match id {
            MetricId::WorkersCount => MetricValue::Gauge(gauge_reading(self.workers_count)),
            MetricId::TotalParkCount => MetricValue::Counter(self.total_park_count),
            MetricId::TotalNoopCount => MetricValue::Counter(self.total_noop_count),
            MetricId::TotalStealCount => MetricValue::Counter(self.total_steal_count),
            MetricId::TotalStealOperations => MetricValue::Counter(self.total_steal_operations),
            MetricId::NumRemoteSchedules => MetricValue::Counter(self.num_remote_schedules),
            MetricId::TotalLocalScheduleCount => MetricValue::Counter(
                self.total_local_schedule_count,
            ),
            MetricId::TotalOverflowCount => MetricValue::Counter(self.total_overflow_count),
            MetricId::TotalPollsCount => MetricValue::Counter(self.total_polls_count),
            MetricId::TotalBusyDuration => MetricValue::DurationCounter(self.total_busy_duration),
            MetricId::InjectionQueueDepth => MetricValue::Gauge(
                gauge_reading(self.injection_queue_depth),
            ),
            MetricId::TotalLocalQueueDepth => MetricValue::Gauge(
                gauge_reading(self.total_local_queue_depth),
            ),
            MetricId::BudgetForcedYieldCount => MetricValue::Counter(
                self.budget_forced_yield_count,
            ),
            MetricId::IoDriverReadyCount => MetricValue::Counter(self.io_driver_ready_count),
        }
    }
}

impl Default for Snapshot {
    fn default() -> (s: Snapshot)
        ensures
            s == Snapshot::spec_default(),
    {
        Snapshot {
            workers_count: 0,
            total_park_count: 0,
            total_noop_count: 0,
            total_steal_count: 0,
            total_steal_operations: 0,
            num_remote_schedules: 0,
            total_local_schedule_count: 0,
            total_overflow_count: 0,
            total_polls_count: 0,
            total_busy_duration: 0,
            injection_queue_depth: 0,
            total_local_queue_depth: 0,
            budget_forced_yield_count: 0,
            io_driver_ready_count: 0,
        }
    }
}

/// Reinterprets a size as a signed 64-bit gauge reading.
fn gauge_from_size(n: usize) -> (g: i64)
    ensures
        g == gauge_reading(n),
{
    let wide: u64 = n as u64;
    if wide <= 0x7fff_ffff_ffff_ffff {
        wide as i64
    } else {
        let below: u64 = u64::MAX - wide;
        -(below as i64) - 1
    }
}

/// The current value of every series. The set of series is fixed; only the
/// values change, and only by folding in a snapshot.
#[derive(Debug)]
pub struct RuntimeMetrics {
    workers_count: i64,
    total_park_count: u64,
    total_noop_count: u64,
    total_steal_count: u64,
    total_steal_operations: u64,
    num_remote_schedules: u64,
    total_local_schedule_count: u64,
    total_overflow_count: u64,
    total_polls_count: u64,
    total_busy_duration: u128,
    injection_queue_depth: i64,
    total_local_queue_depth: i64,
    budget_forced_yield_count: u64,
    io_driver_ready_count: u64,
}

impl View for RuntimeMetrics {
    type V = Seq<MetricValue>;

    /// The value of every series, in emission order.
    closed spec fn view(&self) -> Seq<MetricValue> {
        seq![
            MetricValue::Gauge(self.workers_count),
            MetricValue::Counter(self.total_park_count),
            MetricValue::Counter(self.total_noop_count),
            MetricValue::Counter(self.total_steal_count),
            MetricValue::Counter(self.total_steal_operations),
            MetricValue::Counter(self.num_remote_schedules),
            MetricValue::Counter(self.total_local_schedule_count),
            MetricValue::Counter(self.total_overflow_count),
            MetricValue::Counter(self.total_polls_count),
            MetricValue::DurationCounter(self.total_busy_duration),
            MetricValue::Gauge(self.injection_queue_depth),
            MetricValue::Gauge(self.total_local_queue_depth),
            MetricValue::Counter(self.budget_forced_yield_count),
            MetricValue::Counter(self.io_driver_ready_count),
        ]
    }
}

impl RuntimeMetrics {
    /// The current value of one series.
    pub open spec fn spec_value(&self, id: MetricId) -> MetricValue {
        self@[id.position()]
    }

    /// Whatever was folded in, the store holds one value per series, each of
    /// the shape its series calls for.
    pub proof fn lemma_well_formed(&self)
        ensures
            well_formed(self@),
    {
    }

    /// A store with every counter and every gauge at zero.
    pub fn new() -> (store: RuntimeMetrics)
        ensures
            store@ == zeroed(),
    {
        let store = RuntimeMetrics {
            workers_count: 0,
            total_park_count: 0,
            total_noop_count: 0,
            total_steal_count: 0,
            total_steal_operations: 0,
            num_remote_schedules: 0,
            total_local_schedule_count: 0,
            total_overflow_count: 0,
            total_polls_count: 0,
            total_busy_duration: 0,
            injection_queue_depth: 0,
            total_local_queue_depth: 0,
            budget_forced_yield_count: 0,
            io_driver_ready_count: 0,
        };
        assert(store@ =~= zeroed());
        store
    }

    /// Folds one snapshot into the store: every gauge is overwritten with the
    /// snapshot's reading, every counter grows by the snapshot's increment.
    pub fn update(&mut self, data: Snapshot)
        ensures
            final(self)@ == folded(old(self)@, data),
    {
        self.workers_count = gauge_from_size(data.workers_count);
        self.total_park_count = self.total_park_count.wrapping_add(data.total_park_count);
        self.total_noop_count = self.total_noop_count.wrapping_add(data.total_noop_count);
        self.total_steal_count = self.total_steal_count.wrapping_add(data.total_steal_count);
        self.total_steal_operations = self.total_steal_operations.wrapping_add(
            data.total_steal_operations,
        );
        self.num_remote_schedules = self.num_remote_schedules.wrapping_add(
            data.num_remote_schedules,
        );
        self.total_local_schedule_count = self.total_local_schedule_count.wrapping_add(
            data.total_local_schedule_count,
        );
        self.total_overflow_count = self.total_overflow_count.wrapping_add(
            data.total_overflow_count,
        );
        self.total_polls_count = self.total_polls_count.wrapping_add(data.total_polls_count);
        self.total_busy_duration = self.total_busy_duration.saturating_add(
            data.total_busy_duration,
        );
        self.injection_queue_depth = gauge_from_size(data.injection_queue_depth);
        self.total_local_queue_depth = gauge_from_size(data.total_local_queue_depth);
        self.budget_forced_yield_count = self.budget_forced_yield_count.wrapping_add(
            data.budget_forced_yield_count,
        );
        self.io_driver_ready_count = self.io_driver_ready_count.wrapping_add(
            data.io_driver_ready_count,
        );
        assert(self@ =~= folded(old(self)@, data));
    }

    /// The current value of one series.
    pub fn value(&self, id: MetricId) -> (v: MetricValue)
        ensures
            v == self.spec_value(id),
            fits(id, v),
    {
        match id {
            MetricId::WorkersCount => MetricValue::Gauge(self.workers_count),
            MetricId::TotalParkCount => MetricValue::Counter(self.total_park_count),
            MetricId::TotalNoopCount => MetricValue::Counter(self.total_noop_count),
            MetricId::TotalStealCount => MetricValue::Counter(self.total_steal_count),
            MetricId::TotalStealOperations => MetricValue::Counter(self.total_steal_operations),
            MetricId::NumRemoteSchedules => MetricValue::Counter(self.num_remote_schedules),
            MetricId::TotalLocalScheduleCount => MetricValue::Counter(
                self.total_local_schedule_count,
            ),
            MetricId::TotalOverflowCount => MetricValue::Counter(self.total_overflow_count),
            MetricId::TotalPollsCount => MetricValue::Counter(self.total_polls_count),
            MetricId::TotalBusyDuration => MetricValue::DurationCounter(self.total_busy_duration),
            MetricId::InjectionQueueDepth => MetricValue::Gauge(self.injection_queue_depth),
            MetricId::TotalLocalQueueDepth => MetricValue::Gauge(self.total_local_queue_depth),
            MetricId::BudgetForcedYieldCount => MetricValue::Counter(
                self.budget_forced_yield_count,
            ),
            MetricId::IoDriverReadyCount => MetricValue::Counter(self.io_driver_ready_count),
        }
    }

    /// Every series with its current value, in emission order.
    pub fn samples(&self) -> (out: Vec<Sample>)
        ensures
            out@ == samples_of(self@),
    {
        let ids = MetricId::all();
        let mut out: Vec<Sample> = Vec::new();
        let mut i: usize = 0;
        while i < ids.len()
            invariant
                ids@ == MetricId::order(),
                ids@.len() == METRIC_COUNT,
                i <= METRIC_COUNT,
                out@.len() == i,
                forall|k: int| 0 <= k < i ==> out@[k] == samples_of(self@)[k],
            decreases METRIC_COUNT - i,
        {
            let id = ids[i];
            out.push(Sample { id, value: self.value(id) });
            i += 1;
        }
        assert(out@ =~= samples_of(self@));
        out
    }
}

impl Default for RuntimeMetrics {
    fn default() -> (store: RuntimeMetrics)
        ensures
            store@ == zeroed(),
    {
        RuntimeMetrics::new()
    }
}

} // verus!
