//! The exposed metric surface: which series exist, in which order they are
//! emitted, and how each is named, described and typed.

use vstd::prelude::*;

verus! {

/// How a series behaves between two observations.
#[derive(Clone, Copy, Debug, PartialEq, Eq, Structural)]
pub enum MetricType {
    /// Accumulates; every observation adds to the running total.
    Counter,
    /// Instantaneous; every observation replaces the previous one.
    Gauge,
}

/// The unit a series is measured in, where it has one.
#[derive(Clone, Copy, Debug, PartialEq, Eq, Structural)]
pub enum Unit {
    Seconds,
}

/// The current value of one series.
#[derive(Clone, Copy, Debug, PartialEq, Eq, Structural)]
pub enum MetricValue {
    /// A running total of events.
    Counter(u64),
    /// A running total of elapsed time, in nanoseconds. It is exposed in
    /// seconds.
    DurationCounter(u128),
    /// The most recent reading.
    Gauge(i64),
}

impl MetricValue {
    /// The value as a mathematical integer: events, nanoseconds or the
    /// reading.
    pub open spec fn amount(self) -> int {
        match self {
            MetricValue::Counter(n) => n as int,
            MetricValue::DurationCounter(n) => n as int,
            MetricValue::Gauge(n) => n as int,
        }
    }

    /// Both kinds of running total are counters; a reading is a gauge.
    pub open spec fn spec_metric_type(self) -> MetricType {
        match self {
            MetricValue::Counter(_) => MetricType::Counter,
            MetricValue::DurationCounter(_) => MetricType::Counter,
            MetricValue::Gauge(_) => MetricType::Gauge,
        }
    }

    /// The type that dictates how this value is represented on the wire.
    pub fn metric_type(&self) -> (t: MetricType)
        ensures
            t == self.spec_metric_type(),
    {
        match self {
            MetricValue::Counter(_) => MetricType::Counter,
            MetricValue::DurationCounter(_) => MetricType::Counter,
            MetricValue::Gauge(_) => MetricType::Gauge,
        }
    }
}

/// One of the fourteen series. The variants are declared in emission order.
#[derive(Clone, Copy, Debug, PartialEq, Eq, Structural, Hash)]
pub enum MetricId {
    WorkersCount,
    TotalParkCount,
    TotalNoopCount,
    TotalStealCount,
    TotalStealOperations,
    NumRemoteSchedules,
    TotalLocalScheduleCount,
    TotalOverflowCount,
    TotalPollsCount,
    TotalBusyDuration,
    InjectionQueueDepth,
    TotalLocalQueueDepth,
    BudgetForcedYieldCount,
    IoDriverReadyCount,
}

/// How many series there are.
pub const METRIC_COUNT: usize = 14;

impl MetricId {
    /// Every series exactly once, in the order in which they are emitted.
    pub open spec fn order() -> Seq<MetricId> {
        seq![
            MetricId::WorkersCount,
            MetricId::TotalParkCount,
            MetricId::TotalNoopCount,
            MetricId::TotalStealCount,
            MetricId::TotalStealOperations,
            MetricId::NumRemoteSchedules,
            MetricId::TotalLocalScheduleCount,
            MetricId::TotalOverflowCount,
            MetricId::TotalPollsCount,
            MetricId::TotalBusyDuration,
            MetricId::InjectionQueueDepth,
            MetricId::TotalLocalQueueDepth,
            MetricId::BudgetForcedYieldCount,
            MetricId::IoDriverReadyCount,
        ]
    }

    /// Where the series stands in the emission order.
    pub open spec fn position(self) -> int {
        match self {
            MetricId::WorkersCount => 0,
            MetricId::TotalParkCount => 1,
            MetricId::TotalNoopCount => 2,
            MetricId::TotalStealCount => 3,
            MetricId::TotalStealOperations => 4,
            MetricId::NumRemoteSchedules => 5,
            MetricId::TotalLocalScheduleCount => 6,
            MetricId::TotalOverflowCount => 7,
            MetricId::TotalPollsCount => 8,
            MetricId::TotalBusyDuration => 9,
            MetricId::InjectionQueueDepth => 10,
            MetricId::TotalLocalQueueDepth => 11,
            MetricId::BudgetForcedYieldCount => 12,
            MetricId::IoDriverReadyCount => 13,
        }
    }

    /// The three series that report a current state are gauges; every other
    /// series is a counter.
    pub open spec fn spec_metric_type(self) -> MetricType {
        match self {
            MetricId::WorkersCount => MetricType::Gauge,
            MetricId::InjectionQueueDepth => MetricType::Gauge,
            MetricId::TotalLocalQueueDepth => MetricType::Gauge,
            _ => MetricType::Counter,
        }
    }

    /// Whether the series accumulates elapsed time rather than events.
    pub open spec fn is_duration(self) -> bool {
        self == MetricId::TotalBusyDuration
    }

    /// Elapsed time is measured in seconds; nothing else has a unit.
    pub open spec fn spec_unit(self) -> Option<Unit> {
        if self.is_duration() {
            Some(Unit::Seconds)
        } else {
            None
        }
    }

    /// The name of each series, character for character.
    pub open spec fn spec_name(self) -> Seq<char> {
        match self {
            MetricId::WorkersCount => "workers_count"@,
            MetricId::TotalParkCount => "total_park_count"@,
            MetricId::TotalNoopCount => "total_noop_count"@,
            MetricId::TotalStealCount => "total_steal_count"@,
            MetricId::TotalStealOperations => "total_steal_operations"@,
            MetricId::NumRemoteSchedules => "num_remote_schedules"@,
            MetricId::TotalLocalScheduleCount => "total_local_schedule_count"@,
            MetricId::TotalOverflowCount => "total_overflow_count"@,
            MetricId::TotalPollsCount => "total_polls_count"@,
            MetricId::TotalBusyDuration => "total_busy_duration"@,
            MetricId::InjectionQueueDepth => "injection_queue_depth"@,
            MetricId::TotalLocalQueueDepth => "total_local_queue_depth"@,
            MetricId::BudgetForcedYieldCount => "budget_forced_yield_count"@,
            MetricId::IoDriverReadyCount => "io_driver_ready_count"@,
        }
    }

    /// The help text of each series, character for character.
    pub open spec fn spec_description(self) -> Seq<char> {
        match self {
            MetricId::WorkersCount => "The number of worker threads used by the runtime"@,
            MetricId::TotalParkCount => "The number of times worker threads parked"@,
            MetricId::TotalNoopCount => "The number of times worker threads unparked but performed no work before parking again"@,
            MetricId::TotalStealCount => "The number of tasks worker threads stole from another worker thread"@,
            MetricId::TotalStealOperations => "The number of times worker threads stole tasks from another worker thread"@,
            MetricId::NumRemoteSchedules => "The number of tasks scheduled from **outside** of the runtime"@,
            MetricId::TotalLocalScheduleCount => "The number of tasks scheduled from worker threads"@,
            MetricId::TotalOverflowCount => "The number of times worker threads saturated their local queues"@,
            MetricId::TotalPollsCount => "The number of tasks that have been polled across all worker threads"@,
            MetricId::TotalBusyDuration => "The amount of time worker threads were busy"@,
            MetricId::InjectionQueueDepth => "The number of tasks currently scheduled in the runtime's injection queue"@,
            MetricId::TotalLocalQueueDepth => "The total number of tasks currently scheduled in workers' local queues"@,
            MetricId::BudgetForcedYieldCount => "Returns the number of times that tasks have been forced to yield back to the scheduler after exhausting their task budgets"@,
            MetricId::IoDriverReadyCount => "Returns the number of ready events processed by the runtime\u{e2}\u{20ac}\u{2122}s I/O driver"@,
        }
    }

    /// The series in emission order.
    pub fn all() -> (ids: Vec<MetricId>)
        ensures
            ids@ == MetricId::order(),
    {
        let ids = vec![
            MetricId::WorkersCount,
            MetricId::TotalParkCount,
            MetricId::TotalNoopCount,
            MetricId::TotalStealCount,
            MetricId::TotalStealOperations,
            MetricId::NumRemoteSchedules,
            MetricId::TotalLocalScheduleCount,
            MetricId::TotalOverflowCount,
            MetricId::TotalPollsCount,
            MetricId::TotalBusyDuration,
            MetricId::InjectionQueueDepth,
            MetricId::TotalLocalQueueDepth,
            MetricId::BudgetForcedYieldCount,
            MetricId::IoDriverReadyCount,
        ];
        assert(ids@ =~= MetricId::order());
        ids
    }

    /// The index of the series in the emission order.
    pub fn index(self) -> (i: usize)
        ensures
            i == self.position(),
            i < METRIC_COUNT,
    {
        match self {
            MetricId::WorkersCount => 0,
            MetricId::TotalParkCount => 1,
            MetricId::TotalNoopCount => 2,
            MetricId::TotalStealCount => 3,
            MetricId::TotalStealOperations => 4,
            MetricId::NumRemoteSchedules => 5,
            MetricId::TotalLocalScheduleCount => 6,
            MetricId::TotalOverflowCount => 7,
            MetricId::TotalPollsCount => 8,
            MetricId::TotalBusyDuration => 9,
            MetricId::InjectionQueueDepth => 10,
            MetricId::TotalLocalQueueDepth => 11,
            MetricId::BudgetForcedYieldCount => 12,
            MetricId::IoDriverReadyCount => 13,
        }
    }

    /// The series' name on the wire. Downstream consumers key on it.
    pub fn name(self) -> (s: &'static str)
        ensures
            s@ == self.spec_name(),
    {
        match self {
            MetricId::WorkersCount => "workers_count",
            MetricId::TotalParkCount => "total_park_count",
            MetricId::TotalNoopCount => "total_noop_count",
            MetricId::TotalStealCount => "total_steal_count",
            MetricId::TotalStealOperations => "total_steal_operations",
            MetricId::NumRemoteSchedules => "num_remote_schedules",
            MetricId::TotalLocalScheduleCount => "total_local_schedule_count",
            MetricId::TotalOverflowCount => "total_overflow_count",
            MetricId::TotalPollsCount => "total_polls_count",
            MetricId::TotalBusyDuration => "total_busy_duration",
            MetricId::InjectionQueueDepth => "injection_queue_depth",
            MetricId::TotalLocalQueueDepth => "total_local_queue_depth",
            MetricId::BudgetForcedYieldCount => "budget_forced_yield_count",
            MetricId::IoDriverReadyCount => "io_driver_ready_count",
        }
    }

    /// The human-readable help text emitted with the series.
    pub fn description(self) -> (s: &'static str)
        ensures
            s@ == self.spec_description(),
    {
        match self {
            MetricId::WorkersCount => "The number of worker threads used by the runtime",
            MetricId::TotalParkCount => "The number of times worker threads parked",
            MetricId::TotalNoopCount => "The number of times worker threads unparked but performed no work before parking again",
            MetricId::TotalStealCount => "The number of tasks worker threads stole from another worker thread",
            MetricId::TotalStealOperations => "The number of times worker threads stole tasks from another worker thread",
            MetricId::NumRemoteSchedules => "The number of tasks scheduled from **outside** of the runtime",
            MetricId::TotalLocalScheduleCount => "The number of tasks scheduled from worker threads",
            MetricId::TotalOverflowCount => "The number of times worker threads saturated their local queues",
            MetricId::TotalPollsCount => "The number of tasks that have been polled across all worker threads",
            MetricId::TotalBusyDuration => "The amount of time worker threads were busy",
            MetricId::InjectionQueueDepth => "The number of tasks currently scheduled in the runtime's injection queue",
            MetricId::TotalLocalQueueDepth => "The total number of tasks currently scheduled in workers' local queues",
            MetricId::BudgetForcedYieldCount => "Returns the number of times that tasks have been forced to yield back to the scheduler after exhausting their task budgets",
            MetricId::IoDriverReadyCount => "Returns the number of ready events processed by the runtime\u{e2}\u{20ac}\u{2122}s I/O driver",
        }
    }

    /// The unit emitted with the series: seconds for elapsed time, none for
    /// everything else.
    pub fn unit(self) -> (u: Option<Unit>)
        ensures
            u == self.spec_unit(),
    {
        match self {
            MetricId::TotalBusyDuration => Some(Unit::Seconds),
            _ => None,
        }
    }

    /// Whether the series is a counter or a gauge.
    pub fn metric_type(self) -> (t: MetricType)
        ensures
            t == self.spec_metric_type(),
    {
        match self {
            MetricId::WorkersCount => MetricType::Gauge,
            MetricId::InjectionQueueDepth => MetricType::Gauge,
            MetricId::TotalLocalQueueDepth => MetricType::Gauge,
            _ => MetricType::Counter,
        }
    }

    /// The emission order lists every series exactly once: each stands at its
    /// own position, and every position holds the series that claims it.
    pub proof fn lemma_order_is_complete()
        ensures
            MetricId::order().len() == METRIC_COUNT,
            forall|id: MetricId| #[trigger] MetricId::order()[id.position()] == id,
            forall|id: MetricId| 0 <= #[trigger] id.position() < METRIC_COUNT,
            forall|i: int|
                0 <= i < METRIC_COUNT ==> (#[trigger] MetricId::order()[i]).position() == i,
    {
    }

    /// No two series share a name.
    pub proof fn lemma_names_are_distinct(a: MetricId, b: MetricId)
        requires
            a != b,
        ensures
            a.spec_name() != b.spec_name(),
    {
        reveal_strlit("workers_count");
        reveal_strlit("total_park_count");
        reveal_strlit("total_noop_count");
        reveal_strlit("total_steal_count");
        reveal_strlit("total_steal_operations");
        reveal_strlit("num_remote_schedules");
        reveal_strlit("total_local_schedule_count");
        reveal_strlit("total_overflow_count");
        reveal_strlit("total_polls_count");
        reveal_strlit("total_busy_duration");
        reveal_strlit("injection_queue_depth");
        reveal_strlit("total_local_queue_depth");
        reveal_strlit("budget_forced_yield_count");
        reveal_strlit("io_driver_ready_count");
        let x = a.spec_name();
        let y = b.spec_name();
        assert(x.len() != y.len() || x[0] != y[0] || x[1] != y[1] || x[6] != y[6]);
    }
}

/// One series as it is emitted on a scrape: which one, and its value.
#[derive(Clone, Copy, Debug, PartialEq, Eq, Structural)]
pub struct Sample {
    pub id: MetricId,
    pub value: MetricValue,
}

} // verus!
