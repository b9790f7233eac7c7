use tokio_prometheus_client::{MetricId, MetricType, MetricValue, Unit, METRIC_COUNT};

const NAMES: [&str; 14] = [
    "workers_count",
    "total_park_count",
    "total_noop_count",
    "total_steal_count",
    "total_steal_operations",
    "num_remote_schedules",
    "total_local_schedule_count",
    "total_overflow_count",
    "total_polls_count",
    "total_busy_duration",
    "injection_queue_depth",
    "total_local_queue_depth",
    "budget_forced_yield_count",
    "io_driver_ready_count",
];

#[test]
fn names_follow_the_emission_order() {
    let ids = MetricId::all();
    assert_eq!(ids.len(), METRIC_COUNT);
    assert_eq!(ids.len(), 14);
    for (i, id) in ids.iter().enumerate() {
        assert_eq!(id.name(), NAMES[i]);
        assert_eq!(id.index(), i);
    }
}

#[test]
fn names_are_distinct() {
    let ids = MetricId::all();
    for a in ids.iter() {
        for b in ids.iter() {
            if a != b {
                assert_ne!(a.name(), b.name());
            }
        }
    }
}

#[test]
fn exactly_three_series_are_gauges() {
    let gauges: Vec<&str> = MetricId::all()
        .into_iter()
        .filter(|id| id.metric_type() == MetricType::Gauge)
        .map(|id| id.name())
        .collect();
    assert_eq!(
        gauges,
        vec!["workers_count", "injection_queue_depth", "total_local_queue_depth"]
    );
    assert_eq!(MetricId::TotalPollsCount.metric_type(), MetricType::Counter);
    assert_eq!(MetricId::TotalBusyDuration.metric_type(), MetricType::Counter);
}

#[test]
fn only_busy_duration_has_a_unit() {
    for id in MetricId::all() {
        if id == MetricId::TotalBusyDuration {
            assert_eq!(id.unit(), Some(Unit::Seconds));
        } else {
            assert_eq!(id.unit(), None);
        }
    }
}

#[test]
fn descriptions_are_the_documented_ones() {
    assert_eq!(
        MetricId::WorkersCount.description(),
        "The number of worker threads used by the runtime"
    );
    assert_eq!(
        MetricId::TotalParkCount.description(),
        "The number of times worker threads parked"
    );
    assert_eq!(
        MetricId::NumRemoteSchedules.description(),
        "The number of tasks scheduled from **outside** of the runtime"
    );
    assert_eq!(
        MetricId::TotalBusyDuration.description(),
        "The amount of time worker threads were busy"
    );
    assert_eq!(
        MetricId::TotalLocalQueueDepth.description(),
        "The total number of tasks currently scheduled in workers' local queues"
    );
    assert_eq!(
        MetricId::IoDriverReadyCount.description(),
        "Returns the number of ready events processed by the runtime\u{e2}\u{20ac}\u{2122}s I/O driver"
    );
    for id in MetricId::all() {
        assert!(!id.description().is_empty());
    }
}

#[test]
fn a_value_knows_its_type() {
    assert_eq!(MetricValue::Counter(3).metric_type(), MetricType::Counter);
    assert_eq!(MetricValue::DurationCounter(3).metric_type(), MetricType::Counter);
    assert_eq!(MetricValue::Gauge(-3).metric_type(), MetricType::Gauge);
}
