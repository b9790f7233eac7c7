use tokio_prometheus_client::{MetricId, MetricValue, RuntimeMetrics, Snapshot};

fn busy_snapshot() -> Snapshot {
    Snapshot {
        workers_count: 8,
        total_park_count: 1,
        total_noop_count: 2,
        total_steal_count: 3,
        total_steal_operations: 4,
        num_remote_schedules: 5,
        total_local_schedule_count: 6,
        total_overflow_count: 7,
        total_polls_count: 9,
        total_busy_duration: 1_500_000_000,
        injection_queue_depth: 10,
        total_local_queue_depth: 11,
        budget_forced_yield_count: 12,
        io_driver_ready_count: 13,
    }
}

#[test]
fn a_new_store_is_all_zero() {
    let store = RuntimeMetrics::new();
    for id in MetricId::all() {
        let expected = match id {
            MetricId::WorkersCount
            | MetricId::InjectionQueueDepth
            | MetricId::TotalLocalQueueDepth => MetricValue::Gauge(0),
            MetricId::TotalBusyDuration => MetricValue::DurationCounter(0),
            _ => MetricValue::Counter(0),
        };
        assert_eq!(store.value(id), expected);
    }
    let by_default = RuntimeMetrics::default();
    assert_eq!(by_default.samples(), store.samples());
}

#[test]
fn update_routes_every_field_to_its_own_series() {
    let mut store = RuntimeMetrics::new();
    store.update(busy_snapshot());
    assert_eq!(store.value(MetricId::WorkersCount), MetricValue::Gauge(8));
    assert_eq!(store.value(MetricId::TotalParkCount), MetricValue::Counter(1));
    assert_eq!(store.value(MetricId::TotalNoopCount), MetricValue::Counter(2));
    assert_eq!(store.value(MetricId::TotalStealCount), MetricValue::Counter(3));
    assert_eq!(store.value(MetricId::TotalStealOperations), MetricValue::Counter(4));
    assert_eq!(store.value(MetricId::NumRemoteSchedules), MetricValue::Counter(5));
    assert_eq!(store.value(MetricId::TotalLocalScheduleCount), MetricValue::Counter(6));
    assert_eq!(store.value(MetricId::TotalOverflowCount), MetricValue::Counter(7));
    assert_eq!(store.value(MetricId::TotalPollsCount), MetricValue::Counter(9));
    assert_eq!(
        store.value(MetricId::TotalBusyDuration),
        MetricValue::DurationCounter(1_500_000_000)
    );
    assert_eq!(store.value(MetricId::InjectionQueueDepth), MetricValue::Gauge(10));
    assert_eq!(store.value(MetricId::TotalLocalQueueDepth), MetricValue::Gauge(11));
    assert_eq!(store.value(MetricId::BudgetForcedYieldCount), MetricValue::Counter(12));
    assert_eq!(store.value(MetricId::IoDriverReadyCount), MetricValue::Counter(13));
}

#[test]
fn counters_add_two_deltas_exactly() {
    let mut store = RuntimeMetrics::new();
    let first = Snapshot { total_steal_count: 7, total_busy_duration: 250, ..Snapshot::default() };
    let second = Snapshot { total_steal_count: 35, total_busy_duration: 750, ..Snapshot::default() };
    store.update(first);
    store.update(second);
    assert_eq!(store.value(MetricId::TotalStealCount), MetricValue::Counter(42));
    assert_eq!(store.value(MetricId::TotalBusyDuration), MetricValue::DurationCounter(1000));
    assert_eq!(store.value(MetricId::TotalParkCount), MetricValue::Counter(0));
}

#[test]
fn counters_never_decrease_over_a_run() {
    let mut store = RuntimeMetrics::new();
    let mut previous = store.samples();
    let deltas: [u64; 6] = [5, 0, 17, 1, 0, 1000];
    for delta in deltas {
        let snapshot = Snapshot {
            workers_count: delta as usize,
            total_polls_count: delta,
            io_driver_ready_count: delta * 2,
            total_busy_duration: (delta as u128) * 1_000,
            ..Snapshot::default()
        };
        store.update(snapshot);
        let current = store.samples();
        for (before, after) in previous.iter().zip(current.iter()) {
            assert_eq!(before.id, after.id);
            match (before.value, after.value) {
                (MetricValue::Counter(a), MetricValue::Counter(b)) => assert!(a <= b),
                (MetricValue::DurationCounter(a), MetricValue::DurationCounter(b)) => {
                    assert!(a <= b)
                }
                (MetricValue::Gauge(_), MetricValue::Gauge(_)) => {}
                _ => panic!("a series changed its shape"),
            }
        }
        previous = current;
    }
    assert_eq!(store.value(MetricId::TotalPollsCount), MetricValue::Counter(1023));
    assert_eq!(store.value(MetricId::IoDriverReadyCount), MetricValue::Counter(2046));
    assert_eq!(
        store.value(MetricId::TotalBusyDuration),
        MetricValue::DurationCounter(1_023_000)
    );
}

#[test]
fn gauges_show_the_latest_reading_only() {
    let mut store = RuntimeMetrics::new();
    let readings: [usize; 4] = [4, 9, 0, 3];
    for reading in readings {
        store.update(Snapshot {
            workers_count: reading,
            injection_queue_depth: reading + 1,
            total_local_queue_depth: reading + 2,
            ..Snapshot::default()
        });
        assert_eq!(store.value(MetricId::WorkersCount), MetricValue::Gauge(reading as i64));
        assert_eq!(
            store.value(MetricId::InjectionQueueDepth),
            MetricValue::Gauge(reading as i64 + 1)
        );
        assert_eq!(
            store.value(MetricId::TotalLocalQueueDepth),
            MetricValue::Gauge(reading as i64 + 2)
        );
    }
}

#[test]
fn an_oversized_gauge_reading_passes_through_as_negative() {
    let mut store = RuntimeMetrics::new();
    store.update(Snapshot { injection_queue_depth: usize::MAX, ..Snapshot::default() });
    assert_eq!(
        store.value(MetricId::InjectionQueueDepth),
        MetricValue::Gauge(usize::MAX as i64)
    );
    store.update(Snapshot { injection_queue_depth: i64::MAX as usize, ..Snapshot::default() });
    assert_eq!(store.value(MetricId::InjectionQueueDepth), MetricValue::Gauge(i64::MAX));
}

#[test]
fn an_event_counter_wraps_around() {
    let mut store = RuntimeMetrics::new();
    store.update(Snapshot { total_park_count: u64::MAX, ..Snapshot::default() });
    assert_eq!(store.value(MetricId::TotalParkCount), MetricValue::Counter(u64::MAX));
    store.update(Snapshot { total_park_count: 3, ..Snapshot::default() });
    assert_eq!(store.value(MetricId::TotalParkCount), MetricValue::Counter(2));
}

#[test]
fn busy_time_is_held_at_its_limit() {
    let mut store = RuntimeMetrics::new();
    store.update(Snapshot { total_busy_duration: u128::MAX - 1, ..Snapshot::default() });
    store.update(Snapshot { total_busy_duration: 5, ..Snapshot::default() });
    assert_eq!(
        store.value(MetricId::TotalBusyDuration),
        MetricValue::DurationCounter(u128::MAX)
    );
}

#[test]
fn samples_list_every_series_in_order() {
    let mut store = RuntimeMetrics::new();
    store.update(busy_snapshot());
    let samples = store.samples();
    let ids = MetricId::all();
    assert_eq!(samples.len(), 14);
    for (sample, id) in samples.iter().zip(ids.iter()) {
        assert_eq!(sample.id, *id);
        assert_eq!(sample.value, store.value(*id));
    }
    assert_eq!(samples[9].value, MetricValue::DurationCounter(1_500_000_000));
}

#[test]
fn the_default_snapshot_reports_nothing() {
    let mut store = RuntimeMetrics::new();
    store.update(busy_snapshot());
    let before = store.samples();
    store.update(Snapshot {
        workers_count: 8,
        injection_queue_depth: 10,
        total_local_queue_depth: 11,
        ..Snapshot::default()
    });
    assert_eq!(store.samples(), before);
}
