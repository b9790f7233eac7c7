//! Runtime metrics for a pull-based exposition endpoint.
//!
//! A scheduler reports its activity as a stream of [`Snapshot`]s: how much
//! happened since the previous snapshot, and how things stand right now. A
//! [`RuntimeCollector`] folds one snapshot per scrape into a
//! [`RuntimeMetrics`] store and hands back the fourteen samples to expose, in
//! a fixed order, each under a stable name.

pub mod collector;
pub mod laws;
pub mod metric;
pub mod store;

pub use collector::{RuntimeCollector, SnapshotQueue};
pub use metric::{MetricId, MetricType, MetricValue, Sample, Unit, METRIC_COUNT};
pub use store::{RuntimeMetrics, Snapshot};
