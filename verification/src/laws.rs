//! What folding snapshots into the store guarantees, series by series.

use crate::collector::scrape_run;
use crate::metric::{MetricId, MetricType, MetricValue, METRIC_COUNT};
use crate::store::{
    counter_limit, fits, fold_value, folded, folded_all, total_reported, well_formed, zeroed,
    Snapshot,
};
use vstd::prelude::*;

verus! {

/// A snapshot reports, for every series, a value of the shape the series
/// calls for; what it reports for a counter is never negative.
pub proof fn lemma_reading_fits(data: Snapshot, id: MetricId)
    ensures
        fits(id, data.reading(id)),
        id.spec_metric_type() == MetricType::Counter ==> data.reading(id).amount() >= 0,
{
}

/// A store on which nothing was folded is well formed, and every series in
/// it stands at zero.
pub proof fn lemma_zeroed_is_zero(id: MetricId)
    ensures
        well_formed(zeroed()),
        zeroed()[id.position()].amount() == 0,
{
}

/// Folding keeps the store well formed: the set of series never changes, and
/// no series changes its shape.
pub proof fn lemma_folded_well_formed(values: Seq<MetricValue>, data: Snapshot)
    requires
        well_formed(values),
    ensures
        well_formed(folded(values, data)),
{
    let after = folded(values, data);
    assert forall|i: int| 0 <= i < METRIC_COUNT implies fits(
        MetricId::order()[i],
        #[trigger] after[i],
    ) by {
        let id = MetricId::order()[i];
        assert(fits(id, values[i]));
        lemma_reading_fits(data, id);
    }
}

/// Folding any number of snapshots keeps the store well formed.
pub proof fn lemma_folded_all_well_formed(values: Seq<MetricValue>, pulls: Seq<Snapshot>)
    requires
        well_formed(values),
    ensures
        well_formed(folded_all(values, pulls)),
    decreases pulls.len(),
{
    if pulls.len() > 0 {
        lemma_folded_all_well_formed(values, pulls.drop_last());
        lemma_folded_well_formed(folded_all(values, pulls.drop_last()), pulls.last());
    }
}

/// Gauge overwrite: after a snapshot is folded in, a gauge shows exactly what
/// that snapshot reported, whatever the store held before.
pub proof fn lemma_gauge_overwritten(values: Seq<MetricValue>, data: Snapshot, id: MetricId)
    requires
        well_formed(values),
        id.spec_metric_type() == MetricType::Gauge,
    ensures
        folded(values, data)[id.position()] == data.reading(id),
{
    assert(fits(id, values[id.position()]));
}

/// Gauge overwrite over a run of scrapes: a gauge shows what the most recent
/// snapshot reported, never a sum over earlier ones.
pub proof fn lemma_gauge_shows_latest(
    values: Seq<MetricValue>,
    pulls: Seq<Snapshot>,
    id: MetricId,
)
    requires
        well_formed(values),
        id.spec_metric_type() == MetricType::Gauge,
        pulls.len() > 0,
    ensures
        folded_all(values, pulls)[id.position()] == pulls.last().reading(id),
{
    lemma_folded_all_well_formed(values, pulls.drop_last());
    lemma_gauge_overwritten(folded_all(values, pulls.drop_last()), pulls.last(), id);
}

/// One fold adds exactly what the snapshot reports to a counter, as long as
/// the sum stays within the counter's limit.
pub proof fn lemma_counter_grows_by_reading(
    values: Seq<MetricValue>,
    data: Snapshot,
    id: MetricId,
)
    requires
        well_formed(values),
        id.spec_metric_type() == MetricType::Counter,
        values[id.position()].amount() + data.reading(id).amount() <= counter_limit(id),
    ensures
        folded(values, data)[id.position()].amount() == values[id.position()].amount()
            + data.reading(id).amount(),
{
    assert(fits(id, values[id.position()]));
}

/// Additivity: after two consecutive scrapes a counter stands at its initial
/// value plus both increments, exactly, as long as that sum stays within the
/// counter's limit.
pub proof fn lemma_counter_additive(
    values: Seq<MetricValue>,
    first: Snapshot,
    second: Snapshot,
    id: MetricId,
)
    requires
        well_formed(values),
        id.spec_metric_type() == MetricType::Counter,
        values[id.position()].amount() + first.reading(id).amount() + second.reading(id).amount()
            <= counter_limit(id),
    ensures
        folded(folded(values, first), second)[id.position()].amount() == values[id.position()].amount()
            + first.reading(id).amount() + second.reading(id).amount(),
{
    lemma_reading_fits(first, id);
    lemma_reading_fits(second, id);
    lemma_counter_grows_by_reading(values, first, id);
    lemma_folded_well_formed(values, first);
    lemma_counter_grows_by_reading(folded(values, first), second, id);
}

/// Additivity of an event counter on every input: after two consecutive
/// scrapes it stands at its initial value plus both increments, reduced
/// modulo 2^64.
pub proof fn lemma_event_counter_additive_wrapping(
    values: Seq<MetricValue>,
    first: Snapshot,
    second: Snapshot,
    id: MetricId,
)
    requires
        well_formed(values),
        id.spec_metric_type() == MetricType::Counter,
        !id.is_duration(),
    ensures
        folded(folded(values, first), second)[id.position()].amount() == (values[id.position()].amount()
            + first.reading(id).amount() + second.reading(id).amount()) % 0x1_0000_0000_0000_0000,
{
    assert(fits(id, values[id.position()]));
    lemma_folded_well_formed(values, first);
    assert(fits(id, folded(values, first)[id.position()]));
}

/// What a run of snapshots reports for a counter is never negative, and no
/// prefix of the run reports more than the whole.
pub proof fn lemma_total_reported_grows(pulls: Seq<Snapshot>, id: MetricId, n: int)
    requires
        id.spec_metric_type() == MetricType::Counter,
        0 <= n <= pulls.len(),
    ensures
        0 <= total_reported(pulls.take(n), id) <= total_reported(pulls, id),
    decreases pulls.len(),
{
    if n == pulls.len() {
        assert(pulls.take(n) =~= pulls);
        if pulls.len() > 0 {
            lemma_total_reported_grows(pulls.drop_last(), id, n - 1);
            lemma_reading_fits(pulls.last(), id);
        }
    } else {
        assert(pulls.drop_last().take(n) =~= pulls.take(n));
        lemma_total_reported_grows(pulls.drop_last(), id, n);
        lemma_reading_fits(pulls.last(), id);
    }
}

/// The total of a counter after a run of scrapes, given where it started and
/// what the snapshots reported in sum: elapsed time is held at its limit,
/// events are summed.
pub open spec fn accumulated(id: MetricId, start: int, reported: int) -> int {
    if id.is_duration() && start + reported > u128::MAX {
        u128::MAX as int
    } else {
        start + reported
    }
}

/// After any run of scrapes, a counter stands at its initial value plus
/// everything the pulled snapshots reported for it: no increment is lost and
/// none is counted twice. For an event counter this holds as long as the sum
/// stays below 2^64.
pub proof fn lemma_counter_accumulates(
    values: Seq<MetricValue>,
    pulls: Seq<Snapshot>,
    id: MetricId,
)
    requires
        well_formed(values),
        id.spec_metric_type() == MetricType::Counter,
        id.is_duration() || values[id.position()].amount() + total_reported(pulls, id)
            <= u64::MAX,
    ensures
        folded_all(values, pulls)[id.position()].amount() == accumulated(
            id,
            values[id.position()].amount(),
            total_reported(pulls, id),
        ),
    decreases pulls.len(),
{
    assert(fits(id, values[id.position()]));
    if pulls.len() > 0 {
        let earlier = pulls.drop_last();
        let before = folded_all(values, earlier);
        lemma_reading_fits(pulls.last(), id);
        lemma_total_reported_grows(earlier, id, 0);
        lemma_counter_accumulates(values, earlier, id);
        lemma_folded_all_well_formed(values, earlier);
        assert(fits(id, before[id.position()]));
        assert(folded(before, pulls.last())[id.position()] == fold_value(
            before[id.position()],
            pulls.last().reading(id),
        ));
    }
}

/// Monotonicity: over any run of scrapes, the value of a counter never
/// decreases from one scrape to a later one. For an event counter this holds
/// as long as its total stays below 2^64, where it would wrap around.
pub proof fn lemma_counter_monotonic(values: Seq<MetricValue>, pulls: Seq<Snapshot>, id: MetricId)
    requires
        well_formed(values),
        id.spec_metric_type() == MetricType::Counter,
        id.is_duration() || values[id.position()].amount() + total_reported(pulls, id)
            <= u64::MAX,
    ensures
        forall|i: int, j: int|
            0 <= i <= j <= pulls.len() ==> #[trigger] folded_all(
                values,
                pulls.take(i),
            )[id.position()].amount() <= #[trigger] folded_all(
                values,
                pulls.take(j),
            )[id.position()].amount(),
{
    assert forall|i: int, j: int| 0 <= i <= j <= pulls.len() implies #[trigger] folded_all(
        values,
        pulls.take(i),
    )[id.position()].amount() <= #[trigger] folded_all(
        values,
        pulls.take(j),
    )[id.position()].amount() by {
        lemma_total_reported_grows(pulls, id, j);
        lemma_total_reported_grows(pulls.take(j), id, i);
        assert(pulls.take(j).take(i) =~= pulls.take(i));
        lemma_counter_accumulates(values, pulls.take(i), id);
        lemma_counter_accumulates(values, pulls.take(j), id);
    }
}

/// Folding a run of snapshots in two parts gives the same store as folding
/// it in one go: each snapshot takes effect once, in the order of the pulls.
pub proof fn lemma_folded_all_split(
    values: Seq<MetricValue>,
    earlier: Seq<Snapshot>,
    later: Seq<Snapshot>,
)
    ensures
        folded_all(values, earlier + later) == folded_all(folded_all(values, earlier), later),
    decreases later.len(),
{
    if later.len() == 0 {
        assert(earlier + later =~= earlier);
    } else {
        assert((earlier + later).drop_last() =~= earlier + later.drop_last());
        assert((earlier + later).last() == later.last());
        lemma_folded_all_split(values, earlier, later.drop_last());
    }
}

/// No double consumption: as long as the source holds enough snapshots, a
/// run of scrapes pulls exactly as many snapshots as there are scrapes, each
/// scrape the one after its predecessor's, and the store ends up with each of
/// them folded in once, in the order of the pulls.
pub proof fn lemma_scrapes_consume_each_snapshot_once(
    values: Seq<MetricValue>,
    seeded: Seq<Snapshot>,
    consumed: nat,
    scrapes: nat,
)
    requires
        consumed + scrapes <= seeded.len(),
    ensures
        scrape_run((values, consumed), seeded, scrapes) == (
            folded_all(values, seeded.subrange(consumed as int, (consumed + scrapes) as int)),
            consumed + scrapes,
        ),
    decreases scrapes,
{
    let pulled = seeded.subrange(consumed as int, (consumed + scrapes) as int);
    if scrapes == 0 {
        assert(pulled.len() == 0);
    } else {
        let fewer = (scrapes - 1) as nat;
        lemma_scrapes_consume_each_snapshot_once(values, seeded, consumed, fewer);
        assert(pulled.drop_last() =~= seeded.subrange(consumed as int, (consumed + fewer) as int));
        assert(pulled.last() == seeded[(consumed + fewer) as int]);
    }
}

/// Exhaustion serves nothing: once every seeded snapshot was pulled, further
/// scrapes neither pull anything nor change the store.
pub proof fn lemma_exhausted_source_changes_nothing(
    values: Seq<MetricValue>,
    seeded: Seq<Snapshot>,
    consumed: nat,
    scrapes: nat,
)
    requires
        consumed >= seeded.len(),
    ensures
        scrape_run((values, consumed), seeded, scrapes) == (values, consumed),
    decreases scrapes,
{
    if scrapes > 0 {
        lemma_exhausted_source_changes_nothing(values, seeded, consumed, (scrapes - 1) as nat);
    }
}

} // verus!
