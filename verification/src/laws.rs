//! What holds of the cold phases of every series of samples.
//!
//! The laws are stated over [`cold_runs`], [`summarize`] and
//! [`cold_phases`], the functions in which
//! [`accumulate_cold_phases`](crate::backend::accumulate_cold_phases) states
//! its result.
use crate::backend::{
    cold_phases, cold_runs, in_order, is_cold, is_dangerous, lemma_trailing_run, lowest,
    pads_fit, phases_of, reaches_danger, reading_of, readings, sorted_by_time, summarize,
    trailing_run_start, Run,
};
use crate::common::{Reading, RecordType, SampleView};
use crate::temperature::Temperature;
use crate::time::Timestamp;
use vstd::prelude::*;

verus! {

/// Whether the run lies inside `readings`, holds at least one reading and
/// cold readings only, and has no cold reading right before or right after
/// it.
pub open spec fn is_maximal_cold_run(
    readings: Seq<Reading>,
    warning_threshold: Temperature,
    run: Run,
) -> bool {
    &&& 0 <= run.first < run.end <= readings.len()
    &&& forall|i: int| run.first <= i < run.end ==> is_cold(#[trigger] readings[i], warning_threshold)
    &&& run.first == 0 || !is_cold(readings[run.first - 1], warning_threshold)
    &&& run.end == readings.len() || !is_cold(readings[run.end], warning_threshold)
}

/// Whether the timestamps never go back from one reading to the next.
pub open spec fn chronological(readings: Seq<Reading>) -> bool {
    forall|i: int, j: int|
        0 <= i <= j < readings.len() ==> (#[trigger] readings[i]).timestamp.not_after(
            &(#[trigger] readings[j]).timestamp,
        )
}

/// A maximal cold run of a prefix is a maximal cold run of the whole series
/// where the prefix ends at the series' end or next to a reading that is not
/// cold.
proof fn lemma_run_of_prefix(
    readings: Seq<Reading>,
    warning_threshold: Temperature,
    n: int,
    run: Run,
)
    requires
        0 <= n <= readings.len(),
        is_maximal_cold_run(readings.take(n), warning_threshold, run),
        n == readings.len() || !is_cold(readings[n], warning_threshold) || (n > 0 && !is_cold(
            readings[n - 1],
            warning_threshold,
        )),
    ensures
        is_maximal_cold_run(readings, warning_threshold, run),
{
    let prefix = readings.take(n);
    assert(prefix[run.end - 1] == readings[run.end - 1]);
    assert(is_cold(prefix[run.end - 1], warning_threshold));
    assert forall|i: int| run.first <= i < run.end implies is_cold(
        #[trigger] readings[i],
        warning_threshold,
    ) by {
        assert(prefix[i] == readings[i]);
    }
    if run.first > 0 {
        assert(prefix[run.first - 1] == readings[run.first - 1]);
    }
    if run.end < n {
        assert(prefix[run.end] == readings[run.end]);
    }
}

/// Every run of [`cold_runs`] is a maximal cold run, and the runs come in
/// order with at least one reading that is not cold between any two of
/// them: no reading belongs to two phases.
pub proof fn lemma_cold_runs_are_maximal_and_apart(
    readings: Seq<Reading>,
    warning_threshold: Temperature,
)
    ensures
        forall|k: int|
            0 <= k < cold_runs(readings, warning_threshold).len() ==> is_maximal_cold_run(
                readings,
                warning_threshold,
                #[trigger] cold_runs(readings, warning_threshold)[k],
            ),
        forall|j: int, k: int|
            0 <= j < k < cold_runs(readings, warning_threshold).len() ==> (#[trigger] cold_runs(
                readings,
                warning_threshold,
            )[j]).end < (#[trigger] cold_runs(readings, warning_threshold)[k]).first,
    decreases readings.len(),
{
    let runs = cold_runs(readings, warning_threshold);
    let start = trailing_run_start(readings, warning_threshold);
    lemma_trailing_run(readings, warning_threshold);
    if readings.len() == 0 {
    } else if start < readings.len() {
        let prefix = readings.take(start);
        let before = cold_runs(prefix, warning_threshold);
        lemma_cold_runs_are_maximal_and_apart(prefix, warning_threshold);
        assert(runs == before.push(Run { first: start, end: readings.len() as int }));
        assert forall|k: int| 0 <= k < runs.len() implies is_maximal_cold_run(
            readings,
            warning_threshold,
            #[trigger] runs[k],
        ) by {
            if k < before.len() {
                assert(runs[k] == before[k]);
                lemma_run_of_prefix(readings, warning_threshold, start, before[k]);
            }
        }
        assert forall|j: int, k: int| 0 <= j < k < runs.len() implies (#[trigger] runs[j]).end < (
        #[trigger] runs[k]).first by {
            assert(runs[j] == before[j]);
            if k < before.len() {
                assert(runs[k] == before[k]);
            } else {
                // The reading before the trailing run is not cold, so no
                // earlier run reaches it.
                let last = before[j].end - 1;
                assert(is_cold(prefix[last], warning_threshold));
                assert(prefix[last] == readings[last]);
            }
        }
    } else {
        let prefix = readings.drop_last();
        let before = cold_runs(prefix, warning_threshold);
        lemma_cold_runs_are_maximal_and_apart(prefix, warning_threshold);
        assert(runs == before);
        assert(prefix == readings.take(readings.len() - 1));
        assert forall|k: int| 0 <= k < runs.len() implies is_maximal_cold_run(
            readings,
            warning_threshold,
            #[trigger] runs[k],
        ) by {
            lemma_run_of_prefix(readings, warning_threshold, readings.len() - 1, before[k]);
        }
    }
}

/// Every cold reading belongs to a run of [`cold_runs`]; the result is the
/// index of that run.
pub proof fn lemma_cold_reading_is_in_a_run(
    readings: Seq<Reading>,
    warning_threshold: Temperature,
    i: int,
) -> (k: int)
    requires
        0 <= i < readings.len(),
        is_cold(readings[i], warning_threshold),
    ensures
        0 <= k < cold_runs(readings, warning_threshold).len(),
        cold_runs(readings, warning_threshold)[k].first <= i < cold_runs(
            readings,
            warning_threshold,
        )[k].end,
    decreases readings.len(),
{
    let runs = cold_runs(readings, warning_threshold);
    let start = trailing_run_start(readings, warning_threshold);
    lemma_trailing_run(readings, warning_threshold);
    if start < readings.len() {
        let prefix = readings.take(start);
        let before = cold_runs(prefix, warning_threshold);
        assert(runs == before.push(Run { first: start, end: readings.len() as int }));
        if i >= start {
            before.len() as int
        } else {
            assert(prefix[i] == readings[i]);
            let k = lemma_cold_reading_is_in_a_run(prefix, warning_threshold, i);
            assert(runs[k] == before[k]);
            k
        }
    } else {
        let prefix = readings.drop_last();
        assert(prefix[i] == readings[i]);
        lemma_cold_reading_is_in_a_run(prefix, warning_threshold, i)
    }
}

/// The runs of [`cold_runs`] are the maximal cold runs, all of them and
/// nothing else: a run is among them exactly when it is a maximal cold run.
pub proof fn lemma_cold_runs_are_the_maximal_runs(
    readings: Seq<Reading>,
    warning_threshold: Temperature,
    run: Run,
)
    ensures
        is_maximal_cold_run(readings, warning_threshold, run) <==> exists|k: int|
            0 <= k < cold_runs(readings, warning_threshold).len() && #[trigger] cold_runs(
                readings,
                warning_threshold,
            )[k] == run,
{
    let runs = cold_runs(readings, warning_threshold);
    lemma_cold_runs_are_maximal_and_apart(readings, warning_threshold);
    if is_maximal_cold_run(readings, warning_threshold, run) {
        assert(is_cold(readings[run.first], warning_threshold));
        let k = lemma_cold_reading_is_in_a_run(readings, warning_threshold, run.first);
        let found = runs[k];
        assert(is_maximal_cold_run(readings, warning_threshold, found));
        // Two maximal cold runs that share a reading begin and end together.
        if found.first < run.first {
            assert(is_cold(readings[run.first - 1], warning_threshold));
        }
        if found.end < run.end {
            assert(is_cold(readings[found.end], warning_threshold));
        }
        if run.end < found.end {
            assert(is_cold(readings[run.end], warning_threshold));
        }
        assert(found == run);
    }
}

/// A series has no phase exactly when none of its readings is cold. In
/// particular a series whose readings all lie above the warning threshold,
/// and an empty series, have none.
pub proof fn lemma_no_phase_without_cold_reading(
    readings: Seq<Reading>,
    warning_threshold: Temperature,
    danger_threshold: Temperature,
)
    ensures
        phases_of(readings, warning_threshold, danger_threshold).len() == 0 <==> forall|i: int|
            0 <= i < readings.len() ==> !is_cold(#[trigger] readings[i], warning_threshold),
{
    let runs = cold_runs(readings, warning_threshold);
    lemma_cold_runs_are_maximal_and_apart(readings, warning_threshold);
    if runs.len() > 0 {
        assert(is_maximal_cold_run(readings, warning_threshold, runs[0]));
        assert(is_cold(readings[runs[0].first], warning_threshold));
    } else {
        assert forall|i: int| 0 <= i < readings.len() implies !is_cold(
            #[trigger] readings[i],
            warning_threshold,
        ) by {
            if is_cold(readings[i], warning_threshold) {
                lemma_cold_reading_is_in_a_run(readings, warning_threshold, i);
            }
        }
    }
}

/// The lowest temperature of a run of readings that are not NaN is the
/// temperature of one of its readings, the first that none is below, and
/// is at most the temperature of each reading. The result is the index of
/// that reading.
pub proof fn lemma_lowest_is_minimum(run: Seq<Reading>) -> (at: int)
    requires
        run.len() > 0,
        forall|i: int| 0 <= i < run.len() ==> !(#[trigger] run[i]).temperature.is_nan(),
    ensures
        0 <= at < run.len(),
        run[at].temperature == lowest(run),
        forall|i: int| 0 <= i < run.len() ==> lowest(run).le(&(#[trigger] run[i]).temperature),
        forall|i: int| 0 <= i < at ==> lowest(run).lt(&(#[trigger] run[i]).temperature),
    decreases run.len(),
{
    if run.len() == 1 {
        0
    } else {
        let shorter = run.drop_last();
        assert forall|i: int| 0 <= i < shorter.len() implies !(
        #[trigger] shorter[i]).temperature.is_nan() by {
            assert(shorter[i] == run[i]);
        }
        let before = lemma_lowest_is_minimum(shorter);
        assert(shorter[before] == run[before]);
        assert forall|i: int| 0 <= i < run.len() implies lowest(run).le(
            &(#[trigger] run[i]).temperature,
        ) by {
            if i < shorter.len() {
                assert(shorter[i] == run[i]);
            }
        }
        if run.last().temperature.lt(&lowest(shorter)) {
            assert forall|i: int| 0 <= i < run.len() - 1 implies lowest(run).lt(
                &(#[trigger] run[i]).temperature,
            ) by {
                assert(shorter[i] == run[i]);
            }
            run.len() - 1
        } else {
            assert forall|i: int| 0 <= i < before implies lowest(run).lt(
                &(#[trigger] run[i]).temperature,
            ) by {
                assert(shorter[i] == run[i]);
            }
            before
        }
    }
}

/// The minimum of a phase is the true minimum of the run that produced it:
/// it is the temperature of a reading of the run, and no reading of the run
/// is below it.
pub proof fn lemma_min_temp_is_minimum(
    readings: Seq<Reading>,
    warning_threshold: Temperature,
    danger_threshold: Temperature,
    k: int,
)
    requires
        0 <= k < cold_runs(readings, warning_threshold).len(),
    ensures
        exists|i: int|
            cold_runs(readings, warning_threshold)[k].first <= i < cold_runs(
                readings,
                warning_threshold,
            )[k].end && (#[trigger] readings[i]).temperature == phases_of(
                readings,
                warning_threshold,
                danger_threshold,
            )[k].min_temp,
        forall|i: int|
            cold_runs(readings, warning_threshold)[k].first <= i < cold_runs(
                readings,
                warning_threshold,
            )[k].end ==> phases_of(readings, warning_threshold, danger_threshold)[k].min_temp.le(
                &(#[trigger] readings[i]).temperature,
            ),
        phases_of(readings, warning_threshold, danger_threshold)[k].min_temp.le(
            &warning_threshold,
        ),
{
    let run = cold_runs(readings, warning_threshold)[k];
    let part = readings.subrange(run.first, run.end);
    lemma_cold_runs_are_maximal_and_apart(readings, warning_threshold);
    assert(is_maximal_cold_run(readings, warning_threshold, run));
    assert forall|i: int| 0 <= i < part.len() implies !(#[trigger] part[i]).temperature.is_nan() by {
        assert(part[i] == readings[run.first + i]);
        assert(is_cold(readings[run.first + i], warning_threshold));
    }
    let at = lemma_lowest_is_minimum(part);
    assert(part[at] == readings[run.first + at]);
    assert(is_cold(readings[run.first + at], warning_threshold));
    assert forall|i: int| run.first <= i < run.end implies lowest(part).le(
        &(#[trigger] readings[i]).temperature,
    ) by {
        assert(part[i - run.first] == readings[i]);
    }
}

/// A phase is `Danger` exactly when some reading of its run is at or below
/// the danger threshold, and `Warning` otherwise.
pub proof fn lemma_severity_of_phase(
    readings: Seq<Reading>,
    warning_threshold: Temperature,
    danger_threshold: Temperature,
    k: int,
)
    requires
        0 <= k < cold_runs(readings, warning_threshold).len(),
    ensures
        phases_of(readings, warning_threshold, danger_threshold)[k].record_type
            == RecordType::Danger <==> exists|i: int|
            cold_runs(readings, warning_threshold)[k].first <= i < cold_runs(
                readings,
                warning_threshold,
            )[k].end && is_dangerous(#[trigger] readings[i], danger_threshold),
{
    let run = cold_runs(readings, warning_threshold)[k];
    let part = readings.subrange(run.first, run.end);
    lemma_cold_runs_are_maximal_and_apart(readings, warning_threshold);
    assert(is_maximal_cold_run(readings, warning_threshold, run));
    if reaches_danger(part, danger_threshold) {
        let i = choose|i: int| 0 <= i < part.len() && is_dangerous(part[i], danger_threshold);
        assert(part[i] == readings[run.first + i]);
        assert(is_dangerous(readings[run.first + i], danger_threshold));
    }
    if exists|i: int|
        run.first <= i < run.end && is_dangerous(#[trigger] readings[i], danger_threshold) {
        let i = choose|i: int|
            run.first <= i < run.end && is_dangerous(#[trigger] readings[i], danger_threshold);
        assert(part[i - run.first] == readings[i]);
        assert(is_dangerous(part[i - run.first], danger_threshold));
    }
}

/// While a phase grows, reading by reading, its severity never moves
/// down: the phase of the first `n` readings of a run is at most as severe
/// as the phase of the whole run, so that a phase that is a `Danger` phase
/// at some reading is one at every later reading. It keeps its start and
/// its station.
pub proof fn lemma_severity_never_drops(run: Seq<Reading>, danger_threshold: Temperature, n: int)
    requires
        0 < n <= run.len(),
    ensures
        summarize(run.take(n), danger_threshold).record_type.rank() <= summarize(
            run,
            danger_threshold,
        ).record_type.rank(),
        summarize(run.take(n), danger_threshold).record_type == RecordType::Danger ==> summarize(
            run,
            danger_threshold,
        ).record_type == RecordType::Danger,
        summarize(run.take(n), danger_threshold).start == summarize(run, danger_threshold).start,
        summarize(run.take(n), danger_threshold).location == summarize(
            run,
            danger_threshold,
        ).location,
{
    let part = run.take(n);
    if reaches_danger(part, danger_threshold) {
        let i = choose|i: int| 0 <= i < part.len() && is_dangerous(part[i], danger_threshold);
        assert(part[i] == run[i]);
        assert(is_dangerous(run[i], danger_threshold));
    }
    assert(part.first() == run.first());
}

/// While a phase grows, reading by reading, its minimum never moves up:
/// the minimum of a run of readings that are not NaN, as cold readings are
/// not, is at most the minimum of its first `n` readings.
pub proof fn lemma_minimum_never_rises(run: Seq<Reading>, danger_threshold: Temperature, n: int)
    requires
        0 < n <= run.len(),
        forall|i: int| 0 <= i < run.len() ==> !(#[trigger] run[i]).temperature.is_nan(),
    ensures
        summarize(run, danger_threshold).min_temp.le(
            &summarize(run.take(n), danger_threshold).min_temp,
        ),
{
    let part = run.take(n);
    assert forall|i: int| 0 <= i < part.len() implies !(#[trigger] part[i]).temperature.is_nan() by {
        assert(part[i] == run[i]);
    }
    let at = lemma_lowest_is_minimum(part);
    assert(part[at] == run[at]);
    lemma_lowest_is_minimum(run);
    assert(lowest(run).le(&run[at].temperature));
}

/// Each reading comes from a sample: the readings of a series sorted by
/// time are in chronological order.
pub proof fn lemma_readings_keep_order(samples: Seq<SampleView>, cutoff: Option<Timestamp>)
    requires
        sorted_by_time(samples),
    ensures
        chronological(readings(samples, cutoff)),
        forall|k: int|
            0 <= k < readings(samples, cutoff).len() ==> exists|i: int|
                0 <= i < samples.len() && reading_of(#[trigger] samples[i], cutoff) == Some(
                    #[trigger] readings(samples, cutoff)[k],
                ),
    decreases samples.len(),
{
    let all = readings(samples, cutoff);
    if samples.len() > 0 {
        let shorter = samples.drop_last();
        let before = readings(shorter, cutoff);
        assert forall|i: int, j: int| 0 <= i <= j < shorter.len() implies (
        #[trigger] shorter[i]).timestamp.not_after(&(#[trigger] shorter[j]).timestamp) by {
            assert(shorter[i] == samples[i]);
            assert(shorter[j] == samples[j]);
        }
        lemma_readings_keep_order(shorter, cutoff);
        let f = |sample: SampleView| reading_of(sample, cutoff);
        assert(all == samples.filter_map(f));
        assert(before == shorter.filter_map(f));
        assert forall|k: int| 0 <= k < before.len() implies (exists|i: int|
            0 <= i < samples.len() && reading_of(#[trigger] samples[i], cutoff) == Some(before[k]))
            && before[k].timestamp.not_after(&samples.last().timestamp) by {
            let i = choose|i: int|
                0 <= i < shorter.len() && reading_of(#[trigger] shorter[i], cutoff) == Some(
                    before[k],
                );
            assert(shorter[i] == samples[i]);
            assert(samples[i].timestamp.not_after(&samples[samples.len() - 1].timestamp));
        }
        match reading_of(samples.last(), cutoff) {
            Some(reading) => {
                assert(all =~= before.push(reading));
                assert forall|k: int| 0 <= k < all.len() implies exists|i: int|
                    0 <= i < samples.len() && reading_of(#[trigger] samples[i], cutoff) == Some(
                        #[trigger] all[k],
                    ) by {
                    if k < before.len() {
                        assert(all[k] == before[k]);
                    } else {
                        assert(reading_of(samples[samples.len() - 1], cutoff) == Some(all[k]));
                    }
                }
                assert forall|i: int, j: int| 0 <= i <= j < all.len() implies (
                #[trigger] all[i]).timestamp.not_after(&(#[trigger] all[j]).timestamp) by {
                    if j < before.len() {
                        assert(all[i] == before[i]);
                        assert(all[j] == before[j]);
                    } else if i < before.len() {
                        assert(all[i] == before[i]);
                    }
                }
            },
            None => {
                assert(all == before);
            },
        }
    }
}

/// In a chronological series whose cold readings leave room for the pad, a
/// phase starts at or before its last reading and ends one hour after it,
/// so its end never precedes its start. The phases come in the order of
/// their starts, and the last reading of a phase is not after the start of
/// any later phase.
pub proof fn lemma_phases_are_chronological(
    readings: Seq<Reading>,
    warning_threshold: Temperature,
    danger_threshold: Temperature,
)
    requires
        chronological(readings),
        forall|i: int|
            0 <= i < readings.len() && is_cold(#[trigger] readings[i], warning_threshold)
                ==> readings[i].timestamp.can_pad(),
    ensures
        forall|k: int|
            0 <= k < cold_runs(readings, warning_threshold).len() ==> {
                let phase = #[trigger] phases_of(readings, warning_threshold, danger_threshold)[k];
                let run = cold_runs(readings, warning_threshold)[k];
                &&& phase.start == readings[run.first].timestamp
                &&& phase.end == readings[run.end - 1].timestamp.padded()
                &&& phase.start.not_after(&readings[run.end - 1].timestamp)
                &&& phase.start.is_before(&phase.end)
            },
        forall|j: int, k: int|
            0 <= j < k < cold_runs(readings, warning_threshold).len() ==> {
                let earlier = #[trigger] phases_of(
                    readings,
                    warning_threshold,
                    danger_threshold,
                )[j];
                let later = #[trigger] phases_of(readings, warning_threshold, danger_threshold)[k];
                let last = readings[cold_runs(readings, warning_threshold)[j].end - 1].timestamp;
                &&& earlier.start.not_after(&later.start)
                &&& last.not_after(&later.start)
                &&& earlier.end == last.padded()
            },
{
    let runs = cold_runs(readings, warning_threshold);
    let phases = phases_of(readings, warning_threshold, danger_threshold);
    lemma_cold_runs_are_maximal_and_apart(readings, warning_threshold);
    assert forall|k: int| 0 <= k < runs.len() implies {
        let phase = #[trigger] phases[k];
        let run = runs[k];
        &&& phase.start == readings[run.first].timestamp
        &&& phase.end == readings[run.end - 1].timestamp.padded()
        &&& phase.start.not_after(&readings[run.end - 1].timestamp)
        &&& phase.start.is_before(&phase.end)
    } by {
        let run = runs[k];
        let part = readings.subrange(run.first, run.end);
        assert(is_maximal_cold_run(readings, warning_threshold, run));
        assert(part.first() == readings[run.first]);
        assert(part.last() == readings[run.end - 1]);
        assert(readings[run.first].timestamp.not_after(&readings[run.end - 1].timestamp));
        assert(is_cold(readings[run.end - 1], warning_threshold));
    }
    assert forall|j: int, k: int| 0 <= j < k < runs.len() implies {
        let earlier = #[trigger] phases[j];
        let later = #[trigger] phases[k];
        let last = readings[runs[j].end - 1].timestamp;
        &&& earlier.start.not_after(&later.start)
        &&& last.not_after(&later.start)
        &&& earlier.end == last.padded()
    } by {
        assert(is_maximal_cold_run(readings, warning_threshold, runs[j]));
        assert(is_maximal_cold_run(readings, warning_threshold, runs[k]));
        assert(runs[j].end < runs[k].first);
        let early = readings.subrange(runs[j].first, runs[j].end);
        let late = readings.subrange(runs[k].first, runs[k].end);
        assert(early.first() == readings[runs[j].first]);
        assert(early.last() == readings[runs[j].end - 1]);
        assert(late.first() == readings[runs[k].first]);
        assert(readings[runs[j].first].timestamp.not_after(&readings[runs[k].first].timestamp));
        assert(readings[runs[j].end - 1].timestamp.not_after(&readings[runs[k].first].timestamp));
    }
}

/// A cutoff works as a filter applied to the samples before anything else:
/// the phases under a cutoff are the phases, without a cutoff, of the
/// samples that are not before it.
pub proof fn lemma_cutoff_filters_first(
    warning_threshold: Temperature,
    danger_threshold: Temperature,
    samples: Seq<SampleView>,
    cutoff: Timestamp,
)
    ensures
        cold_phases(warning_threshold, danger_threshold, samples, Some(cutoff)) == cold_phases(
            warning_threshold,
            danger_threshold,
            samples.filter(|sample: SampleView| !sample.timestamp.is_before(&cutoff)),
            None,
        ),
{
    lemma_readings_of_filtered(samples, cutoff);
}

/// The readings under a cutoff are the readings of the samples that are not
/// before it.
proof fn lemma_readings_of_filtered(samples: Seq<SampleView>, cutoff: Timestamp)
    ensures
        readings(samples, Some(cutoff)) == readings(
            samples.filter(|sample: SampleView| !sample.timestamp.is_before(&cutoff)),
            None,
        ),
    decreases samples.len(),
{
    reveal(Seq::filter);
    let keep = |sample: SampleView| !sample.timestamp.is_before(&cutoff);
    if samples.len() > 0 {
        let shorter = samples.drop_last();
        lemma_readings_of_filtered(shorter, cutoff);
        if keep(samples.last()) {
            let kept = shorter.filter(keep).push(samples.last());
            assert(samples.filter(keep) == kept);
            assert(kept.drop_last() =~= shorter.filter(keep));
            assert(kept.last() == samples.last());
        }
    }
}

/// Where the cold readings of a series leave room for the pad, so do the
/// cold readings of its samples, and the other way round.
pub proof fn lemma_pads_fit_readings(
    samples: Seq<SampleView>,
    warning_threshold: Temperature,
    cutoff: Option<Timestamp>,
)
    requires
        pads_fit(samples, warning_threshold, cutoff),
    ensures
        forall|k: int|
            0 <= k < readings(samples, cutoff).len() && is_cold(
                #[trigger] readings(samples, cutoff)[k],
                warning_threshold,
            ) ==> readings(samples, cutoff)[k].timestamp.can_pad(),
    decreases samples.len(),
{
    let all = readings(samples, cutoff);
    if samples.len() > 0 {
        let shorter = samples.drop_last();
        let before = readings(shorter, cutoff);
        assert forall|i: int|
            0 <= i < shorter.len() && reading_of(#[trigger] shorter[i], cutoff) is Some && is_cold(
                reading_of(shorter[i], cutoff).unwrap(),
                warning_threshold,
            ) implies shorter[i].timestamp.can_pad() by {
            assert(shorter[i] == samples[i]);
        }
        lemma_pads_fit_readings(shorter, warning_threshold, cutoff);
        match reading_of(samples.last(), cutoff) {
            Some(reading) => {
                assert(all =~= before.push(reading));
                assert forall|k: int|
                    0 <= k < all.len() && is_cold(
                        #[trigger] all[k],
                        warning_threshold,
                    ) implies all[k].timestamp.can_pad() by {
                    if k < before.len() {
                        assert(all[k] == before[k]);
                    } else {
                        assert(reading_of(samples[samples.len() - 1], cutoff) == Some(all[k]));
                    }
                }
            },
            None => {
                assert(all == before);
            },
        }
    }
}

/// The phases of samples that are sorted by time follow each other in
/// time: each ends after it starts, and each starts at or after the last
/// reading of every earlier one.
pub proof fn lemma_sorted_samples_give_phases_in_order(
    warning_threshold: Temperature,
    danger_threshold: Temperature,
    samples: Seq<SampleView>,
    cutoff: Option<Timestamp>,
)
    requires
        sorted_by_time(samples),
        pads_fit(samples, warning_threshold, cutoff),
    ensures
        in_order(cold_phases(warning_threshold, danger_threshold, samples, cutoff)),
{
    let all = readings(samples, cutoff);
    let runs = cold_runs(all, warning_threshold);
    let phases = cold_phases(warning_threshold, danger_threshold, samples, cutoff);
    lemma_readings_keep_order(samples, cutoff);
    lemma_pads_fit_readings(samples, warning_threshold, cutoff);
    lemma_phases_are_chronological(all, warning_threshold, danger_threshold);
    lemma_cold_runs_are_maximal_and_apart(all, warning_threshold);
    assert forall|k: int| 0 <= k < phases.len() implies (#[trigger] phases[k]).start.is_before(
        &phases[k].end,
    ) by {}
    assert forall|j: int, k: int| 0 <= j < k < phases.len() implies (
    #[trigger] phases[j]).start.not_after(&(#[trigger] phases[k]).start)
        && phases[j].end.unpadded().not_after(&phases[k].start) by {
        let last = all[runs[j].end - 1];
        assert(is_maximal_cold_run(all, warning_threshold, runs[j]));
        assert(is_cold(last, warning_threshold));
        assert(last.timestamp.padded().unpadded() == last.timestamp);
    }
}

} // verus!
