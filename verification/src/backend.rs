//! The accumulator: from a series of samples to its cold phases.
//!
//! A cold phase is a maximal run of consecutive readings at or below the
//! warning threshold. [`cold_runs`] says where those runs lie in the series
//! of readings, [`summarize`] says what one run amounts to, and
//! [`accumulate_cold_phases`] computes the summaries of all runs in a single
//! pass.
use crate::common::{
    BackendError, BackendResponse, BackendResponseView, BackendResult, BrightskyApiError,
    ColdPhase, ColdPhaseView, Reading, RecordType, Sample, SampleView,
};
use crate::laws::lemma_sorted_samples_give_phases_in_order;
use crate::temperature::Temperature;
use crate::text::{replaced, spec_replaced};
use crate::time::Timestamp;
use vstd::prelude::*;
use vstd::string::StringExecFns;

verus! {

/// What a sample contributes to the series of readings: nothing where it has
/// no temperature or lies strictly before the cutoff, and else its reading.
pub open spec fn reading_of(sample: SampleView, cutoff: Option<Timestamp>) -> Option<Reading> {
    if sample.temperature is None {
        None
    } else if cutoff is Some && sample.timestamp.is_before(&cutoff.unwrap()) {
        None
    } else {
        Some(
            Reading {
                timestamp: sample.timestamp,
                temperature: sample.temperature.unwrap(),
                location: sample.location,
            },
        )
    }
}

/// The readings of a series of samples, in the order of the samples.
pub open spec fn readings(samples: Seq<SampleView>, cutoff: Option<Timestamp>) -> Seq<Reading> {
    samples.filter_map(|sample: SampleView| reading_of(sample, cutoff))
}

/// Whether a reading is at or below the warning threshold. A reading equal
/// to the threshold is cold; a NaN reading is not, whatever the threshold,
/// and no reading is cold under a NaN threshold.
pub open spec fn is_cold(reading: Reading, warning_threshold: Temperature) -> bool {
    reading.temperature.le(&warning_threshold)
}

/// Whether a reading is at or below the danger threshold.
pub open spec fn is_dangerous(reading: Reading, danger_threshold: Temperature) -> bool {
    reading.temperature.le(&danger_threshold)
}

/// The samples that open or extend a phase are those whose timestamp gets
/// the one-hour pad, so each of them must leave room for it.
pub open spec fn pads_fit(
    samples: Seq<SampleView>,
    warning_threshold: Temperature,
    cutoff: Option<Timestamp>,
) -> bool {
    forall|i: int|
        0 <= i < samples.len() && reading_of(#[trigger] samples[i], cutoff) is Some && is_cold(
            reading_of(samples[i], cutoff).unwrap(),
            warning_threshold,
        ) ==> samples[i].timestamp.can_pad()
}

/// The index at which the cold run at the end of `readings` begins, or the
/// length of `readings` where the last reading is not cold.
pub open spec fn trailing_run_start(readings: Seq<Reading>, warning_threshold: Temperature) -> int
    decreases readings.len(),
{
    if readings.len() == 0 {
        0
    } else if !is_cold(readings.last(), warning_threshold) {
        readings.len() as int
    } else {
        trailing_run_start(readings.drop_last(), warning_threshold)
    }
}

/// A run of consecutive readings: those at the indices `first <= i < end`.
pub struct Run {
    pub first: int,
    pub end: int,
}

/// The maximal runs of cold readings, from the earliest to the latest.
pub open spec fn cold_runs(readings: Seq<Reading>, warning_threshold: Temperature) -> Seq<Run>
    decreases readings.len(),
{
    let start = trailing_run_start(readings, warning_threshold);
    if readings.len() == 0 {
        Seq::empty()
    } else if 0 <= start < readings.len() {
        cold_runs(readings.take(start), warning_threshold).push(
            Run { first: start, end: readings.len() as int },
        )
    } else {
        cold_runs(readings.drop_last(), warning_threshold)
    }
}

/// The lowest temperature of a run: the first reading that no other reading
/// is below.
pub open spec fn lowest(run: Seq<Reading>) -> Temperature
    decreases run.len(),
{
    if run.len() <= 1 {
        run[0].temperature
    } else {
        let before = lowest(run.drop_last());
        if run.last().temperature.lt(&before) {
            run.last().temperature
        } else {
            before
        }
    }
}

/// Whether some reading of the run is at or below the danger threshold.
pub open spec fn reaches_danger(run: Seq<Reading>, danger_threshold: Temperature) -> bool {
    exists|i: int| 0 <= i < run.len() && is_dangerous(#[trigger] run[i], danger_threshold)
}

/// The phase that a run of cold readings amounts to.
pub open spec fn summarize(run: Seq<Reading>, danger_threshold: Temperature) -> ColdPhaseView
    recommends
        run.len() > 0,
{
    ColdPhaseView {
        location: run.first().location,
        min_temp: lowest(run),
        start: run.first().timestamp,
        end: run.last().timestamp.padded(),
        record_type: if reaches_danger(run, danger_threshold) {
            RecordType::Danger
        } else {
            RecordType::Warning
        },
    }
}

/// The phases of a series of readings: one for each maximal cold run, in
/// the order of the runs.
pub open spec fn phases_of(
    readings: Seq<Reading>,
    warning_threshold: Temperature,
    danger_threshold: Temperature,
) -> Seq<ColdPhaseView> {
    let runs = cold_runs(readings, warning_threshold);
    Seq::new(
        runs.len(),
        |k: int| summarize(readings.subrange(runs[k].first, runs[k].end), danger_threshold),
    )
}

/// The cold phases of a series of samples.
pub open spec fn cold_phases(
    warning_threshold: Temperature,
    danger_threshold: Temperature,
    samples: Seq<SampleView>,
    cutoff: Option<Timestamp>,
) -> Seq<ColdPhaseView> {
    phases_of(readings(samples, cutoff), warning_threshold, danger_threshold)
}

/// Whether the timestamps never go back from one sample to the next.
pub open spec fn sorted_by_time(samples: Seq<SampleView>) -> bool {
    forall|i: int, j: int|
        0 <= i <= j < samples.len() ==> (#[trigger] samples[i]).timestamp.not_after(
            &(#[trigger] samples[j]).timestamp,
        )
}

/// Whether the phases follow each other in time: each ends after it starts,
/// none starts before an earlier one does, and the last reading of each,
/// one hour before its end, is not after the start of any later one.
pub open spec fn in_order(phases: Seq<ColdPhaseView>) -> bool {
    &&& forall|k: int|
        0 <= k < phases.len() ==> (#[trigger] phases[k]).start.is_before(&phases[k].end)
    &&& forall|j: int, k: int|
        0 <= j < k < phases.len() ==> (#[trigger] phases[j]).start.not_after(
            &(#[trigger] phases[k]).start,
        ) && phases[j].end.unpadded().not_after(&phases[k].start)
}

/// One more sample adds its reading, if it has one, at the end.
proof fn lemma_readings_step(samples: Seq<SampleView>, cutoff: Option<Timestamp>)
    requires
        samples.len() > 0,
    ensures
        readings(samples, cutoff) == match reading_of(samples.last(), cutoff) {
            Some(reading) => readings(samples.drop_last(), cutoff).push(reading),
            None => readings(samples.drop_last(), cutoff),
        },
{
    let f = |sample: SampleView| reading_of(sample, cutoff);
    match reading_of(samples.last(), cutoff) {
        Some(reading) => {
            assert(samples.drop_last().filter_map(f) + seq![reading]
                =~= samples.drop_last().filter_map(f).push(reading));
        },
        None => {},
    }
}

/// The trailing cold run begins inside the series, holds cold readings only
/// and cannot be extended to the left.
pub proof fn lemma_trailing_run(readings: Seq<Reading>, warning_threshold: Temperature)
    ensures
        0 <= trailing_run_start(readings, warning_threshold) <= readings.len(),
        forall|i: int|
            trailing_run_start(readings, warning_threshold) <= i < readings.len() ==> is_cold(
                #[trigger] readings[i],
                warning_threshold,
            ),
        trailing_run_start(readings, warning_threshold) > 0 ==> !is_cold(
            readings[trailing_run_start(readings, warning_threshold) - 1],
            warning_threshold,
        ),
    decreases readings.len(),
{
    if readings.len() > 0 && is_cold(readings.last(), warning_threshold) {
        let shorter = readings.drop_last();
        lemma_trailing_run(shorter, warning_threshold);
        let start = trailing_run_start(readings, warning_threshold);
        assert forall|i: int| start <= i < readings.len() implies is_cold(
            #[trigger] readings[i],
            warning_threshold,
        ) by {
            if i < shorter.len() {
                assert(readings[i] == shorter[i]);
            }
        }
        if start > 0 {
            assert(readings[start - 1] == shorter[start - 1]);
        }
    }
}

/// Every run lies inside the series and is not empty.
proof fn lemma_runs_in_bounds(readings: Seq<Reading>, warning_threshold: Temperature)
    ensures
        forall|k: int|
            0 <= k < cold_runs(readings, warning_threshold).len() ==> 0 <= (#[trigger] cold_runs(
                readings,
                warning_threshold,
            )[k]).first < cold_runs(readings, warning_threshold)[k].end <= readings.len(),
    decreases readings.len(),
{
    let start = trailing_run_start(readings, warning_threshold);
    let runs = cold_runs(readings, warning_threshold);
    if readings.len() == 0 {
    } else if 0 <= start < readings.len() {
        let before = cold_runs(readings.take(start), warning_threshold);
        lemma_runs_in_bounds(readings.take(start), warning_threshold);
        assert forall|k: int| 0 <= k < runs.len() implies 0 <= (#[trigger] runs[k]).first
            < runs[k].end <= readings.len() by {
            if k < before.len() {
                assert(runs[k] == before[k]);
            }
        }
    } else {
        let before = cold_runs(readings.drop_last(), warning_threshold);
        lemma_runs_in_bounds(readings.drop_last(), warning_threshold);
        assert forall|k: int| 0 <= k < runs.len() implies 0 <= (#[trigger] runs[k]).first
            < runs[k].end <= readings.len() by {
            assert(runs[k] == before[k]);
        }
    }
}

/// The phases of a series, in terms of the phases of what precedes its
/// trailing cold run.
proof fn lemma_phases_unfold(
    readings: Seq<Reading>,
    warning_threshold: Temperature,
    danger_threshold: Temperature,
)
    requires
        readings.len() > 0,
    ensures
        phases_of(readings, warning_threshold, danger_threshold) == if trailing_run_start(
            readings,
            warning_threshold,
        ) < readings.len() {
            phases_of(
                readings.take(trailing_run_start(readings, warning_threshold)),
                warning_threshold,
                danger_threshold,
            ).push(
                summarize(
                    readings.skip(trailing_run_start(readings, warning_threshold)),
                    danger_threshold,
                ),
            )
        } else {
            phases_of(readings.drop_last(), warning_threshold, danger_threshold)
        },
{
    let start = trailing_run_start(readings, warning_threshold);
    lemma_trailing_run(readings, warning_threshold);
    let before = if start < readings.len() {
        readings.take(start)
    } else {
        readings.drop_last()
    };
    lemma_runs_in_bounds(before, warning_threshold);
    let runs = cold_runs(readings, warning_threshold);
    let runs_before = cold_runs(before, warning_threshold);
    assert forall|k: int| 0 <= k < runs_before.len() implies readings.subrange(
        runs_before[k].first,
        runs_before[k].end,
    ) == before.subrange(runs_before[k].first, runs_before[k].end) by {
        assert(readings.subrange(runs_before[k].first, runs_before[k].end) =~= before.subrange(
            runs_before[k].first,
            runs_before[k].end,
        ));
    }
    if start < readings.len() {
        assert(runs == runs_before.push(Run { first: start, end: readings.len() as int }));
        assert(readings.subrange(start, readings.len() as int) =~= readings.skip(start));
        assert(phases_of(readings, warning_threshold, danger_threshold) =~= phases_of(
            before,
            warning_threshold,
            danger_threshold,
        ).push(summarize(readings.skip(start), danger_threshold)));
    } else {
        assert(runs == runs_before);
        assert(phases_of(readings, warning_threshold, danger_threshold) =~= phases_of(
            before,
            warning_threshold,
            danger_threshold,
        ));
    }
}

/// A run of one reading amounts to the phase that the reading opens, and a
/// run with one more reading to the phase extended by that reading.
proof fn lemma_summarize_step(run: Seq<Reading>, reading: Reading, danger_threshold: Temperature)
    ensures
        summarize(seq![reading], danger_threshold) == ColdPhaseView::opened(
            reading,
            danger_threshold,
        ),
        run.len() > 0 ==> summarize(run.push(reading), danger_threshold) == summarize(
            run,
            danger_threshold,
        ).extended(reading.temperature, reading.timestamp, danger_threshold),
{
    let single = seq![reading];
    assert(single[0] == reading);
    if is_dangerous(reading, danger_threshold) {
        assert(is_dangerous(single[0], danger_threshold));
    }
    if run.len() > 0 {
        let longer = run.push(reading);
        assert(longer.drop_last() =~= run);
        assert(longer.last() == reading);
        assert(longer.first() == run.first());
        if reaches_danger(run, danger_threshold) {
            let i = choose|i: int| 0 <= i < run.len() && is_dangerous(run[i], danger_threshold);
            assert(is_dangerous(longer[i], danger_threshold));
        }
        if is_dangerous(reading, danger_threshold) {
            assert(is_dangerous(longer[run.len() as int], danger_threshold));
        }
        if reaches_danger(longer, danger_threshold) {
            let i = choose|i: int|
                0 <= i < longer.len() && is_dangerous(longer[i], danger_threshold);
            if i < run.len() {
                assert(is_dangerous(run[i], danger_threshold));
            }
        }
    }
}

/// Merges a chronological series of samples into its cold phases.
///
/// Samples without a temperature are skipped, and so are those strictly
/// before `cutoff` where one is given. Of the readings that remain, each
/// maximal run at or below `warning_threshold` becomes one phase. The
/// samples are read once, in order, and nothing is sorted here: the phases
/// follow each other in time where the samples do.
///
/// The thresholds are taken as they come. Where the danger threshold lies
/// above the warning threshold, every phase is a `Danger` phase. A reading
/// that is not a number is not cold: it ends the phase before it, as a warm
/// reading does, and under a warning threshold that is not a number there
/// is no phase at all.
pub fn accumulate_cold_phases(
    warning_threshold: Temperature,
    danger_threshold: Temperature,
    samples: &Vec<Sample>,
    cutoff: Option<Timestamp>,
) -> (phases: Vec<ColdPhase>)
    requires
        pads_fit(samples.deep_view(), warning_threshold, cutoff),
    ensures
        phases.deep_view() == cold_phases(
            warning_threshold,
            danger_threshold,
            samples.deep_view(),
            cutoff,
        ),
        sorted_by_time(samples.deep_view()) ==> in_order(phases.deep_view()),
{
    proof {
        if sorted_by_time(samples.deep_view()) {
            lemma_sorted_samples_give_phases_in_order(
                warning_threshold,
                danger_threshold,
                samples.deep_view(),
                cutoff,
            );
        }
    }
    let mut phases: Vec<ColdPhase> = Vec::new();
    let mut current: Option<ColdPhase> = None;
    let ghost all = samples.deep_view();
    let mut i: usize = 0;
    while i < samples.len()
        invariant
            i <= samples.len(),
            all == samples.deep_view(),
            pads_fit(all, warning_threshold, cutoff),
            ({
                let seen = readings(all.take(i as int), cutoff);
                let start = trailing_run_start(seen, warning_threshold);
                &&& 0 <= start <= seen.len()
                &&& phases.deep_view() == phases_of(
                    seen.take(start),
                    warning_threshold,
                    danger_threshold,
                )
                &&& (current is None) == (start == seen.len())
                &&& current is Some ==> current.unwrap()@ == summarize(
                    seen.skip(start),
                    danger_threshold,
                )
            }),
        decreases samples.len() - i,
    {
        let sample = &samples[i];
        let ghost seen = readings(all.take(i as int), cutoff);
        let ghost start = trailing_run_start(seen, warning_threshold);
        let ghost closed = phases.deep_view();
        proof {
            assert(all.take(i + 1).drop_last() =~= all.take(i as int));
            assert(all.take(i + 1).last() == sample@);
            lemma_readings_step(all.take(i + 1), cutoff);
        }
        let skipped = match cutoff {
            Some(limit) => sample.timestamp.is_before(&limit),
            None => false,
        };
        if let Some(temperature) = sample.temperature {
            if !skipped {
                let ghost reading = Reading {
                    timestamp: sample.timestamp,
                    temperature,
                    location: sample.location@,
                };
                let ghost longer = seen.push(reading);
                proof {
                    assert(reading_of(all[i as int], cutoff) == Some(reading));
                    assert(readings(all.take(i + 1), cutoff) == longer);
                    assert(longer.drop_last() =~= seen);
                }
                if temperature.le(&warning_threshold) {
                    proof {
                        assert(trailing_run_start(longer, warning_threshold) == start);
                        assert(longer.take(start) =~= seen.take(start));
                        lemma_summarize_step(seen.skip(start), reading, danger_threshold);
                        if start < seen.len() {
                            assert(longer.skip(start) =~= seen.skip(start).push(reading));
                        } else {
                            assert(longer.skip(start) =~= seq![reading]);
                        }
                    }
                    let next = match current {
                        Some(mut phase) => {
                            phase.extend(temperature, sample.timestamp, danger_threshold);
                            phase
                        },
                        None => ColdPhase::open(
                            sample.location.clone(),
                            temperature,
                            sample.timestamp,
                            danger_threshold,
                        ),
                    };
                    current = Some(next);
                } else {
                    proof {
                        assert(trailing_run_start(longer, warning_threshold) == longer.len());
                        assert(longer.take(longer.len() as int) =~= longer);
                        lemma_phases_unfold(longer, warning_threshold, danger_threshold);
                        if seen.len() > 0 {
                            lemma_phases_unfold(seen, warning_threshold, danger_threshold);
                        }
                        assert(seen.take(seen.len() as int) =~= seen);
                    }
                    if let Some(phase) = current {
                        phases.push(phase);
                        proof {
                            assert(phases.deep_view() =~= closed.push(phase@));
                        }
                    }
                    current = None;
                }
            }
        }
        i = i + 1;
    }
    proof {
        let seen = readings(all, cutoff);
        assert(all.take(i as int) =~= all);
        assert(seen.take(seen.len() as int) =~= seen);
        if seen.len() > 0 {
            lemma_phases_unfold(seen, warning_threshold, danger_threshold);
        }
    }
    let ghost closed = phases.deep_view();
    if let Some(phase) = current {
        phases.push(phase);
        proof {
            assert(phases.deep_view() =~= closed.push(phase@));
        }
    }
    phases
}

/// Whether every sample that opens or extends a phase leaves room for the
/// one-hour pad, which is what [`accumulate_cold_phases`] asks of its
/// caller.
pub fn check_pads_fit(
    warning_threshold: Temperature,
    samples: &Vec<Sample>,
    cutoff: Option<Timestamp>,
) -> (fit: bool)
    ensures
        fit == pads_fit(samples.deep_view(), warning_threshold, cutoff),
{
    let ghost all = samples.deep_view();
    let mut i: usize = 0;
    while i < samples.len()
        invariant
            i <= samples.len(),
            all == samples.deep_view(),
            forall|k: int|
                0 <= k < i && reading_of(#[trigger] all[k], cutoff) is Some && is_cold(
                    reading_of(all[k], cutoff).unwrap(),
                    warning_threshold,
                ) ==> all[k].timestamp.can_pad(),
        decreases samples.len() - i,
    {
        let sample = &samples[i];
        assert(all[i as int] == sample@);
        let skipped = match cutoff {
            Some(limit) => sample.timestamp.is_before(&limit),
            None => false,
        };
        if let Some(temperature) = sample.temperature {
            if !skipped && temperature.le(&warning_threshold) && !sample.timestamp.can_pad() {
                return false;
            }
        }
        i = i + 1;
    }
    true
}

/// [`accumulate_cold_phases`] for a caller that cannot promise that the pads
/// fit: the phases where they do, and `None` where a sample that opens or
/// extends a phase lies within the last hour that a timestamp can hold.
pub fn try_accumulate_cold_phases(
    warning_threshold: Temperature,
    danger_threshold: Temperature,
    samples: &Vec<Sample>,
    cutoff: Option<Timestamp>,
) -> (out: Option<Vec<ColdPhase>>)
    ensures
        out is Some == pads_fit(samples.deep_view(), warning_threshold, cutoff),
        out is Some ==> out.unwrap().deep_view() == cold_phases(
            warning_threshold,
            danger_threshold,
            samples.deep_view(),
            cutoff,
        ),
{
    if check_pads_fit(warning_threshold, samples, cutoff) {
        Some(accumulate_cold_phases(warning_threshold, danger_threshold, samples, cutoff))
    } else {
        None
    }
}

/// The station that a response names: that of the last sample that is not
/// before the cutoff, whether or not it carries a temperature.
pub open spec fn last_location(samples: Seq<SampleView>, cutoff: Option<Timestamp>) -> Option<
    Seq<char>,
>
    decreases samples.len(),
{
    if samples.len() == 0 {
        None
    } else if cutoff is Some && samples.last().timestamp.is_before(&cutoff.unwrap()) {
        last_location(samples.drop_last(), cutoff)
    } else {
        Some(samples.last().location)
    }
}

/// The station of the last sample that is not before the cutoff.
pub fn station_name(samples: &Vec<Sample>, cutoff: Option<Timestamp>) -> (name: Option<String>)
    ensures
        name.deep_view() == last_location(samples.deep_view(), cutoff),
{
    let ghost all = samples.deep_view();
    let mut n: usize = samples.len();
    assert(all.take(n as int) =~= all);
    while n > 0
        invariant
            n <= samples.len(),
            all == samples.deep_view(),
            last_location(all, cutoff) == last_location(all.take(n as int), cutoff),
        decreases n,
    {
        let sample = &samples[n - 1];
        proof {
            assert(all.take(n as int).last() == sample@);
            assert(all.take(n as int).drop_last() =~= all.take(n - 1));
        }
        let skipped = match cutoff {
            Some(limit) => sample.timestamp.is_before(&limit),
            None => false,
        };
        if !skipped {
            return Some(sample.location.clone());
        }
        n = n - 1;
    }
    None
}

/// What the backend answers for a series of samples.
pub open spec fn response_of(
    warning_threshold: Temperature,
    danger_threshold: Temperature,
    samples: Seq<SampleView>,
    cutoff: Option<Timestamp>,
) -> BackendResponseView {
    BackendResponseView {
        location: last_location(samples, cutoff),
        cold_phases: cold_phases(warning_threshold, danger_threshold, samples, cutoff),
    }
}

/// The answer of the backend: the cold phases of the samples and the
/// station that the forecast comes from.
pub fn backend_response(
    warning_threshold: Temperature,
    danger_threshold: Temperature,
    samples: &Vec<Sample>,
    cutoff: Option<Timestamp>,
) -> (response: BackendResponse)
    requires
        pads_fit(samples.deep_view(), warning_threshold, cutoff),
    ensures
        response@ == response_of(
            warning_threshold,
            danger_threshold,
            samples.deep_view(),
            cutoff,
        ),
{
    BackendResponse {
        location: station_name(samples, cutoff),
        cold_phases: accumulate_cold_phases(warning_threshold, danger_threshold, samples, cutoff),
    }
}

/// What the backend makes of the body that the upstream service sent.
///
/// `brightsky_response` is `Ok` with the samples where the body was a
/// forecast. Where it was not, it is `Err` with what else the body was: the
/// error that the service reports, or, as `Err` again, the reason why the
/// body could not be read as that either.
///
/// A forecast is answered with its cold phases, be there none, and an error
/// of the service with that error: both are answers of the backend. Only a
/// body that cannot be read at all is a failure, and its reason is handed
/// back unchanged.
pub fn parse_response<E>(
    brightsky_response: Result<Vec<Sample>, Result<BrightskyApiError, E>>,
    warning_threshold: Temperature,
    danger_threshold: Temperature,
    cutoff: Option<Timestamp>,
) -> (out: Result<BackendResult, E>)
    requires
        brightsky_response matches Ok(samples) ==> pads_fit(
            samples.deep_view(),
            warning_threshold,
            cutoff,
        ),
    ensures
        match brightsky_response {
            Ok(samples) => out matches Ok(Ok(response)) && response@ == response_of(
                warning_threshold,
                danger_threshold,
                samples.deep_view(),
                cutoff,
            ),
            Err(Ok(api_error)) => out matches Ok(Err(error)) && error
                == BackendError::BrightskyError(api_error),
            Err(Err(reason)) => out matches Err(handed_back) && handed_back == reason,
        },
{
    match brightsky_response {
        Ok(samples) => Ok(
            Ok(backend_response(warning_threshold, danger_threshold, &samples, cutoff)),
        ),
        Err(Ok(api_error)) => Ok(Err(BackendError::BrightskyError(api_error))),
        Err(Err(reason)) => Err(reason),
    }
}

/// The character that a query may not hold as it stands.
pub const PLUS: char = '+';

/// What stands for a plus sign in a query.
pub const ESCAPED_PLUS: &'static str = "%2b";

/// The address under which the upstream service has the forecast for a
/// position and a span of time, before plus signs are escaped.
pub open spec fn plain_forecast_url(
    endpoint: Seq<char>,
    lat: Seq<char>,
    lon: Seq<char>,
    date: Seq<char>,
    last_date: Seq<char>,
) -> Seq<char> {
    endpoint + "?lat="@ + lat + "&lon="@ + lon + "&date="@ + date + "&last_date="@ + last_date
}

/// The address under which the upstream service has the forecast for a
/// position and a span of time.
pub open spec fn spec_forecast_url(
    endpoint: Seq<char>,
    lat: Seq<char>,
    lon: Seq<char>,
    date: Seq<char>,
    last_date: Seq<char>,
) -> Seq<char> {
    spec_replaced(plain_forecast_url(endpoint, lat, lon, date, last_date), PLUS, ESCAPED_PLUS@)
}

/// The address under which the upstream service has the forecast: the
/// endpoint and a query of latitude, longitude, first and last date, each
/// as the caller wrote it, with every plus sign escaped.
pub fn forecast_url(endpoint: &str, lat: &str, lon: &str, date: &str, last_date: &str) -> (url:
    String)
    ensures
        url@ == spec_forecast_url(endpoint@, lat@, lon@, date@, last_date@),
{
    let mut url = String::from_str(endpoint);
    url.append("?lat=");
    url.append(lat);
    url.append("&lon=");
    url.append(lon);
    url.append("&date=");
    url.append(date);
    url.append("&last_date=");
    url.append(last_date);
    replaced(url.as_str(), PLUS, ESCAPED_PLUS)
}

} // verus!
