use frost::backend::{
    accumulate_cold_phases, backend_response, check_pads_fit, station_name,
    try_accumulate_cold_phases,
};
use frost::common::{ColdPhase, RecordType, Sample};
use frost::temperature::Temperature;
use frost::time::Timestamp;

/// 2020-04-21T00:00:00Z.
const MIDNIGHT: i64 = 1_587_427_200;
const HOUR: i64 = 3_600;
const CEST: i32 = 7_200;

fn celsius(value: f32) -> Temperature {
    Temperature::from_bits(value.to_bits())
}

fn at(seconds: i64, offset: i32) -> Timestamp {
    Timestamp { seconds, nanos: 0, offset }
}

fn sample(seconds: i64, offset: i32, temperature: Option<f32>, location: &str) -> Sample {
    Sample {
        timestamp: at(seconds, offset),
        temperature: temperature.map(celsius),
        location: location.to_string(),
    }
}

fn hourly(first: i64, offset: i32, temperatures: &[f32]) -> Vec<Sample> {
    temperatures
        .iter()
        .enumerate()
        .map(|(i, t)| sample(first + HOUR * i as i64, offset, Some(*t), "Münster/Osnabrück"))
        .collect()
}

fn phase(location: &str, min: f32, start: Timestamp, end: Timestamp, kind: RecordType) -> ColdPhase {
    ColdPhase {
        location: location.to_string(),
        min_temp: celsius(min),
        start,
        end,
        record_type: kind,
    }
}

#[test]
fn test() {
    let temperatures = [
        10.6, 10.3, 9.5, 7.5, 7.0, 6.7, 8.3, 10.3, 12.0, 13.1, 14.6, 14.7, 16.6, 17.1, 17.5, 17.6,
        17.7, 17.0, 16.3, 15.3, 14.5, 14.1, 13.7, 13.1, 12.3,
    ];
    let data = hourly(MIDNIGHT, 0, &temperatures);
    let cold_phases = accumulate_cold_phases(celsius(10.0), celsius(7.0), &data, None);

    assert_eq!(cold_phases.len(), 1);

    // 2020-04-21T04:00:00+02:00 to 2020-04-21T09:00:00+02:00, on the clock of
    // the samples.
    let expected = phase(
        "Münster/Osnabrück",
        6.7,
        at(MIDNIGHT + 2 * HOUR, 0),
        at(MIDNIGHT + 7 * HOUR, 0),
        RecordType::Danger,
    );
    assert_eq!(cold_phases[0], expected);
    assert_eq!(f32::from_bits(cold_phases[0].min_temp.to_bits()), 6.7);

    let again = accumulate_cold_phases(celsius(10.0), celsius(7.0), &data, None);
    assert_eq!(cold_phases, again);
}

#[test]
fn one_run_with_a_dip_gives_one_danger_phase() {
    // Hourly samples; the cold run starts at 2020-04-21T04:00+02:00.
    let first = MIDNIGHT + HOUR;
    let data = hourly(first, CEST, &[12.0, 9.0, 6.7, 8.0, 11.0]);
    let phases = accumulate_cold_phases(celsius(10.0), celsius(7.0), &data, None);
    assert_eq!(
        phases,
        vec![phase(
            "Münster/Osnabrück",
            6.7,
            at(MIDNIGHT + 2 * HOUR, CEST),
            at(MIDNIGHT + 5 * HOUR, CEST),
            RecordType::Danger,
        )]
    );
    // The end is the start of the last contributing sample plus one hour.
    assert_eq!(phases[0].end.seconds, data[3].timestamp.seconds + HOUR);
}

#[test]
fn a_series_that_starts_warm_starts_its_phase_at_the_first_cold_sample() {
    // Hourly samples from 2020-04-21T04:00+02:00 on.
    let first = MIDNIGHT + 2 * HOUR;
    let data = hourly(first, CEST, &[12.0, 9.0, 6.7, 8.0, 11.0]);
    let phases = accumulate_cold_phases(celsius(10.0), celsius(7.0), &data, None);
    assert_eq!(
        phases,
        vec![phase(
            "Münster/Osnabrück",
            6.7,
            at(first + HOUR, CEST),
            at(first + 4 * HOUR, CEST),
            RecordType::Danger,
        )]
    );
}

#[test]
fn all_warm_gives_nothing() {
    let data = hourly(MIDNIGHT, 0, &[10.5, 11.0, 12.0, 30.0]);
    assert!(accumulate_cold_phases(celsius(10.0), celsius(7.0), &data, None).is_empty());
}

#[test]
fn no_samples_give_nothing() {
    let data: Vec<Sample> = Vec::new();
    assert!(accumulate_cold_phases(celsius(10.0), celsius(7.0), &data, None).is_empty());
    assert_eq!(station_name(&data, None), None);
}

#[test]
fn two_runs_give_two_phases_in_order() {
    let data = hourly(MIDNIGHT, 0, &[9.0, 8.0, 10.5, 7.5, 6.0, 9.5]);
    let phases = accumulate_cold_phases(celsius(10.0), celsius(7.0), &data, None);
    assert_eq!(
        phases,
        vec![
            phase(
                "Münster/Osnabrück",
                8.0,
                at(MIDNIGHT, 0),
                at(MIDNIGHT + 2 * HOUR, 0),
                RecordType::Warning,
            ),
            phase(
                "Münster/Osnabrück",
                6.0,
                at(MIDNIGHT + 3 * HOUR, 0),
                at(MIDNIGHT + 6 * HOUR, 0),
                RecordType::Danger,
            ),
        ]
    );
    assert!(phases[0].end.seconds <= phases[1].start.seconds);
}

#[test]
fn danger_in_the_middle_marks_the_whole_phase() {
    let data = hourly(MIDNIGHT, 0, &[9.0, 6.5, 9.0]);
    let phases = accumulate_cold_phases(celsius(10.0), celsius(7.0), &data, None);
    assert_eq!(phases.len(), 1);
    assert_eq!(phases[0].record_type, RecordType::Danger);
    assert_eq!(phases[0].min_temp, celsius(6.5));
    assert_eq!(phases[0].start, at(MIDNIGHT, 0));
    assert_eq!(phases[0].end, at(MIDNIGHT + 3 * HOUR, 0));
}

#[test]
fn cutoff_inside_a_run_starts_the_phase_at_the_cutoff() {
    let data = hourly(MIDNIGHT, 0, &[9.0, 6.0, 8.0, 9.5, 11.0]);
    let cutoff = at(MIDNIGHT + 2 * HOUR, 0);
    let phases = accumulate_cold_phases(celsius(10.0), celsius(7.0), &data, Some(cutoff));
    assert_eq!(
        phases,
        vec![phase(
            "Münster/Osnabrück",
            8.0,
            at(MIDNIGHT + 2 * HOUR, 0),
            at(MIDNIGHT + 4 * HOUR, 0),
            RecordType::Warning,
        )]
    );
}

#[test]
fn cutoff_between_samples_keeps_the_later_ones() {
    let data = hourly(MIDNIGHT, 0, &[9.0, 6.0, 8.0]);
    let cutoff = Timestamp { seconds: MIDNIGHT + HOUR, nanos: 1, offset: 0 };
    let phases = accumulate_cold_phases(celsius(10.0), celsius(7.0), &data, Some(cutoff));
    assert_eq!(phases.len(), 1);
    assert_eq!(phases[0].start, at(MIDNIGHT + 2 * HOUR, 0));
    assert_eq!(phases[0].min_temp, celsius(8.0));
}

#[test]
fn cutoff_compares_instants_not_clocks() {
    // 01:00Z written on a clock two hours ahead is not before 01:00Z.
    let data = vec![sample(MIDNIGHT + HOUR, CEST, Some(5.0), "a")];
    let phases =
        accumulate_cold_phases(celsius(10.0), celsius(7.0), &data, Some(at(MIDNIGHT + HOUR, 0)));
    assert_eq!(phases.len(), 1);
    assert_eq!(phases[0].start.offset, CEST);
    assert_eq!(phases[0].end, at(MIDNIGHT + 2 * HOUR, CEST));
}

#[test]
fn filtering_before_differs_from_filtering_after() {
    let data = hourly(MIDNIGHT, 0, &[9.0, 6.0, 8.0, 9.5, 11.0]);
    let cutoff = at(MIDNIGHT + 2 * HOUR, 0);
    let warning = celsius(10.0);
    let danger = celsius(7.0);

    // Filtering first is what a cutoff means.
    let kept: Vec<Sample> =
        data.iter().filter(|s| !s.timestamp.is_before(&cutoff)).cloned().collect();
    let before = accumulate_cold_phases(warning, danger, &kept, None);
    assert_eq!(before, accumulate_cold_phases(warning, danger, &data, Some(cutoff)));

    // Dropping the phases that end before the cutoff afterwards keeps the
    // early start, minimum and severity.
    let after: Vec<ColdPhase> = accumulate_cold_phases(warning, danger, &data, None)
        .into_iter()
        .filter(|p| !p.end.is_before(&cutoff))
        .collect();
    assert_eq!(after.len(), 1);
    assert_eq!(after[0].start, at(MIDNIGHT, 0));
    assert_eq!(after[0].min_temp, celsius(6.0));
    assert_eq!(after[0].record_type, RecordType::Danger);
    assert_ne!(before, after);
}

#[test]
fn a_reading_at_the_warning_threshold_is_cold() {
    let data = hourly(MIDNIGHT, 0, &[10.0]);
    let phases = accumulate_cold_phases(celsius(10.0), celsius(7.0), &data, None);
    assert_eq!(phases.len(), 1);
    assert_eq!(phases[0].record_type, RecordType::Warning);
}

#[test]
fn a_reading_at_the_danger_threshold_is_dangerous() {
    let data = hourly(MIDNIGHT, 0, &[7.0]);
    let phases = accumulate_cold_phases(celsius(10.0), celsius(7.0), &data, None);
    assert_eq!(phases.len(), 1);
    assert_eq!(phases[0].record_type, RecordType::Danger);
}

#[test]
fn a_sample_without_temperature_is_skipped() {
    let data = vec![
        sample(MIDNIGHT, 0, Some(9.0), "a"),
        sample(MIDNIGHT + HOUR, 0, None, "b"),
        sample(MIDNIGHT + 2 * HOUR, 0, Some(8.0), "c"),
    ];
    let phases = accumulate_cold_phases(celsius(10.0), celsius(7.0), &data, None);
    assert_eq!(
        phases,
        vec![phase("a", 8.0, at(MIDNIGHT, 0), at(MIDNIGHT + 3 * HOUR, 0), RecordType::Warning)]
    );
}

#[test]
fn a_nan_reading_ends_the_phase() {
    let data = vec![
        sample(MIDNIGHT, 0, Some(9.0), "a"),
        sample(MIDNIGHT + HOUR, 0, Some(f32::NAN), "a"),
        sample(MIDNIGHT + 2 * HOUR, 0, Some(8.0), "a"),
    ];
    let phases = accumulate_cold_phases(celsius(10.0), celsius(7.0), &data, None);
    assert_eq!(phases.len(), 2);
    assert_eq!(phases[0].end, at(MIDNIGHT + HOUR, 0));
    assert_eq!(phases[1].start, at(MIDNIGHT + 2 * HOUR, 0));
}

#[test]
fn a_nan_threshold_makes_nothing_cold() {
    let data = hourly(MIDNIGHT, 0, &[-40.0, 3.0]);
    assert!(accumulate_cold_phases(celsius(f32::NAN), celsius(7.0), &data, None).is_empty());
    let phases = accumulate_cold_phases(celsius(10.0), celsius(f32::NAN), &data, None);
    assert_eq!(phases.len(), 1);
    assert_eq!(phases[0].record_type, RecordType::Warning);
}

#[test]
fn danger_above_warning_marks_every_phase() {
    let data = hourly(MIDNIGHT, 0, &[4.0, 6.0]);
    let phases = accumulate_cold_phases(celsius(5.0), celsius(20.0), &data, None);
    assert_eq!(phases.len(), 1);
    assert_eq!(phases[0].record_type, RecordType::Danger);
    assert_eq!(phases[0].end, at(MIDNIGHT + HOUR, 0));
}

#[test]
fn the_phase_is_named_after_its_first_sample() {
    let data = vec![
        sample(MIDNIGHT, 0, Some(20.0), "warm"),
        sample(MIDNIGHT + HOUR, 0, Some(3.0), "first"),
        sample(MIDNIGHT + 2 * HOUR, 0, Some(2.0), "second"),
    ];
    let phases = accumulate_cold_phases(celsius(5.0), celsius(0.0), &data, None);
    assert_eq!(phases.len(), 1);
    assert_eq!(phases[0].location, "first");
}

#[test]
fn the_minimum_keeps_the_first_of_equal_readings() {
    let data = hourly(MIDNIGHT, 0, &[0.0, -0.0, 0.0]);
    let phases = accumulate_cold_phases(celsius(5.0), celsius(-1.0), &data, None);
    assert_eq!(phases.len(), 1);
    assert_eq!(phases[0].min_temp.to_bits(), 0.0f32.to_bits());
    let data = hourly(MIDNIGHT, 0, &[-0.0, 0.0]);
    let phases = accumulate_cold_phases(celsius(5.0), celsius(-1.0), &data, None);
    assert_eq!(phases[0].min_temp.to_bits(), (-0.0f32).to_bits());
}

#[test]
fn negative_readings_are_ordered_as_numbers() {
    let data = hourly(MIDNIGHT, 0, &[-1.5, -12.25, -3.0, 0.5]);
    let phases = accumulate_cold_phases(celsius(0.0), celsius(-10.0), &data, None);
    assert_eq!(
        phases,
        vec![phase(
            "Münster/Osnabrück",
            -12.25,
            at(MIDNIGHT, 0),
            at(MIDNIGHT + 3 * HOUR, 0),
            RecordType::Danger,
        )]
    );
}

#[test]
fn an_open_phase_is_closed_at_the_end() {
    let data = hourly(MIDNIGHT, 0, &[11.0, 9.0]);
    let phases = accumulate_cold_phases(celsius(10.0), celsius(7.0), &data, None);
    assert_eq!(phases.len(), 1);
    assert_eq!(phases[0].end, at(MIDNIGHT + 2 * HOUR, 0));
}

#[test]
fn the_pad_must_fit() {
    let late = vec![sample(i64::MAX - 10, 0, Some(1.0), "a")];
    assert!(!check_pads_fit(celsius(10.0), &late, None));
    assert_eq!(try_accumulate_cold_phases(celsius(10.0), celsius(7.0), &late, None), None);
    // A warm sample gets no pad, so it may lie anywhere.
    assert!(check_pads_fit(celsius(0.0), &late, None));
    assert_eq!(
        try_accumulate_cold_phases(celsius(0.0), celsius(-5.0), &late, None),
        Some(Vec::new())
    );
    let last = vec![sample(i64::MAX - HOUR, 0, Some(1.0), "a")];
    let phases = try_accumulate_cold_phases(celsius(10.0), celsius(7.0), &last, None).unwrap();
    assert_eq!(phases[0].end.seconds, i64::MAX);
}

#[test]
fn the_response_names_the_last_station() {
    let data = vec![
        sample(MIDNIGHT, 0, Some(3.0), "first"),
        sample(MIDNIGHT + HOUR, 0, Some(20.0), "second"),
        sample(MIDNIGHT + 2 * HOUR, 0, None, "third"),
    ];
    let response = backend_response(celsius(5.0), celsius(0.0), &data, None);
    assert_eq!(response.location, Some("third".to_string()));
    assert_eq!(response.cold_phases.len(), 1);
    assert_eq!(response.cold_phases[0].location, "first");

    let late = at(MIDNIGHT + 3 * HOUR, 0);
    let response = backend_response(celsius(5.0), celsius(0.0), &data, Some(late));
    assert_eq!(response.location, None);
    assert!(response.cold_phases.is_empty());
}
