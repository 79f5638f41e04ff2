use metric_history::elapsed::compute_running_since;
use metric_history::format::format_time;
use metric_history::metric::{HistoryError, MetricHistory};
use metric_history::ring::{RingError, RingSeries};
use metric_history::updater::{update, Snapshot};

#[test]
fn ring_rejects_empty_initial() {
    assert!(RingSeries::new(Vec::new()).is_none());
}

#[test]
fn ring_keeps_initial_contents() {
    let series = RingSeries::new(vec![7, 8, 9]).unwrap();
    assert_eq!(series.len(), 3);
    assert_eq!(series.get(0), Ok(7));
    assert_eq!(series.get(1), Ok(8));
    assert_eq!(series.get(2), Ok(9));
}

#[test]
fn ring_rotation_preserves_length() {
    let mut series = RingSeries::new(vec![0; 61]).unwrap();
    for value in 0..200u64 {
        let before = series.len();
        series.rotate_and_set(value);
        assert_eq!(series.len(), before);
    }
    assert_eq!(series.len(), 61);
}

#[test]
fn ring_rotation_shifts_toward_oldest() {
    let mut series = RingSeries::new(vec![1, 2, 3]).unwrap();
    series.rotate_and_set(9);
    assert_eq!(series.get(0), Ok(9));
    assert_eq!(series.get(1), Ok(1));
    assert_eq!(series.get(2), Ok(2));
}

#[test]
fn ring_full_eviction_after_len_rotations() {
    let mut series = RingSeries::new(vec![100, 101, 102, 103]).unwrap();
    for value in [10, 20, 30, 40] {
        series.rotate_and_set(value);
    }
    assert_eq!(series.get(0), Ok(40));
    assert_eq!(series.get(1), Ok(30));
    assert_eq!(series.get(2), Ok(20));
    assert_eq!(series.get(3), Ok(10));
    for i in 0..4 {
        assert!(series.get(i).unwrap() < 100);
    }
}

#[test]
fn ring_index_out_of_range() {
    let mut series = RingSeries::new(vec![1, 2]).unwrap();
    assert_eq!(series.get(2), Err(RingError::IndexOutOfRange));
    assert_eq!(series.set(2, 5), Err(RingError::IndexOutOfRange));
    assert_eq!(series.get(0), Ok(1));
    assert_eq!(series.get(1), Ok(2));
}

#[test]
fn ring_set_overwrites_in_place() {
    let mut series = RingSeries::new(vec![1, 2, 3]).unwrap();
    assert_eq!(series.set(1, 42), Ok(()));
    assert_eq!(series.get(0), Ok(1));
    assert_eq!(series.get(1), Ok(42));
    assert_eq!(series.get(2), Ok(3));
}

#[test]
fn elapsed_process_older_than_observer() {
    assert_eq!(compute_running_since(400, 1000, 0), 600);
}

#[test]
fn elapsed_equal_timestamps() {
    assert_eq!(compute_running_since(700, 700, 0), 0);
}

#[test]
fn elapsed_process_newer_than_observer() {
    assert_eq!(compute_running_since(1000, 400, 50), 550);
}

#[test]
fn elapsed_never_wraps_at_extremes() {
    assert_eq!(compute_running_since(u64::MAX, 0, 0), u64::MAX);
    assert_eq!(compute_running_since(0, u64::MAX, 0), u64::MAX);
    assert_eq!(compute_running_since(0, u64::MAX, u64::MAX), u64::MAX);
    assert_eq!(compute_running_since(u64::MAX, 0, u64::MAX), 0);
    assert_eq!(compute_running_since(u64::MAX, u64::MAX, 3), 3);
}

#[test]
fn history_starts_empty_and_clean() {
    let history = MetricHistory::new(Some(100), true);
    assert_eq!(history.series_count(), 0);
    assert!(!history.is_dirty());
    assert_eq!(history.scale_ceiling(), Some(100));
    assert!(history.displays_labels());
    assert!(history.axis_labels(50).is_none());
}

#[test]
fn attach_rejects_empty_initial_points() {
    let mut history = MetricHistory::new(None, false);
    let result = history.attach_series(String::from("mem"), Vec::new(), None);
    assert_eq!(result, Err(HistoryError::EmptyInitialPoints));
    assert_eq!(history.series_count(), 0);
}

#[test]
fn record_on_missing_series_is_a_caller_error() {
    let mut history = MetricHistory::new(None, false);
    assert_eq!(history.record(0, 1), Err(HistoryError::NoSuchSeries));
    assert!(!history.is_dirty());
}

#[test]
fn record_sets_dirty_even_for_an_equal_value() {
    let mut history = MetricHistory::new(None, false);
    history
        .attach_series(String::from("mem"), vec![5; 8], None)
        .unwrap();
    history.acknowledge();
    assert!(!history.is_dirty());
    assert_eq!(history.record(0, 5), Ok(()));
    assert!(history.is_dirty());
    history.acknowledge();
    assert_eq!(history.record(0, 5), Ok(()));
    assert!(history.is_dirty());
    assert_eq!(history.newest(0), Ok(5));
}

#[test]
fn series_lookup_by_name() {
    let mut history = MetricHistory::new(None, false);
    history
        .attach_series(String::from("memory"), vec![0; 4], None)
        .unwrap();
    history
        .attach_series(String::from("swap"), vec![0; 4], None)
        .unwrap();
    assert_eq!(history.series_index_of(&String::from("memory")), Some(0));
    assert_eq!(history.series_index_of(&String::from("swap")), Some(1));
    assert_eq!(history.series_index_of(&String::from("cpu")), None);
    let index = history.series_index_of(&String::from("swap")).unwrap();
    assert_eq!(history.record(index, 9), Ok(()));
    assert_eq!(history.newest(1), Ok(9));
    assert_eq!(history.newest(0), Ok(0));
}

#[test]
fn invalidate_is_idempotent() {
    let mut history = MetricHistory::new(None, false);
    history.invalidate();
    assert!(history.is_dirty());
    history.invalidate();
    assert!(history.is_dirty());
    history.acknowledge();
    assert!(!history.is_dirty());
}

#[test]
fn update_records_both_samples_and_returns_elapsed() {
    let mut memory_history = MetricHistory::new(Some(16_384_000), true);
    memory_history
        .attach_series(
            String::from("memory"),
            vec![0; 61],
            Some(metric_history::labeler::ScaleLabeler::Bytes),
        )
        .unwrap();
    let mut cpu_history = MetricHistory::new(Some(100), true);
    cpu_history
        .attach_series(
            String::from("cpu"),
            vec![0; 61],
            Some(metric_history::labeler::ScaleLabeler::Percent),
        )
        .unwrap();
    memory_history.acknowledge();
    cpu_history.acknowledge();

    let snapshot = Snapshot {
        memory_sample: 123_456,
        cpu_sample: (2.5f64).to_bits(),
        process_start_time: 400,
    };
    let elapsed = update(&mut memory_history, &mut cpu_history, &snapshot, 1000, 7);
    assert_eq!(elapsed, 607);
    assert_eq!(memory_history.newest(0), Ok(123_456));
    assert_eq!(f64::from_bits(cpu_history.newest(0).unwrap()), 2.5);
    assert!(memory_history.is_dirty());
    assert!(cpu_history.is_dirty());
    let series = memory_history.series_at(0).unwrap();
    assert_eq!(series.len(), 61);
    assert_eq!(series.get(1), Ok(0));
}

#[test]
fn end_to_end_cpu_history_tick() {
    let mut cpu_history = MetricHistory::new(Some(100), true);
    cpu_history
        .attach_series(
            String::from("cpu"),
            vec![0; 61],
            Some(metric_history::labeler::ScaleLabeler::Percent),
        )
        .unwrap();
    cpu_history.acknowledge();
    assert_eq!(cpu_history.record(0, (37.5f64).to_bits()), Ok(()));
    assert_eq!(f64::from_bits(cpu_history.newest(0).unwrap()), 37.5);
    assert!(cpu_history.is_dirty());
    let labels = cpu_history.axis_labels(37).unwrap();
    assert_eq!(labels.top, "100");
    assert_eq!(labels.mid, "50");
    assert_eq!(labels.bottom, "0");
    assert_eq!(labels.unit, "%");
}

#[test]
fn format_time_always_shows_seconds() {
    assert_eq!(format_time(0), "0s");
    assert_eq!(format_time(59), "59s");
}

#[test]
fn format_time_skips_zero_units() {
    assert_eq!(format_time(60), "1m 0s");
    assert_eq!(format_time(3_600), "1h 0s");
    assert_eq!(format_time(86_400), "1d 0s");
    assert_eq!(format_time(172_859), "2d 59s");
}

#[test]
fn format_time_full_breakdown() {
    assert_eq!(format_time(90_061), "1d 1h 1m 1s");
    assert_eq!(format_time(3_661), "1h 1m 1s");
    assert_eq!(format_time(7_305), "2h 1m 45s");
}
