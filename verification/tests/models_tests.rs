use transcoder::models::{TimeSegment, FULL_PROGRESS, MIN_SPAN_US};

const SECOND: i64 = 1_000_000;

#[test]
fn segment_inside_media_is_valid() {
    let open_ended = TimeSegment { start_us: 0, end_us: None };
    assert!(open_ended.is_valid(10 * SECOND));
    let bounded = TimeSegment { start_us: 2 * SECOND, end_us: Some(5 * SECOND) };
    assert!(bounded.is_valid(10 * SECOND));
    let last_moment = TimeSegment { start_us: 10 * SECOND - 1, end_us: None };
    assert!(last_moment.is_valid(10 * SECOND));
}

#[test]
fn segment_end_beyond_media_is_valid() {
    let segment = TimeSegment { start_us: SECOND, end_us: Some(20 * SECOND) };
    assert!(segment.is_valid(10 * SECOND));
}

#[test]
fn segment_starting_at_or_after_the_end_is_invalid() {
    let at_end = TimeSegment { start_us: 10 * SECOND, end_us: None };
    assert!(!at_end.is_valid(10 * SECOND));
    let beyond = TimeSegment { start_us: 11 * SECOND, end_us: Some(12 * SECOND) };
    assert!(!beyond.is_valid(10 * SECOND));
}

#[test]
fn segment_with_negative_start_is_invalid() {
    let segment = TimeSegment { start_us: -1, end_us: None };
    assert!(!segment.is_valid(10 * SECOND));
    assert!(!segment.is_well_formed());
}

#[test]
fn segment_ending_at_or_before_its_start_is_invalid() {
    let empty = TimeSegment { start_us: 3 * SECOND, end_us: Some(3 * SECOND) };
    assert!(!empty.is_valid(10 * SECOND));
    assert!(!empty.is_well_formed());
    let backwards = TimeSegment { start_us: 3 * SECOND, end_us: Some(2 * SECOND) };
    assert!(!backwards.is_valid(10 * SECOND));
    assert!(!backwards.is_well_formed());
}

#[test]
fn segment_in_media_of_no_length_is_invalid() {
    let segment = TimeSegment { start_us: 0, end_us: None };
    assert!(!segment.is_valid(0));
    assert!(segment.is_well_formed());
}

#[test]
fn well_formed_does_not_depend_on_the_media() {
    let segment = TimeSegment { start_us: 50 * SECOND, end_us: Some(60 * SECOND) };
    assert!(segment.is_well_formed());
    assert!(!segment.is_valid(10 * SECOND));
}

#[test]
fn duration_of_bounded_segment() {
    let segment = TimeSegment { start_us: 30 * SECOND, end_us: Some(90 * SECOND) };
    assert_eq!(segment.duration(180 * SECOND), 60 * SECOND);
}

#[test]
fn duration_of_open_segment_runs_to_the_end() {
    let segment = TimeSegment { start_us: 30 * SECOND, end_us: None };
    assert_eq!(segment.duration(180 * SECOND), 150 * SECOND);
}

#[test]
fn duration_stops_at_the_end_of_the_media() {
    let segment = TimeSegment { start_us: 30 * SECOND, end_us: Some(500 * SECOND) };
    assert_eq!(segment.duration(180 * SECOND), 150 * SECOND);
}

#[test]
fn duration_may_be_negative() {
    let segment = TimeSegment { start_us: 200 * SECOND, end_us: None };
    assert_eq!(segment.duration(180 * SECOND), -20 * SECOND);
}

#[test]
fn clamp_leaves_a_segment_inside_the_media_alone() {
    let segment = TimeSegment { start_us: 2 * SECOND, end_us: Some(5 * SECOND) };
    assert_eq!(segment.clamp(10 * SECOND), segment);
}

#[test]
fn clamp_moves_a_negative_start_to_zero() {
    let segment = TimeSegment { start_us: -5 * SECOND, end_us: Some(5 * SECOND) };
    let clamped = segment.clamp(10 * SECOND);
    assert_eq!(clamped, TimeSegment { start_us: 0, end_us: Some(5 * SECOND) });
    assert!(clamped.is_valid(10 * SECOND));
}

#[test]
fn clamp_moves_a_late_start_before_the_end() {
    let segment = TimeSegment { start_us: 50 * SECOND, end_us: None };
    let clamped = segment.clamp(10 * SECOND);
    assert_eq!(clamped, TimeSegment { start_us: 10 * SECOND - MIN_SPAN_US, end_us: None });
    assert!(clamped.is_valid(10 * SECOND));
}

#[test]
fn clamp_moves_the_end_into_the_media() {
    let segment = TimeSegment { start_us: 2 * SECOND, end_us: Some(50 * SECOND) };
    let clamped = segment.clamp(10 * SECOND);
    assert_eq!(clamped, TimeSegment { start_us: 2 * SECOND, end_us: Some(10 * SECOND) });
}

#[test]
fn clamp_moves_an_early_end_after_the_start() {
    let segment = TimeSegment { start_us: 2 * SECOND, end_us: Some(SECOND) };
    let clamped = segment.clamp(10 * SECOND);
    assert_eq!(
        clamped,
        TimeSegment { start_us: 2 * SECOND, end_us: Some(2 * SECOND + MIN_SPAN_US) }
    );
    assert!(clamped.is_valid(10 * SECOND));
}

#[test]
fn clamp_of_everything_out_of_range() {
    let segment = TimeSegment { start_us: 99 * SECOND, end_us: Some(-3 * SECOND) };
    let clamped = segment.clamp(10 * SECOND);
    assert_eq!(
        clamped,
        TimeSegment { start_us: 9_900_000, end_us: Some(10 * SECOND) }
    );
    assert!(clamped.is_valid(10 * SECOND));
}

#[test]
fn clamp_in_the_shortest_media() {
    let segment = TimeSegment { start_us: 7 * SECOND, end_us: Some(8 * SECOND) };
    let clamped = segment.clamp(MIN_SPAN_US);
    assert_eq!(clamped, TimeSegment { start_us: 0, end_us: Some(MIN_SPAN_US) });
    assert!(clamped.is_valid(MIN_SPAN_US));
}

#[test]
fn clamp_yields_valid_segments_over_a_grid() {
    let durations = [MIN_SPAN_US, 200_001, SECOND, 90 * SECOND];
    let points = [i64::MIN, -SECOND, 0, 1, 99_999, 100_000, SECOND, 89 * SECOND, i64::MAX];
    for duration in durations {
        for start in points {
            let open_ended = TimeSegment { start_us: start, end_us: None };
            assert!(open_ended.clamp(duration).is_valid(duration));
            for end in points {
                let segment = TimeSegment { start_us: start, end_us: Some(end) };
                assert!(segment.clamp(duration).is_valid(duration));
            }
        }
    }
}

#[test]
fn constants_have_their_documented_values() {
    assert_eq!(MIN_SPAN_US, 100_000);
    assert_eq!(FULL_PROGRESS, 10_000);
}
