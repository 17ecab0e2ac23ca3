use transcoder::models::{MediaMetadata, TimeSegment, VideoStream};
use transcoder::progress::{extract_value, parse_ffmpeg_progress, parse_time_string};

const LINE: &str =
    "frame=100 fps=25.0 q=10 size=500kB time=00:01:30.00 bitrate=2000kb/s speed=1.0x";

fn metadata(duration_us: i64) -> MediaMetadata {
    MediaMetadata {
        file_path: "clip.mp4".to_string(),
        duration_us,
        video: VideoStream {
            codec: "h264".to_string(),
            width: 1920,
            height: 1080,
            framerate: "25/1".to_string(),
            bit_depth: 8,
            pix_fmt: "yuv420p".to_string(),
            chroma_subsampling: "4:2:0".to_string(),
        },
        audio: None,
    }
}

#[test]
fn progress_line_without_segment() {
    let progress = parse_ffmpeg_progress(LINE, &metadata(180_000_000), None).unwrap();
    assert_eq!(progress.progress_bp, 5_000);
    assert_eq!(progress.fps_milli, Some(25_000));
    assert_eq!(progress.time_elapsed, "00:01:30.00");
    assert_eq!(progress.bitrate, Some("2000kb/s".to_string()));
    assert_eq!(progress.current_file, "clip.mp4");
    assert_eq!(progress.estimated_time, None);
}

#[test]
fn progress_line_with_segment() {
    let segment = TimeSegment { start_us: 30_000_000, end_us: Some(90_000_000) };
    let progress = parse_ffmpeg_progress(LINE, &metadata(180_000_000), Some(&segment)).unwrap();
    assert_eq!(progress.progress_bp, 10_000);
    assert_eq!(progress.fps_milli, Some(25_000));
    assert_eq!(progress.time_elapsed, "00:01:30.00");
}

#[test]
fn banner_line_gives_no_progress() {
    let banner = "ffmpeg version 6.0 Copyright (c) 2000-2023 the FFmpeg developers";
    assert_eq!(parse_ffmpeg_progress(banner, &metadata(180_000_000), None), None);
    let stream = "  Stream #0:0: Video: h264, yuv420p, 1920x1080, time=00:00:01.00";
    assert_eq!(parse_ffmpeg_progress(stream, &metadata(180_000_000), None), None);
    assert_eq!(parse_ffmpeg_progress("", &metadata(180_000_000), None), None);
}

#[test]
fn line_without_time_is_skipped() {
    let line = "frame=100 fps=25.0 q=10 size=500kB bitrate=2000kb/s";
    assert_eq!(parse_ffmpeg_progress(line, &metadata(180_000_000), None), None);
}

#[test]
fn line_with_unreadable_time_is_skipped() {
    let line = "frame=100 fps=25.0 time=N/A bitrate=N/A";
    assert_eq!(parse_ffmpeg_progress(line, &metadata(180_000_000), None), None);
    let short = "frame=100 time=01:30.00";
    assert_eq!(parse_ffmpeg_progress(short, &metadata(180_000_000), None), None);
}

#[test]
fn missing_optional_tokens_leave_their_fields_empty() {
    let line = "frame=100 time=00:00:45.00";
    let progress = parse_ffmpeg_progress(line, &metadata(180_000_000), None).unwrap();
    assert_eq!(progress.progress_bp, 2_500);
    assert_eq!(progress.fps_milli, None);
    assert_eq!(progress.bitrate, None);
    assert_eq!(progress.time_elapsed, "00:00:45.00");
}

#[test]
fn unreadable_fps_leaves_the_field_empty() {
    let line = "frame=100 fps=fast time=00:00:45.00 bitrate=N/A";
    let progress = parse_ffmpeg_progress(line, &metadata(180_000_000), None).unwrap();
    assert_eq!(progress.fps_milli, None);
    assert_eq!(progress.bitrate, Some("N/A".to_string()));
    assert_eq!(progress.progress_bp, 2_500);
}

#[test]
fn padded_values_are_empty() {
    let line = "frame=  123 fps= 25 q=12.0 size=   12345kB time=00:00:05.00 bitrate= 1234.5kbits/s";
    let progress = parse_ffmpeg_progress(line, &metadata(10_000_000), None).unwrap();
    assert_eq!(progress.fps_milli, None);
    assert_eq!(progress.bitrate, Some(String::new()));
    assert_eq!(progress.progress_bp, 5_000);
}

#[test]
fn progress_is_kept_between_zero_and_full() {
    let past_end = parse_ffmpeg_progress(LINE, &metadata(60_000_000), None).unwrap();
    assert_eq!(past_end.progress_bp, 10_000);
    let segment = TimeSegment { start_us: 120_000_000, end_us: None };
    let before_start =
        parse_ffmpeg_progress(LINE, &metadata(180_000_000), Some(&segment)).unwrap();
    assert_eq!(before_start.progress_bp, 0);
}

#[test]
fn media_without_length_gives_zero_progress() {
    let none = parse_ffmpeg_progress(LINE, &metadata(0), None).unwrap();
    assert_eq!(none.progress_bp, 0);
    let negative = parse_ffmpeg_progress(LINE, &metadata(-5), None).unwrap();
    assert_eq!(negative.progress_bp, 0);
    let segment = TimeSegment { start_us: 200_000_000, end_us: None };
    let inverted = parse_ffmpeg_progress(LINE, &metadata(180_000_000), Some(&segment)).unwrap();
    assert_eq!(inverted.progress_bp, 0);
}

#[test]
fn segment_end_beyond_media_counts_to_the_media_end() {
    let segment = TimeSegment { start_us: 60_000_000, end_us: Some(600_000_000) };
    let progress = parse_ffmpeg_progress(LINE, &metadata(180_000_000), Some(&segment)).unwrap();
    assert_eq!(progress.progress_bp, 2_500);
}

#[test]
fn progress_is_rounded_down() {
    let line = "frame=1 time=00:00:01.00";
    let progress = parse_ffmpeg_progress(line, &metadata(3_000_000), None).unwrap();
    assert_eq!(progress.progress_bp, 3_333);
}

#[test]
fn extreme_times_do_not_overflow() {
    let segment = TimeSegment { start_us: i64::MIN, end_us: Some(i64::MAX) };
    let progress = parse_ffmpeg_progress(LINE, &metadata(i64::MAX), Some(&segment)).unwrap();
    assert_eq!(progress.progress_bp, 5_000);
    let late = "frame=1 time=2562047788:00:54.775807";
    let at_limit = parse_ffmpeg_progress(late, &metadata(i64::MAX), None).unwrap();
    assert_eq!(at_limit.progress_bp, 10_000);
}

#[test]
fn extract_value_reads_up_to_the_next_space() {
    assert_eq!(extract_value(LINE, "time="), Some("00:01:30.00".to_string()));
    assert_eq!(extract_value(LINE, "fps="), Some("25.0".to_string()));
    assert_eq!(extract_value(LINE, "speed="), Some("1.0x".to_string()));
    assert_eq!(extract_value(LINE, "frame="), Some("100".to_string()));
    assert_eq!(extract_value(LINE, "missing="), None);
}

#[test]
fn extract_value_takes_the_first_occurrence() {
    assert_eq!(extract_value("a=1 a=2", "a="), Some("1".to_string()));
    assert_eq!(extract_value("xa=1 a=2", "a="), Some("1".to_string()));
}

#[test]
fn extract_value_prefers_a_space_to_a_tab() {
    assert_eq!(extract_value("k=v\tw x", "k="), Some("v\tw".to_string()));
    assert_eq!(extract_value("k=v\tw", "k="), Some("v".to_string()));
    assert_eq!(extract_value("a b\tk=v", "k="), Some("v".to_string()));
    assert_eq!(extract_value("k=", "k="), Some(String::new()));
    assert_eq!(extract_value("k=é ü", "k="), Some("é".to_string()));
}

#[test]
fn parse_time_string_values() {
    assert_eq!(parse_time_string("00:01:23.45"), Some(83_450_000));
    assert_eq!(parse_time_string("00:01:30.00"), Some(90_000_000));
    assert_eq!(parse_time_string("0:00:00.00"), Some(0));
    assert_eq!(parse_time_string("1:00:00"), Some(3_600_000_000));
    assert_eq!(parse_time_string("10:02:03.5"), Some(36_123_500_000));
    assert_eq!(parse_time_string("00:90:75.25"), Some(5_475_250_000));
}

#[test]
fn parse_time_string_refuses_other_shapes() {
    assert_eq!(parse_time_string(""), None);
    assert_eq!(parse_time_string("90"), None);
    assert_eq!(parse_time_string("01:30"), None);
    assert_eq!(parse_time_string("0:00:01:30"), None);
    assert_eq!(parse_time_string(":01:30"), None);
    assert_eq!(parse_time_string("00::30"), None);
    assert_eq!(parse_time_string("00:01:"), None);
    assert_eq!(parse_time_string("-00:00:01.00"), None);
    assert_eq!(parse_time_string("00:01:3x"), None);
    assert_eq!(parse_time_string("0.5:00:00"), None);
    assert_eq!(parse_time_string("N/A"), None);
}

#[test]
fn parse_time_string_stops_at_the_largest_value() {
    assert_eq!(parse_time_string("2562047788:00:54.775807"), Some(i64::MAX));
    assert_eq!(parse_time_string("2562047788:00:54.775808"), None);
    assert_eq!(parse_time_string("99999999999999999999999:00:00"), None);
    assert_eq!(parse_time_string("0:99999999999999999999999:00"), None);
}

#[test]
fn share_values() {
    let share = |elapsed: &str, total_us: i64| {
        let line = format!("frame=1 time={}", elapsed);
        parse_ffmpeg_progress(&line, &metadata(total_us), None).unwrap().progress_bp
    };
    assert_eq!(share("0:00:00.90", 1_800_000), 5_000);
    assert_eq!(share("0:00:00.60", 600_000), 10_000);
    assert_eq!(share("0:00:00.61", 600_000), 10_000);
    assert_eq!(share("0:00:00", 600_000), 0);
    assert_eq!(share("0:00:10", 0), 0);
    assert_eq!(share("0:00:10", -3), 0);
    assert_eq!(share("0:00:01", 3_000_000), 3_333);
    assert_eq!(share("0:00:02", 3_000_000), 6_666);
    assert_eq!(share("0:00:00.000001", 20_000), 0);
    assert_eq!(share("0:00:00.000002", 20_000), 1);
}
