//! The progress parser: from one line of the encoder's diagnostic stream to
//! a progress report.

use vstd::prelude::*;
use crate::decimal::{fixed_point, fixed_point_u64, is_number, digits_value, parse_fixed, parse_number};
use crate::models::{MediaMetadata, TimeSegment, TranscodeProgress, TranscodeProgressView, FULL_PROGRESS};
use crate::preset::segment_of;
use crate::text::{
    chars_of, contains, find_from, find_in, occurs, lemma_find_from_is_first,
    lemma_position_from_is_first, position_from, position_in, slice_of,
};

verus! {

/// Where the value that starts at `start` ends: at the first space after
/// `start`; where there is none, at the first tab; else at the end of the
/// line.
pub open spec fn value_end(line: Seq<char>, start: int) -> int {
    let space = position_from(line, ' ', start);
    if space < line.len() {
        space
    } else {
        position_from(line, '\t', start)
    }
}

/// The value that follows the first occurrence of `key` in `line`.
pub open spec fn token_value(line: Seq<char>, key: Seq<char>) -> Option<Seq<char>> {
    match find_from(line, key, 0) {
        None => None,
        Some(at) => Some(line.subrange(at + key.len(), value_end(line, at + key.len()))),
    }
}

/// The microseconds that an elapsed time `H:MM:SS.ss` counts: three parts
/// between two colons, hours and minutes as whole numbers, seconds as a
/// decimal number. Text of any other shape, or a time beyond `i64::MAX`
/// microseconds, has no value.
pub open spec fn clock_micros(time: Seq<char>) -> Option<i64> {
    let first = position_from(time, ':', 0);
    let second = position_from(time, ':', first + 1);
    let third = position_from(time, ':', second + 1);
    if first < time.len() && second < time.len() && third == time.len() && is_number(
        time.subrange(0, first),
    ) && is_number(time.subrange(first + 1, second)) {
        match fixed_point(time.skip(second + 1), 6) {
            Some(seconds) => {
                let total = digits_value(time.subrange(0, first)) * 3_600_000_000 + digits_value(
                    time.subrange(first + 1, second),
                ) * 60_000_000 + seconds;
                if total <= i64::MAX {
                    Some(total as i64)
                } else {
                    None
                }
            },
            None => None,
        }
    } else {
        None
    }
}

/// The share of `length` that `elapsed` is, in hundredths of a percent,
/// kept between 0 and `FULL_PROGRESS`; 0 where `length` is not positive.
pub open spec fn progress_share(elapsed: int, length: int) -> int {
    if length <= 0 || elapsed <= 0 {
        0
    } else if elapsed >= length {
        FULL_PROGRESS as int
    } else {
        elapsed * FULL_PROGRESS / length
    }
}

/// The time from which progress is counted: the start of the segment.
pub open spec fn progress_origin(segment: Option<TimeSegment>) -> int {
    match segment {
        Some(s) => s.start_us as int,
        None => 0,
    }
}

/// The length over which progress is counted: that of the segment's part in
/// the media, or of the whole media.
pub open spec fn progress_length(total_us: int, segment: Option<TimeSegment>) -> int {
    match segment {
        Some(s) => s.span(total_us),
        None => total_us,
    }
}

/// The frame rate that a line reports, in thousandths of a frame per second.
pub open spec fn fps_of(line: Seq<char>) -> Option<u64> {
    match token_value(line, "fps="@) {
        Some(text) => fixed_point_u64(text, 3),
        None => None,
    }
}

/// The progress report that a line of the encoder's diagnostic stream gives
/// for the source `file` of length `total_us`. Only a line with a `frame=`
/// token and a readable `time=` token gives one.
pub open spec fn progress_of(
    line: Seq<char>,
    file: Seq<char>,
    total_us: int,
    segment: Option<TimeSegment>,
) -> Option<TranscodeProgressView> {
    if !occurs(line, "frame="@) {
        None
    } else {
        match token_value(line, "time="@) {
            None => None,
            Some(time) => match clock_micros(time) {
                None => None,
                Some(elapsed) => Some(
                    TranscodeProgressView {
                        current_file: file,
                        progress_bp: progress_share(
                            elapsed - progress_origin(segment),
                            progress_length(total_us, segment),
                        ) as u32,
                        fps_milli: fps_of(line),
                        bitrate: token_value(line, "bitrate="@),
                        time_elapsed: time,
                        estimated_time: None,
                    },
                ),
            },
        }
    }
}

/// Progress lies between 0 and `FULL_PROGRESS`, whatever the encoder and the
/// probe have reported.
pub proof fn lemma_progress_share_is_bounded(elapsed: int, length: int)
    ensures
        0 <= progress_share(elapsed, length) <= FULL_PROGRESS,
{
    if 0 < elapsed < length {
        assert(0 <= elapsed * 10_000 / length < 10_000) by (nonlinear_arith)
            requires
                0 < elapsed < length,
        ;
    }
}

/// The value that follows the first occurrence of `key` in `line`, up to the
/// next space (or, in a line without a later space, the next tab).
pub fn extract_value(line: &str, key: &str) -> (value: Option<String>)
    ensures
        value.deep_view() == token_value(line@, key@),
{
    let chars: Vec<char> = chars_of(line);
    let wanted: Vec<char> = chars_of(key);
    proof {
        lemma_find_from_is_first(chars@, wanted@, 0);
    }
    match find_in(&chars, &wanted, 0) {
        None => None,
        Some(at) => {
            let start: usize = at + wanted.len();
            proof {
                lemma_position_from_is_first(chars@, ' ', start as int);
                lemma_position_from_is_first(chars@, '\t', start as int);
            }
            let space: usize = position_in(&chars, ' ', start);
            let end: usize = if space < chars.len() {
                space
            } else {
                position_in(&chars, '\t', start)
            };
            Some(line.substring_char(start, end).to_owned())
        },
    }
}

/// The microseconds that an elapsed time `H:MM:SS.ss` counts.
pub fn parse_time_string(time: &str) -> (micros: Option<i64>)
    ensures
        micros == clock_micros(time@),
{
    let chars: Vec<char> = chars_of(time);
    let n: usize = chars.len();
    let first: usize = position_in(&chars, ':', 0);
    if first >= n {
        return None;
    }
    let second: usize = position_in(&chars, ':', first + 1);
    if second >= n {
        return None;
    }
    let third: usize = position_in(&chars, ':', second + 1);
    if third < n {
        return None;
    }
    proof {
        lemma_position_from_is_first(chars@, ':', 0);
        lemma_position_from_is_first(chars@, ':', first + 1);
    }
    let tail: Vec<char> = slice_of(&chars, second + 1, n);
    assert(tail@ =~= chars@.skip(second + 1));
    let hours: Option<u64> = parse_number(&chars, 0, first);
    let minutes: Option<u64> = parse_number(&chars, first + 1, second);
    let seconds: Option<u64> = parse_fixed(&tail, 6);
    match (hours, minutes, seconds) {
        (Some(h), Some(m), Some(s)) => {
            let total: u128 = (h as u128) * 3_600_000_000u128 + (m as u128) * 60_000_000u128 + (
            s as u128);
            if total > i64::MAX as u128 {
                None
            } else {
                Some(total as i64)
            }
        },
        _ => None,
    }
}

/// The share of `length` that `elapsed` is, in hundredths of a percent.
pub(crate) fn share_of(elapsed: i128, length: i128) -> (share: u32)
    requires
        -0x1_0000_0000_0000_0000 <= elapsed <= 0x1_0000_0000_0000_0000,
    ensures
        share == progress_share(elapsed as int, length as int),
        share <= FULL_PROGRESS,
{
    if length <= 0 || elapsed <= 0 {
        0
    } else if elapsed >= length {
        FULL_PROGRESS
    } else {
        assert(0 <= (elapsed as int) * 10_000 / (length as int) < 10_000) by (nonlinear_arith)
            requires
                0 < elapsed < length,
        ;
        (elapsed * 10_000 / length) as u32
    }
}

/// Reads one line of the encoder's diagnostic stream. A line with a
/// `frame=` token and a readable `time=` token gives a progress report;
/// any other line gives none. An `fps=` or `bitrate=` token that is missing
/// or unreadable leaves its field empty.
pub fn parse_ffmpeg_progress(
    line: &str,
    metadata: &MediaMetadata,
    segment: Option<&TimeSegment>,
) -> (progress: Option<TranscodeProgress>)
    ensures
        progress.deep_view() == progress_of(
            line@,
            metadata.file_path@,
            metadata.duration_us as int,
            segment_of(segment),
        ),
        !occurs(line@, "frame="@) ==> progress is None,
        progress is Some ==> progress->Some_0.progress_bp <= FULL_PROGRESS,
{
    let chars: Vec<char> = chars_of(line);
    let marker: Vec<char> = chars_of("frame=");
    if !contains(&chars, &marker) {
        return None;
    }
    let time_elapsed: String = match extract_value(line, "time=") {
        None => {
            return None;
        },
        Some(text) => text,
    };
    let fps_milli: Option<u64> = match extract_value(line, "fps=") {
        None => None,
        Some(text) => {
            let digits: Vec<char> = chars_of(text.as_str());
            parse_fixed(&digits, 3)
        },
    };
    let bitrate: Option<String> = extract_value(line, "bitrate=");
    let elapsed: i64 = match parse_time_string(time_elapsed.as_str()) {
        None => {
            return None;
        },
        Some(micros) => micros,
    };
    let total: i128 = metadata.duration_us as i128;
    let (origin, length): (i128, i128) = match segment {
        Some(s) => {
            let end: i128 = match s.end_us {
                Some(end) => if (end as i128) < total {
                    end as i128
                } else {
                    total
                },
                None => total,
            };
            (s.start_us as i128, end - s.start_us as i128)
        },
        None => (0, total),
    };
    let progress_bp: u32 = share_of(elapsed as i128 - origin, length);
    Some(
        TranscodeProgress {
            current_file: metadata.file_path.clone(),
            progress_bp,
            fps_milli,
            bitrate,
            time_elapsed,
            estimated_time: None,
        },
    )
}

} // verus!
