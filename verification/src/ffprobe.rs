//! The metadata probe: from the probe tool's report to typed media metadata.
//!
//! The probe tool is run elsewhere. This module says with which arguments,
//! and reads what the tool wrote.

use vstd::prelude::*;
use crate::decimal::{digits_value, fixed_point_u64, is_number, parse_fixed, parse_number};
use crate::error::{result_view, TranscodeError, TranscodeErrorView};
use crate::json::{
    as_items, decode, error_text, json_document, json_items, json_member, member, number_at,
    number_field, text_at, text_field,
};
use crate::models::{
    AudioStream, AudioStreamView, MediaMetadata, MediaMetadataView, VideoStream, VideoStreamView,
};
use crate::preset::add_arg;
use crate::text::{chars_of, contains, ends_with, has_suffix, occurs};

verus! {

/// What the probe reports of one stream, as far as the library reads it.
/// A field is `None` where the report lacks it or holds a value of another
/// type.
#[derive(Debug, Clone, PartialEq, Eq)]
pub struct StreamEntry {
    pub codec_type: Option<String>,
    pub codec_name: Option<String>,
    pub pix_fmt: Option<String>,
    pub r_frame_rate: Option<String>,
    pub width: Option<u64>,
    pub height: Option<u64>,
    pub bits_per_raw_sample: Option<u64>,
    pub sample_rate: Option<String>,
    pub channels: Option<u64>,
}

/// What a `StreamEntry` holds.
pub struct StreamEntryView {
    pub codec_type: Option<Seq<char>>,
    pub codec_name: Option<Seq<char>>,
    pub pix_fmt: Option<Seq<char>>,
    pub r_frame_rate: Option<Seq<char>>,
    pub width: Option<u64>,
    pub height: Option<u64>,
    pub bits_per_raw_sample: Option<u64>,
    pub sample_rate: Option<Seq<char>>,
    pub channels: Option<u64>,
}

impl View for StreamEntry {
    type V = StreamEntryView;

    open spec fn view(&self) -> StreamEntryView {
        StreamEntryView {
            codec_type: self.codec_type.deep_view(),
            codec_name: self.codec_name.deep_view(),
            pix_fmt: self.pix_fmt.deep_view(),
            r_frame_rate: self.r_frame_rate.deep_view(),
            width: self.width,
            height: self.height,
            bits_per_raw_sample: self.bits_per_raw_sample,
            sample_rate: self.sample_rate.deep_view(),
            channels: self.channels,
        }
    }
}

impl DeepView for StreamEntry {
    type V = StreamEntryView;

    open spec fn deep_view(&self) -> StreamEntryView {
        self@
    }
}

/// What the probe reports of one file, as far as the library reads it.
#[derive(Debug, Clone, PartialEq, Eq)]
pub struct ProbeReport {
    /// The streams in the order of the report; `None` where the report has
    /// no list of streams.
    pub streams: Option<Vec<StreamEntry>>,
    /// The container's duration in seconds, as the report writes it.
    pub duration: Option<String>,
}

/// What a `ProbeReport` holds.
pub struct ProbeReportView {
    pub streams: Option<Seq<StreamEntryView>>,
    pub duration: Option<Seq<char>>,
}

impl View for ProbeReport {
    type V = ProbeReportView;

    open spec fn view(&self) -> ProbeReportView {
        ProbeReportView { streams: self.streams.deep_view(), duration: self.duration.deep_view() }
    }
}

impl DeepView for ProbeReport {
    type V = ProbeReportView;

    open spec fn deep_view(&self) -> ProbeReportView {
        self@
    }
}

/// The arguments with which the probe tool is run on `file`: no banner,
/// fatal messages only, streams and container, written as JSON.
pub open spec fn probe_flags(file: Seq<char>) -> Seq<Seq<char>> {
    seq![
        "-hide_banner"@,
        "-loglevel"@,
        "fatal"@,
        "-show_streams"@,
        "-show_format"@,
        "-print_format"@,
        "json"@,
        file,
    ]
}

/// What a decoded report says of one stream.
pub open spec fn stream_entry_of(stream: serde_json::Value) -> StreamEntryView {
    StreamEntryView {
        codec_type: text_at(stream, "codec_type"@),
        codec_name: text_at(stream, "codec_name"@),
        pix_fmt: text_at(stream, "pix_fmt"@),
        r_frame_rate: text_at(stream, "r_frame_rate"@),
        width: number_at(stream, "width"@),
        height: number_at(stream, "height"@),
        bits_per_raw_sample: number_at(stream, "bits_per_raw_sample"@),
        sample_rate: text_at(stream, "sample_rate"@),
        channels: number_at(stream, "channels"@),
    }
}

/// What a decoded report says of the file.
pub open spec fn report_of(document: serde_json::Value) -> ProbeReportView {
    ProbeReportView {
        streams: match json_items(json_member(document, "streams"@)) {
            Some(items) => Some(items.map_values(|v: serde_json::Value| stream_entry_of(v))),
            None => None,
        },
        duration: text_at(json_member(document, "format"@), "duration"@),
    }
}

/// The bit depth of a stream: the reported bits per raw sample where the
/// report has them, else 10 or 12 where the pixel format ends so, else 8.
pub open spec fn bit_depth_of(pix_fmt: Seq<char>, bits_per_raw_sample: Option<u64>) -> u8 {
    match bits_per_raw_sample {
        Some(bits) => bits as u8,
        None => if has_suffix(pix_fmt, "10le"@) || has_suffix(pix_fmt, "10be"@) {
            10
        } else if has_suffix(pix_fmt, "12le"@) || has_suffix(pix_fmt, "12be"@) {
            12
        } else {
            8
        },
    }
}

/// The chroma subsampling that a pixel format names; "4:2:0" where it names
/// none.
pub open spec fn chroma_of(pix_fmt: Seq<char>) -> Seq<char> {
    if occurs(pix_fmt, "420"@) {
        "4:2:0"@
    } else if occurs(pix_fmt, "422"@) {
        "4:2:2"@
    } else if occurs(pix_fmt, "444"@) {
        "4:4:4"@
    } else {
        "4:2:0"@
    }
}

/// `text`, or `fallback` where there is none.
pub open spec fn text_or(text: Option<Seq<char>>, fallback: Seq<char>) -> Seq<char> {
    match text {
        Some(t) => t,
        None => fallback,
    }
}

/// `number`, or `fallback` where there is none.
pub open spec fn number_or(number: Option<u64>, fallback: u64) -> u64 {
    match number {
        Some(n) => n,
        None => fallback,
    }
}

/// The video stream that an entry describes, with the defaults for what the
/// entry lacks.
pub open spec fn video_of(entry: StreamEntryView) -> VideoStreamView {
    VideoStreamView {
        codec: text_or(entry.codec_name, "unknown"@),
        width: number_or(entry.width, 1920) as u32,
        height: number_or(entry.height, 1080) as u32,
        framerate: text_or(entry.r_frame_rate, "25/1"@),
        bit_depth: bit_depth_of(text_or(entry.pix_fmt, "yuv420p"@), entry.bits_per_raw_sample),
        pix_fmt: text_or(entry.pix_fmt, "yuv420p"@),
        chroma_subsampling: chroma_of(text_or(entry.pix_fmt, "yuv420p"@)),
    }
}

/// The sample rate that the report writes: a whole number up to `u32::MAX`,
/// else 48000.
pub open spec fn sample_rate_of(text: Option<Seq<char>>) -> u32 {
    match text {
        Some(t) => if is_number(t) && digits_value(t) <= u32::MAX {
            digits_value(t) as u32
        } else {
            48000
        },
        None => 48000,
    }
}

/// The audio stream that an entry describes, with the defaults for what the
/// entry lacks.
pub open spec fn audio_of(entry: StreamEntryView) -> AudioStreamView {
    AudioStreamView {
        codec: text_or(entry.codec_name, "unknown"@),
        sample_rate: sample_rate_of(entry.sample_rate),
        channels: number_or(entry.channels, 2) as u8,
    }
}

/// The duration that the report writes, in microseconds; zero where it
/// writes none, no decimal number, or one beyond `i64::MAX` microseconds.
pub open spec fn duration_of(text: Option<Seq<char>>) -> i64 {
    match text {
        Some(t) => match fixed_point_u64(t, 6) {
            Some(micros) => if micros <= i64::MAX {
                micros as i64
            } else {
                0
            },
            None => 0,
        },
        None => 0,
    }
}

/// The position of the first stream of the kind `kind` at or after `from`.
pub open spec fn kind_index(streams: Seq<StreamEntryView>, kind: Seq<char>, from: int) -> Option<
    int,
>
    decreases streams.len() - from,
{
    if from < 0 || from >= streams.len() {
        None
    } else if streams[from].codec_type == Some(kind) {
        Some(from)
    } else {
        kind_index(streams, kind, from + 1)
    }
}

/// The metadata that a report gives for the file `file`: the first video
/// stream and the first audio stream count. A report without a list of
/// streams or without a video stream gives none.
pub open spec fn metadata_of(report: ProbeReportView, file: Seq<char>) -> Result<
    MediaMetadataView,
    TranscodeErrorView,
> {
    match report.streams {
        None => Err(TranscodeErrorView::ProbeFailed("No streams found in output"@)),
        Some(streams) => match kind_index(streams, "video"@, 0) {
            None => Err(TranscodeErrorView::ProbeFailed("no video stream"@)),
            Some(v) => Ok(
                MediaMetadataView {
                    file_path: file,
                    duration_us: duration_of(report.duration),
                    video: video_of(streams[v]),
                    audio: match kind_index(streams, "audio"@, 0) {
                        Some(a) => Some(audio_of(streams[a])),
                        None => None,
                    },
                },
            ),
        },
    }
}

/// What probing the file `file` gives, from how the probe tool ended and
/// what it wrote: a failed run gives its diagnostic text as the error, a
/// report that cannot be decoded gives an error, and a decoded report gives
/// what `metadata_of` says.
pub open spec fn probe_outcome(
    file: Seq<char>,
    success: bool,
    stdout: Seq<u8>,
    stderr: Seq<char>,
    r: Result<MediaMetadataView, TranscodeErrorView>,
) -> bool {
    if !success {
        r == Err::<MediaMetadataView, TranscodeErrorView>(TranscodeErrorView::ProbeFailed(stderr))
    } else {
        match json_document(stdout) {
            None => r is Err && r->Err_0 is ProbeFailed,
            Some(document) => r == metadata_of(report_of(document), file),
        }
    }
}

/// `kind_index` gives the first stream of the kind.
pub proof fn lemma_kind_index_is_first(streams: Seq<StreamEntryView>, kind: Seq<char>, from: int)
    requires
        0 <= from,
    ensures
        match kind_index(streams, kind, from) {
            Some(at) => {
                &&& from <= at < streams.len()
                &&& streams[at].codec_type == Some(kind)
                &&& forall|j: int| from <= j < at ==> streams[j].codec_type != Some(kind)
            },
            None => forall|j: int| from <= j < streams.len() ==> streams[j].codec_type != Some(kind),
        },
    decreases streams.len() - from,
{
    if from < streams.len() && streams[from].codec_type != Some(kind) {
        lemma_kind_index_is_first(streams, kind, from + 1);
    }
}

/// The arguments with which the probe tool is run on `file_path`.
pub fn probe_args(file_path: &str) -> (args: Vec<String>)
    ensures
        args.deep_view() == probe_flags(file_path@),
{
    let mut args: Vec<String> = Vec::new();
    add_arg(&mut args, "-hide_banner");
    add_arg(&mut args, "-loglevel");
    add_arg(&mut args, "fatal");
    add_arg(&mut args, "-show_streams");
    add_arg(&mut args, "-show_format");
    add_arg(&mut args, "-print_format");
    add_arg(&mut args, "json");
    add_arg(&mut args, file_path);
    args
}

/// Reads one stream of a decoded report.
pub(crate) fn read_stream(stream: &serde_json::Value) -> (entry: StreamEntry)
    ensures
        entry@ == stream_entry_of(*stream),
{
    StreamEntry {
        codec_type: text_field(stream, "codec_type"),
        codec_name: text_field(stream, "codec_name"),
        pix_fmt: text_field(stream, "pix_fmt"),
        r_frame_rate: text_field(stream, "r_frame_rate"),
        width: number_field(stream, "width"),
        height: number_field(stream, "height"),
        bits_per_raw_sample: number_field(stream, "bits_per_raw_sample"),
        sample_rate: text_field(stream, "sample_rate"),
        channels: number_field(stream, "channels"),
    }
}

/// Reads a decoded report.
pub(crate) fn read_report(document: &serde_json::Value) -> (report: ProbeReport)
    ensures
        report@ == report_of(*document),
{
    let streams: Option<Vec<StreamEntry>> = match as_items(member(document, "streams")) {
        None => None,
        Some(items) => {
            let mut entries: Vec<StreamEntry> = Vec::new();
            let mut i: usize = 0;
            while i < items.len()
                invariant
                    i <= items.len(),
                    entries.len() == i,
                    forall|j: int| 0 <= j < i ==> entries@[j]@ == stream_entry_of(items@[j]),
                decreases items.len() - i,
            {
                entries.push(read_stream(&items[i]));
                i += 1;
            }
            assert(entries.deep_view() =~= items@.map_values(
                |v: serde_json::Value| stream_entry_of(v),
            ));
            Some(entries)
        },
    };
    let duration: Option<String> = text_field(member(document, "format"), "duration");
    ProbeReport { streams, duration }
}

/// The bit depth of a stream: the reported bits per raw sample where the
/// report has them, else what the pixel format's ending says.
pub fn extract_bit_depth(pix_fmt: &str, bits_per_raw_sample: Option<u64>) -> (depth: u8)
    ensures
        depth == bit_depth_of(pix_fmt@, bits_per_raw_sample),
{
    match bits_per_raw_sample {
        Some(bits) => {
            #[verifier::truncate]
            let depth: u8 = bits as u8;
            depth
        },
        None => {
            let format: Vec<char> = chars_of(pix_fmt);
            if ends_with(&format, &chars_of("10le")) || ends_with(&format, &chars_of("10be")) {
                10
            } else if ends_with(&format, &chars_of("12le")) || ends_with(
                &format,
                &chars_of("12be"),
            ) {
                12
            } else {
                8
            }
        },
    }
}

/// The chroma subsampling that a pixel format names.
pub fn chroma_from_pix_fmt(pix_fmt: &str) -> (chroma: String)
    ensures
        chroma@ == chroma_of(pix_fmt@),
{
    let format: Vec<char> = chars_of(pix_fmt);
    if contains(&format, &chars_of("420")) {
        "4:2:0".to_owned()
    } else if contains(&format, &chars_of("422")) {
        "4:2:2".to_owned()
    } else if contains(&format, &chars_of("444")) {
        "4:4:4".to_owned()
    } else {
        "4:2:0".to_owned()
    }
}

/// `text`, or `fallback` where there is none.
pub fn text_or_default(text: &Option<String>, fallback: &str) -> (out: String)
    ensures
        out@ == text_or(text.deep_view(), fallback@),
{
    match text {
        Some(t) => t.clone(),
        None => fallback.to_owned(),
    }
}

/// The video stream that an entry describes.
pub fn parse_video_stream(entry: &StreamEntry) -> (video: VideoStream)
    ensures
        video@ == video_of(entry@),
{
    let pix_fmt: String = text_or_default(&entry.pix_fmt, "yuv420p");
    let bit_depth: u8 = extract_bit_depth(pix_fmt.as_str(), entry.bits_per_raw_sample);
    let framerate: String = text_or_default(&entry.r_frame_rate, "25/1");
    let chroma_subsampling: String = chroma_from_pix_fmt(pix_fmt.as_str());
    let width: u64 = match entry.width {
        Some(w) => w,
        None => 1920,
    };
    let height: u64 = match entry.height {
        Some(h) => h,
        None => 1080,
    };
    VideoStream {
        codec: text_or_default(&entry.codec_name, "unknown"),
        width: #[verifier::truncate] (width as u32),
        height: #[verifier::truncate] (height as u32),
        framerate,
        bit_depth,
        pix_fmt,
        chroma_subsampling,
    }
}

/// The sample rate that the report writes, or 48000.
pub fn parse_sample_rate(text: &Option<String>) -> (rate: u32)
    ensures
        rate == sample_rate_of(text.deep_view()),
{
    match text {
        None => 48000,
        Some(t) => {
            let digits: Vec<char> = chars_of(t.as_str());
            assert(digits@.subrange(0, digits.len() as int) =~= digits@);
            match parse_number(&digits, 0, digits.len()) {
                Some(v) => if v <= u32::MAX as u64 {
                    v as u32
                } else {
                    48000
                },
                None => 48000,
            }
        },
    }
}

/// The audio stream that an entry describes.
pub fn parse_audio_stream(entry: &StreamEntry) -> (audio: AudioStream)
    ensures
        audio@ == audio_of(entry@),
{
    let channels: u64 = match entry.channels {
        Some(c) => c,
        None => 2,
    };
    AudioStream {
        codec: text_or_default(&entry.codec_name, "unknown"),
        sample_rate: parse_sample_rate(&entry.sample_rate),
        channels: #[verifier::truncate] (channels as u8),
    }
}

/// The duration that the report writes, in microseconds, or zero.
pub fn parse_duration(text: &Option<String>) -> (micros: i64)
    ensures
        micros == duration_of(text.deep_view()),
{
    match text {
        None => 0,
        Some(t) => {
            let digits: Vec<char> = chars_of(t.as_str());
            match parse_fixed(&digits, 6) {
                Some(v) => if v <= i64::MAX as u64 {
                    v as i64
                } else {
                    0
                },
                None => 0,
            }
        },
    }
}

/// The position of the first stream of the kind `kind`.
pub fn find_stream(streams: &Vec<StreamEntry>, kind: &str) -> (at: Option<usize>)
    ensures
        at is Some ==> kind_index(streams.deep_view(), kind@, 0) == Some(at->Some_0 as int)
            && at->Some_0 < streams.len(),
        at is None ==> kind_index(streams.deep_view(), kind@, 0) is None,
{
    let wanted: String = kind.to_owned();
    let mut i: usize = 0;
    while i < streams.len()
        invariant
            i <= streams.len(),
            wanted@ == kind@,
            kind_index(streams.deep_view(), kind@, 0) == kind_index(
                streams.deep_view(),
                kind@,
                i as int,
            ),
        decreases streams.len() - i,
    {
        let hit: bool = match &streams[i].codec_type {
            Some(k) => *k == wanted,
            None => false,
        };
        assert(hit == (streams.deep_view()[i as int].codec_type == Some(kind@)));
        if hit {
            return Some(i);
        }
        i += 1;
    }
    None
}

/// The metadata that a report gives for the file `file_path`. The first
/// video stream and the first audio stream count; later streams of the same
/// kind are passed over. A report without a video stream is an error.
pub fn parse_ffprobe_output(report: &ProbeReport, file_path: &str) -> (r: Result<
    MediaMetadata,
    TranscodeError,
>)
    ensures
        result_view(r) == metadata_of(report@, file_path@),
{
    let streams: &Vec<StreamEntry> = match &report.streams {
        None => {
            return Err(TranscodeError::ProbeFailed("No streams found in output".to_owned()));
        },
        Some(streams) => streams,
    };
    let video: VideoStream = match find_stream(streams, "video") {
        None => {
            return Err(TranscodeError::ProbeFailed("no video stream".to_owned()));
        },
        Some(v) => parse_video_stream(&streams[v]),
    };
    let audio: Option<AudioStream> = match find_stream(streams, "audio") {
        None => None,
        Some(a) => Some(parse_audio_stream(&streams[a])),
    };
    Ok(
        MediaMetadata {
            file_path: file_path.to_owned(),
            duration_us: parse_duration(&report.duration),
            video,
            audio,
        },
    )
}

/// The metadata of the file `file_path`, from how the probe tool ended
/// (`success`), what it wrote to its output (`stdout`) and what to its
/// diagnostic stream (`stderr`).
pub fn extract_metadata(file_path: &str, success: bool, stdout: &[u8], stderr: &str) -> (r: Result<
    MediaMetadata,
    TranscodeError,
>)
    ensures
        probe_outcome(file_path@, success, stdout@, stderr@, result_view(r)),
{
    if !success {
        return Err(TranscodeError::ProbeFailed(stderr.to_owned()));
    }
    match decode(stdout) {
        Err(e) => Err(TranscodeError::ProbeFailed(error_text(&e))),
        Ok(document) => {
            let report: ProbeReport = read_report(&document);
            parse_ffprobe_output(&report, file_path)
        },
    }
}

} // verus!
