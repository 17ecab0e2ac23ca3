//! The values that travel through a transcode: segments, media metadata,
//! presets, requests and progress reports.
//!
//! Times are whole microseconds. Progress is counted in hundredths of a
//! percent and frame rates in thousandths of a frame per second.

use vstd::prelude::*;

verus! {

/// The shortest span that clamping leaves between the start of a segment and
/// the end of the media, and between the two ends of a segment: a tenth of a
/// second.
pub const MIN_SPAN_US: i64 = 100_000;

/// The progress of a finished job, in hundredths of a percent.
pub const FULL_PROGRESS: u32 = 10_000;

/// `x` moved into the range from `low` to `high`.
pub open spec fn clamped(x: int, low: int, high: int) -> int {
    if x < low {
        low
    } else if x > high {
        high
    } else {
        x
    }
}

/// A part of a source's timeline that is transcoded in place of the whole.
#[derive(Debug, Clone, Copy, PartialEq, Eq)]
pub struct TimeSegment {
    /// Start offset in microseconds.
    pub start_us: i64,
    /// End offset in microseconds; `None` means the end of the media.
    pub end_us: Option<i64>,
}

impl TimeSegment {
    /// The segment makes sense whatever the media's length: it starts at or
    /// after zero and, where it has an end, ends after its start.
    pub open spec fn well_formed(&self) -> bool {
        &&& 0 <= self.start_us
        &&& self.end_us is Some ==> self.start_us < self.end_us->Some_0
    }

    /// The segment lies in media of length `duration_us`.
    pub open spec fn valid_for(&self, duration_us: int) -> bool {
        &&& 0 <= self.start_us < duration_us
        &&& self.end_us is Some ==> self.start_us < self.end_us->Some_0
    }

    /// The length of the part of the segment that lies in media of length
    /// `total_us`.
    pub open spec fn span(&self, total_us: int) -> int {
        let end = match self.end_us {
            Some(end) => if end < total_us {
                end as int
            } else {
                total_us
            },
            None => total_us,
        };
        end - self.start_us
    }

    /// The segment that `clamp` makes of this one for media of length
    /// `duration_us`.
    pub open spec fn clamped_to(&self, duration_us: int) -> TimeSegment {
        let start = clamped(self.start_us as int, 0, duration_us - MIN_SPAN_US);
        TimeSegment {
            start_us: start as i64,
            end_us: match self.end_us {
                Some(end) => Some(clamped(end as int, start + MIN_SPAN_US, duration_us) as i64),
                None => None,
            },
        }
    }

    /// Whether the segment makes sense whatever the media's length.
    pub fn is_well_formed(&self) -> (ok: bool)
        ensures
            ok == self.well_formed(),
    {
        if self.start_us < 0 {
            return false;
        }
        match self.end_us {
            Some(end) => end > self.start_us,
            None => true,
        }
    }

    /// Whether the segment lies in media of length `duration_us`. An end
    /// beyond the media is accepted: the encoder stops at the media's end.
    pub fn is_valid(&self, duration_us: i64) -> (ok: bool)
        ensures
            ok == self.valid_for(duration_us as int),
            0 <= self.start_us < duration_us && (self.end_us is None || self.start_us
                < self.end_us->Some_0) ==> ok,
            self.start_us >= duration_us || (self.end_us is Some && self.end_us->Some_0
                <= self.start_us) ==> !ok,
    {
        if self.start_us < 0 {
            return false;
        }
        if self.start_us >= duration_us {
            return false;
        }
        match self.end_us {
            Some(end) => end > self.start_us,
            None => true,
        }
    }

    /// The length of the part of the segment that lies in media of length
    /// `total_us`: from the start to the segment's end or the media's end,
    /// whichever comes first.
    pub fn duration(&self, total_us: i64) -> (length: i64)
        requires
            i64::MIN <= self.span(total_us as int) <= i64::MAX,
        ensures
            length == self.span(total_us as int),
    {
        let end: i64 = match self.end_us {
            Some(end) => if end < total_us {
                end
            } else {
                total_us
            },
            None => total_us,
        };
        end - self.start_us
    }

    /// The nearest segment that lies in media of length `duration_us`: the
    /// start is moved into `[0, duration_us - MIN_SPAN_US]` and the end, if
    /// there is one, into `[start + MIN_SPAN_US, duration_us]`.
    pub fn clamp(&self, duration_us: i64) -> (out: TimeSegment)
        requires
            duration_us >= MIN_SPAN_US,
        ensures
            out == self.clamped_to(duration_us as int),
            out.valid_for(duration_us as int),
            self.valid_for(duration_us as int) && (self.end_us is Some ==> self.start_us
                + MIN_SPAN_US <= self.end_us->Some_0 <= duration_us) && self.start_us
                <= duration_us - MIN_SPAN_US ==> out == *self,
    {
        let top: i64 = duration_us - MIN_SPAN_US;
        let start_us: i64 = if self.start_us < 0 {
            0
        } else if self.start_us > top {
            top
        } else {
            self.start_us
        };
        let floor: i64 = start_us + MIN_SPAN_US;
        let end_us: Option<i64> = match self.end_us {
            Some(end) => Some(
                if end < floor {
                    floor
                } else if end > duration_us {
                    duration_us
                } else {
                    end
                },
            ),
            None => None,
        };
        TimeSegment { start_us, end_us }
    }
}

/// Clamping yields a segment that lies in the media, whatever the segment
/// was, for every media of at least `MIN_SPAN_US`.
pub proof fn lemma_clamped_is_valid(segment: TimeSegment, duration_us: int)
    requires
        MIN_SPAN_US <= duration_us <= i64::MAX,
    ensures
        segment.clamped_to(duration_us).valid_for(duration_us),
{
}

/// A segment lies in the media exactly where it starts at or after zero and
/// before the media's end and, where it has an end, ends after its start.
pub proof fn lemma_validity(segment: TimeSegment, duration_us: int)
    ensures
        0 <= segment.start_us < duration_us && (segment.end_us is None || segment.start_us
            < segment.end_us->Some_0) ==> segment.valid_for(duration_us),
        segment.start_us >= duration_us || (segment.end_us is Some && segment.end_us->Some_0
            <= segment.start_us) ==> !segment.valid_for(duration_us),
        segment.valid_for(duration_us) ==> segment.well_formed(),
{
}

/// The first video stream of a source.
#[derive(Debug, Clone, PartialEq, Eq)]
pub struct VideoStream {
    pub codec: String,
    pub width: u32,
    pub height: u32,
    /// The frame rate as an exact rational, such as "30000/1001".
    pub framerate: String,
    /// Bits per sample: 8, 10 or 12.
    pub bit_depth: u8,
    /// The pixel format, such as "yuv420p" or "yuv422p10le".
    pub pix_fmt: String,
    /// The chroma subsampling, such as "4:2:0".
    pub chroma_subsampling: String,
}

/// What a `VideoStream` holds.
pub struct VideoStreamView {
    pub codec: Seq<char>,
    pub width: u32,
    pub height: u32,
    pub framerate: Seq<char>,
    pub bit_depth: u8,
    pub pix_fmt: Seq<char>,
    pub chroma_subsampling: Seq<char>,
}

impl View for VideoStream {
    type V = VideoStreamView;

    open spec fn view(&self) -> VideoStreamView {
        VideoStreamView {
            codec: self.codec@,
            width: self.width,
            height: self.height,
            framerate: self.framerate@,
            bit_depth: self.bit_depth,
            pix_fmt: self.pix_fmt@,
            chroma_subsampling: self.chroma_subsampling@,
        }
    }
}

impl DeepView for VideoStream {
    type V = VideoStreamView;

    open spec fn deep_view(&self) -> VideoStreamView {
        self@
    }
}

/// The first audio stream of a source.
#[derive(Debug, Clone, PartialEq, Eq)]
pub struct AudioStream {
    pub codec: String,
    pub sample_rate: u32,
    pub channels: u8,
}

/// What an `AudioStream` holds.
pub struct AudioStreamView {
    pub codec: Seq<char>,
    pub sample_rate: u32,
    pub channels: u8,
}

impl View for AudioStream {
    type V = AudioStreamView;

    open spec fn view(&self) -> AudioStreamView {
        AudioStreamView {
            codec: self.codec@,
            sample_rate: self.sample_rate,
            channels: self.channels,
        }
    }
}

impl DeepView for AudioStream {
    type V = AudioStreamView;

    open spec fn deep_view(&self) -> AudioStreamView {
        self@
    }
}

/// What the probe found out about one source file. It is taken once per job
/// and never changed.
#[derive(Debug, Clone, PartialEq, Eq)]
pub struct MediaMetadata {
    pub file_path: String,
    /// The length of the media in microseconds.
    pub duration_us: i64,
    pub video: VideoStream,
    pub audio: Option<AudioStream>,
}

/// What a `MediaMetadata` holds.
pub struct MediaMetadataView {
    pub file_path: Seq<char>,
    pub duration_us: i64,
    pub video: VideoStreamView,
    pub audio: Option<AudioStreamView>,
}

impl View for MediaMetadata {
    type V = MediaMetadataView;

    open spec fn view(&self) -> MediaMetadataView {
        MediaMetadataView {
            file_path: self.file_path@,
            duration_us: self.duration_us,
            video: self.video@,
            audio: match self.audio {
                Some(audio) => Some(audio@),
                None => None,
            },
        }
    }
}

impl DeepView for MediaMetadata {
    type V = MediaMetadataView;

    open spec fn deep_view(&self) -> MediaMetadataView {
        self@
    }
}

/// The target encodings.
#[derive(Debug, Clone, Copy, PartialEq, Eq, Structural)]
pub enum OutputPreset {
    /// Intermediate codec at full quality.
    ProRes422,
    /// Intermediate codec at the lighter profile.
    ProRes422LT,
    /// Intermediate codec at proxy quality, 8-bit 4:2:0.
    ProRes422Proxy,
    /// Delivery to editing systems at the highest-quality profile.
    DnxHRHQX,
    /// Web delivery at constant quality.
    H264Crf18,
}

/// One job's inputs.
#[derive(Debug, Clone, PartialEq, Eq)]
pub struct TranscodeRequest {
    pub input_path: String,
    pub output_path: String,
    pub preset: OutputPreset,
    /// `None` means the whole source.
    pub segment: Option<TimeSegment>,
}

/// What a `TranscodeRequest` holds.
pub struct TranscodeRequestView {
    pub input_path: Seq<char>,
    pub output_path: Seq<char>,
    pub preset: OutputPreset,
    pub segment: Option<TimeSegment>,
}

impl View for TranscodeRequest {
    type V = TranscodeRequestView;

    open spec fn view(&self) -> TranscodeRequestView {
        TranscodeRequestView {
            input_path: self.input_path@,
            output_path: self.output_path@,
            preset: self.preset,
            segment: self.segment,
        }
    }
}

impl DeepView for TranscodeRequest {
    type V = TranscodeRequestView;

    open spec fn deep_view(&self) -> TranscodeRequestView {
        self@
    }
}

/// One progress report of a running job.
#[derive(Debug, Clone, PartialEq, Eq)]
pub struct TranscodeProgress {
    pub current_file: String,
    /// Hundredths of a percent, from 0 to `FULL_PROGRESS`.
    pub progress_bp: u32,
    /// Thousandths of a frame per second.
    pub fps_milli: Option<u64>,
    /// The bitrate as the encoder wrote it.
    pub bitrate: Option<String>,
    /// The elapsed time as the encoder wrote it.
    pub time_elapsed: String,
    pub estimated_time: Option<String>,
}

/// What a `TranscodeProgress` holds.
pub struct TranscodeProgressView {
    pub current_file: Seq<char>,
    pub progress_bp: u32,
    pub fps_milli: Option<u64>,
    pub bitrate: Option<Seq<char>>,
    pub time_elapsed: Seq<char>,
    pub estimated_time: Option<Seq<char>>,
}

impl View for TranscodeProgress {
    type V = TranscodeProgressView;

    open spec fn view(&self) -> TranscodeProgressView {
        TranscodeProgressView {
            current_file: self.current_file@,
            progress_bp: self.progress_bp,
            fps_milli: self.fps_milli,
            bitrate: self.bitrate.deep_view(),
            time_elapsed: self.time_elapsed@,
            estimated_time: self.estimated_time.deep_view(),
        }
    }
}

impl DeepView for TranscodeProgress {
    type V = TranscodeProgressView;

    open spec fn deep_view(&self) -> TranscodeProgressView {
        self@
    }
}

/// Which of the two tools were found, and where the encoder came from.
#[derive(Debug, Clone, PartialEq, Eq)]
pub struct FfmpegAvailability {
    pub ffmpeg: bool,
    pub ffprobe: bool,
    /// "system" or "filesystem"; `None` where the encoder was not found.
    pub ffmpeg_source: Option<String>,
}

/// What an `FfmpegAvailability` holds.
pub struct FfmpegAvailabilityView {
    pub ffmpeg: bool,
    pub ffprobe: bool,
    pub ffmpeg_source: Option<Seq<char>>,
}

impl View for FfmpegAvailability {
    type V = FfmpegAvailabilityView;

    open spec fn view(&self) -> FfmpegAvailabilityView {
        FfmpegAvailabilityView {
            ffmpeg: self.ffmpeg,
            ffprobe: self.ffprobe,
            ffmpeg_source: self.ffmpeg_source.deep_view(),
        }
    }
}

impl DeepView for FfmpegAvailability {
    type V = FfmpegAvailabilityView;

    open spec fn deep_view(&self) -> FfmpegAvailabilityView {
        self@
    }
}

/// A batch of sources to transcode with one preset.
#[derive(Debug, Clone, PartialEq, Eq)]
pub struct BatchTranscodeRequest {
    pub input_paths: Vec<String>,
    /// The full output path of each input, in the same order.
    pub output_paths: Vec<String>,
    pub preset: OutputPreset,
    /// The segment of each input, in the same order; `None` means the whole
    /// of every source.
    pub segments: Option<Vec<Option<TimeSegment>>>,
}

/// What a `BatchTranscodeRequest` holds.
pub struct BatchTranscodeRequestView {
    pub input_paths: Seq<Seq<char>>,
    pub output_paths: Seq<Seq<char>>,
    pub preset: OutputPreset,
    pub segments: Option<Seq<Option<TimeSegment>>>,
}

impl View for BatchTranscodeRequest {
    type V = BatchTranscodeRequestView;

    open spec fn view(&self) -> BatchTranscodeRequestView {
        BatchTranscodeRequestView {
            input_paths: self.input_paths.deep_view(),
            output_paths: self.output_paths.deep_view(),
            preset: self.preset,
            segments: match self.segments {
                Some(segments) => Some(segments@),
                None => None,
            },
        }
    }
}

impl DeepView for BatchTranscodeRequest {
    type V = BatchTranscodeRequestView;

    open spec fn deep_view(&self) -> BatchTranscodeRequestView {
        self@
    }
}

/// A progress report of one file of a batch.
#[derive(Debug, Clone, PartialEq, Eq)]
pub struct BatchProgress {
    pub batch_id: String,
    /// The file's position in the submitted list.
    pub file_index: usize,
    pub total_files: usize,
    pub progress: TranscodeProgress,
}

/// What a `BatchProgress` holds.
pub struct BatchProgressView {
    pub batch_id: Seq<char>,
    pub file_index: usize,
    pub total_files: usize,
    pub progress: TranscodeProgressView,
}

impl View for BatchProgress {
    type V = BatchProgressView;

    open spec fn view(&self) -> BatchProgressView {
        BatchProgressView {
            batch_id: self.batch_id@,
            file_index: self.file_index,
            total_files: self.total_files,
            progress: self.progress@,
        }
    }
}

impl DeepView for BatchProgress {
    type V = BatchProgressView;

    open spec fn deep_view(&self) -> BatchProgressView {
        self@
    }
}

} // verus!
