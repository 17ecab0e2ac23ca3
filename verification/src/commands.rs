//! The commands that a caller starts: checking for the tools and
//! dispatching single jobs and batches.
//!
//! Every precondition of a dispatch is checked before any job exists, so a
//! refused dispatch has started nothing.

use vstd::prelude::*;
use crate::error::{CmdError, TranscodeError, TranscodeErrorView};
use crate::locator::{found, resolve, resolved, FfmpegSource, ToolLookup, ToolLookupView};
use crate::models::{
    BatchTranscodeRequest, BatchTranscodeRequestView, FfmpegAvailability, FfmpegAvailabilityView,
    TimeSegment, TranscodeRequest, TranscodeRequestView,
};
use crate::transcode::{
    dispatchable, malformed_segment, spawn_batch_transcode_job, spawn_transcode_job,
    ProgressModeView, TranscodeJob, TranscodeJobView,
};
use crate::validator::ensure_ffmpeg;

verus! {

/// The name of a source, as the caller is told it.
pub open spec fn source_name(source: FfmpegSource) -> Seq<char> {
    match source {
        FfmpegSource::System => "system"@,
        FfmpegSource::Filesystem => "filesystem"@,
    }
}

/// Which tools were found, and where the encoder came from.
pub open spec fn availability(ffmpeg: ToolLookupView, ffprobe: ToolLookupView) -> FfmpegAvailabilityView {
    FfmpegAvailabilityView {
        ffmpeg: found(ffmpeg),
        ffprobe: found(ffprobe),
        ffmpeg_source: match resolved("ffmpeg"@, ffmpeg) {
            Ok(copy) => Some(source_name(copy.1)),
            Err(_) => None,
        },
    }
}

/// The segment of the file at `index` of a batch.
pub open spec fn batch_segment(request: BatchTranscodeRequestView, index: int) -> Option<
    TimeSegment,
> {
    match request.segments {
        Some(segments) => segments[index],
        None => None,
    }
}

/// Why a batch is refused, if it is: checked in this order, the encoder is
/// missing, the batch is empty, the lists of output paths or of segments are
/// not as long as the list of inputs, or a segment is malformed.
pub open spec fn batch_refusal(request: BatchTranscodeRequestView, ffmpeg: ToolLookupView) -> Option<
    TranscodeErrorView,
> {
    if !found(ffmpeg) {
        Some(TranscodeErrorView::ToolNotFound("ffmpeg"@))
    } else if request.input_paths.len() == 0 {
        Some(TranscodeErrorView::InvalidInput("No files provided"@))
    } else if request.output_paths.len() != request.input_paths.len() {
        Some(TranscodeErrorView::InvalidInput("Output paths do not match the input files"@))
    } else if request.segments is Some && request.segments->Some_0.len()
        != request.input_paths.len() {
        Some(TranscodeErrorView::InvalidInput("Segments do not match the input files"@))
    } else if exists|i: int|
        0 <= i < request.input_paths.len() && !dispatchable(#[trigger] batch_segment(request, i)) {
        Some(malformed_segment())
    } else {
        None
    }
}

/// The job of the file at `index` of a batch: pending, for the input and
/// output at that position, under the batch's identity and that index.
pub open spec fn batch_job(
    request: BatchTranscodeRequestView,
    batch_id: Seq<char>,
    index: int,
) -> TranscodeJobView {
    TranscodeJobView::pending(
        TranscodeRequestView {
            input_path: request.input_paths[index],
            output_path: request.output_paths[index],
            preset: request.preset,
            segment: batch_segment(request, index),
        },
        ProgressModeView::Batch {
            batch_id,
            file_index: index as usize,
            total_files: request.input_paths.len() as usize,
        },
    )
}

/// Why a single job is refused, if it is: the encoder is missing, or the
/// segment is malformed.
pub open spec fn single_refusal(request: TranscodeRequestView, ffmpeg: ToolLookupView) -> Option<
    TranscodeErrorView,
> {
    if !found(ffmpeg) {
        Some(TranscodeErrorView::ToolNotFound("ffmpeg"@))
    } else if !dispatchable(request.segment) {
        Some(malformed_segment())
    } else {
        None
    }
}

/// The name of a source, as the caller is told it.
pub fn source_to_string(source: FfmpegSource) -> (name: String)
    ensures
        name@ == source_name(source),
{
    match source {
        FfmpegSource::System => "system".to_owned(),
        FfmpegSource::Filesystem => "filesystem".to_owned(),
    }
}

/// Which of the two tools were found, and where the encoder came from.
/// The check itself never fails.
pub fn check_ffmpeg_available(ffmpeg: &ToolLookup, ffprobe: &ToolLookup) -> (r: Result<
    FfmpegAvailability,
    CmdError,
>)
    ensures
        r is Ok,
        r->Ok_0@ == availability(ffmpeg@, ffprobe@),
{
    let ffmpeg_source: Option<String> = match resolve("ffmpeg", ffmpeg) {
        Ok((_, source)) => Some(source_to_string(source)),
        Err(_) => None,
    };
    let ffmpeg_ok: bool = ffmpeg.system.is_some() || ffmpeg.bundled.is_some();
    let ffprobe_ok: bool = ffprobe.system.is_some() || ffprobe.bundled.is_some();
    Ok(FfmpegAvailability { ffmpeg: ffmpeg_ok, ffprobe: ffprobe_ok, ffmpeg_source })
}

/// A fresh identifier for a job or a batch: a random UUID from
/// `uuid::Uuid::new_v4`, written by its `to_string` in the hyphenated form.
/// Nothing is claimed of it: two calls give different identifiers only as
/// far as chance has it. The call takes its random bytes from the operating
/// system and does not return where the system has none to give.
#[verifier::external_body]
fn new_id() -> (id: String) {
    uuid::Uuid::new_v4().to_string()
}

/// Dispatches a single job under a fresh identifier, which the job carries
/// as its identity. The result is the pending job; nothing has been started
/// yet. Without the encoder, or with a malformed segment, the dispatch is
/// refused.
pub fn start_transcode(request: TranscodeRequest, ffmpeg: &ToolLookup) -> (r: Result<
    TranscodeJob,
    CmdError,
>)
    ensures
        match r {
            Ok(job) => single_refusal(request@, ffmpeg@) is None && job@.mode is Single && job@
                == TranscodeJobView::pending(request@, job@.mode) && job@.wf(),
            Err(e) => single_refusal(request@, ffmpeg@) is Some && e@.message == single_refusal(
                request@,
                ffmpeg@,
            )->Some_0.message(),
        },
{
    start_transcode_with_id(request, new_id(), ffmpeg)
}

/// Dispatches a single job under the identity `job_id`. The result is the
/// pending job; nothing has been started yet. Without the encoder, or with a
/// malformed segment, the dispatch is refused.
pub fn start_transcode_with_id(request: TranscodeRequest, job_id: String, ffmpeg: &ToolLookup) -> (r:
    Result<TranscodeJob, CmdError>)
    ensures
        match r {
            Ok(job) => single_refusal(request@, ffmpeg@) is None && job@ == TranscodeJobView::pending(
                request@,
                ProgressModeView::Single { job_id: job_id@ },
            ) && job@.wf(),
            Err(e) => single_refusal(request@, ffmpeg@) is Some && e@.message == single_refusal(
                request@,
                ffmpeg@,
            )->Some_0.message(),
        },
{
    match ensure_ffmpeg(ffmpeg) {
        Err(e) => {
            return Err(e);
        },
        Ok(_) => {},
    }
    match spawn_transcode_job(job_id, request) {
        Ok(job) => Ok(job),
        Err(e) => Err(CmdError::from(e)),
    }
}

/// Whether every segment of a list is one that a job can be dispatched
/// with.
pub fn segments_dispatchable(segments: &Vec<Option<TimeSegment>>) -> (ok: bool)
    ensures
        ok == (forall|i: int| 0 <= i < segments.len() ==> dispatchable(#[trigger] segments@[i])),
{
    let mut i: usize = 0;
    while i < segments.len()
        invariant
            i <= segments.len(),
            forall|j: int| 0 <= j < i ==> dispatchable(#[trigger] segments@[j]),
        decreases segments.len() - i,
    {
        let sound: bool = match &segments[i] {
            Some(segment) => segment.is_well_formed(),
            None => true,
        };
        if !sound {
            return false;
        }
        i += 1;
    }
    true
}

/// Dispatches a batch under a fresh identifier, which every job of the
/// batch carries: one pending job per input, in the order of submission,
/// each with its position as its index. The output path of each input is
/// the one at the same position of the request's list of output paths. The
/// batch is refused as a whole, before any job exists, where the encoder is
/// missing, the batch is empty, the lists differ in length or a segment is
/// malformed.
pub fn start_batch_transcode(request: BatchTranscodeRequest, ffmpeg: &ToolLookup) -> (r: Result<
    Vec<TranscodeJob>,
    CmdError,
>)
    ensures
        match r {
            Ok(jobs) => {
                &&& batch_refusal(request@, ffmpeg@) is None
                &&& jobs.len() == request@.input_paths.len()
                &&& jobs@[0]@.mode is Batch
                &&& forall|i: int|
                    0 <= i < jobs.len() ==> (#[trigger] jobs@[i])@ == batch_job(
                        request@,
                        jobs@[0]@.mode->batch_id,
                        i,
                    ) && jobs@[i]@.wf()
            },
            Err(e) => batch_refusal(request@, ffmpeg@) is Some && e@.message == batch_refusal(
                request@,
                ffmpeg@,
            )->Some_0.message(),
        },
        request@.input_paths.len() == 0 ==> r is Err,
        request@.output_paths.len() != request@.input_paths.len() ==> r is Err,
{
    start_batch_transcode_with_id(request, new_id(), ffmpeg)
}

/// Dispatches a batch under the identity `batch_id`: one pending job per
/// input, in the order of submission, each with its position as its index.
/// The batch is refused as a whole, before any job exists, where the encoder
/// is missing, the batch is empty, the lists differ in length or a segment
/// is malformed.
pub fn start_batch_transcode_with_id(
    request: BatchTranscodeRequest,
    batch_id: String,
    ffmpeg: &ToolLookup,
) -> (r: Result<Vec<TranscodeJob>, CmdError>)
    ensures
        match r {
            Ok(jobs) => {
                &&& batch_refusal(request@, ffmpeg@) is None
                &&& jobs.len() == request@.input_paths.len()
                &&& forall|i: int|
                    0 <= i < jobs.len() ==> (#[trigger] jobs@[i])@ == batch_job(
                        request@,
                        batch_id@,
                        i,
                    ) && jobs@[i]@.wf()
            },
            Err(e) => batch_refusal(request@, ffmpeg@) is Some && e@.message == batch_refusal(
                request@,
                ffmpeg@,
            )->Some_0.message(),
        },
        request@.input_paths.len() == 0 ==> r is Err,
        request@.output_paths.len() != request@.input_paths.len() ==> r is Err,
{
    match ensure_ffmpeg(ffmpeg) {
        Err(e) => {
            return Err(e);
        },
        Ok(_) => {},
    }
    let total: usize = request.input_paths.len();
    if total == 0 {
        return Err(CmdError::from(TranscodeError::InvalidInput("No files provided".to_owned())));
    }
    if request.output_paths.len() != total {
        return Err(
            CmdError::from(
                TranscodeError::InvalidInput("Output paths do not match the input files".to_owned()),
            ),
        );
    }
    match &request.segments {
        Some(segments) => {
            if segments.len() != total {
                return Err(
                    CmdError::from(
                        TranscodeError::InvalidInput(
                            "Segments do not match the input files".to_owned(),
                        ),
                    ),
                );
            }
            if !segments_dispatchable(segments) {
                assert(exists|i: int|
                    0 <= i < request@.input_paths.len() && !dispatchable(
                        #[trigger] batch_segment(request@, i),
                    )) by {
                    let i = choose|i: int|
                        0 <= i < segments.len() && !dispatchable(#[trigger] segments@[i]);
                    assert(batch_segment(request@, i) == segments@[i]);
                }
                return Err(
                    CmdError::from(
                        TranscodeError::InvalidInput(
                            "segment must start at or after zero and end after its start".to_owned(),
                        ),
                    ),
                );
            }
            assert forall|i: int| 0 <= i < request@.input_paths.len() implies dispatchable(
                #[trigger] batch_segment(request@, i),
            ) by {
                assert(batch_segment(request@, i) == segments@[i]);
            }
        },
        None => {},
    }
    let mut jobs: Vec<TranscodeJob> = Vec::new();
    let mut i: usize = 0;
    while i < total
        invariant
            i <= total,
            total == request.input_paths.len(),
            total == request.output_paths.len(),
            request.segments is Some ==> request.segments->Some_0.len() == total,
            forall|j: int|
                0 <= j < total ==> dispatchable(#[trigger] batch_segment(request@, j)),
            jobs.len() == i,
            forall|j: int|
                0 <= j < i ==> (#[trigger] jobs@[j])@ == batch_job(request@, batch_id@, j)
                    && jobs@[j]@.wf(),
        decreases total - i,
    {
        let segment: Option<TimeSegment> = match &request.segments {
            Some(segments) => segments[i],
            None => None,
        };
        assert(segment == batch_segment(request@, i as int));
        let file = TranscodeRequest {
            input_path: request.input_paths[i].clone(),
            output_path: request.output_paths[i].clone(),
            preset: request.preset,
            segment,
        };
        match spawn_batch_transcode_job(batch_id.clone(), i, total, file) {
            Ok(job) => {
                jobs.push(job);
            },
            Err(e) => {
                return Err(CmdError::from(e));
            },
        }
        i += 1;
    }
    Ok(jobs)
}

} // verus!
