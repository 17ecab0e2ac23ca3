//! The job supervisor: the life of one encode job, from dispatch to its
//! terminal notification.
//!
//! The supervisor decides; it starts no process and reads no stream. Whoever
//! runs a job performs the action that a step asks for and hands back what
//! happened as the next event. Each job is a value of its own, so what
//! happens to one job of a batch never reaches another.

use vstd::prelude::*;
use crate::error::{result_view, TranscodeError, TranscodeErrorView};
use crate::ffprobe::{probe_args, probe_flags};
use crate::models::{
    BatchProgress, BatchProgressView, MediaMetadata, MediaMetadataView, TimeSegment,
    TranscodeProgress, TranscodeProgressView, TranscodeRequest, TranscodeRequestView,
};
use crate::progress::{parse_ffmpeg_progress, progress_of};

verus! {

/// Whose notifications a job sends: those of a single job, or those of one
/// file of a batch.
#[derive(Debug, Clone, PartialEq, Eq)]
pub enum ProgressMode {
    Single { job_id: String },
    Batch { batch_id: String, file_index: usize, total_files: usize },
}

/// What a `ProgressMode` holds.
pub enum ProgressModeView {
    Single { job_id: Seq<char> },
    Batch { batch_id: Seq<char>, file_index: usize, total_files: usize },
}

impl View for ProgressMode {
    type V = ProgressModeView;

    open spec fn view(&self) -> ProgressModeView {
        match self {
            ProgressMode::Single { job_id } => ProgressModeView::Single { job_id: job_id@ },
            ProgressMode::Batch { batch_id, file_index, total_files } => ProgressModeView::Batch {
                batch_id: batch_id@,
                file_index: *file_index,
                total_files: *total_files,
            },
        }
    }
}

impl DeepView for ProgressMode {
    type V = ProgressModeView;

    open spec fn deep_view(&self) -> ProgressModeView {
        self@
    }
}

/// Where a job stands.
#[derive(Debug, Clone, Copy, PartialEq, Eq, Structural)]
pub enum JobState {
    /// Not dispatched yet.
    Pending,
    /// Dispatched; the source is being probed or the encoder started.
    Probing,
    /// The encoder runs and its diagnostic stream is being read.
    Running,
    /// The encoder ended with success.
    Succeeded,
    /// The job failed.
    Failed,
}

impl JobState {
    /// The job has ended, one way or the other.
    pub open spec fn is_terminal(self) -> bool {
        self == JobState::Succeeded || self == JobState::Failed
    }
}

/// What a job tells the outside.
#[derive(Debug, Clone, PartialEq, Eq)]
pub enum Notification {
    /// Progress of a single job.
    Progress { job_id: String, progress: TranscodeProgress },
    /// Progress of one file of a batch.
    BatchProgress(BatchProgress),
    /// A single job ended with success.
    Complete { job_id: String },
    /// A single job failed.
    Error { job_id: String },
    /// One file of a batch ended with success.
    BatchComplete { batch_id: String, file_index: usize },
    /// One file of a batch failed.
    BatchError { batch_id: String, file_index: usize },
}

/// What a `Notification` holds.
pub enum NotificationView {
    Progress { job_id: Seq<char>, progress: TranscodeProgressView },
    BatchProgress(BatchProgressView),
    Complete { job_id: Seq<char> },
    Error { job_id: Seq<char> },
    BatchComplete { batch_id: Seq<char>, file_index: usize },
    BatchError { batch_id: Seq<char>, file_index: usize },
}

impl View for Notification {
    type V = NotificationView;

    open spec fn view(&self) -> NotificationView {
        match self {
            Notification::Progress { job_id, progress } => NotificationView::Progress {
                job_id: job_id@,
                progress: progress@,
            },
            Notification::BatchProgress(progress) => NotificationView::BatchProgress(progress@),
            Notification::Complete { job_id } => NotificationView::Complete { job_id: job_id@ },
            Notification::Error { job_id } => NotificationView::Error { job_id: job_id@ },
            Notification::BatchComplete { batch_id, file_index } => NotificationView::BatchComplete {
                batch_id: batch_id@,
                file_index: *file_index,
            },
            Notification::BatchError { batch_id, file_index } => NotificationView::BatchError {
                batch_id: batch_id@,
                file_index: *file_index,
            },
        }
    }
}

impl DeepView for Notification {
    type V = NotificationView;

    open spec fn deep_view(&self) -> NotificationView {
        self@
    }
}

impl NotificationView {
    /// The notification says that a job has ended.
    pub open spec fn is_terminal(self) -> bool {
        !(self is Progress || self is BatchProgress)
    }

    /// The name under which the notification is sent.
    pub open spec fn event_name(self) -> Seq<char> {
        match self {
            NotificationView::Progress { .. } => "transcode-progress"@,
            NotificationView::BatchProgress(_) => "batch-transcode-progress"@,
            NotificationView::Complete { .. } => "transcode-complete"@,
            NotificationView::Error { .. } => "transcode-error"@,
            NotificationView::BatchComplete { .. } => "batch-transcode-complete"@,
            NotificationView::BatchError { .. } => "batch-transcode-error"@,
        }
    }
}

impl Notification {
    /// The name under which the notification is sent.
    pub fn event_name(&self) -> (name: String)
        ensures
            name@ == self@.event_name(),
    {
        match self {
            Notification::Progress { .. } => "transcode-progress".to_owned(),
            Notification::BatchProgress(_) => "batch-transcode-progress".to_owned(),
            Notification::Complete { .. } => "transcode-complete".to_owned(),
            Notification::Error { .. } => "transcode-error".to_owned(),
            Notification::BatchComplete { .. } => "batch-transcode-complete".to_owned(),
            Notification::BatchError { .. } => "batch-transcode-error".to_owned(),
        }
    }

    /// Whether the notification says that a job has ended.
    pub fn is_terminal(&self) -> (terminal: bool)
        ensures
            terminal == self@.is_terminal(),
    {
        match self {
            Notification::Progress { .. } => false,
            Notification::BatchProgress(_) => false,
            _ => true,
        }
    }
}

/// The progress notification of a job with the identity `mode`.
pub open spec fn progress_notification(
    mode: ProgressModeView,
    progress: TranscodeProgressView,
) -> NotificationView {
    match mode {
        ProgressModeView::Single { job_id } => NotificationView::Progress { job_id, progress },
        ProgressModeView::Batch { batch_id, file_index, total_files } => {
            NotificationView::BatchProgress(
                BatchProgressView { batch_id, file_index, total_files, progress },
            )
        },
    }
}

/// The terminal notification of a job with the identity `mode`.
pub open spec fn terminal_notification(mode: ProgressModeView, succeeded: bool) -> NotificationView {
    match mode {
        ProgressModeView::Single { job_id } => if succeeded {
            NotificationView::Complete { job_id }
        } else {
            NotificationView::Error { job_id }
        },
        ProgressModeView::Batch { batch_id, file_index, total_files } => if succeeded {
            NotificationView::BatchComplete { batch_id, file_index }
        } else {
            NotificationView::BatchError { batch_id, file_index }
        },
    }
}

/// The progress notification of a job with the identity `mode`.
pub fn emit_progress(mode: &ProgressMode, progress: TranscodeProgress) -> (out: Notification)
    ensures
        out@ == progress_notification(mode@, progress@),
{
    match mode {
        ProgressMode::Single { job_id } => Notification::Progress {
            job_id: job_id.clone(),
            progress,
        },
        ProgressMode::Batch { batch_id, file_index, total_files } => Notification::BatchProgress(
            BatchProgress {
                batch_id: batch_id.clone(),
                file_index: *file_index,
                total_files: *total_files,
                progress,
            },
        ),
    }
}

/// The terminal notification of a job with the identity `mode`: completion
/// where the job succeeded, an error where it failed. It carries the job's
/// identity and nothing else.
pub fn emit_terminal(mode: &ProgressMode, succeeded: bool) -> (out: Notification)
    ensures
        out@ == terminal_notification(mode@, succeeded),
{
    match mode {
        ProgressMode::Single { job_id } => if succeeded {
            Notification::Complete { job_id: job_id.clone() }
        } else {
            Notification::Error { job_id: job_id.clone() }
        },
        ProgressMode::Batch { batch_id, file_index, .. } => if succeeded {
            Notification::BatchComplete { batch_id: batch_id.clone(), file_index: *file_index }
        } else {
            Notification::BatchError { batch_id: batch_id.clone(), file_index: *file_index }
        },
    }
}

/// What happened outside since the last step.
#[derive(Debug, PartialEq, Eq)]
pub enum JobEvent {
    /// The job was dispatched.
    Dispatched,
    /// The probe has ended, with the source's metadata or a failure.
    Probed(Result<MediaMetadata, TranscodeError>),
    /// The encoder has started and its diagnostic stream is open.
    Spawned,
    /// The encoder could not be started.
    SpawnFailed(String),
    /// The encoder wrote a line to its diagnostic stream.
    Line(String),
    /// The diagnostic stream could not be read.
    ReadFailed(String),
    /// The encoder has ended; `true` for a success status.
    Exited(bool),
}

/// What a `JobEvent` holds.
pub enum JobEventView {
    Dispatched,
    Probed(Result<MediaMetadataView, TranscodeErrorView>),
    Spawned,
    SpawnFailed(Seq<char>),
    Line(Seq<char>),
    ReadFailed(Seq<char>),
    Exited(bool),
}

impl View for JobEvent {
    type V = JobEventView;

    open spec fn view(&self) -> JobEventView {
        match self {
            JobEvent::Dispatched => JobEventView::Dispatched,
            JobEvent::Probed(r) => JobEventView::Probed(result_view(*r)),
            JobEvent::Spawned => JobEventView::Spawned,
            JobEvent::SpawnFailed(s) => JobEventView::SpawnFailed(s@),
            JobEvent::Line(s) => JobEventView::Line(s@),
            JobEvent::ReadFailed(s) => JobEventView::ReadFailed(s@),
            JobEvent::Exited(ok) => JobEventView::Exited(*ok),
        }
    }
}

/// What whoever runs the job is to do next.
#[derive(Debug, Clone, PartialEq, Eq)]
pub enum JobAction {
    /// Nothing but to wait for the next event.
    Nothing,
    /// Run the probe tool with these arguments and report `Probed`.
    Probe(Vec<String>),
    /// Start the encoder with these arguments and its diagnostic stream
    /// piped, and report `Spawned` or `SpawnFailed`.
    Spawn(Vec<String>),
    /// Send this notification.
    Emit(Notification),
}

/// What a `JobAction` holds.
pub enum JobActionView {
    Nothing,
    Probe(Seq<Seq<char>>),
    Spawn(Seq<Seq<char>>),
    Emit(NotificationView),
}

impl View for JobAction {
    type V = JobActionView;

    open spec fn view(&self) -> JobActionView {
        match self {
            JobAction::Nothing => JobActionView::Nothing,
            JobAction::Probe(args) => JobActionView::Probe(args.deep_view()),
            JobAction::Spawn(args) => JobActionView::Spawn(args.deep_view()),
            JobAction::Emit(n) => JobActionView::Emit(n@),
        }
    }
}

/// One supervised encode job.
#[derive(Debug, Clone, PartialEq, Eq)]
pub struct TranscodeJob {
    request: TranscodeRequest,
    mode: ProgressMode,
    state: JobState,
    metadata: Option<MediaMetadata>,
    failure: Option<TranscodeError>,
}

/// What a `TranscodeJob` holds.
pub struct TranscodeJobView {
    pub request: TranscodeRequestView,
    pub mode: ProgressModeView,
    pub state: JobState,
    /// The source's metadata, once the probe has given it.
    pub metadata: Option<MediaMetadataView>,
    /// Why the job failed, once it has.
    pub failure: Option<TranscodeErrorView>,
}

impl View for TranscodeJob {
    type V = TranscodeJobView;

    closed spec fn view(&self) -> TranscodeJobView {
        TranscodeJobView {
            request: self.request@,
            mode: self.mode@,
            state: self.state,
            metadata: self.metadata.deep_view(),
            failure: self.failure.deep_view(),
        }
    }
}

impl DeepView for TranscodeJob {
    type V = TranscodeJobView;

    open spec fn deep_view(&self) -> TranscodeJobView {
        self@
    }
}

/// The message of a job whose encoder ended with a failure status.
pub open spec fn exit_failure() -> Seq<char> {
    "ffmpeg returned non-zero exit code"@
}

impl TranscodeJobView {
    /// The job's fields agree with its state: the metadata is there from
    /// the moment the encoder runs, and a reason exactly where the job has
    /// failed.
    pub open spec fn wf(self) -> bool {
        &&& self.state == JobState::Pending ==> self.metadata is None
        &&& self.state == JobState::Running || self.state == JobState::Succeeded
            ==> self.metadata is Some
        &&& self.state == JobState::Failed <==> self.failure is Some
    }

    /// The job as dispatch finds it: pending, with nothing known yet.
    pub open spec fn pending(request: TranscodeRequestView, mode: ProgressModeView) -> Self {
        TranscodeJobView {
            request,
            mode,
            state: JobState::Pending,
            metadata: None,
            failure: None,
        }
    }

    /// The job after it has failed for the reason `why`.
    pub open spec fn failed(self, why: TranscodeErrorView) -> Self {
        TranscodeJobView { state: JobState::Failed, failure: Some(why), ..self }
    }

    /// The job after `event`.
    pub open spec fn next(self, event: JobEventView) -> Self {
        match (self.state, event) {
            (JobState::Pending, JobEventView::Dispatched) => TranscodeJobView {
                state: JobState::Probing,
                ..self
            },
            (JobState::Probing, JobEventView::Probed(Ok(metadata))) => if self.metadata is None {
                TranscodeJobView { metadata: Some(metadata), ..self }
            } else {
                self
            },
            (JobState::Probing, JobEventView::Probed(Err(why))) => if self.metadata is None {
                self.failed(why)
            } else {
                self
            },
            (JobState::Probing, JobEventView::Spawned) => if self.metadata is Some {
                TranscodeJobView { state: JobState::Running, ..self }
            } else {
                self
            },
            (JobState::Probing, JobEventView::SpawnFailed(detail)) => if self.metadata is Some {
                self.failed(TranscodeErrorView::ProcessSpawnFailed(detail))
            } else {
                self
            },
            (JobState::Running, JobEventView::ReadFailed(detail)) => self.failed(
                TranscodeErrorView::StreamReadFailed(detail),
            ),
            (JobState::Running, JobEventView::Exited(true)) => TranscodeJobView {
                state: JobState::Succeeded,
                ..self
            },
            (JobState::Running, JobEventView::Exited(false)) => self.failed(
                TranscodeErrorView::ProcessFailed(exit_failure()),
            ),
            _ => self,
        }
    }

    /// What is to be done after `event`.
    pub open spec fn action(self, event: JobEventView) -> JobActionView {
        match (self.state, event) {
            (JobState::Pending, JobEventView::Dispatched) => JobActionView::Probe(
                probe_flags(self.request.input_path),
            ),
            (JobState::Probing, JobEventView::Probed(Ok(metadata))) => if self.metadata is None {
                JobActionView::Spawn(
                    self.request.preset.ffmpeg_args(
                        metadata.file_path,
                        self.request.output_path,
                        self.request.segment,
                    ),
                )
            } else {
                JobActionView::Nothing
            },
            (JobState::Running, JobEventView::Line(line)) => match self.metadata {
                Some(metadata) => match progress_of(
                    line,
                    metadata.file_path,
                    metadata.duration_us as int,
                    self.request.segment,
                ) {
                    Some(progress) => JobActionView::Emit(
                        progress_notification(self.mode, progress),
                    ),
                    None => JobActionView::Nothing,
                },
                None => JobActionView::Nothing,
            },
            _ => if !self.state.is_terminal() && self.next(event).state.is_terminal() {
                JobActionView::Emit(
                    terminal_notification(self.mode, self.next(event).state == JobState::Succeeded),
                )
            } else {
                JobActionView::Nothing
            },
        }
    }
}

/// A segment that a job can be dispatched with: none, or a well-formed one.
pub open spec fn dispatchable(segment: Option<TimeSegment>) -> bool {
    segment is Some ==> segment->Some_0.well_formed()
}

/// What a request with a malformed segment is refused with.
pub open spec fn malformed_segment() -> TranscodeErrorView {
    TranscodeErrorView::InvalidInput("segment must start at or after zero and end after its start"@)
}

/// What dispatching `request` under the identity `mode` gives: a pending
/// job, or the refusal of a malformed segment.
pub open spec fn dispatched(request: TranscodeRequestView, mode: ProgressModeView) -> Result<
    TranscodeJobView,
    TranscodeErrorView,
> {
    if dispatchable(request.segment) {
        Ok(TranscodeJobView::pending(request, mode))
    } else {
        Err(malformed_segment())
    }
}

impl TranscodeJob {
    /// A pending job for `request` with the identity `mode`.
    pub fn new(request: TranscodeRequest, mode: ProgressMode) -> (job: TranscodeJob)
        ensures
            job@ == TranscodeJobView::pending(request@, mode@),
            job@.wf(),
    {
        TranscodeJob { request, mode, state: JobState::Pending, metadata: None, failure: None }
    }

    /// Where the job stands.
    pub fn state(&self) -> (state: JobState)
        ensures
            state == self@.state,
    {
        self.state
    }

    /// Whether the job has ended.
    pub fn is_finished(&self) -> (finished: bool)
        ensures
            finished == self@.state.is_terminal(),
    {
        match self.state {
            JobState::Succeeded => true,
            JobState::Failed => true,
            _ => false,
        }
    }

    /// The job's inputs.
    pub fn request(&self) -> (request: &TranscodeRequest)
        ensures
            request@ == self@.request,
    {
        &self.request
    }

    /// The job's identity.
    pub fn mode(&self) -> (mode: &ProgressMode)
        ensures
            mode@ == self@.mode,
    {
        &self.mode
    }

    /// The source's metadata, once the probe has given it.
    pub fn metadata(&self) -> (metadata: Option<&MediaMetadata>)
        ensures
            metadata is Some <==> self@.metadata is Some,
            metadata is Some ==> metadata->Some_0@ == self@.metadata->Some_0,
    {
        match &self.metadata {
            Some(m) => Some(m),
            None => None,
        }
    }

    /// Why the job failed, once it has.
    pub fn failure(&self) -> (failure: Option<&TranscodeError>)
        ensures
            failure is Some <==> self@.failure is Some,
            failure is Some ==> failure->Some_0@ == self@.failure->Some_0,
    {
        match &self.failure {
            Some(e) => Some(e),
            None => None,
        }
    }

    /// Takes the job one step further: `event` is what happened outside, the
    /// result is what to do next. An event that the job's state does not
    /// expect changes nothing and asks for nothing.
    pub fn step(&mut self, event: JobEvent) -> (action: JobAction)
        ensures
            final(self)@ == old(self)@.next(event@),
            action@ == old(self)@.action(event@),
            old(self)@.wf() ==> final(self)@.wf(),
    {
        match event {
            JobEvent::Dispatched => {
                if self.state == JobState::Pending {
                    self.state = JobState::Probing;
                    JobAction::Probe(probe_args(self.request.input_path.as_str()))
                } else {
                    JobAction::Nothing
                }
            },
            JobEvent::Probed(outcome) => {
                if self.state == JobState::Probing && self.metadata.is_none() {
                    match outcome {
                        Ok(metadata) => {
                            let args: Vec<String> = match &self.request.segment {
                                Some(segment) => self.request.preset.build_ffmpeg_args(
                                    &metadata,
                                    self.request.output_path.as_str(),
                                    Some(segment),
                                ),
                                None => self.request.preset.build_ffmpeg_args(
                                    &metadata,
                                    self.request.output_path.as_str(),
                                    None,
                                ),
                            };
                            self.metadata = Some(metadata);
                            JobAction::Spawn(args)
                        },
                        Err(why) => {
                            self.state = JobState::Failed;
                            self.failure = Some(why);
                            JobAction::Emit(emit_terminal(&self.mode, false))
                        },
                    }
                } else {
                    JobAction::Nothing
                }
            },
            JobEvent::Spawned => {
                if self.state == JobState::Probing && self.metadata.is_some() {
                    self.state = JobState::Running;
                }
                JobAction::Nothing
            },
            JobEvent::SpawnFailed(detail) => {
                if self.state == JobState::Probing && self.metadata.is_some() {
                    self.state = JobState::Failed;
                    self.failure = Some(TranscodeError::ProcessSpawnFailed(detail));
                    JobAction::Emit(emit_terminal(&self.mode, false))
                } else {
                    JobAction::Nothing
                }
            },
            JobEvent::Line(line) => {
                if self.state == JobState::Running {
                    let progress: Option<TranscodeProgress> = match &self.metadata {
                        Some(metadata) => match &self.request.segment {
                            Some(segment) => parse_ffmpeg_progress(
                                line.as_str(),
                                metadata,
                                Some(segment),
                            ),
                            None => parse_ffmpeg_progress(line.as_str(), metadata, None),
                        },
                        None => None,
                    };
                    match progress {
                        Some(progress) => JobAction::Emit(emit_progress(&self.mode, progress)),
                        None => JobAction::Nothing,
                    }
                } else {
                    JobAction::Nothing
                }
            },
            JobEvent::ReadFailed(detail) => {
                if self.state == JobState::Running {
                    self.state = JobState::Failed;
                    self.failure = Some(TranscodeError::StreamReadFailed(detail));
                    JobAction::Emit(emit_terminal(&self.mode, false))
                } else {
                    JobAction::Nothing
                }
            },
            JobEvent::Exited(success) => {
                if self.state == JobState::Running {
                    if success {
                        self.state = JobState::Succeeded;
                    } else {
                        self.state = JobState::Failed;
                        self.failure = Some(
                            TranscodeError::ProcessFailed(
                                "ffmpeg returned non-zero exit code".to_owned(),
                            ),
                        );
                    }
                    JobAction::Emit(emit_terminal(&self.mode, success))
                } else {
                    JobAction::Nothing
                }
            },
        }
    }
}

/// Dispatches `request` under the identity `mode`: the result is the pending
/// job, which the caller runs step by step. A request with a malformed
/// segment is refused.
pub fn spawn_transcode_with_mode(request: TranscodeRequest, mode: ProgressMode) -> (r: Result<
    TranscodeJob,
    TranscodeError,
>)
    ensures
        result_view(r) == dispatched(request@, mode@),
        r is Ok ==> r->Ok_0@.wf(),
{
    let sound: bool = match &request.segment {
        Some(segment) => segment.is_well_formed(),
        None => true,
    };
    if sound {
        Ok(TranscodeJob::new(request, mode))
    } else {
        Err(
            TranscodeError::InvalidInput(
                "segment must start at or after zero and end after its start".to_owned(),
            ),
        )
    }
}

/// Dispatches `request` as the single job `job_id`.
pub fn spawn_transcode_job(job_id: String, request: TranscodeRequest) -> (r: Result<
    TranscodeJob,
    TranscodeError,
>)
    ensures
        result_view(r) == dispatched(request@, ProgressModeView::Single { job_id: job_id@ }),
        r is Ok ==> r->Ok_0@.wf(),
{
    spawn_transcode_with_mode(request, ProgressMode::Single { job_id })
}

/// Dispatches `request` as the file `file_index` of the batch `batch_id` of
/// `total_files` files.
pub fn spawn_batch_transcode_job(
    batch_id: String,
    file_index: usize,
    total_files: usize,
    request: TranscodeRequest,
) -> (r: Result<TranscodeJob, TranscodeError>)
    ensures
        result_view(r) == dispatched(
            request@,
            ProgressModeView::Batch { batch_id: batch_id@, file_index, total_files },
        ),
        r is Ok ==> r->Ok_0@.wf(),
{
    spawn_transcode_with_mode(request, ProgressMode::Batch { batch_id, file_index, total_files })
}

/// A job that has ended stays as it is and asks for nothing more.
pub proof fn lemma_terminal_states_are_final(job: TranscodeJobView, event: JobEventView)
    requires
        job.state.is_terminal(),
    ensures
        job.next(event) == job,
        job.action(event) == JobActionView::Nothing,
{
}

/// A step sends a terminal notification exactly when it ends the job, and
/// that notification carries the job's identity: completion where the job
/// succeeded, an error where it failed.
pub proof fn lemma_one_terminal_notification(job: TranscodeJobView, event: JobEventView)
    ensures
        (job.action(event) is Emit && job.action(event)->Emit_0.is_terminal()) <==> (
        !job.state.is_terminal() && job.next(event).state.is_terminal()),
        !job.state.is_terminal() && job.next(event).state.is_terminal() ==> job.action(event)
            == JobActionView::Emit(
            terminal_notification(job.mode, job.next(event).state == JobState::Succeeded),
        ),
{
}

/// A job moves along `Pending`, `Probing`, `Running` and from there to
/// `Succeeded` or `Failed`; it can fail from `Probing` too, and it never
/// goes back.
pub proof fn lemma_states_only_advance(job: TranscodeJobView, event: JobEventView)
    ensures
        job.next(event).state == job.state || match job.state {
            JobState::Pending => job.next(event).state == JobState::Probing,
            JobState::Probing => job.next(event).state == JobState::Running || job.next(
                event,
            ).state == JobState::Failed,
            JobState::Running => job.next(event).state.is_terminal(),
            _ => false,
        },
        job.next(event).request == job.request,
        job.next(event).mode == job.mode,
        job.metadata is Some ==> job.next(event).metadata == job.metadata,
{
}

/// While the encoder runs, every line that the progress parser accepts is
/// passed on under the job's identity, and every other line is passed over.
pub proof fn lemma_running_reports_progress(job: TranscodeJobView, line: Seq<char>)
    requires
        job.wf(),
        job.state == JobState::Running,
    ensures
        job.next(JobEventView::Line(line)) == job,
        match progress_of(
            line,
            job.metadata->Some_0.file_path,
            job.metadata->Some_0.duration_us as int,
            job.request.segment,
        ) {
            Some(progress) => job.action(JobEventView::Line(line)) == JobActionView::Emit(
                progress_notification(job.mode, progress),
            ),
            None => job.action(JobEventView::Line(line)) == JobActionView::Nothing,
        },
{
}

} // verus!
