//! The single-flight speech-recognition job: one upload, submit and poll
//! pipeline per audio artifact, whose single outcome is handed to every
//! waiter, whenever it asked.

use vstd::prelude::*;
use crate::collector::ClearAsr;
use crate::ident::{SessionId, UserId};

verus! {

/// Seconds between two status polls while the service is still processing.
pub const POLL_INTERVAL_SECS: u64 = 1;

/// Recognition model requested from the service.
#[derive(Debug, Clone, Copy, PartialEq, Eq, Structural)]
pub enum SpeechModel {
    Neutral,
    Spontaneous,
}

/// What the service reports of a recognition task.
#[derive(Debug)]
pub enum CheckProcessingStatusResponse {
    Processing { id: u128 },
    Finished { id: u128, text: String },
    InternalError { id: u128 },
    TranscodingError { id: u128 },
    RecognitionError { id: u128 },
}

/// Request for an upload destination.
#[derive(Debug, Clone, Copy, PartialEq, Eq, Structural)]
pub struct UploadUrlRequest {}

/// The upload destination that the service offers.
#[derive(Debug)]
pub struct UploadUrlResponse {
    pub upload_url: String,
}

/// Request for the recognition of uploaded audio: the upload reference
/// and the model.
#[derive(Debug)]
pub struct ProcessAudioRequest {
    pub audio: String,
    pub model: SpeechModel,
}

/// The task under which the service recognises the audio.
#[derive(Debug, Clone, Copy, PartialEq, Eq, Structural)]
pub struct ProcessAudioResponse {
    pub task_id: u128,
}

/// Request for the status of a recognition task.
#[derive(Debug, Clone, Copy, PartialEq, Eq, Structural)]
pub struct CheckProcessingStatusRequest {
    pub task_id: u128,
}

impl UploadUrlRequest {
    /// The name of the service's method that answers this request.
    pub fn get_method_name() -> (name: &'static str)
        ensures
            name@ == "asr.getUploadUrl"@,
    {
        "asr.getUploadUrl"
    }
}

impl ProcessAudioRequest {
    /// The name of the service's method that answers this request.
    pub fn get_method_name() -> (name: &'static str)
        ensures
            name@ == "asr.process"@,
    {
        "asr.process"
    }
}

impl CheckProcessingStatusRequest {
    /// The name of the service's method that answers this request.
    pub fn get_method_name() -> (name: &'static str)
        ensures
            name@ == "asr.checkStatus"@,
    {
        "asr.checkStatus"
    }
}

/// Why a recognition produced no text.
#[derive(Debug)]
pub enum AsrError {
    /// Upload, submission or polling failed in transport; the text is the
    /// collaborator's description of the failure.
    Transport(String),
    /// The service reported an internal fault.
    ServiceInternal,
    /// The service could not transcode the audio.
    Transcoding,
    /// The service could not recognise speech in the audio.
    Recognition,
}

impl AsrError {
    /// The description of the failure.
    pub open spec fn message_spec(self) -> Seq<char> {
        match self {
            AsrError::Transport(text) => text@,
            AsrError::ServiceInternal => "internal error of the VK speech recognition service"@,
            AsrError::Transcoding => "error transcoding audio recording to internal format"@,
            AsrError::Recognition => "speech recognition error, difficulty in recognition"@,
        }
    }

    /// The description of the failure: the collaborator's own text for a
    /// transport failure, a fixed sentence for each fault of the service.
    pub fn message(&self) -> (text: String)
        ensures
            text@ == self.message_spec(),
    {
        match self {
            AsrError::Transport(text) => text.clone(),
            AsrError::ServiceInternal => {
                "internal error of the VK speech recognition service".to_owned()
            },
            AsrError::Transcoding => {
                "error transcoding audio recording to internal format".to_owned()
            },
            AsrError::Recognition => {
                "speech recognition error, difficulty in recognition".to_owned()
            },
        }
    }
}

/// The single result of a job: the recognised text, or the failure.
pub type AsrOutcome = Result<String, AsrError>;

/// Where the pipeline of a job stands: which answer it is waiting for.
#[derive(Debug, Clone, Copy, PartialEq, Eq, Structural)]
pub enum PipelineStep {
    AwaitingUploadUrl,
    AwaitingUpload,
    AwaitingTask,
    AwaitingStatus { task_id: u128 },
    Finished,
}

/// An answer of a collaborator. An `Err` carries the description of a
/// transport failure.
#[derive(Debug)]
pub enum PipelineEvent {
    UploadUrl(Result<UploadUrlResponse, String>),
    Uploaded(Result<String, String>),
    Submitted(Result<ProcessAudioResponse, String>),
    Status(Result<CheckProcessingStatusResponse, String>),
}

/// What the driver of a pipeline has to do next.
#[derive(Debug)]
pub enum PipelineAction {
    /// Ask the service for an upload destination.
    RequestUploadUrl(UploadUrlRequest),
    /// Transfer the audio artifact of `id` to `destination`.
    Upload { id: SessionId, destination: String },
    /// Submit the upload reference for recognition.
    Submit(ProcessAudioRequest),
    /// Ask for the status of the task after waiting `delay_secs` seconds.
    CheckStatus { request: CheckProcessingStatusRequest, delay_secs: u64 },
    /// The pipeline has ended with this outcome.
    Complete(AsrOutcome),
}

/// The outcome that a terminal status stands for; `None` while processing.
pub open spec fn status_outcome(status: CheckProcessingStatusResponse) -> Option<AsrOutcome> {
    match status {
        CheckProcessingStatusResponse::Processing { .. } => None,
        CheckProcessingStatusResponse::Finished { text, .. } => Some(Ok(text)),
        CheckProcessingStatusResponse::InternalError { .. } => Some(Err(AsrError::ServiceInternal)),
        CheckProcessingStatusResponse::TranscodingError { .. } => Some(Err(AsrError::Transcoding)),
        CheckProcessingStatusResponse::RecognitionError { .. } => Some(Err(AsrError::Recognition)),
    }
}

/// One transition of the pipeline of the job for `id`: the next step and the
/// action to perform, or no action where the event answers nothing that the
/// pipeline is waiting for.
pub open spec fn pipeline_next(
    id: SessionId,
    model: SpeechModel,
    step: PipelineStep,
    event: PipelineEvent,
) -> (PipelineStep, Option<PipelineAction>) {
    match (step, event) {
        (PipelineStep::AwaitingUploadUrl, PipelineEvent::UploadUrl(Ok(offered))) => (
            PipelineStep::AwaitingUpload,
            Some(PipelineAction::Upload { id, destination: offered.upload_url }),
        ),
        (PipelineStep::AwaitingUpload, PipelineEvent::Uploaded(Ok(audio))) => (
            PipelineStep::AwaitingTask,
            Some(PipelineAction::Submit(ProcessAudioRequest { audio, model })),
        ),
        (PipelineStep::AwaitingTask, PipelineEvent::Submitted(Ok(task))) => (
            PipelineStep::AwaitingStatus { task_id: task.task_id },
            Some(
                PipelineAction::CheckStatus {
                    request: CheckProcessingStatusRequest { task_id: task.task_id },
                    delay_secs: 0,
                },
            ),
        ),
        (PipelineStep::AwaitingStatus { task_id }, PipelineEvent::Status(Ok(status))) => {
            match status_outcome(status) {
                None => (
                    PipelineStep::AwaitingStatus { task_id },
                    Some(
                        PipelineAction::CheckStatus {
                            request: CheckProcessingStatusRequest { task_id },
                            delay_secs: POLL_INTERVAL_SECS,
                        },
                    ),
                ),
                Some(outcome) => (PipelineStep::Finished, Some(PipelineAction::Complete(outcome))),
            }
        },
        (PipelineStep::AwaitingUploadUrl, PipelineEvent::UploadUrl(Err(e)))
        | (PipelineStep::AwaitingUpload, PipelineEvent::Uploaded(Err(e)))
        | (PipelineStep::AwaitingTask, PipelineEvent::Submitted(Err(e)))
        | (PipelineStep::AwaitingStatus { .. }, PipelineEvent::Status(Err(e))) => (
            PipelineStep::Finished,
            Some(PipelineAction::Complete(Err(AsrError::Transport(e)))),
        ),
        _ => (step, None),
    }
}

/// Maps a status of the service to the outcome it stands for.
pub fn outcome_of_status(status: CheckProcessingStatusResponse) -> (outcome: Option<AsrOutcome>)
    ensures
        outcome == status_outcome(status),
{
    match status {
        CheckProcessingStatusResponse::Processing { .. } => None,
        CheckProcessingStatusResponse::Finished { text, .. } => Some(Ok(text)),
        CheckProcessingStatusResponse::InternalError { .. } => Some(Err(AsrError::ServiceInternal)),
        CheckProcessingStatusResponse::TranscodingError { .. } => Some(Err(AsrError::Transcoding)),
        CheckProcessingStatusResponse::RecognitionError { .. } => Some(Err(AsrError::Recognition)),
    }
}

/// Advances the pipeline of the job for `id` by one answer.
pub fn pipeline_step(
    id: SessionId,
    model: SpeechModel,
    step: PipelineStep,
    event: PipelineEvent,
) -> (next: (PipelineStep, Option<PipelineAction>))
    ensures
        next == pipeline_next(id, model, step, event),
{
    match step {
        PipelineStep::AwaitingUploadUrl => match event {
            PipelineEvent::UploadUrl(Ok(offered)) => (
                PipelineStep::AwaitingUpload,
                Some(PipelineAction::Upload { id, destination: offered.upload_url }),
            ),
            PipelineEvent::UploadUrl(Err(e)) => (
                PipelineStep::Finished,
                Some(PipelineAction::Complete(Err(AsrError::Transport(e)))),
            ),
            _ => (step, None),
        },
        PipelineStep::AwaitingUpload => match event {
            PipelineEvent::Uploaded(Ok(audio)) => (
                PipelineStep::AwaitingTask,
                Some(PipelineAction::Submit(ProcessAudioRequest { audio, model })),
            ),
            PipelineEvent::Uploaded(Err(e)) => (
                PipelineStep::Finished,
                Some(PipelineAction::Complete(Err(AsrError::Transport(e)))),
            ),
            _ => (step, None),
        },
        PipelineStep::AwaitingTask => match event {
            PipelineEvent::Submitted(Ok(task)) => (
                PipelineStep::AwaitingStatus { task_id: task.task_id },
                Some(
                    PipelineAction::CheckStatus {
                        request: CheckProcessingStatusRequest { task_id: task.task_id },
                        delay_secs: 0,
                    },
                ),
            ),
            PipelineEvent::Submitted(Err(e)) => (
                PipelineStep::Finished,
                Some(PipelineAction::Complete(Err(AsrError::Transport(e)))),
            ),
            _ => (step, None),
        },
        PipelineStep::AwaitingStatus { task_id } => match event {
            PipelineEvent::Status(Ok(status)) => match outcome_of_status(status) {
                None => (
                    PipelineStep::AwaitingStatus { task_id },
                    Some(
                        PipelineAction::CheckStatus {
                            request: CheckProcessingStatusRequest { task_id },
                            delay_secs: POLL_INTERVAL_SECS,
                        },
                    ),
                ),
                Some(outcome) => (PipelineStep::Finished, Some(PipelineAction::Complete(outcome))),
            },
            PipelineEvent::Status(Err(e)) => (
                PipelineStep::Finished,
                Some(PipelineAction::Complete(Err(AsrError::Transport(e)))),
            ),
            _ => (step, None),
        },
        PipelineStep::Finished => (step, None),
    }
}


/// A copy of an outcome, equal to it.
pub fn copy_outcome(outcome: &AsrOutcome) -> (copy: AsrOutcome)
    ensures
        copy == *outcome,
{
    match outcome {
        Ok(text) => Ok(text.clone()),
        Err(AsrError::Transport(text)) => Err(AsrError::Transport(text.clone())),
        Err(AsrError::ServiceInternal) => Err(AsrError::ServiceInternal),
        Err(AsrError::Transcoding) => Err(AsrError::Transcoding),
        Err(AsrError::Recognition) => Err(AsrError::Recognition),
    }
}

/// A caller's request for the result of a job. The number is the key under
/// which the caller keeps the channel on which it waits.
#[derive(Debug, Clone, Copy, PartialEq, Eq, Structural)]
pub struct WaitForResponse(pub u64);

/// The answer to a `WaitForResponse`.
#[derive(Debug)]
pub enum ProcessResponse {
    /// The job has completed: this is its outcome.
    Ready(AsrOutcome),
    /// The job is still running: the caller is queued and will be resolved
    /// when the job completes.
    Pending,
}

/// The completion of a job: the outcome, the waiters to resolve with it in
/// the order in which they asked, and the request for deferred removal.
#[derive(Debug)]
pub struct Completion {
    pub outcome: AsrOutcome,
    pub waiters: Vec<u64>,
    pub cleanup: ClearAsr,
}

/// Mathematical value of a `Completion`.
pub struct CompletionModel {
    pub outcome: AsrOutcome,
    pub waiters: Seq<u64>,
    pub cleanup: ClearAsr,
}

impl View for Completion {
    type V = CompletionModel;

    open spec fn view(&self) -> CompletionModel {
        CompletionModel { outcome: self.outcome, waiters: self.waiters@, cleanup: self.cleanup }
    }
}

/// What a job asks of its driver after an answer of a collaborator.
#[derive(Debug)]
pub enum Reaction {
    /// Nothing to do.
    Idle,
    /// Perform the next action of the pipeline.
    Perform(PipelineAction),
    /// The job has completed: resolve the waiters and schedule the removal.
    Completed(Completion),
}

/// Mathematical value of a `Reaction`.
pub enum ReactionModel {
    Idle,
    Perform(PipelineAction),
    Completed(CompletionModel),
}

impl View for Reaction {
    type V = ReactionModel;

    open spec fn view(&self) -> ReactionModel {
        match *self {
            Reaction::Idle => ReactionModel::Idle,
            Reaction::Perform(action) => ReactionModel::Perform(action),
            Reaction::Completed(completion) => ReactionModel::Completed(completion@),
        }
    }
}

/// Mathematical value of a job.
pub struct JobModel {
    pub id: SessionId,
    pub user_id: UserId,
    pub model: SpeechModel,
    pub step: PipelineStep,
    /// The cached outcome, once the pipeline has ended.
    pub result: Option<AsrOutcome>,
    /// The waiters that are queued, oldest first.
    pub waiters: Seq<u64>,
}

impl JobModel {
    /// A cached outcome means that the pipeline has ended and that nobody
    /// is queued any more.
    pub open spec fn wf(self) -> bool {
        self.result is Some ==> self.step == PipelineStep::Finished && self.waiters.len() == 0
    }

    /// The job as created: pipeline at its first step, nothing cached,
    /// nobody queued.
    pub open spec fn created(id: SessionId, user_id: UserId, model: SpeechModel) -> JobModel {
        JobModel {
            id,
            user_id,
            model,
            step: PipelineStep::AwaitingUploadUrl,
            result: None,
            waiters: Seq::empty(),
        }
    }

    /// A request for the result: answered from the cache, else queued.
    pub open spec fn wait(self, waiter: u64) -> (JobModel, ProcessResponse) {
        match self.result {
            Some(outcome) => (self, ProcessResponse::Ready(outcome)),
            None => (
                JobModel { waiters: self.waiters.push(waiter), ..self },
                ProcessResponse::Pending,
            ),
        }
    }

    /// The job after the requests of `waiters`, in this order.
    pub open spec fn wait_all(self, waiters: Seq<u64>) -> JobModel
        decreases waiters.len(),
    {
        if waiters.len() == 0 {
            self
        } else {
            self.wait_all(waiters.drop_last()).wait(waiters.last()).0
        }
    }

    /// Arrival of the outcome. The first one is cached and fans out to the
    /// queue, which is drained; a later one changes nothing.
    pub open spec fn accept(self, outcome: AsrOutcome) -> (JobModel, Option<CompletionModel>) {
        if self.result is Some {
            (self, None)
        } else {
            (
                JobModel {
                    step: PipelineStep::Finished,
                    result: Some(outcome),
                    waiters: Seq::empty(),
                    ..self
                },
                Some(
                    CompletionModel {
                        outcome,
                        waiters: self.waiters,
                        cleanup: ClearAsr(self.user_id, self.id),
                    },
                ),
            )
        }
    }

    /// An answer of a collaborator: the pipeline advances; where it ends,
    /// its outcome is accepted.
    pub open spec fn react(self, event: PipelineEvent) -> (JobModel, ReactionModel) {
        let (step, action) = pipeline_next(self.id, self.model, self.step, event);
        let advanced = JobModel { step, ..self };
        match action {
            None => (advanced, ReactionModel::Idle),
            Some(PipelineAction::Complete(outcome)) => match advanced.accept(outcome) {
                (job, Some(completion)) => (job, ReactionModel::Completed(completion)),
                (job, None) => (job, ReactionModel::Idle),
            },
            Some(action) => (advanced, ReactionModel::Perform(action)),
        }
    }
}

/// One deduplicated recognition pipeline for one audio artifact, addressed
/// by the identifier of its session.
#[derive(Debug)]
pub struct AsrProcessor {
    id: SessionId,
    user_id: UserId,
    model: SpeechModel,
    step: PipelineStep,
    result: Option<AsrOutcome>,
    senders: Vec<u64>,
}

impl View for AsrProcessor {
    type V = JobModel;

    closed spec fn view(&self) -> JobModel {
        JobModel {
            id: self.id,
            user_id: self.user_id,
            model: self.model,
            step: self.step,
            result: self.result,
            waiters: self.senders@,
        }
    }
}

impl AsrProcessor {
    /// Creates the job for the audio of session `id` and starts its
    /// pipeline: the returned action is the pipeline's first.
    pub fn new(id: SessionId, user_id: UserId, speech_model: SpeechModel) -> (created: (
        Self,
        PipelineAction,
    ))
        ensures
            created.0@ == JobModel::created(id, user_id, speech_model),
            created.0@.wf(),
            created.1 == PipelineAction::RequestUploadUrl(UploadUrlRequest {}),
    {
        let job = AsrProcessor {
            id,
            user_id,
            model: speech_model,
            step: PipelineStep::AwaitingUploadUrl,
            result: None,
            senders: Vec::new(),
        };
        (job, PipelineAction::RequestUploadUrl(UploadUrlRequest {}))
    }

    /// The identifier of the session whose audio this job recognises.
    pub fn id(&self) -> (id: SessionId)
        ensures
            id == self@.id,
    {
        self.id
    }

    /// The owner of the job.
    pub fn user_id(&self) -> (user_id: UserId)
        ensures
            user_id == self@.user_id,
    {
        self.user_id
    }

    /// Whether the outcome is cached.
    pub fn is_completed(&self) -> (completed: bool)
        ensures
            completed == (self@.result is Some),
    {
        self.result.is_some()
    }

    /// The number of queued waiters.
    pub fn pending(&self) -> (n: usize)
        ensures
            n == self@.waiters.len(),
    {
        self.senders.len()
    }

    /// Answers a request for the result: with the cached outcome where the
    /// job has completed, which leaves the job as it is; else the waiter is
    /// queued behind the earlier ones.
    pub fn wait_for_response(&mut self, request: WaitForResponse) -> (response: ProcessResponse)
        ensures
            (final(self)@, response) == old(self)@.wait(request.0),
            old(self)@.wf() ==> final(self)@.wf(),
    {
        match &self.result {
            Some(outcome) => ProcessResponse::Ready(copy_outcome(outcome)),
            None => {
                self.senders.push(request.0);
                ProcessResponse::Pending
            },
        }
    }

    /// Takes the outcome of the pipeline. The first outcome is cached for
    /// good, the queue is drained into the returned completion, oldest
    /// waiter first, and the removal of the job is requested. Any later
    /// outcome is dropped and nothing changes.
    pub fn accept_result(&mut self, outcome: AsrOutcome) -> (completion: Option<Completion>)
        ensures
            final(self)@ == old(self)@.accept(outcome).0,
            completion.is_some() == old(self)@.accept(outcome).1.is_some(),
            completion matches Some(c) ==> Some(c@) == old(self)@.accept(outcome).1,
            old(self)@.wf() ==> final(self)@.wf(),
    {
        if self.result.is_some() {
            return None;
        }
        let mut waiters: Vec<u64> = Vec::new();
        std::mem::swap(&mut self.senders, &mut waiters);
        self.step = PipelineStep::Finished;
        self.result = Some(copy_outcome(&outcome));
        Some(Completion { outcome, waiters, cleanup: ClearAsr(self.user_id, self.id) })
    }

    /// Takes an answer of a collaborator, advances the pipeline and, where
    /// it has ended, accepts its outcome.
    pub fn handle_event(&mut self, event: PipelineEvent) -> (reaction: Reaction)
        ensures
            (final(self)@, reaction@) == old(self)@.react(event),
            old(self)@.wf() ==> final(self)@.wf(),
    {
        let (step, action) = pipeline_step(self.id, self.model, self.step, event);
        match action {
            None => Reaction::Idle,
            Some(PipelineAction::Complete(outcome)) => {
                self.step = step;
                match self.accept_result(outcome) {
                    Some(completion) => Reaction::Completed(completion),
                    None => Reaction::Idle,
                }
            },
            Some(action) => {
                self.step = step;
                Reaction::Perform(action)
            },
        }
    }
}


/// While no outcome is cached, requests only grow the queue: each waiter
/// is appended behind the earlier ones and nothing else changes.
pub proof fn lemma_waiters_queue_in_order(job: JobModel, waiters: Seq<u64>)
    requires
        job.result is None,
    ensures
        job.wait_all(waiters) == (JobModel { waiters: job.waiters + waiters, ..job }),
    decreases waiters.len(),
{
    if waiters.len() == 0 {
        assert(job.waiters + waiters =~= job.waiters);
    } else {
        lemma_waiters_queue_in_order(job, waiters.drop_last());
        assert((job.waiters + waiters.drop_last()).push(waiters.last()) =~= job.waiters
            + waiters);
    }
}

/// Single flight: however many callers ask before the pipeline ends, the
/// one outcome that arrives completes the job once, and that completion
/// resolves all of them, and those queued earlier, in the order in which
/// they asked, with this same outcome. The job then holds the outcome, an
/// empty queue, and ignores whatever the pipeline's collaborators or a
/// second outcome may still bring.
pub proof fn lemma_single_flight(
    job: JobModel,
    waiters: Seq<u64>,
    outcome: AsrOutcome,
    late_outcome: AsrOutcome,
    late_event: PipelineEvent,
)
    requires
        job.wf(),
        job.result is None,
    ensures
        job.wait_all(waiters).accept(outcome).1 == Some(
            CompletionModel {
                outcome,
                waiters: job.waiters + waiters,
                cleanup: ClearAsr(job.user_id, job.id),
            },
        ),
        job.wait_all(waiters).accept(outcome).0.result == Some(outcome),
        job.wait_all(waiters).accept(outcome).0.waiters == Seq::<u64>::empty(),
        job.wait_all(waiters).accept(outcome).0.wf(),
        job.wait_all(waiters).accept(outcome).0.accept(late_outcome) == (
            job.wait_all(waiters).accept(outcome).0,
            None::<CompletionModel>,
        ),
        job.wait_all(waiters).accept(outcome).0.react(late_event) == (
            job.wait_all(waiters).accept(outcome).0,
            ReactionModel::Idle,
        ),
{
    lemma_waiters_queue_in_order(job, waiters);
}

/// A caller that asks after the job has completed gets the cached outcome
/// at once; the job is left as it was, so nothing of the pipeline runs
/// again: no answer of a collaborator moves it or yields an action.
pub proof fn lemma_cached_outcome_is_served(job: JobModel, waiter: u64, event: PipelineEvent)
    requires
        job.wf(),
        job.result is Some,
    ensures
        job.wait(waiter) == (job, ProcessResponse::Ready(job.result->0)),
        job.react(event) == (job, ReactionModel::Idle),
{
}

/// Each transition keeps a job well formed.
pub proof fn lemma_job_stays_well_formed(
    job: JobModel,
    waiter: u64,
    outcome: AsrOutcome,
    event: PipelineEvent,
)
    requires
        job.wf(),
    ensures
        job.wait(waiter).0.wf(),
        job.accept(outcome).0.wf(),
        job.react(event).0.wf(),
{
}


/// The place of a step in the pipeline.
pub open spec fn step_rank(step: PipelineStep) -> int {
    match step {
        PipelineStep::AwaitingUploadUrl => 0,
        PipelineStep::AwaitingUpload => 1,
        PipelineStep::AwaitingTask => 2,
        PipelineStep::AwaitingStatus { .. } => 3,
        PipelineStep::Finished => 4,
    }
}

/// The pipeline runs forward and never repeats a step but the poll: an
/// upload is asked for only on the way from the first step to the second, a
/// submission only on the way from the second to the third, and from then
/// on only the status of the one task is asked for, again only while the
/// service is processing. Whatever ends the pipeline ends it for good: the
/// finished pipeline takes no answer and asks for nothing.
pub proof fn lemma_pipeline_runs_forward(
    id: SessionId,
    model: SpeechModel,
    step: PipelineStep,
    event: PipelineEvent,
)
    ensures
        step_rank(pipeline_next(id, model, step, event).0) >= step_rank(step),
        pipeline_next(id, model, step, event).1 is None ==> pipeline_next(id, model, step, event).0
            == step,
        step == PipelineStep::Finished ==> pipeline_next(id, model, step, event) == (
            step,
            None::<PipelineAction>,
        ),
        pipeline_next(id, model, step, event).1 != Some(
            PipelineAction::RequestUploadUrl(UploadUrlRequest {}),
        ),
        pipeline_next(id, model, step, event).1 matches Some(PipelineAction::Upload { .. }) ==> step
            == PipelineStep::AwaitingUploadUrl && pipeline_next(id, model, step, event).0
            == PipelineStep::AwaitingUpload,
        pipeline_next(id, model, step, event).1 matches Some(PipelineAction::Submit(_)) ==> step
            == PipelineStep::AwaitingUpload && pipeline_next(id, model, step, event).0
            == PipelineStep::AwaitingTask,
        pipeline_next(id, model, step, event).1 matches Some(
            PipelineAction::CheckStatus { request, delay_secs },
        ) ==> pipeline_next(id, model, step, event).0 == (PipelineStep::AwaitingStatus {
            task_id: request.task_id,
        }) && (step == PipelineStep::AwaitingTask && delay_secs == 0 || step
            == pipeline_next(id, model, step, event).0 && delay_secs == POLL_INTERVAL_SECS),
        pipeline_next(id, model, step, event).1 matches Some(PipelineAction::Complete(_))
            <==> step != PipelineStep::Finished && pipeline_next(id, model, step, event).0
            == PipelineStep::Finished,
{
}

} // verus!
