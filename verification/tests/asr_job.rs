use voice_sessions::asr::{
    copy_outcome, outcome_of_status, pipeline_step, AsrError, AsrOutcome, AsrProcessor,
    CheckProcessingStatusRequest, CheckProcessingStatusResponse, PipelineAction, PipelineEvent,
    PipelineStep, ProcessAudioRequest, ProcessAudioResponse, ProcessResponse, Reaction,
    SpeechModel, UploadUrlRequest, UploadUrlResponse, WaitForResponse, POLL_INTERVAL_SECS,
};
use voice_sessions::collector::ClearAsr;
use voice_sessions::ident::UserId;

const ID: u128 = 0x0102_0304_0506_0708_090a_0b0c_0d0e_0f10;
const TASK: u128 = 77;
const OWNER: UserId = UserId(5);

/// A recognition service that answers from a script and counts its calls.
struct Service {
    statuses: Vec<CheckProcessingStatusResponse>,
    uploads: usize,
    submits: usize,
    polls: usize,
    url_requests: usize,
    waited_secs: u64,
}

impl Service {
    fn new(statuses: Vec<CheckProcessingStatusResponse>) -> Self {
        Service { statuses, uploads: 0, submits: 0, polls: 0, url_requests: 0, waited_secs: 0 }
    }

    fn perform(&mut self, action: PipelineAction) -> PipelineEvent {
        match action {
            PipelineAction::RequestUploadUrl(UploadUrlRequest {}) => {
                self.url_requests += 1;
                PipelineEvent::UploadUrl(Ok(UploadUrlResponse {
                    upload_url: "https://upload.example/slot".to_string(),
                }))
            }
            PipelineAction::Upload { id, destination } => {
                assert_eq!(id, ID);
                assert_eq!(destination, "https://upload.example/slot");
                self.uploads += 1;
                PipelineEvent::Uploaded(Ok("upload-ref".to_string()))
            }
            PipelineAction::Submit(ProcessAudioRequest { audio, model }) => {
                assert_eq!(audio, "upload-ref");
                assert_eq!(model, SpeechModel::Spontaneous);
                self.submits += 1;
                PipelineEvent::Submitted(Ok(ProcessAudioResponse { task_id: TASK }))
            }
            PipelineAction::CheckStatus { request, delay_secs } => {
                assert_eq!(request, CheckProcessingStatusRequest { task_id: TASK });
                self.polls += 1;
                self.waited_secs += delay_secs;
                PipelineEvent::Status(Ok(self.statuses.remove(0)))
            }
            PipelineAction::Complete(_) => unreachable!(),
        }
    }
}

fn run_to_completion(
    job: &mut AsrProcessor,
    first: PipelineAction,
    service: &mut Service,
) -> voice_sessions::asr::Completion {
    let mut action = first;
    loop {
        let event = service.perform(action);
        match job.handle_event(event) {
            Reaction::Perform(next) => action = next,
            Reaction::Completed(completion) => return completion,
            Reaction::Idle => panic!("pipeline stalled"),
        }
    }
}

fn text_of(outcome: &AsrOutcome) -> Result<String, String> {
    match outcome {
        Ok(t) => Ok(t.clone()),
        Err(e) => Err(e.message()),
    }
}

#[test]
fn two_waiters_get_hello_after_two_processing_statuses() {
    let mut service = Service::new(vec![
        CheckProcessingStatusResponse::Processing { id: TASK },
        CheckProcessingStatusResponse::Processing { id: TASK },
        CheckProcessingStatusResponse::Finished { id: TASK, text: "hello".to_string() },
    ]);
    let (mut job, first) = AsrProcessor::new(ID, OWNER, SpeechModel::Spontaneous);
    assert!(matches!(first, PipelineAction::RequestUploadUrl(_)));
    assert!(matches!(job.wait_for_response(WaitForResponse(10)), ProcessResponse::Pending));
    assert!(matches!(job.wait_for_response(WaitForResponse(11)), ProcessResponse::Pending));
    assert_eq!(job.pending(), 2);
    assert!(!job.is_completed());

    let completion = run_to_completion(&mut job, first, &mut service);
    assert_eq!(text_of(&completion.outcome), Ok("hello".to_string()));
    assert_eq!(completion.waiters, vec![10, 11]);
    assert_eq!(completion.cleanup, ClearAsr(OWNER, ID));
    assert!(job.is_completed());
    assert_eq!(job.pending(), 0);

    assert_eq!(service.url_requests, 1);
    assert_eq!(service.uploads, 1);
    assert_eq!(service.submits, 1);
    assert_eq!(service.polls, 3);
    assert_eq!(service.waited_secs, 2 * POLL_INTERVAL_SECS);
    assert_eq!(POLL_INTERVAL_SECS, 1);

    match job.wait_for_response(WaitForResponse(12)) {
        ProcessResponse::Ready(outcome) => assert_eq!(text_of(&outcome), Ok("hello".to_string())),
        ProcessResponse::Pending => panic!("late waiter was queued"),
    }
    assert_eq!(job.pending(), 0);
}

#[test]
fn transcoding_error_reaches_early_and_late_waiters_without_retry() {
    let mut service =
        Service::new(vec![CheckProcessingStatusResponse::TranscodingError { id: TASK }]);
    let (mut job, first) = AsrProcessor::new(ID, OWNER, SpeechModel::Spontaneous);
    assert!(matches!(job.wait_for_response(WaitForResponse(1)), ProcessResponse::Pending));
    let completion = run_to_completion(&mut job, first, &mut service);
    assert!(matches!(completion.outcome, Err(AsrError::Transcoding)));
    assert_eq!(completion.waiters, vec![1]);
    assert_eq!(
        text_of(&completion.outcome),
        Err("error transcoding audio recording to internal format".to_string())
    );
    match job.wait_for_response(WaitForResponse(2)) {
        ProcessResponse::Ready(outcome) => assert!(matches!(outcome, Err(AsrError::Transcoding))),
        ProcessResponse::Pending => panic!("late waiter was queued"),
    }
    assert_eq!((service.url_requests, service.uploads, service.submits, service.polls), (1, 1, 1, 1));

    // nothing that arrives later restarts or re-completes the job
    let late = job.handle_event(PipelineEvent::Status(Ok(CheckProcessingStatusResponse::Finished {
        id: TASK,
        text: "late".to_string(),
    })));
    assert!(matches!(late, Reaction::Idle));
    assert!(job.accept_result(Ok("late".to_string())).is_none());
    match job.wait_for_response(WaitForResponse(3)) {
        ProcessResponse::Ready(outcome) => assert!(matches!(outcome, Err(AsrError::Transcoding))),
        ProcessResponse::Pending => panic!("late waiter was queued"),
    }
}

#[test]
fn each_terminal_status_has_its_outcome() {
    assert!(outcome_of_status(CheckProcessingStatusResponse::Processing { id: 1 }).is_none());
    assert_eq!(
        text_of(&outcome_of_status(CheckProcessingStatusResponse::Finished { id: 1, text: "t".into() }).unwrap()),
        Ok("t".to_string())
    );
    assert_eq!(
        text_of(&outcome_of_status(CheckProcessingStatusResponse::InternalError { id: 1 }).unwrap()),
        Err("internal error of the VK speech recognition service".to_string())
    );
    assert_eq!(
        text_of(&outcome_of_status(CheckProcessingStatusResponse::TranscodingError { id: 1 }).unwrap()),
        Err("error transcoding audio recording to internal format".to_string())
    );
    assert_eq!(
        text_of(&outcome_of_status(CheckProcessingStatusResponse::RecognitionError { id: 1 }).unwrap()),
        Err("speech recognition error, difficulty in recognition".to_string())
    );
    assert_eq!(AsrError::Transport("boom".into()).message(), "boom");
}

#[test]
fn transport_failure_ends_the_pipeline_at_every_step() {
    let fail = |step: PipelineStep, event: PipelineEvent| {
        let (next, action) = pipeline_step(ID, SpeechModel::Neutral, step, event);
        assert_eq!(next, PipelineStep::Finished);
        match action {
            Some(PipelineAction::Complete(Err(AsrError::Transport(text)))) => text,
            other => panic!("unexpected {:?}", other),
        }
    };
    assert_eq!(fail(PipelineStep::AwaitingUploadUrl, PipelineEvent::UploadUrl(Err("a".into()))), "a");
    assert_eq!(fail(PipelineStep::AwaitingUpload, PipelineEvent::Uploaded(Err("b".into()))), "b");
    assert_eq!(fail(PipelineStep::AwaitingTask, PipelineEvent::Submitted(Err("c".into()))), "c");
    assert_eq!(
        fail(PipelineStep::AwaitingStatus { task_id: 3 }, PipelineEvent::Status(Err("d".into()))),
        "d"
    );
}

#[test]
fn an_answer_to_another_step_is_ignored() {
    let (next, action) = pipeline_step(
        ID,
        SpeechModel::Neutral,
        PipelineStep::AwaitingUpload,
        PipelineEvent::Submitted(Ok(ProcessAudioResponse { task_id: 1 })),
    );
    assert_eq!(next, PipelineStep::AwaitingUpload);
    assert!(action.is_none());
    let (next, action) = pipeline_step(
        ID,
        SpeechModel::Neutral,
        PipelineStep::Finished,
        PipelineEvent::UploadUrl(Err("x".into())),
    );
    assert_eq!(next, PipelineStep::Finished);
    assert!(action.is_none());
}

#[test]
fn first_outcome_wins() {
    let (mut job, _) = AsrProcessor::new(ID, OWNER, SpeechModel::Neutral);
    assert_eq!(job.id(), ID);
    assert_eq!(job.user_id(), OWNER);
    job.wait_for_response(WaitForResponse(9));
    let done = job.accept_result(Err(AsrError::Recognition)).unwrap();
    assert_eq!(done.waiters, vec![9]);
    assert!(job.accept_result(Ok("x".into())).is_none());
    match job.wait_for_response(WaitForResponse(1)) {
        ProcessResponse::Ready(o) => assert!(matches!(o, Err(AsrError::Recognition))),
        _ => panic!(),
    }
}

#[test]
fn copies_equal_their_outcome() {
    assert_eq!(text_of(&copy_outcome(&Ok("abc".into()))), Ok("abc".to_string()));
    assert!(matches!(copy_outcome(&Err(AsrError::ServiceInternal)), Err(AsrError::ServiceInternal)));
    assert!(matches!(copy_outcome(&Err(AsrError::Transcoding)), Err(AsrError::Transcoding)));
    assert!(matches!(copy_outcome(&Err(AsrError::Recognition)), Err(AsrError::Recognition)));
    assert_eq!(text_of(&copy_outcome(&Err(AsrError::Transport("t".into())))), Err("t".to_string()));
}

#[test]
fn service_method_names() {
    assert_eq!(UploadUrlRequest::get_method_name(), "asr.getUploadUrl");
    assert_eq!(ProcessAudioRequest::get_method_name(), "asr.process");
    assert_eq!(CheckProcessingStatusRequest::get_method_name(), "asr.checkStatus");
}
