//! What the request handlers decide: who is refused and with which status,
//! when a recognition job is created, which session is closed first, and
//! what the caller is told. Reading requests and writing responses is the
//! driver's part; these functions take and return plain values.

use vstd::prelude::*;
use crate::asr::{AsrOutcome, SpeechModel};
use crate::ident::{audio_file_name, audio_file_name_spec, SessionId, UserId};
use crate::media::SetupError;
use crate::registry::{claim, entry_key, AsrProcessorStorage, EntryKey, Handle, SessionStorage};
use crate::session::OfferResponse;

verus! {

/// The status of a response.
#[derive(Debug, Clone, Copy, PartialEq, Eq, Structural)]
pub enum StatusCode {
    Success,
    BadRequest,
    Unauthorized,
    NotFound,
    NotAcceptable,
    InternalServerError,
    ServiceUnavailable,
}

impl StatusCode {
    /// The number of the status.
    pub open spec fn code_spec(self) -> u16 {
        match self {
            StatusCode::Success => 200,
            StatusCode::BadRequest => 400,
            StatusCode::Unauthorized => 401,
            StatusCode::NotFound => 404,
            StatusCode::NotAcceptable => 406,
            StatusCode::InternalServerError => 500,
            StatusCode::ServiceUnavailable => 503,
        }
    }

    /// The number of the status.
    pub fn code(self) -> (code: u16)
        ensures
            code == self.code_spec(),
    {
        match self {
            StatusCode::Success => 200,
            StatusCode::BadRequest => 400,
            StatusCode::Unauthorized => 401,
            StatusCode::NotFound => 404,
            StatusCode::NotAcceptable => 406,
            StatusCode::InternalServerError => 500,
            StatusCode::ServiceUnavailable => 503,
        }
    }
}

/// Request for the recognition of the audio of a session.
#[derive(Debug, Clone, Copy)]
pub struct ProcessAsrRequest {
    pub session_id: SessionId,
    pub speech: SpeechModel,
}

/// The recognised text.
#[derive(Debug)]
pub struct ProcessAsrResponse {
    pub text: String,
}

/// Why a recognition request has no text.
#[derive(Debug)]
pub struct ProcessAsrError<E> {
    pub error: E,
}

/// Request for a new session: the remote offer.
#[derive(Debug)]
pub struct CreateSessionRequest {
    pub offer: String,
}

/// A session was created: its identifier and the local answer.
#[derive(Debug)]
pub struct SessionCreatedResponse {
    pub session_id: SessionId,
    pub offer: String,
}

/// Why no session was created.
#[derive(Debug)]
pub struct SessionErrorResponse<E> {
    pub error: E,
}

/// A response that refuses: its status and its body.
#[derive(Debug)]
pub struct Refused<B> {
    pub status: StatusCode,
    pub body: B,
}

/// Why a recognition request is refused before any job is looked at.
#[derive(Debug, Clone, Copy, PartialEq, Eq, Structural)]
pub enum RecognitionRefusal {
    /// The request carries no verified owner.
    Unauthorized,
    /// The owner has neither a job nor a session under the identifier.
    SessionNotCreated,
}

/// A recognition request that was accepted: what the driver has to do
/// before it waits for the result.
#[derive(Debug, Clone, Copy, PartialEq, Eq, Structural)]
pub struct Recognition {
    /// The job to wait on.
    pub job: Handle,
    /// Whether this request has created the job, whose pipeline is to be
    /// started now.
    pub start_pipeline: bool,
    /// The session to close first: the one that is still connected while
    /// its audio is asked for.
    pub close_session: Option<Handle>,
}

/// What becomes of a recognition request for the audio of `id`: the job
/// registry afterwards, and the decision. An unknown owner is refused. An
/// owner that has no job under `id` needs a session under `id`; where that
/// session is still connected it is closed first. The job is then looked
/// up, and created with the handle `new_job` only where none is registered.
pub open spec fn recognition_plan(
    user_id: Option<UserId>,
    id: SessionId,
    sessions: Map<EntryKey, Handle>,
    connected: bool,
    jobs: Map<EntryKey, Handle>,
    new_job: Handle,
) -> (Map<EntryKey, Handle>, Result<Recognition, RecognitionRefusal>) {
    match user_id {
        None => (jobs, Err(RecognitionRefusal::Unauthorized)),
        Some(user_id) => {
            let key = entry_key(user_id, id);
            if !jobs.contains_key(key) && !sessions.contains_key(key) {
                (jobs, Err(RecognitionRefusal::SessionNotCreated))
            } else {
                let (after, job, created) = claim(jobs, key, new_job);
                (
                    after,
                    Ok(
                        Recognition {
                            job,
                            start_pipeline: created,
                            close_session: if !jobs.contains_key(key) && connected {
                                Some(sessions[key])
                            } else {
                                None
                            },
                        },
                    ),
                )
            }
        },
    }
}

impl RecognitionRefusal {
    pub open spec fn status_spec(self) -> StatusCode {
        match self {
            RecognitionRefusal::Unauthorized => StatusCode::Unauthorized,
            RecognitionRefusal::SessionNotCreated => StatusCode::NotFound,
        }
    }

    pub open spec fn message_spec(self) -> Seq<char> {
        match self {
            RecognitionRefusal::Unauthorized => "authorization is failed"@,
            RecognitionRefusal::SessionNotCreated => "webrtc session wasn't created"@,
        }
    }

    /// The response that tells the refusal.
    pub fn response(self) -> (refused: Refused<ProcessAsrError<String>>)
        ensures
            refused.status == self.status_spec(),
            refused.body.error@ == self.message_spec(),
    {
        match self {
            RecognitionRefusal::Unauthorized => Refused {
                status: StatusCode::Unauthorized,
                body: ProcessAsrError { error: "authorization is failed".to_owned() },
            },
            RecognitionRefusal::SessionNotCreated => Refused {
                status: StatusCode::NotFound,
                body: ProcessAsrError { error: "webrtc session wasn't created".to_owned() },
            },
        }
    }
}

/// Decides a recognition request of `user_id`. `session_connected` says
/// whether the instance behind the owner's session under the requested
/// identifier is still connected; it is not looked at where there is no
/// such session or where the job exists already. `new_job` is the handle
/// that a newly created job gets.
pub fn api_text_to_speech(
    user_id: Option<UserId>,
    request: &ProcessAsrRequest,
    sessions: &SessionStorage,
    session_connected: bool,
    jobs: &mut AsrProcessorStorage,
    new_job: Handle,
) -> (decision: Result<Recognition, RecognitionRefusal>)
    ensures
        (final(jobs)@, decision) == recognition_plan(
            user_id,
            request.session_id,
            sessions@,
            session_connected,
            old(jobs)@,
            new_job,
        ),
{
    let user_id = match user_id {
        None => {
            return Err(RecognitionRefusal::Unauthorized);
        },
        Some(user_id) => user_id,
    };
    let id = request.session_id;
    let mut close_session: Option<Handle> = None;
    if !jobs.contains_key(user_id, id) {
        match sessions.get(user_id, id) {
            Some(session) => {
                if session_connected {
                    close_session = Some(session);
                }
            },
            None => {
                return Err(RecognitionRefusal::SessionNotCreated);
            },
        }
    }
    let (job, start_pipeline) = jobs.get_or_insert(user_id, id, new_job);
    Ok(Recognition { job, start_pipeline, close_session })
}

/// The text of a failed wait or a failed recognition.
pub open spec fn recognition_error(result: Result<AsrOutcome, String>) -> Option<Seq<char>> {
    match result {
        Ok(Ok(_)) => None,
        Ok(Err(e)) => Some(e.message_spec()),
        Err(text) => Some(text@),
    }
}

/// The response to a recognition request whose wait has ended. `result` is
/// the outcome of the job, or why the wait itself failed. The text is
/// answered with status 200; a failure of either kind with status 503 and
/// its description.
pub fn text_to_speech_response(result: Result<AsrOutcome, String>) -> (response: Result<
    ProcessAsrResponse,
    Refused<ProcessAsrError<String>>,
>)
    ensures
        match result {
            Ok(Ok(text)) => response is Ok && response->Ok_0.text == text,
            _ => response is Err && response->Err_0.status == StatusCode::ServiceUnavailable
                && Some(response->Err_0.body.error@) == recognition_error(result),
        },
{
    match result {
        Ok(Ok(text)) => Ok(ProcessAsrResponse { text }),
        Ok(Err(e)) => Err(
            Refused {
                status: StatusCode::ServiceUnavailable,
                body: ProcessAsrError { error: e.message() },
            },
        ),
        Err(text) => Err(
            Refused { status: StatusCode::ServiceUnavailable, body: ProcessAsrError { error: text } },
        ),
    }
}

/// Why the audio of a session is not handed out.
#[derive(Debug, Clone, Copy, PartialEq, Eq, Structural)]
pub enum AudioRefusal {
    /// The request carries no verified owner.
    PermissionDenied,
    /// The owner has no session under the identifier, or the session is
    /// still connected and writing.
    WouldBlock,
}

impl AudioRefusal {
    pub open spec fn message_spec(self) -> Seq<char> {
        match self {
            AudioRefusal::PermissionDenied => "authorization is failed"@,
            AudioRefusal::WouldBlock => "session is writing"@,
        }
    }

    /// The description of the refusal.
    pub fn message(self) -> (text: String)
        ensures
            text@ == self.message_spec(),
    {
        match self {
            AudioRefusal::PermissionDenied => "authorization is failed".to_owned(),
            AudioRefusal::WouldBlock => "session is writing".to_owned(),
        }
    }
}

/// Whether the audio of `id` is handed out to `user_id`: only to a known
/// owner, of a session that is registered and no longer connected.
pub open spec fn audio_plan(
    user_id: Option<UserId>,
    id: SessionId,
    sessions: Map<EntryKey, Handle>,
    connected: bool,
) -> Result<(), AudioRefusal> {
    match user_id {
        None => Err(AudioRefusal::PermissionDenied),
        Some(user_id) => if sessions.contains_key(entry_key(user_id, id)) && !connected {
            Ok(())
        } else {
            Err(AudioRefusal::WouldBlock)
        },
    }
}

/// Decides a request of `user_id` for the audio of session `id`, and names
/// the artifact to hand out. `session_connected` says whether the instance
/// behind the session's entry is still connected; it is not looked at
/// where no such entry exists.
pub fn api_get_audio(
    user_id: Option<UserId>,
    id: SessionId,
    sessions: &SessionStorage,
    session_connected: bool,
) -> (decision: Result<String, AudioRefusal>)
    ensures
        match audio_plan(user_id, id, sessions@, session_connected) {
            Ok(_) => decision is Ok && decision->Ok_0@ == audio_file_name_spec(id),
            Err(refusal) => decision == Err::<String, AudioRefusal>(refusal),
        },
{
    match user_id {
        None => Err(AudioRefusal::PermissionDenied),
        Some(user_id) => {
            if sessions.contains_key(user_id, id) && !session_connected {
                Ok(audio_file_name(id))
            } else {
                Err(AudioRefusal::WouldBlock)
            }
        },
    }
}

/// How far the creation of a session came.
#[derive(Debug)]
pub enum SessionCreation {
    /// The request carries no verified owner.
    Unauthorized,
    /// The session could not be created.
    Failed(SetupError),
    /// The session was created and the offer did not reach it.
    OfferNotDelivered(String),
    /// The session took the offer and its answer was lost.
    AnswerLost(String),
    /// The session `0` has answered the offer.
    Answered(SessionId, OfferResponse),
}

impl SessionCreation {
    /// The status that answers the creation.
    pub open spec fn status_spec(self) -> StatusCode {
        match self {
            SessionCreation::Unauthorized => StatusCode::Unauthorized,
            SessionCreation::Failed(_) => StatusCode::InternalServerError,
            SessionCreation::OfferNotDelivered(_) => StatusCode::ServiceUnavailable,
            SessionCreation::AnswerLost(_) => StatusCode::NotAcceptable,
            SessionCreation::Answered(_, OfferResponse(Err(_))) => StatusCode::NotAcceptable,
            SessionCreation::Answered(_, OfferResponse(Ok(_))) => StatusCode::Success,
        }
    }

    /// The description that a refusal carries.
    pub open spec fn error_spec(self) -> Seq<char> {
        match self {
            SessionCreation::Unauthorized => "authorization is failed"@,
            SessionCreation::Failed(SetupError::Resources(text)) => text@,
            SessionCreation::OfferNotDelivered(text) => text@,
            SessionCreation::AnswerLost(text) => text@,
            SessionCreation::Answered(_, OfferResponse(Err(e))) => e.message_spec(),
            SessionCreation::Answered(_, OfferResponse(Ok(_))) => Seq::empty(),
        }
    }
}

/// The response to a request for a new session. A session that has
/// answered the offer is reported with its identifier and its answer; any
/// other end is refused with its status and its description.
pub fn api_create_session(creation: SessionCreation) -> (response: Result<
    SessionCreatedResponse,
    Refused<SessionErrorResponse<String>>,
>)
    ensures
        match creation {
            SessionCreation::Answered(id, OfferResponse(Ok(answer))) => response is Ok
                && response->Ok_0.session_id == id && response->Ok_0.offer == answer,
            _ => response is Err && response->Err_0.status == creation.status_spec()
                && response->Err_0.body.error@ == creation.error_spec(),
        },
{
    match creation {
        SessionCreation::Unauthorized => Err(
            Refused {
                status: StatusCode::Unauthorized,
                body: SessionErrorResponse { error: "authorization is failed".to_owned() },
            },
        ),
        SessionCreation::Failed(SetupError::Resources(text)) => Err(
            Refused {
                status: StatusCode::InternalServerError,
                body: SessionErrorResponse { error: text },
            },
        ),
        SessionCreation::OfferNotDelivered(text) => Err(
            Refused {
                status: StatusCode::ServiceUnavailable,
                body: SessionErrorResponse { error: text },
            },
        ),
        SessionCreation::AnswerLost(text) => Err(
            Refused { status: StatusCode::NotAcceptable, body: SessionErrorResponse { error: text } },
        ),
        SessionCreation::Answered(id, OfferResponse(Err(e))) => Err(
            Refused {
                status: StatusCode::NotAcceptable,
                body: SessionErrorResponse { error: e.message() },
            },
        ),
        SessionCreation::Answered(id, OfferResponse(Ok(answer))) => Ok(
            SessionCreatedResponse { session_id: id, offer: answer },
        ),
    }
}


/// A recognition request as the law below sees it: the handle that a new
/// job would get, and whether the session is still connected.
pub type RecognitionAttempt = (Handle, bool);

/// The job registry after the requests `attempts` of `user_id` for the
/// audio of `id`, in this order, and the decision of each.
pub open spec fn recognition_run(
    user_id: UserId,
    id: SessionId,
    sessions: Map<EntryKey, Handle>,
    jobs: Map<EntryKey, Handle>,
    attempts: Seq<RecognitionAttempt>,
) -> (Map<EntryKey, Handle>, Seq<Result<Recognition, RecognitionRefusal>>)
    decreases attempts.len(),
{
    if attempts.len() == 0 {
        (jobs, Seq::empty())
    } else {
        let (before, decided) = recognition_run(user_id, id, sessions, jobs, attempts.drop_last());
        let (after, decision) = recognition_plan(
            Some(user_id),
            id,
            sessions,
            attempts.last().1,
            before,
            attempts.last().0,
        );
        (after, decided.push(decision))
    }
}

/// One pipeline per identifier: of any number of requests for the audio of
/// one session, all are accepted and all wait on the same job. Where the job
/// did not exist, the first request creates it and is the only one that
/// starts a pipeline and the only one that may close the session; where it
/// existed, no request starts or closes anything.
pub proof fn lemma_one_pipeline_per_session(
    user_id: UserId,
    id: SessionId,
    sessions: Map<EntryKey, Handle>,
    jobs: Map<EntryKey, Handle>,
    attempts: Seq<RecognitionAttempt>,
)
    requires
        attempts.len() > 0,
        sessions.contains_key(entry_key(user_id, id)) || jobs.contains_key(entry_key(user_id, id)),
    ensures
        recognition_run(user_id, id, sessions, jobs, attempts).0 == claim(
            jobs,
            entry_key(user_id, id),
            attempts[0].0,
        ).0,
        recognition_run(user_id, id, sessions, jobs, attempts).1.len() == attempts.len(),
        forall|i: int|
            0 <= i < attempts.len() ==> (#[trigger] recognition_run(
                user_id,
                id,
                sessions,
                jobs,
                attempts,
            ).1[i]) == Ok::<Recognition, RecognitionRefusal>(
                Recognition {
                    job: claim(jobs, entry_key(user_id, id), attempts[0].0).1,
                    start_pipeline: i == 0 && !jobs.contains_key(entry_key(user_id, id)),
                    close_session: if i == 0 && !jobs.contains_key(entry_key(user_id, id))
                        && attempts[0].1 {
                        Some(sessions[entry_key(user_id, id)])
                    } else {
                        None
                    },
                },
            ),
    decreases attempts.len(),
{
    let key = entry_key(user_id, id);
    let earlier = attempts.drop_last();
    let (before, decided) = recognition_run(user_id, id, sessions, jobs, earlier);
    if attempts.len() > 1 {
        lemma_one_pipeline_per_session(user_id, id, sessions, jobs, earlier);
        assert(earlier[0] == attempts[0]);
        assert(before.contains_key(key));
        assert forall|i: int| 0 <= i < attempts.len() - 1 implies recognition_run(
            user_id,
            id,
            sessions,
            jobs,
            attempts,
        ).1[i] == decided[i] by {}
    } else {
        assert(before == jobs);
        assert(decided.len() == 0);
        assert(attempts.last() == attempts[0]);
    }
}

} // verus!
