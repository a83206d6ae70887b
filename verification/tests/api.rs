use voice_sessions::api::{
    api_create_session, api_get_audio, api_text_to_speech, text_to_speech_response, AudioRefusal,
    ProcessAsrRequest, Recognition, RecognitionRefusal, SessionCreation, StatusCode,
};
use voice_sessions::asr::{AsrError, SpeechModel};
use voice_sessions::ident::UserId;
use voice_sessions::media::SetupError;
use voice_sessions::registry::Registry;
use voice_sessions::session::{NegotiationError, OfferResponse};

const U: UserId = UserId(9);
const REQ: ProcessAsrRequest = ProcessAsrRequest { session_id: 4, speech: SpeechModel::Neutral };

#[test]
fn recognition_needs_an_owner() {
    let sessions = Registry::new();
    let mut jobs = Registry::new();
    let r = api_text_to_speech(None, &REQ, &sessions, true, &mut jobs, 1);
    assert_eq!(r, Err(RecognitionRefusal::Unauthorized));
    let refused = RecognitionRefusal::Unauthorized.response();
    assert_eq!(refused.status, StatusCode::Unauthorized);
    assert_eq!(refused.status.code(), 401);
    assert_eq!(refused.body.error, "authorization is failed");
}

#[test]
fn recognition_needs_a_session_or_a_job() {
    let sessions = Registry::new();
    let mut jobs = Registry::new();
    let r = api_text_to_speech(Some(U), &REQ, &sessions, false, &mut jobs, 1);
    assert_eq!(r, Err(RecognitionRefusal::SessionNotCreated));
    assert!(!jobs.contains_key(U, 4));
    let refused = RecognitionRefusal::SessionNotCreated.response();
    assert_eq!(refused.status.code(), 404);
    assert_eq!(refused.body.error, "webrtc session wasn't created");
}

#[test]
fn first_request_creates_the_job_and_closes_a_connected_session() {
    let mut sessions = Registry::new();
    sessions.insert(U, 4, 40);
    let mut jobs = Registry::new();
    let first = api_text_to_speech(Some(U), &REQ, &sessions, true, &mut jobs, 100).unwrap();
    assert_eq!(first, Recognition { job: 100, start_pipeline: true, close_session: Some(40) });
    let second = api_text_to_speech(Some(U), &REQ, &sessions, true, &mut jobs, 101).unwrap();
    assert_eq!(second, Recognition { job: 100, start_pipeline: false, close_session: None });
    let third = api_text_to_speech(Some(U), &REQ, &sessions, false, &mut jobs, 102).unwrap();
    assert_eq!(third, Recognition { job: 100, start_pipeline: false, close_session: None });
    assert_eq!(jobs.get(U, 4), Some(100));
}

#[test]
fn a_closed_session_is_not_closed_again() {
    let mut sessions = Registry::new();
    sessions.insert(U, 4, 40);
    let mut jobs = Registry::new();
    let r = api_text_to_speech(Some(U), &REQ, &sessions, false, &mut jobs, 100).unwrap();
    assert_eq!(r, Recognition { job: 100, start_pipeline: true, close_session: None });
}

#[test]
fn a_job_outlives_its_session() {
    let sessions = Registry::new();
    let mut jobs = Registry::new();
    jobs.insert(U, 4, 55);
    let r = api_text_to_speech(Some(U), &REQ, &sessions, true, &mut jobs, 100).unwrap();
    assert_eq!(r, Recognition { job: 55, start_pipeline: false, close_session: None });
}

#[test]
fn recognition_responses() {
    let ok = text_to_speech_response(Ok(Ok("hello".to_string()))).unwrap();
    assert_eq!(ok.text, "hello");
    let e = text_to_speech_response(Ok(Err(AsrError::Transcoding))).unwrap_err();
    assert_eq!(e.status.code(), 503);
    assert_eq!(e.body.error, "error transcoding audio recording to internal format");
    let e = text_to_speech_response(Ok(Err(AsrError::Transport("rpc down".into())))).unwrap_err();
    assert_eq!((e.status, e.body.error.as_str()), (StatusCode::ServiceUnavailable, "rpc down"));
    let e = text_to_speech_response(Err("mailbox closed".to_string())).unwrap_err();
    assert_eq!((e.status, e.body.error.as_str()), (StatusCode::ServiceUnavailable, "mailbox closed"));
}

#[test]
fn audio_is_handed_out_only_after_the_session_closed() {
    let mut sessions = Registry::new();
    assert_eq!(api_get_audio(None, 4, &sessions, false), Err(AudioRefusal::PermissionDenied));
    assert_eq!(api_get_audio(Some(U), 4, &sessions, false), Err(AudioRefusal::WouldBlock));
    sessions.insert(U, 4, 40);
    assert_eq!(api_get_audio(Some(U), 4, &sessions, true), Err(AudioRefusal::WouldBlock));
    assert_eq!(
        api_get_audio(Some(U), 4, &sessions, false),
        Ok("00000000-0000-0000-0000-000000000004.ogg".to_string())
    );
    assert_eq!(api_get_audio(Some(UserId(8)), 4, &sessions, false), Err(AudioRefusal::WouldBlock));
    assert_eq!(AudioRefusal::PermissionDenied.message(), "authorization is failed");
    assert_eq!(AudioRefusal::WouldBlock.message(), "session is writing");
}

#[test]
fn session_creation_responses() {
    let ok = api_create_session(SessionCreation::Answered(7, OfferResponse(Ok("v=0".into())))).unwrap();
    assert_eq!((ok.session_id, ok.offer.as_str()), (7, "v=0"));

    let status_and_text = |c: SessionCreation| {
        let e = api_create_session(c).unwrap_err();
        (e.status.code(), e.body.error)
    };
    assert_eq!(status_and_text(SessionCreation::Unauthorized), (401, "authorization is failed".to_string()));
    assert_eq!(
        status_and_text(SessionCreation::Failed(SetupError::Resources("no file".into()))),
        (500, "no file".to_string())
    );
    assert_eq!(status_and_text(SessionCreation::OfferNotDelivered("closed".into())), (503, "closed".to_string()));
    assert_eq!(status_and_text(SessionCreation::AnswerLost("canceled".into())), (406, "canceled".to_string()));
    assert_eq!(
        status_and_text(SessionCreation::Answered(7, OfferResponse(Err(NegotiationError::NoLocalDescription)))),
        (406, "generate local_description failed".to_string())
    );
    assert_eq!(
        status_and_text(SessionCreation::Answered(7, OfferResponse(Err(NegotiationError::Transport("ice".into()))))),
        (406, "ice".to_string())
    );
}

#[test]
fn status_numbers() {
    assert_eq!(StatusCode::Success.code(), 200);
    assert_eq!(StatusCode::BadRequest.code(), 400);
    assert_eq!(StatusCode::Unauthorized.code(), 401);
    assert_eq!(StatusCode::NotFound.code(), 404);
    assert_eq!(StatusCode::NotAcceptable.code(), 406);
    assert_eq!(StatusCode::InternalServerError.code(), 500);
    assert_eq!(StatusCode::ServiceUnavailable.code(), 503);
}
