use voice_launcher::{
    job_request_body, job_status_url, Action, Launcher, ResponseFields, TranscribeError,
    TranscriptionJob, POLL_INTERVAL_SECS,
};

fn polling_job() -> TranscriptionJob {
    let (mut job, _) = TranscriptionJob::start("https://up", "https://tr", vec![1, 2]);
    job.on_response(r#"{"upload_url":"https://cdn/a"}"#);
    job.on_response(r#"{"id":"j1"}"#);
    job
}

#[test]
fn start_uploads_audio() {
    let (job, action) = TranscriptionJob::start("https://up", "https://tr", vec![1, 2, 3]);
    assert!(!job.is_finished());
    match action {
        Action::Upload { url, audio } => {
            assert_eq!(url, "https://up");
            assert_eq!(audio, vec![1, 2, 3]);
        }
        other => panic!("unexpected {:?}", other),
    }
}

#[test]
fn upload_response_creates_job() {
    let (mut job, _) = TranscriptionJob::start("https://up", "https://tr", vec![]);
    match job.on_response(r#"{"upload_url":"https://cdn/a"}"#) {
        Action::CreateJob { url, body } => {
            assert_eq!(url, "https://tr");
            assert_eq!(body, r#"{"audio_url":"https://cdn/a"}"#);
        }
        other => panic!("unexpected {:?}", other),
    }
}

#[test]
fn job_body_escapes_url() {
    let (mut job, _) = TranscriptionJob::start("https://up", "https://tr", vec![]);
    match job.on_response(r#"{"upload_url":"a\"b"}"#) {
        Action::CreateJob { body, .. } => assert_eq!(body, r#"{"audio_url":"a\"b"}"#),
        other => panic!("unexpected {:?}", other),
    }
}

#[test]
fn job_body_escapes_control_characters() {
    let (mut job, _) = TranscriptionJob::start("https://up", "https://tr", vec![]);
    match job.on_response(r#"{"upload_url":"a\\b\n\u0001\u001f/é"}"#) {
        Action::CreateJob { body, .. } => {
            assert_eq!(body, r#"{"audio_url":"a\\b\n\u0001\u001f/é"}"#)
        }
        other => panic!("unexpected {:?}", other),
    }
}

#[test]
fn missing_upload_url_fails() {
    let (mut job, _) = TranscriptionJob::start("https://up", "https://tr", vec![]);
    let a = job.on_response(r#"{"other":1}"#);
    assert!(matches!(a, Action::Failed(TranscribeError::MissingUploadUrl)));
    assert!(job.is_finished());
}

#[test]
fn non_string_upload_url_fails() {
    let (mut job, _) = TranscriptionJob::start("https://up", "https://tr", vec![]);
    let a = job.on_response(r#"{"upload_url":5}"#);
    assert!(matches!(a, Action::Failed(TranscribeError::MissingUploadUrl)));
}

#[test]
fn job_id_starts_polling_at_once() {
    let (mut job, _) = TranscriptionJob::start("https://up", "https://tr", vec![]);
    job.on_response(r#"{"upload_url":"u"}"#);
    match job.on_response(r#"{"id":"j1"}"#) {
        Action::Poll { url, delay_secs } => {
            assert_eq!(url, "https://tr/j1");
            assert_eq!(delay_secs, 0);
        }
        other => panic!("unexpected {:?}", other),
    }
}

#[test]
fn missing_transcript_id_fails() {
    let (mut job, _) = TranscriptionJob::start("https://up", "https://tr", vec![]);
    job.on_response(r#"{"upload_url":"u"}"#);
    let a = job.on_response(r#"{"id":null}"#);
    assert!(matches!(a, Action::Failed(TranscribeError::MissingTranscriptId)));
}

#[test]
fn pending_status_polls_again() {
    let mut job = polling_job();
    for body in [r#"{"status":"queued"}"#, r#"{"status":"processing"}"#, r#"{}"#] {
        match job.on_response(body) {
            Action::Poll { url, delay_secs } => {
                assert_eq!(url, "https://tr/j1");
                assert_eq!(delay_secs, POLL_INTERVAL_SECS);
                assert_eq!(delay_secs, 10);
            }
            other => panic!("unexpected {:?}", other),
        }
        assert!(!job.is_finished());
    }
}

#[test]
fn completed_status_returns_transcript() {
    let mut job = polling_job();
    match job.on_response(r#"{"status":"completed","text":"how is the weather"}"#) {
        Action::Completed { text, launch } => {
            assert_eq!(text, "how is the weather");
            assert_eq!(launch, Some(Launcher::Weather));
        }
        other => panic!("unexpected {:?}", other),
    }
    assert!(job.is_finished());
}

#[test]
fn completed_without_text_is_empty() {
    let mut job = polling_job();
    match job.on_response(r#"{"status":"completed"}"#) {
        Action::Completed { text, launch } => {
            assert_eq!(text, "");
            assert_eq!(launch, None);
        }
        other => panic!("unexpected {:?}", other),
    }
}

#[test]
fn failed_status_reports_remote_error() {
    let mut job = polling_job();
    match job.on_response(r#"{"status":"failed","error":"bad audio"}"#) {
        Action::Failed(TranscribeError::Remote(m)) => assert_eq!(m, "bad audio"),
        other => panic!("unexpected {:?}", other),
    }
    assert!(job.is_finished());
}

#[test]
fn failed_without_message_is_unknown() {
    let mut job = polling_job();
    match job.on_response(r#"{"status":"failed"}"#) {
        Action::Failed(TranscribeError::Remote(m)) => assert_eq!(m, "Unknown error"),
        other => panic!("unexpected {:?}", other),
    }
}

#[test]
fn invalid_json_ends_job() {
    let mut job = polling_job();
    let a = job.on_response("not json");
    assert!(matches!(a, Action::Failed(TranscribeError::InvalidResponse)));
    assert!(job.is_finished());
    let b = job.on_response(r#"{"status":"completed"}"#);
    assert!(matches!(b, Action::Failed(TranscribeError::AlreadyFinished)));
}

#[test]
fn fields_drive_the_same_steps() {
    let (mut job, _) = TranscriptionJob::start("https://up", "https://tr", vec![]);
    let f = ResponseFields {
        upload_url: Some("u".to_string()),
        id: None,
        status: None,
        text: None,
        error: None,
    };
    assert!(matches!(job.on_fields(f), Action::CreateJob { .. }));
}

#[test]
fn body_and_url_builders() {
    assert_eq!(job_request_body("\"x\""), "{\"audio_url\":\"x\"}");
    assert_eq!(job_status_url("https://tr", "abc"), "https://tr/abc");
}
