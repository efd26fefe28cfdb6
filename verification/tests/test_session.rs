//! The status of a recording session from its beginning to its end.

use text_to_code_lib::audio::{RecordingSession, RecordingStatus, TargetWindowRef};

fn recording() -> RecordingSession {
    RecordingSession::begin(
        "id-1".to_string(),
        "2025-01-01T10:00:00+00:00".to_string(),
        "small-en".to_string(),
        TargetWindowRef::ActiveWindow,
    )
}

#[test]
fn test_session_begins_recording() {
    let session = recording();
    assert_eq!(
        session,
        RecordingSession {
            id: "id-1".to_string(),
            started_at: "2025-01-01T10:00:00+00:00".to_string(),
            ended_at: None,
            duration_ms: None,
            status: RecordingStatus::Recording,
            model_id: "small-en".to_string(),
            transcription: None,
            target_window: TargetWindowRef::ActiveWindow,
        }
    );
}

#[test]
fn test_session_completes() {
    let mut session = recording();
    assert!(session.stop("2025-01-01T10:00:03+00:00".to_string(), 3000));
    assert_eq!(session.status, RecordingStatus::Transcribing);
    assert_eq!(session.ended_at, Some("2025-01-01T10:00:03+00:00".to_string()));
    assert_eq!(session.duration_ms, Some(3000));

    assert!(session.finish(Ok("hello".to_string())));
    assert_eq!(session.status, RecordingStatus::Completed);
    assert_eq!(session.transcription, Some("hello".to_string()));
    assert_eq!(session.duration_ms, Some(3000));
    assert_eq!(session.id, "id-1");
}

#[test]
fn test_session_fails() {
    let mut session = recording();
    assert!(session.stop("later".to_string(), 10));
    assert!(session.finish(Err("Resampling failed: boom".to_string())));
    assert_eq!(
        session.status,
        RecordingStatus::Failed { message: "Resampling failed: boom".to_string() }
    );
    assert_eq!(session.transcription, None);
}

#[test]
fn test_session_takes_no_illegal_step() {
    // A recording session cannot end before it has stopped.
    let mut session = recording();
    let before = session.clone();
    assert!(!session.finish(Ok("early".to_string())));
    assert_eq!(session, before);

    // A session that is being transcribed cannot stop again.
    assert!(session.stop("t1".to_string(), 1));
    let before = session.clone();
    assert!(!session.stop("t2".to_string(), 2));
    assert_eq!(session, before);

    // A session that has ended stays as it ended.
    assert!(session.finish(Ok("done".to_string())));
    let before = session.clone();
    assert!(!session.finish(Err("late".to_string())));
    assert!(!session.stop("t3".to_string(), 3));
    assert_eq!(session, before);
}
