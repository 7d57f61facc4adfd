use voxio::error::VoxioError;
use voxio::modules::asr::RouteDecision;
use voxio::state::{
    session_id_text, DictationState, ProcessingOutcome, SessionState, StopDecision, ToggleAction,
};

fn outcome(text: &str) -> ProcessingOutcome {
    ProcessingOutcome {
        transcript: text.to_string(),
        provider: "whisper-cli".to_string(),
        latency_ms: 420,
        route: RouteDecision {
            requested_backend: "Auto route".to_string(),
            actual_backend: "whisper-cli".to_string(),
            detected_language: "auto".to_string(),
            fallback_used: false,
            fallback_reason: None,
        },
    }
}

#[test]
fn session_ids_read_as_hyphenated_lowercase_hex() {
    assert_eq!(
        session_id_text(0x0123_4567_89ab_cdef_fedc_ba98_7654_3210),
        "01234567-89ab-cdef-fedc-ba9876543210"
    );
    assert_eq!(session_id_text(0), "00000000-0000-0000-0000-000000000000");
    assert_eq!(session_id_text(u128::MAX), "ffffffff-ffff-ffff-ffff-ffffffffffff");
}

#[test]
fn a_full_round_ends_idle_with_the_transcript() {
    let mut s = SessionState::default();
    assert_eq!(s.toggle_action(), ToggleAction::Start);
    assert!(s.request_start().is_ok());
    let snap = s.listen_as(7);
    assert_eq!(snap.state, DictationState::Listening);
    assert_eq!(snap.session_id.as_deref(), Some("00000000-0000-0000-0000-000000000007"));
    assert_eq!(s.toggle_action(), ToggleAction::Stop);
    let id = match s.request_stop("Auto route".to_string()) {
        StopDecision::Processing { session_id, snapshot } => {
            assert_eq!(snapshot.state, DictationState::Processing);
            assert_eq!(snapshot.requested_backend.as_deref(), Some("Auto route"));
            session_id
        }
        _ => panic!("expected processing"),
    };
    assert_eq!(id, Some(7));
    assert_eq!(s.toggle_action(), ToggleAction::Report);
    let done = s.finalize(id, Ok(outcome("hello")));
    assert_eq!(done.state, DictationState::Idle);
    assert_eq!(done.last_transcript.as_deref(), Some("hello"));
    assert_eq!(done.last_provider.as_deref(), Some("whisper-cli"));
    assert_eq!(done.last_latency_ms, Some(420));
    assert_eq!(done.actual_backend.as_deref(), Some("whisper-cli"));
    assert_eq!(done.last_error, None);
}

#[test]
fn a_second_session_is_refused_while_one_is_active() {
    let mut s = SessionState::default();
    s.listen_as(1);
    match s.request_start() {
        Err(VoxioError::Validation(m)) => assert_eq!(m, "A dictation session is already active."),
        other => panic!("unexpected {:?}", other),
    }
    let _ = s.request_stop("Cloud".to_string());
    assert!(s.request_start().is_err());
}

#[test]
fn stop_requests_outside_listening() {
    let mut s = SessionState::default();
    match s.request_stop("Cloud".to_string()) {
        StopDecision::Rejected(VoxioError::Validation(m)) => {
            assert_eq!(m, "No active dictation session to stop.")
        }
        _ => panic!("expected a refusal"),
    }
    s.listen_as(3);
    let _ = s.request_stop("Cloud".to_string());
    match s.request_stop("Cloud".to_string()) {
        StopDecision::Rejected(VoxioError::Validation(m)) => {
            assert_eq!(m, "Speech is already processing.")
        }
        _ => panic!("expected a refusal"),
    }
    let failed = s.finalize(Some(3), Err(VoxioError::Recording("no audio".to_string())));
    assert_eq!(failed.state, DictationState::Error);
    assert_eq!(failed.last_error.as_deref(), Some("recording failed: no audio"));
    assert!(matches!(s.request_stop("Cloud".to_string()), StopDecision::Unchanged));
    assert_eq!(s.state, DictationState::Error);
    assert!(s.request_start().is_ok());
}

#[test]
fn a_late_result_of_another_session_is_ignored() {
    let mut s = SessionState::default();
    s.listen_as(10);
    let _ = s.request_stop("Whisper".to_string());
    let after = s.finalize(Some(11), Ok(outcome("stale")));
    assert_eq!(after.state, DictationState::Processing);
    assert_eq!(after.last_transcript, None);
    s.cancel();
    let after_cancel = s.finalize(Some(10), Ok(outcome("late")));
    assert_eq!(after_cancel.state, DictationState::Idle);
    assert_eq!(after_cancel.last_transcript, None);
    assert_eq!(after_cancel.session_id, None);
}

#[test]
fn cancel_keeps_the_last_transcript_and_clears_the_rest() {
    let mut s = SessionState::default();
    s.listen_as(5);
    let _ = s.request_stop("Whisper".to_string());
    s.finalize(Some(5), Ok(outcome("kept")));
    s.listen_as(6);
    let snap = s.cancel();
    assert_eq!(snap.state, DictationState::Idle);
    assert_eq!(snap.session_id, None);
    assert_eq!(snap.last_transcript.as_deref(), Some("kept"));
    assert_eq!(snap.last_provider, None);
    assert_eq!(snap.last_latency_ms, None);
    assert!(!snap.fallback_used);
}

#[test]
fn a_new_recording_gets_a_random_session_id() {
    let mut s = SessionState::default();
    let snap = s.begin_listening();
    assert_eq!(snap.state, DictationState::Listening);
    let text = snap.session_id.expect("a session id");
    assert_eq!(text.len(), 36);
    assert_eq!(text.as_bytes()[14], b'4');
}

#[test]
fn only_the_processing_session_accepts_results() {
    let mut s = SessionState::default();
    assert!(!s.accepts_result(None));
    s.listen_as(21);
    assert!(!s.accepts_result(Some(21)));
    let _ = s.request_stop("Whisper".to_string());
    assert!(s.accepts_result(Some(21)));
    assert!(!s.accepts_result(Some(22)));
    s.cancel();
    assert!(!s.accepts_result(Some(21)));
}

#[test]
fn a_missing_recording_fails_the_round() {
    let mut s = SessionState::default();
    s.listen_as(30);
    let id = match s.request_stop("Whisper".to_string()) {
        StopDecision::Processing { session_id, .. } => session_id,
        _ => panic!(),
    };
    let (snapshot, error) = s.fail_missing_recording(id);
    match error {
        VoxioError::Recording(m) => assert_eq!(m, "no active recording session"),
        other => panic!("unexpected {:?}", other),
    }
    assert_eq!(snapshot.state, DictationState::Error);
    assert_eq!(
        snapshot.last_error.as_deref(),
        Some("recording failed: no active recording session")
    );
    assert!(s.request_start().is_ok());
}
