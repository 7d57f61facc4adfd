use voxio::commands::{
    injection_outcome, processing_transcript, requested_backend_label, validate_settings,
};
use voxio::config::{CloudModel, InjectionMode, LocalBackend, ModelSize, Settings, TranscriptionProvider};
use voxio::error::VoxioError;
use voxio::modules::injector::InjectResult;

fn make_settings(
    transcription_provider: TranscriptionProvider,
    local_backend: LocalBackend,
) -> Settings {
    Settings {
        hotkey: "Option+Space".to_string(),
        language: "auto".to_string(),
        local_backend,
        transcription_hint: String::new(),
        vocabulary_terms: String::new(),
        auto_punctuation: true,
        silence_timeout_ms: 1200,
        injection_mode: InjectionMode::Auto,
        transcription_provider,
        cloud_model: CloudModel::Fast,
        model: ModelSize::Balanced,
        launch_at_login: false,
    }
}

#[test]
fn requested_backend_label_matches_local_modes() {
    assert_eq!(
        requested_backend_label(&make_settings(TranscriptionProvider::Local, LocalBackend::Auto)),
        "Auto route"
    );
    assert_eq!(
        requested_backend_label(&make_settings(
            TranscriptionProvider::Local,
            LocalBackend::Whisper
        )),
        "Whisper"
    );
    assert_eq!(
        requested_backend_label(&make_settings(
            TranscriptionProvider::Local,
            LocalBackend::SenseVoice
        )),
        "SenseVoice"
    );
}

#[test]
fn requested_backend_label_matches_auto_fallback_modes() {
    assert_eq!(
        requested_backend_label(&make_settings(TranscriptionProvider::Auto, LocalBackend::Auto)),
        "Auto fallback (Auto route)"
    );
    assert_eq!(
        requested_backend_label(&make_settings(
            TranscriptionProvider::Auto,
            LocalBackend::Whisper
        )),
        "Auto fallback (Whisper)"
    );
}

#[test]
fn requested_backend_label_matches_cloud_mode() {
    assert_eq!(
        requested_backend_label(&make_settings(
            TranscriptionProvider::Cloud,
            LocalBackend::SenseVoice
        )),
        "Cloud"
    );
}

fn validation_message(settings: &Settings) -> Option<String> {
    match validate_settings(settings) {
        Ok(()) => None,
        Err(VoxioError::Validation(m)) => Some(m),
        Err(other) => panic!("unexpected error {:?}", other),
    }
}

#[test]
fn default_settings_pass_validation() {
    assert_eq!(validation_message(&Settings::default()), None);
}

#[test]
fn blank_hotkey_is_refused() {
    let mut s = Settings::default();
    s.hotkey = " \t ".to_string();
    assert_eq!(validation_message(&s), Some("Hotkey must not be empty.".to_string()));
}

#[test]
fn silence_timeout_bounds_are_inclusive() {
    let mut s = Settings::default();
    s.silence_timeout_ms = 500;
    assert_eq!(validation_message(&s), None);
    s.silence_timeout_ms = 5000;
    assert_eq!(validation_message(&s), None);
    s.silence_timeout_ms = 499;
    assert_eq!(
        validation_message(&s),
        Some("Silence timeout must be between 500 and 5000 ms.".to_string())
    );
    s.silence_timeout_ms = 5001;
    assert_eq!(
        validation_message(&s),
        Some("Silence timeout must be between 500 and 5000 ms.".to_string())
    );
}

#[test]
fn hint_and_vocabulary_limits_count_characters() {
    let mut s = Settings::default();
    s.transcription_hint = "é".repeat(300);
    assert_eq!(validation_message(&s), None);
    s.transcription_hint = "é".repeat(301);
    assert_eq!(
        validation_message(&s),
        Some("Prompt hint must be 300 characters or fewer.".to_string())
    );
    s.transcription_hint = String::new();
    s.vocabulary_terms = "語".repeat(500);
    assert_eq!(validation_message(&s), None);
    s.vocabulary_terms = "語".repeat(501);
    assert_eq!(
        validation_message(&s),
        Some("Vocabulary must be 500 characters or fewer.".to_string())
    );
}

#[test]
fn hotkey_rule_comes_before_the_others() {
    let mut s = Settings::default();
    s.hotkey = String::new();
    s.silence_timeout_ms = 1;
    assert_eq!(validation_message(&s), Some("Hotkey must not be empty.".to_string()));
}

#[test]
fn transcript_is_trimmed_and_must_not_be_empty() {
    match processing_transcript("  hello world \n") {
        Ok(t) => assert_eq!(t, "hello world"),
        Err(e) => panic!("unexpected {:?}", e),
    }
    match processing_transcript(" \u{3000}\n") {
        Err(VoxioError::Transcription(m)) => {
            assert_eq!(m, "whisper returned an empty transcript")
        }
        other => panic!("unexpected {:?}", other),
    }
}

#[test]
fn injection_that_applied_nothing_fails() {
    assert!(injection_outcome(Ok(InjectResult { applied: true })).is_ok());
    match injection_outcome(Ok(InjectResult { applied: false })) {
        Err(VoxioError::Injection(m)) => assert_eq!(m, "no text was available to inject"),
        other => panic!("unexpected {:?}", other),
    }
    match injection_outcome(Err(VoxioError::Injection("clipboard unavailable: x".to_string()))) {
        Err(VoxioError::Injection(m)) => assert_eq!(m, "clipboard unavailable: x"),
        other => panic!("unexpected {:?}", other),
    }
}

#[test]
fn error_messages_read_like_their_display() {
    assert_eq!(VoxioError::Validation("bad".to_string()).message(), "bad");
    assert_eq!(
        VoxioError::Injection("x".to_string()).message(),
        "input injection failed: x"
    );
    assert_eq!(VoxioError::Recording("x".to_string()).message(), "recording failed: x");
    assert_eq!(
        VoxioError::Transcription("x".to_string()).message(),
        "transcription failed: x"
    );
    assert_eq!(VoxioError::Io("x".to_string()).message(), "io error: x");
    assert_eq!(
        VoxioError::Serialization("x".to_string()).message(),
        "serialization error: x"
    );
}
