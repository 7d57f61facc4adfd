//! The decisions behind the dictation commands: settings validation, the
//! backend label a round is started under, the checks on the transcript and
//! on its injection, and the laws of the session state machine.
use vstd::prelude::*;

use crate::config::{is_default_settings, LocalBackend, Settings, TranscriptionProvider};
use crate::error::{is_injection, is_transcription, is_validation, VoxioError};
use crate::modules::injector::InjectResult;
use crate::state::{
    can_start, cancelled, finalized, initial_session, processing, session_well_formed,
    started, toggle_of, DictationState, OutcomeView, SessionView, ToggleAction,
};
use crate::text::{blank, concat3, is_blank, lit, trim, trimmed};

verus! {

/// The name of a local backend choice.
pub open spec fn local_backend_name(b: LocalBackend) -> Seq<char> {
    match b {
        LocalBackend::Auto => "Auto route"@,
        LocalBackend::Whisper => "Whisper"@,
        LocalBackend::SenseVoice => "SenseVoice"@,
    }
}

/// The label of the backend that the settings ask for.
pub open spec fn backend_label(p: TranscriptionProvider, b: LocalBackend) -> Seq<char> {
    match p {
        TranscriptionProvider::Cloud => "Cloud"@,
        TranscriptionProvider::Auto => "Auto fallback ("@ + local_backend_name(b) + ")"@,
        TranscriptionProvider::Local => local_backend_name(b),
    }
}

fn local_backend_text(b: LocalBackend) -> (r: &'static str)
    ensures
        r@ == local_backend_name(b),
{
    match b {
        LocalBackend::Auto => "Auto route",
        LocalBackend::Whisper => "Whisper",
        LocalBackend::SenseVoice => "SenseVoice",
    }
}

/// The label of the backend requested by the settings, which a processing
/// session records.
pub fn requested_backend_label(settings: &Settings) -> (r: String)
    ensures
        r@ == backend_label(settings.transcription_provider, settings.local_backend),
{
    match settings.transcription_provider {
        TranscriptionProvider::Cloud => lit("Cloud"),
        TranscriptionProvider::Auto => concat3(
            "Auto fallback (",
            local_backend_text(settings.local_backend),
            ")",
        ),
        TranscriptionProvider::Local => lit(local_backend_text(settings.local_backend)),
    }
}

/// The first rule that the settings break, as its message; `None` when they
/// break none.
pub open spec fn settings_problem(s: &Settings) -> Option<Seq<char>> {
    if is_blank(s.hotkey@) {
        Some("Hotkey must not be empty."@)
    } else if !(500 <= s.silence_timeout_ms <= 5000) {
        Some("Silence timeout must be between 500 and 5000 ms."@)
    } else if s.transcription_hint@.len() > 300 {
        Some("Prompt hint must be 300 characters or fewer."@)
    } else if s.vocabulary_terms@.len() > 500 {
        Some("Vocabulary must be 500 characters or fewer."@)
    } else {
        None
    }
}

/// Checks settings before they are stored: a hotkey, a silence timeout of
/// 500 to 5000 ms, a hint of at most 300 and a vocabulary of at most 500
/// characters.
pub fn validate_settings(settings: &Settings) -> (r: Result<(), VoxioError>)
    ensures
        match settings_problem(settings) {
            None => r is Ok,
            Some(m) => r matches Err(e) && is_validation(e, m),
        },
{
    if blank(settings.hotkey.as_str()) {
        return Err(VoxioError::Validation(lit("Hotkey must not be empty.")));
    }
    if !(500 <= settings.silence_timeout_ms && settings.silence_timeout_ms <= 5000) {
        return Err(
            VoxioError::Validation(lit("Silence timeout must be between 500 and 5000 ms.")),
        );
    }
    if settings.transcription_hint.as_str().unicode_len() > 300 {
        return Err(VoxioError::Validation(lit("Prompt hint must be 300 characters or fewer.")));
    }
    if settings.vocabulary_terms.as_str().unicode_len() > 500 {
        return Err(VoxioError::Validation(lit("Vocabulary must be 500 characters or fewer.")));
    }
    Ok(())
}

/// The transcript that a round injects: the recognised text, trimmed; an
/// empty one fails the round.
pub fn processing_transcript(text: &str) -> (r: Result<String, VoxioError>)
    ensures
        is_blank(text@) ==> (r matches Err(e) && is_transcription(
            e,
            "whisper returned an empty transcript"@,
        )),
        !is_blank(text@) ==> (r matches Ok(t) && t@ == trimmed(text@)),
{
    let transcript = trim(text);
    if transcript.unicode_len() == 0 {
        Err(VoxioError::Transcription(lit("whisper returned an empty transcript")))
    } else {
        Ok(transcript.to_string())
    }
}

/// What an injection attempt means for the round: its error, or an error when
/// nothing was applied.
pub fn injection_outcome(result: Result<InjectResult, VoxioError>) -> (r: Result<
    (),
    VoxioError,
>)
    ensures
        result matches Err(e) ==> r == Err::<(), VoxioError>(e),
        result matches Ok(res) ==> (res.applied <==> r is Ok),
        result matches Ok(res) && !res.applied ==> (r matches Err(e) && is_injection(
            e,
            "no text was available to inject"@,
        )),
{
    match result {
        Ok(res) => {
            if res.applied {
                Ok(())
            } else {
                Err(VoxioError::Injection(lit("no text was available to inject")))
            }
        },
        Err(e) => Err(e),
    }
}

/// The settings a first start runs with pass validation.
pub proof fn lemma_default_settings_valid(s: Settings)
    requires
        is_default_settings(s),
    ensures
        settings_problem(&s) is None,
{
    reveal_strlit("Option+Space");
    assert(!crate::text::is_white_space(s.hotkey@[0]));
    assert(crate::text::trim_start(s.hotkey@) == s.hotkey@);
    assert(s.hotkey@.last() == 'e');
    assert(crate::text::trim_end(s.hotkey@) == s.hotkey@);
}

/// Every transition keeps the session well formed: a session that listens or
/// processes always has an id.
pub proof fn lemma_transitions_keep_session_id(
    s: SessionView,
    id: u128,
    label: Seq<char>,
    result_id: Option<u128>,
    result: Result<OutcomeView, Seq<char>>,
)
    requires
        session_well_formed(s),
    ensures
        can_start(s.state) ==> session_well_formed(started(s, id)),
        s.state == DictationState::Listening ==> session_well_formed(processing(s, label)),
        session_well_formed(finalized(s, result_id, result)),
        session_well_formed(cancelled(s)),
{
}

/// A late result of a session that is no longer processing, such as one that
/// was cancelled or replaced by a new recording, leaves the session as it is.
pub proof fn lemma_stale_result_ignored(
    s: SessionView,
    old_id: u128,
    new_id: u128,
    result: Result<OutcomeView, Seq<char>>,
)
    ensures
        finalized(cancelled(s), Some(old_id), result) == cancelled(s),
        can_start(s.state) ==> finalized(started(s, new_id), Some(old_id), result) == started(
            s,
            new_id,
        ),
        s.session_id != Some(old_id) ==> finalized(s, Some(old_id), result) == s,
{
}

/// One dictation round: a start under `id`, a stop, and the result of that
/// very session bring the session back to idle with the transcript, provider
/// and route of the result; a failed result leaves it in the error state with
/// the error's text.
pub proof fn lemma_dictation_round(
    s: SessionView,
    id: u128,
    label: Seq<char>,
    outcome: OutcomeView,
    error: Seq<char>,
)
    requires
        can_start(s.state),
    ensures
        ({
            let done = finalized(processing(started(s, id), label), Some(id), Ok(outcome));
            &&& done.state == DictationState::Idle
            &&& done.session_id == Some(id)
            &&& done.last_transcript == Some(outcome.transcript)
            &&& done.last_error is None
            &&& done.last_provider == Some(outcome.provider)
            &&& done.last_latency_ms == Some(outcome.latency_ms)
            &&& done.actual_backend == Some(outcome.route.actual_backend)
            &&& done.requested_backend == Some(outcome.route.requested_backend)
            &&& done.detected_language == Some(outcome.route.detected_language)
            &&& done.fallback_used == outcome.route.fallback_used
            &&& done.fallback_reason == outcome.route.fallback_reason
        }),
        ({
            let failed = finalized(processing(started(s, id), label), Some(id), Err(error));
            &&& failed.state == DictationState::Error
            &&& failed.last_error == Some(error)
            &&& failed.last_transcript is None
            &&& can_start(failed.state)
        }),
{
}

/// While a session listens or processes no second one can start, and the
/// toggle stops a listening session and leaves a processing one alone.
pub proof fn lemma_one_session_at_a_time(s: SessionView, id: u128, label: Seq<char>)
    requires
        can_start(s.state),
    ensures
        !can_start(started(s, id).state),
        !can_start(processing(started(s, id), label).state),
        toggle_of(s.state) == ToggleAction::Start,
        toggle_of(started(s, id).state) == ToggleAction::Stop,
        toggle_of(processing(started(s, id), label).state) == ToggleAction::Report,
        toggle_of(initial_session().state) == ToggleAction::Start,
{
}

/// From any state, a cancel brings the session back to idle with no session,
/// so a missing permission, a failed injection or an empty recording never
/// leaves it stuck.
pub proof fn lemma_cancel_returns_to_idle(s: SessionView)
    ensures
        cancelled(s).state == DictationState::Idle,
        cancelled(s).session_id is None,
        cancelled(s).last_transcript == s.last_transcript,
        can_start(cancelled(s).state),
        session_well_formed(cancelled(s)),
{
}

/// The label a round is requested under: `Cloud` for the cloud; for the
/// local provider the engine's name (`Auto route`, `Whisper`, `SenseVoice`);
/// for the automatic provider the very same local label inside
/// `Auto fallback (...)`.
pub proof fn lemma_backend_labels(b: LocalBackend)
    ensures
        backend_label(TranscriptionProvider::Cloud, b) == "Cloud"@,
        backend_label(TranscriptionProvider::Local, LocalBackend::Auto) == "Auto route"@,
        backend_label(TranscriptionProvider::Local, LocalBackend::Whisper) == "Whisper"@,
        backend_label(TranscriptionProvider::Local, LocalBackend::SenseVoice) == "SenseVoice"@,
        backend_label(TranscriptionProvider::Auto, b) == "Auto fallback ("@ + backend_label(
            TranscriptionProvider::Local,
            b,
        ) + ")"@,
{
}

} // verus!
