//! The dictation session: its state machine, the snapshot the UI sees, and
//! the session ids that keep late results of an old session out of a new one.
use vstd::prelude::*;
use vstd::arithmetic::power::pow;

use crate::error::{is_recording, is_validation, VoxioError};
use crate::modules::asr::{RouteDecision, RouteView};
use crate::text::lit;

verus! {

#[derive(Clone, Copy, Debug, PartialEq, Eq, Structural)]
pub enum DictationState {
    Idle,
    Listening,
    Processing,
    Error,
}

/// The lower-case hexadecimal digit for a value below sixteen.
pub open spec fn hex_char(d: int) -> char {
    if d < 10 {
        (48 + d) as char
    } else {
        (87 + d) as char
    }
}

/// The `k`-th hexadecimal digit of a 128-bit id, most significant first.
pub open spec fn id_nibble(id: u128, k: int) -> int {
    (id as int / pow(16, (31 - k) as nat)) % 16
}

pub open spec fn id_hex(id: u128, from: int, to: int) -> Seq<char> {
    Seq::new((to - from) as nat, |i: int| hex_char(id_nibble(id, from + i)))
}

/// The hyphenated lower-case form of a 128-bit id: 8-4-4-4-12 hexadecimal
/// digits, most significant first.
pub open spec fn uuid_text(id: u128) -> Seq<char> {
    id_hex(id, 0, 8) + seq!['-'] + id_hex(id, 8, 12) + seq!['-'] + id_hex(id, 12, 16) + seq!['-']
        + id_hex(id, 16, 20) + seq!['-'] + id_hex(id, 20, 32)
}

/// `uuid::Uuid::from_u128(id).to_string()`: uuid's `Display` writes the
/// hyphenated lower-case form of the id's 16 big-endian bytes, which the
/// contract states.
#[verifier::external_body]
fn hyphenated_uuid(id: u128) -> (r: String)
    ensures
        r@ == uuid_text(id),
{
    uuid::Uuid::from_u128(id).to_string()
}

/// `uuid::Uuid::new_v4()`, as its 128-bit value. The value is random, so
/// nothing is stated of it.
#[verifier::external_body]
fn new_session_id() -> (r: u128) {
    uuid::Uuid::new_v4().as_u128()
}

/// The hyphenated text of a session id.
pub fn session_id_text(id: u128) -> (r: String)
    ensures
        r@ == uuid_text(id),
{
    hyphenated_uuid(id)
}

pub open spec fn opt_view(o: Option<String>) -> Option<Seq<char>> {
    match o {
        Some(v) => Some(v@),
        None => None,
    }
}

pub fn copy_opt(o: &Option<String>) -> (r: Option<String>)
    ensures
        r == *o,
{
    match o {
        Some(v) => Some(v.clone()),
        None => None,
    }
}

/// The session as a mathematical value.
pub struct SessionView {
    pub state: DictationState,
    pub session_id: Option<u128>,
    pub last_transcript: Option<Seq<char>>,
    pub last_error: Option<Seq<char>>,
    pub last_provider: Option<Seq<char>>,
    pub last_latency_ms: Option<u128>,
    pub requested_backend: Option<Seq<char>>,
    pub actual_backend: Option<Seq<char>>,
    pub detected_language: Option<Seq<char>>,
    pub fallback_used: bool,
    pub fallback_reason: Option<Seq<char>>,
}

/// The snapshot as a mathematical value.
pub struct SnapshotView {
    pub state: DictationState,
    pub session_id: Option<Seq<char>>,
    pub last_transcript: Option<Seq<char>>,
    pub last_error: Option<Seq<char>>,
    pub last_provider: Option<Seq<char>>,
    pub last_latency_ms: Option<u128>,
    pub requested_backend: Option<Seq<char>>,
    pub actual_backend: Option<Seq<char>>,
    pub detected_language: Option<Seq<char>>,
    pub fallback_used: bool,
    pub fallback_reason: Option<Seq<char>>,
}

/// What the UI is shown of a session.
#[derive(Debug)]
pub struct AppStateSnapshot {
    pub state: DictationState,
    pub session_id: Option<String>,
    pub last_transcript: Option<String>,
    pub last_error: Option<String>,
    pub last_provider: Option<String>,
    pub last_latency_ms: Option<u128>,
    pub requested_backend: Option<String>,
    pub actual_backend: Option<String>,
    pub detected_language: Option<String>,
    pub fallback_used: bool,
    pub fallback_reason: Option<String>,
}

impl View for AppStateSnapshot {
    type V = SnapshotView;

    open spec fn view(&self) -> SnapshotView {
        SnapshotView {
            state: self.state,
            session_id: opt_view(self.session_id),
            last_transcript: opt_view(self.last_transcript),
            last_error: opt_view(self.last_error),
            last_provider: opt_view(self.last_provider),
            last_latency_ms: self.last_latency_ms,
            requested_backend: opt_view(self.requested_backend),
            actual_backend: opt_view(self.actual_backend),
            detected_language: opt_view(self.detected_language),
            fallback_used: self.fallback_used,
            fallback_reason: opt_view(self.fallback_reason),
        }
    }
}

/// The state of the dictation session.
#[derive(Debug)]
pub struct SessionState {
    pub state: DictationState,
    pub session_id: Option<u128>,
    pub last_transcript: Option<String>,
    pub last_error: Option<String>,
    pub last_provider: Option<String>,
    pub last_latency_ms: Option<u128>,
    pub requested_backend: Option<String>,
    pub actual_backend: Option<String>,
    pub detected_language: Option<String>,
    pub fallback_used: bool,
    pub fallback_reason: Option<String>,
}

impl View for SessionState {
    type V = SessionView;

    open spec fn view(&self) -> SessionView {
        SessionView {
            state: self.state,
            session_id: self.session_id,
            last_transcript: opt_view(self.last_transcript),
            last_error: opt_view(self.last_error),
            last_provider: opt_view(self.last_provider),
            last_latency_ms: self.last_latency_ms,
            requested_backend: opt_view(self.requested_backend),
            actual_backend: opt_view(self.actual_backend),
            detected_language: opt_view(self.detected_language),
            fallback_used: self.fallback_used,
            fallback_reason: opt_view(self.fallback_reason),
        }
    }
}

/// The result of a finished dictation round: the injected transcript, the
/// provider that made it, how long it took and how it was routed.
pub struct ProcessingOutcome {
    pub transcript: String,
    pub provider: String,
    pub latency_ms: u128,
    pub route: RouteDecision,
}

pub struct OutcomeView {
    pub transcript: Seq<char>,
    pub provider: Seq<char>,
    pub latency_ms: u128,
    pub route: RouteView,
}

impl View for ProcessingOutcome {
    type V = OutcomeView;

    open spec fn view(&self) -> OutcomeView {
        OutcomeView {
            transcript: self.transcript@,
            provider: self.provider@,
            latency_ms: self.latency_ms,
            route: self.route@,
        }
    }
}

/// A round's result as a value: the outcome, or the text of the error.
pub open spec fn result_view(r: Result<ProcessingOutcome, VoxioError>) -> Result<
    OutcomeView,
    Seq<char>,
> {
    match r {
        Ok(o) => Ok(o@),
        Err(e) => Err(e.text()),
    }
}

/// The fresh session: idle, with nothing recorded.
pub open spec fn initial_session() -> SessionView {
    SessionView {
        state: DictationState::Idle,
        session_id: None,
        last_transcript: None,
        last_error: None,
        last_provider: None,
        last_latency_ms: None,
        requested_backend: None,
        actual_backend: None,
        detected_language: None,
        fallback_used: false,
        fallback_reason: None,
    }
}

/// What the UI is shown of a session: the same fields, with the id as text.
pub open spec fn snapshot_of(s: SessionView) -> SnapshotView {
    SnapshotView {
        state: s.state,
        session_id: match s.session_id {
            Some(id) => Some(uuid_text(id)),
            None => None,
        },
        last_transcript: s.last_transcript,
        last_error: s.last_error,
        last_provider: s.last_provider,
        last_latency_ms: s.last_latency_ms,
        requested_backend: s.requested_backend,
        actual_backend: s.actual_backend,
        detected_language: s.detected_language,
        fallback_used: s.fallback_used,
        fallback_reason: s.fallback_reason,
    }
}

/// A new session may start from these states only.
pub open spec fn can_start(state: DictationState) -> bool {
    state == DictationState::Idle || state == DictationState::Error
}

/// Every session that listens or processes has an id.
pub open spec fn session_well_formed(s: SessionView) -> bool {
    (s.state == DictationState::Listening || s.state == DictationState::Processing)
        ==> s.session_id is Some
}

/// The session after a new recording has started under `id`.
pub open spec fn started(s: SessionView, id: u128) -> SessionView {
    SessionView {
        state: DictationState::Listening,
        session_id: Some(id),
        last_error: None,
        requested_backend: None,
        actual_backend: None,
        detected_language: None,
        fallback_used: false,
        fallback_reason: None,
        ..s
    }
}

/// The session after the recording stopped and processing began.
pub open spec fn processing(s: SessionView, requested_backend: Seq<char>) -> SessionView {
    SessionView {
        state: DictationState::Processing,
        requested_backend: Some(requested_backend),
        ..s
    }
}

/// The session after a round's result came back for session `id`: the result
/// counts only while that very session is still processing.
pub open spec fn finalized(
    s: SessionView,
    id: Option<u128>,
    result: Result<OutcomeView, Seq<char>>,
) -> SessionView {
    if !(s.state == DictationState::Processing && s.session_id == id) {
        s
    } else {
        match result {
            Ok(o) => SessionView {
                state: DictationState::Idle,
                last_transcript: Some(o.transcript),
                last_error: None,
                last_provider: Some(o.provider),
                last_latency_ms: Some(o.latency_ms),
                requested_backend: Some(o.route.requested_backend),
                actual_backend: Some(o.route.actual_backend),
                detected_language: Some(o.route.detected_language),
                fallback_used: o.route.fallback_used,
                fallback_reason: o.route.fallback_reason,
                ..s
            },
            Err(message) => SessionView {
                state: DictationState::Error,
                last_transcript: None,
                last_error: Some(message),
                last_provider: None,
                last_latency_ms: None,
                requested_backend: None,
                actual_backend: None,
                detected_language: None,
                fallback_used: false,
                fallback_reason: None,
                ..s
            },
        }
    }
}

/// The session after a cancel: idle, with no session; the last transcript stays.
pub open spec fn cancelled(s: SessionView) -> SessionView {
    SessionView {
        state: DictationState::Idle,
        session_id: None,
        last_error: None,
        last_provider: None,
        last_latency_ms: None,
        requested_backend: None,
        actual_backend: None,
        detected_language: None,
        fallback_used: false,
        fallback_reason: None,
        ..s
    }
}

/// What a stop request leads to.
pub enum StopDecision {
    /// Processing began for the session with this id.
    Processing { session_id: Option<u128>, snapshot: AppStateSnapshot },
    /// Nothing changed (the session is in the error state).
    Unchanged,
    /// The request is refused.
    Rejected(VoxioError),
}

pub open spec fn stop_rejected(r: StopDecision, message: Seq<char>) -> bool {
    r matches StopDecision::Rejected(e) && is_validation(e, message)
}

/// What a toggle request does.
#[derive(Clone, Copy, Debug, PartialEq, Eq, Structural)]
pub enum ToggleAction {
    Start,
    Stop,
    Report,
}

pub open spec fn toggle_of(state: DictationState) -> ToggleAction {
    match state {
        DictationState::Idle | DictationState::Error => ToggleAction::Start,
        DictationState::Listening => ToggleAction::Stop,
        DictationState::Processing => ToggleAction::Report,
    }
}

impl Default for SessionState {
    fn default() -> (r: Self)
        ensures
            r@ == initial_session(),
    {
        SessionState {
            state: DictationState::Idle,
            session_id: None,
            last_transcript: None,
            last_error: None,
            last_provider: None,
            last_latency_ms: None,
            requested_backend: None,
            actual_backend: None,
            detected_language: None,
            fallback_used: false,
            fallback_reason: None,
        }
    }
}

impl SessionState {
    /// What the UI is shown of the session.
    pub fn snapshot(&self) -> (r: AppStateSnapshot)
        ensures
            r@ == snapshot_of(self@),
    {
        let session_id = match self.session_id {
            Some(id) => Some(session_id_text(id)),
            None => None,
        };
        AppStateSnapshot {
            state: self.state,
            session_id,
            last_transcript: copy_opt(&self.last_transcript),
            last_error: copy_opt(&self.last_error),
            last_provider: copy_opt(&self.last_provider),
            last_latency_ms: self.last_latency_ms,
            requested_backend: copy_opt(&self.requested_backend),
            actual_backend: copy_opt(&self.actual_backend),
            detected_language: copy_opt(&self.detected_language),
            fallback_used: self.fallback_used,
            fallback_reason: copy_opt(&self.fallback_reason),
        }
    }

    /// Whether a new dictation may start; refused while one is active.
    pub fn request_start(&self) -> (r: Result<(), VoxioError>)
        ensures
            r is Ok <==> can_start(self.state),
            r matches Err(e) ==> is_validation(e, "A dictation session is already active."@),
    {
        match self.state {
            DictationState::Idle | DictationState::Error => Ok(()),
            DictationState::Listening | DictationState::Processing => Err(
                VoxioError::Validation(lit("A dictation session is already active.")),
            ),
        }
    }

    /// Begins listening under a fresh random session id, once the recording runs.
    pub fn begin_listening(&mut self) -> (r: AppStateSnapshot)
        requires
            can_start(old(self).state),
        ensures
            final(self).session_id is Some,
            final(self)@ == started(old(self)@, final(self).session_id->0),
            r@ == snapshot_of(final(self)@),
    {
        let id = new_session_id();
        self.listen_as(id)
    }

    /// Begins listening under the given session id.
    pub fn listen_as(&mut self, session_id: u128) -> (r: AppStateSnapshot)
        requires
            can_start(old(self).state),
        ensures
            final(self)@ == started(old(self)@, session_id),
            r@ == snapshot_of(final(self)@),
    {
        self.state = DictationState::Listening;
        self.session_id = Some(session_id);
        self.last_error = None;
        self.requested_backend = None;
        self.actual_backend = None;
        self.detected_language = None;
        self.fallback_used = false;
        self.fallback_reason = None;
        self.snapshot()
    }

    /// A stop request: from listening, processing begins under the requested
    /// backend's label; an errored session is left as it is; otherwise the
    /// request is refused.
    pub fn request_stop(&mut self, requested_backend: String) -> (r: StopDecision)
        ensures
            old(self).state == DictationState::Listening ==> {
                &&& final(self)@ == processing(old(self)@, requested_backend@)
                &&& r matches StopDecision::Processing { session_id, snapshot } && session_id
                    == old(self).session_id && snapshot@ == snapshot_of(final(self)@)
            },
            old(self).state != DictationState::Listening ==> final(self)@ == old(self)@,
            old(self).state == DictationState::Error ==> r is Unchanged,
            old(self).state == DictationState::Idle ==> stop_rejected(
                r,
                "No active dictation session to stop."@,
            ),
            old(self).state == DictationState::Processing ==> stop_rejected(
                r,
                "Speech is already processing."@,
            ),
    {
        match self.state {
            DictationState::Listening => {
                self.state = DictationState::Processing;
                self.requested_backend = Some(requested_backend);
                let snapshot = self.snapshot();
                StopDecision::Processing { session_id: self.session_id, snapshot }
            },
            DictationState::Idle => StopDecision::Rejected(
                VoxioError::Validation(lit("No active dictation session to stop.")),
            ),
            DictationState::Processing => StopDecision::Rejected(
                VoxioError::Validation(lit("Speech is already processing.")),
            ),
            DictationState::Error => StopDecision::Unchanged,
        }
    }

    /// Records the result of the round that ran under `session_id`; a result
    /// for any other session, or when nothing is processing, changes nothing.
    pub fn finalize(
        &mut self,
        session_id: Option<u128>,
        result: Result<ProcessingOutcome, VoxioError>,
    ) -> (r: AppStateSnapshot)
        ensures
            final(self)@ == finalized(old(self)@, session_id, result_view(result)),
            r@ == snapshot_of(final(self)@),
    {
        let still_active = self.state == DictationState::Processing && self.session_id
            == session_id;
        if !still_active {
            return self.snapshot();
        }
        match result {
            Ok(outcome) => {
                let route = outcome.route;
                self.last_transcript = Some(outcome.transcript);
                self.state = DictationState::Idle;
                self.last_error = None;
                self.last_provider = Some(outcome.provider);
                self.last_latency_ms = Some(outcome.latency_ms);
                self.requested_backend = Some(route.requested_backend);
                self.actual_backend = Some(route.actual_backend);
                self.detected_language = Some(route.detected_language);
                self.fallback_used = route.fallback_used;
                self.fallback_reason = route.fallback_reason;
            },
            Err(error) => {
                self.state = DictationState::Error;
                self.last_transcript = None;
                self.last_error = Some(error.message());
                self.last_provider = None;
                self.last_latency_ms = None;
                self.requested_backend = None;
                self.actual_backend = None;
                self.detected_language = None;
                self.fallback_used = false;
                self.fallback_reason = None;
            },
        }
        self.snapshot()
    }

    /// Whether a result for `session_id` would be recorded: only while that
    /// very session is processing. A result that would not changes nothing
    /// and announces nothing.
    pub fn accepts_result(&self, session_id: Option<u128>) -> (r: bool)
        ensures
            r == (self.state == DictationState::Processing && self.session_id == session_id),
            !r ==> forall|res: Result<OutcomeView, Seq<char>>|
                finalized(self@, session_id, res) == self@,
    {
        self.state == DictationState::Processing && self.session_id == session_id
    }

    /// The recording of the processing session `session_id` is gone: the
    /// round fails with a recording error, which the session records (when it
    /// is that session's round) and which is handed back.
    pub fn fail_missing_recording(&mut self, session_id: Option<u128>) -> (r: (
        AppStateSnapshot,
        VoxioError,
    ))
        ensures
            is_recording(r.1, "no active recording session"@),
            final(self)@ == finalized(old(self)@, session_id, Err(r.1.text())),
            r.0@ == snapshot_of(final(self)@),
    {
        let error = VoxioError::Recording(lit("no active recording session"));
        let snapshot = self.finalize(
            session_id,
            Err(VoxioError::Recording(lit("no active recording session"))),
        );
        (snapshot, error)
    }

    /// Drops the session: idle, with no session id.
    pub fn cancel(&mut self) -> (r: AppStateSnapshot)
        ensures
            final(self)@ == cancelled(old(self)@),
            r@ == snapshot_of(final(self)@),
    {
        self.state = DictationState::Idle;
        self.session_id = None;
        self.last_error = None;
        self.last_provider = None;
        self.last_latency_ms = None;
        self.requested_backend = None;
        self.actual_backend = None;
        self.detected_language = None;
        self.fallback_used = false;
        self.fallback_reason = None;
        self.snapshot()
    }

    /// What the hotkey toggle does in the current state.
    pub fn toggle_action(&self) -> (r: ToggleAction)
        ensures
            r == toggle_of(self.state),
    {
        match self.state {
            DictationState::Idle | DictationState::Error => ToggleAction::Start,
            DictationState::Listening => ToggleAction::Stop,
            DictationState::Processing => ToggleAction::Report,
        }
    }
}

} // verus!
