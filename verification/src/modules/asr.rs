//! Speech recognition: which backend is tried when, what each is handed, and
//! what the readiness checks report.
use vstd::prelude::*;

use crate::commands::{backend_label, requested_backend_label};
use crate::config::{
    opt_str, hint_choice, language_choice, LocalBackend, openai_model_name, whisper_model_name, ModelSize, Settings,
    TranscriptionProvider,
};
use crate::error::{error_text, is_transcription, ErrorView, VoxioError};
use crate::modules::audio::AudioFrame;
use crate::state::{copy_opt, opt_view};
use crate::text::{
    blank, concat2, concat3, decimal, decimal_text, is_blank, lit, parse_u16,
    parse_u16_text, signed_decimal, signed_decimal_text, trim, trim_owned, trimmed,
};

verus! {

/// What a streaming recogniser is configured with.
#[derive(Debug)]
pub struct AsrConfig {
    pub language: String,
    pub model: String,
}

/// A recognised text and the provider that recognised it.
#[derive(Debug)]
pub struct TranscriptionResult {
    pub text: String,
    pub provider: String,
}

pub struct TranscriptView {
    pub text: Seq<char>,
    pub provider: Seq<char>,
}

impl View for TranscriptionResult {
    type V = TranscriptView;

    open spec fn view(&self) -> TranscriptView {
        TranscriptView { text: self.text@, provider: self.provider@ }
    }
}

/// What the readiness check reports.
#[derive(Debug)]
pub struct RuntimeStatus {
    pub local_ready: bool,
    pub cloud_ready: bool,
    pub local_backend: String,
    pub effective_provider: String,
}

/// What a provider test reports.
#[derive(Debug)]
pub struct ProviderProbeResult {
    pub provider: String,
    pub ok: bool,
    pub message: String,
}

/// How a transcription was routed, as the session records it.
#[derive(Debug)]
pub struct RouteDecision {
    pub requested_backend: String,
    pub actual_backend: String,
    pub detected_language: String,
    pub fallback_used: bool,
    pub fallback_reason: Option<String>,
}

pub struct RouteView {
    pub requested_backend: Seq<char>,
    pub actual_backend: Seq<char>,
    pub detected_language: Seq<char>,
    pub fallback_used: bool,
    pub fallback_reason: Option<Seq<char>>,
}

impl View for RouteDecision {
    type V = RouteView;

    open spec fn view(&self) -> RouteView {
        RouteView {
            requested_backend: self.requested_backend@,
            actual_backend: self.actual_backend@,
            detected_language: self.detected_language@,
            fallback_used: self.fallback_used,
            fallback_reason: opt_view(self.fallback_reason),
        }
    }
}

/// A streaming speech recogniser.
pub trait AsrProvider {
    fn start_stream(&mut self, config: AsrConfig) -> Result<(), VoxioError>;

    fn push_audio(&mut self, frame: AudioFrame) -> Result<(), VoxioError>;

    fn stop(&mut self) -> Result<TranscriptionResult, VoxioError>;
}

/// A recogniser that accepts everything and recognises a fixed notice.
pub struct NullAsrProvider;

impl AsrProvider for NullAsrProvider {
    fn start_stream(&mut self, config: AsrConfig) -> (r: Result<(), VoxioError>)
        ensures
            r is Ok,
    {
        Ok(())
    }

    fn push_audio(&mut self, frame: AudioFrame) -> (r: Result<(), VoxioError>)
        ensures
            r is Ok,
    {
        Ok(())
    }

    fn stop(&mut self) -> (r: Result<TranscriptionResult, VoxioError>)
        ensures
            r matches Ok(t) && t.text@
                == "Speech recognition pipeline is scaffolded but not connected yet."@
                && t.provider@ == "none"@,
    {
        Ok(
            TranscriptionResult {
                text: lit("Speech recognition pipeline is scaffolded but not connected yet."),
                provider: lit("none"),
            },
        )
    }
}

// ---------------------------------------------------------------------------
// Readiness
// ---------------------------------------------------------------------------
/// The provider that would transcribe, given what is ready.
pub open spec fn effective_provider_name(
    p: TranscriptionProvider,
    local_ready: bool,
    cloud_ready: bool,
) -> Seq<char> {
    match p {
        TranscriptionProvider::Local => if local_ready {
            "Local"@
        } else {
            "Unavailable"@
        },
        TranscriptionProvider::Cloud => if cloud_ready {
            "Cloud"@
        } else {
            "Unavailable"@
        },
        TranscriptionProvider::Auto => if local_ready {
            "Local"@
        } else if cloud_ready {
            "Cloud"@
        } else {
            "Unavailable"@
        },
    }
}

/// The cloud is ready when an API key that is not blank is set.
pub open spec fn key_ready(api_key: Option<Seq<char>>) -> bool {
    api_key matches Some(k) && !is_blank(k)
}

/// The local backend's label as reported: the one found, or `Unavailable`.
pub open spec fn local_backend_report(found: Option<Seq<char>>) -> Seq<char> {
    match found {
        Some(b) => b,
        None => "Unavailable"@,
    }
}

/// What the readiness check reports, given the local backend that was found
/// (if any) and the OpenAI API key in the environment (if any).
pub fn runtime_status(
    settings: &Settings,
    local_backend: Option<String>,
    openai_api_key: Option<String>,
) -> (r: RuntimeStatus)
    ensures
        r.local_backend@ == local_backend_report(opt_view(local_backend)),
        r.local_ready == (r.local_backend@ != "Unavailable"@),
        r.cloud_ready == key_ready(opt_view(openai_api_key)),
        r.effective_provider@ == effective_provider_name(
            settings.transcription_provider,
            r.local_ready,
            r.cloud_ready,
        ),
{
    let local_backend = match local_backend {
        Some(b) => b,
        None => lit("Unavailable"),
    };
    let unavailable = lit("Unavailable");
    let local_ready = !(local_backend == unavailable);
    let cloud_ready = match &openai_api_key {
        Some(k) => !blank(k.as_str()),
        None => false,
    };
    let effective_provider = match settings.transcription_provider {
        TranscriptionProvider::Local => {
            if local_ready {
                lit("Local")
            } else {
                lit("Unavailable")
            }
        },
        TranscriptionProvider::Cloud => {
            if cloud_ready {
                lit("Cloud")
            } else {
                lit("Unavailable")
            }
        },
        TranscriptionProvider::Auto => {
            if local_ready {
                lit("Local")
            } else if cloud_ready {
                lit("Cloud")
            } else {
                lit("Unavailable")
            }
        },
    };
    RuntimeStatus { local_ready, cloud_ready, local_backend, effective_provider }
}

/// The probe result as a value: provider, whether it passed, message.
pub open spec fn probe_is(r: ProviderProbeResult, provider: Seq<char>, ok: bool, message: Seq<
    char,
>) -> bool {
    r.provider@ == provider && r.ok == ok && r.message@ == message
}

/// The local provider's test: ready when a local backend was found.
pub fn probe_local_provider(local_backend: Option<String>) -> (r: Result<
    ProviderProbeResult,
    VoxioError,
>)
    ensures
        local_backend is None ==> (r matches Ok(p) && probe_is(
            p,
            "Local"@,
            false,
            "No local transcription backend is available."@,
        )),
        local_backend matches Some(b) ==> (r matches Ok(p) && probe_is(
            p,
            "Local"@,
            true,
            b@ + " is ready."@,
        )),
{
    match local_backend {
        None => Ok(
            ProviderProbeResult {
                provider: lit("Local"),
                ok: false,
                message: lit("No local transcription backend is available."),
            },
        ),
        Some(b) => Ok(
            ProviderProbeResult {
                provider: lit("Local"),
                ok: true,
                message: concat2(b.as_str(), " is ready."),
            },
        ),
    }
}

/// What a provider test does next.
pub enum ProbeStep {
    /// The test is over with this result.
    Finished(Result<ProviderProbeResult, VoxioError>),
    /// The cloud service must be asked (see `probe_cloud_provider`).
    CheckCloud,
}

proof fn lemma_provider_names_distinct()
    ensures
        "Local"@ != "Cloud"@,
        "Local"@ != "Unavailable"@,
        "Cloud"@ != "Unavailable"@,
{
    reveal_strlit("Local");
    reveal_strlit("Cloud");
    reveal_strlit("Unavailable");
    assert("Local"@[0] != "Cloud"@[0]);
    assert("Local"@.len() != "Unavailable"@.len());
    assert("Cloud"@.len() != "Unavailable"@.len());
}

/// A local backend counts as ready when one was found under a name other
/// than `Unavailable`.
pub open spec fn found_ready(found: Option<Seq<char>>) -> bool {
    local_backend_report(found) != "Unavailable"@
}

/// Which provider a test is about.
pub open spec fn probes_local(p: TranscriptionProvider, local_ready: bool) -> bool {
    p == TranscriptionProvider::Local || (p == TranscriptionProvider::Auto && local_ready)
}

pub open spec fn probes_cloud(p: TranscriptionProvider, local_ready: bool, cloud_ready: bool) -> bool {
    p == TranscriptionProvider::Cloud || (p == TranscriptionProvider::Auto && !local_ready
        && cloud_ready)
}

/// A provider test: the configured provider, or in `Auto` mode the one that
/// the readiness check picks; the cloud test needs the service itself.
pub fn probe_provider(
    settings: &Settings,
    local_backend: Option<String>,
    openai_api_key: Option<String>,
) -> (r: ProbeStep)
    ensures
        probes_local(
            settings.transcription_provider,
            found_ready(opt_view(local_backend)),
        ) && local_backend is None ==> (r matches ProbeStep::Finished(Ok(res)) && probe_is(
            res,
            "Local"@,
            false,
            "No local transcription backend is available."@,
        )),
        probes_local(
            settings.transcription_provider,
            found_ready(opt_view(local_backend)),
        ) && local_backend is Some ==> (r matches ProbeStep::Finished(Ok(res)) && probe_is(
            res,
            "Local"@,
            true,
            local_backend->0@ + " is ready."@,
        )),
        probes_cloud(
            settings.transcription_provider,
            found_ready(opt_view(local_backend)),
            key_ready(opt_view(openai_api_key)),
        ) ==> r is CheckCloud,
        settings.transcription_provider == TranscriptionProvider::Auto && !found_ready(
            opt_view(local_backend),
        ) && !key_ready(opt_view(openai_api_key)) ==> (r matches ProbeStep::Finished(Ok(res))
            && probe_is(res, "Unavailable"@, false, "No transcription provider is ready."@)),
{
    match settings.transcription_provider {
        TranscriptionProvider::Local => {
            ProbeStep::Finished(probe_local_provider(local_backend))
        },
        TranscriptionProvider::Cloud => ProbeStep::CheckCloud,
        TranscriptionProvider::Auto => {
            let found = copy_opt(&local_backend);
            let status = runtime_status(settings, found, openai_api_key);
            proof {
                lemma_provider_names_distinct();
            }
            if status.effective_provider == lit("Local") {
                ProbeStep::Finished(probe_local_provider(local_backend))
            } else if status.effective_provider == lit("Cloud") {
                ProbeStep::CheckCloud
            } else {
                ProbeStep::Finished(
                    Ok(
                        ProviderProbeResult {
                            provider: lit("Unavailable"),
                            ok: false,
                            message: lit("No transcription provider is ready."),
                        },
                    ),
                )
            }
        },
    }
}

/// What came of asking the cloud service for its models.
pub enum CloudReply {
    /// `OPENAI_API_KEY` is not set.
    MissingKey,
    /// The HTTP client could not be built; the error's text.
    ClientError(String),
    /// The request failed; the error's text.
    RequestError(String),
    /// The service answered with this status code.
    Status { code: u16 },
}

/// What `reqwest::StatusCode`'s `Display` writes for a valid status code
/// (100 to 999): the code and its canonical reason phrase.
pub uninterp spec fn http_status_text(code: u16) -> Seq<char>;

/// `reqwest::StatusCode::from_u16(code)` then its `to_string()`. `from_u16`
/// accepts exactly the codes from 100 to 999, so the `unwrap` cannot fail
/// under the `requires`; the text is named, not spelled out, since it holds
/// http's table of reason phrases.
#[verifier::external_body]
fn status_code_text(code: u16) -> (r: String)
    requires
        100 <= code <= 999,
    ensures
        r@ == http_status_text(code),
{
    reqwest::StatusCode::from_u16(code).unwrap().to_string()
}

/// How a status code reads in messages: as `reqwest` shows it for a valid
/// code; a code outside 100 to 999, which `reqwest` never yields, as its
/// decimal number.
pub open spec fn status_line(code: u16) -> Seq<char> {
    if 100 <= code <= 999 {
        http_status_text(code)
    } else {
        decimal(code as nat)
    }
}

pub fn status_text(code: u16) -> (r: String)
    ensures
        r@ == status_line(code),
{
    if 100 <= code && code <= 999 {
        status_code_text(code)
    } else {
        decimal_text(code as u64)
    }
}

/// An HTTP status code of success (`StatusCode::is_success`).
pub open spec fn success_code(code: u16) -> bool {
    200 <= code <= 299
}

pub fn is_success_status(code: u16) -> (r: bool)
    ensures
        r == success_code(code),
{
    200 <= code && code <= 299
}

/// The error text for a cloud transcription that is not configured.
pub open spec fn cloud_not_configured() -> Seq<char> {
    "cloud transcription is not configured. Set OPENAI_API_KEY to enable it."@
}

/// The cloud provider's test, given what the service answered.
pub fn probe_cloud_provider(settings: &Settings, reply: CloudReply) -> (r: Result<
    ProviderProbeResult,
    VoxioError,
>)
    ensures
        reply is MissingKey ==> (r matches Err(e) && is_transcription(e, cloud_not_configured())),
        reply matches CloudReply::ClientError(t) ==> (r matches Err(e) && is_transcription(
            e,
            "failed to build HTTP client: "@ + t@,
        )),
        reply matches CloudReply::RequestError(t) ==> (r matches Err(e) && is_transcription(
            e,
            "OpenAI connectivity check failed: "@ + t@,
        )),
        reply matches CloudReply::Status { code } ==> (r matches Ok(p) && (if success_code(
            code,
        ) {
            probe_is(p, "Cloud"@, true, openai_model_name(settings.cloud_model) + " is reachable."@)
        } else {
            probe_is(
                p,
                "Cloud"@,
                false,
                "OpenAI connectivity check returned HTTP "@ + status_line(code) + "."@,
            )
        })),
{
    match reply {
        CloudReply::MissingKey => Err(
            VoxioError::Transcription(
                lit("cloud transcription is not configured. Set OPENAI_API_KEY to enable it."),
            ),
        ),
        CloudReply::ClientError(t) => Err(
            VoxioError::Transcription(concat2("failed to build HTTP client: ", t.as_str())),
        ),
        CloudReply::RequestError(t) => Err(
            VoxioError::Transcription(concat2("OpenAI connectivity check failed: ", t.as_str())),
        ),
        CloudReply::Status { code } => {
            if !is_success_status(code) {
                let text = status_text(code);
                Ok(
                    ProviderProbeResult {
                        provider: lit("Cloud"),
                        ok: false,
                        message: concat3(
                            "OpenAI connectivity check returned HTTP ",
                            text.as_str(),
                            ".",
                        ),
                    },
                )
            } else {
                Ok(
                    ProviderProbeResult {
                        provider: lit("Cloud"),
                        ok: true,
                        message: concat2(settings.openai_transcription_model(), " is reachable."),
                    },
                )
            }
        },
    }
}

// ---------------------------------------------------------------------------
// Routing a transcription through the backends
// ---------------------------------------------------------------------------
/// The backends a transcription can be handed to.
#[derive(Clone, Copy, Debug, PartialEq, Eq, Structural)]
pub enum TranscriptionBackend {
    /// whisper.cpp's command-line tool.
    WhisperCli,
    /// a running whisper.cpp server.
    WhisperServer,
    /// SenseVoice through the `coli` command-line tool.
    SenseVoice,
    /// the `openai-whisper` command-line tool.
    OpenAiWhisper,
    /// OpenAI's transcription API.
    OpenAiApi,
}

/// The order in which the local backends are tried.
#[derive(Clone, Copy, Debug, PartialEq, Eq, Structural)]
pub enum LocalOrder {
    /// whisper.cpp's tool, its server, `openai-whisper`.
    WhisperOnly,
    /// SenseVoice alone.
    SenseVoiceOnly,
    /// SenseVoice, then the Whisper backends.
    SenseVoiceFirst,
    /// whisper.cpp's tool and server, then SenseVoice, then `openai-whisper`.
    WhisperFirst,
}

/// The languages for which the automatic local route tries SenseVoice first:
/// Chinese, Cantonese, Japanese and Korean.
pub open spec fn prefers_sense_voice(language: Seq<char>) -> bool {
    language == "zh"@ || language == "yue"@ || language == "ja"@ || language == "ko"@
}

/// The local order the settings ask for: the chosen engine alone, or, for the
/// automatic route, SenseVoice first for the languages it is best at and the
/// Whisper backends first otherwise.
pub open spec fn local_order(s: &Settings) -> LocalOrder {
    match s.local_backend {
        LocalBackend::Whisper => LocalOrder::WhisperOnly,
        LocalBackend::SenseVoice => LocalOrder::SenseVoiceOnly,
        LocalBackend::Auto => if prefers_sense_voice(s.language@) {
            LocalOrder::SenseVoiceFirst
        } else {
            LocalOrder::WhisperFirst
        },
    }
}

/// The local backends of an order, first to last.
pub open spec fn local_sequence(o: LocalOrder) -> Seq<TranscriptionBackend> {
    match o {
        LocalOrder::WhisperOnly => seq![
            TranscriptionBackend::WhisperCli,
            TranscriptionBackend::WhisperServer,
            TranscriptionBackend::OpenAiWhisper,
        ],
        LocalOrder::SenseVoiceOnly => seq![TranscriptionBackend::SenseVoice],
        LocalOrder::SenseVoiceFirst => seq![
            TranscriptionBackend::SenseVoice,
            TranscriptionBackend::WhisperCli,
            TranscriptionBackend::WhisperServer,
            TranscriptionBackend::OpenAiWhisper,
        ],
        LocalOrder::WhisperFirst => seq![
            TranscriptionBackend::WhisperCli,
            TranscriptionBackend::WhisperServer,
            TranscriptionBackend::SenseVoice,
            TranscriptionBackend::OpenAiWhisper,
        ],
    }
}

/// Where a backend stands in the order: its place among the local backends,
/// and after all of them for the API.
pub open spec fn backend_position(o: LocalOrder, b: TranscriptionBackend) -> nat {
    if b == TranscriptionBackend::OpenAiApi {
        4
    } else {
        match o {
            LocalOrder::WhisperOnly => match b {
                TranscriptionBackend::WhisperServer => 1,
                TranscriptionBackend::OpenAiWhisper => 2,
                _ => 0,
            },
            LocalOrder::SenseVoiceOnly => 0,
            LocalOrder::SenseVoiceFirst => match b {
                TranscriptionBackend::WhisperCli => 1,
                TranscriptionBackend::WhisperServer => 2,
                TranscriptionBackend::OpenAiWhisper => 3,
                _ => 0,
            },
            LocalOrder::WhisperFirst => match b {
                TranscriptionBackend::WhisperServer => 1,
                TranscriptionBackend::SenseVoice => 2,
                TranscriptionBackend::OpenAiWhisper => 3,
                _ => 0,
            },
        }
    }
}

/// The local backend after `b` in the order; `None` after the last one.
pub open spec fn next_local(o: LocalOrder, b: TranscriptionBackend) -> Option<TranscriptionBackend> {
    let sq = local_sequence(o);
    let i = backend_position(o, b) as int;
    if b != TranscriptionBackend::OpenAiApi && i + 1 < sq.len() {
        Some(sq[i + 1 as int])
    } else {
        None
    }
}

/// Which backends may be tried: for `Cloud` the API, for `Local` the backends
/// of the local order, for `Auto` both.
pub open spec fn backend_allowed(p: TranscriptionProvider, o: LocalOrder, b: TranscriptionBackend) -> bool {
    let local = local_sequence(o).contains(b);
    match p {
        TranscriptionProvider::Local => local,
        TranscriptionProvider::Cloud => b == TranscriptionBackend::OpenAiApi,
        TranscriptionProvider::Auto => local || b == TranscriptionBackend::OpenAiApi,
    }
}

/// The next backend to try, and why the local ones were left, if they were.
#[derive(Debug)]
pub struct TranscriptionRoute {
    pub backend: TranscriptionBackend,
    pub fallback_reason: Option<String>,
}

/// What a routing step leads to.
#[derive(Debug)]
pub enum RouteStep {
    /// Try this backend next.
    Attempt(TranscriptionRoute),
    /// The transcription is over with this result.
    Done(Result<TranscriptionResult, VoxioError>),
}

/// Where a transcription starts: the API for `Cloud`, the first local backend
/// of the order otherwise.
pub open spec fn first_backend(p: TranscriptionProvider, o: LocalOrder) -> TranscriptionBackend {
    if p == TranscriptionProvider::Cloud {
        TranscriptionBackend::OpenAiApi
    } else {
        local_sequence(o)[0]
    }
}

/// The local order that the settings ask for.
pub fn local_order_of(settings: &Settings) -> (r: LocalOrder)
    ensures
        r == local_order(settings),
{
    match settings.local_backend {
        LocalBackend::Whisper => LocalOrder::WhisperOnly,
        LocalBackend::SenseVoice => LocalOrder::SenseVoiceOnly,
        LocalBackend::Auto => {
            let l = settings.language.clone();
            if l == lit("zh") || l == lit("yue") || l == lit("ja") || l == lit("ko") {
                LocalOrder::SenseVoiceFirst
            } else {
                LocalOrder::WhisperFirst
            }
        },
    }
}

fn next_local_backend(o: LocalOrder, b: TranscriptionBackend) -> (r: Option<TranscriptionBackend>)
    ensures
        r == next_local(o, b),
        r matches Some(n) ==> local_sequence(o).contains(n) && backend_position(o, n)
            > backend_position(o, b),
{
    let r = match (o, b) {
        (_, TranscriptionBackend::OpenAiApi) => None,
        (LocalOrder::WhisperOnly, TranscriptionBackend::WhisperCli) => Some(
            TranscriptionBackend::WhisperServer,
        ),
        (LocalOrder::WhisperOnly, TranscriptionBackend::WhisperServer) => Some(
            TranscriptionBackend::OpenAiWhisper,
        ),
        (LocalOrder::WhisperOnly, TranscriptionBackend::SenseVoice) => Some(
            TranscriptionBackend::WhisperServer,
        ),
        (LocalOrder::SenseVoiceFirst, TranscriptionBackend::SenseVoice) => Some(
            TranscriptionBackend::WhisperCli,
        ),
        (LocalOrder::SenseVoiceFirst, TranscriptionBackend::WhisperCli) => Some(
            TranscriptionBackend::WhisperServer,
        ),
        (LocalOrder::SenseVoiceFirst, TranscriptionBackend::WhisperServer) => Some(
            TranscriptionBackend::OpenAiWhisper,
        ),
        (LocalOrder::WhisperFirst, TranscriptionBackend::WhisperCli) => Some(
            TranscriptionBackend::WhisperServer,
        ),
        (LocalOrder::WhisperFirst, TranscriptionBackend::WhisperServer) => Some(
            TranscriptionBackend::SenseVoice,
        ),
        (LocalOrder::WhisperFirst, TranscriptionBackend::SenseVoice) => Some(
            TranscriptionBackend::OpenAiWhisper,
        ),
        _ => None,
    };
    proof {
        let sq = local_sequence(o);
        assert(sq.contains(sq[0]));
        if sq.len() > 1 {
            assert(sq.contains(sq[1]));
        }
        if sq.len() > 2 {
            assert(sq.contains(sq[2]));
        }
        if sq.len() > 3 {
            assert(sq.contains(sq[3]));
        }
    }
    r
}

/// Where a transcription starts: the API for `Cloud`, the first local backend
/// of the settings' order otherwise.
pub fn first_transcription_route(settings: &Settings) -> (r: TranscriptionRoute)
    ensures
        r.backend == first_backend(settings.transcription_provider, local_order(settings)),
        r.fallback_reason is None,
        backend_allowed(settings.transcription_provider, local_order(settings), r.backend),
{
    let order = local_order_of(settings);
    let backend = match settings.transcription_provider {
        TranscriptionProvider::Cloud => TranscriptionBackend::OpenAiApi,
        _ => match order {
            LocalOrder::SenseVoiceOnly | LocalOrder::SenseVoiceFirst => TranscriptionBackend::SenseVoice,
            _ => TranscriptionBackend::WhisperCli,
        },
    };
    proof {
        assert(local_sequence(order).contains(local_sequence(order)[0]));
    }
    TranscriptionRoute { backend, fallback_reason: None }
}

/// What a backend gave, as a value.
pub open spec fn outcome_view(o: Result<Option<TranscriptionResult>, VoxioError>) -> Result<
    Option<TranscriptView>,
    ErrorView,
> {
    match o {
        Ok(Some(t)) => Ok(Some(t@)),
        Ok(None) => Ok(None),
        Err(e) => Err(e@),
    }
}

/// A routing step as a value.
pub enum StepView {
    Attempt(TranscriptionBackend, Option<Seq<char>>),
    Done(Result<TranscriptView, ErrorView>),
}

pub open spec fn step_view(r: RouteStep) -> StepView {
    match r {
        RouteStep::Attempt(next) => StepView::Attempt(next.backend, opt_view(next.fallback_reason)),
        RouteStep::Done(Ok(t)) => StepView::Done(Ok(t@)),
        RouteStep::Done(Err(e)) => StepView::Done(Err(e@)),
    }
}

/// The error text when every local backend of the order was missing.
pub open spec fn no_local_backend() -> Seq<char> {
    "no local transcription backend is available"@
}

/// How the local side ends when its last backend is missing, or when a local
/// backend failed with `e`: the error ends a `Local` or `Cloud` transcription
/// and hands an `Auto` one to the API, with the error's text as the reason.
pub open spec fn local_failure(p: TranscriptionProvider, e: ErrorView) -> StepView {
    if p == TranscriptionProvider::Auto {
        StepView::Attempt(TranscriptionBackend::OpenAiApi, Some(error_text(e)))
    } else {
        StepView::Done(Err(e))
    }
}

/// The routing step after backend `b` gave `outcome`, with `reason` the
/// reason the local backends were left so far. A transcript ends the
/// transcription; a local backend that is not set up passes to the next one
/// of the order; an error of a local backend, or the last one missing, is a
/// local failure; the API ends the transcription either way.
pub open spec fn next_step(
    p: TranscriptionProvider,
    o: LocalOrder,
    b: TranscriptionBackend,
    reason: Option<Seq<char>>,
    outcome: Result<Option<TranscriptView>, ErrorView>,
) -> StepView {
    match outcome {
        Ok(Some(t)) => StepView::Done(Ok(t)),
        Ok(None) => if b == TranscriptionBackend::OpenAiApi {
            StepView::Done(Err(ErrorView::Transcription(cloud_not_configured())))
        } else {
            match next_local(o, b) {
                Some(n) => StepView::Attempt(n, reason),
                None => local_failure(p, ErrorView::Transcription(no_local_backend())),
            }
        },
        Err(e) => if b != TranscriptionBackend::OpenAiApi {
            local_failure(p, e)
        } else {
            StepView::Done(Err(e))
        },
    }
}

/// What a whole transcription gives when it is routed step by step from
/// backend `b`, each backend `x` giving `outcome_of(x)`.
pub open spec fn routed_result(
    p: TranscriptionProvider,
    o: LocalOrder,
    outcome_of: spec_fn(TranscriptionBackend) -> Result<Option<TranscriptView>, ErrorView>,
    b: TranscriptionBackend,
    reason: Option<Seq<char>>,
) -> Result<TranscriptView, ErrorView>
    decreases 5 - backend_position(o, b),
{
    match next_step(p, o, b, reason, outcome_of(b)) {
        StepView::Done(res) => res,
        StepView::Attempt(next, why) => if backend_position(o, b) < backend_position(o, next)
            && backend_position(o, next) <= 4 {
            routed_result(p, o, outcome_of, next, why)
        } else {
            Err(ErrorView::Transcription(Seq::empty()))
        },
    }
}

/// A backend's answer ends the chain: its transcript, or its error.
pub open spec fn answer_of(o: Result<Option<TranscriptView>, ErrorView>) -> Result<
    TranscriptView,
    ErrorView,
> {
    match o {
        Ok(Some(t)) => Ok(t),
        Ok(None) => Err(ErrorView::Transcription(cloud_not_configured())),
        Err(e) => Err(e),
    }
}

/// A chain of local backends: the first transcript or the first error ends
/// it, a backend that is not set up passes on to the next, and when none is
/// left it fails for want of a backend.
pub open spec fn chain_result(
    backends: Seq<TranscriptionBackend>,
    outcome_of: spec_fn(TranscriptionBackend) -> Result<Option<TranscriptView>, ErrorView>,
) -> Result<TranscriptView, ErrorView>
    decreases backends.len(),
{
    if backends.len() == 0 {
        Err(ErrorView::Transcription(no_local_backend()))
    } else {
        match outcome_of(backends[0]) {
            Ok(None) => chain_result(backends.drop_first(), outcome_of),
            Ok(Some(t)) => Ok(t),
            Err(e) => Err(e),
        }
    }
}

/// The local side: the chain of the order's backends.
pub open spec fn local_chain(
    o: LocalOrder,
    outcome_of: spec_fn(TranscriptionBackend) -> Result<Option<TranscriptView>, ErrorView>,
) -> Result<TranscriptView, ErrorView> {
    chain_result(local_sequence(o), outcome_of)
}

/// The cloud: OpenAI's transcript or error, or an error when no key is set.
pub open spec fn cloud_result(
    outcome_of: spec_fn(TranscriptionBackend) -> Result<Option<TranscriptView>, ErrorView>,
) -> Result<TranscriptView, ErrorView> {
    answer_of(outcome_of(TranscriptionBackend::OpenAiApi))
}

/// A whole transcription, taken step by step as the router says: `Local`
/// gives the local chain's result; `Cloud` gives the cloud's; `Auto` gives
/// the local chain's transcript when it has one and otherwise drops the local
/// error and gives the cloud's result.
pub proof fn lemma_whole_transcription(
    p: TranscriptionProvider,
    o: LocalOrder,
    outcome_of: spec_fn(TranscriptionBackend) -> Result<Option<TranscriptView>, ErrorView>,
)
    ensures
        routed_result(p, o, outcome_of, first_backend(p, o), None) == match p {
            TranscriptionProvider::Local => local_chain(o, outcome_of),
            TranscriptionProvider::Cloud => cloud_result(outcome_of),
            TranscriptionProvider::Auto => if local_chain(o, outcome_of) is Ok {
                local_chain(o, outcome_of)
            } else {
                cloud_result(outcome_of)
            },
        },
{
    reveal_with_fuel(routed_result, 6);
    reveal_with_fuel(chain_result, 5);
    let sq = local_sequence(o);
    assert(sq.drop_first().len() == sq.len() - 1);
    if sq.len() > 1 {
        assert(sq.drop_first()[0] == sq[1]);
        assert(sq.drop_first().drop_first() =~= sq.subrange(2, sq.len() as int));
    }
    if sq.len() > 2 {
        assert(sq.drop_first().drop_first()[0] == sq[2]);
        assert(sq.drop_first().drop_first().drop_first() =~= sq.subrange(3, sq.len() as int));
    }
    if sq.len() > 3 {
        assert(sq.drop_first().drop_first().drop_first()[0] == sq[3]);
        assert(sq.drop_first().drop_first().drop_first().drop_first().len() == 0);
    }
}

pub open spec fn is_local_backend(b: TranscriptionBackend) -> bool {
    b != TranscriptionBackend::OpenAiApi
}

/// The step after a backend was tried. `outcome` is what the backend gave:
/// a transcript, `None` when it is not set up here, or an error.
pub fn next_transcription_step(
    settings: &Settings,
    route: TranscriptionRoute,
    outcome: Result<Option<TranscriptionResult>, VoxioError>,
) -> (r: RouteStep)
    requires
        backend_allowed(settings.transcription_provider, local_order(settings), route.backend),
    ensures
        step_view(r) == next_step(
            settings.transcription_provider,
            local_order(settings),
            route.backend,
            opt_view(route.fallback_reason),
            outcome_view(outcome),
        ),
        outcome matches Ok(Some(t)) ==> r == RouteStep::Done(Ok(t)),
        is_local_backend(route.backend) && outcome is Err && settings.transcription_provider
            != TranscriptionProvider::Auto ==> r == RouteStep::Done(
            Err::<TranscriptionResult, VoxioError>(outcome->Err_0),
        ),
        route.backend == TranscriptionBackend::OpenAiApi && outcome is Err ==> r == RouteStep::Done(
            Err::<TranscriptionResult, VoxioError>(outcome->Err_0),
        ),
        r matches RouteStep::Attempt(next) ==> backend_allowed(
            settings.transcription_provider,
            local_order(settings),
            next.backend,
        ) && backend_position(local_order(settings), next.backend) > backend_position(
            local_order(settings),
            route.backend,
        ),
{
    let order = local_order_of(settings);
    let auto = settings.transcription_provider == TranscriptionProvider::Auto;
    match outcome {
        Ok(Some(t)) => RouteStep::Done(Ok(t)),
        Ok(None) => {
            if route.backend == TranscriptionBackend::OpenAiApi {
                RouteStep::Done(
                    Err(
                        VoxioError::Transcription(
                            lit(
                                "cloud transcription is not configured. Set OPENAI_API_KEY to enable it.",
                            ),
                        ),
                    ),
                )
            } else {
                match next_local_backend(order, route.backend) {
                    Some(n) => RouteStep::Attempt(
                        TranscriptionRoute { backend: n, fallback_reason: route.fallback_reason },
                    ),
                    None => {
                        let e = VoxioError::Transcription(
                            lit("no local transcription backend is available"),
                        );
                        if auto {
                            let reason = e.message();
                            RouteStep::Attempt(
                                TranscriptionRoute {
                                    backend: TranscriptionBackend::OpenAiApi,
                                    fallback_reason: Some(reason),
                                },
                            )
                        } else {
                            RouteStep::Done(Err(e))
                        }
                    },
                }
            }
        },
        Err(e) => {
            if route.backend != TranscriptionBackend::OpenAiApi && auto {
                let reason = e.message();
                RouteStep::Attempt(
                    TranscriptionRoute {
                        backend: TranscriptionBackend::OpenAiApi,
                        fallback_reason: Some(reason),
                    },
                )
            } else {
                RouteStep::Done(Err(e))
            }
        },
    }
}

/// The name a backend reports its transcripts under.
pub open spec fn backend_provider_name(b: TranscriptionBackend, s: &Settings) -> Seq<char> {
    match b {
        TranscriptionBackend::WhisperCli => "whisper-cli"@,
        TranscriptionBackend::WhisperServer => "whisper-server"@,
        TranscriptionBackend::SenseVoice => "sensevoice"@,
        TranscriptionBackend::OpenAiWhisper => "openai-whisper"@,
        TranscriptionBackend::OpenAiApi => openai_model_name(s.cloud_model),
    }
}

/// A backend's transcript: its text trimmed, under the backend's name.
pub fn transcription_result(backend: TranscriptionBackend, text: &str, settings: &Settings) -> (r:
    TranscriptionResult)
    ensures
        r.text@ == trimmed(text@),
        r.provider@ == backend_provider_name(backend, settings),
{
    let provider = match backend {
        TranscriptionBackend::WhisperCli => lit("whisper-cli"),
        TranscriptionBackend::WhisperServer => lit("whisper-server"),
        TranscriptionBackend::SenseVoice => lit("sensevoice"),
        TranscriptionBackend::OpenAiWhisper => lit("openai-whisper"),
        TranscriptionBackend::OpenAiApi => lit(settings.openai_transcription_model()),
    };
    TranscriptionResult { text: trim_owned(text), provider }
}

/// How a finished transcription was routed: the backend the settings asked
/// for, the provider that answered, the configured language, and whether
/// (and why) the local backends were given up for the cloud.
pub fn route_decision(
    settings: &Settings,
    result: &TranscriptionResult,
    fallback_reason: Option<String>,
) -> (r: RouteDecision)
    ensures
        r.requested_backend@ == backend_label(
            settings.transcription_provider,
            settings.local_backend,
        ),
        r.actual_backend@ == result.provider@,
        r.detected_language@ == settings.language@,
        r.fallback_used == fallback_reason is Some,
        r.fallback_reason == fallback_reason,
{
    let fallback_used = fallback_reason.is_some();
    RouteDecision {
        requested_backend: requested_backend_label(settings),
        actual_backend: result.provider.clone(),
        detected_language: settings.language.clone(),
        fallback_used,
        fallback_reason,
    }
}

/// Only the local providers are warmed up before a round.
pub fn prewarm_applies(settings: &Settings) -> (r: bool)
    ensures
        r == (settings.transcription_provider != TranscriptionProvider::Cloud),
{
    match settings.transcription_provider {
        TranscriptionProvider::Local | TranscriptionProvider::Auto => true,
        TranscriptionProvider::Cloud => false,
    }
}

// ---------------------------------------------------------------------------
// What each backend is handed
// ---------------------------------------------------------------------------
fn push_arg(args: &mut Vec<String>, s: &str)
    ensures
        final(args).deep_view() == old(args).deep_view().push(s@),
{
    args.push(s.to_string());
    proof {
        assert(args.deep_view() =~= old(args).deep_view().push(s@));
    }
}

/// The language flag's value: the configured language, or `auto`.
pub open spec fn language_or_auto(s: &Settings) -> Seq<char> {
    match language_choice(s) {
        Some(l) => l,
        None => "auto"@,
    }
}

/// A flag followed by its value when there is a value, nothing otherwise.
pub open spec fn optional_flag(flag: Seq<char>, value: Option<Seq<char>>) -> Seq<Seq<char>> {
    match value {
        Some(v) => seq![flag, v],
        None => Seq::empty(),
    }
}

/// The arguments of whisper.cpp's command-line tool: model, input, text
/// output under a prefix, no timestamps or progress, flash attention, the
/// language (or `auto`), and the hint as prompt when there is one.
pub open spec fn whisper_cli_arg_list(
    model: Seq<char>,
    audio: Seq<char>,
    prefix: Seq<char>,
    s: &Settings,
) -> Seq<Seq<char>> {
    seq![
        "-m"@,
        model,
        "-f"@,
        audio,
        "-otxt"@,
        "-of"@,
        prefix,
        "-nt"@,
        "-np"@,
        "-fa"@,
        "-l"@,
        language_or_auto(s),
    ] + optional_flag("--prompt"@, hint_choice(s))
}

pub fn whisper_cli_args(model_path: &str, audio_path: &str, output_prefix: &str, settings: &Settings) -> (r:
    Vec<String>)
    ensures
        r.deep_view() == whisper_cli_arg_list(model_path@, audio_path@, output_prefix@, settings),
{
    let mut args: Vec<String> = Vec::new();
    push_arg(&mut args, "-m");
    push_arg(&mut args, model_path);
    push_arg(&mut args, "-f");
    push_arg(&mut args, audio_path);
    push_arg(&mut args, "-otxt");
    push_arg(&mut args, "-of");
    push_arg(&mut args, output_prefix);
    push_arg(&mut args, "-nt");
    push_arg(&mut args, "-np");
    push_arg(&mut args, "-fa");
    push_arg(&mut args, "-l");
    match settings.whisper_language() {
        Some(language) => push_arg(&mut args, language),
        None => push_arg(&mut args, "auto"),
    }
    match settings.transcription_hint() {
        Some(prompt) => {
            push_arg(&mut args, "--prompt");
            push_arg(&mut args, prompt);
        },
        None => {},
    }
    proof {
        assert(args.deep_view() =~= whisper_cli_arg_list(
            model_path@,
            audio_path@,
            output_prefix@,
            settings,
        ));
    }
    args
}

/// The arguments of the `openai-whisper` tool: input, model name, text
/// output into a directory, quiet, transcription task, then the language and
/// the hint as initial prompt when they are set.
pub open spec fn openai_whisper_arg_list(audio: Seq<char>, output_dir: Seq<char>, s: &Settings) -> Seq<
    Seq<char>,
> {
    seq![
        audio,
        "--model"@,
        whisper_model_name(s.model),
        "--output_format"@,
        "txt"@,
        "--output_dir"@,
        output_dir,
        "--verbose"@,
        "False"@,
        "--task"@,
        "transcribe"@,
    ] + optional_flag("--language"@, language_choice(s)) + optional_flag(
        "--initial_prompt"@,
        hint_choice(s),
    )
}

pub fn openai_whisper_args(audio_path: &str, output_dir: &str, settings: &Settings) -> (r: Vec<
    String,
>)
    ensures
        r.deep_view() == openai_whisper_arg_list(audio_path@, output_dir@, settings),
{
    let mut args: Vec<String> = Vec::new();
    push_arg(&mut args, audio_path);
    push_arg(&mut args, "--model");
    push_arg(&mut args, settings.whisper_model());
    push_arg(&mut args, "--output_format");
    push_arg(&mut args, "txt");
    push_arg(&mut args, "--output_dir");
    push_arg(&mut args, output_dir);
    push_arg(&mut args, "--verbose");
    push_arg(&mut args, "False");
    push_arg(&mut args, "--task");
    push_arg(&mut args, "transcribe");
    match settings.whisper_language() {
        Some(language) => {
            push_arg(&mut args, "--language");
            push_arg(&mut args, language);
        },
        None => {},
    }
    match settings.transcription_hint() {
        Some(prompt) => {
            push_arg(&mut args, "--initial_prompt");
            push_arg(&mut args, prompt);
        },
        None => {},
    }
    proof {
        assert(args.deep_view() =~= openai_whisper_arg_list(audio_path@, output_dir@, settings));
    }
    args
}

/// The arguments that start a whisper.cpp server on the loopback interface.
pub open spec fn whisper_server_arg_list(model: Seq<char>, port: u16) -> Seq<Seq<char>> {
    seq![
        "-m"@,
        model,
        "--host"@,
        "127.0.0.1"@,
        "--port"@,
        decimal(port as nat),
        "-nt"@,
        "-fa"@,
    ]
}

pub fn whisper_server_args(model_path: &str, port: u16) -> (r: Vec<String>)
    ensures
        r.deep_view() == whisper_server_arg_list(model_path@, port),
{
    let mut args: Vec<String> = Vec::new();
    push_arg(&mut args, "-m");
    push_arg(&mut args, model_path);
    push_arg(&mut args, "--host");
    push_arg(&mut args, "127.0.0.1");
    push_arg(&mut args, "--port");
    let port_text = decimal_text(port as u64);
    push_arg(&mut args, port_text.as_str());
    push_arg(&mut args, "-nt");
    push_arg(&mut args, "-fa");
    proof {
        assert(args.deep_view() =~= whisper_server_arg_list(model_path@, port));
    }
    args
}

/// A part of a multipart form: a text field, or the recording itself.
#[derive(Debug)]
pub enum FormPart {
    Text { name: String, value: String },
    Audio,
}

pub enum FormPartView {
    Text(Seq<char>, Seq<char>),
    Audio,
}

impl View for FormPart {
    type V = FormPartView;

    open spec fn view(&self) -> FormPartView {
        match self {
            FormPart::Text { name, value } => FormPartView::Text(name@, value@),
            FormPart::Audio => FormPartView::Audio,
        }
    }
}

pub open spec fn parts_view(v: Seq<FormPart>) -> Seq<FormPartView> {
    v.map_values(|p: FormPart| p@)
}

pub open spec fn optional_field(name: Seq<char>, value: Option<Seq<char>>) -> Seq<FormPartView> {
    match value {
        Some(v) => seq![FormPartView::Text(name, v)],
        None => Seq::empty(),
    }
}

fn push_field(parts: &mut Vec<FormPart>, name: &str, value: &str)
    ensures
        parts_view(final(parts)@) == parts_view(old(parts)@).push(FormPartView::Text(name@, value@)),
{
    parts.push(FormPart::Text { name: name.to_string(), value: value.to_string() });
    proof {
        assert(parts_view(parts@) =~= parts_view(old(parts)@).push(
            FormPartView::Text(name@, value@),
        ));
    }
}

fn push_audio(parts: &mut Vec<FormPart>)
    ensures
        parts_view(final(parts)@) == parts_view(old(parts)@).push(FormPartView::Audio),
{
    parts.push(FormPart::Audio);
    proof {
        assert(parts_view(parts@) =~= parts_view(old(parts)@).push(FormPartView::Audio));
    }
}

/// The form a whisper.cpp server is sent: JSON answer, the language (or
/// `auto`), the recording, and the hint as prompt when there is one.
pub open spec fn whisper_server_form_parts(s: &Settings) -> Seq<FormPartView> {
    seq![
        FormPartView::Text("response_format"@, "json"@),
        FormPartView::Text("language"@, language_or_auto(s)),
        FormPartView::Audio,
    ] + optional_field("prompt"@, hint_choice(s))
}

pub fn whisper_server_form(settings: &Settings) -> (r: Vec<FormPart>)
    ensures
        parts_view(r@) == whisper_server_form_parts(settings),
{
    let mut parts: Vec<FormPart> = Vec::new();
    push_field(&mut parts, "response_format", "json");
    match settings.whisper_language() {
        Some(language) => push_field(&mut parts, "language", language),
        None => push_field(&mut parts, "language", "auto"),
    }
    push_audio(&mut parts);
    match settings.transcription_hint() {
        Some(prompt) => push_field(&mut parts, "prompt", prompt),
        None => {},
    }
    proof {
        assert(parts_view(parts@) =~= whisper_server_form_parts(settings));
    }
    parts
}

/// The form OpenAI's transcription API is sent: the model, JSON answer, the
/// recording, then the language and the hint as prompt when they are set.
pub open spec fn openai_form_parts(s: &Settings) -> Seq<FormPartView> {
    seq![
        FormPartView::Text("model"@, openai_model_name(s.cloud_model)),
        FormPartView::Text("response_format"@, "json"@),
        FormPartView::Audio,
    ] + optional_field("language"@, language_choice(s)) + optional_field(
        "prompt"@,
        hint_choice(s),
    )
}

pub fn openai_transcription_form(settings: &Settings) -> (r: Vec<FormPart>)
    ensures
        parts_view(r@) == openai_form_parts(settings),
{
    let mut parts: Vec<FormPart> = Vec::new();
    push_field(&mut parts, "model", settings.openai_transcription_model());
    push_field(&mut parts, "response_format", "json");
    push_audio(&mut parts);
    match settings.whisper_language() {
        Some(language) => push_field(&mut parts, "language", language),
        None => {},
    }
    match settings.transcription_hint() {
        Some(prompt) => push_field(&mut parts, "prompt", prompt),
        None => {},
    }
    proof {
        assert(parts_view(parts@) =~= openai_form_parts(settings));
    }
    parts
}

// ---------------------------------------------------------------------------
// Local models and servers
// ---------------------------------------------------------------------------
/// The whisper.cpp model files tried for a model size, best first.
pub open spec fn model_candidate_list(m: ModelSize) -> Seq<Seq<char>> {
    match m {
        ModelSize::Small => seq![
            "models/whisper/ggml-small.bin"@,
            "models/whisper/ggml-small.en.bin"@,
            "models/whisper/ggml-base-q5_1.bin"@,
            "models/whisper/ggml-base.bin"@,
            "models/whisper/ggml-base.en.bin"@,
            "models/whisper/ggml-tiny-q5_1.bin"@,
        ],
        ModelSize::Fast => seq![
            "models/whisper/ggml-tiny-q5_1.bin"@,
            "models/whisper/ggml-tiny.bin"@,
        ],
        ModelSize::Balanced => seq![
            "models/whisper/ggml-base-q5_1.bin"@,
            "models/whisper/ggml-base.bin"@,
            "models/whisper/ggml-base.en.bin"@,
            "models/whisper/ggml-tiny-q5_1.bin"@,
        ],
    }
}

/// The relative paths of the whisper.cpp model files to look for, in order.
pub fn whisper_model_candidates(settings: &Settings) -> (r: Vec<String>)
    ensures
        r.deep_view() == model_candidate_list(settings.model),
{
    let mut v: Vec<String> = Vec::new();
    match settings.model {
        ModelSize::Small => {
            push_arg(&mut v, "models/whisper/ggml-small.bin");
            push_arg(&mut v, "models/whisper/ggml-small.en.bin");
            push_arg(&mut v, "models/whisper/ggml-base-q5_1.bin");
            push_arg(&mut v, "models/whisper/ggml-base.bin");
            push_arg(&mut v, "models/whisper/ggml-base.en.bin");
            push_arg(&mut v, "models/whisper/ggml-tiny-q5_1.bin");
        },
        ModelSize::Fast => {
            push_arg(&mut v, "models/whisper/ggml-tiny-q5_1.bin");
            push_arg(&mut v, "models/whisper/ggml-tiny.bin");
        },
        ModelSize::Balanced => {
            push_arg(&mut v, "models/whisper/ggml-base-q5_1.bin");
            push_arg(&mut v, "models/whisper/ggml-base.bin");
            push_arg(&mut v, "models/whisper/ggml-base.en.bin");
            push_arg(&mut v, "models/whisper/ggml-tiny-q5_1.bin");
        },
    }
    proof {
        assert(v.deep_view() =~= model_candidate_list(settings.model));
    }
    v
}

/// The least size of a complete model file, by its file name; any other file
/// must not be empty.
pub open spec fn model_min_bytes(name: Seq<char>) -> nat {
    if name == "ggml-tiny-q5_1.bin"@ {
        20 * 1024 * 1024
    } else if name == "ggml-tiny.bin"@ {
        70 * 1024 * 1024
    } else if name == "ggml-base-q5_1.bin"@ {
        50 * 1024 * 1024
    } else if name == "ggml-base.bin"@ || name == "ggml-base.en.bin"@ {
        120 * 1024 * 1024
    } else if name == "ggml-small.bin"@ || name == "ggml-small.en.bin"@ {
        230 * 1024 * 1024
    } else {
        1
    }
}

pub fn model_min_size(file_name: &str) -> (r: u64)
    ensures
        r == model_min_bytes(file_name@),
{
    let name = file_name.to_string();
    if name == lit("ggml-tiny-q5_1.bin") {
        20 * 1024 * 1024
    } else if name == lit("ggml-tiny.bin") {
        70 * 1024 * 1024
    } else if name == lit("ggml-base-q5_1.bin") {
        50 * 1024 * 1024
    } else if name == lit("ggml-base.bin") || name == lit("ggml-base.en.bin") {
        120 * 1024 * 1024
    } else if name == lit("ggml-small.bin") || name == lit("ggml-small.en.bin") {
        230 * 1024 * 1024
    } else {
        1
    }
}

/// A model file looks complete (not a partial download) when it has at least
/// the least size for its name.
pub fn model_size_looks_complete(file_name: &str, len: u64) -> (r: bool)
    ensures
        r == (len >= model_min_bytes(file_name@)),
{
    len >= model_min_size(file_name)
}

/// The whisper.cpp server is used only when `VOXIO_ENABLE_WHISPER_SERVER` is `1`.
pub fn whisper_server_enabled(value: Option<&str>) -> (r: bool)
    ensures
        r == (value matches Some(v) && v@ == "1"@),
{
    match value {
        Some(v) => v.to_string() == lit("1"),
        None => false,
    }
}

/// The server port: `VOXIO_WHISPER_SERVER_PORT` when it reads as a `u16`,
/// else 8178.
pub open spec fn server_port_from(value: Option<Seq<char>>) -> u16 {
    match value {
        Some(v) => match parse_u16(v) {
            Some(p) => p,
            None => 8178,
        },
        None => 8178,
    }
}

pub fn whisper_server_port(value: Option<&str>) -> (r: u16)
    ensures
        r == server_port_from(opt_str(value)),
{
    match value {
        Some(v) => match parse_u16_text(v) {
            Some(p) => p,
            None => 8178,
        },
        None => 8178,
    }
}

/// The label of a found whisper.cpp setup: the tool with its model file name.
pub fn whisper_cli_label(model_file_name: Option<&str>) -> (r: String)
    ensures
        r@ == whisper_cli_label_of(opt_str(model_file_name)),
{
    match model_file_name {
        Some(n) => concat3("whisper-cli (", n, ")"),
        None => concat3("whisper-cli (", "model", ")"),
    }
}

/// The text of a tool's exit code: the code, or `unknown` when it has none.
pub open spec fn exit_code_text(code: Option<i32>) -> Seq<char> {
    match code {
        Some(c) => signed_decimal(c as int),
        None => "unknown"@,
    }
}

/// The error of a recognition tool that exited with a failure: its name,
/// the exit code (or `unknown`) and its trimmed error output.
pub fn tool_exit_error(tool: &str, code: Option<i32>, stderr: &str) -> (r: VoxioError)
    ensures
        is_transcription(
            r,
            tool@ + " exited with status "@ + exit_code_text(code) + ": "@ + trimmed(stderr@),
        ),
{
    let code_text = match code {
        Some(c) => signed_decimal_text(c),
        None => lit("unknown"),
    };
    let mut m = concat3(tool, " exited with status ", code_text.as_str());
    m.append(": ");
    m.append(trim(stderr));
    VoxioError::Transcription(m)
}

/// The error of an `openai-whisper` run that exited with a failure.
pub fn whisper_exit_error(code: Option<i32>, stderr: &str) -> (r: VoxioError)
    ensures
        is_transcription(
            r,
            "whisper exited with status "@ + exit_code_text(code) + ": "@ + trimmed(stderr@),
        ),
{
    let r = tool_exit_error("whisper", code, stderr);
    proof {
        reveal_strlit("whisper");
        reveal_strlit(" exited with status ");
        reveal_strlit("whisper exited with status ");
        assert("whisper"@ + " exited with status "@ =~= "whisper exited with status "@);
    }
    r
}

/// The error of an OpenAI transcription answered with a failure status.
pub fn openai_status_error(code: u16) -> (r: VoxioError)
    ensures
        is_transcription(r, "OpenAI transcription returned HTTP "@ + status_line(code)),
{
    let text = status_text(code);
    VoxioError::Transcription(concat2("OpenAI transcription returned HTTP ", text.as_str()))
}

/// In `Auto` mode the provider test follows the readiness check: it tests the
/// local provider when the check reports `Local`, the cloud when it reports
/// `Cloud`, and reports that nothing is ready otherwise.
pub proof fn lemma_probe_follows_status(local_ready: bool, cloud_ready: bool)
    ensures
        probes_local(TranscriptionProvider::Auto, local_ready) <==> effective_provider_name(
            TranscriptionProvider::Auto,
            local_ready,
            cloud_ready,
        ) == "Local"@,
        probes_cloud(TranscriptionProvider::Auto, local_ready, cloud_ready)
            <==> effective_provider_name(TranscriptionProvider::Auto, local_ready, cloud_ready)
            == "Cloud"@,
{
    lemma_provider_names_distinct();
}

// ---------------------------------------------------------------------------
// The whisper.cpp server's lifecycle and the local backend found
// ---------------------------------------------------------------------------
/// What to do about the whisper.cpp server before a request.
#[derive(Clone, Copy, Debug, PartialEq, Eq, Structural)]
pub enum ServerAction {
    /// Use the running server.
    Reuse,
    /// Ask the running server whether it is healthy, then decide again.
    CheckHealth,
    /// Stop the running server and start a new one.
    Restart,
    /// Start a server; none is running.
    Launch,
}

/// The server decision. `running` is `None` when no server was started, else
/// whether it runs the wanted model and the port it listens on; `health` is
/// what the health check said, once it was asked. A running server is kept
/// only when model and port match and it is healthy; otherwise it is replaced.
pub fn server_action(running: Option<(bool, u16)>, port: u16, health: Option<bool>) -> (r:
    ServerAction)
    ensures
        running is None ==> r == ServerAction::Launch,
        running matches Some((same_model, running_port)) ==> r == (if !(same_model
            && running_port == port) {
            ServerAction::Restart
        } else {
            match health {
                None => ServerAction::CheckHealth,
                Some(true) => ServerAction::Reuse,
                Some(false) => ServerAction::Restart,
            }
        }),
{
    match running {
        None => ServerAction::Launch,
        Some((same_model, running_port)) => {
            if !(same_model && running_port == port) {
                ServerAction::Restart
            } else {
                match health {
                    None => ServerAction::CheckHealth,
                    Some(true) => ServerAction::Reuse,
                    Some(false) => ServerAction::Restart,
                }
            }
        },
    }
}

/// How many health checks a freshly started server gets.
pub const SERVER_HEALTH_CHECKS: u32 = 60;

/// What follows a health check of a freshly started server.
#[derive(Clone, Copy, Debug, PartialEq, Eq, Structural)]
pub enum HealthPoll {
    /// The server is up.
    Ready,
    /// Sleep, then check again.
    SleepThenCheck,
    /// Sleep, then give up.
    SleepThenGiveUp,
}

/// The step after health check number `check` (counted from 0): a healthy
/// server is ready; otherwise there is a pause, and after the last of the 60
/// checks the wait ends.
pub fn health_poll(check: u32, healthy: bool) -> (r: HealthPoll)
    requires
        check < SERVER_HEALTH_CHECKS,
    ensures
        healthy ==> r == HealthPoll::Ready,
        !healthy && check + 1 < SERVER_HEALTH_CHECKS ==> r == HealthPoll::SleepThenCheck,
        !healthy && check + 1 == SERVER_HEALTH_CHECKS ==> r == HealthPoll::SleepThenGiveUp,
{
    if healthy {
        HealthPoll::Ready
    } else if check + 1 < SERVER_HEALTH_CHECKS {
        HealthPoll::SleepThenCheck
    } else {
        HealthPoll::SleepThenGiveUp
    }
}

/// The error of a server that never became healthy.
pub fn server_unhealthy_error(port: u16) -> (r: VoxioError)
    ensures
        is_transcription(
            r,
            "whisper-server did not become healthy on port "@ + decimal(port as nat),
        ),
{
    let port_text = decimal_text(port as u64);
    VoxioError::Transcription(concat2("whisper-server did not become healthy on port ", port_text.as_str()))
}

/// The label of SenseVoice when `coli` was found.
pub open spec fn sense_voice_label() -> Seq<char> {
    "SenseVoice (coli)"@
}

/// The label of whisper.cpp's tool with its model file name (or `model`).
pub open spec fn whisper_cli_label_of(name: Option<Seq<char>>) -> Seq<char> {
    "whisper-cli ("@ + match name {
        Some(n) => n,
        None => "model"@,
    } + ")"@
}

/// The local backend reported as found, in the settings' local order:
/// `whisper_cli` is whisper.cpp's tool with a model (holding the model's file
/// name when it reads as text), `openai_whisper` the `openai-whisper` tool,
/// `sense_voice` the `coli` tool. The first one found in the order counts;
/// whisper.cpp's server is not looked for.
pub open spec fn found_backend_label(
    o: LocalOrder,
    whisper_cli: Option<Option<Seq<char>>>,
    openai_whisper: bool,
    sense_voice: bool,
) -> Option<Seq<char>> {
    let cli = match whisper_cli {
        Some(n) => Some(whisper_cli_label_of(n)),
        None => None::<Seq<char>>,
    };
    let ow = if openai_whisper {
        Some("openai-whisper"@)
    } else {
        None
    };
    let sv = if sense_voice {
        Some(sense_voice_label())
    } else {
        None
    };
    match o {
        LocalOrder::WhisperOnly => if cli is Some {
            cli
        } else {
            ow
        },
        LocalOrder::SenseVoiceOnly => sv,
        LocalOrder::SenseVoiceFirst => if sv is Some {
            sv
        } else if cli is Some {
            cli
        } else {
            ow
        },
        LocalOrder::WhisperFirst => if cli is Some {
            cli
        } else if sv is Some {
            sv
        } else {
            ow
        },
    }
}

pub open spec fn opt_opt_str(o: Option<Option<&str>>) -> Option<Option<Seq<char>>> {
    match o {
        Some(n) => Some(opt_str(n)),
        None => None,
    }
}

/// The local backend that is reported as found for the settings (see
/// `found_backend_label`).
pub fn local_backend_found(
    settings: &Settings,
    whisper_cli: Option<Option<&str>>,
    openai_whisper: bool,
    sense_voice: bool,
) -> (r: Option<String>)
    ensures
        opt_view(r) == found_backend_label(
            local_order(settings),
            opt_opt_str(whisper_cli),
            openai_whisper,
            sense_voice,
        ),
{
    let cli = match whisper_cli {
        Some(name) => Some(whisper_cli_label(name)),
        None => None,
    };
    let ow = if openai_whisper {
        Some(lit("openai-whisper"))
    } else {
        None
    };
    let sv = if sense_voice {
        Some(lit("SenseVoice (coli)"))
    } else {
        None
    };
    match local_order_of(settings) {
        LocalOrder::WhisperOnly => if cli.is_some() {
            cli
        } else {
            ow
        },
        LocalOrder::SenseVoiceOnly => sv,
        LocalOrder::SenseVoiceFirst => if sv.is_some() {
            sv
        } else if cli.is_some() {
            cli
        } else {
            ow
        },
        LocalOrder::WhisperFirst => if cli.is_some() {
            cli
        } else if sv.is_some() {
            sv
        } else {
            ow
        },
    }
}

/// The arguments of `coli`'s speech recognition: the `asr` command and the
/// recording.
pub open spec fn sense_voice_arg_list(audio: Seq<char>) -> Seq<Seq<char>> {
    seq!["asr"@, audio]
}

pub fn sense_voice_args(audio_path: &str) -> (r: Vec<String>)
    ensures
        r.deep_view() == sense_voice_arg_list(audio_path@),
{
    let mut args: Vec<String> = Vec::new();
    push_arg(&mut args, "asr");
    push_arg(&mut args, audio_path);
    proof {
        assert(args.deep_view() =~= sense_voice_arg_list(audio_path@));
    }
    args
}

// ---------------------------------------------------------------------------
// Laws of detection, model sizes and arguments
// ---------------------------------------------------------------------------
/// Whether a local backend was found: whisper.cpp's tool with a model, the
/// `coli` tool, the `openai-whisper` tool; the server is never looked for.
pub open spec fn was_found(
    b: TranscriptionBackend,
    whisper_cli: Option<Option<Seq<char>>>,
    openai_whisper: bool,
    sense_voice: bool,
) -> bool {
    match b {
        TranscriptionBackend::WhisperCli => whisper_cli is Some,
        TranscriptionBackend::SenseVoice => sense_voice,
        TranscriptionBackend::OpenAiWhisper => openai_whisper,
        _ => false,
    }
}

/// The first backend of `backends` that was found.
pub open spec fn first_found(
    backends: Seq<TranscriptionBackend>,
    whisper_cli: Option<Option<Seq<char>>>,
    openai_whisper: bool,
    sense_voice: bool,
) -> Option<TranscriptionBackend>
    decreases backends.len(),
{
    if backends.len() == 0 {
        None
    } else if was_found(backends[0], whisper_cli, openai_whisper, sense_voice) {
        Some(backends[0])
    } else {
        first_found(backends.drop_first(), whisper_cli, openai_whisper, sense_voice)
    }
}

/// The label a found backend is reported under.
pub open spec fn report_label(b: TranscriptionBackend, whisper_cli: Option<Option<Seq<char>>>) -> Seq<
    char,
> {
    match b {
        TranscriptionBackend::WhisperCli => "whisper-cli ("@ + match whisper_cli {
            Some(Some(n)) => n,
            _ => "model"@,
        } + ")"@,
        TranscriptionBackend::SenseVoice => "SenseVoice (coli)"@,
        _ => "openai-whisper"@,
    }
}

/// The reported local backend is the first backend of the order's sequence
/// that was found, under its label, and none when none was found; in
/// particular, in a Whisper order with only `openai-whisper` on hand it is
/// `openai-whisper`.
pub proof fn lemma_found_backend_is_first_in_order(
    o: LocalOrder,
    whisper_cli: Option<Option<Seq<char>>>,
    openai_whisper: bool,
    sense_voice: bool,
)
    ensures
        found_backend_label(o, whisper_cli, openai_whisper, sense_voice) == match first_found(
            local_sequence(o),
            whisper_cli,
            openai_whisper,
            sense_voice,
        ) {
            Some(b) => Some(report_label(b, whisper_cli)),
            None => None,
        },
        o != LocalOrder::SenseVoiceOnly && whisper_cli is None && openai_whisper && !sense_voice
            ==> found_backend_label(o, whisper_cli, openai_whisper, sense_voice) == Some(
            "openai-whisper"@,
        ),
        o == LocalOrder::SenseVoiceOnly ==> (found_backend_label(
            o,
            whisper_cli,
            openai_whisper,
            sense_voice,
        ) is Some <==> sense_voice),
{
    reveal_with_fuel(first_found, 5);
    let sq = local_sequence(o);
    if sq.len() > 1 {
        assert(sq.drop_first()[0] == sq[1]);
    }
    if sq.len() > 2 {
        assert(sq.drop_first().drop_first()[0] == sq[2]);
    }
    if sq.len() > 3 {
        assert(sq.drop_first().drop_first().drop_first()[0] == sq[3]);
        assert(sq.drop_first().drop_first().drop_first().drop_first().len() == 0);
    }
}

proof fn lemma_model_names_distinct()
    ensures
        "ggml-tiny-q5_1.bin"@ != "ggml-tiny.bin"@,
        "ggml-tiny-q5_1.bin"@ != "ggml-base-q5_1.bin"@,
        "ggml-tiny-q5_1.bin"@ != "ggml-base.bin"@,
        "ggml-tiny-q5_1.bin"@ != "ggml-base.en.bin"@,
        "ggml-tiny-q5_1.bin"@ != "ggml-small.bin"@,
        "ggml-tiny-q5_1.bin"@ != "ggml-small.en.bin"@,
        "ggml-tiny.bin"@ != "ggml-base-q5_1.bin"@,
        "ggml-tiny.bin"@ != "ggml-base.bin"@,
        "ggml-tiny.bin"@ != "ggml-base.en.bin"@,
        "ggml-tiny.bin"@ != "ggml-small.bin"@,
        "ggml-tiny.bin"@ != "ggml-small.en.bin"@,
        "ggml-base-q5_1.bin"@ != "ggml-base.bin"@,
        "ggml-base-q5_1.bin"@ != "ggml-base.en.bin"@,
        "ggml-base-q5_1.bin"@ != "ggml-small.bin"@,
        "ggml-base-q5_1.bin"@ != "ggml-small.en.bin"@,
        "ggml-base.bin"@ != "ggml-small.bin"@,
        "ggml-base.bin"@ != "ggml-small.en.bin"@,
        "ggml-base.en.bin"@ != "ggml-small.bin"@,
        "ggml-base.en.bin"@ != "ggml-small.en.bin"@,
{
    reveal_strlit("ggml-tiny-q5_1.bin");
    reveal_strlit("ggml-tiny.bin");
    reveal_strlit("ggml-base-q5_1.bin");
    reveal_strlit("ggml-base.bin");
    reveal_strlit("ggml-base.en.bin");
    reveal_strlit("ggml-small.bin");
    reveal_strlit("ggml-small.en.bin");
    assert("ggml-tiny-q5_1.bin"@[9] != "ggml-tiny.bin"@[9]);
    assert("ggml-tiny-q5_1.bin"@[5] != "ggml-base-q5_1.bin"@[5]);
    assert("ggml-tiny.bin"@[5] != "ggml-base.bin"@[5]);
    assert("ggml-tiny-q5_1.bin"@[5] != "ggml-small.en.bin"@[5]);
    assert("ggml-base-q5_1.bin"@[5] != "ggml-small.en.bin"@[5]);
    assert("ggml-base.bin"@[5] != "ggml-small.bin"@[5]);
    assert("ggml-base.en.bin"@[5] != "ggml-small.en.bin"@[5]);
    assert("ggml-base-q5_1.bin"@[9] != "ggml-base.bin"@[9]);
    assert("ggml-base-q5_1.bin"@[9] != "ggml-base.en.bin"@[9]);
}

/// The least sizes of the known model files: 20 MiB for the quantised tiny
/// model, 70 MiB for tiny, 50 MiB for the quantised base model, 120 MiB for
/// base and its English variant alike, 230 MiB for small and its English
/// variant alike; any other file only needs to be non-empty.
pub proof fn lemma_model_min_sizes(other: Seq<char>)
    ensures
        model_min_bytes("ggml-tiny-q5_1.bin"@) == 20 * 1024 * 1024,
        model_min_bytes("ggml-tiny.bin"@) == 70 * 1024 * 1024,
        model_min_bytes("ggml-base-q5_1.bin"@) == 50 * 1024 * 1024,
        model_min_bytes("ggml-base.bin"@) == 120 * 1024 * 1024,
        model_min_bytes("ggml-base.en.bin"@) == 120 * 1024 * 1024,
        model_min_bytes("ggml-small.bin"@) == 230 * 1024 * 1024,
        model_min_bytes("ggml-small.en.bin"@) == 230 * 1024 * 1024,
        other != "ggml-tiny-q5_1.bin"@ && other != "ggml-tiny.bin"@ && other
            != "ggml-base-q5_1.bin"@ && other != "ggml-base.bin"@ && other != "ggml-base.en.bin"@
            && other != "ggml-small.bin"@ && other != "ggml-small.en.bin"@ ==> model_min_bytes(
            other,
        ) == 1,
{
    lemma_model_names_distinct();
}

/// whisper.cpp's tool is always given the model, the input, the text output
/// prefix, its fixed flags and a language (the configured one or `auto`);
/// the hint, whenever it is not blank and whatever the language, comes last
/// after `--prompt`, and without one nothing follows the language.
pub proof fn lemma_whisper_cli_prompt(
    model: Seq<char>,
    audio: Seq<char>,
    prefix: Seq<char>,
    s: &Settings,
)
    ensures
        ({
            let args = whisper_cli_arg_list(model, audio, prefix, s);
            &&& args.len() >= 12
            &&& args[1] == model && args[3] == audio && args[6] == prefix
            &&& args[10] == "-l"@
            &&& args[11] == match language_choice(s) {
                Some(l) => l,
                None => "auto"@,
            }
            &&& !is_blank(s.transcription_hint@) ==> args.len() == 14 && args[12] == "--prompt"@
                && args[13] == trimmed(s.transcription_hint@)
            &&& is_blank(s.transcription_hint@) ==> args.len() == 12
        }),
{
}

/// The `openai-whisper` tool gets `--language` exactly when a language other
/// than `auto` is set, and `--initial_prompt` with the trimmed hint exactly
/// when the hint is not blank, each independently of the other.
pub proof fn lemma_openai_whisper_flags(audio: Seq<char>, output_dir: Seq<char>, s: &Settings)
    ensures
        ({
            let args = openai_whisper_arg_list(audio, output_dir, s);
            let with_language: int = if s.language@ == "auto"@ {
                0
            } else {
                2
            };
            let with_hint: int = if is_blank(s.transcription_hint@) {
                0
            } else {
                2
            };
            &&& args.len() == 11 + with_language + with_hint
            &&& args[0] == audio && args[2] == whisper_model_name(s.model) && args[6] == output_dir
            &&& s.language@ != "auto"@ ==> args[11] == "--language"@ && args[12] == s.language@
            &&& !is_blank(s.transcription_hint@) ==> args[11 + with_language] == "--initial_prompt"@
                && args[12 + with_language] == trimmed(s.transcription_hint@)
        }),
{
}

/// The forms: both carry the recording once and `response_format=json`; the
/// server always gets a language (or `auto`), the API a language only when
/// one is set; both get the trimmed hint as `prompt` exactly when it is not
/// blank, whatever the language.
pub proof fn lemma_form_fields(s: &Settings)
    ensures
        ({
            let server = whisper_server_form_parts(s);
            let api = openai_form_parts(s);
            let hint_fields: int = if is_blank(s.transcription_hint@) {
                0
            } else {
                1
            };
            let language_fields: int = if s.language@ == "auto"@ {
                0
            } else {
                1
            };
            &&& server.len() == 3 + hint_fields
            &&& server[1] == FormPartView::Text(
                "language"@,
                if s.language@ == "auto"@ {
                    "auto"@
                } else {
                    s.language@
                },
            )
            &&& server[2] == FormPartView::Audio
            &&& !is_blank(s.transcription_hint@) ==> server[3] == FormPartView::Text(
                "prompt"@,
                trimmed(s.transcription_hint@),
            )
            &&& api.len() == 3 + language_fields + hint_fields
            &&& api[0] == FormPartView::Text("model"@, openai_model_name(s.cloud_model))
            &&& api[2] == FormPartView::Audio
            &&& s.language@ != "auto"@ ==> api[3] == FormPartView::Text("language"@, s.language@)
            &&& !is_blank(s.transcription_hint@) ==> api[3 + language_fields]
                == FormPartView::Text("prompt"@, trimmed(s.transcription_hint@))
        }),
{
}

} // verus!
