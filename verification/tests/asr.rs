use voxio::modules::asr::{
    health_poll, local_backend_found, server_action, server_unhealthy_error, HealthPoll,
    ServerAction,
};
use voxio::config::{LocalBackend, Settings, TranscriptionProvider};
use voxio::error::VoxioError;
use voxio::modules::asr::{
    first_transcription_route, model_min_size, model_size_looks_complete, next_transcription_step,
    openai_transcription_form, openai_whisper_args, probe_cloud_provider, probe_provider,
    route_decision, runtime_status, transcription_result, whisper_cli_args, whisper_cli_label,
    whisper_exit_error, whisper_model_candidates, whisper_server_args, whisper_server_enabled,
    whisper_server_form, whisper_server_port, AsrProvider, CloudReply, FormPart, NullAsrProvider,
    ProbeStep, RouteStep, TranscriptionBackend, TranscriptionResult, TranscriptionRoute,
    openai_status_error, sense_voice_args, status_text, tool_exit_error,
};

fn settings_with(provider: TranscriptionProvider) -> Settings {
    let mut s = Settings::default();
    s.transcription_provider = provider;
    s
}

fn result(text: &str, provider: &str) -> TranscriptionResult {
    TranscriptionResult { text: text.to_string(), provider: provider.to_string() }
}

#[test]
fn runtime_status_picks_the_effective_provider() {
    let local = settings_with(TranscriptionProvider::Local);
    let st = runtime_status(&local, Some("openai-whisper".to_string()), None);
    assert!(st.local_ready && !st.cloud_ready);
    assert_eq!(st.local_backend, "openai-whisper");
    assert_eq!(st.effective_provider, "Local");
    let st = runtime_status(&local, None, Some("sk".to_string()));
    assert_eq!(st.local_backend, "Unavailable");
    assert_eq!(st.effective_provider, "Unavailable");

    let cloud = settings_with(TranscriptionProvider::Cloud);
    assert_eq!(runtime_status(&cloud, None, Some("  ".to_string())).effective_provider, "Unavailable");
    assert_eq!(runtime_status(&cloud, None, Some("sk".to_string())).effective_provider, "Cloud");

    let auto = settings_with(TranscriptionProvider::Auto);
    assert_eq!(
        runtime_status(&auto, Some("x".to_string()), Some("sk".to_string())).effective_provider,
        "Local"
    );
    assert_eq!(runtime_status(&auto, None, Some("sk".to_string())).effective_provider, "Cloud");
    assert_eq!(runtime_status(&auto, None, None).effective_provider, "Unavailable");
}

#[test]
fn provider_tests_by_mode() {
    let local = settings_with(TranscriptionProvider::Local);
    match probe_provider(&local, Some("whisper-cli (ggml-base.bin)".to_string()), None) {
        ProbeStep::Finished(Ok(p)) => {
            assert_eq!(p.provider, "Local");
            assert!(p.ok);
            assert_eq!(p.message, "whisper-cli (ggml-base.bin) is ready.");
        }
        _ => panic!("expected a local result"),
    }
    match probe_provider(&local, None, None) {
        ProbeStep::Finished(Ok(p)) => {
            assert!(!p.ok);
            assert_eq!(p.message, "No local transcription backend is available.");
        }
        _ => panic!("expected a local result"),
    }
    let cloud = settings_with(TranscriptionProvider::Cloud);
    assert!(matches!(probe_provider(&cloud, Some("x".to_string()), None), ProbeStep::CheckCloud));
    let auto = settings_with(TranscriptionProvider::Auto);
    assert!(matches!(probe_provider(&auto, None, Some("sk".to_string())), ProbeStep::CheckCloud));
    match probe_provider(&auto, None, None) {
        ProbeStep::Finished(Ok(p)) => {
            assert_eq!(p.provider, "Unavailable");
            assert_eq!(p.message, "No transcription provider is ready.");
        }
        _ => panic!("expected unavailable"),
    }
}

#[test]
fn cloud_test_results() {
    let s = settings_with(TranscriptionProvider::Cloud);
    let ok = probe_cloud_provider(&s, CloudReply::Status { code: 200 }).unwrap();
    assert!(ok.ok);
    assert_eq!(ok.message, "gpt-4o-mini-transcribe is reachable.");
    let bad = probe_cloud_provider(&s, CloudReply::Status { code: 401 }).unwrap();
    assert!(!bad.ok);
    assert_eq!(bad.message, "OpenAI connectivity check returned HTTP 401 Unauthorized.");
    match probe_cloud_provider(&s, CloudReply::MissingKey) {
        Err(VoxioError::Transcription(m)) => assert_eq!(
            m,
            "cloud transcription is not configured. Set OPENAI_API_KEY to enable it."
        ),
        _ => panic!("expected an error"),
    }
    match probe_cloud_provider(&s, CloudReply::RequestError("timeout".to_string())) {
        Err(VoxioError::Transcription(m)) => {
            assert_eq!(m, "OpenAI connectivity check failed: timeout")
        }
        _ => panic!("expected an error"),
    }
    match probe_cloud_provider(&s, CloudReply::ClientError("tls".to_string())) {
        Err(VoxioError::Transcription(m)) => assert_eq!(m, "failed to build HTTP client: tls"),
        _ => panic!("expected an error"),
    }
}

#[test]
fn local_routing_walks_the_local_backends_in_order() {
    let mut s = settings_with(TranscriptionProvider::Local);
    s.local_backend = LocalBackend::Whisper;
    let r = first_transcription_route(&s);
    assert_eq!(r.backend, TranscriptionBackend::WhisperCli);
    let r = match next_transcription_step(&s, r, Ok(None)) {
        RouteStep::Attempt(n) => n,
        _ => panic!("expected the server next"),
    };
    assert_eq!(r.backend, TranscriptionBackend::WhisperServer);
    let r = match next_transcription_step(&s, r, Ok(None)) {
        RouteStep::Attempt(n) => n,
        _ => panic!("expected openai-whisper next"),
    };
    assert_eq!(r.backend, TranscriptionBackend::OpenAiWhisper);
    match next_transcription_step(&s, r, Err(VoxioError::Transcription("boom".to_string()))) {
        RouteStep::Done(Err(VoxioError::Transcription(m))) => assert_eq!(m, "boom"),
        _ => panic!("a local failure ends a local transcription"),
    }
}

#[test]
fn auto_routing_falls_back_to_the_cloud_with_a_reason() {
    let s = settings_with(TranscriptionProvider::Auto);
    let r = first_transcription_route(&s);
    let r = match next_transcription_step(&s, r, Err(VoxioError::Transcription("no model".to_string())))
    {
        RouteStep::Attempt(n) => n,
        _ => panic!("expected the cloud next"),
    };
    assert_eq!(r.backend, TranscriptionBackend::OpenAiApi);
    assert_eq!(r.fallback_reason.as_deref(), Some("transcription failed: no model"));
    match next_transcription_step(&s, r, Ok(Some(result("hi", "gpt-4o-mini-transcribe")))) {
        RouteStep::Done(Ok(t)) => assert_eq!(t.text, "hi"),
        _ => panic!("expected a transcript"),
    }
}

#[test]
fn cloud_routing_without_a_key_fails() {
    let s = settings_with(TranscriptionProvider::Cloud);
    let r = first_transcription_route(&s);
    assert_eq!(r.backend, TranscriptionBackend::OpenAiApi);
    match next_transcription_step(&s, r, Ok(None)) {
        RouteStep::Done(Err(VoxioError::Transcription(m))) => assert_eq!(
            m,
            "cloud transcription is not configured. Set OPENAI_API_KEY to enable it."
        ),
        _ => panic!("expected an error"),
    }
    let r = TranscriptionRoute { backend: TranscriptionBackend::OpenAiApi, fallback_reason: None };
    match next_transcription_step(&s, r, Ok(Some(result("t", "m")))) {
        RouteStep::Done(Ok(t)) => assert_eq!(t.provider, "m"),
        _ => panic!("expected a transcript"),
    }
}

#[test]
fn transcripts_and_routes() {
    let s = settings_with(TranscriptionProvider::Auto);
    let t = transcription_result(TranscriptionBackend::WhisperServer, "  hi there\n", &s);
    assert_eq!(t.text, "hi there");
    assert_eq!(t.provider, "whisper-server");
    let t2 = transcription_result(TranscriptionBackend::OpenAiApi, "x", &s);
    assert_eq!(t2.provider, "gpt-4o-mini-transcribe");
    let route = route_decision(&s, &t, Some("why".to_string()));
    assert_eq!(route.requested_backend, "Auto fallback (Auto route)");
    assert_eq!(route.actual_backend, "whisper-server");
    assert_eq!(route.detected_language, "auto");
    assert!(route.fallback_used);
    assert_eq!(route.fallback_reason.as_deref(), Some("why"));
    assert!(!route_decision(&s, &t, None).fallback_used);
}

#[test]
fn whisper_cli_arguments() {
    let mut s = Settings::default();
    assert_eq!(
        whisper_cli_args("m.bin", "a.wav", "/tmp/out/transcript", &s),
        vec!["-m", "m.bin", "-f", "a.wav", "-otxt", "-of", "/tmp/out/transcript", "-nt", "-np", "-fa", "-l", "auto"]
    );
    s.language = "en".to_string();
    s.transcription_hint = " names ".to_string();
    assert_eq!(
        whisper_cli_args("m.bin", "a.wav", "p", &s),
        vec!["-m", "m.bin", "-f", "a.wav", "-otxt", "-of", "p", "-nt", "-np", "-fa", "-l", "en", "--prompt", "names"]
    );
}

#[test]
fn openai_whisper_arguments() {
    let mut s = Settings::default();
    assert_eq!(
        openai_whisper_args("a.wav", "/tmp/o", &s),
        vec!["a.wav", "--model", "base", "--output_format", "txt", "--output_dir", "/tmp/o", "--verbose", "False", "--task", "transcribe"]
    );
    s.language = "de".to_string();
    s.transcription_hint = "hint".to_string();
    let args = openai_whisper_args("a.wav", "/tmp/o", &s);
    assert_eq!(&args[11..], &["--language", "de", "--initial_prompt", "hint"]);
}

#[test]
fn whisper_server_arguments_and_port() {
    assert_eq!(
        whisper_server_args("m.bin", 8178),
        vec!["-m", "m.bin", "--host", "127.0.0.1", "--port", "8178", "-nt", "-fa"]
    );
    assert_eq!(whisper_server_args("m", 0)[5], "0");
    assert_eq!(whisper_server_args("m", 65535)[5], "65535");
    assert_eq!(whisper_server_port(None), 8178);
    assert_eq!(whisper_server_port(Some("9000")), 9000);
    assert_eq!(whisper_server_port(Some("+9000")), 9000);
    assert_eq!(whisper_server_port(Some("007")), 7);
    assert_eq!(whisper_server_port(Some("65535")), 65535);
    assert_eq!(whisper_server_port(Some("65536")), 8178);
    assert_eq!(whisper_server_port(Some("-1")), 8178);
    assert_eq!(whisper_server_port(Some("")), 8178);
    assert_eq!(whisper_server_port(Some("+")), 8178);
    assert_eq!(whisper_server_port(Some(" 80")), 8178);
    assert_eq!(whisper_server_port(Some("80a")), 8178);
    assert!(whisper_server_enabled(Some("1")));
    assert!(!whisper_server_enabled(Some("true")));
    assert!(!whisper_server_enabled(None));
}

fn texts(parts: &[FormPart]) -> Vec<String> {
    parts
        .iter()
        .map(|p| match p {
            FormPart::Text { name, value } => format!("{name}={value}"),
            FormPart::Audio => "<audio>".to_string(),
        })
        .collect()
}

#[test]
fn multipart_forms() {
    let mut s = Settings::default();
    assert_eq!(
        texts(&whisper_server_form(&s)),
        vec!["response_format=json", "language=auto", "<audio>"]
    );
    assert_eq!(
        texts(&openai_transcription_form(&s)),
        vec!["model=gpt-4o-mini-transcribe", "response_format=json", "<audio>"]
    );
    s.language = "fr".to_string();
    s.transcription_hint = "p".to_string();
    assert_eq!(
        texts(&whisper_server_form(&s)),
        vec!["response_format=json", "language=fr", "<audio>", "prompt=p"]
    );
    assert_eq!(
        texts(&openai_transcription_form(&s)),
        vec!["model=gpt-4o-mini-transcribe", "response_format=json", "<audio>", "language=fr", "prompt=p"]
    );
}

#[test]
fn model_files() {
    let mut s = Settings::default();
    assert_eq!(
        whisper_model_candidates(&s),
        vec![
            "models/whisper/ggml-base-q5_1.bin",
            "models/whisper/ggml-base.bin",
            "models/whisper/ggml-base.en.bin",
            "models/whisper/ggml-tiny-q5_1.bin"
        ]
    );
    s.model = voxio::config::ModelSize::Fast;
    assert_eq!(whisper_model_candidates(&s).len(), 2);
    s.model = voxio::config::ModelSize::Small;
    assert_eq!(whisper_model_candidates(&s)[0], "models/whisper/ggml-small.bin");
    assert_eq!(model_min_size("ggml-tiny-q5_1.bin"), 20 * 1024 * 1024);
    assert_eq!(model_min_size("ggml-base.en.bin"), 120 * 1024 * 1024);
    assert_eq!(model_min_size("ggml-small.en.bin"), 230 * 1024 * 1024);
    assert_eq!(model_min_size("custom.bin"), 1);
    assert!(!model_size_looks_complete("ggml-base-q5_1.bin", 50 * 1024 * 1024 - 1));
    assert!(model_size_looks_complete("ggml-base-q5_1.bin", 50 * 1024 * 1024));
    assert!(!model_size_looks_complete("other.bin", 0));
}

#[test]
fn labels_and_errors() {
    assert_eq!(whisper_cli_label(Some("ggml-base.bin")), "whisper-cli (ggml-base.bin)");
    assert_eq!(whisper_cli_label(None), "whisper-cli (model)");
    match whisper_exit_error(Some(-2), "  oops \n") {
        VoxioError::Transcription(m) => assert_eq!(m, "whisper exited with status -2: oops"),
        _ => panic!(),
    }
    match whisper_exit_error(None, "") {
        VoxioError::Transcription(m) => assert_eq!(m, "whisper exited with status unknown: "),
        _ => panic!(),
    }
}

#[test]
fn null_provider_reports_its_notice() {
    let mut p = NullAsrProvider;
    let t = p.stop().unwrap();
    assert_eq!(t.provider, "none");
    assert_eq!(t.text, "Speech recognition pipeline is scaffolded but not connected yet.");
}

#[test]
fn whisper_server_lifecycle_decisions() {
    assert_eq!(server_action(None, 8178, None), ServerAction::Launch);
    assert_eq!(server_action(Some((true, 8178)), 8178, None), ServerAction::CheckHealth);
    assert_eq!(server_action(Some((true, 8178)), 8178, Some(true)), ServerAction::Reuse);
    assert_eq!(server_action(Some((true, 8178)), 8178, Some(false)), ServerAction::Restart);
    assert_eq!(server_action(Some((false, 8178)), 8178, None), ServerAction::Restart);
    assert_eq!(server_action(Some((true, 9000)), 8178, Some(true)), ServerAction::Restart);
}

#[test]
fn health_polling_gives_up_after_sixty_checks() {
    assert_eq!(health_poll(0, true), HealthPoll::Ready);
    assert_eq!(health_poll(0, false), HealthPoll::SleepThenCheck);
    assert_eq!(health_poll(58, false), HealthPoll::SleepThenCheck);
    assert_eq!(health_poll(59, false), HealthPoll::SleepThenGiveUp);
    assert_eq!(health_poll(59, true), HealthPoll::Ready);
    match server_unhealthy_error(8178) {
        VoxioError::Transcription(m) => {
            assert_eq!(m, "whisper-server did not become healthy on port 8178")
        }
        _ => panic!(),
    }
}

#[test]
fn local_backend_preference() {
    let mut s = Settings::default();
    s.local_backend = LocalBackend::Whisper;
    assert_eq!(
        local_backend_found(&s, Some(Some("ggml-base.bin")), true, true).as_deref(),
        Some("whisper-cli (ggml-base.bin)")
    );
    assert_eq!(local_backend_found(&s, Some(None), false, false).as_deref(), Some("whisper-cli (model)"));
    assert_eq!(local_backend_found(&s, None, true, true).as_deref(), Some("openai-whisper"));
    assert_eq!(local_backend_found(&s, None, false, true), None);
    s.local_backend = LocalBackend::SenseVoice;
    assert_eq!(local_backend_found(&s, Some(None), true, true).as_deref(), Some("SenseVoice (coli)"));
    assert_eq!(local_backend_found(&s, Some(None), true, false), None);
    s.local_backend = LocalBackend::Auto;
    assert_eq!(local_backend_found(&s, None, false, true).as_deref(), Some("SenseVoice (coli)"));
    assert_eq!(local_backend_found(&s, None, true, true).as_deref(), Some("SenseVoice (coli)"));
    assert_eq!(local_backend_found(&s, Some(None), true, true).as_deref(), Some("whisper-cli (model)"));
    s.language = "zh".to_string();
    assert_eq!(local_backend_found(&s, Some(None), true, true).as_deref(), Some("SenseVoice (coli)"));
    assert_eq!(local_backend_found(&s, Some(None), true, false).as_deref(), Some("whisper-cli (model)"));
}

#[test]
fn only_coli_makes_the_local_side_ready() {
    let s = Settings::default();
    let found = local_backend_found(&s, None, false, true);
    let st = runtime_status(&s, found, None);
    assert!(st.local_ready);
    assert_eq!(st.local_backend, "SenseVoice (coli)");
    assert_eq!(st.effective_provider, "Local");
}

fn step_to(
    s: &Settings,
    r: TranscriptionRoute,
    outcome: Result<Option<TranscriptionResult>, VoxioError>,
) -> TranscriptionRoute {
    match next_transcription_step(s, r, outcome) {
        RouteStep::Attempt(n) => n,
        other => panic!("expected another attempt, got {:?}", other),
    }
}

#[test]
fn automatic_local_route_follows_the_language() {
    let mut s = settings_with(TranscriptionProvider::Local);
    let r = first_transcription_route(&s);
    assert_eq!(r.backend, TranscriptionBackend::WhisperCli);
    let r = step_to(&s, r, Ok(None));
    assert_eq!(r.backend, TranscriptionBackend::WhisperServer);
    let r = step_to(&s, r, Ok(None));
    assert_eq!(r.backend, TranscriptionBackend::SenseVoice);
    let r = step_to(&s, r, Ok(None));
    assert_eq!(r.backend, TranscriptionBackend::OpenAiWhisper);

    s.language = "ja".to_string();
    let r = first_transcription_route(&s);
    assert_eq!(r.backend, TranscriptionBackend::SenseVoice);
    let r = step_to(&s, r, Ok(None));
    assert_eq!(r.backend, TranscriptionBackend::WhisperCli);
    match next_transcription_step(&s, first_transcription_route(&s), Ok(Some(result("konnichiwa", "sensevoice")))) {
        RouteStep::Done(Ok(t)) => assert_eq!(t.provider, "sensevoice"),
        other => panic!("unexpected {:?}", other),
    }
}

#[test]
fn sense_voice_alone_fails_without_coli() {
    let mut s = settings_with(TranscriptionProvider::Local);
    s.local_backend = LocalBackend::SenseVoice;
    let r = first_transcription_route(&s);
    assert_eq!(r.backend, TranscriptionBackend::SenseVoice);
    match next_transcription_step(&s, r, Ok(None)) {
        RouteStep::Done(Err(VoxioError::Transcription(m))) => {
            assert_eq!(m, "no local transcription backend is available")
        }
        other => panic!("unexpected {:?}", other),
    }
    s.transcription_provider = TranscriptionProvider::Auto;
    let r = step_to(&s, first_transcription_route(&s), Ok(None));
    assert_eq!(r.backend, TranscriptionBackend::OpenAiApi);
    assert_eq!(
        r.fallback_reason.as_deref(),
        Some("transcription failed: no local transcription backend is available")
    );
}

#[test]
fn sense_voice_arguments_and_errors() {
    assert_eq!(sense_voice_args("/tmp/a.wav"), vec!["asr", "/tmp/a.wav"]);
    match tool_exit_error("coli", Some(1), " bad input\n") {
        VoxioError::Transcription(m) => assert_eq!(m, "coli exited with status 1: bad input"),
        _ => panic!(),
    }
    let s = Settings::default();
    assert_eq!(transcription_result(TranscriptionBackend::SenseVoice, " x ", &s).provider, "sensevoice");
}

#[test]
fn status_codes_read_as_reqwest_shows_them() {
    assert_eq!(status_text(200), "200 OK");
    assert_eq!(status_text(404), "404 Not Found");
    assert_eq!(status_text(999), "999 <unknown status code>");
    assert_eq!(status_text(42), "42");
    match openai_status_error(500) {
        VoxioError::Transcription(m) => {
            assert_eq!(m, "OpenAI transcription returned HTTP 500 Internal Server Error")
        }
        _ => panic!(),
    }
}
