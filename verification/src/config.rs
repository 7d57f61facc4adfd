//! User settings, their defaults, what the transcription backends read from
//! them, and where they are stored.
use vstd::prelude::*;

use crate::text::{is_blank, lit, trim, trimmed};

verus! {

#[derive(Clone, Copy, Debug, PartialEq, Eq, Structural)]
pub enum InjectionMode {
    Auto,
    Accessibility,
    Clipboard,
}

#[derive(Clone, Copy, Debug, PartialEq, Eq, Structural)]
pub enum TranscriptionProvider {
    Local,
    Cloud,
    Auto,
}

/// Which local engine the local provider is asked for.
#[derive(Clone, Copy, Debug, PartialEq, Eq, Structural)]
pub enum LocalBackend {
    Auto,
    Whisper,
    SenseVoice,
}

#[derive(Clone, Copy, Debug, PartialEq, Eq, Structural)]
pub enum CloudModel {
    Fast,
    Accurate,
}

#[derive(Clone, Copy, Debug, PartialEq, Eq, Structural)]
pub enum ModelSize {
    Fast,
    Balanced,
    Small,
}

#[derive(Debug)]
pub struct Settings {
    pub hotkey: String,
    pub language: String,
    pub local_backend: LocalBackend,
    pub transcription_hint: String,
    pub vocabulary_terms: String,
    pub auto_punctuation: bool,
    pub silence_timeout_ms: u64,
    pub injection_mode: InjectionMode,
    pub transcription_provider: TranscriptionProvider,
    pub cloud_model: CloudModel,
    pub model: ModelSize,
    pub launch_at_login: bool,
}

/// The settings a first start runs with.
pub open spec fn is_default_settings(s: Settings) -> bool {
    &&& s.hotkey@ == "Option+Space"@
    &&& s.language@ == "auto"@
    &&& s.local_backend == LocalBackend::Auto
    &&& s.transcription_hint@ == Seq::<char>::empty()
    &&& s.vocabulary_terms@ == Seq::<char>::empty()
    &&& s.auto_punctuation
    &&& s.silence_timeout_ms == 1200
    &&& s.injection_mode == InjectionMode::Auto
    &&& s.transcription_provider == TranscriptionProvider::Local
    &&& s.cloud_model == CloudModel::Fast
    &&& s.model == ModelSize::Balanced
    &&& !s.launch_at_login
}

impl Default for Settings {
    fn default() -> (r: Self)
        ensures
            is_default_settings(r),
    {
        Settings {
            hotkey: lit("Option+Space"),
            language: lit("auto"),
            local_backend: LocalBackend::Auto,
            transcription_hint: String::new(),
            vocabulary_terms: String::new(),
            auto_punctuation: true,
            silence_timeout_ms: 1200,
            injection_mode: InjectionMode::Auto,
            transcription_provider: TranscriptionProvider::Local,
            cloud_model: CloudModel::Fast,
            model: ModelSize::Balanced,
            launch_at_login: false,
        }
    }
}

impl Clone for Settings {
    fn clone(&self) -> (r: Self)
        ensures
            r == *self,
    {
        Settings {
            hotkey: self.hotkey.clone(),
            language: self.language.clone(),
            local_backend: self.local_backend,
            transcription_hint: self.transcription_hint.clone(),
            vocabulary_terms: self.vocabulary_terms.clone(),
            auto_punctuation: self.auto_punctuation,
            silence_timeout_ms: self.silence_timeout_ms,
            injection_mode: self.injection_mode,
            transcription_provider: self.transcription_provider,
            cloud_model: self.cloud_model,
            model: self.model,
            launch_at_login: self.launch_at_login,
        }
    }
}

/// The language handed to Whisper: none for automatic detection.
pub open spec fn language_choice(s: &Settings) -> Option<Seq<char>> {
    if s.language@ == "auto"@ {
        None
    } else {
        Some(s.language@)
    }
}

/// The prompt hint, trimmed, when it holds more than white space.
pub open spec fn hint_choice(s: &Settings) -> Option<Seq<char>> {
    if is_blank(s.transcription_hint@) {
        None
    } else {
        Some(trimmed(s.transcription_hint@))
    }
}

/// The Whisper model name for a model size.
pub open spec fn whisper_model_name(m: ModelSize) -> Seq<char> {
    match m {
        ModelSize::Fast => "tiny"@,
        ModelSize::Balanced => "base"@,
        ModelSize::Small => "small"@,
    }
}

/// The OpenAI transcription model for a cloud model choice.
pub open spec fn openai_model_name(m: CloudModel) -> Seq<char> {
    match m {
        CloudModel::Fast => "gpt-4o-mini-transcribe"@,
        CloudModel::Accurate => "gpt-4o-transcribe"@,
    }
}

pub open spec fn opt_str(o: Option<&str>) -> Option<Seq<char>> {
    match o {
        Some(v) => Some(v@),
        None => None,
    }
}

impl Settings {
    /// The language for Whisper, or `None` when it is set to `auto`.
    pub fn whisper_language(&self) -> (r: Option<&str>)
        ensures
            opt_str(r) == language_choice(self),
    {
        let auto = lit("auto");
        if self.language == auto {
            None
        } else {
            Some(self.language.as_str())
        }
    }

    /// The prompt hint without surrounding white space, or `None` when blank.
    pub fn transcription_hint(&self) -> (r: Option<&str>)
        ensures
            opt_str(r) == hint_choice(self),
    {
        let value = trim(self.transcription_hint.as_str());
        if value.unicode_len() == 0 {
            None
        } else {
            Some(value)
        }
    }

    pub fn whisper_model(&self) -> (r: &str)
        ensures
            r@ == whisper_model_name(self.model),
    {
        match self.model {
            ModelSize::Fast => "tiny",
            ModelSize::Balanced => "base",
            ModelSize::Small => "small",
        }
    }

    pub fn openai_transcription_model(&self) -> (r: &str)
        ensures
            r@ == openai_model_name(self.cloud_model),
    {
        match self.cloud_model {
            CloudModel::Fast => "gpt-4o-mini-transcribe",
            CloudModel::Accurate => "gpt-4o-transcribe",
        }
    }
}

/// `base` joined with the relative path component `part`, as `PathBuf::push`
/// joins them on Unix: paths are their platform bytes, and `/` (byte 47)
/// separates components.
pub open spec fn path_join(base: Seq<u8>, part: Seq<u8>) -> Seq<u8> {
    if base.len() == 0 {
        part
    } else if base.last() == 47u8 {
        base + part
    } else {
        base.push(47u8) + part
    }
}

/// The bytes of `voxio`.
pub open spec fn app_dir_name() -> Seq<u8> {
    seq![118u8, 111u8, 120u8, 105u8, 111u8]
}

/// The bytes of `config.json`.
pub open spec fn config_file_name() -> Seq<u8> {
    seq![99u8, 111u8, 110u8, 102u8, 105u8, 103u8, 46u8, 106u8, 115u8, 111u8, 110u8]
}

/// Where the settings file lies under a configuration directory (the working
/// directory `.` when there is none).
pub open spec fn config_path_under(dir: Option<Seq<u8>>) -> Seq<u8> {
    let base = match dir {
        Some(d) => d,
        None => seq![46u8],
    };
    path_join(path_join(base, app_dir_name()), config_file_name())
}

fn join_path(base: Vec<u8>, part: &Vec<u8>) -> (r: Vec<u8>)
    ensures
        r@ == path_join(base@, part@),
{
    let mut r = base;
    let n = r.len();
    if n > 0 && r[n - 1] != 47u8 {
        r.push(47u8);
    }
    let mut i: usize = 0;
    let ghost start = r@;
    while i < part.len()
        invariant
            0 <= i <= part@.len(),
            r@ == start + part@.take(i as int),
        decreases part@.len() - i,
    {
        r.push(part[i]);
        proof {
            assert(part@.take(i + 1) =~= part@.take(i as int).push(part@[i as int]));
        }
        i = i + 1;
    }
    proof {
        assert(part@.take(part@.len() as int) =~= part@);
        if base@.len() == 0 {
            assert(start =~= Seq::<u8>::empty());
            assert(r@ =~= part@);
        }
    }
    r
}

/// The path of the settings file under a configuration directory, as bytes.
pub fn config_file_path(dir: Option<Vec<u8>>) -> (r: Vec<u8>)
    ensures
        r@ == config_path_under(
            match dir {
                Some(d) => Some(d@),
                None => None,
            },
        ),
{
    let base = match dir {
        Some(d) => d,
        None => vec![46u8],
    };
    let voxio = vec![118u8, 111u8, 120u8, 105u8, 111u8];
    let config = vec![99u8, 111u8, 110u8, 102u8, 105u8, 103u8, 46u8, 106u8, 115u8, 111u8, 110u8];
    assert(voxio@ =~= app_dir_name());
    assert(config@ =~= config_file_name());
    let app_dir = join_path(base, &voxio);
    join_path(app_dir, &config)
}

/// `dirs::config_dir`: the user's configuration directory, as the bytes of
/// its platform string (`OsString::into_encoded_bytes`, which loses nothing).
/// It depends on the environment and the platform, so nothing is stated of it.
#[verifier::external_body]
fn user_config_dir() -> (r: Option<Vec<u8>>) {
    match dirs::config_dir() {
        Some(p) => Some(p.into_os_string().into_encoded_bytes()),
        None => None,
    }
}

/// Knows where the settings file is kept.
pub struct ConfigStore {
    path: Vec<u8>,
}

impl ConfigStore {
    /// The path of the settings file, as the bytes of its platform string.
    pub closed spec fn path_bytes(&self) -> Seq<u8> {
        self.path@
    }

    /// The store for `<config dir>/voxio/config.json`.
    pub fn new() -> (r: Self)
        ensures
            exists|dir: Option<Seq<u8>>| r.path_bytes() == config_path_under(dir),
    {
        let dir = user_config_dir();
        let ghost d = match &dir {
            Some(v) => Some(v@),
            None => None,
        };
        let path = config_file_path(dir);
        let r = ConfigStore { path };
        assert(r.path_bytes() == config_path_under(d));
        r
    }

    /// A store for the settings file at a given path.
    pub fn at(path: Vec<u8>) -> (r: Self)
        ensures
            r.path_bytes() == path@,
    {
        ConfigStore { path }
    }

    pub fn path(&self) -> (r: &[u8])
        ensures
            r@ == self.path_bytes(),
    {
        self.path.as_slice()
    }
}

} // verus!
