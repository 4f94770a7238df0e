//! The generation command builder: per-mode instruction derivation,
//! clone-mode reference resolution, and the exact argument vector
//! handed to the external inference engine.

use vstd::prelude::*;
use crate::errors::TtsError;
use crate::platform::Backend;
use crate::strutil::{concat2, concat3};
use vstd::string::*;

verus! {

/// The view of an optional string.
pub open spec fn opt_view(o: Option<String>) -> Option<Seq<char>> {
    match o {
        Some(s) => Some(s@),
        None => None,
    }
}

/// Where the text to speak comes from: exactly one source is used.
pub enum TextSource {
    /// Text supplied directly on the command line.
    Literal(String),
    /// Text to be read from this file.
    FromFile(String),
    /// Text to be collected from the interactive editor.
    Editor,
}

/// Decides the text source: literal text wins, then a file, and with
/// neither the interactive editor is opened.
pub fn text_source(text: Option<&String>, file: Option<&String>) -> (r: TextSource)
    ensures
        text matches Some(t) ==> (r matches TextSource::Literal(s) && s@ == t@),
        text is None ==> (file matches Some(f) ==> (r matches TextSource::FromFile(s) && s@
            == f@)),
        text is None && file is None ==> r matches TextSource::Editor,
{
    match text {
        Some(t) => TextSource::Literal(t.clone()),
        None => match file {
            Some(f) => TextSource::FromFile(f.clone()),
            None => TextSource::Editor,
        },
    }
}

/// Accepts what the interactive editor returned: nonempty text is
/// taken verbatim; a cancelled or empty editor is the no-text error.
pub fn text_from_editor(result: Option<String>) -> (r: Result<String, TtsError>)
    ensures
        (match result {
            Some(t) => t@.len() > 0,
            None => false,
        }) ==> (r matches Ok(s) && s@ == opt_view(result)->Some_0),
        (match result {
            Some(t) => t@.len() == 0,
            None => true,
        }) ==> (r matches Err(e) && e matches TtsError::NoText),
{
    match result {
        Some(t) => {
            if t.as_str().is_empty() {
                Err(TtsError::NoText)
            } else {
                Ok(t)
            }
        },
        None => Err(TtsError::NoText),
    }
}

/// An explicit value, or the configured default where none was given.
pub fn or_default(explicit: Option<&String>, default: &str) -> (r: String)
    ensures
        explicit matches Some(v) ==> r@ == v@,
        explicit is None ==> r@ == default@,
{
    match explicit {
        Some(v) => v.clone(),
        None => default.to_owned(),
    }
}

/// The speak-mode instruction for a voice and an optional emotion.
pub open spec fn speak_instruction_spec(voice: Seq<char>, emotion: Option<Seq<char>>) -> Seq<
    char,
> {
    match emotion {
        Some(e) => "Speak as "@ + voice + " with "@ + e + " emotion."@,
        None => "Speak as "@ + voice + "."@,
    }
}

/// Derives the speak-mode instruction: the voice personality, with the
/// emotion clause present exactly when an emotion was supplied.
pub fn speak_instruction(voice: &str, emotion: Option<&String>) -> (r: String)
    ensures
        emotion matches Some(e) ==> r@ == speak_instruction_spec(voice@, Some(e@)),
        emotion is None ==> r@ == speak_instruction_spec(voice@, None),
{
    match emotion {
        Some(e) => {
            let head = concat3("Speak as ", voice, " with ");
            let r = head.concat(e.as_str()).concat(" emotion.");
            proof {
                assert(r@ =~= speak_instruction_spec(voice@, Some(e@)));
            }
            r
        },
        None => {
            let r = concat3("Speak as ", voice, ".");
            proof {
                assert(r@ =~= speak_instruction_spec(voice@, None));
            }
            r
        },
    }
}

/// The fixed clone-mode instruction handed to the engine.
pub fn clone_instruction() -> (r: &'static str)
    ensures
        r@ == "Clone the voice from the reference audio."@,
{
    "Clone the voice from the reference audio."
}

/// Which reference the clone mode uses.
#[derive(Debug)]
pub enum CloneSource {
    /// A voice saved in the voices directory, by name.
    SavedVoice { name: String },
    /// A reference audio file supplied directly by path.
    DirectPath { path: String },
}

/// Decides the clone reference: exactly one of a saved-voice name and
/// a direct reference path must be supplied; both and neither are
/// usage errors.
pub fn clone_reference_plan(voice: Option<&String>, ref_audio: Option<&String>) -> (r: Result<
    CloneSource,
    TtsError,
>)
    ensures
        voice is Some && ref_audio is Some ==> (r matches Err(e)
            && e matches TtsError::BothReferences),
        voice is None && ref_audio is None ==> (r matches Err(e)
            && e matches TtsError::MissingReference),
        ref_audio is None ==> (voice matches Some(v) ==> (r matches Ok(c)
            && c matches CloneSource::SavedVoice { name } && name@ == v@)),
        voice is None ==> (ref_audio matches Some(p) ==> (r matches Ok(c)
            && c matches CloneSource::DirectPath { path } && path@ == p@)),
{
    match (voice, ref_audio) {
        (Some(_), Some(_)) => Err(TtsError::BothReferences),
        (None, None) => Err(TtsError::MissingReference),
        (Some(v), None) => Ok(CloneSource::SavedVoice { name: v.clone() }),
        (None, Some(p)) => Ok(CloneSource::DirectPath { path: p.clone() }),
    }
}

/// A resolved clone reference: the audio to imitate and its optional
/// transcript.
#[derive(Debug)]
pub struct CloneReference {
    pub ref_audio: String,
    pub ref_text: Option<String>,
}

/// Resolves a saved voice into a clone reference. The voice's `.wav`
/// must exist; its transcript is the caller's override where one was
/// passed, else the voice's transcript file where it exists, else
/// nothing.
pub fn resolve_saved_reference(
    name: &str,
    wav_path: &str,
    wav_exists: bool,
    transcript_file: Option<String>,
    override_text: Option<String>,
) -> (r: Result<CloneReference, TtsError>)
    ensures
        !wav_exists ==> (r matches Err(e) && e matches TtsError::VoiceAudioMissing { name: n }
            && n@ == name@),
        wav_exists ==> (r matches Ok(c) && c.ref_audio@ == wav_path@ && opt_view(c.ref_text)
            == (if override_text is Some {
            opt_view(override_text)
        } else {
            opt_view(transcript_file)
        })),
{
    if !wav_exists {
        Err(TtsError::VoiceAudioMissing { name: name.to_owned() })
    } else {
        match override_text {
            Some(t) => Ok(CloneReference { ref_audio: wav_path.to_owned(), ref_text: Some(t) }),
            None => Ok(CloneReference { ref_audio: wav_path.to_owned(), ref_text: transcript_file }),
        }
    }
}

/// Everything the engine invocation needs, already resolved to plain
/// values. The speed multiplier is the digit string passed verbatim.
pub struct TtsParams {
    pub text: String,
    pub instruct: String,
    pub speed: String,
    pub output_path: String,
    pub ref_audio: Option<String>,
    pub ref_text: Option<String>,
    pub voice: Option<String>,
}

/// The mathematical content of [`TtsParams`].
pub ghost struct TtsParamsView {
    pub text: Seq<char>,
    pub instruct: Seq<char>,
    pub speed: Seq<char>,
    pub output_path: Seq<char>,
    pub ref_audio: Option<Seq<char>>,
    pub ref_text: Option<Seq<char>>,
    pub voice: Option<Seq<char>>,
}

impl View for TtsParams {
    type V = TtsParamsView;

    open spec fn view(&self) -> TtsParamsView {
        TtsParamsView {
            text: self.text@,
            instruct: self.instruct@,
            speed: self.speed@,
            output_path: self.output_path@,
            ref_audio: opt_view(self.ref_audio),
            ref_text: opt_view(self.ref_text),
            voice: opt_view(self.voice),
        }
    }
}

/// The engine entry point for a backend: the Apple backend invokes a
/// fixed module, while the portable backends invoke a compatibility
/// script under the base installation directory.
pub open spec fn entry_args_spec(backend: Backend, base_dir: Seq<char>) -> Seq<Seq<char>> {
    match backend {
        Backend::Mlx => seq!["-m"@, "mlx_audio.tts.generate"@],
        Backend::Cuda => seq![base_dir + "/generate_compat.py"@],
        Backend::Cpu => seq![base_dir + "/generate_compat.py"@],
    }
}

/// The full argument vector of one engine invocation: the entry point,
/// the fixed flag vocabulary with the resolved model, text,
/// instruction, speed and output path, the optional voice, the
/// always-set join flag, and the optional clone reference.
pub open spec fn tts_argv_spec(
    backend: Backend,
    base_dir: Seq<char>,
    model: Seq<char>,
    p: TtsParamsView,
) -> Seq<Seq<char>> {
    entry_args_spec(backend, base_dir) + seq![
        "--model"@,
        model,
        "--text"@,
        p.text,
        "--instruct"@,
        p.instruct,
        "--speed"@,
        p.speed,
        "--output_path"@,
        p.output_path,
    ] + (match p.voice {
        Some(v) => seq!["--voice"@, v],
        None => Seq::empty(),
    }) + seq!["--join_audio"@] + (match p.ref_audio {
        Some(ra) => seq!["--ref_audio"@, ra],
        None => Seq::empty(),
    }) + (match p.ref_text {
        Some(rt) => seq!["--ref_text"@, rt],
        None => Seq::empty(),
    })
}

/// Builds the engine's argument vector (see [`tts_argv_spec`]).
pub fn build_tts_argv(backend: Backend, base_dir: &str, model: &str, params: &TtsParams) -> (r:
    Vec<String>)
    ensures
        r.deep_view() == tts_argv_spec(backend, base_dir@, model@, params@),
{
    let mut r: Vec<String> = Vec::new();
    match backend {
        Backend::Mlx => {
            r.push(String::from_str("-m"));
            r.push(String::from_str("mlx_audio.tts.generate"));
        },
        Backend::Cuda | Backend::Cpu => {
            r.push(concat2(base_dir, "/generate_compat.py"));
        },
    }
    r.push(String::from_str("--model"));
    r.push(model.to_owned());
    r.push(String::from_str("--text"));
    r.push(params.text.clone());
    r.push(String::from_str("--instruct"));
    r.push(params.instruct.clone());
    r.push(String::from_str("--speed"));
    r.push(params.speed.clone());
    r.push(String::from_str("--output_path"));
    r.push(params.output_path.clone());
    match &params.voice {
        Some(v) => {
            r.push(String::from_str("--voice"));
            r.push(v.clone());
        },
        None => {},
    }
    r.push(String::from_str("--join_audio"));
    match &params.ref_audio {
        Some(ra) => {
            r.push(String::from_str("--ref_audio"));
            r.push(ra.clone());
        },
        None => {},
    }
    match &params.ref_text {
        Some(rt) => {
            r.push(String::from_str("--ref_text"));
            r.push(rt.clone());
        },
        None => {},
    }
    proof {
        assert(r.deep_view() =~= tts_argv_spec(backend, base_dir@, model@, params@));
    }
    r
}

} // verus!
