//! The library's error taxonomy: usage errors, missing resources, and
//! external-process failures, each with its user-facing message.

use vstd::prelude::*;
use crate::strutil::{concat2, concat3};

verus! {

/// Everything that can go wrong inside the orchestration core.
#[derive(Debug)]
pub enum TtsError {
    /// A model variant outside the supported vocabulary was named.
    UnknownVariant { variant: String },
    /// A backend string other than mlx, cuda or cpu was given.
    UnknownBackend { value: String },
    /// A configuration key that does not exist was named.
    UnknownConfigKey { key: String },
    /// The configured model variant may only be one of the two aliases.
    InvalidVariantSetting,
    /// A boolean configuration value was not `true` or `false`.
    InvalidBool { value: String },
    /// A speed configuration value was not a number.
    InvalidSpeed { value: String },
    /// Clone mode was given neither a reference audio path nor a saved voice.
    MissingReference,
    /// Clone mode was given both a reference audio path and a saved voice.
    BothReferences,
    /// A saved voice was named whose reference audio is absent.
    VoiceAudioMissing { name: String },
    /// A saved voice was named that does not exist.
    VoiceNotFound { name: String },
    /// A caller-supplied reference audio file is absent.
    ReferenceAudioMissing { path: String },
    /// The interactive editor was cancelled or returned nothing.
    NoText,
    /// The inference engine exited with a non-zero status.
    GenerationFailed,
    /// The fallback download strategy failed; the download is fatal.
    CloneFailed { repo: String },
}

/// The user-facing message of each error.
pub open spec fn error_message_spec(e: TtsError) -> Seq<char> {
    match e {
        TtsError::UnknownVariant { variant } => "unknown variant: "@ + variant@
            + "\nAvailable: base, base-4bit, custom, custom-4bit, design, design-4bit"@,
        TtsError::UnknownBackend { value } => "unknown backend: "@ + value@
            + " (expected mlx, cuda, or cpu)"@,
        TtsError::UnknownConfigKey { key } => "unknown config key: "@ + key@,
        TtsError::InvalidVariantSetting => "model_variant must be 'pro' or 'lite'"@,
        TtsError::InvalidBool { value } => "invalid bool: "@ + value@,
        TtsError::InvalidSpeed { value } => "invalid speed: "@ + value@,
        TtsError::MissingReference => "provide either --ref <audio_file> or --voice <saved_voice>"@,
        TtsError::BothReferences => "provide only one of --ref <audio_file> and --voice <saved_voice>"@,
        TtsError::VoiceAudioMissing { name } => "voice '"@ + name@ + "' not found (no "@ + name@
            + ".wav in voices dir)"@,
        TtsError::VoiceNotFound { name } => "voice '"@ + name@ + "' not found"@,
        TtsError::ReferenceAudioMissing { path } => "reference audio not found: "@ + path@,
        TtsError::NoText => "no text provided (editor cancelled)"@,
        TtsError::GenerationFailed => "TTS generation failed"@,
        TtsError::CloneFailed { repo } => "git clone failed for "@ + repo@,
    }
}

impl TtsError {
    /// Renders the error for the user.
    pub fn message(&self) -> (r: String)
        ensures
            r@ == error_message_spec(*self),
    {
        let r = match self {
            TtsError::UnknownVariant { variant } => concat3(
                "unknown variant: ",
                variant.as_str(),
                "\nAvailable: base, base-4bit, custom, custom-4bit, design, design-4bit",
            ),
            TtsError::UnknownBackend { value } => concat3(
                "unknown backend: ",
                value.as_str(),
                " (expected mlx, cuda, or cpu)",
            ),
            TtsError::UnknownConfigKey { key } => concat2("unknown config key: ", key.as_str()),
            TtsError::InvalidVariantSetting => String::from_str(
                "model_variant must be 'pro' or 'lite'",
            ),
            TtsError::InvalidBool { value } => concat2("invalid bool: ", value.as_str()),
            TtsError::InvalidSpeed { value } => concat2("invalid speed: ", value.as_str()),
            TtsError::MissingReference => String::from_str(
                "provide either --ref <audio_file> or --voice <saved_voice>",
            ),
            TtsError::BothReferences => String::from_str(
                "provide only one of --ref <audio_file> and --voice <saved_voice>",
            ),
            TtsError::VoiceAudioMissing { name } => {
                let head = concat3("voice '", name.as_str(), "' not found (no ");
                head.concat(name.as_str()).concat(".wav in voices dir)")
            },
            TtsError::VoiceNotFound { name } => concat3("voice '", name.as_str(), "' not found"),
            TtsError::ReferenceAudioMissing { path } => concat2(
                "reference audio not found: ",
                path.as_str(),
            ),
            TtsError::NoText => String::from_str("no text provided (editor cancelled)"),
            TtsError::GenerationFailed => String::from_str("TTS generation failed"),
            TtsError::CloneFailed { repo } => concat2("git clone failed for ", repo.as_str()),
        };
        proof {
            assert(r@ =~= error_message_spec(*self));
        }
        r
    }
}

} // verus!
