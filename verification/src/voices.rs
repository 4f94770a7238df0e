//! The voice store's rules: where a saved voice's files live, and what
//! enrolling or removing one does.

use vstd::prelude::*;
use crate::errors::TtsError;
use crate::strutil::{concat2, has_wav_ext, is_wav_name, join_path, spec_join_path};
use vstd::string::*;

verus! {

/// The reference-audio path of a saved voice: `{name}.wav` under the
/// voices directory.
pub fn saved_voice_wav(voices_dir: &str, name: &str) -> (r: String)
    ensures
        r@ == spec_join_path(voices_dir@, '/', name@ + ".wav"@),
{
    let file = concat2(name, ".wav");
    join_path(voices_dir, file.as_str())
}

/// The transcript path of a saved voice: `{name}.txt` under the voices
/// directory.
pub fn saved_voice_txt(voices_dir: &str, name: &str) -> (r: String)
    ensures
        r@ == spec_join_path(voices_dir@, '/', name@ + ".txt"@),
{
    let file = concat2(name, ".txt");
    join_path(voices_dir, file.as_str())
}

/// What enrolling a voice does once decided.
#[derive(Clone, Copy, PartialEq, Eq, Structural, Debug)]
pub struct AddVoicePlan {
    /// Write the transcript file. Done exactly when a transcript was
    /// supplied.
    pub write_transcript: bool,
}

/// Decides what enrolling a voice does: the reference audio must
/// exist, and the transcript file is written exactly when a transcript
/// was supplied.
pub fn add_voice_plan(src_exists: bool, has_transcript: bool, src_path: &str) -> (r: Result<
    AddVoicePlan,
    TtsError,
>)
    ensures
        !src_exists ==> (r matches Err(e) && e matches TtsError::ReferenceAudioMissing { path }
            && path@ == src_path@),
        src_exists ==> (r matches Ok(p) && p.write_transcript == has_transcript),
{
    if !src_exists {
        Err(TtsError::ReferenceAudioMissing { path: src_path.to_owned() })
    } else {
        Ok(AddVoicePlan { write_transcript: has_transcript })
    }
}

/// What removing a voice does once decided.
#[derive(Clone, Copy, PartialEq, Eq, Structural, Debug)]
pub struct RemoveVoicePlan {
    /// Remove the transcript file too. Done exactly when it exists.
    pub remove_transcript: bool,
}

/// Decides what removing a voice does: the voice's reference audio
/// must exist, and its transcript file is removed exactly when it
/// exists.
pub fn remove_voice_plan(wav_exists: bool, txt_exists: bool, name: &str) -> (r: Result<
    RemoveVoicePlan,
    TtsError,
>)
    ensures
        !wav_exists ==> (r matches Err(e) && e matches TtsError::VoiceNotFound { name: n } && n@
            == name@),
        wav_exists ==> (r matches Ok(p) && p.remove_transcript == txt_exists),
{
    if !wav_exists {
        Err(TtsError::VoiceNotFound { name: name.to_owned() })
    } else {
        Ok(RemoveVoicePlan { remove_transcript: txt_exists })
    }
}

/// The voice name of a directory entry: the stem of a waveform file
/// name, and nothing for any other entry.
pub fn voice_stem(file_name: &str) -> (r: Option<String>)
    ensures
        is_wav_name(file_name@) ==> (r matches Some(s) && s@ == file_name@.subrange(
            0,
            file_name@.len() - 4,
        )),
        !is_wav_name(file_name@) ==> r is None,
{
    if has_wav_ext(file_name) {
        let n = file_name.unicode_len();
        Some(file_name.substring_char(0, n - 4).to_owned())
    } else {
        None
    }
}

} // verus!
