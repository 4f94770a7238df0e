//! Output resolution: where generated audio goes, and which file the
//! engine actually produced.

use vstd::prelude::*;
use crate::config::{spec_expand, expand_path_with};
use crate::strutil::{
    has_wav_ext,
    is_wav_name,
    join_path,
    lemma_concat_cancel_left,
    lemma_dec_injective,
    lemma_lex_refl,
    lemma_lex_total,
    lemma_lex_trans,
    lex_le,
    lex_leq,
    spec_dec,
    spec_join_path,
    str_eq,
    u64_to_dec,
};
use vstd::string::*;

verus! {

/// What the requested output path names on disk once the engine has
/// exited.
#[derive(Clone, Copy, PartialEq, Eq, Structural, Debug)]
pub enum PathKind {
    /// An existing directory.
    Directory,
    /// An existing plain file.
    File,
    /// Nothing exists at the path.
    Missing,
}

/// The automatically generated output path: a timestamped name under
/// the expanded output directory.
pub open spec fn auto_output_spec(output_dir: Seq<char>, home: Seq<char>, now: nat) -> Seq<char> {
    spec_expand(output_dir, home) + "/tts_"@ + spec_dec(now)
}

/// Computes the destination for generated audio: an explicit path is
/// used after tilde expansion; otherwise a name embedding the Unix
/// timestamp is synthesized under the configured output directory.
pub fn resolve_output(explicit: Option<&str>, output_dir: &str, home: &str, now_secs: u64) -> (r:
    String)
    ensures
        explicit matches Some(p) ==> r@ == spec_expand(p@, home@),
        explicit is None ==> r@ == auto_output_spec(output_dir@, home@, now_secs as nat),
{
    match explicit {
        Some(p) => expand_path_with(p, home),
        None => {
            let dir = expand_path_with(output_dir, home);
            let ts = u64_to_dec(now_secs);
            let r = dir.concat("/tts_").concat(ts.as_str());
            proof {
                assert(r@ =~= auto_output_spec(output_dir@, home@, now_secs as nat));
            }
            r
        },
    }
}

/// Two automatically generated output paths never collide when their
/// timestamps differ.
pub proof fn lemma_auto_output_no_collision(
    output_dir: Seq<char>,
    home: Seq<char>,
    t1: nat,
    t2: nat,
)
    requires
        t1 != t2,
    ensures
        auto_output_spec(output_dir, home, t1) != auto_output_spec(output_dir, home, t2),
{
    if auto_output_spec(output_dir, home, t1) == auto_output_spec(output_dir, home, t2) {
        let p = spec_expand(output_dir, home) + "/tts_"@;
        lemma_concat_cancel_left(p, spec_dec(t1), spec_dec(t2));
        lemma_dec_injective(t1, t2);
    }
}

/// Whether a list of names holds one equal to `name`.
pub open spec fn contains_name(entries: Seq<Seq<char>>, name: Seq<char>) -> bool {
    exists|i: int| 0 <= i < entries.len() && entries[i] == name
}

/// Normalizes what the engine produced into one playable file. For a
/// directory, the canonical joined output `audio.wav` wins; otherwise
/// the lexicographically smallest waveform name inside is taken; a
/// directory without waveforms yields nothing. A plain existing file is
/// returned unchanged, and a missing path yields nothing.
pub fn locate_produced_file(output_path: &str, kind: PathKind, entries: &Vec<String>) -> (r:
    Option<String>)
    ensures
        kind == PathKind::File ==> (r matches Some(p) && p@ == output_path@),
        kind == PathKind::Missing ==> r is None,
        kind == PathKind::Directory && contains_name(entries.deep_view(), "audio.wav"@) ==> (
        r matches Some(p) && p@ == spec_join_path(output_path@, '/', "audio.wav"@)),
        kind == PathKind::Directory && !contains_name(entries.deep_view(), "audio.wav"@) && (
        exists|i: int|
            0 <= i < entries.deep_view().len() && is_wav_name(entries.deep_view()[i])) ==> (
        r matches Some(p) && (exists|k: int|
            0 <= k < entries.deep_view().len() && is_wav_name(entries.deep_view()[k]) && p@
                == spec_join_path(output_path@, '/', entries.deep_view()[k]) && (forall|j: int|
                0 <= j < entries.deep_view().len() && is_wav_name(entries.deep_view()[j])
                    ==> lex_leq(entries.deep_view()[k], entries.deep_view()[j])))),
        kind == PathKind::Directory && !contains_name(entries.deep_view(), "audio.wav"@) && !(
        exists|i: int|
            0 <= i < entries.deep_view().len() && is_wav_name(entries.deep_view()[i])) ==> r
            is None,
{
    let ghost dv = entries.deep_view();
    match kind {
        PathKind::File => Some(output_path.to_owned()),
        PathKind::Missing => None,
        PathKind::Directory => {
            let mut i: usize = 0;
            let mut found_joined = false;
            while i < entries.len()
                invariant
                    i <= entries.len(),
                    dv == entries.deep_view(),
                    found_joined ==> contains_name(dv, "audio.wav"@),
                    !found_joined ==> (forall|j: int| 0 <= j < i ==> dv[j] != "audio.wav"@),
                decreases entries.len() - i,
            {
                if str_eq(entries[i].as_str(), "audio.wav") {
                    proof {
                        assert(dv[i as int] == "audio.wav"@);
                    }
                    found_joined = true;
                }
                i = i + 1;
            }
            if found_joined {
                Some(join_path(output_path, "audio.wav"))
            } else {
                assert(!contains_name(dv, "audio.wav"@));
                let mut best: Option<usize> = None;
                let mut j: usize = 0;
                while j < entries.len()
                    invariant
                        j <= entries.len(),
                        dv == entries.deep_view(),
                        best matches Some(b) ==> (b < j && is_wav_name(dv[b as int]) && (forall|
                            m: int,
                        | 0 <= m < j && is_wav_name(dv[m]) ==> lex_leq(dv[b as int], dv[m]))),
                        best is None ==> (forall|m: int| 0 <= m < j ==> !is_wav_name(dv[m])),
                    decreases entries.len() - j,
                {
                    if has_wav_ext(entries[j].as_str()) {
                        match best {
                            None => {
                                proof {
                                    lemma_lex_refl(dv[j as int]);
                                }
                                best = Some(j);
                            },
                            Some(b) => {
                                if lex_le(entries[j].as_str(), entries[b].as_str()) {
                                    proof {
                                        assert forall|m: int|
                                            0 <= m < j && is_wav_name(dv[m]) implies lex_leq(
                                            dv[j as int],
                                            dv[m],
                                        ) by {
                                            lemma_lex_trans(dv[j as int], dv[b as int], dv[m]);
                                        }
                                        lemma_lex_refl(dv[j as int]);
                                    }
                                    best = Some(j);
                                } else {
                                    proof {
                                        lemma_lex_total(dv[j as int], dv[b as int]);
                                    }
                                }
                            },
                        }
                    }
                    j = j + 1;
                }
                match best {
                    Some(b) => Some(join_path(output_path, entries[b].as_str())),
                    None => None,
                }
            }
        },
    }
}

} // verus!
