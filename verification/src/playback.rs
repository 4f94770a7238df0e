//! The playback fallback chain: which files to play, in which order,
//! and which player programs to try for each.

use vstd::prelude::*;
use crate::platform::Os;
use crate::strutil::{
    has_wav_ext,
    is_wav_name,
    join_path,
    lex_sorted,
    sort_lex,
    spec_join_path,
};
use vstd::string::*;

verus! {

/// One candidate player invocation: a program and its arguments,
/// including the file to play.
pub struct PlayerCommand {
    pub program: String,
    pub args: Vec<String>,
}

/// The mathematical content of a [`PlayerCommand`].
pub ghost struct PlayerCommandView {
    pub program: Seq<char>,
    pub args: Seq<Seq<char>>,
}

impl View for PlayerCommand {
    type V = PlayerCommandView;

    open spec fn view(&self) -> PlayerCommandView {
        PlayerCommandView { program: self.program@, args: self.args.deep_view() }
    }
}

/// The player programs for a platform, in priority order: the native
/// player alone on macOS and Windows, and three generic fallbacks on
/// Linux.
pub open spec fn players_spec(os: Os, path: Seq<char>) -> Seq<PlayerCommandView> {
    match os {
        Os::MacOs => seq![PlayerCommandView { program: "afplay"@, args: seq![path] }],
        Os::Windows => seq![
            PlayerCommandView {
                program: "powershell"@,
                args: seq![
                    "-c"@,
                    "(New-Object Media.SoundPlayer '"@ + path + "').PlaySync()"@,
                ],
            },
        ],
        Os::Linux => seq![
            PlayerCommandView { program: "aplay"@, args: seq![path] },
            PlayerCommandView { program: "paplay"@, args: seq![path] },
            PlayerCommandView {
                program: "ffplay"@,
                args: seq!["-nodisp"@, "-autoexit"@, path],
            },
        ],
    }
}

/// Builds the candidate player invocations for one file, in the
/// priority order of [`players_spec`].
pub fn player_invocations(os: Os, path: &str) -> (r: Vec<PlayerCommand>)
    ensures
        r@.len() == players_spec(os, path@).len(),
        forall|i: int| 0 <= i < r@.len() ==> r@[i]@ == players_spec(os, path@)[i],
{
    match os {
        Os::MacOs => {
            let mut args: Vec<String> = Vec::new();
            args.push(path.to_owned());
            let mut r: Vec<PlayerCommand> = Vec::new();
            r.push(PlayerCommand { program: String::from_str("afplay"), args });
            proof {
                assert(r@[0]@.args =~= players_spec(os, path@)[0].args);
            }
            r
        },
        Os::Windows => {
            let script = crate::strutil::concat3(
                "(New-Object Media.SoundPlayer '",
                path,
                "').PlaySync()",
            );
            let mut args: Vec<String> = Vec::new();
            args.push(String::from_str("-c"));
            args.push(script);
            let mut r: Vec<PlayerCommand> = Vec::new();
            r.push(PlayerCommand { program: String::from_str("powershell"), args });
            proof {
                assert(r@[0]@.args =~= players_spec(os, path@)[0].args);
            }
            r
        },
        Os::Linux => {
            let mut args1: Vec<String> = Vec::new();
            args1.push(path.to_owned());
            let mut args2: Vec<String> = Vec::new();
            args2.push(path.to_owned());
            let mut args3: Vec<String> = Vec::new();
            args3.push(String::from_str("-nodisp"));
            args3.push(String::from_str("-autoexit"));
            args3.push(path.to_owned());
            let mut r: Vec<PlayerCommand> = Vec::new();
            r.push(PlayerCommand { program: String::from_str("aplay"), args: args1 });
            r.push(PlayerCommand { program: String::from_str("paplay"), args: args2 });
            r.push(PlayerCommand { program: String::from_str("ffplay"), args: args3 });
            proof {
                assert(r@[0]@.args =~= players_spec(os, path@)[0].args);
                assert(r@[1]@.args =~= players_spec(os, path@)[1].args);
                assert(r@[2]@.args =~= players_spec(os, path@)[2].args);
            }
            r
        },
    }
}

/// The playable files inside a directory: every waveform entry, as a
/// full path, in the order the entries were listed.
pub open spec fn playable_entries(path: Seq<char>, entries: Seq<Seq<char>>) -> Seq<Seq<char>>
    decreases entries.len(),
{
    if entries.len() == 0 {
        Seq::empty()
    } else {
        let rest = playable_entries(path, entries.drop_last());
        if is_wav_name(entries.last()) {
            rest.push(spec_join_path(path, '/', entries.last()))
        } else {
            rest
        }
    }
}

/// Decides what to play: a directory yields its waveform files in
/// lexicographic order (the chunk sequence); anything else is played
/// as the single requested file.
pub fn playback_files(path: &str, is_dir: bool, entries: &Vec<String>) -> (r: Vec<String>)
    ensures
        !is_dir ==> r.deep_view() == seq![path@],
        is_dir ==> lex_sorted(r.deep_view()) && r.deep_view().to_multiset() == playable_entries(
            path@,
            entries.deep_view(),
        ).to_multiset(),
{
    if !is_dir {
        let mut r: Vec<String> = Vec::new();
        r.push(path.to_owned());
        proof {
            assert(r.deep_view() =~= seq![path@]);
        }
        r
    } else {
        let ghost dv = entries.deep_view();
        let mut found: Vec<String> = Vec::new();
        let mut i: usize = 0;
        proof {
            assert(dv.subrange(0, 0) =~= Seq::<Seq<char>>::empty());
            assert(found.deep_view() =~= playable_entries(path@, dv.subrange(0, 0)));
        }
        while i < entries.len()
            invariant
                i <= entries.len(),
                dv == entries.deep_view(),
                found.deep_view() == playable_entries(path@, dv.subrange(0, i as int)),
            decreases entries.len() - i,
        {
            let ghost prefix = dv.subrange(0, i as int);
            proof {
                assert(dv.subrange(0, i as int + 1) =~= prefix.push(dv[i as int]));
                assert(prefix.push(dv[i as int]).drop_last() =~= prefix);
                assert(prefix.push(dv[i as int]).last() == dv[i as int]);
            }
            if has_wav_ext(entries[i].as_str()) {
                let p = join_path(path, entries[i].as_str());
                found.push(p);
                proof {
                    assert(found.deep_view() =~= playable_entries(
                        path@,
                        dv.subrange(0, i as int + 1),
                    ));
                }
            } else {
                proof {
                    assert(found.deep_view() =~= playable_entries(
                        path@,
                        dv.subrange(0, i as int + 1),
                    ));
                }
            }
            i = i + 1;
        }
        proof {
            assert(dv.subrange(0, entries.len() as int) =~= dv);
        }
        sort_lex(found)
    }
}

/// The result of trying one player program on one file.
#[derive(Clone, Copy, PartialEq, Eq, Structural, Debug)]
pub enum PlayAttempt {
    /// The program could not be launched at all.
    LaunchFailed,
    /// The program ran and exited with status zero.
    ExitedZero,
    /// The program ran and exited with a non-zero status.
    ExitedNonZero,
}

/// How the fallback chain goes on after one attempt. Every outcome is
/// at worst a warning: playback never aborts the parent command.
#[derive(Clone, Copy, PartialEq, Eq, Structural, Debug)]
pub enum PlayOutcome {
    /// Try the next candidate program.
    TryNext { next: usize },
    /// The file played; the chain is done.
    Played,
    /// A player ran but exited non-zero: report a warning and stop.
    WarnExit,
    /// No candidate program could be launched: report a warning.
    WarnNoPlayer,
}

/// The chain's transition: a zero exit succeeds, a non-zero exit warns
/// and stops, and a launch failure moves to the next candidate until
/// none is left.
pub open spec fn play_step_spec(n: usize, idx: usize, attempt: PlayAttempt) -> PlayOutcome {
    match attempt {
        PlayAttempt::ExitedZero => PlayOutcome::Played,
        PlayAttempt::ExitedNonZero => PlayOutcome::WarnExit,
        PlayAttempt::LaunchFailed => if idx + 1 < n {
            PlayOutcome::TryNext { next: (idx + 1) as usize }
        } else {
            PlayOutcome::WarnNoPlayer
        },
    }
}

/// Advances the fallback chain after one attempt (see
/// [`play_step_spec`]).
pub fn play_chain_step(n: usize, idx: usize, attempt: PlayAttempt) -> (r: PlayOutcome)
    requires
        idx < n,
    ensures
        r == play_step_spec(n, idx, attempt),
{
    match attempt {
        PlayAttempt::ExitedZero => PlayOutcome::Played,
        PlayAttempt::ExitedNonZero => PlayOutcome::WarnExit,
        PlayAttempt::LaunchFailed => {
            if idx + 1 < n {
                PlayOutcome::TryNext { next: idx + 1 }
            } else {
                PlayOutcome::WarnNoPlayer
            }
        },
    }
}

} // verus!
