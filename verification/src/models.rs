//! Model asset resolution and the acquisition pipeline's decision logic:
//! the (backend, variant) to repository mapping, the installation
//! invariant, and the download/update strategy state machines.

use vstd::prelude::*;
use crate::errors::TtsError;
use crate::platform::Backend;
use crate::strutil::{join_path, spec_join_path, str_eq, u64_to_dec, spec_dec, digit_str, digit_char};

verus! {

/// The supported model variants, including the two legacy aliases.
#[derive(Clone, Copy, PartialEq, Eq, Structural, Debug)]
pub enum Variant {
    Base,
    Base4Bit,
    Custom,
    Custom4Bit,
    Design,
    Design4Bit,
    Pro,
    Lite,
}

/// The variant named by a string, if it is in the supported vocabulary.
pub open spec fn variant_of(s: Seq<char>) -> Option<Variant> {
    if s == "base"@ {
        Some(Variant::Base)
    } else if s == "base-4bit"@ {
        Some(Variant::Base4Bit)
    } else if s == "custom"@ {
        Some(Variant::Custom)
    } else if s == "custom-4bit"@ {
        Some(Variant::Custom4Bit)
    } else if s == "design"@ {
        Some(Variant::Design)
    } else if s == "design-4bit"@ {
        Some(Variant::Design4Bit)
    } else if s == "pro"@ {
        Some(Variant::Pro)
    } else if s == "lite"@ {
        Some(Variant::Lite)
    } else {
        None
    }
}

/// Parses a variant name; `None` for anything outside the vocabulary.
pub fn parse_variant(s: &str) -> (r: Option<Variant>)
    ensures
        r == variant_of(s@),
{
    if str_eq(s, "base") {
        Some(Variant::Base)
    } else if str_eq(s, "base-4bit") {
        Some(Variant::Base4Bit)
    } else if str_eq(s, "custom") {
        Some(Variant::Custom)
    } else if str_eq(s, "custom-4bit") {
        Some(Variant::Custom4Bit)
    } else if str_eq(s, "design") {
        Some(Variant::Design)
    } else if str_eq(s, "design-4bit") {
        Some(Variant::Design4Bit)
    } else if str_eq(s, "pro") {
        Some(Variant::Pro)
    } else if str_eq(s, "lite") {
        Some(Variant::Lite)
    } else {
        None
    }
}

/// The repository for a variant on the Apple-GPU backend.
pub open spec fn apple_repo(v: Variant) -> Seq<char> {
    match v {
        Variant::Base => "mlx-community/Qwen3-TTS-12Hz-0.6B-Base-bf16"@,
        Variant::Base4Bit => "mlx-community/Qwen3-TTS-12Hz-0.6B-Base-4bit"@,
        Variant::Custom => "mlx-community/Qwen3-TTS-12Hz-0.6B-CustomVoice-bf16"@,
        Variant::Custom4Bit => "mlx-community/Qwen3-TTS-12Hz-0.6B-CustomVoice-4bit"@,
        Variant::Design => "mlx-community/Qwen3-TTS-12Hz-1.7B-VoiceDesign-bf16"@,
        Variant::Design4Bit => "mlx-community/Qwen3-TTS-12Hz-1.7B-VoiceDesign-4bit"@,
        Variant::Pro => "mlx-community/Qwen3-TTS-12Hz-0.6B-Base-bf16"@,
        Variant::Lite => "mlx-community/Qwen3-TTS-12Hz-0.6B-Base-4bit"@,
    }
}

/// The repository shared by all non-Apple backends: the portable
/// inference path is backend-agnostic at the model level.
pub open spec fn portable_repo(v: Variant) -> Seq<char> {
    "Qwen/Qwen3-TTS-12Hz-0.6B-Base"@
}

/// The (backend, variant) to repository mapping, total over the
/// supported vocabulary.
pub open spec fn repo_for(backend: Backend, v: Variant) -> Seq<char> {
    match backend {
        Backend::Mlx => apple_repo(v),
        Backend::Cuda => portable_repo(v),
        Backend::Cpu => portable_repo(v),
    }
}

/// The closed vocabulary of repository identifiers the mapping can name.
pub open spec fn repo_vocabulary() -> Set<Seq<char>> {
    set![
        "mlx-community/Qwen3-TTS-12Hz-0.6B-Base-bf16"@,
        "mlx-community/Qwen3-TTS-12Hz-0.6B-Base-4bit"@,
        "mlx-community/Qwen3-TTS-12Hz-0.6B-CustomVoice-bf16"@,
        "mlx-community/Qwen3-TTS-12Hz-0.6B-CustomVoice-4bit"@,
        "mlx-community/Qwen3-TTS-12Hz-1.7B-VoiceDesign-bf16"@,
        "mlx-community/Qwen3-TTS-12Hz-1.7B-VoiceDesign-4bit"@,
        "Qwen/Qwen3-TTS-12Hz-0.6B-Base"@,
    ]
}

/// Every supported (backend, variant) pair maps into the closed
/// repository vocabulary.
pub proof fn lemma_repo_vocabulary(backend: Backend, v: Variant)
    ensures
        repo_vocabulary().contains(repo_for(backend, v)),
{
}

/// Resolves the remote repository for a backend and a variant name.
/// Returns the repository identifier for every supported variant, and
/// the unknown-variant error, which lists the supported vocabulary, for
/// every other string.
pub fn repo_id(backend: Backend, variant: &str) -> (r: Result<&'static str, TtsError>)
    ensures
        match variant_of(variant@) {
            Some(v) => r matches Ok(repo) && repo@ == repo_for(backend, v),
            None => r matches Err(e) && e matches TtsError::UnknownVariant { variant: u }
                && u@ == variant@,
        },
{
    let parsed = parse_variant(variant);
    match parsed {
        Some(v) => {
            let apple = matches!(backend, Backend::Mlx);
            if apple {
                match v {
                    Variant::Base => Ok("mlx-community/Qwen3-TTS-12Hz-0.6B-Base-bf16"),
                    Variant::Base4Bit => Ok("mlx-community/Qwen3-TTS-12Hz-0.6B-Base-4bit"),
                    Variant::Custom => Ok("mlx-community/Qwen3-TTS-12Hz-0.6B-CustomVoice-bf16"),
                    Variant::Custom4Bit => Ok("mlx-community/Qwen3-TTS-12Hz-0.6B-CustomVoice-4bit"),
                    Variant::Design => Ok("mlx-community/Qwen3-TTS-12Hz-1.7B-VoiceDesign-bf16"),
                    Variant::Design4Bit => Ok("mlx-community/Qwen3-TTS-12Hz-1.7B-VoiceDesign-4bit"),
                    Variant::Pro => Ok("mlx-community/Qwen3-TTS-12Hz-0.6B-Base-bf16"),
                    Variant::Lite => Ok("mlx-community/Qwen3-TTS-12Hz-0.6B-Base-4bit"),
                }
            } else {
                Ok("Qwen/Qwen3-TTS-12Hz-0.6B-Base")
            }
        },
        None => Err(TtsError::UnknownVariant { variant: variant.to_owned() }),
    }
}

/// The local installation directory of a variant: a pure join of the
/// models directory and the variant name, with no filesystem access.
pub fn model_dir(models_dir: &str, variant: &str) -> (r: String)
    ensures
        r@ == spec_join_path(models_dir@, '/', variant@),
{
    join_path(models_dir, variant)
}

/// The installation invariant: the directory exists and holds at least
/// one entry.
pub fn is_model_installed(dir_exists: bool, has_entry: bool) -> (r: bool)
    ensures
        r == (dir_exists && has_entry),
{
    dir_exists && has_entry
}

/// What `ensure_installed` decides to do.
#[derive(Clone, Copy, PartialEq, Eq, Structural, Debug)]
pub enum EnsurePlan {
    /// The installation invariant already holds: keep the existing
    /// installation, never re-download it.
    UseExisting,
    /// The variant is absent: run the download pipeline first.
    Download,
}

/// Decides whether a variant needs downloading. A no-op exactly when
/// the installation invariant already holds.
pub fn ensure_installed_plan(dir_exists: bool, has_entry: bool) -> (r: EnsurePlan)
    ensures
        r == (if dir_exists && has_entry {
            EnsurePlan::UseExisting
        } else {
            EnsurePlan::Download
        }),
{
    if is_model_installed(dir_exists, has_entry) {
        EnsurePlan::UseExisting
    } else {
        EnsurePlan::Download
    }
}

/// Where the download pipeline stands. Strategy A is the package-hub
/// client, strategy B a shallow git clone; there is no third fallback.
#[derive(Clone, Copy, PartialEq, Eq, Structural, Debug)]
pub enum DownloadPhase {
    /// Run the hub client next.
    Hub,
    /// Run the git clone next; `after_hub_failure` records whether the
    /// hub strategy was tried and failed (a warning, not an error).
    Git { after_hub_failure: bool },
    /// A strategy succeeded; the download is complete.
    Done,
    /// The last strategy failed; the download is fatal.
    Failed,
}

/// Starts the download pipeline: the hub client is tried first, but
/// only when the configured interpreter exists; otherwise the git
/// strategy starts directly.
pub open spec fn download_start_spec(python_exists: bool) -> DownloadPhase {
    if python_exists {
        DownloadPhase::Hub
    } else {
        DownloadPhase::Git { after_hub_failure: false }
    }
}

/// Starts the download pipeline (see [`download_start_spec`]).
pub fn download_start(python_exists: bool) -> (r: DownloadPhase)
    ensures
        r == download_start_spec(python_exists),
{
    if python_exists {
        DownloadPhase::Hub
    } else {
        DownloadPhase::Git { after_hub_failure: false }
    }
}

/// Advances the download pipeline once the running strategy has exited.
/// A hub failure is non-fatal and falls back to the git strategy; a git
/// failure is fatal; success of either strategy completes the download.
pub fn download_next(phase: DownloadPhase, exit_ok: bool) -> (r: DownloadPhase)
    ensures
        r == download_next_spec(phase, exit_ok),
{
    match phase {
        DownloadPhase::Hub => {
            if exit_ok {
                DownloadPhase::Done
            } else {
                DownloadPhase::Git { after_hub_failure: true }
            }
        },
        DownloadPhase::Git { after_hub_failure: _ } => {
            if exit_ok {
                DownloadPhase::Done
            } else {
                DownloadPhase::Failed
            }
        },
        DownloadPhase::Done => DownloadPhase::Done,
        DownloadPhase::Failed => DownloadPhase::Failed,
    }
}

/// The download pipeline's transition relation.
pub open spec fn download_next_spec(phase: DownloadPhase, exit_ok: bool) -> DownloadPhase {
    match phase {
        DownloadPhase::Hub => if exit_ok {
            DownloadPhase::Done
        } else {
            DownloadPhase::Git { after_hub_failure: true }
        },
        DownloadPhase::Git { .. } => if exit_ok {
            DownloadPhase::Done
        } else {
            DownloadPhase::Failed
        },
        DownloadPhase::Done => DownloadPhase::Done,
        DownloadPhase::Failed => DownloadPhase::Failed,
    }
}

/// Failure of the first strategy is never fatal, and success of either
/// strategy completes the download: only the last strategy's failure
/// ends in `Failed`.
pub proof fn lemma_download_fallback(python_exists: bool, hub_ok: bool, git_ok: bool)
    ensures
        download_next_spec(DownloadPhase::Hub, hub_ok) != DownloadPhase::Failed,
        !hub_ok ==> download_next_spec(DownloadPhase::Hub, hub_ok)
            == (DownloadPhase::Git { after_hub_failure: true }),
        git_ok ==> download_next_spec((DownloadPhase::Git { after_hub_failure: !hub_ok }), git_ok)
            == DownloadPhase::Done,
        !git_ok ==> download_next_spec((DownloadPhase::Git { after_hub_failure: !hub_ok }), git_ok)
            == DownloadPhase::Failed,
{
}

/// What to do around the git clone strategy before running it.
#[derive(Clone, Copy, PartialEq, Eq, Structural, Debug)]
pub struct GitClonePrep {
    /// Warn that large files may not download correctly. Emitted exactly
    /// when the large-file-transfer helper is absent.
    pub warn_missing_lfs: bool,
    /// Remove the destination first. Done exactly when it exists, so the
    /// clone never lands in a half-filled directory.
    pub remove_existing: bool,
}

/// Decides the preparation for the git clone strategy: a non-fatal
/// warning when the large-file helper is absent, and removal of an
/// existing destination directory.
pub fn git_clone_prep(has_lfs: bool, dest_exists: bool) -> (r: GitClonePrep)
    ensures
        r.warn_missing_lfs == !has_lfs,
        r.remove_existing == dest_exists,
{
    GitClonePrep { warn_missing_lfs: !has_lfs, remove_existing: dest_exists }
}

/// How an update starts.
#[derive(Clone, Copy, PartialEq, Eq, Structural, Debug)]
pub enum UpdatePlan {
    /// The destination is a version-controlled clone: try a
    /// fast-forward-only pull first.
    PullFirst,
    /// The destination is absent or not version-controlled: behave
    /// exactly like a fresh download.
    FreshDownload,
}

/// How an update starts: the pull is tried exactly when the
/// destination exists and is a recognized version-controlled clone.
pub open spec fn update_start_spec(dest_exists: bool, is_git_clone: bool) -> UpdatePlan {
    if dest_exists && is_git_clone {
        UpdatePlan::PullFirst
    } else {
        UpdatePlan::FreshDownload
    }
}

/// Decides how an update starts. The pull is tried exactly when the
/// destination exists and is a recognized version-controlled clone.
pub fn update_start(dest_exists: bool, is_git_clone: bool) -> (r: UpdatePlan)
    ensures
        r == update_start_spec(dest_exists, is_git_clone),
{
    if dest_exists && is_git_clone {
        UpdatePlan::PullFirst
    } else {
        UpdatePlan::FreshDownload
    }
}

/// What follows the fast-forward pull.
#[derive(Clone, Copy, PartialEq, Eq, Structural, Debug)]
pub enum AfterPull {
    /// The pull succeeded: the update is done and nothing is deleted.
    Finished,
    /// The pull failed: delete the destination and re-download it in
    /// full, with the same two-strategy fallback as a fresh download.
    DeleteAndRedownload,
}

/// What follows the fast-forward pull: destructive re-download exactly
/// when the pull failed.
pub open spec fn after_pull_spec(pull_ok: bool) -> AfterPull {
    if pull_ok {
        AfterPull::Finished
    } else {
        AfterPull::DeleteAndRedownload
    }
}

/// Decides what follows the fast-forward pull. Destructive re-download
/// happens exactly when the pull failed.
pub fn update_after_pull(pull_ok: bool) -> (r: AfterPull)
    ensures
        r == after_pull_spec(pull_ok),
{
    if pull_ok {
        AfterPull::Finished
    } else {
        AfterPull::DeleteAndRedownload
    }
}

/// The update pipeline deletes nothing when the destination is a
/// version-controlled clone and the fast-forward pull succeeds; when
/// the pull fails, and only then, the destination is deleted and fully
/// re-downloaded.
pub proof fn lemma_update_pull(dest_exists: bool, is_git_clone: bool, pull_ok: bool)
    ensures
        dest_exists && is_git_clone ==> update_start_spec(dest_exists, is_git_clone)
            == UpdatePlan::PullFirst,
        pull_ok ==> after_pull_spec(pull_ok) == AfterPull::Finished,
        !pull_ok ==> after_pull_spec(pull_ok) == AfterPull::DeleteAndRedownload,
{
}

/// Reads a yes/no answer, already trimmed and lowercased: an empty
/// answer takes the default, and anything starting with `y` is yes.
pub fn prompt_accepts(input: &str, default_yes: bool) -> (r: bool)
    ensures
        input@.len() == 0 ==> r == default_yes,
        input@.len() > 0 ==> r == (input@[0] == 'y'),
{
    if input.is_empty() {
        default_yes
    } else {
        let c = input.get_char(0);
        c == 'y'
    }
}

/// One binary kilobyte.
pub const KB: u64 = 1024;

/// One binary megabyte.
pub const MB: u64 = 1024 * 1024;

/// One binary gigabyte.
pub const GB: u64 = 1024 * 1024 * 1024;

/// A byte count scaled by a unit, with its integral part and a single
/// tenths digit, rounded half-up.
pub open spec fn size_with_unit(bytes: nat, unit: nat, suffix: Seq<char>) -> Seq<char> {
    let whole = bytes / unit;
    let tenths = ((bytes % unit) * 10 + unit / 2) / unit;
    if tenths == 10 {
        spec_dec(whole + 1) + "."@ + seq![digit_char(0)] + suffix
    } else {
        spec_dec(whole) + "."@ + seq![digit_char(tenths)] + suffix
    }
}

/// A byte count rendered for people: the largest binary unit the count
/// reaches, with one decimal digit rounded half-up; plain bytes below
/// one kilobyte.
pub open spec fn human_size_spec(bytes: nat) -> Seq<char> {
    if bytes >= GB {
        size_with_unit(bytes, GB as nat, " GB"@)
    } else if bytes >= MB {
        size_with_unit(bytes, MB as nat, " MB"@)
    } else if bytes >= KB {
        size_with_unit(bytes, KB as nat, " KB"@)
    } else {
        spec_dec(bytes) + " B"@
    }
}

/// Renders a byte count scaled by one unit (see [`size_with_unit`]).
fn format_scaled(bytes: u64, unit: u64, suffix: &str) -> (r: String)
    requires
        1024 <= unit <= 0x40000000,
    ensures
        r@ == size_with_unit(bytes as nat, unit as nat, suffix@),
{
    let whole: u64 = bytes / unit;
    let rem: u64 = bytes % unit;
    let tenths: u64 = (rem * 10 + unit / 2) / unit;
    proof {
        assert(rem < unit);
        assert(tenths <= 10) by (nonlinear_arith)
            requires
                rem < unit,
                1024 <= unit,
                tenths == (rem as int * 10 + unit as int / 2) / (unit as int),
        ;
        assert(whole < 0x100000000000000) by (nonlinear_arith)
            requires
                bytes <= u64::MAX,
                1024 <= unit,
                whole == bytes as int / (unit as int),
        ;
    }
    let (int_part, tenth_digit): (u64, u64) = if tenths == 10 {
        (whole + 1, 0)
    } else {
        (whole, tenths)
    };
    let r = u64_to_dec(int_part).concat(".").concat(digit_str(tenth_digit)).concat(suffix);
    proof {
        reveal_strlit(".");
        assert(r@ =~= size_with_unit(bytes as nat, unit as nat, suffix@));
    }
    r
}

/// Renders a byte count for people (see [`human_size_spec`]).
pub fn human_size(bytes: u64) -> (r: String)
    ensures
        r@ == human_size_spec(bytes as nat),
{
    if bytes >= GB {
        format_scaled(bytes, GB, " GB")
    } else if bytes >= MB {
        format_scaled(bytes, MB, " MB")
    } else if bytes >= KB {
        format_scaled(bytes, KB, " KB")
    } else {
        let r = u64_to_dec(bytes).concat(" B");
        proof {
            assert(r@ =~= human_size_spec(bytes as nat));
        }
        r
    }
}

} // verus!
