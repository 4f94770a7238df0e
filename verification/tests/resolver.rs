use qwen_tts::config::{apply_config_set, default_config, expand_path, expand_path_with, parse_backend, Config};
use qwen_tts::errors::TtsError;
use qwen_tts::models::{
    download_next, download_start, ensure_installed_plan, git_clone_prep, human_size,
    is_model_installed, model_dir, parse_variant, prompt_accepts, repo_id, update_after_pull,
    update_start, AfterPull, DownloadPhase, EnsurePlan, UpdatePlan, Variant,
};
use qwen_tts::output::{locate_produced_file, resolve_output, PathKind};
use qwen_tts::platform::{backend_name, detect_backend, detect_os, is_apple_silicon, os_name, Backend, Os};
use qwen_tts::strutil::{has_wav_ext, lex_le, str_eq, u64_to_dec};

fn sample_config() -> Config {
    default_config("/base", false, Backend::Cpu)
}

#[test]
fn os_detection_maps_targets() {
    assert_eq!(detect_os("macos"), Os::MacOs);
    assert_eq!(detect_os("windows"), Os::Windows);
    assert_eq!(detect_os("linux"), Os::Linux);
    assert_eq!(detect_os("freebsd"), Os::Linux);
}

#[test]
fn apple_silicon_needs_macos_and_aarch64() {
    assert!(is_apple_silicon("macos", "aarch64"));
    assert!(!is_apple_silicon("macos", "x86_64"));
    assert!(!is_apple_silicon("linux", "aarch64"));
}

#[test]
fn backend_policy_priority_order() {
    assert_eq!(detect_backend(Os::MacOs, true, false), Backend::Mlx);
    assert_eq!(detect_backend(Os::MacOs, true, true), Backend::Mlx);
    assert_eq!(detect_backend(Os::MacOs, false, true), Backend::Cuda);
    assert_eq!(detect_backend(Os::Windows, false, true), Backend::Cuda);
    assert_eq!(detect_backend(Os::Linux, false, false), Backend::Cpu);
    assert_eq!(detect_backend(Os::MacOs, false, false), Backend::Cpu);
}

#[test]
fn backend_and_os_names() {
    assert_eq!(backend_name(Backend::Mlx), "mlx");
    assert_eq!(backend_name(Backend::Cuda), "cuda");
    assert_eq!(backend_name(Backend::Cpu), "cpu");
    assert_eq!(os_name(Os::MacOs), "macOS");
    assert_eq!(os_name(Os::Windows), "Windows");
    assert_eq!(os_name(Os::Linux), "Linux");
}

#[test]
fn repo_id_covers_apple_vocabulary() {
    assert_eq!(repo_id(Backend::Mlx, "base").unwrap(), "mlx-community/Qwen3-TTS-12Hz-0.6B-Base-bf16");
    assert_eq!(repo_id(Backend::Mlx, "base-4bit").unwrap(), "mlx-community/Qwen3-TTS-12Hz-0.6B-Base-4bit");
    assert_eq!(repo_id(Backend::Mlx, "custom").unwrap(), "mlx-community/Qwen3-TTS-12Hz-0.6B-CustomVoice-bf16");
    assert_eq!(repo_id(Backend::Mlx, "custom-4bit").unwrap(), "mlx-community/Qwen3-TTS-12Hz-0.6B-CustomVoice-4bit");
    assert_eq!(repo_id(Backend::Mlx, "design").unwrap(), "mlx-community/Qwen3-TTS-12Hz-1.7B-VoiceDesign-bf16");
    assert_eq!(repo_id(Backend::Mlx, "design-4bit").unwrap(), "mlx-community/Qwen3-TTS-12Hz-1.7B-VoiceDesign-4bit");
    assert_eq!(repo_id(Backend::Mlx, "pro").unwrap(), "mlx-community/Qwen3-TTS-12Hz-0.6B-Base-bf16");
    assert_eq!(repo_id(Backend::Mlx, "lite").unwrap(), "mlx-community/Qwen3-TTS-12Hz-0.6B-Base-4bit");
}

#[test]
fn repo_id_portable_backends_share_one_repo() {
    let variants = ["base", "base-4bit", "custom", "custom-4bit", "design", "design-4bit", "pro", "lite"];
    for v in variants {
        assert_eq!(repo_id(Backend::Cuda, v).unwrap(), "Qwen/Qwen3-TTS-12Hz-0.6B-Base");
        assert_eq!(repo_id(Backend::Cpu, v).unwrap(), "Qwen/Qwen3-TTS-12Hz-0.6B-Base");
    }
}

#[test]
fn repo_id_unknown_variant_lists_vocabulary() {
    let err = repo_id(Backend::Mlx, "huge").unwrap_err();
    assert_eq!(
        err.message(),
        "unknown variant: huge\nAvailable: base, base-4bit, custom, custom-4bit, design, design-4bit"
    );
}

#[test]
fn variant_parsing() {
    assert_eq!(parse_variant("base"), Some(Variant::Base));
    assert_eq!(parse_variant("design-4bit"), Some(Variant::Design4Bit));
    assert_eq!(parse_variant("lite"), Some(Variant::Lite));
    assert_eq!(parse_variant("Base"), None);
    assert_eq!(parse_variant(""), None);
}

#[test]
fn model_dir_is_pure_join() {
    assert_eq!(model_dir("/base/models", "pro"), "/base/models/pro");
}

#[test]
fn installation_invariant() {
    assert!(is_model_installed(true, true));
    assert!(!is_model_installed(true, false));
    assert!(!is_model_installed(false, true));
    assert_eq!(ensure_installed_plan(true, true), EnsurePlan::UseExisting);
    assert_eq!(ensure_installed_plan(true, false), EnsurePlan::Download);
    assert_eq!(ensure_installed_plan(false, false), EnsurePlan::Download);
}

#[test]
fn download_hub_first_when_interpreter_exists() {
    assert_eq!(download_start(true), DownloadPhase::Hub);
    assert_eq!(download_start(false), DownloadPhase::Git { after_hub_failure: false });
}

#[test]
fn download_hub_failure_falls_back_to_git() {
    let after_hub = download_next(DownloadPhase::Hub, false);
    assert_eq!(after_hub, DownloadPhase::Git { after_hub_failure: true });
    assert_eq!(download_next(after_hub, true), DownloadPhase::Done);
}

#[test]
fn download_git_failure_is_fatal() {
    assert_eq!(download_next(DownloadPhase::Git { after_hub_failure: true }, false), DownloadPhase::Failed);
    assert_eq!(download_next(DownloadPhase::Hub, true), DownloadPhase::Done);
}

#[test]
fn git_clone_prep_warns_only_without_lfs() {
    let prep = git_clone_prep(true, false);
    assert!(!prep.warn_missing_lfs);
    assert!(!prep.remove_existing);
    let prep = git_clone_prep(false, true);
    assert!(prep.warn_missing_lfs);
    assert!(prep.remove_existing);
}

#[test]
fn hub_failure_then_git_success_without_lfs_warning() {
    // Strategy A fails, strategy B succeeds with the large-file helper
    // present: the operation completes and no missing-helper warning is
    // asked for.
    let phase = download_start(true);
    let phase = download_next(phase, false);
    assert!(matches!(phase, DownloadPhase::Git { .. }));
    let prep = git_clone_prep(true, false);
    assert!(!prep.warn_missing_lfs);
    assert_eq!(download_next(phase, true), DownloadPhase::Done);
}

#[test]
fn update_pulls_only_a_version_controlled_clone() {
    assert_eq!(update_start(true, true), UpdatePlan::PullFirst);
    assert_eq!(update_start(true, false), UpdatePlan::FreshDownload);
    assert_eq!(update_start(false, true), UpdatePlan::FreshDownload);
    assert_eq!(update_start(false, false), UpdatePlan::FreshDownload);
}

#[test]
fn update_deletes_only_after_failed_pull() {
    assert_eq!(update_after_pull(true), AfterPull::Finished);
    assert_eq!(update_after_pull(false), AfterPull::DeleteAndRedownload);
}

#[test]
fn human_size_units_and_rounding() {
    assert_eq!(human_size(0), "0 B");
    assert_eq!(human_size(1023), "1023 B");
    assert_eq!(human_size(1024), "1.0 KB");
    assert_eq!(human_size(1536), "1.5 KB");
    assert_eq!(human_size(2047), "2.0 KB");
    assert_eq!(human_size(1048576), "1.0 MB");
    assert_eq!(human_size(1610612736), "1.5 GB");
}

#[test]
fn decimal_rendering() {
    assert_eq!(u64_to_dec(0), "0");
    assert_eq!(u64_to_dec(7), "7");
    assert_eq!(u64_to_dec(1234567890), "1234567890");
    assert_eq!(u64_to_dec(u64::MAX), "18446744073709551615");
}

#[test]
fn tilde_expansion() {
    assert_eq!(expand_path_with("~", "/home/u"), "/home/u");
    assert_eq!(expand_path_with("~/x/y.wav", "/home/u"), "/home/u/x/y.wav");
    assert_eq!(expand_path_with("/abs/p", "/home/u"), "/abs/p");
    assert_eq!(expand_path_with("rel", "/home/u"), "rel");
}

#[test]
fn expansion_without_tilde_needs_no_home() {
    assert_eq!(expand_path("/abs/p").as_deref(), Some("/abs/p"));
}

#[test]
fn resolve_output_explicit_is_expanded_unchanged() {
    let out = String::from("~/clips/take1.wav");
    assert_eq!(
        resolve_output(Some(out.as_str()), "/base/outputs", "/home/u", 99),
        "/home/u/clips/take1.wav"
    );
}

#[test]
fn resolve_output_auto_embeds_timestamp() {
    assert_eq!(
        resolve_output(None, "/base/outputs", "/home/u", 1234567890),
        "/base/outputs/tts_1234567890"
    );
    let a = resolve_output(None, "/base/outputs", "/home/u", 1234567890);
    let b = resolve_output(None, "/base/outputs", "/home/u", 1234567891);
    assert_ne!(a, b);
}

#[test]
fn locate_prefers_joined_audio() {
    let entries = vec![
        String::from("b.wav"),
        String::from("audio.wav"),
        String::from("a.wav"),
    ];
    assert_eq!(
        locate_produced_file("/o", PathKind::Directory, &entries).as_deref(),
        Some("/o/audio.wav")
    );
}

#[test]
fn locate_falls_back_to_smallest_wav() {
    let entries = vec![
        String::from("chunk_2.wav"),
        String::from("chunk_10.wav"),
        String::from("chunk_1.wav"),
        String::from("notes.txt"),
    ];
    assert_eq!(
        locate_produced_file("/o", PathKind::Directory, &entries).as_deref(),
        Some("/o/chunk_1.wav")
    );
}

#[test]
fn locate_plain_file_is_returned_unchanged() {
    let entries: Vec<String> = Vec::new();
    assert_eq!(
        locate_produced_file("/o/take.wav", PathKind::File, &entries).as_deref(),
        Some("/o/take.wav")
    );
}

#[test]
fn locate_missing_path_yields_nothing() {
    let entries: Vec<String> = Vec::new();
    assert!(locate_produced_file("/o/absent", PathKind::Missing, &entries).is_none());
}

#[test]
fn locate_directory_without_wavs_yields_nothing() {
    let entries = vec![String::from("notes.txt"), String::from("cover.png")];
    assert!(locate_produced_file("/o", PathKind::Directory, &entries).is_none());
}

#[test]
fn default_config_fields() {
    let cfg = sample_config();
    assert_eq!(cfg.python_path, "/base/venv/bin/python");
    assert_eq!(cfg.models_dir, "/base/models");
    assert_eq!(cfg.voices_dir, "/base/voices");
    assert_eq!(cfg.output_dir, "/base/outputs");
    assert_eq!(cfg.backend, Backend::Cpu);
    assert_eq!(cfg.default_voice, "Vivian");
    assert_eq!(cfg.default_speed, "1");
    assert!(cfg.auto_play);
    assert_eq!(cfg.model_variant, "pro");
}

#[test]
fn default_config_windows_interpreter() {
    let cfg = default_config("C:\\base", true, Backend::Cuda);
    assert_eq!(cfg.python_path, "C:\\base\\venv\\Scripts\\python.exe");
    assert_eq!(cfg.models_dir, "C:\\base\\models");
}

#[test]
fn backend_parsing() {
    assert_eq!(parse_backend("mlx").unwrap(), Backend::Mlx);
    assert_eq!(parse_backend("cuda").unwrap(), Backend::Cuda);
    assert_eq!(parse_backend("cpu").unwrap(), Backend::Cpu);
    let err = parse_backend("rocm").unwrap_err();
    assert_eq!(err.message(), "unknown backend: rocm (expected mlx, cuda, or cpu)");
}

#[test]
fn config_set_accepts_each_key() {
    let cfg = sample_config();
    assert_eq!(apply_config_set(&cfg, "python_path", "/p").unwrap().python_path, "/p");
    assert_eq!(apply_config_set(&cfg, "models_dir", "/m").unwrap().models_dir, "/m");
    assert_eq!(apply_config_set(&cfg, "voices_dir", "/v").unwrap().voices_dir, "/v");
    assert_eq!(apply_config_set(&cfg, "output_dir", "/o").unwrap().output_dir, "/o");
    assert_eq!(apply_config_set(&cfg, "backend", "cuda").unwrap().backend, Backend::Cuda);
    assert_eq!(apply_config_set(&cfg, "default_voice", "Alice").unwrap().default_voice, "Alice");
    assert_eq!(apply_config_set(&cfg, "default_speed", "1.5").unwrap().default_speed, "1.5");
    assert!(!apply_config_set(&cfg, "auto_play", "false").unwrap().auto_play);
    assert_eq!(apply_config_set(&cfg, "model_variant", "lite").unwrap().model_variant, "lite");
}

#[test]
fn config_set_leaves_other_fields_alone() {
    let cfg = sample_config();
    let updated = apply_config_set(&cfg, "default_voice", "Alice").unwrap();
    assert_eq!(updated.models_dir, cfg.models_dir);
    assert_eq!(updated.default_speed, cfg.default_speed);
    assert_eq!(updated.backend, cfg.backend);
}

#[test]
fn config_set_rejects_bad_values() {
    let cfg = sample_config();
    let err = apply_config_set(&cfg, "backend", "rocm").unwrap_err();
    assert_eq!(err.message(), "unknown backend: rocm (expected mlx, cuda, or cpu)");
    let err = apply_config_set(&cfg, "auto_play", "yes").unwrap_err();
    assert_eq!(err.message(), "invalid bool: yes");
    let err = apply_config_set(&cfg, "model_variant", "custom").unwrap_err();
    assert_eq!(err.message(), "model_variant must be 'pro' or 'lite'");
    let err = apply_config_set(&cfg, "volume", "11").unwrap_err();
    assert_eq!(err.message(), "unknown config key: volume");
}

#[test]
fn string_helpers() {
    assert!(str_eq("abc", "abc"));
    assert!(!str_eq("abc", "abd"));
    assert!(lex_le("a", "b"));
    assert!(lex_le("a", "a"));
    assert!(!lex_le("b", "a"));
    assert!(lex_le("a", "ab"));
    assert!(has_wav_ext("a.wav"));
    assert!(!has_wav_ext(".wav"));
    assert!(!has_wav_ext("a.txt"));
    assert!(!has_wav_ext("wav"));
}

#[test]
fn well_known_directories() {
    if let Some(b) = qwen_tts::config::base_dir() {
        assert!(b.ends_with("/.qwen-tts"));
    }
    if let Some(c) = qwen_tts::config::config_path() {
        assert!(c.ends_with("/qwen-tts/config.toml"));
    }
    if let Some(e) = expand_path("~/x") {
        assert!(e.ends_with("/x"));
    }
}

#[test]
fn prompt_answers() {
    assert!(prompt_accepts("", true));
    assert!(!prompt_accepts("", false));
    assert!(prompt_accepts("y", false));
    assert!(prompt_accepts("yes", false));
    assert!(!prompt_accepts("n", true));
    assert!(!prompt_accepts("no", true));
}
