//! Configuration values and the pure logic around them: the default
//! configuration, tilde expansion, the well-known directories, and the
//! key/value update rules of the `config set` command.
//!
//! Reading and writing the configuration file itself is the binary's
//! work; the library only decides what the values are.

use vstd::prelude::*;
use crate::errors::TtsError;
use crate::platform::Backend;
use crate::strutil::{concat2, concat3, join_path, spec_join_path, str_eq};
use vstd::string::*;

verus! {

/// The configuration consumed by every component. The speed multiplier
/// is carried as the digit string handed to the engine; its numeric
/// validation stays with the caller that owns the number parser.
#[derive(Clone, Debug)]
pub struct Config {
    pub python_path: String,
    pub models_dir: String,
    pub voices_dir: String,
    pub output_dir: String,
    pub backend: Backend,
    pub default_voice: String,
    pub default_speed: String,
    pub auto_play: bool,
    pub model_variant: String,
}

/// The mathematical content of a [`Config`].
pub ghost struct ConfigView {
    pub python_path: Seq<char>,
    pub models_dir: Seq<char>,
    pub voices_dir: Seq<char>,
    pub output_dir: Seq<char>,
    pub backend: Backend,
    pub default_voice: Seq<char>,
    pub default_speed: Seq<char>,
    pub auto_play: bool,
    pub model_variant: Seq<char>,
}

impl View for Config {
    type V = ConfigView;

    open spec fn view(&self) -> ConfigView {
        ConfigView {
            python_path: self.python_path@,
            models_dir: self.models_dir@,
            voices_dir: self.voices_dir@,
            output_dir: self.output_dir@,
            backend: self.backend,
            default_voice: self.default_voice@,
            default_speed: self.default_speed@,
            auto_play: self.auto_play,
            model_variant: self.model_variant@,
        }
    }
}

/// Relies on `dirs::home_dir`: the user's home directory, if the
/// platform reports one. Nothing is promised of the value, which
/// depends on the environment.
#[verifier::external_body]
fn home_dir_string() -> (r: Option<String>) {
    dirs::home_dir().map(|p| p.to_string_lossy().into_owned())
}

/// Relies on `dirs::config_dir`: the user's configuration directory,
/// if the platform reports one. Nothing is promised of the value,
/// which depends on the environment.
#[verifier::external_body]
fn config_dir_string() -> (r: Option<String>) {
    dirs::config_dir().map(|p| p.to_string_lossy().into_owned())
}

/// Whether a path needs the home directory to be expanded.
pub open spec fn needs_home(p: Seq<char>) -> bool {
    p == "~"@ || (p.len() >= 2 && p.subrange(0, 2) == "~/"@)
}

/// Tilde expansion against a known home directory: `~` alone becomes
/// the home directory, a leading `~/` is replaced by it, and every
/// other path is returned unchanged.
pub open spec fn spec_expand(p: Seq<char>, home: Seq<char>) -> Seq<char> {
    if p == "~"@ {
        home
    } else if p.len() >= 2 && p.subrange(0, 2) == "~/"@ {
        home + "/"@ + p.skip(2)
    } else {
        p
    }
}

/// Expands a leading tilde against the given home directory.
pub fn expand_path_with(p: &str, home: &str) -> (r: String)
    ensures
        r@ == spec_expand(p@, home@),
{
    if str_eq(p, "~") {
        home.to_owned()
    } else {
        let n = p.unicode_len();
        if n >= 2 && str_eq(p.substring_char(0, 2), "~/") {
            let rest = p.substring_char(2, n);
            let r = concat3(home, "/", rest);
            proof {
                assert(r@ =~= spec_expand(p@, home@));
            }
            r
        } else {
            p.to_owned()
        }
    }
}

/// Expands a leading tilde against the home directory the platform
/// reports. `None` only when the path needs the home directory and the
/// platform does not report one.
pub fn expand_path(p: &str) -> (r: Option<String>)
    ensures
        r matches Some(e) ==> (exists|h: Seq<char>| e@ == spec_expand(p@, h)),
        !needs_home(p@) ==> (r matches Some(e) && e@ == p@),
        r is None ==> needs_home(p@),
{
    let needs = if str_eq(p, "~") {
        true
    } else {
        let n = p.unicode_len();
        n >= 2 && str_eq(p.substring_char(0, 2), "~/")
    };
    if needs {
        match home_dir_string() {
            Some(home) => {
                let e = expand_path_with(p, home.as_str());
                proof {
                    assert(e@ == spec_expand(p@, home@));
                }
                Some(e)
            },
            None => None,
        }
    } else {
        let e = p.to_owned();
        proof {
            assert(e@ == spec_expand(p@, e@));
        }
        Some(e)
    }
}

/// The tool's base directory, `.qwen-tts` under the home directory.
/// `None` only when the platform reports no home directory.
pub fn base_dir() -> (r: Option<String>)
    ensures
        r matches Some(b) ==> (exists|h: Seq<char>| b@ == spec_join_path(h, '/', ".qwen-tts"@)),
{
    match home_dir_string() {
        Some(home) => {
            let b = join_path(home.as_str(), ".qwen-tts");
            Some(b)
        },
        None => None,
    }
}

/// The configuration file's path, `qwen-tts/config.toml` under the
/// platform's configuration directory. `None` only when the platform
/// reports no configuration directory.
pub fn config_path() -> (r: Option<String>)
    ensures
        r matches Some(c) ==> (exists|d: Seq<char>| c@ == d + "/qwen-tts/config.toml"@),
{
    match config_dir_string() {
        Some(dir) => {
            let c = concat2(dir.as_str(), "/qwen-tts/config.toml");
            proof {
                assert(c@ == dir@ + "/qwen-tts/config.toml"@);
            }
            Some(c)
        },
        None => None,
    }
}

/// The default configuration for a freshly detected platform, rooted
/// at the given base directory.
pub open spec fn default_config_spec(base: Seq<char>, windows: bool, backend: Backend) -> ConfigView {
    ConfigView {
        python_path: if windows {
            base + "\\venv\\Scripts\\python.exe"@
        } else {
            base + "/venv/bin/python"@
        },
        models_dir: base + (if windows { "\\models"@ } else { "/models"@ }),
        voices_dir: base + (if windows { "\\voices"@ } else { "/voices"@ }),
        output_dir: base + (if windows { "\\outputs"@ } else { "/outputs"@ }),
        backend: backend,
        default_voice: "Vivian"@,
        default_speed: "1"@,
        auto_play: true,
        model_variant: "pro"@,
    }
}

/// Builds the default configuration: a virtual-environment interpreter
/// and the models, voices and outputs directories under the base
/// directory, the detected backend, and the stock voice, speed,
/// auto-play and variant defaults.
pub fn default_config(base: &str, windows: bool, backend: Backend) -> (r: Config)
    ensures
        r@ == default_config_spec(base@, windows, backend),
{
    let r = Config {
        python_path: if windows {
            concat2(base, "\\venv\\Scripts\\python.exe")
        } else {
            concat2(base, "/venv/bin/python")
        },
        models_dir: concat2(base, if windows { "\\models" } else { "/models" }),
        voices_dir: concat2(base, if windows { "\\voices" } else { "/voices" }),
        output_dir: concat2(base, if windows { "\\outputs" } else { "/outputs" }),
        backend: backend,
        default_voice: String::from_str("Vivian"),
        default_speed: String::from_str("1"),
        auto_play: true,
        model_variant: String::from_str("pro"),
    };
    r
}

/// The backend named by its configuration spelling.
pub open spec fn backend_of(s: Seq<char>) -> Option<Backend> {
    if s == "mlx"@ {
        Some(Backend::Mlx)
    } else if s == "cuda"@ {
        Some(Backend::Cuda)
    } else if s == "cpu"@ {
        Some(Backend::Cpu)
    } else {
        None
    }
}

/// Parses a backend spelling; the unknown-backend error names the
/// accepted spellings. Expects the lowercased spelling.
pub fn parse_backend(s: &str) -> (r: Result<Backend, TtsError>)
    ensures
        match backend_of(s@) {
            Some(b) => r matches Ok(rb) && rb == b,
            None => r matches Err(e) && e matches TtsError::UnknownBackend { value: v }
                && v@ == s@,
        },
{
    if str_eq(s, "mlx") {
        Ok(Backend::Mlx)
    } else if str_eq(s, "cuda") {
        Ok(Backend::Cuda)
    } else if str_eq(s, "cpu") {
        Ok(Backend::Cpu)
    } else {
        Err(TtsError::UnknownBackend { value: s.to_owned() })
    }
}

/// What `config set` does to the configuration: `Some` of the updated
/// view when the key and value are accepted, `None` when they are not.
pub open spec fn set_result_spec(old: ConfigView, key: Seq<char>, value: Seq<char>) -> Option<
    ConfigView,
> {
    if key == "python_path"@ {
        Some(ConfigView { python_path: value, ..old })
    } else if key == "models_dir"@ {
        Some(ConfigView { models_dir: value, ..old })
    } else if key == "voices_dir"@ {
        Some(ConfigView { voices_dir: value, ..old })
    } else if key == "output_dir"@ {
        Some(ConfigView { output_dir: value, ..old })
    } else if key == "backend"@ {
        match backend_of(value) {
            Some(b) => Some(ConfigView { backend: b, ..old }),
            None => None,
        }
    } else if key == "default_voice"@ {
        Some(ConfigView { default_voice: value, ..old })
    } else if key == "default_speed"@ {
        Some(ConfigView { default_speed: value, ..old })
    } else if key == "auto_play"@ {
        if value == "true"@ {
            Some(ConfigView { auto_play: true, ..old })
        } else if value == "false"@ {
            Some(ConfigView { auto_play: false, ..old })
        } else {
            None
        }
    } else if key == "model_variant"@ {
        if value == "pro"@ || value == "lite"@ {
            Some(ConfigView { model_variant: value, ..old })
        } else {
            None
        }
    } else {
        None
    }
}

/// The error `config set` reports when a key and value are refused.
pub open spec fn set_error_spec(key: Seq<char>, value: Seq<char>, e: TtsError) -> bool {
    if key == "backend"@ {
        e matches TtsError::UnknownBackend { value: v } && v@ == value
    } else if key == "auto_play"@ {
        e matches TtsError::InvalidBool { value: v } && v@ == value
    } else if key == "model_variant"@ {
        e == TtsError::InvalidVariantSetting
    } else {
        e matches TtsError::UnknownConfigKey { key: k } && k@ == key
    }
}

impl Config {
    /// Copies a configuration, field by field.
    pub fn duplicate(&self) -> (r: Config)
        ensures
            r@ == self@,
    {
        Config {
            python_path: self.python_path.clone(),
            models_dir: self.models_dir.clone(),
            voices_dir: self.voices_dir.clone(),
            output_dir: self.output_dir.clone(),
            backend: self.backend,
            default_voice: self.default_voice.clone(),
            default_speed: self.default_speed.clone(),
            auto_play: self.auto_play,
            model_variant: self.model_variant.clone(),
        }
    }
}

/// Applies one `config set` key/value pair. Returns the updated
/// configuration exactly when [`set_result_spec`] accepts the pair,
/// and the matching error otherwise. The backend value is expected
/// already lowercased, and the speed value already checked as a
/// number, by the caller that owns those parsers.
pub fn apply_config_set(cfg: &Config, key: &str, value: &str) -> (r: Result<Config, TtsError>)
    ensures
        match r {
            Ok(c) => set_result_spec(cfg@, key@, value@) == Some(c@),
            Err(e) => set_result_spec(cfg@, key@, value@) is None && set_error_spec(
                key@,
                value@,
                e,
            ),
        },
{
    if str_eq(key, "python_path") {
        Ok(Config { python_path: value.to_owned(), ..cfg.duplicate() })
    } else if str_eq(key, "models_dir") {
        Ok(Config { models_dir: value.to_owned(), ..cfg.duplicate() })
    } else if str_eq(key, "voices_dir") {
        Ok(Config { voices_dir: value.to_owned(), ..cfg.duplicate() })
    } else if str_eq(key, "output_dir") {
        Ok(Config { output_dir: value.to_owned(), ..cfg.duplicate() })
    } else if str_eq(key, "backend") {
        match parse_backend(value) {
            Ok(b) => Ok(Config { backend: b, ..cfg.duplicate() }),
            Err(e) => Err(e),
        }
    } else if str_eq(key, "default_voice") {
        Ok(Config { default_voice: value.to_owned(), ..cfg.duplicate() })
    } else if str_eq(key, "default_speed") {
        Ok(Config { default_speed: value.to_owned(), ..cfg.duplicate() })
    } else if str_eq(key, "auto_play") {
        if str_eq(value, "true") {
            Ok(Config { auto_play: true, ..cfg.duplicate() })
        } else if str_eq(value, "false") {
            Ok(Config { auto_play: false, ..cfg.duplicate() })
        } else {
            Err(TtsError::InvalidBool { value: value.to_owned() })
        }
    } else if str_eq(key, "model_variant") {
        if str_eq(value, "pro") || str_eq(value, "lite") {
            Ok(Config { model_variant: value.to_owned(), ..cfg.duplicate() })
        } else {
            Err(TtsError::InvalidVariantSetting)
        }
    } else {
        Err(TtsError::UnknownConfigKey { key: key.to_owned() })
    }
}

} // verus!
