//! Host platform detection: operating system, architecture and the
//! inference backend chosen from them.

use vstd::prelude::*;
use crate::strutil::str_eq;

verus! {

/// The operating system the tool runs on.
#[derive(Clone, Copy, PartialEq, Eq, Structural, Debug)]
pub enum Os {
    MacOs,
    Windows,
    Linux,
}

/// The hardware/runtime acceleration path used for inference.
#[derive(Clone, Copy, PartialEq, Eq, Structural, Debug)]
pub enum Backend {
    Mlx,
    Cuda,
    Cpu,
}

/// The operating system named by a compilation target string; anything
/// that is neither `macos` nor `windows` is treated as Linux.
pub open spec fn os_for(target_os: Seq<char>) -> Os {
    if target_os == "macos"@ {
        Os::MacOs
    } else if target_os == "windows"@ {
        Os::Windows
    } else {
        Os::Linux
    }
}

/// Maps the compilation target's operating-system string to an [`Os`].
pub fn detect_os(target_os: &str) -> (r: Os)
    ensures
        r == os_for(target_os@),
{
    if str_eq(target_os, "macos") {
        Os::MacOs
    } else if str_eq(target_os, "windows") {
        Os::Windows
    } else {
        Os::Linux
    }
}

/// Apple-silicon means the aarch64 architecture on macOS.
pub open spec fn apple_silicon_for(target_os: Seq<char>, target_arch: Seq<char>) -> bool {
    target_os == "macos"@ && target_arch == "aarch64"@
}

/// True when the compilation target is the Apple-silicon variant of macOS.
pub fn is_apple_silicon(target_os: &str, target_arch: &str) -> (r: bool)
    ensures
        r == apple_silicon_for(target_os@, target_arch@),
{
    if str_eq(target_os, "macos") {
        str_eq(target_arch, "aarch64")
    } else {
        false
    }
}

/// Backend choice policy, in priority order: Apple-silicon macOS gets
/// the Apple-GPU backend; otherwise a callable NVIDIA GPU query utility
/// selects CUDA; otherwise the CPU backend is the catch-all.
pub open spec fn backend_policy(os: Os, apple_silicon: bool, has_nvidia_gpu: bool) -> Backend {
    if os == Os::MacOs && apple_silicon {
        Backend::Mlx
    } else if has_nvidia_gpu {
        Backend::Cuda
    } else {
        Backend::Cpu
    }
}

/// Picks the inference backend from the probed host facts. Never fails:
/// the CPU backend is the catch-all.
pub fn detect_backend(os: Os, apple_silicon: bool, has_nvidia_gpu: bool) -> (r: Backend)
    ensures
        r == backend_policy(os, apple_silicon, has_nvidia_gpu),
{
    if os == Os::MacOs && apple_silicon {
        Backend::Mlx
    } else if has_nvidia_gpu {
        Backend::Cuda
    } else {
        Backend::Cpu
    }
}

/// The configuration-file spelling of each backend.
pub open spec fn backend_name_spec(b: Backend) -> Seq<char> {
    match b {
        Backend::Mlx => "mlx"@,
        Backend::Cuda => "cuda"@,
        Backend::Cpu => "cpu"@,
    }
}

/// Names a backend as it is spelled in the configuration file.
pub fn backend_name(b: Backend) -> (r: &'static str)
    ensures
        r@ == backend_name_spec(b),
{
    match b {
        Backend::Mlx => "mlx",
        Backend::Cuda => "cuda",
        Backend::Cpu => "cpu",
    }
}

/// The display spelling of each operating system.
pub open spec fn os_name_spec(os: Os) -> Seq<char> {
    match os {
        Os::MacOs => "macOS"@,
        Os::Windows => "Windows"@,
        Os::Linux => "Linux"@,
    }
}

/// Names an operating system for display.
pub fn os_name(os: Os) -> (r: &'static str)
    ensures
        r@ == os_name_spec(os),
{
    match os {
        Os::MacOs => "macOS",
        Os::Windows => "Windows",
        Os::Linux => "Linux",
    }
}

} // verus!
