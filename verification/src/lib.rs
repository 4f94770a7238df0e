//! Verified core of a text-to-speech command-line orchestrator.
//!
//! The library owns the decision logic of the tool: backend selection,
//! model repository resolution, the model acquisition state machines,
//! generation-command construction, output-file resolution, and the
//! playback fallback chain. Nearly every function here is pure over
//! plain values; the surrounding binary performs the file, process and
//! terminal work and feeds the results back in. The one outside crate
//! the library leans on is `dirs`, for the home and configuration
//! directories, behind two trusted wrappers in [`config`].

pub mod config;
pub mod errors;
pub mod generate;
pub mod models;
pub mod output;
pub mod platform;
pub mod playback;
pub mod strutil;
pub mod voices;
