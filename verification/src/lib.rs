//! Command-line arguments for yt-dlp, built from the user's format choice
//! and output settings, with contracts that state every argument exactly.

pub mod args;
pub mod config;
pub mod laws;
pub mod models;
pub mod text;

pub use args::{build_format_args, build_output_args};
pub use config::{AudioOutputSettings, OutputSettings, VideoOutputSettings};
pub use models::{AudioFormat, FormatOptions, TrackType, TranscodePolicy, VideoContainer};
