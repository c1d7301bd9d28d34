//! What the user asked to download: which tracks, and optional limits on the
//! audio sample rate, the video height and the frame rate.

use vstd::prelude::*;

verus! {

/// Which streams a download keeps.
#[derive(Clone, Copy, Debug, PartialEq, Eq)]
pub enum TrackType {
    Audio,
    Video,
    Both,
}

/// Audio formats that an extracted audio track can be converted to.
#[derive(Clone, Copy, Debug, PartialEq, Eq)]
pub enum AudioFormat {
    Mp3,
    M4a,
    Ogg,
    Aac,
    Opus,
}

/// How far post-processing may go to reach the requested format.
#[derive(Clone, Copy, Debug, PartialEq, Eq)]
pub enum TranscodePolicy {
    /// Keep the downloaded file as it is.
    Never,
    /// Change the container without re-encoding the streams.
    RemuxOnly,
    /// Re-encode the streams where the container needs it.
    AllowReencode,
}

/// Containers that a video download can end up in.
#[derive(Clone, Copy, Debug, PartialEq, Eq)]
pub enum VideoContainer {
    Mp4,
    Mkv,
}

/// The format the user picked for one download.
#[derive(Clone, Copy, Debug, PartialEq, Eq)]
pub struct FormatOptions {
    pub track_type: TrackType,
    /// Preferred audio sample rate, in Hz.
    pub asr: Option<u32>,
    /// Preferred video height, in pixels.
    pub height: Option<u32>,
    /// Preferred frame rate.
    pub fps: Option<u32>,
}

} // verus!
