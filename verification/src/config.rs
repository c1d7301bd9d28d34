//! The user's output settings: what audio and video files should end up as,
//! and whether thumbnails and metadata are embedded.

use vstd::prelude::*;

use crate::models::{AudioFormat, TranscodePolicy, VideoContainer};

verus! {

/// Output settings for audio-only downloads.
#[derive(Clone, Copy, Debug, PartialEq, Eq)]
pub struct AudioOutputSettings {
    pub format: AudioFormat,
    pub policy: TranscodePolicy,
}

/// Output settings for downloads that keep the video stream.
#[derive(Clone, Copy, Debug, PartialEq, Eq)]
pub struct VideoOutputSettings {
    pub container: VideoContainer,
    pub policy: TranscodePolicy,
}

/// All output settings.
#[derive(Clone, Copy, Debug, PartialEq, Eq)]
pub struct OutputSettings {
    pub audio: AudioOutputSettings,
    pub video: VideoOutputSettings,
    /// Embed the thumbnail into the file where its format allows it.
    pub add_thumbnail: bool,
    /// Write the metadata into the file.
    pub add_metadata: bool,
}

impl Default for AudioOutputSettings {
    /// mp3, remuxed where needed.
    fn default() -> (s: Self)
        ensures
            s.format == AudioFormat::Mp3,
            s.policy == TranscodePolicy::RemuxOnly,
    {
        AudioOutputSettings { format: AudioFormat::Mp3, policy: TranscodePolicy::RemuxOnly }
    }
}

impl Default for VideoOutputSettings {
    /// mp4, remuxed where needed.
    fn default() -> (s: Self)
        ensures
            s.container == VideoContainer::Mp4,
            s.policy == TranscodePolicy::RemuxOnly,
    {
        VideoOutputSettings { container: VideoContainer::Mp4, policy: TranscodePolicy::RemuxOnly }
    }
}

impl Default for OutputSettings {
    /// Default audio and video settings, with thumbnail and metadata embedded.
    fn default() -> (s: Self)
        ensures
            s.audio.format == AudioFormat::Mp3,
            s.audio.policy == TranscodePolicy::RemuxOnly,
            s.video.container == VideoContainer::Mp4,
            s.video.policy == TranscodePolicy::RemuxOnly,
            s.add_thumbnail,
            s.add_metadata,
    {
        OutputSettings {
            audio: AudioOutputSettings::default(),
            video: VideoOutputSettings::default(),
            add_thumbnail: true,
            add_metadata: true,
        }
    }
}

} // verus!
