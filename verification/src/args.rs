//! The yt-dlp arguments that select the format of a download (`-x`, `-f`,
//! `-S`) and those that post-process it (remux, recode, thumbnail, metadata).

use vstd::prelude::*;

use crate::config::OutputSettings;
use crate::models::{AudioFormat, FormatOptions, TrackType, TranscodePolicy, VideoContainer};
use crate::text::{
    decimal,
    decimal_string,
    join,
    join_strings,
    push_arg,
    push_str_arg,
    strings_view,
};

verus! {

/// `name` alone, or `name` followed by `sep` and the decimal value.
pub open spec fn sort_field(name: Seq<char>, sep: Seq<char>, value: Option<u32>) -> Seq<char> {
    match value {
        Some(v) => name + sep + decimal(v as nat),
        None => name,
    }
}

/// The fields of the `-S` sort order, most important first.
pub open spec fn sort_fields(fo: FormatOptions, os: OutputSettings) -> Seq<Seq<char>> {
    match fo.track_type {
        TrackType::Audio => seq![
            "lang"@,
            sort_field("asr"@, "~"@, fo.asr),
            "aext:m4a"@,
            "aext:mp3"@,
            "aext:ogg"@,
        ],
        _ => seq![
            "lang"@,
            sort_field("res"@, ":"@, fo.height),
            sort_field("fps"@, ":"@, fo.fps),
            "aext:m4a"@,
            "aext:mp3"@,
        ] + match os.video.container {
            VideoContainer::Mp4 => seq!["ext:mp4"@, "ext:m4a"@],
            VideoContainer::Mkv => seq!["ext"@],
        },
    }
}

/// The `-f` format selector for a track type.
pub open spec fn format_selector(t: TrackType) -> Seq<char> {
    match t {
        TrackType::Audio => "ba/best"@,
        TrackType::Video => "bv"@,
        TrackType::Both => "bv*+ba/bv+ba/best"@,
    }
}

/// The format arguments: audio extraction for audio-only downloads, the
/// format selector, and the sort order joined with commas.
pub open spec fn format_args(fo: FormatOptions, os: OutputSettings) -> Seq<Seq<char>> {
    let tail = seq![
        "-f"@,
        format_selector(fo.track_type),
        "-S"@,
        join(sort_fields(fo, os), ","@),
    ];
    match fo.track_type {
        TrackType::Audio => seq!["-x"@] + tail,
        _ => tail,
    }
}

/// The thumbnail can be embedded into mp3 and m4a files only.
pub open spec fn audio_format_embeds_thumbnail(f: AudioFormat) -> bool {
    f == AudioFormat::Mp3 || f == AudioFormat::M4a
}

/// The name yt-dlp uses for an audio format.
pub open spec fn audio_format_name(f: AudioFormat) -> Seq<char> {
    match f {
        AudioFormat::Mp3 => "mp3"@,
        AudioFormat::M4a => "m4a"@,
        AudioFormat::Ogg => "ogg"@,
        AudioFormat::Aac => "aac"@,
        AudioFormat::Opus => "opus"@,
    }
}

/// The name yt-dlp uses for a video container.
pub open spec fn container_name(c: VideoContainer) -> Seq<char> {
    match c {
        VideoContainer::Mp4 => "mp4"@,
        VideoContainer::Mkv => "mkv"@,
    }
}

/// `arg` as a one-element list where `cond` holds, else nothing.
pub open spec fn arg_if(cond: bool, arg: Seq<char>) -> Seq<Seq<char>> {
    if cond {
        seq![arg]
    } else {
        Seq::empty()
    }
}

/// A download with both tracks into mp4, without full re-encoding, needs its
/// (possibly Opus) audio converted to AAC for mp4 players.
pub open spec fn needs_mp4_audio_compat(fo: FormatOptions, os: OutputSettings) -> bool {
    &&& fo.track_type == TrackType::Both
    &&& os.video.container == VideoContainer::Mp4
    &&& os.video.policy != TranscodePolicy::AllowReencode
}

/// The post-processor arguments that turn the audio of an mp4 into AAC while
/// copying the video stream.
pub open spec fn mp4_audio_compat_args() -> Seq<Seq<char>> {
    seq![
        "--merge-output-format"@,
        "mp4"@,
        "--postprocessor-args"@,
        "ffmpeg:-c:v copy -c:a aac -b:a 128k"@,
    ]
}

/// Output arguments of an audio-only download.
pub open spec fn audio_output_args(os: OutputSettings) -> Seq<Seq<char>> {
    let thumbnail = arg_if(
        os.add_thumbnail && audio_format_embeds_thumbnail(os.audio.format),
        "--embed-thumbnail"@,
    );
    match os.audio.policy {
        TranscodePolicy::Never => thumbnail,
        _ => seq!["--audio-format"@, audio_format_name(os.audio.format)] + thumbnail,
    }
}

/// Output arguments of a download that keeps the video stream.
pub open spec fn video_output_args(fo: FormatOptions, os: OutputSettings) -> Seq<Seq<char>> {
    let compat = needs_mp4_audio_compat(fo, os);
    let thumbnail = arg_if(os.add_thumbnail, "--embed-thumbnail"@);
    let policy_args = match os.video.policy {
        TranscodePolicy::Never => if compat {
            seq!["--remux-video"@, "mp4"@]
        } else {
            Seq::empty()
        },
        TranscodePolicy::RemuxOnly => seq!["--remux-video"@, container_name(os.video.container)],
        TranscodePolicy::AllowReencode => seq![
            "--recode-video"@,
            container_name(os.video.container),
        ],
    };
    policy_args + thumbnail + if compat {
        mp4_audio_compat_args()
    } else {
        Seq::empty()
    }
}

/// The post-processing arguments, ending with `--add-metadata` where metadata
/// is wanted.
pub open spec fn output_args(fo: FormatOptions, os: OutputSettings) -> Seq<Seq<char>> {
    let core = match fo.track_type {
        TrackType::Audio => audio_output_args(os),
        _ => video_output_args(fo, os),
    };
    core + arg_if(os.add_metadata, "--add-metadata"@)
}

fn sort_field_string(name: &str, sep: &str, value: Option<u32>) -> (s: String)
    ensures
        s@ == sort_field(name@, sep@, value),
{
    let mut s = String::from_str(name);
    if let Some(v) = value {
        s.append(sep);
        let digits = decimal_string(v);
        s.append(digits.as_str());
    }
    s
}

/// The yt-dlp arguments that choose the format of the download.
pub fn build_format_args(format_options: &FormatOptions, output_settings: &OutputSettings) -> (args:
    Vec<String>)
    ensures
        strings_view(args@) == format_args(*format_options, *output_settings),
{
    let mut args: Vec<String> = Vec::new();
    let mut sort: Vec<String> = Vec::new();
    push_str_arg(&mut sort, "lang");
    match format_options.track_type {
        TrackType::Audio => {
            push_str_arg(&mut args, "-x");
            push_str_arg(&mut args, "-f");
            push_str_arg(&mut args, "ba/best");
            push_arg(&mut sort, sort_field_string("asr", "~", format_options.asr));
            // Prefer widely-supported audio codecs over Opus
            push_str_arg(&mut sort, "aext:m4a");
            push_str_arg(&mut sort, "aext:mp3");
            push_str_arg(&mut sort, "aext:ogg");
        },
        TrackType::Video | TrackType::Both => {
            push_str_arg(&mut args, "-f");
            match format_options.track_type {
                TrackType::Video => push_str_arg(&mut args, "bv"),
                _ => push_str_arg(&mut args, "bv*+ba/bv+ba/best"),
            }
            push_arg(&mut sort, sort_field_string("res", ":", format_options.height));
            push_arg(&mut sort, sort_field_string("fps", ":", format_options.fps));
            // Prefer widely-supported audio codecs over Opus to avoid playback issues
            push_str_arg(&mut sort, "aext:m4a");
            push_str_arg(&mut sort, "aext:mp3");
            match output_settings.video.container {
                VideoContainer::Mp4 => {
                    push_str_arg(&mut sort, "ext:mp4");
                    push_str_arg(&mut sort, "ext:m4a");
                },
                VideoContainer::Mkv => {
                    push_str_arg(&mut sort, "ext");
                },
            }
        },
    }
    assert(strings_view(sort@) =~= sort_fields(*format_options, *output_settings));
    let sort_arg = join_strings(&sort, ",");
    push_str_arg(&mut args, "-S");
    push_arg(&mut args, sort_arg);
    assert(strings_view(args@) =~= format_args(*format_options, *output_settings));
    args
}

fn audio_format_str(f: AudioFormat) -> (s: &'static str)
    ensures
        s@ == audio_format_name(f),
{
    match f {
        AudioFormat::Mp3 => "mp3",
        AudioFormat::M4a => "m4a",
        AudioFormat::Ogg => "ogg",
        AudioFormat::Aac => "aac",
        AudioFormat::Opus => "opus",
    }
}

fn container_str(c: VideoContainer) -> (s: &'static str)
    ensures
        s@ == container_name(c),
{
    match c {
        VideoContainer::Mp4 => "mp4",
        VideoContainer::Mkv => "mkv",
    }
}

fn embeds_thumbnail(f: AudioFormat) -> (b: bool)
    ensures
        b == audio_format_embeds_thumbnail(f),
{
    match f {
        AudioFormat::Mp3 | AudioFormat::M4a => true,
        _ => false,
    }
}

/// The yt-dlp arguments that post-process the download.
pub fn build_output_args(format_options: &FormatOptions, output_settings: &OutputSettings) -> (args:
    Vec<String>)
    ensures
        strings_view(args@) == output_args(*format_options, *output_settings),
{
    let ghost fo = *format_options;
    let ghost os = *output_settings;
    let mut args: Vec<String> = Vec::new();
    match format_options.track_type {
        TrackType::Audio => {
            match output_settings.audio.policy {
                TranscodePolicy::Never => {},
                TranscodePolicy::RemuxOnly | TranscodePolicy::AllowReencode => {
                    push_str_arg(&mut args, "--audio-format");
                    push_str_arg(&mut args, audio_format_str(output_settings.audio.format));
                },
            }
            if output_settings.add_thumbnail && embeds_thumbnail(output_settings.audio.format) {
                push_str_arg(&mut args, "--embed-thumbnail");
            }
            assert(strings_view(args@) =~= audio_output_args(os));
        },
        TrackType::Video | TrackType::Both => {
            let force_mp4_audio_compat = match format_options.track_type {
                TrackType::Both => match output_settings.video.container {
                    VideoContainer::Mp4 => match output_settings.video.policy {
                        TranscodePolicy::AllowReencode => false,
                        _ => true,
                    },
                    VideoContainer::Mkv => false,
                },
                _ => false,
            };
            assert(force_mp4_audio_compat == needs_mp4_audio_compat(fo, os));
            match output_settings.video.policy {
                TranscodePolicy::Never => {
                    // Under Never no post-processor normally runs; a forced
                    // remux makes the remuxer run so the audio gets converted.
                    if force_mp4_audio_compat {
                        push_str_arg(&mut args, "--remux-video");
                        push_str_arg(&mut args, "mp4");
                    }
                },
                TranscodePolicy::RemuxOnly => {
                    push_str_arg(&mut args, "--remux-video");
                    push_str_arg(&mut args, container_str(output_settings.video.container));
                },
                TranscodePolicy::AllowReencode => {
                    push_str_arg(&mut args, "--recode-video");
                    push_str_arg(&mut args, container_str(output_settings.video.container));
                },
            }
            if output_settings.add_thumbnail {
                push_str_arg(&mut args, "--embed-thumbnail");
            }
            // Opus audio inside mp4 does not play everywhere: merge into mp4
            // and have every ffmpeg post-processor copy the video and encode
            // the audio as AAC. A recode already re-encodes all streams.
            if force_mp4_audio_compat {
                push_str_arg(&mut args, "--merge-output-format");
                push_str_arg(&mut args, "mp4");
                push_str_arg(&mut args, "--postprocessor-args");
                push_str_arg(&mut args, "ffmpeg:-c:v copy -c:a aac -b:a 128k");
            }
            assert(strings_view(args@) =~= video_output_args(fo, os));
        },
    }
    if output_settings.add_metadata {
        push_str_arg(&mut args, "--add-metadata");
    }
    assert(strings_view(args@) =~= output_args(fo, os));
    args
}

} // verus!
