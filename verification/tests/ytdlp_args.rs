use ytdlp_args::{
    build_format_args, build_output_args, AudioFormat, FormatOptions, OutputSettings, TrackType,
    TranscodePolicy, VideoContainer,
};

fn make_audio_format_options(asr: Option<u32>) -> FormatOptions {
    FormatOptions {
        track_type: TrackType::Audio,
        asr,
        height: None,
        fps: None,
    }
}

fn make_video_format_options(height: Option<u32>, fps: Option<u32>) -> FormatOptions {
    FormatOptions {
        track_type: TrackType::Video,
        asr: None,
        height,
        fps,
    }
}

fn make_both_format_options(height: Option<u32>, fps: Option<u32>) -> FormatOptions {
    FormatOptions {
        track_type: TrackType::Both,
        asr: None,
        height,
        fps,
    }
}

#[test]
fn audio_format_args_without_asr() {
    let format_options = make_audio_format_options(None);
    let settings = OutputSettings::default();

    let args = build_format_args(&format_options, &settings);

    let expected: Vec<String> = vec!["-x", "-f", "ba/best", "-S", "lang,asr,aext:m4a,aext:mp3,aext:ogg"]
        .into_iter()
        .map(String::from)
        .collect();

    assert_eq!(args, expected);
}

#[test]
fn audio_format_args_with_asr() {
    let format_options = make_audio_format_options(Some(44));
    let settings = OutputSettings::default();

    let args = build_format_args(&format_options, &settings);

    let expected: Vec<String> = vec!["-x", "-f", "ba/best", "-S", "lang,asr~44,aext:m4a,aext:mp3,aext:ogg"]
        .into_iter()
        .map(String::from)
        .collect();

    assert_eq!(args, expected);
}

#[test]
fn video_format_args_with_height_fps_and_mp4_bias() {
    let format_options = make_video_format_options(Some(720), Some(60));
    let settings = OutputSettings::default(); // default: video.container = Mp4

    let args = build_format_args(&format_options, &settings);

    let expected: Vec<String> = vec!["-f", "bv", "-S", "lang,res:720,fps:60,aext:m4a,aext:mp3,ext:mp4,ext:m4a"]
        .into_iter()
        .map(String::from)
        .collect();

    assert_eq!(args, expected);
}

#[test]
fn video_format_args_with_height_fps_and_mkv_no_mp4_bias() {
    let format_options = make_video_format_options(Some(720), Some(60));

    let mut settings = OutputSettings::default();
    settings.video.container = VideoContainer::Mkv;

    let args = build_format_args(&format_options, &settings);

    let expected: Vec<String> = vec!["-f", "bv", "-S", "lang,res:720,fps:60,aext:m4a,aext:mp3,ext"]
        .into_iter()
        .map(String::from)
        .collect();

    assert_eq!(args, expected);
}

#[test]
fn both_format_args_uses_both_selector_and_mp4_bias() {
    let format_options = make_both_format_options(Some(1080), Some(30));
    let settings = OutputSettings::default();

    let args = build_format_args(&format_options, &settings);

    let expected: Vec<String> = vec![
        "-f",
        "bv*+ba/bv+ba/best",
        "-S",
        "lang,res:1080,fps:30,aext:m4a,aext:mp3,ext:mp4,ext:m4a",
    ]
    .into_iter()
    .map(String::from)
    .collect();

    assert_eq!(args, expected);
}

#[test]
fn audio_output_args_never_policy_produces_no_flags() {
    let format_options = make_audio_format_options(None);

    let mut settings = OutputSettings::default();
    settings.audio.policy = TranscodePolicy::Never;
    settings.audio.format = AudioFormat::Mp3;

    let args = build_output_args(&format_options, &settings);

    let expected: Vec<String> = vec!["--embed-thumbnail", "--add-metadata"]
        .into_iter()
        .map(String::from)
        .collect();

    assert_eq!(args, expected);
}

#[test]
fn audio_output_args_allow_reencode_mp3() {
    let format_options = make_audio_format_options(None);

    let mut settings = OutputSettings::default();
    settings.audio.policy = TranscodePolicy::AllowReencode;
    settings.audio.format = AudioFormat::Mp3;

    let args = build_output_args(&format_options, &settings);

    let expected: Vec<String> = vec![
        "--audio-format",
        "mp3",
        "--embed-thumbnail",
        "--add-metadata",
    ]
    .into_iter()
    .map(String::from)
    .collect();

    assert_eq!(args, expected);
}

#[test]
fn audio_output_args_allow_reencode_ogg() {
    let format_options = make_audio_format_options(None);

    let mut settings = OutputSettings::default();
    settings.audio.policy = TranscodePolicy::AllowReencode;
    settings.audio.format = AudioFormat::Ogg;

    let args = build_output_args(&format_options, &settings);

    let expected: Vec<String> = vec!["--audio-format", "ogg", "--add-metadata"]
        .into_iter()
        .map(String::from)
        .collect();

    assert_eq!(args, expected);
}

#[test]
fn video_output_args_never_policy_produces_no_flags() {
    let format_options = make_video_format_options(Some(720), Some(60));

    let mut settings = OutputSettings::default();
    settings.video.policy = TranscodePolicy::Never;
    settings.video.container = VideoContainer::Mp4;

    let args = build_output_args(&format_options, &settings);

    let expected: Vec<String> = vec!["--embed-thumbnail", "--add-metadata"]
        .into_iter()
        .map(String::from)
        .collect();

    assert_eq!(args, expected);
}

#[test]
fn video_output_args_remux_mp4() {
    let format_options = make_video_format_options(Some(720), Some(60));

    let mut settings = OutputSettings::default();
    settings.video.policy = TranscodePolicy::RemuxOnly;
    settings.video.container = VideoContainer::Mp4;

    let args = build_output_args(&format_options, &settings);

    let expected: Vec<String> = vec![
        "--remux-video",
        "mp4",
        "--embed-thumbnail",
        "--add-metadata",
    ]
    .into_iter()
    .map(String::from)
    .collect();

    assert_eq!(args, expected);
}

#[test]
fn video_output_args_recode_mkv() {
    let format_options = make_video_format_options(Some(720), Some(60));

    let mut settings = OutputSettings::default();
    settings.video.policy = TranscodePolicy::AllowReencode;
    settings.video.container = VideoContainer::Mkv;

    let args = build_output_args(&format_options, &settings);

    let expected: Vec<String> = vec![
        "--recode-video",
        "mkv",
        "--embed-thumbnail",
        "--add-metadata",
    ]
    .into_iter()
    .map(String::from)
    .collect();

    assert_eq!(args, expected);
}

#[test]
fn both_track_type_uses_video_policy_for_output() {
    let format_options = make_both_format_options(Some(720), Some(60));

    let mut settings = OutputSettings::default();
    settings.video.policy = TranscodePolicy::RemuxOnly;
    settings.video.container = VideoContainer::Mp4;

    let args = build_output_args(&format_options, &settings);

    let expected: Vec<String> = vec![
        "--remux-video",
        "mp4",
        "--embed-thumbnail",
        "--merge-output-format",
        "mp4",
        "--postprocessor-args",
        "ffmpeg:-c:v copy -c:a aac -b:a 128k",
        "--add-metadata",
    ]
    .into_iter()
    .map(String::from)
    .collect();

    assert_eq!(args, expected);
}

#[test]
fn both_track_type_never_policy_mp4_adds_ppa() {
    let format_options = make_both_format_options(Some(1080), Some(30));

    let mut settings = OutputSettings::default();
    settings.video.policy = TranscodePolicy::Never;
    settings.video.container = VideoContainer::Mp4;
    settings.add_thumbnail = false;

    let args = build_output_args(&format_options, &settings);

    // Never policy normally skips post-processing, but for Both+Mp4 we
    // force --remux-video so ffmpeg runs and converts audio.
    let expected: Vec<String> = vec![
        "--remux-video",
        "mp4",
        "--merge-output-format",
        "mp4",
        "--postprocessor-args",
        "ffmpeg:-c:v copy -c:a aac -b:a 128k",
        "--add-metadata",
    ]
    .into_iter()
    .map(String::from)
    .collect();

    assert_eq!(args, expected);
}

#[test]
fn both_track_type_reencode_mp4_no_ppa() {
    let format_options = make_both_format_options(Some(1080), Some(30));

    let mut settings = OutputSettings::default();
    settings.video.policy = TranscodePolicy::AllowReencode;
    settings.video.container = VideoContainer::Mp4;
    settings.add_thumbnail = false;

    let args = build_output_args(&format_options, &settings);

    // AllowReencode uses --recode-video which handles audio conversion already;
    // no --ppa should be added.
    let expected: Vec<String> = vec!["--recode-video", "mp4", "--add-metadata"]
        .into_iter()
        .map(String::from)
        .collect();

    assert_eq!(args, expected);
}

#[test]
fn both_track_type_remux_mkv_no_ppa() {
    let format_options = make_both_format_options(Some(1080), Some(30));

    let mut settings = OutputSettings::default();
    settings.video.policy = TranscodePolicy::RemuxOnly;
    settings.video.container = VideoContainer::Mkv;
    settings.add_thumbnail = false;

    let args = build_output_args(&format_options, &settings);

    // MKV supports Opus natively, so no --ppa should be added.
    let expected: Vec<String> = vec!["--remux-video", "mkv", "--add-metadata"]
        .into_iter()
        .map(String::from)
        .collect();

    assert_eq!(args, expected);
}
