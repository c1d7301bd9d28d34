//! Properties of the argument lists that hold for every input, proved over
//! the specifications that `build_format_args` and `build_output_args` meet.

use vstd::prelude::*;

use crate::args::{
    format_args,
    output_args,
    sort_fields,
};
use crate::config::OutputSettings;
use crate::models::{AudioFormat, FormatOptions, TrackType, TranscodePolicy, VideoContainer};
use crate::text::{decimal, digit_char, join};

verus! {

broadcast use vstd::seq_lib::group_seq_properties;

/// The format arguments depend on the output settings only through the video
/// container, and not at all for audio-only downloads.
pub proof fn lemma_format_args_depend_only_on_container(
    fo: FormatOptions,
    os1: OutputSettings,
    os2: OutputSettings,
)
    requires
        fo.track_type == TrackType::Audio || os1.video.container == os2.video.container,
    ensures
        format_args(fo, os1) == format_args(fo, os2),
{
    assert(sort_fields(fo, os1) == sort_fields(fo, os2));
}

/// The format arguments start with `-x` exactly for audio-only downloads, and
/// always end with `-S` and the sort order, whose first field is `lang`.
pub proof fn lemma_format_args_shape(fo: FormatOptions, os: OutputSettings)
    ensures
        ({
            let a = format_args(fo, os);
            &&& a.len() == if fo.track_type == TrackType::Audio { 5int } else { 4int }
            &&& a[a.len() - 4] == "-f"@
            &&& a[a.len() - 3] == match fo.track_type {
                TrackType::Audio => "ba/best"@,
                TrackType::Video => "bv"@,
                TrackType::Both => "bv*+ba/bv+ba/best"@,
            }
            &&& a[a.len() - 2] == "-S"@
            &&& a[a.len() - 1] == join(sort_fields(fo, os), ","@)
            &&& sort_fields(fo, os)[0] == "lang"@
            &&& (a[0] == "-x"@ <==> fo.track_type == TrackType::Audio)
        }),
{
    reveal_strlit("-x");
    reveal_strlit("-f");
    assert("-x"@[1] != "-f"@[1]);
}

/// Video-only downloads and downloads with both tracks get the same format
/// arguments but for the format selector.
pub proof fn lemma_video_and_both_differ_only_in_selector(
    fo1: FormatOptions,
    fo2: FormatOptions,
    os: OutputSettings,
)
    requires
        fo1.track_type == TrackType::Video,
        fo2.track_type == TrackType::Both,
        fo1.height == fo2.height,
        fo1.fps == fo2.fps,
    ensures
        format_args(fo1, os).len() == format_args(fo2, os).len(),
        format_args(fo1, os).update(1, Seq::empty()) == format_args(fo2, os).update(1, Seq::empty()),
{
    assert(sort_fields(fo1, os) == sort_fields(fo2, os));
    assert(format_args(fo1, os).update(1, Seq::empty()) =~= format_args(fo2, os).update(1, Seq::empty()));
}

/// The output arguments depend on the format options only through the track
/// type; downloads with both tracks get those of video-only downloads unless
/// their audio has to be converted for mp4.
pub proof fn lemma_output_args_follow_track_type(
    fo1: FormatOptions,
    fo2: FormatOptions,
    os: OutputSettings,
)
    requires
        fo1.track_type == fo2.track_type || (fo1.track_type == TrackType::Both
            && fo2.track_type == TrackType::Video && !(os.video.container == VideoContainer::Mp4
            && os.video.policy != TranscodePolicy::AllowReencode)),
    ensures
        output_args(fo1, os) == output_args(fo2, os),
{
}

/// Audio-only downloads ignore the video settings; the others ignore the
/// audio settings.
pub proof fn lemma_output_args_ignore_other_track_settings(
    fo: FormatOptions,
    os1: OutputSettings,
    os2: OutputSettings,
)
    requires
        os1.add_thumbnail == os2.add_thumbnail,
        os1.add_metadata == os2.add_metadata,
        fo.track_type == TrackType::Audio ==> os1.audio == os2.audio,
        fo.track_type != TrackType::Audio ==> os1.video == os2.video,
    ensures
        output_args(fo, os1) == output_args(fo, os2),
{
}

/// The thumbnail is embedded exactly where the user asked for it and the
/// file can hold it: always for video, for audio only in mp3 and m4a.
pub proof fn lemma_thumbnail_embedded_iff_wanted_and_supported(fo: FormatOptions, os: OutputSettings)
    ensures
        output_args(fo, os).contains("--embed-thumbnail"@) <==> os.add_thumbnail && (fo.track_type
            == TrackType::Audio ==> (os.audio.format == AudioFormat::Mp3 || os.audio.format
            == AudioFormat::M4a)),
{
    distinct_output_words();
}

/// Metadata is written exactly where the user asked for it, and its flag
/// comes last.
pub proof fn lemma_metadata_flag_last_iff_wanted(fo: FormatOptions, os: OutputSettings)
    ensures
        output_args(fo, os).contains("--add-metadata"@) <==> os.add_metadata,
        os.add_metadata ==> output_args(fo, os).last() == "--add-metadata"@,
{
    distinct_output_words();
}

/// The audio of a download with both tracks into mp4 is converted to AAC by
/// every ffmpeg post-processor unless the whole file is re-encoded anyway; no
/// other download gets post-processor arguments.
pub proof fn lemma_mp4_audio_converted_exactly_when_needed(fo: FormatOptions, os: OutputSettings)
    ensures
        output_args(fo, os).contains("--postprocessor-args"@) <==> (fo.track_type == TrackType::Both && os.video.container == VideoContainer::Mp4
            && os.video.policy != TranscodePolicy::AllowReencode),
        output_args(fo, os).contains("--merge-output-format"@) <==> (fo.track_type == TrackType::Both && os.video.container == VideoContainer::Mp4
            && os.video.policy != TranscodePolicy::AllowReencode),
        (fo.track_type == TrackType::Both && os.video.container == VideoContainer::Mp4
            && os.video.policy != TranscodePolicy::AllowReencode) ==> output_args(fo, os).contains(
            "ffmpeg:-c:v copy -c:a aac -b:a 128k"@,
        ),
{
    distinct_output_words();
}

/// Under the `Never` policy a video is neither re-encoded nor remuxed, except
/// for the remux that the mp4 audio conversion needs.
pub proof fn lemma_never_policy_keeps_video(fo: FormatOptions, os: OutputSettings)
    requires
        fo.track_type != TrackType::Audio,
        os.video.policy == TranscodePolicy::Never,
    ensures
        !output_args(fo, os).contains("--recode-video"@),
        (fo.track_type == TrackType::Both && os.video.container == VideoContainer::Mp4) ==> output_args(
            fo,
            os,
        ).subrange(0, 2) == seq!["--remux-video"@, "mp4"@],
        output_args(fo, os).contains("--remux-video"@) <==> (fo.track_type == TrackType::Both && os.video.container == VideoContainer::Mp4
            && os.video.policy != TranscodePolicy::AllowReencode),
{
    distinct_output_words();
}

/// Audio is converted exactly for audio-only downloads whose policy allows
/// it.
pub proof fn lemma_audio_format_flag_iff_audio_policy_allows(fo: FormatOptions, os: OutputSettings)
    ensures
        output_args(fo, os).contains("--audio-format"@) <==> fo.track_type == TrackType::Audio
            && os.audio.policy != TranscodePolicy::Never,
{
    distinct_output_words();
}

/// Video sort orders prefer mp4 files exactly when the container is mp4;
/// audio sort orders never do.
pub proof fn lemma_sort_prefers_mp4_iff_mp4_container(fo: FormatOptions, os: OutputSettings)
    ensures
        sort_fields(fo, os).contains("ext:mp4"@) <==> fo.track_type != TrackType::Audio
            && os.video.container == VideoContainer::Mp4,
{
    reveal_strlit("ext:mp4");
    reveal_strlit("lang");
    reveal_strlit("asr");
    reveal_strlit("res");
    reveal_strlit("fps");
    reveal_strlit("aext:m4a");
    reveal_strlit("aext:mp3");
    reveal_strlit("aext:ogg");
    reveal_strlit("ext:m4a");
    reveal_strlit("ext");
    let f = sort_fields(fo, os);
    if f.contains("ext:mp4"@) {
        let i = choose|i: int| 0 <= i < f.len() && f[i] == "ext:mp4"@;
        assert(f[i][0] == 'e');
        assert(f[i][1] == 'x');
        assert(f[i].len() == 7);
    }
    if fo.track_type != TrackType::Audio && os.video.container == VideoContainer::Mp4 {
        assert(f[5] == "ext:mp4"@);
    }
}

/// The number that a string of decimal digits denotes.
pub open spec fn digits_value(s: Seq<char>) -> int
    decreases s.len(),
{
    if s.len() == 0 {
        0
    } else {
        digits_value(s.drop_last()) * 10 + (s.last() as int - '0' as int)
    }
}

/// Decimal rendering writes only digits, with no leading zero but in `0`
/// itself, and the digits denote the number that was written.
pub proof fn lemma_decimal_denotes_its_number(n: nat)
    ensures
        decimal(n).len() >= 1,
        forall|i: int| 0 <= i < decimal(n).len() ==> '0' <= #[trigger] decimal(n)[i] <= '9',
        decimal(n)[0] == '0' ==> n == 0,
        digits_value(decimal(n)) == n,
    decreases n,
{
    if n >= 10 {
        lemma_decimal_denotes_its_number(n / 10);
        assert(decimal(n).drop_last() =~= decimal(n / 10));
        assert(digit_char(n % 10) as int == '0' as int + n % 10);
        assert(n == (n / 10) * 10 + n % 10);
        assert(decimal(n).last() == digit_char(n % 10));
        assert(digits_value(decimal(n)) == digits_value(decimal(n / 10)) * 10 + n % 10);
    } else {
        assert(digit_char(n) as int == '0' as int + n);
        assert(decimal(n).drop_last() =~= Seq::<char>::empty());
        assert(digits_value(decimal(n)) == digits_value(Seq::<char>::empty()) * 10 + n);
    }
}

/// Joining puts the separator exactly between neighbours: nothing joins to
/// nothing, one string joins to itself, and joining two non-empty lists one
/// after the other gives their joins with one separator in between.
pub proof fn lemma_join_separates_neighbours(
    l1: Seq<Seq<char>>,
    l2: Seq<Seq<char>>,
    sep: Seq<char>,
    x: Seq<char>,
)
    ensures
        join(Seq::empty(), sep) == Seq::<char>::empty(),
        join(seq![x], sep) == x,
        l1.len() >= 1 && l2.len() >= 1 ==> join(l1 + l2, sep) == join(l1, sep) + sep + join(l2, sep),
    decreases l2.len(),
{
    if l1.len() >= 1 && l2.len() >= 1 {
        if l2.len() == 1 {
            assert((l1 + l2).drop_last() =~= l1);
        } else {
            lemma_join_separates_neighbours(l1, l2.drop_last(), sep, x);
            assert((l1 + l2).drop_last() =~= l1 + l2.drop_last());
            assert(join(l1 + l2, sep) =~= join(l1, sep) + sep + join(l2, sep));
        }
    }
}

/// The text of a sort field with an optional limit: the name alone, or the
/// name, the separator and the limit in decimal.
pub open spec fn limited_field(name: Seq<char>, limit: Option<u32>) -> Seq<char> {
    match limit {
        Some(v) => name + decimal(v as nat),
        None => name.drop_last(),
    }
}

/// The sort order of a download that keeps the video stream: language, the
/// requested height and frame rate exactly as given (each field depends on
/// its own limit only), the preferred audio codecs, then mp4 files first for
/// the mp4 container and any extension otherwise.
pub proof fn lemma_video_sort_order(fo: FormatOptions, os: OutputSettings)
    requires
        fo.track_type != TrackType::Audio,
    ensures
        ({
            let f = sort_fields(fo, os);
            &&& f[0] == "lang"@
            &&& f[1] == limited_field("res:"@, fo.height)
            &&& f[2] == limited_field("fps:"@, fo.fps)
            &&& f[3] == "aext:m4a"@
            &&& f[4] == "aext:mp3"@
            &&& os.video.container == VideoContainer::Mp4 ==> f.len() == 7 && f[5] == "ext:mp4"@
                && f[6] == "ext:m4a"@
            &&& os.video.container == VideoContainer::Mkv ==> f.len() == 6 && f[5] == "ext"@
        }),
        format_args(fo, os)[3] == join(sort_fields(fo, os), ","@),
        format_args(fo, os).len() == 4,
{
    reveal_strlit("res:");
    reveal_strlit("res");
    reveal_strlit("fps:");
    reveal_strlit("fps");
    reveal_strlit(":");
    assert("res"@ + ":"@ =~= "res:"@);
    assert("fps"@ + ":"@ =~= "fps:"@);
    assert("res:"@.drop_last() =~= "res"@);
    assert("fps:"@.drop_last() =~= "fps"@);
}

/// The sort order of an audio-only download: language, the requested sample
/// rate exactly as given, then m4a, mp3 and ogg audio.
pub proof fn lemma_audio_sort_order(fo: FormatOptions, os: OutputSettings)
    requires
        fo.track_type == TrackType::Audio,
    ensures
        sort_fields(fo, os) == seq![
            "lang"@,
            limited_field("asr~"@, fo.asr),
            "aext:m4a"@,
            "aext:mp3"@,
            "aext:ogg"@,
        ],
        format_args(fo, os) == seq!["-x"@, "-f"@, "ba/best"@, "-S"@, join(sort_fields(fo, os), ","@)],
{
    reveal_strlit("asr~");
    reveal_strlit("asr");
    reveal_strlit("~");
    assert("asr"@ + "~"@ =~= "asr~"@);
    assert("asr~"@.drop_last() =~= "asr"@);
    assert(format_args(fo, os) =~= seq!["-x"@, "-f"@, "ba/best"@, "-S"@, join(sort_fields(fo, os), ","@)]);
}

/// A download that keeps the video stream is remuxed or recoded into the
/// chosen container, named right after the flag, whatever the thumbnail and
/// metadata settings are.
pub proof fn lemma_video_policy_targets_chosen_container(fo: FormatOptions, os: OutputSettings)
    requires
        fo.track_type != TrackType::Audio,
        os.video.policy != TranscodePolicy::Never,
    ensures
        output_args(fo, os)[0] == (if os.video.policy == TranscodePolicy::RemuxOnly {
            "--remux-video"@
        } else {
            "--recode-video"@
        }),
        output_args(fo, os)[1] == (if os.video.container == VideoContainer::Mp4 {
            "mp4"@
        } else {
            "mkv"@
        }),
{
}

/// An audio-only download whose policy allows conversion names the chosen
/// format right after `--audio-format`, the same for remuxing and
/// re-encoding.
pub proof fn lemma_audio_format_flag_names_chosen_format(
    fo: FormatOptions,
    os1: OutputSettings,
    os2: OutputSettings,
)
    requires
        fo.track_type == TrackType::Audio,
        os1.audio.policy != TranscodePolicy::Never,
        os2.audio.policy != TranscodePolicy::Never,
        os1.audio.format == os2.audio.format,
        os1.add_thumbnail == os2.add_thumbnail,
        os1.add_metadata == os2.add_metadata,
    ensures
        output_args(fo, os1)[0] == "--audio-format"@,
        output_args(fo, os1)[1] == match os1.audio.format {
            AudioFormat::Mp3 => "mp3"@,
            AudioFormat::M4a => "m4a"@,
            AudioFormat::Ogg => "ogg"@,
            AudioFormat::Aac => "aac"@,
            AudioFormat::Opus => "opus"@,
        },
        output_args(fo, os1) == output_args(fo, os2),
{
}

/// How many arguments post-processing takes: the flag and format name of an
/// audio conversion, the flag and container of a remux or recode, one for the
/// thumbnail, four for the mp4 audio conversion, and one for the metadata;
/// the mp4 audio conversion comes right before the metadata flag.
pub proof fn lemma_output_args_count_and_order(fo: FormatOptions, os: OutputSettings)
    ensures
        ({
            let a = output_args(fo, os);
            let compat = fo.track_type == TrackType::Both && os.video.container == VideoContainer::Mp4
                && os.video.policy != TranscodePolicy::AllowReencode;
            let converts = if fo.track_type == TrackType::Audio {
                os.audio.policy != TranscodePolicy::Never
            } else {
                os.video.policy != TranscodePolicy::Never || compat
            };
            let thumbnail = os.add_thumbnail && (fo.track_type == TrackType::Audio ==> (
            os.audio.format == AudioFormat::Mp3 || os.audio.format == AudioFormat::M4a));
            let meta: int = if os.add_metadata { 1 } else { 0 };
            &&& a.len() == (if converts { 2int } else { 0 }) + (if thumbnail { 1int } else { 0 }) + (
            if compat { 4int } else { 0 }) + meta
            &&& thumbnail ==> a[if converts { 2int } else { 0 }] == "--embed-thumbnail"@
            &&& compat ==> a.subrange(a.len() - meta - 4, a.len() - meta) == seq![
                "--merge-output-format"@,
                "mp4"@,
                "--postprocessor-args"@,
                "ffmpeg:-c:v copy -c:a aac -b:a 128k"@,
            ]
        }),
{
    let a = output_args(fo, os);
    let meta: int = if os.add_metadata { 1 } else { 0 };
    if fo.track_type == TrackType::Both && os.video.container == VideoContainer::Mp4
        && os.video.policy != TranscodePolicy::AllowReencode {
        assert(a.subrange(a.len() - meta - 4, a.len() - meta) =~= seq![
            "--merge-output-format"@,
            "mp4"@,
            "--postprocessor-args"@,
            "ffmpeg:-c:v copy -c:a aac -b:a 128k"@,
        ]);
    }
}

proof fn distinct_output_words()
    ensures
        "--embed-thumbnail"@.len() == 17,
        "--add-metadata"@.len() == 14,
        "--audio-format"@.len() == 14,
        "--remux-video"@.len() == 13,
        "--recode-video"@.len() == 14,
        "--merge-output-format"@.len() == 21,
        "--postprocessor-args"@.len() == 20,
        "ffmpeg:-c:v copy -c:a aac -b:a 128k"@.len() == 35,
        "mp3"@.len() == 3,
        "m4a"@.len() == 3,
        "ogg"@.len() == 3,
        "aac"@.len() == 3,
        "opus"@.len() == 4,
        "mp4"@.len() == 3,
        "mkv"@.len() == 3,
        "--add-metadata"@ != "--audio-format"@,
        "--add-metadata"@ != "--recode-video"@,
        "--audio-format"@ != "--recode-video"@,
{
    reveal_strlit("--embed-thumbnail");
    reveal_strlit("--add-metadata");
    reveal_strlit("--audio-format");
    reveal_strlit("--remux-video");
    reveal_strlit("--recode-video");
    reveal_strlit("--merge-output-format");
    reveal_strlit("--postprocessor-args");
    reveal_strlit("ffmpeg:-c:v copy -c:a aac -b:a 128k");
    reveal_strlit("mp3");
    reveal_strlit("m4a");
    reveal_strlit("ogg");
    reveal_strlit("aac");
    reveal_strlit("opus");
    reveal_strlit("mp4");
    reveal_strlit("mkv");
    assert("--add-metadata"@[3] != "--audio-format"@[3]);
    assert("--add-metadata"@[2] != "--recode-video"@[2]);
    assert("--audio-format"@[2] != "--recode-video"@[2]);
}

} // verus!
