//! Export settings as they are edited, and presets of them in a file.

use crate::float::{F32, F32_ONE, F32_ZERO};
use crate::media::{
    audio_codec_name, video_codec_name, AudioCodec, VideoCodec,
};
use crate::text::same_text;
use vstd::prelude::*;

verus! {

/// The encoder settings of an export.
#[derive(Clone, Copy, PartialEq, Eq, Structural, Debug)]
pub struct EncoderConfigDraft {
    pub video_codec: VideoCodec,
    pub audio_codec: AudioCodec,
    /// Constant rate factor.
    pub crf: u32,
}

impl Default for EncoderConfigDraft {
    fn default() -> (d: Self)
        ensures
            d == (EncoderConfigDraft {
                video_codec: VideoCodec::H264,
                audio_codec: AudioCodec::Aac,
                crf: 23,
            }),
    {
        EncoderConfigDraft {
            video_codec: VideoCodec::H264,
            audio_codec: AudioCodec::Aac,
            crf: 23,
        }
    }
}

/// The output filters of an export.
#[derive(Clone, Copy, PartialEq, Eq, Structural, Debug)]
pub struct ExportFilterDraft {
    pub scale_enabled: bool,
    pub output_width: u32,
    pub output_height: u32,
    pub colorbalance_enabled: bool,
    pub brightness: F32,
    pub contrast: F32,
    pub saturation: F32,
}

impl Default for ExportFilterDraft {
    fn default() -> (d: Self)
        ensures
            !d.scale_enabled,
            d.output_width == 1920,
            d.output_height == 1080,
            !d.colorbalance_enabled,
            d.brightness.bits == F32_ZERO,
            d.contrast.bits == F32_ONE,
            d.saturation.bits == F32_ONE,
    {
        ExportFilterDraft {
            scale_enabled: false,
            output_width: 1920,
            output_height: 1080,
            colorbalance_enabled: false,
            brightness: F32::of(F32_ZERO),
            contrast: F32::of(F32_ONE),
            saturation: F32::of(F32_ONE),
        }
    }
}

/// A loudness measurement.
#[derive(Clone, Copy, PartialEq, Eq, Structural, Debug)]
pub struct LoudnessResult {
    pub integrated_lufs: F32,
    pub true_peak_dbtp: F32,
    pub lra: F32,
}

/// Encoder settings in a preset file: the codecs by name.
#[derive(Debug)]
pub struct PresetFile {
    pub video_codec: String,
    pub audio_codec: String,
    pub crf: u32,
}

/// The video codecs that a preset can bring back.
pub open spec fn preset_video(c: VideoCodec) -> bool {
    match c {
        VideoCodec::H264
        | VideoCodec::H265
        | VideoCodec::Vp9
        | VideoCodec::Vp8
        | VideoCodec::Av1
        | VideoCodec::ProRes
        | VideoCodec::DnxHd => true,
        _ => false,
    }
}

/// The audio codecs that a preset can bring back.
pub open spec fn preset_audio(c: AudioCodec) -> bool {
    match c {
        AudioCodec::Pcm
        | AudioCodec::Aac
        | AudioCodec::Mp3
        | AudioCodec::Opus
        | AudioCodec::Flac
        | AudioCodec::Vorbis
        | AudioCodec::Ac3 => true,
        _ => false,
    }
}

/// The video codec that a preset names; H.264 for any other text.
pub open spec fn video_codec_named(s: Seq<char>) -> VideoCodec {
    if exists|c: VideoCodec| preset_video(c) && video_codec_name(c) == s {
        choose|c: VideoCodec| preset_video(c) && video_codec_name(c) == s
    } else {
        VideoCodec::H264
    }
}

/// The audio codec that a preset names; AAC for any other text.
pub open spec fn audio_codec_named(s: Seq<char>) -> AudioCodec {
    if exists|c: AudioCodec| preset_audio(c) && audio_codec_name(c) == s {
        choose|c: AudioCodec| preset_audio(c) && audio_codec_name(c) == s
    } else {
        AudioCodec::Aac
    }
}

/// No two video codecs of presets share a name.
pub proof fn preset_video_distinct(a: VideoCodec, b: VideoCodec)
    requires
        preset_video(a),
        preset_video(b),
    ensures
        video_codec_name(a) == video_codec_name(b) ==> a == b,
{
    reveal_strlit("h264");
    reveal_strlit("hevc");
    reveal_strlit("vp9");
    reveal_strlit("vp8");
    reveal_strlit("av1");
    reveal_strlit("prores");
    reveal_strlit("dnxhd");
    if video_codec_name(a) == video_codec_name(b) {
        assert(video_codec_name(a).len() == video_codec_name(b).len());
        assert(video_codec_name(a)[1] == video_codec_name(b)[1]);
        assert(video_codec_name(a)[2] == video_codec_name(b)[2]);
    }
}

/// No two audio codecs of presets share a name.
pub proof fn preset_audio_distinct(a: AudioCodec, b: AudioCodec)
    requires
        preset_audio(a),
        preset_audio(b),
    ensures
        audio_codec_name(a) == audio_codec_name(b) ==> a == b,
{
    reveal_strlit("pcm");
    reveal_strlit("aac");
    reveal_strlit("mp3");
    reveal_strlit("opus");
    reveal_strlit("flac");
    reveal_strlit("vorbis");
    reveal_strlit("ac3");
    if audio_codec_name(a) == audio_codec_name(b) {
        assert(audio_codec_name(a).len() == audio_codec_name(b).len());
        assert(audio_codec_name(a)[0] == audio_codec_name(b)[0]);
        assert(audio_codec_name(a)[1] == audio_codec_name(b)[1]);
    }
}

fn find_video_codec(s: &str) -> (c: VideoCodec)
    ensures
        preset_video(c),
        video_codec_name(c) == s@ || (c == VideoCodec::H264 && forall|k: VideoCodec|
            preset_video(k) ==> #[trigger] video_codec_name(k) != s@),
{
    if same_text(s, "hevc") {
        VideoCodec::H265
    } else if same_text(s, "vp9") {
        VideoCodec::Vp9
    } else if same_text(s, "vp8") {
        VideoCodec::Vp8
    } else if same_text(s, "av1") {
        VideoCodec::Av1
    } else if same_text(s, "prores") {
        VideoCodec::ProRes
    } else if same_text(s, "dnxhd") {
        VideoCodec::DnxHd
    } else {
        VideoCodec::H264
    }
}

fn find_audio_codec(s: &str) -> (c: AudioCodec)
    ensures
        preset_audio(c),
        audio_codec_name(c) == s@ || (c == AudioCodec::Aac && forall|k: AudioCodec|
            preset_audio(k) ==> #[trigger] audio_codec_name(k) != s@),
{
    if same_text(s, "pcm") {
        AudioCodec::Pcm
    } else if same_text(s, "mp3") {
        AudioCodec::Mp3
    } else if same_text(s, "opus") {
        AudioCodec::Opus
    } else if same_text(s, "flac") {
        AudioCodec::Flac
    } else if same_text(s, "vorbis") {
        AudioCodec::Vorbis
    } else if same_text(s, "ac3") {
        AudioCodec::Ac3
    } else {
        AudioCodec::Aac
    }
}

impl PresetFile {
    /// The preset of these settings.
    pub fn from_draft(d: &EncoderConfigDraft) -> (p: Self)
        ensures
            p.video_codec@ == video_codec_name(d.video_codec),
            p.audio_codec@ == audio_codec_name(d.audio_codec),
            p.crf == d.crf,
    {
        PresetFile {
            video_codec: d.video_codec.name().to_owned(),
            audio_codec: d.audio_codec.name().to_owned(),
            crf: d.crf,
        }
    }

    /// The settings of this preset.
    pub fn to_draft(&self) -> (d: EncoderConfigDraft)
        ensures
            d.video_codec == video_codec_named(self.video_codec@),
            d.audio_codec == audio_codec_named(self.audio_codec@),
            d.crf == self.crf,
    {
        let video_codec = find_video_codec(self.video_codec.as_str());
        let audio_codec = find_audio_codec(self.audio_codec.as_str());
        proof {
            if video_codec_name(video_codec) == self.video_codec@ {
                preset_video_distinct(video_codec, video_codec_named(self.video_codec@));
            }
            if audio_codec_name(audio_codec) == self.audio_codec@ {
                preset_audio_distinct(audio_codec, audio_codec_named(self.audio_codec@));
            }
        }
        EncoderConfigDraft { video_codec, audio_codec, crf: self.crf }
    }
}

/// Settings with codecs that presets know come back unchanged from their preset.
pub proof fn preset_round_trip(d: EncoderConfigDraft)
    requires
        preset_video(d.video_codec),
        preset_audio(d.audio_codec),
    ensures
        video_codec_named(video_codec_name(d.video_codec)) == d.video_codec,
        audio_codec_named(audio_codec_name(d.audio_codec)) == d.audio_codec,
{
    assert(video_codec_name(d.video_codec) == video_codec_name(d.video_codec));
    assert(audio_codec_name(d.audio_codec) == audio_codec_name(d.audio_codec));
    preset_video_distinct(d.video_codec, video_codec_named(video_codec_name(d.video_codec)));
    preset_audio_distinct(d.audio_codec, audio_codec_named(audio_codec_name(d.audio_codec)));
}

/// The names that presets know the codecs by. Any other text is H.264, or AAC.
pub proof fn codecs_have_their_names(v: VideoCodec, a: AudioCodec, s: Seq<char>)
    ensures
        v is H264 ==> video_codec_named("h264"@) == v,
        v is H265 ==> video_codec_named("hevc"@) == v,
        v is Vp9 ==> video_codec_named("vp9"@) == v,
        v is Vp8 ==> video_codec_named("vp8"@) == v,
        v is Av1 ==> video_codec_named("av1"@) == v,
        v is ProRes ==> video_codec_named("prores"@) == v,
        v is DnxHd ==> video_codec_named("dnxhd"@) == v,
        a is Pcm ==> audio_codec_named("pcm"@) == a,
        a is Aac ==> audio_codec_named("aac"@) == a,
        a is Mp3 ==> audio_codec_named("mp3"@) == a,
        a is Opus ==> audio_codec_named("opus"@) == a,
        a is Flac ==> audio_codec_named("flac"@) == a,
        a is Vorbis ==> audio_codec_named("vorbis"@) == a,
        a is Ac3 ==> audio_codec_named("ac3"@) == a,
        (forall|k: VideoCodec| preset_video(k) ==> #[trigger] video_codec_name(k) != s)
            ==> video_codec_named(s) == VideoCodec::H264,
        (forall|k: AudioCodec| preset_audio(k) ==> #[trigger] audio_codec_name(k) != s)
            ==> audio_codec_named(s) == AudioCodec::Aac,
{
    if preset_video(v) {
        preset_round_trip(
            EncoderConfigDraft { video_codec: v, audio_codec: AudioCodec::Aac, crf: 0 },
        );
    }
    if preset_audio(a) {
        preset_round_trip(
            EncoderConfigDraft { video_codec: VideoCodec::H264, audio_codec: a, crf: 0 },
        );
    }
}

} // verus!
