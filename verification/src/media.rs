//! Names of the media engine: codecs, blend modes and transitions.

use crate::text::same_text;
use vstd::prelude::*;

verus! {

/// How a clip is blended onto the layers below it.
#[derive(Clone, Copy, PartialEq, Eq, Structural, Debug)]
pub enum BlendMode {
    Normal,
    Multiply,
    Screen,
    Overlay,
    SoftLight,
    HardLight,
    ColorDodge,
    ColorBurn,
    Darken,
    Lighten,
    Difference,
    Exclusion,
    Add,
    Subtract,
    And,
    Average,
    Bleach,
    Divide,
    Extremity,
    Freeze,
    Geometric,
    Glow,
    GrainExtract,
    GrainMerge,
    HardMix,
    HardOverlay,
    Harmonic,
    Heat,
    Interpolate,
    LinearLight,
    Multiply128,
    Negation,
    Or,
    Phoenix,
    PinLight,
    Reflect,
    SoftDifference,
    Stain,
    VividLight,
    Xor,
}

/// How a clip follows the one before it on its track.
#[derive(Clone, Copy, PartialEq, Eq, Structural, Debug)]
pub enum XfadeTransition {
    Dissolve,
    Fade,
    WipeLeft,
    WipeRight,
    WipeUp,
    WipeDown,
    SlideLeft,
    SlideRight,
    SlideUp,
    SlideDown,
    CircleOpen,
    CircleClose,
    FadeGrays,
    Pixelize,
}

/// Video codecs of the engine.
#[derive(Clone, Copy, PartialEq, Eq, Structural, Debug)]
pub enum VideoCodec {
    H264,
    H265,
    Vp8,
    Vp9,
    Av1,
    Av1Svt,
    ProRes,
    DnxHd,
    Mpeg4,
    Mpeg2,
    Mjpeg,
    Png,
    Ffv1,
    Unknown,
}

/// Audio codecs of the engine.
#[derive(Clone, Copy, PartialEq, Eq, Structural, Debug)]
pub enum AudioCodec {
    Aac,
    Mp3,
    Opus,
    Flac,
    Pcm,
    Pcm16,
    Pcm24,
    Vorbis,
    Ac3,
    Eac3,
    Dts,
    Alac,
    Unknown,
}

/// The blend modes that a project file tells apart.
pub open spec fn is_saved_blend_mode(m: BlendMode) -> bool {
    match m {
        BlendMode::Normal
        | BlendMode::Multiply
        | BlendMode::Screen
        | BlendMode::Overlay
        | BlendMode::SoftLight
        | BlendMode::HardLight
        | BlendMode::ColorDodge
        | BlendMode::ColorBurn
        | BlendMode::Darken
        | BlendMode::Lighten
        | BlendMode::Difference
        | BlendMode::Exclusion => true,
        _ => false,
    }
}

/// The name of a blend mode in a project file.
pub open spec fn blend_mode_name(m: BlendMode) -> Seq<char> {
    match m {
        BlendMode::Normal => "Normal"@,
        BlendMode::Multiply => "Multiply"@,
        BlendMode::Screen => "Screen"@,
        BlendMode::Overlay => "Overlay"@,
        BlendMode::SoftLight => "SoftLight"@,
        BlendMode::HardLight => "HardLight"@,
        BlendMode::ColorDodge => "ColorDodge"@,
        BlendMode::ColorBurn => "ColorBurn"@,
        BlendMode::Darken => "Darken"@,
        BlendMode::Lighten => "Lighten"@,
        BlendMode::Difference => "Difference"@,
        BlendMode::Exclusion => "Exclusion"@,
        _ => "Normal"@,
    }
}

/// The name of a blend mode in a project file; a mode that the file cannot tell
/// apart is written as `Normal`.
pub fn blend_mode_to_str(m: BlendMode) -> (s: &'static str)
    ensures
        s@ == blend_mode_name(m),
{
    match m {
        BlendMode::Normal => "Normal",
        BlendMode::Multiply => "Multiply",
        BlendMode::Screen => "Screen",
        BlendMode::Overlay => "Overlay",
        BlendMode::SoftLight => "SoftLight",
        BlendMode::HardLight => "HardLight",
        BlendMode::ColorDodge => "ColorDodge",
        BlendMode::ColorBurn => "ColorBurn",
        BlendMode::Darken => "Darken",
        BlendMode::Lighten => "Lighten",
        BlendMode::Difference => "Difference",
        BlendMode::Exclusion => "Exclusion",
        _ => "Normal",
    }
}

/// The blend mode that the text `s` in a project file stands for: the one with
/// that name, or `Normal`.
pub open spec fn blend_mode_named(s: Seq<char>) -> BlendMode {
    if exists|k: BlendMode| is_saved_blend_mode(k) && blend_mode_name(k) == s {
        choose|k: BlendMode| is_saved_blend_mode(k) && blend_mode_name(k) == s
    } else {
        BlendMode::Normal
    }
}

/// The blend mode that a project file names, or `Normal` for any other text.
pub fn blend_mode_from_str(s: &str) -> (m: BlendMode)
    ensures
        m == blend_mode_named(s@),
{
    let m = find_blend_mode(s);
    proof {
        if blend_mode_name(m) == s@ {
            saved_blend_modes_distinct(m, blend_mode_named(s@));
        }
    }
    m
}

fn find_blend_mode(s: &str) -> (m: BlendMode)
    ensures
        is_saved_blend_mode(m),
        blend_mode_name(m) == s@ || (m == BlendMode::Normal && forall|k: BlendMode|
            is_saved_blend_mode(k) ==> #[trigger] blend_mode_name(k) != s@),
{
    if same_text(s, "Multiply") {
        BlendMode::Multiply
    } else if same_text(s, "Screen") {
        BlendMode::Screen
    } else if same_text(s, "Overlay") {
        BlendMode::Overlay
    } else if same_text(s, "SoftLight") {
        BlendMode::SoftLight
    } else if same_text(s, "HardLight") {
        BlendMode::HardLight
    } else if same_text(s, "ColorDodge") {
        BlendMode::ColorDodge
    } else if same_text(s, "ColorBurn") {
        BlendMode::ColorBurn
    } else if same_text(s, "Darken") {
        BlendMode::Darken
    } else if same_text(s, "Lighten") {
        BlendMode::Lighten
    } else if same_text(s, "Difference") {
        BlendMode::Difference
    } else if same_text(s, "Exclusion") {
        BlendMode::Exclusion
    } else {
        BlendMode::Normal
    }
}

/// The label of a blend mode in the inspector.
pub fn blend_mode_label(mode: BlendMode) -> (s: &'static str)
    ensures
        s@ == match mode {
            BlendMode::Normal => "Normal"@,
            BlendMode::Multiply => "Multiply"@,
            BlendMode::Screen => "Screen"@,
            BlendMode::Overlay => "Overlay"@,
            _ => "Custom"@,
        },
{
    match mode {
        BlendMode::Normal => "Normal",
        BlendMode::Multiply => "Multiply",
        BlendMode::Screen => "Screen",
        BlendMode::Overlay => "Overlay",
        _ => "Custom",
    }
}

/// The name of a transition, as the engine and a project file write it.
pub open spec fn xfade_name(t: XfadeTransition) -> Seq<char> {
    match t {
        XfadeTransition::Dissolve => "dissolve"@,
        XfadeTransition::Fade => "fade"@,
        XfadeTransition::WipeLeft => "wipeleft"@,
        XfadeTransition::WipeRight => "wiperight"@,
        XfadeTransition::WipeUp => "wipeup"@,
        XfadeTransition::WipeDown => "wipedown"@,
        XfadeTransition::SlideLeft => "slideleft"@,
        XfadeTransition::SlideRight => "slideright"@,
        XfadeTransition::SlideUp => "slideup"@,
        XfadeTransition::SlideDown => "slidedown"@,
        XfadeTransition::CircleOpen => "circleopen"@,
        XfadeTransition::CircleClose => "circleclose"@,
        XfadeTransition::FadeGrays => "fadegrays"@,
        XfadeTransition::Pixelize => "pixelize"@,
    }
}

impl XfadeTransition {
    /// The name of this transition.
    pub fn as_str(self) -> (s: &'static str)
        ensures
            s@ == xfade_name(self),
    {
        match self {
            XfadeTransition::Dissolve => "dissolve",
            XfadeTransition::Fade => "fade",
            XfadeTransition::WipeLeft => "wipeleft",
            XfadeTransition::WipeRight => "wiperight",
            XfadeTransition::WipeUp => "wipeup",
            XfadeTransition::WipeDown => "wipedown",
            XfadeTransition::SlideLeft => "slideleft",
            XfadeTransition::SlideRight => "slideright",
            XfadeTransition::SlideUp => "slideup",
            XfadeTransition::SlideDown => "slidedown",
            XfadeTransition::CircleOpen => "circleopen",
            XfadeTransition::CircleClose => "circleclose",
            XfadeTransition::FadeGrays => "fadegrays",
            XfadeTransition::Pixelize => "pixelize",
        }
    }
}

/// The transition that the text `s` names, if there is one.
pub open spec fn xfade_named(s: Seq<char>) -> Option<XfadeTransition> {
    if exists|k: XfadeTransition| xfade_name(k) == s {
        Some(choose|k: XfadeTransition| xfade_name(k) == s)
    } else {
        None
    }
}

/// The transition with the name `s`, if there is one.
pub fn xfade_from_str(s: &str) -> (t: Option<XfadeTransition>)
    ensures
        t == xfade_named(s@),
{
    let t = find_xfade(s);
    proof {
        if let Some(kind) = t {
            assert(xfade_name(kind) == s@);
            xfade_names_distinct(kind, xfade_named(s@)->Some_0);
        }
    }
    t
}

fn find_xfade(s: &str) -> (t: Option<XfadeTransition>)
    ensures
        match t {
            Some(kind) => xfade_name(kind) == s@,
            None => forall|kind: XfadeTransition| #[trigger] xfade_name(kind) != s@,
        },
{
    if same_text(s, "dissolve") {
        Some(XfadeTransition::Dissolve)
    } else if same_text(s, "fade") {
        Some(XfadeTransition::Fade)
    } else if same_text(s, "wipeleft") {
        Some(XfadeTransition::WipeLeft)
    } else if same_text(s, "wiperight") {
        Some(XfadeTransition::WipeRight)
    } else if same_text(s, "wipeup") {
        Some(XfadeTransition::WipeUp)
    } else if same_text(s, "wipedown") {
        Some(XfadeTransition::WipeDown)
    } else if same_text(s, "slideleft") {
        Some(XfadeTransition::SlideLeft)
    } else if same_text(s, "slideright") {
        Some(XfadeTransition::SlideRight)
    } else if same_text(s, "slideup") {
        Some(XfadeTransition::SlideUp)
    } else if same_text(s, "slidedown") {
        Some(XfadeTransition::SlideDown)
    } else if same_text(s, "circleopen") {
        Some(XfadeTransition::CircleOpen)
    } else if same_text(s, "circleclose") {
        Some(XfadeTransition::CircleClose)
    } else if same_text(s, "fadegrays") {
        Some(XfadeTransition::FadeGrays)
    } else if same_text(s, "pixelize") {
        Some(XfadeTransition::Pixelize)
    } else {
        None
    }
}

/// No two transitions share a name.
pub proof fn xfade_names_distinct(a: XfadeTransition, b: XfadeTransition)
    ensures
        xfade_name(a) == xfade_name(b) ==> a == b,
{
    reveal_strlit("dissolve");
    reveal_strlit("fade");
    reveal_strlit("wipeleft");
    reveal_strlit("wiperight");
    reveal_strlit("wipeup");
    reveal_strlit("wipedown");
    reveal_strlit("slideleft");
    reveal_strlit("slideright");
    reveal_strlit("slideup");
    reveal_strlit("slidedown");
    reveal_strlit("circleopen");
    reveal_strlit("circleclose");
    reveal_strlit("fadegrays");
    reveal_strlit("pixelize");
    if xfade_name(a) == xfade_name(b) {
        assert(xfade_name(a).len() == xfade_name(b).len());
        assert(xfade_name(a)[0] == xfade_name(b)[0]);
        assert(xfade_name(a)[4] == xfade_name(b)[4]);
        assert(xfade_name(a)[5] == xfade_name(b)[5]);
    }
}

/// No two blend modes that a project file tells apart share a name.
pub proof fn saved_blend_modes_distinct(a: BlendMode, b: BlendMode)
    requires
        is_saved_blend_mode(a),
        is_saved_blend_mode(b),
    ensures
        blend_mode_name(a) == blend_mode_name(b) ==> a == b,
{
    reveal_strlit("Normal");
    reveal_strlit("Multiply");
    reveal_strlit("Screen");
    reveal_strlit("Overlay");
    reveal_strlit("SoftLight");
    reveal_strlit("HardLight");
    reveal_strlit("ColorDodge");
    reveal_strlit("ColorBurn");
    reveal_strlit("Darken");
    reveal_strlit("Lighten");
    reveal_strlit("Difference");
    reveal_strlit("Exclusion");
    if blend_mode_name(a) == blend_mode_name(b) {
        assert(blend_mode_name(a)[0] == blend_mode_name(b)[0]);
        assert(blend_mode_name(a)[1] == blend_mode_name(b)[1]);
        assert(blend_mode_name(a)[5] == blend_mode_name(b)[5]);
    }
}

/// The name of a video codec.
pub open spec fn video_codec_name(c: VideoCodec) -> Seq<char> {
    match c {
        VideoCodec::H264 => "h264"@,
        VideoCodec::H265 => "hevc"@,
        VideoCodec::Vp8 => "vp8"@,
        VideoCodec::Vp9 => "vp9"@,
        VideoCodec::Av1 => "av1"@,
        VideoCodec::Av1Svt => "av1"@,
        VideoCodec::ProRes => "prores"@,
        VideoCodec::DnxHd => "dnxhd"@,
        VideoCodec::Mpeg4 => "mpeg4"@,
        VideoCodec::Mpeg2 => "mpeg2video"@,
        VideoCodec::Mjpeg => "mjpeg"@,
        VideoCodec::Png => "png"@,
        VideoCodec::Ffv1 => "ffv1"@,
        VideoCodec::Unknown => "unknown"@,
    }
}

/// The name of an audio codec.
pub open spec fn audio_codec_name(c: AudioCodec) -> Seq<char> {
    match c {
        AudioCodec::Aac => "aac"@,
        AudioCodec::Mp3 => "mp3"@,
        AudioCodec::Opus => "opus"@,
        AudioCodec::Flac => "flac"@,
        AudioCodec::Pcm => "pcm"@,
        AudioCodec::Pcm16 => "pcm_s16le"@,
        AudioCodec::Pcm24 => "pcm_s24le"@,
        AudioCodec::Vorbis => "vorbis"@,
        AudioCodec::Ac3 => "ac3"@,
        AudioCodec::Eac3 => "eac3"@,
        AudioCodec::Dts => "dts"@,
        AudioCodec::Alac => "alac"@,
        AudioCodec::Unknown => "unknown"@,
    }
}

/// Calls `ff_format::VideoCodec::name` for the codec of the same variant and
/// claims that it gives the name in the table [`video_codec_name`].
#[verifier::external_body]
fn engine_video_codec_name(c: VideoCodec) -> (s: &'static str)
    ensures
        s@ == video_codec_name(c),
{
    let codec = match c {
        VideoCodec::H264 => ff_format::VideoCodec::H264, VideoCodec::H265 => ff_format::VideoCodec::H265,
        VideoCodec::Vp8 => ff_format::VideoCodec::Vp8, VideoCodec::Vp9 => ff_format::VideoCodec::Vp9,
        VideoCodec::Av1 => ff_format::VideoCodec::Av1, VideoCodec::Av1Svt => ff_format::VideoCodec::Av1Svt,
        VideoCodec::ProRes => ff_format::VideoCodec::ProRes, VideoCodec::DnxHd => ff_format::VideoCodec::DnxHd,
        VideoCodec::Mpeg4 => ff_format::VideoCodec::Mpeg4, VideoCodec::Mpeg2 => ff_format::VideoCodec::Mpeg2,
        VideoCodec::Mjpeg => ff_format::VideoCodec::Mjpeg, VideoCodec::Png => ff_format::VideoCodec::Png,
        VideoCodec::Ffv1 => ff_format::VideoCodec::Ffv1, VideoCodec::Unknown => ff_format::VideoCodec::Unknown,
    };
    codec.name()
}

/// Calls `ff_format::AudioCodec::name` for the codec of the same variant and
/// claims that it gives the name in the table [`audio_codec_name`].
#[verifier::external_body]
fn engine_audio_codec_name(c: AudioCodec) -> (s: &'static str)
    ensures
        s@ == audio_codec_name(c),
{
    let codec = match c {
        AudioCodec::Aac => ff_format::AudioCodec::Aac, AudioCodec::Mp3 => ff_format::AudioCodec::Mp3,
        AudioCodec::Opus => ff_format::AudioCodec::Opus, AudioCodec::Flac => ff_format::AudioCodec::Flac,
        AudioCodec::Pcm => ff_format::AudioCodec::Pcm, AudioCodec::Pcm16 => ff_format::AudioCodec::Pcm16,
        AudioCodec::Pcm24 => ff_format::AudioCodec::Pcm24, AudioCodec::Vorbis => ff_format::AudioCodec::Vorbis,
        AudioCodec::Ac3 => ff_format::AudioCodec::Ac3, AudioCodec::Eac3 => ff_format::AudioCodec::Eac3,
        AudioCodec::Dts => ff_format::AudioCodec::Dts, AudioCodec::Alac => ff_format::AudioCodec::Alac,
        AudioCodec::Unknown => ff_format::AudioCodec::Unknown,
    };
    codec.name()
}

impl VideoCodec {
    /// The name of this codec.
    pub fn name(self) -> (s: &'static str)
        ensures
            s@ == video_codec_name(self),
    {
        engine_video_codec_name(self)
    }
}

impl AudioCodec {
    /// The name of this codec.
    pub fn name(self) -> (s: &'static str)
        ensures
            s@ == audio_codec_name(self),
    {
        engine_audio_codec_name(self)
    }
}

/// The blend mode that is read back from the name a mode was saved under: the
/// mode itself where the file tells it apart, `Normal` otherwise.
pub proof fn blend_mode_round_trip(m: BlendMode)
    ensures
        blend_mode_named(blend_mode_name(m)) == (if is_saved_blend_mode(m) {
            m
        } else {
            BlendMode::Normal
        }),
{
    let saved = if is_saved_blend_mode(m) {
        m
    } else {
        BlendMode::Normal
    };
    assert(is_saved_blend_mode(saved) && blend_mode_name(saved) == blend_mode_name(m));
    saved_blend_modes_distinct(saved, blend_mode_named(blend_mode_name(m)));
}

/// Every transition is found again under its own name.
pub proof fn xfade_round_trip(t: XfadeTransition)
    ensures
        xfade_named(xfade_name(t)) == Some(t),
{
    assert(xfade_name(t) == xfade_name(t));
    xfade_names_distinct(t, xfade_named(xfade_name(t))->Some_0);
}

/// The names that the engine and project files know the transitions by.
pub proof fn transitions_have_their_names(t: XfadeTransition)
    ensures
        t is Dissolve ==> xfade_named("dissolve"@) == Some(t),
        t is Fade ==> xfade_named("fade"@) == Some(t),
        t is WipeLeft ==> xfade_named("wipeleft"@) == Some(t),
        t is WipeRight ==> xfade_named("wiperight"@) == Some(t),
        t is WipeUp ==> xfade_named("wipeup"@) == Some(t),
        t is WipeDown ==> xfade_named("wipedown"@) == Some(t),
        t is SlideLeft ==> xfade_named("slideleft"@) == Some(t),
        t is SlideRight ==> xfade_named("slideright"@) == Some(t),
        t is SlideUp ==> xfade_named("slideup"@) == Some(t),
        t is SlideDown ==> xfade_named("slidedown"@) == Some(t),
        t is CircleOpen ==> xfade_named("circleopen"@) == Some(t),
        t is CircleClose ==> xfade_named("circleclose"@) == Some(t),
        t is FadeGrays ==> xfade_named("fadegrays"@) == Some(t),
        t is Pixelize ==> xfade_named("pixelize"@) == Some(t),
{
    xfade_round_trip(t);
}

/// The names that project files know the blend modes by. Any other text, and any mode
/// without a name of its own, is `Normal`.
pub proof fn blend_modes_have_their_names(m: BlendMode, s: Seq<char>)
    ensures
        m is Normal ==> blend_mode_named("Normal"@) == m,
        m is Multiply ==> blend_mode_named("Multiply"@) == m,
        m is Screen ==> blend_mode_named("Screen"@) == m,
        m is Overlay ==> blend_mode_named("Overlay"@) == m,
        m is SoftLight ==> blend_mode_named("SoftLight"@) == m,
        m is HardLight ==> blend_mode_named("HardLight"@) == m,
        m is ColorDodge ==> blend_mode_named("ColorDodge"@) == m,
        m is ColorBurn ==> blend_mode_named("ColorBurn"@) == m,
        m is Darken ==> blend_mode_named("Darken"@) == m,
        m is Lighten ==> blend_mode_named("Lighten"@) == m,
        m is Difference ==> blend_mode_named("Difference"@) == m,
        m is Exclusion ==> blend_mode_named("Exclusion"@) == m,
        !is_saved_blend_mode(m) ==> blend_mode_name(m) == "Normal"@,
        (forall|k: BlendMode| is_saved_blend_mode(k) ==> #[trigger] blend_mode_name(k) != s)
            ==> blend_mode_named(s) == BlendMode::Normal,
{
    blend_mode_round_trip(m);
}

/// Codecs are named as the engine names them.
pub proof fn codecs_have_the_engines_names()
    ensures
        video_codec_name(VideoCodec::H264) == "h264"@,
        video_codec_name(VideoCodec::H265) == "hevc"@,
        video_codec_name(VideoCodec::Vp8) == "vp8"@,
        video_codec_name(VideoCodec::Vp9) == "vp9"@,
        video_codec_name(VideoCodec::Av1) == "av1"@,
        video_codec_name(VideoCodec::Av1Svt) == "av1"@,
        video_codec_name(VideoCodec::ProRes) == "prores"@,
        video_codec_name(VideoCodec::DnxHd) == "dnxhd"@,
        video_codec_name(VideoCodec::Mpeg4) == "mpeg4"@,
        video_codec_name(VideoCodec::Mpeg2) == "mpeg2video"@,
        video_codec_name(VideoCodec::Mjpeg) == "mjpeg"@,
        video_codec_name(VideoCodec::Png) == "png"@,
        video_codec_name(VideoCodec::Ffv1) == "ffv1"@,
        video_codec_name(VideoCodec::Unknown) == "unknown"@,
        audio_codec_name(AudioCodec::Aac) == "aac"@,
        audio_codec_name(AudioCodec::Mp3) == "mp3"@,
        audio_codec_name(AudioCodec::Opus) == "opus"@,
        audio_codec_name(AudioCodec::Flac) == "flac"@,
        audio_codec_name(AudioCodec::Pcm) == "pcm"@,
        audio_codec_name(AudioCodec::Pcm16) == "pcm_s16le"@,
        audio_codec_name(AudioCodec::Pcm24) == "pcm_s24le"@,
        audio_codec_name(AudioCodec::Vorbis) == "vorbis"@,
        audio_codec_name(AudioCodec::Ac3) == "ac3"@,
        audio_codec_name(AudioCodec::Eac3) == "eac3"@,
        audio_codec_name(AudioCodec::Dts) == "dts"@,
        audio_codec_name(AudioCodec::Alac) == "alac"@,
        audio_codec_name(AudioCodec::Unknown) == "unknown"@,
{
}

} // verus!
