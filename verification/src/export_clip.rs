//! From a clip of the export to the clip that is rendered.

use crate::effects::{
    apply_color_grade, apply_freeze, apply_keying, apply_reverse, apply_transform,
    apply_video_effects, audio_chain, crops, effect_steps, freeze_steps, grade_steps, insets_fit,
    joined, keeps32, keeps_unit32, keying_steps, keys_of, lut_text, corrected, step_if, transform_steps, video_chain, Clip, ColorGrade,
    FramePixels,
};
use crate::filter_step::{text_of, Step};
use crate::float::{
    eq32, f32_of, one32, unit32, zero32, F32, F64, F32_HUNDRED, F32_ONE, F32_ZERO,
};
use crate::framing::{
    animated, apply_animation, apply_aspect, apply_mask, apply_overlay, apply_subtitle,
    aspect_steps, mask_steps, overlay_steps, scale_steps, subtitle_steps, track_plays_its_keys,
};
use crate::keyframes::{plays_from, ClipAnimation, Key};
use crate::matte::{Keying, Mask, MaskShape};
use crate::media::{BlendMode, XfadeTransition};
use crate::overlay::{Overlay, Subtitle};
use crate::state::{
    ColorWheels, FitMode, ToneCurves, Transform, VideoEffects, WB_NEUTRAL_TEMP,
};
use crate::time::Duration;
use crate::timeline_clip::Freeze;
use std::sync::Arc;
use vstd::prelude::*;

verus! {

/// A clip of an export, with what the export needs to know of its source.
#[derive(Debug)]
pub struct ExportClip {
    pub path: String,
    pub start_on_track: Duration,
    pub in_point: Option<Duration>,
    pub out_point: Option<Duration>,
    pub transition: Option<XfadeTransition>,
    pub transition_duration: Duration,
    /// Length of the whole source.
    pub source_duration: Duration,
    /// Frames per second of the source.
    pub fps: F64,
    pub has_audio: bool,
    pub gain_db: F32,
    pub fade_in: Duration,
    pub fade_out: Duration,
    pub brightness: F32,
    pub contrast: F32,
    pub saturation: F32,
    pub speed: F32,
    pub reverse: bool,
    pub freeze: Option<Freeze>,
    pub opacity: F32,
    pub blend_mode: BlendMode,
    pub position_x: F32,
    pub position_y: F32,
    pub scale_pct: F32,
    /// A smaller file to decode in place of the source.
    pub proxy_path: Option<String>,
    pub lut_path: Option<String>,
    pub wb_temperature: u32,
    pub wb_tint: F32,
    pub hue_degrees: F32,
    pub gamma_r: F32,
    pub gamma_g: F32,
    pub gamma_b: F32,
    pub vignette: F32,
    pub vignette_x: F32,
    pub vignette_y: F32,
    /// Frame size of the source; zero where it has no picture.
    pub width: u32,
    pub height: u32,
    pub curves: Arc<ToneCurves>,
    pub wheels: ColorWheels,
    pub video_effects: VideoEffects,
    pub transform: Transform,
    pub overlay: Overlay,
    pub subtitle: Subtitle,
    pub keying: Keying,
    pub mask: Arc<Mask>,
    pub animation: Arc<ClipAnimation>,
}

/// All that effects set on a rendered clip.
pub struct Creative {
    pub speed: F32,
    pub volume_db: F32,
    pub volume_track: Option<Seq<Key>>,
    pub fade_in: Duration,
    pub fade_out: Duration,
    pub transition: Option<(XfadeTransition, Duration)>,
    pub brightness: F32,
    pub contrast: F32,
    pub saturation: F32,
    pub opacity: F32,
    pub opacity_track: Option<Seq<Key>>,
    pub position: (F32, F32),
    pub x_track: Option<Seq<Key>>,
    pub y_track: Option<Seq<Key>>,
    pub blend_mode: BlendMode,
    pub video: Seq<Step>,
    pub audio: Seq<Step>,
}

/// What effects have set on a clip.
pub open spec fn creative_of(c: Clip) -> Creative {
    Creative {
        speed: c.speed,
        volume_db: c.volume_db,
        volume_track: keys_of(c.volume_track),
        fade_in: c.fade_in,
        fade_out: c.fade_out,
        transition: match c.transition {
            Some(kind) => Some((kind, c.transition_duration)),
            None => None,
        },
        brightness: c.brightness,
        contrast: c.contrast,
        saturation: c.saturation,
        opacity: c.opacity,
        opacity_track: keys_of(c.opacity_track),
        position: (c.x, c.y),
        x_track: keys_of(c.x_track),
        y_track: keys_of(c.y_track),
        blend_mode: c.blend_mode,
        video: video_chain(c),
        audio: audio_chain(c),
    }
}

/// The settings that become effects, gathered from wherever they are kept.
pub struct Settings {
    pub speed: F32,
    pub gain_db: F32,
    pub fade_in: Duration,
    pub fade_out: Duration,
    pub transition: Option<(XfadeTransition, Duration)>,
    pub opacity: F32,
    pub blend_mode: BlendMode,
    pub position: (F32, F32),
    pub scale_pct: F32,
    pub reverse: bool,
    pub freeze: Option<Freeze>,
    pub grade: ColorGrade,
    pub video_effects: VideoEffects,
    pub transform: Transform,
    pub overlay: Overlay,
    pub subtitle: Subtitle,
    pub keying: Keying,
    pub mask: Mask,
    pub animation: ClipAnimation,
}

/// The fit of a clip into the canvas, where there is one.
pub open spec fn canvas_steps(
    canvas: Option<(u32, u32)>,
    fit_mode: FitMode,
    width: u32,
    height: u32,
    side: u32,
) -> Seq<Step> {
    match canvas {
        Some((w, h)) => aspect_steps(fit_mode, width, height, w, h, side),
        None => Seq::empty(),
    }
}

/// The video chain up to the colour grade.
pub open spec fn early_chain(s: Settings, width: u32, height: u32, px: FramePixels) -> Seq<Step> {
    Seq::<Step>::empty() + step_if(s.reverse, Step::Reverse) + freeze_steps(s.freeze)
        + keying_steps(s.keying) + transform_steps(s.transform, width, height, px) + grade_steps(
        s.grade,
        width,
        height,
    )
}

/// The whole video chain, in its order.
pub open spec fn full_chain(
    s: Settings,
    start: Duration,
    width: u32,
    height: u32,
    canvas: Option<(u32, u32)>,
    px: FramePixels,
) -> Seq<Step> {
    early_chain(s, width, height, px) + effect_steps(s.video_effects, px.aberration) + canvas_steps(
        canvas,
        s.transform.fit_mode,
        width,
        height,
        px.aspect_side,
    ) + overlay_steps(s.overlay, px.overlay_factor@) + subtitle_steps(s.subtitle) + mask_steps(
        s.mask,
        width,
        height,
        px,
    ) + scale_steps(s.animation, start, s.scale_pct, width, height)
}

/// What the settings set on a clip: each value where it is not neutral, and the
/// chain. A volume envelope stands in for the fixed gain.
pub open spec fn creative_for(
    s: Settings,
    start: Duration,
    width: u32,
    height: u32,
    canvas: Option<(u32, u32)>,
    px: FramePixels,
) -> Creative {
    let corrects = !zero32(s.grade.brightness) || !one32(s.grade.contrast) || !one32(
        s.grade.saturation,
    );
    Creative {
        speed: if !one32(s.speed) {
            s.speed
        } else {
            f32_of(F32_ONE)
        },
        volume_db: if !zero32(s.gain_db) && s.animation.volume.keys@.len() == 0 {
            s.gain_db
        } else {
            f32_of(F32_ZERO)
        },
        volume_track: animated(s.animation.volume.keys@, start, false),
        fade_in: s.fade_in,
        fade_out: s.fade_out,
        transition: s.transition,
        brightness: if corrects {
            s.grade.brightness
        } else {
            f32_of(F32_ZERO)
        },
        contrast: if corrects {
            s.grade.contrast
        } else {
            f32_of(F32_ONE)
        },
        saturation: if corrects {
            s.grade.saturation
        } else {
            f32_of(F32_ONE)
        },
        opacity: if !one32(s.opacity) {
            unit32(s.opacity)
        } else {
            f32_of(F32_ONE)
        },
        opacity_track: animated(s.animation.opacity.keys@, start, true),
        position: if !zero32(s.position.0) || !zero32(s.position.1) {
            s.position
        } else {
            (f32_of(F32_ZERO), f32_of(F32_ZERO))
        },
        x_track: animated(s.animation.pos_x.keys@, start, false),
        y_track: animated(s.animation.pos_y.keys@, start, false),
        blend_mode: s.blend_mode,
        video: full_chain(s, start, width, height, canvas, px),
        audio: Seq::<Step>::empty() + step_if(s.reverse, Step::AReverse),
    }
}

/// The pixel measures and the canvas are within the range that the steps can
/// hold, and the keys within the range of time.
pub open spec fn renderable(
    s: Settings,
    start: Duration,
    width: u32,
    height: u32,
    canvas: Option<(u32, u32)>,
    px: FramePixels,
) -> bool {
    &&& crops(s.transform, width, height) ==> insets_fit(px)
    &&& px.aberration <= i32::MAX
    &&& canvas matches Some((w, h)) ==> width * h <= u32::MAX && w * height <= u32::MAX
    &&& s.animation.fits(start)
}

/// The settings of an export clip.
pub open spec fn export_settings(c: ExportClip) -> Settings {
    Settings {
        speed: c.speed,
        gain_db: c.gain_db,
        fade_in: c.fade_in,
        fade_out: c.fade_out,
        transition: match c.transition {
            Some(kind) => Some((kind, c.transition_duration)),
            None => None,
        },
        opacity: c.opacity,
        blend_mode: c.blend_mode,
        position: (c.position_x, c.position_y),
        scale_pct: c.scale_pct,
        reverse: c.reverse,
        freeze: c.freeze,
        grade: ColorGrade {
            brightness: c.brightness,
            contrast: c.contrast,
            saturation: c.saturation,
            wb_temperature: c.wb_temperature,
            wb_tint: c.wb_tint,
            hue_degrees: c.hue_degrees,
            gamma_r: c.gamma_r,
            gamma_g: c.gamma_g,
            gamma_b: c.gamma_b,
            wheels: c.wheels,
            curves: *c.curves,
            lut_path: text_of(c.lut_path),
            vignette: c.vignette,
            vignette_x: c.vignette_x,
            vignette_y: c.vignette_y,
        },
        video_effects: c.video_effects,
        transform: c.transform,
        overlay: c.overlay,
        subtitle: c.subtitle,
        keying: c.keying,
        mask: *c.mask,
        animation: *c.animation,
    }
}

/// An optional text as an optional slice of it.
pub(crate) fn as_slice_of(s: &Option<String>) -> (r: Option<&str>)
    ensures
        lut_text(r) == text_of(*s),
{
    match s {
        Some(t) => Some(t.as_str()),
        None => None,
    }
}

/// The settings of a clip as the effects take them.
pub struct Look<'a> {
    pub speed: F32,
    pub gain_db: F32,
    pub fade_in: Duration,
    pub fade_out: Duration,
    pub transition: Option<XfadeTransition>,
    pub transition_duration: Duration,
    pub opacity: F32,
    pub blend_mode: BlendMode,
    pub position: (F32, F32),
    pub scale_pct: F32,
    pub reverse: bool,
    pub freeze: Option<Freeze>,
    pub brightness: F32,
    pub contrast: F32,
    pub saturation: F32,
    pub wb_temperature: u32,
    pub wb_tint: F32,
    pub hue_degrees: F32,
    pub gamma_r: F32,
    pub gamma_g: F32,
    pub gamma_b: F32,
    pub vignette: F32,
    pub vignette_x: F32,
    pub vignette_y: F32,
    pub lut_path: Option<&'a str>,
    pub curves: &'a ToneCurves,
    pub wheels: ColorWheels,
    pub video_effects: VideoEffects,
    pub transform: Transform,
    pub overlay: &'a Overlay,
    pub subtitle: &'a Subtitle,
    pub keying: Keying,
    pub mask: &'a Mask,
    pub animation: &'a ClipAnimation,
}

impl Look<'_> {
    pub open spec fn grade(self) -> ColorGrade {
        ColorGrade {
            brightness: self.brightness,
            contrast: self.contrast,
            saturation: self.saturation,
            wb_temperature: self.wb_temperature,
            wb_tint: self.wb_tint,
            hue_degrees: self.hue_degrees,
            gamma_r: self.gamma_r,
            gamma_g: self.gamma_g,
            gamma_b: self.gamma_b,
            wheels: self.wheels,
            curves: *self.curves,
            lut_path: lut_text(self.lut_path),
            vignette: self.vignette,
            vignette_x: self.vignette_x,
            vignette_y: self.vignette_y,
        }
    }

    pub open spec fn settings(self) -> Settings {
        Settings {
            speed: self.speed,
            gain_db: self.gain_db,
            fade_in: self.fade_in,
            fade_out: self.fade_out,
            transition: match self.transition {
                Some(kind) => Some((kind, self.transition_duration)),
                None => None,
            },
            opacity: self.opacity,
            blend_mode: self.blend_mode,
            position: self.position,
            scale_pct: self.scale_pct,
            reverse: self.reverse,
            freeze: self.freeze,
            grade: self.grade(),
            video_effects: self.video_effects,
            transform: self.transform,
            overlay: *self.overlay,
            subtitle: *self.subtitle,
            keying: self.keying,
            mask: *self.mask,
            animation: *self.animation,
        }
    }
}

fn apply_early(clip: Clip, look: &Look, width: u32, height: u32, px: &FramePixels) -> (r: Clip)
    requires
        clip.video_effects@.len() == 0,
        clip.audio_effects@.len() == 0,
        crops(look.transform, width, height) ==> insets_fit(*px),
    ensures
        r == (Clip {
            video_effects: r.video_effects,
            audio_effects: r.audio_effects,
            ..corrected(clip, look.brightness, look.contrast, look.saturation)
        }),
        video_chain(r) == early_chain(look.settings(), width, height, *px),
        audio_chain(r) == Seq::<Step>::empty() + step_if(look.reverse, Step::AReverse),
{
    assert(video_chain(clip) =~= Seq::<Step>::empty());
    assert(audio_chain(clip) =~= Seq::<Step>::empty());
    let clip = apply_reverse(clip, look.reverse);
    let clip = apply_freeze(clip, look.freeze);
    let clip = apply_keying(clip, &look.keying);
    let clip = apply_transform(clip, &look.transform, width, height, px);
    apply_color_grade(
        clip,
        look.brightness,
        look.contrast,
        look.saturation,
        look.wb_temperature,
        look.wb_tint,
        look.hue_degrees,
        look.gamma_r,
        look.gamma_g,
        look.gamma_b,
        &look.wheels,
        look.curves,
        look.lut_path,
        look.vignette,
        look.vignette_x,
        look.vignette_y,
        width,
        height,
    )
}

fn apply_late(
    clip: Clip,
    look: &Look,
    start: Duration,
    width: u32,
    height: u32,
    canvas: Option<(u32, u32)>,
    px: &FramePixels,
) -> (r: Clip)
    requires
        video_chain(clip) == early_chain(look.settings(), width, height, *px),
        px.aberration <= i32::MAX,
        canvas matches Some((w, h)) ==> width * h <= u32::MAX && w * height <= u32::MAX,
        look.animation.fits(start),
        clip.volume_track is None,
        clip.opacity_track is None,
        clip.x_track is None,
        clip.y_track is None,
        clip.x == f32_of(F32_ZERO),
        clip.y == f32_of(F32_ZERO),
    ensures
        r == (Clip {
            x: r.x,
            y: r.y,
            opacity_track: r.opacity_track,
            x_track: r.x_track,
            y_track: r.y_track,
            volume_track: r.volume_track,
            video_effects: r.video_effects,
            ..clip
        }),
        (r.x, r.y) == (if !zero32(look.position.0) || !zero32(look.position.1) {
            look.position
        } else {
            (f32_of(F32_ZERO), f32_of(F32_ZERO))
        }),
        keys_of(r.opacity_track) == animated(look.animation.opacity.keys@, start, true),
        keys_of(r.x_track) == animated(look.animation.pos_x.keys@, start, false),
        keys_of(r.y_track) == animated(look.animation.pos_y.keys@, start, false),
        keys_of(r.volume_track) == animated(look.animation.volume.keys@, start, false),
        video_chain(r) == full_chain(look.settings(), start, width, height, canvas, *px),
{
    let clip = apply_video_effects(clip, &look.video_effects, px);
    let clip = apply_canvas(clip, canvas, look.transform.fit_mode, width, height, px);
    let clip = apply_overlay(clip, look.overlay, px.overlay_factor.as_str());
    let clip = apply_subtitle(clip, look.subtitle);
    let clip = apply_mask(clip, look.mask, width, height, px);
    apply_animation(clip, look.animation, start, look.position, look.scale_pct, (width, height))
}

/// Sets everything that the settings ask for on a clip that has nothing set.
pub(crate) fn apply_look(
    clip: Clip,
    look: &Look,
    start: Duration,
    width: u32,
    height: u32,
    canvas: Option<(u32, u32)>,
    px: &FramePixels,
) -> (r: Clip)
    requires
        clip.untouched(),
        renderable(look.settings(), start, width, height, canvas, *px),
    ensures
        r.source == clip.source,
        r.in_point == clip.in_point,
        r.out_point == clip.out_point,
        r.offset == clip.offset,
        r.metadata == clip.metadata,
        r.proxy == clip.proxy,
        r.transition is None ==> r.transition_duration == clip.transition_duration,
        creative_of(r) == creative_for(look.settings(), start, width, height, canvas, *px),
{
    let mut clip = clip;
    if !look.speed.is_one() {
        clip.speed = look.speed;
    }
    if !look.gain_db.is_zero() && !look.animation.volume.is_active() {
        clip.volume_db = look.gain_db;
    }
    clip.fade_in = look.fade_in;
    clip.fade_out = look.fade_out;
    if let Some(kind) = look.transition {
        clip.transition = Some(kind);
        clip.transition_duration = look.transition_duration;
    }
    let clip = apply_early(clip, look, width, height, px);
    let mut clip = apply_late(clip, look, start, width, height, canvas, px);
    if !look.opacity.is_one() {
        clip.opacity = look.opacity.unit();
    }
    clip.blend_mode = look.blend_mode;
    clip
}

/// The export clip can be rendered into this canvas.
pub open spec fn can_render(c: ExportClip, canvas: Option<(u32, u32)>, px: FramePixels) -> bool {
    renderable(export_settings(c), c.start_on_track, c.width, c.height, canvas, px)
}

/// `r` is what the export clip is rendered as: its source, place and proxy, the
/// trim where both ends are set, and what its settings ask for.
pub open spec fn rendered(
    r: Clip,
    c: ExportClip,
    canvas: Option<(u32, u32)>,
    px: FramePixels,
) -> bool {
    &&& r.source@ == c.path@
    &&& r.offset == c.start_on_track
    &&& text_of(r.proxy) == text_of(c.proxy_path)
    &&& (r.in_point, r.out_point) == (if c.in_point is Some && c.out_point is Some {
        (c.in_point, c.out_point)
    } else {
        (None, None)
    })
    &&& r.metadata@.len() == 0
    &&& r.transition is None ==> r.transition_duration.nanos == 0
    &&& creative_of(r) == creative_for(
        export_settings(c),
        c.start_on_track,
        c.width,
        c.height,
        canvas,
        px,
    )
}

/// The rendered clip of one export clip.
pub fn clip_to_avio(c: &ExportClip, canvas: Option<(u32, u32)>, px: &FramePixels) -> (r: Clip)
    requires
        can_render(*c, canvas, *px),
    ensures
        rendered(r, *c, canvas, *px),
{
    let mut clip = Clip::new(c.path.as_str());
    clip.offset = c.start_on_track;
    clip.proxy = c.proxy_path.clone();
    if c.in_point.is_some() && c.out_point.is_some() {
        clip.in_point = c.in_point;
        clip.out_point = c.out_point;
    }
    let look = Look {
        speed: c.speed,
        gain_db: c.gain_db,
        fade_in: c.fade_in,
        fade_out: c.fade_out,
        transition: c.transition,
        transition_duration: c.transition_duration,
        opacity: c.opacity,
        blend_mode: c.blend_mode,
        position: (c.position_x, c.position_y),
        scale_pct: c.scale_pct,
        reverse: c.reverse,
        freeze: c.freeze,
        brightness: c.brightness,
        contrast: c.contrast,
        saturation: c.saturation,
        wb_temperature: c.wb_temperature,
        wb_tint: c.wb_tint,
        hue_degrees: c.hue_degrees,
        gamma_r: c.gamma_r,
        gamma_g: c.gamma_g,
        gamma_b: c.gamma_b,
        vignette: c.vignette,
        vignette_x: c.vignette_x,
        vignette_y: c.vignette_y,
        lut_path: as_slice_of(&c.lut_path),
        curves: &c.curves,
        wheels: c.wheels,
        video_effects: c.video_effects,
        transform: c.transform,
        overlay: &c.overlay,
        subtitle: &c.subtitle,
        keying: c.keying,
        mask: &c.mask,
        animation: &c.animation,
    };
    apply_look(clip, &look, c.start_on_track, c.width, c.height, canvas, px)
}

/// The rendered clips of a track, in the order of the track.
pub fn clips_to_avio(
    clips: &Vec<ExportClip>,
    canvas: Option<(u32, u32)>,
    px: &Vec<FramePixels>,
) -> (out: Vec<Clip>)
    requires
        px@.len() == clips@.len(),
        forall|i: int|
            0 <= i < clips@.len() ==> can_render(#[trigger] clips@[i], canvas, px@[i]),
    ensures
        out@.len() == clips@.len(),
        forall|i: int|
            0 <= i < clips@.len() ==> rendered(#[trigger] out@[i], clips@[i], canvas, px@[i]),
{
    let mut out: Vec<Clip> = Vec::new();
    let mut i: usize = 0;
    while i < clips.len()
        invariant
            i <= clips@.len(),
            px@.len() == clips@.len(),
            forall|k: int|
                0 <= k < clips@.len() ==> can_render(#[trigger] clips@[k], canvas, px@[k]),
            out@.len() == i,
            forall|k: int|
                0 <= k < i ==> rendered(#[trigger] out@[k], clips@[k], canvas, px@[k]),
        decreases clips@.len() - i,
    {
        assert(can_render(clips@[i as int], canvas, px@[i as int]));
        out.push(clip_to_avio(&clips[i], canvas, &px[i]));
        i = i + 1;
    }
    out
}

/// Fits a clip into the canvas, where there is one.
pub(crate) fn apply_canvas(
    clip: Clip,
    canvas: Option<(u32, u32)>,
    fit_mode: FitMode,
    width: u32,
    height: u32,
    px: &FramePixels,
) -> (r: Clip)
    requires
        canvas matches Some((w, h)) ==> width * h <= u32::MAX && w * height <= u32::MAX,
    ensures
        r == (Clip { video_effects: r.video_effects, ..clip }),
        video_chain(r) == video_chain(clip) + canvas_steps(
            canvas,
            fit_mode,
            width,
            height,
            px.aspect_side,
        ),
{
    match canvas {
        Some((w, h)) => apply_aspect(clip, fit_mode, width, height, w, h, px.aspect_side),
        None => {
            assert(video_chain(clip) + Seq::<Step>::empty() =~= video_chain(clip));
            clip
        },
    }
}

/// Nothing is set.
pub open spec fn neutral_settings(s: Settings) -> bool {
    &&& one32(s.speed)
    &&& zero32(s.gain_db)
    &&& s.fade_in.nanos == 0
    &&& s.fade_out.nanos == 0
    &&& s.transition is None
    &&& one32(s.opacity)
    &&& s.blend_mode == BlendMode::Normal
    &&& zero32(s.position.0)
    &&& zero32(s.position.1)
    &&& eq32(s.scale_pct, f32_of(F32_HUNDRED))
    &&& !s.reverse
    &&& s.freeze is None
    &&& zero32(s.grade.brightness)
    &&& one32(s.grade.contrast)
    &&& one32(s.grade.saturation)
    &&& s.grade.wb_temperature == WB_NEUTRAL_TEMP
    &&& zero32(s.grade.wb_tint)
    &&& zero32(s.grade.hue_degrees)
    &&& one32(s.grade.gamma_r)
    &&& one32(s.grade.gamma_g)
    &&& one32(s.grade.gamma_b)
    &&& s.grade.wheels.neutral()
    &&& s.grade.curves.neutral()
    &&& s.grade.lut_path is None
    &&& zero32(s.grade.vignette)
    &&& s.video_effects.neutral()
    &&& s.transform.neutral()
    &&& s.overlay.path is None
    &&& s.subtitle.path is None
    &&& !s.keying.enabled
    &&& s.mask.shape == MaskShape::Off
    &&& !s.animation.active()
}

/// A clip with nothing set that keeps its own framing is rendered as it is: no
/// step, and every value neutral.
pub proof fn neutral_settings_change_nothing(
    s: Settings,
    start: Duration,
    width: u32,
    height: u32,
    px: FramePixels,
)
    requires
        neutral_settings(s),
    ensures
        ({
            let c = creative_for(s, start, width, height, None, px);
            &&& c.video.len() == 0
            &&& c.audio.len() == 0
            &&& c.speed == f32_of(F32_ONE)
            &&& c.volume_db == f32_of(F32_ZERO)
            &&& c.volume_track is None
            &&& c.brightness == f32_of(F32_ZERO)
            &&& c.contrast == f32_of(F32_ONE)
            &&& c.saturation == f32_of(F32_ONE)
            &&& c.opacity == f32_of(F32_ONE)
            &&& c.opacity_track is None
            &&& c.position == (f32_of(F32_ZERO), f32_of(F32_ZERO))
            &&& c.x_track is None
            &&& c.y_track is None
            &&& c.transition is None
            &&& c.blend_mode == BlendMode::Normal
        }),
{
    assert(early_chain(s, width, height, px).len() == 0) by {
        assert(transform_steps(s.transform, width, height, px).len() == 0);
        assert(grade_steps(s.grade, width, height).len() == 0);
    }
    assert(effect_steps(s.video_effects, px.aberration).len() == 0);
}

/// The order of the chain: what comes before the canvas does not depend on it, and
/// the canvas comes before overlay, subtitle, mask and resize.
pub proof fn canvas_is_independent(
    s: Settings,
    start: Duration,
    width: u32,
    height: u32,
    canvas: Option<(u32, u32)>,
    px: FramePixels,
)
    ensures
        ({
            let before = early_chain(s, width, height, px) + effect_steps(
                s.video_effects,
                px.aberration,
            );
            let after = overlay_steps(s.overlay, px.overlay_factor@) + subtitle_steps(s.subtitle)
                + mask_steps(s.mask, width, height, px) + scale_steps(
                s.animation,
                start,
                s.scale_pct,
                width,
                height,
            );
            full_chain(s, start, width, height, canvas, px) == before + canvas_steps(
                canvas,
                s.transform.fit_mode,
                width,
                height,
                px.aspect_side,
            ) + after
        }),
{
    let before = early_chain(s, width, height, px) + effect_steps(s.video_effects, px.aberration);
    let fit = canvas_steps(canvas, s.transform.fit_mode, width, height, px.aspect_side);
    let overlay = overlay_steps(s.overlay, px.overlay_factor@);
    let subtitle = subtitle_steps(s.subtitle);
    let mask = mask_steps(s.mask, width, height, px);
    let scale = scale_steps(s.animation, start, s.scale_pct, width, height);
    joined(before + fit, overlay, subtitle);
    joined(before + fit, overlay + subtitle, mask);
    joined(before + fit, overlay + subtitle + mask, scale);
}

// ── What reaches the rendered clip ────────────────────────────────────────────

/// Whether a rendered clip has a track for these keys, played from `start` on, where
/// there are any.
pub open spec fn follows(
    track: Option<Vec<Key>>,
    keys: Seq<Key>,
    start: Duration,
    unit: bool,
) -> bool {
    &&& track is Some <==> keys.len() > 0
    &&& track is Some ==> plays_from(track->0@, keys, start, unit)
}

/// Whatever the settings are kept in, they reach the clip that carries them.
pub proof fn settings_arrive(
    r: Clip,
    s: Settings,
    start: Duration,
    width: u32,
    height: u32,
    canvas: Option<(u32, u32)>,
    px: FramePixels,
)
    requires
        s.animation.fits(start),
        creative_of(r) == creative_for(s, start, width, height, canvas, px),
    ensures
        r.fade_in == s.fade_in,
        r.fade_out == s.fade_out,
        keeps32(r.speed, s.speed),
        s.animation.volume.keys@.len() == 0 ==> keeps32(r.volume_db, s.gain_db),
        s.animation.volume.keys@.len() > 0 ==> zero32(r.volume_db),
        r.transition is Some <==> s.transition is Some,
        s.transition is Some ==> (r.transition->0, r.transition_duration) == s.transition->0,
        keeps32(r.brightness, s.grade.brightness),
        keeps32(r.contrast, s.grade.contrast),
        keeps32(r.saturation, s.grade.saturation),
        keeps_unit32(r.opacity, s.opacity),
        keeps32(r.x, s.position.0),
        keeps32(r.y, s.position.1),
        r.blend_mode == s.blend_mode,
        follows(r.volume_track, s.animation.volume.keys@, start, false),
        follows(r.opacity_track, s.animation.opacity.keys@, start, true),
        follows(r.x_track, s.animation.pos_x.keys@, start, false),
        follows(r.y_track, s.animation.pos_y.keys@, start, false),
        r.audio_effects@.len() == (if s.reverse {
            1int
        } else {
            0
        }),
        s.reverse ==> audio_chain(r)[0] == Step::AReverse,
        video_chain(r) == step_if(s.reverse, Step::Reverse) + freeze_steps(s.freeze)
            + keying_steps(s.keying) + transform_steps(s.transform, width, height, px)
            + grade_steps(s.grade, width, height) + effect_steps(s.video_effects, px.aberration)
            + canvas_steps(canvas, s.transform.fit_mode, width, height, px.aspect_side)
            + overlay_steps(s.overlay, px.overlay_factor@) + subtitle_steps(s.subtitle)
            + mask_steps(s.mask, width, height, px) + scale_steps(
            s.animation,
            start,
            s.scale_pct,
            width,
            height,
        ),
{
    let c = creative_of(r);
    let m = creative_for(s, start, width, height, canvas, px);
    assert(c.fade_in == m.fade_in && c.fade_out == m.fade_out);
    track_plays_its_keys(s.animation.volume.keys@, start, false);
    track_plays_its_keys(s.animation.opacity.keys@, start, true);
    track_plays_its_keys(s.animation.pos_x.keys@, start, false);
    track_plays_its_keys(s.animation.pos_y.keys@, start, false);
    assert(c.audio.len() == m.audio.len());
    assert(Seq::<Step>::empty() + step_if(s.reverse, Step::Reverse) =~= step_if(
        s.reverse,
        Step::Reverse,
    ));
    assert(c.video == m.video);
}

/// A clip is rendered as its settings ask: it plays its own source from its own place, in
/// its own piece where both ends are set, fades in by its fade-in and out by its fade-out,
/// has its own speed, gain, transition, colour, opacity, position and blend mode, and its
/// keys play from its start on. A volume envelope stands in for the fixed gain.
pub proof fn clip_is_rendered_as_set(
    r: Clip,
    c: ExportClip,
    canvas: Option<(u32, u32)>,
    px: FramePixels,
)
    requires
        can_render(c, canvas, px),
        rendered(r, c, canvas, px),
    ensures
        r.source@ == c.path@,
        r.offset == c.start_on_track,
        c.in_point is Some && c.out_point is Some ==> r.in_point == c.in_point && r.out_point
            == c.out_point,
        c.in_point is None || c.out_point is None ==> r.in_point is None && r.out_point is None,
        r.proxy is Some <==> c.proxy_path is Some,
        c.proxy_path is Some ==> r.proxy->0@ == c.proxy_path->0@,
        r.metadata@.len() == 0,
        r.fade_in == c.fade_in,
        r.fade_out == c.fade_out,
        keeps32(r.speed, c.speed),
        c.animation.volume.keys@.len() == 0 ==> keeps32(r.volume_db, c.gain_db),
        c.animation.volume.keys@.len() > 0 ==> zero32(r.volume_db),
        r.transition == c.transition,
        r.transition_duration == (if c.transition is Some {
            c.transition_duration
        } else {
            Duration { nanos: 0 }
        }),
        keeps32(r.brightness, c.brightness),
        keeps32(r.contrast, c.contrast),
        keeps32(r.saturation, c.saturation),
        keeps_unit32(r.opacity, c.opacity),
        keeps32(r.x, c.position_x),
        keeps32(r.y, c.position_y),
        r.blend_mode == c.blend_mode,
        follows(r.volume_track, c.animation.volume.keys@, c.start_on_track, false),
        follows(r.opacity_track, c.animation.opacity.keys@, c.start_on_track, true),
        follows(r.x_track, c.animation.pos_x.keys@, c.start_on_track, false),
        follows(r.y_track, c.animation.pos_y.keys@, c.start_on_track, false),
        r.audio_effects@.len() == (if c.reverse {
            1int
        } else {
            0
        }),
        c.reverse ==> r.audio_effects@[0]@ == Step::AReverse && r.video_effects@.len() > 0
            && r.video_effects@[0]@ == Step::Reverse,
{
    settings_arrive(
        r,
        export_settings(c),
        c.start_on_track,
        c.width,
        c.height,
        canvas,
        px,
    );
    if c.reverse {
        assert(audio_chain(r)[0] == r.audio_effects@[0]@);
        assert(video_chain(r).len() == r.video_effects@.len());
        assert(video_chain(r)[0] == r.video_effects@[0]@);
    }
}

/// The picture of a clip is made in this order: reversed, frozen, keyed, cropped and
/// turned, graded, given its effects, brought to the canvas, overlaid, subtitled, masked
/// and resized, each by the clip's own settings.
pub proof fn picture_is_made_in_order(
    r: Clip,
    c: ExportClip,
    canvas: Option<(u32, u32)>,
    px: FramePixels,
)
    requires
        can_render(c, canvas, px),
        rendered(r, c, canvas, px),
    ensures
        ({
            let fit = match canvas {
                Some((w, h)) => aspect_steps(
                    c.transform.fit_mode,
                    c.width,
                    c.height,
                    w,
                    h,
                    px.aspect_side,
                ),
                None => Seq::empty(),
            };
            let grade = ColorGrade {
                brightness: c.brightness,
                contrast: c.contrast,
                saturation: c.saturation,
                wb_temperature: c.wb_temperature,
                wb_tint: c.wb_tint,
                hue_degrees: c.hue_degrees,
                gamma_r: c.gamma_r,
                gamma_g: c.gamma_g,
                gamma_b: c.gamma_b,
                wheels: c.wheels,
                curves: *c.curves,
                lut_path: match c.lut_path {
                    Some(p) => Some(p@),
                    None => None,
                },
                vignette: c.vignette,
                vignette_x: c.vignette_x,
                vignette_y: c.vignette_y,
            };
            video_chain(r) == step_if(c.reverse, Step::Reverse) + freeze_steps(c.freeze)
                + keying_steps(c.keying) + transform_steps(c.transform, c.width, c.height, px)
                + grade_steps(grade, c.width, c.height) + effect_steps(
                c.video_effects,
                px.aberration,
            ) + fit + overlay_steps(c.overlay, px.overlay_factor@) + subtitle_steps(c.subtitle)
                + mask_steps(*c.mask, c.width, c.height, px) + scale_steps(
                *c.animation,
                c.start_on_track,
                c.scale_pct,
                c.width,
                c.height,
            )
        }),
{
    settings_arrive(
        r,
        export_settings(c),
        c.start_on_track,
        c.width,
        c.height,
        canvas,
        px,
    );
}

/// What a setting is for reaches nothing else: two clips that differ in a fade, the gain
/// or the speed alone are rendered with the same picture.
pub proof fn sound_does_not_touch_the_picture(
    a: Clip,
    b: Clip,
    c: ExportClip,
    d: ExportClip,
    canvas: Option<(u32, u32)>,
    px: FramePixels,
)
    requires
        can_render(c, canvas, px),
        d == (ExportClip {
            fade_in: d.fade_in,
            fade_out: d.fade_out,
            gain_db: d.gain_db,
            speed: d.speed,
            ..c
        }),
        rendered(a, c, canvas, px),
        rendered(b, d, canvas, px),
    ensures
        video_chain(a) == video_chain(b),
        a.brightness == b.brightness && a.contrast == b.contrast && a.saturation == b.saturation,
        a.opacity == b.opacity && a.x == b.x && a.y == b.y && a.blend_mode == b.blend_mode,
        a.offset == b.offset && a.in_point == b.in_point && a.out_point == b.out_point,
{
    picture_is_made_in_order(a, c, canvas, px);
    picture_is_made_in_order(b, d, canvas, px);
}

/// A look has each of its settings under its own name.
pub proof fn look_has_its_settings(look: Look)
    ensures
        ({
            let s = look.settings();
            &&& s.speed == look.speed
            &&& s.gain_db == look.gain_db
            &&& s.fade_in == look.fade_in
            &&& s.fade_out == look.fade_out
            &&& s.opacity == look.opacity
            &&& s.blend_mode == look.blend_mode
            &&& s.position == look.position
            &&& s.scale_pct == look.scale_pct
            &&& s.reverse == look.reverse
            &&& s.freeze == look.freeze
            &&& s.video_effects == look.video_effects
            &&& s.transform == look.transform
            &&& s.keying == look.keying
            &&& s.grade.brightness == look.brightness
            &&& s.grade.contrast == look.contrast
            &&& s.grade.saturation == look.saturation
            &&& s.grade.wb_temperature == look.wb_temperature
            &&& s.grade.wb_tint == look.wb_tint
            &&& s.grade.hue_degrees == look.hue_degrees
            &&& s.grade.gamma_r == look.gamma_r
            &&& s.grade.gamma_g == look.gamma_g
            &&& s.grade.gamma_b == look.gamma_b
            &&& s.grade.wheels == look.wheels
            &&& s.grade.vignette == look.vignette
            &&& s.grade.vignette_x == look.vignette_x
            &&& s.grade.vignette_y == look.vignette_y
            &&& s.transition is Some <==> look.transition is Some
            &&& look.transition is Some ==> s.transition == Some(
                (look.transition->0, look.transition_duration),
            )
            &&& s.grade.curves == *look.curves
            &&& s.grade.lut_path is Some <==> look.lut_path is Some
            &&& look.lut_path is Some ==> s.grade.lut_path->0 == look.lut_path->0@
            &&& s.overlay == *look.overlay
            &&& s.subtitle == *look.subtitle
            &&& s.mask == *look.mask
            &&& s.animation == *look.animation
        }),
{
}

} // verus!
