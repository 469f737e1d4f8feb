//! The settings of a clip in one block, and the clip rebuilt from them.
//!
//! The block rides along with a clip of the document. After every edit the clip's
//! effects are built anew from it, in the order of the export, so that document
//! and export agree.

use crate::effects::{
    effect_steps, freeze_steps, grade_steps, keeps32, keeps_unit32, keying_steps, step_if,
    transform_steps, video_chain, Clip, ColorGrade, FramePixels,
};
use crate::export_clip::{
    apply_look, as_slice_of, canvas_steps, creative_for, creative_of, export_settings, follows,
    renderable, settings_arrive, ExportClip, Look, Settings,
};
use crate::filter_step::{text_of, Step};
use crate::float::{zero32, F32, F32_FIFTY, F32_HUNDRED, F32_ONE, F32_ZERO};
use crate::framing::{mask_steps, overlay_steps, scale_steps, subtitle_steps};
use crate::keyframes::ClipAnimation;
use crate::matte::{fresh_keying, fresh_mask, Keying, Mask};
use crate::media::{
    blend_mode_from_str, blend_mode_name, blend_mode_named, blend_mode_round_trip,
    blend_mode_to_str, is_saved_blend_mode, xfade_from_str, xfade_name, xfade_named,
    xfade_round_trip, BlendMode,
};
use crate::metadata::{note, put_note, value_at};
use crate::overlay::{fresh_overlay, fresh_subtitle, Overlay, Subtitle};
use crate::state::{
    plain_effects, plain_transform, plain_wheels, ColorWheels, ToneCurves, Transform, VideoEffects,
    WB_NEUTRAL_TEMP,
};
use crate::time::Duration;
use crate::timeline_clip::Freeze;
use std::sync::Arc;
use vstd::prelude::*;

verus! {

/// Where a clip keeps the id that it has in the editor.
pub const DEMO_ID_KEY: &'static str = "demo_id";

/// Where a clip keeps its block of settings.
pub const PARAMS_KEY: &'static str = "demo.params";

/// Everything about a clip that is not its place: transition and blend mode by
/// name, the rest as it is edited.
#[derive(Debug)]
pub struct ClipParams {
    pub speed: F32,
    pub gain_db: F32,
    pub fade_in: Duration,
    pub fade_out: Duration,
    pub transition: Option<String>,
    pub transition_duration: Duration,
    pub opacity: F32,
    pub blend_mode: String,
    pub position_x: F32,
    pub position_y: F32,
    pub scale_pct: F32,
    pub reverse: bool,
    pub freeze: Option<Freeze>,
    pub lut_path: Option<String>,
    pub brightness: F32,
    pub contrast: F32,
    pub saturation: F32,
    pub wb_temperature: u32,
    pub wb_tint: F32,
    pub hue_degrees: F32,
    pub gamma_r: F32,
    pub gamma_g: F32,
    pub gamma_b: F32,
    pub vignette: F32,
    pub vignette_x: F32,
    pub vignette_y: F32,
    pub curves: Arc<ToneCurves>,
    pub wheels: ColorWheels,
    pub video_effects: VideoEffects,
    pub transform: Transform,
    pub overlay: Overlay,
    pub subtitle: Subtitle,
    pub keying: Keying,
    pub mask: Arc<Mask>,
    pub animation: Arc<ClipAnimation>,
}

impl Default for ClipParams {
    fn default() -> (p: Self)
        ensures
            p.speed.bits == F32_ONE,
            p.gain_db.bits == F32_ZERO,
            p.fade_in.nanos == 0,
            p.fade_out.nanos == 0,
            p.transition is None,
            p.transition_duration.nanos == 500_000_000,
            p.opacity.bits == F32_ONE,
            p.blend_mode@ == "Normal"@,
            p.position_x.bits == F32_ZERO,
            p.position_y.bits == F32_ZERO,
            p.scale_pct.bits == F32_HUNDRED,
            !p.reverse,
            p.freeze is None,
            p.lut_path is None,
            p.brightness.bits == F32_ZERO,
            p.contrast.bits == F32_ONE,
            p.saturation.bits == F32_ONE,
            p.wb_temperature == WB_NEUTRAL_TEMP,
            p.wb_tint.bits == F32_ZERO,
            p.hue_degrees.bits == F32_ZERO,
            p.gamma_r.bits == F32_ONE,
            p.gamma_g.bits == F32_ONE,
            p.gamma_b.bits == F32_ONE,
            p.vignette.bits == F32_ZERO,
            p.vignette_x.bits == F32_FIFTY,
            p.vignette_y.bits == F32_FIFTY,
            p.curves.neutral(),
            p.wheels == plain_wheels(),
            p.video_effects == plain_effects(),
            p.transform == plain_transform(),
            fresh_overlay(p.overlay),
            fresh_subtitle(p.subtitle),
            fresh_keying(p.keying),
            fresh_mask(*p.mask),
            !p.animation.active(),
    {
        let zero = F32::of(F32_ZERO);
        let one = F32::of(F32_ONE);
        ClipParams {
            speed: one,
            gain_db: zero,
            fade_in: Duration::zero(),
            fade_out: Duration::zero(),
            transition: None,
            transition_duration: Duration::from_millis(500),
            opacity: one,
            blend_mode: "Normal".to_owned(),
            position_x: zero,
            position_y: zero,
            scale_pct: F32::of(F32_HUNDRED),
            reverse: false,
            freeze: None,
            lut_path: None,
            brightness: zero,
            contrast: one,
            saturation: one,
            wb_temperature: WB_NEUTRAL_TEMP,
            wb_tint: zero,
            hue_degrees: zero,
            gamma_r: one,
            gamma_g: one,
            gamma_b: one,
            vignette: zero,
            vignette_x: F32::of(F32_FIFTY),
            vignette_y: F32::of(F32_FIFTY),
            curves: Arc::new(ToneCurves::default()),
            wheels: ColorWheels::default(),
            video_effects: VideoEffects::default(),
            transform: Transform::default(),
            overlay: Overlay::default(),
            subtitle: Subtitle::default(),
            keying: Keying::default(),
            mask: Arc::new(Mask::default()),
            animation: Arc::new(ClipAnimation::default()),
        }
    }
}

/// The settings in a block. Playing backwards is for the export only.
pub open spec fn param_settings(p: ClipParams, is_export: bool) -> Settings {
    Settings {
        speed: p.speed,
        gain_db: p.gain_db,
        fade_in: p.fade_in,
        fade_out: p.fade_out,
        transition: match p.transition {
            Some(name) => match xfade_named(name@) {
                Some(kind) => Some((kind, p.transition_duration)),
                None => None,
            },
            None => None,
        },
        opacity: p.opacity,
        blend_mode: blend_mode_named(p.blend_mode@),
        position: (p.position_x, p.position_y),
        scale_pct: p.scale_pct,
        reverse: p.reverse && is_export,
        freeze: p.freeze,
        grade: ColorGrade {
            brightness: p.brightness,
            contrast: p.contrast,
            saturation: p.saturation,
            wb_temperature: p.wb_temperature,
            wb_tint: p.wb_tint,
            hue_degrees: p.hue_degrees,
            gamma_r: p.gamma_r,
            gamma_g: p.gamma_g,
            gamma_b: p.gamma_b,
            wheels: p.wheels,
            curves: *p.curves,
            lut_path: text_of(p.lut_path),
            vignette: p.vignette,
            vignette_x: p.vignette_x,
            vignette_y: p.vignette_y,
        },
        video_effects: p.video_effects,
        transform: p.transform,
        overlay: p.overlay,
        subtitle: p.subtitle,
        keying: p.keying,
        mask: *p.mask,
        animation: *p.animation,
    }
}

/// The block `p` holds the settings of `c`.
pub open spec fn params_of(p: ClipParams, c: ExportClip) -> bool {
    &&& p.speed == c.speed
    &&& p.gain_db == c.gain_db
    &&& p.fade_in == c.fade_in
    &&& p.fade_out == c.fade_out
    &&& text_of(p.transition) == (match c.transition {
        Some(kind) => Some(xfade_name(kind)),
        None => None,
    })
    &&& p.transition_duration == c.transition_duration
    &&& p.opacity == c.opacity
    &&& p.blend_mode@ == blend_mode_name(c.blend_mode)
    &&& p.position_x == c.position_x
    &&& p.position_y == c.position_y
    &&& p.scale_pct == c.scale_pct
    &&& p.reverse == c.reverse
    &&& p.freeze == c.freeze
    &&& p.lut_path == c.lut_path
    &&& p.brightness == c.brightness
    &&& p.contrast == c.contrast
    &&& p.saturation == c.saturation
    &&& p.wb_temperature == c.wb_temperature
    &&& p.wb_tint == c.wb_tint
    &&& p.hue_degrees == c.hue_degrees
    &&& p.gamma_r == c.gamma_r
    &&& p.gamma_g == c.gamma_g
    &&& p.gamma_b == c.gamma_b
    &&& p.vignette == c.vignette
    &&& p.vignette_x == c.vignette_x
    &&& p.vignette_y == c.vignette_y
    &&& p.curves == c.curves
    &&& p.wheels == c.wheels
    &&& p.video_effects == c.video_effects
    &&& p.transform == c.transform
    &&& p.overlay == c.overlay
    &&& p.subtitle == c.subtitle
    &&& p.keying == c.keying
    &&& p.mask == c.mask
    &&& p.animation == c.animation
}

impl ClipParams {
    /// The settings of an export clip as a block.
    pub fn from_export_clip(c: &ExportClip) -> (p: Self)
        ensures
            params_of(p, *c),
    {
        let transition = match c.transition {
            Some(kind) => Some(kind.as_str().to_owned()),
            None => None,
        };
        ClipParams {
            speed: c.speed,
            gain_db: c.gain_db,
            fade_in: c.fade_in,
            fade_out: c.fade_out,
            transition,
            transition_duration: c.transition_duration,
            opacity: c.opacity,
            blend_mode: blend_mode_to_str(c.blend_mode).to_owned(),
            position_x: c.position_x,
            position_y: c.position_y,
            scale_pct: c.scale_pct,
            reverse: c.reverse,
            freeze: c.freeze,
            lut_path: c.lut_path.clone(),
            brightness: c.brightness,
            contrast: c.contrast,
            saturation: c.saturation,
            wb_temperature: c.wb_temperature,
            wb_tint: c.wb_tint,
            hue_degrees: c.hue_degrees,
            gamma_r: c.gamma_r,
            gamma_g: c.gamma_g,
            gamma_b: c.gamma_b,
            vignette: c.vignette,
            vignette_x: c.vignette_x,
            vignette_y: c.vignette_y,
            curves: Arc::clone(&c.curves),
            wheels: c.wheels,
            video_effects: c.video_effects,
            transform: c.transform,
            overlay: c.overlay.clone(),
            subtitle: c.subtitle.clone(),
            keying: c.keying,
            mask: Arc::clone(&c.mask),
            animation: Arc::clone(&c.animation),
        }
    }

    /// The notes of a clip that keep a block in its written form; none where it has
    /// no written form.
    pub fn to_metadata(text: Option<String>) -> (m: Vec<(String, String)>)
        ensures
            forall|key: Seq<char>| #[trigger]
                value_at(m@, key) == (if key == PARAMS_KEY@ {
                    text_of(text)
                } else {
                    None
                }),
    {
        let mut m: Vec<(String, String)> = Vec::new();
        if let Some(t) = text {
            put_note(&mut m, PARAMS_KEY, t);
        }
        m
    }

    /// The written form of the block that a clip's notes keep, where there is one.
    pub fn from_metadata(meta: &Vec<(String, String)>) -> (text: Option<String>)
        ensures
            text_of(text) == value_at(meta@, PARAMS_KEY@),
    {
        note(meta, PARAMS_KEY)
    }
}

/// Builds a clip's effects anew from `params`, whatever was set before. Source,
/// place, trim, proxy and metadata stay.
pub fn regenerate(
    clip: Clip,
    params: &ClipParams,
    src: (u32, u32),
    canvas: Option<(u32, u32)>,
    is_export: bool,
    px: &FramePixels,
) -> (r: Clip)
    requires
        renderable(
            param_settings(*params, is_export),
            clip.offset,
            src.0,
            src.1,
            canvas,
            *px,
        ),
    ensures
        r.source == clip.source,
        r.in_point == clip.in_point,
        r.out_point == clip.out_point,
        r.offset == clip.offset,
        r.metadata == clip.metadata,
        r.proxy == clip.proxy,
        r.transition is None ==> r.transition_duration == clip.transition_duration,
        creative_of(r) == creative_for(
            param_settings(*params, is_export),
            clip.offset,
            src.0,
            src.1,
            canvas,
            *px,
        ),
{
    let zero = F32::of(F32_ZERO);
    let one = F32::of(F32_ONE);
    let start = clip.offset;
    let mut clip = clip;
    clip.video_effects = Vec::new();
    clip.audio_effects = Vec::new();
    clip.speed = one;
    clip.volume_db = zero;
    clip.volume_track = None;
    clip.fade_in = Duration::zero();
    clip.fade_out = Duration::zero();
    clip.transition = None;
    clip.brightness = zero;
    clip.contrast = one;
    clip.saturation = one;
    clip.opacity = one;
    clip.opacity_track = None;
    clip.x = zero;
    clip.y = zero;
    clip.x_track = None;
    clip.y_track = None;
    clip.blend_mode = BlendMode::Normal;
    let transition = match &params.transition {
        Some(name) => xfade_from_str(name.as_str()),
        None => None,
    };
    let look = Look {
        speed: params.speed,
        gain_db: params.gain_db,
        fade_in: params.fade_in,
        fade_out: params.fade_out,
        transition,
        transition_duration: params.transition_duration,
        opacity: params.opacity,
        blend_mode: blend_mode_from_str(params.blend_mode.as_str()),
        position: (params.position_x, params.position_y),
        scale_pct: params.scale_pct,
        reverse: params.reverse && is_export,
        freeze: params.freeze,
        brightness: params.brightness,
        contrast: params.contrast,
        saturation: params.saturation,
        wb_temperature: params.wb_temperature,
        wb_tint: params.wb_tint,
        hue_degrees: params.hue_degrees,
        gamma_r: params.gamma_r,
        gamma_g: params.gamma_g,
        gamma_b: params.gamma_b,
        vignette: params.vignette,
        vignette_x: params.vignette_x,
        vignette_y: params.vignette_y,
        lut_path: as_slice_of(&params.lut_path),
        curves: &params.curves,
        wheels: params.wheels,
        video_effects: params.video_effects,
        transform: params.transform,
        overlay: &params.overlay,
        subtitle: &params.subtitle,
        keying: params.keying,
        mask: &params.mask,
        animation: &params.animation,
    };
    apply_look(clip, &look, start, src.0, src.1, canvas, px)
}

/// A clip rebuilt for the export from the block of an export clip carries exactly
/// what that export clip is rendered with, as long as the blend mode is one that
/// has a name.
pub proof fn regenerate_matches_export(
    p: ClipParams,
    c: ExportClip,
    canvas: Option<(u32, u32)>,
    px: FramePixels,
)
    requires
        params_of(p, c),
        is_saved_blend_mode(c.blend_mode),
    ensures
        param_settings(p, true) == export_settings(c),
        creative_for(param_settings(p, true), c.start_on_track, c.width, c.height, canvas, px)
            == creative_for(export_settings(c), c.start_on_track, c.width, c.height, canvas, px),
{
    blend_mode_round_trip(c.blend_mode);
    if let Some(kind) = c.transition {
        xfade_round_trip(kind);
        assert(p.transition is Some);
    } else {
        assert(p.transition is None);
    }
}

/// Playing backwards never reaches a clip that is not rebuilt for the export.
pub proof fn reverse_is_for_export_only(
    p: ClipParams,
    start: Duration,
    width: u32,
    height: u32,
    canvas: Option<(u32, u32)>,
    px: FramePixels,
)
    ensures
        creative_for(param_settings(p, false), start, width, height, canvas, px).audio.len() == 0,
        creative_for(param_settings(p, false), start, width, height, canvas, px) == creative_for(
            param_settings((ClipParams { reverse: false, ..p }), true),
            start,
            width,
            height,
            canvas,
            px,
        ),
{
    assert(param_settings(p, false) == param_settings((ClipParams { reverse: false, ..p }), true));
}

/// A clip that is rebuilt from a block carries the settings of that block: its fades,
/// speed, gain, transition, colour, opacity, position and blend mode, and its keys from
/// the clip's start on. It plays backwards for the export only.
pub proof fn clip_is_rebuilt_as_set(
    r: Clip,
    clip: Clip,
    p: ClipParams,
    src: (u32, u32),
    canvas: Option<(u32, u32)>,
    is_export: bool,
    px: FramePixels,
)
    requires
        p.animation.fits(clip.offset),
        creative_of(r) == creative_for(
            param_settings(p, is_export),
            clip.offset,
            src.0,
            src.1,
            canvas,
            px,
        ),
    ensures
        r.fade_in == p.fade_in,
        r.fade_out == p.fade_out,
        keeps32(r.speed, p.speed),
        p.animation.volume.keys@.len() == 0 ==> keeps32(r.volume_db, p.gain_db),
        p.animation.volume.keys@.len() > 0 ==> zero32(r.volume_db),
        r.transition == (match p.transition {
            Some(name) => xfade_named(name@),
            None => None,
        }),
        r.transition is Some ==> r.transition_duration == p.transition_duration,
        keeps32(r.brightness, p.brightness),
        keeps32(r.contrast, p.contrast),
        keeps32(r.saturation, p.saturation),
        keeps_unit32(r.opacity, p.opacity),
        keeps32(r.x, p.position_x),
        keeps32(r.y, p.position_y),
        r.blend_mode == blend_mode_named(p.blend_mode@),
        follows(r.volume_track, p.animation.volume.keys@, clip.offset, false),
        follows(r.opacity_track, p.animation.opacity.keys@, clip.offset, true),
        follows(r.x_track, p.animation.pos_x.keys@, clip.offset, false),
        follows(r.y_track, p.animation.pos_y.keys@, clip.offset, false),
        r.audio_effects@.len() == (if p.reverse && is_export {
            1int
        } else {
            0
        }),
        ({
            let grade = ColorGrade {
                brightness: p.brightness,
                contrast: p.contrast,
                saturation: p.saturation,
                wb_temperature: p.wb_temperature,
                wb_tint: p.wb_tint,
                hue_degrees: p.hue_degrees,
                gamma_r: p.gamma_r,
                gamma_g: p.gamma_g,
                gamma_b: p.gamma_b,
                wheels: p.wheels,
                curves: *p.curves,
                lut_path: match p.lut_path {
                    Some(path) => Some(path@),
                    None => None,
                },
                vignette: p.vignette,
                vignette_x: p.vignette_x,
                vignette_y: p.vignette_y,
            };
            let fit = canvas_steps(canvas, p.transform.fit_mode, src.0, src.1, px.aspect_side);
            video_chain(r) == step_if(p.reverse && is_export, Step::Reverse) + freeze_steps(
                p.freeze,
            ) + keying_steps(p.keying) + transform_steps(p.transform, src.0, src.1, px)
                + grade_steps(grade, src.0, src.1) + effect_steps(p.video_effects, px.aberration)
                + fit + overlay_steps(p.overlay, px.overlay_factor@) + subtitle_steps(p.subtitle)
                + mask_steps(*p.mask, src.0, src.1, px) + scale_steps(
                *p.animation,
                clip.offset,
                p.scale_pct,
                src.0,
                src.1,
            )
        }),
{
    settings_arrive(
        r,
        param_settings(p, is_export),
        clip.offset,
        src.0,
        src.1,
        canvas,
        px,
    );
}

/// The block of an export clip holds each setting of that clip, transition and blend mode
/// under names that give them back.
pub proof fn block_holds_the_settings(p: ClipParams, c: ExportClip)
    requires
        params_of(p, c),
    ensures
        p.speed == c.speed && p.gain_db == c.gain_db,
        p.fade_in == c.fade_in && p.fade_out == c.fade_out,
        p.transition is Some <==> c.transition is Some,
        c.transition is Some ==> xfade_named(p.transition->0@) == c.transition,
        p.transition_duration == c.transition_duration,
        p.opacity == c.opacity,
        is_saved_blend_mode(c.blend_mode) ==> blend_mode_named(p.blend_mode@) == c.blend_mode,
        p.position_x == c.position_x && p.position_y == c.position_y && p.scale_pct == c.scale_pct,
        p.reverse == c.reverse && p.freeze == c.freeze,
        p.lut_path == c.lut_path,
        p.brightness == c.brightness && p.contrast == c.contrast && p.saturation == c.saturation,
        p.wb_temperature == c.wb_temperature && p.wb_tint == c.wb_tint,
        p.hue_degrees == c.hue_degrees,
        p.gamma_r == c.gamma_r && p.gamma_g == c.gamma_g && p.gamma_b == c.gamma_b,
        p.vignette == c.vignette && p.vignette_x == c.vignette_x && p.vignette_y == c.vignette_y,
        p.curves == c.curves && p.wheels == c.wheels,
        p.video_effects == c.video_effects && p.transform == c.transform,
        p.overlay == c.overlay && p.subtitle == c.subtitle,
        p.keying == c.keying && p.mask == c.mask && p.animation == c.animation,
{
    blend_mode_round_trip(c.blend_mode);
    if let Some(kind) = c.transition {
        xfade_round_trip(kind);
        assert(p.transition is Some);
    } else {
        assert(p.transition is None);
    }
}

} // verus!
