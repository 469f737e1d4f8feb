//! A clip on the timeline with all of its settings.

use crate::float::{
    eq32, eq64, F32, F64, F32_FIFTY, F32_HUNDRED, F32_ONE, F32_ZERO,
};
use crate::keyframes::{ClipAnimation, Key, KeyTrack};
use crate::matte::{fresh_keying, fresh_mask, Keying, Mask, MaskShape};
use crate::media::{BlendMode, XfadeTransition};
use crate::overlay::{fresh_overlay, fresh_subtitle, Overlay, Subtitle};
use crate::state::{
    plain_effects, plain_transform, plain_wheels, ColorWheel, ColorWheels, ToneCurves, Transform,
    VideoEffects, WB_NEUTRAL_TEMP,
};
use crate::time::Duration;
use std::sync::Arc;
use vstd::prelude::*;

verus! {

/// A frame that is held: which moment of the clip, and for how long, both in
/// seconds.
#[derive(Clone, Copy, PartialEq, Eq, Structural, Debug)]
pub struct Freeze {
    pub at_secs: F64,
    pub hold_secs: F64,
}

/// A piece of an imported clip on a track.
///
/// The larger settings are shared between copies of a clip.
#[derive(Debug)]
pub struct TimelineClip {
    /// Index into the imported clips.
    pub source_index: usize,
    pub start_on_track: Duration,
    pub in_point: Option<Duration>,
    pub out_point: Option<Duration>,
    /// Transition from the clip before; `None` is a hard cut.
    pub transition: Option<XfadeTransition>,
    pub transition_duration: Duration,
    /// Audio gain in decibels.
    pub gain_db: F32,
    pub fade_in: Duration,
    pub fade_out: Duration,
    pub brightness: F32,
    pub contrast: F32,
    pub saturation: F32,
    pub speed: F32,
    pub reverse: bool,
    pub freeze: Option<Freeze>,
    pub opacity: F32,
    pub blend_mode: BlendMode,
    /// Position on the canvas in pixels.
    pub position_x: F32,
    pub position_y: F32,
    /// Size in percent of the source.
    pub scale_pct: F32,
    /// Path of a look-up table for colours.
    pub lut_path: Option<String>,
    pub wb_temperature: u32,
    pub wb_tint: F32,
    pub hue_degrees: F32,
    pub gamma_r: F32,
    pub gamma_g: F32,
    pub gamma_b: F32,
    /// Strength of the vignette and its centre, in percent.
    pub vignette: F32,
    pub vignette_x: F32,
    pub vignette_y: F32,
    pub curves: Arc<ToneCurves>,
    pub wheels: ColorWheels,
    pub video_effects: VideoEffects,
    pub transform: Transform,
    pub overlay: Overlay,
    pub subtitle: Subtitle,
    pub keying: Keying,
    pub mask: Arc<Mask>,
    pub animation: Arc<ClipAnimation>,
}

impl Clone for TimelineClip {
    fn clone(&self) -> (r: Self)
        ensures
            r == *self,
    {
        TimelineClip {
            source_index: self.source_index,
            start_on_track: self.start_on_track,
            in_point: self.in_point,
            out_point: self.out_point,
            transition: self.transition,
            transition_duration: self.transition_duration,
            gain_db: self.gain_db,
            fade_in: self.fade_in,
            fade_out: self.fade_out,
            brightness: self.brightness,
            contrast: self.contrast,
            saturation: self.saturation,
            speed: self.speed,
            reverse: self.reverse,
            freeze: self.freeze,
            opacity: self.opacity,
            blend_mode: self.blend_mode,
            position_x: self.position_x,
            position_y: self.position_y,
            scale_pct: self.scale_pct,
            lut_path: self.lut_path.clone(),
            wb_temperature: self.wb_temperature,
            wb_tint: self.wb_tint,
            hue_degrees: self.hue_degrees,
            gamma_r: self.gamma_r,
            gamma_g: self.gamma_g,
            gamma_b: self.gamma_b,
            vignette: self.vignette,
            vignette_x: self.vignette_x,
            vignette_y: self.vignette_y,
            curves: Arc::clone(&self.curves),
            wheels: self.wheels,
            video_effects: self.video_effects,
            transform: self.transform,
            overlay: self.overlay.clone(),
            subtitle: self.subtitle.clone(),
            keying: self.keying,
            mask: Arc::clone(&self.mask),
            animation: Arc::clone(&self.animation),
        }
    }
}

/// Whether `c` is a clip as it is when it is put on a track: the given piece of the
/// source, unchanged in every way.
pub open spec fn fresh_clip(
    c: TimelineClip,
    source_index: usize,
    start: Duration,
    in_point: Option<Duration>,
    out_point: Option<Duration>,
) -> bool {
    &&& c.source_index == source_index
    &&& c.start_on_track == start
    &&& c.in_point == in_point
    &&& c.out_point == out_point
    &&& c.transition is None
    &&& c.transition_duration.nanos == 500_000_000
    &&& c.gain_db.bits == F32_ZERO
    &&& c.fade_in.nanos == 0
    &&& c.fade_out.nanos == 0
    &&& c.brightness.bits == F32_ZERO
    &&& c.contrast.bits == F32_ONE
    &&& c.saturation.bits == F32_ONE
    &&& c.speed.bits == F32_ONE
    &&& !c.reverse
    &&& c.freeze is None
    &&& c.opacity.bits == F32_ONE
    &&& c.blend_mode == BlendMode::Normal
    &&& c.position_x.bits == F32_ZERO
    &&& c.position_y.bits == F32_ZERO
    &&& c.scale_pct.bits == F32_HUNDRED
    &&& c.lut_path is None
    &&& c.wb_temperature == WB_NEUTRAL_TEMP
    &&& c.wb_tint.bits == F32_ZERO
    &&& c.hue_degrees.bits == F32_ZERO
    &&& c.gamma_r.bits == F32_ONE
    &&& c.gamma_g.bits == F32_ONE
    &&& c.gamma_b.bits == F32_ONE
    &&& c.vignette.bits == F32_ZERO
    &&& c.vignette_x.bits == F32_FIFTY
    &&& c.vignette_y.bits == F32_FIFTY
    &&& c.curves.neutral()
    &&& c.wheels == plain_wheels()
    &&& c.video_effects == plain_effects()
    &&& c.transform == plain_transform()
    &&& fresh_overlay(c.overlay)
    &&& fresh_subtitle(c.subtitle)
    &&& fresh_keying(c.keying)
    &&& fresh_mask(*c.mask)
    &&& !c.animation.active()
}

/// How long the piece of its source is that the clip plays, before any change of
/// speed.
pub open spec fn effective_length(c: TimelineClip, source: Duration) -> int {
    match (c.in_point, c.out_point) {
        (Some(i), Some(o)) => if o.nanos > i.nanos {
            o.nanos - i.nanos
        } else {
            source.nanos as int
        },
        (None, Some(o)) => o.nanos as int,
        (Some(i), None) => if source.nanos > i.nanos {
            source.nanos - i.nanos
        } else {
            0
        },
        (None, None) => source.nanos as int,
    }
}

impl TimelineClip {
    /// A clip as it is when it is put on a track.
    pub fn new(
        source_index: usize,
        start: Duration,
        in_point: Option<Duration>,
        out_point: Option<Duration>,
    ) -> (c: Self)
        ensures
            fresh_clip(c, source_index, start, in_point, out_point),
    {
        let zero = F32::of(F32_ZERO);
        let one = F32::of(F32_ONE);
        let middle = F32::of(F32_FIFTY);
        TimelineClip {
            source_index,
            start_on_track: start,
            in_point,
            out_point,
            transition: None,
            transition_duration: Duration::from_millis(500),
            gain_db: zero,
            fade_in: Duration::zero(),
            fade_out: Duration::zero(),
            brightness: zero,
            contrast: one,
            saturation: one,
            speed: one,
            reverse: false,
            freeze: None,
            opacity: one,
            blend_mode: BlendMode::Normal,
            position_x: zero,
            position_y: zero,
            scale_pct: F32::of(F32_HUNDRED),
            lut_path: None,
            wb_temperature: WB_NEUTRAL_TEMP,
            wb_tint: zero,
            hue_degrees: zero,
            gamma_r: one,
            gamma_g: one,
            gamma_b: one,
            vignette: zero,
            vignette_x: middle,
            vignette_y: middle,
            curves: Arc::new(ToneCurves::default()),
            wheels: ColorWheels::default(),
            video_effects: VideoEffects::default(),
            transform: Transform::default(),
            overlay: Overlay::default(),
            subtitle: Subtitle::default(),
            keying: Keying::default(),
            mask: Arc::new(Mask::default()),
            animation: Arc::new(ClipAnimation::default()),
        }
    }

    /// How long the piece of its source is that the clip plays, before any change of
    /// speed.
    pub fn source_length(&self, source: Duration) -> (d: Duration)
        ensures
            d.nanos == effective_length(*self, source),
    {
        match (self.in_point, self.out_point) {
            (Some(i), Some(o)) => if o.nanos > i.nanos {
                Duration { nanos: o.nanos - i.nanos }
            } else {
                source
            },
            (None, Some(o)) => o,
            (Some(i), None) => source.saturating_sub(i),
            (None, None) => source,
        }
    }
}

/// Whether two optional texts are the same.
pub open spec fn same_path(a: Option<String>, b: Option<String>) -> bool {
    match (a, b) {
        (Some(x), Some(y)) => x@ == y@,
        (None, None) => true,
        _ => false,
    }
}

/// Whether two points are equal as numbers.
pub open spec fn same_point(a: (F32, F32), b: (F32, F32)) -> bool {
    eq32(a.0, b.0) && eq32(a.1, b.1)
}

/// Whether two lists of points are equal as numbers.
pub open spec fn same_points(a: Seq<(F32, F32)>, b: Seq<(F32, F32)>) -> bool {
    a.len() == b.len() && forall|i: int|
        0 <= i < a.len() ==> same_point(#[trigger] a[i], b[i])
}

/// Whether two lists of keys are equal.
pub open spec fn same_keys(a: Seq<Key>, b: Seq<Key>) -> bool {
    a.len() == b.len() && forall|i: int|
        0 <= i < a.len() ==> (#[trigger] a[i]).at == b[i].at && eq64(a[i].value, b[i].value)
            && a[i].easing == b[i].easing
}

pub open spec fn same_freeze(a: Option<Freeze>, b: Option<Freeze>) -> bool {
    match (a, b) {
        (Some(x), Some(y)) => eq64(x.at_secs, y.at_secs) && eq64(x.hold_secs, y.hold_secs),
        (None, None) => true,
        _ => false,
    }
}

pub open spec fn same_curves(a: ToneCurves, b: ToneCurves) -> bool {
    &&& same_points(a.master@, b.master@)
    &&& same_points(a.r@, b.r@)
    &&& same_points(a.g@, b.g@)
    &&& same_points(a.b@, b.b@)
}

pub open spec fn same_wheel(a: ColorWheel, b: ColorWheel) -> bool {
    eq32(a.x, b.x) && eq32(a.y, b.y) && eq32(a.luma, b.luma)
}

pub open spec fn same_wheels(a: ColorWheels, b: ColorWheels) -> bool {
    same_wheel(a.lift, b.lift) && same_wheel(a.gamma, b.gamma) && same_wheel(a.gain, b.gain)
}

pub open spec fn same_effects(a: VideoEffects, b: VideoEffects) -> bool {
    &&& eq32(a.blur, b.blur)
    &&& eq32(a.sharpen, b.sharpen)
    &&& eq32(a.denoise, b.denoise)
    &&& eq32(a.grain, b.grain)
    &&& eq32(a.glow, b.glow)
    &&& eq32(a.motion_blur, b.motion_blur)
    &&& eq32(a.chromatic_aberration, b.chromatic_aberration)
}

pub open spec fn same_transform(a: Transform, b: Transform) -> bool {
    &&& eq32(a.crop_left, b.crop_left)
    &&& eq32(a.crop_right, b.crop_right)
    &&& eq32(a.crop_top, b.crop_top)
    &&& eq32(a.crop_bottom, b.crop_bottom)
    &&& eq32(a.rotation, b.rotation)
    &&& a.flip_h == b.flip_h
    &&& a.flip_v == b.flip_v
    &&& a.fit_mode == b.fit_mode
}

pub open spec fn same_overlay(a: Overlay, b: Overlay) -> bool {
    &&& same_path(a.path, b.path)
    &&& a.position == b.position
    &&& a.margin == b.margin
    &&& eq32(a.opacity, b.opacity)
    &&& eq32(a.scale, b.scale)
}

pub open spec fn same_subtitle(a: Subtitle, b: Subtitle) -> bool {
    &&& same_path(a.path, b.path)
    &&& a.format == b.format
    &&& a.font_size == b.font_size
    &&& a.colour@ == b.colour@
    &&& a.position == b.position
}

pub open spec fn same_keying(a: Keying, b: Keying) -> bool {
    &&& a.enabled == b.enabled
    &&& a.mode == b.mode
    &&& a.color@ == b.color@
    &&& eq32(a.similarity, b.similarity)
    &&& eq32(a.blend, b.blend)
    &&& eq32(a.spill, b.spill)
}

pub open spec fn same_mask(a: Mask, b: Mask) -> bool {
    &&& a.shape == b.shape
    &&& a.invert == b.invert
    &&& a.feather == b.feather
    &&& eq32(a.rect_x, b.rect_x)
    &&& eq32(a.rect_y, b.rect_y)
    &&& eq32(a.rect_w, b.rect_w)
    &&& eq32(a.rect_h, b.rect_h)
    &&& eq32(a.luma_threshold, b.luma_threshold)
    &&& eq32(a.luma_tolerance, b.luma_tolerance)
    &&& eq32(a.luma_softness, b.luma_softness)
    &&& same_points(a.polygon@, b.polygon@)
}

pub open spec fn same_animation(a: ClipAnimation, b: ClipAnimation) -> bool {
    &&& same_keys(a.opacity.keys@, b.opacity.keys@)
    &&& same_keys(a.pos_x.keys@, b.pos_x.keys@)
    &&& same_keys(a.pos_y.keys@, b.pos_y.keys@)
    &&& same_keys(a.scale.keys@, b.scale.keys@)
    &&& same_keys(a.volume.keys@, b.volume.keys@)
}

/// Whether two clips agree in every setting. Numbers are compared as numbers, so
/// the two zeros agree and "not a number" agrees with nothing.
pub open spec fn same_clip(a: TimelineClip, b: TimelineClip) -> bool {
    &&& a.source_index == b.source_index
    &&& a.start_on_track == b.start_on_track
    &&& a.in_point == b.in_point
    &&& a.out_point == b.out_point
    &&& a.transition == b.transition
    &&& a.transition_duration == b.transition_duration
    &&& eq32(a.gain_db, b.gain_db)
    &&& a.fade_in == b.fade_in
    &&& a.fade_out == b.fade_out
    &&& eq32(a.brightness, b.brightness)
    &&& eq32(a.contrast, b.contrast)
    &&& eq32(a.saturation, b.saturation)
    &&& eq32(a.speed, b.speed)
    &&& a.reverse == b.reverse
    &&& same_freeze(a.freeze, b.freeze)
    &&& eq32(a.opacity, b.opacity)
    &&& a.blend_mode == b.blend_mode
    &&& eq32(a.position_x, b.position_x)
    &&& eq32(a.position_y, b.position_y)
    &&& eq32(a.scale_pct, b.scale_pct)
    &&& same_path(a.lut_path, b.lut_path)
    &&& a.wb_temperature == b.wb_temperature
    &&& eq32(a.wb_tint, b.wb_tint)
    &&& eq32(a.hue_degrees, b.hue_degrees)
    &&& eq32(a.gamma_r, b.gamma_r)
    &&& eq32(a.gamma_g, b.gamma_g)
    &&& eq32(a.gamma_b, b.gamma_b)
    &&& eq32(a.vignette, b.vignette)
    &&& eq32(a.vignette_x, b.vignette_x)
    &&& eq32(a.vignette_y, b.vignette_y)
    &&& same_curves(*a.curves, *b.curves)
    &&& same_wheels(a.wheels, b.wheels)
    &&& same_effects(a.video_effects, b.video_effects)
    &&& same_transform(a.transform, b.transform)
    &&& same_overlay(a.overlay, b.overlay)
    &&& same_subtitle(a.subtitle, b.subtitle)
    &&& same_keying(a.keying, b.keying)
    &&& same_mask(*a.mask, *b.mask)
    &&& same_animation(*a.animation, *b.animation)
}

/// Whether two tracks hold the same clips in the same order.
pub open spec fn same_clips(a: Seq<TimelineClip>, b: Seq<TimelineClip>) -> bool {
    a.len() == b.len() && forall|i: int|
        0 <= i < a.len() ==> same_clip(#[trigger] a[i], b[i])
}

pub(crate) fn paths_agree(a: &Option<String>, b: &Option<String>) -> (r: bool)
    ensures
        r == same_path(*a, *b),
{
    match (a, b) {
        (Some(x), Some(y)) => *x == *y,
        (None, None) => true,
        _ => false,
    }
}

pub(crate) fn points_agree(a: &Vec<(F32, F32)>, b: &Vec<(F32, F32)>) -> (r: bool)
    ensures
        r == same_points(a@, b@),
{
    if a.len() != b.len() {
        return false;
    }
    let mut i: usize = 0;
    while i < a.len()
        invariant
            i <= a@.len(),
            a@.len() == b@.len(),
            forall|k: int| 0 <= k < i ==> same_point(#[trigger] a@[k], b@[k]),
        decreases a@.len() - i,
    {
        if !(a[i].0.equals(b[i].0) && a[i].1.equals(b[i].1)) {
            assert(!same_point(a@[i as int], b@[i as int]));
            return false;
        }
        i = i + 1;
    }
    true
}

fn keys_agree(a: &KeyTrack, b: &KeyTrack) -> (r: bool)
    ensures
        r == same_keys(a.keys@, b.keys@),
{
    if a.keys.len() != b.keys.len() {
        return false;
    }
    let mut i: usize = 0;
    while i < a.keys.len()
        invariant
            i <= a.keys@.len(),
            a.keys@.len() == b.keys@.len(),
            forall|k: int|
                0 <= k < i ==> (#[trigger] a.keys@[k]).at == b.keys@[k].at && eq64(
                    a.keys@[k].value,
                    b.keys@[k].value,
                ) && a.keys@[k].easing == b.keys@[k].easing,
        decreases a.keys@.len() - i,
    {
        let x = a.keys[i];
        let y = b.keys[i];
        if !(x.at == y.at && x.value.equals(y.value) && x.easing == y.easing) {
            assert(a.keys@[i as int] == x && b.keys@[i as int] == y);
            return false;
        }
        i = i + 1;
    }
    true
}

fn freezes_agree(a: Option<Freeze>, b: Option<Freeze>) -> (r: bool)
    ensures
        r == same_freeze(a, b),
{
    match (a, b) {
        (Some(x), Some(y)) => x.at_secs.equals(y.at_secs) && x.hold_secs.equals(y.hold_secs),
        (None, None) => true,
        _ => false,
    }
}

pub(crate) fn wheels_agree(a: ColorWheel, b: ColorWheel) -> (r: bool)
    ensures
        r == same_wheel(a, b),
{
    a.x.equals(b.x) && a.y.equals(b.y) && a.luma.equals(b.luma)
}

fn effects_agree(a: VideoEffects, b: VideoEffects) -> (r: bool)
    ensures
        r == same_effects(a, b),
{
    a.blur.equals(b.blur) && a.sharpen.equals(b.sharpen) && a.denoise.equals(b.denoise)
        && a.grain.equals(b.grain) && a.glow.equals(b.glow) && a.motion_blur.equals(b.motion_blur)
        && a.chromatic_aberration.equals(b.chromatic_aberration)
}

fn transforms_agree(a: Transform, b: Transform) -> (r: bool)
    ensures
        r == same_transform(a, b),
{
    a.crop_left.equals(b.crop_left) && a.crop_right.equals(b.crop_right) && a.crop_top.equals(
        b.crop_top,
    ) && a.crop_bottom.equals(b.crop_bottom) && a.rotation.equals(b.rotation) && a.flip_h
        == b.flip_h && a.flip_v == b.flip_v && a.fit_mode == b.fit_mode
}

fn colours_agree(a: [u8; 3], b: [u8; 3]) -> (r: bool)
    ensures
        r == (a@ == b@),
{
    let r = a[0] == b[0] && a[1] == b[1] && a[2] == b[2];
    assert(r ==> a@ =~= b@);
    r
}

fn masks_agree(a: &Mask, b: &Mask) -> (r: bool)
    ensures
        r == same_mask(*a, *b),
{
    a.shape == b.shape && a.invert == b.invert && a.feather == b.feather && a.rect_x.equals(
        b.rect_x,
    ) && a.rect_y.equals(b.rect_y) && a.rect_w.equals(b.rect_w) && a.rect_h.equals(b.rect_h)
        && a.luma_threshold.equals(b.luma_threshold) && a.luma_tolerance.equals(b.luma_tolerance)
        && a.luma_softness.equals(b.luma_softness) && points_agree(&a.polygon, &b.polygon)
}

fn animations_agree(a: &ClipAnimation, b: &ClipAnimation) -> (r: bool)
    ensures
        r == same_animation(*a, *b),
{
    keys_agree(&a.opacity, &b.opacity) && keys_agree(&a.pos_x, &b.pos_x) && keys_agree(
        &a.pos_y,
        &b.pos_y,
    ) && keys_agree(&a.scale, &b.scale) && keys_agree(&a.volume, &b.volume)
}

/// Whether the two lists hold the same clips in the same order.
pub fn clips_agree(a: &Vec<TimelineClip>, b: &Vec<TimelineClip>) -> (r: bool)
    ensures
        r == same_clips(a@, b@),
{
    if a.len() != b.len() {
        return false;
    }
    let mut i: usize = 0;
    while i < a.len()
        invariant
            i <= a@.len(),
            a@.len() == b@.len(),
            forall|k: int| 0 <= k < i ==> same_clip(#[trigger] a@[k], b@[k]),
        decreases a@.len() - i,
    {
        if !a[i].same_as(&b[i]) {
            return false;
        }
        i = i + 1;
    }
    true
}

impl TimelineClip {
    fn same_placing(&self, b: &TimelineClip) -> (r: bool)
        ensures
            r == {
                &&& self.source_index == b.source_index
                &&& self.start_on_track == b.start_on_track
                &&& self.in_point == b.in_point
                &&& self.out_point == b.out_point
                &&& self.transition == b.transition
                &&& self.transition_duration == b.transition_duration
                &&& eq32(self.gain_db, b.gain_db)
                &&& self.fade_in == b.fade_in
                &&& self.fade_out == b.fade_out
                &&& eq32(self.speed, b.speed)
                &&& self.reverse == b.reverse
                &&& same_freeze(self.freeze, b.freeze)
            },
    {
        self.source_index == b.source_index && self.start_on_track == b.start_on_track
            && self.in_point == b.in_point && self.out_point == b.out_point && self.transition
            == b.transition && self.transition_duration == b.transition_duration
            && self.gain_db.equals(b.gain_db) && self.fade_in == b.fade_in && self.fade_out
            == b.fade_out && self.speed.equals(b.speed) && self.reverse == b.reverse
            && freezes_agree(self.freeze, b.freeze)
    }

    fn same_grade(&self, b: &TimelineClip) -> (r: bool)
        ensures
            r == {
                &&& eq32(self.brightness, b.brightness)
                &&& eq32(self.contrast, b.contrast)
                &&& eq32(self.saturation, b.saturation)
                &&& same_path(self.lut_path, b.lut_path)
                &&& self.wb_temperature == b.wb_temperature
                &&& eq32(self.wb_tint, b.wb_tint)
                &&& eq32(self.hue_degrees, b.hue_degrees)
                &&& eq32(self.gamma_r, b.gamma_r)
                &&& eq32(self.gamma_g, b.gamma_g)
                &&& eq32(self.gamma_b, b.gamma_b)
                &&& eq32(self.vignette, b.vignette)
                &&& eq32(self.vignette_x, b.vignette_x)
                &&& eq32(self.vignette_y, b.vignette_y)
                &&& same_curves(*self.curves, *b.curves)
                &&& same_wheels(self.wheels, b.wheels)
            },
    {
        self.brightness.equals(b.brightness) && self.contrast.equals(b.contrast)
            && self.saturation.equals(b.saturation) && paths_agree(&self.lut_path, &b.lut_path)
            && self.wb_temperature == b.wb_temperature && self.wb_tint.equals(b.wb_tint)
            && self.hue_degrees.equals(b.hue_degrees) && self.gamma_r.equals(b.gamma_r)
            && self.gamma_g.equals(b.gamma_g) && self.gamma_b.equals(b.gamma_b)
            && self.vignette.equals(b.vignette) && self.vignette_x.equals(b.vignette_x)
            && self.vignette_y.equals(b.vignette_y) && points_agree(
            &self.curves.master,
            &b.curves.master,
        ) && points_agree(&self.curves.r, &b.curves.r) && points_agree(&self.curves.g, &b.curves.g)
            && points_agree(&self.curves.b, &b.curves.b) && wheels_agree(
            self.wheels.lift,
            b.wheels.lift,
        ) && wheels_agree(self.wheels.gamma, b.wheels.gamma) && wheels_agree(
            self.wheels.gain,
            b.wheels.gain,
        )
    }

    /// Whether the two clips agree in every setting.
    pub fn same_as(&self, b: &TimelineClip) -> (r: bool)
        ensures
            r == same_clip(*self, *b),
    {
        self.same_placing(b) && self.same_grade(b) && self.opacity.equals(b.opacity)
            && self.blend_mode == b.blend_mode && self.position_x.equals(b.position_x)
            && self.position_y.equals(b.position_y) && self.scale_pct.equals(b.scale_pct)
            && effects_agree(self.video_effects, b.video_effects) && transforms_agree(
            self.transform,
            b.transform,
        ) && paths_agree(&self.overlay.path, &b.overlay.path) && self.overlay.position
            == b.overlay.position && self.overlay.margin == b.overlay.margin
            && self.overlay.opacity.equals(b.overlay.opacity) && self.overlay.scale.equals(
            b.overlay.scale,
        ) && paths_agree(&self.subtitle.path, &b.subtitle.path) && self.subtitle.format
            == b.subtitle.format && self.subtitle.font_size == b.subtitle.font_size
            && colours_agree(self.subtitle.colour, b.subtitle.colour) && self.subtitle.position
            == b.subtitle.position && self.keying.enabled == b.keying.enabled && self.keying.mode
            == b.keying.mode && colours_agree(self.keying.color, b.keying.color)
            && self.keying.similarity.equals(b.keying.similarity) && self.keying.blend.equals(
            b.keying.blend,
        ) && self.keying.spill.equals(b.keying.spill) && masks_agree(&self.mask, &b.mask)
            && animations_agree(&self.animation, &b.animation)
    }
}

/// Whether two clips play the same source in the same style: every setting agrees but for
/// the place, the trim, the fades, the transition's kind and the frozen frame.
pub open spec fn same_style(a: TimelineClip, b: TimelineClip) -> bool {
    &&& a.source_index == b.source_index
    &&& a.transition_duration == b.transition_duration
    &&& a.gain_db == b.gain_db
    &&& a.brightness == b.brightness
    &&& a.contrast == b.contrast
    &&& a.saturation == b.saturation
    &&& a.speed == b.speed
    &&& a.reverse == b.reverse
    &&& a.opacity == b.opacity
    &&& a.blend_mode == b.blend_mode
    &&& a.position_x == b.position_x
    &&& a.position_y == b.position_y
    &&& a.scale_pct == b.scale_pct
    &&& a.lut_path == b.lut_path
    &&& a.wb_temperature == b.wb_temperature
    &&& a.wb_tint == b.wb_tint
    &&& a.hue_degrees == b.hue_degrees
    &&& a.gamma_r == b.gamma_r
    &&& a.gamma_g == b.gamma_g
    &&& a.gamma_b == b.gamma_b
    &&& a.vignette == b.vignette
    &&& a.vignette_x == b.vignette_x
    &&& a.vignette_y == b.vignette_y
    &&& a.curves == b.curves
    &&& a.wheels == b.wheels
    &&& a.video_effects == b.video_effects
    &&& a.transform == b.transform
    &&& a.overlay == b.overlay
    &&& a.subtitle == b.subtitle
    &&& a.keying == b.keying
    &&& a.mask == b.mask
    &&& a.animation == b.animation
}

/// A clip plays what lies between its marks. Without a mark it plays from the start, or to
/// the end, of its source; marks that are out of order do not count.
pub proof fn clip_plays_between_its_marks(c: TimelineClip, source: Duration)
    ensures
        ({
            let n = effective_length(c, source);
            let from = if c.in_point is Some {
                c.in_point->0.nanos as int
            } else {
                0
            };
            let to = if c.out_point is Some {
                c.out_point->0.nanos as int
            } else {
                source.nanos as int
            };
            &&& from < to ==> n == to - from
            &&& from >= to && c.in_point is Some && c.out_point is Some ==> n == source.nanos
            &&& from >= to && !(c.in_point is Some && c.out_point is Some) ==> n == 0
        }),
{
}

/// Clips agree with themselves and with each other alike: what agrees with a clip agrees
/// in every setting that is no number exactly, so a change of any of these is seen.
pub proof fn changed_clip_is_seen(a: TimelineClip, b: TimelineClip)
    requires
        same_clip(a, b),
    ensures
        same_clip(b, a),
        a.source_index == b.source_index,
        a.start_on_track == b.start_on_track,
        a.in_point == b.in_point && a.out_point == b.out_point,
        a.transition == b.transition && a.transition_duration == b.transition_duration,
        a.fade_in == b.fade_in && a.fade_out == b.fade_out,
        a.reverse == b.reverse && a.blend_mode == b.blend_mode,
        a.wb_temperature == b.wb_temperature,
        a.freeze is Some <==> b.freeze is Some,
        a.lut_path is Some <==> b.lut_path is Some,
        a.lut_path is Some ==> a.lut_path->0@ == b.lut_path->0@,
        eq32(a.gain_db, b.gain_db) && eq32(a.speed, b.speed) && eq32(a.opacity, b.opacity),
        eq32(a.brightness, b.brightness) && eq32(a.contrast, b.contrast) && eq32(
            a.saturation,
            b.saturation,
        ),
        eq32(a.position_x, b.position_x) && eq32(a.position_y, b.position_y) && eq32(
            a.scale_pct,
            b.scale_pct,
        ),
        eq32(a.wb_tint, b.wb_tint) && eq32(a.hue_degrees, b.hue_degrees),
        eq32(a.gamma_r, b.gamma_r) && eq32(a.gamma_g, b.gamma_g) && eq32(a.gamma_b, b.gamma_b),
        eq32(a.vignette, b.vignette) && eq32(a.vignette_x, b.vignette_x) && eq32(
            a.vignette_y,
            b.vignette_y,
        ),
        a.curves.master@.len() == b.curves.master@.len() && a.curves.r@.len() == b.curves.r@.len(),
        a.curves.g@.len() == b.curves.g@.len() && a.curves.b@.len() == b.curves.b@.len(),
        eq32(a.wheels.lift.x, b.wheels.lift.x) && eq32(a.wheels.gain.luma, b.wheels.gain.luma),
        eq32(a.wheels.gamma.y, b.wheels.gamma.y),
        eq32(a.video_effects.blur, b.video_effects.blur),
        eq32(a.video_effects.sharpen, b.video_effects.sharpen),
        eq32(a.video_effects.denoise, b.video_effects.denoise),
        eq32(a.video_effects.grain, b.video_effects.grain),
        eq32(a.video_effects.glow, b.video_effects.glow),
        eq32(a.video_effects.motion_blur, b.video_effects.motion_blur),
        eq32(a.video_effects.chromatic_aberration, b.video_effects.chromatic_aberration),
        eq32(a.transform.crop_left, b.transform.crop_left),
        eq32(a.transform.crop_right, b.transform.crop_right),
        eq32(a.transform.crop_top, b.transform.crop_top),
        eq32(a.transform.crop_bottom, b.transform.crop_bottom),
        eq32(a.transform.rotation, b.transform.rotation),
        a.transform.flip_h == b.transform.flip_h && a.transform.flip_v == b.transform.flip_v,
        a.transform.fit_mode == b.transform.fit_mode,
        a.overlay.path is Some <==> b.overlay.path is Some,
        a.overlay.position == b.overlay.position && a.overlay.margin == b.overlay.margin,
        eq32(a.overlay.opacity, b.overlay.opacity) && eq32(a.overlay.scale, b.overlay.scale),
        a.subtitle.path is Some <==> b.subtitle.path is Some,
        a.subtitle.format == b.subtitle.format && a.subtitle.font_size == b.subtitle.font_size,
        a.subtitle.colour@ == b.subtitle.colour@ && a.subtitle.position == b.subtitle.position,
        a.keying.enabled == b.keying.enabled && a.keying.mode == b.keying.mode,
        a.keying.color@ == b.keying.color@ && eq32(a.keying.similarity, b.keying.similarity),
        eq32(a.keying.blend, b.keying.blend) && eq32(a.keying.spill, b.keying.spill),
        a.mask.shape == b.mask.shape && a.mask.invert == b.mask.invert,
        a.mask.feather == b.mask.feather && a.mask.polygon@.len() == b.mask.polygon@.len(),
        eq32(a.mask.rect_x, b.mask.rect_x) && eq32(a.mask.rect_y, b.mask.rect_y),
        eq32(a.mask.rect_w, b.mask.rect_w) && eq32(a.mask.rect_h, b.mask.rect_h),
        eq32(a.mask.luma_threshold, b.mask.luma_threshold),
        eq32(a.mask.luma_tolerance, b.mask.luma_tolerance),
        eq32(a.mask.luma_softness, b.mask.luma_softness),
        a.animation.opacity.keys@.len() == b.animation.opacity.keys@.len(),
        a.animation.pos_x.keys@.len() == b.animation.pos_x.keys@.len(),
        a.animation.pos_y.keys@.len() == b.animation.pos_y.keys@.len(),
        a.animation.scale.keys@.len() == b.animation.scale.keys@.len(),
        a.animation.volume.keys@.len() == b.animation.volume.keys@.len(),
{
    assert forall|i: int| 0 <= i < b.curves.master@.len() implies same_point(
        #[trigger] b.curves.master@[i],
        a.curves.master@[i],
    ) by {
        assert(same_point(a.curves.master@[i], b.curves.master@[i]));
    }
    assert forall|i: int| 0 <= i < b.curves.r@.len() implies same_point(
        #[trigger] b.curves.r@[i],
        a.curves.r@[i],
    ) by {
        assert(same_point(a.curves.r@[i], b.curves.r@[i]));
    }
    assert forall|i: int| 0 <= i < b.curves.g@.len() implies same_point(
        #[trigger] b.curves.g@[i],
        a.curves.g@[i],
    ) by {
        assert(same_point(a.curves.g@[i], b.curves.g@[i]));
    }
    assert forall|i: int| 0 <= i < b.curves.b@.len() implies same_point(
        #[trigger] b.curves.b@[i],
        a.curves.b@[i],
    ) by {
        assert(same_point(a.curves.b@[i], b.curves.b@[i]));
    }
    assert forall|i: int| 0 <= i < b.mask.polygon@.len() implies same_point(
        #[trigger] b.mask.polygon@[i],
        a.mask.polygon@[i],
    ) by {
        assert(same_point(a.mask.polygon@[i], b.mask.polygon@[i]));
    }
    same_keys_both_ways(a.animation.opacity.keys@, b.animation.opacity.keys@);
    same_keys_both_ways(a.animation.pos_x.keys@, b.animation.pos_x.keys@);
    same_keys_both_ways(a.animation.pos_y.keys@, b.animation.pos_y.keys@);
    same_keys_both_ways(a.animation.scale.keys@, b.animation.scale.keys@);
    same_keys_both_ways(a.animation.volume.keys@, b.animation.volume.keys@);
}

proof fn same_keys_both_ways(a: Seq<Key>, b: Seq<Key>)
    requires
        same_keys(a, b),
    ensures
        same_keys(b, a),
{
    assert forall|i: int| 0 <= i < b.len() implies (#[trigger] b[i]).at == a[i].at && eq64(
        b[i].value,
        a[i].value,
    ) && b[i].easing == a[i].easing by {
        assert(a[i].at == b[i].at);
    }
}

/// A new clip plays its piece of the source from its start on the track, as the source is:
/// without transition, fades, effects or keys, at normal speed and volume, whole and opaque.
pub proof fn new_clip_is_as_its_source(
    c: TimelineClip,
    source_index: usize,
    start: Duration,
    in_point: Option<Duration>,
    out_point: Option<Duration>,
)
    requires
        fresh_clip(c, source_index, start, in_point, out_point),
    ensures
        c.source_index == source_index && c.start_on_track == start,
        c.in_point == in_point && c.out_point == out_point,
        c.transition is None && c.transition_duration.nanos == 500_000_000,
        c.fade_in.nanos == 0 && c.fade_out.nanos == 0,
        c.gain_db.bits == 0 && c.speed.bits == 0x3f80_0000,
        !c.reverse && c.freeze is None && c.lut_path is None,
        c.brightness.bits == 0 && c.contrast.bits == 0x3f80_0000,
        c.saturation.bits == 0x3f80_0000,
        c.opacity.bits == 0x3f80_0000 && c.blend_mode == BlendMode::Normal,
        c.position_x.bits == 0 && c.position_y.bits == 0 && c.scale_pct.bits == 0x42c8_0000,
        c.wb_temperature == 6500 && c.wb_tint.bits == 0 && c.hue_degrees.bits == 0,
        c.gamma_r.bits == 0x3f80_0000 && c.gamma_g.bits == 0x3f80_0000 && c.gamma_b.bits
            == 0x3f80_0000,
        c.vignette.bits == 0 && c.vignette_x.bits == 0x4248_0000 && c.vignette_y.bits
            == 0x4248_0000,
        c.curves.master@.len() == 0 && c.curves.r@.len() == 0,
        c.curves.g@.len() == 0 && c.curves.b@.len() == 0,
        c.wheels.neutral() && c.video_effects.neutral() && c.transform.neutral(),
        c.overlay.path is None && c.subtitle.path is None,
        !c.keying.enabled && c.mask.shape == MaskShape::Off,
        c.animation.opacity.keys@.len() == 0 && c.animation.volume.keys@.len() == 0,
        c.animation.pos_x.keys@.len() == 0 && c.animation.pos_y.keys@.len() == 0,
        c.animation.scale.keys@.len() == 0,
{
}

/// A difference in a point, a key, a held frame, a wheel or a path is seen too.
pub proof fn changed_detail_is_seen(a: TimelineClip, b: TimelineClip, i: int)
    requires
        same_clip(a, b),
        0 <= i,
    ensures
        a.freeze is Some ==> eq64(a.freeze->0.at_secs, b.freeze->0.at_secs) && eq64(
            a.freeze->0.hold_secs,
            b.freeze->0.hold_secs,
        ),
        eq32(a.wheels.lift.x, b.wheels.lift.x),
        eq32(a.wheels.lift.y, b.wheels.lift.y),
        eq32(a.wheels.lift.luma, b.wheels.lift.luma),
        eq32(a.wheels.gamma.x, b.wheels.gamma.x),
        eq32(a.wheels.gamma.y, b.wheels.gamma.y),
        eq32(a.wheels.gamma.luma, b.wheels.gamma.luma),
        eq32(a.wheels.gain.x, b.wheels.gain.x),
        eq32(a.wheels.gain.y, b.wheels.gain.y),
        eq32(a.wheels.gain.luma, b.wheels.gain.luma),
        i < a.curves.master@.len() ==> eq32(a.curves.master@[i].0, b.curves.master@[i].0) && eq32(a.curves.master@[i].1, b.curves.master@[i].1),
        i < a.curves.r@.len() ==> eq32(a.curves.r@[i].0, b.curves.r@[i].0) && eq32(a.curves.r@[i].1, b.curves.r@[i].1),
        i < a.curves.g@.len() ==> eq32(a.curves.g@[i].0, b.curves.g@[i].0) && eq32(a.curves.g@[i].1, b.curves.g@[i].1),
        i < a.curves.b@.len() ==> eq32(a.curves.b@[i].0, b.curves.b@[i].0) && eq32(a.curves.b@[i].1, b.curves.b@[i].1),
        i < a.mask.polygon@.len() ==> eq32(a.mask.polygon@[i].0, b.mask.polygon@[i].0) && eq32(a.mask.polygon@[i].1, b.mask.polygon@[i].1),
        i < a.animation.opacity.keys@.len() ==> same_key(
            a.animation.opacity.keys@[i],
            b.animation.opacity.keys@[i],
        ),
        i < a.animation.pos_x.keys@.len() ==> same_key(
            a.animation.pos_x.keys@[i],
            b.animation.pos_x.keys@[i],
        ),
        i < a.animation.pos_y.keys@.len() ==> same_key(
            a.animation.pos_y.keys@[i],
            b.animation.pos_y.keys@[i],
        ),
        i < a.animation.scale.keys@.len() ==> same_key(
            a.animation.scale.keys@[i],
            b.animation.scale.keys@[i],
        ),
        i < a.animation.volume.keys@.len() ==> same_key(
            a.animation.volume.keys@[i],
            b.animation.volume.keys@[i],
        ),
        a.overlay.path is Some ==> a.overlay.path->0@ == b.overlay.path->0@,
        a.subtitle.path is Some ==> a.subtitle.path->0@ == b.subtitle.path->0@,
{
    if i < a.curves.master@.len() {
        assert(same_point(a.curves.master@[i], b.curves.master@[i]));
    }
    if i < a.curves.r@.len() {
        assert(same_point(a.curves.r@[i], b.curves.r@[i]));
    }
    if i < a.curves.g@.len() {
        assert(same_point(a.curves.g@[i], b.curves.g@[i]));
    }
    if i < a.curves.b@.len() {
        assert(same_point(a.curves.b@[i], b.curves.b@[i]));
    }
    if i < a.mask.polygon@.len() {
        assert(same_point(a.mask.polygon@[i], b.mask.polygon@[i]));
    }
    if i < a.animation.opacity.keys@.len() {
        assert(a.animation.opacity.keys@[i].at == b.animation.opacity.keys@[i].at);
    }
    if i < a.animation.pos_x.keys@.len() {
        assert(a.animation.pos_x.keys@[i].at == b.animation.pos_x.keys@[i].at);
    }
    if i < a.animation.pos_y.keys@.len() {
        assert(a.animation.pos_y.keys@[i].at == b.animation.pos_y.keys@[i].at);
    }
    if i < a.animation.scale.keys@.len() {
        assert(a.animation.scale.keys@[i].at == b.animation.scale.keys@[i].at);
    }
    if i < a.animation.volume.keys@.len() {
        assert(a.animation.volume.keys@[i].at == b.animation.volume.keys@[i].at);
    }
}

/// Whether two keys are at the same moment, with the same value and way to the next.
pub open spec fn same_key(a: Key, b: Key) -> bool {
    a.at == b.at && eq64(a.value, b.value) && a.easing == b.easing
}

/// A clip whose settings are all numbers agrees with itself.
#[verifier::rlimit(40)]
pub proof fn clip_agrees_with_itself(c: TimelineClip)
    requires
        eq32(c.gain_db, c.gain_db),
        eq32(c.brightness, c.brightness),
        eq32(c.contrast, c.contrast),
        eq32(c.saturation, c.saturation),
        eq32(c.speed, c.speed),
        eq32(c.opacity, c.opacity),
        eq32(c.position_x, c.position_x),
        eq32(c.position_y, c.position_y),
        eq32(c.scale_pct, c.scale_pct),
        eq32(c.wb_tint, c.wb_tint),
        eq32(c.hue_degrees, c.hue_degrees),
        eq32(c.gamma_r, c.gamma_r),
        eq32(c.gamma_g, c.gamma_g),
        eq32(c.gamma_b, c.gamma_b),
        eq32(c.vignette, c.vignette),
        eq32(c.vignette_x, c.vignette_x),
        eq32(c.vignette_y, c.vignette_y),
        eq32(c.wheels.lift.x, c.wheels.lift.x),
        eq32(c.wheels.lift.y, c.wheels.lift.y),
        eq32(c.wheels.lift.luma, c.wheels.lift.luma),
        eq32(c.wheels.gamma.x, c.wheels.gamma.x),
        eq32(c.wheels.gamma.y, c.wheels.gamma.y),
        eq32(c.wheels.gamma.luma, c.wheels.gamma.luma),
        eq32(c.wheels.gain.x, c.wheels.gain.x),
        eq32(c.wheels.gain.y, c.wheels.gain.y),
        eq32(c.wheels.gain.luma, c.wheels.gain.luma),
        eq32(c.video_effects.blur, c.video_effects.blur),
        eq32(c.video_effects.sharpen, c.video_effects.sharpen),
        eq32(c.video_effects.denoise, c.video_effects.denoise),
        eq32(c.video_effects.grain, c.video_effects.grain),
        eq32(c.video_effects.glow, c.video_effects.glow),
        eq32(c.video_effects.motion_blur, c.video_effects.motion_blur),
        eq32(c.video_effects.chromatic_aberration, c.video_effects.chromatic_aberration),
        eq32(c.transform.crop_left, c.transform.crop_left),
        eq32(c.transform.crop_right, c.transform.crop_right),
        eq32(c.transform.crop_top, c.transform.crop_top),
        eq32(c.transform.crop_bottom, c.transform.crop_bottom),
        eq32(c.transform.rotation, c.transform.rotation),
        eq32(c.overlay.opacity, c.overlay.opacity),
        eq32(c.overlay.scale, c.overlay.scale),
        eq32(c.keying.similarity, c.keying.similarity),
        eq32(c.keying.blend, c.keying.blend),
        eq32(c.keying.spill, c.keying.spill),
        eq32(c.mask.rect_x, c.mask.rect_x),
        eq32(c.mask.rect_y, c.mask.rect_y),
        eq32(c.mask.rect_w, c.mask.rect_w),
        eq32(c.mask.rect_h, c.mask.rect_h),
        eq32(c.mask.luma_threshold, c.mask.luma_threshold),
        eq32(c.mask.luma_tolerance, c.mask.luma_tolerance),
        eq32(c.mask.luma_softness, c.mask.luma_softness),
        forall|i: int|
            0 <= i < c.curves.master@.len() ==> eq32((#[trigger] c.curves.master@[i]).0, c.curves.master@[i].0) && eq32(
                c.curves.master@[i].1,
                c.curves.master@[i].1,
            ),
        forall|i: int|
            0 <= i < c.curves.r@.len() ==> eq32((#[trigger] c.curves.r@[i]).0, c.curves.r@[i].0) && eq32(
                c.curves.r@[i].1,
                c.curves.r@[i].1,
            ),
        forall|i: int|
            0 <= i < c.curves.g@.len() ==> eq32((#[trigger] c.curves.g@[i]).0, c.curves.g@[i].0) && eq32(
                c.curves.g@[i].1,
                c.curves.g@[i].1,
            ),
        forall|i: int|
            0 <= i < c.curves.b@.len() ==> eq32((#[trigger] c.curves.b@[i]).0, c.curves.b@[i].0) && eq32(
                c.curves.b@[i].1,
                c.curves.b@[i].1,
            ),
        forall|i: int|
            0 <= i < c.mask.polygon@.len() ==> eq32((#[trigger] c.mask.polygon@[i]).0, c.mask.polygon@[i].0) && eq32(
                c.mask.polygon@[i].1,
                c.mask.polygon@[i].1,
            ),
        forall|i: int|
            0 <= i < c.animation.opacity.keys@.len() ==> eq64(
                (#[trigger] c.animation.opacity.keys@[i]).value,
                c.animation.opacity.keys@[i].value,
            ),
        forall|i: int|
            0 <= i < c.animation.pos_x.keys@.len() ==> eq64(
                (#[trigger] c.animation.pos_x.keys@[i]).value,
                c.animation.pos_x.keys@[i].value,
            ),
        forall|i: int|
            0 <= i < c.animation.pos_y.keys@.len() ==> eq64(
                (#[trigger] c.animation.pos_y.keys@[i]).value,
                c.animation.pos_y.keys@[i].value,
            ),
        forall|i: int|
            0 <= i < c.animation.scale.keys@.len() ==> eq64(
                (#[trigger] c.animation.scale.keys@[i]).value,
                c.animation.scale.keys@[i].value,
            ),
        forall|i: int|
            0 <= i < c.animation.volume.keys@.len() ==> eq64(
                (#[trigger] c.animation.volume.keys@[i]).value,
                c.animation.volume.keys@[i].value,
            ),
        c.freeze is Some ==> eq64(c.freeze->0.at_secs, c.freeze->0.at_secs) && eq64(
            c.freeze->0.hold_secs,
            c.freeze->0.hold_secs,
        ),
    ensures
        same_clip(c, c),
{
}

/// Lists of clips agree only clip by clip.
pub proof fn lists_agree_clip_by_clip(a: Seq<TimelineClip>, b: Seq<TimelineClip>, i: int)
    ensures
        same_clips(a, b) ==> a.len() == b.len(),
        same_clips(a, b) && 0 <= i < a.len() ==> same_clip(a[i], b[i]),
        a.len() == 1 && b.len() == 1 && same_clip(a[0], b[0]) ==> same_clips(a, b),
{
}

} // verus!
