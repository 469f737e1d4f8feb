//! The effect chain of a clip: which filter steps its settings ask for, and in
//! which order.
//!
//! A setting that is neutral adds no step, so an untouched clip is rendered as it
//! is. Percentages of a frame are turned into whole pixels by the caller, in
//! single precision, and handed in as [`FramePixels`].

use crate::filter_step::{chain_of, chain_push, FilterStep, ScaleAlgorithm, Step};
use crate::float::{
    eq32, f32_of, lt32, one32, positive32, unit32, zero32, F32, F32_ONE, F32_ZERO,
};
use crate::keyframes::Key;
use crate::matte::{KeyMode, Keying};
use crate::media::{BlendMode, XfadeTransition};
use crate::state::{ColorWheels, ToneCurves, Transform, VideoEffects, WB_NEUTRAL_TEMP};
use crate::text::{digit_value, hex_reads_back, upper_hex, upper_hex_text};
use crate::time::Duration;
use crate::timeline_clip::Freeze;
use vstd::prelude::*;
use vstd::string::*;

verus! {

/// A clip as the renderer takes it.
#[derive(Debug)]
pub struct Clip {
    pub source: String,
    pub in_point: Option<Duration>,
    pub out_point: Option<Duration>,
    pub offset: Duration,
    pub metadata: Vec<(String, String)>,
    pub proxy: Option<String>,
    pub speed: F32,
    /// Gain in decibels.
    pub volume_db: F32,
    pub volume_track: Option<Vec<Key>>,
    pub fade_in: Duration,
    pub fade_out: Duration,
    pub transition: Option<XfadeTransition>,
    pub transition_duration: Duration,
    pub brightness: F32,
    pub contrast: F32,
    pub saturation: F32,
    pub opacity: F32,
    pub opacity_track: Option<Vec<Key>>,
    pub x: F32,
    pub y: F32,
    pub x_track: Option<Vec<Key>>,
    pub y_track: Option<Vec<Key>>,
    pub blend_mode: BlendMode,
    pub video_effects: Vec<FilterStep>,
    pub audio_effects: Vec<FilterStep>,
}

/// Whole pixels that a clip's percentages come to in its frame.
#[derive(Debug)]
pub struct FramePixels {
    /// The crop insets.
    pub crop_left: u32,
    pub crop_right: u32,
    pub crop_top: u32,
    pub crop_bottom: u32,
    /// The mask rectangle.
    pub mask_x: u32,
    pub mask_y: u32,
    pub mask_w: u32,
    pub mask_h: u32,
    /// The shift of the colour channels.
    pub aberration: u32,
    /// The side that [`aspect_terms`] asks for.
    pub aspect_side: u32,
    /// The overlay's scale as a factor, in decimal.
    pub overlay_factor: String,
}

/// The steps of a clip's video chain.
pub open spec fn video_chain(c: Clip) -> Seq<Step> {
    chain_of(c.video_effects@)
}

/// The steps of a clip's audio chain.
pub open spec fn audio_chain(c: Clip) -> Seq<Step> {
    chain_of(c.audio_effects@)
}

/// The keys of an optional track.
pub open spec fn keys_of(t: Option<Vec<Key>>) -> Option<Seq<Key>> {
    match t {
        Some(k) => Some(k@),
        None => None,
    }
}

/// Nothing, or the one step.
pub open spec fn step_if(on: bool, s: Step) -> Seq<Step> {
    if on {
        seq![s]
    } else {
        Seq::empty()
    }
}

/// Joining three chains does not depend on where they are joined first.
pub proof fn joined(a: Seq<Step>, b: Seq<Step>, c: Seq<Step>)
    ensures
        (a + b) + c == a + (b + c),
{
    assert((a + b) + c =~= a + (b + c));
}

/// The largest even number up to `n`.
pub open spec fn even(n: int) -> int {
    n - n % 2
}

/// `a - b`, or zero where that is less.
pub open spec fn minus(a: int, b: int) -> int {
    if a >= b {
        a - b
    } else {
        0
    }
}

/// The smaller of the two.
pub open spec fn least(a: int, b: int) -> int {
    if a <= b {
        a
    } else {
        b
    }
}

impl Clip {
    /// A clip of `source` from the start of the timeline, with nothing set.
    pub fn new(source: &str) -> (c: Clip)
        ensures
            c.source@ == source@,
            c.in_point is None,
            c.out_point is None,
            c.offset.nanos == 0,
            c.metadata@.len() == 0,
            c.proxy is None,
            c.transition_duration.nanos == 0,
            c.untouched(),
    {
        let zero = F32::of(F32_ZERO);
        let one = F32::of(F32_ONE);
        Clip {
            source: source.to_owned(),
            in_point: None,
            out_point: None,
            offset: Duration::zero(),
            metadata: Vec::new(),
            proxy: None,
            speed: one,
            volume_db: zero,
            volume_track: None,
            fade_in: Duration::zero(),
            fade_out: Duration::zero(),
            transition: None,
            transition_duration: Duration::zero(),
            brightness: zero,
            contrast: one,
            saturation: one,
            opacity: one,
            opacity_track: None,
            x: zero,
            y: zero,
            x_track: None,
            y_track: None,
            blend_mode: BlendMode::Normal,
            video_effects: Vec::new(),
            audio_effects: Vec::new(),
        }
    }

    /// Everything that effects set is at its neutral value. The length of a
    /// transition does not count while there is none.
    pub open spec fn untouched(self) -> bool {
        &&& self.only_graded()
        &&& self.brightness.bits == F32_ZERO
        &&& self.contrast.bits == F32_ONE
        &&& self.saturation.bits == F32_ONE
        &&& self.video_effects@.len() == 0
    }

    /// Everything that effects set is at its neutral value, but for brightness,
    /// contrast, saturation and the video steps.
    pub open spec fn only_graded(self) -> bool {
        &&& self.speed.bits == F32_ONE
        &&& self.volume_db.bits == F32_ZERO
        &&& self.volume_track is None
        &&& self.fade_in.nanos == 0
        &&& self.fade_out.nanos == 0
        &&& self.transition is None
        &&& self.opacity.bits == F32_ONE
        &&& self.opacity_track is None
        &&& self.x.bits == F32_ZERO
        &&& self.y.bits == F32_ZERO
        &&& self.x_track is None
        &&& self.y_track is None
        &&& self.blend_mode == BlendMode::Normal
        &&& self.audio_effects@.len() == 0
    }

    /// This clip with one more video step at the end.
    pub fn with_video_effect(self, step: FilterStep) -> (r: Clip)
        ensures
            r == (Clip { video_effects: r.video_effects, ..self }),
            video_chain(r) == video_chain(self).push(step@),
    {
        let mut clip = self;
        proof {
            chain_push(clip.video_effects@, step);
        }
        clip.video_effects.push(step);
        clip
    }

    /// This clip with one more video step at the end, where asked.
    fn with_video_effect_if(self, on: bool, step: FilterStep) -> (r: Clip)
        ensures
            r == (Clip { video_effects: r.video_effects, ..self }),
            video_chain(r) == video_chain(self) + step_if(on, step@),
    {
        let r = if on {
            self.with_video_effect(step)
        } else {
            self
        };
        assert(video_chain(r) =~= video_chain(self) + step_if(on, step@));
        r
    }

    /// This clip with one more audio step at the end.
    pub fn with_audio_effect(self, step: FilterStep) -> (r: Clip)
        ensures
            r == (Clip { audio_effects: r.audio_effects, ..self }),
            audio_chain(r) == audio_chain(self).push(step@),
    {
        let mut clip = self;
        proof {
            chain_push(clip.audio_effects@, step);
        }
        clip.audio_effects.push(step);
        clip
    }

    /// The whole video chain: the colour correction, where it is not neutral,
    /// and then the video steps.
    pub fn video_effect_chain(self) -> (v: Vec<FilterStep>)
        ensures
            chain_of(v@) == step_if(
                corrects_color(self.brightness, self.contrast, self.saturation),
                Step::Eq {
                    brightness: self.brightness,
                    contrast: self.contrast,
                    saturation: self.saturation,
                },
            ) + video_chain(self),
    {
        let neutral = self.brightness.is_zero() && self.contrast.is_one()
            && self.saturation.is_one();
        let mut v = self.video_effects;
        if !neutral {
            let eq = FilterStep::Eq {
                brightness: self.brightness,
                contrast: self.contrast,
                saturation: self.saturation,
            };
            v.insert(0, eq);
        }
        assert(chain_of(v@) =~= step_if(
            corrects_color(self.brightness, self.contrast, self.saturation),
            Step::Eq {
                brightness: self.brightness,
                contrast: self.contrast,
                saturation: self.saturation,
            },
        ) + video_chain(self));
        v
    }
}

/// Brightness, contrast and saturation are not all neutral.
pub open spec fn corrects_color(brightness: F32, contrast: F32, saturation: F32) -> bool {
    !zero32(brightness) || !one32(contrast) || !one32(saturation)
}

fn even_floor(n: u32) -> (r: u32)
    ensures
        r == even(n as int),
{
    n - n % 2
}

fn copy_points(v: &Vec<(F32, F32)>) -> (r: Vec<(F32, F32)>)
    ensures
        r@ == v@,
{
    let mut r: Vec<(F32, F32)> = Vec::new();
    let mut i: usize = 0;
    while i < v.len()
        invariant
            i <= v@.len(),
            r@ == v@.take(i as int),
        decreases v@.len() - i,
    {
        r.push(v[i]);
        i = i + 1;
        assert(r@ =~= v@.take(i as int));
    }
    assert(v@.take(i as int) =~= v@);
    r
}

// ── Reverse and freeze ────────────────────────────────────────────────────────

/// Plays picture and sound backwards, where asked.
pub fn apply_reverse(clip: Clip, reverse: bool) -> (r: Clip)
    ensures
        r == (Clip { video_effects: r.video_effects, audio_effects: r.audio_effects, ..clip }),
        video_chain(r) == video_chain(clip) + step_if(reverse, Step::Reverse),
        audio_chain(r) == audio_chain(clip) + step_if(reverse, Step::AReverse),
{
    let r = if reverse {
        clip.with_video_effect(FilterStep::Reverse).with_audio_effect(FilterStep::AReverse)
    } else {
        clip
    };
    assert(video_chain(r) =~= video_chain(clip) + step_if(reverse, Step::Reverse));
    assert(audio_chain(r) =~= audio_chain(clip) + step_if(reverse, Step::AReverse));
    r
}

/// The step of a frozen frame.
pub open spec fn freeze_steps(freeze: Option<Freeze>) -> Seq<Step> {
    match freeze {
        Some(f) => seq![Step::FreezeFrame { at_secs: f.at_secs, hold_secs: f.hold_secs }],
        None => Seq::empty(),
    }
}

/// Holds a frame, where asked.
pub fn apply_freeze(clip: Clip, freeze: Option<Freeze>) -> (r: Clip)
    ensures
        r == (Clip { video_effects: r.video_effects, ..clip }),
        video_chain(r) == video_chain(clip) + freeze_steps(freeze),
{
    let r = match freeze {
        Some(f) => clip.with_video_effect(
            FilterStep::FreezeFrame { at_secs: f.at_secs, hold_secs: f.hold_secs },
        ),
        None => clip,
    };
    assert(video_chain(r) =~= video_chain(clip) + freeze_steps(freeze));
    r
}

// ── Colour key ────────────────────────────────────────────────────────────────

/// A key colour as `0xRRGGBB`.
pub open spec fn key_color(c: Seq<u8>) -> Seq<char> {
    "0x"@ + upper_hex(c[0]) + upper_hex(c[1]) + upper_hex(c[2])
}

/// The steps of a colour key: the key, then spill suppression where it has a
/// strength.
pub open spec fn keying_steps(k: Keying) -> Seq<Step> {
    if k.enabled {
        let color = key_color(k.color@);
        let similarity = unit32(k.similarity);
        let blend = unit32(k.blend);
        seq![
            match k.mode {
                KeyMode::Chroma => Step::ChromaKey { color, similarity, blend },
                KeyMode::Color => Step::ColorKey { color, similarity, blend },
            },
        ] + step_if(
            positive32(k.spill),
            Step::SpillSuppress { key_color: color, strength: unit32(k.spill) },
        )
    } else {
        Seq::empty()
    }
}

/// Adds a colour key. It comes before every other picture step, so that it meets
/// the colours of the source.
pub fn apply_keying(clip: Clip, k: &Keying) -> (r: Clip)
    ensures
        r == (Clip { video_effects: r.video_effects, ..clip }),
        video_chain(r) == video_chain(clip) + keying_steps(*k),
{
    if !k.enabled {
        assert(video_chain(clip) =~= video_chain(clip) + keying_steps(*k));
        return clip;
    }
    let mut color = "0x".to_owned();
    color.append(upper_hex_text(k.color[0]).as_str());
    color.append(upper_hex_text(k.color[1]).as_str());
    color.append(upper_hex_text(k.color[2]).as_str());
    let similarity = k.similarity.unit();
    let blend = k.blend.unit();
    let keyed = match k.mode {
        KeyMode::Chroma => clip.with_video_effect(
            FilterStep::ChromaKey { color: color.clone(), similarity, blend },
        ),
        KeyMode::Color => clip.with_video_effect(
            FilterStep::ColorKey { color: color.clone(), similarity, blend },
        ),
    };
    let r = if k.spill.is_positive() {
        keyed.with_video_effect(
            FilterStep::SpillSuppress { key_color: color, strength: k.spill.unit() },
        )
    } else {
        keyed
    };
    assert(video_chain(r) =~= video_chain(clip) + keying_steps(*k));
    r
}

// ── Crop, flips and rotation ──────────────────────────────────────────────────

/// The transform crops a frame of this size.
pub open spec fn crops(t: Transform, width: u32, height: u32) -> bool {
    width > 0 && height > 0 && (positive32(t.crop_left) || positive32(t.crop_right) || positive32(
        t.crop_top,
    ) || positive32(t.crop_bottom))
}

/// The insets of opposite edges add up within the range of a pixel count.
pub open spec fn insets_fit(px: FramePixels) -> bool {
    even(px.crop_left as int) + even(px.crop_right as int) <= u32::MAX && even(
        px.crop_top as int,
    ) + even(px.crop_bottom as int) <= u32::MAX
}

/// Crop to the rectangle inside the insets and scale it back to the frame. All
/// its numbers are even. A rectangle of less than two pixels is not cropped to.
pub open spec fn crop_steps(t: Transform, width: u32, height: u32, px: FramePixels) -> Seq<Step> {
    let x = even(px.crop_left as int);
    let y = even(px.crop_top as int);
    let w = even(minus(width as int, x + even(px.crop_right as int)));
    let h = even(minus(height as int, y + even(px.crop_bottom as int)));
    if crops(t, width, height) && w >= 2 && h >= 2 {
        seq![
            Step::Crop { x: x as u32, y: y as u32, width: w as u32, height: h as u32 },
            Step::Scale { width, height, algorithm: ScaleAlgorithm::Bicubic },
        ]
    } else {
        Seq::empty()
    }
}

/// Crop, then horizontal flip, then vertical flip, then rotation.
pub open spec fn transform_steps(t: Transform, width: u32, height: u32, px: FramePixels) -> Seq<
    Step,
> {
    crop_steps(t, width, height, px) + step_if(t.flip_h, Step::HFlip) + step_if(
        t.flip_v,
        Step::VFlip,
    ) + step_if(
        !zero32(t.rotation),
        Step::Rotate { angle_degrees: t.rotation, fill_color: "black"@ },
    )
}

fn apply_crop(clip: Clip, t: &Transform, width: u32, height: u32, px: &FramePixels) -> (r: Clip)
    requires
        crops(*t, width, height) ==> insets_fit(*px),
    ensures
        r == (Clip { video_effects: r.video_effects, ..clip }),
        video_chain(r) == video_chain(clip) + crop_steps(*t, width, height, *px),
{
    let mut r = clip;
    if width > 0 && height > 0 && (t.crop_left.is_positive() || t.crop_right.is_positive()
        || t.crop_top.is_positive() || t.crop_bottom.is_positive()) {
        let x: u32 = even_floor(px.crop_left);
        let y: u32 = even_floor(px.crop_top);
        let across: u32 = x + even_floor(px.crop_right);
        let down: u32 = y + even_floor(px.crop_bottom);
        let w: u32 = even_floor(if width >= across { width - across } else { 0 });
        let h: u32 = even_floor(if height >= down { height - down } else { 0 });
        if w >= 2 && h >= 2 {
            r = r.with_video_effect(FilterStep::Crop { x, y, width: w, height: h });
            r = r.with_video_effect(
                FilterStep::Scale { width, height, algorithm: ScaleAlgorithm::Bicubic },
            );
        }
    }
    assert(video_chain(r) =~= video_chain(clip) + crop_steps(*t, width, height, *px));
    r
}

/// Adds crop, flips and rotation. They come before the colour grade.
pub fn apply_transform(
    clip: Clip,
    t: &Transform,
    width: u32,
    height: u32,
    px: &FramePixels,
) -> (r: Clip)
    requires
        crops(*t, width, height) ==> insets_fit(*px),
    ensures
        r == (Clip { video_effects: r.video_effects, ..clip }),
        video_chain(r) == video_chain(clip) + transform_steps(*t, width, height, *px),
{
    let mut r = apply_crop(clip, t, width, height, px);
    if t.flip_h {
        r = r.with_video_effect(FilterStep::HFlip);
    }
    if t.flip_v {
        r = r.with_video_effect(FilterStep::VFlip);
    }
    if !t.rotation.is_zero() {
        r = r.with_video_effect(
            FilterStep::Rotate { angle_degrees: t.rotation, fill_color: "black".to_owned() },
        );
    }
    assert(video_chain(r) =~= video_chain(clip) + transform_steps(*t, width, height, *px));
    r
}

// ── Colour grade ──────────────────────────────────────────────────────────────

/// The settings of a colour grade.
pub struct ColorGrade {
    pub brightness: F32,
    pub contrast: F32,
    pub saturation: F32,
    pub wb_temperature: u32,
    pub wb_tint: F32,
    pub hue_degrees: F32,
    pub gamma_r: F32,
    pub gamma_g: F32,
    pub gamma_b: F32,
    pub wheels: ColorWheels,
    pub curves: ToneCurves,
    pub lut_path: Option<Seq<char>>,
    pub vignette: F32,
    pub vignette_x: F32,
    pub vignette_y: F32,
}

/// White balance, hue and gamma.
pub open spec fn tint_steps(g: ColorGrade) -> Seq<Step> {
    step_if(
        g.wb_temperature != WB_NEUTRAL_TEMP || !zero32(g.wb_tint),
        Step::WhiteBalance { temperature_k: g.wb_temperature, tint: g.wb_tint },
    ) + step_if(!zero32(g.hue_degrees), Step::Hue { degrees: g.hue_degrees }) + step_if(
        !one32(g.gamma_r) || !one32(g.gamma_g) || !one32(g.gamma_b),
        Step::Gamma { r: g.gamma_r, g: g.gamma_g, b: g.gamma_b },
    )
}

/// Colour wheels, tone curves and look-up table.
pub open spec fn look_steps(g: ColorGrade) -> Seq<Step> {
    step_if(
        !g.wheels.neutral(),
        Step::ThreeWayCC { lift: g.wheels.lift, gamma: g.wheels.gamma, gain: g.wheels.gain },
    ) + step_if(
        !g.curves.neutral(),
        Step::Curves {
            master: g.curves.master@,
            r: g.curves.r@,
            g: g.curves.g@,
            b: g.curves.b@,
        },
    ) + match g.lut_path {
        Some(path) => seq![Step::Lut3d { path }],
        None => Seq::empty(),
    }
}

/// The vignette, which needs a frame to find its centre in.
pub open spec fn vignette_steps(g: ColorGrade, width: u32, height: u32) -> Seq<Step> {
    step_if(
        positive32(g.vignette) && width > 0 && height > 0,
        Step::Vignette {
            strength: g.vignette,
            centre_x: g.vignette_x,
            centre_y: g.vignette_y,
            width,
            height,
        },
    )
}

/// The grade in its order: white balance, hue, gamma, wheels, curves, look-up
/// table, vignette. Brightness, contrast and saturation are no step of their own
/// but set on the clip.
pub open spec fn grade_steps(g: ColorGrade, width: u32, height: u32) -> Seq<Step> {
    tint_steps(g) + look_steps(g) + vignette_steps(g, width, height)
}

/// `clip` with the grade's brightness, contrast and saturation, where they are
/// not neutral.
pub open spec fn corrected(clip: Clip, brightness: F32, contrast: F32, saturation: F32) -> Clip {
    if corrects_color(brightness, contrast, saturation) {
        Clip { brightness, contrast, saturation, ..clip }
    } else {
        clip
    }
}

fn apply_tints(
    clip: Clip,
    wb_temperature: u32,
    wb_tint: F32,
    hue_degrees: F32,
    gamma_r: F32,
    gamma_g: F32,
    gamma_b: F32,
) -> (r: Clip)
    ensures
        r == (Clip { video_effects: r.video_effects, ..clip }),
        forall|g: ColorGrade|
            g.wb_temperature == wb_temperature && g.wb_tint == wb_tint && g.hue_degrees
                == hue_degrees && g.gamma_r == gamma_r && g.gamma_g == gamma_g && g.gamma_b
                == gamma_b ==> video_chain(r) == video_chain(clip) + #[trigger] tint_steps(g),
{
    let mut r = clip;
    if wb_temperature != WB_NEUTRAL_TEMP || !wb_tint.is_zero() {
        r = r.with_video_effect(
            FilterStep::WhiteBalance { temperature_k: wb_temperature, tint: wb_tint },
        );
    }
    if !hue_degrees.is_zero() {
        r = r.with_video_effect(FilterStep::Hue { degrees: hue_degrees });
    }
    if !gamma_r.is_one() || !gamma_g.is_one() || !gamma_b.is_one() {
        r = r.with_video_effect(FilterStep::Gamma { r: gamma_r, g: gamma_g, b: gamma_b });
    }
    assert forall|g: ColorGrade|
        g.wb_temperature == wb_temperature && g.wb_tint == wb_tint && g.hue_degrees == hue_degrees
            && g.gamma_r == gamma_r && g.gamma_g == gamma_g && g.gamma_b
            == gamma_b implies video_chain(r) == video_chain(clip) + #[trigger] tint_steps(g) by {
        assert(video_chain(r) =~= video_chain(clip) + tint_steps(g));
    }
    r
}

fn apply_looks(
    clip: Clip,
    wheels: &ColorWheels,
    curves: &ToneCurves,
    lut_path: Option<&str>,
) -> (r: Clip)
    ensures
        r == (Clip { video_effects: r.video_effects, ..clip }),
        forall|g: ColorGrade|
            g.wheels == wheels && g.curves == curves && g.lut_path == lut_text(lut_path)
                ==> video_chain(r) == video_chain(clip) + #[trigger] look_steps(g),
{
    let mut r = clip;
    if !wheels.is_neutral() {
        r = r.with_video_effect(
            FilterStep::ThreeWayCC { lift: wheels.lift, gamma: wheels.gamma, gain: wheels.gain },
        );
    }
    if !curves.is_neutral() {
        r = r.with_video_effect(
            FilterStep::Curves {
                master: copy_points(&curves.master),
                r: copy_points(&curves.r),
                g: copy_points(&curves.g),
                b: copy_points(&curves.b),
            },
        );
    }
    if let Some(path) = lut_path {
        r = r.with_video_effect(FilterStep::Lut3d { path: path.to_owned() });
    }
    assert forall|g: ColorGrade|
        g.wheels == wheels && g.curves == curves && g.lut_path == lut_text(
            lut_path,
        ) implies video_chain(r) == video_chain(clip) + #[trigger] look_steps(g) by {
        assert(video_chain(r) =~= video_chain(clip) + look_steps(g));
    }
    r
}

/// The characters of an optional path.
pub open spec fn lut_text(path: Option<&str>) -> Option<Seq<char>> {
    match path {
        Some(p) => Some(p@),
        None => None,
    }
}

/// Adds the colour grade.
#[allow(clippy::too_many_arguments)]
pub fn apply_color_grade(
    clip: Clip,
    brightness: F32,
    contrast: F32,
    saturation: F32,
    wb_temperature: u32,
    wb_tint: F32,
    hue_degrees: F32,
    gamma_r: F32,
    gamma_g: F32,
    gamma_b: F32,
    wheels: &ColorWheels,
    curves: &ToneCurves,
    lut_path: Option<&str>,
    vignette: F32,
    vignette_x: F32,
    vignette_y: F32,
    width: u32,
    height: u32,
) -> (r: Clip)
    ensures
        r == (Clip {
            video_effects: r.video_effects,
            ..corrected(clip, brightness, contrast, saturation)
        }),
        video_chain(r) == video_chain(clip) + grade_steps(
            (ColorGrade {
                brightness,
                contrast,
                saturation,
                wb_temperature,
                wb_tint,
                hue_degrees,
                gamma_r,
                gamma_g,
                gamma_b,
                wheels: *wheels,
                curves: *curves,
                lut_path: lut_text(lut_path),
                vignette,
                vignette_x,
                vignette_y,
            }),
            width,
            height,
        ),
{
    let ghost g = ColorGrade {
        brightness,
        contrast,
        saturation,
        wb_temperature,
        wb_tint,
        hue_degrees,
        gamma_r,
        gamma_g,
        gamma_b,
        wheels: *wheels,
        curves: *curves,
        lut_path: lut_text(lut_path),
        vignette,
        vignette_x,
        vignette_y,
    };
    let mut r = clip;
    if !brightness.is_zero() || !contrast.is_one() || !saturation.is_one() {
        r.brightness = brightness;
        r.contrast = contrast;
        r.saturation = saturation;
    }
    r = apply_tints(r, wb_temperature, wb_tint, hue_degrees, gamma_r, gamma_g, gamma_b);
    assert(video_chain(r) == video_chain(clip) + tint_steps(g));
    r = apply_looks(r, wheels, curves, lut_path);
    assert(video_chain(r) == video_chain(clip) + tint_steps(g) + look_steps(g));
    if vignette.is_positive() && width > 0 && height > 0 {
        r = r.with_video_effect(
            FilterStep::Vignette {
                strength: vignette,
                centre_x: vignette_x,
                centre_y: vignette_y,
                width,
                height,
            },
        );
    }
    assert(video_chain(r) =~= video_chain(clip) + grade_steps(g, width, height));
    r
}

// ── Stackable effects ─────────────────────────────────────────────────────────

/// How bright a part of the picture is at least that glows: 0.6, as bits.
pub const GLOW_THRESHOLD: u32 = 0x3f19_999a;

/// How far a glow reaches: 8.0 pixels, as bits.
pub const GLOW_RADIUS: u32 = 0x4100_0000;

/// The glow of an intensity.
pub open spec fn glow_step(intensity: F32) -> Step {
    Step::Glow { threshold: f32_of(GLOW_THRESHOLD), radius: f32_of(GLOW_RADIUS), intensity }
}

/// Blur, sharpen, denoise, grain, glow, motion blur and chromatic aberration, in
/// this order, each where it is above zero.
pub open spec fn effect_steps(fx: VideoEffects, aberration: u32) -> Seq<Step> {
    step_if(positive32(fx.blur), Step::GBlur { sigma: fx.blur }) + step_if(
        positive32(fx.sharpen),
        Step::Unsharp { strength: fx.sharpen },
    ) + step_if(positive32(fx.denoise), Step::Hqdn3d { strength: fx.denoise }) + step_if(
        positive32(fx.grain),
        Step::FilmGrain { strength: fx.grain },
    ) + step_if(positive32(fx.glow), glow_step(fx.glow)) + step_if(
        positive32(fx.motion_blur),
        Step::MotionBlur { shutter_angle_degrees: fx.motion_blur, sub_frames: 8 },
    ) + step_if(
        positive32(fx.chromatic_aberration),
        Step::ChromaticAberration { rh: aberration as i32, bh: (-(aberration as int)) as i32 },
    )
}

/// Adds the stackable effects. They come after the colour grade.
pub fn apply_video_effects(clip: Clip, fx: &VideoEffects, px: &FramePixels) -> (r: Clip)
    requires
        px.aberration <= i32::MAX,
    ensures
        r == (Clip { video_effects: r.video_effects, ..clip }),
        video_chain(r) == video_chain(clip) + effect_steps(*fx, px.aberration),
{
    let n: i32 = px.aberration as i32;
    let r = clip.with_video_effect_if(
        fx.blur.is_positive(),
        FilterStep::GBlur { sigma: fx.blur },
    ).with_video_effect_if(
        fx.sharpen.is_positive(),
        FilterStep::Unsharp { strength: fx.sharpen },
    ).with_video_effect_if(
        fx.denoise.is_positive(),
        FilterStep::Hqdn3d { strength: fx.denoise },
    ).with_video_effect_if(
        fx.grain.is_positive(),
        FilterStep::FilmGrain { strength: fx.grain },
    ).with_video_effect_if(
        fx.glow.is_positive(),
        FilterStep::Glow {
            threshold: F32::of(GLOW_THRESHOLD),
            radius: F32::of(GLOW_RADIUS),
            intensity: fx.glow,
        },
    ).with_video_effect_if(
        fx.motion_blur.is_positive(),
        FilterStep::MotionBlur { shutter_angle_degrees: fx.motion_blur, sub_frames: 8 },
    ).with_video_effect_if(
        fx.chromatic_aberration.is_positive(),
        FilterStep::ChromaticAberration { rh: n, bh: -n },
    );
    proof {
        let base = video_chain(clip);
        let blur = step_if(positive32(fx.blur), Step::GBlur { sigma: fx.blur });
        let sharpen = step_if(positive32(fx.sharpen), Step::Unsharp { strength: fx.sharpen });
        let denoise = step_if(positive32(fx.denoise), Step::Hqdn3d { strength: fx.denoise });
        let grain = step_if(positive32(fx.grain), Step::FilmGrain { strength: fx.grain });
        let glow = step_if(positive32(fx.glow), glow_step(fx.glow));
        let motion = step_if(
            positive32(fx.motion_blur),
            Step::MotionBlur { shutter_angle_degrees: fx.motion_blur, sub_frames: 8 },
        );
        let shift = step_if(
            positive32(fx.chromatic_aberration),
            Step::ChromaticAberration {
                rh: px.aberration as i32,
                bh: (-(px.aberration as int)) as i32,
            },
        );
        joined(base, blur, sharpen);
        joined(base, blur + sharpen, denoise);
        joined(base, blur + sharpen + denoise, grain);
        joined(base, blur + sharpen + denoise + grain, glow);
        joined(base, blur + sharpen + denoise + grain + glow, motion);
        joined(base, blur + sharpen + denoise + grain + glow + motion, shift);
    }
    r
}

// ── What the steps are ────────────────────────────────────────────────────────

/// One for what is there, zero for what is not.
pub open spec fn count(there: bool) -> int {
    if there {
        1
    } else {
        0
    }
}

/// `kept` is the number that was asked for.
pub open spec fn keeps32(kept: F32, asked: F32) -> bool {
    kept == asked || eq32(kept, asked)
}

/// `kept` is the number that was asked for, or the end of `0.0..=1.0` that it lies beyond.
pub open spec fn keeps_unit32(kept: F32, asked: F32) -> bool {
    if lt32(asked, f32_of(F32_ZERO)) {
        zero32(kept)
    } else if lt32(f32_of(F32_ONE), asked) {
        one32(kept)
    } else {
        keeps32(kept, asked)
    }
}

/// A frozen frame is one step, at the asked moment and for the asked time.
pub proof fn freeze_is_one_step(freeze: Option<Freeze>)
    ensures
        freeze_steps(freeze).len() == count(freeze is Some),
        freeze matches Some(f) ==> freeze_steps(freeze)[0] == (Step::FreezeFrame {
            at_secs: f.at_secs,
            hold_secs: f.hold_secs,
        }),
{
}

/// Whether a text is `0x` and the hexadecimal digits of red, green and blue.
pub open spec fn tells_color(text: Seq<char>, color: Seq<u8>) -> bool {
    &&& text.len() == 8
    &&& text[0] == '0' && text[1] == 'x'
    &&& digit_value(text[2]) * 16 + digit_value(text[3]) == color[0]
    &&& digit_value(text[4]) * 16 + digit_value(text[5]) == color[1]
    &&& digit_value(text[6]) * 16 + digit_value(text[7]) == color[2]
}

/// A colour key that is on keys its own colour, by hue or by channel as its mode says,
/// with its own similarity and blend, and then takes the spill of that colour out where
/// that has a strength. One that is off does nothing.
pub proof fn key_is_for_its_color(k: Keying)
    ensures
        ({
            let s = keying_steps(k);
            &&& s.len() == (if k.enabled {
                1 + count(positive32(k.spill))
            } else {
                0
            })
            &&& k.enabled && k.mode == KeyMode::Chroma ==> s[0] is ChromaKey && tells_color(
                s[0]->ChromaKey_color,
                k.color@,
            ) && keeps_unit32(s[0]->ChromaKey_similarity, k.similarity) && keeps_unit32(
                s[0]->ChromaKey_blend,
                k.blend,
            )
            &&& k.enabled && k.mode == KeyMode::Color ==> s[0] is ColorKey && tells_color(
                s[0]->ColorKey_color,
                k.color@,
            ) && keeps_unit32(s[0]->ColorKey_similarity, k.similarity) && keeps_unit32(
                s[0]->ColorKey_blend,
                k.blend,
            )
            &&& k.enabled && positive32(k.spill) ==> s[1] is SpillSuppress && tells_color(
                s[1]->SpillSuppress_key_color,
                k.color@,
            ) && keeps_unit32(s[1]->SpillSuppress_strength, k.spill)
        }),
{
    reveal_strlit("0x");
    hex_reads_back(k.color@[0]);
    hex_reads_back(k.color@[1]);
    hex_reads_back(k.color@[2]);
    let text = key_color(k.color@);
    assert(text.len() == 8);
    assert(text[2] == upper_hex(k.color@[0])[0] && text[3] == upper_hex(k.color@[0])[1]);
    assert(text[4] == upper_hex(k.color@[1])[0] && text[5] == upper_hex(k.color@[1])[1]);
    assert(text[6] == upper_hex(k.color@[2])[0] && text[7] == upper_hex(k.color@[2])[1]);
    assert(tells_color(text, k.color@));
}

/// A crop takes its insets off the edges that they are for, to within a pixel, keeps a
/// rectangle with even numbers inside the frame, and fills the frame with it again. It is
/// left out where no inset is set, or less than two pixels would be left.
pub proof fn crop_takes_its_insets(t: Transform, width: u32, height: u32, px: FramePixels)
    requires
        insets_fit(px),
    ensures
        ({
            let s = crop_steps(t, width, height, px);
            let asked = positive32(t.crop_left) || positive32(t.crop_right) || positive32(
                t.crop_top,
            ) || positive32(t.crop_bottom);
            &&& !asked || width == 0 || height == 0 ==> s.len() == 0
            &&& s.len() == 0 || s.len() == 2
            &&& asked && width >= px.crop_left + px.crop_right + 3 && height >= px.crop_top
                + px.crop_bottom + 3 ==> s.len() == 2
            &&& s.len() == 2 ==> s[0] is Crop && s[1] == (Step::Scale {
                width,
                height,
                algorithm: ScaleAlgorithm::Bicubic,
            })
            &&& s.len() == 2 ==> {
                let (x, y) = (s[0]->Crop_x as int, s[0]->Crop_y as int);
                let (w, h) = (s[0]->Crop_width as int, s[0]->Crop_height as int);
                &&& x % 2 == 0 && y % 2 == 0 && w % 2 == 0 && h % 2 == 0 && w >= 2 && h >= 2
                &&& px.crop_left - 1 <= x <= px.crop_left
                &&& px.crop_top - 1 <= y <= px.crop_top
                &&& px.crop_right - 1 <= width - x - w <= px.crop_right + 1
                &&& px.crop_bottom - 1 <= height - y - h <= px.crop_bottom + 1
                &&& x + w <= width && y + h <= height
            }
        }),
{
}

/// After the crop come the horizontal flip, the vertical flip and the rotation, each where
/// it is asked for and by the angle that is asked for.
pub proof fn transform_flips_and_turns(t: Transform, width: u32, height: u32, px: FramePixels)
    ensures
        ({
            let s = transform_steps(t, width, height, px);
            let n = crop_steps(t, width, height, px).len() as int;
            let m = n + count(t.flip_h);
            &&& s.take(n) == crop_steps(t, width, height, px)
            &&& s.len() == m + count(t.flip_v) + count(!zero32(t.rotation))
            &&& t.flip_h ==> s[n] == Step::HFlip
            &&& t.flip_v ==> s[m] == Step::VFlip
            &&& !zero32(t.rotation) ==> s.last() == (Step::Rotate {
                angle_degrees: t.rotation,
                fill_color: "black"@,
            })
        }),
{
    let n = crop_steps(t, width, height, px).len() as int;
    assert(transform_steps(t, width, height, px).take(n) =~= crop_steps(t, width, height, px));
}

/// A grade has one step for each part that is not neutral, with the values of that part,
/// in the order of white balance, hue, gamma, wheels, curves, look-up table and vignette.
pub proof fn grade_has_its_parts(g: ColorGrade, width: u32, height: u32)
    ensures
        ({
            let s = grade_steps(g, width, height);
            let balance = g.wb_temperature != 6500 || !zero32(g.wb_tint);
            let hue = !zero32(g.hue_degrees);
            let gamma = !(one32(g.gamma_r) && one32(g.gamma_g) && one32(g.gamma_b));
            let wheels = !(zero32(g.wheels.lift.x) && zero32(g.wheels.lift.y) && zero32(
                g.wheels.lift.luma,
            ) && zero32(g.wheels.gamma.x) && zero32(g.wheels.gamma.y) && zero32(
                g.wheels.gamma.luma,
            ) && zero32(g.wheels.gain.x) && zero32(g.wheels.gain.y) && zero32(g.wheels.gain.luma));
            let curves = g.curves.master@.len() > 0 || g.curves.r@.len() > 0 || g.curves.g@.len()
                > 0 || g.curves.b@.len() > 0;
            let lut = g.lut_path is Some;
            let vignette = positive32(g.vignette) && width > 0 && height > 0;
            let n1 = count(balance);
            let n2 = n1 + count(hue);
            let n3 = n2 + count(gamma);
            let n4 = n3 + count(wheels);
            let n5 = n4 + count(curves);
            let n6 = n5 + count(lut);
            &&& s.len() == n6 + count(vignette)
            &&& balance ==> s[0] == (Step::WhiteBalance {
                temperature_k: g.wb_temperature,
                tint: g.wb_tint,
            })
            &&& hue ==> s[n1] == (Step::Hue { degrees: g.hue_degrees })
            &&& gamma ==> s[n2] == (Step::Gamma { r: g.gamma_r, g: g.gamma_g, b: g.gamma_b })
            &&& wheels ==> s[n3] == (Step::ThreeWayCC {
                lift: g.wheels.lift,
                gamma: g.wheels.gamma,
                gain: g.wheels.gain,
            })
            &&& curves ==> s[n4] == (Step::Curves {
                master: g.curves.master@,
                r: g.curves.r@,
                g: g.curves.g@,
                b: g.curves.b@,
            })
            &&& lut ==> s[n5] == (Step::Lut3d { path: g.lut_path->0 })
            &&& vignette ==> s[n6] == (Step::Vignette {
                strength: g.vignette,
                centre_x: g.vignette_x,
                centre_y: g.vignette_y,
                width,
                height,
            })
        }),
{
}

/// The stackable effects have one step for each that is above zero, with its own strength,
/// in the order of blur, sharpen, denoise, grain, glow, motion blur and aberration. The
/// aberration shifts red and blue the same way apart.
pub proof fn effects_have_their_strengths(fx: VideoEffects, aberration: u32)
    requires
        aberration <= i32::MAX,
    ensures
        ({
            let s = effect_steps(fx, aberration);
            let n1 = count(positive32(fx.blur));
            let n2 = n1 + count(positive32(fx.sharpen));
            let n3 = n2 + count(positive32(fx.denoise));
            let n4 = n3 + count(positive32(fx.grain));
            let n5 = n4 + count(positive32(fx.glow));
            let n6 = n5 + count(positive32(fx.motion_blur));
            &&& s.len() == n6 + count(positive32(fx.chromatic_aberration))
            &&& positive32(fx.blur) ==> s[0] == (Step::GBlur { sigma: fx.blur })
            &&& positive32(fx.sharpen) ==> s[n1] == (Step::Unsharp { strength: fx.sharpen })
            &&& positive32(fx.denoise) ==> s[n2] == (Step::Hqdn3d { strength: fx.denoise })
            &&& positive32(fx.grain) ==> s[n3] == (Step::FilmGrain { strength: fx.grain })
            &&& positive32(fx.glow) ==> s[n4] == (Step::Glow {
                threshold: f32_of(0x3f19_999au32),
                radius: f32_of(0x4100_0000u32),
                intensity: fx.glow,
            })
            &&& positive32(fx.motion_blur) ==> s[n5] == (Step::MotionBlur {
                shutter_angle_degrees: fx.motion_blur,
                sub_frames: 8,
            })
            &&& positive32(fx.chromatic_aberration) ==> s[n6] is ChromaticAberration
                && s[n6]->rh == aberration && s[n6]->bh == -aberration
        }),
{
}

/// A clip on which nothing was set plays as its source is: at normal speed and volume,
/// opaque, in its place, without fades, keys or steps.
pub proof fn untouched_clip_is_neutral(c: Clip)
    requires
        c.untouched(),
    ensures
        one32(c.speed) && zero32(c.volume_db) && one32(c.opacity),
        zero32(c.x) && zero32(c.y),
        zero32(c.brightness) && one32(c.contrast) && one32(c.saturation),
        c.fade_in.nanos == 0 && c.fade_out.nanos == 0 && c.transition is None,
        c.volume_track is None && c.opacity_track is None,
        c.x_track is None && c.y_track is None,
        c.blend_mode == BlendMode::Normal,
        c.video_effects@.len() == 0 && c.audio_effects@.len() == 0,
{
}

/// Colours are corrected as soon as brightness is not zero, or contrast or saturation not
/// one.
pub proof fn correction_is_for_what_is_set(brightness: F32, contrast: F32, saturation: F32)
    ensures
        !corrects_color(brightness, contrast, saturation) <==> brightness.bits % 0x8000_0000 == 0
            && contrast.bits == 0x3f80_0000 && saturation.bits == 0x3f80_0000,
{
}

} // verus!
