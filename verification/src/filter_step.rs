//! The steps of a filter chain.

use crate::float::{F32, F64};
use crate::keyframes::Key;
use crate::state::ColorWheel;
use vstd::prelude::*;

verus! {

/// How a frame is resampled when its size changes.
#[derive(Clone, Copy, PartialEq, Eq, Structural, Debug)]
pub enum ScaleAlgorithm {
    Fast,
    Bilinear,
    Bicubic,
    Lanczos,
}

/// One step of a clip's filter chain.
#[allow(inconsistent_fields)]
#[derive(Debug)]
pub enum FilterStep {
    /// Plays the clip backwards.
    Reverse,
    /// Plays the sound backwards.
    AReverse,
    /// Holds the frame at a moment.
    FreezeFrame { at_secs: F64, hold_secs: F64 },
    /// Makes a colour transparent, by its hue.
    ChromaKey { color: String, similarity: F32, blend: F32 },
    /// Makes a colour transparent, by its red, green and blue.
    ColorKey { color: String, similarity: F32, blend: F32 },
    /// Takes the key colour out of the edges.
    SpillSuppress { key_color: String, strength: F32 },
    Crop { x: u32, y: u32, width: u32, height: u32 },
    Scale { width: u32, height: u32, algorithm: ScaleAlgorithm },
    HFlip,
    VFlip,
    Rotate { angle_degrees: F32, fill_color: String },
    /// Brightness, contrast and saturation.
    Eq { brightness: F32, contrast: F32, saturation: F32 },
    WhiteBalance { temperature_k: u32, tint: F32 },
    Hue { degrees: F32 },
    Gamma { r: F32, g: F32, b: F32 },
    /// Three-way colour correction by the wheels.
    ThreeWayCC { lift: ColorWheel, gamma: ColorWheel, gain: ColorWheel },
    Curves { master: Vec<(F32, F32)>, r: Vec<(F32, F32)>, g: Vec<(F32, F32)>, b: Vec<(F32, F32)> },
    Lut3d { path: String },
    /// Darkened edges: strength and centre in percent of the frame size.
    Vignette { strength: F32, centre_x: F32, centre_y: F32, width: u32, height: u32 },
    GBlur { sigma: F32 },
    Unsharp { strength: F32 },
    Hqdn3d { strength: F32 },
    FilmGrain { strength: F32 },
    Glow { threshold: F32, radius: F32, intensity: F32 },
    MotionBlur { shutter_angle_degrees: F32, sub_frames: u8 },
    /// Shift of the red and the blue channel in pixels.
    ChromaticAberration { rh: i32, bh: i32 },
    Pad { width: u32, height: u32, x: i32, y: i32, color: String },
    OverlayImage {
        path: String,
        x: String,
        y: String,
        opacity: F32,
        width: Option<String>,
        height: Option<String>,
    },
    SubtitlesSrt { path: String, force_style: Option<String> },
    SubtitlesAss { path: String },
    RectMask { x: u32, y: u32, width: u32, height: u32, invert: bool },
    LumaKey { threshold: F32, tolerance: F32, softness: F32, invert: bool },
    PolygonMatte { vertices: Vec<(F32, F32)>, invert: bool },
    FeatherMask { radius: u32 },
    /// A fixed size in percent of the source.
    ScaleStatic { percent: F32, width: u32, height: u32, algorithm: ScaleAlgorithm },
    /// A size in percent of the source that follows keys.
    ScaleAnimated { percent: Vec<Key>, width: u32, height: u32, algorithm: ScaleAlgorithm },
}

/// What a [`FilterStep`] stands for: the step with its texts and lists as
/// sequences.
#[allow(inconsistent_fields)]
pub enum Step {
    Reverse,
    AReverse,
    FreezeFrame { at_secs: F64, hold_secs: F64 },
    ChromaKey { color: Seq<char>, similarity: F32, blend: F32 },
    ColorKey { color: Seq<char>, similarity: F32, blend: F32 },
    SpillSuppress { key_color: Seq<char>, strength: F32 },
    Crop { x: u32, y: u32, width: u32, height: u32 },
    Scale { width: u32, height: u32, algorithm: ScaleAlgorithm },
    HFlip,
    VFlip,
    Rotate { angle_degrees: F32, fill_color: Seq<char> },
    Eq { brightness: F32, contrast: F32, saturation: F32 },
    WhiteBalance { temperature_k: u32, tint: F32 },
    Hue { degrees: F32 },
    Gamma { r: F32, g: F32, b: F32 },
    ThreeWayCC { lift: ColorWheel, gamma: ColorWheel, gain: ColorWheel },
    Curves { master: Seq<(F32, F32)>, r: Seq<(F32, F32)>, g: Seq<(F32, F32)>, b: Seq<(F32, F32)> },
    Lut3d { path: Seq<char> },
    Vignette { strength: F32, centre_x: F32, centre_y: F32, width: u32, height: u32 },
    GBlur { sigma: F32 },
    Unsharp { strength: F32 },
    Hqdn3d { strength: F32 },
    FilmGrain { strength: F32 },
    Glow { threshold: F32, radius: F32, intensity: F32 },
    MotionBlur { shutter_angle_degrees: F32, sub_frames: u8 },
    ChromaticAberration { rh: i32, bh: i32 },
    Pad { width: u32, height: u32, x: i32, y: i32, color: Seq<char> },
    OverlayImage {
        path: Seq<char>,
        x: Seq<char>,
        y: Seq<char>,
        opacity: F32,
        width: Option<Seq<char>>,
        height: Option<Seq<char>>,
    },
    SubtitlesSrt { path: Seq<char>, force_style: Option<Seq<char>> },
    SubtitlesAss { path: Seq<char> },
    RectMask { x: u32, y: u32, width: u32, height: u32, invert: bool },
    LumaKey { threshold: F32, tolerance: F32, softness: F32, invert: bool },
    PolygonMatte { vertices: Seq<(F32, F32)>, invert: bool },
    FeatherMask { radius: u32 },
    ScaleStatic { percent: F32, width: u32, height: u32, algorithm: ScaleAlgorithm },
    ScaleAnimated { percent: Seq<Key>, width: u32, height: u32, algorithm: ScaleAlgorithm },
}

/// The characters of an optional text.
pub open spec fn text_of(s: Option<String>) -> Option<Seq<char>> {
    match s {
        Some(t) => Some(t@),
        None => None,
    }
}

impl View for FilterStep {
    type V = Step;

    open spec fn view(&self) -> Step {
        match *self {
            FilterStep::Reverse => Step::Reverse,
            FilterStep::AReverse => Step::AReverse,
            FilterStep::FreezeFrame { at_secs, hold_secs } => Step::FreezeFrame {
                at_secs,
                hold_secs,
            },
            FilterStep::ChromaKey { color, similarity, blend } => Step::ChromaKey {
                color: color@,
                similarity,
                blend,
            },
            FilterStep::ColorKey { color, similarity, blend } => Step::ColorKey {
                color: color@,
                similarity,
                blend,
            },
            FilterStep::SpillSuppress { key_color, strength } => Step::SpillSuppress {
                key_color: key_color@,
                strength,
            },
            FilterStep::Crop { x, y, width, height } => Step::Crop { x, y, width, height },
            FilterStep::Scale { width, height, algorithm } => Step::Scale {
                width,
                height,
                algorithm,
            },
            FilterStep::HFlip => Step::HFlip,
            FilterStep::VFlip => Step::VFlip,
            FilterStep::Rotate { angle_degrees, fill_color } => Step::Rotate {
                angle_degrees,
                fill_color: fill_color@,
            },
            FilterStep::Eq { brightness, contrast, saturation } => Step::Eq {
                brightness,
                contrast,
                saturation,
            },
            FilterStep::WhiteBalance { temperature_k, tint } => Step::WhiteBalance {
                temperature_k,
                tint,
            },
            FilterStep::Hue { degrees } => Step::Hue { degrees },
            FilterStep::Gamma { r, g, b } => Step::Gamma { r, g, b },
            FilterStep::ThreeWayCC { lift, gamma, gain } => Step::ThreeWayCC { lift, gamma, gain },
            FilterStep::Curves { master, r, g, b } => Step::Curves {
                master: master@,
                r: r@,
                g: g@,
                b: b@,
            },
            FilterStep::Lut3d { path } => Step::Lut3d { path: path@ },
            FilterStep::Vignette { strength, centre_x, centre_y, width, height } => Step::Vignette {
                strength,
                centre_x,
                centre_y,
                width,
                height,
            },
            FilterStep::GBlur { sigma } => Step::GBlur { sigma },
            FilterStep::Unsharp { strength } => Step::Unsharp { strength },
            FilterStep::Hqdn3d { strength } => Step::Hqdn3d { strength },
            FilterStep::FilmGrain { strength } => Step::FilmGrain { strength },
            FilterStep::Glow { threshold, radius, intensity } => Step::Glow {
                threshold,
                radius,
                intensity,
            },
            FilterStep::MotionBlur { shutter_angle_degrees, sub_frames } => Step::MotionBlur {
                shutter_angle_degrees,
                sub_frames,
            },
            FilterStep::ChromaticAberration { rh, bh } => Step::ChromaticAberration { rh, bh },
            FilterStep::Pad { width, height, x, y, color } => Step::Pad {
                width,
                height,
                x,
                y,
                color: color@,
            },
            FilterStep::OverlayImage { path, x, y, opacity, width, height } => Step::OverlayImage {
                path: path@,
                x: x@,
                y: y@,
                opacity,
                width: text_of(width),
                height: text_of(height),
            },
            FilterStep::SubtitlesSrt { path, force_style } => Step::SubtitlesSrt {
                path: path@,
                force_style: text_of(force_style),
            },
            FilterStep::SubtitlesAss { path } => Step::SubtitlesAss { path: path@ },
            FilterStep::RectMask { x, y, width, height, invert } => Step::RectMask {
                x,
                y,
                width,
                height,
                invert,
            },
            FilterStep::LumaKey { threshold, tolerance, softness, invert } => Step::LumaKey {
                threshold,
                tolerance,
                softness,
                invert,
            },
            FilterStep::PolygonMatte { vertices, invert } => Step::PolygonMatte {
                vertices: vertices@,
                invert,
            },
            FilterStep::FeatherMask { radius } => Step::FeatherMask { radius },
            FilterStep::ScaleStatic { percent, width, height, algorithm } => Step::ScaleStatic {
                percent,
                width,
                height,
                algorithm,
            },
            FilterStep::ScaleAnimated { percent, width, height, algorithm } => Step::ScaleAnimated {
                percent: percent@,
                width,
                height,
                algorithm,
            },
        }
    }
}

/// What a list of steps stands for.
pub open spec fn chain_of(steps: Seq<FilterStep>) -> Seq<Step> {
    steps.map_values(|s: FilterStep| s@)
}

/// Adding a step adds what it stands for.
pub proof fn chain_push(steps: Seq<FilterStep>, step: FilterStep)
    ensures
        chain_of(steps.push(step)) == chain_of(steps).push(step@),
{
    assert(chain_of(steps.push(step)) =~= chain_of(steps).push(step@));
}

/// A step stands for itself: what it does and each of its settings are the same.
pub proof fn step_tells_its_settings(step: FilterStep)
    ensures
        match step {
            FilterStep::Reverse => step@ is Reverse,
            FilterStep::AReverse => step@ is AReverse,
            FilterStep::FreezeFrame { at_secs, hold_secs } => {
                &&& step@ is FreezeFrame
                &&& step@->at_secs == at_secs
                &&& step@->hold_secs == hold_secs
            },
            FilterStep::ChromaKey { color, similarity, blend } => {
                &&& step@ is ChromaKey
                &&& step@->ChromaKey_color == color@
                &&& step@->ChromaKey_similarity == similarity
                &&& step@->ChromaKey_blend == blend
            },
            FilterStep::ColorKey { color, similarity, blend } => {
                &&& step@ is ColorKey
                &&& step@->ColorKey_color == color@
                &&& step@->ColorKey_similarity == similarity
                &&& step@->ColorKey_blend == blend
            },
            FilterStep::SpillSuppress { key_color, strength } => {
                &&& step@ is SpillSuppress
                &&& step@->key_color == key_color@
                &&& step@->SpillSuppress_strength == strength
            },
            FilterStep::Crop { x, y, width, height } => {
                &&& step@ is Crop
                &&& step@->Crop_x == x
                &&& step@->Crop_y == y
                &&& step@->Crop_width == width
                &&& step@->Crop_height == height
            },
            FilterStep::Scale { width, height, algorithm } => {
                &&& step@ is Scale
                &&& step@->Scale_width == width
                &&& step@->Scale_height == height
                &&& step@->Scale_algorithm == algorithm
            },
            FilterStep::HFlip => step@ is HFlip,
            FilterStep::VFlip => step@ is VFlip,
            FilterStep::Rotate { angle_degrees, fill_color } => {
                &&& step@ is Rotate
                &&& step@->angle_degrees == angle_degrees
                &&& step@->fill_color == fill_color@
            },
            FilterStep::Eq { brightness, contrast, saturation } => {
                &&& step@ is Eq
                &&& step@->brightness == brightness
                &&& step@->contrast == contrast
                &&& step@->saturation == saturation
            },
            FilterStep::WhiteBalance { temperature_k, tint } => {
                &&& step@ is WhiteBalance
                &&& step@->temperature_k == temperature_k
                &&& step@->tint == tint
            },
            FilterStep::Hue { degrees } => {
                &&& step@ is Hue
                &&& step@->degrees == degrees
            },
            FilterStep::Gamma { r, g, b } => {
                &&& step@ is Gamma
                &&& step@->Gamma_r == r
                &&& step@->Gamma_g == g
                &&& step@->Gamma_b == b
            },
            FilterStep::ThreeWayCC { lift, gamma, gain } => {
                &&& step@ is ThreeWayCC
                &&& step@->lift == lift
                &&& step@->gamma == gamma
                &&& step@->gain == gain
            },
            FilterStep::Curves { master, r, g, b } => {
                &&& step@ is Curves
                &&& step@->master == master@
                &&& step@->Curves_r == r@
                &&& step@->Curves_g == g@
                &&& step@->Curves_b == b@
            },
            FilterStep::Lut3d { path } => {
                &&& step@ is Lut3d
                &&& step@->Lut3d_path == path@
            },
            FilterStep::Vignette { strength, centre_x, centre_y, width, height } => {
                &&& step@ is Vignette
                &&& step@->Vignette_strength == strength
                &&& step@->centre_x == centre_x
                &&& step@->centre_y == centre_y
                &&& step@->Vignette_width == width
                &&& step@->Vignette_height == height
            },
            FilterStep::GBlur { sigma } => {
                &&& step@ is GBlur
                &&& step@->sigma == sigma
            },
            FilterStep::Unsharp { strength } => {
                &&& step@ is Unsharp
                &&& step@->Unsharp_strength == strength
            },
            FilterStep::Hqdn3d { strength } => {
                &&& step@ is Hqdn3d
                &&& step@->Hqdn3d_strength == strength
            },
            FilterStep::FilmGrain { strength } => {
                &&& step@ is FilmGrain
                &&& step@->FilmGrain_strength == strength
            },
            FilterStep::Glow { threshold, radius, intensity } => {
                &&& step@ is Glow
                &&& step@->Glow_threshold == threshold
                &&& step@->Glow_radius == radius
                &&& step@->intensity == intensity
            },
            FilterStep::MotionBlur { shutter_angle_degrees, sub_frames } => {
                &&& step@ is MotionBlur
                &&& step@->shutter_angle_degrees == shutter_angle_degrees
                &&& step@->sub_frames == sub_frames
            },
            FilterStep::ChromaticAberration { rh, bh } => {
                &&& step@ is ChromaticAberration
                &&& step@->rh == rh
                &&& step@->bh == bh
            },
            FilterStep::Pad { width, height, x, y, color } => {
                &&& step@ is Pad
                &&& step@->Pad_width == width
                &&& step@->Pad_height == height
                &&& step@->Pad_x == x
                &&& step@->Pad_y == y
                &&& step@->Pad_color == color@
            },
            FilterStep::OverlayImage { path, x, y, opacity, width, height } => {
                &&& step@ is OverlayImage
                &&& step@->OverlayImage_path == path@
                &&& step@->OverlayImage_x == x@
                &&& step@->OverlayImage_y == y@
                &&& step@->opacity == opacity
                &&& step@->OverlayImage_width is Some <==> width is Some
                &&& width is Some ==> step@->OverlayImage_width->0 == width->0@
                &&& step@->OverlayImage_height is Some <==> height is Some
                &&& height is Some ==> step@->OverlayImage_height->0 == height->0@
            },
            FilterStep::SubtitlesSrt { path, force_style } => {
                &&& step@ is SubtitlesSrt
                &&& step@->SubtitlesSrt_path == path@
                &&& step@->force_style is Some <==> force_style is Some
                &&& force_style is Some ==> step@->force_style->0 == force_style->0@
            },
            FilterStep::SubtitlesAss { path } => {
                &&& step@ is SubtitlesAss
                &&& step@->SubtitlesAss_path == path@
            },
            FilterStep::RectMask { x, y, width, height, invert } => {
                &&& step@ is RectMask
                &&& step@->RectMask_x == x
                &&& step@->RectMask_y == y
                &&& step@->RectMask_width == width
                &&& step@->RectMask_height == height
                &&& step@->RectMask_invert == invert
            },
            FilterStep::LumaKey { threshold, tolerance, softness, invert } => {
                &&& step@ is LumaKey
                &&& step@->LumaKey_threshold == threshold
                &&& step@->tolerance == tolerance
                &&& step@->softness == softness
                &&& step@->LumaKey_invert == invert
            },
            FilterStep::PolygonMatte { vertices, invert } => {
                &&& step@ is PolygonMatte
                &&& step@->vertices == vertices@
                &&& step@->PolygonMatte_invert == invert
            },
            FilterStep::FeatherMask { radius } => {
                &&& step@ is FeatherMask
                &&& step@->FeatherMask_radius == radius
            },
            FilterStep::ScaleStatic { percent, width, height, algorithm } => {
                &&& step@ is ScaleStatic
                &&& step@->ScaleStatic_percent == percent
                &&& step@->ScaleStatic_width == width
                &&& step@->ScaleStatic_height == height
                &&& step@->ScaleStatic_algorithm == algorithm
            },
            FilterStep::ScaleAnimated { percent, width, height, algorithm } => {
                &&& step@ is ScaleAnimated
                &&& step@->ScaleAnimated_percent == percent@
                &&& step@->ScaleAnimated_width == width
                &&& step@->ScaleAnimated_height == height
                &&& step@->ScaleAnimated_algorithm == algorithm
            },
        },
{
}

/// A chain stands for its steps, each in its place.
pub proof fn chain_tells_its_steps(steps: Seq<FilterStep>, i: int)
    requires
        0 <= i < steps.len(),
    ensures
        chain_of(steps).len() == steps.len(),
        chain_of(steps)[i] == steps[i]@,
{
}

} // verus!
